//! The sign-in state: who is signed in, how a callback address or the
//! answer to an access code changes that, and what is kept on disk. The
//! manager opens no browser, sends no request and touches no file: it says
//! what to send and what to store, and takes what came back.

use vstd::prelude::*;
use vstd::slice::slice_subrange;
use vstd::string::{StringExecFns, StringSliceAdditionalSpecFns};
use vstd::utf8::{decode_utf8, encode_utf8, encode_utf8_decode_utf8, valid_utf8};
use crate::json::{
    json_document, parse, string_literal, text_of_bytes, EncodeError, Json, JsonValue,
};
use crate::protocol::optional_text;

verus! {

/// Who is signed in.
#[derive(Debug, Clone, PartialEq, Eq)]
pub struct AuthState {
    pub is_authenticated: bool,
    pub email: Option<String>,
    pub api_key: Option<String>,
    pub github_username: Option<String>,
    pub full_name: Option<String>,
    pub avatar_url: Option<String>,
}

/// What the manager tells its listeners.
#[derive(Debug, Clone, PartialEq, Eq)]
pub enum AuthEvent {
    SignedIn,
    SignedOut,
    AuthError(String),
}

/// What a sign-in brings: the key and the profile that came with it.
#[derive(Debug, Clone, PartialEq, Eq)]
pub struct Credentials {
    pub api_key: String,
    pub email: Option<String>,
    pub github_username: Option<String>,
    pub full_name: Option<String>,
    pub avatar_url: Option<String>,
}

/// What is to happen to the credentials on disk.
#[derive(Debug, Clone, PartialEq, Eq)]
pub enum StoreAction {
    Keep,
    Save(Credentials),
    Remove,
}

/// What the caller is to do after the manager took something in.
#[derive(Debug, Clone, PartialEq, Eq)]
pub struct AuthOutcome {
    /// The event to emit, if any.
    pub event: Option<AuthEvent>,
    /// What to do with the credentials on disk.
    pub store: StoreAction,
    /// Whether the state changed, so that its observers are to be told.
    pub notify: bool,
}

/// What a callback address says.
#[derive(Debug, Clone, PartialEq, Eq)]
pub enum Callback {
    /// The sign-in succeeded, with these credentials.
    SignedIn(Credentials),
    /// The sign-in failed, for this reason.
    Failed(String),
    /// The address says nothing to act on.
    Ignored,
}

/// The request that trades an access code for a key.
#[derive(Debug, Clone, PartialEq, Eq)]
pub struct AccessCodeRequest {
    /// Where to post.
    pub url: String,
    /// The JSON body to post.
    pub body: String,
}

/// What became of the request for an access code.
#[derive(Debug, Clone, PartialEq, Eq)]
pub enum AccessCodeReply {
    /// The request could not be built.
    NotBuilt,
    /// The request could not be sent.
    Unreachable,
    /// The answer could not be read.
    Unreadable,
    /// The answer came with a status that is no success.
    Refused,
    /// The answer came with a status of success and this body.
    Body(Vec<u8>),
}

/// The sign-in state as a mathematical value.
pub struct AuthStateView {
    pub is_authenticated: bool,
    pub email: Option<Seq<char>>,
    pub api_key: Option<Seq<char>>,
    pub github_username: Option<Seq<char>>,
    pub full_name: Option<Seq<char>>,
    pub avatar_url: Option<Seq<char>>,
}

/// An event as a mathematical value.
pub enum AuthEventView {
    SignedIn,
    SignedOut,
    AuthError(Seq<char>),
}

/// Credentials as a mathematical value.
pub struct CredentialsView {
    pub api_key: Seq<char>,
    pub email: Option<Seq<char>>,
    pub github_username: Option<Seq<char>>,
    pub full_name: Option<Seq<char>>,
    pub avatar_url: Option<Seq<char>>,
}

/// What is to happen to the stored credentials, as a mathematical value.
pub enum StoreView {
    Keep,
    Save(CredentialsView),
    Remove,
}

/// An outcome as a mathematical value.
pub struct OutcomeView {
    pub event: Option<AuthEventView>,
    pub store: StoreView,
    pub notify: bool,
}

/// What a callback address says, as a mathematical value.
pub enum CallbackView {
    SignedIn(CredentialsView),
    Failed(Seq<char>),
    Ignored,
}

/// What became of a request, as a mathematical value.
pub enum ReplyView {
    NotBuilt,
    Unreachable,
    Unreadable,
    Refused,
    Body(Seq<u8>),
}

impl View for AuthState {
    type V = AuthStateView;

    open spec fn view(&self) -> AuthStateView {
        AuthStateView {
            is_authenticated: self.is_authenticated,
            email: optional_text(self.email),
            api_key: optional_text(self.api_key),
            github_username: optional_text(self.github_username),
            full_name: optional_text(self.full_name),
            avatar_url: optional_text(self.avatar_url),
        }
    }
}

impl View for AuthEvent {
    type V = AuthEventView;

    open spec fn view(&self) -> AuthEventView {
        match *self {
            AuthEvent::SignedIn => AuthEventView::SignedIn,
            AuthEvent::SignedOut => AuthEventView::SignedOut,
            AuthEvent::AuthError(text) => AuthEventView::AuthError(text@),
        }
    }
}

impl View for Credentials {
    type V = CredentialsView;

    open spec fn view(&self) -> CredentialsView {
        CredentialsView {
            api_key: self.api_key@,
            email: optional_text(self.email),
            github_username: optional_text(self.github_username),
            full_name: optional_text(self.full_name),
            avatar_url: optional_text(self.avatar_url),
        }
    }
}

impl View for StoreAction {
    type V = StoreView;

    open spec fn view(&self) -> StoreView {
        match *self {
            StoreAction::Keep => StoreView::Keep,
            StoreAction::Save(credentials) => StoreView::Save(credentials@),
            StoreAction::Remove => StoreView::Remove,
        }
    }
}

impl View for AuthOutcome {
    type V = OutcomeView;

    open spec fn view(&self) -> OutcomeView {
        OutcomeView {
            event: match self.event {
                Some(event) => Some(event@),
                None => None,
            },
            store: self.store@,
            notify: self.notify,
        }
    }
}

impl View for Callback {
    type V = CallbackView;

    open spec fn view(&self) -> CallbackView {
        match *self {
            Callback::SignedIn(credentials) => CallbackView::SignedIn(credentials@),
            Callback::Failed(reason) => CallbackView::Failed(reason@),
            Callback::Ignored => CallbackView::Ignored,
        }
    }
}

impl View for AccessCodeReply {
    type V = ReplyView;

    open spec fn view(&self) -> ReplyView {
        match *self {
            AccessCodeReply::NotBuilt => ReplyView::NotBuilt,
            AccessCodeReply::Unreachable => ReplyView::Unreachable,
            AccessCodeReply::Unreadable => ReplyView::Unreadable,
            AccessCodeReply::Refused => ReplyView::Refused,
            AccessCodeReply::Body(bytes) => ReplyView::Body(bytes@),
        }
    }
}

/// The state in which nobody is signed in.
pub open spec fn signed_out() -> AuthStateView {
    AuthStateView {
        is_authenticated: false,
        email: None,
        api_key: None,
        github_username: None,
        full_name: None,
        avatar_url: None,
    }
}

/// The state in which the holder of these credentials is signed in.
pub open spec fn signed_in(c: CredentialsView) -> AuthStateView {
    AuthStateView {
        is_authenticated: true,
        email: c.email,
        api_key: Some(c.api_key),
        github_username: c.github_username,
        full_name: c.full_name,
        avatar_url: c.avatar_url,
    }
}

/// The outcome that only emits an error.
pub open spec fn failure(reason: Seq<char>) -> OutcomeView {
    OutcomeView {
        event: Some(AuthEventView::AuthError(reason)),
        store: StoreView::Keep,
        notify: false,
    }
}

/// The outcome of a sign-in: the credentials are saved, `SignedIn` is
/// emitted, the observers are told.
pub open spec fn success(c: CredentialsView) -> OutcomeView {
    OutcomeView { event: Some(AuthEventView::SignedIn), store: StoreView::Save(c), notify: true }
}

/// The outcome that asks for nothing.
pub open spec fn nothing() -> OutcomeView {
    OutcomeView { event: None, store: StoreView::Keep, notify: false }
}

/// Whether `bytes` begins with `prefix`.
pub open spec fn starts_with(bytes: Seq<u8>, prefix: Seq<u8>) -> bool {
    prefix.len() <= bytes.len() && bytes.take(prefix.len() as int) == prefix
}

/// What follows the first question mark, if there is one.
pub open spec fn query_of(bytes: Seq<u8>) -> Option<Seq<u8>>
    decreases bytes.len(),
{
    if bytes.len() == 0 {
        None
    } else if bytes[0] == 0x3f {
        Some(bytes.drop_first())
    } else {
        query_of(bytes.drop_first())
    }
}

/// The value of the last pair called `key`.
pub open spec fn last_value(pairs: Seq<(Seq<char>, Seq<char>)>, key: Seq<char>) -> Option<
    Seq<char>,
>
    decreases pairs.len(),
{
    if pairs.len() == 0 {
        None
    } else if pairs.last().0 == key {
        Some(pairs.last().1)
    } else {
        last_value(pairs.drop_last(), key)
    }
}

/// Pairs of strings as pairs of their characters.
pub open spec fn pair_views(pairs: Seq<(String, String)>) -> Seq<(Seq<char>, Seq<char>)> {
    pairs.map_values(|p: (String, String)| (p.0@, p.1@))
}

/// The name and value pairs that the `url` crate reads from a query in the
/// syntax of submitted forms, in the order in which they stand.
pub uninterp spec fn form_fields(query: Seq<u8>) -> Seq<(Seq<char>, Seq<char>)>;

/// `text` without the white space at its two ends, as `str::trim` gives it.
pub uninterp spec fn trimmed(text: Seq<char>) -> Seq<char>;

/// `url::form_urlencoded::parse`, with each pair as two owned strings. The
/// result is what `form_fields` names.
#[verifier::external_body]
fn read_form(query: &[u8]) -> (pairs: Vec<(String, String)>)
    ensures
        pair_views(pairs@) == form_fields(query@),
{
    url::form_urlencoded::parse(query).into_owned().collect()
}

/// `str::trim`. The result is what `trimmed` names.
#[verifier::external_body]
fn trim(text: &str) -> (r: &str)
    ensures
        r@ == trimmed(text@),
{
    text.trim()
}

/// What the fields of a successful callback bring: the key, with the email
/// and the user name where they are given. Without a key there is nothing.
pub open spec fn callback_credentials(fields: Seq<(Seq<char>, Seq<char>)>) -> Option<
    CredentialsView,
> {
    match last_value(fields, "api_key"@) {
        Some(key) => Some(
            CredentialsView {
                api_key: key,
                email: last_value(fields, "email"@),
                github_username: last_value(fields, "github_username"@),
                full_name: None,
                avatar_url: None,
            },
        ),
        None => None,
    }
}

/// The words in which a failed callback is reported.
pub open spec fn callback_failure(fields: Seq<(Seq<char>, Seq<char>)>) -> Seq<char> {
    "Sign in failed: "@ + (match last_value(fields, "error"@) {
        Some(error) => error,
        None => "unknown"@,
    }) + " - "@ + (match last_value(fields, "description"@) {
        Some(description) => description,
        None => ""@,
    })
}

/// What a callback address with these fields says; `succeeded` tells the
/// address of success from that of failure.
pub open spec fn callback_from_fields(
    succeeded: bool,
    fields: Seq<(Seq<char>, Seq<char>)>,
) -> CallbackView {
    if succeeded {
        match callback_credentials(fields) {
            Some(c) => CallbackView::SignedIn(c),
            None => CallbackView::Ignored,
        }
    } else {
        CallbackView::Failed(callback_failure(fields))
    }
}

/// The bytes with which the address of a successful sign-in begins.
pub open spec fn success_prefix() -> Seq<u8> {
    encode_utf8("witchcraft://auth/success"@)
}

/// The bytes with which the address of a failed sign-in begins.
pub open spec fn error_prefix() -> Seq<u8> {
    encode_utf8("witchcraft://auth/error"@)
}

/// What a callback address says. Only an address that begins as one of
/// the two callbacks and has a query says anything.
pub open spec fn callback_of(url: Seq<u8>) -> CallbackView {
    if starts_with(url, success_prefix()) {
        match query_of(url) {
            Some(query) => callback_from_fields(true, form_fields(query)),
            None => CallbackView::Ignored,
        }
    } else if starts_with(url, error_prefix()) {
        match query_of(url) {
            Some(query) => callback_from_fields(false, form_fields(query)),
            None => CallbackView::Ignored,
        }
    } else {
        CallbackView::Ignored
    }
}

/// The state after a callback. A successful one signs its user in and
/// leaves the name and the picture as they were.
pub open spec fn state_after_callback(state: AuthStateView, callback: CallbackView) -> AuthStateView {
    match callback {
        CallbackView::SignedIn(c) => AuthStateView {
            is_authenticated: true,
            api_key: Some(c.api_key),
            email: c.email,
            github_username: c.github_username,
            ..state
        },
        _ => state,
    }
}

/// What the caller is to do after a callback.
pub open spec fn outcome_of_callback(callback: CallbackView) -> OutcomeView {
    match callback {
        CallbackView::SignedIn(c) => success(c),
        CallbackView::Failed(reason) => failure(reason),
        CallbackView::Ignored => nothing(),
    }
}

/// The credentials in the answer to an access code: the member `user` with
/// a string `id` that is not empty, and the profile beside it.
pub open spec fn profile_of(j: JsonValue) -> Option<CredentialsView> {
    match j.field("user"@) {
        Some(user) => match user.text_field("id"@) {
            Some(id) => if id.len() > 0 {
                Some(
                    CredentialsView {
                        api_key: id,
                        email: user.text_field("email"@),
                        github_username: user.text_field("github_username"@),
                        full_name: user.text_field("full_name"@),
                        avatar_url: user.text_field("avatar_url"@),
                    },
                )
            } else {
                None
            },
            None => None,
        },
        None => None,
    }
}

/// The credentials in the body of an answer, where it is a JSON document
/// in UTF-8 that holds some.
pub open spec fn profile_of_body(body: Seq<u8>) -> Option<CredentialsView> {
    if valid_utf8(body) {
        match json_document(decode_utf8(body)) {
            Some(j) => profile_of(j),
            None => None,
        }
    } else {
        None
    }
}

/// The credentials that an answer to an access code brings, or the words
/// in which it is reported that it brings none.
pub open spec fn reply_result(reply: ReplyView) -> Result<CredentialsView, Seq<char>> {
    match reply {
        ReplyView::NotBuilt => Err("Failed to build access code request"@),
        ReplyView::Unreachable => Err("Failed to contact access code endpoint"@),
        ReplyView::Unreadable => Err("Failed to read access code response"@),
        ReplyView::Refused => Err("Invalid or revoked access code"@),
        ReplyView::Body(body) => match profile_of_body(body) {
            Some(c) => Ok(c),
            None => Err("Invalid response from access code endpoint"@),
        },
    }
}

/// The credentials that a stored document holds: those of a JSON object
/// with a string member `api_key`.
pub open spec fn stored_credentials(contents: Seq<char>) -> Option<CredentialsView> {
    match json_document(contents) {
        Some(j) => match j.text_field("api_key"@) {
            Some(key) => Some(
                CredentialsView {
                    api_key: key,
                    email: j.text_field("email"@),
                    github_username: j.text_field("github_username"@),
                    full_name: j.text_field("full_name"@),
                    avatar_url: j.text_field("avatar_url"@),
                },
            ),
            None => None,
        },
        None => None,
    }
}

/// A string as a JSON literal, or `null` where there is none.
pub open spec fn literal_or_null(o: Option<Seq<char>>) -> Seq<char> {
    match o {
        Some(s) => string_literal(s),
        None => "null"@,
    }
}

/// The document in which credentials are stored: a JSON object, one member
/// to a line.
pub open spec fn credentials_text(c: CredentialsView) -> Seq<char> {
    "{\n  \"api_key\": "@ + string_literal(c.api_key) + ",\n  \"email\": "@ + literal_or_null(
        c.email,
    ) + ",\n  \"github_username\": "@ + literal_or_null(c.github_username)
        + ",\n  \"full_name\": "@ + literal_or_null(c.full_name) + ",\n  \"avatar_url\": "@
        + literal_or_null(c.avatar_url) + "\n}"@
}

/// The body of the request for an access code.
pub open spec fn access_code_body(code: Seq<char>) -> Seq<char> {
    "{\"accessCode\":"@ + string_literal(code) + "}"@
}

/// The request for an access code as mathematical values: its address and
/// its body, or the error that there is no code.
pub open spec fn access_code_request_of(access_code: Seq<char>) -> Result<
    (Seq<char>, Seq<char>),
    AuthEventView,
> {
    if trimmed(access_code).len() == 0 {
        Err(AuthEventView::AuthError("Access code cannot be empty"@))
    } else {
        Ok(
            (
                "https://witchcraft.insanelabs.org/api/editor-access-login"@,
                access_code_body(trimmed(access_code)),
            ),
        )
    }
}

/// Whether `bytes` begins with `prefix`.
fn begins_with(bytes: &[u8], prefix: &[u8]) -> (r: bool)
    ensures
        r == starts_with(bytes@, prefix@),
{
    if prefix.len() > bytes.len() {
        return false;
    }
    let mut i: usize = 0;
    while i < prefix.len()
        invariant
            i <= prefix.len(),
            prefix.len() <= bytes.len(),
            forall|k: int| 0 <= k < i ==> bytes@[k] == prefix@[k],
        decreases prefix.len() - i,
    {
        if bytes[i] != prefix[i] {
            assert(bytes@.take(prefix@.len() as int)[i as int] != prefix@[i as int]);
            return false;
        }
        i = i + 1;
    }
    assert(bytes@.take(prefix@.len() as int) =~= prefix@);
    true
}

/// What follows the first question mark.
fn find_query(bytes: &[u8]) -> (r: Option<&[u8]>)
    ensures
        match r {
            Some(query) => query_of(bytes@) == Some(query@),
            None => query_of(bytes@) is None,
        },
{
    let mut i: usize = 0;
    assert(bytes@.skip(0) =~= bytes@);
    while i < bytes.len()
        invariant
            i <= bytes.len(),
            query_of(bytes@) == query_of(bytes@.skip(i as int)),
        decreases bytes.len() - i,
    {
        assert(bytes@.skip(i as int)[0] == bytes@[i as int]);
        assert(bytes@.skip(i as int).drop_first() =~= bytes@.skip(i as int + 1));
        if bytes[i] == 0x3f {
            let query = slice_subrange(bytes, i + 1, bytes.len());
            assert(query@ =~= bytes@.skip(i as int + 1));
            return Some(query);
        }
        i = i + 1;
    }
    None
}

/// The value of the last pair called `key`.
fn find_last(pairs: &Vec<(String, String)>, key: &str) -> (r: Option<String>)
    ensures
        optional_text(r) == last_value(pair_views(pairs@), key@),
{
    let wanted = String::from_str(key);
    let ghost all = pair_views(pairs@);
    let mut i: usize = pairs.len();
    assert(all.take(i as int) =~= all);
    while i > 0
        invariant
            i <= pairs.len(),
            all == pair_views(pairs@),
            wanted@ == key@,
            last_value(all, key@) == last_value(all.take(i as int), key@),
        decreases i,
    {
        i = i - 1;
        assert(all.take(i as int + 1).last() == all[i as int]);
        assert(all.take(i as int + 1).drop_last() =~= all.take(i as int));
        if pairs[i].0 == wanted {
            return Some(pairs[i].1.clone());
        }
    }
    None
}

/// The event that reports an error in these words.
fn error_event(reason: &str) -> (event: AuthEvent)
    ensures
        event@ == AuthEventView::AuthError(reason@),
{
    AuthEvent::AuthError(String::from_str(reason))
}

/// Appends a string as a JSON literal, or `null` where there is none.
fn append_literal_or_null(text: &mut String, value: &Option<String>) -> (r: Result<
    (),
    EncodeError,
>)
    ensures
        r is Ok,
        final(text)@ == old(text)@ + literal_or_null(optional_text(*value)),
{
    match value {
        Some(s) => match Json::quote(s.as_str()) {
            Ok(quoted) => {
                text.append(quoted.as_str());
                Ok(())
            },
            Err(e) => Err(e),
        },
        None => {
            text.append("null");
            Ok(())
        },
    }
}

impl Credentials {
    /// The document in which the credentials are stored.
    pub fn document(&self) -> (r: Result<String, EncodeError>)
        ensures
            r is Ok,
            r matches Ok(text) ==> text@ == credentials_text(self@),
    {
        let key = match Json::quote(self.api_key.as_str()) {
            Ok(quoted) => quoted,
            Err(e) => return Err(e),
        };
        let mut text = String::from_str("{\n  \"api_key\": ");
        text.append(key.as_str());
        text.append(",\n  \"email\": ");
        match append_literal_or_null(&mut text, &self.email) {
            Ok(_) => {},
            Err(e) => return Err(e),
        }
        text.append(",\n  \"github_username\": ");
        match append_literal_or_null(&mut text, &self.github_username) {
            Ok(_) => {},
            Err(e) => return Err(e),
        }
        text.append(",\n  \"full_name\": ");
        match append_literal_or_null(&mut text, &self.full_name) {
            Ok(_) => {},
            Err(e) => return Err(e),
        }
        text.append(",\n  \"avatar_url\": ");
        match append_literal_or_null(&mut text, &self.avatar_url) {
            Ok(_) => {},
            Err(e) => return Err(e),
        }
        text.append("\n}");
        Ok(text)
    }

    /// Reads the credentials from the text of a stored document.
    pub fn from_document(contents: &str) -> (r: Option<Credentials>)
        ensures
            match r {
                Some(c) => stored_credentials(contents@) == Some(c@),
                None => stored_credentials(contents@) is None,
            },
    {
        match parse(contents) {
            Some(j) => match j.text_of("api_key") {
                Some(api_key) => Some(
                    Credentials {
                        api_key,
                        email: j.text_of("email"),
                        github_username: j.text_of("github_username"),
                        full_name: j.text_of("full_name"),
                        avatar_url: j.text_of("avatar_url"),
                    },
                ),
                None => None,
            },
            None => None,
        }
    }

    /// Reads the credentials from the JSON value of an answer to an access
    /// code.
    pub fn from_profile(j: &Json) -> (r: Option<Credentials>)
        ensures
            match r {
                Some(c) => profile_of(j@) == Some(c@),
                None => profile_of(j@) is None,
            },
    {
        match j.get("user") {
            Some(user) => match user.text_of("id") {
                Some(api_key) => if !api_key.as_str().is_empty() {
                    Some(
                        Credentials {
                            api_key,
                            email: user.text_of("email"),
                            github_username: user.text_of("github_username"),
                            full_name: user.text_of("full_name"),
                            avatar_url: user.text_of("avatar_url"),
                        },
                    )
                } else {
                    None
                },
                None => None,
            },
            None => None,
        }
    }
}

impl Callback {
    /// What a callback address with these fields says.
    pub fn from_fields(succeeded: bool, pairs: &Vec<(String, String)>) -> (r: Callback)
        ensures
            r@ == callback_from_fields(succeeded, pair_views(pairs@)),
    {
        if succeeded {
            match find_last(pairs, "api_key") {
                Some(api_key) => Callback::SignedIn(
                    Credentials {
                        api_key,
                        email: find_last(pairs, "email"),
                        github_username: find_last(pairs, "github_username"),
                        full_name: None,
                        avatar_url: None,
                    },
                ),
                None => Callback::Ignored,
            }
        } else {
            let mut reason = String::from_str("Sign in failed: ");
            match find_last(pairs, "error") {
                Some(error) => reason.append(error.as_str()),
                None => reason.append("unknown"),
            }
            reason.append(" - ");
            match find_last(pairs, "description") {
                Some(description) => reason.append(description.as_str()),
                None => reason.append(""),
            }
            Callback::Failed(reason)
        }
    }

    /// What a callback address says.
    pub fn read(url: &str) -> (r: Callback)
        ensures
            r@ == callback_of(url.spec_bytes()),
    {
        let bytes = url.as_bytes();
        if begins_with(bytes, "witchcraft://auth/success".as_bytes()) {
            match find_query(bytes) {
                Some(query) => {
                    let pairs = read_form(query);
                    Callback::from_fields(true, &pairs)
                },
                None => Callback::Ignored,
            }
        } else if begins_with(bytes, "witchcraft://auth/error".as_bytes()) {
            match find_query(bytes) {
                Some(query) => {
                    let pairs = read_form(query);
                    Callback::from_fields(false, &pairs)
                },
                None => Callback::Ignored,
            }
        } else {
            Callback::Ignored
        }
    }
}

impl AccessCodeRequest {
    /// The request that trades `access_code` for a key. The code goes
    /// without the white space around it; a code that is nothing else is
    /// refused.
    pub fn new(access_code: &str) -> (r: Result<AccessCodeRequest, AuthEvent>)
        ensures
            match r {
                Ok(request) => access_code_request_of(access_code@) == Ok::<
                    (Seq<char>, Seq<char>),
                    AuthEventView,
                >((request.url@, request.body@)),
                Err(event) => access_code_request_of(access_code@) == Err::<
                    (Seq<char>, Seq<char>),
                    AuthEventView,
                >(event@),
            },
    {
        let code = trim(access_code);
        AccessCodeRequest::for_code(code)
    }

    /// The request for a code that has been trimmed.
    pub fn for_code(code: &str) -> (r: Result<AccessCodeRequest, AuthEvent>)
        ensures
            match r {
                Ok(request) => code@.len() > 0 && request.url@
                    == "https://witchcraft.insanelabs.org/api/editor-access-login"@
                    && request.body@ == access_code_body(code@),
                Err(event) => code@.len() == 0 && event@ == AuthEventView::AuthError(
                    "Access code cannot be empty"@,
                ),
            },
    {
        if code.is_empty() {
            return Err(error_event("Access code cannot be empty"));
        }
        match Json::quote(code) {
            Ok(quoted) => {
                let mut body = String::from_str("{\"accessCode\":");
                body.append(quoted.as_str());
                body.append("}");
                Ok(
                    AccessCodeRequest {
                        url: String::from_str(
                            "https://witchcraft.insanelabs.org/api/editor-access-login",
                        ),
                        body,
                    },
                )
            },
            Err(_) => Err(error_event("Failed to prepare access code request")),
        }
    }
}

impl AccessCodeReply {
    /// The credentials that the answer brings, or the words in which it is
    /// reported that it brings none.
    pub fn credentials(&self) -> (r: Result<Credentials, String>)
        ensures
            match r {
                Ok(c) => reply_result(self@) == Ok::<CredentialsView, Seq<char>>(c@),
                Err(reason) => reply_result(self@) == Err::<CredentialsView, Seq<char>>(reason@),
            },
    {
        match self {
            AccessCodeReply::NotBuilt => Err(
                String::from_str("Failed to build access code request"),
            ),
            AccessCodeReply::Unreachable => Err(
                String::from_str("Failed to contact access code endpoint"),
            ),
            AccessCodeReply::Unreadable => Err(
                String::from_str("Failed to read access code response"),
            ),
            AccessCodeReply::Refused => Err(String::from_str("Invalid or revoked access code")),
            AccessCodeReply::Body(body) => {
                let found = match text_of_bytes(body.as_slice()) {
                    Some(text) => {
                        proof {
                            encode_utf8_decode_utf8(text@);
                        }
                        match parse(text) {
                            Some(j) => Credentials::from_profile(&j),
                            None => None,
                        }
                    },
                    None => None,
                };
                match found {
                    Some(c) => Ok(c),
                    None => Err(String::from_str("Invalid response from access code endpoint")),
                }
            },
        }
    }
}

impl Default for AuthState {
    fn default() -> (state: AuthState)
        ensures
            state@ == signed_out(),
    {
        AuthState {
            is_authenticated: false,
            email: None,
            api_key: None,
            github_username: None,
            full_name: None,
            avatar_url: None,
        }
    }
}

/// A copy of a string that may be absent.
fn copy_of(o: &Option<String>) -> (r: Option<String>)
    ensures
        optional_text(r) == optional_text(*o),
{
    match o {
        Some(s) => Some(s.clone()),
        None => None,
    }
}

/// The keeper of the sign-in state.
#[derive(Debug, PartialEq, Eq)]
pub struct AuthManager {
    state: AuthState,
}

impl View for AuthManager {
    type V = AuthStateView;

    closed spec fn view(&self) -> AuthStateView {
        self.state@
    }
}

impl AuthManager {
    /// A manager with nobody signed in.
    pub fn new() -> (manager: AuthManager)
        ensures
            manager@ == signed_out(),
    {
        AuthManager { state: AuthState::default() }
    }

    /// The address at which signing in begins.
    pub fn sign_in_address() -> (address: String)
        ensures
            address@ == "https://witchcraft.insanelabs.org/auth/editor"@,
    {
        String::from_str("https://witchcraft.insanelabs.org/auth/editor")
    }

    /// The event for a browser that did not open.
    pub fn browser_failure() -> (event: AuthEvent)
        ensures
            event@ == AuthEventView::AuthError(
                "Could not open browser. Please visit: "@
                    + "https://witchcraft.insanelabs.org/auth/editor"@,
            ),
    {
        let mut reason = String::from_str("Could not open browser. Please visit: ");
        reason.append("https://witchcraft.insanelabs.org/auth/editor");
        AuthEvent::AuthError(reason)
    }

    /// Signs in the holder of the credentials.
    fn set_signed_in(&mut self, c: &Credentials)
        ensures
            final(self)@ == signed_in(c@),
    {
        self.state = AuthState {
            is_authenticated: true,
            email: copy_of(&c.email),
            api_key: Some(c.api_key.clone()),
            github_username: copy_of(&c.github_username),
            full_name: copy_of(&c.full_name),
            avatar_url: copy_of(&c.avatar_url),
        };
    }

    /// Takes what a callback says. A successful one signs its user in,
    /// and leaves the name and the picture as they were.
    pub fn apply_callback(&mut self, callback: Callback) -> (outcome: AuthOutcome)
        ensures
            final(self)@ == state_after_callback(old(self)@, callback@),
            outcome@ == outcome_of_callback(callback@),
    {
        match callback {
            Callback::SignedIn(c) => {
                self.state.is_authenticated = true;
                self.state.api_key = Some(c.api_key.clone());
                self.state.email = copy_of(&c.email);
                self.state.github_username = copy_of(&c.github_username);
                AuthOutcome {
                    event: Some(AuthEvent::SignedIn),
                    store: StoreAction::Save(c),
                    notify: true,
                }
            },
            Callback::Failed(reason) => AuthOutcome {
                event: Some(AuthEvent::AuthError(reason)),
                store: StoreAction::Keep,
                notify: false,
            },
            Callback::Ignored => AuthOutcome {
                event: None,
                store: StoreAction::Keep,
                notify: false,
            },
        }
    }

    /// Takes a callback address.
    pub fn handle_callback(&mut self, url: &str) -> (outcome: AuthOutcome)
        ensures
            final(self)@ == state_after_callback(old(self)@, callback_of(url.spec_bytes())),
            outcome@ == outcome_of_callback(callback_of(url.spec_bytes())),
    {
        let callback = Callback::read(url);
        self.apply_callback(callback)
    }

    /// Takes the answer to an access code. One that brings credentials
    /// signs their holder in; any other changes nothing and is reported.
    pub fn finish_access_code_sign_in(&mut self, reply: &AccessCodeReply) -> (outcome: AuthOutcome)
        ensures
            final(self)@ == match reply_result(reply@) {
                Ok(c) => signed_in(c),
                Err(_) => old(self)@,
            },
            outcome@ == match reply_result(reply@) {
                Ok(c) => success(c),
                Err(reason) => failure(reason),
            },
    {
        match reply.credentials() {
            Ok(c) => {
                self.set_signed_in(&c);
                AuthOutcome {
                    event: Some(AuthEvent::SignedIn),
                    store: StoreAction::Save(c),
                    notify: true,
                }
            },
            Err(reason) => AuthOutcome {
                event: Some(AuthEvent::AuthError(reason)),
                store: StoreAction::Keep,
                notify: false,
            },
        }
    }

    /// Takes the text of the stored credentials. Where it holds a key, its
    /// holder is signed in and the observers are to be told.
    pub fn load_credentials(&mut self, contents: &str) -> (notify: bool)
        ensures
            final(self)@ == match stored_credentials(contents@) {
                Some(c) => signed_in(c),
                None => old(self)@,
            },
            notify == stored_credentials(contents@) is Some,
    {
        match Credentials::from_document(contents) {
            Some(c) => {
                self.set_signed_in(&c);
                true
            },
            None => false,
        }
    }

    /// Signs out: nobody is signed in, the stored credentials are to be
    /// removed, `SignedOut` is to be emitted.
    pub fn sign_out(&mut self) -> (outcome: AuthOutcome)
        ensures
            final(self)@ == signed_out(),
            outcome@ == (OutcomeView {
                event: Some(AuthEventView::SignedOut),
                store: StoreView::Remove,
                notify: true,
            }),
    {
        self.state = AuthState::default();
        AuthOutcome { event: Some(AuthEvent::SignedOut), store: StoreAction::Remove, notify: true }
    }

    /// The key of the signed-in user.
    pub fn get_api_key(&self) -> (r: Option<String>)
        ensures
            optional_text(r) == self@.api_key,
    {
        copy_of(&self.state.api_key)
    }

    /// Whether somebody is signed in.
    pub fn is_authenticated(&self) -> (r: bool)
        ensures
            r == self@.is_authenticated,
    {
        self.state.is_authenticated
    }

    /// The email of the signed-in user.
    pub fn get_email(&self) -> (r: Option<String>)
        ensures
            optional_text(r) == self@.email,
    {
        copy_of(&self.state.email)
    }

    /// The GitHub name of the signed-in user.
    pub fn get_github_username(&self) -> (r: Option<String>)
        ensures
            optional_text(r) == self@.github_username,
    {
        copy_of(&self.state.github_username)
    }

    /// The whole state.
    pub fn get_state(&self) -> (state: &AuthState)
        ensures
            state@ == self@,
    {
        &self.state
    }
}

} // verus!
