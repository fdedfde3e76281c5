//! The client handle: one cached credential, and the address to connect to.

use vstd::prelude::*;
use vstd::string::StringExecFns;
use crate::json::{json_document, parse};
use crate::protocol::TokenResponse;

verus! {

/// Why no connection came about.
#[derive(Debug, Clone, Copy, PartialEq, Eq, Structural)]
pub enum ConnectError {
    /// The address was refused, or the handshake failed.
    Transport,
    /// No credential is cached and none was given.
    NoCredential,
}

/// The address of the notification socket of `host` for the credential `token`.
pub open spec fn endpoint_text(host: Seq<char>, token: Seq<char>) -> Seq<char> {
    "wss://"@ + host + "/api/notifications/ws?token="@ + token
}

/// The host of the notification service.
pub open spec fn service_host() -> Seq<char> {
    "witchcraft.insanelabs.org"@
}

/// What the `url` crate makes of an address: the address as it writes it
/// back, or `None` where it reads no absolute URL.
pub uninterp spec fn parsed_url(text: Seq<char>) -> Option<Seq<char>>;

/// `url::ParseError`, handed on and never looked into.
#[verifier::external_type_specification]
#[verifier::external_body]
pub struct ExUrlParseError(url::ParseError);

/// `url::Url::parse`, with the URL handed back as the string that the crate
/// keeps for it. The result is what `parsed_url` names.
#[verifier::external_body]
fn read_url(text: &str) -> (r: Result<String, url::ParseError>)
    ensures
        r matches Ok(address) ==> parsed_url(text@) == Some(address@),
        r is Err ==> parsed_url(text@) is None,
{
    url::Url::parse(text).map(String::from)
}

/// The connection that an address allows: its token with the address as
/// read, or the transport error where it was not read.
pub open spec fn connection_for(token: Seq<char>, address: Option<Seq<char>>) -> Result<
    (Seq<char>, Seq<char>),
    ConnectError,
> {
    match address {
        Some(url) => Ok((token, url)),
        None => Err(ConnectError::Transport),
    }
}

/// A token and its socket address as mathematical values.
pub open spec fn response_view(r: Result<TokenResponse, ConnectError>) -> Result<
    (Seq<char>, Seq<char>),
    ConnectError,
> {
    match r {
        Ok(response) => Ok((response.token@, response.websocket_url@)),
        Err(e) => Err(e),
    }
}

/// The address of the notification socket of `host` for `token`.
pub fn endpoint(host: &str, token: &str) -> (address: String)
    ensures
        address@ == endpoint_text(host@, token@),
{
    let mut address = String::from_str("wss://");
    address.append(host);
    address.append("/api/notifications/ws?token=");
    address.append(token);
    address
}

/// What to connect with, once the address has been read: the token and the
/// address, or the transport error where there is no address.
pub fn connection_target(token: String, address: Option<String>) -> (r: Result<
    TokenResponse,
    ConnectError,
>)
    ensures
        response_view(r) == connection_for(
            token@,
            match address {
                Some(a) => Some(a@),
                None => None,
            },
        ),
{
    match address {
        Some(websocket_url) => Ok(TokenResponse { token, websocket_url }),
        None => Err(ConnectError::Transport),
    }
}

/// The client of the notification service. It keeps one credential, the one
/// it was last asked to connect with.
#[derive(Debug, PartialEq, Eq)]
pub struct WitchcraftNotificationClient {
    token: Option<String>,
}

impl WitchcraftNotificationClient {
    /// The cached credential.
    pub closed spec fn cached(&self) -> Option<Seq<char>> {
        match self.token {
            Some(t) => Some(t@),
            None => None,
        }
    }

    /// A client with no credential.
    pub fn new() -> (client: WitchcraftNotificationClient)
        ensures
            client.cached() is None,
    {
        WitchcraftNotificationClient { token: None }
    }

    /// The cached credential.
    pub fn token(&self) -> (r: Option<String>)
        ensures
            match r {
                Some(t) => self.cached() == Some(t@),
                None => self.cached() is None,
            },
    {
        match &self.token {
            Some(t) => Some(t.clone()),
            None => None,
        }
    }

    /// Caches `access_code`, in place of whatever was cached, and gives the
    /// address to open a socket to. The address is refused with
    /// `ConnectError::Transport` where it is no URL.
    pub fn connect_with_access_code(&mut self, access_code: String) -> (r: Result<
        TokenResponse,
        ConnectError,
    >)
        ensures
            final(self).cached() == Some(access_code@),
            response_view(r) == connection_for(
                access_code@,
                parsed_url(endpoint_text(service_host(), access_code@)),
            ),
    {
        let address = endpoint("witchcraft.insanelabs.org", access_code.as_str());
        self.token = Some(access_code.clone());
        match read_url(address.as_str()) {
            Ok(url) => connection_target(access_code, Some(url)),
            Err(_) => connection_target(access_code, None),
        }
    }

    /// Connects with the cached credential. Without one the answer is
    /// `ConnectError::NoCredential`, and nothing changes.
    pub fn connect(&mut self) -> (r: Result<TokenResponse, ConnectError>)
        ensures
            final(self).cached() == old(self).cached(),
            response_view(r) == match old(self).cached() {
                Some(token) => connection_for(
                    token,
                    parsed_url(endpoint_text(service_host(), token)),
                ),
                None => Err(ConnectError::NoCredential),
            },
    {
        match self.token() {
            Some(token) => self.connect_with_access_code(token),
            None => Err(ConnectError::NoCredential),
        }
    }
}

impl ConnectError {
    /// The error in words.
    pub fn message(&self) -> (text: String)
        ensures
            text@ == match *self {
                ConnectError::Transport => "Failed to connect"@,
                ConnectError::NoCredential =>
                    "No access code provided. Please provide an access code or API key."@,
            },
    {
        match self {
            ConnectError::Transport => String::from_str("Failed to connect"),
            ConnectError::NoCredential => String::from_str(
                "No access code provided. Please provide an access code or API key.",
            ),
        }
    }
}

/// The access code that a credentials document holds: its string member
/// `access_code`, where the text is a JSON object that has one.
pub open spec fn stored_access_code(contents: Seq<char>) -> Option<Seq<char>> {
    match json_document(contents) {
        Some(j) => j.text_field("access_code"@),
        None => None,
    }
}

/// Reads the access code from the text of a credentials document.
pub fn access_code_from_credentials(contents: &str) -> (r: Option<String>)
    ensures
        match r {
            Some(code) => stored_access_code(contents@) == Some(code@),
            None => stored_access_code(contents@) is None,
        },
{
    match parse(contents) {
        Some(j) => j.text_of("access_code"),
        None => None,
    }
}

} // verus!
