use witchcraft_notifications::auth::{
    AccessCodeReply, AccessCodeRequest, AuthEvent, AuthManager, AuthOutcome, AuthState, Callback,
    Credentials, StoreAction,
};
use witchcraft_notifications::json::{parse, Json};

fn credentials(key: &str) -> Credentials {
    Credentials {
        api_key: key.to_string(),
        email: Some("a@example.org".to_string()),
        github_username: Some("octo".to_string()),
        full_name: Some("Octo Cat".to_string()),
        avatar_url: Some("https://example.org/a.png".to_string()),
    }
}

fn error(reason: &str) -> AuthOutcome {
    AuthOutcome {
        event: Some(AuthEvent::AuthError(reason.to_string())),
        store: StoreAction::Keep,
        notify: false,
    }
}

const ANSWER: &str = "{\"user\":{\"id\":\"key-1\",\"email\":\"a@example.org\",\"github_username\":\"octo\",\"full_name\":\"Octo Cat\",\"avatar_url\":\"https://example.org/a.png\"}}";

#[test]
fn a_new_manager_has_nobody_signed_in() {
    let manager = AuthManager::new();
    assert!(!manager.is_authenticated());
    assert_eq!(manager.get_api_key(), None);
    assert_eq!(manager.get_email(), None);
    assert_eq!(manager.get_github_username(), None);
    assert_eq!(manager.get_state(), &AuthState::default());
    assert_eq!(
        AuthState::default(),
        AuthState {
            is_authenticated: false,
            email: None,
            api_key: None,
            github_username: None,
            full_name: None,
            avatar_url: None,
        }
    );
}

#[test]
fn a_success_callback_signs_in() {
    let mut manager = AuthManager::new();
    let outcome = manager
        .handle_callback("witchcraft://auth/success?api_key=k1&email=a%40example.org&github_username=octo+cat");
    assert_eq!(
        outcome,
        AuthOutcome {
            event: Some(AuthEvent::SignedIn),
            store: StoreAction::Save(Credentials {
                api_key: "k1".to_string(),
                email: Some("a@example.org".to_string()),
                github_username: Some("octo cat".to_string()),
                full_name: None,
                avatar_url: None,
            }),
            notify: true,
        }
    );
    assert!(manager.is_authenticated());
    assert_eq!(manager.get_api_key(), Some("k1".to_string()));
    assert_eq!(manager.get_email(), Some("a@example.org".to_string()));
    assert_eq!(manager.get_github_username(), Some("octo cat".to_string()));
}

#[test]
fn a_success_callback_keeps_name_and_picture() {
    let mut manager = AuthManager::new();
    manager.finish_access_code_sign_in(&AccessCodeReply::Body(ANSWER.as_bytes().to_vec()));
    manager.handle_callback("witchcraft://auth/success?api_key=k2");
    assert_eq!(
        manager.get_state(),
        &AuthState {
            is_authenticated: true,
            email: None,
            api_key: Some("k2".to_string()),
            github_username: None,
            full_name: Some("Octo Cat".to_string()),
            avatar_url: Some("https://example.org/a.png".to_string()),
        }
    );
}

#[test]
fn a_success_callback_without_a_key_is_ignored() {
    let mut manager = AuthManager::new();
    let nothing = AuthOutcome { event: None, store: StoreAction::Keep, notify: false };
    assert_eq!(manager.handle_callback("witchcraft://auth/success?email=a%40b.c"), nothing);
    assert_eq!(manager.handle_callback("witchcraft://auth/success"), nothing);
    assert_eq!(manager.handle_callback("witchcraft://auth/success?"), nothing);
    assert_eq!(manager.handle_callback("witchcraft://other?api_key=k"), nothing);
    assert_eq!(manager.handle_callback("https://auth/success?api_key=k"), nothing);
    assert_eq!(manager.handle_callback(""), nothing);
    assert!(!manager.is_authenticated());
}

#[test]
fn the_last_of_two_fields_with_one_name_counts() {
    assert_eq!(
        Callback::read("witchcraft://auth/success?api_key=old&api_key=new"),
        Callback::SignedIn(Credentials {
            api_key: "new".to_string(),
            email: None,
            github_username: None,
            full_name: None,
            avatar_url: None,
        })
    );
}

#[test]
fn the_query_begins_after_the_first_question_mark() {
    assert_eq!(
        Callback::read("witchcraft://auth/success?api_key=a?b"),
        Callback::SignedIn(Credentials {
            api_key: "a?b".to_string(),
            email: None,
            github_username: None,
            full_name: None,
            avatar_url: None,
        })
    );
    assert_eq!(
        Callback::read("witchcraft://auth/successful/x?api_key=k"),
        Callback::SignedIn(Credentials {
            api_key: "k".to_string(),
            email: None,
            github_username: None,
            full_name: None,
            avatar_url: None,
        })
    );
}

#[test]
fn an_error_callback_is_reported() {
    let mut manager = AuthManager::new();
    assert_eq!(
        manager.handle_callback("witchcraft://auth/error?error=denied&description=User%20said+no"),
        error("Sign in failed: denied - User said no")
    );
    assert_eq!(
        manager.handle_callback("witchcraft://auth/error?x=y"),
        error("Sign in failed: unknown - ")
    );
    assert_eq!(
        manager.handle_callback("witchcraft://auth/error"),
        AuthOutcome { event: None, store: StoreAction::Keep, notify: false }
    );
    assert!(!manager.is_authenticated());
}

#[test]
fn callback_from_fields_reads_pairs() {
    let pairs = vec![
        ("email".to_string(), "e".to_string()),
        ("api_key".to_string(), "k".to_string()),
    ];
    assert_eq!(
        Callback::from_fields(true, &pairs),
        Callback::SignedIn(Credentials {
            api_key: "k".to_string(),
            email: Some("e".to_string()),
            github_username: None,
            full_name: None,
            avatar_url: None,
        })
    );
    assert_eq!(
        Callback::from_fields(false, &pairs),
        Callback::Failed("Sign in failed: unknown - ".to_string())
    );
    assert_eq!(Callback::from_fields(true, &vec![]), Callback::Ignored);
}

#[test]
fn the_access_code_goes_trimmed_into_the_request() {
    let request = AccessCodeRequest::new("  c0de\"x \n").expect("a request");
    assert_eq!(request.url, "https://witchcraft.insanelabs.org/api/editor-access-login");
    assert_eq!(request.body, "{\"accessCode\":\"c0de\\\"x\"}");
    let json = parse(&request.body).expect("a document");
    assert_eq!(json.get("accessCode"), Some(&Json::Text("c0de\"x".to_string())));
}

#[test]
fn an_access_code_of_white_space_is_refused() {
    let refused = Err(AuthEvent::AuthError("Access code cannot be empty".to_string()));
    assert_eq!(AccessCodeRequest::new(""), refused);
    assert_eq!(AccessCodeRequest::new(" \t\r\n"), refused);
    assert_eq!(AccessCodeRequest::new("\u{a0}\u{2003}"), refused);
    assert_eq!(AccessCodeRequest::for_code(""), refused);
    assert!(AccessCodeRequest::for_code(" ").is_ok());
}

#[test]
fn an_answer_with_a_profile_signs_in() {
    let mut manager = AuthManager::new();
    let outcome = manager.finish_access_code_sign_in(&AccessCodeReply::Body(ANSWER.as_bytes().to_vec()));
    assert_eq!(
        outcome,
        AuthOutcome {
            event: Some(AuthEvent::SignedIn),
            store: StoreAction::Save(credentials("key-1")),
            notify: true,
        }
    );
    assert_eq!(
        manager.get_state(),
        &AuthState {
            is_authenticated: true,
            email: Some("a@example.org".to_string()),
            api_key: Some("key-1".to_string()),
            github_username: Some("octo".to_string()),
            full_name: Some("Octo Cat".to_string()),
            avatar_url: Some("https://example.org/a.png".to_string()),
        }
    );
}

#[test]
fn an_answer_needs_only_the_id() {
    let reply = AccessCodeReply::Body(b"{\"user\":{\"id\":\"k\",\"email\":null,\"full_name\":7}}".to_vec());
    assert_eq!(
        reply.credentials(),
        Ok(Credentials {
            api_key: "k".to_string(),
            email: None,
            github_username: None,
            full_name: None,
            avatar_url: None,
        })
    );
}

#[test]
fn each_failed_answer_has_its_words() {
    let mut manager = AuthManager::new();
    assert_eq!(
        manager.finish_access_code_sign_in(&AccessCodeReply::NotBuilt),
        error("Failed to build access code request")
    );
    assert_eq!(
        manager.finish_access_code_sign_in(&AccessCodeReply::Unreachable),
        error("Failed to contact access code endpoint")
    );
    assert_eq!(
        manager.finish_access_code_sign_in(&AccessCodeReply::Unreadable),
        error("Failed to read access code response")
    );
    assert_eq!(
        manager.finish_access_code_sign_in(&AccessCodeReply::Refused),
        error("Invalid or revoked access code")
    );
    for body in [
        &b"not json"[..],
        &b"{}"[..],
        &b"[]"[..],
        &b"{\"user\":null}"[..],
        &b"{\"user\":{}}"[..],
        &b"{\"user\":{\"id\":\"\"}}"[..],
        &b"{\"user\":{\"id\":5}}"[..],
        &b"{\"user\":{\"id\":\"k\xff\"}}"[..],
        &b"\xff"[..],
    ] {
        assert_eq!(
            manager.finish_access_code_sign_in(&AccessCodeReply::Body(body.to_vec())),
            error("Invalid response from access code endpoint")
        );
    }
    assert!(!manager.is_authenticated());
    assert_eq!(manager.get_state(), &AuthState::default());
}

#[test]
fn a_failed_answer_leaves_the_signed_in_user() {
    let mut manager = AuthManager::new();
    manager.finish_access_code_sign_in(&AccessCodeReply::Body(ANSWER.as_bytes().to_vec()));
    manager.finish_access_code_sign_in(&AccessCodeReply::Refused);
    assert!(manager.is_authenticated());
    assert_eq!(manager.get_api_key(), Some("key-1".to_string()));
}

#[test]
fn stored_credentials_sign_in_on_load() {
    let mut manager = AuthManager::new();
    let text = credentials("stored").document().expect("a document");
    assert!(manager.load_credentials(&text));
    assert!(manager.is_authenticated());
    assert_eq!(manager.get_api_key(), Some("stored".to_string()));
    assert_eq!(manager.get_email(), Some("a@example.org".to_string()));
    assert_eq!(manager.get_github_username(), Some("octo".to_string()));
    assert_eq!(manager.get_state().full_name, Some("Octo Cat".to_string()));
    assert_eq!(manager.get_state().avatar_url, Some("https://example.org/a.png".to_string()));
}

#[test]
fn a_document_without_a_key_changes_nothing() {
    let mut manager = AuthManager::new();
    assert!(!manager.load_credentials("{\"email\":\"a@example.org\"}"));
    assert!(!manager.load_credentials("{\"api_key\":null}"));
    assert!(!manager.load_credentials("{\"api_key\":"));
    assert!(!manager.load_credentials(""));
    assert_eq!(manager.get_state(), &AuthState::default());
    assert!(manager.load_credentials("{\"api_key\":\"\"}"));
    assert_eq!(manager.get_api_key(), Some("".to_string()));
}

#[test]
fn the_credentials_document_has_one_member_to_a_line() {
    let c = Credentials {
        api_key: "k\"1".to_string(),
        email: None,
        github_username: Some("octo".to_string()),
        full_name: None,
        avatar_url: Some("u".to_string()),
    };
    assert_eq!(
        c.document(),
        Ok("{\n  \"api_key\": \"k\\\"1\",\n  \"email\": null,\n  \"github_username\": \"octo\",\n  \"full_name\": null,\n  \"avatar_url\": \"u\"\n}".to_string())
    );
    assert_eq!(Credentials::from_document(&c.document().expect("a document")), Some(c));
}

#[test]
fn signing_out_forgets_everything() {
    let mut manager = AuthManager::new();
    manager.finish_access_code_sign_in(&AccessCodeReply::Body(ANSWER.as_bytes().to_vec()));
    let outcome = manager.sign_out();
    assert_eq!(
        outcome,
        AuthOutcome { event: Some(AuthEvent::SignedOut), store: StoreAction::Remove, notify: true }
    );
    assert_eq!(manager.get_state(), &AuthState::default());
    assert!(!manager.is_authenticated());
}

#[test]
fn signing_in_begins_at_the_editor_address() {
    assert_eq!(AuthManager::sign_in_address(), "https://witchcraft.insanelabs.org/auth/editor");
    assert_eq!(
        AuthManager::browser_failure(),
        AuthEvent::AuthError(
            "Could not open browser. Please visit: https://witchcraft.insanelabs.org/auth/editor"
                .to_string()
        )
    );
}
