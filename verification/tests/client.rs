use witchcraft_notifications::client::{
    access_code_from_credentials, connection_target, endpoint, ConnectError,
    WitchcraftNotificationClient,
};
use witchcraft_notifications::protocol::TokenResponse;

#[test]
fn a_new_client_has_no_credential() {
    let mut client = WitchcraftNotificationClient::new();
    assert_eq!(client.token(), None);
    assert_eq!(client.connect(), Err(ConnectError::NoCredential));
    assert_eq!(client.token(), None);
}

#[test]
fn connecting_with_a_code_gives_the_socket_address() {
    let mut client = WitchcraftNotificationClient::new();
    let target = client.connect_with_access_code("secret".to_string());
    assert_eq!(
        target,
        Ok(TokenResponse {
            token: "secret".to_string(),
            websocket_url: "wss://witchcraft.insanelabs.org/api/notifications/ws?token=secret"
                .to_string(),
        })
    );
    assert_eq!(client.token(), Some("secret".to_string()));
}

#[test]
fn a_later_code_replaces_the_cached_one() {
    let mut client = WitchcraftNotificationClient::new();
    client.connect_with_access_code("first".to_string()).expect("a target");
    client.connect_with_access_code("second".to_string()).expect("a target");
    assert_eq!(client.token(), Some("second".to_string()));
    let target = client.connect().expect("a target");
    assert_eq!(target.token, "second");
    assert_eq!(
        target.websocket_url,
        "wss://witchcraft.insanelabs.org/api/notifications/ws?token=second"
    );
    assert_eq!(client.token(), Some("second".to_string()));
}

#[test]
fn the_address_is_written_as_the_url_parser_reads_it() {
    let mut client = WitchcraftNotificationClient::new();
    let target = client.connect_with_access_code("a b\"c".to_string()).expect("a target");
    assert_eq!(target.token, "a b\"c");
    assert_eq!(
        target.websocket_url,
        "wss://witchcraft.insanelabs.org/api/notifications/ws?token=a%20b%22c"
    );
}

#[test]
fn endpoint_follows_the_template() {
    assert_eq!(endpoint("example.org", "t0k"), "wss://example.org/api/notifications/ws?token=t0k");
    assert_eq!(endpoint("", ""), "wss:///api/notifications/ws?token=");
}

#[test]
fn an_address_that_was_not_read_is_a_transport_error() {
    assert_eq!(connection_target("t".to_string(), None), Err(ConnectError::Transport));
    assert_eq!(
        connection_target("t".to_string(), Some("wss://h/".to_string())),
        Ok(TokenResponse { token: "t".to_string(), websocket_url: "wss://h/".to_string() })
    );
}

#[test]
fn connect_errors_have_their_words() {
    assert_eq!(
        ConnectError::NoCredential.message(),
        "No access code provided. Please provide an access code or API key."
    );
    assert_eq!(ConnectError::Transport.message(), "Failed to connect");
}

#[test]
fn the_access_code_is_read_from_the_credentials_document() {
    assert_eq!(
        access_code_from_credentials("{\"access_code\":\"c0de\",\"api_key\":\"k\"}"),
        Some("c0de".to_string())
    );
    assert_eq!(access_code_from_credentials("{\"api_key\":\"k\"}"), None);
    assert_eq!(access_code_from_credentials("{\"access_code\":17}"), None);
    assert_eq!(access_code_from_credentials("{\"access_code\":null}"), None);
    assert_eq!(access_code_from_credentials("[\"access_code\"]"), None);
    assert_eq!(access_code_from_credentials("not json"), None);
    assert_eq!(access_code_from_credentials(""), None);
}
