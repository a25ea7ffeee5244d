use yabusame::connection::{
    default_server, first_address, resolve_url, url_from_str, ClientState, ServerUrl,
};
use yabusame::{ClientConnection, Message, Response, YabuError, DEFAULT_SERVER_PORT, URL_SCHEME};

fn parsed(text: &str) -> ServerUrl {
    let url = url::Url::parse(text).unwrap();
    ServerUrl {
        text: url.as_str().to_string(),
        scheme: url.scheme().to_string(),
        host: url.host_str().map(|host| host.to_string()),
        port: url.port(),
    }
}

fn same(a: &ServerUrl, b: &ServerUrl) -> bool {
    a.text == b.text && a.scheme == b.scheme && a.host == b.host && a.port == b.port
}

fn reading(text: &str) -> Result<ServerUrl, String> {
    match url::Url::parse(text) {
        Ok(_) => Ok(parsed(text)),
        Err(e) => Err(e.to_string()),
    }
}

#[test]
fn the_defaults_are_the_documented_ones() {
    assert_eq!(DEFAULT_SERVER_PORT, 11180);
    assert_eq!(URL_SCHEME, "yabu");
    let server = default_server().unwrap();
    assert_eq!(server.text, "yabu://127.0.0.1:11180");
    assert_eq!(server.scheme, "yabu");
    assert_eq!(server.host, Some("127.0.0.1".to_string()));
    assert_eq!(server.port, Some(11180));
}

#[test]
fn a_full_url_is_taken_as_written() {
    let url = url_from_str("yabu://example.org:1234").unwrap();
    assert!(same(&url, &parsed("yabu://example.org:1234")));
    assert_eq!(url.host, Some("example.org".to_string()));
    assert_eq!(url.port, Some(1234));
}

#[test]
fn a_bare_host_gets_scheme_and_port() {
    let url = url_from_str("example.org").unwrap();
    assert_eq!(url.text, "yabu://example.org:11180");
    assert_eq!(url.port, Some(11180));
    let url = url_from_str("localhost").unwrap();
    assert_eq!(url.text, "yabu://localhost:11180");
    let url = url_from_str("127.0.0.1").unwrap();
    assert_eq!(url.text, "yabu://127.0.0.1:11180");
}

#[test]
fn a_host_with_port_gets_the_scheme() {
    let url = url_from_str("example.org:1234").unwrap();
    assert_eq!(url.text, "yabu://example.org:1234");
    assert_eq!(url.port, Some(1234));
    let url = url_from_str("127.0.0.1:9000").unwrap();
    assert_eq!(url.text, "yabu://127.0.0.1:9000");
    assert_eq!(url.port, Some(9000));
}

#[test]
fn another_scheme_is_refused() {
    assert_eq!(
        url_from_str("http://example.org").err(),
        Some("server URL has an incorrect scheme (expected yabu, got http)".to_string())
    );
    assert_eq!(
        url_from_str("localhost:8000").err(),
        Some("server URL has an incorrect scheme (expected yabu, got localhost)".to_string())
    );
}

#[test]
fn a_text_that_is_no_url_gives_the_parser_s_error() {
    let expected = url::Url::parse("yabu://a b").unwrap_err().to_string();
    assert_eq!(url_from_str("a b").err(), Some(expected));
}

#[test]
fn the_first_reading_that_parses_wins() {
    let as_written = reading("yabu://one");
    let both = reading("yabu://two");
    let port = reading("yabu://three");
    let scheme = reading("yabu://four");
    let url = resolve_url(as_written, both, port, scheme).unwrap();
    assert_eq!(url.text, "yabu://one");

    let url = resolve_url(
        Err("first".to_string()),
        reading("yabu://two"),
        reading("yabu://three"),
        reading("yabu://four"),
    )
    .unwrap();
    assert_eq!(url.text, "yabu://two");

    let url = resolve_url(
        Err("first".to_string()),
        Err("second".to_string()),
        reading("yabu://three"),
        reading("yabu://four"),
    )
    .unwrap();
    assert_eq!(url.text, "yabu://three");
}

#[test]
fn when_no_reading_parses_the_scheme_is_tried() {
    let url = resolve_url(
        Err("first".to_string()),
        Err("second".to_string()),
        Err("third".to_string()),
        reading("yabu://four"),
    )
    .unwrap();
    assert_eq!(url.text, "yabu://four");
    assert_eq!(
        resolve_url(
            Err("first".to_string()),
            Err("second".to_string()),
            Err("third".to_string()),
            Err("fourth".to_string()),
        )
        .err(),
        Some("fourth".to_string())
    );
}

#[test]
fn a_scheme_with_a_dot_was_a_host() {
    let url = resolve_url(
        reading("example.org:80"),
        Err("second".to_string()),
        Err("third".to_string()),
        reading("yabu://example.org:80"),
    )
    .unwrap();
    assert_eq!(url.text, "yabu://example.org:80");
    assert_eq!(
        resolve_url(
            reading("example.org:80"),
            reading("yabu://unused"),
            reading("yabu://unused"),
            Err("fourth".to_string()),
        )
        .err(),
        Some("fourth".to_string())
    );
}

#[test]
fn a_connection_goes_to_the_host_and_port_of_the_url() {
    let connection = ClientConnection::new(&parsed("yabu://example.org:1234")).unwrap();
    assert_eq!(connection.host(), "example.org");
    assert_eq!(connection.port(), 1234);
    assert_eq!(connection.state(), ClientState::Idle);
}

#[test]
fn a_url_without_port_goes_to_the_default_port() {
    let connection = ClientConnection::new(&parsed("yabu://example.org")).unwrap();
    assert_eq!(connection.host(), "example.org");
    assert_eq!(connection.port(), 11180);
}

#[test]
fn a_url_without_host_is_refused() {
    let result = ClientConnection::new(&parsed("yabu:nowhere"));
    assert_eq!(result.err(), Some(YabuError::UrlHasNoHost("yabu:nowhere".to_string())));
}

#[test]
fn the_first_address_is_taken() {
    let url = parsed("yabu://example.org");
    assert_eq!(first_address(vec![7, 8, 9], &url), Ok(7));
    assert_eq!(first_address(vec!["only"], &url), Ok("only"));
    assert_eq!(
        first_address(Vec::<u8>::new(), &url),
        Err(YabuError::DnsLookupFailed("yabu://example.org".to_string()))
    );
}

#[test]
fn a_client_sends_then_receives() {
    let mut connection = ClientConnection::new(&parsed("yabu://example.org")).unwrap();
    let request = connection.send(Message::List).unwrap();
    assert_eq!(request, Message::List.write_to_socket().unwrap());
    assert_eq!(connection.state(), ClientState::AwaitingResponse);
    let answer = Response::Nothing.write_to_socket().unwrap();
    assert_eq!(connection.receive(&answer), Ok(Response::Nothing));
    assert_eq!(connection.state(), ClientState::Idle);
    assert!(connection.send(Message::List).is_ok());
}

#[test]
fn a_client_does_not_send_twice() {
    let mut connection = ClientConnection::new(&parsed("yabu://example.org")).unwrap();
    connection.send(Message::List).unwrap();
    assert_eq!(connection.send(Message::List), Err(YabuError::RequestPending));
    assert_eq!(connection.state(), ClientState::AwaitingResponse);
}

#[test]
fn a_client_does_not_receive_what_it_did_not_ask_for() {
    let mut connection = ClientConnection::new(&parsed("yabu://example.org")).unwrap();
    let answer = Response::Nothing.write_to_socket().unwrap();
    assert_eq!(connection.receive(&answer), Err(YabuError::UnexpectedEvent));
    assert_eq!(connection.state(), ClientState::Idle);
}

#[test]
fn a_server_that_closes_early_fails_the_client() {
    let mut connection = ClientConnection::new(&parsed("yabu://example.org")).unwrap();
    connection.send(Message::List).unwrap();
    assert_eq!(connection.receive(&[]), Err(YabuError::ConnectionClosed));
    assert_eq!(connection.state(), ClientState::Failed);
    assert_eq!(connection.send(Message::List), Err(YabuError::ConnectionClosed));

    let mut connection = ClientConnection::new(&parsed("yabu://example.org")).unwrap();
    connection.send(Message::List).unwrap();
    let answer = Response::Nothing.write_to_socket().unwrap();
    assert_eq!(connection.receive(&answer[..5]), Err(YabuError::Truncated));
    assert_eq!(connection.state(), ClientState::Failed);
}

#[test]
fn a_failed_transport_fails_the_client() {
    let mut connection = ClientConnection::new(&parsed("yabu://example.org")).unwrap();
    connection.transport_failed();
    assert_eq!(connection.state(), ClientState::Failed);
    assert_eq!(connection.send(Message::List), Err(YabuError::ConnectionClosed));
}
