//! Where the task server lives: server URLs and how a loosely written one is
//! completed.

use crate::codec::{spec_decode_response, spec_write_message};
use crate::error::{ErrorView, YabuError};
use crate::message::{Message, Response, ResponseView};
use crate::text::{decimal, decimal_text};
use vstd::prelude::*;
use vstd::string::*;

verus! {

/// Port the task server listens on unless told otherwise.
pub const DEFAULT_SERVER_PORT: u16 = 11180;

/// Scheme of every server URL.
pub const URL_SCHEME: &'static str = "yabu";

/// The parts of a parsed URL that the protocol reads.
#[derive(Debug, PartialEq, Eq)]
pub struct ServerUrl {
    /// The URL as the parser writes it out.
    pub text: String,
    /// Lower-cased scheme, without the colon.
    pub scheme: String,
    /// Host as written in the URL, if it has one.
    pub host: Option<String>,
    /// Port, if the URL names one.
    pub port: Option<u16>,
}

/// Mathematical value of a [`ServerUrl`].
pub ghost struct ServerUrlView {
    pub text: Seq<char>,
    pub scheme: Seq<char>,
    pub host: Option<Seq<char>>,
    pub port: Option<u16>,
}

impl View for ServerUrl {
    type V = ServerUrlView;

    open spec fn view(&self) -> ServerUrlView {
        ServerUrlView {
            text: self.text@,
            scheme: self.scheme@,
            host: match self.host {
                Some(h) => Some(h@),
                None => None,
            },
            port: self.port,
        }
    }
}

/// What `url::Url::parse` makes of `input`: the parts of the URL, or the
/// parser's error message.
pub uninterp spec fn url_parse(input: Seq<char>) -> Result<ServerUrlView, Seq<char>>;

/// Runs `url::Url::parse` on `input`. Nothing is claimed about the outcome
/// except that it is the one named by [`url_parse`]: on success the
/// serialization, scheme, host and port as the parsed URL reports them, on
/// failure the text of the parse error.
#[verifier::external_body]
fn parse_url(input: &str) -> (r: Result<ServerUrl, String>)
    ensures
        match r {
            Ok(u) => url_parse(input@) == Ok::<ServerUrlView, Seq<char>>(u@),
            Err(e) => url_parse(input@) == Err::<ServerUrlView, Seq<char>>(e@),
        },
{
    match url::Url::parse(input) {
        Ok(u) => Ok(ServerUrl {
            text: u.as_str().to_string(),
            scheme: u.scheme().to_string(),
            host: u.host_str().map(|h| h.to_string()),
            port: u.port(),
        }),
        Err(e) => Err(e.to_string()),
    }
}

/// Mathematical value of a parse outcome.
pub open spec fn outcome_view(r: Result<ServerUrl, String>) -> Result<ServerUrlView, Seq<char>> {
    match r {
        Ok(u) => Ok(u@),
        Err(e) => Err(e@),
    }
}

/// `input` with the scheme put in front.
pub open spec fn with_scheme(input: Seq<char>) -> Seq<char> {
    URL_SCHEME@ + "://"@ + input
}

/// `input` with the default port behind.
pub open spec fn with_port(input: Seq<char>) -> Seq<char> {
    input + ":"@ + decimal(DEFAULT_SERVER_PORT as nat)
}

/// `input` with the scheme put in front and the default port behind.
pub open spec fn with_scheme_and_port(input: Seq<char>) -> Seq<char> {
    with_port(with_scheme(input))
}

/// Message for a URL that parsed but names another scheme.
pub open spec fn wrong_scheme_message(scheme: Seq<char>) -> Seq<char> {
    "server URL has an incorrect scheme (expected "@ + URL_SCHEME@ + ", got "@ + scheme + ")"@
}

/// The URL of the server on this machine, at the default port.
pub open spec fn default_server_text() -> Seq<char> {
    with_port(with_scheme("127.0.0.1"@))
}

/// Puts the scheme in front of a text.
fn add_scheme(text: &str) -> (r: String)
    ensures
        r@ == with_scheme(text@),
{
    String::from_str(URL_SCHEME).concat("://").concat(text)
}

/// Puts the default port behind a text.
fn add_port(text: &str) -> (r: String)
    ensures
        r@ == with_port(text@),
{
    String::from_str(text).concat(":").concat(decimal_text(DEFAULT_SERVER_PORT as u64).as_str())
}

/// The first reading of the user's text that parsed: the text as written,
/// else with scheme and port added, else with only the port added. When none
/// parsed, the error of the text as written.
pub open spec fn first_reading(
    as_written: Result<ServerUrlView, Seq<char>>,
    scheme_and_port_added: Result<ServerUrlView, Seq<char>>,
    port_added: Result<ServerUrlView, Seq<char>>,
) -> Result<ServerUrlView, Seq<char>> {
    if as_written is Ok {
        as_written
    } else if scheme_and_port_added is Ok {
        scheme_and_port_added
    } else if port_added is Ok {
        port_added
    } else {
        as_written
    }
}

/// Which reading of the user's text is the server URL.
///
/// A reading whose scheme holds a dot is a host that was taken for a scheme
/// (`example.org:1234`), so it gives way to the text with the scheme added,
/// as does a text of which no reading parsed. What is left must name the
/// `yabu` scheme.
pub open spec fn spec_resolve_url(
    as_written: Result<ServerUrlView, Seq<char>>,
    scheme_and_port_added: Result<ServerUrlView, Seq<char>>,
    port_added: Result<ServerUrlView, Seq<char>>,
    scheme_added: Result<ServerUrlView, Seq<char>>,
) -> Result<ServerUrlView, Seq<char>> {
    let reading = first_reading(as_written, scheme_and_port_added, port_added);
    let settled = match reading {
        Ok(u) => if u.scheme.contains('.') {
            scheme_added
        } else {
            reading
        },
        Err(_) => scheme_added,
    };
    match settled {
        Ok(u) => if u.scheme == URL_SCHEME@ {
            Ok(u)
        } else {
            Err(wrong_scheme_message(u.scheme))
        },
        Err(e) => Err(e),
    }
}

/// The server URL that `input` stands for, over what the URL parser makes
/// of `input` and of its three completions.
pub open spec fn spec_url_from_str(input: Seq<char>) -> Result<ServerUrlView, Seq<char>> {
    spec_resolve_url(
        url_parse(input),
        url_parse(with_scheme_and_port(input)),
        url_parse(with_port(input)),
        url_parse(with_scheme(input)),
    )
}

/// Whether `text` holds a dot.
fn has_dot(text: &String) -> (found: bool)
    ensures
        found == text@.contains('.'),
{
    let chars = text.as_str();
    let n = chars.unicode_len();
    let mut i: usize = 0;
    while i < n
        invariant
            n == chars@.len(),
            chars@ == text@,
            i <= n,
            forall|j: int| 0 <= j < i ==> text@[j] != '.',
        decreases n - i,
    {
        if chars.get_char(i) == '.' {
            return true;
        }
        i += 1;
    }
    false
}

/// Picks the server URL among the four readings of the user's text: as
/// written, with scheme and port added, with the port added, with the scheme
/// added.
pub fn resolve_url(
    as_written: Result<ServerUrl, String>,
    scheme_and_port_added: Result<ServerUrl, String>,
    port_added: Result<ServerUrl, String>,
    scheme_added: Result<ServerUrl, String>,
) -> (r: Result<ServerUrl, String>)
    ensures
        outcome_view(r) == spec_resolve_url(
            outcome_view(as_written),
            outcome_view(scheme_and_port_added),
            outcome_view(port_added),
            outcome_view(scheme_added),
        ),
{
    let reading = if as_written.is_ok() {
        as_written
    } else if scheme_and_port_added.is_ok() {
        scheme_and_port_added
    } else if port_added.is_ok() {
        port_added
    } else {
        as_written
    };
    let settled = match reading {
        Ok(u) => if has_dot(&u.scheme) {
            scheme_added
        } else {
            Ok(u)
        },
        Err(_) => scheme_added,
    };
    match settled {
        Ok(u) => {
            let expected = String::from_str(URL_SCHEME);
            if u.scheme == expected {
                Ok(u)
            } else {
                let message = String::from_str(
                    "server URL has an incorrect scheme (expected ",
                ).concat(URL_SCHEME).concat(", got ").concat(u.scheme.as_str()).concat(")");
                Err(message)
            }
        },
        Err(e) => Err(e),
    }
}

/// Reads a server URL as a user writes it. A text that is no full `yabu` URL
/// is completed with the scheme, the default port, or both.
pub fn url_from_str(s: &str) -> (r: Result<ServerUrl, String>)
    ensures
        outcome_view(r) == spec_url_from_str(s@),
{
    let scheme = add_scheme(s);
    let port = add_port(s);
    let both = add_port(scheme.as_str());
    resolve_url(
        parse_url(s),
        parse_url(both.as_str()),
        parse_url(port.as_str()),
        parse_url(scheme.as_str()),
    )
}

/// The server that a client talks to when it is given none: the one on this
/// machine, at the default port.
pub fn default_server() -> (r: Result<ServerUrl, String>)
    ensures
        outcome_view(r) == url_parse(default_server_text()),
{
    let text = add_port(add_scheme("127.0.0.1").as_str());
    parse_url(text.as_str())
}

/// Where a client stands with its server.
#[derive(Clone, Copy, Debug, PartialEq, Eq)]
pub enum ClientState {
    /// Free to send a request.
    Idle,
    /// A request went out and its answer has not come.
    AwaitingResponse,
    /// The connection failed and is of no more use.
    Failed,
}

/// One connection as the client sees it: a request goes out, its answer
/// comes in, and only then the next request goes out.
#[derive(Debug)]
pub struct ClientConnection {
    host: String,
    port: u16,
    state: ClientState,
}

/// Mathematical value of a [`ClientConnection`].
pub ghost struct ClientView {
    pub host: Seq<char>,
    pub port: u16,
    pub state: ClientState,
}

impl View for ClientConnection {
    type V = ClientView;

    closed spec fn view(&self) -> ClientView {
        ClientView { host: self.host@, port: self.port, state: self.state }
    }
}

/// The host and port that a server URL stands for: its host, and its port
/// or, where it names none, the default port. A URL without a host stands
/// for none.
pub open spec fn spec_target(url: ServerUrlView) -> Result<(Seq<char>, u16), ErrorView> {
    match url.host {
        Some(host) => Ok(
            (
                host,
                match url.port {
                    Some(port) => port,
                    None => DEFAULT_SERVER_PORT,
                },
            ),
        ),
        None => Err(ErrorView::UrlHasNoHost(url.text)),
    }
}

/// The first of the addresses that a host name resolved to.
pub fn first_address<A>(addresses: Vec<A>, server_url: &ServerUrl) -> (r: Result<A, YabuError>)
    ensures
        match r {
            Ok(address) => addresses.len() > 0 && address == addresses[0],
            Err(e) => addresses.len() == 0 && e@ == ErrorView::DnsLookupFailed(server_url@.text),
        },
{
    let mut addresses = addresses;
    if addresses.len() == 0 {
        Err(YabuError::DnsLookupFailed(server_url.text.clone()))
    } else {
        Ok(addresses.swap_remove(0))
    }
}

impl ClientConnection {
    /// A connection to the server at this URL, free to send.
    pub fn new(server_url: &ServerUrl) -> (r: Result<ClientConnection, YabuError>)
        ensures
            match r {
                Ok(connection) => spec_target(server_url@) == Ok::<(Seq<char>, u16), ErrorView>(
                    (connection@.host, connection@.port),
                ) && connection@.state == ClientState::Idle,
                Err(e) => spec_target(server_url@) == Err::<(Seq<char>, u16), ErrorView>(e@),
            },
    {
        match &server_url.host {
            Some(host) => Ok(
                ClientConnection {
                    host: host.clone(),
                    port: match server_url.port {
                        Some(port) => port,
                        None => DEFAULT_SERVER_PORT,
                    },
                    state: ClientState::Idle,
                },
            ),
            None => Err(YabuError::UrlHasNoHost(server_url.text.clone())),
        }
    }

    /// The host to connect to.
    pub fn host(&self) -> (host: &String)
        ensures
            host@ == self@.host,
    {
        &self.host
    }

    /// The port to connect to.
    pub fn port(&self) -> (port: u16)
        ensures
            port == self@.port,
    {
        self.port
    }

    /// Where the connection stands.
    pub fn state(&self) -> (state: ClientState)
        ensures
            state == self@.state,
    {
        self.state
    }

    /// The bytes that go to the server for a request. Once they are handed
    /// out the connection waits for the answer, and no other request goes
    /// out before it came.
    pub fn send(&mut self, message: Message) -> (r: Result<Vec<u8>, YabuError>)
        ensures
            final(self)@.host == old(self)@.host,
            final(self)@.port == old(self)@.port,
            match old(self)@.state {
                ClientState::Idle => match r {
                    Ok(bytes) => spec_write_message(message@) == Ok::<
                        Seq<u8>,
                        ErrorView,
                    >(bytes@) && final(self)@.state == ClientState::AwaitingResponse,
                    Err(e) => spec_write_message(message@) == Err::<Seq<u8>, ErrorView>(
                        e@,
                    ) && final(self)@.state == ClientState::Idle,
                },
                ClientState::AwaitingResponse => r == Err::<Vec<u8>, YabuError>(
                    YabuError::RequestPending,
                ) && final(self)@.state == ClientState::AwaitingResponse,
                ClientState::Failed => r == Err::<Vec<u8>, YabuError>(
                    YabuError::ConnectionClosed,
                ) && final(self)@.state == ClientState::Failed,
            },
    {
        match self.state {
            ClientState::Idle => match message.write_to_socket() {
                Ok(bytes) => {
                    self.state = ClientState::AwaitingResponse;
                    Ok(bytes)
                },
                Err(e) => Err(e),
            },
            ClientState::AwaitingResponse => Err(YabuError::RequestPending),
            ClientState::Failed => Err(YabuError::ConnectionClosed),
        }
    }

    /// The answer to the request that is out, read from what came from the
    /// server before the stream ended. With the answer the connection is free
    /// again; a stream that brings no whole answer has failed.
    pub fn receive(&mut self, received: &[u8]) -> (r: Result<Response, YabuError>)
        ensures
            final(self)@.host == old(self)@.host,
            final(self)@.port == old(self)@.port,
            match old(self)@.state {
                ClientState::AwaitingResponse => match r {
                    Ok(response) => spec_decode_response(received@) == Ok::<
                        ResponseView,
                        ErrorView,
                    >(response@) && final(self)@.state == ClientState::Idle,
                    Err(e) => spec_decode_response(received@) == Err::<ResponseView, ErrorView>(
                        e@,
                    ) && final(self)@.state == ClientState::Failed,
                },
                _ => r == Err::<Response, YabuError>(YabuError::UnexpectedEvent) && final(self)@
                    == old(self)@,
            },
    {
        match self.state {
            ClientState::AwaitingResponse => match Response::read_from_socket(received) {
                Ok(response) => {
                    self.state = ClientState::Idle;
                    Ok(response)
                },
                Err(e) => {
                    self.state = ClientState::Failed;
                    Err(e)
                },
            },
            _ => Err(YabuError::UnexpectedEvent),
        }
    }

    /// Takes note that writing to the server or reading from it failed.
    pub fn transport_failed(&mut self)
        ensures
            final(self)@ == (ClientView { state: ClientState::Failed, ..old(self)@ }),
    {
        self.state = ClientState::Failed;
    }
}

} // verus!
