use crate::addr::{Endpoint, Ipv4Address};
use crate::ethernet::MacAddress;
use crate::rng::random_u16;
use vstd::prelude::*;
use vstd::string::*;

verus! {

/// The port that the request goes to.
pub const HTTP_PORT: u16 = 80;

/// First port of the dynamic range, from which the local port is taken.
pub const EPHEMERAL_PORT_BASE: u16 = 49152;

/// Number of ports that a local port is chosen from: those of the dynamic
/// range but the last, `65535`.
pub const EPHEMERAL_PORT_COUNT: u16 = 16383;

/// Size of the socket's receive buffer and of its transmit buffer, in bytes.
pub const SOCKET_BUFFER_LEN: usize = 1024;

/// Length of the network prefix of the interface's own address.
pub const LOCAL_PREFIX_LEN: u8 = 24;

/// The interface's own address, `192.168.42.1`.
pub open spec fn local_address_spec() -> Ipv4Address {
    Ipv4Address { a: 192, b: 168, c: 42, d: 1 }
}

/// The default gateway, `192.168.42.100`.
pub open spec fn gateway_spec() -> Ipv4Address {
    Ipv4Address { a: 192, b: 168, c: 42, d: 100 }
}

/// How the virtual interface and its one socket are set up. All of it is
/// fixed but the link-layer address.
#[derive(Debug)]
pub struct NetworkConfig {
    pub link: MacAddress,
    pub local: Ipv4Address,
    pub prefix_len: u8,
    pub gateway: Ipv4Address,
    pub rx_buffer_len: usize,
    pub tx_buffer_len: usize,
}

impl NetworkConfig {
    /// The configuration of an interface with link-layer address `link`.
    pub fn new(link: MacAddress) -> (config: NetworkConfig)
        ensures
            config.link == link,
            config.local == local_address_spec(),
            config.prefix_len == LOCAL_PREFIX_LEN,
            config.gateway == gateway_spec(),
            config.rx_buffer_len == SOCKET_BUFFER_LEN,
            config.tx_buffer_len == SOCKET_BUFFER_LEN,
    {
        NetworkConfig {
            link,
            local: Ipv4Address::new(192, 168, 42, 1),
            prefix_len: LOCAL_PREFIX_LEN,
            gateway: Ipv4Address::new(192, 168, 42, 100),
            rx_buffer_len: SOCKET_BUFFER_LEN,
            tx_buffer_len: SOCKET_BUFFER_LEN,
        }
    }
}

/// What the network stack can report as the reason of a failure.
#[derive(Clone, Copy, Debug, PartialEq, Eq, Structural)]
pub enum StackError {
    Exhausted,
    Illegal,
    Unaddressable,
    Truncated,
    Checksum,
    Unrecognized,
    Fragmented,
    Malformed,
    Dropped,
}

/// Why a fetch failed.
#[derive(Clone, Copy, Debug, PartialEq, Eq, Structural)]
pub enum UpstreamError {
    /// A socket operation failed in the network stack.
    Network(StackError),
    /// The URL names no host.
    InvalidUrl,
    /// The response could not be read as text.
    Content,
}

impl From<StackError> for UpstreamError {
    fn from(e: StackError) -> (error: UpstreamError) {
        UpstreamError::Network(e)
    }
}

impl vstd::std_specs::convert::FromSpecImpl<StackError> for UpstreamError {
    open spec fn obeys_from_spec() -> bool {
        true
    }

    open spec fn from_spec(e: StackError) -> UpstreamError {
        UpstreamError::Network(e)
    }
}

/// Whether the outcome of one poll of the stack deserves a diagnostic line.
/// A poll that met a packet it did not recognise had nothing to do and is
/// passed over in silence; every other failure is reported. None of them
/// ends the fetch.
pub fn poll_needs_report(outcome: Result<bool, StackError>) -> (report: bool)
    ensures
        report == (outcome matches Err(e) && e != StackError::Unrecognized),
{
    match outcome {
        Ok(_) => false,
        Err(StackError::Unrecognized) => false,
        Err(_) => true,
    }
}

/// The local port that a 16-bit seed selects.
pub open spec fn ephemeral_port_spec(seed: u16) -> int {
    EPHEMERAL_PORT_BASE + seed % EPHEMERAL_PORT_COUNT
}

/// Folds an arbitrary 16-bit seed into the range of local ports, from
/// `49152` up to, but not including, `65535`.
pub fn ephemeral_port(seed: u16) -> (port: u16)
    ensures
        port == ephemeral_port_spec(seed),
        EPHEMERAL_PORT_BASE <= port < u16::MAX,
{
    EPHEMERAL_PORT_BASE + seed % EPHEMERAL_PORT_COUNT
}

/// A random local port for an outbound connection, from `49152` up to, but
/// not including, `65535`.
pub fn random_port() -> (port: u16)
    ensures
        EPHEMERAL_PORT_BASE <= port < u16::MAX,
{
    let seed: u16 = random_u16();
    ephemeral_port(seed)
}

/// Every seed selects a port in the half-open range from `49152` to `65535`.
pub proof fn lemma_ephemeral_port_range(seed: u16)
    ensures
        49152 <= ephemeral_port_spec(seed) < 65535,
{
}

/// The parts of a URL that a fetch reads.
#[derive(Debug)]
pub struct PageUrl {
    pub scheme: String,
    pub host: Option<String>,
    pub path: String,
}

impl PageUrl {
    /// Whether the scheme is plain HTTP, the only one that can be fetched.
    pub fn is_http(&self) -> (http: bool)
        ensures
            http == (self.scheme@ == "http"@),
    {
        let http = String::from_str("http");
        self.scheme == http
    }
}

/// The path that is asked for: the root where the URL gives none.
pub open spec fn effective_path(path: Seq<char>) -> Seq<char> {
    if path.len() == 0 {
        "/"@
    } else {
        path
    }
}

/// The text of the request for `path` on `host`: the request line, the
/// `Host` header, `Connection: close`, and the empty line that ends the head.
pub open spec fn http_request(path: Seq<char>, host: Seq<char>) -> Seq<char> {
    "GET "@ + effective_path(path) + " HTTP/1.0\r\nHost: "@ + host
        + "\r\nConnection: close\r\n\r\n"@
}

/// The number of bytes that a request takes on the wire, as UTF-8.
pub open spec fn request_len(request: Seq<char>) -> nat {
    vstd::utf8::encode_utf8(request).len()
}

/// Writes the request for `path` on `host`.
pub fn request_text(path: &str, host: &str) -> (request: String)
    ensures
        request@ == http_request(path@, host@),
{
    let mut request = String::from_str("GET ");
    if path.is_empty() {
        request.append("/");
    } else {
        request.append(path);
    }
    request.append(" HTTP/1.0\r\nHost: ");
    request.append(host);
    request.append("\r\nConnection: close\r\n\r\n");
    request
}

/// The text that `String::from_utf8_lossy` reads from bytes: their decoding
/// as UTF-8, with U+FFFD in place of what is not valid.
pub uninterp spec fn lossy_text(bytes: Seq<u8>) -> Seq<char>;

/// `String::from_utf8_lossy` of std, as an owned string. The contract only
/// gives the result a name: the same bytes always decode to the same text.
#[verifier::external_body]
fn decode_lossy(data: &[u8]) -> (text: String)
    ensures
        text@ == lossy_text(data@),
{
    String::from_utf8_lossy(data).into_owned()
}

/// What reading from the socket's receive buffer gives: how many bytes are
/// taken out of the buffer, and the text to put out.
#[derive(Debug)]
pub struct Chunk {
    pub consumed: usize,
    pub text: String,
}

/// Reads the bytes that the socket offers: all of them are consumed, and
/// they are put out as text at once, decoded leniently, so that no content
/// ever fails the fetch.
pub fn read_chunk(data: &[u8]) -> (chunk: Chunk)
    ensures
        chunk.consumed == data@.len(),
        chunk.text@ == lossy_text(data@),
{
    Chunk { consumed: data.len(), text: decode_lossy(data) }
}

/// Where a fetch stands.
#[derive(Clone, Copy, Debug, PartialEq, Eq, Structural)]
pub enum HttpState {
    /// The connection has yet to be opened.
    Connect,
    /// The connection was asked for; the request has yet to be sent.
    Request,
    /// The request was sent; the response is being read.
    Response,
    /// The peer has closed its side and everything was read.
    Done,
}

/// What the socket reports about itself at one moment.
#[derive(Clone, Copy, Debug, PartialEq, Eq, Structural)]
pub struct SocketStatus {
    /// The socket is exchanging packets with a peer.
    pub is_active: bool,
    /// The transmit half of the connection is open.
    pub may_send: bool,
    /// The receive half is open and the receive buffer holds data.
    pub can_recv: bool,
    /// The receive half is open, or data is still buffered.
    pub may_recv: bool,
}

/// The one thing to do on the socket in an iteration of the drive loop.
#[derive(Clone, Copy, Debug, PartialEq, Eq, Structural)]
pub enum Action {
    /// Open the connection.
    Connect,
    /// Send the request.
    SendRequest,
    /// Read what has arrived and hand it to the output.
    Receive,
    /// Stop: the transmission is complete.
    Finish,
    /// Leave the socket alone and wait for the stack.
    Wait,
}

/// A transition: the state that follows and the action that goes with it.
#[derive(Clone, Copy, Debug, PartialEq, Eq, Structural)]
pub struct Step {
    pub next: HttpState,
    pub action: Action,
}

/// The transition table. In each state one guard is looked at (two in
/// `Response`, data first); where none holds the state stays and nothing is
/// done.
pub open spec fn next_step(state: HttpState, status: SocketStatus) -> Step {
    match state {
        HttpState::Connect => if !status.is_active {
            Step { next: HttpState::Request, action: Action::Connect }
        } else {
            Step { next: HttpState::Connect, action: Action::Wait }
        },
        HttpState::Request => if status.may_send {
            Step { next: HttpState::Response, action: Action::SendRequest }
        } else {
            Step { next: HttpState::Request, action: Action::Wait }
        },
        HttpState::Response => if status.can_recv {
            Step { next: HttpState::Response, action: Action::Receive }
        } else if !status.may_recv {
            Step { next: HttpState::Done, action: Action::Finish }
        } else {
            Step { next: HttpState::Response, action: Action::Wait }
        },
        HttpState::Done => Step { next: HttpState::Done, action: Action::Wait },
    }
}

/// Performs at most one transition: from the current state and what the
/// socket reports to the next state and the action to carry out.
pub fn transition(state: HttpState, status: SocketStatus) -> (step: Step)
    ensures
        step == next_step(state, status),
{
    match state {
        HttpState::Connect => {
            if !status.is_active {
                Step { next: HttpState::Request, action: Action::Connect }
            } else {
                Step { next: HttpState::Connect, action: Action::Wait }
            }
        },
        HttpState::Request => {
            if status.may_send {
                Step { next: HttpState::Response, action: Action::SendRequest }
            } else {
                Step { next: HttpState::Request, action: Action::Wait }
            }
        },
        HttpState::Response => {
            if status.can_recv {
                Step { next: HttpState::Response, action: Action::Receive }
            } else if !status.may_recv {
                Step { next: HttpState::Done, action: Action::Finish }
            } else {
                Step { next: HttpState::Response, action: Action::Wait }
            }
        },
        HttpState::Done => Step { next: HttpState::Done, action: Action::Wait },
    }
}

/// An action with what is needed to carry it out.
#[derive(Clone, Copy, Debug, PartialEq, Eq, Structural)]
pub enum Command {
    /// Open a connection to `remote` from the local port `local_port`.
    Connect { remote: Endpoint, local_port: u16 },
    /// Send the request of this fetch.
    SendRequest,
    /// Read what has arrived and hand it to the output.
    Receive,
    /// Stop: the transmission is complete.
    Finish,
    /// Leave the socket alone and wait for the stack.
    Wait,
}

/// The action that a command carries out.
pub open spec fn command_action(command: Command) -> Action {
    match command {
        Command::Connect { .. } => Action::Connect,
        Command::SendRequest => Action::SendRequest,
        Command::Receive => Action::Receive,
        Command::Finish => Action::Finish,
        Command::Wait => Action::Wait,
    }
}

/// A fetch as a value: the state, the peer and the request.
pub struct FetchView {
    pub state: HttpState,
    pub target: Ipv4Address,
    pub request: Seq<char>,
}

/// One fetch of one page over one TCP connection.
#[derive(Debug)]
pub struct Fetch {
    state: HttpState,
    target: Ipv4Address,
    request: String,
}

impl View for Fetch {
    type V = FetchView;

    closed spec fn view(&self) -> FetchView {
        FetchView { state: self.state, target: self.target, request: self.request@ }
    }
}

impl Fetch {
    /// Prepares the fetch of `url` from the host at `target`. Fails with
    /// `InvalidUrl`, and only then, where the URL names no host.
    pub fn new(target: Ipv4Address, url: &PageUrl) -> (fetch: Result<Fetch, UpstreamError>)
        ensures
            match fetch {
                Ok(f) => url.host matches Some(host) && f@ == (FetchView {
                    state: HttpState::Connect,
                    target,
                    request: http_request(url.path@, host@),
                }),
                Err(e) => url.host is None && e == UpstreamError::InvalidUrl,
            },
    {
        match &url.host {
            Some(host) => {
                let request = request_text(url.path.as_str(), host.as_str());
                Ok(Fetch { state: HttpState::Connect, target, request })
            },
            None => Err(UpstreamError::InvalidUrl),
        }
    }

    /// The current state.
    pub fn state(&self) -> (state: HttpState)
        ensures
            state == self@.state,
    {
        self.state
    }

    /// Whether the fetch has ended successfully.
    pub fn is_done(&self) -> (done: bool)
        ensures
            done == (self@.state == HttpState::Done),
    {
        match self.state {
            HttpState::Done => true,
            _ => false,
        }
    }

    /// The address of the host that is fetched from.
    pub fn target(&self) -> (target: Ipv4Address)
        ensures
            target == self@.target,
    {
        self.target
    }

    /// The request that is sent once the connection is open.
    pub fn request(&self) -> (request: &String)
        ensures
            request@ == self@.request,
    {
        &self.request
    }

    /// Judges what the socket took of the request: the number of bytes that
    /// it accepted. A request goes out whole or the fetch fails: where the
    /// socket took less than all of it, its buffer was exhausted.
    pub fn confirm_sent(&self, enqueued: usize) -> (sent: Result<(), UpstreamError>)
        ensures
            sent == if enqueued == request_len(self@.request) {
                Ok::<(), UpstreamError>(())
            } else {
                Err::<(), UpstreamError>(UpstreamError::Network(StackError::Exhausted))
            },
    {
        if enqueued == self.request.as_str().as_bytes().len() {
            Ok(())
        } else {
            Err(UpstreamError::Network(StackError::Exhausted))
        }
    }

    /// One iteration of the drive loop: looks at what the socket reports,
    /// moves to the next state and says what to do on the socket. A
    /// connection is opened to port 80 of the target from a random local
    /// port, from `49152` up to, but not including, `65535`.
    pub fn advance(&mut self, status: SocketStatus) -> (command: Command)
        ensures
            final(self)@ == (FetchView {
                state: next_step(old(self)@.state, status).next,
                ..old(self)@
            }),
            command_action(command) == next_step(old(self)@.state, status).action,
            command matches Command::Connect { remote, local_port } ==> {
                &&& remote == (Endpoint { address: old(self)@.target, port: HTTP_PORT })
                &&& EPHEMERAL_PORT_BASE <= local_port < u16::MAX
            },
    {
        let step = transition(self.state, status);
        self.state = step.next;
        match step.action {
            Action::Connect => Command::Connect {
                remote: Endpoint::new(self.target, HTTP_PORT),
                local_port: random_port(),
            },
            Action::SendRequest => Command::SendRequest,
            Action::Receive => Command::Receive,
            Action::Finish => Command::Finish,
            Action::Wait => Command::Wait,
        }
    }
}

} // verus!
