use microget::addr::{Endpoint, Ipv4Address};
use microget::ethernet::MacAddress;
use microget::http::{
    poll_needs_report, read_chunk, request_text, transition, Action, Command, Fetch, HttpState,
    NetworkConfig, PageUrl, SocketStatus, StackError, Step, UpstreamError, HTTP_PORT,
    SOCKET_BUFFER_LEN,
};

fn status(is_active: bool, may_send: bool, can_recv: bool, may_recv: bool) -> SocketStatus {
    SocketStatus { is_active, may_send, can_recv, may_recv }
}

fn page(host: Option<&str>, path: &str) -> PageUrl {
    PageUrl { scheme: "http".to_string(), host: host.map(|h| h.to_string()), path: path.to_string() }
}

fn every_status() -> Vec<SocketStatus> {
    let mut all = Vec::new();
    for bits in 0..16u8 {
        all.push(status(bits & 1 != 0, bits & 2 != 0, bits & 4 != 0, bits & 8 != 0));
    }
    all
}

fn rank(state: HttpState) -> u8 {
    match state {
        HttpState::Connect => 0,
        HttpState::Request => 1,
        HttpState::Response => 2,
        HttpState::Done => 3,
    }
}

#[test]
fn connect_waits_while_the_socket_is_active() {
    let step = transition(HttpState::Connect, status(true, false, false, false));
    assert_eq!(step, Step { next: HttpState::Connect, action: Action::Wait });
}

#[test]
fn connect_opens_the_connection_when_the_socket_is_inactive() {
    let step = transition(HttpState::Connect, status(false, true, true, true));
    assert_eq!(step, Step { next: HttpState::Request, action: Action::Connect });
}

#[test]
fn request_is_sent_once_the_socket_may_send() {
    let step = transition(HttpState::Request, status(true, true, false, true));
    assert_eq!(step, Step { next: HttpState::Response, action: Action::SendRequest });
    let step = transition(HttpState::Request, status(true, false, true, true));
    assert_eq!(step, Step { next: HttpState::Request, action: Action::Wait });
}

#[test]
fn response_reads_while_data_is_there() {
    let step = transition(HttpState::Response, status(true, true, true, true));
    assert_eq!(step, Step { next: HttpState::Response, action: Action::Receive });
    let step = transition(HttpState::Response, status(true, true, true, false));
    assert_eq!(step, Step { next: HttpState::Response, action: Action::Receive });
}

#[test]
fn response_waits_while_the_peer_may_still_send() {
    let step = transition(HttpState::Response, status(true, true, false, true));
    assert_eq!(step, Step { next: HttpState::Response, action: Action::Wait });
}

#[test]
fn response_ends_when_nothing_more_can_arrive() {
    let step = transition(HttpState::Response, status(true, true, false, false));
    assert_eq!(step, Step { next: HttpState::Done, action: Action::Finish });
    let step = transition(HttpState::Response, status(false, false, false, false));
    assert_eq!(step, Step { next: HttpState::Done, action: Action::Finish });
}

#[test]
fn done_is_final() {
    for s in every_status() {
        assert_eq!(transition(HttpState::Done, s), Step { next: HttpState::Done, action: Action::Wait });
    }
}

#[test]
fn no_transition_goes_back_or_skips_a_state() {
    for state in [HttpState::Connect, HttpState::Request, HttpState::Response, HttpState::Done] {
        for s in every_status() {
            let next = transition(state, s).next;
            assert!(rank(next) == rank(state) || rank(next) == rank(state) + 1);
        }
    }
}

#[test]
fn request_text_has_the_fixed_shape() {
    assert_eq!(
        request_text("/", "example.com"),
        "GET / HTTP/1.0\r\nHost: example.com\r\nConnection: close\r\n\r\n"
    );
    assert_eq!(
        request_text("/a/b.html", "www.rust-lang.org"),
        "GET /a/b.html HTTP/1.0\r\nHost: www.rust-lang.org\r\nConnection: close\r\n\r\n"
    );
}

#[test]
fn request_text_asks_for_the_root_where_there_is_no_path() {
    assert_eq!(
        request_text("", "example.com"),
        "GET / HTTP/1.0\r\nHost: example.com\r\nConnection: close\r\n\r\n"
    );
}

#[test]
fn request_text_takes_path_and_host_as_they_are() {
    let request = request_text("/caf\u{e9}?q=1", "\u{fc}ber.example");
    assert_eq!(
        request,
        "GET /caf\u{e9}?q=1 HTTP/1.0\r\nHost: \u{fc}ber.example\r\nConnection: close\r\n\r\n"
    );
}

#[test]
fn fetch_needs_a_host() {
    let target = Ipv4Address::new(93, 184, 216, 34);
    let fetch = Fetch::new(target, &page(None, "/"));
    assert_eq!(fetch.err(), Some(UpstreamError::InvalidUrl));
}

#[test]
fn fetch_starts_in_connect_with_its_request_ready() {
    let target = Ipv4Address::new(93, 184, 216, 34);
    let fetch = Fetch::new(target, &page(Some("example.com"), "/index.html")).unwrap();
    assert_eq!(fetch.state(), HttpState::Connect);
    assert!(!fetch.is_done());
    assert_eq!(fetch.target(), target);
    assert_eq!(
        fetch.request().as_str(),
        "GET /index.html HTTP/1.0\r\nHost: example.com\r\nConnection: close\r\n\r\n"
    );
}

#[test]
fn a_successful_fetch_goes_connect_request_response_done() {
    let target = Ipv4Address::new(10, 0, 0, 7);
    let mut fetch = Fetch::new(target, &page(Some("example.com"), "/")).unwrap();
    let mut states = vec![fetch.state()];

    let command = fetch.advance(status(true, false, false, false));
    assert_eq!(command, Command::Wait);
    states.push(fetch.state());

    let command = fetch.advance(status(false, false, false, false));
    match command {
        Command::Connect { remote, local_port } => {
            assert_eq!(remote, Endpoint { address: target, port: 80 });
            assert_eq!(remote.port, HTTP_PORT);
            assert!(local_port >= 49152);
            assert!(local_port < 65535);
        }
        other => panic!("expected a connect, got {:?}", other),
    }
    states.push(fetch.state());

    assert_eq!(fetch.advance(status(true, false, false, false)), Command::Wait);
    states.push(fetch.state());
    assert_eq!(fetch.advance(status(true, true, false, true)), Command::SendRequest);
    states.push(fetch.state());
    assert_eq!(fetch.advance(status(true, true, false, true)), Command::Wait);
    states.push(fetch.state());
    assert_eq!(fetch.advance(status(true, true, true, true)), Command::Receive);
    states.push(fetch.state());
    assert_eq!(fetch.advance(status(true, true, true, true)), Command::Receive);
    states.push(fetch.state());
    assert_eq!(fetch.advance(status(true, false, false, false)), Command::Finish);
    states.push(fetch.state());
    assert!(fetch.is_done());
    assert_eq!(fetch.advance(status(false, false, false, false)), Command::Wait);
    states.push(fetch.state());

    assert_eq!(
        states,
        vec![
            HttpState::Connect,
            HttpState::Connect,
            HttpState::Request,
            HttpState::Request,
            HttpState::Response,
            HttpState::Response,
            HttpState::Response,
            HttpState::Response,
            HttpState::Done,
            HttpState::Done,
        ]
    );
}

#[test]
fn advance_keeps_request_and_target() {
    let target = Ipv4Address::new(10, 0, 0, 7);
    let mut fetch = Fetch::new(target, &page(Some("h"), "/p")).unwrap();
    let before = fetch.request().clone();
    for s in every_status() {
        fetch.advance(s);
        assert_eq!(fetch.request(), &before);
        assert_eq!(fetch.target(), target);
    }
}

#[test]
fn connect_ports_are_random_and_in_range() {
    let target = Ipv4Address::new(10, 0, 0, 7);
    let mut seen = Vec::new();
    for _ in 0..50_000 {
        let mut fetch = Fetch::new(target, &page(Some("h"), "/")).unwrap();
        match fetch.advance(status(false, false, false, false)) {
            Command::Connect { remote, local_port } => {
                assert_eq!(remote, Endpoint { address: target, port: 80 });
                assert!(local_port >= 49152);
                assert!(local_port < 65535);
                if !seen.contains(&local_port) {
                    seen.push(local_port);
                }
            }
            other => panic!("expected a connect, got {:?}", other),
        }
    }
    assert!(seen.len() > 1);
}

#[test]
fn only_an_unrecognized_packet_is_passed_over_in_silence() {
    assert!(!poll_needs_report(Ok(true)));
    assert!(!poll_needs_report(Ok(false)));
    assert!(!poll_needs_report(Err(StackError::Unrecognized)));
    for e in [
        StackError::Exhausted,
        StackError::Illegal,
        StackError::Unaddressable,
        StackError::Truncated,
        StackError::Checksum,
        StackError::Fragmented,
        StackError::Malformed,
        StackError::Dropped,
    ] {
        assert!(poll_needs_report(Err(e)));
    }
}

#[test]
fn a_stack_error_becomes_a_network_error() {
    assert_eq!(UpstreamError::from(StackError::Illegal), UpstreamError::Network(StackError::Illegal));
    let converted: UpstreamError = StackError::Unaddressable.into();
    assert_eq!(converted, UpstreamError::Network(StackError::Unaddressable));
}

#[test]
fn a_chunk_is_consumed_whole_and_decoded() {
    let chunk = read_chunk(b"HTTP/1.0 200 OK\r\n\r\nhello");
    assert_eq!(chunk.consumed, 24);
    assert_eq!(chunk.text, "HTTP/1.0 200 OK\r\n\r\nhello");
    let chunk = read_chunk(b"");
    assert_eq!(chunk.consumed, 0);
    assert_eq!(chunk.text, "");
}

#[test]
fn invalid_bytes_are_replaced_not_refused() {
    let chunk = read_chunk(&[b'a', 0xff, b'b', 0xc3, 0xa9, 0xc3]);
    assert_eq!(chunk.consumed, 6);
    assert_eq!(chunk.text, "a\u{fffd}b\u{e9}\u{fffd}");
}

#[test]
fn the_interface_is_configured_with_fixed_addresses() {
    let config = NetworkConfig::new(MacAddress::from_random([2, 0, 0, 0, 0, 1]));
    assert_eq!(config.link.octets(), [2, 0, 0, 0, 0, 1]);
    assert_eq!(config.local, Ipv4Address::new(192, 168, 42, 1));
    assert_eq!(config.prefix_len, 24);
    assert_eq!(config.gateway, Ipv4Address::new(192, 168, 42, 100));
    assert_eq!(config.rx_buffer_len, 1024);
    assert_eq!(config.tx_buffer_len, 1024);
    assert_eq!(SOCKET_BUFFER_LEN, 1024);
}

#[test]
fn only_plain_http_is_supported() {
    let mut url = page(Some("example.com"), "/");
    assert!(url.is_http());
    url.scheme = "https".to_string();
    assert!(!url.is_http());
    url.scheme = "HTTP".to_string();
    assert!(!url.is_http());
    url.scheme = String::new();
    assert!(!url.is_http());
}

#[test]
fn a_request_goes_out_whole_or_the_fetch_fails() {
    let target = Ipv4Address::new(10, 0, 0, 7);
    let fetch = Fetch::new(target, &page(Some("example.com"), "/")).unwrap();
    let len = fetch.request().len();
    assert_eq!(len, 56);
    assert_eq!(fetch.confirm_sent(len), Ok(()));
    assert_eq!(fetch.confirm_sent(len - 1), Err(UpstreamError::Network(StackError::Exhausted)));
    assert_eq!(fetch.confirm_sent(0), Err(UpstreamError::Network(StackError::Exhausted)));
    assert_eq!(fetch.confirm_sent(len + 1), Err(UpstreamError::Network(StackError::Exhausted)));
}

#[test]
fn the_length_of_a_request_is_counted_in_bytes() {
    let target = Ipv4Address::new(10, 0, 0, 7);
    let fetch = Fetch::new(target, &page(Some("example.com"), "/caf\u{e9}")).unwrap();
    let chars = fetch.request().chars().count();
    assert_eq!(fetch.request().len(), chars + 1);
    assert_eq!(fetch.confirm_sent(chars + 1), Ok(()));
    assert_eq!(fetch.confirm_sent(chars), Err(UpstreamError::Network(StackError::Exhausted)));
}

#[test]
fn a_request_longer_than_the_transmit_buffer_is_not_cut_short() {
    let target = Ipv4Address::new(10, 0, 0, 7);
    let path = format!("/{}", "a".repeat(2000));
    let fetch = Fetch::new(target, &page(Some("example.com"), &path)).unwrap();
    assert!(fetch.request().len() > SOCKET_BUFFER_LEN);
    assert_eq!(
        fetch.confirm_sent(SOCKET_BUFFER_LEN),
        Err(UpstreamError::Network(StackError::Exhausted))
    );
}
