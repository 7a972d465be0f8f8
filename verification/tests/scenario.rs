use microget::addr::{Endpoint, Ipv4Address};
use microget::dns::{parse_domain, Exchange, Reception};
use microget::http::{Command, Fetch, PageUrl, SocketStatus};

#[test]
fn resolving_example_com_and_asking_for_its_root() {
    let server = Ipv4Address::new(1, 1, 1, 1);
    let name = parse_domain("example.com").unwrap();
    let exchange = Exchange::with_id(server, name, 0x1234);

    let request = exchange.request().unwrap();
    assert_eq!(&request[..2], &[0x12, 0x34]);

    let mut datagram = vec![0x12, 0x34, 0x81, 0x80, 0, 1, 0, 1, 0, 0, 0, 0];
    datagram.push(7);
    datagram.extend_from_slice(b"example");
    datagram.push(3);
    datagram.extend_from_slice(b"com");
    datagram.extend_from_slice(&[0, 0, 1, 0, 1]);
    datagram.extend_from_slice(&[0xc0, 0x0c, 0, 1, 0, 1, 0, 0, 0x0e, 0x10, 0, 4, 93, 184, 216, 34]);
    let reception = exchange.receive(Endpoint::new(server, 53), &datagram);
    let address = match reception {
        Reception::Accepted(Ok(Some(address))) => address,
        other => panic!("no address: {:?}", other),
    };
    assert_eq!(address, Ipv4Address::new(93, 184, 216, 34));

    let url = PageUrl {
        scheme: "http".to_string(),
        host: Some("example.com".to_string()),
        path: "/".to_string(),
    };
    let mut fetch = Fetch::new(address, &url).unwrap();
    let idle = SocketStatus { is_active: false, may_send: false, can_recv: false, may_recv: false };
    let open = SocketStatus { is_active: true, may_send: true, can_recv: false, may_recv: true };
    let mut sent: Vec<u8> = Vec::new();
    let mut commands = Vec::new();
    for status in [idle, open] {
        let command = fetch.advance(status);
        if command == Command::SendRequest {
            sent.extend_from_slice(fetch.request().as_bytes());
        }
        assert_ne!(command, Command::Receive);
        commands.push(command);
    }
    assert!(matches!(commands[0], Command::Connect { remote, .. } if remote == Endpoint::new(address, 80)));
    assert_eq!(commands[1], Command::SendRequest);
    assert_eq!(sent, b"GET / HTTP/1.0\r\nHost: example.com\r\nConnection: close\r\n\r\n".to_vec());
}
