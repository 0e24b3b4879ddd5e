use procks::datagram::DatagramRelay;
use procks::options::Options;
use procks::program::{Action, Procks};

#[test]
fn datagram_within_capacity_is_unmodified() {
    let mut relay = DatagramRelay::new(4096);
    assert_eq!(relay.buffer_capacity(), 4096);
    let out = relay.forward(vec![1u8, 2u8, 3u8]);
    assert_eq!(out, vec![1u8, 2u8, 3u8]);
}

#[test]
fn empty_datagram_is_forwarded_empty() {
    let mut relay = DatagramRelay::new(1);
    let out = relay.forward(Vec::new());
    assert!(out.is_empty());
}

#[test]
fn datagram_at_exact_capacity_is_unmodified() {
    let mut relay = DatagramRelay::new(5);
    let out = relay.forward(b"12345".to_vec());
    assert_eq!(out, b"12345".to_vec());
}

#[test]
fn oversized_datagram_is_truncated_to_capacity() {
    let mut relay = DatagramRelay::new(4);
    let out = relay.forward(b"123456789".to_vec());
    assert_eq!(out, b"1234".to_vec());
    assert_eq!(out.len(), 4);
}

#[test]
fn datagrams_forward_one_per_receipt_in_order() {
    let mut relay = DatagramRelay::new(8);
    let first = relay.forward(b"first".to_vec());
    let second = relay.forward(b"second but long".to_vec());
    let third = relay.forward(b"third".to_vec());
    assert_eq!(first, b"first".to_vec());
    assert_eq!(second, b"second b".to_vec());
    assert_eq!(third, b"third".to_vec());
}

#[test]
fn scenario_udp_hello_and_truncation() {
    // config {protocol: "udp", receive: "127.0.0.1:9100", send: "127.0.0.1:9101", buffer: 8}
    let options = Options {
        buffer: 8,
        protocol: Some("udp".to_owned()),
        receive: Some("127.0.0.1:9100".to_owned()),
        send: Some("127.0.0.1:9101".to_owned()),
        help: false,
        version: false,
    };
    let p = Procks::new(options);
    assert!(p.validate().is_ok());
    assert_eq!(p.plan(), Action::StartUdp);

    let mut relay = DatagramRelay::new(p.options.buffer);
    // The 5-byte datagram "hello" arrives at the receive endpoint:
    // "hello" goes out to the send endpoint.
    let out = relay.forward(b"hello".to_vec());
    assert_eq!(out, b"hello".to_vec());
    // A 10-byte datagram arrives: an 8-byte truncated datagram goes out.
    let out = relay.forward(b"0123456789".to_vec());
    assert_eq!(out, b"01234567".to_vec());
    assert_eq!(out.len(), 8);
}
