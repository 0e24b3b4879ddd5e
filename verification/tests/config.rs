use procks::options::Error;
use procks::options::Options;
use procks::options::{is_tcp, is_udp};
use procks::program::{Action, Procks};

fn opts(protocol: Option<&str>, receive: Option<&str>, send: Option<&str>) -> Options {
    Options {
        buffer: 4096,
        protocol: protocol.map(|s| s.to_owned()),
        receive: receive.map(|s| s.to_owned()),
        send: send.map(|s| s.to_owned()),
        help: false,
        version: false,
    }
}

#[test]
fn validate_accepts_complete_options() {
    let p = Procks::new(opts(Some("tcp"), Some("127.0.0.1:9000"), Some("127.0.0.1:9001")));
    assert!(p.validate().is_ok());
}

#[test]
fn validate_rejects_missing_protocol() {
    let p = Procks::new(opts(None, Some("127.0.0.1:9000"), Some("127.0.0.1:9001")));
    assert_eq!(p.validate(), Err(Error::Missing));
}

#[test]
fn validate_rejects_missing_receive() {
    let p = Procks::new(opts(Some("tcp"), None, Some("127.0.0.1:9001")));
    assert_eq!(p.validate(), Err(Error::Missing));
}

#[test]
fn validate_rejects_missing_send() {
    let p = Procks::new(opts(Some("tcp"), Some("127.0.0.1:9000"), None));
    assert_eq!(p.validate(), Err(Error::Missing));
}

#[test]
fn plan_help_takes_precedence() {
    let mut o = opts(Some("tcp"), Some("a"), Some("b"));
    o.help = true;
    o.version = true;
    assert_eq!(Procks::new(o).plan(), Action::ShowHelp);
}

#[test]
fn plan_version_after_help() {
    let mut o = opts(None, None, None);
    o.version = true;
    assert_eq!(Procks::new(o).plan(), Action::ShowVersion);
}

#[test]
fn plan_rejects_incomplete_options() {
    assert_eq!(Procks::new(opts(None, Some("a"), Some("b"))).plan(), Action::RejectMissing);
    assert_eq!(Procks::new(opts(Some("tcp"), None, Some("b"))).plan(), Action::RejectMissing);
    assert_eq!(Procks::new(opts(Some("tcp"), Some("a"), None)).plan(), Action::RejectMissing);
}

#[test]
fn plan_starts_tcp_case_insensitively() {
    for proto in ["tcp", "TCP", "Tcp", "tcP"] {
        let p = Procks::new(opts(Some(proto), Some("a"), Some("b")));
        assert_eq!(p.plan(), Action::StartTcp);
    }
}

#[test]
fn plan_starts_udp_case_insensitively() {
    for proto in ["udp", "UDP", "Udp", "uDp"] {
        let p = Procks::new(opts(Some(proto), Some("a"), Some("b")));
        assert_eq!(p.plan(), Action::StartUdp);
    }
}

#[test]
fn plan_ignores_unrecognized_protocol() {
    for proto in ["", "http", "tc", "tcpp", "ucp", "ud", "xyz"] {
        let p = Procks::new(opts(Some(proto), Some("a"), Some("b")));
        assert_eq!(p.plan(), Action::Ignore);
    }
}

#[test]
fn protocol_classifiers_match_exactly() {
    assert!(is_tcp("tcp"));
    assert!(is_tcp("TCP"));
    assert!(!is_tcp("udp"));
    assert!(!is_tcp("tc"));
    assert!(!is_tcp("tcpx"));
    assert!(is_udp("udp"));
    assert!(is_udp("uDP"));
    assert!(!is_udp("tcp"));
    assert!(!is_udp("udpp"));
}

#[test]
fn missing_option_message() {
    assert_eq!(Error::Missing.message(), "missing option");
}

#[test]
fn stderr_replacement_keeps_options() {
    let mut p = Procks::new(opts(Some("udp"), Some("a"), Some("b")));
    p.stderr(std::io::stderr());
    assert_eq!(p.options.protocol.as_deref(), Some("udp"));
    assert_eq!(p.plan(), Action::StartUdp);
}

#[test]
fn help_and_version_write_without_error() {
    let mut p = Procks::new(opts(None, None, None));
    assert!(p.help().is_ok());
    assert!(p.version().is_ok());
    assert!(p.report(&Error::Missing).is_ok());
}

#[test]
fn report_message_writes_uniform_line() {
    let mut p = Procks::new(opts(None, None, None));
    assert!(p.report_message("address in use").is_ok());
}
