//! The relay configuration: protocol selector, receive and send endpoints,
//! and the datagram buffer size, together with its validation.

use vstd::prelude::*;
use vstd::string::StrSliceExecFns;

verus! {

/// An error of the relay itself.
#[derive(Clone, Copy, Debug, PartialEq, Eq, Structural)]
pub enum Error {
    /// The protocol, receive or send option is absent.
    Missing,
    /// Writing to the error stream failed.
    Io,
}

impl Error {
    /// The message that is reported for this error.
    pub fn message(&self) -> (m: &'static str)
        ensures
            m@ == message_text(*self),
    {
        match self {
            Error::Missing => "missing option",
            Error::Io => "write failed",
        }
    }
}

/// The relay configuration as the command line supplies it. The three
/// `Option` fields are `None` where the flag was absent.
pub struct Options {
    /// The size of the internal datagram buffer (in bytes).
    pub buffer: usize,
    /// The protocol to use (TCP or UDP), case-insensitive.
    pub protocol: Option<String>,
    /// Where traffic will be received.
    pub receive: Option<String>,
    /// Where traffic will be sent.
    pub send: Option<String>,
    /// Whether the help message was requested.
    pub help: bool,
    /// Whether the version message was requested.
    pub version: bool,
}

impl Options {
    /// All three required options are present.
    pub open spec fn complete(self) -> bool {
        &&& self.protocol is Some
        &&& self.receive is Some
        &&& self.send is Some
    }

    /// The configured protocol selects the stream relay.
    pub open spec fn wants_tcp(self) -> bool {
        self.protocol is Some && spec_is_tcp(self.protocol.unwrap()@)
    }

    /// The configured protocol selects the datagram relay.
    pub open spec fn wants_udp(self) -> bool {
        self.protocol is Some && spec_is_udp(self.protocol.unwrap()@)
    }
}

/// The message that belongs to each error.
pub open spec fn message_text(e: Error) -> Seq<char> {
    match e {
        Error::Missing => "missing option"@,
        Error::Io => "write failed"@,
    }
}

/// The characters spell "tcp", letter case disregarded.
pub open spec fn spec_is_tcp(s: Seq<char>) -> bool {
    &&& s.len() == 3
    &&& (s[0] == 't' || s[0] == 'T')
    &&& (s[1] == 'c' || s[1] == 'C')
    &&& (s[2] == 'p' || s[2] == 'P')
}

/// The characters spell "udp", letter case disregarded.
pub open spec fn spec_is_udp(s: Seq<char>) -> bool {
    &&& s.len() == 3
    &&& (s[0] == 'u' || s[0] == 'U')
    &&& (s[1] == 'd' || s[1] == 'D')
    &&& (s[2] == 'p' || s[2] == 'P')
}

/// Does the protocol string select the stream relay?
pub fn is_tcp(s: &str) -> (r: bool)
    ensures
        r == spec_is_tcp(s@),
{
    if s.unicode_len() != 3 {
        return false;
    }
    let c0 = s.get_char(0);
    let c1 = s.get_char(1);
    let c2 = s.get_char(2);
    (c0 == 't' || c0 == 'T') && (c1 == 'c' || c1 == 'C') && (c2 == 'p' || c2 == 'P')
}

/// Does the protocol string select the datagram relay?
pub fn is_udp(s: &str) -> (r: bool)
    ensures
        r == spec_is_udp(s@),
{
    if s.unicode_len() != 3 {
        return false;
    }
    let c0 = s.get_char(0);
    let c1 = s.get_char(1);
    let c2 = s.get_char(2);
    (c0 == 'u' || c0 == 'U') && (c1 == 'd' || c1 == 'D') && (c2 == 'p' || c2 == 'P')
}

} // verus!
