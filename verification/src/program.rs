//! The program surface: the relay configuration paired with the stream that
//! receives its messages, validation of the configuration, and the dispatch
//! that chooses which relay to run.

use vstd::prelude::*;
use crate::options::Error;
use crate::options::message_text;
use crate::options::Options;
use crate::options::is_tcp;
use crate::options::is_udp;
use vstd::string::StringExecFns;
use std::io::Write;

verus! {

/// The standard error stream, declared so that an `ErrorStream` can hold one.
#[verifier::external_type_specification]
#[verifier::external_body]
pub struct ExStderr(std::io::Stderr);

/// The stream the program reports on, together with the record of every
/// character the program has handed to it since it was attached.
pub struct ErrorStream {
    /// The underlying standard error stream.
    pub handle: std::io::Stderr,
    /// Everything handed to the stream, in order. All of the library's
    /// writing goes through `write_text`, which extends this record.
    pub written: Ghost<Seq<char>>,
}

/// Relies on std::io::stderr: a handle to the process's standard error stream.
#[verifier::external_body]
fn fresh_stderr() -> std::io::Stderr {
    std::io::stderr()
}

/// Relies on std::io::Write::write_fmt (through `write!`): on success the
/// whole text was handed to the stream, and the record grows by exactly that
/// text; on failure nothing is promised (the write may have been partial).
#[verifier::external_body]
fn write_text(out: &mut ErrorStream, text: &str) -> (r: Result<(), ()>)
    ensures
        r is Ok ==> final(out).written@ == old(out).written@ + text@,
{
    match write!(out.handle, "{}", text) {
        Ok(()) => Ok(()),
        Err(_) => Err(()),
    }
}

/// The usage text that `Procks::help` writes.
pub open spec fn usage_text() -> Seq<char> {
    "A simple proxy server.\n\nUsage: procks [OPTIONS]\n\nOptions:\n  -b, --buffer <BUFFER>      The size of the internal buffer (in bytes) [default: 4096]\n  -p, --protocol <PROTOCOL>  The protocol to use (TCP or UDP)\n  -r, --receive <RECEIVE>    Where traffic will be received\n  -s, --send <SEND>          Where traffic will be sent\n  -h, --help                 Show this message\n  -v, --version              Show the version\n"@
}

/// The version text that `Procks::version` writes.
pub open spec fn version_text() -> Seq<char> {
    "procks 0.1.0\n"@
}

/// The one uniform error line: `Error: <message>`, newline-terminated.
pub open spec fn error_line(message: Seq<char>) -> Seq<char> {
    "Error: "@ + message + "\n"@
}

/// What the program does next, given its configuration: exactly one of
/// these, chosen by `Procks::plan`.
#[derive(Clone, Copy, Debug, PartialEq, Eq, Structural)]
pub enum Action {
    /// Write the help message and stop.
    ShowHelp,
    /// Write the version message and stop.
    ShowVersion,
    /// Report the missing option and stop without binding a socket.
    RejectMissing,
    /// Run the stream relay between the two endpoints.
    StartTcp,
    /// Run the datagram relay between the two endpoints.
    StartUdp,
    /// The protocol is not recognized: stop successfully, running nothing.
    Ignore,
}

/// The relay program: its configuration and its error stream.
pub struct Procks {
    /// The configuration the command line supplied.
    pub options: Options,
    /// The stream that receives help, version and error messages.
    pub stderr: ErrorStream,
}

impl Procks {
    /// The action that the configuration calls for: help and version take
    /// precedence, an incomplete configuration is rejected before any socket
    /// is bound, and only a recognized protocol starts a relay.
    pub open spec fn planned_action(self) -> Action {
        if self.options.help {
            Action::ShowHelp
        } else if self.options.version {
            Action::ShowVersion
        } else if !self.options.complete() {
            Action::RejectMissing
        } else if self.options.wants_tcp() {
            Action::StartTcp
        } else if self.options.wants_udp() {
            Action::StartUdp
        } else {
            Action::Ignore
        }
    }

    /// Constructs the program around a configuration, reporting to the
    /// process's standard error stream.
    pub fn new(options: Options) -> (p: Procks)
        ensures
            p.options == options,
            p.stderr.written@ == Seq::<char>::empty(),
    {
        Procks {
            options,
            stderr: ErrorStream { handle: fresh_stderr(), written: Ghost(Seq::empty()) },
        }
    }

    /// Replaces the standard error stream for this program. The record of
    /// what was handed to the replaced stream starts over.
    pub fn stderr(&mut self, stderr: std::io::Stderr) -> (r: &mut Procks)
        ensures
            old(self).options == (*r).options,
            (*r).stderr.handle == stderr,
            (*r).stderr.written@ == Seq::<char>::empty(),
            *final(self) == *final(r),
    {
        self.stderr = ErrorStream { handle: stderr, written: Ghost(Seq::empty()) };
        self
    }

    /// Validates the options: the protocol, receive and send options must
    /// all be present before any relay may start.
    pub fn validate(&self) -> (r: Result<(), Error>)
        ensures
            r is Ok <==> self.options.complete(),
            r is Err ==> r == Err::<(), Error>(Error::Missing),
    {
        if self.options.protocol.is_none() || self.options.receive.is_none()
            || self.options.send.is_none() {
            Err(Error::Missing)
        } else {
            Ok(())
        }
    }

    /// Decides what the program does, without doing any of it: the
    /// dispatcher's whole decision, pinned to the configuration.
    pub fn plan(&self) -> (a: Action)
        ensures
            a == self.planned_action(),
    {
        if self.options.help {
            return Action::ShowHelp;
        }
        if self.options.version {
            return Action::ShowVersion;
        }
        match &self.options.protocol {
            None => Action::RejectMissing,
            Some(p) => {
                if self.options.receive.is_none() || self.options.send.is_none() {
                    Action::RejectMissing
                } else if is_tcp(p.as_str()) {
                    Action::StartTcp
                } else if is_udp(p.as_str()) {
                    Action::StartUdp
                } else {
                    Action::Ignore
                }
            },
        }
    }

    /// Writes the help message to the standard error stream.
    pub fn help(&mut self) -> (r: Result<(), Error>)
        ensures
            final(self).options == old(self).options,
            r is Ok ==> final(self).stderr.written@ == old(self).stderr.written@
                + usage_text(),
            r is Err ==> r == Err::<(), Error>(Error::Io),
    {
        let text = "A simple proxy server.\n\nUsage: procks [OPTIONS]\n\nOptions:\n  -b, --buffer <BUFFER>      The size of the internal buffer (in bytes) [default: 4096]\n  -p, --protocol <PROTOCOL>  The protocol to use (TCP or UDP)\n  -r, --receive <RECEIVE>    Where traffic will be received\n  -s, --send <SEND>          Where traffic will be sent\n  -h, --help                 Show this message\n  -v, --version              Show the version\n";
        match write_text(&mut self.stderr, text) {
            Ok(()) => Ok(()),
            Err(()) => Err(Error::Io),
        }
    }

    /// Writes the version message to the standard error stream.
    pub fn version(&mut self) -> (r: Result<(), Error>)
        ensures
            final(self).options == old(self).options,
            r is Ok ==> final(self).stderr.written@ == old(self).stderr.written@
                + version_text(),
            r is Err ==> r == Err::<(), Error>(Error::Io),
    {
        match write_text(&mut self.stderr, "procks 0.1.0\n") {
            Ok(()) => Ok(()),
            Err(()) => Err(Error::Io),
        }
    }

    /// Reports a failure on the standard error stream, as the one uniform
    /// line `Error: <message>`. Every failure the program surfaces, its own
    /// or a relay's, goes through this form.
    pub fn report_message(&mut self, message: &str) -> (r: Result<(), Error>)
        ensures
            final(self).options == old(self).options,
            r is Ok ==> final(self).stderr.written@ == old(self).stderr.written@
                + error_line(message@),
            r is Err ==> r == Err::<(), Error>(Error::Io),
    {
        let mut line = String::new();
        line.append("Error: ");
        line.append(message);
        line.append("\n");
        proof {
            assert(line@ =~= error_line(message@));
        }
        match write_text(&mut self.stderr, line.as_str()) {
            Ok(()) => Ok(()),
            Err(()) => Err(Error::Io),
        }
    }

    /// Reports one of the library's own errors, in the same uniform form.
    pub fn report(&mut self, err: &Error) -> (r: Result<(), Error>)
        ensures
            final(self).options == old(self).options,
            r is Ok ==> final(self).stderr.written@ == old(self).stderr.written@
                + error_line(message_text(*err)),
            r is Err ==> r == Err::<(), Error>(Error::Io),
    {
        let message = err.message();
        self.report_message(message)
    }
}

} // verus!
