//! An echo server to put behind the proxy: every connection gets back what it
//! sends.

pub mod config;

use vstd::prelude::*;
use vstd::string::StringExecFns;

use crate::peer::PeerAddr;

pub use config::Config;

verus! {

/// What can go wrong in the echo server, with the text of the error that
/// caused it.
#[derive(Debug, PartialEq, Eq)]
pub enum EchoServerError {
    IoError(String),
    InvalidAddress(String),
}

impl EchoServerError {
    /// The message of this error.
    pub open spec fn text(self) -> Seq<char> {
        match self {
            EchoServerError::IoError(detail) => "IO error: "@ + detail@,
            EchoServerError::InvalidAddress(detail) => "Invalid address: "@ + detail@,
        }
    }

    /// The message of this error: what kind it is, then the cause.
    pub fn message(&self) -> (text: String)
        ensures
            text@ == self.text(),
    {
        match self {
            EchoServerError::IoError(detail) => String::from_str("IO error: ").concat(detail),
            EchoServerError::InvalidAddress(detail) => String::from_str("Invalid address: ").concat(
                detail,
            ),
        }
    }
}

/// What the accept loop does next.
#[derive(Debug, PartialEq, Eq)]
pub enum EchoAction {
    /// Nothing happened: keep waiting.
    Wait,
    /// A client is here: echo to it in a task of its own.
    Serve,
    /// Leave the loop with this result, whatever the echo tasks are doing.
    Stop(Result<(), EchoServerError>),
    /// Wait for the echo tasks to end, then leave the loop without error.
    DrainAndStop,
}

/// What an echo task does with a read.
#[derive(Debug, Clone, Copy, PartialEq, Eq, Structural)]
pub enum EchoStep {
    /// Write the first `len` bytes of the buffer back, then read again.
    Reply { len: usize },
    /// The stream has ended: leave.
    Close,
}

/// The model of an `EchoServer`.
pub struct EchoServerModel {
    pub local_addr: PeerAddr,
    pub shutdown: bool,
}

impl EchoServerModel {
    /// One turn of the accept loop, given what the listener returned, if it
    /// returned: a connection, or the text of its error.
    pub open spec fn step(self, accepted: Option<Result<(), String>>) -> EchoAction {
        match accepted {
            None => if self.shutdown {
                EchoAction::DrainAndStop
            } else {
                EchoAction::Wait
            },
            Some(result) => if self.shutdown {
                EchoAction::Stop(Ok(()))
            } else {
                match result {
                    Ok(_) => EchoAction::Serve,
                    Err(detail) => EchoAction::Stop(Err(EchoServerError::IoError(detail))),
                }
            },
        }
    }
}

/// The accept loop of the echo server and its shutdown switch.
#[derive(Debug)]
pub struct EchoServer {
    local_addr: PeerAddr,
    shutdown: bool,
}

impl View for EchoServer {
    type V = EchoServerModel;

    closed spec fn view(&self) -> EchoServerModel {
        EchoServerModel { local_addr: self.local_addr, shutdown: self.shutdown }
    }
}

impl EchoServer {
    /// The server whose listener is open at `local_addr`, with that address.
    pub fn bind(local_addr: PeerAddr) -> (bound: (EchoServer, PeerAddr))
        ensures
            bound.0@ == (EchoServerModel { local_addr, shutdown: false }),
            bound.1 == local_addr,
    {
        (EchoServer { local_addr, shutdown: false }, local_addr)
    }

    /// One turn of the accept loop. A client that arrives after the shutdown
    /// ends the loop at once; the shutdown alone ends it after the echo tasks
    /// have ended; an error of the listener ends it with that error.
    pub fn run(&self, accepted: Option<Result<(), String>>) -> (action: EchoAction)
        ensures
            action == self@.step(accepted),
    {
        match accepted {
            None => if self.shutdown {
                EchoAction::DrainAndStop
            } else {
                EchoAction::Wait
            },
            Some(result) => if self.shutdown {
                EchoAction::Stop(Ok(()))
            } else {
                match result {
                    Ok(_) => EchoAction::Serve,
                    Err(detail) => EchoAction::Stop(Err(EchoServerError::IoError(detail))),
                }
            },
        }
    }

    /// Asks the accept loop to end. There is no way back.
    pub fn shutdown(&mut self)
        ensures
            final(self)@ == (EchoServerModel { shutdown: true, ..old(self)@ }),
    {
        self.shutdown = true;
    }

    /// Where the server listens.
    pub fn get_addr(&self) -> (addr: PeerAddr)
        ensures
            addr == self@.local_addr,
    {
        self.local_addr
    }
}

/// What an echo task does after a read of `read` bytes: the end of the stream
/// ends the task, anything else goes back as it came.
pub fn echo(read: usize) -> (step: EchoStep)
    ensures
        step == if read == 0 {
            EchoStep::Close
        } else {
            EchoStep::Reply { len: read }
        },
{
    if read == 0 {
        EchoStep::Close
    } else {
        EchoStep::Reply { len: read }
    }
}

} // verus!
