//! What the launcher is started with, and what it derives from that before
//! it hands control to the server.
use crate::addr::Address;
use crate::decimal::{decimal_string, decimal_text};
use crate::shutdown::ShutdownWaiter;
use crate::timeout::{seconds_span, Timeout};
use vstd::prelude::*;

verus! {

/// The port that is used when none is given.
pub const DEFAULT_PORT: u16 = 2121;

/// The first port offered for passive data connections.
pub const FIRST_PASSIVE_PORT: u16 = 50000;

/// The last port offered for passive data connections.
pub const LAST_PASSIVE_PORT: u16 = 65535;

/// The line a client is greeted with.
pub const GREETING: &'static str = "Leave your files at the door and get the hell out of here.";

/// The report for a working directory that cannot be determined.
pub const NO_WORKING_DIRECTORY: &'static str = "failed to get working directory";

/// The startup options.
#[derive(Debug)]
pub struct Args {
    /// The directory to serve; the working directory when absent.
    pub path: Option<String>,
    /// The time after which the server shuts down; never when absent.
    pub timeout: Option<Timeout>,
    /// The TCP port to listen on.
    pub port: u16,
}

/// Where the directory to serve comes from.
#[derive(Debug, PartialEq, Eq)]
pub enum Root {
    /// The directory named in the options, as it was written.
    Given(String),
    /// The working directory of the process, which the caller has to read.
    WorkingDirectory,
}

impl Args {
    /// The line that announces the server on standard output.
    pub open spec fn announcement_text(&self) -> Seq<char> {
        "Ftp running on port "@ + decimal_text(self.port as int) + "..."@
    }

    /// The directory to serve: the path of the options when there is one,
    /// else the working directory.
    pub fn root(&self) -> (r: Root)
        ensures
            match self.path {
                Some(path) => r matches Root::Given(given) && given@ == path@,
                None => r is WorkingDirectory,
            },
    {
        match &self.path {
            Some(path) => Root::Given(path.clone()),
            None => Root::WorkingDirectory,
        }
    }

    /// The address to listen on: the configured port, open to other machines.
    pub fn address(&self) -> (a: Address)
        ensures
            a.port() == self.port,
            a.external(),
    {
        Address::new(self.port)
    }

    /// The pending shutdown: one that waits for the configured timeout, or
    /// none when no timeout is configured.
    pub fn shutdown_waiter(&self) -> (w: Option<ShutdownWaiter>)
        ensures
            match self.timeout {
                Some(t) => w matches Some(waiter) && waiter.span() == seconds_span(
                    t.clock_seconds(),
                ),
                None => w is None,
            },
    {
        match self.timeout {
            Some(t) => Some(ShutdownWaiter::after(t)),
            None => None,
        }
    }

    /// Writes the line that announces the server.
    pub fn announcement(&self) -> (r: String)
        ensures
            r@ == self.announcement_text(),
    {
        "Ftp running on port ".to_owned().concat(decimal_string(self.port as i64).as_str()).concat(
            "...",
        )
    }
}

} // verus!
