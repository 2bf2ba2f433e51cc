//! The address on which the server listens.
use crate::decimal::{decimal_string, decimal_text};
use vstd::prelude::*;

verus! {

/// A TCP port together with its reach: every interface of the machine, or
/// the loopback interface only.
#[derive(Debug, Clone, Copy)]
pub struct Address {
    port: u16,
    external: bool,
}

impl Address {
    /// The TCP port.
    pub closed spec fn port(self) -> u16 {
        self.port
    }

    /// Whether the address is reachable from other machines.
    pub closed spec fn external(self) -> bool {
        self.external
    }

    /// The socket address in text: the wildcard host for an external
    /// address, the loopback host otherwise, then a colon and the port.
    pub open spec fn text(self) -> Seq<char> {
        if self.external() {
            "0.0.0.0:"@ + decimal_text(self.port() as int)
        } else {
            "127.0.0.1:"@ + decimal_text(self.port() as int)
        }
    }

    /// An address on `port` that other machines can reach.
    pub fn new(port: u16) -> (a: Self)
        ensures
            a.port() == port,
            a.external(),
    {
        Self { port, external: true }
    }

    /// An address on `port` that only this machine can reach.
    pub fn local(port: u16) -> (a: Self)
        ensures
            a.port() == port,
            !a.external(),
    {
        Self { port, external: false }
    }

    /// Writes the socket address.
    pub fn render(&self) -> (r: String)
        ensures
            r@ == self.text(),
    {
        if self.external {
            "0.0.0.0:".to_owned().concat(decimal_string(self.port as i64).as_str())
        } else {
            "127.0.0.1:".to_owned().concat(decimal_string(self.port as i64).as_str())
        }
    }
}

impl From<Address> for String {
    fn from(value: Address) -> (r: String)
        ensures
            r@ == value.text(),
    {
        value.render()
    }
}

/// The conversion is specified on `from` itself: specifications have no way
/// to build a `String`, so there is no term to equate the result with.
impl vstd::std_specs::convert::FromSpecImpl<Address> for String {
    open spec fn obeys_from_spec() -> bool {
        false
    }

    open spec fn from_spec(value: Address) -> String {
        arbitrary()
    }
}

} // verus!
