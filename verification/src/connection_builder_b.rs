//! Immutable builder model: each setter borrows the builder, leaves it
//! untouched, and returns a fresh copy with one field replaced, so a
//! partially configured builder can be shared and layered.

use vstd::prelude::*;
use crate::text::{dec_rep, push_u16};

verus! {

/// The transport protocol a built connection uses.
#[derive(Clone, Copy, Debug, PartialEq, Eq, Structural)]
pub enum Protocol {
    Tcp,
    Udp,
}

/// A fully built connection configuration.
#[derive(Clone, Debug)]
pub struct Connection {
    pub address: String,
    pub port: u16,
    pub protocol: Protocol,
    pub encryption: bool,
}

/// Accumulates connection fields without ever mutating; the port is the
/// one required field.
#[derive(Clone, Debug)]
pub struct ConnectionBuilder {
    pub address: String,
    pub port: Option<u16>,
    pub protocol: Protocol,
    pub encryption: bool,
}

impl Default for ConnectionBuilder {
    /// The starting point of every chain: loopback address, UDP, no
    /// encryption, and no port yet.
    fn default() -> (r: Self)
        ensures
            r.address@ == "127.0.0.1"@,
            r.port is None,
            r.protocol == Protocol::Udp,
            !r.encryption,
    {
        Self {
            address: String::from_str("127.0.0.1"),
            port: None,
            protocol: Protocol::Udp,
            encryption: false,
        }
    }
}

impl ConnectionBuilder {
    /// A copy of this builder with the address replaced.
    pub fn address(&self, address: String) -> (r: Self)
        ensures
            r.address@ == address@,
            r.port == self.port,
            r.protocol == self.protocol,
            r.encryption == self.encryption,
    {
        Self {
            address,
            port: self.port,
            protocol: self.protocol,
            encryption: self.encryption,
        }
    }

    /// A copy of this builder with the protocol replaced.
    pub fn protocol(&self, protocol: Protocol) -> (r: Self)
        ensures
            r.address@ == self.address@,
            r.port == self.port,
            r.protocol == protocol,
            r.encryption == self.encryption,
    {
        Self {
            address: self.address.clone(),
            port: self.port,
            protocol,
            encryption: self.encryption,
        }
    }

    /// A copy of this builder with the port supplied.
    pub fn port(&self, port: u16) -> (r: Self)
        ensures
            r.address@ == self.address@,
            r.port == Some(port),
            r.protocol == self.protocol,
            r.encryption == self.encryption,
    {
        Self {
            address: self.address.clone(),
            port: Some(port),
            protocol: self.protocol,
            encryption: self.encryption,
        }
    }

    /// A copy of this builder with encryption switched on or off.
    pub fn encryption(&self, encryption: bool) -> (r: Self)
        ensures
            r.address@ == self.address@,
            r.port == self.port,
            r.protocol == self.protocol,
            r.encryption == encryption,
    {
        Self {
            address: self.address.clone(),
            port: self.port,
            protocol: self.protocol,
            encryption,
        }
    }

    /// Builds the final connection without consuming the builder:
    /// succeeds if and only if a port was supplied, carrying every
    /// accumulated field over; fails with the one construction error
    /// otherwise.
    pub fn build(&self) -> (r: Result<Connection, &'static str>)
        ensures
            self.port is Some <==> r is Ok,
            r matches Ok(c) ==> {
                &&& c.address@ == self.address@
                &&& Some(c.port) == self.port
                &&& c.protocol == self.protocol
                &&& c.encryption == self.encryption
            },
            r matches Err(e) ==> e@ == "port is required"@,
    {
        match self.port {
            Some(port) => Ok(
                Connection {
                    address: self.address.clone(),
                    port,
                    protocol: self.protocol,
                    encryption: self.encryption,
                },
            ),
            None => Err("port is required"),
        }
    }
}

/// Summarizes a built connection as `address:port`.
pub fn use_connection(c: &Connection) -> (r: String)
    ensures
        r@ == c.address@ + ":"@ + dec_rep(c.port as int),
{
    let mut s = c.address.clone();
    s.append(":");
    push_u16(&mut s, c.port);
    proof {
        assert(s@ =~= c.address@ + ":"@ + dec_rep(c.port as int));
    }
    s
}

} // verus!
