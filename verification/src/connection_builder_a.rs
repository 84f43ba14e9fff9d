//! Mutable builder model: each setter consumes the builder, updates one
//! field, and returns it, so calls chain. `build` fails exactly when no
//! port was supplied.

use vstd::prelude::*;

verus! {

/// The transport protocol a built connection uses.
#[derive(Clone, Copy, Debug, PartialEq, Eq, Structural)]
pub enum Protocol {
    Tcp,
    Udp,
}

/// A fully built connection configuration.
#[derive(Debug)]
pub struct Connection {
    pub address: String,
    pub port: u16,
    pub protocol: Protocol,
    pub encryption: bool,
}

/// Accumulates connection fields; the port is the one required field.
#[derive(Debug)]
pub struct ConnectionBuilder {
    pub address: String,
    pub port: Option<u16>,
    pub protocol: Protocol,
    pub encryption: bool,
}

impl Default for ConnectionBuilder {
    /// The starting point of every chain: loopback address, UDP, no
    /// encryption, and no port yet.
    fn default() -> (r: Self)
        ensures
            r.address@ == "127.0.0.1"@,
            r.port is None,
            r.protocol == Protocol::Udp,
            !r.encryption,
    {
        Self {
            address: String::from_str("127.0.0.1"),
            port: None,
            protocol: Protocol::Udp,
            encryption: false,
        }
    }
}

impl ConnectionBuilder {
    /// Replaces the address, keeping every other field.
    pub fn address(self, address: String) -> (r: Self)
        ensures
            r.address@ == address@,
            r.port == self.port,
            r.protocol == self.protocol,
            r.encryption == self.encryption,
    {
        Self { address, ..self }
    }

    /// Replaces the protocol, keeping every other field.
    pub fn protocol(self, protocol: Protocol) -> (r: Self)
        ensures
            r.address@ == self.address@,
            r.port == self.port,
            r.protocol == protocol,
            r.encryption == self.encryption,
    {
        Self { protocol, ..self }
    }

    /// Supplies the port, keeping every other field.
    pub fn port(self, port: u16) -> (r: Self)
        ensures
            r.address@ == self.address@,
            r.port == Some(port),
            r.protocol == self.protocol,
            r.encryption == self.encryption,
    {
        Self { port: Some(port), ..self }
    }

    /// Switches encryption on or off, keeping every other field.
    pub fn encryption(self, enabled: bool) -> (r: Self)
        ensures
            r.address@ == self.address@,
            r.port == self.port,
            r.protocol == self.protocol,
            r.encryption == enabled,
    {
        Self { encryption: enabled, ..self }
    }

    /// Finishes the chain: succeeds if and only if a port was supplied,
    /// carrying every accumulated field over; fails with the one
    /// construction error otherwise.
    pub fn build(self) -> (r: Result<Connection, &'static str>)
        ensures
            self.port is Some <==> r is Ok,
            r matches Ok(c) ==> {
                &&& c.address@ == self.address@
                &&& Some(c.port) == self.port
                &&& c.protocol == self.protocol
                &&& c.encryption == self.encryption
            },
            r matches Err(e) ==> e@ == "port is required"@,
    {
        match self.port {
            Some(port) => Ok(
                Connection {
                    address: self.address,
                    port,
                    protocol: self.protocol,
                    encryption: self.encryption,
                },
            ),
            None => Err("port is required"),
        }
    }
}

} // verus!
