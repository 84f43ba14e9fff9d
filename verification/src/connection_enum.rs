//! Closed tagged-union model: one enum whose variants carry the
//! kind-specific fields directly, with exhaustive matching for every
//! operation.

use vstd::prelude::*;
use crate::text::{bool_rep, dec_rep, push_bool, push_u16};

verus! {

/// A connection configuration, one variant per kind.
#[derive(Debug)]
pub enum Connection {
    /// TCP connection with address, port, and encryption toggle.
    Tcp { address: String, port: u16, encryption: bool },
    /// UDP connection with address and port (no encryption concept).
    Udp { address: String, port: u16 },
    /// Localhost / in-process connection: no address or encryption.
    LocalHost { port: u16 },
}

impl Connection {
    /// The exact text `describe` returns.
    pub open spec fn describe_rep(&self) -> Seq<char> {
        match self {
            Connection::Tcp { address, port, encryption } => "tcp://"@ + address@ + ":"@
                + dec_rep(*port as int) + " (encrypted: "@ + bool_rep(*encryption) + ")"@,
            Connection::Udp { address, port } => "udp://"@ + address@ + ":"@
                + dec_rep(*port as int),
            Connection::LocalHost { port } => "local://"@ + dec_rep(*port as int),
        }
    }

    /// The exact text `connect` returns.
    pub open spec fn connect_rep(&self) -> Seq<char> {
        match self {
            Connection::Tcp { address, port, encryption } => "Connecting via TCP to "@ + address@
                + ":"@ + dec_rep(*port as int) + " (encryption: "@ + bool_rep(*encryption) + ")"@,
            Connection::Udp { address, port } => "Connecting via UDP to "@ + address@ + ":"@
                + dec_rep(*port as int),
            Connection::LocalHost { port } => "Connecting to local service on port "@
                + dec_rep(*port as int),
        }
    }

    /// Simulates establishing the connection: returns the log line a
    /// real transport would emit. Never fails.
    pub fn connect(&self) -> (r: String)
        ensures
            r@ == self.connect_rep(),
    {
        match self {
            Connection::Tcp { address, port, encryption } => {
                let mut s = String::from_str("Connecting via TCP to ");
                s.append(address.as_str());
                s.append(":");
                push_u16(&mut s, *port);
                s.append(" (encryption: ");
                push_bool(&mut s, *encryption);
                s.append(")");
                proof {
                    assert(s@ =~= self.connect_rep());
                }
                s
            },
            Connection::Udp { address, port } => {
                let mut s = String::from_str("Connecting via UDP to ");
                s.append(address.as_str());
                s.append(":");
                push_u16(&mut s, *port);
                proof {
                    assert(s@ =~= self.connect_rep());
                }
                s
            },
            Connection::LocalHost { port } => {
                let mut s = String::from_str("Connecting to local service on port ");
                push_u16(&mut s, *port);
                proof {
                    assert(s@ =~= self.connect_rep());
                }
                s
            },
        }
    }

    /// Renders the connection's identity as a URI-like string.
    pub fn describe(&self) -> (r: String)
        ensures
            r@ == self.describe_rep(),
    {
        match self {
            Connection::Tcp { address, port, encryption } => {
                let mut s = String::from_str("tcp://");
                s.append(address.as_str());
                s.append(":");
                push_u16(&mut s, *port);
                s.append(" (encrypted: ");
                push_bool(&mut s, *encryption);
                s.append(")");
                proof {
                    assert(s@ =~= self.describe_rep());
                }
                s
            },
            Connection::Udp { address, port } => {
                let mut s = String::from_str("udp://");
                s.append(address.as_str());
                s.append(":");
                push_u16(&mut s, *port);
                proof {
                    assert(s@ =~= self.describe_rep());
                }
                s
            },
            Connection::LocalHost { port } => {
                let mut s = String::from_str("local://");
                push_u16(&mut s, *port);
                proof {
                    assert(s@ =~= self.describe_rep());
                }
                s
            },
        }
    }
}

/// Exercises a connection: describes it, connects it, and matches on
/// the variant for kind-specific handling. Returns the description and
/// the connect log line, in that order.
pub fn use_connection(conn: &Connection) -> (lines: Vec<String>)
    ensures
        lines@.len() == 2,
        lines@[0]@ == conn.describe_rep(),
        lines@[1]@ == conn.connect_rep(),
{
    let mut lines: Vec<String> = Vec::new();
    lines.push(conn.describe());
    lines.push(conn.connect());
    match conn {
        Connection::Tcp { .. } => {},
        Connection::Udp { .. } => {},
        Connection::LocalHost { .. } => {},
    }
    lines
}

} // verus!
