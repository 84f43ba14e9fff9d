//! Trait-based polymorphic model: every connection type implements
//! [`Connectable`], and callers can dispatch either statically (through a
//! generic bound) or dynamically (through a trait object).

use vstd::prelude::*;
use crate::text::{bool_rep, dec_rep, push_bool, push_u16};

verus! {

/// The behavior every connection type must offer: a textual description
/// of its identity, and a simulated connect action that reports the log
/// line a real transport would emit.
///
/// The two spec functions pin each implementation's output exactly, so
/// that callers reason about trait-object dispatch without knowing the
/// concrete type.
pub trait Connectable {
    /// The exact text `describe` returns.
    spec fn describe_rep(&self) -> Seq<char>;

    /// The exact text `connect` returns.
    spec fn connect_rep(&self) -> Seq<char>;

    /// Renders the connection's identity.
    fn describe(&self) -> (r: String)
        ensures
            r@ == self.describe_rep(),
    ;

    /// Simulates establishing the connection, returning the log line.
    fn connect(&self) -> (r: String)
        ensures
            r@ == self.connect_rep(),
    ;
}

#[derive(Debug)]
pub struct TcpConnection {
    pub address: String,
    pub port: u16,
    pub encryption: bool,
}

impl Connectable for TcpConnection {
    open spec fn describe_rep(&self) -> Seq<char> {
        "tcp://"@ + self.address@ + ":"@ + dec_rep(self.port as int) + " (encryption: "@
            + bool_rep(self.encryption) + ")"@
    }

    open spec fn connect_rep(&self) -> Seq<char> {
        "[TCP] Connecting to "@ + self.address@ + ":"@ + dec_rep(self.port as int)
            + " (encryption: "@ + bool_rep(self.encryption) + ")"@
    }

    fn describe(&self) -> (r: String) {
        let mut s = String::from_str("tcp://");
        s.append(self.address.as_str());
        s.append(":");
        push_u16(&mut s, self.port);
        s.append(" (encryption: ");
        push_bool(&mut s, self.encryption);
        s.append(")");
        proof {
            assert(s@ =~= self.describe_rep());
        }
        s
    }

    fn connect(&self) -> (r: String) {
        let mut s = String::from_str("[TCP] Connecting to ");
        s.append(self.address.as_str());
        s.append(":");
        push_u16(&mut s, self.port);
        s.append(" (encryption: ");
        push_bool(&mut s, self.encryption);
        s.append(")");
        proof {
            assert(s@ =~= self.connect_rep());
        }
        s
    }
}

#[derive(Debug)]
pub struct UdpConnection {
    pub address: String,
    pub port: u16,
}

impl Connectable for UdpConnection {
    open spec fn describe_rep(&self) -> Seq<char> {
        "udp://"@ + self.address@ + ":"@ + dec_rep(self.port as int)
    }

    open spec fn connect_rep(&self) -> Seq<char> {
        "[UDP] Connecting to "@ + self.address@ + ":"@ + dec_rep(self.port as int)
    }

    fn describe(&self) -> (r: String) {
        let mut s = String::from_str("udp://");
        s.append(self.address.as_str());
        s.append(":");
        push_u16(&mut s, self.port);
        proof {
            assert(s@ =~= self.describe_rep());
        }
        s
    }

    fn connect(&self) -> (r: String) {
        let mut s = String::from_str("[UDP] Connecting to ");
        s.append(self.address.as_str());
        s.append(":");
        push_u16(&mut s, self.port);
        proof {
            assert(s@ =~= self.connect_rep());
        }
        s
    }
}

#[derive(Debug)]
pub struct LocalHostConnection {
    pub port: u16,
}

impl Connectable for LocalHostConnection {
    open spec fn describe_rep(&self) -> Seq<char> {
        "local://"@ + dec_rep(self.port as int)
    }

    open spec fn connect_rep(&self) -> Seq<char> {
        "[Local] Connecting to local port "@ + dec_rep(self.port as int)
    }

    fn describe(&self) -> (r: String) {
        let mut s = String::from_str("local://");
        push_u16(&mut s, self.port);
        proof {
            assert(s@ =~= self.describe_rep());
        }
        s
    }

    fn connect(&self) -> (r: String) {
        let mut s = String::from_str("[Local] Connecting to local port ");
        push_u16(&mut s, self.port);
        proof {
            assert(s@ =~= self.connect_rep());
        }
        s
    }
}

/// Static dispatch: the compiler specializes this for each connection
/// type. Returns the description and the connect log line, in that
/// order.
pub fn use_connection_generic<T: Connectable>(conn: &T) -> (lines: Vec<String>)
    ensures
        lines@.len() == 2,
        lines@[0]@ == conn.describe_rep(),
        lines@[1]@ == conn.connect_rep(),
{
    let mut lines: Vec<String> = Vec::new();
    lines.push(conn.describe());
    lines.push(conn.connect());
    lines
}

/// Dynamic dispatch: a single runtime entry point for `Connectable`
/// trait objects. Returns the description and the connect log line, in
/// that order.
pub fn use_connection_dyn(conn: &dyn Connectable) -> (lines: Vec<String>)
    ensures
        lines@.len() == 2,
        lines@[0]@ == conn.describe_rep(),
        lines@[1]@ == conn.connect_rep(),
{
    let mut lines: Vec<String> = Vec::new();
    lines.push(conn.describe());
    lines.push(conn.connect());
    lines
}

} // verus!
