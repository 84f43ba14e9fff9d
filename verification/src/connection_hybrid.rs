//! Hybrid model: a closed set of connection kinds, each variant holding
//! a pluggable behavior object.
//!
//! The enum gives a closed set of tags that exhaustive matching can
//! cover, while the behavior object inside each variant carries the
//! `describe` / `connect` operations through the [`Connectable`] trait.
//! The tag is metadata for kind-specific routing; the behavior object is
//! the single source of truth for what the operations return. The two
//! dispatch styles are proved to agree: see
//! [`lemma_dispatch_equivalence`].

use vstd::prelude::*;
use crate::text::{bool_rep, dec_rep, push_bool, push_u16};

verus! {

/// The closed set of connection kinds.
#[derive(Clone, Copy, Debug, PartialEq, Eq, Structural)]
pub enum ConnectionKind {
    Tcp,
    Udp,
    Local,
}

/// Behavior shared across all connection types: anything that can
/// `describe()` itself and `connect()` can implement this trait.
///
/// `kind_rep` names the kind a behavior object logically belongs to, so
/// that a record can state the invariant that its tag matches its
/// behavior; the two rendering spec functions pin the exact output of
/// the executable methods.
pub trait Connectable {
    /// The kind this behavior logically implements.
    spec fn kind_rep(&self) -> ConnectionKind;

    /// The exact text `describe` returns.
    spec fn describe_rep(&self) -> Seq<char>;

    /// The exact text `connect` returns.
    spec fn connect_rep(&self) -> Seq<char>;

    /// Renders the connection's identity.
    fn describe(&self) -> (r: String)
        ensures
            r@ == self.describe_rep(),
    ;

    /// Simulates establishing the connection, returning the log line.
    fn connect(&self) -> (r: String)
        ensures
            r@ == self.connect_rep(),
    ;
}

/// The exact description of a TCP connection.
pub open spec fn tcp_describe_rep(address: Seq<char>, port: int, encryption: bool) -> Seq<char> {
    "tcp://"@ + address + ":"@ + dec_rep(port) + " (encryption: "@ + bool_rep(encryption) + ")"@
}

/// The exact connect log line of a TCP connection.
pub open spec fn tcp_connect_rep(address: Seq<char>, port: int, encryption: bool) -> Seq<char> {
    "[TCP] Connecting to "@ + address + ":"@ + dec_rep(port) + " (encryption: "@
        + bool_rep(encryption) + ")"@
}

/// The exact description of a UDP connection.
pub open spec fn udp_describe_rep(address: Seq<char>, port: int) -> Seq<char> {
    "udp://"@ + address + ":"@ + dec_rep(port)
}

/// The exact connect log line of a UDP connection.
pub open spec fn udp_connect_rep(address: Seq<char>, port: int) -> Seq<char> {
    "[UDP] Connecting to "@ + address + ":"@ + dec_rep(port)
}

/// The exact description of a local connection.
pub open spec fn local_describe_rep(port: int) -> Seq<char> {
    "local://"@ + dec_rep(port)
}

/// The exact connect log line of a local connection.
pub open spec fn local_connect_rep(port: int) -> Seq<char> {
    "[Local] Connecting to local port "@ + dec_rep(port)
}

#[derive(Debug)]
pub struct TcpConnection {
    pub address: String,
    pub port: u16,
    pub encryption: bool,
}

impl Connectable for TcpConnection {
    open spec fn kind_rep(&self) -> ConnectionKind {
        ConnectionKind::Tcp
    }

    open spec fn describe_rep(&self) -> Seq<char> {
        tcp_describe_rep(self.address@, self.port as int, self.encryption)
    }

    open spec fn connect_rep(&self) -> Seq<char> {
        tcp_connect_rep(self.address@, self.port as int, self.encryption)
    }

    fn describe(&self) -> (r: String) {
        let mut s = String::from_str("tcp://");
        s.append(self.address.as_str());
        s.append(":");
        push_u16(&mut s, self.port);
        s.append(" (encryption: ");
        push_bool(&mut s, self.encryption);
        s.append(")");
        proof {
            assert(s@ =~= self.describe_rep());
        }
        s
    }

    fn connect(&self) -> (r: String) {
        let mut s = String::from_str("[TCP] Connecting to ");
        s.append(self.address.as_str());
        s.append(":");
        push_u16(&mut s, self.port);
        s.append(" (encryption: ");
        push_bool(&mut s, self.encryption);
        s.append(")");
        proof {
            assert(s@ =~= self.connect_rep());
        }
        s
    }
}

#[derive(Debug)]
pub struct UdpConnection {
    pub address: String,
    pub port: u16,
}

impl Connectable for UdpConnection {
    open spec fn kind_rep(&self) -> ConnectionKind {
        ConnectionKind::Udp
    }

    open spec fn describe_rep(&self) -> Seq<char> {
        udp_describe_rep(self.address@, self.port as int)
    }

    open spec fn connect_rep(&self) -> Seq<char> {
        udp_connect_rep(self.address@, self.port as int)
    }

    fn describe(&self) -> (r: String) {
        let mut s = String::from_str("udp://");
        s.append(self.address.as_str());
        s.append(":");
        push_u16(&mut s, self.port);
        proof {
            assert(s@ =~= self.describe_rep());
        }
        s
    }

    fn connect(&self) -> (r: String) {
        let mut s = String::from_str("[UDP] Connecting to ");
        s.append(self.address.as_str());
        s.append(":");
        push_u16(&mut s, self.port);
        proof {
            assert(s@ =~= self.connect_rep());
        }
        s
    }
}

#[derive(Debug)]
pub struct LocalHostConnection {
    pub port: u16,
}

impl Connectable for LocalHostConnection {
    open spec fn kind_rep(&self) -> ConnectionKind {
        ConnectionKind::Local
    }

    open spec fn describe_rep(&self) -> Seq<char> {
        local_describe_rep(self.port as int)
    }

    open spec fn connect_rep(&self) -> Seq<char> {
        local_connect_rep(self.port as int)
    }

    fn describe(&self) -> (r: String) {
        let mut s = String::from_str("local://");
        push_u16(&mut s, self.port);
        proof {
            assert(s@ =~= self.describe_rep());
        }
        s
    }

    fn connect(&self) -> (r: String) {
        let mut s = String::from_str("[Local] Connecting to local port ");
        push_u16(&mut s, self.port);
        proof {
            assert(s@ =~= self.connect_rep());
        }
        s
    }
}

/// A dynamically dispatched behavior object.
pub type DynConnectable = dyn Connectable;

/// The hybrid record: a closed set of kind tags, each pairing the tag
/// with the behavior object of that kind. The pairing is established at
/// construction (see the factories) and never changes: a record is
/// immutable, and a different connection means a new record.
#[derive(Debug)]
pub enum Connection {
    Tcp(TcpConnection),
    Udp(UdpConnection),
    Local(LocalHostConnection),
}

impl Connection {
    /// The kind named by the record's tag.
    pub open spec fn kind(&self) -> ConnectionKind {
        match self {
            Connection::Tcp(_) => ConnectionKind::Tcp,
            Connection::Udp(_) => ConnectionKind::Udp,
            Connection::Local(_) => ConnectionKind::Local,
        }
    }

    /// The logical kind of the behavior object the record carries.
    pub open spec fn behavior_kind(&self) -> ConnectionKind {
        match self {
            Connection::Tcp(c) => c.kind_rep(),
            Connection::Udp(c) => c.kind_rep(),
            Connection::Local(c) => c.kind_rep(),
        }
    }

    /// Well-formedness: the behavior object's logical kind matches the
    /// tag.
    pub open spec fn wf(&self) -> bool {
        self.behavior_kind() == self.kind()
    }

    /// The exact text `describe` returns, spelled out per kind: the
    /// closed-set matching view of the record's description.
    pub open spec fn describe_rep(&self) -> Seq<char> {
        match self {
            Connection::Tcp(c) => tcp_describe_rep(c.address@, c.port as int, c.encryption),
            Connection::Udp(c) => udp_describe_rep(c.address@, c.port as int),
            Connection::Local(c) => local_describe_rep(c.port as int),
        }
    }

    /// The exact text `connect` returns, spelled out per kind: the
    /// closed-set matching view of the record's connect log line.
    pub open spec fn connect_rep(&self) -> Seq<char> {
        match self {
            Connection::Tcp(c) => tcp_connect_rep(c.address@, c.port as int, c.encryption),
            Connection::Udp(c) => udp_connect_rep(c.address@, c.port as int),
            Connection::Local(c) => local_connect_rep(c.port as int),
        }
    }

    /// What the behavior object renders for `describe`: the open,
    /// capability-dispatch view of the record's description.
    pub open spec fn behavior_describe_rep(&self) -> Seq<char> {
        match self {
            Connection::Tcp(c) => c.describe_rep(),
            Connection::Udp(c) => c.describe_rep(),
            Connection::Local(c) => c.describe_rep(),
        }
    }

    /// What the behavior object renders for `connect`: the open,
    /// capability-dispatch view of the record's connect log line.
    pub open spec fn behavior_connect_rep(&self) -> Seq<char> {
        match self {
            Connection::Tcp(c) => c.connect_rep(),
            Connection::Udp(c) => c.connect_rep(),
            Connection::Local(c) => c.connect_rep(),
        }
    }

    /// Renders the record, delegating to the behavior object.
    pub fn describe(&self) -> (r: String)
        ensures
            r@ == self.describe_rep(),
    {
        match self {
            Connection::Tcp(c) => c.describe(),
            Connection::Udp(c) => c.describe(),
            Connection::Local(c) => c.describe(),
        }
    }

    /// Simulates connecting, delegating to the behavior object. Never
    /// fails: the result is the log line of the simulated action.
    pub fn connect(&self) -> (r: String)
        ensures
            r@ == self.connect_rep(),
    {
        match self {
            Connection::Tcp(c) => c.connect(),
            Connection::Udp(c) => c.connect(),
            Connection::Local(c) => c.connect(),
        }
    }

    /// A `&dyn Connectable` view of the record for unified API use.
    ///
    /// A postcondition cannot be attached to a `dyn` return value here;
    /// verified callers that need the trait-object path with its
    /// contract go through [`use_connection_trait`] or
    /// [`run_all_by_trait`], whose parameters carry it.
    pub fn as_dyn(&self) -> &DynConnectable {
        match self {
            Connection::Tcp(c) => c,
            Connection::Udp(c) => c,
            Connection::Local(c) => c,
        }
    }

    /// Builds a TCP record. Any `u16` port is accepted, zero included:
    /// this layer performs no validation.
    pub fn make_tcp(address: String, port: u16, encryption: bool) -> (r: Connection)
        ensures
            r.wf(),
            r.kind() == ConnectionKind::Tcp,
            r.describe_rep() == tcp_describe_rep(address@, port as int, encryption),
            r.connect_rep() == tcp_connect_rep(address@, port as int, encryption),
    {
        Connection::Tcp(TcpConnection { address, port, encryption })
    }

    /// Builds a UDP record. Any `u16` port is accepted, zero included.
    pub fn make_udp(address: String, port: u16) -> (r: Connection)
        ensures
            r.wf(),
            r.kind() == ConnectionKind::Udp,
            r.describe_rep() == udp_describe_rep(address@, port as int),
            r.connect_rep() == udp_connect_rep(address@, port as int),
    {
        Connection::Udp(UdpConnection { address, port })
    }

    /// Builds a local record. Any `u16` port is accepted, zero included.
    pub fn make_local(port: u16) -> (r: Connection)
        ensures
            r.wf(),
            r.kind() == ConnectionKind::Local,
            r.describe_rep() == local_describe_rep(port as int),
            r.connect_rep() == local_connect_rep(port as int),
    {
        Connection::Local(LocalHostConnection { port })
    }
}

/// Dispatch equivalence: for every record, the closed-set matching view
/// (formats spelled out per kind) and the behavior-interface view (what
/// the behavior object renders) agree, for `describe` and for `connect`
/// alike.
pub proof fn lemma_dispatch_equivalence(c: Connection)
    ensures
        c.describe_rep() == c.behavior_describe_rep(),
        c.connect_rep() == c.behavior_connect_rep(),
{
}

/// Every record is well-formed: the closed tag set and the behavior
/// pairing leave no way to construct a record whose behavior disagrees
/// with its tag.
pub proof fn lemma_records_well_formed(c: Connection)
    ensures
        c.wf(),
{
}

/// The note the enum-interface driver emits for each kind tag.
pub open spec fn tag_note_rep(k: ConnectionKind) -> Seq<char> {
    match k {
        ConnectionKind::Tcp => "handled as TCP variant"@,
        ConnectionKind::Udp => "handled as UDP variant"@,
        ConnectionKind::Local => "handled as Local variant"@,
    }
}

/// The enum-interface driver: describes the record, connects it, and
/// routes on the kind tag. Returns the description, the connect log
/// line, and the tag note, in that order.
pub fn use_enum_connection(conn: &Connection) -> (lines: Vec<String>)
    ensures
        lines@.len() == 3,
        lines@[0]@ == conn.describe_rep(),
        lines@[1]@ == conn.connect_rep(),
        lines@[2]@ == tag_note_rep(conn.kind()),
{
    let mut lines: Vec<String> = Vec::new();
    lines.push(conn.describe());
    lines.push(conn.connect());
    let note: &str = match conn {
        Connection::Tcp(_) => "handled as TCP variant",
        Connection::Udp(_) => "handled as UDP variant",
        Connection::Local(_) => "handled as Local variant",
    };
    lines.push(String::from_str(note));
    lines
}

/// The trait-interface driver: works on any behavior object, without
/// caring about the concrete kind. Returns the description and the
/// connect log line, in that order.
pub fn use_connection_trait(conn: &DynConnectable) -> (lines: Vec<String>)
    ensures
        lines@.len() == 2,
        lines@[0]@ == conn.describe_rep(),
        lines@[1]@ == conn.connect_rep(),
{
    let mut lines: Vec<String> = Vec::new();
    lines.push(conn.describe());
    lines.push(conn.connect());
    lines
}

/// Describes and connects every record of a sequence through the
/// closed-set matching path, in order: the record at position `i`
/// contributes its description at position `2 * i` and its connect log
/// line right after it.
pub fn run_all_by_enum(conns: &Vec<Connection>) -> (out: Vec<String>)
    ensures
        out@.len() == 2 * conns@.len(),
        forall|i: int|
            0 <= i < conns@.len() ==> #[trigger] out@[2 * i]@ == conns@[i].describe_rep(),
        forall|i: int|
            0 <= i < conns@.len() ==> #[trigger] out@[2 * i + 1]@ == conns@[i].connect_rep(),
{
    let mut out: Vec<String> = Vec::new();
    let n: usize = conns.len();
    for k in 0..n
        invariant
            n == conns@.len(),
            out@.len() == 2 * k,
            forall|i: int| 0 <= i < k ==> #[trigger] out@[2 * i]@ == conns@[i].describe_rep(),
            forall|i: int| 0 <= i < k ==> #[trigger] out@[2 * i + 1]@ == conns@[i].connect_rep(),
    {
        let conn = &conns[k];
        let described = match conn {
            Connection::Tcp(c) => c.describe(),
            Connection::Udp(c) => c.describe(),
            Connection::Local(c) => c.describe(),
        };
        let connected = match conn {
            Connection::Tcp(c) => c.connect(),
            Connection::Udp(c) => c.connect(),
            Connection::Local(c) => c.connect(),
        };
        out.push(described);
        out.push(connected);
    }
    out
}

/// Describes and connects every record of a sequence through the
/// behavior-interface path (`&dyn Connectable`), in the same layout as
/// [`run_all_by_enum`]. The two contracts coincide clause for clause:
/// the two paths produce the same content in the same order.
pub fn run_all_by_trait(conns: &Vec<Connection>) -> (out: Vec<String>)
    ensures
        out@.len() == 2 * conns@.len(),
        forall|i: int|
            0 <= i < conns@.len() ==> #[trigger] out@[2 * i]@ == conns@[i].describe_rep(),
        forall|i: int|
            0 <= i < conns@.len() ==> #[trigger] out@[2 * i + 1]@ == conns@[i].connect_rep(),
{
    let mut out: Vec<String> = Vec::new();
    let n: usize = conns.len();
    for k in 0..n
        invariant
            n == conns@.len(),
            out@.len() == 2 * k,
            forall|i: int| 0 <= i < k ==> #[trigger] out@[2 * i]@ == conns@[i].describe_rep(),
            forall|i: int| 0 <= i < k ==> #[trigger] out@[2 * i + 1]@ == conns@[i].connect_rep(),
    {
        let conn = &conns[k];
        let (described, connected) = match conn {
            Connection::Tcp(c) => {
                let d: &DynConnectable = c;
                (d.describe(), d.connect())
            },
            Connection::Udp(c) => {
                let d: &DynConnectable = c;
                (d.describe(), d.connect())
            },
            Connection::Local(c) => {
                let d: &DynConnectable = c;
                (d.describe(), d.connect())
            },
        };
        proof {
            lemma_dispatch_equivalence(conns@[k as int]);
            assert(described@ == conns@[k as int].describe_rep());
            assert(connected@ == conns@[k as int].connect_rep());
        }
        out.push(described);
        out.push(connected);
    }
    out
}

/// Determinism: two records of the same kind whose behavior objects
/// were built from identical arguments have identical descriptions and
/// identical connect log lines, though they are distinct, independently
/// owned instances.
pub proof fn lemma_factory_determinism(a: Connection, b: Connection)
    requires
        match (a, b) {
            (Connection::Tcp(x), Connection::Tcp(y)) => {
                &&& x.address@ == y.address@
                &&& x.port == y.port
                &&& x.encryption == y.encryption
            },
            (Connection::Udp(x), Connection::Udp(y)) => {
                &&& x.address@ == y.address@
                &&& x.port == y.port
            },
            (Connection::Local(x), Connection::Local(y)) => x.port == y.port,
            _ => false,
        },
    ensures
        a.describe_rep() == b.describe_rep(),
        a.connect_rep() == b.connect_rep(),
{
}

/// Order preservation: on any sequence of records, the closed-set
/// matching view and the behavior-interface view agree position by
/// position, for the description and the connect log line alike.
pub proof fn lemma_order_preservation(conns: Seq<Connection>)
    ensures
        forall|i: int|
            0 <= i < conns.len() ==> #[trigger] conns[i].describe_rep()
                == conns[i].behavior_describe_rep(),
        forall|i: int|
            0 <= i < conns.len() ==> #[trigger] conns[i].connect_rep()
                == conns[i].behavior_connect_rep(),
{
    assert forall|i: int| 0 <= i < conns.len() implies #[trigger] conns[i].describe_rep()
        == conns[i].behavior_describe_rep() && conns[i].connect_rep()
        == conns[i].behavior_connect_rep() by {
        lemma_dispatch_equivalence(conns[i]);
    }
}


} // verus!
