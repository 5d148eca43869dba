//! Route resolution: finding the full address (path label, public key,
//! protocol version) of a node given its cjdns IPv6, either from an open
//! session or by asking the node's supernode.

use vstd::prelude::*;
use crate::text::{decimal_of_u64, contains_text, has_substring, int_decimal};

verus! {

/// Where a route may be looked up.
#[derive(PartialEq, Eq, Structural, Clone, Copy, Debug)]
pub enum ResolveFrom {
    /// From the session table of the local node.
    Session,
    /// From the supernode of the local node.
    Snode,
}

/// The subcommands of `route`.
#[derive(Debug)]
pub enum Command {
    /// Get the route to a given destination.
    Get { dest: String, origin: Option<String>, from: Option<ResolveFrom> },
}

/// Where a route was found.
#[derive(PartialEq, Eq, Structural, Clone, Copy, Debug)]
pub enum RouteSource {
    Session,
    Snode,
}

/// The text that names a route's source in the tool's output.
pub open spec fn source_text(s: RouteSource) -> Seq<char> {
    match s {
        RouteSource::Session => "session"@,
        RouteSource::Snode => "snode"@,
    }
}

impl RouteSource {
    /// The name of the source, as printed after the address.
    pub fn as_str(&self) -> (s: &'static str)
        ensures
            s@ == source_text(*self),
    {
        match self {
            RouteSource::Session => "session",
            RouteSource::Snode => "snode",
        }
    }
}

/// A node's full address: the path label to it, its public key and its
/// protocol version.
#[derive(Clone, Copy, Debug)]
pub struct NodeAddress {
    pub label: u64,
    pub pubkey: [u8; 32],
    pub version: u16,
}

/// A route to a node, and where it was found.
#[derive(Clone, Copy, Debug)]
pub struct Route {
    pub full_addr: NodeAddress,
    pub src: RouteSource,
}

/// Why a route could not be resolved.
#[derive(Debug)]
pub enum RouteError {
    /// An admin call failed; the text is the failure as reported.
    Call(String),
    /// An admin call answered without a field that was looked for, or with
    /// one of the wrong kind; the text is the failure as reported.
    Reply(String),
    NoSupernode,
    InvalidDest,
    InvalidSrc,
    NoResponse,
    BadNpLength(usize),
    UnhandledNp(u8),
    /// The key of the node record has no cjdns IPv6; the text is the reason
    /// that the derivation gave.
    BadKey(String),
    /// The supernode answered for another node, whose IPv6 is given as text.
    WrongIp6(String),
    ZeroLabel,
    NoRoute,
}

/// The message that reports an error.
pub open spec fn error_text(e: RouteError) -> Seq<char> {
    match e {
        RouteError::Call(m) => m@,
        RouteError::Reply(m) => m@,
        RouteError::NoSupernode => "No active supernode found"@,
        RouteError::InvalidDest => "Invalid dest IPv6 address"@,
        RouteError::InvalidSrc => "Invalid src IPv6 address"@,
        RouteError::NoResponse => "Snode did not respond"@,
        RouteError::BadNpLength(n) => "Invalid np length from snode: "@ + int_decimal(n as int),
        RouteError::UnhandledNp(b) => "Unhandled np[0] from snode: "@ + int_decimal(b as int),
        RouteError::BadKey(_) => "Bad response from snode: computed IPv6 does not start with fc"@,
        RouteError::WrongIp6(t) => "Snode returned wrong IP6: "@ + t@,
        RouteError::ZeroLabel => "Snode provided route is zero"@,
        RouteError::NoRoute => "No route found"@,
    }
}

impl RouteError {
    /// The message that reports this error.
    pub fn message(&self) -> (text: String)
        ensures
            text@ == error_text(*self),
    {
        match self {
            RouteError::Call(m) => m.clone(),
            RouteError::Reply(m) => m.clone(),
            RouteError::NoSupernode => String::from_str("No active supernode found"),
            RouteError::InvalidDest => String::from_str("Invalid dest IPv6 address"),
            RouteError::InvalidSrc => String::from_str("Invalid src IPv6 address"),
            RouteError::NoResponse => String::from_str("Snode did not respond"),
            RouteError::BadNpLength(n) => {
                let head = String::from_str("Invalid np length from snode: ");
                let num = decimal_of_u64(*n as u64);
                head.concat(num.as_str())
            },
            RouteError::UnhandledNp(b) => {
                let head = String::from_str("Unhandled np[0] from snode: ");
                let num = decimal_of_u64(*b as u64);
                head.concat(num.as_str())
            },
            RouteError::BadKey(_) => String::from_str(
                "Bad response from snode: computed IPv6 does not start with fc",
            ),
            RouteError::WrongIp6(t) => {
                let head = String::from_str("Snode returned wrong IP6: ");
                head.concat(t.as_str())
            },
            RouteError::ZeroLabel => String::from_str("Snode provided route is zero"),
            RouteError::NoRoute => String::from_str("No route found"),
        }
    }
}

/// The `response` part of a supernode's answer to a node query: whether it
/// carries `recvTime`, and its `n` (node record) and `np` (protocol) byte
/// strings, or the failure that reading each of them reported.
#[derive(Debug)]
pub struct SnodeResponse {
    pub recv_time: bool,
    pub n: Result<Vec<u8>, String>,
    pub np: Result<Vec<u8>, String>,
}

/// What a supernode's node record holds: the public key, the path label
/// (`None` when the record ends before the 8 bytes of the label), and the
/// protocol version.
#[derive(Clone, Copy, Debug)]
pub struct NodeRecord {
    pub pubkey: [u8; 32],
    pub label: Option<u64>,
    pub version: u8,
}

/// The unsigned value of bytes read most significant first.
pub open spec fn be_value(b: Seq<u8>) -> nat
    decreases b.len(),
{
    if b.len() == 0 {
        0
    } else {
        be_value(b.drop_last()) * 256 + b.last() as nat
    }
}

/// `256` to the power `k`.
pub open spec fn pow256(k: nat) -> nat
    decreases k,
{
    if k == 0 {
        1
    } else {
        256 * pow256((k - 1) as nat)
    }
}

proof fn lemma_pow256_monotone(i: nat, j: nat)
    requires
        i <= j,
    ensures
        pow256(i) <= pow256(j),
    decreases j,
{
    if i < j {
        lemma_pow256_monotone(i, (j - 1) as nat);
    }
}

/// The problem, if any, that keeps a supernode response from holding a node
/// record, in the order in which it is looked for.
pub open spec fn reply_fault(r: SnodeResponse) -> Option<RouteError> {
    if !r.recv_time {
        Some(RouteError::NoResponse)
    } else {
        match r.n {
            Err(m) => Some(RouteError::Reply(m)),
            Ok(_) => match r.np {
                Err(m) => Some(RouteError::Reply(m)),
                Ok(np) => if np@.len() != 2 {
                    Some(RouteError::BadNpLength(np@.len() as usize))
                } else if np@[0] != 1 {
                    Some(RouteError::UnhandledNp(np@[0]))
                } else {
                    None
                },
            },
        }
    }
}

/// The node record bytes of a response.
pub open spec fn record_bytes(r: SnodeResponse) -> Seq<u8> {
    match r.n {
        Ok(n) => n@,
        Err(_) => Seq::empty(),
    }
}

/// The protocol bytes of a response.
pub open spec fn protocol_bytes(r: SnodeResponse) -> Seq<u8> {
    match r.np {
        Ok(np) => np@,
        Err(_) => Seq::empty(),
    }
}

/// A response that passes every check but whose node record is shorter than
/// a public key (32 bytes).
pub open spec fn truncated(r: SnodeResponse) -> bool {
    reply_fault(r) is None && record_bytes(r).len() < 32
}

/// `rec` is the node record that `r` carries: its first 32 bytes are the
/// public key, the next 8 (when the record has them) the path label read most
/// significant byte first, and the second protocol byte is the version.
pub open spec fn decodes_to(r: SnodeResponse, rec: NodeRecord) -> bool {
    &&& reply_fault(r) is None
    &&& rec.pubkey@ == record_bytes(r).subrange(0, 32)
    &&& (rec.label is Some <==> record_bytes(r).len() >= 40)
    &&& (rec.label matches Some(l) ==> l as nat == be_value(record_bytes(r).subrange(32, 40)))
    &&& rec.version == protocol_bytes(r)[1]
}

impl SnodeResponse {
    /// Whether the node record is too short to hold a key although every
    /// earlier check passes.
    pub fn is_truncated(&self) -> (yes: bool)
        ensures
            yes == truncated(*self),
    {
        if !self.recv_time {
            return false;
        }
        match (&self.n, &self.np) {
            (Ok(n), Ok(np)) => np.len() == 2 && np[0] == 1 && n.len() < 32,
            _ => false,
        }
    }
}

/// The path label held most significant byte first in `n[start..start + 8]`.
fn read_label(n: &Vec<u8>, start: usize) -> (v: u64)
    requires
        start + 8 <= n@.len(),
    ensures
        v as nat == be_value(n@.subrange(start as int, start + 8)),
{
    let len = n.len();
    let mut v: u64 = 0;
    let mut i: usize = 0;
    proof {
        assert(n@.subrange(start as int, start as int) =~= Seq::<u8>::empty());
        reveal_with_fuel(pow256, 9);
        assert(pow256(8) == 0x1_0000_0000_0000_0000);
    }
    while i < 8
        invariant
            start + 8 <= n@.len(),
            len == n@.len(),
            i <= 8,
            v as nat == be_value(n@.subrange(start as int, start + i)),
            v < pow256(i as nat),
            pow256(8) == 0x1_0000_0000_0000_0000,
        decreases 8 - i,
    {
        let b = n[start + i];
        proof {
            lemma_pow256_monotone((i + 1) as nat, 8);
            let p = pow256(i as nat);
            assert(v * 256 + b < 256 * p) by (nonlinear_arith)
                requires
                    v < p,
                    b < 256,
            ;
            let s = n@.subrange(start as int, start + i + 1);
            assert(s.drop_last() =~= n@.subrange(start as int, start + i));
        }
        v = v * 256 + b as u64;
        i = i + 1;
    }
    v
}

/// The public key held in `n[0..32]`.
fn read_key(n: &Vec<u8>) -> (key: [u8; 32])
    requires
        32 <= n@.len(),
    ensures
        key@ == n@.subrange(0, 32),
{
    let mut key = [0u8; 32];
    let mut i: usize = 0;
    while i < 32
        invariant
            32 <= n@.len(),
            i <= 32,
            key@.len() == 32,
            forall|j: int| 0 <= j < i ==> key@[j] == n@[j],
        decreases 32 - i,
    {
        key[i] = n[i];
        i = i + 1;
    }
    assert(key@ =~= n@.subrange(0, 32));
    key
}

/// Reads the node record from a supernode's response, or reports the first
/// problem that keeps it from holding one.
pub fn decode_node_reply(r: SnodeResponse) -> (res: Result<NodeRecord, RouteError>)
    requires
        !truncated(r),
    ensures
        match res {
            Ok(rec) => decodes_to(r, rec),
            Err(e) => reply_fault(r) == Some(e),
        },
{
    if !r.recv_time {
        return Err(RouteError::NoResponse);
    }
    let SnodeResponse { n, np, .. } = r;
    let n = match n {
        Err(m) => {
            return Err(RouteError::Reply(m));
        },
        Ok(n) => n,
    };
    let np = match np {
        Err(m) => {
            return Err(RouteError::Reply(m));
        },
        Ok(np) => np,
    };
    if np.len() != 2 {
        return Err(RouteError::BadNpLength(np.len()));
    }
    if np[0] != 1 {
        return Err(RouteError::UnhandledNp(np[0]));
    }
    let version = np[1];
    let pubkey = read_key(&n);
    let label = if n.len() >= 40 {
        Some(read_label(&n, 32))
    } else {
        None
    };
    Ok(NodeRecord { pubkey, label, version })
}


/// The cjdns IPv6 that a public key hashes to, as bytes and as text.
#[derive(Debug)]
pub struct DerivedIp6 {
    pub octets: [u8; 16],
    pub text: String,
}

/// Checking a node record whose key hashes to the destination reads its path
/// label, which is past the end of a record shorter than 40 bytes.
pub open spec fn key_check_panics(
    dst: [u8; 16],
    record: NodeRecord,
    derived: Result<DerivedIp6, String>,
) -> bool {
    &&& derived matches Ok(d) && d.octets@ == dst@
    &&& record.label is None
}

/// The outcome of checking a supernode's node record against the requested
/// destination, given the IPv6 derived from the record's key (or the reason
/// why the key has none). The label is looked at only once the key is found
/// to be the destination's.
pub open spec fn snode_outcome(
    dst: [u8; 16],
    record: NodeRecord,
    derived: Result<DerivedIp6, String>,
) -> Result<Route, RouteError> {
    match derived {
        Err(cause) => Err(RouteError::BadKey(cause)),
        Ok(d) => if d.octets@ != dst@ {
            Err(RouteError::WrongIp6(d.text))
        } else if record.label.unwrap() == 0 {
            Err(RouteError::ZeroLabel)
        } else {
            Ok(
                Route {
                    full_addr: NodeAddress {
                        label: record.label.unwrap(),
                        pubkey: record.pubkey,
                        version: record.version as u16,
                    },
                    src: RouteSource::Snode,
                },
            )
        },
    }
}

/// Whether two IPv6 addresses are the same.
fn same_octets(a: &[u8; 16], b: &[u8; 16]) -> (same: bool)
    ensures
        same == (a@ == b@),
{
    let mut i: usize = 0;
    while i < 16
        invariant
            i <= 16,
            a@.len() == 16,
            b@.len() == 16,
            forall|j: int| 0 <= j < i ==> a@[j] == b@[j],
        decreases 16 - i,
    {
        if a[i] != b[i] {
            return false;
        }
        i = i + 1;
    }
    assert(a@ =~= b@);
    true
}

/// Turns a supernode's node record into a route, once the IPv6 of its key is
/// known: the key must hash to the requested destination, and then the label
/// must be present and not zero.
pub fn snode_route(dst: [u8; 16], record: NodeRecord, derived: Result<DerivedIp6, String>) -> (res:
    Result<Route, RouteError>)
    requires
        !key_check_panics(dst, record, derived),
    ensures
        res == snode_outcome(dst, record, derived),
        (derived matches Ok(d) ==> (d.octets@ == dst@ && record.label is Some ==> ((res is Ok
            <==> record.label.unwrap() != 0) && (res matches Ok(r) ==> r.full_addr.label
            == record.label.unwrap())))),
{
    match derived {
        Err(cause) => Err(RouteError::BadKey(cause)),
        Ok(d) => {
            if !same_octets(&d.octets, &dst) {
                Err(RouteError::WrongIp6(d.text))
            } else {
                let label = match record.label {
                    Some(l) => l,
                    None => {
                        assert(false);
                        0
                    },
                };
                if label == 0 {
                    Err(RouteError::ZeroLabel)
                } else {
                    Ok(
                        Route {
                            full_addr: NodeAddress {
                                label,
                                pubkey: record.pubkey,
                                version: record.version as u16,
                            },
                            src: RouteSource::Snode,
                        },
                    )
                }
            }
        },
    }
}

/// The route that `get` prints, or `NoRoute` when the resolution found none.
pub fn found_route(outcome: Result<Option<Route>, RouteError>) -> (res: Result<Route, RouteError>)
    ensures
        res == match outcome {
            Ok(Some(r)) => Ok(r),
            Ok(None) => Err(RouteError::NoRoute),
            Err(e) => Err(e),
        },
{
    match outcome {
        Ok(Some(r)) => Ok(r),
        Ok(None) => Err(RouteError::NoRoute),
        Err(e) => Err(e),
    }
}

/// What a resolution waits for.
#[derive(Debug)]
pub enum Stage {
    /// The answer to a session lookup of the destination.
    Session,
    /// The supernode's status (which supernode is active).
    Supernode,
    /// The local node's own IPv6, to be used as the query's origin.
    SelfAddress { snode: String },
    /// The supernode's answer to the node query for `dst`.
    Node { dst: [u8; 16] },
    /// The IPv6 that the key of `record` hashes to.
    KeyCheck { dst: [u8; 16], record: NodeRecord },
    /// Nothing: the resolution has finished.
    Done,
}

/// A route resolution in progress. The destination and origin are given as
/// the parsed IPv6 of the texts on the command line (`None` where the text
/// is not an IPv6 address); `origin` is `None` when none was given.
#[derive(Debug)]
pub struct Resolver {
    pub dest_ip: Option<[u8; 16]>,
    pub origin: Option<Option<[u8; 16]>>,
    pub from: Option<ResolveFrom>,
    pub stage: Stage,
}

/// What the caller is to do next on behalf of a resolution.
#[derive(Debug)]
pub enum Action {
    /// Ask the local node for its session with the destination.
    QuerySession,
    /// Ask the local node which supernode is active.
    QuerySupernode,
    /// Ask the local node for its own IPv6.
    QuerySelfAddress,
    /// Ask the supernode `snode` for a path from `src` to `dst`.
    QueryNode { snode: String, src: [u8; 16], dst: [u8; 16] },
    /// Compute the cjdns IPv6 of a public key.
    DeriveIp6 { pubkey: [u8; 32] },
    /// Stop: the resolution has this outcome.
    Finish(Result<Option<Route>, RouteError>),
}

/// What the caller reports back after carrying out an action.
#[derive(Debug)]
pub enum Event {
    /// The admin call failed, with this message.
    CallFailed(String),
    /// The call answered, but a field of the answer could not be read (or,
    /// for a session, its address could not be parsed), with this message.
    BadReply(String),
    /// The session's address.
    SessionRoute(NodeAddress),
    /// The active supernode, if there is one.
    Supernode(Option<String>),
    /// The local node's own IPv6 (`None` when its text does not parse).
    SelfAddress(Option<[u8; 16]>),
    /// The `response` part of the supernode's answer.
    NodeReply(SnodeResponse),
    /// The IPv6 of the key, or the reason why the key has no cjdns IPv6.
    KeyAddress(Result<DerivedIp6, String>),
}

/// The resolution that starts with the given arguments.
pub open spec fn initial_resolver(
    dest_ip: Option<[u8; 16]>,
    origin: Option<Option<[u8; 16]>>,
    from: Option<ResolveFrom>,
) -> Resolver {
    Resolver {
        dest_ip,
        origin,
        from,
        stage: if from == Some(ResolveFrom::Snode) {
            Stage::Supernode
        } else {
            Stage::Session
        },
    }
}

/// The first action: a session lookup unless only the supernode may be asked.
pub open spec fn first_action(from: Option<ResolveFrom>) -> Action {
    if from == Some(ResolveFrom::Snode) {
        Action::QuerySupernode
    } else {
        Action::QuerySession
    }
}

/// The order in which the stages follow each other.
pub open spec fn stage_rank(s: Stage) -> int {
    match s {
        Stage::Session => 0,
        Stage::Supernode => 1,
        Stage::SelfAddress { .. } => 2,
        Stage::Node { .. } => 3,
        Stage::KeyCheck { .. } => 4,
        Stage::Done => 5,
    }
}

/// The message in an error from the session lookup that means "no session".
pub open spec fn no_session_text() -> Seq<char> {
    "no such session"@
}

impl Resolver {
    /// The stage agrees with where a route may be looked up, and a stage that
    /// follows the destination's parse holds the parsed destination.
    pub open spec fn wf(self) -> bool {
        match self.stage {
            Stage::Session => self.from != Some(ResolveFrom::Snode),
            Stage::Supernode => self.from != Some(ResolveFrom::Session),
            Stage::SelfAddress { .. } => self.from != Some(ResolveFrom::Session)
                && self.origin is None,
            Stage::Node { dst } => self.from != Some(ResolveFrom::Session) && self.dest_ip
                == Some(dst),
            Stage::KeyCheck { dst, .. } => self.from != Some(ResolveFrom::Session)
                && self.dest_ip == Some(dst),
            Stage::Done => true,
        }
    }

    /// `e` is an answer to the action that led to the current stage.
    pub open spec fn expects(self, e: Event) -> bool {
        match e {
            Event::CallFailed(_) | Event::BadReply(_) => !(self.stage is Done),
            Event::SessionRoute(_) => self.stage is Session,
            Event::Supernode(_) => self.stage is Supernode,
            Event::SelfAddress(_) => self.stage is SelfAddress,
            Event::NodeReply(_) => self.stage is Node,
            Event::KeyAddress(_) => self.stage is KeyCheck,
        }
    }

    /// Reading the supernode's node record indexes past its end: on a
    /// record shorter than a key, or, once the key is found to be the
    /// destination's, on a record that ends before the path label.
    pub open spec fn panics_on(self, e: Event) -> bool {
        match e {
            Event::NodeReply(r) => self.stage is Node && truncated(r),
            Event::KeyAddress(derived) => match self.stage {
                Stage::KeyCheck { dst, record } => key_check_panics(dst, record, derived),
                _ => false,
            },
            _ => false,
        }
    }

    /// Whether carrying on with `e` would read past the end of the node record.
    pub fn panics_on_event(&self, e: &Event) -> (yes: bool)
        ensures
            yes == self.panics_on(*e),
    {
        match (&self.stage, e) {
            (Stage::Node { .. }, Event::NodeReply(r)) => r.is_truncated(),
            (Stage::KeyCheck { dst, record }, Event::KeyAddress(Ok(d))) => same_octets(
                &d.octets,
                dst,
            ) && record.label.is_none(),
            _ => false,
        }
    }

    /// The resolution stops at `next` with `outcome`.
    pub open spec fn finishes(
        self,
        next: Resolver,
        a: Action,
        outcome: Result<Option<Route>, RouteError>,
    ) -> bool {
        &&& next == Resolver { stage: Stage::Done, ..self }
        &&& a == Action::Finish(outcome)
    }

    /// After the session lookup found nothing: ask the supernode when it may
    /// be asked, else finish without a route.
    pub open spec fn after_session_miss(self, next: Resolver, a: Action) -> bool {
        if self.from is None {
            &&& next == Resolver { stage: Stage::Supernode, ..self }
            &&& a == Action::QuerySupernode
        } else {
            self.finishes(next, a, Ok(None))
        }
    }

    /// With the supernode and the origin known: check the destination, then
    /// the origin, then query the supernode.
    pub open spec fn query_node(
        self,
        snode: String,
        src: Option<[u8; 16]>,
        next: Resolver,
        a: Action,
    ) -> bool {
        match self.dest_ip {
            None => self.finishes(next, a, Err(RouteError::InvalidDest)),
            Some(d) => match src {
                None => self.finishes(next, a, Err(RouteError::InvalidSrc)),
                Some(s) => {
                    &&& next == Resolver { stage: Stage::Node { dst: d }, ..self }
                    &&& a == Action::QueryNode { snode, src: s, dst: d }
                },
            },
        }
    }

    /// One step of the resolution: on event `e`, the resolution becomes
    /// `next` and asks for `a`.
    pub open spec fn transition(self, e: Event, next: Resolver, a: Action) -> bool {
        match e {
            Event::CallFailed(m) => if self.stage is Session && has_substring(
                m@,
                no_session_text(),
            ) {
                self.after_session_miss(next, a)
            } else {
                self.finishes(next, a, Err(RouteError::Call(m)))
            },
            Event::BadReply(m) => self.finishes(next, a, Err(RouteError::Reply(m))),
            Event::SessionRoute(addr) => self.finishes(
                next,
                a,
                Ok(Some(Route { full_addr: addr, src: RouteSource::Session })),
            ),
            Event::Supernode(None) => self.finishes(next, a, Err(RouteError::NoSupernode)),
            Event::Supernode(Some(sn)) => match self.origin {
                None => {
                    &&& next == Resolver { stage: Stage::SelfAddress { snode: sn }, ..self }
                    &&& a == Action::QuerySelfAddress
                },
                Some(src) => self.query_node(sn, src, next, a),
            },
            Event::SelfAddress(src) => match self.stage {
                Stage::SelfAddress { snode } => self.query_node(snode, src, next, a),
                _ => false,
            },
            Event::NodeReply(r) => match self.stage {
                Stage::Node { dst } => match reply_fault(r) {
                    Some(err) => self.finishes(next, a, Err(err)),
                    None => {
                        &&& next.stage matches Stage::KeyCheck { dst: d, record }
                            && d == dst && decodes_to(r, record)
                            && a == Action::DeriveIp6 { pubkey: record.pubkey }
                        &&& next == Resolver { stage: next.stage, ..self }
                    },
                },
                _ => false,
            },
            Event::KeyAddress(derived) => match self.stage {
                Stage::KeyCheck { dst, record } => match snode_outcome(dst, record, derived) {
                    Ok(r) => self.finishes(next, a, Ok(Some(r))),
                    Err(err) => self.finishes(next, a, Err(err)),
                },
                _ => false,
            },
        }
    }

    /// Starts a resolution of `dest_ip` from `origin`, looking where `from`
    /// allows (both places when `None`, the session table first).
    pub fn new(
        dest_ip: Option<[u8; 16]>,
        origin: Option<Option<[u8; 16]>>,
        from: Option<ResolveFrom>,
    ) -> (out: (Resolver, Action))
        ensures
            out.0 == initial_resolver(dest_ip, origin, from),
            out.1 == first_action(from),
            out.0.wf(),
            out.0.dest_ip == dest_ip,
            out.0.origin == origin,
            out.0.from == from,
    {
        let only_snode = match from {
            Some(ResolveFrom::Snode) => true,
            _ => false,
        };
        if only_snode {
            (Resolver { dest_ip, origin, from, stage: Stage::Supernode }, Action::QuerySupernode)
        } else {
            (Resolver { dest_ip, origin, from, stage: Stage::Session }, Action::QuerySession)
        }
    }

    /// Goes on with the resolution after the caller reports `e`.
    pub fn step(self, e: Event) -> (out: (Resolver, Action))
        requires
            self.wf(),
            self.expects(e),
            !self.panics_on(e),
        ensures
            self.transition(e, out.0, out.1),
            out.0.wf(),
    {
        let Resolver { dest_ip, origin, from, stage } = self;
        match e {
            Event::CallFailed(m) => {
                let in_session = match stage {
                    Stage::Session => true,
                    _ => false,
                };
                if in_session && contains_text(m.as_str(), "no such session") {
                    if from.is_none() {
                        (
                            Resolver { dest_ip, origin, from, stage: Stage::Supernode },
                            Action::QuerySupernode,
                        )
                    } else {
                        (
                            Resolver { dest_ip, origin, from, stage: Stage::Done },
                            Action::Finish(Ok(None)),
                        )
                    }
                } else {
                    (
                        Resolver { dest_ip, origin, from, stage: Stage::Done },
                        Action::Finish(Err(RouteError::Call(m))),
                    )
                }
            },
            Event::BadReply(m) => (
                Resolver { dest_ip, origin, from, stage: Stage::Done },
                Action::Finish(Err(RouteError::Reply(m))),
            ),
            Event::SessionRoute(addr) => (
                Resolver { dest_ip, origin, from, stage: Stage::Done },
                Action::Finish(Ok(Some(Route { full_addr: addr, src: RouteSource::Session }))),
            ),
            Event::Supernode(None) => (
                Resolver { dest_ip, origin, from, stage: Stage::Done },
                Action::Finish(Err(RouteError::NoSupernode)),
            ),
            Event::Supernode(Some(sn)) => match origin {
                None => (
                    Resolver { dest_ip, origin, from, stage: Stage::SelfAddress { snode: sn } },
                    Action::QuerySelfAddress,
                ),
                Some(src) => Self::next_query(dest_ip, origin, from, sn, src),
            },
            Event::SelfAddress(src) => match stage {
                Stage::SelfAddress { snode } => Self::next_query(
                    dest_ip,
                    origin,
                    from,
                    snode,
                    src,
                ),
                _ => {
                    assert(false);
                    (
                        Resolver { dest_ip, origin, from, stage: Stage::Done },
                        Action::Finish(Ok(None)),
                    )
                },
            },
            Event::NodeReply(r) => match stage {
                Stage::Node { dst } => {
                    match decode_node_reply(r) {
                        Err(err) => (
                            Resolver { dest_ip, origin, from, stage: Stage::Done },
                            Action::Finish(Err(err)),
                        ),
                        Ok(record) => (
                            Resolver { dest_ip, origin, from, stage: Stage::KeyCheck { dst, record } },
                            Action::DeriveIp6 { pubkey: record.pubkey },
                        ),
                    }
                },
                _ => {
                    assert(false);
                    (
                        Resolver { dest_ip, origin, from, stage: Stage::Done },
                        Action::Finish(Ok(None)),
                    )
                },
            },
            Event::KeyAddress(derived) => match stage {
                Stage::KeyCheck { dst, record } => {
                    let outcome = match snode_route(dst, record, derived) {
                        Ok(r) => Ok(Some(r)),
                        Err(err) => Err(err),
                    };
                    (Resolver { dest_ip, origin, from, stage: Stage::Done }, Action::Finish(outcome))
                },
                _ => {
                    assert(false);
                    (
                        Resolver { dest_ip, origin, from, stage: Stage::Done },
                        Action::Finish(Ok(None)),
                    )
                },
            },
        }
    }

    /// Checks the destination and the origin, then asks for the node query.
    fn next_query(
        dest_ip: Option<[u8; 16]>,
        origin: Option<Option<[u8; 16]>>,
        from: Option<ResolveFrom>,
        snode: String,
        src: Option<[u8; 16]>,
    ) -> (out: (Resolver, Action))
        ensures
            (Resolver { dest_ip, origin, from, stage: Stage::Done }).query_node(
                snode,
                src,
                out.0,
                out.1,
            ),
    {
        match dest_ip {
            None => (
                Resolver { dest_ip, origin, from, stage: Stage::Done },
                Action::Finish(Err(RouteError::InvalidDest)),
            ),
            Some(d) => match src {
                None => (
                    Resolver { dest_ip, origin, from, stage: Stage::Done },
                    Action::Finish(Err(RouteError::InvalidSrc)),
                ),
                Some(s) => (
                    Resolver { dest_ip, origin, from, stage: Stage::Node { dst: d } },
                    Action::QueryNode { snode, src: s, dst: d },
                ),
            },
        }
    }
}


/// Every step keeps a resolution well formed.
pub proof fn lemma_transition_keeps_wf(s: Resolver, e: Event, next: Resolver, a: Action)
    requires
        s.wf(),
        s.expects(e),
        s.transition(e, next, a),
    ensures
        next.wf(),
{
}

/// Every step moves a resolution to a later stage, so that it finishes after
/// at most five events.
pub proof fn lemma_transition_progresses(s: Resolver, e: Event, next: Resolver, a: Action)
    requires
        s.expects(e),
        s.transition(e, next, a),
    ensures
        stage_rank(s.stage) < stage_rank(next.stage) <= 5,
        next.stage is Done <==> a is Finish,
{
}

/// A resolution finishes exactly when it asks for nothing more.
pub proof fn lemma_initial_not_finished(
    dest_ip: Option<[u8; 16]>,
    origin: Option<Option<[u8; 16]>>,
    from: Option<ResolveFrom>,
)
    ensures
        initial_resolver(dest_ip, origin, from).wf(),
        !(initial_resolver(dest_ip, origin, from).stage is Done),
        !(first_action(from) is Finish),
{
}

/// Looking only in the session table never asks the supernode: the first
/// action is the session lookup, and the answer to it ends the resolution.
pub proof fn lemma_session_only_never_asks_supernode(
    s: Resolver,
    e: Event,
    next: Resolver,
    a: Action,
)
    requires
        s.wf(),
        s.from == Some(ResolveFrom::Session),
        s.expects(e),
        s.transition(e, next, a),
    ensures
        first_action(s.from) == Action::QuerySession,
        a is Finish,
{
}

/// Looking only at the supernode never asks for a session, and never ends
/// without either a route or an error.
pub proof fn lemma_snode_only_never_asks_session(
    s: Resolver,
    e: Event,
    next: Resolver,
    a: Action,
)
    requires
        s.wf(),
        s.from == Some(ResolveFrom::Snode),
        s.expects(e),
        s.transition(e, next, a),
    ensures
        first_action(s.from) == Action::QuerySupernode,
        !(a is QuerySession),
        a != Action::Finish(Ok(None)),
{
}

/// A route found in the session table is the outcome at once, marked as
/// coming from the session.
pub proof fn lemma_session_route_is_final(
    s: Resolver,
    addr: NodeAddress,
    next: Resolver,
    a: Action,
)
    requires
        s.stage is Session,
        s.transition(Event::SessionRoute(addr), next, a),
    ensures
        a == Action::Finish(Ok(Some(Route { full_addr: addr, src: RouteSource::Session }))),
        next.stage is Done,
{
}

/// A resolution ends without a route only when it may look only in the
/// session table and the session lookup reported that there is no session.
pub proof fn lemma_no_route_only_when_session_only(
    s: Resolver,
    e: Event,
    next: Resolver,
    a: Action,
)
    requires
        s.wf(),
        s.expects(e),
        s.transition(e, next, a),
        a == Action::Finish(Ok(None)),
    ensures
        s.from == Some(ResolveFrom::Session),
        s.stage is Session,
        (e matches Event::CallFailed(m) && has_substring(m@, no_session_text())),
{
}

/// A route from the supernode is the node record that the supernode sent:
/// its key is the record's first 32 bytes, its label the next 8 read most
/// significant first (and not zero), its version the second protocol byte;
/// and the key's IPv6 is the destination that was asked for.
pub proof fn lemma_snode_route_is_the_record_for_dest(
    s: Resolver,
    reply: SnodeResponse,
    mid: Resolver,
    asked: Action,
    derived: Result<DerivedIp6, String>,
    last: Resolver,
    r: Route,
)
    requires
        s.wf(),
        s.stage is Node,
        s.transition(Event::NodeReply(reply), mid, asked),
        !mid.panics_on(Event::KeyAddress(derived)),
        mid.transition(Event::KeyAddress(derived), last, Action::Finish(Ok(Some(r)))),
    ensures
        asked == (Action::DeriveIp6 { pubkey: r.full_addr.pubkey }),
        r.src == RouteSource::Snode,
        r.full_addr.pubkey@ == record_bytes(reply).subrange(0, 32),
        record_bytes(reply).len() >= 40,
        r.full_addr.label as nat == be_value(record_bytes(reply).subrange(32, 40)),
        r.full_addr.label != 0,
        r.full_addr.version == protocol_bytes(reply)[1] as u16,
        (derived matches Ok(d) && s.dest_ip matches Some(dst) && d.octets@ == dst@),
{
}

/// Two node records read from the same response are the same record.
pub proof fn lemma_decode_unique(r: SnodeResponse, rec1: NodeRecord, rec2: NodeRecord)
    requires
        decodes_to(r, rec1),
        decodes_to(r, rec2),
    ensures
        rec1 == rec2,
{
    assert(rec1.pubkey =~= rec2.pubkey);
}

/// A resolution is deterministic: the same event leads to the same next
/// stage and the same action.
pub proof fn lemma_transition_deterministic(
    s: Resolver,
    e: Event,
    n1: Resolver,
    a1: Action,
    n2: Resolver,
    a2: Action,
)
    requires
        s.transition(e, n1, a1),
        s.transition(e, n2, a2),
    ensures
        n1 == n2,
        a1 == a2,
{
    match e {
        Event::NodeReply(r) => {
            if let Stage::Node { dst } = s.stage {
                if reply_fault(r) is None {
                    if let Stage::KeyCheck { dst: d1, record: rec1 } = n1.stage {
                        if let Stage::KeyCheck { dst: d2, record: rec2 } = n2.stage {
                            lemma_decode_unique(r, rec1, rec2);
                        }
                    }
                }
            }
        },
        _ => {},
    }
}

/// The supernode is asked after a session lookup only when both places may
/// be asked and the session lookup reported that there is no session.
pub proof fn lemma_supernode_only_after_session_miss(
    s: Resolver,
    e: Event,
    next: Resolver,
    a: Action,
)
    requires
        s.stage is Session,
        s.transition(e, next, a),
        a is QuerySupernode,
    ensures
        s.from is None,
        next.stage is Supernode,
        (e matches Event::CallFailed(m) && has_substring(m@, no_session_text())),
{
}

/// Once the key's IPv6 is the destination, any path label but zero is
/// accepted, whatever its width, and the route carries that label with the
/// record's key and version.
pub proof fn lemma_snode_label_accepted_iff_nonzero(
    dst: [u8; 16],
    record: NodeRecord,
    d: DerivedIp6,
    l: u64,
)
    requires
        d.octets@ == dst@,
        record.label == Some(l),
    ensures
        snode_outcome(dst, record, Ok(d)) is Ok <==> l != 0,
        l == 0 ==> snode_outcome(dst, record, Ok(d)) matches Err(RouteError::ZeroLabel),
        snode_outcome(dst, record, Ok(d)) matches Ok(r) ==> {
            &&& r.full_addr.label == l
            &&& r.full_addr.pubkey == record.pubkey
            &&& r.full_addr.version as int == record.version as int
            &&& r.src == RouteSource::Snode
        },
{
}

/// A key whose IPv6 is not the destination is refused whatever the label.
pub proof fn lemma_snode_foreign_key_refused(
    dst: [u8; 16],
    record: NodeRecord,
    d: DerivedIp6,
)
    requires
        d.octets@ != dst@,
    ensures
        snode_outcome(dst, record, Ok(d)) == Err::<Route, RouteError>(RouteError::WrongIp6(d.text)),
{
}

/// A resolution starts with the destination, origin and `from` it was given.
pub proof fn lemma_initial_keeps_arguments(
    dest_ip: Option<[u8; 16]>,
    origin: Option<Option<[u8; 16]>>,
    from: Option<ResolveFrom>,
)
    ensures
        initial_resolver(dest_ip, origin, from).dest_ip == dest_ip,
        initial_resolver(dest_ip, origin, from).origin == origin,
        initial_resolver(dest_ip, origin, from).from == from,
{
}

/// No step changes the destination, the origin or `from`.
pub proof fn lemma_transition_keeps_arguments(s: Resolver, e: Event, next: Resolver, a: Action)
    requires
        s.transition(e, next, a),
    ensures
        next.dest_ip == s.dest_ip,
        next.origin == s.origin,
        next.from == s.from,
{
}

/// When an origin was given, the supernode's answer leads straight to the
/// path query from that origin to the destination (the local node's own
/// address is not asked for).
pub proof fn lemma_supernode_answer_uses_given_origin(
    s: Resolver,
    snode: String,
    src: [u8; 16],
    dst: [u8; 16],
    next: Resolver,
    a: Action,
)
    requires
        s.stage is Supernode,
        s.origin == Some(Some(src)),
        s.dest_ip == Some(dst),
        s.transition(Event::Supernode(Some(snode)), next, a),
    ensures
        a == (Action::QueryNode { snode, src, dst }),
{
}

/// Resolving without `--from` from a given origin: after the session table
/// has no session and the supernode answers, the path is asked from the
/// given origin to the destination.
pub proof fn lemma_given_origin_reaches_node_query(
    dst: [u8; 16],
    src: [u8; 16],
    m: String,
    snode: String,
    s1: Resolver,
    a1: Action,
    s2: Resolver,
    a2: Action,
)
    requires
        has_substring(m@, no_session_text()),
        initial_resolver(Some(dst), Some(Some(src)), None).transition(Event::CallFailed(m), s1, a1),
        s1.transition(Event::Supernode(Some(snode)), s2, a2),
    ensures
        a1 == Action::QuerySupernode,
        a2 == (Action::QueryNode { snode, src, dst }),
{
    let s0 = initial_resolver(Some(dst), Some(Some(src)), None);
    lemma_initial_keeps_arguments(Some(dst), Some(Some(src)), None);
    lemma_transition_keeps_arguments(s0, Event::CallFailed(m), s1, a1);
    lemma_supernode_answer_uses_given_origin(s1, snode, src, dst, s2, a2);
}

} // verus!
