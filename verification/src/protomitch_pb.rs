//! Messages of the mitch wire protocol.
use vstd::prelude::*;

pub mod mitch_msg;

use self::mitch_msg::Value;

verus! {

/// Envelope of every message exchanged by swarm members.
#[derive(Debug)]
pub struct MitchMsg {
    /// The message itself (absent in an empty envelope).
    pub value: Option<Value>,
}

/// Liveness probe.
#[derive(Debug)]
pub struct PingMsg {}

/// Notification that a member failed and left the swarm.
#[derive(Debug)]
pub struct FailedMsg {
    /// ID of the failed member.
    pub id: u32,
}

/// Identity of a member joining the swarm.
#[derive(Debug)]
pub struct JoinMsg {
    /// Member ID.
    pub id: u32,
    /// Member nickname.
    pub nickname: String,
    /// Octets of the member's IP address (4 for IPv4, 16 for IPv6).
    pub address: Vec<u8>,
    /// Member TCP port.
    pub port: u32,
    /// Minimum protocol version supported by the member.
    pub min_proto: u32,
    /// Maximum protocol version supported by the member.
    pub max_proto: u32,
    /// Metadata bytes advertised by the member.
    pub metadata: Vec<u8>,
}

/// Request for (a subset of) the swarm members.
#[derive(Debug)]
pub struct PullMsg {
    /// Number of members requested (0 means all members).
    pub num_members: u32,
}

/// Set of swarm members, answering a pull request.
#[derive(Debug)]
pub struct SyncMsg {
    /// The members.
    pub members: Vec<JoinMsg>,
}

/// Model of a `JoinMsg`.
pub struct JoinMsgView {
    /// Member ID.
    pub id: u32,
    /// Member nickname.
    pub nickname: Seq<char>,
    /// IP address octets.
    pub address: Seq<u8>,
    /// TCP port.
    pub port: u32,
    /// Minimum protocol version.
    pub min_proto: u32,
    /// Maximum protocol version.
    pub max_proto: u32,
    /// Metadata bytes.
    pub metadata: Seq<u8>,
}

impl View for JoinMsg {
    type V = JoinMsgView;

    open spec fn view(&self) -> JoinMsgView {
        JoinMsgView {
            id: self.id,
            nickname: self.nickname@,
            address: self.address@,
            port: self.port,
            min_proto: self.min_proto,
            max_proto: self.max_proto,
            metadata: self.metadata@,
        }
    }
}

/// The models of a sequence of join messages, in order.
pub open spec fn join_views(s: Seq<JoinMsg>) -> Seq<JoinMsgView> {
    s.map_values(|j: JoinMsg| j@)
}

/// Law: the models of a sequence of join messages come one for one, in
/// order.
pub proof fn lemma_join_views_order(s: Seq<JoinMsg>)
    ensures
        join_views(s).len() == s.len(),
        forall|i: int| 0 <= i < s.len() ==> #[trigger] join_views(s)[i] == s[i]@,
{
}

/// Model of a message value.
pub enum ValueView {
    /// Liveness probe.
    Ping,
    /// Failed member, by ID.
    Failed(u32),
    /// Joining member.
    Join(JoinMsgView),
    /// Pull request, with the number of members requested.
    Pull(u32),
    /// Sync answer, with its members.
    Sync(Seq<JoinMsgView>),
}

impl View for Value {
    type V = ValueView;

    open spec fn view(&self) -> ValueView {
        match self {
            Value::Ping(_) => ValueView::Ping,
            Value::Failed(m) => ValueView::Failed(m.id),
            Value::Join(m) => ValueView::Join(m@),
            Value::Pull(m) => ValueView::Pull(m.num_members),
            Value::Sync(m) => ValueView::Sync(join_views(m.members@)),
        }
    }
}

impl View for MitchMsg {
    type V = Option<ValueView>;

    open spec fn view(&self) -> Option<ValueView> {
        match self.value {
            Some(v) => Some(v@),
            None => None,
        }
    }
}

} // verus!
