//! Swarm configuration, and the handling of the messages that members
//! exchange.
use vstd::prelude::*;

use crate::errors::Error;
use crate::member_info::{member_views, spec_localhost_any_port, MemberInfo, SocketAddr};
use crate::observer::SwarmNotification;
use crate::protomitch::{
    self, join_msgs_of, member_at, member_of_join, members_of_joins, valid_address,
};
use crate::protomitch_pb::mitch_msg::Value;
use crate::protomitch_pb::{join_views, JoinMsg, JoinMsgView, MitchMsg, ValueView};
use crate::reactor::Event;

verus! {

/// Server-side TLS configuration (`native_tls::TlsAcceptor`), carried through.
#[verifier::external_type_specification]
#[verifier::external_body]
pub struct ExTlsAcceptor(native_tls::TlsAcceptor);

/// Client-side TLS configuration (`native_tls::TlsConnector`), carried through.
#[verifier::external_type_specification]
#[verifier::external_body]
pub struct ExTlsConnector(native_tls::TlsConnector);

/// TCP listener (`tokio::net::TcpListener`), carried through.
#[verifier::external_type_specification]
#[verifier::external_body]
pub struct ExTcpListener(tokio::net::TcpListener);

/// Sending half of a channel (`futures::sync::mpsc::Sender`), carried through.
#[verifier::external_type_specification]
#[verifier::external_body]
#[verifier::reject_recursive_types(T)]
pub struct ExSender<T>(::futures::sync::mpsc::Sender<T>);

/// Configuration builder for a swarm member.
pub struct MitchConfig {
    listener: Option<tokio::net::TcpListener>,
    local: MemberInfo,
    protocol_period_secs: u64,
    tls_acceptor: Option<native_tls::TlsAcceptor>,
    tls_connector: Option<native_tls::TlsConnector>,
    notifications_tx: Option<::futures::sync::mpsc::Sender<SwarmNotification>>,
}

/// A complete configuration, ready to start a swarm member.
pub struct SwarmSetup {
    /// Custom TCP listener, if any.
    pub listener: Option<tokio::net::TcpListener>,
    /// The local member.
    pub local: MemberInfo,
    /// Protocol period, in seconds.
    pub protocol_period_secs: u64,
    /// Server-side TLS configuration.
    pub tls_acceptor: native_tls::TlsAcceptor,
    /// Client-side TLS configuration.
    pub tls_connector: native_tls::TlsConnector,
    /// Channel for notifications about swarm changes, if any.
    pub notifications_tx: Option<::futures::sync::mpsc::Sender<SwarmNotification>>,
}

impl MitchConfig {
    /// Custom TCP listener.
    pub closed spec fn listener_spec(self) -> Option<tokio::net::TcpListener> {
        self.listener
    }

    /// The local member.
    pub closed spec fn local_spec(self) -> MemberInfo {
        self.local
    }

    /// Protocol period, in seconds.
    pub closed spec fn period_spec(self) -> u64 {
        self.protocol_period_secs
    }

    /// Server-side TLS configuration.
    pub closed spec fn tls_acceptor_spec(self) -> Option<native_tls::TlsAcceptor> {
        self.tls_acceptor
    }

    /// Client-side TLS configuration.
    pub closed spec fn tls_connector_spec(self) -> Option<native_tls::TlsConnector> {
        self.tls_connector
    }

    /// Notification channel.
    pub closed spec fn notifications_spec(self) -> Option<
        ::futures::sync::mpsc::Sender<SwarmNotification>,
    > {
        self.notifications_tx
    }

    /// Set metadata to be advertised by local member; refused when larger
    /// than `MemberInfo::MAX_METADATA`.
    pub fn local_metadata(self, metadata: Vec<u8>) -> (r: Result<Self, Error>)
        ensures
            metadata@.len() > MemberInfo::MAX_METADATA ==> r == Err::<Self, Error>(
                Error::MetadataTooLarge,
            ),
            metadata@.len() <= MemberInfo::MAX_METADATA ==> (r matches Ok(c) && c.local_spec() == (
            MemberInfo { metadata, ..self.local_spec() }) && c.listener_spec()
                == self.listener_spec() && c.period_spec() == self.period_spec()
                && c.tls_acceptor_spec() == self.tls_acceptor_spec() && c.tls_connector_spec()
                == self.tls_connector_spec() && c.notifications_spec()
                == self.notifications_spec()),
    {
        if metadata.len() > MemberInfo::MAX_METADATA {
            return Err(Error::MetadataTooLarge);
        }
        let mut cfg = self;
        cfg.local.metadata = metadata;
        Ok(cfg)
    }

    /// Set a custom TCP listener.
    pub fn listener(self, listener: Option<tokio::net::TcpListener>) -> (r: Self)
        ensures
            r.listener_spec() == listener,
            r.local_spec() == self.local_spec(),
            r.period_spec() == self.period_spec(),
            r.tls_acceptor_spec() == self.tls_acceptor_spec(),
            r.tls_connector_spec() == self.tls_connector_spec(),
            r.notifications_spec() == self.notifications_spec(),
    {
        let mut cfg = self;
        cfg.listener = listener;
        cfg
    }

    /// Set a custom TLS acceptor (with server certificate).
    pub fn tls_acceptor(self, tls_acceptor: Option<native_tls::TlsAcceptor>) -> (r: Self)
        ensures
            r.tls_acceptor_spec() == tls_acceptor,
            r.listener_spec() == self.listener_spec(),
            r.local_spec() == self.local_spec(),
            r.period_spec() == self.period_spec(),
            r.tls_connector_spec() == self.tls_connector_spec(),
            r.notifications_spec() == self.notifications_spec(),
    {
        let mut cfg = self;
        cfg.tls_acceptor = tls_acceptor;
        cfg
    }

    /// Set a custom TLS connector (with client certificate).
    pub fn tls_connector(self, tls_connector: Option<native_tls::TlsConnector>) -> (r: Self)
        ensures
            r.tls_connector_spec() == tls_connector,
            r.listener_spec() == self.listener_spec(),
            r.local_spec() == self.local_spec(),
            r.period_spec() == self.period_spec(),
            r.tls_acceptor_spec() == self.tls_acceptor_spec(),
            r.notifications_spec() == self.notifications_spec(),
    {
        let mut cfg = self;
        cfg.tls_connector = tls_connector;
        cfg
    }

    /// Set a channel where to receive notifications about swarm changes.
    pub fn notifications_channel(
        self,
        tx: Option<::futures::sync::mpsc::Sender<SwarmNotification>>,
    ) -> (r: Self)
        ensures
            r.notifications_spec() == tx,
            r.listener_spec() == self.listener_spec(),
            r.local_spec() == self.local_spec(),
            r.period_spec() == self.period_spec(),
            r.tls_acceptor_spec() == self.tls_acceptor_spec(),
            r.tls_connector_spec() == self.tls_connector_spec(),
    {
        let mut cfg = self;
        cfg.notifications_tx = tx;
        cfg
    }

    /// Finalize the configuration: both TLS sides are required, the client
    /// side being checked first.
    pub fn build(self) -> (r: Result<SwarmSetup, Error>)
        ensures
            self.tls_connector_spec() is None ==> r == Err::<SwarmSetup, Error>(
                Error::ClientTlsMissing,
            ),
            self.tls_connector_spec() is Some && self.tls_acceptor_spec() is None ==> r == Err::<
                SwarmSetup,
                Error,
            >(Error::ServerTlsMissing),
            self.tls_connector_spec() is Some && self.tls_acceptor_spec() is Some ==> (r matches Ok(
                s,
            ) && s.listener == self.listener_spec() && s.local == self.local_spec()
                && s.protocol_period_secs == self.period_spec() && Some(s.tls_acceptor)
                == self.tls_acceptor_spec() && Some(s.tls_connector) == self.tls_connector_spec()
                && s.notifications_tx == self.notifications_spec()),
    {
        let tls_connector = match self.tls_connector {
            Some(tc) => tc,
            None => {
                return Err(Error::ClientTlsMissing);
            },
        };
        let tls_acceptor = match self.tls_acceptor {
            Some(ta) => ta,
            None => {
                return Err(Error::ServerTlsMissing);
            },
        };
        Ok(
            SwarmSetup {
                listener: self.listener,
                local: self.local,
                protocol_period_secs: self.protocol_period_secs,
                tls_acceptor,
                tls_connector,
                notifications_tx: self.notifications_tx,
            },
        )
    }
}

impl Default for MitchConfig {
    /// No listener, TLS configuration nor notification channel; a new local
    /// member with a random identity; a protocol period of one second.
    fn default() -> (r: Self)
        ensures
            r.listener_spec() is None,
            r.tls_acceptor_spec() is None,
            r.tls_connector_spec() is None,
            r.notifications_spec() is None,
            r.period_spec() == 1,
            r.local_spec().min_proto == crate::MIN_PROTO,
            r.local_spec().max_proto == crate::MAX_PROTO,
            r.local_spec().target == spec_localhost_any_port(),
            r.local_spec().metadata@ == Seq::<u8>::empty(),
            r.local_spec().nickname@.len() > 0,
    {
        MitchConfig {
            listener: None,
            notifications_tx: None,
            local: MemberInfo::default(),
            protocol_period_secs: 1,
            tls_acceptor: None,
            tls_connector: None,
        }
    }
}

/// The join messages of `v`, last first.
fn reversed(v: Vec<JoinMsg>) -> (r: Vec<JoinMsg>)
    ensures
        r@.len() == v@.len(),
        forall|k: int| 0 <= k < r@.len() ==> (#[trigger] r@[k])@ == v@[v@.len() - 1 - k]@,
{
    let ghost orig = v@;
    let mut v = v;
    let mut r: Vec<JoinMsg> = Vec::new();
    while v.len() > 0
        invariant
            v@.len() + r@.len() == orig.len(),
            forall|k: int| 0 <= k < v@.len() ==> #[trigger] v@[k] == orig[k],
            forall|k: int| 0 <= k < r@.len() ==> (#[trigger] r@[k])@ == orig[orig.len() - 1 - k]@,
        decreases v@.len(),
    {
        let ghost before = v@;
        let j = v.pop().unwrap();
        proof {
            assert(j == orig[v@.len() as int]);
        }
        r.push(j);
        proof {
            assert forall|k: int| 0 <= k < v@.len() implies #[trigger] v@[k] == orig[k] by {
                assert(v@[k] == before[k]);
            }
        }
    }
    r
}

/// What to do with an incoming message.
pub enum Dispatch {
    /// Forward these events to the membership reactor, in order.
    Forward(Vec<Event>),
    /// Take a snapshot of the swarm members from the reactor, and answer the
    /// peer with the sync message that announces as many of them as it asked
    /// for (0 meaning all; see `membership::pull_subset`).
    AnswerPull(u32),
}

/// The events that a sync message forwards: one join per announced member,
/// each at the loopback address with port 0.
pub open spec fn sync_events_match(events: Seq<Event>, members: Seq<JoinMsgView>) -> bool {
    &&& events.len() == members.len()
    &&& forall|i: int|
        0 <= i < events.len() ==> (#[trigger] events[i] matches Event::Join(m) && m@ == member_at(
            members[i],
            spec_localhost_any_port(),
        ))
}

/// Decide what an incoming message asks for. `peer` is the address of the
/// remote end of the connection, when it is known; a join message needs it,
/// as the joining member is recorded at that address.
pub fn dispatch(msg: MitchMsg, peer: Option<SocketAddr>) -> (r: Result<Dispatch, Error>)
    ensures
        match msg@ {
            None => r == Err::<Dispatch, Error>(Error::DispatchNoneValue),
            Some(ValueView::Ping) => r matches Ok(Dispatch::Forward(v)) && v@.len() == 0,
            Some(ValueView::Failed(id)) => r matches Ok(Dispatch::Forward(v)) && v@ == seq![
                Event::Failed(id),
            ],
            Some(ValueView::Join(j)) => match peer {
                None => r == Err::<Dispatch, Error>(Error::PeerAddressUnavailable),
                Some(p) => r matches Ok(Dispatch::Forward(v)) && v@.len() == 1 && (
                v@[0] matches Event::Join(m) && m@ == member_at(j, p)),
            },
            Some(ValueView::Pull(k)) => r matches Ok(Dispatch::AnswerPull(n)) && n == k,
            Some(ValueView::Sync(ms)) => r matches Ok(Dispatch::Forward(v)) && sync_events_match(
                v@,
                ms,
            ),
        },
{
    let value = match msg.value {
        None => {
            return Err(Error::DispatchNoneValue);
        },
        Some(value) => value,
    };
    match value {
        Value::Failed(m) => {
            let mut events: Vec<Event> = Vec::new();
            events.push(Event::Failed(m.id));
            proof {
                assert(events@ =~= seq![Event::Failed(m.id)]);
            }
            Ok(Dispatch::Forward(events))
        },
        Value::Join(m) => {
            let target = match peer {
                None => {
                    return Err(Error::PeerAddressUnavailable);
                },
                Some(p) => p,
            };
            let mut events: Vec<Event> = Vec::new();
            events.push(Event::Join(protomitch::member_from_join(m, target)));
            Ok(Dispatch::Forward(events))
        },
        Value::Ping(_) => Ok(Dispatch::Forward(Vec::new())),
        Value::Pull(p) => Ok(Dispatch::AnswerPull(p.num_members)),
        Value::Sync(m) => {
            let ghost ms = join_views(m.members@);
            let mut events: Vec<Event> = Vec::new();
            let mut rest = reversed(m.members);
            while rest.len() > 0
                invariant
                    events@.len() + rest@.len() == ms.len(),
                    forall|k: int|
                        0 <= k < rest@.len() ==> (#[trigger] rest@[k])@ == ms[ms.len() - 1 - k],
                    forall|i: int|
                        0 <= i < events@.len() ==> (#[trigger] events@[i] matches Event::Join(mm)
                            && mm@ == member_at(ms[i], spec_localhost_any_port())),
                decreases rest@.len(),
            {
                let ghost before = rest@;
                let j = rest.pop().unwrap();
                proof {
                    assert(j@ == ms[events@.len() as int]);
                }
                events.push(
                    Event::Join(protomitch::member_from_join(j, crate::member_info::localhost_any_port())),
                );
                proof {
                    assert forall|k: int| 0 <= k < rest@.len() implies (#[trigger] rest@[k])@
                        == ms[ms.len() - 1 - k] by {
                        assert(rest@[k] == before[k]);
                    }
                }
            }
            Ok(Dispatch::Forward(events))
        },
    }
}


/// The members announced by the answer to a pull request, each at the
/// address it announces; any other answer than a sync message is refused.
pub fn sync_reply_members(msg: MitchMsg) -> (r: Result<Vec<MemberInfo>, Error>)
    requires
        msg@ matches Some(ValueView::Sync(ms)) ==> forall|i: int|
            0 <= i < ms.len() ==> valid_address(#[trigger] ms[i].address),
    ensures
        match msg@ {
            Some(ValueView::Sync(ms)) => r matches Ok(v) && member_views(v@) == members_of_joins(ms),
            _ => r == Err::<Vec<MemberInfo>, Error>(Error::UnexpectedReply),
        },
{
    let sync = match msg.value {
        Some(Value::Sync(s)) => s,
        _ => {
            return Err(Error::UnexpectedReply);
        },
    };
    let ghost ms = join_views(sync.members@);
    proof {
        assert(msg@ == Some(ValueView::Sync(ms)));
        assert forall|i: int| 0 <= i < ms.len() implies valid_address(#[trigger] ms[i].address) by {
            assert(msg@ matches Some(ValueView::Sync(xs)) && valid_address(xs[i].address));
        }
    }
    let mut rest = reversed(sync.members);
    let mut members: Vec<MemberInfo> = Vec::new();
    while rest.len() > 0
        invariant
            members@.len() + rest@.len() == ms.len(),
            forall|i: int| 0 <= i < ms.len() ==> valid_address(#[trigger] ms[i].address),
            forall|k: int| 0 <= k < rest@.len() ==> (#[trigger] rest@[k])@ == ms[ms.len() - 1 - k],
            forall|i: int| 0 <= i < members@.len() ==> (#[trigger] members@[i])@ == member_of_join(ms[i]),
        decreases rest@.len(),
    {
        let ghost before = rest@;
        let j = rest.pop().unwrap();
        proof {
            assert(j@ == ms[members@.len() as int]);
            assert(valid_address(ms[members@.len() as int].address));
        }
        members.push(protomitch::join_info(j));
        proof {
            assert forall|k: int| 0 <= k < rest@.len() implies (#[trigger] rest@[k])@
                == ms[ms.len() - 1 - k] by {
                assert(rest@[k] == before[k]);
            }
        }
    }
    proof {
        assert(member_views(members@) =~= members_of_joins(ms));
    }
    Ok(members)
}

/// Law: the members that a sync message announces are read back unchanged
/// from it, for every member whose address survives decoding.
pub proof fn lemma_sync_roundtrip(members: Seq<MemberInfo>)
    requires
        forall|i: int|
            0 <= i < members.len() ==> protomitch::address_survives_decoding(
                #[trigger] members[i].target.ip,
            ),
    ensures
        forall|i: int|
            0 <= i < members.len() ==> valid_address(
                #[trigger] join_msgs_of(members)[i].address,
            ),
        members_of_joins(join_msgs_of(members)) == member_views(members),
{
    let js = join_msgs_of(members);
    assert forall|i: int| 0 <= i < members.len() implies valid_address(#[trigger] js[i].address)
        && member_of_join(js[i]) == members[i]@ by {
        protomitch::lemma_join_info_roundtrip(members[i]@);
    }
    assert(members_of_joins(js) =~= member_views(members));
}

/// Law: a member announced by a join message is recorded as it announced
/// itself, at the address where its connection comes from.
pub proof fn lemma_join_dispatch(info: MemberInfo, peer: SocketAddr)
    ensures
        member_at(protomitch::join_msg_of(info@), peer) == (crate::member_info::MemberInfoView {
            target: peer,
            ..info@
        }),
{
}


/// Law: the events forwarded for a sync message are one join per announced
/// member, in order, each carrying that member's ID, nickname, protocol
/// versions and metadata unchanged, at the IPv4 loopback address with port 0.
pub proof fn lemma_sync_events_fields(events: Seq<Event>, members: Seq<JoinMsgView>)
    requires
        sync_events_match(events, members),
    ensures
        events.len() == members.len(),
        forall|i: int|
            0 <= i < events.len() ==> (#[trigger] events[i] matches Event::Join(m) && {
                &&& m.id == members[i].id
                &&& m.nickname@ == members[i].nickname
                &&& m.min_proto == members[i].min_proto
                &&& m.max_proto == members[i].max_proto
                &&& m.metadata@ == members[i].metadata
                &&& m.target.port == 0
                &&& m.target.ip matches crate::member_info::IpAddr::V4(a) && a[0] == 127 && a[1]
                    == 0 && a[2] == 0 && a[3] == 1
            }),
{
    assert forall|i: int| 0 <= i < events.len() implies (#[trigger] events[i] matches Event::Join(m)
        && {
        &&& m.id == members[i].id
        &&& m.nickname@ == members[i].nickname
        &&& m.min_proto == members[i].min_proto
        &&& m.max_proto == members[i].max_proto
        &&& m.metadata@ == members[i].metadata
        &&& m.target.port == 0
        &&& m.target.ip matches crate::member_info::IpAddr::V4(a) && a[0] == 127 && a[1] == 0
            && a[2] == 0 && a[3] == 1
    }) by {
        let m = events[i]->Join_0;
        protomitch::lemma_member_at_fields(members[i], spec_localhost_any_port());
        assert(m@ == member_at(members[i], spec_localhost_any_port()));
        let arr = [127u8, 0u8, 0u8, 1u8];
        assert(arr[0] == 127 && arr[1] == 0 && arr[2] == 0 && arr[3] == 1);
    }
}

/// Law: a join message dispatched from a known peer address forwards one
/// join of the announced member, carrying its ID, nickname, protocol
/// versions and metadata unchanged, at that peer address.
pub proof fn lemma_join_event_fields(j: JoinMsgView, peer: SocketAddr, m: MemberInfo)
    requires
        m@ == member_at(j, peer),
    ensures
        m.id == j.id,
        m.nickname@ == j.nickname,
        m.min_proto == j.min_proto,
        m.max_proto == j.max_proto,
        m.metadata@ == j.metadata,
        m.target == peer,
{
}

} // verus!
