//! Decisions of the membership reactor: the task that owns the peer list
//! and serves every membership event, one at a time.
use vstd::prelude::*;

use crate::member_info::{member_views, random_u32, MemberInfo};
use crate::membership::{self, has_member, joined, members_wf, removed, ProbePlan, ShutdownPlan};
use crate::observer::SwarmNotification;
use crate::protomitch_pb::ValueView;

verus! {

/// Event served by the membership reactor.
#[derive(Debug)]
pub enum Event {
    /// Notification, a failed member is leaving the swarm.
    Failed(u32),
    /// Notification, a new member is joining the swarm.
    Join(MemberInfo),
    /// Request, all swarm peers (*not* including this node).
    Peers,
    /// Request, all swarm members (including this node).
    Snapshot,
    /// Notification, local swarm member is shutting down.
    Shutdown,
    /// Request, probe a random peer from the swarm (with timeout, in milliseconds).
    Probe(u64),
}

/// What the reactor's driver must do after an event.
pub enum Action {
    /// Nothing.
    Nothing,
    /// Deliver this notification to external observers, if any listens.
    Notify(SwarmNotification),
    /// Answer the request with these members.
    Reply(Vec<MemberInfo>),
    /// Notify every peer of the shutdown, then acknowledge it.
    Shutdown(ShutdownPlan),
    /// Probe one peer.
    Probe(ProbePlan),
}

/// The peer list after event `e`: a join or a failure changes it, every
/// other event leaves it as it is.
pub open spec fn peers_after_event(s: Seq<MemberInfo>, local_id: u32, e: Event) -> Seq<MemberInfo> {
    match e {
        Event::Failed(id) => removed(s, id),
        Event::Join(mi) => joined(s, local_id, mi),
        _ => s,
    }
}

/// The peer list after the events `evs`, in order, from `s`.
pub open spec fn peers_after_events(s: Seq<MemberInfo>, local_id: u32, evs: Seq<Event>) -> Seq<
    MemberInfo,
>
    decreases evs.len(),
{
    if evs.len() == 0 {
        s
    } else {
        peers_after_event(peers_after_events(s, local_id, evs.drop_last()), local_id, evs.last())
    }
}

/// Whether a peer with ID `id` is known after the events `evs`, from `s`:
/// decided by the last join or failure of that ID (a join counts unless the
/// ID is the local member's); without one, as in `s`.
pub open spec fn present_after_events(s: Seq<MemberInfo>, local_id: u32, evs: Seq<Event>, id: u32) -> bool
    decreases evs.len(),
{
    if evs.len() == 0 {
        has_member(s, id)
    } else {
        match evs.last() {
            Event::Join(mi) => if mi.id == id {
                id != local_id
            } else {
                present_after_events(s, local_id, evs.drop_last(), id)
            },
            Event::Failed(x) => if x == id {
                false
            } else {
                present_after_events(s, local_id, evs.drop_last(), id)
            },
            _ => present_after_events(s, local_id, evs.drop_last(), id),
        }
    }
}

/// Law: over any sequence of events served from a well-formed peer list,
/// the list stays well formed, and a peer is known exactly when the last
/// join or failure of its ID was a join (and the ID is not the local one),
/// or, without such an event, when it was known at the start.
pub proof fn lemma_reactor_run(s: Seq<MemberInfo>, local_id: u32, evs: Seq<Event>)
    requires
        members_wf(s, local_id),
    ensures
        members_wf(peers_after_events(s, local_id, evs), local_id),
        forall|id: u32|
            #[trigger] has_member(peers_after_events(s, local_id, evs), id)
                == present_after_events(s, local_id, evs, id),
    decreases evs.len(),
{
    if evs.len() > 0 {
        let prefix = evs.drop_last();
        lemma_reactor_run(s, local_id, prefix);
        let p = peers_after_events(s, local_id, prefix);
        match evs.last() {
            Event::Join(mi) => {
                membership::lemma_joined_wf(p, local_id, mi);
                assert forall|id: u32|
                    #[trigger] has_member(peers_after_events(s, local_id, evs), id)
                        == present_after_events(s, local_id, evs, id) by {
                    membership::lemma_joined_presence(p, local_id, mi, id);
                }
            },
            Event::Failed(x) => {
                membership::lemma_removed_wf(p, local_id, x);
                assert forall|id: u32|
                    #[trigger] has_member(peers_after_events(s, local_id, evs), id)
                        == present_after_events(s, local_id, evs, id) by {
                    membership::lemma_removed_presence(p, local_id, x, id);
                }
            },
            _ => {
                assert forall|id: u32|
                    #[trigger] has_member(peers_after_events(s, local_id, evs), id)
                        == present_after_events(s, local_id, evs, id) by {
                    assert(has_member(p, id) == present_after_events(s, local_id, prefix, id));
                }
            },
        }
    }
}

/// Law: a join changes the peer list as `joined` says, a failure as
/// `removed` says, and every request leaves it exactly as it is.
pub proof fn lemma_events_touching_peers(s: Seq<MemberInfo>, local_id: u32, mi: MemberInfo, id: u32, t: u64)
    ensures
        peers_after_event(s, local_id, Event::Join(mi)) == joined(s, local_id, mi),
        peers_after_event(s, local_id, Event::Failed(id)) == removed(s, id),
        peers_after_event(s, local_id, Event::Peers) == s,
        peers_after_event(s, local_id, Event::Snapshot) == s,
        peers_after_event(s, local_id, Event::Shutdown) == s,
        peers_after_event(s, local_id, Event::Probe(t)) == s,
{
}

/// State of the membership reactor: the local member and its peers.
pub struct Reactor {
    local: MemberInfo,
    members: Vec<MemberInfo>,
}

impl Reactor {
    /// The peer list is always well formed.
    #[verifier::type_invariant]
    spec fn inv(self) -> bool {
        members_wf(self.members@, self.local.id)
    }

    /// The local member.
    pub closed spec fn local_spec(self) -> MemberInfo {
        self.local
    }

    /// The known peers, in order.
    pub closed spec fn peers_spec(self) -> Seq<MemberInfo> {
        self.members@
    }

    /// A reactor for local member `local`, with no peer yet.
    pub fn new(local: MemberInfo) -> (r: Reactor)
        ensures
            r.local_spec() == local,
            r.peers_spec() == Seq::<MemberInfo>::empty(),
            members_wf(r.peers_spec(), r.local_spec().id),
    {
        Reactor { local, members: Vec::new() }
    }

    /// The local member.
    pub fn local_member(&self) -> (r: &MemberInfo)
        ensures
            *r == self.local_spec(),
    {
        &self.local
    }

    /// The known peers, in order.
    pub fn peers(&self) -> (r: &[MemberInfo])
        ensures
            r@ == self.peers_spec(),
    {
        self.members.as_slice()
    }

    /// Serve one event.
    pub fn step(&mut self, event: Event) -> (a: Action)
        ensures
            final(self).local_spec() == old(self).local_spec(),
            members_wf(final(self).peers_spec(), final(self).local_spec().id),
            final(self).peers_spec() == peers_after_event(
                old(self).peers_spec(),
                old(self).local_spec().id,
                event,
            ),
            match event {
                Event::Failed(id) => {
                    &&& final(self).peers_spec() == removed(old(self).peers_spec(), id)
                    &&& membership::has_member(old(self).peers_spec(), id) ==> a == Action::Notify(
                        SwarmNotification::Failed(id),
                    )
                    &&& !membership::has_member(old(self).peers_spec(), id) ==> a is Nothing
                },
                Event::Join(mi) => {
                    let known = membership::has_member(old(self).peers_spec(), mi.id) || mi.id
                        == old(self).local_spec().id;
                    &&& final(self).peers_spec() == joined(
                        old(self).peers_spec(),
                        old(self).local_spec().id,
                        mi,
                    )
                    &&& known ==> a is Nothing
                    &&& !known ==> (a matches Action::Notify(SwarmNotification::Joined(n)) && n@
                        == mi@)
                },
                Event::Peers => {
                    &&& final(self).peers_spec() == old(self).peers_spec()
                    &&& a matches Action::Reply(v) && member_views(v@) == member_views(
                        old(self).peers_spec(),
                    )
                },
                Event::Snapshot => {
                    &&& final(self).peers_spec() == old(self).peers_spec()
                    &&& a matches Action::Reply(v) && member_views(v@) == member_views(
                        old(self).peers_spec(),
                    ).push(old(self).local_spec()@)
                },
                Event::Shutdown => {
                    &&& final(self).peers_spec() == old(self).peers_spec()
                    &&& a matches Action::Shutdown(p) && p.targets@ == old(
                        self,
                    ).peers_spec().map_values(|m: MemberInfo| m.target) && p.message@ == Some(
                        ValueView::Failed(old(self).local_spec().id),
                    )
                },
                Event::Probe(timeout) => {
                    &&& final(self).peers_spec() == old(self).peers_spec()
                    &&& old(self).peers_spec().len() == 0 ==> a is Nothing
                    &&& old(self).peers_spec().len() > 0 ==> (a matches Action::Probe(p) && exists|
                        k: int,
                    |
                        0 <= k < old(self).peers_spec().len() && p.target == old(
                            self,
                        ).peers_spec()[k].target && p.timeout_millis == timeout && p.message@
                            == Some(ValueView::Ping))
                },
            },
    {
        proof {
            use_type_invariant(&*self);
        }
        match event {
            Event::Failed(id) => {
                let mut members = Vec::new();
                std::mem::swap(&mut members, &mut self.members);
                let r = membership::failed(&mut members, id);
                self.members = members;
                match r {
                    Some(n) => Action::Notify(n),
                    None => Action::Nothing,
                }
            },
            Event::Join(mi) => {
                let mut members = Vec::new();
                std::mem::swap(&mut members, &mut self.members);
                let r = membership::join(&mut members, &self.local, mi);
                self.members = members;
                match r {
                    Some(n) => Action::Notify(n),
                    None => Action::Nothing,
                }
            },
            Event::Peers => Action::Reply(membership::peers(self.members.as_slice())),
            Event::Snapshot => Action::Reply(
                membership::snapshot(self.members.as_slice(), &self.local),
            ),
            Event::Shutdown => Action::Shutdown(
                membership::shutdown(self.members.as_slice(), &self.local),
            ),
            Event::Probe(timeout) => {
                let pick = random_u32();
                match membership::probe(self.members.as_slice(), timeout, pick) {
                    Some(p) => Action::Probe(p),
                    None => Action::Nothing,
                }
            },
        }
    }
}

} // verus!
