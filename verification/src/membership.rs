//! The list of swarm peers known by the local member, and how it changes.
use vstd::prelude::*;

use crate::member_info::{member_views, MemberInfo, SocketAddr};
use crate::observer::SwarmNotification;
use crate::protomitch;
use crate::protomitch_pb::{MitchMsg, ValueView};

verus! {

/// Whether some member in `s` has ID `id`.
pub open spec fn has_member(s: Seq<MemberInfo>, id: u32) -> bool {
    exists|i: int| 0 <= i < s.len() && #[trigger] s[i].id == id
}

/// Whether `i` is the first position in `s` of a member with ID `id`.
pub open spec fn is_first_position(s: Seq<MemberInfo>, id: u32, i: int) -> bool {
    &&& 0 <= i < s.len()
    &&& s[i].id == id
    &&& forall|j: int| 0 <= j < i ==> #[trigger] s[j].id != id
}

/// The first position in `s` of a member with ID `id` (when there is one).
pub open spec fn first_position(s: Seq<MemberInfo>, id: u32) -> int {
    choose|i: int| is_first_position(s, id, i)
}

/// Well-formed peer list: IDs are pairwise distinct and none is the local
/// member's.
pub open spec fn members_wf(s: Seq<MemberInfo>, local_id: u32) -> bool {
    &&& forall|i: int, j: int| 0 <= i < j < s.len() ==> #[trigger] s[i].id != #[trigger] s[j].id
    &&& forall|i: int| 0 <= i < s.len() ==> #[trigger] s[i].id != local_id
}

/// The peer list after member `mi` asks to join: unchanged when its ID is
/// already known or is the local member's, else `mi` is appended.
pub open spec fn joined(s: Seq<MemberInfo>, local_id: u32, mi: MemberInfo) -> Seq<MemberInfo> {
    if has_member(s, mi.id) || mi.id == local_id {
        s
    } else {
        s.push(mi)
    }
}

/// The peer list after member `id` failed: unchanged when no peer has that
/// ID, else the first such peer is replaced by the last peer, which is
/// removed from the end.
pub open spec fn removed(s: Seq<MemberInfo>, id: u32) -> Seq<MemberInfo> {
    if has_member(s, id) {
        let i = first_position(s, id);
        s.update(i, s.last()).drop_last()
    } else {
        s
    }
}

/// What a shutdown does: tell each of `targets` that the local member
/// failed, by sending `message`.
pub struct ShutdownPlan {
    /// Addresses of the peers to notify, in order.
    pub targets: Vec<SocketAddr>,
    /// Notification to send to each of them.
    pub message: MitchMsg,
}

/// A liveness probe of one peer.
pub struct ProbePlan {
    /// Address of the probed peer.
    pub target: SocketAddr,
    /// Milliseconds to wait for the answer.
    pub timeout_millis: u64,
    /// Probe to send.
    pub message: MitchMsg,
}

/// The first position of a member with ID `id`, if any.
pub fn position_of(members: &Vec<MemberInfo>, id: u32) -> (r: Option<usize>)
    ensures
        r matches Some(i) ==> is_first_position(members@, id, i as int),
        r is None ==> !has_member(members@, id),
{
    let mut i: usize = 0;
    while i < members.len()
        invariant
            i <= members@.len(),
            forall|j: int| 0 <= j < i ==> #[trigger] members@[j].id != id,
        decreases members@.len() - i,
    {
        if members[i].id == id {
            return Some(i);
        }
        i = i + 1;
    }
    None
}

/// `first_position` picks the first position, when there is one.
pub proof fn lemma_first_position(s: Seq<MemberInfo>, id: u32, i: int)
    requires
        is_first_position(s, id, i),
    ensures
        first_position(s, id) == i,
{
    let k = first_position(s, id);
    assert(is_first_position(s, id, k));
    if k < i {
        assert(s[k].id != id);
    } else if i < k {
        assert(s[i].id != id);
    }
}

/// Add member `mi` to the peers, unless it is already known or it is the
/// local member. Returns the notification for external observers: `Joined`
/// exactly when the member was added.
pub fn join(members: &mut Vec<MemberInfo>, local_member: &MemberInfo, mi: MemberInfo) -> (r: Option<
    SwarmNotification,
>)
    ensures
        final(members)@ == joined(old(members)@, local_member.id, mi),
        has_member(old(members)@, mi.id) || mi.id == local_member.id ==> r is None,
        !(has_member(old(members)@, mi.id) || mi.id == local_member.id) ==> (r matches Some(
            SwarmNotification::Joined(n),
        ) && n@ == mi@),
        members_wf(old(members)@, local_member.id) ==> members_wf(
            final(members)@,
            local_member.id,
        ),
{
    let joined_index = position_of(members, mi.id);
    if joined_index.is_some() || mi.id == local_member.id {
        return None;
    }
    let notification = SwarmNotification::Joined(mi.clone());
    members.push(mi);
    Some(notification)
}

/// Remove the peer with ID `id`, if any. Returns the notification for
/// external observers: `Failed(id)` exactly when a peer was removed.
pub fn failed(members: &mut Vec<MemberInfo>, id: u32) -> (r: Option<SwarmNotification>)
    ensures
        final(members)@ == removed(old(members)@, id),
        has_member(old(members)@, id) ==> r == Some(SwarmNotification::Failed(id)),
        !has_member(old(members)@, id) ==> r is None,
        forall|local_id: u32|
            members_wf(old(members)@, local_id) ==> #[trigger] members_wf(final(members)@, local_id),
{
    match position_of(members, id) {
        Some(index) => {
            proof {
                lemma_first_position(old(members)@, id, index as int);
            }
            members.swap_remove(index);
            Some(SwarmNotification::Failed(id))
        },
        None => None,
    }
}

/// Copies of `peers`, in order.
pub fn peers(known: &[MemberInfo]) -> (r: Vec<MemberInfo>)
    ensures
        member_views(r@) == member_views(known@),
{
    let mut r: Vec<MemberInfo> = Vec::new();
    let mut i: usize = 0;
    while i < known.len()
        invariant
            i <= known@.len(),
            r@.len() == i,
            forall|k: int| 0 <= k < i ==> (#[trigger] r@[k])@ == known@[k]@,
        decreases known@.len() - i,
    {
        r.push(known[i].clone());
        i = i + 1;
    }
    proof {
        assert(member_views(r@) =~= member_views(known@));
    }
    r
}

/// All current swarm members: copies of `peers`, then of the local member.
pub fn snapshot(peers: &[MemberInfo], local_member: &MemberInfo) -> (r: Vec<MemberInfo>)
    ensures
        member_views(r@) == member_views(peers@).push(local_member@),
{
    let mut members = self::peers(peers);
    let ghost before = members@;
    members.push(local_member.clone());
    proof {
        assert(member_views(members@) =~= member_views(before).push(local_member@));
    }
    members
}

/// How many of `n` members a pull request for `k` members is answered
/// with: all of them when `k` is 0 (no limit) or at least `n`, else `k`.
pub open spec fn pull_count(n: nat, k: u32) -> nat {
    if k == 0 || k >= n {
        n
    } else {
        k as nat
    }
}

/// The members that answer a pull request for `num_members` members: the
/// first `num_members` of `members` in order, or all of them when
/// `num_members` is 0 or exceeds their number.
pub fn pull_subset(members: &[MemberInfo], num_members: u32) -> (r: Vec<MemberInfo>)
    ensures
        member_views(r@) == member_views(members@).take(
            pull_count(members@.len(), num_members) as int,
        ),
{
    let n = members.len();
    let count: usize = if num_members == 0 || num_members as usize >= n {
        n
    } else {
        num_members as usize
    };
    let mut r: Vec<MemberInfo> = Vec::new();
    let mut i: usize = 0;
    while i < count
        invariant
            count <= members@.len(),
            count == pull_count(members@.len(), num_members),
            i <= count,
            r@.len() == i,
            forall|k: int| 0 <= k < i ==> (#[trigger] r@[k])@ == members@[k]@,
        decreases count - i,
    {
        r.push(members[i].clone());
        i = i + 1;
    }
    proof {
        assert(member_views(r@) =~= member_views(members@).take(count as int));
    }
    r
}

/// Tell every peer that the local member is shutting down: the addresses to
/// reach, and the failure notification carrying the local member's ID.
pub fn shutdown(peers: &[MemberInfo], local_member: &MemberInfo) -> (r: ShutdownPlan)
    ensures
        r.targets@ == peers@.map_values(|m: MemberInfo| m.target),
        r.message@ == Some(ValueView::Failed(local_member.id)),
{
    let mut targets: Vec<SocketAddr> = Vec::new();
    let mut i: usize = 0;
    while i < peers.len()
        invariant
            i <= peers@.len(),
            targets@.len() == i,
            forall|k: int| 0 <= k < i ==> #[trigger] targets@[k] == peers@[k].target,
        decreases peers@.len() - i,
    {
        targets.push(peers[i].target);
        i = i + 1;
    }
    proof {
        assert(targets@ =~= peers@.map_values(|m: MemberInfo| m.target));
    }
    ShutdownPlan { targets, message: protomitch::failed(local_member.id) }
}

/// Probe the peer at position `pick` modulo the number of peers, if there
/// is any peer.
pub fn probe(peers: &[MemberInfo], timeout_millis: u64, pick: u32) -> (r: Option<ProbePlan>)
    ensures
        peers@.len() == 0 <==> r is None,
        r matches Some(p) ==> {
            &&& p.target == peers@[pick as int % peers@.len() as int].target
            &&& p.timeout_millis == timeout_millis
            &&& p.message@ == Some(ValueView::Ping)
        },
{
    let n = peers.len();
    if n == 0 {
        return None;
    }
    let index = (pick as usize) % n;
    Some(ProbePlan { target: peers[index].target, timeout_millis, message: protomitch::ping() })
}


/// Law: a member that joins and then fails leaves the peer list exactly as
/// it was before it joined.
pub proof fn lemma_join_then_failed(s: Seq<MemberInfo>, local_id: u32, mi: MemberInfo)
    requires
        !has_member(s, mi.id),
        mi.id != local_id,
    ensures
        removed(joined(s, local_id, mi), mi.id) == s,
{
    let t = s.push(mi);
    assert(t[s.len() as int].id == mi.id);
    assert forall|j: int| 0 <= j < s.len() implies #[trigger] t[j].id != mi.id by {
        assert(t[j] == s[j]);
    }
    assert(is_first_position(t, mi.id, s.len() as int));
    lemma_first_position(t, mi.id, s.len() as int);
    assert(removed(t, mi.id) =~= s);
}

/// Law: joining twice is joining once.
pub proof fn lemma_join_idempotent(s: Seq<MemberInfo>, local_id: u32, mi: MemberInfo)
    ensures
        joined(joined(s, local_id, mi), local_id, mi) == joined(s, local_id, mi),
{
    if !(has_member(s, mi.id) || mi.id == local_id) {
        let t = s.push(mi);
        assert(t[s.len() as int].id == mi.id);
        assert(has_member(t, mi.id));
    }
}

/// Law: after member `mi` joins, some peer has its ID, unless it is the
/// local member's ID.
pub proof fn lemma_joined_is_member(s: Seq<MemberInfo>, local_id: u32, mi: MemberInfo)
    requires
        mi.id != local_id,
    ensures
        has_member(joined(s, local_id, mi), mi.id),
{
    if !has_member(s, mi.id) {
        let t = s.push(mi);
        assert(t[s.len() as int].id == mi.id);
    }
}

/// Law: after member `id` fails, no peer of a well-formed list has that ID,
/// and every other peer is still there, while nothing else is added.
pub proof fn lemma_failed_removes_only(s: Seq<MemberInfo>, local_id: u32, id: u32)
    requires
        members_wf(s, local_id),
    ensures
        !has_member(removed(s, id), id),
        forall|m: MemberInfo| s.contains(m) && m.id != id ==> #[trigger] removed(s, id).contains(m),
        forall|m: MemberInfo| #[trigger] removed(s, id).contains(m) ==> s.contains(m) && m.id != id,
        removed(s, id).len() == if has_member(s, id) { s.len() - 1 } else { s.len() as int },
{
    if has_member(s, id) {
        let i = first_position(s, id);
        let w = choose|k: int| 0 <= k < s.len() && #[trigger] s[k].id == id;
        assert(is_first_position(s, id, w)) by {
            assert forall|j: int| 0 <= j < w implies #[trigger] s[j].id != id by {
                assert(s[j].id != s[w].id);
            }
        }
        lemma_first_position(s, id, w);
        let r = removed(s, id);
        assert(r == s.update(i, s.last()).drop_last());
        assert forall|m: MemberInfo| s.contains(m) && m.id != id implies #[trigger] r.contains(m) by {
            let k = choose|k: int| 0 <= k < s.len() && s[k] == m;
            if k == s.len() - 1 {
                assert(r[i] == m);
            } else {
                assert(k != i);
                assert(r[k] == m);
            }
        }
        assert forall|m: MemberInfo| #[trigger] r.contains(m) implies s.contains(m) && m.id != id by {
            let k = choose|k: int| 0 <= k < r.len() && r[k] == m;
            if k == i {
                assert(s[s.len() - 1] == m);
                assert(s.len() - 1 != i);
            } else {
                assert(s[k] == m);
            }
        }
        assert forall|k: int| 0 <= k < r.len() implies #[trigger] r[k].id != id by {
            if k == i {
                assert(s.len() - 1 != i);
                assert(s[s.len() - 1].id != s[i].id);
            } else {
                assert(r[k] == s[k]);
                if k < i {
                } else {
                    assert(s[k].id != s[i].id);
                }
            }
        }
    }
}


/// Joining keeps a peer list well formed.
pub proof fn lemma_joined_wf(s: Seq<MemberInfo>, local_id: u32, mi: MemberInfo)
    requires
        members_wf(s, local_id),
    ensures
        members_wf(joined(s, local_id, mi), local_id),
{
    if !(has_member(s, mi.id) || mi.id == local_id) {
        let t = s.push(mi);
        assert forall|i: int, j: int| 0 <= i < j < t.len() implies #[trigger] t[i].id
            != #[trigger] t[j].id by {
            if j == s.len() {
                assert(t[i] == s[i]);
                if s[i].id == mi.id {
                    assert(has_member(s, mi.id));
                }
            } else {
                assert(t[i] == s[i] && t[j] == s[j]);
            }
        }
        assert forall|i: int| 0 <= i < t.len() implies #[trigger] t[i].id != local_id by {
            if i < s.len() {
                assert(t[i] == s[i]);
            }
        }
    }
}

/// Whether a peer has ID `id` after member `mi` asks to join a well-formed
/// list: yes for `mi`'s own ID unless it is the local one, else as before.
pub proof fn lemma_joined_presence(s: Seq<MemberInfo>, local_id: u32, mi: MemberInfo, id: u32)
    requires
        members_wf(s, local_id),
    ensures
        has_member(joined(s, local_id, mi), id) == if id == mi.id {
            id != local_id
        } else {
            has_member(s, id)
        },
{
    if has_member(s, mi.id) || mi.id == local_id {
        if id == mi.id && has_member(s, id) {
            let k = choose|k: int| 0 <= k < s.len() && #[trigger] s[k].id == id;
            assert(s[k].id != local_id);
        }
    } else {
        let t = s.push(mi);
        if id == mi.id {
            assert(t[s.len() as int].id == mi.id);
        } else {
            if has_member(s, id) {
                let k = choose|k: int| 0 <= k < s.len() && #[trigger] s[k].id == id;
                assert(t[k] == s[k]);
            }
            if has_member(t, id) {
                let k = choose|k: int| 0 <= k < t.len() && #[trigger] t[k].id == id;
                assert(k < s.len());
                assert(t[k] == s[k]);
            }
        }
    }
}

/// Removing a failed member keeps a peer list well formed.
pub proof fn lemma_removed_wf(s: Seq<MemberInfo>, local_id: u32, id: u32)
    requires
        members_wf(s, local_id),
    ensures
        members_wf(removed(s, id), local_id),
{
    if has_member(s, id) {
        let w = choose|k: int| 0 <= k < s.len() && #[trigger] s[k].id == id;
        assert(is_first_position(s, id, w)) by {
            assert forall|j: int| 0 <= j < w implies #[trigger] s[j].id != id by {
                assert(s[j].id != s[w].id);
            }
        }
        lemma_first_position(s, id, w);
        let i = w;
        let r = s.update(i, s.last()).drop_last();
        assert(removed(s, id) == r);
        let last = s.len() - 1;
        assert forall|a: int, b: int| 0 <= a < b < r.len() implies #[trigger] r[a].id
            != #[trigger] r[b].id by {
            let pa = if a == i { last } else { a };
            let pb = if b == i { last } else { b };
            assert(r[a] == s[pa]);
            assert(r[b] == s[pb]);
            assert(pa != pb);
            if pa < pb {
                assert(s[pa].id != s[pb].id);
            } else {
                assert(s[pb].id != s[pa].id);
            }
        }
        assert forall|a: int| 0 <= a < r.len() implies #[trigger] r[a].id != local_id by {
            let pa = if a == i { last } else { a };
            assert(r[a] == s[pa]);
        }
    }
}

/// Whether a peer has ID `other` after member `id` failed, in a
/// well-formed list: no for `id` itself, else as before.
pub proof fn lemma_removed_presence(s: Seq<MemberInfo>, local_id: u32, id: u32, other: u32)
    requires
        members_wf(s, local_id),
    ensures
        has_member(removed(s, id), other) == if other == id {
            false
        } else {
            has_member(s, other)
        },
{
    lemma_failed_removes_only(s, local_id, id);
    let r = removed(s, id);
    if other != id {
        if has_member(s, other) {
            let k = choose|k: int| 0 <= k < s.len() && #[trigger] s[k].id == other;
            assert(s.contains(s[k]));
            assert(r.contains(s[k]));
            let j = choose|j: int| 0 <= j < r.len() && r[j] == s[k];
            assert(r[j].id == other);
        }
        if has_member(r, other) {
            let k = choose|k: int| 0 <= k < r.len() && #[trigger] r[k].id == other;
            assert(r.contains(r[k]));
            assert(s.contains(r[k]));
            let j = choose|j: int| 0 <= j < s.len() && s[j] == r[k];
            assert(s[j].id == other);
        }
    }
}


/// Law: a member whose ID is neither known nor the local one is appended to
/// the peer list, exactly as given, after the peers already there; a member
/// whose ID is known, or is the local one, leaves the list as it is.
pub proof fn lemma_joined_appends(s: Seq<MemberInfo>, local_id: u32, mi: MemberInfo)
    ensures
        (forall|k: int| 0 <= k < s.len() ==> #[trigger] s[k].id != mi.id) && mi.id != local_id ==> {
            &&& joined(s, local_id, mi).len() == s.len() + 1
            &&& joined(s, local_id, mi)[s.len() as int] == mi
            &&& forall|k: int| 0 <= k < s.len() ==> #[trigger] joined(s, local_id, mi)[k] == s[k]
        },
        (exists|k: int| 0 <= k < s.len() && #[trigger] s[k].id == mi.id) || mi.id == local_id
            ==> joined(s, local_id, mi) == s,
{
}

/// Law: when a peer has the failed ID, the list loses one peer: the first
/// peer with that ID is overwritten by the last peer, and every other
/// position keeps its peer; otherwise the list is unchanged.
pub proof fn lemma_removed_layout(s: Seq<MemberInfo>, id: u32, i: int)
    requires
        0 <= i < s.len(),
        s[i].id == id,
        forall|j: int| 0 <= j < i ==> #[trigger] s[j].id != id,
    ensures
        removed(s, id).len() == s.len() - 1,
        i < s.len() - 1 ==> removed(s, id)[i] == s[s.len() - 1],
        forall|k: int| 0 <= k < s.len() - 1 && k != i ==> #[trigger] removed(s, id)[k] == s[k],
{
    assert(has_member(s, id));
    lemma_first_position(s, id, i);
}

/// Law: a failure of an ID that no peer has leaves the list as it is.
pub proof fn lemma_removed_absent(s: Seq<MemberInfo>, id: u32)
    requires
        forall|k: int| 0 <= k < s.len() ==> #[trigger] s[k].id != id,
    ensures
        removed(s, id) == s,
{
}

/// Law: a pull for `k` of `n` members is answered with exactly `k` members
/// when `0 < k < n`, and with all `n` when `k` is 0 or at least `n`.
pub proof fn lemma_pull_count(n: nat, k: u32)
    ensures
        0 < k < n ==> pull_count(n, k) == k,
        k == 0 ==> pull_count(n, k) == n,
        k >= n ==> pull_count(n, k) == n,
        pull_count(n, k) <= n,
{
}

} // verus!
