//! Construction, framing and interpretation of mitch protocol messages.
//!
//! On the wire each message is a frame: a 32-bit unsigned length in
//! network byte order, followed by that many bytes of protobuf body.
use vstd::prelude::*;

use byteorder::{ByteOrder, NetworkEndian};

use crate::errors::Error;
use crate::member_info::{IpAddr, MemberInfo, MemberInfoView, SocketAddr};
use crate::protomitch_pb::mitch_msg::Value;
use crate::protomitch_pb::{
    join_views, FailedMsg, JoinMsg, JoinMsgView, MitchMsg, PingMsg, PullMsg, SyncMsg, ValueView,
};

verus! {

/// The four bytes of `n` in network byte order (most significant first).
pub open spec fn be_u32_bytes(n: u32) -> Seq<u8> {
    seq![
        (n / 0x100_0000) as u8,
        ((n / 0x1_0000) % 0x100) as u8,
        ((n / 0x100) % 0x100) as u8,
        (n % 0x100) as u8,
    ]
}

/// The number that the first four bytes of `b` encode in network byte order.
pub open spec fn be_u32_value(b: Seq<u8>) -> int {
    b[0] * 0x100_0000 + b[1] * 0x1_0000 + b[2] * 0x100 + b[3]
}

/// A frame holding `body`: its length as four bytes in network order, then `body`.
pub open spec fn framed(body: Seq<u8>) -> Seq<u8> {
    be_u32_bytes(body.len() as u32) + body
}

/// `n` in network byte order.
///
/// Calls `byteorder::NetworkEndian::write_u32` on a four-byte buffer,
/// which stores `n.to_be_bytes()` in it.
#[verifier::external_body]
fn network_u32_bytes(n: u32) -> (r: [u8; 4])
    ensures
        r@ == be_u32_bytes(n),
{
    let mut buf = [0u8; 4];
    NetworkEndian::write_u32(&mut buf, n);
    buf
}

/// The number that the first four bytes of `buf` encode in network byte order.
///
/// Calls `byteorder::NetworkEndian::read_u32`, which is
/// `u32::from_be_bytes` of the first four bytes and panics on a shorter
/// buffer.
#[verifier::external_body]
fn network_u32_read(buf: &[u8]) -> (r: u32)
    requires
        buf@.len() >= 4,
    ensures
        r == be_u32_value(buf@),
{
    NetworkEndian::read_u32(buf)
}

/// Frame an encoded protobuf body: prefix it with its length, as a 32-bit
/// unsigned integer in network byte order.
pub fn encode(body: &[u8]) -> (r: Result<Vec<u8>, Error>)
    ensures
        body@.len() >= u32::MAX ==> r == Err::<Vec<u8>, Error>(Error::OverlongProtobuf),
        body@.len() < u32::MAX && body@.len() + 4 > usize::MAX ==> r == Err::<Vec<u8>, Error>(
            Error::OverlongMessage,
        ),
        body@.len() < u32::MAX && body@.len() + 4 <= usize::MAX ==> r is Ok && r->Ok_0@ == framed(
            body@,
        ),
{
    let msglen = body.len();
    if msglen >= 0xffff_ffffusize {
        return Err(Error::OverlongProtobuf);
    }
    let payload_len = match msglen.checked_add(4) {
        Some(val) => val,
        None => {
            return Err(Error::OverlongMessage);
        },
    };
    let mut payload: Vec<u8> = Vec::with_capacity(payload_len);
    let header = network_u32_bytes(msglen as u32);
    payload.push(header[0]);
    payload.push(header[1]);
    payload.push(header[2]);
    payload.push(header[3]);
    let mut i: usize = 0;
    while i < msglen
        invariant
            msglen == body@.len(),
            i <= msglen,
            payload@ == header@ + body@.subrange(0, i as int),
        decreases msglen - i,
    {
        payload.push(body[i]);
        i = i + 1;
        proof {
            assert(payload@ =~= header@ + body@.subrange(0, i as int));
        }
    }
    proof {
        assert(body@.subrange(0, msglen as int) =~= body@);
        assert(payload@ =~= framed(body@));
    }
    Ok(payload)
}

/// Length of the protobuf body announced by a frame header.
pub fn frame_len(header: &[u8]) -> (r: u32)
    requires
        header@.len() >= 4,
    ensures
        r == be_u32_value(header@),
{
    network_u32_read(header)
}

/// Reading back the four bytes of `n` in network order gives `n`.
pub proof fn lemma_be_u32_roundtrip(n: u32)
    ensures
        be_u32_value(be_u32_bytes(n)) == n,
        be_u32_bytes(n).len() == 4,
{
    let b = be_u32_bytes(n);
    assert(b[0] == (n / 0x100_0000) as u8);
    assert(b[1] == ((n / 0x1_0000) % 0x100) as u8);
    assert(b[2] == ((n / 0x100) % 0x100) as u8);
    assert(b[3] == (n % 0x100) as u8);
    assert(((n / 0x100_0000) as u8) as int * 0x100_0000 + (((n / 0x1_0000) % 0x100) as u8) as int
        * 0x1_0000 + (((n / 0x100) % 0x100) as u8) as int * 0x100 + ((n % 0x100) as u8) as int
        == n) by (bit_vector);
}

/// Law: the header of a frame announces the length of its body, and the
/// body follows the header unchanged.
pub proof fn lemma_frame_roundtrip(body: Seq<u8>)
    requires
        body.len() < u32::MAX,
    ensures
        framed(body).len() == body.len() + 4,
        be_u32_value(framed(body)) == body.len(),
        framed(body).subrange(4, framed(body).len() as int) == body,
{
    lemma_be_u32_roundtrip(body.len() as u32);
    let f = framed(body);
    assert(f[0] == be_u32_bytes(body.len() as u32)[0]);
    assert(f[1] == be_u32_bytes(body.len() as u32)[1]);
    assert(f[2] == be_u32_bytes(body.len() as u32)[2]);
    assert(f[3] == be_u32_bytes(body.len() as u32)[3]);
    assert(f.subrange(4, f.len() as int) =~= body);
}


/// The octets of an IP address (4 for IPv4, 16 for IPv6).
pub open spec fn address_octets(ip: IpAddr) -> Seq<u8> {
    match ip {
        IpAddr::V4(a) => a@,
        IpAddr::V6(a) => a@,
    }
}

/// Whether `address` has the length of an IPv4 or an IPv6 address.
pub open spec fn valid_address(address: Seq<u8>) -> bool {
    address.len() == 4 || address.len() == 16
}

/// The IP address that `join_info` reads from address octets.
///
/// Octets of another length than 4 give an IPv6 address; such octets are
/// never read (see `valid_address`). For an IPv6 address, octet 12 is read
/// in place of octet 13 as well.
pub open spec fn ip_from_octets(a: Seq<u8>) -> IpAddr {
    if a.len() == 4 {
        IpAddr::V4([a[0], a[1], a[2], a[3]])
    } else {
        IpAddr::V6(
            [
                a[0],
                a[1],
                a[2],
                a[3],
                a[4],
                a[5],
                a[6],
                a[7],
                a[8],
                a[9],
                a[10],
                a[11],
                a[12],
                a[12],
                a[14],
                a[15],
            ],
        )
    }
}

/// The join message announcing member `m`.
pub open spec fn join_msg_of(m: MemberInfoView) -> JoinMsgView {
    JoinMsgView {
        id: m.id,
        nickname: m.nickname,
        address: address_octets(m.target.ip),
        port: m.target.port as u32,
        min_proto: m.min_proto,
        max_proto: m.max_proto,
        metadata: m.metadata,
    }
}

/// The join messages announcing each of `members`, in order.
pub open spec fn join_msgs_of(members: Seq<MemberInfo>) -> Seq<JoinMsgView> {
    members.map_values(|m: MemberInfo| join_msg_of(m@))
}

/// The members that `join_info` reads from each of `js`, in order.
pub open spec fn members_of_joins(js: Seq<JoinMsgView>) -> Seq<MemberInfoView> {
    js.map_values(|j: JoinMsgView| member_of_join(j))
}

/// The member that a join message announces, reachable at `target`.
pub open spec fn member_at(j: JoinMsgView, target: SocketAddr) -> MemberInfoView {
    MemberInfoView {
        id: j.id,
        nickname: j.nickname,
        min_proto: j.min_proto,
        max_proto: j.max_proto,
        target,
        metadata: j.metadata,
    }
}

/// The address that a join message announces (the port is truncated to 16 bits).
pub open spec fn announced_target(j: JoinMsgView) -> SocketAddr {
    SocketAddr { ip: ip_from_octets(j.address), port: j.port as u16 }
}

/// The member that `join_info` reads from a join message.
pub open spec fn member_of_join(j: JoinMsgView) -> MemberInfoView {
    member_at(j, announced_target(j))
}

/// The octets of an IP address, in a new vector.
pub fn address_bytes(ip: &IpAddr) -> (r: Vec<u8>)
    ensures
        r@ == address_octets(*ip),
{
    let mut r: Vec<u8> = Vec::new();
    match ip {
        IpAddr::V4(a) => {
            let mut i: usize = 0;
            while i < 4
                invariant
                    i <= 4,
                    r@ == a@.subrange(0, i as int),
                decreases 4 - i,
            {
                r.push(a[i]);
                i = i + 1;
                proof {
                    assert(r@ =~= a@.subrange(0, i as int));
                }
            }
            proof {
                assert(r@ =~= a@);
            }
        },
        IpAddr::V6(a) => {
            let mut i: usize = 0;
            while i < 16
                invariant
                    i <= 16,
                    r@ == a@.subrange(0, i as int),
                decreases 16 - i,
            {
                r.push(a[i]);
                i = i + 1;
                proof {
                    assert(r@ =~= a@.subrange(0, i as int));
                }
            }
            proof {
                assert(r@ =~= a@);
            }
        },
    }
    r
}

/// The join message announcing `info`.
pub fn join_msg(info: &MemberInfo) -> (r: JoinMsg)
    ensures
        r@ == join_msg_of(info@),
{
    JoinMsg {
        id: info.id,
        nickname: info.nickname.clone(),
        address: address_bytes(&info.target.ip),
        port: info.target.port as u32,
        min_proto: info.min_proto,
        max_proto: info.max_proto,
        metadata: crate::member_info::copy_bytes(&info.metadata),
    }
}

/// A liveness probe.
pub fn ping() -> (r: MitchMsg)
    ensures
        r@ == Some(ValueView::Ping),
{
    MitchMsg { value: Some(Value::Ping(PingMsg {  })) }
}

/// Announce member `info` to the swarm.
pub fn join(info: &MemberInfo) -> (r: MitchMsg)
    ensures
        r@ == Some(ValueView::Join(join_msg_of(info@))),
{
    MitchMsg { value: Some(Value::Join(join_msg(info))) }
}

/// Request a subset of swarm members; `None` means all members.
pub fn pull(num_members: Option<u32>) -> (r: MitchMsg)
    ensures
        r@ == Some(
            ValueView::Pull(
                match num_members {
                    Some(n) => n,
                    None => 0,
                },
            ),
        ),
{
    let n = match num_members {
        Some(n) => n,
        None => 0,
    };
    MitchMsg { value: Some(Value::Pull(PullMsg { num_members: n })) }
}

/// Notification that member `id` failed and left the swarm.
pub fn failed(id: u32) -> (r: MitchMsg)
    ensures
        r@ == Some(ValueView::Failed(id)),
{
    MitchMsg { value: Some(Value::Failed(FailedMsg { id })) }
}

/// A sync answer announcing each of `members`, in order.
pub fn sync(members: &[MemberInfo]) -> (r: MitchMsg)
    ensures
        r@ == Some(ValueView::Sync(join_msgs_of(members@))),
{
    let mut infos: Vec<JoinMsg> = Vec::new();
    let mut i: usize = 0;
    while i < members.len()
        invariant
            i <= members@.len(),
            infos@.len() == i,
            forall|k: int| 0 <= k < i ==> (#[trigger] infos@[k])@ == join_msg_of(members@[k]@),
        decreases members@.len() - i,
    {
        let j = join_msg(&members[i]);
        infos.push(j);
        i = i + 1;
    }
    proof {
        assert(join_views(infos@) =~= join_msgs_of(members@));
    }
    MitchMsg { value: Some(Value::Sync(SyncMsg { members: infos })) }
}

/// The IP address held by address octets of a valid length.
pub fn ip_from_bytes(address: &Vec<u8>) -> (r: IpAddr)
    requires
        valid_address(address@),
    ensures
        r == ip_from_octets(address@),
{
    if address.len() == 4 {
        IpAddr::V4([address[0], address[1], address[2], address[3]])
    } else {
        IpAddr::V6(
            [
                address[0],
                address[1],
                address[2],
                address[3],
                address[4],
                address[5],
                address[6],
                address[7],
                address[8],
                address[9],
                address[10],
                address[11],
                address[12],
                address[12],
                address[14],
                address[15],
            ],
        )
    }
}

/// The member that a join message announces, reachable at `target`.
pub fn member_from_join(msg: JoinMsg, target: SocketAddr) -> (r: MemberInfo)
    ensures
        r@ == member_at(msg@, target),
{
    MemberInfo {
        id: msg.id,
        nickname: msg.nickname,
        min_proto: msg.min_proto,
        max_proto: msg.max_proto,
        target,
        metadata: msg.metadata,
    }
}

/// The member that a join message announces, at the address and port it
/// announces.
pub fn join_info(msg: JoinMsg) -> (r: MemberInfo)
    requires
        valid_address(msg.address@),
    ensures
        r@ == member_of_join(msg@),
{
    let ip = ip_from_bytes(&msg.address);
    let port = msg.port as u16;
    member_from_join(msg, SocketAddr { ip, port })
}


/// Whether `ip_from_octets` reads back the octets of `ip`: always for an
/// IPv4 address, and for an IPv6 address whose octets 12 and 13 are equal.
pub open spec fn address_survives_decoding(ip: IpAddr) -> bool {
    match ip {
        IpAddr::V4(_) => true,
        IpAddr::V6(a) => a[12] == a[13],
    }
}

/// Law: reading the member out of the join message that announces it gives
/// back the member, for every address whose octets survive decoding.
pub proof fn lemma_join_info_roundtrip(m: MemberInfoView)
    requires
        address_survives_decoding(m.target.ip),
    ensures
        valid_address(join_msg_of(m).address),
        member_of_join(join_msg_of(m)) == m,
{
    let j = join_msg_of(m);
    match m.target.ip {
        IpAddr::V4(a) => {
            let b = [a@[0], a@[1], a@[2], a@[3]];
            assert(b =~= a);
            assert(ip_from_octets(j.address) == IpAddr::V4(b));
        },
        IpAddr::V6(a) => {
            let b = [
                a@[0],
                a@[1],
                a@[2],
                a@[3],
                a@[4],
                a@[5],
                a@[6],
                a@[7],
                a@[8],
                a@[9],
                a@[10],
                a@[11],
                a@[12],
                a@[12],
                a@[14],
                a@[15],
            ];
            assert(b =~= a);
            assert(ip_from_octets(j.address) == IpAddr::V6(b));
        },
    }
    assert(announced_target(j) == m.target);
}


/// Law: the four bytes of `n` in network order are each below 256, most
/// significant first, and weigh back to `n`.
pub proof fn lemma_be_u32_bytes_weights(n: u32)
    ensures
        be_u32_bytes(n).len() == 4,
        be_u32_bytes(n)[0] as int * 16777216 + be_u32_bytes(n)[1] as int * 65536
            + be_u32_bytes(n)[2] as int * 256 + be_u32_bytes(n)[3] as int == n as int,
        be_u32_bytes(n)[0] as int == n as int / 16777216,
        be_u32_bytes(n)[3] as int == n as int % 256,
{
    lemma_be_u32_roundtrip(n);
    assert(((n / 0x100_0000) as u8) as int == n as int / 16777216) by (bit_vector);
    assert(((n % 0x100) as u8) as int == n as int % 256) by (bit_vector);
}

/// Law: a frame is its body's length in four bytes, most significant
/// first, followed by the body.
pub proof fn lemma_framed_layout(body: Seq<u8>)
    requires
        body.len() < u32::MAX,
    ensures
        framed(body).len() == body.len() + 4,
        framed(body)[0] as int * 16777216 + framed(body)[1] as int * 65536 + framed(body)[2] as int
            * 256 + framed(body)[3] as int == body.len(),
        forall|i: int| 0 <= i < body.len() ==> #[trigger] framed(body)[i + 4] == body[i],
{
    lemma_be_u32_bytes_weights(body.len() as u32);
    let f = framed(body);
    assert(f[0] == be_u32_bytes(body.len() as u32)[0]);
    assert(f[1] == be_u32_bytes(body.len() as u32)[1]);
    assert(f[2] == be_u32_bytes(body.len() as u32)[2]);
    assert(f[3] == be_u32_bytes(body.len() as u32)[3]);
}

/// Law: the join message announcing a member carries its ID, nickname,
/// protocol versions, port and metadata unchanged, and the octets of its IP
/// address in order (4 for IPv4, 16 for IPv6).
pub proof fn lemma_join_msg_fields(m: MemberInfoView)
    ensures
        join_msg_of(m).id == m.id,
        join_msg_of(m).nickname == m.nickname,
        join_msg_of(m).min_proto == m.min_proto,
        join_msg_of(m).max_proto == m.max_proto,
        join_msg_of(m).port == m.target.port as u32,
        join_msg_of(m).metadata == m.metadata,
        m.target.ip matches IpAddr::V4(a) ==> join_msg_of(m).address.len() == 4 && forall|i: int|
            0 <= i < 4 ==> #[trigger] join_msg_of(m).address[i] == a[i],
        m.target.ip matches IpAddr::V6(a) ==> join_msg_of(m).address.len() == 16 && forall|i: int|
            0 <= i < 16 ==> #[trigger] join_msg_of(m).address[i] == a[i],
{
}

/// Law: the join messages of a sync announce the members one for one, in
/// order.
pub proof fn lemma_join_msgs_of_order(members: Seq<MemberInfo>)
    ensures
        join_msgs_of(members).len() == members.len(),
        forall|i: int|
            0 <= i < members.len() ==> #[trigger] join_msgs_of(members)[i] == join_msg_of(
                members[i]@,
            ),
{
}

/// Law: the IP address read from address octets keeps them in order: all
/// 4 of an IPv4 address; for an IPv6 address all 16 but octet 13, which is
/// read as a copy of octet 12.
pub proof fn lemma_ip_from_octets_fields(a: Seq<u8>)
    requires
        valid_address(a),
    ensures
        a.len() == 4 ==> (ip_from_octets(a) matches IpAddr::V4(b) && forall|i: int|
            0 <= i < 4 ==> #[trigger] b[i] == a[i]),
        a.len() == 16 ==> (ip_from_octets(a) matches IpAddr::V6(b) && b[13] == a[12] && forall|
            i: int,
        | 0 <= i < 16 && i != 13 ==> #[trigger] b[i] == a[i]),
{
}

/// Law: the member read from a join message at a target carries the
/// message's ID, nickname, protocol versions and metadata unchanged; only
/// its address is the target. The address a join message announces has the
/// announced port, truncated to 16 bits.
pub proof fn lemma_member_at_fields(j: JoinMsgView, target: SocketAddr)
    ensures
        member_at(j, target).id == j.id,
        member_at(j, target).nickname == j.nickname,
        member_at(j, target).min_proto == j.min_proto,
        member_at(j, target).max_proto == j.max_proto,
        member_at(j, target).metadata == j.metadata,
        member_at(j, target).target == target,
        announced_target(j).port as int == j.port as int % 65536,
        announced_target(j).ip == ip_from_octets(j.address),
        member_of_join(j).target == announced_target(j),
        member_of_join(j).id == j.id && member_of_join(j).metadata == j.metadata,
{
    let p = j.port;
    assert((p as u16) as int == p as int % 65536) by (bit_vector);
}

/// Law: the members read back from join messages come one for one, in
/// order.
pub proof fn lemma_members_of_joins_order(js: Seq<JoinMsgView>)
    ensures
        members_of_joins(js).len() == js.len(),
        forall|i: int| 0 <= i < js.len() ==> #[trigger] members_of_joins(js)[i] == member_of_join(js[i]),
{
}

} // verus!
