//! Identity of swarm members.
use vstd::prelude::*;

verus! {

/// An IP address, given by its octets.
#[derive(Clone, Copy, Debug)]
pub enum IpAddr {
    /// IPv4 address.
    V4([u8; 4]),
    /// IPv6 address.
    V6([u8; 16]),
}

/// A socket address: an IP address and a port.
#[derive(Clone, Copy, Debug)]
pub struct SocketAddr {
    /// IP address.
    pub ip: IpAddr,
    /// TCP port.
    pub port: u16,
}

/// The IPv4 loopback address with port 0, where a new member starts.
pub open spec fn spec_localhost_any_port() -> SocketAddr {
    SocketAddr { ip: IpAddr::V4([127u8, 0u8, 0u8, 1u8]), port: 0 }
}

/// The IPv4 loopback address with port 0.
pub fn localhost_any_port() -> (r: SocketAddr)
    ensures
        r == spec_localhost_any_port(),
{
    SocketAddr { ip: IpAddr::V4([127u8, 0u8, 0u8, 1u8]), port: 0 }
}

/// Identity of a swarm member.
#[derive(Debug)]
pub struct MemberInfo {
    /// Member ID.
    pub id: u32,
    /// Human-friendly nickname.
    pub nickname: String,
    /// Minimum protocol version supported by the member.
    pub min_proto: u32,
    /// Maximum protocol version supported by the member.
    pub max_proto: u32,
    /// Address where the member can be reached.
    pub target: SocketAddr,
    /// Metadata bytes advertised by the member.
    pub metadata: Vec<u8>,
}

/// Mathematical model of a `MemberInfo`.
pub struct MemberInfoView {
    /// Member ID.
    pub id: u32,
    /// Nickname, as characters.
    pub nickname: Seq<char>,
    /// Minimum protocol version.
    pub min_proto: u32,
    /// Maximum protocol version.
    pub max_proto: u32,
    /// Address of the member.
    pub target: SocketAddr,
    /// Metadata bytes.
    pub metadata: Seq<u8>,
}

impl View for MemberInfo {
    type V = MemberInfoView;

    open spec fn view(&self) -> MemberInfoView {
        MemberInfoView {
            id: self.id,
            nickname: self.nickname@,
            min_proto: self.min_proto,
            max_proto: self.max_proto,
            target: self.target,
            metadata: self.metadata@,
        }
    }
}

/// The models of a sequence of members, in order.
pub open spec fn member_views(s: Seq<MemberInfo>) -> Seq<MemberInfoView> {
    s.map_values(|m: MemberInfo| m@)
}

/// Nickname used when no random name could be generated.
pub open spec fn fallback_nickname() -> Seq<char> {
    "not-available"@
}

/// The member that `MemberInfo::from_identity` builds.
pub open spec fn fresh_member(id: u32, nickname: Option<String>) -> MemberInfoView {
    MemberInfoView {
        id,
        nickname: match nickname {
            Some(n) => n@,
            None => fallback_nickname(),
        },
        min_proto: crate::MIN_PROTO,
        max_proto: crate::MAX_PROTO,
        target: spec_localhost_any_port(),
        metadata: Seq::empty(),
    }
}

/// The decimal digit `d` (below 10), as a character.
pub open spec fn digit_char(d: nat) -> char {
    (48 + d) as char
}

/// The decimal notation of `n`, most significant digit first, without
/// leading zeros.
pub open spec fn decimal(n: nat) -> Seq<char>
    decreases n,
{
    if n < 10 {
        seq![digit_char(n)]
    } else {
        decimal(n / 10) + seq![digit_char(n % 10)]
    }
}

/// The text that describes a member: its nickname in quotes, then its ID.
pub open spec fn description(m: MemberInfoView) -> Seq<char> {
    "Swarm member \""@ + m.nickname + "\" (ID: "@ + decimal(m.id as nat) + ")"@
}

/// The number that a string of decimal digits denotes, most significant
/// digit first.
pub open spec fn digits_value(s: Seq<char>) -> int
    decreases s.len(),
{
    if s.len() == 0 {
        0
    } else {
        digits_value(s.drop_last()) * 10 + (s.last() as int - 48)
    }
}

/// Law: the decimal notation of `n` is a non-empty string of the digits
/// '0' to '9' that denotes `n`, with no leading zero (unless `n` is 0).
pub proof fn lemma_decimal_denotes(n: nat)
    ensures
        decimal(n).len() >= 1,
        forall|i: int|
            0 <= i < decimal(n).len() ==> 48 <= #[trigger] (decimal(n)[i] as int) <= 57,
        digits_value(decimal(n)) == n,
        n > 0 ==> decimal(n)[0] != '0',
    decreases n,
{
    if n < 10 {
        assert(digit_char(n) as int == 48 + n);
        assert(decimal(n).drop_last() =~= Seq::<char>::empty());
        assert(digits_value(Seq::<char>::empty()) == 0);
        assert(decimal(n).last() == digit_char(n));
        assert(digits_value(decimal(n)) == digits_value(decimal(n).drop_last()) * 10 + (
        decimal(n).last() as int - 48));
    } else {
        lemma_decimal_denotes(n / 10);
        let d = decimal(n);
        assert(digit_char(n % 10) as int == 48 + n % 10);
        assert(d.drop_last() =~= decimal(n / 10));
        assert(d.last() == digit_char(n % 10));
        assert(digits_value(d) == digits_value(d.drop_last()) * 10 + (d.last() as int - 48));
        assert((n / 10) * 10 + n % 10 == n);
        assert forall|i: int| 0 <= i < d.len() implies 48 <= #[trigger] (d[i] as int) <= 57 by {
            if i < d.len() - 1 {
                assert(d[i] == decimal(n / 10)[i]);
            }
        }
        assert(d[0] == decimal(n / 10)[0]);
    }
}

/// Law: a member made from an identity has that ID, the given nickname (or
/// "not-available"), the supported protocol versions, the IPv4 loopback
/// address with port 0, and no metadata.
pub proof fn lemma_fresh_member_fields(id: u32, nickname: Option<String>)
    ensures
        fresh_member(id, nickname).id == id,
        nickname matches Some(n) ==> fresh_member(id, nickname).nickname == n@,
        nickname is None ==> fresh_member(id, nickname).nickname == "not-available"@,
        fresh_member(id, nickname).min_proto == crate::MIN_PROTO,
        fresh_member(id, nickname).max_proto == crate::MAX_PROTO,
        fresh_member(id, nickname).target.port == 0,
        fresh_member(id, nickname).target.ip matches IpAddr::V4(a) && a[0] == 127 && a[1] == 0
            && a[2] == 0 && a[3] == 1,
        fresh_member(id, nickname).metadata.len() == 0,
{
    let arr = [127u8, 0u8, 0u8, 1u8];
    assert(arr[0] == 127 && arr[1] == 0 && arr[2] == 0 && arr[3] == 1);
}

/// Law: the models of a sequence of members come one for one, in order.
pub proof fn lemma_member_views_order(s: Seq<MemberInfo>)
    ensures
        member_views(s).len() == s.len(),
        forall|i: int| 0 <= i < s.len() ==> #[trigger] member_views(s)[i] == s[i]@,
{
}

/// The decimal digit `d`, as a one-character string.
fn digit_str(d: u32) -> (r: &'static str)
    requires
        d < 10,
    ensures
        r@ == seq![digit_char(d as nat)],
{
    proof {
        reveal_strlit("0");
        reveal_strlit("1");
        reveal_strlit("2");
        reveal_strlit("3");
        reveal_strlit("4");
        reveal_strlit("5");
        reveal_strlit("6");
        reveal_strlit("7");
        reveal_strlit("8");
        reveal_strlit("9");
    }
    match d {
        0 => "0",
        1 => "1",
        2 => "2",
        3 => "3",
        4 => "4",
        5 => "5",
        6 => "6",
        7 => "7",
        8 => "8",
        _ => "9",
    }
}

/// Append the decimal notation of `n` to `s`.
fn append_decimal(s: &mut String, n: u32)
    ensures
        final(s)@ == old(s)@ + decimal(n as nat),
    decreases n,
{
    if n >= 10 {
        append_decimal(s, n / 10);
    }
    s.append(digit_str(n % 10));
    proof {
        assert(s@ =~= old(s)@ + decimal(n as nat));
    }
}

/// Copies a byte vector.
pub fn copy_bytes(v: &Vec<u8>) -> (r: Vec<u8>)
    ensures
        r@ == v@,
{
    let mut r: Vec<u8> = Vec::new();
    let mut i: usize = 0;
    while i < v.len()
        invariant
            i <= v.len(),
            r@ == v@.subrange(0, i as int),
        decreases v.len() - i,
    {
        r.push(v[i]);
        i = i + 1;
        proof {
            assert(r@ =~= v@.subrange(0, i as int));
        }
    }
    proof {
        assert(r@ =~= v@);
    }
    r
}

impl Clone for MemberInfo {
    fn clone(&self) -> (r: Self)
        ensures
            r@ == self@,
    {
        MemberInfo {
            id: self.id,
            nickname: self.nickname.clone(),
            min_proto: self.min_proto,
            max_proto: self.max_proto,
            target: self.target,
            metadata: copy_bytes(&self.metadata),
        }
    }
}

/// A random number.
///
/// Calls `rand::random::<u32>()`, which draws from the thread-local
/// generator: nothing is stated of the value.
#[verifier::external_body]
pub(crate) fn random_u32() -> (r: u32) {
    rand::random::<u32>()
}

/// Random nickname.
///
/// Calls `next` on `names::Generator::with_naming(names::Name::Plain)`.
/// The generator's `next` always returns `Some` of an adjective and a noun
/// picked at random, joined by a dash, so the name is never empty; which
/// name comes out is left unstated.
#[verifier::external_body]
fn random_nickname() -> (r: Option<String>)
    ensures
        r is Some,
        r.unwrap()@.len() > 0,
{
    names::Generator::with_naming(names::Name::Plain).next()
}

impl MemberInfo {
    /// Maximum metadata size limit (1 MiB).
    pub const MAX_METADATA: usize = 1048576;

    /// A new member with the given ID and nickname (or the fallback
    /// nickname), the supported protocol versions, a loopback target
    /// on port 0 and no metadata.
    pub fn from_identity(id: u32, nickname: Option<String>) -> (r: MemberInfo)
        ensures
            r@ == fresh_member(id, nickname),
    {
        let nickname = match nickname {
            Some(n) => n,
            None => String::from_str("not-available"),
        };
        MemberInfo {
            id,
            nickname,
            min_proto: crate::MIN_PROTO,
            max_proto: crate::MAX_PROTO,
            target: localhost_any_port(),
            metadata: Vec::new(),
        }
    }

    /// A new local member, with a random ID and a random nickname.
    pub fn default() -> (r: MemberInfo)
        ensures
            r.min_proto == crate::MIN_PROTO,
            r.max_proto == crate::MAX_PROTO,
            r.target == spec_localhost_any_port(),
            r.metadata@ == Seq::<u8>::empty(),
            r.nickname@.len() > 0,
    {
        let nickname = random_nickname();
        let id = random_u32();
        MemberInfo::from_identity(id, nickname)
    }

    /// Describe this member: `Swarm member "<nickname>" (ID: <id>)`.
    pub fn describe(&self) -> (r: String)
        ensures
            r@ == description(self@),
    {
        let mut r = String::from_str("Swarm member \"");
        r.append(self.nickname.as_str());
        r.append("\" (ID: ");
        append_decimal(&mut r, self.id);
        r.append(")");
        r
    }

    /// Return metadata bytes advertised by this member.
    pub fn metadata(&self) -> (r: &[u8])
        ensures
            r@ == self.metadata@,
    {
        self.metadata.as_slice()
    }

    /// Return member ID.
    pub fn id(&self) -> (r: &u32)
        ensures
            *r == self.id,
    {
        &self.id
    }

    /// Return member nickname.
    pub fn nickname(&self) -> (r: &str)
        ensures
            r@ == self.nickname@,
    {
        self.nickname.as_str()
    }
}

} // verus!
