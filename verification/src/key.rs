//! The 5-tuple that identifies a network flow.
use vstd::prelude::*;
use crate::text::{dec, ip_string, ip_text, push_dec};

verus! {

/// 5-tuple flow key for identifying network flows.
#[derive(Debug, Clone, Copy, PartialEq, Eq)]
pub struct FlowKey {
    pub src_ip: [u8; 16],
    pub dst_ip: [u8; 16],
    pub src_port: u16,
    pub dst_port: u16,
    pub protocol: u8,
}

/// Feeds `h` to `state` through `std::hash::Hasher::write_u64`, as `u64`'s own `Hash`
/// does. Nothing is claimed of the hasher's state afterwards.
#[verifier::external_body]
fn feed_u64<H: core::hash::Hasher>(state: &mut H, h: u64) {
    state.write_u64(h)
}

impl core::hash::Hash for FlowKey {
    /// Hashes the key by its XXH3 digest (`hash64`).
    fn hash<H: core::hash::Hasher>(&self, state: &mut H) {
        let h = self.hash64();
        feed_u64(state, h);
    }
}

/// Lexicographic "less than" on byte sequences (the order of Rust arrays and slices).
pub open spec fn lex_lt(a: Seq<u8>, b: Seq<u8>) -> bool
    decreases a.len(),
{
    if a.len() == 0 || b.len() == 0 {
        a.len() < b.len()
    } else if a[0] != b[0] {
        a[0] < b[0]
    } else {
        lex_lt(a.drop_first(), b.drop_first())
    }
}

/// The key that `FlowKey::new` builds.
pub open spec fn flow_key(src_ip: [u8; 16], dst_ip: [u8; 16], src_port: u16, dst_port: u16, protocol: u8) -> FlowKey {
    FlowKey { src_ip, dst_ip, src_port, dst_port, protocol }
}

/// The key with the smaller endpoint (by address, then port) first.
pub open spec fn canonical_key(src_ip: [u8; 16], dst_ip: [u8; 16], src_port: u16, dst_port: u16, protocol: u8) -> FlowKey {
    if lex_lt(src_ip@, dst_ip@) || (src_ip@ == dst_ip@ && src_port <= dst_port) {
        flow_key(src_ip, dst_ip, src_port, dst_port, protocol)
    } else {
        flow_key(dst_ip, src_ip, dst_port, src_port, protocol)
    }
}

/// The name of an IP protocol number.
pub open spec fn protocol_name(p: u8) -> Seq<char> {
    if p == 6 {
        "TCP"@
    } else if p == 17 {
        "UDP"@
    } else if p == 1 {
        "ICMP"@
    } else {
        "OTHER"@
    }
}

/// The display text of a flow key.
pub open spec fn flow_key_text(k: FlowKey) -> Seq<char> {
    ip_text(k.src_ip@) + ":"@ + dec(k.src_port as nat) + " -> "@ + ip_text(k.dst_ip@) + ":"@
        + dec(k.dst_port as nat) + " ("@ + protocol_name(k.protocol) + ")"@
}

/// The bytes that the key hash digests: both addresses, both ports big-endian, then the protocol.
pub open spec fn key_bytes(k: FlowKey) -> Seq<u8> {
    k.src_ip@ + k.dst_ip@ + seq![(k.src_port / 256) as u8, (k.src_port % 256) as u8]
        + seq![(k.dst_port / 256) as u8, (k.dst_port % 256) as u8] + seq![k.protocol]
}

/// The 64-bit XXH3 hash of a byte sequence.
pub uninterp spec fn xxh3_64_of(input: Seq<u8>) -> u64;

/// Calls `xxhash_rust::xxh3::xxh3_64`, the one-shot 64-bit XXH3 hash (seed 0).
/// Claimed: the result is a function of the input bytes alone, named `xxh3_64_of`.
#[verifier::external_body]
fn xxh3_64(input: &[u8]) -> (h: u64)
    ensures
        h == xxh3_64_of(input@),
{
    xxhash_rust::xxh3::xxh3_64(input)
}

proof fn lemma_lex_step(a: Seq<u8>, b: Seq<u8>, i: int)
    requires
        0 <= i < a.len(),
        a.len() == b.len(),
        a[i] == b[i],
    ensures
        lex_lt(a.skip(i), b.skip(i)) == lex_lt(a.skip(i + 1), b.skip(i + 1)),
{
    assert(a.skip(i).drop_first() =~= a.skip(i + 1));
    assert(b.skip(i).drop_first() =~= b.skip(i + 1));
}

/// Compares two addresses: (first is smaller, both are equal).
fn compare_addresses(a: &[u8; 16], b: &[u8; 16]) -> (r: (bool, bool))
    ensures
        r.0 == lex_lt(a@, b@),
        r.1 == (a@ == b@),
{
    let mut i: usize = 0;
    assert(a@.skip(0) =~= a@ && b@.skip(0) =~= b@);
    while i < 16
        invariant
            0 <= i <= 16,
            a@.len() == 16 && b@.len() == 16,
            a@.take(i as int) == b@.take(i as int),
            lex_lt(a@, b@) == lex_lt(a@.skip(i as int), b@.skip(i as int)),
        decreases 16 - i,
    {
        if a[i] != b[i] {
            assert(a@.skip(i as int)[0] == a@[i as int] && b@.skip(i as int)[0] == b@[i as int]);
            assert(a@[i as int] != b@[i as int]);
            return (a[i] < b[i], false);
        }
        proof { lemma_lex_step(a@, b@, i as int); }
        assert(a@.take(i + 1) =~= a@.take(i as int).push(a@[i as int]));
        assert(b@.take(i + 1) =~= b@.take(i as int).push(b@[i as int]));
        i = i + 1;
    }
    assert(a@ =~= a@.take(16) && b@ =~= b@.take(16));
    assert(a@.skip(16).len() == 0);
    (false, true)
}

impl FlowKey {
    /// Creates a new flow key.
    pub fn new(src_ip: [u8; 16], dst_ip: [u8; 16], src_port: u16, dst_port: u16, protocol: u8) -> (k: Self)
        ensures
            k == flow_key(src_ip, dst_ip, src_port, dst_port, protocol),
    {
        FlowKey { src_ip, dst_ip, src_port, dst_port, protocol }
    }

    /// Creates a canonical flow key: the smaller address first, or the smaller port
    /// first when both addresses are equal.
    pub fn canonical(src_ip: [u8; 16], dst_ip: [u8; 16], src_port: u16, dst_port: u16, protocol: u8) -> (k: Self)
        ensures
            k == canonical_key(src_ip, dst_ip, src_port, dst_port, protocol),
    {
        let (lt, eq) = compare_addresses(&src_ip, &dst_ip);
        if lt || (eq && src_port <= dst_port) {
            Self::new(src_ip, dst_ip, src_port, dst_port, protocol)
        } else {
            Self::new(dst_ip, src_ip, dst_port, src_port, protocol)
        }
    }

    /// The name of the protocol number: `TCP`, `UDP`, `ICMP` or `OTHER`.
    pub fn protocol_str(&self) -> (s: &'static str)
        ensures
            s@ == protocol_name(self.protocol),
    {
        if self.protocol == 6 {
            "TCP"
        } else if self.protocol == 17 {
            "UDP"
        } else if self.protocol == 1 {
            "ICMP"
        } else {
            "OTHER"
        }
    }

    /// The 64-bit XXH3 hash of the key's bytes.
    pub fn hash64(&self) -> (h: u64)
        ensures
            h == xxh3_64_of(key_bytes(*self)),
    {
        let s = &self.src_ip;
        let d = &self.dst_ip;
        let bytes: [u8; 37] = [
            s[0], s[1], s[2], s[3], s[4], s[5], s[6], s[7],
            s[8], s[9], s[10], s[11], s[12], s[13], s[14], s[15],
            d[0], d[1], d[2], d[3], d[4], d[5], d[6], d[7],
            d[8], d[9], d[10], d[11], d[12], d[13], d[14], d[15],
            (self.src_port / 256) as u8, (self.src_port % 256) as u8,
            (self.dst_port / 256) as u8, (self.dst_port % 256) as u8,
            self.protocol,
        ];
        assert(bytes@ =~= key_bytes(*self));
        xxh3_64(vstd::array::array_as_slice(&bytes))
    }

    /// The display text: `src:port -> dst:port (PROTO)`.
    pub fn to_string(&self) -> (s: String)
        ensures
            s@ == flow_key_text(*self),
    {
        let mut s = ip_string(&self.src_ip);
        s.append(":");
        push_dec(&mut s, self.src_port as u64);
        s.append(" -> ");
        let dst = ip_string(&self.dst_ip);
        s.append(dst.as_str());
        s.append(":");
        push_dec(&mut s, self.dst_port as u64);
        s.append(" (");
        s.append(self.protocol_str());
        s.append(")");
        s
    }
}

/// For sequences of equal length exactly one holds: `a` before `b`, equal, or `b` before `a`.
pub proof fn lex_trichotomy(a: Seq<u8>, b: Seq<u8>)
    requires
        a.len() == b.len(),
    ensures
        lex_lt(a, b) || a == b || lex_lt(b, a),
        !(lex_lt(a, b) && lex_lt(b, a)),
        !(lex_lt(a, b) && a == b),
    decreases a.len(),
{
    if a.len() > 0 && a[0] == b[0] {
        lex_trichotomy(a.drop_first(), b.drop_first());
        if a.drop_first() == b.drop_first() {
            assert(a =~= seq![a[0]] + a.drop_first());
            assert(b =~= seq![b[0]] + b.drop_first());
        }
    }
    if a.len() == 0 {
        assert(a =~= b);
    }
}

/// A flow and its reverse direction get the same canonical key.
pub proof fn canonical_is_symmetric(src_ip: [u8; 16], dst_ip: [u8; 16], src_port: u16, dst_port: u16, protocol: u8)
    ensures
        canonical_key(src_ip, dst_ip, src_port, dst_port, protocol)
            == canonical_key(dst_ip, src_ip, dst_port, src_port, protocol),
{
    lex_trichotomy(src_ip@, dst_ip@);
    if src_ip@ == dst_ip@ {
        assert(src_ip == dst_ip);
    }
}

/// Canonicalizing a canonical key gives it back.
pub proof fn canonical_is_idempotent(src_ip: [u8; 16], dst_ip: [u8; 16], src_port: u16, dst_port: u16, protocol: u8)
    ensures
        ({
            let k = canonical_key(src_ip, dst_ip, src_port, dst_port, protocol);
            canonical_key(k.src_ip, k.dst_ip, k.src_port, k.dst_port, k.protocol) == k
        }),
{
    lex_trichotomy(src_ip@, dst_ip@);
}

/// Both directions of a flow hash to the same value once canonicalized.
pub proof fn canonical_hash_is_symmetric(src_ip: [u8; 16], dst_ip: [u8; 16], src_port: u16, dst_port: u16, protocol: u8)
    ensures
        xxh3_64_of(key_bytes(canonical_key(src_ip, dst_ip, src_port, dst_port, protocol)))
            == xxh3_64_of(key_bytes(canonical_key(dst_ip, src_ip, dst_port, src_port, protocol))),
{
    canonical_is_symmetric(src_ip, dst_ip, src_port, dst_port, protocol);
}

/// Where two equal-length byte sequences first differ, at `j`, that byte decides their
/// order.
proof fn lemma_lex_first_difference(a: Seq<u8>, b: Seq<u8>, j: int)
    requires
        a.len() == b.len(),
        0 <= j < a.len(),
        forall|i: int| 0 <= i < j ==> a[i] == b[i],
        a[j] != b[j],
    ensures
        lex_lt(a, b) <==> a[j] < b[j],
    decreases j,
{
    if j > 0 {
        assert forall|i: int| 0 <= i < j - 1 implies a.drop_first()[i] == b.drop_first()[i] by {
            assert(a[i + 1] == b[i + 1]);
        }
        lemma_lex_first_difference(a.drop_first(), b.drop_first(), j - 1);
    }
}

/// The canonical key keeps the flow's two endpoints and its protocol, and puts the
/// smaller endpoint first: where the two addresses first differ, the source byte is the
/// smaller one; with equal addresses, the source port is at most the destination port.
pub proof fn canonical_orders_endpoints(src_ip: [u8; 16], dst_ip: [u8; 16], src_port: u16, dst_port: u16, protocol: u8)
    ensures
        ({
            let k = canonical_key(src_ip, dst_ip, src_port, dst_port, protocol);
            &&& k.protocol == protocol
            &&& (k.src_ip == src_ip && k.dst_ip == dst_ip && k.src_port == src_port && k.dst_port == dst_port)
                || (k.src_ip == dst_ip && k.dst_ip == src_ip && k.src_port == dst_port && k.dst_port == src_port)
            &&& (forall|i: int| 0 <= i < 16 ==> k.src_ip@[i] == k.dst_ip@[i]) ==> k.src_port <= k.dst_port
            &&& forall|j: int| 0 <= j < 16 && (forall|i: int| 0 <= i < j ==> k.src_ip@[i] == k.dst_ip@[i])
                && k.src_ip@[j] != k.dst_ip@[j] ==> k.src_ip@[j] < k.dst_ip@[j]
        }),
{
    let k = canonical_key(src_ip, dst_ip, src_port, dst_port, protocol);
    assert forall|j: int| 0 <= j < 16 && (forall|i: int| 0 <= i < j ==> k.src_ip@[i] == k.dst_ip@[i])
        && k.src_ip@[j] != k.dst_ip@[j] implies k.src_ip@[j] < k.dst_ip@[j] by {
        if k.src_ip == src_ip {
            lemma_lex_first_difference(src_ip@, dst_ip@, j);
            assert(src_ip@ != dst_ip@);
        } else {
            lemma_lex_first_difference(src_ip@, dst_ip@, j);
        }
    }
    if forall|i: int| 0 <= i < 16 ==> k.src_ip@[i] == k.dst_ip@[i] {
        assert forall|i: int| 0 <= i < 16 implies src_ip@[i] == dst_ip@[i] by {
            assert(k.src_ip@[i] == k.dst_ip@[i]);
        }
        assert(src_ip@ =~= dst_ip@);
        lex_trichotomy(src_ip@, dst_ip@);
    }
}

} // verus!
