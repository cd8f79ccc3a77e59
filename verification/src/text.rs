//! Rendering of numbers and addresses as text: decimal, lower-case hex,
//! MAC addresses, dotted IPv4 and grouped IPv6 notation.
use vstd::prelude::*;
use crate::bytes::be16;

verus! {

/// The lower-case hexadecimal digit of `d` (also the decimal digit when `d < 10`).
pub open spec fn hex_digit(d: int) -> char {
    seq!['0', '1', '2', '3', '4', '5', '6', '7', '8', '9', 'a', 'b', 'c', 'd', 'e', 'f'][d]
}

/// The decimal notation of `n`, without leading zeros.
pub open spec fn dec(n: nat) -> Seq<char>
    decreases n,
{
    if n < 10 {
        seq![hex_digit(n as int)]
    } else {
        dec(n / 10).push(hex_digit((n % 10) as int))
    }
}

/// Two lower-case hex digits of a byte (`{:02x}`).
pub open spec fn hex2(b: u8) -> Seq<char> {
    seq![hex_digit(b as int / 16), hex_digit(b as int % 16)]
}

/// Four lower-case hex digits of a 16-bit value (`{:04x}`).
pub open spec fn hex4(v: u16) -> Seq<char> {
    seq![
        hex_digit(v as int / 4096),
        hex_digit(v as int / 256 % 16),
        hex_digit(v as int / 16 % 16),
        hex_digit(v as int % 16),
    ]
}

/// `parts` joined with `sep` between consecutive parts.
pub open spec fn joined(parts: Seq<Seq<char>>, sep: Seq<char>) -> Seq<char>
    decreases parts.len(),
{
    if parts.len() == 0 {
        Seq::empty()
    } else if parts.len() == 1 {
        parts[0]
    } else {
        joined(parts.drop_last(), sep) + sep + parts.last()
    }
}

/// A MAC address as six colon-separated hex pairs.
pub open spec fn mac_text(m: Seq<u8>) -> Seq<char> {
    joined(Seq::new(m.len(), |i: int| hex2(m[i])), seq![':'])
}

/// An IPv4 address in dotted decimal notation.
pub open spec fn ipv4_text(a: Seq<u8>) -> Seq<char> {
    joined(Seq::new(a.len(), |i: int| dec(a[i] as nat)), seq!['.'])
}

/// The 16-bit big-endian groups of an address.
pub open spec fn groups(a: Seq<u8>) -> Seq<u16> {
    Seq::new(a.len() / 2, |i: int| be16(a[2 * i], a[2 * i + 1]))
}

/// An IPv6 address as eight colon-separated groups of four hex digits.
pub open spec fn ipv6_text(a: Seq<u8>) -> Seq<char> {
    joined(Seq::new(groups(a).len(), |i: int| hex4(groups(a)[i])), seq![':'])
}

/// The one-character text of a digit.
pub fn digit_str(d: u8) -> (s: &'static str)
    requires
        d < 16,
    ensures
        s@ == seq![hex_digit(d as int)],
{
    proof {
        reveal_strlit("0"); reveal_strlit("1"); reveal_strlit("2"); reveal_strlit("3");
        reveal_strlit("4"); reveal_strlit("5"); reveal_strlit("6"); reveal_strlit("7");
        reveal_strlit("8"); reveal_strlit("9"); reveal_strlit("a"); reveal_strlit("b");
        reveal_strlit("c"); reveal_strlit("d"); reveal_strlit("e"); reveal_strlit("f");
    }
    let s = match d {
        0 => "0", 1 => "1", 2 => "2", 3 => "3", 4 => "4", 5 => "5", 6 => "6", 7 => "7",
        8 => "8", 9 => "9", 10 => "a", 11 => "b", 12 => "c", 13 => "d", 14 => "e", _ => "f",
    };
    assert(s@ =~= seq![hex_digit(d as int)]);
    s
}

/// Appends the decimal notation of `n`.
pub fn push_dec(s: &mut String, n: u64)
    ensures
        final(s)@ == old(s)@ + dec(n as nat),
    decreases n,
{
    if n >= 10 {
        push_dec(s, n / 10);
    }
    let d = digit_str((n % 10) as u8);
    s.append(d);
    assert(final(s)@ =~= old(s)@ + dec(n as nat));
}

/// The decimal notation of a byte.
pub open spec fn dec_u8(n: u8) -> Seq<char> {
    dec(n as nat)
}

/// Appends the decimal notation of a byte.
pub fn push_dec_u8(s: &mut String, n: u8)
    ensures
        final(s)@ == old(s)@ + dec_u8(n),
{
    push_dec(s, n as u64);
}

/// Appends two hex digits of a byte.
pub fn push_hex2(s: &mut String, b: u8)
    ensures
        final(s)@ == old(s)@ + hex2(b),
{
    s.append(digit_str(b / 16));
    s.append(digit_str(b % 16));
    assert(final(s)@ =~= old(s)@ + hex2(b));
}

/// Appends four hex digits of a 16-bit value.
pub fn push_hex4(s: &mut String, v: u16)
    ensures
        final(s)@ == old(s)@ + hex4(v),
{
    s.append(digit_str((v / 4096) as u8));
    s.append(digit_str((v / 256 % 16) as u8));
    s.append(digit_str((v / 16 % 16) as u8));
    s.append(digit_str((v % 16) as u8));
    assert(final(s)@ =~= old(s)@ + hex4(v));
}

/// A decimal number as a new string.
pub fn dec_string(n: u64) -> (s: String)
    ensures
        s@ == dec(n as nat),
{
    let mut s = String::new();
    push_dec(&mut s, n);
    assert(s@ =~= dec(n as nat));
    s
}

proof fn lemma_joined_step(parts: Seq<Seq<char>>, sep: Seq<char>, i: int)
    requires
        0 < i < parts.len(),
    ensures
        joined(parts.take(i + 1), sep) == joined(parts.take(i), sep) + sep + parts[i],
{
    assert(parts.take(i + 1).drop_last() =~= parts.take(i));
}

/// Text of a MAC address.
pub fn mac_string(m: &[u8; 6]) -> (s: String)
    ensures
        s@ == mac_text(m@),
{
    let mut s = String::new();
    let ghost parts = Seq::new(m@.len(), |i: int| hex2(m@[i]));
    let mut i: usize = 0;
    while i < 6
        invariant
            0 <= i <= 6,
            m@.len() == 6,
            parts == Seq::new(m@.len(), |i: int| hex2(m@[i])),
            s@ == joined(parts.take(i as int), seq![':']),
        decreases 6 - i,
    {
        let ghost before = s@;
        if i > 0 {
            proof { reveal_strlit(":"); }
            s.append(":");
            proof { lemma_joined_step(parts, seq![':'], i as int); }
        }
        push_hex2(&mut s, m[i]);
        assert(parts[i as int] == hex2(m@[i as int]));
        proof {
            if i == 0 {
                assert(joined(parts.take(1), seq![':']) == parts.take(1)[0]);
                assert(s@ =~= joined(parts.take(1), seq![':']));
            } else {
                assert(s@ =~= joined(parts.take(i as int), seq![':']) + seq![':'] + parts[i as int]);
            }
        }
        i = i + 1;
    }
    assert(parts.take(6) =~= parts);
    s
}

/// Text of an IPv4 address in dotted decimal notation.
pub fn ipv4_string(a: &[u8; 4]) -> (s: String)
    ensures
        s@ == ipv4_text(a@),
{
    let mut s = String::new();
    let ghost parts = Seq::new(a@.len(), |i: int| dec(a@[i] as nat));
    let mut i: usize = 0;
    while i < 4
        invariant
            0 <= i <= 4,
            a@.len() == 4,
            parts == Seq::new(a@.len(), |i: int| dec(a@[i] as nat)),
            s@ == joined(parts.take(i as int), seq!['.']),
        decreases 4 - i,
    {
        if i > 0 {
            proof { reveal_strlit("."); }
            s.append(".");
            proof { lemma_joined_step(parts, seq!['.'], i as int); }
        }
        push_dec(&mut s, a[i] as u64);
        assert(parts[i as int] == dec(a@[i as int] as nat));
        proof {
            if i == 0 {
                assert(joined(parts.take(1), seq!['.']) == parts.take(1)[0]);
                assert(s@ =~= joined(parts.take(1), seq!['.']));
            } else {
                assert(s@ =~= joined(parts.take(i as int), seq!['.']) + seq!['.'] + parts[i as int]);
            }
        }
        i = i + 1;
    }
    assert(parts.take(4) =~= parts);
    s
}

/// Text of a 16-byte address as eight groups of four hex digits.
pub fn ipv6_string(a: &[u8; 16]) -> (s: String)
    ensures
        s@ == ipv6_text(a@),
{
    let mut s = String::new();
    let ghost g = groups(a@);
    let ghost parts = Seq::new(g.len(), |i: int| hex4(g[i]));
    let mut i: usize = 0;
    while i < 8
        invariant
            0 <= i <= 8,
            a@.len() == 16,
            g == groups(a@),
            g.len() == 8,
            parts == Seq::new(g.len(), |i: int| hex4(g[i])),
            s@ == joined(parts.take(i as int), seq![':']),
        decreases 8 - i,
    {
        if i > 0 {
            proof { reveal_strlit(":"); }
            s.append(":");
            proof { lemma_joined_step(parts, seq![':'], i as int); }
        }
        let v = crate::bytes::read_be16(a[2 * i], a[2 * i + 1]);
        push_hex4(&mut s, v);
        assert(parts[i as int] == hex4(g[i as int]));
        assert(g[i as int] == v);
        proof {
            if i == 0 {
                assert(joined(parts.take(1), seq![':']) == parts.take(1)[0]);
                assert(s@ =~= joined(parts.take(1), seq![':']));
            } else {
                assert(s@ =~= joined(parts.take(i as int), seq![':']) + seq![':'] + parts[i as int]);
            }
        }
        i = i + 1;
    }
    assert(parts.take(8) =~= parts);
    s
}

/// `a` is an IPv4-mapped IPv6 address (`::ffff:a.b.c.d`).
pub open spec fn is_ipv4_mapped(a: Seq<u8>) -> bool {
    &&& forall|i: int| 0 <= i < 10 ==> a[i] == 0
    &&& a[10] == 0xff
    &&& a[11] == 0xff
}

/// Text of a 16-byte address: dotted decimal when IPv4-mapped, else grouped hex.
pub open spec fn ip_text(a: Seq<u8>) -> Seq<char> {
    if is_ipv4_mapped(a) {
        ipv4_text(a.subrange(12, 16))
    } else {
        ipv6_text(a)
    }
}

/// Text of a 16-byte address: dotted decimal when IPv4-mapped, else grouped hex.
pub fn ip_string(ip: &[u8; 16]) -> (s: String)
    ensures
        s@ == ip_text(ip@),
{
    let mut mapped = ip[10] == 0xff && ip[11] == 0xff;
    let mut i: usize = 0;
    while i < 10
        invariant
            0 <= i <= 10,
            ip@.len() == 16,
            mapped == (ip@[10] == 0xff && ip@[11] == 0xff && forall|j: int| 0 <= j < i ==> ip@[j] == 0),
        decreases 10 - i,
    {
        if ip[i] != 0 {
            mapped = false;
        }
        i = i + 1;
    }
    if mapped {
        let v4: [u8; 4] = [ip[12], ip[13], ip[14], ip[15]];
        assert(v4@ =~= ip@.subrange(12, 16));
        ipv4_string(&v4)
    } else {
        ipv6_string(ip)
    }
}

} // verus!
