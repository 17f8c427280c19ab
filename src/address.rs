//! IP addresses, which addresses are worth a query, and their text.

use vstd::prelude::*;

verus! {

/// The character of a digit below sixteen: `0`-`9`, then `a`-`f`.
pub open spec fn digit_char(d: nat) -> char {
    "0123456789abcdef"@[d as int]
}

/// `n` in base `base`, without leading zeros.
pub open spec fn digits(n: nat, base: nat) -> Seq<char>
    decreases n,
    via digits_decreases
{
    if base < 2 || n < base {
        seq![digit_char(n)]
    } else {
        digits(n / base, base).push(digit_char(n % base))
    }
}

#[via_fn]
proof fn digits_decreases(n: nat, base: nat) {
    if !(base < 2 || n < base) {
        assert(n / base < n) by (nonlinear_arith)
            requires
                base >= 2,
                n >= base,
        ;
    }
}

/// The text of one digit below sixteen.
fn digit_text(d: u32) -> (r: &'static str)
    requires
        d < 16,
    ensures
        r@ == seq![digit_char(d as nat)],
{
    let all = "0123456789abcdef";
    proof {
        reveal_strlit("0123456789abcdef");
    }
    let r = all.substring_ascii(d as usize, (d + 1) as usize);
    assert(r@ =~= seq![digit_char(d as nat)]);
    r
}

/// Appends `n` in base `base` to `s`.
fn push_digits(s: &mut String, n: u32, base: u32)
    requires
        2 <= base <= 16,
    ensures
        final(s)@ == old(s)@ + digits(n as nat, base as nat),
    decreases n,
{
    if n >= base {
        assert(n / base < n) by (nonlinear_arith)
            requires
                base >= 2,
                n >= base,
        ;
        push_digits(s, n / base, base);
    }
    s.append(digit_text(n % base));
    proof {
        if n >= base {
            assert(old(s)@ + digits(n as nat, base as nat) =~= old(s)@ + digits(
                (n / base) as nat,
                base as nat,
            ) + seq![digit_char((n % base) as nat)]);
        } else {
            assert(n % base == n) by (nonlinear_arith)
                requires
                    n < base,
            ;
        }
    }
}

/// An IPv4 address, by its four octets.
#[derive(Clone, Copy, Debug, PartialEq, Eq)]
pub struct Ipv4Address {
    pub octets: [u8; 4],
}

impl Ipv4Address {
    /// The address `a.b.c.d`.
    pub fn new(a: u8, b: u8, c: u8, d: u8) -> (r: Ipv4Address)
        ensures
            r.octets@ == seq![a, b, c, d],
    {
        Ipv4Address { octets: [a, b, c, d] }
    }

    /// Whether the address lies in one of the private blocks `10.0.0.0/8`,
    /// `172.16.0.0/12` or `192.168.0.0/16`.
    pub open spec fn spec_is_private(&self) -> bool {
        let o = self.octets@;
        o[0] == 10 || (o[0] == 172 && 16 <= o[1] <= 31) || (o[0] == 192 && o[1] == 168)
    }

    /// The dotted decimal text of the address.
    pub open spec fn text(self) -> Seq<char> {
        let o = self.octets@;
        digits(o[0] as nat, 10) + "."@ + digits(o[1] as nat, 10) + "."@ + digits(o[2] as nat, 10)
            + "."@ + digits(o[3] as nat, 10)
    }

    /// Whether the address lies in one of the private blocks.
    #[verifier::when_used_as_spec(spec_is_private)]
    pub fn is_private(&self) -> (r: bool)
        ensures
            r == self.spec_is_private(),
    {
        let o = self.octets;
        o[0] == 10 || (o[0] == 172 && 16 <= o[1] && o[1] <= 31) || (o[0] == 192 && o[1] == 168)
    }

    /// The dotted decimal text of the address, such as `192.168.1.1`.
    pub fn to_text(&self) -> (r: String)
        ensures
            r@ == self.text(),
    {
        let o = self.octets;
        let mut s = String::new();
        push_digits(&mut s, o[0] as u32, 10);
        s.append(".");
        push_digits(&mut s, o[1] as u32, 10);
        s.append(".");
        push_digits(&mut s, o[2] as u32, 10);
        s.append(".");
        push_digits(&mut s, o[3] as u32, 10);
        proof {
            assert(s@ =~= self.text());
        }
        s
    }
}

/// Whether the segments `from..to` of `s` are all zero.
pub open spec fn zeros(s: Seq<u16>, from: int, to: int) -> bool {
    forall|i: int| from <= i < to ==> s[i] == 0
}

/// Whether `len` segments from `start` lie within `s` and are all zero.
pub open spec fn zero_run(s: Seq<u16>, start: int, len: int) -> bool {
    0 <= start && 0 <= len && start + len <= s.len() && zeros(s, start, start + len)
}

/// Whether `(start, len)` is the run that `::` stands for in the text of `s`:
/// the longest run of two or more zero segments, the first of equally long
/// ones.
pub open spec fn elided_run(s: Seq<u16>, start: int, len: int) -> bool {
    &&& len >= 2
    &&& zero_run(s, start, len)
    &&& forall|st: int, l: int| #[trigger]
        zero_run(s, st, l) ==> l <= len && (l == len ==> start <= st)
}

/// The segments in lower-case hexadecimal without leading zeros, joined by
/// `:`.
pub open spec fn groups(s: Seq<u16>) -> Seq<char>
    decreases s.len(),
{
    if s.len() == 0 {
        Seq::empty()
    } else if s.len() == 1 {
        digits(s[0] as nat, 16)
    } else {
        groups(s.drop_last()) + ":"@ + digits(s.last() as nat, 16)
    }
}

/// The text of `s` with the run `(start, len)` written as `::`.
pub open spec fn elided_text(s: Seq<u16>, start: int, len: int) -> Seq<char> {
    groups(s.subrange(0, start)) + "::"@ + groups(s.subrange(start + len, s.len() as int))
}

/// Appends to `s` the groups of `seg[from..to]`.
fn push_groups(s: &mut String, seg: &[u16; 8], from: usize, to: usize)
    requires
        from <= to <= 8,
    ensures
        final(s)@ == old(s)@ + groups(seg@.subrange(from as int, to as int)),
{
    let mut k: usize = from;
    while k < to
        invariant
            from <= k <= to <= 8,
            s@ == old(s)@ + groups(seg@.subrange(from as int, k as int)),
        decreases to - k,
    {
        if k > from {
            s.append(":");
        }
        push_digits(s, seg[k] as u32, 16);
        proof {
            let next = seg@.subrange(from as int, k + 1);
            assert(next.drop_last() =~= seg@.subrange(from as int, k as int));
            if k == from {
                assert(groups(seg@.subrange(from as int, k as int)) =~= Seq::<char>::empty());
            }
            assert(s@ =~= old(s)@ + groups(next));
        }
        k = k + 1;
    }
}

/// An IPv6 address, by its eight 16-bit segments.
#[derive(Clone, Copy, Debug, PartialEq, Eq)]
pub struct Ipv6Address {
    pub segments: [u16; 8],
}

impl Ipv6Address {
    /// The address `a:b:c:d:e:f:g:h`.
    pub fn new(a: u16, b: u16, c: u16, d: u16, e: u16, f: u16, g: u16, h: u16) -> (r: Ipv6Address)
        ensures
            r.segments@ == seq![a, b, c, d, e, f, g, h],
    {
        Ipv6Address { segments: [a, b, c, d, e, f, g, h] }
    }

    /// Whether the address is globally reachable: it lies in none of the
    /// special-purpose blocks that are not.
    pub open spec fn spec_is_global(&self) -> bool {
        let s = self.segments@;
        !{
            // unspecified `::` and loopback `::1`
            ||| zeros(s, 0, 8)
            ||| (zeros(s, 0, 7) && s[7] == 1)
            // IPv4-mapped `::ffff:0:0/96`
            ||| (zeros(s, 0, 5) && s[5] == 0xffff)
            // IPv4-IPv6 translation `64:ff9b:1::/48`
            ||| (s[0] == 0x64 && s[1] == 0xff9b && s[2] == 1)
            // discard-only `100::/64`
            ||| (s[0] == 0x100 && zeros(s, 1, 4))
            // IETF protocol assignments `2001::/23`, but for the global
            // anycast addresses `2001:1::1` and `2001:1::2`, AMT `2001:3::/32`,
            // AS112-v6 `2001:4:112::/48` and ORCHIDv2 and DETs `2001:20::/27`
            ||| (s[0] == 0x2001 && s[1] < 0x200 && !{
                ||| (s[1] == 1 && zeros(s, 2, 7) && (s[7] == 1 || s[7] == 2))
                ||| s[1] == 3
                ||| (s[1] == 4 && s[2] == 0x112)
                ||| (0x20 <= s[1] && s[1] <= 0x3f)
            })
            // 6to4 `2002::/16`
            ||| s[0] == 0x2002
            // documentation `2001:db8::/32` and `3fff::/20`
            ||| (s[0] == 0x2001 && s[1] == 0xdb8)
            ||| (s[0] == 0x3fff && s[1] <= 0xfff)
            // segment routing `5f00::/16`
            ||| s[0] == 0x5f00
            // unique local `fc00::/7` and link-local unicast `fe80::/10`
            ||| (0xfc00 <= s[0] && s[0] <= 0xfdff)
            ||| (0xfe80 <= s[0] && s[0] <= 0xfebf)
        }
    }

    /// Whether the address is globally reachable.
    #[verifier::when_used_as_spec(spec_is_global)]
    pub fn is_global(&self) -> (r: bool)
        ensures
            r == self.spec_is_global(),
    {
        let s = &self.segments;
        let special = all_zero(s, 0, 8) || (all_zero(s, 0, 7) && s[7] == 1) || (all_zero(s, 0, 5)
            && s[5] == 0xffff) || (s[0] == 0x64 && s[1] == 0xff9b && s[2] == 1) || (s[0] == 0x100
            && all_zero(s, 1, 4)) || (s[0] == 0x2001 && s[1] < 0x200 && !((s[1] == 1 && all_zero(
            s,
            2,
            7,
        ) && (s[7] == 1 || s[7] == 2)) || s[1] == 3 || (s[1] == 4 && s[2] == 0x112) || (0x20
            <= s[1] && s[1] <= 0x3f))) || s[0] == 0x2002 || (s[0] == 0x2001 && s[1] == 0xdb8) || (
        s[0] == 0x3fff && s[1] <= 0xfff) || s[0] == 0x5f00 || (0xfc00 <= s[0] && s[0] <= 0xfdff)
            || (0xfe80 <= s[0] && s[0] <= 0xfebf);
        !special
    }

    /// The text of the address: lower-case hexadecimal groups without
    /// leading zeros, with the longest run of two or more zero groups (the
    /// first of equally long ones) written as `::`.
    pub open spec fn has_text(&self, t: Seq<char>) -> bool {
        let s = self.segments@;
        if exists|st: int, l: int| elided_run(s, st, l) {
            exists|st: int, l: int| elided_run(s, st, l) && t == elided_text(s, st, l)
        } else {
            t == groups(s)
        }
    }

    /// The text of the address, such as `2606:4700::1111`.
    pub fn to_text(&self) -> (r: String)
        ensures
            self.has_text(r@),
    {
        let seg = &self.segments;
        let (start, len) = longest_zero_run(seg);
        let mut s = String::new();
        if len >= 2 {
            push_groups(&mut s, seg, 0, start);
            s.append("::");
            push_groups(&mut s, seg, start + len, 8);
            proof {
                assert(s@ =~= elided_text(seg@, start as int, len as int));
                assert(elided_run(seg@, start as int, len as int));
            }
        } else {
            push_groups(&mut s, seg, 0, 8);
            proof {
                assert(seg@.subrange(0, 8) =~= seg@);
                assert forall|st: int, l: int| !elided_run(seg@, st, l) by {
                    if elided_run(seg@, st, l) {
                        assert(zero_run(seg@, st, l));
                    }
                }
            }
        }
        s
    }
}

/// Whether `seg[from..to]` is all zero.
fn all_zero(seg: &[u16; 8], from: usize, to: usize) -> (r: bool)
    requires
        from <= to <= 8,
    ensures
        r == zeros(seg@, from as int, to as int),
{
    let mut k: usize = from;
    while k < to
        invariant
            from <= k <= to <= 8,
            zeros(seg@, from as int, k as int),
        decreases to - k,
    {
        if seg[k] != 0 {
            return false;
        }
        k = k + 1;
    }
    true
}

/// The longest run of zero segments, the first of equally long ones, as
/// `(start, len)`; a length below two where there is no run of two.
fn longest_zero_run(seg: &[u16; 8]) -> (r: (usize, usize))
    ensures
        zero_run(seg@, r.0 as int, r.1 as int),
        forall|st: int, l: int| #[trigger]
            zero_run(seg@, st, l) ==> l <= r.1 && (l == r.1 ==> r.0 <= st),
{
    let mut best_start: usize = 0;
    let mut best_len: usize = 0;
    let mut i: usize = 0;
    while i < 8
        invariant
            i <= 8,
            best_start + best_len <= i,
            zero_run(seg@, best_start as int, best_len as int),
            i < 8 ==> (i == 0 || seg@[i - 1] != 0 || seg@[i as int] != 0),
            forall|st: int, l: int| #[trigger]
                zero_run(seg@, st, l) && st + l <= i ==> l <= best_len && (l == best_len
                    ==> best_start <= st),
        decreases 8 - i,
    {
        if seg[i] == 0 {
            let mut j: usize = i;
            while j < 8 && seg[j] == 0
                invariant
                    i <= j <= 8,
                    zeros(seg@, i as int, j as int),
                decreases 8 - j,
            {
                j = j + 1;
            }
            let old_start = best_start;
            let old_len = best_len;
            if j - i > best_len {
                best_start = i;
                best_len = j - i;
            }
            assert forall|st: int, l: int| #[trigger]
                zero_run(seg@, st, l) && st + l <= j implies l <= best_len && (l == best_len
                ==> best_start <= st) by {
                if l > 0 && st < i && st + l > i {
                    assert(seg@[i - 1] == 0);
                } else if l > 0 && st >= i {
                    assert(l <= j - i);
                } else if l > 0 {
                    assert(st + l <= i);
                }
            }
            assert(j < 8 ==> seg@[j as int] != 0);
            i = j;
        } else {
            i = i + 1;
        }
    }
    (best_start, best_len)
}

/// An IP address of either family.
#[derive(Clone, Copy, Debug, PartialEq, Eq)]
pub enum IpAddress {
    V4(Ipv4Address),
    V6(Ipv6Address),
}

} // verus!
