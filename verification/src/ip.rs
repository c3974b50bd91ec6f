//! Internet addresses as rate limiting keys, and the text that writes them.
//!
//! An address is read from bytes. IPv4 is four decimal numbers from 0 to 255, each
//! of one to three digits and without a leading zero, joined by dots. IPv6 is eight
//! groups of one to four hexadecimal digits joined by colons; one run of groups that
//! are all zero may be left out and written `::`, and the last two groups may be
//! written as an IPv4 address. Nothing may stand before or after the address.

use vstd::prelude::*;

verus! {

/// An IPv4 or IPv6 address, by its bits in network order. The two families are kept
/// apart: an IPv4 address and the IPv6 address that maps it are different keys.
#[derive(Clone, Copy, Debug, PartialEq, Eq, Hash, Structural)]
pub enum IpKey {
    V4(u32),
    V6(u128),
}

/// No address is written with more bytes than this.
pub const MAX_TEXT_LEN: usize = 45;

/// The value of a decimal digit.
pub open spec fn dec_digit(b: u8) -> Option<nat> {
    if 48 <= b <= 57 {
        Some((b - 48) as nat)
    } else {
        None
    }
}

/// The value of a hexadecimal digit, in either case.
pub open spec fn hex_digit(b: u8) -> Option<nat> {
    if 48 <= b <= 57 {
        Some((b - 48) as nat)
    } else if 97 <= b <= 102 {
        Some((b - 87) as nat)
    } else if 65 <= b <= 70 {
        Some((b - 55) as nat)
    } else {
        None
    }
}

/// The number that one field of an IPv4 address writes.
pub open spec fn octet(s: Seq<u8>) -> Option<u8> {
    if s.len() == 1 {
        match dec_digit(s[0]) {
            Some(a) => Some(a as u8),
            None => None,
        }
    } else if s.len() == 2 {
        match (dec_digit(s[0]), dec_digit(s[1])) {
            (Some(a), Some(b)) => if a != 0 {
                Some((10 * a + b) as u8)
            } else {
                None
            },
            _ => None,
        }
    } else if s.len() == 3 {
        match (dec_digit(s[0]), dec_digit(s[1]), dec_digit(s[2])) {
            (Some(a), Some(b), Some(c)) => if a != 0 && 100 * a + 10 * b + c <= 255 {
                Some((100 * a + 10 * b + c) as u8)
            } else {
                None
            },
            _ => None,
        }
    } else {
        None
    }
}

/// The number that one group of an IPv6 address writes.
pub open spec fn group(s: Seq<u8>) -> Option<u16> {
    if s.len() == 1 {
        match hex_digit(s[0]) {
            Some(a) => Some(a as u16),
            None => None,
        }
    } else if s.len() == 2 {
        match (hex_digit(s[0]), hex_digit(s[1])) {
            (Some(a), Some(b)) => Some((16 * a + b) as u16),
            _ => None,
        }
    } else if s.len() == 3 {
        match (hex_digit(s[0]), hex_digit(s[1]), hex_digit(s[2])) {
            (Some(a), Some(b), Some(c)) => Some((256 * a + 16 * b + c) as u16),
            _ => None,
        }
    } else if s.len() == 4 {
        match (hex_digit(s[0]), hex_digit(s[1]), hex_digit(s[2]), hex_digit(s[3])) {
            (Some(a), Some(b), Some(c), Some(d)) => Some((4096 * a + 256 * b + 16 * c + d) as u16),
            _ => None,
        }
    } else {
        None
    }
}

/// The place of the first `sep` in `s` at or after `from`, or the length of `s`
/// where there is none.
pub open spec fn find(s: Seq<u8>, from: int, sep: u8) -> int
    decreases s.len() - from,
{
    if from >= s.len() {
        s.len() as int
    } else if s[from] == sep {
        from
    } else {
        find(s, from + 1, sep)
    }
}

/// The numbers of a list of IPv4 fields joined by dots.
pub open spec fn octets(s: Seq<u8>) -> Option<Seq<u8>>
    decreases s.len(),
{
    let i = find(s, 0, 46);
    if 0 <= i < s.len() {
        match (octet(s.subrange(0, i)), octets(s.subrange(i + 1, s.len() as int))) {
            (Some(o), Some(rest)) => Some(seq![o] + rest),
            _ => None,
        }
    } else {
        match octet(s) {
            Some(o) => Some(seq![o]),
            None => None,
        }
    }
}

/// The address that four numbers make, the first in the highest byte.
pub open spec fn pack4(o: Seq<u8>) -> u32 {
    (o[0] * 0x100_0000 + o[1] * 0x1_0000 + o[2] * 0x100 + o[3]) as u32
}

/// The IPv4 address that `s` writes.
pub open spec fn ipv4(s: Seq<u8>) -> Option<u32> {
    match octets(s) {
        Some(o) => if o.len() == 4 {
            Some(pack4(o))
        } else {
            None
        },
        None => None,
    }
}

/// The groups of a list of IPv6 fields joined by colons. Where `v4_last` holds, the
/// last field may be an IPv4 address, which stands for two groups.
pub open spec fn groups(s: Seq<u8>, v4_last: bool) -> Option<Seq<u16>>
    decreases s.len(),
{
    let i = find(s, 0, 58);
    if 0 <= i < s.len() {
        match (group(s.subrange(0, i)), groups(s.subrange(i + 1, s.len() as int), v4_last)) {
            (Some(g), Some(rest)) => Some(seq![g] + rest),
            _ => None,
        }
    } else {
        match group(s) {
            Some(g) => Some(seq![g]),
            None => match ipv4(s) {
                Some(a) => if v4_last {
                    Some(seq![(a / 0x1_0000) as u16, (a % 0x1_0000) as u16])
                } else {
                    None
                },
                None => None,
            },
        }
    }
}

/// The groups of a list that may be empty.
pub open spec fn groups_or_none(s: Seq<u8>, v4_last: bool) -> Option<Seq<u16>> {
    if s.len() == 0 {
        Some(Seq::empty())
    } else {
        groups(s, v4_last)
    }
}

/// The place of the first `::` in `s` at or after `from`, or the length of `s` where
/// there is none.
pub open spec fn find_gap(s: Seq<u8>, from: int) -> int
    decreases s.len() - from,
{
    if from + 1 >= s.len() {
        s.len() as int
    } else if s[from] == 58 && s[from + 1] == 58 {
        from
    } else {
        find_gap(s, from + 1)
    }
}

/// The address that eight groups make, the first in the highest bits.
pub open spec fn pack8(g: Seq<u16>) -> u128 {
    (g[0] * 0x1_0000_0000_0000_0000_0000_0000_0000 + g[1] * 0x1_0000_0000_0000_0000_0000_0000
        + g[2] * 0x1_0000_0000_0000_0000_0000 + g[3] * 0x1_0000_0000_0000_0000 + g[4]
        * 0x1_0000_0000_0000 + g[5] * 0x1_0000_0000 + g[6] * 0x1_0000 + g[7]) as u128
}

/// So many groups of zero.
pub open spec fn zeros(n: int) -> Seq<u16> {
    Seq::new(n as nat, |i: int| 0u16)
}

/// The IPv6 address that `s` writes.
pub open spec fn ipv6(s: Seq<u8>) -> Option<u128> {
    let gap = find_gap(s, 0);
    if 0 <= gap < s.len() {
        match (
            groups_or_none(s.subrange(0, gap), false),
            groups_or_none(s.subrange(gap + 2, s.len() as int), true),
        ) {
            (Some(head), Some(tail)) => if head.len() + tail.len() <= 7 {
                Some(pack8(head + zeros(8 - head.len() - tail.len()) + tail))
            } else {
                None
            },
            _ => None,
        }
    } else {
        match groups(s, true) {
            Some(g) => if g.len() == 8 {
                Some(pack8(g))
            } else {
                None
            },
            None => None,
        }
    }
}

/// The address that `s` writes: an IPv4 address, or else an IPv6 address.
pub open spec fn ip_of(s: Seq<u8>) -> Option<IpKey> {
    if s.len() > MAX_TEXT_LEN {
        None
    } else {
        match ipv4(s) {
            Some(a) => Some(IpKey::V4(a)),
            None => match ipv6(s) {
                Some(a) => Some(IpKey::V6(a)),
                None => None,
            },
        }
    }
}

/// What `r` stands for as a sequence, where it stands for one.
pub open spec fn list_of<T>(r: Option<Vec<T>>) -> Option<Seq<T>> {
    match r {
        Some(v) => Some(v@),
        None => None,
    }
}

fn dec_value(b: u8) -> (r: Option<u8>)
    ensures
        r matches Some(v) ==> dec_digit(b) == Some(v as nat),
        r is None ==> dec_digit(b) is None,
{
    if 48 <= b && b <= 57 {
        Some(b - 48)
    } else {
        None
    }
}

fn hex_value(b: u8) -> (r: Option<u8>)
    ensures
        r matches Some(v) ==> hex_digit(b) == Some(v as nat),
        r is None ==> hex_digit(b) is None,
{
    if 48 <= b && b <= 57 {
        Some(b - 48)
    } else if 97 <= b && b <= 102 {
        Some(b - 87)
    } else if 65 <= b && b <= 70 {
        Some(b - 55)
    } else {
        None
    }
}

/// Finds the first `sep` in `s[from..to]`.
pub(crate) fn find_byte(s: &[u8], from: usize, to: usize, sep: u8) -> (i: usize)
    requires
        from <= to <= s.len(),
    ensures
        from <= i <= to,
        i - from == find(s@.subrange(from as int, to as int), 0, sep),
{
    let ghost part = s@.subrange(from as int, to as int);
    let mut i: usize = from;
    while i < to
        invariant
            from <= i <= to <= s.len(),
            part == s@.subrange(from as int, to as int),
            find(part, 0, sep) == find(part, i - from, sep),
        decreases to - i,
    {
        if s[i] == sep {
            return i;
        }
        i = i + 1;
    }
    i
}

fn parse_octet(s: &[u8], from: usize, to: usize) -> (r: Option<u8>)
    requires
        from <= to <= s.len(),
    ensures
        r == octet(s@.subrange(from as int, to as int)),
{
    let n: usize = to - from;
    if n == 1 {
        dec_value(s[from])
    } else if n == 2 {
        match (dec_value(s[from]), dec_value(s[from + 1])) {
            (Some(a), Some(b)) => if a != 0 {
                Some(10 * a + b)
            } else {
                None
            },
            _ => None,
        }
    } else if n == 3 {
        match (dec_value(s[from]), dec_value(s[from + 1]), dec_value(s[from + 2])) {
            (Some(a), Some(b), Some(c)) => {
                let v: u16 = 100 * (a as u16) + 10 * (b as u16) + (c as u16);
                if a != 0 && v <= 255 {
                    Some(v as u8)
                } else {
                    None
                }
            },
            _ => None,
        }
    } else {
        None
    }
}

fn parse_group(s: &[u8], from: usize, to: usize) -> (r: Option<u16>)
    requires
        from <= to <= s.len(),
    ensures
        r == group(s@.subrange(from as int, to as int)),
{
    let n: usize = to - from;
    if n == 1 {
        match hex_value(s[from]) {
            Some(a) => Some(a as u16),
            None => None,
        }
    } else if n == 2 {
        match (hex_value(s[from]), hex_value(s[from + 1])) {
            (Some(a), Some(b)) => Some(16 * (a as u16) + (b as u16)),
            _ => None,
        }
    } else if n == 3 {
        match (hex_value(s[from]), hex_value(s[from + 1]), hex_value(s[from + 2])) {
            (Some(a), Some(b), Some(c)) => Some(256 * (a as u16) + 16 * (b as u16) + (c as u16)),
            _ => None,
        }
    } else if n == 4 {
        match (
            hex_value(s[from]),
            hex_value(s[from + 1]),
            hex_value(s[from + 2]),
            hex_value(s[from + 3]),
        ) {
            (Some(a), Some(b), Some(c), Some(d)) => Some(
                4096 * (a as u16) + 256 * (b as u16) + 16 * (c as u16) + (d as u16),
            ),
            _ => None,
        }
    } else {
        None
    }
}

fn parse_octets(s: &[u8], from: usize, to: usize) -> (r: Option<Vec<u8>>)
    requires
        from <= to <= s.len(),
    ensures
        list_of(r) == octets(s@.subrange(from as int, to as int)),
    decreases to - from,
{
    let ghost part = s@.subrange(from as int, to as int);
    let i: usize = find_byte(s, from, to, 46);
    if i < to {
        assert(part.subrange(0, i - from) =~= s@.subrange(from as int, i as int));
        assert(part.subrange(i - from + 1, part.len() as int) =~= s@.subrange(i + 1, to as int));
        match parse_octet(s, from, i) {
            Some(o) => match parse_octets(s, i + 1, to) {
                Some(rest) => {
                    let mut all = rest;
                    all.insert(0, o);
                    assert(all@ =~= seq![o] + rest@);
                    Some(all)
                },
                None => None,
            },
            None => None,
        }
    } else {
        match parse_octet(s, from, to) {
            Some(o) => {
                let mut all: Vec<u8> = Vec::new();
                all.push(o);
                assert(all@ =~= seq![o]);
                Some(all)
            },
            None => None,
        }
    }
}

fn parse_ipv4(s: &[u8], from: usize, to: usize) -> (r: Option<u32>)
    requires
        from <= to <= s.len(),
    ensures
        r == ipv4(s@.subrange(from as int, to as int)),
{
    match parse_octets(s, from, to) {
        Some(o) => if o.len() == 4 {
            Some(
                (o[0] as u32) * 0x100_0000 + (o[1] as u32) * 0x1_0000 + (o[2] as u32) * 0x100 + (
                o[3] as u32),
            )
        } else {
            None
        },
        None => None,
    }
}

fn parse_groups(s: &[u8], from: usize, to: usize, v4_last: bool) -> (r: Option<Vec<u16>>)
    requires
        from <= to <= s.len(),
    ensures
        list_of(r) == groups(s@.subrange(from as int, to as int), v4_last),
    decreases to - from,
{
    let ghost part = s@.subrange(from as int, to as int);
    let i: usize = find_byte(s, from, to, 58);
    if i < to {
        assert(part.subrange(0, i - from) =~= s@.subrange(from as int, i as int));
        assert(part.subrange(i - from + 1, part.len() as int) =~= s@.subrange(i + 1, to as int));
        match parse_group(s, from, i) {
            Some(g) => match parse_groups(s, i + 1, to, v4_last) {
                Some(rest) => {
                    let mut all = rest;
                    all.insert(0, g);
                    assert(all@ =~= seq![g] + rest@);
                    Some(all)
                },
                None => None,
            },
            None => None,
        }
    } else {
        match parse_group(s, from, to) {
            Some(g) => {
                let mut all: Vec<u16> = Vec::new();
                all.push(g);
                assert(all@ =~= seq![g]);
                Some(all)
            },
            None => {
                if !v4_last {
                    return None;
                }
                match parse_ipv4(s, from, to) {
                    Some(a) => {
                        let mut all: Vec<u16> = Vec::new();
                        all.push((a / 0x1_0000) as u16);
                        all.push((a % 0x1_0000) as u16);
                        assert(all@ =~= seq![(a / 0x1_0000) as u16, (a % 0x1_0000) as u16]);
                        Some(all)
                    },
                    None => None,
                }
            },
        }
    }
}

fn parse_groups_or_none(s: &[u8], from: usize, to: usize, v4_last: bool) -> (r: Option<Vec<u16>>)
    requires
        from <= to <= s.len(),
    ensures
        list_of(r) == groups_or_none(s@.subrange(from as int, to as int), v4_last),
{
    if from == to {
        Some(Vec::new())
    } else {
        parse_groups(s, from, to, v4_last)
    }
}

/// Finds the first `::` in `s`.
fn find_gap_at(s: &[u8]) -> (i: usize)
    ensures
        i <= s.len(),
        i == find_gap(s@, 0),
        i < s.len() ==> i + 2 <= s.len(),
{
    let mut i: usize = 0;
    while i < s.len() && i + 1 < s.len()
        invariant
            i <= s.len(),
            find_gap(s@, 0) == find_gap(s@, i as int),
        decreases s.len() - i,
    {
        if s[i] == 58 && s[i + 1] == 58 {
            return i;
        }
        i = i + 1;
    }
    s.len()
}

fn pack_groups(g: &Vec<u16>) -> (r: u128)
    requires
        g.len() == 8,
    ensures
        r == pack8(g@),
{
    (g[0] as u128) * 0x1_0000_0000_0000_0000_0000_0000_0000 + (g[1] as u128)
        * 0x1_0000_0000_0000_0000_0000_0000 + (g[2] as u128) * 0x1_0000_0000_0000_0000_0000 + (
    g[3] as u128) * 0x1_0000_0000_0000_0000 + (g[4] as u128) * 0x1_0000_0000_0000 + (g[5] as u128)
        * 0x1_0000_0000 + (g[6] as u128) * 0x1_0000 + (g[7] as u128)
}

fn parse_ipv6(s: &[u8]) -> (r: Option<u128>)
    ensures
        r == ipv6(s@),
{
    let gap: usize = find_gap_at(s);
    if gap < s.len() {
        let head = match parse_groups_or_none(s, 0, gap, false) {
            Some(head) => head,
            None => {
                return None;
            },
        };
        let tail = match parse_groups_or_none(s, gap + 2, s.len(), true) {
            Some(tail) => tail,
            None => {
                return None;
            },
        };
        if head.len() > 7 || tail.len() > 7 - head.len() {
            return None;
        }
        let fill: usize = 8 - head.len() - tail.len();
        let mut all: Vec<u16> = head;
        let mut k: usize = 0;
        while k < fill
            invariant
                k <= fill,
                all@ == head@ + zeros(k as int),
            decreases fill - k,
        {
            all.push(0);
            k = k + 1;
            assert(all@ =~= head@ + zeros(k as int));
        }
        let mut j: usize = 0;
        while j < tail.len()
            invariant
                j <= tail.len(),
                all@ == head@ + zeros(fill as int) + tail@.subrange(0, j as int),
            decreases tail.len() - j,
        {
            all.push(tail[j]);
            j = j + 1;
            assert(all@ =~= head@ + zeros(fill as int) + tail@.subrange(0, j as int));
        }
        assert(tail@.subrange(0, tail.len() as int) =~= tail@);
        Some(pack_groups(&all))
    } else {
        assert(s@.subrange(0, s.len() as int) =~= s@);
        match parse_groups(s, 0, s.len(), true) {
            Some(g) => if g.len() == 8 {
                Some(pack_groups(&g))
            } else {
                None
            },
            None => None,
        }
    }
}

/// Reads the address that `text` writes, if it writes one.
pub fn parse_ip(text: &[u8]) -> (r: Option<IpKey>)
    ensures
        r == ip_of(text@),
{
    if text.len() > MAX_TEXT_LEN {
        return None;
    }
    assert(text@.subrange(0, text.len() as int) =~= text@);
    match parse_ipv4(text, 0, text.len()) {
        Some(a) => Some(IpKey::V4(a)),
        None => match parse_ipv6(text) {
            Some(a) => Some(IpKey::V6(a)),
            None => None,
        },
    }
}

} // verus!
