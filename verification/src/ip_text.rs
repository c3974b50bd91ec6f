//! The text that writes an address, as the standard library writes it.
//!
//! IPv4 is written as four decimal numbers joined by dots. IPv6 is written as eight
//! groups in lower-case hexadecimal digits without leading zeros, joined by colons;
//! the first of the longest runs of two or more groups that are zero is written
//! `::`. An IPv6 address that maps an IPv4 address is written `::ffff:` and the IPv4
//! address.

use crate::decimal::{append_decimal, decimal_text};
use crate::ip::IpKey;
use vstd::prelude::*;
use vstd::string::*;

verus! {

/// The character that writes the hexadecimal digit `d`.
pub open spec fn hex_char(d: nat) -> char {
    if d == 0 {
        '0'
    } else if d == 1 {
        '1'
    } else if d == 2 {
        '2'
    } else if d == 3 {
        '3'
    } else if d == 4 {
        '4'
    } else if d == 5 {
        '5'
    } else if d == 6 {
        '6'
    } else if d == 7 {
        '7'
    } else if d == 8 {
        '8'
    } else if d == 9 {
        '9'
    } else if d == 10 {
        'a'
    } else if d == 11 {
        'b'
    } else if d == 12 {
        'c'
    } else if d == 13 {
        'd'
    } else if d == 14 {
        'e'
    } else {
        'f'
    }
}

/// The hexadecimal notation of `n`: lower case, no leading zero, `"0"` for zero.
pub open spec fn hex_text(n: nat) -> Seq<char>
    decreases n,
{
    if n < 16 {
        seq![hex_char(n)]
    } else {
        hex_text(n / 16).push(hex_char(n % 16))
    }
}

/// The text of an IPv4 address: its four bytes in decimal, joined by dots.
pub open spec fn ipv4_text(a: u32) -> Seq<char> {
    decimal_text((a / 0x100_0000) as nat) + seq!['.'] + decimal_text((a / 0x1_0000 % 0x100) as nat)
        + seq!['.'] + decimal_text((a / 0x100 % 0x100) as nat) + seq!['.'] + decimal_text(
        (a % 0x100) as nat,
    )
}

/// The lowest `n` groups of sixteen bits of `a`, the highest of them first.
pub open spec fn low_groups(a: nat, n: nat) -> Seq<u16>
    decreases n,
{
    if n == 0 {
        Seq::empty()
    } else {
        low_groups(a / 0x1_0000, (n - 1) as nat).push((a % 0x1_0000) as u16)
    }
}

/// The groups from `from` on, in hexadecimal and joined by colons.
pub open spec fn groups_text(g: Seq<u16>, from: int) -> Seq<char>
    decreases g.len() - from,
{
    if from >= g.len() {
        Seq::empty()
    } else if from + 1 >= g.len() {
        hex_text(g[from] as nat)
    } else {
        hex_text(g[from] as nat) + seq![':'] + groups_text(g, from + 1)
    }
}

/// The number of groups in a row that are zero, from the group at `from` on.
pub open spec fn zero_run(g: Seq<u16>, from: int) -> nat
    decreases g.len() - from,
{
    if 0 <= from < g.len() && g[from] == 0 {
        1 + zero_run(g, from + 1)
    } else {
        0
    }
}

/// The longest run of zero groups that starts at `from` or later, by its start and its
/// length; of runs of the same length the first. Where no group is zero the length
/// is zero.
pub open spec fn longest_run(g: Seq<u16>, from: int) -> (int, nat)
    decreases g.len() - from,
{
    if 0 <= from < g.len() {
        let later = longest_run(g, from + 1);
        if zero_run(g, from) > 0 && zero_run(g, from) >= later.1 {
            (from, zero_run(g, from))
        } else {
            later
        }
    } else {
        (g.len() as int, 0)
    }
}

/// The text of an IPv6 address.
pub open spec fn ipv6_text(a: u128) -> Seq<char> {
    let g = low_groups(a as nat, 8);
    if a / 0x1_0000_0000 == 0xffff {
        "::ffff:"@ + ipv4_text((a % 0x1_0000_0000) as u32)
    } else {
        let run = longest_run(g, 0);
        if run.1 > 1 {
            groups_text(g.subrange(0, run.0), 0) + "::"@ + groups_text(g, run.0 + run.1)
        } else {
            groups_text(g, 0)
        }
    }
}

/// The text of an address.
pub open spec fn ip_text(key: IpKey) -> Seq<char> {
    match key {
        IpKey::V4(a) => ipv4_text(a),
        IpKey::V6(a) => ipv6_text(a),
    }
}

fn hex_str(d: u16) -> (s: &'static str)
    requires
        d < 16,
    ensures
        s@ == seq![hex_char(d as nat)],
{
    proof {
        reveal_strlit("0");
        reveal_strlit("1");
        reveal_strlit("2");
        reveal_strlit("3");
        reveal_strlit("4");
        reveal_strlit("5");
        reveal_strlit("6");
        reveal_strlit("7");
        reveal_strlit("8");
        reveal_strlit("9");
        reveal_strlit("a");
        reveal_strlit("b");
        reveal_strlit("c");
        reveal_strlit("d");
        reveal_strlit("e");
        reveal_strlit("f");
    }
    let s: &'static str = if d == 0 {
        "0"
    } else if d == 1 {
        "1"
    } else if d == 2 {
        "2"
    } else if d == 3 {
        "3"
    } else if d == 4 {
        "4"
    } else if d == 5 {
        "5"
    } else if d == 6 {
        "6"
    } else if d == 7 {
        "7"
    } else if d == 8 {
        "8"
    } else if d == 9 {
        "9"
    } else if d == 10 {
        "a"
    } else if d == 11 {
        "b"
    } else if d == 12 {
        "c"
    } else if d == 13 {
        "d"
    } else if d == 14 {
        "e"
    } else {
        "f"
    };
    assert(s@ =~= seq![hex_char(d as nat)]);
    s
}

/// Appends the hexadecimal notation of `n` to `out`.
pub fn append_hex(out: &mut String, n: u16)
    ensures
        final(out)@ == old(out)@ + hex_text(n as nat),
    decreases n,
{
    if n >= 16 {
        append_hex(out, n / 16);
    }
    out.append(hex_str(n % 16));
    assert(out@ =~= old(out)@ + hex_text(n as nat));
}

/// Appends the text of an IPv4 address to `out`.
pub fn append_ipv4(out: &mut String, a: u32)
    ensures
        final(out)@ == old(out)@ + ipv4_text(a),
{
    proof {
        reveal_strlit(".");
    }
    append_decimal(out, (a / 0x100_0000) as u64);
    out.append(".");
    append_decimal(out, (a / 0x1_0000 % 0x100) as u64);
    out.append(".");
    append_decimal(out, (a / 0x100 % 0x100) as u64);
    out.append(".");
    append_decimal(out, (a % 0x100) as u64);
    assert(out@ =~= old(out)@ + ipv4_text(a));
}

fn split_groups(a: u128, n: usize) -> (g: Vec<u16>)
    ensures
        g@ == low_groups(a as nat, n as nat),
    decreases n,
{
    if n == 0 {
        Vec::new()
    } else {
        let mut g = split_groups(a / 0x1_0000, n - 1);
        g.push((a % 0x1_0000) as u16);
        g
    }
}

/// Appends the groups from `from` up to `to`, in hexadecimal and joined by colons.
fn append_groups(out: &mut String, g: &Vec<u16>, from: usize, to: usize)
    requires
        from <= to <= g.len(),
    ensures
        final(out)@ == old(out)@ + groups_text(g@.subrange(0, to as int), from as int),
    decreases to - from,
{
    let ghost part = g@.subrange(0, to as int);
    if from >= to {
        assert(out@ =~= old(out)@ + groups_text(part, from as int));
    } else if from + 1 >= to {
        append_hex(out, g[from]);
    } else {
        proof {
            reveal_strlit(":");
        }
        append_hex(out, g[from]);
        out.append(":");
        append_groups(out, g, from + 1, to);
        assert(out@ =~= old(out)@ + groups_text(part, from as int));
    }
}

/// Finds the first of the longest runs of zero groups.
fn find_longest_run(g: &Vec<u16>) -> (run: (usize, usize))
    ensures
        run.0 == longest_run(g@, 0).0,
        run.1 == longest_run(g@, 0).1,
        run.0 + run.1 <= g.len(),
{
    let mut i: usize = g.len();
    let mut current: usize = 0;
    let mut start: usize = g.len();
    let mut len: usize = 0;
    while i > 0
        invariant
            i <= g.len(),
            current == zero_run(g@, i as int),
            start == longest_run(g@, i as int).0,
            len == longest_run(g@, i as int).1,
            i + current <= g.len(),
            start + len <= g.len(),
        decreases i,
    {
        i = i - 1;
        if g[i] == 0 {
            current = current + 1;
        } else {
            current = 0;
        }
        if current > 0 && current >= len {
            start = i;
            len = current;
        }
    }
    (start, len)
}

/// Appends the text of an IPv6 address to `out`.
pub fn append_ipv6(out: &mut String, a: u128)
    ensures
        final(out)@ == old(out)@ + ipv6_text(a),
{
    if a / 0x1_0000_0000 == 0xffff {
        out.append("::ffff:");
        append_ipv4(out, (a % 0x1_0000_0000) as u32);
        assert(out@ =~= old(out)@ + ipv6_text(a));
    } else {
        let g = split_groups(a, 8);
        let (start, len) = find_longest_run(&g);
        if len > 1 {
            append_groups(out, &g, 0, start);
            out.append("::");
            assert(g@.subrange(0, g.len() as int) =~= g@);
            append_groups(out, &g, start + len, g.len());
            assert(out@ =~= old(out)@ + ipv6_text(a));
        } else {
            assert(g@.subrange(0, g.len() as int) =~= g@);
            append_groups(out, &g, 0, g.len());
        }
    }
}

impl IpKey {
    /// The address as text.
    pub fn to_string(&self) -> (s: String)
        ensures
            s@ == ip_text(*self),
    {
        let mut s = String::new();
        match self {
            IpKey::V4(a) => append_ipv4(&mut s, *a),
            IpKey::V6(a) => append_ipv6(&mut s, *a),
        }
        assert(s@ =~= ip_text(*self));
        s
    }
}

} // verus!
