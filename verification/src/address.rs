//! Recognising numeric addresses.
//!
//! A host that is written as an IPv4 or IPv6 literal is connected to as it
//! stands; every other host is a name that has to be looked up first.

use vstd::prelude::*;
use crate::text::{chars_of, is_dec, number_at};

verus! {

/// Whether `c` is a hexadecimal digit of either case.
pub open spec fn is_hex(c: char) -> bool {
    ('0' <= c <= '9') || ('a' <= c <= 'f') || ('A' <= c <= 'F')
}

/// Whether `c` is a digit of the base chosen by `hex`.
pub open spec fn is_digit(c: char, hex: bool) -> bool {
    if hex {
        is_hex(c)
    } else {
        is_dec(c)
    }
}

/// Whether the `n` characters of `s` from `p` on are digits.
pub open spec fn digits_at(s: Seq<char>, p: int, n: int, hex: bool) -> bool {
    &&& 0 <= p
    &&& 0 <= n
    &&& p + n <= s.len()
    &&& forall|k: int| p <= k < p + n ==> is_digit(#[trigger] s[k], hex)
}

/// Whether no digit stands at `q`.
pub open spec fn run_ends(s: Seq<char>, q: int, hex: bool) -> bool {
    q >= s.len() || !is_digit(s[q], hex)
}

/// The length of the run of digits that starts at `p`, as far as it is at
/// most `max`; zero where no digit stands at `p` or the run is longer.
pub open spec fn run_len(s: Seq<char>, p: int, max: int, hex: bool) -> int {
    if exists|n: int| 1 <= n <= max && digits_at(s, p, n, hex) && run_ends(s, p + n, hex) {
        choose|n: int| 1 <= n <= max && digits_at(s, p, n, hex) && run_ends(s, p + n, hex)
    } else {
        0
    }
}

/// Where the part of a dotted quad that starts at `p` ends: one to three
/// decimal digits, without a leading zero before another digit, that write a
/// number up to 255.
pub open spec fn octet_end(s: Seq<char>, p: int) -> Option<int> {
    let n = run_len(s, p, 3, false);
    if n >= 1 && !(n > 1 && s[p] == '0') && number_at(s, p, n) <= 255 {
        Some(p + n)
    } else {
        None
    }
}

/// Where the dot at `p` and the part behind it end.
pub open spec fn dot_octet_end(s: Seq<char>, p: int) -> Option<int> {
    if 0 <= p < s.len() && s[p] == '.' {
        octet_end(s, p + 1)
    } else {
        None
    }
}

/// Where the dotted quad that starts at `p` ends: four parts with a dot
/// between each two.
pub open spec fn quad_end(s: Seq<char>, p: int) -> Option<int> {
    match octet_end(s, p) {
        None => None,
        Some(a) => match dot_octet_end(s, a) {
            None => None,
            Some(b) => match dot_octet_end(s, b) {
                None => None,
                Some(c) => dot_octet_end(s, c),
            },
        },
    }
}

/// Whether `s` is an IPv4 literal.
pub open spec fn is_ipv4_literal(s: Seq<char>) -> bool {
    quad_end(s, 0) == Some(s.len() as int)
}

/// Where the group of an IPv6 literal that starts at `p` ends: one to four
/// hexadecimal digits.
pub open spec fn group_end(s: Seq<char>, p: int) -> Option<int> {
    let n = run_len(s, p, 4, true);
    if n >= 1 {
        Some(p + n)
    } else {
        None
    }
}

/// What reading groups from a position gave: how many groups of sixteen bits
/// were read, whether the last two came from a dotted quad, and where the
/// reading stopped.
pub struct Groups {
    pub count: int,
    pub quad: bool,
    pub end: int,
}

/// Reads groups separated by colons from `p` on, `i` of at most `limit`
/// being read already. A dotted quad counts as two groups and ends the
/// reading; it is only looked for where two groups are still missing.
/// Reading stops before a colon that no group follows.
pub open spec fn read_groups(s: Seq<char>, p: int, i: int, limit: int) -> Groups
    decreases limit - i,
{
    if i >= limit {
        Groups { count: i, quad: false, end: p }
    } else if i > 0 && !(0 <= p < s.len() && s[p] == ':') {
        Groups { count: i, quad: false, end: p }
    } else {
        let start = if i > 0 {
            p + 1
        } else {
            p
        };
        if i < limit - 1 && quad_end(s, start) is Some {
            Groups { count: i + 2, quad: true, end: quad_end(s, start).unwrap() }
        } else {
            match group_end(s, start) {
                Some(q) => read_groups(s, q, i + 1, limit),
                None => Groups { count: i, quad: false, end: p },
            }
        }
    }
}

/// Whether `s` is an IPv6 literal: eight groups, or fewer with one `::` that
/// stands for the missing ones. The last two groups may be written as a
/// dotted quad, but not in front of the `::`.
pub open spec fn is_ipv6_literal(s: Seq<char>) -> bool {
    let head = read_groups(s, 0, 0, 8);
    if head.count == 8 {
        head.end == s.len()
    } else if head.quad {
        false
    } else if head.end + 1 < s.len() && s[head.end] == ':' && s[head.end + 1] == ':' {
        read_groups(s, head.end + 2, 0, 7 - head.count).end == s.len()
    } else {
        false
    }
}

/// Whether `s` is a numeric address, IPv4 or IPv6.
pub open spec fn is_ip_literal(s: Seq<char>) -> bool {
    is_ipv4_literal(s) || is_ipv6_literal(s)
}

fn digit_here(c: char, hex: bool) -> (r: bool)
    ensures
        r == is_digit(c, hex),
{
    if hex {
        ('0' <= c && c <= '9') || ('a' <= c && c <= 'f') || ('A' <= c && c <= 'F')
    } else {
        '0' <= c && c <= '9'
    }
}

/// At most one length satisfies the conditions of `run_len`.
proof fn lemma_run_len_is(s: Seq<char>, p: int, max: int, hex: bool, n: int)
    requires
        1 <= n <= max,
        digits_at(s, p, n, hex),
        run_ends(s, p + n, hex),
    ensures
        run_len(s, p, max, hex) == n,
{
    let m = run_len(s, p, max, hex);
    assert(1 <= m <= max && digits_at(s, p, m, hex) && run_ends(s, p + m, hex));
    if m < n {
        assert(is_digit(s[p + m], hex));
    }
    if n < m {
        assert(is_digit(s[p + n], hex));
    }
}

/// No length satisfies the conditions of `run_len` where the run is longer
/// than `max` or empty.
proof fn lemma_run_len_none(s: Seq<char>, p: int, max: int, hex: bool)
    requires
        0 <= p,
        digits_at(s, p, max + 1, hex) || run_ends(s, p, hex),
    ensures
        run_len(s, p, max, hex) == 0,
{
    if exists|n: int| 1 <= n <= max && digits_at(s, p, n, hex) && run_ends(s, p + n, hex) {
        let n = choose|n: int| 1 <= n <= max && digits_at(s, p, n, hex) && run_ends(s, p + n, hex);
        if digits_at(s, p, max + 1, hex) {
            assert(is_digit(s[p + n], hex));
        } else {
            assert(is_digit(s[p], hex));
        }
    }
}

/// Measures the run of digits at `p`.
fn scan_run(s: &[char], p: usize, max: usize, hex: bool) -> (n: usize)
    requires
        p <= s@.len(),
        1 <= max <= 4,
    ensures
        n == run_len(s@, p as int, max as int, hex),
        n <= max,
        p + n <= s@.len(),
{
    let mut q: usize = p;
    while q < s.len() && q - p <= max && digit_here(s[q], hex)
        invariant
            p <= q <= s@.len(),
            q - p <= max + 1,
            1 <= max <= 4,
            digits_at(s@, p as int, q - p, hex),
        decreases s@.len() - q,
    {
        q += 1;
    }
    let n: usize = q - p;
    if n >= 1 && n <= max {
        proof {
            lemma_run_len_is(s@, p as int, max as int, hex, n as int);
        }
        n
    } else {
        proof {
            lemma_run_len_none(s@, p as int, max as int, hex);
        }
        0
    }
}

fn scan_octet(s: &[char], p: usize) -> (r: Option<usize>)
    requires
        p <= s@.len(),
    ensures
        r matches Some(q) ==> octet_end(s@, p as int) == Some(q as int) && p < q <= s@.len(),
        r is None ==> octet_end(s@, p as int) is None,
{
    let len: usize = s.len();
    let n: usize = scan_run(s, p, 3, false);
    if n == 0 {
        return None;
    }
    if n > 1 && s[p] == '0' {
        return None;
    }
    let mut value: u32 = 0;
    let mut k: usize = 0;
    while k < n
        invariant
            k <= n <= 3,
            p + n <= s@.len() == len,
            digits_at(s@, p as int, n as int, false),
            value == number_at(s@, p as int, k as int),
            k == 0 ==> value == 0,
            k == 1 ==> value <= 9,
            k == 2 ==> value <= 99,
            value <= 999,
        decreases n - k,
    {
        let c = s[p + k];
        value = value * 10 + (c as u32 - '0' as u32);
        k += 1;
    }
    if value <= 255 {
        Some(p + n)
    } else {
        None
    }
}

fn scan_dot_octet(s: &[char], p: usize) -> (r: Option<usize>)
    requires
        p <= s@.len(),
    ensures
        r matches Some(q) ==> dot_octet_end(s@, p as int) == Some(q as int) && p < q <= s@.len(),
        r is None ==> dot_octet_end(s@, p as int) is None,
{
    if p < s.len() && s[p] == '.' {
        scan_octet(s, p + 1)
    } else {
        None
    }
}

fn scan_quad(s: &[char], p: usize) -> (r: Option<usize>)
    requires
        p <= s@.len(),
    ensures
        r matches Some(q) ==> quad_end(s@, p as int) == Some(q as int) && p < q <= s@.len(),
        r is None ==> quad_end(s@, p as int) is None,
{
    let a = match scan_octet(s, p) {
        Some(a) => a,
        None => return None,
    };
    let b = match scan_dot_octet(s, a) {
        Some(b) => b,
        None => return None,
    };
    let c = match scan_dot_octet(s, b) {
        Some(c) => c,
        None => return None,
    };
    scan_dot_octet(s, c)
}

fn scan_group(s: &[char], p: usize) -> (r: Option<usize>)
    requires
        p <= s@.len(),
    ensures
        r matches Some(q) ==> group_end(s@, p as int) == Some(q as int) && p < q <= s@.len(),
        r is None ==> group_end(s@, p as int) is None,
{
    let len: usize = s.len();
    let n: usize = scan_run(s, p, 4, true);
    if n >= 1 {
        Some(p + n)
    } else {
        None
    }
}

/// The executable counterpart of [`Groups`].
struct GroupScan {
    count: usize,
    quad: bool,
    end: usize,
}

fn scan_groups(s: &[char], p: usize, i: usize, limit: usize) -> (r: GroupScan)
    requires
        p <= s@.len(),
        i <= limit <= 8,
    ensures
        r.count == read_groups(s@, p as int, i as int, limit as int).count,
        r.quad == read_groups(s@, p as int, i as int, limit as int).quad,
        r.end == read_groups(s@, p as int, i as int, limit as int).end,
        r.end <= s@.len(),
        r.count <= limit,
    decreases limit - i,
{
    if i >= limit {
        return GroupScan { count: i, quad: false, end: p };
    }
    if i > 0 && !(p < s.len() && s[p] == ':') {
        return GroupScan { count: i, quad: false, end: p };
    }
    let start = if i > 0 {
        p + 1
    } else {
        p
    };
    if i < limit - 1 {
        if let Some(q) = scan_quad(s, start) {
            return GroupScan { count: i + 2, quad: true, end: q };
        }
    }
    match scan_group(s, start) {
        Some(q) => scan_groups(s, q, i + 1, limit),
        None => GroupScan { count: i, quad: false, end: p },
    }
}

fn ipv4_literal(s: &[char]) -> (r: bool)
    ensures
        r == is_ipv4_literal(s@),
{
    match scan_quad(s, 0) {
        Some(q) => q == s.len(),
        None => false,
    }
}

fn ipv6_literal(s: &[char]) -> (r: bool)
    ensures
        r == is_ipv6_literal(s@),
{
    let head = scan_groups(s, 0, 0, 8);
    if head.count == 8 {
        head.end == s.len()
    } else if head.quad {
        false
    } else if head.end < s.len() && s.len() - head.end > 1 && s[head.end] == ':' && s[head.end + 1]
        == ':' {
        let tail = scan_groups(s, head.end + 2, 0, 7 - head.count);
        tail.end == s.len()
    } else {
        false
    }
}

/// Whether `host` is written as a numeric address, so that it needs no lookup.
pub fn is_numeric_address(host: &str) -> (r: bool)
    ensures
        r == is_ip_literal(host@),
{
    let chars = chars_of(host);
    ipv4_literal(chars.as_slice()) || ipv6_literal(chars.as_slice())
}

} // verus!
