//! Small operations on text that the rest of the crate shares.

use vstd::prelude::*;
use vstd::string::*;
use vstd::utf8::*;

verus! {

/// The characters of a string, in order.
pub fn chars_of(s: &str) -> (v: Vec<char>)
    ensures
        v@ == s@,
{
    let mut v: Vec<char> = Vec::new();
    for c in it: s.chars()
        invariant
            v@ == it.seq().take(it.index() as int),
            it.seq() == s@,
    {
        v.push(c);
    }
    v
}

/// Whether two strings hold the same text.
pub fn str_eq(a: &str, b: &str) -> (r: bool)
    ensures
        r == (a@ == b@),
{
    let x = a.as_bytes();
    let y = b.as_bytes();
    proof {
        encode_utf8_decode_utf8(a@);
        encode_utf8_decode_utf8(b@);
    }
    if x.len() != y.len() {
        return false;
    }
    let mut i: usize = 0;
    while i < x.len()
        invariant
            i <= x.len(),
            x.len() == y.len(),
            x@ == encode_utf8(a@),
            y@ == encode_utf8(b@),
            forall|k: int| 0 <= k < i ==> x@[k] == y@[k],
        decreases x.len() - i,
    {
        if x[i] != y[i] {
            return false;
        }
        i += 1;
    }
    assert(x@ =~= y@);
    true
}

/// An owned copy of the characters `from..to` of `s`.
pub(crate) fn slice_of(s: &str, from: usize, to: usize) -> (r: String)
    requires
        from <= to <= s@.len(),
    ensures
        r@ == s@.subrange(from as int, to as int),
{
    s.substring_char(from, to).to_owned()
}

/// Whether `c` is a decimal digit.
pub open spec fn is_dec(c: char) -> bool {
    '0' <= c <= '9'
}

/// The value of the decimal digit `c`.
pub open spec fn dec_value(c: char) -> int {
    c as int - '0' as int
}

/// The number written by the `n` decimal digits of `s` from `p` on.
pub open spec fn number_at(s: Seq<char>, p: int, n: int) -> int
    decreases n,
{
    if n <= 0 {
        0
    } else {
        number_at(s, p, n - 1) * 10 + dec_value(s[p + n - 1])
    }
}

/// Whether `c` is white space: a character with the Unicode property
/// `White_Space`.
pub open spec fn is_space(c: char) -> bool {
    ||| '\u{9}' <= c <= '\u{d}'
    ||| c == ' '
    ||| c == '\u{85}'
    ||| c == '\u{a0}'
    ||| c == '\u{1680}'
    ||| '\u{2000}' <= c <= '\u{200a}'
    ||| c == '\u{2028}'
    ||| c == '\u{2029}'
    ||| c == '\u{202f}'
    ||| c == '\u{205f}'
    ||| c == '\u{3000}'
}

/// `s` without the white space at its start.
pub open spec fn trim_start(s: Seq<char>) -> Seq<char>
    decreases s.len(),
{
    if s.len() > 0 && is_space(s[0]) {
        trim_start(s.drop_first())
    } else {
        s
    }
}

/// `s` without the white space at its end.
pub open spec fn trim_end(s: Seq<char>) -> Seq<char>
    decreases s.len(),
{
    if s.len() > 0 && is_space(s.last()) {
        trim_end(s.drop_last())
    } else {
        s
    }
}

/// `s` without the white space at its start and at its end.
pub open spec fn trim(s: Seq<char>) -> Seq<char> {
    trim_end(trim_start(s))
}

/// The index of the first `c` in `s`, or the length of `s` where there is
/// none.
pub open spec fn index_of(s: Seq<char>, c: char) -> nat
    decreases s.len(),
{
    if s.len() == 0 || s[0] == c {
        0
    } else {
        1 + index_of(s.drop_first(), c)
    }
}

/// The lines of `s`: what stands between its line feeds, in order.
pub open spec fn lines(s: Seq<char>) -> Seq<Seq<char>>
    decreases s.len(),
{
    let end = index_of(s, '\n');
    if end >= s.len() {
        seq![s]
    } else {
        seq![s.take(end as int)] + lines(s.skip(end as int + 1))
    }
}

/// Whether `c` is `letter`, or the upper-case form of it in ASCII.
pub open spec fn same_letter(c: char, letter: char) -> bool {
    c == letter || ('A' <= c <= 'Z' && c as u32 + 32 == letter as u32)
}

/// Whether `word` is `keyword`, which is written in lower case, but for the
/// case of its ASCII letters.
pub open spec fn is_keyword(word: Seq<char>, keyword: Seq<char>) -> bool {
    &&& word.len() == keyword.len()
    &&& forall|i: int| 0 <= i < word.len() ==> same_letter(#[trigger] word[i], keyword[i])
}

/// The number that decimal digits write, where they are digits, at least
/// one, and the number is at most 65535.
pub open spec fn parse_digits(digits: Seq<char>) -> Option<u16> {
    if digits.len() > 0 && (forall|i: int| 0 <= i < digits.len() ==> is_dec(#[trigger] digits[i]))
        && number_at(digits, 0, digits.len() as int) <= 65535 {
        Some(number_at(digits, 0, digits.len() as int) as u16)
    } else {
        None
    }
}

/// The number that `s` writes as a port: decimal digits, behind a plus sign
/// or not, that write a number up to 65535.
pub open spec fn parse_u16(s: Seq<char>) -> Option<u16> {
    if s.len() > 0 && s[0] == '+' {
        parse_digits(s.skip(1))
    } else {
        parse_digits(s)
    }
}

/// Whether `c` is white space.
pub(crate) fn is_whitespace(c: char) -> (r: bool)
    ensures
        r == is_space(c),
{
    ('\u{9}' <= c && c <= '\u{d}') || c == ' ' || c == '\u{85}' || c == '\u{a0}' || c
        == '\u{1680}' || ('\u{2000}' <= c && c <= '\u{200a}') || c == '\u{2028}' || c
        == '\u{2029}' || c == '\u{202f}' || c == '\u{205f}' || c == '\u{3000}'
}

/// The bounds of what trimming leaves of the characters `from..to` of `s`.
pub(crate) fn trim_range(s: &[char], from: usize, to: usize) -> (r: (usize, usize))
    requires
        from <= to <= s@.len(),
    ensures
        from <= r.0 <= r.1 <= to,
        s@.subrange(r.0 as int, r.1 as int) == trim(s@.subrange(from as int, to as int)),
        r.0 < r.1 ==> !is_space(s@[r.0 as int]) && !is_space(s@[r.1 - 1]),
{
    let mut a: usize = from;
    while a < to && is_whitespace(s[a])
        invariant
            from <= a <= to <= s@.len(),
            trim_start(s@.subrange(from as int, to as int)) == trim_start(
                s@.subrange(a as int, to as int),
            ),
        decreases to - a,
    {
        assert(s@.subrange(a as int, to as int).drop_first() =~= s@.subrange(a + 1, to as int));
        a += 1;
    }
    let mut b: usize = to;
    while a < b && is_whitespace(s[b - 1])
        invariant
            a <= b <= to <= s@.len(),
            trim_end(s@.subrange(a as int, to as int)) == trim_end(s@.subrange(a as int, b as int)),
        decreases b - a,
    {
        assert(s@.subrange(a as int, b as int).drop_last() =~= s@.subrange(a as int, b - 1));
        b -= 1;
    }
    (a, b)
}

/// The index of the first `c` among the characters `from..to` of `s`, or
/// `to` where there is none.
pub(crate) fn find_char(s: &[char], from: usize, to: usize, c: char) -> (r: usize)
    requires
        from <= to <= s@.len(),
    ensures
        from <= r <= to,
        r - from == index_of(s@.subrange(from as int, to as int), c),
        r < to ==> s@[r as int] == c,
{
    let mut i: usize = from;
    while i < to && s[i] != c
        invariant
            from <= i <= to <= s@.len(),
            index_of(s@.subrange(from as int, to as int), c) == (i - from) + index_of(
                s@.subrange(i as int, to as int),
                c,
            ),
        decreases to - i,
    {
        assert(s@.subrange(i as int, to as int).drop_first() =~= s@.subrange(i + 1, to as int));
        i += 1;
    }
    i
}

/// Whether the characters `from..to` of `s` are `keyword` but for the case
/// of ASCII letters.
pub(crate) fn matches_keyword(s: &[char], from: usize, to: usize, keyword: &[char]) -> (r: bool)
    requires
        from <= to <= s@.len(),
    ensures
        r == is_keyword(s@.subrange(from as int, to as int), keyword@),
{
    if to - from != keyword.len() {
        return false;
    }
    let ghost word = s@.subrange(from as int, to as int);
    let mut i: usize = 0;
    while i < keyword.len()
        invariant
            from <= to <= s@.len(),
            to - from == keyword@.len(),
            i <= keyword@.len(),
            word == s@.subrange(from as int, to as int),
            forall|k: int| 0 <= k < i ==> same_letter(#[trigger] word[k], keyword@[k]),
        decreases keyword@.len() - i,
    {
        let c = s[from + i];
        let k = keyword[i];
        assert(word[i as int] == c);
        if !(c == k || ('A' <= c && c <= 'Z' && c as u32 + 32 == k as u32)) {
            return false;
        }
        i += 1;
    }
    true
}

/// A prefix of decimal digits writes no larger number than the whole.
proof fn lemma_number_grows(s: Seq<char>, p: int, k: int, n: int)
    requires
        0 <= p,
        0 <= k <= n,
        p + n <= s.len(),
        forall|i: int| p <= i < p + n ==> is_dec(#[trigger] s[i]),
    ensures
        0 <= number_at(s, p, k) <= number_at(s, p, n),
    decreases n,
{
    if k < n {
        lemma_number_grows(s, p, k, n - 1);
    } else if n > 0 {
        lemma_number_grows(s, p, k - 1, n - 1);
    }
}

/// The number written by digits does not depend on what stands around them.
proof fn lemma_number_of_range(s: Seq<char>, from: int, to: int, n: int)
    requires
        0 <= from <= to <= s.len(),
        0 <= n <= to - from,
    ensures
        number_at(s.subrange(from, to), 0, n) == number_at(s, from, n),
    decreases n,
{
    if n > 0 {
        lemma_number_of_range(s, from, to, n - 1);
    }
}

/// Reads the characters `from..to` of `s` as a port.
pub(crate) fn parse_port(s: &[char], from: usize, to: usize) -> (r: Option<u16>)
    requires
        from <= to <= s@.len(),
    ensures
        r == parse_u16(s@.subrange(from as int, to as int)),
{
    let ghost text = s@.subrange(from as int, to as int);
    let start: usize = if from < to && s[from] == '+' {
        from + 1
    } else {
        from
    };
    let ghost digits = s@.subrange(start as int, to as int);
    proof {
        if start > from {
            assert(text[0] == '+');
            assert(text.skip(1) =~= digits);
        } else {
            assert(text =~= digits);
            if text.len() > 0 {
                assert(text[0] == s@[from as int]);
            }
        }
    }
    assert(parse_u16(text) == parse_digits(digits));
    if start == to {
        return None;
    }
    let mut value: u32 = 0;
    let mut i: usize = start;
    while i < to
        invariant
            start <= i <= to <= s@.len(),
            from <= start,
            text == s@.subrange(from as int, to as int),
            digits == s@.subrange(start as int, to as int),
            parse_u16(text) == parse_digits(digits),
            forall|k: int| start <= k < i ==> is_dec(#[trigger] s@[k]),
            value == number_at(s@, start as int, i - start),
            value <= 65535,
        decreases to - i,
    {
        let c = s[i];
        if !('0' <= c && c <= '9') {
            proof {
                assert(digits[i - start] == c);
            }
            return None;
        }
        assert(number_at(s@, start as int, i - start + 1) == number_at(
            s@,
            start as int,
            i - start,
        ) * 10 + dec_value(s@[i as int]));
        value = value * 10 + (c as u32 - '0' as u32);
        if value > 65535 {
            proof {
                if forall|k: int| 0 <= k < digits.len() ==> is_dec(#[trigger] digits[k]) {
                    assert forall|k: int| start <= k < to implies is_dec(#[trigger] s@[k]) by {
                        assert(digits[k - start] == s@[k]);
                    }
                    lemma_number_grows(s@, start as int, i - start + 1, to - start);
                    lemma_number_of_range(s@, start as int, to as int, to - start);
                }
            }
            return None;
        }
        i += 1;
    }
    proof {
        lemma_number_of_range(s@, start as int, to as int, to - start);
        assert forall|k: int| 0 <= k < digits.len() implies is_dec(#[trigger] digits[k]) by {
            assert(digits[k] == s@[start + k]);
        }
    }
    Some(value as u16)
}

/// The character of a decimal digit.
pub open spec fn digit_char(d: nat) -> char {
    if d == 0 {
        '0'
    } else if d == 1 {
        '1'
    } else if d == 2 {
        '2'
    } else if d == 3 {
        '3'
    } else if d == 4 {
        '4'
    } else if d == 5 {
        '5'
    } else if d == 6 {
        '6'
    } else if d == 7 {
        '7'
    } else if d == 8 {
        '8'
    } else {
        '9'
    }
}

/// The decimal form of a number, without leading zeros.
pub open spec fn decimal(n: nat) -> Seq<char>
    decreases n,
{
    if n < 10 {
        seq![digit_char(n)]
    } else {
        decimal(n / 10).push(digit_char(n % 10))
    }
}

/// Whether `needle` stands somewhere in `hay`.
pub open spec fn contains_text(hay: Seq<char>, needle: Seq<char>) -> bool {
    exists|i: int|
        0 <= i <= hay.len() - needle.len() && #[trigger] hay.subrange(i, i + needle.len())
            == needle
}

/// The texts joined, with `separator` between each two.
pub open spec fn joined(parts: Seq<Seq<char>>, separator: Seq<char>) -> Seq<char>
    decreases parts.len(),
{
    if parts.len() == 0 {
        Seq::empty()
    } else if parts.len() == 1 {
        parts[0]
    } else {
        joined(parts.drop_last(), separator) + separator + parts.last()
    }
}

/// `n` spaces.
pub open spec fn spaces(n: nat) -> Seq<char> {
    Seq::new(n, |i: int| ' ')
}

/// The texts of a sequence of strings.
pub open spec fn texts(v: Seq<String>) -> Seq<Seq<char>> {
    v.map_values(|s: String| s@)
}

fn digit_str(d: u64) -> (r: &'static str)
    requires
        d < 10,
    ensures
        r@ == seq![digit_char(d as nat)],
{
    proof {
        reveal_strlit("0");
        reveal_strlit("1");
        reveal_strlit("2");
        reveal_strlit("3");
        reveal_strlit("4");
        reveal_strlit("5");
        reveal_strlit("6");
        reveal_strlit("7");
        reveal_strlit("8");
        reveal_strlit("9");
    }
    let r = if d == 0 {
        "0"
    } else if d == 1 {
        "1"
    } else if d == 2 {
        "2"
    } else if d == 3 {
        "3"
    } else if d == 4 {
        "4"
    } else if d == 5 {
        "5"
    } else if d == 6 {
        "6"
    } else if d == 7 {
        "7"
    } else if d == 8 {
        "8"
    } else {
        "9"
    };
    r
}

/// Writes a number in decimal.
pub fn decimal_text(n: u64) -> (r: String)
    ensures
        r@ == decimal(n as nat),
    decreases n,
{
    if n < 10 {
        digit_str(n).to_owned()
    } else {
        let mut r = decimal_text(n / 10);
        r.append(digit_str(n % 10));
        r
    }
}

/// Whether `needle` stands somewhere in `hay`.
pub fn contains(hay: &str, needle: &str) -> (r: bool)
    ensures
        r == contains_text(hay@, needle@),
{
    let h = chars_of(hay);
    let n = chars_of(needle);
    if n.len() > h.len() {
        return false;
    }
    let last: usize = h.len() - n.len();
    let mut i: usize = 0;
    while i <= last
        invariant
            h@ == hay@,
            n@ == needle@,
            n@.len() <= h@.len() <= usize::MAX,
            last == h@.len() - n@.len(),
            i <= last + 1,
            forall|j: int| 0 <= j < i ==> #[trigger] h@.subrange(j, j + n@.len()) != n@,
        decreases last + 1 - i,
    {
        let mut k: usize = 0;
        while k < n.len() && h[i + k] == n[k]
            invariant
                n@.len() <= h@.len() <= usize::MAX,
                last == h@.len() - n@.len(),
                i <= last,
                k <= n@.len(),
                forall|m: int| 0 <= m < k ==> h@[i + m] == n@[m],
            decreases n@.len() - k,
        {
            k += 1;
        }
        if k == n.len() {
            assert(h@.subrange(i as int, i + n@.len()) =~= n@);
            return true;
        }
        i += 1;
    }
    false
}

/// Joins texts, with `separator` between each two.
pub fn join(parts: &Vec<String>, separator: &str) -> (r: String)
    ensures
        r@ == joined(texts(parts@), separator@),
{
    let mut r = String::new();
    let mut i: usize = 0;
    while i < parts.len()
        invariant
            i <= parts@.len(),
            r@ == joined(texts(parts@).take(i as int), separator@),
        decreases parts@.len() - i,
    {
        let ghost before = texts(parts@).take(i as int);
        let ghost now = texts(parts@).take(i + 1);
        assert(now.drop_last() =~= before);
        assert(now.last() == parts@[i as int]@);
        if i > 0 {
            r.append(separator);
        }
        r.append(parts[i].as_str());
        proof {
            if i == 0 {
                assert(r@ =~= now[0]);
            }
        }
        i += 1;
    }
    assert(texts(parts@).take(parts@.len() as int) =~= texts(parts@));
    r
}

/// Appends `n` spaces to `line`.
pub(crate) fn pad(line: &mut String, n: usize)
    ensures
        final(line)@ == old(line)@ + spaces(n as nat),
{
    let mut i: usize = 0;
    proof {
        reveal_strlit(" ");
    }
    while i < n
        invariant
            i <= n,
            line@ == old(line)@ + spaces(i as nat),
            " "@ == seq![' '],
        decreases n - i,
    {
        line.append(" ");
        i += 1;
    }
}

} // verus!
