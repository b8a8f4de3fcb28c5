//! Verified text utilities: substring search, suffix tests, the
//! first-lines window used for content sniffing, and decimal rendering
//! of exit codes.
use vstd::prelude::*;
use vstd::string::*;

verus! {

/// The needle occurs in the haystack starting at position `i`.
pub open spec fn substr_at(hay: Seq<char>, needle: Seq<char>, i: int) -> bool {
    0 <= i && i + needle.len() <= hay.len() && hay.subrange(i, i + needle.len() as int)
        == needle
}

/// The needle occurs somewhere in the haystack.
pub open spec fn contains_seq(hay: Seq<char>, needle: Seq<char>) -> bool {
    exists|i: int| substr_at(hay, needle, i)
}

/// The sequence ends with the given suffix.
pub open spec fn ends_with_seq(s: Seq<char>, suffix: Seq<char>) -> bool {
    suffix.len() <= s.len() && s.subrange(s.len() - suffix.len(), s.len() as int) == suffix
}

/// The sequence starts with the given prefix.
pub open spec fn starts_with_seq(s: Seq<char>, prefix: Seq<char>) -> bool {
    prefix.len() <= s.len() && s.subrange(0, prefix.len() as int) == prefix
}

/// The characters of a string slice, as a vector.
pub fn chars_of(s: &str) -> (v: Vec<char>)
    ensures
        v@ == s@,
{
    let n = s.unicode_len();
    let mut v: Vec<char> = Vec::new();
    let mut i: usize = 0;
    while i < n
        invariant
            n == s@.len(),
            i <= n,
            v@ == s@.subrange(0, i as int),
        decreases n - i,
    {
        let c = s.get_char(i);
        v.push(c);
        assert(v@ =~= s@.subrange(0, i + 1));
        i += 1;
    }
    assert(v@ =~= s@);
    v
}

/// Whether the needle occurs at exactly position `i` of the haystack.
fn match_at(hay: &Vec<char>, needle: &Vec<char>, i: usize) -> (r: bool)
    requires
        i + needle@.len() <= hay@.len(),
    ensures
        r == substr_at(hay@, needle@, i as int),
{
    let hay_len = hay.len();
    let mut j: usize = 0;
    while j < needle.len()
        invariant
            hay_len == hay@.len(),
            i + needle@.len() <= hay@.len(),
            j <= needle@.len(),
            forall|k: int| 0 <= k < j ==> hay@[i + k] == needle@[k],
        decreases needle@.len() - j,
    {
        if hay[i + j] != needle[j] {
            assert(!substr_at(hay@, needle@, i as int)) by {
                if substr_at(hay@, needle@, i as int) {
                    assert(hay@.subrange(i as int, i + needle@.len() as int)[j as int]
                        == hay@[i + j]);
                }
            }
            return false;
        }
        j += 1;
    }
    assert(hay@.subrange(i as int, i + needle@.len() as int) =~= needle@);
    true
}

/// Substring search: whether the needle occurs anywhere in the haystack.
pub fn contains_chars(hay: &Vec<char>, needle: &Vec<char>) -> (r: bool)
    ensures
        r == contains_seq(hay@, needle@),
{
    if needle.len() > hay.len() {
        assert(forall|i: int| !substr_at(hay@, needle@, i));
        return false;
    }
    let last = hay.len() - needle.len();
    let mut i: usize = 0;
    loop
        invariant
            needle@.len() <= hay@.len(),
            last == hay@.len() - needle@.len(),
            i <= last,
            forall|k: int| 0 <= k < i ==> !substr_at(hay@, needle@, k),
        decreases last - i,
    {
        if match_at(hay, needle, i) {
            return true;
        }
        if i == last {
            assert(forall|k: int| substr_at(hay@, needle@, k) ==> 0 <= k <= last);
            return false;
        }
        i += 1;
    }
}

/// Whether the text ends with the given suffix.
pub fn ends_with_chars(s: &Vec<char>, suffix: &Vec<char>) -> (r: bool)
    ensures
        r == ends_with_seq(s@, suffix@),
{
    if suffix.len() > s.len() {
        return false;
    }
    match_at(s, suffix, s.len() - suffix.len())
}

/// Whether two string slices hold the same characters.
pub fn str_eq(a: &str, b: &str) -> (r: bool)
    ensures
        r == (a@ == b@),
{
    let va = chars_of(a);
    let vb = chars_of(b);
    if va.len() != vb.len() {
        return false;
    }
    let mut i: usize = 0;
    while i < va.len()
        invariant
            va@ == a@,
            vb@ == b@,
            va@.len() == vb@.len(),
            i <= va@.len(),
            forall|k: int| 0 <= k < i ==> va@[k] == vb@[k],
        decreases va@.len() - i,
    {
        if va[i] != vb[i] {
            return false;
        }
        i += 1;
    }
    assert(a@ =~= b@);
    true
}

/// The concatenation of the first `k` lines of a text, as produced by
/// splitting on line feeds and dropping a carriage return that stands
/// directly before a line feed.
pub open spec fn first_lines(s: Seq<char>, k: nat) -> Seq<char>
    decreases s.len(),
{
    if k == 0 || s.len() == 0 {
        Seq::empty()
    } else if s[0] == '\n' {
        first_lines(s.skip(1), (k - 1) as nat)
    } else if s[0] == '\r' && s.len() >= 2 && s[1] == '\n' {
        first_lines(s.skip(2), (k - 1) as nat)
    } else {
        seq![s[0]] + first_lines(s.skip(1), k)
    }
}

/// Collects the first `k` lines of the text into one vector, without
/// the line separators.
pub fn take_first_lines(s: &Vec<char>, k: usize) -> (v: Vec<char>)
    ensures
        v@ == first_lines(s@, k as nat),
{
    let mut out: Vec<char> = Vec::new();
    let mut i: usize = 0;
    let mut left: usize = k;
    assert(s@.skip(0) =~= s@);
    assert(Seq::<char>::empty() + first_lines(s@, k as nat) =~= first_lines(s@, k as nat));
    while i < s.len() && left > 0
        invariant
            i <= s@.len(),
            first_lines(s@, k as nat) == out@ + first_lines(s@.skip(i as int), left as nat),
        decreases s@.len() - i,
    {
        let ghost rest = s@.skip(i as int);
        let c = s[i];
        assert(rest[0] == s@[i as int]);
        if c == '\n' {
            proof {
                assert(rest.skip(1) =~= s@.skip(i + 1));
                assert(first_lines(rest, left as nat) == first_lines(
                    s@.skip(i + 1),
                    (left - 1) as nat,
                ));
            }
            i += 1;
            left -= 1;
        } else if c == '\r' && i + 1 < s.len() && s[i + 1] == '\n' {
            proof {
                assert(rest[1] == s@[i + 1]);
                assert(rest.len() >= 2);
                assert(rest.skip(2) =~= s@.skip(i + 2));
                assert(first_lines(rest, left as nat) == first_lines(
                    s@.skip(i + 2),
                    (left - 1) as nat,
                ));
            }
            i += 2;
            left -= 1;
        } else {
            proof {
                assert(rest.skip(1) =~= s@.skip(i + 1));
                if c == '\r' && rest.len() >= 2 {
                    assert(rest[1] == s@[i + 1]);
                }
                assert(first_lines(rest, left as nat) == seq![c] + first_lines(
                    s@.skip(i + 1),
                    left as nat,
                ));
                assert(out@ + (seq![c] + first_lines(s@.skip(i + 1), left as nat))
                    =~= out@.push(c) + first_lines(s@.skip(i + 1), left as nat));
            }
            out.push(c);
            i += 1;
        }
    }
    proof {
        if i == s@.len() {
            assert(s@.skip(i as int).len() == 0);
        }
        assert(first_lines(s@.skip(i as int), left as nat) == Seq::<char>::empty());
        assert(out@ + Seq::<char>::empty() =~= out@);
    }
    out
}

/// The decimal digit characters.
pub open spec fn digit_char(d: nat) -> char {
    if d == 0 {
        '0'
    } else if d == 1 {
        '1'
    } else if d == 2 {
        '2'
    } else if d == 3 {
        '3'
    } else if d == 4 {
        '4'
    } else if d == 5 {
        '5'
    } else if d == 6 {
        '6'
    } else if d == 7 {
        '7'
    } else if d == 8 {
        '8'
    } else {
        '9'
    }
}

/// The decimal rendering of a natural number.
pub open spec fn dec_nat(n: nat) -> Seq<char>
    decreases n,
{
    if n < 10 {
        seq![digit_char(n)]
    } else {
        dec_nat(n / 10) + seq![digit_char(n % 10)]
    }
}

/// The decimal rendering of an integer, with a leading minus sign when
/// it is negative.
pub open spec fn dec_int(i: int) -> Seq<char> {
    if i < 0 {
        seq!['-'] + dec_nat((-i) as nat)
    } else {
        dec_nat(i as nat)
    }
}

/// A one-character string for each decimal digit.
fn digit_str(d: u64) -> (s: &'static str)
    requires
        d < 10,
    ensures
        s@ =~= seq![digit_char(d as nat)],
{
    proof {
        reveal_strlit("0");
        reveal_strlit("1");
        reveal_strlit("2");
        reveal_strlit("3");
        reveal_strlit("4");
        reveal_strlit("5");
        reveal_strlit("6");
        reveal_strlit("7");
        reveal_strlit("8");
        reveal_strlit("9");
    }
    match d {
        0 => "0",
        1 => "1",
        2 => "2",
        3 => "3",
        4 => "4",
        5 => "5",
        6 => "6",
        7 => "7",
        8 => "8",
        _ => "9",
    }
}

/// Renders a natural number in decimal.
pub fn dec_u64_string(n: u64) -> (s: String)
    ensures
        s@ == dec_nat(n as nat),
    decreases n,
{
    if n < 10 {
        String::from_str(digit_str(n))
    } else {
        let mut s = dec_u64_string(n / 10);
        s.append(digit_str(n % 10));
        assert(s@ =~= dec_nat(n as nat));
        s
    }
}

/// Renders a signed 32-bit integer in decimal.
pub fn dec_i32_string(code: i32) -> (s: String)
    ensures
        s@ == dec_int(code as int),
{
    if code < 0 {
        let magnitude: i64 = -(code as i64);
        let mut s = String::from_str("-");
        proof {
            reveal_strlit("-");
        }
        let digits = dec_u64_string(magnitude as u64);
        s.append(digits.as_str());
        assert(s@ =~= dec_int(code as int));
        s
    } else {
        dec_u64_string(code as u64)
    }
}

/// The rendering of a natural number is never empty.
pub proof fn lemma_dec_nat_nonempty(n: nat)
    ensures
        dec_nat(n).len() >= 1,
    decreases n,
{
    if n >= 10 {
        lemma_dec_nat_nonempty(n / 10);
    }
}

} // verus!
