use vstd::prelude::*;

verus! {

/// Whitespace that is stripped from the ends of a day token before matching:
/// space, tab, carriage return and line feed.
pub open spec fn is_space_char(c: char) -> bool {
    c == ' ' || c == '\t' || c == '\n' || c == '\r'
}

fn is_space(c: char) -> (r: bool)
    ensures
        r == is_space_char(c),
{
    c == ' ' || c == '\t' || c == '\n' || c == '\r'
}

pub open spec fn trim_start_spec(s: Seq<char>) -> Seq<char>
    decreases s.len(),
{
    if s.len() > 0 && is_space_char(s[0]) {
        trim_start_spec(s.drop_first())
    } else {
        s
    }
}

pub open spec fn trim_end_spec(s: Seq<char>) -> Seq<char>
    decreases s.len(),
{
    if s.len() > 0 && is_space_char(s.last()) {
        trim_end_spec(s.drop_last())
    } else {
        s
    }
}

/// A day token with surrounding whitespace removed.
pub open spec fn trim_spec(s: Seq<char>) -> Seq<char> {
    trim_end_spec(trim_start_spec(s))
}

/// The character range of `s` that remains once surrounding whitespace goes.
pub fn trimmed_range(s: &str) -> (r: (usize, usize))
    ensures
        r.0 <= r.1 <= s@.len(),
        s@.subrange(r.0 as int, r.1 as int) == trim_spec(s@),
{
    let n: usize = s.unicode_len();
    let mut lo: usize = 0;
    proof {
        assert(s@.subrange(0, n as int) =~= s@);
    }
    while lo < n && is_space(s.get_char(lo))
        invariant
            lo <= n,
            n == s@.len(),
            trim_start_spec(s@) == trim_start_spec(s@.subrange(lo as int, n as int)),
        decreases n - lo,
    {
        proof {
            let cur = s@.subrange(lo as int, n as int);
            assert(cur.drop_first() =~= s@.subrange(lo as int + 1, n as int));
        }
        lo = lo + 1;
    }
    proof {
        assert(trim_start_spec(s@) == s@.subrange(lo as int, n as int));
    }
    let mut hi: usize = n;
    while hi > lo && is_space(s.get_char(hi - 1))
        invariant
            lo <= hi <= n,
            n == s@.len(),
            trim_start_spec(s@) == s@.subrange(lo as int, n as int),
            trim_end_spec(s@.subrange(lo as int, n as int)) == trim_end_spec(
                s@.subrange(lo as int, hi as int),
            ),
        decreases hi,
    {
        proof {
            let cur = s@.subrange(lo as int, hi as int);
            assert(cur.last() == s@[hi - 1]);
            assert(cur.drop_last() =~= s@.subrange(lo as int, hi as int - 1));
        }
        hi = hi - 1;
    }
    (lo, hi)
}

/// Letters that have a distinct upper-case form the matcher must accept:
/// the Latin letters `a`-`z` and the Russian letters from `а` to `я`.
pub open spec fn is_cased_lower(e: char) -> bool {
    (0x61 <= e as u32 && e as u32 <= 0x7a) || (0x430 <= e as u32 && e as u32 <= 0x44f)
}

/// Character `c` of the input matches canonical lower-case character `e`,
/// either exactly or as its upper-case form (which sits 32 code points below
/// it, both in the Latin and in the Russian alphabet).
pub open spec fn char_matches_ci(c: char, e: char) -> bool {
    c == e || (is_cased_lower(e) && c as u32 + 32 == e as u32)
}

fn exec_char_matches_ci(c: char, e: char) -> (r: bool)
    ensures
        r == char_matches_ci(c, e),
{
    if c == e {
        true
    } else {
        let cu = c as u32;
        let eu = e as u32;
        ((0x61 <= eu && eu <= 0x7a) || (0x430 <= eu && eu <= 0x44f)) && cu == eu - 32
    }
}

/// `s` spells the canonical token `t`, ignoring letter case.
pub open spec fn seq_matches_ci(s: Seq<char>, t: Seq<char>) -> bool {
    s.len() == t.len() && forall|i: int|
        0 <= i < s.len() ==> char_matches_ci(s[i], #[trigger] t[i])
}

/// Case-insensitive match of the character range `lo..hi` of `s` against `t`.
pub fn range_matches_ci(s: &str, lo: usize, hi: usize, t: &str) -> (r: bool)
    requires
        lo <= hi <= s@.len(),
    ensures
        r == seq_matches_ci(s@.subrange(lo as int, hi as int), t@),
{
    let n: usize = t.unicode_len();
    if hi - lo != n {
        return false;
    }
    let ghost sub = s@.subrange(lo as int, hi as int);
    for i in 0..n
        invariant
            lo <= hi <= s@.len(),
            n == t@.len(),
            hi - lo == n,
            sub == s@.subrange(lo as int, hi as int),
            forall|j: int| 0 <= j < i ==> char_matches_ci(sub[j], #[trigger] t@[j]),
    {
        if !exec_char_matches_ci(s.get_char(lo + i), t.get_char(i)) {
            return false;
        }
    }
    true
}

/// Exact character-for-character string equality.
pub fn str_eq(a: &str, b: &str) -> (r: bool)
    ensures
        r == (a@ == b@),
{
    let n: usize = a.unicode_len();
    if n != b.unicode_len() {
        return false;
    }
    for i in 0..n
        invariant
            n == a@.len(),
            n == b@.len(),
            forall|j: int| 0 <= j < i ==> a@[j] == b@[j],
    {
        if a.get_char(i) != b.get_char(i) {
            return false;
        }
    }
    proof {
        assert(a@ =~= b@);
    }
    true
}

/// The decimal digit character for a value below ten.
pub open spec fn digit_char_spec(d: int) -> char {
    if d == 0 {
        '0'
    } else if d == 1 {
        '1'
    } else if d == 2 {
        '2'
    } else if d == 3 {
        '3'
    } else if d == 4 {
        '4'
    } else if d == 5 {
        '5'
    } else if d == 6 {
        '6'
    } else if d == 7 {
        '7'
    } else if d == 8 {
        '8'
    } else {
        '9'
    }
}

fn digit_str(d: u32) -> (r: &'static str)
    requires
        d < 10,
    ensures
        r@ == seq![digit_char_spec(d as int)],
{
    proof {
        reveal_strlit("0");
        reveal_strlit("1");
        reveal_strlit("2");
        reveal_strlit("3");
        reveal_strlit("4");
        reveal_strlit("5");
        reveal_strlit("6");
        reveal_strlit("7");
        reveal_strlit("8");
        reveal_strlit("9");
    }
    let r = match d {
        0 => "0",
        1 => "1",
        2 => "2",
        3 => "3",
        4 => "4",
        5 => "5",
        6 => "6",
        7 => "7",
        8 => "8",
        _ => "9",
    };
    proof {
        assert(r@ =~= seq![digit_char_spec(d as int)]);
    }
    r
}

/// A value below one hundred as two zero-padded decimal digits.
pub open spec fn two_digits_spec(v: int) -> Seq<char> {
    seq![digit_char_spec(v / 10), digit_char_spec(v % 10)]
}

/// Appends `v` to `out` as two zero-padded decimal digits.
pub fn push_two_digits(out: &mut String, v: u32)
    requires
        v < 100,
    ensures
        final(out)@ == old(out)@ + two_digits_spec(v as int),
{
    out.append(digit_str(v / 10));
    out.append(digit_str(v % 10));
    proof {
        assert(out@ =~= old(out)@ + two_digits_spec(v as int));
    }
}

} // verus!
