//! Small text helpers: comparison, search and decimal notation.

use vstd::prelude::*;

verus! {

/// The code point of `c`, with the ASCII capitals mapped to the small letters.
pub open spec fn ascii_folded(c: char) -> int {
    if 'A' <= c && c <= 'Z' {
        c as int + 32
    } else {
        c as int
    }
}

/// Two texts are the same up to the case of their ASCII letters.
pub open spec fn same_ignoring_ascii_case(a: Seq<char>, b: Seq<char>) -> bool {
    &&& a.len() == b.len()
    &&& forall|i: int| 0 <= i < a.len() ==> ascii_folded(#[trigger] a[i]) == ascii_folded(b[i])
}

/// `pattern` stands in `text` at position `at`.
pub open spec fn stands_at(text: Seq<char>, pattern: Seq<char>, at: int) -> bool {
    &&& 0 <= at
    &&& at + pattern.len() <= text.len()
    &&& text.subrange(at, at + pattern.len()) == pattern
}

/// `pattern` stands somewhere in `text`.
pub open spec fn occurs_in(text: Seq<char>, pattern: Seq<char>) -> bool {
    exists|at: int| stands_at(text, pattern, at)
}

/// The digit for a number below ten.
pub open spec fn digit(d: int) -> char {
    (48 + d) as char
}

/// Decimal notation of a natural number, without leading zeros.
pub open spec fn decimal_digits(n: nat) -> Seq<char>
    decreases n,
{
    if n < 10 {
        seq![digit(n as int)]
    } else {
        decimal_digits(n / 10).push(digit((n % 10) as int))
    }
}

/// Decimal notation of an integer, with a minus sign where it is negative.
pub open spec fn decimal(n: int) -> Seq<char> {
    if n < 0 {
        seq!['-'] + decimal_digits((-n) as nat)
    } else {
        decimal_digits(n as nat)
    }
}

fn chars_of(text: &str) -> (chars: Vec<char>)
    ensures
        chars@ == text@,
{
    let len: usize = text.unicode_len();
    let mut chars: Vec<char> = Vec::new();
    let mut i: usize = 0;
    while i < len
        invariant
            i <= len,
            len == text@.len(),
            chars@ == text@.subrange(0, i as int),
        decreases len - i,
    {
        chars.push(text.get_char(i));
        i = i + 1;
    }
    chars
}

fn folded(c: char) -> (code: u32)
    ensures
        code == ascii_folded(c),
{
    if 'A' <= c && c <= 'Z' {
        c as u32 + 32
    } else {
        c as u32
    }
}

/// Whether the two texts hold the same characters.
pub fn equal(a: &str, b: &str) -> (same: bool)
    ensures
        same == (a@ == b@),
{
    let left = chars_of(a);
    let right = chars_of(b);
    if left.len() != right.len() {
        return false;
    }
    let mut i: usize = 0;
    while i < left.len()
        invariant
            i <= left.len(),
            left.len() == right.len(),
            left@ == a@,
            right@ == b@,
            forall|k: int| 0 <= k < i ==> left@[k] == right@[k],
        decreases left.len() - i,
    {
        if left[i] != right[i] {
            return false;
        }
        i = i + 1;
    }
    proof {
        assert(a@ =~= b@);
    }
    true
}

/// Whether the two texts are the same up to the case of their ASCII letters.
pub fn eq_ignore_ascii_case(a: &str, b: &str) -> (same: bool)
    ensures
        same == same_ignoring_ascii_case(a@, b@),
{
    let left = chars_of(a);
    let right = chars_of(b);
    if left.len() != right.len() {
        return false;
    }
    let mut i: usize = 0;
    while i < left.len()
        invariant
            i <= left.len(),
            left.len() == right.len(),
            left@ == a@,
            right@ == b@,
            forall|k: int|
                0 <= k < i ==> ascii_folded(#[trigger] left@[k]) == ascii_folded(right@[k]),
        decreases left.len() - i,
    {
        if folded(left[i]) != folded(right[i]) {
            return false;
        }
        i = i + 1;
    }
    true
}

fn matches_at(text: &Vec<char>, pattern: &Vec<char>, at: usize) -> (found: bool)
    requires
        at + pattern.len() <= text.len(),
    ensures
        found == stands_at(text@, pattern@, at as int),
{
    let mut i: usize = 0;
    while i < pattern.len()
        invariant
            i <= pattern.len(),
            at + pattern.len() <= text.len(),
            forall|k: int| 0 <= k < i ==> text@[at + k] == #[trigger] pattern@[k],
        decreases pattern.len() - i,
    {
        if text[at + i] != pattern[i] {
            proof {
                assert(text@.subrange(at as int, at + pattern@.len())[i as int] != pattern@[i as int]);
            }
            return false;
        }
        i = i + 1;
    }
    proof {
        assert(text@.subrange(at as int, at + pattern@.len()) =~= pattern@);
    }
    true
}

/// Whether `pattern` stands somewhere in `text`.
pub fn contains(text: &str, pattern: &str) -> (found: bool)
    ensures
        found == occurs_in(text@, pattern@),
{
    let haystack = chars_of(text);
    let needle = chars_of(pattern);
    if needle.len() > haystack.len() {
        return false;
    }
    let last: usize = haystack.len() - needle.len();
    let mut at: usize = 0;
    while at <= last
        invariant
            at <= last + 1,
            last + needle.len() == haystack.len(),
            haystack@ == text@,
            needle@ == pattern@,
            forall|k: int| 0 <= k < at ==> !stands_at(text@, pattern@, k),
        decreases last + 1 - at,
    {
        if matches_at(&haystack, &needle, at) {
            return true;
        }
        if at == last {
            return false;
        }
        at = at + 1;
    }
    false
}

fn digit_text(d: u32) -> (text: &'static str)
    requires
        d < 10,
    ensures
        text@ == seq![digit(d as int)],
{
    proof {
        reveal_strlit("0");
        reveal_strlit("1");
        reveal_strlit("2");
        reveal_strlit("3");
        reveal_strlit("4");
        reveal_strlit("5");
        reveal_strlit("6");
        reveal_strlit("7");
        reveal_strlit("8");
        reveal_strlit("9");
    }
    match d {
        0 => "0",
        1 => "1",
        2 => "2",
        3 => "3",
        4 => "4",
        5 => "5",
        6 => "6",
        7 => "7",
        8 => "8",
        _ => "9",
    }
}

fn push_digits(n: u32, out: &mut String)
    ensures
        final(out)@ == old(out)@ + decimal_digits(n as nat),
    decreases n,
{
    if n >= 10 {
        push_digits(n / 10, out);
    }
    out.append(digit_text(n % 10));
}

/// Appends the decimal notation of `n` to `out`.
pub fn push_decimal(n: i32, out: &mut String)
    ensures
        final(out)@ == old(out)@ + decimal(n as int),
{
    if n < 0 {
        proof {
            reveal_strlit("-");
        }
        out.append("-");
        let magnitude: i64 = -(n as i64);
        push_digits(magnitude as u32, out);
        proof {
            assert("-"@ =~= seq!['-']);
        }
    } else {
        push_digits(n as u32, out);
    }
}

/// Two texts are the same up to ASCII case where they are of one length and, place by place,
/// hold the same character or the capital and the small form of one letter.
pub proof fn law_ascii_case_is_all_that_is_ignored(a: Seq<char>, b: Seq<char>)
    ensures
        same_ignoring_ascii_case(a, b) <==> {
            &&& a.len() == b.len()
            &&& forall|i: int|
                0 <= i < a.len() ==> {
                    ||| #[trigger] a[i] == b[i]
                    ||| 'A' <= a[i] && a[i] <= 'Z' && b[i] as int - a[i] as int == 32
                    ||| 'A' <= b[i] && b[i] <= 'Z' && a[i] as int - b[i] as int == 32
                }
        },
{
    if same_ignoring_ascii_case(a, b) {
        assert forall|i: int| 0 <= i < a.len() implies {
            ||| #[trigger] a[i] == b[i]
            ||| 'A' <= a[i] && a[i] <= 'Z' && b[i] as int - a[i] as int == 32
            ||| 'A' <= b[i] && b[i] <= 'Z' && a[i] as int - b[i] as int == 32
        } by {
            assert(ascii_folded(a[i]) == ascii_folded(b[i]));
        }
    }
}

/// A pattern is in a text exactly where the text is something, the pattern, and something again.
pub proof fn law_occurring_is_standing_between(text: Seq<char>, pattern: Seq<char>)
    ensures
        occurs_in(text, pattern) <==> exists|before: Seq<char>, after: Seq<char>|
            text == #[trigger] (before + pattern + after),
{
    if occurs_in(text, pattern) {
        let at = choose|at: int| stands_at(text, pattern, at);
        let before = text.take(at);
        let after = text.skip(at + pattern.len());
        assert(text =~= before + pattern + after);
    }
    if exists|before: Seq<char>, after: Seq<char>| text == #[trigger] (before + pattern + after) {
        let (before, after) = choose|before: Seq<char>, after: Seq<char>|
            text == #[trigger] (before + pattern + after);
        let at = before.len() as int;
        assert(text.subrange(at, at + pattern.len()) =~= pattern);
        assert(stands_at(text, pattern, at));
    }
}

/// Decimal notation, from its first digit to its last: a number below ten is its digit, ten
/// times a number plus a digit is the number with the digit behind it, and a negative number is
/// the positive one with a minus sign before it.
pub proof fn law_decimal_notation(n: int, d: int)
    requires
        0 < n,
        0 <= d < 10,
    ensures
        decimal(d).len() == 1,
        decimal(d)[0] as int == '0' as int + d,
        decimal(10 * n + d) == decimal(n) + decimal(d),
        decimal(-n) == seq!['-'] + decimal(n),
{
    let whole = (10 * n + d) as nat;
    assert(whole / 10 == n);
    assert(whole % 10 == d);
    assert(decimal_digits(whole) == decimal_digits(n as nat).push(digit(d)));
    assert(decimal(10 * n + d) =~= decimal(n) + decimal(d));
}

} // verus!
