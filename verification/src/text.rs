//! Small verified operations on text: the prefix tests and splits that the
//! key formats of the store are built on.

use vstd::prelude::*;
use vstd::std_specs::iter::IteratorSpec;
use vstd::string::StringExecFns;

verus! {

/// Whether `prefix` begins `text`.
pub open spec fn begins_with(text: Seq<char>, prefix: Seq<char>) -> bool {
    prefix.len() <= text.len() && text.subrange(0, prefix.len() as int) == prefix
}

/// The characters of `text` from position `from` to the end.
pub open spec fn tail_from(text: Seq<char>, from: int) -> Seq<char> {
    text.subrange(from, text.len() as int)
}

/// The position of the first occurrence of `c` in `text`, or the length of
/// `text` where `c` does not occur.
pub open spec fn first_index_of(text: Seq<char>, c: char) -> int
    decreases text.len(),
{
    if text.len() == 0 {
        0
    } else if text[0] == c {
        0
    } else {
        1 + first_index_of(text.drop_first(), c)
    }
}

/// `first_index_of` is a position within the text or its length, the
/// character sits there if it is a position, and does not occur before it.
pub proof fn lemma_first_index_of(text: Seq<char>, c: char)
    ensures
        0 <= first_index_of(text, c) <= text.len(),
        first_index_of(text, c) < text.len() ==> text[first_index_of(text, c)] == c,
        forall|i: int| 0 <= i < first_index_of(text, c) ==> text[i] != c,
    decreases text.len(),
{
    if text.len() > 0 && text[0] != c {
        let rest = text.drop_first();
        lemma_first_index_of(rest, c);
        assert forall|i: int| 0 <= i < first_index_of(text, c) implies text[i] != c by {
            if i > 0 {
                assert(text[i] == rest[i - 1]);
            }
        }
    }
}

/// Where `c` sits at position `at` of `text` and nowhere before it, `at` is
/// its first index.
pub proof fn lemma_first_index_is(text: Seq<char>, c: char, at: int)
    requires
        0 <= at < text.len(),
        text[at] == c,
        forall|i: int| 0 <= i < at ==> text[i] != c,
    ensures
        first_index_of(text, c) == at,
{
    lemma_first_index_of(text, c);
}

/// The characters of a string slice, in order.
pub fn chars_of(text: &str) -> (chars: Vec<char>)
    ensures
        chars@ == text@,
{
    let mut chars: Vec<char> = Vec::new();
    for c in it: text.chars()
        invariant
            it.seq() == text@,
            chars@ == it.seq().take(it.index()),
    {
        chars.push(c);
    }
    chars
}

/// Whether two sequences of characters are the same.
pub fn same_chars(a: &Vec<char>, b: &Vec<char>) -> (same: bool)
    ensures
        same == (a@ == b@),
{
    if a.len() != b.len() {
        return false;
    }
    let mut i: usize = 0;
    while i < a.len()
        invariant
            a.len() == b.len(),
            i <= a.len(),
            forall|j: int| 0 <= j < i ==> a@[j] == b@[j],
        decreases a.len() - i,
    {
        if a[i] != b[i] {
            return false;
        }
        i = i + 1;
    }
    assert(a@ =~= b@);
    true
}

/// Whether two string slices hold the same text.
pub fn same_text(a: &str, b: &str) -> (same: bool)
    ensures
        same == (a@ == b@),
{
    let ca = chars_of(a);
    let cb = chars_of(b);
    same_chars(&ca, &cb)
}

/// Whether `text` starts with `prefix`.
pub fn starts_with(text: &str, prefix: &str) -> (found: bool)
    ensures
        found == begins_with(text@, prefix@),
{
    let t = chars_of(text);
    let p = chars_of(prefix);
    if p.len() > t.len() {
        return false;
    }
    let mut i: usize = 0;
    while i < p.len()
        invariant
            t@ == text@,
            p@ == prefix@,
            p.len() <= t.len(),
            i <= p.len(),
            forall|j: int| 0 <= j < i ==> t@[j] == p@[j],
        decreases p.len() - i,
    {
        if t[i] != p[i] {
            assert(t@.subrange(0, p@.len() as int)[i as int] != p@[i as int]);
            return false;
        }
        i = i + 1;
    }
    assert(t@.subrange(0, p@.len() as int) =~= p@);
    true
}

/// The text that follows the first `from` characters of `text`.
pub fn text_after(text: &str, from: usize) -> (rest: String)
    requires
        from <= text@.len(),
    ensures
        rest@ == tail_from(text@, from as int),
{
    let end = text.unicode_len();
    String::from_str(text.substring_char(from, end))
}

/// The position of the first `c` in `text`, if there is one.
pub fn find_char(text: &str, c: char) -> (found: Option<usize>)
    ensures
        match found {
            Some(i) => i < text@.len() && i == first_index_of(text@, c),
            None => first_index_of(text@, c) == text@.len(),
        },
        text@.len() <= usize::MAX,
{
    let t = chars_of(text);
    let mut i: usize = 0;
    proof {
        lemma_first_index_of(text@, c);
    }
    assert(t.len() <= usize::MAX);
    while i < t.len()
        invariant
            t@ == text@,
            i <= t.len(),
            forall|j: int| 0 <= j < i ==> t@[j] != c,
            0 <= first_index_of(text@, c) <= text@.len(),
            first_index_of(text@, c) < text@.len() ==> text@[first_index_of(text@, c)] == c,
            forall|j: int| 0 <= j < first_index_of(text@, c) ==> text@[j] != c,
        decreases t.len() - i,
    {
        if t[i] == c {
            return Some(i);
        }
        i = i + 1;
    }
    None
}

/// The characters of `text` before position `to`.
pub open spec fn head_to(text: Seq<char>, to: int) -> Seq<char> {
    text.subrange(0, to)
}

/// The first `to` characters of `text`.
pub fn text_before(text: &str, to: usize) -> (head: String)
    requires
        to <= text@.len(),
    ensures
        head@ == head_to(text@, to as int),
{
    String::from_str(text.substring_char(0, to))
}

/// Whether `pattern` stands in `text` at position `at`.
pub open spec fn occurs_at(text: Seq<char>, pattern: Seq<char>, at: int) -> bool {
    0 <= at && at + pattern.len() <= text.len() && text.subrange(at, at + pattern.len())
        == pattern
}

/// The first position from `from` on at which `pattern` stands in `text`,
/// or the length of `text` where it stands nowhere from there on.
pub open spec fn first_occurrence_from(text: Seq<char>, pattern: Seq<char>, from: int) -> int
    decreases text.len() - from,
{
    if from < 0 || from >= text.len() {
        text.len() as int
    } else if occurs_at(text, pattern, from) {
        from
    } else {
        first_occurrence_from(text, pattern, from + 1)
    }
}

/// The first position at which `pattern` stands in `text`, or the length of
/// `text` where it stands nowhere.
pub open spec fn first_occurrence(text: Seq<char>, pattern: Seq<char>) -> int {
    first_occurrence_from(text, pattern, 0)
}

/// Whether `pattern` stands in `text` at position `at`.
fn matches_at(text: &Vec<char>, pattern: &Vec<char>, at: usize) -> (found: bool)
    requires
        at <= text.len(),
    ensures
        found == occurs_at(text@, pattern@, at as int),
{
    if pattern.len() > text.len() - at {
        return false;
    }
    let mut i: usize = 0;
    while i < pattern.len()
        invariant
            at + pattern.len() <= text.len(),
            i <= pattern.len(),
            forall|j: int| 0 <= j < i ==> text@[at + j] == pattern@[j],
        decreases pattern.len() - i,
    {
        if text[at + i] != pattern[i] {
            assert(text@.subrange(at as int, at + pattern.len())[i as int] != pattern@[i as int]);
            return false;
        }
        i = i + 1;
    }
    assert(text@.subrange(at as int, at + pattern.len()) =~= pattern@);
    true
}

/// The first position at which `pattern` stands in `text`, if it stands
/// anywhere.
pub fn find_text(text: &str, pattern: &str) -> (found: Option<usize>)
    ensures
        match found {
            Some(at) => at < text@.len() && at == first_occurrence(text@, pattern@),
            None => first_occurrence(text@, pattern@) == text@.len(),
        },
        text@.len() <= usize::MAX,
{
    let t = chars_of(text);
    let p = chars_of(pattern);
    let mut i: usize = 0;
    while i < t.len()
        invariant
            t@ == text@,
            p@ == pattern@,
            i <= t.len(),
            first_occurrence(text@, pattern@) == first_occurrence_from(text@, pattern@, i as int),
        decreases t.len() - i,
    {
        if matches_at(&t, &p, i) {
            return Some(i);
        }
        i = i + 1;
    }
    None
}

/// The character for a decimal digit.
pub open spec fn digit_char(digit: int) -> char {
    if digit == 0 {
        '0'
    } else if digit == 1 {
        '1'
    } else if digit == 2 {
        '2'
    } else if digit == 3 {
        '3'
    } else if digit == 4 {
        '4'
    } else if digit == 5 {
        '5'
    } else if digit == 6 {
        '6'
    } else if digit == 7 {
        '7'
    } else if digit == 8 {
        '8'
    } else {
        '9'
    }
}

/// The decimal digits of a natural number, without leading zeros.
pub open spec fn decimal_digits(n: nat) -> Seq<char>
    decreases n,
{
    if n < 10 {
        seq![digit_char(n as int)]
    } else {
        decimal_digits(n / 10).push(digit_char((n % 10) as int))
    }
}

/// An integer in decimal, with a minus sign where it is negative.
pub open spec fn decimal_text(n: int) -> Seq<char> {
    if n < 0 {
        seq!['-'] + decimal_digits((-n) as nat)
    } else {
        decimal_digits(n as nat)
    }
}

/// The digits that stand before the last ones already written: those of
/// `n`, or none once `n` is used up.
spec fn digits_left(n: nat) -> Seq<char> {
    if n > 0 {
        decimal_digits(n)
    } else {
        Seq::empty()
    }
}

/// Digits kept last first, as characters first to last.
spec fn written(digits: Seq<u8>) -> Seq<char> {
    Seq::new(digits.len(), |i: int| digit_char(digits[digits.len() - 1 - i] as int))
}

/// The text of one decimal digit.
fn digit_text(digit: u8) -> (text: &'static str)
    requires
        digit < 10,
    ensures
        text@ == seq![digit_char(digit as int)],
{
    let text = match digit {
        0 => "0",
        1 => "1",
        2 => "2",
        3 => "3",
        4 => "4",
        5 => "5",
        6 => "6",
        7 => "7",
        8 => "8",
        _ => "9",
    };
    proof {
        reveal_strlit("0");
        reveal_strlit("1");
        reveal_strlit("2");
        reveal_strlit("3");
        reveal_strlit("4");
        reveal_strlit("5");
        reveal_strlit("6");
        reveal_strlit("7");
        reveal_strlit("8");
        reveal_strlit("9");
        assert(text@ =~= seq![digit_char(digit as int)]);
    }
    text
}

/// Writes an integer in decimal.
pub fn i64_to_decimal(n: i64) -> (text: String)
    ensures
        text@ == decimal_text(n as int),
{
    let negative = n < 0;
    let start: u64 = if negative {
        (-(n + 1)) as u64 + 1
    } else {
        n as u64
    };
    let mut left: u64 = start;
    let mut digits: Vec<u8> = Vec::new();
    digits.push((left % 10) as u8);
    left = left / 10;
    assert(decimal_digits(start as nat) =~= digits_left(left as nat) + written(digits@));
    while left > 0
        invariant
            digits.len() > 0,
            forall|j: int| 0 <= j < digits.len() ==> digits@[j] < 10,
            decimal_digits(start as nat) == digits_left(left as nat) + written(digits@),
        decreases left,
    {
        let ghost before = digits@;
        let ghost was = left;
        digits.push((left % 10) as u8);
        left = left / 10;
        assert(digits_left(was as nat) =~= digits_left(left as nat).push(
            digit_char((was % 10) as int),
        ));
        assert(written(digits@) =~= seq![digit_char((was % 10) as int)] + written(before));
        assert(digits_left(was as nat) + written(before) =~= digits_left(left as nat) + written(
            digits@,
        ));
    }
    assert(decimal_digits(start as nat) =~= written(digits@));
    let mut text = if negative {
        String::from_str("-")
    } else {
        String::new()
    };
    proof {
        reveal_strlit("-");
    }
    let ghost sign = text@;
    assert(sign =~= if negative {
        seq!['-']
    } else {
        Seq::<char>::empty()
    });
    let mut i: usize = digits.len();
    assert(text@ =~= sign + written(digits@).take(0));
    while i > 0
        invariant
            i <= digits.len(),
            forall|j: int| 0 <= j < digits.len() ==> digits@[j] < 10,
            text@ == sign + written(digits@).take(digits.len() - i),
        decreases i,
    {
        i = i - 1;
        let ghost before = text@;
        text.append(digit_text(digits[i]));
        assert(written(digits@).take(digits.len() - i) =~= written(digits@).take(
            digits.len() - i - 1,
        ).push(digit_char(digits@[i as int] as int)));
        assert(text@ =~= sign + written(digits@).take(digits.len() - i));
    }
    assert(written(digits@).take(digits.len() as int) =~= written(digits@));
    assert(text@ =~= decimal_text(n as int));
    text
}

} // verus!
