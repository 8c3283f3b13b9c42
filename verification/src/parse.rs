//! Parsing of the game's line-oriented input tokens.
//!
//! A line is trimmed of ASCII whitespace at both ends and then read as one
//! token: a decimal non-negative integer, a single-letter marker (`h`, `y`,
//! `n`, case-insensitive), or nothing recognizable.

use vstd::prelude::*;
use crate::difficulty::Difficulty;

verus! {

/// ASCII whitespace stripped from both ends of an input line.
pub open spec fn is_space(c: char) -> bool {
    c == ' ' || c == '\t' || c == '\n' || c == '\r'
}

/// ASCII decimal digit.
pub open spec fn is_digit(c: char) -> bool {
    48 <= c as u32 <= 57
}

/// Numeric value of a digit character.
pub open spec fn digit_value(c: char) -> int {
    c as u32 - 48
}

/// `s` is made of decimal digits only.
pub open spec fn all_digits(s: Seq<char>) -> bool {
    forall|i: int| 0 <= i < s.len() ==> is_digit(s[i])
}

/// The number a digit string spells in base 10.
pub open spec fn digits_value(s: Seq<char>) -> int
    decreases s.len(),
{
    if s.len() == 0 {
        0
    } else {
        digits_value(s.drop_last()) * 10 + digit_value(s.last())
    }
}

/// `s` spells a non-negative integer that fits in `u32`.
pub open spec fn is_u32_string(s: Seq<char>) -> bool {
    s.len() > 0 && all_digits(s) && digits_value(s) <= u32::MAX
}

pub open spec fn trim_front(s: Seq<char>) -> Seq<char>
    decreases s.len(),
{
    if s.len() > 0 && is_space(s[0]) {
        trim_front(s.drop_first())
    } else {
        s
    }
}

pub open spec fn trim_back(s: Seq<char>) -> Seq<char>
    decreases s.len(),
{
    if s.len() > 0 && is_space(s.last()) {
        trim_back(s.drop_last())
    } else {
        s
    }
}

/// The line with ASCII whitespace removed from both ends.
pub open spec fn spec_trim(s: Seq<char>) -> Seq<char> {
    trim_back(trim_front(s))
}

/// A digit string has a non-negative value.
proof fn lemma_digits_value_nonneg(s: Seq<char>)
    requires
        all_digits(s),
    ensures
        digits_value(s) >= 0,
    decreases s.len(),
{
    if s.len() > 0 {
        assert(all_digits(s.drop_last()));
        lemma_digits_value_nonneg(s.drop_last());
    }
}

/// Reading more digits never shrinks the value: the value of a prefix is at
/// most the value of a longer prefix.
proof fn lemma_digits_prefix_le(s: Seq<char>, a: int, b: int)
    requires
        0 <= a <= b <= s.len(),
        forall|i: int| 0 <= i < b ==> is_digit(s[i]),
    ensures
        digits_value(s.take(a)) <= digits_value(s.take(b)),
    decreases b - a,
{
    if a < b {
        lemma_digits_prefix_le(s, a, b - 1);
        assert(s.take(b).drop_last() =~= s.take(b - 1));
        assert(all_digits(s.take(b - 1)));
        lemma_digits_value_nonneg(s.take(b - 1));
        assert(digits_value(s.take(b)) == digits_value(s.take(b - 1)) * 10 + digit_value(
            s.take(b).last(),
        ));
    }
}

/// When the first `k` characters are spaces and the next one is not,
/// trimming the front keeps exactly the tail from `k` on.
proof fn lemma_trim_front_range(s: Seq<char>, k: int)
    requires
        0 <= k <= s.len(),
        forall|i: int| 0 <= i < k ==> is_space(s[i]),
        k < s.len() ==> !is_space(s[k]),
    ensures
        trim_front(s) == s.subrange(k, s.len() as int),
    decreases k,
{
    if k == 0 {
        assert(s.subrange(0, s.len() as int) =~= s);
    } else {
        let s1 = s.drop_first();
        assert(s1 =~= s.subrange(1, s.len() as int));
        lemma_trim_front_range(s1, k - 1);
        assert(s1.subrange(k - 1, s1.len() as int) =~= s.subrange(k, s.len() as int));
    }
}

/// When the characters from `m` on are spaces and the one before `m` is
/// not, trimming the back keeps exactly the first `m` characters.
proof fn lemma_trim_back_range(s: Seq<char>, m: int)
    requires
        0 <= m <= s.len(),
        forall|i: int| m <= i < s.len() ==> is_space(s[i]),
        m > 0 ==> !is_space(s[m - 1]),
    ensures
        trim_back(s) == s.subrange(0, m),
    decreases s.len(),
{
    if m == s.len() {
        if s.len() == 0 {
            assert(s.subrange(0, 0) =~= s);
        } else {
            assert(s.subrange(0, m) =~= s);
        }
    } else {
        assert(is_space(s.last()));
        lemma_trim_back_range(s.drop_last(), m);
        assert(s.drop_last().subrange(0, m) =~= s.subrange(0, m));
    }
}

fn is_space_char(c: char) -> (r: bool)
    ensures
        r == is_space(c),
{
    c == ' ' || c == '\t' || c == '\n' || c == '\r'
}

/// Strip ASCII whitespace from both ends of a line.
pub fn trim_line(line: &str) -> (r: &str)
    ensures
        r@ == spec_trim(line@),
{
    let len = line.unicode_len();
    let mut start: usize = 0;
    while start < len && is_space_char(line.get_char(start))
        invariant
            0 <= start <= len,
            len == line@.len(),
            forall|i: int| 0 <= i < start ==> is_space(line@[i]),
        decreases len - start,
    {
        start = start + 1;
    }
    let mut end: usize = len;
    while end > start && is_space_char(line.get_char(end - 1))
        invariant
            start <= end <= len,
            len == line@.len(),
            forall|i: int| end <= i < len ==> is_space(line@[i]),
        decreases end,
    {
        end = end - 1;
    }
    proof {
        lemma_trim_front_range(line@, start as int);
        let mid = line@.subrange(start as int, len as int);
        lemma_trim_back_range(mid, end - start);
        assert(mid.subrange(0, end - start) =~= line@.subrange(start as int, end as int));
    }
    line.substring_char(start, end)
}

/// Read a whole string as a decimal `u32`.  Succeeds exactly when the
/// string is non-empty, all digits, and its value fits.
pub fn parse_u32(s: &str) -> (r: Option<u32>)
    ensures
        is_u32_string(s@) ==> r == Some(digits_value(s@) as u32),
        !is_u32_string(s@) ==> r is None,
{
    let len = s.unicode_len();
    if len == 0 {
        return None;
    }
    let mut i: usize = 0;
    let mut acc: u64 = 0;
    while i < len
        invariant
            0 <= i <= len,
            len == s@.len(),
            all_digits(s@.take(i as int)),
            acc == digits_value(s@.take(i as int)),
            acc <= u32::MAX,
        decreases len - i,
    {
        let c = s.get_char(i);
        let u = c as u32;
        if u < 48 || u > 57 {
            assert(!is_digit(s@[i as int]));
            return None;
        }
        proof {
            assert(s@.take(i + 1).drop_last() =~= s@.take(i as int));
            assert(s@.take(i + 1).last() == s@[i as int]);
        }
        let d: u64 = (u - 48) as u64;
        let next: u64 = acc * 10 + d;
        if next > 0xffff_ffff {
            proof {
                if all_digits(s@) {
                    lemma_digits_prefix_le(s@, i + 1, s@.len() as int);
                    assert(s@.take(s@.len() as int) =~= s@);
                }
            }
            return None;
        }
        acc = next;
        i = i + 1;
    }
    proof {
        assert(s@.take(len as int) =~= s@);
    }
    Some(acc as u32)
}

/// One input token at the guess prompt.
#[derive(Clone, Copy, PartialEq, Eq, Structural, Debug)]
pub enum GuessInput {
    /// A non-negative integer guess.
    Guess(u32),
    /// The hint request marker `h` or `H`.
    HintRequest,
    /// Anything else.
    Malformed,
}

/// `s` is the hint request marker: a single `h`, case-insensitive.
pub open spec fn is_hint_marker(s: Seq<char>) -> bool {
    s.len() == 1 && (s[0] == 'h' || s[0] == 'H')
}

/// Classify a raw line at the guess prompt.
pub fn classify_guess(line: &str) -> (r: GuessInput)
    ensures
        is_u32_string(spec_trim(line@)) ==> r == GuessInput::Guess(
            digits_value(spec_trim(line@)) as u32,
        ),
        is_hint_marker(spec_trim(line@)) ==> r == GuessInput::HintRequest,
        !is_u32_string(spec_trim(line@)) && !is_hint_marker(spec_trim(line@)) ==> r
            == GuessInput::Malformed,
{
    let t = trim_line(line);
    match parse_u32(t) {
        Some(n) => GuessInput::Guess(n),
        None => {
            if t.unicode_len() == 1 {
                let c = t.get_char(0);
                if c == 'h' || c == 'H' {
                    return GuessInput::HintRequest;
                }
            }
            GuessInput::Malformed
        },
    }
}

/// One input token at the play-again prompt.
#[derive(Clone, Copy, PartialEq, Eq, Structural, Debug)]
pub enum ReplayInput {
    Yes,
    No,
    Malformed,
}

/// `s` is a single `y`, case-insensitive.
pub open spec fn is_yes_marker(s: Seq<char>) -> bool {
    s.len() == 1 && (s[0] == 'y' || s[0] == 'Y')
}

/// `s` is a single `n`, case-insensitive.
pub open spec fn is_no_marker(s: Seq<char>) -> bool {
    s.len() == 1 && (s[0] == 'n' || s[0] == 'N')
}

/// Classify a raw line at the play-again prompt.
pub fn classify_replay(line: &str) -> (r: ReplayInput)
    ensures
        is_yes_marker(spec_trim(line@)) ==> r == ReplayInput::Yes,
        is_no_marker(spec_trim(line@)) ==> r == ReplayInput::No,
        !is_yes_marker(spec_trim(line@)) && !is_no_marker(spec_trim(line@)) ==> r
            == ReplayInput::Malformed,
{
    let t = trim_line(line);
    if t.unicode_len() == 1 {
        let c = t.get_char(0);
        if c == 'y' || c == 'Y' {
            return ReplayInput::Yes;
        }
        if c == 'n' || c == 'N' {
            return ReplayInput::No;
        }
    }
    ReplayInput::Malformed
}

/// One input token at the difficulty menu.
#[derive(Clone, Copy, PartialEq, Eq, Structural, Debug)]
pub enum ChoiceInput {
    /// A menu number naming a difficulty.
    Chosen(Difficulty),
    /// Not a number at all.
    NotANumber,
    /// A number outside the menu.
    InvalidChoice,
}

/// Classify a raw line at the difficulty menu.
pub fn classify_choice(line: &str) -> (r: ChoiceInput)
    ensures
        !is_u32_string(spec_trim(line@)) ==> r == ChoiceInput::NotANumber,
        is_u32_string(spec_trim(line@)) && digits_value(spec_trim(line@)) == 1 ==> r
            == ChoiceInput::Chosen(Difficulty::Easy),
        is_u32_string(spec_trim(line@)) && digits_value(spec_trim(line@)) == 2 ==> r
            == ChoiceInput::Chosen(Difficulty::Medium),
        is_u32_string(spec_trim(line@)) && digits_value(spec_trim(line@)) == 3 ==> r
            == ChoiceInput::Chosen(Difficulty::Hard),
        is_u32_string(spec_trim(line@)) && !(1 <= digits_value(spec_trim(line@)) <= 3) ==> r
            == ChoiceInput::InvalidChoice,
{
    let t = trim_line(line);
    match parse_u32(t) {
        None => ChoiceInput::NotANumber,
        Some(n) => {
            proof {
                if is_u32_string(t@) {
                    lemma_digits_value_nonneg(t@);
                }
            }
            match Difficulty::from_choice(n) {
                Some(d) => ChoiceInput::Chosen(d),
                None => ChoiceInput::InvalidChoice,
            }
        },
    }
}

} // verus!
