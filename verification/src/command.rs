//! The command translator: from the text of a message to a request.
//!
//! A command is `<pattern> [repeat]`: words separated by whitespace, of which
//! the first names the pattern and the second, if it is a signed decimal
//! number that fits 32 bits, overrides the pattern's repeat count. The name
//! `_` is reserved: it cancels what is being played.

use vstd::prelude::*;
use vstd::string::{StrSliceExecFns, StringExecFns};
use crate::request::{Request, RequestKind, RequestView, NO_OVERRIDE};
use crate::text::{chars_of, is_whitespace, whitespace};

verus! {

/// Where the next word begins: the first position at or after `from` that
/// holds no whitespace, or the end of the text.
pub open spec fn word_start(s: Seq<char>, from: int) -> int
    decreases s.len() - from,
{
    if from < 0 || from >= s.len() {
        s.len() as int
    } else if is_whitespace(s[from]) {
        word_start(s, from + 1)
    } else {
        from
    }
}

/// Where the word that begins at `from` ends: the first position at or after
/// `from` that holds whitespace, or the end of the text.
pub open spec fn word_end(s: Seq<char>, from: int) -> int
    decreases s.len() - from,
{
    if from < 0 || from >= s.len() {
        s.len() as int
    } else if is_whitespace(s[from]) {
        from
    } else {
        word_end(s, from + 1)
    }
}

/// Whether `c` is one of the ten decimal digits.
pub open spec fn is_digit(c: char) -> bool {
    0x30 <= c as u32 <= 0x39
}

/// The value of a digit; zero for any other character.
pub open spec fn digit_value(c: char) -> nat {
    if is_digit(c) {
        (c as u32 - 0x30) as nat
    } else {
        0
    }
}

/// Whether `s` holds digits only.
pub open spec fn all_digits(s: Seq<char>) -> bool {
    forall|i: int| 0 <= i < s.len() ==> is_digit(#[trigger] s[i])
}

/// The number that the digits `s` write in base ten.
pub open spec fn decimal(s: Seq<char>) -> nat
    decreases s.len(),
{
    if s.len() == 0 {
        0
    } else {
        10 * decimal(s.drop_last()) + digit_value(s.last())
    }
}

/// The number that `word` writes: an optional sign, `+` or `-`, and then at
/// least one digit, nothing else.
pub open spec fn signed_decimal(word: Seq<char>) -> Option<int> {
    if word.len() > 0 && (word[0] == '-' || word[0] == '+') {
        let digits = word.skip(1);
        if digits.len() > 0 && all_digits(digits) {
            Some(
                if word[0] == '-' {
                    -(decimal(digits) as int)
                } else {
                    decimal(digits) as int
                },
            )
        } else {
            None
        }
    } else if word.len() > 0 && all_digits(word) {
        Some(decimal(word) as int)
    } else {
        None
    }
}

/// The repeat override that `word` gives: its number where it writes one that
/// fits 32 bits, and "none" otherwise.
pub open spec fn override_value(word: Seq<char>) -> int {
    match signed_decimal(word) {
        Some(n) => if i32::MIN <= n <= i32::MAX {
            n
        } else {
            -1
        },
        None => -1,
    }
}

/// Whether `name` is the reserved name that cancels.
pub open spec fn is_cancel(name: Seq<char>) -> bool {
    name.len() == 1 && name[0] == '_'
}

/// The request that the command `s` stands for. A command without a word
/// names no pattern: its request carries the empty name.
pub open spec fn translation(s: Seq<char>) -> RequestView {
    let name_start = word_start(s, 0);
    let name_end = word_end(s, name_start);
    let count_start = word_start(s, name_end);
    let count_end = word_end(s, count_start);
    let name = s.subrange(name_start, name_end);
    RequestView {
        kind: if is_cancel(name) {
            RequestKind::Cancel
        } else {
            RequestKind::Play
        },
        pattern: name,
        repeat_override: if count_start < count_end {
            override_value(s.subrange(count_start, count_end))
        } else {
            -1
        },
    }
}

/// A word is a longest run of characters that are no whitespace: whitespace
/// alone lies between `from` and its start, none within it, and it ends at
/// whitespace or with the text. Where a character that is no whitespace
/// follows `from`, the word is not empty.
pub proof fn words_are_runs_without_whitespace(s: Seq<char>, from: int)
    requires
        0 <= from <= s.len(),
    ensures
        ({
            let start = word_start(s, from);
            let end = word_end(s, start);
            &&& from <= start <= end <= s.len()
            &&& forall|i: int| from <= i < start ==> is_whitespace(#[trigger] s[i])
            &&& forall|i: int| start <= i < end ==> !is_whitespace(#[trigger] s[i])
            &&& end < s.len() ==> is_whitespace(s[end])
            &&& start < s.len() ==> start < end
        }),
{
    starts_follow_whitespace(s, from);
    ends_follow_the_word(s, word_start(s, from));
}

proof fn starts_follow_whitespace(s: Seq<char>, from: int)
    requires
        0 <= from <= s.len(),
    ensures
        from <= word_start(s, from) <= s.len(),
        forall|i: int| from <= i < word_start(s, from) ==> is_whitespace(#[trigger] s[i]),
        word_start(s, from) < s.len() ==> !is_whitespace(s[word_start(s, from)]),
    decreases s.len() - from,
{
    if from < s.len() && is_whitespace(s[from]) {
        starts_follow_whitespace(s, from + 1);
    }
}

proof fn ends_follow_the_word(s: Seq<char>, from: int)
    requires
        0 <= from <= s.len(),
    ensures
        from <= word_end(s, from) <= s.len(),
        forall|i: int| from <= i < word_end(s, from) ==> !is_whitespace(#[trigger] s[i]),
        word_end(s, from) < s.len() ==> is_whitespace(s[word_end(s, from)]),
        from < s.len() && !is_whitespace(s[from]) ==> from < word_end(s, from),
    decreases s.len() - from,
{
    if from < s.len() && !is_whitespace(s[from]) {
        ends_follow_the_word(s, from + 1);
    }
}

/// A number is not less than the number that its first `n` digits write.
pub proof fn decimal_grows(s: Seq<char>, n: int)
    requires
        0 <= n <= s.len(),
    ensures
        decimal(s.take(n)) <= decimal(s),
    decreases s.len() - n,
{
    if n < s.len() {
        decimal_grows(s, n + 1);
        assert(s.take(n + 1).drop_last() =~= s.take(n));
    } else {
        assert(s.take(n) =~= s);
    }
}

fn is_underscore(c: char) -> (b: bool)
    ensures
        b == (c == '_'),
{
    c as u32 == 0x5F
}

fn is_minus(c: char) -> (b: bool)
    ensures
        b == (c == '-'),
{
    c as u32 == 0x2D
}

fn is_plus(c: char) -> (b: bool)
    ensures
        b == (c == '+'),
{
    c as u32 == 0x2B
}

fn skip_whitespace(chars: &Vec<char>, from: usize) -> (at: usize)
    requires
        from <= chars.len(),
    ensures
        at == word_start(chars@, from as int),
        from <= at <= chars.len(),
{
    let mut i: usize = from;
    while i < chars.len() && whitespace(chars[i])
        invariant
            from <= i <= chars.len(),
            word_start(chars@, from as int) == word_start(chars@, i as int),
        decreases chars.len() - i,
    {
        i = i + 1;
    }
    i
}

fn skip_word(chars: &Vec<char>, from: usize) -> (at: usize)
    requires
        from <= chars.len(),
    ensures
        at == word_end(chars@, from as int),
        from <= at <= chars.len(),
{
    let mut i: usize = from;
    while i < chars.len() && !whitespace(chars[i])
        invariant
            from <= i <= chars.len(),
            word_end(chars@, from as int) == word_end(chars@, i as int),
        decreases chars.len() - i,
    {
        i = i + 1;
    }
    i
}

/// The number that the characters from `from` up to `to` write, where they
/// are digits and the number is at most 2^31.
fn magnitude_in(chars: &Vec<char>, from: usize, to: usize) -> (value: Option<i64>)
    requires
        from <= to <= chars.len(),
    ensures
        match value {
            Some(n) => {
                &&& all_digits(chars@.subrange(from as int, to as int))
                &&& n == decimal(chars@.subrange(from as int, to as int))
                &&& n <= 0x8000_0000
            },
            None => {
                ||| !all_digits(chars@.subrange(from as int, to as int))
                ||| decimal(chars@.subrange(from as int, to as int)) > 0x8000_0000
            },
        },
{
    let ghost digits = chars@.subrange(from as int, to as int);
    let mut total: i64 = 0;
    let mut i: usize = from;
    while i < to
        invariant
            from <= i <= to <= chars.len(),
            digits == chars@.subrange(from as int, to as int),
            0 <= total <= 0x8000_0000,
            total == decimal(digits.take(i - from)),
            all_digits(digits.take(i - from)),
        decreases to - i,
    {
        let digit: char = chars[i];
        let code: u32 = digit as u32;
        if code < 0x30 || code > 0x39 {
            proof {
                assert(digits[i - from] == chars@[i as int]);
                assert(!is_digit(digits[i - from]));
            }
            return None;
        }
        let next: i64 = total * 10 + (code - 0x30) as i64;
        proof {
            let longer = digits.take(i - from + 1);
            assert(longer.drop_last() =~= digits.take(i - from));
            assert(longer.last() == chars@[i as int]);
            assert(next == decimal(longer));
            assert forall|j: int| 0 <= j < longer.len() implies is_digit(#[trigger] longer[j]) by {
                if j < i - from {
                    assert(longer[j] == digits.take(i - from)[j]);
                }
            }
            if next > 0x8000_0000 {
                decimal_grows(digits, i - from + 1);
            }
        }
        if next > 0x8000_0000 {
            return None;
        }
        total = next;
        i = i + 1;
    }
    proof {
        assert(digits.take(to - from) =~= digits);
    }
    Some(total)
}

/// The repeat override that the characters from `from` up to `to` give.
fn override_in(chars: &Vec<char>, from: usize, to: usize) -> (value: i32)
    requires
        from <= to <= chars.len(),
    ensures
        value == override_value(chars@.subrange(from as int, to as int)),
{
    let ghost word = chars@.subrange(from as int, to as int);
    if from == to {
        return NO_OVERRIDE;
    }
    let negative = is_minus(chars[from]);
    let start: usize = if negative || is_plus(chars[from]) {
        from + 1
    } else {
        from
    };
    proof {
        assert(word[0] == chars@[from as int]);
        if start > from {
            assert(word.skip(1) =~= chars@.subrange(start as int, to as int));
        } else {
            assert(word =~= chars@.subrange(start as int, to as int));
        }
    }
    if start == to {
        return NO_OVERRIDE;
    }
    match magnitude_in(chars, start, to) {
        Some(total) => {
            if negative {
                (-total) as i32
            } else if total > 0x7FFF_FFFF {
                NO_OVERRIDE
            } else {
                total as i32
            }
        },
        None => NO_OVERRIDE,
    }
}

/// The repeat override that the word `word` gives.
pub fn parse_override(word: &str) -> (value: i32)
    ensures
        value == override_value(word@),
{
    let chars = chars_of(word);
    proof {
        assert(chars@.subrange(0, chars@.len() as int) =~= word@);
    }
    override_in(&chars, 0, chars.len())
}

/// Translates the text of a message into the request that it stands for.
pub fn translate(payload: &str) -> (request: Request)
    ensures
        request@ == translation(payload@),
{
    let chars = chars_of(payload);
    let name_start = skip_whitespace(&chars, 0);
    let name_end = skip_word(&chars, name_start);
    let count_start = skip_whitespace(&chars, name_end);
    let count_end = skip_word(&chars, count_start);
    let pattern = String::from_str(payload.substring_char(name_start, name_end));
    let cancel = name_end - name_start == 1 && is_underscore(chars[name_start]);
    proof {
        assert(pattern@ == payload@.subrange(name_start as int, name_end as int));
        if name_end - name_start == 1 {
            assert(payload@.subrange(name_start as int, name_end as int)[0] == chars@[name_start as int]);
        }
    }
    let repeat_override = if count_start < count_end {
        parse_override(payload.substring_char(count_start, count_end))
    } else {
        NO_OVERRIDE
    };
    Request {
        kind: if cancel {
            RequestKind::Cancel
        } else {
            RequestKind::Play
        },
        pattern,
        repeat_override,
    }
}

} // verus!
