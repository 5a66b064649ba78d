//! Characters and names: the few facts about text that the engine rests on.

use vstd::prelude::*;

verus! {

/// Whether `c` separates the words of a command: the code points that carry
/// the Unicode property White_Space.
pub open spec fn is_whitespace(c: char) -> bool {
    let n = c as u32;
    ||| 0x09 <= n <= 0x0D
    ||| n == 0x20
    ||| n == 0x85
    ||| n == 0xA0
    ||| n == 0x1680
    ||| 0x2000 <= n <= 0x200A
    ||| n == 0x2028
    ||| n == 0x2029
    ||| n == 0x202F
    ||| n == 0x205F
    ||| n == 0x3000
}

/// The code point of `c` with the ASCII capitals mapped to their small
/// letters; every other character keeps its code point.
pub open spec fn folded(c: char) -> u32 {
    let n = c as u32;
    if 0x41 <= n <= 0x5A {
        (n + 0x20) as u32
    } else {
        n
    }
}

/// Two names are the same when they agree character by character, the case of
/// ASCII letters aside.
pub open spec fn same_name(a: Seq<char>, b: Seq<char>) -> bool {
    &&& a.len() == b.len()
    &&& forall|i: int| 0 <= i < a.len() ==> folded(#[trigger] a[i]) == folded(b[i])
}

/// Decides [`is_whitespace`].
pub fn whitespace(c: char) -> (b: bool)
    ensures
        b == is_whitespace(c),
{
    let n: u32 = c as u32;
    (0x09 <= n && n <= 0x0D) || n == 0x20 || n == 0x85 || n == 0xA0 || n == 0x1680 || (0x2000 <= n
        && n <= 0x200A) || n == 0x2028 || n == 0x2029 || n == 0x202F || n == 0x205F || n == 0x3000
}

/// Computes [`folded`].
pub fn fold(c: char) -> (n: u32)
    ensures
        n == folded(c),
{
    let n: u32 = c as u32;
    if 0x41 <= n && n <= 0x5A {
        n + 0x20
    } else {
        n
    }
}

/// The characters of `s`, in order.
pub fn chars_of(s: &str) -> (v: Vec<char>)
    ensures
        v@ == s@,
{
    let mut v: Vec<char> = Vec::new();
    for c in it: s.chars()
        invariant
            v@ == it.seq().take(it.index() as int),
            it.seq() == s@,
    {
        v.push(c);
    }
    v
}

/// Whether the name `candidate` is the same as the characters `wanted`.
pub fn matches_chars(candidate: &str, wanted: &Vec<char>) -> (b: bool)
    ensures
        b == same_name(candidate@, wanted@),
{
    let mut i: usize = 0;
    for c in it: candidate.chars()
        invariant
            it.seq() == candidate@,
            i == it.index(),
            i <= wanted.len(),
            forall|j: int| 0 <= j < i ==> folded(#[trigger] candidate@[j]) == folded(wanted@[j]),
    {
        if i >= wanted.len() {
            return false;
        }
        if fold(c) != fold(wanted[i]) {
            return false;
        }
        i = i + 1;
    }
    i == wanted.len()
}

} // verus!
