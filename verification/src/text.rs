//! Text as a sequence of characters.

use vstd::prelude::*;

verus! {

/// The mathematical values of the items of a sequence.
pub open spec fn views<T: View>(items: Seq<T>) -> Seq<T::V> {
    Seq::new(items.len(), |i: int| items[i]@)
}

/// The mathematical value of a text that may be absent.
pub open spec fn optional(text: Option<String>) -> Option<Seq<char>> {
    match text {
        Some(t) => Some(t@),
        None => None,
    }
}

/// The characters of `s`, in order.
pub fn chars(s: &str) -> (v: Vec<char>)
    ensures
        v@ == s@,
{
    let mut v: Vec<char> = Vec::new();
    for c in it: s.chars()
        invariant
            v@ == it.seq().take(it.index() as int),
            it.seq() == s@,
    {
        v.push(c);
    }
    v
}

/// Whether `c` is white space: a blank, a tab, a line break or one of the
/// other characters that Unicode classes as white space.
pub open spec fn is_space(c: char) -> bool {
    let n = c as u32;
    ||| 0x09 <= n <= 0x0d
    ||| n == 0x20
    ||| n == 0x85
    ||| n == 0xa0
    ||| n == 0x1680
    ||| 0x2000 <= n <= 0x200a
    ||| n == 0x2028
    ||| n == 0x2029
    ||| n == 0x202f
    ||| n == 0x205f
    ||| n == 0x3000
}

/// Tells white space from other characters.
pub fn space(c: char) -> (b: bool)
    ensures
        b == is_space(c),
{
    let n: u32 = c as u32;
    (0x09 <= n && n <= 0x0d) || n == 0x20 || n == 0x85 || n == 0xa0 || n == 0x1680 || (0x2000 <= n
        && n <= 0x200a) || n == 0x2028 || n == 0x2029 || n == 0x202f || n == 0x205f || n == 0x3000
}

/// Whether `pattern` stands in `text` at position `at`.
pub open spec fn occurs_at(text: Seq<char>, pattern: Seq<char>, at: int) -> bool {
    &&& 0 <= at
    &&& at + pattern.len() <= text.len()
    &&& forall|k: int| 0 <= k < pattern.len() ==> text[at + k] == pattern[k]
}

/// Whether `pattern` stands somewhere in `text` between `from` and `to`.
pub open spec fn occurs_within(text: Seq<char>, pattern: Seq<char>, from: int, to: int) -> bool {
    exists|at: int| from <= at && at + pattern.len() <= to && occurs_at(text, pattern, at)
}

/// Whether `pattern` stands in `text` at position `at`.
pub fn found_at(text: &Vec<char>, pattern: &Vec<char>, at: usize) -> (b: bool)
    ensures
        b == occurs_at(text@, pattern@, at as int),
{
    let n = text.len();
    let m = pattern.len();
    if m > n || at > n - m {
        return false;
    }
    let mut k: usize = 0;
    while k < m
        invariant
            k <= m,
            m == pattern@.len(),
            n == text@.len(),
            at + m <= n,
            forall|j: int| 0 <= j < k ==> text@[at + j] == pattern@[j],
        decreases m - k,
    {
        if text[at + k] != pattern[k] {
            return false;
        }
        k = k + 1;
    }
    true
}

/// Whether `pattern` stands somewhere in `text` between `from` and `to`.
pub fn found_within(text: &Vec<char>, pattern: &Vec<char>, from: usize, to: usize) -> (b: bool)
    ensures
        b == occurs_within(text@, pattern@, from as int, to as int),
{
    let m = pattern.len();
    let end = if to <= text.len() {
        to
    } else {
        text.len()
    };
    if from > end || m > end - from {
        return false;
    }
    let last = end - m;
    let mut at: usize = from;
    while at <= last
        invariant
            from <= at <= last + 1,
            last + m == end,
            end <= text@.len(),
            end <= to,
            m == pattern@.len(),
            forall|i: int| from <= i < at ==> !occurs_at(text@, pattern@, i),
        decreases last + 1 - at,
    {
        if found_at(text, pattern, at) {
            return true;
        }
        at = at + 1;
    }
    false
}

} // verus!
