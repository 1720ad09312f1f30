//! Small helpers over strings and raw libclang values.

use vstd::prelude::*;

verus! {

/// Returns the characters of `s`, in order.
pub fn chars_of(s: &str) -> (chars: Vec<char>)
    ensures
        chars@ == s@,
{
    let mut chars: Vec<char> = Vec::new();
    for c in it: s.chars()
        invariant
            chars@ == it.seq().take(it.index() as int),
    {
        chars.push(c);
    }
    chars
}

/// Whether `prefix` is a prefix of `s`.
pub open spec fn has_prefix(s: Seq<char>, prefix: Seq<char>) -> bool {
    prefix.len() <= s.len() && s.take(prefix.len() as int) == prefix
}

/// Returns whether `prefix` is a prefix of `s`.
pub fn starts_with(s: &Vec<char>, prefix: &Vec<char>) -> (result: bool)
    ensures
        result == has_prefix(s@, prefix@),
{
    if prefix.len() > s.len() {
        return false;
    }
    let mut i: usize = 0;
    while i < prefix.len()
        invariant
            prefix.len() <= s.len(),
            i <= prefix.len(),
            forall|j: int| 0 <= j < i ==> s@[j] == prefix@[j],
        decreases prefix.len() - i,
    {
        if s[i] != prefix[i] {
            assert(s@.take(prefix.len() as int)[i as int] != prefix@[i as int]);
            return false;
        }
        i = i + 1;
    }
    assert(s@.take(prefix.len() as int) =~= prefix@);
    true
}

/// Returns whether `a` and `b` hold the same characters.
pub fn chars_eq(a: &Vec<char>, b: &Vec<char>) -> (result: bool)
    ensures
        result == (a@ == b@),
{
    if a.len() != b.len() {
        return false;
    }
    let mut i: usize = 0;
    while i < a.len()
        invariant
            a.len() == b.len(),
            i <= a.len(),
            forall|j: int| 0 <= j < i ==> a@[j] == b@[j],
        decreases a.len() - i,
    {
        if a[i] != b[i] {
            return false;
        }
        i = i + 1;
    }
    assert(a@ =~= b@);
    true
}

/// The string libclang handed back, as the wrapper reports it: a null or empty string is no
/// string at all.
pub open spec fn nonempty(string: Option<String>) -> Option<String> {
    match string {
        Some(s) => if s@.len() > 0 { Some(s) } else { None },
        None => None,
    }
}

/// Returns the supplied string unless it is absent (a null string) or empty.
pub fn to_string_option(string: Option<String>) -> (result: Option<String>)
    ensures
        result == nonempty(string),
{
    match string {
        Some(s) => {
            if s.as_str().is_empty() {
                None
            } else {
                Some(s)
            }
        },
        None => None,
    }
}

/// Returns the number of items a libclang count denotes, or `None` when the count is negative
/// (libclang's way of saying that the query does not apply).
pub fn count_option(count: i32) -> (result: Option<u32>)
    ensures
        count >= 0 ==> result == Some(count as u32),
        count < 0 ==> result is None,
{
    if count >= 0 {
        Some(count as u32)
    } else {
        None
    }
}

/// Returns a non-negative libclang quantity as a `usize`, or `None` when it is negative.
pub fn nonnegative(value: i64) -> (result: Option<usize>)
    requires
        value <= usize::MAX,
    ensures
        value >= 0 ==> result == Some(value as usize),
        value < 0 ==> result is None,
{
    if value >= 0 {
        Some(value as usize)
    } else {
        None
    }
}

/// Whether the character `a` comes before `b` (in the order of their code points, which is also
/// the order of their UTF-8 encodings).
pub open spec fn char_lt(a: char, b: char) -> bool {
    (a as u32) < (b as u32)
}

/// Two characters neither of which comes before the other are the same.
pub proof fn lemma_char_trichotomy(a: char, b: char)
    ensures
        !char_lt(a, b) && !char_lt(b, a) ==> a == b,
{
    if (a as u32) == (b as u32) {
        assert(a as int == b as int);
    }
}

/// Returns whether the character `a` comes before `b`.
pub fn char_less(a: char, b: char) -> (result: bool)
    ensures
        result == char_lt(a, b),
{
    (a as u32) < (b as u32)
}

/// The bit flags `flags` with the bits of `flag` set (`on`) or cleared.
pub open spec fn with_flag(flags: i32, flag: i32, on: bool) -> i32 {
    if on {
        flags | flag
    } else {
        flags & !flag
    }
}

/// Returns the bit flags `flags` with the bits of `flag` set (`on`) or cleared.
pub fn set_flag(flags: i32, flag: i32, on: bool) -> (result: i32)
    ensures
        result == with_flag(flags, flag, on),
{
    if on {
        flags | flag
    } else {
        flags & !flag
    }
}

/// Setting or clearing a flag leaves every other bit as it was, and the flag's bits then all
/// read as set or all read as cleared.
pub proof fn lemma_with_flag(flags: i32, flag: i32, on: bool)
    ensures
        with_flag(flags, flag, on) & !flag == flags & !flag,
        with_flag(flags, flag, on) & flag == (if on { flag } else { 0i32 }),
{
    let r = with_flag(flags, flag, on);
    assert(r & !flag == flags & !flag && r & flag == (if on { flag } else { 0i32 })) by (bit_vector)
        requires
            r == (if on { flags | flag } else { flags & !flag }),
    ;
}

} // verus!
