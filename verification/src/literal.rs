//! The values of C integer literals.

use vstd::prelude::*;

use crate::utility::chars_of;

verus! {

//================================================
// Specifications
//================================================

/// The value of the digit `c`: `0` to `9`, then `a` to `f` (or `A` to `F`) for 10 to 15; any
/// other character has the value 16, which is a digit in no base.
pub open spec fn digit_value(c: char) -> nat {
    if '0' <= c <= '9' {
        (c as nat - '0' as nat) as nat
    } else if 'a' <= c <= 'f' {
        (c as nat - 'a' as nat + 10) as nat
    } else if 'A' <= c <= 'F' {
        (c as nat - 'A' as nat + 10) as nat
    } else {
        16
    }
}

/// The number the digits `digits` denote in the base `base`.
pub open spec fn digits_value(digits: Seq<char>, base: nat) -> nat
    decreases digits.len(),
{
    if digits.len() == 0 {
        0
    } else {
        digits_value(digits.drop_last(), base) * base + digit_value(digits.last())
    }
}

/// The `u64` that the digits `digits` denote in the base `base`, if each of them is a digit in
/// that base and the number fits in a `u64`.
pub open spec fn digits_number(digits: Seq<char>, base: nat) -> Option<u64> {
    if (forall|k: int| 0 <= k < digits.len() ==> digit_value(#[trigger] digits[k]) < base)
        && digits_value(digits, base) <= u64::MAX {
        Some(digits_value(digits, base) as u64)
    } else {
        None
    }
}

/// Whether `c` may stand in the suffix of an integer literal.
pub open spec fn is_suffix_char(c: char) -> bool {
    c == 'u' || c == 'U' || c == 'l' || c == 'L'
}

/// Whether `c` is the suffix that makes an integer literal unsigned.
pub open spec fn is_unsigned_suffix(c: char) -> bool {
    c == 'u' || c == 'U'
}

/// The number of characters at the end of `s` that may stand in a suffix.
pub open spec fn suffix_len(s: Seq<char>) -> nat
    decreases s.len(),
{
    if s.len() > 0 && is_suffix_char(s.last()) {
        suffix_len(s.drop_last()) + 1
    } else {
        0
    }
}

/// Whether `x` is no suffix, `l`, `L`, `ll`, or `LL`.
pub open spec fn is_long_suffix(x: Seq<char>) -> bool {
    ||| x.len() == 0
    ||| x.len() == 1 && (x[0] == 'l' || x[0] == 'L')
    ||| x.len() == 2 && ((x[0] == 'l' && x[1] == 'l') || (x[0] == 'L' && x[1] == 'L'))
}

/// Whether `x` is the suffix of an integer literal: a long suffix, with an unsigned suffix
/// before or after it or not.
pub open spec fn is_integer_suffix(x: Seq<char>) -> bool {
    ||| is_long_suffix(x)
    ||| x.len() > 0 && is_unsigned_suffix(x.first()) && is_long_suffix(x.drop_first())
    ||| x.len() > 0 && is_unsigned_suffix(x.last()) && is_long_suffix(x.drop_last())
}

/// The base of the integer literal whose characters before the suffix are `body`: a `0x` (or
/// `0X`) prefix denotes base 16, a `0b` (or `0B`) prefix base 2, a leading `0` base 8, and
/// anything else base 10.
pub open spec fn literal_base(body: Seq<char>) -> nat {
    if body.len() >= 2 && body[0] == '0' && (body[1] == 'x' || body[1] == 'X') {
        16
    } else if body.len() >= 2 && body[0] == '0' && (body[1] == 'b' || body[1] == 'B') {
        2
    } else if body.len() >= 1 && body[0] == '0' {
        8
    } else {
        10
    }
}

/// The number of characters of the prefix that `literal_base` reads.
pub open spec fn prefix_len(body: Seq<char>) -> nat {
    if literal_base(body) == 16 || literal_base(body) == 2 {
        2
    } else if literal_base(body) == 8 {
        1
    } else {
        0
    }
}

/// The value of the C integer literal `s`, if `s` is one whose value fits in a `u64`: digits in
/// the base its prefix selects (at least one, but for the literal `0`), then a suffix.
pub open spec fn integer_literal(s: Seq<char>) -> Option<u64> {
    let end = s.len() - suffix_len(s);
    let body = s.subrange(0, end);
    let digits = body.skip(prefix_len(body) as int);
    if is_integer_suffix(s.skip(end)) && (digits.len() > 0 || literal_base(body) == 8) {
        digits_number(digits, literal_base(body))
    } else {
        None
    }
}

/// Whether `c` marks a floating literal: a decimal point, or the letter of an exponent.
pub open spec fn is_floating_mark(c: char) -> bool {
    c == '.' || c == 'e' || c == 'E' || c == 'p' || c == 'P'
}

/// Whether the number `s` has the shape of a floating literal rather than of an integer literal:
/// it holds a decimal point or an exponent.
pub open spec fn floating_shape(s: Seq<char>) -> bool {
    exists|k: int| 0 <= k < s.len() && is_floating_mark(#[trigger] s[k])
}

//================================================
// Lemmas
//================================================

proof fn lemma_suffix_len_bound(s: Seq<char>)
    ensures
        suffix_len(s) <= s.len(),
    decreases s.len(),
{
    if s.len() > 0 && is_suffix_char(s.last()) {
        lemma_suffix_len_bound(s.drop_last());
    }
}

/// More digits never denote a smaller number.
proof fn lemma_digits_value_grows(digits: Seq<char>, base: nat, i: int, j: int)
    requires
        1 <= base,
        0 <= i <= j <= digits.len(),
    ensures
        digits_value(digits.take(i), base) <= digits_value(digits.take(j), base),
    decreases j - i,
{
    if i < j {
        lemma_digits_value_grows(digits, base, i, j - 1);
        let v = digits_value(digits.take(j - 1), base);
        assert(digits.take(j).drop_last() =~= digits.take(j - 1));
        assert(v <= v * base) by (nonlinear_arith)
            requires
                1 <= base,
        ;
    }
}

proof fn lemma_suffix_len_append(s: Seq<char>, x: Seq<char>)
    requires
        forall|k: int| 0 <= k < x.len() ==> is_suffix_char(#[trigger] x[k]),
    ensures
        suffix_len(s + x) == suffix_len(s) + x.len(),
    decreases x.len(),
{
    if x.len() > 0 {
        assert((s + x).drop_last() =~= s + x.drop_last());
        assert((s + x).last() == x.last());
        lemma_suffix_len_append(s, x.drop_last());
    }
}

/// The digits of a literal are read by their place value: each decimal digit stands for its own
/// value, `a` to `f` (in either case) for 10 to 15, and a digit after others adds its value to
/// the others' value times the base.
pub proof fn lemma_digit_values(c: char, digits: Seq<char>, base: nat)
    ensures
        '0' <= c <= '9' ==> digit_value(c) == c as nat - '0' as nat,
        'a' <= c <= 'f' ==> digit_value(c) == c as nat - 'a' as nat + 10,
        'A' <= c <= 'F' ==> digit_value(c) == c as nat - 'A' as nat + 10,
        !('0' <= c <= '9' || 'a' <= c <= 'f' || 'A' <= c <= 'F') ==> digit_value(c) >= 16,
        digits_value(digits.push(c), base) == digits_value(digits, base) * base + digit_value(c),
        digits_value(Seq::<char>::empty(), base) == 0,
{
    assert(digits.push(c).drop_last() =~= digits);
}

/// A literal is read in the base its prefix selects: decimal digits not starting with `0` in
/// base 10, digits after `0x` or `0X` in base 16, after `0b` or `0B` in base 2, and after a
/// lone `0` in base 8 (the literal `0` being zero).
pub proof fn lemma_literal_bases(digits: Seq<char>)
    requires
        digits.len() > 0 ==> !is_suffix_char(digits.last()),
    ensures
        digits.len() > 0 && '1' <= digits[0] <= '9' ==> integer_literal(digits) == digits_number(
            digits,
            10,
        ),
        digits.len() > 0 ==> integer_literal(seq!['0', 'x'] + digits) == digits_number(digits, 16),
        digits.len() > 0 ==> integer_literal(seq!['0', 'X'] + digits) == digits_number(digits, 16),
        digits.len() > 0 ==> integer_literal(seq!['0', 'b'] + digits) == digits_number(digits, 2),
        digits.len() > 0 ==> integer_literal(seq!['0', 'B'] + digits) == digits_number(digits, 2),
        (digits.len() == 0 || !(digits[0] == 'x' || digits[0] == 'X' || digits[0] == 'b'
            || digits[0] == 'B')) ==> integer_literal(seq!['0'] + digits) == digits_number(
            digits,
            8,
        ),
        integer_literal(seq!['0']) == Some(0u64),
{
    if digits.len() > 0 {
        assert(suffix_len(digits) == 0);
        assert(digits.subrange(0, digits.len() as int) =~= digits);
        assert(digits.skip(0) =~= digits);
        assert(digits.skip(digits.len() as int) =~= Seq::<char>::empty());
        lemma_prefixed(seq!['0', 'x'], digits);
        lemma_prefixed(seq!['0', 'X'], digits);
        lemma_prefixed(seq!['0', 'b'], digits);
        lemma_prefixed(seq!['0', 'B'], digits);
    }
    lemma_prefixed(seq!['0'], digits);
    assert(seq!['0'] + Seq::<char>::empty() =~= seq!['0']);
    lemma_prefixed(seq!['0'], Seq::<char>::empty());
    assert(digits_value(Seq::<char>::empty(), 8) == 0);
}

proof fn lemma_prefixed(prefix: Seq<char>, digits: Seq<char>)
    requires
        digits.len() > 0 ==> !is_suffix_char(digits.last()),
        prefix.len() > 0,
        !is_suffix_char(prefix.last()),
    ensures
        suffix_len(prefix + digits) == 0,
        (prefix + digits).subrange(0, (prefix + digits).len() as int) == prefix + digits,
        (prefix + digits).skip(prefix.len() as int) == digits,
        (prefix + digits).skip((prefix + digits).len() as int) == Seq::<char>::empty(),
{
    let s = prefix + digits;
    if digits.len() > 0 {
        assert(s.last() == digits.last());
    } else {
        assert(s.last() == prefix.last());
    }
    assert(s.subrange(0, s.len() as int) =~= s);
    assert(s.skip(prefix.len() as int) =~= digits);
    assert(s.skip(s.len() as int) =~= Seq::<char>::empty());
}

/// A suffix (`u`, `l`, `ll`, and their combinations, in either case) does not change the value
/// of a literal.
pub proof fn lemma_suffix_keeps_value(s: Seq<char>, x: Seq<char>)
    requires
        s.len() > 0,
        !is_suffix_char(s.last()),
        x == seq!['u'] || x == seq!['U'] || x == seq!['l'] || x == seq!['L'] || x == seq!['u', 'l']
            || x == seq!['U', 'L'] || x == seq!['l', 'u'] || x == seq!['L', 'U'] || x == seq![
            'l',
            'l',
        ] || x == seq!['L', 'L'] || x == seq!['u', 'l', 'l'] || x == seq!['U', 'L', 'L'] || x
            == seq!['l', 'l', 'u'] || x == seq!['L', 'L', 'U'],
    ensures
        integer_literal(s + x) == integer_literal(s),
{
    assert(forall|k: int| 0 <= k < x.len() ==> is_suffix_char(#[trigger] x[k]));
    lemma_suffix_len_append(s, x);
    assert(suffix_len(s) == 0);
    let t = s + x;
    assert(t.subrange(0, s.len() as int) =~= s);
    assert(s.subrange(0, s.len() as int) =~= s);
    assert(t.skip(s.len() as int) =~= x);
    assert(s.skip(s.len() as int) =~= Seq::<char>::empty());
    assert(x.drop_first().len() == x.len() - 1);
    if x.len() > 1 {
        assert(x.drop_first() =~= x.subrange(1, x.len() as int));
        assert(x.drop_last() =~= x.subrange(0, x.len() - 1));
    }
}

//================================================
// Functions
//================================================

/// Returns the value of the digit `c` (16 for a character that is a digit in no base).
fn digit_of(c: char) -> (d: u64)
    ensures
        d == digit_value(c),
{
    if '0' <= c && c <= '9' {
        (c as u32 - '0' as u32) as u64
    } else if 'a' <= c && c <= 'f' {
        (c as u32 - 'a' as u32 + 10) as u64
    } else if 'A' <= c && c <= 'F' {
        (c as u32 - 'A' as u32 + 10) as u64
    } else {
        16
    }
}

/// Returns the `u64` that the digits `digits` denote in the base `base`, if each of them is a
/// digit in that base and the number fits.
fn parse_digits(digits: &Vec<char>, base: u64) -> (result: Option<u64>)
    requires
        2 <= base <= 16,
    ensures
        result == digits_number(digits@, base as nat),
{
    let ghost d = digits@;
    let mut value: u64 = 0;
    let mut i: usize = 0;
    assert(d.take(0) =~= Seq::<char>::empty());
    while i < digits.len()
        invariant
            d == digits@,
            2 <= base <= 16,
            i <= d.len(),
            value == digits_value(d.take(i as int), base as nat),
            forall|k: int| 0 <= k < i ==> digit_value(#[trigger] d[k]) < base,
        decreases d.len() - i,
    {
        let digit = digit_of(digits[i]);
        if digit >= base {
            return None;
        }
        assert(d.take(i + 1).drop_last() =~= d.take(i as int));
        assert(d.take(i + 1).last() == d[i as int]);
        let next = match value.checked_mul(base) {
            Some(shifted) => shifted.checked_add(digit),
            None => None,
        };
        match next {
            Some(n) => {
                value = n;
            },
            None => {
                proof {
                    lemma_digits_value_grows(d, base as nat, i + 1, d.len() as int);
                    assert(d.take(d.len() as int) =~= d);
                }
                return None;
            },
        }
        i = i + 1;
    }
    assert(d.take(d.len() as int) =~= d);
    Some(value)
}

/// Returns the characters of `v` from `start` up to `end`.
fn sub_chars(v: &Vec<char>, start: usize, end: usize) -> (sub: Vec<char>)
    requires
        start <= end <= v.len(),
    ensures
        sub@ == v@.subrange(start as int, end as int),
{
    let mut sub: Vec<char> = Vec::new();
    let mut i: usize = start;
    while i < end
        invariant
            start <= i <= end <= v.len(),
            sub@ == v@.subrange(start as int, i as int),
        decreases end - i,
    {
        sub.push(v[i]);
        i = i + 1;
    }
    sub
}

/// Returns whether the characters of `v` from `start` up to `end` are a long suffix.
fn is_long_suffix_at(v: &Vec<char>, start: usize, end: usize) -> (result: bool)
    requires
        start <= end <= v.len(),
    ensures
        result == is_long_suffix(v@.subrange(start as int, end as int)),
{
    if end - start == 0 {
        true
    } else if end - start == 1 {
        v[start] == 'l' || v[start] == 'L'
    } else if end - start == 2 {
        (v[start] == 'l' && v[start + 1] == 'l') || (v[start] == 'L' && v[start + 1] == 'L')
    } else {
        false
    }
}

/// Returns whether the characters of `v` from `start` on are the suffix of an integer literal.
fn is_integer_suffix_at(v: &Vec<char>, start: usize) -> (result: bool)
    requires
        start <= v.len(),
    ensures
        result == is_integer_suffix(v@.skip(start as int)),
{
    let n = v.len();
    let ghost x = v@.skip(start as int);
    assert(x =~= v@.subrange(start as int, n as int));
    if start < n {
        assert(x.drop_first() =~= v@.subrange(start + 1, n as int));
        assert(x.drop_last() =~= v@.subrange(start as int, n - 1));
    }
    is_long_suffix_at(v, start, n)
        || (start < n && (v[start] == 'u' || v[start] == 'U') && is_long_suffix_at(v, start + 1, n))
        || (start < n && (v[n - 1] == 'u' || v[n - 1] == 'U') && is_long_suffix_at(v, start, n - 1))
}

/// Returns the value of the C integer literal `number`, if it is one whose value fits in a
/// `u64`.
pub fn integer_literal_value(number: &str) -> (result: Option<u64>)
    ensures
        result == integer_literal(number@),
{
    let s = chars_of(number);
    let ghost q = s@;
    let n = s.len();
    proof {
        lemma_suffix_len_bound(q);
    }
    let mut k: usize = 0;
    assert(q.take(n as int) =~= q);
    while k < n && (s[n - 1 - k] == 'u' || s[n - 1 - k] == 'U' || s[n - 1 - k] == 'l' || s[n - 1
        - k] == 'L')
        invariant
            q == s@,
            n == q.len(),
            k <= n,
            suffix_len(q) == k + suffix_len(q.take(n - k)),
        decreases n - k,
    {
        assert(q.take(n - k).drop_last() =~= q.take(n - k - 1));
        k = k + 1;
    }
    assert(suffix_len(q) == k) by {
        if k < n {
            assert(q.take(n - k).last() == q[n - 1 - k]);
        }
    }
    let end = n - k;
    let ghost body = q.subrange(0, end as int);
    if !is_integer_suffix_at(&s, end) {
        return None;
    }
    let (base, start): (u64, usize) = if end >= 2 && s[0] == '0' && (s[1] == 'x' || s[1] == 'X') {
        (16, 2)
    } else if end >= 2 && s[0] == '0' && (s[1] == 'b' || s[1] == 'B') {
        (2, 2)
    } else if end >= 1 && s[0] == '0' {
        (8, 1)
    } else {
        (10, 0)
    };
    assert(base == literal_base(body) && start == prefix_len(body));
    let digits = sub_chars(&s, start, end);
    assert(digits@ =~= body.skip(start as int));
    if digits.len() == 0 && base != 8 {
        return None;
    }
    parse_digits(&digits, base)
}

/// A number with a decimal point or an exponent (`e`, `E`, `p` or `P`) has the shape of a
/// floating literal; a number of decimal digits alone has not.
pub proof fn lemma_floating_shape(s: Seq<char>, i: int)
    ensures
        0 <= i < s.len() && (s[i] == '.' || s[i] == 'e' || s[i] == 'E' || s[i] == 'p' || s[i]
            == 'P') ==> floating_shape(s),
        (forall|k: int| 0 <= k < s.len() ==> '0' <= #[trigger] s[k] <= '9') ==> !floating_shape(s),
{
    if 0 <= i < s.len() && (s[i] == '.' || s[i] == 'e' || s[i] == 'E' || s[i] == 'p' || s[i] == 'P') {
        assert(is_floating_mark(s[i]));
    }
}

/// Returns whether the number `number` has the shape of a floating literal: it holds a decimal
/// point or an exponent.
pub fn has_floating_shape(number: &str) -> (result: bool)
    ensures
        result == floating_shape(number@),
{
    let s = chars_of(number);
    let mut i: usize = 0;
    while i < s.len()
        invariant
            i <= s.len(),
            s@ == number@,
            forall|k: int| 0 <= k < i ==> !is_floating_mark(#[trigger] s@[k]),
        decreases s.len() - i,
    {
        let c = s[i];
        if c == '.' || c == 'e' || c == 'E' || c == 'p' || c == 'P' {
            return true;
        }
        i = i + 1;
    }
    false
}

} // verus!
