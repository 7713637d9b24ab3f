//! Conversions between strings and sequences of characters.

use vstd::prelude::*;
use vstd::slice::slice_subrange;
use vstd::string::*;

verus! {

/// Appends one character to a string.
///
/// Trusted: calls `String::push` of the standard library, which is documented
/// to append the given character to the end of the string.
#[verifier::external_body]
pub(crate) fn push_char(s: &mut String, c: char)
    ensures
        final(s)@ == old(s)@.push(c),
{
    s.push(c);
}

/// The characters of a string, in order.
pub fn to_chars(s: &str) -> (v: Vec<char>)
    ensures
        v@ == s@,
{
    let n: usize = s.unicode_len();
    let mut v: Vec<char> = Vec::new();
    let mut i: usize = 0;
    while i < n
        invariant
            n == s@.len(),
            i <= n,
            v@ == s@.subrange(0, i as int),
        decreases n - i,
    {
        v.push(s.get_char(i));
        i += 1;
    }
    v
}

/// The string made of the given characters, in order.
pub fn from_chars(v: &[char]) -> (s: String)
    ensures
        s@ == v@,
{
    let mut s: String = String::new();
    let mut i: usize = 0;
    while i < v.len()
        invariant
            i <= v.len(),
            s@ == v@.subrange(0, i as int),
        decreases v.len() - i,
    {
        push_char(&mut s, v[i]);
        i += 1;
    }
    s
}

/// The decimal form of a number, without zeroes in front.
pub open spec fn decimal(n: nat) -> Seq<char>
    decreases n,
{
    if n < 10 {
        seq![((48 + n) as u8) as char]
    } else {
        decimal(n / 10).push(((48 + n % 10) as u8) as char)
    }
}

/// Writes a number in decimal.
pub fn to_decimal(n: u128) -> (r: Vec<char>)
    ensures
        r@ == decimal(n as nat),
{
    let mut out: Vec<char> = Vec::new();
    let mut cur: u128 = n;
    while cur >= 10
        invariant
            decimal(n as nat) == decimal(cur as nat) + out@,
        decreases cur,
    {
        let c: char = (48u8 + (cur % 10) as u8) as char;
        proof {
            let rest = decimal((cur / 10) as nat);
            assert(decimal(cur as nat) == rest.push(c));
            assert(rest.push(c) + out@ =~= rest + out@.insert(0, c));
        }
        out.insert(0, c);
        cur = cur / 10;
    }
    let c: char = (48u8 + cur as u8) as char;
    assert(decimal(cur as nat) + out@ =~= out@.insert(0, c));
    out.insert(0, c);
    out
}

/// The position of the first `c` in `s`, or the length of `s` where it holds
/// none.
pub open spec fn first_index(s: Seq<char>, c: char) -> nat
    decreases s.len(),
{
    if s.len() == 0 || s[0] == c {
        0
    } else {
        1 + first_index(s.drop_first(), c)
    }
}

/// `first_index` is the position before which no `c` stands and at which one
/// does, or the text ends.
pub proof fn lemma_first_index(s: Seq<char>, c: char, i: int)
    requires
        0 <= i <= s.len(),
        forall|j: int| 0 <= j < i ==> s[j] != c,
        i == s.len() || s[i] == c,
    ensures
        first_index(s, c) == i,
    decreases s.len(),
{
    if i > 0 {
        let t = s.drop_first();
        assert(s[0] != c);
        assert forall|j: int| 0 <= j < i - 1 implies t[j] != c by {
            assert(t[j] == s[j + 1]);
        }
        lemma_first_index(t, c, i - 1);
    }
}

/// The text in front of the first `c`: all of it where it holds none.
pub open spec fn before(s: Seq<char>, c: char) -> Seq<char> {
    s.subrange(0, first_index(s, c) as int)
}

/// The text behind the first `c`, or `None` where it holds none.
pub open spec fn after(s: Seq<char>, c: char) -> Option<Seq<char>> {
    if first_index(s, c) < s.len() {
        Some(s.subrange(first_index(s, c) as int + 1, s.len() as int))
    } else {
        None
    }
}

/// Finds the first `c`.
pub fn find_char(s: &[char], c: char) -> (r: usize)
    ensures
        r == first_index(s@, c),
        r <= s@.len(),
{
    let mut i: usize = 0;
    while i < s.len() && s[i] != c
        invariant
            i <= s.len(),
            forall|j: int| 0 <= j < i ==> s@[j] != c,
        decreases s.len() - i,
    {
        i += 1;
    }
    proof {
        lemma_first_index(s@, c, i as int);
    }
    i
}

/// Splits a text at its first `c`.
pub fn split_at_char<'a>(s: &'a [char], c: char) -> (r: (&'a [char], Option<&'a [char]>))
    ensures
        r.0@ == before(s@, c),
        match r.1 {
            Some(t) => after(s@, c) == Some(t@),
            None => after(s@, c) is None,
        },
{
    let i = find_char(s, c);
    let head = slice_subrange(s, 0, i);
    if i < s.len() {
        (head, Some(slice_subrange(s, i + 1, s.len())))
    } else {
        (head, None)
    }
}

/// Whether two texts hold the same characters.
pub fn same_chars(a: &[char], b: &[char]) -> (r: bool)
    ensures
        r == (a@ == b@),
{
    if a.len() != b.len() {
        return false;
    }
    let mut i: usize = 0;
    while i < a.len()
        invariant
            a.len() == b.len(),
            i <= a.len(),
            forall|j: int| 0 <= j < i ==> a@[j] == b@[j],
        decreases a.len() - i,
    {
        if a[i] != b[i] {
            return false;
        }
        i += 1;
    }
    assert(a@ =~= b@);
    true
}

/// The number that decimal digits stand for.
pub open spec fn number_value(s: Seq<char>) -> nat
    decreases s.len(),
{
    if s.len() == 0 {
        0
    } else {
        number_value(s.drop_last()) * 10 + (s.last() as u32 - 48) as nat
    }
}

/// Whether every character is a decimal digit.
pub open spec fn all_digits(s: Seq<char>) -> bool {
    forall|i: int| 0 <= i < s.len() ==> 48 <= (#[trigger] s[i] as u32) <= 57
}

/// The number that a text stands for: it is made of decimal digits, at least
/// one, and its value fits in 64 bits.
pub open spec fn parsed_number(s: Seq<char>) -> Option<u64> {
    if s.len() > 0 && all_digits(s) && number_value(s) <= u64::MAX {
        Some(number_value(s) as u64)
    } else {
        None
    }
}

/// The value of a text made of digits is at least that of each of its
/// beginnings.
pub proof fn lemma_number_value_grows(s: Seq<char>, i: int)
    requires
        0 <= i <= s.len(),
    ensures
        number_value(s.subrange(0, i)) <= number_value(s),
    decreases s.len() - i,
{
    if i < s.len() {
        lemma_number_value_grows(s, i + 1);
        assert(s.subrange(0, i + 1).drop_last() =~= s.subrange(0, i));
    } else {
        assert(s.subrange(0, i) =~= s);
    }
}

/// Reads a decimal number.
pub fn parse_number(s: &[char]) -> (r: Option<u64>)
    ensures
        r == parsed_number(s@),
{
    if s.len() == 0 {
        return None;
    }
    let mut acc: u64 = 0;
    let mut i: usize = 0;
    while i < s.len()
        invariant
            i <= s.len(),
            acc == number_value(s@.subrange(0, i as int)),
            all_digits(s@.subrange(0, i as int)),
        decreases s.len() - i,
    {
        let c: char = s[i];
        proof {
            assert(s@.subrange(0, i + 1).drop_last() =~= s@.subrange(0, i as int));
            lemma_number_value_grows(s@, i + 1);
        }
        if (c as u32) < 48 || (c as u32) > 57 {
            assert(!all_digits(s@)) by {
                assert(s@[i as int] == c);
            }
            return None;
        }
        let d: u64 = (c as u32 - 48) as u64;
        if acc > (u64::MAX - d) / 10 {
            return None;
        }
        acc = acc * 10 + d;
        assert(all_digits(s@.subrange(0, i + 1))) by {
            assert forall|j: int| 0 <= j < i + 1 implies 48 <= (#[trigger] s@.subrange(0, i + 1)[j]
                as u32) <= 57 by {
                if j < i {
                    assert(s@.subrange(0, i + 1)[j] == s@.subrange(0, i as int)[j]);
                }
            }
        }
        i += 1;
    }
    assert(s@.subrange(0, i as int) =~= s@);
    Some(acc)
}

} // verus!
