//! Words, fields and integers in a line of text.

use vstd::prelude::*;
use vstd::string::StrSliceExecFns;

verus! {

/// Whether the character separates words: the white space of Unicode.
pub open spec fn is_space(c: char) -> bool {
    let u = c as u32;
    ||| 0x09 <= u <= 0x0D
    ||| u == 0x20
    ||| u == 0x85
    ||| u == 0xA0
    ||| u == 0x1680
    ||| 0x2000 <= u <= 0x200A
    ||| u == 0x2028
    ||| u == 0x2029
    ||| u == 0x202F
    ||| u == 0x205F
    ||| u == 0x3000
}

/// Tests whether the character separates words.
pub fn is_whitespace(c: char) -> (space: bool)
    ensures
        space == is_space(c),
{
    let u: u32 = c as u32;
    (0x09 <= u && u <= 0x0D) || u == 0x20 || u == 0x85 || u == 0xA0 || u == 0x1680 || (0x2000 <= u
        && u <= 0x200A) || u == 0x2028 || u == 0x2029 || u == 0x202F || u == 0x205F || u == 0x3000
}

/// The value of a decimal digit.
pub open spec fn digit(c: char) -> Option<int> {
    if '0' <= c <= '9' {
        Some(c as u32 - '0' as u32)
    } else {
        None
    }
}

/// The number that a row of decimal digits writes, if the characters are
/// digits and at least one.
pub open spec fn natural(s: Seq<char>) -> Option<int>
    decreases s.len(),
{
    if s.len() == 0 {
        None
    } else if s.len() == 1 {
        digit(s[0])
    } else {
        match (natural(s.drop_last()), digit(s.last())) {
            (Some(above), Some(unit)) => Some(10 * above + unit),
            _ => None,
        }
    }
}

/// The integer that the characters write: digits, with one sign before them
/// or none.
pub open spec fn integer(s: Seq<char>) -> Option<int> {
    if s.len() > 0 && s[0] == '-' {
        match natural(s.skip(1)) {
            Some(n) => Some(-n),
            None => None,
        }
    } else if s.len() > 0 && s[0] == '+' {
        natural(s.skip(1))
    } else {
        natural(s)
    }
}

/// The integer that the characters write, if it is one of 32 bits.
pub open spec fn int32(s: Seq<char>) -> Option<i32> {
    match integer(s) {
        Some(n) => if i32::MIN <= n <= i32::MAX {
            Some(n as i32)
        } else {
            None
        },
        None => None,
    }
}

/// A row of digits writes no negative number.
proof fn natural_is_natural(s: Seq<char>)
    ensures
        natural(s) is Some ==> natural(s)->0 >= 0,
    decreases s.len(),
{
    if s.len() > 1 {
        natural_is_natural(s.drop_last());
    }
}

/// A row of digits writes no less than its first digits do.
proof fn natural_grows(s: Seq<char>, k: int)
    requires
        1 <= k <= s.len(),
        natural(s) is Some,
    ensures
        natural(s.take(k)) is Some,
        0 <= natural(s.take(k))->0 <= natural(s)->0,
    decreases s.len(),
{
    natural_is_natural(s);
    if k == s.len() {
        assert(s.take(k) == s);
    } else {
        natural_is_natural(s.drop_last());
        natural_grows(s.drop_last(), k);
        assert(s.drop_last().take(k) == s.take(k));
    }
}

/// Where a character of the row is no digit, the row writes no number.
proof fn natural_wants_digits(s: Seq<char>, k: int)
    requires
        0 <= k < s.len(),
        digit(s[k]) is None,
    ensures
        natural(s) is None,
    decreases s.len(),
{
    if s.len() > 1 && k < s.len() - 1 {
        natural_wants_digits(s.drop_last(), k);
    }
}

/// Reads the number that the digits of `chars` from `from` to `to` write, up
/// to `limit`.
fn parse_natural(chars: &Vec<char>, from: usize, to: usize, limit: i64) -> (r: Option<i64>)
    requires
        from <= to <= chars@.len(),
        0 <= limit <= 0x8000_0000,
    ensures
        r == match natural(chars@.subrange(from as int, to as int)) {
            Some(n) => if n <= limit {
                Some(n as i64)
            } else {
                None
            },
            None => None,
        },
        r matches Some(n) ==> 0 <= n <= limit,
{
    let ghost s = chars@.subrange(from as int, to as int);
    if from == to {
        return None;
    }
    let mut value: i64 = 0;
    let mut i: usize = from;
    while i < to
        invariant
            from <= i <= to <= chars@.len(),
            s == chars@.subrange(from as int, to as int),
            0 <= limit <= 0x8000_0000,
            0 <= value <= limit,
            i > from ==> natural(s.take(i - from)) == Some(value as int),
            i == from ==> value == 0,
        decreases to - i,
    {
        let c: char = chars[i];
        if !('0' <= c && c <= '9') {
            proof {
                natural_wants_digits(s, i - from);
            }
            return None;
        }
        let unit: i64 = (c as u32 - '0' as u32) as i64;
        let next: i64 = 10 * value + unit;
        proof {
            let head = s.take(i - from + 1);
            assert(head.drop_last() == s.take(i - from));
        }
        if next > limit {
            proof {
                if natural(s) is Some {
                    natural_grows(s, i - from + 1);
                }
            }
            return None;
        }
        value = next;
        i += 1;
    }
    assert(s.take(to - from) == s);
    Some(value)
}

/// Reads the integer that the characters of `chars` from `from` to `to`
/// write, if it is one of 32 bits.
pub fn parse_int(chars: &Vec<char>, from: usize, to: usize) -> (r: Option<i32>)
    requires
        from <= to <= chars@.len(),
    ensures
        r == int32(chars@.subrange(from as int, to as int)),
{
    let ghost s = chars@.subrange(from as int, to as int);
    proof {
        natural_is_natural(s);
        natural_is_natural(s.skip(1));
    }
    if from < to && chars[from] == '-' {
        assert(s.skip(1) == chars@.subrange(from + 1, to as int));
        match parse_natural(chars, from + 1, to, 0x8000_0000) {
            Some(n) => Some((-n) as i32),
            None => None,
        }
    } else if from < to && chars[from] == '+' {
        assert(s.skip(1) == chars@.subrange(from + 1, to as int));
        match parse_natural(chars, from + 1, to, 0x7fff_ffff) {
            Some(n) => Some(n as i32),
            None => None,
        }
    } else {
        match parse_natural(chars, from, to, 0x7fff_ffff) {
            Some(n) => Some(n as i32),
            None => None,
        }
    }
}

/// The characters of a string, one by one.
pub fn to_chars(s: &str) -> (chars: Vec<char>)
    ensures
        chars@ == s@,
{
    if s.is_ascii() {
        let bytes = s.as_bytes();
        proof {
            vstd::string::is_ascii_spec_bytes(s);
        }
        let n: usize = bytes.len();
        let mut chars: Vec<char> = Vec::with_capacity(n);
        let mut i: usize = 0;
        while i < n
            invariant
                s.is_ascii(),
                n == s@.len(),
                bytes@.len() == n,
                forall|k: int| 0 <= k < n ==> bytes@[k] == s@[k] as u8,
                i <= n,
                chars@ == s@.take(i as int),
            decreases n - i,
        {
            let c: char = bytes[i] as char;
            chars.push(c);
            i += 1;
        }
        chars
    } else {
        let n: usize = s.unicode_len();
        let mut chars: Vec<char> = Vec::with_capacity(n);
        let mut i: usize = 0;
        while i < n
            invariant
                n == s@.len(),
                i <= n,
                chars@ == s@.take(i as int),
            decreases n - i,
        {
            chars.push(s.get_char(i));
            i += 1;
        }
        chars
    }
}

/// Where the next word begins at or after `from`: at the first character
/// that is no white space, or at the end.
pub open spec fn word_start(s: Seq<char>, from: int) -> int
    decreases s.len() - from,
{
    if from < 0 || from >= s.len() {
        s.len() as int
    } else if !is_space(s[from]) {
        from
    } else {
        word_start(s, from + 1)
    }
}

/// Where the word that holds `from` ends: at the first white space, or at the
/// end.
pub open spec fn word_end(s: Seq<char>, from: int) -> int
    decreases s.len() - from,
{
    if from < 0 || from >= s.len() {
        s.len() as int
    } else if is_space(s[from]) {
        from
    } else {
        word_end(s, from + 1)
    }
}

/// Where the field that begins at `from` ends within a word that ends at
/// `to`: at the first slash, or at `to`.
pub open spec fn field_end(s: Seq<char>, from: int, to: int) -> int
    decreases to - from,
{
    if from < 0 || from >= to || to > s.len() {
        to
    } else if s[from] == '/' {
        from
    } else {
        field_end(s, from + 1, to)
    }
}

/// Neither a word nor a field ends before it begins, nor after the end.
pub proof fn ends_follow(s: Seq<char>, from: int, to: int)
    requires
        0 <= from <= to <= s.len(),
    ensures
        from <= word_start(s, from) <= s.len(),
        word_start(s, from) < s.len() ==> !is_space(s[word_start(s, from)]),
        from <= word_end(s, from) <= s.len(),
        from < s.len() && !is_space(s[from]) ==> from < word_end(s, from),
        from <= field_end(s, from, to) <= to,
    decreases s.len() - from,
{
    if from < s.len() {
        ends_follow(s, from + 1, if to > from { to } else { from + 1 });
    }
}

/// Finds where the next word begins.
pub(crate) fn find_word_start(chars: &Vec<char>, from: usize) -> (at: usize)
    requires
        from <= chars@.len(),
    ensures
        at == word_start(chars@, from as int),
        from <= at <= chars@.len(),
{
    let mut at: usize = from;
    while at < chars.len() && is_whitespace(chars[at])
        invariant
            from <= at <= chars@.len(),
            word_start(chars@, at as int) == word_start(chars@, from as int),
        decreases chars@.len() - at,
    {
        at += 1;
    }
    at
}

/// Finds where the word that begins at `from` ends.
pub(crate) fn find_word_end(chars: &Vec<char>, from: usize) -> (at: usize)
    requires
        from <= chars@.len(),
    ensures
        at == word_end(chars@, from as int),
        from <= at <= chars@.len(),
{
    let mut at: usize = from;
    while at < chars.len() && !is_whitespace(chars[at])
        invariant
            from <= at <= chars@.len(),
            word_end(chars@, at as int) == word_end(chars@, from as int),
        decreases chars@.len() - at,
    {
        at += 1;
    }
    at
}

/// Finds where the field that begins at `from` ends.
pub(crate) fn find_field_end(chars: &Vec<char>, from: usize, to: usize) -> (at: usize)
    requires
        to <= chars@.len(),
    ensures
        at == field_end(chars@, from as int, to as int),
        from <= to ==> from <= at <= to,
        from > to ==> at == to,
{
    if from >= to {
        return to;
    }
    let mut at: usize = from;
    while at < to && chars[at] != '/'
        invariant
            from <= at <= to <= chars@.len(),
            field_end(chars@, at as int, to as int) == field_end(chars@, from as int, to as int),
        decreases to - at,
    {
        at += 1;
    }
    at
}

} // verus!
