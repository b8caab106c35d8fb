use vstd::prelude::*;

use crate::text::{chars_of, push_char, split_at_char, split_on, strs};

verus! {

/// Why a field could not be decoded.
#[derive(Debug, PartialEq, Eq, Structural)]
pub enum DecodeError {
    /// A flag that was neither zero nor one.
    InvalidFlag(u8),
    /// A field that is not an unsigned decimal number in range.
    InvalidNumber,
    /// A field that is not `true`, `false`, `1` or `0`.
    InvalidBool,
    /// A required field that is missing.
    MissingField,
    /// A document that is not well-formed.
    MalformedDocument,
}

pub open spec fn is_digit(c: char) -> bool {
    '0' <= c && c <= '9'
}

pub open spec fn digit_value(c: char) -> nat {
    (c as u32 - '0' as u32) as nat
}

/// The number that a string of digits spells in decimal.
pub open spec fn digits_value(s: Seq<char>) -> nat
    decreases s.len(),
{
    if s.len() == 0 {
        0
    } else {
        digits_value(s.drop_last()) * 10 + digit_value(s.last())
    }
}

pub open spec fn all_digits(s: Seq<char>) -> bool {
    forall|i: int| 0 <= i < s.len() ==> is_digit(#[trigger] s[i])
}

/// An unsigned decimal number: an optional `+`, then one digit or more.
pub open spec fn decimal_value(s: Seq<char>) -> Option<nat> {
    let t = if s.len() > 0 && s[0] == '+' {
        s.drop_first()
    } else {
        s
    };
    if t.len() > 0 && all_digits(t) {
        Some(digits_value(t))
    } else {
        None
    }
}

/// The number in `s`, where it is an unsigned decimal that fits in `max`.
pub open spec fn bounded_decimal(s: Seq<char>, max: nat) -> Option<nat> {
    match decimal_value(s) {
        Some(v) => if v <= max {
            Some(v)
        } else {
            None
        },
        None => None,
    }
}

proof fn lemma_digits_value_grows(s: Seq<char>, k: int)
    requires
        0 <= k <= s.len(),
        all_digits(s),
    ensures
        digits_value(s.take(k)) <= digits_value(s),
    decreases s.len() - k,
{
    if k < s.len() {
        lemma_digits_value_grows(s, k + 1);
        assert(s.take(k + 1).drop_last() == s.take(k));
    } else {
        assert(s.take(k) == s);
    }
}

/// Reads an unsigned decimal number no larger than `max`.
fn parse_bounded(s: &str, max: usize) -> (r: Option<usize>)
    requires
        max >= 9,
    ensures
        r == (match bounded_decimal(s@, max as nat) {
            Some(v) => Some(v as usize),
            None => None,
        }),
{
    let cs = chars_of(s);
    let start: usize = if cs.len() > 0 && cs[0] == '+' {
        1
    } else {
        0
    };
    let ghost t = if s@.len() > 0 && s@[0] == '+' {
        s@.drop_first()
    } else {
        s@
    };
    assert(t == cs@.subrange(start as int, cs@.len() as int));
    if start >= cs.len() {
        return None;
    }
    let mut acc: usize = 0;
    let mut i: usize = start;
    while i < cs.len()
        invariant
            start <= i <= cs.len(),
            cs@ == s@,
            t == cs@.subrange(start as int, cs@.len() as int),
            t == (if s@.len() > 0 && s@[0] == '+' {
                s@.drop_first()
            } else {
                s@
            }),
            all_digits(t.take(i - start)),
            acc as nat == digits_value(t.take(i - start)),
            acc <= max,
            max >= 9,
        decreases cs.len() - i,
    {
        let c = cs[i];
        assert(t.take(i - start + 1).drop_last() == t.take(i - start));
        assert(t[i - start] == c);
        if c < '0' || c > '9' {
            assert(!is_digit(t[i - start]));
            assert(!all_digits(t));
            return None;
        }
        let d = (c as u32 - '0' as u32) as usize;
        if acc > (max - d) / 10 {
            proof {
                assert((acc as int) * 10 + d > max) by (nonlinear_arith)
                    requires
                        acc > (max - d) / 10,
                        d <= 9,
                        d <= max,
                ;
                assert(digits_value(t.take(i - start + 1)) == acc * 10 + d);
                if all_digits(t) {
                    lemma_digits_value_grows(t, i - start + 1);
                }
            }
            return None;
        }
        proof {
            assert((acc as int) * 10 + d <= max) by (nonlinear_arith)
                requires
                    acc <= (max - d) / 10,
                    d <= max,
            ;
        }
        acc = acc * 10 + d;
        i += 1;
        assert(all_digits(t.take(i - start)));
    }
    assert(t.take(i - start) == t);
    Some(acc)
}

/// Reads an unsigned decimal number that fits in a `usize`.
pub fn parse_usize(s: &str) -> (r: Option<usize>)
    ensures
        r == (match bounded_decimal(s@, usize::MAX as nat) {
            Some(v) => Some(v as usize),
            None => None,
        }),
{
    parse_bounded(s, usize::MAX)
}

/// Reads an unsigned decimal number that fits in a byte.
pub fn parse_u8(s: &str) -> (r: Option<u8>)
    ensures
        r == (match bounded_decimal(s@, u8::MAX as nat) {
            Some(v) => Some(v as u8),
            None => None,
        }),
{
    match parse_bounded(s, 255) {
        Some(v) => Some(v as u8),
        None => None,
    }
}

/// What a flag byte means: zero is false, one is true.
pub open spec fn flag_of(v: u8) -> Result<bool, DecodeError> {
    if v == 0 {
        Ok(false)
    } else if v == 1 {
        Ok(true)
    } else {
        Err(DecodeError::InvalidFlag(v))
    }
}

/// Decodes a flag byte strictly: zero or one, nothing else.
pub fn bool_from_int(v: u8) -> (r: Result<bool, DecodeError>)
    ensures
        r == flag_of(v),
{
    if v == 0 {
        Ok(false)
    } else if v == 1 {
        Ok(true)
    } else {
        Err(DecodeError::InvalidFlag(v))
    }
}

/// A flag field: a byte in decimal, then read by `flag_of`.
pub open spec fn flag_field(s: Seq<char>) -> Result<bool, DecodeError> {
    match bounded_decimal(s, u8::MAX as nat) {
        Some(v) => flag_of(v as u8),
        None => Err(DecodeError::InvalidNumber),
    }
}

/// Decodes a flag field of a listing row.
pub fn decode_flag(s: &str) -> (r: Result<bool, DecodeError>)
    ensures
        r == flag_field(s@),
{
    match parse_u8(s) {
        Some(v) => bool_from_int(v),
        None => Err(DecodeError::InvalidNumber),
    }
}

/// Whether two texts are the same.
pub(crate) fn text_eq(a: &str, b: &str) -> (r: bool)
    ensures
        r == (a@ == b@),
{
    let x = String::from_str(a);
    let y = String::from_str(b);
    x == y
}

/// A boolean attribute of an XML document: `true` or `1`, `false` or `0`.
pub open spec fn bool_field(s: Seq<char>) -> Result<bool, DecodeError> {
    if s == "true"@ || s == "1"@ {
        Ok(true)
    } else if s == "false"@ || s == "0"@ {
        Ok(false)
    } else {
        Err(DecodeError::InvalidBool)
    }
}

/// Decodes a boolean attribute of an XML document.
pub fn decode_bool(s: &str) -> (r: Result<bool, DecodeError>)
    ensures
        r == bool_field(s@),
{
    if text_eq(s, "true") || text_eq(s, "1") {
        Ok(true)
    } else if text_eq(s, "false") || text_eq(s, "0") {
        Ok(false)
    } else {
        Err(DecodeError::InvalidBool)
    }
}

/// The decoded value, or `false` where decoding failed.
pub open spec fn or_default(r: Result<bool, DecodeError>) -> bool {
    match r {
        Ok(b) => b,
        Err(_) => false,
    }
}

/// Keeps a decoded boolean and puts the default, `false`, in place of a
/// decoding failure.
pub fn default_on_error(r: Result<bool, DecodeError>) -> (b: bool)
    ensures
        b == or_default(r),
{
    match r {
        Ok(b) => b,
        Err(_) => false,
    }
}

/// A comma-separated field as a list; the empty field is the empty list.
pub open spec fn comma_list(s: Seq<char>) -> Seq<Seq<char>> {
    if s.len() == 0 {
        Seq::empty()
    } else {
        split_on(s, ',')
    }
}

/// Splits a field at every comma; the empty field gives the empty list.
pub fn comma_separated_list(s: &str) -> (r: Vec<String>)
    ensures
        strs(r@) == comma_list(s@),
{
    if s.is_empty() {
        let r: Vec<String> = Vec::new();
        assert(strs(r@) =~= Seq::<Seq<char>>::empty());
        r
    } else {
        split_at_char(s, ',')
    }
}

pub open spec fn strip_leading(s: Seq<char>, c: char) -> Seq<char>
    decreases s.len(),
{
    if s.len() > 0 && s[0] == c {
        strip_leading(s.drop_first(), c)
    } else {
        s
    }
}

pub open spec fn strip_trailing(s: Seq<char>, c: char) -> Seq<char>
    decreases s.len(),
{
    if s.len() > 0 && s.last() == c {
        strip_trailing(s.drop_last(), c)
    } else {
        s
    }
}

pub open spec fn strip_one_leading(s: Seq<char>, c: char) -> Seq<char> {
    if s.len() > 0 && s[0] == c {
        s.drop_first()
    } else {
        s
    }
}

pub open spec fn strip_one_trailing(s: Seq<char>, c: char) -> Seq<char> {
    if s.len() > 0 && s.last() == c {
        s.drop_last()
    } else {
        s
    }
}

/// The options of a filter with their brackets taken off: a single item loses
/// its leading `[` and trailing `]` characters and, left empty, leaves the
/// list empty; of two items or more, the first loses one leading `[` and the
/// last one trailing `]`.
pub open spec fn bracket_trimmed(items: Seq<Seq<char>>) -> Seq<Seq<char>> {
    if items.len() == 0 {
        items
    } else if items.len() == 1 {
        let t = strip_trailing(strip_leading(items[0], '['), ']');
        if t.len() == 0 {
            Seq::empty()
        } else {
            seq![t]
        }
    } else {
        items.update(0, strip_one_leading(items[0], '[')).update(
            items.len() - 1,
            strip_one_trailing(items.last(), ']'),
        )
    }
}

/// The characters `cs[lo..hi]` as a string.
fn text_range(cs: &Vec<char>, lo: usize, hi: usize) -> (r: String)
    requires
        lo <= hi <= cs.len(),
    ensures
        r@ == cs@.subrange(lo as int, hi as int),
{
    let mut out = String::new();
    let mut i: usize = lo;
    while i < hi
        invariant
            lo <= i <= hi <= cs.len(),
            out@ == cs@.subrange(lo as int, i as int),
        decreases hi - i,
    {
        push_char(&mut out, cs[i]);
        i += 1;
        assert(out@ =~= cs@.subrange(lo as int, i as int));
    }
    out
}

/// `s` without its leading `[` and trailing `]` characters.
fn strip_brackets(s: &str) -> (r: String)
    ensures
        r@ == strip_trailing(strip_leading(s@, '['), ']'),
{
    let cs = chars_of(s);
    let n = cs.len();
    let mut lo: usize = 0;
    assert(cs@.subrange(0, n as int) == s@);
    while lo < n && cs[lo] == '['
        invariant
            lo <= n == cs.len(),
            cs@ == s@,
            strip_leading(s@, '[') == strip_leading(cs@.subrange(lo as int, n as int), '['),
        decreases n - lo,
    {
        assert(cs@.subrange(lo as int, n as int).drop_first() == cs@.subrange(lo + 1, n as int));
        lo += 1;
    }
    let mut hi: usize = n;
    while hi > lo && cs[hi - 1] == ']'
        invariant
            lo <= hi <= n == cs.len(),
            cs@ == s@,
            strip_trailing(strip_leading(s@, '['), ']') == strip_trailing(
                cs@.subrange(lo as int, hi as int),
                ']',
            ),
        decreases hi,
    {
        assert(cs@.subrange(lo as int, hi as int).drop_last() == cs@.subrange(
            lo as int,
            hi - 1,
        ));
        hi -= 1;
    }
    text_range(&cs, lo, hi)
}

/// `s` without one leading `c`, if it starts with one.
fn strip_one_first(s: &str, c: char) -> (r: String)
    ensures
        r@ == strip_one_leading(s@, c),
{
    let cs = chars_of(s);
    if cs.len() > 0 && cs[0] == c {
        text_range(&cs, 1, cs.len())
    } else {
        let r = text_range(&cs, 0, cs.len());
        assert(cs@.subrange(0, cs.len() as int) == cs@);
        r
    }
}

/// `s` without one trailing `c`, if it ends with one.
fn strip_one_last(s: &str, c: char) -> (r: String)
    ensures
        r@ == strip_one_trailing(s@, c),
{
    let cs = chars_of(s);
    if cs.len() > 0 && cs[cs.len() - 1] == c {
        text_range(&cs, 0, cs.len() - 1)
    } else {
        let r = text_range(&cs, 0, cs.len());
        assert(cs@.subrange(0, cs.len() as int) == cs@);
        r
    }
}

/// Takes the brackets off a list of filter options, as `bracket_trimmed`
/// says.
pub fn trim_bracket_items(items: Vec<String>) -> (r: Vec<String>)
    ensures
        strs(r@) == bracket_trimmed(strs(items@)),
{
    let mut items = items;
    let n = items.len();
    if n == 0 {
        items
    } else if n == 1 {
        let t = strip_brackets(items[0].as_str());
        if t.as_str().is_empty() {
            let r: Vec<String> = Vec::new();
            assert(strs(r@) =~= Seq::<Seq<char>>::empty());
            r
        } else {
            let mut r: Vec<String> = Vec::new();
            r.push(t);
            assert(strs(r@) =~= seq![t@]);
            r
        }
    } else {
        let ghost orig = strs(items@);
        let first = strip_one_first(items[0].as_str(), '[');
        let last = strip_one_last(items[n - 1].as_str(), ']');
        items.set(0, first);
        items.set(n - 1, last);
        assert(strs(items@) =~= bracket_trimmed(orig));
        items
    }
}

/// A filter's options field: split at commas, then trimmed of brackets.
pub fn bracket_trimmed_list(s: &str) -> (r: Vec<String>)
    ensures
        strs(r@) == bracket_trimmed(comma_list(s@)),
{
    trim_bracket_items(comma_separated_list(s))
}

} // verus!
