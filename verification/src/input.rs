//! Reading a menu choice out of a line of text.
//!
//! A line answers a menu of `options` entries when, with the white space
//! around it removed, it is a decimal integer between 1 and `options`.
//! [`parse_choice`] decides that for one line; whoever reads the lines asks
//! again for as long as the decision is `None`.

use vstd::prelude::*;
use vstd::std_specs::iter::IteratorSpec;

verus! {

/// Whether `c` is white space: the code points that Unicode gives the
/// property `White_Space`.
pub open spec fn is_white_space(c: char) -> bool {
    let u = c as int;
    ||| 0x09 <= u <= 0x0D
    ||| u == 0x20
    ||| u == 0x85
    ||| u == 0xA0
    ||| u == 0x1680
    ||| 0x2000 <= u <= 0x200A
    ||| u == 0x2028
    ||| u == 0x2029
    ||| u == 0x202F
    ||| u == 0x205F
    ||| u == 0x3000
}

/// `s` without the white space at its front.
pub open spec fn trim_start(s: Seq<char>) -> Seq<char>
    decreases s.len(),
{
    if s.len() > 0 && is_white_space(s.first()) {
        trim_start(s.drop_first())
    } else {
        s
    }
}

/// `s` without the white space at its back.
pub open spec fn trim_end(s: Seq<char>) -> Seq<char>
    decreases s.len(),
{
    if s.len() > 0 && is_white_space(s.last()) {
        trim_end(s.drop_last())
    } else {
        s
    }
}

/// `s` without the white space at either end.
pub open spec fn trim(s: Seq<char>) -> Seq<char> {
    trim_end(trim_start(s))
}

/// Whether `c` is one of the ten decimal digits `0` to `9`.
pub open spec fn is_digit(c: char) -> bool {
    '0' <= c && c <= '9'
}

/// The number a decimal digit stands for.
pub open spec fn digit_value(c: char) -> int {
    c as int - '0' as int
}

/// Whether `s` is a numeral: one or more decimal digits and nothing else.
pub open spec fn is_numeral(s: Seq<char>) -> bool {
    s.len() > 0 && forall|i: int| 0 <= i < s.len() ==> is_digit(#[trigger] s[i])
}

/// The number that the digits of `s` write in base ten.
pub open spec fn numeral_value(s: Seq<char>) -> int
    decreases s.len(),
{
    if s.len() == 0 {
        0
    } else {
        10 * numeral_value(s.drop_last()) + digit_value(s.last())
    }
}

/// The integer that `s` writes: a numeral, with at most one sign in front.
/// Anything else, white space included, writes no integer.
pub open spec fn parse_integer(s: Seq<char>) -> Option<int> {
    if s.len() > 0 && s.first() == '-' {
        if is_numeral(s.drop_first()) {
            Some(-numeral_value(s.drop_first()))
        } else {
            None
        }
    } else if s.len() > 0 && s.first() == '+' {
        if is_numeral(s.drop_first()) {
            Some(numeral_value(s.drop_first()))
        } else {
            None
        }
    } else if is_numeral(s) {
        Some(numeral_value(s))
    } else {
        None
    }
}

/// The menu entry that `line` picks out of `options` entries numbered from 1,
/// if it picks one.
pub open spec fn choice_of(line: Seq<char>, options: int) -> Option<int> {
    match parse_integer(trim(line)) {
        Some(n) => if 1 <= n <= options {
            Some(n)
        } else {
            None
        },
        None => None,
    }
}

/// Whatever the line, the entry it picks is on the menu: a choice is never
/// below 1 nor above the number of options, and a menu without entries has
/// no choice at all.
pub proof fn lemma_choice_is_on_menu(line: Seq<char>, options: int)
    ensures
        choice_of(line, options) matches Some(n) ==> 1 <= n <= options,
        options < 1 ==> choice_of(line, options) is None,
{
}

/// A numeral never writes a negative number.
pub proof fn lemma_numeral_value_nonnegative(s: Seq<char>)
    requires
        forall|i: int| 0 <= i < s.len() ==> is_digit(#[trigger] s[i]),
    ensures
        numeral_value(s) >= 0,
    decreases s.len(),
{
    if s.len() > 0 {
        lemma_numeral_value_nonnegative(s.drop_last());
    }
}

/// Reading more digits never makes the number smaller: every prefix of a
/// numeral writes at most what the whole numeral writes.
pub proof fn lemma_numeral_value_prefix(s: Seq<char>, k: int)
    requires
        0 <= k <= s.len(),
        forall|i: int| 0 <= i < s.len() ==> is_digit(#[trigger] s[i]),
    ensures
        numeral_value(s.subrange(0, k)) <= numeral_value(s),
    decreases s.len(),
{
    if k == s.len() {
        assert(s.subrange(0, k) =~= s);
    } else {
        lemma_numeral_value_prefix(s.drop_last(), k);
        lemma_numeral_value_nonnegative(s.drop_last());
        assert(s.drop_last().subrange(0, k) =~= s.subrange(0, k));
    }
}

/// Whether `c` is white space, as [`is_white_space`] defines it.
pub fn is_whitespace(c: char) -> (white: bool)
    ensures
        white == is_white_space(c),
{
    let u: u32 = c as u32;
    (0x09 <= u && u <= 0x0D) || u == 0x20 || u == 0x85 || u == 0xA0 || u == 0x1680 || (0x2000 <= u
        && u <= 0x200A) || u == 0x2028 || u == 0x2029 || u == 0x202F || u == 0x205F || u == 0x3000
}

/// The characters of `line`, in order.
fn characters(line: &str) -> (chars: Vec<char>)
    ensures
        chars@ == line@,
{
    broadcast use vstd::string::group_string_axioms;

    let mut chars: Vec<char> = Vec::new();
    for c in it: line.chars()
        invariant
            it.seq() == line@,
            chars@ == line@.take(it.index()),
    {
        chars.push(c);
    }
    chars
}

/// Where the trimmed text lies in `chars`: it runs from `bounds.0` up to, not
/// including, `bounds.1`.
fn trim_bounds(chars: &Vec<char>) -> (bounds: (usize, usize))
    ensures
        bounds.0 <= bounds.1 <= chars.len(),
        chars@.subrange(bounds.0 as int, bounds.1 as int) == trim(chars@),
{
    let len = chars.len();
    let mut start: usize = 0;
    assert(chars@.subrange(0, len as int) =~= chars@);
    while start < len && is_whitespace(chars[start])
        invariant
            start <= len == chars.len(),
            trim_start(chars@) == trim_start(chars@.subrange(start as int, len as int)),
        decreases len - start,
    {
        proof {
            let rest = chars@.subrange(start as int, len as int);
            assert(rest.drop_first() =~= chars@.subrange(start + 1, len as int));
        }
        start += 1;
    }
    let ghost front = chars@.subrange(start as int, len as int);
    let mut end: usize = len;
    while end > start && is_whitespace(chars[end - 1])
        invariant
            start <= end <= len == chars.len(),
            front == chars@.subrange(start as int, len as int),
            trim_end(front) == trim_end(chars@.subrange(start as int, end as int)),
        decreases end - start,
    {
        proof {
            let rest = chars@.subrange(start as int, end as int);
            assert(rest.drop_last() =~= chars@.subrange(start as int, end - 1));
        }
        end -= 1;
    }
    (start, end)
}

/// Reads `chars[from..to]` as a numeral, giving up as soon as the number
/// read so far is past `limit`.
fn bounded_numeral(chars: &Vec<char>, from: usize, to: usize, limit: i32) -> (value: Option<i32>)
    requires
        from <= to <= chars.len(),
    ensures
        match value {
            Some(v) => {
                &&& is_numeral(chars@.subrange(from as int, to as int))
                &&& numeral_value(chars@.subrange(from as int, to as int)) == v
                &&& 0 <= v <= limit
            },
            None => {
                ||| !is_numeral(chars@.subrange(from as int, to as int))
                ||| numeral_value(chars@.subrange(from as int, to as int)) > limit
            },
        },
{
    let ghost text = chars@.subrange(from as int, to as int);
    if from == to || limit < 0 {
        proof {
            if is_numeral(text) {
                lemma_numeral_value_nonnegative(text);
            }
        }
        return None;
    }
    let mut value: i32 = 0;
    let mut at: usize = from;
    while at < to
        invariant
            from <= at <= to <= chars.len(),
            text == chars@.subrange(from as int, to as int),
            forall|i: int| 0 <= i < at - from ==> is_digit(#[trigger] text[i]),
            numeral_value(text.subrange(0, at - from)) == value,
            0 <= value <= limit,
        decreases to - at,
    {
        let c = chars[at];
        if !('0' <= c && c <= '9') {
            assert(!is_digit(text[at - from]));
            return None;
        }
        let digit: i64 = (c as u32 - '0' as u32) as i64;
        let longer: i64 = (value as i64) * 10 + digit;
        proof {
            let read = text.subrange(0, at - from + 1);
            assert(read.drop_last() =~= text.subrange(0, at - from));
            if longer > limit && is_numeral(text) {
                lemma_numeral_value_prefix(text, at - from + 1);
            }
        }
        if longer > limit as i64 {
            return None;
        }
        value = longer as i32;
        at += 1;
    }
    assert(text.subrange(0, to - from) =~= text);
    Some(value)
}

/// Decides whether `line` answers a menu of `options` entries.
///
/// The answer is `Some(n)` exactly when the line, without the white space
/// around it, writes an integer `n` with `1 <= n <= options`. Every other
/// line gets `None`, and so does every line when `options` is below 1. A
/// number too large for the machine is out of every menu's range, so no line
/// is refused for its length alone.
pub fn parse_choice(line: &str, options: i32) -> (choice: Option<i32>)
    ensures
        choice matches Some(n) ==> 1 <= n <= options,
        match choice {
            Some(n) => choice_of(line@, options as int) == Some(n as int),
            None => choice_of(line@, options as int) is None,
        },
{
    let chars = characters(line);
    let (start, end) = trim_bounds(&chars);
    let ghost text = chars@.subrange(start as int, end as int);
    if start == end {
        return None;
    }
    let first = chars[start];
    if first == '-' {
        proof {
            if is_numeral(text.drop_first()) {
                lemma_numeral_value_nonnegative(text.drop_first());
            }
        }
        return None;
    }
    let from = if first == '+' {
        start + 1
    } else {
        start
    };
    assert(first == '+' ==> text.drop_first() =~= chars@.subrange(from as int, end as int));
    match bounded_numeral(&chars, from, end, options) {
        Some(n) => if n >= 1 {
            Some(n)
        } else {
            None
        },
        None => None,
    }
}

} // verus!
