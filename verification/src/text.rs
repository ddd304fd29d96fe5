//! Lines typed by the operator: trimming, and decimal numbers.

use vstd::prelude::*;

verus! {

/// `s` without its leading and trailing whitespace, as `str::trim` gives it.
pub uninterp spec fn trimmed(s: Seq<char>) -> Seq<char>;

/// `c` is an ASCII blank: a space, or one of U+0009 to U+000D (tab, line
/// feed, vertical tab, form feed, carriage return). Each is whitespace.
pub open spec fn is_blank(c: char) -> bool {
    c == ' ' || ('\t' <= c && c <= '\r')
}

/// `c` is a printable ASCII character other than the space. None is
/// whitespace.
pub open spec fn is_graphic(c: char) -> bool {
    '!' <= c && c <= '~'
}

/// `r` is `s` from position `i` up to position `j`, such that no printable
/// character lies outside that part, and that neither end of the part is a
/// blank.
pub open spec fn cut_at(s: Seq<char>, r: Seq<char>, i: int, j: int) -> bool {
    &&& 0 <= i <= j <= s.len()
    &&& r == s.subrange(i, j)
    &&& forall|k: int| 0 <= k < i || j <= k < s.len() ==> !is_graphic(#[trigger] s[k])
    &&& i < j ==> !is_blank(s[i]) && !is_blank(s[j - 1])
}

/// What is known of a trimmed line `r` and the line `s` it came from: `r` is
/// one contiguous part of `s`, nothing printable was dropped, and `r` neither
/// begins nor ends with a blank.
pub open spec fn trims_to(s: Seq<char>, r: Seq<char>) -> bool {
    exists|i: int, j: int| cut_at(s, r, i, j)
}

/// `c` is one of the ten ASCII digits.
pub open spec fn is_digit(c: char) -> bool {
    '0' <= c && c <= '9'
}

/// `s` is made of ASCII digits, and of at least one.
pub open spec fn is_number(s: Seq<char>) -> bool {
    &&& s.len() > 0
    &&& forall|i: int| 0 <= i < s.len() ==> is_digit(#[trigger] s[i])
}

/// The value of a row of ASCII digits, read in base ten.
pub open spec fn number_value(s: Seq<char>) -> int
    decreases s.len(),
{
    if s.len() == 0 {
        0
    } else {
        10 * number_value(s.drop_last()) + (s.last() as int - '0' as int)
    }
}

/// The integer that `s` writes in base ten: digits, behind at most one sign,
/// which is `+`, or `-` where `signed` allows it. `None` where `s` is
/// anything else.
pub open spec fn decimal(s: Seq<char>, signed: bool) -> Option<int> {
    if s.len() > 0 && s[0] == '+' {
        if is_number(s.drop_first()) {
            Some(number_value(s.drop_first()))
        } else {
            None
        }
    } else if signed && s.len() > 0 && s[0] == '-' {
        if is_number(s.drop_first()) {
            Some(-number_value(s.drop_first()))
        } else {
            None
        }
    } else if is_number(s) {
        Some(number_value(s))
    } else {
        None
    }
}

/// The `i32` that `s` writes in base ten, if it writes one.
pub open spec fn decimal_i32(s: Seq<char>) -> Option<i32> {
    match decimal(s, true) {
        Some(v) => if i32::MIN <= v <= i32::MAX {
            Some(v as i32)
        } else {
            None
        },
        None => None,
    }
}

/// The `usize` that `s` writes in base ten, if it writes one.
pub open spec fn decimal_usize(s: Seq<char>) -> Option<usize> {
    match decimal(s, false) {
        Some(v) => if v <= usize::MAX {
            Some(v as usize)
        } else {
            None
        },
        None => None,
    }
}

/// `str::trim` of std. Assumed: the slice it returns depends on the
/// characters of `s` alone; and, as std documents it, the slice is one
/// contiguous part of `s`, only whitespace is dropped, and neither end of the
/// slice is whitespace. Of whitespace only this much is claimed: the ASCII
/// blanks are whitespace, and the printable ASCII characters are not. What
/// holds of the characters beyond ASCII is left to the name.
pub assume_specification[ str::trim ](s: &str) -> (r: &str)
    ensures
        r@ == trimmed(s@),
        trims_to(s@, r@),
;

/// `str::parse::<i32>` of std, with the error dropped. Assumed, as std
/// documents it: the string parses where it is an optional `+` or `-` and then
/// only ASCII digits, at least one, whose value an `i32` holds; then the
/// result is that value.
#[verifier::external_body]
pub(crate) fn parse_i32(s: &str) -> (r: Option<i32>)
    ensures
        r == decimal_i32(s@),
{
    s.parse::<i32>().ok()
}

/// `str::parse::<usize>` of std, with the error dropped. Assumed, as std
/// documents it: the string parses where it is an optional `+` and then only
/// ASCII digits, at least one, whose value a `usize` holds; then the result
/// is that value.
#[verifier::external_body]
pub(crate) fn parse_usize(s: &str) -> (r: Option<usize>)
    ensures
        r == decimal_usize(s@),
{
    s.parse::<usize>().ok()
}

/// The one character that `s` is made of, or `None` where `s` is empty or
/// longer.
pub fn only_char(s: &str) -> (c: Option<char>)
    ensures
        c == (if s@.len() == 1 {
            Some(s@[0])
        } else {
            None
        }),
{
    broadcast use vstd::string::next_postcondition, vstd::string::axiom_spec_iter;

    let mut rest = s.chars();
    let first = rest.next();
    let second = rest.next();
    match (first, second) {
        (Some(c), None) => Some(c),
        _ => None,
    }
}

/// A line made of blanks, then a part that begins and ends with a printable
/// character, then blanks again, trims to that part.
pub proof fn trim_of_padded(s: Seq<char>, r: Seq<char>, a: int, b: int)
    requires
        trims_to(s, r),
        0 <= a < b <= s.len(),
        is_graphic(s[a]),
        is_graphic(s[b - 1]),
        forall|k: int| 0 <= k < a || b <= k < s.len() ==> is_blank(#[trigger] s[k]),
    ensures
        r == s.subrange(a, b),
{
    let (i, j) = choose|i: int, j: int| cut_at(s, r, i, j);
    assert(cut_at(s, r, i, j));
    assert(i <= a < j) by {
        if a < i || j <= a {
            assert(!is_graphic(s[a]));
        }
    }
    assert(i <= b - 1 < j) by {
        if b - 1 < i || j <= b - 1 {
            assert(!is_graphic(s[b - 1]));
        }
    }
    if i < a {
        assert(is_blank(s[i]));
    }
    if j > b {
        assert(is_blank(s[j - 1]));
    }
}

/// A line made of blanks alone, or an empty one, trims to nothing.
pub proof fn trim_of_blanks(s: Seq<char>, r: Seq<char>)
    requires
        trims_to(s, r),
        forall|k: int| 0 <= k < s.len() ==> is_blank(#[trigger] s[k]),
    ensures
        r.len() == 0,
{
    let (i, j) = choose|i: int, j: int| cut_at(s, r, i, j);
    assert(cut_at(s, r, i, j));
    if i < j {
        assert(is_blank(s[i]));
    }
}

} // verus!
