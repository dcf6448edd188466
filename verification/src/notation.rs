//! Fixed-width scientific notation with a zero-padded exponent.
//!
//! The mantissa-and-exponent text of a number, such as `2.9334e6` or
//! `1.1715e-2`, is given an explicit exponent sign, an exponent of at least
//! so many digits, and is set flush right in a field: `2.9334e+006`.

use vstd::prelude::*;
use vstd::string::{StrSliceExecFns, StringExecFns};

verus! {

/// `text` with `fill` put in front until it is `width` characters long.
/// Text that is as long or longer stays as it is.
pub open spec fn padded_left(text: Seq<char>, fill: char, width: nat) -> Seq<char> {
    if text.len() >= width {
        text
    } else {
        Seq::new((width - text.len()) as nat, |i: int| fill) + text
    }
}

/// The first `e` of `text` stands at `k`.
pub open spec fn exponent_mark(text: Seq<char>, k: int) -> bool {
    &&& 0 <= k < text.len()
    &&& text[k] == 'e'
    &&& forall|j: int| 0 <= j < k ==> text[j] != 'e'
}

/// The exponent of `text` is written with a minus sign: one follows the `e`
/// at `k` directly.
pub open spec fn exponent_is_negative(text: Seq<char>, k: int) -> bool {
    k + 1 < text.len() && text[k + 1] == '-'
}

/// The digits of the exponent: what follows the `e` at `k` and the minus
/// sign, if there is one.
pub open spec fn exponent_digits(text: Seq<char>, k: int) -> Seq<char> {
    if exponent_is_negative(text, k) {
        text.subrange(k + 2, text.len() as int)
    } else {
        text.subrange(k + 1, text.len() as int)
    }
}

/// `text`, whose exponent mark stands at `k`, in the fixed notation: the
/// mantissa, `e`, the sign of the exponent, `+` where none was written, the
/// exponent digits padded with zeros to `exp_pad` characters; all of it
/// padded with spaces in front to `width` characters.
pub open spec fn fixed_notation(text: Seq<char>, k: int, width: nat, exp_pad: nat) -> Seq<char> {
    let sign = if exponent_is_negative(text, k) {
        '-'
    } else {
        '+'
    };
    padded_left(
        text.subrange(0, k) + seq!['e', sign] + padded_left(
            exponent_digits(text, k),
            '0',
            exp_pad,
        ),
        ' ',
        width,
    )
}

/// `text` with `count` copies of a one-character `fill` put in front.
fn filled(fill: &str, count: usize, text: &str) -> (out: String)
    requires
        fill@.len() == 1,
    ensures
        out@ == Seq::new(count as nat, |i: int| fill@[0]) + text@,
{
    let mut out = String::new();
    let mut done: usize = 0;
    while done < count
        invariant
            done <= count,
            fill@.len() == 1,
            out@ == Seq::new(done as nat, |i: int| fill@[0]),
        decreases count - done,
    {
        out.append(fill);
        done += 1;
        assert(out@ =~= Seq::new(done as nat, |i: int| fill@[0]));
    }
    out.append(text);
    out
}

/// `text` padded in front with a one-character `fill` to `width` characters.
fn pad_left(text: &str, fill: &str, width: usize) -> (out: String)
    requires
        fill@.len() == 1,
    ensures
        out@ == padded_left(text@, fill@[0], width as nat),
{
    let len = text.unicode_len();
    if len >= width {
        let out = String::from_str(text);
        out
    } else {
        filled(fill, width - len, text)
    }
}

/// Sets mantissa-and-exponent text in the fixed notation: an explicit sign
/// and at least `exp_pad` digits for the exponent, and at least `width`
/// characters in all, flush right. Text without an `e`, such as `NaN` or
/// `inf`, has no exponent to pad and yields `None`.
pub fn pad_exponent(text: &str, width: usize, exp_pad: usize) -> (out: Option<String>)
    ensures
        out is None <==> forall|j: int| 0 <= j < text@.len() ==> text@[j] != 'e',
        out matches Some(s) ==> forall|k: int|
            exponent_mark(text@, k) ==> s@ == fixed_notation(
                text@,
                k,
                width as nat,
                exp_pad as nat,
            ),
{
    let len = text.unicode_len();
    let mut k: usize = 0;
    while k < len && text.get_char(k) != 'e'
        invariant
            k <= len,
            len == text@.len(),
            forall|j: int| 0 <= j < k ==> text@[j] != 'e',
        decreases len - k,
    {
        k += 1;
    }
    if k == len {
        return None;
    }
    assert(exponent_mark(text@, k as int));
    let negative = k + 1 < len && text.get_char(k + 1) == '-';
    let digits = if negative {
        text.substring_char(k + 2, len)
    } else {
        text.substring_char(k + 1, len)
    };
    proof {
        reveal_strlit("0");
        reveal_strlit("e");
        reveal_strlit("-");
        reveal_strlit("+");
        reveal_strlit(" ");
    }
    let exponent = pad_left(digits, "0", exp_pad);
    let mut body = String::from_str(text.substring_char(0, k));
    body.append("e");
    if negative {
        body.append("-");
    } else {
        body.append("+");
    }
    body.append(exponent.as_str());
    let out = pad_left(body.as_str(), " ", width);
    proof {
        let sign = if negative {
            '-'
        } else {
            '+'
        };
        assert(body@ =~= text@.subrange(0, k as int) + seq!['e', sign] + exponent@);
        assert forall|m: int| exponent_mark(text@, m) implies m == k by {
            if m < k {
                assert(text@[m] != 'e');
            }
        }
    }
    Some(out)
}

} // verus!
