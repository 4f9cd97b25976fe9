//! Numbers as text: decimal digits and zero padding.

use vstd::prelude::*;
use vstd::string::StringExecFns;

verus! {

/// The character of the decimal digit `d`.
pub open spec fn digit_char(d: nat) -> char {
    if d == 0 {
        '0'
    } else if d == 1 {
        '1'
    } else if d == 2 {
        '2'
    } else if d == 3 {
        '3'
    } else if d == 4 {
        '4'
    } else if d == 5 {
        '5'
    } else if d == 6 {
        '6'
    } else if d == 7 {
        '7'
    } else if d == 8 {
        '8'
    } else {
        '9'
    }
}

/// The decimal digits of `n`, without leading zeros; `0` for zero.
pub open spec fn decimal(n: nat) -> Seq<char>
    decreases n,
{
    if n < 10 {
        seq![digit_char(n)]
    } else {
        decimal(n / 10).push(digit_char(n % 10))
    }
}

/// The character `fill`, `k` times.
pub open spec fn filled(fill: char, k: nat) -> Seq<char> {
    Seq::new(k, |i: int| fill)
}

/// The decimal digits of `n`, with `fill` in front of them to make up
/// `width` characters where the digits are fewer.
pub open spec fn padded(n: nat, width: nat, fill: char) -> Seq<char> {
    if decimal(n).len() >= width {
        decimal(n)
    } else {
        filled(fill, (width - decimal(n).len()) as nat) + decimal(n)
    }
}

/// Ten to the power of `w`.
pub open spec fn pow10(w: nat) -> nat
    decreases w,
{
    if w == 0 {
        1
    } else {
        10 * pow10((w - 1) as nat)
    }
}

/// The least `w` for which ten to the power of `w` is at least `count`: the
/// logarithm of `count` to base ten, rounded up; zero for zero.
pub open spec fn width_for(count: nat) -> nat
    decreases count,
{
    if count <= 1 {
        0
    } else {
        1 + width_for((count + 9) / 10)
    }
}

/// The text of the decimal digit `d`.
fn digit_text(d: u64) -> (text: &'static str)
    requires
        d < 10,
    ensures
        text@ == seq![digit_char(d as nat)],
{
    proof {
        reveal_strlit("0");
        reveal_strlit("1");
        reveal_strlit("2");
        reveal_strlit("3");
        reveal_strlit("4");
        reveal_strlit("5");
        reveal_strlit("6");
        reveal_strlit("7");
        reveal_strlit("8");
        reveal_strlit("9");
    }
    let text = if d == 0 {
        "0"
    } else if d == 1 {
        "1"
    } else if d == 2 {
        "2"
    } else if d == 3 {
        "3"
    } else if d == 4 {
        "4"
    } else if d == 5 {
        "5"
    } else if d == 6 {
        "6"
    } else if d == 7 {
        "7"
    } else if d == 8 {
        "8"
    } else {
        "9"
    };
    text
}

/// The decimal digits of `n`.
pub fn decimal_text(n: u64) -> (text: String)
    ensures
        text@ == decimal(n as nat),
    decreases n,
{
    if n < 10 {
        String::from_str(digit_text(n))
    } else {
        let mut text = decimal_text(n / 10);
        text.append(digit_text(n % 10));
        text
    }
}

/// The decimal digits of `n`, padded in front to `width` characters with
/// the one character of `fill`.
pub fn padded_text(n: u64, width: usize, fill: &str) -> (text: String)
    requires
        fill@.len() == 1,
    ensures
        text@ == padded(n as nat, width as nat, fill@[0]),
{
    let digits = decimal_text(n);
    let length = digits.as_str().unicode_len();
    let mut text = String::new();
    if length < width {
        let missing = width - length;
        let mut k: usize = 0;
        while k < missing
            invariant
                k <= missing,
                fill@.len() == 1,
                text@ == filled(fill@[0], k as nat),
            decreases missing - k,
        {
            text.append(fill);
            k += 1;
        }
    }
    text.append(digits.as_str());
    text
}

/// The width to which the numbers of `count` traces are padded.
pub fn label_width(count: usize) -> (width: usize)
    ensures
        width == width_for(count as nat),
{
    let mut rest = count;
    let mut width: usize = 0;
    while rest > 1
        invariant
            width + width_for(rest as nat) == width_for(count as nat),
            width <= count - rest,
        decreases rest,
    {
        let next = (rest - 1) / 10 + 1;
        width += 1;
        rest = next;
    }
    width
}

} // verus!
