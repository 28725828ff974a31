//! Building the texts that the application shows and logs: decimal numbers,
//! padding to a width, sizes and durations for a human reader.

use vstd::prelude::*;

verus! {

/// The character of a decimal digit.
pub open spec fn digit(d: nat) -> char
    recommends
        d < 10,
{
    (0x30 + d) as char
}

/// The decimal digits of `n`, most significant first, without leading zeros.
pub open spec fn decimal(n: nat) -> Seq<char>
    decreases n,
{
    if n < 10 {
        seq![digit(n)]
    } else {
        decimal(n / 10).push(digit(n % 10))
    }
}

/// `count` copies of `fill`.
pub open spec fn repeated(fill: char, count: nat) -> Seq<char> {
    Seq::new(count, |i: int| fill)
}

/// `text`, with `fill` in front of it until it is `width` characters long.
pub open spec fn padded_left(text: Seq<char>, width: nat, fill: char) -> Seq<char> {
    if text.len() >= width {
        text
    } else {
        repeated(fill, (width - text.len()) as nat) + text
    }
}

/// `text`, with `fill` behind it until it is `width` characters long.
pub open spec fn padded_right(text: Seq<char>, width: nat, fill: char) -> Seq<char> {
    if text.len() >= width {
        text
    } else {
        text + repeated(fill, (width - text.len()) as nat)
    }
}

/// The text of one decimal digit.
fn digit_text(d: u64) -> (text: &'static str)
    requires
        d < 10,
    ensures
        text@ == seq![digit(d as nat)],
{
    proof {
        reveal_strlit("0");
        reveal_strlit("1");
        reveal_strlit("2");
        reveal_strlit("3");
        reveal_strlit("4");
        reveal_strlit("5");
        reveal_strlit("6");
        reveal_strlit("7");
        reveal_strlit("8");
        reveal_strlit("9");
    }
    let text = if d == 0 {
        "0"
    } else if d == 1 {
        "1"
    } else if d == 2 {
        "2"
    } else if d == 3 {
        "3"
    } else if d == 4 {
        "4"
    } else if d == 5 {
        "5"
    } else if d == 6 {
        "6"
    } else if d == 7 {
        "7"
    } else if d == 8 {
        "8"
    } else {
        "9"
    };
    text
}

/// `n` in decimal.
pub fn decimal_string(n: u64) -> (text: String)
    ensures
        text@ == decimal(n as nat),
    decreases n,
{
    if n < 10 {
        String::from_str(digit_text(n))
    } else {
        let mut text = decimal_string(n / 10);
        text.append(digit_text(n % 10));
        text
    }
}

/// `count` spaces when `zero` is false, `count` zeros when it is true.
fn filler(count: usize, zero: bool) -> (text: String)
    ensures
        text@ == repeated(if zero { '0' } else { ' ' }, count as nat),
{
    proof {
        reveal_strlit("0");
        reveal_strlit(" ");
    }
    let mut text = String::new();
    let mut done: usize = 0;
    while done < count
        invariant
            done <= count,
            text@ == repeated(if zero { '0' } else { ' ' }, done as nat),
            "0"@ == seq!['0'],
            " "@ == seq![' '],
        decreases count - done,
    {
        if zero {
            text.append("0");
        } else {
            text.append(" ");
        }
        done += 1;
    }
    text
}

/// `n` in decimal with zeros in front up to `width` digits.
pub fn zero_padded(n: u64, width: usize) -> (text: String)
    ensures
        text@ == padded_left(decimal(n as nat), width as nat, '0'),
{
    let digits = decimal_string(n);
    let length: usize = digits.as_str().unicode_len();
    if length >= width {
        digits
    } else {
        let mut text = filler(width - length, true);
        text.append(digits.as_str());
        text
    }
}

/// `text` moved to the right edge of a field of `width` characters.
pub fn align_right(text: &str, width: usize) -> (aligned: String)
    ensures
        aligned@ == padded_left(text@, width as nat, ' '),
{
    let length: usize = text.unicode_len();
    if length >= width {
        String::from_str(text)
    } else {
        let mut aligned = filler(width - length, false);
        aligned.append(text);
        aligned
    }
}

/// `text` at the left edge of a field of `width` characters.
pub fn align_left(text: &str, width: usize) -> (aligned: String)
    ensures
        aligned@ == padded_right(text@, width as nat, ' '),
{
    let length: usize = text.unicode_len();
    let mut aligned = String::from_str(text);
    if length < width {
        let fill = filler(width - length, false);
        aligned.append(fill.as_str());
    }
    aligned
}

/// Bytes in a kilobyte, a megabyte, a gigabyte and a terabyte.
pub const KB: u64 = 1024;

pub const MB: u64 = 1024 * 1024;

pub const GB: u64 = 1024 * 1024 * 1024;

pub const TB: u64 = 1024 * 1024 * 1024 * 1024;

/// The integer nearest to `numerator / denominator`; of two that are equally
/// near, the even one.
pub open spec fn half_even(numerator: nat, denominator: nat) -> nat
    recommends
        denominator > 0,
{
    let quotient = numerator / denominator;
    let rest = numerator % denominator;
    if 2 * rest > denominator || (2 * rest == denominator && quotient % 2 == 1) {
        quotient + 1
    } else {
        quotient
    }
}

/// The distance between neighbouring double-precision numbers around `n`:
/// 1 below 2^53, and twice as much with each further bit.
pub open spec fn double_spacing(n: nat) -> nat
    decreases n,
{
    if n < 0x20_0000_0000_0000 {
        1
    } else {
        2 * double_spacing(n / 2)
    }
}

/// The double-precision number nearest to `n`.
pub open spec fn nearest_double(n: nat) -> nat {
    half_even(n, double_spacing(n)) * double_spacing(n)
}

/// `n / unit` in hundredths: the nearest double of `n`, divided by `unit` and
/// rounded to two decimals, half to even.
pub open spec fn hundredths(n: nat, unit: nat) -> nat
    recommends
        unit > 0,
{
    half_even(nearest_double(n) * 100, unit)
}

/// `n / unit` with two decimals.
pub open spec fn scaled(n: nat, unit: nat) -> Seq<char>
    recommends
        unit > 0,
{
    decimal(hundredths(n, unit) / 100) + "."@ + padded_left(
        decimal(hundredths(n, unit) % 100),
        2,
        '0',
    )
}

/// A size in bytes for a human reader: in the largest unit that it reaches,
/// with two decimals; below a kilobyte, the bytes themselves.
pub open spec fn size_text(n: nat) -> Seq<char> {
    if n >= TB {
        scaled(n, TB as nat) + " TB"@
    } else if n >= GB {
        scaled(n, GB as nat) + " GB"@
    } else if n >= MB {
        scaled(n, MB as nat) + " MB"@
    } else if n >= KB {
        scaled(n, KB as nat) + " KB"@
    } else {
        decimal(n) + " bytes"@
    }
}

/// A duration for a human reader: hours, minutes, seconds and milliseconds.
pub open spec fn duration_text(seconds: nat, milliseconds: nat) -> Seq<char> {
    padded_left(decimal(seconds / 3600), 2, '0') + "h"@ + padded_left(
        decimal((seconds % 3600) / 60),
        2,
        '0',
    ) + "m:"@ + padded_left(decimal(seconds % 60), 2, '0') + "s::"@ + padded_left(
        decimal(milliseconds),
        3,
        '0',
    )
}

/// The integer nearest to `numerator / denominator`, ties to even.
fn divide_half_even(numerator: u128, denominator: u128) -> (quotient: u128)
    requires
        0 < denominator <= 0xffff_ffff_ffff_ffff,
        numerator <= 0xffff_ffff_ffff_ffff_ffff_ffff,
    ensures
        quotient == half_even(numerator as nat, denominator as nat),
        quotient <= numerator / denominator + 1,
{
    let quotient: u128 = numerator / denominator;
    let rest: u128 = numerator % denominator;
    if 2 * rest > denominator || (2 * rest == denominator && quotient % 2 == 1) {
        quotient + 1
    } else {
        quotient
    }
}

/// The distance between neighbouring doubles around `n`.
fn spacing(n: u64) -> (distance: u64)
    ensures
        distance == double_spacing(n as nat),
        distance == 1 || distance * 0x10_0000_0000_0000 <= n,
        distance >= 1,
    decreases n,
{
    if n < 0x20_0000_0000_0000 {
        1
    } else {
        let below: u64 = spacing(n / 2);
        2 * below
    }
}

/// `n / unit` with two decimals.
fn scaled_string(n: u64, unit: u64) -> (text: String)
    requires
        KB <= unit <= n,
    ensures
        text@ == scaled(n as nat, unit as nat),
{
    let distance: u64 = spacing(n);
    let steps: u128 = divide_half_even(n as u128, distance as u128);
    assert(steps * distance <= 0x1_0000_0000_0000_1000) by (nonlinear_arith)
        requires
            steps <= n / distance + 1,
            1 <= distance <= 0xfff,
            n <= 0xffff_ffff_ffff_ffff,
    {
    }
    let double: u128 = steps * (distance as u128);
    let parts: u128 = divide_half_even(double * 100, unit as u128);
    assert(parts <= 0xffff_ffff_ffff_ffff) by {
        vstd::arithmetic::div_mod::lemma_div_is_ordered_by_denominator(
            double * 100,
            1024,
            unit as int,
        );
    }
    let whole: u64 = (parts / 100) as u64;
    let fraction: u64 = (parts % 100) as u64;
    let mut text = decimal_string(whole);
    text.append(".");
    let decimals = zero_padded(fraction, 2);
    text.append(decimals.as_str());
    text
}

/// Texts for a human reader.
pub trait HumanReadable {
    /// What `human_readable` returns.
    spec fn readable(&self) -> Seq<char>;

    fn human_readable(&self) -> (text: String)
        ensures
            text@ == self.readable(),
    ;
}

impl HumanReadable for u64 {
    open spec fn readable(&self) -> Seq<char> {
        size_text(*self as nat)
    }

    /// A number of bytes as a size.
    fn human_readable(&self) -> (text: String) {
        let n: u64 = *self;
        if n >= TB {
            let mut text = scaled_string(n, TB);
            text.append(" TB");
            text
        } else if n >= GB {
            let mut text = scaled_string(n, GB);
            text.append(" GB");
            text
        } else if n >= MB {
            let mut text = scaled_string(n, MB);
            text.append(" MB");
            text
        } else if n >= KB {
            let mut text = scaled_string(n, KB);
            text.append(" KB");
            text
        } else {
            let mut text = decimal_string(n);
            text.append(" bytes");
            text
        }
    }
}

/// A span of time: whole seconds and the milliseconds beyond them.
#[derive(Clone, Copy, Debug, PartialEq, Eq, Structural)]
pub struct Elapsed {
    pub seconds: u64,
    pub milliseconds: u32,
}

impl HumanReadable for Elapsed {
    open spec fn readable(&self) -> Seq<char> {
        duration_text(self.seconds as nat, self.milliseconds as nat)
    }

    fn human_readable(&self) -> (text: String) {
        let hours: u64 = self.seconds / 3600;
        let minutes: u64 = (self.seconds % 3600) / 60;
        let seconds: u64 = self.seconds % 60;
        let mut text = zero_padded(hours, 2);
        text.append("h");
        let part = zero_padded(minutes, 2);
        text.append(part.as_str());
        text.append("m:");
        let part = zero_padded(seconds, 2);
        text.append(part.as_str());
        text.append("s::");
        let part = zero_padded(self.milliseconds as u64, 3);
        text.append(part.as_str());
        text
    }
}

} // verus!
