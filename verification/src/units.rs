//! Human-readable rendering of durations and sizes.

use vstd::prelude::*;
use vstd::string::*;
use crate::text::{decimal, digit_char, push_decimal, str_eq};

verus! {

/// One component of a duration: the numeral and its unit letter, or nothing
/// when the component is zero.
pub open spec fn duration_part(value: nat, unit: char) -> Seq<char> {
    if value > 0 {
        decimal(value).push(unit)
    } else {
        Seq::empty()
    }
}

/// The compact rendering of a duration of `seconds` seconds: the non-zero
/// components among days, hours, minutes and seconds, largest first; `0s`
/// when all of them are zero.
pub open spec fn duration_text(seconds: nat) -> Seq<char> {
    let parts = duration_part(seconds / 86400, 'd') + duration_part(seconds % 86400 / 3600, 'h')
        + duration_part(seconds % 3600 / 60, 'm') + duration_part(seconds % 60, 's');
    if parts.len() == 0 {
        seq!['0', 's']
    } else {
        parts
    }
}

/// The rendering of a duration is never empty.
pub proof fn lemma_duration_text_not_empty(seconds: nat)
    ensures
        duration_text(seconds).len() > 0,
{
}

/// Appends one duration component to `out`; `unit` is the unit letter.
fn push_duration_part(out: &mut String, value: u64, unit: &str)
    requires
        unit@.len() == 1,
    ensures
        final(out)@ == old(out)@ + duration_part(value as nat, unit@[0]),
{
    if value > 0 {
        push_decimal(out, value);
        out.append(unit);
    }
}

/// Renders a duration given in whole seconds.
pub fn time_trans(seconds: u64) -> (text: String)
    ensures
        text@ == duration_text(seconds as nat),
{
    let days = seconds / 86400;
    let hours = seconds % 86400 / 3600;
    let minutes = seconds % 3600 / 60;
    let secs = seconds % 60;
    let mut text = String::new();
    proof {
        reveal_strlit("d");
        reveal_strlit("h");
        reveal_strlit("m");
        reveal_strlit("s");
    }
    push_duration_part(&mut text, days, "d");
    push_duration_part(&mut text, hours, "h");
    push_duration_part(&mut text, minutes, "m");
    push_duration_part(&mut text, secs, "s");
    if text.as_str().is_empty() {
        proof {
            reveal_strlit("0s");
        }
        text.append("0s");
    }
    text
}

/// The unit in which a size is shown.
#[derive(Clone, Copy, Debug, PartialEq, Eq, Structural)]
pub enum SizeUnit {
    /// The raw number of bytes.
    Bytes,
    /// Units of 1024 bytes.
    Kilo,
    /// Units of 1024 * 1024 bytes.
    Mega,
    /// Units of 1024 * 1024 * 1024 bytes.
    Giga,
}

/// The unit that a format word selects: `k`, `m` and `g`, in either case,
/// select the scaled units; every other word selects bytes.
pub open spec fn unit_of(fmt: Seq<char>) -> SizeUnit {
    if fmt == "g"@ || fmt == "G"@ {
        SizeUnit::Giga
    } else if fmt == "m"@ || fmt == "M"@ {
        SizeUnit::Mega
    } else if fmt == "k"@ || fmt == "K"@ {
        SizeUnit::Kilo
    } else {
        SizeUnit::Bytes
    }
}

/// `num / den` rounded to the nearest integer; a value exactly halfway
/// between two integers goes to the even one.
pub open spec fn round_half_even(num: nat, den: nat) -> nat {
    let q = num / den;
    let r = num % den;
    if 2 * r > den || (2 * r == den && q % 2 == 1) {
        q + 1
    } else {
        q
    }
}

/// A size in units of `divisor` bytes: the quotient rounded to the nearest
/// hundredth and written with exactly two decimal places, followed by the
/// letter of the unit.
pub open spec fn scaled_text(size: nat, divisor: nat, suffix: char) -> Seq<char> {
    let h = round_half_even(size * 100, divisor);
    decimal(h / 100) + seq![
        '.',
        digit_char((h % 100 / 10) as int),
        digit_char((h % 10) as int),
        suffix,
    ]
}

/// The rendering of a size: the plain numeral for bytes; for the other
/// units the size divided by 1024, by 1024 * 1024 or by 1024 * 1024 * 1024,
/// with two decimal places and the letter `K`, `M` or `G`.
pub open spec fn size_text(size: nat, unit: SizeUnit) -> Seq<char> {
    match unit {
        SizeUnit::Bytes => decimal(size),
        SizeUnit::Kilo => scaled_text(size, 1024, 'K'),
        SizeUnit::Mega => scaled_text(size, 1024 * 1024, 'M'),
        SizeUnit::Giga => scaled_text(size, 1024 * 1024 * 1024, 'G'),
    }
}

impl SizeUnit {
    /// Reads the unit from a format word.
    pub fn parse(fmt: &str) -> (unit: SizeUnit)
        ensures
            unit == unit_of(fmt@),
    {
        if str_eq(fmt, "g") || str_eq(fmt, "G") {
            SizeUnit::Giga
        } else if str_eq(fmt, "m") || str_eq(fmt, "M") {
            SizeUnit::Mega
        } else if str_eq(fmt, "k") || str_eq(fmt, "K") {
            SizeUnit::Kilo
        } else {
            SizeUnit::Bytes
        }
    }
}

/// Appends `size` in units of `divisor` bytes to `out`; `suffix` is the
/// letter of the unit.
fn push_scaled(out: &mut String, size: u64, divisor: u64, suffix: &str)
    requires
        divisor >= 1024,
        suffix@.len() == 1,
    ensures
        final(out)@ == old(out)@ + scaled_text(size as nat, divisor as nat, suffix@[0]),
{
    let den: u128 = divisor as u128;
    let num: u128 = size as u128 * 100;
    let q: u128 = num / den;
    let r: u128 = num % den;
    assert(q < 0x2000_0000_0000_0000) by (nonlinear_arith)
        requires
            q == num / den,
            den >= 1024,
            num < 0x64_0000_0000_0000_0000,
    ;
    let up: bool = 2 * r > den || (2 * r == den && q % 2 == 1);
    let h: u64 = if up {
        (q + 1) as u64
    } else {
        q as u64
    };
    proof {
        reveal_strlit(".");
    }
    push_decimal(out, h / 100);
    out.append(".");
    push_decimal(out, h % 100 / 10);
    push_decimal(out, h % 10);
    out.append(suffix);
}

/// Appends the rendering of `size` in `unit` to `out`.
pub fn push_size(out: &mut String, size: u64, unit: SizeUnit)
    ensures
        final(out)@ == old(out)@ + size_text(size as nat, unit),
{
    proof {
        reveal_strlit("K");
        reveal_strlit("M");
        reveal_strlit("G");
    }
    match unit {
        SizeUnit::Bytes => push_decimal(out, size),
        SizeUnit::Kilo => push_scaled(out, size, 1024, "K"),
        SizeUnit::Mega => push_scaled(out, size, 1024 * 1024, "M"),
        SizeUnit::Giga => push_scaled(out, size, 1024 * 1024 * 1024, "G"),
    }
}

/// Renders a size given in bytes in the unit that `fmt` selects.
pub fn size_trans(size: u64, fmt: &str) -> (text: String)
    ensures
        text@ == size_text(size as nat, unit_of(fmt@)),
{
    let mut text = String::new();
    push_size(&mut text, size, SizeUnit::parse(fmt));
    text
}

} // verus!
