//! From a finished colour to the text of a plain-text image.
//!
//! The image is written in the portable pixmap text format: a header that
//! names the format, the width and height, and the largest channel value,
//! then one line per pixel with its red, green and blue channels as decimal
//! integers.
use crate::scalar::{lemma_magnitude_order, Scalar, HIDDEN_BIT};
use crate::util::{clamp, clamp_spec};
use crate::vec3::Color;
use vstd::arithmetic::div_mod::*;
use vstd::arithmetic::power2::*;
use vstd::bits::*;
use vstd::prelude::*;
use vstd::string::*;

verus! {

/// The pattern of the brightest value a channel is held to: the double
/// nearest to 999 thousandths.
pub const CHANNEL_MAX_BITS: u64 = 0x3FEF_F7CE_D916_872B;

/// The brightest value a channel is held to.
pub open spec fn channel_max() -> Scalar {
    Scalar { bits: CHANNEL_MAX_BITS }
}

/// The integer of a channel: the scalar is held to the interval from zero
/// to `channel_max()`, multiplied by 256 and rounded down. A scalar's value
/// counts steps of two to the power -1074, so the product is divided by two
/// to the power 1074. A NaN gives 0.
pub open spec fn spec_channel(c: Scalar) -> int {
    let held = clamp_spec(c, Scalar::spec_zero(), channel_max());
    if held.nan() {
        0
    } else {
        (256 * held.value()) / (pow2(1074) as int)
    }
}

/// The character of a decimal digit.
pub open spec fn digit(d: nat) -> char {
    if d == 0 {
        '0'
    } else if d == 1 {
        '1'
    } else if d == 2 {
        '2'
    } else if d == 3 {
        '3'
    } else if d == 4 {
        '4'
    } else if d == 5 {
        '5'
    } else if d == 6 {
        '6'
    } else if d == 7 {
        '7'
    } else if d == 8 {
        '8'
    } else {
        '9'
    }
}

/// The decimal digits of a natural number, most significant first, without
/// leading zeros.
pub open spec fn digits(n: nat) -> Seq<char>
    decreases n,
{
    if n < 10 {
        seq![digit(n)]
    } else {
        digits(n / 10).push(digit(n % 10))
    }
}

/// The decimal text of an integer: a minus sign for a negative one, then
/// the digits of its magnitude.
pub open spec fn decimal(n: int) -> Seq<char> {
    if n < 0 {
        seq!['-'] + digits((-n) as nat)
    } else {
        digits(n as nat)
    }
}

/// The line of a pixel: its three channels in decimal, separated by single
/// spaces.
pub open spec fn pixel_text(color: Color) -> Seq<char> {
    digits(spec_channel(color.x) as nat) + seq![' '] + digits(spec_channel(color.y) as nat)
        + seq![' '] + digits(spec_channel(color.z) as nat)
}

/// The header of an image: the format's name, the width and the height, and
/// 255 as the largest channel value, on three lines.
pub open spec fn header_text(width: int, height: int) -> Seq<char> {
    seq!['P', '3', '\n'] + decimal(width) + seq![' '] + decimal(height) + seq![
        '\n',
        '2',
        '5',
        '5',
    ]
}

/// Scaling a normal magnitude by 256 and rounding down to whole units
/// shifts its significand right by the distance of its exponent from the
/// unit's.
proof fn lemma_floor_of_scaled(mant: int, e: nat)
    requires
        0 <= mant,
        1 <= e <= 1066,
    ensures
        (256 * (mant * (pow2((e - 1) as nat) as int))) / (pow2(1074) as int) == mant / (pow2(
            (1067 - e) as nat,
        ) as int),
{
    let low = pow2((e + 7) as nat) as int;
    let high = pow2((1067 - e) as nat) as int;
    let p = pow2((e - 1) as nat) as int;
    lemma2_to64();
    lemma_pow2_adds(8, (e - 1) as nat);
    lemma_pow2_adds((e + 7) as nat, (1067 - e) as nat);
    lemma_pow2_pos((e + 7) as nat);
    lemma_pow2_pos((1067 - e) as nat);
    assert(256 * (mant * p) == low * mant) by (nonlinear_arith)
        requires
            low == 256 * p,
    ;
    assert(pow2(1074) as int == low * high);
    lemma_div_multiples_vanish_quotient(low, mant, high);
}

/// What `channel` computes from the bits of a held scalar is the channel's
/// integer.
proof fn lemma_channel_of_held(held: Scalar)
    requires
        !held.nan(),
        0 <= held.value() <= channel_max().value(),
    ensures
        held.magnitude_bits() <= CHANNEL_MAX_BITS,
        held.exponent() <= 1022,
        held.exponent() < 1015 ==> (256 * held.value()) / (pow2(1074) as int) == 0,
        held.exponent() >= 1015 ==> (256 * held.value()) / (pow2(1074) as int) == (HIDDEN_BIT
            + held.fraction()) / (pow2((1067 - held.exponent()) as nat) as int),
        0 <= (256 * held.value()) / (pow2(1074) as int) < 256,
{
    let e = held.exponent();
    let f = held.fraction();
    let mant = (HIDDEN_BIT + f) as int;
    lemma_magnitude_order(channel_max(), held);
    assert(held.value() == held.magnitude());
    assert(held.magnitude_bits() <= CHANNEL_MAX_BITS);
    assert(e <= 1022);
    lemma2_to64();
    lemma2_to64_rest();
    if e == 0 {
        lemma_pow2_strictly_increases(60, 1074);
        lemma_basic_div(256 * held.value(), pow2(1074) as int);
    } else {
        lemma_floor_of_scaled(mant, e);
        let s = (1067 - e) as nat;
        lemma_pow2_pos(s);
        assert(mant < pow2(53));
        let d = pow2(s) as int;
        if e < 1015 {
            if s > 53 {
                lemma_pow2_strictly_increases(53, s);
            }
            lemma_basic_div(mant, d);
        } else {
            lemma_pow2_adds(s, (53 - s) as nat);
            if 53 - s < 8 {
                lemma_pow2_strictly_increases((53 - s) as nat, 8);
            }
            let k = pow2((53 - s) as nat) as int;
            assert(0 <= mant / d < k) by (nonlinear_arith)
                requires
                    0 <= mant < d * k,
                    d > 0,
            ;
        }
    }
}

/// The integer of a channel, from 0 to 255.
pub fn channel(c: Scalar) -> (n: u8)
    ensures
        n == spec_channel(c),
{
    let held = clamp(c, Scalar::zero(), Scalar::from_bits(CHANNEL_MAX_BITS));
    if held.is_nan() {
        return 0;
    }
    let m: u64 = held.abs().to_bits();
    let e: u64 = m / HIDDEN_BIT;
    let f: u64 = m % HIDDEN_BIT;
    proof {
        lemma_channel_of_held(held);
    }
    if e < 1015 {
        0
    } else {
        let shift: u64 = 1067 - e;
        proof {
            lemma_u64_shr_is_div((HIDDEN_BIT + f) as u64, shift);
        }
        let q: u64 = (HIDDEN_BIT + f) >> shift;
        q as u8
    }
}

/// The text of one decimal digit.
fn digit_str(d: u32) -> (s: &'static str)
    requires
        d < 10,
    ensures
        s@ == seq![digit(d as nat)],
{
    proof {
        reveal_strlit("0");
        reveal_strlit("1");
        reveal_strlit("2");
        reveal_strlit("3");
        reveal_strlit("4");
        reveal_strlit("5");
        reveal_strlit("6");
        reveal_strlit("7");
        reveal_strlit("8");
        reveal_strlit("9");
    }
    let s = if d == 0 {
        "0"
    } else if d == 1 {
        "1"
    } else if d == 2 {
        "2"
    } else if d == 3 {
        "3"
    } else if d == 4 {
        "4"
    } else if d == 5 {
        "5"
    } else if d == 6 {
        "6"
    } else if d == 7 {
        "7"
    } else if d == 8 {
        "8"
    } else {
        "9"
    };
    assert(s@ =~= seq![digit(d as nat)]);
    s
}

/// Appends the decimal digits of `n`.
fn append_digits(s: &mut String, n: u32)
    ensures
        final(s)@ == old(s)@ + digits(n as nat),
    decreases n,
{
    if n >= 10 {
        append_digits(s, n / 10);
    }
    s.append(digit_str(n % 10));
    assert(s@ =~= old(s)@ + digits(n as nat));
}

/// Appends the decimal text of `n`.
fn append_decimal(s: &mut String, n: i32)
    ensures
        final(s)@ == old(s)@ + decimal(n as int),
{
    if n < 0 {
        proof {
            reveal_strlit("-");
        }
        s.append("-");
        let m: i64 = -(n as i64);
        append_digits(s, m as u32);
        assert(s@ =~= old(s)@ + decimal(n as int));
    } else {
        append_digits(s, n as u32);
    }
}

/// The line of a pixel, without a line end. `pixel_color` is the pixel's
/// colour after averaging and gamma correction.
pub fn write_color(pixel_color: &Color) -> (line: String)
    ensures
        line@ == pixel_text(*pixel_color),
{
    proof {
        reveal_strlit(" ");
    }
    let mut line = String::new();
    append_digits(&mut line, channel(pixel_color.x) as u32);
    line.append(" ");
    append_digits(&mut line, channel(pixel_color.y) as u32);
    line.append(" ");
    append_digits(&mut line, channel(pixel_color.z) as u32);
    assert(line@ =~= pixel_text(*pixel_color));
    line
}

/// The header of an image of the given width and height, without the line
/// end after its last line.
pub fn header(width: i32, height: i32) -> (text: String)
    ensures
        text@ == header_text(width as int, height as int),
{
    proof {
        reveal_strlit("P3\n");
        reveal_strlit(" ");
        reveal_strlit("\n255");
    }
    let mut text = String::new();
    text.append("P3\n");
    append_decimal(&mut text, width);
    text.append(" ");
    append_decimal(&mut text, height);
    text.append("\n255");
    assert(text@ =~= header_text(width as int, height as int));
    text
}

} // verus!
