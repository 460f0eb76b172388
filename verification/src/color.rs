//! Hex color strings decoded to integer RGBA.
//!
//! The host supplies colors as `"#RRGGBB"`-style strings: an optional
//! leading `#`, then six hex digits, or eight when an alpha channel is
//! given. Decoding yields one byte per channel; a six digit string gets a
//! fully opaque alpha. A malformed string is a host contract violation.

use vstd::prelude::*;

verus! {

/// An RGBA color, one byte per channel.
#[derive(Clone, Copy, Debug, PartialEq, Eq, Structural)]
pub struct RgbaColor {
    pub red: u8,
    pub green: u8,
    pub blue: u8,
    pub alpha: u8,
}

/// Why a color string is malformed: the wrong number of digits, or a
/// character that is no hex digit.
#[derive(Clone, Copy, Debug, PartialEq, Eq, Structural)]
pub enum ColorError {
    BadLength,
    BadDigit,
}

/// Whether `b` is an ASCII hex digit.
pub open spec fn is_hex_digit(b: u8) -> bool {
    (48u8 <= b && b <= 57u8) || (97u8 <= b && b <= 102u8) || (65u8 <= b && b <= 70u8)
}

/// The value of an ASCII hex digit.
pub open spec fn hex_val(b: u8) -> int
    recommends
        is_hex_digit(b),
{
    if 48u8 <= b && b <= 57u8 {
        b - 48u8
    } else if 97u8 <= b && b <= 102u8 {
        b - 97u8 + 10
    } else {
        b - 65u8 + 10
    }
}

/// The digits of a color string: the string itself, with a single leading
/// `#` stripped when present.
pub open spec fn color_body(s: Seq<u8>) -> Seq<u8> {
    if s.len() > 0 && s[0] == 35u8 {
        s.skip(1)
    } else {
        s
    }
}

/// A well formed color string: six or eight hex digits after the optional
/// leading `#`.
pub open spec fn valid_hex_color(s: Seq<u8>) -> bool {
    let b = color_body(s);
    (b.len() == 6 || b.len() == 8) && (forall|i: int|
        0 <= i < b.len() ==> is_hex_digit(#[trigger] b[i]))
}

/// The byte encoded by the hex digit pair at positions `2i`, `2i + 1`.
pub open spec fn hex_pair(b: Seq<u8>, i: int) -> int
    recommends
        0 <= i && 2 * i + 1 < b.len(),
{
    16 * hex_val(b[2 * i]) + hex_val(b[2 * i + 1])
}

/// The color a well formed color string encodes; alpha is 255 unless an
/// eight digit string spells it out.
pub open spec fn decoded_hex_color(s: Seq<u8>) -> RgbaColor
    recommends
        valid_hex_color(s),
{
    let b = color_body(s);
    RgbaColor {
        red: hex_pair(b, 0) as u8,
        green: hex_pair(b, 1) as u8,
        blue: hex_pair(b, 2) as u8,
        alpha: if b.len() == 8 {
            hex_pair(b, 3) as u8
        } else {
            255
        },
    }
}

/// The exact condition under which decoding fails with `e`.
pub open spec fn color_err_cond(s: Seq<u8>, e: ColorError) -> bool {
    match e {
        ColorError::BadLength => !(color_body(s).len() == 6 || color_body(s).len() == 8),
        ColorError::BadDigit => (color_body(s).len() == 6 || color_body(s).len() == 8)
            && !valid_hex_color(s),
    }
}

/// The value of one hex digit byte.
fn hex_digit_value(b: u8) -> (v: u8)
    requires
        is_hex_digit(b),
    ensures
        v == hex_val(b),
        v < 16,
{
    if 48u8 <= b && b <= 57u8 {
        b - 48u8
    } else if 97u8 <= b && b <= 102u8 {
        b - 97u8 + 10
    } else {
        b - 65u8 + 10
    }
}

/// Decodes a `"#RRGGBB"`-style color string (given as its bytes) into an
/// RGBA color: rejects anything but six or eight hex digits after an
/// optional leading `#`, and otherwise returns exactly the encoded channel
/// bytes, with a fully opaque alpha when none is spelled out.
pub fn decode_hex_color(s: &Vec<u8>) -> (r: Result<RgbaColor, ColorError>)
    ensures
        match r {
            Ok(c) => valid_hex_color(s@) && c == decoded_hex_color(s@),
            Err(e) => color_err_cond(s@, e),
        },
{
    let start: usize = if s.len() > 0 && s[0] == 35u8 {
        1
    } else {
        0
    };
    let ghost body = color_body(s@);
    assert(body.len() == s@.len() - start);
    assert(forall|k: int| 0 <= k < body.len() ==> #[trigger] body[k] == s@[start + k]);
    let len: usize = s.len() - start;
    if len != 6 && len != 8 {
        return Err(ColorError::BadLength);
    }
    let mut i: usize = 0;
    while i < len
        invariant
            start + len == s.len(),
            len == body.len(),
            len == 6 || len == 8,
            i <= len,
            body == color_body(s@),
            forall|k: int| 0 <= k < body.len() ==> #[trigger] body[k] == s@[start + k],
            forall|k: int| 0 <= k < i ==> is_hex_digit(#[trigger] body[k]),
        decreases len - i,
    {
        let b = s[start + i];
        let is_digit = (48u8 <= b && b <= 57u8) || (97u8 <= b && b <= 102u8) || (65u8 <= b && b
            <= 70u8);
        if !is_digit {
            proof {
                assert(!is_hex_digit(body[i as int]));
                assert(!valid_hex_color(s@));
            }
            return Err(ColorError::BadDigit);
        }
        i += 1;
    }
    proof {
        let st = start as int;
        assert(body[0] == s@[st + 0] && body[1] == s@[st + 1] && body[2] == s@[st + 2] && body[3]
            == s@[st + 3] && body[4] == s@[st + 4] && body[5] == s@[st + 5]);
        if body.len() == 8 {
            assert(body[6] == s@[st + 6] && body[7] == s@[st + 7]);
        }
        assert(valid_hex_color(s@));
    }
    let red = 16 * hex_digit_value(s[start]) + hex_digit_value(s[start + 1]);
    let green = 16 * hex_digit_value(s[start + 2]) + hex_digit_value(s[start + 3]);
    let blue = 16 * hex_digit_value(s[start + 4]) + hex_digit_value(s[start + 5]);
    let alpha = if len == 8 {
        16 * hex_digit_value(s[start + 6]) + hex_digit_value(s[start + 7])
    } else {
        255
    };
    Ok(RgbaColor { red, green, blue, alpha })
}

} // verus!
