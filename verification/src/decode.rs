//! Decoding of raw register words into exact fixed-point readings.
//!
//! A reading is kept as the unsigned integer that the device reported
//! together with the number of implied decimal digits. The quantity it
//! stands for is the integer divided by ten to that power; no rounding
//! takes place here.

use crate::descriptor::{RegisterDescriptor, Width};
use vstd::arithmetic::power::pow;
use vstd::prelude::*;

verus! {

/// The unsigned integer whose high sixteen bits are `hi` and whose low
/// sixteen bits are `lo`.
pub open spec fn join_words(hi: u16, lo: u16) -> nat {
    (hi as nat) * 65536 + (lo as nat)
}

/// Concatenates the first two words big-endian: the first word becomes the
/// high half of the result, the second the low half. Words after the second
/// are not read.
pub fn vec_u16_to_u32(i: &[u16]) -> (r: u32)
    requires
        i@.len() >= 2,
    ensures
        r as nat == join_words(i@[0], i@[1]),
{
    let hi: u32 = i[0] as u32;
    let lo: u32 = i[1] as u32;
    assert(hi << 16 == hi * 65536) by (bit_vector)
        requires
            hi < 65536,
    ;
    (hi << 16) + lo
}

/// A decoded quantity: the rational number `mantissa / 10^scale`.
#[derive(Clone, Copy, Debug, PartialEq, Eq, Structural)]
pub struct Reading {
    /// The raw words, concatenated big-endian and read as an unsigned integer.
    pub mantissa: u32,
    /// The number of implied decimal digits.
    pub scale: u32,
}

impl Reading {
    /// The numerator of the quantity.
    pub open spec fn numerator(self) -> nat {
        self.mantissa as nat
    }

    /// The denominator of the quantity: ten to the power of the scale.
    pub open spec fn denominator(self) -> nat {
        pow(10, self.scale as nat) as nat
    }

    /// The quantity is the rational number `n / d`.
    pub open spec fn is_ratio(self, n: nat, d: nat) -> bool {
        d > 0 && self.denominator() > 0 && self.numerator() * d == n * self.denominator()
    }
}

/// Why raw words could not be decoded.
#[derive(Clone, Copy, Debug, PartialEq, Eq, Structural)]
pub enum DecodeError {
    /// The transport returned `actual` words where the width asks for
    /// `expected`.
    UnexpectedLength { expected: usize, actual: usize },
}

/// What `raw` decodes to for a quantity of the given width and scale.
///
/// A sequence of the wrong length is refused, never truncated or padded.
/// Otherwise the mantissa is the single word, or the two words with the
/// first as the high half.
pub open spec fn decoded(width: Width, scale: u32, raw: Seq<u16>) -> Result<Reading, DecodeError> {
    if raw.len() != width.words() {
        Err(
            DecodeError::UnexpectedLength {
                expected: width.words() as usize,
                actual: raw.len() as usize,
            },
        )
    } else {
        match width {
            Width::Bits16 => Ok(Reading { mantissa: raw[0] as u32, scale }),
            Width::Bits32 => Ok(Reading { mantissa: join_words(raw[0], raw[1]) as u32, scale }),
        }
    }
}

/// Decodes the words that the transport returned for `descriptor`.
pub fn decode(descriptor: &RegisterDescriptor, raw: &[u16]) -> (r: Result<Reading, DecodeError>)
    ensures
        r == decoded(descriptor.width, descriptor.scale, raw@),
{
    let expected: usize = match descriptor.width {
        Width::Bits16 => 1,
        Width::Bits32 => 2,
    };
    if raw.len() != expected {
        return Err(DecodeError::UnexpectedLength { expected, actual: raw.len() });
    }
    let mantissa: u32 = match descriptor.width {
        Width::Bits16 => raw[0] as u32,
        Width::Bits32 => vec_u16_to_u32(raw),
    };
    Ok(Reading { mantissa, scale: descriptor.scale })
}

/// At width 16, a single word `x` decodes to the quantity `x / 10^scale`,
/// whatever `x` and the scale are.
pub proof fn single_word_decodes_to_scaled_value(scale: u32, x: u16)
    ensures
        decoded(Width::Bits16, scale, seq![x]) == Ok::<Reading, DecodeError>(
            Reading { mantissa: x as u32, scale },
        ),
        decoded(Width::Bits16, scale, seq![x]).unwrap().is_ratio(x as nat, pow(10, scale as nat) as nat),
{
    vstd::arithmetic::power::lemma_pow_positive(10, scale as nat);
}

/// At width 32, the words `hi`, `lo` decode to the quantity
/// `(hi * 65536 + lo) / 10^scale`, whatever the words and the scale are.
pub proof fn word_pair_decodes_to_scaled_value(scale: u32, hi: u16, lo: u16)
    ensures
        decoded(Width::Bits32, scale, seq![hi, lo]) == Ok::<Reading, DecodeError>(
            Reading { mantissa: (hi * 65536 + lo) as u32, scale },
        ),
        decoded(Width::Bits32, scale, seq![hi, lo]).unwrap().is_ratio(
            (hi * 65536 + lo) as nat,
            pow(10, scale as nat) as nat,
        ),
        hi * 65536 + lo <= u32::MAX,
{
    vstd::arithmetic::power::lemma_pow_positive(10, scale as nat);
}

/// Decoding fails, with the two lengths in the error, exactly when the
/// number of words is not the width divided by sixteen.
pub proof fn wrong_length_is_refused(width: Width, scale: u32, raw: Seq<u16>)
    ensures
        raw.len() * 16 != width.bits() <==> decoded(width, scale, raw) is Err,
        decoded(width, scale, raw) matches Err(e) ==> e == (DecodeError::UnexpectedLength {
            expected: width.words() as usize,
            actual: raw.len() as usize,
        }),
{
}

} // verus!
