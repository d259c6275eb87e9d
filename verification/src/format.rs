//! Per-sample quantization from the engine's fixed-point sample model
//! to each wire format an output device may require.
//!
//! A normalized amplitude is held as a signed 32-bit fixed-point value:
//! an amplitude of `1.0` is `SAMPLE_UNIT`, `-1.0` is `-SAMPLE_UNIT`.
//! Values outside that nominal range are representable (a decoder or a
//! downmix may produce them); quantization clamps to the target type's
//! range, mirroring a saturating numeric cast.

use vstd::prelude::*;

verus! {

/// The fixed-point representation of an amplitude of `1.0`.
pub const SAMPLE_UNIT: i32 = 16777216;

/// The wire formats an output device may require: signed and unsigned
/// integers at four widths, and two floating-point widths.
#[derive(Clone, Copy, PartialEq, Eq, Structural, Debug)]
pub enum SampleFormat {
    I8,
    I16,
    I32,
    I64,
    U8,
    U16,
    U32,
    U64,
    F32,
    F64,
}

/// Clamp `v` into `[lo, hi]`.
pub open spec fn clamped(v: int, lo: int, hi: int) -> int {
    if v < lo {
        lo
    } else if v > hi {
        hi
    } else {
        v
    }
}

/// Division of `n` by `SAMPLE_UNIT`, truncating toward zero.
pub open spec fn div_unit_toward_zero(n: int) -> int {
    if n >= 0 {
        n / (SAMPLE_UNIT as int)
    } else {
        -((-n) / (SAMPLE_UNIT as int))
    }
}

/// Quantization of a fixed-point sample `raw` to an integer target type
/// whose range is `[lo, hi]`: scale by the type's maximum value,
/// truncate toward zero, and clamp into the type's range.
pub open spec fn quantized(raw: int, lo: int, hi: int) -> int {
    clamped(div_unit_toward_zero(raw * hi), lo, hi)
}

/// Scale a fixed-point sample into the integer range `[lo, hi]`,
/// truncating toward zero and clamping. The arithmetic runs on the
/// sample's magnitude so that every division is on nonnegative values.
fn quantize_to(raw: i32, lo: i128, hi: i128) -> (r: i128)
    requires
        -0xFFFF_FFFF_FFFF_FFFF <= lo <= 0,
        0 < hi <= 0xFFFF_FFFF_FFFF_FFFF,
    ensures
        r == quantized(raw as int, lo as int, hi as int),
{
    let neg: bool = raw < 0;
    let mag: u64 = if neg {
        (-(raw as i64)) as u64
    } else {
        raw as u64
    };
    proof {
        assert(mag <= 0x8000_0000) by {
            assert(neg ==> mag as int == -(raw as int));
        }
        assert((mag as int) * (hi as int) < 0x1_0000_0000_0000_0000_0000_0000) by (nonlinear_arith)
            requires
                0 <= mag <= 0x8000_0000,
                0 < hi <= 0xFFFF_FFFF_FFFF_FFFF;
    }
    let num: u128 = (mag as u128) * (hi as u128);
    let q: u128 = num / (SAMPLE_UNIT as u128);
    proof {
        vstd::arithmetic::div_mod::lemma_div_is_ordered_by_denominator(
            num as int,
            1,
            SAMPLE_UNIT as int,
        );
        assert(q <= num);
        if neg {
            assert(raw as int * hi as int == -(num as int)) by (nonlinear_arith)
                requires
                    num == mag as int * hi as int,
                    mag as int == -(raw as int);
        } else {
            assert(raw as int * hi as int == num as int) by (nonlinear_arith)
                requires
                    num == mag as int * hi as int,
                    mag as int == raw as int;
        }
    }
    let signed: i128 = if neg {
        -(q as i128)
    } else {
        q as i128
    };
    assert(signed == div_unit_toward_zero(raw as int * hi as int));
    if signed < lo {
        lo
    } else if signed > hi {
        hi
    } else {
        signed
    }
}

/// An integer wire format: a target numeric type, its range, and a
/// verified quantization from a fixed-point sample into it.
pub trait WireSample: Sized {
    /// The least value of the target type.
    spec fn wire_lo() -> int;

    /// The greatest value of the target type.
    spec fn wire_hi() -> int;

    /// The target value read back as a mathematical integer.
    spec fn wire_val(self) -> int;

    /// Quantize one fixed-point sample to this wire format.
    fn from_sample(raw: i32) -> (r: Self)
        ensures
            r.wire_val() == quantized(raw as int, Self::wire_lo(), Self::wire_hi()),
    ;
}

impl WireSample for i8 {
    open spec fn wire_lo() -> int {
        i8::MIN as int
    }

    open spec fn wire_hi() -> int {
        i8::MAX as int
    }

    open spec fn wire_val(self) -> int {
        self as int
    }

    fn from_sample(raw: i32) -> (r: i8) {
        quantize_to(raw, i8::MIN as i128, i8::MAX as i128) as i8
    }
}

impl WireSample for i16 {
    open spec fn wire_lo() -> int {
        i16::MIN as int
    }

    open spec fn wire_hi() -> int {
        i16::MAX as int
    }

    open spec fn wire_val(self) -> int {
        self as int
    }

    fn from_sample(raw: i32) -> (r: i16) {
        quantize_to(raw, i16::MIN as i128, i16::MAX as i128) as i16
    }
}

impl WireSample for i32 {
    open spec fn wire_lo() -> int {
        i32::MIN as int
    }

    open spec fn wire_hi() -> int {
        i32::MAX as int
    }

    open spec fn wire_val(self) -> int {
        self as int
    }

    fn from_sample(raw: i32) -> (r: i32) {
        quantize_to(raw, i32::MIN as i128, i32::MAX as i128) as i32
    }
}

impl WireSample for i64 {
    open spec fn wire_lo() -> int {
        i64::MIN as int
    }

    open spec fn wire_hi() -> int {
        i64::MAX as int
    }

    open spec fn wire_val(self) -> int {
        self as int
    }

    fn from_sample(raw: i32) -> (r: i64) {
        quantize_to(raw, i64::MIN as i128, i64::MAX as i128) as i64
    }
}

impl WireSample for u8 {
    open spec fn wire_lo() -> int {
        0
    }

    open spec fn wire_hi() -> int {
        u8::MAX as int
    }

    open spec fn wire_val(self) -> int {
        self as int
    }

    fn from_sample(raw: i32) -> (r: u8) {
        quantize_to(raw, 0, u8::MAX as i128) as u8
    }
}

impl WireSample for u16 {
    open spec fn wire_lo() -> int {
        0
    }

    open spec fn wire_hi() -> int {
        u16::MAX as int
    }

    open spec fn wire_val(self) -> int {
        self as int
    }

    fn from_sample(raw: i32) -> (r: u16) {
        quantize_to(raw, 0, u16::MAX as i128) as u16
    }
}

impl WireSample for u32 {
    open spec fn wire_lo() -> int {
        0
    }

    open spec fn wire_hi() -> int {
        u32::MAX as int
    }

    open spec fn wire_val(self) -> int {
        self as int
    }

    fn from_sample(raw: i32) -> (r: u32) {
        quantize_to(raw, 0, u32::MAX as i128) as u32
    }
}

impl WireSample for u64 {
    open spec fn wire_lo() -> int {
        0
    }

    open spec fn wire_hi() -> int {
        u64::MAX as int
    }

    open spec fn wire_val(self) -> int {
        self as int
    }

    fn from_sample(raw: i32) -> (r: u64) {
        quantize_to(raw, 0, u64::MAX as i128) as u64
    }
}

/// For every integer wire format: silence (`0`) quantizes to `0`, full
/// scale (`SAMPLE_UNIT`, an amplitude of `1.0`) quantizes to the type's
/// greatest value, and `-SAMPLE_UNIT` to the negated greatest value
/// where the range holds it, else to the least value (an unsigned
/// target clamps the whole negative half to `0`).
pub proof fn lemma_quantized_range(lo: int, hi: int)
    requires
        lo <= 0,
        0 < hi,
    ensures
        quantized(0, lo, hi) == 0,
        quantized(SAMPLE_UNIT as int, lo, hi) == hi,
        quantized(-(SAMPLE_UNIT as int), lo, hi) == if -hi >= lo {
            -hi
        } else {
            lo
        },
{
    vstd::arithmetic::div_mod::lemma_div_multiples_vanish(hi, SAMPLE_UNIT as int);
    assert(SAMPLE_UNIT as int * hi == (SAMPLE_UNIT as int) * hi);
    assert(div_unit_toward_zero(SAMPLE_UNIT as int * hi) == hi);
    assert(-(SAMPLE_UNIT as int) * hi == -(SAMPLE_UNIT as int * hi)) by (nonlinear_arith);
    assert(div_unit_toward_zero(-(SAMPLE_UNIT as int) * hi) == -hi);
}

} // verus!
