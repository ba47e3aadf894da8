//! Fixed-width numeric values for the atomic key-value operations, and the
//! saturating / wrapping arithmetic applied to them.

use vstd::prelude::*;

verus! {

/// A numeric value of a fixed-width integer subtype.  The stored value and
/// the operation amount carry their subtype, so results can be clamped to
/// (or wrapped at) the subtype's own representable bounds.
#[derive(Clone, Copy, PartialEq, Eq, Structural, Debug)]
pub enum Numeric {
    U8(u8),
    U16(u16),
    U32(u32),
    U64(u64),
    I8(i8),
    I16(i16),
    I32(i32),
    I64(i64),
}

/// The numeric subtype of a [`Numeric`] value.
#[derive(Clone, Copy, PartialEq, Eq, Structural, Debug)]
pub enum NumericKind {
    U8,
    U16,
    U32,
    U64,
    I8,
    I16,
    I32,
    I64,
}

/// The subtype a numeric value belongs to.
pub open spec fn kind_of(n: Numeric) -> NumericKind {
    match n {
        Numeric::U8(_) => NumericKind::U8,
        Numeric::U16(_) => NumericKind::U16,
        Numeric::U32(_) => NumericKind::U32,
        Numeric::U64(_) => NumericKind::U64,
        Numeric::I8(_) => NumericKind::I8,
        Numeric::I16(_) => NumericKind::I16,
        Numeric::I32(_) => NumericKind::I32,
        Numeric::I64(_) => NumericKind::I64,
    }
}

/// The mathematical integer a numeric value denotes.
pub open spec fn as_int(n: Numeric) -> int {
    match n {
        Numeric::U8(v) => v as int,
        Numeric::U16(v) => v as int,
        Numeric::U32(v) => v as int,
        Numeric::U64(v) => v as int,
        Numeric::I8(v) => v as int,
        Numeric::I16(v) => v as int,
        Numeric::I32(v) => v as int,
        Numeric::I64(v) => v as int,
    }
}

/// The smallest value representable in a subtype.
pub open spec fn kind_min(k: NumericKind) -> int {
    match k {
        NumericKind::U8 => 0,
        NumericKind::U16 => 0,
        NumericKind::U32 => 0,
        NumericKind::U64 => 0,
        NumericKind::I8 => i8::MIN as int,
        NumericKind::I16 => i16::MIN as int,
        NumericKind::I32 => i32::MIN as int,
        NumericKind::I64 => i64::MIN as int,
    }
}

/// The largest value representable in a subtype.
pub open spec fn kind_max(k: NumericKind) -> int {
    match k {
        NumericKind::U8 => u8::MAX as int,
        NumericKind::U16 => u16::MAX as int,
        NumericKind::U32 => u32::MAX as int,
        NumericKind::U64 => u64::MAX as int,
        NumericKind::I8 => i8::MAX as int,
        NumericKind::I16 => i16::MAX as int,
        NumericKind::I32 => i32::MAX as int,
        NumericKind::I64 => i64::MAX as int,
    }
}

/// The number of distinct values of a subtype.
pub open spec fn kind_size(k: NumericKind) -> int {
    kind_max(k) - kind_min(k) + 1
}

/// Whether `x` is representable in the subtype `k`.
pub open spec fn in_bounds(x: int, k: NumericKind) -> bool {
    kind_min(k) <= x <= kind_max(k)
}

/// `x` clamped to the representable bounds of `k`: saturating arithmetic
/// yields this result.
pub open spec fn clamped(x: int, k: NumericKind) -> int {
    if x < kind_min(k) {
        kind_min(k)
    } else if x > kind_max(k) {
        kind_max(k)
    } else {
        x
    }
}

/// `x` wrapped once at the representable bounds of `k`.  For any `x` that
/// is the sum or difference of two values of the subtype, this equals
/// `x` reduced modulo the subtype's size into its range: exactly native
/// fixed-width wrapping arithmetic.
pub open spec fn wrapped(x: int, k: NumericKind) -> int {
    if x > kind_max(k) {
        x - kind_size(k)
    } else if x < kind_min(k) {
        x + kind_size(k)
    } else {
        x
    }
}

/// The result of one atomic increment (`increment` true) or decrement
/// (`increment` false) step of `amount` applied to `value`, saturating at
/// the subtype's bounds or wrapping, by `saturating`.
pub open spec fn applied(value: Numeric, amount: Numeric, increment: bool, saturating: bool)
    -> int {
    let x = if increment {
        as_int(value) + as_int(amount)
    } else {
        as_int(value) - as_int(amount)
    };
    if saturating {
        clamped(x, kind_of(value))
    } else {
        wrapped(x, kind_of(value))
    }
}

/// Saturating arithmetic never leaves the representable bounds of the
/// subtype: an increment never exceeds its maximum and a decrement never
/// goes below its minimum, whatever the amount.
pub proof fn lemma_saturating_stays_in_bounds(x: int, k: NumericKind)
    ensures
        in_bounds(clamped(x, k), k),
{
}

/// Wrapping arithmetic also stays within the representable bounds when
/// applied to the sum or difference of two representable values.
pub proof fn lemma_wrapped_stays_in_bounds(x: int, k: NumericKind)
    requires
        kind_min(k) + kind_min(k) <= x <= kind_max(k) + kind_max(k),
    ensures
        in_bounds(wrapped(x, k), k),
{
}

/// With overflow opted in, the result matches native wrapping arithmetic
/// of the same bit width: `wrapped` agrees with the native wrapping add
/// and subtract on every pair of 8-bit unsigned values.
pub proof fn lemma_overflow_matches_native_u8(v: u8, a: u8)
    ensures
        wrapped(v + a, NumericKind::U8) == vstd::wrapping::u8_specs::wrapping_add(v, a),
        wrapped(v - a, NumericKind::U8) == vstd::wrapping::u8_specs::wrapping_sub(v, a),
{
}

/// As [`lemma_overflow_matches_native_u8`], for 16-bit unsigned values.
pub proof fn lemma_overflow_matches_native_u16(v: u16, a: u16)
    ensures
        wrapped(v + a, NumericKind::U16) == vstd::wrapping::u16_specs::wrapping_add(v, a),
        wrapped(v - a, NumericKind::U16) == vstd::wrapping::u16_specs::wrapping_sub(v, a),
{
}

/// As [`lemma_overflow_matches_native_u8`], for 32-bit unsigned values.
pub proof fn lemma_overflow_matches_native_u32(v: u32, a: u32)
    ensures
        wrapped(v + a, NumericKind::U32) == vstd::wrapping::u32_specs::wrapping_add(v, a),
        wrapped(v - a, NumericKind::U32) == vstd::wrapping::u32_specs::wrapping_sub(v, a),
{
}

/// As [`lemma_overflow_matches_native_u8`], for 64-bit unsigned values.
pub proof fn lemma_overflow_matches_native_u64(v: u64, a: u64)
    ensures
        wrapped(v + a, NumericKind::U64) == vstd::wrapping::u64_specs::wrapping_add(v, a),
        wrapped(v - a, NumericKind::U64) == vstd::wrapping::u64_specs::wrapping_sub(v, a),
{
}

/// As [`lemma_overflow_matches_native_u8`], for 8-bit signed values.
pub proof fn lemma_overflow_matches_native_i8(v: i8, a: i8)
    ensures
        wrapped(v + a, NumericKind::I8) == vstd::wrapping::i8_specs::wrapping_add(v, a),
        wrapped(v - a, NumericKind::I8) == vstd::wrapping::i8_specs::wrapping_sub(v, a),
{
}

/// As [`lemma_overflow_matches_native_u8`], for 16-bit signed values.
pub proof fn lemma_overflow_matches_native_i16(v: i16, a: i16)
    ensures
        wrapped(v + a, NumericKind::I16) == vstd::wrapping::i16_specs::wrapping_add(v, a),
        wrapped(v - a, NumericKind::I16) == vstd::wrapping::i16_specs::wrapping_sub(v, a),
{
}

/// As [`lemma_overflow_matches_native_u8`], for 32-bit signed values.
pub proof fn lemma_overflow_matches_native_i32(v: i32, a: i32)
    ensures
        wrapped(v + a, NumericKind::I32) == vstd::wrapping::i32_specs::wrapping_add(v, a),
        wrapped(v - a, NumericKind::I32) == vstd::wrapping::i32_specs::wrapping_sub(v, a),
{
}

/// As [`lemma_overflow_matches_native_u8`], for 64-bit signed values.
pub proof fn lemma_overflow_matches_native_i64(v: i64, a: i64)
    ensures
        wrapped(v + a, NumericKind::I64) == vstd::wrapping::i64_specs::wrapping_add(v, a),
        wrapped(v - a, NumericKind::I64) == vstd::wrapping::i64_specs::wrapping_sub(v, a),
{
}

impl Numeric {
    /// The subtype this value belongs to.
    pub fn kind(&self) -> (k: NumericKind)
        ensures
            k == kind_of(*self),
    {
        match self {
            Numeric::U8(_) => NumericKind::U8,
            Numeric::U16(_) => NumericKind::U16,
            Numeric::U32(_) => NumericKind::U32,
            Numeric::U64(_) => NumericKind::U64,
            Numeric::I8(_) => NumericKind::I8,
            Numeric::I16(_) => NumericKind::I16,
            Numeric::I32(_) => NumericKind::I32,
            Numeric::I64(_) => NumericKind::I64,
        }
    }
}

/// Applies one atomic increment or decrement step to `value`.
///
/// With `saturating` true the result is `value ± amount` clamped to the
/// subtype's representable bounds; with it false the result wraps exactly
/// as native fixed-width integer arithmetic of the same bit width does.
pub fn apply_step(value: Numeric, amount: Numeric, increment: bool, saturating: bool)
    -> (r: Numeric)
    requires
        kind_of(value) == kind_of(amount),
    ensures
        kind_of(r) == kind_of(value),
        as_int(r) == applied(value, amount, increment, saturating),
{
    match (value, amount) {
        (Numeric::U8(v), Numeric::U8(a)) => Numeric::U8(
            if increment {
                if saturating { v.saturating_add(a) } else { v.wrapping_add(a) }
            } else {
                if saturating { v.saturating_sub(a) } else { v.wrapping_sub(a) }
            },
        ),
        (Numeric::U16(v), Numeric::U16(a)) => Numeric::U16(
            if increment {
                if saturating { v.saturating_add(a) } else { v.wrapping_add(a) }
            } else {
                if saturating { v.saturating_sub(a) } else { v.wrapping_sub(a) }
            },
        ),
        (Numeric::U32(v), Numeric::U32(a)) => Numeric::U32(
            if increment {
                if saturating { v.saturating_add(a) } else { v.wrapping_add(a) }
            } else {
                if saturating { v.saturating_sub(a) } else { v.wrapping_sub(a) }
            },
        ),
        (Numeric::U64(v), Numeric::U64(a)) => Numeric::U64(
            if increment {
                if saturating { v.saturating_add(a) } else { v.wrapping_add(a) }
            } else {
                if saturating { v.saturating_sub(a) } else { v.wrapping_sub(a) }
            },
        ),
        (Numeric::I8(v), Numeric::I8(a)) => Numeric::I8(
            if saturating {
                let wide: i16 = if increment {
                    v as i16 + a as i16
                } else {
                    v as i16 - a as i16
                };
                if wide > i8::MAX as i16 {
                    i8::MAX
                } else if wide < i8::MIN as i16 {
                    i8::MIN
                } else {
                    wide as i8
                }
            } else {
                if increment { v.wrapping_add(a) } else { v.wrapping_sub(a) }
            },
        ),
        (Numeric::I16(v), Numeric::I16(a)) => Numeric::I16(
            if saturating {
                let wide: i32 = if increment {
                    v as i32 + a as i32
                } else {
                    v as i32 - a as i32
                };
                if wide > i16::MAX as i32 {
                    i16::MAX
                } else if wide < i16::MIN as i32 {
                    i16::MIN
                } else {
                    wide as i16
                }
            } else {
                if increment { v.wrapping_add(a) } else { v.wrapping_sub(a) }
            },
        ),
        (Numeric::I32(v), Numeric::I32(a)) => Numeric::I32(
            if saturating {
                let wide: i64 = if increment {
                    v as i64 + a as i64
                } else {
                    v as i64 - a as i64
                };
                if wide > i32::MAX as i64 {
                    i32::MAX
                } else if wide < i32::MIN as i64 {
                    i32::MIN
                } else {
                    wide as i32
                }
            } else {
                if increment { v.wrapping_add(a) } else { v.wrapping_sub(a) }
            },
        ),
        (Numeric::I64(v), Numeric::I64(a)) => Numeric::I64(
            if saturating {
                let wide: i128 = if increment {
                    v as i128 + a as i128
                } else {
                    v as i128 - a as i128
                };
                if wide > i64::MAX as i128 {
                    i64::MAX
                } else if wide < i64::MIN as i128 {
                    i64::MIN
                } else {
                    wide as i64
                }
            } else {
                if increment { v.wrapping_add(a) } else { v.wrapping_sub(a) }
            },
        ),
        _ => {
            proof {
                assert(false);
            }
            value
        }
    }
}

} // verus!
