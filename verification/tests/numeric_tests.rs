use docdb_core::numeric::{apply_step, Numeric, NumericKind};

const INCREMENT: bool = true;
const DECREMENT: bool = false;
const SATURATING: bool = true;
const OVERFLOWING: bool = false;

#[test]
fn saturating_increment_clamps_at_max() {
    // An 8-bit unsigned 250 incremented by 10 saturates at 255.
    assert_eq!(
        apply_step(Numeric::U8(250), Numeric::U8(10), INCREMENT, SATURATING),
        Numeric::U8(255)
    );
    assert_eq!(
        apply_step(Numeric::U64(u64::MAX - 1), Numeric::U64(17), INCREMENT, SATURATING),
        Numeric::U64(u64::MAX)
    );
    assert_eq!(
        apply_step(Numeric::I8(120), Numeric::I8(100), INCREMENT, SATURATING),
        Numeric::I8(127)
    );
    assert_eq!(
        apply_step(Numeric::I64(i64::MAX), Numeric::I64(1), INCREMENT, SATURATING),
        Numeric::I64(i64::MAX)
    );
}

#[test]
fn saturating_decrement_clamps_at_min() {
    assert_eq!(
        apply_step(Numeric::U8(3), Numeric::U8(10), DECREMENT, SATURATING),
        Numeric::U8(0)
    );
    assert_eq!(
        apply_step(Numeric::I8(-120), Numeric::I8(100), DECREMENT, SATURATING),
        Numeric::I8(-128)
    );
    assert_eq!(
        apply_step(Numeric::U32(0), Numeric::U32(1), DECREMENT, SATURATING),
        Numeric::U32(0)
    );
}

#[test]
fn overflowing_matches_native_wrapping() {
    // An 8-bit unsigned 250 incremented by 10 with overflow allowed wraps
    // to 4, exactly as native wrapping arithmetic does.
    assert_eq!(
        apply_step(Numeric::U8(250), Numeric::U8(10), INCREMENT, OVERFLOWING),
        Numeric::U8(250u8.wrapping_add(10))
    );
    assert_eq!(
        apply_step(Numeric::U8(250), Numeric::U8(10), INCREMENT, OVERFLOWING),
        Numeric::U8(4)
    );
    assert_eq!(
        apply_step(Numeric::U16(3), Numeric::U16(10), DECREMENT, OVERFLOWING),
        Numeric::U16(3u16.wrapping_sub(10))
    );
    assert_eq!(
        apply_step(Numeric::I8(120), Numeric::I8(100), INCREMENT, OVERFLOWING),
        Numeric::I8(120i8.wrapping_add(100))
    );
    assert_eq!(
        apply_step(Numeric::I64(i64::MIN), Numeric::I64(1), DECREMENT, OVERFLOWING),
        Numeric::I64(i64::MIN.wrapping_sub(1))
    );
}

#[test]
fn in_range_steps_are_exact() {
    assert_eq!(
        apply_step(Numeric::U32(40), Numeric::U32(2), INCREMENT, SATURATING),
        Numeric::U32(42)
    );
    assert_eq!(
        apply_step(Numeric::I16(-40), Numeric::I16(2), DECREMENT, OVERFLOWING),
        Numeric::I16(-42)
    );
}

#[test]
fn kind_reports_subtype() {
    assert_eq!(Numeric::U8(1).kind(), NumericKind::U8);
    assert_eq!(Numeric::I64(-1).kind(), NumericKind::I64);
    assert_ne!(Numeric::U8(1).kind(), Numeric::U16(1).kind());
}
