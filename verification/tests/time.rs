use tokio_serial_pacing::pacing::past;
use tokio_serial_pacing::time::{Moment, Span};

#[test]
fn spans_from_units() {
    assert_eq!(Span::zero().nanos, 0);
    assert_eq!(Span::from_nanos(7).nanos, 7);
    assert_eq!(Span::from_micros(1750).nanos, 1_750_000);
    assert_eq!(Span::from_millis(3).nanos, 3_000_000);
    assert_eq!(Span::from_micros(u64::MAX).nanos, u64::MAX as u128 * 1000);
}

#[test]
fn span_parts() {
    let span = Span::from_nanos(3_250_000_123);
    assert_eq!(span.whole_secs(), 3);
    assert_eq!(span.subsec_nanos(), 250_000_123);
    assert_eq!(span.as_micros(), 3_250_000);
}

#[test]
fn moment_arithmetic() {
    let m = Moment::from_nanos(10);
    assert_eq!(m.checked_add(Span::from_nanos(5)), Some(Moment::from_nanos(15)));
    assert_eq!(m.checked_sub(Span::from_nanos(10)), Some(Moment::from_nanos(0)));
    assert_eq!(m.checked_sub(Span::from_nanos(11)), None);
    assert_eq!(Moment::from_nanos(u128::MAX).checked_add(Span::from_nanos(1)), None);
    assert_eq!(
        Moment::from_nanos(u128::MAX - 1).checked_add(Span::from_nanos(1)),
        Some(Moment::from_nanos(u128::MAX))
    );
}

#[test]
fn past_is_one_millisecond_earlier() {
    assert_eq!(past(Moment::from_nanos(5_000_000)), Moment::from_nanos(4_000_000));
    assert_eq!(past(Moment::from_nanos(1_000_000)), Moment::from_nanos(0));
}

#[test]
fn past_near_origin_is_now() {
    assert_eq!(past(Moment::from_nanos(999_999)), Moment::from_nanos(999_999));
    assert_eq!(past(Moment::from_nanos(0)), Moment::from_nanos(0));
}
