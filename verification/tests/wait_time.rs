use tokio_serial_pacing::line::{frame_bit_count, DataBits, LineSettings, Parity, StopBits};
use tokio_serial_pacing::wait_time;

fn settings(
    data_bits: Option<DataBits>,
    stop_bits: Option<StopBits>,
    parity: Option<Parity>,
    baud_rate: Option<u32>,
) -> LineSettings {
    LineSettings { data_bits, stop_bits, parity, baud_rate }
}

fn eight_n_one(baud: u32) -> LineSettings {
    settings(Some(DataBits::Eight), Some(StopBits::One), Some(Parity::Disabled), Some(baud))
}

#[test]
fn fast_line_uses_fixed_delay() {
    let delay = wait_time(&eight_n_one(115200));
    assert_eq!(delay.nanos, 1_750_000);
    assert_eq!(delay.as_micros(), 1750);
}

#[test]
fn just_above_threshold_uses_fixed_delay() {
    let s = settings(Some(DataBits::Eight), Some(StopBits::Two), Some(Parity::Even), Some(19201));
    assert_eq!(wait_time(&s).as_micros(), 1750);
}

#[test]
fn at_threshold_uses_character_time() {
    // 7 data + 2 stop + 1 parity = 10 bits: 35_000_000 / 19200 = 1822.9
    let s = settings(Some(DataBits::Seven), Some(StopBits::Two), Some(Parity::Even), Some(19200));
    assert_eq!(wait_time(&s).nanos, 1_822_000);
}

#[test]
fn nine_bit_characters_at_9600() {
    // 8N1 counts 9 bits: 31_500_000 / 9600 = 3281.25
    assert_eq!(wait_time(&eight_n_one(9600)).nanos, 3_281_000);
}

#[test]
fn unreported_settings_default_to_8n1_at_9600() {
    let unknown = settings(None, None, None, None);
    assert_eq!(wait_time(&unknown), wait_time(&eight_n_one(9600)));
    assert_eq!(wait_time(&unknown).as_micros(), 3281);
}

#[test]
fn unreported_baud_rate_with_known_framing() {
    // 7 data + 1 stop + 1 parity = 9 bits at 9600 baud
    let s = settings(Some(DataBits::Seven), Some(StopBits::One), Some(Parity::Odd), None);
    assert_eq!(wait_time(&s).as_micros(), 3281);
}

#[test]
fn slow_short_characters() {
    // 5N1 = 6 bits at 300 baud: 21_000_000 / 300 = 70000 exactly
    let s = settings(Some(DataBits::Five), Some(StopBits::One), Some(Parity::Disabled), Some(300));
    assert_eq!(wait_time(&s).nanos, 70_000_000);
}

#[test]
fn slow_long_characters() {
    // 8O2 = 11 bits at 1200 baud: 38_500_000 / 1200 = 32083.3
    let s = settings(Some(DataBits::Eight), Some(StopBits::Two), Some(Parity::Odd), Some(1200));
    assert_eq!(wait_time(&s).as_micros(), 32083);
}

#[test]
fn one_baud_line() {
    assert_eq!(wait_time(&eight_n_one(1)).as_micros(), 31_500_000);
}

#[test]
fn frame_bits_range() {
    let shortest = settings(Some(DataBits::Five), Some(StopBits::One), Some(Parity::Disabled), None);
    let longest = settings(Some(DataBits::Eight), Some(StopBits::Two), Some(Parity::Even), None);
    assert_eq!(frame_bit_count(&shortest), 6);
    assert_eq!(frame_bit_count(&longest), 11);
    let six = settings(Some(DataBits::Six), None, None, None);
    assert_eq!(frame_bit_count(&six), 7);
}

#[test]
fn faster_slow_line_waits_no_longer() {
    let at_4800 = wait_time(&eight_n_one(4800));
    let at_9600 = wait_time(&eight_n_one(9600));
    assert_eq!(at_4800.as_micros(), 6562);
    assert!(at_9600.nanos <= at_4800.nanos);
}

#[test]
fn longer_characters_wait_longer() {
    let short = settings(Some(DataBits::Seven), Some(StopBits::One), Some(Parity::Disabled), Some(2400));
    let long = settings(Some(DataBits::Eight), Some(StopBits::Two), Some(Parity::Even), Some(2400));
    assert_eq!(wait_time(&short).as_micros(), 11666);
    assert_eq!(wait_time(&long).as_micros(), 16041);
}

#[test]
fn fixed_delay_can_exceed_character_time_just_above_threshold() {
    // 6-bit characters at 19200 baud wait 1093 us, at 19201 the fixed 1750 us
    let at = settings(Some(DataBits::Five), Some(StopBits::One), Some(Parity::Disabled), Some(19200));
    let above = settings(Some(DataBits::Five), Some(StopBits::One), Some(Parity::Disabled), Some(19201));
    assert_eq!(wait_time(&at).as_micros(), 1093);
    assert_eq!(wait_time(&above).as_micros(), 1750);
}
