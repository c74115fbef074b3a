//! The Modbus RTU inter-frame silence (3.5 character times) computed from the
//! settings of a serial line.
use vstd::prelude::*;
use crate::time::Span;

verus! {

/// Number of data bits in each character.
#[derive(Clone, Copy, Debug, PartialEq, Eq, Structural)]
pub enum DataBits {
    Five,
    Six,
    Seven,
    Eight,
}

/// Number of stop bits after each character.
#[derive(Clone, Copy, Debug, PartialEq, Eq, Structural)]
pub enum StopBits {
    One,
    Two,
}

/// Parity checking, which adds one bit to each character when enabled.
#[derive(Clone, Copy, Debug, PartialEq, Eq, Structural)]
pub enum Parity {
    /// No parity bit is sent.
    Disabled,
    Odd,
    Even,
}

/// The settings of a serial line as read back from the port. A field is
/// `None` where the port could not report it.
#[derive(Clone, Copy, Debug, PartialEq, Eq, Structural)]
pub struct LineSettings {
    pub data_bits: Option<DataBits>,
    pub stop_bits: Option<StopBits>,
    pub parity: Option<Parity>,
    pub baud_rate: Option<u32>,
}

/// Baud rate assumed where the port does not report one.
pub const DEFAULT_BAUD_RATE: u32 = 9600;

/// Above this baud rate Modbus RTU fixes the inter-frame delay.
pub const FIXED_DELAY_ABOVE_BAUD: u64 = 19200;

/// The fixed inter-frame delay, in microseconds, for fast lines.
pub const FIXED_DELAY_MICROS: u64 = 1750;

/// 3.5 character times per bit, scaled to microseconds per second.
pub const SILENCE_MICROS_PER_BIT_AT_ONE_BAUD: u64 = 3_500_000;

/// Data bits per character; eight where unknown.
pub open spec fn data_bit_count(data_bits: Option<DataBits>) -> nat {
    match data_bits {
        Some(DataBits::Five) => 5,
        Some(DataBits::Six) => 6,
        Some(DataBits::Seven) => 7,
        Some(DataBits::Eight) => 8,
        None => 8,
    }
}

/// Stop bits per character; one where unknown.
pub open spec fn stop_bit_count(stop_bits: Option<StopBits>) -> nat {
    match stop_bits {
        Some(StopBits::One) => 1,
        Some(StopBits::Two) => 2,
        None => 1,
    }
}

/// Parity bits per character; none where unknown.
pub open spec fn parity_bit_count(parity: Option<Parity>) -> nat {
    match parity {
        Some(Parity::Disabled) => 0,
        Some(Parity::Odd) => 1,
        Some(Parity::Even) => 1,
        None => 0,
    }
}

/// Bits counted for one character: data, stop and parity bits.
pub open spec fn frame_bits(settings: LineSettings) -> nat {
    data_bit_count(settings.data_bits) + stop_bit_count(settings.stop_bits)
        + parity_bit_count(settings.parity)
}

/// The baud rate used for the computation.
pub open spec fn effective_baud_rate(settings: LineSettings) -> nat {
    match settings.baud_rate {
        Some(baud) => baud as nat,
        None => DEFAULT_BAUD_RATE as nat,
    }
}

/// The inter-frame silence in whole microseconds: fixed at 1750 above 19200
/// baud, otherwise 3.5 character times rounded down.
pub open spec fn inter_frame_micros(settings: LineSettings) -> nat {
    let baud = effective_baud_rate(settings);
    if baud > FIXED_DELAY_ABOVE_BAUD {
        FIXED_DELAY_MICROS as nat
    } else {
        ((SILENCE_MICROS_PER_BIT_AT_ONE_BAUD as nat) * frame_bits(settings)) / baud
    }
}

/// The number of bits in one character on a line with these settings.
pub fn frame_bit_count(settings: &LineSettings) -> (bits: u64)
    ensures
        bits == frame_bits(*settings),
        6 <= bits <= 11,
{
    let data_bits: u64 = match settings.data_bits {
        Some(DataBits::Five) => 5,
        Some(DataBits::Six) => 6,
        Some(DataBits::Seven) => 7,
        Some(DataBits::Eight) => 8,
        None => 8,
    };
    let stop_bits: u64 = match settings.stop_bits {
        Some(StopBits::One) => 1,
        Some(StopBits::Two) => 2,
        None => 1,
    };
    let parity_bits: u64 = match settings.parity {
        Some(Parity::Disabled) => 0,
        Some(Parity::Odd) | Some(Parity::Even) => 1,
        None => 0,
    };
    data_bits + stop_bits + parity_bits
}

/// The Modbus RTU 3.5-character wait time for a line with these settings.
///
/// Above 19200 baud the wait is the fixed 1.75 ms; at or below it, it is 3.5
/// character times, rounded down to whole microseconds. Settings that the
/// port could not report count as 8 data bits, 1 stop bit, no parity and
/// 9600 baud. A reported baud rate of zero has no wait time.
pub fn wait_time(settings: &LineSettings) -> (delay: Span)
    requires
        settings.baud_rate != Some(0u32),
    ensures
        delay.nanos == inter_frame_micros(*settings) * 1000,
{
    let byte_size = frame_bit_count(settings);
    let baud_rate: u64 = match settings.baud_rate {
        Some(baud) => baud as u64,
        None => DEFAULT_BAUD_RATE as u64,
    };
    let micros: u64 = if baud_rate > FIXED_DELAY_ABOVE_BAUD {
        FIXED_DELAY_MICROS
    } else {
        (SILENCE_MICROS_PER_BIT_AT_ONE_BAUD * byte_size) / baud_rate
    };
    Span::from_micros(micros)
}

} // verus!
