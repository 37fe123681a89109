//! Build-time configuration of the controller.
use vstd::prelude::*;

verus! {

/// Crystal frequency, Hz.
pub const XTAL_FREQ: u32 = 16_000_000;

/// Galvo clock rate: the XY2-100 clock needs two timer ticks per bit.
pub const GALVO_CLOCK_RATE: u32 = 4_000_000;

/// Level that enables the USB pull-up.
pub const USB_PULLUP_ACTVE_LEVEL: bool = false;

/// G-code queue size.
pub const GCODE_QUEUE_SIZE: usize = 8;

/// Capacity, in bytes, of a reply string.
pub const STR_MAX_LEN: usize = 64;

/// System tick rate, Hz.
pub const SYSTICK_RATE_HZ: u32 = 1_000;

/// Main laser sync frequency, kHz (from the laser head documentation).
pub const LASER_SYNC_CLOCK_KHZ: u32 = 45;

/// Red marker laser PWM frequency, kHz.
pub const LASER_RED_FREQ_KHZ: u32 = 1;

} // verus!
