//! Verified core of the OPAL galvo-laser controller firmware: the G-code
//! line parser and serial line assembly, the XY2-100 galvo protocol encoder,
//! laser and clock register arithmetic, and the storage, frequency-meter and
//! settings rules of the data recorder.
use vstd::prelude::*;

pub mod clocking;
pub mod config;
pub mod fixed;
pub mod freqmeter;
pub mod gcode;
pub mod internal_storage;
pub mod laser;
pub mod motion;
pub mod number;
pub mod protocol;
pub mod qspi;
pub mod serial;
pub mod settings;
pub mod storage;
pub mod text;
pub mod xy2_100;

verus! {

} // verus!
