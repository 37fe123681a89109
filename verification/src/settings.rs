//! Settings of the data recorder and the rules by which a settings request
//! changes them.
//!
//! Floating-point settings (coefficients, work ranges, zero corrections) are
//! held as the bit patterns of their `f32` values: the rules only move them.
//! Where a rule compares two of them, the comparison is made where the
//! values are floats, and its outcome is handed in with the request.
use vstd::prelude::*;

use crate::config::XTAL_FREQ;
use crate::text::{chars_to_string, concat_chars, decimal, i32_to_decimal, signed_decimal, str_chars, u32_to_decimal};

verus! {

/// Bytes of a password.
pub const PASSWORD_SIZE: usize = 10;

/// Number of pressure polynomial coefficients.
pub const P_COEFFS_COUNT: usize = 16;

/// Number of temperature polynomial coefficients.
pub const T_COEFFS_COUNT: usize = 5;

/// Largest allowed distance of the reference frequency from the crystal
/// frequency, Hz.
pub const F_REF_DELTA: u32 = 500;

/// Pressure unit codes that a setting may take.
pub const PRESSURE_UNIT_PA: i32 = 2228224;
pub const PRESSURE_UNIT_BAR: i32 = 5111808;
pub const PRESSURE_UNIT_AT: i32 = 10551296;
pub const PRESSURE_UNIT_MM_H2O: i32 = 10616832;
pub const PRESSURE_UNIT_M_HG: i32 = 10682368;
pub const PRESSURE_UNIT_ATM: i32 = 10747904;
pub const PRESSURE_UNIT_PSI: i32 = 11206656;

/// Pressure polynomial: reference frequencies and coefficients.
pub struct PCoefficients {
    pub fp0: u32,
    pub ft0: u32,
    pub a: Vec<u32>,
}

pub struct PCoefficientsView {
    pub fp0: u32,
    pub ft0: u32,
    pub a: Seq<u32>,
}

impl View for PCoefficients {
    type V = PCoefficientsView;

    open spec fn view(&self) -> PCoefficientsView {
        PCoefficientsView { fp0: self.fp0, ft0: self.ft0, a: self.a@ }
    }
}

/// Temperature polynomial: reference values and coefficients `C1`..`C5`.
pub struct TCoefficients {
    pub f0: u32,
    pub t0: u32,
    pub c: Vec<u32>,
}

pub struct TCoefficientsView {
    pub f0: u32,
    pub t0: u32,
    pub c: Seq<u32>,
}

impl View for TCoefficients {
    type V = TCoefficientsView;

    open spec fn view(&self) -> TCoefficientsView {
        TCoefficientsView { f0: self.f0, t0: self.t0, c: self.c@ }
    }
}

/// Bounds of a measured value.
#[derive(Clone, Copy, PartialEq, Eq, Structural, Debug)]
pub struct WorkRange {
    pub minimum: u32,
    pub maximum: u32,
    pub absolute_maximum: u32,
}

/// Date of the last calibration.
#[derive(Clone, Copy, PartialEq, Eq, Structural, Debug)]
pub struct CalibrationDate {
    pub day: u32,
    pub month: u32,
    pub year: u32,
}

/// When the recorder writes: the base period and the dividers of the two
/// channels.
#[derive(Clone, Copy, PartialEq, Eq, Structural, Debug)]
pub struct WriteConfig {
    pub base_interval_ms: u32,
    pub p_write_devider: u32,
    pub t_write_devider: u32,
}

/// The stored settings.
pub struct Settings {
    pub serial: u32,
    pub p_mesure_time_ms: u32,
    pub t_mesure_time_ms: u32,
    pub fref: u32,
    pub p_enabled: bool,
    pub t_enabled: bool,
    pub tcpu_enabled: bool,
    pub v_bat_enabled: bool,
    pub p_coefficients: PCoefficients,
    pub t_coefficients: TCoefficients,
    pub p_work_range: WorkRange,
    pub t_work_range: WorkRange,
    pub tcpu_work_range: WorkRange,
    pub bat_work_range: WorkRange,
    pub calibration_date: CalibrationDate,
    pub p_zero_correction: u32,
    pub t_zero_correction: u32,
    pub write_config: WriteConfig,
    pub start_delay: u32,
    pub pressure_meassure_units: i32,
    pub password: Vec<u8>,
}

pub struct SettingsView {
    pub serial: u32,
    pub p_mesure_time_ms: u32,
    pub t_mesure_time_ms: u32,
    pub fref: u32,
    pub p_enabled: bool,
    pub t_enabled: bool,
    pub tcpu_enabled: bool,
    pub v_bat_enabled: bool,
    pub p_coefficients: PCoefficientsView,
    pub t_coefficients: TCoefficientsView,
    pub p_work_range: WorkRange,
    pub t_work_range: WorkRange,
    pub tcpu_work_range: WorkRange,
    pub bat_work_range: WorkRange,
    pub calibration_date: CalibrationDate,
    pub p_zero_correction: u32,
    pub t_zero_correction: u32,
    pub write_config: WriteConfig,
    pub start_delay: u32,
    pub pressure_meassure_units: i32,
    pub password: Seq<u8>,
}

impl View for Settings {
    type V = SettingsView;

    open spec fn view(&self) -> SettingsView {
        SettingsView {
            serial: self.serial,
            p_mesure_time_ms: self.p_mesure_time_ms,
            t_mesure_time_ms: self.t_mesure_time_ms,
            fref: self.fref,
            p_enabled: self.p_enabled,
            t_enabled: self.t_enabled,
            tcpu_enabled: self.tcpu_enabled,
            v_bat_enabled: self.v_bat_enabled,
            p_coefficients: self.p_coefficients@,
            t_coefficients: self.t_coefficients@,
            p_work_range: self.p_work_range,
            t_work_range: self.t_work_range,
            tcpu_work_range: self.tcpu_work_range,
            bat_work_range: self.bat_work_range,
            calibration_date: self.calibration_date,
            p_zero_correction: self.p_zero_correction,
            t_zero_correction: self.t_zero_correction,
            write_config: self.write_config,
            start_delay: self.start_delay,
            pressure_meassure_units: self.pressure_meassure_units,
            password: self.password@,
        }
    }
}

impl SettingsView {
    /// Coefficient tables and the password have their fixed sizes.
    pub open spec fn wf(&self) -> bool {
        &&& self.p_coefficients.a.len() == P_COEFFS_COUNT
        &&& self.t_coefficients.c.len() == T_COEFFS_COUNT
        &&& self.password.len() == PASSWORD_SIZE
    }
}

/// Settings that live only until reset: the password the client presented.
pub struct Session {
    pub current_password: Vec<u8>,
}

impl Session {
    pub open spec fn wf(&self) -> bool {
        self.current_password@.len() == PASSWORD_SIZE
    }
}

/// Requested changes of the pressure polynomial.
pub struct PCoefficientsReq {
    pub fp0: Option<u32>,
    pub ft0: Option<u32>,
    pub a: Vec<Option<u32>>,
}

pub struct PCoefficientsReqView {
    pub fp0: Option<u32>,
    pub ft0: Option<u32>,
    pub a: Seq<Option<u32>>,
}

impl View for PCoefficientsReq {
    type V = PCoefficientsReqView;

    open spec fn view(&self) -> PCoefficientsReqView {
        PCoefficientsReqView { fp0: self.fp0, ft0: self.ft0, a: self.a@ }
    }
}

/// Requested changes of the temperature polynomial.
pub struct TCoefficientsReq {
    pub f0: Option<u32>,
    pub t0: Option<u32>,
    pub c: Vec<Option<u32>>,
}

pub struct TCoefficientsReqView {
    pub f0: Option<u32>,
    pub t0: Option<u32>,
    pub c: Seq<Option<u32>>,
}

impl View for TCoefficientsReq {
    type V = TCoefficientsReqView;

    open spec fn view(&self) -> TCoefficientsReqView {
        TCoefficientsReqView { f0: self.f0, t0: self.t0, c: self.c@ }
    }
}

/// Requested bounds of a measured value, with the outcomes of comparing the
/// given bounds as floats (each is `false` where a bound it names is not
/// given).
#[derive(Clone, Copy, PartialEq, Eq, Structural, Debug)]
pub struct WorkRangeReq {
    pub minimum: Option<u32>,
    pub maximum: Option<u32>,
    pub absolute_maximum: Option<u32>,
    /// `absolute_maximum < maximum`
    pub absolute_below_maximum: bool,
    /// `absolute_maximum < minimum`
    pub absolute_below_minimum: bool,
    /// `maximum < minimum`
    pub maximum_below_minimum: bool,
}

/// What is wrong with a requested work range.
#[derive(Clone, Copy, PartialEq, Eq, Structural, Debug)]
pub enum WorkRangeError {
    MinimumAboveMaximum,
    MinimumAboveAbsoluteMaximum,
    MaximumAboveAbasoluteMaximum,
}

impl WorkRangeReq {
    /// Whether any bound is given.
    pub open spec fn any_given(&self) -> bool {
        self.minimum is Some || self.maximum is Some || self.absolute_maximum is Some
    }

    pub open spec fn validate_spec(&self) -> Result<(), WorkRangeError> {
        if self.absolute_maximum is Some && self.maximum is Some && self.absolute_below_maximum {
            Err(WorkRangeError::MaximumAboveAbasoluteMaximum)
        } else if self.absolute_maximum is Some && self.minimum is Some
            && self.absolute_below_minimum {
            Err(WorkRangeError::MinimumAboveMaximum)
        } else if self.maximum is Some && self.minimum is Some && self.maximum_below_minimum {
            Err(WorkRangeError::MinimumAboveMaximum)
        } else {
            Ok(())
        }
    }

    /// Checks the order of the given bounds: the absolute maximum is not
    /// below the maximum, nor below the minimum, and the maximum is not below
    /// the minimum. The second failure is reported as
    /// `MinimumAboveMaximum` too.
    pub fn validate(&self) -> (r: Result<(), WorkRangeError>)
        ensures
            r == self.validate_spec(),
    {
        if self.absolute_maximum.is_some() {
            if self.maximum.is_some() && self.absolute_below_maximum {
                return Err(WorkRangeError::MaximumAboveAbasoluteMaximum);
            }
            if self.minimum.is_some() && self.absolute_below_minimum {
                return Err(WorkRangeError::MinimumAboveMaximum);
            }
        }
        if self.maximum.is_some() && self.minimum.is_some() && self.maximum_below_minimum {
            return Err(WorkRangeError::MinimumAboveMaximum);
        }
        Ok(())
    }
}

/// The date the firmware was built, before which no calibration can be.
#[derive(Clone, Copy, PartialEq, Eq, Structural, Debug)]
pub struct BuildDate {
    pub year: u32,
    pub month: u32,
    pub day: u32,
}

/// Which field of a requested calibration date is wrong.
#[derive(Clone, Copy, PartialEq, Eq, Structural, Debug)]
pub enum DateField {
    Day,
    Month,
    Past,
}

/// A requested calibration date.
#[derive(Clone, Copy, PartialEq, Eq, Structural, Debug)]
pub struct CalibrationDateReq {
    pub day: Option<u32>,
    pub month: Option<u32>,
    pub year: Option<u32>,
}

impl CalibrationDateReq {
    pub open spec fn validate_spec(&self, build: BuildDate) -> Result<(), DateField> {
        if self.day matches Some(d) && d > 31 {
            Err(DateField::Day)
        } else if self.month matches Some(m) && (m > 12 || m < 1) {
            Err(DateField::Month)
        } else if self.year matches Some(y) && y < build.year {
            Err(DateField::Past)
        } else if self.year is Some && self.day is Some && self.month is Some && (
        self.month->0 < build.month || (self.month->0 == build.month && self.day->0
            < build.day)) {
            Err(DateField::Past)
        } else {
            Ok(())
        }
    }

    /// Checks a requested date: a day above 31, a month outside 1..=12, and
    /// a date before the build are refused. The month and day are held
    /// against the build's only where year, month and day are all given.
    pub fn validate(&self, build: BuildDate) -> (r: Result<(), DateField>)
        ensures
            r == self.validate_spec(build),
    {
        if let Some(d) = self.day {
            if d > 31 {
                return Err(DateField::Day);
            }
        }
        if let Some(m) = self.month {
            if m > 12 || m < 1 {
                return Err(DateField::Month);
            }
        }
        if let Some(y) = self.year {
            if y < build.year {
                return Err(DateField::Past);
            }
            if let (Some(d), Some(m)) = (self.day, self.month) {
                if m < build.month {
                    return Err(DateField::Past);
                } else if m == build.month && d < build.day {
                    return Err(DateField::Past);
                }
            }
        }
        Ok(())
    }
}

/// Requested changes of the write configuration.
#[derive(Clone, Copy, PartialEq, Eq, Structural, Debug)]
pub struct WriteConfigReq {
    pub base_interval_ms: Option<u32>,
    pub p_write_devider: Option<u32>,
    pub t_write_devider: Option<u32>,
}

/// Position of the first zero byte among the first `max` bytes of `s`, or
/// `max` where there is none among them.
pub open spec fn strlenn_spec(s: Seq<u8>, max: nat) -> nat {
    let scan = if s.len() < max { s.len() } else { max };
    if exists|i: int| 0 <= i < scan && s[i] == 0 {
        (choose|i: int| 0 <= i < scan && s[i] == 0 && forall|j: int| 0 <= j < i ==> s[j] != 0) as nat
    } else {
        max
    }
}

/// Length of the zero-terminated text in `s`, looking at no more than `max`
/// bytes; `max` where no zero byte is found there.
pub fn strlenn(s: &[u8], max: usize) -> (n: usize)
    ensures
        n == max || (n < s.len() && n < max && s@[n as int] == 0),
        forall|j: int| 0 <= j < n && j < s.len() ==> s@[j] != 0,
        n == strlenn_spec(s@, max as nat),
{
    let max_scan = if s.len() < max {
        s.len()
    } else {
        max
    };
    let mut i: usize = 0;
    while i < max_scan
        invariant
            max_scan <= s.len(),
            max_scan <= max,
            max_scan == (if s.len() < max { s.len() } else { max }),
            i <= max_scan,
            forall|j: int| 0 <= j < i ==> s@[j] != 0,
        decreases max_scan - i,
    {
        if s[i] == 0 {
            proof {
                let scan = max_scan as int;
                assert(0 <= i < scan && s@[i as int] == 0);
                let k = choose|k: int|
                    0 <= k < scan && s@[k] == 0 && forall|j: int| 0 <= j < k ==> s@[j] != 0;
                assert(0 <= k < scan && s@[k] == 0 && forall|j: int| 0 <= j < k ==> s@[j] != 0);
                if k < i {
                    assert(s@[k] != 0);
                }
                if k > i {
                    assert(s@[i as int] != 0);
                }
            }
            return i;
        }
        i = i + 1;
    }
    assert(!exists|k: int| 0 <= k < max_scan && s@[k] == 0);
    max
}

/// Number of 8-byte words that hold `len` bytes.
pub fn len_in_u64_aligned(len: usize) -> (n: usize)
    ensures
        n == (len + 7) / 8,
        n * 8 >= len,
        n * 8 < len + 8,
{
    if len % 8 != 0 {
        len / 8 + 1
    } else {
        len / 8
    }
}

/// Offset, from the page start, of the checksum stored after `len` bytes of
/// settings.
pub fn crc_slot_offset(len: usize) -> (off: usize)
    requires
        len + 8 <= usize::MAX,
    ensures
        off == ((len + 7) / 8) * 8,
{
    len_in_u64_aligned(len) * 8
}

/// The checksum word stored after the settings: their CRC-32, widened to
/// 64 bits.
pub open spec fn crc_word_spec(crc: u32) -> u64 {
    crc as u64
}

/// Settings read back are consistent when the checksum word stored after
/// them is the checksum word of the CRC-32 of the bytes read.
pub open spec fn loaded_consistent(stored: u64, computed: u32) -> bool {
    stored == crc_word_spec(computed)
}

/// The checksum word to store after settings whose CRC-32 is `crc`.
pub fn stored_crc_word(crc: u32) -> (w: u64)
    ensures
        w == crc_word_spec(crc),
{
    crc as u64
}

/// Stored settings read back are inconsistent.
#[derive(Clone, Copy, PartialEq, Eq, Structural, Debug)]
pub enum SettingsLoadError {
    Inconsistent,
}

/// Settings read back are accepted exactly when they are consistent.
pub fn check_loaded_crc(stored: u64, computed: u32) -> (r: Result<(), SettingsLoadError>)
    ensures
        r == if loaded_consistent(stored, computed) {
            Ok::<(), SettingsLoadError>(())
        } else {
            Err(SettingsLoadError::Inconsistent)
        },
{
    if stored != computed as u64 {
        Err(SettingsLoadError::Inconsistent)
    } else {
        Ok(())
    }
}

/// What is stored loads again: the checksum word written for bytes with
/// CRC-32 `crc` is accepted when the bytes read back have that CRC, and
/// refused when they have another.
pub proof fn law_stored_checksum_loads(crc: u32, read_crc: u32)
    ensures
        loaded_consistent(crc_word_spec(crc), read_crc) <==> read_crc == crc,
{
}

/// Index of the flash page that starts at `addr`, counted from `page0`.
pub fn settings_page(addr: usize, page0: usize, page_size: usize) -> (page: usize)
    requires
        addr > page0,
        page_size > 0,
        addr % page_size == 0,
    ensures
        page == (addr - page0) / (page_size as int),
{
    (addr - page0) / page_size
}

/// Room reserved in flash for stored settings followed by their checksum.
pub struct Placeholder<T> {
    pub body: T,
    pub crc: u64,
}


/// A settings request: each field that is given asks for that setting to
/// change.
pub struct SettingsRequest {
    pub set_serial: Option<u32>,
    pub set_p_mesure_time_ms: Option<u32>,
    pub set_t_mesure_time_ms: Option<u32>,
    pub set_fref: Option<u32>,
    pub set_p_enabled: Option<bool>,
    pub set_t_enabled: Option<bool>,
    pub set_tcpu_enabled: Option<bool>,
    pub set_v_bat_enable: Option<bool>,
    pub set_p_coefficients: Option<PCoefficientsReq>,
    pub set_t_coefficients: Option<TCoefficientsReq>,
    pub set_p_work_range: Option<WorkRangeReq>,
    pub set_t_work_range: Option<WorkRangeReq>,
    pub set_tcpu_work_range: Option<WorkRangeReq>,
    pub set_bat_work_range: Option<WorkRangeReq>,
    pub set_calibration_date: Option<CalibrationDateReq>,
    pub set_p_zero_correction: Option<u32>,
    pub set_t_zero_correction: Option<u32>,
    pub set_write_config: Option<WriteConfigReq>,
    pub set_start_delay: Option<u32>,
    pub set_pressure_meassure_units: Option<i32>,
    pub set_password: Option<Vec<u8>>,
}

pub struct SettingsRequestView {
    pub set_serial: Option<u32>,
    pub set_p_mesure_time_ms: Option<u32>,
    pub set_t_mesure_time_ms: Option<u32>,
    pub set_fref: Option<u32>,
    pub set_p_enabled: Option<bool>,
    pub set_t_enabled: Option<bool>,
    pub set_tcpu_enabled: Option<bool>,
    pub set_v_bat_enable: Option<bool>,
    pub set_p_coefficients: Option<PCoefficientsReqView>,
    pub set_t_coefficients: Option<TCoefficientsReqView>,
    pub set_p_work_range: Option<WorkRangeReq>,
    pub set_t_work_range: Option<WorkRangeReq>,
    pub set_tcpu_work_range: Option<WorkRangeReq>,
    pub set_bat_work_range: Option<WorkRangeReq>,
    pub set_calibration_date: Option<CalibrationDateReq>,
    pub set_p_zero_correction: Option<u32>,
    pub set_t_zero_correction: Option<u32>,
    pub set_write_config: Option<WriteConfigReq>,
    pub set_start_delay: Option<u32>,
    pub set_pressure_meassure_units: Option<i32>,
    pub set_password: Option<Seq<u8>>,
}

pub open spec fn opt_p_req(o: Option<PCoefficientsReq>) -> Option<PCoefficientsReqView> {
    match o {
        Some(c) => Some(c@),
        None => None,
    }
}

pub open spec fn opt_t_req(o: Option<TCoefficientsReq>) -> Option<TCoefficientsReqView> {
    match o {
        Some(c) => Some(c@),
        None => None,
    }
}

pub open spec fn opt_bytes(o: Option<Vec<u8>>) -> Option<Seq<u8>> {
    match o {
        Some(v) => Some(v@),
        None => None,
    }
}

impl View for SettingsRequest {
    type V = SettingsRequestView;

    open spec fn view(&self) -> SettingsRequestView {
        SettingsRequestView {
            set_serial: self.set_serial,
            set_p_mesure_time_ms: self.set_p_mesure_time_ms,
            set_t_mesure_time_ms: self.set_t_mesure_time_ms,
            set_fref: self.set_fref,
            set_p_enabled: self.set_p_enabled,
            set_t_enabled: self.set_t_enabled,
            set_tcpu_enabled: self.set_tcpu_enabled,
            set_v_bat_enable: self.set_v_bat_enable,
            set_p_coefficients: opt_p_req(self.set_p_coefficients),
            set_t_coefficients: opt_t_req(self.set_t_coefficients),
            set_p_work_range: self.set_p_work_range,
            set_t_work_range: self.set_t_work_range,
            set_tcpu_work_range: self.set_tcpu_work_range,
            set_bat_work_range: self.set_bat_work_range,
            set_calibration_date: self.set_calibration_date,
            set_p_zero_correction: self.set_p_zero_correction,
            set_t_zero_correction: self.set_t_zero_correction,
            set_write_config: self.set_write_config,
            set_start_delay: self.set_start_delay,
            set_pressure_meassure_units: self.set_pressure_meassure_units,
            set_password: opt_bytes(self.set_password),
        }
    }
}

impl SettingsRequestView {
    /// Coefficient tables that are given have their fixed sizes.
    pub open spec fn wf(&self) -> bool {
        &&& (self.set_p_coefficients matches Some(c) ==> c.a.len() == P_COEFFS_COUNT)
        &&& (self.set_t_coefficients matches Some(c) ==> c.c.len() == T_COEFFS_COUNT)
    }
}

/// Allowed measurement times, ms.
#[derive(Clone, Copy, PartialEq, Eq, Structural, Debug)]
pub struct MeasureTimeLimits {
    pub min: u32,
    pub max: u32,
}

pub open spec fn some_given(s: Seq<Option<u32>>) -> bool {
    exists|i: int| 0 <= i < s.len() && s[i] is Some
}

pub open spec fn p_coeffs_given(c: PCoefficientsReqView) -> bool {
    c.fp0 is Some || c.ft0 is Some || some_given(c.a)
}

pub open spec fn t_coeffs_given(c: TCoefficientsReqView) -> bool {
    c.f0 is Some || c.t0 is Some || some_given(c.c)
}

/// Whether `code` names a pressure unit.
pub open spec fn valid_pressure_unit(code: i32) -> bool {
    code == PRESSURE_UNIT_PA || code == PRESSURE_UNIT_BAR || code == PRESSURE_UNIT_AT
        || code == PRESSURE_UNIT_MM_H2O || code == PRESSURE_UNIT_M_HG || code
        == PRESSURE_UNIT_ATM || code == PRESSURE_UNIT_PSI
}

/// The pressure unit codes of the protocol: Pa, bar, at, mmH2O, mHg, atm
/// and psi, written out.
pub open spec fn protocol_unit_code(code: i32) -> bool {
    code == 2228224 || code == 5111808 || code == 10551296 || code == 10616832 || code == 10682368
        || code == 10747904 || code == 11206656
}

/// A requested pressure unit is accepted exactly when it is one of the
/// protocol's seven unit codes; any other code is refused with the message
/// naming it.
pub proof fn law_unit_codes_accepted(code: i32)
    ensures
        units_problem(Some(code)) is None <==> protocol_unit_code(code),
        !protocol_unit_code(code) ==> units_problem(Some(code)) == Some(units_message(code)),
        units_problem(None) is None,
{
}

/// A request that gives only a pressure unit (and perhaps a password to
/// present) is accepted exactly when the unit is one of the protocol's
/// codes, whatever password was presented.
pub proof fn law_unit_only_request(
    r: SettingsRequestView,
    password_invalid: bool,
    lim: MeasureTimeLimits,
    build: BuildDate,
    code: i32,
)
    requires
        r == (SettingsRequestView {
            set_serial: None,
            set_p_mesure_time_ms: None,
            set_t_mesure_time_ms: None,
            set_fref: None,
            set_p_enabled: None,
            set_t_enabled: None,
            set_tcpu_enabled: None,
            set_v_bat_enable: None,
            set_p_coefficients: None,
            set_t_coefficients: None,
            set_p_work_range: None,
            set_t_work_range: None,
            set_tcpu_work_range: None,
            set_bat_work_range: None,
            set_calibration_date: None,
            set_p_zero_correction: None,
            set_t_zero_correction: None,
            set_write_config: None,
            set_start_delay: None,
            set_pressure_meassure_units: Some(code),
            set_password: r.set_password,
        }),
    ensures
        request_problem(r, password_invalid, lim, build) is None <==> protocol_unit_code(code),
{
}

/// A measurement time, if given, lies within the limits.
pub open spec fn time_in_limits(o: Option<u32>, lim: MeasureTimeLimits) -> bool {
    o matches Some(v) ==> lim.min <= v && v <= lim.max
}

/// The bounds a range request gives are in order: the absolute maximum is
/// below neither the maximum nor the minimum, and the maximum is not below
/// the minimum (each as the request's own comparison says).
pub open spec fn bounds_in_order(w: WorkRangeReq) -> bool {
    &&& !(w.absolute_maximum is Some && w.maximum is Some && w.absolute_below_maximum)
    &&& !(w.absolute_maximum is Some && w.minimum is Some && w.absolute_below_minimum)
    &&& !(w.maximum is Some && w.minimum is Some && w.maximum_below_minimum)
}

/// A range request, where it gives a bound, gives its bounds in order.
pub open spec fn range_acceptable(o: Option<WorkRangeReq>) -> bool {
    match o {
        Some(w) => w.any_given() ==> bounds_in_order(w),
        None => true,
    }
}

/// A calibration date request names a possible date not before the build:
/// day at most 31, month 1 to 12, year not before the build's; with year,
/// month and day all given, month and day not before the build's.
pub open spec fn date_acceptable(d: CalibrationDateReq, build: BuildDate) -> bool {
    &&& (d.day matches Some(x) ==> x <= 31)
    &&& (d.month matches Some(m) ==> 1 <= m && m <= 12)
    &&& (d.year matches Some(y) ==> y >= build.year)
    &&& (d.year is Some && d.month is Some && d.day is Some ==> !(d.month->0 < build.month || (
    d.month->0 == build.month && d.day->0 < build.day)))
}

/// A request changes something that needs the stored password.
pub open spec fn needs_password(r: SettingsRequestView) -> bool {
    ||| r.set_serial is Some
    ||| r.set_fref is Some
    ||| (r.set_p_coefficients matches Some(c) && p_coeffs_given(c))
    ||| (r.set_t_coefficients matches Some(c) && t_coeffs_given(c))
    ||| range_given(r.set_p_work_range)
    ||| range_given(r.set_t_work_range)
    ||| range_given(r.set_tcpu_work_range)
    ||| range_given(r.set_bat_work_range)
}

/// A settings request is accepted exactly when every value it gives is
/// acceptable and, if the presented password is not the stored one, it
/// changes nothing that needs the password: the measurement times lie
/// within the limits, the reference frequency within 500 Hz of 16 MHz, the
/// bounds of each work range are in order, the calibration date is
/// possible and not before the build, the write base period is at least
/// the smallest measurement time and no write divider is zero, and the
/// pressure unit is one of the protocol's codes.
pub proof fn law_request_accepted_when_values_acceptable(
    r: SettingsRequestView,
    password_invalid: bool,
    lim: MeasureTimeLimits,
    build: BuildDate,
)
    ensures
        request_problem(r, password_invalid, lim, build) is None <==> {
            &&& (password_invalid ==> !needs_password(r))
            &&& time_in_limits(r.set_p_mesure_time_ms, lim)
            &&& time_in_limits(r.set_t_mesure_time_ms, lim)
            &&& (r.set_fref matches Some(f) ==> 15_999_500 <= f && f <= 16_000_500)
            &&& range_acceptable(r.set_p_work_range)
            &&& range_acceptable(r.set_t_work_range)
            &&& range_acceptable(r.set_tcpu_work_range)
            &&& range_acceptable(r.set_bat_work_range)
            &&& (r.set_calibration_date matches Some(d) ==> date_acceptable(d, build))
            &&& (r.set_write_config matches Some(w) ==> {
                &&& (w.base_interval_ms matches Some(b) ==> b >= lim.min)
                &&& w.p_write_devider != Some(0u32)
                &&& w.t_write_devider != Some(0u32)
            })
            &&& (r.set_pressure_meassure_units matches Some(u) ==> protocol_unit_code(u))
        },
{
}

pub open spec fn work_range_error_name(e: WorkRangeError) -> Seq<char> {
    match e {
        WorkRangeError::MinimumAboveMaximum => "MinimumAboveMaximum"@,
        WorkRangeError::MinimumAboveAbsoluteMaximum => "MinimumAboveAbsoluteMaximum"@,
        WorkRangeError::MaximumAboveAbasoluteMaximum => "MaximumAboveAbasoluteMaximum"@,
    }
}

pub open spec fn date_field_name(f: DateField) -> Seq<char> {
    match f {
        DateField::Day => "Day"@,
        DateField::Month => "Month"@,
        DateField::Past => "Past"@,
    }
}

pub open spec fn deny_message(name: Seq<char>) -> Seq<char> {
    "Change "@ + name + ", invalid password"@
}

pub open spec fn time_message(what: Seq<char>, v: u32, lim: MeasureTimeLimits) -> Seq<char> {
    what + " measure time "@ + decimal(v as nat) + " is out of range "@ + decimal(lim.min as nat)
        + " - "@ + decimal(lim.max as nat)
}

pub open spec fn fref_message(v: u32) -> Seq<char> {
    "Reference frequency "@ + decimal(v as nat) + " is too different from base "@ + decimal(
        XTAL_FREQ as nat,
    ) + " +/- "@ + decimal(F_REF_DELTA as nat)
}

pub open spec fn work_range_message(name: Seq<char>, e: WorkRangeError) -> Seq<char> {
    name + " invalid: "@ + work_range_error_name(e)
}

pub open spec fn date_message(f: DateField) -> Seq<char> {
    "Calibration date field "@ + date_field_name(f) + " invalid"@
}

pub open spec fn base_period_message(b: u32, lim: MeasureTimeLimits) -> Seq<char> {
    "Write base period "@ + decimal(b as nat) + " too small, min= "@ + decimal(lim.min as nat)
}

pub open spec fn units_message(u: i32) -> Seq<char> {
    "Value "@ + signed_decimal(u as int) + " is not a valid pressure measure unit code."@
}

pub open spec fn first_of(a: Option<Seq<char>>, b: Option<Seq<char>>) -> Option<Seq<char>> {
    if a is Some {
        a
    } else {
        b
    }
}

pub open spec fn password_problem(password_invalid: bool, name: Seq<char>) -> Option<Seq<char>> {
    if password_invalid {
        Some(deny_message(name))
    } else {
        None
    }
}

pub open spec fn time_problem(o: Option<u32>, what: Seq<char>, lim: MeasureTimeLimits) -> Option<
    Seq<char>,
> {
    match o {
        Some(v) => if v > lim.max || v < lim.min {
            Some(time_message(what, v, lim))
        } else {
            None
        },
        None => None,
    }
}

pub open spec fn fref_problem(o: Option<u32>, password_invalid: bool) -> Option<Seq<char>> {
    match o {
        Some(v) => first_of(
            password_problem(password_invalid, "Fref"@),
            if v > XTAL_FREQ + F_REF_DELTA || v < XTAL_FREQ - F_REF_DELTA {
                Some(fref_message(v))
            } else {
                None
            },
        ),
        None => None,
    }
}

pub open spec fn work_range_problem(
    o: Option<WorkRangeReq>,
    password_invalid: bool,
    deny_name: Seq<char>,
    name: Seq<char>,
) -> Option<Seq<char>> {
    match o {
        Some(w) => if w.any_given() {
            first_of(
                password_problem(password_invalid, deny_name),
                match w.validate_spec() {
                    Err(e) => Some(work_range_message(name, e)),
                    Ok(_) => None,
                },
            )
        } else {
            None
        },
        None => None,
    }
}

pub open spec fn date_problem(o: Option<CalibrationDateReq>, build: BuildDate) -> Option<
    Seq<char>,
> {
    match o {
        Some(d) => match d.validate_spec(build) {
            Err(f) => Some(date_message(f)),
            Ok(_) => None,
        },
        None => None,
    }
}

pub open spec fn write_config_problem(o: Option<WriteConfigReq>, lim: MeasureTimeLimits) -> Option<
    Seq<char>,
> {
    match o {
        Some(wc) => if wc.base_interval_ms matches Some(b) && b < lim.min {
            Some(base_period_message(wc.base_interval_ms->0, lim))
        } else if wc.p_write_devider == Some(0u32) {
            Some("P write devider == 0"@)
        } else if wc.t_write_devider == Some(0u32) {
            Some("T write devider == 0"@)
        } else {
            None
        },
        None => None,
    }
}

pub open spec fn units_problem(o: Option<i32>) -> Option<Seq<char>> {
    match o {
        Some(u) => if valid_pressure_unit(u) {
            None
        } else {
            Some(units_message(u))
        },
        None => None,
    }
}

/// The first thing wrong with a request, in the order the device checks:
/// each change that needs the password is refused when the presented
/// password is not the stored one; values out of their ranges are refused.
pub open spec fn request_problem(
    r: SettingsRequestView,
    password_invalid: bool,
    lim: MeasureTimeLimits,
    build: BuildDate,
) -> Option<Seq<char>> {
    first_of(
        if r.set_serial is Some {
            password_problem(password_invalid, "Serial"@)
        } else {
            None
        },
        first_of(
            time_problem(r.set_p_mesure_time_ms, "Pressure"@, lim),
            first_of(
                time_problem(r.set_t_mesure_time_ms, "Temperature"@, lim),
                first_of(
                    fref_problem(r.set_fref, password_invalid),
                    first_of(
                        if r.set_p_coefficients matches Some(c) && p_coeffs_given(c) {
                            password_problem(password_invalid, "PCoefficients"@)
                        } else {
                            None
                        },
                        first_of(
                            if r.set_t_coefficients matches Some(c) && t_coeffs_given(c) {
                                password_problem(password_invalid, "TCoefficients"@)
                            } else {
                                None
                            },
                            request_problem_ranges(r, password_invalid, lim, build),
                        ),
                    ),
                ),
            ),
        ),
    )
}

pub open spec fn request_problem_ranges(
    r: SettingsRequestView,
    password_invalid: bool,
    lim: MeasureTimeLimits,
    build: BuildDate,
) -> Option<Seq<char>> {
    first_of(
        work_range_problem(r.set_p_work_range, password_invalid, "PWorkRange"@, "PWorkRange"@),
        first_of(
            work_range_problem(r.set_t_work_range, password_invalid, "TWorkRange"@, "TWorkRange"@),
            first_of(
                work_range_problem(
                    r.set_tcpu_work_range,
                    password_invalid,
                    "TWorkRange"@,
                    "TCPUWorkRange"@,
                ),
                first_of(
                    work_range_problem(
                        r.set_bat_work_range,
                        password_invalid,
                        "TWorkRange"@,
                        "BatWorkRange"@,
                    ),
                    first_of(
                        date_problem(r.set_calibration_date, build),
                        first_of(
                            write_config_problem(r.set_write_config, lim),
                            units_problem(r.set_pressure_meassure_units),
                        ),
                    ),
                ),
            ),
        ),
    )
}

/// Whether two byte strings are equal.
pub fn bytes_equal(a: &[u8], b: &[u8]) -> (r: bool)
    ensures
        r == (a@ == b@),
{
    if a.len() != b.len() {
        return false;
    }
    let mut i: usize = 0;
    while i < a.len()
        invariant
            a.len() == b.len(),
            i <= a.len(),
            forall|j: int| 0 <= j < i ==> a@[j] == b@[j],
        decreases a.len() - i,
    {
        if a[i] != b[i] {
            return false;
        }
        i = i + 1;
    }
    assert(a@ =~= b@);
    true
}

/// Whether some entry of `s` is given.
pub fn any_given(s: &[Option<u32>]) -> (r: bool)
    ensures
        r == some_given(s@),
{
    let mut i: usize = 0;
    while i < s.len()
        invariant
            i <= s.len(),
            forall|j: int| 0 <= j < i ==> s@[j] is None,
        decreases s.len() - i,
    {
        if s[i].is_some() {
            return true;
        }
        i = i + 1;
    }
    false
}

/// Whether `code` names a pressure unit.
pub fn is_valid_pressure_unit(code: i32) -> (r: bool)
    ensures
        r == valid_pressure_unit(code),
{
    code == PRESSURE_UNIT_PA || code == PRESSURE_UNIT_BAR || code == PRESSURE_UNIT_AT || code
        == PRESSURE_UNIT_MM_H2O || code == PRESSURE_UNIT_M_HG || code == PRESSURE_UNIT_ATM
        || code == PRESSURE_UNIT_PSI
}

fn cat(a: Vec<char>, b: Vec<char>) -> (r: Vec<char>)
    ensures
        r@ == a@ + b@,
{
    concat_chars(a.as_slice(), b.as_slice())
}

fn deny(password_invalid: bool, name: &str) -> (r: Option<Vec<char>>)
    ensures
        match r {
            Some(m) => password_problem(password_invalid, name@) == Some(m@),
            None => password_problem(password_invalid, name@) is None,
        },
{
    if password_invalid {
        Some(cat(cat(str_chars("Change "), str_chars(name)), str_chars(", invalid password")))
    } else {
        None
    }
}

fn check_time(o: Option<u32>, what: &str, lim: MeasureTimeLimits) -> (r: Option<Vec<char>>)
    ensures
        match r {
            Some(m) => time_problem(o, what@, lim) == Some(m@),
            None => time_problem(o, what@, lim) is None,
        },
{
    if let Some(v) = o {
        if v > lim.max || v < lim.min {
            let m = cat(
                cat(
                    cat(
                        cat(
                            cat(cat(str_chars(what), str_chars(" measure time ")), u32_to_decimal(v)),
                            str_chars(" is out of range "),
                        ),
                        u32_to_decimal(lim.min),
                    ),
                    str_chars(" - "),
                ),
                u32_to_decimal(lim.max),
            );
            return Some(m);
        }
    }
    None
}

fn check_fref(o: Option<u32>, password_invalid: bool) -> (r: Option<Vec<char>>)
    ensures
        match r {
            Some(m) => fref_problem(o, password_invalid) == Some(m@),
            None => fref_problem(o, password_invalid) is None,
        },
{
    if let Some(v) = o {
        let d = deny(password_invalid, "Fref");
        if d.is_some() {
            return d;
        }
        if v > XTAL_FREQ + F_REF_DELTA || v < XTAL_FREQ - F_REF_DELTA {
            let m = cat(
                cat(
                    cat(
                        cat(
                            cat(str_chars("Reference frequency "), u32_to_decimal(v)),
                            str_chars(" is too different from base "),
                        ),
                        u32_to_decimal(XTAL_FREQ),
                    ),
                    str_chars(" +/- "),
                ),
                u32_to_decimal(F_REF_DELTA),
            );
            return Some(m);
        }
    }
    None
}

fn work_range_error_text(e: WorkRangeError) -> (r: Vec<char>)
    ensures
        r@ == work_range_error_name(e),
{
    match e {
        WorkRangeError::MinimumAboveMaximum => str_chars("MinimumAboveMaximum"),
        WorkRangeError::MinimumAboveAbsoluteMaximum => str_chars("MinimumAboveAbsoluteMaximum"),
        WorkRangeError::MaximumAboveAbasoluteMaximum => str_chars("MaximumAboveAbasoluteMaximum"),
    }
}

fn date_field_text(f: DateField) -> (r: Vec<char>)
    ensures
        r@ == date_field_name(f),
{
    match f {
        DateField::Day => str_chars("Day"),
        DateField::Month => str_chars("Month"),
        DateField::Past => str_chars("Past"),
    }
}

fn check_work_range(
    o: Option<WorkRangeReq>,
    password_invalid: bool,
    deny_name: &str,
    name: &str,
) -> (r: Option<Vec<char>>)
    ensures
        match r {
            Some(m) => work_range_problem(o, password_invalid, deny_name@, name@) == Some(m@),
            None => work_range_problem(o, password_invalid, deny_name@, name@) is None,
        },
{
    if let Some(w) = o {
        if w.minimum.is_some() || w.maximum.is_some() || w.absolute_maximum.is_some() {
            let d = deny(password_invalid, deny_name);
            if d.is_some() {
                return d;
            }
            if let Err(e) = w.validate() {
                return Some(cat(cat(str_chars(name), str_chars(" invalid: ")), work_range_error_text(e)));
            }
        }
    }
    None
}

fn check_date(o: Option<CalibrationDateReq>, build: BuildDate) -> (r: Option<Vec<char>>)
    ensures
        match r {
            Some(m) => date_problem(o, build) == Some(m@),
            None => date_problem(o, build) is None,
        },
{
    if let Some(d) = o {
        if let Err(f) = d.validate(build) {
            return Some(
                cat(cat(str_chars("Calibration date field "), date_field_text(f)), str_chars(" invalid")),
            );
        }
    }
    None
}

fn check_write_config(o: Option<WriteConfigReq>, lim: MeasureTimeLimits) -> (r: Option<Vec<char>>)
    ensures
        match r {
            Some(m) => write_config_problem(o, lim) == Some(m@),
            None => write_config_problem(o, lim) is None,
        },
{
    if let Some(wc) = o {
        if let Some(b) = wc.base_interval_ms {
            if b < lim.min {
                return Some(
                    cat(
                        cat(cat(str_chars("Write base period "), u32_to_decimal(b)), str_chars(" too small, min= ")),
                        u32_to_decimal(lim.min),
                    ),
                );
            }
        }
        if let Some(p) = wc.p_write_devider {
            if p == 0 {
                return Some(str_chars("P write devider == 0"));
            }
        }
        if let Some(t) = wc.t_write_devider {
            if t == 0 {
                return Some(str_chars("T write devider == 0"));
            }
        }
    }
    None
}

fn check_units(o: Option<i32>) -> (r: Option<Vec<char>>)
    ensures
        match r {
            Some(m) => units_problem(o) == Some(m@),
            None => units_problem(o) is None,
        },
{
    if let Some(u) = o {
        if !is_valid_pressure_unit(u) {
            return Some(
                cat(cat(str_chars("Value "), i32_to_decimal(u)), str_chars(" is not a valid pressure measure unit code.")),
            );
        }
    }
    None
}


/// Checks a settings request against the stored settings, the presented
/// password and the allowed ranges; the error is the text the device
/// answers with.
pub fn verify_parameters(
    req: &SettingsRequest,
    settings: &Settings,
    session: &Session,
    lim: MeasureTimeLimits,
    build: BuildDate,
) -> (r: Result<(), String>)
    ensures
        match r {
            Ok(_) => request_problem(
                req@,
                settings.password@ != session.current_password@,
                lim,
                build,
            ) is None,
            Err(m) => request_problem(
                req@,
                settings.password@ != session.current_password@,
                lim,
                build,
            ) == Some(m@),
        },
{
    let password_invalid = !bytes_equal(settings.password.as_slice(), session.current_password.as_slice());
    let mut problem: Option<Vec<char>> = None;
    if req.set_serial.is_some() {
        problem = deny(password_invalid, "Serial");
    }
    if problem.is_none() {
        problem = check_time(req.set_p_mesure_time_ms, "Pressure", lim);
    }
    if problem.is_none() {
        problem = check_time(req.set_t_mesure_time_ms, "Temperature", lim);
    }
    if problem.is_none() {
        problem = check_fref(req.set_fref, password_invalid);
    }
    if problem.is_none() {
        if let Some(c) = &req.set_p_coefficients {
            if c.fp0.is_some() || c.ft0.is_some() || any_given(c.a.as_slice()) {
                problem = deny(password_invalid, "PCoefficients");
            }
        }
    }
    if problem.is_none() {
        if let Some(c) = &req.set_t_coefficients {
            if c.f0.is_some() || c.t0.is_some() || any_given(c.c.as_slice()) {
                problem = deny(password_invalid, "TCoefficients");
            }
        }
    }
    if problem.is_none() {
        problem = check_work_range(req.set_p_work_range, password_invalid, "PWorkRange", "PWorkRange");
    }
    if problem.is_none() {
        problem = check_work_range(req.set_t_work_range, password_invalid, "TWorkRange", "TWorkRange");
    }
    if problem.is_none() {
        problem = check_work_range(req.set_tcpu_work_range, password_invalid, "TWorkRange", "TCPUWorkRange");
    }
    if problem.is_none() {
        problem = check_work_range(req.set_bat_work_range, password_invalid, "TWorkRange", "BatWorkRange");
    }
    if problem.is_none() {
        problem = check_date(req.set_calibration_date, build);
    }
    if problem.is_none() {
        problem = check_write_config(req.set_write_config, lim);
    }
    if problem.is_none() {
        problem = check_units(req.set_pressure_meassure_units);
    }
    match problem {
        Some(m) => Err(chars_to_string(m.as_slice())),
        None => Ok(()),
    }
}


pub open spec fn pick<T>(o: Option<T>, v: T) -> T {
    match o {
        Some(x) => x,
        None => v,
    }
}

/// Each entry replaced by the requested one where one is given.
pub open spec fn pick_each(o: Seq<Option<u32>>, v: Seq<u32>) -> Seq<u32> {
    Seq::new(v.len(), |i: int| pick(o[i], v[i]))
}

pub open spec fn applied_p(c: PCoefficientsView, o: Option<PCoefficientsReqView>) -> PCoefficientsView {
    match o {
        Some(r) => PCoefficientsView {
            fp0: pick(r.fp0, c.fp0),
            ft0: pick(r.ft0, c.ft0),
            a: pick_each(r.a, c.a),
        },
        None => c,
    }
}

pub open spec fn applied_t(c: TCoefficientsView, o: Option<TCoefficientsReqView>) -> TCoefficientsView {
    match o {
        Some(r) => TCoefficientsView {
            f0: pick(r.f0, c.f0),
            t0: pick(r.t0, c.t0),
            c: pick_each(r.c, c.c),
        },
        None => c,
    }
}

pub open spec fn applied_range(w: WorkRange, o: Option<WorkRangeReq>) -> WorkRange {
    match o {
        Some(r) => WorkRange {
            minimum: pick(r.minimum, w.minimum),
            maximum: pick(r.maximum, w.maximum),
            absolute_maximum: pick(r.absolute_maximum, w.absolute_maximum),
        },
        None => w,
    }
}

pub open spec fn applied_date(d: CalibrationDate, o: Option<CalibrationDateReq>) -> CalibrationDate {
    match o {
        Some(r) => CalibrationDate {
            day: pick(r.day, d.day),
            month: pick(r.month, d.month),
            year: pick(r.year, d.year),
        },
        None => d,
    }
}

pub open spec fn applied_write_config(w: WriteConfig, o: Option<WriteConfigReq>) -> WriteConfig {
    match o {
        Some(r) => WriteConfig {
            base_interval_ms: pick(r.base_interval_ms, w.base_interval_ms),
            p_write_devider: pick(r.p_write_devider, w.p_write_devider),
            t_write_devider: pick(r.t_write_devider, w.t_write_devider),
        },
        None => w,
    }
}

/// The stored settings after the request's changes: each given value
/// replaces the stored one; the stored password stays.
pub open spec fn applied(s: SettingsView, r: SettingsRequestView) -> SettingsView {
    SettingsView {
        serial: pick(r.set_serial, s.serial),
        p_mesure_time_ms: pick(r.set_p_mesure_time_ms, s.p_mesure_time_ms),
        t_mesure_time_ms: pick(r.set_t_mesure_time_ms, s.t_mesure_time_ms),
        fref: pick(r.set_fref, s.fref),
        p_enabled: pick(r.set_p_enabled, s.p_enabled),
        t_enabled: pick(r.set_t_enabled, s.t_enabled),
        tcpu_enabled: pick(r.set_tcpu_enabled, s.tcpu_enabled),
        v_bat_enabled: pick(r.set_v_bat_enable, s.v_bat_enabled),
        p_coefficients: applied_p(s.p_coefficients, r.set_p_coefficients),
        t_coefficients: applied_t(s.t_coefficients, r.set_t_coefficients),
        p_work_range: applied_range(s.p_work_range, r.set_p_work_range),
        t_work_range: applied_range(s.t_work_range, r.set_t_work_range),
        tcpu_work_range: applied_range(s.tcpu_work_range, r.set_tcpu_work_range),
        bat_work_range: applied_range(s.bat_work_range, r.set_bat_work_range),
        calibration_date: applied_date(s.calibration_date, r.set_calibration_date),
        p_zero_correction: pick(r.set_p_zero_correction, s.p_zero_correction),
        t_zero_correction: pick(r.set_t_zero_correction, s.t_zero_correction),
        write_config: applied_write_config(s.write_config, r.set_write_config),
        start_delay: pick(r.set_start_delay, s.start_delay),
        pressure_meassure_units: pick(r.set_pressure_meassure_units, s.pressure_meassure_units),
        password: s.password,
    }
}

/// `after` is the value a request field `o` asks for, or `before` when the
/// field is not given.
pub open spec fn takes<T>(o: Option<T>, before: T, after: T) -> bool {
    match o {
        Some(v) => after == v,
        None => after == before,
    }
}

/// Each bound the range request gives is stored; the others stay.
pub open spec fn range_taken(o: Option<WorkRangeReq>, before: WorkRange, after: WorkRange) -> bool {
    match o {
        None => after == before,
        Some(w) => {
            &&& takes(w.minimum, before.minimum, after.minimum)
            &&& takes(w.maximum, before.maximum, after.maximum)
            &&& takes(w.absolute_maximum, before.absolute_maximum, after.absolute_maximum)
        },
    }
}

/// Each coefficient the request gives is stored; the others stay.
pub open spec fn p_taken(o: Option<PCoefficientsReqView>, before: PCoefficientsView, after: PCoefficientsView) -> bool {
    match o {
        None => after == before,
        Some(c) => {
            &&& takes(c.fp0, before.fp0, after.fp0)
            &&& takes(c.ft0, before.ft0, after.ft0)
            &&& after.a.len() == before.a.len()
            &&& forall|i: int| 0 <= i < before.a.len() ==> takes(c.a[i], before.a[i], #[trigger] after.a[i])
        },
    }
}

/// Each coefficient the request gives is stored; the others stay.
pub open spec fn t_taken(o: Option<TCoefficientsReqView>, before: TCoefficientsView, after: TCoefficientsView) -> bool {
    match o {
        None => after == before,
        Some(c) => {
            &&& takes(c.f0, before.f0, after.f0)
            &&& takes(c.t0, before.t0, after.t0)
            &&& after.c.len() == before.c.len()
            &&& forall|i: int| 0 <= i < before.c.len() ==> takes(c.c[i], before.c[i], #[trigger] after.c[i])
        },
    }
}

/// An accepted settings request stores every value it gives and keeps
/// every value it does not give: each `set_*` field that is `Some(v)`
/// leaves `v` in the settings (down to each bound, date part, write
/// setting and single coefficient), and the stored password never changes
/// this way.
pub proof fn law_request_stores_each_given_value(s: SettingsView, r: SettingsRequestView)
    requires
        s.wf(),
        r.wf(),
    ensures
        ({
            let n = applied(s, r);
            &&& takes(r.set_serial, s.serial, n.serial)
            &&& takes(r.set_p_mesure_time_ms, s.p_mesure_time_ms, n.p_mesure_time_ms)
            &&& takes(r.set_t_mesure_time_ms, s.t_mesure_time_ms, n.t_mesure_time_ms)
            &&& takes(r.set_fref, s.fref, n.fref)
            &&& takes(r.set_p_enabled, s.p_enabled, n.p_enabled)
            &&& takes(r.set_t_enabled, s.t_enabled, n.t_enabled)
            &&& takes(r.set_tcpu_enabled, s.tcpu_enabled, n.tcpu_enabled)
            &&& takes(r.set_v_bat_enable, s.v_bat_enabled, n.v_bat_enabled)
            &&& p_taken(r.set_p_coefficients, s.p_coefficients, n.p_coefficients)
            &&& t_taken(r.set_t_coefficients, s.t_coefficients, n.t_coefficients)
            &&& range_taken(r.set_p_work_range, s.p_work_range, n.p_work_range)
            &&& range_taken(r.set_t_work_range, s.t_work_range, n.t_work_range)
            &&& range_taken(r.set_tcpu_work_range, s.tcpu_work_range, n.tcpu_work_range)
            &&& range_taken(r.set_bat_work_range, s.bat_work_range, n.bat_work_range)
            &&& (match r.set_calibration_date {
                None => n.calibration_date == s.calibration_date,
                Some(d) => {
                    &&& takes(d.day, s.calibration_date.day, n.calibration_date.day)
                    &&& takes(d.month, s.calibration_date.month, n.calibration_date.month)
                    &&& takes(d.year, s.calibration_date.year, n.calibration_date.year)
                },
            })
            &&& takes(r.set_p_zero_correction, s.p_zero_correction, n.p_zero_correction)
            &&& takes(r.set_t_zero_correction, s.t_zero_correction, n.t_zero_correction)
            &&& (match r.set_write_config {
                None => n.write_config == s.write_config,
                Some(w) => {
                    &&& takes(w.base_interval_ms, s.write_config.base_interval_ms, n.write_config.base_interval_ms)
                    &&& takes(w.p_write_devider, s.write_config.p_write_devider, n.write_config.p_write_devider)
                    &&& takes(w.t_write_devider, s.write_config.t_write_devider, n.write_config.t_write_devider)
                },
            })
            &&& takes(r.set_start_delay, s.start_delay, n.start_delay)
            &&& takes(
                r.set_pressure_meassure_units,
                s.pressure_meassure_units,
                n.pressure_meassure_units,
            )
            &&& n.password == s.password
        }),
{
}

/// A request that gives a plain value to store asks for the settings to be
/// written.
pub proof fn law_given_value_needs_write(r: SettingsRequestView)
    ensures
        r.set_serial is Some || r.set_p_mesure_time_ms is Some || r.set_t_mesure_time_ms is Some
            || r.set_fref is Some || r.set_p_enabled is Some || r.set_t_enabled is Some
            || r.set_tcpu_enabled is Some || r.set_v_bat_enable is Some || r.set_p_zero_correction
            is Some || r.set_t_zero_correction is Some || r.set_start_delay is Some
            || r.set_pressure_meassure_units is Some ==> needs_write(r),
{
}

pub open spec fn range_given(o: Option<WorkRangeReq>) -> bool {
    o matches Some(w) && w.any_given()
}

/// Whether the request changes anything that is stored.
pub open spec fn needs_write(r: SettingsRequestView) -> bool {
    ||| r.set_serial is Some
    ||| r.set_p_mesure_time_ms is Some
    ||| r.set_t_mesure_time_ms is Some
    ||| r.set_fref is Some
    ||| r.set_p_enabled is Some
    ||| r.set_t_enabled is Some
    ||| r.set_tcpu_enabled is Some
    ||| r.set_v_bat_enable is Some
    ||| (r.set_p_coefficients matches Some(c) && p_coeffs_given(c))
    ||| (r.set_t_coefficients matches Some(c) && t_coeffs_given(c))
    ||| range_given(r.set_p_work_range)
    ||| range_given(r.set_t_work_range)
    ||| range_given(r.set_tcpu_work_range)
    ||| range_given(r.set_bat_work_range)
    ||| (r.set_calibration_date matches Some(d) && (d.day is Some || d.month is Some
        || d.year is Some))
    ||| r.set_p_zero_correction is Some
    ||| r.set_t_zero_correction is Some
    ||| (r.set_write_config matches Some(w) && (w.base_interval_ms is Some || w.p_write_devider
        is Some || w.t_write_devider is Some))
    ||| r.set_start_delay is Some
    ||| r.set_pressure_meassure_units is Some
}

/// A password as the device keeps it: the first `PASSWORD_SIZE` bytes of
/// `p`, padded with zero bytes.
pub open spec fn padded_password(p: Seq<u8>) -> Seq<u8> {
    Seq::new(PASSWORD_SIZE as nat, |i: int| if i < p.len() { p[i] } else { 0u8 })
}

/// The presented password after a request: the requested one, if any.
pub open spec fn presented_after(current: Seq<u8>, o: Option<Seq<u8>>) -> Seq<u8> {
    match o {
        Some(p) => padded_password(p),
        None => current,
    }
}

/// `p` cut or padded with zero bytes to `PASSWORD_SIZE` bytes.
pub fn pad_password(p: &[u8]) -> (r: Vec<u8>)
    ensures
        r@ == padded_password(p@),
{
    let mut r: Vec<u8> = Vec::new();
    let mut i: usize = 0;
    while i < PASSWORD_SIZE
        invariant
            i <= PASSWORD_SIZE,
            r@.len() == i,
            forall|j: int| 0 <= j < i ==> r@[j] == (if j < p@.len() { p@[j] } else { 0u8 }),
        decreases PASSWORD_SIZE - i,
    {
        if i < p.len() {
            r.push(p[i]);
        } else {
            r.push(0u8);
        }
        i = i + 1;
    }
    assert(r@ =~= padded_password(p@));
    r
}

fn apply_words(dst: &mut Vec<u32>, src: &[Option<u32>]) -> (changed: bool)
    requires
        old(dst)@.len() == src@.len(),
    ensures
        final(dst)@ == pick_each(src@, old(dst)@),
        changed == some_given(src@),
{
    let mut changed = false;
    let mut i: usize = 0;
    let ghost start = dst@;
    while i < src.len()
        invariant
            start.len() == src@.len(),
            dst@.len() == src@.len(),
            i <= src.len(),
            forall|j: int| 0 <= j < i ==> dst@[j] == pick(src@[j], start[j]),
            forall|j: int| i <= j < dst@.len() ==> dst@[j] == start[j],
            changed == exists|j: int| 0 <= j < i && src@[j] is Some,
        decreases src.len() - i,
    {
        if let Some(v) = src[i] {
            dst.set(i, v);
            changed = true;
        }
        i = i + 1;
    }
    assert(dst@ =~= pick_each(src@, start));
    changed
}

fn apply_range(dst: &mut WorkRange, o: Option<WorkRangeReq>) -> (changed: bool)
    ensures
        *final(dst) == applied_range(*old(dst), o),
        changed == range_given(o),
{
    let mut changed = false;
    if let Some(r) = o {
        if let Some(v) = r.minimum {
            dst.minimum = v;
            changed = true;
        }
        if let Some(v) = r.maximum {
            dst.maximum = v;
            changed = true;
        }
        if let Some(v) = r.absolute_maximum {
            dst.absolute_maximum = v;
            changed = true;
        }
    }
    changed
}

pub open spec fn applied_basic(s: SettingsView, r: SettingsRequestView) -> SettingsView {
    SettingsView {
        serial: pick(r.set_serial, s.serial),
        p_mesure_time_ms: pick(r.set_p_mesure_time_ms, s.p_mesure_time_ms),
        t_mesure_time_ms: pick(r.set_t_mesure_time_ms, s.t_mesure_time_ms),
        fref: pick(r.set_fref, s.fref),
        p_enabled: pick(r.set_p_enabled, s.p_enabled),
        t_enabled: pick(r.set_t_enabled, s.t_enabled),
        tcpu_enabled: pick(r.set_tcpu_enabled, s.tcpu_enabled),
        v_bat_enabled: pick(r.set_v_bat_enable, s.v_bat_enabled),
        ..s
    }
}

pub open spec fn writes_basic(r: SettingsRequestView) -> bool {
    ||| r.set_serial is Some
    ||| r.set_p_mesure_time_ms is Some
    ||| r.set_t_mesure_time_ms is Some
    ||| r.set_fref is Some
    ||| r.set_p_enabled is Some
    ||| r.set_t_enabled is Some
    ||| r.set_tcpu_enabled is Some
    ||| r.set_v_bat_enable is Some
}

pub open spec fn applied_coefficients(s: SettingsView, r: SettingsRequestView) -> SettingsView {
    SettingsView {
        p_coefficients: applied_p(s.p_coefficients, r.set_p_coefficients),
        t_coefficients: applied_t(s.t_coefficients, r.set_t_coefficients),
        ..s
    }
}

pub open spec fn writes_coefficients(r: SettingsRequestView) -> bool {
    ||| (r.set_p_coefficients matches Some(c) && p_coeffs_given(c))
    ||| (r.set_t_coefficients matches Some(c) && t_coeffs_given(c))
}

pub open spec fn applied_ranges(s: SettingsView, r: SettingsRequestView) -> SettingsView {
    SettingsView {
        p_work_range: applied_range(s.p_work_range, r.set_p_work_range),
        t_work_range: applied_range(s.t_work_range, r.set_t_work_range),
        tcpu_work_range: applied_range(s.tcpu_work_range, r.set_tcpu_work_range),
        bat_work_range: applied_range(s.bat_work_range, r.set_bat_work_range),
        ..s
    }
}

pub open spec fn writes_ranges(r: SettingsRequestView) -> bool {
    ||| range_given(r.set_p_work_range)
    ||| range_given(r.set_t_work_range)
    ||| range_given(r.set_tcpu_work_range)
    ||| range_given(r.set_bat_work_range)
}

pub open spec fn applied_rest(s: SettingsView, r: SettingsRequestView) -> SettingsView {
    SettingsView {
        calibration_date: applied_date(s.calibration_date, r.set_calibration_date),
        p_zero_correction: pick(r.set_p_zero_correction, s.p_zero_correction),
        t_zero_correction: pick(r.set_t_zero_correction, s.t_zero_correction),
        write_config: applied_write_config(s.write_config, r.set_write_config),
        start_delay: pick(r.set_start_delay, s.start_delay),
        pressure_meassure_units: pick(r.set_pressure_meassure_units, s.pressure_meassure_units),
        ..s
    }
}

pub open spec fn writes_rest(r: SettingsRequestView) -> bool {
    ||| (r.set_calibration_date matches Some(d) && (d.day is Some || d.month is Some
        || d.year is Some))
    ||| r.set_p_zero_correction is Some
    ||| r.set_t_zero_correction is Some
    ||| (r.set_write_config matches Some(w) && (w.base_interval_ms is Some || w.p_write_devider
        is Some || w.t_write_devider is Some))
    ||| r.set_start_delay is Some
    ||| r.set_pressure_meassure_units is Some
}

proof fn lemma_applied_in_parts(s: SettingsView, r: SettingsRequestView)
    ensures
        applied(s, r) == applied_rest(
            applied_ranges(applied_coefficients(applied_basic(s, r), r), r),
            r,
        ),
        needs_write(r) == (writes_basic(r) || writes_coefficients(r) || writes_ranges(r)
            || writes_rest(r)),
{
}

fn apply_basic(req: &SettingsRequest, settings: &mut Settings) -> (changed: bool)
    ensures
        final(settings)@ == applied_basic(old(settings)@, req@),
        changed == writes_basic(req@),
{
    let mut need_write = false;
    if let Some(v) = req.set_serial {
        settings.serial = v;
        need_write = true;
    }
    if let Some(v) = req.set_p_mesure_time_ms {
        settings.p_mesure_time_ms = v;
        need_write = true;
    }
    if let Some(v) = req.set_t_mesure_time_ms {
        settings.t_mesure_time_ms = v;
        need_write = true;
    }
    if let Some(v) = req.set_fref {
        settings.fref = v;
        need_write = true;
    }
    if let Some(v) = req.set_p_enabled {
        settings.p_enabled = v;
        need_write = true;
    }
    if let Some(v) = req.set_t_enabled {
        settings.t_enabled = v;
        need_write = true;
    }
    if let Some(v) = req.set_tcpu_enabled {
        settings.tcpu_enabled = v;
        need_write = true;
    }
    if let Some(v) = req.set_v_bat_enable {
        settings.v_bat_enabled = v;
        need_write = true;
    }
    need_write
}

fn apply_coefficients(req: &SettingsRequest, settings: &mut Settings) -> (changed: bool)
    requires
        old(settings)@.wf(),
        req@.wf(),
    ensures
        final(settings)@ == applied_coefficients(old(settings)@, req@),
        changed == writes_coefficients(req@),
{
    let mut need_write = false;
    if let Some(c) = &req.set_p_coefficients {
        if let Some(v) = c.fp0 {
            settings.p_coefficients.fp0 = v;
            need_write = true;
        }
        if let Some(v) = c.ft0 {
            settings.p_coefficients.ft0 = v;
            need_write = true;
        }
        if apply_words(&mut settings.p_coefficients.a, c.a.as_slice()) {
            need_write = true;
        }
    }
    if let Some(c) = &req.set_t_coefficients {
        if let Some(v) = c.f0 {
            settings.t_coefficients.f0 = v;
            need_write = true;
        }
        if apply_words(&mut settings.t_coefficients.c, c.c.as_slice()) {
            need_write = true;
        }
        if let Some(v) = c.t0 {
            settings.t_coefficients.t0 = v;
            need_write = true;
        }
    }
    need_write
}

fn apply_ranges(req: &SettingsRequest, settings: &mut Settings) -> (changed: bool)
    ensures
        final(settings)@ == applied_ranges(old(settings)@, req@),
        changed == writes_ranges(req@),
{
    let a = apply_range(&mut settings.p_work_range, req.set_p_work_range);
    let b = apply_range(&mut settings.t_work_range, req.set_t_work_range);
    let c = apply_range(&mut settings.tcpu_work_range, req.set_tcpu_work_range);
    let d = apply_range(&mut settings.bat_work_range, req.set_bat_work_range);
    a || b || c || d
}

fn apply_date(dst: &mut CalibrationDate, o: Option<CalibrationDateReq>) -> (changed: bool)
    ensures
        *final(dst) == applied_date(*old(dst), o),
        changed == (o matches Some(d) && (d.day is Some || d.month is Some || d.year is Some)),
{
    let mut changed = false;
    if let Some(d) = o {
        if let Some(v) = d.day {
            dst.day = v;
            changed = true;
        }
        if let Some(v) = d.month {
            dst.month = v;
            changed = true;
        }
        if let Some(v) = d.year {
            dst.year = v;
            changed = true;
        }
    }
    changed
}

fn apply_write_config(dst: &mut WriteConfig, o: Option<WriteConfigReq>) -> (changed: bool)
    ensures
        *final(dst) == applied_write_config(*old(dst), o),
        changed == (o matches Some(w) && (w.base_interval_ms is Some || w.p_write_devider is Some
            || w.t_write_devider is Some)),
{
    let mut changed = false;
    if let Some(w) = o {
        if let Some(v) = w.base_interval_ms {
            dst.base_interval_ms = v;
            changed = true;
        }
        if let Some(v) = w.p_write_devider {
            dst.p_write_devider = v;
            changed = true;
        }
        if let Some(v) = w.t_write_devider {
            dst.t_write_devider = v;
            changed = true;
        }
    }
    changed
}

fn apply_rest(req: &SettingsRequest, settings: &mut Settings) -> (changed: bool)
    ensures
        final(settings)@ == applied_rest(old(settings)@, req@),
        changed == writes_rest(req@),
{
    let mut need_write = apply_date(&mut settings.calibration_date, req.set_calibration_date);
    if let Some(v) = req.set_p_zero_correction {
        settings.p_zero_correction = v;
        need_write = true;
    }
    if let Some(v) = req.set_t_zero_correction {
        settings.t_zero_correction = v;
        need_write = true;
    }
    if apply_write_config(&mut settings.write_config, req.set_write_config) {
        need_write = true;
    }
    if let Some(v) = req.set_start_delay {
        settings.start_delay = v;
        need_write = true;
    }
    if let Some(v) = req.set_pressure_meassure_units {
        settings.pressure_meassure_units = v;
        need_write = true;
    }
    need_write
}

/// Checks a settings request (see `verify_parameters`) and, where it is
/// accepted, makes its changes: the given values replace the stored ones,
/// and a given password becomes the presented one. Answers whether the
/// stored settings changed and are to be written.
pub fn update_settings(
    req: &SettingsRequest,
    settings: &mut Settings,
    session: &mut Session,
    lim: MeasureTimeLimits,
    build: BuildDate,
) -> (r: Result<bool, String>)
    requires
        old(settings)@.wf(),
        old(session).wf(),
        req@.wf(),
    ensures
        final(settings)@.wf(),
        final(session).wf(),
        match r {
            Ok(need_write) => {
                &&& request_problem(
                    req@,
                    old(settings).password@ != old(session).current_password@,
                    lim,
                    build,
                ) is None
                &&& need_write == needs_write(req@)
                &&& final(settings)@ == applied(old(settings)@, req@)
                &&& final(session).current_password@ == presented_after(
                    old(session).current_password@,
                    req@.set_password,
                )
            },
            Err(m) => {
                &&& request_problem(
                    req@,
                    old(settings).password@ != old(session).current_password@,
                    lim,
                    build,
                ) == Some(m@)
                &&& final(settings)@ == old(settings)@
                &&& final(session).current_password@ == old(session).current_password@
            },
        },
{
    match verify_parameters(req, settings, session, lim, build) {
        Err(m) => {
            return Err(m);
        },
        Ok(_) => {},
    }
    let ghost s0 = settings@;
    let w1 = apply_basic(req, settings);
    let w2 = apply_coefficients(req, settings);
    let w3 = apply_ranges(req, settings);
    let w4 = apply_rest(req, settings);
    if let Some(p) = &req.set_password {
        session.current_password = pad_password(p.as_slice());
    }
    proof {
        lemma_applied_in_parts(s0, req@);
    }
    Ok(w1 || w2 || w3 || w4)
}

/// What changing the password does: the outcome, the stored settings and
/// the presented password after it.
pub open spec fn password_change(s: SettingsView, current: Seq<u8>, new_password: Seq<u8>) -> (
    Result<bool, Seq<char>>,
    SettingsView,
    Seq<u8>,
) {
    let pass = padded_password(new_password);
    if s.password != current {
        (Err("Invalid password"@), s, current)
    } else if current == pass {
        (Ok(false), s, current)
    } else {
        (Ok(true), SettingsView { password: pass, ..s }, pass)
    }
}

/// A password change is accepted exactly when the presented password is
/// the stored one. Once accepted, the stored and the presented password are
/// both the new one, its first `PASSWORD_SIZE` bytes followed by zero
/// bytes, and no other setting changes; the answer tells whether the
/// password differs from before. A refused change changes nothing.
pub proof fn law_password_change(s: SettingsView, current: Seq<u8>, new_password: Seq<u8>)
    requires
        s.wf(),
        current.len() == PASSWORD_SIZE,
    ensures
        ({
            let (res, n, cur) = password_change(s, current, new_password);
            &&& (res is Ok <==> s.password == current)
            &&& res is Err ==> n == s && cur == current
            &&& res is Ok ==> {
                &&& n.password == cur
                &&& n.password.len() == PASSWORD_SIZE
                &&& (forall|i: int| 0 <= i < PASSWORD_SIZE ==> #[trigger] n.password[i] == (if i
                    < new_password.len() {
                    new_password[i]
                } else {
                    0u8
                }))
                &&& (SettingsView { password: s.password, ..n }) == s
                &&& (res == Ok::<bool, Seq<char>>(true) <==> n.password != s.password)
            }
        }),
{
    let pass = padded_password(new_password);
    assert(pass.len() == PASSWORD_SIZE);
}

pub open spec fn string_result(r: Result<bool, String>) -> Result<bool, Seq<char>> {
    match r {
        Ok(b) => Ok(b),
        Err(m) => Err(m@),
    }
}

/// Changes the stored password, and the presented one with it, to
/// `new_password` cut or padded to `PASSWORD_SIZE` bytes. Refused with
/// "Invalid password" unless the presented password is the stored one;
/// answers whether anything changed.
pub fn change_password(new_password: &[u8], settings: &mut Settings, session: &mut Session) -> (r:
    Result<bool, String>)
    requires
        old(settings)@.wf(),
        old(session).wf(),
    ensures
        final(settings)@.wf(),
        final(session).wf(),
        ({
            let (res, s, cur) = password_change(
                old(settings)@,
                old(session).current_password@,
                new_password@,
            );
            &&& string_result(r) == res
            &&& final(settings)@ == s
            &&& final(session).current_password@ == cur
        }),
{
    let pass = pad_password(new_password);
    if !bytes_equal(settings.password.as_slice(), session.current_password.as_slice()) {
        return Err(chars_to_string(str_chars("Invalid password").as_slice()));
    }
    if bytes_equal(session.current_password.as_slice(), pass.as_slice()) {
        return Ok(false);
    }
    settings.password = pass;
    session.current_password = pad_password(new_password);
    Ok(true)
}

/// Changing the password to the one just set changes nothing and answers
/// `false`; after any accepted change, the presented password is the stored
/// one.
pub proof fn law_password_change_idempotent(s: SettingsView, current: Seq<u8>, p: Seq<u8>)
    requires
        s.wf(),
        current.len() == PASSWORD_SIZE,
        password_change(s, current, p).0 is Ok,
    ensures
        ({
            let (_, s1, c1) = password_change(s, current, p);
            &&& s1.password == c1
            &&& password_change(s1, c1, p) == (Ok::<bool, Seq<char>>(false), s1, c1)
        }),
{
}

/// A request that the device accepts leaves the password-protected settings
/// (serial, reference frequency, coefficients, work ranges) as they were
/// whenever the presented password is not the stored one.
pub proof fn law_protected_settings_need_password(
    s: SettingsView,
    r: SettingsRequestView,
    lim: MeasureTimeLimits,
    build: BuildDate,
)
    requires
        s.wf(),
        r.wf(),
        request_problem(r, true, lim, build) is None,
    ensures
        applied(s, r).serial == s.serial,
        applied(s, r).fref == s.fref,
        applied(s, r).p_coefficients == s.p_coefficients,
        applied(s, r).t_coefficients == s.t_coefficients,
        applied(s, r).p_work_range == s.p_work_range,
        applied(s, r).t_work_range == s.t_work_range,
        applied(s, r).tcpu_work_range == s.tcpu_work_range,
        applied(s, r).bat_work_range == s.bat_work_range,
{
    if let Some(c) = r.set_p_coefficients {
        assert(!p_coeffs_given(c));
        assert forall|i: int| 0 <= i < c.a.len() implies c.a[i] is None by {
            if c.a[i] is Some {
                assert(some_given(c.a));
            }
        }
        assert(pick_each(c.a, s.p_coefficients.a) =~= s.p_coefficients.a);
    }
    if let Some(c) = r.set_t_coefficients {
        assert(!t_coeffs_given(c));
        assert forall|i: int| 0 <= i < c.c.len() implies c.c[i] is None by {
            if c.c[i] is Some {
                assert(some_given(c.c));
            }
        }
        assert(pick_each(c.c, s.t_coefficients.c) =~= s.t_coefficients.c);
    }
}

/// Whether stored settings keep the device's limits: measurement times in
/// their range, the reference frequency near the crystal's, a known pressure
/// unit, a base write period not below the shortest measurement time and
/// non-zero write dividers.
pub open spec fn within_limits(s: SettingsView, lim: MeasureTimeLimits) -> bool {
    &&& lim.min <= s.p_mesure_time_ms <= lim.max
    &&& lim.min <= s.t_mesure_time_ms <= lim.max
    &&& XTAL_FREQ - F_REF_DELTA <= s.fref <= XTAL_FREQ + F_REF_DELTA
    &&& valid_pressure_unit(s.pressure_meassure_units)
    &&& s.write_config.base_interval_ms >= lim.min
    &&& s.write_config.p_write_devider != 0
    &&& s.write_config.t_write_devider != 0
}

/// Accepted requests keep the settings within the device's limits.
pub proof fn law_accepted_request_keeps_limits(
    s: SettingsView,
    r: SettingsRequestView,
    password_invalid: bool,
    lim: MeasureTimeLimits,
    build: BuildDate,
)
    requires
        within_limits(s, lim),
        request_problem(r, password_invalid, lim, build) is None,
    ensures
        within_limits(applied(s, r), lim),
{
}

/// Applying a request a second time changes nothing more.
pub proof fn law_apply_idempotent(s: SettingsView, r: SettingsRequestView)
    ensures
        applied(applied(s, r), r) == applied(s, r),
{
    if let Some(c) = r.set_p_coefficients {
        let once = pick_each(c.a, s.p_coefficients.a);
        assert(pick_each(c.a, once) =~= once);
    }
    if let Some(c) = r.set_t_coefficients {
        let once = pick_each(c.c, s.t_coefficients.c);
        assert(pick_each(c.c, once) =~= once);
    }
}


fn copy_words(v: &Vec<u32>) -> (r: Vec<u32>)
    ensures
        r@ == v@,
{
    let mut r: Vec<u32> = Vec::new();
    let mut i: usize = 0;
    while i < v.len()
        invariant
            i <= v.len(),
            r@ =~= v@.subrange(0, i as int),
        decreases v.len() - i,
    {
        r.push(v[i]);
        i = i + 1;
    }
    r
}

fn copy_bytes(v: &[u8]) -> (r: Vec<u8>)
    ensures
        r@ == v@,
{
    let mut r: Vec<u8> = Vec::new();
    let mut i: usize = 0;
    while i < v.len()
        invariant
            i <= v.len(),
            r@ =~= v@.subrange(0, i as int),
        decreases v.len() - i,
    {
        r.push(v[i]);
        i = i + 1;
    }
    r
}

impl Settings {
    /// A copy of these settings.
    pub fn duplicate(&self) -> (r: Settings)
        ensures
            r@ == self@,
    {
        Settings {
            serial: self.serial,
            p_mesure_time_ms: self.p_mesure_time_ms,
            t_mesure_time_ms: self.t_mesure_time_ms,
            fref: self.fref,
            p_enabled: self.p_enabled,
            t_enabled: self.t_enabled,
            tcpu_enabled: self.tcpu_enabled,
            v_bat_enabled: self.v_bat_enabled,
            p_coefficients: PCoefficients {
                fp0: self.p_coefficients.fp0,
                ft0: self.p_coefficients.ft0,
                a: copy_words(&self.p_coefficients.a),
            },
            t_coefficients: TCoefficients {
                f0: self.t_coefficients.f0,
                t0: self.t_coefficients.t0,
                c: copy_words(&self.t_coefficients.c),
            },
            p_work_range: self.p_work_range,
            t_work_range: self.t_work_range,
            tcpu_work_range: self.tcpu_work_range,
            bat_work_range: self.bat_work_range,
            calibration_date: self.calibration_date,
            p_zero_correction: self.p_zero_correction,
            t_zero_correction: self.t_zero_correction,
            write_config: self.write_config,
            start_delay: self.start_delay,
            pressure_meassure_units: self.pressure_meassure_units,
            password: copy_bytes(self.password.as_slice()),
        }
    }
}

/// The text `String::from_utf8_lossy` makes of `bytes`: each valid UTF-8
/// sequence as its character, each invalid one as U+FFFD.
pub uninterp spec fn utf8_lossy(bytes: Seq<u8>) -> Seq<char>;

/// `String::from_utf8_lossy`, made an owned `String`. Its result is named by
/// `utf8_lossy`; stated besides is what its documentation gives for valid
/// UTF-8 in the simplest case: ASCII bytes come out as the same characters.
#[verifier::external_body]
fn string_from_utf8_lossy(bytes: &[u8]) -> (s: String)
    ensures
        s@ == utf8_lossy(bytes@),
        (forall|i: int| 0 <= i < bytes@.len() ==> bytes@[i] < 0x80) ==> s@ == Seq::new(
            bytes@.len(),
            |i: int| bytes@[i] as char,
        ),
{
    String::from_utf8_lossy(bytes).into_owned()
}

/// The settings as the device reports them, with the presented password
/// as text.
pub struct SettingsResponse {
    pub settings: Settings,
    pub password: String,
}

/// The presented password as text: its bytes up to the first zero byte.
pub open spec fn password_text(current: Seq<u8>) -> Seq<char> {
    utf8_lossy(current.subrange(0, strlenn_spec(current, PASSWORD_SIZE as nat) as int))
}

/// Reports the stored settings and the presented password.
pub fn fill_settings(settings: &Settings, session: &Session) -> (r: SettingsResponse)
    requires
        session.wf(),
    ensures
        r.settings@ == settings@,
        r.password@ == password_text(session.current_password@),
        ({
            let cur = session.current_password@;
            let n = strlenn_spec(cur, PASSWORD_SIZE as nat) as int;
            (forall|i: int| 0 <= i < n ==> cur[i] < 0x80) ==> r.password@ == Seq::new(
                n as nat,
                |i: int| cur[i] as char,
            )
        }),
{
    let n = strlenn(session.current_password.as_slice(), PASSWORD_SIZE);
    let shown = vstd::slice::slice_subrange(session.current_password.as_slice(), 0, n);
    let password = string_from_utf8_lossy(shown);
    SettingsResponse { settings: settings.duplicate(), password }
}

} // verus!
