//! Laser head rules: alarm status decoding and the PWM timer settings for
//! the sync frequency.
use vstd::prelude::*;

verus! {

/// Alarm status of the laser head (its table 5).
#[derive(Clone, Copy, PartialEq, Eq, Structural, Debug)]
pub enum LaserStatus {
    TemperatureAlarm,
    Normal,
    SystemAlarm,
    SupplyVoltageAlarm,
}

/// The status the alarm bus value `code` reports: 0 temperature alarm,
/// 1 normal, 3 system alarm, 4 supply voltage alarm; any other value is a
/// system alarm.
pub open spec fn status_spec(code: u8) -> LaserStatus {
    if code == 0 {
        LaserStatus::TemperatureAlarm
    } else if code == 1 {
        LaserStatus::Normal
    } else if code == 4 {
        LaserStatus::SupplyVoltageAlarm
    } else {
        LaserStatus::SystemAlarm
    }
}

/// The laser status that the alarm bus value stands for.
pub fn status_from_alarm_code(code: u8) -> (s: LaserStatus)
    ensures
        s == status_spec(code),
{
    match code {
        0 => LaserStatus::TemperatureAlarm,
        1 => LaserStatus::Normal,
        3 => LaserStatus::SystemAlarm,
        4 => LaserStatus::SupplyVoltageAlarm,
        _ => LaserStatus::SystemAlarm,
    }
}

/// The number `LaserStatus` stands for on the bus.
pub fn status_code(s: LaserStatus) -> (c: u8)
    ensures
        status_spec(c) == s,
        c == match s {
            LaserStatus::TemperatureAlarm => 0u8,
            LaserStatus::Normal => 1u8,
            LaserStatus::SystemAlarm => 3u8,
            LaserStatus::SupplyVoltageAlarm => 4u8,
        },
{
    match s {
        LaserStatus::TemperatureAlarm => 0,
        LaserStatus::Normal => 1,
        LaserStatus::SystemAlarm => 3,
        LaserStatus::SupplyVoltageAlarm => 4,
    }
}

/// Prescaler and auto-reload for a timer clocked at `clock` Hz to run at
/// `freq` Hz: `ticks = clock / freq`, `psc = (ticks - 1) / 65536`,
/// `arr = ticks / (psc + 1) - 1`.
pub open spec fn arr_presc_spec(freq: u32, clock: u32) -> (int, int) {
    let ticks = (clock / freq) as int;
    let psc = (ticks - 1) / 65536;
    (psc, ticks / (psc + 1) - 1)
}

/// The timer settings for `freq` Hz on a `clock` Hz timer (see
/// `arr_presc_spec`).
pub fn compute_arr_presc(freq: u32, clock: u32) -> (r: (u32, u32))
    requires
        freq > 0,
        clock >= freq,
    ensures
        (r.0 as int, r.1 as int) == arr_presc_spec(freq, clock),
{
    let ticks = clock / freq;
    proof {
        lemma_ticks_positive(freq as int, clock as int);
    }
    assert((1u32 << 16u32) == 65536) by (bit_vector);
    let psc = (ticks - 1) / (1u32 << 16);
    proof {
        lemma_prescaler_bounds(ticks as int);
    }
    let arr = ticks / (psc + 1) - 1;
    (psc, arr)
}

pub proof fn lemma_ticks_positive(freq: int, clock: int)
    requires
        freq > 0,
        clock >= freq,
    ensures
        clock / freq >= 1,
{
    assert(clock / freq >= 1) by (nonlinear_arith)
        requires
            clock >= freq,
            freq > 0,
    ;
}

pub proof fn lemma_prescaler_bounds(ticks: int)
    requires
        1 <= ticks <= 0xffff_ffff,
    ensures
        ({
            let psc = (ticks - 1) / 65536;
            &&& 0 <= psc <= 0xffff
            &&& psc + 1 <= ticks
            &&& 1 <= ticks / (psc + 1) <= 65536
            &&& (psc + 1) * (ticks / (psc + 1)) <= ticks
        }),
{
    let psc = (ticks - 1) / 65536;
    assert(0 <= psc <= 0xffff && psc + 1 <= ticks) by (nonlinear_arith)
        requires
            psc == (ticks - 1) / 65536,
            1 <= ticks <= 0xffff_ffff,
    ;
    let q = ticks / (psc + 1);
    assert(1 <= q && (psc + 1) * q <= ticks) by (nonlinear_arith)
        requires
            q == ticks / (psc + 1),
            1 <= psc + 1 <= ticks,
    ;
    assert(q <= 65536) by (nonlinear_arith)
        requires
            q == ticks / (psc + 1),
            psc == (ticks - 1) / 65536,
            ticks >= 1,
    ;
}

/// The timer settings fit the 16-bit registers and never make the period
/// longer than asked: `arr <= 0xffff` and `(psc + 1) * (arr + 1) <= ticks`.
pub proof fn law_timer_settings_fit(freq: u32, clock: u32)
    requires
        freq > 0,
        clock >= freq,
    ensures
        ({
            let (psc, arr) = arr_presc_spec(freq, clock);
            &&& 0 <= psc <= 0xffff
            &&& 0 <= arr <= 0xffff
            &&& (psc + 1) * (arr + 1) <= (clock / freq) as int
        }),
{
    lemma_ticks_positive(freq as int, clock as int);
    lemma_prescaler_bounds((clock / freq) as int);
}

/// The timer settings fit the 16-bit prescaler and reload registers, and
/// the period they give, `(psc + 1) * (arr + 1)` timer clocks, is the
/// number of timer clocks per output period rounded down to a multiple of
/// `psc + 1`; the prescaler is the smallest one with which the reload fits.
pub proof fn law_timer_period(freq: u32, clock: u32)
    requires
        freq > 0,
        clock >= freq,
    ensures
        ({
            let (psc, arr) = arr_presc_spec(freq, clock);
            let t = clock as int / freq as int;
            &&& 0 <= psc <= 65535
            &&& 0 <= arr <= 65535
            &&& (psc + 1) * (arr + 1) <= t < (psc + 1) * (arr + 2)
            &&& psc > 0 ==> psc * 65536 < t
        }),
{
    let t = clock as int / freq as int;
    lemma_ticks_positive(freq as int, clock as int);
    assert(t <= 0xffff_ffff) by (nonlinear_arith)
        requires
            t == clock as int / freq as int,
            freq >= 1,
            clock <= 0xffff_ffff,
    ;
    lemma_prescaler_bounds(t);
    let psc = (t - 1) / 65536;
    let q = t / (psc + 1);
    assert(t < (psc + 1) * (q + 1)) by (nonlinear_arith)
        requires
            q == t / (psc + 1),
            psc + 1 >= 1,
    ;
    assert(psc > 0 ==> psc * 65536 < t) by (nonlinear_arith)
        requires
            psc == (t - 1) / 65536,
            t >= 1,
    ;
}

/// The alarm bus values decode as the laser head documents them: 0 is a
/// temperature alarm, 1 normal operation, 4 a supply voltage alarm, and 3,
/// like any value without a meaning of its own, a system alarm.
pub proof fn law_alarm_codes(code: u8)
    ensures
        code == 0 ==> status_spec(code) == LaserStatus::TemperatureAlarm,
        code == 1 ==> status_spec(code) == LaserStatus::Normal,
        code == 4 ==> status_spec(code) == LaserStatus::SupplyVoltageAlarm,
        code != 0 && code != 1 && code != 4 ==> status_spec(code) == LaserStatus::SystemAlarm,
{
}

} // verus!
