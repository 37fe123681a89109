//! Clock tree arithmetic of the high-performance clock setup: prescaler
//! values, PLL multiplier bits, bus and timer frequencies, flash wait
//! states and the system clock switch.
use vstd::prelude::*;

use crate::config::XTAL_FREQ;

verus! {

/// AHB prescaler (`HPre`).
#[derive(Clone, Copy, PartialEq, Eq, Structural, Debug)]
pub enum AhbPrescaler {
    Div1,
    Div2,
    Div4,
    Div8,
    Div16,
    Div64,
    Div128,
    Div256,
    Div512,
}

/// APB prescaler (`PPre`).
#[derive(Clone, Copy, PartialEq, Eq, Structural, Debug)]
pub enum ApbPrescaler {
    Div1,
    Div2,
    Div4,
    Div8,
    Div16,
}

/// HSE divider in front of the PLL (`PLLXTPRE`).
#[derive(Clone, Copy, PartialEq, Eq, Structural, Debug)]
pub enum PllPreDivider {
    Div1,
    Div2,
}

/// USB prescaler.
#[derive(Clone, Copy, PartialEq, Eq, Structural, Debug)]
pub enum UsbPrescaler {
    Div1_5,
    Div1,
}

/// ADC prescaler.
#[derive(Clone, Copy, PartialEq, Eq, Structural, Debug)]
pub enum AdcPrescaler {
    Div2,
    Div4,
    Div6,
    Div8,
}

pub open spec fn ahb_value(d: AhbPrescaler) -> u32 {
    match d {
        AhbPrescaler::Div1 => 1,
        AhbPrescaler::Div2 => 2,
        AhbPrescaler::Div4 => 4,
        AhbPrescaler::Div8 => 8,
        AhbPrescaler::Div16 => 16,
        AhbPrescaler::Div64 => 64,
        AhbPrescaler::Div128 => 128,
        AhbPrescaler::Div256 => 256,
        AhbPrescaler::Div512 => 512,
    }
}

pub open spec fn apb_value(d: ApbPrescaler) -> u32 {
    match d {
        ApbPrescaler::Div1 => 1,
        ApbPrescaler::Div2 => 2,
        ApbPrescaler::Div4 => 4,
        ApbPrescaler::Div8 => 8,
        ApbPrescaler::Div16 => 16,
    }
}

pub open spec fn pll_pre_value(d: PllPreDivider) -> u32 {
    match d {
        PllPreDivider::Div1 => 1,
        PllPreDivider::Div2 => 2,
    }
}

/// The division factor of an AHB prescaler.
pub fn ahb_dev2val(ahb_dev: AhbPrescaler) -> (v: u32)
    ensures
        v == ahb_value(ahb_dev),
{
    match ahb_dev {
        AhbPrescaler::Div1 => 1,
        AhbPrescaler::Div2 => 2,
        AhbPrescaler::Div4 => 4,
        AhbPrescaler::Div8 => 8,
        AhbPrescaler::Div16 => 16,
        AhbPrescaler::Div64 => 64,
        AhbPrescaler::Div128 => 128,
        AhbPrescaler::Div256 => 256,
        AhbPrescaler::Div512 => 512,
    }
}

/// The division factor of an APB prescaler.
pub fn apb_dev2val(apb_dev: ApbPrescaler) -> (v: u32)
    ensures
        v == apb_value(apb_dev),
{
    match apb_dev {
        ApbPrescaler::Div1 => 1,
        ApbPrescaler::Div2 => 2,
        ApbPrescaler::Div4 => 4,
        ApbPrescaler::Div8 => 8,
        ApbPrescaler::Div16 => 16,
    }
}

/// The division factor of the PLL input divider.
pub fn ppl_div2val(div: PllPreDivider) -> (v: u32)
    ensures
        v == pll_pre_value(div),
{
    match div {
        PllPreDivider::Div1 => 1,
        PllPreDivider::Div2 => 2,
    }
}

/// The PLLMUL field for a multiplier `mul`: `mul - 2`, cut to a byte.
pub fn pll_mul_bits(mul: u32) -> (bits: u8)
    requires
        mul >= 2,
    ensures
        bits as int == (mul - 2) % 256,
{
    let d = mul - 2;
    proof {
        assert(d as u8 == d % 256) by (bit_vector);
    }
    d as u8
}

/// The clock plan of the board: PLL input divider and multiplier and the
/// bus prescalers.
#[derive(Clone, Copy, PartialEq, Eq, Structural, Debug)]
pub struct ClockPlan {
    pub pll_p_div: PllPreDivider,
    pub pll_mul: u32,
    pub ahb: AhbPrescaler,
    pub apb1: ApbPrescaler,
    pub apb2: ApbPrescaler,
    pub usb: UsbPrescaler,
    pub adc: AdcPrescaler,
}

impl ClockPlan {
    /// The PLL multiplier is one the 4-bit PLLMUL field can select (x2..x16).
    pub open spec fn wf(&self) -> bool {
        2 <= self.pll_mul <= 16
    }

    /// Core clock: crystal / input divider * multiplier / AHB prescaler.
    pub open spec fn core_spec(&self) -> int {
        XTAL_FREQ as int / pll_pre_value(self.pll_p_div) as int * self.pll_mul as int / ahb_value(
            self.ahb,
        ) as int
    }
}

/// Core clock frequency, Hz.
pub fn core_frequency(plan: &ClockPlan) -> (f: u32)
    requires
        plan.wf(),
    ensures
        f == plan.core_spec(),
{
    let base = XTAL_FREQ / ppl_div2val(plan.pll_p_div);
    assert(base <= 16_000_000);
    assert(base * plan.pll_mul <= 256_000_000) by (nonlinear_arith)
        requires
            base <= 16_000_000,
            plan.pll_mul <= 16,
    ;
    base * plan.pll_mul / ahb_dev2val(plan.ahb)
}

/// APB1 bus frequency, Hz.
pub fn apb1_frequency(plan: &ClockPlan) -> (f: u32)
    requires
        plan.wf(),
    ensures
        f == plan.core_spec() / apb_value(plan.apb1) as int,
{
    core_frequency(plan) / apb_dev2val(plan.apb1)
}

/// APB2 bus frequency, Hz.
pub fn apb2_frequency(plan: &ClockPlan) -> (f: u32)
    requires
        plan.wf(),
    ensures
        f == plan.core_spec() / apb_value(plan.apb2) as int,
{
    core_frequency(plan) / apb_dev2val(plan.apb2)
}

/// Frequency of the timers on APB2: the APB2 clock, doubled when APB2 is
/// divided (the timer clock multiplier of the STM32 clock tree).
pub fn master_counter_frequency(plan: &ClockPlan) -> (f: u32)
    requires
        plan.wf(),
    ensures
        f == if plan.apb2 == ApbPrescaler::Div1 {
            plan.core_spec()
        } else {
            2 * (plan.core_spec() / apb_value(plan.apb2) as int)
        },
{
    let core = core_frequency(plan);
    let apb2 = apb2_frequency(plan);
    if plan.apb2 == ApbPrescaler::Div1 {
        assert(apb_value(plan.apb2) == 1);
        apb2
    } else {
        assert(2 * apb2 <= core) by (nonlinear_arith)
            requires
                apb2 == plan.core_spec() / apb_value(plan.apb2) as int,
                plan.core_spec() == core as int,
                apb_value(plan.apb2) >= 2,
        {
        }
        apb2 * 2
    }
}

/// The clock configuration the plan gives: HSE at the crystal frequency,
/// the PLL on with its multiplier bits, and the prescalers.
#[derive(Clone, Copy, PartialEq, Eq, Structural, Debug)]
pub struct ClockConfig {
    pub hse_p_div: PllPreDivider,
    pub hse: Option<u32>,
    pub pllmul: Option<u8>,
    pub hpre: AhbPrescaler,
    pub ppre1: ApbPrescaler,
    pub ppre2: ApbPrescaler,
    pub usbpre: UsbPrescaler,
    pub adcpre: AdcPrescaler,
}

pub fn to_config(plan: &ClockPlan) -> (c: ClockConfig)
    requires
        plan.wf(),
    ensures
        c.hse_p_div == plan.pll_p_div,
        c.hse == Some(XTAL_FREQ),
        c.pllmul == Some((plan.pll_mul - 2) as u8),
        c.hpre == plan.ahb,
        c.ppre1 == plan.apb1,
        c.ppre2 == plan.apb2,
        c.usbpre == plan.usb,
        c.adcpre == plan.adc,
{
    ClockConfig {
        hse_p_div: plan.pll_p_div,
        hse: Some(XTAL_FREQ),
        pllmul: Some(pll_mul_bits(plan.pll_mul)),
        hpre: plan.ahb,
        ppre1: plan.apb1,
        ppre2: plan.apb2,
        usbpre: plan.usb,
        adcpre: plan.adc,
    }
}

/// Flash wait states for a system clock of `sysclk` Hz: none up to 24 MHz,
/// one up to 48 MHz, two above.
pub fn flash_latency_bits(sysclk: u32) -> (bits: u8)
    ensures
        bits == if sysclk <= 24_000_000 {
            0u8
        } else if sysclk <= 48_000_000 {
            1u8
        } else {
            2u8
        },
{
    if sysclk <= 24_000_000 {
        0b000
    } else if sysclk <= 48_000_000 {
        0b001
    } else {
        0b010
    }
}

/// The system clock switch: PLL when it is on, else HSE when present, else
/// HSI.
pub fn sysclk_switch_bits(cfg: &ClockConfig) -> (bits: u8)
    ensures
        bits == if cfg.pllmul is Some {
            2u8
        } else if cfg.hse is Some {
            1u8
        } else {
            0u8
        },
{
    if cfg.pllmul.is_some() {
        0b10
    } else if cfg.hse.is_some() {
        0b1
    } else {
        0b0
    }
}

/// Each prescaler divides by the number in its name: AHB by 1, 2, 4, 8,
/// 16, 64, 128, 256 or 512; APB by 1, 2, 4, 8 or 16; the PLL input divider
/// by 1 or 2.
pub proof fn law_prescaler_factors()
    ensures
        ahb_value(AhbPrescaler::Div1) == 1,
        ahb_value(AhbPrescaler::Div2) == 2,
        ahb_value(AhbPrescaler::Div4) == 4,
        ahb_value(AhbPrescaler::Div8) == 8,
        ahb_value(AhbPrescaler::Div16) == 16,
        ahb_value(AhbPrescaler::Div64) == 64,
        ahb_value(AhbPrescaler::Div128) == 128,
        ahb_value(AhbPrescaler::Div256) == 256,
        ahb_value(AhbPrescaler::Div512) == 512,
        apb_value(ApbPrescaler::Div1) == 1,
        apb_value(ApbPrescaler::Div2) == 2,
        apb_value(ApbPrescaler::Div4) == 4,
        apb_value(ApbPrescaler::Div8) == 8,
        apb_value(ApbPrescaler::Div16) == 16,
        pll_pre_value(PllPreDivider::Div1) == 1,
        pll_pre_value(PllPreDivider::Div2) == 2,
{
}

/// The core clock is the 16 MHz crystal through the PLL input divider and
/// multiplier, divided down by the AHB prescaler (whole hertz, rounded
/// down).
pub proof fn law_clock_tree(plan: ClockPlan)
    requires
        plan.wf(),
    ensures
        ({
            let pll = 16_000_000int / pll_pre_value(plan.pll_p_div) as int * plan.pll_mul as int;
            let core = plan.core_spec();
            &&& core * ahb_value(plan.ahb) <= pll < (core + 1) * ahb_value(plan.ahb)
        }),
{
    let pll = 16_000_000int / pll_pre_value(plan.pll_p_div) as int * plan.pll_mul as int;
    let d = ahb_value(plan.ahb) as int;
    let core = plan.core_spec();
    assert(core == pll / d);
    assert(d > 0);
    assert(core * d <= pll < (core + 1) * d) by (nonlinear_arith)
        requires
            core == pll / d,
            d > 0,
    ;
}

} // verus!
