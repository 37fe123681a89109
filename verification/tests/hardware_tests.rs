use opal::clocking::{
    ahb_dev2val, apb1_frequency, apb2_frequency, apb_dev2val, core_frequency, flash_latency_bits,
    master_counter_frequency, pll_mul_bits, ppl_div2val, sysclk_switch_bits, to_config, AdcPrescaler,
    AhbPrescaler, ApbPrescaler, ClockPlan, PllPreDivider, UsbPrescaler,
};
use opal::freqmeter::{
    as_target32, basic_timer_address, counter_value, getMaterCounterValue, ovf_irq,
    transform_target32, uif_cpy_mask, uptime_ms, wrap_result_if_ovf, wrap_result_if_ovf64,
    wrap_result_if_ovf_common, CaptureState, MasterHold, MasterUse,
};
use opal::laser::{compute_arr_presc, status_code, status_from_alarm_code, LaserStatus};
use opal::xy2_100::{
    build_frame, build_msg, galvo_timer_reload, parity, GalvoPins, GalvoTx, FRAME_WORDS, XY2_100,
};

fn reference_msg(data: u16) -> u32 {
    let base = (1u32 << 17) | ((data as u32) << 1);
    base | (base.count_ones() % 2)
}

#[test]
fn parity_counts_one_bits() {
    assert_eq!(parity(0), 0);
    assert_eq!(parity(1), 1);
    assert_eq!(parity(3), 0);
    assert_eq!(parity(7), 1);
    assert_eq!(parity(0xFFFF_FFFF), 0);
    assert_eq!(parity(0x8000_0000), 1);
}

#[test]
fn messages_have_even_parity() {
    assert_eq!(build_msg(0), 0x20001);
    assert_eq!(build_msg(1), 0x20002);
    assert_eq!(build_msg(0xFFFF), 0x3FFFF);
    assert_eq!(build_msg(0x8000), 0x30000);
    for d in [0u16, 5, 100, 0x1234, 0x7FFF, 0xABCD] {
        let m = build_msg(d);
        assert_eq!(m, reference_msg(d));
        assert_eq!(m.count_ones() % 2, 0);
        assert_eq!(m >> 17, 1);
        assert_eq!((m >> 1) & 0xFFFF, d as u32);
    }
}

#[test]
fn frame_carries_both_messages() {
    let pins = GalvoPins { clk: 3, sync: 4, x: 5, y: 6 };
    let (x, y) = (0x1234u16, 0xFEDCu16);
    let frame = build_frame(x, y, &pins);
    assert_eq!(frame.len(), FRAME_WORDS);
    let (mx, my) = (reference_msg(x), reference_msg(y));
    for (i, w) in frame.iter().enumerate() {
        let bit_n = i / 2;
        let mut r: u16 = 1 << 4;
        if i % 2 == 0 {
            r |= 1 << 3;
        }
        if bit_n == 19 {
            r &= !(1 << 4);
        }
        let chk = 1u32 << (20 - bit_n - 1);
        if mx & chk != 0 {
            r |= 1 << 5;
        }
        if my & chk != 0 {
            r |= 1 << 6;
        }
        assert_eq!(*w, r, "word {}", i);
    }
}

#[test]
fn double_buffered_transmission() {
    let pins = GalvoPins { clk: 3, sync: 4, x: 5, y: 6 };
    let mut tx = GalvoTx::new();
    assert!(tx.tx_frame().iter().all(|w| *w == 0));
    assert!(!tx.start_tx());
    let f1 = build_frame(1, 2, &pins);
    let f2 = build_frame(3, 4, &pins);
    assert!(tx.load(f1.clone()));
    assert_eq!(tx.tx_frame(), f1.as_slice());
    assert!(!tx.load(f2.clone()));
    assert_eq!(tx.tx_frame(), f1.as_slice());
    assert!(tx.dma_event());
    assert_eq!(tx.tx_frame(), f2.as_slice());
    assert!(!tx.dma_event());
    assert!(!tx.start_tx());
}

#[test]
fn galvo_timer_reload_for_bus_clock() {
    assert_eq!(galvo_timer_reload(72_000_000), 17);
    assert_eq!(galvo_timer_reload(4_000_000), 0);
}

#[test]
fn galvo_driver_keeps_its_parts() {
    let d = XY2_100::new(2u8, 3u8, 0x4001_0C0C, 7u8);
    assert_eq!(d.port_addr, 0x4001_0C0C);
    assert_eq!((d.timer, d.dma, d.outputs), (2, 3, 7));
}

#[test]
fn laser_alarm_codes() {
    assert_eq!(status_from_alarm_code(0), LaserStatus::TemperatureAlarm);
    assert_eq!(status_from_alarm_code(1), LaserStatus::Normal);
    assert_eq!(status_from_alarm_code(3), LaserStatus::SystemAlarm);
    assert_eq!(status_from_alarm_code(4), LaserStatus::SupplyVoltageAlarm);
    assert_eq!(status_from_alarm_code(2), LaserStatus::SystemAlarm);
    assert_eq!(status_from_alarm_code(7), LaserStatus::SystemAlarm);
    for s in [
        LaserStatus::TemperatureAlarm,
        LaserStatus::Normal,
        LaserStatus::SystemAlarm,
        LaserStatus::SupplyVoltageAlarm,
    ] {
        assert_eq!(status_from_alarm_code(status_code(s)), s);
    }
}

#[test]
fn laser_timer_settings() {
    assert_eq!(compute_arr_presc(45_000, 72_000_000), (0, 1599));
    assert_eq!(compute_arr_presc(1_000, 72_000_000), (1, 35999));
    assert_eq!(compute_arr_presc(1, 72_000_000), (1098, 65513));
    assert_eq!(compute_arr_presc(5, 5), (0, 0));
    for (freq, clock) in [(1u32, 72_000_000u32), (45_000, 72_000_000), (7, 1_000_003), (3, u32::MAX)] {
        let (psc, arr) = compute_arr_presc(freq, clock);
        let ticks = (clock / freq) as u64;
        assert!(psc <= 0xFFFF && arr <= 0xFFFF);
        assert!((psc as u64 + 1) * (arr as u64 + 1) <= ticks);
    }
}

fn board_plan() -> ClockPlan {
    ClockPlan {
        pll_p_div: PllPreDivider::Div2,
        pll_mul: 9,
        ahb: AhbPrescaler::Div1,
        apb1: ApbPrescaler::Div2,
        apb2: ApbPrescaler::Div1,
        usb: UsbPrescaler::Div1_5,
        adc: AdcPrescaler::Div6,
    }
}

#[test]
fn clock_tree_frequencies() {
    let plan = board_plan();
    assert_eq!(core_frequency(&plan), 72_000_000);
    assert_eq!(apb1_frequency(&plan), 36_000_000);
    assert_eq!(apb2_frequency(&plan), 72_000_000);
    assert_eq!(master_counter_frequency(&plan), 72_000_000);
    let divided = ClockPlan { apb2: ApbPrescaler::Div2, ..plan };
    assert_eq!(master_counter_frequency(&divided), 72_000_000);
    let slow = ClockPlan { ahb: AhbPrescaler::Div4, apb2: ApbPrescaler::Div2, ..plan };
    assert_eq!(core_frequency(&slow), 18_000_000);
    assert_eq!(master_counter_frequency(&slow), 18_000_000);
    let apb2_div4 = ClockPlan { apb2: ApbPrescaler::Div4, ..plan };
    assert_eq!(master_counter_frequency(&apb2_div4), 36_000_000);
}

#[test]
fn prescaler_values() {
    assert_eq!(ahb_dev2val(AhbPrescaler::Div1), 1);
    assert_eq!(ahb_dev2val(AhbPrescaler::Div64), 64);
    assert_eq!(ahb_dev2val(AhbPrescaler::Div512), 512);
    assert_eq!(apb_dev2val(ApbPrescaler::Div16), 16);
    assert_eq!(ppl_div2val(PllPreDivider::Div1), 1);
    assert_eq!(ppl_div2val(PllPreDivider::Div2), 2);
    assert_eq!(pll_mul_bits(2), 0);
    assert_eq!(pll_mul_bits(9), 7);
    assert_eq!(pll_mul_bits(16), 14);
}

#[test]
fn clock_config_and_switch() {
    let cfg = to_config(&board_plan());
    assert_eq!(cfg.hse, Some(16_000_000));
    assert_eq!(cfg.pllmul, Some(7));
    assert_eq!(cfg.ppre1, ApbPrescaler::Div2);
    assert_eq!(sysclk_switch_bits(&cfg), 2);
    let no_pll = opal::clocking::ClockConfig { pllmul: None, ..cfg };
    assert_eq!(sysclk_switch_bits(&no_pll), 1);
    let hsi = opal::clocking::ClockConfig { pllmul: None, hse: None, ..cfg };
    assert_eq!(sysclk_switch_bits(&hsi), 0);
    assert_eq!(flash_latency_bits(24_000_000), 0);
    assert_eq!(flash_latency_bits(24_000_001), 1);
    assert_eq!(flash_latency_bits(48_000_000), 1);
    assert_eq!(flash_latency_bits(72_000_000), 2);
}

#[test]
fn cycle_targets_split_and_join() {
    assert_eq!(transform_target32(100_000), (1, 50_000));
    assert_eq!(transform_target32(70_000), (1, 35_000));
    assert_eq!(transform_target32(5), (0, 5));
    assert_eq!(transform_target32(1), (0, 3));
    let (p, r) = transform_target32(1_000_003);
    assert!(r < 65535);
    let joined = as_target32(p, r);
    assert!(joined <= 1_000_003 && 1_000_003 < (p + 1) * (r + 1));
    assert_eq!(as_target32(1, 50_000), 100_000);
}

#[test]
fn capture_periods() {
    let mut c = CaptureState::new();
    c.restart();
    assert_eq!(c.input_captured(100), None);
    assert_eq!(c.input_captured(350), Some(250));
    assert_eq!(c.input_captured(360), Some(10));
    assert_eq!(c.input_captured(5), Some(u32::MAX - 360 + 5));
    c.restart();
    assert_eq!(c.input_captured(7), None);
    assert_eq!(c.prev, 7);
}

#[test]
fn master_counter_use_count() {
    let mut shared = MasterUse { count: 0 };
    let mut a = MasterHold { wanted_start: false };
    let mut b = MasterHold { wanted_start: false };
    assert!(a.want_start(&mut shared));
    assert!(!a.want_start(&mut shared));
    assert!(!b.want_start(&mut shared));
    assert_eq!(shared.count, 2);
    assert!(!a.want_stop(&mut shared));
    assert!(!a.want_stop(&mut shared));
    assert!(b.want_stop(&mut shared));
    assert_eq!(shared.count, 0);
}

#[test]
fn master_counter_count_follows_three_holds() {
    let mut shared = MasterUse { count: 0 };
    let mut holds = [
        MasterHold { wanted_start: false },
        MasterHold { wanted_start: false },
        MasterHold { wanted_start: false },
    ];
    let steps: [(usize, bool); 9] = [
        (1, true),
        (2, true),
        (1, true),
        (0, true),
        (1, false),
        (2, false),
        (2, false),
        (0, false),
        (2, true),
    ];
    let mut started = 0;
    let mut stopped = 0;
    for (i, start) in steps {
        let before = holds.iter().filter(|h| h.wanted_start).count();
        let fired = if start {
            holds[i].want_start(&mut shared)
        } else {
            holds[i].want_stop(&mut shared)
        };
        let after = holds.iter().filter(|h| h.wanted_start).count();
        assert_eq!(shared.count, after);
        if start {
            assert_eq!(fired, before == 0 && after == 1);
            started += fired as u32;
        } else {
            assert_eq!(fired, before == 1 && after == 0);
            stopped += fired as u32;
        }
    }
    assert_eq!(shared.count, 1);
    assert_eq!((started, stopped), (2, 1));
}

#[test]
fn master_counter_overflow_extension() {
    let mask = uif_cpy_mask();
    assert_eq!(mask, Some(0x8000_0000));
    assert_eq!(wrap_result_if_ovf_common(0x8000_1234, mask, false, 3), (3, 0x1234, true));
    assert_eq!(wrap_result_if_ovf_common(0x1234, mask, true, 3), (3, 0x1234, true));
    assert_eq!(wrap_result_if_ovf_common(0x1234, mask, false, 3), (3, 0x1234, false));
    assert_eq!(wrap_result_if_ovf_common(0x8000_1234, None, true, 3), (3, 0x8000_1234, false));
    assert_eq!(wrap_result_if_ovf(0x1234, mask, false, 2), (0x2_1234, false));
    assert_eq!(wrap_result_if_ovf(0x1234, mask, false, 0x1_0002), (0x2_1234, false));
    assert_eq!(wrap_result_if_ovf64(0x1234, mask, false, 0x1_0002), (0x1_0002_1234, false));
    assert_eq!(ovf_irq(5, 6, 6), 6);
    assert_eq!(ovf_irq(u32::MAX, 6, 6), 0);
    assert_eq!(ovf_irq(5, 7, 6), 5);
}

#[test]
fn master_counter_readings() {
    assert_eq!(uptime_ms(72_000_000, 72_000), 1000);
    assert_eq!(getMaterCounterValue(0x1234_5678_9ABC_DEF0), 0x89AB_CDEF);
    assert_eq!(basic_timer_address(6), 0x4000_1000);
    assert_eq!(basic_timer_address(7), 0x4000_1400);
    assert_eq!(counter_value(0x8001_2345), 0x2345);
}

#[test]
fn parity_is_additive_over_xor() {
    let words = [0u32, 1, 2, 3, 0x5555_5555, 0xdead_beef, 0x0002_1234, u32::MAX, 0x8000_0000];
    for &a in &words {
        for &b in &words {
            assert_eq!(parity(a ^ b), parity(a) ^ parity(b));
        }
    }
}

#[test]
fn parity_bit_makes_word_even() {
    for v in [0u32, 2, 6, 0x0002_1234, 0x0003_fffe, 0xffff_fffe, 0x8000_0000] {
        let w = v | parity(v);
        assert_eq!(w.count_ones() % 2, 0);
        assert_eq!(parity(w), 0);
    }
}
