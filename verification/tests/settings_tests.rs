use opal::settings::{
    check_loaded_crc, stored_crc_word, SettingsLoadError,
    bytes_equal, change_password, crc_slot_offset, fill_settings, len_in_u64_aligned, pad_password,
    settings_page, strlenn, update_settings, verify_parameters, BuildDate, CalibrationDate,
    CalibrationDateReq, DateField, MeasureTimeLimits, PCoefficients, PCoefficientsReq, Session,
    Settings, SettingsRequest, TCoefficients, TCoefficientsReq, WorkRange, WorkRangeError,
    WorkRangeReq, WriteConfig, WriteConfigReq, PRESSURE_UNIT_BAR, PRESSURE_UNIT_PA,
};

const LIMITS: MeasureTimeLimits = MeasureTimeLimits { min: 10, max: 10_000 };
const BUILD: BuildDate = BuildDate { year: 2023, month: 6, day: 15 };

fn password(p: &[u8]) -> Vec<u8> {
    pad_password(p)
}

fn settings() -> Settings {
    let range = WorkRange { minimum: 0, maximum: 1, absolute_maximum: 2 };
    Settings {
        serial: 1,
        p_mesure_time_ms: 1000,
        t_mesure_time_ms: 1000,
        fref: 16_000_000,
        p_enabled: true,
        t_enabled: true,
        tcpu_enabled: false,
        v_bat_enabled: false,
        p_coefficients: PCoefficients { fp0: 0, ft0: 0, a: vec![0; 16] },
        t_coefficients: TCoefficients { f0: 0, t0: 0, c: vec![0; 5] },
        p_work_range: range,
        t_work_range: range,
        tcpu_work_range: range,
        bat_work_range: range,
        calibration_date: CalibrationDate { day: 1, month: 1, year: 2023 },
        p_zero_correction: 0,
        t_zero_correction: 0,
        write_config: WriteConfig { base_interval_ms: 1000, p_write_devider: 1, t_write_devider: 1 },
        start_delay: 0,
        pressure_meassure_units: PRESSURE_UNIT_PA,
        password: password(b"secret"),
    }
}

fn session(p: &[u8]) -> Session {
    Session { current_password: password(p) }
}

fn empty_request() -> SettingsRequest {
    SettingsRequest {
        set_serial: None,
        set_p_mesure_time_ms: None,
        set_t_mesure_time_ms: None,
        set_fref: None,
        set_p_enabled: None,
        set_t_enabled: None,
        set_tcpu_enabled: None,
        set_v_bat_enable: None,
        set_p_coefficients: None,
        set_t_coefficients: None,
        set_p_work_range: None,
        set_t_work_range: None,
        set_tcpu_work_range: None,
        set_bat_work_range: None,
        set_calibration_date: None,
        set_p_zero_correction: None,
        set_t_zero_correction: None,
        set_write_config: None,
        set_start_delay: None,
        set_pressure_meassure_units: None,
        set_password: None,
    }
}

fn no_range() -> WorkRangeReq {
    WorkRangeReq {
        minimum: None,
        maximum: None,
        absolute_maximum: None,
        absolute_below_maximum: false,
        absolute_below_minimum: false,
        maximum_below_minimum: false,
    }
}

fn check(req: &SettingsRequest, presented: &[u8]) -> Result<(), String> {
    verify_parameters(req, &settings(), &session(presented), LIMITS, BUILD)
}

#[test]
fn strlenn_finds_the_terminator() {
    assert_eq!(strlenn(b"abc\0def", 10), 3);
    assert_eq!(strlenn(b"abcdef", 10), 10);
    assert_eq!(strlenn(b"abcdef", 4), 4);
    assert_eq!(strlenn(b"\0", 10), 0);
    assert_eq!(strlenn(b"abcdefghij", 10), 10);
}

#[test]
fn flash_layout_of_settings() {
    assert_eq!(len_in_u64_aligned(0), 0);
    assert_eq!(len_in_u64_aligned(8), 1);
    assert_eq!(len_in_u64_aligned(9), 2);
    assert_eq!(crc_slot_offset(13), 16);
    assert_eq!(settings_page(0x0800_0000 + 2048 * 5, 0x0800_0000, 2048), 5);
}

#[test]
fn passwords_are_padded() {
    assert_eq!(pad_password(b"ab"), vec![b'a', b'b', 0, 0, 0, 0, 0, 0, 0, 0]);
    assert_eq!(pad_password(b"0123456789xyz"), b"0123456789".to_vec());
    assert!(bytes_equal(b"ab", b"ab"));
    assert!(!bytes_equal(b"ab", b"abc"));
}

#[test]
fn work_range_order() {
    let mut w = no_range();
    assert_eq!(w.validate(), Ok(()));
    w.maximum = Some(1);
    w.absolute_maximum = Some(2);
    w.absolute_below_maximum = true;
    assert_eq!(w.validate(), Err(WorkRangeError::MaximumAboveAbasoluteMaximum));
    let w = WorkRangeReq {
        minimum: Some(1),
        absolute_maximum: Some(2),
        absolute_below_minimum: true,
        ..no_range()
    };
    assert_eq!(w.validate(), Err(WorkRangeError::MinimumAboveMaximum));
    let w = WorkRangeReq {
        minimum: Some(1),
        maximum: Some(2),
        maximum_below_minimum: true,
        ..no_range()
    };
    assert_eq!(w.validate(), Err(WorkRangeError::MinimumAboveMaximum));
    // A comparison with a bound that is not given does not count.
    let w = WorkRangeReq { maximum: Some(1), absolute_below_maximum: true, ..no_range() };
    assert_eq!(w.validate(), Ok(()));
}

#[test]
fn calibration_dates() {
    let d = |day, month, year| CalibrationDateReq { day, month, year };
    assert_eq!(d(Some(32), None, None).validate(BUILD), Err(DateField::Day));
    assert_eq!(d(None, Some(13), None).validate(BUILD), Err(DateField::Month));
    assert_eq!(d(None, Some(0), None).validate(BUILD), Err(DateField::Month));
    assert_eq!(d(None, None, Some(2022)).validate(BUILD), Err(DateField::Past));
    assert_eq!(d(Some(1), Some(5), Some(2023)).validate(BUILD), Err(DateField::Past));
    assert_eq!(d(Some(14), Some(6), Some(2023)).validate(BUILD), Err(DateField::Past));
    assert_eq!(d(Some(15), Some(6), Some(2023)).validate(BUILD), Ok(()));
    assert_eq!(d(Some(1), Some(7), Some(2023)).validate(BUILD), Ok(()));
    // The month is held against the build's even in a later year.
    assert_eq!(d(Some(1), Some(1), Some(2024)).validate(BUILD), Err(DateField::Past));
    assert_eq!(d(None, Some(1), Some(2024)).validate(BUILD), Ok(()));
}

#[test]
fn protected_settings_need_the_password() {
    let mut r = empty_request();
    r.set_serial = Some(5);
    assert_eq!(check(&r, b"wrong"), Err("Change Serial, invalid password".to_string()));
    assert_eq!(check(&r, b"secret"), Ok(()));

    let mut r = empty_request();
    r.set_p_coefficients = Some(PCoefficientsReq { fp0: None, ft0: None, a: vec![None; 16] });
    assert_eq!(check(&r, b"wrong"), Ok(()));
    let mut a = vec![None; 16];
    a[3] = Some(7);
    r.set_p_coefficients = Some(PCoefficientsReq { fp0: None, ft0: None, a });
    assert_eq!(check(&r, b"wrong"), Err("Change PCoefficients, invalid password".to_string()));

    let mut r = empty_request();
    r.set_t_coefficients = Some(TCoefficientsReq { f0: Some(1), t0: None, c: vec![None; 5] });
    assert_eq!(check(&r, b"wrong"), Err("Change TCoefficients, invalid password".to_string()));

    let mut r = empty_request();
    r.set_bat_work_range = Some(WorkRangeReq { minimum: Some(1), ..no_range() });
    assert_eq!(check(&r, b"wrong"), Err("Change TWorkRange, invalid password".to_string()));
}

#[test]
fn measure_time_limits() {
    let mut r = empty_request();
    r.set_p_mesure_time_ms = Some(5);
    assert_eq!(
        check(&r, b"secret"),
        Err("Pressure measure time 5 is out of range 10 - 10000".to_string())
    );
    let mut r = empty_request();
    r.set_t_mesure_time_ms = Some(10_001);
    assert_eq!(
        check(&r, b"wrong"),
        Err("Temperature measure time 10001 is out of range 10 - 10000".to_string())
    );
    r.set_t_mesure_time_ms = Some(10_000);
    assert_eq!(check(&r, b"wrong"), Ok(()));
}

#[test]
fn reference_frequency_near_the_crystal() {
    let mut r = empty_request();
    r.set_fref = Some(16_000_501);
    assert_eq!(check(&r, b"wrong"), Err("Change Fref, invalid password".to_string()));
    assert_eq!(
        check(&r, b"secret"),
        Err("Reference frequency 16000501 is too different from base 16000000 +/- 500".to_string())
    );
    r.set_fref = Some(15_999_500);
    assert_eq!(check(&r, b"secret"), Ok(()));
}

#[test]
fn work_range_messages() {
    let bad = WorkRangeReq {
        minimum: Some(1),
        maximum: Some(2),
        maximum_below_minimum: true,
        ..no_range()
    };
    let mut r = empty_request();
    r.set_p_work_range = Some(bad);
    assert_eq!(check(&r, b"secret"), Err("PWorkRange invalid: MinimumAboveMaximum".to_string()));
    let mut r = empty_request();
    r.set_tcpu_work_range = Some(bad);
    assert_eq!(check(&r, b"secret"), Err("TCPUWorkRange invalid: MinimumAboveMaximum".to_string()));
    let mut r = empty_request();
    r.set_t_work_range = Some(WorkRangeReq {
        maximum: Some(2),
        absolute_maximum: Some(1),
        absolute_below_maximum: true,
        ..no_range()
    });
    assert_eq!(
        check(&r, b"secret"),
        Err("TWorkRange invalid: MaximumAboveAbasoluteMaximum".to_string())
    );
}

#[test]
fn date_config_and_unit_messages() {
    let mut r = empty_request();
    r.set_calibration_date = Some(CalibrationDateReq { day: Some(40), month: None, year: None });
    assert_eq!(check(&r, b"wrong"), Err("Calibration date field Day invalid".to_string()));

    let mut r = empty_request();
    r.set_write_config = Some(WriteConfigReq {
        base_interval_ms: Some(5),
        p_write_devider: None,
        t_write_devider: None,
    });
    assert_eq!(check(&r, b"secret"), Err("Write base period 5 too small, min= 10".to_string()));
    r.set_write_config = Some(WriteConfigReq {
        base_interval_ms: Some(10),
        p_write_devider: Some(0),
        t_write_devider: Some(0),
    });
    assert_eq!(check(&r, b"secret"), Err("P write devider == 0".to_string()));
    r.set_write_config = Some(WriteConfigReq {
        base_interval_ms: None,
        p_write_devider: Some(2),
        t_write_devider: Some(0),
    });
    assert_eq!(check(&r, b"secret"), Err("T write devider == 0".to_string()));

    let mut r = empty_request();
    r.set_pressure_meassure_units = Some(0);
    assert_eq!(
        check(&r, b"secret"),
        Err("Value 0 is not a valid pressure measure unit code.".to_string())
    );
    r.set_pressure_meassure_units = Some(-7);
    assert_eq!(
        check(&r, b"secret"),
        Err("Value -7 is not a valid pressure measure unit code.".to_string())
    );
    r.set_pressure_meassure_units = Some(PRESSURE_UNIT_BAR);
    assert_eq!(check(&r, b"secret"), Ok(()));
}

#[test]
fn first_problem_is_reported() {
    let mut r = empty_request();
    r.set_serial = Some(1);
    r.set_p_mesure_time_ms = Some(1);
    assert_eq!(check(&r, b"wrong"), Err("Change Serial, invalid password".to_string()));
    assert_eq!(
        check(&r, b"secret"),
        Err("Pressure measure time 1 is out of range 10 - 10000".to_string())
    );
}

#[test]
fn update_applies_given_values() {
    let mut s = settings();
    let mut ses = session(b"secret");
    let mut r = empty_request();
    r.set_serial = Some(42);
    r.set_v_bat_enable = Some(true);
    let mut a = vec![None; 16];
    a[15] = Some(0x3F80_0000);
    r.set_p_coefficients = Some(PCoefficientsReq { fp0: Some(9), ft0: None, a });
    r.set_t_work_range = Some(WorkRangeReq { maximum: Some(77), ..no_range() });
    r.set_calibration_date = Some(CalibrationDateReq { day: Some(20), month: Some(6), year: Some(2023) });
    r.set_start_delay = Some(3);
    r.set_pressure_meassure_units = Some(PRESSURE_UNIT_BAR);
    assert_eq!(update_settings(&r, &mut s, &mut ses, LIMITS, BUILD), Ok(true));
    assert_eq!(s.serial, 42);
    assert!(s.v_bat_enabled);
    assert_eq!(s.p_coefficients.fp0, 9);
    assert_eq!(s.p_coefficients.a[15], 0x3F80_0000);
    assert_eq!(s.p_coefficients.a[14], 0);
    assert_eq!(s.t_work_range, WorkRange { minimum: 0, maximum: 77, absolute_maximum: 2 });
    assert_eq!(s.p_work_range, WorkRange { minimum: 0, maximum: 1, absolute_maximum: 2 });
    assert_eq!(s.calibration_date, CalibrationDate { day: 20, month: 6, year: 2023 });
    assert_eq!(s.start_delay, 3);
    assert_eq!(s.pressure_meassure_units, PRESSURE_UNIT_BAR);
    assert_eq!(s.password, password(b"secret"));
}

#[test]
fn update_without_changes_needs_no_write() {
    let mut s = settings();
    let mut ses = session(b"wrong");
    let mut r = empty_request();
    r.set_password = Some(b"secret".to_vec());
    assert_eq!(update_settings(&r, &mut s, &mut ses, LIMITS, BUILD), Ok(false));
    assert_eq!(ses.current_password, password(b"secret"));
}

#[test]
fn refused_update_changes_nothing() {
    let mut s = settings();
    let mut ses = session(b"wrong");
    let mut r = empty_request();
    r.set_start_delay = Some(9);
    r.set_serial = Some(3);
    r.set_password = Some(b"secret".to_vec());
    assert_eq!(
        update_settings(&r, &mut s, &mut ses, LIMITS, BUILD),
        Err("Change Serial, invalid password".to_string())
    );
    assert_eq!(s.serial, 1);
    assert_eq!(s.start_delay, 0);
    assert_eq!(ses.current_password, password(b"wrong"));
}

#[test]
fn applying_twice_equals_applying_once() {
    let mut r = empty_request();
    r.set_start_delay = Some(9);
    r.set_t_work_range = Some(WorkRangeReq { minimum: Some(5), ..no_range() });
    let mut s = settings();
    let mut ses = session(b"secret");
    update_settings(&r, &mut s, &mut ses, LIMITS, BUILD).unwrap();
    let once = (s.start_delay, s.t_work_range);
    update_settings(&r, &mut s, &mut ses, LIMITS, BUILD).unwrap();
    assert_eq!((s.start_delay, s.t_work_range), once);
}

#[test]
fn change_password_rules() {
    let mut s = settings();
    let mut ses = session(b"wrong");
    assert_eq!(change_password(b"new", &mut s, &mut ses), Err("Invalid password".to_string()));
    assert_eq!(s.password, password(b"secret"));

    let mut ses = session(b"secret");
    assert_eq!(change_password(b"new", &mut s, &mut ses), Ok(true));
    assert_eq!(s.password, password(b"new"));
    assert_eq!(ses.current_password, password(b"new"));
    // The same password again changes nothing.
    assert_eq!(change_password(b"new", &mut s, &mut ses), Ok(false));
    assert_eq!(s.password, password(b"new"));
}

#[test]
fn reported_settings_show_the_presented_password() {
    let s = settings();
    let ses = session(b"secret");
    let r = fill_settings(&s, &ses);
    assert_eq!(r.password, "secret");
    assert_eq!(r.settings.serial, 1);
    assert_eq!(r.settings.p_coefficients.a, vec![0; 16]);
    assert_eq!(r.settings.password, s.password);
    let ses = Session { current_password: vec![b'a', 0xFF, b'b', 0, 0, 0, 0, 0, 0, 0] };
    assert_eq!(fill_settings(&s, &ses).password, "a\u{FFFD}b");
    let ses = Session { current_password: b"0123456789".to_vec() };
    assert_eq!(fill_settings(&s, &ses).password, "0123456789");
}

#[test]
fn settings_checksum_round_trip() {
    let crc = 0xcbf4_3926u32;
    let word = stored_crc_word(crc);
    assert_eq!(word, 0x0000_0000_cbf4_3926);
    assert_eq!(check_loaded_crc(word, crc), Ok(()));
    assert_eq!(check_loaded_crc(word, crc ^ 1), Err(SettingsLoadError::Inconsistent));
    assert_eq!(check_loaded_crc(0xffff_ffff_cbf4_3926, crc), Err(SettingsLoadError::Inconsistent));
    assert_eq!(check_loaded_crc(u64::MAX, u32::MAX), Err(SettingsLoadError::Inconsistent));
}
