use opal::protocol::{
    decode_magick1, decode_msg_size1, encode_md_message1, fill_flash_state, fill_info, finish_request,
    new_response, plan_request, recive_md_header1, FlashCommand, FlashState, HeaderError,
    OutputRequest, Request, RequestOutcomes, ID_DISCOVER, INFO_MAGICK, PRESSURE_SELF_WRITER_ID,
    PROTOCOL_VERSION, STATUS_ERRORS_IN_SUBCOMMANDS, STATUS_OK, STATUS_PROTOCOL_ERROR,
};
use opal::settings::{
    pad_password, BuildDate, CalibrationDate, MeasureTimeLimits, PCoefficients, Session, Settings,
    SettingsRequest, TCoefficients, WorkRange, WriteConfig, PRESSURE_UNIT_PA,
};

const LIMITS: MeasureTimeLimits = MeasureTimeLimits { min: 10, max: 10_000 };
const BUILD: BuildDate = BuildDate { year: 2023, month: 6, day: 15 };

fn settings() -> Settings {
    let range = WorkRange { minimum: 0, maximum: 1, absolute_maximum: 2 };
    Settings {
        serial: 1,
        p_mesure_time_ms: 1000,
        t_mesure_time_ms: 1000,
        fref: 16_000_000,
        p_enabled: true,
        t_enabled: true,
        tcpu_enabled: false,
        v_bat_enabled: false,
        p_coefficients: PCoefficients { fp0: 0, ft0: 0, a: vec![0; 16] },
        t_coefficients: TCoefficients { f0: 0, t0: 0, c: vec![0; 5] },
        p_work_range: range,
        t_work_range: range,
        tcpu_work_range: range,
        bat_work_range: range,
        calibration_date: CalibrationDate { day: 1, month: 1, year: 2023 },
        p_zero_correction: 0,
        t_zero_correction: 0,
        write_config: WriteConfig { base_interval_ms: 1000, p_write_devider: 1, t_write_devider: 1 },
        start_delay: 0,
        pressure_meassure_units: PRESSURE_UNIT_PA,
        password: pad_password(b"secret"),
    }
}

fn settings_request() -> SettingsRequest {
    SettingsRequest {
        set_serial: None,
        set_p_mesure_time_ms: None,
        set_t_mesure_time_ms: None,
        set_fref: None,
        set_p_enabled: None,
        set_t_enabled: None,
        set_tcpu_enabled: None,
        set_v_bat_enable: None,
        set_p_coefficients: None,
        set_t_coefficients: None,
        set_p_work_range: None,
        set_t_work_range: None,
        set_tcpu_work_range: None,
        set_bat_work_range: None,
        set_calibration_date: None,
        set_p_zero_correction: None,
        set_t_zero_correction: None,
        set_write_config: None,
        set_start_delay: None,
        set_pressure_meassure_units: None,
        set_password: None,
    }
}

fn request(device_id: u32, protocol_version: u32) -> Request {
    Request {
        id: 17,
        device_id,
        protocol_version,
        write_settings: None,
        get_info: false,
        change_password: None,
        flash_command: None,
        get_output_values: None,
    }
}

fn all_done() -> RequestOutcomes {
    RequestOutcomes {
        settings_saved: true,
        password_saved: true,
        monitoring_reset: true,
        memory_cleared: true,
        flash_page_size: 4096,
        erase_in_progress: false,
        outputs_read: true,
    }
}

#[test]
fn magick_byte() {
    assert_eq!(decode_magick1(INFO_MAGICK), Ok(()));
    assert_eq!(decode_magick1(8), Err(HeaderError::InvalidMagick));
}

#[test]
fn message_sizes() {
    assert_eq!(decode_msg_size1(&[5]), Ok(5));
    assert_eq!(decode_msg_size1(&[0x96, 0x01]), Ok(150));
    assert_eq!(decode_msg_size1(&[0xDC, 0x0B]), Ok(1500));
    assert_eq!(decode_msg_size1(&[0xDD, 0x0B]), Err(HeaderError::InvalidLength));
    assert_eq!(decode_msg_size1(&[0]), Err(HeaderError::InvalidLength));
    assert_eq!(decode_msg_size1(&[0x80, 0x80, 0x80, 0x80]), Err(HeaderError::UndecodableLength));
    // Only the varint counts; bytes after it are not looked at.
    assert_eq!(decode_msg_size1(&[7, 0xFF]), Ok(7));
}

#[test]
fn headers() {
    assert_eq!(recive_md_header1(&[9, 5, 1, 2, 3, 4, 5]), Ok((5, 2)));
    assert_eq!(recive_md_header1(&[9, 0x96, 0x01]), Ok((150, 3)));
    assert_eq!(recive_md_header1(&[]), Err(HeaderError::Incomplete));
    assert_eq!(recive_md_header1(&[9]), Err(HeaderError::Incomplete));
    assert_eq!(recive_md_header1(&[9, 0x96]), Err(HeaderError::Incomplete));
    assert_eq!(recive_md_header1(&[3, 5]), Err(HeaderError::InvalidMagick));
    assert_eq!(recive_md_header1(&[9, 0x80, 0x80, 0x80, 0x80, 1]), Err(HeaderError::UndecodableLength));
    assert_eq!(recive_md_header1(&[9, 0x80, 0x80, 0x80, 0x01]), Err(HeaderError::InvalidLength));
}

#[test]
fn header_messages() {
    assert_eq!(HeaderError::InvalidMagick.message(), "Invalid message magick!");
    assert_eq!(HeaderError::InvalidLength.message(), "Invalid message length");
    assert_eq!(HeaderError::UndecodableLength.message(), "Failed to decode len");
}

#[test]
fn framed_message_reads_back() {
    let body: Vec<u8> = (0..200u32).map(|i| i as u8).collect();
    let framed = encode_md_message1(&body);
    assert_eq!(&framed[..3], &[9, 0xC8, 0x01]);
    assert_eq!(&framed[3..], body.as_slice());
    assert_eq!(recive_md_header1(&framed), Ok((200, 3)));
    let short = encode_md_message1(&[1, 2, 3]);
    assert_eq!(short, vec![9, 3, 1, 2, 3]);
    assert_eq!(recive_md_header1(&short), Ok((3, 2)));
}

#[test]
fn fresh_response() {
    let r = new_response(17, 1234);
    assert_eq!(r.id, 17);
    assert_eq!(r.device_id, PRESSURE_SELF_WRITER_ID);
    assert_eq!(r.protocol_version, PROTOCOL_VERSION);
    assert_eq!(r.global_status, STATUS_OK);
    assert_eq!(r.timestamp, 1234);
    assert!(r.get_settings.is_none() && r.info.is_none());
}

#[test]
fn info_and_flash_reports() {
    let i = fill_info(0xABCD);
    assert_eq!(i.hw_version, 1);
    assert_eq!(i.sw_version, 0xABCD);
    assert!(!i.pressure_channel_failed && !i.over_vbat_detected);
    let f = fill_flash_state(Some(true), 4096, true);
    assert_eq!((f.flash_page_size, f.status), (4096, FlashState::ResetMonitoringFailed));
    assert_eq!(fill_flash_state(Some(false), 0, true).status, FlashState::Ereasing);
    assert_eq!(fill_flash_state(None, 0, false).status, FlashState::Ready);
    assert_eq!(FlashState::Ereasing.code(), 1);
    assert_eq!(FlashState::ResetMonitoringFailed.code(), 2);
    assert_eq!(FlashState::Ready.code(), 0);
}

#[test]
fn foreign_request_is_a_protocol_error() {
    let mut s = settings();
    let mut ses = Session { current_password: pad_password(b"secret") };
    let mut req = request(1234, PROTOCOL_VERSION);
    let mut w = settings_request();
    w.set_start_delay = Some(5);
    req.write_settings = Some(w);
    let plan = plan_request(&req, new_response(17, 0), &mut s, &mut ses, LIMITS, BUILD, 1);
    assert_eq!(plan.response.global_status, STATUS_PROTOCOL_ERROR);
    assert!(plan.response.get_settings.is_none());
    assert!(plan.save_settings.is_none());
    assert_eq!(s.start_delay, 0);

    let req = request(PRESSURE_SELF_WRITER_ID, 2);
    let plan = plan_request(&req, new_response(17, 0), &mut s, &mut ses, LIMITS, BUILD, 1);
    assert_eq!(plan.response.global_status, STATUS_PROTOCOL_ERROR);
}

#[test]
fn settings_write_and_info() {
    let mut s = settings();
    let mut ses = Session { current_password: pad_password(b"secret") };
    let mut req = request(ID_DISCOVER, PROTOCOL_VERSION);
    let mut w = settings_request();
    w.set_start_delay = Some(5);
    req.write_settings = Some(w);
    req.get_info = true;
    let plan = plan_request(&req, new_response(17, 0), &mut s, &mut ses, LIMITS, BUILD, 99);
    assert_eq!(plan.save_settings, Some(true));
    assert_eq!(plan.response.global_status, STATUS_OK);
    assert_eq!(s.start_delay, 5);
    let g = plan.response.get_settings.as_ref().unwrap();
    assert_eq!(g.settings.start_delay, 5);
    assert_eq!(g.password, "secret");
    assert_eq!(plan.response.info.unwrap().sw_version, 99);
    let r = finish_request(plan, all_done());
    assert_eq!(r.global_status, STATUS_OK);
    let plan = plan_request(&req, new_response(18, 0), &mut s, &mut ses, LIMITS, BUILD, 99);
    let r = finish_request(plan, RequestOutcomes { settings_saved: false, ..all_done() });
    assert_eq!(r.global_status, STATUS_ERRORS_IN_SUBCOMMANDS);
}

#[test]
fn refused_settings_write_marks_the_answer() {
    let mut s = settings();
    let mut ses = Session { current_password: pad_password(b"wrong") };
    let mut req = request(PRESSURE_SELF_WRITER_ID, PROTOCOL_VERSION);
    let mut w = settings_request();
    w.set_serial = Some(5);
    req.write_settings = Some(w);
    let plan = plan_request(&req, new_response(1, 0), &mut s, &mut ses, LIMITS, BUILD, 1);
    assert_eq!(plan.response.global_status, STATUS_ERRORS_IN_SUBCOMMANDS);
    assert!(plan.save_settings.is_none());
    assert!(plan.response.get_settings.is_some());
    assert_eq!(s.serial, 1);
}

#[test]
fn password_change_in_a_request() {
    let mut s = settings();
    let mut ses = Session { current_password: pad_password(b"secret") };
    let mut req = request(PRESSURE_SELF_WRITER_ID, PROTOCOL_VERSION);
    req.change_password = Some(b"next".to_vec());
    let plan = plan_request(&req, new_response(1, 0), &mut s, &mut ses, LIMITS, BUILD, 1);
    assert!(matches!(plan.password_result, Some(Ok(true))));
    let r = finish_request(plan, all_done());
    assert_eq!(r.change_password_status, Some(true));
    assert_eq!(r.global_status, STATUS_OK);
    assert_eq!(s.password, pad_password(b"next"));

    // Saving fails: the change does not count as done.
    let plan = plan_request(&req, new_response(2, 0), &mut s, &mut ses, LIMITS, BUILD, 1);
    let r = finish_request(plan, RequestOutcomes { password_saved: false, ..all_done() });
    assert_eq!(r.change_password_status, Some(false));
    assert_eq!(r.global_status, STATUS_ERRORS_IN_SUBCOMMANDS);

    // A wrong presented password refuses the change.
    let mut ses = Session { current_password: pad_password(b"bad") };
    let plan = plan_request(&req, new_response(3, 0), &mut s, &mut ses, LIMITS, BUILD, 1);
    assert_eq!(plan.response.global_status, STATUS_ERRORS_IN_SUBCOMMANDS);
    let r = finish_request(plan, all_done());
    assert_eq!(r.change_password_status, Some(false));
}

#[test]
fn flash_commands() {
    let mut s = settings();
    let mut ses = Session { current_password: pad_password(b"secret") };
    let mut req = request(PRESSURE_SELF_WRITER_ID, PROTOCOL_VERSION);
    req.flash_command = Some(FlashCommand { reset_monitoring: true, clear_memory: Some(true) });
    let plan = plan_request(&req, new_response(1, 0), &mut s, &mut ses, LIMITS, BUILD, 1);
    assert!(plan.reset_monitoring && plan.clear_memory && plan.report_flash);
    let r = finish_request(plan, RequestOutcomes { monitoring_reset: false, ..all_done() });
    let f = r.flash_status.unwrap();
    assert_eq!(f.status, FlashState::ResetMonitoringFailed);
    assert_eq!(f.flash_page_size, 4096);
    assert_eq!(r.global_status, STATUS_ERRORS_IN_SUBCOMMANDS);

    req.flash_command = Some(FlashCommand { reset_monitoring: false, clear_memory: Some(false) });
    let plan = plan_request(&req, new_response(1, 0), &mut s, &mut ses, LIMITS, BUILD, 1);
    assert!(!plan.clear_memory);
    let r = finish_request(plan, RequestOutcomes { erase_in_progress: true, ..all_done() });
    assert_eq!(r.flash_status.unwrap().status, FlashState::Ereasing);
    assert_eq!(r.global_status, STATUS_OK);
}

#[test]
fn output_reading_failure() {
    let mut s = settings();
    let mut ses = Session { current_password: pad_password(b"secret") };
    let mut req = request(PRESSURE_SELF_WRITER_ID, PROTOCOL_VERSION);
    req.get_output_values = Some(OutputRequest { get_main_values: true, get_f: false, get_raw: false });
    let plan = plan_request(&req, new_response(1, 0), &mut s, &mut ses, LIMITS, BUILD, 1);
    assert!(plan.read_outputs.is_some());
    let r = finish_request(plan, RequestOutcomes { outputs_read: false, ..all_done() });
    assert_eq!(r.global_status, STATUS_ERRORS_IN_SUBCOMMANDS);
}
