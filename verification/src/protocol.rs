//! The recorder's request protocol: the header that frames a message, the
//! answer's header, and how a request is served against the settings.
//!
//! Serving a request alternates the settings rules, which are here, with
//! work on the device (starting a settings save, resetting the monitoring
//! flags, erasing the memory, reading the outputs). `plan_request` makes
//! every decision and settings change that comes before that work and says
//! which work to do; `finish_request` takes what the work reported and
//! completes the answer.
use vstd::prelude::*;

use crate::settings::{
    applied, change_password, fill_settings, needs_write, password_change, password_text,
    presented_after, request_problem, string_result, update_settings, BuildDate, MeasureTimeLimits,
    Session, Settings, SettingsRequest, SettingsRequestView, SettingsResponse, SettingsView,
};
use crate::text::{chars_to_string, str_chars};

verus! {

/// First byte of every message.
pub const INFO_MAGICK: u8 = 9;

/// Device id of the pressure recorder.
pub const PRESSURE_SELF_WRITER_ID: u32 = 57350;

/// Device id that every device answers to.
pub const ID_DISCOVER: u32 = 65535;

/// Protocol version the device speaks.
pub const PROTOCOL_VERSION: u32 = 1;

/// Longest message body, bytes.
pub const MAX_MESSAGE_LEN: usize = 1500;

/// Global status codes of an answer.
pub const STATUS_OK: i32 = 0;
pub const STATUS_ERRORS_IN_SUBCOMMANDS: i32 = 1;
pub const STATUS_PROTOCOL_ERROR: i32 = 100;

/// Hardware version the device reports.
pub const HW_VERSION: u32 = 1;

/// `prost::DecodeError`, the error of `prost::decode_length_delimiter`.
#[verifier::external_type_specification]
#[verifier::external_body]
pub struct ExDecodeError(prost::DecodeError);

/// Whether a LEB128 byte below 0x80, which ends a varint, occurs in `b`.
pub open spec fn varint_terminated(b: Seq<u8>) -> bool {
    exists|i: int| 0 <= i < b.len() && b[i] < 0x80
}

/// The LEB128 value of the varint that starts `b`: seven bits per byte,
/// low bits first, up to the first byte below 0x80.
pub open spec fn varint_value(b: Seq<u8>) -> nat
    decreases b.len(),
{
    if b.len() == 0 {
        0
    } else if b[0] < 0x80 {
        b[0] as nat
    } else {
        (b[0] - 0x80) as nat + 128 * varint_value(b.drop_first())
    }
}

/// `prost::decode_length_delimiter` on at most four bytes: the LEB128
/// varint that starts them, or an error where none of them ends it (its
/// source reads the varint up to the first byte below 0x80, and fails when
/// the bytes run out first; four bytes hold less than 2^28, which fits in a
/// `usize`).
#[verifier::external_body]
fn decode_length_delimiter(bytes: &[u8]) -> (r: Result<usize, prost::DecodeError>)
    requires
        1 <= bytes@.len() <= 4,
    ensures
        r is Ok <==> varint_terminated(bytes@),
        r matches Ok(v) ==> v == varint_value(bytes@),
{
    prost::decode_length_delimiter(bytes)
}

/// What is wrong with a message header.
#[derive(Clone, Copy, PartialEq, Eq, Structural, Debug)]
pub enum HeaderError {
    /// The bytes ended before the header did.
    Incomplete,
    InvalidMagick,
    InvalidLength,
    UndecodableLength,
}

impl HeaderError {
    pub open spec fn text(&self) -> Seq<char> {
        match self {
            HeaderError::Incomplete => "Incomplete header"@,
            HeaderError::InvalidMagick => "Invalid message magick!"@,
            HeaderError::InvalidLength => "Invalid message length"@,
            HeaderError::UndecodableLength => "Failed to decode len"@,
        }
    }

    /// The text the device logs for this error.
    pub fn message(&self) -> (s: String)
        ensures
            s@ == self.text(),
    {
        let v = match self {
            HeaderError::Incomplete => str_chars("Incomplete header"),
            HeaderError::InvalidMagick => str_chars("Invalid message magick!"),
            HeaderError::InvalidLength => str_chars("Invalid message length"),
            HeaderError::UndecodableLength => str_chars("Failed to decode len"),
        };
        chars_to_string(v.as_slice())
    }
}

/// Checks the first byte of a message.
pub fn decode_magick1(first: u8) -> (r: Result<(), HeaderError>)
    ensures
        r is Ok <==> first == INFO_MAGICK,
        r is Err ==> r == Err::<(), HeaderError>(HeaderError::InvalidMagick),
{
    if first != INFO_MAGICK {
        Err(HeaderError::InvalidMagick)
    } else {
        Ok(())
    }
}

/// The body length that the size bytes give, or why they give none.
pub open spec fn size_result(d: Seq<u8>) -> Result<usize, HeaderError> {
    if !varint_terminated(d) {
        Err(HeaderError::UndecodableLength)
    } else if varint_value(d) == 0 || varint_value(d) > MAX_MESSAGE_LEN {
        Err(HeaderError::InvalidLength)
    } else {
        Ok(varint_value(d) as usize)
    }
}

/// Decodes the size bytes of a header: a LEB128 length of 1 to
/// `MAX_MESSAGE_LEN` bytes.
pub fn decode_msg_size1(data: &[u8]) -> (r: Result<usize, HeaderError>)
    requires
        1 <= data@.len() <= 4,
    ensures
        r == size_result(data@),
{
    match decode_length_delimiter(data) {
        Ok(v) => {
            if v == 0 || v > MAX_MESSAGE_LEN {
                Err(HeaderError::InvalidLength)
            } else {
                Ok(v)
            }
        },
        Err(_) => Err(HeaderError::UndecodableLength),
    }
}

/// How many size bytes the reader takes from `b`, looking from byte `i`:
/// up to the first byte below 0x80, and never more than four; `None` where
/// `b` ends first.
pub open spec fn size_bytes_from(b: Seq<u8>, i: nat) -> Option<nat>
    decreases 4 - i,
{
    if i >= 4 {
        Some(4)
    } else if i >= b.len() {
        None
    } else if b[i as int] < 0x80 || i == 3 {
        Some(i + 1)
    } else {
        size_bytes_from(b, i + 1)
    }
}

/// A header read from the start of `bytes`: the magick byte, then the size
/// bytes; on success the body length and the header's length.
pub open spec fn header_spec(bytes: Seq<u8>) -> Result<(usize, usize), HeaderError> {
    if bytes.len() == 0 {
        Err(HeaderError::Incomplete)
    } else if bytes[0] != INFO_MAGICK {
        Err(HeaderError::InvalidMagick)
    } else {
        match size_bytes_from(bytes.drop_first(), 0) {
            None => Err(HeaderError::Incomplete),
            Some(k) => match size_result(bytes.subrange(1, 1 + k as int)) {
                Ok(len) => Ok((len, (1 + k) as usize)),
                Err(e) => Err(e),
            },
        }
    }
}

/// Reads a message header from the start of `bytes`.
pub fn recive_md_header1(bytes: &[u8]) -> (r: Result<(usize, usize), HeaderError>)
    ensures
        r == header_spec(bytes@),
{
    if bytes.len() == 0 {
        return Err(HeaderError::Incomplete);
    }
    if let Err(e) = decode_magick1(bytes[0]) {
        return Err(e);
    }
    let ghost rest = bytes@.drop_first();
    let mut k: usize = 0;
    loop
        invariant
            rest == bytes@.drop_first(),
            rest.len() == bytes@.len() - 1,
            bytes@.len() >= 1,
            bytes@[0] == INFO_MAGICK,
            k < 4,
            size_bytes_from(rest, 0) == size_bytes_from(rest, k as nat),
        ensures
            k < 4,
            k < rest.len(),
            rest[k as int] < 0x80 || k == 3,
            size_bytes_from(rest, 0) == size_bytes_from(rest, k as nat),
        decreases 4 - k,
    {
        if 1 + k >= bytes.len() {
            assert(size_bytes_from(rest, k as nat) is None);
            return Err(HeaderError::Incomplete);
        }
        let b = bytes[1 + k];
        assert(b == rest[k as int]);
        if b < 0x80 || k == 3 {
            break;
        }
        k = k + 1;
    }
    let n = k + 1;
    assert(size_bytes_from(rest, 0) == Some(n as nat));
    assert(bytes@.subrange(1, 1 + n as int) == rest.subrange(0, n as int));
    let size = vstd::slice::slice_subrange(bytes, 1, 1 + n);
    match decode_msg_size1(size) {
        Ok(len) => Ok((len, 1 + n)),
        Err(e) => Err(e),
    }
}

/// What the device reports of itself.
#[derive(Clone, Copy, PartialEq, Eq, Structural, Debug)]
pub struct InfoResponse {
    pub hw_version: u32,
    pub sw_version: u64,
    pub pressure_channel_failed: bool,
    pub temperature_channel_failed: bool,
    pub overpress_detected: bool,
    pub overheat_detected: bool,
    pub overheat_cpu_detected: bool,
    pub over_vbat_detected: bool,
}

/// The device information: the hardware version, the given software
/// version, and no failure.
pub fn fill_info(sw_version: u64) -> (r: InfoResponse)
    ensures
        r == (InfoResponse {
            hw_version: HW_VERSION,
            sw_version,
            pressure_channel_failed: false,
            temperature_channel_failed: false,
            overpress_detected: false,
            overheat_detected: false,
            overheat_cpu_detected: false,
            over_vbat_detected: false,
        }),
{
    InfoResponse {
        hw_version: HW_VERSION,
        sw_version,
        pressure_channel_failed: false,
        temperature_channel_failed: false,
        overpress_detected: false,
        overheat_detected: false,
        overheat_cpu_detected: false,
        over_vbat_detected: false,
    }
}

/// State of the data memory.
#[derive(Clone, Copy, PartialEq, Eq, Structural, Debug)]
pub enum FlashState {
    Ready,
    Ereasing,
    ResetMonitoringFailed,
}

impl FlashState {
    /// The code of the state on the wire.
    pub fn code(&self) -> (c: u32)
        ensures
            c == match self {
                FlashState::Ready => 0u32,
                FlashState::Ereasing => 1u32,
                FlashState::ResetMonitoringFailed => 2u32,
            },
    {
        match self {
            FlashState::Ready => 0,
            FlashState::Ereasing => 1,
            FlashState::ResetMonitoringFailed => 2,
        }
    }
}

/// What the device reports of its data memory.
#[derive(Clone, Copy, PartialEq, Eq, Structural, Debug)]
pub struct FlashStatus {
    pub flash_page_size: u32,
    pub status: FlashState,
}

pub open spec fn flash_state_spec(reset_monitoring_failed: Option<bool>, erase_in_progress: bool) -> FlashState {
    if reset_monitoring_failed == Some(true) {
        FlashState::ResetMonitoringFailed
    } else if erase_in_progress {
        FlashState::Ereasing
    } else {
        FlashState::Ready
    }
}

/// The memory report: a failed reset of the monitoring flags comes first,
/// then a running erase.
pub fn fill_flash_state(
    reset_monitoring_failed: Option<bool>,
    flash_page_size: u32,
    erase_in_progress: bool,
) -> (r: FlashStatus)
    ensures
        r.flash_page_size == flash_page_size,
        r.status == flash_state_spec(reset_monitoring_failed, erase_in_progress),
{
    let status = if let Some(true) = reset_monitoring_failed {
        FlashState::ResetMonitoringFailed
    } else if erase_in_progress {
        FlashState::Ereasing
    } else {
        FlashState::Ready
    };
    FlashStatus { flash_page_size, status }
}

/// An answer. The measured outputs, which are floats, are added where the
/// outputs are read.
pub struct Response {
    pub id: u32,
    pub device_id: u32,
    pub protocol_version: u32,
    pub global_status: i32,
    pub timestamp: u64,
    pub get_settings: Option<SettingsResponse>,
    pub info: Option<InfoResponse>,
    pub change_password_status: Option<bool>,
    pub flash_status: Option<FlashStatus>,
}

/// A fresh answer to the request `id`, made at `timestamp` (system ticks).
pub fn new_response(id: u32, timestamp: u64) -> (r: Response)
    ensures
        r.id == id,
        r.device_id == PRESSURE_SELF_WRITER_ID,
        r.protocol_version == PROTOCOL_VERSION,
        r.global_status == STATUS_OK,
        r.timestamp == timestamp,
        r.get_settings is None,
        r.info is None,
        r.change_password_status is None,
        r.flash_status is None,
{
    Response {
        id,
        device_id: PRESSURE_SELF_WRITER_ID,
        protocol_version: PROTOCOL_VERSION,
        global_status: STATUS_OK,
        timestamp,
        get_settings: None,
        info: None,
        change_password_status: None,
        flash_status: None,
    }
}


/// Commands on the data memory.
#[derive(Clone, Copy, PartialEq, Eq, Structural, Debug)]
pub struct FlashCommand {
    pub reset_monitoring: bool,
    pub clear_memory: Option<bool>,
}

/// Which measured outputs to report.
#[derive(Clone, Copy, PartialEq, Eq, Structural, Debug)]
pub struct OutputRequest {
    pub get_main_values: bool,
    pub get_f: bool,
    pub get_raw: bool,
}

/// A request to the device.
pub struct Request {
    pub id: u32,
    pub device_id: u32,
    pub protocol_version: u32,
    pub write_settings: Option<SettingsRequest>,
    pub get_info: bool,
    pub change_password: Option<Vec<u8>>,
    pub flash_command: Option<FlashCommand>,
    pub get_output_values: Option<OutputRequest>,
}

/// Whether the request is meant for this device, in its protocol.
pub open spec fn target_accepted(device_id: u32, protocol_version: u32) -> bool {
    (device_id == PRESSURE_SELF_WRITER_ID || device_id == ID_DISCOVER) && protocol_version
        == PROTOCOL_VERSION
}

/// Whether the request is meant for this device, in its protocol.
pub fn accepts_target(device_id: u32, protocol_version: u32) -> (r: bool)
    ensures
        r == target_accepted(device_id, protocol_version),
{
    (device_id == PRESSURE_SELF_WRITER_ID || device_id == ID_DISCOVER) && protocol_version
        == PROTOCOL_VERSION
}

/// What a settings request does: the outcome, the stored settings and the
/// presented password after it.
pub open spec fn settings_write(
    s: SettingsView,
    current: Seq<u8>,
    w: SettingsRequestView,
    lim: MeasureTimeLimits,
    build: BuildDate,
) -> (Result<bool, Seq<char>>, SettingsView, Seq<u8>) {
    match request_problem(w, s.password != current, lim, build) {
        Some(m) => (Err(m), s, current),
        None => (Ok(needs_write(w)), applied(s, w), presented_after(current, w.set_password)),
    }
}

pub open spec fn info_spec(sw_version: u64) -> InfoResponse {
    InfoResponse {
        hw_version: HW_VERSION,
        sw_version,
        pressure_channel_failed: false,
        temperature_channel_failed: false,
        overpress_detected: false,
        overheat_detected: false,
        overheat_cpu_detected: false,
        over_vbat_detected: false,
    }
}

/// The device answers requests addressed to it (id 57350) or to every
/// device (id 65535), in protocol version 1, and no others.
pub proof fn law_request_target(device_id: u32, protocol_version: u32)
    ensures
        target_accepted(device_id, protocol_version) <==> (device_id == 57350 || device_id
            == 65535) && protocol_version == 1,
{
}

/// The memory report says the monitoring flags could not be reset when
/// that failed, whatever else holds; otherwise that an erase runs when one
/// does; otherwise that the memory is ready.
pub proof fn law_memory_report(reset_monitoring_failed: Option<bool>, erase_in_progress: bool)
    ensures
        reset_monitoring_failed == Some(true) ==> flash_state_spec(
            reset_monitoring_failed,
            erase_in_progress,
        ) == FlashState::ResetMonitoringFailed,
        reset_monitoring_failed != Some(true) && erase_in_progress ==> flash_state_spec(
            reset_monitoring_failed,
            erase_in_progress,
        ) == FlashState::Ereasing,
        reset_monitoring_failed != Some(true) && !erase_in_progress ==> flash_state_spec(
            reset_monitoring_failed,
            erase_in_progress,
        ) == FlashState::Ready,
{
}

/// The decisions made on a request before the device does its part, and
/// which part to do.
pub struct RequestPlan {
    pub response: Response,
    /// Start saving the settings (with whether they really changed): the
    /// settings request was accepted.
    pub save_settings: Option<bool>,
    /// The outcome of a password change; where it is `Ok`, save the
    /// settings with it.
    pub password_result: Option<Result<bool, String>>,
    pub reset_monitoring: bool,
    pub clear_memory: bool,
    pub report_flash: bool,
    pub read_outputs: Option<OutputRequest>,
}

/// Serves a request up to the device's work: a request for another device
/// or protocol is answered with `STATUS_PROTOCOL_ERROR` and nothing else;
/// otherwise the settings request and the password change are made on
/// `settings` and `session`, the settings and device information are put in
/// the answer, a refused subcommand marks the answer with
/// `STATUS_ERRORS_IN_SUBCOMMANDS`, and the plan says what the device is to
/// do.
pub fn plan_request(
    req: &Request,
    resp: Response,
    settings: &mut Settings,
    session: &mut Session,
    lim: MeasureTimeLimits,
    build: BuildDate,
    sw_version: u64,
) -> (plan: RequestPlan)
    requires
        old(settings)@.wf(),
        old(session).wf(),
        req.write_settings matches Some(w) ==> w@.wf(),
    ensures
        final(settings)@.wf(),
        final(session).wf(),
        plan.response.id == resp.id,
        plan.response.device_id == resp.device_id,
        plan.response.protocol_version == resp.protocol_version,
        plan.response.timestamp == resp.timestamp,
        plan.response.change_password_status == resp.change_password_status,
        plan.response.flash_status == resp.flash_status,
        !target_accepted(req.device_id, req.protocol_version) ==> {
            &&& plan.response.global_status == STATUS_PROTOCOL_ERROR
            &&& plan.response.get_settings == resp.get_settings
            &&& plan.response.info == resp.info
            &&& plan.save_settings is None
            &&& plan.password_result is None
            &&& !plan.reset_monitoring
            &&& !plan.clear_memory
            &&& !plan.report_flash
            &&& plan.read_outputs is None
            &&& final(settings)@ == old(settings)@
            &&& final(session).current_password@ == old(session).current_password@
        },
        target_accepted(req.device_id, req.protocol_version) ==> ({
            let s0 = old(settings)@;
            let c0 = old(session).current_password@;
            let (wres, s1, c1) = match req.write_settings {
                Some(w) => settings_write(s0, c0, w@, lim, build),
                None => (Ok(false), s0, c0),
            };
            let (pres, s2, c2) = match req.change_password {
                Some(p) => password_change(s1, c1, p@),
                None => (Ok(false), s1, c1),
            };
            &&& final(settings)@ == s2
            &&& final(session).current_password@ == c2
            &&& plan.save_settings == (if req.write_settings is Some && wres is Ok {
                Some(wres->Ok_0)
            } else {
                None
            })
            &&& (plan.response.get_settings is Some <==> (req.write_settings is Some
                || resp.get_settings is Some))
            &&& (req.write_settings is Some ==> {
                &&& plan.response.get_settings matches Some(g)
                &&& g.settings@ == s1
                &&& g.password@ == password_text(c1)
            })
            &&& (req.write_settings is None ==> plan.response.get_settings == resp.get_settings)
            &&& plan.response.info == (if req.get_info {
                Some(info_spec(sw_version))
            } else {
                resp.info
            })
            &&& (plan.password_result is Some <==> req.change_password is Some)
            &&& (plan.password_result matches Some(x) ==> string_result(x) == pres)
            &&& plan.reset_monitoring == (req.flash_command matches Some(f) && f.reset_monitoring)
            &&& plan.clear_memory == (req.flash_command matches Some(f) && f.clear_memory == Some(
                true,
            ))
            &&& plan.report_flash == req.flash_command is Some
            &&& plan.read_outputs == req.get_output_values
            &&& plan.response.global_status == (if (req.write_settings is Some && wres is Err) || (
            req.change_password is Some && pres is Err) {
                STATUS_ERRORS_IN_SUBCOMMANDS
            } else {
                resp.global_status
            })
        }),
{
    let mut resp = resp;
    if !accepts_target(req.device_id, req.protocol_version) {
        resp.global_status = STATUS_PROTOCOL_ERROR;
        return RequestPlan {
            response: resp,
            save_settings: None,
            password_result: None,
            reset_monitoring: false,
            clear_memory: false,
            report_flash: false,
            read_outputs: None,
        };
    }
    let mut save_settings: Option<bool> = None;
    if let Some(w) = &req.write_settings {
        match update_settings(w, settings, session, lim, build) {
            Ok(need_to_write) => {
                save_settings = Some(need_to_write);
            },
            Err(_) => {
                resp.global_status = STATUS_ERRORS_IN_SUBCOMMANDS;
            },
        }
        resp.get_settings = Some(fill_settings(settings, session));
    }
    if req.get_info {
        resp.info = Some(fill_info(sw_version));
    }
    let mut password_result: Option<Result<bool, String>> = None;
    if let Some(p) = &req.change_password {
        let r = change_password(p.as_slice(), settings, session);
        if r.is_err() {
            resp.global_status = STATUS_ERRORS_IN_SUBCOMMANDS;
        }
        password_result = Some(r);
    }
    let (reset_monitoring, clear_memory, report_flash) = match req.flash_command {
        Some(f) => (f.reset_monitoring, f.clear_memory == Some(true), true),
        None => (false, false, false),
    };
    RequestPlan {
        response: resp,
        save_settings,
        password_result,
        reset_monitoring,
        clear_memory,
        report_flash,
        read_outputs: req.get_output_values,
    }
}

/// What the device reported of the work a plan asked for; each flag is
/// looked at only where that work was asked for.
#[derive(Clone, Copy, PartialEq, Eq, Structural, Debug)]
pub struct RequestOutcomes {
    pub settings_saved: bool,
    pub password_saved: bool,
    pub monitoring_reset: bool,
    pub memory_cleared: bool,
    pub flash_page_size: u32,
    pub erase_in_progress: bool,
    pub outputs_read: bool,
}

/// Whether some work that a plan asked for failed.
pub open spec fn work_failed(plan: RequestPlan, out: RequestOutcomes) -> bool {
    ||| (plan.save_settings is Some && !out.settings_saved)
    ||| (plan.password_result matches Some(Ok(_)) && !out.password_saved)
    ||| (plan.reset_monitoring && !out.monitoring_reset)
    ||| (plan.clear_memory && !out.memory_cleared)
    ||| (plan.read_outputs is Some && !out.outputs_read)
}

/// Completes the answer with what the device reported: failed work marks
/// it with `STATUS_ERRORS_IN_SUBCOMMANDS`; a password change counts as done
/// only once its save started; the memory report says whether resetting
/// the monitoring flags failed, else whether an erase runs.
pub fn finish_request(plan: RequestPlan, out: RequestOutcomes) -> (r: Response)
    ensures
        r.id == plan.response.id,
        r.device_id == plan.response.device_id,
        r.protocol_version == plan.response.protocol_version,
        r.timestamp == plan.response.timestamp,
        r.get_settings == plan.response.get_settings,
        r.info == plan.response.info,
        r.global_status == (if work_failed(plan, out) {
            STATUS_ERRORS_IN_SUBCOMMANDS
        } else {
            plan.response.global_status
        }),
        r.change_password_status == match plan.password_result {
            None => plan.response.change_password_status,
            Some(Err(_)) => Some(false),
            Some(Ok(_)) => Some(out.password_saved),
        },
        r.flash_status == (if plan.report_flash {
            Some(
                FlashStatus {
                    flash_page_size: out.flash_page_size,
                    status: flash_state_spec(
                        if plan.reset_monitoring {
                            Some(!out.monitoring_reset)
                        } else {
                            None
                        },
                        out.erase_in_progress,
                    ),
                },
            )
        } else {
            plan.response.flash_status
        }),
{
    let RequestPlan {
        response,
        save_settings,
        password_result,
        reset_monitoring,
        clear_memory,
        report_flash,
        read_outputs,
    } = plan;
    let mut resp = response;
    if save_settings.is_some() && !out.settings_saved {
        resp.global_status = STATUS_ERRORS_IN_SUBCOMMANDS;
    }
    match password_result {
        None => {},
        Some(Err(_)) => {
            resp.change_password_status = Some(false);
        },
        Some(Ok(_)) => {
            if !out.password_saved {
                resp.global_status = STATUS_ERRORS_IN_SUBCOMMANDS;
            }
            resp.change_password_status = Some(out.password_saved);
        },
    }
    let mut reset_failed: Option<bool> = None;
    if reset_monitoring {
        if !out.monitoring_reset {
            resp.global_status = STATUS_ERRORS_IN_SUBCOMMANDS;
        }
        reset_failed = Some(!out.monitoring_reset);
    }
    if clear_memory && !out.memory_cleared {
        resp.global_status = STATUS_ERRORS_IN_SUBCOMMANDS;
    }
    if report_flash {
        resp.flash_status = Some(fill_flash_state(reset_failed, out.flash_page_size, out.erase_in_progress));
    }
    if read_outputs.is_some() && !out.outputs_read {
        resp.global_status = STATUS_ERRORS_IN_SUBCOMMANDS;
    }
    resp
}


/// `prost::EncodeError`, the error of `prost::encode_length_delimiter`.
#[verifier::external_type_specification]
#[verifier::external_body]
pub struct ExEncodeError(prost::EncodeError);

/// The LEB128 bytes of `n`: seven bits per byte, low bits first, each byte
/// but the last with its top bit set.
pub open spec fn varint_encoding(n: nat) -> Seq<u8>
    decreases n,
{
    if n < 128 {
        seq![n as u8]
    } else {
        seq![(n % 128 + 128) as u8] + varint_encoding(n / 128)
    }
}

/// `prost::encode_length_delimiter` into a `Vec<u8>`: appends the LEB128
/// bytes of `length`. Its source fails only where the buffer has room for
/// fewer bytes than the varint needs, which a `Vec` holding less than
/// `isize::MAX - 10` bytes always has.
#[verifier::external_body]
fn encode_length_delimiter(length: usize, buf: &mut Vec<u8>) -> (r: Result<(), prost::EncodeError>)
    requires
        old(buf)@.len() + 10 <= isize::MAX,
    ensures
        r is Ok,
        final(buf)@ == old(buf)@ + varint_encoding(length as nat),
{
    prost::encode_length_delimiter(length, buf)
}

/// A message framed for sending: the magick byte, the body length as a
/// LEB128 varint, then the body.
pub fn encode_md_message1(body: &[u8]) -> (r: Vec<u8>)
    requires
        body@.len() + 20 <= isize::MAX,
    ensures
        r@ == seq![INFO_MAGICK] + varint_encoding(body@.len()) + body@,
{
    let mut result: Vec<u8> = Vec::new();
    result.push(INFO_MAGICK);
    let _ = encode_length_delimiter(body.len(), &mut result);
    let ghost framed = result@;
    let mut i: usize = 0;
    while i < body.len()
        invariant
            framed == seq![INFO_MAGICK] + varint_encoding(body@.len()),
            i <= body.len(),
            result@ =~= framed + body@.subrange(0, i as int),
        decreases body.len() - i,
    {
        result.push(body[i]);
        i = i + 1;
    }
    result
}

/// A framed message is read back: its header gives the body length, and the
/// header ends where the body starts.
pub proof fn law_header_round_trip(body: Seq<u8>)
    requires
        1 <= body.len() <= MAX_MESSAGE_LEN,
    ensures
        header_spec(seq![INFO_MAGICK] + varint_encoding(body.len()) + body) == Ok::<
            (usize, usize),
            HeaderError,
        >((body.len() as usize, (1 + varint_encoding(body.len()).len()) as usize)),
{
    let n = body.len();
    let enc = varint_encoding(n);
    let framed = seq![INFO_MAGICK] + enc + body;
    let rest = framed.drop_first();
    assert(rest =~= enc + body);
    if n < 128 {
        assert(enc =~= seq![n as u8]);
        assert(size_bytes_from(rest, 0) == Some(1nat));
        assert(framed.subrange(1, 2) =~= seq![n as u8]);
        assert(varint_terminated(seq![n as u8])) by {
            assert(seq![n as u8][0] < 0x80);
        }
    } else {
        let lo = (n % 128 + 128) as u8;
        let hi = (n / 128) as u8;
        assert(n / 128 < 128);
        assert(varint_encoding(n / 128) =~= seq![hi]);
        assert(enc =~= seq![lo, hi]);
        assert(rest[0] == lo && rest[1] == hi);
        assert(size_bytes_from(rest, 1) == Some(2nat));
        assert(size_bytes_from(rest, 0) == Some(2nat));
        let d = framed.subrange(1, 3);
        assert(d =~= seq![lo, hi]);
        assert(d.drop_first() =~= seq![hi]);
        assert(varint_terminated(d)) by {
            assert(d[1] < 0x80);
        }
        assert(varint_value(d.drop_first()) == n / 128);
        assert(varint_value(d) == (lo - 0x80) as nat + 128 * varint_value(d.drop_first()));
        assert(n == n % 128 + 128 * (n / 128)) by (nonlinear_arith);
    }
}

} // verus!
