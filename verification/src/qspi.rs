//! External QSPI flash rules: the flash description (capacity and QSPI
//! settings), the MT25QU01G status and configuration register values, the
//! page addressing through the address extender, and the memory-mapping
//! mode switch.
use vstd::prelude::*;

verus! {

/// `2^n`.
pub open spec fn two_pow(n: nat) -> nat
    decreases n,
{
    if n == 0 {
        1
    } else {
        2 * two_pow((n - 1) as nat)
    }
}

/// Capacity in bytes of a flash whose QSPI size code is `size_code`:
/// `2^(size_code + 1)`.
pub fn capacity(size_code: u8) -> (c: usize)
    requires
        two_pow(size_code as nat + 1) <= usize::MAX,
    ensures
        c == two_pow(size_code as nat + 1),
{
    let mut c: usize = 1;
    let mut i: u32 = 0;
    let n: u32 = size_code as u32 + 1;
    while i < n
        invariant
            i <= n,
            n == size_code as nat + 1,
            c == two_pow(i as nat),
            two_pow(n as nat) <= usize::MAX,
        decreases n - i,
    {
        proof {
            lemma_two_pow_mono(i as nat + 1, n as nat);
        }
        c = c * 2;
        i = i + 1;
    }
    c
}

pub proof fn lemma_two_pow_mono(a: nat, b: nat)
    requires
        a <= b,
    ensures
        two_pow(a) <= two_pow(b),
    decreases b,
{
    if a < b {
        lemma_two_pow_mono(a, (b - 1) as nat);
    }
}

/// The QSPI controller settings for a flash.
#[derive(Clone, Copy, PartialEq, Eq, Structural, Debug)]
pub struct QspiSettings {
    /// Clock prescaler: at least 1.
    pub clock_prescaler: u8,
    /// Flash size field, at most 23 (24-bit addressing, 16 MiB windows).
    pub flash_size: u8,
    /// Chip select high time, at most 8.
    pub chip_select_high_time: u8,
}

/// The controller settings for a QSPI base clock of `base_hz` and a
/// flash that runs up to `max_freq_hz` with size code `size_code`.
pub fn qspi_settings(base_hz: u32, max_freq_hz: u32, size_code: u8) -> (s: QspiSettings)
    requires
        max_freq_hz > 0,
    ensures
        s.clock_prescaler == if ((base_hz / max_freq_hz) % 256) as u8 >= 1 {
            ((base_hz / max_freq_hz) % 256) as u8
        } else {
            1u8
        },
        s.flash_size == if size_code <= 23 {
            size_code
        } else {
            23u8
        },
        s.chip_select_high_time == if ((base_hz / 10_000_000) % 256) as u8 <= 8 {
            ((base_hz / 10_000_000) % 256) as u8
        } else {
            8u8
        },
{
    let ratio = base_hz / max_freq_hz;
    let p = ratio as u8;
    proof {
        assert(ratio as u8 == ratio % 256) by (bit_vector);
    }
    let clock_prescaler = if p >= 1 { p } else { 1 };
    let flash_size = if size_code <= 23 { size_code } else { 23 };
    let cs = base_hz / 10_000_000;
    let csb = cs as u8;
    proof {
        assert(cs as u8 == cs % 256) by (bit_vector);
    }
    let chip_select_high_time = if csb <= 8 { csb } else { 8 };
    QspiSettings { clock_prescaler, flash_size, chip_select_high_time }
}

/// A flash description fits a chip whose JEDEC id has manufacturer
/// `mfr_code` and capacity byte `capacity_id`.
pub fn config_matches(vendor_id: u8, capacity_code: u8, mfr_code: u8, capacity_id: u8) -> (r: bool)
    ensures
        r == (vendor_id == mfr_code && capacity_code == capacity_id),
{
    vendor_id == mfr_code && capacity_code == capacity_id
}

/// What the storage needs to know of a supported QSPI flash: its JEDEC
/// manufacturer and capacity bytes, its QSPI size code and top clock.
#[derive(Clone, Copy, PartialEq, Eq, Structural, Debug)]
pub struct FlashDescription {
    pub vendor_id: u8,
    pub capacity_code: u8,
    pub size_code: u8,
    pub max_freq_hz: u32,
}

/// The supported flashes: the Micron MT25QU01G (1 Gbit).
pub fn known_flashes() -> (v: Vec<FlashDescription>)
    ensures
        v@ == seq![
            FlashDescription {
                vendor_id: 0x20,
                capacity_code: 0x21,
                size_code: 26,
                max_freq_hz: 20_000_000,
            },
        ],
{
    vec![FlashDescription { vendor_id: 0x20, capacity_code: 0x21, size_code: 26, max_freq_hz: 20_000_000 }]
}

/// Whether description `d` fits the chip with manufacturer `mfr_code` and
/// capacity byte `capacity_id`.
pub open spec fn description_fits(d: FlashDescription, mfr_code: u8, capacity_id: u8) -> bool {
    d.vendor_id == mfr_code && d.capacity_code == capacity_id
}

/// The first description that fits the chip's JEDEC id, if any.
pub fn find_flash_config(descs: &[FlashDescription], mfr_code: u8, capacity_id: u8) -> (r: Option<usize>)
    ensures
        match r {
            Some(i) => {
                &&& i < descs@.len()
                &&& description_fits(descs@[i as int], mfr_code, capacity_id)
                &&& forall|j: int| 0 <= j < i ==> !description_fits(#[trigger] descs@[j], mfr_code, capacity_id)
            },
            None => forall|j: int|
                0 <= j < descs@.len() ==> !description_fits(#[trigger] descs@[j], mfr_code, capacity_id),
        },
{
    let mut i: usize = 0;
    while i < descs.len()
        invariant
            i <= descs@.len(),
            forall|j: int| 0 <= j < i ==> !description_fits(#[trigger] descs@[j], mfr_code, capacity_id),
        decreases descs@.len() - i,
    {
        let d = descs[i];
        if config_matches(d.vendor_id, d.capacity_code, mfr_code, capacity_id) {
            return Some(i);
        }
        i = i + 1;
    }
    None
}

/// Why bringing up the QSPI flash failed.
#[derive(Clone, Copy, PartialEq, Eq, Structural, Debug)]
pub enum QspiInitError {
    /// No description fits the chip's JEDEC id.
    UnknownFlash,
    /// Setting the chip and controller up for quad I/O failed.
    ConfigureFailed,
    /// The JEDEC id read again in quad I/O mode differs from the first.
    IdMismatch,
}

/// The outcome of bringing up the QSPI flash: the description found for the
/// JEDEC id read in single-line mode (`id`), whether the quad I/O set-up
/// succeeded, and the id read again in quad I/O mode (`id_qio`). The flash
/// is up with that description only when the set-up succeeded and both ids
/// agree.
pub fn qspi_init_outcome(
    found: Option<usize>,
    configure_ok: bool,
    id: (u8, u8, u8),
    id_qio: (u8, u8, u8),
) -> (r: Result<usize, QspiInitError>)
    ensures
        r == match found {
            None => Err(QspiInitError::UnknownFlash),
            Some(i) => if !configure_ok {
                Err(QspiInitError::ConfigureFailed)
            } else if id_qio != id {
                Err(QspiInitError::IdMismatch)
            } else {
                Ok(i)
            },
        },
{
    match found {
        None => Err(QspiInitError::UnknownFlash),
        Some(i) => {
            if !configure_ok {
                Err(QspiInitError::ConfigureFailed)
            } else if id_qio.0 != id.0 || id_qio.1 != id.1 || id_qio.2 != id.2 {
                Err(QspiInitError::IdMismatch)
            } else {
                Ok(i)
            }
        },
    }
}

/// Flag status register: program or erase controller ready (0 = busy).
pub const PROG_OR_ERASE_CTRL: u8 = 0x80;
/// Flag status register: program failure.
pub const PROGRAM_FAILURE: u8 = 0x10;
/// Flag status register: protection failure.
pub const PROTECTION_FAILURE: u8 = 0x02;

/// The flash is busy while its ready bit is clear.
pub fn is_busy(status: u8) -> (busy: bool)
    ensures
        busy == !(status & PROG_OR_ERASE_CTRL == PROG_OR_ERASE_CTRL),
{
    !(status & PROG_OR_ERASE_CTRL == PROG_OR_ERASE_CTRL)
}

/// A write went well unless the program or protection failure bit is set.
pub fn check_write_ok(status: u8) -> (r: Result<(), ()>)
    ensures
        r is Ok == !(status & PROGRAM_FAILURE == PROGRAM_FAILURE || status & PROTECTION_FAILURE
            == PROTECTION_FAILURE),
{
    if status & PROGRAM_FAILURE == PROGRAM_FAILURE || status & PROTECTION_FAILURE == PROTECTION_FAILURE {
        Err(())
    } else {
        Ok(())
    }
}

/// Enhanced volatile configuration register, factory value: 30-ohm drivers,
/// reserved bit, hold/reset enabled, DDR, dual and quad I/O disabled.
pub const ENHANCED_CFG_DEFAULT: u8 = 0xff;
/// Enhanced configuration bit: hold/reset enabled.
pub const ENABLE_HOLD_RESET: u8 = 0x10;
/// Enhanced configuration bit: quad I/O disabled.
pub const DISABLE_QIO: u8 = 0x80;

/// The enhanced configuration that switches the flash to quad I/O: the
/// factory value with hold/reset and quad-disable toggled.
pub fn quad_mode_config() -> (v: u8)
    ensures
        v == 0x6f,
{
    let v = ENHANCED_CFG_DEFAULT ^ (ENABLE_HOLD_RESET | DISABLE_QIO);
    assert(v == 0x6f) by (bit_vector)
        requires
            v == 0xffu8 ^ (0x10u8 | 0x80u8),
    ;
    v
}

/// Quad mode is confirmed when the register reads back the quad value.
pub fn quad_mode_confirmed(read_back: u8) -> (ok: bool)
    ensures
        ok == (read_back == 0x6f),
{
    read_back == quad_mode_config()
}

/// Dies of the MT25QU01G and their size.
pub const DIE_COUNT: usize = 2;
pub const DIE_SIZE: usize = 134_217_728;

/// Address extender and 24-bit address of the start of die `die`.
pub fn die_erase_address(die: usize) -> (r: (u8, u32))
    requires
        die < DIE_COUNT,
    ensures
        r == (if die == 0 {
            (0u8, 0u32)
        } else {
            (8u8, 0u32)
        }),
{
    let full_adress = (die * DIE_SIZE) as u32;
    let ext = (full_adress >> 24) as u8;
    let addr = full_adress & 0x00FF_FFFF;
    proof {
        if die == 0 {
            assert(full_adress == 0);
            assert((0u32 >> 24u32) as u8 == 0 && 0u32 & 0x00ff_ffff == 0) by (bit_vector);
        } else {
            assert(full_adress == 134_217_728);
            assert((134_217_728u32 >> 24u32) as u8 == 8 && 134_217_728u32 & 0x00ff_ffffu32 == 0)
                by (bit_vector);
        }
    }
    (ext, addr)
}

/// Size of a QSPI storage page: the smallest erasable unit.
pub const QSPI_PAGE_SIZE: u32 = 4096;

/// Start of the QSPI memory-mapped window.
pub const QSPI_MEMORY_MAPPED_REGION: usize = 0x9000_0000;

/// Where page `page` is reached: the address extender value and the address
/// inside the 16 MiB memory-mapped window.
pub fn page_location(page: u32) -> (r: (u8, usize))
    requires
        page * QSPI_PAGE_SIZE <= u32::MAX,
    ensures
        r.0 == ((page * QSPI_PAGE_SIZE) / 0x100_0000) % 256,
        r.1 == QSPI_MEMORY_MAPPED_REGION + (page * QSPI_PAGE_SIZE) % 0x100_0000,
{
    let full_adress = (page * QSPI_PAGE_SIZE) as usize;
    let addr24 = full_adress & 0x00FF_FFFF;
    let ext = (full_adress >> 24) as u8;
    proof {
        assert(full_adress <= 0xffff_ffff);
        assert(full_adress & 0x00ff_ffff == full_adress % 0x100_0000) by (bit_vector);
        assert(full_adress <= 0xffff_ffff ==> (full_adress >> 24usize) as u8 == (full_adress
            / 0x100_0000) % 256) by (bit_vector);
        assert(addr24 < 0x100_0000);
    }
    (ext, QSPI_MEMORY_MAPPED_REGION + addr24)
}

/// The QSPI data storage as the storage queries see it: the capacity, in
/// bytes, that its flash driver reports.
#[derive(Clone, Copy, PartialEq, Eq, Structural, Debug)]
pub struct QspiStorage {
    pub capacity: usize,
}

/// Byte size a QSPI storage reports: its capacity when its flash driver
/// can be had at once, 0 when the driver is busy.
pub open spec fn qspi_size_spec(s: QspiStorage, driver_free: bool) -> usize {
    if driver_free {
        s.capacity
    } else {
        0
    }
}

/// Page count a QSPI storage reports: its byte size cut to 32 bits,
/// divided by the page size.
pub open spec fn qspi_pages_spec(s: QspiStorage, driver_free: bool) -> u32 {
    (qspi_size_spec(s, driver_free) as u32) / QSPI_PAGE_SIZE
}

impl QspiStorage {
    /// The page size: the smallest erasable unit.
    pub fn flash_page_size(&self) -> (n: u32)
        ensures
            n == QSPI_PAGE_SIZE,
    {
        QSPI_PAGE_SIZE
    }

    /// The byte size; `driver_free` tells whether the flash driver could be
    /// had without waiting.
    pub fn flash_size(&self, driver_free: bool) -> (n: usize)
        ensures
            n == qspi_size_spec(*self, driver_free),
    {
        if driver_free {
            self.capacity
        } else {
            0
        }
    }

    /// The page count: the byte size over the page size.
    pub fn flash_size_pages(&self, driver_free: bool) -> (n: u32)
        ensures
            n == qspi_pages_spec(*self, driver_free),
    {
        let size = self.flash_size(driver_free);
        let page = self.flash_page_size();
        (size as u32) / page
    }
}

/// What a memory-mapping request does.
#[derive(Clone, Copy, PartialEq, Eq, Structural, Debug)]
pub enum MappingAction {
    /// Already in the requested mode.
    Nothing,
    /// Start memory mapping (quad I/O fast read).
    Start,
    /// Abort memory mapping.
    Abort,
    /// No flash description: the request fails.
    Fail,
}

/// The memory-mapping switch: nothing when the
/// mode is already the requested one; a failure without a flash
/// description; otherwise start or abort mapping, after which the mode is
/// the requested one (when the start itself fails the mode stays).
pub fn mapping_action(mapped: bool, enable: bool, configured: bool) -> (a: MappingAction)
    ensures
        a == if enable == mapped {
            MappingAction::Nothing
        } else if !configured {
            MappingAction::Fail
        } else if enable {
            MappingAction::Start
        } else {
            MappingAction::Abort
        },
{
    if enable == mapped {
        MappingAction::Nothing
    } else if !configured {
        MappingAction::Fail
    } else if enable {
        MappingAction::Start
    } else {
        MappingAction::Abort
    }
}

/// Flash command set used by the driver.
#[derive(Clone, Copy, PartialEq, Eq, Structural, Debug)]
pub enum Opcode {
    ReadDeviceId,
    ReadMfDId,
    ReadJedecId,
    WriteEnable,
    WriteDisable,
    ReadStatus,
    WriteStatus,
    Read,
    PageProg,
    SectorErase,
    BlockErase,
    ChipErase,
    ReadJedecIdMIO,
    ReadFlagStatus,
    QIOFastRead,
    WriteAddrExtanderReg,
}

/// The command byte of an opcode.
pub fn opcode_byte(op: Opcode) -> (b: u8)
    ensures
        b == match op {
            Opcode::ReadDeviceId => 0xABu8,
            Opcode::ReadMfDId => 0x90u8,
            Opcode::ReadJedecId => 0x9Fu8,
            Opcode::WriteEnable => 0x06u8,
            Opcode::WriteDisable => 0x04u8,
            Opcode::ReadStatus => 0x05u8,
            Opcode::WriteStatus => 0x01u8,
            Opcode::Read => 0x03u8,
            Opcode::PageProg => 0x02u8,
            Opcode::SectorErase => 0x20u8,
            Opcode::BlockErase => 0xD8u8,
            Opcode::ChipErase => 0xC7u8,
            Opcode::ReadJedecIdMIO => 0xAFu8,
            Opcode::ReadFlagStatus => 0x70u8,
            Opcode::QIOFastRead => 0xEBu8,
            Opcode::WriteAddrExtanderReg => 0xC5u8,
        },
{
    match op {
        Opcode::ReadDeviceId => 0xAB,
        Opcode::ReadMfDId => 0x90,
        Opcode::ReadJedecId => 0x9F,
        Opcode::WriteEnable => 0x06,
        Opcode::WriteDisable => 0x04,
        Opcode::ReadStatus => 0x05,
        Opcode::WriteStatus => 0x01,
        Opcode::Read => 0x03,
        Opcode::PageProg => 0x02,
        Opcode::SectorErase => 0x20,
        Opcode::BlockErase => 0xD8,
        Opcode::ChipErase => 0xC7,
        Opcode::ReadJedecIdMIO => 0xAF,
        Opcode::ReadFlagStatus => 0x70,
        Opcode::QIOFastRead => 0xEB,
        Opcode::WriteAddrExtanderReg => 0xC5,
    }
}

/// The JEDEC id read command: multi-I/O in quad mode, plain otherwise.
pub fn jedec_id_opcode(use_qspi: bool) -> (op: Opcode)
    ensures
        op == if use_qspi {
            Opcode::ReadJedecIdMIO
        } else {
            Opcode::ReadJedecId
        },
{
    if use_qspi {
        Opcode::ReadJedecIdMIO
    } else {
        Opcode::ReadJedecId
    }
}

} // verus!
