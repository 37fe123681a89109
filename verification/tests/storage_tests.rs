use opal::internal_storage;
use opal::qspi::{
    capacity, check_write_ok, config_matches, die_erase_address, is_busy, jedec_id_opcode,
    mapping_action, opcode_byte, page_location, qspi_settings,
    quad_mode_config, quad_mode_confirmed, MappingAction, Opcode, QspiStorage,
    find_flash_config, known_flashes, qspi_init_outcome, FlashDescription, QspiInitError,
};
use opal::storage::{
    EraseGuard, EraseRefused,
    base_diff_value, block_full, diff_value, find_next_empty_page, flash_page_size, flash_size,
    flash_size_pages, header_erased, write_result, DataPage, MemoryState, PageAllocator,
    PageError, PageIds, PageWriteResult, PushResult, TestWriter, WriteController,
};

#[test]
fn storage_reports_zero_without_storage() {
    assert_eq!(flash_page_size(None), 0);
    assert_eq!(flash_size(None, true), 0);
    assert_eq!(flash_size_pages(None, true), 0);
}

#[test]
fn storage_page_count_is_size_over_page_size() {
    // MT25QU01G: 128 MiB.
    let q = QspiStorage { capacity: 1 << 27 };
    assert_eq!(flash_page_size(Some(q)), 4096);
    assert_eq!(flash_size(Some(q), true), 1 << 27);
    assert_eq!(flash_size_pages(Some(q), true), 32768);
    assert_eq!(
        flash_size_pages(Some(q), true),
        flash_size(Some(q), true) as u32 / flash_page_size(Some(q))
    );
    // Driver busy: the size reads 0, and so does the page count.
    assert_eq!(flash_size(Some(q), false), 0);
    assert_eq!(flash_size_pages(Some(q), false), 0);
    let small = QspiStorage { capacity: 1 << 20 };
    assert_eq!(flash_size_pages(Some(small), true), 256);
    assert_eq!(small.flash_size_pages(true), 256);
}

#[test]
fn erased_header() {
    assert!(header_erased(u32::MAX, u32::MAX));
    assert!(!header_erased(u32::MAX, 3));
    assert!(!header_erased(4, u32::MAX));
}

#[test]
fn next_empty_page_uses_the_cache() {
    let never = |_p: u32| -> bool { panic!("no page read expected") };
    assert_eq!(find_next_empty_page(MemoryState::PartialUsed(5), 2, 10, &never), (Some(5), None));
    assert_eq!(find_next_empty_page(MemoryState::FullUsed, 0, 10, &never), (None, None));
}

#[test]
fn next_empty_page_scans_headers() {
    let erased_from_7 = |p: u32| p >= 7;
    assert_eq!(
        find_next_empty_page(MemoryState::Undefined, 2, 10, &erased_from_7),
        (Some(7), Some(MemoryState::PartialUsed(7)))
    );
    assert_eq!(
        find_next_empty_page(MemoryState::PartialUsed(1), 2, 10, &erased_from_7),
        (Some(7), Some(MemoryState::PartialUsed(7)))
    );
    let none_erased = |_p: u32| false;
    assert_eq!(
        find_next_empty_page(MemoryState::Undefined, 0, 10, &none_erased),
        (None, Some(MemoryState::FullUsed))
    );
    assert_eq!(
        find_next_empty_page(MemoryState::Undefined, 12, 10, &none_erased),
        (None, Some(MemoryState::FullUsed))
    );
}

#[test]
fn block_full_only_on_full() {
    assert!(block_full(PushResult::Full));
    assert!(!block_full(PushResult::Success));
    assert!(!block_full(PushResult::Finished));
}

#[test]
fn diff_values_of_channels() {
    let mut prevs = vec![100u32, 200u32];
    assert_eq!(diff_value(&mut prevs, 0, Some(150)), 50);
    assert_eq!(prevs, vec![150, 200]);
    assert_eq!(diff_value(&mut prevs, 1, Some(190)), -10);
    assert_eq!(prevs, vec![150, 190]);
    assert_eq!(diff_value(&mut prevs, 1, None), 0);
    assert_eq!(prevs, vec![150, 190]);
    assert_eq!(base_diff_value(&prevs, 0, Some(160)), 10);
    assert_eq!(base_diff_value(&prevs, 0, None), 150);
}

#[test]
fn page_allocation() {
    let mut a = PageAllocator::new();
    assert_eq!(
        a.try_create_new_page(Some(0), true),
        Ok(PageIds { prev_id: 0, this_id: 0, dest_page: 0 })
    );
    assert_eq!(a.next_page_number, 1);
    assert_eq!(a.try_create_new_page(Some(1), true), Err(PageError::OutOfMemory));
    a.release();
    assert_eq!(
        a.try_create_new_page(Some(4), true),
        Ok(PageIds { prev_id: 3, this_id: 4, dest_page: 4 })
    );
    assert_eq!(a.next_page_number, 5);
    a.release();
    assert_eq!(a.try_create_new_page(None, true), Err(PageError::OutOfMemory));
    assert_eq!(a.try_create_new_page(Some(6), false), Err(PageError::SettingsUnavailable));
    assert_eq!(a.next_page_number, 6);
}

#[test]
fn write_outcomes() {
    assert_eq!(write_result(3, true, true, true), PageWriteResult::Succes(3));
    assert_eq!(write_result(3, false, true, true), PageWriteResult::Fail(3));
    assert_eq!(write_result(3, true, false, true), PageWriteResult::Fail(3));
    assert_eq!(write_result(3, true, true, false), PageWriteResult::Fail(3));
}

#[test]
fn test_writer_pages() {
    let mut w = TestWriter { page: 0 };
    let mut p = match w.try_create_new_page() {
        Ok(p) => p,
        Err(_) => panic!("test writer always makes a page"),
    };
    assert_eq!(p.page_number, 0);
    assert_eq!(w.page, 1);
    let mut full = false;
    for _ in 0..11 {
        full = p.push_data(Some(1), 0);
    }
    assert!(full);
    assert_eq!(p.counter, 11);
    p.finalise();
    assert_eq!(w.write(p), PageWriteResult::Succes(0));
}

#[test]
fn internal_storage_layout() {
    assert_eq!(internal_storage::flash_size(), 16384);
    assert_eq!(internal_storage::flash_size_pages(), 8);
    assert!(internal_storage::flash_erease().is_err());
    assert_eq!(internal_storage::find_next_empty_page(3), Some(3));
    assert_eq!(internal_storage::find_next_empty_page(8), None);
    assert_eq!(internal_storage::page_offset(7), 7 * 2048);
}

#[test]
fn qspi_capacity_and_settings() {
    assert_eq!(capacity(26), 1usize << 27);
    assert_eq!(capacity(0), 2);
    let s = qspi_settings(80_000_000, 40_000_000, 26);
    assert_eq!((s.clock_prescaler, s.flash_size, s.chip_select_high_time), (2, 23, 8));
    let s = qspi_settings(10_000_000, 40_000_000, 20);
    assert_eq!((s.clock_prescaler, s.flash_size, s.chip_select_high_time), (1, 20, 1));
    assert!(config_matches(0x20, 0x21, 0x20, 0x21));
    assert!(!config_matches(0x20, 0x21, 0x20, 0x20));
}

#[test]
fn qspi_status_bits() {
    assert!(is_busy(0x00));
    assert!(!is_busy(0x80));
    assert!(check_write_ok(0x80).is_ok());
    assert!(check_write_ok(0x90).is_err());
    assert!(check_write_ok(0x82).is_err());
    assert_eq!(quad_mode_config(), 0x6f);
    assert!(quad_mode_confirmed(0x6f));
    assert!(!quad_mode_confirmed(0xff));
}

#[test]
fn qspi_addresses() {
    assert_eq!(die_erase_address(0), (0, 0));
    assert_eq!(die_erase_address(1), (8, 0));
    assert_eq!(page_location(0), (0, 0x9000_0000));
    assert_eq!(page_location(4096), (1, 0x9000_0000));
    assert_eq!(page_location(4097), (1, 0x9000_1000));
    assert_eq!(QspiStorage { capacity: 1 << 27 }.flash_size_pages(true), 32768);
}

#[test]
fn qspi_mapping_switch() {
    assert_eq!(mapping_action(true, true, true), MappingAction::Nothing);
    assert_eq!(mapping_action(false, true, false), MappingAction::Fail);
    assert_eq!(mapping_action(false, true, true), MappingAction::Start);
    assert_eq!(mapping_action(true, false, true), MappingAction::Abort);
}

#[test]
fn qspi_opcodes() {
    assert_eq!(opcode_byte(Opcode::ReadJedecId), 0x9F);
    assert_eq!(opcode_byte(Opcode::QIOFastRead), 0xEB);
    assert_eq!(opcode_byte(Opcode::WriteAddrExtanderReg), 0xC5);
    assert_eq!(jedec_id_opcode(true), Opcode::ReadJedecIdMIO);
    assert_eq!(jedec_id_opcode(false), Opcode::ReadJedecId);
}

#[test]
fn qspi_flash_search() {
    let known = known_flashes();
    assert_eq!(known.len(), 1);
    assert_eq!(find_flash_config(&known, 0x20, 0x21), Some(0));
    assert_eq!(find_flash_config(&known, 0x20, 0x20), None);
    assert_eq!(find_flash_config(&known, 0xef, 0x21), None);
    let other = FlashDescription { vendor_id: 0xef, capacity_code: 0x18, size_code: 23, max_freq_hz: 80_000_000 };
    let list = [other, known[0], known[0]];
    assert_eq!(find_flash_config(&list, 0x20, 0x21), Some(1));
    assert_eq!(find_flash_config(&list, 0xef, 0x18), Some(0));
    assert_eq!(find_flash_config(&[], 0x20, 0x21), None);
}

#[test]
fn qspi_init_outcomes() {
    let id = (0x20, 0xbb, 0x21);
    assert_eq!(qspi_init_outcome(None, true, id, id), Err(QspiInitError::UnknownFlash));
    assert_eq!(qspi_init_outcome(Some(0), false, id, id), Err(QspiInitError::ConfigureFailed));
    assert_eq!(qspi_init_outcome(Some(0), true, id, (0xff, 0xff, 0xff)), Err(QspiInitError::IdMismatch));
    assert_eq!(qspi_init_outcome(Some(0), true, id, id), Ok(0));
}

#[test]
fn erase_refused_while_running() {
    let mut g = EraseGuard::new();
    assert_eq!(g.request_erase(), Ok(()));
    assert!(g.in_progress);
    assert_eq!(g.request_erase(), Err(EraseRefused::AlreadyRunning));
    assert!(g.in_progress);
    g.erase_finished();
    assert!(!g.in_progress);
    assert_eq!(g.request_erase(), Ok(()));
}
