//! The data pages kept in the controller's own flash: eight pages of 2 KiB.
use vstd::prelude::*;

verus! {

/// Size of an internal flash page, bytes.
pub const INTERNAL_FLASH_PAGE_SIZE: usize = 2048;

/// Number of internal flash pages.
pub const INTERNAL_FLASH_PAGES: usize = 8;

/// Bytes of internal storage.
pub fn flash_size() -> (n: usize)
    ensures
        n == INTERNAL_FLASH_PAGE_SIZE * INTERNAL_FLASH_PAGES,
{
    INTERNAL_FLASH_PAGE_SIZE * INTERNAL_FLASH_PAGES
}

/// Pages of internal storage.
pub fn flash_size_pages() -> (n: u32)
    ensures
        n == INTERNAL_FLASH_PAGES,
{
    (flash_size() / INTERNAL_FLASH_PAGE_SIZE) as u32
}

/// Internal storage cannot be erased as a whole.
pub fn flash_erease() -> (r: Result<(), ()>)
    ensures
        r is Err,
{
    Err(())
}

/// Every internal page counts as free: the first page from `start` is
/// `start` itself while it exists.
pub fn find_next_empty_page(start: u32) -> (r: Option<u32>)
    ensures
        r == if start < INTERNAL_FLASH_PAGES {
            Some(start)
        } else {
            None
        },
{
    if start < flash_size_pages() {
        Some(start)
    } else {
        None
    }
}

/// Offset of page `page` from the start of internal storage.
pub fn page_offset(page: u32) -> (off: usize)
    requires
        page < INTERNAL_FLASH_PAGES,
    ensures
        off == page * INTERNAL_FLASH_PAGE_SIZE,
        off + INTERNAL_FLASH_PAGE_SIZE <= INTERNAL_FLASH_PAGE_SIZE * INTERNAL_FLASH_PAGES,
{
    page as usize * INTERNAL_FLASH_PAGE_SIZE
}

} // verus!
