//! Data storage rules: what the installed storage reports, the search for
//! the next free page with its cached memory state, and the page
//! bookkeeping of the data writers.
use vstd::prelude::*;

use crate::qspi::{qspi_pages_spec, qspi_size_spec, QspiStorage, QSPI_PAGE_SIZE};

verus! {

/// What is known of the data pages.
#[derive(Clone, Copy, PartialEq, Eq, Structural, Debug)]
pub enum MemoryState {
    Undefined,
    /// Pages before the given one are used; it is free.
    PartialUsed(u32),
    FullUsed,
}

/// The outcome of writing a page, with its block id.
#[derive(Clone, Copy, PartialEq, Eq, Structural, Debug)]
pub enum PageWriteResult {
    Succes(u32),
    Fail(u32),
}

/// Page size of the installed storage, 0 without one.
pub open spec fn storage_page_size_spec(installed: Option<QspiStorage>) -> u32 {
    match installed {
        Some(_) => QSPI_PAGE_SIZE,
        None => 0,
    }
}

/// Byte size of the installed storage, 0 without one.
pub open spec fn storage_size_spec(installed: Option<QspiStorage>, driver_free: bool) -> usize {
    match installed {
        Some(s) => qspi_size_spec(s, driver_free),
        None => 0,
    }
}

/// Page count of the installed storage, 0 without one.
pub open spec fn storage_pages_spec(installed: Option<QspiStorage>, driver_free: bool) -> u32 {
    match installed {
        Some(s) => qspi_pages_spec(s, driver_free),
        None => 0,
    }
}

/// Page size of the installed storage, 0 without one.
pub fn flash_page_size(installed: Option<QspiStorage>) -> (r: u32)
    ensures
        r == storage_page_size_spec(installed),
{
    match installed {
        Some(s) => s.flash_page_size(),
        None => 0,
    }
}

/// Byte size of the installed storage, 0 without one; `driver_free` tells
/// whether its flash driver could be had without waiting.
pub fn flash_size(installed: Option<QspiStorage>, driver_free: bool) -> (r: usize)
    ensures
        r == storage_size_spec(installed, driver_free),
{
    match installed {
        Some(s) => s.flash_size(driver_free),
        None => 0,
    }
}

/// Page count of the installed storage, 0 without one.
pub fn flash_size_pages(installed: Option<QspiStorage>, driver_free: bool) -> (r: u32)
    ensures
        r == storage_pages_spec(installed, driver_free),
{
    match installed {
        Some(s) => s.flash_size_pages(driver_free),
        None => 0,
    }
}

/// The page count of the storage is its byte size (cut to 32 bits) divided
/// by its page size, and 0 when no storage is installed.
pub proof fn law_page_count_is_size_over_page_size(installed: Option<QspiStorage>, driver_free: bool)
    ensures
        installed is None ==> storage_pages_spec(installed, driver_free) == 0,
        installed is Some ==> storage_page_size_spec(installed) > 0
            && storage_pages_spec(installed, driver_free) == (storage_size_spec(
            installed,
            driver_free,
        ) as u32) / storage_page_size_spec(installed),
{
}

/// Whether a whole-storage erase runs. A request while one runs is
/// refused; otherwise the flag is raised and the erase task is to be
/// started, and the task lowers the flag when it is done.
#[derive(Clone, Copy, PartialEq, Eq, Structural, Debug)]
pub struct EraseGuard {
    pub in_progress: bool,
}

/// An erase was asked for while another runs.
#[derive(Clone, Copy, PartialEq, Eq, Structural, Debug)]
pub enum EraseRefused {
    AlreadyRunning,
}

impl EraseGuard {
    pub fn new() -> (g: EraseGuard)
        ensures
            !g.in_progress,
    {
        EraseGuard { in_progress: false }
    }

    /// A request to erase the storage: refused while an erase runs, else
    /// accepted, and the erase counts as running from now on.
    pub fn request_erase(&mut self) -> (r: Result<(), EraseRefused>)
        ensures
            old(self).in_progress ==> r == Err::<(), EraseRefused>(EraseRefused::AlreadyRunning)
                && *final(self) == *old(self),
            !old(self).in_progress ==> r is Ok && final(self).in_progress,
    {
        if self.in_progress {
            Err(EraseRefused::AlreadyRunning)
        } else {
            self.in_progress = true;
            Ok(())
        }
    }

    /// The erase task is done, whatever its outcome.
    pub fn erase_finished(&mut self)
        ensures
            !final(self).in_progress,
    {
        self.in_progress = false;
    }
}

/// A page whose header block ids are both all ones was never written (erased
/// flash reads as `FF`).
pub fn header_erased(this_block_id: u32, prev_block_id: u32) -> (r: bool)
    ensures
        r == (this_block_id == u32::MAX && prev_block_id == u32::MAX),
{
    let m = if this_block_id < prev_block_id { this_block_id } else { prev_block_id };
    m == u32::MAX
}

/// Finds the first free page at or after `start` among `pages` pages.
/// `cached` is the known memory state (`Undefined` when it cannot be read);
/// `is_erased` reads a page's header. Returns the page and the memory
/// state to record, if any.
pub fn find_next_empty_page<F: Fn(u32) -> bool>(
    cached: MemoryState,
    start: u32,
    pages: u32,
    is_erased: &F,
) -> (r: (Option<u32>, Option<MemoryState>))
    requires
        forall|p: u32| start <= p < pages ==> #[trigger] is_erased.requires((p,)),
    ensures
        match cached {
            MemoryState::PartialUsed(n) if start <= n => r == (Some(n), None::<MemoryState>),
            MemoryState::FullUsed => r == (None::<u32>, None::<MemoryState>),
            _ => match r.0 {
                Some(p) => {
                    &&& start <= p < pages
                    &&& is_erased.ensures((p,), true)
                    &&& forall|q: u32| start <= q < p ==> #[trigger] is_erased.ensures((q,), false)
                    &&& r.1 == Some(MemoryState::PartialUsed(p))
                },
                None => r.1 == Some(MemoryState::FullUsed),
            },
        },
        r.0 is None && !(cached matches MemoryState::FullUsed) ==> forall|q: u32|
            start <= q < pages ==> #[trigger] is_erased.ensures((q,), false),
{
    match cached {
        MemoryState::PartialUsed(n) => {
            if start <= n {
                return (Some(n), None);
            }
        },
        MemoryState::FullUsed => {
            return (None, None);
        },
        _ => {},
    }
    if start < pages {
        let mut p: u32 = start;
        while p < pages
            invariant
                start <= p <= pages,
                match cached {
                    MemoryState::PartialUsed(n) => n < start,
                    MemoryState::FullUsed => false,
                    _ => true,
                },
                forall|q: u32| start <= q < pages ==> #[trigger] is_erased.requires((q,)),
                forall|q: u32| start <= q < p ==> #[trigger] is_erased.ensures((q,), false),
            decreases pages - p,
        {
            let e = is_erased(p);
            if e {
                return (Some(p), Some(MemoryState::PartialUsed(p)));
            }
            p = p + 1;
        }
    }
    (None, Some(MemoryState::FullUsed))
}

/// What a value pushed into a data block says.
#[derive(Clone, Copy, PartialEq, Eq, Structural, Debug)]
pub enum PushResult {
    Success,
    Full,
    Overflow,
    Finished,
}

/// Whether the block is full after a push: only `Full` says so.
pub fn block_full(p: PushResult) -> (full: bool)
    requires
        p != PushResult::Finished,
    ensures
        full == (p == PushResult::Full),
{
    match p {
        PushResult::Success => false,
        PushResult::Full => true,
        PushResult::Overflow => false,
        PushResult::Finished => false,
    }
}

/// The value a data block stores for a channel result in the recorder that
/// keeps the last value of each of its two channels: the signed difference
/// to the channel's last result, which then becomes the last result; 0
/// without a result.
pub fn diff_value(prevs: &mut Vec<u32>, channel: usize, result: Option<u32>) -> (v: i32)
    requires
        old(prevs).len() == 2,
        channel < 2,
        result matches Some(r) ==> i32::MIN <= (r as i32) - (old(prevs)[channel as int] as i32)
            <= i32::MAX,
    ensures
        final(prevs).len() == 2,
        match result {
            Some(r) => {
                &&& v == (r as i32) - (old(prevs)[channel as int] as i32)
                &&& final(prevs)@ == old(prevs)@.update(channel as int, r)
            },
            None => v == 0 && final(prevs)@ == old(prevs)@,
        },
{
    match result {
        Some(r) => {
            let diff = (r as i32) - (prevs[channel] as i32);
            prevs.set(channel, r);
            diff
        },
        None => 0,
    }
}

/// The value a data block stores in the recorder that keeps fixed base
/// values: the difference to the channel's base, or the base itself
/// without a result.
pub fn base_diff_value(prevs: &Vec<u32>, channel: usize, result: Option<u32>) -> (v: u32)
    requires
        prevs.len() == 2,
        channel < 2,
        result matches Some(r) ==> r >= prevs[channel as int],
    ensures
        v == match result {
            Some(r) => (r - prevs[channel as int]) as u32,
            None => prevs[channel as int],
        },
{
    match result {
        Some(r) => r - prevs[channel],
        None => prevs[channel],
    }
}

/// Block ids and target page of a new data block.
#[derive(Clone, Copy, PartialEq, Eq, Structural, Debug)]
pub struct PageIds {
    pub prev_id: u32,
    pub this_id: u32,
    pub dest_page: u32,
}

/// Why no new data block was made.
#[derive(Clone, Copy, PartialEq, Eq, Structural, Debug)]
pub enum PageError {
    /// A block is already out, or memory is full.
    OutOfMemory,
    /// The settings could not be read.
    SettingsUnavailable,
}

/// Page bookkeeping of a data writer: the next page number and whether a
/// block is out.
pub struct PageAllocator {
    pub next_page_number: u32,
    pub page_aqured: bool,
}

impl PageAllocator {
    pub fn new() -> (a: PageAllocator)
        ensures
            a.next_page_number == 0,
            !a.page_aqured,
    {
        PageAllocator { next_page_number: 0, page_aqured: false }
    }

    /// A new block for a writer that searches free pages: `found` is the
    /// first free page from `next_page_number`, `settings_ok` whether the
    /// settings could be read. The block gets ids
    /// `(page - 1, page)` (0 for the first) and page `page`; the next page
    /// number moves past it.
    pub fn try_create_new_page(&mut self, found: Option<u32>, settings_ok: bool) -> (r: Result<PageIds, PageError>)
        requires
            found matches Some(p) ==> p < u32::MAX,
        ensures
            old(self).page_aqured ==> r == Err::<PageIds, PageError>(PageError::OutOfMemory)
                && *final(self) == *old(self),
            !old(self).page_aqured ==> match found {
                None => r == Err::<PageIds, PageError>(PageError::OutOfMemory) && *final(self)
                    == *old(self),
                Some(p) => if settings_ok {
                    &&& r == Ok::<PageIds, PageError>(
                        PageIds {
                            prev_id: if p == 0 {
                                0
                            } else {
                                (p - 1) as u32
                            },
                            this_id: p,
                            dest_page: p,
                        },
                    )
                    &&& final(self).next_page_number == p + 1
                    &&& final(self).page_aqured
                } else {
                    &&& r == Err::<PageIds, PageError>(PageError::SettingsUnavailable)
                    &&& final(self).next_page_number == p
                    &&& !final(self).page_aqured
                },
            },
    {
        if self.page_aqured {
            return Err(PageError::OutOfMemory);
        }
        match found {
            Some(ep) => {
                self.next_page_number = ep;
            },
            None => {
                return Err(PageError::OutOfMemory);
            },
        }
        if !settings_ok {
            return Err(PageError::SettingsUnavailable);
        }
        let prev_id = match self.next_page_number.checked_sub(1) {
            Some(v) => v,
            None => 0,
        };
        let ids = PageIds {
            prev_id,
            this_id: self.next_page_number,
            dest_page: self.next_page_number,
        };
        self.next_page_number = self.next_page_number + 1;
        self.page_aqured = true;
        Ok(ids)
    }

    /// The block is handed back for writing: a new one may be made.
    pub fn release(&mut self)
        ensures
            !final(self).page_aqured,
            final(self).next_page_number == old(self).next_page_number,
    {
        self.page_aqured = false;
    }
}

/// The outcome of writing block `id`: success only when the block data was
/// made, its page could be selected and the write succeeded.
pub fn write_result(id: u32, generated: bool, selected: bool, written: bool) -> (r: PageWriteResult)
    ensures
        r == if generated && selected && written {
            PageWriteResult::Succes(id)
        } else {
            PageWriteResult::Fail(id)
        },
{
    if generated && selected && written {
        PageWriteResult::Succes(id)
    } else {
        PageWriteResult::Fail(id)
    }
}

/// A page of recorded values.
pub trait DataPage {
    /// The page can count one more value.
    spec fn accepts_push(&self) -> bool;

    /// Pushes a result of `channel`; true when no room is left.
    fn push_data(&mut self, result: Option<u32>, channel: usize) -> bool
        requires
            old(self).accepts_push(),
    ;

    /// Ends the page.
    fn finalise(&mut self);
}

/// Something that makes and writes data pages.
pub trait WriteController<P> {
    /// A page number is left for a new page.
    spec fn can_create(&self) -> bool;

    fn try_create_new_page(&mut self) -> Result<P, PageError>
        requires
            old(self).can_create(),
    ;

    fn write(&mut self, page: P) -> PageWriteResult;
}

/// A page that fills up after eleven values.
pub struct TestDataPage {
    pub page_number: u32,
    pub counter: u8,
}

impl DataPage for TestDataPage {
    open spec fn accepts_push(&self) -> bool {
        self.counter < 255
    }

    fn push_data(&mut self, result: Option<u32>, channel: usize) -> (full: bool)
        ensures
            final(self).counter == old(self).counter + 1,
            final(self).page_number == old(self).page_number,
            full == (old(self).counter + 1 > 10),
    {
        self.counter = self.counter + 1;
        self.counter > 10
    }

    fn finalise(&mut self) {
    }
}

/// A writer that numbers pages in turn and reports every write a success.
pub struct TestWriter {
    pub page: u32,
}

impl WriteController<TestDataPage> for TestWriter {
    open spec fn can_create(&self) -> bool {
        self.page < u32::MAX
    }

    fn try_create_new_page(&mut self) -> (r: Result<TestDataPage, PageError>)
        ensures
            r == Ok::<TestDataPage, PageError>(TestDataPage { page_number: old(self).page, counter: 0 }),
            final(self).page == old(self).page + 1,
    {
        let res = TestDataPage { page_number: self.page, counter: 0 };
        self.page = self.page + 1;
        Ok(res)
    }

    fn write(&mut self, page: TestDataPage) -> (r: PageWriteResult)
        ensures
            r == PageWriteResult::Succes(page.page_number),
    {
        PageWriteResult::Succes(page.page_number)
    }
}

} // verus!
