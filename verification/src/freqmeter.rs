//! Frequency meter rules: 32-bit cycle targets split into prescaler and
//! reload, the period between two captures, the reference-counted master
//! counter, and the master counter's overflow extension.
use vstd::prelude::*;

verus! {

/// The largest reload the 16-bit input timers take (exclusive bound).
pub const RELOAD_LIMIT: u32 = 65535;

/// The cycle target of a timer with prescaler `prescaler` and reload
/// `reload`: `(prescaler + 1) * reload`.
pub fn as_target32(prescaler: u32, reload: u32) -> (t: u32)
    requires
        prescaler < u32::MAX,
        (prescaler + 1) * reload <= u32::MAX,
    ensures
        t == (prescaler + 1) * reload,
{
    (prescaler + 1) * reload
}

/// The target that `transform_target32` works with: at least 3.
pub open spec fn clamped_target(target: u32) -> int {
    if target < 3 {
        3
    } else {
        target as int
    }
}

/// The smallest divider `p >= 1` with `t / p < RELOAD_LIMIT`.
pub open spec fn first_divider(t: int, p: int) -> int
    decreases 65535 - p,
{
    if p >= 65535 || t / p < RELOAD_LIMIT {
        p
    } else {
        first_divider(t, p + 1)
    }
}

/// A target that some divider below 65535 brings under the reload limit
/// (no prescaler fits larger ones, and the split cannot be made).
pub open spec fn target_splittable(target: u32) -> bool {
    clamped_target(target) / 65534 < RELOAD_LIMIT
}

pub proof fn lemma_first_divider(t: int, p: int)
    requires
        1 <= p <= 65534,
        t >= 0,
        t / 65534 < RELOAD_LIMIT,
    ensures
        p <= first_divider(t, p) <= 65534,
        t / first_divider(t, p) < RELOAD_LIMIT,
    decreases 65535 - p,
{
    if t / p >= RELOAD_LIMIT {
        if p == 65534 {
        } else {
            lemma_first_divider(t, p + 1);
        }
    }
}

/// Splits a cycle target into prescaler and reload: the target is raised
/// to at least 3, the prescaler is one less than the smallest divider that
/// brings the reload under 65535, and the reload is the target divided by
/// it.
pub fn transform_target32(target: u32) -> (r: (u32, u32))
    requires
        target_splittable(target),
    ensures
        r.0 + 1 == first_divider(clamped_target(target), 1),
        r.1 == clamped_target(target) / (r.0 + 1),
        r.1 < RELOAD_LIMIT,
{
    let tgt: u32 = if target < 3 { 3 } else { target };
    let ghost t = tgt as int;
    proof {
        lemma_first_divider(t, 1);
    }
    let mut prescaler: u32 = 1;
    while prescaler < 65535
        invariant
            1 <= prescaler <= 65534,
            t == tgt,
            t == clamped_target(target),
            t / 65534 < RELOAD_LIMIT,
            first_divider(t, prescaler as int) == first_divider(t, 1),
            first_divider(t, 1) <= 65534,
            prescaler <= first_divider(t, 1),
        decreases 65535 - prescaler,
    {
        let reload = tgt / prescaler;
        if reload < 65535 {
            assert(first_divider(t, prescaler as int) == prescaler);
            return (prescaler - 1, reload);
        }
        proof {
            lemma_first_divider(t, prescaler as int);
        }
        prescaler = prescaler + 1;
    }
    (0, 0)
}

/// A split target stays within one prescaler step below the target:
/// `(psc + 1) * reload <= t < (psc + 1) * (reload + 1)`.
pub proof fn law_split_target_is_close(target: u32)
    requires
        target_splittable(target),
    ensures
        ({
            let t = clamped_target(target);
            let p = first_divider(t, 1);
            &&& 1 <= p <= 65534
            &&& p * (t / p) <= t < p * (t / p + 1)
        }),
{
    let t = clamped_target(target);
    lemma_first_divider(t, 1);
    let p = first_divider(t, 1);
    assert(p * (t / p) <= t < p * (t / p + 1)) by (nonlinear_arith)
        requires
            p >= 1,
            t >= 0,
    ;
}

/// Capture processing of a frequency meter channel: the last captured
/// master counter value and whether the next capture starts a measurement.
pub struct CaptureState {
    pub prev: u32,
    pub start: bool,
}

/// The period between captures `prev` and `captured`: their difference,
/// or `u32::MAX - prev + captured` when the counter wrapped.
pub open spec fn period_spec(prev: u32, captured: u32) -> u32 {
    if prev <= captured {
        (captured - prev) as u32
    } else {
        (u32::MAX - prev + captured) as u32
    }
}

impl CaptureState {
    pub fn new() -> (s: CaptureState)
        ensures
            s.prev == 0,
            !s.start,
    {
        CaptureState { prev: 0, start: false }
    }

    /// The next capture starts a measurement.
    pub fn restart(&mut self)
        ensures
            final(self).start,
            final(self).prev == old(self).prev,
    {
        self.start = true;
    }

    /// A captured value: the first after a restart only
    /// records it; each later one gives the period since the previous.
    pub fn input_captured(&mut self, captured: u32) -> (r: Option<u32>)
        ensures
            final(self).prev == captured,
            !final(self).start,
            r == if old(self).start {
                None
            } else {
                Some(period_spec(old(self).prev, captured))
            },
    {
        if self.start {
            self.start = false;
            self.prev = captured;
            None
        } else {
            let diff = if self.prev <= captured {
                captured - self.prev
            } else {
                u32::MAX - self.prev + captured
            };
            self.prev = captured;
            Some(diff)
        }
    }
}

/// Consecutive periods add up to the counter advance, modulo the wrap
/// (each wrapped period is one short of the true advance).
pub proof fn law_period_matches_advance(prev: u32, captured: u32)
    ensures
        prev <= captured ==> period_spec(prev, captured) + prev == captured,
        prev > captured ==> period_spec(prev, captured) + 1 == (captured as int - prev as int
            + 0x1_0000_0000),
{
}

/// The use count after one more user (a wrapping `fetch_add`).
pub open spec fn count_after_start(count: usize) -> usize {
    if count == usize::MAX {
        0
    } else {
        (count + 1) as usize
    }
}

/// The use count after one user less (a wrapping `fetch_sub`).
pub open spec fn count_after_stop(count: usize) -> usize {
    if count == 0 {
        usize::MAX
    } else {
        (count - 1) as usize
    }
}

/// Shared use count of the master counter: the counter runs while some user
/// wants it.
pub struct MasterUse {
    pub count: usize,
}

impl MasterUse {
    /// A user wants the counter: the count rises (as an
    /// atomic `fetch_add`, wrapping); true when the counter must start.
    pub fn want_start(&mut self) -> (must_start: bool)
        ensures
            final(self).count == count_after_start(old(self).count),
            must_start == (old(self).count == 0),
    {
        let v = self.count;
        self.count = v.wrapping_add(1);
        v == 0
    }

    /// A user is done with the counter: the count falls (as
    /// an atomic `fetch_sub`, wrapping); true when the counter must stop.
    pub fn want_stop(&mut self) -> (must_stop: bool)
        ensures
            final(self).count == count_after_stop(old(self).count),
            must_stop == (old(self).count == 1),
    {
        let v = self.count;
        self.count = v.wrapping_sub(1);
        v == 1
    }
}

/// One user's hold on the master counter: asks for it at most once.
pub struct MasterHold {
    pub wanted_start: bool,
}

impl MasterHold {
    /// This hold asks for the counter: the shared count rises the first
    /// time only; true when the counter must start.
    pub fn want_start(&mut self, shared: &mut MasterUse) -> (must_start: bool)
        ensures
            final(self).wanted_start,
            old(self).wanted_start ==> final(shared).count == old(shared).count && !must_start,
            !old(self).wanted_start ==> final(shared).count == count_after_start(old(shared).count)
                && must_start == (old(shared).count == 0),
    {
        if !self.wanted_start {
            self.wanted_start = true;
            shared.want_start()
        } else {
            false
        }
    }

    /// This hold lets the counter go: the shared count falls only if the
    /// hold had asked; true when the counter must stop.
    pub fn want_stop(&mut self, shared: &mut MasterUse) -> (must_stop: bool)
        ensures
            !final(self).wanted_start,
            !old(self).wanted_start ==> final(shared).count == old(shared).count && !must_stop,
            old(self).wanted_start ==> final(shared).count == count_after_stop(old(shared).count)
                && must_stop == (old(shared).count == 1),
    {
        if self.wanted_start {
            self.wanted_start = false;
            shared.want_stop()
        } else {
            false
        }
    }
}

/// A hold that starts and then stops leaves the use count as it was, and
/// the counter runs exactly while some hold is taken: the first start
/// starts it and the last stop stops it.
pub proof fn law_hold_start_stop_balances(count: usize)
    requires
        count < usize::MAX,
    ensures
        count_after_stop(count_after_start(count)) == count,
        (count == 0) == (count_after_start(count) == 1),
{
}

/// Number of holds that have asked for the master counter.
pub open spec fn holds_taken(holds: Seq<bool>) -> nat
    decreases holds.len(),
{
    if holds.len() == 0 {
        0
    } else {
        holds_taken(holds.drop_last()) + if holds.last() {
            1nat
        } else {
            0nat
        }
    }
}

/// Setting one hold changes the number taken by what it was and what it is.
pub proof fn lemma_holds_taken_update(holds: Seq<bool>, i: int, b: bool)
    requires
        0 <= i < holds.len(),
    ensures
        holds_taken(holds.update(i, b)) + (if holds[i] {
            1int
        } else {
            0int
        }) == holds_taken(holds) + (if b {
            1int
        } else {
            0int
        }),
    decreases holds.len(),
{
    let u = holds.update(i, b);
    if i == holds.len() - 1 {
        assert(u.drop_last() =~= holds.drop_last());
    } else {
        assert(u.drop_last() =~= holds.drop_last().update(i, b));
        lemma_holds_taken_update(holds.drop_last(), i, b);
    }
}

/// The use count shared by several holds is the number of holds that have
/// asked for the counter, whatever hold asks or lets go next: `want_start`
/// on hold `i` leaves it equal to the holds taken with `i` taken, and
/// `want_stop` to those with `i` let go. The counter is started only when
/// the holds taken go from none to one, and stopped only when they go from
/// one to none.
pub proof fn law_use_count_tracks_holds(holds: Seq<bool>, count: usize, i: int)
    requires
        0 <= i < holds.len(),
        count == holds_taken(holds),
        holds_taken(holds) < usize::MAX,
    ensures
        (if holds[i] {
            count
        } else {
            count_after_start(count)
        }) == holds_taken(holds.update(i, true)),
        (!holds[i] && count == 0) <==> (holds_taken(holds) == 0 && holds_taken(
            holds.update(i, true),
        ) == 1),
        (if holds[i] {
            count_after_stop(count)
        } else {
            count
        }) == holds_taken(holds.update(i, false)),
        (holds[i] && count == 1) <==> (holds_taken(holds) == 1 && holds_taken(
            holds.update(i, false),
        ) == 0),
{
    lemma_holds_taken_update(holds, i, true);
    lemma_holds_taken_update(holds, i, false);
}

/// The master counter value split by the hardware overflow flag copy:
/// the extension word, the counter value
/// without the flag bits, and whether an overflow is pending (flag copy set
/// or interrupt pending).
pub open spec fn wrap_common_spec(value: u32, mask: Option<u32>, irq_pending: bool, ext: u32) -> (u32, u32, bool) {
    match mask {
        Some(m) => (ext, value & !m, (value & m != 0) || irq_pending),
        None => (ext, value, false),
    }
}

pub fn wrap_result_if_ovf_common(value: u32, mask: Option<u32>, irq_pending: bool, ext: u32) -> (r: (u32, u32, bool))
    ensures
        r == wrap_common_spec(value, mask, irq_pending, ext),
{
    let mut value = value;
    let mut was_wraped = false;
    if let Some(m) = mask {
        if (value & m != 0) || irq_pending {
            was_wraped = true;
        }
        value = value & !m;
    }
    (ext, value, was_wraped)
}

/// 32-bit counter reading: the counter value with the extension word above
/// its 16 bits (extension bits past 32 are lost).
pub fn wrap_result_if_ovf(value: u32, mask: Option<u32>, irq_pending: bool, ext: u32) -> (r: (u32, bool))
    ensures
        ({
            let (e, v, w) = wrap_common_spec(value, mask, irq_pending, ext);
            r == (v | (e << 16u32), w)
        }),
{
    let (e, v, w) = wrap_result_if_ovf_common(value, mask, irq_pending, ext);
    (v | (e << 16), w)
}

/// 64-bit counter reading: the counter value with the whole extension word
/// above its 16 bits.
pub fn wrap_result_if_ovf64(value: u32, mask: Option<u32>, irq_pending: bool, ext: u32) -> (r: (u64, bool))
    ensures
        ({
            let (e, v, w) = wrap_common_spec(value, mask, irq_pending, ext);
            r == ((v as u64) | ((e as u64) << 16u64), w)
        }),
{
    let (e, v, w) = wrap_result_if_ovf_common(value, mask, irq_pending, ext);
    ((v as u64) | ((e as u64) << 16), w)
}

/// The extension word after an overflow interrupt of counter `id`: one more
/// (wrapping) when the interrupt is the master counter's own.
pub fn ovf_irq(ext: u32, id: u32, counter_id: u32) -> (r: u32)
    ensures
        r == if id == counter_id {
            ((ext as int + 1) % 0x1_0000_0000) as u32
        } else {
            ext
        },
{
    if id == counter_id {
        ext.wrapping_add(1)
    } else {
        ext
    }
}

/// Milliseconds since start from a 64-bit counter reading at `f_ref_khz`.
pub fn uptime_ms(value64: u64, f_ref_khz: u32) -> (ms: u64)
    requires
        f_ref_khz > 0,
    ensures
        ms == value64 / (f_ref_khz as u64),
{
    value64 / (f_ref_khz as u64)
}

/// The master counter value exported to C code: the 64-bit reading
/// without its 4 lowest bits, cut to 32 bits.
#[allow(non_snake_case)]
pub fn getMaterCounterValue(value64: u64) -> (v: u32)
    ensures
        v as int == (value64 >> 4u64) as int % 0x1_0000_0000,
{
    let s = value64 >> 4;
    proof {
        assert(s as u32 == s % 0x1_0000_0000) by (bit_vector);
    }
    s as u32
}

/// Base address of basic timer `id` (TIM6 or TIM7).
pub fn basic_timer_address(id: u8) -> (addr: usize)
    requires
        id == 6 || id == 7,
    ensures
        addr == if id == 6 {
            0x4000_1000usize
        } else {
            0x4000_1400usize
        },
{
    if id == 6 {
        0x4000_1000
    } else {
        0x4000_1400
    }
}

/// The counter register value of a basic timer: its low 16 bits.
pub fn counter_value(cnt: u32) -> (v: u32)
    ensures
        v == cnt & 0xffff,
        v <= 0xffff,
{
    proof {
        assert(cnt & 0xffff <= 0xffff) by (bit_vector);
    }
    cnt & (u16::MAX as u32)
}

/// The overflow flag copy of the basic timers: bit 31 of the counter.
pub fn uif_cpy_mask() -> (m: Option<u32>)
    ensures
        m == Some(0x8000_0000u32),
{
    proof {
        assert((1u32 << 31u32) == 0x8000_0000u32) by (bit_vector);
    }
    Some(1u32 << 31)
}

/// Splitting a counter reading by the overflow flag copy keeps the
/// extension word, clears exactly the flag bits (every other bit of the
/// reading stays), and reports a pending overflow exactly when a flag bit
/// was set or the interrupt is pending. Without a flag copy the reading is
/// taken as it is and no overflow is reported.
pub proof fn law_overflow_flag_split(value: u32, mask: Option<u32>, irq_pending: bool, ext: u32)
    ensures
        ({
            let (e, v, w) = wrap_common_spec(value, mask, irq_pending, ext);
            &&& e == ext
            &&& match mask {
                Some(m) => {
                    &&& v & m == 0
                    &&& v | (value & m) == value
                    &&& w == ((value & m) != 0 || irq_pending)
                },
                None => v == value && !w,
            }
        }),
{
    if let Some(m) = mask {
        let v = value & !m;
        assert(v & m == 0 && v | (value & m) == value) by (bit_vector)
            requires
                v == value & !m,
        ;
    }
}

} // verus!
