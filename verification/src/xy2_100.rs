//! The XY2-100 galvo protocol: 20-bit position messages and the GPIO words
//! that clock them out through DMA, with the double-buffered transmitter.
//!
//! Each frame is `TX_POCKET_SIZE` bits, two DMA words per bit (clock high,
//! then clock low). The sync line stays high and drops for the last bit.
use vstd::prelude::*;

use crate::config::GALVO_CLOCK_RATE;

verus! {

/// Bits per frame.
pub const TX_POCKET_SIZE: usize = 20;

/// DMA words per frame.
pub const FRAME_WORDS: usize = 40;

/// The galvo driver: its timer, DMA channel, port address and output pins.
pub struct XY2_100<TIMER, DMACH, OUTPUTS> {
    pub timer: TIMER,
    pub dma: DMACH,
    pub port_addr: u32,
    pub outputs: OUTPUTS,
}

impl<TIMER, DMACH, OUTPUTS> XY2_100<TIMER, DMACH, OUTPUTS> {
    pub fn new(timer: TIMER, dma: DMACH, port_addr: u32, outputs: OUTPUTS) -> (r: Self)
        ensures
            r.timer == timer,
            r.dma == dma,
            r.port_addr == port_addr,
            r.outputs == outputs,
    {
        XY2_100 { timer, dma, port_addr, outputs }
    }
}

/// Number of one bits of `v`.
pub open spec fn popcount(v: u32) -> nat
    decreases v,
{
    if v == 0 {
        0
    } else {
        (v % 2) as nat + popcount(v / 2)
    }
}

/// Parity of `v`: 1 when it has an odd number of one bits, else 0.
pub fn parity(v: u32) -> (p: u32)
    ensures
        p as nat == popcount(v) % 2,
{
    let mut x: u32 = v;
    let mut acc: u32 = 0;
    while x != 0
        invariant
            acc < 2,
            (acc + popcount(x)) % 2 == popcount(v) % 2,
        decreases x,
    {
        acc = (acc + x % 2) % 2;
        x = x / 2;
    }
    acc
}

/// The 20-bit message for position `data`: `0 0 1`, the 16 data bits, and
/// a parity bit that makes the number of ones even.
pub open spec fn msg_spec(data: u16) -> u32 {
    let base = (0x20000 + 2 * (data as int)) as u32;
    (base + popcount(base) % 2) as u32
}

pub proof fn lemma_msg_bits(data: u16)
    ensures
        ((1u32 << 17u32) | ((data as u32) << 1u32)) == 0x20000 + 2 * (data as int),
{
    let d = data as u32;
    assert(d < 0x10000);
    assert(d < 0x10000 ==> ((1u32 << 17u32) | (d << 1u32)) == 0x20000u32 + 2u32 * d) by (bit_vector);
}

pub proof fn lemma_or_low_bit(b: u32, p: u32)
    requires
        b % 2 == 0,
        p < 2,
    ensures
        b | p == b + p,
{
    assert(b % 2 == 0 && p < 2 ==> b | p == b + p) by (bit_vector);
}

/// The message for position `data`.
pub fn build_msg(data: u16) -> (m: u32)
    ensures
        m == msg_spec(data),
{
    proof {
        lemma_msg_bits(data);
    }
    let mut res = (0b001u32 << 17) | ((data as u32) << 1);
    let p = parity(res);
    proof {
        lemma_or_low_bit(res, p);
    }
    res = res | p;
    res
}

pub proof fn lemma_popcount_double(m: u32, b: u32)
    requires
        b < 2,
        2 * m + b <= u32::MAX,
    ensures
        popcount((2 * m + b) as u32) == popcount(m) + b,
{
    let v = (2 * m + b) as u32;
    assert(v % 2 == b);
    assert(v / 2 == m);
    if v == 0 {
        assert(m == 0);
    }
}

/// Every message has an even number of one bits, starts with `0 0 1` in
/// its 20-bit frame and carries `data` in bits 16..1.
pub proof fn lemma_msg_frame(data: u16)
    ensures
        popcount(msg_spec(data)) % 2 == 0,
        msg_spec(data) >> 17u32 == 1,
        (msg_spec(data) >> 1u32) & 0xffff == data as u32,
{
    let base = (0x20000 + 2 * (data as int)) as u32;
    let m = (0x10000 + data as int) as u32;
    let p = (popcount(base) % 2) as u32;
    lemma_popcount_double(m, 0);
    lemma_popcount_double(m, p);
    assert(base == (2 * m + 0) as u32);
    let v = msg_spec(data);
    assert(v == (2 * m + p) as u32);
    let d = data as u32;
    lemma_msg_bits(data);
    lemma_or_low_bit(base, p);
    assert(v == ((1u32 << 17u32) | (d << 1u32)) | p);
    assert(v >> 17u32 == 1 && (v >> 1u32) & 0xffffu32 == d) by (bit_vector)
        requires
            v == ((1u32 << 17u32) | (d << 1u32)) | p,
            p < 2,
            d < 0x10000,
    ;
}

/// The position messages of both axes are always valid frames.
pub proof fn law_messages_are_even_parity(x: u16, y: u16)
    ensures
        popcount(msg_spec(x)) % 2 == 0,
        popcount(msg_spec(y)) % 2 == 0,
{
    lemma_msg_frame(x);
    lemma_msg_frame(y);
}

pub proof fn lemma_popcount_xor(a: u32, b: u32)
    ensures
        popcount(a ^ b) % 2 == (popcount(a) + popcount(b)) % 2,
    decreases a + b,
{
    if a == 0 && b == 0 {
        assert(0u32 ^ 0u32 == 0u32) by (bit_vector);
    } else {
        let x = a ^ b;
        assert(x % 2 == (a % 2 + b % 2) % 2 && x / 2 == (a / 2) ^ (b / 2)) by (bit_vector)
            requires
                x == a ^ b,
        ;
        lemma_popcount_xor(a / 2, b / 2);
        if x == 0 {
            assert(a == b) by (bit_vector)
                requires
                    x == a ^ b,
                    x == 0,
            ;
        }
    }
}

/// Parity is additive over XOR: the parity of `a ^ b` is the XOR of the
/// parities of `a` and `b`.
pub proof fn law_parity_xor(a: u32, b: u32)
    ensures
        (popcount(a ^ b) % 2) as u32 == ((popcount(a) % 2) as u32) ^ ((popcount(b) % 2) as u32),
{
    lemma_popcount_xor(a, b);
    let pa = (popcount(a) % 2) as u32;
    let pb = (popcount(b) % 2) as u32;
    assert(pa < 2 && pb < 2 ==> pa ^ pb == (pa + pb) % 2) by (bit_vector);
}

/// Appending the parity bit to a word whose lowest bit is clear makes its
/// number of one bits even.
pub proof fn law_parity_bit_makes_even(v: u32)
    requires
        v % 2 == 0,
    ensures
        popcount(v | ((popcount(v) % 2) as u32)) % 2 == 0,
{
    let p = (popcount(v) % 2) as u32;
    let m = v / 2;
    lemma_or_low_bit(v, p);
    lemma_popcount_double(m, 0);
    lemma_popcount_double(m, p);
    assert(v == (2 * m + 0) as u32);
}

/// The GPIO word `i` of a frame: bit masks `clk`, `sync`, `xm`, `ym` for the
/// clock, sync and the two data lines; `dx`, `dy` the two messages.
pub open spec fn frame_word(i: int, dx: u32, dy: u32, clk: u16, sync: u16, xm: u16, ym: u16) -> u16 {
    let bit_n = i / 2;
    let r0 = sync;
    let r1 = if i % 2 == 0 { r0 | clk } else { r0 };
    let r2 = if bit_n == TX_POCKET_SIZE - 1 { r1 & !sync } else { r1 };
    let chk = 1u32 << ((TX_POCKET_SIZE - bit_n - 1) as u32);
    let r3 = if dx & chk != 0 { r2 | xm } else { r2 };
    if dy & chk != 0 { r3 | ym } else { r3 }
}

/// Auto-reload of the galvo timer (no prescaler) for a timer clock of
/// `tim_ref_clk` Hz: one update per half clock period of the bus.
pub fn galvo_timer_reload(tim_ref_clk: u32) -> (arr: u32)
    requires
        tim_ref_clk >= GALVO_CLOCK_RATE,
    ensures
        arr == tim_ref_clk / GALVO_CLOCK_RATE - 1,
{
    tim_ref_clk / GALVO_CLOCK_RATE - 1
}

/// Pin numbers (0..15) of the clock, sync, X and Y lines of the port.
pub struct GalvoPins {
    pub clk: u8,
    pub sync: u8,
    pub x: u8,
    pub y: u8,
}

impl GalvoPins {
    pub open spec fn valid(&self) -> bool {
        self.clk < 16 && self.sync < 16 && self.x < 16 && self.y < 16
    }

    pub open spec fn distinct(&self) -> bool {
        &&& self.clk != self.sync
        &&& self.clk != self.x
        &&& self.clk != self.y
        &&& self.sync != self.x
        &&& self.sync != self.y
        &&& self.x != self.y
    }
}

pub open spec fn mask(p: u8) -> u16 {
    (1u16 << (p as u16)) as u16
}

/// The frame that carries position `(x, y)`.
pub open spec fn frame_spec(x: u16, y: u16, pins: GalvoPins) -> Seq<u16> {
    Seq::new(
        FRAME_WORDS as nat,
        |i: int|
            frame_word(
                i,
                msg_spec(x),
                msg_spec(y),
                mask(pins.clk),
                mask(pins.sync),
                mask(pins.x),
                mask(pins.y),
            ),
    )
}

/// The DMA words for position `(x, y)` (the buffer fill of `set_pos`).
pub fn build_frame(x: u16, y: u16, pins: &GalvoPins) -> (frame: Vec<u16>)
    requires
        pins.valid(),
    ensures
        frame@ == frame_spec(x, y, *pins),
{
    let data_x = build_msg(x);
    let data_y = build_msg(y);
    let clk_mask: u16 = 1u16 << pins.clk;
    let sync_mask: u16 = 1u16 << pins.sync;
    let pin_data_x_mask: u16 = 1u16 << pins.x;
    let pin_data_y_mask: u16 = 1u16 << pins.y;
    let mut frame: Vec<u16> = Vec::new();
    let mut i: usize = 0;
    while i < FRAME_WORDS
        invariant
            i <= FRAME_WORDS,
            frame@.len() == i,
            pins.valid(),
            data_x == msg_spec(x),
            data_y == msg_spec(y),
            clk_mask == mask(pins.clk),
            sync_mask == mask(pins.sync),
            pin_data_x_mask == mask(pins.x),
            pin_data_y_mask == mask(pins.y),
            forall|j: int| 0 <= j < i ==> frame@[j] == #[trigger] frame_spec(x, y, *pins)[j],
        decreases FRAME_WORDS - i,
    {
        let bit_n = i / 2;
        let mut r: u16 = sync_mask;
        if i & 1 == 0 {
            r = r | clk_mask;
        }
        if bit_n == TX_POCKET_SIZE - 1 {
            r = r & !sync_mask;
        }
        let chk_mask: u32 = 1u32 << ((TX_POCKET_SIZE - bit_n - 1) as u32);
        if data_x & chk_mask != 0 {
            r = r | pin_data_x_mask;
        }
        if data_y & chk_mask != 0 {
            r = r | pin_data_y_mask;
        }
        proof {
            assert(i & 1 == 0 <==> i % 2 == 0) by (bit_vector);
        }
        frame.push(r);
        i = i + 1;
    }
    assert(frame@ =~= frame_spec(x, y, *pins));
    frame
}


pub proof fn lemma_word_bits(pc: u16, ps: u16, px: u16, py: u16, e: bool, l: bool, bx: bool, by: bool)
    requires
        pc < 16,
        ps < 16,
        px < 16,
        py < 16,
        pc != ps,
        pc != px,
        pc != py,
        ps != px,
        ps != py,
        px != py,
    ensures
        ({
            let clk = 1u16 << pc;
            let sync = 1u16 << ps;
            let xm = 1u16 << px;
            let ym = 1u16 << py;
            let r1 = if e { sync | clk } else { sync };
            let r2 = if l { r1 & !sync } else { r1 };
            let r3 = if bx { r2 | xm } else { r2 };
            let w = if by { r3 | ym } else { r3 };
            &&& (w & clk != 0) == e
            &&& (w & sync != 0) == !l
            &&& (w & xm != 0) == bx
            &&& (w & ym != 0) == by
            &&& w & !(clk | sync | xm | ym) == 0
        }),
{
    assert({
        let clk = 1u16 << pc;
        let sync = 1u16 << ps;
        let xm = 1u16 << px;
        let ym = 1u16 << py;
        let r1 = if e { sync | clk } else { sync };
        let r2 = if l { r1 & !sync } else { r1 };
        let r3 = if bx { r2 | xm } else { r2 };
        let w = if by { r3 | ym } else { r3 };
        &&& (w & clk != 0) == e
        &&& (w & sync != 0) == !l
        &&& (w & xm != 0) == bx
        &&& (w & ym != 0) == by
        &&& w & !(clk | sync | xm | ym) == 0
    }) by (bit_vector)
        requires
            pc < 16,
            ps < 16,
            px < 16,
            py < 16,
            pc != ps,
            pc != px,
            pc != py,
            ps != px,
            ps != py,
            px != py,
    ;
}

/// What a receiver reads from word `i` of a frame, with four distinct pins:
/// the clock is high in the first word of each bit, sync is high except
/// during the last bit, each data line carries its message's bit for that
/// word, most significant of the 20 bits first, and no other pin is set.
pub proof fn law_frame_carries_messages(x: u16, y: u16, pins: GalvoPins, i: int)
    requires
        pins.valid(),
        pins.distinct(),
        0 <= i < FRAME_WORDS,
    ensures
        ({
            let w = frame_spec(x, y, pins)[i];
            let chk = 1u32 << ((TX_POCKET_SIZE - i / 2 - 1) as u32);
            &&& (w & mask(pins.clk) != 0) == (i % 2 == 0)
            &&& (w & mask(pins.sync) != 0) == (i / 2 != TX_POCKET_SIZE - 1)
            &&& (w & mask(pins.x) != 0) == (msg_spec(x) & chk != 0)
            &&& (w & mask(pins.y) != 0) == (msg_spec(y) & chk != 0)
            &&& w & !(mask(pins.clk) | mask(pins.sync) | mask(pins.x) | mask(pins.y)) == 0
        }),
{
    let chk = 1u32 << ((TX_POCKET_SIZE - i / 2 - 1) as u32);
    lemma_word_bits(
        pins.clk as u16,
        pins.sync as u16,
        pins.x as u16,
        pins.y as u16,
        i % 2 == 0,
        i / 2 == TX_POCKET_SIZE - 1,
        msg_spec(x) & chk != 0,
        msg_spec(y) & chk != 0,
    );
}

/// The double-buffered transmitter: the frame being sent (`tx`), the frame
/// waiting (`back`), whether the waiting frame is new, and whether the
/// transfer timer runs.
pub struct GalvoTx {
    tx: Vec<u16>,
    back: Vec<u16>,
    back_ready: bool,
    running: bool,
}

pub struct GalvoTxView {
    pub tx: Seq<u16>,
    pub back: Seq<u16>,
    pub back_ready: bool,
    pub running: bool,
}

impl View for GalvoTx {
    type V = GalvoTxView;

    closed spec fn view(&self) -> GalvoTxView {
        GalvoTxView { tx: self.tx@, back: self.back@, back_ready: self.back_ready, running: self.running }
    }
}

/// A transfer start: the waiting frame becomes the one sent.
pub open spec fn started(old: GalvoTxView) -> GalvoTxView {
    GalvoTxView { tx: old.back, back: old.tx, back_ready: false, running: true }
}

/// `start_tx`: starts sending the waiting frame when it is new and no
/// transfer runs.
pub open spec fn start_spec(v: GalvoTxView) -> (GalvoTxView, bool) {
    if v.back_ready && !v.running {
        (started(v), true)
    } else {
        (v, false)
    }
}

impl GalvoTx {
    /// Both buffers zero, nothing waiting, timer stopped.
    pub fn new() -> (t: GalvoTx)
        ensures
            t@.tx == Seq::new(FRAME_WORDS as nat, |i: int| 0u16),
            t@.back == Seq::new(FRAME_WORDS as nat, |i: int| 0u16),
            !t@.back_ready,
            !t@.running,
    {
        let mut a: Vec<u16> = Vec::new();
        let mut b: Vec<u16> = Vec::new();
        let mut i: usize = 0;
        while i < FRAME_WORDS
            invariant
                i <= FRAME_WORDS,
                a@ =~= Seq::new(i as nat, |j: int| 0u16),
                b@ =~= Seq::new(i as nat, |j: int| 0u16),
            decreases FRAME_WORDS - i,
        {
            a.push(0);
            b.push(0);
            i = i + 1;
        }
        GalvoTx { tx: a, back: b, back_ready: false, running: false }
    }

    /// The frame being sent.
    pub fn tx_frame(&self) -> (f: &[u16])
        ensures
            f@ == self@.tx,
    {
        self.tx.as_slice()
    }

    /// Starts sending the waiting frame if it is new and the timer is
    /// stopped; true when a transfer started.
    pub fn start_tx(&mut self) -> (started_now: bool)
        ensures
            (final(self)@, started_now) == start_spec(old(self)@),
    {
        if !self.back_ready {
            return false;
        }
        if self.running {
            return false;
        }
        self.back_ready = false;
        core::mem::swap(&mut self.tx, &mut self.back);
        self.running = true;
        true
    }

    /// Loads a new frame: it replaces the waiting one, is marked
    /// new, and is sent at once if no transfer runs.
    pub fn load(&mut self, frame: Vec<u16>) -> (started_now: bool)
        ensures
            (final(self)@, started_now) == start_spec(
                GalvoTxView { back: frame@, back_ready: true, ..old(self)@ },
            ),
    {
        self.back = frame;
        self.back_ready = true;
        self.start_tx()
    }

    /// The end of a transfer: the timer stops, and a new
    /// waiting frame is sent at once.
    pub fn dma_event(&mut self) -> (started_now: bool)
        ensures
            (final(self)@, started_now) == start_spec(GalvoTxView { running: false, ..old(self)@ }),
    {
        self.running = false;
        if self.back_ready {
            self.start_tx()
        } else {
            false
        }
    }
}

/// A loaded frame is never lost unless a newer one replaces it: right after
/// `load`, it is either the frame being sent (a transfer just started) or
/// the waiting frame marked new behind a running transfer; and the end of
/// that transfer starts it.
pub proof fn law_loaded_frame_is_sent(t: GalvoTxView, frame: Seq<u16>)
    ensures
        ({
            let (after, s) = start_spec(GalvoTxView { back: frame, back_ready: true, ..t });
            &&& s ==> after.tx == frame && after.running
            &&& !s ==> after.back == frame && after.back_ready && after.running
            &&& !s ==> ({
                let (done, s2) = start_spec(GalvoTxView { running: false, ..after });
                s2 && done.tx == frame
            })
        }),
{
}

/// At most one transfer runs: a start never happens while one runs.
pub proof fn law_no_start_while_running(t: GalvoTxView)
    requires
        t.running,
    ensures
        start_spec(t) == (t, false),
{
}

} // verus!
