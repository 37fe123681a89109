//! Motion control decisions: which G-code and M-code commands are taken
//! and what they change, when a move starts and ends, when the laser is
//! to be switched, and the status replies.
//!
//! Positions, feed rate and laser power are floats and are kept where the
//! motion is computed; here is what the controller decides around them.
use vstd::prelude::*;

use crate::gcode::{Code, Request};
use crate::text::{
    chars_to_string, concat_chars, decimal, first_chars, str_chars, take_chars, u32_to_decimal,
    usize_to_decimal,
};

verus! {

/// Whether a move is in progress.
#[allow(non_camel_case_types)]
#[derive(Clone, Copy, PartialEq, Eq, Structural, Debug)]
pub enum MotionStatus {
    IDLE,
    INTERPOLATING,
}

/// The controller's modes and move timing.
#[derive(Clone, Copy, PartialEq, Eq, Structural, Debug)]
pub struct MotionModes {
    pub status: MotionStatus,
    /// The next tick of a move is its first.
    pub first_interpolation: bool,
    pub start_nanos: u64,
    pub end_nanos: u64,
    /// The last motion G-code: 0, 1 or 28.
    pub current_code: u32,
    /// Absolute (G90) or relative (G91) coordinates.
    pub absolute: bool,
    pub laser_enabled: bool,
    pub red_laser_enabled: bool,
    /// The laser state changed and is yet to be applied.
    pub laser_changed: bool,
    /// Free room in the command queue, as last reported.
    pub avlb: usize,
}

/// What the motion code is to do after a command was taken.
#[derive(Clone, Copy, PartialEq, Eq, Structural, Debug)]
pub enum MotionAction {
    /// Nothing more.
    Nothing,
    /// Take the target (`X`, `Y`, `A`; with `S` and `F` first when
    /// `with_feed`) and, where it is within limits, call `target_set`.
    SetTarget { with_feed: bool },
    /// Move the target to the origin; the move has started.
    Home,
    /// The coordinate mode changed; the move (to the same target) has
    /// started.
    ModeChanged,
    /// Take the laser power `S`, where given, clamped to its range.
    SetPower,
}

/// Why a command was refused.
#[derive(Clone, Copy, PartialEq, Eq, Structural, Debug)]
pub enum MotionError {
    Busy,
    /// A line without a command continues only a G0 or G1 move.
    CannotContinue(u32),
}

impl MotionError {
    pub open spec fn text(&self) -> Seq<char> {
        match self {
            MotionError::Busy => "Motion busy!"@,
            MotionError::CannotContinue(c) => "Cannot continue move for G"@ + decimal(*c as nat),
        }
    }

    /// The reply for this refusal.
    pub fn message(&self) -> (s: String)
        ensures
            s@ == self.text(),
    {
        match self {
            MotionError::Busy => chars_to_string(str_chars("Motion busy!").as_slice()),
            MotionError::CannotContinue(c) => {
                let v = concat_chars(
                    str_chars("Cannot continue move for G").as_slice(),
                    u32_to_decimal(*c).as_slice(),
                );
                chars_to_string(v.as_slice())
            },
        }
    }
}

/// What a G-code does to the modes, and what is left to do.
pub open spec fn gcode_spec(m: MotionModes, g: u32, xy_given: bool) -> (MotionAction, MotionModes) {
    if g == 0 {
        (MotionAction::SetTarget { with_feed: false }, MotionModes { current_code: 0, ..m })
    } else if g == 1 {
        (MotionAction::SetTarget { with_feed: true }, MotionModes { current_code: 1, ..m })
    } else if g == 28 {
        (
            MotionAction::Home,
            MotionModes { current_code: 28, status: MotionStatus::INTERPOLATING, ..m },
        )
    } else if g == 90 {
        (
            MotionAction::ModeChanged,
            MotionModes { absolute: true, status: MotionStatus::INTERPOLATING, ..m },
        )
    } else if g == 91 {
        if xy_given {
            (
                MotionAction::SetTarget { with_feed: false },
                MotionModes { absolute: false, current_code: 0, ..m },
            )
        } else {
            (
                MotionAction::ModeChanged,
                MotionModes { absolute: false, status: MotionStatus::INTERPOLATING, ..m },
            )
        }
    } else {
        (MotionAction::Nothing, m)
    }
}

/// What an M-code does to the modes: M3 switches the laser on, M4 the red
/// marker laser, M5 both off.
pub open spec fn mcode_spec(m: MotionModes, code: u32) -> (MotionAction, MotionModes) {
    if code == 3 {
        (MotionAction::SetPower, MotionModes { laser_enabled: true, laser_changed: true, ..m })
    } else if code == 4 {
        (MotionAction::SetPower, MotionModes { red_laser_enabled: true, laser_changed: true, ..m })
    } else if code == 5 {
        (
            MotionAction::Nothing,
            MotionModes {
                laser_enabled: false,
                red_laser_enabled: false,
                laser_changed: true,
                ..m
            },
        )
    } else {
        (MotionAction::Nothing, m)
    }
}

/// Taking the pending laser change: the lasers' states when a change is
/// pending, nothing otherwise; either way nothing is pending afterwards.
pub open spec fn laser_change_spec(m: MotionModes) -> (Option<(bool, bool)>, MotionModes) {
    (
        if m.laser_changed {
            Some((m.laser_enabled, m.red_laser_enabled))
        } else {
            None
        },
        MotionModes { laser_changed: false, ..m },
    )
}

/// What taking a command does: refused while a move runs; a line without a
/// command repeats the last G0 or G1.
pub open spec fn accept_spec(m: MotionModes, code: Code, xy_given: bool, avlb: usize) -> (
    Result<MotionAction, MotionError>,
    MotionModes,
) {
    let m = MotionModes { avlb, ..m };
    if m.status != MotionStatus::IDLE {
        (Err(MotionError::Busy), m)
    } else {
        match code {
            Code::G(g) => {
                let (a, n) = gcode_spec(m, g, xy_given);
                (Ok(a), n)
            },
            Code::M(c) => {
                let (a, n) = mcode_spec(m, c);
                (Ok(a), n)
            },
            Code::Empty => if m.current_code == 0 || m.current_code == 1 {
                let (a, n) = gcode_spec(m, m.current_code, xy_given);
                (Ok(a), n)
            } else {
                (Err(MotionError::CannotContinue(m.current_code)), m)
            },
        }
    }
}

/// The next step of a move at a tick.
#[derive(Clone, Copy, PartialEq, Eq, Structural, Debug)]
pub enum InterpolationStep {
    /// No move runs.
    Idle,
    /// G0 and G28 jump to the target at once: set the position to the
    /// target and call `finish_jump`.
    Jump,
    /// A G1 move begins: compute its duration and call
    /// `start_timed_move`, then `progress`.
    TimedStart,
    /// A timed move runs: call `progress`.
    Continue,
}

pub open spec fn step_spec(m: MotionModes) -> InterpolationStep {
    if m.status != MotionStatus::INTERPOLATING {
        InterpolationStep::Idle
    } else if m.first_interpolation && (m.current_code == 0 || m.current_code == 28) {
        InterpolationStep::Jump
    } else if m.first_interpolation && m.current_code == 1 {
        InterpolationStep::TimedStart
    } else {
        InterpolationStep::Continue
    }
}

/// How a timed move stands at a tick.
#[derive(Clone, Copy, PartialEq, Eq, Structural, Debug)]
pub enum MoveProgress {
    /// The move ended; the position is set to the target only when the
    /// tick is exactly the planned end.
    Finished { on_time: bool },
    /// The move runs; `elapsed` nanoseconds of it have passed.
    Moving { elapsed: u64 },
}

impl MotionModes {
    /// The modes at power-up: idle, absolute coordinates, lasers off.
    pub fn new(buf_sz: usize) -> (m: MotionModes)
        ensures
            m == (MotionModes {
                status: MotionStatus::IDLE,
                first_interpolation: true,
                start_nanos: 0,
                end_nanos: 0,
                current_code: 0,
                absolute: true,
                laser_enabled: false,
                red_laser_enabled: false,
                laser_changed: false,
                avlb: buf_sz,
            }),
    {
        MotionModes {
            status: MotionStatus::IDLE,
            first_interpolation: true,
            start_nanos: 0,
            end_nanos: 0,
            current_code: 0,
            absolute: true,
            laser_enabled: false,
            red_laser_enabled: false,
            laser_changed: false,
            avlb: buf_sz,
        }
    }

    /// Whether a move runs.
    pub fn is_busy(&self) -> (r: bool)
        ensures
            r == (self.status != MotionStatus::IDLE),
    {
        match self.status {
            MotionStatus::IDLE => false,
            MotionStatus::INTERPOLATING => true,
        }
    }

    fn take_gcode(&mut self, g: u32, xy_given: bool) -> (a: MotionAction)
        ensures
            (a, *final(self)) == gcode_spec(*old(self), g, xy_given),
    {
        if g == 0 {
            self.current_code = 0;
            MotionAction::SetTarget { with_feed: false }
        } else if g == 1 {
            self.current_code = 1;
            MotionAction::SetTarget { with_feed: true }
        } else if g == 28 {
            self.current_code = 28;
            self.status = MotionStatus::INTERPOLATING;
            MotionAction::Home
        } else if g == 90 {
            self.absolute = true;
            self.status = MotionStatus::INTERPOLATING;
            MotionAction::ModeChanged
        } else if g == 91 {
            self.absolute = false;
            if xy_given {
                self.current_code = 0;
                MotionAction::SetTarget { with_feed: false }
            } else {
                self.status = MotionStatus::INTERPOLATING;
                MotionAction::ModeChanged
            }
        } else {
            MotionAction::Nothing
        }
    }

    fn take_mcode(&mut self, code: u32) -> (a: MotionAction)
        ensures
            (a, *final(self)) == mcode_spec(*old(self), code),
    {
        if code == 3 || code == 4 {
            if code == 3 {
                self.laser_enabled = true;
            } else {
                self.red_laser_enabled = true;
            }
            self.laser_changed = true;
            MotionAction::SetPower
        } else if code == 5 {
            self.laser_enabled = false;
            self.red_laser_enabled = false;
            self.laser_changed = true;
            MotionAction::Nothing
        } else {
            MotionAction::Nothing
        }
    }

    /// Takes a command: `xy_given` tells whether the line
    /// carries `X` or `Y`, `avlb` the free room in the command queue.
    pub fn accept(&mut self, code: Code, xy_given: bool, avlb: usize) -> (r: Result<
        MotionAction,
        MotionError,
    >)
        ensures
            (r, *final(self)) == accept_spec(*old(self), code, xy_given, avlb),
    {
        self.avlb = avlb;
        if self.is_busy() {
            return Err(MotionError::Busy);
        }
        match code {
            Code::G(g) => Ok(self.take_gcode(g, xy_given)),
            Code::M(c) => Ok(self.take_mcode(c)),
            Code::Empty => {
                if self.current_code == 0 || self.current_code == 1 {
                    let g = self.current_code;
                    Ok(self.take_gcode(g, xy_given))
                } else {
                    Err(MotionError::CannotContinue(self.current_code))
                }
            },
        }
    }

    /// The target of a `SetTarget` was taken: the move starts.
    pub fn target_set(&mut self)
        ensures
            *final(self) == (MotionModes { status: MotionStatus::INTERPOLATING, ..*old(self) }),
    {
        self.status = MotionStatus::INTERPOLATING;
    }

    /// The next step of a move at this tick.
    pub fn interpolation_step(&self) -> (s: InterpolationStep)
        ensures
            s == step_spec(*self),
    {
        if !self.is_busy() {
            InterpolationStep::Idle
        } else if self.first_interpolation && (self.current_code == 0 || self.current_code == 28) {
            InterpolationStep::Jump
        } else if self.first_interpolation && self.current_code == 1 {
            InterpolationStep::TimedStart
        } else {
            InterpolationStep::Continue
        }
    }

    /// A jump is done: the controller is idle.
    pub fn finish_jump(&mut self)
        ensures
            *final(self) == (MotionModes {
                status: MotionStatus::IDLE,
                first_interpolation: true,
                ..*old(self)
            }),
    {
        self.status = MotionStatus::IDLE;
        self.first_interpolation = true;
    }

    /// A timed move begins at `now` and lasts `duration_nanos`; its end is
    /// counted on the wrapping nanosecond clock.
    pub fn start_timed_move(&mut self, now: u64, duration_nanos: u64)
        ensures
            *final(self) == (MotionModes {
                start_nanos: now,
                end_nanos: now.wrapping_add(duration_nanos),
                first_interpolation: false,
                ..*old(self)
            }),
    {
        self.start_nanos = now;
        self.end_nanos = now.wrapping_add(duration_nanos);
        self.first_interpolation = false;
    }

    /// How the timed move stands at `now`: once `now` reaches the planned
    /// end the move is over and the controller idle.
    pub fn progress(&mut self, now: u64) -> (p: MoveProgress)
        ensures
            now >= old(self).end_nanos ==> {
                &&& p == MoveProgress::Finished { on_time: now == old(self).end_nanos }
                &&& *final(self) == (MotionModes {
                    status: MotionStatus::IDLE,
                    first_interpolation: true,
                    ..*old(self)
                })
            },
            now < old(self).end_nanos ==> {
                &&& p == MoveProgress::Moving { elapsed: now.wrapping_sub(old(self).start_nanos) }
                &&& *final(self) == *old(self)
            },
    {
        if now >= self.end_nanos {
            self.status = MotionStatus::IDLE;
            self.first_interpolation = true;
            MoveProgress::Finished { on_time: now == self.end_nanos }
        } else {
            MoveProgress::Moving { elapsed: now.wrapping_sub(self.start_nanos) }
        }
    }

    /// The laser state to apply, once after each change: whether the laser
    /// and the red marker laser are on.
    pub fn take_laser_change(&mut self) -> (r: Option<(bool, bool)>)
        ensures
            (r, *final(self)) == laser_change_spec(*old(self)),
    {
        if self.laser_changed {
            self.laser_changed = false;
            Some((self.laser_enabled, self.red_laser_enabled))
        } else {
            None
        }
    }
}


/// The reply to a status request that needs no measured value, or which
/// measured values it needs.
pub enum StatusReply {
    Ready(String),
    Refused(String),
    /// `$G`: the modal state, with feed and power (see `modal_state_text`).
    ModalState,
    /// `?`: the position report (see `position_text`).
    Position,
}

pub open spec fn offsets_text() -> Seq<char> {
    "[G54:0.000,0.000,0.000]\r\n[G55:0.000,0.000,0.000]\r\n[G56:0.000,0.000,0.000]\r\n[TLO:0.000]\r\n[PRB:0.000,0.000,0.000:0]\r\nok\r\n"@
}

/// Answers a status request: `$X` (unlock) with
/// "ok", `$#` with the (zero) coordinate offsets, any other `$` command is
/// unsupported.
pub fn status_reply(req: Request) -> (r: StatusReply)
    ensures
        req == Request::Dollar('X') ==> (r matches StatusReply::Ready(t) && t@ == "ok\r\n"@),
        req == Request::Dollar('#') ==> (r matches StatusReply::Ready(t) && t@ == offsets_text()),
        req == Request::Dollar('G') ==> r is ModalState,
        req == Request::Status ==> r is Position,
        forall|c: char|
            req == Request::Dollar(c) && c != 'X' && c != '#' && c != 'G' ==> (r matches StatusReply::Refused(t)
                && t@ == "Unsupported command $"@ + seq![c] + "\r\n"@),
{
    match req {
        Request::Dollar(c) => {
            if c == 'X' {
                StatusReply::Ready(chars_to_string(str_chars("ok\r\n").as_slice()))
            } else if c == '#' {
                StatusReply::Ready(
                    chars_to_string(
                        str_chars(
                            "[G54:0.000,0.000,0.000]\r\n[G55:0.000,0.000,0.000]\r\n[G56:0.000,0.000,0.000]\r\n[TLO:0.000]\r\n[PRB:0.000,0.000,0.000:0]\r\nok\r\n",
                        ).as_slice(),
                    ),
                )
            } else if c == 'G' {
                StatusReply::ModalState
            } else {
                let mut v = str_chars("Unsupported command $");
                v.push(c);
                let w = concat_chars(v.as_slice(), str_chars("\r\n").as_slice());
                StatusReply::Refused(chars_to_string(w.as_slice()))
            }
        },
        Request::Status => StatusReply::Position,
    }
}

fn cat(a: Vec<char>, b: Vec<char>) -> (r: Vec<char>)
    ensures
        r@ == a@ + b@,
{
    concat_chars(a.as_slice(), b.as_slice())
}

pub open spec fn modal_state_spec(m: MotionModes, f: Seq<char>, s: Seq<char>) -> Seq<char> {
    "[GC:G"@ + decimal(m.current_code as nat) + " G54 G17 G21 G9"@ + (if m.absolute {
        "0"@
    } else {
        "1"@
    }) + " G94 M5 M9 T0 F"@ + f + " S"@ + s + "]\r\nok\r\n"@
}

pub open spec fn position_spec(
    m: MotionModes,
    x: Seq<char>,
    y: Seq<char>,
    f: Seq<char>,
    s: Seq<char>,
) -> Seq<char> {
    "<"@ + (if m.status != MotionStatus::IDLE {
        "Run"@
    } else {
        "Idle"@
    }) + "|MPos:"@ + first_chars(x, 3) + ","@ + first_chars(y, 3) + ",0.000|Bf:"@ + decimal(m.avlb as nat) + ",150|FS:"@ + f
        + ","@ + s + ">\r\n"@
}

impl MotionModes {
    /// The `$G` reply: the last motion code, the coordinate mode, and the
    /// feed `f` and power `s` as text.
    pub fn modal_state_text(&self, f: &str, s: &str) -> (r: String)
        ensures
            r@ == modal_state_spec(*self, f@, s@),
    {
        let mode = if self.absolute {
            str_chars("0")
        } else {
            str_chars("1")
        };
        let v = cat(
            cat(
                cat(
                    cat(
                        cat(
                            cat(
                                cat(
                                    cat(str_chars("[GC:G"), u32_to_decimal(self.current_code)),
                                    str_chars(" G54 G17 G21 G9"),
                                ),
                                mode,
                            ),
                            str_chars(" G94 M5 M9 T0 F"),
                        ),
                        str_chars(f),
                    ),
                    str_chars(" S"),
                ),
                str_chars(s),
            ),
            str_chars("]\r\nok\r\n"),
        );
        chars_to_string(v.as_slice())
    }

    /// The `?` reply: run state, position `x`, `y`, free queue room, feed
    /// `f` and power `s`. The position fields are written with a precision
    /// of three, so only the first three characters of `x` and `y` appear.
    pub fn position_text(&self, x: &str, y: &str, f: &str, s: &str) -> (r: String)
        ensures
            r@ == position_spec(*self, x@, y@, f@, s@),
    {
        let state = if self.is_busy() {
            str_chars("Run")
        } else {
            str_chars("Idle")
        };
        let v = cat(
            cat(
                cat(
                    cat(
                        cat(
                            cat(
                                cat(
                                    cat(
                                        cat(
                                            cat(cat(str_chars("<"), state), str_chars("|MPos:")),
                                            take_chars(str_chars(x).as_slice(), 3),
                                        ),
                                        str_chars(","),
                                    ),
                                    take_chars(str_chars(y).as_slice(), 3),
                                ),
                                str_chars(",0.000|Bf:"),
                            ),
                            usize_to_decimal(self.avlb),
                        ),
                        str_chars(",150|FS:"),
                    ),
                    str_chars(f),
                ),
                str_chars(","),
            ),
            str_chars(s),
        );
        let w = cat(v, str_chars(">\r\n"));
        chars_to_string(w.as_slice())
    }
}

/// The refusal of a value outside its limits: "`name` above limit" or
/// "`name` below limit".
pub fn limit_message(name: char, above: bool) -> (r: String)
    ensures
        r@ == seq![name] + (if above {
            " above limit"@
        } else {
            " below limit"@
        }),
{
    let mut v: Vec<char> = Vec::new();
    v.push(name);
    let tail = if above {
        str_chars(" above limit")
    } else {
        str_chars(" below limit")
    };
    let w = concat_chars(v.as_slice(), tail.as_slice());
    chars_to_string(w.as_slice())
}

/// While a move runs, every command is refused and only the reported queue
/// room changes.
pub proof fn law_busy_refuses(m: MotionModes, code: Code, xy_given: bool, avlb: usize)
    requires
        m.status == MotionStatus::INTERPOLATING,
    ensures
        accept_spec(m, code, xy_given, avlb) == (
            Err::<MotionAction, MotionError>(MotionError::Busy),
            MotionModes { avlb, ..m },
        ),
{
}

/// The controller is idle only between moves: every step keeps "idle
/// implies the next tick is a move's first", so a move taken while idle
/// starts afresh.
pub open spec fn between_moves(m: MotionModes) -> bool {
    m.status == MotionStatus::IDLE ==> m.first_interpolation
}

pub proof fn law_idle_between_moves(
    m: MotionModes,
    code: Code,
    xy_given: bool,
    avlb: usize,
    now: u64,
    duration: u64,
)
    requires
        between_moves(m),
    ensures
        between_moves(accept_spec(m, code, xy_given, avlb).1),
        between_moves(MotionModes { status: MotionStatus::INTERPOLATING, ..m }),
        between_moves(MotionModes { status: MotionStatus::IDLE, first_interpolation: true, ..m }),
        step_spec(m) == InterpolationStep::TimedStart ==> between_moves(
            MotionModes {
                start_nanos: now,
                end_nanos: now.wrapping_add(duration),
                first_interpolation: false,
                ..m
            },
        ),
        between_moves(MotionModes { laser_changed: false, ..m }),
{
}

/// A G0 (once its target is taken) or a G28 taken while idle is a jump:
/// the next tick jumps to the target, after which the controller is idle.
pub open spec fn taken_jump(m: MotionModes, g: u32, avlb: usize) -> MotionModes {
    let n = accept_spec(m, Code::G(g), true, avlb).1;
    if g == 0 {
        MotionModes { status: MotionStatus::INTERPOLATING, ..n }
    } else {
        n
    }
}

pub proof fn law_jump_takes_one_tick(m: MotionModes, g: u32, avlb: usize)
    requires
        m.status == MotionStatus::IDLE,
        between_moves(m),
        g == 0 || g == 28,
    ensures
        step_spec(taken_jump(m, g, avlb)) == InterpolationStep::Jump,
{
}

/// M5 switches both lasers off, and the change is applied once.
pub proof fn law_m5_switches_lasers_off(m: MotionModes, avlb: usize)
    requires
        m.status == MotionStatus::IDLE,
    ensures
        ({
            let (r, n) = accept_spec(m, Code::M(5), false, avlb);
            &&& r == Ok::<MotionAction, MotionError>(MotionAction::Nothing)
            &&& !n.laser_enabled
            &&& !n.red_laser_enabled
            &&& n.laser_changed
        }),
{
}

/// A laser change is applied on exactly one tick: taking it hands out the
/// lasers' states once, and a second take, with no command in between,
/// hands out nothing and changes nothing. After M3, M4 or M5 taken while
/// idle, the first take hands out the new states.
pub proof fn law_laser_change_applied_once(m: MotionModes, code: u32, avlb: usize)
    ensures
        ({
            let (r1, n1) = laser_change_spec(m);
            let (r2, n2) = laser_change_spec(n1);
            &&& (r1 is Some <==> m.laser_changed)
            &&& r2 is None
            &&& n2 == n1
        }),
        m.status == MotionStatus::IDLE && 3 <= code <= 5 ==> ({
            let n = accept_spec(m, Code::M(code), false, avlb).1;
            let (r1, n1) = laser_change_spec(n);
            &&& r1 == Some((n.laser_enabled, n.red_laser_enabled))
            &&& laser_change_spec(n1).0 is None
        }),
{
}

/// A line with no command continues the last move: for an idle controller
/// whose last motion command was G0 or G1, taking an empty command does
/// exactly what taking that G command again does. After any other last
/// command (G28) such a line is refused and nothing but the queue room
/// changes.
pub proof fn law_empty_line_repeats_last_move(m: MotionModes, xy_given: bool, avlb: usize)
    requires
        m.status == MotionStatus::IDLE,
    ensures
        m.current_code == 0 || m.current_code == 1 ==> accept_spec(m, Code::Empty, xy_given, avlb)
            == accept_spec(m, Code::G(m.current_code), xy_given, avlb),
        !(m.current_code == 0 || m.current_code == 1) ==> accept_spec(
            m,
            Code::Empty,
            xy_given,
            avlb,
        ) == (
            Err::<MotionAction, MotionError>(MotionError::CannotContinue(m.current_code)),
            MotionModes { avlb, ..m },
        ),
{
}

/// What each motion command does to an idle controller, written out: G0 is
/// a jump to the target, G1 a feed move (with `S` and `F`), G28 a move
/// home that starts at once, G90 and G91 switch absolute and relative
/// coordinates (G91 with a target moves there as a jump), and any other G
/// number changes nothing but the queue room.
pub proof fn law_g_commands(m: MotionModes, g: u32, xy_given: bool, avlb: usize)
    requires
        m.status == MotionStatus::IDLE,
    ensures
        ({
            let (r, n) = accept_spec(m, Code::G(g), xy_given, avlb);
            let k = MotionModes { avlb, ..m };
            &&& g == 0 ==> r == Ok::<MotionAction, MotionError>(
                MotionAction::SetTarget { with_feed: false },
            ) && n == MotionModes { current_code: 0, ..k }
            &&& g == 1 ==> r == Ok::<MotionAction, MotionError>(
                MotionAction::SetTarget { with_feed: true },
            ) && n == MotionModes { current_code: 1, ..k }
            &&& g == 28 ==> r == Ok::<MotionAction, MotionError>(MotionAction::Home) && n
                == MotionModes { current_code: 28, status: MotionStatus::INTERPOLATING, ..k }
            &&& g == 90 ==> r == Ok::<MotionAction, MotionError>(MotionAction::ModeChanged) && n
                == MotionModes { absolute: true, status: MotionStatus::INTERPOLATING, ..k }
            &&& g == 91 && xy_given ==> r == Ok::<MotionAction, MotionError>(
                MotionAction::SetTarget { with_feed: false },
            ) && n == MotionModes { absolute: false, current_code: 0, ..k }
            &&& g == 91 && !xy_given ==> r == Ok::<MotionAction, MotionError>(
                MotionAction::ModeChanged,
            ) && n == MotionModes { absolute: false, status: MotionStatus::INTERPOLATING, ..k }
            &&& g != 0 && g != 1 && g != 28 && g != 90 && g != 91 ==> r == Ok::<
                MotionAction,
                MotionError,
            >(MotionAction::Nothing) && n == k
        }),
{
}

/// What each M command does to an idle controller, written out: M3 turns
/// the laser on, M4 the red marker laser, M5 both off, each marking the
/// change to be applied; any other M number changes nothing but the queue
/// room.
pub proof fn law_m_commands(m: MotionModes, c: u32, xy_given: bool, avlb: usize)
    requires
        m.status == MotionStatus::IDLE,
    ensures
        ({
            let (r, n) = accept_spec(m, Code::M(c), xy_given, avlb);
            let k = MotionModes { avlb, ..m };
            &&& c == 3 ==> r == Ok::<MotionAction, MotionError>(MotionAction::SetPower) && n
                == MotionModes { laser_enabled: true, laser_changed: true, ..k }
            &&& c == 4 ==> r == Ok::<MotionAction, MotionError>(MotionAction::SetPower) && n
                == MotionModes { red_laser_enabled: true, laser_changed: true, ..k }
            &&& c == 5 ==> r == Ok::<MotionAction, MotionError>(MotionAction::Nothing) && n
                == MotionModes {
                laser_enabled: false,
                red_laser_enabled: false,
                laser_changed: true,
                ..k
            }
            &&& c != 3 && c != 4 && c != 5 ==> r == Ok::<MotionAction, MotionError>(
                MotionAction::Nothing,
            ) && n == k
        }),
{
}

/// A G1 taken while idle, once its target is taken, starts a timed move at
/// the next tick; after a G0 or G28 the next tick jumps.
pub proof fn law_feed_move_is_timed(m: MotionModes, xy_given: bool, avlb: usize)
    requires
        m.status == MotionStatus::IDLE,
        between_moves(m),
    ensures
        step_spec(
            MotionModes {
                status: MotionStatus::INTERPOLATING,
                ..accept_spec(m, Code::G(1), xy_given, avlb).1
            },
        ) == InterpolationStep::TimedStart,
        step_spec(
            MotionModes {
                status: MotionStatus::INTERPOLATING,
                ..accept_spec(m, Code::G(0), xy_given, avlb).1
            },
        ) == InterpolationStep::Jump,
        step_spec(accept_spec(m, Code::G(28), xy_given, avlb).1) == InterpolationStep::Jump,
{
}

} // verus!
