//! The serial side of the G-code server: assembling a line from received
//! bytes, turning a line into queued commands, and dropping what was
//! consumed from the line buffer.
use vstd::prelude::*;

use crate::fixed::{line_clear, line_from_chars, line_push, line_str, line_text, LINE_CAPACITY};
use crate::gcode::{parse_fits_text, parse_text, parse_view, GCode, GCodeView, ParceError, ParceResult, ParseView, Request};
use crate::text::{
    char_utf8_len, chars_to_string, fits_within, lemma_utf8_len_concat, lemma_utf8_len_first, str_chars,
    utf8_char_len, utf8_len, utf8_len_of_bounded,
};

verus! {

/// Why a serial poll gave no consumed length.
#[derive(Clone, Copy, PartialEq, Eq, Structural, Debug)]
pub enum SerialErrResult {
    /// The line buffer is full without an end of line.
    OutOfMemory,
    /// No byte is waiting.
    NoData,
    /// A queue is full; the given number of bytes was consumed before.
    Incomplead(usize),
}

/// A character that ends a line.
pub open spec fn is_endline(c: char) -> bool {
    c == '\n' || c == '\r' || c == '?'
}

/// The buffer already holds a whole line: its last character ends a line.
pub fn line_complete(buf: &heapless::String<LINE_CAPACITY>) -> (r: bool)
    ensures
        r == (line_text(*buf).len() > 0 && is_endline(line_text(*buf).last())),
{
    let v = str_chars(line_str(buf));
    if v.len() == 0 {
        false
    } else {
        let c = v[v.len() - 1];
        c == '\n' || c == '\r' || c == '?'
    }
}

/// What a received byte does to the line being assembled.
#[derive(Clone, Copy, PartialEq, Eq, Structural, Debug)]
pub enum ReadStep {
    /// The byte ended the line held in the buffer.
    Line,
    /// The byte is `?`: a status query, answered on its own.
    Query,
    /// The byte does not fit in the buffer.
    Overflow,
    /// The byte was added; the line goes on.
    More,
}

/// Takes a received byte into the line buffer (one step of reading a line): `?`
/// is a query of its own and is not stored; a byte that does not fit leaves
/// the buffer as it was; any other byte is stored as the character of the
/// same code.
pub fn accept_byte(buf: &mut heapless::String<LINE_CAPACITY>, byte: u8) -> (step: ReadStep)
    ensures
        ({
            let c = byte as char;
            if c == '?' {
                step == ReadStep::Query && line_text(*final(buf)) == line_text(*old(buf))
            } else if utf8_len(line_text(*old(buf))) + utf8_char_len(c) > LINE_CAPACITY {
                step == ReadStep::Overflow && line_text(*final(buf)) == line_text(*old(buf))
            } else {
                &&& line_text(*final(buf)) == line_text(*old(buf)).push(c)
                &&& step == if is_endline(c) {
                    ReadStep::Line
                } else {
                    ReadStep::More
                }
            }
        }),
{
    let c = byte as char;
    if c == '?' {
        return ReadStep::Query;
    }
    match line_push(buf, c) {
        Err(_) => ReadStep::Overflow,
        Ok(_) => {
            if c == '\n' || c == '\r' {
                ReadStep::Line
            } else {
                ReadStep::More
            }
        },
    }
}

/// Drops the first `trim_size` characters of the line buffer once that many
/// bytes were consumed; all of it when `trim_size` is its whole byte length.
pub fn trim_front(buf: &mut heapless::String<LINE_CAPACITY>, trim_size: usize)
    ensures
        line_text(*final(buf)) == if trim_size == 0 {
            line_text(*old(buf))
        } else if trim_size == utf8_len(line_text(*old(buf))) || trim_size >= line_text(*old(buf)).len() {
            Seq::<char>::empty()
        } else {
            line_text(*old(buf)).skip(trim_size as int)
        },
{
    if trim_size > 0 {
        let v = str_chars(line_str(buf));
        let whole = fits_within(v.as_slice(), trim_size) && !fits_within(
            v.as_slice(),
            trim_size - 1,
        );
        if whole {
            line_clear(buf);
        } else if trim_size >= v.len() {
            *buf = line_from_chars(&[]);
        } else {
            let rest = vstd::slice::slice_subrange(v.as_slice(), trim_size, v.len());
            proof {
                assert(v@ =~= v@.subrange(0, trim_size as int) + rest@);
                lemma_utf8_len_concat(v@.subrange(0, trim_size as int), rest@);
            }
            *buf = line_from_chars(rest);
            assert(rest@ =~= v@.skip(trim_size as int));
        }
    }
}

/// `s` without its first `n` bytes; `None` when byte `n` is not the start of
/// a character or `s` is shorter than `n` bytes.
pub open spec fn skip_bytes(s: Seq<char>, n: nat) -> Option<Seq<char>>
    decreases s.len(),
{
    if n == 0 {
        Some(s)
    } else if s.len() == 0 {
        None
    } else if utf8_char_len(s[0]) > n {
        None
    } else {
        skip_bytes(s.drop_first(), (n - utf8_char_len(s[0])) as nat)
    }
}

/// What a line gives: the consumed length or the reason for none, the
/// commands and requests to queue, and the error text to send back.
pub struct LineOutcome {
    pub result: Result<usize, SerialErrResult>,
    pub gcodes: Vec<GCode>,
    pub requests: Vec<Request>,
    pub report: Option<String>,
}

pub struct LineOutcomeView {
    pub result: Result<usize, SerialErrResult>,
    pub gcodes: Seq<GCodeView>,
    pub requests: Seq<Request>,
    pub report: Option<Seq<char>>,
}

impl LineOutcome {
    pub open spec fn view_of(&self) -> LineOutcomeView {
        LineOutcomeView {
            result: self.result,
            gcodes: self.gcodes@.map_values(|g: GCode| g@),
            requests: self.requests@,
            report: match self.report {
                Some(r) => Some(r@),
                None => None,
            },
        }
    }
}

/// Processing of the rest `s` of a line, which starts at its `k`-th
/// segment, after `consumed` bytes, with room for `groom` commands and
/// `rroom` requests and with `acc` queued so far. The `k`-th segment's G
/// word reads as `gnums[k]`. A command is queued only while there is room;
/// without room the line stops with the length consumed before. A command
/// that ends early (`Partial`) is followed by the parse of the rest of the
/// line after its length.
pub open spec fn line_from(
    s: Seq<char>,
    k: nat,
    gnums: Seq<u32>,
    consumed: nat,
    groom: nat,
    rroom: nat,
    acc: LineOutcomeView,
) -> LineOutcomeView
    decreases s.len(),
{
    match parse_text(s, gnums[k as int]) {
        ParseView::GCode(c) => if acc.gcodes.len() < groom {
            LineOutcomeView {
                result: Ok((consumed + utf8_len(s)) as usize),
                gcodes: acc.gcodes.push(c),
                ..acc
            }
        } else {
            LineOutcomeView { result: Err(SerialErrResult::Incomplead(consumed as usize)), ..acc }
        },
        ParseView::Request(q) => if acc.requests.len() < rroom {
            LineOutcomeView {
                result: Ok((consumed + utf8_len(s)) as usize),
                requests: acc.requests.push(q),
                ..acc
            }
        } else {
            LineOutcomeView { result: Err(SerialErrResult::Incomplead(consumed as usize)), ..acc }
        },
        ParseView::Partial(c, off) => if acc.gcodes.len() < groom {
            match skip_bytes(s, off) {
                Some(rest) => if rest.len() < s.len() {
                    line_from(
                        rest,
                        k + 1,
                        gnums,
                        consumed + off,
                        groom,
                        rroom,
                        LineOutcomeView { gcodes: acc.gcodes.push(c), ..acc },
                    )
                } else {
                    acc
                },
                None => acc,
            }
        } else {
            LineOutcomeView { result: Err(SerialErrResult::Incomplead(consumed as usize)), ..acc }
        },
        ParseView::Empty => LineOutcomeView {
            result: Ok((consumed + utf8_len(s)) as usize),
            ..acc
        },
        ParseView::Error(e) => LineOutcomeView {
            result: Ok((consumed + utf8_len(s)) as usize),
            report: Some(e),
            ..acc
        },
    }
}

/// The line can be processed without a fault: every segment that is parsed
/// has its G number, fits the `n`-byte buffer and has words that fit, and
/// every early-ending command ends at a character boundary within the line.
pub open spec fn line_ok(
    s: Seq<char>,
    k: nat,
    gnums: Seq<u32>,
    n: nat,
    groom: nat,
    rroom: nat,
    queued: nat,
) -> bool
    decreases s.len(),
{
    &&& k < gnums.len()
    &&& parse_fits_text(s, gnums[k as int], n)
    &&& match parse_text(s, gnums[k as int]) {
        ParseView::Partial(_, off) => queued < groom ==> match skip_bytes(s, off) {
            Some(rest) => rest.len() < s.len() && line_ok(
                rest,
                k + 1,
                gnums,
                n,
                groom,
                rroom,
                queued + 1,
            ),
            None => false,
        },
        _ => true,
    }
}

pub open spec fn empty_outcome() -> LineOutcomeView {
    LineOutcomeView {
        result: Ok(0),
        gcodes: Seq::empty(),
        requests: Seq::empty(),
        report: None,
    }
}

/// The outcome of a whole line.
pub open spec fn line_spec(
    line: Seq<char>,
    gnums: Seq<u32>,
    groom: nat,
    rroom: nat,
) -> LineOutcomeView {
    line_from(line, 0, gnums, 0, groom, rroom, empty_outcome())
}

/// The number of leading characters of `s[start..]` that make up `n` bytes.
fn chars_for_bytes(s: &Vec<char>, start: usize, n: usize) -> (r: Option<usize>)
    requires
        start <= s.len(),
    ensures
        match skip_bytes(s@.skip(start as int), n as nat) {
            Some(rest) => r matches Some(m) && start + m <= s.len() && rest == s@.skip(
                start + m,
            ),
            None => r is None,
        },
{
    let mut i: usize = start;
    let mut left: usize = n;
    while left > 0 && i < s.len() && char_utf8_len(s[i]) <= left
        invariant
            start <= i <= s.len(),
            skip_bytes(s@.skip(start as int), n as nat) == skip_bytes(s@.skip(i as int), left as nat),
        decreases s.len() - i,
    {
        proof {
            assert(s@.skip(i as int).drop_first() =~= s@.skip(i + 1));
        }
        left = left - char_utf8_len(s[i]);
        i = i + 1;
    }
    if left == 0 {
        Some(i - start)
    } else {
        None
    }
}

/// Processes a received line `line` of at most `N` bytes: parses it (and,
/// after a command that ends early, the rest of it), queues what was
/// parsed while `gcode_room` and `request_room` allow, and reports the
/// number of bytes consumed. `g_numbers[k]` is the number that the
/// controller reads from the G word of the text that starts at byte `3 * k`
/// of the line.
pub fn process_line<const N: usize>(
    line: &str,
    g_numbers: &[u32],
    gcode_room: usize,
    request_room: usize,
) -> (out: LineOutcome)
    requires
        line_ok(line@, 0, g_numbers@, N as nat, gcode_room as nat, request_room as nat, 0),
    ensures
        out.view_of() == line_spec(line@, g_numbers@, gcode_room as nat, request_room as nat),
{
    match try_process_line::<N>(line, g_numbers, gcode_room, request_room) {
        Some(out) => out,
        None => LineOutcome { result: Ok(0), gcodes: Vec::new(), requests: Vec::new(), report: None },
    }
}

/// `process_line`, or `None` for a line that it cannot process without a
/// fault (see `line_ok`).
pub fn try_process_line<const N: usize>(
    line: &str,
    g_numbers: &[u32],
    gcode_room: usize,
    request_room: usize,
) -> (r: Option<LineOutcome>)
    ensures
        r is Some <==> line_ok(line@, 0, g_numbers@, N as nat, gcode_room as nat, request_room as nat, 0),
        r matches Some(out) ==> out.view_of() == line_spec(line@, g_numbers@, gcode_room as nat, request_room as nat),
{
    let chars = str_chars(line);
    let n = chars.len();
    let mut start: usize = 0;
    let mut k: usize = 0;
    let mut consumed: usize = 0;
    let mut out = LineOutcome {
        result: Ok(0),
        gcodes: Vec::new(),
        requests: Vec::new(),
        report: None,
    };
    assert(chars@.skip(0) =~= line@);
    proof {
        assert(out.view_of().gcodes =~= Seq::<GCodeView>::empty());
        assert(out.view_of() == empty_outcome());
    }
    loop
        invariant
            n == chars@.len(),
            chars@ == line@,
            start <= n,
            line_ok(chars@.skip(start as int), k as nat, g_numbers@, N as nat, gcode_room as nat,
                request_room as nat, out.gcodes@.len()) == line_ok(line@, 0, g_numbers@, N as nat,
                gcode_room as nat, request_room as nat, 0),
            line_from(chars@.skip(start as int), k as nat, g_numbers@, consumed as nat, gcode_room as nat,
                request_room as nat, out.view_of()) == line_spec(line@, g_numbers@, gcode_room as nat,
                request_room as nat),
            consumed as nat + utf8_len(chars@.skip(start as int)) == utf8_len(line@),
            k > 0 ==> utf8_len(line@) <= N,
            k == 0 ==> consumed == 0,
            out.requests@.len() == 0,
            out.report is None,
            out.gcodes@.len() <= gcode_room,
        decreases n - start,
    {
        let ghost s = chars@.skip(start as int);
        if k >= g_numbers.len() {
            return None;
        }
        let sub = line.substring_char(start, n);
        assert(sub@ =~= s);
        let g = g_numbers[k];
        let parsed = match GCode::try_from_string::<N>(sub, g) {
            Some(p) => p,
            None => {
                return None;
            },
        };
        let sub_chars = str_chars(sub);
        let len = utf8_len_of_bounded(sub_chars.as_slice(), N);
        let ghost before = out.view_of();
        match parsed {
            Ok(ParceResult::GCode(gc)) => {
                if out.gcodes.len() < gcode_room {
                    out.gcodes.push(gc);
                    out.result = Ok(consumed + len);
                    proof {
                        assert(out.view_of().gcodes =~= before.gcodes.push(gc@));
                    }
                } else {
                    out.result = Err(SerialErrResult::Incomplead(consumed));
                }
                return Some(out);
            },
            Ok(ParceResult::Request(q)) => {
                if out.requests.len() < request_room {
                    out.requests.push(q);
                    out.result = Ok(consumed + len);
                    proof {
                        assert(out.view_of().requests =~= before.requests.push(q));
                    }
                } else {
                    out.result = Err(SerialErrResult::Incomplead(consumed));
                }
                return Some(out);
            },
            Ok(ParceResult::Partial(gc, off)) => {
                if out.gcodes.len() < gcode_room {
                    match chars_for_bytes(&chars, start, off) {
                        Some(m) => {
                            proof {
                                lemma_skip_bytes_consumed(s, off as nat);
                                assert(chars@.skip(start + m) =~= chars@.skip(start as int).skip(m as int));
                            }
                            if m == 0 {
                                return None;
                            }
                            let ghost gv = gc@;
                            out.gcodes.push(gc);
                            proof {
                                assert(out.view_of().gcodes =~= before.gcodes.push(gv));
                            }
                            consumed = consumed + off;
                            start = start + m;
                            k = k + 1;
                        },
                        None => {
                            return None;
                        },
                    }
                } else {
                    out.result = Err(SerialErrResult::Incomplead(consumed));
                    return Some(out);
                }
            },
            Err(ParceError::Empty) => {
                out.result = Ok(consumed + len);
                return Some(out);
            },
            Err(ParceError::Error(e)) => {
                out.result = Ok(consumed + len);
                out.report = Some(e);
                return Some(out);
            },
        }
    }
}

/// Skipping `n` bytes leaves a rest whose byte length is `n` less.
pub proof fn lemma_skip_bytes_consumed(s: Seq<char>, n: nat)
    ensures
        skip_bytes(s, n) matches Some(rest) ==> utf8_len(rest) + n == utf8_len(s) && (n > 0
            ==> rest.len() < s.len()) && s.skip(s.len() - rest.len()) == rest,
    decreases s.len(),
{
    if n > 0 && s.len() > 0 && utf8_char_len(s[0]) <= n {
        lemma_skip_bytes_consumed(s.drop_first(), (n - utf8_char_len(s[0])) as nat);
        lemma_utf8_len_first(s);
        if let Some(rest) = skip_bytes(s, n) {
            assert(s.skip(s.len() - rest.len()) =~= s.drop_first().skip(s.drop_first().len() - rest.len()));
        }
    }
    if n == 0 {
        assert(s.skip(0) =~= s);
    }
}


proof fn lemma_line_from_bounds(
    s: Seq<char>,
    k: nat,
    gnums: Seq<u32>,
    consumed: nat,
    groom: nat,
    rroom: nat,
    acc: LineOutcomeView,
)
    requires
        acc.gcodes.len() <= groom,
        acc.requests.len() <= rroom,
        consumed + utf8_len(s) <= usize::MAX,
        acc.result matches Ok(n) && n <= consumed + utf8_len(s),
    ensures
        ({
            let o = line_from(s, k, gnums, consumed, groom, rroom, acc);
            &&& o.gcodes.len() <= groom
            &&& o.requests.len() <= rroom
            &&& match o.result {
                Ok(n) => n <= consumed + utf8_len(s),
                Err(SerialErrResult::Incomplead(n)) => n <= consumed + utf8_len(s),
                Err(_) => false,
            }
        }),
    decreases s.len(),
{
    match parse_text(s, gnums[k as int]) {
        ParseView::Partial(c, off) => {
            if acc.gcodes.len() < groom {
                lemma_skip_bytes_consumed(s, off);
                if let Some(rest) = skip_bytes(s, off) {
                    if rest.len() < s.len() {
                        lemma_line_from_bounds(
                            rest,
                            k + 1,
                            gnums,
                            consumed + off,
                            groom,
                            rroom,
                            LineOutcomeView { gcodes: acc.gcodes.push(c), ..acc },
                        );
                    }
                }
            }
        },
        _ => {},
    }
}

/// Processing a line queues no more commands and requests than there is
/// room for, and never reports more bytes consumed than the line has.
pub proof fn law_line_outcome_bounds(line: Seq<char>, gnums: Seq<u32>, groom: nat, rroom: nat)
    requires
        utf8_len(line) <= usize::MAX,
    ensures
        ({
            let o = line_spec(line, gnums, groom, rroom);
            &&& o.gcodes.len() <= groom
            &&& o.requests.len() <= rroom
            &&& match o.result {
                Ok(n) => n <= utf8_len(line),
                Err(SerialErrResult::Incomplead(n)) => n <= utf8_len(line),
                Err(_) => false,
            }
        }),
{
    lemma_line_from_bounds(line, 0, gnums, 0, groom, rroom, empty_outcome());
}

/// A line that parses as one whole command, request, nothing or error is
/// handled in one piece: a command or request is queued alone when there is
/// room for it and the whole line counts as consumed; without room nothing
/// is queued and nothing is consumed; a line that gives nothing is consumed
/// with nothing queued; an error is consumed, nothing is queued, and its
/// message is sent back.
pub proof fn law_whole_line_handled_at_once(line: Seq<char>, gnums: Seq<u32>, groom: nat, rroom: nat)
    requires
        gnums.len() > 0,
    ensures
        ({
            let o = line_spec(line, gnums, groom, rroom);
            let n = utf8_len(line) as usize;
            match parse_text(line, gnums[0]) {
                ParseView::GCode(c) => if groom > 0 {
                    &&& o.result == Ok::<usize, SerialErrResult>(n)
                    &&& o.gcodes == seq![c]
                    &&& o.requests.len() == 0
                    &&& o.report is None
                } else {
                    &&& o.result == Err::<usize, SerialErrResult>(SerialErrResult::Incomplead(0))
                    &&& o.gcodes.len() == 0
                    &&& o.requests.len() == 0
                },
                ParseView::Request(q) => if rroom > 0 {
                    &&& o.result == Ok::<usize, SerialErrResult>(n)
                    &&& o.requests == seq![q]
                    &&& o.gcodes.len() == 0
                    &&& o.report is None
                } else {
                    &&& o.result == Err::<usize, SerialErrResult>(SerialErrResult::Incomplead(0))
                    &&& o.gcodes.len() == 0
                    &&& o.requests.len() == 0
                },
                ParseView::Empty => {
                    &&& o.result == Ok::<usize, SerialErrResult>(n)
                    &&& o.gcodes.len() == 0
                    &&& o.requests.len() == 0
                    &&& o.report is None
                },
                ParseView::Error(e) => {
                    &&& o.result == Ok::<usize, SerialErrResult>(n)
                    &&& o.gcodes.len() == 0
                    &&& o.requests.len() == 0
                    &&& o.report == Some(e)
                },
                ParseView::Partial(_, _) => true,
            }
        }),
{
    match parse_text(line, gnums[0]) {
        ParseView::GCode(c) => {
            assert(Seq::<GCodeView>::empty().push(c) =~= seq![c]);
        },
        ParseView::Request(q) => {
            assert(Seq::<Request>::empty().push(q) =~= seq![q]);
        },
        _ => {},
    }
}

} // verus!
