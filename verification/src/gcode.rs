//! G-code lines: the command they carry and the parser that reads them.
//!
//! A value word (`X`, `Y`, `A`, `S`, `F`) is kept as the text that follows
//! its letter; the parser checks that the text is a number literal that
//! `f32::from_str` accepts, and the motion code reads its value from it.
use vstd::prelude::*;

use crate::config::STR_MAX_LEN;
use crate::fixed::{letter_error_text, short_str};
use crate::number::{
    find_first, first_index, float_literal, has_char, is_float_literal, parse_u32, u32_literal,
    word_after, word_after_key,
};
use crate::text::{
    ascii_upper, chars_to_string, fits_within, lemma_upper_utf8_len, lemma_utf8_len_concat,
    lemma_utf8_len_push, lemma_write_pieces_step, str_chars, to_ascii_upper, upper, utf8_char_len,
    utf8_len, write_pieces,
};

verus! {

/// Longest G-code line, in bytes.
pub const MAX_LEN: usize = 150;

/// The command of a G-code line.
#[derive(Clone, Copy, PartialEq, Eq, Structural, Debug)]
pub enum Code {
    G(u32),
    M(u32),
    Empty,
}

/// A status request.
#[derive(Clone, Copy, PartialEq, Eq, Structural, Debug)]
pub enum Request {
    Dollar(char),
    Status,
}

/// A parsed G-code line: its command and the number words it carries.
#[derive(Clone, Debug)]
pub struct GCode {
    code: Code,
    x: Option<String>,
    y: Option<String>,
    a: Option<String>,
    s: Option<String>,
    f: Option<String>,
}

/// What a `GCode` holds, as plain values.
pub struct GCodeView {
    pub code: Code,
    pub x: Option<Seq<char>>,
    pub y: Option<Seq<char>>,
    pub a: Option<Seq<char>>,
    pub s: Option<Seq<char>>,
    pub f: Option<Seq<char>>,
}

pub open spec fn opt_chars(o: Option<String>) -> Option<Seq<char>> {
    match o {
        Some(s) => Some(s@),
        None => None,
    }
}

impl View for GCode {
    type V = GCodeView;

    closed spec fn view(&self) -> GCodeView {
        GCodeView {
            code: self.code,
            x: opt_chars(self.x),
            y: opt_chars(self.y),
            a: opt_chars(self.a),
            s: opt_chars(self.s),
            f: opt_chars(self.f),
        }
    }
}

/// A line with no command and no words.
pub open spec fn empty_gcode() -> GCodeView {
    GCodeView { code: Code::Empty, x: None, y: None, a: None, s: None, f: None }
}

/// What a parse gives.
pub enum ParceResult {
    GCode(GCode),
    Request(Request),
    /// A command that ends after `.1` bytes; the rest of the line is parsed
    /// again.
    Partial(GCode, usize),
}

/// Why a parse gives no command.
pub enum ParceError {
    Empty,
    Error(String),
}

/// A parse outcome as plain values.
pub enum ParseView {
    GCode(GCodeView),
    Request(Request),
    Partial(GCodeView, nat),
    Empty,
    Error(Seq<char>),
}

pub open spec fn parse_view(r: Result<ParceResult, ParceError>) -> ParseView {
    match r {
        Ok(ParceResult::GCode(g)) => ParseView::GCode(g@),
        Ok(ParceResult::Request(q)) => ParseView::Request(q),
        Ok(ParceResult::Partial(g, n)) => ParseView::Partial(g@, n as nat),
        Err(ParceError::Empty) => ParseView::Empty,
        Err(ParceError::Error(e)) => ParseView::Error(e@),
    }
}

/// The word of letter `l`, if `t` holds `l`.
pub open spec fn letter_word(t: Seq<char>, l: char) -> Option<Seq<char>> {
    if t.contains(l) {
        Some(word_after(t, l))
    } else {
        None
    }
}

/// `t` holds `l`, and the word after it is no number literal.
pub open spec fn bad_letter(t: Seq<char>, l: char) -> bool {
    t.contains(l) && !float_literal(word_after(t, l))
}

/// The message for a bad word of letter `l` in line `t`:
/// `Failed to parse <l> value "<t>"`, cut as a 64-byte string keeps it.
pub open spec fn letter_error(t: Seq<char>, l: char) -> Seq<char> {
    write_pieces(
        seq!["Failed to parse "@, seq![l], " value \""@, t, "\""@],
        STR_MAX_LEN as nat,
    )
}

/// Reading the words `X`, `Y`, `A`, `F`, `S` of `t`, in that order, into a
/// command `code`; the first bad word ends the parse with its message.
pub open spec fn fill_letters_spec(t: Seq<char>, code: Code) -> ParseView {
    if bad_letter(t, 'X') {
        ParseView::Error(letter_error(t, 'X'))
    } else if bad_letter(t, 'Y') {
        ParseView::Error(letter_error(t, 'Y'))
    } else if bad_letter(t, 'A') {
        ParseView::Error(letter_error(t, 'A'))
    } else if bad_letter(t, 'F') {
        ParseView::Error(letter_error(t, 'F'))
    } else if bad_letter(t, 'S') {
        ParseView::Error(letter_error(t, 'S'))
    } else {
        ParseView::GCode(
            GCodeView {
                code,
                x: letter_word(t, 'X'),
                y: letter_word(t, 'Y'),
                a: letter_word(t, 'A'),
                s: letter_word(t, 'S'),
                f: letter_word(t, 'F'),
            },
        )
    }
}

pub open spec fn first_char(t: Seq<char>) -> char {
    if t.len() > 0 {
        t[0]
    } else {
        '\0'
    }
}

/// The character right after the first `k` of `t`.
pub open spec fn char_after_first(t: Seq<char>, k: char) -> Option<char> {
    match first_index(t, k) {
        Some(i) => if i + 1 < t.len() {
            Some(t[i + 1])
        } else {
            None
        },
        None => None,
    }
}

/// The parse of an upper-case line `t` whose G word reads as `g`.
pub open spec fn parse_upper(t: Seq<char>, g: u32) -> ParseView {
    let c = first_char(t);
    if c == '/' || c == '(' || c == ':' {
        ParseView::Empty
    } else if c == '%' {
        ParseView::Error("error: 1"@)
    } else if c == '?' || c == '$' {
        if t.contains('$') {
            if t.contains('J') {
                if t.contains('G') {
                    match u32_literal(word_after(t, 'G')) {
                        Some(n) => fill_letters_spec(t, Code::G(n)),
                        None => ParseView::Error("Failed to parse M command"@),
                    }
                } else {
                    ParseView::Error("jog error"@)
                }
            } else {
                match char_after_first(t, '$') {
                    Some(ch) => ParseView::Request(Request::Dollar(ch)),
                    None => ParseView::Error("Failed to parse $ command"@),
                }
            }
        } else {
            ParseView::Request(Request::Status)
        }
    } else if t.contains('M') {
        match u32_literal(word_after(t, 'M')) {
            None => ParseView::Error("Failed to parse M command"@),
            Some(n) => if bad_letter(t, 'S') {
                ParseView::Error("Invalid S value"@)
            } else {
                ParseView::GCode(
                    GCodeView { code: Code::M(n), s: letter_word(t, 'S'), ..empty_gcode() },
                )
            },
        }
    } else if t.contains('G') {
        if !float_literal(word_after(t, 'G')) {
            ParseView::Error("Failed to parse Gcode number"@)
        } else if g == 90 || g == 91 {
            ParseView::Partial(GCodeView { code: Code::G(g), ..empty_gcode() }, 3)
        } else {
            fill_letters_spec(t, Code::G(g))
        }
    } else {
        fill_letters_spec(t, Code::Empty)
    }
}

/// The parse of a line `s` whose G word reads as `g`.
pub open spec fn parse_text(s: Seq<char>, g: u32) -> ParseView {
    if s.len() == 0 {
        ParseView::Empty
    } else {
        parse_upper(upper(s), g)
    }
}

/// The word after `l` fits the 64-byte string that collects it (the parse
/// reads a word into such a string and cannot go on with a longer one).
pub open spec fn word_fits(t: Seq<char>, l: char) -> bool {
    !t.contains(l) || utf8_len(word_after(t, l)) <= STR_MAX_LEN
}

/// The words that `fill_letters_spec` reads all fit.
pub open spec fn letters_fit(t: Seq<char>) -> bool {
    word_fits(t, 'X') && (bad_letter(t, 'X') || (word_fits(t, 'Y') && (bad_letter(t, 'Y') || (
    word_fits(t, 'A') && (bad_letter(t, 'A') || (word_fits(t, 'F') && (bad_letter(t, 'F')
        || word_fits(t, 'S'))))))))
}

/// Every word that the parse of `t` reads fits.
pub open spec fn parse_fits(t: Seq<char>, g: u32) -> bool {
    let c = first_char(t);
    if c == '/' || c == '(' || c == ':' || c == '%' {
        true
    } else if c == '?' || c == '$' {
        t.contains('$') && t.contains('J') && t.contains('G') ==> (word_fits(t, 'G') && (u32_literal(
            word_after(t, 'G'),
        ) is None || letters_fit(t)))
    } else if t.contains('M') {
        word_fits(t, 'M') && (u32_literal(word_after(t, 'M')) is None || word_fits(t, 'S'))
    } else if t.contains('G') {
        word_fits(t, 'G') && (!float_literal(word_after(t, 'G')) || g == 90 || g == 91
            || letters_fit(t))
    } else {
        letters_fit(t)
    }
}

/// Lines of `s` that the parse reads without overflowing a buffer: the line
/// fits its `n`-byte buffer and every word read fits.
pub open spec fn parse_fits_text(s: Seq<char>, g: u32, n: nat) -> bool {
    utf8_len(s) <= n && (s.len() == 0 || parse_fits(upper(s), g))
}

impl GCode {
    /// The command.
    pub fn code(&self) -> (c: Code)
        ensures
            c == self@.code,
    {
        self.code
    }

    /// Replaces the command.
    pub fn set_code(&mut self, code: Code)
        ensures
            final(self)@ == (GCodeView { code, ..old(self)@ }),
    {
        self.code = code;
    }

    /// The `X` word.
    pub fn get_x(&self) -> (r: &Option<String>)
        ensures
            opt_chars(*r) == self@.x,
    {
        &self.x
    }

    /// The `Y` word.
    pub fn get_y(&self) -> (r: &Option<String>)
        ensures
            opt_chars(*r) == self@.y,
    {
        &self.y
    }

    /// The `S` word.
    pub fn get_s(&self) -> (r: &Option<String>)
        ensures
            opt_chars(*r) == self@.s,
    {
        &self.s
    }

    /// The `A` word.
    pub fn get_a(&self) -> (r: &Option<String>)
        ensures
            opt_chars(*r) == self@.a,
    {
        &self.a
    }

    /// The `F` word.
    pub fn get_f(&self) -> (r: &Option<String>)
        ensures
            opt_chars(*r) == self@.f,
    {
        &self.f
    }

    fn with_code(code: Code) -> (g: GCode)
        ensures
            g@ == (GCodeView { code, ..empty_gcode() }),
    {
        GCode { code, x: None, y: None, a: None, s: None, f: None }
    }

    /// Parses a G-code line. `g_number` is the number that the controller
    /// reads from the line's G word (see `g_word`); it is used when the line
    /// is a plain G command.
    pub fn from_string<const N: usize>(text: &str, g_number: u32) -> (r: Result<
        ParceResult,
        ParceError,
    >)
        requires
            parse_fits_text(text@, g_number, N as nat),
        ensures
            parse_view(r) == parse_text(text@, g_number),
    {
        let chars = str_chars(text);
        if chars.len() == 0 {
            return Err(ParceError::Empty);
        }
        let upper_text = upper_chars(&chars);
        proof {
            lemma_upper_utf8_len(chars@);
        }
        Self::from_string_private(&upper_text, g_number)
    }

    /// `from_string` where its buffers hold every word; `None` on a line
    /// that overflows them.
    pub fn try_from_string<const N: usize>(text: &str, g_number: u32) -> (r: Option<
        Result<ParceResult, ParceError>,
    >)
        ensures
            r is Some <==> parse_fits_text(text@, g_number, N as nat),
            r matches Some(p) ==> parse_view(p) == parse_text(text@, g_number),
    {
        let chars = str_chars(text);
        if !fits_within(chars.as_slice(), N) {
            return None;
        }
        if chars.len() == 0 {
            return Some(Err(ParceError::Empty));
        }
        let upper_text = upper_chars(&chars);
        if !parse_fits_exec(&upper_text, g_number) {
            return None;
        }
        Some(Self::from_string::<N>(text, g_number))
    }

    fn from_string_private(t: &Vec<char>, g: u32) -> (r: Result<ParceResult, ParceError>)
        requires
            parse_fits(t@, g),
            utf8_len(t@) <= usize::MAX,
        ensures
            parse_view(r) == parse_upper(t@, g),
    {
        let first_char: char = if t.len() > 0 { t[0] } else { '\0' };
        if first_char == '/' || first_char == '(' || first_char == ':' {
            Err(ParceError::Empty)
        } else if first_char == '%' {
            Err(ParceError::Error(message("error: 1")))
        } else if first_char == '?' || first_char == '$' {
            if has_char(t, '$') {
                if has_char(t, 'J') {
                    if has_char(t, 'G') {
                        let w = word_after_key(t, 'G');
                        match parse_u32(&w) {
                            Some(n) => match fill_letters(t, Code::G(n)) {
                                Ok(g) => Ok(ParceResult::GCode(g)),
                                Err(e) => Err(e),
                            },
                            None => Err(ParceError::Error(message("Failed to parse M command"))),
                        }
                    } else {
                        Err(ParceError::Error(message("jog error")))
                    }
                } else {
                    match find_first(t, '$') {
                        Some(i) => {
                            if i + 1 < t.len() {
                                Ok(ParceResult::Request(Request::Dollar(t[i + 1])))
                            } else {
                                Err(ParceError::Error(message("Failed to parse $ command")))
                            }
                        },
                        None => Err(ParceError::Error(message("Failed to parse $ command"))),
                    }
                }
            } else {
                Ok(ParceResult::Request(Request::Status))
            }
        } else if has_char(t, 'M') {
            let w = word_after_key(t, 'M');
            match parse_u32(&w) {
                None => Err(ParceError::Error(message("Failed to parse M command"))),
                Some(n) => match letter_value(t, 'S') {
                    Err(_) => Err(ParceError::Error(message("Invalid S value"))),
                    Ok(s) => {
                        let mut g = Self::with_code(Code::M(n));
                        g.s = s;
                        Ok(ParceResult::GCode(g))
                    },
                },
            }
        } else if has_char(t, 'G') {
            let w = word_after_key(t, 'G');
            if !is_float_literal(&w) {
                Err(ParceError::Error(message("Failed to parse Gcode number")))
            } else if g == 90 || g == 91 {
                Ok(ParceResult::Partial(Self::with_code(Code::G(g)), 3))
            } else {
                match fill_letters(t, Code::G(g)) {
                    Ok(gc) => Ok(ParceResult::GCode(gc)),
                    Err(e) => Err(e),
                }
            }
        } else {
            match fill_letters(t, Code::Empty) {
                Ok(gc) => Ok(ParceResult::GCode(gc)),
                Err(e) => Err(e),
            }
        }
    }
}

impl Default for GCode {
    fn default() -> (g: GCode)
        ensures
            g@ == empty_gcode(),
    {
        GCode { code: Code::Empty, x: None, y: None, a: None, s: None, f: None }
    }
}

/// A string holding `s`.
fn message(s: &str) -> (r: String)
    ensures
        r@ == s@,
{
    let v = str_chars(s);
    chars_to_string(v.as_slice())
}

/// `t` in upper case.
fn upper_chars(t: &Vec<char>) -> (r: Vec<char>)
    ensures
        r@ == upper(t@),
{
    let mut r: Vec<char> = Vec::new();
    let mut i: usize = 0;
    while i < t.len()
        invariant
            i <= t.len(),
            r@ =~= upper(t@).subrange(0, i as int),
        decreases t.len() - i,
    {
        r.push(to_ascii_upper(t[i]));
        i = i + 1;
    }
    r
}

/// The word of letter `l` as `get_val::<f32>` reads it: none without `l`,
/// an error when the word is no number literal.
fn letter_value(t: &Vec<char>, l: char) -> (r: Result<Option<String>, ()>)
    ensures
        match r {
            Ok(v) => !bad_letter(t@, l) && opt_chars(v) == letter_word(t@, l),
            Err(_) => bad_letter(t@, l),
        },
{
    if has_char(t, l) {
        let w = word_after_key(t, l);
        if is_float_literal(&w) {
            Ok(Some(chars_to_string(w.as_slice())))
        } else {
            Err(())
        }
    } else {
        Ok(None)
    }
}

/// The message for a bad word of letter `l` in `t`.
fn letter_error_message(t: &Vec<char>, l: char) -> (r: String)
    ensures
        r@ == letter_error(t@, l),
{
    let text = chars_to_string(t.as_slice());
    let m = letter_error_text(l, text.as_str());
    chars_to_string(str_chars(short_str(&m)).as_slice())
}

/// Reads the words `X`, `Y`, `A`, `F`, `S` of `t` into a command `code`.
fn fill_letters(t: &Vec<char>, code: Code) -> (r: Result<GCode, ParceError>)
    ensures
        match fill_letters_spec(t@, code) {
            ParseView::GCode(v) => r matches Ok(g) && g@ == v,
            ParseView::Error(e) => r matches Err(ParceError::Error(m)) && m@ == e,
            _ => false,
        },
{
    let mut g = GCode::with_code(code);
    match letter_value(t, 'X') {
        Ok(v) => {
            g.x = v;
        },
        Err(_) => {
            return Err(ParceError::Error(letter_error_message(t, 'X')));
        },
    }
    match letter_value(t, 'Y') {
        Ok(v) => {
            g.y = v;
        },
        Err(_) => {
            return Err(ParceError::Error(letter_error_message(t, 'Y')));
        },
    }
    match letter_value(t, 'A') {
        Ok(v) => {
            g.a = v;
        },
        Err(_) => {
            return Err(ParceError::Error(letter_error_message(t, 'A')));
        },
    }
    match letter_value(t, 'F') {
        Ok(v) => {
            g.f = v;
        },
        Err(_) => {
            return Err(ParceError::Error(letter_error_message(t, 'F')));
        },
    }
    match letter_value(t, 'S') {
        Ok(v) => {
            g.s = v;
        },
        Err(_) => {
            return Err(ParceError::Error(letter_error_message(t, 'S')));
        },
    }
    Ok(g)
}

/// Whether the word of `l` fits.
fn word_fits_exec(t: &Vec<char>, l: char) -> (r: bool)
    ensures
        r == word_fits(t@, l),
{
    if has_char(t, l) {
        let w = word_after_key(t, l);
        fits_within(w.as_slice(), STR_MAX_LEN)
    } else {
        true
    }
}

fn bad_letter_exec(t: &Vec<char>, l: char) -> (r: bool)
    ensures
        r == bad_letter(t@, l),
{
    match letter_value(t, l) {
        Ok(_) => false,
        Err(_) => true,
    }
}

fn letters_fit_exec(t: &Vec<char>) -> (r: bool)
    ensures
        r == letters_fit(t@),
{
    word_fits_exec(t, 'X') && (bad_letter_exec(t, 'X') || (word_fits_exec(t, 'Y') && (
    bad_letter_exec(t, 'Y') || (word_fits_exec(t, 'A') && (bad_letter_exec(t, 'A') || (
    word_fits_exec(t, 'F') && (bad_letter_exec(t, 'F') || word_fits_exec(t, 'S'))))))))
}

fn parse_fits_exec(t: &Vec<char>, g: u32) -> (r: bool)
    ensures
        r == parse_fits(t@, g),
{
    let c: char = if t.len() > 0 { t[0] } else { '\0' };
    if c == '/' || c == '(' || c == ':' || c == '%' {
        true
    } else if c == '?' || c == '$' {
        if has_char(t, '$') && has_char(t, 'J') && has_char(t, 'G') {
            word_fits_exec(t, 'G') && (parse_u32(&word_after_key(t, 'G')).is_none()
                || letters_fit_exec(t))
        } else {
            true
        }
    } else if has_char(t, 'M') {
        word_fits_exec(t, 'M') && (parse_u32(&word_after_key(t, 'M')).is_none() || word_fits_exec(
            t,
            'S',
        ))
    } else if has_char(t, 'G') {
        word_fits_exec(t, 'G') && (!is_float_literal(&word_after_key(t, 'G')) || g == 90 || g
            == 91 || letters_fit_exec(t))
    } else {
        letters_fit_exec(t)
    }
}

/// The G word of a line: what follows its first `G` (either case) that can
/// belong to a number.
pub fn g_word(text: &str) -> (w: String)
    ensures
        w@ == word_after(upper(text@), 'G'),
{
    let chars = str_chars(text);
    let upper_text = upper_chars(&chars);
    let w = word_after_key(&upper_text, 'G');
    chars_to_string(w.as_slice())
}


/// A G-code line means the same in any letter case: the parser reads it
/// upper-cased.
pub proof fn law_parse_ignores_case(s: Seq<char>, g: u32)
    ensures
        parse_text(upper(s), g) == parse_text(s, g),
{
    assert forall|i: int| 0 <= i < s.len() implies ascii_upper(ascii_upper(s[i])) == ascii_upper(
        s[i],
    ) by {
        let c = s[i];
        if 'a' <= c && c <= 'z' {
            assert((((c as u32) - 32) as char) as u32 == (c as u32) - 32);
        }
    }
    assert(upper(upper(s)) =~= upper(s));
}

/// Lines that start with `/`, `(` or `:` (block delete, comment, label)
/// give no command.
pub proof fn law_skipped_lines_give_nothing(s: Seq<char>, g: u32)
    requires
        s.len() > 0,
        s[0] == '/' || s[0] == '(' || s[0] == ':',
    ensures
        parse_text(s, g) == ParseView::Empty,
{
    assert(upper(s)[0] == s[0]);
}

/// A line starts with no special character (`/`, `(`, `:`, `%`, `?`, `$`).
pub open spec fn plain_start(t: Seq<char>) -> bool {
    t.len() > 0 && t[0] != '/' && t[0] != '(' && t[0] != ':' && t[0] != '%' && t[0] != '?' && t[0]
        != '$'
}

/// The word of letter `l` in `t` is absent or a number literal.
pub open spec fn word_ok(t: Seq<char>, l: char) -> bool {
    t.contains(l) ==> float_literal(word_after(t, l))
}

/// On a plain line without an M word (a G command other than G90/G91, or a
/// line with no command that continues the last move) whose value words are
/// all number literals, every value word is read: `X`, `Y`, `A`, `F` and
/// `S` each hold the text after their letter in the upper-cased line, or
/// nothing when the letter is absent; the command is `G(g)` when the line
/// has a G word and none otherwise.
pub proof fn law_value_words_are_read(s: Seq<char>, g: u32)
    requires
        plain_start(upper(s)),
        !upper(s).contains('M'),
        upper(s).contains('G') ==> float_literal(word_after(upper(s), 'G')) && g != 90 && g != 91,
        word_ok(upper(s), 'X'),
        word_ok(upper(s), 'Y'),
        word_ok(upper(s), 'A'),
        word_ok(upper(s), 'F'),
        word_ok(upper(s), 'S'),
    ensures
        parse_text(s, g) == ParseView::GCode(
            GCodeView {
                code: if upper(s).contains('G') {
                    Code::G(g)
                } else {
                    Code::Empty
                },
                x: if upper(s).contains('X') {
                    Some(word_after(upper(s), 'X'))
                } else {
                    None
                },
                y: if upper(s).contains('Y') {
                    Some(word_after(upper(s), 'Y'))
                } else {
                    None
                },
                a: if upper(s).contains('A') {
                    Some(word_after(upper(s), 'A'))
                } else {
                    None
                },
                s: if upper(s).contains('S') {
                    Some(word_after(upper(s), 'S'))
                } else {
                    None
                },
                f: if upper(s).contains('F') {
                    Some(word_after(upper(s), 'F'))
                } else {
                    None
                },
            },
        ),
{
    assert(upper(s).len() == s.len());
}

/// On the same lines, a value word that is no number literal refuses the
/// line: the first such word, in the order `X`, `Y`, `A`, `F`, `S`, gives
/// the message `Failed to parse <letter> value "<line>"`.
pub proof fn law_bad_value_word_refuses(s: Seq<char>, g: u32)
    requires
        plain_start(upper(s)),
        !upper(s).contains('M'),
        upper(s).contains('G') ==> float_literal(word_after(upper(s), 'G')) && g != 90 && g != 91,
    ensures
        !word_ok(upper(s), 'X') ==> parse_text(s, g) == ParseView::Error(letter_error(upper(s), 'X')),
        word_ok(upper(s), 'X') && !word_ok(upper(s), 'Y') ==> parse_text(s, g) == ParseView::Error(
            letter_error(upper(s), 'Y'),
        ),
        word_ok(upper(s), 'X') && word_ok(upper(s), 'Y') && !word_ok(upper(s), 'A') ==> parse_text(
            s,
            g,
        ) == ParseView::Error(letter_error(upper(s), 'A')),
        word_ok(upper(s), 'X') && word_ok(upper(s), 'Y') && word_ok(upper(s), 'A') && !word_ok(
            upper(s),
            'F',
        ) ==> parse_text(s, g) == ParseView::Error(letter_error(upper(s), 'F')),
        word_ok(upper(s), 'X') && word_ok(upper(s), 'Y') && word_ok(upper(s), 'A') && word_ok(
            upper(s),
            'F',
        ) && !word_ok(upper(s), 'S') ==> parse_text(s, g) == ParseView::Error(
            letter_error(upper(s), 'S'),
        ),
{
    assert(upper(s).len() == s.len());
}

/// A plain line with an M word whose number reads as `n` and whose `S`
/// word, if any, is a number literal is the command `M(n)` with that `S`
/// word and no other value word.
pub proof fn law_m_line_is_read(s: Seq<char>, g: u32, n: u32)
    requires
        plain_start(upper(s)),
        upper(s).contains('M'),
        u32_literal(word_after(upper(s), 'M')) == Some(n),
        word_ok(upper(s), 'S'),
    ensures
        parse_text(s, g) == ParseView::GCode(
            GCodeView {
                code: Code::M(n),
                x: None,
                y: None,
                a: None,
                s: if upper(s).contains('S') {
                    Some(word_after(upper(s), 'S'))
                } else {
                    None
                },
                f: None,
            },
        ),
{
    assert(upper(s).len() == s.len());
}

/// The message for a bad word of letter `l` on line `t` is
/// `Failed to parse <l> value "<t>"` whole whenever it fits the 64-byte
/// reply, that is when the letter and the line take at most 39 bytes.
pub proof fn law_letter_error_message(t: Seq<char>, l: char)
    requires
        utf8_char_len(l) + utf8_len(t) <= 39,
    ensures
        letter_error(t, l) == "Failed to parse "@ + seq![l] + " value \""@ + t + "\""@,
{
    let p0 = "Failed to parse "@;
    let p2 = " value \""@;
    let p4 = "\""@;
    reveal_strlit("Failed to parse ");
    reveal_strlit(" value \"");
    reveal_strlit("\"");
    reveal_with_fuel(utf8_len, 17);
    assert(utf8_len(p0) == 16);
    assert(utf8_len(p2) == 8);
    assert(utf8_len(p4) == 1);
    let p1 = seq![l];
    lemma_utf8_len_push(Seq::<char>::empty(), l);
    assert(Seq::<char>::empty().push(l) =~= p1);
    let pieces = seq![p0, p1, p2, t, p4];
    let cap = STR_MAX_LEN as nat;
    let e = Seq::<char>::empty();
    lemma_write_pieces_step(e, pieces, cap);
    let a1 = e + p0;
    let r1 = pieces.drop_first();
    assert(a1 =~= p0);
    lemma_write_pieces_step(a1, r1, cap);
    lemma_utf8_len_concat(a1, p1);
    let a2 = a1 + p1;
    let r2 = r1.drop_first();
    lemma_write_pieces_step(a2, r2, cap);
    lemma_utf8_len_concat(a2, p2);
    let a3 = a2 + p2;
    let r3 = r2.drop_first();
    lemma_write_pieces_step(a3, r3, cap);
    lemma_utf8_len_concat(a3, t);
    let a4 = a3 + t;
    let r4 = r3.drop_first();
    lemma_write_pieces_step(a4, r4, cap);
    lemma_utf8_len_concat(a4, p4);
    let a5 = a4 + p4;
    assert(r4.drop_first() =~= Seq::<Seq<char>>::empty());
    assert(a5 =~= p0 + p1 + p2 + t + p4);
}

/// A plain G90 or G91 line with no M word is the mode switch alone, ending
/// after its three bytes; the rest of the line is read again on its own.
pub proof fn law_mode_switch_is_partial(s: Seq<char>, g: u32)
    requires
        plain_start(upper(s)),
        !upper(s).contains('M'),
        upper(s).contains('G'),
        float_literal(word_after(upper(s), 'G')),
        g == 90 || g == 91,
    ensures
        parse_text(s, g) == ParseView::Partial(
            GCodeView { code: Code::G(g), x: None, y: None, a: None, s: None, f: None },
            3,
        ),
{
    assert(upper(s).len() == s.len());
}

/// A line starting with `?` and holding no `$` is a status request; a line
/// starting with `$` or `?` that holds a `$` and no `J` asks for the
/// setting named by the character after its first `$`.
pub proof fn law_request_lines(s: Seq<char>, g: u32)
    requires
        s.len() > 0,
    ensures
        upper(s)[0] == '?' && !upper(s).contains('$') ==> parse_text(s, g) == ParseView::Request(
            Request::Status,
        ),
        (upper(s)[0] == '?' || upper(s)[0] == '$') && upper(s).contains('$') && !upper(s).contains(
            'J',
        ) ==> match char_after_first(upper(s), '$') {
            Some(ch) => parse_text(s, g) == ParseView::Request(Request::Dollar(ch)),
            None => parse_text(s, g) == ParseView::Error("Failed to parse $ command"@),
        },
{
    assert(upper(s).len() == s.len());
}

} // verus!

