//! Fixed-capacity strings of the `heapless` crate: the serial line buffer
//! and the 64-byte reply strings. What such a string holds is named per
//! capacity; the operations used are stated as `heapless` implements them:
//! a push either fits whole or changes nothing.
use vstd::prelude::*;

use crate::config::STR_MAX_LEN;
use crate::gcode::MAX_LEN;
use crate::text::{
    lemma_utf8_len_push, lemma_write_pieces_step, utf8_char_len, utf8_len, write_pieces,
};

verus! {

/// Capacity, in bytes, of the serial line buffer.
pub const LINE_CAPACITY: usize = MAX_LEN;

/// `heapless::String`.
#[verifier::external_type_specification]
#[verifier::external_body]
pub struct ExHeaplessString<const N: usize>(heapless::String<N>);

/// The characters a line buffer holds.
pub uninterp spec fn line_text(s: heapless::String<LINE_CAPACITY>) -> Seq<char>;

/// The characters a reply string holds.
pub uninterp spec fn short_text(s: heapless::String<STR_MAX_LEN>) -> Seq<char>;

/// `heapless::String::as_str` of a line buffer: its characters, which never
/// take more than its capacity.
#[verifier::external_body]
pub(crate) fn line_str(s: &heapless::String<LINE_CAPACITY>) -> (r: &str)
    ensures
        r@ == line_text(*s),
        utf8_len(r@) <= LINE_CAPACITY,
{
    s.as_str()
}

/// `heapless::String::push` on a line buffer: the character is added when
/// its UTF-8 bytes fit in the room left, and nothing changes otherwise.
#[verifier::external_body]
pub(crate) fn line_push(s: &mut heapless::String<LINE_CAPACITY>, c: char) -> (r: Result<(), ()>)
    ensures
        r is Ok <==> utf8_len(line_text(*old(s))) + utf8_char_len(c) <= LINE_CAPACITY,
        r is Ok ==> line_text(*final(s)) == line_text(*old(s)).push(c),
        r is Err ==> line_text(*final(s)) == line_text(*old(s)),
{
    s.push(c)
}

/// `heapless::String::clear` on a line buffer: empty.
#[verifier::external_body]
pub(crate) fn line_clear(s: &mut heapless::String<LINE_CAPACITY>)
    ensures
        line_text(*final(s)) == Seq::<char>::empty(),
{
    s.clear()
}

/// A line buffer collected from `chars` (`FromIterator<char>`, which
/// panics on a text longer than the capacity).
#[verifier::external_body]
pub(crate) fn line_from_chars(chars: &[char]) -> (s: heapless::String<LINE_CAPACITY>)
    requires
        utf8_len(chars@) <= LINE_CAPACITY,
    ensures
        line_text(s) == chars@,
{
    chars.iter().copied().collect()
}

/// `heapless::String::as_str` of a reply string.
#[verifier::external_body]
pub(crate) fn short_str(s: &heapless::String<STR_MAX_LEN>) -> (r: &str)
    ensures
        r@ == short_text(*s),
{
    s.as_str()
}

/// `heapless::String::new` for a reply string: empty.
#[verifier::external_body]
pub(crate) fn short_new() -> (s: heapless::String<STR_MAX_LEN>)
    ensures
        short_text(s) == Seq::<char>::empty(),
{
    heapless::String::new()
}

/// `heapless::String::push_str` on a reply string: the text is added when
/// its UTF-8 bytes fit in the room left, and nothing changes otherwise.
#[verifier::external_body]
pub(crate) fn short_push_str(s: &mut heapless::String<STR_MAX_LEN>, piece: &str) -> (r: Result<(), ()>)
    ensures
        r is Ok <==> utf8_len(short_text(*old(s))) + utf8_len(piece@) <= STR_MAX_LEN,
        r is Ok ==> short_text(*final(s)) == short_text(*old(s)) + piece@,
        r is Err ==> short_text(*final(s)) == short_text(*old(s)),
{
    s.push_str(piece)
}

/// `heapless::String::push` on a reply string: the character is added when
/// its UTF-8 bytes fit in the room left, and nothing changes otherwise.
#[verifier::external_body]
pub(crate) fn short_push(s: &mut heapless::String<STR_MAX_LEN>, c: char) -> (r: Result<(), ()>)
    ensures
        r is Ok <==> utf8_len(short_text(*old(s))) + utf8_char_len(c) <= STR_MAX_LEN,
        r is Ok ==> short_text(*final(s)) == short_text(*old(s)).push(c),
        r is Err ==> short_text(*final(s)) == short_text(*old(s)),
{
    s.push(c)
}

/// The message `Failed to parse <letter> value "<text>"` written into an
/// empty reply string the way `write!` writes it: each literal piece and
/// each argument in turn, each taken whole or not at all, stopping at the
/// first one that does not fit.
pub(crate) fn letter_error_text(letter: char, text: &str) -> (s: heapless::String<STR_MAX_LEN>)
    ensures
        short_text(s) == write_pieces(
            seq!["Failed to parse "@, seq![letter], " value \""@, text@, "\""@],
            STR_MAX_LEN as nat,
        ),
{
    let ghost cap = STR_MAX_LEN as nat;
    let ghost p1 = seq![letter];
    let ghost pieces = seq!["Failed to parse "@, p1, " value \""@, text@, "\""@];
    let ghost mut rest = pieces;
    let mut s = short_new();
    proof {
        assert(Seq::<char>::empty().push(letter) =~= p1);
        lemma_utf8_len_push(Seq::<char>::empty(), letter);
        lemma_write_pieces_step(short_text(s), rest, cap);
    }
    if short_push_str(&mut s, "Failed to parse ").is_err() {
        return s;
    }
    proof {
        rest = rest.drop_first();
        lemma_write_pieces_step(short_text(s), rest, cap);
    }
    let ghost before = short_text(s);
    if short_push(&mut s, letter).is_err() {
        return s;
    }
    proof {
        assert(before.push(letter) =~= before + p1);
        rest = rest.drop_first();
        lemma_write_pieces_step(short_text(s), rest, cap);
    }
    if short_push_str(&mut s, " value \"").is_err() {
        return s;
    }
    proof {
        rest = rest.drop_first();
        lemma_write_pieces_step(short_text(s), rest, cap);
    }
    if short_push_str(&mut s, text).is_err() {
        return s;
    }
    proof {
        rest = rest.drop_first();
        lemma_write_pieces_step(short_text(s), rest, cap);
    }
    let _ = short_push_str(&mut s, "\"");
    proof {
        assert(rest.drop_first() =~= Seq::<Seq<char>>::empty());
    }
    s
}

} // verus!
