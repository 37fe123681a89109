//! Characters and text: UTF-8 byte lengths, ASCII case, bounded text
//! buffers and decimal formatting.
use vstd::prelude::*;

verus! {

/// Number of bytes of the UTF-8 encoding of `c`.
pub open spec fn utf8_char_len(c: char) -> nat {
    if (c as u32) < 0x80 {
        1
    } else if (c as u32) < 0x800 {
        2
    } else if (c as u32) < 0x10000 {
        3
    } else {
        4
    }
}

/// Number of bytes of the UTF-8 encoding of `s`.
pub open spec fn utf8_len(s: Seq<char>) -> nat
    decreases s.len(),
{
    if s.len() == 0 {
        0
    } else {
        utf8_len(s.drop_last()) + utf8_char_len(s.last())
    }
}

pub proof fn lemma_utf8_len_concat(a: Seq<char>, b: Seq<char>)
    ensures
        utf8_len(a + b) == utf8_len(a) + utf8_len(b),
    decreases b.len(),
{
    if b.len() == 0 {
        assert(a + b =~= a);
    } else {
        lemma_utf8_len_concat(a, b.drop_last());
        assert((a + b).drop_last() =~= a + b.drop_last());
    }
}

pub proof fn lemma_utf8_len_push(a: Seq<char>, c: char)
    ensures
        utf8_len(a.push(c)) == utf8_len(a) + utf8_char_len(c),
{
    assert(a.push(c).drop_last() =~= a);
}

pub proof fn lemma_utf8_len_first(s: Seq<char>)
    requires
        s.len() > 0,
    ensures
        utf8_len(s) == utf8_char_len(s[0]) + utf8_len(s.drop_first()),
{
    lemma_utf8_len_concat(seq![s[0]], s.drop_first());
    assert(seq![s[0]] + s.drop_first() =~= s);
    assert(seq![s[0]].drop_last() =~= Seq::<char>::empty());
    assert(utf8_len(Seq::<char>::empty()) == 0);
    assert(utf8_len(seq![s[0]]) == utf8_char_len(s[0]));
}

/// Byte length of the UTF-8 encoding of `c`.
pub fn char_utf8_len(c: char) -> (n: usize)
    ensures
        n == utf8_char_len(c),
{
    let v = c as u32;
    if v < 0x80 {
        1
    } else if v < 0x800 {
        2
    } else if v < 0x10000 {
        3
    } else {
        4
    }
}

} // verus!

verus! {

/// `c` with ASCII letters `a`..`z` turned to upper case, as
/// `char::make_ascii_uppercase` does; every other character is kept.
pub open spec fn ascii_upper(c: char) -> char {
    if 'a' <= c && c <= 'z' {
        ((c as u32) - 32) as char
    } else {
        c
    }
}

/// `s` with every character passed through `ascii_upper`.
pub open spec fn upper(s: Seq<char>) -> Seq<char> {
    Seq::new(s.len(), |i: int| ascii_upper(s[i]))
}

pub proof fn lemma_upper_keeps_ascii_class(c: char)
    ensures
        (c as u32) < 0x80 <==> (ascii_upper(c) as u32) < 0x80,
        utf8_char_len(ascii_upper(c)) == utf8_char_len(c),
{
}

pub proof fn lemma_upper_utf8_len(s: Seq<char>)
    ensures
        utf8_len(upper(s)) == utf8_len(s),
    decreases s.len(),
{
    if s.len() > 0 {
        lemma_upper_utf8_len(s.drop_last());
        assert(upper(s).drop_last() =~= upper(s.drop_last()));
        lemma_upper_keeps_ascii_class(s.last());
    }
}

/// `c.make_ascii_uppercase()` on a copy of `c`.
pub fn to_ascii_upper(c: char) -> (r: char)
    ensures
        r == ascii_upper(c),
{
    if 'a' <= c && c <= 'z' {
        let b = (c as u32 - 32) as u8;
        b as char
    } else {
        c
    }
}

/// The characters of `s`, in order.
pub fn str_chars(s: &str) -> (v: Vec<char>)
    ensures
        v@ == s@,
{
    let n = s.unicode_len();
    let mut v: Vec<char> = Vec::new();
    let mut i: usize = 0;
    while i < n
        invariant
            n == s@.len(),
            i <= n,
            v@ =~= s@.subrange(0, i as int),
        decreases n - i,
    {
        let c = s.get_char(i);
        v.push(c);
        i = i + 1;
    }
    v
}

/// Appends `c` at the end of `s` (`String::push`: "Appends the given char
/// to the end of this String").
#[verifier::external_body]
pub fn string_push(s: &mut String, c: char)
    ensures
        final(s)@ == old(s)@.push(c),
{
    s.push(c);
}

/// A string holding the characters of `v`, in order.
pub fn chars_to_string(v: &[char]) -> (s: String)
    ensures
        s@ == v@,
{
    let mut s = String::new();
    let mut i: usize = 0;
    while i < v.len()
        invariant
            i <= v.len(),
            s@ =~= v@.subrange(0, i as int),
        decreases v.len() - i,
    {
        string_push(&mut s, v[i]);
        i = i + 1;
    }
    s
}

/// Whether `char::is_numeric` holds of `c`: `c` is in one of the Unicode
/// general categories for numbers (Nd, Nl, No).
pub uninterp spec fn is_numeric_char(c: char) -> bool;

/// `char::is_numeric`. Its result is named by `is_numeric_char`; stated
/// besides is what the standard library shows for ASCII: the ten digits
/// `0`..`9` are numeric and no other ASCII character is. Nothing is stated
/// of non-ASCII characters besides the name.
#[verifier::external_body]
pub fn char_is_numeric(c: char) -> (r: bool)
    ensures
        r == is_numeric_char(c),
        '0' <= c && c <= '9' ==> r,
        (c as u32) < 0x80 && !('0' <= c && c <= '9') ==> !r,
{
    c.is_numeric()
}

} // verus!

verus! {

pub proof fn lemma_utf8_len_prefix(s: Seq<char>, n: int)
    requires
        0 <= n <= s.len(),
    ensures
        utf8_len(s.subrange(0, n)) <= utf8_len(s),
{
    lemma_utf8_len_concat(s.subrange(0, n), s.subrange(n, s.len() as int));
    assert(s.subrange(0, n) + s.subrange(n, s.len() as int) =~= s);
}

/// Text written piece by piece into a buffer of `cap` bytes that takes a
/// piece only whole and stops at the first piece that does not fit: the way
/// `core::fmt::write` fills a fixed-capacity string whose `write_str` and
/// `write_char` refuse what overflows it.
pub open spec fn write_pieces_from(acc: Seq<char>, pieces: Seq<Seq<char>>, cap: nat) -> Seq<char>
    decreases pieces.len(),
{
    if pieces.len() == 0 {
        acc
    } else if utf8_len(acc) + utf8_len(pieces[0]) <= cap {
        write_pieces_from(acc + pieces[0], pieces.drop_first(), cap)
    } else {
        acc
    }
}

pub open spec fn write_pieces(pieces: Seq<Seq<char>>, cap: nat) -> Seq<char> {
    write_pieces_from(Seq::empty(), pieces, cap)
}

/// One step of `write_pieces_from`: the first piece is taken when it fits,
/// and nothing more is written otherwise.
pub proof fn lemma_write_pieces_step(acc: Seq<char>, pieces: Seq<Seq<char>>, cap: nat)
    requires
        pieces.len() > 0,
    ensures
        utf8_len(acc) + utf8_len(pieces[0]) <= cap ==> write_pieces_from(acc, pieces, cap)
            == write_pieces_from(acc + pieces[0], pieces.drop_first(), cap),
        utf8_len(acc) + utf8_len(pieces[0]) > cap ==> write_pieces_from(acc, pieces, cap) == acc,
{
}

/// Whether the UTF-8 encoding of `v` takes at most `budget` bytes.
pub fn fits_within(v: &[char], budget: usize) -> (r: bool)
    ensures
        r == (utf8_len(v@) <= budget),
{
    let mut n: usize = 0;
    let mut i: usize = 0;
    while i < v.len()
        invariant
            i <= v.len(),
            n == utf8_len(v@.subrange(0, i as int)),
            n <= budget,
        decreases v.len() - i,
    {
        proof {
            assert(v@.subrange(0, i + 1) =~= v@.subrange(0, i as int).push(v@[i as int]));
            lemma_utf8_len_push(v@.subrange(0, i as int), v@[i as int]);
        }
        let c = char_utf8_len(v[i]);
        if c > budget - n {
            proof {
                lemma_utf8_len_prefix(v@, i + 1);
            }
            return false;
        }
        n = n + c;
        i = i + 1;
    }
    assert(v@.subrange(0, i as int) =~= v@);
    true
}

/// Byte length of the UTF-8 encoding of `v`, known to fit in `budget`.
pub fn utf8_len_of_bounded(v: &[char], budget: usize) -> (n: usize)
    requires
        utf8_len(v@) <= budget,
    ensures
        n == utf8_len(v@),
{
    let mut n: usize = 0;
    let mut i: usize = 0;
    while i < v.len()
        invariant
            i <= v.len(),
            n == utf8_len(v@.subrange(0, i as int)),
            utf8_len(v@) <= budget,
        decreases v.len() - i,
    {
        proof {
            assert(v@.subrange(0, i + 1) =~= v@.subrange(0, i as int).push(v@[i as int]));
            lemma_utf8_len_push(v@.subrange(0, i as int), v@[i as int]);
            lemma_utf8_len_prefix(v@, i + 1);
        }
        n = n + char_utf8_len(v[i]);
        i = i + 1;
    }
    assert(v@.subrange(0, i as int) =~= v@);
    n
}


} // verus!

verus! {

pub open spec fn digit_char(d: nat) -> char
    recommends
        d < 10,
{
    (('0' as u32) + d) as char
}

/// Decimal digits of `n`, as `Display` writes an unsigned integer.
pub open spec fn decimal(n: nat) -> Seq<char>
    decreases n,
{
    if n < 10 {
        seq![digit_char(n)]
    } else {
        decimal(n / 10).push(digit_char(n % 10))
    }
}

/// `Display` of a signed integer: a minus sign before the digits of its
/// magnitude when negative.
pub open spec fn signed_decimal(n: int) -> Seq<char> {
    if n < 0 {
        seq!['-'] + decimal((-n) as nat)
    } else {
        decimal(n as nat)
    }
}

/// The decimal digits of `n`.
pub fn u32_to_decimal(n: u32) -> (v: Vec<char>)
    ensures
        v@ == decimal(n as nat),
    decreases n,
{
    if n < 10 {
        let mut v: Vec<char> = Vec::new();
        v.push(((n + 48) as u8) as char);
        v
    } else {
        let mut v = u32_to_decimal(n / 10);
        v.push(((n % 10 + 48) as u8) as char);
        v
    }
}

/// The decimal digits of `n`.
pub fn usize_to_decimal(n: usize) -> (v: Vec<char>)
    ensures
        v@ == decimal(n as nat),
    decreases n,
{
    if n < 10 {
        let mut v: Vec<char> = Vec::new();
        v.push(((n + 48) as u8) as char);
        v
    } else {
        let mut v = usize_to_decimal(n / 10);
        v.push(((n % 10 + 48) as u8) as char);
        v
    }
}

/// The text of `n` as `Display` writes it.
pub fn i32_to_decimal(n: i32) -> (v: Vec<char>)
    ensures
        v@ == signed_decimal(n as int),
{
    if n < 0 {
        let m: u32 = if n == i32::MIN {
            2147483648u32
        } else {
            (-n) as u32
        };
        let d = u32_to_decimal(m);
        let mut v: Vec<char> = Vec::new();
        v.push('-');
        let mut i: usize = 0;
        while i < d.len()
            invariant
                i <= d.len(),
                v@ =~= seq!['-'] + d@.subrange(0, i as int),
            decreases d.len() - i,
        {
            v.push(d[i]);
            i = i + 1;
        }
        assert(d@.subrange(0, d@.len() as int) =~= d@);
        v
    } else {
        u32_to_decimal(n as u32)
    }
}

/// The first `n` characters of `s`, or all of it when it is shorter: what a
/// formatting precision of `n` keeps of a text.
pub open spec fn first_chars(s: Seq<char>, n: nat) -> Seq<char> {
    if s.len() <= n {
        s
    } else {
        s.take(n as int)
    }
}

/// The first `n` characters of `v`, or all of them when there are fewer.
pub fn take_chars(v: &[char], n: usize) -> (r: Vec<char>)
    ensures
        r@ == first_chars(v@, n as nat),
{
    let mut r: Vec<char> = Vec::new();
    let mut i: usize = 0;
    while i < v.len() && i < n
        invariant
            i <= v.len(),
            i <= n,
            r@ =~= v@.subrange(0, i as int),
        decreases v.len() - i,
    {
        r.push(v[i]);
        i = i + 1;
    }
    proof {
        if v@.len() <= n {
            assert(r@ =~= v@);
        } else {
            assert(r@ =~= v@.take(n as int));
        }
    }
    r
}

/// Characters of `s` then of `t`.
pub fn concat_chars(s: &[char], t: &[char]) -> (v: Vec<char>)
    ensures
        v@ == s@ + t@,
{
    let mut v: Vec<char> = Vec::new();
    let mut i: usize = 0;
    while i < s.len()
        invariant
            i <= s.len(),
            v@ =~= s@.subrange(0, i as int),
        decreases s.len() - i,
    {
        v.push(s[i]);
        i = i + 1;
    }
    let mut j: usize = 0;
    while j < t.len()
        invariant
            j <= t.len(),
            v@ =~= s@ + t@.subrange(0, j as int),
        decreases t.len() - j,
    {
        v.push(t[j]);
        j = j + 1;
    }
    v
}

/// Upper-casing keeps the length, leaves no ASCII lower-case letter, turns
/// each one into the letter 32 code points below it, and changes no other
/// character.
pub proof fn law_upper_case(s: Seq<char>)
    ensures
        upper(s).len() == s.len(),
        forall|i: int| 0 <= i < s.len() ==> !('a' <= #[trigger] upper(s)[i] && upper(s)[i] <= 'z'),
        forall|i: int|
            0 <= i < s.len() && 'a' <= #[trigger] s[i] && s[i] <= 'z' ==> upper(s)[i] as u32 + 32
                == s[i] as u32,
        forall|i: int|
            0 <= i < s.len() && !('a' <= #[trigger] s[i] && s[i] <= 'z') ==> upper(s)[i] == s[i],
{
    assert forall|i: int| 0 <= i < s.len() implies !('a' <= #[trigger] upper(s)[i] && upper(s)[i]
        <= 'z') && ('a' <= s[i] && s[i] <= 'z' ==> upper(s)[i] as u32 + 32 == s[i] as u32) by {
        let c = s[i];
        if 'a' <= c && c <= 'z' {
            assert((((c as u32) - 32) as char) as u32 == (c as u32) - 32);
        }
    }
}

} // verus!
