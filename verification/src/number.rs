//! Number words of a G-code line: the characters that follow a command
//! letter, and the literal syntax that `u32` and `f32` parsing accept.
use vstd::prelude::*;

use crate::text::{char_is_numeric, decimal, digit_char, is_numeric_char};

verus! {

pub open spec fn is_ascii_digit(c: char) -> bool {
    '0' <= c && c <= '9'
}

/// A character that may belong to a number word: a sign, a dot, or a
/// numeric character.
pub open spec fn is_word_char(c: char) -> bool {
    c == '.' || c == '+' || c == '-' || is_numeric_char(c)
}

/// Index of the first occurrence of `k` in `s`, searching from `from`.
pub open spec fn first_index_from(s: Seq<char>, k: char, from: int) -> Option<int>
    decreases s.len() - from,
{
    if from < 0 || from >= s.len() {
        None
    } else if s[from] == k {
        Some(from)
    } else {
        first_index_from(s, k, from + 1)
    }
}

/// Index of the first occurrence of `k` in `s`.
pub open spec fn first_index(s: Seq<char>, k: char) -> Option<int> {
    first_index_from(s, k, 0)
}

/// The longest run of word characters of `s` that starts at `i`.
pub open spec fn word_at(s: Seq<char>, i: int) -> Seq<char>
    decreases s.len() - i,
{
    if 0 <= i < s.len() && is_word_char(s[i]) {
        seq![s[i]] + word_at(s, i + 1)
    } else {
        Seq::empty()
    }
}

/// The number word after the first `k` of `s`: skip up to and past the
/// first `k`, then take word characters. Empty when `s` holds no `k`.
pub open spec fn word_after(s: Seq<char>, k: char) -> Seq<char> {
    match first_index(s, k) {
        Some(i) => word_at(s, i + 1),
        None => Seq::empty(),
    }
}

/// Value of a sequence of ASCII digits, most significant first.
pub open spec fn digits_value(d: Seq<char>) -> nat
    decreases d.len(),
{
    if d.len() == 0 {
        0
    } else {
        10 * digits_value(d.drop_last()) + ((d.last() as u32) - ('0' as u32)) as nat
    }
}

pub open spec fn all_digits(d: Seq<char>) -> bool {
    forall|i: int| 0 <= i < d.len() ==> #[trigger] is_ascii_digit(d[i])
}

/// `t` without its leading `+`, if it has one.
pub open spec fn plus_stripped(t: Seq<char>) -> Seq<char> {
    if t.len() > 0 && t[0] == '+' {
        t.drop_first()
    } else {
        t
    }
}

/// What `u32::from_str` gives for the text `t`: an optional `+`, then at
/// least one ASCII digit, with a value that fits in 32 bits.
pub open spec fn u32_literal(t: Seq<char>) -> Option<u32> {
    let d = plus_stripped(t);
    if d.len() > 0 && all_digits(d) && digits_value(d) <= u32::MAX {
        Some(digits_value(d) as u32)
    } else {
        None
    }
}

/// Number of dots in `t`.
pub open spec fn dot_count(t: Seq<char>) -> nat
    decreases t.len(),
{
    if t.len() == 0 {
        0
    } else {
        dot_count(t.drop_last()) + if t.last() == '.' { 1nat } else { 0nat }
    }
}

/// Number of ASCII digits in `t`.
pub open spec fn digit_count(t: Seq<char>) -> nat
    decreases t.len(),
{
    if t.len() == 0 {
        0
    } else {
        digit_count(t.drop_last()) + if is_ascii_digit(t.last()) { 1nat } else { 0nat }
    }
}

/// `t` without its leading sign, if it has one.
pub open spec fn unsigned_part(t: Seq<char>) -> Seq<char> {
    if t.len() > 0 && (t[0] == '+' || t[0] == '-') {
        t.drop_first()
    } else {
        t
    }
}

/// Whether `f32::from_str` accepts the text `t`, for texts made of signs,
/// dots and digits: the documented grammar is
/// `Sign? (Digit+ | Digit+ '.' Digit* | Digit* '.' Digit+)`, that is an
/// optional sign, then digits with at most one dot and at least one digit.
pub open spec fn float_literal(t: Seq<char>) -> bool {
    let b = unsigned_part(t);
    &&& forall|i: int| 0 <= i < b.len() ==> (is_ascii_digit(#[trigger] b[i]) || b[i] == '.')
    &&& dot_count(b) <= 1
    &&& digit_count(b) >= 1
}

/// The first index of `k` in `s`.
pub fn find_first(s: &Vec<char>, k: char) -> (r: Option<usize>)
    ensures
        match r {
            Some(i) => first_index(s@, k) == Some(i as int) && i < s.len() && s@[i as int] == k,
            None => first_index(s@, k) is None,
        },
{
    let mut i: usize = 0;
    while i < s.len()
        invariant
            i <= s.len(),
            first_index(s@, k) == first_index_from(s@, k, i as int),
        decreases s.len() - i,
    {
        if s[i] == k {
            return Some(i);
        }
        i = i + 1;
    }
    None
}

/// Whether `s` holds `k` (`str::contains` with a char pattern).
pub fn has_char(s: &Vec<char>, k: char) -> (r: bool)
    ensures
        r == s@.contains(k),
        r == (first_index(s@, k) is Some),
{
    let mut i: usize = 0;
    while i < s.len()
        invariant
            i <= s.len(),
            first_index(s@, k) == first_index_from(s@, k, i as int),
            forall|j: int| 0 <= j < i ==> s@[j] != k,
        decreases s.len() - i,
    {
        if s[i] == k {
            proof {
                lemma_first_index_found(s@, k, i as int);
            }
            return true;
        }
        i = i + 1;
    }
    proof {
        lemma_first_index_none(s@, k, s.len() as int);
    }
    false
}

pub proof fn lemma_first_index_range(s: Seq<char>, k: char, from: int)
    ensures
        first_index_from(s, k, from) matches Some(j) ==> from <= j < s.len() && s[j] == k
            && !s.subrange(from, j).contains(k),
    decreases s.len() - from,
{
    if 0 <= from < s.len() && s[from] != k {
        lemma_first_index_range(s, k, from + 1);
        if let Some(j) = first_index_from(s, k, from + 1) {
            assert forall|x: int| from <= x < j implies s[x] != k by {
                if x > from {
                    assert(s.subrange(from + 1, j)[x - from - 1] == s[x]);
                }
            }
            assert forall|x: int| 0 <= x < s.subrange(from, j).len() implies s.subrange(from, j)[x] != k by {
                assert(s.subrange(from, j)[x] == s[from + x]);
            }
        }
    }
}

pub proof fn lemma_first_index_found(s: Seq<char>, k: char, i: int)
    requires
        0 <= i < s.len(),
        s[i] == k,
    ensures
        s.contains(k),
        first_index_from(s, k, i) == Some(i),
{
}

pub proof fn lemma_first_index_none(s: Seq<char>, k: char, i: int)
    requires
        i == s.len(),
        forall|j: int| 0 <= j < i ==> s[j] != k,
    ensures
        !s.contains(k),
        first_index_from(s, k, i) is None,
{
}

/// Whether `c` may belong to a number word.
pub fn word_char(c: char) -> (r: bool)
    ensures
        r == is_word_char(c),
{
    c == '.' || c == '+' || c == '-' || char_is_numeric(c)
}

pub proof fn lemma_word_at_step(s: Seq<char>, i: int)
    requires
        0 <= i < s.len(),
        is_word_char(s[i]),
    ensures
        word_at(s, i) == seq![s[i]] + word_at(s, i + 1),
{
}

/// The run of word characters of `s` that starts at `start`.
pub fn word_from(s: &Vec<char>, start: usize) -> (w: Vec<char>)
    ensures
        w@ == word_at(s@, start as int),
{
    let mut w: Vec<char> = Vec::new();
    let mut i: usize = start;
    while i < s.len() && word_char(s[i])
        invariant
            start <= i,
            w@ + word_at(s@, i as int) == word_at(s@, start as int),
        decreases s.len() - i,
    {
        proof {
            lemma_word_at_step(s@, i as int);
            assert(w@.push(s@[i as int]) + word_at(s@, i + 1) =~= w@ + word_at(s@, i as int));
        }
        w.push(s[i]);
        i = i + 1;
    }
    assert(w@ + word_at(s@, i as int) =~= w@);
    w
}

/// The number word after the first `k` of `s`.
pub fn word_after_key(s: &Vec<char>, k: char) -> (w: Vec<char>)
    ensures
        w@ == word_after(s@, k),
{
    match find_first(s, k) {
        Some(i) => if i < s.len() { word_from(s, i + 1) } else { Vec::new() },
        None => Vec::new(),
    }
}

pub proof fn lemma_digits_value_push(d: Seq<char>, c: char)
    ensures
        digits_value(d.push(c)) == 10 * digits_value(d) + ((c as u32) - ('0' as u32)) as nat,
{
    assert(d.push(c).drop_last() =~= d);
}

/// `u32::from_str`.
pub fn parse_u32(t: &Vec<char>) -> (r: Option<u32>)
    ensures
        r == u32_literal(t@),
{
    let start: usize = if t.len() > 0 && t[0] == '+' { 1 } else { 0 };
    let ghost d = plus_stripped(t@);
    assert(d =~= t@.subrange(start as int, t@.len() as int));
    if start >= t.len() {
        return None;
    }
    let mut value: u64 = 0;
    let mut i: usize = start;
    while i < t.len()
        invariant
            start <= i <= t.len(),
            d =~= t@.subrange(start as int, t@.len() as int),
            d == plus_stripped(t@),
            all_digits(t@.subrange(start as int, i as int)),
            value as nat == digits_value(t@.subrange(start as int, i as int)),
            value <= u32::MAX,
        decreases t.len() - i,
    {
        let c = t[i];
        if !('0' <= c && c <= '9') {
            assert(!is_ascii_digit(d[i - start]));
            assert(!all_digits(d));
            assert(u32_literal(t@) is None);
            return None;
        }
        let digit = (c as u32 - '0' as u32) as u64;
        proof {
            lemma_digits_value_push(t@.subrange(start as int, i as int), c);
            assert(t@.subrange(start as int, i + 1) =~= t@.subrange(start as int, i as int).push(c));
        }
        let next = value * 10 + digit;
        if next > u32::MAX as u64 {
            proof {
                assert(d.subrange(0, (i + 1 - start) as int) =~= t@.subrange(start as int, i + 1));
                if all_digits(d) {
                    lemma_digits_prefix_bound(d, (i + 1 - start) as int);
                }
            }
            return None;
        }
        value = next;
        i = i + 1;
    }
    assert(t@.subrange(start as int, t@.len() as int) =~= d);
    Some(value as u32)
}

/// A prefix of a digit sequence never has a larger value than the whole.
pub proof fn lemma_digits_prefix_bound(d: Seq<char>, n: int)
    requires
        0 <= n <= d.len(),
        all_digits(d),
    ensures
        digits_value(d.subrange(0, n)) <= digits_value(d),
    decreases d.len() - n,
{
    if n < d.len() {
        lemma_digits_prefix_bound(d, n + 1);
        let p = d.subrange(0, n);
        assert(d.subrange(0, n + 1) =~= p.push(d[n]));
        lemma_digits_value_push(p, d[n]);
        assert(is_ascii_digit(d[n]));
    } else {
        assert(d.subrange(0, n) =~= d);
    }
}

pub proof fn lemma_counts_push(t: Seq<char>, c: char)
    ensures
        dot_count(t.push(c)) == dot_count(t) + if c == '.' { 1nat } else { 0nat },
        digit_count(t.push(c)) == digit_count(t) + if is_ascii_digit(c) { 1nat } else { 0nat },
{
    assert(t.push(c).drop_last() =~= t);
}

/// Whether `f32::from_str` accepts `t` (for texts of signs, dots and digits).
pub fn is_float_literal(t: &Vec<char>) -> (r: bool)
    ensures
        r == float_literal(t@),
{
    let start: usize = if t.len() > 0 && (t[0] == '+' || t[0] == '-') { 1 } else { 0 };
    let ghost b = unsigned_part(t@);
    assert(b =~= t@.subrange(start as int, t@.len() as int));
    let mut dots: usize = 0;
    let mut digits: usize = 0;
    let mut i: usize = start;
    while i < t.len()
        invariant
            start <= i <= t.len(),
            b =~= t@.subrange(start as int, t@.len() as int),
            b == unsigned_part(t@),
            forall|j: int| start <= j < i ==> (is_ascii_digit(#[trigger] t@[j]) || t@[j] == '.'),
            dots as nat == dot_count(t@.subrange(start as int, i as int)),
            digits as nat == digit_count(t@.subrange(start as int, i as int)),
            dots <= 1,
            digits <= i,
        decreases t.len() - i,
    {
        let c = t[i];
        proof {
            lemma_counts_push(t@.subrange(start as int, i as int), c);
            assert(t@.subrange(start as int, i + 1) =~= t@.subrange(start as int, i as int).push(c));
        }
        if c == '.' {
            if dots == 1 {
                proof {
                    assert(b.subrange(0, (i + 1 - start) as int) =~= t@.subrange(start as int, i + 1));
                    lemma_dot_count_prefix(b, (i + 1 - start) as int);
                    assert(dot_count(b) >= 2);
                }
                return false;
            }
            dots = dots + 1;
        } else if '0' <= c && c <= '9' {
            digits = digits + 1;
        } else {
            assert(b[i - start] == c);
            assert(!(is_ascii_digit(b[i - start]) || b[i - start] == '.'));
            assert(!float_literal(t@));
            return false;
        }
        i = i + 1;
    }
    assert(t@.subrange(start as int, t@.len() as int) =~= b);
    digits >= 1
}

/// Dots in a prefix never outnumber dots in the whole.
pub proof fn lemma_dot_count_prefix(t: Seq<char>, n: int)
    requires
        0 <= n <= t.len(),
    ensures
        dot_count(t.subrange(0, n)) <= dot_count(t),
    decreases t.len() - n,
{
    if n < t.len() {
        lemma_dot_count_prefix(t, n + 1);
        assert(t.subrange(0, n + 1) =~= t.subrange(0, n).push(t[n]));
        lemma_counts_push(t.subrange(0, n), t[n]);
    } else {
        assert(t.subrange(0, n) =~= t);
    }
}

proof fn lemma_decimal_digits(n: nat)
    ensures
        decimal(n).len() > 0,
        all_digits(decimal(n)),
        digits_value(decimal(n)) == n,
    decreases n,
{
    let d = n % 10;
    assert((('0' as u32 + d) as char) as u32 == '0' as u32 + d) by {
        assert(d < 10);
    }
    assert(is_ascii_digit(digit_char(d)));
    if n >= 10 {
        lemma_decimal_digits(n / 10);
        let s = decimal(n);
        assert(s == decimal(n / 10).push(digit_char(d)));
        assert(s.drop_last() =~= decimal(n / 10));
        assert forall|i: int| 0 <= i < s.len() implies #[trigger] is_ascii_digit(s[i]) by {
            if i < s.len() - 1 {
                assert(s[i] == decimal(n / 10)[i]);
            }
        }
        assert(s.last() == digit_char(d));
        assert(digits_value(s) == 10 * digits_value(s.drop_last()) + ((s.last() as u32) - (
            '0' as u32)) as nat);
        assert(10 * (n / 10) + d == n);
    } else {
        let s = decimal(n);
        assert(s.drop_last() =~= Seq::<char>::empty());
        assert(digits_value(Seq::<char>::empty()) == 0);
        assert(s.last() == digit_char(d));
        assert(d == n);
        assert(digits_value(s) == 10 * digits_value(s.drop_last()) + ((s.last() as u32) - (
            '0' as u32)) as nat);
    }
}

/// Reading back the decimal digits that an unsigned number is written with
/// gives the number: `u32::from_str` of `n`'s text is `n`, for every `n`.
pub proof fn law_decimal_reads_back(n: u32)
    ensures
        u32_literal(decimal(n as nat)) == Some(n),
{
    lemma_decimal_digits(n as nat);
    let t = decimal(n as nat);
    assert(is_ascii_digit(t[0]));
    assert(plus_stripped(t) == t);
}

} // verus!
