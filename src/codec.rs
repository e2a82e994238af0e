//! The framing of message bodies. A body is a run of fields: an integer field is the eight
//! lower-case hexadecimal digits of its 32 bits, most significant first; a text field is the
//! integer field of its length in characters followed by its characters.
use crate::text::push_char;
use std::ops::Deref;
use vstd::prelude::*;
use vstd::string::*;

verus! {

/// Digit of a value below sixteen.
pub open spec fn hex_digit(n: u32) -> char {
    if n == 0 { '0' }
    else if n == 1 { '1' }
    else if n == 2 { '2' }
    else if n == 3 { '3' }
    else if n == 4 { '4' }
    else if n == 5 { '5' }
    else if n == 6 { '6' }
    else if n == 7 { '7' }
    else if n == 8 { '8' }
    else if n == 9 { '9' }
    else if n == 10 { 'a' }
    else if n == 11 { 'b' }
    else if n == 12 { 'c' }
    else if n == 13 { 'd' }
    else if n == 14 { 'e' }
    else { 'f' }
}

/// Value of a digit, if the character is one.
pub open spec fn hex_value(c: char) -> Option<u32> {
    if c == '0' { Some(0u32) }
    else if c == '1' { Some(1u32) }
    else if c == '2' { Some(2u32) }
    else if c == '3' { Some(3u32) }
    else if c == '4' { Some(4u32) }
    else if c == '5' { Some(5u32) }
    else if c == '6' { Some(6u32) }
    else if c == '7' { Some(7u32) }
    else if c == '8' { Some(8u32) }
    else if c == '9' { Some(9u32) }
    else if c == 'a' { Some(10u32) }
    else if c == 'b' { Some(11u32) }
    else if c == 'c' { Some(12u32) }
    else if c == 'd' { Some(13u32) }
    else if c == 'e' { Some(14u32) }
    else if c == 'f' { Some(15u32) }
    else { None }
}

/// The eight digits of a 32-bit value.
pub open spec fn hex8(x: u32) -> Seq<char> {
    seq![
        hex_digit((x >> 28u32) & 15u32),
        hex_digit((x >> 24u32) & 15u32),
        hex_digit((x >> 20u32) & 15u32),
        hex_digit((x >> 16u32) & 15u32),
        hex_digit((x >> 12u32) & 15u32),
        hex_digit((x >> 8u32) & 15u32),
        hex_digit((x >> 4u32) & 15u32),
        hex_digit(x & 15u32),
    ]
}

/// The 32-bit value whose digits start at position `p`, if eight digits stand there.
pub open spec fn read_u32(s: Seq<char>, p: int) -> Option<u32> {
    if 0 <= p && p + 8 <= s.len() && hex_value(s[p]) is Some && hex_value(s[p + 1]) is Some
        && hex_value(s[p + 2]) is Some && hex_value(s[p + 3]) is Some && hex_value(
        s[p + 4],
    ) is Some && hex_value(s[p + 5]) is Some && hex_value(s[p + 6]) is Some && hex_value(
        s[p + 7],
    ) is Some {
        Some(
            (hex_value(s[p])->Some_0 << 28u32) | (hex_value(s[p + 1])->Some_0 << 24u32) | (
            hex_value(s[p + 2])->Some_0 << 20u32) | (hex_value(s[p + 3])->Some_0 << 16u32) | (
            hex_value(s[p + 4])->Some_0 << 12u32) | (hex_value(s[p + 5])->Some_0 << 8u32) | (
            hex_value(s[p + 6])->Some_0 << 4u32) | hex_value(s[p + 7])->Some_0,
        )
    } else {
        None
    }
}

/// The field that holds an integer.
pub open spec fn int_field(v: i32) -> Seq<char> {
    hex8(v as u32)
}

/// The field that holds a text.
pub open spec fn text_field(t: Seq<char>) -> Seq<char> {
    hex8(t.len() as u32) + t
}

/// The field that holds a 64-bit value: its upper half, then its lower half.
pub open spec fn u64_field(x: u64) -> Seq<char> {
    hex8((x >> 32u64) as u32) + hex8(x as u32)
}

/// The 64-bit field at position `p` and the position after it.
pub open spec fn read_u64(s: Seq<char>, p: int) -> Option<(u64, int)> {
    match (read_u32(s, p), read_u32(s, p + 8)) {
        (Some(hi), Some(lo)) => Some((((hi as u64) << 32u64) | (lo as u64), p + 16)),
        _ => None,
    }
}

/// The integer field at position `p` and the position after it.
pub open spec fn read_int(s: Seq<char>, p: int) -> Option<(i32, int)> {
    match read_u32(s, p) {
        Some(x) => Some((x as i32, p + 8)),
        None => None,
    }
}

/// The text field at position `p` and the position after it.
pub open spec fn read_text(s: Seq<char>, p: int) -> Option<(Seq<char>, int)> {
    match read_u32(s, p) {
        Some(n) => if p + 8 + n <= s.len() {
            Some((s.subrange(p + 8, p + 8 + n), p + 8 + n))
        } else {
            None
        },
        None => None,
    }
}

proof fn lemma_nibbles(x: u32)
    ensures
        ((((x >> 28u32) & 15u32) << 28u32) | (((x >> 24u32) & 15u32) << 24u32) | (((x
            >> 20u32) & 15u32) << 20u32) | (((x >> 16u32) & 15u32) << 16u32) | (((x >> 12u32)
            & 15u32) << 12u32) | (((x >> 8u32) & 15u32) << 8u32) | (((x >> 4u32) & 15u32)
            << 4u32) | (x & 15u32)) == x,
        (x >> 28u32) & 15u32 < 16,
        (x >> 24u32) & 15u32 < 16,
        (x >> 20u32) & 15u32 < 16,
        (x >> 16u32) & 15u32 < 16,
        (x >> 12u32) & 15u32 < 16,
        (x >> 8u32) & 15u32 < 16,
        (x >> 4u32) & 15u32 < 16,
        x & 15u32 < 16,
{
    assert(((((x >> 28u32) & 15u32) << 28u32) | (((x >> 24u32) & 15u32) << 24u32) | (((x
        >> 20u32) & 15u32) << 20u32) | (((x >> 16u32) & 15u32) << 16u32) | (((x >> 12u32)
        & 15u32) << 12u32) | (((x >> 8u32) & 15u32) << 8u32) | (((x >> 4u32) & 15u32)
        << 4u32) | (x & 15u32)) == x) by (bit_vector);
    assert((x >> 28u32) & 15u32 < 16) by (bit_vector);
    assert((x >> 24u32) & 15u32 < 16) by (bit_vector);
    assert((x >> 20u32) & 15u32 < 16) by (bit_vector);
    assert((x >> 16u32) & 15u32 < 16) by (bit_vector);
    assert((x >> 12u32) & 15u32 < 16) by (bit_vector);
    assert((x >> 8u32) & 15u32 < 16) by (bit_vector);
    assert((x >> 4u32) & 15u32 < 16) by (bit_vector);
    assert(x & 15u32 < 16) by (bit_vector);
}

proof fn lemma_int_bits(v: i32)
    ensures
        ((v as u32) as i32) == v,
{
    assert(((v as u32) as i32) == v) by (bit_vector);
}

/// Eight digits written at `p` read back as the value they were written from.
pub proof fn lemma_read_u32(s: Seq<char>, p: int, x: u32)
    requires
        0 <= p,
        p + 8 <= s.len(),
        s.subrange(p, p + 8) == hex8(x),
    ensures
        read_u32(s, p) == Some(x),
{
    lemma_nibbles(x);
    assert(s[p] == s.subrange(p, p + 8)[0]);
    assert(s[p + 1] == s.subrange(p, p + 8)[1]);
    assert(s[p + 2] == s.subrange(p, p + 8)[2]);
    assert(s[p + 3] == s.subrange(p, p + 8)[3]);
    assert(s[p + 4] == s.subrange(p, p + 8)[4]);
    assert(s[p + 5] == s.subrange(p, p + 8)[5]);
    assert(s[p + 6] == s.subrange(p, p + 8)[6]);
    assert(s[p + 7] == s.subrange(p, p + 8)[7]);
}

/// An integer field written at `p` reads back as its integer.
pub proof fn lemma_read_int(s: Seq<char>, p: int, v: i32)
    requires
        0 <= p,
        p + 8 <= s.len(),
        s.subrange(p, p + 8) == int_field(v),
    ensures
        read_int(s, p) == Some((v, p + 8)),
{
    lemma_read_u32(s, p, v as u32);
    lemma_int_bits(v);
}

/// A 64-bit field written at `p` reads back as its value.
pub proof fn lemma_read_u64(s: Seq<char>, p: int, x: u64)
    requires
        0 <= p,
        p + 16 <= s.len(),
        s.subrange(p, p + 16) == u64_field(x),
    ensures
        read_u64(s, p) == Some((x, p + 16)),
{
    assert(s.subrange(p, p + 8) =~= s.subrange(p, p + 16).subrange(0, 8));
    assert(u64_field(x).subrange(0, 8) =~= hex8((x >> 32u64) as u32));
    assert(s.subrange(p + 8, p + 16) =~= s.subrange(p, p + 16).subrange(8, 16));
    assert(u64_field(x).subrange(8, 16) =~= hex8(x as u32));
    lemma_read_u32(s, p, (x >> 32u64) as u32);
    lemma_read_u32(s, p + 8, x as u32);
    assert(((((x >> 32u64) as u32) as u64) << 32u64) | ((x as u32) as u64) == x) by (bit_vector);
}

/// A text field written at `p` reads back as its text.
pub proof fn lemma_read_text(s: Seq<char>, p: int, t: Seq<char>)
    requires
        0 <= p,
        t.len() <= u32::MAX,
        p + 8 + t.len() <= s.len(),
        s.subrange(p, p + 8 + t.len()) == text_field(t),
    ensures
        read_text(s, p) == Some((t, p + 8 + t.len())),
{
    let n = t.len() as u32;
    assert(s.subrange(p, p + 8) =~= s.subrange(p, p + 8 + t.len()).subrange(0, 8));
    assert(text_field(t).subrange(0, 8) =~= hex8(n));
    lemma_read_u32(s, p, n);
    assert(s.subrange(p + 8, p + 8 + t.len()) =~= s.subrange(p, p + 8 + t.len()).subrange(
        8,
        8 + t.len() as int,
    ));
    assert(text_field(t).subrange(8, 8 + t.len() as int) =~= t);
}

fn digit_char(n: u32) -> (c: char)
    requires
        n < 16,
    ensures
        c == hex_digit(n),
{
    if n == 0 { '0' }
    else if n == 1 { '1' }
    else if n == 2 { '2' }
    else if n == 3 { '3' }
    else if n == 4 { '4' }
    else if n == 5 { '5' }
    else if n == 6 { '6' }
    else if n == 7 { '7' }
    else if n == 8 { '8' }
    else if n == 9 { '9' }
    else if n == 10 { 'a' }
    else if n == 11 { 'b' }
    else if n == 12 { 'c' }
    else if n == 13 { 'd' }
    else if n == 14 { 'e' }
    else { 'f' }
}

fn digit_value(c: char) -> (r: Option<u32>)
    ensures
        r == hex_value(c),
{
    if c == '0' { Some(0) }
    else if c == '1' { Some(1) }
    else if c == '2' { Some(2) }
    else if c == '3' { Some(3) }
    else if c == '4' { Some(4) }
    else if c == '5' { Some(5) }
    else if c == '6' { Some(6) }
    else if c == '7' { Some(7) }
    else if c == '8' { Some(8) }
    else if c == '9' { Some(9) }
    else if c == 'a' { Some(10) }
    else if c == 'b' { Some(11) }
    else if c == 'c' { Some(12) }
    else if c == 'd' { Some(13) }
    else if c == 'e' { Some(14) }
    else if c == 'f' { Some(15) }
    else { None }
}

/// Appends the eight digits of `x`.
pub fn push_u32(s: &mut String, x: u32)
    ensures
        final(s)@ == old(s)@ + hex8(x),
{
    proof {
        lemma_nibbles(x);
    }
    push_char(s, digit_char((x >> 28) & 15));
    push_char(s, digit_char((x >> 24) & 15));
    push_char(s, digit_char((x >> 20) & 15));
    push_char(s, digit_char((x >> 16) & 15));
    push_char(s, digit_char((x >> 12) & 15));
    push_char(s, digit_char((x >> 8) & 15));
    push_char(s, digit_char((x >> 4) & 15));
    push_char(s, digit_char(x & 15));
    assert(s@ =~= old(s)@ + hex8(x));
}

/// Appends the field of an integer.
pub fn push_int(s: &mut String, v: i32)
    ensures
        final(s)@ == old(s)@ + int_field(v),
{
    push_u32(s, #[verifier::truncate] (v as u32));
}

/// Appends the field of a 64-bit value.
pub fn push_u64(s: &mut String, x: u64)
    ensures
        final(s)@ == old(s)@ + u64_field(x),
{
    push_u32(s, #[verifier::truncate] ((x >> 32) as u32));
    push_u32(s, #[verifier::truncate] (x as u32));
    assert(s@ =~= old(s)@ + u64_field(x));
}

/// Appends the field of a text.
pub fn push_text(s: &mut String, t: &str)
    requires
        t@.len() <= u32::MAX,
    ensures
        final(s)@ == old(s)@ + text_field(t@),
{
    let n = t.unicode_len();
    push_u32(s, n as u32);
    let ghost start = s@;
    let mut i: usize = 0;
    while i < n
        invariant
            n == t@.len(),
            i <= n,
            s@ == start + t@.subrange(0, i as int),
        decreases n - i,
    {
        push_char(s, t.get_char(i));
        i = i + 1;
        assert(s@ =~= start + t@.subrange(0, i as int));
    }
    assert(t@.subrange(0, n as int) =~= t@);
    assert(s@ =~= old(s)@ + text_field(t@));
}

/// The characters of a text, one per element.
pub fn chars_of(t: &str) -> (v: Vec<char>)
    ensures
        v@ == t@,
{
    let n = t.unicode_len();
    let mut v: Vec<char> = Vec::new();
    let mut i: usize = 0;
    while i < n
        invariant
            n == t@.len(),
            i <= n,
            v@ == t@.subrange(0, i as int),
        decreases n - i,
    {
        v.push(t.get_char(i));
        i = i + 1;
        assert(v@ =~= t@.subrange(0, i as int));
    }
    assert(t@.subrange(0, n as int) =~= t@);
    v
}

/// The 32-bit value at position `p`, if eight digits stand there.
fn read_u32_at(s: &Vec<char>, p: usize) -> (r: Option<u32>)
    ensures
        r == read_u32(s@, p as int),
{
    if p > s.len() || s.len() - p < 8 {
        return None;
    }
    let d0 = digit_value(s[p]);
    let d1 = digit_value(s[p + 1]);
    let d2 = digit_value(s[p + 2]);
    let d3 = digit_value(s[p + 3]);
    let d4 = digit_value(s[p + 4]);
    let d5 = digit_value(s[p + 5]);
    let d6 = digit_value(s[p + 6]);
    let d7 = digit_value(s[p + 7]);
    match (d0, d1, d2, d3, d4, d5, d6, d7) {
        (Some(a), Some(b), Some(c), Some(d), Some(e), Some(f), Some(g), Some(h)) => {
            Some((a << 28) | (b << 24) | (c << 20) | (d << 16) | (e << 12) | (f << 8) | (g << 4)
                | h)
        },
        _ => None,
    }
}

/// The integer field at position `p` and the position after it.
pub fn read_int_at(s: &Vec<char>, p: usize) -> (r: Option<(i32, usize)>)
    ensures
        r is Some <==> read_int(s@, p as int) is Some,
        r matches Some((v, q)) ==> read_int(s@, p as int) == Some((v, q as int)),
{
    match read_u32_at(s, p) {
        Some(x) => {
            let n = s.len();
            assert(p + 8 <= n);
            Some((#[verifier::truncate] (x as i32), p + 8))
        },
        None => None,
    }
}

/// The 64-bit field at position `p` and the position after it.
pub fn read_u64_at(s: &Vec<char>, p: usize) -> (r: Option<(u64, usize)>)
    ensures
        r is Some <==> read_u64(s@, p as int) is Some,
        r matches Some((v, q)) ==> read_u64(s@, p as int) == Some((v, q as int)),
{
    let hi = read_u32_at(s, p);
    if hi.is_none() {
        return None;
    }
    let n = s.len();
    assert(p + 8 <= n);
    let lo = read_u32_at(s, p + 8);
    match (hi, lo) {
        (Some(h), Some(l)) => {
            assert(p + 16 <= n);
            Some((((h as u64) << 32) | (l as u64), p + 16))
        },
        _ => None,
    }
}

/// The text field at position `p` and the position after it.
pub fn read_text_at(s: &Vec<char>, p: usize) -> (r: Option<(String, usize)>)
    ensures
        r is Some <==> read_text(s@, p as int) is Some,
        r matches Some((t, q)) ==> read_text(s@, p as int) == Some((t@, q as int)),
{
    match read_u32_at(s, p) {
        Some(n) => {
            let len = s.len();
            assert(p + 8 <= len);
            let start = p + 8;
            if (n as usize) > s.len() - start {
                return None;
            }
            let end = start + n as usize;
            let mut t = String::new();
            let mut i = start;
            while i < end
                invariant
                    start <= i <= end,
                    end <= s@.len(),
                    t@ == s@.subrange(start as int, i as int),
                decreases end - i,
            {
                push_char(&mut t, s[i]);
                i = i + 1;
                assert(t@ =~= s@.subrange(start as int, i as int));
            }
            Some((t, end))
        },
        None => None,
    }
}

/// The characters of a string.
pub fn string_chars(s: &String) -> (v: Vec<char>)
    ensures
        v@ == s@,
{
    chars_of(s.deref())
}

} // verus!
