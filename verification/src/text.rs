//! Text helpers shared by the compiler front end and the value model:
//! C-string admissibility, decimal rendering, UTF-8 decoding and joining.

use vstd::prelude::*;
use vstd::utf8::{decode_utf8, encode_scalar, encode_utf8, valid_utf8};

verus! {

/// No byte of `bytes` is NUL, so the bytes can travel as a C string.
pub open spec fn nul_free(bytes: Seq<u8>) -> bool {
    forall|i: int| 0 <= i < bytes.len() ==> bytes[i] != 0
}

/// No character of `s` is NUL.
pub open spec fn no_nul_char(s: Seq<char>) -> bool {
    forall|i: int| 0 <= i < s.len() ==> s[i] != '\0'
}

/// The UTF-8 encoding of a character holds a NUL byte only when the
/// character is NUL.
proof fn scalar_nul_free(c: char)
    ensures
        nul_free(encode_scalar(c as u32)) <==> c != '\0',
{
    let v = c as u32;
    let b = encode_scalar(v);
    if v <= 0x7F {
        assert(((v & 0x7F) as u8 == 0) <==> v == 0) by (bit_vector)
            requires
                v <= 0x7F,
        ;
        assert(b[0] == (v & 0x7F) as u8);
    } else {
        assert forall|x: u8| (0x80u8 | x) != 0 by {
            assert((0x80u8 | x) != 0) by (bit_vector);
        }
        assert forall|x: u8| (0xC0u8 | x) != 0 by {
            assert((0xC0u8 | x) != 0) by (bit_vector);
        }
        assert forall|x: u8| (0xE0u8 | x) != 0 by {
            assert((0xE0u8 | x) != 0) by (bit_vector);
        }
        assert forall|x: u8| (0xF0u8 | x) != 0 by {
            assert((0xF0u8 | x) != 0) by (bit_vector);
        }
        assert(v != 0);
    }
}

/// The UTF-8 encoding of a text holds a NUL byte exactly when the text holds
/// a NUL character.
pub proof fn encoding_nul_free(chars: Seq<char>)
    ensures
        nul_free(encode_utf8(chars)) <==> no_nul_char(chars),
    decreases chars.len(),
{
    if chars.len() > 0 {
        encoding_nul_free(chars.drop_first());
        scalar_nul_free(chars[0]);
        let head = encode_scalar(chars[0] as u32);
        let tail = encode_utf8(chars.drop_first());
        assert(encode_utf8(chars) == head + tail);
        if no_nul_char(chars) {
            assert(no_nul_char(chars.drop_first()));
            assert forall|i: int| 0 <= i < (head + tail).len() implies (head + tail)[i] != 0 by {
                if i < head.len() {
                    assert((head + tail)[i] == head[i]);
                } else {
                    assert((head + tail)[i] == tail[i - head.len()]);
                }
            }
        } else {
            let k = choose|k: int| 0 <= k < chars.len() && chars[k] == '\0';
            if k == 0 {
                let j = choose|j: int| 0 <= j < head.len() && head[j] == 0;
                assert((head + tail)[j] == 0);
            } else {
                assert(chars.drop_first()[k - 1] == '\0');
                let j = choose|j: int| 0 <= j < tail.len() && tail[j] == 0;
                assert((head + tail)[head.len() + j] == 0);
            }
        }
    }
}

/// `pos` is the index of the first NUL byte of `bytes`.
pub open spec fn is_first_nul(bytes: Seq<u8>, pos: int) -> bool {
    &&& 0 <= pos < bytes.len()
    &&& bytes[pos] == 0
    &&& nul_free(bytes.take(pos))
}

/// Finds the first NUL byte, the byte at which a C string would be cut short.
pub fn nul_position(bytes: &[u8]) -> (r: Option<usize>)
    ensures
        r is None <==> nul_free(bytes@),
        r matches Some(p) ==> is_first_nul(bytes@, p as int),
{
    let mut i: usize = 0;
    while i < bytes.len()
        invariant
            i <= bytes@.len(),
            nul_free(bytes@.take(i as int)),
        decreases bytes@.len() - i,
    {
        if bytes[i] == 0 {
            return Some(i);
        }
        assert(bytes@.take(i as int + 1) =~= bytes@.take(i as int).push(bytes@[i as int]));
        i = i + 1;
    }
    assert(bytes@.take(i as int) =~= bytes@);
    None
}

/// The character of a decimal digit.
pub open spec fn digit_char(d: nat) -> char {
    (48 + d) as char
}

/// The decimal representation of `n`, without sign or leading zeros.
pub open spec fn decimal(n: nat) -> Seq<char>
    decreases n,
{
    if n < 10 {
        seq![digit_char(n)]
    } else {
        decimal(n / 10).push(digit_char(n % 10))
    }
}

/// Appends one character to a `String` (`String::push`).
#[verifier::external_body]
fn push_char(s: &mut String, c: char)
    ensures
        final(s)@ == old(s)@.push(c),
{
    s.push(c)
}

/// Appends a string slice to a `String` (`String::push_str`).
#[verifier::external_body]
pub(crate) fn push_text(s: &mut String, t: &str)
    ensures
        final(s)@ == old(s)@ + t@,
{
    s.push_str(t)
}

/// Appends the decimal representation of `n` to `s`.
pub fn push_decimal(s: &mut String, n: u64)
    ensures
        final(s)@ == old(s)@ + decimal(n as nat),
    decreases n,
{
    if n >= 10 {
        push_decimal(s, n / 10);
    }
    let d: u64 = n % 10;
    let c: char = ((48u8 + (d as u8)) as char);
    assert(c == digit_char((n % 10) as nat));
    push_char(s, c);
    assert(s@ =~= old(s)@ + decimal(n as nat));
}

/// The decimal representation of `n` as a new `String`.
pub fn decimal_text(n: u64) -> (s: String)
    ensures
        s@ == decimal(n as nat),
{
    let mut s = String::new();
    push_decimal(&mut s, n);
    assert(s@ =~= decimal(n as nat));
    s
}

/// What `String::from_utf8_lossy` makes of a byte sequence: every maximal
/// invalid subsequence replaced by U+FFFD.
pub uninterp spec fn lossy_utf8(bytes: Seq<u8>) -> Seq<char>;

/// Decodes bytes as UTF-8 with `String::from_utf8_lossy`.
/// Claims that the result is a function of the bytes alone and, as the
/// documentation of `from_utf8_lossy` says, that valid UTF-8 is decoded
/// unchanged. What replaces each invalid sequence is left unsaid.
#[verifier::external_body]
fn from_utf8_lossy(bytes: &[u8]) -> (s: String)
    ensures
        s@ == lossy_utf8(bytes@),
        valid_utf8(bytes@) ==> s@ == decode_utf8(bytes@),
{
    String::from_utf8_lossy(bytes).into_owned()
}

/// Decodes bytes with `String::from_utf8`: the bytes are accepted exactly
/// when they are valid UTF-8, and then decode to their characters.
#[verifier::external_body]
fn from_utf8(bytes: Vec<u8>) -> (r: Option<String>)
    ensures
        r is Some <==> valid_utf8(bytes@),
        r matches Some(s) ==> s@ == decode_utf8(bytes@),
{
    String::from_utf8(bytes).ok()
}

/// Turns the bytes of a C string coming back from libsass into a `String`,
/// replacing invalid UTF-8 with U+FFFD.
pub fn to_string(c_buf: &[u8]) -> (s: String)
    ensures
        s@ == lossy_utf8(c_buf@),
        valid_utf8(c_buf@) ==> s@ == decode_utf8(c_buf@),
{
    from_utf8_lossy(c_buf)
}

/// Turns the bytes of a C string coming back from libsass into a `String`;
/// the bytes must be valid UTF-8.
pub fn build_string(c_buf: &[u8]) -> (s: String)
    requires
        valid_utf8(c_buf@),
    ensures
        s@ == decode_utf8(c_buf@),
{
    let bytes = vstd::slice::slice_to_vec(c_buf);
    match from_utf8(bytes) {
        Some(s) => s,
        None => String::new(),
    }
}

/// `parts` joined with `sep` between each two neighbours.
pub open spec fn joined(parts: Seq<Seq<char>>, sep: char) -> Seq<char>
    decreases parts.len(),
{
    if parts.len() == 0 {
        seq![]
    } else if parts.len() == 1 {
        parts[0]
    } else {
        joined(parts.drop_last(), sep).push(sep) + parts.last()
    }
}

/// Joining no parts gives the empty text, and one part gives that part.
pub proof fn joined_of_few(part: Seq<char>, sep: char)
    ensures
        joined(Seq::<Seq<char>>::empty(), sep) == Seq::<char>::empty(),
        joined(seq![part], sep) == part,
{
}

/// Cut anywhere between two parts, the joined text is the joined text of
/// the parts before the cut, one separator, and the joined text of the
/// parts after it: every part is kept, in order, with exactly one separator
/// between each two neighbours.
pub proof fn joined_splits(parts: Seq<Seq<char>>, sep: char, k: int)
    requires
        0 < k < parts.len(),
    ensures
        joined(parts, sep) == joined(parts.take(k), sep).push(sep) + joined(parts.skip(k), sep),
    decreases parts.len(),
{
    let n = parts.len() as int;
    let front = parts.drop_last();
    if k == n - 1 {
        assert(parts.take(k) =~= front);
        assert(parts.skip(k) =~= seq![parts.last()]);
    } else {
        joined_splits(front, sep, k);
        assert(front.take(k) =~= parts.take(k));
        assert(parts.skip(k).drop_last() =~= front.skip(k));
        assert(parts.skip(k).last() == parts.last());
        assert(joined(parts.skip(k), sep) == joined(front.skip(k), sep).push(sep) + parts.last());
        let a = joined(parts.take(k), sep);
        let b = joined(front.skip(k), sep);
        assert((a.push(sep) + b).push(sep) + parts.last() =~= a.push(sep) + (b.push(sep)
            + parts.last()));
    }
}

/// The joined text is as long as all parts together plus one separator
/// between each two neighbours.
pub proof fn joined_len(parts: Seq<Seq<char>>, sep: char)
    requires
        parts.len() > 0,
    ensures
        joined(parts, sep).len() == total_len(parts) + parts.len() - 1,
    decreases parts.len(),
{
    if parts.len() > 1 {
        joined_len(parts.drop_last(), sep);
    } else {
        assert(total_len(parts.drop_last()) == 0);
        assert(parts.last() == parts[0]);
    }
}

/// The lengths of all texts together.
pub open spec fn total_len(parts: Seq<Seq<char>>) -> int
    decreases parts.len(),
{
    if parts.len() == 0 {
        0
    } else {
        total_len(parts.drop_last()) + parts.last().len()
    }
}

/// The views of a list of strings.
pub open spec fn views(list: Seq<String>) -> Seq<Seq<char>> {
    list.map_values(|s: String| s@)
}

/// Joins strings with a separator character, as libsass expects a list of
/// include paths in a single string.
pub fn join_with(parts: &Vec<String>, sep: char) -> (s: String)
    ensures
        s@ == joined(views(parts@), sep),
{
    let mut s = String::new();
    let mut i: usize = 0;
    while i < parts.len()
        invariant
            i <= parts@.len(),
            s@ == joined(views(parts@.take(i as int)), sep),
        decreases parts@.len() - i,
    {
        assert(views(parts@.take(i as int + 1)).drop_last() =~= views(parts@.take(i as int)));
        if i > 0 {
            push_char(&mut s, sep);
        }
        push_text(&mut s, parts[i].as_str());
        assert(views(parts@.take(i as int + 1)).last() == parts@[i as int]@);
        if i == 0 {
            assert(s@ =~= joined(views(parts@.take(1)), sep));
        } else {
            assert(s@ =~= joined(views(parts@.take(i as int + 1)), sep));
        }
        i = i + 1;
    }
    assert(parts@.take(i as int) =~= parts@);
    s
}

} // verus!
