//! Strings as the wire carries them: UTF-16 code units, ended by a 0 unit or padded
//! with 0 units to a fixed length.
use vstd::prelude::*;

use crate::bytes::{push_u16s, u16s_bytes};

verus! {

/// The UTF-16 code units of a character: itself below 0x10000, else a surrogate pair.
pub open spec fn utf16_of_char(c: char) -> Seq<u16> {
    let v = c as int;
    if v < 0x10000 {
        seq![v as u16]
    } else {
        let w = v - 0x10000;
        seq![(0xD800 + w / 1024) as u16, (0xDC00 + w % 1024) as u16]
    }
}

/// The UTF-16 code units of a string.
pub open spec fn utf16(s: Seq<char>) -> Seq<u16>
    decreases s.len(),
{
    if s.len() == 0 {
        Seq::empty()
    } else {
        utf16(s.drop_last()) + utf16_of_char(s.last())
    }
}

/// The UTF-16 code units of a string.
pub fn encode_utf16(s: &str) -> (r: Vec<u16>)
    ensures
        r@ == utf16(s@),
{
    let mut out: Vec<u16> = Vec::new();
    let mut k: usize = 0;
    let n = s.unicode_len();
    while k < n
        invariant
            k <= n,
            n == s@.len(),
            out@ == utf16(s@.take(k as int)),
        decreases n - k,
    {
        assert(s@.take(k + 1).drop_last() =~= s@.take(k as int));
        let c = s.get_char(k);
        let v = c as u32;
        if v < 0x10000 {
            out.push(v as u16);
        } else {
            let w = v - 0x10000;
            out.push((0xD800 + w / 1024) as u16);
            out.push((0xDC00 + w % 1024) as u16);
        }
        k = k + 1;
        assert(out@ =~= utf16(s@.take(k as int)));
    }
    assert(s@.take(n as int) =~= s@);
    out
}

/// The UTF-16 code units of a string followed by a 0 unit, with no length limit.
pub fn cast_to_c_array(message: &str) -> (r: Vec<u16>)
    ensures
        r@ == utf16(message@).push(0),
{
    let mut v = encode_utf16(message);
    v.push(0);
    v
}

/// The UTF-16 code units of a string, padded with 0 units to `N` (the string's units
/// must fit).
pub fn cast_to_fix_length_array<const N: usize>(message: &str) -> (r: [u16; N])
    requires
        utf16(message@).len() <= N,
    ensures
        r@ == utf16(message@) + Seq::new((N - utf16(message@).len()) as nat, |i: int| 0u16),
{
    let units = encode_utf16(message);
    let mut data: [u16; N] = [0u16; N];
    let mut i: usize = 0;
    assert(data@ =~= Seq::new(N as nat, |j: int| 0u16));
    while i < units.len()
        invariant
            i <= units@.len(),
            units@.len() <= N,
            data@.len() == N,
            forall|j: int| 0 <= j < i ==> data@[j] == units@[j],
            forall|j: int| i <= j < N ==> data@[j] == 0,
        decreases units@.len() - i,
    {
        data[i] = units[i];
        i = i + 1;
    }
    assert(data@ =~= units@ + Seq::new((N - units@.len()) as nat, |j: int| 0u16));
    data
}

/// The string that `encoding_rs::UTF_16LE` decodes the bytes to, and whether decoding
/// met malformed input.
pub uninterp spec fn utf16le_decode(bytes: Seq<u8>) -> (Seq<char>, bool);

/// `encoding_rs::UTF_16LE.decode`: the decoded string and whether malformed input was
/// met (replaced in the string). Its result is named, not stated: the decoder also
/// honours a byte order mark at the start.
#[verifier::external_body]
fn decode_utf16le(bytes: &[u8]) -> (r: (String, bool))
    ensures
        (r.0@, r.1) == utf16le_decode(bytes@),
{
    let (text, _, had_errors) = encoding_rs::UTF_16LE.decode(bytes);
    (text.into_owned(), had_errors)
}

/// The index of the first 0 unit, if any.
pub open spec fn first_zero(units: Seq<u16>) -> Option<int>
    decreases units.len(),
{
    if units.len() == 0 {
        None
    } else if units[0] == 0 {
        Some(0)
    } else {
        match first_zero(units.drop_first()) {
            Some(i) => Some(i + 1),
            None => None,
        }
    }
}

proof fn lemma_first_zero(units: Seq<u16>)
    ensures
        first_zero(units) matches Some(k) ==> 0 <= k < units.len() && units[k] == 0 && forall|
            j: int,
        | 0 <= j < k ==> units[j] != 0,
        first_zero(units) is None ==> forall|j: int| 0 <= j < units.len() ==> units[j] != 0,
    decreases units.len(),
{
    if units.len() > 0 && units[0] != 0 {
        lemma_first_zero(units.drop_first());
        assert forall|j: int| 0 < j < units.len() implies units[j] == units.drop_first()[j - 1] by {}
    }
}

/// The text of a decoded string: none when decoding met malformed input.
pub fn text_of_decoded(decoded: (String, bool)) -> (r: Option<String>)
    ensures
        decoded.1 ==> r is None,
        !decoded.1 ==> (r matches Some(s) && s@ == decoded.0@),
{
    if decoded.1 {
        None
    } else {
        Some(decoded.0)
    }
}

/// The string that the units up to the first 0 unit spell, read as UTF-16 (little
/// endian bytes): none when there is no 0 unit or the units are malformed.
pub open spec fn c_string_text(units: Seq<u16>) -> Option<Seq<char>> {
    match first_zero(units) {
        None => None,
        Some(k) => {
            let (text, bad) = utf16le_decode(u16s_bytes(units.take(k)));
            if bad {
                None
            } else {
                Some(text)
            }
        },
    }
}

/// The string that the units up to the first 0 unit spell; `None` when there is no 0
/// unit or the units are malformed.
pub fn cast_to_string(array: &[u16]) -> (r: Option<String>)
    ensures
        match r {
            Some(s) => c_string_text(array@) == Some(s@),
            None => c_string_text(array@) is None,
        },
{
    proof {
        lemma_first_zero(array@);
    }
    let mut i: usize = 0;
    while i < array.len() && array[i] != 0
        invariant
            i <= array@.len(),
            forall|j: int| 0 <= j < i ==> array@[j] != 0,
        decreases array@.len() - i,
    {
        i = i + 1;
    }
    if i == array.len() {
        return None;
    }
    assert(first_zero(array@) == Some(i as int)) by {
        lemma_first_zero(array@);
        if first_zero(array@) is None {
            assert(array@[i as int] != 0);
        }
    }
    let mut bytes: Vec<u8> = Vec::new();
    let body = vstd::slice::slice_subrange(array, 0, i);
    push_u16s(&mut bytes, body);
    assert(body@ =~= array@.take(i as int));
    assert(bytes@ =~= u16s_bytes(array@.take(i as int)));
    let decoded = decode_utf16le(bytes.as_slice());
    text_of_decoded(decoded)
}

/// A character's number is at most 0x10FFFF.
proof fn lemma_char_range(c: char)
    ensures
        0 <= c as int <= 0x10FFFF,
{
}

/// The units of a string with no 0 character hold no 0 unit.
proof fn lemma_utf16_no_zero(s: Seq<char>)
    requires
        !s.contains('\0'),
    ensures
        forall|j: int| 0 <= j < utf16(s).len() ==> utf16(s)[j] != 0,
    decreases s.len(),
{
    if s.len() > 0 {
        let init = s.drop_last();
        assert(!init.contains('\0')) by {
            if init.contains('\0') {
                let k = choose|k: int| 0 <= k < init.len() && init[k] == '\0';
                assert(s[k] == '\0');
            }
        }
        lemma_utf16_no_zero(init);
        let c = s.last();
        assert(s[s.len() - 1] == c);
        assert(c as int != 0);
        let u = utf16_of_char(c);
        let v = c as int;
        lemma_char_range(c);
        if v < 0x10000 {
            assert(u[0] == v as u16);
            assert((v as u16) as int == v);
        } else {
            let w = v - 0x10000;
            assert(0 <= w / 1024 < 1024);
            assert(u[0] as int == 0xD800 + w / 1024);
            assert(u[1] as int == 0xDC00 + w % 1024);
        }
        assert(forall|j: int| 0 <= j < u.len() ==> u[j] != 0);
        let a = utf16(init);
        assert forall|j: int| 0 <= j < utf16(s).len() implies utf16(s)[j] != 0 by {
            if j < a.len() {
                assert(utf16(s)[j] == a[j]);
            } else {
                assert(utf16(s)[j] == u[j - a.len()]);
            }
        }
    }
}

/// A string with no 0 character, written as its units and a 0 unit, reads back as the
/// same string whenever the decoder reads the string's own units as that string with
/// nothing malformed (it does not for a string that starts with U+FEFF, which it takes
/// for a byte order mark).
pub proof fn lemma_c_string_round_trip(s: Seq<char>)
    requires
        !s.contains('\0'),
        utf16le_decode(u16s_bytes(utf16(s))) == (s, false),
    ensures
        c_string_text(utf16(s).push(0)) == Some(s),
{
    let units = utf16(s).push(0);
    let n = utf16(s).len() as int;
    lemma_utf16_no_zero(s);
    lemma_first_zero(units);
    assert(units[n] == 0);
    assert(forall|j: int| 0 <= j < n ==> units[j] == utf16(s)[j]);
    assert(first_zero(units) == Some(n));
    assert(units.take(n) =~= utf16(s));
}

} // verus!
