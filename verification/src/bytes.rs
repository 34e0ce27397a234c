//! Little-endian integers in byte strings, as the wire protocol lays them out.
use vstd::prelude::*;

verus! {

/// Why bytes could not be read as a value.
#[derive(Clone, Copy, Debug, PartialEq, Eq, Structural)]
pub enum ReadError {
    /// The bytes ended before the value did.
    UnexpectedEnd,
    /// A byte names no variant of the type being read.
    NoVariantMatch,
}

/// The two bytes of `v`, low byte first.
pub open spec fn le16(v: u16) -> Seq<u8> {
    seq![(v % 256) as u8, (v / 256) as u8]
}

/// The four bytes of `v`, low byte first.
pub open spec fn le32(v: u32) -> Seq<u8> {
    seq![
        (v % 256) as u8,
        ((v / 256) % 256) as u8,
        ((v / 65536) % 256) as u8,
        (v / 16777216) as u8,
    ]
}

/// `s` with the two bytes of `v` appended, low byte first.
pub open spec fn push16(s: Seq<u8>, v: u16) -> Seq<u8> {
    s.push((v % 256) as u8).push((v / 256) as u8)
}

/// `s` with the four bytes of `v` appended, low byte first.
pub open spec fn push32(s: Seq<u8>, v: u32) -> Seq<u8> {
    s.push((v % 256) as u8).push(((v / 256) % 256) as u8).push(((v / 65536) % 256) as u8).push(
        (v / 16777216) as u8,
    )
}

/// The 16-bit number whose low byte is at `i`.
pub open spec fn u16_at(d: Seq<u8>, i: int) -> u16 {
    (d[i] + 256 * d[i + 1]) as u16
}

/// The 32-bit number whose low byte is at `i`.
pub open spec fn u32_at(d: Seq<u8>, i: int) -> u32 {
    (d[i] + 256 * d[i + 1] + 65536 * d[i + 2] + 16777216 * d[i + 3]) as u32
}

/// Reading back the two bytes of a number gives the number.
pub proof fn lemma_le16(v: u16)
    ensures
        u16_at(le16(v), 0) == v,
        le16(v).len() == 2,
{
}

/// Reading back the four bytes of a number gives the number.
pub proof fn lemma_le32(v: u32)
    ensures
        u32_at(le32(v), 0) == v,
        le32(v).len() == 4,
{
}

/// Two bytes read as a number are written back as the same two bytes.
pub proof fn lemma_u16_at(d: Seq<u8>, i: int)
    requires
        0 <= i,
        i + 2 <= d.len(),
    ensures
        le16(u16_at(d, i)) == d.subrange(i, i + 2),
{
    assert(le16(u16_at(d, i)) =~= d.subrange(i, i + 2));
}

/// Four bytes read as a number are written back as the same four bytes.
pub proof fn lemma_u32_at(d: Seq<u8>, i: int)
    requires
        0 <= i,
        i + 4 <= d.len(),
    ensures
        le32(u32_at(d, i)) == d.subrange(i, i + 4),
{
    let v = u32_at(d, i);
    let (b0, b1, b2, b3) = (d[i], d[i + 1], d[i + 2], d[i + 3]);
    assert(v == b0 as u32 + 256 * (b1 as u32) + 65536 * (b2 as u32) + 16777216 * (b3 as u32));
    assert(v % 256 == b0 as u32 && (v / 256) % 256 == b1 as u32 && (v / 65536) % 256
        == b2 as u32 && v / 16777216 == b3 as u32) by (bit_vector)
        requires
            v == b0 as u32 + 256 * (b1 as u32) + 65536 * (b2 as u32) + 16777216 * (b3 as u32),
    ;
    assert(le32(v) =~= d.subrange(i, i + 4));
}

/// A signed byte stored as its unsigned bit pattern reads back as itself.
pub proof fn lemma_i8_round_trip(v: i8)
    ensures
        (v as u8) as i8 == v,
{
    assert((v as u8) as i8 == v) by (bit_vector);
}

/// A signed 16-bit number stored as its unsigned bit pattern reads back as itself.
pub proof fn lemma_i16_round_trip(v: i16)
    ensures
        (v as u16) as i16 == v,
{
    assert((v as u16) as i16 == v) by (bit_vector);
}

/// A signed 32-bit number stored as its unsigned bit pattern reads back as itself.
pub proof fn lemma_i32_round_trip(v: i32)
    ensures
        (v as u32) as i32 == v,
{
    assert((v as u32) as i32 == v) by (bit_vector);
}

/// The bytes of a run of 16-bit numbers, each low byte first.
pub open spec fn u16s_bytes(v: Seq<u16>) -> Seq<u8> {
    Seq::new(
        2 * v.len(),
        |k: int|
            if k % 2 == 0 {
                (v[k / 2] % 256) as u8
            } else {
                (v[k / 2] / 256) as u8
            },
    )
}

/// The `n` 16-bit numbers laid out from `i` on.
pub open spec fn u16s_at(d: Seq<u8>, i: int, n: nat) -> Seq<u16> {
    Seq::new(n, |k: int| u16_at(d, i + 2 * k))
}

/// Reading back the bytes of a run of numbers gives the run.
pub proof fn lemma_u16s_round_trip(v: Seq<u16>)
    ensures
        u16s_at(u16s_bytes(v), 0, v.len()) == v,
        u16s_bytes(v).len() == 2 * v.len(),
{
    let b = u16s_bytes(v);
    assert forall|k: int| 0 <= k < v.len() implies #[trigger] u16s_at(b, 0, v.len())[k] == v[k] by {
        assert((2 * k) % 2 == 0 && (2 * k) / 2 == k);
        assert((2 * k + 1) % 2 == 1 && (2 * k + 1) / 2 == k);
    }
    assert(u16s_at(b, 0, v.len()) =~= v);
}

/// A run of numbers read from bytes is written back as the same bytes.
pub proof fn lemma_u16s_at(d: Seq<u8>, i: int, n: nat)
    requires
        0 <= i,
        i + 2 * n <= d.len(),
    ensures
        u16s_bytes(u16s_at(d, i, n)) == d.subrange(i, i + 2 * n),
{
    let v = u16s_at(d, i, n);
    assert forall|k: int| 0 <= k < 2 * n implies #[trigger] u16s_bytes(v)[k] == d.subrange(
        i,
        i + 2 * n,
    )[k] by {
        let j = k / 2;
        assert(0 <= j < n);
        if k % 2 == 0 {
            assert(k == 2 * j);
        } else {
            assert(k == 2 * j + 1);
        }
        assert(v[j] as int == d[i + 2 * j] + 256 * d[i + 2 * j + 1]);
    }
    assert(u16s_bytes(v) =~= d.subrange(i, i + 2 * n));
}

/// Appending one number to a run appends its two bytes.
pub proof fn lemma_u16s_push(v: Seq<u16>, x: u16)
    ensures
        u16s_bytes(v.push(x)) == u16s_bytes(v) + le16(x),
{
    let a = u16s_bytes(v.push(x));
    let b = u16s_bytes(v) + le16(x);
    assert forall|k: int| 0 <= k < a.len() implies #[trigger] a[k] == b[k] by {
        if k < 2 * v.len() {
            assert(k / 2 < v.len());
        } else {
            assert(k / 2 == v.len());
        }
    }
    assert(a =~= b);
}

/// The two bytes appended after `s` read back as the number, and `s` stays.
pub proof fn lemma_push16(s: Seq<u8>, v: u16)
    ensures
        push16(s, v).len() == s.len() + 2,
        u16_at(push16(s, v), s.len() as int) == v,
        push16(s, v).subrange(0, s.len() as int) == s,
{
    assert(push16(s, v).subrange(0, s.len() as int) =~= s);
}

/// The four bytes appended after `s` read back as the number, and `s` stays.
pub proof fn lemma_push32(s: Seq<u8>, v: u32)
    ensures
        push32(s, v).len() == s.len() + 4,
        u32_at(push32(s, v), s.len() as int) == v,
        push32(s, v).subrange(0, s.len() as int) == s,
{
    assert(push32(s, v).subrange(0, s.len() as int) =~= s);
}

/// Append the two bytes of `v`, low byte first.
pub fn put_u16(out: &mut Vec<u8>, v: u16)
    ensures
        final(out)@ == push16(old(out)@, v),
{
    out.push((v % 256) as u8);
    out.push((v / 256) as u8);
}

/// Append the four bytes of `v`, low byte first.
pub fn put_u32(out: &mut Vec<u8>, v: u32)
    ensures
        final(out)@ == push32(old(out)@, v),
{
    out.push((v % 256) as u8);
    out.push(((v / 256) % 256) as u8);
    out.push(((v / 65536) % 256) as u8);
    out.push((v / 16777216) as u8);
}

/// Append the two bytes of `v`.
pub fn push_u16(out: &mut Vec<u8>, v: u16)
    ensures
        final(out)@ == old(out)@ + le16(v),
{
    out.push((v % 256) as u8);
    out.push((v / 256) as u8);
    assert(final(out)@ =~= old(out)@ + le16(v));
}

/// Append the four bytes of `v`.
pub fn push_u32(out: &mut Vec<u8>, v: u32)
    ensures
        final(out)@ == old(out)@ + le32(v),
{
    out.push((v % 256) as u8);
    out.push(((v / 256) % 256) as u8);
    out.push(((v / 65536) % 256) as u8);
    out.push((v / 16777216) as u8);
    assert(final(out)@ =~= old(out)@ + le32(v));
}

/// Append the bytes of a run of numbers.
pub fn push_u16s(out: &mut Vec<u8>, v: &[u16])
    ensures
        final(out)@ == old(out)@ + u16s_bytes(v@),
{
    let ghost start = out@;
    let mut i: usize = 0;
    assert(u16s_bytes(v@.take(0)) =~= Seq::<u8>::empty());
    assert(start + Seq::<u8>::empty() =~= start);
    while i < v.len()
        invariant
            i <= v.len(),
            out@ == start + u16s_bytes(v@.take(i as int)),
        decreases v.len() - i,
    {
        proof {
            lemma_u16s_push(v@.take(i as int), v@[i as int]);
            assert(v@.take(i as int).push(v@[i as int]) =~= v@.take(i + 1));
        }
        push_u16(out, v[i]);
        i = i + 1;
        assert(out@ =~= start + u16s_bytes(v@.take(i as int)));
    }
    assert(v@.take(i as int) =~= v@);
}

/// The 16-bit number whose low byte is at `i`.
pub fn read_u16(d: &[u8], i: usize) -> (r: u16)
    requires
        i + 2 <= d@.len(),
    ensures
        r == u16_at(d@, i as int),
{
    d[i] as u16 + (d[i + 1] as u16) * 256
}

/// The 32-bit number whose low byte is at `i`.
pub fn read_u32(d: &[u8], i: usize) -> (r: u32)
    requires
        i + 4 <= d@.len(),
    ensures
        r == u32_at(d@, i as int),
{
    d[i] as u32 + (d[i + 1] as u32) * 256 + (d[i + 2] as u32) * 65536 + (d[i + 3] as u32)
        * 16777216
}

/// The `n` 16-bit numbers laid out from `i` on.
pub fn read_u16s(d: &[u8], i: usize, n: usize) -> (r: Vec<u16>)
    requires
        i + 2 * n <= d@.len(),
    ensures
        r@ == u16s_at(d@, i as int, n as nat),
{
    let mut r: Vec<u16> = Vec::new();
    let mut k: usize = 0;
    let len = d.len();
    while k < n
        invariant
            k <= n,
            i + 2 * n <= d@.len(),
            d@.len() == len,
            r@ == u16s_at(d@, i as int, k as nat),
        decreases n - k,
    {
        let x = read_u16(d, i + 2 * k);
        r.push(x);
        k = k + 1;
        assert(r@ =~= u16s_at(d@, i as int, k as nat));
    }
    r
}

} // verus!
