//! The body of a replay file: the duelists, the duel's settings, their decks and the
//! recorded answers, read one field after another.
use vstd::prelude::*;

use crate::bytes::{
    le16, le32, lemma_le16, lemma_le32, lemma_u16s_round_trip, push_u16, push_u16s, push_u32,
    read_u16, read_u32, u16_at, u16s_at, u16s_bytes, u32_at, ReadError,
};
use crate::constants::{MasterRule, Mode, Rule};
use crate::message::host_info::HostInfo;
use crate::replay::{ReplayData, ReplayHeader, REPLAY_COMPRESSED, REPLAY_TAG, REPLAY_V2};

verus! {

/// The number of UTF-16 units of a duelist's name.
pub const NAME_UNITS: usize = 20;

/// A 16-bit number from the front of `d`, and what follows it.
pub open spec fn take_u16(d: Seq<u8>) -> Result<(u16, Seq<u8>), ReadError> {
    if d.len() < 2 {
        Err(ReadError::UnexpectedEnd)
    } else {
        Ok((u16_at(d, 0), d.skip(2)))
    }
}

/// A 32-bit number from the front of `d`, and what follows it.
pub open spec fn take_u32(d: Seq<u8>) -> Result<(u32, Seq<u8>), ReadError> {
    if d.len() < 4 {
        Err(ReadError::UnexpectedEnd)
    } else {
        Ok((u32_at(d, 0), d.skip(4)))
    }
}

/// A name (20 UTF-16 units) from the front of `d`, and what follows it.
pub open spec fn take_name(d: Seq<u8>) -> Result<(Seq<u16>, Seq<u8>), ReadError> {
    if d.len() < 40 {
        Err(ReadError::UnexpectedEnd)
    } else {
        Ok((u16s_at(d, 0, 20), d.skip(40)))
    }
}

/// The bytes of a run of 32-bit numbers, each low byte first.
pub open spec fn u32s_bytes(v: Seq<u32>) -> Seq<u8>
    decreases v.len(),
{
    if v.len() == 0 {
        Seq::empty()
    } else {
        u32s_bytes(v.drop_last()) + le32(v.last())
    }
}

/// The `n` 32-bit numbers laid out from `i` on.
pub open spec fn u32s_at(d: Seq<u8>, i: int, n: nat) -> Seq<u32> {
    Seq::new(n, |k: int| u32_at(d, i + 4 * k))
}

/// `n` 32-bit numbers from the front of `d`, and what follows them.
pub open spec fn take_u32s(d: Seq<u8>, n: nat) -> Result<(Seq<u32>, Seq<u8>), ReadError> {
    if d.len() < 4 * n {
        Err(ReadError::UnexpectedEnd)
    } else {
        Ok((u32s_at(d, 0, n), d.skip((4 * n) as int)))
    }
}

/// A run of numbers takes four bytes for each number.
pub proof fn lemma_u32s_bytes_len(v: Seq<u32>)
    ensures
        u32s_bytes(v).len() == 4 * v.len(),
    decreases v.len(),
{
    if v.len() > 0 {
        lemma_u32s_bytes_len(v.drop_last());
    }
}

/// The numbers of a run written before anything read back as the run.
pub proof fn lemma_u32s_prefix(v: Seq<u32>, rest: Seq<u8>)
    ensures
        u32s_at(u32s_bytes(v) + rest, 0, v.len()) == v,
    decreases v.len(),
{
    lemma_u32s_bytes_len(v);
    if v.len() > 0 {
        let init = v.drop_last();
        let x = v.last();
        lemma_u32s_bytes_len(init);
        lemma_u32s_prefix(init, le32(x) + rest);
        lemma_le32(x);
        let a = u32s_bytes(init);
        assert(u32s_bytes(v) + rest =~= a + (le32(x) + rest));
        let d = u32s_bytes(v) + rest;
        assert forall|k: int| 0 <= k < v.len() implies #[trigger] u32s_at(d, 0, v.len())[k] == v[k] by {
            if k < init.len() {
                assert(u32s_at(a + (le32(x) + rest), 0, init.len())[k] == init[k]);
            } else {
                let j = a.len() as int;
                assert(d[j] == le32(x)[0] && d[j + 1] == le32(x)[1] && d[j + 2] == le32(x)[2]
                    && d[j + 3] == le32(x)[3]);
            }
        }
        assert(u32s_at(d, 0, v.len()) =~= v);
    } else {
        assert(u32s_at(u32s_bytes(v) + rest, 0, 0) =~= v);
    }
}

/// A 16-bit number taken from the front of its bytes comes back, with what follows.
pub proof fn lemma_take_u16(a: u16, rest: Seq<u8>)
    ensures
        take_u16(le16(a) + rest) == Ok::<(u16, Seq<u8>), ReadError>((a, rest)),
{
    lemma_le16(a);
    assert((le16(a) + rest).skip(2) =~= rest);
}

/// A 32-bit number taken from the front of its bytes comes back, with what follows.
pub proof fn lemma_take_u32(b: u32, rest: Seq<u8>)
    ensures
        take_u32(le32(b) + rest) == Ok::<(u32, Seq<u8>), ReadError>((b, rest)),
{
    lemma_le32(b);
    assert((le32(b) + rest).skip(4) =~= rest);
}

/// A name taken from the front of its bytes comes back, with what follows.
pub proof fn lemma_take_name(name: Seq<u16>, rest: Seq<u8>)
    requires
        name.len() == 20,
    ensures
        take_name(u16s_bytes(name) + rest) == Ok::<(Seq<u16>, Seq<u8>), ReadError>((name, rest)),
{
    lemma_u16s_round_trip(name);
    let nb = u16s_bytes(name) + rest;
    assert forall|k: int| 0 <= k < 20 implies #[trigger] u16s_at(nb, 0, 20)[k] == name[k] by {
        assert(nb[2 * k] == u16s_bytes(name)[2 * k] && nb[2 * k + 1] == u16s_bytes(name)[2 * k + 1]);
        assert(u16s_at(u16s_bytes(name), 0, 20)[k] == name[k]);
    }
    assert(u16s_at(nb, 0, 20) =~= name);
    assert(nb.skip(40) =~= rest);
}

/// A run of numbers taken from the front of its bytes comes back, with what follows.
pub proof fn lemma_take_u32s(v: Seq<u32>, rest: Seq<u8>)
    ensures
        take_u32s(u32s_bytes(v) + rest, v.len()) == Ok::<(Seq<u32>, Seq<u8>), ReadError>((v, rest)),
{
    lemma_u32s_bytes_len(v);
    lemma_u32s_prefix(v, rest);
    assert((u32s_bytes(v) + rest).skip((4 * v.len()) as int) =~= rest);
}

/// A 16-bit number read at `pos`, with the position after it.
pub fn read_u16_from(d: &[u8], pos: usize) -> (r: Result<(u16, usize), ReadError>)
    requires
        pos <= d@.len(),
    ensures
        match r {
            Ok((v, p)) => p <= d@.len() && take_u16(d@.skip(pos as int)) == Ok::<(u16, Seq<u8>), ReadError>((v, d@.skip(p as int))),
            Err(e) => take_u16(d@.skip(pos as int)) == Err::<(u16, Seq<u8>), ReadError>(e),
        },
{
    if d.len() - pos < 2 {
        return Err(ReadError::UnexpectedEnd);
    }
    let v = read_u16(d, pos);
    assert(d@.skip(pos as int).skip(2) =~= d@.skip(pos + 2));
    Ok((v, pos + 2))
}

/// A 32-bit number read at `pos`, with the position after it.
pub fn read_u32_from(d: &[u8], pos: usize) -> (r: Result<(u32, usize), ReadError>)
    requires
        pos <= d@.len(),
    ensures
        match r {
            Ok((v, p)) => p <= d@.len() && take_u32(d@.skip(pos as int)) == Ok::<(u32, Seq<u8>), ReadError>((v, d@.skip(p as int))),
            Err(e) => take_u32(d@.skip(pos as int)) == Err::<(u32, Seq<u8>), ReadError>(e),
        },
{
    if d.len() - pos < 4 {
        return Err(ReadError::UnexpectedEnd);
    }
    let v = read_u32(d, pos);
    assert(d@.skip(pos as int).skip(4) =~= d@.skip(pos + 4));
    Ok((v, pos + 4))
}

/// A name read at `pos`, with the position after it.
pub fn read_name_from(d: &[u8], pos: usize) -> (r: Result<([u16; 20], usize), ReadError>)
    requires
        pos <= d@.len(),
    ensures
        match r {
            Ok((v, p)) => p <= d@.len() && take_name(d@.skip(pos as int)) == Ok::<(Seq<u16>, Seq<u8>), ReadError>((v@, d@.skip(p as int))),
            Err(e) => take_name(d@.skip(pos as int)) == Err::<(Seq<u16>, Seq<u8>), ReadError>(e),
        },
{
    if d.len() - pos < 40 {
        return Err(ReadError::UnexpectedEnd);
    }
    let ghost t = d@.skip(pos as int);
    let len = d.len();
    let mut name: [u16; 20] = [0u16; 20];
    let mut i: usize = 0;
    while i < 20
        invariant
            i <= 20,
            pos + 40 <= d@.len(),
            d@.len() == len,
            t == d@.skip(pos as int),
            name@.len() == 20,
            forall|j: int| 0 <= j < i ==> name@[j] == u16_at(t, 2 * j),
        decreases 20 - i,
    {
        name[i] = read_u16(d, pos + 2 * i);
        assert(d@[pos + 2 * i] == t[2 * i as int] && d@[pos + 2 * i + 1] == t[2 * i + 1]);
        i = i + 1;
    }
    assert(name@ =~= u16s_at(t, 0, 20));
    assert(t.skip(40) =~= d@.skip(pos + 40));
    Ok((name, pos + 40))
}

/// `n` 32-bit numbers read at `pos`, with the position after them.
pub fn read_u32s_from(d: &[u8], pos: usize, n: u32) -> (r: Result<(Vec<u32>, usize), ReadError>)
    requires
        pos <= d@.len(),
    ensures
        match r {
            Ok((v, p)) => p <= d@.len() && take_u32s(d@.skip(pos as int), n as nat) == Ok::<(Seq<u32>, Seq<u8>), ReadError>((v@, d@.skip(p as int))),
            Err(e) => take_u32s(d@.skip(pos as int), n as nat) == Err::<(Seq<u32>, Seq<u8>), ReadError>(e),
        },
{
    let len = d.len();
    let room = len - pos;
    if room / 4 < n as usize {
        return Err(ReadError::UnexpectedEnd);
    }
    let ghost t = d@.skip(pos as int);
    let count = n as usize;
    let mut out: Vec<u32> = Vec::new();
    let mut k: usize = 0;
    while k < count
        invariant
            k <= count,
            count == n,
            pos + 4 * count <= d@.len(),
            d@.len() == len,
            t == d@.skip(pos as int),
            out@ == u32s_at(t, 0, k as nat),
        decreases count - k,
    {
        let x = read_u32(d, pos + 4 * k);
        assert(d@[pos + 4 * k] == t[4 * k as int] && d@[pos + 4 * k + 1] == t[4 * k + 1] && d@[pos + 4
            * k + 2] == t[4 * k + 2] && d@[pos + 4 * k + 3] == t[4 * k + 3]);
        out.push(x);
        k = k + 1;
        assert(out@ =~= u32s_at(t, 0, k as nat));
    }
    assert(t.skip(4 * count) =~= d@.skip(pos + 4 * count));
    Ok((out, pos + 4 * count))
}

/// Append the bytes of a run of 32-bit numbers.
pub fn write_u32s(out: &mut Vec<u8>, v: &Vec<u32>)
    ensures
        final(out)@ == old(out)@ + u32s_bytes(v@),
{
    let ghost start = out@;
    let mut i: usize = 0;
    assert(v@.take(0) =~= Seq::<u32>::empty());
    assert(start + Seq::<u8>::empty() =~= start);
    while i < v.len()
        invariant
            i <= v@.len(),
            out@ == start + u32s_bytes(v@.take(i as int)),
        decreases v@.len() - i,
    {
        assert(v@.take(i + 1).drop_last() =~= v@.take(i as int));
        push_u32(out, v[i]);
        i = i + 1;
        assert(out@ =~= start + u32s_bytes(v@.take(i as int)));
    }
    assert(v@.take(i as int) =~= v@);
}

/// A deck as a replay records it: the main deck's codes, then the extra deck's, each
/// run preceded by its length.
#[derive(Clone, Debug)]
pub struct ReplayDeck {
    pub main: Vec<u32>,
    pub extra: Vec<u32>,
}

/// The bytes of a deck: the length of the main deck, its codes, the length of the
/// extra deck, its codes.
#[verifier::opaque]
pub open spec fn deck_bytes(deck: (Seq<u32>, Seq<u32>)) -> Seq<u8> {
    le32(deck.0.len() as u32) + (u32s_bytes(deck.0) + (le32(deck.1.len() as u32) + u32s_bytes(deck.1)))
}

/// A deck from the front of `d`, and what follows it.
#[verifier::opaque]
pub open spec fn take_deck(d: Seq<u8>) -> Result<((Seq<u32>, Seq<u32>), Seq<u8>), ReadError> {
    match take_u32(d) {
        Err(e) => Err(e),
        Ok((n, d1)) => match take_u32s(d1, n as nat) {
            Err(e) => Err(e),
            Ok((main, d2)) => match take_u32(d2) {
                Err(e) => Err(e),
                Ok((m, d3)) => match take_u32s(d3, m as nat) {
                    Err(e) => Err(e),
                    Ok((extra, d4)) => Ok(((main, extra), d4)),
                },
            },
        },
    }
}

/// A deck whose runs fit a 32-bit length is taken back from its bytes.
pub proof fn lemma_deck_round_trip(deck: (Seq<u32>, Seq<u32>), rest: Seq<u8>)
    requires
        deck.0.len() <= u32::MAX,
        deck.1.len() <= u32::MAX,
    ensures
        take_deck(deck_bytes(deck) + rest) == Ok::<((Seq<u32>, Seq<u32>), Seq<u8>), ReadError>((deck, rest)),
{
    reveal(take_deck);
    reveal(deck_bytes);
    let d3 = u32s_bytes(deck.1) + rest;
    let d2 = le32(deck.1.len() as u32) + d3;
    let d1 = u32s_bytes(deck.0) + d2;
    assert(deck_bytes(deck) + rest =~= le32(deck.0.len() as u32) + d1);
    lemma_take_u32(deck.0.len() as u32, d1);
    lemma_take_u32s(deck.0, d2);
    lemma_take_u32(deck.1.len() as u32, d3);
    lemma_take_u32s(deck.1, rest);
}

impl ReplayDeck {
    /// The deck as plain values: the main and the extra codes.
    pub open spec fn view(&self) -> (Seq<u32>, Seq<u32>) {
        (self.main@, self.extra@)
    }

    /// Append the bytes of the deck.
    pub fn write(&self, out: &mut Vec<u8>)
        ensures
            final(out)@ == old(out)@ + deck_bytes(self.view()),
    {
        let ghost start = out@;
        proof {
            reveal(deck_bytes);
        }
        push_u32(out, self.main.len() as u32);
        write_u32s(out, &self.main);
        push_u32(out, self.extra.len() as u32);
        write_u32s(out, &self.extra);
        assert(out@ =~= start + deck_bytes(self.view()));
    }

    /// A deck read at `pos`, with the position after it.
    pub fn read_from(d: &[u8], pos: usize) -> (r: Result<(ReplayDeck, usize), ReadError>)
        requires
            pos <= d@.len(),
        ensures
            match r {
                Ok((v, p)) => p <= d@.len() && take_deck(d@.skip(pos as int)) == Ok::<((Seq<u32>, Seq<u32>), Seq<u8>), ReadError>((v.view(), d@.skip(p as int))),
                Err(e) => take_deck(d@.skip(pos as int)) == Err::<((Seq<u32>, Seq<u32>), Seq<u8>), ReadError>(e),
            },
    {
        proof {
            reveal(take_deck);
        }
        let (n, p1) = read_u32_from(d, pos)?;
        let (main, p2) = read_u32s_from(d, p1, n)?;
        let (m, p3) = read_u32_from(d, p2)?;
        let (extra, p4) = read_u32s_from(d, p3, m)?;
        Ok((ReplayDeck { main, extra }, p4))
    }
}

/// The records of a body from the front of `d` on: each a length byte and that many
/// bytes; a record cut short by the end is dropped.
pub open spec fn records(d: Seq<u8>) -> Seq<Seq<u8>>
    decreases d.len(),
{
    if d.len() == 0 || d.len() < 1 + d[0] {
        Seq::empty()
    } else {
        seq![d.subrange(1, 1 + d[0])] + records(d.skip(1 + d[0]))
    }
}

/// The bytes of a run of records.
pub open spec fn records_bytes(datas: Seq<Seq<u8>>) -> Seq<u8>
    decreases datas.len(),
{
    if datas.len() == 0 {
        Seq::empty()
    } else {
        seq![(datas[0].len() % 256) as u8] + (datas[0] + records_bytes(datas.drop_first()))
    }
}

/// Records of at most 255 bytes each are read back from their bytes.
pub proof fn lemma_records_round_trip(datas: Seq<Seq<u8>>)
    requires
        forall|i: int| 0 <= i < datas.len() ==> #[trigger] datas[i].len() <= 255,
    ensures
        records(records_bytes(datas)) == datas,
    decreases datas.len(),
{
    if datas.len() > 0 {
        let x = datas[0];
        let t = datas.drop_first();
        assert(forall|i: int| 0 <= i < t.len() ==> #[trigger] t[i].len() <= 255 ==> true);
        assert forall|i: int| 0 <= i < t.len() implies #[trigger] t[i].len() <= 255 by {
            assert(t[i] == datas[i + 1]);
        }
        lemma_records_round_trip(t);
        let b = records_bytes(datas);
        assert(b[0] == x.len());
        assert(b.subrange(1, 1 + x.len() as int) =~= x);
        assert(b.skip(1 + x.len() as int) =~= records_bytes(t));
        assert(records(b) =~= seq![x] + t);
        assert(seq![x] + t =~= datas);
    } else {
        assert(records(records_bytes(datas)) =~= datas);
    }
}

/// The records read at `pos` to the end of `d`.
fn read_records(d: &[u8], pos: usize) -> (r: Vec<ReplayData>)
    requires
        pos <= d@.len(),
    ensures
        r@.map_values(|x: ReplayData| x.data@) == records(d@.skip(pos as int)),
{
    let len = d.len();
    let mut out: Vec<ReplayData> = Vec::new();
    let mut p = pos;
    let ghost all = records(d@.skip(pos as int));
    while p < len
        invariant
            pos <= p <= len,
            len == d@.len(),
            out@.map_values(|x: ReplayData| x.data@) + records(d@.skip(p as int)) == all,
        ensures
            out@.map_values(|x: ReplayData| x.data@) == all,
        decreases len - p,
    {
        let rest = vstd::slice::slice_subrange(d, p, len);
        assert(rest@ =~= d@.skip(p as int));
        match ReplayData::read(rest) {
            Ok((x, n)) => {
                let ghost before = out@.map_values(|y: ReplayData| y.data@);
                assert(records(d@.skip(p as int)) == seq![d@.skip(p as int).subrange(1, n as int)] + records(d@.skip(p as int).skip(n as int)));
                assert(d@.skip(p as int).skip(n as int) =~= d@.skip(p + n));
                out.push(x);
                assert(out@.map_values(|y: ReplayData| y.data@) =~= before.push(x.data@));
                assert(before.push(x.data@) + records(d@.skip(p + n)) =~= before + records(d@.skip(p as int)));
                p = p + n;
            },
            Err(_) => {
                assert(records(d@.skip(p as int)) =~= Seq::<Seq<u8>>::empty());
                assert(out@.map_values(|y: ReplayData| y.data@) + records(d@.skip(p as int)) =~= out@.map_values(|y: ReplayData| y.data@));
                break;
            },
        }
    }
    out
}

/// A name when `tag` holds, from the front of `d`, and what follows it.
pub open spec fn take_opt_name(d: Seq<u8>, tag: bool) -> Result<(Option<Seq<u16>>, Seq<u8>), ReadError> {
    if tag {
        match take_name(d) {
            Ok((n, r)) => Ok((Some(n), r)),
            Err(e) => Err(e),
        }
    } else {
        Ok((None, d))
    }
}

/// A deck when `tag` holds, from the front of `d`, and what follows it.
pub open spec fn take_opt_deck(d: Seq<u8>, tag: bool) -> Result<(Option<(Seq<u32>, Seq<u32>)>, Seq<u8>), ReadError> {
    if tag {
        match take_deck(d) {
            Ok((n, r)) => Ok((Some(n), r)),
            Err(e) => Err(e),
        }
    } else {
        Ok((None, d))
    }
}

/// The body of a replay as plain values.
pub struct ReplayBodyView {
    pub host_name: Seq<u16>,
    pub tag_host_name: Option<Seq<u16>>,
    pub tag_client_name: Option<Seq<u16>>,
    pub client_name: Seq<u16>,
    pub start_lp: u32,
    pub start_hand: u32,
    pub draw_count: u32,
    pub duel_options: u16,
    pub duel_rule: u16,
    pub host_deck: (Seq<u32>, Seq<u32>),
    pub tag_host_deck: Option<(Seq<u32>, Seq<u32>)>,
    pub tag_client_deck: Option<(Seq<u32>, Seq<u32>)>,
    pub client_deck: (Seq<u32>, Seq<u32>),
    pub datas: Seq<Seq<u8>>,
}

/// Each record read from `d` has at most 255 bytes (its length is one byte).
proof fn lemma_records_short(d: Seq<u8>)
    ensures
        forall|i: int| 0 <= i < records(d).len() ==> #[trigger] records(d)[i].len() <= 255,
    decreases d.len(),
{
    if !(d.len() == 0 || d.len() < 1 + d[0]) {
        let rest = d.skip(1 + d[0]);
        lemma_records_short(rest);
        let first = d.subrange(1, 1 + d[0]);
        assert(records(d) == seq![first] + records(rest));
        assert forall|i: int| 0 <= i < records(d).len() implies #[trigger] records(d)[i].len() <= 255 by {
            if i > 0 {
                assert(records(d)[i] == records(rest)[i - 1]);
            }
        }
    }
}

/// A deck taken from bytes has runs that fit a 32-bit length.
proof fn lemma_take_deck_fits(d: Seq<u8>)
    ensures
        take_deck(d) matches Ok((k, _)) ==> deck_fits(k),
{
    reveal(take_deck);
}

/// A deck taken from bytes when `tag` holds has runs that fit a 32-bit length, and is
/// there exactly when `tag` holds.
proof fn lemma_take_opt_deck_fits(d: Seq<u8>, tag: bool)
    ensures
        take_opt_deck(d, tag) matches Ok((k, _)) ==> (tag == k is Some && (k matches Some(x) ==> deck_fits(x))),
{
    lemma_take_deck_fits(d);
}

/// The names of a body from the front of `d` (the tag duel's second names only when
/// `tag` holds), and what follows them.
#[verifier::opaque]
pub open spec fn take_names(d: Seq<u8>, tag: bool) -> Result<((Seq<u16>, Option<Seq<u16>>, Option<Seq<u16>>, Seq<u16>), Seq<u8>), ReadError> {
    match take_name(d) {
        Err(e) => Err(e),
        Ok((host, d)) => match take_opt_name(d, tag) {
            Err(e) => Err(e),
            Ok((tag_host, d)) => match take_opt_name(d, tag) {
                Err(e) => Err(e),
                Ok((tag_client, d)) => match take_name(d) {
                    Err(e) => Err(e),
                    Ok((client, d)) => Ok(((host, tag_host, tag_client, client), d)),
                },
            },
        },
    }
}

/// The settings of a body from the front of `d` (start LP, start hand, draw count,
/// duel options, duel rule), and what follows them.
#[verifier::opaque]
pub open spec fn take_settings(d: Seq<u8>) -> Result<((u32, u32, u32, u16, u16), Seq<u8>), ReadError> {
    match take_u32(d) {
        Err(e) => Err(e),
        Ok((lp, d)) => match take_u32(d) {
            Err(e) => Err(e),
            Ok((hand, d)) => match take_u32(d) {
                Err(e) => Err(e),
                Ok((draw, d)) => match take_u16(d) {
                    Err(e) => Err(e),
                    Ok((options, d)) => match take_u16(d) {
                        Err(e) => Err(e),
                        Ok((rule, d)) => Ok(((lp, hand, draw, options, rule), d)),
                    },
                },
            },
        },
    }
}

/// The decks of a body from the front of `d` (the tag duel's second decks only when
/// `tag` holds), and what follows them.
#[verifier::opaque]
pub open spec fn take_decks(d: Seq<u8>, tag: bool) -> Result<(((Seq<u32>, Seq<u32>), Option<(Seq<u32>, Seq<u32>)>, Option<(Seq<u32>, Seq<u32>)>, (Seq<u32>, Seq<u32>)), Seq<u8>), ReadError> {
    match take_deck(d) {
        Err(e) => Err(e),
        Ok((host, d)) => match take_opt_deck(d, tag) {
            Err(e) => Err(e),
            Ok((tag_host, d)) => match take_opt_deck(d, tag) {
                Err(e) => Err(e),
                Ok((tag_client, d)) => match take_deck(d) {
                    Err(e) => Err(e),
                    Ok((client, d)) => Ok(((host, tag_host, tag_client, client), d)),
                },
            },
        },
    }
}

/// How the bytes `d` read as a replay body: the names, the settings, the decks, and
/// the records to the end.
pub open spec fn parse_body(d: Seq<u8>, tag: bool) -> Result<ReplayBodyView, ReadError> {
    match take_names(d, tag) {
        Err(e) => Err(e),
        Ok((names, d)) => match take_settings(d) {
            Err(e) => Err(e),
            Ok((settings, d)) => match take_decks(d, tag) {
                Err(e) => Err(e),
                Ok((decks, d)) => Ok(
                    ReplayBodyView {
                        host_name: names.0,
                        tag_host_name: names.1,
                        tag_client_name: names.2,
                        client_name: names.3,
                        start_lp: settings.0,
                        start_hand: settings.1,
                        draw_count: settings.2,
                        duel_options: settings.3,
                        duel_rule: settings.4,
                        host_deck: decks.0,
                        tag_host_deck: decks.1,
                        tag_client_deck: decks.2,
                        client_deck: decks.3,
                        datas: records(d),
                    },
                ),
            },
        },
    }
}

/// The bytes of a name kept only when `tag` holds.
pub open spec fn opt_name_bytes(name: Option<Seq<u16>>, tag: bool) -> Seq<u8> {
    match name {
        Some(n) if tag => u16s_bytes(n),
        _ => Seq::empty(),
    }
}

/// The bytes of a deck kept only when `tag` holds.
pub open spec fn opt_deck_bytes(deck: Option<(Seq<u32>, Seq<u32>)>, tag: bool) -> Seq<u8> {
    match deck {
        Some(k) if tag => deck_bytes(k),
        _ => Seq::empty(),
    }
}

/// The bytes of the names of a body.
#[verifier::opaque]
pub open spec fn names_bytes(b: ReplayBodyView, tag: bool) -> Seq<u8> {
    u16s_bytes(b.host_name) + (opt_name_bytes(b.tag_host_name, tag) + (opt_name_bytes(b.tag_client_name, tag)
        + u16s_bytes(b.client_name)))
}

/// The bytes of the settings of a body.
#[verifier::opaque]
pub open spec fn settings_bytes(b: ReplayBodyView) -> Seq<u8> {
    le32(b.start_lp) + (le32(b.start_hand) + (le32(b.draw_count) + (le16(b.duel_options) + le16(
        b.duel_rule,
    ))))
}

/// The bytes of the decks of a body.
#[verifier::opaque]
pub open spec fn decks_bytes(b: ReplayBodyView, tag: bool) -> Seq<u8> {
    deck_bytes(b.host_deck) + (opt_deck_bytes(b.tag_host_deck, tag) + (opt_deck_bytes(b.tag_client_deck, tag)
        + deck_bytes(b.client_deck)))
}

/// The bytes of a replay body: the names, the settings, the decks, the records; the
/// tag duel's second names and decks only when `tag` holds and they are there.
pub open spec fn body_bytes(b: ReplayBodyView, tag: bool) -> Seq<u8> {
    names_bytes(b, tag) + (settings_bytes(b) + (decks_bytes(b, tag) + records_bytes(b.datas)))
}

/// Whether a body can be written and read back as itself: its names have 20 units,
/// the tag duel's second names and decks are there exactly when `tag` holds, the runs
/// of its decks fit a 32-bit length and its records hold at most 255 bytes each.
pub open spec fn body_writable(b: ReplayBodyView, tag: bool) -> bool {
    &&& b.host_name.len() == 20
    &&& b.client_name.len() == 20
    &&& (b.tag_host_name matches Some(n) ==> n.len() == 20)
    &&& (b.tag_client_name matches Some(n) ==> n.len() == 20)
    &&& tag == b.tag_host_name is Some
    &&& tag == b.tag_client_name is Some
    &&& tag == b.tag_host_deck is Some
    &&& tag == b.tag_client_deck is Some
    &&& deck_fits(b.host_deck)
    &&& deck_fits(b.client_deck)
    &&& (b.tag_host_deck matches Some(k) ==> deck_fits(k))
    &&& (b.tag_client_deck matches Some(k) ==> deck_fits(k))
    &&& forall|i: int| 0 <= i < b.datas.len() ==> #[trigger] b.datas[i].len() <= 255
}

/// Whether both runs of a deck fit a 32-bit length.
pub open spec fn deck_fits(deck: (Seq<u32>, Seq<u32>)) -> bool {
    deck.0.len() <= u32::MAX && deck.1.len() <= u32::MAX
}

/// A body read from bytes can be written back: its names have 20 units, the tag duel's
/// parts are there exactly when `tag` holds, its decks' runs fit a 32-bit length and each
/// record has at most 255 bytes.
pub proof fn lemma_parsed_body_writable(d: Seq<u8>, tag: bool)
    ensures
        parse_body(d, tag) matches Ok(b) ==> body_writable(b, tag),
{
    if let Ok(b) = parse_body(d, tag) {
        reveal(take_names);
        reveal(take_decks);
        if let Ok((names, d1)) = take_names(d, tag) {
            if let Ok((settings, d2)) = take_settings(d1) {
                if let Ok((decks, d3)) = take_decks(d2, tag) {
                    lemma_take_deck_fits(d2);
                    if let Ok((host, e1)) = take_deck(d2) {
                        lemma_take_opt_deck_fits(e1, tag);
                        if let Ok((tag_host, e2)) = take_opt_deck(e1, tag) {
                            lemma_take_opt_deck_fits(e2, tag);
                            if let Ok((tag_client, e3)) = take_opt_deck(e2, tag) {
                                lemma_take_deck_fits(e3);
                            }
                        }
                    }
                    lemma_records_short(d3);
                    assert(b.datas == records(d3));
                }
            }
        }
    }
}

/// A writable body is read back from its bytes as itself.
pub proof fn lemma_body_round_trip(b: ReplayBodyView, tag: bool)
    requires
        body_writable(b, tag),
    ensures
        parse_body(body_bytes(b, tag), tag) == Ok::<ReplayBodyView, ReadError>(b),
{
    let rd = records_bytes(b.datas);
    let rs = decks_bytes(b, tag) + rd;
    let rn = settings_bytes(b) + rs;
    lemma_names_round_trip(b, tag, rn);
    lemma_settings_round_trip(b, rs);
    lemma_decks_round_trip(b, tag, rd);
    lemma_records_round_trip(b.datas);
    assert(body_bytes(b, tag) == names_bytes(b, tag) + rn);
}

proof fn lemma_names_round_trip(b: ReplayBodyView, tag: bool, rest: Seq<u8>)
    requires
        b.host_name.len() == 20,
        b.client_name.len() == 20,
        b.tag_host_name matches Some(n) ==> n.len() == 20,
        b.tag_client_name matches Some(n) ==> n.len() == 20,
        tag == b.tag_host_name is Some,
        tag == b.tag_client_name is Some,
    ensures
        take_names(names_bytes(b, tag) + rest, tag) == Ok::<((Seq<u16>, Option<Seq<u16>>, Option<Seq<u16>>, Seq<u16>), Seq<u8>), ReadError>(((b.host_name, b.tag_host_name, b.tag_client_name, b.client_name), rest)),
{
    reveal(take_names);
    reveal(names_bytes);
    let r3 = u16s_bytes(b.client_name) + rest;
    let r2 = opt_name_bytes(b.tag_client_name, tag) + r3;
    let r1 = opt_name_bytes(b.tag_host_name, tag) + r2;
    assert(names_bytes(b, tag) + rest =~= u16s_bytes(b.host_name) + r1);
    lemma_take_name(b.host_name, r1);
    if tag {
        lemma_take_name(b.tag_host_name->0, r2);
        lemma_take_name(b.tag_client_name->0, r3);
    } else {
        assert(r1 =~= r2);
        assert(r2 =~= r3);
    }
    lemma_take_name(b.client_name, rest);
}

proof fn lemma_settings_round_trip(b: ReplayBodyView, rest: Seq<u8>)
    ensures
        take_settings(settings_bytes(b) + rest) == Ok::<((u32, u32, u32, u16, u16), Seq<u8>), ReadError>(((b.start_lp, b.start_hand, b.draw_count, b.duel_options, b.duel_rule), rest)),
{
    reveal(take_settings);
    reveal(settings_bytes);
    let r4 = le16(b.duel_rule) + rest;
    let r3 = le16(b.duel_options) + r4;
    let r2 = le32(b.draw_count) + r3;
    let r1 = le32(b.start_hand) + r2;
    assert(settings_bytes(b) + rest =~= le32(b.start_lp) + r1);
    lemma_take_u32(b.start_lp, r1);
    lemma_take_u32(b.start_hand, r2);
    lemma_take_u32(b.draw_count, r3);
    lemma_take_u16(b.duel_options, r4);
    lemma_take_u16(b.duel_rule, rest);
}

proof fn lemma_decks_round_trip(b: ReplayBodyView, tag: bool, rest: Seq<u8>)
    requires
        tag == b.tag_host_deck is Some,
        tag == b.tag_client_deck is Some,
        deck_fits(b.host_deck),
        deck_fits(b.client_deck),
        b.tag_host_deck matches Some(k) ==> deck_fits(k),
        b.tag_client_deck matches Some(k) ==> deck_fits(k),
    ensures
        take_decks(decks_bytes(b, tag) + rest, tag) == Ok::<(((Seq<u32>, Seq<u32>), Option<(Seq<u32>, Seq<u32>)>, Option<(Seq<u32>, Seq<u32>)>, (Seq<u32>, Seq<u32>)), Seq<u8>), ReadError>(((b.host_deck, b.tag_host_deck, b.tag_client_deck, b.client_deck), rest)),
{
    reveal(take_decks);
    reveal(decks_bytes);
    let r3 = deck_bytes(b.client_deck) + rest;
    let r2 = opt_deck_bytes(b.tag_client_deck, tag) + r3;
    let r1 = opt_deck_bytes(b.tag_host_deck, tag) + r2;
    assert(decks_bytes(b, tag) + rest =~= deck_bytes(b.host_deck) + r1);
    lemma_deck_round_trip(b.host_deck, r1);
    if tag {
        lemma_deck_round_trip(b.tag_host_deck->0, r2);
        lemma_deck_round_trip(b.tag_client_deck->0, r3);
    } else {
        assert(r1 =~= r2);
        assert(r2 =~= r3);
    }
    lemma_deck_round_trip(b.client_deck, rest);
}

/// Appending a record appends its bytes.
proof fn lemma_records_bytes_push(datas: Seq<Seq<u8>>, x: Seq<u8>)
    ensures
        records_bytes(datas.push(x)) == records_bytes(datas) + (seq![(x.len() % 256) as u8] + x),
    decreases datas.len(),
{
    if datas.len() == 0 {
        assert(datas.push(x).drop_first() =~= Seq::<Seq<u8>>::empty());
        assert(datas.push(x)[0] == x);
        assert(records_bytes(Seq::<Seq<u8>>::empty()) == Seq::<u8>::empty());
        assert(records_bytes(datas) == Seq::<u8>::empty());
        assert(records_bytes(datas.push(x)) =~= records_bytes(datas) + (seq![(x.len() % 256) as u8] + x));
    } else {
        lemma_records_bytes_push(datas.drop_first(), x);
        assert(datas.push(x).drop_first() =~= datas.drop_first().push(x));
        assert(datas.push(x)[0] == datas[0]);
        let h = seq![(datas[0].len() % 256) as u8];
        let t = seq![(x.len() % 256) as u8] + x;
        assert(records_bytes(datas.push(x)) == h + (datas[0] + (records_bytes(datas.drop_first()) + t)));
        assert(records_bytes(datas) == h + (datas[0] + records_bytes(datas.drop_first())));
        assert(h + (datas[0] + (records_bytes(datas.drop_first()) + t)) =~= (h + (datas[0] + records_bytes(datas.drop_first()))) + t);
    }
}

/// A name read at `pos` when `tag` holds, with the position after it.
fn read_opt_name_from(d: &[u8], pos: usize, tag: bool) -> (r: Result<(Option<[u16; 20]>, usize), ReadError>)
    requires
        pos <= d@.len(),
    ensures
        match r {
            Ok((v, p)) => p <= d@.len() && take_opt_name(d@.skip(pos as int), tag) == Ok::<(Option<Seq<u16>>, Seq<u8>), ReadError>((opt_units(v), d@.skip(p as int))),
            Err(e) => take_opt_name(d@.skip(pos as int), tag) == Err::<(Option<Seq<u16>>, Seq<u8>), ReadError>(e),
        },
{
    if tag {
        let (n, p) = read_name_from(d, pos)?;
        Ok((Some(n), p))
    } else {
        Ok((None, pos))
    }
}

/// A deck read at `pos` when `tag` holds, with the position after it.
fn read_opt_deck_from(d: &[u8], pos: usize, tag: bool) -> (r: Result<(Option<ReplayDeck>, usize), ReadError>)
    requires
        pos <= d@.len(),
    ensures
        match r {
            Ok((v, p)) => p <= d@.len() && take_opt_deck(d@.skip(pos as int), tag) == Ok::<(Option<(Seq<u32>, Seq<u32>)>, Seq<u8>), ReadError>((opt_deck_view(v), d@.skip(p as int))),
            Err(e) => take_opt_deck(d@.skip(pos as int), tag) == Err::<(Option<(Seq<u32>, Seq<u32>)>, Seq<u8>), ReadError>(e),
        },
{
    if tag {
        let (k, p) = ReplayDeck::read_from(d, pos)?;
        Ok((Some(k), p))
    } else {
        Ok((None, pos))
    }
}

/// The units of a name that may be missing.
pub open spec fn opt_units(n: Option<[u16; 20]>) -> Option<Seq<u16>> {
    match n {
        Some(a) => Some(a@),
        None => None,
    }
}

/// The codes of a deck that may be missing.
pub open spec fn opt_deck_view(k: Option<ReplayDeck>) -> Option<(Seq<u32>, Seq<u32>)> {
    match k {
        Some(x) => Some(x.view()),
        None => None,
    }
}

/// The names of a body read from the front of `d`, with the position after them.
fn read_names_from(d: &[u8], tag: bool) -> (r: Result<(([u16; 20], Option<[u16; 20]>, Option<[u16; 20]>, [u16; 20]), usize), ReadError>)
    ensures
        match r {
            Ok((v, p)) => p <= d@.len() && take_names(d@, tag) == Ok::<((Seq<u16>, Option<Seq<u16>>, Option<Seq<u16>>, Seq<u16>), Seq<u8>), ReadError>(((v.0@, opt_units(v.1), opt_units(v.2), v.3@), d@.skip(p as int))),
            Err(e) => take_names(d@, tag) == Err::<((Seq<u16>, Option<Seq<u16>>, Option<Seq<u16>>, Seq<u16>), Seq<u8>), ReadError>(e),
        },
{
    proof {
        reveal(take_names);
        assert(d@.skip(0) =~= d@);
    }
    let (host_name, p) = read_name_from(d, 0)?;
    let (tag_host_name, p) = read_opt_name_from(d, p, tag)?;
    let (tag_client_name, p) = read_opt_name_from(d, p, tag)?;
    let (client_name, p) = read_name_from(d, p)?;
    Ok(((host_name, tag_host_name, tag_client_name, client_name), p))
}

/// The settings of a body read at `pos`, with the position after them.
fn read_settings_from(d: &[u8], pos: usize) -> (r: Result<((u32, u32, u32, u16, u16), usize), ReadError>)
    requires
        pos <= d@.len(),
    ensures
        match r {
            Ok((v, p)) => p <= d@.len() && take_settings(d@.skip(pos as int)) == Ok::<((u32, u32, u32, u16, u16), Seq<u8>), ReadError>((v, d@.skip(p as int))),
            Err(e) => take_settings(d@.skip(pos as int)) == Err::<((u32, u32, u32, u16, u16), Seq<u8>), ReadError>(e),
        },
{
    proof {
        reveal(take_settings);
    }
    let (start_lp, p) = read_u32_from(d, pos)?;
    let (start_hand, p) = read_u32_from(d, p)?;
    let (draw_count, p) = read_u32_from(d, p)?;
    let (duel_options, p) = read_u16_from(d, p)?;
    let (duel_rule, p) = read_u16_from(d, p)?;
    Ok(((start_lp, start_hand, draw_count, duel_options, duel_rule), p))
}

/// The decks of a body read at `pos`, with the position after them.
fn read_decks_from(d: &[u8], pos: usize, tag: bool) -> (r: Result<((ReplayDeck, Option<ReplayDeck>, Option<ReplayDeck>, ReplayDeck), usize), ReadError>)
    requires
        pos <= d@.len(),
    ensures
        match r {
            Ok((v, p)) => p <= d@.len() && take_decks(d@.skip(pos as int), tag) == Ok::<(((Seq<u32>, Seq<u32>), Option<(Seq<u32>, Seq<u32>)>, Option<(Seq<u32>, Seq<u32>)>, (Seq<u32>, Seq<u32>)), Seq<u8>), ReadError>(((v.0.view(), opt_deck_view(v.1), opt_deck_view(v.2), v.3.view()), d@.skip(p as int))),
            Err(e) => take_decks(d@.skip(pos as int), tag) == Err::<(((Seq<u32>, Seq<u32>), Option<(Seq<u32>, Seq<u32>)>, Option<(Seq<u32>, Seq<u32>)>, (Seq<u32>, Seq<u32>)), Seq<u8>), ReadError>(e),
        },
{
    proof {
        reveal(take_decks);
    }
    let (host_deck, p) = ReplayDeck::read_from(d, pos)?;
    let (tag_host_deck, p) = read_opt_deck_from(d, p, tag)?;
    let (tag_client_deck, p) = read_opt_deck_from(d, p, tag)?;
    let (client_deck, p) = ReplayDeck::read_from(d, p)?;
    Ok(((host_deck, tag_host_deck, tag_client_deck, client_deck), p))
}

/// The body of a replay: the duelists' names, the duel's settings, the decks and the
/// recorded answers. The tag duel's second names and decks are there in a tag duel.
#[derive(Clone, Debug)]
pub struct ReplayBody {
    pub host_name: [u16; 20],
    pub tag_host_name: Option<[u16; 20]>,
    pub tag_client_name: Option<[u16; 20]>,
    pub client_name: [u16; 20],
    pub start_lp: u32,
    pub start_hand: u32,
    pub draw_count: u32,
    /// The duel option bits.
    pub duel_options: u16,
    pub duel_rule: u16,
    pub host_deck: ReplayDeck,
    pub tag_host_deck: Option<ReplayDeck>,
    pub tag_client_deck: Option<ReplayDeck>,
    pub client_deck: ReplayDeck,
    pub datas: Vec<ReplayData>,
}

impl ReplayBody {
    /// The body as plain values.
    pub open spec fn view(&self) -> ReplayBodyView {
        ReplayBodyView {
            host_name: self.host_name@,
            tag_host_name: opt_units(self.tag_host_name),
            tag_client_name: opt_units(self.tag_client_name),
            client_name: self.client_name@,
            start_lp: self.start_lp,
            start_hand: self.start_hand,
            draw_count: self.draw_count,
            duel_options: self.duel_options,
            duel_rule: self.duel_rule,
            host_deck: self.host_deck.view(),
            tag_host_deck: opt_deck_view(self.tag_host_deck),
            tag_client_deck: opt_deck_view(self.tag_client_deck),
            client_deck: self.client_deck.view(),
            datas: self.datas@.map_values(|x: ReplayData| x.data@),
        }
    }

    /// Read a body from the bytes `d`, the tag duel's second names and decks when
    /// `tag` holds.
    pub fn read(d: &[u8], tag: bool) -> (r: Result<ReplayBody, ReadError>)
        ensures
            match r {
                Ok(b) => parse_body(d@, tag) == Ok::<ReplayBodyView, ReadError>(b.view()),
                Err(e) => parse_body(d@, tag) == Err::<ReplayBodyView, ReadError>(e),
            },
    {
        let (names, p) = read_names_from(d, tag)?;
        let (settings, p) = read_settings_from(d, p)?;
        let (decks, p) = read_decks_from(d, p, tag)?;
        let (host_name, tag_host_name, tag_client_name, client_name) = names;
        let (start_lp, start_hand, draw_count, duel_options, duel_rule) = settings;
        let (host_deck, tag_host_deck, tag_client_deck, client_deck) = decks;
        let datas = read_records(d, p);
        let b = ReplayBody {
            host_name,
            tag_host_name,
            tag_client_name,
            client_name,
            start_lp,
            start_hand,
            draw_count,
            duel_options,
            duel_rule,
            host_deck,
            tag_host_deck,
            tag_client_deck,
            client_deck,
            datas,
        };
        Ok(b)
    }

    /// Append the bytes of the body, the tag duel's second names and decks when `tag`
    /// holds and they are there.
    pub fn write(&self, out: &mut Vec<u8>, tag: bool)
        ensures
            final(out)@ == old(out)@ + body_bytes(self.view(), tag),
    {
        let ghost start = out@;
        proof {
            reveal(names_bytes);
            reveal(settings_bytes);
            reveal(decks_bytes);
        }
        push_u16s(out, &self.host_name);
        if tag {
            if let Some(n) = &self.tag_host_name {
                push_u16s(out, n);
            }
            if let Some(n) = &self.tag_client_name {
                push_u16s(out, n);
            }
        }
        push_u16s(out, &self.client_name);
        assert(out@ =~= start + names_bytes(self.view(), tag));
        let ghost s1 = out@;
        push_u32(out, self.start_lp);
        push_u32(out, self.start_hand);
        push_u32(out, self.draw_count);
        push_u16(out, self.duel_options);
        push_u16(out, self.duel_rule);
        assert(out@ =~= s1 + settings_bytes(self.view()));
        let ghost s2 = out@;
        self.host_deck.write(out);
        if tag {
            if let Some(k) = &self.tag_host_deck {
                k.write(out);
            }
            if let Some(k) = &self.tag_client_deck {
                k.write(out);
            }
        }
        self.client_deck.write(out);
        assert(out@ =~= s2 + decks_bytes(self.view(), tag));
        let ghost s3 = out@;
        let mut i: usize = 0;
        assert(self.datas@.take(0).map_values(|x: ReplayData| x.data@) =~= Seq::<Seq<u8>>::empty());
        assert(s3 + records_bytes(Seq::<Seq<u8>>::empty()) =~= s3);
        while i < self.datas.len()
            invariant
                i <= self.datas@.len(),
                out@ == s3 + records_bytes(self.datas@.take(i as int).map_values(|x: ReplayData| x.data@)),
            decreases self.datas@.len() - i,
        {
            let ghost before = self.datas@.take(i as int).map_values(|x: ReplayData| x.data@);
            self.datas[i].write(out);
            proof {
                lemma_records_bytes_push(before, self.datas@[i as int].data@);
                assert(self.datas@.take(i + 1).map_values(|x: ReplayData| x.data@) =~= before.push(self.datas@[i as int].data@));
            }
            i = i + 1;
        }
        assert(self.datas@.take(i as int) =~= self.datas@);
        assert(out@ =~= start + body_bytes(self.view(), tag));
    }

    /// Whether the body can be written and read back as itself (see `body_writable`).
    pub open spec fn writable(&self, tag: bool) -> bool {
        body_writable(self.view(), tag)
    }
}

/// The duel option bit of a test duel.
pub const DUEL_OPTION_TEST_MODE: u16 = 0x1;
/// The duel option bit of attacking on the first turn.
pub const DUEL_OPTION_ATTACK_FIRST_TURN: u16 = 0x2;
/// The duel option bit of an old replay.
pub const DUEL_OPTION_OLD_REPLAY: u16 = 0x4;
/// The duel option bit of the obsolete ruling.
pub const DUEL_OPTION_OBSOLETE_RULING: u16 = 0x8;
/// The duel option bit of decks left unshuffled.
pub const DUEL_OPTION_PSEUDO_SHUFFLE: u16 = 0x10;
/// The duel option bit of a tag duel.
pub const DUEL_OPTION_TAG_MODE: u16 = 0x20;
/// The duel option bit of the simple AI.
pub const DUEL_OPTION_SIMPLE_AI: u16 = 0x40;
/// The duel option bit of returning to the deck top.
pub const DUEL_OPTION_RETURN_DECK_TOP: u16 = 0x80;
/// The duel option bit of revealing the deck sequence.
pub const DUEL_OPTION_REVEAL_DECK_SEQUENCE: u16 = 0x100;

/// What `lzma_rs` decompresses `input` to, raw LZMA with its 5-byte header and the
/// unpacked size given apart; none when decompression fails.
pub uninterp spec fn lzma_decompressed(input: Seq<u8>, unpacked_size: u64) -> Option<Seq<u8>>;

/// What `lzma_rs` compresses `input` to, raw LZMA with no unpacked size in its header;
/// none when compression fails.
pub uninterp spec fn lzma_compressed(input: Seq<u8>) -> Option<Seq<u8>>;

/// `lzma_rs::lzma_decompress_with_options` with the unpacked size provided and no
/// memory limit: the decompressed bytes, or none on failure. The result is named, not
/// stated.
#[verifier::external_body]
fn lzma_decompress(input: &[u8], unpacked_size: u64) -> (r: Option<Vec<u8>>)
    ensures
        match r {
            Some(v) => lzma_decompressed(input@, unpacked_size) == Some(v@),
            None => lzma_decompressed(input@, unpacked_size) is None,
        },
{
    let mut reader = std::io::Cursor::new(input);
    let mut output: Vec<u8> = Vec::new();
    let options = lzma_rs::decompress::Options {
        unpacked_size: lzma_rs::decompress::UnpackedSize::UseProvided(Some(unpacked_size)),
        memlimit: None,
        allow_incomplete: false,
    };
    match lzma_rs::lzma_decompress_with_options(&mut reader, &mut output, &options) {
        Ok(()) => Some(output),
        Err(_) => None,
    }
}

/// `lzma_rs::lzma_compress_with_options` with the unpacked size left out of the
/// header: the compressed bytes, or none on failure. The result is named; the encoder
/// writes its 5-byte header (properties and dictionary size) first, so a result holds
/// at least 5 bytes.
#[verifier::external_body]
fn lzma_compress(input: &[u8]) -> (r: Option<Vec<u8>>)
    ensures
        match r {
            Some(v) => lzma_compressed(input@) == Some(v@) && v@.len() >= 5,
            None => lzma_compressed(input@) is None,
        },
{
    let mut reader = std::io::Cursor::new(input);
    let mut output: Vec<u8> = Vec::new();
    let options = lzma_rs::compress::Options { unpacked_size: lzma_rs::compress::UnpackedSize::SkipWritingToHeader };
    match lzma_rs::lzma_compress_with_options(&mut reader, &mut output, &options) {
        Ok(()) => Some(output),
        Err(_) => None,
    }
}

/// Why a replay could not be read or written.
#[derive(Clone, Copy, Debug, PartialEq, Eq, Structural)]
pub enum ReplayError {
    /// The bytes do not hold a replay.
    Read(ReadError),
    /// The compressed body could not be decompressed.
    Decompress,
    /// The body could not be compressed.
    Compress,
}

/// The length of the header the bytes `d` start with: 80 for a second-version replay,
/// 32 otherwise.
pub open spec fn header_len(d: Seq<u8>) -> int {
    if u32_at(d, 0) == REPLAY_V2 {
        80
    } else {
        32
    }
}

/// The body bytes of the replay `d`: what follows the header, decompressed when the
/// header's flag says so (the stream given the first five of the header's properties
/// as its own header, and the header's data size).
pub open spec fn stored_body(d: Seq<u8>) -> Option<Seq<u8>> {
    let rest = d.skip(header_len(d));
    if u32_at(d, 8) & REPLAY_COMPRESSED == REPLAY_COMPRESSED {
        lzma_decompressed(d.subrange(24, 29) + rest, u32_at(d, 16) as u64)
    } else {
        Some(rest)
    }
}

/// How the bytes `d` read as the body of a replay file: the header must be complete;
/// the body is read from its stored bytes, with the tag duel's parts when the header's
/// flag says tag.
pub open spec fn parse_replay_body(d: Seq<u8>) -> Result<ReplayBodyView, ReplayError> {
    if d.len() < header_len(d) {
        Err(ReplayError::Read(ReadError::UnexpectedEnd))
    } else {
        match stored_body(d) {
            None => Err(ReplayError::Decompress),
            Some(b) => match parse_body(b, u32_at(d, 8) & REPLAY_TAG == REPLAY_TAG) {
                Ok(v) => Ok(v),
                Err(e) => Err(ReplayError::Read(e)),
            },
        }
    }
}

/// A replay file: its header and its body.
#[derive(Clone, Debug)]
pub struct Replay {
    pub header: ReplayHeader,
    pub body: ReplayBody,
}

/// The master rule a replay's settings name: the first under the obsolete ruling;
/// otherwise the rule whose number is the low byte of `duel_rule`, the first when none.
pub open spec fn spec_duel_rule(duel_options: u16, duel_rule: u16) -> MasterRule {
    if duel_options & DUEL_OPTION_OBSOLETE_RULING != 0 {
        MasterRule::MasterRule1
    } else {
        match MasterRule::of_code(duel_rule as u8) {
            Some(r) => r,
            None => MasterRule::MasterRule1,
        }
    }
}

impl Replay {
    /// Read a replay file: the header, then the body, decompressed first when the
    /// header says so.
    pub fn read(d: &[u8]) -> (r: Result<Replay, ReplayError>)
        ensures
            match r {
                Ok(rep) => rep.header.is_read_from(d@) && parse_replay_body(d@) == Ok::<ReplayBodyView, ReplayError>(rep.body.view()),
                Err(e) => parse_replay_body(d@) == Err::<ReplayBodyView, ReplayError>(e),
            },
    {
        let header = match ReplayHeader::read(d) {
            Ok(h) => h,
            Err(e) => return Err(ReplayError::Read(e)),
        };
        let start: usize = if header.id == REPLAY_V2 { 80 } else { 32 };
        let rest = vstd::slice::slice_subrange(d, start, d.len());
        assert(rest@ =~= d@.skip(header_len(d@)));
        let tag = header.is_tag();
        let body = if header.is_compressed() {
            let mut input: Vec<u8> = Vec::new();
            let mut i: usize = 0;
            while i < 5
                invariant
                    i <= 5,
                    header.props@.len() == 8,
                    input@ == header.props@.take(i as int),
                decreases 5 - i,
            {
                input.push(header.props[i]);
                i = i + 1;
                assert(input@ =~= header.props@.take(i as int));
            }
            let mut j: usize = 0;
            let ghost head = input@;
            while j < rest.len()
                invariant
                    j <= rest@.len(),
                    input@ == head + rest@.take(j as int),
                decreases rest@.len() - j,
            {
                input.push(rest[j]);
                j = j + 1;
                assert(input@ =~= head + rest@.take(j as int));
            }
            assert(rest@.take(j as int) =~= rest@);
            assert(header.props@.take(5) =~= d@.subrange(24, 29));
            match lzma_decompress(input.as_slice(), header.data_size as u64) {
                Some(bytes) => ReplayBody::read(bytes.as_slice(), tag),
                None => return Err(ReplayError::Decompress),
            }
        } else {
            ReplayBody::read(rest, tag)
        };
        match body {
            Ok(b) => Ok(Replay { header, body: b }),
            Err(e) => Err(ReplayError::Read(e)),
        }
    }

    /// The body's bytes as the file stores them: with the tag duel's parts when the
    /// header says tag.
    pub open spec fn stored_body_bytes(&self) -> Seq<u8> {
        body_bytes(self.body.view(), self.header.flag & REPLAY_TAG == REPLAY_TAG)
    }

    /// Whether `bytes` are the bytes of this replay's file: the header, then the body,
    /// compressed when the header says so, the compressor's own 5-byte header dropped.
    pub open spec fn serialized(&self, bytes: Seq<u8>) -> bool {
        if self.header.flag & REPLAY_COMPRESSED == REPLAY_COMPRESSED {
            lzma_compressed(self.stored_body_bytes()) matches Some(c) && bytes == self.header.bytes() + c.skip(5)
        } else {
            bytes == self.header.bytes() + self.stored_body_bytes()
        }
    }

    /// Whether the body is to be compressed and cannot be.
    pub open spec fn unserializable(&self) -> bool {
        self.header.flag & REPLAY_COMPRESSED == REPLAY_COMPRESSED && lzma_compressed(self.stored_body_bytes()) is None
    }

    /// The bytes of the file: the header, then the body (with the tag duel's parts when
    /// the header says tag), compressed when the header says so, the compressor's own
    /// 5-byte header dropped. Compression failing is the only error.
    pub fn to_bytes(&self) -> (r: Result<Vec<u8>, ReplayError>)
        ensures
            r is Ok <==> !self.unserializable(),
            r matches Ok(v) ==> self.serialized(v@),
            r matches Err(e) ==> e == ReplayError::Compress,
    {
        let mut out: Vec<u8> = Vec::new();
        self.header.write(&mut out);
        assert(out@ == self.header.bytes());
        let tag = self.header.is_tag();
        let mut body: Vec<u8> = Vec::new();
        self.body.write(&mut body, tag);
        assert(body@ =~= body_bytes(self.body.view(), tag));
        if self.header.is_compressed() {
            match lzma_compress(body.as_slice()) {
                Some(c) => {
                    let ghost start = out@;
                    let mut i: usize = 5;
                    assert(c@.skip(5).take(0) =~= Seq::<u8>::empty());
                    while i < c.len()
                        invariant
                            5 <= i <= c@.len(),
                            out@ == start + c@.skip(5).take(i - 5),
                        decreases c@.len() - i,
                    {
                        out.push(c[i]);
                        i = i + 1;
                        assert(out@ =~= start + c@.skip(5).take(i - 5));
                    }
                    assert(c@.skip(5).take(i - 5) =~= c@.skip(5));
                    Ok(out)
                },
                None => Err(ReplayError::Compress),
            }
        } else {
            let ghost start = out@;
            let mut i: usize = 0;
            while i < body.len()
                invariant
                    i <= body@.len(),
                    out@ == start + body@.take(i as int),
                decreases body@.len() - i,
            {
                out.push(body[i]);
                i = i + 1;
                assert(out@ =~= start + body@.take(i as int));
            }
            assert(body@.take(i as int) =~= body@);
            Ok(out)
        }
    }

    /// The master rule of the duel.
    pub fn duel_rule(&self) -> (r: MasterRule)
        ensures
            r == spec_duel_rule(self.body.duel_options, self.body.duel_rule),
    {
        if self.body.duel_options & DUEL_OPTION_OBSOLETE_RULING != 0 {
            MasterRule::MasterRule1
        } else {
            match MasterRule::from_value(self.body.duel_rule as u8) {
                Some(r) => r,
                None => MasterRule::MasterRule1,
            }
        }
    }

    /// Tag when the tag option is set, single otherwise.
    pub fn mode(&self) -> (r: Mode)
        ensures
            r == if self.body.duel_options & DUEL_OPTION_TAG_MODE != 0 {
                Mode::Tag
            } else {
                Mode::Single
            },
    {
        if self.body.duel_options & DUEL_OPTION_TAG_MODE != 0 {
            Mode::Tag
        } else {
            Mode::Single
        }
    }

    /// Whether decks were left unshuffled.
    pub fn no_shuffle_deck(&self) -> (r: bool)
        ensures
            r == (self.body.duel_options & DUEL_OPTION_PSEUDO_SHUFFLE != 0),
    {
        self.body.duel_options & DUEL_OPTION_PSEUDO_SHUFFLE != 0
    }

    /// Whether the duel was a tag duel.
    pub fn is_tag(&self) -> (r: bool)
        ensures
            r == (self.body.duel_options & DUEL_OPTION_TAG_MODE != 0),
    {
        self.body.duel_options & DUEL_OPTION_TAG_MODE != 0
    }

    /// The room settings that replay the duel: no banlist (999), any rule bits clear,
    /// the replay's mode, master rule and shuffling, decks unchecked, its start LP,
    /// hand and draw count (their low bytes), and a time limit of 999.
    pub fn host_info(&self) -> (r: HostInfo)
        ensures
            r == (HostInfo {
                lflist: 999,
                rule: Rule::OCG,
                mode: if self.body.duel_options & DUEL_OPTION_TAG_MODE != 0 {
                    Mode::Tag
                } else {
                    Mode::Single
                },
                duel_rule: spec_duel_rule(self.body.duel_options, self.body.duel_rule),
                no_check_deck: true,
                no_shuffle_deck: self.body.duel_options & DUEL_OPTION_PSEUDO_SHUFFLE != 0,
                start_lp: self.body.start_lp,
                start_hand: self.body.start_hand as u8,
                draw_count: self.body.draw_count as u8,
                time_limit: 999,
            }),
    {
        HostInfo {
            lflist: 999,
            rule: Rule::OCG,
            mode: self.mode(),
            duel_rule: self.duel_rule(),
            no_check_deck: true,
            no_shuffle_deck: self.no_shuffle_deck(),
            start_lp: self.body.start_lp,
            start_hand: self.body.start_hand as u8,
            draw_count: self.body.draw_count as u8,
            time_limit: 999,
        }
    }
}

/// A body read from bytes, written again, reads back as the same body.
pub proof fn lemma_parsed_body_round_trip(d: Seq<u8>, tag: bool)
    ensures
        parse_body(d, tag) matches Ok(b) ==> parse_body(body_bytes(b, tag), tag) == Ok::<
            ReplayBodyView,
            ReadError,
        >(b),
{
    lemma_parsed_body_writable(d, tag);
    if let Ok(b) = parse_body(d, tag) {
        lemma_body_round_trip(b, tag);
    }
}

/// A replay stored uncompressed is read back with the body it was written with.
#[verifier::spinoff_prover]
pub proof fn lemma_replay_round_trip(header: ReplayHeader, body: ReplayBodyView)
    requires
        header.flag & REPLAY_COMPRESSED != REPLAY_COMPRESSED,
        body_writable(body, header.flag & REPLAY_TAG == REPLAY_TAG),
    ensures
        parse_replay_body(header.bytes() + body_bytes(body, header.flag & REPLAY_TAG == REPLAY_TAG))
            == Ok::<ReplayBodyView, ReplayError>(body),
{
    let tag = header.flag & REPLAY_TAG == REPLAY_TAG;
    let hb = header.bytes();
    let bb = body_bytes(body, tag);
    let d = hb + bb;
    header.lemma_bytes();
    assert(d[0] == hb[0] && d[1] == hb[1] && d[2] == hb[2] && d[3] == hb[3]);
    assert(d[8] == hb[8] && d[9] == hb[9] && d[10] == hb[10] && d[11] == hb[11]);
    assert(u32_at(d, 0) == header.id);
    assert(u32_at(d, 8) == header.flag);
    assert(header_len(d) == hb.len());
    assert(d.skip(header_len(d)) =~= bb);
    lemma_body_round_trip(body, tag);
}

/// A replay stored compressed is read back with the body it was written with, whenever
/// the decompressor, handed the header's first five properties, what the compressor
/// wrote after its own 5-byte header, and the header's data size, gives back the body's
/// bytes that the compressor was handed.
#[verifier::spinoff_prover]
#[verifier::rlimit(40)]
pub proof fn lemma_compressed_replay_round_trip(header: ReplayHeader, body: ReplayBodyView, c: Seq<u8>)
    requires
        header.flag & REPLAY_COMPRESSED == REPLAY_COMPRESSED,
        body_writable(body, header.flag & REPLAY_TAG == REPLAY_TAG),
        lzma_compressed(body_bytes(body, header.flag & REPLAY_TAG == REPLAY_TAG)) == Some(c),
        lzma_decompressed(header.props@.take(5) + c.skip(5), header.data_size as u64) == Some(
            body_bytes(body, header.flag & REPLAY_TAG == REPLAY_TAG),
        ),
    ensures
        parse_replay_body(header.bytes() + c.skip(5)) == Ok::<ReplayBodyView, ReplayError>(body),
{
    let tag = header.flag & REPLAY_TAG == REPLAY_TAG;
    let hb = header.bytes();
    let d = hb + c.skip(5);
    header.lemma_bytes();
    assert(d[0] == hb[0] && d[1] == hb[1] && d[2] == hb[2] && d[3] == hb[3]);
    assert(d[8] == hb[8] && d[9] == hb[9] && d[10] == hb[10] && d[11] == hb[11]);
    assert(d[16] == hb[16] && d[17] == hb[17] && d[18] == hb[18] && d[19] == hb[19]);
    assert(u32_at(d, 0) == header.id);
    assert(u32_at(d, 8) == header.flag);
    assert(u32_at(d, 16) == header.data_size);
    assert(header_len(d) == hb.len());
    assert(d.skip(header_len(d)) =~= c.skip(5));
    assert(d.subrange(24, 29) =~= header.props@.take(5)) by {
        assert(hb.subrange(24, 32) == header.props@);
        assert forall|k: int| 0 <= k < 5 implies d.subrange(24, 29)[k] == header.props@.take(5)[k] by {
            assert(d[24 + k] == hb[24 + k]);
            assert(hb.subrange(24, 32)[k] == hb[24 + k]);
        }
    }
    lemma_body_round_trip(body, tag);
}

} // verus!
