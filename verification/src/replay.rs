//! The header of a replay file and the records of its body.
use vstd::prelude::*;

use crate::bytes::{lemma_push32, push32, put_u32, read_u32, u32_at, ReadError};

verus! {

/// The number of seeds a replay header keeps.
pub const SIZE_REPLAY_SEED: usize = 8;

/// The id of a first-version replay (`yrp1`).
pub const REPLAY_V1: u32 = 0x31707279;

/// The id of a second-version replay (`yrp2`), whose header also keeps the seeds.
pub const REPLAY_V2: u32 = 0x32707279;

/// The header flag of a compressed body.
pub const REPLAY_COMPRESSED: u32 = 1;
/// The header flag of a tag duel.
pub const REPLAY_TAG: u32 = 2;
/// The header flag of a decoded replay.
pub const REPLAY_DECODE: u32 = 4;
/// The header flag of a single-mode replay.
pub const REPLAY_SINGLE_MODE: u32 = 8;
/// The header flag of a uniform replay.
pub const REPLAY_UNIFORM: u32 = 16;

/// The header of a replay file. The seeds, header version and reserved words are on
/// the wire only for a second-version replay.
#[derive(Clone, Copy, Debug)]
pub struct ReplayHeader {
    pub id: u32,
    pub version: u32,
    /// The header flag bits.
    pub flag: u32,
    pub seed: u32,
    pub data_size: u32,
    pub start_time: u32,
    pub props: [u8; 8],
    pub seed_sequence: [u32; SIZE_REPLAY_SEED],
    pub header_version: u32,
    pub reserved: [u32; 3],
}

impl ReplayHeader {
    /// Whether the body is compressed.
    pub fn is_compressed(&self) -> (r: bool)
        ensures
            r == (self.flag & REPLAY_COMPRESSED == REPLAY_COMPRESSED),
    {
        self.flag & REPLAY_COMPRESSED == REPLAY_COMPRESSED
    }

    /// Whether the replay is of a tag duel.
    pub fn is_tag(&self) -> (r: bool)
        ensures
            r == (self.flag & REPLAY_TAG == REPLAY_TAG),
    {
        self.flag & REPLAY_TAG == REPLAY_TAG
    }

    /// Whether the replay is decoded.
    pub fn is_decoded(&self) -> (r: bool)
        ensures
            r == (self.flag & REPLAY_DECODE == REPLAY_DECODE),
    {
        self.flag & REPLAY_DECODE == REPLAY_DECODE
    }

    /// Whether the replay is in single mode.
    pub fn is_single_mode(&self) -> (r: bool)
        ensures
            r == (self.flag & REPLAY_SINGLE_MODE == REPLAY_SINGLE_MODE),
    {
        self.flag & REPLAY_SINGLE_MODE == REPLAY_SINGLE_MODE
    }

    /// Whether the replay is uniform.
    pub fn is_uniform(&self) -> (r: bool)
        ensures
            r == (self.flag & REPLAY_UNIFORM == REPLAY_UNIFORM),
    {
        self.flag & REPLAY_UNIFORM == REPLAY_UNIFORM
    }

    /// `s` followed by the 32 bytes every header has.
    pub open spec fn base_bytes_after(self, s: Seq<u8>) -> Seq<u8> {
        push32(push32(push32(push32(push32(push32(s, self.id), self.version), self.flag), self.seed), self.data_size), self.start_time).push(self.props[0]).push(self.props[1]).push(self.props[2]).push(self.props[3]).push(self.props[4]).push(self.props[5]).push(self.props[6]).push(self.props[7])
    }

    /// `s` followed by the 48 bytes only a second-version header has.
    pub open spec fn v2_bytes_after(self, s: Seq<u8>) -> Seq<u8> {
        push32(push32(push32(push32(push32(push32(push32(push32(push32(push32(push32(push32(s, self.seed_sequence[0]), self.seed_sequence[1]), self.seed_sequence[2]), self.seed_sequence[3]), self.seed_sequence[4]), self.seed_sequence[5]), self.seed_sequence[6]), self.seed_sequence[7]), self.header_version), self.reserved[0]), self.reserved[1]), self.reserved[2])
    }

    /// The wire bytes of the header.
    pub open spec fn bytes(self) -> Seq<u8> {
        let b = self.base_bytes_after(Seq::empty());
        if self.id == REPLAY_V2 {
            self.v2_bytes_after(b)
        } else {
            b
        }
    }

    /// Append the wire bytes of the header.
    pub fn write(&self, out: &mut Vec<u8>)
        ensures
            final(out)@ == if self.id == REPLAY_V2 {
                self.v2_bytes_after(self.base_bytes_after(old(out)@))
            } else {
                self.base_bytes_after(old(out)@)
            },
    {
        put_u32(out, self.id);
        put_u32(out, self.version);
        put_u32(out, self.flag);
        put_u32(out, self.seed);
        put_u32(out, self.data_size);
        put_u32(out, self.start_time);
        out.push(self.props[0]);
        out.push(self.props[1]);
        out.push(self.props[2]);
        out.push(self.props[3]);
        out.push(self.props[4]);
        out.push(self.props[5]);
        out.push(self.props[6]);
        out.push(self.props[7]);
        if self.id == REPLAY_V2 {
            put_u32(out, self.seed_sequence[0]);
            put_u32(out, self.seed_sequence[1]);
            put_u32(out, self.seed_sequence[2]);
            put_u32(out, self.seed_sequence[3]);
            put_u32(out, self.seed_sequence[4]);
            put_u32(out, self.seed_sequence[5]);
            put_u32(out, self.seed_sequence[6]);
            put_u32(out, self.seed_sequence[7]);
            put_u32(out, self.header_version);
            put_u32(out, self.reserved[0]);
            put_u32(out, self.reserved[1]);
            put_u32(out, self.reserved[2]);
        }
    }

    /// Whether this header is what the bytes `d` hold: its words as laid out, and, for a
    /// first-version header, 0 for the words it lacks.
    pub open spec fn is_read_from(self, d: Seq<u8>) -> bool {
        &&& self.id == u32_at(d, 0)
        &&& self.version == u32_at(d, 4)
        &&& self.flag == u32_at(d, 8)
        &&& self.seed == u32_at(d, 12)
        &&& self.data_size == u32_at(d, 16)
        &&& self.start_time == u32_at(d, 20)
        &&& self.props@ == d.subrange(24, 32)
        &&& self.id == REPLAY_V2 ==> {
            &&& self.seed_sequence@ == seq![u32_at(d, 32), u32_at(d, 36), u32_at(d, 40), u32_at(d, 44), u32_at(d, 48), u32_at(d, 52), u32_at(d, 56), u32_at(d, 60)]
            &&& self.header_version == u32_at(d, 64)
            &&& self.reserved@ == seq![u32_at(d, 68), u32_at(d, 72), u32_at(d, 76)]
        }
        &&& self.id != REPLAY_V2 ==> {
            &&& self.seed_sequence@ == seq![0u32, 0, 0, 0, 0, 0, 0, 0]
            &&& self.header_version == 0
            &&& self.reserved@ == seq![0u32, 0, 0]
        }
    }

    /// Read a header from the bytes `d`: 32 bytes, then for a second-version replay 48
    /// more; the words a first-version header lacks are 0.
    pub fn read(d: &[u8]) -> (r: Result<ReplayHeader, ReadError>)
        ensures
            r is Err <==> (d@.len() < 32 || (d@.len() < 80 && u32_at(d@, 0) == REPLAY_V2)),
            r matches Err(e) ==> e == ReadError::UnexpectedEnd,
            r matches Ok(h) ==> h.is_read_from(d@),
    {
        if d.len() < 32 {
            return Err(ReadError::UnexpectedEnd);
        }
        let id = read_u32(d, 0);
        if id == REPLAY_V2 && d.len() < 80 {
            return Err(ReadError::UnexpectedEnd);
        }
        let v2 = id == REPLAY_V2;
        let props = [d[24], d[25], d[26], d[27], d[28], d[29], d[30], d[31]];
        assert(props@ =~= d@.subrange(24, 32));
        let seed_sequence = if v2 {
            let a = [
                read_u32(d, 32),
                read_u32(d, 36),
                read_u32(d, 40),
                read_u32(d, 44),
                read_u32(d, 48),
                read_u32(d, 52),
                read_u32(d, 56),
                read_u32(d, 60),
            ];
            assert(a@ =~= seq![u32_at(d@, 32), u32_at(d@, 36), u32_at(d@, 40), u32_at(d@, 44), u32_at(d@, 48), u32_at(d@, 52), u32_at(d@, 56), u32_at(d@, 60)]);
            a
        } else {
            let a = [0u32, 0, 0, 0, 0, 0, 0, 0];
            assert(a@ =~= seq![0u32, 0, 0, 0, 0, 0, 0, 0]);
            a
        };
        let reserved = if v2 {
            let a = [read_u32(d, 68), read_u32(d, 72), read_u32(d, 76)];
            assert(a@ =~= seq![u32_at(d@, 68), u32_at(d@, 72), u32_at(d@, 76)]);
            a
        } else {
            let a = [0u32, 0, 0];
            assert(a@ =~= seq![0u32, 0, 0]);
            a
        };
        Ok(ReplayHeader {
            id,
            version: read_u32(d, 4),
            flag: read_u32(d, 8),
            seed: read_u32(d, 12),
            data_size: read_u32(d, 16),
            start_time: read_u32(d, 20),
            props,
            seed_sequence,
            header_version: if v2 {
                read_u32(d, 64)
            } else {
                0
            },
            reserved,
        })
    }
}

/// One record of a replay body: a length byte and that many bytes.
#[derive(Clone, Debug)]
pub struct ReplayData {
    pub data: Vec<u8>,
}

impl ReplayData {
    /// The wire bytes of the record (the length byte is the low byte of the length).
    pub open spec fn bytes(self) -> Seq<u8> {
        seq![(self.data@.len() % 256) as u8] + self.data@
    }

    /// Append the wire bytes of the record.
    pub fn write(&self, out: &mut Vec<u8>)
        ensures
            final(out)@ == old(out)@ + self.bytes(),
    {
        let ghost start = out@;
        out.push((self.data.len() % 256) as u8);
        let mut i: usize = 0;
        while i < self.data.len()
            invariant
                i <= self.data@.len(),
                out@ == start + seq![(self.data@.len() % 256) as u8] + self.data@.take(i as int),
            decreases self.data@.len() - i,
        {
            out.push(self.data[i]);
            i = i + 1;
            assert(out@ =~= start + seq![(self.data@.len() % 256) as u8] + self.data@.take(i as int));
        }
        assert(self.data@.take(i as int) =~= self.data@);
        assert(out@ =~= start + self.bytes());
    }

    /// Read a record from the bytes `d`, with the number of bytes it took.
    pub fn read(d: &[u8]) -> (r: Result<(ReplayData, usize), ReadError>)
        ensures
            match r {
                Ok((x, n)) => d@.len() >= 1 && n == 1 + d@[0] && n <= d@.len() && x.data@ == d@.subrange(1, n as int),
                Err(e) => e == ReadError::UnexpectedEnd && (d@.len() == 0 || d@.len() < 1 + d@[0]),
            },
    {
        if d.len() == 0 {
            return Err(ReadError::UnexpectedEnd);
        }
        let n = d[0] as usize;
        if d.len() - 1 < n {
            return Err(ReadError::UnexpectedEnd);
        }
        let mut data: Vec<u8> = Vec::new();
        let mut i: usize = 0;
        while i < n
            invariant
                i <= n,
                n < d@.len(),
                data@ == d@.subrange(1, 1 + i as int),
            decreases n - i,
        {
            data.push(d[1 + i]);
            i = i + 1;
            assert(data@ =~= d@.subrange(1, 1 + i as int));
        }
        Ok((ReplayData { data }, n + 1))
    }

    /// A record of at most 255 bytes written and read back is the same record.
    pub proof fn lemma_round_trip(self)
        requires
            self.data@.len() <= 255,
        ensures
            self.bytes().len() == 1 + self.data@.len(),
            self.bytes()[0] == self.data@.len(),
            self.bytes().subrange(1, 1 + self.data@.len() as int) == self.data@,
    {
        assert(self.bytes().subrange(1, 1 + self.data@.len() as int) =~= self.data@);
    }
}

impl ReplayHeader {
    /// The header's bytes: 80 for a second-version replay, 32 otherwise; its id, flag
    /// and data size are where a reader looks for them, and its properties follow.
    pub proof fn lemma_bytes(self)
        ensures
            self.bytes().len() == if self.id == REPLAY_V2 { 80int } else { 32int },
            u32_at(self.bytes(), 0) == self.id,
            u32_at(self.bytes(), 8) == self.flag,
            u32_at(self.bytes(), 16) == self.data_size,
            self.bytes().subrange(24, 32) == self.props@,
    {
        let s0 = Seq::<u8>::empty();
        let s1 = push32(s0, self.id);
        let s2 = push32(s1, self.version);
        let s3 = push32(s2, self.flag);
        let s4 = push32(s3, self.seed);
        let s5 = push32(s4, self.data_size);
        let s6 = push32(s5, self.start_time);
        lemma_push32(s0, self.id);
        lemma_push32(s1, self.version);
        lemma_push32(s2, self.flag);
        lemma_push32(s3, self.seed);
        lemma_push32(s4, self.data_size);
        lemma_push32(s5, self.start_time);
        let b = self.base_bytes_after(s0);
        assert(b.len() == 32);
        assert(b.subrange(0, 24) =~= s6);
        assert(s6.subrange(0, 20) =~= s5);
        assert(s5.subrange(0, 16) =~= s4);
        assert(s4.subrange(0, 12) =~= s3);
        assert(s3.subrange(0, 8) =~= s2);
        assert(s2.subrange(0, 4) =~= s1);
        assert(b[0] == s1[0] && b[1] == s1[1] && b[2] == s1[2] && b[3] == s1[3]);
        assert(b[8] == s3[8] && b[9] == s3[9] && b[10] == s3[10] && b[11] == s3[11]);
        assert(b[16] == s5[16] && b[17] == s5[17] && b[18] == s5[18] && b[19] == s5[19]);
        assert(b.subrange(24, 32) =~= self.props@);
        if self.id == REPLAY_V2 {
            let v = self.v2_bytes_after(b);
            lemma_v2_prefix(self, b);
            assert(v[0] == b[0] && v[1] == b[1] && v[2] == b[2] && v[3] == b[3]);
            assert(v[8] == b[8] && v[9] == b[9] && v[10] == b[10] && v[11] == b[11]);
            assert(v[16] == b[16] && v[17] == b[17] && v[18] == b[18] && v[19] == b[19]);
            assert(v.subrange(24, 32) =~= b.subrange(24, 32));
        }
    }
}

/// The second-version words are appended after the bytes given.
proof fn lemma_v2_prefix(h: ReplayHeader, b: Seq<u8>)
    ensures
        h.v2_bytes_after(b).len() == b.len() + 48,
        h.v2_bytes_after(b).subrange(0, b.len() as int) == b,
{
    let t1 = push32(b, h.seed_sequence[0]);
    let t2 = push32(t1, h.seed_sequence[1]);
    let t3 = push32(t2, h.seed_sequence[2]);
    let t4 = push32(t3, h.seed_sequence[3]);
    let t5 = push32(t4, h.seed_sequence[4]);
    let t6 = push32(t5, h.seed_sequence[5]);
    let t7 = push32(t6, h.seed_sequence[6]);
    let t8 = push32(t7, h.seed_sequence[7]);
    let t9 = push32(t8, h.header_version);
    let t10 = push32(t9, h.reserved[0]);
    let t11 = push32(t10, h.reserved[1]);
    let t12 = push32(t11, h.reserved[2]);
    assert(t12 == h.v2_bytes_after(b));
    assert(t12.subrange(0, b.len() as int) =~= b);
}

} // verus!
