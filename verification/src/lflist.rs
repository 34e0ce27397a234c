//! Forbidden and limited lists (`lflist.conf`): their model, their hash and their
//! parser.
use vstd::prelude::*;

use crate::text::{
    lines_of, parse_decimal, parse_unsigned, split_lines, split_words, string_from_chars, trim,
    trim_chars, words, chars_of,
};

verus! {

/// The hash of an empty list.
pub const HASH_INITIAL_VALUE: u32 = 0x7dfcee6a;

/// Mixed into the hash of a list with a genesys point limit.
pub const GENESYS_HASH_MARKER: u32 = 0x43524544;

/// The 32-bit FNV-1a hash of a byte string.
pub open spec fn fnv1a(bytes: Seq<u8>) -> u32
    decreases bytes.len(),
{
    if bytes.len() == 0 {
        2166136261u32
    } else {
        (fnv1a(bytes.drop_last()) ^ (bytes.last() as u32)).wrapping_mul(16777619u32)
    }
}

/// The bytes of the word `genesys`.
pub open spec fn genesys_word() -> Seq<u8> {
    seq![103u8, 101u8, 110u8, 101u8, 115u8, 121u8, 115u8]
}

/// The key that marks genesys entries in a list hash: the FNV-1a hash of `genesys`.
pub fn genesys_hash_key() -> (r: u32)
    ensures
        r == fnv1a(genesys_word()),
{
    let word: [u8; 7] = [103u8, 101u8, 110u8, 101u8, 115u8, 121u8, 115u8];
    let mut h: u32 = 2166136261u32;
    let mut i: usize = 0;
    assert(word@ == genesys_word());
    while i < 7
        invariant
            i <= 7,
            word@ == genesys_word(),
            h == fnv1a(genesys_word().take(i as int)),
        decreases 7 - i,
    {
        assert(genesys_word().take(i + 1).drop_last() =~= genesys_word().take(i as int));
        h = (h ^ (word[i] as u32)).wrapping_mul(16777619u32);
        i = i + 1;
    }
    assert(genesys_word().take(7) =~= genesys_word());
    h
}

/// What a limit entry `(code, count)` contributes to the hash.
pub open spec fn content_term(code: u32, ct: u8) -> u32 {
    ((code << 18u32) | (code >> 14u32)) ^ ((code << ((27 + ct) as u32)) | (code >> ((5
        - ct) as u32)))
}

/// What a genesys entry `(code, points)` contributes to the hash.
pub open spec fn genesys_term(code: u32, points: u32, key: u32) -> u32 {
    ((code << 18u32) | (code >> 14u32)) ^ ((key << 9u32) | (key >> 23u32)) ^ ((points << 27u32)
        | (points >> 5u32))
}

/// What a genesys point limit contributes to the hash (nothing when there is none).
pub open spec fn genesys_limit_term(genesys: u32, key: u32) -> u32 {
    if genesys > 0 {
        ((key << 18u32) | (key >> 14u32)) ^ ((genesys << 9u32) | (genesys >> 23u32)) ^ ((
        GENESYS_HASH_MARKER << 27u32) | (GENESYS_HASH_MARKER >> 5u32))
    } else {
        0
    }
}

/// `h` combined with the terms of limit entries.
pub open spec fn content_hash(h: u32, entries: Seq<(u32, u8)>) -> u32
    decreases entries.len(),
{
    if entries.len() == 0 {
        h
    } else {
        content_hash(h, entries.drop_last()) ^ content_term(
            entries.last().0,
            entries.last().1,
        )
    }
}

/// `h` combined with the terms of genesys entries.
pub open spec fn genesys_hash(h: u32, entries: Seq<(u32, u32)>, key: u32) -> u32
    decreases entries.len(),
{
    if entries.len() == 0 {
        h
    } else {
        genesys_hash(h, entries.drop_last(), key) ^ genesys_term(
            entries.last().0,
            entries.last().1,
            key,
        )
    }
}

/// The hash of a list: the initial value combined with the genesys limit, every
/// limit entry and every genesys entry.
pub open spec fn list_hash(content: Seq<(u32, u8)>, genesys: u32, glist: Seq<(u32, u32)>) -> u32 {
    let key = fnv1a(genesys_word());
    genesys_hash(
        content_hash(HASH_INITIAL_VALUE ^ genesys_limit_term(genesys, key), content),
        glist,
        key,
    )
}

/// Combining `h` with the terms of some entries is combining it with all the terms but
/// one, then with that one.
proof fn lemma_content_hash_remove(h: u32, s: Seq<(u32, u8)>, k: int)
    requires
        0 <= k < s.len(),
    ensures
        content_hash(h, s) == content_hash(h, s.remove(k)) ^ content_term(s[k].0, s[k].1),
    decreases s.len(),
{
    if k == s.len() - 1 {
        assert(s.remove(k) =~= s.drop_last());
    } else {
        let d = s.drop_last();
        lemma_content_hash_remove(h, d, k);
        assert(s.remove(k).drop_last() =~= d.remove(k));
        assert(s.remove(k).last() == s.last());
        let a = content_hash(h, d.remove(k));
        let tk = content_term(s[k].0, s[k].1);
        let tl = content_term(s.last().0, s.last().1);
        assert((a ^ tk) ^ tl == (a ^ tl) ^ tk) by (bit_vector);
    }
}

/// The hash of limit entries does not depend on their order.
proof fn lemma_content_hash_permutation(h: u32, a: Seq<(u32, u8)>, b: Seq<(u32, u8)>)
    requires
        a.to_multiset() == b.to_multiset(),
    ensures
        content_hash(h, a) == content_hash(h, b),
    decreases a.len(),
{
    broadcast use vstd::seq_lib::group_to_multiset_ensures;

    if a.len() == 0 {
        assert(b.to_multiset().len() == 0);
        assert(b.len() == 0);
    } else {
        let x = a.last();
        let d = a.drop_last();
        assert(a =~= d.push(x));
        assert(a.to_multiset() =~= d.to_multiset().insert(x));
        assert(b.to_multiset().count(x) > 0);
        assert(b.contains(x));
        let k = choose|k: int| 0 <= k < b.len() && b[k] == x;
        assert(b.remove(k).to_multiset() =~= b.to_multiset().remove(x));
        assert(d.to_multiset() =~= a.to_multiset().remove(x));
        lemma_content_hash_permutation(h, d, b.remove(k));
        lemma_content_hash_remove(h, b, k);
    }
}

/// Combining with genesys entries: all the terms but one, then that one.
proof fn lemma_genesys_hash_remove(h: u32, s: Seq<(u32, u32)>, key: u32, k: int)
    requires
        0 <= k < s.len(),
    ensures
        genesys_hash(h, s, key) == genesys_hash(h, s.remove(k), key) ^ genesys_term(s[k].0, s[k].1, key),
    decreases s.len(),
{
    if k == s.len() - 1 {
        assert(s.remove(k) =~= s.drop_last());
    } else {
        let d = s.drop_last();
        lemma_genesys_hash_remove(h, d, key, k);
        assert(s.remove(k).drop_last() =~= d.remove(k));
        assert(s.remove(k).last() == s.last());
        let a = genesys_hash(h, d.remove(k), key);
        let tk = genesys_term(s[k].0, s[k].1, key);
        let tl = genesys_term(s.last().0, s.last().1, key);
        assert((a ^ tk) ^ tl == (a ^ tl) ^ tk) by (bit_vector);
    }
}

/// The hash of genesys entries does not depend on their order.
proof fn lemma_genesys_hash_permutation(h: u32, a: Seq<(u32, u32)>, b: Seq<(u32, u32)>, key: u32)
    requires
        a.to_multiset() == b.to_multiset(),
    ensures
        genesys_hash(h, a, key) == genesys_hash(h, b, key),
    decreases a.len(),
{
    broadcast use vstd::seq_lib::group_to_multiset_ensures;

    if a.len() == 0 {
        assert(b.to_multiset().len() == 0);
        assert(b.len() == 0);
    } else {
        let x = a.last();
        let d = a.drop_last();
        assert(a =~= d.push(x));
        assert(a.to_multiset() =~= d.to_multiset().insert(x));
        assert(b.to_multiset().count(x) > 0);
        assert(b.contains(x));
        let k = choose|k: int| 0 <= k < b.len() && b[k] == x;
        assert(b.remove(k).to_multiset() =~= b.to_multiset().remove(x));
        assert(d.to_multiset() =~= a.to_multiset().remove(x));
        lemma_genesys_hash_permutation(h, d, b.remove(k), key);
        lemma_genesys_hash_remove(h, b, key, k);
    }
}

/// Combining with genesys entries is combining with what they give on their own.
proof fn lemma_genesys_hash_xor(h: u32, s: Seq<(u32, u32)>, key: u32)
    ensures
        genesys_hash(h, s, key) == h ^ genesys_hash(0, s, key),
    decreases s.len(),
{
    if s.len() == 0 {
        assert(h ^ 0u32 == h) by (bit_vector);
    } else {
        lemma_genesys_hash_xor(h, s.drop_last(), key);
        let a = genesys_hash(0, s.drop_last(), key);
        let x = genesys_term(s.last().0, s.last().1, key);
        assert((h ^ a) ^ x == h ^ (a ^ x)) by (bit_vector);
    }
}

/// Allowing one more copy of a card changes what it gives to the hash, for any card code
/// but 0 and 0xFFFFFFFF (whose bits read the same however they are turned).
proof fn lemma_content_term_count(code: u32, ct: u8)
    requires
        ct < 4,
        code != 0,
        code != 0xFFFF_FFFF,
    ensures
        content_term(code, ct) != content_term(code, (ct + 1) as u8),
{
    let a = (code << 18u32) | (code >> 14u32);
    if ct == 0 {
        assert(code != 0 && code != 0xFFFF_FFFF ==> a ^ ((code << 27u32) | (code >> 5u32)) != a ^ ((code
            << 28u32) | (code >> 4u32))) by (bit_vector);
    } else if ct == 1 {
        assert(code != 0 && code != 0xFFFF_FFFF ==> a ^ ((code << 28u32) | (code >> 4u32)) != a ^ ((code
            << 29u32) | (code >> 3u32))) by (bit_vector);
    } else if ct == 2 {
        assert(code != 0 && code != 0xFFFF_FFFF ==> a ^ ((code << 29u32) | (code >> 3u32)) != a ^ ((code
            << 30u32) | (code >> 2u32))) by (bit_vector);
    } else {
        assert(code != 0 && code != 0xFFFF_FFFF ==> a ^ ((code << 30u32) | (code >> 2u32)) != a ^ ((code
            << 31u32) | (code >> 1u32))) by (bit_vector);
    }
}

/// Two lists that differ only in how many copies of one card they allow, one more in
/// the second (up to 4), have different hashes, for any card code but 0 and 0xFFFFFFFF.
pub proof fn law_list_hash_tells_counts_apart(content: Seq<(u32, u8)>, k: int, genesys: u32, glist: Seq<(u32, u32)>)
    requires
        0 <= k < content.len(),
        content[k].1 < 4,
        content[k].0 != 0,
        content[k].0 != 0xFFFF_FFFF,
    ensures
        list_hash(content, genesys, glist) != list_hash(
            content.update(k, (content[k].0, (content[k].1 + 1) as u8)),
            genesys,
            glist,
        ),
{
    let key = fnv1a(genesys_word());
    let h = HASH_INITIAL_VALUE ^ genesys_limit_term(genesys, key);
    let (code, ct) = content[k];
    let other = content.update(k, (code, (ct + 1) as u8));
    lemma_content_hash_remove(h, content, k);
    lemma_content_hash_remove(h, other, k);
    assert(other.remove(k) =~= content.remove(k));
    lemma_content_term_count(code, ct);
    let r = content_hash(h, content.remove(k));
    let t1 = content_term(code, ct);
    let t2 = content_term(code, (ct + 1) as u8);
    assert(t1 != t2 ==> r ^ t1 != r ^ t2) by (bit_vector);
    let g = genesys_hash(0, glist, key);
    lemma_genesys_hash_xor(r ^ t1, glist, key);
    lemma_genesys_hash_xor(r ^ t2, glist, key);
    assert(r ^ t1 != r ^ t2 ==> (r ^ t1) ^ g != (r ^ t2) ^ g) by (bit_vector);
}

/// The hash of a list that limits the card 14558127 to one copy.
pub proof fn law_list_hash_of_one_limited_card()
    ensures
        list_hash(seq![(14558127u32, 1u8)], 0, Seq::empty()) == 0x034d0f28u32,
{
    let key = fnv1a(genesys_word());
    let s = seq![(14558127u32, 1u8)];
    assert(s.drop_last() =~= Seq::<(u32, u8)>::empty());
    let h = HASH_INITIAL_VALUE ^ 0u32;
    assert(content_hash(h, s.drop_last()) == h);
    assert(s.last() == (14558127u32, 1u8));
    assert(content_hash(h, s) == h ^ content_term(14558127u32, 1u8));
    let c = 14558127u32;
    assert(0x7dfcee6au32 ^ 0u32 ^ (((c << 18u32) | (c >> 14u32)) ^ ((c << 28u32) | (c >> 4u32)))
        == 0x034d0f28u32) by (bit_vector)
        requires
            c == 14558127u32,
    ;
}

/// The hash of a list does not depend on the order of its entries: lists with the same
/// limit entries and the same genesys entries, in any order, have the same hash.
pub proof fn lemma_list_hash_order_independent(
    content1: Seq<(u32, u8)>,
    content2: Seq<(u32, u8)>,
    genesys: u32,
    glist1: Seq<(u32, u32)>,
    glist2: Seq<(u32, u32)>,
)
    requires
        content1.to_multiset() == content2.to_multiset(),
        glist1.to_multiset() == glist2.to_multiset(),
    ensures
        list_hash(content1, genesys, glist1) == list_hash(content2, genesys, glist2),
{
    let key = fnv1a(genesys_word());
    let h = HASH_INITIAL_VALUE ^ genesys_limit_term(genesys, key);
    lemma_content_hash_permutation(h, content1, content2);
    lemma_genesys_hash_permutation(content_hash(h, content1), glist1, glist2, key);
}

/// The value of the first entry with key `k`.
pub open spec fn lookup<V>(entries: Seq<(u32, V)>, k: u32) -> Option<V>
    decreases entries.len(),
{
    if entries.len() == 0 {
        None
    } else if entries[0].0 == k {
        Some(entries[0].1)
    } else {
        lookup(entries.drop_first(), k)
    }
}

/// No key occurs twice.
pub open spec fn distinct_keys<V>(entries: Seq<(u32, V)>) -> bool {
    forall|i: int, j: int|
        0 <= i < entries.len() && 0 <= j < entries.len() && i != j ==> #[trigger] entries[i].0
            != #[trigger] entries[j].0
}

/// The entries with `(k, v)` put in: in place of the entry with key `k`, or at the end.
pub open spec fn entries_insert<V>(entries: Seq<(u32, V)>, k: u32, v: V) -> Seq<(u32, V)> {
    if exists|i: int| 0 <= i < entries.len() && entries[i].0 == k {
        let i = choose|i: int| 0 <= i < entries.len() && entries[i].0 == k;
        entries.update(i, (k, v))
    } else {
        entries.push((k, v))
    }
}

/// A limit list.
pub struct LFList {
    /// The hash that identifies the list to clients.
    pub hash: u32,
    /// The list name.
    pub name: String,
    /// How many copies each limited card may have (0, 1 or 2), one entry per card.
    pub content: Vec<(u32, u8)>,
    /// The genesys point limit of a deck, or 0 when the list has none.
    pub genesys: u32,
    /// The genesys points of each card that has some, one entry per card.
    pub glist: Vec<(u32, u32)>,
}

impl LFList {
    /// The entries of the list are well formed: one entry per card, and counts small
    /// enough for the hash.
    pub open spec fn wf(&self) -> bool {
        &&& distinct_keys(self.content@)
        &&& distinct_keys(self.glist@)
        &&& forall|i: int| 0 <= i < self.content@.len() ==> #[trigger] self.content@[i].1 <= 4
    }

    /// An empty list with the given name.
    pub fn new(name: String) -> (r: LFList)
        ensures
            r.hash == HASH_INITIAL_VALUE,
            r.name == name,
            r.content@.len() == 0,
            r.genesys == 0,
            r.glist@.len() == 0,
            r.wf(),
    {
        LFList { hash: HASH_INITIAL_VALUE, name, content: Vec::new(), genesys: 0, glist: Vec::new() }
    }

    /// A list with the given entries, and its hash.
    pub fn from(name: String, content: Vec<(u32, u8)>, genesys: u32, glist: Vec<(u32, u32)>) -> (r:
        LFList)
        requires
            distinct_keys(content@),
            distinct_keys(glist@),
            forall|i: int| 0 <= i < content@.len() ==> #[trigger] content@[i].1 <= 4,
        ensures
            r.hash == list_hash(content@, genesys, glist@),
            r.name == name,
            r.content@ == content@,
            r.genesys == genesys,
            r.glist@ == glist@,
            r.wf(),
    {
        let key = genesys_hash_key();
        let mut hash: u32 = HASH_INITIAL_VALUE;
        if genesys > 0 {
            hash = hash ^ (((key << 18u32) | (key >> 14u32)) ^ ((genesys << 9u32) | (genesys
                >> 23u32)) ^ ((GENESYS_HASH_MARKER << 27u32) | (GENESYS_HASH_MARKER >> 5u32)));
        } else {
            assert(hash ^ 0 == hash) by (bit_vector);
        }
        let ghost h0 = hash;
        assert(h0 == HASH_INITIAL_VALUE ^ genesys_limit_term(genesys, key));
        let mut i: usize = 0;
        while i < content.len()
            invariant
                i <= content.len(),
                forall|k: int| 0 <= k < content@.len() ==> #[trigger] content@[k].1 <= 4,
                hash == content_hash(h0, content@.take(i as int)),
            decreases content.len() - i,
        {
            let (code, ct) = content[i];
            assert(ct == content@[i as int].1);
            assert(content@.take(i + 1).drop_last() =~= content@.take(i as int));
            hash = hash ^ (((code << 18u32) | (code >> 14u32)) ^ ((code << (27 + ct) as u32) | (
            code >> (5 - ct) as u32)));
            i = i + 1;
        }
        assert(content@.take(content.len() as int) =~= content@);
        let ghost h1 = hash;
        let mut j: usize = 0;
        while j < glist.len()
            invariant
                j <= glist.len(),
                hash == genesys_hash(h1, glist@.take(j as int), key),
            decreases glist.len() - j,
        {
            let (code, points) = glist[j];
            assert(glist@.take(j + 1).drop_last() =~= glist@.take(j as int));
            hash = hash ^ (((code << 18u32) | (code >> 14u32)) ^ ((key << 9u32) | (key >> 23u32))
                ^ ((points << 27u32) | (points >> 5u32)));
            j = j + 1;
        }
        assert(glist@.take(glist.len() as int) =~= glist@);
        LFList { hash, name, content, genesys, glist }
    }

    /// How many copies of a card the list allows, if it limits the card.
    pub fn limit_of(&self, code: u32) -> (r: Option<u8>)
        ensures
            r == lookup(self.content@, code),
    {
        let mut i: usize = 0;
        assert(self.content@.skip(0) =~= self.content@);
        while i < self.content.len()
            invariant
                i <= self.content.len(),
                lookup(self.content@, code) == lookup(self.content@.skip(i as int), code),
            decreases self.content.len() - i,
        {
            assert(self.content@.skip(i as int).drop_first() =~= self.content@.skip(i + 1));
            if self.content[i].0 == code {
                return Some(self.content[i].1);
            }
            i = i + 1;
        }
        None
    }

    /// The genesys points of a card, if it has some.
    pub fn points_of(&self, code: u32) -> (r: Option<u32>)
        ensures
            r == lookup(self.glist@, code),
    {
        let mut i: usize = 0;
        assert(self.glist@.skip(0) =~= self.glist@);
        while i < self.glist.len()
            invariant
                i <= self.glist.len(),
                lookup(self.glist@, code) == lookup(self.glist@.skip(i as int), code),
            decreases self.glist.len() - i,
        {
            assert(self.glist@.skip(i as int).drop_first() =~= self.glist@.skip(i + 1));
            if self.glist[i].0 == code {
                return Some(self.glist[i].1);
            }
            i = i + 1;
        }
        None
    }
}

/// The index of the entry with key `k`, if any.
fn find_key<V>(entries: &Vec<(u32, V)>, k: u32) -> (r: Option<usize>)
    ensures
        r matches Some(i) ==> i < entries@.len() && entries@[i as int].0 == k,
        r is None ==> forall|j: int| 0 <= j < entries@.len() ==> #[trigger] entries@[j].0 != k,
{
    let mut i: usize = 0;
    while i < entries.len()
        invariant
            i <= entries.len(),
            forall|j: int| 0 <= j < i ==> #[trigger] entries@[j].0 != k,
        decreases entries.len() - i,
    {
        if entries[i].0 == k {
            return Some(i);
        }
        i = i + 1;
    }
    None
}

/// Put `(k, val)` into entries with distinct keys.
pub fn insert_entry<V: Copy>(entries: &mut Vec<(u32, V)>, k: u32, val: V)
    requires
        distinct_keys(old(entries)@),
    ensures
        final(entries)@ == entries_insert(old(entries)@, k, val),
        distinct_keys(final(entries)@),
        forall|i: int|
            0 <= i < final(entries)@.len() ==> #[trigger] final(entries)@[i] == (k, val) || exists|
                j: int,
            |
                0 <= j < old(entries)@.len() && old(entries)@[j] == final(entries)@[i],
{
    let ghost e = entries@;
    match find_key(entries, k) {
        Some(i) => {
            entries.set(i, (k, val));
            proof {
                let c = choose|j: int| 0 <= j < e.len() && e[j].0 == k;
                assert(c == i) by {
                    if c != i {
                        assert(e[c].0 != e[i as int].0);
                    }
                }
                assert(entries@ =~= e.update(c, (k, val)));
                assert forall|a: int| 0 <= a < entries@.len() implies #[trigger] entries@[a] == (
                k,
                val,
            ) || exists|j: int| 0 <= j < e.len() && e[j] == entries@[a] by {
                    if a != i {
                        assert(e[a] == entries@[a]);
                    }
                }
                assert forall|a: int| 0 <= a < entries@.len() implies #[trigger] entries@[a].0
                    == e[a].0 by {}
            }
        },
        None => {
            entries.push((k, val));
            proof {
                assert forall|a: int, b: int|
                    0 <= a < entries@.len() && 0 <= b < entries@.len() && a != b implies #[trigger] entries@[a].0
                    != #[trigger] entries@[b].0 by {
                    if a < e.len() && b < e.len() {
                        assert(e[a].0 != e[b].0);
                    } else if a < e.len() {
                        assert(e[a].0 != k);
                    } else {
                        assert(e[b].0 != k);
                    }
                }
                assert forall|a: int| 0 <= a < entries@.len() implies #[trigger] entries@[a] == (k, val)
                    || exists|j: int| 0 <= j < e.len() && e[j] == entries@[a] by {
                    if a < e.len() {
                        assert(e[a] == entries@[a]);
                    }
                }
            }
        },
    }
}

/// A list as a file spells it: name, limits, genesys point limit, genesys points.
pub type ListEntries = (Seq<char>, Seq<(u32, u8)>, u32, Seq<(u32, u32)>);

/// The state of reading a list file: the lists read so far, then the name, limits,
/// genesys point limit and genesys points of the list being read.
pub type LFListReadState = (Seq<ListEntries>, Seq<char>, Seq<(u32, u8)>, u32, Seq<(u32, u32)>);

/// The word `$genesys`.
pub open spec fn genesys_token() -> Seq<char> {
    seq!['$', 'g', 'e', 'n', 'e', 's', 'y', 's']
}

/// How one line changes the state of reading a list file.
///
/// The line is trimmed. A blank line or one starting with `#` changes nothing. A line
/// starting with `!` names a new list: the list being read, if it has a name, is
/// finished and a fresh one starts (entries read before any name carry over to the
/// first list). Otherwise the line is split into words; with fewer than two nothing
/// changes. `$genesys N` sets the genesys point limit (0 when `N` is no number).
/// `CODE COUNT` with a 32-bit code and an 8-bit count limits the card to `COUNT`
/// copies when `COUNT` is at most 2 (a larger count is ignored). `CODE $genesys N`
/// gives the card `N` genesys points. A later entry for a card replaces an earlier one.
pub open spec fn lflist_line_step(st: LFListReadState, raw: Seq<char>) -> LFListReadState {
    let line = trim(raw);
    if line.len() == 0 || line[0] == '#' {
        st
    } else if line[0] == '!' {
        if st.1.len() > 0 {
            (
                st.0.push((st.1, st.2, st.3, st.4)),
                line.drop_first(),
                Seq::empty(),
                0,
                Seq::empty(),
            )
        } else {
            (st.0, line.drop_first(), st.2, st.3, st.4)
        }
    } else {
        let parts = words(line);
        if parts.len() < 2 {
            st
        } else if parts[0] == genesys_token() {
            let g = match parse_unsigned(parts[1], 0xFFFF_FFFF) {
                Some(v) => v as u32,
                None => 0,
            };
            (st.0, st.1, st.2, g, st.4)
        } else if parse_unsigned(parts[0], 0xFFFF_FFFF) is Some && parse_unsigned(parts[1], 255) is Some {
            let code = parse_unsigned(parts[0], 0xFFFF_FFFF).unwrap() as u32;
            let limit = parse_unsigned(parts[1], 255).unwrap();
            if limit <= 2 {
                (st.0, st.1, entries_insert(st.2, code, limit as u8), st.3, st.4)
            } else {
                st
            }
        } else if parts.len() >= 3 && parts[1] == genesys_token() {
            match (parse_unsigned(parts[0], 0xFFFF_FFFF), parse_unsigned(parts[2], 0xFFFF_FFFF)) {
                (Some(code), Some(points)) => (
                    st.0,
                    st.1,
                    st.2,
                    st.3,
                    entries_insert(st.4, code as u32, points as u32),
                ),
                _ => st,
            }
        } else {
            st
        }
    }
}

/// The state after reading `lines` from `st`.
pub open spec fn lflist_fold(st: LFListReadState, lines: Seq<Seq<char>>) -> LFListReadState
    decreases lines.len(),
{
    if lines.len() == 0 {
        st
    } else {
        lflist_line_step(lflist_fold(st, lines.drop_last()), lines.last())
    }
}

/// The lists a list file holds, in order.
pub open spec fn lflist_file(s: Seq<char>) -> Seq<ListEntries> {
    let st = lflist_fold((Seq::empty(), Seq::empty(), Seq::empty(), 0, Seq::empty()), lines_of(s));
    if st.1.len() > 0 {
        st.0.push((st.1, st.2, st.3, st.4))
    } else {
        st.0
    }
}

/// Whether `l` is the list `e` spells, with its hash.
pub open spec fn list_matches(l: LFList, e: ListEntries) -> bool {
    &&& l.name@ == e.0
    &&& l.content@ == e.1
    &&& l.genesys == e.2
    &&& l.glist@ == e.3
    &&& l.hash == list_hash(e.1, e.2, e.3)
}

/// Counts of at most 2.
pub open spec fn small_counts(entries: Seq<(u32, u8)>) -> bool {
    forall|i: int| 0 <= i < entries.len() ==> #[trigger] entries[i].1 <= 2
}

/// Read the words of a number.
fn parse_word(w: &Vec<char>, max: u64) -> (r: Option<u64>)
    ensures
        r matches Some(v) ==> parse_unsigned(w@, max as nat) == Some(v as nat),
        r is None ==> parse_unsigned(w@, max as nat) is None,
{
    assert(w@.subrange(0, w@.len() as int) =~= w@);
    parse_decimal(w, 0, w.len(), max)
}

/// Whether a word is `$genesys`.
fn is_genesys_token(w: &Vec<char>) -> (r: bool)
    ensures
        r == (w@ == genesys_token()),
{
    if w.len() == 8 && w[0] == '$' && w[1] == 'g' && w[2] == 'e' && w[3] == 'n' && w[4] == 'e'
        && w[5] == 's' && w[6] == 'y' && w[7] == 's' {
        assert(w@ =~= genesys_token());
        true
    } else {
        proof {
            if w@ == genesys_token() {
                assert(w@[0] == '$' && w@[1] == 'g' && w@[2] == 'e' && w@[3] == 'n');
                assert(w@[4] == 'e' && w@[5] == 's' && w@[6] == 'y' && w@[7] == 's');
            }
        }
        false
    }
}

/// Read every list of a list file.
pub fn parse_lflist_content(content: &str) -> (r: Vec<LFList>)
    ensures
        r.len() == lflist_file(content@).len(),
        forall|i: int| 0 <= i < r.len() ==> list_matches(#[trigger] r[i], lflist_file(content@)[i]),
        forall|i: int| 0 <= i < r.len() ==> (#[trigger] r[i]).wf(),
{
    let chars = chars_of(content);
    let lines = split_lines(&chars);
    let ghost all = lines_of(content@);
    let ghost init: LFListReadState = (Seq::empty(), Seq::empty(), Seq::empty(), 0, Seq::empty());
    let mut lists: Vec<LFList> = Vec::new();
    let mut name: Vec<char> = Vec::new();
    let mut limits: Vec<(u32, u8)> = Vec::new();
    let mut genesys: u32 = 0;
    let mut glimits: Vec<(u32, u32)> = Vec::new();
    let mut i: usize = 0;
    while i < lines.len()
        invariant
            i <= lines.len(),
            all == lines_of(content@),
            lines.len() == all.len(),
            forall|k: int| 0 <= k < lines.len() ==> #[trigger] lines[k]@ == all[k],
            lists.len() == lflist_fold(init, all.take(i as int)).0.len(),
            forall|k: int|
                0 <= k < lists.len() ==> list_matches(
                    #[trigger] lists[k],
                    lflist_fold(init, all.take(i as int)).0[k],
                ),
            forall|k: int| 0 <= k < lists.len() ==> (#[trigger] lists[k]).wf(),
            name@ == lflist_fold(init, all.take(i as int)).1,
            limits@ == lflist_fold(init, all.take(i as int)).2,
            genesys == lflist_fold(init, all.take(i as int)).3,
            glimits@ == lflist_fold(init, all.take(i as int)).4,
            distinct_keys(limits@),
            distinct_keys(glimits@),
            small_counts(limits@),
        decreases lines.len() - i,
    {
        assert(all.take(i + 1).drop_last() =~= all.take(i as int));
        assert(all.take(i + 1).last() == lines[i as int]@);
        let line = trim_chars(&lines[i]);
        if line.len() == 0 || line[0] == '#' {
        } else if line[0] == '!' {
            let mut rest: Vec<char> = Vec::new();
            let mut j: usize = 1;
            while j < line.len()
                invariant
                    1 <= j <= line.len(),
                    rest@ == line@.subrange(1, j as int),
                decreases line.len() - j,
            {
                rest.push(line[j]);
                j = j + 1;
                assert(rest@ =~= line@.subrange(1, j as int));
            }
            assert(rest@ =~= line@.drop_first());
            if name.len() > 0 {
                let n = string_from_chars(name.as_slice());
                let l = LFList::from(n, limits, genesys, glimits);
                lists.push(l);
                limits = Vec::new();
                genesys = 0;
                glimits = Vec::new();
                assert(distinct_keys(limits@));
                assert(distinct_keys(glimits@));
            }
            name = rest;
        } else {
            let parts = split_words(&line);
            if parts.len() < 2 {
            } else if is_genesys_token(&parts[0]) {
                genesys = match parse_word(&parts[1], 0xFFFF_FFFF) {
                    Some(v) => v as u32,
                    None => 0,
                };
            } else {
                let code = parse_word(&parts[0], 0xFFFF_FFFF);
                let limit = parse_word(&parts[1], 255);
                if code.is_some() && limit.is_some() {
                    let c = code.unwrap();
                    let l = limit.unwrap();
                    if l <= 2 {
                        let ghost before = limits@;
                        insert_entry(&mut limits, c as u32, l as u8);
                        assert(small_counts(limits@)) by {
                            assert forall|a: int| 0 <= a < limits@.len() implies #[trigger] limits@[a].1
                                <= 2 by {
                                if limits@[a] != (c as u32, l as u8) {
                                    let j = choose|j: int| 0 <= j < before.len() && before[j] == limits@[a];
                                    assert(before[j].1 <= 2);
                                }
                            }
                        }
                    }
                } else if parts.len() >= 3 && is_genesys_token(&parts[1]) {
                    let code2 = parse_word(&parts[0], 0xFFFF_FFFF);
                    let points = parse_word(&parts[2], 0xFFFF_FFFF);
                    if code2.is_some() && points.is_some() {
                        insert_entry(&mut glimits, code2.unwrap() as u32, points.unwrap() as u32);
                    }
                }
            }
        }
        i = i + 1;
    }
    assert(all.take(i as int) =~= all);
    if name.len() > 0 {
        let n = string_from_chars(name.as_slice());
        let l = LFList::from(n, limits, genesys, glimits);
        lists.push(l);
    }
    lists
}

} // verus!
