//! A player's deck: its model, the card-count helpers and the deck checks (sizes,
//! illegal cards, card availability, the limit list).
use vstd::prelude::*;
use std::collections::HashMap;

use crate::card::{Card, CardDatabase, type_of, ot_of, duel_code_of};
use crate::constants::{
    Rule, has_all, has_any, contains_flags, intersects_flags, TYPE_TOKEN, TYPE_EXTRA, OT_OCG,
    OT_TCG,
};
use crate::lflist::{LFList, lookup};
use crate::bytes::{le32, push_u32, ReadError};
use crate::replay_body::{
    lemma_take_u32, lemma_take_u32s, read_u32_from, read_u32s_from, take_u32, take_u32s, u32s_bytes,
    write_u32s,
};

verus! {

broadcast use vstd::std_specs::hash::group_hash_axioms;

/// The fewest cards a main deck may hold.
pub const DECK_MIN: usize = 40;
/// The most cards a main deck may hold.
pub const DECK_MAX: usize = 60;
/// The most cards an extra deck may hold.
pub const EXTRA_MAX: usize = 15;
/// The most cards a side deck may hold.
pub const SIDE_MAX: usize = 15;
/// The most copies of one card a deck may hold.
pub const CARD_COPY_MAX: u32 = 3;
/// Codes in a deck error must be below this bound (they take 28 bits).
pub const DECK_ERROR_CODE_BOUND: u32 = 0x1000_0000;

/// The kind of a deck error.
#[derive(Clone, Copy, Debug, PartialEq, Eq, Structural)]
pub enum DeckErrorType {
    Lflist,
    OcgOnly,
    TcgOnly,
    UnknownCard,
    CardCount,
    MainCount,
    ExtraCount,
    SideCount,
    NotAvailable,
}

impl DeckErrorType {
    /// The wire value of each variant.
    pub open spec fn code(self) -> u8 {
        match self {
            DeckErrorType::Lflist => 1u8,
            DeckErrorType::OcgOnly => 2u8,
            DeckErrorType::TcgOnly => 3u8,
            DeckErrorType::UnknownCard => 4u8,
            DeckErrorType::CardCount => 5u8,
            DeckErrorType::MainCount => 6u8,
            DeckErrorType::ExtraCount => 7u8,
            DeckErrorType::SideCount => 8u8,
            DeckErrorType::NotAvailable => 9u8,
        }
    }

    /// The variant a wire value stands for, if any.
    pub open spec fn of_code(v: u8) -> Option<DeckErrorType> {
        if v == 1u8 {
            Some(DeckErrorType::Lflist)
        } else if v == 2u8 {
            Some(DeckErrorType::OcgOnly)
        } else if v == 3u8 {
            Some(DeckErrorType::TcgOnly)
        } else if v == 4u8 {
            Some(DeckErrorType::UnknownCard)
        } else if v == 5u8 {
            Some(DeckErrorType::CardCount)
        } else if v == 6u8 {
            Some(DeckErrorType::MainCount)
        } else if v == 7u8 {
            Some(DeckErrorType::ExtraCount)
        } else if v == 8u8 {
            Some(DeckErrorType::SideCount)
        } else if v == 9u8 {
            Some(DeckErrorType::NotAvailable)
        } else {
            None
        }
    }

    /// The wire value of this variant.
    pub fn value(self) -> (r: u8)
        ensures
            r == self.code(),
            DeckErrorType::of_code(r) == Some(self),
    {
        match self {
            DeckErrorType::Lflist => 1u8,
            DeckErrorType::OcgOnly => 2u8,
            DeckErrorType::TcgOnly => 3u8,
            DeckErrorType::UnknownCard => 4u8,
            DeckErrorType::CardCount => 5u8,
            DeckErrorType::MainCount => 6u8,
            DeckErrorType::ExtraCount => 7u8,
            DeckErrorType::SideCount => 8u8,
            DeckErrorType::NotAvailable => 9u8,
        }
    }

    /// The variant a wire value stands for; `None` for any other value.
    pub fn from_value(v: u8) -> (r: Option<DeckErrorType>)
        ensures
            r == DeckErrorType::of_code(v),
            r matches Some(x) ==> x.code() == v,
    {
        if v == 1u8 {
            Some(DeckErrorType::Lflist)
        } else if v == 2u8 {
            Some(DeckErrorType::OcgOnly)
        } else if v == 3u8 {
            Some(DeckErrorType::TcgOnly)
        } else if v == 4u8 {
            Some(DeckErrorType::UnknownCard)
        } else if v == 5u8 {
            Some(DeckErrorType::CardCount)
        } else if v == 6u8 {
            Some(DeckErrorType::MainCount)
        } else if v == 7u8 {
            Some(DeckErrorType::ExtraCount)
        } else if v == 8u8 {
            Some(DeckErrorType::SideCount)
        } else if v == 9u8 {
            Some(DeckErrorType::NotAvailable)
        } else {
            None
        }
    }
}

/// A deck error: its kind and the card code (or count) it is about, packed in one
/// `u32` on the wire (the code in the low 28 bits, the kind in the high 4).
#[derive(Clone, Copy, Debug, PartialEq, Eq, Structural)]
pub struct DeckError {
    /// The offending card code, or the offending deck size.
    pub code: u32,
    /// The kind of error.
    pub error_type: DeckErrorType,
}

/// The error a check reports: its kind and the number it carries.
pub open spec fn raw_error(t: DeckErrorType, c: int) -> Result<(), (DeckErrorType, int)> {
    Err((t, c))
}

/// Whether the number a check result carries fits in a deck error.
pub open spec fn fits_error(r: Result<(), (DeckErrorType, int)>) -> bool {
    r matches Err((_, c)) ==> 0 <= c < DECK_ERROR_CODE_BOUND
}

/// Whether an executable result is the given check result.
pub open spec fn matches_result(r: Result<(), DeckError>, s: Result<(), (DeckErrorType, int)>) -> bool {
    match s {
        Ok(()) => r is Ok,
        Err((t, c)) => r == Err::<(), DeckError>(DeckError { code: c as u32, error_type: t }),
    }
}

impl DeckError {
    /// An error of the given kind about the given code.
    pub fn new(error_type: DeckErrorType, code: u32) -> (r: DeckError)
        requires
            code < DECK_ERROR_CODE_BOUND,
        ensures
            r.error_type == error_type,
            r.code == code,
    {
        DeckError { code, error_type }
    }

    /// The packed wire value: the code in the low 28 bits, the kind above it.
    pub open spec fn packed(self) -> int {
        self.code + self.error_type.code() * 0x1000_0000
    }

    /// The packed wire value.
    pub fn to_u32(&self) -> (r: u32)
        requires
            self.code < DECK_ERROR_CODE_BOUND,
        ensures
            r == self.packed(),
    {
        self.code + (self.error_type.value() as u32) * 0x1000_0000u32
    }

    /// The error a packed wire value stands for; `None` when its kind is unknown.
    pub fn from_u32(v: u32) -> (r: Option<DeckError>)
        ensures
            r matches Some(e) ==> e.packed() == v && e.code < DECK_ERROR_CODE_BOUND,
            r is None <==> DeckErrorType::of_code((v / 0x1000_0000) as u8) is None,
    {
        let kind = (v / 0x1000_0000u32) as u8;
        match DeckErrorType::from_value(kind) {
            Some(t) => Some(DeckError { code: v % 0x1000_0000u32, error_type: t }),
            None => None,
        }
    }
}

/// Packing an error and reading it back gives the error.
pub proof fn lemma_deck_error_round_trip(e: DeckError)
    requires
        e.code < DECK_ERROR_CODE_BOUND,
    ensures
        (e.packed() / 0x1000_0000) as u8 == e.error_type.code(),
        e.packed() % 0x1000_0000 == e.code,
        e.packed() < 0x1_0000_0000,
{
}

/// How many times `c` occurs in `s`.
pub open spec fn count_of(s: Seq<u32>, c: u32) -> nat
    decreases s.len(),
{
    if s.len() == 0 {
        0
    } else {
        count_of(s.drop_last(), c) + if s.last() == c {
            1nat
        } else {
            0nat
        }
    }
}

/// A value occurs no more often than the length of the sequence.
pub proof fn lemma_count_le_len(s: Seq<u32>, c: u32)
    ensures
        count_of(s, c) <= s.len(),
    decreases s.len(),
{
    if s.len() > 0 {
        lemma_count_le_len(s.drop_last(), c);
    }
}

/// A value that occurs is at some index.
pub proof fn lemma_count_pos(s: Seq<u32>, c: u32)
    requires
        count_of(s, c) > 0,
    ensures
        exists|k: int| 0 <= k < s.len() && s[k] == c,
    decreases s.len(),
{
    if s.last() != c {
        lemma_count_pos(s.drop_last(), c);
        let k = choose|k: int| 0 <= k < s.drop_last().len() && s.drop_last()[k] == c;
        assert(s[k] == c);
    } else {
        assert(s[s.len() - 1] == c);
    }
}

/// The elements of `s` that satisfy `f`, in order.
pub open spec fn filter_by(s: Seq<u32>, f: spec_fn(u32) -> bool) -> Seq<u32>
    decreases s.len(),
{
    if s.len() == 0 {
        Seq::empty()
    } else if f(s.last()) {
        filter_by(s.drop_last(), f).push(s.last())
    } else {
        filter_by(s.drop_last(), f)
    }
}

/// Whether the type bits mark an extra deck card.
pub open spec fn is_extra_type(t: u32) -> bool {
    has_any(t, TYPE_EXTRA)
}

/// Whether a code belongs in the main deck rather than the extra deck.
pub open spec fn not_extra(db: Map<u32, Card>, c: u32) -> bool {
    !is_extra_type(type_of(db, c))
}

/// Whether a card stays in a deck: it is known and is no token.
pub open spec fn known_card(db: Map<u32, Card>, c: u32) -> bool {
    db.contains_key(c) && !has_all(db[c].card_type, TYPE_TOKEN)
}

/// The extra deck after the extra deck cards of `main` are moved into `ex`, while
/// the extra deck has room for them (the rest are dropped).
pub open spec fn moved_extra(main: Seq<u32>, ex: Seq<u32>, db: Map<u32, Card>) -> Seq<u32>
    decreases main.len(),
{
    if main.len() == 0 {
        ex
    } else {
        let e = moved_extra(main.drop_last(), ex, db);
        if is_extra_type(type_of(db, main.last())) && e.len() < EXTRA_MAX {
            e.push(main.last())
        } else {
            e
        }
    }
}

/// Move the extra deck cards of `main` into `ex` while `ex` holds fewer than
/// [`EXTRA_MAX`] cards; extra deck cards beyond that are dropped.
pub fn separate_main_and_extra(main: &mut Vec<u32>, ex: &mut Vec<u32>, db: &CardDatabase)
    ensures
        final(main)@ == filter_by(old(main)@, |c: u32| not_extra(db.view(), c)),
        final(ex)@ == moved_extra(old(main)@, old(ex)@, db.view()),
{
    let ghost m0 = main@;
    let ghost e0 = ex@;
    let ghost f = |c: u32| not_extra(db.view(), c);
    let mut kept: Vec<u32> = Vec::new();
    let mut i: usize = 0;
    while i < main.len()
        invariant
            i <= main.len(),
            main@ == m0,
            f == (|c: u32| not_extra(db.view(), c)),
            kept@ == filter_by(m0.take(i as int), f),
            ex@ == moved_extra(m0.take(i as int), e0, db.view()),
        decreases main.len() - i,
    {
        let code = main[i];
        assert(m0.take(i + 1).drop_last() =~= m0.take(i as int));
        assert(m0.take(i + 1).last() == code);
        assert(filter_by(m0.take(i + 1), f) == (if f(code) {
            filter_by(m0.take(i as int), f).push(code)
        } else {
            filter_by(m0.take(i as int), f)
        }));
        let is_extra = intersects_flags(db.type_of(code), TYPE_EXTRA);
        assert(f(code) == !is_extra);
        if is_extra {
            if ex.len() < EXTRA_MAX {
                ex.push(code);
            }
        } else {
            kept.push(code);
        }
        i = i + 1;
    }
    assert(m0.take(i as int) =~= m0);
    *main = kept;
}

/// The codes that `remove_unknown_cards` takes out.
pub open spec fn removed_cards(s: Seq<u32>, db: Map<u32, Card>) -> Seq<u32> {
    filter_by(s, |c: u32| !known_card(db, c))
}

/// The error `remove_unknown_cards` reports: about the last removed card.
pub open spec fn unknown_card_error(s: Seq<u32>, db: Map<u32, Card>) -> Option<DeckError> {
    let removed = removed_cards(s, db);
    if removed.len() == 0 {
        None
    } else {
        Some(DeckError { code: removed.last(), error_type: DeckErrorType::UnknownCard })
    }
}

/// Remove the unknown cards and the tokens, reporting the last removed card.
pub fn remove_unknown_cards(main: &mut Vec<u32>, db: &CardDatabase) -> (r: Option<DeckError>)
    requires
        removed_cards(old(main)@, db.view()).len() > 0 ==> removed_cards(old(main)@, db.view()).last()
            < DECK_ERROR_CODE_BOUND,
    ensures
        final(main)@ == filter_by(old(main)@, |c: u32| known_card(db.view(), c)),
        r == unknown_card_error(old(main)@, db.view()),
{
    let ghost m0 = main@;
    let ghost keep = |c: u32| known_card(db.view(), c);
    let ghost drop = |c: u32| !known_card(db.view(), c);
    let mut kept: Vec<u32> = Vec::new();
    let mut last_removed: Option<u32> = None;
    let mut i: usize = 0;
    while i < main.len()
        invariant
            i <= main.len(),
            main@ == m0,
            keep == (|c: u32| known_card(db.view(), c)),
            drop == (|c: u32| !known_card(db.view(), c)),
            kept@ == filter_by(m0.take(i as int), keep),
            last_removed == (if filter_by(m0.take(i as int), drop).len() == 0 {
                None
            } else {
                Some(filter_by(m0.take(i as int), drop).last())
            }),
        decreases main.len() - i,
    {
        let code = main[i];
        assert(m0.take(i + 1).drop_last() =~= m0.take(i as int));
        assert(m0.take(i + 1).last() == code);
        let known = match db.get_card(code) {
            Some(card) => !contains_flags(card.card_type, TYPE_TOKEN),
            None => false,
        };
        assert(filter_by(m0.take(i + 1), keep) == (if keep(code) {
            filter_by(m0.take(i as int), keep).push(code)
        } else {
            filter_by(m0.take(i as int), keep)
        }));
        assert(filter_by(m0.take(i + 1), drop) == (if drop(code) {
            filter_by(m0.take(i as int), drop).push(code)
        } else {
            filter_by(m0.take(i as int), drop)
        }));
        assert(keep(code) == known);
        assert(drop(code) == !known);
        if known {
            kept.push(code);
        } else {
            last_removed = Some(code);
        }
        i = i + 1;
    }
    assert(m0.take(i as int) =~= m0);
    *main = kept;
    match last_removed {
        Some(code) => Some(DeckError::new(DeckErrorType::UnknownCard, code)),
        None => None,
    }
}

/// The size check: the main deck holds 40 to 60 cards, the extra and side decks at
/// most 15; an error carries the offending size.
pub open spec fn length_result(main: nat, extra: nat, side: nat) -> Result<(), (DeckErrorType, int)> {
    if main < DECK_MIN || main > DECK_MAX {
        raw_error(DeckErrorType::MainCount, main as int)
    } else if extra > EXTRA_MAX {
        raw_error(DeckErrorType::ExtraCount, extra as int)
    } else if side > SIDE_MAX {
        raw_error(DeckErrorType::SideCount, side as int)
    } else {
        Ok(())
    }
}

/// A deck passes the size check exactly when its main deck holds 40 to 60 cards and its
/// extra and side decks at most 15 each; a main deck size error is given exactly for a
/// main deck below 40 or above 60 cards, and carries that size.
pub proof fn law_deck_sizes(main: nat, extra: nat, side: nat)
    ensures
        length_result(main, extra, side) is Ok <==> (40 <= main <= 60 && extra <= 15 && side <= 15),
        (length_result(main, extra, side) matches Err((t, _)) && t == DeckErrorType::MainCount) <==> (main
            < 40 || main > 60),
        length_result(main, extra, side) matches Err((t, c)) ==> c == (match t {
            DeckErrorType::MainCount => main,
            DeckErrorType::ExtraCount => extra,
            _ => side,
        }),
{
}

/// Check the sizes of the main, extra and side decks.
pub fn check_deck_length(main: &[u32], extra: &[u32], side: &[u32]) -> (r: Result<(), DeckError>)
    requires
        fits_error(length_result(main@.len(), extra@.len(), side@.len())),
    ensures
        matches_result(r, length_result(main@.len(), extra@.len(), side@.len())),
{
    if main.len() < DECK_MIN || main.len() > DECK_MAX {
        return Err(DeckError::new(DeckErrorType::MainCount, main.len() as u32));
    }
    if extra.len() > EXTRA_MAX {
        return Err(DeckError::new(DeckErrorType::ExtraCount, extra.len() as u32));
    }
    if side.len() > SIDE_MAX {
        return Err(DeckError::new(DeckErrorType::SideCount, side.len() as u32));
    }
    Ok(())
}

/// The illegal-card check: no token or extra deck card in the main deck, no token in
/// the side deck, only non-token extra deck cards in the extra deck. Its errors carry
/// the code 0.
pub open spec fn illegal_result(main: Seq<u32>, side: Seq<u32>, ex: Seq<u32>, db: Map<u32, Card>) -> Result<
    (),
    (DeckErrorType, int),
> {
    if exists|i: int|
        0 <= i < main.len() && (has_all(type_of(db, #[trigger] main[i]), TYPE_TOKEN) || is_extra_type(
            type_of(db, main[i]),
        )) {
        raw_error(DeckErrorType::MainCount, 0)
    } else if exists|i: int|
        0 <= i < side.len() && has_all(type_of(db, #[trigger] side[i]), TYPE_TOKEN) {
        raw_error(DeckErrorType::SideCount, 0)
    } else if exists|i: int|
        0 <= i < ex.len() && (has_all(type_of(db, #[trigger] ex[i]), TYPE_TOKEN) || !is_extra_type(
            type_of(db, ex[i]),
        )) {
        raw_error(DeckErrorType::ExtraCount, 0)
    } else {
        Ok(())
    }
}

/// Check that no card stands in a deck where it does not belong.
pub fn check_illegal_cards(main: &Vec<u32>, side: &Vec<u32>, ex: &Vec<u32>, db: &CardDatabase) -> (r:
    Result<(), DeckError>)
    ensures
        matches_result(r, illegal_result(main@, side@, ex@, db.view())),
{
    let mut i: usize = 0;
    while i < main.len()
        invariant
            i <= main.len(),
            forall|k: int|
                0 <= k < i ==> !(has_all(type_of(db.view(), #[trigger] main@[k]), TYPE_TOKEN)
                    || is_extra_type(type_of(db.view(), main@[k]))),
        decreases main.len() - i,
    {
        let t = db.type_of(main[i]);
        if contains_flags(t, TYPE_TOKEN) || intersects_flags(t, TYPE_EXTRA) {
            return Err(DeckError::new(DeckErrorType::MainCount, 0));
        }
        i = i + 1;
    }
    assert(!(exists|k: int|
        0 <= k < main@.len() && (has_all(type_of(db.view(), #[trigger] main@[k]), TYPE_TOKEN)
            || is_extra_type(type_of(db.view(), main@[k])))));
    let mut i: usize = 0;
    while i < side.len()
        invariant
            i <= side.len(),
            !(exists|k: int|
                0 <= k < main@.len() && (has_all(type_of(db.view(), #[trigger] main@[k]), TYPE_TOKEN)
                    || is_extra_type(type_of(db.view(), main@[k])))),
            forall|k: int| 0 <= k < i ==> !has_all(type_of(db.view(), #[trigger] side@[k]), TYPE_TOKEN),
        decreases side.len() - i,
    {
        if contains_flags(db.type_of(side[i]), TYPE_TOKEN) {
            return Err(DeckError::new(DeckErrorType::SideCount, 0));
        }
        i = i + 1;
    }
    assert(!(exists|k: int|
        0 <= k < side@.len() && has_all(type_of(db.view(), #[trigger] side@[k]), TYPE_TOKEN)));
    let mut i: usize = 0;
    while i < ex.len()
        invariant
            i <= ex.len(),
            !(exists|k: int|
                0 <= k < main@.len() && (has_all(type_of(db.view(), #[trigger] main@[k]), TYPE_TOKEN)
                    || is_extra_type(type_of(db.view(), main@[k])))),
            !(exists|k: int|
                0 <= k < side@.len() && has_all(type_of(db.view(), #[trigger] side@[k]), TYPE_TOKEN)),
            forall|k: int|
                0 <= k < i ==> !(has_all(type_of(db.view(), #[trigger] ex@[k]), TYPE_TOKEN)
                    || !is_extra_type(type_of(db.view(), ex@[k]))),
        decreases ex.len() - i,
    {
        let t = db.type_of(ex[i]);
        if contains_flags(t, TYPE_TOKEN) || !intersects_flags(t, TYPE_EXTRA) {
            return Err(DeckError::new(DeckErrorType::ExtraCount, 0));
        }
        i = i + 1;
    }
    Ok(())
}

/// Whether a card with the availability bits `ot` is allowed under `rule`: `None`
/// when it has every bit the rule asks for; otherwise the kind of error (an OCG card
/// under another rule, a TCG card under another rule, or a card available nowhere).
pub open spec fn spec_check_ot(ot: u32, rule: Rule) -> Option<DeckErrorType> {
    let avail = rule.avail();
    if ot & avail == avail {
        None
    } else if has_any(ot, OT_OCG) && avail != OT_OCG {
        Some(DeckErrorType::OcgOnly)
    } else if has_any(ot, OT_TCG) && avail != OT_TCG {
        Some(DeckErrorType::TcgOnly)
    } else {
        Some(DeckErrorType::NotAvailable)
    }
}

/// Whether a card with the availability bits `ot` is allowed under `rule`.
pub fn check_ot(ot: u32, rule: Rule) -> (r: Option<DeckErrorType>)
    ensures
        r == spec_check_ot(ot, rule),
{
    let avail = rule.avail_bits();
    if ot & avail == avail {
        None
    } else if intersects_flags(ot, OT_OCG) && avail != OT_OCG {
        Some(DeckErrorType::OcgOnly)
    } else if intersects_flags(ot, OT_TCG) && avail != OT_TCG {
        Some(DeckErrorType::TcgOnly)
    } else {
        Some(DeckErrorType::NotAvailable)
    }
}

/// The availability check: the first card that the rule does not allow.
pub open spec fn rule_result(codes: Seq<u32>, rule: Rule, db: Map<u32, Card>) -> Result<
    (),
    (DeckErrorType, int),
>
    decreases codes.len(),
{
    if codes.len() == 0 {
        Ok(())
    } else {
        match spec_check_ot(ot_of(db, codes[0]), rule) {
            Some(t) => raw_error(t, codes[0] as int),
            None => rule_result(codes.drop_first(), rule, db),
        }
    }
}

/// Check that every card is available under the rule.
pub fn check_rule(codes: &[u32], rule: Rule, db: &CardDatabase) -> (r: Result<(), DeckError>)
    requires
        fits_error(rule_result(codes@, rule, db.view())),
    ensures
        matches_result(r, rule_result(codes@, rule, db.view())),
{
    let mut i: usize = 0;
    assert(codes@.skip(0) =~= codes@);
    while i < codes.len()
        invariant
            i <= codes.len(),
            rule_result(codes@, rule, db.view()) == rule_result(codes@.skip(i as int), rule, db.view()),
            fits_error(rule_result(codes@, rule, db.view())),
        decreases codes.len() - i,
    {
        assert(codes@.skip(i as int).drop_first() =~= codes@.skip(i + 1));
        assert(codes@.skip(i as int)[0] == codes@[i as int]);
        let code = codes[i];
        match check_ot(db.ot_of(code), rule) {
            Some(t) => {
                return Err(DeckError::new(t, code));
            },
            None => {},
        }
        i = i + 1;
    }
    Ok(())
}

/// The values of `s` in order of first occurrence, each once.
pub open spec fn distinct_in_order(s: Seq<u32>) -> Seq<u32>
    decreases s.len(),
{
    if s.len() == 0 {
        Seq::empty()
    } else {
        let p = distinct_in_order(s.drop_last());
        if p.contains(s.last()) {
            p
        } else {
            p.push(s.last())
        }
    }
}

/// The duel codes of `codes`.
pub open spec fn resolved_codes(codes: Seq<u32>, db: Map<u32, Card>) -> Seq<u32> {
    codes.map_values(|c: u32| duel_code_of(db, c))
}

/// The limit-list check over the distinct duel codes `keys` (in order of first
/// occurrence), given their counts in `rc` and the genesys points counted so far:
/// more than three copies of a card, a genesys total over the list's limit, or more
/// copies than the list allows.
pub open spec fn lflist_result(keys: Seq<u32>, rc: Seq<u32>, l: LFList, current: int) -> Result<
    (),
    (DeckErrorType, int),
>
    decreases keys.len(),
{
    if keys.len() == 0 {
        Ok(())
    } else {
        let k = keys[0];
        let n = count_of(rc, k);
        if n > CARD_COPY_MAX as usize {
            raw_error(DeckErrorType::CardCount, k as int)
        } else {
            let in_glist = l.genesys > 0 && lookup(l.glist@, k) is Some;
            let next = if in_glist {
                current + lookup(l.glist@, k)->0 * n
            } else {
                current
            };
            if in_glist && next > l.genesys {
                raw_error(DeckErrorType::Lflist, k as int)
            } else if lookup(l.content@, k) is Some && n > lookup(l.content@, k)->0 {
                raw_error(DeckErrorType::Lflist, k as int)
            } else {
                lflist_result(keys.drop_first(), rc, l, next)
            }
        }
    }
}

/// The limit-list check of the cards `codes`, counted by duel code.
pub open spec fn deck_lflist_result(codes: Seq<u32>, l: LFList, db: Map<u32, Card>) -> Result<
    (),
    (DeckErrorType, int),
> {
    let rc = resolved_codes(codes, db);
    lflist_result(distinct_in_order(rc), rc, l, 0)
}

/// Within the copy limit and the list's counts, and with no genesys limit, the keys pass.
proof fn lemma_lflist_ok_within_limits(keys: Seq<u32>, rc: Seq<u32>, l: LFList, current: int)
    requires
        l.genesys == 0,
        forall|c: u32| #[trigger] count_of(rc, c) <= 3,
        forall|c: u32| #[trigger] lookup(l.content@, c) matches Some(lim) ==> count_of(rc, c) <= lim,
    ensures
        lflist_result(keys, rc, l, current) is Ok,
    decreases keys.len(),
{
    if keys.len() > 0 {
        let k = keys[0];
        assert(count_of(rc, k) <= 3);
        if lookup(l.content@, k) is Some {
            assert(count_of(rc, k) <= lookup(l.content@, k)->0);
        }
        lemma_lflist_ok_within_limits(keys.drop_first(), rc, l, current);
    }
}

/// A limit-list error names a key whose copies exceed what the list allows, or one that
/// counts genesys points under a genesys limit.
proof fn lemma_lflist_error_cause(keys: Seq<u32>, rc: Seq<u32>, l: LFList, current: int, k: u32)
    ensures
        lflist_result(keys, rc, l, current) == raw_error(DeckErrorType::Lflist, k as int) ==> keys.contains(k)
            && ((lookup(l.content@, k) matches Some(lim) && count_of(rc, k) > lim) || (l.genesys > 0
            && lookup(l.glist@, k) is Some)),
    decreases keys.len(),
{
    if keys.len() > 0 {
        let k0 = keys[0];
        let n = count_of(rc, k0);
        let in_glist = l.genesys > 0 && lookup(l.glist@, k0) is Some;
        let next = if in_glist {
            current + lookup(l.glist@, k0)->0 * n
        } else {
            current
        };
        lemma_lflist_error_cause(keys.drop_first(), rc, l, next, k);
        if lflist_result(keys, rc, l, current) == raw_error(DeckErrorType::Lflist, k as int) {
            if n > CARD_COPY_MAX as usize {
            } else if in_glist && next > l.genesys {
                assert(k0 == k);
            } else if lookup(l.content@, k0) is Some && n > lookup(l.content@, k0)->0 {
                assert(k0 == k);
            } else {
                assert(keys.drop_first().contains(k));
                let j = choose|j: int| 0 <= j < keys.drop_first().len() && keys.drop_first()[j] == k;
                assert(keys[j + 1] == k);
            }
        }
    }
}

/// The values of `distinct_in_order(s)` are values of `s`.
proof fn lemma_distinct_in_order_from(s: Seq<u32>, x: u32)
    ensures
        distinct_in_order(s).contains(x) ==> s.contains(x),
    decreases s.len(),
{
    if s.len() > 0 {
        lemma_distinct_in_order_from(s.drop_last(), x);
        if distinct_in_order(s).contains(x) && x != s.last() {
            let p = distinct_in_order(s.drop_last());
            assert(p.contains(x)) by {
                if !p.contains(s.last()) {
                    let j = choose|j: int| 0 <= j < p.push(s.last()).len() && p.push(s.last())[j] == x;
                    assert(j < p.len());
                    assert(p[j] == x);
                }
            }
            let j = choose|j: int| 0 <= j < s.drop_last().len() && s.drop_last()[j] == x;
            assert(s[j] == x);
        }
    }
}

/// A deck in which no card (counted by its duel code) has more than three copies or
/// more copies than the list allows passes the limit-list check when the list has no
/// genesys limit; a card at exactly its limit is allowed.
pub proof fn law_lflist_passes_within_limits(codes: Seq<u32>, l: LFList, db: Map<u32, Card>)
    requires
        l.genesys == 0,
        forall|c: u32| #[trigger] count_of(resolved_codes(codes, db), c) <= 3,
        forall|c: u32| #[trigger] lookup(l.content@, c) matches Some(lim) ==> count_of(resolved_codes(codes, db), c) <= lim,
    ensures
        deck_lflist_result(codes, l, db) is Ok,
{
    let rc = resolved_codes(codes, db);
    lemma_lflist_ok_within_limits(distinct_in_order(rc), rc, l, 0);
}

/// A limit-list error names a card of the deck (by its duel code) that has more copies
/// than the list allows, or that counts genesys points under the list's genesys limit.
pub proof fn law_lflist_error_cause(codes: Seq<u32>, l: LFList, db: Map<u32, Card>, k: u32)
    ensures
        deck_lflist_result(codes, l, db) == raw_error(DeckErrorType::Lflist, k as int) ==> resolved_codes(
            codes,
            db,
        ).contains(k) && ((lookup(l.content@, k) matches Some(lim) && count_of(resolved_codes(codes, db), k)
            > lim) || (l.genesys > 0 && lookup(l.glist@, k) is Some)),
{
    let rc = resolved_codes(codes, db);
    lemma_lflist_error_cause(distinct_in_order(rc), rc, l, 0, k);
    lemma_distinct_in_order_from(rc, k);
}

/// Where `x` first occurs in `v`.
fn find_index(v: &Vec<u32>, x: u32) -> (r: Option<usize>)
    ensures
        r matches Some(j) ==> j < v.len() && v@[j as int] == x,
        r is None ==> !v@.contains(x),
{
    let mut j: usize = 0;
    while j < v.len()
        invariant
            j <= v.len(),
            forall|k: int| 0 <= k < j ==> v@[k] != x,
        decreases v.len() - j,
    {
        if v[j] == x {
            return Some(j);
        }
        j = j + 1;
    }
    None
}

/// Check the card counts against the copy limit and the limit list.
pub fn check_deck_lflists(codes: &[u32], lflist: &LFList, db: &CardDatabase) -> (r: Result<
    (),
    DeckError,
>)
    requires
        fits_error(deck_lflist_result(codes@, *lflist, db.view())),
    ensures
        matches_result(r, deck_lflist_result(codes@, *lflist, db.view())),
{
    let ghost rc = resolved_codes(codes@, db.view());
    let mut keys: Vec<u32> = Vec::new();
    let mut counts: Vec<usize> = Vec::new();
    let mut i: usize = 0;
    while i < codes.len()
        invariant
            i <= codes.len(),
            rc == resolved_codes(codes@, db.view()),
            rc.len() == codes@.len(),
            keys@ == distinct_in_order(rc.take(i as int)),
            counts.len() == keys.len(),
            forall|j: int|
                0 <= j < keys.len() ==> #[trigger] counts@[j] == count_of(
                    rc.take(i as int),
                    keys@[j],
                ),
            forall|j: int| 0 <= j < keys.len() ==> #[trigger] counts@[j] <= i,
            keys.len() <= i,
        decreases codes.len() - i,
    {
        let r = db.duel_code_of(codes[i]);
        let ghost t = rc.take(i + 1);
        assert(t.drop_last() =~= rc.take(i as int));
        assert(t.last() == r);
        proof {
            lemma_distinct_unique(rc.take(i as int));
        }
        let ghost old_keys = keys@;
        let ghost old_counts = counts@;
        match find_index(&keys, r) {
            Some(j) => {
                let c = counts[j];
                counts.set(j, c + 1);
                assert(keys@ == distinct_in_order(t));
                assert forall|j2: int| 0 <= j2 < keys.len() implies #[trigger] counts@[j2]
                    == count_of(t, keys@[j2]) by {
                    if j2 != j {
                        assert(keys@[j2] != keys@[j as int]);
                    }
                }
            },
            None => {
                proof {
                    lemma_count_not_contained(rc.take(i as int), r);
                }
                keys.push(r);
                counts.push(1);
                assert forall|j2: int| 0 <= j2 < keys.len() implies #[trigger] counts@[j2]
                    == count_of(t, keys@[j2]) by {
                    if j2 < old_keys.len() {
                        assert(old_keys[j2] != r) by {
                            assert(old_keys.contains(old_keys[j2]));
                        }
                        assert(keys@[j2] == old_keys[j2]);
                        assert(counts@[j2] == old_counts[j2]);
                    }
                }
            },
        }
        i = i + 1;
    }
    assert(rc.take(codes.len() as int) =~= rc);
    let ghost total = deck_lflist_result(codes@, *lflist, db.view());
    let mut current: u128 = 0;
    let mut j: usize = 0;
    assert(keys@.skip(0) =~= keys@);
    while j < keys.len()
        invariant
            j <= keys.len(),
            counts.len() == keys.len(),
            keys.len() <= codes.len(),
            rc == resolved_codes(codes@, db.view()),
            keys@ == distinct_in_order(rc),
            forall|k: int| 0 <= k < keys.len() ==> #[trigger] counts@[k] == count_of(rc, keys@[k]),
            total == deck_lflist_result(codes@, *lflist, db.view()),
            total == lflist_result(keys@.skip(j as int), rc, *lflist, current as int),
            fits_error(total),
            current <= j * 3 * 0xFFFF_FFFFu128,
        decreases keys.len() - j,
    {
        let k = keys[j];
        let n = counts[j];
        assert(keys@.skip(j as int)[0] == k);
        assert(keys@.skip(j as int).drop_first() =~= keys@.skip(j + 1));
        if n > CARD_COPY_MAX as usize {
            return Err(DeckError::new(DeckErrorType::CardCount, k));
        }
        let mut in_glist = false;
        if lflist.genesys > 0 {
            match lflist.points_of(k) {
                Some(points) => {
                    in_glist = true;
                    assert((points as u128) * (n as u128) <= 3 * 0xFFFF_FFFFu128) by (nonlinear_arith)
                        requires
                            points <= 0xFFFF_FFFFu32,
                            n <= 3,
                    ;
                    assert(j < 0x1_0000_0000_0000_0000);
                    current = current + (points as u128) * (n as u128);
                    if current > lflist.genesys as u128 {
                        return Err(DeckError::new(DeckErrorType::Lflist, k));
                    }
                },
                None => {},
            }
        }
        match lflist.limit_of(k) {
            Some(limit) => {
                if n > limit as usize {
                    return Err(DeckError::new(DeckErrorType::Lflist, k));
                }
            },
            None => {},
        }
        j = j + 1;
    }
    Ok(())
}

/// The distinct values of a sequence are distinct, and no more than its length.
proof fn lemma_distinct_unique(s: Seq<u32>)
    ensures
        forall|a: int, b: int|
            0 <= a < b < distinct_in_order(s).len() ==> distinct_in_order(s)[a]
                != distinct_in_order(s)[b],
        distinct_in_order(s).len() <= s.len(),
    decreases s.len(),
{
    if s.len() > 0 {
        lemma_distinct_unique(s.drop_last());
        let p = distinct_in_order(s.drop_last());
        if !p.contains(s.last()) {
            let q = p.push(s.last());
            assert forall|a: int, b: int| 0 <= a < b < q.len() implies q[a] != q[b] by {
                if b == p.len() {
                    assert(q[a] == p[a]);
                    assert(p.contains(p[a]));
                } else {
                    assert(q[a] == p[a] && q[b] == p[b]);
                }
            }
        }
    }
}

/// A value not in the distinct values of a sequence does not occur in it.
proof fn lemma_count_not_contained(s: Seq<u32>, x: u32)
    requires
        !distinct_in_order(s).contains(x),
    ensures
        count_of(s, x) == 0,
    decreases s.len(),
{
    if s.len() > 0 {
        let p = distinct_in_order(s.drop_last());
        if p.contains(s.last()) {
            assert(s.last() != x);
        } else {
            assert(p.push(s.last())[p.len() as int] == s.last());
            assert(s.last() != x);
            assert forall|k: int| 0 <= k < p.len() implies p[k] != x by {
                assert(p.push(s.last())[k] == p[k]);
            }
        }
        lemma_count_not_contained(s.drop_last(), x);
    }
}

/// A player's deck: main, side and extra decks, as lists of card codes.
#[derive(Clone, Debug)]
pub struct Deck {
    pub main: Vec<u32>,
    pub side: Vec<u32>,
    pub extra: Vec<u32>,
}

/// Every card of a deck: main, then extra, then side.
pub open spec fn all_cards(d: &Deck) -> Seq<u32> {
    d.main@ + d.extra@ + d.side@
}

/// Whether two decks hold the same cards: decks of equal sizes in which every card
/// occurs equally often (where each card sits does not matter).
pub open spec fn same_cards(a: &Deck, b: &Deck) -> bool {
    &&& a.main@.len() == b.main@.len()
    &&& a.side@.len() == b.side@.len()
    &&& a.extra@.len() == b.extra@.len()
    &&& forall|c: u32| count_of(all_cards(a), c) == count_of(all_cards(b), c)
}

/// Deck equality is an equivalence: reflexive, symmetric and transitive.
pub proof fn lemma_same_cards_equivalence(a: &Deck, b: &Deck, c: &Deck)
    ensures
        same_cards(a, a),
        same_cards(a, b) ==> same_cards(b, a),
        same_cards(a, b) && same_cards(b, c) ==> same_cards(a, c),
{
}

/// The whole deck check: sizes, then illegal cards, then availability, then the
/// limit list, each over main, extra and side.
pub open spec fn deck_check_result(d: &Deck, lflist: LFList, rule: Rule, db: Map<u32, Card>) -> Result<
    (),
    (DeckErrorType, int),
> {
    let l = length_result(d.main@.len(), d.extra@.len(), d.side@.len());
    let i = illegal_result(d.main@, d.side@, d.extra@, db);
    let r = rule_result(all_cards(d), rule, db);
    if l is Err {
        l
    } else if i is Err {
        i
    } else if r is Err {
        r
    } else {
        deck_lflist_result(all_cards(d), lflist, db)
    }
}

impl Deck {
    /// An empty deck.
    pub fn new() -> (r: Deck)
        ensures
            r.main@.len() == 0,
            r.side@.len() == 0,
            r.extra@.len() == 0,
    {
        Deck { main: Vec::new(), side: Vec::new(), extra: Vec::new() }
    }

    /// A deck from raw codes: the first `mainc` codes (or all there are) form the main
    /// deck, the next `sidec` codes (or all that are left) the side deck.
    pub fn load_from_codes(codes: &[u32], mainc: usize, sidec: usize) -> (r: Deck)
        ensures
            r.main@ == codes@.take(if mainc < codes@.len() {
                mainc as int
            } else {
                codes@.len() as int
            }),
            r.side@ == codes@.subrange(
                r.main@.len() as int,
                r.main@.len() + if sidec < codes@.len() - r.main@.len() {
                    sidec as int
                } else {
                    codes@.len() - r.main@.len()
                },
            ),
            r.extra@.len() == 0,
    {
        let mut d = Deck::new();
        let mc = if mainc < codes.len() {
            mainc
        } else {
            codes.len()
        };
        let rest = codes.len() - mc;
        let sc = if sidec < rest {
            sidec
        } else {
            rest
        };
        let mut i: usize = 0;
        while i < mc
            invariant
                i <= mc <= codes.len(),
                d.main@ == codes@.take(i as int),
                d.side@.len() == 0,
                d.extra@.len() == 0,
            decreases mc - i,
        {
            d.main.push(codes[i]);
            i = i + 1;
            assert(d.main@ =~= codes@.take(i as int));
        }
        let mut k: usize = 0;
        while k < sc
            invariant
                k <= sc,
                mc + sc <= codes.len(),
                d.main@ == codes@.take(mc as int),
                d.side@ == codes@.subrange(mc as int, mc + k),
                d.extra@.len() == 0,
            decreases sc - k,
        {
            d.side.push(codes[mc + k]);
            k = k + 1;
            assert(d.side@ =~= codes@.subrange(mc as int, mc + k));
        }
        d
    }

    /// Every card of the deck: main, then extra, then side.
    pub fn all_codes(&self) -> (r: Vec<u32>)
        ensures
            r@ == all_cards(self),
    {
        let mut r = self.main.clone();
        let mut i: usize = 0;
        while i < self.extra.len()
            invariant
                i <= self.extra.len(),
                r@ == self.main@ + self.extra@.take(i as int),
            decreases self.extra.len() - i,
        {
            r.push(self.extra[i]);
            i = i + 1;
            assert(r@ =~= self.main@ + self.extra@.take(i as int));
        }
        assert(self.extra@.take(i as int) =~= self.extra@);
        let mut i: usize = 0;
        while i < self.side.len()
            invariant
                i <= self.side.len(),
                r@ == self.main@ + self.extra@ + self.side@.take(i as int),
            decreases self.side.len() - i,
        {
            r.push(self.side[i]);
            i = i + 1;
            assert(r@ =~= self.main@ + self.extra@ + self.side@.take(i as int));
        }
        assert(self.side@.take(i as int) =~= self.side@);
        r
    }

    /// How many copies of each card the deck holds, over main, extra and side.
    pub fn get_hash(&self) -> (r: HashMap<u32, usize>)
        ensures
            forall|c: u32| #[trigger] r@.contains_key(c) <==> count_of(all_cards(self), c) > 0,
            forall|c: u32|
                #[trigger] r@.contains_key(c) ==> r@[c] as nat == count_of(all_cards(self), c),
    {
        let all = self.all_codes();
        let mut counts: HashMap<u32, usize> = HashMap::new();
        let mut i: usize = 0;
        while i < all.len()
            invariant
                i <= all.len(),
                forall|c: u32|
                    #[trigger] counts@.contains_key(c) <==> count_of(all@.take(i as int), c) > 0,
                forall|c: u32|
                    #[trigger] counts@.contains_key(c) ==> counts@[c] as nat == count_of(
                        all@.take(i as int),
                        c,
                    ),
            decreases all.len() - i,
        {
            let code = all[i];
            assert(all@.take(i + 1).drop_last() =~= all@.take(i as int));
            proof {
                lemma_count_le_len(all@.take(i as int), code);
            }
            let cur: usize = match counts.get(&code) {
                Some(v) => *v,
                None => 0,
            };
            counts.insert(code, cur + 1);
            i = i + 1;
        }
        assert(all@.take(all.len() as int) =~= all@);
        counts
    }

    /// Whether two decks hold the same cards: equal sizes of main, side and extra, and
    /// each card equally often over the whole deck.
    pub fn eq(&self, other: &Deck) -> (r: bool)
        ensures
            r == same_cards(self, other),
    {
        if self.main.len() != other.main.len() || self.side.len() != other.side.len()
            || self.extra.len() != other.extra.len() {
            return false;
        }
        let a = self.all_codes();
        let b = other.all_codes();
        let ha = self.get_hash();
        let hb = other.get_hash();
        let mut i: usize = 0;
        while i < a.len()
            invariant
                i <= a.len(),
                a@ == all_cards(self),
                forall|c: u32| #[trigger] ha@.contains_key(c) <==> count_of(all_cards(self), c) > 0,
                forall|c: u32|
                    #[trigger] ha@.contains_key(c) ==> ha@[c] as nat == count_of(all_cards(self), c),
                forall|c: u32|
                    #[trigger] hb@.contains_key(c) <==> count_of(all_cards(other), c) > 0,
                forall|c: u32|
                    #[trigger] hb@.contains_key(c) ==> hb@[c] as nat == count_of(all_cards(other), c),
                forall|k: int|
                    0 <= k < i ==> count_of(all_cards(self), #[trigger] a@[k]) == count_of(
                        all_cards(other),
                        a@[k],
                    ),
            decreases a.len() - i,
        {
            let code = a[i];
            let ca: usize = match ha.get(&code) {
                Some(v) => *v,
                None => 0,
            };
            let cb: usize = match hb.get(&code) {
                Some(v) => *v,
                None => 0,
            };
            if ca != cb {
                return false;
            }
            i = i + 1;
        }
        let mut i: usize = 0;
        while i < b.len()
            invariant
                i <= b.len(),
                b@ == all_cards(other),
                forall|c: u32| #[trigger] ha@.contains_key(c) <==> count_of(all_cards(self), c) > 0,
                forall|c: u32|
                    #[trigger] ha@.contains_key(c) ==> ha@[c] as nat == count_of(all_cards(self), c),
                forall|c: u32|
                    #[trigger] hb@.contains_key(c) <==> count_of(all_cards(other), c) > 0,
                forall|c: u32|
                    #[trigger] hb@.contains_key(c) ==> hb@[c] as nat == count_of(all_cards(other), c),
                forall|k: int|
                    0 <= k < i ==> count_of(all_cards(self), #[trigger] b@[k]) == count_of(
                        all_cards(other),
                        b@[k],
                    ),
            decreases b.len() - i,
        {
            let code = b[i];
            let ca: usize = match ha.get(&code) {
                Some(v) => *v,
                None => 0,
            };
            let cb: usize = match hb.get(&code) {
                Some(v) => *v,
                None => 0,
            };
            if ca != cb {
                return false;
            }
            i = i + 1;
        }
        assert forall|c: u32| count_of(all_cards(self), c) == count_of(all_cards(other), c) by {
            if count_of(all_cards(self), c) > 0 {
                lemma_count_pos(all_cards(self), c);
                let k = choose|k: int| 0 <= k < a@.len() && a@[k] == c;
                assert(count_of(all_cards(self), a@[k]) == count_of(all_cards(other), a@[k]));
            } else if count_of(all_cards(other), c) > 0 {
                lemma_count_pos(all_cards(other), c);
                let k = choose|k: int| 0 <= k < b@.len() && b@[k] == c;
                assert(count_of(all_cards(self), b@[k]) == count_of(all_cards(other), b@[k]));
            }
        }
        true
    }

    /// Move the extra deck cards of the main deck into the extra deck.
    pub fn separate(&mut self, db: &CardDatabase)
        ensures
            final(self).main@ == filter_by(old(self).main@, |c: u32| not_extra(db.view(), c)),
            final(self).extra@ == moved_extra(old(self).main@, old(self).extra@, db.view()),
            final(self).side@ == old(self).side@,
    {
        separate_main_and_extra(&mut self.main, &mut self.extra, db);
    }

    /// Drop the unknown cards and the tokens from the main and side decks, then move
    /// the extra deck cards into the extra deck. Reports the last card dropped from
    /// the main deck, or else the last dropped from the side deck.
    pub fn load(&mut self, db: &CardDatabase) -> (r: Option<DeckError>)
        requires
            removed_cards(old(self).main@, db.view()).len() > 0 ==> removed_cards(
                old(self).main@,
                db.view(),
            ).last() < DECK_ERROR_CODE_BOUND,
            removed_cards(old(self).side@, db.view()).len() > 0 ==> removed_cards(
                old(self).side@,
                db.view(),
            ).last() < DECK_ERROR_CODE_BOUND,
        ensures
            final(self).main@ == filter_by(
                filter_by(old(self).main@, |c: u32| known_card(db.view(), c)),
                |c: u32| not_extra(db.view(), c),
            ),
            final(self).extra@ == moved_extra(
                filter_by(old(self).main@, |c: u32| known_card(db.view(), c)),
                old(self).extra@,
                db.view(),
            ),
            final(self).side@ == filter_by(old(self).side@, |c: u32| known_card(db.view(), c)),
            r == (if unknown_card_error(old(self).main@, db.view()) is Some {
                unknown_card_error(old(self).main@, db.view())
            } else {
                unknown_card_error(old(self).side@, db.view())
            }),
    {
        let main_error = remove_unknown_cards(&mut self.main, db);
        let side_error = remove_unknown_cards(&mut self.side, db);
        self.separate(db);
        match main_error {
            Some(e) => Some(e),
            None => side_error,
        }
    }

    /// Run every deck check: sizes, illegal cards, availability, the limit list.
    pub fn check(&self, lflist: &LFList, rule: Rule, db: &CardDatabase) -> (r: Result<(), DeckError>)
        requires
            fits_error(deck_check_result(self, *lflist, rule, db.view())),
        ensures
            matches_result(r, deck_check_result(self, *lflist, rule, db.view())),
    {
        let r = check_deck_length(self.main.as_slice(), self.extra.as_slice(), self.side.as_slice());
        if r.is_err() {
            return r;
        }
        let r = check_illegal_cards(&self.main, &self.side, &self.extra, db);
        if r.is_err() {
            return r;
        }
        let all = self.all_codes();
        let r = check_rule(all.as_slice(), rule, db);
        if r.is_err() {
            return r;
        }
        check_deck_lflists(all.as_slice(), lflist, db)
    }

    /// Check the deck against the limit list and the rule, resolving every card
    /// through the database.
    pub fn prepare(&self, lflist: &LFList, rule: Rule, db: &CardDatabase) -> (r: Result<(), DeckError>)
        requires
            fits_error(deck_check_result(self, *lflist, rule, db.view())),
        ensures
            matches_result(r, deck_check_result(self, *lflist, rule, db.view())),
    {
        self.check(lflist, rule, db)
    }

    /// Check a deck sent after siding: once its extra deck cards are separated, it
    /// must hold the same cards as this deck; otherwise a side-count error (code 0).
    pub fn check_after_replacing_side(&self, deck: &mut Deck, db: &CardDatabase) -> (r: Result<
        (),
        DeckError,
    >)
        ensures
            final(deck).main@ == filter_by(old(deck).main@, |c: u32| not_extra(db.view(), c)),
            final(deck).extra@ == moved_extra(old(deck).main@, old(deck).extra@, db.view()),
            final(deck).side@ == old(deck).side@,
            r is Ok <==> same_cards(self, &*final(deck)),
            r is Err ==> r == Err::<(), DeckError>(
                DeckError { code: 0, error_type: DeckErrorType::SideCount },
            ),
    {
        deck.separate(db);
        if self.eq(deck) {
            Ok(())
        } else {
            Err(DeckError::new(DeckErrorType::SideCount, 0))
        }
    }
}

/// The wire bytes of a deck: the number of main and extra deck cards, the number of side
/// deck cards, then the main, side and extra deck codes.
pub open spec fn deck_wire_bytes(d: &Deck) -> Seq<u8> {
    le32((d.main@.len() + d.extra@.len()) as u32) + (le32(d.side@.len() as u32) + (u32s_bytes(d.main@)
        + (u32s_bytes(d.side@) + u32s_bytes(d.extra@))))
}

/// How bytes read as a deck: the first count of codes is the main deck, the second the
/// side deck; the extra deck is left empty (it is sorted out of the main deck later).
pub open spec fn parse_deck_wire(d: Seq<u8>) -> Result<(Seq<u32>, Seq<u32>, Seq<u8>), ReadError> {
    match take_u32(d) {
        Err(e) => Err(e),
        Ok((m, d1)) => match take_u32(d1) {
            Err(e) => Err(e),
            Ok((s, d2)) => match take_u32s(d2, m as nat) {
                Err(e) => Err(e),
                Ok((main, d3)) => match take_u32s(d3, s as nat) {
                    Err(e) => Err(e),
                    Ok((side, d4)) => Ok((main, side, d4)),
                },
            },
        },
    }
}

impl Deck {
    /// Append the wire bytes of the deck (its counts must fit 32 bits).
    pub fn write(&self, out: &mut Vec<u8>)
        requires
            self.main@.len() + self.extra@.len() <= u32::MAX,
            self.side@.len() <= u32::MAX,
        ensures
            final(out)@ == old(out)@ + deck_wire_bytes(self),
    {
        let ghost start = out@;
        let total = (self.main.len() + self.extra.len()) as u32;
        push_u32(out, total);
        push_u32(out, self.side.len() as u32);
        write_u32s(out, &self.main);
        write_u32s(out, &self.side);
        write_u32s(out, &self.extra);
        assert(out@ =~= start + deck_wire_bytes(self));
    }

    /// Read a deck from the bytes `d`, with the number of bytes it took; its extra
    /// deck is empty.
    pub fn read(d: &[u8]) -> (r: Result<(Deck, usize), ReadError>)
        ensures
            match r {
                Ok((deck, n)) => n <= d@.len() && deck.extra@.len() == 0 && parse_deck_wire(d@)
                    == Ok::<(Seq<u32>, Seq<u32>, Seq<u8>), ReadError>((deck.main@, deck.side@, d@.skip(n as int))),
                Err(e) => parse_deck_wire(d@) == Err::<(Seq<u32>, Seq<u32>, Seq<u8>), ReadError>(e),
            },
    {
        assert(d@.skip(0) =~= d@);
        let (m, p) = read_u32_from(d, 0)?;
        let (s, p) = read_u32_from(d, p)?;
        let (main, p) = read_u32s_from(d, p, m)?;
        let (side, p) = read_u32s_from(d, p, s)?;
        Ok((Deck { main, side, extra: Vec::new() }, p))
    }
}

/// A deck with no extra deck and counts that fit 32 bits is read back from its bytes.
pub proof fn lemma_deck_wire_round_trip(d: Deck, rest: Seq<u8>)
    requires
        d.extra@.len() == 0,
        d.main@.len() <= u32::MAX,
        d.side@.len() <= u32::MAX,
    ensures
        parse_deck_wire(deck_wire_bytes(&d) + rest) == Ok::<(Seq<u32>, Seq<u32>, Seq<u8>), ReadError>((d.main@, d.side@, rest)),
{
    let r3 = u32s_bytes(d.side@) + (u32s_bytes(d.extra@) + rest);
    let r2 = u32s_bytes(d.main@) + r3;
    let r1 = le32(d.side@.len() as u32) + r2;
    assert(u32s_bytes(d.extra@) =~= Seq::<u8>::empty());
    assert(deck_wire_bytes(&d) + rest =~= le32((d.main@.len() + d.extra@.len()) as u32) + r1);
    assert(u32s_bytes(d.extra@) + rest =~= rest);
    lemma_take_u32((d.main@.len() + d.extra@.len()) as u32, r1);
    lemma_take_u32(d.side@.len() as u32, r2);
    lemma_take_u32s(d.main@, r3);
    lemma_take_u32s(d.side@, rest);
}

} // verus!
