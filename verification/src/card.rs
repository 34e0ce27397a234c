//! Card data as the deck checks read it, and the card database that resolves a code.
use vstd::prelude::*;
use std::collections::HashMap;


verus! {

broadcast use vstd::std_specs::hash::group_hash_axioms;

/// How far apart the codes of alternative artworks of one card may be.
pub const CARD_ARTWORK_VERSIONS_OFFSET: u32 = 20;

/// The data of a card that deck building reads.
#[derive(Clone, Copy, Debug, PartialEq, Eq)]
pub struct Card {
    /// The card code.
    pub code: u32,
    /// The card this one is an alternative artwork or a rule copy of (0 when none).
    pub alias: u32,
    /// The code the rules treat this card as (0 when it is the card itself).
    pub rule_code: u32,
    /// The availability bits (OCG, TCG, ...).
    pub ot: u32,
    /// The type bits.
    pub card_type: u32,
    /// The archetypes the card belongs to (0 for an unused entry).
    pub setcode: [u16; 16],
}

/// Whether `alias` is an alternative artwork of `code`: a nonzero alias within the
/// artwork offset of the code, on either side.
pub open spec fn spec_is_alternative(code: u32, alias: u32) -> bool {
    alias != 0 && alias < code + CARD_ARTWORK_VERSIONS_OFFSET && code < alias
        + CARD_ARTWORK_VERSIONS_OFFSET
}

/// Whether `alias` is an alternative artwork of `code`.
pub fn is_alternative(code: u32, alias: u32) -> (r: bool)
    ensures
        r == spec_is_alternative(code, alias),
{
    alias != 0 && (alias as u64) < (code as u64) + (CARD_ARTWORK_VERSIONS_OFFSET as u64)
        && (code as u64) < (alias as u64) + (CARD_ARTWORK_VERSIONS_OFFSET as u64)
}

impl Card {
    /// The code of the original artwork.
    pub open spec fn spec_original_code(self) -> u32 {
        if spec_is_alternative(self.code, self.alias) {
            self.alias
        } else {
            self.code
        }
    }

    /// The code the duel rules count this card as.
    pub open spec fn spec_duel_code(self) -> u32 {
        if self.rule_code != 0 {
            self.rule_code
        } else {
            self.spec_original_code()
        }
    }

    /// The code of the original artwork.
    pub fn original_code(&self) -> (r: u32)
        ensures
            r == self.spec_original_code(),
    {
        if is_alternative(self.code, self.alias) {
            self.alias
        } else {
            self.code
        }
    }

    /// The code the duel rules count this card as.
    pub fn duel_code(&self) -> (r: u32)
        ensures
            r == self.spec_duel_code(),
    {
        if self.rule_code != 0 {
            self.rule_code
        } else {
            self.original_code()
        }
    }
}

/// The cards known to the server, by code, and the codes in the order they were first
/// added.
pub struct CardDatabase {
    pub cards: HashMap<u32, Card>,
    pub codes: Vec<u32>,
}

/// No code occurs twice.
pub open spec fn distinct_codes(codes: Seq<u32>) -> bool {
    forall|i: int, j: int| 0 <= i < codes.len() && 0 <= j < codes.len() && i != j ==> codes[i] != codes[j]
}

/// The type bits of a code: those of its card, or none for an unknown code.
pub open spec fn type_of(db: Map<u32, Card>, code: u32) -> u32 {
    if db.contains_key(code) {
        db[code].card_type
    } else {
        0
    }
}

/// The availability bits of a code: those of its card, or none for an unknown code.
pub open spec fn ot_of(db: Map<u32, Card>, code: u32) -> u32 {
    if db.contains_key(code) {
        db[code].ot
    } else {
        0
    }
}

/// The duel code of a code: that of its card, or 0 for an unknown code.
pub open spec fn duel_code_of(db: Map<u32, Card>, code: u32) -> u32 {
    if db.contains_key(code) {
        db[code].spec_duel_code()
    } else {
        0
    }
}

impl CardDatabase {
    /// The cards by code.
    pub open spec fn view(&self) -> Map<u32, Card> {
        self.cards@
    }

    /// The codes list each known card once, and each card is kept under its code.
    pub open spec fn wf(&self) -> bool {
        &&& distinct_codes(self.codes@)
        &&& forall|c: u32| #[trigger] self.view().contains_key(c) <==> self.codes@.contains(c)
        &&& forall|c: u32| #[trigger] self.view().contains_key(c) ==> self.view()[c].code == c
    }

    /// An empty database.
    pub fn new() -> (r: CardDatabase)
        ensures
            r.view() == Map::<u32, Card>::empty(),
            r.codes@.len() == 0,
            r.wf(),
    {
        CardDatabase { cards: HashMap::new(), codes: Vec::new() }
    }

    /// Add or replace a card, keyed by its code; a new code goes to the end of the codes.
    pub fn insert(&mut self, card: Card)
        requires
            old(self).wf(),
        ensures
            final(self).wf(),
            final(self).view() == old(self).view().insert(card.code, card),
            final(self).codes@ == if old(self).view().contains_key(card.code) {
                old(self).codes@
            } else {
                old(self).codes@.push(card.code)
            },
    {
        let ghost v0 = self.view();
        let ghost before = self.codes@;
        let known = self.cards.contains_key(&card.code);
        assert(known == v0.contains_key(card.code));
        self.cards.insert(card.code, card);
        if !known {
            self.codes.push(card.code);
            assert(self.codes@ == before.push(card.code));
            assert forall|i: int, j: int|
                0 <= i < self.codes@.len() && 0 <= j < self.codes@.len() && i != j implies self.codes@[i]
                != self.codes@[j] by {
                if i < before.len() && j < before.len() {
                    assert(before[i] != before[j]);
                } else if i < before.len() {
                    assert(before.contains(before[i]));
                    assert(v0.contains_key(before[i]));
                } else {
                    assert(before.contains(before[j]));
                    assert(v0.contains_key(before[j]));
                }
            }
            assert forall|c: u32| #[trigger] self.view().contains_key(c) <==> self.codes@.contains(c) by {
                if c == card.code {
                    assert(self.codes@[before.len() as int] == c);
                } else {
                    if before.contains(c) {
                        let k = choose|k: int| 0 <= k < before.len() && before[k] == c;
                        assert(self.codes@[k] == c);
                    }
                    if self.codes@.contains(c) {
                        let k = choose|k: int| 0 <= k < self.codes@.len() && self.codes@[k] == c;
                        assert(k < before.len());
                        assert(before[k] == c);
                        assert(before.contains(c));
                    }
                    assert(v0.contains_key(c) <==> before.contains(c));
                }
            }
        } else {
            assert forall|c: u32| #[trigger] self.view().contains_key(c) <==> self.codes@.contains(c) by {
                assert(v0.contains_key(c) <==> before.contains(c));
            }
        }
    }

    /// The card of a code.
    pub fn get_card(&self, code: u32) -> (r: Option<Card>)
        ensures
            r == (if self.view().contains_key(code) {
                Some(self.view()[code])
            } else {
                None
            }),
    {
        match self.cards.get(&code) {
            Some(c) => Some(*c),
            None => None,
        }
    }

    /// The type bits of a code (none for an unknown code).
    pub fn type_of(&self, code: u32) -> (r: u32)
        ensures
            r == type_of(self.view(), code),
    {
        match self.get_card(code) {
            Some(c) => c.card_type,
            None => 0,
        }
    }

    /// The availability bits of a code (none for an unknown code).
    pub fn ot_of(&self, code: u32) -> (r: u32)
        ensures
            r == ot_of(self.view(), code),
    {
        match self.get_card(code) {
            Some(c) => c.ot,
            None => 0,
        }
    }

    /// The duel code of a code (0 for an unknown code).
    pub fn duel_code_of(&self, code: u32) -> (r: u32)
        ensures
            r == duel_code_of(self.view(), code),
    {
        match self.get_card(code) {
            Some(c) => c.duel_code(),
            None => 0,
        }
    }
}

} // verus!
