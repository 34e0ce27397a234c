//! The card database as the server loads it: rule copies are told from alternative
//! artworks, rule codes are passed on from the card an alternative artwork copies, and
//! a few cards get archetypes their data lacks.
use vstd::prelude::*;

use crate::card::{is_alternative, spec_is_alternative, Card, CardDatabase};
use crate::constants::TYPE_TOKEN;

verus! {

/// The one card whose alias is always its rule code.
pub const RULE_ALIAS_CARD: u32 = 5405695;

/// A card as the database keeps it: an alias that does not name an alternative
/// artwork (of a card that is not a token) is the card's rule code, and so is the alias
/// of one particular card; the alias is then cleared.
pub open spec fn normalized(c: Card) -> Card {
    if c.code == RULE_ALIAS_CARD || (c.alias != 0 && c.card_type & TYPE_TOKEN == 0 && !spec_is_alternative(
        c.code,
        c.alias,
    )) {
        Card { rule_code: c.alias, alias: 0, ..c }
    } else {
        c
    }
}

/// The cards of `m` with the normalized `cards` added, one after the other.
pub open spec fn inserted_all(m: Map<u32, Card>, cards: Seq<Card>) -> Map<u32, Card>
    decreases cards.len(),
{
    if cards.len() == 0 {
        m
    } else {
        inserted_all(m, cards.drop_last()).insert(cards.last().code, normalized(cards.last()))
    }
}

/// Whether a card takes its rule code from the card it is an artwork of: it has an
/// alias, no rule code, and is not a token.
pub open spec fn waits_for_rule(c: Card) -> bool {
    c.rule_code == 0 && c.alias != 0 && c.card_type & TYPE_TOKEN == 0
}

/// Whether `r` is a rule code a card with alias `alias` may take: 0 for an unknown
/// alias; the alias's rule code when the alias does not take one itself; otherwise 0,
/// or the rule code the alias ends up with (the cards are visited in no set order).
pub open spec fn inherited_code(m1: Map<u32, Card>, m2: Map<u32, Card>, alias: u32, r: u32) -> bool {
    if !m1.contains_key(alias) {
        r == 0
    } else if !waits_for_rule(m1[alias]) {
        r == m1[alias].rule_code
    } else {
        r == 0 || r == m2[alias].rule_code
    }
}

/// Whether `m2` is `m1` with the rule codes passed on: the same codes; a card that
/// waits for a rule code gets one its alias allows, nothing else of it changes; every
/// other card stays.
pub open spec fn inherited(m1: Map<u32, Card>, m2: Map<u32, Card>) -> bool {
    &&& m2.dom() == m1.dom()
    &&& forall|c: u32| #[trigger] m1.contains_key(c) ==> {
        let k = m1[c];
        if waits_for_rule(k) {
            &&& m2[c] == Card { rule_code: m2[c].rule_code, ..k }
            &&& inherited_code(m1, m2, k.alias, m2[c].rule_code)
        } else {
            m2[c] == k
        }
    }
}

/// Whether a list of archetypes is used: it holds 1 to 16 entries.
pub open spec fn usable_setcodes(list: Seq<u16>) -> bool {
    1 <= list.len() <= 16
}

/// Whether `m3` is `m2` with the archetype lists of `extra` written over the first
/// archetypes of the cards they name (a list of none or more than 16 entries is
/// skipped, as is an unknown card).
pub open spec fn setcodes_applied(m2: Map<u32, Card>, m3: Map<u32, Card>, extra: Seq<(u32, Seq<u16>)>) -> bool {
    &&& m3.dom() == m2.dom()
    &&& forall|c: u32| #[trigger] m2.contains_key(c) ==> {
        if exists|i: int| 0 <= i < extra.len() && extra[i].0 == c && usable_setcodes(extra[i].1) {
            let i = choose|i: int| 0 <= i < extra.len() && extra[i].0 == c && usable_setcodes(extra[i].1);
            &&& m3[c] == Card { setcode: m3[c].setcode, ..m2[c] }
            &&& m3[c].setcode@ == extra[i].1 + m2[c].setcode@.skip(extra[i].1.len() as int)
        } else {
            m3[c] == m2[c]
        }
    }
}

/// No code occurs twice among the archetype lists.
pub open spec fn distinct_entry_codes(extra: Seq<(u32, Seq<u16>)>) -> bool {
    forall|i: int, j: int| 0 <= i < extra.len() && 0 <= j < extra.len() && i != j ==> extra[i].0 != extra[j].0
}

/// The cards a server knows, and archetypes some cards get beyond their data.
pub struct DataManager {
    pub cards: CardDatabase,
    pub extra_setcode: Vec<(u32, Vec<u16>)>,
}

impl DataManager {
    /// The archetype lists, as plain values.
    pub open spec fn extra_view(&self) -> Seq<(u32, Seq<u16>)> {
        self.extra_setcode@.map_values(|e: (u32, Vec<u16>)| (e.0, e.1@))
    }

    /// The database is well formed and no card has two archetype lists.
    pub open spec fn wf(&self) -> bool {
        &&& self.cards.wf()
        &&& distinct_entry_codes(self.extra_view())
    }

    /// No card yet; two cards get the archetypes 0x8f, 0x54, 0x59, 0x82 and 0x13a.
    pub fn new() -> (r: DataManager)
        ensures
            r.wf(),
            r.cards.view() == Map::<u32, Card>::empty(),
            r.extra_view() == seq![
                (8512558u32, seq![0x8fu16, 0x54, 0x59, 0x82, 0x13a]),
                (55088578u32, seq![0x8fu16, 0x54, 0x59, 0x82, 0x13a]),
            ],
    {
        let mut extra_setcode: Vec<(u32, Vec<u16>)> = Vec::new();
        extra_setcode.push((8512558u32, vec![0x8fu16, 0x54, 0x59, 0x82, 0x13a]));
        extra_setcode.push((55088578u32, vec![0x8fu16, 0x54, 0x59, 0x82, 0x13a]));
        let r = DataManager { cards: CardDatabase::new(), extra_setcode };
        assert(r.extra_view() =~= seq![
            (8512558u32, seq![0x8fu16, 0x54, 0x59, 0x82, 0x13a]),
            (55088578u32, seq![0x8fu16, 0x54, 0x59, 0x82, 0x13a]),
        ]);
        r
    }

    /// Load the cards of a card database file: each is added, normalized; then each
    /// card that waits for a rule code takes its alias's (see `inherited`); then the
    /// archetype lists are written over the cards they name.
    pub fn load_cards(&mut self, cards: &Vec<Card>)
        requires
            old(self).wf(),
        ensures
            final(self).wf(),
            final(self).extra_view() == old(self).extra_view(),
            exists|m2: Map<u32, Card>|
                inherited(inserted_all(old(self).cards.view(), cards@), m2) && setcodes_applied(
                    m2,
                    final(self).cards.view(),
                    old(self).extra_view(),
                ),
    {
        insert_normalized(&mut self.cards, cards);
        pass_rule_codes(&mut self.cards);
        apply_setcodes(&mut self.cards, &self.extra_setcode);
    }

    /// The card of a code.
    pub fn get_card(&self, code: u32) -> (r: Option<Card>)
        ensures
            r == (if self.cards.view().contains_key(code) {
                Some(self.cards.view()[code])
            } else {
                None
            }),
    {
        self.cards.get_card(code)
    }
}

/// A card as the database keeps it.
pub fn normalize(c: Card) -> (r: Card)
    ensures
        r == normalized(c),
{
    if c.code == RULE_ALIAS_CARD || (c.alias != 0 && c.card_type & TYPE_TOKEN == 0 && !is_alternative(
        c.code,
        c.alias,
    )) {
        Card { rule_code: c.alias, alias: 0, ..c }
    } else {
        c
    }
}

/// Add the cards, normalized, one after the other.
fn insert_normalized(db: &mut CardDatabase, cards: &Vec<Card>)
    requires
        old(db).wf(),
    ensures
        final(db).wf(),
        final(db).view() == inserted_all(old(db).view(), cards@),
{
    let ghost v0 = db.view();
    let mut i: usize = 0;
    assert(cards@.take(0) =~= Seq::<Card>::empty());
    while i < cards.len()
        invariant
            i <= cards@.len(),
            db.wf(),
            db.view() == inserted_all(v0, cards@.take(i as int)),
        decreases cards@.len() - i,
    {
        assert(cards@.take(i + 1).drop_last() =~= cards@.take(i as int));
        let c = normalize(cards[i]);
        db.insert(c);
        i = i + 1;
    }
    assert(cards@.take(i as int) =~= cards@);
}

/// What holds of a card once visited: see `inherited`, where an alias that waits for a
/// rule code itself and is not yet visited counts as having none.
pub open spec fn settled(m1: Map<u32, Card>, cur: Map<u32, Card>, done: Set<u32>, c: u32) -> bool {
    let k = m1[c];
    if waits_for_rule(k) {
        let r = cur[c].rule_code;
        &&& cur[c] == Card { rule_code: r, ..k }
        &&& if !m1.contains_key(k.alias) {
            r == 0
        } else if !waits_for_rule(m1[k.alias]) {
            r == m1[k.alias].rule_code
        } else {
            r == 0 || (done.contains(k.alias) && r == cur[k.alias].rule_code)
        }
    } else {
        cur[c] == k
    }
}

/// A visited card stays settled when another, not yet visited, is changed.
proof fn lemma_settled_stable(m1: Map<u32, Card>, cur: Map<u32, Card>, done: Set<u32>, code: u32, v: Card, c: u32)
    requires
        m1.contains_key(c),
        done.contains(c),
        !done.contains(code),
        settled(m1, cur, done, c),
    ensures
        settled(m1, cur.insert(code, v), done.insert(code), c),
{
    assert(c != code);
    let k = m1[c];
    if waits_for_rule(k) && m1.contains_key(k.alias) && waits_for_rule(m1[k.alias]) {
        if done.contains(k.alias) {
            assert(k.alias != code);
        }
    }
}

/// Pass the rule code of each card's alias on to the cards that wait for one, visiting
/// the cards in the order of their codes.
fn pass_rule_codes(db: &mut CardDatabase)
    requires
        old(db).wf(),
    ensures
        final(db).wf(),
        inherited(old(db).view(), final(db).view()),
{
    let ghost m1 = db.view();
    let ghost codes0 = db.codes@;
    let ghost mut done: Set<u32> = Set::empty();
    let n = db.codes.len();
    let mut i: usize = 0;
    while i < n
        invariant
            i <= n,
            n == codes0.len(),
            db.wf(),
            db.codes@ == codes0,
            db.view().dom() == m1.dom(),
            forall|c: u32| #[trigger] m1.contains_key(c) <==> codes0.contains(c),
            forall|c: u32| #[trigger] done.contains(c) <==> codes0.take(i as int).contains(c),
            forall|c: u32| #[trigger] m1.contains_key(c) && !done.contains(c) ==> db.view()[c] == m1[c],
            forall|c: u32| #[trigger] m1.contains_key(c) && done.contains(c) ==> settled(m1, db.view(), done, c),
            forall|c: u32| m1.contains_key(c) && !waits_for_rule(#[trigger] m1[c]) ==> db.view()[c] == m1[c],
        decreases n - i,
    {
        let code = db.codes[i];
        assert(codes0.contains(code));
        assert(!codes0.take(i as int).contains(code)) by {
            if codes0.take(i as int).contains(code) {
                let k = choose|k: int| 0 <= k < i && #[trigger] codes0.take(i as int)[k] == code;
                assert(codes0[k] == codes0[i as int]);
            }
        }
        let ghost cur = db.view();
        let card = match db.get_card(code) {
            Some(c) => c,
            None => {
                assert(false);
                return;
            },
        };
        assert(card == m1[code]);
        if card.rule_code == 0 && card.alias != 0 && card.card_type & TYPE_TOKEN == 0 {
            let r = match db.get_card(card.alias) {
                Some(a) => a.rule_code,
                None => 0,
            };
            let ghost newcard = Card { rule_code: r, ..card };
            db.insert(Card { rule_code: r, ..card });
            proof {
                let nd = done.insert(code);
                assert(db.view() == cur.insert(code, newcard));
                assert forall|c: u32| m1.contains_key(c) && done.contains(c) implies #[trigger] settled(m1, db.view(), nd, c) by {
                    lemma_settled_stable(m1, cur, done, code, newcard, c);
                }
                if m1.contains_key(card.alias) && waits_for_rule(m1[card.alias]) {
                    if done.contains(card.alias) {
                        assert(card.alias != code);
                        assert(r == db.view()[card.alias].rule_code);
                    } else {
                        assert(cur[card.alias] == m1[card.alias]);
                        assert(r == 0);
                    }
                } else if m1.contains_key(card.alias) {
                    assert(cur[card.alias] == m1[card.alias]);
                } else {
                    assert(!cur.contains_key(card.alias));
                }
                assert(settled(m1, db.view(), nd, code));
                assert(db.view().dom() =~= m1.dom());
                done = nd;
            }
        } else {
            proof {
                let nd = done.insert(code);
                assert forall|c: u32| m1.contains_key(c) && nd.contains(c) implies #[trigger] settled(m1, db.view(), nd, c) by {
                    if c != code {
                        assert(settled(m1, cur, done, c));
                    }
                }
                done = nd;
            }
        }
        proof {
            assert forall|c: u32| #[trigger] done.contains(c) <==> codes0.take(i + 1).contains(c) by {
                if c == code {
                    assert(codes0.take(i + 1)[i as int] == code);
                } else {
                    if codes0.take(i as int).contains(c) {
                        let k = choose|k: int| 0 <= k < i && #[trigger] codes0.take(i as int)[k] == c;
                        assert(codes0.take(i + 1)[k] == c);
                    }
                    if codes0.take(i + 1).contains(c) {
                        let k = choose|k: int| 0 <= k < i + 1 && #[trigger] codes0.take(i + 1)[k] == c;
                        assert(k != i);
                        assert(codes0.take(i as int)[k] == c);
                    }
                }
            }
        }
        i = i + 1;
    }
    proof {
        assert(codes0.take(n as int) =~= codes0);
        assert forall|c: u32| #[trigger] m1.contains_key(c) implies {
            let k = m1[c];
            if waits_for_rule(k) {
                &&& db.view()[c] == Card { rule_code: db.view()[c].rule_code, ..k }
                &&& inherited_code(m1, db.view(), k.alias, db.view()[c].rule_code)
            } else {
                db.view()[c] == k
            }
        } by {
            assert(done.contains(c));
            assert(settled(m1, db.view(), done, c));
        }
    }
}

/// What holds of the cards once the first `n` archetype lists are applied.
pub open spec fn applied_upto(m2: Map<u32, Card>, cur: Map<u32, Card>, extra: Seq<(u32, Seq<u16>)>, n: int) -> bool {
    &&& cur.dom() == m2.dom()
    &&& forall|c: u32| #[trigger] m2.contains_key(c) ==> {
        if exists|i: int| 0 <= i < n && extra[i].0 == c && usable_setcodes(extra[i].1) {
            let i = choose|i: int| 0 <= i < n && extra[i].0 == c && usable_setcodes(extra[i].1);
            &&& cur[c] == Card { setcode: cur[c].setcode, ..m2[c] }
            &&& cur[c].setcode@ == extra[i].1 + m2[c].setcode@.skip(extra[i].1.len() as int)
        } else {
            cur[c] == m2[c]
        }
    }
}

/// Write each usable archetype list over the first archetypes of the card it names.
fn apply_setcodes(db: &mut CardDatabase, extra: &Vec<(u32, Vec<u16>)>)
    requires
        old(db).wf(),
        distinct_entry_codes(extra@.map_values(|e: (u32, Vec<u16>)| (e.0, e.1@))),
    ensures
        final(db).wf(),
        setcodes_applied(old(db).view(), final(db).view(), extra@.map_values(|e: (u32, Vec<u16>)| (e.0, e.1@))),
{
    let ghost m2 = db.view();
    let ghost ev = extra@.map_values(|e: (u32, Vec<u16>)| (e.0, e.1@));
    let mut i: usize = 0;
    while i < extra.len()
        invariant
            i <= extra@.len(),
            ev == extra@.map_values(|e: (u32, Vec<u16>)| (e.0, e.1@)),
            distinct_entry_codes(ev),
            db.wf(),
            applied_upto(m2, db.view(), ev, i as int),
        decreases extra@.len() - i,
    {
        let ghost cur = db.view();
        let code = extra[i].0;
        let list = &extra[i].1;
        assert(ev[i as int] == (code, list@));
        if list.len() >= 1 && list.len() <= 16 {
            match db.get_card(code) {
                Some(card) => {
                    assert(forall|k: int| 0 <= k < i ==> ev[k].0 != code);
                    assert(card == m2[code]);
                    let mut sc = card.setcode;
                    let mut j: usize = 0;
                    while j < list.len()
                        invariant
                            j <= list@.len(),
                            list@.len() <= 16,
                            sc@.len() == 16,
                            forall|t: int| 0 <= t < j ==> sc@[t] == list@[t],
                            forall|t: int| j <= t < 16 ==> sc@[t] == card.setcode@[t],
                        decreases list@.len() - j,
                    {
                        sc[j] = list[j];
                        j = j + 1;
                    }
                    assert(sc@ =~= list@ + card.setcode@.skip(list@.len() as int));
                    let ghost newcard = Card { setcode: sc, ..card };
                    db.insert(Card { setcode: sc, ..card });
                    proof {
                        assert(db.view() == cur.insert(code, newcard));
                        assert(db.view().dom() =~= m2.dom());
                        assert forall|c: u32| #[trigger] m2.contains_key(c) implies {
                            if exists|k: int| 0 <= k < i + 1 && ev[k].0 == c && usable_setcodes(ev[k].1) {
                                let k = choose|k: int| 0 <= k < i + 1 && ev[k].0 == c && usable_setcodes(ev[k].1);
                                &&& db.view()[c] == Card { setcode: db.view()[c].setcode, ..m2[c] }
                                &&& db.view()[c].setcode@ == ev[k].1 + m2[c].setcode@.skip(ev[k].1.len() as int)
                            } else {
                                db.view()[c] == m2[c]
                            }
                        } by {
                            if c == code {
                                assert(0 <= i < i + 1 && ev[i as int].0 == c && usable_setcodes(ev[i as int].1));
                                let k = choose|k: int| 0 <= k < i + 1 && ev[k].0 == c && usable_setcodes(ev[k].1);
                                assert(k == i);
                            } else {
                                if exists|k: int| 0 <= k < i + 1 && ev[k].0 == c && usable_setcodes(ev[k].1) {
                                    let k = choose|k: int| 0 <= k < i + 1 && ev[k].0 == c && usable_setcodes(ev[k].1);
                                    assert(k < i);
                                    assert(exists|k2: int| 0 <= k2 < i && ev[k2].0 == c && usable_setcodes(ev[k2].1));
                                } else {
                                    assert(!exists|k2: int| 0 <= k2 < i && ev[k2].0 == c && usable_setcodes(ev[k2].1));
                                }
                            }
                        }
                    }
                },
                None => {
                    proof {
                        lemma_applied_step_skip(m2, cur, ev, i as int);
                    }
                },
            }
        } else {
            proof {
                lemma_applied_step_skip(m2, cur, ev, i as int);
            }
        }
        i = i + 1;
    }
    proof {
        assert(ev.len() == extra@.len());
    }
}

/// A list that is not applied (unusable, or its card unknown) leaves what holds as it is.
proof fn lemma_applied_step_skip(m2: Map<u32, Card>, cur: Map<u32, Card>, ev: Seq<(u32, Seq<u16>)>, i: int)
    requires
        0 <= i < ev.len(),
        applied_upto(m2, cur, ev, i),
        distinct_entry_codes(ev),
        !usable_setcodes(ev[i].1) || !m2.contains_key(ev[i].0),
    ensures
        applied_upto(m2, cur, ev, i + 1),
{
    assert forall|c: u32| #[trigger] m2.contains_key(c) implies {
        if exists|k: int| 0 <= k < i + 1 && ev[k].0 == c && usable_setcodes(ev[k].1) {
            let k = choose|k: int| 0 <= k < i + 1 && ev[k].0 == c && usable_setcodes(ev[k].1);
            &&& cur[c] == Card { setcode: cur[c].setcode, ..m2[c] }
            &&& cur[c].setcode@ == ev[k].1 + m2[c].setcode@.skip(ev[k].1.len() as int)
        } else {
            cur[c] == m2[c]
        }
    } by {
        if exists|k: int| 0 <= k < i + 1 && ev[k].0 == c && usable_setcodes(ev[k].1) {
            let k = choose|k: int| 0 <= k < i + 1 && ev[k].0 == c && usable_setcodes(ev[k].1);
            assert(k != i);
            assert(exists|k2: int| 0 <= k2 < i && ev[k2].0 == c && usable_setcodes(ev[k2].1));
            let k2 = choose|k2: int| 0 <= k2 < i && ev[k2].0 == c && usable_setcodes(ev[k2].1);
            assert(k2 == k) by {
                if k2 != k {
                    assert(ev[k2].0 == ev[k].0);
                }
            }
        }
    }
}

} // verus!
