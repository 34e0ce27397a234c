//! Game messages that say where a card is: a card moves, or is set face down. Whose
//! eyes its code is kept from depends on where the card goes and how it lies.
use vstd::prelude::*;

use crate::bytes::{le32, lemma_i32_round_trip, lemma_le32, put_u32, read_u32, u32_at, ReadError};
use crate::constants::{CorePlayer, Position, LOCATION_DECK, LOCATION_GRAVE, LOCATION_HAND, LOCATION_OVERLAY};
use crate::message::card_codes::{CardCode, GameMessage, Mask, MaskedClone};
use crate::message::game_message::MessageType;
use crate::single_duel::{face_down, move_code_hidden};

verus! {

/// Where a card is, as a game message gives it: its controller, its location, its
/// sequence there and its position; one byte each.
#[derive(Clone, Copy, Debug, PartialEq, Eq, Structural)]
pub struct CardPlace {
    pub controller: CorePlayer,
    pub location: u8,
    pub sequence: i8,
    pub position: Position,
}

/// The four bytes of a place.
pub open spec fn place_bytes(p: CardPlace) -> Seq<u8> {
    seq![p.controller.code(), p.location, p.sequence as u8, p.position.code()]
}

/// How the bytes of `d` from `i` on read as a place.
pub open spec fn place_at(d: Seq<u8>, i: int) -> Result<CardPlace, ReadError> {
    if d.len() < i + 1 {
        Err(ReadError::UnexpectedEnd)
    } else {
        match CorePlayer::of_code(d[i]) {
            None => Err(ReadError::NoVariantMatch),
            Some(controller) => if d.len() < i + 4 {
                Err(ReadError::UnexpectedEnd)
            } else {
                match Position::of_code(d[i + 3]) {
                    None => Err(ReadError::NoVariantMatch),
                    Some(position) => Ok(
                        CardPlace { controller, location: d[i + 1], sequence: d[i + 2] as i8, position },
                    ),
                }
            },
        }
    }
}

/// Append the bytes of a place.
fn write_place(out: &mut Vec<u8>, p: CardPlace)
    ensures
        final(out)@ == old(out)@ + place_bytes(p),
{
    let ghost start = out@;
    out.push(p.controller.value());
    out.push(p.location);
    out.push(p.sequence as u8);
    out.push(p.position.value());
    assert(out@ =~= start + place_bytes(p));
}

/// Read a place from the bytes of `d` at `i`.
fn read_place(d: &[u8], i: usize) -> (r: Result<CardPlace, ReadError>)
    ensures
        r == place_at(d@, i as int),
{
    if d.len() <= i {
        return Err(ReadError::UnexpectedEnd);
    }
    let controller = match CorePlayer::from_value(d[i]) {
        Some(x) => x,
        None => return Err(ReadError::NoVariantMatch),
    };
    if d.len() - i < 4 {
        return Err(ReadError::UnexpectedEnd);
    }
    let position = match Position::from_value(d[i + 3]) {
        Some(x) => x,
        None => return Err(ReadError::NoVariantMatch),
    };
    Ok(CardPlace { controller, location: d[i + 1], sequence: d[i + 2] as i8, position })
}

/// A place written after any prefix, and whatever follows, reads back as itself.
proof fn lemma_place_round_trip(p: Seq<u8>, place: CardPlace, q: Seq<u8>)
    ensures
        place_at(p + place_bytes(place) + q, p.len() as int) == Ok::<CardPlace, ReadError>(place),
{
    let d = p + place_bytes(place) + q;
    let i = p.len() as int;
    assert(d[i] == place.controller.code() && d[i + 1] == place.location && d[i + 2]
        == place.sequence as u8 && d[i + 3] == place.position.code());
    crate::bytes::lemma_i8_round_trip(place.sequence);
}

/// Four bytes of a number written after any prefix, and whatever follows, read back as it.
proof fn lemma_u32_round_trip_at(p: Seq<u8>, v: u32, q: Seq<u8>)
    ensures
        u32_at(p + le32(v) + q, p.len() as int) == v,
{
    lemma_le32(v);
    let d = p + le32(v) + q;
    let i = p.len() as int;
    assert(d[i] == le32(v)[0] && d[i + 1] == le32(v)[1] && d[i + 2] == le32(v)[2] && d[i + 3]
        == le32(v)[3]);
    assert(u32_at(d, i) == u32_at(le32(v), 0));
}

/// A card moves: its code, where it was, where it is, and why.
#[derive(Clone, Copy, Debug, PartialEq, Eq, Structural)]
pub struct Move {
    pub code: i32,
    pub previous: CardPlace,
    pub current: CardPlace,
    pub reason: u32,
}

impl Move {
    /// The type of this message.
    pub fn message_type() -> (r: MessageType)
        ensures
            r == MessageType::Move,
    {
        MessageType::Move
    }

    /// The wire bytes of the message body: the code, the two places, the reason.
    pub open spec fn bytes(self) -> Seq<u8> {
        le32(self.code as u32) + place_bytes(self.previous) + place_bytes(self.current) + le32(self.reason)
    }

    /// How the bytes `d` read as the message body.
    pub open spec fn parse(d: Seq<u8>) -> Result<Move, ReadError> {
        if d.len() < 4 {
            Err(ReadError::UnexpectedEnd)
        } else {
            match place_at(d, 4) {
                Err(e) => Err(e),
                Ok(previous) => match place_at(d, 8) {
                    Err(e) => Err(e),
                    Ok(current) => if d.len() < 16 {
                        Err(ReadError::UnexpectedEnd)
                    } else {
                        Ok(Move { code: u32_at(d, 0) as i32, previous, current, reason: u32_at(d, 12) })
                    },
                },
            }
        }
    }

    /// Append the wire bytes of the message body.
    pub fn write(&self, out: &mut Vec<u8>)
        ensures
            final(out)@ == old(out)@ + self.bytes(),
    {
        let ghost start = out@;
        put_u32(out, self.code as u32);
        write_place(out, self.previous);
        write_place(out, self.current);
        put_u32(out, self.reason);
        assert(out@ =~= start + self.bytes());
    }

    /// The wire bytes of the message body.
    pub fn to_bytes(&self) -> (r: Vec<u8>)
        ensures
            r@ == self.bytes(),
    {
        let mut out: Vec<u8> = Vec::new();
        self.write(&mut out);
        assert(out@ =~= self.bytes());
        out
    }

    /// Read the message body from the bytes `d` (bytes after it are left).
    pub fn read(d: &[u8]) -> (r: Result<Move, ReadError>)
        ensures
            r == Move::parse(d@),
    {
        if d.len() < 4 {
            return Err(ReadError::UnexpectedEnd);
        }
        let previous = match read_place(d, 4) {
            Ok(x) => x,
            Err(e) => return Err(e),
        };
        let current = match read_place(d, 8) {
            Ok(x) => x,
            Err(e) => return Err(e),
        };
        if d.len() < 16 {
            return Err(ReadError::UnexpectedEnd);
        }
        Ok(Move { code: read_u32(d, 0) as i32, previous, current, reason: read_u32(d, 12) })
    }

    /// The body written and read back is the same message.
    pub proof fn lemma_round_trip(self)
        ensures
            Move::parse(self.bytes()) == Ok::<Move, ReadError>(self),
            self.bytes().len() == 16,
    {
        let c = le32(self.code as u32);
        let a = place_bytes(self.previous);
        let b = place_bytes(self.current);
        let r = le32(self.reason);
        let d = self.bytes();
        lemma_le32(self.code as u32);
        lemma_le32(self.reason);
        lemma_u32_round_trip_at(Seq::empty(), self.code as u32, a + b + r);
        assert(Seq::<u8>::empty() + c + (a + b + r) =~= d);
        lemma_i32_round_trip(self.code);
        lemma_place_round_trip(c, self.previous, b + r);
        assert(c + a + (b + r) =~= d);
        lemma_place_round_trip(c + a, self.current, r);
        assert(c + a + b + r =~= d);
        lemma_u32_round_trip_at(c + a + b, self.reason, Seq::empty());
        assert(c + a + b + r + Seq::<u8>::empty() =~= d);
    }

    /// Whether the moved card's code is kept from `player`: the card is not theirs,
    /// did not go to a graveyard or an overlay, and went to a deck or a hand or lies
    /// face down.
    pub open spec fn code_hidden_from(self, player: CorePlayer) -> bool {
        &&& self.current.controller != player
        &&& self.current.location & (LOCATION_GRAVE | LOCATION_OVERLAY) == 0
        &&& (self.current.location & (LOCATION_DECK | LOCATION_HAND) != 0 || face_down(self.current.position))
    }
}

impl Mask for Move {
    /// The code is cleared; the rest stays.
    open spec fn is_masked_of(self, unmasked: Move) -> bool {
        self == (Move { code: 0, ..unmasked })
    }

    /// The same as masking for everyone.
    open spec fn is_masked_towards(self, unmasked: Move, player: CorePlayer) -> bool {
        self.is_masked_of(unmasked)
    }

    fn mask(&mut self) {
        self.code = 0;
    }

    fn mask_towards(&mut self, player: CorePlayer) {
        self.code = 0;
    }
}

impl MaskedClone for Move {
    fn clone_masked(&self) -> (r: Move) {
        Move { code: 0, ..*self }
    }
}

impl GameMessage for Move {
    /// Whoever the moved card's code is kept from (see `code_hidden_from`).
    open spec fn hidden_from(&self, player: CorePlayer) -> bool {
        self.code_hidden_from(player)
    }

    fn should_mask(&self, player: CorePlayer) -> (r: bool) {
        move_code_hidden(player, self.current.controller, self.current.location, self.current.position)
    }

    /// As the message's type says (see `awaits_answer` of a type).
    open spec fn awaits_answer(&self) -> bool {
        crate::single_duel::awaits_answer(MessageType::Move)
    }

    fn waiting_for_answer(&self) -> (r: bool) {
        crate::single_duel::is_prompt(MessageType::Move)
    }
}

/// A card is set: its code and where it lies.
#[derive(Clone, Copy, Debug, PartialEq, Eq, Structural)]
pub struct SetCard {
    pub code: i32,
    pub place: CardPlace,
}

impl SetCard {
    /// The type of this message.
    pub fn message_type() -> (r: MessageType)
        ensures
            r == MessageType::SetCard,
    {
        MessageType::SetCard
    }

    /// The wire bytes of the message body: the code, then the place.
    pub open spec fn bytes(self) -> Seq<u8> {
        le32(self.code as u32) + place_bytes(self.place)
    }

    /// How the bytes `d` read as the message body.
    pub open spec fn parse(d: Seq<u8>) -> Result<SetCard, ReadError> {
        if d.len() < 4 {
            Err(ReadError::UnexpectedEnd)
        } else {
            match place_at(d, 4) {
                Err(e) => Err(e),
                Ok(place) => Ok(SetCard { code: u32_at(d, 0) as i32, place }),
            }
        }
    }

    /// Append the wire bytes of the message body.
    pub fn write(&self, out: &mut Vec<u8>)
        ensures
            final(out)@ == old(out)@ + self.bytes(),
    {
        let ghost start = out@;
        put_u32(out, self.code as u32);
        write_place(out, self.place);
        assert(out@ =~= start + self.bytes());
    }

    /// The wire bytes of the message body.
    pub fn to_bytes(&self) -> (r: Vec<u8>)
        ensures
            r@ == self.bytes(),
    {
        let mut out: Vec<u8> = Vec::new();
        self.write(&mut out);
        assert(out@ =~= self.bytes());
        out
    }

    /// Read the message body from the bytes `d` (bytes after it are left).
    pub fn read(d: &[u8]) -> (r: Result<SetCard, ReadError>)
        ensures
            r == SetCard::parse(d@),
    {
        if d.len() < 4 {
            return Err(ReadError::UnexpectedEnd);
        }
        let place = match read_place(d, 4) {
            Ok(x) => x,
            Err(e) => return Err(e),
        };
        Ok(SetCard { code: read_u32(d, 0) as i32, place })
    }

    /// The body written and read back is the same message.
    pub proof fn lemma_round_trip(self)
        ensures
            SetCard::parse(self.bytes()) == Ok::<SetCard, ReadError>(self),
            self.bytes().len() == 8,
    {
        let c = le32(self.code as u32);
        let a = place_bytes(self.place);
        let d = self.bytes();
        lemma_le32(self.code as u32);
        lemma_u32_round_trip_at(Seq::empty(), self.code as u32, a);
        assert(Seq::<u8>::empty() + c + a =~= d);
        lemma_i32_round_trip(self.code);
        lemma_place_round_trip(c, self.place, Seq::empty());
        assert(c + a + Seq::<u8>::empty() =~= d);
    }
}

impl Mask for SetCard {
    /// The code is cleared; the place stays.
    open spec fn is_masked_of(self, unmasked: SetCard) -> bool {
        self == (SetCard { code: 0, ..unmasked })
    }

    /// The same as masking for everyone.
    open spec fn is_masked_towards(self, unmasked: SetCard, player: CorePlayer) -> bool {
        self.is_masked_of(unmasked)
    }

    fn mask(&mut self) {
        self.code = 0;
    }

    fn mask_towards(&mut self, player: CorePlayer) {
        self.code = 0;
    }
}

impl MaskedClone for SetCard {
    fn clone_masked(&self) -> (r: SetCard) {
        SetCard { code: 0, ..*self }
    }
}

impl GameMessage for SetCard {
    /// The set card's code is kept from everyone.
    open spec fn hidden_from(&self, player: CorePlayer) -> bool {
        true
    }

    fn should_mask(&self, player: CorePlayer) -> (r: bool) {
        true
    }

    /// As the message's type says (see `awaits_answer` of a type).
    open spec fn awaits_answer(&self) -> bool {
        crate::single_duel::awaits_answer(MessageType::SetCard)
    }

    fn waiting_for_answer(&self) -> (r: bool) {
        crate::single_duel::is_prompt(MessageType::SetCard)
    }
}

/// A monster is being special summoned: its code and where it goes; a face-down one's
/// code is kept from everyone.
#[derive(Clone, Copy, Debug, PartialEq, Eq, Structural)]
pub struct SpecialSummoning {
    pub code: CardCode,
    pub place: CardPlace,
}

impl SpecialSummoning {
    /// The type of this message.
    pub fn message_type() -> (r: MessageType)
        ensures
            r == MessageType::SpecialSummoning,
    {
        MessageType::SpecialSummoning
    }

    /// The wire bytes of the message body: the code, then the place.
    pub open spec fn bytes(self) -> Seq<u8> {
        le32(self.code.value) + place_bytes(self.place)
    }

    /// How the bytes `d` read as the message body.
    pub open spec fn parse(d: Seq<u8>) -> Result<SpecialSummoning, ReadError> {
        if d.len() < 4 {
            Err(ReadError::UnexpectedEnd)
        } else {
            match place_at(d, 4) {
                Err(e) => Err(e),
                Ok(place) => Ok(SpecialSummoning { code: CardCode { value: u32_at(d, 0) }, place }),
            }
        }
    }

    /// Append the wire bytes of the message body.
    pub fn write(&self, out: &mut Vec<u8>)
        ensures
            final(out)@ == old(out)@ + self.bytes(),
    {
        let ghost start = out@;
        put_u32(out, self.code.value);
        write_place(out, self.place);
        assert(out@ =~= start + self.bytes());
    }

    /// The wire bytes of the message body.
    pub fn to_bytes(&self) -> (r: Vec<u8>)
        ensures
            r@ == self.bytes(),
    {
        let mut out: Vec<u8> = Vec::new();
        self.write(&mut out);
        assert(out@ =~= self.bytes());
        out
    }

    /// Read the message body from the bytes `d` (bytes after it are left).
    pub fn read(d: &[u8]) -> (r: Result<SpecialSummoning, ReadError>)
        ensures
            r == SpecialSummoning::parse(d@),
    {
        if d.len() < 4 {
            return Err(ReadError::UnexpectedEnd);
        }
        let place = match read_place(d, 4) {
            Ok(x) => x,
            Err(e) => return Err(e),
        };
        Ok(SpecialSummoning { code: CardCode { value: read_u32(d, 0) }, place })
    }

    /// The body written and read back is the same message.
    pub proof fn lemma_round_trip(self)
        ensures
            SpecialSummoning::parse(self.bytes()) == Ok::<SpecialSummoning, ReadError>(self),
            self.bytes().len() == 8,
    {
        let c = le32(self.code.value);
        let a = place_bytes(self.place);
        let d = self.bytes();
        lemma_le32(self.code.value);
        lemma_u32_round_trip_at(Seq::empty(), self.code.value, a);
        assert(Seq::<u8>::empty() + c + a =~= d);
        lemma_place_round_trip(c, self.place, Seq::empty());
        assert(c + a + Seq::<u8>::empty() =~= d);
    }
}

impl Mask for SpecialSummoning {
    /// The code is masked; the place stays.
    open spec fn is_masked_of(self, unmasked: SpecialSummoning) -> bool {
        self.place == unmasked.place && self.code.is_masked_of(unmasked.code)
    }

    /// The same as masking for everyone.
    open spec fn is_masked_towards(self, unmasked: SpecialSummoning, player: CorePlayer) -> bool {
        self.is_masked_of(unmasked)
    }

    fn mask(&mut self) {
        let mut c = self.code;
        c.mask();
        self.code = c;
    }

    fn mask_towards(&mut self, player: CorePlayer) {
        let mut c = self.code;
        c.mask();
        self.code = c;
    }
}

impl MaskedClone for SpecialSummoning {
    fn clone_masked(&self) -> (r: SpecialSummoning) {
        SpecialSummoning { code: self.code.clone_masked(), place: self.place }
    }
}

impl GameMessage for SpecialSummoning {
    /// Everyone, when the monster lies face down; no one otherwise.
    open spec fn hidden_from(&self, player: CorePlayer) -> bool {
        face_down(self.place.position)
    }

    fn should_mask(&self, player: CorePlayer) -> (r: bool) {
        crate::single_duel::is_face_down(self.place.position)
    }

    /// As the message's type says (see `awaits_answer` of a type).
    open spec fn awaits_answer(&self) -> bool {
        crate::single_duel::awaits_answer(MessageType::SpecialSummoning)
    }

    fn waiting_for_answer(&self) -> (r: bool) {
        crate::single_duel::is_prompt(MessageType::SpecialSummoning)
    }
}

} // verus!
