//! A player's response to a select prompt, and its wire form.
use vstd::prelude::*;

use crate::bytes::{
    le16, le32, lemma_le16, lemma_le32, lemma_u16s_round_trip, push_u16, push_u16s, push_u32,
    read_u16, read_u16s, read_u32, u16_at, u16s_at, u16s_bytes, u32_at, ReadError,
};
use crate::constants::{CorePlayer, Position};
use crate::message::gm::MessageType;

verus! {

/// The idle-phase command a player picks, answered to a `SelectIdleCommand` message.
#[derive(Clone, Copy, Debug, PartialEq, Eq, Structural)]
pub enum IdleCommand {
    Summon,
    SpecialSummon,
    Reposition,
    SetMonster,
    SetSpellTrap,
    Activate,
    EnterBattlePhase,
    EnterEndPhase,
    ShuffleDeck,
}

impl IdleCommand {
    /// The wire value of each variant.
    pub open spec fn code(self) -> u16 {
        match self {
            IdleCommand::Summon => 0u16,
            IdleCommand::SpecialSummon => 1u16,
            IdleCommand::Reposition => 2u16,
            IdleCommand::SetMonster => 3u16,
            IdleCommand::SetSpellTrap => 4u16,
            IdleCommand::Activate => 5u16,
            IdleCommand::EnterBattlePhase => 6u16,
            IdleCommand::EnterEndPhase => 7u16,
            IdleCommand::ShuffleDeck => 8u16,
        }
    }

    /// The variant a wire value stands for, if any.
    pub open spec fn of_code(v: u16) -> Option<IdleCommand> {
        if v == 0u16 {
            Some(IdleCommand::Summon)
        } else if v == 1u16 {
            Some(IdleCommand::SpecialSummon)
        } else if v == 2u16 {
            Some(IdleCommand::Reposition)
        } else if v == 3u16 {
            Some(IdleCommand::SetMonster)
        } else if v == 4u16 {
            Some(IdleCommand::SetSpellTrap)
        } else if v == 5u16 {
            Some(IdleCommand::Activate)
        } else if v == 6u16 {
            Some(IdleCommand::EnterBattlePhase)
        } else if v == 7u16 {
            Some(IdleCommand::EnterEndPhase)
        } else if v == 8u16 {
            Some(IdleCommand::ShuffleDeck)
        } else {
            None
        }
    }

    /// The wire value of this variant.
    pub fn value(self) -> (r: u16)
        ensures
            r == self.code(),
            IdleCommand::of_code(r) == Some(self),
    {
        match self {
            IdleCommand::Summon => 0u16,
            IdleCommand::SpecialSummon => 1u16,
            IdleCommand::Reposition => 2u16,
            IdleCommand::SetMonster => 3u16,
            IdleCommand::SetSpellTrap => 4u16,
            IdleCommand::Activate => 5u16,
            IdleCommand::EnterBattlePhase => 6u16,
            IdleCommand::EnterEndPhase => 7u16,
            IdleCommand::ShuffleDeck => 8u16,
        }
    }

    /// The variant a wire value stands for; `None` for any other value.
    pub fn from_value(v: u16) -> (r: Option<IdleCommand>)
        ensures
            r == IdleCommand::of_code(v),
            r matches Some(x) ==> x.code() == v,
    {
        if v == 0u16 {
            Some(IdleCommand::Summon)
        } else if v == 1u16 {
            Some(IdleCommand::SpecialSummon)
        } else if v == 2u16 {
            Some(IdleCommand::Reposition)
        } else if v == 3u16 {
            Some(IdleCommand::SetMonster)
        } else if v == 4u16 {
            Some(IdleCommand::SetSpellTrap)
        } else if v == 5u16 {
            Some(IdleCommand::Activate)
        } else if v == 6u16 {
            Some(IdleCommand::EnterBattlePhase)
        } else if v == 7u16 {
            Some(IdleCommand::EnterEndPhase)
        } else if v == 8u16 {
            Some(IdleCommand::ShuffleDeck)
        } else {
            None
        }
    }
}

/// The battle-phase command a player picks, answered to a `SelectBattleCommand` message.
#[derive(Clone, Copy, Debug, PartialEq, Eq, Structural)]
pub enum BattleCommand {
    Activate,
    Attack,
    EnterMainPhase2,
    EnterEndPhase,
}

impl BattleCommand {
    /// The wire value of each variant.
    pub open spec fn code(self) -> u16 {
        match self {
            BattleCommand::Activate => 0u16,
            BattleCommand::Attack => 1u16,
            BattleCommand::EnterMainPhase2 => 2u16,
            BattleCommand::EnterEndPhase => 3u16,
        }
    }

    /// The variant a wire value stands for, if any.
    pub open spec fn of_code(v: u16) -> Option<BattleCommand> {
        if v == 0u16 {
            Some(BattleCommand::Activate)
        } else if v == 1u16 {
            Some(BattleCommand::Attack)
        } else if v == 2u16 {
            Some(BattleCommand::EnterMainPhase2)
        } else if v == 3u16 {
            Some(BattleCommand::EnterEndPhase)
        } else {
            None
        }
    }

    /// The wire value of this variant.
    pub fn value(self) -> (r: u16)
        ensures
            r == self.code(),
            BattleCommand::of_code(r) == Some(self),
    {
        match self {
            BattleCommand::Activate => 0u16,
            BattleCommand::Attack => 1u16,
            BattleCommand::EnterMainPhase2 => 2u16,
            BattleCommand::EnterEndPhase => 3u16,
        }
    }

    /// The variant a wire value stands for; `None` for any other value.
    pub fn from_value(v: u16) -> (r: Option<BattleCommand>)
        ensures
            r == BattleCommand::of_code(v),
            r matches Some(x) ==> x.code() == v,
    {
        if v == 0u16 {
            Some(BattleCommand::Activate)
        } else if v == 1u16 {
            Some(BattleCommand::Attack)
        } else if v == 2u16 {
            Some(BattleCommand::EnterMainPhase2)
        } else if v == 3u16 {
            Some(BattleCommand::EnterEndPhase)
        } else {
            None
        }
    }
}

/// A player's response to a select prompt.
///
/// Each variant answers a particular game message type: a response means something
/// only together with the message that prompted it. `Unknown` holds the raw bytes
/// while the prompting message type is not known. A location is its bit set, a race
/// and an attribute their bit sets.
#[derive(Clone, Debug)]
pub enum Response {
    /// Declines a `SelectCard`, `SelectUnselectCard` or `SelectTribute`.
    Cancel,
    SelectIdleCommand(IdleCommand, u16),
    SelectBattleCommand(BattleCommand, u16),
    /// Answers `SelectYesNo` and `SelectEffectYesNo`.
    SelectYesNo(bool),
    /// Answers `SelectOption` and `AnnounceNumber`.
    SelectOption(u8),
    SelectChain(u8),
    /// Declines a `SelectChain`.
    DeclineChain,
    SelectPosition(Position),
    /// Answers `SelectCard`.
    SelectCards(Vec<u16>),
    /// Answers `SelectUnselectCard`.
    SelectUnselectCards(u16),
    SelectTribute(Vec<u16>),
    SelectSum(Vec<u16>),
    SelectCounter(Vec<u16>),
    /// Answers `SelectPlace` and `SelectDisableField`: player, location bits, sequence.
    SelectPlace(CorePlayer, u8, u8),
    /// Declines a `SelectPlace` or `SelectDisableField`.
    DeclinePlace,
    /// Answers `SortCard`.
    SortCards(Vec<u16>),
    /// Answers `SortCard`, keeping the card order.
    KeepCardOrder,
    AnnounceRace(u32),
    AnnounceAttribute(u32),
    AnnounceCard(u32),
    /// Raw bytes, while the prompting message type is unknown.
    Unknown(Vec<u8>),
}

/// What a response holds, its lists taken as sequences.
pub enum ResponseView {
    Cancel,
    SelectIdleCommand(IdleCommand, u16),
    SelectBattleCommand(BattleCommand, u16),
    SelectYesNo(bool),
    SelectOption(u8),
    SelectChain(u8),
    DeclineChain,
    SelectPosition(Position),
    SelectCards(Seq<u16>),
    SelectUnselectCards(u16),
    SelectTribute(Seq<u16>),
    SelectSum(Seq<u16>),
    SelectCounter(Seq<u16>),
    SelectPlace(CorePlayer, u8, u8),
    DeclinePlace,
    SortCards(Seq<u16>),
    KeepCardOrder,
    AnnounceRace(u32),
    AnnounceAttribute(u32),
    AnnounceCard(u32),
    Unknown(Seq<u8>),
}

impl View for Response {
    type V = ResponseView;

    open spec fn view(&self) -> ResponseView {
        match self {
            Response::Cancel => ResponseView::Cancel,
            Response::SelectIdleCommand(c, i) => ResponseView::SelectIdleCommand(*c, *i),
            Response::SelectBattleCommand(c, i) => ResponseView::SelectBattleCommand(*c, *i),
            Response::SelectYesNo(b) => ResponseView::SelectYesNo(*b),
            Response::SelectOption(x) => ResponseView::SelectOption(*x),
            Response::SelectChain(x) => ResponseView::SelectChain(*x),
            Response::DeclineChain => ResponseView::DeclineChain,
            Response::SelectPosition(p) => ResponseView::SelectPosition(*p),
            Response::SelectCards(v) => ResponseView::SelectCards(v@),
            Response::SelectUnselectCards(i) => ResponseView::SelectUnselectCards(*i),
            Response::SelectTribute(v) => ResponseView::SelectTribute(v@),
            Response::SelectSum(v) => ResponseView::SelectSum(v@),
            Response::SelectCounter(v) => ResponseView::SelectCounter(v@),
            Response::SelectPlace(p, l, s) => ResponseView::SelectPlace(*p, *l, *s),
            Response::DeclinePlace => ResponseView::DeclinePlace,
            Response::SortCards(v) => ResponseView::SortCards(v@),
            Response::KeepCardOrder => ResponseView::KeepCardOrder,
            Response::AnnounceRace(x) => ResponseView::AnnounceRace(*x),
            Response::AnnounceAttribute(x) => ResponseView::AnnounceAttribute(*x),
            Response::AnnounceCard(x) => ResponseView::AnnounceCard(*x),
            Response::Unknown(d) => ResponseView::Unknown(d@),
        }
    }
}

/// The four bytes of -1, the "decline" answer of several prompts.
pub open spec fn minus_one_bytes() -> Seq<u8> {
    seq![0xffu8, 0xffu8, 0xffu8, 0xffu8]
}

/// A count byte followed by that many 16-bit indices (the count is the low byte of
/// the length).
pub open spec fn counted_bytes(v: Seq<u16>) -> Seq<u8> {
    seq![(v.len() % 256) as u8] + u16s_bytes(v)
}

impl ResponseView {
    /// The wire bytes of a response.
    pub open spec fn bytes(self) -> Seq<u8> {
        match self {
            ResponseView::Cancel => minus_one_bytes(),
            ResponseView::SelectIdleCommand(c, i) => le16(c.code()) + le16(i),
            ResponseView::SelectBattleCommand(c, i) => le16(c.code()) + le16(i),
            ResponseView::SelectYesNo(b) => seq![if b { 1u8 } else { 0u8 }],
            ResponseView::SelectOption(x) => seq![x],
            ResponseView::SelectChain(x) => seq![x],
            ResponseView::DeclineChain => minus_one_bytes(),
            ResponseView::SelectPosition(p) => seq![p.code()],
            ResponseView::SelectCards(v) => counted_bytes(v),
            ResponseView::SelectUnselectCards(i) => seq![1u8] + le16(i),
            ResponseView::SelectTribute(v) => counted_bytes(v),
            ResponseView::SelectSum(v) => counted_bytes(v),
            ResponseView::SelectCounter(v) => u16s_bytes(v),
            ResponseView::SelectPlace(p, l, s) => seq![p.code(), l, s],
            ResponseView::DeclinePlace => seq![0u8, 0u8, 0u8],
            ResponseView::SortCards(v) => u16s_bytes(v),
            ResponseView::KeepCardOrder => seq![0xffu8],
            ResponseView::AnnounceRace(x) => le32(x),
            ResponseView::AnnounceAttribute(x) => le32(x),
            ResponseView::AnnounceCard(x) => le32(x),
            ResponseView::Unknown(d) => d,
        }
    }

    /// Whether this response answers a prompt of type `mt`.
    pub open spec fn answers(self, mt: MessageType) -> bool {
        match self {
            ResponseView::Cancel => mt == MessageType::SelectCard || mt
                == MessageType::SelectUnselectCard || mt == MessageType::SelectTribute,
            ResponseView::SelectIdleCommand(_, _) => mt == MessageType::SelectIdleCommand,
            ResponseView::SelectBattleCommand(_, _) => mt == MessageType::SelectBattleCommand,
            ResponseView::SelectYesNo(_) => mt == MessageType::SelectYesNo || mt
                == MessageType::SelectEffectYesNo,
            ResponseView::SelectOption(_) => mt == MessageType::SelectOption || mt
                == MessageType::AnnounceNumber,
            ResponseView::SelectChain(_) => mt == MessageType::SelectChain,
            ResponseView::DeclineChain => mt == MessageType::SelectChain,
            ResponseView::SelectPosition(_) => mt == MessageType::SelectPosition,
            ResponseView::SelectCards(_) => mt == MessageType::SelectCard,
            ResponseView::SelectUnselectCards(_) => mt == MessageType::SelectUnselectCard,
            ResponseView::SelectTribute(_) => mt == MessageType::SelectTribute,
            ResponseView::SelectSum(_) => mt == MessageType::SelectSum,
            ResponseView::SelectCounter(_) => mt == MessageType::SelectCounter,
            ResponseView::SelectPlace(_, _, _) => mt == MessageType::SelectPlace || mt
                == MessageType::SelectDisableField,
            ResponseView::DeclinePlace => mt == MessageType::SelectPlace || mt
                == MessageType::SelectDisableField,
            ResponseView::SortCards(_) => mt == MessageType::SortCard,
            ResponseView::KeepCardOrder => mt == MessageType::SortCard,
            ResponseView::AnnounceRace(_) => mt == MessageType::AnnounceRace,
            ResponseView::AnnounceAttribute(_) => mt == MessageType::AnnounceAttribute,
            ResponseView::AnnounceCard(_) => mt == MessageType::AnnounceCard,
            ResponseView::Unknown(_) => false,
        }
    }
}

/// Reading `d` as a count byte and that many indices.
pub open spec fn parse_counted(d: Seq<u8>) -> Result<Seq<u16>, ReadError> {
    if d.len() < 1 {
        Err(ReadError::UnexpectedEnd)
    } else if d.len() < 1 + 2 * d[0] {
        Err(ReadError::UnexpectedEnd)
    } else {
        Ok(u16s_at(d, 1, d[0] as nat))
    }
}

/// The 16-bit numbers `d` holds, a last odd byte left out.
pub open spec fn parse_until_end(d: Seq<u8>) -> Seq<u16> {
    u16s_at(d, 0, d.len() / 2)
}

/// How the bytes `d` read as a response to a prompt of type `mt`.
pub open spec fn parse_response(d: Seq<u8>, mt: MessageType) -> Result<ResponseView, ReadError> {
    let end = Err::<ResponseView, ReadError>(ReadError::UnexpectedEnd);
    let no_variant = Err::<ResponseView, ReadError>(ReadError::NoVariantMatch);
    match mt {
        MessageType::SelectIdleCommand => if d.len() < 2 {
            end
        } else {
            match IdleCommand::of_code(u16_at(d, 0)) {
                None => no_variant,
                Some(c) => if d.len() < 4 {
                    end
                } else {
                    Ok(ResponseView::SelectIdleCommand(c, u16_at(d, 2)))
                },
            }
        },
        MessageType::SelectBattleCommand => if d.len() < 2 {
            end
        } else {
            match BattleCommand::of_code(u16_at(d, 0)) {
                None => no_variant,
                Some(c) => if d.len() < 4 {
                    end
                } else {
                    Ok(ResponseView::SelectBattleCommand(c, u16_at(d, 2)))
                },
            }
        },
        MessageType::SelectEffectYesNo | MessageType::SelectYesNo => if d.len() < 1 {
            end
        } else {
            Ok(ResponseView::SelectYesNo(d[0] != 0))
        },
        MessageType::SelectOption | MessageType::AnnounceNumber => if d.len() < 1 {
            end
        } else {
            Ok(ResponseView::SelectOption(d[0]))
        },
        MessageType::SelectPosition => if d.len() < 1 {
            end
        } else {
            match Position::of_code(d[0]) {
                None => no_variant,
                Some(p) => Ok(ResponseView::SelectPosition(p)),
            }
        },
        MessageType::SelectCounter => Ok(ResponseView::SelectCounter(parse_until_end(d))),
        MessageType::AnnounceRace => if d.len() < 4 {
            end
        } else {
            Ok(ResponseView::AnnounceRace(u32_at(d, 0)))
        },
        MessageType::AnnounceAttribute => if d.len() < 4 {
            end
        } else {
            Ok(ResponseView::AnnounceAttribute(u32_at(d, 0)))
        },
        MessageType::AnnounceCard => if d.len() < 4 {
            end
        } else {
            Ok(ResponseView::AnnounceCard(u32_at(d, 0)))
        },
        MessageType::SelectChain => if d == minus_one_bytes() {
            Ok(ResponseView::DeclineChain)
        } else if d.len() < 1 {
            end
        } else {
            Ok(ResponseView::SelectChain(d[0]))
        },
        MessageType::SelectCard => if d == minus_one_bytes() {
            Ok(ResponseView::Cancel)
        } else {
            match parse_counted(d) {
                Ok(v) => Ok(ResponseView::SelectCards(v)),
                Err(e) => Err(e),
            }
        },
        MessageType::SelectUnselectCard => if d == minus_one_bytes() {
            Ok(ResponseView::Cancel)
        } else if d.len() < 1 {
            end
        } else if d[0] != 1 {
            no_variant
        } else if d.len() < 3 {
            end
        } else {
            Ok(ResponseView::SelectUnselectCards(u16_at(d, 1)))
        },
        MessageType::SelectTribute => if d == minus_one_bytes() {
            Ok(ResponseView::Cancel)
        } else {
            match parse_counted(d) {
                Ok(v) => Ok(ResponseView::SelectTribute(v)),
                Err(e) => Err(e),
            }
        },
        MessageType::SelectSum => match parse_counted(d) {
            Ok(v) => Ok(ResponseView::SelectSum(v)),
            Err(e) => Err(e),
        },
        MessageType::SelectPlace | MessageType::SelectDisableField => if d.len() < 1 {
            end
        } else {
            match CorePlayer::of_code(d[0]) {
                None => no_variant,
                Some(p) => if d.len() < 3 {
                    end
                } else if p == CorePlayer::FirstAttackPlayer && d[1] == 0 && d[2] == 0 {
                    Ok(ResponseView::DeclinePlace)
                } else {
                    Ok(ResponseView::SelectPlace(p, d[1], d[2]))
                },
            }
        },
        MessageType::SortCard => if d == seq![0xffu8] {
            Ok(ResponseView::KeepCardOrder)
        } else {
            Ok(ResponseView::SortCards(parse_until_end(d)))
        },
        _ => no_variant,
    }
}

/// A response read from bytes, seen through its view.
pub open spec fn parsed_view(r: Result<Response, ReadError>) -> Result<ResponseView, ReadError> {
    match r {
        Ok(x) => Ok(x@),
        Err(e) => Err(e),
    }
}

/// The response a player's answer stands for once the prompt is known: raw bytes are
/// read as an answer to `mt` where they can be, and kept raw where they cannot.
pub open spec fn resolved(r: ResponseView, mt: MessageType) -> ResponseView {
    match r {
        ResponseView::Unknown(d) => match parse_response(d, mt) {
            Ok(x) => x,
            Err(_) => r,
        },
        _ => r,
    }
}

/// Whether a response to the last select prompt, of type `mt`, is one that may be
/// passed on: never for a `Retry`; a cancel except for `SelectUnselectCard`; never a
/// declined chain or an unselect; an idle command up to `Activate`; a battle command
/// up to `Attack`; anything else.
pub open spec fn is_meaningful(r: ResponseView, mt: MessageType) -> bool {
    if mt == MessageType::Retry {
        false
    } else {
        match resolved(r, mt) {
            ResponseView::Cancel => mt != MessageType::SelectUnselectCard,
            ResponseView::DeclineChain => false,
            ResponseView::SelectUnselectCards(_) => false,
            ResponseView::SelectIdleCommand(c, _) => c.code() <= 5,
            ResponseView::SelectBattleCommand(c, _) => c.code() <= 1,
            _ => true,
        }
    }
}

/// Whether the bytes are the four bytes of -1.
fn is_minus_one(d: &[u8]) -> (r: bool)
    ensures
        r == (d@ == minus_one_bytes()),
{
    if d.len() == 4 && d[0] == 0xff && d[1] == 0xff && d[2] == 0xff && d[3] == 0xff {
        assert(d@ =~= minus_one_bytes());
        true
    } else {
        false
    }
}

/// Read a count byte and that many indices.
fn read_counted(d: &[u8]) -> (r: Result<Vec<u16>, ReadError>)
    ensures
        match r {
            Ok(v) => parse_counted(d@) == Ok::<Seq<u16>, ReadError>(v@),
            Err(e) => parse_counted(d@) == Err::<Seq<u16>, ReadError>(e),
        },
{
    if d.len() < 1 {
        return Err(ReadError::UnexpectedEnd);
    }
    let n = d[0] as usize;
    if d.len() - 1 < 2 * n {
        return Err(ReadError::UnexpectedEnd);
    }
    Ok(read_u16s(d, 1, n))
}

impl Response {
    /// The number of bytes the response takes on the wire.
    pub fn len(&self) -> (r: usize)
        requires
            self@.bytes().len() <= usize::MAX,
        ensures
            r == self@.bytes().len(),
    {
        proof {
            lemma_le16(0);
            lemma_le32(0);
        }
        match self {
            Response::Cancel => 4,
            Response::SelectIdleCommand(_, _) => 4,
            Response::SelectBattleCommand(_, _) => 4,
            Response::SelectYesNo(_) => 1,
            Response::SelectOption(_) => 1,
            Response::SelectChain(_) => 1,
            Response::DeclineChain => 4,
            Response::SelectPosition(_) => 1,
            Response::SelectCards(v) => 1 + v.len() * 2,
            Response::SelectUnselectCards(_) => 3,
            Response::SelectTribute(v) => 1 + v.len() * 2,
            Response::SelectSum(v) => 1 + v.len() * 2,
            Response::SelectCounter(v) => v.len() * 2,
            Response::SelectPlace(_, _, _) => 3,
            Response::DeclinePlace => 3,
            Response::SortCards(v) => v.len() * 2,
            Response::KeepCardOrder => 1,
            Response::AnnounceRace(_) => 4,
            Response::AnnounceAttribute(_) => 4,
            Response::AnnounceCard(_) => 4,
            Response::Unknown(d) => d.len(),
        }
    }

    /// Append the wire bytes of the response.
    pub fn write(&self, out: &mut Vec<u8>)
        ensures
            final(out)@ == old(out)@ + self@.bytes(),
    {
        let ghost start = out@;
        match self {
            Response::Cancel => push_u32(out, 0xffff_ffff),
            Response::SelectIdleCommand(c, i) => {
                push_u16(out, c.value());
                push_u16(out, *i);
            },
            Response::SelectBattleCommand(c, i) => {
                push_u16(out, c.value());
                push_u16(out, *i);
            },
            Response::SelectYesNo(b) => out.push(if *b { 1u8 } else { 0u8 }),
            Response::SelectOption(x) => out.push(*x),
            Response::SelectChain(x) => out.push(*x),
            Response::DeclineChain => push_u32(out, 0xffff_ffff),
            Response::SelectPosition(p) => out.push(p.value()),
            Response::SelectCards(v) => {
                out.push((v.len() % 256) as u8);
                push_u16s(out, v.as_slice());
            },
            Response::SelectUnselectCards(i) => {
                out.push(1u8);
                push_u16(out, *i);
            },
            Response::SelectTribute(v) => {
                out.push((v.len() % 256) as u8);
                push_u16s(out, v.as_slice());
            },
            Response::SelectSum(v) => {
                out.push((v.len() % 256) as u8);
                push_u16s(out, v.as_slice());
            },
            Response::SelectCounter(v) => push_u16s(out, v.as_slice()),
            Response::SelectPlace(p, l, s) => {
                out.push(p.value());
                out.push(*l);
                out.push(*s);
            },
            Response::DeclinePlace => {
                out.push(0u8);
                out.push(0u8);
                out.push(0u8);
            },
            Response::SortCards(v) => push_u16s(out, v.as_slice()),
            Response::KeepCardOrder => out.push(0xffu8),
            Response::AnnounceRace(x) => push_u32(out, *x),
            Response::AnnounceAttribute(x) => push_u32(out, *x),
            Response::AnnounceCard(x) => push_u32(out, *x),
            Response::Unknown(d) => {
                let mut i: usize = 0;
                while i < d.len()
                    invariant
                        i <= d@.len(),
                        out@ == start + d@.take(i as int),
                    decreases d@.len() - i,
                {
                    out.push(d[i]);
                    i = i + 1;
                    assert(out@ =~= start + d@.take(i as int));
                }
                assert(d@.take(i as int) =~= d@);
            },
        }
        assert(out@ =~= start + self@.bytes());
    }

    /// The wire bytes of the response.
    pub fn to_bytes(&self) -> (r: Vec<u8>)
        ensures
            r@ == self@.bytes(),
    {
        let mut out: Vec<u8> = Vec::new();
        self.write(&mut out);
        assert(out@ =~= self@.bytes());
        out
    }

    /// Read the bytes `d` as a response to a prompt of type `mt`.
    pub fn parse(d: &[u8], mt: MessageType) -> (r: Result<Response, ReadError>)
        ensures
            parsed_view(r) == parse_response(d@, mt),
    {
        match mt {
            MessageType::SelectIdleCommand => {
                if d.len() < 2 {
                    return Err(ReadError::UnexpectedEnd);
                }
                match IdleCommand::from_value(read_u16(d, 0)) {
                    None => Err(ReadError::NoVariantMatch),
                    Some(c) => if d.len() < 4 {
                        Err(ReadError::UnexpectedEnd)
                    } else {
                        Ok(Response::SelectIdleCommand(c, read_u16(d, 2)))
                    },
                }
            },
            MessageType::SelectBattleCommand => {
                if d.len() < 2 {
                    return Err(ReadError::UnexpectedEnd);
                }
                match BattleCommand::from_value(read_u16(d, 0)) {
                    None => Err(ReadError::NoVariantMatch),
                    Some(c) => if d.len() < 4 {
                        Err(ReadError::UnexpectedEnd)
                    } else {
                        Ok(Response::SelectBattleCommand(c, read_u16(d, 2)))
                    },
                }
            },
            MessageType::SelectEffectYesNo | MessageType::SelectYesNo => if d.len() < 1 {
                Err(ReadError::UnexpectedEnd)
            } else {
                Ok(Response::SelectYesNo(d[0] != 0))
            },
            MessageType::SelectOption | MessageType::AnnounceNumber => if d.len() < 1 {
                Err(ReadError::UnexpectedEnd)
            } else {
                Ok(Response::SelectOption(d[0]))
            },
            MessageType::SelectPosition => if d.len() < 1 {
                Err(ReadError::UnexpectedEnd)
            } else {
                match Position::from_value(d[0]) {
                    None => Err(ReadError::NoVariantMatch),
                    Some(p) => Ok(Response::SelectPosition(p)),
                }
            },
            MessageType::SelectCounter => Ok(Response::SelectCounter(read_u16s(d, 0, d.len() / 2))),
            MessageType::AnnounceRace => if d.len() < 4 {
                Err(ReadError::UnexpectedEnd)
            } else {
                Ok(Response::AnnounceRace(read_u32(d, 0)))
            },
            MessageType::AnnounceAttribute => if d.len() < 4 {
                Err(ReadError::UnexpectedEnd)
            } else {
                Ok(Response::AnnounceAttribute(read_u32(d, 0)))
            },
            MessageType::AnnounceCard => if d.len() < 4 {
                Err(ReadError::UnexpectedEnd)
            } else {
                Ok(Response::AnnounceCard(read_u32(d, 0)))
            },
            MessageType::SelectChain => if is_minus_one(d) {
                Ok(Response::DeclineChain)
            } else if d.len() < 1 {
                Err(ReadError::UnexpectedEnd)
            } else {
                Ok(Response::SelectChain(d[0]))
            },
            MessageType::SelectCard => if is_minus_one(d) {
                Ok(Response::Cancel)
            } else {
                match read_counted(d) {
                    Ok(v) => Ok(Response::SelectCards(v)),
                    Err(e) => Err(e),
                }
            },
            MessageType::SelectUnselectCard => if is_minus_one(d) {
                Ok(Response::Cancel)
            } else if d.len() < 1 {
                Err(ReadError::UnexpectedEnd)
            } else if d[0] != 1 {
                Err(ReadError::NoVariantMatch)
            } else if d.len() < 3 {
                Err(ReadError::UnexpectedEnd)
            } else {
                Ok(Response::SelectUnselectCards(read_u16(d, 1)))
            },
            MessageType::SelectTribute => if is_minus_one(d) {
                Ok(Response::Cancel)
            } else {
                match read_counted(d) {
                    Ok(v) => Ok(Response::SelectTribute(v)),
                    Err(e) => Err(e),
                }
            },
            MessageType::SelectSum => match read_counted(d) {
                Ok(v) => Ok(Response::SelectSum(v)),
                Err(e) => Err(e),
            },
            MessageType::SelectPlace | MessageType::SelectDisableField => {
                if d.len() < 1 {
                    return Err(ReadError::UnexpectedEnd);
                }
                match CorePlayer::from_value(d[0]) {
                    None => Err(ReadError::NoVariantMatch),
                    Some(p) => if d.len() < 3 {
                        Err(ReadError::UnexpectedEnd)
                    } else if p == CorePlayer::FirstAttackPlayer && d[1] == 0 && d[2] == 0 {
                        Ok(Response::DeclinePlace)
                    } else {
                        Ok(Response::SelectPlace(p, d[1], d[2]))
                    },
                }
            },
            MessageType::SortCard => if d.len() == 1 && d[0] == 0xff {
                assert(d@ =~= seq![0xffu8]);
                Ok(Response::KeepCardOrder)
            } else {
                Ok(Response::SortCards(read_u16s(d, 0, d.len() / 2)))
            },
            _ => Err(ReadError::NoVariantMatch),
        }
    }

    /// Read a response: as an answer to `mt` where the prompt type is given, as raw
    /// bytes where it is not.
    pub fn read(d: &[u8], mt: Option<MessageType>) -> (r: Result<Response, ReadError>)
        ensures
            match mt {
                Some(t) => parsed_view(r) == parse_response(d@, t),
                None => parsed_view(r) == Ok::<ResponseView, ReadError>(ResponseView::Unknown(d@)),
            },
    {
        match mt {
            Some(t) => Response::parse(d, t),
            None => {
                let v = vstd::slice::slice_to_vec(d);
                Ok(Response::Unknown(v))
            },
        }
    }

    /// Once the prompt type `mt` is known, read raw bytes as an answer to it. Any other
    /// response is left as it is; on an error the raw bytes stay.
    pub fn resolve(&mut self, mt: MessageType) -> (r: Result<(), ReadError>)
        ensures
            match old(self)@ {
                ResponseView::Unknown(d) => match parse_response(d, mt) {
                    Ok(x) => r is Ok && final(self)@ == x,
                    Err(e) => r == Err::<(), ReadError>(e) && final(self)@ == old(self)@,
                },
                _ => r is Ok && final(self)@ == old(self)@,
            },
    {
        let parsed = match self {
            Response::Unknown(data) => Response::parse(data.as_slice(), mt),
            _ => return Ok(()),
        };
        match parsed {
            Ok(x) => {
                *self = x;
                Ok(())
            },
            Err(e) => Err(e),
        }
    }
}

/// Check whether a player's response is meaningful for the last select prompt, of
/// type `last_select_type`.
pub fn response_is_meaningful(response: &Response, last_select_type: MessageType) -> (r: bool)
    ensures
        r == is_meaningful(response@, last_select_type),
{
    if last_select_type == MessageType::Retry {
        return false;
    }
    let mut copy = response.clone_response();
    let _ = copy.resolve(last_select_type);
    match copy {
        Response::Cancel => last_select_type != MessageType::SelectUnselectCard,
        Response::DeclineChain | Response::SelectUnselectCards(_) => false,
        Response::SelectIdleCommand(c, _) => c.value() <= 5,
        Response::SelectBattleCommand(c, _) => c.value() <= 1,
        _ => true,
    }
}

impl Response {
    /// A copy of the response.
    pub fn clone_response(&self) -> (r: Response)
        ensures
            r@ == self@,
    {
        match self {
            Response::Cancel => Response::Cancel,
            Response::SelectIdleCommand(c, i) => Response::SelectIdleCommand(*c, *i),
            Response::SelectBattleCommand(c, i) => Response::SelectBattleCommand(*c, *i),
            Response::SelectYesNo(b) => Response::SelectYesNo(*b),
            Response::SelectOption(x) => Response::SelectOption(*x),
            Response::SelectChain(x) => Response::SelectChain(*x),
            Response::DeclineChain => Response::DeclineChain,
            Response::SelectPosition(p) => Response::SelectPosition(*p),
            Response::SelectCards(v) => Response::SelectCards(v.clone()),
            Response::SelectUnselectCards(i) => Response::SelectUnselectCards(*i),
            Response::SelectTribute(v) => Response::SelectTribute(v.clone()),
            Response::SelectSum(v) => Response::SelectSum(v.clone()),
            Response::SelectCounter(v) => Response::SelectCounter(v.clone()),
            Response::SelectPlace(p, l, s) => Response::SelectPlace(*p, *l, *s),
            Response::DeclinePlace => Response::DeclinePlace,
            Response::SortCards(v) => Response::SortCards(v.clone()),
            Response::KeepCardOrder => Response::KeepCardOrder,
            Response::AnnounceRace(x) => Response::AnnounceRace(*x),
            Response::AnnounceAttribute(x) => Response::AnnounceAttribute(*x),
            Response::AnnounceCard(x) => Response::AnnounceCard(*x),
            Response::Unknown(d) => Response::Unknown(d.clone()),
        }
    }
}

impl ResponseView {
    /// Whether the wire form of the response keeps all of it: a list behind a count
    /// byte has at most 255 entries, and a place is not the one of the first player
    /// with no location and sequence 0 (those bytes read as a declined place).
    pub open spec fn writable(self) -> bool {
        match self {
            ResponseView::SelectCards(v) => v.len() <= 255,
            ResponseView::SelectTribute(v) => v.len() <= 255,
            ResponseView::SelectSum(v) => v.len() <= 255,
            ResponseView::SelectPlace(p, l, s) => !(p == CorePlayer::FirstAttackPlayer && l == 0
                && s == 0),
            _ => true,
        }
    }
}

/// A count byte and its indices read back as the indices.
proof fn lemma_counted_round_trip(v: Seq<u16>)
    requires
        v.len() <= 255,
    ensures
        parse_counted(counted_bytes(v)) == Ok::<Seq<u16>, ReadError>(v),
        counted_bytes(v) != minus_one_bytes(),
{
    let b = counted_bytes(v);
    lemma_u16s_round_trip(v);
    assert(b[0] == v.len());
    assert(u16s_at(b, 1, v.len()) =~= u16s_at(u16s_bytes(v), 0, v.len()));
    assert(b.len() == 1 + 2 * v.len());
    if b == minus_one_bytes() {
        assert(b.len() == 4);
    }
}

/// A response written for the prompt it answers reads back as the same response.
pub proof fn lemma_response_round_trip(r: ResponseView, mt: MessageType)
    requires
        r.answers(mt),
        r.writable(),
    ensures
        parse_response(r.bytes(), mt) == Ok::<ResponseView, ReadError>(r),
{
    let b = r.bytes();
    match r {
        ResponseView::SelectIdleCommand(c, i) => {
            lemma_le16(c.code());
            lemma_le16(i);
            assert(u16_at(b, 0) == u16_at(le16(c.code()), 0));
            assert(u16_at(b, 2) == u16_at(le16(i), 0));
        },
        ResponseView::SelectBattleCommand(c, i) => {
            lemma_le16(c.code());
            lemma_le16(i);
            assert(u16_at(b, 0) == u16_at(le16(c.code()), 0));
            assert(u16_at(b, 2) == u16_at(le16(i), 0));
        },
        ResponseView::SelectChain(x) => {
            assert(b.len() == 1);
        },
        ResponseView::SelectCards(v) => {
            lemma_counted_round_trip(v);
        },
        ResponseView::SelectTribute(v) => {
            lemma_counted_round_trip(v);
        },
        ResponseView::SelectSum(v) => {
            lemma_counted_round_trip(v);
        },
        ResponseView::SelectUnselectCards(i) => {
            lemma_le16(i);
            assert(b.len() == 3);
            assert(u16_at(b, 1) == u16_at(le16(i), 0));
        },
        ResponseView::SelectCounter(v) => {
            lemma_u16s_round_trip(v);
        },
        ResponseView::SortCards(v) => {
            lemma_u16s_round_trip(v);
            assert(b.len() == 2 * v.len());
            if b == seq![0xffu8] {
                assert(b.len() == 1);
            }
        },
        ResponseView::AnnounceRace(x) => {
            lemma_le32(x);
        },
        ResponseView::AnnounceAttribute(x) => {
            lemma_le32(x);
        },
        ResponseView::AnnounceCard(x) => {
            lemma_le32(x);
        },
        ResponseView::Cancel => {},
        ResponseView::DeclineChain => {},
        ResponseView::KeepCardOrder => {},
        ResponseView::SelectPlace(p, l, s) => {},
        ResponseView::DeclinePlace => {},
        _ => {},
    }
}

} // verus!
