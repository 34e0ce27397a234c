//! Game messages: what the duel engine reports and asks of the players.
use vstd::prelude::*;

use crate::bytes::{
    lemma_i16_round_trip, lemma_i32_round_trip, lemma_i8_round_trip, lemma_push16,
    lemma_push32, push16, push32, put_u16, put_u32, read_u16, read_u32, u16_at, u32_at,
    ReadError,
};
use crate::constants::{CorePlayer, MasterRule, Position, WinReason};
pub use crate::message::card_codes::{
    CardCode, Draw, GameMessage, Mask, MaskedClone, ShuffleExtra, ShuffleHand,
};
pub use crate::message::place_messages::{CardPlace, Move, SetCard, SpecialSummoning};
pub use crate::message::value_messages::{
    AnnounceCard, AnnounceNumber, ConfirmDecktop, ConfirmExtraTop, CustomMsg, HandResult, ReloadField,
    SelectOption, TossCoin, TossDice,
};

verus! {

/// The kind of a game message, named by its flag byte.
///
/// `Unknown` holds a flag byte that names no game message.
#[derive(Clone, Copy, Debug, PartialEq, Eq, Structural, PartialOrd, Ord, Hash)]
pub enum MessageType {
    Unknown(u8),
    Retry,
    Hint,
    Waiting,
    Start,
    Win,
    UpdateData,
    UpdateCard,
    RequestDeck,
    SelectBattleCommand,
    SelectIdleCommand,
    SelectEffectYesNo,
    SelectYesNo,
    SelectOption,
    SelectCard,
    SelectChain,
    SelectPlace,
    SelectPosition,
    SelectTribute,
    SortChain,
    SelectCounter,
    SelectSum,
    SelectDisableField,
    SortCard,
    SelectUnselectCard,
    ConfirmDecktop,
    ConfirmCards,
    ShuffleDeck,
    ShuffleHand,
    RefreshDeck,
    SwapGraveDeck,
    ShuffleSetCard,
    ReverseDeck,
    DeckTop,
    ShuffleExtra,
    NewTurn,
    NewPhase,
    ConfirmExtraTop,
    Move,
    PositionChange,
    SetCard,
    Swap,
    FieldDisabled,
    Summoning,
    Summoned,
    SpecialSummoning,
    SpecialSummoned,
    FlipSummoning,
    FlipSummoned,
    Chaining,
    Chained,
    ChainSolving,
    ChainSolved,
    ChainEnd,
    ChainNegated,
    ChainDisabled,
    CardSelected,
    RandomSelected,
    BecomeTarget,
    Draw,
    Damage,
    Recover,
    Equip,
    LPUpdate,
    Unequip,
    CardTarget,
    CancelTarget,
    PayLPCost,
    AddCounter,
    RemoveCounter,
    Attack,
    Battle,
    AttackDisabled,
    DamageStepStart,
    DamageStepEnd,
    MissedEffect,
    BeChainTarget,
    CreateRelation,
    ReleaseRelation,
    TossCoin,
    TossDice,
    RockPaperScissors,
    HandResult,
    AnnounceRace,
    AnnounceAttribute,
    AnnounceCard,
    AnnounceNumber,
    CardHint,
    TagSwap,
    ReloadField,
    AIName,
    ShowHint,
    PlayerHint,
    MatchKill,
    CustomMsg,
}

impl MessageType {
    /// The flag byte of each message type.
    pub open spec fn code(self) -> u8 {
        match self {
            MessageType::Unknown(v) => v,
            MessageType::Retry => 1u8,
            MessageType::Hint => 2u8,
            MessageType::Waiting => 3u8,
            MessageType::Start => 4u8,
            MessageType::Win => 5u8,
            MessageType::UpdateData => 6u8,
            MessageType::UpdateCard => 7u8,
            MessageType::RequestDeck => 8u8,
            MessageType::SelectBattleCommand => 10u8,
            MessageType::SelectIdleCommand => 11u8,
            MessageType::SelectEffectYesNo => 12u8,
            MessageType::SelectYesNo => 13u8,
            MessageType::SelectOption => 14u8,
            MessageType::SelectCard => 15u8,
            MessageType::SelectChain => 16u8,
            MessageType::SelectPlace => 18u8,
            MessageType::SelectPosition => 19u8,
            MessageType::SelectTribute => 20u8,
            MessageType::SortChain => 21u8,
            MessageType::SelectCounter => 22u8,
            MessageType::SelectSum => 23u8,
            MessageType::SelectDisableField => 24u8,
            MessageType::SortCard => 25u8,
            MessageType::SelectUnselectCard => 26u8,
            MessageType::ConfirmDecktop => 30u8,
            MessageType::ConfirmCards => 31u8,
            MessageType::ShuffleDeck => 32u8,
            MessageType::ShuffleHand => 33u8,
            MessageType::RefreshDeck => 34u8,
            MessageType::SwapGraveDeck => 35u8,
            MessageType::ShuffleSetCard => 36u8,
            MessageType::ReverseDeck => 37u8,
            MessageType::DeckTop => 38u8,
            MessageType::ShuffleExtra => 39u8,
            MessageType::NewTurn => 40u8,
            MessageType::NewPhase => 41u8,
            MessageType::ConfirmExtraTop => 42u8,
            MessageType::Move => 50u8,
            MessageType::PositionChange => 53u8,
            MessageType::SetCard => 54u8,
            MessageType::Swap => 55u8,
            MessageType::FieldDisabled => 56u8,
            MessageType::Summoning => 60u8,
            MessageType::Summoned => 61u8,
            MessageType::SpecialSummoning => 62u8,
            MessageType::SpecialSummoned => 63u8,
            MessageType::FlipSummoning => 64u8,
            MessageType::FlipSummoned => 65u8,
            MessageType::Chaining => 70u8,
            MessageType::Chained => 71u8,
            MessageType::ChainSolving => 72u8,
            MessageType::ChainSolved => 73u8,
            MessageType::ChainEnd => 74u8,
            MessageType::ChainNegated => 75u8,
            MessageType::ChainDisabled => 76u8,
            MessageType::CardSelected => 80u8,
            MessageType::RandomSelected => 81u8,
            MessageType::BecomeTarget => 83u8,
            MessageType::Draw => 90u8,
            MessageType::Damage => 91u8,
            MessageType::Recover => 92u8,
            MessageType::Equip => 93u8,
            MessageType::LPUpdate => 94u8,
            MessageType::Unequip => 95u8,
            MessageType::CardTarget => 96u8,
            MessageType::CancelTarget => 97u8,
            MessageType::PayLPCost => 100u8,
            MessageType::AddCounter => 101u8,
            MessageType::RemoveCounter => 102u8,
            MessageType::Attack => 110u8,
            MessageType::Battle => 111u8,
            MessageType::AttackDisabled => 112u8,
            MessageType::DamageStepStart => 113u8,
            MessageType::DamageStepEnd => 114u8,
            MessageType::MissedEffect => 120u8,
            MessageType::BeChainTarget => 121u8,
            MessageType::CreateRelation => 122u8,
            MessageType::ReleaseRelation => 123u8,
            MessageType::TossCoin => 130u8,
            MessageType::TossDice => 131u8,
            MessageType::RockPaperScissors => 132u8,
            MessageType::HandResult => 133u8,
            MessageType::AnnounceRace => 140u8,
            MessageType::AnnounceAttribute => 141u8,
            MessageType::AnnounceCard => 142u8,
            MessageType::AnnounceNumber => 143u8,
            MessageType::CardHint => 160u8,
            MessageType::TagSwap => 161u8,
            MessageType::ReloadField => 162u8,
            MessageType::AIName => 163u8,
            MessageType::ShowHint => 164u8,
            MessageType::PlayerHint => 165u8,
            MessageType::MatchKill => 170u8,
            MessageType::CustomMsg => 180u8,
        }
    }

    /// The message type a flag byte stands for: `Unknown` holds a byte that names
    /// no message type.
    pub open spec fn of_code(v: u8) -> MessageType {
        match v {
            1u8 => MessageType::Retry,
            2u8 => MessageType::Hint,
            3u8 => MessageType::Waiting,
            4u8 => MessageType::Start,
            5u8 => MessageType::Win,
            6u8 => MessageType::UpdateData,
            7u8 => MessageType::UpdateCard,
            8u8 => MessageType::RequestDeck,
            10u8 => MessageType::SelectBattleCommand,
            11u8 => MessageType::SelectIdleCommand,
            12u8 => MessageType::SelectEffectYesNo,
            13u8 => MessageType::SelectYesNo,
            14u8 => MessageType::SelectOption,
            15u8 => MessageType::SelectCard,
            16u8 => MessageType::SelectChain,
            18u8 => MessageType::SelectPlace,
            19u8 => MessageType::SelectPosition,
            20u8 => MessageType::SelectTribute,
            21u8 => MessageType::SortChain,
            22u8 => MessageType::SelectCounter,
            23u8 => MessageType::SelectSum,
            24u8 => MessageType::SelectDisableField,
            25u8 => MessageType::SortCard,
            26u8 => MessageType::SelectUnselectCard,
            30u8 => MessageType::ConfirmDecktop,
            31u8 => MessageType::ConfirmCards,
            32u8 => MessageType::ShuffleDeck,
            33u8 => MessageType::ShuffleHand,
            34u8 => MessageType::RefreshDeck,
            35u8 => MessageType::SwapGraveDeck,
            36u8 => MessageType::ShuffleSetCard,
            37u8 => MessageType::ReverseDeck,
            38u8 => MessageType::DeckTop,
            39u8 => MessageType::ShuffleExtra,
            40u8 => MessageType::NewTurn,
            41u8 => MessageType::NewPhase,
            42u8 => MessageType::ConfirmExtraTop,
            50u8 => MessageType::Move,
            53u8 => MessageType::PositionChange,
            54u8 => MessageType::SetCard,
            55u8 => MessageType::Swap,
            56u8 => MessageType::FieldDisabled,
            60u8 => MessageType::Summoning,
            61u8 => MessageType::Summoned,
            62u8 => MessageType::SpecialSummoning,
            63u8 => MessageType::SpecialSummoned,
            64u8 => MessageType::FlipSummoning,
            65u8 => MessageType::FlipSummoned,
            70u8 => MessageType::Chaining,
            71u8 => MessageType::Chained,
            72u8 => MessageType::ChainSolving,
            73u8 => MessageType::ChainSolved,
            74u8 => MessageType::ChainEnd,
            75u8 => MessageType::ChainNegated,
            76u8 => MessageType::ChainDisabled,
            80u8 => MessageType::CardSelected,
            81u8 => MessageType::RandomSelected,
            83u8 => MessageType::BecomeTarget,
            90u8 => MessageType::Draw,
            91u8 => MessageType::Damage,
            92u8 => MessageType::Recover,
            93u8 => MessageType::Equip,
            94u8 => MessageType::LPUpdate,
            95u8 => MessageType::Unequip,
            96u8 => MessageType::CardTarget,
            97u8 => MessageType::CancelTarget,
            100u8 => MessageType::PayLPCost,
            101u8 => MessageType::AddCounter,
            102u8 => MessageType::RemoveCounter,
            110u8 => MessageType::Attack,
            111u8 => MessageType::Battle,
            112u8 => MessageType::AttackDisabled,
            113u8 => MessageType::DamageStepStart,
            114u8 => MessageType::DamageStepEnd,
            120u8 => MessageType::MissedEffect,
            121u8 => MessageType::BeChainTarget,
            122u8 => MessageType::CreateRelation,
            123u8 => MessageType::ReleaseRelation,
            130u8 => MessageType::TossCoin,
            131u8 => MessageType::TossDice,
            132u8 => MessageType::RockPaperScissors,
            133u8 => MessageType::HandResult,
            140u8 => MessageType::AnnounceRace,
            141u8 => MessageType::AnnounceAttribute,
            142u8 => MessageType::AnnounceCard,
            143u8 => MessageType::AnnounceNumber,
            160u8 => MessageType::CardHint,
            161u8 => MessageType::TagSwap,
            162u8 => MessageType::ReloadField,
            163u8 => MessageType::AIName,
            164u8 => MessageType::ShowHint,
            165u8 => MessageType::PlayerHint,
            170u8 => MessageType::MatchKill,
            180u8 => MessageType::CustomMsg,
            _ => MessageType::Unknown(v),
        }
    }

    /// Whether this is the value that its flag byte reads as (an `Unknown` holding
    /// the flag of a known type is not).
    pub open spec fn is_canonical(self) -> bool {
        MessageType::of_code(self.code()) == self
    }

    /// The message type a flag byte stands for.
    pub fn from_u8(v: u8) -> (r: MessageType)
        ensures
            r == MessageType::of_code(v),
            r.code() == v,
    {
        match v {
            1u8 => MessageType::Retry,
            2u8 => MessageType::Hint,
            3u8 => MessageType::Waiting,
            4u8 => MessageType::Start,
            5u8 => MessageType::Win,
            6u8 => MessageType::UpdateData,
            7u8 => MessageType::UpdateCard,
            8u8 => MessageType::RequestDeck,
            10u8 => MessageType::SelectBattleCommand,
            11u8 => MessageType::SelectIdleCommand,
            12u8 => MessageType::SelectEffectYesNo,
            13u8 => MessageType::SelectYesNo,
            14u8 => MessageType::SelectOption,
            15u8 => MessageType::SelectCard,
            16u8 => MessageType::SelectChain,
            18u8 => MessageType::SelectPlace,
            19u8 => MessageType::SelectPosition,
            20u8 => MessageType::SelectTribute,
            21u8 => MessageType::SortChain,
            22u8 => MessageType::SelectCounter,
            23u8 => MessageType::SelectSum,
            24u8 => MessageType::SelectDisableField,
            25u8 => MessageType::SortCard,
            26u8 => MessageType::SelectUnselectCard,
            30u8 => MessageType::ConfirmDecktop,
            31u8 => MessageType::ConfirmCards,
            32u8 => MessageType::ShuffleDeck,
            33u8 => MessageType::ShuffleHand,
            34u8 => MessageType::RefreshDeck,
            35u8 => MessageType::SwapGraveDeck,
            36u8 => MessageType::ShuffleSetCard,
            37u8 => MessageType::ReverseDeck,
            38u8 => MessageType::DeckTop,
            39u8 => MessageType::ShuffleExtra,
            40u8 => MessageType::NewTurn,
            41u8 => MessageType::NewPhase,
            42u8 => MessageType::ConfirmExtraTop,
            50u8 => MessageType::Move,
            53u8 => MessageType::PositionChange,
            54u8 => MessageType::SetCard,
            55u8 => MessageType::Swap,
            56u8 => MessageType::FieldDisabled,
            60u8 => MessageType::Summoning,
            61u8 => MessageType::Summoned,
            62u8 => MessageType::SpecialSummoning,
            63u8 => MessageType::SpecialSummoned,
            64u8 => MessageType::FlipSummoning,
            65u8 => MessageType::FlipSummoned,
            70u8 => MessageType::Chaining,
            71u8 => MessageType::Chained,
            72u8 => MessageType::ChainSolving,
            73u8 => MessageType::ChainSolved,
            74u8 => MessageType::ChainEnd,
            75u8 => MessageType::ChainNegated,
            76u8 => MessageType::ChainDisabled,
            80u8 => MessageType::CardSelected,
            81u8 => MessageType::RandomSelected,
            83u8 => MessageType::BecomeTarget,
            90u8 => MessageType::Draw,
            91u8 => MessageType::Damage,
            92u8 => MessageType::Recover,
            93u8 => MessageType::Equip,
            94u8 => MessageType::LPUpdate,
            95u8 => MessageType::Unequip,
            96u8 => MessageType::CardTarget,
            97u8 => MessageType::CancelTarget,
            100u8 => MessageType::PayLPCost,
            101u8 => MessageType::AddCounter,
            102u8 => MessageType::RemoveCounter,
            110u8 => MessageType::Attack,
            111u8 => MessageType::Battle,
            112u8 => MessageType::AttackDisabled,
            113u8 => MessageType::DamageStepStart,
            114u8 => MessageType::DamageStepEnd,
            120u8 => MessageType::MissedEffect,
            121u8 => MessageType::BeChainTarget,
            122u8 => MessageType::CreateRelation,
            123u8 => MessageType::ReleaseRelation,
            130u8 => MessageType::TossCoin,
            131u8 => MessageType::TossDice,
            132u8 => MessageType::RockPaperScissors,
            133u8 => MessageType::HandResult,
            140u8 => MessageType::AnnounceRace,
            141u8 => MessageType::AnnounceAttribute,
            142u8 => MessageType::AnnounceCard,
            143u8 => MessageType::AnnounceNumber,
            160u8 => MessageType::CardHint,
            161u8 => MessageType::TagSwap,
            162u8 => MessageType::ReloadField,
            163u8 => MessageType::AIName,
            164u8 => MessageType::ShowHint,
            165u8 => MessageType::PlayerHint,
            170u8 => MessageType::MatchKill,
            180u8 => MessageType::CustomMsg,
            _ => MessageType::Unknown(v),
        }
    }

    /// The flag byte of this message type.
    pub fn to_u8(&self) -> (r: u8)
        ensures
            r == self.code(),
    {
        match *self {
            MessageType::Unknown(v) => v,
            MessageType::Retry => 1u8,
            MessageType::Hint => 2u8,
            MessageType::Waiting => 3u8,
            MessageType::Start => 4u8,
            MessageType::Win => 5u8,
            MessageType::UpdateData => 6u8,
            MessageType::UpdateCard => 7u8,
            MessageType::RequestDeck => 8u8,
            MessageType::SelectBattleCommand => 10u8,
            MessageType::SelectIdleCommand => 11u8,
            MessageType::SelectEffectYesNo => 12u8,
            MessageType::SelectYesNo => 13u8,
            MessageType::SelectOption => 14u8,
            MessageType::SelectCard => 15u8,
            MessageType::SelectChain => 16u8,
            MessageType::SelectPlace => 18u8,
            MessageType::SelectPosition => 19u8,
            MessageType::SelectTribute => 20u8,
            MessageType::SortChain => 21u8,
            MessageType::SelectCounter => 22u8,
            MessageType::SelectSum => 23u8,
            MessageType::SelectDisableField => 24u8,
            MessageType::SortCard => 25u8,
            MessageType::SelectUnselectCard => 26u8,
            MessageType::ConfirmDecktop => 30u8,
            MessageType::ConfirmCards => 31u8,
            MessageType::ShuffleDeck => 32u8,
            MessageType::ShuffleHand => 33u8,
            MessageType::RefreshDeck => 34u8,
            MessageType::SwapGraveDeck => 35u8,
            MessageType::ShuffleSetCard => 36u8,
            MessageType::ReverseDeck => 37u8,
            MessageType::DeckTop => 38u8,
            MessageType::ShuffleExtra => 39u8,
            MessageType::NewTurn => 40u8,
            MessageType::NewPhase => 41u8,
            MessageType::ConfirmExtraTop => 42u8,
            MessageType::Move => 50u8,
            MessageType::PositionChange => 53u8,
            MessageType::SetCard => 54u8,
            MessageType::Swap => 55u8,
            MessageType::FieldDisabled => 56u8,
            MessageType::Summoning => 60u8,
            MessageType::Summoned => 61u8,
            MessageType::SpecialSummoning => 62u8,
            MessageType::SpecialSummoned => 63u8,
            MessageType::FlipSummoning => 64u8,
            MessageType::FlipSummoned => 65u8,
            MessageType::Chaining => 70u8,
            MessageType::Chained => 71u8,
            MessageType::ChainSolving => 72u8,
            MessageType::ChainSolved => 73u8,
            MessageType::ChainEnd => 74u8,
            MessageType::ChainNegated => 75u8,
            MessageType::ChainDisabled => 76u8,
            MessageType::CardSelected => 80u8,
            MessageType::RandomSelected => 81u8,
            MessageType::BecomeTarget => 83u8,
            MessageType::Draw => 90u8,
            MessageType::Damage => 91u8,
            MessageType::Recover => 92u8,
            MessageType::Equip => 93u8,
            MessageType::LPUpdate => 94u8,
            MessageType::Unequip => 95u8,
            MessageType::CardTarget => 96u8,
            MessageType::CancelTarget => 97u8,
            MessageType::PayLPCost => 100u8,
            MessageType::AddCounter => 101u8,
            MessageType::RemoveCounter => 102u8,
            MessageType::Attack => 110u8,
            MessageType::Battle => 111u8,
            MessageType::AttackDisabled => 112u8,
            MessageType::DamageStepStart => 113u8,
            MessageType::DamageStepEnd => 114u8,
            MessageType::MissedEffect => 120u8,
            MessageType::BeChainTarget => 121u8,
            MessageType::CreateRelation => 122u8,
            MessageType::ReleaseRelation => 123u8,
            MessageType::TossCoin => 130u8,
            MessageType::TossDice => 131u8,
            MessageType::RockPaperScissors => 132u8,
            MessageType::HandResult => 133u8,
            MessageType::AnnounceRace => 140u8,
            MessageType::AnnounceAttribute => 141u8,
            MessageType::AnnounceCard => 142u8,
            MessageType::AnnounceNumber => 143u8,
            MessageType::CardHint => 160u8,
            MessageType::TagSwap => 161u8,
            MessageType::ReloadField => 162u8,
            MessageType::AIName => 163u8,
            MessageType::ShowHint => 164u8,
            MessageType::PlayerHint => 165u8,
            MessageType::MatchKill => 170u8,
            MessageType::CustomMsg => 180u8,
        }
    }

    /// Append the flag byte.
    pub fn write(&self, out: &mut Vec<u8>)
        ensures
            final(out)@ == old(out)@.push(self.code()),
    {
        out.push(self.to_u8());
    }

    /// Read a message type from the first byte of `data`.
    pub fn read(data: &[u8]) -> (r: Result<MessageType, ReadError>)
        ensures
            data@.len() == 0 ==> r == Err::<MessageType, ReadError>(ReadError::UnexpectedEnd),
            data@.len() > 0 ==> r == Ok::<MessageType, ReadError>(MessageType::of_code(data@[0])),
    {
        if data.len() == 0 {
            Err(ReadError::UnexpectedEnd)
        } else {
            Ok(MessageType::from_u8(data[0]))
        }
    }
}

/// A flag byte reads as a message type that is written back as the same byte, and a
/// message type that is its flag's reading is read back from that flag.
pub proof fn lemma_message_type_round_trip(v: u8, t: MessageType)
    ensures
        MessageType::of_code(v).code() == v,
        MessageType::of_code(v).is_canonical(),
        t.is_canonical() ==> MessageType::of_code(t.code()) == t,
{
}

/// The engine asks the last player to answer again.
#[derive(Clone, Copy, Debug, PartialEq, Eq, Structural)]
pub struct Retry;

impl Retry {
    /// The type of this message.
    pub fn message_type() -> (r: MessageType)
        ensures
            r == MessageType::Retry,
    {
        MessageType::Retry
    }

    /// The number of bytes of the message body.
    pub open spec fn size() -> nat {
        0
    }

    /// `s` followed by the wire bytes of the message body.
    pub open spec fn bytes_after(self, s: Seq<u8>) -> Seq<u8> {
        s
    }

    /// The wire bytes of the message body.
    pub open spec fn bytes(self) -> Seq<u8> {
        self.bytes_after(Seq::empty())
    }

    /// How the bytes `d` read as the message body.
    pub open spec fn parse(d: Seq<u8>) -> Result<Retry, ReadError> {
        Ok(Retry)
    }

    /// Append the wire bytes of the message body.
    pub fn write(&self, out: &mut Vec<u8>)
        ensures
            final(out)@ == self.bytes_after(old(out)@),
    {
    }

    /// The wire bytes of the message body.
    pub fn to_bytes(&self) -> (r: Vec<u8>)
        ensures
            r@ == self.bytes(),
    {
        let mut out: Vec<u8> = Vec::new();
        self.write(&mut out);
        out
    }

    /// Read the message body from the bytes `d` (bytes after it are left).
    pub fn read(d: &[u8]) -> (r: Result<Retry, ReadError>)
        ensures
            r == Retry::parse(d@),
    {
        Ok(Retry)
    }

    /// The body written and read back is the same message.
    pub proof fn lemma_round_trip(self)
        ensures
            Retry::parse(self.bytes()) == Ok::<Retry, ReadError>(self),
            self.bytes().len() == Retry::size(),
    {
        let s0 = Seq::<u8>::empty();
        let b = s0;
        assert(b == self.bytes());
    }
}

/// A hint for a player.
#[derive(Clone, Copy, Debug, PartialEq, Eq, Structural)]
pub struct Hint {
    pub _type: crate::constants::Hint,
    pub player: CorePlayer,
    pub data: i32,
}

impl Hint {
    /// The type of this message.
    pub fn message_type() -> (r: MessageType)
        ensures
            r == MessageType::Hint,
    {
        MessageType::Hint
    }

    /// The number of bytes of the message body.
    pub open spec fn size() -> nat {
        6
    }

    /// `s` followed by the wire bytes of the message body.
    pub open spec fn bytes_after(self, s: Seq<u8>) -> Seq<u8> {
        push32(s.push(self._type.code()).push(self.player.code()), self.data as u32)
    }

    /// The wire bytes of the message body.
    pub open spec fn bytes(self) -> Seq<u8> {
        self.bytes_after(Seq::empty())
    }

    /// How the bytes `d` read as the message body.
    pub open spec fn parse(d: Seq<u8>) -> Result<Hint, ReadError> {
        if d.len() < 1 {
            Err(ReadError::UnexpectedEnd)
        } else {
            match crate::constants::Hint::of_code(d[0]) {
                None => Err(ReadError::NoVariantMatch),
                Some(_type) => {
                    if d.len() < 2 {
                        Err(ReadError::UnexpectedEnd)
                    } else {
                        match CorePlayer::of_code(d[1]) {
                            None => Err(ReadError::NoVariantMatch),
                            Some(player) => {
                                if d.len() < 6 {
                                    Err(ReadError::UnexpectedEnd)
                                } else {
                                    let data = u32_at(d, 2) as i32;
                                    Ok(Hint { _type: _type, player: player, data: data })
                                }
                                },
                            }
                    }
                    },
                }
        }
    }

    /// Append the wire bytes of the message body.
    pub fn write(&self, out: &mut Vec<u8>)
        ensures
            final(out)@ == self.bytes_after(old(out)@),
    {
        out.push(self._type.value());
        out.push(self.player.value());
        put_u32(out, self.data as u32);
    }

    /// The wire bytes of the message body.
    pub fn to_bytes(&self) -> (r: Vec<u8>)
        ensures
            r@ == self.bytes(),
    {
        let mut out: Vec<u8> = Vec::new();
        self.write(&mut out);
        out
    }

    /// Read the message body from the bytes `d` (bytes after it are left).
    pub fn read(d: &[u8]) -> (r: Result<Hint, ReadError>)
        ensures
            r == Hint::parse(d@),
    {
        if d.len() < 1 {
            return Err(ReadError::UnexpectedEnd);
        }
        let _type = match crate::constants::Hint::from_value(d[0]) {
            Some(x) => x,
            None => return Err(ReadError::NoVariantMatch),
        };
        if d.len() < 2 {
            return Err(ReadError::UnexpectedEnd);
        }
        let player = match CorePlayer::from_value(d[1]) {
            Some(x) => x,
            None => return Err(ReadError::NoVariantMatch),
        };
        if d.len() < 6 {
            return Err(ReadError::UnexpectedEnd);
        }
        let data = read_u32(d, 2) as i32;
        Ok(Hint { _type: _type, player: player, data: data })
    }

    /// The body written and read back is the same message.
    pub proof fn lemma_round_trip(self)
        ensures
            Hint::parse(self.bytes()) == Ok::<Hint, ReadError>(self),
            self.bytes().len() == Hint::size(),
    {
        let s0 = Seq::<u8>::empty();
        let s1 = s0.push(self._type.code());
        let s2 = s1.push(self.player.code());
        let s3 = push32(s2, self.data as u32);
        lemma_push32(s2, self.data as u32);
        lemma_i32_round_trip(self.data);
        let b = s3;
        assert(b == self.bytes());
        assert(b.subrange(0, s3.len() as int) =~= s3);
        assert(b[2] == s3[2] && b[3] == s3[3] && b[4] == s3[4] && b[5] == s3[5]);
    }
}

/// The engine waits for a player.
#[derive(Clone, Copy, Debug, PartialEq, Eq, Structural)]
pub struct Waiting;

impl Waiting {
    /// The type of this message.
    pub fn message_type() -> (r: MessageType)
        ensures
            r == MessageType::Waiting,
    {
        MessageType::Waiting
    }

    /// The number of bytes of the message body.
    pub open spec fn size() -> nat {
        0
    }

    /// `s` followed by the wire bytes of the message body.
    pub open spec fn bytes_after(self, s: Seq<u8>) -> Seq<u8> {
        s
    }

    /// The wire bytes of the message body.
    pub open spec fn bytes(self) -> Seq<u8> {
        self.bytes_after(Seq::empty())
    }

    /// How the bytes `d` read as the message body.
    pub open spec fn parse(d: Seq<u8>) -> Result<Waiting, ReadError> {
        Ok(Waiting)
    }

    /// Append the wire bytes of the message body.
    pub fn write(&self, out: &mut Vec<u8>)
        ensures
            final(out)@ == self.bytes_after(old(out)@),
    {
    }

    /// The wire bytes of the message body.
    pub fn to_bytes(&self) -> (r: Vec<u8>)
        ensures
            r@ == self.bytes(),
    {
        let mut out: Vec<u8> = Vec::new();
        self.write(&mut out);
        out
    }

    /// Read the message body from the bytes `d` (bytes after it are left).
    pub fn read(d: &[u8]) -> (r: Result<Waiting, ReadError>)
        ensures
            r == Waiting::parse(d@),
    {
        Ok(Waiting)
    }

    /// The body written and read back is the same message.
    pub proof fn lemma_round_trip(self)
        ensures
            Waiting::parse(self.bytes()) == Ok::<Waiting, ReadError>(self),
            self.bytes().len() == Waiting::size(),
    {
        let s0 = Seq::<u8>::empty();
        let b = s0;
        assert(b == self.bytes());
    }
}

/// The start of a duel: life points and deck sizes.
#[derive(Clone, Copy, Debug, PartialEq, Eq, Structural)]
pub struct Start {
    pub player_type: u8,
    pub rule: MasterRule,
    pub player1_lp: i32,
    pub player2_lp: i32,
    pub player1_deck_count: u16,
    pub player1_extra_count: u16,
    pub player2_deck_count: u16,
    pub player2_extra_count: u16,
}

impl Start {
    /// The type of this message.
    pub fn message_type() -> (r: MessageType)
        ensures
            r == MessageType::Start,
    {
        MessageType::Start
    }

    /// The number of bytes of the message body.
    pub open spec fn size() -> nat {
        18
    }

    /// `s` followed by the wire bytes of the message body.
    pub open spec fn bytes_after(self, s: Seq<u8>) -> Seq<u8> {
        push16(push16(push16(push16(push32(push32(s.push(self.player_type).push(self.rule.code()), self.player1_lp as u32), self.player2_lp as u32), self.player1_deck_count), self.player1_extra_count), self.player2_deck_count), self.player2_extra_count)
    }

    /// The wire bytes of the message body.
    pub open spec fn bytes(self) -> Seq<u8> {
        self.bytes_after(Seq::empty())
    }

    /// How the bytes `d` read as the message body.
    pub open spec fn parse(d: Seq<u8>) -> Result<Start, ReadError> {
        if d.len() < 1 {
            Err(ReadError::UnexpectedEnd)
        } else {
            let player_type = d[0];
            if d.len() < 2 {
                Err(ReadError::UnexpectedEnd)
            } else {
                match MasterRule::of_code(d[1]) {
                    None => Err(ReadError::NoVariantMatch),
                    Some(rule) => {
                        if d.len() < 6 {
                            Err(ReadError::UnexpectedEnd)
                        } else {
                            let player1_lp = u32_at(d, 2) as i32;
                            if d.len() < 10 {
                                Err(ReadError::UnexpectedEnd)
                            } else {
                                let player2_lp = u32_at(d, 6) as i32;
                                if d.len() < 12 {
                                    Err(ReadError::UnexpectedEnd)
                                } else {
                                    let player1_deck_count = u16_at(d, 10);
                                    if d.len() < 14 {
                                        Err(ReadError::UnexpectedEnd)
                                    } else {
                                        let player1_extra_count = u16_at(d, 12);
                                        if d.len() < 16 {
                                            Err(ReadError::UnexpectedEnd)
                                        } else {
                                            let player2_deck_count = u16_at(d, 14);
                                            if d.len() < 18 {
                                                Err(ReadError::UnexpectedEnd)
                                            } else {
                                                let player2_extra_count = u16_at(d, 16);
                                                Ok(Start { player_type: player_type, rule: rule, player1_lp: player1_lp, player2_lp: player2_lp, player1_deck_count: player1_deck_count, player1_extra_count: player1_extra_count, player2_deck_count: player2_deck_count, player2_extra_count: player2_extra_count })
                                            }
                                        }
                                    }
                                }
                            }
                        }
                        },
                    }
            }
        }
    }

    /// Append the wire bytes of the message body.
    pub fn write(&self, out: &mut Vec<u8>)
        ensures
            final(out)@ == self.bytes_after(old(out)@),
    {
        out.push(self.player_type);
        out.push(self.rule.value());
        put_u32(out, self.player1_lp as u32);
        put_u32(out, self.player2_lp as u32);
        put_u16(out, self.player1_deck_count);
        put_u16(out, self.player1_extra_count);
        put_u16(out, self.player2_deck_count);
        put_u16(out, self.player2_extra_count);
    }

    /// The wire bytes of the message body.
    pub fn to_bytes(&self) -> (r: Vec<u8>)
        ensures
            r@ == self.bytes(),
    {
        let mut out: Vec<u8> = Vec::new();
        self.write(&mut out);
        out
    }

    /// Read the message body from the bytes `d` (bytes after it are left).
    pub fn read(d: &[u8]) -> (r: Result<Start, ReadError>)
        ensures
            r == Start::parse(d@),
    {
        if d.len() < 1 {
            return Err(ReadError::UnexpectedEnd);
        }
        let player_type = d[0];
        if d.len() < 2 {
            return Err(ReadError::UnexpectedEnd);
        }
        let rule = match MasterRule::from_value(d[1]) {
            Some(x) => x,
            None => return Err(ReadError::NoVariantMatch),
        };
        if d.len() < 6 {
            return Err(ReadError::UnexpectedEnd);
        }
        let player1_lp = read_u32(d, 2) as i32;
        if d.len() < 10 {
            return Err(ReadError::UnexpectedEnd);
        }
        let player2_lp = read_u32(d, 6) as i32;
        if d.len() < 12 {
            return Err(ReadError::UnexpectedEnd);
        }
        let player1_deck_count = read_u16(d, 10);
        if d.len() < 14 {
            return Err(ReadError::UnexpectedEnd);
        }
        let player1_extra_count = read_u16(d, 12);
        if d.len() < 16 {
            return Err(ReadError::UnexpectedEnd);
        }
        let player2_deck_count = read_u16(d, 14);
        if d.len() < 18 {
            return Err(ReadError::UnexpectedEnd);
        }
        let player2_extra_count = read_u16(d, 16);
        Ok(Start { player_type: player_type, rule: rule, player1_lp: player1_lp, player2_lp: player2_lp, player1_deck_count: player1_deck_count, player1_extra_count: player1_extra_count, player2_deck_count: player2_deck_count, player2_extra_count: player2_extra_count })
    }

    /// The body written and read back is the same message.
    pub proof fn lemma_round_trip(self)
        ensures
            Start::parse(self.bytes()) == Ok::<Start, ReadError>(self),
            self.bytes().len() == Start::size(),
    {
        let s0 = Seq::<u8>::empty();
        let s1 = s0.push(self.player_type);
        let s2 = s1.push(self.rule.code());
        let s3 = push32(s2, self.player1_lp as u32);
        lemma_push32(s2, self.player1_lp as u32);
        lemma_i32_round_trip(self.player1_lp);
        let s4 = push32(s3, self.player2_lp as u32);
        lemma_push32(s3, self.player2_lp as u32);
        lemma_i32_round_trip(self.player2_lp);
        let s5 = push16(s4, self.player1_deck_count);
        lemma_push16(s4, self.player1_deck_count);
        let s6 = push16(s5, self.player1_extra_count);
        lemma_push16(s5, self.player1_extra_count);
        let s7 = push16(s6, self.player2_deck_count);
        lemma_push16(s6, self.player2_deck_count);
        let s8 = push16(s7, self.player2_extra_count);
        lemma_push16(s7, self.player2_extra_count);
        let b = s8;
        assert(b == self.bytes());
        assert(b.subrange(0, s3.len() as int) =~= s3);
        assert(b[2] == s3[2] && b[3] == s3[3] && b[4] == s3[4] && b[5] == s3[5]);
        assert(b.subrange(0, s4.len() as int) =~= s4);
        assert(b[6] == s4[6] && b[7] == s4[7] && b[8] == s4[8] && b[9] == s4[9]);
        assert(b.subrange(0, s5.len() as int) =~= s5);
        assert(b[10] == s5[10] && b[11] == s5[11]);
        assert(b.subrange(0, s6.len() as int) =~= s6);
        assert(b[12] == s6[12] && b[13] == s6[13]);
        assert(b.subrange(0, s7.len() as int) =~= s7);
        assert(b[14] == s7[14] && b[15] == s7[15]);
        assert(b.subrange(0, s8.len() as int) =~= s8);
        assert(b[16] == s8[16] && b[17] == s8[17]);
    }
}

/// The end of a duel: who won and why.
#[derive(Clone, Copy, Debug, PartialEq, Eq, Structural)]
pub struct Win {
    pub winner: CorePlayer,
    pub reason: WinReason,
}

impl Win {
    /// The type of this message.
    pub fn message_type() -> (r: MessageType)
        ensures
            r == MessageType::Win,
    {
        MessageType::Win
    }

    /// The number of bytes of the message body.
    pub open spec fn size() -> nat {
        2
    }

    /// `s` followed by the wire bytes of the message body.
    pub open spec fn bytes_after(self, s: Seq<u8>) -> Seq<u8> {
        s.push(self.winner.code()).push(self.reason.code())
    }

    /// The wire bytes of the message body.
    pub open spec fn bytes(self) -> Seq<u8> {
        self.bytes_after(Seq::empty())
    }

    /// How the bytes `d` read as the message body.
    pub open spec fn parse(d: Seq<u8>) -> Result<Win, ReadError> {
        if d.len() < 1 {
            Err(ReadError::UnexpectedEnd)
        } else {
            match CorePlayer::of_code(d[0]) {
                None => Err(ReadError::NoVariantMatch),
                Some(winner) => {
                    if d.len() < 2 {
                        Err(ReadError::UnexpectedEnd)
                    } else {
                        match WinReason::of_code(d[1]) {
                            None => Err(ReadError::NoVariantMatch),
                            Some(reason) => {
                                Ok(Win { winner: winner, reason: reason })
                                },
                            }
                    }
                    },
                }
        }
    }

    /// Append the wire bytes of the message body.
    pub fn write(&self, out: &mut Vec<u8>)
        ensures
            final(out)@ == self.bytes_after(old(out)@),
    {
        out.push(self.winner.value());
        out.push(self.reason.value());
    }

    /// The wire bytes of the message body.
    pub fn to_bytes(&self) -> (r: Vec<u8>)
        ensures
            r@ == self.bytes(),
    {
        let mut out: Vec<u8> = Vec::new();
        self.write(&mut out);
        out
    }

    /// Read the message body from the bytes `d` (bytes after it are left).
    pub fn read(d: &[u8]) -> (r: Result<Win, ReadError>)
        ensures
            r == Win::parse(d@),
    {
        if d.len() < 1 {
            return Err(ReadError::UnexpectedEnd);
        }
        let winner = match CorePlayer::from_value(d[0]) {
            Some(x) => x,
            None => return Err(ReadError::NoVariantMatch),
        };
        if d.len() < 2 {
            return Err(ReadError::UnexpectedEnd);
        }
        let reason = match WinReason::from_value(d[1]) {
            Some(x) => x,
            None => return Err(ReadError::NoVariantMatch),
        };
        Ok(Win { winner: winner, reason: reason })
    }

    /// The body written and read back is the same message.
    pub proof fn lemma_round_trip(self)
        ensures
            Win::parse(self.bytes()) == Ok::<Win, ReadError>(self),
            self.bytes().len() == Win::size(),
    {
        let s0 = Seq::<u8>::empty();
        let s1 = s0.push(self.winner.code());
        let s2 = s1.push(self.reason.code());
        let b = s2;
        assert(b == self.bytes());
    }
}

/// The engine asks for a deck.
#[derive(Clone, Copy, Debug, PartialEq, Eq, Structural)]
pub struct RequestDeck;

impl RequestDeck {
    /// The type of this message.
    pub fn message_type() -> (r: MessageType)
        ensures
            r == MessageType::RequestDeck,
    {
        MessageType::RequestDeck
    }

    /// The number of bytes of the message body.
    pub open spec fn size() -> nat {
        0
    }

    /// `s` followed by the wire bytes of the message body.
    pub open spec fn bytes_after(self, s: Seq<u8>) -> Seq<u8> {
        s
    }

    /// The wire bytes of the message body.
    pub open spec fn bytes(self) -> Seq<u8> {
        self.bytes_after(Seq::empty())
    }

    /// How the bytes `d` read as the message body.
    pub open spec fn parse(d: Seq<u8>) -> Result<RequestDeck, ReadError> {
        Ok(RequestDeck)
    }

    /// Append the wire bytes of the message body.
    pub fn write(&self, out: &mut Vec<u8>)
        ensures
            final(out)@ == self.bytes_after(old(out)@),
    {
    }

    /// The wire bytes of the message body.
    pub fn to_bytes(&self) -> (r: Vec<u8>)
        ensures
            r@ == self.bytes(),
    {
        let mut out: Vec<u8> = Vec::new();
        self.write(&mut out);
        out
    }

    /// Read the message body from the bytes `d` (bytes after it are left).
    pub fn read(d: &[u8]) -> (r: Result<RequestDeck, ReadError>)
        ensures
            r == RequestDeck::parse(d@),
    {
        Ok(RequestDeck)
    }

    /// The body written and read back is the same message.
    pub proof fn lemma_round_trip(self)
        ensures
            RequestDeck::parse(self.bytes()) == Ok::<RequestDeck, ReadError>(self),
            self.bytes().len() == RequestDeck::size(),
    {
        let s0 = Seq::<u8>::empty();
        let b = s0;
        assert(b == self.bytes());
    }
}

/// A yes-or-no question to a player.
#[derive(Clone, Copy, Debug, PartialEq, Eq, Structural)]
pub struct SelectYesNo {
    pub selecting_player: CorePlayer,
    pub description: i32,
}

impl SelectYesNo {
    /// The type of this message.
    pub fn message_type() -> (r: MessageType)
        ensures
            r == MessageType::SelectYesNo,
    {
        MessageType::SelectYesNo
    }

    /// The number of bytes of the message body.
    pub open spec fn size() -> nat {
        5
    }

    /// `s` followed by the wire bytes of the message body.
    pub open spec fn bytes_after(self, s: Seq<u8>) -> Seq<u8> {
        push32(s.push(self.selecting_player.code()), self.description as u32)
    }

    /// The wire bytes of the message body.
    pub open spec fn bytes(self) -> Seq<u8> {
        self.bytes_after(Seq::empty())
    }

    /// How the bytes `d` read as the message body.
    pub open spec fn parse(d: Seq<u8>) -> Result<SelectYesNo, ReadError> {
        if d.len() < 1 {
            Err(ReadError::UnexpectedEnd)
        } else {
            match CorePlayer::of_code(d[0]) {
                None => Err(ReadError::NoVariantMatch),
                Some(selecting_player) => {
                    if d.len() < 5 {
                        Err(ReadError::UnexpectedEnd)
                    } else {
                        let description = u32_at(d, 1) as i32;
                        Ok(SelectYesNo { selecting_player: selecting_player, description: description })
                    }
                    },
                }
        }
    }

    /// Append the wire bytes of the message body.
    pub fn write(&self, out: &mut Vec<u8>)
        ensures
            final(out)@ == self.bytes_after(old(out)@),
    {
        out.push(self.selecting_player.value());
        put_u32(out, self.description as u32);
    }

    /// The wire bytes of the message body.
    pub fn to_bytes(&self) -> (r: Vec<u8>)
        ensures
            r@ == self.bytes(),
    {
        let mut out: Vec<u8> = Vec::new();
        self.write(&mut out);
        out
    }

    /// Read the message body from the bytes `d` (bytes after it are left).
    pub fn read(d: &[u8]) -> (r: Result<SelectYesNo, ReadError>)
        ensures
            r == SelectYesNo::parse(d@),
    {
        if d.len() < 1 {
            return Err(ReadError::UnexpectedEnd);
        }
        let selecting_player = match CorePlayer::from_value(d[0]) {
            Some(x) => x,
            None => return Err(ReadError::NoVariantMatch),
        };
        if d.len() < 5 {
            return Err(ReadError::UnexpectedEnd);
        }
        let description = read_u32(d, 1) as i32;
        Ok(SelectYesNo { selecting_player: selecting_player, description: description })
    }

    /// The body written and read back is the same message.
    pub proof fn lemma_round_trip(self)
        ensures
            SelectYesNo::parse(self.bytes()) == Ok::<SelectYesNo, ReadError>(self),
            self.bytes().len() == SelectYesNo::size(),
    {
        let s0 = Seq::<u8>::empty();
        let s1 = s0.push(self.selecting_player.code());
        let s2 = push32(s1, self.description as u32);
        lemma_push32(s1, self.description as u32);
        lemma_i32_round_trip(self.description);
        let b = s2;
        assert(b == self.bytes());
        assert(b.subrange(0, s2.len() as int) =~= s2);
        assert(b[1] == s2[1] && b[2] == s2[2] && b[3] == s2[3] && b[4] == s2[4]);
    }
}

/// A player is to choose a zone.
#[derive(Clone, Copy, Debug, PartialEq, Eq, Structural)]
pub struct SelectPlace {
    pub selecting_player: CorePlayer,
    pub count: i8,
    pub selectable_field: i32,
}

impl SelectPlace {
    /// The type of this message.
    pub fn message_type() -> (r: MessageType)
        ensures
            r == MessageType::SelectPlace,
    {
        MessageType::SelectPlace
    }

    /// The number of bytes of the message body.
    pub open spec fn size() -> nat {
        6
    }

    /// `s` followed by the wire bytes of the message body.
    pub open spec fn bytes_after(self, s: Seq<u8>) -> Seq<u8> {
        push32(s.push(self.selecting_player.code()).push(self.count as u8), self.selectable_field as u32)
    }

    /// The wire bytes of the message body.
    pub open spec fn bytes(self) -> Seq<u8> {
        self.bytes_after(Seq::empty())
    }

    /// How the bytes `d` read as the message body.
    pub open spec fn parse(d: Seq<u8>) -> Result<SelectPlace, ReadError> {
        if d.len() < 1 {
            Err(ReadError::UnexpectedEnd)
        } else {
            match CorePlayer::of_code(d[0]) {
                None => Err(ReadError::NoVariantMatch),
                Some(selecting_player) => {
                    if d.len() < 2 {
                        Err(ReadError::UnexpectedEnd)
                    } else {
                        let count = d[1] as i8;
                        if d.len() < 6 {
                            Err(ReadError::UnexpectedEnd)
                        } else {
                            let selectable_field = u32_at(d, 2) as i32;
                            Ok(SelectPlace { selecting_player: selecting_player, count: count, selectable_field: selectable_field })
                        }
                    }
                    },
                }
        }
    }

    /// Append the wire bytes of the message body.
    pub fn write(&self, out: &mut Vec<u8>)
        ensures
            final(out)@ == self.bytes_after(old(out)@),
    {
        out.push(self.selecting_player.value());
        out.push(self.count as u8);
        put_u32(out, self.selectable_field as u32);
    }

    /// The wire bytes of the message body.
    pub fn to_bytes(&self) -> (r: Vec<u8>)
        ensures
            r@ == self.bytes(),
    {
        let mut out: Vec<u8> = Vec::new();
        self.write(&mut out);
        out
    }

    /// Read the message body from the bytes `d` (bytes after it are left).
    pub fn read(d: &[u8]) -> (r: Result<SelectPlace, ReadError>)
        ensures
            r == SelectPlace::parse(d@),
    {
        if d.len() < 1 {
            return Err(ReadError::UnexpectedEnd);
        }
        let selecting_player = match CorePlayer::from_value(d[0]) {
            Some(x) => x,
            None => return Err(ReadError::NoVariantMatch),
        };
        if d.len() < 2 {
            return Err(ReadError::UnexpectedEnd);
        }
        let count = d[1] as i8;
        if d.len() < 6 {
            return Err(ReadError::UnexpectedEnd);
        }
        let selectable_field = read_u32(d, 2) as i32;
        Ok(SelectPlace { selecting_player: selecting_player, count: count, selectable_field: selectable_field })
    }

    /// The body written and read back is the same message.
    pub proof fn lemma_round_trip(self)
        ensures
            SelectPlace::parse(self.bytes()) == Ok::<SelectPlace, ReadError>(self),
            self.bytes().len() == SelectPlace::size(),
    {
        let s0 = Seq::<u8>::empty();
        let s1 = s0.push(self.selecting_player.code());
        let s2 = s1.push(self.count as u8);
        lemma_i8_round_trip(self.count);
        let s3 = push32(s2, self.selectable_field as u32);
        lemma_push32(s2, self.selectable_field as u32);
        lemma_i32_round_trip(self.selectable_field);
        let b = s3;
        assert(b == self.bytes());
        assert(b.subrange(0, s3.len() as int) =~= s3);
        assert(b[2] == s3[2] && b[3] == s3[3] && b[4] == s3[4] && b[5] == s3[5]);
    }
}

/// A player is to choose a battle position.
#[derive(Clone, Copy, Debug, PartialEq, Eq, Structural)]
pub struct SelectPosition {
    pub selecting_player: CorePlayer,
    pub code: u32,
    pub positions: Position,
}

impl SelectPosition {
    /// The type of this message.
    pub fn message_type() -> (r: MessageType)
        ensures
            r == MessageType::SelectPosition,
    {
        MessageType::SelectPosition
    }

    /// The number of bytes of the message body.
    pub open spec fn size() -> nat {
        6
    }

    /// `s` followed by the wire bytes of the message body.
    pub open spec fn bytes_after(self, s: Seq<u8>) -> Seq<u8> {
        push32(s.push(self.selecting_player.code()), self.code).push(self.positions.code())
    }

    /// The wire bytes of the message body.
    pub open spec fn bytes(self) -> Seq<u8> {
        self.bytes_after(Seq::empty())
    }

    /// How the bytes `d` read as the message body.
    pub open spec fn parse(d: Seq<u8>) -> Result<SelectPosition, ReadError> {
        if d.len() < 1 {
            Err(ReadError::UnexpectedEnd)
        } else {
            match CorePlayer::of_code(d[0]) {
                None => Err(ReadError::NoVariantMatch),
                Some(selecting_player) => {
                    if d.len() < 5 {
                        Err(ReadError::UnexpectedEnd)
                    } else {
                        let code = u32_at(d, 1);
                        if d.len() < 6 {
                            Err(ReadError::UnexpectedEnd)
                        } else {
                            match Position::of_code(d[5]) {
                                None => Err(ReadError::NoVariantMatch),
                                Some(positions) => {
                                    Ok(SelectPosition { selecting_player: selecting_player, code: code, positions: positions })
                                    },
                                }
                        }
                    }
                    },
                }
        }
    }

    /// Append the wire bytes of the message body.
    pub fn write(&self, out: &mut Vec<u8>)
        ensures
            final(out)@ == self.bytes_after(old(out)@),
    {
        out.push(self.selecting_player.value());
        put_u32(out, self.code);
        out.push(self.positions.value());
    }

    /// The wire bytes of the message body.
    pub fn to_bytes(&self) -> (r: Vec<u8>)
        ensures
            r@ == self.bytes(),
    {
        let mut out: Vec<u8> = Vec::new();
        self.write(&mut out);
        out
    }

    /// Read the message body from the bytes `d` (bytes after it are left).
    pub fn read(d: &[u8]) -> (r: Result<SelectPosition, ReadError>)
        ensures
            r == SelectPosition::parse(d@),
    {
        if d.len() < 1 {
            return Err(ReadError::UnexpectedEnd);
        }
        let selecting_player = match CorePlayer::from_value(d[0]) {
            Some(x) => x,
            None => return Err(ReadError::NoVariantMatch),
        };
        if d.len() < 5 {
            return Err(ReadError::UnexpectedEnd);
        }
        let code = read_u32(d, 1);
        if d.len() < 6 {
            return Err(ReadError::UnexpectedEnd);
        }
        let positions = match Position::from_value(d[5]) {
            Some(x) => x,
            None => return Err(ReadError::NoVariantMatch),
        };
        Ok(SelectPosition { selecting_player: selecting_player, code: code, positions: positions })
    }

    /// The body written and read back is the same message.
    pub proof fn lemma_round_trip(self)
        ensures
            SelectPosition::parse(self.bytes()) == Ok::<SelectPosition, ReadError>(self),
            self.bytes().len() == SelectPosition::size(),
    {
        let s0 = Seq::<u8>::empty();
        let s1 = s0.push(self.selecting_player.code());
        let s2 = push32(s1, self.code);
        lemma_push32(s1, self.code);
        let s3 = s2.push(self.positions.code());
        let b = s3;
        assert(b == self.bytes());
        assert(b.subrange(0, s2.len() as int) =~= s2);
        assert(b[1] == s2[1] && b[2] == s2[2] && b[3] == s2[3] && b[4] == s2[4]);
    }
}

/// A player is to order a chain.
#[derive(Clone, Copy, Debug, PartialEq, Eq, Structural)]
pub struct SortChain;

impl SortChain {
    /// The type of this message.
    pub fn message_type() -> (r: MessageType)
        ensures
            r == MessageType::SortChain,
    {
        MessageType::SortChain
    }

    /// The number of bytes of the message body.
    pub open spec fn size() -> nat {
        0
    }

    /// `s` followed by the wire bytes of the message body.
    pub open spec fn bytes_after(self, s: Seq<u8>) -> Seq<u8> {
        s
    }

    /// The wire bytes of the message body.
    pub open spec fn bytes(self) -> Seq<u8> {
        self.bytes_after(Seq::empty())
    }

    /// How the bytes `d` read as the message body.
    pub open spec fn parse(d: Seq<u8>) -> Result<SortChain, ReadError> {
        Ok(SortChain)
    }

    /// Append the wire bytes of the message body.
    pub fn write(&self, out: &mut Vec<u8>)
        ensures
            final(out)@ == self.bytes_after(old(out)@),
    {
    }

    /// The wire bytes of the message body.
    pub fn to_bytes(&self) -> (r: Vec<u8>)
        ensures
            r@ == self.bytes(),
    {
        let mut out: Vec<u8> = Vec::new();
        self.write(&mut out);
        out
    }

    /// Read the message body from the bytes `d` (bytes after it are left).
    pub fn read(d: &[u8]) -> (r: Result<SortChain, ReadError>)
        ensures
            r == SortChain::parse(d@),
    {
        Ok(SortChain)
    }

    /// The body written and read back is the same message.
    pub proof fn lemma_round_trip(self)
        ensures
            SortChain::parse(self.bytes()) == Ok::<SortChain, ReadError>(self),
            self.bytes().len() == SortChain::size(),
    {
        let s0 = Seq::<u8>::empty();
        let b = s0;
        assert(b == self.bytes());
    }
}

/// A player is to choose a zone to disable.
#[derive(Clone, Copy, Debug, PartialEq, Eq, Structural)]
pub struct SelectDisableField {
    pub selecting_player: CorePlayer,
    pub count: i8,
    pub selectable_field: i32,
}

impl SelectDisableField {
    /// The type of this message.
    pub fn message_type() -> (r: MessageType)
        ensures
            r == MessageType::SelectDisableField,
    {
        MessageType::SelectDisableField
    }

    /// The number of bytes of the message body.
    pub open spec fn size() -> nat {
        6
    }

    /// `s` followed by the wire bytes of the message body.
    pub open spec fn bytes_after(self, s: Seq<u8>) -> Seq<u8> {
        push32(s.push(self.selecting_player.code()).push(self.count as u8), self.selectable_field as u32)
    }

    /// The wire bytes of the message body.
    pub open spec fn bytes(self) -> Seq<u8> {
        self.bytes_after(Seq::empty())
    }

    /// How the bytes `d` read as the message body.
    pub open spec fn parse(d: Seq<u8>) -> Result<SelectDisableField, ReadError> {
        if d.len() < 1 {
            Err(ReadError::UnexpectedEnd)
        } else {
            match CorePlayer::of_code(d[0]) {
                None => Err(ReadError::NoVariantMatch),
                Some(selecting_player) => {
                    if d.len() < 2 {
                        Err(ReadError::UnexpectedEnd)
                    } else {
                        let count = d[1] as i8;
                        if d.len() < 6 {
                            Err(ReadError::UnexpectedEnd)
                        } else {
                            let selectable_field = u32_at(d, 2) as i32;
                            Ok(SelectDisableField { selecting_player: selecting_player, count: count, selectable_field: selectable_field })
                        }
                    }
                    },
                }
        }
    }

    /// Append the wire bytes of the message body.
    pub fn write(&self, out: &mut Vec<u8>)
        ensures
            final(out)@ == self.bytes_after(old(out)@),
    {
        out.push(self.selecting_player.value());
        out.push(self.count as u8);
        put_u32(out, self.selectable_field as u32);
    }

    /// The wire bytes of the message body.
    pub fn to_bytes(&self) -> (r: Vec<u8>)
        ensures
            r@ == self.bytes(),
    {
        let mut out: Vec<u8> = Vec::new();
        self.write(&mut out);
        out
    }

    /// Read the message body from the bytes `d` (bytes after it are left).
    pub fn read(d: &[u8]) -> (r: Result<SelectDisableField, ReadError>)
        ensures
            r == SelectDisableField::parse(d@),
    {
        if d.len() < 1 {
            return Err(ReadError::UnexpectedEnd);
        }
        let selecting_player = match CorePlayer::from_value(d[0]) {
            Some(x) => x,
            None => return Err(ReadError::NoVariantMatch),
        };
        if d.len() < 2 {
            return Err(ReadError::UnexpectedEnd);
        }
        let count = d[1] as i8;
        if d.len() < 6 {
            return Err(ReadError::UnexpectedEnd);
        }
        let selectable_field = read_u32(d, 2) as i32;
        Ok(SelectDisableField { selecting_player: selecting_player, count: count, selectable_field: selectable_field })
    }

    /// The body written and read back is the same message.
    pub proof fn lemma_round_trip(self)
        ensures
            SelectDisableField::parse(self.bytes()) == Ok::<SelectDisableField, ReadError>(self),
            self.bytes().len() == SelectDisableField::size(),
    {
        let s0 = Seq::<u8>::empty();
        let s1 = s0.push(self.selecting_player.code());
        let s2 = s1.push(self.count as u8);
        lemma_i8_round_trip(self.count);
        let s3 = push32(s2, self.selectable_field as u32);
        lemma_push32(s2, self.selectable_field as u32);
        lemma_i32_round_trip(self.selectable_field);
        let b = s3;
        assert(b == self.bytes());
        assert(b.subrange(0, s3.len() as int) =~= s3);
        assert(b[2] == s3[2] && b[3] == s3[3] && b[4] == s3[4] && b[5] == s3[5]);
    }
}

/// A deck is shuffled.
#[derive(Clone, Copy, Debug, PartialEq, Eq, Structural)]
pub struct ShuffleDeck {
    pub player: CorePlayer,
}

impl ShuffleDeck {
    /// The type of this message.
    pub fn message_type() -> (r: MessageType)
        ensures
            r == MessageType::ShuffleDeck,
    {
        MessageType::ShuffleDeck
    }

    /// The number of bytes of the message body.
    pub open spec fn size() -> nat {
        1
    }

    /// `s` followed by the wire bytes of the message body.
    pub open spec fn bytes_after(self, s: Seq<u8>) -> Seq<u8> {
        s.push(self.player.code())
    }

    /// The wire bytes of the message body.
    pub open spec fn bytes(self) -> Seq<u8> {
        self.bytes_after(Seq::empty())
    }

    /// How the bytes `d` read as the message body.
    pub open spec fn parse(d: Seq<u8>) -> Result<ShuffleDeck, ReadError> {
        if d.len() < 1 {
            Err(ReadError::UnexpectedEnd)
        } else {
            match CorePlayer::of_code(d[0]) {
                None => Err(ReadError::NoVariantMatch),
                Some(player) => {
                    Ok(ShuffleDeck { player: player })
                    },
                }
        }
    }

    /// Append the wire bytes of the message body.
    pub fn write(&self, out: &mut Vec<u8>)
        ensures
            final(out)@ == self.bytes_after(old(out)@),
    {
        out.push(self.player.value());
    }

    /// The wire bytes of the message body.
    pub fn to_bytes(&self) -> (r: Vec<u8>)
        ensures
            r@ == self.bytes(),
    {
        let mut out: Vec<u8> = Vec::new();
        self.write(&mut out);
        out
    }

    /// Read the message body from the bytes `d` (bytes after it are left).
    pub fn read(d: &[u8]) -> (r: Result<ShuffleDeck, ReadError>)
        ensures
            r == ShuffleDeck::parse(d@),
    {
        if d.len() < 1 {
            return Err(ReadError::UnexpectedEnd);
        }
        let player = match CorePlayer::from_value(d[0]) {
            Some(x) => x,
            None => return Err(ReadError::NoVariantMatch),
        };
        Ok(ShuffleDeck { player: player })
    }

    /// The body written and read back is the same message.
    pub proof fn lemma_round_trip(self)
        ensures
            ShuffleDeck::parse(self.bytes()) == Ok::<ShuffleDeck, ReadError>(self),
            self.bytes().len() == ShuffleDeck::size(),
    {
        let s0 = Seq::<u8>::empty();
        let s1 = s0.push(self.player.code());
        let b = s1;
        assert(b == self.bytes());
    }
}

/// A deck is refreshed.
#[derive(Clone, Copy, Debug, PartialEq, Eq, Structural)]
pub struct RefreshDeck {
    pub player: CorePlayer,
}

impl RefreshDeck {
    /// The type of this message.
    pub fn message_type() -> (r: MessageType)
        ensures
            r == MessageType::RefreshDeck,
    {
        MessageType::RefreshDeck
    }

    /// The number of bytes of the message body.
    pub open spec fn size() -> nat {
        1
    }

    /// `s` followed by the wire bytes of the message body.
    pub open spec fn bytes_after(self, s: Seq<u8>) -> Seq<u8> {
        s.push(self.player.code())
    }

    /// The wire bytes of the message body.
    pub open spec fn bytes(self) -> Seq<u8> {
        self.bytes_after(Seq::empty())
    }

    /// How the bytes `d` read as the message body.
    pub open spec fn parse(d: Seq<u8>) -> Result<RefreshDeck, ReadError> {
        if d.len() < 1 {
            Err(ReadError::UnexpectedEnd)
        } else {
            match CorePlayer::of_code(d[0]) {
                None => Err(ReadError::NoVariantMatch),
                Some(player) => {
                    Ok(RefreshDeck { player: player })
                    },
                }
        }
    }

    /// Append the wire bytes of the message body.
    pub fn write(&self, out: &mut Vec<u8>)
        ensures
            final(out)@ == self.bytes_after(old(out)@),
    {
        out.push(self.player.value());
    }

    /// The wire bytes of the message body.
    pub fn to_bytes(&self) -> (r: Vec<u8>)
        ensures
            r@ == self.bytes(),
    {
        let mut out: Vec<u8> = Vec::new();
        self.write(&mut out);
        out
    }

    /// Read the message body from the bytes `d` (bytes after it are left).
    pub fn read(d: &[u8]) -> (r: Result<RefreshDeck, ReadError>)
        ensures
            r == RefreshDeck::parse(d@),
    {
        if d.len() < 1 {
            return Err(ReadError::UnexpectedEnd);
        }
        let player = match CorePlayer::from_value(d[0]) {
            Some(x) => x,
            None => return Err(ReadError::NoVariantMatch),
        };
        Ok(RefreshDeck { player: player })
    }

    /// The body written and read back is the same message.
    pub proof fn lemma_round_trip(self)
        ensures
            RefreshDeck::parse(self.bytes()) == Ok::<RefreshDeck, ReadError>(self),
            self.bytes().len() == RefreshDeck::size(),
    {
        let s0 = Seq::<u8>::empty();
        let s1 = s0.push(self.player.code());
        let b = s1;
        assert(b == self.bytes());
    }
}

/// A graveyard and a deck swap.
#[derive(Clone, Copy, Debug, PartialEq, Eq, Structural)]
pub struct SwapGraveDeck {
    pub player: CorePlayer,
}

impl SwapGraveDeck {
    /// The type of this message.
    pub fn message_type() -> (r: MessageType)
        ensures
            r == MessageType::SwapGraveDeck,
    {
        MessageType::SwapGraveDeck
    }

    /// The number of bytes of the message body.
    pub open spec fn size() -> nat {
        1
    }

    /// `s` followed by the wire bytes of the message body.
    pub open spec fn bytes_after(self, s: Seq<u8>) -> Seq<u8> {
        s.push(self.player.code())
    }

    /// The wire bytes of the message body.
    pub open spec fn bytes(self) -> Seq<u8> {
        self.bytes_after(Seq::empty())
    }

    /// How the bytes `d` read as the message body.
    pub open spec fn parse(d: Seq<u8>) -> Result<SwapGraveDeck, ReadError> {
        if d.len() < 1 {
            Err(ReadError::UnexpectedEnd)
        } else {
            match CorePlayer::of_code(d[0]) {
                None => Err(ReadError::NoVariantMatch),
                Some(player) => {
                    Ok(SwapGraveDeck { player: player })
                    },
                }
        }
    }

    /// Append the wire bytes of the message body.
    pub fn write(&self, out: &mut Vec<u8>)
        ensures
            final(out)@ == self.bytes_after(old(out)@),
    {
        out.push(self.player.value());
    }

    /// The wire bytes of the message body.
    pub fn to_bytes(&self) -> (r: Vec<u8>)
        ensures
            r@ == self.bytes(),
    {
        let mut out: Vec<u8> = Vec::new();
        self.write(&mut out);
        out
    }

    /// Read the message body from the bytes `d` (bytes after it are left).
    pub fn read(d: &[u8]) -> (r: Result<SwapGraveDeck, ReadError>)
        ensures
            r == SwapGraveDeck::parse(d@),
    {
        if d.len() < 1 {
            return Err(ReadError::UnexpectedEnd);
        }
        let player = match CorePlayer::from_value(d[0]) {
            Some(x) => x,
            None => return Err(ReadError::NoVariantMatch),
        };
        Ok(SwapGraveDeck { player: player })
    }

    /// The body written and read back is the same message.
    pub proof fn lemma_round_trip(self)
        ensures
            SwapGraveDeck::parse(self.bytes()) == Ok::<SwapGraveDeck, ReadError>(self),
            self.bytes().len() == SwapGraveDeck::size(),
    {
        let s0 = Seq::<u8>::empty();
        let s1 = s0.push(self.player.code());
        let b = s1;
        assert(b == self.bytes());
    }
}

/// A deck is turned over.
#[derive(Clone, Copy, Debug, PartialEq, Eq, Structural)]
pub struct ReverseDeck;

impl ReverseDeck {
    /// The type of this message.
    pub fn message_type() -> (r: MessageType)
        ensures
            r == MessageType::ReverseDeck,
    {
        MessageType::ReverseDeck
    }

    /// The number of bytes of the message body.
    pub open spec fn size() -> nat {
        0
    }

    /// `s` followed by the wire bytes of the message body.
    pub open spec fn bytes_after(self, s: Seq<u8>) -> Seq<u8> {
        s
    }

    /// The wire bytes of the message body.
    pub open spec fn bytes(self) -> Seq<u8> {
        self.bytes_after(Seq::empty())
    }

    /// How the bytes `d` read as the message body.
    pub open spec fn parse(d: Seq<u8>) -> Result<ReverseDeck, ReadError> {
        Ok(ReverseDeck)
    }

    /// Append the wire bytes of the message body.
    pub fn write(&self, out: &mut Vec<u8>)
        ensures
            final(out)@ == self.bytes_after(old(out)@),
    {
    }

    /// The wire bytes of the message body.
    pub fn to_bytes(&self) -> (r: Vec<u8>)
        ensures
            r@ == self.bytes(),
    {
        let mut out: Vec<u8> = Vec::new();
        self.write(&mut out);
        out
    }

    /// Read the message body from the bytes `d` (bytes after it are left).
    pub fn read(d: &[u8]) -> (r: Result<ReverseDeck, ReadError>)
        ensures
            r == ReverseDeck::parse(d@),
    {
        Ok(ReverseDeck)
    }

    /// The body written and read back is the same message.
    pub proof fn lemma_round_trip(self)
        ensures
            ReverseDeck::parse(self.bytes()) == Ok::<ReverseDeck, ReadError>(self),
            self.bytes().len() == ReverseDeck::size(),
    {
        let s0 = Seq::<u8>::empty();
        let b = s0;
        assert(b == self.bytes());
    }
}

/// The top card of a deck is shown.
#[derive(Clone, Copy, Debug, PartialEq, Eq, Structural)]
pub struct DeckTop;

impl DeckTop {
    /// The type of this message.
    pub fn message_type() -> (r: MessageType)
        ensures
            r == MessageType::DeckTop,
    {
        MessageType::DeckTop
    }

    /// The number of bytes of the message body.
    pub open spec fn size() -> nat {
        0
    }

    /// `s` followed by the wire bytes of the message body.
    pub open spec fn bytes_after(self, s: Seq<u8>) -> Seq<u8> {
        s
    }

    /// The wire bytes of the message body.
    pub open spec fn bytes(self) -> Seq<u8> {
        self.bytes_after(Seq::empty())
    }

    /// How the bytes `d` read as the message body.
    pub open spec fn parse(d: Seq<u8>) -> Result<DeckTop, ReadError> {
        Ok(DeckTop)
    }

    /// Append the wire bytes of the message body.
    pub fn write(&self, out: &mut Vec<u8>)
        ensures
            final(out)@ == self.bytes_after(old(out)@),
    {
    }

    /// The wire bytes of the message body.
    pub fn to_bytes(&self) -> (r: Vec<u8>)
        ensures
            r@ == self.bytes(),
    {
        let mut out: Vec<u8> = Vec::new();
        self.write(&mut out);
        out
    }

    /// Read the message body from the bytes `d` (bytes after it are left).
    pub fn read(d: &[u8]) -> (r: Result<DeckTop, ReadError>)
        ensures
            r == DeckTop::parse(d@),
    {
        Ok(DeckTop)
    }

    /// The body written and read back is the same message.
    pub proof fn lemma_round_trip(self)
        ensures
            DeckTop::parse(self.bytes()) == Ok::<DeckTop, ReadError>(self),
            self.bytes().len() == DeckTop::size(),
    {
        let s0 = Seq::<u8>::empty();
        let b = s0;
        assert(b == self.bytes());
    }
}

/// A new turn begins.
#[derive(Clone, Copy, Debug, PartialEq, Eq, Structural)]
pub struct NewTurn {
    pub player: CorePlayer,
}

impl NewTurn {
    /// The type of this message.
    pub fn message_type() -> (r: MessageType)
        ensures
            r == MessageType::NewTurn,
    {
        MessageType::NewTurn
    }

    /// The number of bytes of the message body.
    pub open spec fn size() -> nat {
        1
    }

    /// `s` followed by the wire bytes of the message body.
    pub open spec fn bytes_after(self, s: Seq<u8>) -> Seq<u8> {
        s.push(self.player.code())
    }

    /// The wire bytes of the message body.
    pub open spec fn bytes(self) -> Seq<u8> {
        self.bytes_after(Seq::empty())
    }

    /// How the bytes `d` read as the message body.
    pub open spec fn parse(d: Seq<u8>) -> Result<NewTurn, ReadError> {
        if d.len() < 1 {
            Err(ReadError::UnexpectedEnd)
        } else {
            match CorePlayer::of_code(d[0]) {
                None => Err(ReadError::NoVariantMatch),
                Some(player) => {
                    Ok(NewTurn { player: player })
                    },
                }
        }
    }

    /// Append the wire bytes of the message body.
    pub fn write(&self, out: &mut Vec<u8>)
        ensures
            final(out)@ == self.bytes_after(old(out)@),
    {
        out.push(self.player.value());
    }

    /// The wire bytes of the message body.
    pub fn to_bytes(&self) -> (r: Vec<u8>)
        ensures
            r@ == self.bytes(),
    {
        let mut out: Vec<u8> = Vec::new();
        self.write(&mut out);
        out
    }

    /// Read the message body from the bytes `d` (bytes after it are left).
    pub fn read(d: &[u8]) -> (r: Result<NewTurn, ReadError>)
        ensures
            r == NewTurn::parse(d@),
    {
        if d.len() < 1 {
            return Err(ReadError::UnexpectedEnd);
        }
        let player = match CorePlayer::from_value(d[0]) {
            Some(x) => x,
            None => return Err(ReadError::NoVariantMatch),
        };
        Ok(NewTurn { player: player })
    }

    /// The body written and read back is the same message.
    pub proof fn lemma_round_trip(self)
        ensures
            NewTurn::parse(self.bytes()) == Ok::<NewTurn, ReadError>(self),
            self.bytes().len() == NewTurn::size(),
    {
        let s0 = Seq::<u8>::empty();
        let s1 = s0.push(self.player.code());
        let b = s1;
        assert(b == self.bytes());
    }
}

/// A new phase begins.
#[derive(Clone, Copy, Debug, PartialEq, Eq, Structural)]
pub struct NewPhase {
    pub phase: crate::constants::Phase,
}

impl NewPhase {
    /// The type of this message.
    pub fn message_type() -> (r: MessageType)
        ensures
            r == MessageType::NewPhase,
    {
        MessageType::NewPhase
    }

    /// The number of bytes of the message body.
    pub open spec fn size() -> nat {
        2
    }

    /// `s` followed by the wire bytes of the message body.
    pub open spec fn bytes_after(self, s: Seq<u8>) -> Seq<u8> {
        push16(s, self.phase.code())
    }

    /// The wire bytes of the message body.
    pub open spec fn bytes(self) -> Seq<u8> {
        self.bytes_after(Seq::empty())
    }

    /// How the bytes `d` read as the message body.
    pub open spec fn parse(d: Seq<u8>) -> Result<NewPhase, ReadError> {
        if d.len() < 2 {
            Err(ReadError::UnexpectedEnd)
        } else {
            match crate::constants::Phase::of_code(u16_at(d, 0)) {
                None => Err(ReadError::NoVariantMatch),
                Some(phase) => {
                    Ok(NewPhase { phase: phase })
                    },
                }
        }
    }

    /// Append the wire bytes of the message body.
    pub fn write(&self, out: &mut Vec<u8>)
        ensures
            final(out)@ == self.bytes_after(old(out)@),
    {
        put_u16(out, self.phase.value());
    }

    /// The wire bytes of the message body.
    pub fn to_bytes(&self) -> (r: Vec<u8>)
        ensures
            r@ == self.bytes(),
    {
        let mut out: Vec<u8> = Vec::new();
        self.write(&mut out);
        out
    }

    /// Read the message body from the bytes `d` (bytes after it are left).
    pub fn read(d: &[u8]) -> (r: Result<NewPhase, ReadError>)
        ensures
            r == NewPhase::parse(d@),
    {
        if d.len() < 2 {
            return Err(ReadError::UnexpectedEnd);
        }
        let phase = match crate::constants::Phase::from_value(read_u16(d, 0)) {
            Some(x) => x,
            None => return Err(ReadError::NoVariantMatch),
        };
        Ok(NewPhase { phase: phase })
    }

    /// The body written and read back is the same message.
    pub proof fn lemma_round_trip(self)
        ensures
            NewPhase::parse(self.bytes()) == Ok::<NewPhase, ReadError>(self),
            self.bytes().len() == NewPhase::size(),
    {
        let s0 = Seq::<u8>::empty();
        let s1 = push16(s0, self.phase.code());
        lemma_push16(s0, self.phase.code());
        let b = s1;
        assert(b == self.bytes());
        assert(b.subrange(0, s1.len() as int) =~= s1);
        assert(b[0] == s1[0] && b[1] == s1[1]);
    }
}

/// A card changes its battle position.
#[derive(Clone, Copy, Debug, PartialEq, Eq, Structural)]
pub struct PositionChange {
    pub card: u32,
    pub controller: CorePlayer,
    pub location: u8,
    pub sequence: i8,
    pub previous_position: Position,
    pub current_position: Position,
}

impl PositionChange {
    /// The type of this message.
    pub fn message_type() -> (r: MessageType)
        ensures
            r == MessageType::PositionChange,
    {
        MessageType::PositionChange
    }

    /// The number of bytes of the message body.
    pub open spec fn size() -> nat {
        9
    }

    /// `s` followed by the wire bytes of the message body.
    pub open spec fn bytes_after(self, s: Seq<u8>) -> Seq<u8> {
        push32(s, self.card).push(self.controller.code()).push(self.location).push(self.sequence as u8).push(self.previous_position.code()).push(self.current_position.code())
    }

    /// The wire bytes of the message body.
    pub open spec fn bytes(self) -> Seq<u8> {
        self.bytes_after(Seq::empty())
    }

    /// How the bytes `d` read as the message body.
    pub open spec fn parse(d: Seq<u8>) -> Result<PositionChange, ReadError> {
        if d.len() < 4 {
            Err(ReadError::UnexpectedEnd)
        } else {
            let card = u32_at(d, 0);
            if d.len() < 5 {
                Err(ReadError::UnexpectedEnd)
            } else {
                match CorePlayer::of_code(d[4]) {
                    None => Err(ReadError::NoVariantMatch),
                    Some(controller) => {
                        if d.len() < 6 {
                            Err(ReadError::UnexpectedEnd)
                        } else {
                            let location = d[5];
                            if d.len() < 7 {
                                Err(ReadError::UnexpectedEnd)
                            } else {
                                let sequence = d[6] as i8;
                                if d.len() < 8 {
                                    Err(ReadError::UnexpectedEnd)
                                } else {
                                    match Position::of_code(d[7]) {
                                        None => Err(ReadError::NoVariantMatch),
                                        Some(previous_position) => {
                                            if d.len() < 9 {
                                                Err(ReadError::UnexpectedEnd)
                                            } else {
                                                match Position::of_code(d[8]) {
                                                    None => Err(ReadError::NoVariantMatch),
                                                    Some(current_position) => {
                                                        Ok(PositionChange { card: card, controller: controller, location: location, sequence: sequence, previous_position: previous_position, current_position: current_position })
                                                        },
                                                    }
                                            }
                                            },
                                        }
                                }
                            }
                        }
                        },
                    }
            }
        }
    }

    /// Append the wire bytes of the message body.
    pub fn write(&self, out: &mut Vec<u8>)
        ensures
            final(out)@ == self.bytes_after(old(out)@),
    {
        put_u32(out, self.card);
        out.push(self.controller.value());
        out.push(self.location);
        out.push(self.sequence as u8);
        out.push(self.previous_position.value());
        out.push(self.current_position.value());
    }

    /// The wire bytes of the message body.
    pub fn to_bytes(&self) -> (r: Vec<u8>)
        ensures
            r@ == self.bytes(),
    {
        let mut out: Vec<u8> = Vec::new();
        self.write(&mut out);
        out
    }

    /// Read the message body from the bytes `d` (bytes after it are left).
    pub fn read(d: &[u8]) -> (r: Result<PositionChange, ReadError>)
        ensures
            r == PositionChange::parse(d@),
    {
        if d.len() < 4 {
            return Err(ReadError::UnexpectedEnd);
        }
        let card = read_u32(d, 0);
        if d.len() < 5 {
            return Err(ReadError::UnexpectedEnd);
        }
        let controller = match CorePlayer::from_value(d[4]) {
            Some(x) => x,
            None => return Err(ReadError::NoVariantMatch),
        };
        if d.len() < 6 {
            return Err(ReadError::UnexpectedEnd);
        }
        let location = d[5];
        if d.len() < 7 {
            return Err(ReadError::UnexpectedEnd);
        }
        let sequence = d[6] as i8;
        if d.len() < 8 {
            return Err(ReadError::UnexpectedEnd);
        }
        let previous_position = match Position::from_value(d[7]) {
            Some(x) => x,
            None => return Err(ReadError::NoVariantMatch),
        };
        if d.len() < 9 {
            return Err(ReadError::UnexpectedEnd);
        }
        let current_position = match Position::from_value(d[8]) {
            Some(x) => x,
            None => return Err(ReadError::NoVariantMatch),
        };
        Ok(PositionChange { card: card, controller: controller, location: location, sequence: sequence, previous_position: previous_position, current_position: current_position })
    }

    /// The body written and read back is the same message.
    pub proof fn lemma_round_trip(self)
        ensures
            PositionChange::parse(self.bytes()) == Ok::<PositionChange, ReadError>(self),
            self.bytes().len() == PositionChange::size(),
    {
        let s0 = Seq::<u8>::empty();
        let s1 = push32(s0, self.card);
        lemma_push32(s0, self.card);
        let s2 = s1.push(self.controller.code());
        let s3 = s2.push(self.location);
        let s4 = s3.push(self.sequence as u8);
        lemma_i8_round_trip(self.sequence);
        let s5 = s4.push(self.previous_position.code());
        let s6 = s5.push(self.current_position.code());
        let b = s6;
        assert(b == self.bytes());
        assert(b.subrange(0, s1.len() as int) =~= s1);
        assert(b[0] == s1[0] && b[1] == s1[1] && b[2] == s1[2] && b[3] == s1[3]);
    }
}

/// Zones are disabled.
#[derive(Clone, Copy, Debug, PartialEq, Eq, Structural)]
pub struct FieldDisabled {
    pub disabled: i32,
}

impl FieldDisabled {
    /// The type of this message.
    pub fn message_type() -> (r: MessageType)
        ensures
            r == MessageType::FieldDisabled,
    {
        MessageType::FieldDisabled
    }

    /// The number of bytes of the message body.
    pub open spec fn size() -> nat {
        4
    }

    /// `s` followed by the wire bytes of the message body.
    pub open spec fn bytes_after(self, s: Seq<u8>) -> Seq<u8> {
        push32(s, self.disabled as u32)
    }

    /// The wire bytes of the message body.
    pub open spec fn bytes(self) -> Seq<u8> {
        self.bytes_after(Seq::empty())
    }

    /// How the bytes `d` read as the message body.
    pub open spec fn parse(d: Seq<u8>) -> Result<FieldDisabled, ReadError> {
        if d.len() < 4 {
            Err(ReadError::UnexpectedEnd)
        } else {
            let disabled = u32_at(d, 0) as i32;
            Ok(FieldDisabled { disabled: disabled })
        }
    }

    /// Append the wire bytes of the message body.
    pub fn write(&self, out: &mut Vec<u8>)
        ensures
            final(out)@ == self.bytes_after(old(out)@),
    {
        put_u32(out, self.disabled as u32);
    }

    /// The wire bytes of the message body.
    pub fn to_bytes(&self) -> (r: Vec<u8>)
        ensures
            r@ == self.bytes(),
    {
        let mut out: Vec<u8> = Vec::new();
        self.write(&mut out);
        out
    }

    /// Read the message body from the bytes `d` (bytes after it are left).
    pub fn read(d: &[u8]) -> (r: Result<FieldDisabled, ReadError>)
        ensures
            r == FieldDisabled::parse(d@),
    {
        if d.len() < 4 {
            return Err(ReadError::UnexpectedEnd);
        }
        let disabled = read_u32(d, 0) as i32;
        Ok(FieldDisabled { disabled: disabled })
    }

    /// The body written and read back is the same message.
    pub proof fn lemma_round_trip(self)
        ensures
            FieldDisabled::parse(self.bytes()) == Ok::<FieldDisabled, ReadError>(self),
            self.bytes().len() == FieldDisabled::size(),
    {
        let s0 = Seq::<u8>::empty();
        let s1 = push32(s0, self.disabled as u32);
        lemma_push32(s0, self.disabled as u32);
        lemma_i32_round_trip(self.disabled);
        let b = s1;
        assert(b == self.bytes());
        assert(b.subrange(0, s1.len() as int) =~= s1);
        assert(b[0] == s1[0] && b[1] == s1[1] && b[2] == s1[2] && b[3] == s1[3]);
    }
}

/// A normal summon succeeded.
#[derive(Clone, Copy, Debug, PartialEq, Eq, Structural)]
pub struct Summoned;

impl Summoned {
    /// The type of this message.
    pub fn message_type() -> (r: MessageType)
        ensures
            r == MessageType::Summoned,
    {
        MessageType::Summoned
    }

    /// The number of bytes of the message body.
    pub open spec fn size() -> nat {
        0
    }

    /// `s` followed by the wire bytes of the message body.
    pub open spec fn bytes_after(self, s: Seq<u8>) -> Seq<u8> {
        s
    }

    /// The wire bytes of the message body.
    pub open spec fn bytes(self) -> Seq<u8> {
        self.bytes_after(Seq::empty())
    }

    /// How the bytes `d` read as the message body.
    pub open spec fn parse(d: Seq<u8>) -> Result<Summoned, ReadError> {
        Ok(Summoned)
    }

    /// Append the wire bytes of the message body.
    pub fn write(&self, out: &mut Vec<u8>)
        ensures
            final(out)@ == self.bytes_after(old(out)@),
    {
    }

    /// The wire bytes of the message body.
    pub fn to_bytes(&self) -> (r: Vec<u8>)
        ensures
            r@ == self.bytes(),
    {
        let mut out: Vec<u8> = Vec::new();
        self.write(&mut out);
        out
    }

    /// Read the message body from the bytes `d` (bytes after it are left).
    pub fn read(d: &[u8]) -> (r: Result<Summoned, ReadError>)
        ensures
            r == Summoned::parse(d@),
    {
        Ok(Summoned)
    }

    /// The body written and read back is the same message.
    pub proof fn lemma_round_trip(self)
        ensures
            Summoned::parse(self.bytes()) == Ok::<Summoned, ReadError>(self),
            self.bytes().len() == Summoned::size(),
    {
        let s0 = Seq::<u8>::empty();
        let b = s0;
        assert(b == self.bytes());
    }
}

/// A special summon succeeded.
#[derive(Clone, Copy, Debug, PartialEq, Eq, Structural)]
pub struct SpecialSummoned;

impl SpecialSummoned {
    /// The type of this message.
    pub fn message_type() -> (r: MessageType)
        ensures
            r == MessageType::SpecialSummoned,
    {
        MessageType::SpecialSummoned
    }

    /// The number of bytes of the message body.
    pub open spec fn size() -> nat {
        0
    }

    /// `s` followed by the wire bytes of the message body.
    pub open spec fn bytes_after(self, s: Seq<u8>) -> Seq<u8> {
        s
    }

    /// The wire bytes of the message body.
    pub open spec fn bytes(self) -> Seq<u8> {
        self.bytes_after(Seq::empty())
    }

    /// How the bytes `d` read as the message body.
    pub open spec fn parse(d: Seq<u8>) -> Result<SpecialSummoned, ReadError> {
        Ok(SpecialSummoned)
    }

    /// Append the wire bytes of the message body.
    pub fn write(&self, out: &mut Vec<u8>)
        ensures
            final(out)@ == self.bytes_after(old(out)@),
    {
    }

    /// The wire bytes of the message body.
    pub fn to_bytes(&self) -> (r: Vec<u8>)
        ensures
            r@ == self.bytes(),
    {
        let mut out: Vec<u8> = Vec::new();
        self.write(&mut out);
        out
    }

    /// Read the message body from the bytes `d` (bytes after it are left).
    pub fn read(d: &[u8]) -> (r: Result<SpecialSummoned, ReadError>)
        ensures
            r == SpecialSummoned::parse(d@),
    {
        Ok(SpecialSummoned)
    }

    /// The body written and read back is the same message.
    pub proof fn lemma_round_trip(self)
        ensures
            SpecialSummoned::parse(self.bytes()) == Ok::<SpecialSummoned, ReadError>(self),
            self.bytes().len() == SpecialSummoned::size(),
    {
        let s0 = Seq::<u8>::empty();
        let b = s0;
        assert(b == self.bytes());
    }
}

/// A flip summon succeeded.
#[derive(Clone, Copy, Debug, PartialEq, Eq, Structural)]
pub struct FlipSummoned;

impl FlipSummoned {
    /// The type of this message.
    pub fn message_type() -> (r: MessageType)
        ensures
            r == MessageType::FlipSummoned,
    {
        MessageType::FlipSummoned
    }

    /// The number of bytes of the message body.
    pub open spec fn size() -> nat {
        0
    }

    /// `s` followed by the wire bytes of the message body.
    pub open spec fn bytes_after(self, s: Seq<u8>) -> Seq<u8> {
        s
    }

    /// The wire bytes of the message body.
    pub open spec fn bytes(self) -> Seq<u8> {
        self.bytes_after(Seq::empty())
    }

    /// How the bytes `d` read as the message body.
    pub open spec fn parse(d: Seq<u8>) -> Result<FlipSummoned, ReadError> {
        Ok(FlipSummoned)
    }

    /// Append the wire bytes of the message body.
    pub fn write(&self, out: &mut Vec<u8>)
        ensures
            final(out)@ == self.bytes_after(old(out)@),
    {
    }

    /// The wire bytes of the message body.
    pub fn to_bytes(&self) -> (r: Vec<u8>)
        ensures
            r@ == self.bytes(),
    {
        let mut out: Vec<u8> = Vec::new();
        self.write(&mut out);
        out
    }

    /// Read the message body from the bytes `d` (bytes after it are left).
    pub fn read(d: &[u8]) -> (r: Result<FlipSummoned, ReadError>)
        ensures
            r == FlipSummoned::parse(d@),
    {
        Ok(FlipSummoned)
    }

    /// The body written and read back is the same message.
    pub proof fn lemma_round_trip(self)
        ensures
            FlipSummoned::parse(self.bytes()) == Ok::<FlipSummoned, ReadError>(self),
            self.bytes().len() == FlipSummoned::size(),
    {
        let s0 = Seq::<u8>::empty();
        let b = s0;
        assert(b == self.bytes());
    }
}

/// A card joined the chain.
#[derive(Clone, Copy, Debug, PartialEq, Eq, Structural)]
pub struct Chained {
    pub chain_index: i8,
}

impl Chained {
    /// The type of this message.
    pub fn message_type() -> (r: MessageType)
        ensures
            r == MessageType::Chained,
    {
        MessageType::Chained
    }

    /// The number of bytes of the message body.
    pub open spec fn size() -> nat {
        1
    }

    /// `s` followed by the wire bytes of the message body.
    pub open spec fn bytes_after(self, s: Seq<u8>) -> Seq<u8> {
        s.push(self.chain_index as u8)
    }

    /// The wire bytes of the message body.
    pub open spec fn bytes(self) -> Seq<u8> {
        self.bytes_after(Seq::empty())
    }

    /// How the bytes `d` read as the message body.
    pub open spec fn parse(d: Seq<u8>) -> Result<Chained, ReadError> {
        if d.len() < 1 {
            Err(ReadError::UnexpectedEnd)
        } else {
            let chain_index = d[0] as i8;
            Ok(Chained { chain_index: chain_index })
        }
    }

    /// Append the wire bytes of the message body.
    pub fn write(&self, out: &mut Vec<u8>)
        ensures
            final(out)@ == self.bytes_after(old(out)@),
    {
        out.push(self.chain_index as u8);
    }

    /// The wire bytes of the message body.
    pub fn to_bytes(&self) -> (r: Vec<u8>)
        ensures
            r@ == self.bytes(),
    {
        let mut out: Vec<u8> = Vec::new();
        self.write(&mut out);
        out
    }

    /// Read the message body from the bytes `d` (bytes after it are left).
    pub fn read(d: &[u8]) -> (r: Result<Chained, ReadError>)
        ensures
            r == Chained::parse(d@),
    {
        if d.len() < 1 {
            return Err(ReadError::UnexpectedEnd);
        }
        let chain_index = d[0] as i8;
        Ok(Chained { chain_index: chain_index })
    }

    /// The body written and read back is the same message.
    pub proof fn lemma_round_trip(self)
        ensures
            Chained::parse(self.bytes()) == Ok::<Chained, ReadError>(self),
            self.bytes().len() == Chained::size(),
    {
        let s0 = Seq::<u8>::empty();
        let s1 = s0.push(self.chain_index as u8);
        lemma_i8_round_trip(self.chain_index);
        let b = s1;
        assert(b == self.bytes());
    }
}

/// A chain link starts resolving.
#[derive(Clone, Copy, Debug, PartialEq, Eq, Structural)]
pub struct ChainSolving {
    pub chain_index: i8,
}

impl ChainSolving {
    /// The type of this message.
    pub fn message_type() -> (r: MessageType)
        ensures
            r == MessageType::ChainSolving,
    {
        MessageType::ChainSolving
    }

    /// The number of bytes of the message body.
    pub open spec fn size() -> nat {
        1
    }

    /// `s` followed by the wire bytes of the message body.
    pub open spec fn bytes_after(self, s: Seq<u8>) -> Seq<u8> {
        s.push(self.chain_index as u8)
    }

    /// The wire bytes of the message body.
    pub open spec fn bytes(self) -> Seq<u8> {
        self.bytes_after(Seq::empty())
    }

    /// How the bytes `d` read as the message body.
    pub open spec fn parse(d: Seq<u8>) -> Result<ChainSolving, ReadError> {
        if d.len() < 1 {
            Err(ReadError::UnexpectedEnd)
        } else {
            let chain_index = d[0] as i8;
            Ok(ChainSolving { chain_index: chain_index })
        }
    }

    /// Append the wire bytes of the message body.
    pub fn write(&self, out: &mut Vec<u8>)
        ensures
            final(out)@ == self.bytes_after(old(out)@),
    {
        out.push(self.chain_index as u8);
    }

    /// The wire bytes of the message body.
    pub fn to_bytes(&self) -> (r: Vec<u8>)
        ensures
            r@ == self.bytes(),
    {
        let mut out: Vec<u8> = Vec::new();
        self.write(&mut out);
        out
    }

    /// Read the message body from the bytes `d` (bytes after it are left).
    pub fn read(d: &[u8]) -> (r: Result<ChainSolving, ReadError>)
        ensures
            r == ChainSolving::parse(d@),
    {
        if d.len() < 1 {
            return Err(ReadError::UnexpectedEnd);
        }
        let chain_index = d[0] as i8;
        Ok(ChainSolving { chain_index: chain_index })
    }

    /// The body written and read back is the same message.
    pub proof fn lemma_round_trip(self)
        ensures
            ChainSolving::parse(self.bytes()) == Ok::<ChainSolving, ReadError>(self),
            self.bytes().len() == ChainSolving::size(),
    {
        let s0 = Seq::<u8>::empty();
        let s1 = s0.push(self.chain_index as u8);
        lemma_i8_round_trip(self.chain_index);
        let b = s1;
        assert(b == self.bytes());
    }
}

/// A chain link resolved.
#[derive(Clone, Copy, Debug, PartialEq, Eq, Structural)]
pub struct ChainSolved {
    pub chain_index: i8,
}

impl ChainSolved {
    /// The type of this message.
    pub fn message_type() -> (r: MessageType)
        ensures
            r == MessageType::ChainSolved,
    {
        MessageType::ChainSolved
    }

    /// The number of bytes of the message body.
    pub open spec fn size() -> nat {
        1
    }

    /// `s` followed by the wire bytes of the message body.
    pub open spec fn bytes_after(self, s: Seq<u8>) -> Seq<u8> {
        s.push(self.chain_index as u8)
    }

    /// The wire bytes of the message body.
    pub open spec fn bytes(self) -> Seq<u8> {
        self.bytes_after(Seq::empty())
    }

    /// How the bytes `d` read as the message body.
    pub open spec fn parse(d: Seq<u8>) -> Result<ChainSolved, ReadError> {
        if d.len() < 1 {
            Err(ReadError::UnexpectedEnd)
        } else {
            let chain_index = d[0] as i8;
            Ok(ChainSolved { chain_index: chain_index })
        }
    }

    /// Append the wire bytes of the message body.
    pub fn write(&self, out: &mut Vec<u8>)
        ensures
            final(out)@ == self.bytes_after(old(out)@),
    {
        out.push(self.chain_index as u8);
    }

    /// The wire bytes of the message body.
    pub fn to_bytes(&self) -> (r: Vec<u8>)
        ensures
            r@ == self.bytes(),
    {
        let mut out: Vec<u8> = Vec::new();
        self.write(&mut out);
        out
    }

    /// Read the message body from the bytes `d` (bytes after it are left).
    pub fn read(d: &[u8]) -> (r: Result<ChainSolved, ReadError>)
        ensures
            r == ChainSolved::parse(d@),
    {
        if d.len() < 1 {
            return Err(ReadError::UnexpectedEnd);
        }
        let chain_index = d[0] as i8;
        Ok(ChainSolved { chain_index: chain_index })
    }

    /// The body written and read back is the same message.
    pub proof fn lemma_round_trip(self)
        ensures
            ChainSolved::parse(self.bytes()) == Ok::<ChainSolved, ReadError>(self),
            self.bytes().len() == ChainSolved::size(),
    {
        let s0 = Seq::<u8>::empty();
        let s1 = s0.push(self.chain_index as u8);
        lemma_i8_round_trip(self.chain_index);
        let b = s1;
        assert(b == self.bytes());
    }
}

/// The chain ended.
#[derive(Clone, Copy, Debug, PartialEq, Eq, Structural)]
pub struct ChainEnd;

impl ChainEnd {
    /// The type of this message.
    pub fn message_type() -> (r: MessageType)
        ensures
            r == MessageType::ChainEnd,
    {
        MessageType::ChainEnd
    }

    /// The number of bytes of the message body.
    pub open spec fn size() -> nat {
        0
    }

    /// `s` followed by the wire bytes of the message body.
    pub open spec fn bytes_after(self, s: Seq<u8>) -> Seq<u8> {
        s
    }

    /// The wire bytes of the message body.
    pub open spec fn bytes(self) -> Seq<u8> {
        self.bytes_after(Seq::empty())
    }

    /// How the bytes `d` read as the message body.
    pub open spec fn parse(d: Seq<u8>) -> Result<ChainEnd, ReadError> {
        Ok(ChainEnd)
    }

    /// Append the wire bytes of the message body.
    pub fn write(&self, out: &mut Vec<u8>)
        ensures
            final(out)@ == self.bytes_after(old(out)@),
    {
    }

    /// The wire bytes of the message body.
    pub fn to_bytes(&self) -> (r: Vec<u8>)
        ensures
            r@ == self.bytes(),
    {
        let mut out: Vec<u8> = Vec::new();
        self.write(&mut out);
        out
    }

    /// Read the message body from the bytes `d` (bytes after it are left).
    pub fn read(d: &[u8]) -> (r: Result<ChainEnd, ReadError>)
        ensures
            r == ChainEnd::parse(d@),
    {
        Ok(ChainEnd)
    }

    /// The body written and read back is the same message.
    pub proof fn lemma_round_trip(self)
        ensures
            ChainEnd::parse(self.bytes()) == Ok::<ChainEnd, ReadError>(self),
            self.bytes().len() == ChainEnd::size(),
    {
        let s0 = Seq::<u8>::empty();
        let b = s0;
        assert(b == self.bytes());
    }
}

/// A chain link was negated.
#[derive(Clone, Copy, Debug, PartialEq, Eq, Structural)]
pub struct ChainNegated {
    pub chain_index: i8,
}

impl ChainNegated {
    /// The type of this message.
    pub fn message_type() -> (r: MessageType)
        ensures
            r == MessageType::ChainNegated,
    {
        MessageType::ChainNegated
    }

    /// The number of bytes of the message body.
    pub open spec fn size() -> nat {
        1
    }

    /// `s` followed by the wire bytes of the message body.
    pub open spec fn bytes_after(self, s: Seq<u8>) -> Seq<u8> {
        s.push(self.chain_index as u8)
    }

    /// The wire bytes of the message body.
    pub open spec fn bytes(self) -> Seq<u8> {
        self.bytes_after(Seq::empty())
    }

    /// How the bytes `d` read as the message body.
    pub open spec fn parse(d: Seq<u8>) -> Result<ChainNegated, ReadError> {
        if d.len() < 1 {
            Err(ReadError::UnexpectedEnd)
        } else {
            let chain_index = d[0] as i8;
            Ok(ChainNegated { chain_index: chain_index })
        }
    }

    /// Append the wire bytes of the message body.
    pub fn write(&self, out: &mut Vec<u8>)
        ensures
            final(out)@ == self.bytes_after(old(out)@),
    {
        out.push(self.chain_index as u8);
    }

    /// The wire bytes of the message body.
    pub fn to_bytes(&self) -> (r: Vec<u8>)
        ensures
            r@ == self.bytes(),
    {
        let mut out: Vec<u8> = Vec::new();
        self.write(&mut out);
        out
    }

    /// Read the message body from the bytes `d` (bytes after it are left).
    pub fn read(d: &[u8]) -> (r: Result<ChainNegated, ReadError>)
        ensures
            r == ChainNegated::parse(d@),
    {
        if d.len() < 1 {
            return Err(ReadError::UnexpectedEnd);
        }
        let chain_index = d[0] as i8;
        Ok(ChainNegated { chain_index: chain_index })
    }

    /// The body written and read back is the same message.
    pub proof fn lemma_round_trip(self)
        ensures
            ChainNegated::parse(self.bytes()) == Ok::<ChainNegated, ReadError>(self),
            self.bytes().len() == ChainNegated::size(),
    {
        let s0 = Seq::<u8>::empty();
        let s1 = s0.push(self.chain_index as u8);
        lemma_i8_round_trip(self.chain_index);
        let b = s1;
        assert(b == self.bytes());
    }
}

/// A chain link was disabled.
#[derive(Clone, Copy, Debug, PartialEq, Eq, Structural)]
pub struct ChainDisabled {
    pub chain_index: i8,
}

impl ChainDisabled {
    /// The type of this message.
    pub fn message_type() -> (r: MessageType)
        ensures
            r == MessageType::ChainDisabled,
    {
        MessageType::ChainDisabled
    }

    /// The number of bytes of the message body.
    pub open spec fn size() -> nat {
        1
    }

    /// `s` followed by the wire bytes of the message body.
    pub open spec fn bytes_after(self, s: Seq<u8>) -> Seq<u8> {
        s.push(self.chain_index as u8)
    }

    /// The wire bytes of the message body.
    pub open spec fn bytes(self) -> Seq<u8> {
        self.bytes_after(Seq::empty())
    }

    /// How the bytes `d` read as the message body.
    pub open spec fn parse(d: Seq<u8>) -> Result<ChainDisabled, ReadError> {
        if d.len() < 1 {
            Err(ReadError::UnexpectedEnd)
        } else {
            let chain_index = d[0] as i8;
            Ok(ChainDisabled { chain_index: chain_index })
        }
    }

    /// Append the wire bytes of the message body.
    pub fn write(&self, out: &mut Vec<u8>)
        ensures
            final(out)@ == self.bytes_after(old(out)@),
    {
        out.push(self.chain_index as u8);
    }

    /// The wire bytes of the message body.
    pub fn to_bytes(&self) -> (r: Vec<u8>)
        ensures
            r@ == self.bytes(),
    {
        let mut out: Vec<u8> = Vec::new();
        self.write(&mut out);
        out
    }

    /// Read the message body from the bytes `d` (bytes after it are left).
    pub fn read(d: &[u8]) -> (r: Result<ChainDisabled, ReadError>)
        ensures
            r == ChainDisabled::parse(d@),
    {
        if d.len() < 1 {
            return Err(ReadError::UnexpectedEnd);
        }
        let chain_index = d[0] as i8;
        Ok(ChainDisabled { chain_index: chain_index })
    }

    /// The body written and read back is the same message.
    pub proof fn lemma_round_trip(self)
        ensures
            ChainDisabled::parse(self.bytes()) == Ok::<ChainDisabled, ReadError>(self),
            self.bytes().len() == ChainDisabled::size(),
    {
        let s0 = Seq::<u8>::empty();
        let s1 = s0.push(self.chain_index as u8);
        lemma_i8_round_trip(self.chain_index);
        let b = s1;
        assert(b == self.bytes());
    }
}

/// Cards were selected.
#[derive(Clone, Copy, Debug, PartialEq, Eq, Structural)]
pub struct CardSelected;

impl CardSelected {
    /// The type of this message.
    pub fn message_type() -> (r: MessageType)
        ensures
            r == MessageType::CardSelected,
    {
        MessageType::CardSelected
    }

    /// The number of bytes of the message body.
    pub open spec fn size() -> nat {
        0
    }

    /// `s` followed by the wire bytes of the message body.
    pub open spec fn bytes_after(self, s: Seq<u8>) -> Seq<u8> {
        s
    }

    /// The wire bytes of the message body.
    pub open spec fn bytes(self) -> Seq<u8> {
        self.bytes_after(Seq::empty())
    }

    /// How the bytes `d` read as the message body.
    pub open spec fn parse(d: Seq<u8>) -> Result<CardSelected, ReadError> {
        Ok(CardSelected)
    }

    /// Append the wire bytes of the message body.
    pub fn write(&self, out: &mut Vec<u8>)
        ensures
            final(out)@ == self.bytes_after(old(out)@),
    {
    }

    /// The wire bytes of the message body.
    pub fn to_bytes(&self) -> (r: Vec<u8>)
        ensures
            r@ == self.bytes(),
    {
        let mut out: Vec<u8> = Vec::new();
        self.write(&mut out);
        out
    }

    /// Read the message body from the bytes `d` (bytes after it are left).
    pub fn read(d: &[u8]) -> (r: Result<CardSelected, ReadError>)
        ensures
            r == CardSelected::parse(d@),
    {
        Ok(CardSelected)
    }

    /// The body written and read back is the same message.
    pub proof fn lemma_round_trip(self)
        ensures
            CardSelected::parse(self.bytes()) == Ok::<CardSelected, ReadError>(self),
            self.bytes().len() == CardSelected::size(),
    {
        let s0 = Seq::<u8>::empty();
        let b = s0;
        assert(b == self.bytes());
    }
}

/// A player takes damage.
#[derive(Clone, Copy, Debug, PartialEq, Eq, Structural)]
pub struct Damage {
    pub player: CorePlayer,
    pub value: i32,
}

impl Damage {
    /// The type of this message.
    pub fn message_type() -> (r: MessageType)
        ensures
            r == MessageType::Damage,
    {
        MessageType::Damage
    }

    /// The number of bytes of the message body.
    pub open spec fn size() -> nat {
        5
    }

    /// `s` followed by the wire bytes of the message body.
    pub open spec fn bytes_after(self, s: Seq<u8>) -> Seq<u8> {
        push32(s.push(self.player.code()), self.value as u32)
    }

    /// The wire bytes of the message body.
    pub open spec fn bytes(self) -> Seq<u8> {
        self.bytes_after(Seq::empty())
    }

    /// How the bytes `d` read as the message body.
    pub open spec fn parse(d: Seq<u8>) -> Result<Damage, ReadError> {
        if d.len() < 1 {
            Err(ReadError::UnexpectedEnd)
        } else {
            match CorePlayer::of_code(d[0]) {
                None => Err(ReadError::NoVariantMatch),
                Some(player) => {
                    if d.len() < 5 {
                        Err(ReadError::UnexpectedEnd)
                    } else {
                        let value = u32_at(d, 1) as i32;
                        Ok(Damage { player: player, value: value })
                    }
                    },
                }
        }
    }

    /// Append the wire bytes of the message body.
    pub fn write(&self, out: &mut Vec<u8>)
        ensures
            final(out)@ == self.bytes_after(old(out)@),
    {
        out.push(self.player.value());
        put_u32(out, self.value as u32);
    }

    /// The wire bytes of the message body.
    pub fn to_bytes(&self) -> (r: Vec<u8>)
        ensures
            r@ == self.bytes(),
    {
        let mut out: Vec<u8> = Vec::new();
        self.write(&mut out);
        out
    }

    /// Read the message body from the bytes `d` (bytes after it are left).
    pub fn read(d: &[u8]) -> (r: Result<Damage, ReadError>)
        ensures
            r == Damage::parse(d@),
    {
        if d.len() < 1 {
            return Err(ReadError::UnexpectedEnd);
        }
        let player = match CorePlayer::from_value(d[0]) {
            Some(x) => x,
            None => return Err(ReadError::NoVariantMatch),
        };
        if d.len() < 5 {
            return Err(ReadError::UnexpectedEnd);
        }
        let value = read_u32(d, 1) as i32;
        Ok(Damage { player: player, value: value })
    }

    /// The body written and read back is the same message.
    pub proof fn lemma_round_trip(self)
        ensures
            Damage::parse(self.bytes()) == Ok::<Damage, ReadError>(self),
            self.bytes().len() == Damage::size(),
    {
        let s0 = Seq::<u8>::empty();
        let s1 = s0.push(self.player.code());
        let s2 = push32(s1, self.value as u32);
        lemma_push32(s1, self.value as u32);
        lemma_i32_round_trip(self.value);
        let b = s2;
        assert(b == self.bytes());
        assert(b.subrange(0, s2.len() as int) =~= s2);
        assert(b[1] == s2[1] && b[2] == s2[2] && b[3] == s2[3] && b[4] == s2[4]);
    }
}

/// A player gains life points.
#[derive(Clone, Copy, Debug, PartialEq, Eq, Structural)]
pub struct Recover {
    pub player: CorePlayer,
    pub value: i32,
}

impl Recover {
    /// The type of this message.
    pub fn message_type() -> (r: MessageType)
        ensures
            r == MessageType::Recover,
    {
        MessageType::Recover
    }

    /// The number of bytes of the message body.
    pub open spec fn size() -> nat {
        5
    }

    /// `s` followed by the wire bytes of the message body.
    pub open spec fn bytes_after(self, s: Seq<u8>) -> Seq<u8> {
        push32(s.push(self.player.code()), self.value as u32)
    }

    /// The wire bytes of the message body.
    pub open spec fn bytes(self) -> Seq<u8> {
        self.bytes_after(Seq::empty())
    }

    /// How the bytes `d` read as the message body.
    pub open spec fn parse(d: Seq<u8>) -> Result<Recover, ReadError> {
        if d.len() < 1 {
            Err(ReadError::UnexpectedEnd)
        } else {
            match CorePlayer::of_code(d[0]) {
                None => Err(ReadError::NoVariantMatch),
                Some(player) => {
                    if d.len() < 5 {
                        Err(ReadError::UnexpectedEnd)
                    } else {
                        let value = u32_at(d, 1) as i32;
                        Ok(Recover { player: player, value: value })
                    }
                    },
                }
        }
    }

    /// Append the wire bytes of the message body.
    pub fn write(&self, out: &mut Vec<u8>)
        ensures
            final(out)@ == self.bytes_after(old(out)@),
    {
        out.push(self.player.value());
        put_u32(out, self.value as u32);
    }

    /// The wire bytes of the message body.
    pub fn to_bytes(&self) -> (r: Vec<u8>)
        ensures
            r@ == self.bytes(),
    {
        let mut out: Vec<u8> = Vec::new();
        self.write(&mut out);
        out
    }

    /// Read the message body from the bytes `d` (bytes after it are left).
    pub fn read(d: &[u8]) -> (r: Result<Recover, ReadError>)
        ensures
            r == Recover::parse(d@),
    {
        if d.len() < 1 {
            return Err(ReadError::UnexpectedEnd);
        }
        let player = match CorePlayer::from_value(d[0]) {
            Some(x) => x,
            None => return Err(ReadError::NoVariantMatch),
        };
        if d.len() < 5 {
            return Err(ReadError::UnexpectedEnd);
        }
        let value = read_u32(d, 1) as i32;
        Ok(Recover { player: player, value: value })
    }

    /// The body written and read back is the same message.
    pub proof fn lemma_round_trip(self)
        ensures
            Recover::parse(self.bytes()) == Ok::<Recover, ReadError>(self),
            self.bytes().len() == Recover::size(),
    {
        let s0 = Seq::<u8>::empty();
        let s1 = s0.push(self.player.code());
        let s2 = push32(s1, self.value as u32);
        lemma_push32(s1, self.value as u32);
        lemma_i32_round_trip(self.value);
        let b = s2;
        assert(b == self.bytes());
        assert(b.subrange(0, s2.len() as int) =~= s2);
        assert(b[1] == s2[1] && b[2] == s2[2] && b[3] == s2[3] && b[4] == s2[4]);
    }
}

/// A player's life points are set.
#[derive(Clone, Copy, Debug, PartialEq, Eq, Structural)]
pub struct LPUpdate {
    pub player: CorePlayer,
    pub lp: i32,
}

impl LPUpdate {
    /// The type of this message.
    pub fn message_type() -> (r: MessageType)
        ensures
            r == MessageType::LPUpdate,
    {
        MessageType::LPUpdate
    }

    /// The number of bytes of the message body.
    pub open spec fn size() -> nat {
        5
    }

    /// `s` followed by the wire bytes of the message body.
    pub open spec fn bytes_after(self, s: Seq<u8>) -> Seq<u8> {
        push32(s.push(self.player.code()), self.lp as u32)
    }

    /// The wire bytes of the message body.
    pub open spec fn bytes(self) -> Seq<u8> {
        self.bytes_after(Seq::empty())
    }

    /// How the bytes `d` read as the message body.
    pub open spec fn parse(d: Seq<u8>) -> Result<LPUpdate, ReadError> {
        if d.len() < 1 {
            Err(ReadError::UnexpectedEnd)
        } else {
            match CorePlayer::of_code(d[0]) {
                None => Err(ReadError::NoVariantMatch),
                Some(player) => {
                    if d.len() < 5 {
                        Err(ReadError::UnexpectedEnd)
                    } else {
                        let lp = u32_at(d, 1) as i32;
                        Ok(LPUpdate { player: player, lp: lp })
                    }
                    },
                }
        }
    }

    /// Append the wire bytes of the message body.
    pub fn write(&self, out: &mut Vec<u8>)
        ensures
            final(out)@ == self.bytes_after(old(out)@),
    {
        out.push(self.player.value());
        put_u32(out, self.lp as u32);
    }

    /// The wire bytes of the message body.
    pub fn to_bytes(&self) -> (r: Vec<u8>)
        ensures
            r@ == self.bytes(),
    {
        let mut out: Vec<u8> = Vec::new();
        self.write(&mut out);
        out
    }

    /// Read the message body from the bytes `d` (bytes after it are left).
    pub fn read(d: &[u8]) -> (r: Result<LPUpdate, ReadError>)
        ensures
            r == LPUpdate::parse(d@),
    {
        if d.len() < 1 {
            return Err(ReadError::UnexpectedEnd);
        }
        let player = match CorePlayer::from_value(d[0]) {
            Some(x) => x,
            None => return Err(ReadError::NoVariantMatch),
        };
        if d.len() < 5 {
            return Err(ReadError::UnexpectedEnd);
        }
        let lp = read_u32(d, 1) as i32;
        Ok(LPUpdate { player: player, lp: lp })
    }

    /// The body written and read back is the same message.
    pub proof fn lemma_round_trip(self)
        ensures
            LPUpdate::parse(self.bytes()) == Ok::<LPUpdate, ReadError>(self),
            self.bytes().len() == LPUpdate::size(),
    {
        let s0 = Seq::<u8>::empty();
        let s1 = s0.push(self.player.code());
        let s2 = push32(s1, self.lp as u32);
        lemma_push32(s1, self.lp as u32);
        lemma_i32_round_trip(self.lp);
        let b = s2;
        assert(b == self.bytes());
        assert(b.subrange(0, s2.len() as int) =~= s2);
        assert(b[1] == s2[1] && b[2] == s2[2] && b[3] == s2[3] && b[4] == s2[4]);
    }
}

/// A player pays life points.
#[derive(Clone, Copy, Debug, PartialEq, Eq, Structural)]
pub struct PayLPCost {
    pub player: CorePlayer,
    pub cost: i32,
}

impl PayLPCost {
    /// The type of this message.
    pub fn message_type() -> (r: MessageType)
        ensures
            r == MessageType::PayLPCost,
    {
        MessageType::PayLPCost
    }

    /// The number of bytes of the message body.
    pub open spec fn size() -> nat {
        5
    }

    /// `s` followed by the wire bytes of the message body.
    pub open spec fn bytes_after(self, s: Seq<u8>) -> Seq<u8> {
        push32(s.push(self.player.code()), self.cost as u32)
    }

    /// The wire bytes of the message body.
    pub open spec fn bytes(self) -> Seq<u8> {
        self.bytes_after(Seq::empty())
    }

    /// How the bytes `d` read as the message body.
    pub open spec fn parse(d: Seq<u8>) -> Result<PayLPCost, ReadError> {
        if d.len() < 1 {
            Err(ReadError::UnexpectedEnd)
        } else {
            match CorePlayer::of_code(d[0]) {
                None => Err(ReadError::NoVariantMatch),
                Some(player) => {
                    if d.len() < 5 {
                        Err(ReadError::UnexpectedEnd)
                    } else {
                        let cost = u32_at(d, 1) as i32;
                        Ok(PayLPCost { player: player, cost: cost })
                    }
                    },
                }
        }
    }

    /// Append the wire bytes of the message body.
    pub fn write(&self, out: &mut Vec<u8>)
        ensures
            final(out)@ == self.bytes_after(old(out)@),
    {
        out.push(self.player.value());
        put_u32(out, self.cost as u32);
    }

    /// The wire bytes of the message body.
    pub fn to_bytes(&self) -> (r: Vec<u8>)
        ensures
            r@ == self.bytes(),
    {
        let mut out: Vec<u8> = Vec::new();
        self.write(&mut out);
        out
    }

    /// Read the message body from the bytes `d` (bytes after it are left).
    pub fn read(d: &[u8]) -> (r: Result<PayLPCost, ReadError>)
        ensures
            r == PayLPCost::parse(d@),
    {
        if d.len() < 1 {
            return Err(ReadError::UnexpectedEnd);
        }
        let player = match CorePlayer::from_value(d[0]) {
            Some(x) => x,
            None => return Err(ReadError::NoVariantMatch),
        };
        if d.len() < 5 {
            return Err(ReadError::UnexpectedEnd);
        }
        let cost = read_u32(d, 1) as i32;
        Ok(PayLPCost { player: player, cost: cost })
    }

    /// The body written and read back is the same message.
    pub proof fn lemma_round_trip(self)
        ensures
            PayLPCost::parse(self.bytes()) == Ok::<PayLPCost, ReadError>(self),
            self.bytes().len() == PayLPCost::size(),
    {
        let s0 = Seq::<u8>::empty();
        let s1 = s0.push(self.player.code());
        let s2 = push32(s1, self.cost as u32);
        lemma_push32(s1, self.cost as u32);
        lemma_i32_round_trip(self.cost);
        let b = s2;
        assert(b == self.bytes());
        assert(b.subrange(0, s2.len() as int) =~= s2);
        assert(b[1] == s2[1] && b[2] == s2[2] && b[3] == s2[3] && b[4] == s2[4]);
    }
}

/// An attack was disabled.
#[derive(Clone, Copy, Debug, PartialEq, Eq, Structural)]
pub struct AttackDisabled;

impl AttackDisabled {
    /// The type of this message.
    pub fn message_type() -> (r: MessageType)
        ensures
            r == MessageType::AttackDisabled,
    {
        MessageType::AttackDisabled
    }

    /// The number of bytes of the message body.
    pub open spec fn size() -> nat {
        0
    }

    /// `s` followed by the wire bytes of the message body.
    pub open spec fn bytes_after(self, s: Seq<u8>) -> Seq<u8> {
        s
    }

    /// The wire bytes of the message body.
    pub open spec fn bytes(self) -> Seq<u8> {
        self.bytes_after(Seq::empty())
    }

    /// How the bytes `d` read as the message body.
    pub open spec fn parse(d: Seq<u8>) -> Result<AttackDisabled, ReadError> {
        Ok(AttackDisabled)
    }

    /// Append the wire bytes of the message body.
    pub fn write(&self, out: &mut Vec<u8>)
        ensures
            final(out)@ == self.bytes_after(old(out)@),
    {
    }

    /// The wire bytes of the message body.
    pub fn to_bytes(&self) -> (r: Vec<u8>)
        ensures
            r@ == self.bytes(),
    {
        let mut out: Vec<u8> = Vec::new();
        self.write(&mut out);
        out
    }

    /// Read the message body from the bytes `d` (bytes after it are left).
    pub fn read(d: &[u8]) -> (r: Result<AttackDisabled, ReadError>)
        ensures
            r == AttackDisabled::parse(d@),
    {
        Ok(AttackDisabled)
    }

    /// The body written and read back is the same message.
    pub proof fn lemma_round_trip(self)
        ensures
            AttackDisabled::parse(self.bytes()) == Ok::<AttackDisabled, ReadError>(self),
            self.bytes().len() == AttackDisabled::size(),
    {
        let s0 = Seq::<u8>::empty();
        let b = s0;
        assert(b == self.bytes());
    }
}

/// The damage step starts.
#[derive(Clone, Copy, Debug, PartialEq, Eq, Structural)]
pub struct DamageStepStart;

impl DamageStepStart {
    /// The type of this message.
    pub fn message_type() -> (r: MessageType)
        ensures
            r == MessageType::DamageStepStart,
    {
        MessageType::DamageStepStart
    }

    /// The number of bytes of the message body.
    pub open spec fn size() -> nat {
        0
    }

    /// `s` followed by the wire bytes of the message body.
    pub open spec fn bytes_after(self, s: Seq<u8>) -> Seq<u8> {
        s
    }

    /// The wire bytes of the message body.
    pub open spec fn bytes(self) -> Seq<u8> {
        self.bytes_after(Seq::empty())
    }

    /// How the bytes `d` read as the message body.
    pub open spec fn parse(d: Seq<u8>) -> Result<DamageStepStart, ReadError> {
        Ok(DamageStepStart)
    }

    /// Append the wire bytes of the message body.
    pub fn write(&self, out: &mut Vec<u8>)
        ensures
            final(out)@ == self.bytes_after(old(out)@),
    {
    }

    /// The wire bytes of the message body.
    pub fn to_bytes(&self) -> (r: Vec<u8>)
        ensures
            r@ == self.bytes(),
    {
        let mut out: Vec<u8> = Vec::new();
        self.write(&mut out);
        out
    }

    /// Read the message body from the bytes `d` (bytes after it are left).
    pub fn read(d: &[u8]) -> (r: Result<DamageStepStart, ReadError>)
        ensures
            r == DamageStepStart::parse(d@),
    {
        Ok(DamageStepStart)
    }

    /// The body written and read back is the same message.
    pub proof fn lemma_round_trip(self)
        ensures
            DamageStepStart::parse(self.bytes()) == Ok::<DamageStepStart, ReadError>(self),
            self.bytes().len() == DamageStepStart::size(),
    {
        let s0 = Seq::<u8>::empty();
        let b = s0;
        assert(b == self.bytes());
    }
}

/// The damage step ends.
#[derive(Clone, Copy, Debug, PartialEq, Eq, Structural)]
pub struct DamageStepEnd;

impl DamageStepEnd {
    /// The type of this message.
    pub fn message_type() -> (r: MessageType)
        ensures
            r == MessageType::DamageStepEnd,
    {
        MessageType::DamageStepEnd
    }

    /// The number of bytes of the message body.
    pub open spec fn size() -> nat {
        0
    }

    /// `s` followed by the wire bytes of the message body.
    pub open spec fn bytes_after(self, s: Seq<u8>) -> Seq<u8> {
        s
    }

    /// The wire bytes of the message body.
    pub open spec fn bytes(self) -> Seq<u8> {
        self.bytes_after(Seq::empty())
    }

    /// How the bytes `d` read as the message body.
    pub open spec fn parse(d: Seq<u8>) -> Result<DamageStepEnd, ReadError> {
        Ok(DamageStepEnd)
    }

    /// Append the wire bytes of the message body.
    pub fn write(&self, out: &mut Vec<u8>)
        ensures
            final(out)@ == self.bytes_after(old(out)@),
    {
    }

    /// The wire bytes of the message body.
    pub fn to_bytes(&self) -> (r: Vec<u8>)
        ensures
            r@ == self.bytes(),
    {
        let mut out: Vec<u8> = Vec::new();
        self.write(&mut out);
        out
    }

    /// Read the message body from the bytes `d` (bytes after it are left).
    pub fn read(d: &[u8]) -> (r: Result<DamageStepEnd, ReadError>)
        ensures
            r == DamageStepEnd::parse(d@),
    {
        Ok(DamageStepEnd)
    }

    /// The body written and read back is the same message.
    pub proof fn lemma_round_trip(self)
        ensures
            DamageStepEnd::parse(self.bytes()) == Ok::<DamageStepEnd, ReadError>(self),
            self.bytes().len() == DamageStepEnd::size(),
    {
        let s0 = Seq::<u8>::empty();
        let b = s0;
        assert(b == self.bytes());
    }
}

/// An effect missed its timing.
#[derive(Clone, Copy, Debug, PartialEq, Eq, Structural)]
pub struct MissedEffect {
    pub unknown: i32,
    pub code: i32,
}

impl MissedEffect {
    /// The type of this message.
    pub fn message_type() -> (r: MessageType)
        ensures
            r == MessageType::MissedEffect,
    {
        MessageType::MissedEffect
    }

    /// The number of bytes of the message body.
    pub open spec fn size() -> nat {
        8
    }

    /// `s` followed by the wire bytes of the message body.
    pub open spec fn bytes_after(self, s: Seq<u8>) -> Seq<u8> {
        push32(push32(s, self.unknown as u32), self.code as u32)
    }

    /// The wire bytes of the message body.
    pub open spec fn bytes(self) -> Seq<u8> {
        self.bytes_after(Seq::empty())
    }

    /// How the bytes `d` read as the message body.
    pub open spec fn parse(d: Seq<u8>) -> Result<MissedEffect, ReadError> {
        if d.len() < 4 {
            Err(ReadError::UnexpectedEnd)
        } else {
            let unknown = u32_at(d, 0) as i32;
            if d.len() < 8 {
                Err(ReadError::UnexpectedEnd)
            } else {
                let code = u32_at(d, 4) as i32;
                Ok(MissedEffect { unknown: unknown, code: code })
            }
        }
    }

    /// Append the wire bytes of the message body.
    pub fn write(&self, out: &mut Vec<u8>)
        ensures
            final(out)@ == self.bytes_after(old(out)@),
    {
        put_u32(out, self.unknown as u32);
        put_u32(out, self.code as u32);
    }

    /// The wire bytes of the message body.
    pub fn to_bytes(&self) -> (r: Vec<u8>)
        ensures
            r@ == self.bytes(),
    {
        let mut out: Vec<u8> = Vec::new();
        self.write(&mut out);
        out
    }

    /// Read the message body from the bytes `d` (bytes after it are left).
    pub fn read(d: &[u8]) -> (r: Result<MissedEffect, ReadError>)
        ensures
            r == MissedEffect::parse(d@),
    {
        if d.len() < 4 {
            return Err(ReadError::UnexpectedEnd);
        }
        let unknown = read_u32(d, 0) as i32;
        if d.len() < 8 {
            return Err(ReadError::UnexpectedEnd);
        }
        let code = read_u32(d, 4) as i32;
        Ok(MissedEffect { unknown: unknown, code: code })
    }

    /// The body written and read back is the same message.
    pub proof fn lemma_round_trip(self)
        ensures
            MissedEffect::parse(self.bytes()) == Ok::<MissedEffect, ReadError>(self),
            self.bytes().len() == MissedEffect::size(),
    {
        let s0 = Seq::<u8>::empty();
        let s1 = push32(s0, self.unknown as u32);
        lemma_push32(s0, self.unknown as u32);
        lemma_i32_round_trip(self.unknown);
        let s2 = push32(s1, self.code as u32);
        lemma_push32(s1, self.code as u32);
        lemma_i32_round_trip(self.code);
        let b = s2;
        assert(b == self.bytes());
        assert(b.subrange(0, s1.len() as int) =~= s1);
        assert(b[0] == s1[0] && b[1] == s1[1] && b[2] == s1[2] && b[3] == s1[3]);
        assert(b.subrange(0, s2.len() as int) =~= s2);
        assert(b[4] == s2[4] && b[5] == s2[5] && b[6] == s2[6] && b[7] == s2[7]);
    }
}

/// Cards became chain targets.
#[derive(Clone, Copy, Debug, PartialEq, Eq, Structural)]
pub struct BeChainTarget;

impl BeChainTarget {
    /// The type of this message.
    pub fn message_type() -> (r: MessageType)
        ensures
            r == MessageType::BeChainTarget,
    {
        MessageType::BeChainTarget
    }

    /// The number of bytes of the message body.
    pub open spec fn size() -> nat {
        0
    }

    /// `s` followed by the wire bytes of the message body.
    pub open spec fn bytes_after(self, s: Seq<u8>) -> Seq<u8> {
        s
    }

    /// The wire bytes of the message body.
    pub open spec fn bytes(self) -> Seq<u8> {
        self.bytes_after(Seq::empty())
    }

    /// How the bytes `d` read as the message body.
    pub open spec fn parse(d: Seq<u8>) -> Result<BeChainTarget, ReadError> {
        Ok(BeChainTarget)
    }

    /// Append the wire bytes of the message body.
    pub fn write(&self, out: &mut Vec<u8>)
        ensures
            final(out)@ == self.bytes_after(old(out)@),
    {
    }

    /// The wire bytes of the message body.
    pub fn to_bytes(&self) -> (r: Vec<u8>)
        ensures
            r@ == self.bytes(),
    {
        let mut out: Vec<u8> = Vec::new();
        self.write(&mut out);
        out
    }

    /// Read the message body from the bytes `d` (bytes after it are left).
    pub fn read(d: &[u8]) -> (r: Result<BeChainTarget, ReadError>)
        ensures
            r == BeChainTarget::parse(d@),
    {
        Ok(BeChainTarget)
    }

    /// The body written and read back is the same message.
    pub proof fn lemma_round_trip(self)
        ensures
            BeChainTarget::parse(self.bytes()) == Ok::<BeChainTarget, ReadError>(self),
            self.bytes().len() == BeChainTarget::size(),
    {
        let s0 = Seq::<u8>::empty();
        let b = s0;
        assert(b == self.bytes());
    }
}

/// A relation was created.
#[derive(Clone, Copy, Debug, PartialEq, Eq, Structural)]
pub struct CreateRelation;

impl CreateRelation {
    /// The type of this message.
    pub fn message_type() -> (r: MessageType)
        ensures
            r == MessageType::CreateRelation,
    {
        MessageType::CreateRelation
    }

    /// The number of bytes of the message body.
    pub open spec fn size() -> nat {
        0
    }

    /// `s` followed by the wire bytes of the message body.
    pub open spec fn bytes_after(self, s: Seq<u8>) -> Seq<u8> {
        s
    }

    /// The wire bytes of the message body.
    pub open spec fn bytes(self) -> Seq<u8> {
        self.bytes_after(Seq::empty())
    }

    /// How the bytes `d` read as the message body.
    pub open spec fn parse(d: Seq<u8>) -> Result<CreateRelation, ReadError> {
        Ok(CreateRelation)
    }

    /// Append the wire bytes of the message body.
    pub fn write(&self, out: &mut Vec<u8>)
        ensures
            final(out)@ == self.bytes_after(old(out)@),
    {
    }

    /// The wire bytes of the message body.
    pub fn to_bytes(&self) -> (r: Vec<u8>)
        ensures
            r@ == self.bytes(),
    {
        let mut out: Vec<u8> = Vec::new();
        self.write(&mut out);
        out
    }

    /// Read the message body from the bytes `d` (bytes after it are left).
    pub fn read(d: &[u8]) -> (r: Result<CreateRelation, ReadError>)
        ensures
            r == CreateRelation::parse(d@),
    {
        Ok(CreateRelation)
    }

    /// The body written and read back is the same message.
    pub proof fn lemma_round_trip(self)
        ensures
            CreateRelation::parse(self.bytes()) == Ok::<CreateRelation, ReadError>(self),
            self.bytes().len() == CreateRelation::size(),
    {
        let s0 = Seq::<u8>::empty();
        let b = s0;
        assert(b == self.bytes());
    }
}

/// A relation was released.
#[derive(Clone, Copy, Debug, PartialEq, Eq, Structural)]
pub struct ReleaseRelation;

impl ReleaseRelation {
    /// The type of this message.
    pub fn message_type() -> (r: MessageType)
        ensures
            r == MessageType::ReleaseRelation,
    {
        MessageType::ReleaseRelation
    }

    /// The number of bytes of the message body.
    pub open spec fn size() -> nat {
        0
    }

    /// `s` followed by the wire bytes of the message body.
    pub open spec fn bytes_after(self, s: Seq<u8>) -> Seq<u8> {
        s
    }

    /// The wire bytes of the message body.
    pub open spec fn bytes(self) -> Seq<u8> {
        self.bytes_after(Seq::empty())
    }

    /// How the bytes `d` read as the message body.
    pub open spec fn parse(d: Seq<u8>) -> Result<ReleaseRelation, ReadError> {
        Ok(ReleaseRelation)
    }

    /// Append the wire bytes of the message body.
    pub fn write(&self, out: &mut Vec<u8>)
        ensures
            final(out)@ == self.bytes_after(old(out)@),
    {
    }

    /// The wire bytes of the message body.
    pub fn to_bytes(&self) -> (r: Vec<u8>)
        ensures
            r@ == self.bytes(),
    {
        let mut out: Vec<u8> = Vec::new();
        self.write(&mut out);
        out
    }

    /// Read the message body from the bytes `d` (bytes after it are left).
    pub fn read(d: &[u8]) -> (r: Result<ReleaseRelation, ReadError>)
        ensures
            r == ReleaseRelation::parse(d@),
    {
        Ok(ReleaseRelation)
    }

    /// The body written and read back is the same message.
    pub proof fn lemma_round_trip(self)
        ensures
            ReleaseRelation::parse(self.bytes()) == Ok::<ReleaseRelation, ReadError>(self),
            self.bytes().len() == ReleaseRelation::size(),
    {
        let s0 = Seq::<u8>::empty();
        let b = s0;
        assert(b == self.bytes());
    }
}

/// A player is to play rock-paper-scissors.
#[derive(Clone, Copy, Debug, PartialEq, Eq, Structural)]
pub struct RockPaperScissors {
    pub player: CorePlayer,
}

impl RockPaperScissors {
    /// The type of this message.
    pub fn message_type() -> (r: MessageType)
        ensures
            r == MessageType::RockPaperScissors,
    {
        MessageType::RockPaperScissors
    }

    /// The number of bytes of the message body.
    pub open spec fn size() -> nat {
        1
    }

    /// `s` followed by the wire bytes of the message body.
    pub open spec fn bytes_after(self, s: Seq<u8>) -> Seq<u8> {
        s.push(self.player.code())
    }

    /// The wire bytes of the message body.
    pub open spec fn bytes(self) -> Seq<u8> {
        self.bytes_after(Seq::empty())
    }

    /// How the bytes `d` read as the message body.
    pub open spec fn parse(d: Seq<u8>) -> Result<RockPaperScissors, ReadError> {
        if d.len() < 1 {
            Err(ReadError::UnexpectedEnd)
        } else {
            match CorePlayer::of_code(d[0]) {
                None => Err(ReadError::NoVariantMatch),
                Some(player) => {
                    Ok(RockPaperScissors { player: player })
                    },
                }
        }
    }

    /// Append the wire bytes of the message body.
    pub fn write(&self, out: &mut Vec<u8>)
        ensures
            final(out)@ == self.bytes_after(old(out)@),
    {
        out.push(self.player.value());
    }

    /// The wire bytes of the message body.
    pub fn to_bytes(&self) -> (r: Vec<u8>)
        ensures
            r@ == self.bytes(),
    {
        let mut out: Vec<u8> = Vec::new();
        self.write(&mut out);
        out
    }

    /// Read the message body from the bytes `d` (bytes after it are left).
    pub fn read(d: &[u8]) -> (r: Result<RockPaperScissors, ReadError>)
        ensures
            r == RockPaperScissors::parse(d@),
    {
        if d.len() < 1 {
            return Err(ReadError::UnexpectedEnd);
        }
        let player = match CorePlayer::from_value(d[0]) {
            Some(x) => x,
            None => return Err(ReadError::NoVariantMatch),
        };
        Ok(RockPaperScissors { player: player })
    }

    /// The body written and read back is the same message.
    pub proof fn lemma_round_trip(self)
        ensures
            RockPaperScissors::parse(self.bytes()) == Ok::<RockPaperScissors, ReadError>(self),
            self.bytes().len() == RockPaperScissors::size(),
    {
        let s0 = Seq::<u8>::empty();
        let s1 = s0.push(self.player.code());
        let b = s1;
        assert(b == self.bytes());
    }
}

/// A player is to announce races.
#[derive(Clone, Copy, Debug, PartialEq, Eq, Structural)]
pub struct AnnounceRace {
    pub player: CorePlayer,
    pub announce_count: i8,
    pub available: i32,
}

impl AnnounceRace {
    /// The type of this message.
    pub fn message_type() -> (r: MessageType)
        ensures
            r == MessageType::AnnounceRace,
    {
        MessageType::AnnounceRace
    }

    /// The number of bytes of the message body.
    pub open spec fn size() -> nat {
        6
    }

    /// `s` followed by the wire bytes of the message body.
    pub open spec fn bytes_after(self, s: Seq<u8>) -> Seq<u8> {
        push32(s.push(self.player.code()).push(self.announce_count as u8), self.available as u32)
    }

    /// The wire bytes of the message body.
    pub open spec fn bytes(self) -> Seq<u8> {
        self.bytes_after(Seq::empty())
    }

    /// How the bytes `d` read as the message body.
    pub open spec fn parse(d: Seq<u8>) -> Result<AnnounceRace, ReadError> {
        if d.len() < 1 {
            Err(ReadError::UnexpectedEnd)
        } else {
            match CorePlayer::of_code(d[0]) {
                None => Err(ReadError::NoVariantMatch),
                Some(player) => {
                    if d.len() < 2 {
                        Err(ReadError::UnexpectedEnd)
                    } else {
                        let announce_count = d[1] as i8;
                        if d.len() < 6 {
                            Err(ReadError::UnexpectedEnd)
                        } else {
                            let available = u32_at(d, 2) as i32;
                            Ok(AnnounceRace { player: player, announce_count: announce_count, available: available })
                        }
                    }
                    },
                }
        }
    }

    /// Append the wire bytes of the message body.
    pub fn write(&self, out: &mut Vec<u8>)
        ensures
            final(out)@ == self.bytes_after(old(out)@),
    {
        out.push(self.player.value());
        out.push(self.announce_count as u8);
        put_u32(out, self.available as u32);
    }

    /// The wire bytes of the message body.
    pub fn to_bytes(&self) -> (r: Vec<u8>)
        ensures
            r@ == self.bytes(),
    {
        let mut out: Vec<u8> = Vec::new();
        self.write(&mut out);
        out
    }

    /// Read the message body from the bytes `d` (bytes after it are left).
    pub fn read(d: &[u8]) -> (r: Result<AnnounceRace, ReadError>)
        ensures
            r == AnnounceRace::parse(d@),
    {
        if d.len() < 1 {
            return Err(ReadError::UnexpectedEnd);
        }
        let player = match CorePlayer::from_value(d[0]) {
            Some(x) => x,
            None => return Err(ReadError::NoVariantMatch),
        };
        if d.len() < 2 {
            return Err(ReadError::UnexpectedEnd);
        }
        let announce_count = d[1] as i8;
        if d.len() < 6 {
            return Err(ReadError::UnexpectedEnd);
        }
        let available = read_u32(d, 2) as i32;
        Ok(AnnounceRace { player: player, announce_count: announce_count, available: available })
    }

    /// The body written and read back is the same message.
    pub proof fn lemma_round_trip(self)
        ensures
            AnnounceRace::parse(self.bytes()) == Ok::<AnnounceRace, ReadError>(self),
            self.bytes().len() == AnnounceRace::size(),
    {
        let s0 = Seq::<u8>::empty();
        let s1 = s0.push(self.player.code());
        let s2 = s1.push(self.announce_count as u8);
        lemma_i8_round_trip(self.announce_count);
        let s3 = push32(s2, self.available as u32);
        lemma_push32(s2, self.available as u32);
        lemma_i32_round_trip(self.available);
        let b = s3;
        assert(b == self.bytes());
        assert(b.subrange(0, s3.len() as int) =~= s3);
        assert(b[2] == s3[2] && b[3] == s3[3] && b[4] == s3[4] && b[5] == s3[5]);
    }
}

/// A player is to announce attributes.
#[derive(Clone, Copy, Debug, PartialEq, Eq, Structural)]
pub struct AnnounceAttribute {
    pub player: CorePlayer,
    pub announce_count: i8,
    pub available: i32,
}

impl AnnounceAttribute {
    /// The type of this message.
    pub fn message_type() -> (r: MessageType)
        ensures
            r == MessageType::AnnounceAttribute,
    {
        MessageType::AnnounceAttribute
    }

    /// The number of bytes of the message body.
    pub open spec fn size() -> nat {
        6
    }

    /// `s` followed by the wire bytes of the message body.
    pub open spec fn bytes_after(self, s: Seq<u8>) -> Seq<u8> {
        push32(s.push(self.player.code()).push(self.announce_count as u8), self.available as u32)
    }

    /// The wire bytes of the message body.
    pub open spec fn bytes(self) -> Seq<u8> {
        self.bytes_after(Seq::empty())
    }

    /// How the bytes `d` read as the message body.
    pub open spec fn parse(d: Seq<u8>) -> Result<AnnounceAttribute, ReadError> {
        if d.len() < 1 {
            Err(ReadError::UnexpectedEnd)
        } else {
            match CorePlayer::of_code(d[0]) {
                None => Err(ReadError::NoVariantMatch),
                Some(player) => {
                    if d.len() < 2 {
                        Err(ReadError::UnexpectedEnd)
                    } else {
                        let announce_count = d[1] as i8;
                        if d.len() < 6 {
                            Err(ReadError::UnexpectedEnd)
                        } else {
                            let available = u32_at(d, 2) as i32;
                            Ok(AnnounceAttribute { player: player, announce_count: announce_count, available: available })
                        }
                    }
                    },
                }
        }
    }

    /// Append the wire bytes of the message body.
    pub fn write(&self, out: &mut Vec<u8>)
        ensures
            final(out)@ == self.bytes_after(old(out)@),
    {
        out.push(self.player.value());
        out.push(self.announce_count as u8);
        put_u32(out, self.available as u32);
    }

    /// The wire bytes of the message body.
    pub fn to_bytes(&self) -> (r: Vec<u8>)
        ensures
            r@ == self.bytes(),
    {
        let mut out: Vec<u8> = Vec::new();
        self.write(&mut out);
        out
    }

    /// Read the message body from the bytes `d` (bytes after it are left).
    pub fn read(d: &[u8]) -> (r: Result<AnnounceAttribute, ReadError>)
        ensures
            r == AnnounceAttribute::parse(d@),
    {
        if d.len() < 1 {
            return Err(ReadError::UnexpectedEnd);
        }
        let player = match CorePlayer::from_value(d[0]) {
            Some(x) => x,
            None => return Err(ReadError::NoVariantMatch),
        };
        if d.len() < 2 {
            return Err(ReadError::UnexpectedEnd);
        }
        let announce_count = d[1] as i8;
        if d.len() < 6 {
            return Err(ReadError::UnexpectedEnd);
        }
        let available = read_u32(d, 2) as i32;
        Ok(AnnounceAttribute { player: player, announce_count: announce_count, available: available })
    }

    /// The body written and read back is the same message.
    pub proof fn lemma_round_trip(self)
        ensures
            AnnounceAttribute::parse(self.bytes()) == Ok::<AnnounceAttribute, ReadError>(self),
            self.bytes().len() == AnnounceAttribute::size(),
    {
        let s0 = Seq::<u8>::empty();
        let s1 = s0.push(self.player.code());
        let s2 = s1.push(self.announce_count as u8);
        lemma_i8_round_trip(self.announce_count);
        let s3 = push32(s2, self.available as u32);
        lemma_push32(s2, self.available as u32);
        lemma_i32_round_trip(self.available);
        let b = s3;
        assert(b == self.bytes());
        assert(b.subrange(0, s3.len() as int) =~= s3);
        assert(b[2] == s3[2] && b[3] == s3[3] && b[4] == s3[4] && b[5] == s3[5]);
    }
}

/// Tag partners swap.
#[derive(Clone, Copy, Debug, PartialEq, Eq, Structural)]
pub struct TagSwap {
    pub player: CorePlayer,
    pub mcount: u8,
    pub ecount: u8,
    pub pcount: u8,
    pub hcount: u8,
    pub top_code: i32,
}

impl TagSwap {
    /// The type of this message.
    pub fn message_type() -> (r: MessageType)
        ensures
            r == MessageType::TagSwap,
    {
        MessageType::TagSwap
    }

    /// The number of bytes of the message body.
    pub open spec fn size() -> nat {
        9
    }

    /// `s` followed by the wire bytes of the message body.
    pub open spec fn bytes_after(self, s: Seq<u8>) -> Seq<u8> {
        push32(s.push(self.player.code()).push(self.mcount).push(self.ecount).push(self.pcount).push(self.hcount), self.top_code as u32)
    }

    /// The wire bytes of the message body.
    pub open spec fn bytes(self) -> Seq<u8> {
        self.bytes_after(Seq::empty())
    }

    /// How the bytes `d` read as the message body.
    pub open spec fn parse(d: Seq<u8>) -> Result<TagSwap, ReadError> {
        if d.len() < 1 {
            Err(ReadError::UnexpectedEnd)
        } else {
            match CorePlayer::of_code(d[0]) {
                None => Err(ReadError::NoVariantMatch),
                Some(player) => {
                    if d.len() < 2 {
                        Err(ReadError::UnexpectedEnd)
                    } else {
                        let mcount = d[1];
                        if d.len() < 3 {
                            Err(ReadError::UnexpectedEnd)
                        } else {
                            let ecount = d[2];
                            if d.len() < 4 {
                                Err(ReadError::UnexpectedEnd)
                            } else {
                                let pcount = d[3];
                                if d.len() < 5 {
                                    Err(ReadError::UnexpectedEnd)
                                } else {
                                    let hcount = d[4];
                                    if d.len() < 9 {
                                        Err(ReadError::UnexpectedEnd)
                                    } else {
                                        let top_code = u32_at(d, 5) as i32;
                                        Ok(TagSwap { player: player, mcount: mcount, ecount: ecount, pcount: pcount, hcount: hcount, top_code: top_code })
                                    }
                                }
                            }
                        }
                    }
                    },
                }
        }
    }

    /// Append the wire bytes of the message body.
    pub fn write(&self, out: &mut Vec<u8>)
        ensures
            final(out)@ == self.bytes_after(old(out)@),
    {
        out.push(self.player.value());
        out.push(self.mcount);
        out.push(self.ecount);
        out.push(self.pcount);
        out.push(self.hcount);
        put_u32(out, self.top_code as u32);
    }

    /// The wire bytes of the message body.
    pub fn to_bytes(&self) -> (r: Vec<u8>)
        ensures
            r@ == self.bytes(),
    {
        let mut out: Vec<u8> = Vec::new();
        self.write(&mut out);
        out
    }

    /// Read the message body from the bytes `d` (bytes after it are left).
    pub fn read(d: &[u8]) -> (r: Result<TagSwap, ReadError>)
        ensures
            r == TagSwap::parse(d@),
    {
        if d.len() < 1 {
            return Err(ReadError::UnexpectedEnd);
        }
        let player = match CorePlayer::from_value(d[0]) {
            Some(x) => x,
            None => return Err(ReadError::NoVariantMatch),
        };
        if d.len() < 2 {
            return Err(ReadError::UnexpectedEnd);
        }
        let mcount = d[1];
        if d.len() < 3 {
            return Err(ReadError::UnexpectedEnd);
        }
        let ecount = d[2];
        if d.len() < 4 {
            return Err(ReadError::UnexpectedEnd);
        }
        let pcount = d[3];
        if d.len() < 5 {
            return Err(ReadError::UnexpectedEnd);
        }
        let hcount = d[4];
        if d.len() < 9 {
            return Err(ReadError::UnexpectedEnd);
        }
        let top_code = read_u32(d, 5) as i32;
        Ok(TagSwap { player: player, mcount: mcount, ecount: ecount, pcount: pcount, hcount: hcount, top_code: top_code })
    }

    /// The body written and read back is the same message.
    pub proof fn lemma_round_trip(self)
        ensures
            TagSwap::parse(self.bytes()) == Ok::<TagSwap, ReadError>(self),
            self.bytes().len() == TagSwap::size(),
    {
        let s0 = Seq::<u8>::empty();
        let s1 = s0.push(self.player.code());
        let s2 = s1.push(self.mcount);
        let s3 = s2.push(self.ecount);
        let s4 = s3.push(self.pcount);
        let s5 = s4.push(self.hcount);
        let s6 = push32(s5, self.top_code as u32);
        lemma_push32(s5, self.top_code as u32);
        lemma_i32_round_trip(self.top_code);
        let b = s6;
        assert(b == self.bytes());
        assert(b.subrange(0, s6.len() as int) =~= s6);
        assert(b[5] == s6[5] && b[6] == s6[6] && b[7] == s6[7] && b[8] == s6[8]);
    }
}

/// A hint about a player.
#[derive(Clone, Copy, Debug, PartialEq, Eq, Structural)]
pub struct PlayerHint {
    pub player: CorePlayer,
    pub player_hint_type: crate::constants::PlayerHint,
    pub value: i32,
}

impl PlayerHint {
    /// The type of this message.
    pub fn message_type() -> (r: MessageType)
        ensures
            r == MessageType::PlayerHint,
    {
        MessageType::PlayerHint
    }

    /// The number of bytes of the message body.
    pub open spec fn size() -> nat {
        6
    }

    /// `s` followed by the wire bytes of the message body.
    pub open spec fn bytes_after(self, s: Seq<u8>) -> Seq<u8> {
        push32(s.push(self.player.code()).push(self.player_hint_type.code()), self.value as u32)
    }

    /// The wire bytes of the message body.
    pub open spec fn bytes(self) -> Seq<u8> {
        self.bytes_after(Seq::empty())
    }

    /// How the bytes `d` read as the message body.
    pub open spec fn parse(d: Seq<u8>) -> Result<PlayerHint, ReadError> {
        if d.len() < 1 {
            Err(ReadError::UnexpectedEnd)
        } else {
            match CorePlayer::of_code(d[0]) {
                None => Err(ReadError::NoVariantMatch),
                Some(player) => {
                    if d.len() < 2 {
                        Err(ReadError::UnexpectedEnd)
                    } else {
                        match crate::constants::PlayerHint::of_code(d[1]) {
                            None => Err(ReadError::NoVariantMatch),
                            Some(player_hint_type) => {
                                if d.len() < 6 {
                                    Err(ReadError::UnexpectedEnd)
                                } else {
                                    let value = u32_at(d, 2) as i32;
                                    Ok(PlayerHint { player: player, player_hint_type: player_hint_type, value: value })
                                }
                                },
                            }
                    }
                    },
                }
        }
    }

    /// Append the wire bytes of the message body.
    pub fn write(&self, out: &mut Vec<u8>)
        ensures
            final(out)@ == self.bytes_after(old(out)@),
    {
        out.push(self.player.value());
        out.push(self.player_hint_type.value());
        put_u32(out, self.value as u32);
    }

    /// The wire bytes of the message body.
    pub fn to_bytes(&self) -> (r: Vec<u8>)
        ensures
            r@ == self.bytes(),
    {
        let mut out: Vec<u8> = Vec::new();
        self.write(&mut out);
        out
    }

    /// Read the message body from the bytes `d` (bytes after it are left).
    pub fn read(d: &[u8]) -> (r: Result<PlayerHint, ReadError>)
        ensures
            r == PlayerHint::parse(d@),
    {
        if d.len() < 1 {
            return Err(ReadError::UnexpectedEnd);
        }
        let player = match CorePlayer::from_value(d[0]) {
            Some(x) => x,
            None => return Err(ReadError::NoVariantMatch),
        };
        if d.len() < 2 {
            return Err(ReadError::UnexpectedEnd);
        }
        let player_hint_type = match crate::constants::PlayerHint::from_value(d[1]) {
            Some(x) => x,
            None => return Err(ReadError::NoVariantMatch),
        };
        if d.len() < 6 {
            return Err(ReadError::UnexpectedEnd);
        }
        let value = read_u32(d, 2) as i32;
        Ok(PlayerHint { player: player, player_hint_type: player_hint_type, value: value })
    }

    /// The body written and read back is the same message.
    pub proof fn lemma_round_trip(self)
        ensures
            PlayerHint::parse(self.bytes()) == Ok::<PlayerHint, ReadError>(self),
            self.bytes().len() == PlayerHint::size(),
    {
        let s0 = Seq::<u8>::empty();
        let s1 = s0.push(self.player.code());
        let s2 = s1.push(self.player_hint_type.code());
        let s3 = push32(s2, self.value as u32);
        lemma_push32(s2, self.value as u32);
        lemma_i32_round_trip(self.value);
        let b = s3;
        assert(b == self.bytes());
        assert(b.subrange(0, s3.len() as int) =~= s3);
        assert(b[2] == s3[2] && b[3] == s3[3] && b[4] == s3[4] && b[5] == s3[5]);
    }
}

/// A card ends the match.
#[derive(Clone, Copy, Debug, PartialEq, Eq, Structural)]
pub struct MatchKill {
    pub card_code: u32,
}

impl MatchKill {
    /// The type of this message.
    pub fn message_type() -> (r: MessageType)
        ensures
            r == MessageType::MatchKill,
    {
        MessageType::MatchKill
    }

    /// The number of bytes of the message body.
    pub open spec fn size() -> nat {
        4
    }

    /// `s` followed by the wire bytes of the message body.
    pub open spec fn bytes_after(self, s: Seq<u8>) -> Seq<u8> {
        push32(s, self.card_code)
    }

    /// The wire bytes of the message body.
    pub open spec fn bytes(self) -> Seq<u8> {
        self.bytes_after(Seq::empty())
    }

    /// How the bytes `d` read as the message body.
    pub open spec fn parse(d: Seq<u8>) -> Result<MatchKill, ReadError> {
        if d.len() < 4 {
            Err(ReadError::UnexpectedEnd)
        } else {
            let card_code = u32_at(d, 0);
            Ok(MatchKill { card_code: card_code })
        }
    }

    /// Append the wire bytes of the message body.
    pub fn write(&self, out: &mut Vec<u8>)
        ensures
            final(out)@ == self.bytes_after(old(out)@),
    {
        put_u32(out, self.card_code);
    }

    /// The wire bytes of the message body.
    pub fn to_bytes(&self) -> (r: Vec<u8>)
        ensures
            r@ == self.bytes(),
    {
        let mut out: Vec<u8> = Vec::new();
        self.write(&mut out);
        out
    }

    /// Read the message body from the bytes `d` (bytes after it are left).
    pub fn read(d: &[u8]) -> (r: Result<MatchKill, ReadError>)
        ensures
            r == MatchKill::parse(d@),
    {
        if d.len() < 4 {
            return Err(ReadError::UnexpectedEnd);
        }
        let card_code = read_u32(d, 0);
        Ok(MatchKill { card_code: card_code })
    }

    /// The body written and read back is the same message.
    pub proof fn lemma_round_trip(self)
        ensures
            MatchKill::parse(self.bytes()) == Ok::<MatchKill, ReadError>(self),
            self.bytes().len() == MatchKill::size(),
    {
        let s0 = Seq::<u8>::empty();
        let s1 = push32(s0, self.card_code);
        lemma_push32(s0, self.card_code);
        let b = s1;
        assert(b == self.bytes());
        assert(b.subrange(0, s1.len() as int) =~= s1);
        assert(b[0] == s1[0] && b[1] == s1[1] && b[2] == s1[2] && b[3] == s1[3]);
    }
}

impl Mask for Retry {
    /// Nothing of the message is hidden.
    open spec fn is_masked_of(self, unmasked: Retry) -> bool {
        self == unmasked
    }

    /// Nothing of the message is hidden.
    open spec fn is_masked_towards(self, unmasked: Retry, player: CorePlayer) -> bool {
        self == unmasked
    }

    fn mask(&mut self) {
    }

    fn mask_towards(&mut self, player: CorePlayer) {
    }
}

impl MaskedClone for Retry {
    fn clone_masked(&self) -> (r: Retry) {
        *self
    }
}

impl GameMessage for Retry {
    /// Hidden from no one.
    open spec fn hidden_from(&self, player: CorePlayer) -> bool {
        false
    }

    fn should_mask(&self, player: CorePlayer) -> (r: bool) {
        false
    }

    /// As the message's type says (see `awaits_answer` of a type).
    open spec fn awaits_answer(&self) -> bool {
        crate::single_duel::awaits_answer(MessageType::Retry)
    }

    fn waiting_for_answer(&self) -> (r: bool) {
        crate::single_duel::is_prompt(MessageType::Retry)
    }
}

impl Mask for Hint {
    /// Nothing of the message is hidden.
    open spec fn is_masked_of(self, unmasked: Hint) -> bool {
        self == unmasked
    }

    /// Nothing of the message is hidden.
    open spec fn is_masked_towards(self, unmasked: Hint, player: CorePlayer) -> bool {
        self == unmasked
    }

    fn mask(&mut self) {
    }

    fn mask_towards(&mut self, player: CorePlayer) {
    }
}

impl MaskedClone for Hint {
    fn clone_masked(&self) -> (r: Hint) {
        *self
    }
}

impl GameMessage for Hint {
    /// Hidden from no one.
    open spec fn hidden_from(&self, player: CorePlayer) -> bool {
        false
    }

    fn should_mask(&self, player: CorePlayer) -> (r: bool) {
        false
    }

    /// As the message's type says (see `awaits_answer` of a type).
    open spec fn awaits_answer(&self) -> bool {
        crate::single_duel::awaits_answer(MessageType::Hint)
    }

    fn waiting_for_answer(&self) -> (r: bool) {
        crate::single_duel::is_prompt(MessageType::Hint)
    }
}

impl Mask for Waiting {
    /// Nothing of the message is hidden.
    open spec fn is_masked_of(self, unmasked: Waiting) -> bool {
        self == unmasked
    }

    /// Nothing of the message is hidden.
    open spec fn is_masked_towards(self, unmasked: Waiting, player: CorePlayer) -> bool {
        self == unmasked
    }

    fn mask(&mut self) {
    }

    fn mask_towards(&mut self, player: CorePlayer) {
    }
}

impl MaskedClone for Waiting {
    fn clone_masked(&self) -> (r: Waiting) {
        *self
    }
}

impl GameMessage for Waiting {
    /// Hidden from no one.
    open spec fn hidden_from(&self, player: CorePlayer) -> bool {
        false
    }

    fn should_mask(&self, player: CorePlayer) -> (r: bool) {
        false
    }

    /// As the message's type says (see `awaits_answer` of a type).
    open spec fn awaits_answer(&self) -> bool {
        crate::single_duel::awaits_answer(MessageType::Waiting)
    }

    fn waiting_for_answer(&self) -> (r: bool) {
        crate::single_duel::is_prompt(MessageType::Waiting)
    }
}

impl Mask for Start {
    /// Nothing of the message is hidden.
    open spec fn is_masked_of(self, unmasked: Start) -> bool {
        self == unmasked
    }

    /// Nothing of the message is hidden.
    open spec fn is_masked_towards(self, unmasked: Start, player: CorePlayer) -> bool {
        self == unmasked
    }

    fn mask(&mut self) {
    }

    fn mask_towards(&mut self, player: CorePlayer) {
    }
}

impl MaskedClone for Start {
    fn clone_masked(&self) -> (r: Start) {
        *self
    }
}

impl GameMessage for Start {
    /// Hidden from no one.
    open spec fn hidden_from(&self, player: CorePlayer) -> bool {
        false
    }

    fn should_mask(&self, player: CorePlayer) -> (r: bool) {
        false
    }

    /// As the message's type says (see `awaits_answer` of a type).
    open spec fn awaits_answer(&self) -> bool {
        crate::single_duel::awaits_answer(MessageType::Start)
    }

    fn waiting_for_answer(&self) -> (r: bool) {
        crate::single_duel::is_prompt(MessageType::Start)
    }
}

impl Mask for Win {
    /// Nothing of the message is hidden.
    open spec fn is_masked_of(self, unmasked: Win) -> bool {
        self == unmasked
    }

    /// Nothing of the message is hidden.
    open spec fn is_masked_towards(self, unmasked: Win, player: CorePlayer) -> bool {
        self == unmasked
    }

    fn mask(&mut self) {
    }

    fn mask_towards(&mut self, player: CorePlayer) {
    }
}

impl MaskedClone for Win {
    fn clone_masked(&self) -> (r: Win) {
        *self
    }
}

impl GameMessage for Win {
    /// Hidden from no one.
    open spec fn hidden_from(&self, player: CorePlayer) -> bool {
        false
    }

    fn should_mask(&self, player: CorePlayer) -> (r: bool) {
        false
    }

    /// As the message's type says (see `awaits_answer` of a type).
    open spec fn awaits_answer(&self) -> bool {
        crate::single_duel::awaits_answer(MessageType::Win)
    }

    fn waiting_for_answer(&self) -> (r: bool) {
        crate::single_duel::is_prompt(MessageType::Win)
    }
}

impl Mask for RequestDeck {
    /// Nothing of the message is hidden.
    open spec fn is_masked_of(self, unmasked: RequestDeck) -> bool {
        self == unmasked
    }

    /// Nothing of the message is hidden.
    open spec fn is_masked_towards(self, unmasked: RequestDeck, player: CorePlayer) -> bool {
        self == unmasked
    }

    fn mask(&mut self) {
    }

    fn mask_towards(&mut self, player: CorePlayer) {
    }
}

impl MaskedClone for RequestDeck {
    fn clone_masked(&self) -> (r: RequestDeck) {
        *self
    }
}

impl GameMessage for RequestDeck {
    /// Hidden from no one.
    open spec fn hidden_from(&self, player: CorePlayer) -> bool {
        false
    }

    fn should_mask(&self, player: CorePlayer) -> (r: bool) {
        false
    }

    /// As the message's type says (see `awaits_answer` of a type).
    open spec fn awaits_answer(&self) -> bool {
        crate::single_duel::awaits_answer(MessageType::RequestDeck)
    }

    fn waiting_for_answer(&self) -> (r: bool) {
        crate::single_duel::is_prompt(MessageType::RequestDeck)
    }
}

impl Mask for SelectYesNo {
    /// Nothing of the message is hidden.
    open spec fn is_masked_of(self, unmasked: SelectYesNo) -> bool {
        self == unmasked
    }

    /// Nothing of the message is hidden.
    open spec fn is_masked_towards(self, unmasked: SelectYesNo, player: CorePlayer) -> bool {
        self == unmasked
    }

    fn mask(&mut self) {
    }

    fn mask_towards(&mut self, player: CorePlayer) {
    }
}

impl MaskedClone for SelectYesNo {
    fn clone_masked(&self) -> (r: SelectYesNo) {
        *self
    }
}

impl GameMessage for SelectYesNo {
    /// Hidden from no one.
    open spec fn hidden_from(&self, player: CorePlayer) -> bool {
        false
    }

    fn should_mask(&self, player: CorePlayer) -> (r: bool) {
        false
    }

    /// As the message's type says (see `awaits_answer` of a type).
    open spec fn awaits_answer(&self) -> bool {
        crate::single_duel::awaits_answer(MessageType::SelectYesNo)
    }

    fn waiting_for_answer(&self) -> (r: bool) {
        crate::single_duel::is_prompt(MessageType::SelectYesNo)
    }
}

impl Mask for SelectPlace {
    /// Nothing of the message is hidden.
    open spec fn is_masked_of(self, unmasked: SelectPlace) -> bool {
        self == unmasked
    }

    /// Nothing of the message is hidden.
    open spec fn is_masked_towards(self, unmasked: SelectPlace, player: CorePlayer) -> bool {
        self == unmasked
    }

    fn mask(&mut self) {
    }

    fn mask_towards(&mut self, player: CorePlayer) {
    }
}

impl MaskedClone for SelectPlace {
    fn clone_masked(&self) -> (r: SelectPlace) {
        *self
    }
}

impl GameMessage for SelectPlace {
    /// Hidden from no one.
    open spec fn hidden_from(&self, player: CorePlayer) -> bool {
        false
    }

    fn should_mask(&self, player: CorePlayer) -> (r: bool) {
        false
    }

    /// As the message's type says (see `awaits_answer` of a type).
    open spec fn awaits_answer(&self) -> bool {
        crate::single_duel::awaits_answer(MessageType::SelectPlace)
    }

    fn waiting_for_answer(&self) -> (r: bool) {
        crate::single_duel::is_prompt(MessageType::SelectPlace)
    }
}

impl Mask for SelectPosition {
    /// Nothing of the message is hidden.
    open spec fn is_masked_of(self, unmasked: SelectPosition) -> bool {
        self == unmasked
    }

    /// Nothing of the message is hidden.
    open spec fn is_masked_towards(self, unmasked: SelectPosition, player: CorePlayer) -> bool {
        self == unmasked
    }

    fn mask(&mut self) {
    }

    fn mask_towards(&mut self, player: CorePlayer) {
    }
}

impl MaskedClone for SelectPosition {
    fn clone_masked(&self) -> (r: SelectPosition) {
        *self
    }
}

impl GameMessage for SelectPosition {
    /// Hidden from no one.
    open spec fn hidden_from(&self, player: CorePlayer) -> bool {
        false
    }

    fn should_mask(&self, player: CorePlayer) -> (r: bool) {
        false
    }

    /// As the message's type says (see `awaits_answer` of a type).
    open spec fn awaits_answer(&self) -> bool {
        crate::single_duel::awaits_answer(MessageType::SelectPosition)
    }

    fn waiting_for_answer(&self) -> (r: bool) {
        crate::single_duel::is_prompt(MessageType::SelectPosition)
    }
}

impl Mask for SortChain {
    /// Nothing of the message is hidden.
    open spec fn is_masked_of(self, unmasked: SortChain) -> bool {
        self == unmasked
    }

    /// Nothing of the message is hidden.
    open spec fn is_masked_towards(self, unmasked: SortChain, player: CorePlayer) -> bool {
        self == unmasked
    }

    fn mask(&mut self) {
    }

    fn mask_towards(&mut self, player: CorePlayer) {
    }
}

impl MaskedClone for SortChain {
    fn clone_masked(&self) -> (r: SortChain) {
        *self
    }
}

impl GameMessage for SortChain {
    /// Hidden from no one.
    open spec fn hidden_from(&self, player: CorePlayer) -> bool {
        false
    }

    fn should_mask(&self, player: CorePlayer) -> (r: bool) {
        false
    }

    /// As the message's type says (see `awaits_answer` of a type).
    open spec fn awaits_answer(&self) -> bool {
        crate::single_duel::awaits_answer(MessageType::SortChain)
    }

    fn waiting_for_answer(&self) -> (r: bool) {
        crate::single_duel::is_prompt(MessageType::SortChain)
    }
}

impl Mask for SelectDisableField {
    /// Nothing of the message is hidden.
    open spec fn is_masked_of(self, unmasked: SelectDisableField) -> bool {
        self == unmasked
    }

    /// Nothing of the message is hidden.
    open spec fn is_masked_towards(self, unmasked: SelectDisableField, player: CorePlayer) -> bool {
        self == unmasked
    }

    fn mask(&mut self) {
    }

    fn mask_towards(&mut self, player: CorePlayer) {
    }
}

impl MaskedClone for SelectDisableField {
    fn clone_masked(&self) -> (r: SelectDisableField) {
        *self
    }
}

impl GameMessage for SelectDisableField {
    /// Hidden from no one.
    open spec fn hidden_from(&self, player: CorePlayer) -> bool {
        false
    }

    fn should_mask(&self, player: CorePlayer) -> (r: bool) {
        false
    }

    /// As the message's type says (see `awaits_answer` of a type).
    open spec fn awaits_answer(&self) -> bool {
        crate::single_duel::awaits_answer(MessageType::SelectDisableField)
    }

    fn waiting_for_answer(&self) -> (r: bool) {
        crate::single_duel::is_prompt(MessageType::SelectDisableField)
    }
}

impl Mask for ShuffleDeck {
    /// Nothing of the message is hidden.
    open spec fn is_masked_of(self, unmasked: ShuffleDeck) -> bool {
        self == unmasked
    }

    /// Nothing of the message is hidden.
    open spec fn is_masked_towards(self, unmasked: ShuffleDeck, player: CorePlayer) -> bool {
        self == unmasked
    }

    fn mask(&mut self) {
    }

    fn mask_towards(&mut self, player: CorePlayer) {
    }
}

impl MaskedClone for ShuffleDeck {
    fn clone_masked(&self) -> (r: ShuffleDeck) {
        *self
    }
}

impl GameMessage for ShuffleDeck {
    /// Hidden from no one.
    open spec fn hidden_from(&self, player: CorePlayer) -> bool {
        false
    }

    fn should_mask(&self, player: CorePlayer) -> (r: bool) {
        false
    }

    /// As the message's type says (see `awaits_answer` of a type).
    open spec fn awaits_answer(&self) -> bool {
        crate::single_duel::awaits_answer(MessageType::ShuffleDeck)
    }

    fn waiting_for_answer(&self) -> (r: bool) {
        crate::single_duel::is_prompt(MessageType::ShuffleDeck)
    }
}

impl Mask for RefreshDeck {
    /// Nothing of the message is hidden.
    open spec fn is_masked_of(self, unmasked: RefreshDeck) -> bool {
        self == unmasked
    }

    /// Nothing of the message is hidden.
    open spec fn is_masked_towards(self, unmasked: RefreshDeck, player: CorePlayer) -> bool {
        self == unmasked
    }

    fn mask(&mut self) {
    }

    fn mask_towards(&mut self, player: CorePlayer) {
    }
}

impl MaskedClone for RefreshDeck {
    fn clone_masked(&self) -> (r: RefreshDeck) {
        *self
    }
}

impl GameMessage for RefreshDeck {
    /// Hidden from no one.
    open spec fn hidden_from(&self, player: CorePlayer) -> bool {
        false
    }

    fn should_mask(&self, player: CorePlayer) -> (r: bool) {
        false
    }

    /// As the message's type says (see `awaits_answer` of a type).
    open spec fn awaits_answer(&self) -> bool {
        crate::single_duel::awaits_answer(MessageType::RefreshDeck)
    }

    fn waiting_for_answer(&self) -> (r: bool) {
        crate::single_duel::is_prompt(MessageType::RefreshDeck)
    }
}

impl Mask for SwapGraveDeck {
    /// Nothing of the message is hidden.
    open spec fn is_masked_of(self, unmasked: SwapGraveDeck) -> bool {
        self == unmasked
    }

    /// Nothing of the message is hidden.
    open spec fn is_masked_towards(self, unmasked: SwapGraveDeck, player: CorePlayer) -> bool {
        self == unmasked
    }

    fn mask(&mut self) {
    }

    fn mask_towards(&mut self, player: CorePlayer) {
    }
}

impl MaskedClone for SwapGraveDeck {
    fn clone_masked(&self) -> (r: SwapGraveDeck) {
        *self
    }
}

impl GameMessage for SwapGraveDeck {
    /// Hidden from no one.
    open spec fn hidden_from(&self, player: CorePlayer) -> bool {
        false
    }

    fn should_mask(&self, player: CorePlayer) -> (r: bool) {
        false
    }

    /// As the message's type says (see `awaits_answer` of a type).
    open spec fn awaits_answer(&self) -> bool {
        crate::single_duel::awaits_answer(MessageType::SwapGraveDeck)
    }

    fn waiting_for_answer(&self) -> (r: bool) {
        crate::single_duel::is_prompt(MessageType::SwapGraveDeck)
    }
}

impl Mask for ReverseDeck {
    /// Nothing of the message is hidden.
    open spec fn is_masked_of(self, unmasked: ReverseDeck) -> bool {
        self == unmasked
    }

    /// Nothing of the message is hidden.
    open spec fn is_masked_towards(self, unmasked: ReverseDeck, player: CorePlayer) -> bool {
        self == unmasked
    }

    fn mask(&mut self) {
    }

    fn mask_towards(&mut self, player: CorePlayer) {
    }
}

impl MaskedClone for ReverseDeck {
    fn clone_masked(&self) -> (r: ReverseDeck) {
        *self
    }
}

impl GameMessage for ReverseDeck {
    /// Hidden from no one.
    open spec fn hidden_from(&self, player: CorePlayer) -> bool {
        false
    }

    fn should_mask(&self, player: CorePlayer) -> (r: bool) {
        false
    }

    /// As the message's type says (see `awaits_answer` of a type).
    open spec fn awaits_answer(&self) -> bool {
        crate::single_duel::awaits_answer(MessageType::ReverseDeck)
    }

    fn waiting_for_answer(&self) -> (r: bool) {
        crate::single_duel::is_prompt(MessageType::ReverseDeck)
    }
}

impl Mask for DeckTop {
    /// Nothing of the message is hidden.
    open spec fn is_masked_of(self, unmasked: DeckTop) -> bool {
        self == unmasked
    }

    /// Nothing of the message is hidden.
    open spec fn is_masked_towards(self, unmasked: DeckTop, player: CorePlayer) -> bool {
        self == unmasked
    }

    fn mask(&mut self) {
    }

    fn mask_towards(&mut self, player: CorePlayer) {
    }
}

impl MaskedClone for DeckTop {
    fn clone_masked(&self) -> (r: DeckTop) {
        *self
    }
}

impl GameMessage for DeckTop {
    /// Hidden from no one.
    open spec fn hidden_from(&self, player: CorePlayer) -> bool {
        false
    }

    fn should_mask(&self, player: CorePlayer) -> (r: bool) {
        false
    }

    /// As the message's type says (see `awaits_answer` of a type).
    open spec fn awaits_answer(&self) -> bool {
        crate::single_duel::awaits_answer(MessageType::DeckTop)
    }

    fn waiting_for_answer(&self) -> (r: bool) {
        crate::single_duel::is_prompt(MessageType::DeckTop)
    }
}

impl Mask for NewTurn {
    /// Nothing of the message is hidden.
    open spec fn is_masked_of(self, unmasked: NewTurn) -> bool {
        self == unmasked
    }

    /// Nothing of the message is hidden.
    open spec fn is_masked_towards(self, unmasked: NewTurn, player: CorePlayer) -> bool {
        self == unmasked
    }

    fn mask(&mut self) {
    }

    fn mask_towards(&mut self, player: CorePlayer) {
    }
}

impl MaskedClone for NewTurn {
    fn clone_masked(&self) -> (r: NewTurn) {
        *self
    }
}

impl GameMessage for NewTurn {
    /// Hidden from no one.
    open spec fn hidden_from(&self, player: CorePlayer) -> bool {
        false
    }

    fn should_mask(&self, player: CorePlayer) -> (r: bool) {
        false
    }

    /// As the message's type says (see `awaits_answer` of a type).
    open spec fn awaits_answer(&self) -> bool {
        crate::single_duel::awaits_answer(MessageType::NewTurn)
    }

    fn waiting_for_answer(&self) -> (r: bool) {
        crate::single_duel::is_prompt(MessageType::NewTurn)
    }
}

impl Mask for NewPhase {
    /// Nothing of the message is hidden.
    open spec fn is_masked_of(self, unmasked: NewPhase) -> bool {
        self == unmasked
    }

    /// Nothing of the message is hidden.
    open spec fn is_masked_towards(self, unmasked: NewPhase, player: CorePlayer) -> bool {
        self == unmasked
    }

    fn mask(&mut self) {
    }

    fn mask_towards(&mut self, player: CorePlayer) {
    }
}

impl MaskedClone for NewPhase {
    fn clone_masked(&self) -> (r: NewPhase) {
        *self
    }
}

impl GameMessage for NewPhase {
    /// Hidden from no one.
    open spec fn hidden_from(&self, player: CorePlayer) -> bool {
        false
    }

    fn should_mask(&self, player: CorePlayer) -> (r: bool) {
        false
    }

    /// As the message's type says (see `awaits_answer` of a type).
    open spec fn awaits_answer(&self) -> bool {
        crate::single_duel::awaits_answer(MessageType::NewPhase)
    }

    fn waiting_for_answer(&self) -> (r: bool) {
        crate::single_duel::is_prompt(MessageType::NewPhase)
    }
}

impl Mask for PositionChange {
    /// Nothing of the message is hidden.
    open spec fn is_masked_of(self, unmasked: PositionChange) -> bool {
        self == unmasked
    }

    /// Nothing of the message is hidden.
    open spec fn is_masked_towards(self, unmasked: PositionChange, player: CorePlayer) -> bool {
        self == unmasked
    }

    fn mask(&mut self) {
    }

    fn mask_towards(&mut self, player: CorePlayer) {
    }
}

impl MaskedClone for PositionChange {
    fn clone_masked(&self) -> (r: PositionChange) {
        *self
    }
}

impl GameMessage for PositionChange {
    /// Hidden from no one.
    open spec fn hidden_from(&self, player: CorePlayer) -> bool {
        false
    }

    fn should_mask(&self, player: CorePlayer) -> (r: bool) {
        false
    }

    /// As the message's type says (see `awaits_answer` of a type).
    open spec fn awaits_answer(&self) -> bool {
        crate::single_duel::awaits_answer(MessageType::PositionChange)
    }

    fn waiting_for_answer(&self) -> (r: bool) {
        crate::single_duel::is_prompt(MessageType::PositionChange)
    }
}

impl Mask for FieldDisabled {
    /// Nothing of the message is hidden.
    open spec fn is_masked_of(self, unmasked: FieldDisabled) -> bool {
        self == unmasked
    }

    /// Nothing of the message is hidden.
    open spec fn is_masked_towards(self, unmasked: FieldDisabled, player: CorePlayer) -> bool {
        self == unmasked
    }

    fn mask(&mut self) {
    }

    fn mask_towards(&mut self, player: CorePlayer) {
    }
}

impl MaskedClone for FieldDisabled {
    fn clone_masked(&self) -> (r: FieldDisabled) {
        *self
    }
}

impl GameMessage for FieldDisabled {
    /// Hidden from no one.
    open spec fn hidden_from(&self, player: CorePlayer) -> bool {
        false
    }

    fn should_mask(&self, player: CorePlayer) -> (r: bool) {
        false
    }

    /// As the message's type says (see `awaits_answer` of a type).
    open spec fn awaits_answer(&self) -> bool {
        crate::single_duel::awaits_answer(MessageType::FieldDisabled)
    }

    fn waiting_for_answer(&self) -> (r: bool) {
        crate::single_duel::is_prompt(MessageType::FieldDisabled)
    }
}

impl Mask for Summoned {
    /// Nothing of the message is hidden.
    open spec fn is_masked_of(self, unmasked: Summoned) -> bool {
        self == unmasked
    }

    /// Nothing of the message is hidden.
    open spec fn is_masked_towards(self, unmasked: Summoned, player: CorePlayer) -> bool {
        self == unmasked
    }

    fn mask(&mut self) {
    }

    fn mask_towards(&mut self, player: CorePlayer) {
    }
}

impl MaskedClone for Summoned {
    fn clone_masked(&self) -> (r: Summoned) {
        *self
    }
}

impl GameMessage for Summoned {
    /// Hidden from no one.
    open spec fn hidden_from(&self, player: CorePlayer) -> bool {
        false
    }

    fn should_mask(&self, player: CorePlayer) -> (r: bool) {
        false
    }

    /// As the message's type says (see `awaits_answer` of a type).
    open spec fn awaits_answer(&self) -> bool {
        crate::single_duel::awaits_answer(MessageType::Summoned)
    }

    fn waiting_for_answer(&self) -> (r: bool) {
        crate::single_duel::is_prompt(MessageType::Summoned)
    }
}

impl Mask for SpecialSummoned {
    /// Nothing of the message is hidden.
    open spec fn is_masked_of(self, unmasked: SpecialSummoned) -> bool {
        self == unmasked
    }

    /// Nothing of the message is hidden.
    open spec fn is_masked_towards(self, unmasked: SpecialSummoned, player: CorePlayer) -> bool {
        self == unmasked
    }

    fn mask(&mut self) {
    }

    fn mask_towards(&mut self, player: CorePlayer) {
    }
}

impl MaskedClone for SpecialSummoned {
    fn clone_masked(&self) -> (r: SpecialSummoned) {
        *self
    }
}

impl GameMessage for SpecialSummoned {
    /// Hidden from no one.
    open spec fn hidden_from(&self, player: CorePlayer) -> bool {
        false
    }

    fn should_mask(&self, player: CorePlayer) -> (r: bool) {
        false
    }

    /// As the message's type says (see `awaits_answer` of a type).
    open spec fn awaits_answer(&self) -> bool {
        crate::single_duel::awaits_answer(MessageType::SpecialSummoned)
    }

    fn waiting_for_answer(&self) -> (r: bool) {
        crate::single_duel::is_prompt(MessageType::SpecialSummoned)
    }
}

impl Mask for FlipSummoned {
    /// Nothing of the message is hidden.
    open spec fn is_masked_of(self, unmasked: FlipSummoned) -> bool {
        self == unmasked
    }

    /// Nothing of the message is hidden.
    open spec fn is_masked_towards(self, unmasked: FlipSummoned, player: CorePlayer) -> bool {
        self == unmasked
    }

    fn mask(&mut self) {
    }

    fn mask_towards(&mut self, player: CorePlayer) {
    }
}

impl MaskedClone for FlipSummoned {
    fn clone_masked(&self) -> (r: FlipSummoned) {
        *self
    }
}

impl GameMessage for FlipSummoned {
    /// Hidden from no one.
    open spec fn hidden_from(&self, player: CorePlayer) -> bool {
        false
    }

    fn should_mask(&self, player: CorePlayer) -> (r: bool) {
        false
    }

    /// As the message's type says (see `awaits_answer` of a type).
    open spec fn awaits_answer(&self) -> bool {
        crate::single_duel::awaits_answer(MessageType::FlipSummoned)
    }

    fn waiting_for_answer(&self) -> (r: bool) {
        crate::single_duel::is_prompt(MessageType::FlipSummoned)
    }
}

impl Mask for Chained {
    /// Nothing of the message is hidden.
    open spec fn is_masked_of(self, unmasked: Chained) -> bool {
        self == unmasked
    }

    /// Nothing of the message is hidden.
    open spec fn is_masked_towards(self, unmasked: Chained, player: CorePlayer) -> bool {
        self == unmasked
    }

    fn mask(&mut self) {
    }

    fn mask_towards(&mut self, player: CorePlayer) {
    }
}

impl MaskedClone for Chained {
    fn clone_masked(&self) -> (r: Chained) {
        *self
    }
}

impl GameMessage for Chained {
    /// Hidden from no one.
    open spec fn hidden_from(&self, player: CorePlayer) -> bool {
        false
    }

    fn should_mask(&self, player: CorePlayer) -> (r: bool) {
        false
    }

    /// As the message's type says (see `awaits_answer` of a type).
    open spec fn awaits_answer(&self) -> bool {
        crate::single_duel::awaits_answer(MessageType::Chained)
    }

    fn waiting_for_answer(&self) -> (r: bool) {
        crate::single_duel::is_prompt(MessageType::Chained)
    }
}

impl Mask for ChainSolving {
    /// Nothing of the message is hidden.
    open spec fn is_masked_of(self, unmasked: ChainSolving) -> bool {
        self == unmasked
    }

    /// Nothing of the message is hidden.
    open spec fn is_masked_towards(self, unmasked: ChainSolving, player: CorePlayer) -> bool {
        self == unmasked
    }

    fn mask(&mut self) {
    }

    fn mask_towards(&mut self, player: CorePlayer) {
    }
}

impl MaskedClone for ChainSolving {
    fn clone_masked(&self) -> (r: ChainSolving) {
        *self
    }
}

impl GameMessage for ChainSolving {
    /// Hidden from no one.
    open spec fn hidden_from(&self, player: CorePlayer) -> bool {
        false
    }

    fn should_mask(&self, player: CorePlayer) -> (r: bool) {
        false
    }

    /// As the message's type says (see `awaits_answer` of a type).
    open spec fn awaits_answer(&self) -> bool {
        crate::single_duel::awaits_answer(MessageType::ChainSolving)
    }

    fn waiting_for_answer(&self) -> (r: bool) {
        crate::single_duel::is_prompt(MessageType::ChainSolving)
    }
}

impl Mask for ChainSolved {
    /// Nothing of the message is hidden.
    open spec fn is_masked_of(self, unmasked: ChainSolved) -> bool {
        self == unmasked
    }

    /// Nothing of the message is hidden.
    open spec fn is_masked_towards(self, unmasked: ChainSolved, player: CorePlayer) -> bool {
        self == unmasked
    }

    fn mask(&mut self) {
    }

    fn mask_towards(&mut self, player: CorePlayer) {
    }
}

impl MaskedClone for ChainSolved {
    fn clone_masked(&self) -> (r: ChainSolved) {
        *self
    }
}

impl GameMessage for ChainSolved {
    /// Hidden from no one.
    open spec fn hidden_from(&self, player: CorePlayer) -> bool {
        false
    }

    fn should_mask(&self, player: CorePlayer) -> (r: bool) {
        false
    }

    /// As the message's type says (see `awaits_answer` of a type).
    open spec fn awaits_answer(&self) -> bool {
        crate::single_duel::awaits_answer(MessageType::ChainSolved)
    }

    fn waiting_for_answer(&self) -> (r: bool) {
        crate::single_duel::is_prompt(MessageType::ChainSolved)
    }
}

impl Mask for ChainEnd {
    /// Nothing of the message is hidden.
    open spec fn is_masked_of(self, unmasked: ChainEnd) -> bool {
        self == unmasked
    }

    /// Nothing of the message is hidden.
    open spec fn is_masked_towards(self, unmasked: ChainEnd, player: CorePlayer) -> bool {
        self == unmasked
    }

    fn mask(&mut self) {
    }

    fn mask_towards(&mut self, player: CorePlayer) {
    }
}

impl MaskedClone for ChainEnd {
    fn clone_masked(&self) -> (r: ChainEnd) {
        *self
    }
}

impl GameMessage for ChainEnd {
    /// Hidden from no one.
    open spec fn hidden_from(&self, player: CorePlayer) -> bool {
        false
    }

    fn should_mask(&self, player: CorePlayer) -> (r: bool) {
        false
    }

    /// As the message's type says (see `awaits_answer` of a type).
    open spec fn awaits_answer(&self) -> bool {
        crate::single_duel::awaits_answer(MessageType::ChainEnd)
    }

    fn waiting_for_answer(&self) -> (r: bool) {
        crate::single_duel::is_prompt(MessageType::ChainEnd)
    }
}

impl Mask for ChainNegated {
    /// Nothing of the message is hidden.
    open spec fn is_masked_of(self, unmasked: ChainNegated) -> bool {
        self == unmasked
    }

    /// Nothing of the message is hidden.
    open spec fn is_masked_towards(self, unmasked: ChainNegated, player: CorePlayer) -> bool {
        self == unmasked
    }

    fn mask(&mut self) {
    }

    fn mask_towards(&mut self, player: CorePlayer) {
    }
}

impl MaskedClone for ChainNegated {
    fn clone_masked(&self) -> (r: ChainNegated) {
        *self
    }
}

impl GameMessage for ChainNegated {
    /// Hidden from no one.
    open spec fn hidden_from(&self, player: CorePlayer) -> bool {
        false
    }

    fn should_mask(&self, player: CorePlayer) -> (r: bool) {
        false
    }

    /// As the message's type says (see `awaits_answer` of a type).
    open spec fn awaits_answer(&self) -> bool {
        crate::single_duel::awaits_answer(MessageType::ChainNegated)
    }

    fn waiting_for_answer(&self) -> (r: bool) {
        crate::single_duel::is_prompt(MessageType::ChainNegated)
    }
}

impl Mask for ChainDisabled {
    /// Nothing of the message is hidden.
    open spec fn is_masked_of(self, unmasked: ChainDisabled) -> bool {
        self == unmasked
    }

    /// Nothing of the message is hidden.
    open spec fn is_masked_towards(self, unmasked: ChainDisabled, player: CorePlayer) -> bool {
        self == unmasked
    }

    fn mask(&mut self) {
    }

    fn mask_towards(&mut self, player: CorePlayer) {
    }
}

impl MaskedClone for ChainDisabled {
    fn clone_masked(&self) -> (r: ChainDisabled) {
        *self
    }
}

impl GameMessage for ChainDisabled {
    /// Hidden from no one.
    open spec fn hidden_from(&self, player: CorePlayer) -> bool {
        false
    }

    fn should_mask(&self, player: CorePlayer) -> (r: bool) {
        false
    }

    /// As the message's type says (see `awaits_answer` of a type).
    open spec fn awaits_answer(&self) -> bool {
        crate::single_duel::awaits_answer(MessageType::ChainDisabled)
    }

    fn waiting_for_answer(&self) -> (r: bool) {
        crate::single_duel::is_prompt(MessageType::ChainDisabled)
    }
}

impl Mask for CardSelected {
    /// Nothing of the message is hidden.
    open spec fn is_masked_of(self, unmasked: CardSelected) -> bool {
        self == unmasked
    }

    /// Nothing of the message is hidden.
    open spec fn is_masked_towards(self, unmasked: CardSelected, player: CorePlayer) -> bool {
        self == unmasked
    }

    fn mask(&mut self) {
    }

    fn mask_towards(&mut self, player: CorePlayer) {
    }
}

impl MaskedClone for CardSelected {
    fn clone_masked(&self) -> (r: CardSelected) {
        *self
    }
}

impl GameMessage for CardSelected {
    /// Hidden from no one.
    open spec fn hidden_from(&self, player: CorePlayer) -> bool {
        false
    }

    fn should_mask(&self, player: CorePlayer) -> (r: bool) {
        false
    }

    /// As the message's type says (see `awaits_answer` of a type).
    open spec fn awaits_answer(&self) -> bool {
        crate::single_duel::awaits_answer(MessageType::CardSelected)
    }

    fn waiting_for_answer(&self) -> (r: bool) {
        crate::single_duel::is_prompt(MessageType::CardSelected)
    }
}

impl Mask for Damage {
    /// Nothing of the message is hidden.
    open spec fn is_masked_of(self, unmasked: Damage) -> bool {
        self == unmasked
    }

    /// Nothing of the message is hidden.
    open spec fn is_masked_towards(self, unmasked: Damage, player: CorePlayer) -> bool {
        self == unmasked
    }

    fn mask(&mut self) {
    }

    fn mask_towards(&mut self, player: CorePlayer) {
    }
}

impl MaskedClone for Damage {
    fn clone_masked(&self) -> (r: Damage) {
        *self
    }
}

impl GameMessage for Damage {
    /// Hidden from no one.
    open spec fn hidden_from(&self, player: CorePlayer) -> bool {
        false
    }

    fn should_mask(&self, player: CorePlayer) -> (r: bool) {
        false
    }

    /// As the message's type says (see `awaits_answer` of a type).
    open spec fn awaits_answer(&self) -> bool {
        crate::single_duel::awaits_answer(MessageType::Damage)
    }

    fn waiting_for_answer(&self) -> (r: bool) {
        crate::single_duel::is_prompt(MessageType::Damage)
    }
}

impl Mask for Recover {
    /// Nothing of the message is hidden.
    open spec fn is_masked_of(self, unmasked: Recover) -> bool {
        self == unmasked
    }

    /// Nothing of the message is hidden.
    open spec fn is_masked_towards(self, unmasked: Recover, player: CorePlayer) -> bool {
        self == unmasked
    }

    fn mask(&mut self) {
    }

    fn mask_towards(&mut self, player: CorePlayer) {
    }
}

impl MaskedClone for Recover {
    fn clone_masked(&self) -> (r: Recover) {
        *self
    }
}

impl GameMessage for Recover {
    /// Hidden from no one.
    open spec fn hidden_from(&self, player: CorePlayer) -> bool {
        false
    }

    fn should_mask(&self, player: CorePlayer) -> (r: bool) {
        false
    }

    /// As the message's type says (see `awaits_answer` of a type).
    open spec fn awaits_answer(&self) -> bool {
        crate::single_duel::awaits_answer(MessageType::Recover)
    }

    fn waiting_for_answer(&self) -> (r: bool) {
        crate::single_duel::is_prompt(MessageType::Recover)
    }
}

impl Mask for LPUpdate {
    /// Nothing of the message is hidden.
    open spec fn is_masked_of(self, unmasked: LPUpdate) -> bool {
        self == unmasked
    }

    /// Nothing of the message is hidden.
    open spec fn is_masked_towards(self, unmasked: LPUpdate, player: CorePlayer) -> bool {
        self == unmasked
    }

    fn mask(&mut self) {
    }

    fn mask_towards(&mut self, player: CorePlayer) {
    }
}

impl MaskedClone for LPUpdate {
    fn clone_masked(&self) -> (r: LPUpdate) {
        *self
    }
}

impl GameMessage for LPUpdate {
    /// Hidden from no one.
    open spec fn hidden_from(&self, player: CorePlayer) -> bool {
        false
    }

    fn should_mask(&self, player: CorePlayer) -> (r: bool) {
        false
    }

    /// As the message's type says (see `awaits_answer` of a type).
    open spec fn awaits_answer(&self) -> bool {
        crate::single_duel::awaits_answer(MessageType::LPUpdate)
    }

    fn waiting_for_answer(&self) -> (r: bool) {
        crate::single_duel::is_prompt(MessageType::LPUpdate)
    }
}

impl Mask for PayLPCost {
    /// Nothing of the message is hidden.
    open spec fn is_masked_of(self, unmasked: PayLPCost) -> bool {
        self == unmasked
    }

    /// Nothing of the message is hidden.
    open spec fn is_masked_towards(self, unmasked: PayLPCost, player: CorePlayer) -> bool {
        self == unmasked
    }

    fn mask(&mut self) {
    }

    fn mask_towards(&mut self, player: CorePlayer) {
    }
}

impl MaskedClone for PayLPCost {
    fn clone_masked(&self) -> (r: PayLPCost) {
        *self
    }
}

impl GameMessage for PayLPCost {
    /// Hidden from no one.
    open spec fn hidden_from(&self, player: CorePlayer) -> bool {
        false
    }

    fn should_mask(&self, player: CorePlayer) -> (r: bool) {
        false
    }

    /// As the message's type says (see `awaits_answer` of a type).
    open spec fn awaits_answer(&self) -> bool {
        crate::single_duel::awaits_answer(MessageType::PayLPCost)
    }

    fn waiting_for_answer(&self) -> (r: bool) {
        crate::single_duel::is_prompt(MessageType::PayLPCost)
    }
}

impl Mask for AttackDisabled {
    /// Nothing of the message is hidden.
    open spec fn is_masked_of(self, unmasked: AttackDisabled) -> bool {
        self == unmasked
    }

    /// Nothing of the message is hidden.
    open spec fn is_masked_towards(self, unmasked: AttackDisabled, player: CorePlayer) -> bool {
        self == unmasked
    }

    fn mask(&mut self) {
    }

    fn mask_towards(&mut self, player: CorePlayer) {
    }
}

impl MaskedClone for AttackDisabled {
    fn clone_masked(&self) -> (r: AttackDisabled) {
        *self
    }
}

impl GameMessage for AttackDisabled {
    /// Hidden from no one.
    open spec fn hidden_from(&self, player: CorePlayer) -> bool {
        false
    }

    fn should_mask(&self, player: CorePlayer) -> (r: bool) {
        false
    }

    /// As the message's type says (see `awaits_answer` of a type).
    open spec fn awaits_answer(&self) -> bool {
        crate::single_duel::awaits_answer(MessageType::AttackDisabled)
    }

    fn waiting_for_answer(&self) -> (r: bool) {
        crate::single_duel::is_prompt(MessageType::AttackDisabled)
    }
}

impl Mask for DamageStepStart {
    /// Nothing of the message is hidden.
    open spec fn is_masked_of(self, unmasked: DamageStepStart) -> bool {
        self == unmasked
    }

    /// Nothing of the message is hidden.
    open spec fn is_masked_towards(self, unmasked: DamageStepStart, player: CorePlayer) -> bool {
        self == unmasked
    }

    fn mask(&mut self) {
    }

    fn mask_towards(&mut self, player: CorePlayer) {
    }
}

impl MaskedClone for DamageStepStart {
    fn clone_masked(&self) -> (r: DamageStepStart) {
        *self
    }
}

impl GameMessage for DamageStepStart {
    /// Hidden from no one.
    open spec fn hidden_from(&self, player: CorePlayer) -> bool {
        false
    }

    fn should_mask(&self, player: CorePlayer) -> (r: bool) {
        false
    }

    /// As the message's type says (see `awaits_answer` of a type).
    open spec fn awaits_answer(&self) -> bool {
        crate::single_duel::awaits_answer(MessageType::DamageStepStart)
    }

    fn waiting_for_answer(&self) -> (r: bool) {
        crate::single_duel::is_prompt(MessageType::DamageStepStart)
    }
}

impl Mask for DamageStepEnd {
    /// Nothing of the message is hidden.
    open spec fn is_masked_of(self, unmasked: DamageStepEnd) -> bool {
        self == unmasked
    }

    /// Nothing of the message is hidden.
    open spec fn is_masked_towards(self, unmasked: DamageStepEnd, player: CorePlayer) -> bool {
        self == unmasked
    }

    fn mask(&mut self) {
    }

    fn mask_towards(&mut self, player: CorePlayer) {
    }
}

impl MaskedClone for DamageStepEnd {
    fn clone_masked(&self) -> (r: DamageStepEnd) {
        *self
    }
}

impl GameMessage for DamageStepEnd {
    /// Hidden from no one.
    open spec fn hidden_from(&self, player: CorePlayer) -> bool {
        false
    }

    fn should_mask(&self, player: CorePlayer) -> (r: bool) {
        false
    }

    /// As the message's type says (see `awaits_answer` of a type).
    open spec fn awaits_answer(&self) -> bool {
        crate::single_duel::awaits_answer(MessageType::DamageStepEnd)
    }

    fn waiting_for_answer(&self) -> (r: bool) {
        crate::single_duel::is_prompt(MessageType::DamageStepEnd)
    }
}

impl Mask for MissedEffect {
    /// Nothing of the message is hidden.
    open spec fn is_masked_of(self, unmasked: MissedEffect) -> bool {
        self == unmasked
    }

    /// Nothing of the message is hidden.
    open spec fn is_masked_towards(self, unmasked: MissedEffect, player: CorePlayer) -> bool {
        self == unmasked
    }

    fn mask(&mut self) {
    }

    fn mask_towards(&mut self, player: CorePlayer) {
    }
}

impl MaskedClone for MissedEffect {
    fn clone_masked(&self) -> (r: MissedEffect) {
        *self
    }
}

impl GameMessage for MissedEffect {
    /// Hidden from no one.
    open spec fn hidden_from(&self, player: CorePlayer) -> bool {
        false
    }

    fn should_mask(&self, player: CorePlayer) -> (r: bool) {
        false
    }

    /// As the message's type says (see `awaits_answer` of a type).
    open spec fn awaits_answer(&self) -> bool {
        crate::single_duel::awaits_answer(MessageType::MissedEffect)
    }

    fn waiting_for_answer(&self) -> (r: bool) {
        crate::single_duel::is_prompt(MessageType::MissedEffect)
    }
}

impl Mask for BeChainTarget {
    /// Nothing of the message is hidden.
    open spec fn is_masked_of(self, unmasked: BeChainTarget) -> bool {
        self == unmasked
    }

    /// Nothing of the message is hidden.
    open spec fn is_masked_towards(self, unmasked: BeChainTarget, player: CorePlayer) -> bool {
        self == unmasked
    }

    fn mask(&mut self) {
    }

    fn mask_towards(&mut self, player: CorePlayer) {
    }
}

impl MaskedClone for BeChainTarget {
    fn clone_masked(&self) -> (r: BeChainTarget) {
        *self
    }
}

impl GameMessage for BeChainTarget {
    /// Hidden from no one.
    open spec fn hidden_from(&self, player: CorePlayer) -> bool {
        false
    }

    fn should_mask(&self, player: CorePlayer) -> (r: bool) {
        false
    }

    /// As the message's type says (see `awaits_answer` of a type).
    open spec fn awaits_answer(&self) -> bool {
        crate::single_duel::awaits_answer(MessageType::BeChainTarget)
    }

    fn waiting_for_answer(&self) -> (r: bool) {
        crate::single_duel::is_prompt(MessageType::BeChainTarget)
    }
}

impl Mask for CreateRelation {
    /// Nothing of the message is hidden.
    open spec fn is_masked_of(self, unmasked: CreateRelation) -> bool {
        self == unmasked
    }

    /// Nothing of the message is hidden.
    open spec fn is_masked_towards(self, unmasked: CreateRelation, player: CorePlayer) -> bool {
        self == unmasked
    }

    fn mask(&mut self) {
    }

    fn mask_towards(&mut self, player: CorePlayer) {
    }
}

impl MaskedClone for CreateRelation {
    fn clone_masked(&self) -> (r: CreateRelation) {
        *self
    }
}

impl GameMessage for CreateRelation {
    /// Hidden from no one.
    open spec fn hidden_from(&self, player: CorePlayer) -> bool {
        false
    }

    fn should_mask(&self, player: CorePlayer) -> (r: bool) {
        false
    }

    /// As the message's type says (see `awaits_answer` of a type).
    open spec fn awaits_answer(&self) -> bool {
        crate::single_duel::awaits_answer(MessageType::CreateRelation)
    }

    fn waiting_for_answer(&self) -> (r: bool) {
        crate::single_duel::is_prompt(MessageType::CreateRelation)
    }
}

impl Mask for ReleaseRelation {
    /// Nothing of the message is hidden.
    open spec fn is_masked_of(self, unmasked: ReleaseRelation) -> bool {
        self == unmasked
    }

    /// Nothing of the message is hidden.
    open spec fn is_masked_towards(self, unmasked: ReleaseRelation, player: CorePlayer) -> bool {
        self == unmasked
    }

    fn mask(&mut self) {
    }

    fn mask_towards(&mut self, player: CorePlayer) {
    }
}

impl MaskedClone for ReleaseRelation {
    fn clone_masked(&self) -> (r: ReleaseRelation) {
        *self
    }
}

impl GameMessage for ReleaseRelation {
    /// Hidden from no one.
    open spec fn hidden_from(&self, player: CorePlayer) -> bool {
        false
    }

    fn should_mask(&self, player: CorePlayer) -> (r: bool) {
        false
    }

    /// As the message's type says (see `awaits_answer` of a type).
    open spec fn awaits_answer(&self) -> bool {
        crate::single_duel::awaits_answer(MessageType::ReleaseRelation)
    }

    fn waiting_for_answer(&self) -> (r: bool) {
        crate::single_duel::is_prompt(MessageType::ReleaseRelation)
    }
}

impl Mask for RockPaperScissors {
    /// Nothing of the message is hidden.
    open spec fn is_masked_of(self, unmasked: RockPaperScissors) -> bool {
        self == unmasked
    }

    /// Nothing of the message is hidden.
    open spec fn is_masked_towards(self, unmasked: RockPaperScissors, player: CorePlayer) -> bool {
        self == unmasked
    }

    fn mask(&mut self) {
    }

    fn mask_towards(&mut self, player: CorePlayer) {
    }
}

impl MaskedClone for RockPaperScissors {
    fn clone_masked(&self) -> (r: RockPaperScissors) {
        *self
    }
}

impl GameMessage for RockPaperScissors {
    /// Hidden from no one.
    open spec fn hidden_from(&self, player: CorePlayer) -> bool {
        false
    }

    fn should_mask(&self, player: CorePlayer) -> (r: bool) {
        false
    }

    /// As the message's type says (see `awaits_answer` of a type).
    open spec fn awaits_answer(&self) -> bool {
        crate::single_duel::awaits_answer(MessageType::RockPaperScissors)
    }

    fn waiting_for_answer(&self) -> (r: bool) {
        crate::single_duel::is_prompt(MessageType::RockPaperScissors)
    }
}

impl Mask for AnnounceRace {
    /// Nothing of the message is hidden.
    open spec fn is_masked_of(self, unmasked: AnnounceRace) -> bool {
        self == unmasked
    }

    /// Nothing of the message is hidden.
    open spec fn is_masked_towards(self, unmasked: AnnounceRace, player: CorePlayer) -> bool {
        self == unmasked
    }

    fn mask(&mut self) {
    }

    fn mask_towards(&mut self, player: CorePlayer) {
    }
}

impl MaskedClone for AnnounceRace {
    fn clone_masked(&self) -> (r: AnnounceRace) {
        *self
    }
}

impl GameMessage for AnnounceRace {
    /// Hidden from no one.
    open spec fn hidden_from(&self, player: CorePlayer) -> bool {
        false
    }

    fn should_mask(&self, player: CorePlayer) -> (r: bool) {
        false
    }

    /// As the message's type says (see `awaits_answer` of a type).
    open spec fn awaits_answer(&self) -> bool {
        crate::single_duel::awaits_answer(MessageType::AnnounceRace)
    }

    fn waiting_for_answer(&self) -> (r: bool) {
        crate::single_duel::is_prompt(MessageType::AnnounceRace)
    }
}

impl Mask for AnnounceAttribute {
    /// Nothing of the message is hidden.
    open spec fn is_masked_of(self, unmasked: AnnounceAttribute) -> bool {
        self == unmasked
    }

    /// Nothing of the message is hidden.
    open spec fn is_masked_towards(self, unmasked: AnnounceAttribute, player: CorePlayer) -> bool {
        self == unmasked
    }

    fn mask(&mut self) {
    }

    fn mask_towards(&mut self, player: CorePlayer) {
    }
}

impl MaskedClone for AnnounceAttribute {
    fn clone_masked(&self) -> (r: AnnounceAttribute) {
        *self
    }
}

impl GameMessage for AnnounceAttribute {
    /// Hidden from no one.
    open spec fn hidden_from(&self, player: CorePlayer) -> bool {
        false
    }

    fn should_mask(&self, player: CorePlayer) -> (r: bool) {
        false
    }

    /// As the message's type says (see `awaits_answer` of a type).
    open spec fn awaits_answer(&self) -> bool {
        crate::single_duel::awaits_answer(MessageType::AnnounceAttribute)
    }

    fn waiting_for_answer(&self) -> (r: bool) {
        crate::single_duel::is_prompt(MessageType::AnnounceAttribute)
    }
}

impl Mask for TagSwap {
    /// Nothing of the message is hidden.
    open spec fn is_masked_of(self, unmasked: TagSwap) -> bool {
        self == unmasked
    }

    /// Nothing of the message is hidden.
    open spec fn is_masked_towards(self, unmasked: TagSwap, player: CorePlayer) -> bool {
        self == unmasked
    }

    fn mask(&mut self) {
    }

    fn mask_towards(&mut self, player: CorePlayer) {
    }
}

impl MaskedClone for TagSwap {
    fn clone_masked(&self) -> (r: TagSwap) {
        *self
    }
}

impl GameMessage for TagSwap {
    /// Hidden from no one.
    open spec fn hidden_from(&self, player: CorePlayer) -> bool {
        false
    }

    fn should_mask(&self, player: CorePlayer) -> (r: bool) {
        false
    }

    /// As the message's type says (see `awaits_answer` of a type).
    open spec fn awaits_answer(&self) -> bool {
        crate::single_duel::awaits_answer(MessageType::TagSwap)
    }

    fn waiting_for_answer(&self) -> (r: bool) {
        crate::single_duel::is_prompt(MessageType::TagSwap)
    }
}

impl Mask for PlayerHint {
    /// Nothing of the message is hidden.
    open spec fn is_masked_of(self, unmasked: PlayerHint) -> bool {
        self == unmasked
    }

    /// Nothing of the message is hidden.
    open spec fn is_masked_towards(self, unmasked: PlayerHint, player: CorePlayer) -> bool {
        self == unmasked
    }

    fn mask(&mut self) {
    }

    fn mask_towards(&mut self, player: CorePlayer) {
    }
}

impl MaskedClone for PlayerHint {
    fn clone_masked(&self) -> (r: PlayerHint) {
        *self
    }
}

impl GameMessage for PlayerHint {
    /// Hidden from no one.
    open spec fn hidden_from(&self, player: CorePlayer) -> bool {
        false
    }

    fn should_mask(&self, player: CorePlayer) -> (r: bool) {
        false
    }

    /// As the message's type says (see `awaits_answer` of a type).
    open spec fn awaits_answer(&self) -> bool {
        crate::single_duel::awaits_answer(MessageType::PlayerHint)
    }

    fn waiting_for_answer(&self) -> (r: bool) {
        crate::single_duel::is_prompt(MessageType::PlayerHint)
    }
}

impl Mask for MatchKill {
    /// Nothing of the message is hidden.
    open spec fn is_masked_of(self, unmasked: MatchKill) -> bool {
        self == unmasked
    }

    /// Nothing of the message is hidden.
    open spec fn is_masked_towards(self, unmasked: MatchKill, player: CorePlayer) -> bool {
        self == unmasked
    }

    fn mask(&mut self) {
    }

    fn mask_towards(&mut self, player: CorePlayer) {
    }
}

impl MaskedClone for MatchKill {
    fn clone_masked(&self) -> (r: MatchKill) {
        *self
    }
}

impl GameMessage for MatchKill {
    /// Hidden from no one.
    open spec fn hidden_from(&self, player: CorePlayer) -> bool {
        false
    }

    fn should_mask(&self, player: CorePlayer) -> (r: bool) {
        false
    }

    /// As the message's type says (see `awaits_answer` of a type).
    open spec fn awaits_answer(&self) -> bool {
        crate::single_duel::awaits_answer(MessageType::MatchKill)
    }

    fn waiting_for_answer(&self) -> (r: bool) {
        crate::single_duel::is_prompt(MessageType::MatchKill)
    }
}

} // verus!
