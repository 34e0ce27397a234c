//! Messages a client sends to the server.
use vstd::prelude::*;

use crate::bytes::{
    lemma_push16, lemma_push32, lemma_u16s_round_trip, push16, push32, push_u16s, put_u16,
    put_u32, read_u16, read_u32, u16_at, u16s_at, u16s_bytes, u32_at, ReadError,
};
use crate::constants::{CorePlayer, Hand};
use crate::deck::{deck_wire_bytes, parse_deck_wire, Deck};
use crate::replay_body::{read_name_from, take_name};

verus! {

/// The kind of a client-to-server message, named by its flag byte.
///
/// `Unknown` holds a flag byte that names no client-to-server message.
#[derive(Clone, Copy, Debug, PartialEq, Eq, Structural, PartialOrd, Ord, Hash)]
pub enum MessageType {
    Unknown(u8),
    Response,
    UpdateDeck,
    HandResult,
    TpResult,
    PlayerInfo,
    CreateGame,
    JoinGame,
    LeaveGame,
    Surrender,
    TimeConfirm,
    Chat,
    ExternalAddress,
    HsToDuelist,
    HsToObserver,
    HsReady,
    HsNotReady,
    HsKick,
    HsStart,
    RequestField,
}

impl MessageType {
    /// The flag byte of each message type.
    pub open spec fn code(self) -> u8 {
        match self {
            MessageType::Unknown(v) => v,
            MessageType::Response => 1u8,
            MessageType::UpdateDeck => 2u8,
            MessageType::HandResult => 3u8,
            MessageType::TpResult => 4u8,
            MessageType::PlayerInfo => 16u8,
            MessageType::CreateGame => 17u8,
            MessageType::JoinGame => 18u8,
            MessageType::LeaveGame => 19u8,
            MessageType::Surrender => 20u8,
            MessageType::TimeConfirm => 21u8,
            MessageType::Chat => 22u8,
            MessageType::ExternalAddress => 23u8,
            MessageType::HsToDuelist => 32u8,
            MessageType::HsToObserver => 33u8,
            MessageType::HsReady => 34u8,
            MessageType::HsNotReady => 35u8,
            MessageType::HsKick => 36u8,
            MessageType::HsStart => 37u8,
            MessageType::RequestField => 48u8,
        }
    }

    /// The message type a flag byte stands for: `Unknown` holds a byte that names
    /// no message type.
    pub open spec fn of_code(v: u8) -> MessageType {
        match v {
            1u8 => MessageType::Response,
            2u8 => MessageType::UpdateDeck,
            3u8 => MessageType::HandResult,
            4u8 => MessageType::TpResult,
            16u8 => MessageType::PlayerInfo,
            17u8 => MessageType::CreateGame,
            18u8 => MessageType::JoinGame,
            19u8 => MessageType::LeaveGame,
            20u8 => MessageType::Surrender,
            21u8 => MessageType::TimeConfirm,
            22u8 => MessageType::Chat,
            23u8 => MessageType::ExternalAddress,
            32u8 => MessageType::HsToDuelist,
            33u8 => MessageType::HsToObserver,
            34u8 => MessageType::HsReady,
            35u8 => MessageType::HsNotReady,
            36u8 => MessageType::HsKick,
            37u8 => MessageType::HsStart,
            48u8 => MessageType::RequestField,
            _ => MessageType::Unknown(v),
        }
    }

    /// Whether this is the value that its flag byte reads as (an `Unknown` holding
    /// the flag of a known type is not).
    pub open spec fn is_canonical(self) -> bool {
        MessageType::of_code(self.code()) == self
    }

    /// The message type a flag byte stands for.
    pub fn from_u8(v: u8) -> (r: MessageType)
        ensures
            r == MessageType::of_code(v),
            r.code() == v,
    {
        match v {
            1u8 => MessageType::Response,
            2u8 => MessageType::UpdateDeck,
            3u8 => MessageType::HandResult,
            4u8 => MessageType::TpResult,
            16u8 => MessageType::PlayerInfo,
            17u8 => MessageType::CreateGame,
            18u8 => MessageType::JoinGame,
            19u8 => MessageType::LeaveGame,
            20u8 => MessageType::Surrender,
            21u8 => MessageType::TimeConfirm,
            22u8 => MessageType::Chat,
            23u8 => MessageType::ExternalAddress,
            32u8 => MessageType::HsToDuelist,
            33u8 => MessageType::HsToObserver,
            34u8 => MessageType::HsReady,
            35u8 => MessageType::HsNotReady,
            36u8 => MessageType::HsKick,
            37u8 => MessageType::HsStart,
            48u8 => MessageType::RequestField,
            _ => MessageType::Unknown(v),
        }
    }

    /// The flag byte of this message type.
    pub fn to_u8(&self) -> (r: u8)
        ensures
            r == self.code(),
    {
        match *self {
            MessageType::Unknown(v) => v,
            MessageType::Response => 1u8,
            MessageType::UpdateDeck => 2u8,
            MessageType::HandResult => 3u8,
            MessageType::TpResult => 4u8,
            MessageType::PlayerInfo => 16u8,
            MessageType::CreateGame => 17u8,
            MessageType::JoinGame => 18u8,
            MessageType::LeaveGame => 19u8,
            MessageType::Surrender => 20u8,
            MessageType::TimeConfirm => 21u8,
            MessageType::Chat => 22u8,
            MessageType::ExternalAddress => 23u8,
            MessageType::HsToDuelist => 32u8,
            MessageType::HsToObserver => 33u8,
            MessageType::HsReady => 34u8,
            MessageType::HsNotReady => 35u8,
            MessageType::HsKick => 36u8,
            MessageType::HsStart => 37u8,
            MessageType::RequestField => 48u8,
        }
    }

    /// Append the flag byte.
    pub fn write(&self, out: &mut Vec<u8>)
        ensures
            final(out)@ == old(out)@.push(self.code()),
    {
        out.push(self.to_u8());
    }

    /// Read a message type from the first byte of `data`.
    pub fn read(data: &[u8]) -> (r: Result<MessageType, ReadError>)
        ensures
            data@.len() == 0 ==> r == Err::<MessageType, ReadError>(ReadError::UnexpectedEnd),
            data@.len() > 0 ==> r == Ok::<MessageType, ReadError>(MessageType::of_code(data@[0])),
    {
        if data.len() == 0 {
            Err(ReadError::UnexpectedEnd)
        } else {
            Ok(MessageType::from_u8(data[0]))
        }
    }
}

/// A flag byte reads as a message type that is written back as the same byte, and a
/// message type that is its flag's reading is read back from that flag.
pub proof fn lemma_message_type_round_trip(v: u8, t: MessageType)
    ensures
        MessageType::of_code(v).code() == v,
        MessageType::of_code(v).is_canonical(),
        t.is_canonical() ==> MessageType::of_code(t.code()) == t,
{
}

/// The hand a player shows at rock-paper-scissors.
#[derive(Clone, Copy, Debug, PartialEq, Eq, Structural)]
pub struct HandResult {
    pub res: Hand,
}

impl HandResult {
    /// The type of this message.
    pub fn message_type() -> (r: MessageType)
        ensures
            r == MessageType::HandResult,
    {
        MessageType::HandResult
    }

    /// The number of bytes of the message body.
    pub open spec fn size() -> nat {
        1
    }

    /// `s` followed by the wire bytes of the message body.
    pub open spec fn bytes_after(self, s: Seq<u8>) -> Seq<u8> {
        s.push(self.res.code())
    }

    /// The wire bytes of the message body.
    pub open spec fn bytes(self) -> Seq<u8> {
        self.bytes_after(Seq::empty())
    }

    /// How the bytes `d` read as the message body.
    pub open spec fn parse(d: Seq<u8>) -> Result<HandResult, ReadError> {
        if d.len() < 1 {
            Err(ReadError::UnexpectedEnd)
        } else {
            match Hand::of_code(d[0]) {
                None => Err(ReadError::NoVariantMatch),
                Some(res) => {
                    Ok(HandResult { res: res })
                    },
                }
        }
    }

    /// Append the wire bytes of the message body.
    pub fn write(&self, out: &mut Vec<u8>)
        ensures
            final(out)@ == self.bytes_after(old(out)@),
    {
        out.push(self.res.value());
    }

    /// The wire bytes of the message body.
    pub fn to_bytes(&self) -> (r: Vec<u8>)
        ensures
            r@ == self.bytes(),
    {
        let mut out: Vec<u8> = Vec::new();
        self.write(&mut out);
        out
    }

    /// Read the message body from the bytes `d` (bytes after it are left).
    pub fn read(d: &[u8]) -> (r: Result<HandResult, ReadError>)
        ensures
            r == HandResult::parse(d@),
    {
        if d.len() < 1 {
            return Err(ReadError::UnexpectedEnd);
        }
        let res = match Hand::from_value(d[0]) {
            Some(x) => x,
            None => return Err(ReadError::NoVariantMatch),
        };
        Ok(HandResult { res: res })
    }

    /// The body written and read back is the same message.
    pub proof fn lemma_round_trip(self)
        ensures
            HandResult::parse(self.bytes()) == Ok::<HandResult, ReadError>(self),
            self.bytes().len() == HandResult::size(),
    {
        let s0 = Seq::<u8>::empty();
        let s1 = s0.push(self.res.code());
        let b = s1;
        assert(b == self.bytes());
    }
}

/// The winner of rock-paper-scissors chooses who goes first: the engine's number of
/// the duelist to go first.
#[derive(Clone, Copy, Debug, PartialEq, Eq, Structural)]
pub struct TpResult {
    pub result: CorePlayer,
}

impl TpResult {
    /// The type of this message.
    pub fn message_type() -> (r: MessageType)
        ensures
            r == MessageType::TpResult,
    {
        MessageType::TpResult
    }

    /// The number of bytes of the message body.
    pub open spec fn size() -> nat {
        1
    }

    /// `s` followed by the wire bytes of the message body.
    pub open spec fn bytes_after(self, s: Seq<u8>) -> Seq<u8> {
        s.push(self.result.code())
    }

    /// The wire bytes of the message body.
    pub open spec fn bytes(self) -> Seq<u8> {
        self.bytes_after(Seq::empty())
    }

    /// How the bytes `d` read as the message body.
    pub open spec fn parse(d: Seq<u8>) -> Result<TpResult, ReadError> {
        if d.len() < 1 {
            Err(ReadError::UnexpectedEnd)
        } else {
            match CorePlayer::of_code(d[0]) {
                Some(result) => Ok(TpResult { result }),
                None => Err(ReadError::NoVariantMatch),
            }
        }
    }

    /// Append the wire bytes of the message body.
    pub fn write(&self, out: &mut Vec<u8>)
        ensures
            final(out)@ == self.bytes_after(old(out)@),
    {
        out.push(self.result.value());
    }

    /// The wire bytes of the message body.
    pub fn to_bytes(&self) -> (r: Vec<u8>)
        ensures
            r@ == self.bytes(),
    {
        let mut out: Vec<u8> = Vec::new();
        self.write(&mut out);
        out
    }

    /// Read the message body from the bytes `d` (bytes after it are left).
    pub fn read(d: &[u8]) -> (r: Result<TpResult, ReadError>)
        ensures
            r == TpResult::parse(d@),
    {
        if d.len() < 1 {
            return Err(ReadError::UnexpectedEnd);
        }
        match CorePlayer::from_value(d[0]) {
            Some(result) => Ok(TpResult { result }),
            None => Err(ReadError::NoVariantMatch),
        }
    }

    /// The body written and read back is the same message.
    pub proof fn lemma_round_trip(self)
        ensures
            TpResult::parse(self.bytes()) == Ok::<TpResult, ReadError>(self),
            self.bytes().len() == TpResult::size(),
    {
    }
}

/// A player leaves the room.
#[derive(Clone, Copy, Debug, PartialEq, Eq, Structural)]
pub struct LeaveGame;

impl LeaveGame {
    /// The type of this message.
    pub fn message_type() -> (r: MessageType)
        ensures
            r == MessageType::LeaveGame,
    {
        MessageType::LeaveGame
    }

    /// The number of bytes of the message body.
    pub open spec fn size() -> nat {
        0
    }

    /// `s` followed by the wire bytes of the message body.
    pub open spec fn bytes_after(self, s: Seq<u8>) -> Seq<u8> {
        s
    }

    /// The wire bytes of the message body.
    pub open spec fn bytes(self) -> Seq<u8> {
        self.bytes_after(Seq::empty())
    }

    /// How the bytes `d` read as the message body.
    pub open spec fn parse(d: Seq<u8>) -> Result<LeaveGame, ReadError> {
        Ok(LeaveGame)
    }

    /// Append the wire bytes of the message body.
    pub fn write(&self, out: &mut Vec<u8>)
        ensures
            final(out)@ == self.bytes_after(old(out)@),
    {
    }

    /// The wire bytes of the message body.
    pub fn to_bytes(&self) -> (r: Vec<u8>)
        ensures
            r@ == self.bytes(),
    {
        let mut out: Vec<u8> = Vec::new();
        self.write(&mut out);
        out
    }

    /// Read the message body from the bytes `d` (bytes after it are left).
    pub fn read(d: &[u8]) -> (r: Result<LeaveGame, ReadError>)
        ensures
            r == LeaveGame::parse(d@),
    {
        Ok(LeaveGame)
    }

    /// The body written and read back is the same message.
    pub proof fn lemma_round_trip(self)
        ensures
            LeaveGame::parse(self.bytes()) == Ok::<LeaveGame, ReadError>(self),
            self.bytes().len() == LeaveGame::size(),
    {
        let s0 = Seq::<u8>::empty();
        let b = s0;
        assert(b == self.bytes());
    }
}

/// A player surrenders.
#[derive(Clone, Copy, Debug, PartialEq, Eq, Structural)]
pub struct Surrender;

impl Surrender {
    /// The type of this message.
    pub fn message_type() -> (r: MessageType)
        ensures
            r == MessageType::Surrender,
    {
        MessageType::Surrender
    }

    /// The number of bytes of the message body.
    pub open spec fn size() -> nat {
        0
    }

    /// `s` followed by the wire bytes of the message body.
    pub open spec fn bytes_after(self, s: Seq<u8>) -> Seq<u8> {
        s
    }

    /// The wire bytes of the message body.
    pub open spec fn bytes(self) -> Seq<u8> {
        self.bytes_after(Seq::empty())
    }

    /// How the bytes `d` read as the message body.
    pub open spec fn parse(d: Seq<u8>) -> Result<Surrender, ReadError> {
        Ok(Surrender)
    }

    /// Append the wire bytes of the message body.
    pub fn write(&self, out: &mut Vec<u8>)
        ensures
            final(out)@ == self.bytes_after(old(out)@),
    {
    }

    /// The wire bytes of the message body.
    pub fn to_bytes(&self) -> (r: Vec<u8>)
        ensures
            r@ == self.bytes(),
    {
        let mut out: Vec<u8> = Vec::new();
        self.write(&mut out);
        out
    }

    /// Read the message body from the bytes `d` (bytes after it are left).
    pub fn read(d: &[u8]) -> (r: Result<Surrender, ReadError>)
        ensures
            r == Surrender::parse(d@),
    {
        Ok(Surrender)
    }

    /// The body written and read back is the same message.
    pub proof fn lemma_round_trip(self)
        ensures
            Surrender::parse(self.bytes()) == Ok::<Surrender, ReadError>(self),
            self.bytes().len() == Surrender::size(),
    {
        let s0 = Seq::<u8>::empty();
        let b = s0;
        assert(b == self.bytes());
    }
}

/// A player confirms the time limit.
#[derive(Clone, Copy, Debug, PartialEq, Eq, Structural)]
pub struct TimeConfirm;

impl TimeConfirm {
    /// The type of this message.
    pub fn message_type() -> (r: MessageType)
        ensures
            r == MessageType::TimeConfirm,
    {
        MessageType::TimeConfirm
    }

    /// The number of bytes of the message body.
    pub open spec fn size() -> nat {
        0
    }

    /// `s` followed by the wire bytes of the message body.
    pub open spec fn bytes_after(self, s: Seq<u8>) -> Seq<u8> {
        s
    }

    /// The wire bytes of the message body.
    pub open spec fn bytes(self) -> Seq<u8> {
        self.bytes_after(Seq::empty())
    }

    /// How the bytes `d` read as the message body.
    pub open spec fn parse(d: Seq<u8>) -> Result<TimeConfirm, ReadError> {
        Ok(TimeConfirm)
    }

    /// Append the wire bytes of the message body.
    pub fn write(&self, out: &mut Vec<u8>)
        ensures
            final(out)@ == self.bytes_after(old(out)@),
    {
    }

    /// The wire bytes of the message body.
    pub fn to_bytes(&self) -> (r: Vec<u8>)
        ensures
            r@ == self.bytes(),
    {
        let mut out: Vec<u8> = Vec::new();
        self.write(&mut out);
        out
    }

    /// Read the message body from the bytes `d` (bytes after it are left).
    pub fn read(d: &[u8]) -> (r: Result<TimeConfirm, ReadError>)
        ensures
            r == TimeConfirm::parse(d@),
    {
        Ok(TimeConfirm)
    }

    /// The body written and read back is the same message.
    pub proof fn lemma_round_trip(self)
        ensures
            TimeConfirm::parse(self.bytes()) == Ok::<TimeConfirm, ReadError>(self),
            self.bytes().len() == TimeConfirm::size(),
    {
        let s0 = Seq::<u8>::empty();
        let b = s0;
        assert(b == self.bytes());
    }
}

/// An observer asks for a seat.
#[derive(Clone, Copy, Debug, PartialEq, Eq, Structural)]
pub struct HsToDuelist;

impl HsToDuelist {
    /// The type of this message.
    pub fn message_type() -> (r: MessageType)
        ensures
            r == MessageType::HsToDuelist,
    {
        MessageType::HsToDuelist
    }

    /// The number of bytes of the message body.
    pub open spec fn size() -> nat {
        0
    }

    /// `s` followed by the wire bytes of the message body.
    pub open spec fn bytes_after(self, s: Seq<u8>) -> Seq<u8> {
        s
    }

    /// The wire bytes of the message body.
    pub open spec fn bytes(self) -> Seq<u8> {
        self.bytes_after(Seq::empty())
    }

    /// How the bytes `d` read as the message body.
    pub open spec fn parse(d: Seq<u8>) -> Result<HsToDuelist, ReadError> {
        Ok(HsToDuelist)
    }

    /// Append the wire bytes of the message body.
    pub fn write(&self, out: &mut Vec<u8>)
        ensures
            final(out)@ == self.bytes_after(old(out)@),
    {
    }

    /// The wire bytes of the message body.
    pub fn to_bytes(&self) -> (r: Vec<u8>)
        ensures
            r@ == self.bytes(),
    {
        let mut out: Vec<u8> = Vec::new();
        self.write(&mut out);
        out
    }

    /// Read the message body from the bytes `d` (bytes after it are left).
    pub fn read(d: &[u8]) -> (r: Result<HsToDuelist, ReadError>)
        ensures
            r == HsToDuelist::parse(d@),
    {
        Ok(HsToDuelist)
    }

    /// The body written and read back is the same message.
    pub proof fn lemma_round_trip(self)
        ensures
            HsToDuelist::parse(self.bytes()) == Ok::<HsToDuelist, ReadError>(self),
            self.bytes().len() == HsToDuelist::size(),
    {
        let s0 = Seq::<u8>::empty();
        let b = s0;
        assert(b == self.bytes());
    }
}

/// A player asks to observe.
#[derive(Clone, Copy, Debug, PartialEq, Eq, Structural)]
pub struct HsToObserver;

impl HsToObserver {
    /// The type of this message.
    pub fn message_type() -> (r: MessageType)
        ensures
            r == MessageType::HsToObserver,
    {
        MessageType::HsToObserver
    }

    /// The number of bytes of the message body.
    pub open spec fn size() -> nat {
        0
    }

    /// `s` followed by the wire bytes of the message body.
    pub open spec fn bytes_after(self, s: Seq<u8>) -> Seq<u8> {
        s
    }

    /// The wire bytes of the message body.
    pub open spec fn bytes(self) -> Seq<u8> {
        self.bytes_after(Seq::empty())
    }

    /// How the bytes `d` read as the message body.
    pub open spec fn parse(d: Seq<u8>) -> Result<HsToObserver, ReadError> {
        Ok(HsToObserver)
    }

    /// Append the wire bytes of the message body.
    pub fn write(&self, out: &mut Vec<u8>)
        ensures
            final(out)@ == self.bytes_after(old(out)@),
    {
    }

    /// The wire bytes of the message body.
    pub fn to_bytes(&self) -> (r: Vec<u8>)
        ensures
            r@ == self.bytes(),
    {
        let mut out: Vec<u8> = Vec::new();
        self.write(&mut out);
        out
    }

    /// Read the message body from the bytes `d` (bytes after it are left).
    pub fn read(d: &[u8]) -> (r: Result<HsToObserver, ReadError>)
        ensures
            r == HsToObserver::parse(d@),
    {
        Ok(HsToObserver)
    }

    /// The body written and read back is the same message.
    pub proof fn lemma_round_trip(self)
        ensures
            HsToObserver::parse(self.bytes()) == Ok::<HsToObserver, ReadError>(self),
            self.bytes().len() == HsToObserver::size(),
    {
        let s0 = Seq::<u8>::empty();
        let b = s0;
        assert(b == self.bytes());
    }
}

/// A player is ready.
#[derive(Clone, Copy, Debug, PartialEq, Eq, Structural)]
pub struct HsReady;

impl HsReady {
    /// The type of this message.
    pub fn message_type() -> (r: MessageType)
        ensures
            r == MessageType::HsReady,
    {
        MessageType::HsReady
    }

    /// The number of bytes of the message body.
    pub open spec fn size() -> nat {
        0
    }

    /// `s` followed by the wire bytes of the message body.
    pub open spec fn bytes_after(self, s: Seq<u8>) -> Seq<u8> {
        s
    }

    /// The wire bytes of the message body.
    pub open spec fn bytes(self) -> Seq<u8> {
        self.bytes_after(Seq::empty())
    }

    /// How the bytes `d` read as the message body.
    pub open spec fn parse(d: Seq<u8>) -> Result<HsReady, ReadError> {
        Ok(HsReady)
    }

    /// Append the wire bytes of the message body.
    pub fn write(&self, out: &mut Vec<u8>)
        ensures
            final(out)@ == self.bytes_after(old(out)@),
    {
    }

    /// The wire bytes of the message body.
    pub fn to_bytes(&self) -> (r: Vec<u8>)
        ensures
            r@ == self.bytes(),
    {
        let mut out: Vec<u8> = Vec::new();
        self.write(&mut out);
        out
    }

    /// Read the message body from the bytes `d` (bytes after it are left).
    pub fn read(d: &[u8]) -> (r: Result<HsReady, ReadError>)
        ensures
            r == HsReady::parse(d@),
    {
        Ok(HsReady)
    }

    /// The body written and read back is the same message.
    pub proof fn lemma_round_trip(self)
        ensures
            HsReady::parse(self.bytes()) == Ok::<HsReady, ReadError>(self),
            self.bytes().len() == HsReady::size(),
    {
        let s0 = Seq::<u8>::empty();
        let b = s0;
        assert(b == self.bytes());
    }
}

/// A player is not ready.
#[derive(Clone, Copy, Debug, PartialEq, Eq, Structural)]
pub struct HsNotReady;

impl HsNotReady {
    /// The type of this message.
    pub fn message_type() -> (r: MessageType)
        ensures
            r == MessageType::HsNotReady,
    {
        MessageType::HsNotReady
    }

    /// The number of bytes of the message body.
    pub open spec fn size() -> nat {
        0
    }

    /// `s` followed by the wire bytes of the message body.
    pub open spec fn bytes_after(self, s: Seq<u8>) -> Seq<u8> {
        s
    }

    /// The wire bytes of the message body.
    pub open spec fn bytes(self) -> Seq<u8> {
        self.bytes_after(Seq::empty())
    }

    /// How the bytes `d` read as the message body.
    pub open spec fn parse(d: Seq<u8>) -> Result<HsNotReady, ReadError> {
        Ok(HsNotReady)
    }

    /// Append the wire bytes of the message body.
    pub fn write(&self, out: &mut Vec<u8>)
        ensures
            final(out)@ == self.bytes_after(old(out)@),
    {
    }

    /// The wire bytes of the message body.
    pub fn to_bytes(&self) -> (r: Vec<u8>)
        ensures
            r@ == self.bytes(),
    {
        let mut out: Vec<u8> = Vec::new();
        self.write(&mut out);
        out
    }

    /// Read the message body from the bytes `d` (bytes after it are left).
    pub fn read(d: &[u8]) -> (r: Result<HsNotReady, ReadError>)
        ensures
            r == HsNotReady::parse(d@),
    {
        Ok(HsNotReady)
    }

    /// The body written and read back is the same message.
    pub proof fn lemma_round_trip(self)
        ensures
            HsNotReady::parse(self.bytes()) == Ok::<HsNotReady, ReadError>(self),
            self.bytes().len() == HsNotReady::size(),
    {
        let s0 = Seq::<u8>::empty();
        let b = s0;
        assert(b == self.bytes());
    }
}

/// The host removes the player in a seat.
#[derive(Clone, Copy, Debug, PartialEq, Eq, Structural)]
pub struct HsKick {
    pub pos: u8,
}

impl HsKick {
    /// The type of this message.
    pub fn message_type() -> (r: MessageType)
        ensures
            r == MessageType::HsKick,
    {
        MessageType::HsKick
    }

    /// The number of bytes of the message body.
    pub open spec fn size() -> nat {
        1
    }

    /// `s` followed by the wire bytes of the message body.
    pub open spec fn bytes_after(self, s: Seq<u8>) -> Seq<u8> {
        s.push(self.pos)
    }

    /// The wire bytes of the message body.
    pub open spec fn bytes(self) -> Seq<u8> {
        self.bytes_after(Seq::empty())
    }

    /// How the bytes `d` read as the message body.
    pub open spec fn parse(d: Seq<u8>) -> Result<HsKick, ReadError> {
        if d.len() < 1 {
            Err(ReadError::UnexpectedEnd)
        } else {
            let pos = d[0];
            Ok(HsKick { pos: pos })
        }
    }

    /// Append the wire bytes of the message body.
    pub fn write(&self, out: &mut Vec<u8>)
        ensures
            final(out)@ == self.bytes_after(old(out)@),
    {
        out.push(self.pos);
    }

    /// The wire bytes of the message body.
    pub fn to_bytes(&self) -> (r: Vec<u8>)
        ensures
            r@ == self.bytes(),
    {
        let mut out: Vec<u8> = Vec::new();
        self.write(&mut out);
        out
    }

    /// Read the message body from the bytes `d` (bytes after it are left).
    pub fn read(d: &[u8]) -> (r: Result<HsKick, ReadError>)
        ensures
            r == HsKick::parse(d@),
    {
        if d.len() < 1 {
            return Err(ReadError::UnexpectedEnd);
        }
        let pos = d[0];
        Ok(HsKick { pos: pos })
    }

    /// The body written and read back is the same message.
    pub proof fn lemma_round_trip(self)
        ensures
            HsKick::parse(self.bytes()) == Ok::<HsKick, ReadError>(self),
            self.bytes().len() == HsKick::size(),
    {
        let s0 = Seq::<u8>::empty();
        let s1 = s0.push(self.pos);
        let b = s1;
        assert(b == self.bytes());
    }
}

/// A client asks to join a room: its protocol version, the room's id and the room's
/// password (20 UTF-16 units, zero-padded). Two unused bytes follow the version.
#[derive(Clone, Copy, Debug)]
pub struct JoinGame {
    pub version: u16,
    pub gameid: u32,
    pub pass: [u16; 20],
}

impl JoinGame {
    /// The type of this message.
    pub fn message_type() -> (r: MessageType)
        ensures
            r == MessageType::JoinGame,
    {
        MessageType::JoinGame
    }

    /// The number of bytes of the message body.
    pub open spec fn size() -> nat {
        48
    }

    /// The message as plain values.
    pub open spec fn view(&self) -> (u16, u32, Seq<u16>) {
        (self.version, self.gameid, self.pass@)
    }

    /// `s` followed by the wire bytes of the message body.
    pub open spec fn bytes_after(self, s: Seq<u8>) -> Seq<u8> {
        push32(push16(s, self.version).push(0).push(0), self.gameid) + u16s_bytes(self.pass@)
    }

    /// The wire bytes of the message body.
    pub open spec fn bytes(self) -> Seq<u8> {
        self.bytes_after(Seq::empty())
    }

    /// How the bytes `d` read as the message body.
    pub open spec fn parse(d: Seq<u8>) -> Result<(u16, u32, Seq<u16>), ReadError> {
        if d.len() < 48 {
            Err(ReadError::UnexpectedEnd)
        } else {
            Ok((u16_at(d, 0), u32_at(d, 4), u16s_at(d, 8, 20)))
        }
    }

    /// Append the wire bytes of the message body.
    pub fn write(&self, out: &mut Vec<u8>)
        ensures
            final(out)@ == self.bytes_after(old(out)@),
    {
        put_u16(out, self.version);
        out.push(0);
        out.push(0);
        put_u32(out, self.gameid);
        push_u16s(out, &self.pass);
    }

    /// The wire bytes of the message body.
    pub fn to_bytes(&self) -> (r: Vec<u8>)
        ensures
            r@ == self.bytes(),
    {
        let mut out: Vec<u8> = Vec::new();
        self.write(&mut out);
        out
    }

    /// Read the message body from the bytes `d` (bytes after it are left).
    pub fn read(d: &[u8]) -> (r: Result<JoinGame, ReadError>)
        ensures
            match r {
                Ok(m) => JoinGame::parse(d@) == Ok::<(u16, u32, Seq<u16>), ReadError>(m.view()),
                Err(e) => JoinGame::parse(d@) == Err::<(u16, u32, Seq<u16>), ReadError>(e),
            },
    {
        if d.len() < 48 {
            return Err(ReadError::UnexpectedEnd);
        }
        let version = read_u16(d, 0);
        let gameid = read_u32(d, 4);
        let mut pass: [u16; 20] = [0u16; 20];
        let mut i: usize = 0;
        while i < 20
            invariant
                i <= 20,
                48 <= d@.len(),
                pass@.len() == 20,
                forall|j: int| 0 <= j < i ==> pass@[j] == u16_at(d@, 8 + 2 * j),
            decreases 20 - i,
        {
            pass[i] = read_u16(d, 8 + 2 * i);
            i = i + 1;
        }
        assert(pass@ =~= u16s_at(d@, 8, 20));
        Ok(JoinGame { version, gameid, pass })
    }

    /// The body written and read back is the same message.
    pub proof fn lemma_round_trip(self)
        ensures
            JoinGame::parse(self.bytes()) == Ok::<(u16, u32, Seq<u16>), ReadError>(self.view()),
            self.bytes().len() == JoinGame::size(),
    {
        let s0 = Seq::<u8>::empty();
        let s1 = push16(s0, self.version);
        lemma_push16(s0, self.version);
        let s2 = s1.push(0).push(0);
        let s3 = push32(s2, self.gameid);
        lemma_push32(s2, self.gameid);
        let t = u16s_bytes(self.pass@);
        lemma_u16s_round_trip(self.pass@);
        let b = s3 + t;
        assert(b == self.bytes());
        assert(b[0] == s3[0] && b[1] == s3[1]);
        assert(b[4] == s3[4] && b[5] == s3[5] && b[6] == s3[6] && b[7] == s3[7]);
        assert(s3.subrange(0, 2) == s1.subrange(0, 2));
        assert forall|k: int| 0 <= k < 20 implies #[trigger] u16s_at(b, 8, 20)[k] == self.pass@[k] by {
            assert(b[8 + 2 * k] == t[2 * k] && b[8 + 2 * k + 1] == t[2 * k + 1]);
            assert(u16s_at(t, 0, 20)[k] == self.pass@[k]);
        }
        assert(u16s_at(b, 8, 20) =~= self.pass@);
    }
}

/// A client tells its name: 20 UTF-16 units, zero-padded.
#[derive(Clone, Copy, Debug)]
pub struct PlayerInfo {
    pub name: [u16; 20],
}

impl PlayerInfo {
    /// The type of this message.
    pub fn message_type() -> (r: MessageType)
        ensures
            r == MessageType::PlayerInfo,
    {
        MessageType::PlayerInfo
    }

    /// The wire bytes of the message body: the name's units, low byte first.
    pub open spec fn bytes(self) -> Seq<u8> {
        u16s_bytes(self.name@)
    }

    /// Append the wire bytes of the message body.
    pub fn write(&self, out: &mut Vec<u8>)
        ensures
            final(out)@ == old(out)@ + self.bytes(),
    {
        push_u16s(out, &self.name);
    }

    /// Read the message body from the bytes `d`: the name's 40 bytes.
    pub fn read(d: &[u8]) -> (r: Result<PlayerInfo, ReadError>)
        ensures
            match r {
                Ok(m) => (take_name(d@) matches Ok((n, _)) && n == m.name@),
                Err(e) => take_name(d@) == Err::<(Seq<u16>, Seq<u8>), ReadError>(e),
            },
    {
        assert(d@.skip(0) =~= d@);
        let (name, _) = read_name_from(d, 0)?;
        Ok(PlayerInfo { name })
    }
}

/// A client hands in its deck.
#[derive(Clone, Debug)]
pub struct UpdateDeck {
    pub deck: Deck,
}

impl UpdateDeck {
    /// The type of this message.
    pub fn message_type() -> (r: MessageType)
        ensures
            r == MessageType::UpdateDeck,
    {
        MessageType::UpdateDeck
    }

    /// Append the wire bytes of the message body: the deck (its counts must fit 32 bits).
    pub fn write(&self, out: &mut Vec<u8>)
        requires
            self.deck.main@.len() + self.deck.extra@.len() <= u32::MAX,
            self.deck.side@.len() <= u32::MAX,
        ensures
            final(out)@ == old(out)@ + deck_wire_bytes(&self.deck),
    {
        self.deck.write(out);
    }

    /// Read the message body from the bytes `d`: a deck, its extra deck empty.
    pub fn read(d: &[u8]) -> (r: Result<UpdateDeck, ReadError>)
        ensures
            match r {
                Ok(m) => m.deck.extra@.len() == 0 && (parse_deck_wire(d@) matches Ok((main, side, _)) && main
                    == m.deck.main@ && side == m.deck.side@),
                Err(e) => parse_deck_wire(d@) == Err::<(Seq<u32>, Seq<u32>, Seq<u8>), ReadError>(e),
            },
    {
        let (deck, _) = Deck::read(d)?;
        Ok(UpdateDeck { deck })
    }
}

/// The host starts the duel.
#[derive(Clone, Copy, Debug, PartialEq, Eq, Structural)]
pub struct HsStart;

impl HsStart {
    /// The type of this message.
    pub fn message_type() -> (r: MessageType)
        ensures
            r == MessageType::HsStart,
    {
        MessageType::HsStart
    }

    /// The number of bytes of the message body.
    pub open spec fn size() -> nat {
        0
    }

    /// `s` followed by the wire bytes of the message body.
    pub open spec fn bytes_after(self, s: Seq<u8>) -> Seq<u8> {
        s
    }

    /// The wire bytes of the message body.
    pub open spec fn bytes(self) -> Seq<u8> {
        self.bytes_after(Seq::empty())
    }

    /// How the bytes `d` read as the message body.
    pub open spec fn parse(d: Seq<u8>) -> Result<HsStart, ReadError> {
        Ok(HsStart)
    }

    /// Append the wire bytes of the message body.
    pub fn write(&self, out: &mut Vec<u8>)
        ensures
            final(out)@ == self.bytes_after(old(out)@),
    {
    }

    /// The wire bytes of the message body.
    pub fn to_bytes(&self) -> (r: Vec<u8>)
        ensures
            r@ == self.bytes(),
    {
        let mut out: Vec<u8> = Vec::new();
        self.write(&mut out);
        out
    }

    /// Read the message body from the bytes `d` (bytes after it are left).
    pub fn read(d: &[u8]) -> (r: Result<HsStart, ReadError>)
        ensures
            r == HsStart::parse(d@),
    {
        Ok(HsStart)
    }

    /// The body written and read back is the same message.
    pub proof fn lemma_round_trip(self)
        ensures
            HsStart::parse(self.bytes()) == Ok::<HsStart, ReadError>(self),
            self.bytes().len() == HsStart::size(),
    {
        let s0 = Seq::<u8>::empty();
        let b = s0;
        assert(b == self.bytes());
    }
}

/// A player asks for the field.
#[derive(Clone, Copy, Debug, PartialEq, Eq, Structural)]
pub struct RequestField;

impl RequestField {
    /// The type of this message.
    pub fn message_type() -> (r: MessageType)
        ensures
            r == MessageType::RequestField,
    {
        MessageType::RequestField
    }

    /// The number of bytes of the message body.
    pub open spec fn size() -> nat {
        0
    }

    /// `s` followed by the wire bytes of the message body.
    pub open spec fn bytes_after(self, s: Seq<u8>) -> Seq<u8> {
        s
    }

    /// The wire bytes of the message body.
    pub open spec fn bytes(self) -> Seq<u8> {
        self.bytes_after(Seq::empty())
    }

    /// How the bytes `d` read as the message body.
    pub open spec fn parse(d: Seq<u8>) -> Result<RequestField, ReadError> {
        Ok(RequestField)
    }

    /// Append the wire bytes of the message body.
    pub fn write(&self, out: &mut Vec<u8>)
        ensures
            final(out)@ == self.bytes_after(old(out)@),
    {
    }

    /// The wire bytes of the message body.
    pub fn to_bytes(&self) -> (r: Vec<u8>)
        ensures
            r@ == self.bytes(),
    {
        let mut out: Vec<u8> = Vec::new();
        self.write(&mut out);
        out
    }

    /// Read the message body from the bytes `d` (bytes after it are left).
    pub fn read(d: &[u8]) -> (r: Result<RequestField, ReadError>)
        ensures
            r == RequestField::parse(d@),
    {
        Ok(RequestField)
    }

    /// The body written and read back is the same message.
    pub proof fn lemma_round_trip(self)
        ensures
            RequestField::parse(self.bytes()) == Ok::<RequestField, ReadError>(self),
            self.bytes().len() == RequestField::size(),
    {
        let s0 = Seq::<u8>::empty();
        let b = s0;
        assert(b == self.bytes());
    }
}

/// A whole message of the protocol, read off the wire on its own.
pub trait PureMessage {}

impl PureMessage for Message {}

/// A client-to-server message: its type and body.
#[derive(Clone, Copy, Debug, PartialEq, Eq, Structural)]
pub enum Message {
    HandResult(HandResult),
    TpResult(TpResult),
    LeaveGame(LeaveGame),
    Surrender(Surrender),
    TimeConfirm(TimeConfirm),
    HsToDuelist(HsToDuelist),
    HsToObserver(HsToObserver),
    HsReady(HsReady),
    HsNotReady(HsNotReady),
    HsKick(HsKick),
    HsStart(HsStart),
    RequestField(RequestField),
}

impl Message {
    /// The type of the message.
    pub open spec fn kind(self) -> MessageType {
        match self {
            Message::HandResult(_) => MessageType::HandResult,
            Message::TpResult(_) => MessageType::TpResult,
            Message::LeaveGame(_) => MessageType::LeaveGame,
            Message::Surrender(_) => MessageType::Surrender,
            Message::TimeConfirm(_) => MessageType::TimeConfirm,
            Message::HsToDuelist(_) => MessageType::HsToDuelist,
            Message::HsToObserver(_) => MessageType::HsToObserver,
            Message::HsReady(_) => MessageType::HsReady,
            Message::HsNotReady(_) => MessageType::HsNotReady,
            Message::HsKick(_) => MessageType::HsKick,
            Message::HsStart(_) => MessageType::HsStart,
            Message::RequestField(_) => MessageType::RequestField,
        }
    }

    /// `s` followed by the flag byte and the body.
    pub open spec fn bytes_after(self, s: Seq<u8>) -> Seq<u8> {
        match self {
            Message::HandResult(x) => x.bytes_after(s.push(MessageType::HandResult.code())),
            Message::TpResult(x) => x.bytes_after(s.push(MessageType::TpResult.code())),
            Message::LeaveGame(x) => x.bytes_after(s.push(MessageType::LeaveGame.code())),
            Message::Surrender(x) => x.bytes_after(s.push(MessageType::Surrender.code())),
            Message::TimeConfirm(x) => x.bytes_after(s.push(MessageType::TimeConfirm.code())),
            Message::HsToDuelist(x) => x.bytes_after(s.push(MessageType::HsToDuelist.code())),
            Message::HsToObserver(x) => x.bytes_after(s.push(MessageType::HsToObserver.code())),
            Message::HsReady(x) => x.bytes_after(s.push(MessageType::HsReady.code())),
            Message::HsNotReady(x) => x.bytes_after(s.push(MessageType::HsNotReady.code())),
            Message::HsKick(x) => x.bytes_after(s.push(MessageType::HsKick.code())),
            Message::HsStart(x) => x.bytes_after(s.push(MessageType::HsStart.code())),
            Message::RequestField(x) => x.bytes_after(s.push(MessageType::RequestField.code())),
        }
    }

    /// The flag byte followed by the body.
    pub open spec fn bytes(self) -> Seq<u8> {
        self.bytes_after(Seq::empty())
    }

    /// How the bytes `d` read as a message: a flag byte, then the body of that type.
    pub open spec fn parse(d: Seq<u8>) -> Result<Message, ReadError> {
        if d.len() == 0 {
            Err(ReadError::UnexpectedEnd)
        } else {
            let body = d.subrange(1, d.len() as int);
            match MessageType::of_code(d[0]) {
                MessageType::HandResult => match HandResult::parse(body) {
                    Ok(x) => Ok(Message::HandResult(x)),
                    Err(e) => Err(e),
                },
                MessageType::TpResult => match TpResult::parse(body) {
                    Ok(x) => Ok(Message::TpResult(x)),
                    Err(e) => Err(e),
                },
                MessageType::LeaveGame => match LeaveGame::parse(body) {
                    Ok(x) => Ok(Message::LeaveGame(x)),
                    Err(e) => Err(e),
                },
                MessageType::Surrender => match Surrender::parse(body) {
                    Ok(x) => Ok(Message::Surrender(x)),
                    Err(e) => Err(e),
                },
                MessageType::TimeConfirm => match TimeConfirm::parse(body) {
                    Ok(x) => Ok(Message::TimeConfirm(x)),
                    Err(e) => Err(e),
                },
                MessageType::HsToDuelist => match HsToDuelist::parse(body) {
                    Ok(x) => Ok(Message::HsToDuelist(x)),
                    Err(e) => Err(e),
                },
                MessageType::HsToObserver => match HsToObserver::parse(body) {
                    Ok(x) => Ok(Message::HsToObserver(x)),
                    Err(e) => Err(e),
                },
                MessageType::HsReady => match HsReady::parse(body) {
                    Ok(x) => Ok(Message::HsReady(x)),
                    Err(e) => Err(e),
                },
                MessageType::HsNotReady => match HsNotReady::parse(body) {
                    Ok(x) => Ok(Message::HsNotReady(x)),
                    Err(e) => Err(e),
                },
                MessageType::HsKick => match HsKick::parse(body) {
                    Ok(x) => Ok(Message::HsKick(x)),
                    Err(e) => Err(e),
                },
                MessageType::HsStart => match HsStart::parse(body) {
                    Ok(x) => Ok(Message::HsStart(x)),
                    Err(e) => Err(e),
                },
                MessageType::RequestField => match RequestField::parse(body) {
                    Ok(x) => Ok(Message::RequestField(x)),
                    Err(e) => Err(e),
                },
                _ => Err(ReadError::NoVariantMatch),
            }
        }
    }

    /// The type of the message.
    pub fn message_type(&self) -> (r: MessageType)
        ensures
            r == self.kind(),
    {
        match self {
            Message::HandResult(_) => MessageType::HandResult,
            Message::TpResult(_) => MessageType::TpResult,
            Message::LeaveGame(_) => MessageType::LeaveGame,
            Message::Surrender(_) => MessageType::Surrender,
            Message::TimeConfirm(_) => MessageType::TimeConfirm,
            Message::HsToDuelist(_) => MessageType::HsToDuelist,
            Message::HsToObserver(_) => MessageType::HsToObserver,
            Message::HsReady(_) => MessageType::HsReady,
            Message::HsNotReady(_) => MessageType::HsNotReady,
            Message::HsKick(_) => MessageType::HsKick,
            Message::HsStart(_) => MessageType::HsStart,
            Message::RequestField(_) => MessageType::RequestField,
        }
    }

    /// Append the flag byte and the body.
    pub fn write(&self, out: &mut Vec<u8>)
        ensures
            final(out)@ == self.bytes_after(old(out)@),
    {
        match self {
            Message::HandResult(x) => {
                out.push(MessageType::HandResult.to_u8());
                x.write(out);
            },
            Message::TpResult(x) => {
                out.push(MessageType::TpResult.to_u8());
                x.write(out);
            },
            Message::LeaveGame(x) => {
                out.push(MessageType::LeaveGame.to_u8());
                x.write(out);
            },
            Message::Surrender(x) => {
                out.push(MessageType::Surrender.to_u8());
                x.write(out);
            },
            Message::TimeConfirm(x) => {
                out.push(MessageType::TimeConfirm.to_u8());
                x.write(out);
            },
            Message::HsToDuelist(x) => {
                out.push(MessageType::HsToDuelist.to_u8());
                x.write(out);
            },
            Message::HsToObserver(x) => {
                out.push(MessageType::HsToObserver.to_u8());
                x.write(out);
            },
            Message::HsReady(x) => {
                out.push(MessageType::HsReady.to_u8());
                x.write(out);
            },
            Message::HsNotReady(x) => {
                out.push(MessageType::HsNotReady.to_u8());
                x.write(out);
            },
            Message::HsKick(x) => {
                out.push(MessageType::HsKick.to_u8());
                x.write(out);
            },
            Message::HsStart(x) => {
                out.push(MessageType::HsStart.to_u8());
                x.write(out);
            },
            Message::RequestField(x) => {
                out.push(MessageType::RequestField.to_u8());
                x.write(out);
            },
        }
    }

    /// The flag byte followed by the body.
    pub fn to_bytes(&self) -> (r: Vec<u8>)
        ensures
            r@ == self.bytes(),
    {
        let mut out: Vec<u8> = Vec::new();
        self.write(&mut out);
        out
    }

    /// Read a message from the bytes `d` (bytes after it are left).
    pub fn read(d: &[u8]) -> (r: Result<Message, ReadError>)
        ensures
            r == Message::parse(d@),
    {
        if d.len() == 0 {
            return Err(ReadError::UnexpectedEnd);
        }
        let body = vstd::slice::slice_subrange(d, 1, d.len());
        match MessageType::from_u8(d[0]) {
            MessageType::HandResult => match HandResult::read(body) {
                Ok(x) => Ok(Message::HandResult(x)),
                Err(e) => Err(e),
            },
            MessageType::TpResult => match TpResult::read(body) {
                Ok(x) => Ok(Message::TpResult(x)),
                Err(e) => Err(e),
            },
            MessageType::LeaveGame => match LeaveGame::read(body) {
                Ok(x) => Ok(Message::LeaveGame(x)),
                Err(e) => Err(e),
            },
            MessageType::Surrender => match Surrender::read(body) {
                Ok(x) => Ok(Message::Surrender(x)),
                Err(e) => Err(e),
            },
            MessageType::TimeConfirm => match TimeConfirm::read(body) {
                Ok(x) => Ok(Message::TimeConfirm(x)),
                Err(e) => Err(e),
            },
            MessageType::HsToDuelist => match HsToDuelist::read(body) {
                Ok(x) => Ok(Message::HsToDuelist(x)),
                Err(e) => Err(e),
            },
            MessageType::HsToObserver => match HsToObserver::read(body) {
                Ok(x) => Ok(Message::HsToObserver(x)),
                Err(e) => Err(e),
            },
            MessageType::HsReady => match HsReady::read(body) {
                Ok(x) => Ok(Message::HsReady(x)),
                Err(e) => Err(e),
            },
            MessageType::HsNotReady => match HsNotReady::read(body) {
                Ok(x) => Ok(Message::HsNotReady(x)),
                Err(e) => Err(e),
            },
            MessageType::HsKick => match HsKick::read(body) {
                Ok(x) => Ok(Message::HsKick(x)),
                Err(e) => Err(e),
            },
            MessageType::HsStart => match HsStart::read(body) {
                Ok(x) => Ok(Message::HsStart(x)),
                Err(e) => Err(e),
            },
            MessageType::RequestField => match RequestField::read(body) {
                Ok(x) => Ok(Message::RequestField(x)),
                Err(e) => Err(e),
            },
            _ => Err(ReadError::NoVariantMatch),
        }
    }
}

/// A message written and read back is the same message.
pub proof fn lemma_message_round_trip(m: Message)
    ensures
        Message::parse(m.bytes()) == Ok::<Message, ReadError>(m),
{
    let b = m.bytes();
    match m {
        Message::HandResult(x) => {
            x.lemma_round_trip();
            assert(b.subrange(1, b.len() as int) =~= x.bytes());
        },
        Message::TpResult(x) => {
            x.lemma_round_trip();
            assert(b.subrange(1, b.len() as int) =~= x.bytes());
        },
        Message::LeaveGame(x) => {
            x.lemma_round_trip();
            assert(b.subrange(1, b.len() as int) =~= x.bytes());
        },
        Message::Surrender(x) => {
            x.lemma_round_trip();
            assert(b.subrange(1, b.len() as int) =~= x.bytes());
        },
        Message::TimeConfirm(x) => {
            x.lemma_round_trip();
            assert(b.subrange(1, b.len() as int) =~= x.bytes());
        },
        Message::HsToDuelist(x) => {
            x.lemma_round_trip();
            assert(b.subrange(1, b.len() as int) =~= x.bytes());
        },
        Message::HsToObserver(x) => {
            x.lemma_round_trip();
            assert(b.subrange(1, b.len() as int) =~= x.bytes());
        },
        Message::HsReady(x) => {
            x.lemma_round_trip();
            assert(b.subrange(1, b.len() as int) =~= x.bytes());
        },
        Message::HsNotReady(x) => {
            x.lemma_round_trip();
            assert(b.subrange(1, b.len() as int) =~= x.bytes());
        },
        Message::HsKick(x) => {
            x.lemma_round_trip();
            assert(b.subrange(1, b.len() as int) =~= x.bytes());
        },
        Message::HsStart(x) => {
            x.lemma_round_trip();
            assert(b.subrange(1, b.len() as int) =~= x.bytes());
        },
        Message::RequestField(x) => {
            x.lemma_round_trip();
            assert(b.subrange(1, b.len() as int) =~= x.bytes());
        },
    }
}

} // verus!
