//! Messages the server sends to a client.
use vstd::prelude::*;

use crate::bytes::{
    lemma_push16, lemma_push32, push16, push32, put_u16, put_u32, read_u16, read_u32, u16_at,
    u32_at, ReadError,
};
use crate::constants::{Hand, Netplayer, PlayerChange};
use crate::message::host_info::HostInfo;

verus! {

/// The kind of a server-to-client message, named by its flag byte.
///
/// `Unknown` holds a flag byte that names no server-to-client message.
#[derive(Clone, Copy, Debug, PartialEq, Eq, Structural, PartialOrd, Ord, Hash)]
pub enum MessageType {
    Unknown(u8),
    GameMessage,
    ErrorMessage,
    SelectHand,
    SelectTp,
    HandResult,
    TpResult,
    ChangeSide,
    WaitingSide,
    DeckCount,
    CreateGame,
    JoinGame,
    TypeChange,
    LeaveGame,
    DuelStart,
    DuelEnd,
    Replay,
    TimeLimit,
    Chat,
    HsPlayerEnter,
    HsPlayerChange,
    HsWatchChange,
    FieldFinish,
}

impl MessageType {
    /// The flag byte of each message type.
    pub open spec fn code(self) -> u8 {
        match self {
            MessageType::Unknown(v) => v,
            MessageType::GameMessage => 1u8,
            MessageType::ErrorMessage => 2u8,
            MessageType::SelectHand => 3u8,
            MessageType::SelectTp => 4u8,
            MessageType::HandResult => 5u8,
            MessageType::TpResult => 6u8,
            MessageType::ChangeSide => 7u8,
            MessageType::WaitingSide => 8u8,
            MessageType::DeckCount => 9u8,
            MessageType::CreateGame => 17u8,
            MessageType::JoinGame => 18u8,
            MessageType::TypeChange => 19u8,
            MessageType::LeaveGame => 20u8,
            MessageType::DuelStart => 21u8,
            MessageType::DuelEnd => 22u8,
            MessageType::Replay => 23u8,
            MessageType::TimeLimit => 24u8,
            MessageType::Chat => 25u8,
            MessageType::HsPlayerEnter => 32u8,
            MessageType::HsPlayerChange => 33u8,
            MessageType::HsWatchChange => 34u8,
            MessageType::FieldFinish => 48u8,
        }
    }

    /// The message type a flag byte stands for: `Unknown` holds a byte that names
    /// no message type.
    pub open spec fn of_code(v: u8) -> MessageType {
        match v {
            1u8 => MessageType::GameMessage,
            2u8 => MessageType::ErrorMessage,
            3u8 => MessageType::SelectHand,
            4u8 => MessageType::SelectTp,
            5u8 => MessageType::HandResult,
            6u8 => MessageType::TpResult,
            7u8 => MessageType::ChangeSide,
            8u8 => MessageType::WaitingSide,
            9u8 => MessageType::DeckCount,
            17u8 => MessageType::CreateGame,
            18u8 => MessageType::JoinGame,
            19u8 => MessageType::TypeChange,
            20u8 => MessageType::LeaveGame,
            21u8 => MessageType::DuelStart,
            22u8 => MessageType::DuelEnd,
            23u8 => MessageType::Replay,
            24u8 => MessageType::TimeLimit,
            25u8 => MessageType::Chat,
            32u8 => MessageType::HsPlayerEnter,
            33u8 => MessageType::HsPlayerChange,
            34u8 => MessageType::HsWatchChange,
            48u8 => MessageType::FieldFinish,
            _ => MessageType::Unknown(v),
        }
    }

    /// Whether this is the value that its flag byte reads as (an `Unknown` holding
    /// the flag of a known type is not).
    pub open spec fn is_canonical(self) -> bool {
        MessageType::of_code(self.code()) == self
    }

    /// The message type a flag byte stands for.
    pub fn from_u8(v: u8) -> (r: MessageType)
        ensures
            r == MessageType::of_code(v),
            r.code() == v,
    {
        match v {
            1u8 => MessageType::GameMessage,
            2u8 => MessageType::ErrorMessage,
            3u8 => MessageType::SelectHand,
            4u8 => MessageType::SelectTp,
            5u8 => MessageType::HandResult,
            6u8 => MessageType::TpResult,
            7u8 => MessageType::ChangeSide,
            8u8 => MessageType::WaitingSide,
            9u8 => MessageType::DeckCount,
            17u8 => MessageType::CreateGame,
            18u8 => MessageType::JoinGame,
            19u8 => MessageType::TypeChange,
            20u8 => MessageType::LeaveGame,
            21u8 => MessageType::DuelStart,
            22u8 => MessageType::DuelEnd,
            23u8 => MessageType::Replay,
            24u8 => MessageType::TimeLimit,
            25u8 => MessageType::Chat,
            32u8 => MessageType::HsPlayerEnter,
            33u8 => MessageType::HsPlayerChange,
            34u8 => MessageType::HsWatchChange,
            48u8 => MessageType::FieldFinish,
            _ => MessageType::Unknown(v),
        }
    }

    /// The flag byte of this message type.
    pub fn to_u8(&self) -> (r: u8)
        ensures
            r == self.code(),
    {
        match *self {
            MessageType::Unknown(v) => v,
            MessageType::GameMessage => 1u8,
            MessageType::ErrorMessage => 2u8,
            MessageType::SelectHand => 3u8,
            MessageType::SelectTp => 4u8,
            MessageType::HandResult => 5u8,
            MessageType::TpResult => 6u8,
            MessageType::ChangeSide => 7u8,
            MessageType::WaitingSide => 8u8,
            MessageType::DeckCount => 9u8,
            MessageType::CreateGame => 17u8,
            MessageType::JoinGame => 18u8,
            MessageType::TypeChange => 19u8,
            MessageType::LeaveGame => 20u8,
            MessageType::DuelStart => 21u8,
            MessageType::DuelEnd => 22u8,
            MessageType::Replay => 23u8,
            MessageType::TimeLimit => 24u8,
            MessageType::Chat => 25u8,
            MessageType::HsPlayerEnter => 32u8,
            MessageType::HsPlayerChange => 33u8,
            MessageType::HsWatchChange => 34u8,
            MessageType::FieldFinish => 48u8,
        }
    }

    /// Append the flag byte.
    pub fn write(&self, out: &mut Vec<u8>)
        ensures
            final(out)@ == old(out)@.push(self.code()),
    {
        out.push(self.to_u8());
    }

    /// Read a message type from the first byte of `data`.
    pub fn read(data: &[u8]) -> (r: Result<MessageType, ReadError>)
        ensures
            data@.len() == 0 ==> r == Err::<MessageType, ReadError>(ReadError::UnexpectedEnd),
            data@.len() > 0 ==> r == Ok::<MessageType, ReadError>(MessageType::of_code(data@[0])),
    {
        if data.len() == 0 {
            Err(ReadError::UnexpectedEnd)
        } else {
            Ok(MessageType::from_u8(data[0]))
        }
    }
}

/// A flag byte reads as a message type that is written back as the same byte, and a
/// message type that is its flag's reading is read back from that flag.
pub proof fn lemma_message_type_round_trip(v: u8, t: MessageType)
    ensures
        MessageType::of_code(v).code() == v,
        MessageType::of_code(v).is_canonical(),
        t.is_canonical() ==> MessageType::of_code(t.code()) == t,
{
}


/// A game message passed on to a client, in its wire form: the flag byte and the body.
#[derive(Clone, Debug)]
pub struct GameMessage {
    pub message: Vec<u8>,
}

impl GameMessage {
    /// The type of this message.
    pub fn message_type() -> (r: MessageType)
        ensures
            r == MessageType::GameMessage,
    {
        MessageType::GameMessage
    }

    /// Append the wire bytes of the message body.
    pub fn write(&self, out: &mut Vec<u8>)
        ensures
            final(out)@ == old(out)@ + self.message@,
    {
        let ghost start = out@;
        let mut i: usize = 0;
        while i < self.message.len()
            invariant
                i <= self.message@.len(),
                out@ == start + self.message@.take(i as int),
            decreases self.message@.len() - i,
        {
            out.push(self.message[i]);
            i = i + 1;
            assert(out@ =~= start + self.message@.take(i as int));
        }
        assert(self.message@.take(i as int) =~= self.message@);
    }

    /// Read the body: all the bytes given.
    pub fn read(d: &[u8]) -> (r: GameMessage)
        ensures
            r.message@ == d@,
    {
        GameMessage { message: vstd::slice::slice_to_vec(d) }
    }
}

/// The answer to a join: the settings of the room.
#[derive(Clone, Copy, Debug, PartialEq, Eq, Structural)]
pub struct JoinGame {
    pub info: HostInfo,
}

impl JoinGame {
    /// The type of this message.
    pub fn message_type() -> (r: MessageType)
        ensures
            r == MessageType::JoinGame,
    {
        MessageType::JoinGame
    }

    /// The wire bytes of the message body.
    pub open spec fn bytes(self) -> Seq<u8> {
        self.info.bytes()
    }

    /// How the bytes `d` read as the message body.
    pub open spec fn parse(d: Seq<u8>) -> Result<JoinGame, ReadError> {
        match HostInfo::parse(d) {
            Ok(info) => Ok(JoinGame { info }),
            Err(e) => Err(e),
        }
    }

    /// The wire bytes of the message body.
    pub fn to_bytes(&self) -> (r: Vec<u8>)
        ensures
            r@ == self.bytes(),
    {
        self.info.to_bytes()
    }

    /// Read the message body from the bytes `d`.
    pub fn read(d: &[u8]) -> (r: Result<JoinGame, ReadError>)
        ensures
            r == JoinGame::parse(d@),
    {
        match HostInfo::read(d) {
            Ok(info) => Ok(JoinGame { info }),
            Err(e) => Err(e),
        }
    }

    /// The body written and read back is the same message.
    pub proof fn lemma_round_trip(self)
        ensures
            JoinGame::parse(self.bytes()) == Ok::<JoinGame, ReadError>(self),
    {
        self.info.lemma_round_trip();
    }
}

/// An error report: its kind and a code.
#[derive(Clone, Copy, Debug, PartialEq, Eq, Structural)]
pub struct ErrorMessage {
    /// The kind of error.
    pub msg: u8,
    /// The error code.
    pub code: u32,
}

impl ErrorMessage {
    /// The type of this message.
    pub fn message_type() -> (r: MessageType)
        ensures
            r == MessageType::ErrorMessage,
    {
        MessageType::ErrorMessage
    }

    /// The number of bytes of the message body.
    pub open spec fn size() -> nat {
        8
    }

    /// `s` followed by the wire bytes of the message body.
    pub open spec fn bytes_after(self, s: Seq<u8>) -> Seq<u8> {
        push32(s.push(self.msg).push(0u8).push(0u8).push(0u8), self.code)
    }

    /// The wire bytes of the message body.
    pub open spec fn bytes(self) -> Seq<u8> {
        self.bytes_after(Seq::empty())
    }

    /// How the bytes `d` read as the message body.
    pub open spec fn parse(d: Seq<u8>) -> Result<ErrorMessage, ReadError> {
        if d.len() < 1 {
            Err(ReadError::UnexpectedEnd)
        } else {
            let msg = d[0];
            if d.len() < 8 {
                Err(ReadError::UnexpectedEnd)
            } else {
                let code = u32_at(d, 4);
                Ok(ErrorMessage { msg: msg, code: code })
            }
        }
    }

    /// Append the wire bytes of the message body.
    pub fn write(&self, out: &mut Vec<u8>)
        ensures
            final(out)@ == self.bytes_after(old(out)@),
    {
        out.push(self.msg);
        out.push(0u8);
        out.push(0u8);
        out.push(0u8);
        put_u32(out, self.code);
    }

    /// The wire bytes of the message body.
    pub fn to_bytes(&self) -> (r: Vec<u8>)
        ensures
            r@ == self.bytes(),
    {
        let mut out: Vec<u8> = Vec::new();
        self.write(&mut out);
        out
    }

    /// Read the message body from the bytes `d` (bytes after it are left).
    pub fn read(d: &[u8]) -> (r: Result<ErrorMessage, ReadError>)
        ensures
            r == ErrorMessage::parse(d@),
    {
        if d.len() < 1 {
            return Err(ReadError::UnexpectedEnd);
        }
        let msg = d[0];
        if d.len() < 8 {
            return Err(ReadError::UnexpectedEnd);
        }
        let code = read_u32(d, 4);
        Ok(ErrorMessage { msg: msg, code: code })
    }

    /// The body written and read back is the same message.
    pub proof fn lemma_round_trip(self)
        ensures
            ErrorMessage::parse(self.bytes()) == Ok::<ErrorMessage, ReadError>(self),
            self.bytes().len() == ErrorMessage::size(),
    {
        let s0 = Seq::<u8>::empty();
        let s1 = s0.push(self.msg);
        let s2 = s1.push(0u8).push(0u8).push(0u8);
        let s3 = push32(s2, self.code);
        lemma_push32(s2, self.code);
        let b = s3;
        assert(b == self.bytes());
        assert(b.subrange(0, s3.len() as int) =~= s3);
        assert(b[4] == s3[4] && b[5] == s3[5] && b[6] == s3[6] && b[7] == s3[7]);
    }
}

/// The server asks for a rock-paper-scissors hand.
#[derive(Clone, Copy, Debug, PartialEq, Eq, Structural)]
pub struct SelectHand;

impl SelectHand {
    /// The type of this message.
    pub fn message_type() -> (r: MessageType)
        ensures
            r == MessageType::SelectHand,
    {
        MessageType::SelectHand
    }

    /// The number of bytes of the message body.
    pub open spec fn size() -> nat {
        0
    }

    /// `s` followed by the wire bytes of the message body.
    pub open spec fn bytes_after(self, s: Seq<u8>) -> Seq<u8> {
        s
    }

    /// The wire bytes of the message body.
    pub open spec fn bytes(self) -> Seq<u8> {
        self.bytes_after(Seq::empty())
    }

    /// How the bytes `d` read as the message body.
    pub open spec fn parse(d: Seq<u8>) -> Result<SelectHand, ReadError> {
        Ok(SelectHand)
    }

    /// Append the wire bytes of the message body.
    pub fn write(&self, out: &mut Vec<u8>)
        ensures
            final(out)@ == self.bytes_after(old(out)@),
    {
    }

    /// The wire bytes of the message body.
    pub fn to_bytes(&self) -> (r: Vec<u8>)
        ensures
            r@ == self.bytes(),
    {
        let mut out: Vec<u8> = Vec::new();
        self.write(&mut out);
        out
    }

    /// Read the message body from the bytes `d` (bytes after it are left).
    pub fn read(d: &[u8]) -> (r: Result<SelectHand, ReadError>)
        ensures
            r == SelectHand::parse(d@),
    {
        Ok(SelectHand)
    }

    /// The body written and read back is the same message.
    pub proof fn lemma_round_trip(self)
        ensures
            SelectHand::parse(self.bytes()) == Ok::<SelectHand, ReadError>(self),
            self.bytes().len() == SelectHand::size(),
    {
        let s0 = Seq::<u8>::empty();
        let b = s0;
        assert(b == self.bytes());
    }
}

/// The server asks who goes first.
#[derive(Clone, Copy, Debug, PartialEq, Eq, Structural)]
pub struct SelectTp;

impl SelectTp {
    /// The type of this message.
    pub fn message_type() -> (r: MessageType)
        ensures
            r == MessageType::SelectTp,
    {
        MessageType::SelectTp
    }

    /// The number of bytes of the message body.
    pub open spec fn size() -> nat {
        0
    }

    /// `s` followed by the wire bytes of the message body.
    pub open spec fn bytes_after(self, s: Seq<u8>) -> Seq<u8> {
        s
    }

    /// The wire bytes of the message body.
    pub open spec fn bytes(self) -> Seq<u8> {
        self.bytes_after(Seq::empty())
    }

    /// How the bytes `d` read as the message body.
    pub open spec fn parse(d: Seq<u8>) -> Result<SelectTp, ReadError> {
        Ok(SelectTp)
    }

    /// Append the wire bytes of the message body.
    pub fn write(&self, out: &mut Vec<u8>)
        ensures
            final(out)@ == self.bytes_after(old(out)@),
    {
    }

    /// The wire bytes of the message body.
    pub fn to_bytes(&self) -> (r: Vec<u8>)
        ensures
            r@ == self.bytes(),
    {
        let mut out: Vec<u8> = Vec::new();
        self.write(&mut out);
        out
    }

    /// Read the message body from the bytes `d` (bytes after it are left).
    pub fn read(d: &[u8]) -> (r: Result<SelectTp, ReadError>)
        ensures
            r == SelectTp::parse(d@),
    {
        Ok(SelectTp)
    }

    /// The body written and read back is the same message.
    pub proof fn lemma_round_trip(self)
        ensures
            SelectTp::parse(self.bytes()) == Ok::<SelectTp, ReadError>(self),
            self.bytes().len() == SelectTp::size(),
    {
        let s0 = Seq::<u8>::empty();
        let b = s0;
        assert(b == self.bytes());
    }
}

/// The hands both players showed.
#[derive(Clone, Copy, Debug, PartialEq, Eq, Structural)]
pub struct HandResult {
    pub res1: Hand,
    pub res2: Hand,
}

impl HandResult {
    /// The type of this message.
    pub fn message_type() -> (r: MessageType)
        ensures
            r == MessageType::HandResult,
    {
        MessageType::HandResult
    }

    /// The number of bytes of the message body.
    pub open spec fn size() -> nat {
        2
    }

    /// `s` followed by the wire bytes of the message body.
    pub open spec fn bytes_after(self, s: Seq<u8>) -> Seq<u8> {
        s.push(self.res1.code()).push(self.res2.code())
    }

    /// The wire bytes of the message body.
    pub open spec fn bytes(self) -> Seq<u8> {
        self.bytes_after(Seq::empty())
    }

    /// How the bytes `d` read as the message body.
    pub open spec fn parse(d: Seq<u8>) -> Result<HandResult, ReadError> {
        if d.len() < 1 {
            Err(ReadError::UnexpectedEnd)
        } else {
            match Hand::of_code(d[0]) {
                None => Err(ReadError::NoVariantMatch),
                Some(res1) => {
                    if d.len() < 2 {
                        Err(ReadError::UnexpectedEnd)
                    } else {
                        match Hand::of_code(d[1]) {
                            None => Err(ReadError::NoVariantMatch),
                            Some(res2) => {
                                Ok(HandResult { res1: res1, res2: res2 })
                                },
                            }
                    }
                    },
                }
        }
    }

    /// Append the wire bytes of the message body.
    pub fn write(&self, out: &mut Vec<u8>)
        ensures
            final(out)@ == self.bytes_after(old(out)@),
    {
        out.push(self.res1.value());
        out.push(self.res2.value());
    }

    /// The wire bytes of the message body.
    pub fn to_bytes(&self) -> (r: Vec<u8>)
        ensures
            r@ == self.bytes(),
    {
        let mut out: Vec<u8> = Vec::new();
        self.write(&mut out);
        out
    }

    /// Read the message body from the bytes `d` (bytes after it are left).
    pub fn read(d: &[u8]) -> (r: Result<HandResult, ReadError>)
        ensures
            r == HandResult::parse(d@),
    {
        if d.len() < 1 {
            return Err(ReadError::UnexpectedEnd);
        }
        let res1 = match Hand::from_value(d[0]) {
            Some(x) => x,
            None => return Err(ReadError::NoVariantMatch),
        };
        if d.len() < 2 {
            return Err(ReadError::UnexpectedEnd);
        }
        let res2 = match Hand::from_value(d[1]) {
            Some(x) => x,
            None => return Err(ReadError::NoVariantMatch),
        };
        Ok(HandResult { res1: res1, res2: res2 })
    }

    /// The body written and read back is the same message.
    pub proof fn lemma_round_trip(self)
        ensures
            HandResult::parse(self.bytes()) == Ok::<HandResult, ReadError>(self),
            self.bytes().len() == HandResult::size(),
    {
        let s0 = Seq::<u8>::empty();
        let s1 = s0.push(self.res1.code());
        let s2 = s1.push(self.res2.code());
        let b = s2;
        assert(b == self.bytes());
    }
}

/// Who goes first (reserved, never sent by the server).
#[derive(Clone, Copy, Debug, PartialEq, Eq, Structural)]
pub struct TpResult {
    pub result: u8,
}

impl TpResult {
    /// The type of this message.
    pub fn message_type() -> (r: MessageType)
        ensures
            r == MessageType::TpResult,
    {
        MessageType::TpResult
    }

    /// The number of bytes of the message body.
    pub open spec fn size() -> nat {
        1
    }

    /// `s` followed by the wire bytes of the message body.
    pub open spec fn bytes_after(self, s: Seq<u8>) -> Seq<u8> {
        s.push(self.result)
    }

    /// The wire bytes of the message body.
    pub open spec fn bytes(self) -> Seq<u8> {
        self.bytes_after(Seq::empty())
    }

    /// How the bytes `d` read as the message body.
    pub open spec fn parse(d: Seq<u8>) -> Result<TpResult, ReadError> {
        if d.len() < 1 {
            Err(ReadError::UnexpectedEnd)
        } else {
            let result = d[0];
            Ok(TpResult { result: result })
        }
    }

    /// Append the wire bytes of the message body.
    pub fn write(&self, out: &mut Vec<u8>)
        ensures
            final(out)@ == self.bytes_after(old(out)@),
    {
        out.push(self.result);
    }

    /// The wire bytes of the message body.
    pub fn to_bytes(&self) -> (r: Vec<u8>)
        ensures
            r@ == self.bytes(),
    {
        let mut out: Vec<u8> = Vec::new();
        self.write(&mut out);
        out
    }

    /// Read the message body from the bytes `d` (bytes after it are left).
    pub fn read(d: &[u8]) -> (r: Result<TpResult, ReadError>)
        ensures
            r == TpResult::parse(d@),
    {
        if d.len() < 1 {
            return Err(ReadError::UnexpectedEnd);
        }
        let result = d[0];
        Ok(TpResult { result: result })
    }

    /// The body written and read back is the same message.
    pub proof fn lemma_round_trip(self)
        ensures
            TpResult::parse(self.bytes()) == Ok::<TpResult, ReadError>(self),
            self.bytes().len() == TpResult::size(),
    {
        let s0 = Seq::<u8>::empty();
        let s1 = s0.push(self.result);
        let b = s1;
        assert(b == self.bytes());
    }
}

/// The server asks for side-decking.
#[derive(Clone, Copy, Debug, PartialEq, Eq, Structural)]
pub struct ChangeSide;

impl ChangeSide {
    /// The type of this message.
    pub fn message_type() -> (r: MessageType)
        ensures
            r == MessageType::ChangeSide,
    {
        MessageType::ChangeSide
    }

    /// The number of bytes of the message body.
    pub open spec fn size() -> nat {
        0
    }

    /// `s` followed by the wire bytes of the message body.
    pub open spec fn bytes_after(self, s: Seq<u8>) -> Seq<u8> {
        s
    }

    /// The wire bytes of the message body.
    pub open spec fn bytes(self) -> Seq<u8> {
        self.bytes_after(Seq::empty())
    }

    /// How the bytes `d` read as the message body.
    pub open spec fn parse(d: Seq<u8>) -> Result<ChangeSide, ReadError> {
        Ok(ChangeSide)
    }

    /// Append the wire bytes of the message body.
    pub fn write(&self, out: &mut Vec<u8>)
        ensures
            final(out)@ == self.bytes_after(old(out)@),
    {
    }

    /// The wire bytes of the message body.
    pub fn to_bytes(&self) -> (r: Vec<u8>)
        ensures
            r@ == self.bytes(),
    {
        let mut out: Vec<u8> = Vec::new();
        self.write(&mut out);
        out
    }

    /// Read the message body from the bytes `d` (bytes after it are left).
    pub fn read(d: &[u8]) -> (r: Result<ChangeSide, ReadError>)
        ensures
            r == ChangeSide::parse(d@),
    {
        Ok(ChangeSide)
    }

    /// The body written and read back is the same message.
    pub proof fn lemma_round_trip(self)
        ensures
            ChangeSide::parse(self.bytes()) == Ok::<ChangeSide, ReadError>(self),
            self.bytes().len() == ChangeSide::size(),
    {
        let s0 = Seq::<u8>::empty();
        let b = s0;
        assert(b == self.bytes());
    }
}

/// The server waits for the opponent's side-decking.
#[derive(Clone, Copy, Debug, PartialEq, Eq, Structural)]
pub struct WaitingSide;

impl WaitingSide {
    /// The type of this message.
    pub fn message_type() -> (r: MessageType)
        ensures
            r == MessageType::WaitingSide,
    {
        MessageType::WaitingSide
    }

    /// The number of bytes of the message body.
    pub open spec fn size() -> nat {
        0
    }

    /// `s` followed by the wire bytes of the message body.
    pub open spec fn bytes_after(self, s: Seq<u8>) -> Seq<u8> {
        s
    }

    /// The wire bytes of the message body.
    pub open spec fn bytes(self) -> Seq<u8> {
        self.bytes_after(Seq::empty())
    }

    /// How the bytes `d` read as the message body.
    pub open spec fn parse(d: Seq<u8>) -> Result<WaitingSide, ReadError> {
        Ok(WaitingSide)
    }

    /// Append the wire bytes of the message body.
    pub fn write(&self, out: &mut Vec<u8>)
        ensures
            final(out)@ == self.bytes_after(old(out)@),
    {
    }

    /// The wire bytes of the message body.
    pub fn to_bytes(&self) -> (r: Vec<u8>)
        ensures
            r@ == self.bytes(),
    {
        let mut out: Vec<u8> = Vec::new();
        self.write(&mut out);
        out
    }

    /// Read the message body from the bytes `d` (bytes after it are left).
    pub fn read(d: &[u8]) -> (r: Result<WaitingSide, ReadError>)
        ensures
            r == WaitingSide::parse(d@),
    {
        Ok(WaitingSide)
    }

    /// The body written and read back is the same message.
    pub proof fn lemma_round_trip(self)
        ensures
            WaitingSide::parse(self.bytes()) == Ok::<WaitingSide, ReadError>(self),
            self.bytes().len() == WaitingSide::size(),
    {
        let s0 = Seq::<u8>::empty();
        let b = s0;
        assert(b == self.bytes());
    }
}

/// The deck sizes of both sides: main, side and extra, own then opponent's.
#[derive(Clone, Copy, Debug, PartialEq, Eq, Structural)]
pub struct DeckCount {
    pub mainc_s: u16,
    pub sidec_s: u16,
    pub extrac_s: u16,
    pub mainc_o: u16,
    pub sidec_o: u16,
    pub extrac_o: u16,
}

impl DeckCount {
    /// The type of this message.
    pub fn message_type() -> (r: MessageType)
        ensures
            r == MessageType::DeckCount,
    {
        MessageType::DeckCount
    }

    /// The number of bytes of the message body.
    pub open spec fn size() -> nat {
        12
    }

    /// `s` followed by the wire bytes of the message body.
    pub open spec fn bytes_after(self, s: Seq<u8>) -> Seq<u8> {
        push16(push16(push16(push16(push16(push16(s, self.mainc_s), self.sidec_s), self.extrac_s), self.mainc_o), self.sidec_o), self.extrac_o)
    }

    /// The wire bytes of the message body.
    pub open spec fn bytes(self) -> Seq<u8> {
        self.bytes_after(Seq::empty())
    }

    /// How the bytes `d` read as the message body.
    pub open spec fn parse(d: Seq<u8>) -> Result<DeckCount, ReadError> {
        if d.len() < 2 {
            Err(ReadError::UnexpectedEnd)
        } else {
            let mainc_s = u16_at(d, 0);
            if d.len() < 4 {
                Err(ReadError::UnexpectedEnd)
            } else {
                let sidec_s = u16_at(d, 2);
                if d.len() < 6 {
                    Err(ReadError::UnexpectedEnd)
                } else {
                    let extrac_s = u16_at(d, 4);
                    if d.len() < 8 {
                        Err(ReadError::UnexpectedEnd)
                    } else {
                        let mainc_o = u16_at(d, 6);
                        if d.len() < 10 {
                            Err(ReadError::UnexpectedEnd)
                        } else {
                            let sidec_o = u16_at(d, 8);
                            if d.len() < 12 {
                                Err(ReadError::UnexpectedEnd)
                            } else {
                                let extrac_o = u16_at(d, 10);
                                Ok(DeckCount { mainc_s: mainc_s, sidec_s: sidec_s, extrac_s: extrac_s, mainc_o: mainc_o, sidec_o: sidec_o, extrac_o: extrac_o })
                            }
                        }
                    }
                }
            }
        }
    }

    /// Append the wire bytes of the message body.
    pub fn write(&self, out: &mut Vec<u8>)
        ensures
            final(out)@ == self.bytes_after(old(out)@),
    {
        put_u16(out, self.mainc_s);
        put_u16(out, self.sidec_s);
        put_u16(out, self.extrac_s);
        put_u16(out, self.mainc_o);
        put_u16(out, self.sidec_o);
        put_u16(out, self.extrac_o);
    }

    /// The wire bytes of the message body.
    pub fn to_bytes(&self) -> (r: Vec<u8>)
        ensures
            r@ == self.bytes(),
    {
        let mut out: Vec<u8> = Vec::new();
        self.write(&mut out);
        out
    }

    /// Read the message body from the bytes `d` (bytes after it are left).
    pub fn read(d: &[u8]) -> (r: Result<DeckCount, ReadError>)
        ensures
            r == DeckCount::parse(d@),
    {
        if d.len() < 2 {
            return Err(ReadError::UnexpectedEnd);
        }
        let mainc_s = read_u16(d, 0);
        if d.len() < 4 {
            return Err(ReadError::UnexpectedEnd);
        }
        let sidec_s = read_u16(d, 2);
        if d.len() < 6 {
            return Err(ReadError::UnexpectedEnd);
        }
        let extrac_s = read_u16(d, 4);
        if d.len() < 8 {
            return Err(ReadError::UnexpectedEnd);
        }
        let mainc_o = read_u16(d, 6);
        if d.len() < 10 {
            return Err(ReadError::UnexpectedEnd);
        }
        let sidec_o = read_u16(d, 8);
        if d.len() < 12 {
            return Err(ReadError::UnexpectedEnd);
        }
        let extrac_o = read_u16(d, 10);
        Ok(DeckCount { mainc_s: mainc_s, sidec_s: sidec_s, extrac_s: extrac_s, mainc_o: mainc_o, sidec_o: sidec_o, extrac_o: extrac_o })
    }

    /// The body written and read back is the same message.
    pub proof fn lemma_round_trip(self)
        ensures
            DeckCount::parse(self.bytes()) == Ok::<DeckCount, ReadError>(self),
            self.bytes().len() == DeckCount::size(),
    {
        let s0 = Seq::<u8>::empty();
        let s1 = push16(s0, self.mainc_s);
        lemma_push16(s0, self.mainc_s);
        let s2 = push16(s1, self.sidec_s);
        lemma_push16(s1, self.sidec_s);
        let s3 = push16(s2, self.extrac_s);
        lemma_push16(s2, self.extrac_s);
        let s4 = push16(s3, self.mainc_o);
        lemma_push16(s3, self.mainc_o);
        let s5 = push16(s4, self.sidec_o);
        lemma_push16(s4, self.sidec_o);
        let s6 = push16(s5, self.extrac_o);
        lemma_push16(s5, self.extrac_o);
        let b = s6;
        assert(b == self.bytes());
        assert(b.subrange(0, s1.len() as int) =~= s1);
        assert(b[0] == s1[0] && b[1] == s1[1]);
        assert(b.subrange(0, s2.len() as int) =~= s2);
        assert(b[2] == s2[2] && b[3] == s2[3]);
        assert(b.subrange(0, s3.len() as int) =~= s3);
        assert(b[4] == s3[4] && b[5] == s3[5]);
        assert(b.subrange(0, s4.len() as int) =~= s4);
        assert(b[6] == s4[6] && b[7] == s4[7]);
        assert(b.subrange(0, s5.len() as int) =~= s5);
        assert(b[8] == s5[8] && b[9] == s5[9]);
        assert(b.subrange(0, s6.len() as int) =~= s6);
        assert(b[10] == s6[10] && b[11] == s6[11]);
    }
}

/// A room was created.
#[derive(Clone, Copy, Debug, PartialEq, Eq, Structural)]
pub struct CreateGame {
    pub gameid: u32,
}

impl CreateGame {
    /// The type of this message.
    pub fn message_type() -> (r: MessageType)
        ensures
            r == MessageType::CreateGame,
    {
        MessageType::CreateGame
    }

    /// The number of bytes of the message body.
    pub open spec fn size() -> nat {
        4
    }

    /// `s` followed by the wire bytes of the message body.
    pub open spec fn bytes_after(self, s: Seq<u8>) -> Seq<u8> {
        push32(s, self.gameid)
    }

    /// The wire bytes of the message body.
    pub open spec fn bytes(self) -> Seq<u8> {
        self.bytes_after(Seq::empty())
    }

    /// How the bytes `d` read as the message body.
    pub open spec fn parse(d: Seq<u8>) -> Result<CreateGame, ReadError> {
        if d.len() < 4 {
            Err(ReadError::UnexpectedEnd)
        } else {
            let gameid = u32_at(d, 0);
            Ok(CreateGame { gameid: gameid })
        }
    }

    /// Append the wire bytes of the message body.
    pub fn write(&self, out: &mut Vec<u8>)
        ensures
            final(out)@ == self.bytes_after(old(out)@),
    {
        put_u32(out, self.gameid);
    }

    /// The wire bytes of the message body.
    pub fn to_bytes(&self) -> (r: Vec<u8>)
        ensures
            r@ == self.bytes(),
    {
        let mut out: Vec<u8> = Vec::new();
        self.write(&mut out);
        out
    }

    /// Read the message body from the bytes `d` (bytes after it are left).
    pub fn read(d: &[u8]) -> (r: Result<CreateGame, ReadError>)
        ensures
            r == CreateGame::parse(d@),
    {
        if d.len() < 4 {
            return Err(ReadError::UnexpectedEnd);
        }
        let gameid = read_u32(d, 0);
        Ok(CreateGame { gameid: gameid })
    }

    /// The body written and read back is the same message.
    pub proof fn lemma_round_trip(self)
        ensures
            CreateGame::parse(self.bytes()) == Ok::<CreateGame, ReadError>(self),
            self.bytes().len() == CreateGame::size(),
    {
        let s0 = Seq::<u8>::empty();
        let s1 = push32(s0, self.gameid);
        lemma_push32(s0, self.gameid);
        let b = s1;
        assert(b == self.bytes());
        assert(b.subrange(0, s1.len() as int) =~= s1);
        assert(b[0] == s1[0] && b[1] == s1[1] && b[2] == s1[2] && b[3] == s1[3]);
    }
}

/// The seat and host flag of a client, as one byte.
#[derive(Clone, Copy, Debug, PartialEq, Eq, Structural)]
pub struct TypeChange {
    pub _type: u8,
}

impl TypeChange {
    /// The type of this message.
    pub fn message_type() -> (r: MessageType)
        ensures
            r == MessageType::TypeChange,
    {
        MessageType::TypeChange
    }

    /// The number of bytes of the message body.
    pub open spec fn size() -> nat {
        1
    }

    /// `s` followed by the wire bytes of the message body.
    pub open spec fn bytes_after(self, s: Seq<u8>) -> Seq<u8> {
        s.push(self._type)
    }

    /// The wire bytes of the message body.
    pub open spec fn bytes(self) -> Seq<u8> {
        self.bytes_after(Seq::empty())
    }

    /// How the bytes `d` read as the message body.
    pub open spec fn parse(d: Seq<u8>) -> Result<TypeChange, ReadError> {
        if d.len() < 1 {
            Err(ReadError::UnexpectedEnd)
        } else {
            let _type = d[0];
            Ok(TypeChange { _type: _type })
        }
    }

    /// Append the wire bytes of the message body.
    pub fn write(&self, out: &mut Vec<u8>)
        ensures
            final(out)@ == self.bytes_after(old(out)@),
    {
        out.push(self._type);
    }

    /// The wire bytes of the message body.
    pub fn to_bytes(&self) -> (r: Vec<u8>)
        ensures
            r@ == self.bytes(),
    {
        let mut out: Vec<u8> = Vec::new();
        self.write(&mut out);
        out
    }

    /// Read the message body from the bytes `d` (bytes after it are left).
    pub fn read(d: &[u8]) -> (r: Result<TypeChange, ReadError>)
        ensures
            r == TypeChange::parse(d@),
    {
        if d.len() < 1 {
            return Err(ReadError::UnexpectedEnd);
        }
        let _type = d[0];
        Ok(TypeChange { _type: _type })
    }

    /// The body written and read back is the same message.
    pub proof fn lemma_round_trip(self)
        ensures
            TypeChange::parse(self.bytes()) == Ok::<TypeChange, ReadError>(self),
            self.bytes().len() == TypeChange::size(),
    {
        let s0 = Seq::<u8>::empty();
        let s1 = s0.push(self._type);
        let b = s1;
        assert(b == self.bytes());
    }
}

/// A player left.
#[derive(Clone, Copy, Debug, PartialEq, Eq, Structural)]
pub struct LeaveGame {
    pub pos: Netplayer,
}

impl LeaveGame {
    /// The type of this message.
    pub fn message_type() -> (r: MessageType)
        ensures
            r == MessageType::LeaveGame,
    {
        MessageType::LeaveGame
    }

    /// The number of bytes of the message body.
    pub open spec fn size() -> nat {
        1
    }

    /// `s` followed by the wire bytes of the message body.
    pub open spec fn bytes_after(self, s: Seq<u8>) -> Seq<u8> {
        s.push(self.pos.code())
    }

    /// The wire bytes of the message body.
    pub open spec fn bytes(self) -> Seq<u8> {
        self.bytes_after(Seq::empty())
    }

    /// How the bytes `d` read as the message body.
    pub open spec fn parse(d: Seq<u8>) -> Result<LeaveGame, ReadError> {
        if d.len() < 1 {
            Err(ReadError::UnexpectedEnd)
        } else {
            match Netplayer::of_code(d[0]) {
                None => Err(ReadError::NoVariantMatch),
                Some(pos) => {
                    Ok(LeaveGame { pos: pos })
                    },
                }
        }
    }

    /// Append the wire bytes of the message body.
    pub fn write(&self, out: &mut Vec<u8>)
        ensures
            final(out)@ == self.bytes_after(old(out)@),
    {
        out.push(self.pos.value());
    }

    /// The wire bytes of the message body.
    pub fn to_bytes(&self) -> (r: Vec<u8>)
        ensures
            r@ == self.bytes(),
    {
        let mut out: Vec<u8> = Vec::new();
        self.write(&mut out);
        out
    }

    /// Read the message body from the bytes `d` (bytes after it are left).
    pub fn read(d: &[u8]) -> (r: Result<LeaveGame, ReadError>)
        ensures
            r == LeaveGame::parse(d@),
    {
        if d.len() < 1 {
            return Err(ReadError::UnexpectedEnd);
        }
        let pos = match Netplayer::from_value(d[0]) {
            Some(x) => x,
            None => return Err(ReadError::NoVariantMatch),
        };
        Ok(LeaveGame { pos: pos })
    }

    /// The body written and read back is the same message.
    pub proof fn lemma_round_trip(self)
        ensures
            LeaveGame::parse(self.bytes()) == Ok::<LeaveGame, ReadError>(self),
            self.bytes().len() == LeaveGame::size(),
    {
        let s0 = Seq::<u8>::empty();
        let s1 = s0.push(self.pos.code());
        let b = s1;
        assert(b == self.bytes());
    }
}

/// A duel starts.
#[derive(Clone, Copy, Debug, PartialEq, Eq, Structural)]
pub struct DuelStart;

impl DuelStart {
    /// The type of this message.
    pub fn message_type() -> (r: MessageType)
        ensures
            r == MessageType::DuelStart,
    {
        MessageType::DuelStart
    }

    /// The number of bytes of the message body.
    pub open spec fn size() -> nat {
        0
    }

    /// `s` followed by the wire bytes of the message body.
    pub open spec fn bytes_after(self, s: Seq<u8>) -> Seq<u8> {
        s
    }

    /// The wire bytes of the message body.
    pub open spec fn bytes(self) -> Seq<u8> {
        self.bytes_after(Seq::empty())
    }

    /// How the bytes `d` read as the message body.
    pub open spec fn parse(d: Seq<u8>) -> Result<DuelStart, ReadError> {
        Ok(DuelStart)
    }

    /// Append the wire bytes of the message body.
    pub fn write(&self, out: &mut Vec<u8>)
        ensures
            final(out)@ == self.bytes_after(old(out)@),
    {
    }

    /// The wire bytes of the message body.
    pub fn to_bytes(&self) -> (r: Vec<u8>)
        ensures
            r@ == self.bytes(),
    {
        let mut out: Vec<u8> = Vec::new();
        self.write(&mut out);
        out
    }

    /// Read the message body from the bytes `d` (bytes after it are left).
    pub fn read(d: &[u8]) -> (r: Result<DuelStart, ReadError>)
        ensures
            r == DuelStart::parse(d@),
    {
        Ok(DuelStart)
    }

    /// The body written and read back is the same message.
    pub proof fn lemma_round_trip(self)
        ensures
            DuelStart::parse(self.bytes()) == Ok::<DuelStart, ReadError>(self),
            self.bytes().len() == DuelStart::size(),
    {
        let s0 = Seq::<u8>::empty();
        let b = s0;
        assert(b == self.bytes());
    }
}

/// A duel ended.
#[derive(Clone, Copy, Debug, PartialEq, Eq, Structural)]
pub struct DuelEnd;

impl DuelEnd {
    /// The type of this message.
    pub fn message_type() -> (r: MessageType)
        ensures
            r == MessageType::DuelEnd,
    {
        MessageType::DuelEnd
    }

    /// The number of bytes of the message body.
    pub open spec fn size() -> nat {
        0
    }

    /// `s` followed by the wire bytes of the message body.
    pub open spec fn bytes_after(self, s: Seq<u8>) -> Seq<u8> {
        s
    }

    /// The wire bytes of the message body.
    pub open spec fn bytes(self) -> Seq<u8> {
        self.bytes_after(Seq::empty())
    }

    /// How the bytes `d` read as the message body.
    pub open spec fn parse(d: Seq<u8>) -> Result<DuelEnd, ReadError> {
        Ok(DuelEnd)
    }

    /// Append the wire bytes of the message body.
    pub fn write(&self, out: &mut Vec<u8>)
        ensures
            final(out)@ == self.bytes_after(old(out)@),
    {
    }

    /// The wire bytes of the message body.
    pub fn to_bytes(&self) -> (r: Vec<u8>)
        ensures
            r@ == self.bytes(),
    {
        let mut out: Vec<u8> = Vec::new();
        self.write(&mut out);
        out
    }

    /// Read the message body from the bytes `d` (bytes after it are left).
    pub fn read(d: &[u8]) -> (r: Result<DuelEnd, ReadError>)
        ensures
            r == DuelEnd::parse(d@),
    {
        Ok(DuelEnd)
    }

    /// The body written and read back is the same message.
    pub proof fn lemma_round_trip(self)
        ensures
            DuelEnd::parse(self.bytes()) == Ok::<DuelEnd, ReadError>(self),
            self.bytes().len() == DuelEnd::size(),
    {
        let s0 = Seq::<u8>::empty();
        let b = s0;
        assert(b == self.bytes());
    }
}

/// The time a player has left.
#[derive(Clone, Copy, Debug, PartialEq, Eq, Structural)]
pub struct TimeLimit {
    pub player: Netplayer,
    pub left_time: u16,
}

impl TimeLimit {
    /// The type of this message.
    pub fn message_type() -> (r: MessageType)
        ensures
            r == MessageType::TimeLimit,
    {
        MessageType::TimeLimit
    }

    /// The number of bytes of the message body.
    pub open spec fn size() -> nat {
        4
    }

    /// `s` followed by the wire bytes of the message body.
    pub open spec fn bytes_after(self, s: Seq<u8>) -> Seq<u8> {
        push16(s.push(self.player.code()).push(0u8), self.left_time)
    }

    /// The wire bytes of the message body.
    pub open spec fn bytes(self) -> Seq<u8> {
        self.bytes_after(Seq::empty())
    }

    /// How the bytes `d` read as the message body.
    pub open spec fn parse(d: Seq<u8>) -> Result<TimeLimit, ReadError> {
        if d.len() < 1 {
            Err(ReadError::UnexpectedEnd)
        } else {
            match Netplayer::of_code(d[0]) {
                None => Err(ReadError::NoVariantMatch),
                Some(player) => {
                    if d.len() < 4 {
                        Err(ReadError::UnexpectedEnd)
                    } else {
                        let left_time = u16_at(d, 2);
                        Ok(TimeLimit { player: player, left_time: left_time })
                    }
                    },
                }
        }
    }

    /// Append the wire bytes of the message body.
    pub fn write(&self, out: &mut Vec<u8>)
        ensures
            final(out)@ == self.bytes_after(old(out)@),
    {
        out.push(self.player.value());
        out.push(0u8);
        put_u16(out, self.left_time);
    }

    /// The wire bytes of the message body.
    pub fn to_bytes(&self) -> (r: Vec<u8>)
        ensures
            r@ == self.bytes(),
    {
        let mut out: Vec<u8> = Vec::new();
        self.write(&mut out);
        out
    }

    /// Read the message body from the bytes `d` (bytes after it are left).
    pub fn read(d: &[u8]) -> (r: Result<TimeLimit, ReadError>)
        ensures
            r == TimeLimit::parse(d@),
    {
        if d.len() < 1 {
            return Err(ReadError::UnexpectedEnd);
        }
        let player = match Netplayer::from_value(d[0]) {
            Some(x) => x,
            None => return Err(ReadError::NoVariantMatch),
        };
        if d.len() < 4 {
            return Err(ReadError::UnexpectedEnd);
        }
        let left_time = read_u16(d, 2);
        Ok(TimeLimit { player: player, left_time: left_time })
    }

    /// The body written and read back is the same message.
    pub proof fn lemma_round_trip(self)
        ensures
            TimeLimit::parse(self.bytes()) == Ok::<TimeLimit, ReadError>(self),
            self.bytes().len() == TimeLimit::size(),
    {
        let s0 = Seq::<u8>::empty();
        let s1 = s0.push(self.player.code());
        let s2 = s1.push(0u8);
        let s3 = push16(s2, self.left_time);
        lemma_push16(s2, self.left_time);
        let b = s3;
        assert(b == self.bytes());
        assert(b.subrange(0, s3.len() as int) =~= s3);
        assert(b[2] == s3[2] && b[3] == s3[3]);
    }
}

/// A seat changed in the waiting room.
#[derive(Clone, Copy, Debug, PartialEq, Eq, Structural)]
pub struct HsPlayerChange {
    pub status: PlayerChange,
}

impl HsPlayerChange {
    /// The type of this message.
    pub fn message_type() -> (r: MessageType)
        ensures
            r == MessageType::HsPlayerChange,
    {
        MessageType::HsPlayerChange
    }

    /// The number of bytes of the message body.
    pub open spec fn size() -> nat {
        1
    }

    /// `s` followed by the wire bytes of the message body.
    pub open spec fn bytes_after(self, s: Seq<u8>) -> Seq<u8> {
        s.push(self.status.code())
    }

    /// The wire bytes of the message body.
    pub open spec fn bytes(self) -> Seq<u8> {
        self.bytes_after(Seq::empty())
    }

    /// How the bytes `d` read as the message body.
    pub open spec fn parse(d: Seq<u8>) -> Result<HsPlayerChange, ReadError> {
        if d.len() < 1 {
            Err(ReadError::UnexpectedEnd)
        } else {
            match PlayerChange::of_code(d[0]) {
                None => Err(ReadError::NoVariantMatch),
                Some(status) => {
                    Ok(HsPlayerChange { status: status })
                    },
                }
        }
    }

    /// Append the wire bytes of the message body.
    pub fn write(&self, out: &mut Vec<u8>)
        ensures
            final(out)@ == self.bytes_after(old(out)@),
    {
        out.push(self.status.as_u8());
    }

    /// The wire bytes of the message body.
    pub fn to_bytes(&self) -> (r: Vec<u8>)
        ensures
            r@ == self.bytes(),
    {
        let mut out: Vec<u8> = Vec::new();
        self.write(&mut out);
        out
    }

    /// Read the message body from the bytes `d` (bytes after it are left).
    pub fn read(d: &[u8]) -> (r: Result<HsPlayerChange, ReadError>)
        ensures
            r == HsPlayerChange::parse(d@),
    {
        if d.len() < 1 {
            return Err(ReadError::UnexpectedEnd);
        }
        let status = match PlayerChange::try_from_u8(d[0]) {
            Some(x) => x,
            None => return Err(ReadError::NoVariantMatch),
        };
        Ok(HsPlayerChange { status: status })
    }

    /// The body written and read back is the same message.
    pub proof fn lemma_round_trip(self)
        ensures
            HsPlayerChange::parse(self.bytes()) == Ok::<HsPlayerChange, ReadError>(self),
            self.bytes().len() == HsPlayerChange::size(),
    {
        let s0 = Seq::<u8>::empty();
        let s1 = s0.push(self.status.code());
        let b = s1;
        assert(b == self.bytes());
    }
}

/// The number of observers changed.
#[derive(Clone, Copy, Debug, PartialEq, Eq, Structural)]
pub struct HsWatchChange {
    pub watch_count: u16,
}

impl HsWatchChange {
    /// The type of this message.
    pub fn message_type() -> (r: MessageType)
        ensures
            r == MessageType::HsWatchChange,
    {
        MessageType::HsWatchChange
    }

    /// The number of bytes of the message body.
    pub open spec fn size() -> nat {
        2
    }

    /// `s` followed by the wire bytes of the message body.
    pub open spec fn bytes_after(self, s: Seq<u8>) -> Seq<u8> {
        push16(s, self.watch_count)
    }

    /// The wire bytes of the message body.
    pub open spec fn bytes(self) -> Seq<u8> {
        self.bytes_after(Seq::empty())
    }

    /// How the bytes `d` read as the message body.
    pub open spec fn parse(d: Seq<u8>) -> Result<HsWatchChange, ReadError> {
        if d.len() < 2 {
            Err(ReadError::UnexpectedEnd)
        } else {
            let watch_count = u16_at(d, 0);
            Ok(HsWatchChange { watch_count: watch_count })
        }
    }

    /// Append the wire bytes of the message body.
    pub fn write(&self, out: &mut Vec<u8>)
        ensures
            final(out)@ == self.bytes_after(old(out)@),
    {
        put_u16(out, self.watch_count);
    }

    /// The wire bytes of the message body.
    pub fn to_bytes(&self) -> (r: Vec<u8>)
        ensures
            r@ == self.bytes(),
    {
        let mut out: Vec<u8> = Vec::new();
        self.write(&mut out);
        out
    }

    /// Read the message body from the bytes `d` (bytes after it are left).
    pub fn read(d: &[u8]) -> (r: Result<HsWatchChange, ReadError>)
        ensures
            r == HsWatchChange::parse(d@),
    {
        if d.len() < 2 {
            return Err(ReadError::UnexpectedEnd);
        }
        let watch_count = read_u16(d, 0);
        Ok(HsWatchChange { watch_count: watch_count })
    }

    /// The body written and read back is the same message.
    pub proof fn lemma_round_trip(self)
        ensures
            HsWatchChange::parse(self.bytes()) == Ok::<HsWatchChange, ReadError>(self),
            self.bytes().len() == HsWatchChange::size(),
    {
        let s0 = Seq::<u8>::empty();
        let s1 = push16(s0, self.watch_count);
        lemma_push16(s0, self.watch_count);
        let b = s1;
        assert(b == self.bytes());
        assert(b.subrange(0, s1.len() as int) =~= s1);
        assert(b[0] == s1[0] && b[1] == s1[1]);
    }
}

/// The field has been sent.
#[derive(Clone, Copy, Debug, PartialEq, Eq, Structural)]
pub struct FieldFinish;

impl FieldFinish {
    /// The type of this message.
    pub fn message_type() -> (r: MessageType)
        ensures
            r == MessageType::FieldFinish,
    {
        MessageType::FieldFinish
    }

    /// The number of bytes of the message body.
    pub open spec fn size() -> nat {
        0
    }

    /// `s` followed by the wire bytes of the message body.
    pub open spec fn bytes_after(self, s: Seq<u8>) -> Seq<u8> {
        s
    }

    /// The wire bytes of the message body.
    pub open spec fn bytes(self) -> Seq<u8> {
        self.bytes_after(Seq::empty())
    }

    /// How the bytes `d` read as the message body.
    pub open spec fn parse(d: Seq<u8>) -> Result<FieldFinish, ReadError> {
        Ok(FieldFinish)
    }

    /// Append the wire bytes of the message body.
    pub fn write(&self, out: &mut Vec<u8>)
        ensures
            final(out)@ == self.bytes_after(old(out)@),
    {
    }

    /// The wire bytes of the message body.
    pub fn to_bytes(&self) -> (r: Vec<u8>)
        ensures
            r@ == self.bytes(),
    {
        let mut out: Vec<u8> = Vec::new();
        self.write(&mut out);
        out
    }

    /// Read the message body from the bytes `d` (bytes after it are left).
    pub fn read(d: &[u8]) -> (r: Result<FieldFinish, ReadError>)
        ensures
            r == FieldFinish::parse(d@),
    {
        Ok(FieldFinish)
    }

    /// The body written and read back is the same message.
    pub proof fn lemma_round_trip(self)
        ensures
            FieldFinish::parse(self.bytes()) == Ok::<FieldFinish, ReadError>(self),
            self.bytes().len() == FieldFinish::size(),
    {
        let s0 = Seq::<u8>::empty();
        let b = s0;
        assert(b == self.bytes());
    }
}

} // verus!
