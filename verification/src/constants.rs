//! Constants and enumerations shared across the protocol: seats, players, modes,
//! positions, stages, hints, phases and the flag sets of cards and locations.
use vstd::prelude::*;

verus! {

/// The network role tag.
#[derive(Clone, Copy, Debug, PartialEq, Eq, Structural)]
pub enum Network {
    ServerId,
    ClientId,
}

impl Network {
    /// The wire value of each variant.
    pub open spec fn code(self) -> u16 {
        match self {
            Network::ServerId => 29736u16,
            Network::ClientId => 57078u16,
        }
    }

    /// The variant a wire value stands for, if any.
    pub open spec fn of_code(v: u16) -> Option<Network> {
        if v == 29736u16 {
            Some(Network::ServerId)
        } else if v == 57078u16 {
            Some(Network::ClientId)
        } else {
            None
        }
    }

    /// The wire value of this variant.
    pub fn value(self) -> (r: u16)
        ensures
            r == self.code(),
            Network::of_code(r) == Some(self),
    {
        match self {
            Network::ServerId => 29736u16,
            Network::ClientId => 57078u16,
        }
    }

    /// The variant a wire value stands for; `None` for any other value.
    pub fn from_value(v: u16) -> (r: Option<Network>)
        ensures
            r == Network::of_code(v),
            r matches Some(x) ==> x.code() == v,
    {
        if v == 29736u16 {
            Some(Network::ServerId)
        } else if v == 57078u16 {
            Some(Network::ClientId)
        } else {
            None
        }
    }
}

/// A seat at the table as the network sees it.
#[derive(Clone, Copy, Debug, PartialEq, Eq, Structural)]
pub enum Netplayer {
    Player1,
    Player2,
    Player3,
    Player4,
    Player5,
    Player6,
    Observer,
}

impl Netplayer {
    /// The wire value of each variant.
    pub open spec fn code(self) -> u8 {
        match self {
            Netplayer::Player1 => 0u8,
            Netplayer::Player2 => 1u8,
            Netplayer::Player3 => 2u8,
            Netplayer::Player4 => 3u8,
            Netplayer::Player5 => 4u8,
            Netplayer::Player6 => 5u8,
            Netplayer::Observer => 7u8,
        }
    }

    /// The variant a wire value stands for, if any.
    pub open spec fn of_code(v: u8) -> Option<Netplayer> {
        if v == 0u8 {
            Some(Netplayer::Player1)
        } else if v == 1u8 {
            Some(Netplayer::Player2)
        } else if v == 2u8 {
            Some(Netplayer::Player3)
        } else if v == 3u8 {
            Some(Netplayer::Player4)
        } else if v == 4u8 {
            Some(Netplayer::Player5)
        } else if v == 5u8 {
            Some(Netplayer::Player6)
        } else if v == 7u8 {
            Some(Netplayer::Observer)
        } else {
            None
        }
    }

    /// The wire value of this variant.
    pub fn value(self) -> (r: u8)
        ensures
            r == self.code(),
            Netplayer::of_code(r) == Some(self),
    {
        match self {
            Netplayer::Player1 => 0u8,
            Netplayer::Player2 => 1u8,
            Netplayer::Player3 => 2u8,
            Netplayer::Player4 => 3u8,
            Netplayer::Player5 => 4u8,
            Netplayer::Player6 => 5u8,
            Netplayer::Observer => 7u8,
        }
    }

    /// The variant a wire value stands for; `None` for any other value.
    pub fn from_value(v: u8) -> (r: Option<Netplayer>)
        ensures
            r == Netplayer::of_code(v),
            r matches Some(x) ==> x.code() == v,
    {
        if v == 0u8 {
            Some(Netplayer::Player1)
        } else if v == 1u8 {
            Some(Netplayer::Player2)
        } else if v == 2u8 {
            Some(Netplayer::Player3)
        } else if v == 3u8 {
            Some(Netplayer::Player4)
        } else if v == 4u8 {
            Some(Netplayer::Player5)
        } else if v == 5u8 {
            Some(Netplayer::Player6)
        } else if v == 7u8 {
            Some(Netplayer::Observer)
        } else {
            None
        }
    }
}

/// A player as the engine sees it.
#[derive(Clone, Copy, Debug, PartialEq, Eq, Structural)]
pub enum LocalPlayer {
    FirstPlayer,
    SecondPlayer,
    NoPlayer,
    All,
    Rule,
}

impl LocalPlayer {
    /// The wire value of each variant.
    pub open spec fn code(self) -> u8 {
        match self {
            LocalPlayer::FirstPlayer => 0u8,
            LocalPlayer::SecondPlayer => 1u8,
            LocalPlayer::NoPlayer => 2u8,
            LocalPlayer::All => 3u8,
            LocalPlayer::Rule => 5u8,
        }
    }

    /// The variant a wire value stands for, if any.
    pub open spec fn of_code(v: u8) -> Option<LocalPlayer> {
        if v == 0u8 {
            Some(LocalPlayer::FirstPlayer)
        } else if v == 1u8 {
            Some(LocalPlayer::SecondPlayer)
        } else if v == 2u8 {
            Some(LocalPlayer::NoPlayer)
        } else if v == 3u8 {
            Some(LocalPlayer::All)
        } else if v == 5u8 {
            Some(LocalPlayer::Rule)
        } else {
            None
        }
    }

    /// The wire value of this variant.
    pub fn value(self) -> (r: u8)
        ensures
            r == self.code(),
            LocalPlayer::of_code(r) == Some(self),
    {
        match self {
            LocalPlayer::FirstPlayer => 0u8,
            LocalPlayer::SecondPlayer => 1u8,
            LocalPlayer::NoPlayer => 2u8,
            LocalPlayer::All => 3u8,
            LocalPlayer::Rule => 5u8,
        }
    }

    /// The variant a wire value stands for; `None` for any other value.
    pub fn from_value(v: u8) -> (r: Option<LocalPlayer>)
        ensures
            r == LocalPlayer::of_code(v),
            r matches Some(x) ==> x.code() == v,
    {
        if v == 0u8 {
            Some(LocalPlayer::FirstPlayer)
        } else if v == 1u8 {
            Some(LocalPlayer::SecondPlayer)
        } else if v == 2u8 {
            Some(LocalPlayer::NoPlayer)
        } else if v == 3u8 {
            Some(LocalPlayer::All)
        } else if v == 5u8 {
            Some(LocalPlayer::Rule)
        } else {
            None
        }
    }
}

/// A player as the duel engine numbers it: by who attacks first.
#[derive(Clone, Copy, Debug, PartialEq, Eq, Structural)]
pub enum CorePlayer {
    FirstAttackPlayer,
    SecondAttackPlayer,
    NoPlayer,
    All,
    Rule,
}

impl CorePlayer {
    /// The wire value of each variant.
    pub open spec fn code(self) -> u8 {
        match self {
            CorePlayer::FirstAttackPlayer => 0u8,
            CorePlayer::SecondAttackPlayer => 1u8,
            CorePlayer::NoPlayer => 2u8,
            CorePlayer::All => 3u8,
            CorePlayer::Rule => 5u8,
        }
    }

    /// The variant a wire value stands for, if any.
    pub open spec fn of_code(v: u8) -> Option<CorePlayer> {
        if v == 0u8 {
            Some(CorePlayer::FirstAttackPlayer)
        } else if v == 1u8 {
            Some(CorePlayer::SecondAttackPlayer)
        } else if v == 2u8 {
            Some(CorePlayer::NoPlayer)
        } else if v == 3u8 {
            Some(CorePlayer::All)
        } else if v == 5u8 {
            Some(CorePlayer::Rule)
        } else {
            None
        }
    }

    /// The wire value of this variant.
    pub fn value(self) -> (r: u8)
        ensures
            r == self.code(),
            CorePlayer::of_code(r) == Some(self),
    {
        match self {
            CorePlayer::FirstAttackPlayer => 0u8,
            CorePlayer::SecondAttackPlayer => 1u8,
            CorePlayer::NoPlayer => 2u8,
            CorePlayer::All => 3u8,
            CorePlayer::Rule => 5u8,
        }
    }

    /// The variant a wire value stands for; `None` for any other value.
    pub fn from_value(v: u8) -> (r: Option<CorePlayer>)
        ensures
            r == CorePlayer::of_code(v),
            r matches Some(x) ==> x.code() == v,
    {
        if v == 0u8 {
            Some(CorePlayer::FirstAttackPlayer)
        } else if v == 1u8 {
            Some(CorePlayer::SecondAttackPlayer)
        } else if v == 2u8 {
            Some(CorePlayer::NoPlayer)
        } else if v == 3u8 {
            Some(CorePlayer::All)
        } else if v == 5u8 {
            Some(CorePlayer::Rule)
        } else {
            None
        }
    }
}

/// The kind of an error message sent to a client.
#[derive(Clone, Copy, Debug, PartialEq, Eq, Structural)]
pub enum ErrorMessage {
    JoinError,
    DeckError,
    SideError,
    VersionError,
}

impl ErrorMessage {
    /// The wire value of each variant.
    pub open spec fn code(self) -> u8 {
        match self {
            ErrorMessage::JoinError => 1u8,
            ErrorMessage::DeckError => 2u8,
            ErrorMessage::SideError => 3u8,
            ErrorMessage::VersionError => 4u8,
        }
    }

    /// The variant a wire value stands for, if any.
    pub open spec fn of_code(v: u8) -> Option<ErrorMessage> {
        if v == 1u8 {
            Some(ErrorMessage::JoinError)
        } else if v == 2u8 {
            Some(ErrorMessage::DeckError)
        } else if v == 3u8 {
            Some(ErrorMessage::SideError)
        } else if v == 4u8 {
            Some(ErrorMessage::VersionError)
        } else {
            None
        }
    }

    /// The wire value of this variant.
    pub fn value(self) -> (r: u8)
        ensures
            r == self.code(),
            ErrorMessage::of_code(r) == Some(self),
    {
        match self {
            ErrorMessage::JoinError => 1u8,
            ErrorMessage::DeckError => 2u8,
            ErrorMessage::SideError => 3u8,
            ErrorMessage::VersionError => 4u8,
        }
    }

    /// The variant a wire value stands for; `None` for any other value.
    pub fn from_value(v: u8) -> (r: Option<ErrorMessage>)
        ensures
            r == ErrorMessage::of_code(v),
            r matches Some(x) ==> x.code() == v,
    {
        if v == 1u8 {
            Some(ErrorMessage::JoinError)
        } else if v == 2u8 {
            Some(ErrorMessage::DeckError)
        } else if v == 3u8 {
            Some(ErrorMessage::SideError)
        } else if v == 4u8 {
            Some(ErrorMessage::VersionError)
        } else {
            None
        }
    }
}

/// The match mode of a room.
#[derive(Clone, Copy, Debug, PartialEq, Eq, Structural)]
pub enum Mode {
    Single,
    Match,
    Tag,
}

impl Mode {
    /// The wire value of each variant.
    pub open spec fn code(self) -> u8 {
        match self {
            Mode::Single => 0u8,
            Mode::Match => 1u8,
            Mode::Tag => 2u8,
        }
    }

    /// The variant a wire value stands for, if any.
    pub open spec fn of_code(v: u8) -> Option<Mode> {
        if v == 0u8 {
            Some(Mode::Single)
        } else if v == 1u8 {
            Some(Mode::Match)
        } else if v == 2u8 {
            Some(Mode::Tag)
        } else {
            None
        }
    }

    /// The wire value of this variant.
    pub fn value(self) -> (r: u8)
        ensures
            r == self.code(),
            Mode::of_code(r) == Some(self),
    {
        match self {
            Mode::Single => 0u8,
            Mode::Match => 1u8,
            Mode::Tag => 2u8,
        }
    }

    /// The variant a wire value stands for; `None` for any other value.
    pub fn from_value(v: u8) -> (r: Option<Mode>)
        ensures
            r == Mode::of_code(v),
            r matches Some(x) ==> x.code() == v,
    {
        if v == 0u8 {
            Some(Mode::Single)
        } else if v == 1u8 {
            Some(Mode::Match)
        } else if v == 2u8 {
            Some(Mode::Tag)
        } else {
            None
        }
    }
}

/// A card position.
#[derive(Clone, Copy, Debug, PartialEq, Eq, Structural)]
pub enum Position {
    Any,
    FaceupAttack,
    FaceDownAttack,
    FaceupDefense,
    FacedownDefense,
    Faceup,
    Facedown,
    Attack,
    Defense,
}

impl Position {
    /// The wire value of each variant.
    pub open spec fn code(self) -> u8 {
        match self {
            Position::Any => 0u8,
            Position::FaceupAttack => 1u8,
            Position::FaceDownAttack => 2u8,
            Position::FaceupDefense => 4u8,
            Position::FacedownDefense => 8u8,
            Position::Faceup => 5u8,
            Position::Facedown => 10u8,
            Position::Attack => 3u8,
            Position::Defense => 12u8,
        }
    }

    /// The variant a wire value stands for, if any.
    pub open spec fn of_code(v: u8) -> Option<Position> {
        if v == 0u8 {
            Some(Position::Any)
        } else if v == 1u8 {
            Some(Position::FaceupAttack)
        } else if v == 2u8 {
            Some(Position::FaceDownAttack)
        } else if v == 4u8 {
            Some(Position::FaceupDefense)
        } else if v == 8u8 {
            Some(Position::FacedownDefense)
        } else if v == 5u8 {
            Some(Position::Faceup)
        } else if v == 10u8 {
            Some(Position::Facedown)
        } else if v == 3u8 {
            Some(Position::Attack)
        } else if v == 12u8 {
            Some(Position::Defense)
        } else {
            None
        }
    }

    /// The wire value of this variant.
    pub fn value(self) -> (r: u8)
        ensures
            r == self.code(),
            Position::of_code(r) == Some(self),
    {
        match self {
            Position::Any => 0u8,
            Position::FaceupAttack => 1u8,
            Position::FaceDownAttack => 2u8,
            Position::FaceupDefense => 4u8,
            Position::FacedownDefense => 8u8,
            Position::Faceup => 5u8,
            Position::Facedown => 10u8,
            Position::Attack => 3u8,
            Position::Defense => 12u8,
        }
    }

    /// The variant a wire value stands for; `None` for any other value.
    pub fn from_value(v: u8) -> (r: Option<Position>)
        ensures
            r == Position::of_code(v),
            r matches Some(x) ==> x.code() == v,
    {
        if v == 0u8 {
            Some(Position::Any)
        } else if v == 1u8 {
            Some(Position::FaceupAttack)
        } else if v == 2u8 {
            Some(Position::FaceDownAttack)
        } else if v == 4u8 {
            Some(Position::FaceupDefense)
        } else if v == 8u8 {
            Some(Position::FacedownDefense)
        } else if v == 5u8 {
            Some(Position::Faceup)
        } else if v == 10u8 {
            Some(Position::Facedown)
        } else if v == 3u8 {
            Some(Position::Attack)
        } else if v == 12u8 {
            Some(Position::Defense)
        } else {
            None
        }
    }
}

/// The stage a duel is in.
#[derive(Clone, Copy, Debug, PartialEq, Eq, Structural)]
pub enum Duelstage {
    Begin,
    Finger,
    Firstgo,
    Dueling,
    Siding,
    End,
}

impl Duelstage {
    /// The wire value of each variant.
    pub open spec fn code(self) -> u8 {
        match self {
            Duelstage::Begin => 0u8,
            Duelstage::Finger => 1u8,
            Duelstage::Firstgo => 2u8,
            Duelstage::Dueling => 3u8,
            Duelstage::Siding => 4u8,
            Duelstage::End => 5u8,
        }
    }

    /// The variant a wire value stands for, if any.
    pub open spec fn of_code(v: u8) -> Option<Duelstage> {
        if v == 0u8 {
            Some(Duelstage::Begin)
        } else if v == 1u8 {
            Some(Duelstage::Finger)
        } else if v == 2u8 {
            Some(Duelstage::Firstgo)
        } else if v == 3u8 {
            Some(Duelstage::Dueling)
        } else if v == 4u8 {
            Some(Duelstage::Siding)
        } else if v == 5u8 {
            Some(Duelstage::End)
        } else {
            None
        }
    }

    /// The wire value of this variant.
    pub fn value(self) -> (r: u8)
        ensures
            r == self.code(),
            Duelstage::of_code(r) == Some(self),
    {
        match self {
            Duelstage::Begin => 0u8,
            Duelstage::Finger => 1u8,
            Duelstage::Firstgo => 2u8,
            Duelstage::Dueling => 3u8,
            Duelstage::Siding => 4u8,
            Duelstage::End => 5u8,
        }
    }

    /// The variant a wire value stands for; `None` for any other value.
    pub fn from_value(v: u8) -> (r: Option<Duelstage>)
        ensures
            r == Duelstage::of_code(v),
            r matches Some(x) ==> x.code() == v,
    {
        if v == 0u8 {
            Some(Duelstage::Begin)
        } else if v == 1u8 {
            Some(Duelstage::Finger)
        } else if v == 2u8 {
            Some(Duelstage::Firstgo)
        } else if v == 3u8 {
            Some(Duelstage::Dueling)
        } else if v == 4u8 {
            Some(Duelstage::Siding)
        } else if v == 5u8 {
            Some(Duelstage::End)
        } else {
            None
        }
    }
}

/// Chat colours.
#[derive(Clone, Copy, Debug, PartialEq, Eq, Structural)]
pub enum Colors {
    Observer,
    Lightblue,
    Red,
    Green,
    Blue,
    Babyblue,
    Pink,
    Yellow,
    White,
    Gray,
    Darkgray,
}

impl Colors {
    /// The wire value of each variant.
    pub open spec fn code(self) -> u8 {
        match self {
            Colors::Observer => 7u8,
            Colors::Lightblue => 8u8,
            Colors::Red => 11u8,
            Colors::Green => 12u8,
            Colors::Blue => 13u8,
            Colors::Babyblue => 14u8,
            Colors::Pink => 15u8,
            Colors::Yellow => 16u8,
            Colors::White => 17u8,
            Colors::Gray => 18u8,
            Colors::Darkgray => 19u8,
        }
    }

    /// The variant a wire value stands for, if any.
    pub open spec fn of_code(v: u8) -> Option<Colors> {
        if v == 7u8 {
            Some(Colors::Observer)
        } else if v == 8u8 {
            Some(Colors::Lightblue)
        } else if v == 11u8 {
            Some(Colors::Red)
        } else if v == 12u8 {
            Some(Colors::Green)
        } else if v == 13u8 {
            Some(Colors::Blue)
        } else if v == 14u8 {
            Some(Colors::Babyblue)
        } else if v == 15u8 {
            Some(Colors::Pink)
        } else if v == 16u8 {
            Some(Colors::Yellow)
        } else if v == 17u8 {
            Some(Colors::White)
        } else if v == 18u8 {
            Some(Colors::Gray)
        } else if v == 19u8 {
            Some(Colors::Darkgray)
        } else {
            None
        }
    }

    /// The wire value of this variant.
    pub fn value(self) -> (r: u8)
        ensures
            r == self.code(),
            Colors::of_code(r) == Some(self),
    {
        match self {
            Colors::Observer => 7u8,
            Colors::Lightblue => 8u8,
            Colors::Red => 11u8,
            Colors::Green => 12u8,
            Colors::Blue => 13u8,
            Colors::Babyblue => 14u8,
            Colors::Pink => 15u8,
            Colors::Yellow => 16u8,
            Colors::White => 17u8,
            Colors::Gray => 18u8,
            Colors::Darkgray => 19u8,
        }
    }

    /// The variant a wire value stands for; `None` for any other value.
    pub fn from_value(v: u8) -> (r: Option<Colors>)
        ensures
            r == Colors::of_code(v),
            r matches Some(x) ==> x.code() == v,
    {
        if v == 7u8 {
            Some(Colors::Observer)
        } else if v == 8u8 {
            Some(Colors::Lightblue)
        } else if v == 11u8 {
            Some(Colors::Red)
        } else if v == 12u8 {
            Some(Colors::Green)
        } else if v == 13u8 {
            Some(Colors::Blue)
        } else if v == 14u8 {
            Some(Colors::Babyblue)
        } else if v == 15u8 {
            Some(Colors::Pink)
        } else if v == 16u8 {
            Some(Colors::Yellow)
        } else if v == 17u8 {
            Some(Colors::White)
        } else if v == 18u8 {
            Some(Colors::Gray)
        } else if v == 19u8 {
            Some(Colors::Darkgray)
        } else {
            None
        }
    }
}

/// The kind of a hint message.
#[derive(Clone, Copy, Debug, PartialEq, Eq, Structural)]
pub enum Hint {
    Event,
    Message,
    SelectMessage,
    Opselected,
    Effect,
    Race,
    Attribute,
    Code,
    Number,
    Card,
    Zone,
}

impl Hint {
    /// The wire value of each variant.
    pub open spec fn code(self) -> u8 {
        match self {
            Hint::Event => 1u8,
            Hint::Message => 2u8,
            Hint::SelectMessage => 3u8,
            Hint::Opselected => 4u8,
            Hint::Effect => 5u8,
            Hint::Race => 6u8,
            Hint::Attribute => 7u8,
            Hint::Code => 8u8,
            Hint::Number => 9u8,
            Hint::Card => 10u8,
            Hint::Zone => 11u8,
        }
    }

    /// The variant a wire value stands for, if any.
    pub open spec fn of_code(v: u8) -> Option<Hint> {
        if v == 1u8 {
            Some(Hint::Event)
        } else if v == 2u8 {
            Some(Hint::Message)
        } else if v == 3u8 {
            Some(Hint::SelectMessage)
        } else if v == 4u8 {
            Some(Hint::Opselected)
        } else if v == 5u8 {
            Some(Hint::Effect)
        } else if v == 6u8 {
            Some(Hint::Race)
        } else if v == 7u8 {
            Some(Hint::Attribute)
        } else if v == 8u8 {
            Some(Hint::Code)
        } else if v == 9u8 {
            Some(Hint::Number)
        } else if v == 10u8 {
            Some(Hint::Card)
        } else if v == 11u8 {
            Some(Hint::Zone)
        } else {
            None
        }
    }

    /// The wire value of this variant.
    pub fn value(self) -> (r: u8)
        ensures
            r == self.code(),
            Hint::of_code(r) == Some(self),
    {
        match self {
            Hint::Event => 1u8,
            Hint::Message => 2u8,
            Hint::SelectMessage => 3u8,
            Hint::Opselected => 4u8,
            Hint::Effect => 5u8,
            Hint::Race => 6u8,
            Hint::Attribute => 7u8,
            Hint::Code => 8u8,
            Hint::Number => 9u8,
            Hint::Card => 10u8,
            Hint::Zone => 11u8,
        }
    }

    /// The variant a wire value stands for; `None` for any other value.
    pub fn from_value(v: u8) -> (r: Option<Hint>)
        ensures
            r == Hint::of_code(v),
            r matches Some(x) ==> x.code() == v,
    {
        if v == 1u8 {
            Some(Hint::Event)
        } else if v == 2u8 {
            Some(Hint::Message)
        } else if v == 3u8 {
            Some(Hint::SelectMessage)
        } else if v == 4u8 {
            Some(Hint::Opselected)
        } else if v == 5u8 {
            Some(Hint::Effect)
        } else if v == 6u8 {
            Some(Hint::Race)
        } else if v == 7u8 {
            Some(Hint::Attribute)
        } else if v == 8u8 {
            Some(Hint::Code)
        } else if v == 9u8 {
            Some(Hint::Number)
        } else if v == 10u8 {
            Some(Hint::Card)
        } else if v == 11u8 {
            Some(Hint::Zone)
        } else {
            None
        }
    }
}

/// A phase of a turn.
#[derive(Clone, Copy, Debug, PartialEq, Eq, Structural)]
pub enum Phase {
    Draw,
    Standby,
    Main1,
    BattleStart,
    BattleStep,
    Damage,
    DamageCalculate,
    Battle,
    Main2,
    End,
}

impl Phase {
    /// The wire value of each variant.
    pub open spec fn code(self) -> u16 {
        match self {
            Phase::Draw => 1u16,
            Phase::Standby => 2u16,
            Phase::Main1 => 4u16,
            Phase::BattleStart => 8u16,
            Phase::BattleStep => 16u16,
            Phase::Damage => 32u16,
            Phase::DamageCalculate => 64u16,
            Phase::Battle => 128u16,
            Phase::Main2 => 256u16,
            Phase::End => 512u16,
        }
    }

    /// The variant a wire value stands for, if any.
    pub open spec fn of_code(v: u16) -> Option<Phase> {
        if v == 1u16 {
            Some(Phase::Draw)
        } else if v == 2u16 {
            Some(Phase::Standby)
        } else if v == 4u16 {
            Some(Phase::Main1)
        } else if v == 8u16 {
            Some(Phase::BattleStart)
        } else if v == 16u16 {
            Some(Phase::BattleStep)
        } else if v == 32u16 {
            Some(Phase::Damage)
        } else if v == 64u16 {
            Some(Phase::DamageCalculate)
        } else if v == 128u16 {
            Some(Phase::Battle)
        } else if v == 256u16 {
            Some(Phase::Main2)
        } else if v == 512u16 {
            Some(Phase::End)
        } else {
            None
        }
    }

    /// The wire value of this variant.
    pub fn value(self) -> (r: u16)
        ensures
            r == self.code(),
            Phase::of_code(r) == Some(self),
    {
        match self {
            Phase::Draw => 1u16,
            Phase::Standby => 2u16,
            Phase::Main1 => 4u16,
            Phase::BattleStart => 8u16,
            Phase::BattleStep => 16u16,
            Phase::Damage => 32u16,
            Phase::DamageCalculate => 64u16,
            Phase::Battle => 128u16,
            Phase::Main2 => 256u16,
            Phase::End => 512u16,
        }
    }

    /// The variant a wire value stands for; `None` for any other value.
    pub fn from_value(v: u16) -> (r: Option<Phase>)
        ensures
            r == Phase::of_code(v),
            r matches Some(x) ==> x.code() == v,
    {
        if v == 1u16 {
            Some(Phase::Draw)
        } else if v == 2u16 {
            Some(Phase::Standby)
        } else if v == 4u16 {
            Some(Phase::Main1)
        } else if v == 8u16 {
            Some(Phase::BattleStart)
        } else if v == 16u16 {
            Some(Phase::BattleStep)
        } else if v == 32u16 {
            Some(Phase::Damage)
        } else if v == 64u16 {
            Some(Phase::DamageCalculate)
        } else if v == 128u16 {
            Some(Phase::Battle)
        } else if v == 256u16 {
            Some(Phase::Main2)
        } else if v == 512u16 {
            Some(Phase::End)
        } else {
            None
        }
    }
}

/// A rock-paper-scissors hand.
#[derive(Clone, Copy, Debug, PartialEq, Eq, Structural)]
pub enum Hand {
    Scissor,
    Rock,
    Paper,
}

impl Hand {
    /// The wire value of each variant.
    pub open spec fn code(self) -> u8 {
        match self {
            Hand::Scissor => 1u8,
            Hand::Rock => 2u8,
            Hand::Paper => 3u8,
        }
    }

    /// The variant a wire value stands for, if any.
    pub open spec fn of_code(v: u8) -> Option<Hand> {
        if v == 1u8 {
            Some(Hand::Scissor)
        } else if v == 2u8 {
            Some(Hand::Rock)
        } else if v == 3u8 {
            Some(Hand::Paper)
        } else {
            None
        }
    }

    /// The wire value of this variant.
    pub fn value(self) -> (r: u8)
        ensures
            r == self.code(),
            Hand::of_code(r) == Some(self),
    {
        match self {
            Hand::Scissor => 1u8,
            Hand::Rock => 2u8,
            Hand::Paper => 3u8,
        }
    }

    /// The variant a wire value stands for; `None` for any other value.
    pub fn from_value(v: u8) -> (r: Option<Hand>)
        ensures
            r == Hand::of_code(v),
            r matches Some(x) ==> x.code() == v,
    {
        if v == 1u8 {
            Some(Hand::Scissor)
        } else if v == 2u8 {
            Some(Hand::Rock)
        } else if v == 3u8 {
            Some(Hand::Paper)
        } else {
            None
        }
    }
}

/// An operation of an announce-card filter.
#[derive(Clone, Copy, Debug, PartialEq, Eq, Structural)]
pub enum OperationCode {
    Add,
    Subtract,
    Multiply,
    Divide,
    And,
    Or,
    Negate,
    Not,
    IsCode,
    IsSetcard,
    IsType,
    IsRace,
    IsAttribute,
}

impl OperationCode {
    /// The wire value of each variant.
    pub open spec fn code(self) -> u32 {
        match self {
            OperationCode::Add => 1073741824u32,
            OperationCode::Subtract => 1073741825u32,
            OperationCode::Multiply => 1073741826u32,
            OperationCode::Divide => 1073741827u32,
            OperationCode::And => 1073741828u32,
            OperationCode::Or => 1073741829u32,
            OperationCode::Negate => 1073741830u32,
            OperationCode::Not => 1073741831u32,
            OperationCode::IsCode => 1073742080u32,
            OperationCode::IsSetcard => 1073742081u32,
            OperationCode::IsType => 1073742082u32,
            OperationCode::IsRace => 1073742083u32,
            OperationCode::IsAttribute => 1073742084u32,
        }
    }

    /// The variant a wire value stands for, if any.
    pub open spec fn of_code(v: u32) -> Option<OperationCode> {
        if v == 1073741824u32 {
            Some(OperationCode::Add)
        } else if v == 1073741825u32 {
            Some(OperationCode::Subtract)
        } else if v == 1073741826u32 {
            Some(OperationCode::Multiply)
        } else if v == 1073741827u32 {
            Some(OperationCode::Divide)
        } else if v == 1073741828u32 {
            Some(OperationCode::And)
        } else if v == 1073741829u32 {
            Some(OperationCode::Or)
        } else if v == 1073741830u32 {
            Some(OperationCode::Negate)
        } else if v == 1073741831u32 {
            Some(OperationCode::Not)
        } else if v == 1073742080u32 {
            Some(OperationCode::IsCode)
        } else if v == 1073742081u32 {
            Some(OperationCode::IsSetcard)
        } else if v == 1073742082u32 {
            Some(OperationCode::IsType)
        } else if v == 1073742083u32 {
            Some(OperationCode::IsRace)
        } else if v == 1073742084u32 {
            Some(OperationCode::IsAttribute)
        } else {
            None
        }
    }

    /// The wire value of this variant.
    pub fn value(self) -> (r: u32)
        ensures
            r == self.code(),
            OperationCode::of_code(r) == Some(self),
    {
        match self {
            OperationCode::Add => 1073741824u32,
            OperationCode::Subtract => 1073741825u32,
            OperationCode::Multiply => 1073741826u32,
            OperationCode::Divide => 1073741827u32,
            OperationCode::And => 1073741828u32,
            OperationCode::Or => 1073741829u32,
            OperationCode::Negate => 1073741830u32,
            OperationCode::Not => 1073741831u32,
            OperationCode::IsCode => 1073742080u32,
            OperationCode::IsSetcard => 1073742081u32,
            OperationCode::IsType => 1073742082u32,
            OperationCode::IsRace => 1073742083u32,
            OperationCode::IsAttribute => 1073742084u32,
        }
    }

    /// The variant a wire value stands for; `None` for any other value.
    pub fn from_value(v: u32) -> (r: Option<OperationCode>)
        ensures
            r == OperationCode::of_code(v),
            r matches Some(x) ==> x.code() == v,
    {
        if v == 1073741824u32 {
            Some(OperationCode::Add)
        } else if v == 1073741825u32 {
            Some(OperationCode::Subtract)
        } else if v == 1073741826u32 {
            Some(OperationCode::Multiply)
        } else if v == 1073741827u32 {
            Some(OperationCode::Divide)
        } else if v == 1073741828u32 {
            Some(OperationCode::And)
        } else if v == 1073741829u32 {
            Some(OperationCode::Or)
        } else if v == 1073741830u32 {
            Some(OperationCode::Negate)
        } else if v == 1073741831u32 {
            Some(OperationCode::Not)
        } else if v == 1073742080u32 {
            Some(OperationCode::IsCode)
        } else if v == 1073742081u32 {
            Some(OperationCode::IsSetcard)
        } else if v == 1073742082u32 {
            Some(OperationCode::IsType)
        } else if v == 1073742083u32 {
            Some(OperationCode::IsRace)
        } else if v == 1073742084u32 {
            Some(OperationCode::IsAttribute)
        } else {
            None
        }
    }
}

/// The master rule a duel follows.
#[derive(Clone, Copy, Debug, PartialEq, Eq, Structural)]
pub enum MasterRule {
    MasterRule1,
    MasterRule2,
    MasterRule3,
    MasterRuleNew,
    MasterRule2020,
}

impl MasterRule {
    /// The wire value of each variant.
    pub open spec fn code(self) -> u8 {
        match self {
            MasterRule::MasterRule1 => 1u8,
            MasterRule::MasterRule2 => 2u8,
            MasterRule::MasterRule3 => 3u8,
            MasterRule::MasterRuleNew => 4u8,
            MasterRule::MasterRule2020 => 5u8,
        }
    }

    /// The variant a wire value stands for, if any.
    pub open spec fn of_code(v: u8) -> Option<MasterRule> {
        if v == 1u8 {
            Some(MasterRule::MasterRule1)
        } else if v == 2u8 {
            Some(MasterRule::MasterRule2)
        } else if v == 3u8 {
            Some(MasterRule::MasterRule3)
        } else if v == 4u8 {
            Some(MasterRule::MasterRuleNew)
        } else if v == 5u8 {
            Some(MasterRule::MasterRule2020)
        } else {
            None
        }
    }

    /// The wire value of this variant.
    pub fn value(self) -> (r: u8)
        ensures
            r == self.code(),
            MasterRule::of_code(r) == Some(self),
    {
        match self {
            MasterRule::MasterRule1 => 1u8,
            MasterRule::MasterRule2 => 2u8,
            MasterRule::MasterRule3 => 3u8,
            MasterRule::MasterRuleNew => 4u8,
            MasterRule::MasterRule2020 => 5u8,
        }
    }

    /// The variant a wire value stands for; `None` for any other value.
    pub fn from_value(v: u8) -> (r: Option<MasterRule>)
        ensures
            r == MasterRule::of_code(v),
            r matches Some(x) ==> x.code() == v,
    {
        if v == 1u8 {
            Some(MasterRule::MasterRule1)
        } else if v == 2u8 {
            Some(MasterRule::MasterRule2)
        } else if v == 3u8 {
            Some(MasterRule::MasterRule3)
        } else if v == 4u8 {
            Some(MasterRule::MasterRuleNew)
        } else if v == 5u8 {
            Some(MasterRule::MasterRule2020)
        } else {
            None
        }
    }
}

/// A kind of activity counted by the engine.
#[derive(Clone, Copy, Debug, PartialEq, Eq, Structural)]
pub enum Activity {
    Summon,
    NormalSummon,
    SpecialSummon,
    FlipSummon,
    Attack,
    BattlePhase,
    Chain,
}

impl Activity {
    /// The wire value of each variant.
    pub open spec fn code(self) -> u8 {
        match self {
            Activity::Summon => 1u8,
            Activity::NormalSummon => 2u8,
            Activity::SpecialSummon => 3u8,
            Activity::FlipSummon => 4u8,
            Activity::Attack => 5u8,
            Activity::BattlePhase => 6u8,
            Activity::Chain => 7u8,
        }
    }

    /// The variant a wire value stands for, if any.
    pub open spec fn of_code(v: u8) -> Option<Activity> {
        if v == 1u8 {
            Some(Activity::Summon)
        } else if v == 2u8 {
            Some(Activity::NormalSummon)
        } else if v == 3u8 {
            Some(Activity::SpecialSummon)
        } else if v == 4u8 {
            Some(Activity::FlipSummon)
        } else if v == 5u8 {
            Some(Activity::Attack)
        } else if v == 6u8 {
            Some(Activity::BattlePhase)
        } else if v == 7u8 {
            Some(Activity::Chain)
        } else {
            None
        }
    }

    /// The wire value of this variant.
    pub fn value(self) -> (r: u8)
        ensures
            r == self.code(),
            Activity::of_code(r) == Some(self),
    {
        match self {
            Activity::Summon => 1u8,
            Activity::NormalSummon => 2u8,
            Activity::SpecialSummon => 3u8,
            Activity::FlipSummon => 4u8,
            Activity::Attack => 5u8,
            Activity::BattlePhase => 6u8,
            Activity::Chain => 7u8,
        }
    }

    /// The variant a wire value stands for; `None` for any other value.
    pub fn from_value(v: u8) -> (r: Option<Activity>)
        ensures
            r == Activity::of_code(v),
            r matches Some(x) ==> x.code() == v,
    {
        if v == 1u8 {
            Some(Activity::Summon)
        } else if v == 2u8 {
            Some(Activity::NormalSummon)
        } else if v == 3u8 {
            Some(Activity::SpecialSummon)
        } else if v == 4u8 {
            Some(Activity::FlipSummon)
        } else if v == 5u8 {
            Some(Activity::Attack)
        } else if v == 6u8 {
            Some(Activity::BattlePhase)
        } else if v == 7u8 {
            Some(Activity::Chain)
        } else {
            None
        }
    }
}

/// The kind of a card hint.
#[derive(Clone, Copy, Debug, PartialEq, Eq, Structural)]
pub enum CardHint {
    Turn,
    Card,
    Race,
    Attribute,
    Number,
    DescriptionAdd,
    DescriptionRemove,
}

impl CardHint {
    /// The wire value of each variant.
    pub open spec fn code(self) -> u8 {
        match self {
            CardHint::Turn => 1u8,
            CardHint::Card => 2u8,
            CardHint::Race => 3u8,
            CardHint::Attribute => 4u8,
            CardHint::Number => 5u8,
            CardHint::DescriptionAdd => 6u8,
            CardHint::DescriptionRemove => 7u8,
        }
    }

    /// The variant a wire value stands for, if any.
    pub open spec fn of_code(v: u8) -> Option<CardHint> {
        if v == 1u8 {
            Some(CardHint::Turn)
        } else if v == 2u8 {
            Some(CardHint::Card)
        } else if v == 3u8 {
            Some(CardHint::Race)
        } else if v == 4u8 {
            Some(CardHint::Attribute)
        } else if v == 5u8 {
            Some(CardHint::Number)
        } else if v == 6u8 {
            Some(CardHint::DescriptionAdd)
        } else if v == 7u8 {
            Some(CardHint::DescriptionRemove)
        } else {
            None
        }
    }

    /// The wire value of this variant.
    pub fn value(self) -> (r: u8)
        ensures
            r == self.code(),
            CardHint::of_code(r) == Some(self),
    {
        match self {
            CardHint::Turn => 1u8,
            CardHint::Card => 2u8,
            CardHint::Race => 3u8,
            CardHint::Attribute => 4u8,
            CardHint::Number => 5u8,
            CardHint::DescriptionAdd => 6u8,
            CardHint::DescriptionRemove => 7u8,
        }
    }

    /// The variant a wire value stands for; `None` for any other value.
    pub fn from_value(v: u8) -> (r: Option<CardHint>)
        ensures
            r == CardHint::of_code(v),
            r matches Some(x) ==> x.code() == v,
    {
        if v == 1u8 {
            Some(CardHint::Turn)
        } else if v == 2u8 {
            Some(CardHint::Card)
        } else if v == 3u8 {
            Some(CardHint::Race)
        } else if v == 4u8 {
            Some(CardHint::Attribute)
        } else if v == 5u8 {
            Some(CardHint::Number)
        } else if v == 6u8 {
            Some(CardHint::DescriptionAdd)
        } else if v == 7u8 {
            Some(CardHint::DescriptionRemove)
        } else {
            None
        }
    }
}

/// The kind of a player hint.
#[derive(Clone, Copy, Debug, PartialEq, Eq, Structural)]
pub enum PlayerHint {
    DescriptionAdd,
    DescriptionRemove,
}

impl PlayerHint {
    /// The wire value of each variant.
    pub open spec fn code(self) -> u8 {
        match self {
            PlayerHint::DescriptionAdd => 6u8,
            PlayerHint::DescriptionRemove => 7u8,
        }
    }

    /// The variant a wire value stands for, if any.
    pub open spec fn of_code(v: u8) -> Option<PlayerHint> {
        if v == 6u8 {
            Some(PlayerHint::DescriptionAdd)
        } else if v == 7u8 {
            Some(PlayerHint::DescriptionRemove)
        } else {
            None
        }
    }

    /// The wire value of this variant.
    pub fn value(self) -> (r: u8)
        ensures
            r == self.code(),
            PlayerHint::of_code(r) == Some(self),
    {
        match self {
            PlayerHint::DescriptionAdd => 6u8,
            PlayerHint::DescriptionRemove => 7u8,
        }
    }

    /// The variant a wire value stands for; `None` for any other value.
    pub fn from_value(v: u8) -> (r: Option<PlayerHint>)
        ensures
            r == PlayerHint::of_code(v),
            r matches Some(x) ==> x.code() == v,
    {
        if v == 6u8 {
            Some(PlayerHint::DescriptionAdd)
        } else if v == 7u8 {
            Some(PlayerHint::DescriptionRemove)
        } else {
            None
        }
    }
}

/// The kind of an effect description.
#[derive(Clone, Copy, Debug, PartialEq, Eq, Structural)]
pub enum EffectDescription {
    Operation,
    Reset,
}

impl EffectDescription {
    /// The wire value of each variant.
    pub open spec fn code(self) -> u8 {
        match self {
            EffectDescription::Operation => 1u8,
            EffectDescription::Reset => 2u8,
        }
    }

    /// The variant a wire value stands for, if any.
    pub open spec fn of_code(v: u8) -> Option<EffectDescription> {
        if v == 1u8 {
            Some(EffectDescription::Operation)
        } else if v == 2u8 {
            Some(EffectDescription::Reset)
        } else {
            None
        }
    }

    /// The wire value of this variant.
    pub fn value(self) -> (r: u8)
        ensures
            r == self.code(),
            EffectDescription::of_code(r) == Some(self),
    {
        match self {
            EffectDescription::Operation => 1u8,
            EffectDescription::Reset => 2u8,
        }
    }

    /// The variant a wire value stands for; `None` for any other value.
    pub fn from_value(v: u8) -> (r: Option<EffectDescription>)
        ensures
            r == EffectDescription::of_code(v),
            r matches Some(x) ==> x.code() == v,
    {
        if v == 1u8 {
            Some(EffectDescription::Operation)
        } else if v == 2u8 {
            Some(EffectDescription::Reset)
        } else {
            None
        }
    }
}

/// The result of an operation.
#[derive(Clone, Copy, Debug, PartialEq, Eq, Structural)]
pub enum OperationResult {
    Canceled,
    Fail,
    Success,
}

impl OperationResult {
    /// The wire value of each variant.
    pub open spec fn code(self) -> i8 {
        match self {
            OperationResult::Canceled => -1i8,
            OperationResult::Fail => 0i8,
            OperationResult::Success => 1i8,
        }
    }

    /// The variant a wire value stands for, if any.
    pub open spec fn of_code(v: i8) -> Option<OperationResult> {
        if v == -1i8 {
            Some(OperationResult::Canceled)
        } else if v == 0i8 {
            Some(OperationResult::Fail)
        } else if v == 1i8 {
            Some(OperationResult::Success)
        } else {
            None
        }
    }

    /// The wire value of this variant.
    pub fn value(self) -> (r: i8)
        ensures
            r == self.code(),
            OperationResult::of_code(r) == Some(self),
    {
        match self {
            OperationResult::Canceled => -1i8,
            OperationResult::Fail => 0i8,
            OperationResult::Success => 1i8,
        }
    }

    /// The variant a wire value stands for; `None` for any other value.
    pub fn from_value(v: i8) -> (r: Option<OperationResult>)
        ensures
            r == OperationResult::of_code(v),
            r matches Some(x) ==> x.code() == v,
    {
        if v == -1i8 {
            Some(OperationResult::Canceled)
        } else if v == 0i8 {
            Some(OperationResult::Fail)
        } else if v == 1i8 {
            Some(OperationResult::Success)
        } else {
            None
        }
    }
}

/// Why a duel was won, as the server reports it.
#[derive(Clone, Copy, Debug, PartialEq, Eq, Structural)]
pub enum WinReason {
    Surrendered,
    LpZero,
    CardsZero,
    Timeout,
    ConnectionLost,
    OpponentSurrender,
    OpponentLeave,
}

impl WinReason {
    /// The wire value of each variant.
    pub open spec fn code(self) -> u8 {
        match self {
            WinReason::Surrendered => 0u8,
            WinReason::LpZero => 1u8,
            WinReason::CardsZero => 2u8,
            WinReason::Timeout => 3u8,
            WinReason::ConnectionLost => 4u8,
            WinReason::OpponentSurrender => 5u8,
            WinReason::OpponentLeave => 6u8,
        }
    }

    /// The variant a wire value stands for, if any.
    pub open spec fn of_code(v: u8) -> Option<WinReason> {
        if v == 0u8 {
            Some(WinReason::Surrendered)
        } else if v == 1u8 {
            Some(WinReason::LpZero)
        } else if v == 2u8 {
            Some(WinReason::CardsZero)
        } else if v == 3u8 {
            Some(WinReason::Timeout)
        } else if v == 4u8 {
            Some(WinReason::ConnectionLost)
        } else if v == 5u8 {
            Some(WinReason::OpponentSurrender)
        } else if v == 6u8 {
            Some(WinReason::OpponentLeave)
        } else {
            None
        }
    }

    /// The wire value of this variant.
    pub fn value(self) -> (r: u8)
        ensures
            r == self.code(),
            WinReason::of_code(r) == Some(self),
    {
        match self {
            WinReason::Surrendered => 0u8,
            WinReason::LpZero => 1u8,
            WinReason::CardsZero => 2u8,
            WinReason::Timeout => 3u8,
            WinReason::ConnectionLost => 4u8,
            WinReason::OpponentSurrender => 5u8,
            WinReason::OpponentLeave => 6u8,
        }
    }

    /// The variant a wire value stands for; `None` for any other value.
    pub fn from_value(v: u8) -> (r: Option<WinReason>)
        ensures
            r == WinReason::of_code(v),
            r matches Some(x) ==> x.code() == v,
    {
        if v == 0u8 {
            Some(WinReason::Surrendered)
        } else if v == 1u8 {
            Some(WinReason::LpZero)
        } else if v == 2u8 {
            Some(WinReason::CardsZero)
        } else if v == 3u8 {
            Some(WinReason::Timeout)
        } else if v == 4u8 {
            Some(WinReason::ConnectionLost)
        } else if v == 5u8 {
            Some(WinReason::OpponentSurrender)
        } else if v == 6u8 {
            Some(WinReason::OpponentLeave)
        } else {
            None
        }
    }
}

impl CorePlayer {
    /// The other duelist; the non-duelist values stay as they are.
    pub open spec fn spec_opponent(self) -> CorePlayer {
        match self {
            CorePlayer::FirstAttackPlayer => CorePlayer::SecondAttackPlayer,
            CorePlayer::SecondAttackPlayer => CorePlayer::FirstAttackPlayer,
            other => other,
        }
    }

    /// The other duelist; the non-duelist values stay as they are.
    pub fn opponent(self) -> (r: CorePlayer)
        ensures
            r == self.spec_opponent(),
            r.spec_opponent() == self,
    {
        match self {
            CorePlayer::FirstAttackPlayer => CorePlayer::SecondAttackPlayer,
            CorePlayer::SecondAttackPlayer => CorePlayer::FirstAttackPlayer,
            other => other,
        }
    }
}

/// Taking the opponent twice gives the player back.
pub proof fn lemma_core_opponent_involutive(p: CorePlayer)
    ensures
        p.spec_opponent().spec_opponent() == p,
{
}

impl Default for Netplayer {
    fn default() -> (r: Netplayer)
        ensures
            r == Netplayer::Observer,
    {
        Netplayer::Observer
    }
}

impl Default for Colors {
    fn default() -> (r: Colors)
        ensures
            r == Colors::Observer,
    {
        Colors::Observer
    }
}

/// A change of a seat in the waiting room, as one byte: a player entering a seat, or
/// a seat turning observer, ready, not ready or leaving.
#[derive(Clone, Copy, Debug, PartialEq, Eq, Structural)]
pub enum PlayerChange {
    Enter(Netplayer),
    Observe(Netplayer),
    Ready(Netplayer),
    Notready(Netplayer),
    Leave(Netplayer),
}

impl PlayerChange {
    /// The byte of a change: the seat alone for an entrance, otherwise the seat in the
    /// high four bits and 8, 9, 10 or 11 in the low four bits.
    pub open spec fn code(self) -> u8 {
        match self {
            PlayerChange::Enter(p) => p.code(),
            PlayerChange::Observe(p) => (p.code() * 16 + 8) as u8,
            PlayerChange::Ready(p) => (p.code() * 16 + 9) as u8,
            PlayerChange::Notready(p) => (p.code() * 16 + 10) as u8,
            PlayerChange::Leave(p) => (p.code() * 16 + 11) as u8,
        }
    }

    /// The change a byte stands for, if any.
    pub open spec fn of_code(v: u8) -> Option<PlayerChange> {
        if v < 8 {
            match Netplayer::of_code(v) {
                Some(p) => Some(PlayerChange::Enter(p)),
                None => None,
            }
        } else {
            match Netplayer::of_code(v / 16) {
                Some(p) => if v % 16 == 8 {
                    Some(PlayerChange::Observe(p))
                } else if v % 16 == 9 {
                    Some(PlayerChange::Ready(p))
                } else if v % 16 == 10 {
                    Some(PlayerChange::Notready(p))
                } else if v % 16 == 11 {
                    Some(PlayerChange::Leave(p))
                } else {
                    None
                },
                None => None,
            }
        }
    }

    /// The byte of this change.
    pub fn as_u8(&self) -> (r: u8)
        ensures
            r == self.code(),
            PlayerChange::of_code(r) == Some(*self),
    {
        match *self {
            PlayerChange::Enter(p) => p.value(),
            PlayerChange::Observe(p) => p.value() * 16 + 8,
            PlayerChange::Ready(p) => p.value() * 16 + 9,
            PlayerChange::Notready(p) => p.value() * 16 + 10,
            PlayerChange::Leave(p) => p.value() * 16 + 11,
        }
    }

    /// The change a byte stands for; `None` for a byte that stands for none.
    pub fn try_from_u8(v: u8) -> (r: Option<PlayerChange>)
        ensures
            r == PlayerChange::of_code(v),
            r matches Some(c) ==> c.code() == v,
    {
        if v < 8 {
            return match Netplayer::from_value(v) {
                Some(p) => Some(PlayerChange::Enter(p)),
                None => None,
            };
        }
        let position = v / 16;
        let operation = v % 16;
        let player = match Netplayer::from_value(position) {
            Some(p) => p,
            None => return None,
        };
        if operation == 8 {
            Some(PlayerChange::Observe(player))
        } else if operation == 9 {
            Some(PlayerChange::Ready(player))
        } else if operation == 10 {
            Some(PlayerChange::Notready(player))
        } else if operation == 11 {
            Some(PlayerChange::Leave(player))
        } else {
            None
        }
    }
}

/// Every change survives being written as a byte and read back, and every byte that
/// reads as a change is written back as the same byte.
pub proof fn lemma_player_change_round_trip(c: PlayerChange, v: u8)
    ensures
        PlayerChange::of_code(c.code()) == Some(c),
        PlayerChange::of_code(v) matches Some(d) ==> d.code() == v,
{
}

// ---------------------------------------------------------------------------
// Flag sets
// ---------------------------------------------------------------------------

/// Whether every bit of `flags` is set in `bits`.
pub open spec fn has_all(bits: u32, flags: u32) -> bool {
    bits & flags == flags
}

/// Whether some bit of `flags` is set in `bits`.
pub open spec fn has_any(bits: u32, flags: u32) -> bool {
    bits & flags != 0
}

/// Whether every bit of `flags` is set in `bits`.
pub fn contains_flags(bits: u32, flags: u32) -> (r: bool)
    ensures
        r == has_all(bits, flags),
{
    bits & flags == flags
}

/// Whether some bit of `flags` is set in `bits`.
pub fn intersects_flags(bits: u32, flags: u32) -> (r: bool)
    ensures
        r == has_any(bits, flags),
{
    bits & flags != 0
}

pub const LOCATION_DECK: u8 = 1;
pub const LOCATION_HAND: u8 = 2;
pub const LOCATION_MZONE: u8 = 4;
pub const LOCATION_SZONE: u8 = 8;
pub const LOCATION_GRAVE: u8 = 16;
pub const LOCATION_REMOVED: u8 = 32;
pub const LOCATION_EXTRA: u8 = 64;
pub const LOCATION_OVERLAY: u8 = 128;

pub const TYPE_MONSTER: u32 = 0x1;
pub const TYPE_SPELL: u32 = 0x2;
pub const TYPE_TRAP: u32 = 0x4;
pub const TYPE_FUSION: u32 = 0x40;
pub const TYPE_SYNCHRO: u32 = 0x2000;
pub const TYPE_TOKEN: u32 = 0x4000;
pub const TYPE_XYZ: u32 = 0x800000;
pub const TYPE_LINK: u32 = 0x4000000;
/// The types that belong in the extra deck: fusion, synchro, xyz, link.
pub const TYPE_EXTRA: u32 = 0x4802040;

pub const OT_OCG: u32 = 0x1;
pub const OT_TCG: u32 = 0x2;
pub const OT_CUSTOM: u32 = 0x4;
pub const OT_SC: u32 = 0x8;

pub const QUERY_CODE: u32 = 0x1;
pub const QUERY_POSITION: u32 = 0x2;
pub const QUERY_ALIAS: u32 = 0x4;
pub const QUERY_TYPE: u32 = 0x8;
pub const QUERY_LEVEL: u32 = 0x10;
pub const QUERY_RANK: u32 = 0x20;
pub const QUERY_ATTRIBUTE: u32 = 0x40;
pub const QUERY_RACE: u32 = 0x80;
pub const QUERY_ATTACK: u32 = 0x100;
pub const QUERY_DEFENSE: u32 = 0x200;
pub const QUERY_BASE_ATTACK: u32 = 0x400;
pub const QUERY_BASE_DEFENSE: u32 = 0x800;
pub const QUERY_REASON: u32 = 0x1000;
pub const QUERY_REASON_CARD: u32 = 0x2000;
pub const QUERY_EQUIP_CARD: u32 = 0x4000;
pub const QUERY_TARGET_CARD: u32 = 0x8000;
pub const QUERY_OVERLAY_CARD: u32 = 0x10000;
pub const QUERY_COUNTERS: u32 = 0x20000;
pub const QUERY_OWNER: u32 = 0x40000;
pub const QUERY_STATUS: u32 = 0x80000;
pub const QUERY_LEFT_SCALE: u32 = 0x200000;
pub const QUERY_RIGHT_SCALE: u32 = 0x400000;
pub const QUERY_LINK: u32 = 0x800000;
/// Every query flag.
pub const QUERY_ALL: u32 = 0xEFFFFF;

/// Which cards a room allows, by their availability.
#[derive(Clone, Copy, Debug, PartialEq, Eq, Structural)]
pub enum Rule {
    /// OCG cards only.
    OCG,
    /// TCG cards only.
    TCG,
    /// Simplified Chinese cards only.
    SC,
    /// Custom cards only.
    Custom,
    /// Cards out in both OCG and TCG.
    OcgTcg,
    /// Every card.
    All,
}

impl Rule {
    /// The rule number used by rooms and command lines.
    pub open spec fn code(self) -> u8 {
        match self {
            Rule::OCG => 0,
            Rule::TCG => 1,
            Rule::SC => 2,
            Rule::Custom => 3,
            Rule::OcgTcg => 4,
            Rule::All => 5,
        }
    }

    /// The rule a number stands for, if any.
    pub open spec fn of_code(v: u8) -> Option<Rule> {
        if v == 0 {
            Some(Rule::OCG)
        } else if v == 1 {
            Some(Rule::TCG)
        } else if v == 2 {
            Some(Rule::SC)
        } else if v == 3 {
            Some(Rule::Custom)
        } else if v == 4 {
            Some(Rule::OcgTcg)
        } else if v == 5 {
            Some(Rule::All)
        } else {
            None
        }
    }

    /// The availability bits a card needs under this rule (none for every card).
    pub open spec fn avail(self) -> u32 {
        match self {
            Rule::OCG => OT_OCG,
            Rule::TCG => OT_TCG,
            Rule::SC => OT_SC,
            Rule::Custom => OT_CUSTOM,
            Rule::OcgTcg => OT_OCG | OT_TCG,
            Rule::All => 0,
        }
    }

    /// The rule number.
    pub fn value(self) -> (r: u8)
        ensures
            r == self.code(),
            Rule::of_code(r) == Some(self),
    {
        match self {
            Rule::OCG => 0,
            Rule::TCG => 1,
            Rule::SC => 2,
            Rule::Custom => 3,
            Rule::OcgTcg => 4,
            Rule::All => 5,
        }
    }

    /// The rule a number stands for; `None` for any other number.
    pub fn try_from_u8(v: u8) -> (r: Option<Rule>)
        ensures
            r == Rule::of_code(v),
    {
        if v == 0 {
            Some(Rule::OCG)
        } else if v == 1 {
            Some(Rule::TCG)
        } else if v == 2 {
            Some(Rule::SC)
        } else if v == 3 {
            Some(Rule::Custom)
        } else if v == 4 {
            Some(Rule::OcgTcg)
        } else if v == 5 {
            Some(Rule::All)
        } else {
            None
        }
    }

    /// The availability bits a card needs under this rule.
    pub fn avail_bits(self) -> (r: u32)
        ensures
            r == self.avail(),
    {
        match self {
            Rule::OCG => OT_OCG,
            Rule::TCG => OT_TCG,
            Rule::SC => OT_SC,
            Rule::Custom => OT_CUSTOM,
            Rule::OcgTcg => OT_OCG | OT_TCG,
            Rule::All => 0,
        }
    }
}

} // verus!
