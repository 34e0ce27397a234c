//! The rules of a single or match duel room: who sits where, who hosts, who goes
//! first, who won, when the match ends, and what each event tells the clients.
use vstd::prelude::*;

use crate::constants::{
    CorePlayer, Duelstage, Hand, Hint, Phase, Position, WinReason, LOCATION_DECK, LOCATION_EXTRA,
    LOCATION_GRAVE, LOCATION_HAND, LOCATION_MZONE, LOCATION_OVERLAY, LOCATION_REMOVED,
    LOCATION_SZONE,
};
use crate::message::gm;
use crate::extract::Response as HandlerResponse;
use crate::deck::{Deck, DeckError};
use crate::message::stoc::DeckCount;
use crate::message::host_info::HostInfo;
use crate::message::ctos::MessageType;
use crate::random::DuelSeed;

verus! {

/// The protocol version a client must speak to join.
pub const PRO_VERSION: u16 = 0x1362;

/// The seeds of each duel of a room: random.
pub fn default_seed_generator(match_count: u8) -> (r: DuelSeed)
    ensures
        r is Random,
{
    DuelSeed::Random
}

/// One of the two duelists, by the seat they took.
#[derive(Clone, Copy, Debug, PartialEq, Eq, Structural, PartialOrd, Ord, Hash)]
pub enum PlayerIndex {
    Player1,
    Player2,
}

impl PlayerIndex {
    /// The other duelist.
    pub open spec fn spec_opponent(self) -> PlayerIndex {
        match self {
            PlayerIndex::Player1 => PlayerIndex::Player2,
            PlayerIndex::Player2 => PlayerIndex::Player1,
        }
    }

    /// The other duelist.
    pub fn opponent(self) -> (r: PlayerIndex)
        ensures
            r == self.spec_opponent(),
            r != self,
    {
        match self {
            PlayerIndex::Player1 => PlayerIndex::Player2,
            PlayerIndex::Player2 => PlayerIndex::Player1,
        }
    }

    /// The seat number: 0 or 1.
    pub open spec fn number(self) -> u8 {
        match self {
            PlayerIndex::Player1 => 0,
            PlayerIndex::Player2 => 1,
        }
    }

    /// The duelist in seat `i`, if `i` is 0 or 1.
    pub fn try_from_index(i: usize) -> (r: Option<PlayerIndex>)
        ensures
            i == 0 ==> r == Some(PlayerIndex::Player1),
            i == 1 ==> r == Some(PlayerIndex::Player2),
            i > 1 ==> r is None,
    {
        if i == 0 {
            Some(PlayerIndex::Player1)
        } else if i == 1 {
            Some(PlayerIndex::Player2)
        } else {
            None
        }
    }

    /// The seat of this duelist.
    pub fn seat(self) -> (r: Seat)
        ensures
            r == Seat::Player(self.number()),
    {
        match self {
            PlayerIndex::Player1 => Seat::Player(0),
            PlayerIndex::Player2 => Seat::Player(1),
        }
    }

    /// The duelist in a seat, if it is a duelist's seat.
    pub fn try_from_seat(seat: Seat) -> (r: Option<PlayerIndex>)
        ensures
            seat == Seat::Player(0) ==> r == Some(PlayerIndex::Player1),
            seat == Seat::Player(1) ==> r == Some(PlayerIndex::Player2),
            seat != Seat::Player(0) && seat != Seat::Player(1) ==> r is None,
    {
        match seat {
            Seat::Player(0) => Some(PlayerIndex::Player1),
            Seat::Player(1) => Some(PlayerIndex::Player2),
            _ => None,
        }
    }
}

/// Each duelist's opponent's opponent is the duelist.
pub proof fn lemma_opponent_involution(p: PlayerIndex)
    ensures
        p.spec_opponent().spec_opponent() == p,
        p.spec_opponent() != p,
{
}

/// The seat a connection holds in a room.
#[derive(Clone, Copy, Debug, PartialEq, Eq, Structural)]
pub enum Seat {
    /// A duelist's seat.
    Player(u8),
    /// An observer's place.
    Observer(u8),
    /// No seat yet.
    Unknown,
}

/// Who a message goes to.
#[derive(Clone, Copy, Debug, PartialEq, Eq, Structural)]
pub enum SendTarget {
    Single(Seat),
    /// Everyone but the seat.
    Except(Seat),
    All,
    AllPlayer,
    AllObserver,
    Nobody,
}

/// The engine's number for a duelist, given who attacks first (the first seat when not
/// yet decided).
pub open spec fn core_player_of(first_attack: Option<PlayerIndex>, p: PlayerIndex) -> CorePlayer {
    let first = match first_attack {
        Some(f) => f,
        None => PlayerIndex::Player1,
    };
    if p == first {
        CorePlayer::FirstAttackPlayer
    } else {
        CorePlayer::SecondAttackPlayer
    }
}

/// The duelist the engine means by a number, given who attacks first; none for a
/// number that names no duelist.
pub open spec fn player_of_core(first_attack: Option<PlayerIndex>, c: CorePlayer) -> Option<PlayerIndex> {
    let first = match first_attack {
        Some(f) => f,
        None => PlayerIndex::Player1,
    };
    match c {
        CorePlayer::FirstAttackPlayer => Some(first),
        CorePlayer::SecondAttackPlayer => Some(first.spec_opponent()),
        _ => None,
    }
}

/// The engine's number for a duelist.
pub fn to_core_player(first_attack: Option<PlayerIndex>, player: PlayerIndex) -> (r: CorePlayer)
    ensures
        r == core_player_of(first_attack, player),
{
    let first = match first_attack {
        Some(f) => f,
        None => PlayerIndex::Player1,
    };
    let core = match player {
        PlayerIndex::Player1 => CorePlayer::FirstAttackPlayer,
        PlayerIndex::Player2 => CorePlayer::SecondAttackPlayer,
    };
    if first == PlayerIndex::Player1 {
        core
    } else {
        core.opponent()
    }
}

/// The duelist the engine means by a number.
pub fn to_player_index(first_attack: Option<PlayerIndex>, core_player: CorePlayer) -> (r: Option<PlayerIndex>)
    ensures
        r == player_of_core(first_attack, core_player),
{
    let first = match first_attack {
        Some(f) => f,
        None => PlayerIndex::Player1,
    };
    let c = match first {
        PlayerIndex::Player1 => core_player,
        _ => core_player.opponent(),
    };
    match c {
        CorePlayer::FirstAttackPlayer => Some(PlayerIndex::Player1),
        CorePlayer::SecondAttackPlayer => Some(PlayerIndex::Player2),
        _ => None,
    }
}

/// The seat the engine means by a number: a duelist's seat, or `Unknown` for a number
/// that names no duelist.
pub fn to_net_player(first_attack: Option<PlayerIndex>, core_player: CorePlayer) -> (r: Seat)
    ensures
        r == match player_of_core(first_attack, core_player) {
            Some(p) => Seat::Player(p.number()),
            None => Seat::Unknown,
        },
{
    match to_player_index(first_attack, core_player) {
        Some(p) => p.seat(),
        None => Seat::Unknown,
    }
}

/// A duelist's engine number names the duelist back, and the engine numbers of the
/// two duelists name them back.
pub proof fn lemma_core_player_round_trip(first_attack: Option<PlayerIndex>, p: PlayerIndex, c: CorePlayer)
    ensures
        player_of_core(first_attack, core_player_of(first_attack, p)) == Some(p),
        (c == CorePlayer::FirstAttackPlayer || c == CorePlayer::SecondAttackPlayer) ==> core_player_of(
            first_attack,
            player_of_core(first_attack, c)->0,
        ) == c,
        core_player_of(first_attack, p.spec_opponent()) == core_player_of(first_attack, p).spec_opponent(),
{
}

/// How many duels each duelist won.
pub open spec fn wins_of(winners: Seq<Option<PlayerIndex>>, p: PlayerIndex) -> nat
    decreases winners.len(),
{
    if winners.len() == 0 {
        0
    } else {
        wins_of(winners.drop_last(), p) + if winners.last() == Some(p) {
            1nat
        } else {
            0nat
        }
    }
}

/// Whether a match is over: once as many duels were played as it has (three for a
/// match, one otherwise), once a duelist won the majority of them, or once a card
/// ended the match.
pub open spec fn match_over(is_match: bool, winners: Seq<Option<PlayerIndex>>, match_kill: i32) -> bool {
    let end_count: nat = if is_match { 3 } else { 1 };
    let end_win_count: nat = (end_count + 1) / 2;
    ||| winners.len() >= end_count
    ||| wins_of(winners, PlayerIndex::Player1) >= end_win_count
    ||| wins_of(winners, PlayerIndex::Player2) >= end_win_count
    ||| match_kill > 0
}

/// One duel won by `p` counts as at least one win.
proof fn lemma_one_win(winners: Seq<Option<PlayerIndex>>, p: PlayerIndex, i: int)
    requires
        0 <= i < winners.len(),
        winners[i] == Some(p),
    ensures
        wins_of(winners, p) >= 1,
    decreases winners.len(),
{
    if i < winners.len() - 1 {
        assert(winners.drop_last()[i] == winners[i]);
        lemma_one_win(winners.drop_last(), p, i);
    }
}

/// Two duels won by `p` count as at least two wins.
proof fn lemma_two_wins(winners: Seq<Option<PlayerIndex>>, p: PlayerIndex, i: int, j: int)
    requires
        0 <= i < j < winners.len(),
        winners[i] == Some(p),
        winners[j] == Some(p),
    ensures
        wins_of(winners, p) >= 2,
    decreases winners.len(),
{
    assert(winners.drop_last()[i] == winners[i]);
    if j == winners.len() - 1 {
        lemma_one_win(winners.drop_last(), p, i);
    } else {
        assert(winners.drop_last()[j] == winners[j]);
        lemma_two_wins(winners.drop_last(), p, i, j);
    }
}

/// No duel won by `p` counts as no win.
proof fn lemma_no_win(winners: Seq<Option<PlayerIndex>>, p: PlayerIndex)
    requires
        forall|i: int| 0 <= i < winners.len() ==> winners[i] != Some(p),
    ensures
        wins_of(winners, p) == 0,
    decreases winners.len(),
{
    if winners.len() > 0 {
        assert(winners[winners.len() - 1] != Some(p));
        assert forall|i: int| 0 <= i < winners.drop_last().len() implies winners.drop_last()[i] != Some(p) by {
            assert(winners.drop_last()[i] == winners[i]);
        }
        lemma_no_win(winners.drop_last(), p);
    }
}

/// At most one duel won by `p` counts as at most one win.
proof fn lemma_at_most_one_win(winners: Seq<Option<PlayerIndex>>, p: PlayerIndex)
    requires
        forall|i: int, j: int| 0 <= i < j < winners.len() && winners[i] == Some(p) ==> winners[j] != Some(p),
    ensures
        wins_of(winners, p) <= 1,
    decreases winners.len(),
{
    if winners.len() > 0 {
        let d = winners.drop_last();
        let n = winners.len() - 1;
        if winners[n] == Some(p) {
            assert forall|i: int| 0 <= i < d.len() implies d[i] != Some(p) by {
                assert(d[i] == winners[i]);
            }
            lemma_no_win(d, p);
        } else {
            assert forall|i: int, j: int| 0 <= i < j < d.len() && d[i] == Some(p) implies d[j] != Some(p) by {
                assert(d[i] == winners[i] && d[j] == winners[j]);
            }
            lemma_at_most_one_win(d, p);
        }
    }
}

/// The results with the two duelists exchanged.
pub open spec fn exchanged(winners: Seq<Option<PlayerIndex>>) -> Seq<Option<PlayerIndex>> {
    winners.map_values(
        |w: Option<PlayerIndex>|
            match w {
                Some(q) => Some(q.spec_opponent()),
                None => None,
            },
    )
}

/// With the duelists exchanged, each has the wins the other had.
proof fn lemma_exchanged_wins(winners: Seq<Option<PlayerIndex>>, p: PlayerIndex)
    ensures
        wins_of(exchanged(winners), p) == wins_of(winners, p.spec_opponent()),
    decreases winners.len(),
{
    if winners.len() > 0 {
        assert(exchanged(winners).drop_last() =~= exchanged(winners.drop_last()));
        lemma_exchanged_wins(winners.drop_last(), p);
    }
}

/// A match is over once either duelist has won two of its duels (two of three), whatever
/// else happened.
pub proof fn law_match_over_at_two_wins(winners: Seq<Option<PlayerIndex>>, p: PlayerIndex, i: int, j: int, match_kill: i32)
    requires
        0 <= i < j < winners.len(),
        winners[i] == Some(p),
        winners[j] == Some(p),
    ensures
        match_over(true, winners, match_kill),
{
    lemma_two_wins(winners, p, i, j);
}

/// A match goes on while fewer than three duels were played, no duelist has won two of
/// them and no card ended it.
pub proof fn law_match_goes_on(winners: Seq<Option<PlayerIndex>>, match_kill: i32)
    requires
        winners.len() < 3,
        match_kill <= 0,
        forall|i: int, j: int, p: PlayerIndex|
            0 <= i < j < winners.len() && winners[i] == Some(p) ==> winners[j] != Some(p),
    ensures
        !match_over(true, winners, match_kill),
{
    lemma_at_most_one_win(winners, PlayerIndex::Player1);
    lemma_at_most_one_win(winners, PlayerIndex::Player2);
}

/// A single duel is over once it was played; any match is over once a card ended it.
pub proof fn law_single_duel_over(is_match: bool, winners: Seq<Option<PlayerIndex>>, match_kill: i32)
    ensures
        winners.len() >= 1 ==> match_over(false, winners, match_kill),
        match_kill > 0 ==> match_over(is_match, winners, match_kill),
{
}

/// Whether a match is over does not depend on which duelist is which.
pub proof fn law_match_over_symmetric(is_match: bool, winners: Seq<Option<PlayerIndex>>, match_kill: i32)
    ensures
        match_over(is_match, exchanged(winners), match_kill) == match_over(is_match, winners, match_kill),
{
    lemma_exchanged_wins(winners, PlayerIndex::Player1);
    lemma_exchanged_wins(winners, PlayerIndex::Player2);
}

/// Whether the match is over after the duels won by `duel_winner` (none for a draw).
pub fn should_match_end(is_match: bool, duel_winner: &Vec<Option<PlayerIndex>>, match_kill_card_code: i32) -> (r: bool)
    ensures
        r == match_over(is_match, duel_winner@, match_kill_card_code),
{
    let end_count: usize = if is_match { 3 } else { 1 };
    let end_win_count: usize = (end_count + 1) / 2;
    let mut wins1: usize = 0;
    let mut wins2: usize = 0;
    let mut i: usize = 0;
    while i < duel_winner.len()
        invariant
            i <= duel_winner@.len(),
            wins1 == wins_of(duel_winner@.take(i as int), PlayerIndex::Player1),
            wins2 == wins_of(duel_winner@.take(i as int), PlayerIndex::Player2),
            wins1 <= i,
            wins2 <= i,
        decreases duel_winner@.len() - i,
    {
        assert(duel_winner@.take(i + 1).drop_last() =~= duel_winner@.take(i as int));
        match duel_winner[i] {
            Some(PlayerIndex::Player1) => wins1 = wins1 + 1,
            Some(PlayerIndex::Player2) => wins2 = wins2 + 1,
            None => {},
        }
        i = i + 1;
    }
    assert(duel_winner@.take(i as int) =~= duel_winner@);
    duel_winner.len() >= end_count || wins1 >= end_win_count || wins2 >= end_win_count
        || match_kill_card_code > 0
}

/// How a round of rock-paper-scissors went for the first duelist.
#[derive(Clone, Copy, Debug, PartialEq, Eq, Structural)]
pub enum HandOutcome {
    Draw,
    Win,
    Lose,
}

/// Whether hand `a` beats hand `b`: rock beats scissors, scissors beat paper, paper
/// beats rock.
pub open spec fn beats(a: Hand, b: Hand) -> bool {
    ||| a == Hand::Rock && b == Hand::Scissor
    ||| a == Hand::Scissor && b == Hand::Paper
    ||| a == Hand::Paper && b == Hand::Rock
}

/// The outcome of a round for the first duelist, who showed `hand1` against `hand2`.
pub fn judge(hand1: Hand, hand2: Hand) -> (r: HandOutcome)
    ensures
        r == HandOutcome::Draw <==> hand1 == hand2,
        r == HandOutcome::Win <==> beats(hand1, hand2),
        r == HandOutcome::Lose <==> beats(hand2, hand1),
{
    if hand1 == hand2 {
        HandOutcome::Draw
    } else if (hand1 == Hand::Rock && hand2 == Hand::Scissor) || (hand1 == Hand::Scissor && hand2
        == Hand::Paper) || (hand1 == Hand::Paper && hand2 == Hand::Rock) {
        HandOutcome::Win
    } else {
        HandOutcome::Lose
    }
}

/// Swapping the hands swaps the outcome.
pub proof fn lemma_judge_symmetric(a: Hand, b: Hand)
    ensures
        beats(a, b) ==> !beats(b, a),
        a != b ==> beats(a, b) || beats(b, a),
{
}

/// Who attacks first after the winner of rock-paper-scissors, `chooser`, answered
/// `result`: the chooser when the answer is the first attacker, the opponent otherwise.
pub fn first_attack_after_choice(chooser: PlayerIndex, result: CorePlayer) -> (r: PlayerIndex)
    ensures
        r == if result == CorePlayer::FirstAttackPlayer {
            chooser
        } else {
            chooser.spec_opponent()
        },
{
    if result == CorePlayer::FirstAttackPlayer {
        chooser
    } else {
        chooser.opponent()
    }
}

/// The player type observers are told at the start: 0x10 when the first seat
/// attacks first, 0x11 otherwise.
pub fn observer_player_type(first_attack: PlayerIndex) -> (r: u8)
    ensures
        r == if first_attack == PlayerIndex::Player1 {
            0x10u8
        } else {
            0x11u8
        },
{
    match first_attack {
        PlayerIndex::Player1 => 0x10,
        PlayerIndex::Player2 => 0x11,
    }
}

/// Whether a duelist whose next expected message is `state` may send a message of
/// type `t`: chat, surrender and field requests always; anything when nothing is
/// expected; otherwise only the expected type.
pub fn allow_message(state: Option<MessageType>, t: MessageType) -> (r: bool)
    ensures
        r == (t == MessageType::Chat || t == MessageType::Surrender || t == MessageType::RequestField
            || match state {
            Some(s) => s == t,
            None => true,
        }),
{
    if t == MessageType::Chat || t == MessageType::Surrender || t == MessageType::RequestField {
        return true;
    }
    match state {
        Some(s) => s == t,
        None => true,
    }
}

/// Who is told a hint about `player`: the player for an event, a message, a selection
/// message or an effect; everyone but the player for what the opponent selected, a
/// race, an attribute, a code, a number or a zone; everyone for a card.
pub fn hint_target(hint: Hint, player: Seat) -> (r: SendTarget)
    ensures
        (hint == Hint::Event || hint == Hint::Message || hint == Hint::SelectMessage || hint
            == Hint::Effect) ==> r == SendTarget::Single(player),
        (hint == Hint::Opselected || hint == Hint::Race || hint == Hint::Attribute || hint
            == Hint::Code || hint == Hint::Number || hint == Hint::Zone) ==> r == SendTarget::Except(
            player,
        ),
        hint == Hint::Card ==> r == SendTarget::All,
{
    match hint {
        Hint::Event | Hint::Message | Hint::SelectMessage | Hint::Effect => SendTarget::Single(
            player,
        ),
        Hint::Opselected | Hint::Race | Hint::Attribute | Hint::Code | Hint::Number
        | Hint::Zone => SendTarget::Except(player),
        Hint::Card => SendTarget::All,
    }
}

/// A duelist's clock after confirming the time: an answer within 10 seconds that the
/// compensator covers is taken from the compensator; otherwise the elapsed time is taken
/// from the time limit, down to 0. The result is `(time_limit, time_compensator)`.
pub fn confirm_time(time_limit: u16, time_compensator: u16, time_elapsed: u16) -> (r: (u16, u16))
    ensures
        time_elapsed < 10 && time_elapsed <= time_compensator ==> r == (
            time_limit,
            (time_compensator - time_elapsed) as u16,
        ),
        !(time_elapsed < 10 && time_elapsed <= time_compensator) ==> r == (
            if time_limit >= time_elapsed {
                (time_limit - time_elapsed) as u16
            } else {
                0u16
            },
            time_compensator,
        ),
{
    if time_elapsed < 10 && time_elapsed <= time_compensator {
        (time_limit, time_compensator - time_elapsed)
    } else {
        (time_limit.saturating_sub(time_elapsed), time_compensator)
    }
}

/// One second of the clock: the elapsed time grows by one (staying at its maximum),
/// and the duelist to answer has timed out once it reaches their time limit.
pub fn timer_tick(time_elapsed: u16, time_limit: u16) -> (r: (u16, bool))
    ensures
        r.0 == if time_elapsed < u16::MAX {
            (time_elapsed + 1) as u16
        } else {
            u16::MAX
        },
        r.1 == (r.0 >= time_limit),
{
    let elapsed = time_elapsed.saturating_add(1);
    (elapsed, elapsed >= time_limit)
}

/// A duelist at the table.
#[derive(Clone, Copy, Debug, PartialEq, Eq, Structural)]
pub struct DuelPlayer {
    pub ready: bool,
    /// The next message type the duelist may send; `None` for any.
    pub state: Option<MessageType>,
    pub hand: Option<Hand>,
    pub time_limit: u16,
    pub time_compensator: u16,
    pub time_backed: u16,
}

impl DuelPlayer {
    /// A duelist who just sat down.
    pub open spec fn fresh() -> DuelPlayer {
        DuelPlayer {
            ready: false,
            state: None,
            hand: None,
            time_limit: 0,
            time_compensator: 0,
            time_backed: 0,
        }
    }

    /// A duelist who just sat down.
    pub fn new() -> (r: DuelPlayer)
        ensures
            r == DuelPlayer::fresh(),
    {
        DuelPlayer {
            ready: false,
            state: None,
            hand: None,
            time_limit: 0,
            time_compensator: 0,
            time_backed: 0,
        }
    }
}

/// A change of a seat, as the waiting room reports it.
#[derive(Clone, Copy, Debug, PartialEq, Eq, Structural)]
pub enum SeatChange {
    Observe,
    Ready,
    Notready,
    Leave,
}

/// What a room tells its clients.
#[derive(Clone, Copy, Debug, PartialEq, Eq, Structural)]
pub enum Announce {
    /// The room's settings.
    JoinGame,
    /// A client's seat, and whether it hosts.
    TypeChange(Seat, bool),
    /// A duelist sat down.
    PlayerEnter(Seat),
    PlayerChange(Seat, SeatChange),
    /// The number of observers.
    WatchChange(u16),
    DuelStart,
    DuelEnd,
    SelectHand,
    SelectTp,
    ChangeSide,
    WaitingSide,
    /// The winner and why.
    Win(CorePlayer, WinReason),
    /// The hands of the first and second seat.
    HandResult(Hand, Hand),
    /// A client is to leave.
    LeaveGame(Seat),
    /// The deck was refused.
    DeckError(DeckError),
    /// The side deck change was refused.
    SideError,
    /// The deck sizes of both sides.
    DeckCount(DeckCount),
    /// The replay of the duel that ended.
    Replay,
    /// The opponent waits for an answer.
    Waiting,
    /// A duelist's time left: the engine's number for them and the seconds.
    TimeLimit(CorePlayer, u16),
}

/// The number of places taken in `places`.
pub open spec fn taken_count(places: Seq<bool>) -> nat
    decreases places.len(),
{
    if places.len() == 0 {
        0
    } else {
        taken_count(places.drop_last()) + if places.last() {
            1nat
        } else {
            0nat
        }
    }
}

/// The first free place in `places`, or the place after the last.
pub open spec fn first_free(places: Seq<bool>) -> nat
    decreases places.len(),
{
    if places.len() == 0 {
        0
    } else if !places[0] {
        0
    } else {
        1 + first_free(places.drop_first())
    }
}

proof fn lemma_first_free(places: Seq<bool>)
    ensures
        first_free(places) <= places.len(),
        first_free(places) < places.len() ==> !places[first_free(places) as int],
        forall|i: int| 0 <= i < first_free(places) ==> places[i],
    decreases places.len(),
{
    if places.len() > 0 && places[0] {
        lemma_first_free(places.drop_first());
        assert forall|i: int| 0 <= i < first_free(places) implies places[i] by {
            if i > 0 {
                assert(places[i] == places.drop_first()[i - 1]);
            }
        }
    }
}

proof fn lemma_taken_count_bound(places: Seq<bool>)
    ensures
        taken_count(places) <= places.len(),
    decreases places.len(),
{
    if places.len() > 0 {
        lemma_taken_count_bound(places.drop_last());
    }
}

/// The number of observers, as the waiting room reports it (modulo 65536).
pub fn count_taken(places: &Vec<bool>) -> (r: u16)
    ensures
        r == taken_count(places@) % 65536,
{
    let mut n: usize = 0;
    let mut i: usize = 0;
    while i < places.len()
        invariant
            i <= places@.len(),
            n == taken_count(places@.take(i as int)),
            n <= i,
        decreases places@.len() - i,
    {
        assert(places@.take(i + 1).drop_last() =~= places@.take(i as int));
        if places[i] {
            n = n + 1;
        }
        i = i + 1;
    }
    assert(places@.take(i as int) =~= places@);
    (n % 65536) as u16
}

/// The first free place, or the place after the last.
pub fn find_free(places: &Vec<bool>) -> (r: usize)
    ensures
        r == first_free(places@),
{
    let mut i: usize = 0;
    proof {
        lemma_first_free(places@);
    }
    assert(places@.skip(0) =~= places@);
    while i < places.len() && places[i]
        invariant
            i <= places@.len(),
            forall|k: int| 0 <= k < i ==> places@[k],
            first_free(places@) == i + first_free(places@.skip(i as int)),
        decreases places@.len() - i,
    {
        assert(places@.skip(i as int).drop_first() =~= places@.skip(i + 1));
        i = i + 1;
    }
    if i < places.len() {
        assert(!places@.skip(i as int)[0]);
    } else {
        assert(places@.skip(i as int).len() == 0);
    }
    i
}

/// A card to be put into the duel engine: its code, the engine player who owns it and
/// the location it goes to, face-down in defence position.
#[derive(Clone, Copy, Debug, PartialEq, Eq, Structural)]
pub struct NewCard {
    pub code: u32,
    pub owner: CorePlayer,
    pub location: u8,
}

/// What the engine is given when a duel starts: the cards in the order they are added,
/// and the duel options.
#[derive(Clone, Debug)]
pub struct EnginePlan {
    pub cards: Vec<NewCard>,
    pub options: u32,
}

/// The duel option that keeps the decks in the order they were handed in.
pub const DUEL_OPTION_PSEUDO_SHUFFLE_FLAG: u32 = 0x10;

/// The codes `codes` added last to first, each owned by `owner` and put in `location`.
pub open spec fn placed(codes: Seq<u32>, owner: CorePlayer, location: u8) -> Seq<NewCard> {
    Seq::new(codes.len(), |i: int| NewCard { code: codes[codes.len() - 1 - i], owner, location })
}

/// The cards of a duel's start: the first attacker's main deck, then their extra deck,
/// then the second attacker's main and extra decks, each added last card first.
pub open spec fn deck_placement(first: Deck, second: Deck) -> Seq<NewCard> {
    placed(first.main@, CorePlayer::FirstAttackPlayer, LOCATION_DECK) + placed(
        first.extra@,
        CorePlayer::FirstAttackPlayer,
        LOCATION_EXTRA,
    ) + placed(second.main@, CorePlayer::SecondAttackPlayer, LOCATION_DECK) + placed(
        second.extra@,
        CorePlayer::SecondAttackPlayer,
        LOCATION_EXTRA,
    )
}

/// Append the codes `codes`, last to first, owned by `owner` in `location`.
fn push_placed(out: &mut Vec<NewCard>, codes: &Vec<u32>, owner: CorePlayer, location: u8)
    ensures
        final(out)@ == old(out)@ + placed(codes@, owner, location),
{
    let ghost start = out@;
    let mut i: usize = codes.len();
    while i > 0
        invariant
            i <= codes@.len(),
            out@ == start + placed(codes@.skip(i as int), owner, location),
        decreases i,
    {
        let ghost before = out@;
        i = i - 1;
        out.push(NewCard { code: codes[i], owner, location });
        assert(placed(codes@.skip(i as int), owner, location) =~= placed(codes@.skip(i + 1), owner, location).push(
            NewCard { code: codes@[i as int], owner, location },
        ));
        assert(out@ =~= start + placed(codes@.skip(i as int), owner, location));
    }
    assert(codes@.skip(0) =~= codes@);
}

/// The state of a duel room.
pub struct Room {
    pub host_player: Seat,
    pub host_info: HostInfo,
    pub stage: Duelstage,
    /// The two duelists' seats.
    pub players: Vec<Option<DuelPlayer>>,
    /// Which observer places are taken.
    pub observers: Vec<bool>,
    pub first_attack_player: Option<PlayerIndex>,
    pub first_attack_decider: Option<PlayerIndex>,
    pub last_response: Option<PlayerIndex>,
    pub is_match: bool,
    pub match_kill_card_code: i32,
    pub duel_count: u8,
    /// The winner of each duel played, none for a draw.
    pub duel_winner: Vec<Option<PlayerIndex>>,
    pub time_elapsed: u16,
    /// The deck of each seat, as the duelist last handed it in.
    pub decks: Vec<Deck>,
}

impl Room {
    /// The room has its two seats and a deck for each.
    pub open spec fn wf(&self) -> bool {
        self.players@.len() == 2 && self.decks@.len() == 2
    }

    /// An empty room with the given settings.
    pub fn new(is_match: bool, host_info: HostInfo) -> (r: Room)
        ensures
            r.wf(),
            r.host_player == Seat::Unknown,
            r.host_info == host_info,
            r.stage == Duelstage::Begin,
            r.players@ == seq![None::<DuelPlayer>, None::<DuelPlayer>],
            r.observers@.len() == 0,
            r.first_attack_player is None,
            r.first_attack_decider is None,
            r.last_response is None,
            r.is_match == is_match,
            r.match_kill_card_code == 0,
            r.duel_count == 0,
            r.duel_winner@.len() == 0,
            r.time_elapsed == 0,
            forall|i: int|
                0 <= i < 2 ==> #[trigger] r.decks@[i].main@.len() == 0 && r.decks@[i].side@.len() == 0
                    && r.decks@[i].extra@.len() == 0,
    {
        let mut players: Vec<Option<DuelPlayer>> = Vec::new();
        players.push(None);
        players.push(None);
        assert(players@ =~= seq![None::<DuelPlayer>, None::<DuelPlayer>]);
        let mut decks: Vec<Deck> = Vec::new();
        decks.push(Deck::new());
        decks.push(Deck::new());
        Room {
            host_player: Seat::Unknown,
            host_info,
            stage: Duelstage::Begin,
            players,
            observers: Vec::new(),
            first_attack_player: None,
            first_attack_decider: None,
            last_response: None,
            is_match,
            match_kill_card_code: 0,
            duel_count: 0,
            duel_winner: Vec::new(),
            time_elapsed: 0,
            decks,
        }
    }

    /// The number of observers.
    pub fn observer_count(&self) -> (r: u16)
        ensures
            r == taken_count(self.observers@) % 65536,
    {
        count_taken(&self.observers)
    }

    /// Seat a newcomer: the first free duelist's seat, else the first free observer
    /// place. Returns the seat, whether the newcomer created the room (it was empty),
    /// what the room is told before the newcomer sits, and what the newcomer is told.
    /// A client of another protocol version is refused with `Err(true)`, a wrong
    /// password with `Err(false)`.
    pub fn on_join_game(&mut self, version: u16, pass_matches: bool) -> (r: Result<
        (Seat, bool, Vec<(Announce, SendTarget)>, Vec<Announce>),
        bool,
    >)
        requires
            old(self).wf(),
            old(self).observers@.len() < 255,
        ensures
            final(self).wf(),
            version != PRO_VERSION ==> r == Err::<
                (Seat, bool, Vec<(Announce, SendTarget)>, Vec<Announce>),
                bool,
            >(true) && *final(self) == *old(self),
            version == PRO_VERSION && !pass_matches ==> r == Err::<
                (Seat, bool, Vec<(Announce, SendTarget)>, Vec<Announce>),
                bool,
            >(false) && *final(self) == *old(self),
            version == PRO_VERSION && pass_matches ==> match r {
                Ok((seat, creator, broadcast, reply)) => {
                    let o = *old(self);
                    let f = *final(self);
                    let creator_now = o.players@[0] is None && o.players@[1] is None
                        && o.observers@.len() == 0;
                    &&& creator == creator_now
                    &&& o.players@[0] is None ==> seat == Seat::Player(0)
                        && f.players@ == o.players@.update(0, Some(DuelPlayer::fresh()))
                        && f.observers@ == o.observers@
                    &&& o.players@[0] is Some && o.players@[1] is None ==> seat == Seat::Player(1)
                        && f.players@ == o.players@.update(1, Some(DuelPlayer::fresh()))
                        && f.observers@ == o.observers@
                    &&& o.players@[0] is Some && o.players@[1] is Some ==> {
                        let k = first_free(o.observers@);
                        &&& seat == Seat::Observer(k as u8)
                        &&& f.players@ == o.players@
                        &&& f.observers@ == if k < o.observers@.len() {
                            o.observers@.update(k as int, true)
                        } else {
                            o.observers@.push(true)
                        }
                        &&& broadcast@ == seq![(
                            Announce::WatchChange(((taken_count(o.observers@) % 65536) + 1) as u16),
                            SendTarget::All,
                        )]
                    }
                    &&& seat is Player ==> broadcast@ == seq![(Announce::PlayerEnter(seat), SendTarget::All)]
                    &&& f.host_player == if creator { seat } else { o.host_player }
                    &&& reply@ == seq![Announce::JoinGame, Announce::TypeChange(seat, creator)] + room_status(
                        f.players@,
                        if seat is Observer {
                            ((taken_count(o.observers@) % 65536) + 1) as u16
                        } else {
                            (taken_count(o.observers@) % 65536) as u16
                        },
                    )
                    &&& f.stage == o.stage
                    &&& f.host_info == o.host_info
                    &&& f.duel_winner@ == o.duel_winner@
                },
                Err(_) => false,
            },
    {
        if version != PRO_VERSION {
            return Err(true);
        }
        if !pass_matches {
            return Err(false);
        }
        let is_creator = self.players[0].is_none() && self.players[1].is_none()
            && self.observers.len() == 0;
        let mut observer_count = self.observer_count();
        proof {
            lemma_taken_count_bound(self.observers@);
            lemma_first_free(self.observers@);
        }
        let pos = if self.players[0].is_none() {
            Seat::Player(0)
        } else if self.players[1].is_none() {
            Seat::Player(1)
        } else {
            let index = find_free(&self.observers) as u8;
            observer_count = observer_count + 1;
            Seat::Observer(index)
        };
        if is_creator {
            self.host_player = pos;
        }
        let mut reply: Vec<Announce> = Vec::new();
        reply.push(Announce::JoinGame);
        reply.push(Announce::TypeChange(pos, is_creator));
        let mut broadcast: Vec<(Announce, SendTarget)> = Vec::new();
        match pos {
            Seat::Observer(index) => {
                broadcast.push((Announce::WatchChange(observer_count), SendTarget::All));
                if index as usize >= self.observers.len() {
                    self.observers.push(true);
                } else {
                    self.observers.set(index as usize, true);
                }
            },
            Seat::Player(i) => {
                broadcast.push((Announce::PlayerEnter(pos), SendTarget::All));
                self.players.set(i as usize, Some(DuelPlayer::new()));
            },
            Seat::Unknown => {},
        }
        let ghost head = reply@;
        let mut i: usize = 0;
        while i < 2
            invariant
                i <= 2,
                self.players@.len() == 2,
                reply@ == head + (if i == 0 {
                    Seq::<Announce>::empty()
                } else if i == 1 {
                    seat_status(self.players@[0], 0)
                } else {
                    seat_status(self.players@[0], 0) + seat_status(self.players@[1], 1)
                }),
            decreases 2 - i,
        {
            let ghost before = reply@;
            match self.players[i] {
                Some(p) => {
                    reply.push(Announce::PlayerEnter(Seat::Player(i as u8)));
                    if p.ready {
                        reply.push(Announce::PlayerChange(Seat::Player(i as u8), SeatChange::Ready));
                    }
                },
                None => {},
            }
            assert(reply@ =~= before + seat_status(self.players@[i as int], i as u8));
            i = i + 1;
            assert(reply@ =~= head + (if i == 1 {
                seat_status(self.players@[0], 0)
            } else {
                seat_status(self.players@[0], 0) + seat_status(self.players@[1], 1)
            }));
        }
        if observer_count > 0 {
            reply.push(Announce::WatchChange(observer_count));
        }
        assert(reply@ =~= head + room_status(self.players@, observer_count));
        Ok((pos, is_creator, broadcast, reply))
    }
}

/// What a newcomer is told of a seat: that its duelist is there, and ready if so.
pub open spec fn seat_status(p: Option<DuelPlayer>, i: u8) -> Seq<Announce> {
    match p {
        Some(d) => seq![Announce::PlayerEnter(Seat::Player(i))] + if d.ready {
            seq![Announce::PlayerChange(Seat::Player(i), SeatChange::Ready)]
        } else {
            Seq::<Announce>::empty()
        },
        None => Seq::empty(),
    }
}

/// What a newcomer is told of the room: each seat in turn, then the number of
/// observers when there are any.
pub open spec fn room_status(players: Seq<Option<DuelPlayer>>, watch: u16) -> Seq<Announce> {
    seat_status(players[0], 0) + seat_status(players[1], 1) + if watch > 0 {
        seq![Announce::WatchChange(watch)]
    } else {
        Seq::<Announce>::empty()
    }
}

/// The seat that takes over hosting when `leaving`, the host, leaves: the first seat,
/// else the second, if taken by someone else; none when no duelist stays.
pub open spec fn next_host(players: Seq<Option<DuelPlayer>>, leaving: Seat) -> Option<Seat> {
    if players[0] is Some && leaving != Seat::Player(0) {
        Some(Seat::Player(0))
    } else if players[1] is Some && leaving != Seat::Player(1) {
        Some(Seat::Player(1))
    } else {
        None
    }
}

/// The duelist in seat number `i` (0 or 1).
pub open spec fn index_of_number(i: u8) -> PlayerIndex {
    if i == 0 {
        PlayerIndex::Player1
    } else {
        PlayerIndex::Player2
    }
}

impl Room {
    /// Whether a seat that sends messages is a real one: a duelist's seat is 0 or 1, an
    /// observer's place is taken.
    pub open spec fn valid_seat(&self, seat: Seat) -> bool {
        match seat {
            Seat::Player(i) => i < 2,
            Seat::Observer(i) => i < self.observers@.len(),
            Seat::Unknown => true,
        }
    }

    /// A client leaves. When the host leaves, the next duelist hosts (and, in the
    /// waiting room, becomes not ready and is told); when no duelist stays, the room
    /// closes. An observer's place is freed (the waiting room is told the new count).
    /// A duelist's seat is freed; in the waiting room everyone is told; during a
    /// duel or siding the opponent wins by the leave and the duel ends, which closes
    /// the room. Returns whether the room closes, and what is said to whom.
    pub fn on_leave_game(&mut self, seat: Seat) -> (r: (bool, Vec<(Announce, SendTarget)>))
        requires
            old(self).wf(),
            old(self).valid_seat(seat),
        ensures
            final(self).wf(),
            final(self).stage == old(self).stage,
            final(self).host_info == old(self).host_info,
            seat == old(self).host_player && next_host(old(self).players@, seat) is None ==> r.0
                && r.1@.len() == 0 && final(self).players@ == old(self).players@
                && final(self).observers@ == old(self).observers@,
            !(seat == old(self).host_player && next_host(old(self).players@, seat) is None) ==> {
                let o = *old(self);
                let f = *final(self);
                let new_host = if seat == o.host_player {
                    next_host(o.players@, seat)->0
                } else {
                    o.host_player
                };
                let host_adjusted: Seq<Option<DuelPlayer>> = if seat == o.host_player && o.stage
                    == Duelstage::Begin {
                    let j: int = if new_host == Seat::Player(0) { 0 } else { 1 };
                    match o.players@[j] {
                        Some(p) => o.players@.update(j, Some(DuelPlayer { ready: false, ..p })),
                        None => o.players@,
                    }
                } else {
                    o.players@
                };
                let host_notice: Seq<(Announce, SendTarget)> = if seat == o.host_player
                    && o.stage == Duelstage::Begin {
                    seq![(Announce::TypeChange(new_host, true), SendTarget::Single(new_host))]
                } else {
                    Seq::empty()
                };
                &&& f.host_player == new_host
                &&& match seat {
                    Seat::Observer(i) => {
                        &&& !r.0
                        &&& f.players@ == host_adjusted
                        &&& f.observers@ == o.observers@.update(i as int, false)
                        &&& r.1@ == host_notice + if o.stage == Duelstage::Begin {
                            seq![(
                                Announce::WatchChange(
                                    (taken_count(o.observers@.update(i as int, false)) % 65536) as u16,
                                ),
                                SendTarget::All,
                            )]
                        } else {
                            Seq::empty()
                        }
                    },
                    Seat::Player(i) => {
                        let winner = core_player_of(o.first_attack_player, index_of_number(i)).spec_opponent();
                        &&& f.observers@ == o.observers@
                        &&& f.players@ == host_adjusted.update(i as int, None)
                        &&& o.stage == Duelstage::Begin ==> !r.0 && r.1@ == host_notice + seq![
                            (Announce::PlayerChange(seat, SeatChange::Leave), SendTarget::All),
                        ]
                        &&& o.stage == Duelstage::End ==> !r.0 && r.1@ == host_notice
                        &&& (o.stage != Duelstage::Begin && o.stage != Duelstage::End) ==> r.0
                            && r.1@ == host_notice + (if o.stage == Duelstage::Siding {
                            seq![(Announce::DuelStart, SendTarget::AllPlayer)]
                        } else {
                            Seq::empty()
                        }) + seq![
                            (Announce::Win(winner, WinReason::OpponentLeave), SendTarget::All),
                            (Announce::DuelEnd, SendTarget::All),
                        ]
                    },
                    Seat::Unknown => !r.0 && r.1@ == host_notice && f.observers@ == o.observers@
                        && f.players@ == host_adjusted,
                }
            },
    {
        let mut out: Vec<(Announce, SendTarget)> = Vec::new();
        let ghost o = *self;
        if seat == self.host_player {
            let new_host = if self.players[0].is_some() && seat != Seat::Player(0) {
                Seat::Player(0)
            } else if self.players[1].is_some() && seat != Seat::Player(1) {
                Seat::Player(1)
            } else {
                return (true, out);
            };
            self.host_player = new_host;
            if self.stage == Duelstage::Begin {
                let i: usize = if new_host == Seat::Player(0) { 0 } else { 1 };
                match self.players[i] {
                    Some(p) => {
                        self.players.set(i, Some(DuelPlayer { ready: false, ..p }));
                    },
                    None => {},
                }
                out.push((Announce::TypeChange(new_host, true), SendTarget::Single(new_host)));
            }
        }
        match seat {
            Seat::Observer(i) => {
                self.observers.set(i as usize, false);
                if self.stage == Duelstage::Begin {
                    let count = self.observer_count();
                    out.push((Announce::WatchChange(count), SendTarget::All));
                }
            },
            Seat::Player(i) => {
                if self.stage == Duelstage::Begin {
                    self.players.set(i as usize, None);
                    out.push((Announce::PlayerChange(seat, SeatChange::Leave), SendTarget::All));
                } else {
                    if self.stage == Duelstage::Siding {
                        out.push((Announce::DuelStart, SendTarget::AllPlayer));
                    }
                    if self.stage != Duelstage::End {
                        let leaving = if i == 0 {
                            PlayerIndex::Player1
                        } else {
                            PlayerIndex::Player2
                        };
                        let winner = to_core_player(self.first_attack_player, leaving).opponent();
                        out.push((Announce::Win(winner, WinReason::OpponentLeave), SendTarget::All));
                        out.push((Announce::DuelEnd, SendTarget::All));
                        self.players.set(i as usize, None);
                        return (true, out);
                    }
                    self.players.set(i as usize, None);
                }
            },
            Seat::Unknown => {},
        }
        (false, out)
    }

    /// An observer takes a free duelist's seat (the first free one), keeping the host
    /// role if it had it. Nothing happens for a duelist or when both seats are taken or
    /// the observer's place is empty. Returns the new seat and host flag, and what the
    /// room is told.
    pub fn on_hs_to_duelist(&mut self, seat: Seat) -> (r: (Option<(Seat, bool)>, Vec<(Announce, SendTarget)>))
        requires
            old(self).wf(),
            old(self).valid_seat(seat),
        ensures
            final(self).wf(),
            match seat {
                Seat::Observer(i) => {
                    let o = *old(self);
                    let f = *final(self);
                    if o.players@[0] is Some && o.players@[1] is Some || !o.observers@[i as int] {
                        r.0 is None && r.1@.len() == 0 && f == o
                    } else {
                        let k: int = if o.players@[0] is None { 0 } else { 1 };
                        let new_seat = Seat::Player(k as u8);
                        let host = o.host_player == seat;
                        &&& r.0 == Some((new_seat, host))
                        &&& f.observers@ == o.observers@.update(i as int, false)
                        &&& f.players@ == o.players@.update(k, Some(DuelPlayer::fresh()))
                        &&& f.host_player == if host { new_seat } else { o.host_player }
                        &&& r.1@ == seq![
                            (Announce::PlayerEnter(new_seat), SendTarget::All),
                            (
                                Announce::WatchChange(
                                    (taken_count(o.observers@.update(i as int, false)) % 65536) as u16,
                                ),
                                SendTarget::All,
                            ),
                        ]
                        &&& f.stage == o.stage
                    }
                },
                _ => r.0 is None && r.1@.len() == 0 && *final(self) == *old(self),
            },
    {
        let mut out: Vec<(Announce, SendTarget)> = Vec::new();
        let i = match seat {
            Seat::Observer(i) => i as usize,
            _ => return (None, out),
        };
        if self.players[0].is_some() && self.players[1].is_some() {
            return (None, out);
        }
        if !self.observers[i] {
            return (None, out);
        }
        self.observers.set(i, false);
        let i_am_host = self.host_player == seat;
        let k: usize = if self.players[0].is_none() { 0 } else { 1 };
        let new_seat = Seat::Player(k as u8);
        if i_am_host {
            self.host_player = new_seat;
        }
        self.players.set(k, Some(DuelPlayer::new()));
        out.push((Announce::PlayerEnter(new_seat), SendTarget::All));
        let count = self.observer_count();
        out.push((Announce::WatchChange(count), SendTarget::All));
        (Some((new_seat, i_am_host)), out)
    }

    /// A duelist becomes an observer, in the first free observer place, keeping the
    /// host role if it had it. Nothing happens for an empty seat. Returns the new place
    /// and host flag, and what the room is told.
    pub fn on_hs_to_observer(&mut self, player: PlayerIndex) -> (r: (Option<(Seat, bool)>, Vec<(Announce, SendTarget)>))
        requires
            old(self).wf(),
            old(self).observers@.len() < 255,
        ensures
            final(self).wf(),
            ({
                let o = *old(self);
                let f = *final(self);
                let n = player.number() as int;
                let seat = Seat::Player(n as u8);
                if o.players@[n] is None {
                    r.0 is None && r.1@.len() == 0 && f == o
                } else {
                    let k = first_free(o.observers@);
                    let new_seat = Seat::Observer(k as u8);
                    let host = o.host_player == seat;
                    &&& r.0 == Some((new_seat, host))
                    &&& f.players@ == o.players@.update(n, None)
                    &&& f.observers@ == if k < o.observers@.len() {
                        o.observers@.update(k as int, true)
                    } else {
                        o.observers@.push(true)
                    }
                    &&& f.host_player == if host { new_seat } else { o.host_player }
                    &&& r.1@ == seq![(Announce::PlayerChange(seat, SeatChange::Observe), SendTarget::All)]
                    &&& f.stage == o.stage
                }
            }),
    {
        let mut out: Vec<(Announce, SendTarget)> = Vec::new();
        let n: usize = match player {
            PlayerIndex::Player1 => 0,
            PlayerIndex::Player2 => 1,
        };
        if self.players[n].is_none() {
            return (None, out);
        }
        let seat = player.seat();
        self.players.set(n, None);
        proof {
            lemma_first_free(self.observers@);
        }
        let k = find_free(&self.observers);
        if k < self.observers.len() {
            self.observers.set(k, true);
        } else {
            self.observers.push(true);
        }
        let new_seat = Seat::Observer(k as u8);
        let i_am_host = self.host_player == seat;
        if i_am_host {
            self.host_player = new_seat;
        }
        out.push((Announce::PlayerChange(seat, SeatChange::Observe), SendTarget::All));
        (Some((new_seat, i_am_host)), out)
    }
}

/// The duelists after a duel that does not end the match: each is to send a deck and
/// is not ready.
pub open spec fn siding_players(players: Seq<Option<DuelPlayer>>) -> Seq<Option<DuelPlayer>> {
    players.map_values(
        |q: Option<DuelPlayer>|
            match q {
                Some(p) => Some(DuelPlayer { state: Some(MessageType::UpdateDeck), ready: false, ..p }),
                None => None,
            },
    )
}

/// What the room says when a duel ends with `winner` winning by `reason`, given
/// whether the match is over.
pub open spec fn end_notices(winner: CorePlayer, reason: WinReason, over: bool) -> Seq<(Announce, SendTarget)> {
    seq![(Announce::Win(winner, reason), SendTarget::All), (Announce::Replay, SendTarget::All)]
        + if over {
        seq![(Announce::DuelEnd, SendTarget::All)]
    } else {
        seq![(Announce::ChangeSide, SendTarget::AllPlayer), (Announce::WaitingSide, SendTarget::AllObserver)]
    }
}

impl Room {
    /// How the room is after `loser` lost by `reason`, without what is said.
    pub open spec fn after_loss(self, loser: CorePlayer) -> (Seq<Option<PlayerIndex>>, Option<PlayerIndex>, bool) {
        let winner = loser.spec_opponent();
        let winners = self.duel_winner@.push(player_of_core(self.first_attack_player, winner));
        let decider = match player_of_core(self.first_attack_player, loser) {
            Some(p) => p,
            None => PlayerIndex::Player1,
        };
        (winners, Some(decider), match_over(self.is_match, winners, self.match_kill_card_code))
    }

    /// `loser` lost the duel by `reason`: everyone is told who won, the winner is
    /// recorded, the loser decides who goes first next, and the duel ends. When the
    /// match is over the room ends; otherwise the duelists side-deck. Returns whether
    /// a next duel is to be set up, and what is said to whom (`Replay` stands for the
    /// replay of the duel).
    pub fn win_and_end(&mut self, loser: CorePlayer, reason: WinReason) -> (r: (bool, Vec<(Announce, SendTarget)>))
        requires
            old(self).wf(),
            old(self).duel_count < 255,
        ensures
            final(self).wf(),
            ({
                let o = *old(self);
                let f = *final(self);
                let (winners, decider, over) = o.after_loss(loser);
                &&& f.duel_winner@ == winners
                &&& f.first_attack_decider == decider
                &&& f.duel_count == o.duel_count + 1
                &&& r.0 == !over
                &&& r.1@ == end_notices(loser.spec_opponent(), reason, over)
                &&& over ==> f.stage == Duelstage::End && f.players@ == o.players@
                    && f.first_attack_player == o.first_attack_player
                &&& !over ==> f.stage == Duelstage::Siding && f.players@ == siding_players(o.players@)
                    && f.first_attack_player is None
                &&& f.observers@ == o.observers@
                &&& f.host_player == o.host_player
                &&& f.host_info == o.host_info
                &&& f.last_response == o.last_response
                &&& f.time_elapsed == o.time_elapsed
            }),
    {
        let winner = loser.opponent();
        let mut out: Vec<(Announce, SendTarget)> = Vec::new();
        out.push((Announce::Win(winner, reason), SendTarget::All));
        let winner_index = to_player_index(self.first_attack_player, winner);
        self.duel_winner.push(winner_index);
        self.first_attack_decider = Some(
            match to_player_index(self.first_attack_player, loser) {
                Some(p) => p,
                None => PlayerIndex::Player1,
            },
        );
        out.push((Announce::Replay, SendTarget::All));
        self.duel_count = self.duel_count + 1;
        if should_match_end(self.is_match, &self.duel_winner, self.match_kill_card_code) {
            self.stage = Duelstage::End;
            out.push((Announce::DuelEnd, SendTarget::All));
            (false, out)
        } else {
            let ghost before = self.players@;
            match self.players[0] {
                Some(p) => {
                    self.players.set(
                        0,
                        Some(DuelPlayer { state: Some(MessageType::UpdateDeck), ready: false, ..p }),
                    );
                },
                None => {},
            }
            match self.players[1] {
                Some(p) => {
                    self.players.set(
                        1,
                        Some(DuelPlayer { state: Some(MessageType::UpdateDeck), ready: false, ..p }),
                    );
                },
                None => {},
            }
            assert(self.players@ =~= siding_players(before));
            self.first_attack_player = None;
            self.stage = Duelstage::Siding;
            out.push((Announce::ChangeSide, SendTarget::AllPlayer));
            out.push((Announce::WaitingSide, SendTarget::AllObserver));
            (true, out)
        }
    }

    /// A duelist surrenders: during a duel, they lose by surrendering; otherwise nothing
    /// happens.
    pub fn on_surrender(&mut self, player: PlayerIndex) -> (r: (bool, Vec<(Announce, SendTarget)>))
        requires
            old(self).wf(),
            old(self).duel_count < 255,
        ensures
            final(self).wf(),
            old(self).stage != Duelstage::Dueling ==> !r.0 && r.1@.len() == 0 && *final(self) == *old(self),
            old(self).stage == Duelstage::Dueling ==> {
                let loser = core_player_of(old(self).first_attack_player, player);
                let (winners, decider, over) = old(self).after_loss(loser);
                &&& final(self).duel_winner@ == winners
                &&& r.0 == !over
                &&& r.1@ == end_notices(loser.spec_opponent(), WinReason::OpponentSurrender, over)
            },
    {
        if self.stage != Duelstage::Dueling {
            return (false, Vec::new());
        }
        let loser = to_core_player(self.first_attack_player, player);
        self.win_and_end(loser, WinReason::OpponentSurrender)
    }

    /// One second passes: while a duelist is to answer and there is a time limit, the
    /// elapsed time grows, and a duelist whose time is up loses by timeout.
    pub fn on_timer_tick(&mut self) -> (r: (bool, Vec<(Announce, SendTarget)>))
        requires
            old(self).wf(),
            old(self).duel_count < 255,
        ensures
            final(self).wf(),
            ({
                let o = *old(self);
                let f = *final(self);
                match o.last_response {
                    Some(lr) => if o.host_info.time_limit > 0 {
                        let elapsed = if o.time_elapsed < u16::MAX {
                            (o.time_elapsed + 1) as u16
                        } else {
                            u16::MAX
                        };
                        let timed_out = match o.players@[lr.number() as int] {
                            Some(p) => elapsed >= p.time_limit,
                            None => false,
                        };
                        &&& f.time_elapsed == elapsed
                        &&& !timed_out ==> !r.0 && r.1@.len() == 0 && f.duel_winner@ == o.duel_winner@
                            && f.players@ == o.players@ && f.stage == o.stage
                        &&& timed_out ==> {
                            let loser = core_player_of(o.first_attack_player, lr);
                            let (winners, decider, over) = o.after_loss(loser);
                            &&& f.duel_winner@ == winners
                            &&& r.0 == !over
                            &&& r.1@ == end_notices(loser.spec_opponent(), WinReason::Timeout, over)
                        }
                    } else {
                        !r.0 && r.1@.len() == 0 && f == o
                    },
                    None => !r.0 && r.1@.len() == 0 && f == o,
                }
            }),
    {
        match self.last_response {
            Some(lr) => {
                if self.host_info.time_limit > 0 {
                    self.time_elapsed = self.time_elapsed.saturating_add(1);
                    let n: usize = match lr {
                        PlayerIndex::Player1 => 0,
                        PlayerIndex::Player2 => 1,
                    };
                    let timed_out = match self.players[n] {
                        Some(p) => self.time_elapsed >= p.time_limit,
                        None => false,
                    };
                    if timed_out {
                        let loser = to_core_player(self.first_attack_player, lr);
                        return self.win_and_end(loser, WinReason::Timeout);
                    }
                }
                (false, Vec::new())
            },
            None => (false, Vec::new()),
        }
    }

    /// A duelist confirms the time: when there is a time limit and the duelist is the
    /// one to answer, they are to answer next, their clock is charged (see
    /// `confirm_time`) and the elapsed time restarts.
    pub fn on_time_confirm(&mut self, player: PlayerIndex)
        requires
            old(self).wf(),
        ensures
            final(self).wf(),
            ({
                let o = *old(self);
                let f = *final(self);
                let n = player.number() as int;
                if o.host_info.time_limit == 0 || o.last_response != Some(player) || o.players@[n] is None {
                    f == o
                } else {
                    let p = o.players@[n]->0;
                    let charged = if o.time_elapsed < 10 && o.time_elapsed <= p.time_compensator {
                        (p.time_limit, (p.time_compensator - o.time_elapsed) as u16)
                    } else {
                        (
                            if p.time_limit >= o.time_elapsed {
                                (p.time_limit - o.time_elapsed) as u16
                            } else {
                                0u16
                            },
                            p.time_compensator,
                        )
                    };
                    &&& f.players@ == o.players@.update(
                        n,
                        Some(
                            DuelPlayer {
                                state: Some(MessageType::Response),
                                time_limit: charged.0,
                                time_compensator: charged.1,
                                ..p
                            },
                        ),
                    )
                    &&& f.time_elapsed == 0
                    &&& f.stage == o.stage
                    &&& f.duel_winner@ == o.duel_winner@
                }
            }),
    {
        if self.host_info.time_limit == 0 {
            return;
        }
        if self.last_response != Some(player) {
            return;
        }
        let n: usize = match player {
            PlayerIndex::Player1 => 0,
            PlayerIndex::Player2 => 1,
        };
        let p = match self.players[n] {
            Some(p) => p,
            None => return,
        };
        let (limit, compensator) = confirm_time(p.time_limit, p.time_compensator, self.time_elapsed);
        self.players.set(
            n,
            Some(
                DuelPlayer {
                    state: Some(MessageType::Response),
                    time_limit: limit,
                    time_compensator: compensator,
                    ..p
                },
            ),
        );
        self.time_elapsed = 0;
    }
}

impl Room {
    /// A duelist shows a hand at rock-paper-scissors. Once both have shown one: on a
    /// draw both show again; otherwise the winner is to choose who goes first and the
    /// loser waits. Each side is told the hands (the second seat with its own first),
    /// and the room moves on to choosing who goes first. Returns the winner, if any, and
    /// what is said to whom.
    pub fn on_hand_result(&mut self, player: PlayerIndex, hand: Hand) -> (r: (Option<PlayerIndex>, Vec<(Announce, SendTarget)>))
        requires
            old(self).wf(),
        ensures
            final(self).wf(),
            ({
                let o = *old(self);
                let f = *final(self);
                let n = player.number() as int;
                let shown = match o.players@[n] {
                    Some(p) => o.players@.update(n, Some(DuelPlayer { hand: Some(hand), ..p })),
                    None => o.players@,
                };
                if shown[0] is None || shown[1] is None || shown[0]->0.hand is None
                    || shown[1]->0.hand is None {
                    r.0 is None && r.1@.len() == 0 && f.players@ == shown && f.stage == o.stage
                } else {
                    let p1 = shown[0]->0;
                    let p2 = shown[1]->0;
                    let h1 = p1.hand->0;
                    let h2 = p2.hand->0;
                    let told = seq![
                        (Announce::HandResult(h2, h1), SendTarget::Single(Seat::Player(1))),
                        (Announce::HandResult(h1, h2), SendTarget::Except(Seat::Player(1))),
                    ];
                    &&& f.stage == Duelstage::Firstgo
                    &&& h1 == h2 ==> {
                        &&& r.0 is None
                        &&& f.players@ == seq![
                            Some(DuelPlayer { hand: None, state: Some(MessageType::HandResult), ..p1 }),
                            Some(DuelPlayer { hand: None, state: Some(MessageType::HandResult), ..p2 }),
                        ]
                        &&& r.1@ == seq![(Announce::SelectHand, SendTarget::AllPlayer)] + told
                    }
                    &&& beats(h1, h2) ==> {
                        &&& r.0 == Some(PlayerIndex::Player1)
                        &&& f.players@ == seq![
                            Some(DuelPlayer { state: Some(MessageType::TpResult), ..p1 }),
                            Some(DuelPlayer { state: Some(MessageType::LeaveGame), ..p2 }),
                        ]
                        &&& r.1@ == told + seq![(Announce::SelectTp, SendTarget::Single(Seat::Player(0)))]
                    }
                    &&& beats(h2, h1) ==> {
                        &&& r.0 == Some(PlayerIndex::Player2)
                        &&& f.players@ == seq![
                            Some(DuelPlayer { state: Some(MessageType::LeaveGame), ..p1 }),
                            Some(DuelPlayer { state: Some(MessageType::TpResult), ..p2 }),
                        ]
                        &&& r.1@ == told + seq![(Announce::SelectTp, SendTarget::Single(Seat::Player(1)))]
                    }
                }
            }),
    {
        let n: usize = match player {
            PlayerIndex::Player1 => 0,
            PlayerIndex::Player2 => 1,
        };
        match self.players[n] {
            Some(p) => self.players.set(n, Some(DuelPlayer { hand: Some(hand), ..p })),
            None => {},
        }
        let mut out: Vec<(Announce, SendTarget)> = Vec::new();
        let p1 = match self.players[0] {
            Some(p) => p,
            None => return (None, out),
        };
        let p2 = match self.players[1] {
            Some(p) => p,
            None => return (None, out),
        };
        let h1 = match p1.hand {
            Some(h) => h,
            None => return (None, out),
        };
        let h2 = match p2.hand {
            Some(h) => h,
            None => return (None, out),
        };
        let winner = match judge(h1, h2) {
            HandOutcome::Draw => {
                self.players.set(0, Some(DuelPlayer { hand: None, state: Some(MessageType::HandResult), ..p1 }));
                self.players.set(1, Some(DuelPlayer { hand: None, state: Some(MessageType::HandResult), ..p2 }));
                out.push((Announce::SelectHand, SendTarget::AllPlayer));
                None
            },
            HandOutcome::Win => {
                self.players.set(0, Some(DuelPlayer { state: Some(MessageType::TpResult), ..p1 }));
                self.players.set(1, Some(DuelPlayer { state: Some(MessageType::LeaveGame), ..p2 }));
                Some(PlayerIndex::Player1)
            },
            HandOutcome::Lose => {
                self.players.set(0, Some(DuelPlayer { state: Some(MessageType::LeaveGame), ..p1 }));
                self.players.set(1, Some(DuelPlayer { state: Some(MessageType::TpResult), ..p2 }));
                Some(PlayerIndex::Player2)
            },
        };
        out.push((Announce::HandResult(h2, h1), SendTarget::Single(Seat::Player(1))));
        out.push((Announce::HandResult(h1, h2), SendTarget::Except(Seat::Player(1))));
        match winner {
            Some(w) => out.push((Announce::SelectTp, SendTarget::Single(w.seat()))),
            None => {},
        }
        self.stage = Duelstage::Firstgo;
        assert(self.players@ =~= seq![self.players@[0], self.players@[1]]);
        (winner, out)
    }

    /// The chooser answers who goes first: the duel begins with the chooser first when
    /// the answer is the first attacker, and the opponent first otherwise. Each seated
    /// duelist's main deck becomes `shuffled_main1` or `shuffled_main2`, the seat's main
    /// deck as the engine's shuffler left it. With both duelists seated, returns the
    /// player type each is told at the start (0 to the first attacker's seat, 1 to the
    /// second's, 0x10 or 0x11 to observers) and what the engine is given: the first
    /// attacker's deck, then the second's (see `deck_placement`), with the pseudo-shuffle
    /// option when decks go unshuffled. With a time limit, each duelist's clock is set to
    /// it and the elapsed time restarts.
    pub fn on_tp_result(
        &mut self,
        chooser: PlayerIndex,
        result: CorePlayer,
        shuffled_main1: Vec<u32>,
        shuffled_main2: Vec<u32>,
    ) -> (r: Option<(Vec<(u8, SendTarget)>, EnginePlan)>)
        requires
            old(self).wf(),
        ensures
            final(self).wf(),
            final(self).stage == Duelstage::Dueling,
            final(self).first_attack_player == Some(
                if result == CorePlayer::FirstAttackPlayer {
                    chooser
                } else {
                    chooser.spec_opponent()
                },
            ),
            ({
                let o = *old(self);
                let f = *final(self);
                let first = f.first_attack_player->0;
                let t = o.host_info.time_limit;
                &&& forall|i: int|
                    0 <= i < 2 ==> #[trigger] f.decks@[i].main@ == (if o.players@[i] is Some {
                        if i == 0 {
                            shuffled_main1@
                        } else {
                            shuffled_main2@
                        }
                    } else {
                        o.decks@[i].main@
                    }) && f.decks@[i].side@ == o.decks@[i].side@ && f.decks@[i].extra@
                        == o.decks@[i].extra@
                &&& if o.players@[0] is None || o.players@[1] is None {
                    r is None && f.players@ == o.players@
                } else {
                    &&& r matches Some((types, plan))
                    &&& types@ == (seq![
                        (0u8, SendTarget::Single(Seat::Player(first.number()))),
                        (1u8, SendTarget::Single(Seat::Player(first.spec_opponent().number()))),
                        (if first == PlayerIndex::Player1 { 0x10u8 } else { 0x11u8 }, SendTarget::AllObserver),
                    ])
                    &&& plan.cards@ == deck_placement(
                        f.decks@[first.number() as int],
                        f.decks@[first.spec_opponent().number() as int],
                    )
                    &&& plan.options == (if o.host_info.no_shuffle_deck {
                        DUEL_OPTION_PSEUDO_SHUFFLE_FLAG
                    } else {
                        0u32
                    })
                    &&& t > 0 ==> f.time_elapsed == 0 && f.players@ == o.players@.map_values(
                        |q: Option<DuelPlayer>|
                            match q {
                                Some(p) => Some(DuelPlayer { time_limit: t, time_backed: t, time_compensator: t, ..p }),
                                None => None,
                            },
                    )
                    &&& t == 0 ==> f.players@ == o.players@ && f.time_elapsed == o.time_elapsed
                }
            }),
    {
        self.stage = Duelstage::Dueling;
        let first = first_attack_after_choice(chooser, result);
        self.first_attack_player = Some(first);
        let d2 = self.decks.pop().unwrap();
        let d1 = self.decks.pop().unwrap();
        let d1 = if self.players[0].is_some() {
            Deck { main: shuffled_main1, side: d1.side, extra: d1.extra }
        } else {
            d1
        };
        let d2 = if self.players[1].is_some() {
            Deck { main: shuffled_main2, side: d2.side, extra: d2.extra }
        } else {
            d2
        };
        self.decks.push(d1);
        self.decks.push(d2);
        let p1 = match self.players[0] {
            Some(p) => p,
            None => return None,
        };
        let p2 = match self.players[1] {
            Some(p) => p,
            None => return None,
        };
        let mut cards: Vec<NewCard> = Vec::new();
        let (fi, si): (usize, usize) = match first {
            PlayerIndex::Player1 => (0, 1),
            PlayerIndex::Player2 => (1, 0),
        };
        push_placed(&mut cards, &self.decks[fi].main, CorePlayer::FirstAttackPlayer, LOCATION_DECK);
        push_placed(&mut cards, &self.decks[fi].extra, CorePlayer::FirstAttackPlayer, LOCATION_EXTRA);
        push_placed(&mut cards, &self.decks[si].main, CorePlayer::SecondAttackPlayer, LOCATION_DECK);
        push_placed(&mut cards, &self.decks[si].extra, CorePlayer::SecondAttackPlayer, LOCATION_EXTRA);
        let options: u32 = if self.host_info.no_shuffle_deck {
            DUEL_OPTION_PSEUDO_SHUFFLE_FLAG
        } else {
            0
        };
        let mut types: Vec<(u8, SendTarget)> = Vec::new();
        types.push((0u8, SendTarget::Single(to_net_player(self.first_attack_player, CorePlayer::FirstAttackPlayer))));
        types.push((1u8, SendTarget::Single(to_net_player(self.first_attack_player, CorePlayer::SecondAttackPlayer))));
        types.push((observer_player_type(first), SendTarget::AllObserver));
        let t = self.host_info.time_limit;
        if t > 0 {
            self.time_elapsed = 0;
            self.players.set(0, Some(DuelPlayer { time_limit: t, time_backed: t, time_compensator: t, ..p1 }));
            self.players.set(1, Some(DuelPlayer { time_limit: t, time_backed: t, time_compensator: t, ..p2 }));
            assert(self.players@ =~= old(self).players@.map_values(
                |q: Option<DuelPlayer>|
                    match q {
                        Some(p) => Some(DuelPlayer { time_limit: t, time_backed: t, time_compensator: t, ..p }),
                        None => None,
                    },
            ));
        }
        assert(types@ =~= seq![
            (0u8, SendTarget::Single(Seat::Player(first.number()))),
            (1u8, SendTarget::Single(Seat::Player(first.spec_opponent().number()))),
            (if first == PlayerIndex::Player1 { 0x10u8 } else { 0x11u8 }, SendTarget::AllObserver),
        ]);
        Some((types, EnginePlan { cards, options }))
    }

    /// The engine waits for `player` to answer: they become the one to answer, their
    /// opponent is told to wait and, with a time limit, both duelists are told their
    /// time left and the duelist is to confirm the time; without one, the duelist is to
    /// answer. Nothing happens for an engine number that names no seated duelist.
    pub fn set_waiting(&mut self, player: CorePlayer) -> (r: Vec<(Announce, SendTarget)>)
        requires
            old(self).wf(),
        ensures
            final(self).wf(),
            ({
                let o = *old(self);
                let f = *final(self);
                match player_of_core(o.first_attack_player, player) {
                    None => r@.len() == 0 && f == o,
                    Some(i) => {
                        let n = i.number() as int;
                        let waiting = (Announce::Waiting, SendTarget::Single(Seat::Player(i.spec_opponent().number())));
                        &&& f.last_response == Some(i)
                        &&& match o.players@[n] {
                            None => r@ == seq![waiting] && f.players@ == o.players@,
                            Some(p) => if o.host_info.time_limit > 0 {
                                &&& r@ == seq![
                                    waiting,
                                    (Announce::TimeLimit(player, p.time_limit), SendTarget::Single(Seat::Player(0))),
                                    (Announce::TimeLimit(player, p.time_limit), SendTarget::Single(Seat::Player(1))),
                                ]
                                &&& f.players@ == o.players@.update(n, Some(DuelPlayer { state: Some(MessageType::TimeConfirm), ..p }))
                            } else {
                                &&& r@ == seq![waiting]
                                &&& f.players@ == o.players@.update(n, Some(DuelPlayer { state: Some(MessageType::Response), ..p }))
                            },
                        }
                        &&& f.stage == o.stage
                    },
                }
            }),
    {
        let mut out: Vec<(Announce, SendTarget)> = Vec::new();
        let index = match to_player_index(self.first_attack_player, player) {
            Some(i) => i,
            None => return out,
        };
        self.last_response = Some(index);
        out.push((Announce::Waiting, SendTarget::Single(index.opponent().seat())));
        let n: usize = match index {
            PlayerIndex::Player1 => 0,
            PlayerIndex::Player2 => 1,
        };
        let p = match self.players[n] {
            Some(p) => p,
            None => return out,
        };
        if self.host_info.time_limit > 0 {
            out.push((Announce::TimeLimit(player, p.time_limit), SendTarget::Single(Seat::Player(0))));
            out.push((Announce::TimeLimit(player, p.time_limit), SendTarget::Single(Seat::Player(1))));
            self.players.set(n, Some(DuelPlayer { state: Some(MessageType::TimeConfirm), ..p }));
        } else {
            self.players.set(n, Some(DuelPlayer { state: Some(MessageType::Response), ..p }));
        }
        out
    }
}

impl Room {
    /// A duelist declares ready in the waiting room. Unless decks go unchecked, the
    /// deck check decides: `None` when it cannot be made (no list or card data; nothing
    /// happens), an error refuses the deck (the duelist is told not ready and why).
    /// Otherwise the duelist becomes ready and everyone is told. Nothing happens outside
    /// the waiting room, for an empty seat or for a duelist already ready.
    pub fn on_hs_ready(&mut self, player: PlayerIndex, deck_check: Option<Result<(), DeckError>>) -> (r: Vec<(Announce, SendTarget)>)
        requires
            old(self).wf(),
        ensures
            final(self).wf(),
            ({
                let o = *old(self);
                let f = *final(self);
                let n = player.number() as int;
                let seat = Seat::Player(player.number());
                if o.stage != Duelstage::Begin || o.players@[n] is None || o.players@[n]->0.ready {
                    r@.len() == 0 && f == o
                } else if !o.host_info.no_check_deck && deck_check is None {
                    r@.len() == 0 && f == o
                } else {
                    match (o.host_info.no_check_deck, deck_check) {
                        (false, Some(Err(e))) => r@ == seq![
                            (Announce::PlayerChange(seat, SeatChange::Notready), SendTarget::Single(seat)),
                            (Announce::DeckError(e), SendTarget::Single(seat)),
                        ] && f == o,
                        _ => {
                            &&& f.players@ == o.players@.update(n, Some(DuelPlayer { ready: true, ..o.players@[n]->0 }))
                            &&& r@ == seq![(Announce::PlayerChange(seat, SeatChange::Ready), SendTarget::All)]
                            &&& f.stage == o.stage
                        },
                    }
                }
            }),
    {
        let mut out: Vec<(Announce, SendTarget)> = Vec::new();
        if self.stage != Duelstage::Begin {
            return out;
        }
        let n: usize = match player {
            PlayerIndex::Player1 => 0,
            PlayerIndex::Player2 => 1,
        };
        let p = match self.players[n] {
            Some(p) => p,
            None => return out,
        };
        if p.ready {
            return out;
        }
        let seat = player.seat();
        if !self.host_info.no_check_deck {
            match deck_check {
                None => return out,
                Some(Err(e)) => {
                    out.push((Announce::PlayerChange(seat, SeatChange::Notready), SendTarget::Single(seat)));
                    out.push((Announce::DeckError(e), SendTarget::Single(seat)));
                    return out;
                },
                Some(Ok(())) => {},
            }
        }
        self.players.set(n, Some(DuelPlayer { ready: true, ..p }));
        out.push((Announce::PlayerChange(seat, SeatChange::Ready), SendTarget::All));
        out
    }

    /// A ready duelist in the waiting room withdraws: they become not ready and
    /// everyone is told. Nothing happens otherwise.
    pub fn on_hs_not_ready(&mut self, player: PlayerIndex) -> (r: Vec<(Announce, SendTarget)>)
        requires
            old(self).wf(),
        ensures
            final(self).wf(),
            ({
                let o = *old(self);
                let f = *final(self);
                let n = player.number() as int;
                if o.stage != Duelstage::Begin || o.players@[n] is None || !o.players@[n]->0.ready {
                    r@.len() == 0 && f == o
                } else {
                    &&& f.players@ == o.players@.update(n, Some(DuelPlayer { ready: false, ..o.players@[n]->0 }))
                    &&& r@ == seq![(Announce::PlayerChange(Seat::Player(player.number()), SeatChange::Notready), SendTarget::All)]
                    &&& f.stage == o.stage
                }
            }),
    {
        let mut out: Vec<(Announce, SendTarget)> = Vec::new();
        if self.stage != Duelstage::Begin {
            return out;
        }
        let n: usize = match player {
            PlayerIndex::Player1 => 0,
            PlayerIndex::Player2 => 1,
        };
        let p = match self.players[n] {
            Some(p) => p,
            None => return out,
        };
        if !p.ready {
            return out;
        }
        self.players.set(n, Some(DuelPlayer { ready: false, ..p }));
        out.push((Announce::PlayerChange(player.seat(), SeatChange::Notready), SendTarget::All));
        out
    }

    /// The host removes another duelist from the waiting room; everyone is told.
    /// Nothing happens for anyone but the host, outside the waiting room, for an
    /// observer's place, for the host's own seat or for an empty seat.
    pub fn on_hs_kick(&mut self, kicker: Seat, target: Seat) -> (r: Vec<(Announce, SendTarget)>)
        requires
            old(self).wf(),
            target matches Seat::Player(t) ==> t < 2,
        ensures
            final(self).wf(),
            ({
                let o = *old(self);
                let f = *final(self);
                match target {
                    Seat::Player(t) => if kicker == o.host_player && o.stage == Duelstage::Begin
                        && kicker != target && o.players@[t as int] is Some {
                        &&& f.players@ == o.players@.update(t as int, None)
                        &&& r@ == seq![(Announce::PlayerChange(target, SeatChange::Leave), SendTarget::All)]
                        &&& f.stage == o.stage
                        &&& f.host_player == o.host_player
                    } else {
                        r@.len() == 0 && f == o
                    },
                    _ => r@.len() == 0 && f == o,
                }
            }),
    {
        let mut out: Vec<(Announce, SendTarget)> = Vec::new();
        if kicker != self.host_player || self.stage != Duelstage::Begin {
            return out;
        }
        let t = match target {
            Seat::Player(t) => t as usize,
            _ => return out,
        };
        if kicker == target || self.players[t].is_none() {
            return out;
        }
        self.players.set(t, None);
        out.push((Announce::PlayerChange(target, SeatChange::Leave), SendTarget::All));
        out
    }

    /// The host starts the duel once both duelists are ready: everyone is told, each
    /// duelist gets the deck sizes (their own first), both are to show a hand at
    /// rock-paper-scissors, and the room moves on to it. `counts` holds the main, side
    /// and extra sizes of each seat's deck. Nothing happens otherwise.
    pub fn on_hs_start(&mut self, seat: Seat, counts: [(u16, u16, u16); 2]) -> (r: Vec<(Announce, SendTarget)>)
        requires
            old(self).wf(),
        ensures
            final(self).wf(),
            ({
                let o = *old(self);
                let f = *final(self);
                if seat != o.host_player || o.players@[0] is None || o.players@[1] is None
                    || !o.players@[0]->0.ready || !o.players@[1]->0.ready {
                    r@.len() == 0 && f == o
                } else {
                    let (m1, s1, e1) = counts@[0];
                    let (m2, s2, e2) = counts@[1];
                    &&& r@ == seq![
                        (Announce::DuelStart, SendTarget::All),
                        (
                            Announce::DeckCount(DeckCount { mainc_s: m1, sidec_s: s1, extrac_s: e1, mainc_o: m2, sidec_o: s2, extrac_o: e2 }),
                            SendTarget::Single(Seat::Player(0)),
                        ),
                        (
                            Announce::DeckCount(DeckCount { mainc_s: m2, sidec_s: s2, extrac_s: e2, mainc_o: m1, sidec_o: s1, extrac_o: e1 }),
                            SendTarget::Single(Seat::Player(1)),
                        ),
                        (Announce::SelectHand, SendTarget::AllPlayer),
                    ]
                    &&& f.players@ == o.players@.map_values(
                        |q: Option<DuelPlayer>|
                            match q {
                                Some(p) => Some(DuelPlayer { hand: None, state: Some(MessageType::HandResult), ..p }),
                                None => None,
                            },
                    )
                    &&& f.stage == Duelstage::Finger
                }
            }),
    {
        let mut out: Vec<(Announce, SendTarget)> = Vec::new();
        if seat != self.host_player {
            return out;
        }
        let p1 = match self.players[0] {
            Some(p) => p,
            None => return out,
        };
        let p2 = match self.players[1] {
            Some(p) => p,
            None => return out,
        };
        if !p1.ready || !p2.ready {
            return out;
        }
        let (m1, s1, e1) = counts[0];
        let (m2, s2, e2) = counts[1];
        out.push((Announce::DuelStart, SendTarget::All));
        out.push((
            Announce::DeckCount(DeckCount { mainc_s: m1, sidec_s: s1, extrac_s: e1, mainc_o: m2, sidec_o: s2, extrac_o: e2 }),
            SendTarget::Single(Seat::Player(0)),
        ));
        out.push((
            Announce::DeckCount(DeckCount { mainc_s: m2, sidec_s: s2, extrac_s: e2, mainc_o: m1, sidec_o: s1, extrac_o: e1 }),
            SendTarget::Single(Seat::Player(1)),
        ));
        out.push((Announce::SelectHand, SendTarget::AllPlayer));
        self.players.set(0, Some(DuelPlayer { hand: None, state: Some(MessageType::HandResult), ..p1 }));
        self.players.set(1, Some(DuelPlayer { hand: None, state: Some(MessageType::HandResult), ..p2 }));
        assert(self.players@ =~= old(self).players@.map_values(
            |q: Option<DuelPlayer>|
                match q {
                    Some(p) => Some(DuelPlayer { hand: None, state: Some(MessageType::HandResult), ..p }),
                    None => None,
                },
        ));
        self.stage = Duelstage::Finger;
        out
    }

    /// A duelist sends a new deck after a duel of the match: a side deck change that the
    /// check refused is answered with a side error; otherwise the duelist becomes ready
    /// and is told the duel starts, and once both are ready the loser of the last duel
    /// (the first seat when unknown) chooses who goes first; an accepted deck replaces the
    /// seat's deck. Nothing happens for a duelist already ready or an empty seat. Before
    /// the first duel the deck is only stored (returns no message). `deck` is the deck as
    /// loaded against the card data, and `side_ok` the result of the side deck check.
    pub fn on_update_deck(&mut self, player: PlayerIndex, deck: Deck, side_ok: bool) -> (r: (Option<Announce>, Vec<(Announce, SendTarget)>))
        requires
            old(self).wf(),
        ensures
            final(self).wf(),
            ({
                let o = *old(self);
                let f = *final(self);
                let n = player.number() as int;
                let seat = Seat::Player(player.number());
                if o.players@[n] is None || o.players@[n]->0.ready {
                    r.0 is None && r.1@.len() == 0 && f == o
                } else if o.duel_count == 0 {
                    &&& r.0 is None
                    &&& r.1@.len() == 0
                    &&& f.decks@ == o.decks@.update(n, deck)
                    &&& f == (Room { decks: f.decks, ..o })
                } else if !side_ok {
                    r.0 == Some(Announce::SideError) && r.1@.len() == 0 && f == o
                } else {
                    let readied = o.players@.update(n, Some(DuelPlayer { ready: true, ..o.players@[n]->0 }));
                    let both = readied[0] is Some && readied[1] is Some && readied[0]->0.ready && readied[1]->0.ready;
                    let decider = match o.first_attack_decider {
                        Some(d) => d,
                        None => PlayerIndex::Player1,
                    };
                    let dn = decider.number() as int;
                    let on = decider.spec_opponent().number() as int;
                    &&& r.0 is None
                    &&& f.decks@ == o.decks@.update(n, deck)
                    &&& !both ==> f.players@ == readied && f.stage == o.stage
                        && r.1@ == seq![(Announce::DuelStart, SendTarget::Single(seat))]
                    &&& both ==> {
                        &&& f.players@ == readied.update(dn, Some(DuelPlayer { state: Some(MessageType::TpResult), ..readied[dn]->0 })).update(on, Some(DuelPlayer { state: Some(MessageType::LeaveGame), ..readied[on]->0 }))
                        &&& f.stage == Duelstage::Firstgo
                        &&& r.1@ == seq![
                            (Announce::DuelStart, SendTarget::Single(seat)),
                            (Announce::SelectTp, SendTarget::Single(Seat::Player(decider.number()))),
                        ]
                    }
                }
            }),
    {
        let mut out: Vec<(Announce, SendTarget)> = Vec::new();
        let n: usize = match player {
            PlayerIndex::Player1 => 0,
            PlayerIndex::Player2 => 1,
        };
        let p = match self.players[n] {
            Some(p) => p,
            None => return (None, out),
        };
        if p.ready {
            return (None, out);
        }
        if self.duel_count == 0 {
            self.decks.set(n, deck);
            return (None, out);
        }
        if !side_ok {
            return (Some(Announce::SideError), out);
        }
        self.decks.set(n, deck);
        self.players.set(n, Some(DuelPlayer { ready: true, ..p }));
        out.push((Announce::DuelStart, SendTarget::Single(player.seat())));
        let both = match (self.players[0], self.players[1]) {
            (Some(a), Some(b)) => a.ready && b.ready,
            _ => false,
        };
        if both {
            let decider = match self.first_attack_decider {
                Some(d) => d,
                None => PlayerIndex::Player1,
            };
            out.push((Announce::SelectTp, SendTarget::Single(decider.seat())));
            let dn: usize = match decider {
                PlayerIndex::Player1 => 0,
                PlayerIndex::Player2 => 1,
            };
            let on: usize = 1 - dn;
            let d = self.players[dn].unwrap();
            self.players.set(dn, Some(DuelPlayer { state: Some(MessageType::TpResult), ..d }));
            let q = self.players[on].unwrap();
            self.players.set(on, Some(DuelPlayer { state: Some(MessageType::LeaveGame), ..q }));
            self.stage = Duelstage::Firstgo;
        }
        (None, out)
    }
}

/// Whether the engine waits for an answer after a message of type `t`: after every
/// select prompt.
pub open spec fn awaits_answer(t: gm::MessageType) -> bool {
    ||| t == gm::MessageType::SelectBattleCommand
    ||| t == gm::MessageType::SelectIdleCommand
    ||| t == gm::MessageType::SelectEffectYesNo
    ||| t == gm::MessageType::SelectYesNo
    ||| t == gm::MessageType::SelectCard
    ||| t == gm::MessageType::SelectChain
    ||| t == gm::MessageType::SelectPlace
    ||| t == gm::MessageType::SelectPosition
    ||| t == gm::MessageType::SelectTribute
    ||| t == gm::MessageType::SelectCounter
    ||| t == gm::MessageType::SelectSum
    ||| t == gm::MessageType::SelectDisableField
    ||| t == gm::MessageType::SortCard
    ||| t == gm::MessageType::SelectUnselectCard
}

/// Whether the engine stops to wait for an answer after a message of type `t`.
pub fn is_prompt(t: gm::MessageType) -> (r: bool)
    ensures
        r == awaits_answer(t),
{
    match t {
        gm::MessageType::SelectBattleCommand | gm::MessageType::SelectIdleCommand
        | gm::MessageType::SelectEffectYesNo | gm::MessageType::SelectYesNo
        | gm::MessageType::SelectCard | gm::MessageType::SelectChain
        | gm::MessageType::SelectPlace | gm::MessageType::SelectPosition
        | gm::MessageType::SelectTribute | gm::MessageType::SelectCounter
        | gm::MessageType::SelectSum | gm::MessageType::SelectDisableField
        | gm::MessageType::SortCard | gm::MessageType::SelectUnselectCard => true,
        _ => false,
    }
}

/// Where a prompt to the engine's duelist `player` goes: to that duelist's seat.
pub fn prompt_target(first_attack: Option<PlayerIndex>, player: CorePlayer) -> (r: SendTarget)
    ensures
        r == SendTarget::Single(
            match player_of_core(first_attack, player) {
                Some(p) => Seat::Player(p.number()),
                None => Seat::Unknown,
            },
        ),
{
    SendTarget::Single(to_net_player(first_attack, player))
}

/// Where the engine's request to answer again goes: to the duelist who answered last,
/// or to no seat when none did.
pub fn retry_target(first_attack: Option<PlayerIndex>, last_response: Option<PlayerIndex>) -> (r: SendTarget)
    ensures
        r == SendTarget::Single(
            match last_response {
                Some(p) => Seat::Player(p.number()),
                None => Seat::Unknown,
            },
        ),
{
    match last_response {
        Some(p) => {
            proof {
                lemma_core_player_round_trip(first_attack, p, CorePlayer::FirstAttackPlayer);
            }
            SendTarget::Single(to_net_player(first_attack, to_core_player(first_attack, p)))
        },
        None => SendTarget::Single(Seat::Unknown),
    }
}

/// Whether a position shows the card face down.
pub open spec fn face_down(p: Position) -> bool {
    p.code() & 0xA != 0
}

/// Whether a card is face down.
pub fn is_face_down(p: Position) -> (r: bool)
    ensures
        r == face_down(p),
{
    p.value() & 0xA != 0
}

/// What to look at again after the engine reports a change: a duelist, a location and
/// a sequence (-1 for the whole location); no duelist for nothing.
pub type Refresh = (CorePlayer, u8, i8);

/// Nothing to look at again.
pub open spec fn no_refresh() -> Refresh {
    (CorePlayer::NoPlayer, 0u8, -1i8)
}

/// After a card moved from `previous` (controller, location) to `current` (controller,
/// location, sequence): its new place, when it is a place on the field or in a zone
/// other than an overlay and the card changed location or controller; nothing
/// otherwise.
pub fn refresh_after_move(previous: (CorePlayer, u8), current: (CorePlayer, u8, i8)) -> (r: Refresh)
    ensures
        r == if current.1 != 0 && current.1 & LOCATION_OVERLAY == 0 && (current.1 != previous.1
            || current.0 != previous.0) {
            current
        } else {
            no_refresh()
        },
{
    let (pc, pl) = previous;
    let (cc, cl, cs) = current;
    if cl != 0 && cl & LOCATION_OVERLAY == 0 && (cl != pl || cc != pc) {
        (cc, cl, cs)
    } else {
        (CorePlayer::NoPlayer, 0, -1)
    }
}

/// After a card at (controller, location, sequence) changed its position: its place
/// when it turned face up, nothing otherwise.
pub fn refresh_after_position_change(place: (CorePlayer, u8, i8), previous: Position, current: Position) -> (r: Refresh)
    ensures
        r == if face_down(previous) && !face_down(current) {
            place
        } else {
            no_refresh()
        },
{
    if is_face_down(previous) && !is_face_down(current) {
        place
    } else {
        (CorePlayer::NoPlayer, 0, -1)
    }
}

/// Whether the code of a moved card is hidden from `viewer`: it is when the card is
/// not the viewer's, did not go to the graveyard or an overlay, and went to a deck or
/// a hand or lies face down.
pub fn move_code_hidden(viewer: CorePlayer, controller: CorePlayer, location: u8, position: Position) -> (r: bool)
    ensures
        r == (controller != viewer && location & (LOCATION_GRAVE | LOCATION_OVERLAY) == 0 && (
        location & (LOCATION_DECK | LOCATION_HAND) != 0 || face_down(position))),
{
    controller != viewer && location & (LOCATION_GRAVE | LOCATION_OVERLAY) == 0 && (location & (
    LOCATION_DECK | LOCATION_HAND) != 0 || is_face_down(position))
}

/// The query flags every location is asked for: code, position, alias, type, level,
/// rank, attribute, race, attack, defense, base attack, base defense and reason.
pub const QUERY_COMMON: u32 = 0x1fff;
/// The status query flag.
pub const QUERY_STATUS: u32 = 0x80000;
/// The left pendulum scale query flag.
pub const QUERY_LSCALE: u32 = 0x200000;
/// The right pendulum scale query flag.
pub const QUERY_RSCALE: u32 = 0x400000;
/// The link query flag.
pub const QUERY_LINK: u32 = 0x800000;
/// Every query flag.
pub const QUERY_ALL: u32 = 0xefffff;

/// The flags to query the cards of a location with: the common ones plus link, scales
/// and status for the extra deck; status for the graveyard and banished cards; scales
/// and status for the hand and spell zones; link and status for the monster zones;
/// every flag for any other location set.
pub fn default_query(location: u8) -> (r: u32)
    ensures
        r == if location == LOCATION_EXTRA {
            QUERY_LINK | QUERY_LSCALE | QUERY_RSCALE | QUERY_STATUS | QUERY_COMMON
        } else if location == LOCATION_GRAVE || location == LOCATION_REMOVED {
            QUERY_STATUS | QUERY_COMMON
        } else if location == LOCATION_HAND || location == LOCATION_SZONE {
            QUERY_LSCALE | QUERY_RSCALE | QUERY_STATUS | QUERY_COMMON
        } else if location == LOCATION_MZONE {
            QUERY_LINK | QUERY_STATUS | QUERY_COMMON
        } else {
            QUERY_ALL
        },
{
    if location == LOCATION_EXTRA {
        QUERY_LINK | QUERY_LSCALE | QUERY_RSCALE | QUERY_STATUS | QUERY_COMMON
    } else if location == LOCATION_GRAVE || location == LOCATION_REMOVED {
        QUERY_STATUS | QUERY_COMMON
    } else if location == LOCATION_HAND || location == LOCATION_SZONE {
        QUERY_LSCALE | QUERY_RSCALE | QUERY_STATUS | QUERY_COMMON
    } else if location == LOCATION_MZONE {
        QUERY_LINK | QUERY_STATUS | QUERY_COMMON
    } else {
        QUERY_ALL
    }
}

impl Room {
    /// A new turn: each seated duelist's clock is reset to the time limit.
    pub fn on_new_turn(&mut self)
        requires
            old(self).wf(),
        ensures
            final(self).wf(),
            final(self).players@ == old(self).players@.map_values(
                |q: Option<DuelPlayer>|
                    match q {
                        Some(p) => Some(
                            DuelPlayer {
                                time_limit: old(self).host_info.time_limit,
                                time_compensator: old(self).host_info.time_limit,
                                time_backed: old(self).host_info.time_limit,
                                ..p
                            },
                        ),
                        None => None,
                    },
            ),
            final(self).stage == old(self).stage,
    {
        let t = self.host_info.time_limit;
        let ghost before = self.players@;
        match self.players[0] {
            Some(p) => self.players.set(0, Some(DuelPlayer { time_limit: t, time_compensator: t, time_backed: t, ..p })),
            None => {},
        }
        match self.players[1] {
            Some(p) => self.players.set(1, Some(DuelPlayer { time_limit: t, time_compensator: t, time_backed: t, ..p })),
            None => {},
        }
        assert(self.players@ =~= before.map_values(
            |q: Option<DuelPlayer>|
                match q {
                    Some(p) => Some(DuelPlayer { time_limit: t, time_compensator: t, time_backed: t, ..p }),
                    None => None,
                },
        ));
    }
}

/// What the room does with a handler's answer to a client's message: messages to send
/// back to the client's seat, whether the client is told to leave, and whether the
/// room stops.
pub struct DispatchPlan<M> {
    pub replies: Vec<M>,
    pub kick: bool,
    pub stop: bool,
}

/// How a handler's answer is carried out for the client at `position`: a replacing
/// message, or several, go back to the client; a kick tells the client to leave; a
/// stop stops the room; going on or dropping the message does nothing more.
pub fn dispatch_response<M>(response: HandlerResponse<M>) -> (r: DispatchPlan<M>)
    ensures
        match response {
            HandlerResponse::Replace(m) => r.replies@ == seq![m] && !r.kick && !r.stop,
            HandlerResponse::ReplaceMultiple(v) => r.replies@ == v@ && !r.kick && !r.stop,
            HandlerResponse::Kick => r.replies@.len() == 0 && r.kick && !r.stop,
            HandlerResponse::Stop => r.replies@.len() == 0 && !r.kick && r.stop,
            _ => r.replies@.len() == 0 && !r.kick && !r.stop,
        },
{
    match response {
        HandlerResponse::Replace(m) => {
            let mut v: Vec<M> = Vec::new();
            v.push(m);
            DispatchPlan { replies: v, kick: false, stop: false }
        },
        HandlerResponse::ReplaceMultiple(v) => DispatchPlan { replies: v, kick: false, stop: false },
        HandlerResponse::Kick => DispatchPlan { replies: Vec::new(), kick: true, stop: false },
        HandlerResponse::Stop => DispatchPlan { replies: Vec::new(), kick: false, stop: true },
        _ => DispatchPlan { replies: Vec::new(), kick: false, stop: false },
    }
}

/// The duelist who is to answer after the engine's messages, judging by where the last
/// one went: the duelist of a duelist's seat, none otherwise.
pub fn waiting_player(last_target: SendTarget) -> (r: Option<PlayerIndex>)
    ensures
        r == match last_target {
            SendTarget::Single(Seat::Player(n)) => Some(index_of_number(n)),
            _ => None,
        },
{
    match last_target {
        SendTarget::Single(Seat::Player(n)) => Some(
            if n == 0 {
                PlayerIndex::Player1
            } else {
                PlayerIndex::Player2
            },
        ),
        _ => None,
    }
}

/// The locations a refresh looks at, in order.
pub open spec fn refresh_locations() -> Seq<u8> {
    seq![LOCATION_MZONE, LOCATION_SZONE, LOCATION_HAND, LOCATION_EXTRA, LOCATION_GRAVE, LOCATION_REMOVED]
}

/// The locations of `ls` that are among `locations`, each paired with `player`.
pub open spec fn refresh_from(ls: Seq<u8>, player: CorePlayer, locations: u8) -> Seq<(CorePlayer, u8)>
    decreases ls.len(),
{
    if ls.len() == 0 {
        Seq::empty()
    } else {
        refresh_from(ls.drop_last(), player, locations) + if locations & ls.last() != 0 {
            seq![(player, ls.last())]
        } else {
            Seq::<(CorePlayer, u8)>::empty()
        }
    }
}

/// The locations of `locations` a refresh looks at, for one duelist.
pub open spec fn refresh_of(player: CorePlayer, locations: u8) -> Seq<(CorePlayer, u8)> {
    refresh_from(refresh_locations(), player, locations)
}

/// What a refresh of `locations` for `player` queries: for each duelist meant (both
/// for `All`), the monster zones, spell zones, hand, extra deck, graveyard and banished
/// cards among `locations`, in that order.
pub fn refresh_plan(player: CorePlayer, locations: u8) -> (r: Vec<(CorePlayer, u8)>)
    ensures
        r@ == if player == CorePlayer::All {
            refresh_of(CorePlayer::FirstAttackPlayer, locations) + refresh_of(CorePlayer::SecondAttackPlayer, locations)
        } else {
            refresh_of(player, locations)
        },
{
    let mut out: Vec<(CorePlayer, u8)> = Vec::new();
    let order: [u8; 6] = [LOCATION_MZONE, LOCATION_SZONE, LOCATION_HAND, LOCATION_EXTRA, LOCATION_GRAVE, LOCATION_REMOVED];
    assert(order@ == refresh_locations());
    let both = player == CorePlayer::All;
    let rounds: usize = if both { 2 } else { 1 };
    let mut round: usize = 0;
    while round < rounds
        invariant
            rounds == (if both { 2usize } else { 1usize }),
            round <= rounds,
            both == (player == CorePlayer::All),
            order@ == refresh_locations(),
            out@ == if round == 0 {
                Seq::<(CorePlayer, u8)>::empty()
            } else if both {
                if round == 1 {
                    refresh_of(CorePlayer::FirstAttackPlayer, locations)
                } else {
                    refresh_of(CorePlayer::FirstAttackPlayer, locations) + refresh_of(CorePlayer::SecondAttackPlayer, locations)
                }
            } else {
                refresh_of(player, locations)
            },
        decreases rounds - round,
    {
        let who = if !both {
            player
        } else if round == 0 {
            CorePlayer::FirstAttackPlayer
        } else {
            CorePlayer::SecondAttackPlayer
        };
        let ghost start = out@;
        let mut i: usize = 0;
        while i < 6
            invariant
                i <= 6,
                order@ == refresh_locations(),
                out@ == start + refresh_from(refresh_locations().take(i as int), who, locations),
            decreases 6 - i,
        {
            let l = order[i];
            assert(refresh_locations().take(i + 1).drop_last() =~= refresh_locations().take(i as int));
            if locations & l != 0 {
                out.push((who, l));
            }
            i = i + 1;
            assert(out@ =~= start + refresh_from(refresh_locations().take(i as int), who, locations));
        }
        assert(refresh_locations().take(6) =~= refresh_locations());
        round = round + 1;
    }
    out
}

/// A card code with its number hidden: the number bits (the low 28) cleared, the
/// other bits kept.
pub fn masked_card_code(code: u32) -> (r: u32)
    ensures
        r == code & 0xF000_0000,
{
    code & 0xF000_0000
}

/// A card code as a player may see it: kept when its public bit (the top one) is set,
/// its number hidden otherwise.
pub fn masked_card_code_towards(code: u32) -> (r: u32)
    ensures
        r == if code & 0x8000_0000 != 0 {
            code
        } else {
            code & 0xF000_0000
        },
{
    if code & 0x8000_0000 != 0 {
        code
    } else {
        code & 0xF000_0000
    }
}

/// The seats of the taken observer places, in order.
pub open spec fn observer_seats(observers: Seq<bool>) -> Seq<Seat>
    decreases observers.len(),
{
    if observers.len() == 0 {
        Seq::empty()
    } else {
        observer_seats(observers.drop_last()) + if observers.last() {
            seq![Seat::Observer((observers.len() - 1) as u8)]
        } else {
            Seq::<Seat>::empty()
        }
    }
}

impl Room {
    /// The seats of the seated duelists, first seat first.
    pub open spec fn player_seats(self) -> Seq<Seat> {
        (if self.players@[0] is Some { seq![Seat::Player(0)] } else { Seq::empty() }) + (if self.players@[1]
            is Some {
            seq![Seat::Player(1)]
        } else {
            Seq::empty()
        })
    }

    /// Who gets a message sent to `target`. A single seat gets it when someone sits
    /// there. Everyone but a duelist means the other duelist; everyone but anyone else
    /// means both duelists; observers get it either way. Everyone means the duelists,
    /// then the observers.
    pub open spec fn recipients_of(self, target: SendTarget) -> Seq<Seat> {
        let single = |s: Seat|
            match s {
                Seat::Player(i) => if self.players@[i as int] is Some {
                    seq![s]
                } else {
                    Seq::empty()
                },
                Seat::Observer(i) => if i < self.observers@.len() && self.observers@[i as int] {
                    seq![s]
                } else {
                    Seq::empty()
                },
                Seat::Unknown => Seq::empty(),
            };
        match target {
            SendTarget::Single(s) => single(s),
            SendTarget::Except(s) => (if s == Seat::Player(0) {
                single(Seat::Player(1))
            } else if s == Seat::Player(1) {
                single(Seat::Player(0))
            } else {
                self.player_seats()
            }) + observer_seats(self.observers@),
            SendTarget::All => self.player_seats() + observer_seats(self.observers@),
            SendTarget::AllPlayer => self.player_seats(),
            SendTarget::AllObserver => observer_seats(self.observers@),
            SendTarget::Nobody => Seq::empty(),
        }
    }

    fn seated(&self, i: usize) -> (r: Vec<Seat>)
        requires
            self.wf(),
            i < 2,
        ensures
            r@ == if self.players@[i as int] is Some {
                seq![Seat::Player(i as u8)]
            } else {
                Seq::<Seat>::empty()
            },
    {
        let mut v: Vec<Seat> = Vec::new();
        if self.players[i].is_some() {
            v.push(Seat::Player(i as u8));
        }
        assert(v@ =~= if self.players@[i as int] is Some {
            seq![Seat::Player(i as u8)]
        } else {
            Seq::<Seat>::empty()
        });
        v
    }

    fn all_players(&self) -> (r: Vec<Seat>)
        requires
            self.wf(),
        ensures
            r@ == self.player_seats(),
    {
        let mut v = self.seated(0);
        let mut w = self.seated(1);
        v.append(&mut w);
        v
    }

    fn all_observers(&self) -> (r: Vec<Seat>)
        requires
            self.observers@.len() <= 256,
        ensures
            r@ == observer_seats(self.observers@),
    {
        let mut v: Vec<Seat> = Vec::new();
        let mut i: usize = 0;
        while i < self.observers.len()
            invariant
                i <= self.observers@.len(),
                self.observers@.len() <= 256,
                v@ == observer_seats(self.observers@.take(i as int)),
            decreases self.observers@.len() - i,
        {
            assert(self.observers@.take(i + 1).drop_last() =~= self.observers@.take(i as int));
            if self.observers[i] {
                v.push(Seat::Observer(i as u8));
            }
            i = i + 1;
            assert(v@ =~= observer_seats(self.observers@.take(i as int)));
        }
        assert(self.observers@.take(i as int) =~= self.observers@);
        v
    }

    /// Who gets a message sent to `target`.
    pub fn recipients(&self, target: SendTarget) -> (r: Vec<Seat>)
        requires
            self.wf(),
            self.observers@.len() <= 256,
            target matches SendTarget::Single(Seat::Player(i)) ==> i < 2,
        ensures
            r@ == self.recipients_of(target),
    {
        match target {
            SendTarget::Single(Seat::Player(i)) => self.seated(i as usize),
            SendTarget::Single(Seat::Observer(i)) => {
                let mut v: Vec<Seat> = Vec::new();
                if (i as usize) < self.observers.len() && self.observers[i as usize] {
                    v.push(Seat::Observer(i));
                }
                assert(v@ =~= self.recipients_of(target));
                v
            },
            SendTarget::Single(Seat::Unknown) => Vec::new(),
            SendTarget::Except(s) => {
                let mut v = if s == Seat::Player(0) {
                    self.seated(1)
                } else if s == Seat::Player(1) {
                    self.seated(0)
                } else {
                    self.all_players()
                };
                let mut w = self.all_observers();
                v.append(&mut w);
                v
            },
            SendTarget::All => {
                let mut v = self.all_players();
                let mut w = self.all_observers();
                v.append(&mut w);
                v
            },
            SendTarget::AllPlayer => self.all_players(),
            SendTarget::AllObserver => self.all_observers(),
            SendTarget::Nobody => Vec::new(),
        }
    }
}

/// A message of the field a client is sent when it asks for the field.
#[derive(Clone, Copy, Debug, PartialEq, Eq, Structural)]
pub enum FieldMessage {
    DuelStart,
    Start(gm::Start),
    NewTurn(gm::NewTurn),
    NewPhase(gm::NewPhase),
    /// The cards of a duelist's location, as the engine reports them.
    Refresh(CorePlayer, u8),
    ReverseDeck,
    /// The time left to a duelist (by the engine's number).
    TimeLimit(CorePlayer, u16),
    FieldFinish,
}

/// The refreshes of the whole field: for the first attacker, then the second, the
/// monster zones, spell zones, hand, extra deck, graveyard and banished cards.
pub open spec fn field_refreshes() -> Seq<FieldMessage> {
    seq![
        FieldMessage::Refresh(CorePlayer::FirstAttackPlayer, LOCATION_MZONE),
        FieldMessage::Refresh(CorePlayer::FirstAttackPlayer, LOCATION_SZONE),
        FieldMessage::Refresh(CorePlayer::FirstAttackPlayer, LOCATION_HAND),
        FieldMessage::Refresh(CorePlayer::FirstAttackPlayer, LOCATION_EXTRA),
        FieldMessage::Refresh(CorePlayer::FirstAttackPlayer, LOCATION_GRAVE),
        FieldMessage::Refresh(CorePlayer::FirstAttackPlayer, LOCATION_REMOVED),
        FieldMessage::Refresh(CorePlayer::SecondAttackPlayer, LOCATION_MZONE),
        FieldMessage::Refresh(CorePlayer::SecondAttackPlayer, LOCATION_SZONE),
        FieldMessage::Refresh(CorePlayer::SecondAttackPlayer, LOCATION_HAND),
        FieldMessage::Refresh(CorePlayer::SecondAttackPlayer, LOCATION_EXTRA),
        FieldMessage::Refresh(CorePlayer::SecondAttackPlayer, LOCATION_GRAVE),
        FieldMessage::Refresh(CorePlayer::SecondAttackPlayer, LOCATION_REMOVED),
    ]
}

/// The time limit of a seat: its duelist's, 0 for an empty seat.
pub open spec fn seat_time(p: Option<DuelPlayer>) -> u16 {
    match p {
        Some(d) => d.time_limit,
        None => 0,
    }
}

impl Room {
    /// The field, for a duelist who asks for it: the duel starts, the start of the duel
    /// (the duelist's number, the master rule, both start LPs, and the deck and extra
    /// deck counts `counts` of the first and second attacker, as the engine reports
    /// them), the first attacker's turn, the current phase, the whole field, the
    /// reversed deck when it is, each seat's time left, and the end of the field.
    pub fn on_request_field(&self, player: PlayerIndex, counts: [u16; 4], phase: Phase, deck_reversed: bool) -> (r: Vec<FieldMessage>)
        requires
            self.wf(),
        ensures
            r@ == seq![
                FieldMessage::DuelStart,
                FieldMessage::Start(gm::Start {
                    player_type: if player == PlayerIndex::Player1 { 0u8 } else { 1u8 },
                    rule: self.host_info.duel_rule,
                    player1_lp: self.host_info.start_lp as i32,
                    player2_lp: self.host_info.start_lp as i32,
                    player1_deck_count: counts@[0],
                    player1_extra_count: counts@[1],
                    player2_deck_count: counts@[2],
                    player2_extra_count: counts@[3],
                }),
                FieldMessage::NewTurn(gm::NewTurn { player: CorePlayer::FirstAttackPlayer }),
                FieldMessage::NewPhase(gm::NewPhase { phase }),
            ] + field_refreshes() + (if deck_reversed {
                seq![FieldMessage::ReverseDeck]
            } else {
                Seq::<FieldMessage>::empty()
            }) + seq![
                FieldMessage::TimeLimit(core_player_of(self.first_attack_player, PlayerIndex::Player1), seat_time(self.players@[0])),
                FieldMessage::TimeLimit(core_player_of(self.first_attack_player, PlayerIndex::Player2), seat_time(self.players@[1])),
                FieldMessage::FieldFinish,
            ],
    {
        let mut r: Vec<FieldMessage> = Vec::new();
        r.push(FieldMessage::DuelStart);
        let start_lp = self.host_info.start_lp as i32;
        r.push(FieldMessage::Start(gm::Start {
            player_type: match player {
                PlayerIndex::Player1 => 0u8,
                PlayerIndex::Player2 => 1u8,
            },
            rule: self.host_info.duel_rule,
            player1_lp: start_lp,
            player2_lp: start_lp,
            player1_deck_count: counts[0],
            player1_extra_count: counts[1],
            player2_deck_count: counts[2],
            player2_extra_count: counts[3],
        }));
        r.push(FieldMessage::NewTurn(gm::NewTurn { player: CorePlayer::FirstAttackPlayer }));
        r.push(FieldMessage::NewPhase(gm::NewPhase { phase }));
        let ghost head = r@;
        let order: [u8; 6] = [LOCATION_MZONE, LOCATION_SZONE, LOCATION_HAND, LOCATION_EXTRA, LOCATION_GRAVE, LOCATION_REMOVED];
        let mut round: usize = 0;
        while round < 2
            invariant
                round <= 2,
                order@ == seq![LOCATION_MZONE, LOCATION_SZONE, LOCATION_HAND, LOCATION_EXTRA, LOCATION_GRAVE, LOCATION_REMOVED],
                r@ == head + field_refreshes().take(6 * round),
            decreases 2 - round,
        {
            let who = if round == 0 {
                CorePlayer::FirstAttackPlayer
            } else {
                CorePlayer::SecondAttackPlayer
            };
            let mut i: usize = 0;
            while i < 6
                invariant
                    round < 2,
                    i <= 6,
                    who == (if round == 0 { CorePlayer::FirstAttackPlayer } else { CorePlayer::SecondAttackPlayer }),
                    order@ == seq![LOCATION_MZONE, LOCATION_SZONE, LOCATION_HAND, LOCATION_EXTRA, LOCATION_GRAVE, LOCATION_REMOVED],
                    r@ == head + field_refreshes().take(6 * round + i),
                decreases 6 - i,
            {
                r.push(FieldMessage::Refresh(who, order[i]));
                assert(field_refreshes().take(6 * round + i + 1) =~= field_refreshes().take(6 * round + i).push(
                    FieldMessage::Refresh(who, order@[i as int]),
                ));
                i = i + 1;
                assert(r@ =~= head + field_refreshes().take(6 * round + i));
            }
            round = round + 1;
        }
        assert(field_refreshes().take(12) =~= field_refreshes());
        if deck_reversed {
            r.push(FieldMessage::ReverseDeck);
        }
        let t0 = match self.players[0] {
            Some(p) => p.time_limit,
            None => 0,
        };
        let t1 = match self.players[1] {
            Some(p) => p.time_limit,
            None => 0,
        };
        r.push(FieldMessage::TimeLimit(to_core_player(self.first_attack_player, PlayerIndex::Player1), t0));
        r.push(FieldMessage::TimeLimit(to_core_player(self.first_attack_player, PlayerIndex::Player2), t1));
        r.push(FieldMessage::FieldFinish);
        r
    }
}

/// What a game message makes the server refresh once it is sent: the duelist and the
/// locations; `player` is the duelist the message names and `location` the location it
/// names. A shuffled hand, graveyard swap or shuffled extra deck refreshes that
/// duelist's place; shuffled set cards that location for both; a new turn, a new
/// phase and the steps of a chain both duelists' zones and hands; a summon both
/// duelists' zones; the damage step both duelists' monster zones. Other messages
/// refresh nothing.
pub fn refresh_after_message(t: gm::MessageType, player: CorePlayer, location: u8) -> (r: Option<(CorePlayer, u8)>)
    ensures
        r == match t {
            gm::MessageType::ShuffleHand => Some((player, LOCATION_HAND)),
            gm::MessageType::SwapGraveDeck => Some((player, LOCATION_GRAVE)),
            gm::MessageType::ShuffleExtra => Some((player, LOCATION_EXTRA)),
            gm::MessageType::ShuffleSetCard => Some((CorePlayer::All, location)),
            gm::MessageType::NewTurn | gm::MessageType::NewPhase | gm::MessageType::Chained
            | gm::MessageType::ChainSolved | gm::MessageType::ChainEnd => Some(
                (CorePlayer::All, LOCATION_MZONE | LOCATION_SZONE | LOCATION_HAND),
            ),
            gm::MessageType::Summoned | gm::MessageType::SpecialSummoned | gm::MessageType::FlipSummoned => Some(
                (CorePlayer::All, LOCATION_MZONE | LOCATION_SZONE),
            ),
            gm::MessageType::DamageStepStart | gm::MessageType::DamageStepEnd => Some(
                (CorePlayer::All, LOCATION_MZONE),
            ),
            _ => None,
        },
{
    match t {
        gm::MessageType::ShuffleHand => Some((player, LOCATION_HAND)),
        gm::MessageType::SwapGraveDeck => Some((player, LOCATION_GRAVE)),
        gm::MessageType::ShuffleExtra => Some((player, LOCATION_EXTRA)),
        gm::MessageType::ShuffleSetCard => Some((CorePlayer::All, location)),
        gm::MessageType::NewTurn | gm::MessageType::NewPhase | gm::MessageType::Chained
        | gm::MessageType::ChainSolved | gm::MessageType::ChainEnd => Some(
            (CorePlayer::All, LOCATION_MZONE | LOCATION_SZONE | LOCATION_HAND),
        ),
        gm::MessageType::Summoned | gm::MessageType::SpecialSummoned | gm::MessageType::FlipSummoned => Some(
            (CorePlayer::All, LOCATION_MZONE | LOCATION_SZONE),
        ),
        gm::MessageType::DamageStepStart | gm::MessageType::DamageStepEnd => Some(
            (CorePlayer::All, LOCATION_MZONE),
        ),
        _ => None,
    }
}

} // verus!
