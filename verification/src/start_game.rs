//! Setting up a duel that replays a recorded one: its seeds and its decks.
use vstd::prelude::*;

use crate::constants::{CorePlayer, Hand, Mode, Rule};
use crate::deck::Deck;
use crate::message::ctos;
use crate::message::host_info::HostInfo;
use crate::message::stoc;
use crate::random::{DuelSeed, SEED_COUNT};
use crate::replay_body::{spec_duel_rule, Replay, ReplayDeck, DUEL_OPTION_PSEUDO_SHUFFLE, DUEL_OPTION_TAG_MODE};
use crate::single_duel::{PlayerIndex, PRO_VERSION};
use crate::string::{c_string_text, cast_to_string};

verus! {

/// The seeds of every duel of a replayed match: the replay's seeds. The seeds must
/// have been taken from the replay first.
pub fn seed_generator(replay_seed: Option<[u32; SEED_COUNT]>, duel_count: u8) -> (r: DuelSeed)
    requires
        replay_seed is Some,
    ensures
        r matches DuelSeed::Complicated(s) && s@ == replay_seed->0@,
{
    match replay_seed {
        Some(seed) => DuelSeed::Complicated(seed),
        None => DuelSeed::Random,
    }
}

/// The codes of `v` in reverse order.
fn reversed(v: &Vec<u32>) -> (r: Vec<u32>)
    ensures
        r@ == v@.reverse(),
{
    let mut out: Vec<u32> = Vec::new();
    let mut i: usize = v.len();
    while i > 0
        invariant
            i <= v@.len(),
            out@ == v@.skip(i as int).reverse(),
        decreases i,
    {
        i = i - 1;
        out.push(v[i]);
        assert(out@ =~= v@.skip(i as int).reverse());
    }
    assert(v@.skip(0) =~= v@);
    out
}

/// The deck a duelist of a replay plays with: the recorded main deck reversed, then
/// the recorded extra deck reversed, all in the main deck (the engine sorts the extra
/// deck out); no side deck.
pub fn build_deck(replay_deck: &ReplayDeck) -> (r: Deck)
    ensures
        r.main@ == replay_deck.main@.reverse() + replay_deck.extra@.reverse(),
        r.side@.len() == 0,
        r.extra@.len() == 0,
{
    let mut main = reversed(&replay_deck.main);
    let mut extra = reversed(&replay_deck.extra);
    main.append(&mut extra);
    Deck { main, side: Vec::new(), extra: Vec::new() }
}

/// A message the script that starts a replayed duel sends for a duelist.
#[derive(Debug)]
pub enum Command {
    /// The duelist's name, as text.
    PlayerInfo(String),
    JoinGame(ctos::JoinGame),
    UpdateDeck(Deck),
    HsReady,
    HsStart,
    HandResult(ctos::HandResult),
    TpResult(ctos::TpResult),
}

/// One step of the script that starts a replayed duel.
#[derive(Debug)]
pub enum Step {
    /// Send a message for a duelist.
    Send(PlayerIndex, Command),
    /// Wait until a duelist gets a message of a type.
    WaitFor(PlayerIndex, stoc::MessageType),
    /// Wait a moment (ten milliseconds).
    Pause,
}

/// The text of a recorded name: the units up to the first 0 unit, or `[ERROR]` when
/// they do not spell a string.
pub open spec fn name_text(units: Seq<u16>) -> Seq<char> {
    match c_string_text(units) {
        Some(t) => t,
        None => "[ERROR]"@,
    }
}

/// The text of a recorded name.
pub fn display_name(units: &[u16; 20]) -> (r: String)
    ensures
        r@ == name_text(units@),
{
    match cast_to_string(units) {
        Some(t) => t,
        None => "[ERROR]".to_owned(),
    }
}

/// The room settings of a replayed duel: the replay's, with no time limit.
pub fn start_host_info(replay: &Replay) -> (r: HostInfo)
    ensures
        r == (HostInfo {
            lflist: 999,
            rule: Rule::OCG,
            mode: if replay.body.duel_options & DUEL_OPTION_TAG_MODE != 0 {
                Mode::Tag
            } else {
                Mode::Single
            },
            duel_rule: spec_duel_rule(replay.body.duel_options, replay.body.duel_rule),
            no_check_deck: true,
            no_shuffle_deck: replay.body.duel_options & DUEL_OPTION_PSEUDO_SHUFFLE != 0,
            start_lp: replay.body.start_lp,
            start_hand: replay.body.start_hand as u8,
            draw_count: replay.body.draw_count as u8,
            time_limit: 0,
        }),
{
    let mut host_info = replay.host_info();
    host_info.time_limit = 0;
    host_info
}

/// A request to join the room with this server's protocol version, no room id and no
/// password.
pub open spec fn is_plain_join(m: ctos::JoinGame) -> bool {
    m.version == PRO_VERSION && m.gameid == 0 && m.pass@ == Seq::new(20, |i: int| 0u16)
}

fn plain_join() -> (r: ctos::JoinGame)
    ensures
        is_plain_join(r),
{
    let r = ctos::JoinGame { version: PRO_VERSION, gameid: 0, pass: [0u16; 20] };
    assert(r.pass@ =~= Seq::new(20, |i: int| 0u16));
    r
}

/// Whether `step` sends `deck` built from the recorded deck `recorded` for `player`.
pub open spec fn sends_deck(step: Step, player: PlayerIndex, recorded: ReplayDeck) -> bool {
    step matches Step::Send(p, Command::UpdateDeck(d)) && p == player && d.main@ == recorded.main@.reverse()
        + recorded.extra@.reverse() && d.side@.len() == 0 && d.extra@.len() == 0
}

/// The script that starts a replayed duel: both duelists join with the recorded names
/// (the first, then, after a pause, the second), hand in the recorded decks and get
/// ready; the first starts the duel; the first plays paper and the second rock, and
/// the first, who wins, goes first. After each stage the script waits for the server's
/// answer.
pub fn start_game_script(replay: &Replay) -> (r: Vec<Step>)
    ensures
        r@.len() == 19,
        r@[0] matches Step::Send(PlayerIndex::Player1, Command::PlayerInfo(n)) && n@ == name_text(replay.body.host_name@),
        r@[1] matches Step::Send(PlayerIndex::Player1, Command::JoinGame(j)) && is_plain_join(j),
        r@[2] == Step::WaitFor(PlayerIndex::Player1, stoc::MessageType::TypeChange),
        r@[3] is Pause,
        r@[4] matches Step::Send(PlayerIndex::Player2, Command::PlayerInfo(n)) && n@ == name_text(replay.body.client_name@),
        r@[5] matches Step::Send(PlayerIndex::Player2, Command::JoinGame(j)) && is_plain_join(j),
        r@[6] == Step::WaitFor(PlayerIndex::Player2, stoc::MessageType::TypeChange),
        r@[7] == Step::WaitFor(PlayerIndex::Player1, stoc::MessageType::HsPlayerEnter),
        sends_deck(r@[8], PlayerIndex::Player1, replay.body.host_deck),
        r@[9] matches Step::Send(PlayerIndex::Player1, Command::HsReady),
        sends_deck(r@[10], PlayerIndex::Player2, replay.body.client_deck),
        r@[11] matches Step::Send(PlayerIndex::Player2, Command::HsReady),
        r@[12] == Step::WaitFor(PlayerIndex::Player2, stoc::MessageType::HsPlayerChange),
        r@[13] matches Step::Send(PlayerIndex::Player1, Command::HsStart),
        r@[14] == Step::WaitFor(PlayerIndex::Player1, stoc::MessageType::SelectHand),
        r@[15] matches Step::Send(PlayerIndex::Player1, Command::HandResult(h)) && h.res == Hand::Paper,
        r@[16] matches Step::Send(PlayerIndex::Player2, Command::HandResult(h)) && h.res == Hand::Rock,
        r@[17] == Step::WaitFor(PlayerIndex::Player1, stoc::MessageType::SelectTp),
        r@[18] matches Step::Send(PlayerIndex::Player1, Command::TpResult(t)) && t.result == CorePlayer::FirstAttackPlayer,
{
    let mut r: Vec<Step> = Vec::new();
    r.push(Step::Send(PlayerIndex::Player1, Command::PlayerInfo(display_name(&replay.body.host_name))));
    r.push(Step::Send(PlayerIndex::Player1, Command::JoinGame(plain_join())));
    r.push(Step::WaitFor(PlayerIndex::Player1, stoc::MessageType::TypeChange));
    r.push(Step::Pause);
    r.push(Step::Send(PlayerIndex::Player2, Command::PlayerInfo(display_name(&replay.body.client_name))));
    r.push(Step::Send(PlayerIndex::Player2, Command::JoinGame(plain_join())));
    r.push(Step::WaitFor(PlayerIndex::Player2, stoc::MessageType::TypeChange));
    r.push(Step::WaitFor(PlayerIndex::Player1, stoc::MessageType::HsPlayerEnter));
    r.push(Step::Send(PlayerIndex::Player1, Command::UpdateDeck(build_deck(&replay.body.host_deck))));
    r.push(Step::Send(PlayerIndex::Player1, Command::HsReady));
    r.push(Step::Send(PlayerIndex::Player2, Command::UpdateDeck(build_deck(&replay.body.client_deck))));
    r.push(Step::Send(PlayerIndex::Player2, Command::HsReady));
    r.push(Step::WaitFor(PlayerIndex::Player2, stoc::MessageType::HsPlayerChange));
    r.push(Step::Send(PlayerIndex::Player1, Command::HsStart));
    r.push(Step::WaitFor(PlayerIndex::Player1, stoc::MessageType::SelectHand));
    r.push(Step::Send(PlayerIndex::Player1, Command::HandResult(ctos::HandResult { res: Hand::Paper })));
    r.push(Step::Send(PlayerIndex::Player2, Command::HandResult(ctos::HandResult { res: Hand::Rock })));
    r.push(Step::WaitFor(PlayerIndex::Player1, stoc::MessageType::SelectTp));
    r.push(Step::Send(PlayerIndex::Player1, Command::TpResult(ctos::TpResult { result: CorePlayer::FirstAttackPlayer })));
    r
}

/// The seeds a replayed duel is seeded with: those of the replay's header.
pub fn replay_seed(replay: &Replay) -> (r: [u32; SEED_COUNT])
    ensures
        r@ == replay.header.seed_sequence@,
{
    replay.header.seed_sequence
}

} // verus!
