//! Validating a replay by playing its answers back against the server: what each message
//! the server sends means for the validation, and the verdict.
use vstd::prelude::*;

use crate::constants::CorePlayer;
use crate::replay_body::{Replay, DUEL_OPTION_TAG_MODE};
use crate::single_duel::Seat;

verus! {

/// Why a replay failed validation.
#[derive(Clone, Copy, Debug, PartialEq, Eq, Structural)]
pub enum ValidationError {
    /// The replay file could not be read.
    Io,
    /// The replay file could not be parsed.
    Parse,
    /// Tag duel replays are not supported yet.
    TagReplayNotSupported,
    /// The replay holds no answer.
    EmptyReplay,
    /// The engine asked again: an answer did not fit, the replay went out of step.
    Retry,
    /// Answers were left once the duel ended.
    LeftoverResponses(usize),
    /// The server refused the session.
    ServerRejected,
    /// The duel ended without a winner.
    NoWin,
    /// The session ended before the duel finished.
    DuelDidNotEnd,
    /// The validation took too long.
    Timeout,
}

/// The result of a validation that passed.
#[derive(Clone, Copy, Debug, PartialEq, Eq, Structural)]
pub struct ValidationSummary {
    /// The number of answers the replay holds.
    pub response_count: usize,
    /// The seat of the winner, if the duel had one.
    pub winner: Option<Seat>,
    /// Whether the answers ran out before the duel ended.
    pub replayed_to_end: bool,
}

/// What the server told a duelist, as far as the validation cares.
#[derive(Clone, Copy, Debug, PartialEq, Eq, Structural)]
pub enum ServerEvent {
    /// A game message announcing the winner.
    Win(CorePlayer),
    /// A game message asking to answer again.
    Retry,
    /// A game message that waits for an answer.
    Prompt,
    /// Any other game message.
    OtherGameMessage,
    DuelEnd,
    ErrorMessage,
    /// Any other message.
    Other,
}

/// What the validation does next.
#[derive(Clone, Copy, Debug, PartialEq, Eq, Structural)]
pub enum Outcome {
    Continue,
    /// Send the next answer of the replay, then continue.
    SendNext,
    DuelEnded,
    ReplayEnded,
}

/// The progress of a validation.
#[derive(Clone, Copy, Debug, PartialEq, Eq, Structural)]
pub struct Validation {
    pub response_count: usize,
    /// The number of answers sent so far.
    pub sent: usize,
    pub saw_win: bool,
    pub winner: Option<Seat>,
    pub replayed_to_end: bool,
}

/// The seat of the engine's winner: the first seat for the first attacker, the second
/// for the second attacker, none otherwise.
pub open spec fn winner_seat(winner: CorePlayer) -> Option<Seat> {
    match winner {
        CorePlayer::FirstAttackPlayer => Some(Seat::Player(0)),
        CorePlayer::SecondAttackPlayer => Some(Seat::Player(1)),
        _ => None,
    }
}

impl Validation {
    /// Start validating a replay with `response_count` answers: a tag duel replay and one
    /// with no answer are refused.
    pub fn start(is_tag: bool, response_count: usize) -> (r: Result<Validation, ValidationError>)
        ensures
            is_tag ==> r == Err::<Validation, ValidationError>(ValidationError::TagReplayNotSupported),
            !is_tag && response_count == 0 ==> r == Err::<Validation, ValidationError>(ValidationError::EmptyReplay),
            !is_tag && response_count > 0 ==> r == Ok::<Validation, ValidationError>(
                Validation { response_count, sent: 0, saw_win: false, winner: None, replayed_to_end: false },
            ),
    {
        if is_tag {
            return Err(ValidationError::TagReplayNotSupported);
        }
        if response_count == 0 {
            return Err(ValidationError::EmptyReplay);
        }
        Ok(Validation { response_count, sent: 0, saw_win: false, winner: None, replayed_to_end: false })
    }

    /// Start validating a replay: its answers are its records; a tag duel is refused, and
    /// so is a replay with no record.
    pub fn of_replay(replay: &Replay) -> (r: Result<Validation, ValidationError>)
        ensures
            replay.body.duel_options & DUEL_OPTION_TAG_MODE != 0 ==> r == Err::<Validation, ValidationError>(
                ValidationError::TagReplayNotSupported,
            ),
            replay.body.duel_options & DUEL_OPTION_TAG_MODE == 0 && replay.body.datas@.len() == 0 ==> r
                == Err::<Validation, ValidationError>(ValidationError::EmptyReplay),
            replay.body.duel_options & DUEL_OPTION_TAG_MODE == 0 && replay.body.datas@.len() > 0 ==> r
                == Ok::<Validation, ValidationError>(
                Validation {
                    response_count: replay.body.datas@.len() as usize,
                    sent: 0,
                    saw_win: false,
                    winner: None,
                    replayed_to_end: false,
                },
            ),
    {
        Validation::start(replay.is_tag(), replay.body.datas.len())
    }

    /// The answers sent never outnumber the answers.
    pub open spec fn wf(self) -> bool {
        self.sent <= self.response_count
    }

    /// A message reached a duelist: a win is recorded with its winner; a request to
    /// answer again fails the validation; a prompt takes the next answer, or ends the replay
    /// when none is left; the end of the duel ends the validation; an error message from
    /// the server fails it; anything else changes nothing.
    pub fn on_message(&mut self, event: ServerEvent) -> (r: Result<Outcome, ValidationError>)
        requires
            old(self).wf(),
        ensures
            final(self).wf(),
            final(self).response_count == old(self).response_count,
            match event {
                ServerEvent::Win(w) => r == Ok::<Outcome, ValidationError>(Outcome::Continue)
                    && *final(self) == (Validation { saw_win: true, winner: winner_seat(w), ..*old(self) }),
                ServerEvent::Retry => r == Err::<Outcome, ValidationError>(ValidationError::Retry)
                    && *final(self) == *old(self),
                ServerEvent::Prompt => if old(self).sent < old(self).response_count {
                    r == Ok::<Outcome, ValidationError>(Outcome::SendNext)
                        && *final(self) == (Validation { sent: (old(self).sent + 1) as usize, ..*old(self) })
                } else {
                    r == Ok::<Outcome, ValidationError>(Outcome::ReplayEnded)
                        && *final(self) == (Validation { replayed_to_end: true, ..*old(self) })
                },
                ServerEvent::DuelEnd => r == Ok::<Outcome, ValidationError>(Outcome::DuelEnded)
                    && *final(self) == *old(self),
                ServerEvent::ErrorMessage => r == Err::<Outcome, ValidationError>(ValidationError::ServerRejected)
                    && *final(self) == *old(self),
                _ => r == Ok::<Outcome, ValidationError>(Outcome::Continue) && *final(self) == *old(self),
            },
    {
        match event {
            ServerEvent::Win(w) => {
                self.saw_win = true;
                self.winner = match w {
                    CorePlayer::FirstAttackPlayer => Some(Seat::Player(0)),
                    CorePlayer::SecondAttackPlayer => Some(Seat::Player(1)),
                    _ => None,
                };
                Ok(Outcome::Continue)
            },
            ServerEvent::Retry => Err(ValidationError::Retry),
            ServerEvent::Prompt => {
                if self.sent < self.response_count {
                    self.sent = self.sent + 1;
                    Ok(Outcome::SendNext)
                } else {
                    self.replayed_to_end = true;
                    Ok(Outcome::ReplayEnded)
                }
            },
            ServerEvent::DuelEnd => Ok(Outcome::DuelEnded),
            ServerEvent::ErrorMessage => Err(ValidationError::ServerRejected),
            _ => Ok(Outcome::Continue),
        }
    }

    /// The verdict once the messages stopped: without a win and with answers left
    /// unsent, the duel had no winner; answers left unsent fail the validation; otherwise it
    /// passes.
    pub fn finish(&self) -> (r: Result<ValidationSummary, ValidationError>)
        requires
            self.wf(),
        ensures
            !self.saw_win && !self.replayed_to_end ==> r == Err::<ValidationSummary, ValidationError>(ValidationError::NoWin),
            (self.saw_win || self.replayed_to_end) && self.sent < self.response_count ==> r == Err::<
                ValidationSummary,
                ValidationError,
            >(ValidationError::LeftoverResponses((self.response_count - self.sent) as usize)),
            (self.saw_win || self.replayed_to_end) && self.sent == self.response_count ==> r == Ok::<
                ValidationSummary,
                ValidationError,
            >(
                ValidationSummary {
                    response_count: self.response_count,
                    winner: self.winner,
                    replayed_to_end: self.replayed_to_end,
                },
            ),
    {
        if !self.saw_win && !self.replayed_to_end {
            return Err(ValidationError::NoWin);
        }
        if self.sent < self.response_count {
            return Err(ValidationError::LeftoverResponses(self.response_count - self.sent));
        }
        Ok(
            ValidationSummary {
                response_count: self.response_count,
                winner: self.winner,
                replayed_to_end: self.replayed_to_end,
            },
        )
    }
}

} // verus!
