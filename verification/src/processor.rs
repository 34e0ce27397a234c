//! Looking up the handlers of a message: the key of each message is its flag byte, and
//! the handlers registered for a key run in the order of their priority.
use vstd::prelude::*;

use crate::message::{ctos, gm, stoc};
use vstd::seq_lib::group_to_multiset_ensures;
use crate::text::{chars_eq, chars_of};

verus! {

/// The key by which the handlers of a message are looked up.
pub trait MessageKey<Key> {
    /// The key of this message.
    spec fn spec_message_key(&self) -> Key;

    /// The key of this message.
    fn message_key(&self) -> (r: Key)
        ensures
            r == self.spec_message_key(),
    ;
}

impl MessageKey<u8> for u8 {
    /// A flag byte is its own key.
    open spec fn spec_message_key(&self) -> u8 {
        *self
    }

    fn message_key(&self) -> (r: u8) {
        *self
    }
}

impl MessageKey<u8> for ctos::MessageType {
    /// A message type is keyed by its flag byte.
    open spec fn spec_message_key(&self) -> u8 {
        self.code()
    }

    fn message_key(&self) -> (r: u8) {
        self.to_u8()
    }
}

impl MessageKey<u8> for stoc::MessageType {
    /// A message type is keyed by its flag byte.
    open spec fn spec_message_key(&self) -> u8 {
        self.code()
    }

    fn message_key(&self) -> (r: u8) {
        self.to_u8()
    }
}

impl MessageKey<u8> for gm::MessageType {
    /// A message type is keyed by its flag byte.
    open spec fn spec_message_key(&self) -> u8 {
        self.code()
    }

    fn message_key(&self) -> (r: u8) {
        self.to_u8()
    }
}

impl MessageKey<u8> for ctos::Message {
    /// A message is keyed by the flag byte of its type.
    open spec fn spec_message_key(&self) -> u8 {
        self.kind().code()
    }

    fn message_key(&self) -> (r: u8) {
        self.message_type().to_u8()
    }
}

impl MessageKey<u8> for ctos::HandResult {
    /// The flag byte of `HandResult`.
    open spec fn spec_message_key(&self) -> u8 {
        ctos::MessageType::HandResult.code()
    }

    fn message_key(&self) -> (r: u8) {
        ctos::MessageType::HandResult.to_u8()
    }
}

impl MessageKey<u8> for ctos::TpResult {
    /// The flag byte of `TpResult`.
    open spec fn spec_message_key(&self) -> u8 {
        ctos::MessageType::TpResult.code()
    }

    fn message_key(&self) -> (r: u8) {
        ctos::MessageType::TpResult.to_u8()
    }
}

impl MessageKey<u8> for ctos::LeaveGame {
    /// The flag byte of `LeaveGame`.
    open spec fn spec_message_key(&self) -> u8 {
        ctos::MessageType::LeaveGame.code()
    }

    fn message_key(&self) -> (r: u8) {
        ctos::MessageType::LeaveGame.to_u8()
    }
}

impl MessageKey<u8> for ctos::Surrender {
    /// The flag byte of `Surrender`.
    open spec fn spec_message_key(&self) -> u8 {
        ctos::MessageType::Surrender.code()
    }

    fn message_key(&self) -> (r: u8) {
        ctos::MessageType::Surrender.to_u8()
    }
}

impl MessageKey<u8> for ctos::TimeConfirm {
    /// The flag byte of `TimeConfirm`.
    open spec fn spec_message_key(&self) -> u8 {
        ctos::MessageType::TimeConfirm.code()
    }

    fn message_key(&self) -> (r: u8) {
        ctos::MessageType::TimeConfirm.to_u8()
    }
}

impl MessageKey<u8> for ctos::HsToDuelist {
    /// The flag byte of `HsToDuelist`.
    open spec fn spec_message_key(&self) -> u8 {
        ctos::MessageType::HsToDuelist.code()
    }

    fn message_key(&self) -> (r: u8) {
        ctos::MessageType::HsToDuelist.to_u8()
    }
}

impl MessageKey<u8> for ctos::HsToObserver {
    /// The flag byte of `HsToObserver`.
    open spec fn spec_message_key(&self) -> u8 {
        ctos::MessageType::HsToObserver.code()
    }

    fn message_key(&self) -> (r: u8) {
        ctos::MessageType::HsToObserver.to_u8()
    }
}

impl MessageKey<u8> for ctos::HsReady {
    /// The flag byte of `HsReady`.
    open spec fn spec_message_key(&self) -> u8 {
        ctos::MessageType::HsReady.code()
    }

    fn message_key(&self) -> (r: u8) {
        ctos::MessageType::HsReady.to_u8()
    }
}

impl MessageKey<u8> for ctos::HsNotReady {
    /// The flag byte of `HsNotReady`.
    open spec fn spec_message_key(&self) -> u8 {
        ctos::MessageType::HsNotReady.code()
    }

    fn message_key(&self) -> (r: u8) {
        ctos::MessageType::HsNotReady.to_u8()
    }
}

impl MessageKey<u8> for ctos::HsKick {
    /// The flag byte of `HsKick`.
    open spec fn spec_message_key(&self) -> u8 {
        ctos::MessageType::HsKick.code()
    }

    fn message_key(&self) -> (r: u8) {
        ctos::MessageType::HsKick.to_u8()
    }
}

impl MessageKey<u8> for ctos::JoinGame {
    /// The flag byte of `JoinGame`.
    open spec fn spec_message_key(&self) -> u8 {
        ctos::MessageType::JoinGame.code()
    }

    fn message_key(&self) -> (r: u8) {
        ctos::MessageType::JoinGame.to_u8()
    }
}

impl MessageKey<u8> for ctos::HsStart {
    /// The flag byte of `HsStart`.
    open spec fn spec_message_key(&self) -> u8 {
        ctos::MessageType::HsStart.code()
    }

    fn message_key(&self) -> (r: u8) {
        ctos::MessageType::HsStart.to_u8()
    }
}

impl MessageKey<u8> for ctos::RequestField {
    /// The flag byte of `RequestField`.
    open spec fn spec_message_key(&self) -> u8 {
        ctos::MessageType::RequestField.code()
    }

    fn message_key(&self) -> (r: u8) {
        ctos::MessageType::RequestField.to_u8()
    }
}

impl MessageKey<u8> for stoc::GameMessage {
    /// The flag byte of `GameMessage`.
    open spec fn spec_message_key(&self) -> u8 {
        stoc::MessageType::GameMessage.code()
    }

    fn message_key(&self) -> (r: u8) {
        stoc::MessageType::GameMessage.to_u8()
    }
}

impl MessageKey<u8> for stoc::JoinGame {
    /// The flag byte of `JoinGame`.
    open spec fn spec_message_key(&self) -> u8 {
        stoc::MessageType::JoinGame.code()
    }

    fn message_key(&self) -> (r: u8) {
        stoc::MessageType::JoinGame.to_u8()
    }
}

impl MessageKey<u8> for stoc::ErrorMessage {
    /// The flag byte of `ErrorMessage`.
    open spec fn spec_message_key(&self) -> u8 {
        stoc::MessageType::ErrorMessage.code()
    }

    fn message_key(&self) -> (r: u8) {
        stoc::MessageType::ErrorMessage.to_u8()
    }
}

impl MessageKey<u8> for stoc::SelectHand {
    /// The flag byte of `SelectHand`.
    open spec fn spec_message_key(&self) -> u8 {
        stoc::MessageType::SelectHand.code()
    }

    fn message_key(&self) -> (r: u8) {
        stoc::MessageType::SelectHand.to_u8()
    }
}

impl MessageKey<u8> for stoc::SelectTp {
    /// The flag byte of `SelectTp`.
    open spec fn spec_message_key(&self) -> u8 {
        stoc::MessageType::SelectTp.code()
    }

    fn message_key(&self) -> (r: u8) {
        stoc::MessageType::SelectTp.to_u8()
    }
}

impl MessageKey<u8> for stoc::HandResult {
    /// The flag byte of `HandResult`.
    open spec fn spec_message_key(&self) -> u8 {
        stoc::MessageType::HandResult.code()
    }

    fn message_key(&self) -> (r: u8) {
        stoc::MessageType::HandResult.to_u8()
    }
}

impl MessageKey<u8> for stoc::TpResult {
    /// The flag byte of `TpResult`.
    open spec fn spec_message_key(&self) -> u8 {
        stoc::MessageType::TpResult.code()
    }

    fn message_key(&self) -> (r: u8) {
        stoc::MessageType::TpResult.to_u8()
    }
}

impl MessageKey<u8> for stoc::ChangeSide {
    /// The flag byte of `ChangeSide`.
    open spec fn spec_message_key(&self) -> u8 {
        stoc::MessageType::ChangeSide.code()
    }

    fn message_key(&self) -> (r: u8) {
        stoc::MessageType::ChangeSide.to_u8()
    }
}

impl MessageKey<u8> for stoc::WaitingSide {
    /// The flag byte of `WaitingSide`.
    open spec fn spec_message_key(&self) -> u8 {
        stoc::MessageType::WaitingSide.code()
    }

    fn message_key(&self) -> (r: u8) {
        stoc::MessageType::WaitingSide.to_u8()
    }
}

impl MessageKey<u8> for stoc::DeckCount {
    /// The flag byte of `DeckCount`.
    open spec fn spec_message_key(&self) -> u8 {
        stoc::MessageType::DeckCount.code()
    }

    fn message_key(&self) -> (r: u8) {
        stoc::MessageType::DeckCount.to_u8()
    }
}

impl MessageKey<u8> for stoc::CreateGame {
    /// The flag byte of `CreateGame`.
    open spec fn spec_message_key(&self) -> u8 {
        stoc::MessageType::CreateGame.code()
    }

    fn message_key(&self) -> (r: u8) {
        stoc::MessageType::CreateGame.to_u8()
    }
}

impl MessageKey<u8> for stoc::TypeChange {
    /// The flag byte of `TypeChange`.
    open spec fn spec_message_key(&self) -> u8 {
        stoc::MessageType::TypeChange.code()
    }

    fn message_key(&self) -> (r: u8) {
        stoc::MessageType::TypeChange.to_u8()
    }
}

impl MessageKey<u8> for stoc::LeaveGame {
    /// The flag byte of `LeaveGame`.
    open spec fn spec_message_key(&self) -> u8 {
        stoc::MessageType::LeaveGame.code()
    }

    fn message_key(&self) -> (r: u8) {
        stoc::MessageType::LeaveGame.to_u8()
    }
}

impl MessageKey<u8> for stoc::DuelStart {
    /// The flag byte of `DuelStart`.
    open spec fn spec_message_key(&self) -> u8 {
        stoc::MessageType::DuelStart.code()
    }

    fn message_key(&self) -> (r: u8) {
        stoc::MessageType::DuelStart.to_u8()
    }
}

impl MessageKey<u8> for stoc::DuelEnd {
    /// The flag byte of `DuelEnd`.
    open spec fn spec_message_key(&self) -> u8 {
        stoc::MessageType::DuelEnd.code()
    }

    fn message_key(&self) -> (r: u8) {
        stoc::MessageType::DuelEnd.to_u8()
    }
}

impl MessageKey<u8> for stoc::TimeLimit {
    /// The flag byte of `TimeLimit`.
    open spec fn spec_message_key(&self) -> u8 {
        stoc::MessageType::TimeLimit.code()
    }

    fn message_key(&self) -> (r: u8) {
        stoc::MessageType::TimeLimit.to_u8()
    }
}

impl MessageKey<u8> for stoc::HsPlayerChange {
    /// The flag byte of `HsPlayerChange`.
    open spec fn spec_message_key(&self) -> u8 {
        stoc::MessageType::HsPlayerChange.code()
    }

    fn message_key(&self) -> (r: u8) {
        stoc::MessageType::HsPlayerChange.to_u8()
    }
}

impl MessageKey<u8> for stoc::HsWatchChange {
    /// The flag byte of `HsWatchChange`.
    open spec fn spec_message_key(&self) -> u8 {
        stoc::MessageType::HsWatchChange.code()
    }

    fn message_key(&self) -> (r: u8) {
        stoc::MessageType::HsWatchChange.to_u8()
    }
}

impl MessageKey<u8> for stoc::FieldFinish {
    /// The flag byte of `FieldFinish`.
    open spec fn spec_message_key(&self) -> u8 {
        stoc::MessageType::FieldFinish.code()
    }

    fn message_key(&self) -> (r: u8) {
        stoc::MessageType::FieldFinish.to_u8()
    }
}

impl MessageKey<u8> for gm::Retry {
    /// The flag byte of `Retry`.
    open spec fn spec_message_key(&self) -> u8 {
        gm::MessageType::Retry.code()
    }

    fn message_key(&self) -> (r: u8) {
        gm::MessageType::Retry.to_u8()
    }
}

impl MessageKey<u8> for gm::Hint {
    /// The flag byte of `Hint`.
    open spec fn spec_message_key(&self) -> u8 {
        gm::MessageType::Hint.code()
    }

    fn message_key(&self) -> (r: u8) {
        gm::MessageType::Hint.to_u8()
    }
}

impl MessageKey<u8> for gm::Waiting {
    /// The flag byte of `Waiting`.
    open spec fn spec_message_key(&self) -> u8 {
        gm::MessageType::Waiting.code()
    }

    fn message_key(&self) -> (r: u8) {
        gm::MessageType::Waiting.to_u8()
    }
}

impl MessageKey<u8> for gm::Start {
    /// The flag byte of `Start`.
    open spec fn spec_message_key(&self) -> u8 {
        gm::MessageType::Start.code()
    }

    fn message_key(&self) -> (r: u8) {
        gm::MessageType::Start.to_u8()
    }
}

impl MessageKey<u8> for gm::Win {
    /// The flag byte of `Win`.
    open spec fn spec_message_key(&self) -> u8 {
        gm::MessageType::Win.code()
    }

    fn message_key(&self) -> (r: u8) {
        gm::MessageType::Win.to_u8()
    }
}

impl MessageKey<u8> for gm::RequestDeck {
    /// The flag byte of `RequestDeck`.
    open spec fn spec_message_key(&self) -> u8 {
        gm::MessageType::RequestDeck.code()
    }

    fn message_key(&self) -> (r: u8) {
        gm::MessageType::RequestDeck.to_u8()
    }
}

impl MessageKey<u8> for gm::SelectYesNo {
    /// The flag byte of `SelectYesNo`.
    open spec fn spec_message_key(&self) -> u8 {
        gm::MessageType::SelectYesNo.code()
    }

    fn message_key(&self) -> (r: u8) {
        gm::MessageType::SelectYesNo.to_u8()
    }
}

impl MessageKey<u8> for gm::SelectPlace {
    /// The flag byte of `SelectPlace`.
    open spec fn spec_message_key(&self) -> u8 {
        gm::MessageType::SelectPlace.code()
    }

    fn message_key(&self) -> (r: u8) {
        gm::MessageType::SelectPlace.to_u8()
    }
}

impl MessageKey<u8> for gm::SelectPosition {
    /// The flag byte of `SelectPosition`.
    open spec fn spec_message_key(&self) -> u8 {
        gm::MessageType::SelectPosition.code()
    }

    fn message_key(&self) -> (r: u8) {
        gm::MessageType::SelectPosition.to_u8()
    }
}

impl MessageKey<u8> for gm::SortChain {
    /// The flag byte of `SortChain`.
    open spec fn spec_message_key(&self) -> u8 {
        gm::MessageType::SortChain.code()
    }

    fn message_key(&self) -> (r: u8) {
        gm::MessageType::SortChain.to_u8()
    }
}

impl MessageKey<u8> for gm::SelectDisableField {
    /// The flag byte of `SelectDisableField`.
    open spec fn spec_message_key(&self) -> u8 {
        gm::MessageType::SelectDisableField.code()
    }

    fn message_key(&self) -> (r: u8) {
        gm::MessageType::SelectDisableField.to_u8()
    }
}

impl MessageKey<u8> for gm::ShuffleDeck {
    /// The flag byte of `ShuffleDeck`.
    open spec fn spec_message_key(&self) -> u8 {
        gm::MessageType::ShuffleDeck.code()
    }

    fn message_key(&self) -> (r: u8) {
        gm::MessageType::ShuffleDeck.to_u8()
    }
}

impl MessageKey<u8> for gm::RefreshDeck {
    /// The flag byte of `RefreshDeck`.
    open spec fn spec_message_key(&self) -> u8 {
        gm::MessageType::RefreshDeck.code()
    }

    fn message_key(&self) -> (r: u8) {
        gm::MessageType::RefreshDeck.to_u8()
    }
}

impl MessageKey<u8> for gm::SwapGraveDeck {
    /// The flag byte of `SwapGraveDeck`.
    open spec fn spec_message_key(&self) -> u8 {
        gm::MessageType::SwapGraveDeck.code()
    }

    fn message_key(&self) -> (r: u8) {
        gm::MessageType::SwapGraveDeck.to_u8()
    }
}

impl MessageKey<u8> for gm::ReverseDeck {
    /// The flag byte of `ReverseDeck`.
    open spec fn spec_message_key(&self) -> u8 {
        gm::MessageType::ReverseDeck.code()
    }

    fn message_key(&self) -> (r: u8) {
        gm::MessageType::ReverseDeck.to_u8()
    }
}

impl MessageKey<u8> for gm::DeckTop {
    /// The flag byte of `DeckTop`.
    open spec fn spec_message_key(&self) -> u8 {
        gm::MessageType::DeckTop.code()
    }

    fn message_key(&self) -> (r: u8) {
        gm::MessageType::DeckTop.to_u8()
    }
}

impl MessageKey<u8> for gm::NewTurn {
    /// The flag byte of `NewTurn`.
    open spec fn spec_message_key(&self) -> u8 {
        gm::MessageType::NewTurn.code()
    }

    fn message_key(&self) -> (r: u8) {
        gm::MessageType::NewTurn.to_u8()
    }
}

impl MessageKey<u8> for gm::NewPhase {
    /// The flag byte of `NewPhase`.
    open spec fn spec_message_key(&self) -> u8 {
        gm::MessageType::NewPhase.code()
    }

    fn message_key(&self) -> (r: u8) {
        gm::MessageType::NewPhase.to_u8()
    }
}

impl MessageKey<u8> for gm::PositionChange {
    /// The flag byte of `PositionChange`.
    open spec fn spec_message_key(&self) -> u8 {
        gm::MessageType::PositionChange.code()
    }

    fn message_key(&self) -> (r: u8) {
        gm::MessageType::PositionChange.to_u8()
    }
}

impl MessageKey<u8> for gm::FieldDisabled {
    /// The flag byte of `FieldDisabled`.
    open spec fn spec_message_key(&self) -> u8 {
        gm::MessageType::FieldDisabled.code()
    }

    fn message_key(&self) -> (r: u8) {
        gm::MessageType::FieldDisabled.to_u8()
    }
}

impl MessageKey<u8> for gm::Summoned {
    /// The flag byte of `Summoned`.
    open spec fn spec_message_key(&self) -> u8 {
        gm::MessageType::Summoned.code()
    }

    fn message_key(&self) -> (r: u8) {
        gm::MessageType::Summoned.to_u8()
    }
}

impl MessageKey<u8> for gm::SpecialSummoned {
    /// The flag byte of `SpecialSummoned`.
    open spec fn spec_message_key(&self) -> u8 {
        gm::MessageType::SpecialSummoned.code()
    }

    fn message_key(&self) -> (r: u8) {
        gm::MessageType::SpecialSummoned.to_u8()
    }
}

impl MessageKey<u8> for gm::FlipSummoned {
    /// The flag byte of `FlipSummoned`.
    open spec fn spec_message_key(&self) -> u8 {
        gm::MessageType::FlipSummoned.code()
    }

    fn message_key(&self) -> (r: u8) {
        gm::MessageType::FlipSummoned.to_u8()
    }
}

impl MessageKey<u8> for gm::Chained {
    /// The flag byte of `Chained`.
    open spec fn spec_message_key(&self) -> u8 {
        gm::MessageType::Chained.code()
    }

    fn message_key(&self) -> (r: u8) {
        gm::MessageType::Chained.to_u8()
    }
}

impl MessageKey<u8> for gm::ChainSolving {
    /// The flag byte of `ChainSolving`.
    open spec fn spec_message_key(&self) -> u8 {
        gm::MessageType::ChainSolving.code()
    }

    fn message_key(&self) -> (r: u8) {
        gm::MessageType::ChainSolving.to_u8()
    }
}

impl MessageKey<u8> for gm::ChainSolved {
    /// The flag byte of `ChainSolved`.
    open spec fn spec_message_key(&self) -> u8 {
        gm::MessageType::ChainSolved.code()
    }

    fn message_key(&self) -> (r: u8) {
        gm::MessageType::ChainSolved.to_u8()
    }
}

impl MessageKey<u8> for gm::ChainEnd {
    /// The flag byte of `ChainEnd`.
    open spec fn spec_message_key(&self) -> u8 {
        gm::MessageType::ChainEnd.code()
    }

    fn message_key(&self) -> (r: u8) {
        gm::MessageType::ChainEnd.to_u8()
    }
}

impl MessageKey<u8> for gm::ChainNegated {
    /// The flag byte of `ChainNegated`.
    open spec fn spec_message_key(&self) -> u8 {
        gm::MessageType::ChainNegated.code()
    }

    fn message_key(&self) -> (r: u8) {
        gm::MessageType::ChainNegated.to_u8()
    }
}

impl MessageKey<u8> for gm::ChainDisabled {
    /// The flag byte of `ChainDisabled`.
    open spec fn spec_message_key(&self) -> u8 {
        gm::MessageType::ChainDisabled.code()
    }

    fn message_key(&self) -> (r: u8) {
        gm::MessageType::ChainDisabled.to_u8()
    }
}

impl MessageKey<u8> for gm::CardSelected {
    /// The flag byte of `CardSelected`.
    open spec fn spec_message_key(&self) -> u8 {
        gm::MessageType::CardSelected.code()
    }

    fn message_key(&self) -> (r: u8) {
        gm::MessageType::CardSelected.to_u8()
    }
}

impl MessageKey<u8> for gm::Damage {
    /// The flag byte of `Damage`.
    open spec fn spec_message_key(&self) -> u8 {
        gm::MessageType::Damage.code()
    }

    fn message_key(&self) -> (r: u8) {
        gm::MessageType::Damage.to_u8()
    }
}

impl MessageKey<u8> for gm::Recover {
    /// The flag byte of `Recover`.
    open spec fn spec_message_key(&self) -> u8 {
        gm::MessageType::Recover.code()
    }

    fn message_key(&self) -> (r: u8) {
        gm::MessageType::Recover.to_u8()
    }
}

impl MessageKey<u8> for gm::LPUpdate {
    /// The flag byte of `LPUpdate`.
    open spec fn spec_message_key(&self) -> u8 {
        gm::MessageType::LPUpdate.code()
    }

    fn message_key(&self) -> (r: u8) {
        gm::MessageType::LPUpdate.to_u8()
    }
}

impl MessageKey<u8> for gm::PayLPCost {
    /// The flag byte of `PayLPCost`.
    open spec fn spec_message_key(&self) -> u8 {
        gm::MessageType::PayLPCost.code()
    }

    fn message_key(&self) -> (r: u8) {
        gm::MessageType::PayLPCost.to_u8()
    }
}

impl MessageKey<u8> for gm::AttackDisabled {
    /// The flag byte of `AttackDisabled`.
    open spec fn spec_message_key(&self) -> u8 {
        gm::MessageType::AttackDisabled.code()
    }

    fn message_key(&self) -> (r: u8) {
        gm::MessageType::AttackDisabled.to_u8()
    }
}

impl MessageKey<u8> for gm::DamageStepStart {
    /// The flag byte of `DamageStepStart`.
    open spec fn spec_message_key(&self) -> u8 {
        gm::MessageType::DamageStepStart.code()
    }

    fn message_key(&self) -> (r: u8) {
        gm::MessageType::DamageStepStart.to_u8()
    }
}

impl MessageKey<u8> for gm::DamageStepEnd {
    /// The flag byte of `DamageStepEnd`.
    open spec fn spec_message_key(&self) -> u8 {
        gm::MessageType::DamageStepEnd.code()
    }

    fn message_key(&self) -> (r: u8) {
        gm::MessageType::DamageStepEnd.to_u8()
    }
}

impl MessageKey<u8> for gm::MissedEffect {
    /// The flag byte of `MissedEffect`.
    open spec fn spec_message_key(&self) -> u8 {
        gm::MessageType::MissedEffect.code()
    }

    fn message_key(&self) -> (r: u8) {
        gm::MessageType::MissedEffect.to_u8()
    }
}

impl MessageKey<u8> for gm::BeChainTarget {
    /// The flag byte of `BeChainTarget`.
    open spec fn spec_message_key(&self) -> u8 {
        gm::MessageType::BeChainTarget.code()
    }

    fn message_key(&self) -> (r: u8) {
        gm::MessageType::BeChainTarget.to_u8()
    }
}

impl MessageKey<u8> for gm::CreateRelation {
    /// The flag byte of `CreateRelation`.
    open spec fn spec_message_key(&self) -> u8 {
        gm::MessageType::CreateRelation.code()
    }

    fn message_key(&self) -> (r: u8) {
        gm::MessageType::CreateRelation.to_u8()
    }
}

impl MessageKey<u8> for gm::ReleaseRelation {
    /// The flag byte of `ReleaseRelation`.
    open spec fn spec_message_key(&self) -> u8 {
        gm::MessageType::ReleaseRelation.code()
    }

    fn message_key(&self) -> (r: u8) {
        gm::MessageType::ReleaseRelation.to_u8()
    }
}

impl MessageKey<u8> for gm::RockPaperScissors {
    /// The flag byte of `RockPaperScissors`.
    open spec fn spec_message_key(&self) -> u8 {
        gm::MessageType::RockPaperScissors.code()
    }

    fn message_key(&self) -> (r: u8) {
        gm::MessageType::RockPaperScissors.to_u8()
    }
}

impl MessageKey<u8> for gm::AnnounceRace {
    /// The flag byte of `AnnounceRace`.
    open spec fn spec_message_key(&self) -> u8 {
        gm::MessageType::AnnounceRace.code()
    }

    fn message_key(&self) -> (r: u8) {
        gm::MessageType::AnnounceRace.to_u8()
    }
}

impl MessageKey<u8> for gm::AnnounceAttribute {
    /// The flag byte of `AnnounceAttribute`.
    open spec fn spec_message_key(&self) -> u8 {
        gm::MessageType::AnnounceAttribute.code()
    }

    fn message_key(&self) -> (r: u8) {
        gm::MessageType::AnnounceAttribute.to_u8()
    }
}

impl MessageKey<u8> for gm::TagSwap {
    /// The flag byte of `TagSwap`.
    open spec fn spec_message_key(&self) -> u8 {
        gm::MessageType::TagSwap.code()
    }

    fn message_key(&self) -> (r: u8) {
        gm::MessageType::TagSwap.to_u8()
    }
}

impl MessageKey<u8> for gm::PlayerHint {
    /// The flag byte of `PlayerHint`.
    open spec fn spec_message_key(&self) -> u8 {
        gm::MessageType::PlayerHint.code()
    }

    fn message_key(&self) -> (r: u8) {
        gm::MessageType::PlayerHint.to_u8()
    }
}

impl MessageKey<u8> for gm::MatchKill {
    /// The flag byte of `MatchKill`.
    open spec fn spec_message_key(&self) -> u8 {
        gm::MessageType::MatchKill.code()
    }

    fn message_key(&self) -> (r: u8) {
        gm::MessageType::MatchKill.to_u8()
    }
}

impl MessageKey<u8> for gm::Draw {
    /// The flag byte of `Draw`.
    open spec fn spec_message_key(&self) -> u8 {
        gm::MessageType::Draw.code()
    }

    fn message_key(&self) -> (r: u8) {
        gm::MessageType::Draw.to_u8()
    }
}

impl MessageKey<u8> for gm::ShuffleHand {
    /// The flag byte of `ShuffleHand`.
    open spec fn spec_message_key(&self) -> u8 {
        gm::MessageType::ShuffleHand.code()
    }

    fn message_key(&self) -> (r: u8) {
        gm::MessageType::ShuffleHand.to_u8()
    }
}

impl MessageKey<u8> for gm::ShuffleExtra {
    /// The flag byte of `ShuffleExtra`.
    open spec fn spec_message_key(&self) -> u8 {
        gm::MessageType::ShuffleExtra.code()
    }

    fn message_key(&self) -> (r: u8) {
        gm::MessageType::ShuffleExtra.to_u8()
    }
}

impl MessageKey<u8> for ctos::PlayerInfo {
    /// The flag byte of `PlayerInfo`.
    open spec fn spec_message_key(&self) -> u8 {
        ctos::MessageType::PlayerInfo.code()
    }

    fn message_key(&self) -> (r: u8) {
        ctos::MessageType::PlayerInfo.to_u8()
    }
}

impl MessageKey<u8> for ctos::UpdateDeck {
    /// The flag byte of `UpdateDeck`.
    open spec fn spec_message_key(&self) -> u8 {
        ctos::MessageType::UpdateDeck.code()
    }

    fn message_key(&self) -> (r: u8) {
        ctos::MessageType::UpdateDeck.to_u8()
    }
}

/// A registered handler: the number it was registered under and its priority (lower
/// runs first).
#[derive(Clone, Copy, Debug, PartialEq, Eq, Structural)]
pub struct HandlerEntry {
    pub id: usize,
    pub priority: u8,
}

/// Whether handlers are in the order of their priorities.
pub open spec fn sorted_by_priority(s: Seq<HandlerEntry>) -> bool {
    forall|i: int, j: int| 0 <= i <= j < s.len() ==> s[i].priority <= s[j].priority
}

/// The handler lists by key after registering `h` for `key`: appended to the key's list,
/// or a new list for a new key at the end.
pub open spec fn registered(hs: Seq<(u8, Seq<HandlerEntry>)>, key: u8, h: HandlerEntry) -> Seq<(u8, Seq<HandlerEntry>)> {
    if exists|i: int| 0 <= i < hs.len() && hs[i].0 == key {
        let i = choose|i: int| 0 <= i < hs.len() && hs[i].0 == key;
        hs.update(i, (key, hs[i].1.push(h)))
    } else {
        hs.push((key, seq![h]))
    }
}

/// No key has two lists.
pub open spec fn distinct_keys(hs: Seq<(u8, Seq<HandlerEntry>)>) -> bool {
    forall|i: int, j: int| 0 <= i < hs.len() && 0 <= j < hs.len() && i != j ==> hs[i].0 != hs[j].0
}

/// The message dispatcher's registry: the handlers of each message key, and the global
/// handlers that run for every message.
pub struct Processor {
    pub handlers: Vec<(u8, Vec<HandlerEntry>)>,
    pub global_handlers: Vec<HandlerEntry>,
}

impl Processor {
    /// The handler lists by key, as plain values.
    pub open spec fn lists(&self) -> Seq<(u8, Seq<HandlerEntry>)> {
        self.handlers@.map_values(|e: (u8, Vec<HandlerEntry>)| (e.0, e.1@))
    }

    /// No key has two lists.
    pub open spec fn wf(&self) -> bool {
        distinct_keys(self.lists())
    }

    /// No handler yet.
    pub fn new() -> (r: Processor)
        ensures
            r.wf(),
            r.lists().len() == 0,
            r.global_handlers@.len() == 0,
    {
        let r = Processor { handlers: Vec::new(), global_handlers: Vec::new() };
        assert(r.lists() =~= Seq::<(u8, Seq<HandlerEntry>)>::empty());
        r
    }

    /// Register a handler for a message key.
    pub fn register(&mut self, message_key: u8, handler: HandlerEntry)
        requires
            old(self).wf(),
        ensures
            final(self).wf(),
            final(self).lists() == registered(old(self).lists(), message_key, handler),
            final(self).global_handlers@ == old(self).global_handlers@,
    {
        let ghost hs = self.lists();
        let ghost globals = self.global_handlers@;
        let mut i: usize = 0;
        while i < self.handlers.len()
            invariant
                i <= self.handlers@.len(),
                hs == self.lists(),
                hs == old(self).lists(),
                distinct_keys(hs),
                globals == self.global_handlers@,
                globals == old(self).global_handlers@,
                forall|k: int| 0 <= k < i ==> hs[k].0 != message_key,
            decreases self.handlers@.len() - i,
        {
            if self.handlers[i].0 == message_key {
                let (key, mut list) = self.handlers.remove(i);
                list.push(handler);
                self.handlers.insert(i, (key, list));
                proof {
                    assert(hs[i as int].0 == message_key);
                    let c = choose|c: int| 0 <= c < hs.len() && hs[c].0 == message_key;
                    assert(c == i as int) by {
                        if c != i {
                            assert(hs[c].0 != hs[i as int].0);
                        }
                    }
                    assert(self.lists() =~= hs.update(i as int, (message_key, hs[i as int].1.push(handler))));
                    assert forall|a: int, b: int|
                        0 <= a < self.lists().len() && 0 <= b < self.lists().len() && a != b implies self.lists()[a].0
                        != self.lists()[b].0 by {
                        assert(hs[a].0 != hs[b].0);
                    }
                }
                return;
            }
            i = i + 1;
        }
        let mut list: Vec<HandlerEntry> = Vec::new();
        list.push(handler);
        self.handlers.push((message_key, list));
        proof {
            assert(self.lists() =~= hs.push((message_key, seq![handler])));
            assert forall|a: int, b: int|
                0 <= a < self.lists().len() && 0 <= b < self.lists().len() && a != b implies self.lists()[a].0
                != self.lists()[b].0 by {
                if a < hs.len() && b < hs.len() {
                    assert(hs[a].0 != hs[b].0);
                }
            }
        }
    }

    /// Register a global handler, which runs for every message.
    pub fn register_global(&mut self, handler: HandlerEntry)
        ensures
            final(self).lists() == old(self).lists(),
            final(self).global_handlers@ == old(self).global_handlers@.push(handler),
    {
        self.global_handlers.push(handler);
    }

    /// The number of registered handlers: those of every key and the global ones.
    pub fn handler_count(&self) -> (r: usize)
        requires
            total_len(self.lists()) + self.global_handlers@.len() <= usize::MAX,
        ensures
            r == total_len(self.lists()) + self.global_handlers@.len(),
    {
        let mut total: usize = 0;
        let mut i: usize = 0;
        proof {
            lemma_total_len_prefix(self.lists(), 0);
        }
        while i < self.handlers.len()
            invariant
                i <= self.handlers@.len(),
                total == total_len(self.lists().take(i as int)),
                total_len(self.lists()) + self.global_handlers@.len() <= usize::MAX,
            decreases self.handlers@.len() - i,
        {
            proof {
                lemma_total_len_prefix(self.lists(), i + 1);
                assert(self.lists().take(i + 1).drop_last() =~= self.lists().take(i as int));
            }
            total = total + self.handlers[i].1.len();
            i = i + 1;
        }
        assert(self.lists().take(i as int) =~= self.lists());
        total + self.global_handlers.len()
    }

    /// The handlers a message of key `key` runs through: the key's list, or the global
    /// handlers when the key has none.
    pub fn chain(&self, key: u8) -> (r: &Vec<HandlerEntry>)
        requires
            self.wf(),
        ensures
            (exists|i: int| 0 <= i < self.lists().len() && self.lists()[i].0 == key) ==> {
                let i = choose|i: int| 0 <= i < self.lists().len() && self.lists()[i].0 == key;
                r@ == self.lists()[i].1
            },
            !(exists|i: int| 0 <= i < self.lists().len() && self.lists()[i].0 == key) ==> r@ == self.global_handlers@,
    {
        let mut i: usize = 0;
        while i < self.handlers.len()
            invariant
                i <= self.handlers@.len(),
                distinct_keys(self.lists()),
                forall|k: int| 0 <= k < i ==> self.lists()[k].0 != key,
            decreases self.handlers@.len() - i,
        {
            if self.handlers[i].0 == key {
                proof {
                    assert(self.lists()[i as int].0 == key);
                    let c = choose|c: int| 0 <= c < self.lists().len() && self.lists()[c].0 == key;
                    assert(c == i as int) by {
                        if c != i {
                            assert(self.lists()[c].0 != self.lists()[i as int].0);
                        }
                    }
                }
                return &self.handlers[i].1;
            }
            i = i + 1;
        }
        &self.global_handlers
    }
}

/// The number of handlers over all the lists.
pub open spec fn total_len(hs: Seq<(u8, Seq<HandlerEntry>)>) -> nat
    decreases hs.len(),
{
    if hs.len() == 0 {
        0
    } else {
        total_len(hs.drop_last()) + hs.last().1.len()
    }
}

/// A prefix of the lists holds no more handlers than all of them.
proof fn lemma_total_len_prefix(hs: Seq<(u8, Seq<HandlerEntry>)>, n: int)
    requires
        0 <= n <= hs.len(),
    ensures
        total_len(hs.take(n)) <= total_len(hs),
    decreases hs.len(),
{
    if n < hs.len() {
        assert(hs.drop_last().take(n) =~= hs.take(n));
        lemma_total_len_prefix(hs.drop_last(), n);
    } else {
        assert(hs.take(n) =~= hs);
    }
}

/// Insert `x` before the first handler of a higher priority.
fn insert_by_priority(out: &mut Vec<HandlerEntry>, x: HandlerEntry)
    requires
        sorted_by_priority(old(out)@),
    ensures
        sorted_by_priority(final(out)@),
        final(out)@.to_multiset() == old(out)@.to_multiset().insert(x),
{
    broadcast use group_to_multiset_ensures;

    let ghost before = out@;
    let mut j: usize = 0;
    while j < out.len() && out[j].priority <= x.priority
        invariant
            j <= out@.len(),
            out@ == before,
            forall|k: int| 0 <= k < j ==> out@[k].priority <= x.priority,
        decreases out@.len() - j,
    {
        j = j + 1;
    }
    out.insert(j, x);
    proof {
        let after = out@;
        assert(after == before.insert(j as int, x));
        assert forall|a: int, b: int| 0 <= a <= b < after.len() implies after[a].priority <= after[b].priority by {
            if j < before.len() {
                assert(before[j as int].priority > x.priority);
            }
            if a < j && b > j {
                assert(after[b] == before[b - 1]);
                if j < before.len() {
                    assert(before[j as int].priority <= before[b - 1].priority);
                }
            } else if a > j {
                assert(after[a] == before[a - 1] && after[b] == before[b - 1]);
            } else if a == j && b > j {
                assert(after[b] == before[b - 1]);
                assert(before[j as int].priority <= before[b - 1].priority);
            }
        }
        assert(after.remove(j as int) =~= before);
        assert(after.remove(j as int).to_multiset() =~= after.to_multiset().remove(x));
        assert(after.to_multiset().count(x) > 0) by {
            assert(after.contains(x)) by {
                assert(after[j as int] == x);
            }
        }
        assert(after.to_multiset() =~= before.to_multiset().insert(x));
    }
}

/// The handlers of `list` in the order of their priorities.
fn sort_by_priority(list: &Vec<HandlerEntry>) -> (r: Vec<HandlerEntry>)
    ensures
        sorted_by_priority(r@),
        r@.to_multiset() == list@.to_multiset(),
{
    broadcast use group_to_multiset_ensures;

    let mut out: Vec<HandlerEntry> = Vec::new();
    let mut i: usize = 0;
    assert(list@.take(0) =~= Seq::<HandlerEntry>::empty());
    while i < list.len()
        invariant
            i <= list@.len(),
            sorted_by_priority(out@),
            out@.to_multiset() == list@.take(i as int).to_multiset(),
        decreases list@.len() - i,
    {
        insert_by_priority(&mut out, list[i]);
        assert(list@.take(i + 1) =~= list@.take(i as int).push(list@[i as int]));
        proof {
            list@.take(i as int).to_multiset_ensures();
        }
        assert(list@.take(i as int).push(list@[i as int]).to_multiset() =~= list@.take(i as int).to_multiset().insert(
            list@[i as int],
        ));
        i = i + 1;
    }
    assert(list@.take(i as int) =~= list@);
    out
}

impl Processor {
    /// Add the global handlers to every key's list and order each list by priority.
    /// After this the registry is not to change.
    pub fn resolve(&mut self)
        requires
            old(self).wf(),
        ensures
            final(self).wf(),
            final(self).global_handlers@ == old(self).global_handlers@,
            final(self).lists().len() == old(self).lists().len(),
            forall|i: int|
                0 <= i < old(self).lists().len() ==> {
                    &&& #[trigger] final(self).lists()[i].0 == old(self).lists()[i].0
                    &&& sorted_by_priority(final(self).lists()[i].1)
                    &&& final(self).lists()[i].1.to_multiset() == (old(self).lists()[i].1
                        + old(self).global_handlers@).to_multiset()
                },
    {
        let ghost old_lists = self.lists();
        let mut resolved: Vec<(u8, Vec<HandlerEntry>)> = Vec::new();
        let mut i: usize = 0;
        while i < self.handlers.len()
            invariant
                i <= self.handlers@.len(),
                old_lists == self.lists(),
                resolved@.len() == i,
                forall|k: int|
                    0 <= k < i ==> {
                        &&& #[trigger] resolved@[k].0 == old_lists[k].0
                        &&& sorted_by_priority(resolved@[k].1@)
                        &&& resolved@[k].1@.to_multiset() == (old_lists[k].1 + self.global_handlers@).to_multiset()
                    },
            decreases self.handlers@.len() - i,
        {
            let mut combined: Vec<HandlerEntry> = Vec::new();
            let list = &self.handlers[i].1;
            let mut j: usize = 0;
            while j < list.len()
                invariant
                    j <= list@.len(),
                    combined@ == list@.take(j as int),
                decreases list@.len() - j,
            {
                combined.push(list[j]);
                j = j + 1;
                assert(combined@ =~= list@.take(j as int));
            }
            let mut g: usize = 0;
            while g < self.global_handlers.len()
                invariant
                    g <= self.global_handlers@.len(),
                    j == list@.len(),
                    combined@ == list@ + self.global_handlers@.take(g as int),
                decreases self.global_handlers@.len() - g,
            {
                combined.push(self.global_handlers[g]);
                g = g + 1;
                assert(combined@ =~= list@ + self.global_handlers@.take(g as int));
            }
            assert(self.global_handlers@.take(g as int) =~= self.global_handlers@);
            assert(list@.take(j as int) =~= list@);
            let sorted = sort_by_priority(&combined);
            resolved.push((self.handlers[i].0, sorted));
            i = i + 1;
        }
        self.handlers = resolved;
        proof {
            assert forall|a: int, b: int|
                0 <= a < self.lists().len() && 0 <= b < self.lists().len() && a != b implies self.lists()[a].0
                != self.lists()[b].0 by {
                assert(self.lists()[a].0 == old_lists[a].0);
                assert(self.lists()[b].0 == old_lists[b].0);
            }
        }
    }
}

/// Whether `lists` and `globals` are `before` and `before_globals` resolved: the same
/// keys, each list with the global handlers added and ordered by priority.
pub open spec fn is_resolution(
    lists: Seq<(u8, Seq<HandlerEntry>)>,
    globals: Seq<HandlerEntry>,
    before: Seq<(u8, Seq<HandlerEntry>)>,
    before_globals: Seq<HandlerEntry>,
) -> bool {
    &&& globals == before_globals
    &&& lists.len() == before.len()
    &&& forall|i: int|
        0 <= i < before.len() ==> {
            &&& #[trigger] lists[i].0 == before[i].0
            &&& sorted_by_priority(lists[i].1)
            &&& lists[i].1.to_multiset() == (before[i].1 + before_globals).to_multiset()
        }
}

/// Whether a handler of group `group` is kept: every group is when none is named.
pub open spec fn group_kept(groups: Seq<Seq<char>>, group: Seq<char>) -> bool {
    groups.len() == 0 || groups.contains(group)
}

/// The lists and global handlers after registering the built handlers in order: those
/// of a group not kept are skipped, those of the key `global_key` are global.
pub open spec fn registered_all(
    built: Seq<(u8, HandlerEntry, Seq<char>)>,
    groups: Seq<Seq<char>>,
    global_key: u8,
) -> (Seq<(u8, Seq<HandlerEntry>)>, Seq<HandlerEntry>)
    decreases built.len(),
{
    if built.len() == 0 {
        (Seq::empty(), Seq::empty())
    } else {
        let (lists, globals) = registered_all(built.drop_last(), groups, global_key);
        let (key, handler, group) = built.last();
        if !group_kept(groups, group) {
            (lists, globals)
        } else if key == global_key {
            (lists, globals.push(handler))
        } else {
            (registered(lists, key, handler), globals)
        }
    }
}

fn contains_text(groups: &Vec<String>, group: &str) -> (r: bool)
    ensures
        r == groups@.map_values(|g: String| g@).contains(group@),
{
    let ghost gs = groups@.map_values(|g: String| g@);
    let target = chars_of(group);
    let mut i: usize = 0;
    while i < groups.len()
        invariant
            i <= groups@.len(),
            gs == groups@.map_values(|g: String| g@),
            target@ == group@,
            forall|k: int| 0 <= k < i ==> gs[k] != group@,
        decreases groups@.len() - i,
    {
        let c = chars_of(groups[i].as_str());
        if chars_eq(&c, target.as_slice()) {
            assert(gs[i as int] == group@);
            return true;
        }
        i = i + 1;
    }
    false
}

impl Processor {
    /// A registry of the built handlers `(key, handler, group)`: a handler whose group
    /// is not among `groups` is left out (unless no group is named); one of the key
    /// `global_key` is global; the registry is then resolved.
    pub fn new_with_groups(built: &Vec<(u8, HandlerEntry, String)>, groups: &Vec<String>, global_key: u8) -> (r: Processor)
        ensures
            r.wf(),
            ({
                let (lists, globals) = registered_all(
                    built@.map_values(|b: (u8, HandlerEntry, String)| (b.0, b.1, b.2@)),
                    groups@.map_values(|g: String| g@),
                    global_key,
                );
                is_resolution(r.lists(), r.global_handlers@, lists, globals)
            }),
    {
        let ghost bv = built@.map_values(|b: (u8, HandlerEntry, String)| (b.0, b.1, b.2@));
        let ghost gv = groups@.map_values(|g: String| g@);
        let mut processor = Processor::new();
        let mut i: usize = 0;
        assert(bv.take(0) =~= Seq::<(u8, HandlerEntry, Seq<char>)>::empty());
        while i < built.len()
            invariant
                i <= built@.len(),
                bv == built@.map_values(|b: (u8, HandlerEntry, String)| (b.0, b.1, b.2@)),
                gv == groups@.map_values(|g: String| g@),
                processor.wf(),
                (processor.lists(), processor.global_handlers@) == registered_all(bv.take(i as int), gv, global_key),
            decreases built@.len() - i,
        {
            assert(bv.take(i + 1).drop_last() =~= bv.take(i as int));
            let (key, handler, group) = (built[i].0, built[i].1, built[i].2.as_str());
            if groups.len() == 0 || contains_text(groups, group) {
                if key == global_key {
                    processor.register_global(handler);
                } else {
                    processor.register(key, handler);
                }
            }
            i = i + 1;
        }
        assert(bv.take(i as int) =~= bv);
        let ghost lists = processor.lists();
        let ghost globals = processor.global_handlers@;
        processor.resolve();
        assert(registered_all(bv, gv, global_key) == (lists, globals));
        assert(is_resolution(processor.lists(), processor.global_handlers@, lists, globals));
        processor
    }
}

} // verus!
