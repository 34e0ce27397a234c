//! Sending a game message to the seats of a duel, each receiver getting the form it
//! may see: the message itself, or its masked copy.
use vstd::prelude::*;

use crate::message::card_codes::{GameMessage, MaskedClone};
use crate::constants::CorePlayer;
use crate::single_duel::{
    core_player_of, player_of_core, prompt_target, to_core_player, PlayerIndex, Room, SendTarget, Seat,
};

verus! {

/// Whether the receiver in `seat` gets a message unmasked: a duelist's seat marked in
/// `can_see`; never an observer.
pub open spec fn sees_unmasked(can_see: Seq<bool>, seat: Seat) -> bool {
    match seat {
        Seat::Player(i) => i < can_see.len() && can_see[i as int],
        _ => false,
    }
}

/// A message in the form each receiver gets it.
pub trait SendableMessage<M> {
    /// The form the receiver in `seat` gets.
    spec fn towards(&self, seat: Seat) -> M;

    /// The form the receiver in `seat` gets.
    fn resolve(&self, seat: Seat) -> (r: &M)
        ensures
            *r == self.towards(seat),
    ;

    /// The form the receiver in `seat` gets, taking the message.
    fn into_inner(self, seat: Seat) -> (r: M)
        ensures
            r == self.towards(seat),
    ;
}

/// A game message with its masked copy, and which duelists' seats get it unmasked.
pub struct MaymaskedMessage<M> {
    pub message: M,
    pub masked_message: M,
    /// For each duelist's seat, whether it gets the message unmasked.
    pub can_see_unmasked: Vec<bool>,
}

impl<M: MaskedClone> MaymaskedMessage<M> {
    /// The message, its masked copy, and the seats that see it unmasked.
    pub fn new(message: M, can_see_unmasked: Vec<bool>) -> (r: MaymaskedMessage<M>)
        ensures
            r.message == message,
            r.masked_message.is_masked_of(message),
            r.can_see_unmasked@ == can_see_unmasked@,
    {
        let masked_message = message.clone_masked();
        MaymaskedMessage { message, masked_message, can_see_unmasked }
    }
}

impl<M> MaymaskedMessage<M> {
    /// Whether the receiver in `seat` gets the message unmasked.
    pub fn judge(&self, seat: Seat) -> (r: bool)
        ensures
            r == sees_unmasked(self.can_see_unmasked@, seat),
    {
        match seat {
            Seat::Player(i) => (i as usize) < self.can_see_unmasked.len() && self.can_see_unmasked[i as usize],
            _ => false,
        }
    }
}

impl<M> SendableMessage<M> for MaymaskedMessage<M> {
    /// The message for a seat that sees it unmasked, the masked copy otherwise.
    open spec fn towards(&self, seat: Seat) -> M {
        if sees_unmasked(self.can_see_unmasked@, seat) {
            self.message
        } else {
            self.masked_message
        }
    }

    fn resolve(&self, seat: Seat) -> (r: &M) {
        if self.judge(seat) {
            &self.message
        } else {
            &self.masked_message
        }
    }

    fn into_inner(self, seat: Seat) -> (r: M) {
        if self.judge(seat) {
            self.message
        } else {
            self.masked_message
        }
    }
}

/// Which duelists' seats see a message unmasked: those whose duelist, by the engine's
/// number, the message is not hidden from.
pub fn can_players_see_unmasked<M: GameMessage>(message: &M, first_attack: Option<PlayerIndex>) -> (r: Vec<bool>)
    ensures
        r@ == seq![
            !message.hidden_from(core_player_of(first_attack, PlayerIndex::Player1)),
            !message.hidden_from(core_player_of(first_attack, PlayerIndex::Player2)),
        ],
{
    let mut r: Vec<bool> = Vec::new();
    let first = to_core_player(first_attack, PlayerIndex::Player1);
    r.push(!message.should_mask(first));
    let second = to_core_player(first_attack, PlayerIndex::Player2);
    r.push(!message.should_mask(second));
    assert(r@ =~= seq![
        !message.hidden_from(core_player_of(first_attack, PlayerIndex::Player1)),
        !message.hidden_from(core_player_of(first_attack, PlayerIndex::Player2)),
    ]);
    r
}

/// The duelists' seats `0..n` but `skip`, in order.
pub open spec fn player_seats_but(n: nat, skip: Seat) -> Seq<Seat>
    decreases n,
{
    if n == 0 {
        Seq::empty()
    } else {
        player_seats_but((n - 1) as nat, skip) + if skip == Seat::Player((n - 1) as u8) {
            Seq::<Seat>::empty()
        } else {
            seq![Seat::Player((n - 1) as u8)]
        }
    }
}

/// The taken observer places of `taken` but `skip`, in order.
pub open spec fn observer_seats_but(taken: Seq<bool>, skip: Seat) -> Seq<Seat>
    decreases taken.len(),
{
    if taken.len() == 0 {
        Seq::empty()
    } else {
        let i = (taken.len() - 1) as u8;
        observer_seats_but(taken.drop_last(), skip) + if taken.last() && skip != Seat::Observer(i) {
            seq![Seat::Observer(i)]
        } else {
            Seq::<Seat>::empty()
        }
    }
}

/// Who a duel's dispatcher sends a message to, given how many duelists' channels it
/// has and which observer places are taken: a single seat that has a channel; everyone
/// but the seat named (duelists first, then observers); everyone; the duelists; the
/// observers; no one.
pub open spec fn dispatched_to(player_count: nat, observers: Seq<bool>, target: SendTarget) -> Seq<Seat> {
    match target {
        SendTarget::Single(Seat::Player(i)) => if i < player_count {
            seq![Seat::Player(i)]
        } else {
            Seq::empty()
        },
        SendTarget::Single(Seat::Observer(i)) => if i < observers.len() && observers[i as int] {
            seq![Seat::Observer(i)]
        } else {
            Seq::empty()
        },
        SendTarget::Single(Seat::Unknown) => Seq::empty(),
        SendTarget::Except(s) => player_seats_but(player_count, s) + observer_seats_but(observers, s),
        SendTarget::All => player_seats_but(player_count, Seat::Unknown) + observer_seats_but(observers, Seat::Unknown),
        SendTarget::AllPlayer => player_seats_but(player_count, Seat::Unknown),
        SendTarget::AllObserver => observer_seats_but(observers, Seat::Unknown),
        SendTarget::Nobody => Seq::empty(),
    }
}

fn players_but(n: usize, skip: Seat) -> (r: Vec<Seat>)
    requires
        n <= 256,
    ensures
        r@ == player_seats_but(n as nat, skip),
{
    let mut v: Vec<Seat> = Vec::new();
    let mut i: usize = 0;
    while i < n
        invariant
            i <= n <= 256,
            v@ == player_seats_but(i as nat, skip),
        decreases n - i,
    {
        if skip != Seat::Player(i as u8) {
            v.push(Seat::Player(i as u8));
        }
        i = i + 1;
        assert(v@ =~= player_seats_but(i as nat, skip));
    }
    v
}

fn observers_but(taken: &Vec<bool>, skip: Seat) -> (r: Vec<Seat>)
    requires
        taken@.len() <= 256,
    ensures
        r@ == observer_seats_but(taken@, skip),
{
    let mut v: Vec<Seat> = Vec::new();
    let mut i: usize = 0;
    while i < taken.len()
        invariant
            i <= taken@.len() <= 256,
            v@ == observer_seats_but(taken@.take(i as int), skip),
        decreases taken@.len() - i,
    {
        assert(taken@.take(i + 1).drop_last() =~= taken@.take(i as int));
        if taken[i] && skip != Seat::Observer(i as u8) {
            v.push(Seat::Observer(i as u8));
        }
        i = i + 1;
        assert(v@ =~= observer_seats_but(taken@.take(i as int), skip));
    }
    assert(taken@.take(i as int) =~= taken@);
    v
}

/// Who a duel's dispatcher sends a message to (see `dispatched_to`).
pub fn dispatch_seats(player_count: usize, observers: &Vec<bool>, target: SendTarget) -> (r: Vec<Seat>)
    requires
        player_count <= 256,
        observers@.len() <= 256,
    ensures
        r@ == dispatched_to(player_count as nat, observers@, target),
{
    match target {
        SendTarget::Single(Seat::Player(i)) => {
            let mut v: Vec<Seat> = Vec::new();
            if (i as usize) < player_count {
                v.push(Seat::Player(i));
            }
            assert(v@ =~= dispatched_to(player_count as nat, observers@, target));
            v
        },
        SendTarget::Single(Seat::Observer(i)) => {
            let mut v: Vec<Seat> = Vec::new();
            if (i as usize) < observers.len() && observers[i as usize] {
                v.push(Seat::Observer(i));
            }
            assert(v@ =~= dispatched_to(player_count as nat, observers@, target));
            v
        },
        SendTarget::Single(Seat::Unknown) => Vec::new(),
        SendTarget::Except(s) => {
            let mut v = players_but(player_count, s);
            let mut w = observers_but(observers, s);
            v.append(&mut w);
            v
        },
        SendTarget::All => {
            let mut v = players_but(player_count, Seat::Unknown);
            let mut w = observers_but(observers, Seat::Unknown);
            v.append(&mut w);
            v
        },
        SendTarget::AllPlayer => players_but(player_count, Seat::Unknown),
        SendTarget::AllObserver => observers_but(observers, Seat::Unknown),
        SendTarget::Nobody => Vec::new(),
    }
}

/// Something that knows where the engine's duelists sit.
pub trait CorePlayerToSendTarget {
    /// Where a message for the engine's duelist `player` goes.
    spec fn spec_transform(&self, player: CorePlayer) -> SendTarget;

    /// Where a message for the engine's duelist `player` goes.
    fn transform(&self, player: CorePlayer) -> (r: SendTarget)
        ensures
            r == self.spec_transform(player),
    ;
}

impl CorePlayerToSendTarget for Room {
    /// The seat of that duelist, given who attacks first; no seat for a number that
    /// names no duelist.
    open spec fn spec_transform(&self, player: CorePlayer) -> SendTarget {
        SendTarget::Single(
            match player_of_core(self.first_attack_player, player) {
                Some(p) => Seat::Player(p.number()),
                None => Seat::Unknown,
            },
        )
    }

    fn transform(&self, player: CorePlayer) -> (r: SendTarget) {
        prompt_target(self.first_attack_player, player)
    }
}

/// Where a game message goes: a target of seats, or the seat of one of the engine's
/// duelists.
#[derive(Clone, Copy, Debug, PartialEq, Eq, Structural)]
pub enum GameMessageTarget {
    Seats(SendTarget),
    Core(CorePlayer),
}

/// The seats' target of `target`: the engine's duelist is looked up in `core`.
pub open spec fn resolved_target<C: CorePlayerToSendTarget>(target: GameMessageTarget, core: &C) -> SendTarget {
    match target {
        GameMessageTarget::Seats(t) => t,
        GameMessageTarget::Core(p) => core.spec_transform(p),
    }
}

/// Each receiver of `seats` with whether it gets the message unmasked.
pub open spec fn deliveries(seats: Seq<Seat>, can_see: Seq<bool>) -> Seq<(Seat, bool)> {
    seats.map_values(|s: Seat| (s, sees_unmasked(can_see, s)))
}

/// The dispatcher of a duel: how many duelists' channels it has, which observer places
/// are taken, every game message it sent, and the masked copies of those that wait for
/// no answer (what a late observer is shown).
pub struct Sender<M> {
    pub player_count: usize,
    pub observers: Vec<bool>,
    pub messages: Vec<M>,
    pub masked_messages: Vec<M>,
}

impl<M> Sender<M> {
    /// The seat numbers fit a byte.
    pub open spec fn wf(&self) -> bool {
        self.player_count <= 256 && self.observers@.len() <= 256
    }

    /// A dispatcher with no channel and nothing sent.
    pub fn new() -> (r: Sender<M>)
        ensures
            r.wf(),
            r.player_count == 0,
            r.observers@.len() == 0,
            r.messages@.len() == 0,
            r.masked_messages@.len() == 0,
    {
        Sender { player_count: 0, observers: Vec::new(), messages: Vec::new(), masked_messages: Vec::new() }
    }
}

impl<M: MaskedClone + GameMessage> Sender<M> {
    /// Send a game message: a target naming an engine's duelist goes to that duelist's
    /// seat (`core`). The message joins the log of sent messages; its masked copy joins
    /// the masked log unless the engine waits for an answer after it, and is then
    /// returned instead. Returns each receiver, as `dispatched_to` lists them, with
    /// whether it gets the message (true: the last sent message) or the masked copy;
    /// `can_see_unmasked` tells which duelists' seats see the message unmasked.
    pub fn send_game_message<C: CorePlayerToSendTarget>(
        &mut self,
        message: M,
        target: GameMessageTarget,
        can_see_unmasked: Vec<bool>,
        core: &C,
    ) -> (r: (Vec<(Seat, bool)>, Option<M>))
        requires
            old(self).wf(),
        ensures
            final(self).wf(),
            final(self).player_count == old(self).player_count,
            final(self).observers@ == old(self).observers@,
            final(self).messages@ == old(self).messages@.push(message),
            r.0@ == deliveries(
                dispatched_to(old(self).player_count as nat, old(self).observers@, resolved_target(target, core)),
                can_see_unmasked@,
            ),
            !message.awaits_answer() ==> {
                &&& r.1 is None
                &&& final(self).masked_messages@.len() == old(self).masked_messages@.len() + 1
                &&& final(self).masked_messages@.drop_last() == old(self).masked_messages@
                &&& final(self).masked_messages@.last().is_masked_of(message)
            },
            message.awaits_answer() ==> {
                &&& final(self).masked_messages@ == old(self).masked_messages@
                &&& r.1 matches Some(m) && m.is_masked_of(message)
            },
    {
        let t = match target {
            GameMessageTarget::Seats(t) => t,
            GameMessageTarget::Core(p) => core.transform(p),
        };
        let waiting = message.waiting_for_answer();
        let masked = message.clone_masked();
        let seats = dispatch_seats(self.player_count, &self.observers, t);
        let mut out: Vec<(Seat, bool)> = Vec::new();
        let mut i: usize = 0;
        while i < seats.len()
            invariant
                i <= seats@.len(),
                out@ == deliveries(seats@.take(i as int), can_see_unmasked@),
            decreases seats@.len() - i,
        {
            let s = seats[i];
            let unmasked = match s {
                Seat::Player(k) => (k as usize) < can_see_unmasked.len() && can_see_unmasked[k as usize],
                _ => false,
            };
            out.push((s, unmasked));
            i = i + 1;
            assert(out@ =~= deliveries(seats@.take(i as int), can_see_unmasked@));
        }
        assert(seats@.take(i as int) =~= seats@);
        self.messages.push(message);
        if waiting {
            (out, Some(masked))
        } else {
            let ghost before = self.masked_messages@;
            self.masked_messages.push(masked);
            assert(self.masked_messages@.drop_last() =~= before);
            (out, None)
        }
    }
}

} // verus!
