//! Card codes in game messages, and how a message is masked: what a player may not
//! see of a card is cleared before the message reaches them.
use vstd::prelude::*;

use crate::bytes::{le32, lemma_le32, put_u32, read_u32, u32_at, ReadError};
use crate::constants::CorePlayer;
use crate::message::game_message::MessageType;

verus! {

/// A card code as the engine sends it: the card's number in the low 28 bits, three
/// unused bits, and a top bit set when the card is public.
#[derive(Clone, Copy, Debug, PartialEq, Eq, Structural, Default)]
pub struct CardCode {
    pub value: u32,
}

impl CardCode {
    /// A code of no card: all bits clear.
    pub fn new() -> (r: CardCode)
        ensures
            r.value == 0,
    {
        CardCode { value: 0 }
    }

    /// The card's number: the low 28 bits.
    pub open spec fn spec_id(self) -> u32 {
        self.value & 0x0FFF_FFFF
    }

    /// Whether the card is public: the top bit.
    pub open spec fn spec_is_public(self) -> bool {
        self.value & 0x8000_0000 != 0
    }

    /// The card's number.
    pub fn id(&self) -> (r: u32)
        ensures
            r == self.spec_id(),
    {
        self.value & 0x0FFF_FFFF
    }

    /// Whether the card is public.
    pub fn is_public(&self) -> (r: bool)
        ensures
            r == self.spec_is_public(),
    {
        self.value & 0x8000_0000 != 0
    }

    /// Set the card's number, keeping the other bits.
    pub fn set_id(&mut self, id: u32)
        requires
            id <= 0x0FFF_FFFF,
        ensures
            final(self).value == (old(self).value & 0xF000_0000) | id,
    {
        self.value = (self.value & 0xF000_0000) | id;
    }
}

/// The bytes of a run of card codes, four for each, low byte first.
pub open spec fn codes_bytes(codes: Seq<CardCode>) -> Seq<u8>
    decreases codes.len(),
{
    if codes.len() == 0 {
        Seq::empty()
    } else {
        codes_bytes(codes.drop_last()) + le32(codes.last().value)
    }
}

/// The `n` card codes laid out from `i` on.
pub open spec fn codes_at(d: Seq<u8>, i: int, n: nat) -> Seq<CardCode> {
    Seq::new(n, |k: int| CardCode { value: u32_at(d, i + 4 * k) })
}

/// A run of codes takes four bytes for each code.
pub proof fn lemma_codes_bytes_len(codes: Seq<CardCode>)
    ensures
        codes_bytes(codes).len() == 4 * codes.len(),
    decreases codes.len(),
{
    if codes.len() > 0 {
        lemma_codes_bytes_len(codes.drop_last());
    }
}

/// Reading a number inside `a` is not changed by what follows `a`.
proof fn lemma_u32_at_prefix(a: Seq<u8>, b: Seq<u8>, i: int)
    requires
        0 <= i,
        i + 4 <= a.len(),
    ensures
        u32_at(a + b, i) == u32_at(a, i),
{
    assert((a + b)[i] == a[i] && (a + b)[i + 1] == a[i + 1] && (a + b)[i + 2] == a[i + 2] && (a
        + b)[i + 3] == a[i + 3]);
}

/// The codes written after any prefix read back as the same codes.
pub proof fn lemma_codes_round_trip(p: Seq<u8>, codes: Seq<CardCode>)
    ensures
        codes_at(p + codes_bytes(codes), p.len() as int, codes.len()) == codes,
    decreases codes.len(),
{
    lemma_codes_bytes_len(codes);
    if codes.len() > 0 {
        let init = codes.drop_last();
        let x = codes.last();
        lemma_codes_round_trip(p, init);
        lemma_codes_bytes_len(init);
        let a = p + codes_bytes(init);
        assert(p + codes_bytes(codes) =~= a + le32(x.value));
        let d = a + le32(x.value);
        assert forall|k: int| 0 <= k < codes.len() implies #[trigger] codes_at(d, p.len() as int, codes.len())[k]
            == codes[k] by {
            if k < init.len() {
                lemma_u32_at_prefix(a, le32(x.value), p.len() + 4 * k);
                assert(codes_at(a, p.len() as int, init.len())[k] == init[k]);
            } else {
                lemma_le32(x.value);
                assert(u32_at(d, a.len() as int) == u32_at(le32(x.value), 0));
            }
        }
        assert(codes_at(d, p.len() as int, codes.len()) =~= codes);
    } else {
        assert(codes_at(p + codes_bytes(codes), p.len() as int, 0) =~= codes);
    }
}

/// Append the bytes of a run of card codes.
pub fn write_codes(out: &mut Vec<u8>, codes: &Vec<CardCode>)
    ensures
        final(out)@ == old(out)@ + codes_bytes(codes@),
{
    let ghost start = out@;
    let mut i: usize = 0;
    assert(codes@.take(0) =~= Seq::<CardCode>::empty());
    assert(start + Seq::<u8>::empty() =~= start);
    while i < codes.len()
        invariant
            i <= codes@.len(),
            out@ == start + codes_bytes(codes@.take(i as int)),
        decreases codes@.len() - i,
    {
        assert(codes@.take(i + 1).drop_last() =~= codes@.take(i as int));
        put_u32(out, codes[i].value);
        i = i + 1;
        assert(out@ =~= start + codes_bytes(codes@.take(i as int)));
    }
    assert(codes@.take(i as int) =~= codes@);
}

/// Read `n` card codes laid out from `i` on.
pub fn read_codes(d: &[u8], i: usize, n: usize) -> (r: Vec<CardCode>)
    requires
        i + 4 * n <= d@.len(),
    ensures
        r@ == codes_at(d@, i as int, n as nat),
{
    let mut out: Vec<CardCode> = Vec::new();
    let len = d.len();
    let mut k: usize = 0;
    while k < n
        invariant
            k <= n,
            i + 4 * n <= d@.len(),
            d@.len() <= usize::MAX,
            out@ == codes_at(d@, i as int, k as nat),
        decreases n - k,
    {
        let v = read_u32(d, i + 4 * k);
        out.push(CardCode { value: v });
        k = k + 1;
        assert(out@ =~= codes_at(d@, i as int, k as nat));
    }
    out
}

/// Hiding from players what they may not see of a value.
pub trait Mask: Sized {
    /// `self` is `unmasked` with what is hidden from everyone cleared.
    spec fn is_masked_of(self, unmasked: Self) -> bool;

    /// `self` is `unmasked` as `player` may see it.
    spec fn is_masked_towards(self, unmasked: Self, player: CorePlayer) -> bool;

    /// Clear what is hidden from everyone.
    fn mask(&mut self)
        ensures
            final(self).is_masked_of(*old(self)),
    ;

    /// Clear what `player` may not see.
    fn mask_towards(&mut self, player: CorePlayer)
        ensures
            final(self).is_masked_towards(*old(self), player),
    ;
}

/// A masked copy of a value.
pub trait MaskedClone: Mask {
    /// A copy of `self` with what is hidden from everyone cleared.
    fn clone_masked(&self) -> (r: Self)
        ensures
            r.is_masked_of(*self),
    ;
}

impl Mask for CardCode {
    /// The number is cleared; the other bits stay.
    open spec fn is_masked_of(self, unmasked: CardCode) -> bool {
        self.value == unmasked.value & 0xF000_0000
    }

    /// A public card stays; otherwise its number is cleared.
    open spec fn is_masked_towards(self, unmasked: CardCode, player: CorePlayer) -> bool {
        self.value == if unmasked.spec_is_public() {
            unmasked.value
        } else {
            unmasked.value & 0xF000_0000
        }
    }

    fn mask(&mut self) {
        self.value = self.value & 0xF000_0000;
    }

    fn mask_towards(&mut self, player: CorePlayer) {
        if !self.is_public() {
            self.value = self.value & 0xF000_0000;
        }
    }
}

impl MaskedClone for CardCode {
    fn clone_masked(&self) -> (r: CardCode) {
        CardCode { value: self.value & 0xF000_0000 }
    }
}

/// A code masked for everyone shows no card number but keeps its other bits (the public
/// bit among them), and masking it again changes nothing.
pub proof fn lemma_masked_code(c: CardCode, m: CardCode)
    requires
        m.is_masked_of(c),
    ensures
        m.spec_id() == 0,
        m.spec_is_public() == c.spec_is_public(),
        m.value & 0xF000_0000 == c.value & 0xF000_0000,
        m.is_masked_of(m),
{
    let v = c.value;
    assert((v & 0xF000_0000) & 0x0FFF_FFFF == 0) by (bit_vector);
    assert(((v & 0xF000_0000) & 0x8000_0000 != 0) == (v & 0x8000_0000 != 0)) by (bit_vector);
    assert((v & 0xF000_0000) & 0xF000_0000 == v & 0xF000_0000) by (bit_vector);
}

/// A code masked towards a player is the code itself when the card is public, and
/// otherwise shows no card number.
pub proof fn lemma_masked_code_towards(c: CardCode, m: CardCode, player: CorePlayer)
    requires
        m.is_masked_towards(c, player),
    ensures
        c.spec_is_public() ==> m == c,
        !c.spec_is_public() ==> m.spec_id() == 0 && m.spec_is_public() == false,
{
    let v = c.value;
    assert((v & 0xF000_0000) & 0x0FFF_FFFF == 0) by (bit_vector);
    assert(((v & 0xF000_0000) & 0x8000_0000 != 0) == (v & 0x8000_0000 != 0)) by (bit_vector);
}

impl<T: Mask> Mask for Vec<T> {
    /// Each item is masked.
    open spec fn is_masked_of(self, unmasked: Vec<T>) -> bool {
        &&& self@.len() == unmasked@.len()
        &&& forall|i: int| 0 <= i < self@.len() ==> #[trigger] self@[i].is_masked_of(unmasked@[i])
    }

    /// Each item is masked towards `player`.
    open spec fn is_masked_towards(self, unmasked: Vec<T>, player: CorePlayer) -> bool {
        &&& self@.len() == unmasked@.len()
        &&& forall|i: int|
            0 <= i < self@.len() ==> #[trigger] self@[i].is_masked_towards(unmasked@[i], player)
    }

    fn mask(&mut self) {
        let ghost o = *self;
        let mut i: usize = 0;
        while i < self.len()
            invariant
                i <= self@.len(),
                self@.len() == o@.len(),
                forall|j: int| 0 <= j < i ==> #[trigger] self@[j].is_masked_of(o@[j]),
                forall|j: int| i <= j < self@.len() ==> #[trigger] self@[j] == o@[j],
            decreases self@.len() - i,
        {
            self[i].mask();
            i = i + 1;
        }
    }

    fn mask_towards(&mut self, player: CorePlayer) {
        let ghost o = *self;
        let mut i: usize = 0;
        while i < self.len()
            invariant
                i <= self@.len(),
                self@.len() == o@.len(),
                forall|j: int| 0 <= j < i ==> #[trigger] self@[j].is_masked_towards(o@[j], player),
                forall|j: int| i <= j < self@.len() ==> #[trigger] self@[j] == o@[j],
            decreases self@.len() - i,
        {
            self[i].mask_towards(player);
            i = i + 1;
        }
    }
}

/// The rule by which a game message is masked for a player.
pub trait GameMessage {
    /// Whether `player` is to get the masked copy of the message.
    spec fn hidden_from(&self, player: CorePlayer) -> bool;

    /// Whether `player` is to get the masked copy of the message.
    fn should_mask(&self, player: CorePlayer) -> (r: bool)
        ensures
            r == self.hidden_from(player),
    ;

    /// Whether the engine waits for an answer after the message.
    spec fn awaits_answer(&self) -> bool;

    /// Whether the engine waits for an answer after the message.
    fn waiting_for_answer(&self) -> (r: bool)
        ensures
            r == self.awaits_answer(),
    ;
}

/// The codes of `codes`, each with its number cleared.
fn masked_codes(codes: &Vec<CardCode>) -> (r: Vec<CardCode>)
    ensures
        r.is_masked_of(*codes),
{
    let mut out: Vec<CardCode> = Vec::new();
    let mut i: usize = 0;
    while i < codes.len()
        invariant
            i <= codes@.len(),
            out@.len() == i,
            forall|j: int| 0 <= j < i ==> #[trigger] out@[j].is_masked_of(codes@[j]),
        decreases codes@.len() - i,
    {
        out.push(codes[i].clone_masked());
        i = i + 1;
    }
    out
}

/// A player draws cards; the opponent does not see which.
#[derive(Clone, Debug)]
pub struct Draw {
    pub player: CorePlayer,
    pub codes: Vec<CardCode>,
}

impl Draw {
    /// The type of this message.
    pub fn message_type() -> (r: MessageType)
        ensures
            r == MessageType::Draw,
    {
        MessageType::Draw
    }

    /// The message as plain values.
    pub open spec fn view(&self) -> (CorePlayer, Seq<CardCode>) {
        (self.player, self.codes@)
    }

    /// `s` followed by the wire bytes of the message body: the player, the number of
    /// codes, the codes.
    pub open spec fn bytes_after(self, s: Seq<u8>) -> Seq<u8> {
        s.push(self.player.code()).push(self.codes@.len() as u8) + codes_bytes(self.codes@)
    }

    /// The wire bytes of the message body.
    pub open spec fn bytes(self) -> Seq<u8> {
        self.bytes_after(Seq::empty())
    }

    /// How the bytes `d` read as the message body.
    pub open spec fn parse(d: Seq<u8>) -> Result<(CorePlayer, Seq<CardCode>), ReadError> {
        if d.len() < 1 {
            Err(ReadError::UnexpectedEnd)
        } else {
            match CorePlayer::of_code(d[0]) {
                None => Err(ReadError::NoVariantMatch),
                Some(player) => if d.len() < 2 || d.len() < 2 + 4 * d[1] {
                    Err(ReadError::UnexpectedEnd)
                } else {
                    Ok((player, codes_at(d, 2, d[1] as nat)))
                },
            }
        }
    }

    /// Append the wire bytes of the message body.
    pub fn write(&self, out: &mut Vec<u8>)
        ensures
            final(out)@ == self.bytes_after(old(out)@),
    {
        out.push(self.player.value());
        out.push(self.codes.len() as u8);
        write_codes(out, &self.codes);
    }

    /// The wire bytes of the message body.
    pub fn to_bytes(&self) -> (r: Vec<u8>)
        ensures
            r@ == self.bytes(),
    {
        let mut out: Vec<u8> = Vec::new();
        self.write(&mut out);
        out
    }

    /// Read the message body from the bytes `d` (bytes after it are left).
    pub fn read(d: &[u8]) -> (r: Result<Draw, ReadError>)
        ensures
            match r {
                Ok(m) => Draw::parse(d@) == Ok::<(CorePlayer, Seq<CardCode>), ReadError>(m.view()),
                Err(e) => Draw::parse(d@) == Err::<(CorePlayer, Seq<CardCode>), ReadError>(e),
            },
    {
        if d.len() < 1 {
            return Err(ReadError::UnexpectedEnd);
        }
        let player = match CorePlayer::from_value(d[0]) {
            Some(x) => x,
            None => return Err(ReadError::NoVariantMatch),
        };
        if d.len() < 2 || d.len() - 2 < 4 * (d[1] as usize) {
            return Err(ReadError::UnexpectedEnd);
        }
        let codes = read_codes(d, 2, d[1] as usize);
        Ok(Draw { player, codes })
    }

    /// The body written and read back is the same message, when it has at most 255
    /// codes (the count is one byte).
    pub proof fn lemma_round_trip(self)
        requires
            self.codes@.len() <= 255,
        ensures
            Draw::parse(self.bytes()) == Ok::<(CorePlayer, Seq<CardCode>), ReadError>(self.view()),
            self.bytes().len() == 2 + 4 * self.codes@.len(),
    {
        let p = Seq::<u8>::empty().push(self.player.code()).push(self.codes@.len() as u8);
        lemma_codes_round_trip(p, self.codes@);
        lemma_codes_bytes_len(self.codes@);
        assert(self.bytes()[0] == p[0] && self.bytes()[1] == p[1]);
    }
}

impl Mask for Draw {
    /// The codes are masked; the player stays.
    open spec fn is_masked_of(self, unmasked: Draw) -> bool {
        self.player == unmasked.player && self.codes.is_masked_of(unmasked.codes)
    }

    /// The same as masking for everyone.
    open spec fn is_masked_towards(self, unmasked: Draw, player: CorePlayer) -> bool {
        self.is_masked_of(unmasked)
    }

    fn mask(&mut self) {
        self.codes.mask();
    }

    fn mask_towards(&mut self, player: CorePlayer) {
        self.mask();
    }
}

impl MaskedClone for Draw {
    fn clone_masked(&self) -> (r: Draw) {
        Draw { player: self.player, codes: masked_codes(&self.codes) }
    }
}

impl GameMessage for Draw {
    /// Everyone but the drawing player.
    open spec fn hidden_from(&self, player: CorePlayer) -> bool {
        self.player != player
    }

    fn should_mask(&self, player: CorePlayer) -> (r: bool) {
        self.player != player
    }

    /// It is no prompt: nothing is awaited.
    open spec fn awaits_answer(&self) -> bool {
        false
    }

    fn waiting_for_answer(&self) -> (r: bool) {
        false
    }
}

/// A player's hand is shuffled: the codes in their new order, hidden from the opponent.
#[derive(Clone, Debug)]
pub struct ShuffleHand {
    pub player: CorePlayer,
    pub count: u8,
    pub codes: Vec<CardCode>,
}

impl ShuffleHand {
    /// The type of this message.
    pub fn message_type() -> (r: MessageType)
        ensures
            r == MessageType::ShuffleHand,
    {
        MessageType::ShuffleHand
    }

    /// The message as plain values.
    pub open spec fn view(&self) -> (CorePlayer, u8, Seq<CardCode>) {
        (self.player, self.count, self.codes@)
    }

    /// `s` followed by the wire bytes of the message body: the player, the count, the
    /// codes.
    pub open spec fn bytes_after(self, s: Seq<u8>) -> Seq<u8> {
        s.push(self.player.code()).push(self.count) + codes_bytes(self.codes@)
    }

    /// The wire bytes of the message body.
    pub open spec fn bytes(self) -> Seq<u8> {
        self.bytes_after(Seq::empty())
    }

    /// How the bytes `d` read as the message body: the count says how many codes follow.
    pub open spec fn parse(d: Seq<u8>) -> Result<(CorePlayer, u8, Seq<CardCode>), ReadError> {
        if d.len() < 1 {
            Err(ReadError::UnexpectedEnd)
        } else {
            match CorePlayer::of_code(d[0]) {
                None => Err(ReadError::NoVariantMatch),
                Some(player) => if d.len() < 2 || d.len() < 2 + 4 * d[1] {
                    Err(ReadError::UnexpectedEnd)
                } else {
                    Ok((player, d[1], codes_at(d, 2, d[1] as nat)))
                },
            }
        }
    }

    /// Append the wire bytes of the message body.
    pub fn write(&self, out: &mut Vec<u8>)
        ensures
            final(out)@ == self.bytes_after(old(out)@),
    {
        out.push(self.player.value());
        out.push(self.count);
        write_codes(out, &self.codes);
    }

    /// The wire bytes of the message body.
    pub fn to_bytes(&self) -> (r: Vec<u8>)
        ensures
            r@ == self.bytes(),
    {
        let mut out: Vec<u8> = Vec::new();
        self.write(&mut out);
        out
    }

    /// Read the message body from the bytes `d` (bytes after it are left).
    pub fn read(d: &[u8]) -> (r: Result<ShuffleHand, ReadError>)
        ensures
            match r {
                Ok(m) => ShuffleHand::parse(d@) == Ok::<(CorePlayer, u8, Seq<CardCode>), ReadError>(m.view()),
                Err(e) => ShuffleHand::parse(d@) == Err::<(CorePlayer, u8, Seq<CardCode>), ReadError>(e),
            },
    {
        if d.len() < 1 {
            return Err(ReadError::UnexpectedEnd);
        }
        let player = match CorePlayer::from_value(d[0]) {
            Some(x) => x,
            None => return Err(ReadError::NoVariantMatch),
        };
        if d.len() < 2 || d.len() - 2 < 4 * (d[1] as usize) {
            return Err(ReadError::UnexpectedEnd);
        }
        let count = d[1];
        let codes = read_codes(d, 2, count as usize);
        Ok(ShuffleHand { player, count, codes })
    }

    /// The body written and read back is the same message, when the count is the
    /// number of codes.
    pub proof fn lemma_round_trip(self)
        requires
            self.codes@.len() == self.count,
        ensures
            ShuffleHand::parse(self.bytes()) == Ok::<(CorePlayer, u8, Seq<CardCode>), ReadError>(self.view()),
            self.bytes().len() == 2 + 4 * self.codes@.len(),
    {
        let p = Seq::<u8>::empty().push(self.player.code()).push(self.count);
        lemma_codes_round_trip(p, self.codes@);
        lemma_codes_bytes_len(self.codes@);
        assert(self.bytes()[0] == p[0] && self.bytes()[1] == p[1]);
    }
}

impl Mask for ShuffleHand {
    /// The codes are masked; the player and the count stay.
    open spec fn is_masked_of(self, unmasked: ShuffleHand) -> bool {
        self.player == unmasked.player && self.count == unmasked.count && self.codes.is_masked_of(
            unmasked.codes,
        )
    }

    /// The same as masking for everyone.
    open spec fn is_masked_towards(self, unmasked: ShuffleHand, player: CorePlayer) -> bool {
        self.is_masked_of(unmasked)
    }

    fn mask(&mut self) {
        self.codes.mask();
    }

    fn mask_towards(&mut self, player: CorePlayer) {
        self.mask();
    }
}

impl MaskedClone for ShuffleHand {
    fn clone_masked(&self) -> (r: ShuffleHand) {
        ShuffleHand { player: self.player, count: self.count, codes: masked_codes(&self.codes) }
    }
}

impl GameMessage for ShuffleHand {
    /// Everyone but the player whose cards are shuffled.
    open spec fn hidden_from(&self, player: CorePlayer) -> bool {
        self.player != player
    }

    fn should_mask(&self, player: CorePlayer) -> (r: bool) {
        self.player != player
    }

    /// It is no prompt: nothing is awaited.
    open spec fn awaits_answer(&self) -> bool {
        false
    }

    fn waiting_for_answer(&self) -> (r: bool) {
        false
    }
}

/// A player's extra deck is shuffled: the codes in their new order, hidden from the opponent.
#[derive(Clone, Debug)]
pub struct ShuffleExtra {
    pub player: CorePlayer,
    pub count: u8,
    pub codes: Vec<CardCode>,
}

impl ShuffleExtra {
    /// The type of this message.
    pub fn message_type() -> (r: MessageType)
        ensures
            r == MessageType::ShuffleExtra,
    {
        MessageType::ShuffleExtra
    }

    /// The message as plain values.
    pub open spec fn view(&self) -> (CorePlayer, u8, Seq<CardCode>) {
        (self.player, self.count, self.codes@)
    }

    /// `s` followed by the wire bytes of the message body: the player, the count, the
    /// codes.
    pub open spec fn bytes_after(self, s: Seq<u8>) -> Seq<u8> {
        s.push(self.player.code()).push(self.count) + codes_bytes(self.codes@)
    }

    /// The wire bytes of the message body.
    pub open spec fn bytes(self) -> Seq<u8> {
        self.bytes_after(Seq::empty())
    }

    /// How the bytes `d` read as the message body: the count says how many codes follow.
    pub open spec fn parse(d: Seq<u8>) -> Result<(CorePlayer, u8, Seq<CardCode>), ReadError> {
        if d.len() < 1 {
            Err(ReadError::UnexpectedEnd)
        } else {
            match CorePlayer::of_code(d[0]) {
                None => Err(ReadError::NoVariantMatch),
                Some(player) => if d.len() < 2 || d.len() < 2 + 4 * d[1] {
                    Err(ReadError::UnexpectedEnd)
                } else {
                    Ok((player, d[1], codes_at(d, 2, d[1] as nat)))
                },
            }
        }
    }

    /// Append the wire bytes of the message body.
    pub fn write(&self, out: &mut Vec<u8>)
        ensures
            final(out)@ == self.bytes_after(old(out)@),
    {
        out.push(self.player.value());
        out.push(self.count);
        write_codes(out, &self.codes);
    }

    /// The wire bytes of the message body.
    pub fn to_bytes(&self) -> (r: Vec<u8>)
        ensures
            r@ == self.bytes(),
    {
        let mut out: Vec<u8> = Vec::new();
        self.write(&mut out);
        out
    }

    /// Read the message body from the bytes `d` (bytes after it are left).
    pub fn read(d: &[u8]) -> (r: Result<ShuffleExtra, ReadError>)
        ensures
            match r {
                Ok(m) => ShuffleExtra::parse(d@) == Ok::<(CorePlayer, u8, Seq<CardCode>), ReadError>(m.view()),
                Err(e) => ShuffleExtra::parse(d@) == Err::<(CorePlayer, u8, Seq<CardCode>), ReadError>(e),
            },
    {
        if d.len() < 1 {
            return Err(ReadError::UnexpectedEnd);
        }
        let player = match CorePlayer::from_value(d[0]) {
            Some(x) => x,
            None => return Err(ReadError::NoVariantMatch),
        };
        if d.len() < 2 || d.len() - 2 < 4 * (d[1] as usize) {
            return Err(ReadError::UnexpectedEnd);
        }
        let count = d[1];
        let codes = read_codes(d, 2, count as usize);
        Ok(ShuffleExtra { player, count, codes })
    }

    /// The body written and read back is the same message, when the count is the
    /// number of codes.
    pub proof fn lemma_round_trip(self)
        requires
            self.codes@.len() == self.count,
        ensures
            ShuffleExtra::parse(self.bytes()) == Ok::<(CorePlayer, u8, Seq<CardCode>), ReadError>(self.view()),
            self.bytes().len() == 2 + 4 * self.codes@.len(),
    {
        let p = Seq::<u8>::empty().push(self.player.code()).push(self.count);
        lemma_codes_round_trip(p, self.codes@);
        lemma_codes_bytes_len(self.codes@);
        assert(self.bytes()[0] == p[0] && self.bytes()[1] == p[1]);
    }
}

impl Mask for ShuffleExtra {
    /// The codes are masked; the player and the count stay.
    open spec fn is_masked_of(self, unmasked: ShuffleExtra) -> bool {
        self.player == unmasked.player && self.count == unmasked.count && self.codes.is_masked_of(
            unmasked.codes,
        )
    }

    /// The same as masking for everyone.
    open spec fn is_masked_towards(self, unmasked: ShuffleExtra, player: CorePlayer) -> bool {
        self.is_masked_of(unmasked)
    }

    fn mask(&mut self) {
        self.codes.mask();
    }

    fn mask_towards(&mut self, player: CorePlayer) {
        self.mask();
    }
}

impl MaskedClone for ShuffleExtra {
    fn clone_masked(&self) -> (r: ShuffleExtra) {
        ShuffleExtra { player: self.player, count: self.count, codes: masked_codes(&self.codes) }
    }
}

impl GameMessage for ShuffleExtra {
    /// Everyone but the player whose cards are shuffled.
    open spec fn hidden_from(&self, player: CorePlayer) -> bool {
        self.player != player
    }

    fn should_mask(&self, player: CorePlayer) -> (r: bool) {
        self.player != player
    }

    /// It is no prompt: nothing is awaited.
    open spec fn awaits_answer(&self) -> bool {
        false
    }

    fn waiting_for_answer(&self) -> (r: bool) {
        false
    }
}

} // verus!
