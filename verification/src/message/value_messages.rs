//! Game messages that carry plain values: lists of numbers, a hand pair, raw bytes.
//! Nothing in them is hidden from anyone.
use vstd::prelude::*;

use crate::bytes::{le32, lemma_i32_round_trip, lemma_i8_round_trip, lemma_le32, put_u32, read_u32, u32_at, ReadError};
use crate::constants::{CorePlayer, Hand, MasterRule};
use crate::message::card_codes::{GameMessage, Mask, MaskedClone};
use crate::message::game_message::MessageType;

verus! {

/// The bytes of a run of 32-bit numbers, four for each, low byte first.
pub open spec fn i32s_bytes(v: Seq<i32>) -> Seq<u8>
    decreases v.len(),
{
    if v.len() == 0 {
        Seq::empty()
    } else {
        i32s_bytes(v.drop_last()) + le32(v.last() as u32)
    }
}

/// The `n` 32-bit numbers laid out from `i` on.
pub open spec fn i32s_at(d: Seq<u8>, i: int, n: nat) -> Seq<i32> {
    Seq::new(n, |k: int| u32_at(d, i + 4 * k) as i32)
}

/// A run of 32-bit numbers takes four bytes for each.
pub proof fn lemma_i32s_bytes_len(v: Seq<i32>)
    ensures
        i32s_bytes(v).len() == 4 * v.len(),
    decreases v.len(),
{
    if v.len() > 0 {
        lemma_i32s_bytes_len(v.drop_last());
    }
}

/// Numbers written after any prefix, and whatever follows, read back as the same numbers.
pub proof fn lemma_i32s_round_trip(p: Seq<u8>, v: Seq<i32>, q: Seq<u8>)
    ensures
        i32s_at(p + i32s_bytes(v) + q, p.len() as int, v.len()) == v,
    decreases v.len(),
{
    lemma_i32s_bytes_len(v);
    if v.len() > 0 {
        let init = v.drop_last();
        let x = v.last();
        let tail = le32(x as u32) + q;
        lemma_i32s_round_trip(p, init, tail);
        lemma_i32s_bytes_len(init);
        let d = p + i32s_bytes(v) + q;
        assert(d =~= p + i32s_bytes(init) + tail);
        let a = p + i32s_bytes(init);
        assert forall|k: int| 0 <= k < v.len() implies #[trigger] i32s_at(d, p.len() as int, v.len())[k] == v[k] by {
            if k < init.len() {
                assert(i32s_at(d, p.len() as int, init.len())[k] == init[k]);
            } else {
                lemma_le32(x as u32);
                lemma_i32_round_trip(x);
                let j = a.len() as int;
                assert(d[j] == le32(x as u32)[0] && d[j + 1] == le32(x as u32)[1] && d[j + 2] == le32(
                    x as u32,
                )[2] && d[j + 3] == le32(x as u32)[3]);
                assert(u32_at(d, j) == u32_at(le32(x as u32), 0));
            }
        }
        assert(i32s_at(d, p.len() as int, v.len()) =~= v);
    } else {
        assert(i32s_at(p + i32s_bytes(v) + q, p.len() as int, 0) =~= v);
    }
}

/// Append the bytes of a run of 32-bit numbers.
pub fn write_i32s(out: &mut Vec<u8>, v: &Vec<i32>)
    ensures
        final(out)@ == old(out)@ + i32s_bytes(v@),
{
    let ghost start = out@;
    let mut i: usize = 0;
    assert(v@.take(0) =~= Seq::<i32>::empty());
    assert(start + Seq::<u8>::empty() =~= start);
    while i < v.len()
        invariant
            i <= v@.len(),
            out@ == start + i32s_bytes(v@.take(i as int)),
        decreases v@.len() - i,
    {
        assert(v@.take(i + 1).drop_last() =~= v@.take(i as int));
        put_u32(out, v[i] as u32);
        i = i + 1;
        assert(out@ =~= start + i32s_bytes(v@.take(i as int)));
    }
    assert(v@.take(i as int) =~= v@);
}

/// Read `n` 32-bit numbers laid out from `i` on.
pub fn read_i32s(d: &[u8], i: usize, n: usize) -> (r: Vec<i32>)
    requires
        i + 4 * n <= d@.len(),
    ensures
        r@ == i32s_at(d@, i as int, n as nat),
{
    let mut out: Vec<i32> = Vec::new();
    let len = d.len();
    let mut k: usize = 0;
    while k < n
        invariant
            k <= n,
            i + 4 * n <= d@.len(),
            d@.len() <= usize::MAX,
            out@ == i32s_at(d@, i as int, k as nat),
        decreases n - k,
    {
        let v = read_u32(d, i + 4 * k);
        out.push(v as i32);
        k = k + 1;
        assert(out@ =~= i32s_at(d@, i as int, k as nat));
    }
    out
}

/// A copy of a run of numbers.
fn copy_i32s(v: &Vec<i32>) -> (r: Vec<i32>)
    ensures
        r@ == v@,
{
    let mut out: Vec<i32> = Vec::new();
    let mut i: usize = 0;
    while i < v.len()
        invariant
            i <= v@.len(),
            out@ == v@.take(i as int),
        decreases v@.len() - i,
    {
        out.push(v[i]);
        i = i + 1;
        assert(out@ =~= v@.take(i as int));
    }
    assert(v@.take(i as int) =~= v@);
    out
}

/// The bytes of a run of signed bytes.
pub open spec fn i8s_bytes(v: Seq<i8>) -> Seq<u8> {
    v.map_values(|x: i8| x as u8)
}

/// The `n` signed bytes from `i` on.
pub open spec fn i8s_at(d: Seq<u8>, i: int, n: nat) -> Seq<i8> {
    Seq::new(n, |k: int| d[i + k] as i8)
}

/// Signed bytes written after any prefix, and whatever follows, read back as the same.
pub proof fn lemma_i8s_round_trip(p: Seq<u8>, v: Seq<i8>, q: Seq<u8>)
    ensures
        i8s_at(p + i8s_bytes(v) + q, p.len() as int, v.len()) == v,
        i8s_bytes(v).len() == v.len(),
{
    let d = p + i8s_bytes(v) + q;
    assert forall|k: int| 0 <= k < v.len() implies #[trigger] i8s_at(d, p.len() as int, v.len())[k] == v[k] by {
        assert(d[p.len() + k] == v[k] as u8);
        lemma_i8_round_trip(v[k]);
    }
    assert(i8s_at(d, p.len() as int, v.len()) =~= v);
}

/// Append the bytes of a run of signed bytes.
pub fn write_i8s(out: &mut Vec<u8>, v: &Vec<i8>)
    ensures
        final(out)@ == old(out)@ + i8s_bytes(v@),
{
    let ghost start = out@;
    let mut i: usize = 0;
    while i < v.len()
        invariant
            i <= v@.len(),
            out@ == start + i8s_bytes(v@.take(i as int)),
        decreases v@.len() - i,
    {
        out.push(v[i] as u8);
        i = i + 1;
        assert(out@ =~= start + i8s_bytes(v@.take(i as int)));
    }
    assert(v@.take(i as int) =~= v@);
}

/// Read `n` signed bytes from `i` on.
pub fn read_i8s(d: &[u8], i: usize, n: usize) -> (r: Vec<i8>)
    requires
        i + n <= d@.len(),
    ensures
        r@ == i8s_at(d@, i as int, n as nat),
{
    let mut out: Vec<i8> = Vec::new();
    let len = d.len();
    let mut k: usize = 0;
    while k < n
        invariant
            k <= n,
            i + n <= d@.len(),
            d@.len() <= usize::MAX,
            out@ == i8s_at(d@, i as int, k as nat),
        decreases n - k,
    {
        out.push(d[i + k] as i8);
        k = k + 1;
        assert(out@ =~= i8s_at(d@, i as int, k as nat));
    }
    out
}

/// A copy of a run of signed bytes.
fn copy_i8s(v: &Vec<i8>) -> (r: Vec<i8>)
    ensures
        r@ == v@,
{
    let mut out: Vec<i8> = Vec::new();
    let mut i: usize = 0;
    while i < v.len()
        invariant
            i <= v@.len(),
            out@ == v@.take(i as int),
        decreases v@.len() - i,
    {
        out.push(v[i]);
        i = i + 1;
        assert(out@ =~= v@.take(i as int));
    }
    assert(v@.take(i as int) =~= v@);
    out
}

/// A copy of a run of bytes.
fn copy_bytes(v: &[u8], from: usize) -> (r: Vec<u8>)
    requires
        from <= v@.len(),
    ensures
        r@ == v@.skip(from as int),
{
    let mut out: Vec<u8> = Vec::new();
    let mut i: usize = from;
    while i < v.len()
        invariant
            from <= i <= v@.len(),
            out@ == v@.subrange(from as int, i as int),
        decreases v@.len() - i,
    {
        out.push(v[i]);
        i = i + 1;
        assert(out@ =~= v@.subrange(from as int, i as int));
    }
    assert(v@.subrange(from as int, i as int) =~= v@.skip(from as int));
    out
}

/// The engine asks a player to pick one of the options (effect descriptions).
#[derive(Clone, Debug)]
pub struct SelectOption {
    pub selecting_player: CorePlayer,
    pub options: Vec<i32>,
}

impl SelectOption {
    /// The type of this message.
    pub fn message_type() -> (r: MessageType)
        ensures
            r == MessageType::SelectOption,
    {
        MessageType::SelectOption
    }

    /// The message as plain values.
    pub open spec fn view(&self) -> (CorePlayer, Seq<i32>) {
        (self.selecting_player, self.options@)
    }

    /// `s` followed by the wire bytes of the message body: the player, the number of
    /// values, the values.
    pub open spec fn bytes_after(self, s: Seq<u8>) -> Seq<u8> {
        s.push(self.selecting_player.code()).push(self.options@.len() as u8) + i32s_bytes(self.options@)
    }

    /// The wire bytes of the message body.
    pub open spec fn bytes(self) -> Seq<u8> {
        self.bytes_after(Seq::empty())
    }

    /// How the bytes `d` read as the message body.
    pub open spec fn parse(d: Seq<u8>) -> Result<(CorePlayer, Seq<i32>), ReadError> {
        if d.len() < 1 {
            Err(ReadError::UnexpectedEnd)
        } else {
            match CorePlayer::of_code(d[0]) {
                None => Err(ReadError::NoVariantMatch),
                Some(player) => if d.len() < 2 || d.len() < 2 + 4 * d[1] {
                    Err(ReadError::UnexpectedEnd)
                } else {
                    Ok((player, i32s_at(d, 2, d[1] as nat)))
                },
            }
        }
    }

    /// Append the wire bytes of the message body.
    pub fn write(&self, out: &mut Vec<u8>)
        ensures
            final(out)@ == self.bytes_after(old(out)@),
    {
        out.push(self.selecting_player.value());
        out.push(self.options.len() as u8);
        write_i32s(out, &self.options);
    }

    /// The wire bytes of the message body.
    pub fn to_bytes(&self) -> (r: Vec<u8>)
        ensures
            r@ == self.bytes(),
    {
        let mut out: Vec<u8> = Vec::new();
        self.write(&mut out);
        out
    }

    /// Read the message body from the bytes `d` (bytes after it are left).
    pub fn read(d: &[u8]) -> (r: Result<SelectOption, ReadError>)
        ensures
            match r {
                Ok(m) => SelectOption::parse(d@) == Ok::<(CorePlayer, Seq<i32>), ReadError>(m.view()),
                Err(e) => SelectOption::parse(d@) == Err::<(CorePlayer, Seq<i32>), ReadError>(e),
            },
    {
        if d.len() < 1 {
            return Err(ReadError::UnexpectedEnd);
        }
        let player = match CorePlayer::from_value(d[0]) {
            Some(x) => x,
            None => return Err(ReadError::NoVariantMatch),
        };
        if d.len() < 2 || d.len() - 2 < 4 * (d[1] as usize) {
            return Err(ReadError::UnexpectedEnd);
        }
        let options = read_i32s(d, 2, d[1] as usize);
        Ok(SelectOption { selecting_player: player, options })
    }

    /// The body written and read back is the same message, when it has at most 255
    /// values (the count is one byte).
    pub proof fn lemma_round_trip(self)
        requires
            self.options@.len() <= 255,
        ensures
            SelectOption::parse(self.bytes()) == Ok::<(CorePlayer, Seq<i32>), ReadError>(self.view()),
            self.bytes().len() == 2 + 4 * self.options@.len(),
    {
        let p = Seq::<u8>::empty().push(self.selecting_player.code()).push(self.options@.len() as u8);
        lemma_i32s_round_trip(p, self.options@, Seq::empty());
        lemma_i32s_bytes_len(self.options@);
        assert(p + i32s_bytes(self.options@) + Seq::<u8>::empty() =~= self.bytes());
        assert(self.bytes()[0] == p[0] && self.bytes()[1] == p[1]);
    }
}

impl Mask for SelectOption {
    /// Nothing of the message is hidden.
    open spec fn is_masked_of(self, unmasked: SelectOption) -> bool {
        self.view() == unmasked.view()
    }

    /// Nothing of the message is hidden.
    open spec fn is_masked_towards(self, unmasked: SelectOption, player: CorePlayer) -> bool {
        self.view() == unmasked.view()
    }

    fn mask(&mut self) {
    }

    fn mask_towards(&mut self, player: CorePlayer) {
    }
}

impl MaskedClone for SelectOption {
    fn clone_masked(&self) -> (r: SelectOption) {
        SelectOption { selecting_player: self.selecting_player, options: copy_i32s(&self.options) }
    }
}

impl GameMessage for SelectOption {
    /// Hidden from no one.
    open spec fn hidden_from(&self, player: CorePlayer) -> bool {
        false
    }

    fn should_mask(&self, player: CorePlayer) -> (r: bool) {
        false
    }

    /// As the message's type says (see `awaits_answer` of a type).
    open spec fn awaits_answer(&self) -> bool {
        crate::single_duel::awaits_answer(MessageType::SelectOption)
    }

    fn waiting_for_answer(&self) -> (r: bool) {
        crate::single_duel::is_prompt(MessageType::SelectOption)
    }
}

/// Cards on top of a player's deck are shown: their codes.
#[derive(Clone, Debug)]
pub struct ConfirmDecktop {
    pub controller: CorePlayer,
    pub codes: Vec<i32>,
}

impl ConfirmDecktop {
    /// The type of this message.
    pub fn message_type() -> (r: MessageType)
        ensures
            r == MessageType::ConfirmDecktop,
    {
        MessageType::ConfirmDecktop
    }

    /// The message as plain values.
    pub open spec fn view(&self) -> (CorePlayer, Seq<i32>) {
        (self.controller, self.codes@)
    }

    /// `s` followed by the wire bytes of the message body: the player, the number of
    /// values, the values.
    pub open spec fn bytes_after(self, s: Seq<u8>) -> Seq<u8> {
        s.push(self.controller.code()).push(self.codes@.len() as u8) + i32s_bytes(self.codes@)
    }

    /// The wire bytes of the message body.
    pub open spec fn bytes(self) -> Seq<u8> {
        self.bytes_after(Seq::empty())
    }

    /// How the bytes `d` read as the message body.
    pub open spec fn parse(d: Seq<u8>) -> Result<(CorePlayer, Seq<i32>), ReadError> {
        if d.len() < 1 {
            Err(ReadError::UnexpectedEnd)
        } else {
            match CorePlayer::of_code(d[0]) {
                None => Err(ReadError::NoVariantMatch),
                Some(player) => if d.len() < 2 || d.len() < 2 + 4 * d[1] {
                    Err(ReadError::UnexpectedEnd)
                } else {
                    Ok((player, i32s_at(d, 2, d[1] as nat)))
                },
            }
        }
    }

    /// Append the wire bytes of the message body.
    pub fn write(&self, out: &mut Vec<u8>)
        ensures
            final(out)@ == self.bytes_after(old(out)@),
    {
        out.push(self.controller.value());
        out.push(self.codes.len() as u8);
        write_i32s(out, &self.codes);
    }

    /// The wire bytes of the message body.
    pub fn to_bytes(&self) -> (r: Vec<u8>)
        ensures
            r@ == self.bytes(),
    {
        let mut out: Vec<u8> = Vec::new();
        self.write(&mut out);
        out
    }

    /// Read the message body from the bytes `d` (bytes after it are left).
    pub fn read(d: &[u8]) -> (r: Result<ConfirmDecktop, ReadError>)
        ensures
            match r {
                Ok(m) => ConfirmDecktop::parse(d@) == Ok::<(CorePlayer, Seq<i32>), ReadError>(m.view()),
                Err(e) => ConfirmDecktop::parse(d@) == Err::<(CorePlayer, Seq<i32>), ReadError>(e),
            },
    {
        if d.len() < 1 {
            return Err(ReadError::UnexpectedEnd);
        }
        let player = match CorePlayer::from_value(d[0]) {
            Some(x) => x,
            None => return Err(ReadError::NoVariantMatch),
        };
        if d.len() < 2 || d.len() - 2 < 4 * (d[1] as usize) {
            return Err(ReadError::UnexpectedEnd);
        }
        let codes = read_i32s(d, 2, d[1] as usize);
        Ok(ConfirmDecktop { controller: player, codes })
    }

    /// The body written and read back is the same message, when it has at most 255
    /// values (the count is one byte).
    pub proof fn lemma_round_trip(self)
        requires
            self.codes@.len() <= 255,
        ensures
            ConfirmDecktop::parse(self.bytes()) == Ok::<(CorePlayer, Seq<i32>), ReadError>(self.view()),
            self.bytes().len() == 2 + 4 * self.codes@.len(),
    {
        let p = Seq::<u8>::empty().push(self.controller.code()).push(self.codes@.len() as u8);
        lemma_i32s_round_trip(p, self.codes@, Seq::empty());
        lemma_i32s_bytes_len(self.codes@);
        assert(p + i32s_bytes(self.codes@) + Seq::<u8>::empty() =~= self.bytes());
        assert(self.bytes()[0] == p[0] && self.bytes()[1] == p[1]);
    }
}

impl Mask for ConfirmDecktop {
    /// Nothing of the message is hidden.
    open spec fn is_masked_of(self, unmasked: ConfirmDecktop) -> bool {
        self.view() == unmasked.view()
    }

    /// Nothing of the message is hidden.
    open spec fn is_masked_towards(self, unmasked: ConfirmDecktop, player: CorePlayer) -> bool {
        self.view() == unmasked.view()
    }

    fn mask(&mut self) {
    }

    fn mask_towards(&mut self, player: CorePlayer) {
    }
}

impl MaskedClone for ConfirmDecktop {
    fn clone_masked(&self) -> (r: ConfirmDecktop) {
        ConfirmDecktop { controller: self.controller, codes: copy_i32s(&self.codes) }
    }
}

impl GameMessage for ConfirmDecktop {
    /// Hidden from no one.
    open spec fn hidden_from(&self, player: CorePlayer) -> bool {
        false
    }

    fn should_mask(&self, player: CorePlayer) -> (r: bool) {
        false
    }

    /// As the message's type says (see `awaits_answer` of a type).
    open spec fn awaits_answer(&self) -> bool {
        crate::single_duel::awaits_answer(MessageType::ConfirmDecktop)
    }

    fn waiting_for_answer(&self) -> (r: bool) {
        crate::single_duel::is_prompt(MessageType::ConfirmDecktop)
    }
}

/// Cards on top of a player's extra deck are shown: their codes.
#[derive(Clone, Debug)]
pub struct ConfirmExtraTop {
    pub player: CorePlayer,
    pub selectable_cards: Vec<i32>,
}

impl ConfirmExtraTop {
    /// The type of this message.
    pub fn message_type() -> (r: MessageType)
        ensures
            r == MessageType::ConfirmExtraTop,
    {
        MessageType::ConfirmExtraTop
    }

    /// The message as plain values.
    pub open spec fn view(&self) -> (CorePlayer, Seq<i32>) {
        (self.player, self.selectable_cards@)
    }

    /// `s` followed by the wire bytes of the message body: the player, the number of
    /// values, the values.
    pub open spec fn bytes_after(self, s: Seq<u8>) -> Seq<u8> {
        s.push(self.player.code()).push(self.selectable_cards@.len() as u8) + i32s_bytes(self.selectable_cards@)
    }

    /// The wire bytes of the message body.
    pub open spec fn bytes(self) -> Seq<u8> {
        self.bytes_after(Seq::empty())
    }

    /// How the bytes `d` read as the message body.
    pub open spec fn parse(d: Seq<u8>) -> Result<(CorePlayer, Seq<i32>), ReadError> {
        if d.len() < 1 {
            Err(ReadError::UnexpectedEnd)
        } else {
            match CorePlayer::of_code(d[0]) {
                None => Err(ReadError::NoVariantMatch),
                Some(player) => if d.len() < 2 || d.len() < 2 + 4 * d[1] {
                    Err(ReadError::UnexpectedEnd)
                } else {
                    Ok((player, i32s_at(d, 2, d[1] as nat)))
                },
            }
        }
    }

    /// Append the wire bytes of the message body.
    pub fn write(&self, out: &mut Vec<u8>)
        ensures
            final(out)@ == self.bytes_after(old(out)@),
    {
        out.push(self.player.value());
        out.push(self.selectable_cards.len() as u8);
        write_i32s(out, &self.selectable_cards);
    }

    /// The wire bytes of the message body.
    pub fn to_bytes(&self) -> (r: Vec<u8>)
        ensures
            r@ == self.bytes(),
    {
        let mut out: Vec<u8> = Vec::new();
        self.write(&mut out);
        out
    }

    /// Read the message body from the bytes `d` (bytes after it are left).
    pub fn read(d: &[u8]) -> (r: Result<ConfirmExtraTop, ReadError>)
        ensures
            match r {
                Ok(m) => ConfirmExtraTop::parse(d@) == Ok::<(CorePlayer, Seq<i32>), ReadError>(m.view()),
                Err(e) => ConfirmExtraTop::parse(d@) == Err::<(CorePlayer, Seq<i32>), ReadError>(e),
            },
    {
        if d.len() < 1 {
            return Err(ReadError::UnexpectedEnd);
        }
        let player = match CorePlayer::from_value(d[0]) {
            Some(x) => x,
            None => return Err(ReadError::NoVariantMatch),
        };
        if d.len() < 2 || d.len() - 2 < 4 * (d[1] as usize) {
            return Err(ReadError::UnexpectedEnd);
        }
        let selectable_cards = read_i32s(d, 2, d[1] as usize);
        Ok(ConfirmExtraTop { player: player, selectable_cards })
    }

    /// The body written and read back is the same message, when it has at most 255
    /// values (the count is one byte).
    pub proof fn lemma_round_trip(self)
        requires
            self.selectable_cards@.len() <= 255,
        ensures
            ConfirmExtraTop::parse(self.bytes()) == Ok::<(CorePlayer, Seq<i32>), ReadError>(self.view()),
            self.bytes().len() == 2 + 4 * self.selectable_cards@.len(),
    {
        let p = Seq::<u8>::empty().push(self.player.code()).push(self.selectable_cards@.len() as u8);
        lemma_i32s_round_trip(p, self.selectable_cards@, Seq::empty());
        lemma_i32s_bytes_len(self.selectable_cards@);
        assert(p + i32s_bytes(self.selectable_cards@) + Seq::<u8>::empty() =~= self.bytes());
        assert(self.bytes()[0] == p[0] && self.bytes()[1] == p[1]);
    }
}

impl Mask for ConfirmExtraTop {
    /// Nothing of the message is hidden.
    open spec fn is_masked_of(self, unmasked: ConfirmExtraTop) -> bool {
        self.view() == unmasked.view()
    }

    /// Nothing of the message is hidden.
    open spec fn is_masked_towards(self, unmasked: ConfirmExtraTop, player: CorePlayer) -> bool {
        self.view() == unmasked.view()
    }

    fn mask(&mut self) {
    }

    fn mask_towards(&mut self, player: CorePlayer) {
    }
}

impl MaskedClone for ConfirmExtraTop {
    fn clone_masked(&self) -> (r: ConfirmExtraTop) {
        ConfirmExtraTop { player: self.player, selectable_cards: copy_i32s(&self.selectable_cards) }
    }
}

impl GameMessage for ConfirmExtraTop {
    /// Hidden from no one.
    open spec fn hidden_from(&self, player: CorePlayer) -> bool {
        false
    }

    fn should_mask(&self, player: CorePlayer) -> (r: bool) {
        false
    }

    /// As the message's type says (see `awaits_answer` of a type).
    open spec fn awaits_answer(&self) -> bool {
        crate::single_duel::awaits_answer(MessageType::ConfirmExtraTop)
    }

    fn waiting_for_answer(&self) -> (r: bool) {
        crate::single_duel::is_prompt(MessageType::ConfirmExtraTop)
    }
}

/// The engine asks a player to declare a card: the conditions it must meet.
#[derive(Clone, Debug)]
pub struct AnnounceCard {
    pub player: CorePlayer,
    pub value: Vec<i32>,
}

impl AnnounceCard {
    /// The type of this message.
    pub fn message_type() -> (r: MessageType)
        ensures
            r == MessageType::AnnounceCard,
    {
        MessageType::AnnounceCard
    }

    /// The message as plain values.
    pub open spec fn view(&self) -> (CorePlayer, Seq<i32>) {
        (self.player, self.value@)
    }

    /// `s` followed by the wire bytes of the message body: the player, the number of
    /// values, the values.
    pub open spec fn bytes_after(self, s: Seq<u8>) -> Seq<u8> {
        s.push(self.player.code()).push(self.value@.len() as u8) + i32s_bytes(self.value@)
    }

    /// The wire bytes of the message body.
    pub open spec fn bytes(self) -> Seq<u8> {
        self.bytes_after(Seq::empty())
    }

    /// How the bytes `d` read as the message body.
    pub open spec fn parse(d: Seq<u8>) -> Result<(CorePlayer, Seq<i32>), ReadError> {
        if d.len() < 1 {
            Err(ReadError::UnexpectedEnd)
        } else {
            match CorePlayer::of_code(d[0]) {
                None => Err(ReadError::NoVariantMatch),
                Some(player) => if d.len() < 2 || d.len() < 2 + 4 * d[1] {
                    Err(ReadError::UnexpectedEnd)
                } else {
                    Ok((player, i32s_at(d, 2, d[1] as nat)))
                },
            }
        }
    }

    /// Append the wire bytes of the message body.
    pub fn write(&self, out: &mut Vec<u8>)
        ensures
            final(out)@ == self.bytes_after(old(out)@),
    {
        out.push(self.player.value());
        out.push(self.value.len() as u8);
        write_i32s(out, &self.value);
    }

    /// The wire bytes of the message body.
    pub fn to_bytes(&self) -> (r: Vec<u8>)
        ensures
            r@ == self.bytes(),
    {
        let mut out: Vec<u8> = Vec::new();
        self.write(&mut out);
        out
    }

    /// Read the message body from the bytes `d` (bytes after it are left).
    pub fn read(d: &[u8]) -> (r: Result<AnnounceCard, ReadError>)
        ensures
            match r {
                Ok(m) => AnnounceCard::parse(d@) == Ok::<(CorePlayer, Seq<i32>), ReadError>(m.view()),
                Err(e) => AnnounceCard::parse(d@) == Err::<(CorePlayer, Seq<i32>), ReadError>(e),
            },
    {
        if d.len() < 1 {
            return Err(ReadError::UnexpectedEnd);
        }
        let player = match CorePlayer::from_value(d[0]) {
            Some(x) => x,
            None => return Err(ReadError::NoVariantMatch),
        };
        if d.len() < 2 || d.len() - 2 < 4 * (d[1] as usize) {
            return Err(ReadError::UnexpectedEnd);
        }
        let value = read_i32s(d, 2, d[1] as usize);
        Ok(AnnounceCard { player: player, value })
    }

    /// The body written and read back is the same message, when it has at most 255
    /// values (the count is one byte).
    pub proof fn lemma_round_trip(self)
        requires
            self.value@.len() <= 255,
        ensures
            AnnounceCard::parse(self.bytes()) == Ok::<(CorePlayer, Seq<i32>), ReadError>(self.view()),
            self.bytes().len() == 2 + 4 * self.value@.len(),
    {
        let p = Seq::<u8>::empty().push(self.player.code()).push(self.value@.len() as u8);
        lemma_i32s_round_trip(p, self.value@, Seq::empty());
        lemma_i32s_bytes_len(self.value@);
        assert(p + i32s_bytes(self.value@) + Seq::<u8>::empty() =~= self.bytes());
        assert(self.bytes()[0] == p[0] && self.bytes()[1] == p[1]);
    }
}

impl Mask for AnnounceCard {
    /// Nothing of the message is hidden.
    open spec fn is_masked_of(self, unmasked: AnnounceCard) -> bool {
        self.view() == unmasked.view()
    }

    /// Nothing of the message is hidden.
    open spec fn is_masked_towards(self, unmasked: AnnounceCard, player: CorePlayer) -> bool {
        self.view() == unmasked.view()
    }

    fn mask(&mut self) {
    }

    fn mask_towards(&mut self, player: CorePlayer) {
    }
}

impl MaskedClone for AnnounceCard {
    fn clone_masked(&self) -> (r: AnnounceCard) {
        AnnounceCard { player: self.player, value: copy_i32s(&self.value) }
    }
}

impl GameMessage for AnnounceCard {
    /// Hidden from no one.
    open spec fn hidden_from(&self, player: CorePlayer) -> bool {
        false
    }

    fn should_mask(&self, player: CorePlayer) -> (r: bool) {
        false
    }

    /// As the message's type says (see `awaits_answer` of a type).
    open spec fn awaits_answer(&self) -> bool {
        crate::single_duel::awaits_answer(MessageType::AnnounceCard)
    }

    fn waiting_for_answer(&self) -> (r: bool) {
        crate::single_duel::is_prompt(MessageType::AnnounceCard)
    }
}

/// The engine asks a player to declare a number: the numbers allowed.
#[derive(Clone, Debug)]
pub struct AnnounceNumber {
    pub player: CorePlayer,
    pub value: Vec<i32>,
}

impl AnnounceNumber {
    /// The type of this message.
    pub fn message_type() -> (r: MessageType)
        ensures
            r == MessageType::AnnounceNumber,
    {
        MessageType::AnnounceNumber
    }

    /// The message as plain values.
    pub open spec fn view(&self) -> (CorePlayer, Seq<i32>) {
        (self.player, self.value@)
    }

    /// `s` followed by the wire bytes of the message body: the player, the number of
    /// values, the values.
    pub open spec fn bytes_after(self, s: Seq<u8>) -> Seq<u8> {
        s.push(self.player.code()).push(self.value@.len() as u8) + i32s_bytes(self.value@)
    }

    /// The wire bytes of the message body.
    pub open spec fn bytes(self) -> Seq<u8> {
        self.bytes_after(Seq::empty())
    }

    /// How the bytes `d` read as the message body.
    pub open spec fn parse(d: Seq<u8>) -> Result<(CorePlayer, Seq<i32>), ReadError> {
        if d.len() < 1 {
            Err(ReadError::UnexpectedEnd)
        } else {
            match CorePlayer::of_code(d[0]) {
                None => Err(ReadError::NoVariantMatch),
                Some(player) => if d.len() < 2 || d.len() < 2 + 4 * d[1] {
                    Err(ReadError::UnexpectedEnd)
                } else {
                    Ok((player, i32s_at(d, 2, d[1] as nat)))
                },
            }
        }
    }

    /// Append the wire bytes of the message body.
    pub fn write(&self, out: &mut Vec<u8>)
        ensures
            final(out)@ == self.bytes_after(old(out)@),
    {
        out.push(self.player.value());
        out.push(self.value.len() as u8);
        write_i32s(out, &self.value);
    }

    /// The wire bytes of the message body.
    pub fn to_bytes(&self) -> (r: Vec<u8>)
        ensures
            r@ == self.bytes(),
    {
        let mut out: Vec<u8> = Vec::new();
        self.write(&mut out);
        out
    }

    /// Read the message body from the bytes `d` (bytes after it are left).
    pub fn read(d: &[u8]) -> (r: Result<AnnounceNumber, ReadError>)
        ensures
            match r {
                Ok(m) => AnnounceNumber::parse(d@) == Ok::<(CorePlayer, Seq<i32>), ReadError>(m.view()),
                Err(e) => AnnounceNumber::parse(d@) == Err::<(CorePlayer, Seq<i32>), ReadError>(e),
            },
    {
        if d.len() < 1 {
            return Err(ReadError::UnexpectedEnd);
        }
        let player = match CorePlayer::from_value(d[0]) {
            Some(x) => x,
            None => return Err(ReadError::NoVariantMatch),
        };
        if d.len() < 2 || d.len() - 2 < 4 * (d[1] as usize) {
            return Err(ReadError::UnexpectedEnd);
        }
        let value = read_i32s(d, 2, d[1] as usize);
        Ok(AnnounceNumber { player: player, value })
    }

    /// The body written and read back is the same message, when it has at most 255
    /// values (the count is one byte).
    pub proof fn lemma_round_trip(self)
        requires
            self.value@.len() <= 255,
        ensures
            AnnounceNumber::parse(self.bytes()) == Ok::<(CorePlayer, Seq<i32>), ReadError>(self.view()),
            self.bytes().len() == 2 + 4 * self.value@.len(),
    {
        let p = Seq::<u8>::empty().push(self.player.code()).push(self.value@.len() as u8);
        lemma_i32s_round_trip(p, self.value@, Seq::empty());
        lemma_i32s_bytes_len(self.value@);
        assert(p + i32s_bytes(self.value@) + Seq::<u8>::empty() =~= self.bytes());
        assert(self.bytes()[0] == p[0] && self.bytes()[1] == p[1]);
    }
}

impl Mask for AnnounceNumber {
    /// Nothing of the message is hidden.
    open spec fn is_masked_of(self, unmasked: AnnounceNumber) -> bool {
        self.view() == unmasked.view()
    }

    /// Nothing of the message is hidden.
    open spec fn is_masked_towards(self, unmasked: AnnounceNumber, player: CorePlayer) -> bool {
        self.view() == unmasked.view()
    }

    fn mask(&mut self) {
    }

    fn mask_towards(&mut self, player: CorePlayer) {
    }
}

impl MaskedClone for AnnounceNumber {
    fn clone_masked(&self) -> (r: AnnounceNumber) {
        AnnounceNumber { player: self.player, value: copy_i32s(&self.value) }
    }
}

impl GameMessage for AnnounceNumber {
    /// Hidden from no one.
    open spec fn hidden_from(&self, player: CorePlayer) -> bool {
        false
    }

    fn should_mask(&self, player: CorePlayer) -> (r: bool) {
        false
    }

    /// As the message's type says (see `awaits_answer` of a type).
    open spec fn awaits_answer(&self) -> bool {
        crate::single_duel::awaits_answer(MessageType::AnnounceNumber)
    }

    fn waiting_for_answer(&self) -> (r: bool) {
        crate::single_duel::is_prompt(MessageType::AnnounceNumber)
    }
}

/// A player tosses coins: the result of each.
#[derive(Clone, Debug)]
pub struct TossCoin {
    pub player: CorePlayer,
    pub result: Vec<i8>,
}

impl TossCoin {
    /// The type of this message.
    pub fn message_type() -> (r: MessageType)
        ensures
            r == MessageType::TossCoin,
    {
        MessageType::TossCoin
    }

    /// The message as plain values.
    pub open spec fn view(&self) -> (CorePlayer, Seq<i8>) {
        (self.player, self.result@)
    }

    /// `s` followed by the wire bytes of the message body: the player, the number of
    /// values, the values.
    pub open spec fn bytes_after(self, s: Seq<u8>) -> Seq<u8> {
        s.push(self.player.code()).push(self.result@.len() as u8) + i8s_bytes(self.result@)
    }

    /// The wire bytes of the message body.
    pub open spec fn bytes(self) -> Seq<u8> {
        self.bytes_after(Seq::empty())
    }

    /// How the bytes `d` read as the message body.
    pub open spec fn parse(d: Seq<u8>) -> Result<(CorePlayer, Seq<i8>), ReadError> {
        if d.len() < 1 {
            Err(ReadError::UnexpectedEnd)
        } else {
            match CorePlayer::of_code(d[0]) {
                None => Err(ReadError::NoVariantMatch),
                Some(player) => if d.len() < 2 || d.len() < 2 + d[1] {
                    Err(ReadError::UnexpectedEnd)
                } else {
                    Ok((player, i8s_at(d, 2, d[1] as nat)))
                },
            }
        }
    }

    /// Append the wire bytes of the message body.
    pub fn write(&self, out: &mut Vec<u8>)
        ensures
            final(out)@ == self.bytes_after(old(out)@),
    {
        out.push(self.player.value());
        out.push(self.result.len() as u8);
        write_i8s(out, &self.result);
    }

    /// The wire bytes of the message body.
    pub fn to_bytes(&self) -> (r: Vec<u8>)
        ensures
            r@ == self.bytes(),
    {
        let mut out: Vec<u8> = Vec::new();
        self.write(&mut out);
        out
    }

    /// Read the message body from the bytes `d` (bytes after it are left).
    pub fn read(d: &[u8]) -> (r: Result<TossCoin, ReadError>)
        ensures
            match r {
                Ok(m) => TossCoin::parse(d@) == Ok::<(CorePlayer, Seq<i8>), ReadError>(m.view()),
                Err(e) => TossCoin::parse(d@) == Err::<(CorePlayer, Seq<i8>), ReadError>(e),
            },
    {
        if d.len() < 1 {
            return Err(ReadError::UnexpectedEnd);
        }
        let player = match CorePlayer::from_value(d[0]) {
            Some(x) => x,
            None => return Err(ReadError::NoVariantMatch),
        };
        if d.len() < 2 || d.len() - 2 < (d[1] as usize) {
            return Err(ReadError::UnexpectedEnd);
        }
        let result = read_i8s(d, 2, d[1] as usize);
        Ok(TossCoin { player: player, result })
    }

    /// The body written and read back is the same message, when it has at most 255
    /// values (the count is one byte).
    pub proof fn lemma_round_trip(self)
        requires
            self.result@.len() <= 255,
        ensures
            TossCoin::parse(self.bytes()) == Ok::<(CorePlayer, Seq<i8>), ReadError>(self.view()),
            self.bytes().len() == 2 + self.result@.len(),
    {
        let p = Seq::<u8>::empty().push(self.player.code()).push(self.result@.len() as u8);
        lemma_i8s_round_trip(p, self.result@, Seq::empty());
        assert(p + i8s_bytes(self.result@) + Seq::<u8>::empty() =~= self.bytes());
        assert(self.bytes()[0] == p[0] && self.bytes()[1] == p[1]);
    }
}

impl Mask for TossCoin {
    /// Nothing of the message is hidden.
    open spec fn is_masked_of(self, unmasked: TossCoin) -> bool {
        self.view() == unmasked.view()
    }

    /// Nothing of the message is hidden.
    open spec fn is_masked_towards(self, unmasked: TossCoin, player: CorePlayer) -> bool {
        self.view() == unmasked.view()
    }

    fn mask(&mut self) {
    }

    fn mask_towards(&mut self, player: CorePlayer) {
    }
}

impl MaskedClone for TossCoin {
    fn clone_masked(&self) -> (r: TossCoin) {
        TossCoin { player: self.player, result: copy_i8s(&self.result) }
    }
}

impl GameMessage for TossCoin {
    /// Hidden from no one.
    open spec fn hidden_from(&self, player: CorePlayer) -> bool {
        false
    }

    fn should_mask(&self, player: CorePlayer) -> (r: bool) {
        false
    }

    /// As the message's type says (see `awaits_answer` of a type).
    open spec fn awaits_answer(&self) -> bool {
        crate::single_duel::awaits_answer(MessageType::TossCoin)
    }

    fn waiting_for_answer(&self) -> (r: bool) {
        crate::single_duel::is_prompt(MessageType::TossCoin)
    }
}

/// A player rolls dice: the result of each.
#[derive(Clone, Debug)]
pub struct TossDice {
    pub player: CorePlayer,
    pub result: Vec<i8>,
}

impl TossDice {
    /// The type of this message.
    pub fn message_type() -> (r: MessageType)
        ensures
            r == MessageType::TossDice,
    {
        MessageType::TossDice
    }

    /// The message as plain values.
    pub open spec fn view(&self) -> (CorePlayer, Seq<i8>) {
        (self.player, self.result@)
    }

    /// `s` followed by the wire bytes of the message body: the player, the number of
    /// values, the values.
    pub open spec fn bytes_after(self, s: Seq<u8>) -> Seq<u8> {
        s.push(self.player.code()).push(self.result@.len() as u8) + i8s_bytes(self.result@)
    }

    /// The wire bytes of the message body.
    pub open spec fn bytes(self) -> Seq<u8> {
        self.bytes_after(Seq::empty())
    }

    /// How the bytes `d` read as the message body.
    pub open spec fn parse(d: Seq<u8>) -> Result<(CorePlayer, Seq<i8>), ReadError> {
        if d.len() < 1 {
            Err(ReadError::UnexpectedEnd)
        } else {
            match CorePlayer::of_code(d[0]) {
                None => Err(ReadError::NoVariantMatch),
                Some(player) => if d.len() < 2 || d.len() < 2 + d[1] {
                    Err(ReadError::UnexpectedEnd)
                } else {
                    Ok((player, i8s_at(d, 2, d[1] as nat)))
                },
            }
        }
    }

    /// Append the wire bytes of the message body.
    pub fn write(&self, out: &mut Vec<u8>)
        ensures
            final(out)@ == self.bytes_after(old(out)@),
    {
        out.push(self.player.value());
        out.push(self.result.len() as u8);
        write_i8s(out, &self.result);
    }

    /// The wire bytes of the message body.
    pub fn to_bytes(&self) -> (r: Vec<u8>)
        ensures
            r@ == self.bytes(),
    {
        let mut out: Vec<u8> = Vec::new();
        self.write(&mut out);
        out
    }

    /// Read the message body from the bytes `d` (bytes after it are left).
    pub fn read(d: &[u8]) -> (r: Result<TossDice, ReadError>)
        ensures
            match r {
                Ok(m) => TossDice::parse(d@) == Ok::<(CorePlayer, Seq<i8>), ReadError>(m.view()),
                Err(e) => TossDice::parse(d@) == Err::<(CorePlayer, Seq<i8>), ReadError>(e),
            },
    {
        if d.len() < 1 {
            return Err(ReadError::UnexpectedEnd);
        }
        let player = match CorePlayer::from_value(d[0]) {
            Some(x) => x,
            None => return Err(ReadError::NoVariantMatch),
        };
        if d.len() < 2 || d.len() - 2 < (d[1] as usize) {
            return Err(ReadError::UnexpectedEnd);
        }
        let result = read_i8s(d, 2, d[1] as usize);
        Ok(TossDice { player: player, result })
    }

    /// The body written and read back is the same message, when it has at most 255
    /// values (the count is one byte).
    pub proof fn lemma_round_trip(self)
        requires
            self.result@.len() <= 255,
        ensures
            TossDice::parse(self.bytes()) == Ok::<(CorePlayer, Seq<i8>), ReadError>(self.view()),
            self.bytes().len() == 2 + self.result@.len(),
    {
        let p = Seq::<u8>::empty().push(self.player.code()).push(self.result@.len() as u8);
        lemma_i8s_round_trip(p, self.result@, Seq::empty());
        assert(p + i8s_bytes(self.result@) + Seq::<u8>::empty() =~= self.bytes());
        assert(self.bytes()[0] == p[0] && self.bytes()[1] == p[1]);
    }
}

impl Mask for TossDice {
    /// Nothing of the message is hidden.
    open spec fn is_masked_of(self, unmasked: TossDice) -> bool {
        self.view() == unmasked.view()
    }

    /// Nothing of the message is hidden.
    open spec fn is_masked_towards(self, unmasked: TossDice, player: CorePlayer) -> bool {
        self.view() == unmasked.view()
    }

    fn mask(&mut self) {
    }

    fn mask_towards(&mut self, player: CorePlayer) {
    }
}

impl MaskedClone for TossDice {
    fn clone_masked(&self) -> (r: TossDice) {
        TossDice { player: self.player, result: copy_i8s(&self.result) }
    }
}

impl GameMessage for TossDice {
    /// Hidden from no one.
    open spec fn hidden_from(&self, player: CorePlayer) -> bool {
        false
    }

    fn should_mask(&self, player: CorePlayer) -> (r: bool) {
        false
    }

    /// As the message's type says (see `awaits_answer` of a type).
    open spec fn awaits_answer(&self) -> bool {
        crate::single_duel::awaits_answer(MessageType::TossDice)
    }

    fn waiting_for_answer(&self) -> (r: bool) {
        crate::single_duel::is_prompt(MessageType::TossDice)
    }
}

/// The hands both players showed in rock-paper-scissors, packed in one byte: the
/// first player's in the low two bits, the second's in the next two.
#[derive(Clone, Copy, Debug, PartialEq, Eq, Structural)]
pub struct HandResult {
    pub hand0: Hand,
    pub hand1: Hand,
}

impl HandResult {
    /// The type of this message.
    pub fn message_type() -> (r: MessageType)
        ensures
            r == MessageType::HandResult,
    {
        MessageType::HandResult
    }

    /// The packed byte.
    pub open spec fn packed(self) -> u8 {
        self.hand0.code() | (self.hand1.code() << 2u8)
    }

    /// `s` followed by the wire bytes of the message body.
    pub open spec fn bytes_after(self, s: Seq<u8>) -> Seq<u8> {
        s.push(self.packed())
    }

    /// The wire bytes of the message body.
    pub open spec fn bytes(self) -> Seq<u8> {
        self.bytes_after(Seq::empty())
    }

    /// How the bytes `d` read as the message body: both two-bit fields must name a hand
    /// (the upper bits are not looked at).
    pub open spec fn parse(d: Seq<u8>) -> Result<HandResult, ReadError> {
        if d.len() < 1 {
            Err(ReadError::UnexpectedEnd)
        } else {
            match (Hand::of_code(d[0] & 3u8), Hand::of_code((d[0] >> 2u8) & 3u8)) {
                (Some(hand0), Some(hand1)) => Ok(HandResult { hand0, hand1 }),
                _ => Err(ReadError::NoVariantMatch),
            }
        }
    }

    /// Append the wire bytes of the message body.
    pub fn write(&self, out: &mut Vec<u8>)
        ensures
            final(out)@ == self.bytes_after(old(out)@),
    {
        let a = self.hand0.value();
        let b = self.hand1.value();
        out.push(a | (b << 2u8));
    }

    /// The wire bytes of the message body.
    pub fn to_bytes(&self) -> (r: Vec<u8>)
        ensures
            r@ == self.bytes(),
    {
        let mut out: Vec<u8> = Vec::new();
        self.write(&mut out);
        out
    }

    /// Read the message body from the bytes `d` (bytes after it are left).
    pub fn read(d: &[u8]) -> (r: Result<HandResult, ReadError>)
        ensures
            r == HandResult::parse(d@),
    {
        if d.len() < 1 {
            return Err(ReadError::UnexpectedEnd);
        }
        let v = d[0];
        match (Hand::from_value(v & 3u8), Hand::from_value((v >> 2u8) & 3u8)) {
            (Some(hand0), Some(hand1)) => Ok(HandResult { hand0, hand1 }),
            _ => Err(ReadError::NoVariantMatch),
        }
    }

    /// The body written and read back is the same message.
    pub proof fn lemma_round_trip(self)
        ensures
            HandResult::parse(self.bytes()) == Ok::<HandResult, ReadError>(self),
            self.bytes().len() == 1,
    {
        let a = self.hand0.code();
        let b = self.hand1.code();
        assert(1 <= a <= 3 && 1 <= b <= 3);
        assert(1 <= a <= 3 && 1 <= b <= 3 ==> ((a | (b << 2u8)) & 3u8) == a && (((a | (b << 2u8)) >> 2u8)
            & 3u8) == b) by (bit_vector);
        assert(self.bytes()[0] == self.packed());
    }
}

impl Mask for HandResult {
    /// Nothing of the message is hidden.
    open spec fn is_masked_of(self, unmasked: HandResult) -> bool {
        self == unmasked
    }

    /// Nothing of the message is hidden.
    open spec fn is_masked_towards(self, unmasked: HandResult, player: CorePlayer) -> bool {
        self == unmasked
    }

    fn mask(&mut self) {
    }

    fn mask_towards(&mut self, player: CorePlayer) {
    }
}

impl MaskedClone for HandResult {
    fn clone_masked(&self) -> (r: HandResult) {
        *self
    }
}

impl GameMessage for HandResult {
    /// Hidden from no one.
    open spec fn hidden_from(&self, player: CorePlayer) -> bool {
        false
    }

    fn should_mask(&self, player: CorePlayer) -> (r: bool) {
        false
    }

    /// As the message's type says (see `awaits_answer` of a type).
    open spec fn awaits_answer(&self) -> bool {
        crate::single_duel::awaits_answer(MessageType::HandResult)
    }

    fn waiting_for_answer(&self) -> (r: bool) {
        crate::single_duel::is_prompt(MessageType::HandResult)
    }
}

/// A message of a script's own: bytes to the end of the message.
#[derive(Clone, Debug)]
pub struct CustomMsg {
    pub data: Vec<u8>,
}

impl CustomMsg {
    /// The type of this message.
    pub fn message_type() -> (r: MessageType)
        ensures
            r == MessageType::CustomMsg,
    {
        MessageType::CustomMsg
    }

    /// The wire bytes of the message body: the data itself.
    pub open spec fn bytes(self) -> Seq<u8> {
        self.data@
    }

    /// Append the wire bytes of the message body.
    pub fn write(&self, out: &mut Vec<u8>)
        ensures
            final(out)@ == old(out)@ + self.bytes(),
    {
        let ghost start = out@;
        let mut i: usize = 0;
        while i < self.data.len()
            invariant
                i <= self.data@.len(),
                out@ == start + self.data@.take(i as int),
            decreases self.data@.len() - i,
        {
            out.push(self.data[i]);
            i = i + 1;
            assert(out@ =~= start + self.data@.take(i as int));
        }
        assert(self.data@.take(i as int) =~= self.data@);
    }

    /// The wire bytes of the message body.
    pub fn to_bytes(&self) -> (r: Vec<u8>)
        ensures
            r@ == self.bytes(),
    {
        let mut out: Vec<u8> = Vec::new();
        self.write(&mut out);
        assert(out@ =~= self.bytes());
        out
    }

    /// Read the message body: every byte of `d`.
    pub fn read(d: &[u8]) -> (r: CustomMsg)
        ensures
            r.data@ == d@,
    {
        let data = copy_bytes(d, 0);
        assert(d@.skip(0) =~= d@);
        CustomMsg { data }
    }
}

impl Mask for CustomMsg {
    /// Nothing of the message is hidden.
    open spec fn is_masked_of(self, unmasked: CustomMsg) -> bool {
        self.data@ == unmasked.data@
    }

    /// Nothing of the message is hidden.
    open spec fn is_masked_towards(self, unmasked: CustomMsg, player: CorePlayer) -> bool {
        self.data@ == unmasked.data@
    }

    fn mask(&mut self) {
    }

    fn mask_towards(&mut self, player: CorePlayer) {
    }
}

impl MaskedClone for CustomMsg {
    fn clone_masked(&self) -> (r: CustomMsg) {
        let data = copy_bytes(self.data.as_slice(), 0);
        assert(self.data@.skip(0) =~= self.data@);
        CustomMsg { data }
    }
}

impl GameMessage for CustomMsg {
    /// Hidden from no one.
    open spec fn hidden_from(&self, player: CorePlayer) -> bool {
        false
    }

    fn should_mask(&self, player: CorePlayer) -> (r: bool) {
        false
    }

    /// As the message's type says (see `awaits_answer` of a type).
    open spec fn awaits_answer(&self) -> bool {
        crate::single_duel::awaits_answer(MessageType::CustomMsg)
    }

    fn waiting_for_answer(&self) -> (r: bool) {
        crate::single_duel::is_prompt(MessageType::CustomMsg)
    }
}

/// The whole field, for a duelist who rejoins: the master rule, the first player's life
/// points, then the field's data to the end of the message.
#[derive(Clone, Debug)]
pub struct ReloadField {
    pub duel_rule: MasterRule,
    pub player1_lp: i32,
    pub data: Vec<u8>,
}

impl ReloadField {
    /// The type of this message.
    pub fn message_type() -> (r: MessageType)
        ensures
            r == MessageType::ReloadField,
    {
        MessageType::ReloadField
    }

    /// The message as plain values.
    pub open spec fn view(&self) -> (MasterRule, i32, Seq<u8>) {
        (self.duel_rule, self.player1_lp, self.data@)
    }

    /// The wire bytes of the message body: the rule, the life points, the data.
    pub open spec fn bytes(self) -> Seq<u8> {
        seq![self.duel_rule.code()] + le32(self.player1_lp as u32) + self.data@
    }

    /// How the bytes `d` read as the message body.
    pub open spec fn parse(d: Seq<u8>) -> Result<(MasterRule, i32, Seq<u8>), ReadError> {
        if d.len() < 1 {
            Err(ReadError::UnexpectedEnd)
        } else {
            match MasterRule::of_code(d[0]) {
                None => Err(ReadError::NoVariantMatch),
                Some(rule) => if d.len() < 5 {
                    Err(ReadError::UnexpectedEnd)
                } else {
                    Ok((rule, u32_at(d, 1) as i32, d.skip(5)))
                },
            }
        }
    }

    /// Append the wire bytes of the message body.
    pub fn write(&self, out: &mut Vec<u8>)
        ensures
            final(out)@ == old(out)@ + self.bytes(),
    {
        let ghost start = out@;
        out.push(self.duel_rule.value());
        put_u32(out, self.player1_lp as u32);
        let ghost head = out@;
        assert(head =~= start + seq![self.duel_rule.code()] + le32(self.player1_lp as u32));
        let mut i: usize = 0;
        while i < self.data.len()
            invariant
                i <= self.data@.len(),
                out@ == head + self.data@.take(i as int),
            decreases self.data@.len() - i,
        {
            out.push(self.data[i]);
            i = i + 1;
            assert(out@ =~= head + self.data@.take(i as int));
        }
        assert(self.data@.take(i as int) =~= self.data@);
        assert(out@ =~= old(out)@ + self.bytes());
    }

    /// The wire bytes of the message body.
    pub fn to_bytes(&self) -> (r: Vec<u8>)
        ensures
            r@ == self.bytes(),
    {
        let mut out: Vec<u8> = Vec::new();
        self.write(&mut out);
        assert(out@ =~= self.bytes());
        out
    }

    /// Read the message body from the bytes `d`.
    pub fn read(d: &[u8]) -> (r: Result<ReloadField, ReadError>)
        ensures
            match r {
                Ok(m) => ReloadField::parse(d@) == Ok::<(MasterRule, i32, Seq<u8>), ReadError>(m.view()),
                Err(e) => ReloadField::parse(d@) == Err::<(MasterRule, i32, Seq<u8>), ReadError>(e),
            },
    {
        if d.len() < 1 {
            return Err(ReadError::UnexpectedEnd);
        }
        let duel_rule = match MasterRule::from_value(d[0]) {
            Some(x) => x,
            None => return Err(ReadError::NoVariantMatch),
        };
        if d.len() < 5 {
            return Err(ReadError::UnexpectedEnd);
        }
        let player1_lp = read_u32(d, 1) as i32;
        let data = copy_bytes(d, 5);
        Ok(ReloadField { duel_rule, player1_lp, data })
    }

    /// The body written and read back is the same message.
    pub proof fn lemma_round_trip(self)
        ensures
            ReloadField::parse(self.bytes()) == Ok::<(MasterRule, i32, Seq<u8>), ReadError>(self.view()),
            self.bytes().len() == 5 + self.data@.len(),
    {
        let b = self.bytes();
        let v = self.player1_lp as u32;
        lemma_le32(v);
        lemma_i32_round_trip(self.player1_lp);
        assert(b[1] == le32(v)[0] && b[2] == le32(v)[1] && b[3] == le32(v)[2] && b[4] == le32(v)[3]);
        assert(u32_at(b, 1) == u32_at(le32(v), 0));
        assert(b.skip(5) =~= self.data@);
    }
}

impl Mask for ReloadField {
    /// Nothing of the message is hidden.
    open spec fn is_masked_of(self, unmasked: ReloadField) -> bool {
        self.view() == unmasked.view()
    }

    /// Nothing of the message is hidden.
    open spec fn is_masked_towards(self, unmasked: ReloadField, player: CorePlayer) -> bool {
        self.view() == unmasked.view()
    }

    fn mask(&mut self) {
    }

    fn mask_towards(&mut self, player: CorePlayer) {
    }
}

impl MaskedClone for ReloadField {
    fn clone_masked(&self) -> (r: ReloadField) {
        let data = copy_bytes(self.data.as_slice(), 0);
        assert(self.data@.skip(0) =~= self.data@);
        ReloadField { duel_rule: self.duel_rule, player1_lp: self.player1_lp, data }
    }
}

impl GameMessage for ReloadField {
    /// Hidden from no one.
    open spec fn hidden_from(&self, player: CorePlayer) -> bool {
        false
    }

    fn should_mask(&self, player: CorePlayer) -> (r: bool) {
        false
    }

    /// As the message's type says (see `awaits_answer` of a type).
    open spec fn awaits_answer(&self) -> bool {
        crate::single_duel::awaits_answer(MessageType::ReloadField)
    }

    fn waiting_for_answer(&self) -> (r: bool) {
        crate::single_duel::is_prompt(MessageType::ReloadField)
    }
}

} // verus!
