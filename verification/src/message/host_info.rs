//! The settings of a room.
use vstd::prelude::*;

use crate::bytes::{
    lemma_push16, lemma_push32, push16, push32, put_u16, put_u32, read_u16, read_u32, u16_at,
    u32_at, ReadError,
};
use crate::constants::{MasterRule, Mode, Rule};

verus! {

/// The settings of a room, as a join answer carries them.
/// 
/// On the wire it takes 20 bytes: three padding bytes follow the two flags; a flag
/// reads as set for any byte but 0.
#[derive(Clone, Copy, Debug, PartialEq, Eq, Structural)]
pub struct HostInfo {
    /// The hash of the banlist in force.
    pub lflist: u32,
    /// Which cards may be used.
    pub rule: Rule,
    /// Single, match or tag duel.
    pub mode: Mode,
    /// The master rule the duel is played under.
    pub duel_rule: MasterRule,
    /// Whether decks go unchecked.
    pub no_check_deck: bool,
    /// Whether decks stay unshuffled.
    pub no_shuffle_deck: bool,
    /// The life points each player starts with.
    pub start_lp: u32,
    /// The cards each player draws at the start.
    pub start_hand: u8,
    /// The cards drawn each turn.
    pub draw_count: u8,
    /// The time each player has, in seconds.
    pub time_limit: u16,
}

impl HostInfo {
    /// The number of bytes of the message body.
    pub open spec fn size() -> nat {
        20
    }

    /// `s` followed by the wire bytes of the message body.
    pub open spec fn bytes_after(self, s: Seq<u8>) -> Seq<u8> {
        push16(push32(push32(s, self.lflist).push(self.rule.code()).push(self.mode.code()).push(self.duel_rule.code()).push(if self.no_check_deck { 1u8 } else { 0u8 }).push(if self.no_shuffle_deck { 1u8 } else { 0u8 }).push(0u8).push(0u8).push(0u8), self.start_lp).push(self.start_hand).push(self.draw_count), self.time_limit)
    }

    /// The wire bytes of the message body.
    pub open spec fn bytes(self) -> Seq<u8> {
        self.bytes_after(Seq::empty())
    }

    /// How the bytes `d` read as the message body.
    pub open spec fn parse(d: Seq<u8>) -> Result<HostInfo, ReadError> {
        if d.len() < 4 {
            Err(ReadError::UnexpectedEnd)
        } else {
            let lflist = u32_at(d, 0);
            if d.len() < 5 {
                Err(ReadError::UnexpectedEnd)
            } else {
                match Rule::of_code(d[4]) {
                    None => Err(ReadError::NoVariantMatch),
                    Some(rule) => {
                        if d.len() < 6 {
                            Err(ReadError::UnexpectedEnd)
                        } else {
                            match Mode::of_code(d[5]) {
                                None => Err(ReadError::NoVariantMatch),
                                Some(mode) => {
                                    if d.len() < 7 {
                                        Err(ReadError::UnexpectedEnd)
                                    } else {
                                        match MasterRule::of_code(d[6]) {
                                            None => Err(ReadError::NoVariantMatch),
                                            Some(duel_rule) => {
                                                if d.len() < 8 {
                                                    Err(ReadError::UnexpectedEnd)
                                                } else {
                                                    let no_check_deck = d[7] > 0;
                                                    if d.len() < 9 {
                                                        Err(ReadError::UnexpectedEnd)
                                                    } else {
                                                        let no_shuffle_deck = d[8] > 0;
                                                        if d.len() < 16 {
                                                            Err(ReadError::UnexpectedEnd)
                                                        } else {
                                                            let start_lp = u32_at(d, 12);
                                                            if d.len() < 17 {
                                                                Err(ReadError::UnexpectedEnd)
                                                            } else {
                                                                let start_hand = d[16];
                                                                if d.len() < 18 {
                                                                    Err(ReadError::UnexpectedEnd)
                                                                } else {
                                                                    let draw_count = d[17];
                                                                    if d.len() < 20 {
                                                                        Err(ReadError::UnexpectedEnd)
                                                                    } else {
                                                                        let time_limit = u16_at(d, 18);
                                                                        Ok(HostInfo { lflist: lflist, rule: rule, mode: mode, duel_rule: duel_rule, no_check_deck: no_check_deck, no_shuffle_deck: no_shuffle_deck, start_lp: start_lp, start_hand: start_hand, draw_count: draw_count, time_limit: time_limit })
                                                                    }
                                                                }
                                                            }
                                                        }
                                                    }
                                                }
                                                },
                                            }
                                    }
                                    },
                                }
                        }
                        },
                    }
            }
        }
    }

    /// Append the wire bytes of the message body.
    pub fn write(&self, out: &mut Vec<u8>)
        ensures
            final(out)@ == self.bytes_after(old(out)@),
    {
        put_u32(out, self.lflist);
        out.push(self.rule.value());
        out.push(self.mode.value());
        out.push(self.duel_rule.value());
        out.push(if self.no_check_deck { 1u8 } else { 0u8 });
        out.push(if self.no_shuffle_deck { 1u8 } else { 0u8 });
        out.push(0u8);
        out.push(0u8);
        out.push(0u8);
        put_u32(out, self.start_lp);
        out.push(self.start_hand);
        out.push(self.draw_count);
        put_u16(out, self.time_limit);
    }

    /// The wire bytes of the message body.
    pub fn to_bytes(&self) -> (r: Vec<u8>)
        ensures
            r@ == self.bytes(),
    {
        let mut out: Vec<u8> = Vec::new();
        self.write(&mut out);
        out
    }

    /// Read the message body from the bytes `d` (bytes after it are left).
    pub fn read(d: &[u8]) -> (r: Result<HostInfo, ReadError>)
        ensures
            r == HostInfo::parse(d@),
    {
        if d.len() < 4 {
            return Err(ReadError::UnexpectedEnd);
        }
        let lflist = read_u32(d, 0);
        if d.len() < 5 {
            return Err(ReadError::UnexpectedEnd);
        }
        let rule = match Rule::try_from_u8(d[4]) {
            Some(x) => x,
            None => return Err(ReadError::NoVariantMatch),
        };
        if d.len() < 6 {
            return Err(ReadError::UnexpectedEnd);
        }
        let mode = match Mode::from_value(d[5]) {
            Some(x) => x,
            None => return Err(ReadError::NoVariantMatch),
        };
        if d.len() < 7 {
            return Err(ReadError::UnexpectedEnd);
        }
        let duel_rule = match MasterRule::from_value(d[6]) {
            Some(x) => x,
            None => return Err(ReadError::NoVariantMatch),
        };
        if d.len() < 8 {
            return Err(ReadError::UnexpectedEnd);
        }
        let no_check_deck = d[7] > 0;
        if d.len() < 9 {
            return Err(ReadError::UnexpectedEnd);
        }
        let no_shuffle_deck = d[8] > 0;
        if d.len() < 16 {
            return Err(ReadError::UnexpectedEnd);
        }
        let start_lp = read_u32(d, 12);
        if d.len() < 17 {
            return Err(ReadError::UnexpectedEnd);
        }
        let start_hand = d[16];
        if d.len() < 18 {
            return Err(ReadError::UnexpectedEnd);
        }
        let draw_count = d[17];
        if d.len() < 20 {
            return Err(ReadError::UnexpectedEnd);
        }
        let time_limit = read_u16(d, 18);
        Ok(HostInfo { lflist: lflist, rule: rule, mode: mode, duel_rule: duel_rule, no_check_deck: no_check_deck, no_shuffle_deck: no_shuffle_deck, start_lp: start_lp, start_hand: start_hand, draw_count: draw_count, time_limit: time_limit })
    }

    /// The body written and read back is the same message.
    pub proof fn lemma_round_trip(self)
        ensures
            HostInfo::parse(self.bytes()) == Ok::<HostInfo, ReadError>(self),
            self.bytes().len() == HostInfo::size(),
    {
        let s0 = Seq::<u8>::empty();
        let s1 = push32(s0, self.lflist);
        lemma_push32(s0, self.lflist);
        let s2 = s1.push(self.rule.code());
        let s3 = s2.push(self.mode.code());
        let s4 = s3.push(self.duel_rule.code());
        let s5 = s4.push(if self.no_check_deck { 1u8 } else { 0u8 });
        let s6 = s5.push(if self.no_shuffle_deck { 1u8 } else { 0u8 });
        let s7 = s6.push(0u8).push(0u8).push(0u8);
        let s8 = push32(s7, self.start_lp);
        lemma_push32(s7, self.start_lp);
        let s9 = s8.push(self.start_hand);
        let s10 = s9.push(self.draw_count);
        let s11 = push16(s10, self.time_limit);
        lemma_push16(s10, self.time_limit);
        let b = s11;
        assert(b == self.bytes());
        assert(b.subrange(0, s1.len() as int) =~= s1);
        assert(b[0] == s1[0] && b[1] == s1[1] && b[2] == s1[2] && b[3] == s1[3]);
        assert(b.subrange(0, s8.len() as int) =~= s8);
        assert(b[12] == s8[12] && b[13] == s8[13] && b[14] == s8[14] && b[15] == s8[15]);
        assert(b.subrange(0, s11.len() as int) =~= s11);
        assert(b[18] == s11[18] && b[19] == s11[19]);
    }
}

impl Default for HostInfo {
    /// The settings of a new room: no banlist, OCG cards, a match under the 2020 master
    /// rule, checked and shuffled decks, 8000 life points, a hand of 5, 1 card drawn a
    /// turn and 180 seconds.
    fn default() -> (r: HostInfo)
        ensures
            r == (HostInfo {
                lflist: 0,
                rule: Rule::OCG,
                mode: Mode::Match,
                duel_rule: MasterRule::MasterRule2020,
                no_check_deck: false,
                no_shuffle_deck: false,
                start_lp: 8000,
                start_hand: 5,
                draw_count: 1,
                time_limit: 180,
            }),
    {
        HostInfo {
            lflist: 0,
            rule: Rule::OCG,
            mode: Mode::Match,
            duel_rule: MasterRule::MasterRule2020,
            no_check_deck: false,
            no_shuffle_deck: false,
            start_lp: 8000,
            start_hand: 5,
            draw_count: 1,
            time_limit: 180,
        }
    }
}

} // verus!
