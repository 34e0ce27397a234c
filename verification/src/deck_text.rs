//! The text form of a deck (`.ydk`): one card code per line, `!side` before the side
//! deck, `#` comment lines.
use vstd::prelude::*;

use crate::deck::Deck;
use crate::text::{
    all_digits, chars_of, decimal, digits_value, is_digit, is_ws, join_lines, leading_digits,
    lemma_decimal, lemma_leading_digits, lemma_lines_of_join, lemma_trim_unchanged, lines_of,
    no_newline, parse_decimal, parse_unsigned, push_decimal, split_lines, string_from_chars, trim,
    trim_chars,
};

verus! {

/// The line that switches back to the main deck.
pub open spec fn main_marker() -> Seq<char> {
    seq!['#', 'm', 'a', 'i', 'n']
}

/// The line written before the extra deck (it reads as a comment).
pub open spec fn extra_marker() -> Seq<char> {
    seq!['#', 'e', 'x', 't', 'r', 'a']
}

/// The line written before the side deck.
pub open spec fn side_marker() -> Seq<char> {
    seq!['!', 's', 'i', 'd', 'e']
}

/// The first line of a written deck.
pub open spec fn header_line() -> Seq<char> {
    seq![
        '#', 'y', 'g', 'o', 'p', 'r', 'o', '-', 'r', 's', ' ', 'd', 'e', 'c', 'k', ' ', 'g', 'e',
        'n', 'e', 'r', 'a', 't', 'e', 'd',
    ]
}

/// The state of reading a deck: main codes, side codes, whether in the side deck.
pub type DeckReadState = (Seq<u32>, Seq<u32>, bool);

/// How one line changes the state: a blank line or a comment changes nothing, a line
/// starting with `!` starts the side deck, `#main` goes back to the main deck, and a
/// line starting with digits adds the code those digits spell (unless it does not
/// fit in 32 bits) to the current deck. The line is trimmed first.
pub open spec fn deck_line_step(st: DeckReadState, raw: Seq<char>) -> DeckReadState {
    let line = trim(raw);
    if line.len() == 0 {
        st
    } else if line[0] == '!' {
        (st.0, st.1, true)
    } else if line[0] == '#' {
        if line == main_marker() {
            (st.0, st.1, false)
        } else {
            st
        }
    } else if is_digit(line[0]) {
        match parse_unsigned(line.take(leading_digits(line) as int), 0xFFFF_FFFF) {
            Some(v) => if st.2 {
                (st.0, st.1.push(v as u32), true)
            } else {
                (st.0.push(v as u32), st.1, false)
            },
            None => st,
        }
    } else {
        st
    }
}

/// The state after reading `lines` from `st`.
pub open spec fn deck_fold(st: DeckReadState, lines: Seq<Seq<char>>) -> DeckReadState
    decreases lines.len(),
{
    if lines.len() == 0 {
        st
    } else {
        deck_line_step(deck_fold(st, lines.drop_last()), lines.last())
    }
}

/// The main and side codes a deck text holds.
pub open spec fn parse_deck_text(s: Seq<char>) -> (Seq<u32>, Seq<u32>) {
    let st = deck_fold((Seq::empty(), Seq::empty(), false), lines_of(s));
    (st.0, st.1)
}

/// One line per code.
pub open spec fn code_lines(codes: Seq<u32>) -> Seq<Seq<char>> {
    codes.map_values(|c: u32| decimal(c as nat))
}

/// The lines of a written deck: the header, `#main` and the main codes, then (when
/// there are extra cards) `#extra` and the extra codes, then `!side` and the side
/// codes.
pub open spec fn deck_lines(main: Seq<u32>, extra: Seq<u32>, side: Seq<u32>) -> Seq<Seq<char>> {
    seq![header_line(), main_marker()] + code_lines(main) + (if extra.len() > 0 {
        seq![extra_marker()] + code_lines(extra)
    } else {
        Seq::empty()
    }) + seq![side_marker()] + code_lines(side)
}

/// The text of a written deck.
pub open spec fn deck_text(main: Seq<u32>, extra: Seq<u32>, side: Seq<u32>) -> Seq<char> {
    join_lines(deck_lines(main, extra, side))
}

/// Reading lines one after the other.
pub proof fn lemma_deck_fold_append(st: DeckReadState, a: Seq<Seq<char>>, b: Seq<Seq<char>>)
    ensures
        deck_fold(st, a + b) == deck_fold(deck_fold(st, a), b),
    decreases b.len(),
{
    if b.len() == 0 {
        assert(a + b =~= a);
    } else {
        lemma_deck_fold_append(st, a, b.drop_last());
        assert((a + b).drop_last() =~= a + b.drop_last());
        assert((a + b).last() == b.last());
    }
}

/// A line that is a trimmed decimal number adds that number to the current deck.
pub proof fn lemma_code_line_step(st: DeckReadState, c: u32)
    ensures
        deck_line_step(st, decimal(c as nat)) == (if st.2 {
            (st.0, st.1.push(c), true)
        } else {
            (st.0.push(c), st.1, false)
        }),
{
    let d = decimal(c as nat);
    lemma_decimal(c as nat);
    lemma_trim_unchanged(d);
    assert(d.take(d.len() as int) =~= d);
    lemma_leading_digits(d, d.len() as int);
    assert(parse_unsigned(d, 0xFFFF_FFFF) == Some(c as nat));
}

/// Reading code lines adds the codes to the current deck.
pub proof fn lemma_fold_code_lines(st: DeckReadState, cs: Seq<u32>)
    ensures
        deck_fold(st, code_lines(cs)) == (if st.2 {
            (st.0, st.1 + cs, true)
        } else {
            (st.0 + cs, st.1, false)
        }),
    decreases cs.len(),
{
    if cs.len() == 0 {
        assert(st.0 + cs =~= st.0);
        assert(st.1 + cs =~= st.1);
    } else {
        let p = cs.drop_last();
        lemma_fold_code_lines(st, p);
        assert(code_lines(cs).drop_last() =~= code_lines(p));
        assert(code_lines(cs).last() == decimal(cs.last() as nat));
        let mid = deck_fold(st, code_lines(p));
        lemma_code_line_step(mid, cs.last());
        assert(st.0 + p.push(cs.last()) =~= st.0 + cs);
        assert(st.1 + p.push(cs.last()) =~= st.1 + cs);
        assert((st.0 + p).push(cs.last()) =~= st.0 + cs);
        assert((st.1 + p).push(cs.last()) =~= st.1 + cs);
    }
}

/// No line of a written deck holds a line feed.
proof fn lemma_deck_lines_no_newline(main: Seq<u32>, extra: Seq<u32>, side: Seq<u32>)
    ensures
        forall|i: int|
            0 <= i < deck_lines(main, extra, side).len() ==> no_newline(
                #[trigger] deck_lines(main, extra, side)[i],
            ),
{
    let l = deck_lines(main, extra, side);
    assert forall|i: int| 0 <= i < l.len() implies no_newline(#[trigger] l[i]) by {
        let x = l[i];
        if x != header_line() && x != main_marker() && x != extra_marker() && x != side_marker() {
            // every other line is the decimal form of a code
            let base = 2 + main.len();
            if i < base {
                lemma_decimal(main[i - 2] as nat);
                assert(x == decimal(main[i - 2] as nat));
            } else if extra.len() > 0 && i < base + 1 + extra.len() {
                lemma_decimal(extra[i - base - 1] as nat);
                assert(x == decimal(extra[i - base - 1] as nat));
            } else {
                let side_base = if extra.len() > 0 {
                    base + 1 + extra.len() + 1
                } else {
                    base + 1
                };
                lemma_decimal(side[i - side_base] as nat);
                assert(x == decimal(side[i - side_base] as nat));
            }
        }
    }
}

/// Reading back a written deck gives the main deck followed by the extra deck as the
/// main codes, and the side deck as the side codes (the `#extra` line reads as a
/// comment, so extra cards come back in the main deck, as in any deck text).
pub proof fn lemma_deck_text_round_trip(main: Seq<u32>, extra: Seq<u32>, side: Seq<u32>)
    ensures
        parse_deck_text(deck_text(main, extra, side)) == (main + extra, side),
{
    lemma_deck_lines_no_newline(main, extra, side);
    lemma_lines_of_join(deck_lines(main, extra, side));
    let e: Seq<u32> = Seq::empty();
    let st0: DeckReadState = (e, e, false);
    let head = seq![header_line(), main_marker()];
    lemma_trim_unchanged(header_line());
    lemma_trim_unchanged(main_marker());
    lemma_trim_unchanged(extra_marker());
    lemma_trim_unchanged(side_marker());
    assert(header_line() != main_marker()) by {
        assert(header_line().len() != main_marker().len());
    }
    assert(extra_marker() != main_marker()) by {
        assert(extra_marker().len() != main_marker().len());
    }
    assert(head.drop_last() =~= seq![header_line()]);
    assert(seq![header_line()].drop_last() =~= Seq::<Seq<char>>::empty());
    assert(header_line()[0] == '#');
    assert(deck_line_step(st0, header_line()) == st0);
    assert(deck_fold(st0, seq![header_line()]) == deck_line_step(
        deck_fold(st0, Seq::<Seq<char>>::empty()),
        header_line(),
    ));
    assert(deck_fold(st0, seq![header_line()]) == st0);
    assert(main_marker()[0] == '#');
    assert(deck_line_step(st0, main_marker()) == st0);
    assert(deck_fold(st0, head) == st0);
    lemma_fold_code_lines(st0, main);
    lemma_deck_fold_append(st0, head, code_lines(main));
    let st1: DeckReadState = (main, e, false);
    assert(e + main =~= main);
    assert(deck_fold(st0, head + code_lines(main)) == st1);
    let ext = if extra.len() > 0 {
        seq![extra_marker()] + code_lines(extra)
    } else {
        Seq::<Seq<char>>::empty()
    };
    let st2: DeckReadState = (main + extra, e, false);
    if extra.len() > 0 {
        assert(seq![extra_marker()].drop_last() =~= Seq::<Seq<char>>::empty());
        assert(extra_marker()[0] == '#');
        assert(deck_line_step(st1, extra_marker()) == st1);
        assert(deck_fold(st1, seq![extra_marker()]) == deck_line_step(
            deck_fold(st1, Seq::<Seq<char>>::empty()),
            extra_marker(),
        ));
        assert(deck_fold(st1, seq![extra_marker()]) == st1);
        lemma_fold_code_lines(st1, extra);
        lemma_deck_fold_append(st1, seq![extra_marker()], code_lines(extra));
    } else {
        assert(main + extra =~= main);
    }
    assert(deck_fold(st1, ext) == st2);
    let sidel = seq![side_marker()] + code_lines(side);
    assert(seq![side_marker()].drop_last() =~= Seq::<Seq<char>>::empty());
    let st3: DeckReadState = (main + extra, e, true);
    assert(side_marker()[0] == '!');
    assert(deck_line_step(st2, side_marker()) == st3);
    assert(deck_fold(st2, seq![side_marker()]) == deck_line_step(
        deck_fold(st2, Seq::<Seq<char>>::empty()),
        side_marker(),
    ));
    assert(deck_fold(st2, seq![side_marker()]) == st3);
    lemma_fold_code_lines(st3, side);
    lemma_deck_fold_append(st2, seq![side_marker()], code_lines(side));
    assert(e + side =~= side);
    let all = deck_lines(main, extra, side);
    assert(all =~= head + code_lines(main) + ext + sidel);
    lemma_deck_fold_append(st0, head + code_lines(main), ext);
    lemma_deck_fold_append(st0, head + code_lines(main) + ext, sidel);
    assert(deck_fold(st0, head + code_lines(main) + ext) == st2);
    assert(deck_fold(st2, sidel) == (main + extra, side, true));
    assert(deck_fold(st0, all) == (main + extra, side, true));
    assert(lines_of(deck_text(main, extra, side)) == all);
}

/// Append the characters `s` to `out`.
fn push_all(out: &mut Vec<char>, s: &[char])
    ensures
        final(out)@ == old(out)@ + s@,
{
    let ghost start = out@;
    let mut i: usize = 0;
    while i < s.len()
        invariant
            i <= s.len(),
            out@ == start + s@.take(i as int),
        decreases s.len() - i,
    {
        out.push(s[i]);
        i = i + 1;
        assert(out@ =~= start + s@.take(i as int));
    }
    assert(s@.take(s.len() as int) =~= s@);
}

/// Joining one more line.
proof fn lemma_join_push(l: Seq<Seq<char>>, x: Seq<char>)
    ensures
        join_lines(l.push(x)) == join_lines(l) + x + seq!['\n'],
{
    assert(l.push(x).drop_last() =~= l);
}

/// Append one line and its line feed.
fn push_line(out: &mut Vec<char>, line: &[char], Ghost(lines): Ghost<Seq<Seq<char>>>)
    requires
        old(out)@ == join_lines(lines),
    ensures
        final(out)@ == join_lines(lines.push(line@)),
{
    push_all(out, line);
    out.push('\n');
    proof {
        lemma_join_push(lines, line@);
    }
    assert(final(out)@ =~= join_lines(lines) + line@ + seq!['\n']);
}

/// Append one line per code.
fn push_code_lines(out: &mut Vec<char>, codes: &Vec<u32>, Ghost(lines): Ghost<Seq<Seq<char>>>)
    requires
        old(out)@ == join_lines(lines),
    ensures
        final(out)@ == join_lines(lines + code_lines(codes@)),
{
    let mut i: usize = 0;
    assert(lines + code_lines(codes@.take(0)) =~= lines);
    while i < codes.len()
        invariant
            i <= codes.len(),
            out@ == join_lines(lines + code_lines(codes@.take(i as int))),
        decreases codes.len() - i,
    {
        let ghost before = lines + code_lines(codes@.take(i as int));
        push_decimal(out, codes[i]);
        out.push('\n');
        proof {
            lemma_join_push(before, decimal(codes@[i as int] as nat));
        }
        i = i + 1;
        assert(lines + code_lines(codes@.take(i as int)) =~= before.push(
            decimal(codes@[i - 1] as nat),
        ));
        assert(out@ =~= join_lines(before) + decimal(codes@[i - 1] as nat) + seq!['\n']);
    }
    assert(codes@.take(codes.len() as int) =~= codes@);
}

impl Deck {
    /// Read a deck text: a line starting with `!` starts the side deck, `#main` goes
    /// back to the main deck, other `#` lines and blank lines are skipped, and a line
    /// starting with digits adds the code those digits spell (skipped when it does
    /// not fit in 32 bits); every other line is skipped. Extra deck cards are read
    /// into the main deck.
    pub fn from_text(s: &str) -> (r: Deck)
        ensures
            (r.main@, r.side@) == parse_deck_text(s@),
            r.extra@.len() == 0,
    {
        let chars = chars_of(s);
        let lines = split_lines(&chars);
        let mut deck = Deck::new();
        let mut in_side = false;
        let ghost init: DeckReadState = (Seq::empty(), Seq::empty(), false);
        let ghost all = lines_of(s@);
        let mut i: usize = 0;
        while i < lines.len()
            invariant
                i <= lines.len(),
                chars@ == s@,
                all == lines_of(s@),
                lines.len() == all.len(),
                forall|k: int| 0 <= k < lines.len() ==> #[trigger] lines[k]@ == all[k],
                deck.extra@.len() == 0,
                (deck.main@, deck.side@, in_side) == deck_fold(init, all.take(i as int)),
            decreases lines.len() - i,
        {
            assert(all.take(i + 1).drop_last() =~= all.take(i as int));
            assert(all.take(i + 1).last() == lines[i as int]@);
            let line = trim_chars(&lines[i]);
            let ghost t = line@;
            if line.len() == 0 {
            } else if line[0] == '!' {
                in_side = true;
            } else if line[0] == '#' {
                if line.len() == 5 && line[1] == 'm' && line[2] == 'a' && line[3] == 'i' && line[4]
                    == 'n' {
                    assert(t =~= main_marker());
                    in_side = false;
                } else {
                    assert(t != main_marker()) by {
                        if t == main_marker() {
                            assert(t[1] == 'm' && t[2] == 'a' && t[3] == 'i' && t[4] == 'n');
                        }
                    }
                }
            } else if 48 <= (line[0] as u32) && (line[0] as u32) <= 57 {
                let mut end: usize = 0;
                while end < line.len() && 48 <= (line[end] as u32) && (line[end] as u32) <= 57
                    invariant
                        end <= line.len(),
                        all_digits(line@.take(end as int)),
                    decreases line.len() - end,
                {
                    assert(line@.take(end + 1).drop_last() =~= line@.take(end as int));
                    assert forall|k: int| 0 <= k < end + 1 implies is_digit(
                        #[trigger] line@.take(end + 1)[k],
                    ) by {
                        if k < end {
                            assert(line@.take(end + 1)[k] == line@.take(end as int)[k]);
                        }
                    }
                    end = end + 1;
                }
                proof {
                    lemma_leading_digits(t, end as int);
                }
                assert(t.subrange(0, end as int) =~= t.take(leading_digits(t) as int));
                match parse_decimal(&line, 0, end, 0xFFFF_FFFF) {
                    Some(v) => {
                        if in_side {
                            deck.side.push(v as u32);
                        } else {
                            deck.main.push(v as u32);
                        }
                    },
                    None => {},
                }
            }
            i = i + 1;
        }
        assert(all.take(lines.len() as int) =~= all);
        deck
    }

    /// The deck as text: a header comment, `#main` and the main codes, `#extra` and
    /// the extra codes when there are any, then `!side` and the side codes, one per
    /// line.
    pub fn to_string(&self) -> (r: String)
        ensures
            r@ == deck_text(self.main@, self.extra@, self.side@),
    {
        let mut out: Vec<char> = Vec::new();
        let ghost e: Seq<Seq<char>> = Seq::empty();
        assert(out@ == join_lines(e));
        let header: [char; 25] = [
            '#', 'y', 'g', 'o', 'p', 'r', 'o', '-', 'r', 's', ' ', 'd', 'e', 'c', 'k', ' ', 'g',
            'e', 'n', 'e', 'r', 'a', 't', 'e', 'd',
        ];
        assert(header@ =~= header_line());
        push_line(&mut out, &header, Ghost(e));
        let main_mark: [char; 5] = ['#', 'm', 'a', 'i', 'n'];
        assert(main_mark@ =~= main_marker());
        push_line(&mut out, &main_mark, Ghost(e.push(header_line())));
        let ghost l1 = e.push(header_line()).push(main_marker());
        assert(l1 =~= seq![header_line(), main_marker()]);
        push_code_lines(&mut out, &self.main, Ghost(l1));
        let ghost l2 = l1 + code_lines(self.main@);
        let ghost l3 = if self.extra@.len() > 0 {
            l2 + (seq![extra_marker()] + code_lines(self.extra@))
        } else {
            l2 + Seq::<Seq<char>>::empty()
        };
        if self.extra.len() > 0 {
            let extra_mark: [char; 6] = ['#', 'e', 'x', 't', 'r', 'a'];
            assert(extra_mark@ =~= extra_marker());
            push_line(&mut out, &extra_mark, Ghost(l2));
            push_code_lines(&mut out, &self.extra, Ghost(l2.push(extra_marker())));
            assert(l2.push(extra_marker()) + code_lines(self.extra@) =~= l3);
        } else {
            assert(l2 =~= l3);
        }
        let side_mark: [char; 5] = ['!', 's', 'i', 'd', 'e'];
        assert(side_mark@ =~= side_marker());
        push_line(&mut out, &side_mark, Ghost(l3));
        push_code_lines(&mut out, &self.side, Ghost(l3.push(side_marker())));
        assert(l3.push(side_marker()) + code_lines(self.side@) =~= deck_lines(
            self.main@,
            self.extra@,
            self.side@,
        ));
        string_from_chars(out.as_slice())
    }
}

impl std::str::FromStr for Deck {
    type Err = ();

    /// Always a deck: the one `from_text` reads.
    fn from_str(s: &str) -> (r: Result<Deck, ()>)
        ensures
            r matches Ok(d) && (d.main@, d.side@) == parse_deck_text(s@) && d.extra@.len() == 0,
    {
        Ok(Deck::from_text(s))
    }
}

} // verus!
