//! Where replays go and how they are written.
use vstd::prelude::*;

use crate::replay_body::{Replay, ReplayError};
use crate::single_duel::SendTarget;
use crate::text::{chars_of, string_from_chars};

verus! {

/// The replay mode bit that keeps a copy on the server.
pub const REPLAY_SAVE_IN_SERVER: u32 = 1;
/// The replay mode bit that withholds the replay from observers.
pub const REPLAY_WATCHER_NO_SEND: u32 = 2;
/// The replay mode bit that records the chat.
pub const REPLAY_INCLUDE_CHAT: u32 = 4;

/// The file format of a saved replay.
#[derive(Clone, Copy, Debug, PartialEq, Eq, Structural)]
pub enum Format {
    Ygopro,
    Srvpro,
    Raw,
}

impl Default for Format {
    fn default() -> (r: Format)
        ensures
            r == Format::Raw,
    {
        Format::Raw
    }
}

/// The ASCII lower case of a character.
pub open spec fn ascii_lower(c: char) -> char {
    if 'A' <= c && c <= 'Z' {
        ((c as u32) + 32) as char
    } else {
        c
    }
}

/// The format a name names, any ASCII case: `ygopro`, `srvpro` or `raw`.
pub open spec fn format_named(s: Seq<char>) -> Option<Format> {
    let l = s.map_values(|c: char| ascii_lower(c));
    if l == seq!['y', 'g', 'o', 'p', 'r', 'o'] {
        Some(Format::Ygopro)
    } else if l == seq!['s', 'r', 'v', 'p', 'r', 'o'] {
        Some(Format::Srvpro)
    } else if l == seq!['r', 'a', 'w'] {
        Some(Format::Raw)
    } else {
        None
    }
}

fn lower(c: char) -> (r: char)
    ensures
        r == ascii_lower(c),
{
    if 'A' <= c && c <= 'Z' {
        let v = c as u32;
        assert(65 <= v <= 90);
        let b = v as u8;
        assert(b as u32 == v) by (bit_vector)
            requires
                65 <= v <= 90,
                b == v as u8,
        ;
        (b + 32) as char
    } else {
        c
    }
}

fn lower_chars(s: &str) -> (r: Vec<char>)
    ensures
        r@ == s@.map_values(|c: char| ascii_lower(c)),
{
    let cs = chars_of(s);
    let mut out: Vec<char> = Vec::new();
    let mut i: usize = 0;
    while i < cs.len()
        invariant
            i <= cs@.len(),
            cs@ == s@,
            out@ == cs@.take(i as int).map_values(|c: char| ascii_lower(c)),
        decreases cs@.len() - i,
    {
        out.push(lower(cs[i]));
        i = i + 1;
        assert(out@ =~= cs@.take(i as int).map_values(|c: char| ascii_lower(c)));
    }
    assert(cs@.take(i as int) =~= cs@);
    out
}

impl Format {
    /// The format a name names, in any ASCII case; `Err(())` for another name.
    pub fn parse(value: &str) -> (r: Result<Format, ()>)
        ensures
            match format_named(value@) {
                Some(f) => r == Ok::<Format, ()>(f),
                None => r is Err,
            },
    {
        let l = lower_chars(value);
        if l.len() == 6 && l[0] == 'y' && l[1] == 'g' && l[2] == 'o' && l[3] == 'p' && l[4] == 'r'
            && l[5] == 'o' {
            assert(l@ =~= seq!['y', 'g', 'o', 'p', 'r', 'o']);
            Ok(Format::Ygopro)
        } else if l.len() == 6 && l[0] == 's' && l[1] == 'r' && l[2] == 'v' && l[3] == 'p' && l[4]
            == 'r' && l[5] == 'o' {
            assert(l@ =~= seq!['s', 'r', 'v', 'p', 'r', 'o']);
            assert(l@ != seq!['y', 'g', 'o', 'p', 'r', 'o']) by {
                assert(l@[0] != 'y');
            }
            Ok(Format::Srvpro)
        } else if l.len() == 3 && l[0] == 'r' && l[1] == 'a' && l[2] == 'w' {
            assert(l@ =~= seq!['r', 'a', 'w']);
            Ok(Format::Raw)
        } else {
            proof {
                if l@ == seq!['y', 'g', 'o', 'p', 'r', 'o'] {
                    assert(l@[0] == 'y' && l@[1] == 'g' && l@[2] == 'o' && l@[3] == 'p' && l@[4] == 'r' && l@[5] == 'o');
                }
                if l@ == seq!['s', 'r', 'v', 'p', 'r', 'o'] {
                    assert(l@[0] == 's' && l@[1] == 'r' && l@[2] == 'v' && l@[3] == 'p' && l@[4] == 'r' && l@[5] == 'o');
                }
                if l@ == seq!['r', 'a', 'w'] {
                    assert(l@[0] == 'r' && l@[1] == 'a' && l@[2] == 'w');
                }
            }
            Err(())
        }
    }
}

impl std::str::FromStr for Format {
    type Err = ();

    /// The format a name stands for, in any letter case (see `Format::parse`).
    fn from_str(value: &str) -> (r: Result<Format, ()>)
        ensures
            match format_named(value@) {
                Some(f) => r == Ok::<Format, ()>(f),
                None => r is Err,
            },
    {
        Format::parse(value)
    }
}

/// How replays are handled.
pub struct Configuration {
    /// The replay mode bits.
    pub mode: u32,
    pub save_path: String,
    pub file_template: String,
    pub format: Format,
}

/// Who gets the replay of a duel: everyone, or the duelists alone when observers are
/// not to get it.
pub fn replay_target(mode: u32, target: SendTarget) -> (r: SendTarget)
    ensures
        r == if mode & REPLAY_WATCHER_NO_SEND == REPLAY_WATCHER_NO_SEND {
            SendTarget::AllPlayer
        } else {
            target
        },
{
    if mode & REPLAY_WATCHER_NO_SEND == REPLAY_WATCHER_NO_SEND {
        SendTarget::AllPlayer
    } else {
        target
    }
}

/// After a replay is made: when observers are not to get it, it goes to the duelists
/// alone.
pub fn on_generate_replay(configuration: &Configuration, target: &mut SendTarget)
    ensures
        *final(target) == if configuration.mode & REPLAY_WATCHER_NO_SEND == REPLAY_WATCHER_NO_SEND {
            SendTarget::AllPlayer
        } else {
            *old(target)
        },
{
    *target = replay_target(configuration.mode, *target);
}

/// A file name with `/`, `\`, `?` and `*` replaced by `_`.
pub open spec fn safe_char(c: char) -> char {
    if c == '/' || c == '\\' || c == '?' || c == '*' {
        '_'
    } else {
        c
    }
}

/// Replace the characters a file name may not hold by `_`.
pub fn sanitize_file_name(name: &Vec<char>) -> (r: Vec<char>)
    ensures
        r@ == name@.map_values(|c: char| safe_char(c)),
{
    let mut out: Vec<char> = Vec::new();
    let mut i: usize = 0;
    while i < name.len()
        invariant
            i <= name@.len(),
            out@ == name@.take(i as int).map_values(|c: char| safe_char(c)),
        decreases name@.len() - i,
    {
        let c = name[i];
        out.push(if c == '/' || c == '\\' || c == '?' || c == '*' { '_' } else { c });
        i = i + 1;
        assert(out@ =~= name@.take(i as int).map_values(|c: char| safe_char(c)));
    }
    assert(name@.take(i as int) =~= name@);
    out
}

/// `s` with every occurrence of `pat` replaced by `rep`, left to right, occurrences not
/// overlapping (`s` as it is for an empty `pat`).
pub open spec fn replace_all(s: Seq<char>, pat: Seq<char>, rep: Seq<char>) -> Seq<char>
    decreases s.len(),
{
    if pat.len() == 0 || s.len() < pat.len() {
        s
    } else if s.take(pat.len() as int) == pat {
        rep + replace_all(s.skip(pat.len() as int), pat, rep)
    } else {
        seq![s[0]] + replace_all(s.drop_first(), pat, rep)
    }
}

/// Replace every occurrence of `pat` in `s` by `rep`.
pub fn replace_text(s: &Vec<char>, pat: &Vec<char>, rep: &Vec<char>) -> (r: Vec<char>)
    ensures
        r@ == replace_all(s@, pat@, rep@),
{
    let n = s.len();
    let m = pat.len();
    if m == 0 {
        let mut out: Vec<char> = Vec::new();
        let mut i: usize = 0;
        while i < n
            invariant
                i <= n == s@.len(),
                out@ == s@.take(i as int),
            decreases n - i,
        {
            out.push(s[i]);
            i = i + 1;
            assert(out@ =~= s@.take(i as int));
        }
        assert(s@.take(i as int) =~= s@);
        return out;
    }
    let mut out: Vec<char> = Vec::new();
    let mut i: usize = 0;
    assert(s@.skip(0) =~= s@);
    assert(out@ + replace_all(s@.skip(0), pat@, rep@) =~= replace_all(s@, pat@, rep@));
    while i < n
        invariant
            i <= n == s@.len(),
            m == pat@.len() > 0,
            out@ + replace_all(s@.skip(i as int), pat@, rep@) == replace_all(s@, pat@, rep@),
        decreases n - i,
    {
        let ghost t = s@.skip(i as int);
        let mut matched = n - i >= m;
        let mut k: usize = 0;
        while matched && k < m
            invariant
                k <= m == pat@.len(),
                i <= n == s@.len(),
                t == s@.skip(i as int),
                matched ==> n - i >= m,
                matched ==> forall|j: int| 0 <= j < k ==> s@[i + j] == pat@[j],
                !matched ==> (n - i < m || t.take(m as int) != pat@),
            decreases m - k,
        {
            if s[i + k] != pat[k] {
                matched = false;
                assert(t.take(m as int)[k as int] != pat@[k as int]);
            }
            k = k + 1;
        }
        if matched {
            assert(t.take(m as int) =~= pat@);
            let mut j: usize = 0;
            let ghost before = out@;
            while j < rep.len()
                invariant
                    j <= rep@.len(),
                    out@ == before + rep@.take(j as int),
                decreases rep@.len() - j,
            {
                out.push(rep[j]);
                j = j + 1;
                assert(out@ =~= before + rep@.take(j as int));
            }
            assert(rep@.take(j as int) =~= rep@);
            assert(t.skip(m as int) =~= s@.skip(i + m));
            assert(out@ + replace_all(s@.skip(i + m), pat@, rep@) =~= before + replace_all(t, pat@, rep@));
            i = i + m;
        } else {
            let ghost before = out@;
            out.push(s[i]);
            assert(t.drop_first() =~= s@.skip(i + 1));
            assert(t[0] == s@[i as int]);
            assert(out@ + replace_all(s@.skip(i + 1), pat@, rep@) =~= before + replace_all(t, pat@, rep@));
            i = i + 1;
        }
    }
    assert(s@.skip(i as int).len() == 0);
    assert(out@ + replace_all(s@.skip(i as int), pat@, rep@) =~= out@);
    out
}

/// The names of the players present joined by ` VS `.
pub open spec fn joined_vs(names: Seq<Seq<char>>) -> Seq<char>
    decreases names.len(),
{
    if names.len() == 0 {
        Seq::empty()
    } else if names.len() == 1 {
        names[0]
    } else {
        joined_vs(names.drop_last()) + seq![' ', 'V', 'S', ' '] + names.last()
    }
}

/// How a replay names its players: for a tag duel of four, `a & b VS c & d`; otherwise
/// the names of the players present joined by ` VS `.
pub open spec fn players_text_of(names: Seq<Seq<char>>, is_tag: bool) -> Seq<char> {
    if is_tag && names.len() == 4 {
        names[0] + seq![' ', '&', ' '] + names[1] + seq![' ', 'V', 'S', ' '] + names[2] + seq![' ', '&', ' ']
            + names[3]
    } else {
        joined_vs(names)
    }
}

fn push_text(out: &mut Vec<char>, t: &str)
    ensures
        final(out)@ == old(out)@ + t@,
{
    let cs = chars_of(t);
    let ghost start = out@;
    let mut i: usize = 0;
    while i < cs.len()
        invariant
            i <= cs@.len(),
            cs@ == t@,
            out@ == start + cs@.take(i as int),
        decreases cs@.len() - i,
    {
        out.push(cs[i]);
        i = i + 1;
        assert(out@ =~= start + cs@.take(i as int));
    }
    assert(cs@.take(i as int) =~= cs@);
}

/// The names of the players of a duel as a replay's file name shows them.
pub fn players_text(names: &Vec<String>, is_tag: bool) -> (r: Vec<char>)
    ensures
        r@ == players_text_of(names@.map_values(|s: String| s@), is_tag),
{
    let ghost ns = names@.map_values(|s: String| s@);
    let mut out: Vec<char> = Vec::new();
    if is_tag && names.len() == 4 {
        push_text(&mut out, names[0].as_str());
        push_text(&mut out, " & ");
        push_text(&mut out, names[1].as_str());
        push_text(&mut out, " VS ");
        push_text(&mut out, names[2].as_str());
        push_text(&mut out, " & ");
        push_text(&mut out, names[3].as_str());
        proof {
            reveal_strlit(" & ");
            reveal_strlit(" VS ");
        }
        assert(out@ =~= players_text_of(ns, is_tag));
        return out;
    }
    let mut i: usize = 0;
    assert(ns.take(0) =~= Seq::<Seq<char>>::empty());
    while i < names.len()
        invariant
            i <= names@.len(),
            ns == names@.map_values(|s: String| s@),
            out@ == joined_vs(ns.take(i as int)),
        decreases names@.len() - i,
    {
        assert(ns.take(i + 1).drop_last() =~= ns.take(i as int));
        if i > 0 {
            push_text(&mut out, " VS ");
            proof {
                reveal_strlit(" VS ");
            }
        }
        push_text(&mut out, names[i].as_str());
        i = i + 1;
        assert(out@ =~= joined_vs(ns.take(i as int)));
    }
    assert(ns.take(i as int) =~= ns);
    out
}

/// A replay's file name: the time-formatted template `formatted` with `{players}`
/// replaced by the players' names, then made safe.
pub fn file_name(formatted: &str, players: &Vec<char>) -> (r: String)
    ensures
        r@ == replace_all(formatted@, seq!['{', 'p', 'l', 'a', 'y', 'e', 'r', 's', '}'], players@).map_values(
            |c: char| safe_char(c),
        ),
{
    let text = chars_of(formatted);
    let pat = chars_of("{players}");
    proof {
        reveal_strlit("{players}");
    }
    assert(pat@ =~= seq!['{', 'p', 'l', 'a', 'y', 'e', 'r', 's', '}']);
    let replaced = replace_text(&text, &pat, players);
    let safe = sanitize_file_name(&replaced);
    string_from_chars(safe.as_slice())
}

/// A replay in the configured format, with the file extension: `yrp` and the replay's
/// bytes for the ygopro format (nothing when they cannot be made); nothing for the
/// formats not supported yet.
pub fn serialize(format: Format, replay: &Replay) -> (r: Option<(String, Vec<u8>)>)
    ensures
        format != Format::Ygopro ==> r is None,
        format == Format::Ygopro ==> match r {
            Some((ext, bytes)) => ext@ == seq!['y', 'r', 'p'] && replay.serialized(bytes@),
            None => replay.unserializable(),
        },
{
    match format {
        Format::Ygopro => match replay.to_bytes() {
            Ok(bytes) => {
                let ext = "yrp".to_owned();
                proof {
                    reveal_strlit("yrp");
                }
                Some((ext, bytes))
            },
            Err(_) => None,
        },
        _ => None,
    }
}

} // verus!
