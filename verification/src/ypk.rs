//! Expansion archives (`.zip` and `.ypk` files): which files are archives, and which
//! entries of an archive are card databases.
use vstd::prelude::*;

use crate::text::chars_of;

verus! {

/// `std::path::Path::extension` of a path, as text: the part of its file name after the
/// final `.`, none when the file name has no `.` after its first character (or there is
/// no file name, or the extension is not valid text). Which part is the file name
/// depends on the platform's separators, so the result is not named; what is stated is
/// that an extension holds no `.` and is a part of the path's text that follows a `.`.
#[verifier::external_body]
fn path_extension(path: &str) -> (r: Option<String>)
    ensures
        r matches Some(e) ==> !e@.contains('.') && has_run(path@, seq!['.'] + e@),
{
    std::path::Path::new(path).extension().and_then(|e| e.to_str()).map(|e| e.to_string())
}

/// Whether `run` occurs in `s` as consecutive characters.
pub open spec fn has_run(s: Seq<char>, run: Seq<char>) -> bool {
    exists|i: int| 0 <= i <= s.len() - run.len() && #[trigger] s.subrange(i, i + run.len()) == run
}

/// Whether an extension is that of an expansion archive: `zip` or `ypk`.
pub fn is_archive_extension(extension: Option<&str>) -> (r: bool)
    ensures
        r == (extension matches Some(e) && (e@ == seq!['z', 'i', 'p'] || e@ == seq!['y', 'p', 'k'])),
{
    match extension {
        Some(e) => {
            let c = chars_of(e);
            let zip = c.len() == 3 && c[0] == 'z' && c[1] == 'i' && c[2] == 'p';
            let ypk = c.len() == 3 && c[0] == 'y' && c[1] == 'p' && c[2] == 'k';
            assert(zip <==> c@ == seq!['z', 'i', 'p']) by {
                if c@.len() == 3 {
                    assert(c@ == seq![c@[0], c@[1], c@[2]]);
                }
            }
            assert(ypk <==> c@ == seq!['y', 'p', 'k']) by {
                if c@.len() == 3 {
                    assert(c@ == seq![c@[0], c@[1], c@[2]]);
                }
            }
            zip || ypk
        },
        None => false,
    }
}

/// Whether the file at `path` is an expansion archive: its extension is `zip` or `ypk`.
/// The extension comes from the platform's path rules, so what is stated is what holds
/// on any platform: the path of an archive holds `.zip` or `.ypk`.
pub fn is_expansion_archive(path: &str) -> (r: bool)
    ensures
        r ==> has_run(path@, seq!['.', 'z', 'i', 'p']) || has_run(path@, seq!['.', 'y', 'p', 'k']),
{
    let extension = path_extension(path);
    match extension {
        Some(e) => {
            let r = is_archive_extension(Some(e.as_str()));
            proof {
                if e@ == seq!['z', 'i', 'p'] {
                    assert(seq!['.'] + e@ =~= seq!['.', 'z', 'i', 'p']);
                }
                if e@ == seq!['y', 'p', 'k'] {
                    assert(seq!['.'] + e@ =~= seq!['.', 'y', 'p', 'k']);
                }
            }
            r
        },
        None => is_archive_extension(None),
    }
}

/// Whether a name ends with `.cdb`.
pub open spec fn is_cdb_name(name: Seq<char>) -> bool {
    name.len() >= 4 && name.skip(name.len() - 4) == seq!['.', 'c', 'd', 'b']
}

/// The names of `names` that end with `.cdb`, in order.
pub open spec fn cdb_names_of(names: Seq<Seq<char>>) -> Seq<Seq<char>>
    decreases names.len(),
{
    if names.len() == 0 {
        Seq::empty()
    } else {
        cdb_names_of(names.drop_last()) + if is_cdb_name(names.last()) {
            seq![names.last()]
        } else {
            Seq::<Seq<char>>::empty()
        }
    }
}

fn ends_with_cdb(name: &str) -> (r: bool)
    ensures
        r == is_cdb_name(name@),
{
    let c = chars_of(name);
    let n = c.len();
    if n < 4 {
        return false;
    }
    let r = c[n - 4] == '.' && c[n - 3] == 'c' && c[n - 2] == 'd' && c[n - 1] == 'b';
    assert(r <==> c@.skip(n - 4) == seq!['.', 'c', 'd', 'b']) by {
        assert(c@.skip(n - 4) == seq![c@[n - 4], c@[n - 3], c@[n - 2], c@[n - 1]]);
    }
    r
}

/// The card databases among the entry names of the archives, in order.
pub fn cdb_names(names: &Vec<String>) -> (r: Vec<String>)
    ensures
        r@.map_values(|s: String| s@) == cdb_names_of(names@.map_values(|s: String| s@)),
{
    let ghost all = names@.map_values(|s: String| s@);
    let mut out: Vec<String> = Vec::new();
    let mut i: usize = 0;
    while i < names.len()
        invariant
            i <= names@.len(),
            all == names@.map_values(|s: String| s@),
            out@.map_values(|s: String| s@) == cdb_names_of(all.take(i as int)),
        decreases names@.len() - i,
    {
        assert(all.take(i + 1).drop_last() =~= all.take(i as int));
        assert(all.take(i + 1).last() == names@[i as int]@);
        let ghost before = out@.map_values(|s: String| s@);
        if ends_with_cdb(names[i].as_str()) {
            out.push(names[i].clone());
            assert(out@.map_values(|s: String| s@) =~= before.push(names@[i as int]@));
        }
        i = i + 1;
        assert(out@.map_values(|s: String| s@) =~= cdb_names_of(all.take(i as int)));
    }
    assert(all.take(i as int) =~= all);
    out
}

/// The index of the first found entry among `lookups`, if any.
pub open spec fn first_found(lookups: Seq<Option<Seq<u8>>>) -> Option<int>
    decreases lookups.len(),
{
    if lookups.len() == 0 {
        None
    } else if lookups[0] is Some {
        Some(0)
    } else {
        match first_found(lookups.drop_first()) {
            Some(i) => Some(i + 1),
            None => None,
        }
    }
}

/// A file read from the expansion archives: `lookups` holds, archive by archive in the
/// order they were found, the file's bytes when that archive has it and they could be
/// read. The first archive that has it wins; none does, nothing is read.
pub fn read_from_archives(lookups: Vec<Option<Vec<u8>>>) -> (r: Option<Vec<u8>>)
    ensures
        match first_found(lookups@.map_values(|l: Option<Vec<u8>>| opt_bytes(l))) {
            Some(i) => 0 <= i < lookups@.len() && (r matches Some(b) && Some(b@) == opt_bytes(lookups@[i])),
            None => r is None,
        },
{
    let ghost all = lookups@.map_values(|l: Option<Vec<u8>>| opt_bytes(l));
    let mut i: usize = 0;
    while i < lookups.len() && lookups[i].is_none()
        invariant
            i <= lookups@.len(),
            all == lookups@.map_values(|l: Option<Vec<u8>>| opt_bytes(l)),
            forall|k: int| 0 <= k < i ==> all[k] is None,
        decreases lookups@.len() - i,
    {
        i = i + 1;
    }
    proof {
        lemma_first_found(all, i as int);
    }
    if i < lookups.len() {
        let mut l = lookups;
        l.remove(i)
    } else {
        None
    }
}

/// No entry before `i` is found: the first found entry is `i` when `i` is found, and
/// none when `i` is the end.
proof fn lemma_first_found(s: Seq<Option<Seq<u8>>>, i: int)
    requires
        0 <= i <= s.len(),
        forall|k: int| 0 <= k < i ==> s[k] is None,
    ensures
        i < s.len() && s[i] is Some ==> first_found(s) == Some(i),
        i == s.len() ==> first_found(s) is None,
    decreases i,
{
    if i > 0 {
        let t = s.drop_first();
        assert forall|k: int| 0 <= k < i - 1 implies t[k] is None by {
            assert(t[k] == s[k + 1]);
        }
        lemma_first_found(t, i - 1);
    } else if s.len() > 0 {
    }
}

/// The bytes of a lookup, as plain values.
pub open spec fn opt_bytes(l: Option<Vec<u8>>) -> Option<Seq<u8>> {
    match l {
        Some(b) => Some(b@),
        None => None,
    }
}

} // verus!
