//! The limit lists a server offers.
use vstd::prelude::*;

pub use crate::data_manager::DataManager;
use crate::lflist::{list_matches, lflist_file, parse_lflist_content, LFList, ListEntries};
use crate::text::{chars_eq, chars_of, lines_of, split_lines, string_from_chars, trim, trim_chars};

verus! {

/// The lists that the list files hold, one file after the other.
pub open spec fn lists_of_files(files: Seq<Seq<char>>) -> Seq<ListEntries>
    decreases files.len(),
{
    if files.len() == 0 {
        Seq::empty()
    } else {
        lists_of_files(files.drop_last()) + lflist_file(files.last())
    }
}

/// The name of the list that stands for "no list".
pub open spec fn no_list_name() -> Seq<char> {
    seq!['N', '/', 'A']
}

/// The name reported for an index that has no list.
pub open spec fn unknown_list_name() -> Seq<char> {
    seq!['?', '?', '?']
}

/// The limit lists a server offers, by index.
pub struct DeckManager {
    pub lflists: Vec<LFList>,
}

impl DeckManager {
    /// A manager with no list.
    pub fn new() -> (r: DeckManager)
        ensures
            r.lflists@.len() == 0,
    {
        DeckManager { lflists: Vec::new() }
    }

    /// Replace the lists by those of the list files whose contents are given, in order,
    /// followed, when there is any, by an empty list named `N/A` with hash 0 that
    /// stands for "no list".
    pub fn load_lflist(&mut self, files: &Vec<String>)
        ensures
            ({
                let l = lists_of_files(files@.map_values(|f: String| f@));
                &&& final(self).lflists@.len() == l.len() + (if l.len() > 0 { 1int } else { 0int })
                &&& forall|i: int| 0 <= i < l.len() ==> list_matches(#[trigger] final(self).lflists@[i], l[i])
                &&& l.len() > 0 ==> ({
                    let last = final(self).lflists@[l.len() as int];
                    &&& last.hash == 0
                    &&& last.name@ == no_list_name()
                    &&& last.content@.len() == 0
                    &&& last.genesys == 0
                    &&& last.glist@.len() == 0
                })
            }),
    {
        let ghost fs = files@.map_values(|f: String| f@);
        let mut lists: Vec<LFList> = Vec::new();
        let mut k: usize = 0;
        while k < files.len()
            invariant
                k <= files.len(),
                fs == files@.map_values(|f: String| f@),
                lists@.len() == lists_of_files(fs.take(k as int)).len(),
                forall|i: int|
                    0 <= i < lists@.len() ==> list_matches(
                        #[trigger] lists@[i],
                        lists_of_files(fs.take(k as int))[i],
                    ),
            decreases files.len() - k,
        {
            assert(fs.take(k + 1).drop_last() =~= fs.take(k as int));
            assert(fs.take(k + 1).last() == files@[k as int]@);
            let parsed = parse_lflist_content(files[k].as_str());
            let ghost before = lists@;
            let mut j: usize = 0;
            let mut rest = parsed;
            let ghost p = rest@;
            let n = rest.len();
            while j < n
                invariant
                    n == p.len(),
                    j <= p.len(),
                    rest@ == p.skip(j as int),
                    lists@ == before + p.take(j as int),
                decreases p.len() - j,
            {
                let l = rest.remove(0);
                lists.push(l);
                j = j + 1;
                assert(lists@ =~= before + p.take(j as int));
                assert(rest@ =~= p.skip(j as int));
            }
            assert(p.take(j as int) =~= p);
            k = k + 1;
        }
        assert(fs.take(files@.len() as int) =~= fs);
        if lists.len() > 0 {
            let name = String::from_str("N/A");
            proof {
                reveal_strlit("N/A");
            }
            lists.push(LFList { hash: 0, name, content: Vec::new(), genesys: 0, glist: Vec::new() });
        }
        self.lflists = lists;
    }

    /// The list at `index`, if there is one.
    pub fn get_lflist(&self, index: u32) -> (r: Option<&LFList>)
        ensures
            (index as int) < self.lflists@.len() ==> r == Some(&self.lflists@[index as int]),
            (index as int) >= self.lflists@.len() ==> r is None,
    {
        if (index as usize) < self.lflists.len() {
            Some(&self.lflists[index as usize])
        } else {
            None
        }
    }

    /// The name of the list at `index`, or `???` when there is none.
    pub fn get_lflist_name(&self, index: u32) -> (r: &str)
        ensures
            (index as int) < self.lflists@.len() ==> r@ == self.lflists@[index as int].name@,
            (index as int) >= self.lflists@.len() ==> r@ == unknown_list_name(),
    {
        match self.get_lflist(index) {
            Some(l) => l.name.as_str(),
            None => {
                proof {
                    reveal_strlit("???");
                }
                "???"
            },
        }
    }
}

/// `entries` with `key` set to `value`: in place of the entry with that key, or at the
/// end.
pub open spec fn text_insert(entries: Seq<(Seq<char>, Seq<char>)>, key: Seq<char>, value: Seq<char>) -> Seq<(Seq<char>, Seq<char>)> {
    if exists|i: int| 0 <= i < entries.len() && entries[i].0 == key {
        let i = choose|i: int| 0 <= i < entries.len() && entries[i].0 == key;
        entries.update(i, (key, value))
    } else {
        entries.push((key, value))
    }
}

/// The index of the first `=` in a line, if any.
pub open spec fn first_eq(line: Seq<char>) -> Option<int>
    decreases line.len(),
{
    if line.len() == 0 {
        None
    } else if line[0] == '=' {
        Some(0)
    } else {
        match first_eq(line.drop_first()) {
            Some(i) => Some(i + 1),
            None => None,
        }
    }
}

/// How one line of a configuration file changes its entries: the line is trimmed; a
/// blank line, a line starting with `#` and a line with no `=` change nothing;
/// otherwise the text before the first `=` is the key and the text after it the value,
/// both trimmed, and the value replaces the key's earlier one.
pub open spec fn config_line_step(entries: Seq<(Seq<char>, Seq<char>)>, raw: Seq<char>) -> Seq<(Seq<char>, Seq<char>)> {
    let line = trim(raw);
    if line.len() == 0 || line[0] == '#' {
        entries
    } else {
        match first_eq(line) {
            None => entries,
            Some(e) => text_insert(entries, trim(line.take(e)), trim(line.skip(e + 1))),
        }
    }
}

/// The entries after reading `lines`.
pub open spec fn config_fold(entries: Seq<(Seq<char>, Seq<char>)>, lines: Seq<Seq<char>>) -> Seq<(Seq<char>, Seq<char>)>
    decreases lines.len(),
{
    if lines.len() == 0 {
        entries
    } else {
        config_line_step(config_fold(entries, lines.drop_last()), lines.last())
    }
}

/// No key occurs twice.
pub open spec fn distinct_text_keys(entries: Seq<(Seq<char>, Seq<char>)>) -> bool {
    forall|i: int, j: int|
        0 <= i < entries.len() && 0 <= j < entries.len() && i != j ==> #[trigger] entries[i].0
            != #[trigger] entries[j].0
}

/// No entry before index `i` has the key `key`.
pub open spec fn is_first_key(entries: Seq<(Seq<char>, Seq<char>)>, key: Seq<char>, i: int) -> bool {
    forall|j: int| 0 <= j < i ==> #[trigger] entries[j].0 != key
}

/// The settings of the server, as `key = value` lines give them.
pub struct ConfigManager {
    pub entries: Vec<(String, String)>,
}

impl ConfigManager {
    /// The entries as text.
    pub open spec fn view(&self) -> Seq<(Seq<char>, Seq<char>)> {
        self.entries@.map_values(|e: (String, String)| (e.0@, e.1@))
    }

    /// No key occurs twice.
    pub open spec fn wf(&self) -> bool {
        distinct_text_keys(self.view())
    }

    /// No setting.
    pub fn new() -> (r: ConfigManager)
        ensures
            r.view().len() == 0,
            r.wf(),
    {
        let r = ConfigManager { entries: Vec::new() };
        assert(r.view() =~= Seq::<(Seq<char>, Seq<char>)>::empty());
        r
    }

    /// The index of the entry with key `key`, if any.
    fn find(&self, key: &Vec<char>) -> (r: Option<usize>)
        ensures
            r matches Some(i) ==> i < self.view().len() && self.view()[i as int].0 == key@ && forall|j: int|
                0 <= j < i ==> #[trigger] self.view()[j].0 != key@,
            r is None ==> forall|j: int| 0 <= j < self.view().len() ==> #[trigger] self.view()[j].0 != key@,
    {
        let mut i: usize = 0;
        while i < self.entries.len()
            invariant
                i <= self.entries@.len(),
                forall|j: int| 0 <= j < i ==> #[trigger] self.view()[j].0 != key@,
            decreases self.entries@.len() - i,
        {
            let k = chars_of(self.entries[i].0.as_str());
            if chars_eq(&k, key.as_slice()) {
                return Some(i);
            }
            i = i + 1;
        }
        None
    }

    /// Set `key` to `value`.
    fn set(&mut self, key: Vec<char>, value: Vec<char>)
        requires
            old(self).wf(),
        ensures
            final(self).wf(),
            final(self).view() == text_insert(old(self).view(), key@, value@),
    {
        let ghost v0 = self.view();
        let k = string_from_chars(key.as_slice());
        let v = string_from_chars(value.as_slice());
        match self.find(&key) {
            Some(i) => {
                self.entries.set(i, (k, v));
                proof {
                    let c = choose|j: int| 0 <= j < v0.len() && v0[j].0 == key@;
                    assert(c == i) by {
                        if c != i {
                            assert(v0[c].0 != v0[i as int].0);
                        }
                    }
                    assert(self.view() =~= v0.update(c, (key@, value@)));
                    assert forall|a: int| 0 <= a < self.view().len() implies #[trigger] self.view()[a].0 == v0[a].0 by {}
                }
            },
            None => {
                self.entries.push((k, v));
                assert(self.view() =~= v0.push((key@, value@)));
                proof {
                    assert forall|a: int, b: int|
                        0 <= a < self.view().len() && 0 <= b < self.view().len() && a != b implies #[trigger] self.view()[a].0
                        != #[trigger] self.view()[b].0 by {
                        if a < v0.len() && b < v0.len() {
                            assert(v0[a].0 != v0[b].0);
                        } else if a < v0.len() {
                            assert(v0[a].0 != key@);
                        } else {
                            assert(v0[b].0 != key@);
                        }
                    }
                }
            },
        }
    }

    /// Read the settings of a configuration file's text (see `config_line_step`).
    pub fn load(&mut self, content: &str)
        requires
            old(self).wf(),
        ensures
            final(self).wf(),
            final(self).view() == config_fold(old(self).view(), lines_of(content@)),
    {
        let chars = chars_of(content);
        let lines = split_lines(&chars);
        let ghost all = lines_of(content@);
        let ghost start = self.view();
        let mut i: usize = 0;
        while i < lines.len()
            invariant
                i <= lines.len(),
                all == lines_of(content@),
                lines.len() == all.len(),
                forall|k: int| 0 <= k < lines.len() ==> #[trigger] lines[k]@ == all[k],
                self.wf(),
                self.view() == config_fold(start, all.take(i as int)),
            decreases lines.len() - i,
        {
            assert(all.take(i + 1).drop_last() =~= all.take(i as int));
            assert(all.take(i + 1).last() == lines[i as int]@);
            let line = trim_chars(&lines[i]);
            if line.len() > 0 && line[0] != '#' {
                let mut e: usize = 0;
                assert(line@.skip(0) =~= line@);
                while e < line.len() && line[e] != '='
                    invariant
                        e <= line@.len(),
                        forall|j: int| 0 <= j < e ==> line@[j] != '=',
                        first_eq(line@) == match first_eq(line@.skip(e as int)) {
                            Some(x) => Some(x + e),
                            None => None::<int>,
                        },
                    decreases line@.len() - e,
                {
                    assert(line@.skip(e as int).drop_first() =~= line@.skip(e + 1));
                    e = e + 1;
                }
                if e < line.len() {
                    assert(line@.skip(e as int)[0] == '=');
                    let mut key: Vec<char> = Vec::new();
                    let mut j: usize = 0;
                    while j < e
                        invariant
                            j <= e,
                            e < line@.len(),
                            key@ == line@.take(j as int),
                        decreases e - j,
                    {
                        key.push(line[j]);
                        j = j + 1;
                        assert(key@ =~= line@.take(j as int));
                    }
                    let mut value: Vec<char> = Vec::new();
                    let mut t: usize = e + 1;
                    while t < line.len()
                        invariant
                            e + 1 <= t <= line@.len(),
                            value@ == line@.subrange(e + 1, t as int),
                        decreases line@.len() - t,
                    {
                        value.push(line[t]);
                        t = t + 1;
                        assert(value@ =~= line@.subrange(e + 1, t as int));
                    }
                    assert(value@ =~= line@.skip(e + 1));
                    let key_t = trim_chars(&key);
                    let value_t = trim_chars(&value);
                    self.set(key_t, value_t);
                } else {
                    assert(line@.skip(e as int).len() == 0);
                }
            }
            i = i + 1;
        }
        assert(all.take(i as int) =~= all);
    }

    /// The value of `key`, if set.
    pub fn get(&self, key: &str) -> (r: Option<&str>)
        ensures
            r matches Some(v) ==> exists|i: int|
                0 <= i < self.view().len() && self.view()[i] == (key@, v@) && is_first_key(self.view(), key@, i),
            r is None ==> forall|i: int| 0 <= i < self.view().len() ==> #[trigger] self.view()[i].0 != key@,
    {
        let k = chars_of(key);
        match self.find(&k) {
            Some(i) => {
                assert(self.view()[i as int] == (self.entries@[i as int].0@, self.entries@[i as int].1@));
                Some(self.entries[i].1.as_str())
            },
            None => None,
        }
    }

    /// The value of `key`, or `default` when it is not set.
    pub fn get_or<'a>(&'a self, key: &str, default: &'a str) -> (r: &'a str)
        ensures
            (exists|i: int|
                0 <= i < self.view().len() && self.view()[i] == (key@, r@) && is_first_key(self.view(), key@, i))
                || ((forall|i: int|
                0 <= i < self.view().len() ==> #[trigger] self.view()[i].0 != key@) && r@ == default@),
    {
        match self.get(key) {
            Some(v) => v,
            None => default,
        }
    }
}

} // verus!
