//! The display strings file (`strings.conf`): lines `!category id text`.
use vstd::prelude::*;

use crate::text::{
    chars_of, lines_of, parse_decimal, parse_unsigned, split_lines, string_from_chars, trim,
    trim_chars,
};

verus! {

/// How a signed 32-bit number is read: an optional `-` or `+`, then at least one
/// decimal digit and nothing else, within the range of the type.
pub open spec fn parse_i32(s: Seq<char>) -> Option<int> {
    if s.len() > 0 && s[0] == '-' {
        let d = s.drop_first();
        if d.len() > 0 && d[0] != '+' {
            match parse_unsigned(d, 2147483648) {
                Some(v) => Some(-v),
                None => None,
            }
        } else {
            None
        }
    } else {
        match parse_unsigned(s, 2147483647) {
            Some(v) => Some(v as int),
            None => None,
        }
    }
}

/// The index of the first space at or after `from`, if any.
pub open spec fn space_from(s: Seq<char>, from: int) -> Option<int>
    decreases s.len() - from,
{
    if from >= s.len() || from < 0 {
        None
    } else if s[from] == ' ' {
        Some(from)
    } else {
        space_from(s, from + 1)
    }
}

/// One string: its category, its id and its text.
pub type StringEntry = (Seq<char>, i32, Seq<char>);

/// `entries` with the text of (`category`, `id`) set: in place of the entry for them,
/// or at the end.
pub open spec fn entry_insert(entries: Seq<StringEntry>, category: Seq<char>, id: i32, text: Seq<char>) -> Seq<StringEntry> {
    if exists|i: int| 0 <= i < entries.len() && entries[i].0 == category && entries[i].1 == id {
        let i = choose|i: int| 0 <= i < entries.len() && entries[i].0 == category && entries[i].1 == id;
        entries.update(i, (category, id, text))
    } else {
        entries.push((category, id, text))
    }
}

/// How one line changes the strings. Only a trimmed line starting with `!` counts. Its
/// rest is split at its first two spaces into the category, the id and the text (empty
/// when there is no second space); a line without a space, or whose id is no signed
/// 32-bit number, is skipped. A later string for the same category and id replaces an
/// earlier one.
pub open spec fn strings_line_step(entries: Seq<StringEntry>, raw: Seq<char>) -> Seq<StringEntry> {
    let line = trim(raw);
    if line.len() == 0 || line[0] != '!' {
        entries
    } else {
        let rest = line.drop_first();
        match space_from(rest, 0) {
            None => entries,
            Some(a) => {
                let category = rest.take(a);
                let (id_text, text) = match space_from(rest, a + 1) {
                    Some(b) => (rest.subrange(a + 1, b), rest.skip(b + 1)),
                    None => (rest.skip(a + 1), Seq::<char>::empty()),
                };
                match parse_i32(id_text) {
                    Some(id) => entry_insert(entries, category, id as i32, text),
                    None => entries,
                }
            },
        }
    }
}

/// The strings after reading `lines`.
pub open spec fn strings_fold(entries: Seq<StringEntry>, lines: Seq<Seq<char>>) -> Seq<StringEntry>
    decreases lines.len(),
{
    if lines.len() == 0 {
        entries
    } else {
        strings_line_step(strings_fold(entries, lines.drop_last()), lines.last())
    }
}

/// The strings a strings file holds.
pub open spec fn strings_file(content: Seq<char>) -> Seq<StringEntry> {
    strings_fold(Seq::empty(), lines_of(content))
}

/// Read a signed 32-bit number from `s[start..end]`.
fn parse_id(s: &Vec<char>, start: usize, end: usize) -> (r: Option<i32>)
    requires
        start <= end <= s@.len(),
    ensures
        match r {
            Some(v) => parse_i32(s@.subrange(start as int, end as int)) == Some(v as int),
            None => parse_i32(s@.subrange(start as int, end as int)) is None,
        },
{
    let ghost t = s@.subrange(start as int, end as int);
    if start < end && s[start] == '-' {
        assert(t.drop_first() =~= s@.subrange(start + 1, end as int));
        if start + 1 < end && s[start + 1] != '+' {
            match parse_decimal(s, start + 1, end, 2147483648) {
                Some(v) => {
                    let r: i64 = 0 - (v as i64);
                    Some(r as i32)
                },
                None => None,
            }
        } else {
            None
        }
    } else {
        match parse_decimal(s, start, end, 2147483647) {
            Some(v) => Some(v as i32),
            None => None,
        }
    }
}

/// The first space at or after `from`, if any.
fn find_space(s: &Vec<char>, from: usize) -> (r: Option<usize>)
    requires
        from <= s@.len(),
    ensures
        r matches Some(i) ==> space_from(s@, from as int) == Some(i as int) && from <= i < s@.len(),
        r is None ==> space_from(s@, from as int) is None,
{
    let mut i = from;
    while i < s.len() && s[i] != ' '
        invariant
            from <= i <= s@.len(),
            space_from(s@, from as int) == space_from(s@, i as int),
        decreases s@.len() - i,
    {
        i = i + 1;
    }
    if i < s.len() {
        Some(i)
    } else {
        None
    }
}

fn copy_range(s: &Vec<char>, start: usize, end: usize) -> (r: Vec<char>)
    requires
        start <= end <= s@.len(),
    ensures
        r@ == s@.subrange(start as int, end as int),
{
    let mut out: Vec<char> = Vec::new();
    let mut i = start;
    while i < end
        invariant
            start <= i <= end,
            end <= s@.len(),
            out@ == s@.subrange(start as int, i as int),
        decreases end - i,
    {
        out.push(s[i]);
        i = i + 1;
        assert(out@ =~= s@.subrange(start as int, i as int));
    }
    out
}

/// No (category, id) pair occurs twice.
pub open spec fn distinct_entries(entries: Seq<StringEntry>) -> bool {
    forall|i: int, j: int|
        0 <= i < entries.len() && 0 <= j < entries.len() && i != j ==> !(#[trigger] entries[i].0
            == #[trigger] entries[j].0 && entries[i].1 == entries[j].1)
}

/// The strings, by category and id, as text.
pub struct Strings {
    pub entries: Vec<(String, i32, String)>,
}

impl Strings {
    /// The strings as text.
    pub open spec fn view(&self) -> Seq<StringEntry> {
        self.entries@.map_values(|e: (String, i32, String)| (e.0@, e.1, e.2@))
    }

    /// No (category, id) pair occurs twice.
    pub open spec fn wf(&self) -> bool {
        distinct_entries(self.view())
    }

    fn find(&self, category: &Vec<char>, id: i32) -> (r: Option<usize>)
        ensures
            r matches Some(i) ==> i < self.view().len() && self.view()[i as int].0 == category@
                && self.view()[i as int].1 == id,
            r is None ==> forall|j: int|
                0 <= j < self.view().len() ==> !(#[trigger] self.view()[j].0 == category@
                    && self.view()[j].1 == id),
    {
        let mut i: usize = 0;
        while i < self.entries.len()
            invariant
                i <= self.entries@.len(),
                forall|j: int|
                    0 <= j < i ==> !(#[trigger] self.view()[j].0 == category@ && self.view()[j].1 == id),
            decreases self.entries@.len() - i,
        {
            let c = chars_of(self.entries[i].0.as_str());
            if self.entries[i].1 == id && crate::text::chars_eq(&c, category.as_slice()) {
                return Some(i);
            }
            i = i + 1;
        }
        None
    }

    fn set(&mut self, category: &Vec<char>, id: i32, text: &Vec<char>)
        requires
            old(self).wf(),
        ensures
            final(self).wf(),
            final(self).view() == entry_insert(old(self).view(), category@, id, text@),
    {
        let ghost v0 = self.view();
        let k = string_from_chars(category.as_slice());
        let t = string_from_chars(text.as_slice());
        match self.find(category, id) {
            Some(i) => {
                self.entries.set(i, (k, id, t));
                proof {
                    let c = choose|j: int| 0 <= j < v0.len() && v0[j].0 == category@ && v0[j].1 == id;
                    assert(c == i) by {
                        if c != i {
                            assert(!(v0[c].0 == v0[i as int].0 && v0[c].1 == v0[i as int].1));
                        }
                    }
                    assert(self.view() =~= v0.update(c, (category@, id, text@)));
                    assert forall|a: int| 0 <= a < self.view().len() implies #[trigger] self.view()[a].0
                        == v0[a].0 && self.view()[a].1 == v0[a].1 by {}
                }
            },
            None => {
                self.entries.push((k, id, t));
                assert(self.view() =~= v0.push((category@, id, text@)));
                proof {
                    assert forall|a: int, b: int|
                        0 <= a < self.view().len() && 0 <= b < self.view().len() && a != b implies !(
                        #[trigger] self.view()[a].0 == #[trigger] self.view()[b].0 && self.view()[a].1
                            == self.view()[b].1) by {
                        if a < v0.len() && b < v0.len() {
                            assert(!(v0[a].0 == v0[b].0 && v0[a].1 == v0[b].1));
                        } else if a < v0.len() {
                            assert(!(v0[a].0 == category@ && v0[a].1 == id));
                        } else {
                            assert(!(v0[b].0 == category@ && v0[b].1 == id));
                        }
                    }
                }
            },
        }
    }

    /// No string.
    pub fn new() -> (r: Strings)
        ensures
            r.view().len() == 0,
            r.wf(),
    {
        let r = Strings { entries: Vec::new() };
        assert(r.view() =~= Seq::<StringEntry>::empty());
        r
    }
}

/// Read the strings of a strings file's text (see `strings_line_step`).
pub fn load_strings_conf(content: &str) -> (r: Strings)
    ensures
        r.wf(),
        r.view() == strings_file(content@),
{
    let chars = chars_of(content);
    let lines = split_lines(&chars);
    let ghost all = lines_of(content@);
    let mut strings = Strings::new();
    let mut i: usize = 0;
    while i < lines.len()
        invariant
            i <= lines.len(),
            all == lines_of(content@),
            lines.len() == all.len(),
            forall|k: int| 0 <= k < lines.len() ==> #[trigger] lines[k]@ == all[k],
            strings.wf(),
            strings.view() == strings_fold(Seq::empty(), all.take(i as int)),
        decreases lines.len() - i,
    {
        assert(all.take(i + 1).drop_last() =~= all.take(i as int));
        assert(all.take(i + 1).last() == lines[i as int]@);
        let line = trim_chars(&lines[i]);
        if line.len() > 0 && line[0] == '!' {
            let rest = copy_range(&line, 1, line.len());
            assert(rest@ =~= line@.drop_first());
            match find_space(&rest, 0) {
                None => {},
                Some(a) => {
                    let category = copy_range(&rest, 0, a);
                    assert(category@ =~= rest@.take(a as int));
                    let (id_start, id_end, text) = match find_space(&rest, a + 1) {
                        Some(b) => {
                            let t = copy_range(&rest, b + 1, rest.len());
                            assert(t@ =~= rest@.skip(b + 1));
                            (a + 1, b, t)
                        },
                        None => {
                            let empty: Vec<char> = Vec::new();
                            assert(rest@.subrange(a + 1, rest@.len() as int) =~= rest@.skip(a + 1));
                            (a + 1, rest.len(), empty)
                        },
                    };
                    match parse_id(&rest, id_start, id_end) {
                        Some(id) => strings.set(&category, id, &text),
                        None => {},
                    }
                },
            }
        }
        i = i + 1;
    }
    assert(all.take(i as int) =~= all);
    strings
}

} // verus!
