//! What the font pane reads from fontconfig's output, what it makes of a
//! user's font file once copied in, and how it names a typeface the user
//! added. Running `fc-query` / `fc-list` and copying files is the
//! caller's.

use crate::text::{
    chars_of, lemma_line_end_bounds, lemma_line_end_is_next_newline, line_end, str_eq, string_of,
    trim, trimmed_end, trimmed_start,
};
use vstd::prelude::*;

verus! {

/// The family names in the lines from position `from` on: each line
/// trimmed, blank lines dropped (`str::lines`; a `\r` ending is trimmed
/// away with the rest of the white space).
pub open spec fn family_lines_from(output: Seq<char>, from: int) -> Seq<Seq<char>>
    decreases output.len() + 1 - from,
{
    if from < 0 || from >= output.len() {
        Seq::empty()
    } else {
        proof {
            lemma_line_end_bounds(output, from);
        }
        let line = trim(output.subrange(from, line_end(output, from)));
        let rest = family_lines_from(output, line_end(output, from) + 1);
        if line.len() > 0 {
            seq![line] + rest
        } else {
            rest
        }
    }
}

/// One family name per output line, every alias of every face: a comma
/// inside a name stays inside it.
pub fn family_lines(output: &str) -> (families: Vec<String>)
    ensures
        families@.map_values(|f: String| f@) == family_lines_from(output@, 0),
{
    let chars = chars_of(output);
    let n = chars.len();
    let mut families: Vec<String> = Vec::new();
    let mut from: usize = 0;
    while from < n
        invariant
            chars@ == output@,
            n == chars@.len(),
            from <= n,
            families@.map_values(|f: String| f@) + family_lines_from(output@, from as int)
                == family_lines_from(output@, 0),
        decreases n - from,
    {
        let mut end = from;
        while end < n && chars[end] != '\n'
            invariant
                chars@ == output@,
                n == chars@.len(),
                from <= end <= n,
                forall|i: int| from <= i < end ==> chars@[i] != '\n',
            decreases n - end,
        {
            end = end + 1;
        }
        proof {
            lemma_line_end_is_next_newline(output@, from as int, end as int);
        }
        let first = trimmed_start(&chars, from, end);
        let last = trimmed_end(&chars, first, end);
        let ghost line = output@.subrange(from as int, end as int);
        assert(chars@.subrange(first as int, last as int) == trim(line));
        let ghost before = families@.map_values(|f: String| f@);
        let next = if end < n {
            end + 1
        } else {
            n
        };
        assert(family_lines_from(output@, end + 1) == family_lines_from(output@, next as int));
        if first < last {
            let family = string_of(&chars, first, last);
            families.push(family);
            assert(families@.map_values(|f: String| f@) =~= before.push(trim(line)));
            assert(before.push(trim(line)) + family_lines_from(output@, next as int) =~= before
                + (seq![trim(line)] + family_lines_from(output@, next as int)));
        } else {
            assert(trim(line).len() == 0);
        }
        from = next;
    }
    assert(family_lines_from(output@, from as int) == Seq::<Seq<char>>::empty());
    assert(families@.map_values(|f: String| f@) =~= families@.map_values(|f: String| f@)
        + Seq::<Seq<char>>::empty());
    families
}

/// The index of the last `.` in `name`, if any.
pub open spec fn last_dot(name: Seq<char>) -> Option<int>
    decreases name.len(),
{
    if name.len() == 0 {
        None
    } else if name.last() == '.' {
        Some(name.len() - 1)
    } else {
        last_dot(name.drop_last())
    }
}

/// A stored file's name without its extension — what the list shows for a
/// typeface the user added: everything before the last `.`, or the whole
/// name when it has none.
pub open spec fn displayed_name_spec(name: Seq<char>) -> Seq<char> {
    match last_dot(name) {
        Some(dot) => name.take(dot),
        None => name,
    }
}

proof fn lemma_last_dot_is_last(name: Seq<char>, k: int)
    requires
        -1 <= k < name.len(),
        forall|i: int| k < i < name.len() ==> name[i] != '.',
        k >= 0 ==> name[k] == '.',
    ensures
        last_dot(name) == if k >= 0 {
            Some(k)
        } else {
            None::<int>
        },
    decreases name.len(),
{
    if name.len() > 0 && k < name.len() - 1 {
        let shorter = name.drop_last();
        assert forall|i: int| k < i < shorter.len() implies shorter[i] != '.' by {
            assert(shorter[i] == name[i]);
        }
        if k >= 0 {
            assert(shorter[k] == name[k]);
        }
        lemma_last_dot_is_last(shorter, k);
    }
}

/// A file name's last extension is what is dropped: `stem.ext` shows as
/// `stem` whatever the stem holds (dots included), and a name with no dot
/// shows whole.
pub proof fn lemma_extension_is_dropped(stem: Seq<char>, extension: Seq<char>)
    requires
        forall|i: int| 0 <= i < extension.len() ==> extension[i] != '.',
    ensures
        displayed_name_spec(stem + seq!['.'] + extension) == stem,
        displayed_name_spec(extension) == extension,
{
    let name = stem + seq!['.'] + extension;
    assert forall|i: int| stem.len() < i < name.len() implies name[i] != '.' by {
        assert(name[i] == extension[i - stem.len() - 1]);
    }
    lemma_last_dot_is_last(name, stem.len() as int);
    assert(name.take(stem.len() as int) =~= stem);
    lemma_last_dot_is_last(extension, -1);
}

pub fn displayed_name(file_name: &str) -> (name: String)
    ensures
        name@ == displayed_name_spec(file_name@),
        name@.len() <= file_name@.len(),
        name@ == file_name@.take(name@.len() as int),
        name@.len() < file_name@.len() ==> file_name@[name@.len() as int] == '.' && forall|i: int|
            name@.len() < i < file_name@.len() ==> file_name@[i] != '.',
        name@.len() == file_name@.len() ==> forall|i: int|
            0 <= i < file_name@.len() ==> file_name@[i] != '.',
{
    let chars = chars_of(file_name);
    let mut end = chars.len();
    while end > 0 && chars[end - 1] != '.'
        invariant
            chars@ == file_name@,
            end <= chars@.len(),
            forall|i: int| end <= i < chars@.len() ==> chars@[i] != '.',
        decreases end,
    {
        end = end - 1;
    }
    if end == 0 {
        proof {
            lemma_last_dot_is_last(file_name@, -1);
        }
        assert(chars@.subrange(0, chars@.len() as int) =~= file_name@);
        string_of(&chars, 0, chars.len())
    } else {
        proof {
            lemma_last_dot_is_last(file_name@, end - 1);
        }
        assert(chars@.subrange(0, end - 1) =~= file_name@.take(end - 1));
        string_of(&chars, 0, end - 1)
    }
}

/// The character sequences of `strings`.
pub open spec fn views(strings: Seq<String>) -> Seq<Seq<char>> {
    strings.map_values(|s: String| s@)
}

/// Every family name of every face in a file, from what `fc-query` gave
/// (`Err` when it could not run or refused the file); a file in which it
/// found no typeface is an error too.
pub fn file_families(query: Result<String, String>) -> (families: Result<Vec<String>, String>)
    ensures
        match query {
            Err(error) => families == Err::<Vec<String>, String>(error),
            Ok(output) => if family_lines_from(output@, 0).len() == 0 {
                families matches Err(message) && message@
                    == "fontconfig found no typeface in the file"@
            } else {
                families matches Ok(found) && views(found@) == family_lines_from(output@, 0)
            },
        },
{
    let output = match query {
        Ok(output) => output,
        Err(error) => return Err(error),
    };
    let families = family_lines(output.as_str());
    if families.len() == 0 {
        assert(views(families@).len() == 0);
        return Err(String::from_str("fontconfig found no typeface in the file"));
    }
    Ok(families)
}

/// What a user's font file comes to.
#[derive(Clone, Debug, PartialEq, Eq)]
pub enum ImportOutcome {
    /// Stored under this file name.
    Added(String),
    /// fontconfig already has one of the file's families; nothing was kept.
    AlreadyInstalled,
}

/// Whether a family of the file is one fontconfig already lists.
pub open spec fn shares_a_family(families: Seq<Seq<char>>, installed: Seq<Seq<char>>) -> bool {
    exists|i: int, j: int|
        0 <= i < families.len() && 0 <= j < installed.len() && #[trigger] families[i]
            == #[trigger] installed[j]
}

fn is_listed(family: &String, installed: &Vec<String>) -> (listed: bool)
    ensures
        listed == exists|j: int| 0 <= j < installed@.len() && family@ == #[trigger] installed@[j]@,
{
    let mut j: usize = 0;
    while j < installed.len()
        invariant
            j <= installed@.len(),
            forall|k: int| 0 <= k < j ==> family@ != #[trigger] installed@[k]@,
        decreases installed@.len() - j,
    {
        if str_eq(family.as_str(), installed[j].as_str()) {
            return true;
        }
        j = j + 1;
    }
    false
}

/// The copy stored as `stored` (read BEFORE the copy existed, the families
/// fontconfig had are `installed`; the copy's own are `families`): a copy
/// fontconfig cannot read as a typeface, or whose family is installed
/// already, is taken back out (`false`) with its outcome; any other is
/// kept (`true`) and added.
pub fn judge_copy(
    installed: &Vec<String>,
    families: Result<Vec<String>, String>,
    stored: String,
) -> (verdict: (Result<ImportOutcome, String>, bool))
    ensures
        match families {
            Err(error) => verdict == (Err::<ImportOutcome, String>(error), false),
            Ok(found) => if shares_a_family(views(found@), views(installed@)) {
                verdict == (Ok::<ImportOutcome, String>(ImportOutcome::AlreadyInstalled), false)
            } else {
                verdict == (Ok::<ImportOutcome, String>(ImportOutcome::Added(stored)), true)
            },
        },
{
    let found = match families {
        Err(error) => return (Err(error), false),
        Ok(found) => found,
    };
    let mut i: usize = 0;
    while i < found.len()
        invariant
            families == Ok::<Vec<String>, String>(found),
            i <= found@.len(),
            forall|a: int, b: int|
                0 <= a < i && 0 <= b < installed@.len() ==> #[trigger] found@[a]@
                    != #[trigger] installed@[b]@,
        decreases found@.len() - i,
    {
        if is_listed(&found[i], installed) {
            proof {
                let j = choose|j: int| 0 <= j < installed@.len() && found@[i as int]@ == #[trigger] installed@[j]@;
                assert(views(found@)[i as int] == views(installed@)[j]);
            }
            return (Ok(ImportOutcome::AlreadyInstalled), false);
        }
        i = i + 1;
    }
    proof {
        if shares_a_family(views(found@), views(installed@)) {
            let (a, b) = choose|a: int, b: int|
                0 <= a < views(found@).len() && 0 <= b < views(installed@).len() && #[trigger] views(found@)[a]
                    == #[trigger] views(installed@)[b];
            assert(found@[a]@ == installed@[b]@);
        }
    }
    (Ok(ImportOutcome::Added(stored)), true)
}

} // verus!
