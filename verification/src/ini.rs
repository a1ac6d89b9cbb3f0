//! The sectioned `key = value` text of a configuration file.
//!
//! The text is read by the `tini` crate. What it finds is handed on as plain
//! sections, in the order of the file, and everything else in the library
//! works on those.

use vstd::prelude::*;
use vstd::string::StringExecFns;

verus! {

/// One `key = value` line of a section.
#[derive(Debug)]
pub struct Entry {
    pub key: String,
    pub value: String,
}

/// One section: its name and its lines, in the order of the file.
#[derive(Debug)]
pub struct Section {
    pub name: String,
    pub entries: Vec<Entry>,
}

impl View for Entry {
    type V = (Seq<char>, Seq<char>);

    open spec fn view(&self) -> (Seq<char>, Seq<char>) {
        (self.key@, self.value@)
    }
}

impl View for Section {
    type V = (Seq<char>, Seq<(Seq<char>, Seq<char>)>);

    open spec fn view(&self) -> (Seq<char>, Seq<(Seq<char>, Seq<char>)>) {
        (self.name@, entries_view(self.entries@))
    }
}

/// The lines of a section as pairs of key and value.
pub open spec fn entries_view(entries: Seq<Entry>) -> Seq<(Seq<char>, Seq<char>)> {
    entries.map_values(|e: Entry| e@)
}

/// The sections of a document, each as its name and its lines.
pub open spec fn document_view(doc: Seq<Section>) -> Seq<(Seq<char>, Seq<(Seq<char>, Seq<char>)>)> {
    doc.map_values(|s: Section| s@)
}

/// The value that a section gives to `key`: that of the last line with this
/// key, if there is one.
pub open spec fn value_of(entries: Seq<(Seq<char>, Seq<char>)>, key: Seq<char>) -> Option<Seq<char>>
    decreases entries.len(),
{
    if entries.len() == 0 {
        None
    } else if entries.last().0 == key {
        Some(entries.last().1)
    } else {
        value_of(entries.drop_last(), key)
    }
}

/// What `tini` reads out of a text: its sections in order of appearance, each
/// with its lines in order; or nothing where `tini` refuses the text.
pub uninterp spec fn ini_document(text: Seq<char>) -> Option<Seq<(Seq<char>, Seq<(Seq<char>, Seq<char>)>)>>;

/// Calls `tini::Ini::from_string` and walks the result with `Ini::iter` and
/// `Section::iter`, copying each name, key and value. The contract gives the
/// outcome its name, `ini_document`, and claims nothing else of it.
#[verifier::external_body]
pub(crate) fn read_document(text: &str) -> (doc: Option<Vec<Section>>)
    ensures
        match doc {
            Some(d) => ini_document(text@) == Some(document_view(d@)),
            None => ini_document(text@) is None,
        },
{
    let ini = tini::Ini::from_string(text).ok()?;
    Some(ini.iter().map(|(name, section)| Section {
        name: name.clone(),
        entries: section.iter().map(|(k, v)| Entry { key: k.clone(), value: v.clone() }).collect(),
    }).collect())
}

/// Looks `key` up in the lines of a section.
pub fn lookup<'a>(entries: &'a Vec<Entry>, key: &str) -> (value: Option<&'a String>)
    ensures
        match value {
            Some(v) => value_of(entries_view(entries@), key@) == Some(v@),
            None => value_of(entries_view(entries@), key@) is None,
        },
{
    let wanted = String::from_str(key);
    let mut i: usize = entries.len();
    assert(entries_view(entries@).take(i as int) == entries_view(entries@));
    while i > 0
        invariant
            i <= entries.len(),
            wanted@ == key@,
            value_of(entries_view(entries@), key@) == value_of(
                entries_view(entries@).take(i as int),
                key@,
            ),
        decreases i,
    {
        let ghost before = entries_view(entries@).take(i as int);
        i = i - 1;
        assert(before.drop_last() == entries_view(entries@).take(i as int));
        assert(before.last() == entries@[i as int]@);
        if entries[i].key == wanted {
            return Some(&entries[i].value);
        }
    }
    assert(entries_view(entries@).take(0).len() == 0);
    None
}

/// Looks `key` up in the lines of a section and copies what it finds.
pub fn lookup_owned(entries: &Vec<Entry>, key: &str) -> (value: Option<String>)
    ensures
        match value {
            Some(v) => value_of(entries_view(entries@), key@) == Some(v@),
            None => value_of(entries_view(entries@), key@) is None,
        },
{
    match lookup(entries, key) {
        Some(v) => Some(v.clone()),
        None => None,
    }
}

} // verus!
