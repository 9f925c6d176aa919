//! The compilation database: what language servers and analyzers read to
//! learn how a source file is compiled.

use vstd::prelude::*;
use crate::command::compile_command;
use crate::config::{texts_of, BuildView};
use crate::text::{join, joined};

verus! {

/// One translation unit: where the compiler runs, the command, the file.
#[derive(Debug, PartialEq, Eq)]
pub struct CompilationEntry {
    pub directory: String,
    pub command: String,
    pub file: String,
}

#[derive(Debug, PartialEq, Eq)]
pub struct CompilationDatabase {
    pub entries: Vec<CompilationEntry>,
}

pub ghost struct EntryView {
    pub directory: Seq<char>,
    pub command: Seq<char>,
    pub file: Seq<char>,
}

impl View for CompilationEntry {
    type V = EntryView;

    open spec fn view(&self) -> EntryView {
        EntryView { directory: self.directory@, command: self.command@, file: self.file@ }
    }
}

impl View for CompilationDatabase {
    type V = Seq<EntryView>;

    open spec fn view(&self) -> Seq<EntryView> {
        Seq::new(self.entries@.len(), |i: int| self.entries@[i]@)
    }
}

/// The database of a build in a project directory: a single entry, for the
/// file `src/main.c`, with the build's compile command.
pub open spec fn database_of(build: BuildView, project_path: Seq<char>) -> Seq<EntryView> {
    seq![
        EntryView {
            directory: project_path,
            command: compile_command(build),
            file: "src/main.c"@,
        },
    ]
}

/// The JSON string literal for a text, quotes included, as `serde_json`
/// writes it.
pub uninterp spec fn json_string(text: Seq<char>) -> Seq<char>;

/// Writes a text as a JSON string literal. This is `serde_json`'s `Display`
/// of `Value::String`, in its compact form; of the result nothing is known
/// here but that it is `json_string` of the text.
#[verifier::external_body]
fn quote(text: &String) -> (r: String)
    ensures
        r@ == json_string(text@),
{
    serde_json::Value::String(text.clone()).to_string()
}

/// A JSON object with the three members of an entry, keys in alphabetical
/// order, from the three values as JSON literals.
pub open spec fn entry_object(directory: Seq<char>, command: Seq<char>, file: Seq<char>) -> Seq<char> {
    "{\"command\":"@ + command + ",\"directory\":"@ + directory + ",\"file\":"@ + file + "}"@
}

/// A JSON array of the items, which are JSON texts.
pub open spec fn array_of(items: Seq<Seq<char>>) -> Seq<char> {
    "["@ + joined(items, ","@) + "]"@
}

/// An entry as a JSON object.
pub open spec fn entry_json(entry: EntryView) -> Seq<char> {
    entry_object(
        json_string(entry.directory),
        json_string(entry.command),
        json_string(entry.file),
    )
}

/// A database as compact JSON: an array with one object for each entry.
pub open spec fn database_json(entries: Seq<EntryView>) -> Seq<char> {
    array_of(Seq::new(entries.len(), |i: int| entry_json(entries[i])))
}

/// Frames three JSON literals as the object of an entry.
pub fn frame_entry(directory: &String, command: &String, file: &String) -> (r: String)
    ensures
        r@ == entry_object(directory@, command@, file@),
{
    let mut r = "{\"command\":".to_owned();
    r.append(command.as_str());
    r.append(",\"directory\":");
    r.append(directory.as_str());
    r.append(",\"file\":");
    r.append(file.as_str());
    r.append("}");
    r
}

/// Frames JSON texts as an array.
pub fn frame_array(items: &Vec<String>) -> (r: String)
    ensures
        r@ == array_of(texts_of(items@)),
{
    let mut r = "[".to_owned();
    let inner = join(items, ",");
    r.append(inner.as_str());
    r.append("]");
    r
}

impl CompilationEntry {
    /// The entry as a JSON object.
    pub fn to_json(&self) -> (r: String)
        ensures
            r@ == entry_json(self@),
    {
        let directory = quote(&self.directory);
        let command = quote(&self.command);
        let file = quote(&self.file);
        frame_entry(&directory, &command, &file)
    }
}

impl CompilationDatabase {
    /// The database as compact JSON, without whitespace around it.
    pub fn to_json(&self) -> (r: String)
        ensures
            r@ == database_json(self@),
    {
        let mut items: Vec<String> = Vec::new();
        let mut i: usize = 0;
        while i < self.entries.len()
            invariant
                i <= self.entries.len(),
                items@.len() == i,
                forall|j: int| 0 <= j < i ==> items@[j]@ == entry_json(self.entries@[j]@),
            decreases self.entries.len() - i,
        {
            items.push(self.entries[i].to_json());
            i += 1;
        }
        assert(texts_of(items@) =~= Seq::new(self@.len(), |i: int| entry_json(self@[i])));
        frame_array(&items)
    }
}

} // verus!
