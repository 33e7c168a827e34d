//! Which entries of a directory walk are source files to extract from,
//! and which sources need to be parsed at all.

use crate::literal::same_text;
use crate::message::{found_model, ExtractedMessage, Message};
use crate::traversal::EXTRACTED_HOOK;
use vstd::prelude::*;

verus! {

/// The texts of a list of strings.
pub open spec fn names(v: Seq<String>) -> Seq<Seq<char>> {
    v.map_values(|s: String| s@)
}

/// Whether `needle` occurs in `text` at position `at`.
pub open spec fn occurs_at(text: Seq<char>, needle: Seq<char>, at: int) -> bool {
    0 <= at && at + needle.len() <= text.len() && text.subrange(at, at + needle.len()) == needle
}

/// Whether `needle` occurs in `text`.
pub open spec fn occurs_in(text: Seq<char>, needle: Seq<char>) -> bool {
    exists|at: int| occurs_at(text, needle, at)
}

/// Calls `str::contains` with a string as the pattern. Trusted: the
/// result tells whether the pattern occurs somewhere in the text.
#[verifier::external_body]
fn text_contains(text: &str, needle: &str) -> (r: bool)
    ensures
        r == occurs_in(text@, needle@),
{
    text.contains(needle)
}

/// Whether a source can hold messages to extract: only one that mentions
/// the hook is worth parsing.
pub fn mentions_hook(source: &str) -> (r: bool)
    ensures
        r == occurs_in(source@, EXTRACTED_HOOK@),
{
    text_contains(source, EXTRACTED_HOOK)
}

/// Whether `name` is one of `list`.
pub fn is_listed(name: &str, list: &Vec<String>) -> (r: bool)
    ensures
        r == names(list@).contains(name@),
{
    let ghost all = names(list@);
    let mut i: usize = 0;
    while i < list.len()
        invariant
            i <= list@.len(),
            all == names(list@),
            forall|j: int| 0 <= j < i ==> #[trigger] all[j] != name@,
        decreases list@.len() - i,
    {
        assert(all[i as int] == list@[i as int]@);
        if same_text(list[i].as_str(), name) {
            return true;
        }
        i = i + 1;
    }
    false
}

/// Whether a walk goes into an entry: into every directory but one whose
/// name is among the ignored, and past every other entry.
pub fn should_descend(is_dir: bool, name: &str, ignored: &Vec<String>) -> (r: bool)
    ensures
        r == !(is_dir && names(ignored@).contains(name@)),
{
    if is_dir {
        !is_listed(name, ignored)
    } else {
        true
    }
}

/// The extension of a file as the lists of extensions write it: behind a
/// dot.
pub open spec fn dotted(extension: Seq<char>) -> Seq<char> {
    "."@ + extension
}

/// Whether an entry is a source file: a file whose extension, behind a
/// dot, is among `extensions`.
pub fn is_source_file(is_file: bool, extension: Option<&str>, extensions: &Vec<String>) -> (r: bool)
    ensures
        r == (is_file && extension is Some && names(extensions@).contains(dotted(extension->0@))),
{
    if !is_file {
        return false;
    }
    match extension {
        Some(ext) => {
            let mut dotted = String::from_str(".");
            dotted.append(ext);
            is_listed(dotted.as_str(), extensions)
        },
        None => false,
    }
}

/// The messages of one file.
#[derive(Debug, Clone, PartialEq, Eq)]
pub struct FileMessages {
    pub file_path: String,
    pub messages: Vec<Message>,
}

/// The messages that a traversal found in the file at `file_path`, as
/// records to hand out, in their order.
pub fn file_messages(file_path: String, found: Vec<ExtractedMessage>) -> (r: FileMessages)
    ensures
        r.file_path@ == file_path@,
        r.messages@.map_values(|m: Message| m@) == found_model(found@),
{
    FileMessages { file_path, messages: into_messages(found) }
}

/// The messages of a traversal as records to hand out, in their order.
pub fn into_messages(found: Vec<ExtractedMessage>) -> (r: Vec<Message>)
    ensures
        r@.map_values(|m: Message| m@) == found_model(found@),
{
    let mut found = found;
    let ghost all = found_model(found@);
    let mut out: Vec<Message> = Vec::new();
    let mut rest: Vec<ExtractedMessage> = Vec::new();
    // Taken from the end and put back in order.
    while found.len() > 0
        invariant
            found@.len() + rest@.len() == all.len(),
            forall|j: int| 0 <= j < found@.len() ==> (#[trigger] found@[j])@ == all[j],
            forall|j: int|
                0 <= j < rest@.len() ==> (#[trigger] rest@[j])@ == all[all.len() - 1 - j],
        decreases found@.len(),
    {
        match found.pop() {
            Some(m) => {
                rest.push(m);
            },
            None => {},
        }
    }
    while rest.len() > 0
        invariant
            out@.len() + rest@.len() == all.len(),
            forall|j: int| 0 <= j < out@.len() ==> (#[trigger] out@[j])@ == all[j],
            forall|j: int|
                0 <= j < rest@.len() ==> (#[trigger] rest@[j])@ == all[all.len() - 1 - j],
        decreases rest@.len(),
    {
        match rest.pop() {
            Some(m) => {
                out.push(Message::from(m));
            },
            None => {},
        }
    }
    assert(out@.map_values(|m: Message| m@) =~= all);
    out
}

} // verus!
