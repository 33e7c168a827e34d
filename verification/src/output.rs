//! What a traversal reports for one module: the messages found, merged by
//! identifier, and the facts about the module itself.

use crate::ast::{copy_opt_text, opt_text};
use vstd::prelude::*;

verus! {

/// A place where a message is used.
#[derive(Debug, Clone, PartialEq, Eq)]
pub struct Reference {
    pub path: String,
    pub line: Option<u32>,
    pub column: Option<u32>,
}

/// What a [`Reference`] holds, as mathematical values.
pub struct ReferenceModel {
    pub path: Seq<char>,
    pub line: Option<u32>,
    pub column: Option<u32>,
}

impl View for Reference {
    type V = ReferenceModel;

    open spec fn view(&self) -> ReferenceModel {
        ReferenceModel { path: self.path@, line: self.line, column: self.column }
    }
}

/// The models of a list of references.
pub open spec fn references_model(refs: Seq<Reference>) -> Seq<ReferenceModel> {
    refs.map_values(|r: Reference| r@)
}

/// A message that was written inline in the module.
#[derive(Debug, Clone, PartialEq, Eq)]
pub struct StrictExtractedMessage {
    pub id: String,
    pub message: String,
    pub description: Option<String>,
    pub references: Vec<Reference>,
}

/// What a [`StrictExtractedMessage`] holds, as mathematical values.
pub struct ExtractedModel {
    pub id: Seq<char>,
    pub message: Seq<char>,
    pub description: Option<Seq<char>>,
    pub references: Seq<ReferenceModel>,
}

impl View for StrictExtractedMessage {
    type V = ExtractedModel;

    open spec fn view(&self) -> ExtractedModel {
        ExtractedModel {
            id: self.id@,
            message: self.message@,
            description: opt_text(self.description),
            references: references_model(self.references@),
        }
    }
}

/// One entry of the report: a message extracted from the module, or a use
/// of a key of an existing catalog.
#[derive(Debug, Clone, PartialEq, Eq)]
pub enum OutputMessage {
    Extracted(StrictExtractedMessage),
    Translations { id: String, references: Vec<Reference> },
}

/// What an [`OutputMessage`] holds, as mathematical values.
pub enum OutputMessageModel {
    Extracted(ExtractedModel),
    Translations { id: Seq<char>, references: Seq<ReferenceModel> },
}

impl View for OutputMessage {
    type V = OutputMessageModel;

    open spec fn view(&self) -> OutputMessageModel {
        match self {
            OutputMessage::Extracted(m) => OutputMessageModel::Extracted(m@),
            OutputMessage::Translations { id, references } => OutputMessageModel::Translations {
                id: id@,
                references: references_model(references@),
            },
        }
    }
}

/// The models of a list of entries.
pub open spec fn messages_model(ms: Seq<OutputMessage>) -> Seq<OutputMessageModel> {
    ms.map_values(|m: OutputMessage| m@)
}

/// Whether `m` is an extracted message with identifier `id`.
pub open spec fn is_extracted_as(m: OutputMessageModel, id: Seq<char>) -> bool {
    match m {
        OutputMessageModel::Extracted(e) => e.id == id,
        OutputMessageModel::Translations { .. } => false,
    }
}

/// The position of the first extracted message of `ms` with identifier
/// `id`.
pub open spec fn find_extracted(ms: Seq<OutputMessageModel>, id: Seq<char>) -> Option<int>
    decreases ms.len(),
{
    if ms.len() == 0 {
        None
    } else {
        match find_extracted(ms.drop_last(), id) {
            Some(i) => Some(i),
            None => if is_extracted_as(ms.last(), id) {
                Some(ms.len() - 1)
            } else {
                None
            },
        }
    }
}

/// Whether a description is given and not empty.
pub open spec fn has_text(d: Option<Seq<char>>) -> bool {
    d is Some && d->0.len() > 0
}

/// The description of two merged occurrences: the first that is given and
/// not empty.
pub open spec fn merged_description(first: Option<Seq<char>>, second: Option<Seq<char>>) -> Option<
    Seq<char>,
> {
    if has_text(first) {
        first
    } else if has_text(second) {
        second
    } else {
        first
    }
}

/// An earlier occurrence of a message merged with a later one of the same
/// identifier: the references of both, the earlier text, and the first
/// description that is not empty.
pub open spec fn merged(first: ExtractedModel, second: ExtractedModel) -> ExtractedModel {
    ExtractedModel {
        id: first.id,
        message: first.message,
        description: merged_description(first.description, second.description),
        references: first.references + second.references,
    }
}

/// The entries after an extracted message was recorded: merged into the
/// first extracted message of the same identifier, or added at the end.
pub open spec fn with_extracted(ms: Seq<OutputMessageModel>, m: ExtractedModel) -> Seq<
    OutputMessageModel,
> {
    match find_extracted(ms, m.id) {
        Some(i) => ms.update(i, OutputMessageModel::Extracted(merged(ms[i]->Extracted_0, m))),
        None => ms.push(OutputMessageModel::Extracted(m)),
    }
}

/// What `find_extracted` finds is an extracted message of that identifier,
/// and none stands before it.
pub proof fn find_extracted_is_first(ms: Seq<OutputMessageModel>, id: Seq<char>)
    ensures
        match find_extracted(ms, id) {
            Some(i) => 0 <= i < ms.len() && is_extracted_as(ms[i], id) && forall|j: int|
                0 <= j < i ==> !is_extracted_as(#[trigger] ms[j], id),
            None => forall|j: int| 0 <= j < ms.len() ==> !is_extracted_as(#[trigger] ms[j], id),
        },
    decreases ms.len(),
{
    if ms.len() > 0 {
        find_extracted_is_first(ms.drop_last(), id);
        assert forall|j: int| 0 <= j < ms.len() - 1 implies ms[j] == ms.drop_last()[j] by {}
    }
}

/// Whether a description is given and not empty.
pub fn description_given(d: &Option<String>) -> (r: bool)
    ensures
        r == has_text(opt_text(*d)),
{
    match d {
        Some(t) => t.as_str().unicode_len() > 0,
        None => false,
    }
}

/// Merges a later occurrence into an earlier one.
pub fn merge_message(first: StrictExtractedMessage, second: StrictExtractedMessage) -> (r:
    StrictExtractedMessage)
    ensures
        r@ == merged(first@, second@),
{
    let StrictExtractedMessage { id, message, description, references } = first;
    let mut references = references;
    let mut later = second.references;
    let ghost a = references@;
    let ghost b = later@;
    references.append(&mut later);
    assert(references_model(a + b) =~= references_model(a) + references_model(b));
    let description = if description_given(&description) {
        description
    } else if description_given(&second.description) {
        copy_opt_text(&second.description)
    } else {
        description
    };
    StrictExtractedMessage { id, message, description, references }
}

/// Finds the first extracted message with identifier `id`.
pub fn position_of_extracted(results: &Vec<OutputMessage>, id: &String) -> (r: Option<usize>)
    ensures
        match r {
            Some(i) => find_extracted(messages_model(results@), id@) == Some(i as int),
            None => find_extracted(messages_model(results@), id@) is None,
        },
{
    let ghost all = messages_model(results@);
    let mut i: usize = 0;
    while i < results.len()
        invariant
            i <= results@.len(),
            all == messages_model(results@),
            find_extracted(all.take(i as int), id@) is None,
        decreases results@.len() - i,
    {
        assert(all.take(i + 1).drop_last() =~= all.take(i as int));
        assert(all.take(i + 1).last() == results@[i as int]@);
        let hit = match &results[i] {
            OutputMessage::Extracted(e) => e.id == *id,
            OutputMessage::Translations { .. } => false,
        };
        if hit {
            proof {
                found_stays(all, i as int, id@);
            }
            return Some(i);
        }
        i = i + 1;
    }
    assert(all.take(i as int) =~= all);
    None
}

/// Records an extracted message: merges it into the first extracted
/// message of the same identifier, or adds it at the end.
pub fn record_extracted(results: &mut Vec<OutputMessage>, m: StrictExtractedMessage)
    ensures
        messages_model(final(results)@) == with_extracted(messages_model(old(results)@), m@),
{
    let ghost before = messages_model(results@);
    match position_of_extracted(results, &m.id) {
        Some(i) => {
            proof {
                find_extracted_is_first(before, m@.id);
            }
            let first = match results.remove(i) {
                OutputMessage::Extracted(e) => e,
                OutputMessage::Translations { .. } => unreached(),
            };
            results.insert(i, OutputMessage::Extracted(merge_message(first, m)));
            assert(messages_model(results@) =~= with_extracted(before, m@));
        },
        None => {
            results.push(OutputMessage::Extracted(m));
            assert(messages_model(results@) =~= with_extracted(before, m@));
        },
    }
}

/// A message found in a prefix is found at the same place in the whole.
pub proof fn found_stays(ms: Seq<OutputMessageModel>, i: int, id: Seq<char>)
    requires
        0 <= i < ms.len(),
        find_extracted(ms.take(i), id) is None,
        is_extracted_as(ms[i], id),
    ensures
        find_extracted(ms, id) == Some(i),
{
    find_extracted_is_first(ms, id);
    find_extracted_is_first(ms.take(i), id);
    assert forall|j: int| 0 <= j < i implies !is_extracted_as(#[trigger] ms[j], id) by {
        assert(ms[j] == ms.take(i)[j]);
    }
}

/// Records a use of a key of an existing catalog, at the end.
pub fn record_translation(results: &mut Vec<OutputMessage>, id: String, reference: Reference)
    ensures
        messages_model(final(results)@) == messages_model(old(results)@).push(
            OutputMessageModel::Translations { id: id@, references: seq![reference@] },
        ),
{
    let mut references: Vec<Reference> = Vec::new();
    references.push(reference);
    assert(references_model(references@) =~= seq![reference@]);
    let ghost before = messages_model(results@);
    results.push(OutputMessage::Translations { id, references });
    assert(messages_model(results@) =~= before.push(
        OutputMessageModel::Translations { id: id@, references: seq![reference@] },
    ));
}

/// The report on one module.
#[derive(Debug, Clone, PartialEq, Eq)]
pub struct ModuleOutput {
    /// The messages found, in source order, each identifier of an
    /// extracted message once.
    pub messages: Vec<OutputMessage>,
    /// The modules that the module imports, in the order found, with
    /// repetitions.
    pub dependencies: Vec<String>,
    pub has_use_client: bool,
    pub has_use_server: bool,
}

/// What a [`ModuleOutput`] holds, as mathematical values.
pub struct ModuleOutputModel {
    pub messages: Seq<OutputMessageModel>,
    pub dependencies: Seq<Seq<char>>,
    pub has_use_client: bool,
    pub has_use_server: bool,
}

impl View for ModuleOutput {
    type V = ModuleOutputModel;

    open spec fn view(&self) -> ModuleOutputModel {
        ModuleOutputModel {
            messages: messages_model(self.messages@),
            dependencies: self.dependencies@.map_values(|s: String| s@),
            has_use_client: self.has_use_client,
            has_use_server: self.has_use_server,
        }
    }
}

} // verus!
