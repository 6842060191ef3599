//! The vetting record of a component.
//!
//! A component may carry, in a custom section named ".vet-v0", the
//! zlib-compressed JSON output of `cargo vet` on its dependencies. The
//! output has a field "conclusion"; only the text "success" stands for a
//! component whose dependencies are all vetted.

use vstd::prelude::*;
use crate::sections::{parse_sections, section_models, wasm_sections, Section, SectionModel};

verus! {

/// The name of the custom section that holds the vetting record.
pub const VET_SECTION: &'static str = ".vet-v0";

/// The field of the record that holds the conclusion.
pub const CONCLUSION_FIELD: &'static str = "conclusion";

/// The one conclusion that stands for a component that passed.
pub const SUCCESS: &'static str = "success";

/// Why a component does not count as vetted.
#[derive(Clone, Copy, Debug, PartialEq, Eq, Structural)]
pub enum VetError {
    /// No custom section holds a vetting record.
    Missing,
    /// The record is not a zlib stream.
    NotInflatable,
    /// The inflated record is not JSON.
    NotJson,
    /// The conclusion is missing, is no text, or is not "success".
    Unsuccessful,
}

/// `miniz_oxide::inflate::DecompressError`: why a stream did not inflate.
#[verifier::external_type_specification]
#[verifier::external_body]
pub struct ExDecompressError(miniz_oxide::inflate::DecompressError);

/// `serde_json::Error`: why a text is not JSON.
#[verifier::external_type_specification]
#[verifier::external_body]
pub struct ExJsonError(serde_json::Error);

/// What `miniz_oxide` inflates the zlib stream `data` to, or `None` where
/// `data` is no complete zlib stream.
pub uninterp spec fn zlib_inflated(data: Seq<u8>) -> Option<Seq<u8>>;

/// What `serde_json` finds under `key` in the JSON text `document`: `None`
/// where the text is not JSON; `Some(None)` where it is no object, has no
/// such key, or holds something other than a string there; else the string.
pub uninterp spec fn json_text_field(document: Seq<u8>, key: Seq<char>) -> Option<
    Option<Seq<char>>,
>;

/// Whether a record is a custom section that holds a vetting record.
pub open spec fn holds_vet_record(section: SectionModel) -> bool {
    match section {
        SectionModel::Custom { name, .. } => name == VET_SECTION@,
        _ => false,
    }
}

/// The index of the first record at or after `from` that holds a vetting
/// record, or the number of records where there is none.
pub open spec fn first_vet_record(sections: Seq<SectionModel>, from: int) -> int
    decreases sections.len() - from,
{
    if from < 0 || from >= sections.len() {
        sections.len() as int
    } else if holds_vet_record(sections[from]) {
        from
    } else {
        first_vet_record(sections, from + 1)
    }
}

/// What a vetting record says: success only where it inflates, is JSON and
/// concludes with "success".
pub open spec fn vet_record_outcome(data: Seq<u8>) -> Result<(), VetError> {
    match zlib_inflated(data) {
        None => Err(VetError::NotInflatable),
        Some(document) => match json_text_field(document, CONCLUSION_FIELD@) {
            None => Err(VetError::NotJson),
            Some(conclusion) => if conclusion == Some(SUCCESS@) {
                Ok(())
            } else {
                Err(VetError::Unsuccessful)
            },
        },
    }
}

/// What a section list says of its component's vetting: what its first
/// vetting record says, and `Missing` without one.
pub open spec fn vet_in(sections: Seq<SectionModel>) -> Result<(), VetError> {
    let at = first_vet_record(sections, 0);
    if at < sections.len() {
        vet_record_outcome(sections[at]->data)
    } else {
        Err(VetError::Missing)
    }
}

/// Whether the component in `bytes` counts as vetted, and why not.
pub open spec fn vet_outcome(bytes: Seq<u8>) -> Result<(), VetError> {
    vet_in(wasm_sections(bytes))
}

/// `first_vet_record` finds a vetting record with none before it, or finds
/// that there is none at all.
pub proof fn lemma_first_vet_record_exact(sections: Seq<SectionModel>, from: int)
    requires
        0 <= from <= sections.len(),
    ensures
        from <= first_vet_record(sections, from) <= sections.len(),
        first_vet_record(sections, from) < sections.len() ==> holds_vet_record(
            sections[first_vet_record(sections, from)],
        ),
        forall|k: int|
            from <= k < first_vet_record(sections, from) ==> !holds_vet_record(
                #[trigger] sections[k],
            ),
    decreases sections.len() - from,
{
    if from < sections.len() && !holds_vet_record(sections[from]) {
        lemma_first_vet_record_exact(sections, from + 1);
    }
}

/// Calls `miniz_oxide::inflate::decompress_to_vec_zlib`.
///
/// Trusted: the outcome depends on `data` alone. The output is not bounded.
#[verifier::external_body]
pub(crate) fn inflate_zlib(data: &[u8]) -> (inflated: Result<
    Vec<u8>,
    miniz_oxide::inflate::DecompressError,
>)
    ensures
        match inflated {
            Ok(bytes) => zlib_inflated(data@) == Some(bytes@),
            Err(_) => zlib_inflated(data@) is None,
        },
{
    miniz_oxide::inflate::decompress_to_vec_zlib(data)
}

/// Parses `document` with `serde_json::from_slice` into a `Value` and takes
/// the string that it holds under `key`.
///
/// Trusted: the outcome depends on `document` and `key` alone.
#[verifier::external_body]
pub(crate) fn read_json_text_field(document: &[u8], key: &str) -> (field: Result<
    Option<String>,
    serde_json::Error,
>)
    ensures
        match field {
            Ok(Some(text)) => json_text_field(document@, key@) == Some(Some(text@)),
            Ok(None) => json_text_field(document@, key@) == Some(None::<Seq<char>>),
            Err(_) => json_text_field(document@, key@) is None,
        },
{
    let value: serde_json::Value = serde_json::from_slice(document)?;
    Ok(value[key].as_str().map(|text| text.to_string()))
}

/// Finds the first record that holds a vetting record.
pub fn find_vet_record(sections: &Vec<Section>) -> (found: Option<usize>)
    ensures
        match found {
            Some(at) => at < sections@.len() && at == first_vet_record(
                section_models(sections@),
                0,
            ),
            None => first_vet_record(section_models(sections@), 0) == sections@.len(),
        },
{
    let wanted = VET_SECTION.to_owned();
    let mut next: usize = 0;
    while next < sections.len()
        invariant
            next <= sections.len(),
            wanted@ == VET_SECTION@,
            first_vet_record(section_models(sections@), 0) == first_vet_record(
                section_models(sections@),
                next as int,
            ),
        decreases sections.len() - next,
    {
        match &sections[next] {
            Section::Custom { name, .. } => {
                if *name == wanted {
                    return Some(next);
                }
            },
            _ => {},
        }
        next += 1;
    }
    None
}

/// Judges what a conclusion says: only the text "success" passes.
pub fn judge_conclusion(conclusion: &Option<String>) -> (outcome: Result<(), VetError>)
    ensures
        outcome == if conclusion is Some && conclusion->0@ == SUCCESS@ {
            Ok::<(), VetError>(())
        } else {
            Err(VetError::Unsuccessful)
        },
{
    match conclusion {
        Some(text) => {
            if *text == SUCCESS.to_owned() {
                Ok(())
            } else {
                Err(VetError::Unsuccessful)
            }
        },
        None => Err(VetError::Unsuccessful),
    }
}

/// Inflates a vetting record, reads it as JSON and judges its conclusion.
pub fn judge_vet_record(data: &[u8]) -> (outcome: Result<(), VetError>)
    ensures
        outcome == vet_record_outcome(data@),
{
    let document = match inflate_zlib(data) {
        Ok(document) => document,
        Err(_) => {
            return Err(VetError::NotInflatable);
        },
    };
    match read_json_text_field(document.as_slice(), CONCLUSION_FIELD) {
        Ok(conclusion) => {
            judge_conclusion(&conclusion)
        },
        Err(_) => Err(VetError::NotJson),
    }
}

/// What a section list says of its component's vetting.
pub fn vet_from_sections(sections: &Vec<Section>) -> (outcome: Result<(), VetError>)
    ensures
        outcome == vet_in(section_models(sections@)),
{
    match find_vet_record(sections) {
        Some(at) => {
            proof {
                lemma_first_vet_record_exact(section_models(sections@), 0);
            }
            match &sections[at] {
                Section::Custom { data, .. } => judge_vet_record(data.as_slice()),
                _ => Err(VetError::Missing),
            }
        },
        None => Err(VetError::Missing),
    }
}

/// Looks for the vetting record of the component in `bytes` and judges it.
///
/// Only the first custom section named ".vet-v0" is read. `Ok` means that
/// the record concludes with "success"; every other case is an error that
/// says what was found instead.
pub fn vet_component(bytes: &[u8]) -> (outcome: Result<(), VetError>)
    ensures
        outcome == vet_outcome(bytes@),
{
    let sections = parse_sections(bytes);
    vet_from_sections(&sections)
}

} // verus!
