//! A display name for a component, read from its embedded name metadata.
//!
//! The name is for messages only. Whatever the bytes hold, a name comes back:
//! the one recorded in the component, or [`UNKNOWN_NAME`].

use vstd::prelude::*;
use vstd::slice::*;
use vstd::utf8::{decode_utf8, valid_utf8};
use crate::sections::{parse_sections, section_models, wasm_sections, Section, SectionModel};

verus! {

/// The name given to a component that records none.
pub const UNKNOWN_NAME: &'static str = "UNKNOWN_NAME";

/// The name of the custom section that holds names.
pub const NAME_SECTION: &'static str = "name";

/// The identifier of the subsection that holds the module's own name.
pub const MODULE_NAME_ID: u8 = 0;

/// Whether a record is a custom section named "name" whose payload opens
/// with the module-name subsection.
pub open spec fn holds_module_name(section: SectionModel) -> bool {
    match section {
        SectionModel::Custom { name, data, .. } => name == NAME_SECTION@ && data.len() >= 1
            && data[0] == MODULE_NAME_ID,
        _ => false,
    }
}

/// The index of the first record at or after `from` that holds a module
/// name, or the number of records where there is none.
pub open spec fn first_module_name(sections: Seq<SectionModel>, from: int) -> int
    decreases sections.len() - from,
{
    if from < 0 || from >= sections.len() {
        sections.len() as int
    } else if holds_module_name(sections[from]) {
        from
    } else {
        first_module_name(sections, from + 1)
    }
}

/// The bytes of the name in a payload that opens with the module-name
/// subsection: one byte of length at offset one, then that many bytes.
/// `None` where the payload is too short for what the length says.
pub open spec fn module_name_bytes(data: Seq<u8>) -> Option<Seq<u8>> {
    if data.len() >= 2 && 2 + data[1] <= data.len() {
        Some(data.subrange(2, 2 + data[1]))
    } else {
        None
    }
}

/// What `String::from_utf8_lossy` makes of `bytes`.
pub uninterp spec fn utf8_lossy(bytes: Seq<u8>) -> Seq<char>;

/// The bytes of the name that a section list records: those in the first
/// record that holds a module name. `None` where no record holds one, or
/// the first that does is cut short.
pub open spec fn name_bytes_in(sections: Seq<SectionModel>) -> Option<Seq<u8>> {
    let at = first_module_name(sections, 0);
    if at < sections.len() {
        module_name_bytes(sections[at]->data)
    } else {
        None
    }
}

/// The name that a section list gives: the recorded bytes decoded
/// leniently, or [`UNKNOWN_NAME`] where none are recorded.
pub open spec fn name_in(sections: Seq<SectionModel>) -> Seq<char> {
    match name_bytes_in(sections) {
        Some(bytes) => utf8_lossy(bytes),
        None => UNKNOWN_NAME@,
    }
}

/// The name of the component in `bytes`.
pub open spec fn component_name(bytes: Seq<u8>) -> Seq<char> {
    name_in(wasm_sections(bytes))
}

/// `first_module_name` finds a record that holds a module name, with none
/// before it, or finds that there is none at all.
pub proof fn lemma_first_module_name_exact(sections: Seq<SectionModel>, from: int)
    requires
        0 <= from <= sections.len(),
    ensures
        from <= first_module_name(sections, from) <= sections.len(),
        first_module_name(sections, from) < sections.len() ==> holds_module_name(
            sections[first_module_name(sections, from)],
        ),
        forall|k: int|
            from <= k < first_module_name(sections, from) ==> !holds_module_name(
                #[trigger] sections[k],
            ),
    decreases sections.len() - from,
{
    if from < sections.len() && !holds_module_name(sections[from]) {
        lemma_first_module_name_exact(sections, from + 1);
    }
}

/// A section list without a custom section named "name" gives the unknown name.
pub proof fn lemma_no_name_section_is_unknown(sections: Seq<SectionModel>)
    requires
        forall|k: int|
            0 <= k < sections.len() && (#[trigger] sections[k]) is Custom ==> sections[k]->name
                != NAME_SECTION@,
    ensures
        name_in(sections) == UNKNOWN_NAME@,
{
    lemma_first_module_name_exact(sections, 0);
}

/// A well-formed module-name subsection in the first section named "name"
/// gives the name that it spells.
pub proof fn lemma_well_formed_name_is_decoded(sections: Seq<SectionModel>, at: int)
    requires
        0 <= at < sections.len(),
        holds_module_name(sections[at]),
        forall|k: int| 0 <= k < at ==> !holds_module_name(#[trigger] sections[k]),
        module_name_bytes(sections[at]->data) is Some,
    ensures
        name_bytes_in(sections) == module_name_bytes(sections[at]->data),
        name_in(sections) == utf8_lossy(module_name_bytes(sections[at]->data)->0),
{
    lemma_first_module_name_exact(sections, 0);
    assert(first_module_name(sections, 0) == at);
}

/// Calls `String::from_utf8_lossy` and takes the result as an owned string.
///
/// Trusted: the text depends on `bytes` alone, and valid UTF-8 is decoded as
/// it stands. Invalid sequences are replaced, as std documents.
#[verifier::external_body]
pub(crate) fn decode_lossy(bytes: &[u8]) -> (text: String)
    ensures
        text@ == utf8_lossy(bytes@),
        valid_utf8(bytes@) ==> text@ == decode_utf8(bytes@),
{
    String::from_utf8_lossy(bytes).into_owned()
}

/// Finds the first record that holds a module name.
pub fn find_module_name(sections: &Vec<Section>) -> (found: Option<usize>)
    ensures
        match found {
            Some(at) => at < sections@.len() && at == first_module_name(
                section_models(sections@),
                0,
            ),
            None => first_module_name(section_models(sections@), 0) == sections@.len(),
        },
{
    let wanted = NAME_SECTION.to_owned();
    let mut next: usize = 0;
    while next < sections.len()
        invariant
            next <= sections.len(),
            wanted@ == NAME_SECTION@,
            first_module_name(section_models(sections@), 0) == first_module_name(
                section_models(sections@),
                next as int,
            ),
        decreases sections.len() - next,
    {
        match &sections[next] {
            Section::Custom { name, data, .. } => {
                if *name == wanted && data.len() >= 1 && data[0] == MODULE_NAME_ID {
                    return Some(next);
                }
            },
            _ => {},
        }
        next += 1;
    }
    None
}

/// Reads the name out of a payload that opens with the module-name
/// subsection, or gives [`UNKNOWN_NAME`] where the payload is cut short.
pub fn read_module_name(data: &[u8]) -> (name: String)
    ensures
        name@ == match module_name_bytes(data@) {
            Some(bytes) => utf8_lossy(bytes),
            None => UNKNOWN_NAME@,
        },
        module_name_bytes(data@) is Some && valid_utf8(module_name_bytes(data@)->0) ==> name@
            == decode_utf8(module_name_bytes(data@)->0),
{
    if data.len() < 2 {
        return UNKNOWN_NAME.to_owned();
    }
    let length = data[1] as usize;
    if length > data.len() - 2 {
        return UNKNOWN_NAME.to_owned();
    }
    decode_lossy(slice_subrange(data, 2, 2 + length))
}

/// The name that a section list gives to its component.
pub fn name_from_sections(sections: &Vec<Section>) -> (name: String)
    ensures
        name@ == name_in(section_models(sections@)),
        match name_bytes_in(section_models(sections@)) {
            Some(bytes) => valid_utf8(bytes) ==> name@ == decode_utf8(bytes),
            None => name@ == UNKNOWN_NAME@,
        },
{
    match find_module_name(sections) {
        Some(at) => {
            proof {
                lemma_first_module_name_exact(section_models(sections@), 0);
            }
            match &sections[at] {
                Section::Custom { data, .. } => read_module_name(data.as_slice()),
                _ => UNKNOWN_NAME.to_owned(),
            }
        },
        None => UNKNOWN_NAME.to_owned(),
    }
}

/// Gives a display name for the component in `file_contents`.
///
/// Only the first custom section named "name" whose payload opens with the
/// module-name subsection is read. Whatever the bytes hold, a name comes
/// back: this function reports no error.
pub fn get_name(file_contents: &[u8]) -> (name: String)
    ensures
        name@ == component_name(file_contents@),
        match name_bytes_in(wasm_sections(file_contents@)) {
            Some(bytes) => valid_utf8(bytes) ==> name@ == decode_utf8(bytes),
            None => name@ == UNKNOWN_NAME@,
        },
{
    let sections = parse_sections(file_contents);
    name_from_sections(&sections)
}

} // verus!
