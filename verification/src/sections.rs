//! The section list of a WebAssembly binary, as plain values.
//!
//! The binary format is read by `wasmparser`. What it finds is copied into
//! [`Section`] records, so that the rest of the library works on names, bytes
//! and offsets and never on the parser's own types.

use vstd::prelude::*;

verus! {

/// One record of a binary's section list.
pub enum Section {
    /// A custom section: its name, its payload after the name, and the range
    /// of input offsets that the name and the payload occupy.
    Custom { name: String, data: Vec<u8>, start: u64, end: u64 },
    /// Any other part of the binary that the parser recognised.
    Other,
    /// The point at which the parser gave up on the input.
    Malformed,
}

/// What a [`Section`] holds, as mathematical values.
pub enum SectionModel {
    Custom { name: Seq<char>, data: Seq<u8>, start: nat, end: nat },
    Other,
    Malformed,
}

impl View for Section {
    type V = SectionModel;

    open spec fn view(&self) -> SectionModel {
        match *self {
            Section::Custom { name, data, start, end } => SectionModel::Custom {
                name: name@,
                data: data@,
                start: start as nat,
                end: end as nat,
            },
            Section::Other => SectionModel::Other,
            Section::Malformed => SectionModel::Malformed,
        }
    }
}

/// The models of a list of sections.
pub open spec fn section_models(sections: Seq<Section>) -> Seq<SectionModel> {
    Seq::new(sections.len(), |k: int| sections[k]@)
}

/// The section list that `wasmparser` reads from `bytes`, nested modules and
/// components included, in the order in which it meets them.
pub uninterp spec fn wasm_sections(bytes: Seq<u8>) -> Seq<SectionModel>;

/// Runs `wasmparser::Parser::parse_all` over `bytes`, with offsets counted
/// from the start of `bytes`, and copies each item that it yields.
///
/// Trusted: the list depends on `bytes` alone. A custom section is copied
/// with the name, data and range that its reader reports; a parse error
/// becomes [`Section::Malformed`] and is the last item; everything else
/// becomes [`Section::Other`].
#[verifier::external_body]
pub(crate) fn parse_sections(bytes: &[u8]) -> (sections: Vec<Section>)
    ensures
        section_models(sections@) == wasm_sections(bytes@),
{
    wasmparser::Parser::new(0).parse_all(bytes).map(|payload| match payload {
        Ok(wasmparser::Payload::CustomSection(reader)) => Section::Custom {
            name: reader.name().to_string(),
            data: reader.data().to_vec(),
            start: reader.range().start,
            end: reader.range().end,
        },
        Ok(_) => Section::Other,
        Err(_) => Section::Malformed,
    }).collect()
}

} // verus!
