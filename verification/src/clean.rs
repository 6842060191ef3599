//! Trimming a component to the bytes that were signed.
//!
//! Composition appends padding and linking data behind the last custom
//! section of each embedded component. Those bytes were not there when the
//! component was signed, so a digest over the untrimmed bytes never matches.
//! Cleaning cuts a component off at the highest end offset among its custom
//! sections. It is meant for the components below the root only: the root is
//! the composition as it was signed, and trimming it would change its digest.

use vstd::prelude::*;
use vstd::slice::*;
use crate::sections::{parse_sections, section_models, wasm_sections, Section, SectionModel};

verus! {

/// The end offset of a custom section, and zero for any other record.
pub open spec fn custom_end(section: SectionModel) -> nat {
    match section {
        SectionModel::Custom { end, .. } => end,
        _ => 0,
    }
}

/// The highest end offset among the custom sections, and zero without one.
pub open spec fn highest_custom_end(sections: Seq<SectionModel>) -> nat
    decreases sections.len(),
{
    if sections.len() == 0 {
        0
    } else {
        let before = highest_custom_end(sections.drop_last());
        if custom_end(sections.last()) > before {
            custom_end(sections.last())
        } else {
            before
        }
    }
}

/// How many bytes of a buffer of `len` bytes are kept: up to the highest end
/// of a custom section, and never more than there are.
pub open spec fn kept_length(sections: Seq<SectionModel>, len: nat) -> nat {
    if highest_custom_end(sections) < len {
        highest_custom_end(sections)
    } else {
        len
    }
}

/// `bytes` cut off behind the last of the given sections.
pub open spec fn trimmed(bytes: Seq<u8>, sections: Seq<SectionModel>) -> Seq<u8> {
    bytes.take(kept_length(sections, bytes.len()) as int)
}

/// `bytes` cut off behind the last custom section that the parser finds in it.
pub open spec fn cleaned(bytes: Seq<u8>) -> Seq<u8> {
    trimmed(bytes, wasm_sections(bytes))
}

/// The highest end is an upper bound of every custom section's end, and is
/// the end of one of them unless it is zero.
pub proof fn lemma_highest_custom_end_exact(sections: Seq<SectionModel>)
    ensures
        forall|k: int|
            0 <= k < sections.len() ==> custom_end(#[trigger] sections[k]) <= highest_custom_end(
                sections,
            ),
        highest_custom_end(sections) == 0 || exists|k: int|
            0 <= k < sections.len() && (#[trigger] sections[k]) is Custom && custom_end(sections[k])
                == highest_custom_end(sections),
    decreases sections.len(),
{
    if sections.len() > 0 {
        let before = sections.drop_last();
        lemma_highest_custom_end_exact(before);
        assert forall|k: int| 0 <= k < sections.len() implies custom_end(#[trigger] sections[k])
            <= highest_custom_end(sections) by {
            if k < before.len() {
                assert(before[k] == sections[k]);
            }
        }
        if custom_end(sections.last()) <= highest_custom_end(before) && highest_custom_end(
            before,
        ) != 0 {
            let k = choose|k: int|
                0 <= k < before.len() && (#[trigger] before[k]) is Custom && custom_end(before[k])
                    == highest_custom_end(before);
            assert(sections[k] == before[k]);
        } else if highest_custom_end(sections) != 0 {
            assert(sections[sections.len() - 1] is Custom);
        }
    }
}

/// Where the custom sections come in the order of their ends, the highest
/// end is the end of the last custom section.
pub proof fn lemma_highest_is_last_in_order(sections: Seq<SectionModel>, last: int)
    requires
        0 <= last < sections.len(),
        sections[last] is Custom,
        forall|k: int| last < k < sections.len() ==> !((#[trigger] sections[k]) is Custom),
        forall|j: int, k: int|
            0 <= j <= k < sections.len() && sections[j] is Custom && sections[k] is Custom
                ==> custom_end(sections[j]) <= custom_end(sections[k]),
    ensures
        highest_custom_end(sections) == custom_end(sections[last]),
{
    lemma_highest_custom_end_exact(sections);
}

/// Bytes are trimmed to nothing by a section list without a custom section.
pub proof fn lemma_no_custom_section_trims_to_nothing(bytes: Seq<u8>, sections: Seq<SectionModel>)
    requires
        forall|k: int| 0 <= k < sections.len() ==> !((#[trigger] sections[k]) is Custom),
    ensures
        trimmed(bytes, sections) == Seq::<u8>::empty(),
{
    lemma_highest_custom_end_exact(sections);
}

/// A buffer in which the parser finds no custom section is cleaned to
/// nothing.
pub proof fn lemma_no_custom_section_cleans_to_nothing(bytes: Seq<u8>)
    requires
        forall|k: int|
            0 <= k < wasm_sections(bytes).len() ==> !((#[trigger] wasm_sections(bytes)[k]) is Custom),
    ensures
        cleaned(bytes) == Seq::<u8>::empty(),
{
    lemma_no_custom_section_trims_to_nothing(bytes, wasm_sections(bytes));
}

/// Cleaning only ever cuts bytes off the end.
pub proof fn lemma_cleaned_is_prefix(bytes: Seq<u8>)
    ensures
        cleaned(bytes).is_prefix_of(bytes),
        cleaned(bytes).len() <= bytes.len(),
{
}

/// Cleaning what has been cleaned gives the same bytes or a prefix of them,
/// never anything that the first pass had cut off.
pub proof fn lemma_clean_twice_is_prefix(bytes: Seq<u8>)
    ensures
        cleaned(cleaned(bytes)).is_prefix_of(cleaned(bytes)),
        cleaned(cleaned(bytes)).is_prefix_of(bytes),
{
    lemma_cleaned_is_prefix(bytes);
    lemma_cleaned_is_prefix(cleaned(bytes));
}

/// Finds the highest end offset among the custom sections.
pub fn last_section_end(sections: &Vec<Section>) -> (end: u64)
    ensures
        end == highest_custom_end(section_models(sections@)),
{
    let mut end: u64 = 0;
    let mut next: usize = 0;
    while next < sections.len()
        invariant
            next <= sections.len(),
            end == highest_custom_end(section_models(sections@).take(next as int)),
        decreases sections.len() - next,
    {
        proof {
            let models = section_models(sections@);
            assert(models.take(next + 1).drop_last() =~= models.take(next as int));
        }
        match &sections[next] {
            Section::Custom { end: section_end, .. } => {
                if *section_end > end {
                    end = *section_end;
                }
            },
            _ => {},
        }
        next += 1;
    }
    proof {
        let models = section_models(sections@);
        assert(models.take(next as int) =~= models);
    }
    end
}

/// Cuts `bytes` off behind the last of `sections`: at the highest end offset
/// among the custom sections, or not at all where that lies past the end.
pub fn trim_to_sections(bytes: &[u8], sections: &Vec<Section>) -> (kept: Vec<u8>)
    ensures
        kept@ == trimmed(bytes@, section_models(sections@)),
        kept@.is_prefix_of(bytes@),
        (forall|k: int| 0 <= k < sections@.len() ==> !((#[trigger] sections@[k]) is Custom))
            ==> kept@.len() == 0,
{
    let end = last_section_end(sections);
    let keep: usize = if end < bytes.len() as u64 {
        end as usize
    } else {
        bytes.len()
    };
    proof {
        let models = section_models(sections@);
        if forall|k: int| 0 <= k < sections@.len() ==> !((#[trigger] sections@[k]) is Custom) {
            assert forall|k: int| 0 <= k < models.len() implies !((#[trigger] models[k]) is Custom) by {
                assert(!(sections@[k] is Custom));
            }
            lemma_no_custom_section_trims_to_nothing(bytes@, models);
        }
    }
    slice_to_vec(slice_subrange(bytes, 0, keep))
}

/// Removes from an extracted component the bytes that composition appended
/// behind its last custom section.
///
/// A component without a custom section is cleaned to nothing. That is no
/// failure of this function; no check can pass on the result.
pub fn clean_extracted(extracted: &Vec<u8>) -> (kept: Vec<u8>)
    ensures
        kept@ == cleaned(extracted@),
        kept@.is_prefix_of(extracted@),
        (forall|k: int|
            0 <= k < wasm_sections(extracted@).len() ==> !((#[trigger] wasm_sections(
                extracted@,
            )[k]) is Custom)) ==> kept@.len() == 0,
{
    let sections = parse_sections(extracted.as_slice());
    proof {
        if forall|k: int|
            0 <= k < wasm_sections(extracted@).len() ==> !((#[trigger] wasm_sections(
                extracted@,
            )[k]) is Custom) {
            lemma_no_custom_section_cleans_to_nothing(extracted@);
        }
    }
    trim_to_sections(extracted.as_slice(), &sections)
}

} // verus!
