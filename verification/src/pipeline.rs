//! What is checked of a composition, entry by entry.
//!
//! Both checks of this library walk the same list: the composition as a
//! whole, under the name "composition" and as it stands, then each signed
//! component, trimmed to the bytes that were signed and named by what it
//! records of itself. The list is in the order of the decomposition,
//! whatever is done with it afterwards.

use vstd::prelude::*;
use crate::clean::{clean_extracted, cleaned};
use crate::decompose::{
    component_bytes, decomposition, locate_components, located_in, role_at, Role,
};
use crate::name::{component_name, get_name};

verus! {

/// The name under which the composition as a whole is reported.
pub const COMPOSITION_NAME: &'static str = "composition";

/// One entry of a decomposition, made ready for a check.
pub struct Target {
    pub role: Role,
    /// The name under which the entry is reported.
    pub name: String,
    /// The bytes that are checked.
    pub bytes: Vec<u8>,
}

/// The bytes that are checked for entry `at` of a decomposition: the root as
/// it stands, any other entry cleaned.
pub open spec fn checked_bytes(parts: Seq<Seq<u8>>, at: int) -> Seq<u8> {
    if at == 0 {
        parts[at]
    } else {
        cleaned(parts[at])
    }
}

/// The name under which entry `at` of a decomposition is reported.
pub open spec fn reported_name(parts: Seq<Seq<u8>>, at: int) -> Seq<char> {
    if at == 0 {
        COMPOSITION_NAME@
    } else {
        component_name(cleaned(parts[at]))
    }
}

/// Whether `target` is entry `at` of `parts`, made ready.
pub open spec fn is_target(target: Target, parts: Seq<Seq<u8>>, at: int) -> bool {
    &&& target.role == role_at(at)
    &&& target.name@ == reported_name(parts, at)
    &&& target.bytes@ == checked_bytes(parts, at)
}

/// Decomposes a composition and makes each entry ready for a check.
///
/// The root keeps its bytes: cleaning it would change the digest that its
/// signature was made over. Every other component is cleaned, then named.
pub fn targets(file_contents: &[u8]) -> (targets: Vec<Target>)
    ensures
        targets@.len() == decomposition(file_contents@).len(),
        forall|at: int|
            0 <= at < targets@.len() ==> is_target(
                #[trigger] targets@[at],
                decomposition(file_contents@),
                at,
            ),
{
    let located = locate_components(file_contents);
    let ghost parts = decomposition(file_contents@);
    let mut targets: Vec<Target> = Vec::new();
    let mut next: usize = 0;
    while next < located.len()
        invariant
            next <= located.len(),
            located_in(located@, file_contents@),
            parts == decomposition(file_contents@),
            parts.len() == located@.len(),
            targets@.len() == next,
            forall|at: int| 0 <= at < next ==> is_target(#[trigger] targets@[at], parts, at),
        decreases located.len() - next,
    {
        let component = located[next];
        let bytes = component_bytes(file_contents, &component);
        assert(bytes@ == parts[next as int]);
        let target = match component.role {
            Role::Root => Target {
                role: component.role,
                name: COMPOSITION_NAME.to_owned(),
                bytes,
            },
            Role::Child { .. } => {
                let kept = clean_extracted(&bytes);
                Target { role: component.role, name: get_name(kept.as_slice()), bytes: kept }
            },
        };
        targets.push(target);
        next += 1;
    }
    targets
}

} // verus!
