//! Splitting a composition into the components that were signed before it
//! was composed.
//!
//! A signed component starts with the module header followed at once by a
//! custom section named "signature". Composition keeps those bytes and adds
//! no index of what it embedded, so the components are found by their first
//! twenty bytes alone. The first entry of a decomposition is the composition
//! itself, untouched, so that its own signature can still be checked; the
//! entries after it run from one marker to the next, and the last one to the
//! end of the buffer.
//!
//! Components that are not signed are not found. Nesting is not followed: a
//! signed component inside another one opens an entry of its own, and the
//! component around it ends there.

use vstd::prelude::*;
use vstd::slice::*;
use crate::scan::{
    all_occurrences, find_occurrences, lemma_occurrences_exact, lemma_occurrences_stable,
    lemma_short_buffer_has_no_occurrence, matches_at, occurrences, occurs_at,
};

verus! {

/// The four bytes that open every WebAssembly module or component.
pub const MODULE_MARKER: [u8; 4] = [0x00, 0x61, 0x73, 0x6d];

/// The module header, the component-model version and the header of a custom
/// section named "signature": the first twenty bytes of a signed component.
pub const SIGNED_MODULE_MARKER: [u8; 20] = [
    0x00, 0x61, 0x73, 0x6d, 0x0d, 0x00, 0x01, 0x00, 0x00, 0x75, 0x09, 0x73, 0x69, 0x67, 0x6e, 0x61,
    0x74, 0x75, 0x72, 0x65,
];

/// The offsets at which a signed component starts, in ascending order.
pub open spec fn signed_offsets(composition: Seq<u8>) -> Seq<int> {
    all_occurrences(composition, SIGNED_MODULE_MARKER@)
}

/// How many leading markers open no component of their own: one, where the
/// first marker stands at offset zero and another marker follows it.
///
/// A marker at offset zero belongs to the composition as a whole. The stretch
/// from it to the next marker is the composition's own header, not a component.
pub open spec fn leading_markers(markers: Seq<int>) -> int {
    if markers.len() >= 2 && markers[0] == 0 {
        1
    } else {
        0
    }
}

/// The spans that run from one marker to the next, from the first marker
/// that opens a component of its own.
pub open spec fn interior_spans(markers: Seq<int>) -> Seq<(int, int)> {
    let lead = leading_markers(markers);
    Seq::new(
        if markers.len() - 1 - lead >= 0 {
            (markers.len() - 1 - lead) as nat
        } else {
            0
        },
        |k: int| (markers[k + lead], markers[k + lead + 1]),
    )
}

/// The spans of the components below the root, for at least one marker: the
/// interior spans, then the span from the last marker to the end.
pub open spec fn child_spans(markers: Seq<int>, len: int) -> Seq<(int, int)> {
    interior_spans(markers).push((markers.last(), len))
}

/// The spans of all components: none without a marker, else the whole buffer
/// followed by the children.
pub open spec fn component_spans(markers: Seq<int>, len: int) -> Seq<(int, int)> {
    if markers.len() == 0 {
        Seq::empty()
    } else {
        seq![(0int, len)] + child_spans(markers, len)
    }
}

/// The bytes that each span cuts out of `composition`.
pub open spec fn cut(composition: Seq<u8>, spans: Seq<(int, int)>) -> Seq<Seq<u8>> {
    Seq::new(spans.len(), |k: int| composition.subrange(spans[k].0, spans[k].1))
}

/// The components of a composition: the composition itself, then each signed
/// component from its marker to the next marker or to the end.
pub open spec fn decomposition(composition: Seq<u8>) -> Seq<Seq<u8>> {
    cut(composition, component_spans(signed_offsets(composition), composition.len() as int))
}

/// The contents of a list of byte vectors.
pub open spec fn contents(components: Seq<Vec<u8>>) -> Seq<Seq<u8>> {
    Seq::new(components.len(), |k: int| components[k]@)
}

/// Which entry of a decomposition a component is.
#[derive(Clone, Copy, Debug, PartialEq, Eq, Structural)]
pub enum Role {
    /// The composition as a whole, as it was signed: the first entry.
    Root,
    /// A signed component inside the composition: entry `index`, from one on.
    Child { index: usize },
}

/// One entry of a decomposition: the bytes of the composition from `start`
/// up to, not including, `end`.
#[derive(Clone, Copy, Debug, PartialEq, Eq, Structural)]
pub struct Component {
    pub role: Role,
    pub start: usize,
    pub end: usize,
}

/// The role of the entry at position `at`.
pub open spec fn role_at(at: int) -> Role {
    if at == 0 {
        Role::Root
    } else {
        Role::Child { index: at as usize }
    }
}

/// The spans of a list of components.
pub open spec fn spans_of(components: Seq<Component>) -> Seq<(int, int)> {
    Seq::new(components.len(), |k: int| (components[k].start as int, components[k].end as int))
}

/// Whether `components` are the entries of the decomposition of
/// `composition`: their spans are its spans, each has the role of its
/// position, and each lies inside the composition.
pub open spec fn located_in(components: Seq<Component>, composition: Seq<u8>) -> bool {
    &&& spans_of(components) == component_spans(
        signed_offsets(composition),
        composition.len() as int,
    )
    &&& forall|k: int| 0 <= k < components.len() ==> (#[trigger] components[k]).role == role_at(k)
    &&& forall|k: int|
        0 <= k < components.len() ==> (#[trigger] components[k]).start <= components[k].end
            <= composition.len()
}

/// The signed-module marker starts with the module marker, so a signed
/// component can only start where a module starts.
pub proof fn lemma_signed_marker_opens_with_module_marker(buffer: Seq<u8>, at: int)
    requires
        occurs_at(buffer, SIGNED_MODULE_MARKER@, at),
    ensures
        occurs_at(buffer, MODULE_MARKER@, at),
{
    assert(buffer.subrange(at, at + 4) =~= MODULE_MARKER@);
}

/// The spans of what has been pushed once the markers in `seen` have been
/// met: nothing without a marker, else the whole buffer and the interior spans.
spec fn pushed(seen: Seq<int>, len: int) -> Seq<(int, int)> {
    if seen.len() == 0 {
        Seq::empty()
    } else {
        seq![(0int, len)] + interior_spans(seen)
    }
}

/// Meeting one more marker closes the span that the last marker opened,
/// unless that marker is the only one so far and stands at offset zero.
proof fn lemma_pushed_grows(seen: Seq<int>, at: int, len: int)
    requires
        seen.len() >= 1,
        0 <= seen[0],
        forall|j: int, k: int| 0 <= j < k < seen.len() ==> seen[j] < seen[k],
    ensures
        pushed(seen.push(at), len) == if seen.last() != 0 {
            pushed(seen, len).push((seen.last(), at))
        } else {
            pushed(seen, len)
        },
        seen.last() == 0 ==> seen.len() == 1,
{
}

/// Finds the components of `composition`, as spans.
///
/// Scans for the module marker and tests each hit against the longer
/// signed-module marker. The first signed hit yields the root, which spans
/// the whole composition; each later one closes the component that the
/// previous marker opened, unless that marker stood at offset zero; the last
/// marker's component runs to the end of the buffer. Without a signed marker
/// the result is empty.
pub fn locate_components(composition: &[u8]) -> (components: Vec<Component>)
    ensures
        located_in(components@, composition@),
        composition@.len() < 20 ==> components@.len() == 0,
{
    let starts = find_occurrences(composition, MODULE_MARKER.as_slice());
    let mut components: Vec<Component> = Vec::new();
    let mut bookmark: usize = 0;
    let mut counter: usize = 0;
    let mut next: usize = 0;
    let ghost len = composition@.len() as int;
    proof {
        assert forall|at: int| 0 <= at < frontier(starts@, 0, len) implies !occurs_at(
            composition@,
            SIGNED_MODULE_MARKER@,
            at,
        ) by {
            if occurs_at(composition@, SIGNED_MODULE_MARKER@, at) {
                lemma_signed_marker_opens_with_module_marker(composition@, at);
            }
        }
        lemma_occurrences_stable(composition@, SIGNED_MODULE_MARKER@, 0, frontier(starts@, 0, len));
    }
    while next < starts.len()
        invariant
            next <= starts.len(),
            len == composition@.len(),
            forall|k: int|
                0 <= k < starts@.len() ==> occurs_at(
                    composition@,
                    MODULE_MARKER@,
                    #[trigger] starts@[k] as int,
                ),
            forall|j: int, k: int| 0 <= j < k < starts@.len() ==> starts@[j] < starts@[k],
            forall|at: int|
                occurs_at(composition@, MODULE_MARKER@, at) ==> exists|k: int|
                    0 <= k < starts@.len() && #[trigger] starts@[k] == at,
            counter == seen(composition@, starts@, next as int).len(),
            counter <= next,
            counter == 0 ==> bookmark == 0,
            counter > 0 ==> bookmark == seen(composition@, starts@, next as int).last(),
            components@.len() <= counter,
            spans_of(components@) == pushed(seen(composition@, starts@, next as int), len),
            forall|k: int|
                0 <= k < components@.len() ==> (#[trigger] components@[k]).role == role_at(k),
            forall|k: int|
                0 <= k < components@.len() ==> (#[trigger] components@[k]).start
                    <= components@[k].end <= len,
        decreases starts.len() - next,
    {
        let at = starts[next];
        let ghost before = seen(composition@, starts@, next as int);
        let ghost located = components@;
        let hit = matches_at(composition, SIGNED_MODULE_MARKER.as_slice(), at);
        proof {
            lemma_seen_step(composition@, starts@, next as int);
            lemma_occurrences_exact(composition@, SIGNED_MODULE_MARKER@, at as int);
        }
        if hit {
            if counter == 0 {
                components.push(Component { role: Role::Root, start: 0, end: composition.len() });
            } else {
                proof {
                    lemma_pushed_grows(before, at as int, len);
                }
                if bookmark != 0 {
                    let index = components.len();
                    components.push(Component { role: Role::Child { index }, start: bookmark, end: at });
                    proof {
                        assert(spans_of(components@) =~= spans_of(located).push(
                            (bookmark as int, at as int),
                        ));
                    }
                }
            }
            bookmark = at;
            counter += 1;
        }
        next += 1;
    }
    let ghost markers = signed_offsets(composition@);
    proof {
        lemma_occurrences_exact(composition@, SIGNED_MODULE_MARKER@, len + 1);
    }
    if counter > 0 && bookmark < composition.len() {
        let ghost located = components@;
        let index = components.len();
        components.push(
            Component { role: Role::Child { index }, start: bookmark, end: composition.len() },
        );
        proof {
            assert(spans_of(components@) =~= spans_of(located).push((bookmark as int, len)));
        }
    }
    proof {
        if composition@.len() < 20 {
            lemma_short_buffer_has_no_occurrence(composition@, SIGNED_MODULE_MARKER@);
        }
    }
    components
}

/// Copies out of `composition` the bytes of one component.
pub(crate) fn component_bytes(composition: &[u8], component: &Component) -> (bytes: Vec<u8>)
    requires
        component.start <= component.end <= composition@.len(),
    ensures
        bytes@ == composition@.subrange(component.start as int, component.end as int),
{
    slice_to_vec(slice_subrange(composition, component.start, component.end))
}

/// Partitions `composition` at the signed-module markers into the bytes of
/// its components: the whole composition first, then each signed component.
pub fn split_composition(composition: &[u8]) -> (components: Vec<Vec<u8>>)
    ensures
        contents(components@) == decomposition(composition@),
        composition@.len() < 20 ==> components@.len() == 0,
{
    let located = locate_components(composition);
    let mut components: Vec<Vec<u8>> = Vec::new();
    let mut next: usize = 0;
    while next < located.len()
        invariant
            next <= located.len(),
            located_in(located@, composition@),
            components@.len() == next,
            forall|k: int|
                0 <= k < next ==> (#[trigger] components@[k])@ == composition@.subrange(
                    located@[k].start as int,
                    located@[k].end as int,
                ),
        decreases located.len() - next,
    {
        let piece = component_bytes(composition, &located[next]);
        components.push(piece);
        next += 1;
    }
    proof {
        assert forall|k: int| 0 <= k < components@.len() implies contents(components@)[k]
            == decomposition(composition@)[k] by {}
    }
    components
}

/// The offset up to which the scan is complete once `next` module markers
/// have been handled: the next module marker, or past the end of the buffer.
spec fn frontier(starts: Seq<usize>, next: int, len: int) -> int {
    if next < starts.len() {
        starts[next] as int
    } else {
        len + 1
    }
}

/// The signed markers that the scan has met once `next` module markers have
/// been handled.
spec fn seen(composition: Seq<u8>, starts: Seq<usize>, next: int) -> Seq<int> {
    occurrences(
        composition,
        SIGNED_MODULE_MARKER@,
        frontier(starts, next, composition.len() as int),
    )
}

/// Handling one more module marker adds its offset to the signed markers
/// seen, if the signed marker occurs there, and nothing else.
proof fn lemma_seen_step(composition: Seq<u8>, starts: Seq<usize>, next: int)
    requires
        0 <= next < starts.len(),
        forall|k: int|
            0 <= k < starts.len() ==> occurs_at(composition, MODULE_MARKER@, #[trigger] starts[k] as int),
        forall|j: int, k: int| 0 <= j < k < starts.len() ==> starts[j] < starts[k],
        forall|at: int|
            occurs_at(composition, MODULE_MARKER@, at) ==> exists|k: int|
                0 <= k < starts.len() && #[trigger] starts[k] == at,
    ensures
        seen(composition, starts, next + 1) == if occurs_at(
            composition,
            SIGNED_MODULE_MARKER@,
            starts[next] as int,
        ) {
            seen(composition, starts, next).push(starts[next] as int)
        } else {
            seen(composition, starts, next)
        },
{
    let len = composition.len() as int;
    let here = starts[next] as int;
    let there = frontier(starts, next + 1, len);
    assert forall|at: int| here + 1 <= at < there implies !occurs_at(
        composition,
        SIGNED_MODULE_MARKER@,
        at,
    ) by {
        if occurs_at(composition, SIGNED_MODULE_MARKER@, at) {
            lemma_signed_marker_opens_with_module_marker(composition, at);
        }
    }
    lemma_occurrences_stable(composition, SIGNED_MODULE_MARKER@, here + 1, there);
}

/// Whether each span starts where the one before it ends, and each lies
/// inside a buffer of `len` bytes: no gap, no overlap.
pub open spec fn tiles(spans: Seq<(int, int)>, len: int) -> bool {
    &&& forall|k: int| 0 <= k < spans.len() ==> 0 <= (#[trigger] spans[k]).0 < spans[k].1 <= len
    &&& forall|k: int| 0 <= k < spans.len() - 1 ==> (#[trigger] spans[k]).1 == spans[k + 1].0
}

/// Spans that tile cut out, joined in order, the bytes from the start of the
/// first to the end of the last.
pub proof fn lemma_tiles_join(composition: Seq<u8>, spans: Seq<(int, int)>)
    requires
        spans.len() >= 1,
        tiles(spans, composition.len() as int),
    ensures
        cut(composition, spans).flatten() == composition.subrange(spans[0].0, spans.last().1),
    decreases spans.len(),
{
    let pieces = cut(composition, spans);
    if spans.len() == 1 {
        pieces.lemma_flatten_singleton();
    } else {
        let init = spans.drop_last();
        let last = spans.last();
        lemma_tiles_join(composition, init);
        let piece = composition.subrange(last.0, last.1);
        assert(pieces =~= cut(composition, init).push(piece));
        cut(composition, init).lemma_flatten_push(piece);
        assert(spans[0].0 <= init.last().1) by {
            lemma_tiles_ascend(init, composition.len() as int, 0, init.len() - 1);
        }
    }
}

/// In spans that tile, a later span starts no earlier than an earlier one.
proof fn lemma_tiles_ascend(spans: Seq<(int, int)>, len: int, j: int, k: int)
    requires
        tiles(spans, len),
        0 <= j <= k < spans.len(),
    ensures
        spans[j].0 <= spans[k].0,
    decreases k - j,
{
    if j < k {
        lemma_tiles_ascend(spans, len, j, k - 1);
    }
}

/// The components below the root tile the composition from the marker that
/// opens the first of them to the end: no byte is left out or taken twice.
pub proof fn lemma_children_tile(composition: Seq<u8>)
    requires
        signed_offsets(composition).len() >= 1,
    ensures
        tiles(
            child_spans(signed_offsets(composition), composition.len() as int),
            composition.len() as int,
        ),
        child_spans(signed_offsets(composition), composition.len() as int)[0].0 == signed_offsets(
            composition,
        )[leading_markers(signed_offsets(composition))],
        child_spans(signed_offsets(composition), composition.len() as int).last().1
            == composition.len(),
{
    let len = composition.len() as int;
    let markers = signed_offsets(composition);
    let lead = leading_markers(markers);
    let spans = child_spans(markers, len);
    lemma_occurrences_exact(composition, SIGNED_MODULE_MARKER@, len + 1);
    assert forall|k: int| 0 <= k < spans.len() implies 0 <= (#[trigger] spans[k]).0 < spans[k].1
        <= len by {
        assert(occurs_at(composition, SIGNED_MODULE_MARKER@, markers[k + lead]));
    }
}

/// Each component below the root starts at a signed marker and runs to the
/// next one, or to the end of the composition: there is no marker inside it
/// but the one that opens it.
pub proof fn lemma_children_run_between_markers(composition: Seq<u8>, k: int)
    requires
        signed_offsets(composition).len() >= 1,
        0 <= k < child_spans(signed_offsets(composition), composition.len() as int).len(),
    ensures
        occurs_at(
            composition,
            SIGNED_MODULE_MARKER@,
            child_spans(signed_offsets(composition), composition.len() as int)[k].0,
        ),
        forall|at: int|
            child_spans(signed_offsets(composition), composition.len() as int)[k].0 < at
                < child_spans(signed_offsets(composition), composition.len() as int)[k].1
                ==> !occurs_at(composition, SIGNED_MODULE_MARKER@, at),
        child_spans(signed_offsets(composition), composition.len() as int)[k].1
            == composition.len() || occurs_at(
            composition,
            SIGNED_MODULE_MARKER@,
            child_spans(signed_offsets(composition), composition.len() as int)[k].1,
        ),
{
    let len = composition.len() as int;
    let markers = signed_offsets(composition);
    let lead = leading_markers(markers);
    let span = child_spans(markers, len)[k];
    lemma_occurrences_exact(composition, SIGNED_MODULE_MARKER@, len + 1);
    assert(span.0 == markers[k + lead]);
    assert forall|at: int| span.0 < at < span.1 implies !occurs_at(
        composition,
        SIGNED_MODULE_MARKER@,
        at,
    ) by {
        if occurs_at(composition, SIGNED_MODULE_MARKER@, at) {
            assert(markers.contains(at));
            let j = choose|j: int| 0 <= j < markers.len() && markers[j] == at;
            if j <= k + lead {
                if j < k + lead {
                    assert(markers[j] < markers[k + lead]);
                }
            } else if k + lead + 1 < j {
                assert(markers[k + lead + 1] < markers[j]);
            }
        }
    }
}

/// The decomposition of a composition that holds `markers.len()` signed
/// markers, the first of them past offset zero: the root and one component
/// for each marker, which joined in order give back the composition from the
/// first marker on.
pub proof fn lemma_components_of_embedded(composition: Seq<u8>)
    requires
        signed_offsets(composition).len() >= 1,
        signed_offsets(composition)[0] != 0,
    ensures
        decomposition(composition).len() == signed_offsets(composition).len() + 1,
        decomposition(composition)[0] == composition,
        decomposition(composition).skip(1).flatten() == composition.skip(
            signed_offsets(composition)[0],
        ),
{
    lemma_children_join(composition);
}

/// The decomposition of a composition that opens with its own signed marker,
/// followed by `k >= 1` signed components: the root and those `k` components,
/// which joined in order give back the composition from the first
/// component's marker on.
pub proof fn lemma_components_after_root_marker(composition: Seq<u8>, k: int)
    requires
        k >= 1,
        signed_offsets(composition).len() == k + 1,
        signed_offsets(composition)[0] == 0,
    ensures
        decomposition(composition).len() == k + 1,
        decomposition(composition)[0] == composition,
        decomposition(composition).skip(1).flatten() == composition.skip(
            signed_offsets(composition)[1],
        ),
{
    lemma_children_join(composition);
}

/// A composition with exactly one signed component decomposes into two
/// entries: the composition itself, and its bytes from the marker to the end.
pub proof fn lemma_single_signed_component(composition: Seq<u8>, at: int)
    requires
        occurs_at(composition, SIGNED_MODULE_MARKER@, at),
        forall|other: int| occurs_at(composition, SIGNED_MODULE_MARKER@, other) ==> other == at,
    ensures
        decomposition(composition) == seq![
            composition,
            composition.subrange(at, composition.len() as int),
        ],
{
    let len = composition.len() as int;
    let markers = signed_offsets(composition);
    lemma_occurrences_exact(composition, SIGNED_MODULE_MARKER@, len + 1);
    assert(markers.contains(at));
    if markers.len() >= 2 {
        assert(markers[0] == at && markers[1] == at);
    }
    assert(markers[0] == at);
    assert(composition.subrange(0, len) =~= composition);
}

/// The root is the composition itself, the components below it are as many
/// as the markers that open one, and joined in order they give back the
/// composition from the first such marker on.
pub proof fn lemma_children_join(composition: Seq<u8>)
    requires
        signed_offsets(composition).len() >= 1,
    ensures
        decomposition(composition).len() == 1 + signed_offsets(composition).len()
            - leading_markers(signed_offsets(composition)),
        decomposition(composition)[0] == composition,
        decomposition(composition).skip(1) == cut(
            composition,
            child_spans(signed_offsets(composition), composition.len() as int),
        ),
        decomposition(composition).skip(1).flatten() == composition.skip(
            signed_offsets(composition)[leading_markers(signed_offsets(composition))],
        ),
{
    let len = composition.len() as int;
    let markers = signed_offsets(composition);
    let spans = child_spans(markers, len);
    lemma_children_tile(composition);
    lemma_tiles_join(composition, spans);
}

/// Splits a composition into its signed components.
///
/// The first entry is the whole composition; the entries after it are the
/// signed components in the order of their markers. A composition without a
/// signed component, or one too short to hold a marker, gives an empty list.
pub fn decompose(file_contents: &[u8]) -> (components: Vec<Vec<u8>>)
    ensures
        contents(components@) == decomposition(file_contents@),
        file_contents@.len() < 20 ==> components@.len() == 0,
{
    split_composition(file_contents)
}

} // verus!
