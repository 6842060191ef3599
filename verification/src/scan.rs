//! Locating a fixed byte pattern in an untrusted buffer.
//!
//! A pattern may start at any offset; there is no alignment and no framing.
//! Every offset that is reported lies entirely inside the buffer, and a buffer
//! shorter than the pattern simply holds no occurrence.

use vstd::prelude::*;

verus! {

/// Whether `marker` occurs in `buffer` at offset `at`, entirely inside the buffer.
pub open spec fn occurs_at(buffer: Seq<u8>, marker: Seq<u8>, at: int) -> bool {
    &&& 0 <= at
    &&& at + marker.len() <= buffer.len()
    &&& buffer.subrange(at, at + marker.len()) == marker
}

/// The offsets below `limit` at which `marker` occurs in `buffer`, in ascending order.
pub open spec fn occurrences(buffer: Seq<u8>, marker: Seq<u8>, limit: int) -> Seq<int>
    decreases limit,
{
    if limit <= 0 {
        Seq::empty()
    } else if occurs_at(buffer, marker, limit - 1) {
        occurrences(buffer, marker, limit - 1).push(limit - 1)
    } else {
        occurrences(buffer, marker, limit - 1)
    }
}

/// Every offset at which `marker` occurs in `buffer`, in ascending order.
pub open spec fn all_occurrences(buffer: Seq<u8>, marker: Seq<u8>) -> Seq<int> {
    occurrences(buffer, marker, buffer.len() as int + 1)
}

/// The offsets held by a vector, as mathematical integers.
pub open spec fn as_offsets(offsets: Seq<usize>) -> Seq<int> {
    Seq::new(offsets.len(), |k: int| offsets[k] as int)
}

/// `occurrences` lists exactly the offsets below `limit` at which the marker
/// occurs, each once, from left to right.
pub proof fn lemma_occurrences_exact(buffer: Seq<u8>, marker: Seq<u8>, limit: int)
    ensures
        forall|k: int|
            0 <= k < occurrences(buffer, marker, limit).len() ==> {
                &&& 0 <= #[trigger] occurrences(buffer, marker, limit)[k] < limit
                &&& occurs_at(buffer, marker, occurrences(buffer, marker, limit)[k])
            },
        forall|j: int, k: int|
            0 <= j < k < occurrences(buffer, marker, limit).len() ==> occurrences(
                buffer,
                marker,
                limit,
            )[j] < occurrences(buffer, marker, limit)[k],
        forall|at: int|
            0 <= at < limit && occurs_at(buffer, marker, at) ==> occurrences(
                buffer,
                marker,
                limit,
            ).contains(at),
    decreases limit,
{
    if limit > 0 {
        lemma_occurrences_exact(buffer, marker, limit - 1);
        let earlier = occurrences(buffer, marker, limit - 1);
        let found = occurrences(buffer, marker, limit);
        assert forall|at: int| 0 <= at < limit && occurs_at(buffer, marker, at) implies found.contains(
            at,
        ) by {
            if at < limit - 1 {
                let k = choose|k: int| 0 <= k < earlier.len() && earlier[k] == at;
                assert(found[k] == at);
            } else {
                assert(found[found.len() - 1] == at);
            }
        }
    }
}

/// Raising the limit over a stretch that holds no occurrence changes nothing.
pub proof fn lemma_occurrences_stable(buffer: Seq<u8>, marker: Seq<u8>, low: int, high: int)
    requires
        low <= high,
        forall|at: int| low <= at < high ==> !occurs_at(buffer, marker, at),
    ensures
        occurrences(buffer, marker, high) == occurrences(buffer, marker, low),
    decreases high - low,
{
    if low < high {
        lemma_occurrences_stable(buffer, marker, low, high - 1);
    }
}

/// A buffer shorter than the marker holds no occurrence of it.
pub proof fn lemma_short_buffer_has_no_occurrence(buffer: Seq<u8>, marker: Seq<u8>)
    requires
        buffer.len() < marker.len(),
    ensures
        all_occurrences(buffer, marker) == Seq::<int>::empty(),
{
    lemma_occurrences_stable(buffer, marker, 0, buffer.len() as int + 1);
}

/// Tests whether `marker` occurs in `buffer` at offset `at`, never reading past the end.
pub fn matches_at(buffer: &[u8], marker: &[u8], at: usize) -> (found: bool)
    ensures
        found == occurs_at(buffer@, marker@, at as int),
{
    if marker.len() > buffer.len() || at > buffer.len() - marker.len() {
        return false;
    }
    let mut k: usize = 0;
    while k < marker.len()
        invariant
            k <= marker.len(),
            at + marker.len() <= buffer.len(),
            forall|j: int| 0 <= j < k ==> buffer@[at + j] == marker@[j],
        decreases marker.len() - k,
    {
        if buffer[at + k] != marker[k] {
            return false;
        }
        k += 1;
    }
    assert(buffer@.subrange(at as int, at + marker.len()) =~= marker@);
    true
}

/// Scans `buffer` from left to right and returns every offset at which
/// `marker` occurs.
///
/// The last offset that is tried is the buffer's length less the marker's,
/// or zero where the buffer is the shorter of the two, so a short buffer
/// yields no offset.
pub fn find_occurrences(buffer: &[u8], marker: &[u8]) -> (offsets: Vec<usize>)
    ensures
        as_offsets(offsets@) == all_occurrences(buffer@, marker@),
        buffer@.len() < marker@.len() ==> offsets@.len() == 0,
        forall|k: int|
            0 <= k < offsets@.len() ==> occurs_at(buffer@, marker@, #[trigger] offsets@[k] as int),
        forall|j: int, k: int| 0 <= j < k < offsets@.len() ==> offsets@[j] < offsets@[k],
        forall|at: int|
            occurs_at(buffer@, marker@, at) ==> exists|k: int|
                0 <= k < offsets@.len() && #[trigger] offsets@[k] == at,
{
    let mut offsets: Vec<usize> = Vec::new();
    let last: usize = buffer.len().saturating_sub(marker.len());
    let mut at: usize = 0;
    while at < last
        invariant
            at <= last,
            last + marker.len() <= buffer.len() || last == 0,
            as_offsets(offsets@) == occurrences(buffer@, marker@, at as int),
        decreases last - at,
    {
        if matches_at(buffer, marker, at) {
            offsets.push(at);
        }
        at += 1;
    }
    if matches_at(buffer, marker, last) {
        offsets.push(last);
    }
    proof {
        lemma_occurrences_stable(buffer@, marker@, last + 1, buffer@.len() as int + 1);
        lemma_occurrences_exact(buffer@, marker@, buffer@.len() as int + 1);
        let found = all_occurrences(buffer@, marker@);
        assert forall|k: int| 0 <= k < offsets@.len() implies occurs_at(
            buffer@,
            marker@,
            #[trigger] offsets@[k] as int,
        ) by {
            assert(found[k] == offsets@[k]);
        }
        assert forall|j: int, k: int| 0 <= j < k < offsets@.len() implies offsets@[j]
            < offsets@[k] by {
            assert(found[j] == offsets@[j]);
            assert(found[k] == offsets@[k]);
        }
        assert forall|at: int| occurs_at(buffer@, marker@, at) implies exists|k: int|
            0 <= k < offsets@.len() && #[trigger] offsets@[k] == at by {
            let k = choose|k: int| 0 <= k < found.len() && found[k] == at;
            assert(offsets@[k] == at);
        }
        if buffer@.len() < marker@.len() {
            lemma_short_buffer_has_no_occurrence(buffer@, marker@);
        }
    }
    offsets
}

} // verus!
