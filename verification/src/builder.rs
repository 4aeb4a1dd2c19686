//! What the deferred-construction builders share: the errors a `build` can
//! end in, the rule that turns builder-scoped ids into dense indices, and the
//! rule that picks the error to report when several parts are at fault.

use std::collections::HashMap;
use vstd::prelude::*;

verus! {

/// Why a builder refused to resolve its parts into a description.
#[derive(Clone, Copy, Debug, PartialEq, Eq, Structural)]
pub enum BuildError {
    /// A part was minted by another builder than the one asked to build.
    ForeignParent,
    /// A part's position does not fit the 32-bit index of the description.
    TooManyParts,
    /// Two attachments carry the same id.
    DuplicateAttachmentId,
    /// Two subpasses carry the same id.
    DuplicateSubpassId,
    /// Two dependencies carry the same id.
    DuplicateDependencyId,
    /// Two bindings carry the same id.
    DuplicateBindingId,
    /// A subpass refers to an attachment that the configuration does not list.
    DanglingAttachment,
    /// A dependency refers to a subpass that the configuration does not list.
    DanglingSubpass,
    /// A subpass has resolve attachments, but not one per color attachment.
    ResolveCountMismatch,
    /// A binding is resolved against indices that do not hold its id.
    DanglingBinding,
    /// A binding was given neither a descriptor count nor a descriptor type.
    MissingDescriptor,
    /// A binding was given no shader stage.
    MissingStage,
}

/// Issues the identities of builders. Every builder takes its identity from
/// an issuer, and an issuer never hands out the same identity twice, so
/// that a part put into another builder than the one that minted it is
/// found out.
#[derive(Debug)]
pub struct BuilderIds {
    next: usize,
}

impl BuilderIds {
    /// The identity that the next builder will be given.
    pub closed spec fn spec_next(&self) -> usize {
        self.next
    }

    /// An issuer that has issued nothing yet.
    pub fn new() -> (r: BuilderIds)
        ensures
            r.spec_next() == 0,
    {
        BuilderIds { next: 0 }
    }

    /// The identity that the next builder will be given.
    pub fn next(&self) -> (r: usize)
        ensures
            r == self.spec_next(),
    {
        self.next
    }

    /// Issues an identity: the one that was next. Every identity issued
    /// later is larger.
    pub fn issue(&mut self) -> (r: usize)
        requires
            old(self).spec_next() < usize::MAX,
        ensures
            r == old(self).spec_next(),
            final(self).spec_next() == r + 1,
    {
        let id = self.next;
        self.next = self.next + 1;
        id
    }
}

/// `id` is one of `ids`.
pub open spec fn declared(ids: Seq<usize>, id: usize) -> bool {
    exists|i: int| 0 <= i < ids.len() && ids[i] == id
}

/// A position at which `id` stands in `ids`; the only one where `ids` are
/// pairwise distinct.
pub open spec fn position_of(ids: Seq<usize>, id: usize) -> int {
    choose|i: int| 0 <= i < ids.len() && ids[i] == id
}

/// No id occurs twice in `ids`.
pub open spec fn distinct(ids: Seq<usize>) -> bool {
    forall|i: int, j: int| 0 <= i < j < ids.len() ==> ids[i] != ids[j]
}

/// The dense index that each declared id resolves to: its position in the
/// order of declaration.
pub open spec fn index_map(ids: Seq<usize>) -> Map<usize, u32> {
    Map::new(|id: usize| declared(ids, id), |id: usize| position_of(ids, id) as u32)
}

/// The id at position `i` was already used at an earlier position.
pub open spec fn repeats_earlier(ids: Seq<usize>, i: int) -> bool {
    exists|j: int| 0 <= j < i && ids[j] == ids[i]
}

/// What is wrong with the part at position `i` before any reference of it is
/// looked at: it belongs to another builder, it stands too far back to be
/// indexed, or it repeats an earlier id (reported as `duplicate`).
pub open spec fn part_error(
    parent: usize,
    part_parent: usize,
    ids: Seq<usize>,
    i: int,
    duplicate: BuildError,
) -> Option<BuildError> {
    if part_parent != parent {
        Some(BuildError::ForeignParent)
    } else if i > u32::MAX {
        Some(BuildError::TooManyParts)
    } else if repeats_earlier(ids, i) {
        Some(duplicate)
    } else {
        None
    }
}

/// The error of the first part that has one.
pub open spec fn first_error(checks: Seq<Option<BuildError>>) -> Option<BuildError>
    decreases checks.len(),
{
    if checks.len() == 0 {
        None
    } else if checks[0] is Some {
        checks[0]
    } else {
        first_error(checks.drop_first())
    }
}

/// Where every part before position `i` is sound and the one at `i` is not,
/// the error reported is that of `i`.
pub proof fn lemma_first_error_at(checks: Seq<Option<BuildError>>, i: int)
    requires
        0 <= i < checks.len(),
        checks[i] is Some,
        forall|j: int| 0 <= j < i ==> checks[j] is None,
    ensures
        first_error(checks) == checks[i],
    decreases i,
{
    if i > 0 {
        let rest = checks.drop_first();
        assert(rest[i - 1] == checks[i]);
        assert forall|j: int| 0 <= j < i - 1 implies rest[j] is None by {
            assert(rest[j] == checks[j + 1]);
        }
        lemma_first_error_at(rest, i - 1);
    }
}

/// Where every part is sound, no error is reported.
pub proof fn lemma_first_error_none(checks: Seq<Option<BuildError>>)
    requires
        forall|j: int| 0 <= j < checks.len() ==> checks[j] is None,
    ensures
        first_error(checks) is None,
    decreases checks.len(),
{
    if checks.len() > 0 {
        let rest = checks.drop_first();
        assert forall|j: int| 0 <= j < rest.len() implies rest[j] is None by {
            assert(rest[j] == checks[j + 1]);
        }
        lemma_first_error_none(rest);
    }
}

/// Where no error is reported, every part is sound.
pub proof fn lemma_first_error_all_none(checks: Seq<Option<BuildError>>)
    requires
        first_error(checks) is None,
    ensures
        forall|j: int| 0 <= j < checks.len() ==> checks[j] is None,
    decreases checks.len(),
{
    if checks.len() > 0 {
        let rest = checks.drop_first();
        lemma_first_error_all_none(rest);
        assert forall|j: int| 0 <= j < checks.len() implies checks[j] is None by {
            if j > 0 {
                assert(rest[j - 1] == checks[j]);
            }
        }
    }
}

/// Where some part is at fault, an error is reported.
pub proof fn lemma_first_error_at_least(checks: Seq<Option<BuildError>>, i: int)
    requires
        0 <= i < checks.len(),
        checks[i] is Some,
    ensures
        first_error(checks) is Some,
{
    if first_error(checks) is None {
        lemma_first_error_all_none(checks);
    }
}

/// Among distinct ids each one resolves to the position it stands at.
pub proof fn lemma_position_of_distinct(ids: Seq<usize>, i: int)
    requires
        distinct(ids),
        0 <= i < ids.len(),
    ensures
        declared(ids, ids[i]),
        position_of(ids, ids[i]) == i,
{
    let p = position_of(ids, ids[i]);
    assert(0 <= p < ids.len() && ids[p] == ids[i]);
    if p < i {
        assert(ids[p] != ids[i]);
    } else if i < p {
        assert(ids[i] != ids[p]);
    }
}

/// `indices` maps exactly the first `n` of `ids`, each to its position.
pub open spec fn indexes_prefix(indices: Map<usize, u32>, ids: Seq<usize>, n: int) -> bool {
    &&& forall|j: int| 0 <= j < n ==> #[trigger] indices.contains_key(ids[j]) && indices[ids[j]] == j
    &&& forall|k: usize| #[trigger]
        indices.contains_key(k) ==> exists|j: int| 0 <= j < n && ids[j] == k
}

/// A map that holds every id at its position is the index map of the ids.
pub proof fn lemma_indexes_all(indices: Map<usize, u32>, ids: Seq<usize>)
    requires
        distinct(ids),
        indexes_prefix(indices, ids, ids.len() as int),
    ensures
        indices == index_map(ids),
{
    let target = index_map(ids);
    assert forall|k: usize| indices.contains_key(k) == target.contains_key(k) by {
        if target.contains_key(k) {
            let j = choose|j: int| 0 <= j < ids.len() && ids[j] == k;
            assert(indices.contains_key(ids[j]));
        }
    }
    assert forall|k: usize| indices.contains_key(k) implies indices[k] == target[k] by {
        let j = choose|j: int| 0 <= j < ids.len() && ids[j] == k;
        lemma_position_of_distinct(ids, j);
        assert(indices.contains_key(ids[j]) && indices[ids[j]] == j);
    }
    assert(indices =~= target);
}

/// Looks `id` up in an index map.
pub fn lookup(indices: &HashMap<usize, u32>, id: usize) -> (r: Option<u32>)
    ensures
        r == (if indices@.contains_key(id) {
            Some(indices@[id])
        } else {
            None
        }),
{
    broadcast use vstd::std_specs::hash::group_hash_axioms;

    match indices.get(&id) {
        Some(v) => Some(*v),
        None => None,
    }
}

} // verus!
