//! What holds of every render pass build: the ids that the parts carry do not
//! show in the description, a resolve list of the wrong length is never
//! accepted, and a sound configuration builds into a description that names
//! every part by its position.

use crate::builder::{
    declared, distinct, first_error, index_map, lemma_first_error_all_none,
    lemma_first_error_at_least, lemma_first_error_none, lemma_position_of_distinct,
    position_of, repeats_earlier, BuildError,
};
use crate::dependency::{
    dependency_error, dependency_resolved, end_dangles, end_resolved, DependencySpec,
};
use crate::render_pass::{
    AttachmentReference, AttachmentSpec, AttachmentUse, RenderPassDescriptionSpec, SubpassRef,
};
use crate::render_pass_build::{
    attachment_checks, attachment_ids, build_result, dependency_checks,
    dependency_ids, resolved_description, subpass_checks, subpass_ids, RenderPassConfigSpec,
};
use crate::subpass::{
    ids_known, resolved_ids, resolved_uses, subpass_error, subpass_resolved, uses_known,
    SubpassSpec,
};
use vstd::prelude::*;

verus! {

/// `f` gives different ids different names.
pub open spec fn injective(f: spec_fn(usize) -> usize) -> bool {
    forall|a: usize, b: usize| #[trigger] f(a) == #[trigger] f(b) ==> a == b
}

/// `ids`, each replaced by the name that `f` gives it.
pub open spec fn rename_ids(f: spec_fn(usize) -> usize, ids: Seq<usize>) -> Seq<usize> {
    Seq::new(ids.len(), |i: int| f(ids[i]))
}

/// `uses`, with each id replaced by the name that `f` gives it.
pub open spec fn rename_uses(f: spec_fn(usize) -> usize, uses: Seq<AttachmentUse>) -> Seq<
    AttachmentUse,
> {
    Seq::new(uses.len(), |i: int| AttachmentUse { id: f(uses[i].id), layout: uses[i].layout })
}

/// The attachment `a` under the name that `f` gives it.
pub open spec fn rename_attachment(f: spec_fn(usize) -> usize, a: AttachmentSpec) -> AttachmentSpec {
    AttachmentSpec { id: f(a.id), ..a }
}

/// The subpass `s` under the name that `f` gives it, referring to its
/// attachments by the names that `f` gives them.
pub open spec fn rename_subpass(f: spec_fn(usize) -> usize, s: SubpassSpec) -> SubpassSpec {
    SubpassSpec {
        id: f(s.id),
        parent_id: s.parent_id,
        input: rename_uses(f, s.input),
        color: rename_uses(f, s.color),
        resolve: rename_uses(f, s.resolve),
        depth_stencil: match s.depth_stencil {
            Some(u) => Some(AttachmentUse { id: f(u.id), layout: u.layout }),
            None => None,
        },
        preserve: rename_ids(f, s.preserve),
    }
}

/// One end of a dependency, referring to its subpass by the name that `f`
/// gives it.
pub open spec fn rename_end(f: spec_fn(usize) -> usize, end: Option<SubpassRef>) -> Option<
    SubpassRef,
> {
    match end {
        Some(SubpassRef::Subpass(id)) => Some(SubpassRef::Subpass(f(id))),
        other => other,
    }
}

/// The dependency `d` under the name that `f` gives it, referring to its
/// subpasses by the names that `f` gives them.
pub open spec fn rename_dependency(f: spec_fn(usize) -> usize, d: DependencySpec) -> DependencySpec {
    DependencySpec {
        id: f(d.id),
        src_subpass: rename_end(f, d.src_subpass),
        dst_subpass: rename_end(f, d.dst_subpass),
        ..d
    }
}

/// `config` with every id, where a part carries it and where a part refers to
/// it, replaced by the name that `f` gives it.
pub open spec fn rename_config(f: spec_fn(usize) -> usize, config: RenderPassConfigSpec) -> RenderPassConfigSpec {
    RenderPassConfigSpec {
        attachments: Seq::new(
            config.attachments.len(),
            |i: int| rename_attachment(f, config.attachments[i]),
        ),
        subpasses: Seq::new(
            config.subpasses.len(),
            |i: int| rename_subpass(f, config.subpasses[i]),
        ),
        dependencies: Seq::new(
            config.dependencies.len(),
            |i: int| rename_dependency(f, config.dependencies[i]),
        ),
    }
}

/// `renamed` indexes `f(x)` exactly where `plain` indexes `x`, and to the
/// same index.
pub open spec fn agrees(
    f: spec_fn(usize) -> usize,
    plain: Map<usize, u32>,
    renamed: Map<usize, u32>,
) -> bool {
    forall|x: usize|
        (#[trigger] renamed.contains_key(f(x))) == plain.contains_key(x) && (plain.contains_key(x)
            ==> renamed[f(x)] == plain[x])
}

proof fn lemma_repeats_renamed(f: spec_fn(usize) -> usize, ids: Seq<usize>, i: int)
    requires
        injective(f),
        0 <= i < ids.len(),
    ensures
        repeats_earlier(rename_ids(f, ids), i) == repeats_earlier(ids, i),
{
    let renamed = rename_ids(f, ids);
    if repeats_earlier(ids, i) {
        let j = choose|j: int| 0 <= j < i && ids[j] == ids[i];
        assert(renamed[j] == renamed[i]);
    }
    if repeats_earlier(renamed, i) {
        let j = choose|j: int| 0 <= j < i && renamed[j] == renamed[i];
        assert(f(ids[j]) == f(ids[i]));
        assert(ids[j] == ids[i]);
    }
}

proof fn lemma_index_maps_agree(f: spec_fn(usize) -> usize, ids: Seq<usize>)
    requires
        injective(f),
        distinct(ids),
    ensures
        agrees(f, index_map(ids), index_map(rename_ids(f, ids))),
{
    let renamed = rename_ids(f, ids);
    assert forall|x: usize|
        (#[trigger] index_map(renamed).contains_key(f(x))) == index_map(ids).contains_key(x) && (
        index_map(ids).contains_key(x) ==> index_map(renamed)[f(x)] == index_map(ids)[x]) by {
        if declared(ids, x) {
            let j = choose|j: int| 0 <= j < ids.len() && ids[j] == x;
            assert(renamed[j] == f(x));
            assert(declared(renamed, f(x)));
            assert forall|a: int, b: int| 0 <= a < b < renamed.len() implies renamed[a]
                != renamed[b] by {
                if renamed[a] == renamed[b] {
                    assert(f(ids[a]) == f(ids[b]));
                    assert(ids[a] != ids[b]);
                }
            }
            lemma_position_of_distinct(ids, j);
            lemma_position_of_distinct(renamed, j);
        }
        if declared(renamed, f(x)) {
            let j = choose|j: int| 0 <= j < renamed.len() && renamed[j] == f(x);
            assert(f(ids[j]) == f(x));
            assert(ids[j] == x);
        }
    }
}

proof fn lemma_uses_renamed(
    f: spec_fn(usize) -> usize,
    plain: Map<usize, u32>,
    renamed: Map<usize, u32>,
    uses: Seq<AttachmentUse>,
)
    requires
        agrees(f, plain, renamed),
    ensures
        uses_known(renamed, rename_uses(f, uses)) == uses_known(plain, uses),
        uses_known(plain, uses) ==> resolved_uses(renamed, rename_uses(f, uses)) == resolved_uses(
            plain,
            uses,
        ),
{
    let r = rename_uses(f, uses);
    if uses_known(plain, uses) {
        assert forall|i: int| 0 <= i < r.len() implies renamed.contains_key((#[trigger] r[i]).id) by {
            assert(plain.contains_key(uses[i].id));
            assert(renamed.contains_key(f(uses[i].id)));
        }
        assert forall|i: int| 0 <= i < uses.len() implies resolved_uses(renamed, r)[i]
            == resolved_uses(plain, uses)[i] by {
            assert(plain.contains_key(uses[i].id));
            assert(renamed.contains_key(f(uses[i].id)));
        }
        assert(resolved_uses(renamed, r) =~= resolved_uses(plain, uses));
    }
    if uses_known(renamed, r) {
        assert forall|i: int| 0 <= i < uses.len() implies plain.contains_key(
            (#[trigger] uses[i]).id,
        ) by {
            assert(renamed.contains_key(r[i].id));
            assert(renamed.contains_key(f(uses[i].id)));
        }
    }
}

proof fn lemma_ids_renamed(
    f: spec_fn(usize) -> usize,
    plain: Map<usize, u32>,
    renamed: Map<usize, u32>,
    ids: Seq<usize>,
)
    requires
        agrees(f, plain, renamed),
    ensures
        ids_known(renamed, rename_ids(f, ids)) == ids_known(plain, ids),
        ids_known(plain, ids) ==> resolved_ids(renamed, rename_ids(f, ids)) == resolved_ids(
            plain,
            ids,
        ),
{
    let r = rename_ids(f, ids);
    if ids_known(plain, ids) {
        assert forall|i: int| 0 <= i < r.len() implies renamed.contains_key(#[trigger] r[i]) by {
            assert(plain.contains_key(ids[i]));
            assert(renamed.contains_key(f(ids[i])));
        }
        assert forall|i: int| 0 <= i < ids.len() implies resolved_ids(renamed, r)[i]
            == resolved_ids(plain, ids)[i] by {
            assert(plain.contains_key(ids[i]));
            assert(renamed.contains_key(f(ids[i])));
        }
        assert(resolved_ids(renamed, r) =~= resolved_ids(plain, ids));
    }
    if ids_known(renamed, r) {
        assert forall|i: int| 0 <= i < ids.len() implies plain.contains_key(#[trigger] ids[i]) by {
            assert(renamed.contains_key(r[i]));
            assert(renamed.contains_key(f(ids[i])));
        }
    }
}

/// A subpass resolves alike under both names of its attachments.
pub proof fn lemma_subpass_renamed(
    f: spec_fn(usize) -> usize,
    plain: Map<usize, u32>,
    renamed: Map<usize, u32>,
    s: SubpassSpec,
)
    requires
        agrees(f, plain, renamed),
    ensures
        subpass_error(renamed, rename_subpass(f, s)) == subpass_error(plain, s),
        subpass_error(plain, s) is None ==> subpass_resolved(renamed, rename_subpass(f, s))
            == subpass_resolved(plain, s),
{
    lemma_uses_renamed(f, plain, renamed, s.input);
    lemma_uses_renamed(f, plain, renamed, s.color);
    lemma_uses_renamed(f, plain, renamed, s.resolve);
    lemma_ids_renamed(f, plain, renamed, s.preserve);
    match s.depth_stencil {
        Some(u) => {
            assert(renamed.contains_key(f(u.id)) == plain.contains_key(u.id));
        },
        None => {},
    }
}

proof fn lemma_end_renamed(
    f: spec_fn(usize) -> usize,
    plain: Map<usize, u32>,
    renamed: Map<usize, u32>,
    end: Option<SubpassRef>,
)
    requires
        agrees(f, plain, renamed),
    ensures
        end_dangles(renamed, rename_end(f, end)) == end_dangles(plain, end),
        !end_dangles(plain, end) ==> end_resolved(renamed, rename_end(f, end)) == end_resolved(
            plain,
            end,
        ),
{
    match end {
        Some(SubpassRef::Subpass(id)) => {
            assert(renamed.contains_key(f(id)) == plain.contains_key(id));
        },
        _ => {},
    }
}

/// A dependency resolves alike under both names of its subpasses.
pub proof fn lemma_dependency_renamed(
    f: spec_fn(usize) -> usize,
    plain: Map<usize, u32>,
    renamed: Map<usize, u32>,
    d: DependencySpec,
)
    requires
        agrees(f, plain, renamed),
    ensures
        dependency_error(renamed, rename_dependency(f, d)) == dependency_error(plain, d),
        dependency_error(plain, d) is None ==> dependency_resolved(
            renamed,
            rename_dependency(f, d),
        ) == dependency_resolved(plain, d),
{
    lemma_end_renamed(f, plain, renamed, d.src_subpass);
    lemma_end_renamed(f, plain, renamed, d.dst_subpass);
}

/// The order in which the parts of a render pass were declared, and with it
/// the ids they carry, does not show in the outcome of a build: where every
/// id is replaced by another, different ids by different ones and each
/// reference along with the part it names, the build ends in the same
/// description or in the same error.
pub proof fn lemma_build_ignores_ids(
    parent: usize,
    config: RenderPassConfigSpec,
    f: spec_fn(usize) -> usize,
)
    requires
        injective(f),
    ensures
        build_result(parent, rename_config(f, config)) == build_result(parent, config),
{
    let renamed = rename_config(f, config);
    let a_ids = attachment_ids(config.attachments);
    let a_ids2 = attachment_ids(renamed.attachments);
    let s_ids = subpass_ids(config.subpasses);
    let s_ids2 = subpass_ids(renamed.subpasses);
    let d_ids = dependency_ids(config.dependencies);
    let d_ids2 = dependency_ids(renamed.dependencies);
    assert(a_ids2 =~= rename_ids(f, a_ids));
    assert(s_ids2 =~= rename_ids(f, s_ids));
    assert(d_ids2 =~= rename_ids(f, d_ids));

    let a_checks = attachment_checks(parent, config.attachments);
    let a_checks2 = attachment_checks(parent, renamed.attachments);
    assert forall|i: int| 0 <= i < a_checks.len() implies a_checks2[i] == a_checks[i] by {
        lemma_repeats_renamed(f, a_ids, i);
    }
    assert(a_checks2 =~= a_checks);
    if first_error(a_checks) is None {
        lemma_first_error_all_none(a_checks);
        assert forall|a: int, b: int| 0 <= a < b < a_ids.len() implies a_ids[a] != a_ids[b] by {
            assert(a_checks[b] is None);
        }
        lemma_index_maps_agree(f, a_ids);
        let a_map = index_map(a_ids);
        let a_map2 = index_map(a_ids2);

        let s_checks = subpass_checks(parent, a_map, config.subpasses);
        let s_checks2 = subpass_checks(parent, a_map2, renamed.subpasses);
        assert forall|i: int| 0 <= i < s_checks.len() implies s_checks2[i] == s_checks[i] by {
            lemma_repeats_renamed(f, s_ids, i);
            lemma_subpass_renamed(f, a_map, a_map2, config.subpasses[i]);
        }
        assert(s_checks2 =~= s_checks);
        if first_error(s_checks) is None {
            lemma_first_error_all_none(s_checks);
            assert forall|a: int, b: int| 0 <= a < b < s_ids.len() implies s_ids[a]
                != s_ids[b] by {
                assert(s_checks[b] is None);
            }
            lemma_index_maps_agree(f, s_ids);
            let s_map = index_map(s_ids);
            let s_map2 = index_map(s_ids2);

            let d_checks = dependency_checks(parent, s_map, config.dependencies);
            let d_checks2 = dependency_checks(parent, s_map2, renamed.dependencies);
            assert forall|i: int| 0 <= i < d_checks.len() implies d_checks2[i]
                == d_checks[i] by {
                lemma_repeats_renamed(f, d_ids, i);
                lemma_dependency_renamed(f, s_map, s_map2, config.dependencies[i]);
            }
            assert(d_checks2 =~= d_checks);
            if first_error(d_checks) is None {
                lemma_first_error_all_none(d_checks);
                let plain = resolved_description(config);
                let other = resolved_description(renamed);
                assert(other.attachments =~= plain.attachments);
                assert forall|i: int| 0 <= i < plain.subpasses.len() implies other.subpasses[i]
                    == plain.subpasses[i] by {
                    assert(s_checks[i] is None);
                    lemma_subpass_renamed(f, a_map, a_map2, config.subpasses[i]);
                }
                assert(other.subpasses =~= plain.subpasses);
                assert forall|i: int|
                    0 <= i < plain.dependencies.len() implies other.dependencies[i]
                    == plain.dependencies[i] by {
                    assert(d_checks[i] is None);
                    lemma_dependency_renamed(f, s_map, s_map2, config.dependencies[i]);
                }
                assert(other.dependencies =~= plain.dependencies);
            }
        }
    }
}

/// A subpass that lists resolve attachments, but not one for each of its
/// color attachments, makes every build of a configuration that holds it
/// fail.
pub proof fn lemma_resolve_mismatch_fails(parent: usize, config: RenderPassConfigSpec, k: int)
    requires
        0 <= k < config.subpasses.len(),
        config.subpasses[k].resolve.len() > 0,
        config.subpasses[k].resolve.len() != config.subpasses[k].color.len(),
    ensures
        build_result(parent, config) is Err,
{
    let checks = subpass_checks(
        parent,
        index_map(attachment_ids(config.attachments)),
        config.subpasses,
    );
    assert(checks[k] is Some);
    lemma_first_error_at_least(checks, k);
}

/// `index` is the position at which the part with the id `id` stands.
pub open spec fn names_position(ids: Seq<usize>, id: usize, index: u32) -> bool {
    index < ids.len() && ids[index as int] == id
}

/// Every attachment named in `uses` is one of those with the ids `ids`.
pub open spec fn uses_declared(ids: Seq<usize>, uses: Seq<AttachmentUse>) -> bool {
    forall|i: int| 0 <= i < uses.len() ==> declared(ids, (#[trigger] uses[i]).id)
}

/// Each reference of `resolved` holds the position of the attachment that
/// the use at the same place names.
pub open spec fn uses_point_to(
    ids: Seq<usize>,
    uses: Seq<AttachmentUse>,
    resolved: Seq<AttachmentReference>,
) -> bool {
    &&& resolved.len() == uses.len()
    &&& forall|i: int|
        0 <= i < uses.len() ==> names_position(ids, uses[i].id, (#[trigger] resolved[i]).attachment)
            && resolved[i].layout == uses[i].layout
}

/// The subpass refers to declared attachments only, and lists resolve
/// attachments either not at all or one per color attachment.
pub open spec fn subpass_sound(ids: Seq<usize>, s: SubpassSpec) -> bool {
    &&& uses_declared(ids, s.input)
    &&& uses_declared(ids, s.color)
    &&& uses_declared(ids, s.resolve)
    &&& s.resolve.len() == 0 || s.resolve.len() == s.color.len()
    &&& s.depth_stencil is Some ==> declared(ids, s.depth_stencil->0.id)
    &&& forall|i: int| 0 <= i < s.preserve.len() ==> declared(ids, #[trigger] s.preserve[i])
}

/// One end of a dependency names a declared subpass, the outside, or
/// nothing.
pub open spec fn end_sound(ids: Seq<usize>, end: Option<SubpassRef>) -> bool {
    match end {
        Some(SubpassRef::Subpass(id)) => declared(ids, id),
        _ => true,
    }
}

/// `index` is what one end of a dependency resolves to: the position of the
/// subpass it names, the marker for the outside, or zero.
pub open spec fn end_points_to(ids: Seq<usize>, end: Option<SubpassRef>, index: u32) -> bool {
    match end {
        Some(SubpassRef::Subpass(id)) => names_position(ids, id, index),
        Some(SubpassRef::External) => index == crate::render_pass::SUBPASS_EXTERNAL,
        None => index == 0,
    }
}

/// Every part of `config` was minted by the builder `parent`, no id occurs
/// twice in its list, no list is longer than 32-bit indices reach, and
/// every reference names a part that `config` lists.
pub open spec fn config_sound(parent: usize, config: RenderPassConfigSpec) -> bool {
    let a_ids = attachment_ids(config.attachments);
    let s_ids = subpass_ids(config.subpasses);
    &&& config.attachments.len() <= 0x1_0000_0000
    &&& config.subpasses.len() <= 0x1_0000_0000
    &&& config.dependencies.len() <= 0x1_0000_0000
    &&& forall|i: int|
        0 <= i < config.attachments.len() ==> (#[trigger] config.attachments[i]).parent_id
            == parent
    &&& forall|i: int|
        0 <= i < config.subpasses.len() ==> (#[trigger] config.subpasses[i]).parent_id == parent
            && subpass_sound(a_ids, config.subpasses[i])
    &&& forall|i: int|
        0 <= i < config.dependencies.len() ==> (#[trigger] config.dependencies[i]).parent_id
            == parent && end_sound(s_ids, config.dependencies[i].src_subpass) && end_sound(
            s_ids,
            config.dependencies[i].dst_subpass,
        )
    &&& distinct(a_ids)
    &&& distinct(s_ids)
    &&& distinct(dependency_ids(config.dependencies))
}

/// In an index map every declared id has an index, and that index is a
/// position at which the id stands.
pub proof fn lemma_index_names_position(ids: Seq<usize>, id: usize)
    requires
        ids.len() <= 0x1_0000_0000,
        declared(ids, id),
    ensures
        index_map(ids).contains_key(id),
        names_position(ids, id, index_map(ids)[id]),
{
    let p = position_of(ids, id);
    assert(0 <= p < ids.len() && ids[p] == id);
}

proof fn lemma_uses_point_to(ids: Seq<usize>, uses: Seq<AttachmentUse>)
    requires
        ids.len() <= 0x1_0000_0000,
        uses_declared(ids, uses),
    ensures
        uses_known(index_map(ids), uses),
        uses_point_to(ids, uses, resolved_uses(index_map(ids), uses)),
{
    assert forall|i: int| 0 <= i < uses.len() implies index_map(ids).contains_key(
        (#[trigger] uses[i]).id,
    ) by {
        lemma_index_names_position(ids, uses[i].id);
    }
    let resolved = resolved_uses(index_map(ids), uses);
    assert forall|i: int| 0 <= i < uses.len() implies names_position(
        ids,
        uses[i].id,
        (#[trigger] resolved[i]).attachment,
    ) && resolved[i].layout == uses[i].layout by {
        assert(declared(ids, uses[i].id));
        lemma_index_names_position(ids, uses[i].id);
    }
}

proof fn lemma_end_points_to(ids: Seq<usize>, end: Option<SubpassRef>)
    requires
        ids.len() <= 0x1_0000_0000,
        end_sound(ids, end),
    ensures
        !end_dangles(index_map(ids), end),
        end_points_to(ids, end, end_resolved(index_map(ids), end)),
{
    match end {
        Some(SubpassRef::Subpass(id)) => {
            lemma_index_names_position(ids, id);
        },
        _ => {},
    }
}

/// A sound configuration builds, and the description says where each part
/// stands: there are as many attachments, subpasses and dependencies as the
/// configuration lists, the attachments are described as declared, every
/// reference of a subpass holds the position of the attachment it names,
/// and every end of a dependency the position of the subpass it names.
pub proof fn lemma_build_resolves(parent: usize, config: RenderPassConfigSpec)
    requires
        config_sound(parent, config),
    ensures
        build_result(parent, config) == Ok::<RenderPassDescriptionSpec, BuildError>(
            resolved_description(config),
        ),
        resolved_description(config).attachments.len() == config.attachments.len(),
        resolved_description(config).subpasses.len() == config.subpasses.len(),
        resolved_description(config).dependencies.len() == config.dependencies.len(),
        forall|i: int|
            0 <= i < config.attachments.len() ==> (
            #[trigger] resolved_description(config).attachments[i])
                == config.attachments[i].description,
        forall|k: int|
            0 <= k < config.subpasses.len() ==> {
                let ids = attachment_ids(config.attachments);
                let s = config.subpasses[k];
                let r = #[trigger] resolved_description(config).subpasses[k];
                &&& uses_point_to(ids, s.input, r.input_attachments)
                &&& uses_point_to(ids, s.color, r.color_attachments)
                &&& uses_point_to(ids, s.resolve, r.resolve_attachments)
                &&& r.depth_stencil_attachment is Some == s.depth_stencil is Some
                &&& s.depth_stencil is Some ==> names_position(
                    ids,
                    s.depth_stencil->0.id,
                    r.depth_stencil_attachment->0.attachment,
                ) && r.depth_stencil_attachment->0.layout == s.depth_stencil->0.layout
                &&& r.preserve_attachments.len() == s.preserve.len()
                &&& forall|i: int|
                    0 <= i < s.preserve.len() ==> names_position(
                        ids,
                        s.preserve[i],
                        #[trigger] r.preserve_attachments[i],
                    )
            },
        forall|k: int|
            0 <= k < config.dependencies.len() ==> {
                let ids = subpass_ids(config.subpasses);
                let d = config.dependencies[k];
                let r = #[trigger] resolved_description(config).dependencies[k];
                &&& end_points_to(ids, d.src_subpass, r.src_subpass)
                &&& end_points_to(ids, d.dst_subpass, r.dst_subpass)
            },
{
    let a_ids = attachment_ids(config.attachments);
    let s_ids = subpass_ids(config.subpasses);
    let d_ids = dependency_ids(config.dependencies);
    let a_map = index_map(a_ids);
    let s_map = index_map(s_ids);
    let a_checks = attachment_checks(parent, config.attachments);
    let s_checks = subpass_checks(parent, a_map, config.subpasses);
    let d_checks = dependency_checks(parent, s_map, config.dependencies);
    assert forall|i: int| 0 <= i < a_checks.len() implies a_checks[i] is None by {
        assert(config.attachments[i].parent_id == parent);
        if repeats_earlier(a_ids, i) {
            let j = choose|j: int| 0 <= j < i && a_ids[j] == a_ids[i];
            assert(a_ids[j] != a_ids[i]);
        }
    }
    lemma_first_error_none(a_checks);
    assert forall|k: int| 0 <= k < config.subpasses.len() implies {
        let s = config.subpasses[k];
        let r = #[trigger] resolved_description(config).subpasses[k];
        &&& s_checks[k] is None
        &&& uses_point_to(a_ids, s.input, r.input_attachments)
        &&& uses_point_to(a_ids, s.color, r.color_attachments)
        &&& uses_point_to(a_ids, s.resolve, r.resolve_attachments)
        &&& r.depth_stencil_attachment is Some == s.depth_stencil is Some
        &&& s.depth_stencil is Some ==> names_position(
            a_ids,
            s.depth_stencil->0.id,
            r.depth_stencil_attachment->0.attachment,
        ) && r.depth_stencil_attachment->0.layout == s.depth_stencil->0.layout
        &&& r.preserve_attachments.len() == s.preserve.len()
        &&& forall|i: int|
            0 <= i < s.preserve.len() ==> names_position(
                a_ids,
                s.preserve[i],
                #[trigger] r.preserve_attachments[i],
            )
    } by {
        let s = config.subpasses[k];
        assert(s.parent_id == parent && subpass_sound(a_ids, s));
        if repeats_earlier(s_ids, k) {
            let j = choose|j: int| 0 <= j < k && s_ids[j] == s_ids[k];
            assert(s_ids[j] != s_ids[k]);
        }
        lemma_uses_point_to(a_ids, s.input);
        lemma_uses_point_to(a_ids, s.color);
        lemma_uses_point_to(a_ids, s.resolve);
        if s.depth_stencil is Some {
            lemma_index_names_position(a_ids, s.depth_stencil->0.id);
        }
        assert forall|i: int| 0 <= i < s.preserve.len() implies a_map.contains_key(
            #[trigger] s.preserve[i],
        ) by {
            lemma_index_names_position(a_ids, s.preserve[i]);
        }
        let r = resolved_description(config).subpasses[k];
        assert forall|i: int| 0 <= i < s.preserve.len() implies names_position(
            a_ids,
            s.preserve[i],
            #[trigger] r.preserve_attachments[i],
        ) by {
            lemma_index_names_position(a_ids, s.preserve[i]);
        }
    }
    lemma_first_error_none(s_checks);
    assert forall|k: int| 0 <= k < config.dependencies.len() implies {
        let d = config.dependencies[k];
        let r = #[trigger] resolved_description(config).dependencies[k];
        &&& d_checks[k] is None
        &&& end_points_to(s_ids, d.src_subpass, r.src_subpass)
        &&& end_points_to(s_ids, d.dst_subpass, r.dst_subpass)
    } by {
        let d = config.dependencies[k];
        assert(d.parent_id == parent);
        if repeats_earlier(d_ids, k) {
            let j = choose|j: int| 0 <= j < k && d_ids[j] == d_ids[k];
            assert(d_ids[j] != d_ids[k]);
        }
        lemma_end_points_to(s_ids, d.src_subpass);
        lemma_end_points_to(s_ids, d.dst_subpass);
    }
    lemma_first_error_none(d_checks);
}

} // verus!
