//! Resolving a whole render pass: the parts are indexed in the order in which
//! the configuration lists them, then every reference among them is replaced
//! by the index of the part it names.

use crate::builder::{
    first_error, index_map, indexes_prefix, lemma_first_error_at, lemma_first_error_none,
    lemma_indexes_all, part_error, BuildError,
};
use crate::dependency::{dependency_error, dependency_resolved, DependencyBuilder, DependencySpec};
use crate::render_pass::{
    AttachmentBuilder, AttachmentDescription, AttachmentSpec, RenderPassBuilder,
    RenderPassDescription, RenderPassDescriptionSpec, SubpassDependency, SubpassDescription,
};
use crate::subpass::{subpass_error, subpass_resolved, SubpassBuilder, SubpassSpec};
use std::collections::HashMap;
use vstd::prelude::*;

verus! {

/// The parts that make up one render pass, each list in the order that fixes
/// the indices.
#[derive(Debug)]
pub struct RenderPassConfig {
    pub attachments: Vec<AttachmentBuilder>,
    pub subpasses: Vec<SubpassBuilder>,
    pub dependencies: Option<Vec<DependencyBuilder>>,
}

/// What a [`RenderPassConfig`] holds; no list of dependencies counts as an
/// empty one.
pub struct RenderPassConfigSpec {
    pub attachments: Seq<AttachmentSpec>,
    pub subpasses: Seq<SubpassSpec>,
    pub dependencies: Seq<DependencySpec>,
}

impl View for RenderPassConfig {
    type V = RenderPassConfigSpec;

    open spec fn view(&self) -> RenderPassConfigSpec {
        RenderPassConfigSpec {
            attachments: Seq::new(self.attachments@.len(), |i: int| self.attachments@[i]@),
            subpasses: Seq::new(self.subpasses@.len(), |i: int| self.subpasses@[i]@),
            dependencies: match self.dependencies {
                Some(d) => Seq::new(d@.len(), |i: int| d@[i]@),
                None => Seq::empty(),
            },
        }
    }
}

/// The ids of `parts`, in order.
pub open spec fn attachment_ids(parts: Seq<AttachmentSpec>) -> Seq<usize> {
    Seq::new(parts.len(), |i: int| parts[i].id)
}

/// The ids of `parts`, in order.
pub open spec fn subpass_ids(parts: Seq<SubpassSpec>) -> Seq<usize> {
    Seq::new(parts.len(), |i: int| parts[i].id)
}

/// The ids of `parts`, in order.
pub open spec fn dependency_ids(parts: Seq<DependencySpec>) -> Seq<usize> {
    Seq::new(parts.len(), |i: int| parts[i].id)
}

/// For each attachment, what is wrong with it.
pub open spec fn attachment_checks(parent: usize, parts: Seq<AttachmentSpec>) -> Seq<
    Option<BuildError>,
> {
    Seq::new(
        parts.len(),
        |i: int|
            part_error(
                parent,
                parts[i].parent_id,
                attachment_ids(parts),
                i,
                BuildError::DuplicateAttachmentId,
            ),
    )
}

/// For each subpass, what is wrong with it or, failing that, with its
/// references to attachments.
pub open spec fn subpass_checks(
    parent: usize,
    attachment_indices: Map<usize, u32>,
    parts: Seq<SubpassSpec>,
) -> Seq<Option<BuildError>> {
    Seq::new(
        parts.len(),
        |i: int|
            {
                let e = part_error(
                    parent,
                    parts[i].parent_id,
                    subpass_ids(parts),
                    i,
                    BuildError::DuplicateSubpassId,
                );
                if e is Some {
                    e
                } else {
                    subpass_error(attachment_indices, parts[i])
                }
            },
    )
}

/// For each dependency, what is wrong with it or, failing that, with its
/// references to subpasses.
pub open spec fn dependency_checks(
    parent: usize,
    subpass_indices: Map<usize, u32>,
    parts: Seq<DependencySpec>,
) -> Seq<Option<BuildError>> {
    Seq::new(
        parts.len(),
        |i: int|
            {
                let e = part_error(
                    parent,
                    parts[i].parent_id,
                    dependency_ids(parts),
                    i,
                    BuildError::DuplicateDependencyId,
                );
                if e is Some {
                    e
                } else {
                    dependency_error(subpass_indices, parts[i])
                }
            },
    )
}

/// The description of a configuration without errors: the attachments as
/// declared, and every subpass and dependency with its references replaced by
/// positions in the configuration's lists.
pub open spec fn resolved_description(config: RenderPassConfigSpec) -> RenderPassDescriptionSpec {
    let attachment_indices = index_map(attachment_ids(config.attachments));
    let subpass_indices = index_map(subpass_ids(config.subpasses));
    RenderPassDescriptionSpec {
        attachments: Seq::new(
            config.attachments.len(),
            |i: int| config.attachments[i].description,
        ),
        subpasses: Seq::new(
            config.subpasses.len(),
            |i: int| subpass_resolved(attachment_indices, config.subpasses[i]),
        ),
        dependencies: Seq::new(
            config.dependencies.len(),
            |i: int| dependency_resolved(subpass_indices, config.dependencies[i]),
        ),
    }
}

/// The first error of a configuration, if it has one: attachments are looked
/// at before subpasses, and subpasses before dependencies.
pub open spec fn build_error(parent: usize, config: RenderPassConfigSpec) -> Option<BuildError> {
    let a = first_error(attachment_checks(parent, config.attachments));
    let s = first_error(
        subpass_checks(
            parent,
            index_map(attachment_ids(config.attachments)),
            config.subpasses,
        ),
    );
    let d = first_error(
        dependency_checks(
            parent,
            index_map(subpass_ids(config.subpasses)),
            config.dependencies,
        ),
    );
    if a is Some {
        a
    } else if s is Some {
        s
    } else {
        d
    }
}

/// What building `config` with the builder `parent` comes to.
pub open spec fn build_result(parent: usize, config: RenderPassConfigSpec) -> Result<
    RenderPassDescriptionSpec,
    BuildError,
> {
    match build_error(parent, config) {
        Some(e) => Err(e),
        None => Ok(resolved_description(config)),
    }
}

/// Gives each attachment its index and collects the descriptions, or reports
/// the first attachment that is at fault.
pub fn index_attachments(parent: usize, parts: &Vec<AttachmentBuilder>) -> (r: Result<
    (HashMap<usize, u32>, Vec<AttachmentDescription>),
    BuildError,
>)
    ensures
        ({
            let specs = Seq::new(parts@.len(), |i: int| parts@[i]@);
            match r {
                Ok((indices, descriptions)) => {
                    &&& first_error(attachment_checks(parent, specs)) is None
                    &&& indices@ == index_map(attachment_ids(specs))
                    &&& descriptions@ == Seq::new(specs.len(), |i: int| specs[i].description)
                },
                Err(e) => first_error(attachment_checks(parent, specs)) == Some(e),
            }
        }),
{
    broadcast use vstd::std_specs::hash::group_hash_axioms;

    let ghost specs = Seq::new(parts@.len(), |i: int| parts@[i]@);
    let ghost ids = attachment_ids(specs);
    let ghost checks = attachment_checks(parent, specs);
    let mut indices: HashMap<usize, u32> = HashMap::new();
    let mut descriptions: Vec<AttachmentDescription> = Vec::new();
    let mut i: usize = 0;
    while i < parts.len()
        invariant
            i <= parts.len(),
            specs == Seq::new(parts@.len(), |i: int| parts@[i]@),
            ids == attachment_ids(specs),
            checks == attachment_checks(parent, specs),
            indexes_prefix(indices@, ids, i as int),
            forall|j: int| 0 <= j < i ==> checks[j] is None,
            descriptions@.len() == i,
            forall|j: int| 0 <= j < i ==> descriptions@[j] == specs[j].description,
        decreases parts.len() - i,
    {
        let part = &parts[i];
        assert(part@ == specs[i as int]);
        assert(ids[i as int] == part@.id);
        if part.parent_id() != parent {
            proof {
                lemma_first_error_at(checks, i as int);
            }
            return Err(BuildError::ForeignParent);
        }
        if i > 0xFFFF_FFFFusize {
            proof {
                lemma_first_error_at(checks, i as int);
            }
            return Err(BuildError::TooManyParts);
        }
        let index: u32 = i as u32;
        match indices.insert(part.id(), index) {
            Some(_) => {
                proof {
                    lemma_first_error_at(checks, i as int);
                }
                return Err(BuildError::DuplicateAttachmentId);
            },
            None => {},
        }
        descriptions.push(part.attachment_description());
        i = i + 1;
    }
    proof {
        assert forall|a: int, b: int| 0 <= a < b < ids.len() implies ids[a] != ids[b] by {
            assert(checks[b] is None);
        }
        lemma_indexes_all(indices@, ids);
        lemma_first_error_none(checks);
        assert(descriptions@ =~= Seq::new(specs.len(), |i: int| specs[i].description));
    }
    Ok((indices, descriptions))
}

/// Gives each subpass its index and resolves it against the attachments, or
/// reports the first subpass that is at fault.
pub fn resolve_subpasses(
    parent: usize,
    attachment_indices: &HashMap<usize, u32>,
    parts: &Vec<SubpassBuilder>,
) -> (r: Result<(HashMap<usize, u32>, Vec<SubpassDescription>), BuildError>)
    ensures
        ({
            let specs = Seq::new(parts@.len(), |i: int| parts@[i]@);
            let checks = subpass_checks(parent, attachment_indices@, specs);
            match r {
                Ok((indices, descriptions)) => {
                    &&& first_error(checks) is None
                    &&& indices@ == index_map(subpass_ids(specs))
                    &&& Seq::new(descriptions@.len(), |i: int| descriptions@[i]@) == Seq::new(
                        specs.len(),
                        |i: int| subpass_resolved(attachment_indices@, specs[i]),
                    )
                },
                Err(e) => first_error(checks) == Some(e),
            }
        }),
{
    broadcast use vstd::std_specs::hash::group_hash_axioms;

    let ghost specs = Seq::new(parts@.len(), |i: int| parts@[i]@);
    let ghost ids = subpass_ids(specs);
    let ghost checks = subpass_checks(parent, attachment_indices@, specs);
    let mut indices: HashMap<usize, u32> = HashMap::new();
    let mut descriptions: Vec<SubpassDescription> = Vec::new();
    let mut i: usize = 0;
    while i < parts.len()
        invariant
            i <= parts.len(),
            specs == Seq::new(parts@.len(), |i: int| parts@[i]@),
            ids == subpass_ids(specs),
            checks == subpass_checks(parent, attachment_indices@, specs),
            indexes_prefix(indices@, ids, i as int),
            forall|j: int| 0 <= j < i ==> checks[j] is None,
            descriptions@.len() == i,
            forall|j: int|
                0 <= j < i ==> descriptions@[j]@ == subpass_resolved(
                    attachment_indices@,
                    specs[j],
                ),
        decreases parts.len() - i,
    {
        let part = &parts[i];
        assert(part@ == specs[i as int]);
        assert(ids[i as int] == part@.id);
        if part.parent_id() != parent {
            proof {
                lemma_first_error_at(checks, i as int);
            }
            return Err(BuildError::ForeignParent);
        }
        if i > 0xFFFF_FFFFusize {
            proof {
                lemma_first_error_at(checks, i as int);
            }
            return Err(BuildError::TooManyParts);
        }
        let index: u32 = i as u32;
        match indices.insert(part.id(), index) {
            Some(_) => {
                proof {
                    lemma_first_error_at(checks, i as int);
                }
                return Err(BuildError::DuplicateSubpassId);
            },
            None => {},
        }
        match part.get_subpass_description(attachment_indices) {
            Ok(description) => {
                descriptions.push(description);
            },
            Err(e) => {
                proof {
                    lemma_first_error_at(checks, i as int);
                }
                return Err(e);
            },
        }
        i = i + 1;
    }
    proof {
        assert forall|a: int, b: int| 0 <= a < b < ids.len() implies ids[a] != ids[b] by {
            assert(checks[b] is None);
        }
        lemma_indexes_all(indices@, ids);
        lemma_first_error_none(checks);
        assert(Seq::new(descriptions@.len(), |i: int| descriptions@[i]@) =~= Seq::new(
            specs.len(),
            |i: int| subpass_resolved(attachment_indices@, specs[i]),
        ));
    }
    Ok((indices, descriptions))
}

/// Resolves each dependency against the subpasses, or reports the first
/// dependency that is at fault.
pub fn resolve_dependencies(
    parent: usize,
    subpass_indices: &HashMap<usize, u32>,
    parts: &Vec<DependencyBuilder>,
) -> (r: Result<Vec<SubpassDependency>, BuildError>)
    ensures
        ({
            let specs = Seq::new(parts@.len(), |i: int| parts@[i]@);
            let checks = dependency_checks(parent, subpass_indices@, specs);
            match r {
                Ok(dependencies) => {
                    &&& first_error(checks) is None
                    &&& dependencies@ == Seq::new(
                        specs.len(),
                        |i: int| dependency_resolved(subpass_indices@, specs[i]),
                    )
                },
                Err(e) => first_error(checks) == Some(e),
            }
        }),
{
    broadcast use vstd::std_specs::hash::group_hash_axioms;

    let ghost specs = Seq::new(parts@.len(), |i: int| parts@[i]@);
    let ghost ids = dependency_ids(specs);
    let ghost checks = dependency_checks(parent, subpass_indices@, specs);
    let mut indices: HashMap<usize, u32> = HashMap::new();
    let mut dependencies: Vec<SubpassDependency> = Vec::new();
    let mut i: usize = 0;
    while i < parts.len()
        invariant
            i <= parts.len(),
            specs == Seq::new(parts@.len(), |i: int| parts@[i]@),
            ids == dependency_ids(specs),
            checks == dependency_checks(parent, subpass_indices@, specs),
            indexes_prefix(indices@, ids, i as int),
            forall|j: int| 0 <= j < i ==> checks[j] is None,
            dependencies@.len() == i,
            forall|j: int|
                0 <= j < i ==> dependencies@[j] == dependency_resolved(
                    subpass_indices@,
                    specs[j],
                ),
        decreases parts.len() - i,
    {
        let part = &parts[i];
        assert(part@ == specs[i as int]);
        assert(ids[i as int] == part@.id);
        if part.parent_id() != parent {
            proof {
                lemma_first_error_at(checks, i as int);
            }
            return Err(BuildError::ForeignParent);
        }
        if i > 0xFFFF_FFFFusize {
            proof {
                lemma_first_error_at(checks, i as int);
            }
            return Err(BuildError::TooManyParts);
        }
        let index: u32 = i as u32;
        match indices.insert(part.id(), index) {
            Some(_) => {
                proof {
                    lemma_first_error_at(checks, i as int);
                }
                return Err(BuildError::DuplicateDependencyId);
            },
            None => {},
        }
        match part.get_subpass_dependency(subpass_indices) {
            Ok(dependency) => {
                dependencies.push(dependency);
            },
            Err(e) => {
                proof {
                    lemma_first_error_at(checks, i as int);
                }
                return Err(e);
            },
        }
        i = i + 1;
    }
    proof {
        lemma_first_error_none(checks);
        assert(dependencies@ =~= Seq::new(
            specs.len(),
            |i: int| dependency_resolved(subpass_indices@, specs[i]),
        ));
    }
    Ok(dependencies)
}

impl RenderPassBuilder {
    /// Resolves `config` into the description of a render pass. Fails on a
    /// part of another builder, on an id that occurs twice within its list,
    /// on a reference to a part that `config` does not list, and on a subpass
    /// whose resolve attachments are not as many as its color attachments.
    pub fn build(self, config: RenderPassConfig) -> (r: Result<RenderPassDescription, BuildError>)
        ensures
            match r {
                Ok(description) => build_result(self.spec_id(), config@) == Ok::<
                    RenderPassDescriptionSpec,
                    BuildError,
                >(description@),
                Err(e) => build_result(self.spec_id(), config@) == Err::<
                    RenderPassDescriptionSpec,
                    BuildError,
                >(e),
            },
    {
        let parent = self.id();
        let (attachment_indices, attachments) = match index_attachments(
            parent,
            &config.attachments,
        ) {
            Ok(pair) => pair,
            Err(e) => {
                return Err(e);
            },
        };
        let (subpass_indices, subpasses) = match resolve_subpasses(
            parent,
            &attachment_indices,
            &config.subpasses,
        ) {
            Ok(pair) => pair,
            Err(e) => {
                return Err(e);
            },
        };
        let dependencies = match &config.dependencies {
            Some(parts) => match resolve_dependencies(parent, &subpass_indices, parts) {
                Ok(v) => v,
                Err(e) => {
                    return Err(e);
                },
            },
            None => {
                proof {
                    lemma_first_error_none(
                        dependency_checks(parent, subpass_indices@, config@.dependencies),
                    );
                }
                Vec::new()
            },
        };
        let description = RenderPassDescription { attachments, subpasses, dependencies };
        assert(description@ =~= resolved_description(config@)) by {
            assert(description@.dependencies =~= resolved_description(config@).dependencies);
        }
        Ok(description)
    }
}

} // verus!
