use ash::vk;
use vulka::builder::{BuildError, BuilderIds};
use vulka::dependency::DependencyBuilder;
use vulka::render_pass::{
    AttachmentBuilder, AttachmentReference, RenderPass, RenderPassBuilder, SubpassDependency,
    PIPELINE_BIND_POINT_GRAPHICS, SUBPASS_EXTERNAL,
};
use vulka::render_pass_build::RenderPassConfig;
use vulka::subpass::SubpassBuilder;

const COLOR_LAYOUT: i32 = 2;
const DEPTH_LAYOUT: i32 = 3;

#[test]
fn single_color_attachment_resolves_to_index_zero() {
    let mut builder = RenderPass::builder(&mut BuilderIds::new());
    let color = builder.attachment().format(50).samples(1).final_layout(1000001002);
    let subpass = builder.subpass().color(&color, COLOR_LAYOUT);
    let dependency = builder.dependency().src_external().dst(&subpass).dst_stage_mask(0x400);
    let description = builder
        .build(RenderPassConfig {
            attachments: vec![color],
            subpasses: vec![subpass],
            dependencies: Some(vec![dependency]),
        })
        .unwrap();
    assert_eq!(description.attachment_count(), 1);
    assert_eq!(description.attachments[0].format, 50);
    assert_eq!(description.attachments[0].samples, 1);
    assert_eq!(description.attachments[0].final_layout, 1000001002);
    assert_eq!(description.subpasses[0].pipeline_bind_point, PIPELINE_BIND_POINT_GRAPHICS);
    assert_eq!(
        description.subpasses[0].color_attachments,
        vec![AttachmentReference { attachment: 0, layout: COLOR_LAYOUT }]
    );
    assert!(description.subpasses[0].resolve_attachments.is_empty());
    assert_eq!(
        description.dependencies,
        vec![SubpassDependency {
            src_subpass: SUBPASS_EXTERNAL,
            dst_subpass: 0,
            src_stage_mask: 0,
            dst_stage_mask: 0x400,
            src_access_mask: 0,
            dst_access_mask: 0,
            dependency_flags: 0,
        }]
    );
}

#[test]
fn builder_mints_increasing_ids_for_every_kind_of_part() {
    let mut ids = BuilderIds::new();
    for _ in 0..7 {
        ids.issue();
    }
    let mut builder = RenderPassBuilder::new(&mut ids);
    assert_eq!(builder.id(), 7);
    assert_eq!(ids.next(), 8);
    let a = builder.attachment();
    let s = builder.subpass();
    let d = builder.dependency();
    let b = builder.attachment();
    assert_eq!((a.id(), s.id(), d.id(), b.id()), (0, 1, 2, 3));
    assert_eq!((a.parent_id(), s.parent_id(), d.parent_id()), (7, 7, 7));
    assert_eq!(builder.next_id(), 4);
    assert_eq!(RenderPassBuilder::new(&mut BuilderIds::new()).id(), 0);
}

#[test]
fn references_resolve_to_positions_in_the_configuration() {
    let mut builder = RenderPass::builder(&mut BuilderIds::new());
    let a = builder.attachment().format(1);
    let b = builder.attachment().format(2);
    let c = builder.attachment().format(3);
    let d = builder.attachment().format(4);
    let first = builder
        .subpass()
        .input(&d, 5)
        .color(&b, COLOR_LAYOUT)
        .resolve(&c, COLOR_LAYOUT)
        .depth_stencil(&a, DEPTH_LAYOUT)
        .preserve(&d);
    let second = builder.subpass().color(&a, COLOR_LAYOUT);
    let forward = builder.dependency().src(&first).dst(&second).src_access_mask(0x100).flags(1);
    let outward = builder.dependency().src(&second).dst_external().src_stage_mask(0x80);
    // The configuration lists the attachments in another order than they
    // were minted in: the indices follow the configuration.
    let description = builder
        .build(RenderPassConfig {
            attachments: vec![d, c, b, a],
            subpasses: vec![second, first],
            dependencies: Some(vec![outward, forward]),
        })
        .unwrap();
    let formats: Vec<i32> = description.attachments.iter().map(|x| x.format).collect();
    assert_eq!(formats, vec![4, 3, 2, 1]);
    let second = &description.subpasses[0];
    let first = &description.subpasses[1];
    assert_eq!(second.color_attachments, vec![AttachmentReference { attachment: 3, layout: 2 }]);
    assert_eq!(second.depth_stencil_attachment, None);
    assert_eq!(first.input_attachments, vec![AttachmentReference { attachment: 0, layout: 5 }]);
    assert_eq!(first.color_attachments, vec![AttachmentReference { attachment: 2, layout: 2 }]);
    assert_eq!(first.resolve_attachments, vec![AttachmentReference { attachment: 1, layout: 2 }]);
    assert_eq!(
        first.depth_stencil_attachment,
        Some(AttachmentReference { attachment: 3, layout: DEPTH_LAYOUT })
    );
    assert_eq!(first.preserve_attachments, vec![0]);
    assert_eq!(description.dependencies[0].src_subpass, 0);
    assert_eq!(description.dependencies[0].dst_subpass, SUBPASS_EXTERNAL);
    assert_eq!(description.dependencies[0].src_stage_mask, 0x80);
    assert_eq!(description.dependencies[1].src_subpass, 1);
    assert_eq!(description.dependencies[1].dst_subpass, 0);
    assert_eq!(description.dependencies[1].src_access_mask, 0x100);
    assert_eq!(description.dependencies[1].dependency_flags, 1);
}

fn two_pass_description(subpass_first: bool) -> String {
    let mut builder = RenderPass::builder(&mut BuilderIds::new());
    let (a, b, s, t, d);
    if subpass_first {
        let s0 = builder.subpass();
        let d0 = builder.dependency();
        let t0 = builder.subpass();
        b = builder.attachment().format(44).load_op(1);
        a = builder.attachment().format(37).store_op(1);
        s = s0.color(&a, COLOR_LAYOUT).input(&b, 5);
        t = t0.color(&b, COLOR_LAYOUT);
        d = d0.src(&s).dst(&t).dst_access_mask(0x20);
    } else {
        a = builder.attachment().format(37).store_op(1);
        b = builder.attachment().format(44).load_op(1);
        s = builder.subpass().color(&a, COLOR_LAYOUT).input(&b, 5);
        t = builder.subpass().color(&b, COLOR_LAYOUT);
        d = builder.dependency().src(&s).dst(&t).dst_access_mask(0x20);
    }
    let description = builder
        .build(RenderPassConfig {
            attachments: vec![a, b],
            subpasses: vec![s, t],
            dependencies: Some(vec![d]),
        })
        .unwrap();
    format!("{:?}", description)
}

#[test]
fn order_of_declaration_does_not_show_in_the_description() {
    assert_eq!(two_pass_description(false), two_pass_description(true));
}

#[test]
fn resolve_list_of_other_length_fails() {
    let mut builder = RenderPass::builder(&mut BuilderIds::new());
    let a = builder.attachment();
    let b = builder.attachment();
    let c = builder.attachment();
    let subpass = builder.subpass().color(&a, 2).color(&b, 2).resolve(&c, 2);
    let result = builder.build(RenderPassConfig {
        attachments: vec![a, b, c],
        subpasses: vec![subpass],
        dependencies: None,
    });
    assert_eq!(result.err(), Some(BuildError::ResolveCountMismatch));
}

#[test]
fn resolve_list_longer_than_color_list_fails() {
    let mut builder = RenderPass::builder(&mut BuilderIds::new());
    let a = builder.attachment();
    let b = builder.attachment();
    let subpass = builder.subpass().resolve(&a, 2).resolve(&b, 2);
    let result = builder.build(RenderPassConfig {
        attachments: vec![a, b],
        subpasses: vec![subpass],
        dependencies: None,
    });
    assert_eq!(result.err(), Some(BuildError::ResolveCountMismatch));
}

#[test]
fn resolve_list_of_equal_length_builds() {
    let mut builder = RenderPass::builder(&mut BuilderIds::new());
    let a = builder.attachment();
    let b = builder.attachment();
    let subpass = builder.subpass().color(&a, 2).resolve(&b, 2);
    let description = builder
        .build(RenderPassConfig {
            attachments: vec![a, b],
            subpasses: vec![subpass],
            dependencies: None,
        })
        .unwrap();
    assert_eq!(
        description.subpasses[0].resolve_attachments,
        vec![AttachmentReference { attachment: 1, layout: 2 }]
    );
    assert!(description.dependencies.is_empty());
}

#[test]
fn duplicate_ids_fail() {
    let builder = RenderPassBuilder::new(&mut BuilderIds::new());
    let a = AttachmentBuilder::new(3, 0);
    let result = builder.build(RenderPassConfig {
        attachments: vec![a, a],
        subpasses: vec![],
        dependencies: None,
    });
    assert_eq!(result.err(), Some(BuildError::DuplicateAttachmentId));

    let builder = RenderPassBuilder::new(&mut BuilderIds::new());
    let result = builder.build(RenderPassConfig {
        attachments: vec![],
        subpasses: vec![SubpassBuilder::new(1, 0), SubpassBuilder::new(1, 0)],
        dependencies: None,
    });
    assert_eq!(result.err(), Some(BuildError::DuplicateSubpassId));

    let builder = RenderPassBuilder::new(&mut BuilderIds::new());
    let d = DependencyBuilder::new(5, 0);
    let result = builder.build(RenderPassConfig {
        attachments: vec![],
        subpasses: vec![],
        dependencies: Some(vec![d, d]),
    });
    assert_eq!(result.err(), Some(BuildError::DuplicateDependencyId));
}

#[test]
fn an_attachment_and_a_subpass_may_share_an_id() {
    let builder = RenderPassBuilder::new(&mut BuilderIds::new());
    let a = AttachmentBuilder::new(0, 0);
    let s = SubpassBuilder::new(0, 0).color(&a, 2);
    let description = builder
        .build(RenderPassConfig { attachments: vec![a], subpasses: vec![s], dependencies: None })
        .unwrap();
    assert_eq!(description.subpasses[0].color_attachments[0].attachment, 0);
}

#[test]
fn parts_of_another_builder_fail() {
    let mut ids = BuilderIds::new();
    let mut ours = RenderPass::builder(&mut ids);
    let mut theirs = RenderPass::builder(&mut ids);
    assert!(ours.id() != theirs.id());
    let foreign = theirs.attachment();
    let own = ours.attachment();
    let result = ours.build(RenderPassConfig {
        attachments: vec![own, foreign],
        subpasses: vec![],
        dependencies: None,
    });
    assert_eq!(result.err(), Some(BuildError::ForeignParent));
}

#[test]
fn dangling_references_fail() {
    let mut builder = RenderPass::builder(&mut BuilderIds::new());
    let listed = builder.attachment();
    let unlisted = builder.attachment();
    let subpass = builder.subpass().color(&listed, 2).preserve(&unlisted);
    let result = builder.build(RenderPassConfig {
        attachments: vec![listed],
        subpasses: vec![subpass],
        dependencies: None,
    });
    assert_eq!(result.err(), Some(BuildError::DanglingAttachment));

    let mut builder = RenderPass::builder(&mut BuilderIds::new());
    let listed = builder.subpass();
    let unlisted = builder.subpass();
    let dependency = builder.dependency().src(&listed).dst(&unlisted);
    let result = builder.build(RenderPassConfig {
        attachments: vec![],
        subpasses: vec![listed],
        dependencies: Some(vec![dependency]),
    });
    assert_eq!(result.err(), Some(BuildError::DanglingSubpass));
}

#[test]
fn the_first_part_at_fault_decides_the_error() {
    // The dangling color reference is found before the length of the
    // resolve list is looked at.
    let mut builder = RenderPass::builder(&mut BuilderIds::new());
    let listed = builder.attachment();
    let unlisted = builder.attachment();
    let subpass = builder.subpass().color(&unlisted, 2).resolve(&listed, 2).resolve(&listed, 2);
    let result = builder.build(RenderPassConfig {
        attachments: vec![listed],
        subpasses: vec![subpass],
        dependencies: None,
    });
    assert_eq!(result.err(), Some(BuildError::DanglingAttachment));

    // An attachment at fault is found before any subpass is.
    let mut builder = RenderPass::builder(&mut BuilderIds::new());
    let a = builder.attachment();
    let subpass = builder.subpass().resolve(&a, 2);
    let result = builder.build(RenderPassConfig {
        attachments: vec![a, a],
        subpasses: vec![subpass],
        dependencies: None,
    });
    assert_eq!(result.err(), Some(BuildError::DuplicateAttachmentId));
}

#[test]
fn attachment_setters_set_their_own_field() {
    let a = AttachmentBuilder::new(0, 0)
        .format(1)
        .samples(2)
        .load_op(3)
        .store_op(4)
        .stencil_load_op(5)
        .stencil_store_op(6)
        .initial_layout(7)
        .final_layout(8);
    let d = a.attachment_description();
    assert_eq!(
        (
            d.flags,
            d.format,
            d.samples,
            d.load_op,
            d.store_op,
            d.stencil_load_op,
            d.stencil_store_op,
            d.initial_layout,
            d.final_layout
        ),
        (0, 1, 2, 3, 4, 5, 6, 7, 8)
    );
}

#[test]
fn a_fresh_attachment_is_the_default_of_the_native_description() {
    let ours = AttachmentBuilder::new(0, 0).attachment_description();
    let theirs = vk::AttachmentDescription::default();
    assert_eq!(ours.flags, theirs.flags.as_raw());
    assert_eq!(ours.format, theirs.format.as_raw());
    assert_eq!(ours.samples, theirs.samples.as_raw());
    assert_eq!(ours.load_op, theirs.load_op.as_raw());
    assert_eq!(ours.store_op, theirs.store_op.as_raw());
    assert_eq!(ours.stencil_load_op, theirs.stencil_load_op.as_raw());
    assert_eq!(ours.stencil_store_op, theirs.stencil_store_op.as_raw());
    assert_eq!(ours.initial_layout, theirs.initial_layout.as_raw());
    assert_eq!(ours.final_layout, theirs.final_layout.as_raw());
}

#[test]
fn an_unset_dependency_is_the_default_of_the_native_dependency() {
    let builder = RenderPassBuilder::new(&mut BuilderIds::new());
    let description = builder
        .build(RenderPassConfig {
            attachments: vec![],
            subpasses: vec![],
            dependencies: Some(vec![DependencyBuilder::new(0, 0)]),
        })
        .unwrap();
    let ours = description.dependencies[0];
    let theirs = vk::SubpassDependency::default();
    assert_eq!(ours.src_subpass, theirs.src_subpass);
    assert_eq!(ours.dst_subpass, theirs.dst_subpass);
    assert_eq!(ours.src_stage_mask, theirs.src_stage_mask.as_raw());
    assert_eq!(ours.dst_stage_mask, theirs.dst_stage_mask.as_raw());
    assert_eq!(ours.src_access_mask, theirs.src_access_mask.as_raw());
    assert_eq!(ours.dst_access_mask, theirs.dst_access_mask.as_raw());
    assert_eq!(ours.dependency_flags, theirs.dependency_flags.as_raw());
}

#[test]
fn render_pass_constants_are_the_native_ones() {
    assert_eq!(SUBPASS_EXTERNAL, vk::SUBPASS_EXTERNAL);
    assert_eq!(PIPELINE_BIND_POINT_GRAPHICS, vk::PipelineBindPoint::GRAPHICS.as_raw());
    let pass = RenderPass::new(9, 2);
    assert_eq!((pass.handle, pass.attachment_count()), (9, 2));
}

#[test]
fn builders_of_one_issuer_have_identities_of_their_own() {
    let mut ids = BuilderIds::new();
    assert_eq!(ids.next(), 0);
    let first = RenderPass::builder(&mut ids);
    let second = RenderPassBuilder::new(&mut ids);
    let third = vulka::descriptor_set::DescriptorSetLayout::builder(&mut ids);
    assert_eq!((first.id(), second.id(), third.id()), (0, 1, 2));
    assert_eq!(ids.next(), 3);
    // The identity is stable, also after the builder has minted and moved.
    let mut moved = first;
    let part = moved.attachment();
    assert_eq!((moved.id(), moved.id(), part.parent_id()), (0, 0, 0));
    // A part of one builder is refused by every other.
    let result = second.build(RenderPassConfig {
        attachments: vec![part],
        subpasses: vec![],
        dependencies: None,
    });
    assert_eq!(result.err(), Some(BuildError::ForeignParent));
    let accepted = moved.build(RenderPassConfig {
        attachments: vec![part],
        subpasses: vec![],
        dependencies: None,
    });
    assert!(accepted.is_ok());
}
