use vulka::ownership::{DestroyCall, OwnershipError, ResourceKind, ResourceTable};

fn call(index: usize, kind: ResourceKind, handle: u64) -> DestroyCall {
    DestroyCall { index, kind, handle }
}

/// Device 0, image 1, view 2 of the image, render pass 3, framebuffer 4 of
/// the view and the render pass, pipeline 5 of the render pass.
fn table() -> ResourceTable {
    let mut t = ResourceTable::new();
    assert_eq!(t.create(ResourceKind::Device, 100, true, vec![]), Ok(0));
    assert_eq!(t.create(ResourceKind::Image, 101, true, vec![0]), Ok(1));
    assert_eq!(t.create(ResourceKind::ImageView, 102, true, vec![1, 0]), Ok(2));
    assert_eq!(t.create(ResourceKind::RenderPass, 103, true, vec![0]), Ok(3));
    assert_eq!(t.create(ResourceKind::Framebuffer, 104, true, vec![3, 2]), Ok(4));
    assert_eq!(t.create(ResourceKind::Pipeline, 105, true, vec![0, 3]), Ok(5));
    t
}

#[test]
fn an_object_without_dependents_goes_when_it_is_let_go_of() {
    let mut t = table();
    assert_eq!(t.len(), 6);
    assert!(t.is_alive(5) && t.is_held(5));
    assert_eq!(t.release(5), vec![call(5, ResourceKind::Pipeline, 105)]);
    assert!(!t.is_alive(5) && !t.is_held(5));
    // Letting go twice destroys nothing twice.
    assert_eq!(t.release(5), vec![]);
    assert_eq!(t.release(17), vec![]);
    assert!(t.is_alive(3));
}

#[test]
fn a_shared_object_lives_as_long_as_its_longest_holder() {
    let mut t = table();
    // The render pass is referred to by the framebuffer and the pipeline.
    assert!(t.is_referred_to(3));
    assert_eq!(t.release(3), vec![]);
    assert!(t.is_alive(3) && !t.is_held(3));
    assert_eq!(t.release(5), vec![call(5, ResourceKind::Pipeline, 105)]);
    assert!(t.is_alive(3));
    // The last holder goes: the render pass goes with it, and after it.
    assert_eq!(
        t.release(4),
        vec![call(4, ResourceKind::Framebuffer, 104), call(3, ResourceKind::RenderPass, 103)]
    );
    assert!(!t.is_alive(3) && !t.is_alive(4));
    assert!(t.is_alive(2) && t.is_alive(0));
}

#[test]
fn destruction_cascades_down_to_everything_that_was_only_kept_alive() {
    let mut t = table();
    for index in [0, 1, 2, 3, 5] {
        assert_eq!(t.release(index), if index == 5 {
            vec![call(5, ResourceKind::Pipeline, 105)]
        } else {
            vec![]
        });
    }
    assert!((0..5).all(|i| t.is_alive(i)));
    assert_eq!(
        t.release(4),
        vec![
            call(4, ResourceKind::Framebuffer, 104),
            call(3, ResourceKind::RenderPass, 103),
            call(2, ResourceKind::ImageView, 102),
            call(1, ResourceKind::Image, 101),
            call(0, ResourceKind::Device, 100),
        ]
    );
    assert!((0..6).all(|i| !t.is_alive(i)));
}

#[test]
fn an_image_of_the_swapchain_goes_without_a_destroy_call() {
    let mut t = ResourceTable::new();
    let device = t.create(ResourceKind::Device, 1, true, vec![]).unwrap();
    let swapchain = t.create(ResourceKind::Swapchain, 2, true, vec![device]).unwrap();
    let image = t.create(ResourceKind::Image, 3, false, vec![swapchain]).unwrap();
    let view = t.create(ResourceKind::ImageView, 4, true, vec![image]).unwrap();
    assert_eq!(t.release(image), vec![]);
    assert_eq!(t.release(view), vec![call(view, ResourceKind::ImageView, 4)]);
    assert!(!t.is_alive(image));
    assert!(!t.is_referred_to(swapchain));
    assert_eq!(t.release(swapchain), vec![call(swapchain, ResourceKind::Swapchain, 2)]);
}

#[test]
fn nothing_can_refer_to_what_is_gone_or_was_never_there() {
    let mut t = table();
    t.release(5);
    assert_eq!(
        t.create(ResourceKind::Fence, 9, true, vec![0, 5, 77]),
        Err(OwnershipError::DeadParent { parent: 5 })
    );
    assert_eq!(
        t.create(ResourceKind::Fence, 9, true, vec![6]),
        Err(OwnershipError::DeadParent { parent: 6 })
    );
    assert_eq!(t.len(), 6);
    assert_eq!(t.create(ResourceKind::Fence, 9, true, vec![0, 0]), Ok(6));
    assert!(t.is_referred_to(0));
}

#[test]
fn teardown_destroys_everything_youngest_first() {
    let mut t = table();
    t.release(3);
    t.release(5);
    assert_eq!(
        t.teardown(),
        vec![
            call(4, ResourceKind::Framebuffer, 104),
            call(3, ResourceKind::RenderPass, 103),
            call(2, ResourceKind::ImageView, 102),
            call(1, ResourceKind::Image, 101),
            call(0, ResourceKind::Device, 100),
        ]
    );
    assert!((0..6).all(|i| !t.is_alive(i) && !t.is_held(i)));
    assert_eq!(t.teardown(), vec![]);
    assert_eq!(ResourceTable::new().teardown(), vec![]);
}
