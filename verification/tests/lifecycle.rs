use piston::error::SetupError;
use piston::vulkan::lifecycle::{Lifecycle, Resource, ResourceKind, Step};

fn resource(kind: ResourceKind, handle: u64) -> Resource {
    Resource { kind, handle }
}

/// Plays the owner: creates what the lifecycle asks for, numbering the
/// handles as they come, until `stop_before` handles exist or all is ready.
fn drive(lifecycle: &mut Lifecycle, images: usize, stop_before: usize) -> Vec<Resource> {
    let mut created = Vec::new();
    let mut destroyed = Vec::new();
    loop {
        match lifecycle.next_step(images) {
            Step::Create(kind) => {
                if created.len() == stop_before {
                    break;
                }
                let handle = 100 + created.len() as u64;
                assert_eq!(lifecycle.acquire(kind, handle), Ok(()));
                created.push(resource(kind, handle));
            }
            Step::ReleaseShaderModules => destroyed.extend(lifecycle.release_shader_modules()),
            Step::Ready => break,
        }
    }
    let _ = destroyed;
    created
}

fn kinds(resources: &[Resource]) -> Vec<ResourceKind> {
    resources.iter().map(|resource| resource.kind).collect()
}

#[test]
fn start_without_validation_follows_the_one_order() {
    let mut lifecycle = Lifecycle::new(false);
    assert!(!lifecycle.is_validation_enabled());
    let created = drive(&mut lifecycle, 2, usize::MAX);
    assert_eq!(
        kinds(&created),
        vec![
            ResourceKind::Instance,
            ResourceKind::Surface,
            ResourceKind::Device,
            ResourceKind::Swapchain,
            ResourceKind::ImageView,
            ResourceKind::ImageView,
            ResourceKind::RenderPass,
            ResourceKind::PipelineLayout,
            ResourceKind::VertexShader,
            ResourceKind::FragmentShader,
            ResourceKind::Pipeline,
        ]
    );
    assert_eq!(lifecycle.next_step(2), Step::Ready);
}

#[test]
fn debug_messenger_comes_right_after_the_instance() {
    let mut lifecycle = Lifecycle::new(true);
    assert!(lifecycle.is_validation_enabled());
    let created = drive(&mut lifecycle, 1, 3);
    assert_eq!(
        kinds(&created),
        vec![ResourceKind::Instance, ResourceKind::DebugMessenger, ResourceKind::Surface]
    );
}

#[test]
fn teardown_is_the_reverse_of_creation() {
    let mut lifecycle = Lifecycle::new(true);
    drive(&mut lifecycle, 3, usize::MAX);
    let live = lifecycle.resources().clone();
    let plan = lifecycle.teardown();
    let mut reversed = live.clone();
    reversed.reverse();
    assert_eq!(plan, reversed);
    assert_eq!(
        kinds(&plan),
        vec![
            ResourceKind::Pipeline,
            ResourceKind::PipelineLayout,
            ResourceKind::RenderPass,
            ResourceKind::ImageView,
            ResourceKind::ImageView,
            ResourceKind::ImageView,
            ResourceKind::Swapchain,
            ResourceKind::Device,
            ResourceKind::Surface,
            ResourceKind::DebugMessenger,
            ResourceKind::Instance,
        ]
    );
    assert!(lifecycle.resources().is_empty());
    assert!(lifecycle.teardown().is_empty());
}

#[test]
fn teardown_after_a_failure_releases_what_was_acquired() {
    for stop in 0..13 {
        let mut lifecycle = Lifecycle::new(true);
        let created = drive(&mut lifecycle, 2, stop);
        assert_eq!(created.len(), stop.min(12));
        let live = lifecycle.resources().clone();
        let plan = lifecycle.teardown();
        let mut expected = live;
        expected.reverse();
        assert_eq!(plan, expected);
        if stop < 12 {
            let mut all = created;
            all.reverse();
            assert_eq!(plan, all);
        }
        assert!(lifecycle.resources().is_empty());
    }
}

#[test]
fn every_handle_is_destroyed_exactly_once() {
    let mut lifecycle = Lifecycle::new(true);
    let mut destroyed = Vec::new();
    let mut created = Vec::new();
    loop {
        match lifecycle.next_step(4) {
            Step::Create(kind) => {
                let handle = created.len() as u64;
                lifecycle.acquire(kind, handle).unwrap();
                created.push(handle);
            }
            Step::ReleaseShaderModules => {
                destroyed.extend(lifecycle.release_shader_modules().iter().map(|r| r.handle))
            }
            Step::Ready => break,
        }
    }
    destroyed.extend(lifecycle.teardown().iter().map(|r| r.handle));
    assert_eq!(destroyed.len(), created.len());
    destroyed.sort();
    assert_eq!(destroyed, created);
}

#[test]
fn shader_modules_go_as_soon_as_the_pipeline_is_built() {
    let mut lifecycle = Lifecycle::new(false);
    let mut released = Vec::new();
    loop {
        match lifecycle.next_step(1) {
            Step::Create(kind) => {
                let handle = lifecycle.resources().len() as u64;
                lifecycle.acquire(kind, handle).unwrap();
                if kind != ResourceKind::Pipeline {
                    assert!(lifecycle.release_shader_modules().is_empty());
                }
            }
            Step::ReleaseShaderModules => {
                assert!(released.is_empty());
                released = lifecycle.release_shader_modules();
            }
            Step::Ready => break,
        }
    }
    assert_eq!(
        kinds(&released),
        vec![ResourceKind::FragmentShader, ResourceKind::VertexShader]
    );
    assert_eq!(
        kinds(&lifecycle.resources()[6..]),
        vec![ResourceKind::PipelineLayout, ResourceKind::Pipeline]
    );
    assert!(lifecycle.release_shader_modules().is_empty());
}

#[test]
fn failure_while_building_the_pipeline_releases_the_shader_modules_first() {
    let mut lifecycle = Lifecycle::new(false);
    let created = drive(&mut lifecycle, 1, 9);
    assert_eq!(created.last().unwrap().kind, ResourceKind::FragmentShader);
    let plan = lifecycle.teardown();
    assert_eq!(
        kinds(&plan[..4]),
        vec![
            ResourceKind::FragmentShader,
            ResourceKind::VertexShader,
            ResourceKind::PipelineLayout,
            ResourceKind::RenderPass,
        ]
    );
}

#[test]
fn out_of_order_handle_is_refused_and_changes_nothing() {
    let mut lifecycle = Lifecycle::new(false);
    assert_eq!(lifecycle.acquire(ResourceKind::Surface, 1), Err(SetupError::OutOfOrder));
    assert!(lifecycle.resources().is_empty());
    assert_eq!(lifecycle.acquire(ResourceKind::Instance, 1), Ok(()));
    assert_eq!(lifecycle.acquire(ResourceKind::Instance, 2), Err(SetupError::OutOfOrder));
    assert_eq!(lifecycle.acquire(ResourceKind::DebugMessenger, 2), Err(SetupError::OutOfOrder));
    assert_eq!(lifecycle.acquire(ResourceKind::Device, 2), Err(SetupError::OutOfOrder));
    assert_eq!(lifecycle.resources(), &vec![resource(ResourceKind::Instance, 1)]);
    assert!(lifecycle.can_acquire(ResourceKind::Surface));
    assert!(!lifecycle.can_acquire(ResourceKind::Pipeline));
}

#[test]
fn validation_asks_for_the_messenger_before_the_surface() {
    let mut lifecycle = Lifecycle::new(true);
    lifecycle.acquire(ResourceKind::Instance, 1).unwrap();
    assert_eq!(lifecycle.next_step(0), Step::Create(ResourceKind::DebugMessenger));
    assert_eq!(lifecycle.acquire(ResourceKind::Surface, 2), Err(SetupError::OutOfOrder));
    assert_eq!(lifecycle.acquire(ResourceKind::DebugMessenger, 2), Ok(()));
    assert_eq!(lifecycle.next_step(0), Step::Create(ResourceKind::Surface));
}

#[test]
fn as_many_image_views_as_images() {
    for images in 0..5usize {
        let mut lifecycle = Lifecycle::new(false);
        let created = drive(&mut lifecycle, images, usize::MAX);
        let views = created.iter().filter(|r| r.kind == ResourceKind::ImageView).count();
        assert_eq!(views, images);
    }
}

#[test]
fn pipeline_needs_both_shader_modules() {
    let mut lifecycle = Lifecycle::new(false);
    drive(&mut lifecycle, 1, 7);
    assert_eq!(lifecycle.next_step(1), Step::Create(ResourceKind::VertexShader));
    assert_eq!(lifecycle.acquire(ResourceKind::Pipeline, 50), Err(SetupError::OutOfOrder));
    assert_eq!(lifecycle.acquire(ResourceKind::FragmentShader, 50), Err(SetupError::OutOfOrder));
    assert_eq!(lifecycle.acquire(ResourceKind::VertexShader, 50), Ok(()));
    assert_eq!(lifecycle.acquire(ResourceKind::Pipeline, 51), Err(SetupError::OutOfOrder));
    assert_eq!(lifecycle.acquire(ResourceKind::FragmentShader, 51), Ok(()));
    assert_eq!(lifecycle.acquire(ResourceKind::Pipeline, 52), Ok(()));
    assert_eq!(lifecycle.next_step(1), Step::ReleaseShaderModules);
    assert!(!lifecycle.can_acquire(ResourceKind::Instance));
}

#[test]
fn youngest_handle_of_a_kind_is_found() {
    let mut lifecycle = Lifecycle::new(false);
    assert_eq!(lifecycle.handle_of(ResourceKind::Instance), None);
    drive(&mut lifecycle, 3, 7);
    assert_eq!(lifecycle.handle_of(ResourceKind::Instance), Some(100));
    assert_eq!(lifecycle.handle_of(ResourceKind::Surface), Some(101));
    assert_eq!(lifecycle.handle_of(ResourceKind::Swapchain), Some(103));
    assert_eq!(lifecycle.handle_of(ResourceKind::ImageView), Some(106));
    assert_eq!(lifecycle.handle_of(ResourceKind::RenderPass), None);
    assert_eq!(lifecycle.handle_of(ResourceKind::DebugMessenger), None);
}

#[test]
fn image_views_are_counted_from_the_top() {
    let mut lifecycle = Lifecycle::new(true);
    assert_eq!(lifecycle.image_views_on_top(), 0);
    drive(&mut lifecycle, 3, 5);
    assert_eq!(lifecycle.image_views_on_top(), 0);
    drive(&mut lifecycle, 3, 1);
    assert_eq!(lifecycle.image_views_on_top(), 1);
    drive(&mut lifecycle, 3, 2);
    assert_eq!(lifecycle.image_views_on_top(), 3);
    drive(&mut lifecycle, 3, 1);
    assert_eq!(lifecycle.image_views_on_top(), 0);
}
