use camera_fit::camera::{
    get_camera_pixels, ActiveCamera, CameraEntity, CameraError, CameraPlacement, CameraSystem,
    CameraSystemDesc, TickOutcome, CAMERA_DEPTH, CONTENT_HEIGHT, CONTENT_WIDTH,
};
use camera_fit::channel::WindowEvent;
use camera_fit::fit::{fit, CameraViewport, ContentExtent, Ratio, WindowSize};
use shrev::EventChannel;

const CONTENT: ContentExtent = ContentExtent { width: 600, height: 400 };
const CAMERA: CameraEntity = CameraEntity { index: 7, generation: 1 };

fn resized(width: u32, height: u32) -> WindowEvent {
    WindowEvent::Resized(WindowSize { width, height })
}

fn fitted(width: u32, height: u32) -> CameraViewport {
    fit(CONTENT, WindowSize { width, height }).unwrap()
}

fn active_system(channel: &mut EventChannel<WindowEvent>, width: u32, height: u32) -> CameraSystem {
    let mut system = CameraSystemDesc.build(channel);
    system.setup(WindowSize { width, height }, CAMERA);
    system
}

#[test]
fn content_is_six_hundred_by_four_hundred() {
    assert_eq!(get_camera_pixels(), (600, 400));
    assert_eq!((CONTENT_WIDTH, CONTENT_HEIGHT), (600, 400));
}

#[test]
fn built_system_has_the_standard_content_and_no_camera() {
    let mut channel = EventChannel::new();
    let system = CameraSystemDesc.build(&mut channel);
    assert_eq!(system.content_extent(), CONTENT);
    assert_eq!(system.active_camera(), None);
    assert_eq!(system.viewport(), None);
}

#[test]
fn new_system_keeps_the_content_it_is_given() {
    let mut channel: EventChannel<WindowEvent> = EventChannel::new();
    let reader = channel.register_reader();
    let system = CameraSystem::new(320, 240, reader);
    assert_eq!(system.content_extent(), ContentExtent { width: 320, height: 240 });
    assert_eq!(system.active_camera(), None);
    assert_eq!(
        system.calc_camera_xy(WindowSize { width: 100, height: 100 }),
        Some(CameraViewport {
            visible_width: Ratio { num: 320, den: 1 },
            visible_height: Ratio { num: 32_000, den: 100 },
        })
    );
}

#[test]
fn setup_places_the_camera_over_the_centre_of_the_content() {
    let mut channel = EventChannel::new();
    let mut system = CameraSystemDesc.build(&mut channel);
    let placement = system.setup(WindowSize { width: 800, height: 800 }, CAMERA);
    assert_eq!(
        placement,
        CameraPlacement {
            viewport: fitted(800, 800),
            center_x: Ratio { num: 600, den: 2 },
            center_y: Ratio { num: 400, den: 2 },
            depth: 1,
        }
    );
    assert!(placement.center_x.equals_whole(300));
    assert!(placement.center_y.equals_whole(200));
    assert_eq!(placement.depth, CAMERA_DEPTH);
    assert!(placement.viewport.is_exactly(600, 600));
    assert_eq!(
        system.active_camera(),
        Some(ActiveCamera { entity: CAMERA, viewport: fitted(800, 800) })
    );
}

#[test]
fn setup_in_a_window_without_height_shows_the_content_itself() {
    let mut channel = EventChannel::new();
    let mut system = CameraSystemDesc.build(&mut channel);
    let placement = system.setup(WindowSize { width: 800, height: 0 }, CAMERA);
    assert_eq!(placement.viewport, CameraViewport::exactly(CONTENT));
    assert_eq!(system.viewport(), Some(CameraViewport::exactly(CONTENT)));
}

#[test]
fn calc_camera_xy_is_the_fit_for_the_systems_content() {
    let mut channel = EventChannel::new();
    let system = CameraSystemDesc.build(&mut channel);
    assert_eq!(system.calc_camera_xy(WindowSize { width: 1600, height: 400 }), Some(fitted(1600, 400)));
    assert!(system
        .calc_camera_xy(WindowSize { width: 1600, height: 400 })
        .unwrap()
        .is_exactly(1600, 400));
    assert_eq!(system.calc_camera_xy(WindowSize { width: 0, height: 400 }), None);
    assert_eq!(system.calc_camera_xy(WindowSize { width: 1600, height: 0 }), None);
}

#[test]
fn update_without_a_camera_fails_and_changes_nothing() {
    let mut channel = EventChannel::new();
    let mut system = CameraSystemDesc.build(&mut channel);
    assert_eq!(system.update_camera(fitted(800, 800)), Err(CameraError::MissingCamera));
    assert_eq!(system.active_camera(), None);
}

#[test]
fn update_replaces_the_whole_projection() {
    let mut channel = EventChannel::new();
    let mut system = active_system(&mut channel, 800, 800);
    assert_eq!(system.update_camera(fitted(1600, 400)), Ok(()));
    assert_eq!(
        system.active_camera(),
        Some(ActiveCamera { entity: CAMERA, viewport: fitted(1600, 400) })
    );
}

#[test]
fn run_applies_a_resize() {
    let mut channel = EventChannel::new();
    let mut system = active_system(&mut channel, 300, 200);
    channel.single_write(resized(800, 800));
    assert_eq!(system.run(&channel), TickOutcome::Updated(fitted(800, 800)));
    assert!(system.viewport().unwrap().is_exactly(600, 600));
}

#[test]
fn last_resize_of_a_batch_decides() {
    let mut channel = EventChannel::new();
    let mut system = active_system(&mut channel, 300, 200);
    channel.single_write(resized(800, 800));
    channel.single_write(resized(10, 4000));
    channel.single_write(WindowEvent::Other);
    channel.single_write(resized(1600, 400));
    assert_eq!(system.run(&channel), TickOutcome::Updated(fitted(1600, 400)));
    assert_eq!(system.viewport(), Some(fitted(1600, 400)));
    assert!(system.viewport().unwrap().is_exactly(1600, 400));
}

#[test]
fn long_batches_end_at_the_fit_for_the_last_size() {
    let mut channel = EventChannel::with_capacity(4);
    let mut system = active_system(&mut channel, 300, 200);
    for n in 1..=500u32 {
        channel.single_write(resized(n, 501 - n));
    }
    assert_eq!(system.run(&channel), TickOutcome::Updated(fitted(500, 1)));
    assert_eq!(system.viewport(), Some(fitted(500, 1)));
}

#[test]
fn events_written_before_the_subscription_are_not_seen() {
    let mut channel = EventChannel::new();
    channel.single_write(resized(1600, 400));
    let mut system = active_system(&mut channel, 800, 800);
    assert_eq!(system.run(&channel), TickOutcome::Idle);
    assert_eq!(system.viewport(), Some(fitted(800, 800)));
}

#[test]
fn each_event_is_applied_once() {
    let mut channel = EventChannel::new();
    let mut system = active_system(&mut channel, 300, 200);
    channel.single_write(resized(800, 800));
    assert_eq!(system.run(&channel), TickOutcome::Updated(fitted(800, 800)));
    assert_eq!(system.update_camera(fitted(1600, 400)), Ok(()));
    assert_eq!(system.run(&channel), TickOutcome::Idle);
    assert_eq!(system.viewport(), Some(fitted(1600, 400)));
    channel.single_write(resized(500, 1000));
    assert_eq!(system.run(&channel), TickOutcome::Updated(fitted(500, 1000)));
    assert_eq!(system.run(&channel), TickOutcome::Idle);
}

#[test]
fn two_runs_end_where_one_run_over_both_batches_ends() {
    let first = [resized(800, 800), WindowEvent::Other, resized(0, 3)];
    let second = [resized(1024, 768), resized(768, 0), WindowEvent::Other];

    let mut channel = EventChannel::new();
    let mut stepwise = active_system(&mut channel, 300, 200);
    let mut at_once = active_system(&mut channel, 300, 200);
    for e in first {
        channel.single_write(e);
    }
    stepwise.run(&channel);
    for e in second {
        channel.single_write(e);
    }
    stepwise.run(&channel);
    at_once.run(&channel);
    assert_eq!(stepwise.viewport(), at_once.viewport());
    assert_eq!(at_once.viewport(), Some(fitted(1024, 768)));
}

#[test]
fn other_events_are_passed_over() {
    let mut channel = EventChannel::new();
    let mut system = active_system(&mut channel, 800, 800);
    channel.single_write(WindowEvent::Other);
    channel.single_write(WindowEvent::Other);
    assert_eq!(system.run(&channel), TickOutcome::Idle);
    assert_eq!(system.viewport(), Some(fitted(800, 800)));
}

#[test]
fn resize_to_zero_width_keeps_the_previous_viewport() {
    let mut channel = EventChannel::new();
    let mut system = active_system(&mut channel, 800, 800);
    channel.single_write(resized(0, 600));
    assert_eq!(system.run(&channel), TickOutcome::Idle);
    assert_eq!(system.viewport(), Some(fitted(800, 800)));
}

#[test]
fn resize_to_zero_height_keeps_the_previous_viewport() {
    let mut channel = EventChannel::new();
    let mut system = active_system(&mut channel, 800, 800);
    channel.single_write(resized(1600, 400));
    channel.single_write(resized(600, 0));
    assert_eq!(system.run(&channel), TickOutcome::Updated(fitted(1600, 400)));
    assert_eq!(system.viewport(), Some(fitted(1600, 400)));
}

#[test]
fn run_without_a_camera_reports_it_and_still_consumes_the_events() {
    let mut channel = EventChannel::new();
    let mut system = CameraSystemDesc.build(&mut channel);
    channel.single_write(resized(800, 800));
    assert_eq!(system.run(&channel), TickOutcome::CameraMissing);
    assert_eq!(system.active_camera(), None);
    system.setup(WindowSize { width: 300, height: 200 }, CAMERA);
    assert_eq!(system.run(&channel), TickOutcome::Idle);
    assert_eq!(system.viewport(), Some(fitted(300, 200)));
}

#[test]
fn run_without_a_camera_and_without_a_resize_is_idle() {
    let mut channel = EventChannel::new();
    let mut system = CameraSystemDesc.build(&mut channel);
    channel.single_write(WindowEvent::Other);
    channel.single_write(resized(0, 0));
    assert_eq!(system.run(&channel), TickOutcome::Idle);
}

#[test]
fn apply_events_takes_the_batch_in_order() {
    let mut channel = EventChannel::new();
    let mut system = active_system(&mut channel, 300, 200);
    let batch = vec![resized(1600, 400), resized(800, 800)];
    assert_eq!(system.apply_events(&batch), TickOutcome::Updated(fitted(800, 800)));
    let reversed = vec![resized(800, 800), resized(1600, 400)];
    assert_eq!(system.apply_events(&reversed), TickOutcome::Updated(fitted(1600, 400)));
    assert_eq!(system.apply_events(&Vec::new()), TickOutcome::Idle);
    assert_eq!(system.viewport(), Some(fitted(1600, 400)));
}

#[test]
fn apply_events_does_not_move_the_reader() {
    let mut channel = EventChannel::new();
    let mut system = active_system(&mut channel, 300, 200);
    channel.single_write(resized(800, 800));
    assert_eq!(system.apply_events(&vec![resized(1600, 400)]), TickOutcome::Updated(fitted(1600, 400)));
    assert_eq!(system.run(&channel), TickOutcome::Updated(fitted(800, 800)));
}

#[test]
fn camera_keeps_its_entity_through_resizes() {
    let mut channel = EventChannel::new();
    let mut system = active_system(&mut channel, 300, 200);
    channel.single_write(resized(640, 480));
    system.run(&channel);
    assert_eq!(system.active_camera().unwrap().entity, CAMERA);
    assert!(system.viewport().unwrap().holds(CONTENT));
}

#[test]
fn resized_to_gives_only_usable_sizes() {
    assert_eq!(resized(3, 4).resized_to(), Some(WindowSize { width: 3, height: 4 }));
    assert_eq!(resized(0, 4).resized_to(), None);
    assert_eq!(resized(3, 0).resized_to(), None);
    assert_eq!(WindowEvent::Other.resized_to(), None);
}
