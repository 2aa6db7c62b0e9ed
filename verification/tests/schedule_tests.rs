use swaynimated::options::Opt;
use swaynimated::playback::{Pipeline, Position};
use swaynimated::platform::{
    create_for, on_layer_surface_event, put_to_background, Anchor, CustomEvent, Layer,
    LayerSurfaceEvent, LayerSurfaceReply, LayerSurfaceRequest, LogicalSize,
};
use swaynimated::unix::background_window;
use swaynimated::schedule::{next_deadline, Action, Event, LoopControl, Wallpaper};
use swaynimated::surfaces::{PipelineWindow, PipelineWindows};

fn wallpaper(displays: u64, custom: Option<&str>) -> Wallpaper {
    let opt = Opt {
        debug: false,
        fps: 5,
        rendered_fps: 25,
        custom_fragment: custom.map(String::from),
        frame_path: String::from("frames"),
    };
    let pipeline = Pipeline::new(&opt, 10, 500).unwrap();
    let windows = PipelineWindows::new(
        (0..displays).map(|id| PipelineWindow::new(id, 1920, 1080)).collect(),
    )
    .unwrap();
    Wallpaper::new(pipeline, windows, opt.timer_length().unwrap(), 1_000)
}

#[test]
fn first_tick_is_due_at_once() {
    let state = wallpaper(1, None);
    assert_eq!(state.next_update, 1_000);
    assert_eq!(state.timer_length, 40_000_000);
}

#[test]
fn tick_advances_and_asks_for_redraws() {
    let mut state = wallpaper(2, None);
    let reaction = state.handle(Event::ResumeTimeReached { now: 5_000, clock: 600 });
    assert_eq!(state.next_update, 40_005_000);
    assert_eq!(reaction.control, Some(LoopControl::WaitUntil { deadline: 40_005_000 }));
    assert_eq!(reaction.action, Action::Redraw { windows: vec![0, 1] });
    assert_eq!(state.pipeline.position, Position::Frames { numerator: 5, denominator: 25 });
}

#[test]
fn late_tick_is_not_made_up_for() {
    let mut state = wallpaper(1, None);
    // Three periods late: one tick, and the next one a period from now.
    let reaction = state.handle(Event::ResumeTimeReached { now: 120_001_000, clock: 0 });
    assert_eq!(reaction.control, Some(LoopControl::WaitUntil { deadline: 160_001_000 }));
    assert_eq!(state.pipeline.position, Position::Frames { numerator: 5, denominator: 25 });
}

#[test]
fn redraw_stages_the_uniform_before_the_draws() {
    let mut state = wallpaper(2, None);
    state.handle(Event::ResumeTimeReached { now: 5_000, clock: 600 });
    let reaction = state.handle(Event::RedrawRequested);
    assert_eq!(reaction.control, Some(LoopControl::WaitUntil { deadline: 40_005_000 }));
    match reaction.action {
        Action::Render { write, draws } => {
            let mut expected = 10u32.to_le_bytes().to_vec();
            expected.extend_from_slice(&0.2f32.to_le_bytes());
            assert_eq!(write.data, expected);
            assert_eq!(write.offset, 0);
            assert_eq!(draws.len(), 2);
            for draw in draws {
                assert_eq!(draw.position, Position::Frames { numerator: 5, denominator: 25 });
                assert_eq!(draw.vertices, 6);
                assert_eq!(draw.instances, 1);
            }
        }
        other => panic!("unexpected action {:?}", other),
    }
    assert!(state.pipeline.is_synced());
}

#[test]
fn wall_clock_tick_reads_the_clock() {
    let mut state = wallpaper(1, Some("effect.glsl"));
    assert!(state.can_handle(&Event::ResumeTimeReached { now: 0, clock: 500 }));
    assert!(!state.can_handle(&Event::ResumeTimeReached { now: 0, clock: 499 }));
    state.handle(Event::ResumeTimeReached { now: 2_000, clock: 2_000_000_500 });
    assert_eq!(state.pipeline.position, Position::Seconds { nanos: 2_000_000_000 });
}

#[test]
fn stepping_tick_accepts_any_clock() {
    let state = wallpaper(1, None);
    assert!(state.can_handle(&Event::ResumeTimeReached { now: 0, clock: 0 }));
    assert!(state.can_handle(&Event::Other));
}

#[test]
fn closing_the_last_window_ends_the_loop() {
    let mut state = wallpaper(2, None);
    let reaction = state.handle(Event::CloseRequested { window_id: 0 });
    assert_eq!(reaction.control, None);
    assert_eq!(reaction.action, Action::Release { window_id: 0 });
    assert_eq!(state.windows.len(), 1);
    let reaction = state.handle(Event::CloseRequested { window_id: 0 });
    assert_eq!(reaction.control, None);
    assert_eq!(reaction.action, Action::Nothing);
    assert_eq!(state.windows.len(), 1);
    let reaction = state.handle(Event::CloseRequested { window_id: 1 });
    assert_eq!(reaction.control, Some(LoopControl::Exit));
    assert_eq!(reaction.action, Action::Release { window_id: 1 });
    assert!(state.windows.is_empty());
}

#[test]
fn resize_event_recreates_one_swap_target() {
    let mut state = wallpaper(2, None);
    let before = state.pipeline.clone();
    let reaction = state.handle(Event::Resized { window_id: 1, width: 1280, height: 720 });
    assert_eq!(reaction.control, None);
    assert_eq!(reaction.action, Action::Recreate { window: PipelineWindow::new(1, 1280, 720) });
    assert_eq!(
        state.windows.windows,
        vec![PipelineWindow::new(0, 1920, 1080), PipelineWindow::new(1, 1280, 720)]
    );
    assert_eq!(state.pipeline, before);
    let reaction = state.handle(Event::Resized { window_id: 9, width: 1, height: 1 });
    assert_eq!(reaction.action, Action::Nothing);
}

#[test]
fn cancelled_wait_resumes_when_asked_or_a_period_later() {
    let mut state = wallpaper(1, None);
    let reaction =
        state.handle(Event::WaitCancelled { requested_resume: Some(77), now: 10_000 });
    assert_eq!(reaction.control, Some(LoopControl::WaitUntil { deadline: 77 }));
    assert_eq!(state.next_update, 77);
    let reaction = state.handle(Event::WaitCancelled { requested_resume: None, now: 10_000 });
    assert_eq!(reaction.control, Some(LoopControl::WaitUntil { deadline: 40_010_000 }));
    assert_eq!(state.next_update, 40_010_000);
}

#[test]
fn other_events_wait_for_the_next_tick() {
    let mut state = wallpaper(1, None);
    let before = state.clone();
    let reaction = state.handle(Event::EventsCleared);
    assert_eq!(reaction.control, Some(LoopControl::WaitUntil { deadline: 1_000 }));
    assert_eq!(reaction.action, Action::Nothing);
    let reaction = state.handle(Event::Other);
    assert_eq!(reaction.control, Some(LoopControl::WaitUntil { deadline: 1_000 }));
    assert_eq!(state, before);
}

#[test]
fn deadline_stops_at_the_end_of_time() {
    assert_eq!(next_deadline(10, 5), 15);
    assert_eq!(next_deadline(u128::MAX - 4, 5), u128::MAX);
    assert_eq!(next_deadline(u128::MAX - 5, 5), u128::MAX);
    assert_eq!(next_deadline(u128::MAX, 0), u128::MAX);
}

#[test]
fn background_placement_covers_the_display() {
    let window = PipelineWindow::new(42, 1920, 1080);
    assert_eq!(
        put_to_background(3, true, &window),
        Some(LayerSurfaceRequest {
            window_id: 42,
            output: 3,
            layer: Layer::Background,
            anchor: Anchor { top: true, bottom: true, left: true, right: true },
            exclusive_zone: 0,
        })
    );
    assert_eq!(put_to_background(3, false, &window), None);
}

#[test]
fn configure_becomes_a_resize_event() {
    assert_eq!(
        on_layer_surface_event(42, LayerSurfaceEvent::Configure { serial: 9, width: 800, height: 600 }),
        LayerSurfaceReply::Resize {
            event: CustomEvent::WindowResized {
                window_id: 42,
                new_size: LogicalSize { width: 800, height: 600 }
            },
            serial: 9
        }
    );
    assert_eq!(
        on_layer_surface_event(42, LayerSurfaceEvent::Closed),
        LayerSurfaceReply::Close { window_id: 42 }
    );
}

#[test]
fn failed_target_is_dropped_and_the_others_go_on() {
    let mut state = wallpaper(3, None);
    let before = state.pipeline.clone();
    let reaction = state.handle(Event::TargetFailed { window_id: 1 });
    assert_eq!(reaction.control, None);
    assert_eq!(reaction.action, Action::Release { window_id: 1 });
    assert_eq!(
        state.windows.windows,
        vec![PipelineWindow::new(0, 1920, 1080), PipelineWindow::new(2, 1920, 1080)]
    );
    assert_eq!(state.pipeline, before);
    state.handle(Event::TargetFailed { window_id: 0 });
    let reaction = state.handle(Event::TargetFailed { window_id: 2 });
    assert_eq!(reaction.control, Some(LoopControl::Exit));
}

#[test]
fn new_display_gets_a_target_once() {
    let mut state = wallpaper(1, None);
    let reaction = state.handle(Event::DisplayConnected { window_id: 8, width: 3840, height: 2160 });
    assert_eq!(reaction.control, None);
    assert_eq!(reaction.action, Action::Create { window: PipelineWindow::new(8, 3840, 2160) });
    assert_eq!(
        state.windows.windows,
        vec![PipelineWindow::new(0, 1920, 1080), PipelineWindow::new(8, 3840, 2160)]
    );
    let reaction = state.handle(Event::DisplayConnected { window_id: 8, width: 1, height: 1 });
    assert_eq!(reaction.action, Action::Nothing);
    assert_eq!(state.windows.len(), 2);
}

#[test]
fn target_of_a_display_is_a_placed_background_window() {
    let target = create_for(4, 2, 2560, 1440, true);
    assert_eq!(target.window, PipelineWindow::new(4, 2560, 1440));
    assert_eq!(target.builder, background_window());
    assert_eq!(target.placement, put_to_background(2, true, &target.window));
    assert!(target.placement.is_some());
    assert_eq!(create_for(4, 2, 2560, 1440, false).placement, None);
}

#[test]
fn logical_size_is_scaled_to_physical_pixels() {
    let size = LogicalSize { width: 1280, height: 720 };
    assert_eq!(size.to_physical(1), (1280, 720));
    assert_eq!(size.to_physical(2), (2560, 1440));
    assert_eq!(size.to_physical(0), (0, 0));
    let huge = LogicalSize { width: u32::MAX, height: 3 };
    assert_eq!(huge.to_physical(2), (u32::MAX, 6));
}

#[test]
fn compositor_resize_becomes_the_common_resize_event() {
    let event = CustomEvent::WindowResized {
        window_id: 7,
        new_size: LogicalSize { width: 800, height: 600 },
    };
    assert_eq!(event.to_resize(2), Event::Resized { window_id: 7, width: 1600, height: 1200 });
}
