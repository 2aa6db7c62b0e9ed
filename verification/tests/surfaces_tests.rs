use swaynimated::options::Opt;
use swaynimated::playback::{Pipeline, Position};
use swaynimated::frames::TextureFormat;
use swaynimated::surfaces::{
    create_swap_chain, DrawCall, PipelineWindow, PipelineWindows, PresentMode,
    SwapChainDescriptor,
};

fn displays(count: u64) -> Vec<PipelineWindow> {
    (0..count).map(|id| PipelineWindow::new(100 + id, 1920, 1080)).collect()
}

fn clock() -> Pipeline {
    Pipeline::new(&Opt::with_defaults(String::from("frames")), 10, 0).unwrap()
}

#[test]
fn one_target_per_display() {
    for count in 0..5u64 {
        let targets = PipelineWindows::new(displays(count)).unwrap();
        assert_eq!(targets.len(), count as usize);
        assert_eq!(targets.windows, displays(count));
        assert_eq!(targets.is_empty(), count == 0);
    }
}

#[test]
fn two_targets_for_one_window_are_refused() {
    let mut twice = displays(3);
    twice.push(PipelineWindow::new(101, 800, 600));
    assert_eq!(PipelineWindows::new(twice), None);
}

#[test]
fn closing_one_leaves_the_others_untouched() {
    let mut targets = PipelineWindows::new(displays(4)).unwrap();
    targets.resize(102, 2560, 1440);
    targets.close(101);
    assert_eq!(targets.len(), 3);
    assert_eq!(targets.find(101), None);
    let kept = |id: u64, targets: &PipelineWindows| targets.windows[targets.find(id).unwrap()];
    assert_eq!(kept(100, &targets), PipelineWindow::new(100, 1920, 1080));
    assert_eq!(kept(102, &targets), PipelineWindow::new(102, 2560, 1440));
    assert_eq!(kept(103, &targets), PipelineWindow::new(103, 1920, 1080));
}

#[test]
fn closing_moves_the_last_target_into_the_gap() {
    let mut targets = PipelineWindows::new(displays(4)).unwrap();
    targets.close(100);
    let ids: Vec<u64> = targets.windows.iter().map(|w| w.window_id).collect();
    assert_eq!(ids, vec![103, 101, 102]);
    targets.close(102);
    let ids: Vec<u64> = targets.windows.iter().map(|w| w.window_id).collect();
    assert_eq!(ids, vec![103, 101]);
}

#[test]
fn closing_the_last_signals_emptiness() {
    let mut targets = PipelineWindows::new(displays(2)).unwrap();
    targets.close(100);
    assert!(!targets.is_empty());
    targets.close(101);
    assert!(targets.is_empty());
}

#[test]
fn closing_an_unknown_window_is_ignored() {
    let mut targets = PipelineWindows::new(displays(2)).unwrap();
    targets.close(7);
    assert_eq!(targets.windows, displays(2));
    targets.close(100);
    targets.close(100);
    assert_eq!(targets.windows, vec![PipelineWindow::new(101, 1920, 1080)]);
}

#[test]
fn resize_is_isolated() {
    let mut targets = PipelineWindows::new(displays(3)).unwrap();
    assert!(targets.resize(101, 1280, 720));
    assert_eq!(
        targets.windows,
        vec![
            PipelineWindow::new(100, 1920, 1080),
            PipelineWindow::new(101, 1280, 720),
            PipelineWindow::new(102, 1920, 1080),
        ]
    );
}

#[test]
fn resize_of_an_unknown_window_is_ignored() {
    let mut targets = PipelineWindows::new(displays(3)).unwrap();
    assert!(!targets.resize(9, 1, 1));
    assert_eq!(targets.windows, displays(3));
}

#[test]
fn resize_of_one_target() {
    let mut target = PipelineWindow::new(5, 10, 20);
    target.resize(30, 40);
    assert_eq!(target.window_id, 5);
    assert_eq!(target.swap_chain, create_swap_chain(30, 40));
    assert_eq!(
        target.swap_chain,
        SwapChainDescriptor {
            format: TextureFormat::Bgra8UnormSrgb,
            width: 30,
            height: 40,
            present_mode: PresentMode::Vsync
        }
    );
}

#[test]
fn insert_adds_a_new_display_once() {
    let mut targets = PipelineWindows::new(displays(1)).unwrap();
    assert!(targets.insert(PipelineWindow::new(200, 640, 480)));
    assert!(!targets.insert(PipelineWindow::new(200, 1, 1)));
    assert_eq!(
        targets.windows,
        vec![PipelineWindow::new(100, 1920, 1080), PipelineWindow::new(200, 640, 480)]
    );
}

#[test]
fn find_gives_the_place_of_a_window() {
    let targets = PipelineWindows::new(displays(3)).unwrap();
    assert_eq!(targets.find(100), Some(0));
    assert_eq!(targets.find(102), Some(2));
    assert_eq!(targets.find(103), None);
}

#[test]
fn every_window_is_asked_to_redraw() {
    let targets = PipelineWindows::new(displays(3)).unwrap();
    assert_eq!(targets.request_redraw(), vec![100, 101, 102]);
    assert_eq!(PipelineWindows::new(vec![]).unwrap().request_redraw(), Vec::<u64>::new());
}

#[test]
fn draws_observe_the_position_of_this_tick() {
    let mut pipeline = clock();
    let mut targets = PipelineWindows::new(displays(2)).unwrap();
    targets.resize(101, 800, 600);
    pipeline.go_to_next_frame(0);
    pipeline.update_shader_globals();
    let draws = targets.render(&pipeline);
    let current = Position::Frames { numerator: 5, denominator: 25 };
    assert_eq!(
        draws,
        vec![
            DrawCall {
                window_id: 100,
                target: create_swap_chain(1920, 1080),
                vertices: 6,
                instances: 1,
                clear_color: [0, 0, 0, 255],
                position: current
            },
            DrawCall {
                window_id: 101,
                target: create_swap_chain(800, 600),
                vertices: 6,
                instances: 1,
                clear_color: [0, 0, 0, 255],
                position: current
            },
        ]
    );
}

#[test]
fn resize_does_not_touch_the_clock() {
    let mut pipeline = clock();
    pipeline.go_to_next_frame(0);
    pipeline.update_shader_globals();
    let before = pipeline.clone();
    let mut targets = PipelineWindows::new(displays(2)).unwrap();
    targets.resize(100, 1, 2);
    assert_eq!(pipeline, before);
    assert_eq!(targets.render(&pipeline)[1], PipelineWindow::new(101, 1920, 1080).render(&before));
}
