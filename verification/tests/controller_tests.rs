use fasternet_client::command::{Command, Submission};
use fasternet_client::controller::{EventOutcome, Input, Phase, RenderLoop};
use fasternet_client::event::{Event, Key, RebuildDecision, Routing};
use fasternet_client::geometry::{DeviceRect, Resize, Size, WindowGeometry};
use fasternet_client::ids::{DocumentId, Epoch, PipelineId};
use fasternet_client::scale::ScaleFactor;

fn factor(value: f32) -> ScaleFactor {
    ScaleFactor::from_bits(value.to_bits()).unwrap()
}

fn document() -> DocumentId {
    DocumentId { namespace: 7, id: 1 }
}

fn start(width: u32, height: u32, scale: f32) -> (RenderLoop, Vec<Command>) {
    RenderLoop::initialize(
        WindowGeometry::new(Size { width, height }, factor(scale)),
        document(),
    )
}

fn present(size: Size) -> Vec<Command> {
    vec![Command::UpdateBackend, Command::Render { size }, Command::SwapBuffers]
}

fn resubmission(layout: Size) -> Vec<Command> {
    vec![
        Command::SubmitScene(Submission {
            document: document(),
            pipeline: PipelineId(0, 0),
            epoch: Epoch(0),
            layout,
            viewport: layout,
        }),
        Command::GenerateFrame { document: document() },
    ]
}

#[test]
fn initial_submission_at_scale_one() {
    let (state, commands) = start(800, 600, 1.0);
    assert_eq!(
        commands,
        vec![
            Command::SubmitScene(Submission {
                document: document(),
                pipeline: PipelineId(0, 0),
                epoch: Epoch(0),
                layout: Size { width: 800, height: 600 },
                viewport: Size { width: 800, height: 600 },
            }),
            Command::SetRootPipeline { document: document(), pipeline: PipelineId(0, 0) },
            Command::GenerateFrame { document: document() },
        ]
    );
    assert_eq!(state.geometry().logical_size(), Size { width: 800, height: 600 });
    assert_eq!(state.geometry().physical_size(), Size { width: 800, height: 600 });
    assert_eq!(state.epoch(), Epoch(0));
    assert_eq!(state.epoch(), Epoch::initial());
    assert_eq!(state.document_id(), document());
    assert_eq!(state.pipeline_id(), PipelineId::root());
    assert_eq!(state.phase(), Phase::Running);
    assert!(state.is_running());
    assert!(!state.is_visible());
    assert!(state.frame_pending());
}

#[test]
fn initial_submission_on_a_dense_display() {
    let (_, commands) = start(800, 600, 2.0);
    assert_eq!(
        commands[0],
        Command::SubmitScene(Submission {
            document: document(),
            pipeline: PipelineId(0, 0),
            epoch: Epoch(0),
            layout: Size { width: 800, height: 600 },
            viewport: Size { width: 1600, height: 1200 },
        })
    );
    assert_eq!(commands.len(), 3);
}

#[test]
fn resize_event_at_scale_two() {
    let (mut state, _) = start(800, 600, 1.0);
    let outcome = state.handle_event(Event::Resized(Resize {
        width: 400,
        height: 300,
        scale: factor(2.0),
    }));
    let physical = Size { width: 800, height: 600 };
    assert_eq!(
        outcome,
        EventOutcome {
            routing: Routing::Delegate { layout: Size { width: 400, height: 300 } },
            commands: vec![
                Command::ResizeSurface { size: physical },
                Command::SetWindowParameters {
                    document: document(),
                    size: physical,
                    rect: DeviceRect { x: 0, y: 0, size: physical },
                    scale: factor(2.0),
                },
            ],
        }
    );
    assert_eq!(state.geometry().physical_size(), physical);
    assert_eq!(state.geometry().logical_size(), Size { width: 400, height: 300 });
    assert_eq!(state.geometry().scale_factor(), factor(2.0));
    // The next rebuild lays out in the logical size.
    assert_eq!(state.rebuild_and_submit(), resubmission(Size { width: 400, height: 300 }));
    // The next frame is rendered in the physical size.
    assert_eq!(state.tick(), present(physical));
}

#[test]
fn resize_does_not_force_a_rebuild() {
    let (mut state, _) = start(800, 600, 1.0);
    state.tick();
    state.presented(true);
    assert!(!state.frame_pending());
    let outcome =
        state.handle_event(Event::Resized(Resize { width: 640, height: 480, scale: factor(1.5) }));
    assert!(outcome.commands.iter().all(|c| !matches!(c, Command::SubmitScene(_))));
    assert!(!state.frame_pending());
    assert_eq!(state.geometry().physical_size(), Size { width: 960, height: 720 });
}

#[test]
fn close_mid_frame_presents_the_pending_frame_before_shutdown() {
    let (mut state, _) = start(800, 600, 1.0);
    state.tick();
    state.presented(true);
    let outcome = state.handle_event(Event::OtherWindowEvent);
    assert_eq!(outcome.routing, Routing::Delegate { layout: Size { width: 800, height: 600 } });
    let submitted = state.apply_decision(RebuildDecision::from_adapter(true));
    assert_eq!(submitted, resubmission(Size { width: 800, height: 600 }));
    assert!(state.frame_pending());

    // The close arrives after the submission and before the tick.
    let outcome = state.handle_event(Event::CloseRequested);
    assert_eq!(outcome.routing, Routing::Stop);
    assert_eq!(outcome.commands, present(Size { width: 800, height: 600 }));
    assert_eq!(state.phase(), Phase::Stopping);
    assert!(!state.frame_pending());

    // Nothing is presented a second time.
    assert_eq!(state.tick(), Vec::new());
    assert_eq!(state.handle_event(Event::CloseRequested).commands, Vec::new());
    assert_eq!(state.shutdown(), vec![Command::Deinit]);
    assert_eq!(state.phase(), Phase::Finished);
}

#[test]
fn close_with_nothing_pending_stops_at_once() {
    let (mut state, _) = start(800, 600, 1.0);
    state.tick();
    state.presented(true);
    let outcome = state.handle_event(Event::CloseRequested);
    assert_eq!(outcome, EventOutcome { routing: Routing::Stop, commands: Vec::new() });
    assert_eq!(state.shutdown(), vec![Command::Deinit]);
}

#[test]
fn close_before_the_first_present_still_presents_the_first_scene() {
    let (mut state, _) = start(800, 600, 2.0);
    let outcome = state.handle_event(Event::CloseRequested);
    assert_eq!(outcome.routing, Routing::Stop);
    assert_eq!(outcome.commands, present(Size { width: 1600, height: 1200 }));
    assert!(!state.is_visible());
}

#[test]
fn no_op_builds_and_submits_nothing() {
    let (mut state, _) = start(800, 600, 1.0);
    state.tick();
    state.presented(true);
    let before = state;
    let outcome = state.handle_event(Event::Keyboard { key: Key::Other, pressed: true });
    assert_eq!(outcome.routing, Routing::Delegate { layout: Size { width: 800, height: 600 } });
    assert_eq!(outcome.commands, Vec::new());
    let decision = RebuildDecision::from_adapter(false);
    assert_eq!(decision, RebuildDecision::NoOp);
    assert_eq!(state.apply_decision(decision), Vec::new());
    assert_eq!(state, before);
    assert!(!state.frame_pending());
    // The iteration still ends with a present.
    assert_eq!(state.tick(), present(Size { width: 800, height: 600 }));
}

#[test]
fn rebuild_submits_under_the_same_identities_and_epoch() {
    let (mut state, first) = start(800, 600, 1.0);
    state.tick();
    state.presented(true);
    assert_eq!(RebuildDecision::from_adapter(true), RebuildDecision::Rebuild);
    let commands = state.apply_decision(RebuildDecision::Rebuild);
    assert_eq!(commands, resubmission(Size { width: 800, height: 600 }));
    assert!(state.frame_pending());
    match (first[0], commands[0]) {
        (Command::SubmitScene(a), Command::SubmitScene(b)) => {
            assert_eq!(a.document, b.document);
            assert_eq!(a.pipeline, b.pipeline);
            assert_eq!(a.epoch, b.epoch);
        }
        _ => panic!("both runs of commands begin with a submission"),
    }
    assert_eq!(state.epoch(), Epoch(0));
    assert_eq!(state.document_id(), document());
    assert_eq!(state.pipeline_id(), PipelineId(0, 0));
}

#[test]
fn the_window_is_shown_once_after_the_first_successful_present() {
    let (mut state, _) = start(800, 600, 1.0);
    assert!(!state.is_visible());
    assert_eq!(state.tick(), present(Size { width: 800, height: 600 }));
    assert!(!state.is_visible());
    // A failed present shows nothing and leaves the frame pending.
    assert_eq!(state.presented(false), Vec::new());
    assert!(!state.is_visible());
    assert!(state.frame_pending());
    state.tick();
    assert_eq!(state.presented(true), vec![Command::ShowWindow]);
    assert!(state.is_visible());
    assert!(!state.frame_pending());
    for _ in 0..5 {
        state.tick();
        assert_eq!(state.presented(true), Vec::new());
        assert!(state.is_visible());
    }
    state.tick();
    assert_eq!(state.presented(false), Vec::new());
    assert!(state.is_visible());
}

#[test]
fn a_present_report_that_no_tick_asked_for_is_passed_over() {
    let (mut state, _) = start(800, 600, 1.0);
    let before = state;
    assert_eq!(state.presented(true), Vec::new());
    assert_eq!(state, before);
    assert!(!state.is_visible());
    state.tick();
    assert_eq!(state.presented(true), vec![Command::ShowWindow]);
    // The report is taken once.
    let before = state;
    assert_eq!(state.presented(true), Vec::new());
    assert_eq!(state, before);
}

#[test]
fn escape_stops_the_loop_whether_it_goes_down_or_up() {
    for pressed in [true, false].iter() {
        let (mut state, _) = start(800, 600, 1.0);
        state.tick();
        state.presented(true);
        let outcome = state.handle_event(Event::Keyboard { key: Key::Escape, pressed: *pressed });
        assert_eq!(outcome, EventOutcome { routing: Routing::Stop, commands: Vec::new() });
        assert_eq!(state.phase(), Phase::Stopping);
        assert!(!state.is_running());
    }
}

#[test]
fn r_going_down_toggles_the_instrumentation_and_changes_no_state() {
    let (mut state, _) = start(800, 600, 1.0);
    let before = state;
    let outcome = state.handle_event(Event::Keyboard { key: Key::R, pressed: true });
    assert_eq!(
        outcome,
        EventOutcome {
            routing: Routing::Delegate { layout: Size { width: 800, height: 600 } },
            commands: vec![Command::ToggleDebugFlags],
        }
    );
    assert_eq!(state, before);
    let outcome = state.handle_event(Event::Keyboard { key: Key::R, pressed: false });
    assert_eq!(
        outcome,
        EventOutcome {
            routing: Routing::Delegate { layout: Size { width: 800, height: 600 } },
            commands: Vec::new(),
        }
    );
    assert_eq!(state, before);
}

#[test]
fn what_is_not_the_windows_is_ignored() {
    let (mut state, _) = start(800, 600, 1.0);
    let before = state;
    let outcome = state.handle_event(Event::Unrelated);
    assert_eq!(outcome, EventOutcome { routing: Routing::Ignore, commands: Vec::new() });
    assert_eq!(state, before);
}

#[test]
fn shutdown_releases_the_backend_once() {
    let (mut state, _) = start(800, 600, 1.0);
    // Also from a running loop, as when an error brings the loop down.
    assert_eq!(state.shutdown(), vec![Command::Deinit]);
    assert_eq!(state.phase(), Phase::Finished);
    assert_eq!(state.shutdown(), Vec::new());
    assert_eq!(state.phase(), Phase::Finished);
}

#[test]
fn a_finished_loop_asks_for_nothing() {
    let (mut state, _) = start(800, 600, 1.0);
    state.shutdown();
    let before = state;
    let resize = Event::Resized(Resize { width: 1, height: 1, scale: factor(2.0) });
    assert_eq!(
        state.handle_event(resize),
        EventOutcome { routing: Routing::Stop, commands: Vec::new() }
    );
    assert_eq!(state.apply_decision(RebuildDecision::Rebuild), Vec::new());
    assert_eq!(state.rebuild_and_submit(), Vec::new());
    assert_eq!(state.tick(), Vec::new());
    assert_eq!(state.presented(true), Vec::new());
    assert_eq!(state, before);
    assert_eq!(state.geometry().logical_size(), Size { width: 800, height: 600 });
}

#[test]
fn step_reacts_as_the_single_operations_do() {
    let inputs = vec![
        Input::Tick,
        Input::Presented(true),
        Input::Event(Event::Resized(Resize { width: 400, height: 300, scale: factor(2.0) })),
        Input::Decision(RebuildDecision::Rebuild),
        Input::Tick,
        Input::Presented(false),
        Input::Event(Event::OtherWindowEvent),
        Input::Decision(RebuildDecision::NoOp),
        Input::Tick,
        Input::Presented(true),
        Input::Event(Event::Keyboard { key: Key::R, pressed: true }),
        Input::Event(Event::CloseRequested),
        Input::Shutdown,
    ];
    let (mut by_step, _) = start(800, 600, 1.0);
    let (mut by_hand, _) = start(800, 600, 1.0);
    for input in inputs {
        let expected = match input {
            Input::Event(event) => by_hand.handle_event(event).commands,
            Input::Decision(decision) => by_hand.apply_decision(decision),
            Input::Tick => by_hand.tick(),
            Input::Presented(ok) => by_hand.presented(ok),
            Input::BackendFailed => by_hand.backend_failed(),
            Input::Shutdown => by_hand.shutdown(),
        };
        assert_eq!(by_step.step(input), expected);
        assert_eq!(by_step, by_hand);
    }
    assert_eq!(by_step.phase(), Phase::Finished);
}

fn lifetime(inputs: Vec<Input>) -> (RenderLoop, Vec<Command>) {
    let (mut state, mut trace) = start(800, 600, 1.0);
    for input in inputs {
        trace.extend(state.step(input));
    }
    (state, trace)
}

fn busy_life() -> Vec<Input> {
    let mut inputs = Vec::new();
    for round in 0..40u32 {
        inputs.push(Input::Event(Event::Resized(Resize {
            width: 100 + round,
            height: 50 + round,
            scale: factor(if round % 2 == 0 { 1.0 } else { 1.5 }),
        })));
        inputs.push(Input::Decision(RebuildDecision::from_adapter(round % 3 != 0)));
        inputs.push(Input::Presented(true));
        inputs.push(Input::Tick);
        inputs.push(Input::Presented(round % 4 != 1));
        inputs.push(Input::Event(Event::Keyboard { key: Key::R, pressed: round % 5 == 0 }));
        inputs.push(Input::Decision(RebuildDecision::Rebuild));
    }
    inputs.push(Input::Event(Event::Keyboard { key: Key::Escape, pressed: true }));
    inputs.push(Input::Tick);
    inputs.push(Input::Decision(RebuildDecision::Rebuild));
    inputs.push(Input::Shutdown);
    inputs.push(Input::Tick);
    inputs.push(Input::Shutdown);
    inputs
}

#[test]
fn epochs_never_decrease_over_a_life() {
    let (state, trace) = lifetime(busy_life());
    let epochs: Vec<u32> = trace
        .iter()
        .filter_map(|c| match c {
            Command::SubmitScene(s) => Some(s.epoch.0),
            _ => None,
        })
        .collect();
    assert!(epochs.len() > 40);
    assert!(epochs.windows(2).all(|pair| pair[0] <= pair[1]));
    assert_eq!(epochs[0], 0);
    assert_eq!(state.epoch(), Epoch(0));
    assert!(trace.iter().all(|c| match c {
        Command::SubmitScene(s) => s.document == document() && s.pipeline == PipelineId(0, 0),
        _ => true,
    }));
}

#[test]
fn the_window_is_shown_exactly_once_over_a_life() {
    let (state, trace) = lifetime(busy_life());
    let shows: Vec<usize> = trace
        .iter()
        .enumerate()
        .filter(|(_, c)| **c == Command::ShowWindow)
        .map(|(k, _)| k)
        .collect();
    assert_eq!(shows.len(), 1);
    assert!(state.is_visible());
    assert!(trace[..shows[0]].contains(&Command::SwapBuffers));
}

#[test]
fn the_window_stays_hidden_while_no_present_succeeds() {
    let mut inputs = Vec::new();
    for _ in 0..10 {
        inputs.push(Input::Tick);
        inputs.push(Input::Presented(false));
        inputs.push(Input::Presented(true));
    }
    let (state, trace) = lifetime(inputs);
    assert!(!state.is_visible());
    assert!(!trace.contains(&Command::ShowWindow));
    assert!(state.frame_pending());
}

#[test]
fn nothing_follows_the_release_of_the_backend() {
    let (state, trace) = lifetime(busy_life());
    let releases: Vec<usize> = trace
        .iter()
        .enumerate()
        .filter(|(_, c)| **c == Command::Deinit)
        .map(|(k, _)| k)
        .collect();
    assert_eq!(releases, vec![trace.len() - 1]);
    assert_eq!(state.phase(), Phase::Finished);
}

#[test]
fn a_run_of_resizes_leaves_the_geometry_of_the_last() {
    let mut inputs = Vec::new();
    for round in 1..30u32 {
        inputs.push(Input::Event(Event::Resized(Resize {
            width: 10 * round,
            height: 7 * round,
            scale: factor(if round % 2 == 0 { 2.0 } else { 1.25 }),
        })));
    }
    let (state, _) = lifetime(inputs);
    // The last notification is 290 by 203 at a factor of 1.25.
    assert_eq!(state.geometry().logical_size(), Size { width: 290, height: 203 });
    assert_eq!(state.geometry().physical_size(), Size { width: 362, height: 253 });
    assert_eq!(state.geometry().scale_factor(), factor(1.25));
}

#[test]
fn a_failure_of_the_backend_stops_the_loop_and_the_backend_is_still_released() {
    let (mut state, _) = start(800, 600, 1.0);
    state.tick();
    assert!(!state.has_failed());
    assert_eq!(state.backend_failed(), Vec::new());
    assert!(state.has_failed());
    assert_eq!(state.phase(), Phase::Stopping);
    assert!(!state.is_running());
    assert!(!state.frame_pending());
    // Nothing is tried again.
    assert_eq!(state.presented(true), Vec::new());
    assert_eq!(state.tick(), Vec::new());
    assert_eq!(state.rebuild_and_submit(), Vec::new());
    assert_eq!(
        state.handle_event(Event::OtherWindowEvent),
        EventOutcome { routing: Routing::Stop, commands: Vec::new() }
    );
    assert!(!state.is_visible());
    assert_eq!(state.shutdown(), vec![Command::Deinit]);
    assert_eq!(state.phase(), Phase::Finished);
    assert!(state.has_failed());
}

#[test]
fn a_failure_while_stopping_is_kept_in_mind_and_one_after_the_end_is_not() {
    let (mut state, _) = start(800, 600, 1.0);
    state.handle_event(Event::CloseRequested);
    assert!(!state.has_failed());
    state.backend_failed();
    assert!(state.has_failed());
    assert_eq!(state.phase(), Phase::Stopping);

    let (mut state, _) = start(800, 600, 1.0);
    state.shutdown();
    let before = state;
    assert_eq!(state.backend_failed(), Vec::new());
    assert_eq!(state, before);
    assert!(!state.has_failed());
}

#[test]
fn a_stopped_loop_asks_only_for_the_release_of_the_backend() {
    let mut inputs = vec![Input::Tick, Input::BackendFailed];
    inputs.extend(busy_life());
    let (mut state, _) = start(800, 600, 1.0);
    let mut after_failure = Vec::new();
    for (k, input) in inputs.into_iter().enumerate() {
        let commands = state.step(input);
        if k >= 1 {
            after_failure.extend(commands);
        }
    }
    assert_eq!(after_failure, vec![Command::Deinit]);
    assert!(state.has_failed());
    assert_eq!(state.phase(), Phase::Finished);
}
