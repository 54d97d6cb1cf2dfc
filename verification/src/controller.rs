//! The render loop's controller: the state that one thread owns between frames, and
//! its reaction to everything that can happen to it.
//!
//! The controller touches neither the window nor the backend. Each operation takes
//! what has happened, moves the state on, and hands back the commands that the driver
//! of the loop is to carry out, in order. The driver reports back what only it can
//! know: the application's answer to an event, and whether a present succeeded.
//!
//! The epoch of a document stays at its initial value: a rebuilt scene replaces the
//! earlier one under the same tag.

use vstd::prelude::*;
use crate::command::{Command, Submission};
use crate::event::{Event, Key, RebuildDecision, Routing};
use crate::geometry::{GeometryModel, WindowGeometry};
use crate::ids::{DocumentId, Epoch, PipelineId};

verus! {

/// How far the loop has come.
#[derive(Clone, Copy, Debug, PartialEq, Eq, Structural)]
pub enum Phase {
    /// Events are handled and frames presented.
    Running,
    /// A terminal event was seen; only the shutdown is left.
    Stopping,
    /// The backend's resources are released.
    Finished,
}

/// The mathematical content of a controller.
pub struct LoopState {
    pub geometry: GeometryModel,
    pub epoch: Epoch,
    pub document: DocumentId,
    pub pipeline: PipelineId,
    /// The window has been made visible.
    pub visible: bool,
    /// A scene was submitted and no present has succeeded since.
    pub frame_pending: bool,
    /// A present was asked for and its outcome is not reported yet.
    pub presenting: bool,
    /// The backend has failed; the loop ends for that reason.
    pub failed: bool,
    pub phase: Phase,
}

/// A new state and the commands that lead to it.
pub struct Reaction {
    pub state: LoopState,
    pub commands: Seq<Command>,
}

/// A new state, the commands that lead to it, and where the event goes next.
pub struct EventReaction {
    pub state: LoopState,
    pub routing: Routing,
    pub commands: Seq<Command>,
}

/// Everything that can happen to a controller once it is set up.
pub enum Input {
    /// The window system delivered an event.
    Event(Event),
    /// The application has answered the event that was delegated to it.
    Decision(RebuildDecision),
    /// The loop has come to the end of an iteration.
    Tick,
    /// The present that the last tick asked for has succeeded or failed.
    Presented(bool),
    /// The backend could not do what it was asked for.
    BackendFailed,
    /// The loop is over.
    Shutdown,
}

impl LoopState {
    /// The geometry is consistent.
    pub open spec fn wf(self) -> bool {
        self.geometry.wf()
    }

    /// The state of a loop that has just submitted its first scene.
    pub open spec fn initial(geometry: GeometryModel, document: DocumentId) -> LoopState {
        LoopState {
            geometry,
            epoch: Epoch(0),
            document,
            pipeline: PipelineId(0, 0),
            visible: false,
            frame_pending: true,
            presenting: false,
            failed: false,
            phase: Phase::Running,
        }
    }

    /// The commands that submit the first scene: it is laid out in the logical size,
    /// shown through a viewport of the physical size, made the root of its document,
    /// and a frame of it is asked for.
    pub open spec fn initial_commands(geometry: GeometryModel, document: DocumentId) -> Seq<
        Command,
    > {
        seq![
            Command::SubmitScene(
                Submission {
                    document,
                    pipeline: PipelineId(0, 0),
                    epoch: Epoch(0),
                    layout: geometry.logical,
                    viewport: geometry.physical,
                },
            ),
            Command::SetRootPipeline { document, pipeline: PipelineId(0, 0) },
            Command::GenerateFrame { document },
        ]
    }

    /// The frame of a resubmission: same document, pipeline and epoch, laid out in and
    /// shown through the current logical size.
    pub open spec fn submission(self) -> Submission {
        Submission {
            document: self.document,
            pipeline: self.pipeline,
            epoch: self.epoch,
            layout: self.geometry.logical,
            viewport: self.geometry.logical,
        }
    }

    /// The commands that submit a rebuilt scene and ask for a frame of it.
    pub open spec fn submit_commands(self) -> Seq<Command> {
        seq![
            Command::SubmitScene(self.submission()),
            Command::GenerateFrame { document: self.document },
        ]
    }

    /// The commands that render one frame in the current physical size and present it.
    pub open spec fn present_commands(self) -> Seq<Command> {
        seq![
            Command::UpdateBackend,
            Command::Render { size: self.geometry.physical },
            Command::SwapBuffers,
        ]
    }

    /// Whether an event ends the loop: a request to close the window, or the escape
    /// key going down or up.
    pub open spec fn is_terminal(event: Event) -> bool {
        match event {
            Event::CloseRequested => true,
            Event::Keyboard { key: Key::Escape, .. } => true,
            _ => false,
        }
    }

    /// The reaction to an event of the window system.
    ///
    /// A loop that is no longer running answers every event with `Stop` and does
    /// nothing. A running loop
    /// - takes over the geometry of a resize, passes it on to the surface and the
    ///   backend, and delegates the event;
    /// - stops on a terminal event, presenting first the frame that is still pending;
    /// - toggles the instrumentation when `R` goes down, and delegates the event;
    /// - delegates every other event of the window;
    /// - ignores what is not the window's.
    pub open spec fn on_event(self, event: Event) -> EventReaction {
        if self.phase != Phase::Running {
            EventReaction { state: self, routing: Routing::Stop, commands: Seq::empty() }
        } else if Self::is_terminal(event) {
            EventReaction {
                state: LoopState {
                    phase: Phase::Stopping,
                    frame_pending: false,
                    presenting: false,
                    ..self
                },
                routing: Routing::Stop,
                commands: if self.frame_pending {
                    self.present_commands()
                } else {
                    Seq::empty()
                },
            }
        } else {
            match event {
                Event::Resized(resize) => {
                    let geometry = self.geometry.resized(resize);
                    EventReaction {
                        state: LoopState { geometry, ..self },
                        routing: Routing::Delegate { layout: geometry.logical },
                        commands: seq![
                            Command::ResizeSurface { size: geometry.physical },
                            Command::SetWindowParameters {
                                document: self.document,
                                size: geometry.physical,
                                rect: geometry.window_rect(),
                                scale: resize.scale,
                            },
                        ],
                    }
                },
                Event::Keyboard { key: Key::R, pressed: true } => EventReaction {
                    state: self,
                    routing: Routing::Delegate { layout: self.geometry.logical },
                    commands: seq![Command::ToggleDebugFlags],
                },
                Event::Unrelated => EventReaction {
                    state: self,
                    routing: Routing::Ignore,
                    commands: Seq::empty(),
                },
                _ => EventReaction {
                    state: self,
                    routing: Routing::Delegate { layout: self.geometry.logical },
                    commands: Seq::empty(),
                },
            }
        }
    }

    /// The reaction to the application's answer: a running loop submits a rebuilt
    /// scene when a rebuild is called for; nothing happens otherwise.
    pub open spec fn on_decision(self, decision: RebuildDecision) -> Reaction {
        if self.phase == Phase::Running && decision == RebuildDecision::Rebuild {
            Reaction {
                state: LoopState { frame_pending: true, ..self },
                commands: self.submit_commands(),
            }
        } else {
            Reaction { state: self, commands: Seq::empty() }
        }
    }

    /// The reaction to the end of an iteration: a running loop renders and presents.
    pub open spec fn on_tick(self) -> Reaction {
        if self.phase == Phase::Running {
            Reaction {
                state: LoopState { presenting: true, ..self },
                commands: self.present_commands(),
            }
        } else {
            Reaction { state: self, commands: Seq::empty() }
        }
    }

    /// The reaction to the rest of an iteration once the application has answered:
    /// first the decision is acted on, then the tick follows, so that a scene which is
    /// submitted in an iteration goes out before that iteration's frame is presented.
    pub open spec fn on_iteration_end(self, decision: RebuildDecision) -> Reaction {
        Reaction {
            state: self.on_decision(decision).state.on_tick().state,
            commands: self.on_decision(decision).commands + self.on_decision(
                decision,
            ).state.on_tick().commands,
        }
    }

    /// The reaction to the outcome of a present. A report that no tick asked for is
    /// passed over. A success clears the pending frame and, the first time, makes the
    /// window visible; a failure leaves everything for the next tick.
    pub open spec fn on_presented(self, ok: bool) -> Reaction {
        if self.phase == Phase::Running && self.presenting {
            if ok {
                Reaction {
                    state: LoopState {
                        presenting: false,
                        frame_pending: false,
                        visible: true,
                        ..self
                    },
                    commands: if self.visible {
                        Seq::empty()
                    } else {
                        seq![Command::ShowWindow]
                    },
                }
            } else {
                Reaction { state: LoopState { presenting: false, ..self }, commands: Seq::empty() }
            }
        } else {
            Reaction { state: self, commands: Seq::empty() }
        }
    }

    /// The reaction to a failure of the backend. There is no second try: a loop that
    /// is not finished yet stops, without a last present, and keeps the failure in
    /// mind. Only the shutdown is left for it to do.
    pub open spec fn on_failure(self) -> Reaction {
        if self.phase != Phase::Finished {
            Reaction {
                state: LoopState {
                    phase: Phase::Stopping,
                    failed: true,
                    frame_pending: false,
                    presenting: false,
                    ..self
                },
                commands: Seq::empty(),
            }
        } else {
            Reaction { state: self, commands: Seq::empty() }
        }
    }

    /// The reaction to the end of the loop: the backend's resources are released,
    /// once, whatever the loop was doing.
    pub open spec fn on_shutdown(self) -> Reaction {
        if self.phase != Phase::Finished {
            Reaction {
                state: LoopState {
                    phase: Phase::Finished,
                    frame_pending: false,
                    presenting: false,
                    ..self
                },
                commands: seq![Command::Deinit],
            }
        } else {
            Reaction { state: self, commands: Seq::empty() }
        }
    }
}

/// The state of the render loop between two events.
#[derive(Clone, Copy, Debug, PartialEq, Eq, Structural)]
pub struct RenderLoop {
    geometry: WindowGeometry,
    epoch: Epoch,
    document: DocumentId,
    pipeline: PipelineId,
    visible: bool,
    frame_pending: bool,
    presenting: bool,
    failed: bool,
    phase: Phase,
}

/// What the controller makes of one event.
#[derive(Debug, PartialEq, Eq)]
pub struct EventOutcome {
    /// Where the event goes next.
    pub routing: Routing,
    /// What the driver is to carry out before that.
    pub commands: Vec<Command>,
}

impl View for RenderLoop {
    type V = LoopState;

    closed spec fn view(&self) -> LoopState {
        LoopState {
            geometry: self.geometry@,
            epoch: self.epoch,
            document: self.document,
            pipeline: self.pipeline,
            visible: self.visible,
            frame_pending: self.frame_pending,
            presenting: self.presenting,
            failed: self.failed,
            phase: self.phase,
        }
    }
}

impl RenderLoop {
    /// Sets the loop up for a window of the given geometry whose document the backend
    /// has named `document`. The commands submit the first scene under epoch zero,
    /// make the viewer's pipeline the root of the document, and ask for a frame. The
    /// window stays hidden until a present has succeeded.
    pub fn initialize(geometry: WindowGeometry, document: DocumentId) -> (r: (
        RenderLoop,
        Vec<Command>,
    ))
        ensures
            r.0@ == LoopState::initial(geometry@, document),
            r.0@.wf(),
            r.1@ == LoopState::initial_commands(geometry@, document),
    {
        proof {
            use_type_invariant(&geometry);
        }
        let pipeline = PipelineId::root();
        let epoch = Epoch::initial();
        let state = RenderLoop {
            geometry,
            epoch,
            document,
            pipeline,
            visible: false,
            frame_pending: true,
            presenting: false,
            failed: false,
            phase: Phase::Running,
        };
        let mut commands: Vec<Command> = Vec::new();
        commands.push(
            Command::SubmitScene(
                Submission {
                    document,
                    pipeline,
                    epoch,
                    layout: geometry.logical_size(),
                    viewport: geometry.physical_size(),
                },
            ),
        );
        commands.push(Command::SetRootPipeline { document, pipeline });
        commands.push(Command::GenerateFrame { document });
        assert(commands@ =~= LoopState::initial_commands(geometry@, document));
        (state, commands)
    }

    /// Handles one event of the window system.
    pub fn handle_event(&mut self, event: Event) -> (outcome: EventOutcome)
        ensures
            final(self)@ == old(self)@.on_event(event).state,
            final(self)@.wf(),
            outcome.routing == old(self)@.on_event(event).routing,
            outcome.commands@ == old(self)@.on_event(event).commands,
    {
        proof {
            use_type_invariant(&self.geometry);
        }
        if !self.is_running() {
            return EventOutcome { routing: Routing::Stop, commands: Vec::new() };
        }
        match event {
            Event::CloseRequested | Event::Keyboard { key: Key::Escape, .. } => {
                let commands = if self.frame_pending {
                    self.present_commands()
                } else {
                    Vec::new()
                };
                *self =
                RenderLoop {
                    phase: Phase::Stopping,
                    frame_pending: false,
                    presenting: false,
                    ..*self
                };
                EventOutcome { routing: Routing::Stop, commands }
            },
            Event::Resized(resize) => {
                let mut geometry = self.geometry;
                geometry.resize(resize);
                *self = RenderLoop { geometry, ..*self };
                let mut commands: Vec<Command> = Vec::new();
                commands.push(Command::ResizeSurface { size: geometry.physical_size() });
                commands.push(
                    Command::SetWindowParameters {
                        document: self.document,
                        size: geometry.physical_size(),
                        rect: geometry.window_rect(),
                        scale: resize.scale,
                    },
                );
                assert(commands@ =~= old(self)@.on_event(event).commands);
                EventOutcome {
                    routing: Routing::Delegate { layout: geometry.logical_size() },
                    commands,
                }
            },
            Event::Keyboard { key: Key::R, pressed: true } => {
                let mut commands: Vec<Command> = Vec::new();
                commands.push(Command::ToggleDebugFlags);
                assert(commands@ =~= old(self)@.on_event(event).commands);
                EventOutcome {
                    routing: Routing::Delegate { layout: self.geometry.logical_size() },
                    commands,
                }
            },
            Event::Unrelated => EventOutcome { routing: Routing::Ignore, commands: Vec::new() },
            _ => EventOutcome {
                routing: Routing::Delegate { layout: self.geometry.logical_size() },
                commands: Vec::new(),
            },
        }
    }

    /// Acts on the application's answer to a delegated event: submits a rebuilt scene
    /// when a rebuild is called for, and does nothing otherwise.
    pub fn apply_decision(&mut self, decision: RebuildDecision) -> (commands: Vec<Command>)
        ensures
            final(self)@ == old(self)@.on_decision(decision).state,
            final(self)@.wf(),
            commands@ == old(self)@.on_decision(decision).commands,
    {
        proof {
            use_type_invariant(&self.geometry);
        }
        match decision {
            RebuildDecision::Rebuild => self.rebuild_and_submit(),
            RebuildDecision::NoOp => Vec::new(),
        }
    }

    /// Submits a rebuilt scene under the document, pipeline and epoch of the loop, laid
    /// out in the current logical size, and asks for a frame of it. A loop that is no
    /// longer running submits nothing.
    pub fn rebuild_and_submit(&mut self) -> (commands: Vec<Command>)
        ensures
            final(self)@ == old(self)@.on_decision(RebuildDecision::Rebuild).state,
            final(self)@.wf(),
            commands@ == old(self)@.on_decision(RebuildDecision::Rebuild).commands,
    {
        proof {
            use_type_invariant(&self.geometry);
        }
        if !self.is_running() {
            return Vec::new();
        }
        let layout = self.geometry.logical_size();
        let mut commands: Vec<Command> = Vec::new();
        commands.push(
            Command::SubmitScene(
                Submission {
                    document: self.document,
                    pipeline: self.pipeline,
                    epoch: self.epoch,
                    layout,
                    viewport: layout,
                },
            ),
        );
        commands.push(Command::GenerateFrame { document: self.document });
        assert(commands@ =~= old(self)@.submit_commands());
        *self = RenderLoop { frame_pending: true, ..*self };
        commands
    }

    /// Ends an iteration: a running loop asks for a frame to be rendered in the current
    /// physical size and presented.
    pub fn tick(&mut self) -> (commands: Vec<Command>)
        ensures
            final(self)@ == old(self)@.on_tick().state,
            final(self)@.wf(),
            commands@ == old(self)@.on_tick().commands,
    {
        proof {
            use_type_invariant(&self.geometry);
        }
        if !self.is_running() {
            return Vec::new();
        }
        let commands = self.present_commands();
        *self = RenderLoop { presenting: true, ..*self };
        commands
    }

    /// Brings an iteration to its end once the event has been handled: acts on the
    /// decision, then ticks. The commands of a submission stand before those of the
    /// present.
    pub fn complete_iteration(&mut self, decision: RebuildDecision) -> (commands: Vec<Command>)
        ensures
            final(self)@ == old(self)@.on_iteration_end(decision).state,
            final(self)@.wf(),
            commands@ == old(self)@.on_iteration_end(decision).commands,
    {
        let mut commands = self.apply_decision(decision);
        let mut frame = self.tick();
        commands.append(&mut frame);
        commands
    }

    /// Takes the outcome of the present that the last tick asked for. The first
    /// success makes the window visible.
    pub fn presented(&mut self, ok: bool) -> (commands: Vec<Command>)
        ensures
            final(self)@ == old(self)@.on_presented(ok).state,
            final(self)@.wf(),
            commands@ == old(self)@.on_presented(ok).commands,
    {
        proof {
            use_type_invariant(&self.geometry);
        }
        if !self.is_running() || !self.presenting {
            return Vec::new();
        }
        if !ok {
            *self = RenderLoop { presenting: false, ..*self };
            return Vec::new();
        }
        let mut commands: Vec<Command> = Vec::new();
        if !self.visible {
            commands.push(Command::ShowWindow);
            assert(commands@ =~= seq![Command::ShowWindow]);
        }
        *self = RenderLoop { presenting: false, frame_pending: false, visible: true, ..*self };
        commands
    }

    /// Takes note that the backend has failed. The loop stops; what is left to do is
    /// the shutdown.
    pub fn backend_failed(&mut self) -> (commands: Vec<Command>)
        ensures
            final(self)@ == old(self)@.on_failure().state,
            final(self)@.wf(),
            commands@ == old(self)@.on_failure().commands,
    {
        proof {
            use_type_invariant(&self.geometry);
        }
        match self.phase {
            Phase::Finished => {},
            _ => {
                *self =
                RenderLoop {
                    phase: Phase::Stopping,
                    failed: true,
                    frame_pending: false,
                    presenting: false,
                    ..*self
                };
            },
        }
        Vec::new()
    }

    /// Ends the loop: releases the backend's resources, unless that was done before.
    pub fn shutdown(&mut self) -> (commands: Vec<Command>)
        ensures
            final(self)@ == old(self)@.on_shutdown().state,
            final(self)@.wf(),
            commands@ == old(self)@.on_shutdown().commands,
    {
        proof {
            use_type_invariant(&self.geometry);
        }
        match self.phase {
            Phase::Finished => Vec::new(),
            _ => {
                *self =
                RenderLoop {
                    phase: Phase::Finished,
                    frame_pending: false,
                    presenting: false,
                    ..*self
                };
                let mut commands: Vec<Command> = Vec::new();
                commands.push(Command::Deinit);
                assert(commands@ =~= seq![Command::Deinit]);
                commands
            },
        }
    }

    /// The commands that render one frame and present it.
    fn present_commands(&self) -> (commands: Vec<Command>)
        ensures
            commands@ == self@.present_commands(),
    {
        let mut commands: Vec<Command> = Vec::new();
        commands.push(Command::UpdateBackend);
        commands.push(Command::Render { size: self.geometry.physical_size() });
        commands.push(Command::SwapBuffers);
        assert(commands@ =~= self@.present_commands());
        commands
    }

    /// Whether events are still handled and frames presented.
    pub fn is_running(&self) -> (b: bool)
        ensures
            b == (self@.phase == Phase::Running),
    {
        match self.phase {
            Phase::Running => true,
            _ => false,
        }
    }

    /// How far the loop has come.
    pub fn phase(&self) -> (p: Phase)
        ensures
            p == self@.phase,
    {
        self.phase
    }

    /// The geometry of the window as of the last resize.
    pub fn geometry(&self) -> (g: WindowGeometry)
        ensures
            g@ == self@.geometry,
            g@.wf(),
    {
        proof {
            use_type_invariant(&self.geometry);
        }
        self.geometry
    }

    /// The epoch under which scenes are submitted.
    pub fn epoch(&self) -> (e: Epoch)
        ensures
            e == self@.epoch,
    {
        self.epoch
    }

    /// The document that the scenes go to.
    pub fn document_id(&self) -> (d: DocumentId)
        ensures
            d == self@.document,
    {
        self.document
    }

    /// The pipeline that the scenes belong to.
    pub fn pipeline_id(&self) -> (p: PipelineId)
        ensures
            p == self@.pipeline,
    {
        self.pipeline
    }

    /// Whether the window has been made visible.
    pub fn is_visible(&self) -> (b: bool)
        ensures
            b == self@.visible,
    {
        self.visible
    }

    /// Whether the loop ends, or has ended, because the backend failed.
    pub fn has_failed(&self) -> (b: bool)
        ensures
            b == self@.failed,
    {
        self.failed
    }

    /// Whether a submitted scene still waits for its first successful present.
    pub fn frame_pending(&self) -> (b: bool)
        ensures
            b == self@.frame_pending,
    {
        self.frame_pending
    }
}

} // verus!
