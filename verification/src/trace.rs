//! Whole runs of the render loop: what holds of every sequence of inputs.

use vstd::prelude::*;
use crate::command::Command;
use crate::controller::{Input, LoopState, Phase, Reaction, RenderLoop};
use crate::event::Event;
use crate::geometry::{GeometryModel, Resize, Size};
use crate::ids::DocumentId;

verus! {

impl LoopState {
    /// The reaction to one input.
    pub open spec fn step(self, input: Input) -> Reaction {
        match input {
            Input::Event(event) => Reaction {
                state: self.on_event(event).state,
                commands: self.on_event(event).commands,
            },
            Input::Decision(decision) => self.on_decision(decision),
            Input::Tick => self.on_tick(),
            Input::Presented(ok) => self.on_presented(ok),
            Input::BackendFailed => self.on_failure(),
            Input::Shutdown => self.on_shutdown(),
        }
    }

    /// The state after a sequence of inputs, the earliest first, and all commands that
    /// were handed out on the way, in order.
    pub open spec fn run(self, inputs: Seq<Input>) -> Reaction
        decreases inputs.len(),
    {
        if inputs.len() == 0 {
            Reaction { state: self, commands: Seq::empty() }
        } else {
            let before = self.run(inputs.drop_last());
            let last = before.state.step(inputs.last());
            Reaction { state: last.state, commands: before.commands + last.commands }
        }
    }
}

/// Every command of a loop's life: those of the set-up, then those of the inputs.
pub open spec fn lifetime_commands(
    geometry: GeometryModel,
    document: DocumentId,
    inputs: Seq<Input>,
) -> Seq<Command> {
    LoopState::initial_commands(geometry, document) + LoopState::initial(geometry, document).run(
        inputs,
    ).commands
}

/// The inputs that deliver a run of resize notifications.
pub open spec fn resize_inputs(events: Seq<Resize>) -> Seq<Input> {
    Seq::new(events.len(), |i: int| Input::Event(Event::Resized(events[i])))
}

/// How often a sequence of commands makes the window visible.
pub open spec fn shows(commands: Seq<Command>) -> nat
    decreases commands.len(),
{
    if commands.len() == 0 {
        0
    } else {
        shows(commands.drop_last()) + if commands.last() == Command::ShowWindow {
            1nat
        } else {
            0nat
        }
    }
}

impl RenderLoop {
    /// Reacts to one input, whatever its kind. For an event this hands out the same
    /// commands as `handle_event` and leaves the routing aside.
    pub fn step(&mut self, input: Input) -> (commands: Vec<Command>)
        ensures
            final(self)@ == old(self)@.step(input).state,
            final(self)@.wf(),
            commands@ == old(self)@.step(input).commands,
    {
        match input {
            Input::Event(event) => self.handle_event(event).commands,
            Input::Decision(decision) => self.apply_decision(decision),
            Input::Tick => self.tick(),
            Input::Presented(ok) => self.presented(ok),
            Input::BackendFailed => self.backend_failed(),
            Input::Shutdown => self.shutdown(),
        }
    }
}

/// One input leaves the epoch, the document and the pipeline as they are, and a scene
/// that it submits goes out under them.
proof fn lemma_step_keeps_identity(s: LoopState, input: Input)
    ensures
        s.step(input).state.epoch == s.epoch,
        s.step(input).state.document == s.document,
        s.step(input).state.pipeline == s.pipeline,
        forall|k: int|
            0 <= k < s.step(input).commands.len() && (#[trigger] s.step(input).commands[k])
                is SubmitScene ==> s.step(input).commands[k] == Command::SubmitScene(
                s.submission(),
            ),
{
}

/// The document and pipeline identities and the epoch are the same after any run, and
/// every scene submitted on the way went out under them.
pub proof fn lemma_identity_is_stable(s: LoopState, inputs: Seq<Input>)
    ensures
        s.run(inputs).state.epoch == s.epoch,
        s.run(inputs).state.document == s.document,
        s.run(inputs).state.pipeline == s.pipeline,
        forall|k: int|
            0 <= k < s.run(inputs).commands.len() && (#[trigger] s.run(inputs).commands[k])
                is SubmitScene ==> {
                &&& s.run(inputs).commands[k]->SubmitScene_0.epoch == s.epoch
                &&& s.run(inputs).commands[k]->SubmitScene_0.document == s.document
                &&& s.run(inputs).commands[k]->SubmitScene_0.pipeline == s.pipeline
            },
    decreases inputs.len(),
{
    if inputs.len() > 0 {
        let before = s.run(inputs.drop_last());
        lemma_identity_is_stable(s, inputs.drop_last());
        lemma_step_keeps_identity(before.state, inputs.last());
        let last = before.state.step(inputs.last());
        assert forall|k: int|
            0 <= k < s.run(inputs).commands.len() && (#[trigger] s.run(inputs).commands[k])
                is SubmitScene implies {
            &&& s.run(inputs).commands[k]->SubmitScene_0.epoch == s.epoch
            &&& s.run(inputs).commands[k]->SubmitScene_0.document == s.document
            &&& s.run(inputs).commands[k]->SubmitScene_0.pipeline == s.pipeline
        } by {
            if k < before.commands.len() {
                assert(s.run(inputs).commands[k] == before.commands[k]);
            } else {
                assert(s.run(inputs).commands[k] == last.commands[k - before.commands.len()]);
            }
        }
    }
}

/// The epochs under which scenes are submitted never decrease, from the first scene of
/// the set-up through every later one.
pub proof fn lemma_epochs_never_decrease(
    geometry: GeometryModel,
    document: DocumentId,
    inputs: Seq<Input>,
)
    ensures
        forall|i: int, j: int|
            #![trigger lifetime_commands(geometry, document, inputs)[i], lifetime_commands(geometry, document, inputs)[j]]
            0 <= i <= j < lifetime_commands(geometry, document, inputs).len()
                && lifetime_commands(geometry, document, inputs)[i] is SubmitScene
                && lifetime_commands(geometry, document, inputs)[j] is SubmitScene
                ==> lifetime_commands(geometry, document, inputs)[i]->SubmitScene_0.epoch.0
                <= lifetime_commands(geometry, document, inputs)[j]->SubmitScene_0.epoch.0,
{
    let first = LoopState::initial_commands(geometry, document);
    let s = LoopState::initial(geometry, document);
    let t = lifetime_commands(geometry, document, inputs);
    lemma_identity_is_stable(s, inputs);
    assert forall|k: int| 0 <= k < t.len() && (#[trigger] t[k]) is SubmitScene implies t[k]->SubmitScene_0.epoch
        == s.epoch by {
        if k < first.len() {
            assert(t[k] == first[k]);
        } else {
            assert(t[k] == s.run(inputs).commands[k - first.len()]);
        }
    }
}

/// From any state on, the epochs under which scenes are submitted never decrease, and
/// neither does the epoch that the loop holds.
pub proof fn lemma_run_epochs_never_decrease(s: LoopState, inputs: Seq<Input>)
    ensures
        s.epoch.0 <= s.run(inputs).state.epoch.0,
        forall|i: int, j: int|
            #![trigger s.run(inputs).commands[i], s.run(inputs).commands[j]]
            0 <= i <= j < s.run(inputs).commands.len() && s.run(inputs).commands[i]
                is SubmitScene && s.run(inputs).commands[j] is SubmitScene ==> s.run(
                inputs,
            ).commands[i]->SubmitScene_0.epoch.0 <= s.run(
                inputs,
            ).commands[j]->SubmitScene_0.epoch.0,
{
    lemma_identity_is_stable(s, inputs);
}

/// A running loop that sees nothing but resize notifications ends with the geometry
/// that the notifications lead to, and with nothing else changed.
pub proof fn lemma_run_of_resizes(s: LoopState, events: Seq<Resize>)
    requires
        s.phase == Phase::Running,
    ensures
        s.run(resize_inputs(events)).state == (LoopState {
            geometry: s.geometry.after_resizes(events),
            ..s
        }),
    decreases events.len(),
{
    let inputs = resize_inputs(events);
    if events.len() > 0 {
        lemma_run_of_resizes(s, events.drop_last());
        assert(inputs.drop_last() =~= resize_inputs(events.drop_last()));
        assert(inputs.last() == Input::Event(Event::Resized(events.last())));
    }
}

/// After any non-empty run of resize notifications, a running loop holds the size of
/// the last one as its logical size, and as its physical size that size times the
/// scale factor that was in effect at that notification.
pub proof fn lemma_resizes_set_physical_size(s: LoopState, events: Seq<Resize>)
    requires
        s.phase == Phase::Running,
        events.len() > 0,
    ensures
        s.run(resize_inputs(events)).state.geometry.logical == (Size {
            width: events.last().width,
            height: events.last().height,
        }),
        s.run(resize_inputs(events)).state.geometry.physical.width == events.last().scale@.scaled(
            events.last().width as nat,
        ),
        s.run(resize_inputs(events)).state.geometry.physical.height
            == events.last().scale@.scaled(events.last().height as nat),
        s.run(resize_inputs(events)).state.geometry.scale == events.last().scale@,
{
    lemma_run_of_resizes(s, events);
    crate::geometry::lemma_resizes_track_last_event(s.geometry, events);
}

/// The number of times that two runs of commands show the window adds up.
proof fn lemma_shows_adds(a: Seq<Command>, b: Seq<Command>)
    ensures
        shows(a + b) == shows(a) + shows(b),
    decreases b.len(),
{
    if b.len() == 0 {
        assert(a + b =~= a);
    } else {
        lemma_shows_adds(a, b.drop_last());
        assert((a + b).drop_last() =~= a + b.drop_last());
        assert((a + b).last() == b.last());
    }
}

/// Commands among which none shows the window show it zero times.
proof fn lemma_shows_nothing(commands: Seq<Command>)
    requires
        forall|k: int| 0 <= k < commands.len() ==> commands[k] != Command::ShowWindow,
    ensures
        shows(commands) == 0,
    decreases commands.len(),
{
    if commands.len() > 0 {
        lemma_shows_nothing(commands.drop_last());
    }
}

/// What one input can do to the visibility of the window.
proof fn lemma_step_visibility(s: LoopState, input: Input)
    ensures
        s.visible ==> s.step(input).state.visible,
        shows(s.step(input).commands) == (if !s.visible && s.step(input).state.visible {
            1nat
        } else {
            0nat
        }),
        !s.visible && s.step(input).state.visible ==> {
            &&& input == Input::Presented(true)
            &&& s.presenting
            &&& s.step(input).commands == seq![Command::ShowWindow]
        },
        forall|k: int|
            0 <= k < s.step(input).commands.len() && (#[trigger] s.step(input).commands[k])
                == Command::ShowWindow ==> !s.visible && s.step(input).state.visible,
        s.step(input).state.presenting ==> s.presenting || s.step(input).commands.contains(
            Command::SwapBuffers,
        ),
{
    let r = s.step(input);
    let c = r.commands;
    if !s.visible && r.state.visible {
        assert(c == seq![Command::ShowWindow]);
        assert(c.len() == 1 && c.last() == Command::ShowWindow);
        assert(c.drop_last().len() == 0);
        assert(shows(c.drop_last()) == 0);
    } else {
        lemma_shows_nothing(c);
    }
    if r.state.presenting && !s.presenting {
        assert(c == s.present_commands());
        assert(c[2] == Command::SwapBuffers);
    }
}

/// The window is made visible at most once in the life of a loop: once if the
/// visibility flag is set at the end, never if it is not, and the flag, once set,
/// stays set. Whenever it is made visible, a present was asked for before and was
/// reported to have succeeded.
pub proof fn lemma_window_shown_once_after_present(
    geometry: GeometryModel,
    document: DocumentId,
    inputs: Seq<Input>,
)
    ensures
        shows(LoopState::initial(geometry, document).run(inputs).commands) == (if LoopState::initial(
            geometry,
            document,
        ).run(inputs).state.visible {
            1nat
        } else {
            0nat
        }),
        shows(lifetime_commands(geometry, document, inputs)) <= 1,
        forall|k: int|
            0 <= k < LoopState::initial(geometry, document).run(inputs).commands.len() && (
            #[trigger] LoopState::initial(geometry, document).run(inputs).commands[k])
                == Command::ShowWindow ==> exists|j: int|
                0 <= j < k && (#[trigger] LoopState::initial(geometry, document).run(
                    inputs,
                ).commands[j]) == Command::SwapBuffers,
        LoopState::initial(geometry, document).run(inputs).state.visible ==> inputs.contains(
            Input::Presented(true),
        ),
{
    let s = LoopState::initial(geometry, document);
    lemma_visibility_invariant(s, inputs);
    let first = LoopState::initial_commands(geometry, document);
    lemma_shows_adds(first, s.run(inputs).commands);
    lemma_shows_nothing(first);
}

/// What holds of the visibility of the window along every run that starts with the
/// window hidden and no present under way.
proof fn lemma_visibility_invariant(s: LoopState, inputs: Seq<Input>)
    requires
        !s.visible,
        !s.presenting,
    ensures
        shows(s.run(inputs).commands) == (if s.run(inputs).state.visible {
            1nat
        } else {
            0nat
        }),
        forall|k: int|
            0 <= k < s.run(inputs).commands.len() && (#[trigger] s.run(inputs).commands[k])
                == Command::ShowWindow ==> exists|j: int|
                0 <= j < k && (#[trigger] s.run(inputs).commands[j]) == Command::SwapBuffers,
        s.run(inputs).state.presenting ==> s.run(inputs).commands.contains(Command::SwapBuffers),
        s.run(inputs).state.visible ==> inputs.contains(Input::Presented(true)),
    decreases inputs.len(),
{
    if inputs.len() > 0 {
        let before = s.run(inputs.drop_last());
        let last = before.state.step(inputs.last());
        let t = s.run(inputs).commands;
        lemma_visibility_invariant(s, inputs.drop_last());
        lemma_step_visibility(before.state, inputs.last());
        lemma_shows_adds(before.commands, last.commands);
        assert forall|k: int| 0 <= k < t.len() && (#[trigger] t[k]) == Command::ShowWindow implies exists|
            j: int,
        |
            0 <= j < k && (#[trigger] t[j]) == Command::SwapBuffers by {
            if k < before.commands.len() {
                assert(t[k] == before.commands[k]);
                let j = choose|j: int|
                    0 <= j < k && (#[trigger] before.commands[j]) == Command::SwapBuffers;
                assert(t[j] == before.commands[j]);
            } else {
                assert(t[k] == last.commands[k - before.commands.len()]);
                assert(before.state.presenting);
                let j = choose|j: int|
                    0 <= j < before.commands.len() && before.commands[j] == Command::SwapBuffers;
                assert(t[j] == before.commands[j]);
            }
        }
        if last.state.presenting {
            if before.state.presenting {
                let j = choose|j: int|
                    0 <= j < before.commands.len() && before.commands[j] == Command::SwapBuffers;
                assert(t[j] == Command::SwapBuffers);
            } else {
                let j = choose|j: int|
                    0 <= j < last.commands.len() && last.commands[j] == Command::SwapBuffers;
                assert(t[before.commands.len() + j] == Command::SwapBuffers);
            }
        }
        if last.state.visible {
            if before.state.visible {
                let i = choose|i: int|
                    0 <= i < inputs.drop_last().len() && inputs.drop_last()[i] == Input::Presented(
                        true,
                    );
                assert(inputs[i] == Input::Presented(true));
            } else {
                assert(inputs[inputs.len() - 1] == Input::Presented(true));
            }
        }
    }
}

/// What one input can do about the release of the backend's resources.
proof fn lemma_step_shutdown(s: LoopState, input: Input)
    ensures
        s.phase == Phase::Finished ==> s.step(input).commands.len() == 0 && s.step(input).state
            == s,
        forall|k: int|
            0 <= k < s.step(input).commands.len() && (#[trigger] s.step(input).commands[k])
                == Command::Deinit ==> {
                &&& s.step(input).commands.len() == 1
                &&& s.step(input).state.phase == Phase::Finished
            },
{
}

/// Releasing the backend's resources is the last thing that a loop asks for: whatever
/// the inputs, no command follows it, and so it is asked for at most once.
pub proof fn lemma_nothing_follows_shutdown(s: LoopState, inputs: Seq<Input>)
    ensures
        forall|k: int|
            0 <= k < s.run(inputs).commands.len() && (#[trigger] s.run(inputs).commands[k])
                == Command::Deinit ==> {
                &&& k == s.run(inputs).commands.len() - 1
                &&& s.run(inputs).state.phase == Phase::Finished
            },
    decreases inputs.len(),
{
    if inputs.len() > 0 {
        let before = s.run(inputs.drop_last());
        let last = before.state.step(inputs.last());
        let t = s.run(inputs).commands;
        lemma_nothing_follows_shutdown(s, inputs.drop_last());
        lemma_step_shutdown(before.state, inputs.last());
        assert forall|k: int| 0 <= k < t.len() && (#[trigger] t[k]) == Command::Deinit implies {
            &&& k == t.len() - 1
            &&& s.run(inputs).state.phase == Phase::Finished
        } by {
            if k < before.commands.len() {
                assert(t[k] == before.commands[k]);
            } else {
                assert(t[k] == last.commands[k - before.commands.len()]);
            }
        }
    }
}

/// A loop that has stopped, for a terminal event or a failure, never runs again, never
/// forgets a failure, and asks for nothing more than the release of the backend.
pub proof fn lemma_stopped_loop_only_releases(s: LoopState, inputs: Seq<Input>)
    requires
        s.phase != Phase::Running,
    ensures
        s.run(inputs).state.phase != Phase::Running,
        s.failed ==> s.run(inputs).state.failed,
        forall|k: int|
            0 <= k < s.run(inputs).commands.len() ==> (#[trigger] s.run(inputs).commands[k])
                == Command::Deinit,
    decreases inputs.len(),
{
    if inputs.len() > 0 {
        let before = s.run(inputs.drop_last());
        let last = before.state.step(inputs.last());
        let t = s.run(inputs).commands;
        lemma_stopped_loop_only_releases(s, inputs.drop_last());
        assert forall|k: int| 0 <= k < t.len() implies (#[trigger] t[k]) == Command::Deinit by {
            if k < before.commands.len() {
                assert(t[k] == before.commands[k]);
            } else {
                assert(t[k] == last.commands[k - before.commands.len()]);
            }
        }
    }
}

/// A failure of the backend stops a loop that is not finished, with no command, and
/// is kept in mind from then on.
pub proof fn lemma_failure_stops_the_loop(s: LoopState)
    requires
        s.phase != Phase::Finished,
    ensures
        s.on_failure().state.phase == Phase::Stopping,
        s.on_failure().state.failed,
        s.on_failure().commands.len() == 0,
        s.on_failure().state.on_shutdown().commands == seq![Command::Deinit],
{
}

/// A loop that was shut down has released the backend's resources exactly when it had
/// not done so before, and is finished afterwards whatever it was doing.
pub proof fn lemma_shutdown_always_finishes(s: LoopState)
    ensures
        s.on_shutdown().state.phase == Phase::Finished,
        s.phase != Phase::Finished ==> s.on_shutdown().commands == seq![Command::Deinit],
        s.phase == Phase::Finished ==> s.on_shutdown().commands == Seq::<Command>::empty(),
{
}

} // verus!
