//! The bridge by which the rendering backend wakes the thread that runs the loop.
//!
//! The backend works on threads of its own and has one way back: a wake signal to the
//! events loop, sent through a proxy that all handles of the bridge share. The bridge
//! carries no data and keeps no state that a caller could see change.
//!
//! A handle answers which proxy is to be signalled; the signal itself is sent by the
//! program that owns the threads. The window system's call can fail in two ways, by
//! reporting that the loop is gone and by not coming back at all, and only where it is
//! made can the second be kept from bringing a thread of the backend down. What
//! became of the signal is read here again.

use std::sync::Arc;
use vstd::prelude::*;
use crate::ids::DocumentId;

verus! {

/// `glutin::EventsLoopProxy`, the handle by which any thread can wake an events loop.
/// Nothing is known of what is inside.
#[verifier::external_type_specification]
#[verifier::external_body]
pub struct ExEventsLoopProxy(glutin::EventsLoopProxy);

/// `glutin::EventsLoopClosed`, the error of a wake-up whose events loop is gone.
#[verifier::external_type_specification]
#[verifier::external_body]
pub struct ExEventsLoopClosed(glutin::EventsLoopClosed);

/// `Arc::clone` on a shared proxy: the result points to the same proxy as the
/// argument, which stays as it is.
#[verifier::external_body]
fn share(proxy: &Arc<glutin::EventsLoopProxy>) -> (r: Arc<glutin::EventsLoopProxy>)
    ensures
        r == *proxy,
{
    Arc::clone(proxy)
}

/// What became of a wake signal.
#[derive(Clone, Copy, Debug, PartialEq, Eq, Structural)]
pub enum WakeOutcome {
    /// The events loop took the signal.
    Delivered,
    /// The events loop is gone; the signal went nowhere.
    LoopClosed,
    /// The window system's call did not come back: the signal could not be sent.
    SendFailed,
}

/// How loudly an outcome is to be recorded.
#[derive(Clone, Copy, Debug, PartialEq, Eq, Structural)]
pub enum Severity {
    /// Nothing to record.
    Quiet,
    /// Worth a note: the signal came too late, as happens while shutting down.
    Notice,
    /// Worth a warning: the signal was lost while the loop was still expected to run.
    Warning,
}

impl WakeOutcome {
    /// The outcome that an answer of the proxy stands for.
    pub open spec fn of_result(result: Result<(), glutin::EventsLoopClosed>) -> WakeOutcome {
        if result is Ok {
            WakeOutcome::Delivered
        } else {
            WakeOutcome::LoopClosed
        }
    }

    /// The outcome of an attempt to signal: the proxy's answer where it gave one,
    /// nothing where its call did not come back.
    pub open spec fn of_attempt(
        attempt: Option<Result<(), glutin::EventsLoopClosed>>,
    ) -> WakeOutcome {
        match attempt {
            Some(result) => WakeOutcome::of_result(result),
            None => WakeOutcome::SendFailed,
        }
    }

    /// How an outcome is recorded. A signal that was not delivered is never fatal:
    /// once the shutdown has begun it is expected, before that it deserves a warning.
    pub open spec fn severity_of(self, shutting_down: bool) -> Severity {
        if self == WakeOutcome::Delivered {
            Severity::Quiet
        } else if shutting_down {
            Severity::Notice
        } else {
            Severity::Warning
        }
    }

    /// Reads an answer of the proxy.
    pub fn from_result(result: Result<(), glutin::EventsLoopClosed>) -> (outcome: WakeOutcome)
        ensures
            outcome == WakeOutcome::of_result(result),
    {
        match result {
            Ok(_) => WakeOutcome::Delivered,
            Err(_) => WakeOutcome::LoopClosed,
        }
    }

    /// Reads what came of an attempt to signal.
    pub fn from_attempt(attempt: Option<Result<(), glutin::EventsLoopClosed>>) -> (outcome:
        WakeOutcome)
        ensures
            outcome == WakeOutcome::of_attempt(attempt),
    {
        match attempt {
            Some(result) => WakeOutcome::from_result(result),
            None => WakeOutcome::SendFailed,
        }
    }

    /// How the outcome is to be recorded.
    pub fn severity(self, shutting_down: bool) -> (s: Severity)
        ensures
            s == self.severity_of(shutting_down),
    {
        match self {
            WakeOutcome::Delivered => Severity::Quiet,
            _ => if shutting_down {
                Severity::Notice
            } else {
                Severity::Warning
            },
        }
    }
}

/// A handle of the bridge. All handles that stem from one `new` wake the same loop.
pub struct Notifier {
    loop_proxy: Arc<glutin::EventsLoopProxy>,
}

impl Notifier {
    /// The proxy that this handle signals through.
    pub closed spec fn target(&self) -> glutin::EventsLoopProxy {
        *self.loop_proxy
    }

    /// A bridge to the events loop that the proxy belongs to.
    pub fn new(loop_proxy: glutin::EventsLoopProxy) -> (n: Notifier)
        ensures
            n.target() == loop_proxy,
    {
        Notifier { loop_proxy: Arc::new(loop_proxy) }
    }

    /// What a wake asks for: one signal through the proxy of this handle, which is
    /// handed out for the caller to send it.
    pub fn wake_up(&self) -> (proxy: &glutin::EventsLoopProxy)
        ensures
            *proxy == self.target(),
    {
        &*self.loop_proxy
    }

    /// What the news of a frame asks for: the same as a wake, one signal through the
    /// proxy of this handle. The document and the two hints make no difference.
    pub fn new_document_ready(
        &self,
        _id: DocumentId,
        _scrolled: bool,
        _composite_needed: bool,
    ) -> (proxy: &glutin::EventsLoopProxy)
        ensures
            *proxy == self.target(),
    {
        self.wake_up()
    }
}

impl Clone for Notifier {
    /// Another handle to the same events loop.
    fn clone(&self) -> (n: Notifier)
        ensures
            n.target() == self.target(),
    {
        Notifier { loop_proxy: share(&self.loop_proxy) }
    }
}

} // verus!
