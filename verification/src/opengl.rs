//! The OpenGL window's game loop: what each event of the window does to the
//! run status, and when the renderer reports what it does.

use vstd::prelude::*;
use crate::status::GameStatus;

verus! {

/// The switches for the renderer's reports.
#[derive(Clone, Copy, Debug, PartialEq, Eq, Structural)]
pub struct DebugFlags {
    /// Reports are on everywhere.
    pub debug: bool,
    /// Reports of the OpenGL renderer are on.
    pub opengl_debug: bool,
    /// The background reports its first draw only.
    pub once: bool,
    /// The background has drawn at least once.
    pub drawn: bool,
}

impl DebugFlags {
    /// Whether the window and the entities report.
    pub open spec fn enabled(self) -> bool {
        self.debug || self.opengl_debug
    }

    /// Whether the background reports: like the others, but where `once`
    /// is set, only until its first draw.
    pub open spec fn background_enabled(self) -> bool {
        self.enabled() && !(self.once && self.drawn)
    }

    /// Records that the background has drawn.
    pub fn mark_drawn(&mut self)
        ensures
            *final(self) == (DebugFlags { drawn: old(self).drawn || old(self).once, ..*old(self) }),
            old(self).once ==> !final(self).background_enabled(),
    {
        if self.once {
            self.drawn = true;
        }
    }
}

/// Whether the window and the entities report what they do.
pub fn is_debugging_enabled(flags: &DebugFlags) -> (out: bool)
    ensures
        out == flags.enabled(),
{
    if flags.debug || flags.opengl_debug {
        return true;
    } else {
        return false;
    }
}

/// What the window reports to the game loop.
#[derive(Clone, Copy, Debug, PartialEq, Eq, Structural)]
pub enum LoopEvent {
    /// The user asked to close the window.
    CloseRequested,
    /// Any other event of the window, keyboard input to it included.
    WindowInput,
    /// The escape key went down.
    EscapePressed,
    /// The F11 key went down.
    FullscreenPressed,
    /// Another event of an input device.
    DeviceInput,
    /// Nothing the loop handles by itself: time to draw.
    Idle,
}

/// How the event loop waits for its next event.
#[derive(Clone, Copy, Debug, PartialEq, Eq, Structural)]
pub enum Flow {
    /// As before the event.
    Keep,
    /// Return at once, whether or not an event is there.
    Poll,
    /// Sleep until an event arrives.
    Wait,
    /// Leave the loop.
    Exit,
}

/// What the loop does after an event.
#[derive(Clone, Copy, Debug, PartialEq, Eq, Structural)]
pub struct Step {
    /// The run status from now on.
    pub status: GameStatus,
    /// Whether the window is borderless fullscreen from now on.
    pub fullscreen: bool,
    /// How to wait for the next event.
    pub flow: Flow,
    /// Whether the event goes on to the player and the other entities.
    pub forward_input: bool,
    /// Whether a frame is drawn now.
    pub redraw: bool,
    /// Whether the window's fullscreen mode has to be set anew.
    pub apply_fullscreen: bool,
    /// The exit code to log the new status with, where it is logged.
    pub log_code: Option<i8>,
}

/// The step the loop takes on `event` in the given status.
///
/// Closing stops the game and leaves the loop. Escape pauses a running game
/// and resumes any other. F11 toggles fullscreen. Window input reaches the
/// entities only while the game runs. When idle, a running game draws a
/// frame and polls; any other sleeps.
pub open spec fn step_spec(status: GameStatus, fullscreen: bool, event: LoopEvent) -> Step {
    let keep = Step {
        status,
        fullscreen,
        flow: Flow::Keep,
        forward_input: false,
        redraw: false,
        apply_fullscreen: false,
        log_code: None,
    };
    match event {
        LoopEvent::CloseRequested => Step {
            status: GameStatus::Stopped,
            flow: Flow::Exit,
            log_code: Some(0i8),
            ..keep
        },
        LoopEvent::WindowInput => Step { forward_input: status == GameStatus::Running, ..keep },
        LoopEvent::EscapePressed => if status == GameStatus::Running {
            Step { status: GameStatus::Paused, log_code: Some(21i8), ..keep }
        } else {
            Step { status: GameStatus::Running, log_code: Some(22i8), ..keep }
        },
        LoopEvent::FullscreenPressed => Step {
            fullscreen: !fullscreen,
            apply_fullscreen: true,
            ..keep
        },
        LoopEvent::DeviceInput => keep,
        LoopEvent::Idle => if status == GameStatus::Running {
            Step { flow: Flow::Poll, redraw: true, ..keep }
        } else {
            Step { flow: Flow::Wait, ..keep }
        },
    }
}

/// Decides what the loop does on `event`.
pub fn step(status: GameStatus, fullscreen: bool, event: LoopEvent) -> (out: Step)
    ensures
        out == step_spec(status, fullscreen, event),
{
    let mut out = Step {
        status,
        fullscreen,
        flow: Flow::Keep,
        forward_input: false,
        redraw: false,
        apply_fullscreen: false,
        log_code: None,
    };
    match event {
        LoopEvent::CloseRequested => {
            out.status = GameStatus::Stopped;
            out.flow = Flow::Exit;
            out.log_code = Some(0);
        },
        LoopEvent::WindowInput => {
            out.forward_input = status == GameStatus::Running;
        },
        LoopEvent::EscapePressed => {
            if status == GameStatus::Running {
                out.status = GameStatus::Paused;
                out.log_code = Some(21);
            } else {
                out.status = GameStatus::Running;
                out.log_code = Some(22);
            }
        },
        LoopEvent::FullscreenPressed => {
            out.fullscreen = !fullscreen;
            out.apply_fullscreen = true;
        },
        LoopEvent::DeviceInput => {},
        LoopEvent::Idle => {
            if status == GameStatus::Running {
                out.flow = Flow::Poll;
                out.redraw = true;
            } else {
                out.flow = Flow::Wait;
            }
        },
    }
    out
}

/// Once stopped by a close request, the loop is told to exit, whatever the
/// status was; and no event but a close request or escape changes the
/// status.
pub proof fn lemma_status_changes(status: GameStatus, fullscreen: bool, event: LoopEvent)
    ensures
        event == LoopEvent::CloseRequested ==> step_spec(status, fullscreen, event).flow
            == Flow::Exit && step_spec(status, fullscreen, event).status == GameStatus::Stopped,
        event != LoopEvent::CloseRequested && event != LoopEvent::EscapePressed ==> step_spec(
            status,
            fullscreen,
            event,
        ).status == status,
        step_spec(status, fullscreen, event).redraw ==> status == GameStatus::Running,
{
}

} // verus!
