//! The window that shows the image: how it is set up, and what the
//! presentation loop does next.

use vstd::prelude::*;
use vstd::string::StringExecFns;
use crate::error::{exit_code_of, Error};
use crate::pack::PackedBuffer;

verus! {

/// The time between two frames, in milliseconds. It only keeps the loop from
/// running hot: the image never changes.
pub const FRAME_INTERVAL_MS: u64 = 16;

/// How the image is fitted into the window's surface.
#[derive(Clone, Copy, Debug, PartialEq, Eq, Structural)]
pub enum ScaleMode {
    /// Stretched to the whole surface.
    Stretch,
    /// Stretched as far as its aspect ratio allows.
    AspectRatioStretch,
    /// Centred, at its own size.
    Center,
    /// In the upper left corner, at its own size.
    UpperLeft,
}

/// The options a window is opened with.
#[derive(Clone, Copy, Debug, PartialEq, Eq, Structural)]
pub struct WindowConfig {
    /// Whether the window has no border.
    pub borderless: bool,
    /// Whether the window has a title bar.
    pub title_bar: bool,
    /// Whether the user may resize the window.
    pub resize: bool,
    /// How many screen pixels one image pixel takes in each direction.
    pub scale: u32,
    /// How the image is fitted into the surface.
    pub scale_mode: ScaleMode,
    /// Whether the window stays above all others.
    pub topmost: bool,
    /// Whether the window is transparent.
    pub transparency: bool,
}

/// The options of the window that shows a QR code: no border, no title bar,
/// no resizing, one screen pixel per image pixel, on top of everything else,
/// opaque.
pub open spec fn presentation_config_spec() -> WindowConfig {
    WindowConfig {
        borderless: true,
        title_bar: false,
        resize: false,
        scale: 1,
        scale_mode: ScaleMode::AspectRatioStretch,
        topmost: true,
        transparency: false,
    }
}

/// The options of the window that shows a QR code.
pub fn presentation_config() -> (config: WindowConfig)
    ensures
        config == presentation_config_spec(),
{
    WindowConfig {
        borderless: true,
        title_bar: false,
        resize: false,
        scale: 1,
        scale_mode: ScaleMode::AspectRatioStretch,
        topmost: true,
        transparency: false,
    }
}

/// The title of the window for a text.
pub open spec fn title_of(text: Seq<char>) -> Seq<char> {
    "QR - "@ + text
}

/// The title of the window: the encoded text behind a short prefix.
pub fn window_title(text: &str) -> (title: String)
    ensures
        title@ == title_of(text@),
{
    let prefix = "QR - ".to_owned();
    prefix.concat(text)
}

/// Everything needed to open the window for an image.
#[derive(Clone, Debug)]
pub struct WindowPlan {
    /// The window's title.
    pub title: String,
    /// The width of the surface in pixels: that of the image.
    pub width: usize,
    /// The height of the surface in pixels: that of the image.
    pub height: usize,
    /// The options the window is opened with.
    pub config: WindowConfig,
    /// The time between two frames, in milliseconds.
    pub frame_interval_ms: u64,
}

/// Plans the window for a packed image of the given text: exactly as large as
/// the image, with the options of `presentation_config`.
pub fn plan_window(text: &str, buffer: &PackedBuffer) -> (plan: WindowPlan)
    ensures
        plan.title@ == title_of(text@),
        plan.width == buffer.width,
        plan.height == buffer.height,
        plan.config == presentation_config_spec(),
        plan.frame_interval_ms == FRAME_INTERVAL_MS,
{
    WindowPlan {
        title: window_title(text),
        width: buffer.width as usize,
        height: buffer.height as usize,
        config: presentation_config(),
        frame_interval_ms: FRAME_INTERVAL_MS,
    }
}

/// Where the window is in its life.
#[derive(Clone, Copy, Debug, PartialEq, Eq, Structural)]
pub enum WindowState {
    /// The window has not been opened yet.
    Created,
    /// The window is open and frames are being shown.
    Open,
    /// The window is gone, and the run is over.
    Closed,
}

/// What the user and the windowing system did, as seen at the start of a frame.
#[derive(Clone, Copy, Debug, PartialEq, Eq, Structural)]
pub struct FrameInput {
    /// Whether the window is still open.
    pub window_open: bool,
    /// Whether the Escape key is down.
    pub escape_down: bool,
    /// Whether the `Q` key is down.
    pub q_down: bool,
}

impl FrameInput {
    /// Whether the user asked to leave: one of the exit keys is down.
    pub open spec fn exit_requested(self) -> bool {
        self.escape_down || self.q_down
    }

    /// Whether the loop ends with this frame: the window was closed from
    /// outside, or the user asked to leave.
    pub open spec fn ends_loop(self) -> bool {
        !self.window_open || self.exit_requested()
    }
}

/// What happened outside since the last step.
#[derive(Clone, Copy, Debug, PartialEq, Eq, Structural)]
pub enum WindowEvent {
    /// The window was opened.
    Opened,
    /// The window could not be opened.
    OpenFailed,
    /// The input was polled at the start of a frame.
    Polled(FrameInput),
    /// The image was presented.
    Presented,
    /// The surface refused the image.
    PresentFailed,
}

/// What is to be done outside next.
#[derive(Clone, Copy, Debug, PartialEq, Eq, Structural)]
pub enum WindowAction {
    /// Open the window.
    OpenWindow,
    /// Poll the input.
    Poll,
    /// Present the image.
    Present,
    /// End the run normally.
    Finish,
    /// End the run with this error.
    Abort(Error),
}

impl WindowAction {
    /// Whether the action ends the run.
    pub open spec fn ends_run(self) -> bool {
        self is Finish || self is Abort
    }

    /// The outcome of the run that the action ends.
    pub open spec fn outcome(self) -> Result<(), Error>
        recommends
            self.ends_run(),
    {
        match self {
            WindowAction::Abort(error) => Err(error),
            _ => Ok(()),
        }
    }
}

/// The state and the action that follow an event.
///
/// A window that failed to open, or a surface that refused the image, ends
/// the run with an error. A frame on which the window was closed, or an exit
/// key was down, ends it normally; on any other frame the image is presented,
/// and after that the input is polled again. Once closed, the window stays
/// closed. An event that belongs to a window that is not there yet changes
/// nothing, and the window is still to be opened.
pub open spec fn step_spec(state: WindowState, event: WindowEvent) -> (WindowState, WindowAction) {
    match state {
        WindowState::Created => match event {
            WindowEvent::Opened => (WindowState::Open, WindowAction::Poll),
            WindowEvent::OpenFailed => (
                WindowState::Closed,
                WindowAction::Abort(Error::WindowCreationFailure),
            ),
            _ => (WindowState::Created, WindowAction::OpenWindow),
        },
        WindowState::Open => match event {
            WindowEvent::Opened => (WindowState::Open, WindowAction::Poll),
            WindowEvent::OpenFailed => (
                WindowState::Closed,
                WindowAction::Abort(Error::WindowCreationFailure),
            ),
            WindowEvent::Polled(input) => if input.ends_loop() {
                (WindowState::Closed, WindowAction::Finish)
            } else {
                (WindowState::Open, WindowAction::Present)
            },
            WindowEvent::Presented => (WindowState::Open, WindowAction::Poll),
            WindowEvent::PresentFailed => (
                WindowState::Closed,
                WindowAction::Abort(Error::PresentationFailure),
            ),
        },
        WindowState::Closed => (WindowState::Closed, WindowAction::Finish),
    }
}

/// The state and the action a run starts with.
pub fn start() -> (first: (WindowState, WindowAction))
    ensures
        first == (WindowState::Created, WindowAction::OpenWindow),
{
    (WindowState::Created, WindowAction::OpenWindow)
}

/// The outcome of the run, once an action ends it.
pub fn outcome_of(action: WindowAction) -> (outcome: Option<Result<(), Error>>)
    ensures
        action.ends_run() ==> outcome == Some(action.outcome()),
        !action.ends_run() ==> outcome is None,
{
    match action {
        WindowAction::Finish => Some(Ok(())),
        WindowAction::Abort(error) => Some(Err(error)),
        _ => None,
    }
}

/// Decides what the presentation loop does next, given what happened outside.
pub fn step(state: WindowState, event: WindowEvent) -> (next: (WindowState, WindowAction))
    ensures
        next == step_spec(state, event),
{
    match state {
        WindowState::Created => match event {
            WindowEvent::Opened => (WindowState::Open, WindowAction::Poll),
            WindowEvent::OpenFailed => (
                WindowState::Closed,
                WindowAction::Abort(Error::WindowCreationFailure),
            ),
            _ => (WindowState::Created, WindowAction::OpenWindow),
        },
        WindowState::Open => match event {
            WindowEvent::Opened => (WindowState::Open, WindowAction::Poll),
            WindowEvent::OpenFailed => (
                WindowState::Closed,
                WindowAction::Abort(Error::WindowCreationFailure),
            ),
            WindowEvent::Polled(input) => {
                if !input.window_open || input.escape_down || input.q_down {
                    (WindowState::Closed, WindowAction::Finish)
                } else {
                    (WindowState::Open, WindowAction::Present)
                }
            },
            WindowEvent::Presented => (WindowState::Open, WindowAction::Poll),
            WindowEvent::PresentFailed => (
                WindowState::Closed,
                WindowAction::Abort(Error::PresentationFailure),
            ),
        },
        WindowState::Closed => (WindowState::Closed, WindowAction::Finish),
    }
}

/// An exit key that is down when an open window polls its input closes the
/// window in that very step, and the run ends normally, with exit code zero.
pub proof fn lemma_exit_key_closes(input: FrameInput)
    requires
        input.exit_requested(),
    ensures
        step_spec(WindowState::Open, WindowEvent::Polled(input)) == (
            WindowState::Closed,
            WindowAction::Finish,
        ),
        exit_code_of(WindowAction::Finish.outcome()) == 0,
{
}

/// A closed window stays closed whatever happens, and asks for nothing but
/// the end of the run.
pub proof fn lemma_closed_stays_closed(event: WindowEvent)
    ensures
        step_spec(WindowState::Closed, event).0 == WindowState::Closed,
        step_spec(WindowState::Closed, event).1 == WindowAction::Finish,
{
}

/// The image is presented only in an open window, and the window is left
/// open by it; the run ends exactly when the window becomes closed.
pub proof fn lemma_step_shape(state: WindowState, event: WindowEvent)
    ensures
        step_spec(state, event).1 == WindowAction::Present ==> (state == WindowState::Open
            && step_spec(state, event).0 == WindowState::Open),
        step_spec(state, event).1.ends_run() <==> step_spec(state, event).0 == WindowState::Closed,
        step_spec(state, event).1 matches WindowAction::Abort(e) ==> (e
            == Error::WindowCreationFailure || e == Error::PresentationFailure),
{
}

} // verus!
