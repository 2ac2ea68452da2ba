//! The narrow contract between an output and the render client, and what an
//! output's own thread decides between frames.

use crate::egl_util::attributes::ContextError;
use crate::egl_util::call::PresentError;
use crate::egl_util::context::{default_requirements, Negotiation, WrappedContext, WrappedDisplay};
use vstd::prelude::*;

verus! {

/// What every concrete output, a CRTC surface or a desktop window, offers to the
/// render client's lifecycle. Implemented by the embedding program.
pub trait FlutterOutputBackend {
    /// Presents the frame that was drawn.
    fn swap_buffers(&self) -> Result<(), PresentError>;

    /// Makes the output's context current on the calling thread.
    fn make_current(&self) -> Result<(), PresentError>;

    /// Width and height of the framebuffer, in pixels.
    fn get_framebuffer_dimensions(&self) -> (u32, u32);
}

/// How an engine is to be started on an output. `C` is whatever the embedding
/// program wants to run once the engine exists.
pub struct FlutterEngineOptions<C> {
    pub assets_path: String,
    pub arguments: Vec<String>,
    pub callback: Option<C>,
}

impl<C> FlutterEngineOptions<C> {
    /// Options without a callback.
    pub fn new(assets_path: String, arguments: Vec<String>) -> (options: Self)
        ensures
            options.assets_path == assets_path,
            options.arguments == arguments,
            options.callback is None,
    {
        FlutterEngineOptions { assets_path, arguments, callback: None }
    }

    /// Sets the callback, replacing an earlier one.
    pub fn set_callback(&mut self, callback: C)
        ensures
            final(self).callback == Some(callback),
            final(self).assets_path == old(self).assets_path,
            final(self).arguments == old(self).arguments,
    {
        self.callback = Some(callback);
    }
}

/// The externally visible unit: an engine that renders into one output, and
/// the size of that output's framebuffer when the engine was started. `E` is
/// the embedding program's handle on the engine.
pub struct FlutterOutput<E> {
    engine: E,
    width: u32,
    height: u32,
}

impl<E> FlutterOutput<E> {
    /// The engine of this output.
    pub closed spec fn spec_engine(&self) -> E {
        self.engine
    }

    /// The framebuffer's width and height.
    pub closed spec fn dimensions(&self) -> (u32, u32) {
        (self.width, self.height)
    }

    /// Pairs an engine with the framebuffer dimensions that its backend
    /// reported.
    pub fn new(engine: E, dimensions: (u32, u32)) -> (output: Self)
        ensures
            output.spec_engine() == engine,
            output.dimensions() == dimensions,
    {
        FlutterOutput { engine, width: dimensions.0, height: dimensions.1 }
    }

    /// The engine of this output.
    pub fn engine(&self) -> (engine: &E)
        ensures
            *engine == self.spec_engine(),
    {
        &self.engine
    }

    /// The framebuffer's width, in pixels.
    pub fn width(&self) -> (width: u32)
        ensures
            width == self.dimensions().0,
    {
        self.width
    }

    /// The framebuffer's height, in pixels.
    pub fn height(&self) -> (height: u32)
        ensures
            height == self.dimensions().1,
    {
        self.height
    }
}

/// What the constructing thread hears from the thread of a new output.
#[derive(Clone, Copy, Debug, PartialEq, Eq)]
pub enum StartupSignal {
    /// The context, the surface and the engine exist.
    Ready,
    /// The output could not be brought up.
    Failed,
}

/// What an output's thread does about a failure of its own.
#[derive(Clone, Copy, Debug, PartialEq, Eq)]
pub enum FailureAction {
    /// Send [`StartupSignal::Failed`]: the constructing thread still waits, and
    /// construction fails there.
    Report,
    /// Let the failure end this thread, and this thread alone.
    Propagate,
}

/// The startup handshake, as the thread of a new output sees it: the thread
/// brings the output up, sends one signal, and runs the render loop.
#[derive(Clone, Copy, Debug, PartialEq, Eq)]
pub struct StartupHandshake {
    pub sent: bool,
}

impl StartupHandshake {
    /// The handshake of a thread that was just spawned.
    pub fn new() -> (handshake: Self)
        ensures
            !handshake.sent,
    {
        StartupHandshake { sent: false }
    }

    /// The output is up: the signal to send. Only the first call yields one.
    pub fn ready(&mut self) -> (signal: Option<StartupSignal>)
        ensures
            final(self).sent,
            signal == if old(self).sent {
                None
            } else {
                Some(StartupSignal::Ready)
            },
    {
        if self.sent {
            None
        } else {
            self.sent = true;
            Some(StartupSignal::Ready)
        }
    }

    /// What to do about a failure on this thread: before the signal was sent
    /// the failure is reported to the constructing thread; after it, nobody
    /// waits, and the failure is this thread's own.
    pub fn on_failure(&self) -> (action: FailureAction)
        ensures
            action == if self.sent {
                FailureAction::Propagate
            } else {
                FailureAction::Report
            },
    {
        if self.sent {
            FailureAction::Propagate
        } else {
            FailureAction::Report
        }
    }
}

/// Whether the construction of an output succeeded, as the constructing thread
/// learns it: it returns only once the signal has come.
pub fn startup_succeeded(signal: StartupSignal) -> (ok: bool)
    ensures
        ok == (signal is Ready),
{
    match signal {
        StartupSignal::Ready => true,
        StartupSignal::Failed => false,
    }
}

/// How long a render loop parks at most when no timed work is pending, in
/// nanoseconds: a safety net.
pub const IDLE_TIMEOUT: u64 = 100_000_000;

/// How long the render loop parks before it looks for work again, in
/// nanoseconds; `None` where timed work is due and the loop must not park.
/// A wake signal ends the parking early.
pub open spec fn park_duration(next_task: Option<u64>, now: u64) -> Option<u64> {
    match next_task {
        None => Some(IDLE_TIMEOUT),
        Some(due) => if due <= now {
            None
        } else {
            Some((due - now) as u64)
        },
    }
}

/// Decides how long to park. `next_task` is the time at which the next timed
/// work is due, if any is pending; it and `now` are nanoseconds on one clock.
pub fn park_timeout(next_task: Option<u64>, now: u64) -> (timeout: Option<u64>)
    ensures
        timeout == park_duration(next_task, now),
        timeout is Some && next_task is Some ==> now + timeout->Some_0 == next_task->Some_0,
{
    match next_task {
        None => Some(IDLE_TIMEOUT),
        Some(due) => {
            if due <= now {
                None
            } else {
                Some(due - now)
            }
        },
    }
}

/// The framebuffer dimensions of an output on a CRTC: the size of the mode that
/// is pending on it, or one pixel by one where no mode is.
pub fn framebuffer_dimensions(pending_mode: Option<(u16, u16)>) -> (dimensions: (u32, u32))
    ensures
        dimensions == (match pending_mode {
            Some((width, height)) => (width as u32, height as u32),
            None => (1u32, 1u32),
        }),
{
    match pending_mode {
        Some((width, height)) => (width as u32, height as u32),
        None => (1, 1),
    }
}

/// Why an output could not be brought up.
#[derive(Clone, Copy, Debug, PartialEq, Eq)]
pub enum StartupError {
    /// The backend could not make its context current.
    InvalidBackendContext { error: PresentError },
    /// The resource context could not be set up.
    Context { error: ContextError },
}

/// The first step of bringing an output up, on the output's own thread: with
/// the backend's context made current, the display is captured and the
/// negotiation of the resource context begins.
///
/// `acquired` is what the backend answered when asked to make its context
/// current; `current_context` and `current_display` are what the driver
/// reported as current after that.
pub fn create_output(
    acquired: Result<(), PresentError>,
    current_context: usize,
    current_display: usize,
) -> (r: Result<(WrappedDisplay, Negotiation), StartupError>)
    ensures
        match acquired {
            Err(error) => r == Err::<(WrappedDisplay, Negotiation), StartupError>(
                StartupError::InvalidBackendContext { error },
            ),
            Ok(_) => if current_display == 0 {
                r == Err::<(WrappedDisplay, Negotiation), StartupError>(
                    StartupError::Context { error: ContextError::NoCurrentDisplay },
                )
            } else {
                r == Ok::<(WrappedDisplay, Negotiation), StartupError>(
                    (
                        WrappedDisplay { display: current_display },
                        Negotiation::initial(
                            (3u8, 0u8),
                            current_context,
                            current_display,
                            default_requirements(),
                        ),
                    ),
                )
            },
        },
{
    if let Err(error) = acquired {
        return Err(StartupError::InvalidBackendContext { error });
    }
    let display = match WrappedDisplay::get_current(current_display) {
        Ok(display) => display,
        Err(error) => {
            return Err(StartupError::Context { error });
        },
    };
    match WrappedContext::create_context(current_context, current_display) {
        Ok(negotiation) => Ok((display, negotiation)),
        Err(error) => Err(StartupError::Context { error }),
    }
}

} // verus!
