//! The vocabulary between the state machines of this module and whoever
//! performs the driver calls for them.

use vstd::prelude::*;

verus! {

/// Why a frame could not be presented, or a surface not be made current.
#[derive(Clone, Copy, Debug, PartialEq, Eq)]
pub enum PresentError {
    /// The context was lost. The caller may reacquire a context and retry.
    ContextLost,
    /// The buffers had been swapped already.
    AlreadySwapped,
    /// Any other driver error, with its code. There is no retry for it.
    Unknown { code: u32 },
}

impl PresentError {
    /// Only the loss of the context can be recovered from.
    pub open spec fn recoverable(self) -> bool {
        self is ContextLost
    }

    /// Whether the caller may retry after reacquiring a context.
    pub fn is_recoverable(&self) -> (r: bool)
        ensures
            r == self.recoverable(),
    {
        match self {
            PresentError::ContextLost => true,
            _ => false,
        }
    }
}

/// A call for the driver, or for the native window behind a surface. Handles
/// are addresses; zero is the null handle.
#[derive(Clone, Copy, Debug, PartialEq, Eq)]
pub enum EglCall {
    /// `eglInitialize` on the display. Answered by [`EglReply::Version`].
    Initialize { display: usize },
    /// `eglQueryString` for the extension list. Answered by
    /// [`EglReply::Extensions`].
    QueryExtensions { display: usize },
    /// `eglBindAPI`. Answered by [`EglReply::Status`].
    BindApi { api: u32 },
    /// `eglChooseConfig` with the negotiation's configuration attributes, asking
    /// for at most `config_size` configurations. Answered by
    /// [`EglReply::Config`].
    ChooseConfig { display: usize, config_size: i32 },
    /// `eglGetConfigAttrib`. Answered by [`EglReply::Attribute`].
    GetConfigAttrib { display: usize, config: usize, attribute: i32 },
    /// `eglCreateContext` with the negotiation's context attributes. Answered by
    /// [`EglReply::Handle`].
    CreateContext { display: usize, config: usize, share_context: usize },
    /// `eglGetError`. Answered by [`EglReply::Error`].
    GetError,
    /// `eglMakeCurrent`. Answered by [`EglReply::Status`].
    MakeCurrent { display: usize, draw: usize, read: usize, context: usize },
    /// `eglSwapBuffers`. Answered by [`EglReply::Status`].
    SwapBuffers { display: usize, surface: usize },
    /// The native window's own part of a buffer swap. Answered by
    /// [`EglReply::NativeSwap`].
    SwapNative,
    /// Whether the native window asks for its surface to be recreated. Answered
    /// by [`EglReply::Flag`].
    NeedsRecreation,
    /// Recreation of the native window's own resources. Answered by
    /// [`EglReply::Status`].
    RecreateNative,
    /// `eglCreateWindowSurface` on the native window, with the surface's
    /// attributes. Answered by [`EglReply::Handle`].
    CreateWindowSurface { display: usize, config: usize },
    /// `eglDestroySurface`. Answered by [`EglReply::Status`].
    DestroySurface { display: usize, surface: usize },
}

/// The outcome of a call.
#[derive(Debug, PartialEq, Eq)]
pub enum EglReply {
    /// The boolean result of a call that returns nothing else.
    Status { ok: bool },
    /// The result of `eglInitialize`, and the EGL version it reported.
    Version { ok: bool, major: i32, minor: i32 },
    /// The bytes of the extension list; empty where the driver's string is not
    /// text.
    Extensions { list: Vec<u8> },
    /// The result of `eglChooseConfig`: the configuration written and the
    /// number of configurations matched.
    Config { ok: bool, config: usize, count: i32 },
    /// The result of `eglGetConfigAttrib` and the value written.
    Attribute { ok: bool, value: i32 },
    /// A handle that was created; zero where creation failed.
    Handle { handle: usize },
    /// The value of `eglGetError`.
    Error { code: u32 },
    /// The result of the native window's swap.
    NativeSwap { result: Result<(), PresentError> },
    /// An answer of the native window.
    Flag { raised: bool },
}

/// A condition that no caller can recover from: it shows a programming error or
/// a surface that is lost for good.
#[derive(Clone, Copy, Debug, PartialEq, Eq)]
pub enum Fault {
    /// The surface could not be recreated twice in a row.
    RecreationFailed,
    /// `eglMakeCurrent` failed for a reason other than the loss of the context,
    /// such as a stale handle.
    MakeCurrentFailed { code: u32 },
    /// A reply did not answer the call that was pending.
    UnexpectedReply,
}

/// What an operation on a context or a surface needs next, or how it ended.
#[derive(Clone, Copy, Debug, PartialEq, Eq)]
pub enum Step {
    /// Perform the call and hand its outcome to the operation.
    Call(EglCall),
    /// The operation ended, with this result for the caller.
    Done(Result<(), PresentError>),
    /// The operation ended in a fault.
    Fatal(Fault),
}

/// Where the binding of a context to a thread stands.
#[derive(Clone, Copy, Debug, PartialEq, Eq)]
pub enum AcquisitionPhase {
    /// `eglMakeCurrent` is to be called.
    MakeCurrent,
    /// The call failed; `eglGetError` is to say why.
    Error,
    /// The binding ended.
    Ended { step: Step },
}

/// The binding of a context, with or without a surface, to the calling thread.
#[derive(Clone, Copy, Debug, PartialEq, Eq)]
pub struct Acquisition {
    pub display: usize,
    pub draw: usize,
    pub read: usize,
    pub context: usize,
    pub phase: AcquisitionPhase,
}

/// How a binding that failed ends: the loss of the context is reported to the
/// caller, who may recover from it; every other error is a fault.
pub open spec fn acquisition_failure(code: u32) -> Step {
    if code == super::ffi::CONTEXT_LOST {
        Step::Done(Err(PresentError::ContextLost))
    } else {
        Step::Fatal(Fault::MakeCurrentFailed { code })
    }
}

impl Acquisition {
    /// A binding that has made no call yet.
    pub open spec fn initial(display: usize, draw: usize, read: usize, context: usize)
        -> Acquisition {
        Acquisition { display, draw, read, context, phase: AcquisitionPhase::MakeCurrent }
    }

    /// What this binding needs next, or how it ended.
    pub open spec fn pending(self) -> Step {
        match self.phase {
            AcquisitionPhase::MakeCurrent => Step::Call(
                EglCall::MakeCurrent {
                    display: self.display,
                    draw: self.draw,
                    read: self.read,
                    context: self.context,
                },
            ),
            AcquisitionPhase::Error => Step::Call(EglCall::GetError),
            AcquisitionPhase::Ended { step } => step,
        }
    }

    /// This binding, ended by `step`.
    pub open spec fn ended(self, step: Step) -> Acquisition {
        Acquisition { phase: AcquisitionPhase::Ended { step }, ..self }
    }

    /// This binding after the pending call was answered by `reply`. A binding
    /// that has ended stays as it is.
    pub open spec fn after(self, reply: EglReply) -> Acquisition {
        match (self.phase, reply) {
            (AcquisitionPhase::MakeCurrent, EglReply::Status { ok }) => if ok {
                self.ended(Step::Done(Ok(())))
            } else {
                Acquisition { phase: AcquisitionPhase::Error, ..self }
            },
            (AcquisitionPhase::Error, EglReply::Error { code }) => self.ended(
                acquisition_failure(code),
            ),
            (AcquisitionPhase::Ended { step }, _) => self,
            _ => self.ended(Step::Fatal(Fault::UnexpectedReply)),
        }
    }

    /// Begins the binding of `context` on `display`, with `draw` and `read` as
    /// the surfaces to draw into and to read from.
    pub fn new(display: usize, draw: usize, read: usize, context: usize) -> (acquisition: Self)
        ensures
            acquisition == Acquisition::initial(display, draw, read, context),
    {
        Acquisition { display, draw, read, context, phase: AcquisitionPhase::MakeCurrent }
    }

    /// What to do next: a call to perform, or the end of the binding.
    pub fn step(&self) -> (step: Step)
        ensures
            step == self.pending(),
    {
        match self.phase {
            AcquisitionPhase::MakeCurrent => Step::Call(
                EglCall::MakeCurrent {
                    display: self.display,
                    draw: self.draw,
                    read: self.read,
                    context: self.context,
                },
            ),
            AcquisitionPhase::Error => Step::Call(EglCall::GetError),
            AcquisitionPhase::Ended { step } => step,
        }
    }

    /// Takes the outcome of the pending call and moves on.
    pub fn resume(&mut self, reply: &EglReply) -> (step: Step)
        ensures
            *final(self) == old(self).after(*reply),
            step == final(self).pending(),
    {
        match (self.phase, reply) {
            (AcquisitionPhase::MakeCurrent, EglReply::Status { ok }) => {
                if *ok {
                    self.phase = AcquisitionPhase::Ended { step: Step::Done(Ok(())) };
                } else {
                    self.phase = AcquisitionPhase::Error;
                }
            },
            (AcquisitionPhase::Error, EglReply::Error { code }) => {
                let step = if *code == super::ffi::CONTEXT_LOST {
                    Step::Done(Err(PresentError::ContextLost))
                } else {
                    Step::Fatal(Fault::MakeCurrentFailed { code: *code })
                };
                self.phase = AcquisitionPhase::Ended { step };
            },
            (AcquisitionPhase::Ended { step }, _) => {},
            _ => {
                self.phase = AcquisitionPhase::Ended { step: Step::Fatal(Fault::UnexpectedReply) };
            },
        }
        self.step()
    }
}

/// A binding makes one call if it succeeds and two if it fails, and then it has
/// ended: with success, with the loss of the context for the caller to recover
/// from, or with a fault.
pub proof fn lemma_acquisition_ends(a: Acquisition, ok: bool, code: u32)
    requires
        a.phase is MakeCurrent,
    ensures
        a.pending() == Step::Call(
            EglCall::MakeCurrent {
                display: a.display,
                draw: a.draw,
                read: a.read,
                context: a.context,
            },
        ),
        a.after(EglReply::Status { ok: true }).pending() == Step::Done(Ok(())),
        a.after(EglReply::Status { ok: false }).pending() == Step::Call(EglCall::GetError),
        a.after(EglReply::Status { ok: false }).after(EglReply::Error { code }).pending()
            == acquisition_failure(code),
        acquisition_failure(super::ffi::CONTEXT_LOST) == Step::Done(
            Err(PresentError::ContextLost),
        ),
{
}

} // verus!
