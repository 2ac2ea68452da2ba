//! A presentable surface: creation, presentation with recreation in place,
//! binding to a thread, and release.

use super::attributes::{surface_attributes, surface_request, ContextError};
use super::call::{Acquisition, EglCall, EglReply, Fault, PresentError, Step};
use super::context::WrappedContext;
use super::ffi;
use vstd::prelude::*;

verus! {

/// Which call a surface waits for, if any.
#[derive(Clone, Copy, Debug, PartialEq, Eq)]
pub enum SurfacePhase {
    /// No operation is under way.
    Idle,
    /// `eglSwapBuffers` is to be answered.
    Swap,
    /// The swap failed; `eglGetError` is to say why.
    SwapError,
    /// The native window's own swap is to be answered.
    NativeSwap,
    /// The native window is to say whether it asks for recreation.
    RecreationQuery,
    /// The old native handle is being destroyed.
    Destroy,
    /// The native window recreates its resources.
    Recreate,
    /// `eglCreateWindowSurface` is to hand out the new native handle.
    Create,
}

/// A drawable bound to one native window, one context and one configuration.
///
/// The surface owns its native handle: the handle is released by
/// [`WrappedSurface::destroy`], which consumes the surface. While the handle is
/// zero the surface has no native resource, and the next presentation creates
/// one.
#[derive(Debug, PartialEq, Eq)]
pub struct WrappedSurface {
    pub context: usize,
    pub display: usize,
    pub surface: usize,
    pub config_id: usize,
    pub double_buffer: Option<bool>,
    pub phase: SurfacePhase,
    /// Whether the presentation under way began without a native handle.
    pub recovering: bool,
}

/// The error that `eglGetError` reported for a failed swap.
pub open spec fn swap_error(code: u32) -> PresentError {
    if code == ffi::CONTEXT_LOST {
        PresentError::ContextLost
    } else {
        PresentError::Unknown { code }
    }
}

impl WrappedSurface {
    /// The surface that `eglCreateWindowSurface` created for `context`.
    pub open spec fn created(context: WrappedContext, surface: usize) -> WrappedSurface {
        WrappedSurface {
            context: context.context,
            display: context.display,
            surface,
            config_id: context.config_id,
            double_buffer: context.double_buffer,
            phase: SurfacePhase::Idle,
            recovering: false,
        }
    }

    /// This surface at rest, with `step` as the end of its operation.
    pub open spec fn ended(self, step: Step) -> (WrappedSurface, Step) {
        (WrappedSurface { phase: SurfacePhase::Idle, ..self }, step)
    }

    /// This surface waiting in `phase` for the answer to `call`.
    pub open spec fn waiting(self, phase: SurfacePhase, call: EglCall) -> (
        WrappedSurface,
        Step,
    ) {
        (WrappedSurface { phase, ..self }, Step::Call(call))
    }

    /// The beginning of a presentation: the buffers are swapped if there is a
    /// native handle; without one the surface goes on to recreate it.
    pub open spec fn presenting(self) -> (WrappedSurface, Step) {
        if self.surface != 0 {
            (WrappedSurface { recovering: false, ..self }).waiting(
                SurfacePhase::Swap,
                EglCall::SwapBuffers { display: self.display, surface: self.surface },
            )
        } else {
            (WrappedSurface { recovering: true, ..self }).waiting(
                SurfacePhase::RecreationQuery,
                EglCall::NeedsRecreation,
            )
        }
    }

    /// The beginning of a recreation: the old native handle is destroyed first,
    /// if there is one.
    pub open spec fn recreating(self) -> (WrappedSurface, Step) {
        if self.surface != 0 {
            self.waiting(
                SurfacePhase::Destroy,
                EglCall::DestroySurface { display: self.display, surface: self.surface },
            )
        } else {
            self.waiting(SurfacePhase::Recreate, EglCall::RecreateNative)
        }
    }

    /// This surface, and what it needs next, after the pending call was
    /// answered by `reply`.
    pub open spec fn after(self, reply: EglReply) -> (WrappedSurface, Step) {
        match (self.phase, reply) {
            (SurfacePhase::Swap, EglReply::Status { ok }) => if ok {
                self.waiting(SurfacePhase::NativeSwap, EglCall::SwapNative)
            } else {
                self.waiting(SurfacePhase::SwapError, EglCall::GetError)
            },
            (SurfacePhase::SwapError, EglReply::Error { code }) => self.ended(
                Step::Done(Err(swap_error(code))),
            ),
            (SurfacePhase::NativeSwap, EglReply::NativeSwap { result }) => match result {
                Ok(_) => self.waiting(SurfacePhase::RecreationQuery, EglCall::NeedsRecreation),
                Err(error) => self.ended(Step::Done(Err(error))),
            },
            (SurfacePhase::RecreationQuery, EglReply::Flag { raised }) => if raised || self.surface
                == 0 {
                self.recreating()
            } else {
                self.ended(Step::Done(Ok(())))
            },
            (SurfacePhase::Destroy, EglReply::Status { ok }) => (WrappedSurface {
                surface: 0,
                ..self
            }).waiting(SurfacePhase::Recreate, EglCall::RecreateNative),
            (SurfacePhase::Recreate, EglReply::Status { ok }) => self.waiting(
                SurfacePhase::Create,
                EglCall::CreateWindowSurface { display: self.display, config: self.config_id },
            ),
            (SurfacePhase::Create, EglReply::Handle { handle }) => (WrappedSurface {
                surface: handle,
                ..self
            }).ended(
                if handle == 0 && self.recovering {
                    Step::Fatal(Fault::RecreationFailed)
                } else {
                    Step::Done(Ok(()))
                },
            ),
            _ => self.ended(Step::Fatal(Fault::UnexpectedReply)),
        }
    }

    /// Wraps the handle that `eglCreateWindowSurface` returned for a native
    /// window. A null handle means that the native window was not valid.
    pub fn create(
        context: usize,
        display: usize,
        config_id: usize,
        double_buffer: Option<bool>,
        surface: usize,
    ) -> (r: Result<WrappedSurface, ContextError>)
        ensures
            surface == 0 ==> r == Err::<WrappedSurface, ContextError>(
                ContextError::SurfaceCreationFailed,
            ),
            surface != 0 ==> r == Ok::<WrappedSurface, ContextError>(
                WrappedSurface {
                    context,
                    display,
                    surface,
                    config_id,
                    double_buffer,
                    phase: SurfacePhase::Idle,
                    recovering: false,
                },
            ),
    {
        if surface == 0 {
            return Err(ContextError::SurfaceCreationFailed);
        }
        Ok(
            WrappedSurface {
                context,
                display,
                surface,
                config_id,
                double_buffer,
                phase: SurfacePhase::Idle,
                recovering: false,
            },
        )
    }

    fn wait(&mut self, phase: SurfacePhase, call: EglCall) -> (step: Step)
        ensures
            (*final(self), step) == old(self).waiting(phase, call),
    {
        self.phase = phase;
        Step::Call(call)
    }

    fn end(&mut self, step: Step) -> (r: Step)
        ensures
            (*final(self), r) == old(self).ended(step),
    {
        self.phase = SurfacePhase::Idle;
        step
    }

    fn recreate(&mut self) -> (step: Step)
        ensures
            (*final(self), step) == old(self).recreating(),
    {
        if self.surface != 0 {
            let call = EglCall::DestroySurface { display: self.display, surface: self.surface };
            self.wait(SurfacePhase::Destroy, call)
        } else {
            self.wait(SurfacePhase::Recreate, EglCall::RecreateNative)
        }
    }

    /// Begins the presentation of a frame, abandoning whatever operation was
    /// under way.
    pub fn swap_buffers(&mut self) -> (step: Step)
        ensures
            (*final(self), step) == old(self).presenting(),
    {
        if self.surface != 0 {
            self.recovering = false;
            let call = EglCall::SwapBuffers { display: self.display, surface: self.surface };
            self.wait(SurfacePhase::Swap, call)
        } else {
            self.recovering = true;
            self.wait(SurfacePhase::RecreationQuery, EglCall::NeedsRecreation)
        }
    }

    /// Begins binding this surface and its context to the calling thread.
    pub fn make_current(&self) -> (acquisition: Acquisition)
        ensures
            acquisition == Acquisition::initial(
                self.display,
                self.surface,
                self.surface,
                self.context,
            ),
    {
        Acquisition::new(self.display, self.surface, self.surface, self.context)
    }

    /// Takes the outcome of the pending call and says what comes next.
    pub fn resume(&mut self, reply: &EglReply) -> (step: Step)
        ensures
            (*final(self), step) == old(self).after(*reply),
    {
        match (self.phase, reply) {
            (SurfacePhase::Swap, EglReply::Status { ok }) => {
                if *ok {
                    self.wait(SurfacePhase::NativeSwap, EglCall::SwapNative)
                } else {
                    self.wait(SurfacePhase::SwapError, EglCall::GetError)
                }
            },
            (SurfacePhase::SwapError, EglReply::Error { code }) => {
                let error = if *code == ffi::CONTEXT_LOST {
                    PresentError::ContextLost
                } else {
                    PresentError::Unknown { code: *code }
                };
                self.end(Step::Done(Err(error)))
            },
            (SurfacePhase::NativeSwap, EglReply::NativeSwap { result }) => {
                match result {
                    Ok(_) => self.wait(SurfacePhase::RecreationQuery, EglCall::NeedsRecreation),
                    Err(error) => self.end(Step::Done(Err(*error))),
                }
            },
            (SurfacePhase::RecreationQuery, EglReply::Flag { raised }) => {
                if *raised || self.surface == 0 {
                    self.recreate()
                } else {
                    self.end(Step::Done(Ok(())))
                }
            },
            (SurfacePhase::Destroy, EglReply::Status { ok }) => {
                self.surface = 0;
                self.wait(SurfacePhase::Recreate, EglCall::RecreateNative)
            },
            (SurfacePhase::Recreate, EglReply::Status { ok }) => {
                let call = EglCall::CreateWindowSurface {
                    display: self.display,
                    config: self.config_id,
                };
                self.wait(SurfacePhase::Create, call)
            },
            (SurfacePhase::Create, EglReply::Handle { handle }) => {
                self.surface = *handle;
                if *handle == 0 && self.recovering {
                    self.end(Step::Fatal(Fault::RecreationFailed))
                } else {
                    self.end(Step::Done(Ok(())))
                }
            },
            _ => self.end(Step::Fatal(Fault::UnexpectedReply)),
        }
    }

    /// Whether this surface is the one that `eglGetCurrentSurface` reported
    /// both for drawing and for reading.
    pub fn is_current(&self, current_draw: usize, current_read: usize) -> (r: bool)
        ensures
            r == (current_draw == self.surface && current_read == self.surface),
    {
        current_draw == self.surface && current_read == self.surface
    }

    /// The attribute list that this surface was, and is again, created with.
    pub fn surface_attributes(&self) -> (list: Vec<i32>)
        ensures
            list@ == surface_request(self.double_buffer),
    {
        surface_attributes(self.double_buffer)
    }

    /// Ends the life of this surface and names the call that releases its
    /// native resource. The surface is gone afterwards, so the release happens
    /// once, on whichever path the surface is torn down.
    pub fn destroy(self) -> (call: EglCall)
        ensures
            call == (EglCall::DestroySurface { display: self.display, surface: self.surface }),
    {
        EglCall::DestroySurface { display: self.display, surface: self.surface }
    }
}

impl WrappedContext {
    /// The call that creates a surface for a native window on this context's
    /// display, with the configuration this context was negotiated for.
    pub fn surface_call(&self) -> (call: EglCall)
        ensures
            call == (EglCall::CreateWindowSurface {
                display: self.display,
                config: self.config_id,
            }),
    {
        EglCall::CreateWindowSurface { display: self.display, config: self.config_id }
    }

    /// Wraps the handle that [`WrappedContext::surface_call`] produced. The
    /// surface is bound to this context and to its configuration.
    pub fn create_surface(&self, surface: usize) -> (r: Result<WrappedSurface, ContextError>)
        ensures
            surface == 0 ==> r == Err::<WrappedSurface, ContextError>(
                ContextError::SurfaceCreationFailed,
            ),
            surface != 0 ==> r == Ok::<WrappedSurface, ContextError>(
                WrappedSurface::created(*self, surface),
            ),
    {
        WrappedSurface::create(
            self.context,
            self.display,
            self.config_id,
            self.double_buffer,
            surface,
        )
    }
}

/// No operation changes what a surface is bound to: its context, its display,
/// its configuration and its buffering stay as they were at creation.
pub proof fn lemma_binding_is_kept(s: WrappedSurface, reply: EglReply)
    ensures
        same_binding(s.after(reply).0, s),
        same_binding(s.presenting().0, s),
{
}

/// Two surfaces are bound to the same context, display and configuration.
pub open spec fn same_binding(a: WrappedSurface, b: WrappedSurface) -> bool {
    &&& a.context == b.context
    &&& a.display == b.display
    &&& a.config_id == b.config_id
    &&& a.double_buffer == b.double_buffer
}

/// Presentation on a surface whose native window asks for recreation: the
/// buffers are swapped, the old handle is destroyed, the native window recreates
/// its resources, and one surface is created, in this order and with no other
/// call. The presentation succeeds, and the surface holds the new handle under
/// the configuration and the context it had.
pub proof fn lemma_present_recreates_once(s: WrappedSurface, handle: usize)
    requires
        s.surface != 0,
        handle != 0,
    ensures
        ({
            let (s1, c1) = s.presenting();
            let (s2, c2) = s1.after(EglReply::Status { ok: true });
            let (s3, c3) = s2.after(EglReply::NativeSwap { result: Ok(()) });
            let (s4, c4) = s3.after(EglReply::Flag { raised: true });
            let (s5, c5) = s4.after(EglReply::Status { ok: true });
            let (s6, c6) = s5.after(EglReply::Status { ok: true });
            let (s7, c7) = s6.after(EglReply::Handle { handle });
            &&& c1 == Step::Call(
                EglCall::SwapBuffers { display: s.display, surface: s.surface },
            )
            &&& c2 == Step::Call(EglCall::SwapNative)
            &&& c3 == Step::Call(EglCall::NeedsRecreation)
            &&& c4 == Step::Call(
                EglCall::DestroySurface { display: s.display, surface: s.surface },
            )
            &&& c5 == Step::Call(EglCall::RecreateNative)
            &&& c6 == Step::Call(
                EglCall::CreateWindowSurface { display: s.display, config: s.config_id },
            )
            &&& c7 == Step::Done(Ok(()))
            &&& s7.surface == handle
            &&& s7.phase is Idle
            &&& same_binding(s7, s)
        }),
{
}

/// Presentation on a surface that lost its native handle to an earlier failure:
/// nothing is swapped, and whatever the native window answers, a surface is
/// created. If that succeeds, so does the presentation, and the next
/// presentation swaps the buffers of the new handle.
pub proof fn lemma_present_recovers(s: WrappedSurface, raised: bool, handle: usize)
    requires
        s.surface == 0,
        handle != 0,
    ensures
        ({
            let (s1, c1) = s.presenting();
            let (s2, c2) = s1.after(EglReply::Flag { raised });
            let (s3, c3) = s2.after(EglReply::Status { ok: true });
            let (s4, c4) = s3.after(EglReply::Handle { handle });
            let (s5, c5) = s4.presenting();
            &&& c1 == Step::Call(EglCall::NeedsRecreation)
            &&& c2 == Step::Call(EglCall::RecreateNative)
            &&& c3 == Step::Call(
                EglCall::CreateWindowSurface { display: s.display, config: s.config_id },
            )
            &&& c4 == Step::Done(Ok(()))
            &&& s4.surface == handle
            &&& same_binding(s4, s)
            &&& c5 == Step::Call(
                EglCall::SwapBuffers { display: s.display, surface: handle },
            )
        }),
{
}

/// A recreation that fails leaves the surface without a native handle. The
/// first such failure is not reported: the frame had been presented. A failure
/// of the recreation that the next presentation attempts is a fault.
pub proof fn lemma_second_recreation_failure_is_fatal(s: WrappedSurface, raised: bool)
    requires
        s.surface != 0,
    ensures
        ({
            let (s1, c1) = s.presenting();
            let (s2, c2) = s1.after(EglReply::Status { ok: true });
            let (s3, c3) = s2.after(EglReply::NativeSwap { result: Ok(()) });
            let (s4, c4) = s3.after(EglReply::Flag { raised: true });
            let (s5, c5) = s4.after(EglReply::Status { ok: true });
            let (s6, c6) = s5.after(EglReply::Status { ok: true });
            let (s7, c7) = s6.after(EglReply::Handle { handle: 0 });
            let (t1, d1) = s7.presenting();
            let (t2, d2) = t1.after(EglReply::Flag { raised });
            let (t3, d3) = t2.after(EglReply::Status { ok: true });
            let (t4, d4) = t3.after(EglReply::Handle { handle: 0 });
            &&& c7 == Step::Done(Ok(()))
            &&& s7.surface == 0
            &&& d1 == Step::Call(EglCall::NeedsRecreation)
            &&& d4 == Step::Fatal(Fault::RecreationFailed)
        }),
{
}

} // verus!
