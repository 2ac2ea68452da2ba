//! The callbacks that the render client invokes on an output.

use crate::egl_util::call::{Acquisition, EglCall, PresentError};
use crate::egl_util::context::{WrappedContext, WrappedDisplay};
use crate::input::keyboard::KeyboardManager;
use crate::output::FlutterOutputBackend;
use vstd::prelude::*;

verus! {

/// The framebuffer that the render client draws into: the one that the window
/// system provides.
pub const DEFAULT_FRAMEBUFFER: u32 = 0;

/// What the render client is told of an operation on the output: whether it
/// succeeded.
pub fn callback_result(result: &Result<(), PresentError>) -> (ok: bool)
    ensures
        ok == (*result is Ok),
{
    match result {
        Ok(_) => true,
        Err(_) => false,
    }
}

/// The OpenGL callbacks of one output: its backend, the display it lives on and
/// the resource context that background threads upload with.
pub struct SmithayOpenGLHandler<B: FlutterOutputBackend> {
    pub backend: B,
    pub display: WrappedDisplay,
    pub resource_context: WrappedContext,
}

impl<B: FlutterOutputBackend> SmithayOpenGLHandler<B> {
    /// The callbacks of an output with this backend.
    pub fn new(backend: B, display: WrappedDisplay, resource_context: WrappedContext) -> (handler:
        Self)
        ensures
            handler.backend == backend,
            handler.display == display,
            handler.resource_context == resource_context,
    {
        SmithayOpenGLHandler { backend, display, resource_context }
    }

    /// Presents the frame: the backend is asked to, and the answer is true if
    /// and only if the backend submitted the frame.
    pub fn swap_buffers(&self) -> (ok: bool)
        ensures
            exists|r: Result<(), PresentError>|
                call_ensures(B::swap_buffers, (&self.backend,), r) && ok == (r is Ok),
    {
        let result = self.backend.swap_buffers();
        callback_result(&result)
    }

    /// Acquires the draw context: the backend is asked to, and the answer is
    /// true if and only if the backend made its context current.
    pub fn make_current(&self) -> (ok: bool)
        ensures
            exists|r: Result<(), PresentError>|
                call_ensures(B::make_current, (&self.backend,), r) && ok == (r is Ok),
    {
        let result = self.backend.make_current();
        callback_result(&result)
    }

    /// The call that releases the current context. The render client is told
    /// that the release succeeded whatever the call returns.
    pub fn clear_current(&self) -> (r: (EglCall, bool))
        ensures
            r.0 == (EglCall::MakeCurrent {
                display: self.display.display,
                draw: 0,
                read: 0,
                context: 0,
            }),
            r.1,
    {
        (self.display.clear_current(), true)
    }

    /// The framebuffer to draw into.
    pub fn fbo_callback(&self) -> (id: u32)
        ensures
            id == DEFAULT_FRAMEBUFFER,
    {
        DEFAULT_FRAMEBUFFER
    }

    /// Begins to acquire the resource context, without a surface.
    pub fn make_resource_current(&self) -> (acquisition: Acquisition)
        ensures
            acquisition == Acquisition::initial(
                self.resource_context.display,
                0,
                0,
                self.resource_context.context,
            ),
    {
        self.resource_context.make_current()
    }
}

/// The text input callbacks of one engine. The engine is known by the
/// identifier that the embedding program gave it.
#[derive(Clone, Copy, Debug, PartialEq, Eq)]
pub struct SmithayTextInputHandler {
    pub engine: usize,
}

impl SmithayTextInputHandler {
    /// The engine shows its text field: the field gets the focus of the
    /// keyboard.
    pub fn on_show(&self, keyboard: &mut KeyboardManager)
        ensures
            final(keyboard).text_target == Some(self.engine),
            final(keyboard).current_config == old(keyboard).current_config,
    {
        keyboard.set_text_target(self.engine);
    }

    /// The engine puts its text field away: the field gives up the focus of the
    /// keyboard, if it has it.
    pub fn on_hide(&self, keyboard: &mut KeyboardManager)
        ensures
            final(keyboard).text_target == if old(keyboard).text_target == Some(self.engine) {
                None
            } else {
                old(keyboard).text_target
            },
            final(keyboard).current_config == old(keyboard).current_config,
    {
        keyboard.clear_text_target(self.engine);
    }
}

} // verus!
