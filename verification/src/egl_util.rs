//! The rendering context and surface lifecycle, as decisions over plain values.
//!
//! Nothing in this module touches the driver. Each operation is a small state
//! machine: it names the next driver call ([`EglCall`]), is fed that call's
//! outcome ([`EglReply`]), and says what to call next or how the operation ended.

pub mod attributes;
pub mod call;
pub mod context;
pub mod extensions;
pub mod ffi;
pub mod surface;

pub use self::attributes::{
    ConfigAttributes, ContextError, PixelFormat, PixelFormatRequirements,
};
pub use self::call::{
    Acquisition, AcquisitionPhase, EglCall, EglReply, Fault, PresentError, Step,
};
pub use self::context::{
    ContextStep, Negotiation, NegotiationPhase, WrappedContext, WrappedDisplay,
};
pub use self::surface::{SurfacePhase, WrappedSurface};
