//! Negotiation of a pixel-format configuration and creation of a context.

use super::attributes::{
    config_attributes, config_request, config_request_error, context_attributes, context_request,
    egl_version_at_least, surface_attributes, surface_request, version_at_least, ConfigAttributes,
    ContextError, PixelFormat, PixelFormatRequirements,
};
use super::call::{Acquisition, EglCall, EglReply};
use super::extensions::{has_create_context_extension, lists_extension, CREATE_CONTEXT_EXTENSION};
use super::ffi;
use vstd::prelude::*;
use vstd::string::StringSliceAdditionalSpecFns;

verus! {

/// The display that is current on a thread.
#[derive(Clone, Copy, Debug, PartialEq, Eq)]
pub struct WrappedDisplay {
    pub display: usize,
}

impl WrappedDisplay {
    /// Captures the display that `eglGetCurrentDisplay` reported. It is an
    /// error for no display to be current: the caller must first make a
    /// platform-native context current.
    pub fn get_current(current_display: usize) -> (r: Result<WrappedDisplay, ContextError>)
        ensures
            current_display == 0 ==> r == Err::<WrappedDisplay, ContextError>(
                ContextError::NoCurrentDisplay,
            ),
            current_display != 0 ==> r == Ok::<WrappedDisplay, ContextError>(
                WrappedDisplay { display: current_display },
            ),
    {
        if current_display == 0 {
            Err(ContextError::NoCurrentDisplay)
        } else {
            Ok(WrappedDisplay { display: current_display })
        }
    }

    /// The call that releases whatever is current on the calling thread.
    pub fn clear_current(&self) -> (call: EglCall)
        ensures
            call == (EglCall::MakeCurrent { display: self.display, draw: 0, read: 0, context: 0 }),
    {
        EglCall::MakeCurrent { display: self.display, draw: 0, read: 0, context: 0 }
    }
}

/// The requirements of every context this crate negotiates.
pub open spec fn default_requirements() -> PixelFormatRequirements {
    PixelFormatRequirements {
        hardware_accelerated: Some(true),
        color_bits: Some(24u8),
        float_color_buffer: false,
        alpha_bits: Some(8u8),
        depth_bits: Some(24u8),
        stencil_bits: Some(8u8),
        double_buffer: Some(true),
        multisampling: None,
        stereoscopy: false,
    }
}

/// Number of attributes read back from a chosen configuration.
pub const QUERY_COUNT: u8 = 8;

/// The attribute that the `index`-th query reads, in the order of querying.
pub open spec fn queried_attribute(index: u8) -> i32 {
    if index == 0 {
        ffi::CONFIG_CAVEAT
    } else if index == 1 {
        ffi::RED_SIZE
    } else if index == 2 {
        ffi::BLUE_SIZE
    } else if index == 3 {
        ffi::GREEN_SIZE
    } else if index == 4 {
        ffi::ALPHA_SIZE
    } else if index == 5 {
        ffi::DEPTH_SIZE
    } else if index == 6 {
        ffi::STENCIL_SIZE
    } else {
        ffi::SAMPLES
    }
}

/// `attrs` with the value of the `index`-th query recorded.
pub open spec fn record_attribute(attrs: ConfigAttributes, index: u8, value: i32)
    -> ConfigAttributes {
    if index == 0 {
        ConfigAttributes { config_caveat: value, ..attrs }
    } else if index == 1 {
        ConfigAttributes { red_size: value, ..attrs }
    } else if index == 2 {
        ConfigAttributes { blue_size: value, ..attrs }
    } else if index == 3 {
        ConfigAttributes { green_size: value, ..attrs }
    } else if index == 4 {
        ConfigAttributes { alpha_size: value, ..attrs }
    } else if index == 5 {
        ConfigAttributes { depth_size: value, ..attrs }
    } else if index == 6 {
        ConfigAttributes { stencil_size: value, ..attrs }
    } else {
        ConfigAttributes { samples: value, ..attrs }
    }
}

/// Where a negotiation stands: which call it waits for, or how it ended.
#[derive(Clone, Copy, Debug, PartialEq, Eq)]
pub enum NegotiationPhase {
    /// `eglInitialize` is to report the EGL version.
    Initialize,
    /// `eglQueryString` is to report the extensions.
    Extensions,
    /// `eglBindAPI` is to bind OpenGL ES.
    BindApi,
    /// `eglChooseConfig` is to choose the configuration.
    ChooseConfig,
    /// `eglGetConfigAttrib` is to report the attribute with this place in the
    /// order of querying.
    Attribute { index: u8 },
    /// `eglCreateContext` is to create the context.
    CreateContext,
    /// The creation failed; `eglGetError` is to say why.
    CreationError,
    /// The context exists.
    Ready,
    /// The negotiation failed.
    Failed { error: ContextError },
}

/// What a negotiation needs next.
#[derive(Clone, Copy, Debug, PartialEq, Eq)]
pub enum ContextStep {
    /// Perform the call and hand its outcome to [`Negotiation::resume`].
    Call(EglCall),
    /// The context exists: [`Negotiation::finish`] yields it.
    Ready,
    /// The negotiation failed. No further call is made and nothing is retried.
    Failed(ContextError),
}

/// A context that was negotiated: the display it lives on, the configuration it
/// is bound to, and what surfaces on it are created with.
#[derive(Clone, Debug, PartialEq, Eq)]
pub struct WrappedContext {
    pub display: usize,
    pub context: usize,
    pub double_buffer: Option<bool>,
    pub config_id: usize,
    pub pixel_format: PixelFormat,
}

/// The negotiation of one context, from `eglInitialize` to `eglCreateContext`.
#[derive(Clone, Copy, Debug, PartialEq, Eq)]
pub struct Negotiation {
    pub display: usize,
    pub share_context: usize,
    pub version: (u8, u8),
    pub requirements: PixelFormatRequirements,
    pub phase: NegotiationPhase,
    pub egl_version: (i32, i32),
    pub create_context_extension: bool,
    pub config: usize,
    pub queried: ConfigAttributes,
    pub pixel_format: Option<PixelFormat>,
    pub context: usize,
}

impl Negotiation {
    /// A negotiation that has made no call yet.
    pub open spec fn initial(
        version: (u8, u8),
        share_context: usize,
        display: usize,
        requirements: PixelFormatRequirements,
    ) -> Negotiation {
        Negotiation {
            display,
            share_context,
            version,
            requirements,
            phase: NegotiationPhase::Initialize,
            egl_version: (0i32, 0i32),
            create_context_extension: false,
            config: 0,
            queried: ConfigAttributes {
                config_caveat: 0,
                red_size: 0,
                blue_size: 0,
                green_size: 0,
                alpha_size: 0,
                depth_size: 0,
                stencil_size: 0,
                samples: 0,
            },
            pixel_format: None,
            context: 0,
        }
    }

    /// This negotiation, ended by `error`.
    pub open spec fn failed(self, error: ContextError) -> Negotiation {
        Negotiation { phase: NegotiationPhase::Failed { error }, ..self }
    }

    /// This negotiation once the client API is bound: it asks for a
    /// configuration, unless no request can be made of this EGL version.
    pub open spec fn requesting_config(self) -> Negotiation {
        match config_request_error(self.egl_version, self.version, self.requirements) {
            Some(error) => self.failed(error),
            None => Negotiation { phase: NegotiationPhase::ChooseConfig, ..self },
        }
    }

    /// What this negotiation needs next.
    pub open spec fn pending(self) -> ContextStep {
        match self.phase {
            NegotiationPhase::Initialize => ContextStep::Call(
                EglCall::Initialize { display: self.display },
            ),
            NegotiationPhase::Extensions => ContextStep::Call(
                EglCall::QueryExtensions { display: self.display },
            ),
            NegotiationPhase::BindApi => ContextStep::Call(
                EglCall::BindApi { api: ffi::OPENGL_ES_API },
            ),
            NegotiationPhase::ChooseConfig => ContextStep::Call(
                EglCall::ChooseConfig { display: self.display, config_size: 1 },
            ),
            NegotiationPhase::Attribute { index } => ContextStep::Call(
                EglCall::GetConfigAttrib {
                    display: self.display,
                    config: self.config,
                    attribute: queried_attribute(index),
                },
            ),
            NegotiationPhase::CreateContext => ContextStep::Call(
                EglCall::CreateContext {
                    display: self.display,
                    config: self.config,
                    share_context: self.share_context,
                },
            ),
            NegotiationPhase::CreationError => ContextStep::Call(EglCall::GetError),
            NegotiationPhase::Ready => ContextStep::Ready,
            NegotiationPhase::Failed { error } => ContextStep::Failed(error),
        }
    }

    /// This negotiation after the pending call was answered by `reply`.
    ///
    /// A reply of the wrong kind ends the negotiation. Once the negotiation has
    /// ended, in success or in failure, no reply changes it.
    pub open spec fn after(self, reply: EglReply) -> Negotiation {
        match self.phase {
            NegotiationPhase::Initialize => match reply {
                EglReply::Version { ok, major, minor } => if !ok {
                    self.failed(ContextError::InitializeFailed)
                } else if version_at_least((major, minor), 1, 2) {
                    Negotiation {
                        egl_version: (major, minor),
                        phase: NegotiationPhase::Extensions,
                        ..self
                    }
                } else {
                    (Negotiation { egl_version: (major, minor), ..self }).requesting_config()
                },
                _ => self.failed(ContextError::UnexpectedReply),
            },
            NegotiationPhase::Extensions => match reply {
                EglReply::Extensions { list } => Negotiation {
                    create_context_extension: lists_extension(list@, CREATE_CONTEXT_EXTENSION@),
                    phase: NegotiationPhase::BindApi,
                    ..self
                },
                _ => self.failed(ContextError::UnexpectedReply),
            },
            NegotiationPhase::BindApi => match reply {
                EglReply::Status { ok } => if ok {
                    self.requesting_config()
                } else {
                    self.failed(ContextError::OpenGlesNotSupported)
                },
                _ => self.failed(ContextError::UnexpectedReply),
            },
            NegotiationPhase::ChooseConfig => match reply {
                EglReply::Config { ok, config, count } => if !ok {
                    self.failed(ContextError::ConfigFailed)
                } else if count == 0 {
                    self.failed(ContextError::NoAvailablePixelFormat)
                } else {
                    Negotiation { config, phase: NegotiationPhase::Attribute { index: 0 }, ..self }
                },
                _ => self.failed(ContextError::UnexpectedReply),
            },
            NegotiationPhase::Attribute { index } => match reply {
                EglReply::Attribute { ok, value } => if !ok {
                    self.failed(
                        ContextError::AttributeQueryFailed { attribute: queried_attribute(index) },
                    )
                } else if index + 1 < QUERY_COUNT {
                    Negotiation {
                        queried: record_attribute(self.queried, index, value),
                        phase: NegotiationPhase::Attribute { index: (index + 1) as u8 },
                        ..self
                    }
                } else {
                    let queried = record_attribute(self.queried, index, value);
                    match queried.range_error() {
                        Some(error) => (Negotiation { queried, ..self }).failed(error),
                        None => Negotiation {
                            queried,
                            pixel_format: Some(queried.pixel_format()),
                            phase: NegotiationPhase::CreateContext,
                            ..self
                        },
                    }
                },
                _ => self.failed(ContextError::UnexpectedReply),
            },
            NegotiationPhase::CreateContext => match reply {
                EglReply::Handle { handle } => if handle != 0 {
                    Negotiation { context: handle, phase: NegotiationPhase::Ready, ..self }
                } else {
                    Negotiation { phase: NegotiationPhase::CreationError, ..self }
                },
                _ => self.failed(ContextError::UnexpectedReply),
            },
            NegotiationPhase::CreationError => match reply {
                EglReply::Error { code } => if code == ffi::BAD_ATTRIBUTE {
                    self.failed(ContextError::CreationFailed)
                } else {
                    self.failed(ContextError::Unknown { code })
                },
                _ => self.failed(ContextError::UnexpectedReply),
            },
            NegotiationPhase::Ready => self,
            NegotiationPhase::Failed { error } => self,
        }
    }

    /// The context this negotiation produced, if it has produced one.
    pub open spec fn outcome(self) -> Option<WrappedContext> {
        if self.phase is Ready && self.pixel_format is Some {
            Some(
                WrappedContext {
                    display: self.display,
                    context: self.context,
                    double_buffer: self.requirements.double_buffer,
                    config_id: self.config,
                    pixel_format: self.pixel_format->Some_0,
                },
            )
        } else {
            None
        }
    }

    /// What holds of every negotiation that was started by [`Negotiation::new`]
    /// and fed replies since: a configuration is only asked for where a request
    /// can be made, the pixel format is the one derived from the values read
    /// back, and a ready negotiation holds a context.
    pub open spec fn inv(self) -> bool {
        &&& (self.phase is ChooseConfig || self.phase is Attribute || self.phase is CreateContext
            || self.phase is CreationError || self.phase is Ready) ==> config_request_error(
            self.egl_version,
            self.version,
            self.requirements,
        ) is None
        &&& self.phase matches NegotiationPhase::Attribute { index } ==> index < QUERY_COUNT
        &&& (self.phase is CreateContext || self.phase is CreationError || self.phase is Ready)
            ==> self.queried.range_error() is None && self.pixel_format == Some(
            self.queried.pixel_format(),
        )
        &&& self.phase is Ready ==> self.context != 0
    }

    /// Starts the negotiation of a context of client API `version` on `display`
    /// that shares its object namespace with `share_context`.
    pub fn new(
        version: (u8, u8),
        share_context: usize,
        display: usize,
        requirements: PixelFormatRequirements,
    ) -> (n: Negotiation)
        ensures
            n == Negotiation::initial(version, share_context, display, requirements),
    {
        Negotiation {
            display,
            share_context,
            version,
            requirements,
            phase: NegotiationPhase::Initialize,
            egl_version: (0, 0),
            create_context_extension: false,
            config: 0,
            queried: ConfigAttributes {
                config_caveat: 0,
                red_size: 0,
                blue_size: 0,
                green_size: 0,
                alpha_size: 0,
                depth_size: 0,
                stencil_size: 0,
                samples: 0,
            },
            pixel_format: None,
            context: 0,
        }
    }

    /// What to do next: a call to perform, or the end of the negotiation.
    pub fn step(&self) -> (step: ContextStep)
        ensures
            step == self.pending(),
    {
        match self.phase {
            NegotiationPhase::Initialize => ContextStep::Call(
                EglCall::Initialize { display: self.display },
            ),
            NegotiationPhase::Extensions => ContextStep::Call(
                EglCall::QueryExtensions { display: self.display },
            ),
            NegotiationPhase::BindApi => ContextStep::Call(
                EglCall::BindApi { api: ffi::OPENGL_ES_API },
            ),
            NegotiationPhase::ChooseConfig => ContextStep::Call(
                EglCall::ChooseConfig { display: self.display, config_size: 1 },
            ),
            NegotiationPhase::Attribute { index } => ContextStep::Call(
                EglCall::GetConfigAttrib {
                    display: self.display,
                    config: self.config,
                    attribute: attribute_to_query(index),
                },
            ),
            NegotiationPhase::CreateContext => ContextStep::Call(
                EglCall::CreateContext {
                    display: self.display,
                    config: self.config,
                    share_context: self.share_context,
                },
            ),
            NegotiationPhase::CreationError => ContextStep::Call(EglCall::GetError),
            NegotiationPhase::Ready => ContextStep::Ready,
            NegotiationPhase::Failed { error } => ContextStep::Failed(error),
        }
    }

    fn fail(&mut self, error: ContextError)
        ensures
            *final(self) == old(self).failed(error),
    {
        self.phase = NegotiationPhase::Failed { error };
    }

    fn request_config(&mut self)
        ensures
            *final(self) == old(self).requesting_config(),
    {
        match config_attributes(self.egl_version, self.version, &self.requirements) {
            Ok(_) => {
                self.phase = NegotiationPhase::ChooseConfig;
            },
            Err(error) => {
                self.fail(error);
            },
        }
    }

    fn resume_attribute(&mut self, index: u8, ok: bool, value: i32)
        requires
            old(self).phase == (NegotiationPhase::Attribute { index }),
        ensures
            *final(self) == old(self).after(EglReply::Attribute { ok, value }),
    {
        if !ok {
            self.fail(ContextError::AttributeQueryFailed { attribute: attribute_to_query(index) });
        } else if index < QUERY_COUNT - 1 {
            self.queried = with_attribute(&self.queried, index, value);
            self.phase = NegotiationPhase::Attribute { index: index + 1 };
        } else {
            self.queried = with_attribute(&self.queried, index, value);
            match PixelFormat::from_config(&self.queried) {
                Ok(format) => {
                    self.pixel_format = Some(format);
                    self.phase = NegotiationPhase::CreateContext;
                },
                Err(error) => {
                    self.fail(error);
                },
            }
        }
    }

    /// Takes the outcome of the pending call and moves on.
    pub fn resume(&mut self, reply: &EglReply) -> (step: ContextStep)
        ensures
            *final(self) == old(self).after(*reply),
            step == final(self).pending(),
    {
        match self.phase {
            NegotiationPhase::Initialize => match reply {
                EglReply::Version { ok, major, minor } => {
                    if !*ok {
                        self.fail(ContextError::InitializeFailed);
                    } else {
                        self.egl_version = (*major, *minor);
                        if egl_version_at_least((*major, *minor), 1, 2) {
                            self.phase = NegotiationPhase::Extensions;
                        } else {
                            self.request_config();
                        }
                    }
                },
                _ => {
                    self.fail(ContextError::UnexpectedReply);
                },
            },
            NegotiationPhase::Extensions => match reply {
                EglReply::Extensions { list } => {
                    self.create_context_extension = has_create_context_extension(list.as_slice());
                    self.phase = NegotiationPhase::BindApi;
                },
                _ => {
                    self.fail(ContextError::UnexpectedReply);
                },
            },
            NegotiationPhase::BindApi => match reply {
                EglReply::Status { ok } => {
                    if *ok {
                        self.request_config();
                    } else {
                        self.fail(ContextError::OpenGlesNotSupported);
                    }
                },
                _ => {
                    self.fail(ContextError::UnexpectedReply);
                },
            },
            NegotiationPhase::ChooseConfig => match reply {
                EglReply::Config { ok, config, count } => {
                    if !*ok {
                        self.fail(ContextError::ConfigFailed);
                    } else if *count == 0 {
                        self.fail(ContextError::NoAvailablePixelFormat);
                    } else {
                        self.config = *config;
                        self.phase = NegotiationPhase::Attribute { index: 0 };
                    }
                },
                _ => {
                    self.fail(ContextError::UnexpectedReply);
                },
            },
            NegotiationPhase::Attribute { index } => match reply {
                EglReply::Attribute { ok, value } => {
                    self.resume_attribute(index, *ok, *value);
                },
                _ => {
                    self.fail(ContextError::UnexpectedReply);
                },
            },
            NegotiationPhase::CreateContext => match reply {
                EglReply::Handle { handle } => {
                    if *handle != 0 {
                        self.context = *handle;
                        self.phase = NegotiationPhase::Ready;
                    } else {
                        self.phase = NegotiationPhase::CreationError;
                    }
                },
                _ => {
                    self.fail(ContextError::UnexpectedReply);
                },
            },
            NegotiationPhase::CreationError => match reply {
                EglReply::Error { code } => {
                    if *code == ffi::BAD_ATTRIBUTE {
                        self.fail(ContextError::CreationFailed);
                    } else {
                        self.fail(ContextError::Unknown { code: *code });
                    }
                },
                _ => {
                    self.fail(ContextError::UnexpectedReply);
                },
            },
            NegotiationPhase::Ready => {},
            NegotiationPhase::Failed { error } => {},
        }
        self.step()
    }

    /// The attribute list that goes with a pending `eglChooseConfig`.
    pub fn config_attributes(&self) -> (list: Option<Vec<i32>>)
        ensures
            list is Some <==> self.phase is ChooseConfig && config_request_error(
                self.egl_version,
                self.version,
                self.requirements,
            ) is None,
            list is Some ==> list->Some_0@ == config_request(
                self.egl_version,
                self.version,
                self.requirements,
            ),
    {
        match self.phase {
            NegotiationPhase::ChooseConfig => {
                match config_attributes(self.egl_version, self.version, &self.requirements) {
                    Ok(list) => Some(list),
                    Err(_) => None,
                }
            },
            _ => None,
        }
    }

    /// The attribute list that goes with a pending `eglCreateContext`.
    pub fn context_attributes(&self) -> (list: Option<Vec<i32>>)
        ensures
            self.phase is CreateContext ==> list is Some && list->Some_0@ == context_request(
                self.egl_version,
                self.create_context_extension,
                self.version,
            ),
            !(self.phase is CreateContext) ==> list is None,
    {
        match self.phase {
            NegotiationPhase::CreateContext => Some(
                context_attributes(self.egl_version, self.create_context_extension, self.version),
            ),
            _ => None,
        }
    }

    /// The context, once the negotiation is ready.
    pub fn finish(&self) -> (context: Option<WrappedContext>)
        ensures
            context == self.outcome(),
    {
        match (self.phase, self.pixel_format) {
            (NegotiationPhase::Ready, Some(pixel_format)) => Some(
                WrappedContext {
                    display: self.display,
                    context: self.context,
                    double_buffer: self.requirements.double_buffer,
                    config_id: self.config,
                    pixel_format,
                },
            ),
            _ => None,
        }
    }
}

/// The attribute that the `index`-th query reads.
pub fn attribute_to_query(index: u8) -> (attribute: i32)
    ensures
        attribute == queried_attribute(index),
{
    if index == 0 {
        ffi::CONFIG_CAVEAT
    } else if index == 1 {
        ffi::RED_SIZE
    } else if index == 2 {
        ffi::BLUE_SIZE
    } else if index == 3 {
        ffi::GREEN_SIZE
    } else if index == 4 {
        ffi::ALPHA_SIZE
    } else if index == 5 {
        ffi::DEPTH_SIZE
    } else if index == 6 {
        ffi::STENCIL_SIZE
    } else {
        ffi::SAMPLES
    }
}

fn with_attribute(attrs: &ConfigAttributes, index: u8, value: i32) -> (r: ConfigAttributes)
    ensures
        r == record_attribute(*attrs, index, value),
{
    let mut r = *attrs;
    if index == 0 {
        r.config_caveat = value;
    } else if index == 1 {
        r.red_size = value;
    } else if index == 2 {
        r.blue_size = value;
    } else if index == 3 {
        r.green_size = value;
    } else if index == 4 {
        r.alpha_size = value;
    } else if index == 5 {
        r.depth_size = value;
    } else if index == 6 {
        r.stencil_size = value;
    } else {
        r.samples = value;
    }
    r
}

/// A negotiation starts well formed, and every reply leaves it so.
pub proof fn lemma_negotiation_inv(n: Negotiation, reply: EglReply)
    requires
        n.inv(),
    ensures
        n.after(reply).inv(),
        Negotiation::initial(n.version, n.share_context, n.display, n.requirements).inv(),
{
}

/// A failed negotiation stays failed, with the same error, whatever it is fed:
/// nothing is retried, neither with another client API version nor otherwise.
pub proof fn lemma_failure_is_final(n: Negotiation, reply: EglReply)
    requires
        n.phase is Failed,
    ensures
        n.after(reply) == n,
        n.pending() == ContextStep::Failed(n.phase->error),
{
}

/// A negotiation never changes what it was asked for: the display, the context
/// to share with, the client API version and the requirements.
pub proof fn lemma_request_is_kept(n: Negotiation, reply: EglReply)
    ensures
        n.after(reply).display == n.display,
        n.after(reply).share_context == n.share_context,
        n.after(reply).version == n.version,
        n.after(reply).requirements == n.requirements,
{
}

/// A well-formed negotiation that is ready yields a context on the display it
/// was started on, bound to the configuration that was chosen, and described by
/// the pixel format read back from that configuration.
pub proof fn lemma_ready_yields_context(n: Negotiation)
    requires
        n.inv(),
        n.phase is Ready,
    ensures
        n.outcome() is Some,
        n.outcome()->Some_0.display == n.display,
        n.outcome()->Some_0.context != 0,
        n.outcome()->Some_0.config_id == n.config,
        n.outcome()->Some_0.pixel_format == n.queried.pixel_format(),
        n.outcome()->Some_0.pixel_format.color_bits == n.queried.red_size + n.queried.green_size
            + n.queried.blue_size,
{
}

/// A negotiation on a healthy driver makes its calls in one fixed order, asks
/// for exactly one configuration, reads the eight attributes back in the order
/// of querying, and ends with a context on the chosen configuration whose pixel
/// format is the one derived from the values read back.
pub proof fn lemma_successful_negotiation(
    n: Negotiation,
    major: i32,
    minor: i32,
    extensions: Vec<u8>,
    config: usize,
    count: i32,
    values: ConfigAttributes,
    context: usize,
)
    requires
        n.phase is Initialize,
        version_at_least((major, minor), 1, 3),
        n.version.0 == 2 || n.version.0 == 3,
        !n.requirements.stereoscopy,
        count != 0,
        values.range_error() is None,
        context != 0,
    ensures
        ({
            let n1 = n.after(EglReply::Version { ok: true, major, minor });
            let n2 = n1.after(EglReply::Extensions { list: extensions });
            let n3 = n2.after(EglReply::Status { ok: true });
            let n4 = n3.after(EglReply::Config { ok: true, config, count });
            let n5 = n4.after(EglReply::Attribute { ok: true, value: values.config_caveat });
            let n6 = n5.after(EglReply::Attribute { ok: true, value: values.red_size });
            let n7 = n6.after(EglReply::Attribute { ok: true, value: values.blue_size });
            let n8 = n7.after(EglReply::Attribute { ok: true, value: values.green_size });
            let n9 = n8.after(EglReply::Attribute { ok: true, value: values.alpha_size });
            let n10 = n9.after(EglReply::Attribute { ok: true, value: values.depth_size });
            let n11 = n10.after(EglReply::Attribute { ok: true, value: values.stencil_size });
            let n12 = n11.after(EglReply::Attribute { ok: true, value: values.samples });
            let n13 = n12.after(EglReply::Handle { handle: context });
            &&& n.pending() == ContextStep::Call(EglCall::Initialize { display: n.display })
            &&& n1.pending() == ContextStep::Call(EglCall::QueryExtensions { display: n.display })
            &&& n2.pending() == ContextStep::Call(EglCall::BindApi { api: ffi::OPENGL_ES_API })
            &&& n3.pending() == ContextStep::Call(
                EglCall::ChooseConfig { display: n.display, config_size: 1 },
            )
            &&& n4.pending() == ContextStep::Call(
                EglCall::GetConfigAttrib {
                    display: n.display,
                    config,
                    attribute: ffi::CONFIG_CAVEAT,
                },
            )
            &&& n5.pending() == ContextStep::Call(
                EglCall::GetConfigAttrib { display: n.display, config, attribute: ffi::RED_SIZE },
            )
            &&& n6.pending() == ContextStep::Call(
                EglCall::GetConfigAttrib { display: n.display, config, attribute: ffi::BLUE_SIZE },
            )
            &&& n7.pending() == ContextStep::Call(
                EglCall::GetConfigAttrib { display: n.display, config, attribute: ffi::GREEN_SIZE },
            )
            &&& n8.pending() == ContextStep::Call(
                EglCall::GetConfigAttrib { display: n.display, config, attribute: ffi::ALPHA_SIZE },
            )
            &&& n9.pending() == ContextStep::Call(
                EglCall::GetConfigAttrib { display: n.display, config, attribute: ffi::DEPTH_SIZE },
            )
            &&& n10.pending() == ContextStep::Call(
                EglCall::GetConfigAttrib {
                    display: n.display,
                    config,
                    attribute: ffi::STENCIL_SIZE,
                },
            )
            &&& n11.pending() == ContextStep::Call(
                EglCall::GetConfigAttrib { display: n.display, config, attribute: ffi::SAMPLES },
            )
            &&& n12.pending() == ContextStep::Call(
                EglCall::CreateContext {
                    display: n.display,
                    config,
                    share_context: n.share_context,
                },
            )
            &&& n13.pending() == ContextStep::Ready
            &&& n13.outcome() == Some(
                WrappedContext {
                    display: n.display,
                    context,
                    double_buffer: n.requirements.double_buffer,
                    config_id: config,
                    pixel_format: values.pixel_format(),
                },
            )
        }),
{
}

/// The bytes handed to `eglGetProcAddress` for `symbol`: the symbol and a
/// terminating zero. A symbol with a zero byte inside names no entry point.
pub open spec fn proc_name(symbol: Seq<u8>) -> Option<Seq<u8>> {
    if exists|i: int| 0 <= i < symbol.len() && symbol[i] == 0 {
        None
    } else {
        Some(symbol.push(0u8))
    }
}

impl WrappedContext {
    /// Starts the negotiation of the resource context: an OpenGL ES 3.0 context
    /// on the display that is current on the calling thread, sharing its object
    /// namespace with the context that is current there.
    ///
    /// `current_context` and `current_display` are what `eglGetCurrentContext`
    /// and `eglGetCurrentDisplay` reported. Without a current display there is
    /// nothing to negotiate on.
    pub fn create_context(current_context: usize, current_display: usize) -> (r: Result<
        Negotiation,
        ContextError,
    >)
        ensures
            current_display == 0 ==> r == Err::<Negotiation, ContextError>(
                ContextError::NoCurrentDisplay,
            ),
            current_display != 0 ==> r == Ok::<Negotiation, ContextError>(
                Negotiation::initial(
                    (3u8, 0u8),
                    current_context,
                    current_display,
                    default_requirements(),
                ),
            ),
    {
        if current_display == 0 {
            return Err(ContextError::NoCurrentDisplay);
        }
        Ok(Negotiation::new((3, 0), current_context, current_display, Default::default()))
    }

    /// Starts the negotiation of an OpenGL ES 3.0 context on `display` that
    /// shares its object namespace with `share_context`.
    pub fn create_context_dir(share_context: usize, display: usize) -> (n: Negotiation)
        ensures
            n == Negotiation::initial((3u8, 0u8), share_context, display, default_requirements()),
    {
        Negotiation::new((3, 0), share_context, display, Default::default())
    }

    /// Begins binding this context, without a surface, to the calling thread.
    pub fn make_current(&self) -> (acquisition: Acquisition)
        ensures
            acquisition == Acquisition::initial(self.display, 0, 0, self.context),
    {
        Acquisition::new(self.display, 0, 0, self.context)
    }

    /// The name to hand to `eglGetProcAddress` for `symbol`.
    pub fn get_proc_address(&self, symbol: &str) -> (name: Option<Vec<u8>>)
        ensures
            proc_name(symbol.spec_bytes()) is Some <==> name is Some,
            name is Some ==> Some(name->Some_0@) == proc_name(symbol.spec_bytes()),
    {
        let bytes = symbol.as_bytes();
        let n = bytes.len();
        let mut name: Vec<u8> = Vec::new();
        let mut i: usize = 0;
        while i < n
            invariant
                i <= n,
                n == bytes@.len(),
                bytes@ == symbol.spec_bytes(),
                name@ == bytes@.subrange(0, i as int),
                forall|j: int| 0 <= j < i ==> bytes@[j] != 0,
            decreases n - i,
        {
            if bytes[i] == 0 {
                return None;
            }
            name.push(bytes[i]);
            i += 1;
        }
        name.push(0);
        Some(name)
    }

    /// Whether this context is the one `eglGetCurrentContext` reported.
    pub fn is_current(&self, current_context: usize) -> (r: bool)
        ensures
            r == (current_context == self.context),
    {
        current_context == self.context
    }

    /// The attribute list that surfaces on this context are created with.
    pub fn surface_attributes(&self) -> (list: Vec<i32>)
        ensures
            list@ == surface_request(self.double_buffer),
    {
        surface_attributes(self.double_buffer)
    }
}

} // verus!
