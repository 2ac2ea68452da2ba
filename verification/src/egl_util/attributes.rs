//! Attribute lists for configuration, context and surface creation, and the
//! pixel format read back from a chosen configuration.

use super::ffi;
use vstd::prelude::*;

verus! {

/// What the caller asks of a pixel-format configuration. `None` in a field means
/// "don't care".
#[derive(Clone, Copy, Debug, PartialEq, Eq)]
pub struct PixelFormatRequirements {
    pub hardware_accelerated: Option<bool>,
    pub color_bits: Option<u8>,
    pub float_color_buffer: bool,
    pub alpha_bits: Option<u8>,
    pub depth_bits: Option<u8>,
    pub stencil_bits: Option<u8>,
    pub double_buffer: Option<bool>,
    pub multisampling: Option<u16>,
    pub stereoscopy: bool,
}

/// The configuration that was negotiated: an immutable snapshot, derived once
/// per context.
#[derive(Clone, Copy, Debug, PartialEq, Eq)]
pub struct PixelFormat {
    pub hardware_accelerated: bool,
    pub color_bits: u8,
    pub alpha_bits: u8,
    pub depth_bits: u8,
    pub stencil_bits: u8,
    pub stereoscopy: bool,
    pub double_buffer: bool,
    pub multisampling: Option<u16>,
    pub srgb: bool,
}

/// Why a context could not be constructed. Every one of these is fatal at the
/// point of first use.
#[derive(Clone, Copy, Debug, PartialEq, Eq)]
pub enum ContextError {
    /// No display is current on the calling thread.
    NoCurrentDisplay,
    /// `eglInitialize` failed on the display.
    InitializeFailed,
    /// The EGL implementation cannot create OpenGL ES contexts.
    OpenGlesNotSupported,
    /// The client API version is not one this EGL version can provide.
    OpenGlVersionNotSupported { major: u8, minor: u8 },
    /// Stereoscopic configurations are not supported.
    StereoscopyUnsupported,
    /// `eglChooseConfig` failed.
    ConfigFailed,
    /// `eglChooseConfig` succeeded and matched nothing.
    NoAvailablePixelFormat,
    /// `eglGetConfigAttrib` failed for the attribute.
    AttributeQueryFailed { attribute: i32 },
    /// The driver reported a value for the attribute that no pixel format holds.
    AttributeOutOfRange { attribute: i32, value: i32 },
    /// The three colour channels together have more bits than a pixel format
    /// can count.
    ColorBitsOutOfRange { bits: i32 },
    /// The driver rejected the context attributes.
    CreationFailed,
    /// Context creation failed with another `eglGetError` value.
    Unknown { code: u32 },
    /// `eglCreateWindowSurface` returned no surface: the native window is not
    /// valid.
    SurfaceCreationFailed,
    /// A reply did not answer the call that was pending.
    UnexpectedReply,
}

/// The values of the eight attributes read back from a chosen configuration.
#[derive(Clone, Copy, Debug, PartialEq, Eq)]
pub struct ConfigAttributes {
    pub config_caveat: i32,
    pub red_size: i32,
    pub blue_size: i32,
    pub green_size: i32,
    pub alpha_size: i32,
    pub depth_size: i32,
    pub stencil_size: i32,
    pub samples: i32,
}

/// `version` is at least `major.minor`, compared as EGL compares versions.
pub open spec fn version_at_least(version: (i32, i32), major: i32, minor: i32) -> bool {
    version.0 > major || (version.0 == major && version.1 >= minor)
}

/// Number of bits asked of the red channel for `color` colour bits.
pub open spec fn red_bits(color: u8) -> int {
    color as int / 3
}

/// Number of bits asked of the green channel: it takes the first spare bit.
pub open spec fn green_bits(color: u8) -> int {
    color as int / 3 + if color as int % 3 != 0 { 1int } else { 0int }
}

/// Number of bits asked of the blue channel: it takes the second spare bit.
pub open spec fn blue_bits(color: u8) -> int {
    color as int / 3 + if color as int % 3 == 2 { 1int } else { 0int }
}

/// The three channels together ask for exactly the colour bits requested.
pub proof fn lemma_channel_split_is_exact(color: u8)
    ensures
        red_bits(color) + green_bits(color) + blue_bits(color) == color as int,
        red_bits(color) <= blue_bits(color) <= green_bits(color) <= red_bits(color) + 1,
{
}

/// The request for, or against, hardware acceleration.
pub open spec fn caveat_attributes(hardware_accelerated: Option<bool>) -> Seq<i32> {
    match hardware_accelerated {
        Some(true) => seq![ffi::CONFIG_CAVEAT, ffi::NONE],
        Some(false) => seq![ffi::CONFIG_CAVEAT, ffi::SLOW_CONFIG],
        None => seq![],
    }
}

/// The request for colour bits, split over the three channels.
pub open spec fn color_attributes(color_bits: Option<u8>) -> Seq<i32> {
    match color_bits {
        Some(color) => seq![
            ffi::RED_SIZE,
            red_bits(color) as i32,
            ffi::GREEN_SIZE,
            green_bits(color) as i32,
            ffi::BLUE_SIZE,
            blue_bits(color) as i32,
        ],
        None => seq![],
    }
}

/// An optional size request: the attribute name and the size, or nothing.
pub open spec fn size_attributes(name: i32, size: Option<int>) -> Seq<i32> {
    match size {
        Some(bits) => seq![name, bits as i32],
        None => seq![],
    }
}

/// A size of eight bits as a number.
pub open spec fn widen8(size: Option<u8>) -> Option<int> {
    match size {
        Some(bits) => Some(bits as int),
        None => None,
    }
}

/// A size of sixteen bits as a number.
pub open spec fn widen16(size: Option<u16>) -> Option<int> {
    match size {
        Some(bits) => Some(bits as int),
        None => None,
    }
}

/// The part of a configuration request that comes from the requirements, in
/// the order the driver is given it.
pub open spec fn requirement_attributes(reqs: PixelFormatRequirements) -> Seq<i32> {
    caveat_attributes(reqs.hardware_accelerated) + color_attributes(reqs.color_bits)
        + size_attributes(ffi::ALPHA_SIZE, widen8(reqs.alpha_bits)) + size_attributes(
        ffi::DEPTH_SIZE,
        widen8(reqs.depth_bits),
    ) + size_attributes(ffi::STENCIL_SIZE, widen8(reqs.stencil_bits)) + size_attributes(
        ffi::SAMPLES,
        widen16(reqs.multisampling),
    )
}

/// The request for an RGB colour buffer, which EGL knows of from version 1.2.
pub open spec fn buffer_type_attributes(egl_version: (i32, i32)) -> Seq<i32> {
    if version_at_least(egl_version, 1, 2) {
        seq![ffi::COLOR_BUFFER_TYPE, ffi::RGB_BUFFER]
    } else {
        seq![]
    }
}

/// The bit that stands for the client API version.
pub open spec fn renderable_bit(version: (u8, u8)) -> i32 {
    if version.0 == 3 {
        ffi::OPENGL_ES3_BIT
    } else {
        ffi::OPENGL_ES2_BIT
    }
}

/// The request for a configuration that renders, and conforms to, the client
/// API version.
pub open spec fn renderable_attributes(version: (u8, u8)) -> Seq<i32> {
    seq![
        ffi::RENDERABLE_TYPE,
        renderable_bit(version),
        ffi::CONFORMANT,
        renderable_bit(version),
    ]
}

/// Why no configuration request can be made, if none can: the client API
/// version is checked first, the stereoscopy request second.
pub open spec fn config_request_error(
    egl_version: (i32, i32),
    version: (u8, u8),
    reqs: PixelFormatRequirements,
) -> Option<ContextError> {
    if (version.0 != 3 && version.0 != 2) || !version_at_least(egl_version, 1, 3) {
        Some(ContextError::OpenGlVersionNotSupported { major: version.0, minor: version.1 })
    } else if reqs.stereoscopy {
        Some(ContextError::StereoscopyUnsupported)
    } else {
        None
    }
}

/// The attribute list of a configuration request: buffer type, surface
/// usability as a window, renderable API, the requirements, the terminator.
pub open spec fn config_request(
    egl_version: (i32, i32),
    version: (u8, u8),
    reqs: PixelFormatRequirements,
) -> Seq<i32> {
    buffer_type_attributes(egl_version) + seq![ffi::SURFACE_TYPE, ffi::WINDOW_BIT]
        + renderable_attributes(version) + requirement_attributes(reqs) + seq![ffi::NONE]
}

/// The attribute list of a context request.
pub open spec fn context_request(
    egl_version: (i32, i32),
    create_context_extension: bool,
    version: (u8, u8),
) -> Seq<i32> {
    if version_at_least(egl_version, 1, 5) || create_context_extension {
        seq![
            ffi::CONTEXT_MAJOR_VERSION,
            version.0 as i32,
            ffi::CONTEXT_MINOR_VERSION,
            version.1 as i32,
            ffi::CONTEXT_FLAGS_KHR,
            0i32,
            ffi::NONE,
        ]
    } else if version_at_least(egl_version, 1, 3) {
        seq![ffi::CONTEXT_CLIENT_VERSION, version.0 as i32, ffi::NONE]
    } else {
        seq![ffi::NONE]
    }
}

/// The attribute list of a surface request.
pub open spec fn surface_request(double_buffer: Option<bool>) -> Seq<i32> {
    match double_buffer {
        Some(true) => seq![ffi::RENDER_BUFFER, ffi::BACK_BUFFER, ffi::NONE],
        Some(false) => seq![ffi::RENDER_BUFFER, ffi::SINGLE_BUFFER, ffi::NONE],
        None => seq![ffi::NONE],
    }
}

/// Whether `version` is at least `major.minor`.
pub fn egl_version_at_least(version: (i32, i32), major: i32, minor: i32) -> (r: bool)
    ensures
        r == version_at_least(version, major, minor),
{
    version.0 > major || (version.0 == major && version.1 >= minor)
}

impl Default for PixelFormatRequirements {
    /// Hardware-accelerated, 24 colour bits, 8 alpha bits, 24 depth bits,
    /// 8 stencil bits, double buffered, no multisampling, no stereoscopy.
    fn default() -> (reqs: Self)
        ensures
            reqs == (PixelFormatRequirements {
                hardware_accelerated: Some(true),
                color_bits: Some(24u8),
                float_color_buffer: false,
                alpha_bits: Some(8u8),
                depth_bits: Some(24u8),
                stencil_bits: Some(8u8),
                double_buffer: Some(true),
                multisampling: None,
                stereoscopy: false,
            }),
    {
        PixelFormatRequirements {
            hardware_accelerated: Some(true),
            color_bits: Some(24),
            float_color_buffer: false,
            alpha_bits: Some(8),
            depth_bits: Some(24),
            stencil_bits: Some(8),
            double_buffer: Some(true),
            multisampling: None,
            stereoscopy: false,
        }
    }
}

fn push_size(out: &mut Vec<i32>, name: i32, size: Option<i32>)
    ensures
        final(out)@ == old(out)@ + size_attributes(
            name,
            match size {
                Some(bits) => Some(bits as int),
                None => None,
            },
        ),
{
    if let Some(bits) = size {
        out.push(name);
        out.push(bits);
    }
}

fn push_caveat(out: &mut Vec<i32>, hardware_accelerated: Option<bool>)
    ensures
        final(out)@ == old(out)@ + caveat_attributes(hardware_accelerated),
{
    match hardware_accelerated {
        Some(true) => {
            out.push(ffi::CONFIG_CAVEAT);
            out.push(ffi::NONE);
        },
        Some(false) => {
            out.push(ffi::CONFIG_CAVEAT);
            out.push(ffi::SLOW_CONFIG);
        },
        None => {},
    }
}

fn push_color(out: &mut Vec<i32>, color_bits: Option<u8>)
    ensures
        final(out)@ == old(out)@ + color_attributes(color_bits),
{
    if let Some(color) = color_bits {
        let third: u8 = color / 3;
        let rest: u8 = color % 3;
        let green: u8 = third + if rest != 0 { 1u8 } else { 0u8 };
        let blue: u8 = third + if rest == 2 { 1u8 } else { 0u8 };
        out.push(ffi::RED_SIZE);
        out.push(third as i32);
        out.push(ffi::GREEN_SIZE);
        out.push(green as i32);
        out.push(ffi::BLUE_SIZE);
        out.push(blue as i32);
    }
}

fn widen_u8(size: Option<u8>) -> (r: Option<i32>)
    ensures
        r == (match size {
            Some(bits) => Some(bits as i32),
            None => None,
        }),
{
    match size {
        Some(bits) => Some(bits as i32),
        None => None,
    }
}

fn widen_u16(size: Option<u16>) -> (r: Option<i32>)
    ensures
        r == (match size {
            Some(bits) => Some(bits as i32),
            None => None,
        }),
{
    match size {
        Some(bits) => Some(bits as i32),
        None => None,
    }
}

fn push_requirements(out: &mut Vec<i32>, reqs: &PixelFormatRequirements)
    ensures
        final(out)@ == old(out)@ + requirement_attributes(*reqs),
{
    push_caveat(out, reqs.hardware_accelerated);
    push_color(out, reqs.color_bits);
    push_size(out, ffi::ALPHA_SIZE, widen_u8(reqs.alpha_bits));
    push_size(out, ffi::DEPTH_SIZE, widen_u8(reqs.depth_bits));
    push_size(out, ffi::STENCIL_SIZE, widen_u8(reqs.stencil_bits));
    push_size(out, ffi::SAMPLES, widen_u16(reqs.multisampling));
}

fn push_head(out: &mut Vec<i32>, egl_version: (i32, i32), version: (u8, u8))
    requires
        version.0 == 2 || version.0 == 3,
    ensures
        final(out)@ == old(out)@ + (buffer_type_attributes(egl_version) + seq![
            ffi::SURFACE_TYPE,
            ffi::WINDOW_BIT,
        ] + renderable_attributes(version)),
{
    if egl_version_at_least(egl_version, 1, 2) {
        out.push(ffi::COLOR_BUFFER_TYPE);
        out.push(ffi::RGB_BUFFER);
    }
    out.push(ffi::SURFACE_TYPE);
    out.push(ffi::WINDOW_BIT);
    let bit: i32 = if version.0 == 3 {
        ffi::OPENGL_ES3_BIT
    } else {
        ffi::OPENGL_ES2_BIT
    };
    out.push(ffi::RENDERABLE_TYPE);
    out.push(bit);
    out.push(ffi::CONFORMANT);
    out.push(bit);
}

/// Builds the attribute list for `eglChooseConfig`, or says why none can be
/// built.
pub fn config_attributes(
    egl_version: (i32, i32),
    version: (u8, u8),
    reqs: &PixelFormatRequirements,
) -> (r: Result<Vec<i32>, ContextError>)
    ensures
        match config_request_error(egl_version, version, *reqs) {
            Some(e) => r == Err::<Vec<i32>, ContextError>(e),
            None => r is Ok && r->Ok_0@ == config_request(egl_version, version, *reqs),
        },
{
    if (version.0 != 3 && version.0 != 2) || !egl_version_at_least(egl_version, 1, 3) {
        return Err(ContextError::OpenGlVersionNotSupported { major: version.0, minor: version.1 });
    }
    if reqs.stereoscopy {
        return Err(ContextError::StereoscopyUnsupported);
    }
    let mut out: Vec<i32> = Vec::new();
    push_head(&mut out, egl_version, version);
    push_requirements(&mut out, reqs);
    out.push(ffi::NONE);
    Ok(out)
}

/// Builds the attribute list for `eglCreateContext`.
pub fn context_attributes(
    egl_version: (i32, i32),
    create_context_extension: bool,
    version: (u8, u8),
) -> (out: Vec<i32>)
    ensures
        out@ == context_request(egl_version, create_context_extension, version),
{
    let mut out: Vec<i32> = Vec::new();
    if egl_version_at_least(egl_version, 1, 5) || create_context_extension {
        out.push(ffi::CONTEXT_MAJOR_VERSION);
        out.push(version.0 as i32);
        out.push(ffi::CONTEXT_MINOR_VERSION);
        out.push(version.1 as i32);
        out.push(ffi::CONTEXT_FLAGS_KHR);
        out.push(0);
    } else if egl_version_at_least(egl_version, 1, 3) {
        out.push(ffi::CONTEXT_CLIENT_VERSION);
        out.push(version.0 as i32);
    }
    out.push(ffi::NONE);
    out
}

/// Builds the attribute list for `eglCreateWindowSurface`.
pub fn surface_attributes(double_buffer: Option<bool>) -> (out: Vec<i32>)
    ensures
        out@ == surface_request(double_buffer),
{
    let mut out: Vec<i32> = Vec::new();
    match double_buffer {
        Some(true) => {
            out.push(ffi::RENDER_BUFFER);
            out.push(ffi::BACK_BUFFER);
        },
        Some(false) => {
            out.push(ffi::RENDER_BUFFER);
            out.push(ffi::SINGLE_BUFFER);
        },
        None => {},
    }
    out.push(ffi::NONE);
    out
}

/// Whether `value` can stand in a field of eight bits.
pub open spec fn fits_u8(value: i32) -> bool {
    0 <= value <= 255
}

impl ConfigAttributes {
    /// The sum of the three colour channel sizes.
    pub open spec fn color_sum(self) -> int {
        self.red_size + self.green_size + self.blue_size
    }

    /// The first reason, in query order, for which these values describe no
    /// pixel format: a size that is negative or too large for its field, or
    /// colour channels that together exceed eight bits of count.
    pub open spec fn range_error(self) -> Option<ContextError> {
        if !fits_u8(self.red_size) {
            Some(ContextError::AttributeOutOfRange { attribute: ffi::RED_SIZE, value: self.red_size })
        } else if !fits_u8(self.blue_size) {
            Some(
                ContextError::AttributeOutOfRange {
                    attribute: ffi::BLUE_SIZE,
                    value: self.blue_size,
                },
            )
        } else if !fits_u8(self.green_size) {
            Some(
                ContextError::AttributeOutOfRange {
                    attribute: ffi::GREEN_SIZE,
                    value: self.green_size,
                },
            )
        } else if self.color_sum() > 255 {
            Some(ContextError::ColorBitsOutOfRange { bits: self.color_sum() as i32 })
        } else if !fits_u8(self.alpha_size) {
            Some(
                ContextError::AttributeOutOfRange {
                    attribute: ffi::ALPHA_SIZE,
                    value: self.alpha_size,
                },
            )
        } else if !fits_u8(self.depth_size) {
            Some(
                ContextError::AttributeOutOfRange {
                    attribute: ffi::DEPTH_SIZE,
                    value: self.depth_size,
                },
            )
        } else if !fits_u8(self.stencil_size) {
            Some(
                ContextError::AttributeOutOfRange {
                    attribute: ffi::STENCIL_SIZE,
                    value: self.stencil_size,
                },
            )
        } else if !(0 <= self.samples <= 65535) {
            Some(ContextError::AttributeOutOfRange { attribute: ffi::SAMPLES, value: self.samples })
        } else {
            None
        }
    }

    /// The pixel format these values describe. A sample count of 0 or 1 means
    /// that multisampling is disabled.
    pub open spec fn pixel_format(self) -> PixelFormat {
        PixelFormat {
            hardware_accelerated: self.config_caveat != ffi::SLOW_CONFIG,
            color_bits: self.color_sum() as u8,
            alpha_bits: self.alpha_size as u8,
            depth_bits: self.depth_size as u8,
            stencil_bits: self.stencil_size as u8,
            stereoscopy: false,
            double_buffer: true,
            multisampling: if self.samples == 0 || self.samples == 1 {
                None
            } else {
                Some(self.samples as u16)
            },
            srgb: false,
        }
    }
}

impl PixelFormat {
    /// Derives the pixel format from the attribute values read back from the
    /// chosen configuration.
    pub fn from_config(attrs: &ConfigAttributes) -> (r: Result<PixelFormat, ContextError>)
        ensures
            match attrs.range_error() {
                Some(e) => r == Err::<PixelFormat, ContextError>(e),
                None => r == Ok::<PixelFormat, ContextError>(attrs.pixel_format()),
            },
            r is Ok ==> r->Ok_0.color_bits == attrs.red_size + attrs.green_size + attrs.blue_size,
            r is Ok ==> (r->Ok_0.multisampling is None <==> attrs.samples == 0 || attrs.samples
                == 1),
    {
        if attrs.red_size < 0 || attrs.red_size > 255 {
            return Err(
                ContextError::AttributeOutOfRange {
                    attribute: ffi::RED_SIZE,
                    value: attrs.red_size,
                },
            );
        }
        if attrs.blue_size < 0 || attrs.blue_size > 255 {
            return Err(
                ContextError::AttributeOutOfRange {
                    attribute: ffi::BLUE_SIZE,
                    value: attrs.blue_size,
                },
            );
        }
        if attrs.green_size < 0 || attrs.green_size > 255 {
            return Err(
                ContextError::AttributeOutOfRange {
                    attribute: ffi::GREEN_SIZE,
                    value: attrs.green_size,
                },
            );
        }
        let color: i32 = attrs.red_size + attrs.blue_size + attrs.green_size;
        if color > 255 {
            return Err(ContextError::ColorBitsOutOfRange { bits: color });
        }
        if attrs.alpha_size < 0 || attrs.alpha_size > 255 {
            return Err(
                ContextError::AttributeOutOfRange {
                    attribute: ffi::ALPHA_SIZE,
                    value: attrs.alpha_size,
                },
            );
        }
        if attrs.depth_size < 0 || attrs.depth_size > 255 {
            return Err(
                ContextError::AttributeOutOfRange {
                    attribute: ffi::DEPTH_SIZE,
                    value: attrs.depth_size,
                },
            );
        }
        if attrs.stencil_size < 0 || attrs.stencil_size > 255 {
            return Err(
                ContextError::AttributeOutOfRange {
                    attribute: ffi::STENCIL_SIZE,
                    value: attrs.stencil_size,
                },
            );
        }
        if attrs.samples < 0 || attrs.samples > 65535 {
            return Err(
                ContextError::AttributeOutOfRange { attribute: ffi::SAMPLES, value: attrs.samples },
            );
        }
        Ok(
            PixelFormat {
                hardware_accelerated: attrs.config_caveat != ffi::SLOW_CONFIG,
                color_bits: color as u8,
                alpha_bits: attrs.alpha_size as u8,
                depth_bits: attrs.depth_size as u8,
                stencil_bits: attrs.stencil_size as u8,
                stereoscopy: false,
                double_buffer: true,
                multisampling: if attrs.samples == 0 || attrs.samples == 1 {
                    None
                } else {
                    Some(attrs.samples as u16)
                },
                srgb: false,
            },
        )
    }
}

} // verus!
