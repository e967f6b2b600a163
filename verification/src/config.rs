use vstd::prelude::*;
use wgpu::TextureFormat;

use crate::surface::is_srgb_format;

verus! {

/// The debugging and validation that the graphics instance is created with.
#[derive(Debug, Clone, Copy, PartialEq, Eq, Structural)]
pub enum InstanceDebugging {
    /// No debugging flags.
    Off,
    /// wgpu's debugging flags: debug labels and API validation.
    Debugging,
    /// wgpu's advanced debugging flags: the debugging flags and GPU-based validation.
    AdvancedDebugging,
}

/// The surface formats a renderer can prefer.
#[derive(Debug, Clone, Copy, PartialEq, Eq, Structural)]
pub enum SurfaceFormat {
    /// Blue, green, red, alpha; 8 bits a channel; sRGB encoded.
    Bgra8UnormSrgb,
    /// Blue, green, red, alpha; 8 bits a channel; linear.
    Bgra8Unorm,
    /// Red, green, blue, alpha; 8 bits a channel; sRGB encoded.
    Rgba8UnormSrgb,
    /// Red, green, blue, alpha; 8 bits a channel; linear.
    Rgba8Unorm,
}

impl SurfaceFormat {
    /// Whether the format is sRGB encoded.
    pub open spec fn is_srgb(self) -> bool {
        self == SurfaceFormat::Bgra8UnormSrgb || self == SurfaceFormat::Rgba8UnormSrgb
    }
}

/// The `wgpu::TextureFormat` variant of the same name as `format`.
pub uninterp spec fn wgpu_format(format: SurfaceFormat) -> TextureFormat;

/// Converts to the `wgpu::TextureFormat` variant of the same name, one arm per variant.
/// By `wgpu::TextureFormat::is_srgb` (which compares a format with the format that
/// `remove_srgb_suffix` gives), the two `Srgb` variants are sRGB formats and the other two
/// are not.
#[verifier::external_body]
fn to_wgpu_format(format: SurfaceFormat) -> (converted: TextureFormat)
    ensures
        converted == wgpu_format(format),
        is_srgb_format(converted) == format.is_srgb(),
{
    match format {
        SurfaceFormat::Bgra8UnormSrgb => TextureFormat::Bgra8UnormSrgb,
        SurfaceFormat::Bgra8Unorm => TextureFormat::Bgra8Unorm,
        SurfaceFormat::Rgba8UnormSrgb => TextureFormat::Rgba8UnormSrgb,
        SurfaceFormat::Rgba8Unorm => TextureFormat::Rgba8Unorm,
    }
}

/// How the renderer is set up.
#[derive(Debug, Clone, Copy)]
pub struct RendererConfig {
    vsync: bool,
    validate: bool,
    validate_gpu: bool,
    surface_format: SurfaceFormat,
}

impl RendererConfig {
    pub closed spec fn spec_vsync(self) -> bool {
        self.vsync
    }

    pub closed spec fn spec_validate(self) -> bool {
        self.validate
    }

    pub closed spec fn spec_validate_gpu(self) -> bool {
        self.validate_gpu
    }

    pub closed spec fn spec_surface_format(self) -> SurfaceFormat {
        self.surface_format
    }

    /// The debugging the graphics instance gets: none without validation, and GPU-based
    /// validation on top of the debugging flags only when both are asked for.
    pub open spec fn spec_debugging(self) -> InstanceDebugging {
        if !self.spec_validate() {
            InstanceDebugging::Off
        } else if self.spec_validate_gpu() {
            InstanceDebugging::AdvancedDebugging
        } else {
            InstanceDebugging::Debugging
        }
    }

    /// The debugging flags for the graphics instance.
    pub fn instance_debugging(&self) -> (debugging: InstanceDebugging)
        ensures
            debugging == self.spec_debugging(),
    {
        if !self.validate {
            InstanceDebugging::Off
        } else if self.validate_gpu {
            InstanceDebugging::AdvancedDebugging
        } else {
            InstanceDebugging::Debugging
        }
    }

    /// The surface format the renderer prefers.
    pub fn preferred_format(&self) -> (format: SurfaceFormat)
        ensures
            format == self.spec_surface_format(),
    {
        self.surface_format
    }

    /// The surface format the renderer prefers, as a `wgpu::TextureFormat`.
    pub fn surface_format(&self) -> (format: TextureFormat)
        ensures
            format == wgpu_format(self.spec_surface_format()),
            is_srgb_format(format) == self.spec_surface_format().is_srgb(),
    {
        to_wgpu_format(self.surface_format)
    }

    /// Whether presentation waits for the display's vertical sync.
    pub fn vsync(&self) -> (vsync: bool)
        ensures
            vsync == self.spec_vsync(),
    {
        self.vsync
    }
}

impl Default for RendererConfig {
    /// Vertical sync and API validation on, GPU-based validation off, and the sRGB
    /// surface format BGRA with 8 bits a channel preferred.
    fn default() -> (config: RendererConfig)
        ensures
            config.spec_vsync(),
            config.spec_validate(),
            !config.spec_validate_gpu(),
            config.spec_surface_format() == SurfaceFormat::Bgra8UnormSrgb,
    {
        RendererConfig {
            vsync: true,
            validate: true,
            validate_gpu: false,
            surface_format: SurfaceFormat::Bgra8UnormSrgb,
        }
    }
}

} // verus!
