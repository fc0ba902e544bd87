//! The configuration of the swapchain, derived from what the surface
//! supports and from the size of the window.

use vstd::prelude::*;
use vulkano::format::Format;
use vulkano::image::ImageUsage;
use vulkano::swapchain::SupportedCompositeAlpha;
use crate::graphic_engine::Graphicengine;
use crate::render_target::Extent;
use crate::vulkan::{alpha_modes, first_alpha_mode, first_composite_alpha, AlphaMode};

verus! {

/// How the components of a format are stored and read.
#[derive(Clone, Copy, Debug, PartialEq, Eq, Structural)]
pub enum NumericType {
    /// Signed floating point.
    Sfloat,
    /// Unsigned floating point.
    Ufloat,
    /// Signed integer.
    Sint,
    /// Unsigned integer.
    Uint,
    /// Signed integer, read as a value between -1 and 1.
    Snorm,
    /// Unsigned integer, read as a value between 0 and 1.
    Unorm,
    /// Signed integer, read as the floating-point number of the same value.
    Sscaled,
    /// Unsigned integer, read as the floating-point number of the same value.
    Uscaled,
    /// Unsigned integer, read as a value between 0 and 1 in the sRGB colour
    /// space.
    Srgb,
}

/// A format that the surface reports, with what the choice between the
/// formats reads of it.
#[derive(Clone, Copy, Debug, PartialEq, Eq)]
pub struct SurfaceFormat {
    pub format: Format,
    /// The numeric type of the colour components of the format; `None` for a
    /// format that holds no colour.
    pub color_type: Option<NumericType>,
}

/// What the chosen adapter reports for the surface.
#[derive(Debug)]
pub struct SurfaceCapabilities {
    pub min_image_count: u32,
    pub supported_usage_flags: ImageUsage,
    pub supported_composite_alpha: SupportedCompositeAlpha,
    /// The formats of the surface, in the order reported.
    pub supported_formats: Vec<SurfaceFormat>,
}

/// How a swapchain is to be made.
#[derive(Clone, Copy, Debug, PartialEq, Eq)]
pub struct SwapchainConfig {
    pub min_image_count: u32,
    pub image_format: Format,
    pub image_extent: Extent,
    pub image_usage: ImageUsage,
    pub composite_alpha: AlphaMode,
}

/// Why no configuration can be derived from the capabilities of a surface.
#[derive(Clone, Copy, Debug, PartialEq, Eq, Structural)]
pub enum SwapchainError {
    /// The surface supports no composite-alpha mode.
    NoCompositeAlpha,
    /// The surface reports no format.
    NoSurfaceFormat,
}

/// A standard colour format: one whose colour components are unsigned
/// normalized integers, in the sRGB colour space or linear.
pub open spec fn is_standard(format: SurfaceFormat) -> bool {
    format.color_type == Some(NumericType::Srgb) || format.color_type == Some(NumericType::Unorm)
}

/// No format of `formats` before the place `n` is standard.
pub open spec fn none_standard_before(formats: Seq<SurfaceFormat>, n: int) -> bool {
    forall|j: int| 0 <= j < n && j < formats.len() ==> !is_standard(#[trigger] formats[j])
}

/// `k` is the place of the preferred format among `formats`: of the first
/// standard format, or of the first format where none is standard.
pub open spec fn is_preferred_format(formats: Seq<SurfaceFormat>, k: int) -> bool {
    &&& 0 <= k < formats.len()
    &&& none_standard_before(formats, k)
    &&& is_standard(formats[k]) || k == 0 && none_standard_before(formats, formats.len() as int)
}

/// The place of the preferred format among `formats`, where there is any
/// format.
pub open spec fn preferred_format_index(formats: Seq<SurfaceFormat>) -> int {
    choose|k: int| is_preferred_format(formats, k)
}

/// The configuration for a surface with these capabilities and a window of
/// this extent: the least image count and the usage flags as reported, the
/// preferred one of the reported formats, the first supported alpha mode.
pub open spec fn swapchain_for(capabilities: SurfaceCapabilities, window_extent: Extent) -> Result<
    SwapchainConfig,
    SwapchainError,
> {
    match first_alpha_mode(alpha_modes(capabilities.supported_composite_alpha)) {
        None => Err(SwapchainError::NoCompositeAlpha),
        Some(composite_alpha) => if capabilities.supported_formats@.len() == 0 {
            Err(SwapchainError::NoSurfaceFormat)
        } else {
            Ok(
                SwapchainConfig {
                    min_image_count: capabilities.min_image_count,
                    image_format: capabilities.supported_formats@[preferred_format_index(
                        capabilities.supported_formats@,
                    )].format,
                    image_extent: window_extent,
                    image_usage: capabilities.supported_usage_flags,
                    composite_alpha,
                },
            )
        },
    }
}

/// `config` with its extent replaced and everything else kept.
pub open spec fn with_extent(config: SwapchainConfig, image_extent: Extent) -> SwapchainConfig {
    SwapchainConfig { image_extent, ..config }
}

/// The place of the preferred format is determined by the formats: there
/// are no two of them, and `preferred_format_index` is the one.
pub proof fn lemma_preferred_format_is_unique(formats: Seq<SurfaceFormat>, k: int)
    requires
        is_preferred_format(formats, k),
    ensures
        preferred_format_index(formats) == k,
        forall|other: int| is_preferred_format(formats, other) ==> other == k,
{
    assert forall|other: int| is_preferred_format(formats, other) implies other == k by {
        if other < k {
            assert(!is_standard(formats[other]));
        } else if k < other {
            assert(!is_standard(formats[k]));
        }
    }
}

/// A standard format is preferred to every other: where the surface
/// reports one, the preferred format is standard, and no standard format
/// stands before it.
pub proof fn lemma_standard_format_is_preferred(formats: Seq<SurfaceFormat>, standard: int)
    requires
        0 <= standard < formats.len(),
        is_standard(formats[standard]),
    ensures
        0 <= preferred_format_index(formats) <= standard,
        is_standard(formats[preferred_format_index(formats)]),
    decreases standard,
{
    if none_standard_before(formats, standard) {
        lemma_preferred_format_is_unique(formats, standard);
    } else {
        let earlier = choose|j: int| 0 <= j < standard && is_standard(#[trigger] formats[j]);
        lemma_standard_format_is_preferred(formats, earlier);
    }
}

/// Where the surface reports formats and none of them is standard, the
/// preferred format is the first that it reports.
pub proof fn lemma_first_format_is_preferred_without_standard(formats: Seq<SurfaceFormat>)
    requires
        formats.len() > 0,
        none_standard_before(formats, formats.len() as int),
    ensures
        preferred_format_index(formats) == 0,
{
    lemma_preferred_format_is_unique(formats, 0);
}

/// Whether the colour components of the format are unsigned normalized
/// integers, in the sRGB colour space or linear.
pub fn is_standard_format(format: &SurfaceFormat) -> (r: bool)
    ensures
        r == is_standard(*format),
{
    match format.color_type {
        Some(NumericType::Srgb) => true,
        Some(NumericType::Unorm) => true,
        _ => false,
    }
}

/// The place of the format to present with: of the first standard format
/// that the surface reports, or of the first format where it reports no
/// standard one. `None` where it reports no format at all.
pub fn preferred_format(formats: &Vec<SurfaceFormat>) -> (r: Option<usize>)
    ensures
        r is None <==> formats@.len() == 0,
        r is Some ==> is_preferred_format(formats@, r->Some_0 as int),
        r is Some ==> r->Some_0 == preferred_format_index(formats@),
{
    if formats.len() == 0 {
        return None;
    }
    let mut i: usize = 0;
    while i < formats.len()
        invariant
            i <= formats.len(),
            formats@.len() > 0,
            none_standard_before(formats@, i as int),
        decreases formats.len() - i,
    {
        if is_standard_format(&formats[i]) {
            proof {
                lemma_preferred_format_is_unique(formats@, i as int);
            }
            return Some(i);
        }
        i += 1;
    }
    proof {
        lemma_preferred_format_is_unique(formats@, 0);
    }
    Some(0)
}

impl Graphicengine {
    /// Derives the configuration of the first swapchain.
    pub fn get_swapchain(capabilities: &SurfaceCapabilities, window_extent: Extent) -> (r: Result<
        SwapchainConfig,
        SwapchainError,
    >)
        ensures
            r == swapchain_for(*capabilities, window_extent),
    {
        let composite_alpha = match first_composite_alpha(&capabilities.supported_composite_alpha) {
            Some(mode) => mode,
            None => {
                return Err(SwapchainError::NoCompositeAlpha);
            },
        };
        let image_format = match preferred_format(&capabilities.supported_formats) {
            Some(index) => capabilities.supported_formats[index].format,
            None => {
                return Err(SwapchainError::NoSurfaceFormat);
            },
        };
        Ok(
            SwapchainConfig {
                min_image_count: capabilities.min_image_count,
                image_format,
                image_extent: window_extent,
                image_usage: capabilities.supported_usage_flags,
                composite_alpha,
            },
        )
    }
}

} // verus!
