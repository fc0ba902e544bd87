//! The items of `vulkano` that the engine computes with, and what is taken
//! on trust about them.

use vstd::prelude::*;
use vulkano::device::DeviceExtensions;
use vulkano::format::Format;
use vulkano::image::ImageUsage;
use vulkano::swapchain::{CompositeAlpha, SupportedCompositeAlpha};

verus! {

/// `vulkano::device::DeviceExtensions`: a set of device extensions, one
/// flag for each extension that Vulkan knows.
#[verifier::external_type_specification]
#[verifier::external_body]
pub struct ExDeviceExtensions(vulkano::device::DeviceExtensions);

/// `vulkano::swapchain::SupportedCompositeAlpha`: a set of composite-alpha
/// modes, one flag for each mode.
#[verifier::external_type_specification]
#[verifier::external_body]
pub struct ExSupportedCompositeAlpha(vulkano::swapchain::SupportedCompositeAlpha);

/// `vulkano::format::Format`: the format of the pixels of an image. The
/// engine hands it on and never looks inside.
#[verifier::external_type_specification]
#[verifier::external_body]
pub struct ExFormat(vulkano::format::Format);

/// `vulkano::image::ImageUsage`: what an image may be used for. The engine
/// hands it on and never looks inside.
#[verifier::external_type_specification]
#[verifier::external_body]
pub struct ExImageUsage(vulkano::image::ImageUsage);

/// How the alpha channel of a presented image is combined with what lies
/// behind the window.
#[derive(Clone, Copy, Debug, PartialEq, Eq, Structural)]
pub enum AlphaMode {
    Opaque,
    PreMultiplied,
    PostMultiplied,
    Inherit,
}

/// What a `DeviceExtensions` holds: the Vulkan names of the extensions
/// whose flags are set in it.
pub uninterp spec fn extension_names(extensions: DeviceExtensions) -> Set<Seq<char>>;

/// What a `SupportedCompositeAlpha` holds: the modes whose flags are set
/// in it.
pub uninterp spec fn alpha_modes(supported: SupportedCompositeAlpha) -> Set<AlphaMode>;

/// The Vulkan name of the swapchain extension.
pub open spec fn khr_swapchain() -> Seq<char> {
    "VK_KHR_swapchain"@
}

/// The first of a set of modes, in the order in which Vulkan lists them.
pub open spec fn first_alpha_mode(modes: Set<AlphaMode>) -> Option<AlphaMode> {
    if modes.contains(AlphaMode::Opaque) {
        Some(AlphaMode::Opaque)
    } else if modes.contains(AlphaMode::PreMultiplied) {
        Some(AlphaMode::PreMultiplied)
    } else if modes.contains(AlphaMode::PostMultiplied) {
        Some(AlphaMode::PostMultiplied)
    } else if modes.contains(AlphaMode::Inherit) {
        Some(AlphaMode::Inherit)
    } else {
        None
    }
}

/// `DeviceExtensions::contains` is the conjunction, over every extension,
/// of "set in `supported` or not set in `required`": it tells whether the
/// extensions of `required` are a subset of those of `supported`.
pub assume_specification[ DeviceExtensions::contains ](
    supported: &DeviceExtensions,
    required: &DeviceExtensions,
) -> (r: bool)
    ensures
        r == extension_names(*required).subset_of(extension_names(*supported)),
;

/// `DeviceExtensions::empty` sets no flag; with the flag `khr_swapchain`
/// set in what it returns, the swapchain extension is the one member.
#[verifier::external_body]
pub(crate) fn swapchain_extensions() -> (e: DeviceExtensions)
    ensures
        extension_names(e) == Set::<Seq<char>>::empty().insert(khr_swapchain()),
{
    DeviceExtensions { khr_swapchain: true, ..DeviceExtensions::empty() }
}

/// `SupportedCompositeAlpha::iter` yields the modes whose flags are set, in
/// the order opaque, pre-multiplied, post-multiplied, inherit. The result
/// is its first item, or `None` where it has none.
#[verifier::external_body]
pub(crate) fn first_composite_alpha(supported: &SupportedCompositeAlpha) -> (r: Option<AlphaMode>)
    ensures
        r == first_alpha_mode(alpha_modes(*supported)),
{
    match supported.iter().next() {
        Some(CompositeAlpha::Opaque) => Some(AlphaMode::Opaque),
        Some(CompositeAlpha::PreMultiplied) => Some(AlphaMode::PreMultiplied),
        Some(CompositeAlpha::PostMultiplied) => Some(AlphaMode::PostMultiplied),
        Some(CompositeAlpha::Inherit) => Some(AlphaMode::Inherit),
        _ => None,
    }
}

} // verus!
