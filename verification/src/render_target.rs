//! The targets of a render pass: one framebuffer for each image of the
//! swapchain, and the viewport that covers them.

use vstd::prelude::*;
use vulkano::format::Format;
use crate::graphic_engine::Graphicengine;

verus! {

/// A width and a height, in pixels.
#[derive(Clone, Copy, Debug, PartialEq, Eq, Structural)]
pub struct Extent {
    pub width: u32,
    pub height: u32,
}

/// The rectangle that is drawn to, and the range of its depth values.
#[derive(Clone, Copy, Debug, PartialEq, Eq, Structural)]
pub struct Viewport {
    pub origin_x: u32,
    pub origin_y: u32,
    pub dimensions: Extent,
    pub depth_near: u32,
    pub depth_far: u32,
}

/// A render pass of one subpass with one colour attachment, which is
/// cleared when the pass begins and stored when it ends.
#[derive(Clone, Copy, Debug, PartialEq, Eq)]
pub struct RenderPass {
    pub color_format: Format,
    pub samples: u32,
}

/// A render pass bound to the view of one image of the swapchain.
#[derive(Clone, Copy, Debug, PartialEq, Eq)]
pub struct Framebuffer {
    pub render_pass: RenderPass,
    /// The place of the image among the images of the swapchain.
    pub image_index: usize,
    pub extent: Extent,
}

/// The set of images handed over is empty, so there is no first image to
/// take the dimensions from.
#[derive(Clone, Copy, Debug, PartialEq, Eq, Structural)]
pub struct NoSwapchainImages;

/// The framebuffers of `images`: the i-th is bound to the i-th image.
pub open spec fn framebuffers_of(images: Seq<Extent>, render_pass: RenderPass) -> Seq<Framebuffer> {
    Seq::new(
        images.len(),
        |i: int| Framebuffer { render_pass, image_index: i as usize, extent: images[i] },
    )
}

/// `viewport` resized to `dimensions`, its origin and depth range kept.
pub open spec fn resized(viewport: Viewport, dimensions: Extent) -> Viewport {
    Viewport { dimensions, ..viewport }
}

impl Viewport {
    /// The viewport at the origin, with no extent yet and the full depth
    /// range.
    pub fn new() -> (v: Viewport)
        ensures
            v == (Viewport {
                origin_x: 0,
                origin_y: 0,
                dimensions: Extent { width: 0, height: 0 },
                depth_near: 0,
                depth_far: 1,
            }),
    {
        Viewport {
            origin_x: 0,
            origin_y: 0,
            dimensions: Extent { width: 0, height: 0 },
            depth_near: 0,
            depth_far: 1,
        }
    }
}

impl Graphicengine {
    /// Builds one framebuffer for each image and gives the viewport the
    /// dimensions of the first image. With no image nothing is built and
    /// the viewport stays as it is.
    pub fn window_size_dependent_setup(
        images: &Vec<Extent>,
        render_pass: RenderPass,
        viewport: &mut Viewport,
    ) -> (r: Result<Vec<Framebuffer>, NoSwapchainImages>)
        ensures
            images@.len() == 0 ==> r is Err && *final(viewport) == *old(viewport),
            images@.len() > 0 ==> r is Ok && r->Ok_0@ == framebuffers_of(images@, render_pass)
                && *final(viewport) == resized(*old(viewport), images@[0]),
    {
        if images.len() == 0 {
            return Err(NoSwapchainImages);
        }
        viewport.dimensions = images[0];
        let mut framebuffers: Vec<Framebuffer> = Vec::new();
        let mut i: usize = 0;
        while i < images.len()
            invariant
                i <= images.len(),
                framebuffers@ == framebuffers_of(images@.take(i as int), render_pass),
            decreases images.len() - i,
        {
            framebuffers.push(Framebuffer { render_pass, image_index: i, extent: images[i] });
            i += 1;
        }
        Ok(framebuffers)
    }
}

} // verus!
