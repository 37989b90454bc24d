//! The presentable images of the window and what is rebuilt with them.

use vstd::prelude::*;
use crate::app::Dimensions;

verus! {

/// A swapchain with its render pass and one framebuffer per presentable
/// image, by their raw handles. It is never patched: a resize replaces it
/// whole.
#[derive(Debug, PartialEq, Eq)]
pub struct VulkanSwapchain {
    pub extent: Dimensions,
    pub render_pass: u64,
    pub framebuffers: Vec<u64>,
}

/// What contracts say of a `VulkanSwapchain`.
pub struct SwapchainState {
    pub extent: Dimensions,
    pub render_pass: u64,
    pub framebuffers: Seq<u64>,
}

impl View for VulkanSwapchain {
    type V = SwapchainState;

    open spec fn view(&self) -> SwapchainState {
        SwapchainState {
            extent: self.extent,
            render_pass: self.render_pass,
            framebuffers: self.framebuffers@,
        }
    }
}

impl VulkanSwapchain {
    /// The swapchain of a window of size `dimensions` whose images are
    /// rendered to through `framebuffers`. `None` where there is no image.
    pub fn new(dimensions: Dimensions, render_pass: u64, framebuffers: Vec<u64>) -> (swapchain:
        Option<Self>)
        ensures
            swapchain is Some <==> framebuffers@.len() >= 1,
            swapchain matches Some(swapchain) ==> swapchain@ == (SwapchainState {
                extent: dimensions,
                render_pass,
                framebuffers: framebuffers@,
            }),
    {
        if framebuffers.len() == 0 {
            None
        } else {
            Some(VulkanSwapchain { extent: dimensions, render_pass, framebuffers })
        }
    }

    /// The number of presentable images.
    pub fn image_count(&self) -> (count: usize)
        ensures
            count == self@.framebuffers.len(),
    {
        self.framebuffers.len()
    }
}

} // verus!
