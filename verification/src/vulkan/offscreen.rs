//! The offscreen pass: the scene's depth as a light sees it, rendered before
//! the main pass and sampled there as the shadow map.

use vstd::prelude::*;
use crate::vulkan::command::GpuCommand;
use crate::vulkan::command::append_commands;
use crate::vulkan::descriptor::TextureHandle;
use crate::vulkan::renderer::epilogue;
use crate::vulkan::renderer::prologue;
use crate::vulkan::swapchain::SwapchainState;
use crate::vulkan::swapchain::VulkanSwapchain;

verus! {

/// The constant and the slope-scaled depth bias that keep a surface from
/// shadowing itself, both floats by their bit patterns.
#[derive(Clone, Copy, Debug, PartialEq, Eq, Structural)]
pub struct DepthBias {
    pub constant_factor: u32,
    pub slope_factor: u32,
}

/// The depth-only render pass and framebuffer of the shadow map, by their raw
/// handles, and the depth texture that the main pass samples.
#[derive(Clone, Copy, Debug, PartialEq, Eq, Structural)]
pub struct Offscreen {
    pub render_pass: u64,
    pub framebuffer: u64,
    pub depth_texture: TextureHandle,
}

/// An offscreen pass with the depth bias that it is rendered with.
#[derive(Clone, Copy, Debug, PartialEq, Eq, Structural)]
pub struct ShadowMap {
    pub offscreen: Offscreen,
    pub depth_bias: DepthBias,
}

impl Offscreen {
    /// Width and height of the shadow map, whatever the size of the window.
    pub const DIMENSION: u32 = 2048;

    /// The offscreen pass around the draw commands `draws`: the depth-only
    /// render pass begins over the whole shadow map, viewport, scissor and
    /// depth bias are set, the scene is drawn, and the pass ends.
    pub open spec fn pass(self, depth_bias: DepthBias, draws: Seq<GpuCommand>) -> Seq<GpuCommand> {
        seq![
            GpuCommand::BeginDepthPass {
                render_pass: self.render_pass,
                framebuffer: self.framebuffer,
                width: Self::DIMENSION,
                height: Self::DIMENSION,
            },
            GpuCommand::SetViewport { width: Self::DIMENSION, height: Self::DIMENSION },
            GpuCommand::SetScissor { width: Self::DIMENSION, height: Self::DIMENSION },
            GpuCommand::SetDepthBias {
                constant_factor: depth_bias.constant_factor,
                slope_factor: depth_bias.slope_factor,
            },
        ] + draws + seq![GpuCommand::EndRenderPass]
    }

    /// The recording of a command buffer that renders the shadow map and
    /// then the frame: the command buffer begins, the offscreen pass runs
    /// from its begin to its end, and only then does the main pass begin on
    /// `framebuffer`.
    pub open spec fn recording(
        self,
        depth_bias: DepthBias,
        shadow_draws: Seq<GpuCommand>,
        swapchain: SwapchainState,
        framebuffer: u64,
        draws: Seq<GpuCommand>,
    ) -> Seq<GpuCommand> {
        seq![GpuCommand::BeginCommandBuffer] + self.pass(depth_bias, shadow_draws) + prologue(
            swapchain,
            framebuffer,
        ).subrange(1, 4) + draws + epilogue()
    }

    /// The commands of the offscreen pass around `draws`.
    pub fn record(&self, depth_bias: DepthBias, draws: &Vec<GpuCommand>) -> (commands: Vec<
        GpuCommand,
    >)
        ensures
            commands@ == self.pass(depth_bias, draws@),
    {
        let mut commands: Vec<GpuCommand> = Vec::new();
        commands.push(
            GpuCommand::BeginDepthPass {
                render_pass: self.render_pass,
                framebuffer: self.framebuffer,
                width: Self::DIMENSION,
                height: Self::DIMENSION,
            },
        );
        commands.push(GpuCommand::SetViewport { width: Self::DIMENSION, height: Self::DIMENSION });
        commands.push(GpuCommand::SetScissor { width: Self::DIMENSION, height: Self::DIMENSION });
        commands.push(
            GpuCommand::SetDepthBias {
                constant_factor: depth_bias.constant_factor,
                slope_factor: depth_bias.slope_factor,
            },
        );
        append_commands(&mut commands, draws);
        commands.push(GpuCommand::EndRenderPass);
        commands
    }

    /// The recording of the command buffer that renders to `framebuffer` of
    /// `swapchain` after the shadow map: the offscreen pass around
    /// `shadow_draws`, then the main pass around `draws`.
    pub fn frame_commands(
        &self,
        depth_bias: DepthBias,
        shadow_draws: &Vec<GpuCommand>,
        swapchain: &VulkanSwapchain,
        framebuffer: u64,
        draws: &Vec<GpuCommand>,
    ) -> (commands: Vec<GpuCommand>)
        ensures
            commands@ == self.recording(
                depth_bias,
                shadow_draws@,
                swapchain@,
                framebuffer,
                draws@,
            ),
    {
        let pass = self.record(depth_bias, shadow_draws);
        let mut commands: Vec<GpuCommand> = Vec::new();
        commands.push(GpuCommand::BeginCommandBuffer);
        append_commands(&mut commands, &pass);
        commands.push(
            GpuCommand::BeginRenderPass {
                render_pass: swapchain.render_pass,
                framebuffer,
                width: swapchain.extent.width,
                height: swapchain.extent.height,
            },
        );
        commands.push(
            GpuCommand::SetViewport {
                width: swapchain.extent.width,
                height: swapchain.extent.height,
            },
        );
        commands.push(
            GpuCommand::SetScissor { width: swapchain.extent.width, height: swapchain.extent.height },
        );
        append_commands(&mut commands, draws);
        commands.push(GpuCommand::EndRenderPass);
        commands.push(GpuCommand::EndCommandBuffer);
        commands
    }
}

/// Sequencing law of the shadow map. In a recording with an offscreen pass,
/// the offscreen pass has ended before the main pass begins, whatever is
/// drawn in either: the main pass begins right after the end of the
/// offscreen pass, and no command of the main pass stands before it.
pub proof fn lemma_offscreen_pass_completes_first(
    offscreen: Offscreen,
    depth_bias: DepthBias,
    shadow_draws: Seq<GpuCommand>,
    swapchain: SwapchainState,
    framebuffer: u64,
    draws: Seq<GpuCommand>,
)
    ensures
        ({
            let recording = offscreen.recording(
                depth_bias,
                shadow_draws,
                swapchain,
                framebuffer,
                draws,
            );
            let pass = offscreen.pass(depth_bias, shadow_draws);
            let end = 1 + pass.len() as int;
            &&& recording.subrange(1, end) == pass
            &&& pass.first() is BeginDepthPass
            &&& pass.last() == GpuCommand::EndRenderPass
            &&& recording[end] == (GpuCommand::BeginRenderPass {
                render_pass: swapchain.render_pass,
                framebuffer,
                width: swapchain.extent.width,
                height: swapchain.extent.height,
            })
            &&& recording.subrange(end + 3, end + 3 + draws.len()) == draws
        }),
{
}

} // verus!
