//! The skybox: a cube map drawn on the unit cube behind everything else.

use vstd::prelude::*;
use crate::vulkan::command::GpuCommand;
use crate::vulkan::descriptor::DescriptorBufferInfo;
use crate::vulkan::descriptor::DescriptorImageInfo;
use crate::vulkan::descriptor::DescriptorPoolInfo;
use crate::vulkan::descriptor::DescriptorPoolSize;
use crate::vulkan::descriptor::DescriptorSetLayoutBinding;
use crate::vulkan::descriptor::DescriptorType;
use crate::vulkan::descriptor::ShaderStages;
use crate::vulkan::descriptor::TextureHandle;
use crate::vulkan::descriptor::WriteDescriptorSet;
use crate::vulkan::descriptor::layout_binding;
use crate::vulkan::pipeline::CullMode;
use crate::vulkan::pipeline::RenderPipeline;
use crate::vulkan::pipeline::RenderPipelineSettings;
use crate::vulkan::pipeline::StencilOpState;
use crate::vulkan::pipeline::VertexInputState;
use crate::vulkan::shader::ShaderSet;

verus! {

/// The uniform block of the skybox: the view and the projection matrix.
pub struct UniformBufferObject {}

impl UniformBufferObject {
    /// Bytes of the block.
    pub const SIZE: u64 = 128;
}

/// The settings of the skybox pipeline: the cube is seen from inside, so
/// front faces are culled, and it neither tests nor writes depth.
pub open spec fn skybox_settings(
    render_pass: u64,
    vertex_state_info: VertexInputState,
    descriptor_set_layout: u64,
    shader_set: ShaderSet,
    rasterization_samples: u32,
) -> RenderPipelineSettings {
    RenderPipelineSettings {
        render_pass,
        vertex_state_info,
        descriptor_set_layout,
        shader_set,
        blended: false,
        depth_test_enabled: false,
        depth_write_enabled: false,
        stencil_test_enabled: false,
        stencil_front_state: StencilOpState::spec_default(),
        stencil_back_state: StencilOpState::spec_default(),
        push_constant_range: None,
        rasterization_samples,
        sample_shading_enabled: true,
        cull_mode: CullMode::Front,
    }
}

/// The pipeline that draws the skybox in `render_pass`, with the unit cube's
/// vertex layout and the device's highest usable sample count. `None` where
/// the shader set lacks the vertex or the fragment shader.
pub fn create_skybox_pipeline(
    render_pass: u64,
    vertex_state_info: VertexInputState,
    descriptor_set_layout: u64,
    shader_set: ShaderSet,
    rasterization_samples: u32,
) -> (pipeline: Option<RenderPipeline>)
    ensures
        pipeline is Some <==> shader_set.vertex_shader is Some && shader_set.fragment_shader
            is Some,
        pipeline matches Some(pipeline) ==> {
            &&& pipeline.settings == skybox_settings(
                render_pass,
                vertex_state_info,
                descriptor_set_layout,
                shader_set,
                rasterization_samples,
            )
            &&& pipeline.pipeline == crate::vulkan::pipeline::pipeline_of(pipeline.settings)
        },
{
    let settings = RenderPipelineSettings::new(
        render_pass,
        vertex_state_info,
        descriptor_set_layout,
        shader_set,
    ).sample_shading_enabled(true).rasterization_samples(
        rasterization_samples,
    ).depth_test_enabled(false).depth_write_enabled(false).cull_mode(CullMode::Front);
    RenderPipeline::new(settings)
}

/// What the skybox pipeline binds.
#[derive(Clone, Copy, Debug, PartialEq, Eq, Structural)]
pub struct SkyboxPipelineData {
    pub descriptor_set: u64,
    pub uniform_buffer: u64,
}

impl SkyboxPipelineData {
    /// The data of a skybox whose descriptor set and uniform buffer were
    /// created as given.
    pub fn new(descriptor_set: u64, uniform_buffer: u64) -> (data: Self)
        ensures
            data == (SkyboxPipelineData { descriptor_set, uniform_buffer }),
    {
        SkyboxPipelineData { descriptor_set, uniform_buffer }
    }

    /// The layout of the descriptor set: the uniform block for the vertex
    /// stage, the cube map for the fragment stage.
    pub fn descriptor_set_layout() -> (bindings: Vec<DescriptorSetLayoutBinding>)
        ensures
            bindings@ == seq![
                DescriptorSetLayoutBinding {
                    binding: 0,
                    descriptor_type: DescriptorType::UniformBuffer,
                    descriptor_count: 1,
                    stage_flags: ShaderStages::vertex(),
                },
                DescriptorSetLayoutBinding {
                    binding: 1,
                    descriptor_type: DescriptorType::CombinedImageSampler,
                    descriptor_count: 1,
                    stage_flags: ShaderStages::fragment(),
                },
            ],
    {
        let mut bindings: Vec<DescriptorSetLayoutBinding> = Vec::new();
        bindings.push(layout_binding(0, DescriptorType::UniformBuffer, 1, ShaderStages::vertex()));
        bindings.push(
            layout_binding(1, DescriptorType::CombinedImageSampler, 1, ShaderStages::fragment()),
        );
        bindings
    }

    /// The pool that the descriptor set is allocated from.
    pub fn create_descriptor_pool() -> (pool: DescriptorPoolInfo)
        ensures
            pool.max_sets == 1,
            pool.pool_sizes@ == seq![
                DescriptorPoolSize { ty: DescriptorType::UniformBuffer, descriptor_count: 1 },
                DescriptorPoolSize {
                    ty: DescriptorType::CombinedImageSampler,
                    descriptor_count: 1,
                },
            ],
    {
        let mut pool_sizes: Vec<DescriptorPoolSize> = Vec::new();
        pool_sizes.push(DescriptorPoolSize { ty: DescriptorType::UniformBuffer, descriptor_count: 1 });
        pool_sizes.push(
            DescriptorPoolSize { ty: DescriptorType::CombinedImageSampler, descriptor_count: 1 },
        );
        DescriptorPoolInfo { pool_sizes, max_sets: 1 }
    }

    /// The two writes that fill the descriptor set: the uniform block and
    /// the cube map.
    pub fn update_descriptor_set(&self, cubemap: TextureHandle) -> (writes: Vec<WriteDescriptorSet>)
        ensures
            writes@.len() == 2,
            writes@[0].is_buffer_write(
                self.descriptor_set,
                0,
                DescriptorType::UniformBuffer,
                seq![
                    DescriptorBufferInfo {
                        buffer: self.uniform_buffer,
                        offset: 0,
                        range: UniformBufferObject::SIZE,
                    },
                ],
            ),
            writes@[1].is_image_write(
                self.descriptor_set,
                1,
                seq![DescriptorImageInfo::of(cubemap)],
            ),
    {
        let mut image_infos: Vec<DescriptorImageInfo> = Vec::new();
        image_infos.push(DescriptorImageInfo::new(cubemap));
        let mut writes: Vec<WriteDescriptorSet> = Vec::new();
        writes.push(
            WriteDescriptorSet::buffer(
                self.descriptor_set,
                0,
                DescriptorType::UniformBuffer,
                DescriptorBufferInfo {
                    buffer: self.uniform_buffer,
                    offset: 0,
                    range: UniformBufferObject::SIZE,
                },
            ),
        );
        writes.push(WriteDescriptorSet::images(self.descriptor_set, 1, image_infos));
        writes
    }
}

/// What a draw of the skybox binds.
#[derive(Clone, Copy, Debug, PartialEq, Eq, Structural)]
pub struct SkyboxRenderer {
    pub pipeline_layout: u64,
    pub descriptor_set: u64,
}

impl SkyboxRenderer {
    /// What draws with `pipeline_layout` bind of `pipeline_data`.
    pub fn new(pipeline_layout: u64, pipeline_data: &SkyboxPipelineData) -> (renderer: Self)
        ensures
            renderer == (SkyboxRenderer {
                pipeline_layout,
                descriptor_set: pipeline_data.descriptor_set,
            }),
    {
        SkyboxRenderer { pipeline_layout, descriptor_set: pipeline_data.descriptor_set }
    }

    /// The commands that draw the skybox: the descriptor set is bound, then
    /// the cube is drawn.
    pub fn draw(&self) -> (commands: Vec<GpuCommand>)
        ensures
            commands@ == seq![
                GpuCommand::BindDescriptorSet {
                    layout: self.pipeline_layout,
                    descriptor_set: self.descriptor_set,
                    dynamic_offset: None,
                },
                GpuCommand::DrawUnitCube,
            ],
    {
        let mut commands: Vec<GpuCommand> = Vec::new();
        commands.push(
            GpuCommand::BindDescriptorSet {
                layout: self.pipeline_layout,
                descriptor_set: self.descriptor_set,
                dynamic_offset: None,
            },
        );
        commands.push(GpuCommand::DrawUnitCube);
        commands
    }
}

} // verus!
