//! A single indexed model under one uniform block: what the triangle and the
//! teapot are drawn with.

use vstd::prelude::*;
use crate::vulkan::buffer::GeometryBuffer;
use crate::vulkan::command::GpuCommand;
use crate::vulkan::descriptor::DescriptorBufferInfo;
use crate::vulkan::descriptor::DescriptorPoolInfo;
use crate::vulkan::descriptor::DescriptorPoolSize;
use crate::vulkan::descriptor::DescriptorSetLayoutBinding;
use crate::vulkan::descriptor::DescriptorType;
use crate::vulkan::descriptor::ShaderStages;
use crate::vulkan::descriptor::WriteDescriptorSet;
use crate::vulkan::descriptor::layout_binding;
use crate::vulkan::pipeline::CompareOp;
use crate::vulkan::pipeline::CullMode;
use crate::vulkan::pipeline::Format;
use crate::vulkan::pipeline::GraphicsPipelineCreateInfo;
use crate::vulkan::pipeline::PipelineLayoutCreateInfo;
use crate::vulkan::pipeline::StencilOpState;
use crate::vulkan::pipeline::VertexInputAttributeDescription;
use crate::vulkan::pipeline::VertexInputBindingDescription;
use crate::vulkan::pipeline::opaque_attachment;
use crate::vulkan::pipeline::RenderPipeline;
use crate::vulkan::shader::Shader;
use crate::vulkan::shader::ShaderStage;

verus! {

/// The uniform block of a model: the model, view and projection matrices.
pub struct UniformBufferObject {}

impl UniformBufferObject {
    /// Bytes of the block.
    pub const SIZE: u64 = 192;
}

/// The binding of the one uniform block, read by both stages.
pub open spec fn uniform_block_layout() -> Seq<DescriptorSetLayoutBinding> {
    seq![
        DescriptorSetLayoutBinding {
            binding: 0,
            descriptor_type: DescriptorType::UniformBuffer,
            descriptor_count: 1,
            stage_flags: ShaderStages::vertex_and_fragment(),
        },
    ]
}

/// What the pipeline of a model binds.
#[derive(Clone, Copy, Debug, PartialEq, Eq, Structural)]
pub struct ModelPipelineData {
    pub uniform_buffer: u64,
    pub descriptor_set: u64,
}

impl ModelPipelineData {
    /// The data of a model whose uniform buffer and descriptor set were
    /// created as given.
    pub fn new(uniform_buffer: u64, descriptor_set: u64) -> (data: Self)
        ensures
            data == (ModelPipelineData { uniform_buffer, descriptor_set }),
    {
        ModelPipelineData { uniform_buffer, descriptor_set }
    }

    /// The layout of the descriptor set: the uniform block alone.
    pub fn descriptor_set_layout() -> (bindings: Vec<DescriptorSetLayoutBinding>)
        ensures
            bindings@ == uniform_block_layout(),
    {
        let mut bindings: Vec<DescriptorSetLayoutBinding> = Vec::new();
        bindings.push(
            layout_binding(0, DescriptorType::UniformBuffer, 1, ShaderStages::vertex_and_fragment()),
        );
        bindings
    }

    /// The pool that the descriptor set is allocated from.
    pub fn create_descriptor_pool() -> (pool: DescriptorPoolInfo)
        ensures
            pool.max_sets == 1,
            pool.pool_sizes@ == seq![
                DescriptorPoolSize { ty: DescriptorType::UniformBuffer, descriptor_count: 1 },
            ],
    {
        let mut pool_sizes: Vec<DescriptorPoolSize> = Vec::new();
        pool_sizes.push(DescriptorPoolSize { ty: DescriptorType::UniformBuffer, descriptor_count: 1 });
        DescriptorPoolInfo { pool_sizes, max_sets: 1 }
    }

    /// The one write that fills the descriptor set.
    pub fn update_descriptor_set(&self) -> (writes: Vec<WriteDescriptorSet>)
        ensures
            writes@.len() == 1,
            writes@[0].is_buffer_write(
                self.descriptor_set,
                0,
                DescriptorType::UniformBuffer,
                seq![
                    DescriptorBufferInfo {
                        buffer: self.uniform_buffer,
                        offset: 0,
                        range: UniformBufferObject::SIZE,
                    },
                ],
            ),
    {
        let mut writes: Vec<WriteDescriptorSet> = Vec::new();
        writes.push(
            WriteDescriptorSet::buffer(
                self.descriptor_set,
                0,
                DescriptorType::UniformBuffer,
                DescriptorBufferInfo {
                    buffer: self.uniform_buffer,
                    offset: 0,
                    range: UniformBufferObject::SIZE,
                },
            ),
        );
        writes
    }

    /// The draw commands of a model: its buffers and the pipeline are bound,
    /// then the descriptor set, and all its indices are drawn once.
    pub fn issue_commands(&self, buffers: &GeometryBuffer, pipeline: u64, pipeline_layout: u64) -> (commands:
        Vec<GpuCommand>)
        ensures
            commands@ == buffers.bind_commands() + seq![
                GpuCommand::BindPipeline { pipeline },
                GpuCommand::BindDescriptorSet {
                    layout: pipeline_layout,
                    descriptor_set: self.descriptor_set,
                    dynamic_offset: None,
                },
                GpuCommand::DrawIndexed {
                    index_count: buffers.number_of_indices,
                    instance_count: 1,
                    first_index: 0,
                    vertex_offset: 0,
                    first_instance: 1,
                },
            ],
    {
        let mut commands = buffers.bind();
        commands.push(RenderPipeline::bind(pipeline));
        commands.push(
            GpuCommand::BindDescriptorSet {
                layout: pipeline_layout,
                descriptor_set: self.descriptor_set,
                dynamic_offset: None,
            },
        );
        commands.push(
            GpuCommand::DrawIndexed {
                index_count: buffers.number_of_indices,
                instance_count: 1,
                first_index: 0,
                vertex_offset: 0,
                first_instance: 1,
            },
        );
        commands
    }
}

/// What the pipeline of the triangle binds.
pub type TrianglePipelineData = ModelPipelineData;

/// The triangle: three vertices of three floats each.
pub struct Triangle {}

impl Triangle {
    /// The indices of the triangle.
    pub const NUMBER_OF_INDICES: u32 = 3;

    /// The one attribute of a vertex: its position.
    pub fn create_vertex_attributes() -> (attributes: Vec<VertexInputAttributeDescription>)
        ensures
            attributes@ == seq![
                VertexInputAttributeDescription {
                    location: 0,
                    binding: 0,
                    format: Format::R32G32B32Sfloat,
                    offset: 0,
                },
            ],
    {
        let mut attributes: Vec<VertexInputAttributeDescription> = Vec::new();
        attributes.push(
            VertexInputAttributeDescription {
                location: 0,
                binding: 0,
                format: Format::R32G32B32Sfloat,
                offset: 0,
            },
        );
        attributes
    }

    /// The one vertex buffer binding: three floats per vertex.
    pub fn create_vertex_input_descriptions() -> (descriptions: Vec<VertexInputBindingDescription>)
        ensures
            descriptions@ == seq![VertexInputBindingDescription { binding: 0, stride: 12 }],
    {
        let mut descriptions: Vec<VertexInputBindingDescription> = Vec::new();
        descriptions.push(VertexInputBindingDescription { binding: 0, stride: 12 });
        descriptions
    }
}

/// The pipeline of the triangle.
pub struct TrianglePipeline {}

impl TrianglePipeline {
    /// The state of the triangle's pipeline: opaque, without culling or
    /// stencil test, with depth test and write where a nearer fragment wins,
    /// and with sample shading at the given sample count.
    pub fn new(
        render_pass: u64,
        vertex_shader: u64,
        fragment_shader: u64,
        descriptor_set_layout: u64,
        rasterization_samples: u32,
    ) -> (pipeline: GraphicsPipelineCreateInfo)
        ensures
            pipeline == (GraphicsPipelineCreateInfo {
                vertex_stage: Shader { module: vertex_shader, stage: ShaderStage::Vertex },
                fragment_stage: Shader { module: fragment_shader, stage: ShaderStage::Fragment },
                cull_mode: CullMode::Off,
                sample_shading_enable: true,
                rasterization_samples,
                depth_test_enable: true,
                depth_write_enable: true,
                depth_compare_op: CompareOp::Less,
                stencil_test_enable: false,
                stencil_front: StencilOpState::spec_default(),
                stencil_back: StencilOpState::spec_default(),
                color_blend_attachment: opaque_attachment(),
                layout: PipelineLayoutCreateInfo {
                    descriptor_set_layout,
                    push_constant_range: None,
                },
                render_pass,
            }),
    {
        GraphicsPipelineCreateInfo {
            vertex_stage: Shader::new(vertex_shader, ShaderStage::Vertex),
            fragment_stage: Shader::new(fragment_shader, ShaderStage::Fragment),
            cull_mode: CullMode::Off,
            sample_shading_enable: true,
            rasterization_samples,
            depth_test_enable: true,
            depth_write_enable: true,
            depth_compare_op: CompareOp::Less,
            stencil_test_enable: false,
            stencil_front: StencilOpState::default(),
            stencil_back: StencilOpState::default(),
            color_blend_attachment: Self::create_color_blend_attachments(),
            layout: Self::create_pipeline_layout(descriptor_set_layout),
            render_pass,
        }
    }

    /// The blend state of the triangle's pipeline.
    pub fn create_color_blend_attachments() -> (attachment:
        crate::vulkan::pipeline::ColorBlendAttachmentState)
        ensures
            attachment == opaque_attachment(),
    {
        RenderPipeline::create_color_blend_attachments_opaque()
    }

    /// The layout of the triangle's pipeline: its descriptor set layout and
    /// no push constants.
    pub fn create_pipeline_layout(descriptor_set_layout: u64) -> (layout: PipelineLayoutCreateInfo)
        ensures
            layout == (PipelineLayoutCreateInfo { descriptor_set_layout, push_constant_range: None }),
    {
        PipelineLayoutCreateInfo { descriptor_set_layout, push_constant_range: None }
    }
}

/// What a draw of the triangle binds.
#[derive(Clone, Copy, Debug, PartialEq, Eq, Structural)]
pub struct TriangleRenderer {
    pub pipeline_layout: u64,
    pub descriptor_set: u64,
}

impl TriangleRenderer {
    /// What draws with `pipeline_layout` bind of `pipeline_data`.
    pub fn new(pipeline_layout: u64, pipeline_data: &ModelPipelineData) -> (renderer: Self)
        ensures
            renderer == (TriangleRenderer {
                pipeline_layout,
                descriptor_set: pipeline_data.descriptor_set,
            }),
    {
        TriangleRenderer { pipeline_layout, descriptor_set: pipeline_data.descriptor_set }
    }

    /// The commands that draw the triangle from `buffers`. `None` where the
    /// buffers hold no index buffer.
    pub fn draw(&self, buffers: &GeometryBuffer) -> (commands: Option<Vec<GpuCommand>>)
        ensures
            commands is Some <==> buffers.index_buffer is Some,
            commands matches Some(commands) ==> commands@ == seq![
                GpuCommand::BindVertexBuffer { buffer: buffers.vertex_buffer.buffer },
                GpuCommand::BindIndexBuffer { buffer: buffers.index_buffer->0.buffer },
                GpuCommand::BindDescriptorSet {
                    layout: self.pipeline_layout,
                    descriptor_set: self.descriptor_set,
                    dynamic_offset: None,
                },
                GpuCommand::DrawIndexed {
                    index_count: 3,
                    instance_count: 1,
                    first_index: 0,
                    vertex_offset: 0,
                    first_instance: 1,
                },
            ],
    {
        let index_buffer = match buffers.index_buffer {
            Some(index_buffer) => index_buffer,
            None => {
                return None;
            },
        };
        let mut commands: Vec<GpuCommand> = Vec::new();
        commands.push(GpuCommand::BindVertexBuffer { buffer: buffers.vertex_buffer.buffer() });
        commands.push(GpuCommand::BindIndexBuffer { buffer: index_buffer.buffer() });
        commands.push(
            GpuCommand::BindDescriptorSet {
                layout: self.pipeline_layout,
                descriptor_set: self.descriptor_set,
                dynamic_offset: None,
            },
        );
        commands.push(
            GpuCommand::DrawIndexed {
                index_count: Triangle::NUMBER_OF_INDICES,
                instance_count: 1,
                first_index: 0,
                vertex_offset: 0,
                first_instance: 1,
            },
        );
        Some(commands)
    }
}

} // verus!
