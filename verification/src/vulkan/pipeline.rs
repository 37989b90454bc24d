//! Graphics pipelines as descriptions: the settings that a pipeline is asked
//! for and the fixed-function state that follows from them.

use vstd::prelude::*;
use crate::vulkan::command::GpuCommand;
use crate::vulkan::shader::Shader;
use crate::vulkan::shader::ShaderSet;

verus! {

/// The format of a vertex attribute.
#[derive(Clone, Copy, Debug, PartialEq, Eq, Structural)]
pub enum Format {
    /// Two 32-bit floats.
    R32G32Sfloat,
    /// Three 32-bit floats.
    R32G32B32Sfloat,
}

/// Where a vertex attribute sits in a vertex.
#[derive(Clone, Copy, Debug, PartialEq, Eq, Structural)]
pub struct VertexInputAttributeDescription {
    pub location: u32,
    pub binding: u32,
    pub format: Format,
    pub offset: u32,
}

/// The stride of a vertex buffer binding, advanced per vertex.
#[derive(Clone, Copy, Debug, PartialEq, Eq, Structural)]
pub struct VertexInputBindingDescription {
    pub binding: u32,
    pub stride: u32,
}

/// The vertex layout of a pipeline.
#[derive(Clone, Debug, PartialEq, Eq)]
pub struct VertexInputState {
    pub bindings: Vec<VertexInputBindingDescription>,
    pub attributes: Vec<VertexInputAttributeDescription>,
}

/// A factor of the blend equation.
#[derive(Clone, Copy, Debug, PartialEq, Eq, Structural)]
pub enum BlendFactor {
    Zero,
    One,
    SrcAlpha,
    OneMinusSrcAlpha,
}

/// The blend state of the one colour attachment. All colour components are
/// written, and source and destination are added.
#[derive(Clone, Copy, Debug, PartialEq, Eq, Structural)]
pub struct ColorBlendAttachmentState {
    pub blend_enable: bool,
    pub src_color_blend_factor: BlendFactor,
    pub dst_color_blend_factor: BlendFactor,
    pub src_alpha_blend_factor: BlendFactor,
    pub dst_alpha_blend_factor: BlendFactor,
}

/// Which faces are culled.
#[derive(Clone, Copy, Debug, PartialEq, Eq, Structural)]
pub enum CullMode {
    Off,
    Front,
    Back,
}

/// How a fragment's depth is compared with the depth that is stored.
#[derive(Clone, Copy, Debug, PartialEq, Eq, Structural)]
pub enum CompareOp {
    Less,
    LessOrEqual,
}

/// The stencil operations of one face, by their raw Vulkan values.
#[derive(Clone, Copy, Debug, PartialEq, Eq, Structural)]
pub struct StencilOpState {
    pub fail_op: i32,
    pub pass_op: i32,
    pub depth_fail_op: i32,
    pub compare_op: i32,
    pub compare_mask: u32,
    pub write_mask: u32,
    pub reference: u32,
}

/// A range of push constants, visible to all graphics stages.
#[derive(Clone, Copy, Debug, PartialEq, Eq, Structural)]
pub struct PushConstantRange {
    pub offset: u32,
    pub size: u32,
}

/// What a render pipeline is built from.
#[derive(Clone, Debug, PartialEq, Eq)]
pub struct RenderPipelineSettings {
    pub render_pass: u64,
    pub vertex_state_info: VertexInputState,
    pub descriptor_set_layout: u64,
    pub shader_set: ShaderSet,
    pub blended: bool,
    pub depth_test_enabled: bool,
    pub depth_write_enabled: bool,
    pub stencil_test_enabled: bool,
    pub stencil_front_state: StencilOpState,
    pub stencil_back_state: StencilOpState,
    pub push_constant_range: Option<PushConstantRange>,
    pub rasterization_samples: u32,
    pub sample_shading_enabled: bool,
    pub cull_mode: CullMode,
}

/// What a pipeline layout is created with: one descriptor set layout and at
/// most one push constant range.
#[derive(Clone, Copy, Debug, PartialEq, Eq, Structural)]
pub struct PipelineLayoutCreateInfo {
    pub descriptor_set_layout: u64,
    pub push_constant_range: Option<PushConstantRange>,
}

/// The state of a graphics pipeline that follows from its settings. What is
/// the same for every pipeline is not held: triangle lists without primitive
/// restart, filled polygons with counter-clockwise front faces, no depth
/// clamp, discard or bias, no alpha to coverage or alpha to one, no depth
/// bounds test, no logic op, one viewport and one scissor, both dynamic, and
/// subpass 0.
#[derive(Clone, Copy, Debug, PartialEq, Eq, Structural)]
pub struct GraphicsPipelineCreateInfo {
    pub vertex_stage: Shader,
    pub fragment_stage: Shader,
    pub cull_mode: CullMode,
    pub sample_shading_enable: bool,
    pub rasterization_samples: u32,
    pub depth_test_enable: bool,
    pub depth_write_enable: bool,
    pub depth_compare_op: CompareOp,
    pub stencil_test_enable: bool,
    pub stencil_front: StencilOpState,
    pub stencil_back: StencilOpState,
    pub color_blend_attachment: ColorBlendAttachmentState,
    pub layout: PipelineLayoutCreateInfo,
    pub render_pass: u64,
}

/// A render pipeline: the settings that it was asked for, which hold its
/// vertex layout, and the state that was derived from them.
#[derive(Clone, Debug, PartialEq, Eq)]
pub struct RenderPipeline {
    pub settings: RenderPipelineSettings,
    pub pipeline: GraphicsPipelineCreateInfo,
}

impl StencilOpState {
    pub open spec fn spec_default() -> Self {
        StencilOpState {
            fail_op: 0,
            pass_op: 0,
            depth_fail_op: 0,
            compare_op: 0,
            compare_mask: 0,
            write_mask: 0,
            reference: 0,
        }
    }
}

impl Default for StencilOpState {
    fn default() -> (state: Self)
        ensures
            state == Self::spec_default(),
    {
        StencilOpState {
            fail_op: 0,
            pass_op: 0,
            depth_fail_op: 0,
            compare_op: 0,
            compare_mask: 0,
            write_mask: 0,
            reference: 0,
        }
    }
}

impl RenderPipelineSettings {
    /// The settings of an opaque pipeline with depth test and depth write,
    /// without stencil test, culling or push constants, with one sample
    /// and sample shading.
    pub fn new(
        render_pass: u64,
        vertex_state_info: VertexInputState,
        descriptor_set_layout: u64,
        shader_set: ShaderSet,
    ) -> (settings: Self)
        ensures
            settings == (RenderPipelineSettings {
                render_pass,
                vertex_state_info,
                descriptor_set_layout,
                shader_set,
                blended: false,
                depth_test_enabled: true,
                depth_write_enabled: true,
                stencil_test_enabled: false,
                stencil_front_state: StencilOpState::spec_default(),
                stencil_back_state: StencilOpState::spec_default(),
                push_constant_range: None,
                rasterization_samples: 1,
                sample_shading_enabled: true,
                cull_mode: CullMode::Off,
            }),
    {
        RenderPipelineSettings {
            render_pass,
            vertex_state_info,
            descriptor_set_layout,
            shader_set,
            blended: false,
            depth_test_enabled: true,
            depth_write_enabled: true,
            stencil_test_enabled: false,
            stencil_front_state: StencilOpState::default(),
            stencil_back_state: StencilOpState::default(),
            push_constant_range: None,
            rasterization_samples: 1,
            sample_shading_enabled: true,
            cull_mode: CullMode::Off,
        }
    }

    pub fn blended(self, blended: bool) -> (settings: Self)
        ensures
            settings == (RenderPipelineSettings { blended, ..self }),
    {
        let mut settings = self;
        settings.blended = blended;
        settings
    }

    pub fn depth_test_enabled(self, depth_test_enabled: bool) -> (settings: Self)
        ensures
            settings == (RenderPipelineSettings { depth_test_enabled, ..self }),
    {
        let mut settings = self;
        settings.depth_test_enabled = depth_test_enabled;
        settings
    }

    pub fn depth_write_enabled(self, depth_write_enabled: bool) -> (settings: Self)
        ensures
            settings == (RenderPipelineSettings { depth_write_enabled, ..self }),
    {
        let mut settings = self;
        settings.depth_write_enabled = depth_write_enabled;
        settings
    }

    pub fn stencil_test_enabled(self, stencil_test_enabled: bool) -> (settings: Self)
        ensures
            settings == (RenderPipelineSettings { stencil_test_enabled, ..self }),
    {
        let mut settings = self;
        settings.stencil_test_enabled = stencil_test_enabled;
        settings
    }

    pub fn stencil_front_state(self, stencil_front_state: StencilOpState) -> (settings: Self)
        ensures
            settings == (RenderPipelineSettings { stencil_front_state, ..self }),
    {
        let mut settings = self;
        settings.stencil_front_state = stencil_front_state;
        settings
    }

    pub fn stencil_back_state(self, stencil_back_state: StencilOpState) -> (settings: Self)
        ensures
            settings == (RenderPipelineSettings { stencil_back_state, ..self }),
    {
        let mut settings = self;
        settings.stencil_back_state = stencil_back_state;
        settings
    }

    pub fn push_constant_range(self, push_constant_range: PushConstantRange) -> (settings: Self)
        ensures
            settings == (RenderPipelineSettings {
                push_constant_range: Some(push_constant_range),
                ..self
            }),
    {
        let mut settings = self;
        settings.push_constant_range = Some(push_constant_range);
        settings
    }

    pub fn rasterization_samples(self, rasterization_samples: u32) -> (settings: Self)
        ensures
            settings == (RenderPipelineSettings { rasterization_samples, ..self }),
    {
        let mut settings = self;
        settings.rasterization_samples = rasterization_samples;
        settings
    }

    pub fn sample_shading_enabled(self, sample_shading_enabled: bool) -> (settings: Self)
        ensures
            settings == (RenderPipelineSettings { sample_shading_enabled, ..self }),
    {
        let mut settings = self;
        settings.sample_shading_enabled = sample_shading_enabled;
        settings
    }

    pub fn cull_mode(self, cull_mode: CullMode) -> (settings: Self)
        ensures
            settings == (RenderPipelineSettings { cull_mode, ..self }),
    {
        let mut settings = self;
        settings.cull_mode = cull_mode;
        settings
    }
}

/// The blend state that replaces what is in the attachment.
pub open spec fn opaque_attachment() -> ColorBlendAttachmentState {
    ColorBlendAttachmentState {
        blend_enable: false,
        src_color_blend_factor: BlendFactor::One,
        dst_color_blend_factor: BlendFactor::Zero,
        src_alpha_blend_factor: BlendFactor::One,
        dst_alpha_blend_factor: BlendFactor::Zero,
    }
}

/// The blend state that blends by the source's alpha.
pub open spec fn blended_attachment() -> ColorBlendAttachmentState {
    ColorBlendAttachmentState {
        blend_enable: true,
        src_color_blend_factor: BlendFactor::SrcAlpha,
        dst_color_blend_factor: BlendFactor::OneMinusSrcAlpha,
        src_alpha_blend_factor: BlendFactor::OneMinusSrcAlpha,
        dst_alpha_blend_factor: BlendFactor::Zero,
    }
}

/// The layout of a pipeline with the given settings.
pub open spec fn pipeline_layout_of(settings: RenderPipelineSettings) -> PipelineLayoutCreateInfo {
    PipelineLayoutCreateInfo {
        descriptor_set_layout: settings.descriptor_set_layout,
        push_constant_range: settings.push_constant_range,
    }
}

/// The state of the pipeline with the given settings and shader stages.
pub open spec fn pipeline_of(settings: RenderPipelineSettings) -> GraphicsPipelineCreateInfo {
    GraphicsPipelineCreateInfo {
        vertex_stage: settings.shader_set.vertex_shader->0,
        fragment_stage: settings.shader_set.fragment_shader->0,
        cull_mode: settings.cull_mode,
        sample_shading_enable: settings.sample_shading_enabled,
        rasterization_samples: settings.rasterization_samples,
        depth_test_enable: settings.depth_test_enabled,
        depth_write_enable: settings.depth_write_enabled,
        depth_compare_op: CompareOp::LessOrEqual,
        stencil_test_enable: settings.stencil_test_enabled,
        stencil_front: settings.stencil_front_state,
        stencil_back: settings.stencil_back_state,
        color_blend_attachment: if settings.blended {
            blended_attachment()
        } else {
            opaque_attachment()
        },
        layout: pipeline_layout_of(settings),
        render_pass: settings.render_pass,
    }
}

impl RenderPipeline {
    /// The pipeline with the given settings. `None` where the shader set
    /// lacks the vertex or the fragment shader.
    pub fn new(settings: RenderPipelineSettings) -> (pipeline: Option<Self>)
        ensures
            pipeline is Some <==> settings.shader_set.vertex_shader is Some
                && settings.shader_set.fragment_shader is Some,
            pipeline matches Some(pipeline) ==> pipeline.settings == settings && pipeline.pipeline
                == pipeline_of(settings),
    {
        let vertex_stage = match settings.shader_set.vertex_shader {
            Some(shader) => shader,
            None => {
                return None;
            },
        };
        let fragment_stage = match settings.shader_set.fragment_shader {
            Some(shader) => shader,
            None => {
                return None;
            },
        };
        let color_blend_attachment = if settings.blended {
            Self::create_color_blend_attachments_blended()
        } else {
            Self::create_color_blend_attachments_opaque()
        };
        let layout = Self::create_pipeline_layout(&settings);
        let pipeline = GraphicsPipelineCreateInfo {
            vertex_stage,
            fragment_stage,
            cull_mode: settings.cull_mode,
            sample_shading_enable: settings.sample_shading_enabled,
            rasterization_samples: settings.rasterization_samples,
            depth_test_enable: settings.depth_test_enabled,
            depth_write_enable: settings.depth_write_enabled,
            depth_compare_op: CompareOp::LessOrEqual,
            stencil_test_enable: settings.stencil_test_enabled,
            stencil_front: settings.stencil_front_state,
            stencil_back: settings.stencil_back_state,
            color_blend_attachment,
            layout,
            render_pass: settings.render_pass,
        };
        Some(RenderPipeline { settings, pipeline })
    }

    /// The blend state of an opaque pipeline.
    pub fn create_color_blend_attachments_opaque() -> (attachment: ColorBlendAttachmentState)
        ensures
            attachment == opaque_attachment(),
    {
        ColorBlendAttachmentState {
            blend_enable: false,
            src_color_blend_factor: BlendFactor::One,
            dst_color_blend_factor: BlendFactor::Zero,
            src_alpha_blend_factor: BlendFactor::One,
            dst_alpha_blend_factor: BlendFactor::Zero,
        }
    }

    /// The blend state of an alpha-blended pipeline.
    pub fn create_color_blend_attachments_blended() -> (attachment: ColorBlendAttachmentState)
        ensures
            attachment == blended_attachment(),
    {
        ColorBlendAttachmentState {
            blend_enable: true,
            src_color_blend_factor: BlendFactor::SrcAlpha,
            dst_color_blend_factor: BlendFactor::OneMinusSrcAlpha,
            src_alpha_blend_factor: BlendFactor::OneMinusSrcAlpha,
            dst_alpha_blend_factor: BlendFactor::Zero,
        }
    }

    /// The pipeline layout: the settings' descriptor set layout, and their
    /// push constant range where they have one.
    pub fn create_pipeline_layout(settings: &RenderPipelineSettings) -> (layout:
        PipelineLayoutCreateInfo)
        ensures
            layout == pipeline_layout_of(*settings),
    {
        PipelineLayoutCreateInfo {
            descriptor_set_layout: settings.descriptor_set_layout,
            push_constant_range: settings.push_constant_range,
        }
    }

    /// The command that binds the pipeline once it was created as
    /// `pipeline`.
    pub fn bind(pipeline: u64) -> (command: GpuCommand)
        ensures
            command == (GpuCommand::BindPipeline { pipeline }),
    {
        GpuCommand::BindPipeline { pipeline }
    }
}

/// Blend variant law. The opaque and the alpha-blended pipeline that are
/// built from the same settings differ in the blend state of the colour
/// attachment and in nothing else.
pub proof fn lemma_blend_variants_differ_in_attachment_only(settings: RenderPipelineSettings)
    ensures
        pipeline_of(RenderPipelineSettings { blended: true, ..settings }) == (
        GraphicsPipelineCreateInfo {
            color_blend_attachment: blended_attachment(),
            ..pipeline_of(RenderPipelineSettings { blended: false, ..settings })
        }),
        pipeline_of(RenderPipelineSettings { blended: false, ..settings }).color_blend_attachment
            == opaque_attachment(),
        opaque_attachment() != blended_attachment(),
{
}

} // verus!
