//! Descriptions of Vulkan objects and the decisions of the frame loop.

pub use self::buffer::{Buffer, GeometryBuffer};
pub use self::command::{GpuCommand, PushConstantBlockMaterial};
pub use self::obj::ObjModel;
pub use self::offscreen::Offscreen;
pub use self::pipeline::{RenderPipeline, RenderPipelineSettings};
pub use self::renderer::{Command, CommandPool, Renderer};
pub use self::shader::{Shader, ShaderCache, ShaderSet};
pub use self::skybox::{create_skybox_pipeline, SkyboxPipelineData, SkyboxRenderer};
pub use self::swapchain::VulkanSwapchain;
pub use self::sync::{CurrentFrameSynchronization, SynchronizationSet};

pub mod buffer;
pub mod command;
pub mod descriptor;
pub mod obj;
pub mod offscreen;
pub mod pipeline;
pub mod renderer;
pub mod shader;
pub mod skybox;
pub mod swapchain;
pub mod sync;
