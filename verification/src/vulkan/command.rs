//! The commands that a command buffer records, as values.

use vstd::prelude::*;

verus! {

/// Four 32-bit floats, each by its IEEE 754 bit pattern.
#[derive(Clone, Copy, Debug, PartialEq, Eq, Structural)]
pub struct Vec4Bits {
    pub x: u32,
    pub y: u32,
    pub z: u32,
    pub w: u32,
}

/// Three 32-bit floats, each by its IEEE 754 bit pattern.
#[derive(Clone, Copy, Debug, PartialEq, Eq, Structural)]
pub struct Vec3Bits {
    pub x: u32,
    pub y: u32,
    pub z: u32,
}

/// The material block that is pushed before each draw of the physically
/// based pipeline. Floats are carried by their bit patterns; a texture set of
/// -1 says that the material has no such texture.
#[derive(Clone, Copy, Debug, PartialEq, Eq, Structural)]
pub struct PushConstantBlockMaterial {
    pub base_color_factor: Vec4Bits,
    pub emissive_factor: Vec3Bits,
    pub color_texture_set: i32,
    pub metallic_roughness_texture_set: i32,
    pub normal_texture_set: i32,
    pub occlusion_texture_set: i32,
    pub emissive_texture_set: i32,
    pub metallic_factor: u32,
    pub roughness_factor: u32,
    pub alpha_mode: i32,
    pub alpha_cutoff: u32,
}

/// The four bytes of `word`, least significant first.
pub open spec fn le_bytes(word: u32) -> Seq<u8> {
    seq![
        (word & 0xff) as u8,
        ((word >> 8) & 0xff) as u8,
        ((word >> 16) & 0xff) as u8,
        ((word >> 24) & 0xff) as u8,
    ]
}

/// Appends the four bytes of `word`, least significant first.
pub fn push_word(bytes: &mut Vec<u8>, word: u32)
    ensures
        final(bytes)@ == old(bytes)@ + le_bytes(word),
{
    assert(word & 0xff < 0x100 && (word >> 8) & 0xff < 0x100 && (word >> 16) & 0xff < 0x100 && (
    word >> 24) & 0xff < 0x100) by (bit_vector);
    bytes.push((word & 0xff) as u8);
    bytes.push(((word >> 8) & 0xff) as u8);
    bytes.push(((word >> 16) & 0xff) as u8);
    bytes.push(((word >> 24) & 0xff) as u8);
}

impl PushConstantBlockMaterial {
    /// Bytes of the block.
    pub const SIZE: u32 = 64;

    /// The sixteen words of the block in the order in which the shader
    /// declares them: the base colour factor, the emissive factor, the five
    /// texture sets, the metallic and the roughness factor, the alpha mode
    /// and the alpha cutoff. A signed word stands by its two's complement.
    pub open spec fn words(self) -> Seq<u32> {
        seq![
            self.base_color_factor.x,
            self.base_color_factor.y,
            self.base_color_factor.z,
            self.base_color_factor.w,
            self.emissive_factor.x,
            self.emissive_factor.y,
            self.emissive_factor.z,
            self.color_texture_set as u32,
            self.metallic_roughness_texture_set as u32,
            self.normal_texture_set as u32,
            self.occlusion_texture_set as u32,
            self.emissive_texture_set as u32,
            self.metallic_factor,
            self.roughness_factor,
            self.alpha_mode as u32,
            self.alpha_cutoff,
        ]
    }

    /// The bytes of the first `n` words of the block.
    pub open spec fn bytes_of(self, n: nat) -> Seq<u8>
        decreases n,
    {
        if n == 0 {
            Seq::empty()
        } else {
            self.bytes_of((n - 1) as nat) + le_bytes(self.words()[n - 1])
        }
    }

    /// The block as the device reads it: its sixteen words, each with the
    /// least significant byte first.
    pub fn to_bytes(&self) -> (bytes: Vec<u8>)
        ensures
            bytes@ == self.bytes_of(16),
            bytes@.len() == Self::SIZE,
    {
        let mut words: Vec<u32> = Vec::new();
        words.push(self.base_color_factor.x);
        words.push(self.base_color_factor.y);
        words.push(self.base_color_factor.z);
        words.push(self.base_color_factor.w);
        words.push(self.emissive_factor.x);
        words.push(self.emissive_factor.y);
        words.push(self.emissive_factor.z);
        words.push(#[verifier::truncate] (self.color_texture_set as u32));
        words.push(#[verifier::truncate] (self.metallic_roughness_texture_set as u32));
        words.push(#[verifier::truncate] (self.normal_texture_set as u32));
        words.push(#[verifier::truncate] (self.occlusion_texture_set as u32));
        words.push(#[verifier::truncate] (self.emissive_texture_set as u32));
        words.push(self.metallic_factor);
        words.push(self.roughness_factor);
        words.push(#[verifier::truncate] (self.alpha_mode as u32));
        words.push(self.alpha_cutoff);
        let mut bytes: Vec<u8> = Vec::new();
        let mut i: usize = 0;
        while i < 16
            invariant
                i <= 16,
                words@ == self.words(),
                bytes@ == self.bytes_of(i as nat),
                bytes@.len() == 4 * i,
            decreases 16 - i,
        {
            push_word(&mut bytes, words[i]);
            i += 1;
        }
        bytes
    }
}

/// One command of a command buffer. Pipelines, layouts, descriptor sets,
/// buffers and framebuffers are named by their raw handles.
#[derive(Clone, Copy, Debug, PartialEq, Eq, Structural)]
pub enum GpuCommand {
    /// Opens the command buffer for recording, with the simultaneous-use flag.
    BeginCommandBuffer,
    /// Begins the render pass on `framebuffer` over the area `width` x
    /// `height` at the origin, clearing colour and depth.
    BeginRenderPass { render_pass: u64, framebuffer: u64, width: u32, height: u32 },
    /// Begins a depth-only render pass on `framebuffer` over the area
    /// `width` x `height` at the origin, clearing depth.
    BeginDepthPass { render_pass: u64, framebuffer: u64, width: u32, height: u32 },
    /// Sets the depth bias: a constant and a slope-scaled factor, both
    /// floats by their bit patterns, without clamp.
    SetDepthBias { constant_factor: u32, slope_factor: u32 },
    /// Sets the viewport to `width` x `height` at the origin, depth 0 to 1.
    SetViewport { width: u32, height: u32 },
    /// Sets the scissor rectangle to `width` x `height` at the origin.
    SetScissor { width: u32, height: u32 },
    /// Binds a graphics pipeline.
    BindPipeline { pipeline: u64 },
    /// Binds one vertex buffer to binding 0 at offset 0.
    BindVertexBuffer { buffer: u64 },
    /// Binds an index buffer of 32-bit indices at offset 0.
    BindIndexBuffer { buffer: u64 },
    /// Binds one descriptor set as set 0, with at most one dynamic offset.
    BindDescriptorSet { layout: u64, descriptor_set: u64, dynamic_offset: Option<u32> },
    /// Pushes a material block to all graphics stages at offset 0.
    PushConstants { layout: u64, material: PushConstantBlockMaterial },
    /// An indexed draw.
    DrawIndexed {
        index_count: u32,
        instance_count: u32,
        first_index: u32,
        vertex_offset: i32,
        first_instance: u32,
    },
    /// Draws the unit cube that the skybox is rendered on.
    DrawUnitCube,
    /// Ends the render pass.
    EndRenderPass,
    /// Closes the command buffer.
    EndCommandBuffer,
}

/// Appends `tail` to `commands`.
pub fn append_commands(commands: &mut Vec<GpuCommand>, tail: &Vec<GpuCommand>)
    ensures
        final(commands)@ == old(commands)@ + tail@,
{
    let mut i: usize = 0;
    while i < tail.len()
        invariant
            i <= tail@.len(),
            commands@ == old(commands)@ + tail@.subrange(0, i as int),
        decreases tail@.len() - i,
    {
        commands.push(tail[i]);
        i += 1;
    }
}

} // verus!
