//! The physically based pipeline: its descriptor set, its dynamic uniform
//! buffer and the draw passes over a set of loaded assets.

use vstd::prelude::*;
use vstd::arithmetic::power2::lemma_pow2_pos;
use vstd::arithmetic::power2::pow2;
use vstd::bits::lemma_u64_low_bits_mask_is_mod;
use vstd::bits::low_bits_mask;
use crate::vulkan::command::GpuCommand;
use crate::vulkan::command::PushConstantBlockMaterial;
use crate::vulkan::command::Vec3Bits;
use crate::vulkan::command::Vec4Bits;
use crate::vulkan::command::append_commands;
use crate::vulkan::buffer::BufferCreateInfo;
use crate::vulkan::buffer::BufferUsage;
use crate::vulkan::buffer::MemoryUsage;
use crate::vulkan::descriptor::DescriptorBufferInfo;
use crate::vulkan::descriptor::DescriptorImageInfo;
use crate::vulkan::descriptor::DescriptorPoolInfo;
use crate::vulkan::descriptor::DescriptorPoolSize;
use crate::vulkan::descriptor::DescriptorSetLayoutBinding;
use crate::vulkan::descriptor::DescriptorType;
use crate::vulkan::descriptor::ShaderStages;
use crate::vulkan::descriptor::TextureHandle;
use crate::vulkan::descriptor::WriteDescriptorSet;
use crate::vulkan::descriptor::layout_binding;
use crate::vulkan::pipeline::GraphicsPipelineCreateInfo;
use crate::vulkan::pipeline::PushConstantRange;
use crate::vulkan::pipeline::RenderPipeline;
use crate::vulkan::pipeline::RenderPipelineSettings;
use crate::vulkan::pipeline::VertexInputState;
use crate::vulkan::pipeline::blended_attachment;
use crate::vulkan::pipeline::pipeline_of;
use crate::vulkan::shader::ShaderSet;

verus! {

/// Bytes of a column-major 4x4 matrix of 32-bit floats.
pub const MAT4_SIZE: u64 = 64;

/// Bytes of a vector of four 32-bit floats.
pub const VEC4_SIZE: u64 = 16;

/// The per-frame uniform block: view and projection matrices, the camera
/// position and the joint matrices of every skin.
pub struct UniformBufferObject {}

impl UniformBufferObject {
    /// Has to match the value that the shaders are compiled with.
    pub const MAX_NUM_JOINTS: usize = 128;

    /// Bytes of the block: two matrices, one vector, then the joint matrices.
    pub const SIZE: u64 = 2 * MAT4_SIZE + VEC4_SIZE + 128 * MAT4_SIZE;
}

/// The per-mesh uniform block: the model matrix and one vector whose first
/// two lanes hold the joint count and the joint offset.
pub struct DynamicUniformBufferObject {}

impl DynamicUniformBufferObject {
    /// Bytes of the block.
    pub const SIZE: u64 = MAT4_SIZE + VEC4_SIZE;
}

/// The four textures that image-based lighting is read from. They are
/// computed once and only bound afterwards.
#[derive(Clone, Copy, Debug, PartialEq, Eq, Structural)]
pub struct EnvironmentMapSet {
    pub brdflut: TextureHandle,
    pub hdr: TextureHandle,
    pub irradiance: TextureHandle,
    pub prefilter: TextureHandle,
}

/// What the physically based pipeline binds: its uniform buffers, its
/// descriptor set and the 1x1 image that fills unused texture slots.
#[derive(Clone, Copy, Debug, PartialEq, Eq, Structural)]
pub struct PbrPipelineData {
    pub uniform_buffer: u64,
    pub dynamic_uniform_buffer: u64,
    pub dynamic_alignment: u64,
    pub descriptor_set: u64,
    pub dummy: TextureHandle,
}

/// The image infos of a texture array of at least `MAX_TEXTURES` slots: the
/// given textures in order, then the dummy image in every slot that is left.
pub open spec fn padded_image_infos(textures: Seq<TextureHandle>, dummy: TextureHandle) -> Seq<
    DescriptorImageInfo,
> {
    let total = if textures.len() < PbrPipelineData::MAX_TEXTURES {
        PbrPipelineData::MAX_TEXTURES as nat
    } else {
        textures.len()
    };
    Seq::new(
        total,
        |i: int|
            if i < textures.len() {
                DescriptorImageInfo::of(textures[i])
            } else {
                DescriptorImageInfo::of(dummy)
            },
    )
}

impl PbrPipelineData {
    /// Has to match the size of the texture array that the shaders declare.
    pub const MAX_TEXTURES: usize = 100;

    /// The bindings of the pipeline's one descriptor set.
    pub open spec fn spec_descriptor_set_layout() -> Seq<DescriptorSetLayoutBinding> {
        seq![
            DescriptorSetLayoutBinding {
                binding: 0,
                descriptor_type: DescriptorType::UniformBuffer,
                descriptor_count: 1,
                stage_flags: ShaderStages::vertex_and_fragment(),
            },
            DescriptorSetLayoutBinding {
                binding: 1,
                descriptor_type: DescriptorType::UniformBufferDynamic,
                descriptor_count: 1,
                stage_flags: ShaderStages::vertex(),
            },
            DescriptorSetLayoutBinding {
                binding: 2,
                descriptor_type: DescriptorType::CombinedImageSampler,
                descriptor_count: 100,
                stage_flags: ShaderStages::fragment(),
            },
            DescriptorSetLayoutBinding {
                binding: 3,
                descriptor_type: DescriptorType::CombinedImageSampler,
                descriptor_count: 1,
                stage_flags: ShaderStages::fragment(),
            },
            DescriptorSetLayoutBinding {
                binding: 4,
                descriptor_type: DescriptorType::CombinedImageSampler,
                descriptor_count: 1,
                stage_flags: ShaderStages::fragment(),
            },
            DescriptorSetLayoutBinding {
                binding: 5,
                descriptor_type: DescriptorType::CombinedImageSampler,
                descriptor_count: 1,
                stage_flags: ShaderStages::fragment(),
            },
        ]
    }

    /// The layout of the descriptor set: the uniform block, the dynamic
    /// uniform block, the texture array, then the irradiance, prefilter and
    /// BRDF lookup maps.
    pub fn descriptor_set_layout() -> (bindings: Vec<DescriptorSetLayoutBinding>)
        ensures
            bindings@ == Self::spec_descriptor_set_layout(),
    {
        let mut bindings: Vec<DescriptorSetLayoutBinding> = Vec::new();
        bindings.push(
            layout_binding(0, DescriptorType::UniformBuffer, 1, ShaderStages::vertex_and_fragment()),
        );
        bindings.push(layout_binding(1, DescriptorType::UniformBufferDynamic, 1, ShaderStages::vertex()));
        bindings.push(
            layout_binding(
                2,
                DescriptorType::CombinedImageSampler,
                Self::MAX_TEXTURES as u32,
                ShaderStages::fragment(),
            ),
        );
        bindings.push(layout_binding(3, DescriptorType::CombinedImageSampler, 1, ShaderStages::fragment()));
        bindings.push(layout_binding(4, DescriptorType::CombinedImageSampler, 1, ShaderStages::fragment()));
        bindings.push(layout_binding(5, DescriptorType::CombinedImageSampler, 1, ShaderStages::fragment()));
        bindings
    }

    /// What the pipeline's descriptor pool reserves, one entry per binding.
    pub open spec fn spec_descriptor_pool_sizes() -> Seq<DescriptorPoolSize> {
        seq![
            DescriptorPoolSize { ty: DescriptorType::UniformBuffer, descriptor_count: 1 },
            DescriptorPoolSize { ty: DescriptorType::UniformBufferDynamic, descriptor_count: 1 },
            DescriptorPoolSize { ty: DescriptorType::CombinedImageSampler, descriptor_count: 100 },
            DescriptorPoolSize { ty: DescriptorType::CombinedImageSampler, descriptor_count: 1 },
            DescriptorPoolSize { ty: DescriptorType::CombinedImageSampler, descriptor_count: 1 },
            DescriptorPoolSize { ty: DescriptorType::CombinedImageSampler, descriptor_count: 1 },
        ]
    }

    /// The pool that the descriptor set is allocated from: room for exactly
    /// one set of the layout above.
    pub fn create_descriptor_pool() -> (pool: DescriptorPoolInfo)
        ensures
            pool.max_sets == 1,
            pool.pool_sizes@ == Self::spec_descriptor_pool_sizes(),
    {
        let mut pool_sizes: Vec<DescriptorPoolSize> = Vec::new();
        pool_sizes.push(DescriptorPoolSize { ty: DescriptorType::UniformBuffer, descriptor_count: 1 });
        pool_sizes.push(
            DescriptorPoolSize { ty: DescriptorType::UniformBufferDynamic, descriptor_count: 1 },
        );
        pool_sizes.push(
            DescriptorPoolSize {
                ty: DescriptorType::CombinedImageSampler,
                descriptor_count: Self::MAX_TEXTURES as u32,
            },
        );
        pool_sizes.push(
            DescriptorPoolSize { ty: DescriptorType::CombinedImageSampler, descriptor_count: 1 },
        );
        pool_sizes.push(
            DescriptorPoolSize { ty: DescriptorType::CombinedImageSampler, descriptor_count: 1 },
        );
        pool_sizes.push(
            DescriptorPoolSize { ty: DescriptorType::CombinedImageSampler, descriptor_count: 1 },
        );
        DescriptorPoolInfo { pool_sizes, max_sets: 1 }
    }

    /// The stride between the blocks of two meshes in the dynamic uniform
    /// buffer: the block's size, rounded up to the device's minimum uniform
    /// buffer offset alignment. The stride always holds a block. For an
    /// alignment that is a power of two, as Vulkan has it, the stride is the
    /// least multiple of the alignment that holds a block.
    pub fn calculate_dynamic_alignment(minimum_ubo_alignment: u64) -> (dynamic_alignment: u64)
        requires
            DynamicUniformBufferObject::SIZE + minimum_ubo_alignment <= u64::MAX,
        ensures
            dynamic_alignment == align_up(DynamicUniformBufferObject::SIZE, minimum_ubo_alignment),
            dynamic_alignment >= DynamicUniformBufferObject::SIZE,
            is_power_of_two(minimum_ubo_alignment) ==> {
                &&& dynamic_alignment % minimum_ubo_alignment == 0
                &&& DynamicUniformBufferObject::SIZE <= dynamic_alignment
                    < DynamicUniformBufferObject::SIZE + minimum_ubo_alignment
            },
    {
        proof {
            lemma_align_up_holds_size(DynamicUniformBufferObject::SIZE, minimum_ubo_alignment);
            if is_power_of_two(minimum_ubo_alignment) {
                lemma_align_up_is_least_multiple(
                    DynamicUniformBufferObject::SIZE,
                    minimum_ubo_alignment,
                );
            }
        }
        let dynamic_alignment: u64 = DynamicUniformBufferObject::SIZE;
        if minimum_ubo_alignment > 0 {
            (dynamic_alignment + minimum_ubo_alignment - 1) & !(minimum_ubo_alignment - 1)
        } else {
            dynamic_alignment
        }
    }

    /// The dynamic offset that selects the block of mesh `mesh_index`, or
    /// `None` where it does not fit the 32 bits that a dynamic offset has.
    pub fn dynamic_offset(&self, mesh_index: usize) -> (offset: Option<u32>)
        ensures
            match offset {
                Some(offset) => offset == spec_dynamic_offset(
                    self.dynamic_alignment,
                    mesh_index as nat,
                ),
                None => spec_dynamic_offset(self.dynamic_alignment, mesh_index as nat) > u32::MAX,
            },
    {
        dynamic_offset(self.dynamic_alignment, mesh_index)
    }

    /// What the uniform buffer is created with.
    pub fn uniform_buffer_info() -> (info: BufferCreateInfo)
        ensures
            info == (BufferCreateInfo {
                size: UniformBufferObject::SIZE,
                buffer_usage: BufferUsage::UniformBuffer,
                memory_usage: MemoryUsage::CpuToGpu,
            }),
    {
        BufferCreateInfo {
            size: UniformBufferObject::SIZE,
            buffer_usage: BufferUsage::UniformBuffer,
            memory_usage: MemoryUsage::CpuToGpu,
        }
    }

    /// What the dynamic uniform buffer is created with: one block of
    /// `dynamic_alignment` bytes per mesh. `None` where that is no `u64`.
    pub fn dynamic_uniform_buffer_info(number_of_meshes: usize, dynamic_alignment: u64) -> (info:
        Option<BufferCreateInfo>)
        ensures
            info is Some <==> number_of_meshes * dynamic_alignment <= u64::MAX,
            info matches Some(info) ==> info == (BufferCreateInfo {
                size: (number_of_meshes * dynamic_alignment) as u64,
                buffer_usage: BufferUsage::UniformBuffer,
                memory_usage: MemoryUsage::CpuToGpu,
            }),
    {
        match (number_of_meshes as u64).checked_mul(dynamic_alignment) {
            Some(size) => Some(
                BufferCreateInfo {
                    size,
                    buffer_usage: BufferUsage::UniformBuffer,
                    memory_usage: MemoryUsage::CpuToGpu,
                },
            ),
            None => None,
        }
    }

    /// Bytes of the dynamic uniform buffer for `number_of_meshes` meshes.
    pub open spec fn dynamic_buffer_size(self, number_of_meshes: nat) -> nat {
        number_of_meshes * (self.dynamic_alignment as nat)
    }

    /// The six writes that fill the descriptor set: the uniform block, the
    /// dynamic uniform block over all meshes, the padded texture array, and
    /// the irradiance, prefilter and BRDF lookup maps. Every binding of the
    /// layout is written, and every slot of the texture array.
    pub fn update_descriptor_set(
        &self,
        number_of_meshes: usize,
        textures: &Vec<TextureHandle>,
        environment_maps: &EnvironmentMapSet,
    ) -> (writes: Vec<WriteDescriptorSet>)
        requires
            self.dynamic_buffer_size(number_of_meshes as nat) <= u64::MAX,
        ensures
            writes@.len() == 6,
            writes@[0].is_buffer_write(
                self.descriptor_set,
                0,
                DescriptorType::UniformBuffer,
                seq![
                    DescriptorBufferInfo {
                        buffer: self.uniform_buffer,
                        offset: 0,
                        range: UniformBufferObject::SIZE,
                    },
                ],
            ),
            writes@[1].is_buffer_write(
                self.descriptor_set,
                1,
                DescriptorType::UniformBufferDynamic,
                seq![
                    DescriptorBufferInfo {
                        buffer: self.dynamic_uniform_buffer,
                        offset: 0,
                        range: self.dynamic_buffer_size(number_of_meshes as nat) as u64,
                    },
                ],
            ),
            writes@[2].is_image_write(
                self.descriptor_set,
                2,
                padded_image_infos(textures@, self.dummy),
            ),
            writes@[3].is_image_write(
                self.descriptor_set,
                3,
                seq![DescriptorImageInfo::of(environment_maps.irradiance)],
            ),
            writes@[4].is_image_write(
                self.descriptor_set,
                4,
                seq![DescriptorImageInfo::of(environment_maps.prefilter)],
            ),
            writes@[5].is_image_write(
                self.descriptor_set,
                5,
                seq![DescriptorImageInfo::of(environment_maps.brdflut)],
            ),
    {
        let buffer_info = DescriptorBufferInfo {
            buffer: self.uniform_buffer,
            offset: 0,
            range: UniformBufferObject::SIZE,
        };
        let dynamic_uniform_buffer_size: u64 = number_of_meshes as u64 * self.dynamic_alignment;
        let dynamic_buffer_info = DescriptorBufferInfo {
            buffer: self.dynamic_uniform_buffer,
            offset: 0,
            range: dynamic_uniform_buffer_size,
        };
        let image_infos = self.image_infos(textures);

        let mut writes: Vec<WriteDescriptorSet> = Vec::new();
        writes.push(
            WriteDescriptorSet::buffer(
                self.descriptor_set,
                0,
                DescriptorType::UniformBuffer,
                buffer_info,
            ),
        );
        writes.push(
            WriteDescriptorSet::buffer(
                self.descriptor_set,
                1,
                DescriptorType::UniformBufferDynamic,
                dynamic_buffer_info,
            ),
        );
        writes.push(WriteDescriptorSet::images(self.descriptor_set, 2, image_infos));
        writes.push(
            WriteDescriptorSet::images(
                self.descriptor_set,
                3,
                single_image(environment_maps.irradiance),
            ),
        );
        writes.push(
            WriteDescriptorSet::images(
                self.descriptor_set,
                4,
                single_image(environment_maps.prefilter),
            ),
        );
        writes.push(
            WriteDescriptorSet::images(self.descriptor_set, 5, single_image(environment_maps.brdflut)),
        );
        writes
    }

    /// The image infos written to the texture array: `textures` in order,
    /// padded with the dummy image up to `MAX_TEXTURES` entries.
    pub fn image_infos(&self, textures: &Vec<TextureHandle>) -> (infos: Vec<DescriptorImageInfo>)
        ensures
            infos@ == padded_image_infos(textures@, self.dummy),
    {
        let mut infos: Vec<DescriptorImageInfo> = Vec::new();
        let mut i: usize = 0;
        while i < textures.len()
            invariant
                i <= textures.len(),
                infos@.len() == i,
                forall|j: int| 0 <= j < i ==> infos@[j] == DescriptorImageInfo::of(textures@[j]),
            decreases textures.len() - i,
        {
            infos.push(DescriptorImageInfo::new(textures[i]));
            i += 1;
        }
        while infos.len() < Self::MAX_TEXTURES
            invariant
                infos@.len() >= textures@.len(),
                forall|j: int|
                    0 <= j < textures@.len() ==> infos@[j] == DescriptorImageInfo::of(textures@[j]),
                forall|j: int|
                    textures@.len() <= j < infos@.len() ==> infos@[j] == DescriptorImageInfo::of(
                        self.dummy,
                    ),
                infos@.len() <= Self::MAX_TEXTURES || infos@.len() == textures@.len(),
            decreases Self::MAX_TEXTURES - infos.len(),
        {
            infos.push(DescriptorImageInfo::new(self.dummy));
        }
        infos
    }
}

/// `x` is a power of two.
pub open spec fn is_power_of_two(x: u64) -> bool {
    exists|k: nat| k < 64 && x == #[trigger] pow2(k)
}

/// `size` rounded up to the next multiple of `alignment` by masking, which is
/// what it is for an alignment that is a power of two; `size` itself for no
/// alignment.
pub open spec fn align_up(size: u64, alignment: u64) -> u64 {
    if alignment > 0 {
        ((size + alignment - 1) as u64) & !((alignment - 1) as u64)
    } else {
        size
    }
}

/// Whatever the alignment, `align_up` gives no less than `size`.
pub proof fn lemma_align_up_holds_size(size: u64, alignment: u64)
    requires
        size + alignment <= u64::MAX,
    ensures
        align_up(size, alignment) >= size,
{
    if alignment > 0 {
        let mask: u64 = (alignment - 1) as u64;
        let x: u64 = (size + alignment - 1) as u64;
        assert(x & !mask >= x - mask) by (bit_vector)
            requires
                x >= mask,
        ;
    }
}

/// For an alignment that is a power of two, `align_up` gives the least
/// multiple of the alignment that is not below `size`.
pub proof fn lemma_align_up_is_least_multiple(size: u64, alignment: u64)
    requires
        is_power_of_two(alignment),
        size + alignment <= u64::MAX,
    ensures
        align_up(size, alignment) % alignment == 0,
        size <= align_up(size, alignment) < size + alignment,
{
    let k = choose|k: nat| k < 64 && alignment == #[trigger] pow2(k);
    lemma_pow2_pos(k);
    let mask: u64 = (alignment - 1) as u64;
    let x: u64 = (size + alignment - 1) as u64;
    let up: u64 = x & !mask;
    lemma_u64_low_bits_mask_is_mod(x, k);
    lemma_u64_low_bits_mask_is_mod(up, k);
    assert((x & !mask) & mask == 0) by (bit_vector);
    assert((x & !mask) + (x & mask) == x) by (bit_vector);
}

/// Offset law of the dynamic uniform buffer. Where the device's minimum
/// uniform buffer offset alignment is a power of two, as Vulkan has it, the
/// offset `dynamic_alignment * n` of every instance `n` is a multiple of it:
/// the byte at which the block of a mesh is uploaded and the dynamic offset
/// that its draw binds, which are the same number.
pub proof fn lemma_dynamic_offset_is_aligned(minimum_ubo_alignment: u64, n: nat)
    requires
        is_power_of_two(minimum_ubo_alignment),
        DynamicUniformBufferObject::SIZE + minimum_ubo_alignment <= u64::MAX,
    ensures
        (align_up(DynamicUniformBufferObject::SIZE, minimum_ubo_alignment) * n)
            % (minimum_ubo_alignment as int) == 0,
        spec_dynamic_offset(
            align_up(DynamicUniformBufferObject::SIZE, minimum_ubo_alignment),
            n,
        ) % (minimum_ubo_alignment as nat) == 0,
{
    let alignment = align_up(DynamicUniformBufferObject::SIZE, minimum_ubo_alignment);
    lemma_align_up_is_least_multiple(DynamicUniformBufferObject::SIZE, minimum_ubo_alignment);
    vstd::arithmetic::div_mod::lemma_mul_mod_noop_left(
        alignment as int,
        n as int,
        minimum_ubo_alignment as int,
    );
    vstd::arithmetic::div_mod::lemma_small_mod(0, minimum_ubo_alignment as nat);
}

/// The one-element list that binds `texture` alone.
pub fn single_image(texture: TextureHandle) -> (infos: Vec<DescriptorImageInfo>)
    ensures
        infos@ == seq![DescriptorImageInfo::of(texture)],
{
    let mut infos: Vec<DescriptorImageInfo> = Vec::new();
    infos.push(DescriptorImageInfo::new(texture));
    infos
}

/// Padding law of the texture array. For fewer textures than the array has
/// slots, the written entries are the textures in order followed by the dummy
/// image in each of the remaining `MAX_TEXTURES - k` slots, and exactly
/// `MAX_TEXTURES` entries are written in all.
pub proof fn lemma_texture_array_padding(textures: Seq<TextureHandle>, dummy: TextureHandle)
    requires
        textures.len() < PbrPipelineData::MAX_TEXTURES,
    ensures
        padded_image_infos(textures, dummy).len() == PbrPipelineData::MAX_TEXTURES,
        padded_image_infos(textures, dummy).subrange(0, textures.len() as int)
            == textures.map_values(|t: TextureHandle| DescriptorImageInfo::of(t)),
        padded_image_infos(textures, dummy).subrange(
            textures.len() as int,
            PbrPipelineData::MAX_TEXTURES as int,
        ) == Seq::new(
            (PbrPipelineData::MAX_TEXTURES - textures.len()) as nat,
            |i: int| DescriptorImageInfo::of(dummy),
        ),
{
}

/// Where the block of mesh `mesh_index` begins in a dynamic uniform buffer
/// whose blocks are `dynamic_alignment` bytes apart.
pub open spec fn spec_dynamic_offset(dynamic_alignment: u64, mesh_index: nat) -> nat {
    (dynamic_alignment as nat) * mesh_index
}

/// The dynamic offset that selects the block of mesh `mesh_index`, or `None`
/// where it does not fit the 32 bits that a dynamic offset has.
pub fn dynamic_offset(dynamic_alignment: u64, mesh_index: usize) -> (offset: Option<u32>)
    ensures
        match offset {
            Some(offset) => offset == spec_dynamic_offset(dynamic_alignment, mesh_index as nat),
            None => spec_dynamic_offset(dynamic_alignment, mesh_index as nat) > u32::MAX,
        },
{
    match dynamic_alignment.checked_mul(mesh_index as u64) {
        Some(offset) => {
            if offset <= u32::MAX as u64 {
                Some(offset as u32)
            } else {
                None
            }
        },
        None => None,
    }
}

/// The byte at which the block of mesh `mesh_index` is uploaded to the
/// dynamic uniform buffer; `None` where it is no `u64`. It is the offset
/// that a draw of the mesh binds, wherever that fits a dynamic offset.
pub fn upload_offset(dynamic_alignment: u64, mesh_index: usize) -> (offset: Option<u64>)
    ensures
        match offset {
            Some(offset) => offset == spec_dynamic_offset(dynamic_alignment, mesh_index as nat),
            None => spec_dynamic_offset(dynamic_alignment, mesh_index as nat) > u64::MAX,
        },
{
    dynamic_alignment.checked_mul(mesh_index as u64)
}

/// The number of bytes that are flushed after the block of a mesh was
/// uploaded: the blocks of all `number_of_meshes` meshes of its asset.
/// `None` where that is no `u64`.
pub fn flush_size(dynamic_alignment: u64, number_of_meshes: usize) -> (size: Option<u64>)
    ensures
        match size {
            Some(size) => size == spec_dynamic_offset(dynamic_alignment, number_of_meshes as nat),
            None => spec_dynamic_offset(dynamic_alignment, number_of_meshes as nat) > u64::MAX,
        },
{
    dynamic_alignment.checked_mul(number_of_meshes as u64)
}

/// Upload law of the dynamic uniform buffer. The byte at which the block of
/// a mesh is uploaded is the dynamic offset that its draw binds. With a
/// stride that holds a block, the blocks of two meshes do not overlap: the
/// block of the mesh with the lower index ends before the other begins.
pub proof fn lemma_mesh_blocks_do_not_overlap(dynamic_alignment: u64, first: nat, second: nat)
    requires
        dynamic_alignment >= DynamicUniformBufferObject::SIZE,
        first < second,
    ensures
        spec_dynamic_offset(dynamic_alignment, first) + DynamicUniformBufferObject::SIZE
            <= spec_dynamic_offset(dynamic_alignment, second),
{
    assert(dynamic_alignment * first + dynamic_alignment <= dynamic_alignment * second)
        by (nonlinear_arith)
        requires
            first < second,
    ;
}

/// How a material's alpha channel is used.
#[derive(Clone, Copy, Debug, PartialEq, Eq, Structural)]
pub enum AlphaMode {
    /// Alpha is ignored.
    Opaque,
    /// A fragment is either kept or dropped, by the alpha cutoff.
    Mask,
    /// The fragment is blended with what is behind it.
    Blend,
}

impl AlphaMode {
    /// The number that the shaders know the mode by.
    pub open spec fn spec_code(self) -> i32 {
        match self {
            AlphaMode::Opaque => 1,
            AlphaMode::Mask => 2,
            AlphaMode::Blend => 3,
        }
    }

    /// The number that the shaders know the mode by.
    #[verifier::when_used_as_spec(spec_code)]
    pub fn code(self) -> (code: i32)
        ensures
            code == self.spec_code(),
    {
        match self {
            AlphaMode::Opaque => 1,
            AlphaMode::Mask => 2,
            AlphaMode::Blend => 3,
        }
    }
}

/// What the physically based pipeline reads of a material. Floats are
/// carried by their bit patterns, textures by their index in the asset.
#[derive(Clone, Copy, Debug, PartialEq, Eq, Structural)]
pub struct Material {
    pub alpha_mode: AlphaMode,
    pub alpha_cutoff: u32,
    pub base_color_factor: Vec4Bits,
    pub metallic_factor: u32,
    pub roughness_factor: u32,
    pub emissive_factor: Vec3Bits,
    pub base_color_texture: Option<u32>,
    pub metallic_roughness_texture: Option<u32>,
    pub normal_texture: Option<u32>,
    pub occlusion_texture: Option<u32>,
    pub emissive_texture: Option<u32>,
}

/// A run of indices that is drawn with one material.
#[derive(Clone, Copy, Debug, PartialEq, Eq, Structural)]
pub struct Primitive {
    pub first_index: u32,
    pub number_of_indices: u32,
    pub material_index: Option<usize>,
}

/// A mesh of an asset; `mesh_id` numbers the meshes of the asset from 0.
#[derive(Clone, Debug, PartialEq, Eq)]
pub struct Mesh {
    pub mesh_id: usize,
    pub primitives: Vec<Primitive>,
}

/// What the draw passes read of a loaded asset: its meshes in the order in
/// which the scene graph is walked, its materials, and how much it adds to
/// the shared texture array, uniform buffer, index buffer and vertex buffer.
#[derive(Clone, Debug, PartialEq, Eq)]
pub struct GltfAsset {
    pub meshes: Vec<Mesh>,
    pub materials: Vec<Material>,
    pub number_of_textures: usize,
    pub number_of_meshes: usize,
    pub number_of_indices: usize,
    pub number_of_vertices: usize,
}

/// Where an asset's textures, meshes, indices and vertices begin in the
/// buffers that all assets share.
#[derive(Clone, Copy, Debug, PartialEq, Eq, Structural)]
pub struct GltfOffsets {
    pub texture_offset: i32,
    pub mesh_offset: usize,
    pub index_offset: u32,
    pub vertex_offset: u32,
}

impl Default for GltfOffsets {
    fn default() -> (offsets: Self)
        ensures
            offsets == (GltfOffsets {
                texture_offset: 0,
                mesh_offset: 0,
                index_offset: 0,
                vertex_offset: 0,
            }),
    {
        GltfOffsets { texture_offset: 0, mesh_offset: 0, index_offset: 0, vertex_offset: 0 }
    }
}

/// The bit pattern of the float 1.0.
pub const ONE_BITS: u32 = 0x3f80_0000;

/// The texture set of a material that has no such texture.
pub const NO_TEXTURE: i32 = -1;

/// The place of a texture in the shared texture array, or -1 for none.
pub open spec fn texture_set(texture_offset: i32, texture: Option<u32>) -> int {
    match texture {
        Some(index) => texture_offset + index,
        None => NO_TEXTURE as int,
    }
}

/// The place of a texture in the shared texture array, or -1 for none;
/// `None` where the place is no `i32`.
pub fn checked_texture_set(texture_offset: i32, texture: Option<u32>) -> (set: Option<i32>)
    ensures
        match set {
            Some(set) => set == texture_set(texture_offset, texture),
            None => texture_set(texture_offset, texture) > i32::MAX,
        },
{
    match texture {
        Some(index) => {
            let place: i64 = texture_offset as i64 + index as i64;
            if place <= i32::MAX as i64 {
                Some(place as i32)
            } else {
                None
            }
        },
        None => Some(NO_TEXTURE),
    }
}

/// The material of `primitive` in `asset`, where it names one that exists.
pub open spec fn material_of(asset: GltfAsset, primitive: Primitive) -> Option<Material> {
    match primitive.material_index {
        Some(index) => if index < asset.materials@.len() {
            Some(asset.materials@[index as int])
        } else {
            None
        },
        None => None,
    }
}

/// The primitive names no material, or one that the asset has.
pub open spec fn has_valid_material(asset: GltfAsset, primitive: Primitive) -> bool {
    primitive.material_index matches Some(index) ==> index < asset.materials@.len()
}

/// The alpha mode that a primitive is drawn in: that of its material, opaque
/// without one.
pub open spec fn alpha_mode_of(asset: GltfAsset, primitive: Primitive) -> AlphaMode {
    match material_of(asset, primitive) {
        Some(material) => material.alpha_mode,
        None => AlphaMode::Opaque,
    }
}

/// Every texture of the material has a place in the texture array that is an
/// `i32`.
pub open spec fn textures_fit(material: Option<Material>, texture_offset: i32) -> bool {
    material matches Some(material) ==> {
        &&& texture_set(texture_offset, material.base_color_texture) <= i32::MAX
        &&& texture_set(texture_offset, material.metallic_roughness_texture) <= i32::MAX
        &&& texture_set(texture_offset, material.normal_texture) <= i32::MAX
        &&& texture_set(texture_offset, material.occlusion_texture) <= i32::MAX
        &&& texture_set(texture_offset, material.emissive_texture) <= i32::MAX
    }
}

/// The block that is pushed for a primitive with the given material: the
/// material's factors and the places of its textures, or, without a material,
/// black base colour, no texture, and the opaque mode.
pub open spec fn material_block(material: Option<Material>, texture_offset: i32)
    -> PushConstantBlockMaterial {
    match material {
        Some(material) => PushConstantBlockMaterial {
            base_color_factor: material.base_color_factor,
            emissive_factor: material.emissive_factor,
            color_texture_set: texture_set(texture_offset, material.base_color_texture) as i32,
            metallic_roughness_texture_set: texture_set(
                texture_offset,
                material.metallic_roughness_texture,
            ) as i32,
            normal_texture_set: texture_set(texture_offset, material.normal_texture) as i32,
            occlusion_texture_set: texture_set(texture_offset, material.occlusion_texture) as i32,
            emissive_texture_set: texture_set(texture_offset, material.emissive_texture) as i32,
            metallic_factor: material.metallic_factor,
            roughness_factor: material.roughness_factor,
            alpha_mode: material.alpha_mode.code(),
            alpha_cutoff: material.alpha_cutoff,
        },
        None => PushConstantBlockMaterial {
            base_color_factor: Vec4Bits { x: 0, y: 0, z: 0, w: ONE_BITS },
            emissive_factor: Vec3Bits { x: ONE_BITS, y: 0, z: 0 },
            color_texture_set: NO_TEXTURE,
            metallic_roughness_texture_set: NO_TEXTURE,
            normal_texture_set: NO_TEXTURE,
            occlusion_texture_set: NO_TEXTURE,
            emissive_texture_set: NO_TEXTURE,
            metallic_factor: 0,
            roughness_factor: 0,
            alpha_mode: AlphaMode::Opaque.code(),
            alpha_cutoff: 0,
        },
    }
}

/// What a draw of the physically based pipeline binds.
#[derive(Clone, Copy, Debug, PartialEq, Eq, Structural)]
pub struct PbrRenderer {
    pub pipeline_layout: u64,
    pub dynamic_alignment: u64,
    pub descriptor_set: u64,
}

/// The primitive can be drawn at `offsets`: its first index, the vertex
/// offset and the places of its textures fit the types that a draw takes.
pub open spec fn primitive_fits(asset: GltfAsset, primitive: Primitive, offsets: GltfOffsets) -> bool {
    &&& textures_fit(material_of(asset, primitive), offsets.texture_offset)
    &&& offsets.index_offset + primitive.first_index <= u32::MAX
    &&& offsets.vertex_offset <= i32::MAX
}

/// The primitive can take part in the pass for `alpha_mode`: its material
/// exists, and it fits if the pass draws it.
pub open spec fn primitive_ok(
    asset: GltfAsset,
    primitive: Primitive,
    offsets: GltfOffsets,
    alpha_mode: AlphaMode,
) -> bool {
    &&& has_valid_material(asset, primitive)
    &&& alpha_mode_of(asset, primitive) == alpha_mode ==> primitive_fits(asset, primitive, offsets)
}

/// The push of the primitive's material and its indexed draw.
pub open spec fn primitive_commands(
    renderer: PbrRenderer,
    asset: GltfAsset,
    primitive: Primitive,
    offsets: GltfOffsets,
) -> Seq<GpuCommand> {
    seq![
        GpuCommand::PushConstants {
            layout: renderer.pipeline_layout,
            material: material_block(material_of(asset, primitive), offsets.texture_offset),
        },
        GpuCommand::DrawIndexed {
            index_count: primitive.number_of_indices,
            instance_count: 1,
            first_index: (offsets.index_offset + primitive.first_index) as u32,
            vertex_offset: offsets.vertex_offset as i32,
            first_instance: 0,
        },
    ]
}

/// The commands of the first `n` of `primitives` in the pass for
/// `alpha_mode`: those of each primitive of that mode, in order, and nothing
/// for the others.
pub open spec fn primitives_commands(
    renderer: PbrRenderer,
    asset: GltfAsset,
    primitives: Seq<Primitive>,
    offsets: GltfOffsets,
    alpha_mode: AlphaMode,
    n: nat,
) -> Seq<GpuCommand>
    decreases n,
{
    if n == 0 {
        Seq::empty()
    } else {
        let before = primitives_commands(
            renderer,
            asset,
            primitives,
            offsets,
            alpha_mode,
            (n - 1) as nat,
        );
        if alpha_mode_of(asset, primitives[n - 1]) == alpha_mode {
            before + primitive_commands(renderer, asset, primitives[n - 1], offsets)
        } else {
            before
        }
    }
}

/// The index of the mesh among the meshes of all assets.
pub open spec fn global_mesh_index(mesh: Mesh, offsets: GltfOffsets) -> nat {
    (offsets.mesh_offset + mesh.mesh_id) as nat
}

/// The mesh can take part in the pass: its dynamic offset is a `u32` and
/// each of its primitives can take part.
pub open spec fn mesh_ok(
    renderer: PbrRenderer,
    asset: GltfAsset,
    mesh: Mesh,
    offsets: GltfOffsets,
    alpha_mode: AlphaMode,
) -> bool {
    &&& global_mesh_index(mesh, offsets) <= usize::MAX
    &&& spec_dynamic_offset(renderer.dynamic_alignment, global_mesh_index(mesh, offsets))
        <= u32::MAX
    &&& forall|j: int|
        0 <= j < mesh.primitives@.len() ==> primitive_ok(
            asset,
            #[trigger] mesh.primitives@[j],
            offsets,
            alpha_mode,
        )
}

/// The commands of a mesh in the pass for `alpha_mode`: the descriptor set
/// is bound at the dynamic offset of the mesh's uniform block, then the
/// primitives of that mode are drawn.
pub open spec fn mesh_commands(
    renderer: PbrRenderer,
    asset: GltfAsset,
    mesh: Mesh,
    offsets: GltfOffsets,
    alpha_mode: AlphaMode,
) -> Seq<GpuCommand> {
    seq![
        GpuCommand::BindDescriptorSet {
            layout: renderer.pipeline_layout,
            descriptor_set: renderer.descriptor_set,
            dynamic_offset: Some(
                spec_dynamic_offset(
                    renderer.dynamic_alignment,
                    global_mesh_index(mesh, offsets),
                ) as u32,
            ),
        },
    ] + primitives_commands(
        renderer,
        asset,
        mesh.primitives@,
        offsets,
        alpha_mode,
        mesh.primitives@.len(),
    )
}

/// The commands of the first `n` meshes of `asset` in the pass for
/// `alpha_mode`.
pub open spec fn meshes_commands(
    renderer: PbrRenderer,
    asset: GltfAsset,
    offsets: GltfOffsets,
    alpha_mode: AlphaMode,
    n: nat,
) -> Seq<GpuCommand>
    decreases n,
{
    if n == 0 {
        Seq::empty()
    } else {
        meshes_commands(renderer, asset, offsets, alpha_mode, (n - 1) as nat) + mesh_commands(
            renderer,
            asset,
            asset.meshes@[n - 1],
            offsets,
            alpha_mode,
        )
    }
}

/// Every mesh of the asset can take part in the pass for `alpha_mode`.
pub open spec fn asset_ok(
    renderer: PbrRenderer,
    asset: GltfAsset,
    offsets: GltfOffsets,
    alpha_mode: AlphaMode,
) -> bool {
    forall|i: int|
        0 <= i < asset.meshes@.len() ==> mesh_ok(
            renderer,
            asset,
            #[trigger] asset.meshes@[i],
            offsets,
            alpha_mode,
        )
}

/// The commands of `asset` in the pass for `alpha_mode`.
pub open spec fn asset_commands(
    renderer: PbrRenderer,
    asset: GltfAsset,
    offsets: GltfOffsets,
    alpha_mode: AlphaMode,
) -> Seq<GpuCommand> {
    meshes_commands(renderer, asset, offsets, alpha_mode, asset.meshes@.len())
}

impl PbrRenderer {
    /// What draws with `pipeline_layout` bind of `pipeline_data`.
    pub fn new(pipeline_layout: u64, pipeline_data: &PbrPipelineData) -> (renderer: Self)
        ensures
            renderer == (PbrRenderer {
                pipeline_layout,
                dynamic_alignment: pipeline_data.dynamic_alignment,
                descriptor_set: pipeline_data.descriptor_set,
            }),
    {
        PbrRenderer {
            pipeline_layout,
            dynamic_alignment: pipeline_data.dynamic_alignment,
            descriptor_set: pipeline_data.descriptor_set,
        }
    }

    /// The material block of a primitive whose textures begin at
    /// `texture_offset` in the shared texture array. `None` where the
    /// primitive names a material that the asset does not have, or where a
    /// texture's place is no `i32`.
    pub fn create_material(asset: &GltfAsset, primitive: &Primitive, texture_offset: i32) -> (block:
        Option<PushConstantBlockMaterial>)
        ensures
            block is Some <==> has_valid_material(*asset, *primitive) && textures_fit(
                material_of(*asset, *primitive),
                texture_offset,
            ),
            block matches Some(block) ==> block == material_block(
                material_of(*asset, *primitive),
                texture_offset,
            ),
    {
        let material: Material = match primitive.material_index {
            Some(index) => {
                if index < asset.materials.len() {
                    asset.materials[index]
                } else {
                    return None;
                }
            },
            None => {
                return Some(
                    PushConstantBlockMaterial {
                        base_color_factor: Vec4Bits { x: 0, y: 0, z: 0, w: ONE_BITS },
                        emissive_factor: Vec3Bits { x: ONE_BITS, y: 0, z: 0 },
                        color_texture_set: NO_TEXTURE,
                        metallic_roughness_texture_set: NO_TEXTURE,
                        normal_texture_set: NO_TEXTURE,
                        occlusion_texture_set: NO_TEXTURE,
                        emissive_texture_set: NO_TEXTURE,
                        metallic_factor: 0,
                        roughness_factor: 0,
                        alpha_mode: AlphaMode::Opaque.code(),
                        alpha_cutoff: 0,
                    },
                );
            },
        };
        let color_texture_set: i32 = match checked_texture_set(
            texture_offset,
            material.base_color_texture,
        ) {
            Some(set) => set,
            None => {
                return None;
            },
        };
        let metallic_roughness_texture_set: i32 = match checked_texture_set(
            texture_offset,
            material.metallic_roughness_texture,
        ) {
            Some(set) => set,
            None => {
                return None;
            },
        };
        let normal_texture_set: i32 = match checked_texture_set(
            texture_offset,
            material.normal_texture,
        ) {
            Some(set) => set,
            None => {
                return None;
            },
        };
        let occlusion_texture_set: i32 = match checked_texture_set(
            texture_offset,
            material.occlusion_texture,
        ) {
            Some(set) => set,
            None => {
                return None;
            },
        };
        let emissive_texture_set: i32 = match checked_texture_set(
            texture_offset,
            material.emissive_texture,
        ) {
            Some(set) => set,
            None => {
                return None;
            },
        };
        Some(
            PushConstantBlockMaterial {
                base_color_factor: material.base_color_factor,
                emissive_factor: material.emissive_factor,
                color_texture_set,
                metallic_roughness_texture_set,
                normal_texture_set,
                occlusion_texture_set,
                emissive_texture_set,
                metallic_factor: material.metallic_factor,
                roughness_factor: material.roughness_factor,
                alpha_mode: material.alpha_mode.code(),
                alpha_cutoff: material.alpha_cutoff,
            },
        )
    }

    /// The commands that draw the primitives of `asset` whose alpha mode is
    /// `alpha_mode`, mesh by mesh. `None` where a mesh or primitive cannot
    /// take part in the pass.
    pub fn draw_asset(&self, asset: &GltfAsset, offsets: &GltfOffsets, alpha_mode: AlphaMode) -> (commands:
        Option<Vec<GpuCommand>>)
        ensures
            commands is Some <==> asset_ok(*self, *asset, *offsets, alpha_mode),
            commands matches Some(commands) ==> commands@ == asset_commands(
                *self,
                *asset,
                *offsets,
                alpha_mode,
            ),
    {
        let mut commands: Vec<GpuCommand> = Vec::new();
        let mut m: usize = 0;
        while m < asset.meshes.len()
            invariant
                m <= asset.meshes@.len(),
                commands@ == meshes_commands(*self, *asset, *offsets, alpha_mode, m as nat),
                forall|i: int|
                    0 <= i < m ==> mesh_ok(
                        *self,
                        *asset,
                        #[trigger] asset.meshes@[i],
                        *offsets,
                        alpha_mode,
                    ),
            decreases asset.meshes@.len() - m,
        {
            let mesh = &asset.meshes[m];
            let mesh_index: usize = match offsets.mesh_offset.checked_add(mesh.mesh_id) {
                Some(index) => index,
                None => {
                    return None;
                },
            };
            let offset: u32 = match dynamic_offset(self.dynamic_alignment, mesh_index) {
                Some(offset) => offset,
                None => {
                    return None;
                },
            };
            let ghost before = commands@;
            commands.push(
                GpuCommand::BindDescriptorSet {
                    layout: self.pipeline_layout,
                    descriptor_set: self.descriptor_set,
                    dynamic_offset: Some(offset),
                },
            );
            let ghost bind = commands@.subrange(before.len() as int, commands@.len() as int);
            let mut p: usize = 0;
            while p < mesh.primitives.len()
                invariant
                    p <= mesh.primitives@.len(),
                    m < asset.meshes@.len(),
                    *mesh == asset.meshes@[m as int],
                    commands@ == before + bind + primitives_commands(
                        *self,
                        *asset,
                        mesh.primitives@,
                        *offsets,
                        alpha_mode,
                        p as nat,
                    ),
                    forall|j: int|
                        0 <= j < p ==> primitive_ok(
                            *asset,
                            #[trigger] mesh.primitives@[j],
                            *offsets,
                            alpha_mode,
                        ),
                decreases mesh.primitives@.len() - p,
            {
                let primitive: Primitive = mesh.primitives[p];
                let primitive_alpha_mode: AlphaMode = match primitive.material_index {
                    Some(index) => {
                        if index < asset.materials.len() {
                            asset.materials[index].alpha_mode
                        } else {
                            return None;
                        }
                    },
                    None => AlphaMode::Opaque,
                };
                if primitive_alpha_mode == alpha_mode {
                    let block = Self::create_material(asset, &primitive, offsets.texture_offset);
                    let first_index = offsets.index_offset.checked_add(primitive.first_index);
                    if block.is_none() || first_index.is_none() || offsets.vertex_offset
                        > i32::MAX as u32 {
                        return None;
                    }
                    commands.push(
                        GpuCommand::PushConstants {
                            layout: self.pipeline_layout,
                            material: block.unwrap(),
                        },
                    );
                    commands.push(
                        GpuCommand::DrawIndexed {
                            index_count: primitive.number_of_indices,
                            instance_count: 1,
                            first_index: first_index.unwrap(),
                            vertex_offset: offsets.vertex_offset as i32,
                            first_instance: 0,
                        },
                    );
                }
                p += 1;
            }
            m += 1;
        }
        Some(commands)
    }
}


/// How much the first assets of a scene add to the shared buffers.
pub struct OffsetSums {
    pub textures: int,
    pub meshes: int,
    pub indices: int,
    pub vertices: int,
}

impl OffsetSums {
    /// Each sum fits the type that the offset is carried in.
    pub open spec fn fits(self) -> bool {
        &&& self.textures <= i32::MAX
        &&& self.meshes <= usize::MAX
        &&& self.indices <= u32::MAX
        &&& self.vertices <= u32::MAX
    }

    /// The sums as offsets.
    pub open spec fn offsets(self) -> GltfOffsets {
        GltfOffsets {
            texture_offset: self.textures as i32,
            mesh_offset: self.meshes as usize,
            index_offset: self.indices as u32,
            vertex_offset: self.vertices as u32,
        }
    }
}

/// What the first `n` of `assets` add to the shared buffers: where asset `n`
/// begins in them.
pub open spec fn offset_sums(assets: Seq<GltfAsset>, n: nat) -> OffsetSums
    decreases n,
{
    if n == 0 {
        OffsetSums { textures: 0, meshes: 0, indices: 0, vertices: 0 }
    } else {
        let before = offset_sums(assets, (n - 1) as nat);
        OffsetSums {
            textures: before.textures + assets[n - 1].number_of_textures,
            meshes: before.meshes + assets[n - 1].number_of_meshes,
            indices: before.indices + assets[n - 1].number_of_indices,
            vertices: before.vertices + assets[n - 1].number_of_vertices,
        }
    }
}

/// Asset `k` can take part in the pass for `alpha_mode`, and the offsets
/// before and after it fit.
pub open spec fn pass_ok_at(
    renderer: PbrRenderer,
    assets: Seq<GltfAsset>,
    alpha_mode: AlphaMode,
    k: int,
) -> bool {
    &&& offset_sums(assets, k as nat).fits()
    &&& offset_sums(assets, (k + 1) as nat).fits()
    &&& asset_ok(renderer, assets[k], offset_sums(assets, k as nat).offsets(), alpha_mode)
}

/// Every asset can take part in the pass for `alpha_mode`.
pub open spec fn pass_ok(renderer: PbrRenderer, assets: Seq<GltfAsset>, alpha_mode: AlphaMode) -> bool {
    forall|k: int| 0 <= k < assets.len() ==> #[trigger] pass_ok_at(renderer, assets, alpha_mode, k)
}

/// The commands of the first `n` assets in the pass for `alpha_mode`, each
/// asset at the offsets that the assets before it leave.
pub open spec fn pass_commands(
    renderer: PbrRenderer,
    assets: Seq<GltfAsset>,
    alpha_mode: AlphaMode,
    n: nat,
) -> Seq<GpuCommand>
    decreases n,
{
    if n == 0 {
        Seq::empty()
    } else {
        pass_commands(renderer, assets, alpha_mode, (n - 1) as nat) + asset_commands(
            renderer,
            assets[n - 1],
            offset_sums(assets, (n - 1) as nat).offsets(),
            alpha_mode,
        )
    }
}

/// The offsets after `asset`, which begins at `offsets`; `None` where one of
/// them no longer fits its type.
pub fn advance_offsets(offsets: &GltfOffsets, asset: &GltfAsset) -> (next: Option<GltfOffsets>)
    ensures
        match next {
            Some(next) => {
                &&& next.texture_offset == offsets.texture_offset + asset.number_of_textures
                &&& next.mesh_offset == offsets.mesh_offset + asset.number_of_meshes
                &&& next.index_offset == offsets.index_offset + asset.number_of_indices
                &&& next.vertex_offset == offsets.vertex_offset + asset.number_of_vertices
            },
            None => {
                ||| offsets.texture_offset + asset.number_of_textures > i32::MAX
                ||| offsets.mesh_offset + asset.number_of_meshes > usize::MAX
                ||| offsets.index_offset + asset.number_of_indices > u32::MAX
                ||| offsets.vertex_offset + asset.number_of_vertices > u32::MAX
            },
        },
{
    let texture_room: i64 = i32::MAX as i64 - offsets.texture_offset as i64;
    if asset.number_of_textures as u64 > texture_room as u64 {
        return None;
    }
    if asset.number_of_meshes > usize::MAX - offsets.mesh_offset {
        return None;
    }
    if asset.number_of_indices > (u32::MAX - offsets.index_offset) as usize {
        return None;
    }
    if asset.number_of_vertices > (u32::MAX - offsets.vertex_offset) as usize {
        return None;
    }
    Some(
        GltfOffsets {
            texture_offset: (offsets.texture_offset as i64 + asset.number_of_textures as i64) as i32,
            mesh_offset: offsets.mesh_offset + asset.number_of_meshes,
            index_offset: offsets.index_offset + asset.number_of_indices as u32,
            vertex_offset: offsets.vertex_offset + asset.number_of_vertices as u32,
        },
    )
}

impl PbrRenderer {
    /// The pass for `alpha_mode` over all assets: each asset is drawn at the
    /// offsets that the assets before it leave. `None` where an asset cannot
    /// take part or an offset does not fit.
    pub fn draw_pass(&self, assets: &Vec<GltfAsset>, alpha_mode: AlphaMode) -> (commands: Option<
        Vec<GpuCommand>,
    >)
        ensures
            commands is Some <==> pass_ok(*self, assets@, alpha_mode),
            commands matches Some(commands) ==> commands@ == pass_commands(
                *self,
                assets@,
                alpha_mode,
                assets@.len(),
            ),
    {
        let mut commands: Vec<GpuCommand> = Vec::new();
        let mut offsets = GltfOffsets::default();
        let mut k: usize = 0;
        while k < assets.len()
            invariant
                k <= assets@.len(),
                offset_sums(assets@, k as nat).fits(),
                offsets == offset_sums(assets@, k as nat).offsets(),
                offset_sums(assets@, k as nat).textures >= 0,
                offset_sums(assets@, k as nat).meshes >= 0,
                offset_sums(assets@, k as nat).indices >= 0,
                offset_sums(assets@, k as nat).vertices >= 0,
                commands@ == pass_commands(*self, assets@, alpha_mode, k as nat),
                forall|i: int| 0 <= i < k ==> #[trigger] pass_ok_at(*self, assets@, alpha_mode, i),
            decreases assets@.len() - k,
        {
            let asset = &assets[k];
            let drawn = match self.draw_asset(asset, &offsets, alpha_mode) {
                Some(drawn) => drawn,
                None => {
                    assert(!pass_ok_at(*self, assets@, alpha_mode, k as int));
                    return None;
                },
            };
            let next = match advance_offsets(&offsets, asset) {
                Some(next) => next,
                None => {
                    assert(!pass_ok_at(*self, assets@, alpha_mode, k as int));
                    return None;
                },
            };
            append_commands(&mut commands, &drawn);
            offsets = next;
            k += 1;
        }
        Some(commands)
    }
}

/// The opaque and the alpha-blended pipeline of the physically based scene,
/// built from the same settings.
#[derive(Clone, Debug, PartialEq, Eq)]
pub struct PbrPipelines {
    pub settings: RenderPipelineSettings,
    pub opaque: GraphicsPipelineCreateInfo,
    pub blended: GraphicsPipelineCreateInfo,
}

/// The settings of the physically based pipelines: the defaults, with the
/// device's sample count, sample shading, and the material block as push
/// constants.
pub open spec fn pbr_settings(
    render_pass: u64,
    vertex_state_info: VertexInputState,
    descriptor_set_layout: u64,
    shader_set: ShaderSet,
    rasterization_samples: u32,
) -> RenderPipelineSettings {
    RenderPipelineSettings {
        render_pass,
        vertex_state_info,
        descriptor_set_layout,
        shader_set,
        blended: false,
        depth_test_enabled: true,
        depth_write_enabled: true,
        stencil_test_enabled: false,
        stencil_front_state: crate::vulkan::pipeline::StencilOpState::spec_default(),
        stencil_back_state: crate::vulkan::pipeline::StencilOpState::spec_default(),
        push_constant_range: Some(
            PushConstantRange { offset: 0, size: PushConstantBlockMaterial::SIZE },
        ),
        rasterization_samples,
        sample_shading_enabled: true,
        cull_mode: crate::vulkan::pipeline::CullMode::Off,
    }
}

/// The two pipelines that the scene is drawn with after the render pass was
/// replaced by `render_pass`. The blended pipeline is the opaque one but for
/// the blend state of its colour attachment. `None` where the shader set
/// lacks the vertex or the fragment shader.
pub fn recreate_pipelines(
    render_pass: u64,
    vertex_state_info: VertexInputState,
    descriptor_set_layout: u64,
    shader_set: ShaderSet,
    rasterization_samples: u32,
) -> (pipelines: Option<PbrPipelines>)
    ensures
        pipelines is Some <==> shader_set.vertex_shader is Some && shader_set.fragment_shader
            is Some,
        pipelines matches Some(pipelines) ==> {
            &&& pipelines.settings == pbr_settings(
                render_pass,
                vertex_state_info,
                descriptor_set_layout,
                shader_set,
                rasterization_samples,
            )
            &&& pipelines.opaque == pipeline_of(pipelines.settings)
            &&& pipelines.blended == (GraphicsPipelineCreateInfo {
                color_blend_attachment: blended_attachment(),
                ..pipelines.opaque
            })
        },
{
    let settings = RenderPipelineSettings::new(
        render_pass,
        vertex_state_info,
        descriptor_set_layout,
        shader_set,
    ).rasterization_samples(rasterization_samples).sample_shading_enabled(
        true,
    ).push_constant_range(PushConstantRange { offset: 0, size: PushConstantBlockMaterial::SIZE });
    let opaque = match RenderPipeline::new(settings) {
        Some(pipeline) => pipeline,
        None => {
            return None;
        },
    };
    let blended = GraphicsPipelineCreateInfo {
        color_blend_attachment: RenderPipeline::create_color_blend_attachments_blended(),
        ..opaque.pipeline
    };
    Some(PbrPipelines { settings: opaque.settings, opaque: opaque.pipeline, blended })
}

/// Where the joints of each skin begin in the joint matrices of the uniform
/// block, for skins of the given numbers of joints, in order.
pub open spec fn joint_offset(joint_counts: Seq<usize>, n: nat) -> nat
    decreases n,
{
    if n == 0 {
        0
    } else {
        joint_offset(joint_counts, (n - 1) as nat) + joint_counts[n - 1] as nat
    }
}

/// Where the joints of each skin begin in the joint matrices of the uniform
/// block. `None` where the skins have more joints together than the block
/// has matrices.
pub fn joint_offsets(joint_counts: &Vec<usize>) -> (offsets: Option<Vec<usize>>)
    ensures
        offsets is Some <==> joint_offset(joint_counts@, joint_counts@.len())
            <= UniformBufferObject::MAX_NUM_JOINTS,
        offsets matches Some(offsets) ==> {
            &&& offsets@.len() == joint_counts@.len()
            &&& forall|i: int|
                0 <= i < offsets@.len() ==> offsets@[i] == joint_offset(joint_counts@, i as nat)
        },
{
    let mut offsets: Vec<usize> = Vec::new();
    let mut total: usize = 0;
    let mut i: usize = 0;
    while i < joint_counts.len()
        invariant
            i <= joint_counts@.len(),
            total == joint_offset(joint_counts@, i as nat),
            total <= UniformBufferObject::MAX_NUM_JOINTS,
            offsets@.len() == i,
            forall|j: int| 0 <= j < i ==> offsets@[j] == joint_offset(joint_counts@, j as nat),
        decreases joint_counts@.len() - i,
    {
        offsets.push(total);
        if joint_counts[i] > UniformBufferObject::MAX_NUM_JOINTS - total {
            proof {
                lemma_joint_offset_grows(joint_counts@, (i + 1) as nat, joint_counts@.len());
            }
            return None;
        }
        total = total + joint_counts[i];
        i += 1;
    }
    Some(offsets)
}

/// The joints of more skins begin no earlier.
proof fn lemma_joint_offset_grows(joint_counts: Seq<usize>, n: nat, m: nat)
    requires
        n <= m,
    ensures
        joint_offset(joint_counts, n) <= joint_offset(joint_counts, m),
    decreases m,
{
    if n < m {
        lemma_joint_offset_grows(joint_counts, n, (m - 1) as nat);
    }
}

/// Everything that a frame of the physically based scene draws with: the
/// skybox and its pipeline, the opaque and the blended pipeline over one
/// layout, the geometry of all assets in one vertex and one index buffer,
/// and the assets.
#[derive(Clone, Debug, PartialEq, Eq)]
pub struct PbrScene {
    pub skybox_pipeline: u64,
    pub skybox_pipeline_layout: u64,
    pub skybox_descriptor_set: u64,
    pub pbr_pipeline: u64,
    pub pbr_pipeline_blend: u64,
    pub pbr_pipeline_layout: u64,
    pub pbr_pipeline_data: PbrPipelineData,
    pub vertex_buffer: u64,
    pub index_buffer: u64,
    pub assets: Vec<GltfAsset>,
}

impl PbrScene {
    /// What draws of the scene's assets bind.
    pub open spec fn renderer(self) -> PbrRenderer {
        PbrRenderer {
            pipeline_layout: self.pbr_pipeline_layout,
            dynamic_alignment: self.pbr_pipeline_data.dynamic_alignment,
            descriptor_set: self.pbr_pipeline_data.descriptor_set,
        }
    }

    /// Every asset can take part in each of the three passes.
    pub open spec fn drawable(self) -> bool {
        &&& pass_ok(self.renderer(), self.assets@, AlphaMode::Opaque)
        &&& pass_ok(self.renderer(), self.assets@, AlphaMode::Mask)
        &&& pass_ok(self.renderer(), self.assets@, AlphaMode::Blend)
    }

    /// The skybox: its pipeline, its descriptor set, the cube.
    pub open spec fn skybox_commands(self) -> Seq<GpuCommand> {
        seq![
            GpuCommand::BindPipeline { pipeline: self.skybox_pipeline },
            GpuCommand::BindDescriptorSet {
                layout: self.skybox_pipeline_layout,
                descriptor_set: self.skybox_descriptor_set,
                dynamic_offset: None,
            },
            GpuCommand::DrawUnitCube,
        ]
    }

    /// The shared geometry buffers.
    pub open spec fn geometry_commands(self) -> Seq<GpuCommand> {
        seq![
            GpuCommand::BindVertexBuffer { buffer: self.vertex_buffer },
            GpuCommand::BindIndexBuffer { buffer: self.index_buffer },
        ]
    }

    /// The commands of one frame. After the skybox and the geometry buffers,
    /// the opaque pipeline is bound and draws the opaque primitives of all
    /// assets, then their masked primitives; then the blended pipeline is
    /// bound and draws the blended primitives.
    pub open spec fn frame_commands(self) -> Seq<GpuCommand> {
        self.skybox_commands() + self.geometry_commands() + seq![
            GpuCommand::BindPipeline { pipeline: self.pbr_pipeline },
        ] + pass_commands(self.renderer(), self.assets@, AlphaMode::Opaque, self.assets@.len())
            + pass_commands(self.renderer(), self.assets@, AlphaMode::Mask, self.assets@.len())
            + seq![GpuCommand::BindPipeline { pipeline: self.pbr_pipeline_blend }] + pass_commands(
            self.renderer(),
            self.assets@,
            AlphaMode::Blend,
            self.assets@.len(),
        )
    }

    /// The number of meshes of all assets, which is the number of blocks of
    /// the dynamic uniform buffer. `None` where it is no `usize`.
    pub fn number_of_meshes(&self) -> (total: Option<usize>)
        ensures
            match total {
                Some(total) => total == offset_sums(self.assets@, self.assets@.len()).meshes,
                None => offset_sums(self.assets@, self.assets@.len()).meshes > usize::MAX,
            },
    {
        number_of_meshes(&self.assets)
    }

    /// The draw commands of one frame; `None` where an asset cannot be drawn.
    pub fn issue_commands(&self) -> (commands: Option<Vec<GpuCommand>>)
        ensures
            commands is Some <==> self.drawable(),
            commands matches Some(commands) ==> commands@ == self.frame_commands(),
    {
        let renderer = PbrRenderer::new(self.pbr_pipeline_layout, &self.pbr_pipeline_data);
        let opaque = match renderer.draw_pass(&self.assets, AlphaMode::Opaque) {
            Some(commands) => commands,
            None => {
                return None;
            },
        };
        let mask = match renderer.draw_pass(&self.assets, AlphaMode::Mask) {
            Some(commands) => commands,
            None => {
                return None;
            },
        };
        let blend = match renderer.draw_pass(&self.assets, AlphaMode::Blend) {
            Some(commands) => commands,
            None => {
                return None;
            },
        };
        let mut commands: Vec<GpuCommand> = Vec::new();
        commands.push(GpuCommand::BindPipeline { pipeline: self.skybox_pipeline });
        commands.push(
            GpuCommand::BindDescriptorSet {
                layout: self.skybox_pipeline_layout,
                descriptor_set: self.skybox_descriptor_set,
                dynamic_offset: None,
            },
        );
        commands.push(GpuCommand::DrawUnitCube);
        commands.push(GpuCommand::BindVertexBuffer { buffer: self.vertex_buffer });
        commands.push(GpuCommand::BindIndexBuffer { buffer: self.index_buffer });
        commands.push(GpuCommand::BindPipeline { pipeline: self.pbr_pipeline });
        append_commands(&mut commands, &opaque);
        append_commands(&mut commands, &mask);
        commands.push(GpuCommand::BindPipeline { pipeline: self.pbr_pipeline_blend });
        append_commands(&mut commands, &blend);
        Some(commands)
    }
}


/// The number of meshes of all of `assets`, which is the number of blocks
/// that their dynamic uniform buffer holds. `None` where it is no `usize`.
pub fn number_of_meshes(assets: &Vec<GltfAsset>) -> (total: Option<usize>)
    ensures
        match total {
            Some(total) => total == offset_sums(assets@, assets@.len()).meshes,
            None => offset_sums(assets@, assets@.len()).meshes > usize::MAX,
        },
{
    let mut total: usize = 0;
    let mut k: usize = 0;
    while k < assets.len()
        invariant
            k <= assets@.len(),
            total == offset_sums(assets@, k as nat).meshes,
        decreases assets@.len() - k,
    {
        total = match total.checked_add(assets[k].number_of_meshes) {
            Some(total) => total,
            None => {
                proof {
                    lemma_mesh_sum_grows(assets@, (k + 1) as nat, assets@.len());
                }
                return None;
            },
        };
        k += 1;
    }
    Some(total)
}

/// More assets have no fewer meshes.
proof fn lemma_mesh_sum_grows(assets: Seq<GltfAsset>, n: nat, m: nat)
    requires
        n <= m,
    ensures
        offset_sums(assets, n).meshes <= offset_sums(assets, m).meshes,
    decreases m,
{
    if n < m {
        lemma_mesh_sum_grows(assets, n, (m - 1) as nat);
    }
}

/// No command of `commands` binds a pipeline, and every material that is
/// pushed has the alpha mode `alpha_mode`.
pub open spec fn draws_only(commands: Seq<GpuCommand>, alpha_mode: AlphaMode) -> bool {
    forall|i: int|
        0 <= i < commands.len() ==> {
            &&& !(#[trigger] commands[i] is BindPipeline)
            &&& commands[i] matches GpuCommand::PushConstants { material, .. } ==> material.alpha_mode
                == alpha_mode.code()
        }
}

/// The commands of some primitives in a pass draw primitives of the pass's
/// alpha mode only.
pub proof fn lemma_primitives_draw_their_mode_only(
    renderer: PbrRenderer,
    asset: GltfAsset,
    primitives: Seq<Primitive>,
    offsets: GltfOffsets,
    alpha_mode: AlphaMode,
    n: nat,
)
    ensures
        draws_only(
            primitives_commands(renderer, asset, primitives, offsets, alpha_mode, n),
            alpha_mode,
        ),
    decreases n,
{
    if n > 0 {
        lemma_primitives_draw_their_mode_only(
            renderer,
            asset,
            primitives,
            offsets,
            alpha_mode,
            (n - 1) as nat,
        );
    }
}

/// The commands of some meshes in a pass draw primitives of the pass's alpha
/// mode only.
pub proof fn lemma_meshes_draw_their_mode_only(
    renderer: PbrRenderer,
    asset: GltfAsset,
    offsets: GltfOffsets,
    alpha_mode: AlphaMode,
    n: nat,
)
    ensures
        draws_only(meshes_commands(renderer, asset, offsets, alpha_mode, n), alpha_mode),
    decreases n,
{
    if n > 0 {
        lemma_meshes_draw_their_mode_only(renderer, asset, offsets, alpha_mode, (n - 1) as nat);
        let mesh = asset.meshes@[n - 1];
        lemma_primitives_draw_their_mode_only(
            renderer,
            asset,
            mesh.primitives@,
            offsets,
            alpha_mode,
            mesh.primitives@.len(),
        );
    }
}

/// A pass draws primitives of its alpha mode only, and binds no pipeline.
pub proof fn lemma_pass_draws_its_mode_only(
    renderer: PbrRenderer,
    assets: Seq<GltfAsset>,
    alpha_mode: AlphaMode,
    n: nat,
)
    ensures
        draws_only(pass_commands(renderer, assets, alpha_mode, n), alpha_mode),
    decreases n,
{
    if n > 0 {
        lemma_pass_draws_its_mode_only(renderer, assets, alpha_mode, (n - 1) as nat);
        lemma_meshes_draw_their_mode_only(
            renderer,
            assets[n - 1],
            offset_sums(assets, (n - 1) as nat).offsets(),
            alpha_mode,
            assets[n - 1].meshes@.len(),
        );
    }
}

/// Draw filtering law. In the commands of a frame, the opaque pipeline is
/// bound, then come the opaque pass and the mask pass, then the blended
/// pipeline is bound, then comes the blend pass. No other pipeline is bound
/// in between. So every opaque and every masked primitive is drawn under the
/// opaque pipeline and no blended one is, and every blended primitive is
/// drawn under the blended pipeline and no other is.
pub proof fn lemma_pipelines_draw_their_modes_only(scene: PbrScene)
    ensures
        ({
            let renderer = scene.renderer();
            let n = scene.assets@.len();
            let opaque = pass_commands(renderer, scene.assets@, AlphaMode::Opaque, n);
            let mask = pass_commands(renderer, scene.assets@, AlphaMode::Mask, n);
            let blend = pass_commands(renderer, scene.assets@, AlphaMode::Blend, n);
            let commands = scene.frame_commands();
            let first = 6 + opaque.len() as int;
            let second = first + mask.len();
            &&& commands.len() == second + 1 + blend.len()
            &&& commands[5] == (GpuCommand::BindPipeline { pipeline: scene.pbr_pipeline })
            &&& commands.subrange(6, first) == opaque
            &&& commands.subrange(first, second) == mask
            &&& commands[second] == (GpuCommand::BindPipeline {
                pipeline: scene.pbr_pipeline_blend,
            })
            &&& commands.subrange(second + 1, commands.len() as int) == blend
            &&& draws_only(opaque, AlphaMode::Opaque)
            &&& draws_only(mask, AlphaMode::Mask)
            &&& draws_only(blend, AlphaMode::Blend)
        }),
{
    let renderer = scene.renderer();
    let n = scene.assets@.len();
    lemma_pass_draws_its_mode_only(renderer, scene.assets@, AlphaMode::Opaque, n);
    lemma_pass_draws_its_mode_only(renderer, scene.assets@, AlphaMode::Mask, n);
    lemma_pass_draws_its_mode_only(renderer, scene.assets@, AlphaMode::Blend, n);
}

/// The indexed draws among `commands`, in their order.
pub open spec fn draws_in(commands: Seq<GpuCommand>) -> Seq<GpuCommand> {
    commands.filter(|command: GpuCommand| command is DrawIndexed)
}

/// The indexed draw of `primitive` at `offsets`.
pub open spec fn draw_of(primitive: Primitive, offsets: GltfOffsets) -> GpuCommand {
    GpuCommand::DrawIndexed {
        index_count: primitive.number_of_indices,
        instance_count: 1,
        first_index: (offsets.index_offset + primitive.first_index) as u32,
        vertex_offset: offsets.vertex_offset as i32,
        first_instance: 0,
    }
}

/// One draw for each of the first `n` of `primitives` whose alpha mode is
/// `alpha_mode`, in their order, and none for the others.
pub open spec fn primitive_draws(
    asset: GltfAsset,
    primitives: Seq<Primitive>,
    offsets: GltfOffsets,
    alpha_mode: AlphaMode,
    n: nat,
) -> Seq<GpuCommand>
    decreases n,
{
    if n == 0 {
        Seq::empty()
    } else {
        let before = primitive_draws(asset, primitives, offsets, alpha_mode, (n - 1) as nat);
        if alpha_mode_of(asset, primitives[n - 1]) == alpha_mode {
            before.push(draw_of(primitives[n - 1], offsets))
        } else {
            before
        }
    }
}

/// One draw for each primitive of the first `n` meshes of `asset` whose
/// alpha mode is `alpha_mode`, mesh by mesh.
pub open spec fn mesh_draws(
    asset: GltfAsset,
    offsets: GltfOffsets,
    alpha_mode: AlphaMode,
    n: nat,
) -> Seq<GpuCommand>
    decreases n,
{
    if n == 0 {
        Seq::empty()
    } else {
        mesh_draws(asset, offsets, alpha_mode, (n - 1) as nat) + primitive_draws(
            asset,
            asset.meshes@[n - 1].primitives@,
            offsets,
            alpha_mode,
            asset.meshes@[n - 1].primitives@.len(),
        )
    }
}

/// Among the commands of a primitive there is one draw, its own.
proof fn lemma_draws_of_a_primitive(
    renderer: PbrRenderer,
    asset: GltfAsset,
    primitive: Primitive,
    offsets: GltfOffsets,
)
    ensures
        draws_in(primitive_commands(renderer, asset, primitive, offsets)) == seq![
            draw_of(primitive, offsets),
        ],
{
    let commands = primitive_commands(renderer, asset, primitive, offsets);
    let is_draw = |command: GpuCommand| command is DrawIndexed;
    reveal_with_fuel(Seq::filter, 3);
    assert(commands.drop_last() =~= seq![commands[0]]);
    assert(commands.drop_last().drop_last() =~= Seq::<GpuCommand>::empty());
    assert(commands.filter(is_draw) =~= seq![draw_of(primitive, offsets)]);
}

/// The draws among the commands of some primitives in a pass are one for
/// each primitive of the pass's alpha mode, in order.
pub proof fn lemma_primitives_are_drawn_once(
    renderer: PbrRenderer,
    asset: GltfAsset,
    primitives: Seq<Primitive>,
    offsets: GltfOffsets,
    alpha_mode: AlphaMode,
    n: nat,
)
    ensures
        draws_in(primitives_commands(renderer, asset, primitives, offsets, alpha_mode, n))
            == primitive_draws(asset, primitives, offsets, alpha_mode, n),
    decreases n,
{
    let is_draw = |command: GpuCommand| command is DrawIndexed;
    if n == 0 {
        reveal_with_fuel(Seq::filter, 1);
    } else {
        let before = primitives_commands(
            renderer,
            asset,
            primitives,
            offsets,
            alpha_mode,
            (n - 1) as nat,
        );
        lemma_primitives_are_drawn_once(
            renderer,
            asset,
            primitives,
            offsets,
            alpha_mode,
            (n - 1) as nat,
        );
        if alpha_mode_of(asset, primitives[n - 1]) == alpha_mode {
            let own = primitive_commands(renderer, asset, primitives[n - 1], offsets);
            lemma_draws_of_a_primitive(renderer, asset, primitives[n - 1], offsets);
            Seq::filter_distributes_over_add(before, own, is_draw);
            assert(draws_in(before) + seq![draw_of(primitives[n - 1], offsets)] =~= draws_in(
                before,
            ).push(draw_of(primitives[n - 1], offsets)));
        }
    }
}

/// Draw law. In the pass for an alpha mode, an asset's indexed draws are one
/// for each primitive of that mode and none for any other primitive, mesh by
/// mesh in the order in which the meshes are walked, and within a mesh in the
/// order of its primitives.
pub proof fn lemma_asset_is_drawn_once(
    renderer: PbrRenderer,
    asset: GltfAsset,
    offsets: GltfOffsets,
    alpha_mode: AlphaMode,
    n: nat,
)
    ensures
        draws_in(meshes_commands(renderer, asset, offsets, alpha_mode, n)) == mesh_draws(
            asset,
            offsets,
            alpha_mode,
            n,
        ),
    decreases n,
{
    let is_draw = |command: GpuCommand| command is DrawIndexed;
    if n == 0 {
        reveal_with_fuel(Seq::filter, 1);
    } else {
        let mesh = asset.meshes@[n - 1];
        let before = meshes_commands(renderer, asset, offsets, alpha_mode, (n - 1) as nat);
        let bind = seq![
            GpuCommand::BindDescriptorSet {
                layout: renderer.pipeline_layout,
                descriptor_set: renderer.descriptor_set,
                dynamic_offset: Some(
                    spec_dynamic_offset(
                        renderer.dynamic_alignment,
                        global_mesh_index(mesh, offsets),
                    ) as u32,
                ),
            },
        ];
        let drawn = primitives_commands(
            renderer,
            asset,
            mesh.primitives@,
            offsets,
            alpha_mode,
            mesh.primitives@.len(),
        );
        lemma_asset_is_drawn_once(renderer, asset, offsets, alpha_mode, (n - 1) as nat);
        lemma_primitives_are_drawn_once(
            renderer,
            asset,
            mesh.primitives@,
            offsets,
            alpha_mode,
            mesh.primitives@.len(),
        );
        assert(bind.filter(is_draw) =~= Seq::<GpuCommand>::empty()) by {
            reveal_with_fuel(Seq::filter, 2);
            assert(bind.drop_last() =~= Seq::<GpuCommand>::empty());
        }
        Seq::filter_distributes_over_add(bind, drawn, is_draw);
        Seq::filter_distributes_over_add(before, bind + drawn, is_draw);
        assert(Seq::<GpuCommand>::empty() + draws_in(drawn) =~= draws_in(drawn));
    }
}

/// One draw for each primitive of the first `n` assets whose alpha mode is
/// `alpha_mode`, asset by asset, each asset at the offsets that the assets
/// before it leave.
pub open spec fn pass_draws(assets: Seq<GltfAsset>, alpha_mode: AlphaMode, n: nat) -> Seq<
    GpuCommand,
>
    decreases n,
{
    if n == 0 {
        Seq::empty()
    } else {
        pass_draws(assets, alpha_mode, (n - 1) as nat) + mesh_draws(
            assets[n - 1],
            offset_sums(assets, (n - 1) as nat).offsets(),
            alpha_mode,
            assets[n - 1].meshes@.len(),
        )
    }
}

/// Draw law of a pass. The indexed draws of the pass for an alpha mode are
/// one for each primitive of that mode of every asset and none for any other
/// primitive, in the order of the assets, their meshes and their primitives.
pub proof fn lemma_pass_is_drawn_once(
    renderer: PbrRenderer,
    assets: Seq<GltfAsset>,
    alpha_mode: AlphaMode,
    n: nat,
)
    ensures
        draws_in(pass_commands(renderer, assets, alpha_mode, n)) == pass_draws(
            assets,
            alpha_mode,
            n,
        ),
    decreases n,
{
    let is_draw = |command: GpuCommand| command is DrawIndexed;
    if n == 0 {
        reveal_with_fuel(Seq::filter, 1);
    } else {
        let before = pass_commands(renderer, assets, alpha_mode, (n - 1) as nat);
        let own = asset_commands(
            renderer,
            assets[n - 1],
            offset_sums(assets, (n - 1) as nat).offsets(),
            alpha_mode,
        );
        lemma_pass_is_drawn_once(renderer, assets, alpha_mode, (n - 1) as nat);
        lemma_asset_is_drawn_once(
            renderer,
            assets[n - 1],
            offset_sums(assets, (n - 1) as nat).offsets(),
            alpha_mode,
            assets[n - 1].meshes@.len(),
        );
        Seq::filter_distributes_over_add(before, own, is_draw);
    }
}

} // verus!
