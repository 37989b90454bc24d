//! Descriptor set layouts, pools and writes, as plain descriptions.

use vstd::prelude::*;

verus! {

/// The kinds of descriptor that the pipelines of this library bind.
#[derive(Clone, Copy, Debug, PartialEq, Eq, Structural)]
pub enum DescriptorType {
    UniformBuffer,
    UniformBufferDynamic,
    CombinedImageSampler,
}

/// The shader stages that may read a binding.
#[derive(Clone, Copy, Debug, PartialEq, Eq, Structural)]
pub struct ShaderStages {
    pub vertex: bool,
    pub fragment: bool,
}

impl ShaderStages {
    pub open spec fn spec_vertex() -> Self {
        ShaderStages { vertex: true, fragment: false }
    }

    pub open spec fn spec_fragment() -> Self {
        ShaderStages { vertex: false, fragment: true }
    }

    pub open spec fn spec_vertex_and_fragment() -> Self {
        ShaderStages { vertex: true, fragment: true }
    }

    #[verifier::when_used_as_spec(spec_vertex)]
    pub fn vertex() -> (stages: Self)
        ensures
            stages == Self::spec_vertex(),
    {
        ShaderStages { vertex: true, fragment: false }
    }

    #[verifier::when_used_as_spec(spec_fragment)]
    pub fn fragment() -> (stages: Self)
        ensures
            stages == Self::spec_fragment(),
    {
        ShaderStages { vertex: false, fragment: true }
    }

    #[verifier::when_used_as_spec(spec_vertex_and_fragment)]
    pub fn vertex_and_fragment() -> (stages: Self)
        ensures
            stages == Self::spec_vertex_and_fragment(),
    {
        ShaderStages { vertex: true, fragment: true }
    }
}

/// One binding slot of a descriptor set layout.
#[derive(Clone, Copy, Debug, PartialEq, Eq, Structural)]
pub struct DescriptorSetLayoutBinding {
    pub binding: u32,
    pub descriptor_type: DescriptorType,
    pub descriptor_count: u32,
    pub stage_flags: ShaderStages,
}

/// How many descriptors of one type a pool reserves.
#[derive(Clone, Copy, Debug, PartialEq, Eq, Structural)]
pub struct DescriptorPoolSize {
    pub ty: DescriptorType,
    pub descriptor_count: u32,
}

/// What a descriptor pool is created with.
#[derive(Clone, Debug, PartialEq, Eq)]
pub struct DescriptorPoolInfo {
    pub pool_sizes: Vec<DescriptorPoolSize>,
    pub max_sets: u32,
}

/// An image view and the sampler it is read through, by their raw handles.
#[derive(Clone, Copy, Debug, PartialEq, Eq, Structural)]
pub struct TextureHandle {
    pub view: u64,
    pub sampler: u64,
}

/// A region of a buffer bound as a uniform block.
#[derive(Clone, Copy, Debug, PartialEq, Eq, Structural)]
pub struct DescriptorBufferInfo {
    pub buffer: u64,
    pub offset: u64,
    pub range: u64,
}

/// A sampled image bound in the shader-read-only layout.
#[derive(Clone, Copy, Debug, PartialEq, Eq, Structural)]
pub struct DescriptorImageInfo {
    pub image_view: u64,
    pub sampler: u64,
}

impl DescriptorImageInfo {
    pub open spec fn of(texture: TextureHandle) -> Self {
        DescriptorImageInfo { image_view: texture.view, sampler: texture.sampler }
    }

    /// The image info that binds `texture`.
    pub fn new(texture: TextureHandle) -> (info: Self)
        ensures
            info == Self::of(texture),
    {
        DescriptorImageInfo { image_view: texture.view, sampler: texture.sampler }
    }
}

/// One update of a descriptor set: the array elements of `dst_binding`,
/// starting at `dst_array_element`, are pointed at the given buffers or images.
/// A write carries buffers or images, never both; the unused list is empty.
#[derive(Clone, Debug, PartialEq, Eq)]
pub struct WriteDescriptorSet {
    pub dst_set: u64,
    pub dst_binding: u32,
    pub dst_array_element: u32,
    pub descriptor_type: DescriptorType,
    pub buffer_info: Vec<DescriptorBufferInfo>,
    pub image_info: Vec<DescriptorImageInfo>,
}

impl WriteDescriptorSet {
    /// The write is for the first array element of `binding` in `set` and
    /// carries exactly the buffers `buffers`.
    pub open spec fn is_buffer_write(
        self,
        set: u64,
        binding: u32,
        ty: DescriptorType,
        buffers: Seq<DescriptorBufferInfo>,
    ) -> bool {
        &&& self.dst_set == set
        &&& self.dst_binding == binding
        &&& self.dst_array_element == 0
        &&& self.descriptor_type == ty
        &&& self.buffer_info@ == buffers
        &&& self.image_info@.len() == 0
    }

    /// The write is for the first array element of `binding` in `set` and
    /// carries exactly the combined image samplers `images`.
    pub open spec fn is_image_write(
        self,
        set: u64,
        binding: u32,
        images: Seq<DescriptorImageInfo>,
    ) -> bool {
        &&& self.dst_set == set
        &&& self.dst_binding == binding
        &&& self.dst_array_element == 0
        &&& self.descriptor_type == DescriptorType::CombinedImageSampler
        &&& self.image_info@ == images
        &&& self.buffer_info@.len() == 0
    }

    /// A write that binds one buffer region to `binding`.
    pub fn buffer(set: u64, binding: u32, ty: DescriptorType, info: DescriptorBufferInfo) -> (write:
        Self)
        ensures
            write.is_buffer_write(set, binding, ty, seq![info]),
    {
        let mut buffer_info: Vec<DescriptorBufferInfo> = Vec::new();
        buffer_info.push(info);
        WriteDescriptorSet {
            dst_set: set,
            dst_binding: binding,
            dst_array_element: 0,
            descriptor_type: ty,
            buffer_info,
            image_info: Vec::new(),
        }
    }

    /// A write that binds the array of combined image samplers `images` to
    /// `binding`.
    pub fn images(set: u64, binding: u32, images: Vec<DescriptorImageInfo>) -> (write: Self)
        ensures
            write.is_image_write(set, binding, images@),
    {
        WriteDescriptorSet {
            dst_set: set,
            dst_binding: binding,
            dst_array_element: 0,
            descriptor_type: DescriptorType::CombinedImageSampler,
            buffer_info: Vec::new(),
            image_info: images,
        }
    }
}

/// The layout binding of one uniform block or sampler array.
pub fn layout_binding(
    binding: u32,
    descriptor_type: DescriptorType,
    descriptor_count: u32,
    stage_flags: ShaderStages,
) -> (result: DescriptorSetLayoutBinding)
    ensures
        result == (DescriptorSetLayoutBinding {
            binding,
            descriptor_type,
            descriptor_count,
            stage_flags,
        }),
{
    DescriptorSetLayoutBinding { binding, descriptor_type, descriptor_count, stage_flags }
}

} // verus!
