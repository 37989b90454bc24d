use support::pbr::{
    dynamic_offset, flush_size, joint_offsets, number_of_meshes, upload_offset, recreate_pipelines, AlphaMode, DynamicUniformBufferObject,
    EnvironmentMapSet, GltfAsset, GltfOffsets, Material, Mesh, PbrPipelineData, PbrRenderer,
    PbrScene, Primitive, UniformBufferObject, NO_TEXTURE, ONE_BITS,
};
use support::vulkan::buffer::{BufferCreateInfo, BufferUsage, MemoryUsage};
use support::vulkan::command::{GpuCommand, PushConstantBlockMaterial, Vec3Bits, Vec4Bits};
use support::vulkan::descriptor::{
    DescriptorBufferInfo, DescriptorImageInfo, DescriptorPoolSize, DescriptorSetLayoutBinding,
    DescriptorType, ShaderStages, TextureHandle,
};
use support::vulkan::pipeline::{
    BlendFactor, PushConstantRange, VertexInputState,
};
use support::vulkan::shader::ShaderSet;

fn texture(id: u64) -> TextureHandle {
    TextureHandle { view: id, sampler: id + 1000 }
}

fn data(alignment: u64) -> PbrPipelineData {
    PbrPipelineData {
        uniform_buffer: 1,
        dynamic_uniform_buffer: 2,
        dynamic_alignment: alignment,
        descriptor_set: 3,
        dummy: texture(999),
    }
}

fn maps() -> EnvironmentMapSet {
    EnvironmentMapSet {
        brdflut: texture(10),
        hdr: texture(11),
        irradiance: texture(12),
        prefilter: texture(13),
    }
}

fn material(alpha_mode: AlphaMode, base_color_texture: Option<u32>) -> Material {
    Material {
        alpha_mode,
        alpha_cutoff: 0x3f00_0000,
        base_color_factor: Vec4Bits { x: 1, y: 2, z: 3, w: 4 },
        metallic_factor: 5,
        roughness_factor: 6,
        emissive_factor: Vec3Bits { x: 7, y: 8, z: 9 },
        base_color_texture,
        metallic_roughness_texture: None,
        normal_texture: Some(1),
        occlusion_texture: None,
        emissive_texture: None,
    }
}

fn primitive(first_index: u32, number_of_indices: u32, material_index: Option<usize>) -> Primitive {
    Primitive { first_index, number_of_indices, material_index }
}

/// An asset with one mesh whose primitives are opaque, masked, blended and
/// without material, in that order.
fn mixed_asset() -> GltfAsset {
    GltfAsset {
        meshes: vec![Mesh {
            mesh_id: 0,
            primitives: vec![
                primitive(0, 3, Some(0)),
                primitive(3, 6, Some(1)),
                primitive(9, 9, Some(2)),
                primitive(18, 12, None),
            ],
        }],
        materials: vec![
            material(AlphaMode::Opaque, Some(0)),
            material(AlphaMode::Mask, None),
            material(AlphaMode::Blend, Some(2)),
        ],
        number_of_textures: 3,
        number_of_meshes: 1,
        number_of_indices: 30,
        number_of_vertices: 20,
    }
}

fn scene(assets: Vec<GltfAsset>) -> PbrScene {
    PbrScene {
        skybox_pipeline: 50,
        skybox_pipeline_layout: 51,
        skybox_descriptor_set: 52,
        pbr_pipeline: 60,
        pbr_pipeline_blend: 61,
        pbr_pipeline_layout: 62,
        pbr_pipeline_data: data(256),
        vertex_buffer: 70,
        index_buffer: 71,
        assets,
    }
}

fn index_counts(commands: &[GpuCommand]) -> Vec<u32> {
    commands
        .iter()
        .filter_map(|command| match command {
            GpuCommand::DrawIndexed { index_count, .. } => Some(*index_count),
            _ => None,
        })
        .collect()
}

#[test]
fn texture_array_is_padded_with_the_dummy() {
    let data = data(256);
    let textures = vec![texture(1), texture(2), texture(3)];
    let infos = data.image_infos(&textures);
    assert_eq!(infos.len(), PbrPipelineData::MAX_TEXTURES);
    assert_eq!(infos[0], DescriptorImageInfo { image_view: 1, sampler: 1001 });
    assert_eq!(infos[2], DescriptorImageInfo { image_view: 3, sampler: 1003 });
    let dummy = DescriptorImageInfo { image_view: 999, sampler: 1999 };
    assert_eq!(infos.iter().filter(|info| **info == dummy).count(), 97);
    assert!(infos[3..].iter().all(|info| *info == dummy));

    assert_eq!(data.image_infos(&Vec::new()).len(), 100);
    let full = (0..100).map(texture).collect::<Vec<_>>();
    let infos = data.image_infos(&full);
    assert_eq!(infos.len(), 100);
    assert!(infos.iter().all(|info| *info != dummy));
    let over = (0..101).map(texture).collect::<Vec<_>>();
    assert_eq!(data.image_infos(&over).len(), 101);
}

#[test]
fn descriptor_set_is_written_whole() {
    let data = data(256);
    let writes = data.update_descriptor_set(4, &vec![texture(1)], &maps());
    assert_eq!(writes.len(), 6);
    for (binding, write) in writes.iter().enumerate() {
        assert_eq!(write.dst_set, 3);
        assert_eq!(write.dst_binding, binding as u32);
        assert_eq!(write.dst_array_element, 0);
    }
    assert_eq!(writes[0].descriptor_type, DescriptorType::UniformBuffer);
    assert_eq!(
        writes[0].buffer_info,
        vec![DescriptorBufferInfo { buffer: 1, offset: 0, range: 8336 }]
    );
    assert_eq!(writes[1].descriptor_type, DescriptorType::UniformBufferDynamic);
    assert_eq!(
        writes[1].buffer_info,
        vec![DescriptorBufferInfo { buffer: 2, offset: 0, range: 1024 }]
    );
    assert_eq!(writes[2].descriptor_type, DescriptorType::CombinedImageSampler);
    assert_eq!(writes[2].image_info.len(), 100);
    assert!(writes[2].buffer_info.is_empty());
    assert_eq!(writes[3].image_info, vec![DescriptorImageInfo { image_view: 12, sampler: 1012 }]);
    assert_eq!(writes[4].image_info, vec![DescriptorImageInfo { image_view: 13, sampler: 1013 }]);
    assert_eq!(writes[5].image_info, vec![DescriptorImageInfo { image_view: 10, sampler: 1010 }]);
}

#[test]
fn layout_and_pool_have_six_bindings() {
    let layout = PbrPipelineData::descriptor_set_layout();
    assert_eq!(layout.len(), 6);
    assert_eq!(
        layout[0],
        DescriptorSetLayoutBinding {
            binding: 0,
            descriptor_type: DescriptorType::UniformBuffer,
            descriptor_count: 1,
            stage_flags: ShaderStages { vertex: true, fragment: true },
        }
    );
    assert_eq!(
        layout[1],
        DescriptorSetLayoutBinding {
            binding: 1,
            descriptor_type: DescriptorType::UniformBufferDynamic,
            descriptor_count: 1,
            stage_flags: ShaderStages { vertex: true, fragment: false },
        }
    );
    assert_eq!(layout[2].descriptor_count, 100);
    for binding in 2..6 {
        assert_eq!(layout[binding].binding, binding as u32);
        assert_eq!(layout[binding].descriptor_type, DescriptorType::CombinedImageSampler);
        assert_eq!(layout[binding].stage_flags, ShaderStages { vertex: false, fragment: true });
    }
    let pool = PbrPipelineData::create_descriptor_pool();
    assert_eq!(pool.max_sets, 1);
    assert_eq!(pool.pool_sizes.len(), 6);
    assert_eq!(
        pool.pool_sizes[2],
        DescriptorPoolSize { ty: DescriptorType::CombinedImageSampler, descriptor_count: 100 }
    );
}

#[test]
fn dynamic_alignment_rounds_up_to_the_device_minimum() {
    assert_eq!(DynamicUniformBufferObject::SIZE, 80);
    assert_eq!(PbrPipelineData::calculate_dynamic_alignment(0), 80);
    assert_eq!(PbrPipelineData::calculate_dynamic_alignment(1), 80);
    assert_eq!(PbrPipelineData::calculate_dynamic_alignment(16), 80);
    assert_eq!(PbrPipelineData::calculate_dynamic_alignment(64), 128);
    assert_eq!(PbrPipelineData::calculate_dynamic_alignment(256), 256);
    for shift in 0..20 {
        let minimum = 1u64 << shift;
        let alignment = PbrPipelineData::calculate_dynamic_alignment(minimum);
        assert!(alignment >= 80 && alignment < 80 + minimum);
        for n in 0..50u64 {
            assert_eq!((alignment * n) % minimum, 0);
        }
    }
}

#[test]
fn dynamic_offset_is_alignment_times_mesh() {
    assert_eq!(dynamic_offset(256, 0), Some(0));
    assert_eq!(dynamic_offset(256, 7), Some(1792));
    assert_eq!(data(128).dynamic_offset(3), Some(384));
    assert_eq!(dynamic_offset(256, 16_777_215), Some(4_294_967_040));
    assert_eq!(dynamic_offset(256, 16_777_216), None);
    assert_eq!(dynamic_offset(u64::MAX, 2), None);
}

#[test]
fn blocks_are_uploaded_where_draws_bind_them() {
    assert_eq!(upload_offset(256, 0), Some(0));
    assert_eq!(upload_offset(256, 7), Some(1792));
    for mesh in 0..40usize {
        assert_eq!(upload_offset(128, mesh), dynamic_offset(128, mesh).map(u64::from));
    }
    // Beyond the 32 bits of a dynamic offset the byte offset goes on.
    assert_eq!(dynamic_offset(256, 16_777_216), None);
    assert_eq!(upload_offset(256, 16_777_216), Some(4_294_967_296));
    assert_eq!(upload_offset(u64::MAX, 1), Some(u64::MAX));
    assert_eq!(upload_offset(u64::MAX, 2), None);
    assert_eq!(flush_size(256, 3), Some(768));
    assert_eq!(flush_size(256, 0), Some(0));
    assert_eq!(flush_size(u64::MAX / 2 + 1, 2), None);
    // Blocks of different meshes do not overlap.
    let stride = PbrPipelineData::calculate_dynamic_alignment(64);
    let first = upload_offset(stride, 4).expect("fits");
    let second = upload_offset(stride, 5).expect("fits");
    assert!(first + DynamicUniformBufferObject::SIZE <= second);
    for minimum in [0u64, 1, 3, 5, 6, 64, 100, 256] {
        assert!(PbrPipelineData::calculate_dynamic_alignment(minimum) >= 80);
    }
}

#[test]
fn buffer_sizes() {
    assert_eq!(UniformBufferObject::SIZE, 2 * 64 + 16 + 128 * 64);
    assert_eq!(UniformBufferObject::MAX_NUM_JOINTS, 128);
    assert_eq!(
        PbrPipelineData::uniform_buffer_info(),
        BufferCreateInfo {
            size: 8336,
            buffer_usage: BufferUsage::UniformBuffer,
            memory_usage: MemoryUsage::CpuToGpu,
        }
    );
    assert_eq!(
        PbrPipelineData::dynamic_uniform_buffer_info(5, 256),
        Some(BufferCreateInfo {
            size: 1280,
            buffer_usage: BufferUsage::UniformBuffer,
            memory_usage: MemoryUsage::CpuToGpu,
        })
    );
    assert_eq!(PbrPipelineData::dynamic_uniform_buffer_info(3, u64::MAX), None);
}

#[test]
fn material_block_of_a_primitive() {
    let asset = mixed_asset();
    let block = PbrRenderer::create_material(&asset, &asset.meshes[0].primitives[2], 10)
        .expect("the material exists");
    assert_eq!(
        block,
        PushConstantBlockMaterial {
            base_color_factor: Vec4Bits { x: 1, y: 2, z: 3, w: 4 },
            emissive_factor: Vec3Bits { x: 7, y: 8, z: 9 },
            color_texture_set: 12,
            metallic_roughness_texture_set: -1,
            normal_texture_set: 11,
            occlusion_texture_set: -1,
            emissive_texture_set: -1,
            metallic_factor: 5,
            roughness_factor: 6,
            alpha_mode: 3,
            alpha_cutoff: 0x3f00_0000,
        }
    );
    let plain = PbrRenderer::create_material(&asset, &asset.meshes[0].primitives[3], 10)
        .expect("no material is fine");
    assert_eq!(
        plain,
        PushConstantBlockMaterial {
            base_color_factor: Vec4Bits { x: 0, y: 0, z: 0, w: ONE_BITS },
            emissive_factor: Vec3Bits { x: ONE_BITS, y: 0, z: 0 },
            color_texture_set: NO_TEXTURE,
            metallic_roughness_texture_set: NO_TEXTURE,
            normal_texture_set: NO_TEXTURE,
            occlusion_texture_set: NO_TEXTURE,
            emissive_texture_set: NO_TEXTURE,
            metallic_factor: 0,
            roughness_factor: 0,
            alpha_mode: 1,
            alpha_cutoff: 0,
        }
    );
    assert_eq!(ONE_BITS, 1.0f32.to_bits());
    assert_eq!(PbrRenderer::create_material(&asset, &primitive(0, 3, Some(3)), 0), None);
    assert_eq!(PbrRenderer::create_material(&asset, &primitive(0, 3, Some(2)), i32::MAX - 1), None);
    assert!(PbrRenderer::create_material(&asset, &primitive(0, 3, Some(2)), i32::MAX - 2).is_some());
}

#[test]
fn alpha_mode_codes() {
    assert_eq!(AlphaMode::Opaque.code(), gltf::material::AlphaMode::Opaque as i32);
    assert_eq!(AlphaMode::Mask.code(), gltf::material::AlphaMode::Mask as i32);
    assert_eq!(AlphaMode::Blend.code(), gltf::material::AlphaMode::Blend as i32);
}

#[test]
fn material_block_bytes() {
    let block = PushConstantBlockMaterial {
        base_color_factor: Vec4Bits { x: 0x0403_0201, y: 0, z: 0, w: ONE_BITS },
        emissive_factor: Vec3Bits { x: 1, y: 2, z: 3 },
        color_texture_set: -1,
        metallic_roughness_texture_set: 4,
        normal_texture_set: 5,
        occlusion_texture_set: 6,
        emissive_texture_set: 7,
        metallic_factor: 8,
        roughness_factor: 9,
        alpha_mode: 2,
        alpha_cutoff: 0x3f00_0000,
    };
    let bytes = block.to_bytes();
    assert_eq!(bytes.len(), 64);
    assert_eq!(PushConstantBlockMaterial::SIZE, 64);
    assert_eq!(&bytes[0..4], &[1, 2, 3, 4]);
    assert_eq!(&bytes[12..16], &1.0f32.to_le_bytes());
    assert_eq!(&bytes[16..20], &[1, 0, 0, 0]);
    assert_eq!(&bytes[28..32], &[0xff, 0xff, 0xff, 0xff]);
    assert_eq!(&bytes[32..36], &4i32.to_le_bytes());
    assert_eq!(&bytes[48..52], &[8, 0, 0, 0]);
    assert_eq!(&bytes[56..60], &[2, 0, 0, 0]);
    assert_eq!(&bytes[60..64], &0.5f32.to_le_bytes());
}

#[test]
fn draw_asset_filters_by_alpha_mode() {
    let asset = mixed_asset();
    let renderer = PbrRenderer::new(62, &data(256));
    let offsets = GltfOffsets { texture_offset: 10, mesh_offset: 2, index_offset: 100, vertex_offset: 40 };
    let bind = GpuCommand::BindDescriptorSet {
        layout: 62,
        descriptor_set: 3,
        dynamic_offset: Some(512),
    };

    let opaque = renderer.draw_asset(&asset, &offsets, AlphaMode::Opaque).expect("drawable");
    assert_eq!(opaque.len(), 5);
    assert_eq!(opaque[0], bind);
    assert_eq!(index_counts(&opaque), vec![3, 12]);
    assert_eq!(
        opaque[2],
        GpuCommand::DrawIndexed {
            index_count: 3,
            instance_count: 1,
            first_index: 100,
            vertex_offset: 40,
            first_instance: 0,
        }
    );
    assert_eq!(
        opaque[4],
        GpuCommand::DrawIndexed {
            index_count: 12,
            instance_count: 1,
            first_index: 118,
            vertex_offset: 40,
            first_instance: 0,
        }
    );
    match opaque[1] {
        GpuCommand::PushConstants { layout, material } => {
            assert_eq!(layout, 62);
            assert_eq!(material.alpha_mode, 1);
            assert_eq!(material.color_texture_set, 10);
        }
        other => panic!("expected push constants, got {:?}", other),
    }

    let mask = renderer.draw_asset(&asset, &offsets, AlphaMode::Mask).expect("drawable");
    assert_eq!(mask[0], bind);
    assert_eq!(index_counts(&mask), vec![6]);
    let blend = renderer.draw_asset(&asset, &offsets, AlphaMode::Blend).expect("drawable");
    assert_eq!(index_counts(&blend), vec![9]);
}

#[test]
fn draw_asset_refuses_what_does_not_fit() {
    let asset = mixed_asset();
    let renderer = PbrRenderer::new(62, &data(256));
    let fine = GltfOffsets::default();
    assert!(renderer.draw_asset(&asset, &fine, AlphaMode::Blend).is_some());
    // The blended primitive starts at index 9.
    let offsets = GltfOffsets { index_offset: u32::MAX - 8, ..fine };
    assert_eq!(renderer.draw_asset(&asset, &offsets, AlphaMode::Blend), None);
    assert!(renderer.draw_asset(&asset, &offsets, AlphaMode::Mask).is_some());
    let offsets = GltfOffsets { vertex_offset: i32::MAX as u32 + 1, ..fine };
    assert_eq!(renderer.draw_asset(&asset, &offsets, AlphaMode::Opaque), None);
    let offsets = GltfOffsets { mesh_offset: 16_777_216, ..fine };
    assert_eq!(renderer.draw_asset(&asset, &offsets, AlphaMode::Opaque), None);
    let offsets = GltfOffsets { mesh_offset: usize::MAX, ..fine };
    let mut second = mixed_asset();
    second.meshes[0].mesh_id = 1;
    assert_eq!(renderer.draw_asset(&second, &offsets, AlphaMode::Opaque), None);
    let mut broken = mixed_asset();
    broken.meshes[0].primitives[2].material_index = Some(9);
    assert_eq!(renderer.draw_asset(&broken, &fine, AlphaMode::Opaque), None);
}

/// The opaque pipeline draws the opaque and the masked primitives, the
/// blended pipeline the blended ones.
#[test]
fn alpha_mode_draw_filtering() {
    let scene = scene(vec![mixed_asset(), mixed_asset()]);
    let commands = scene.issue_commands().expect("drawable");
    assert_eq!(
        commands[0..6],
        [
            GpuCommand::BindPipeline { pipeline: 50 },
            GpuCommand::BindDescriptorSet { layout: 51, descriptor_set: 52, dynamic_offset: None },
            GpuCommand::DrawUnitCube,
            GpuCommand::BindVertexBuffer { buffer: 70 },
            GpuCommand::BindIndexBuffer { buffer: 71 },
            GpuCommand::BindPipeline { pipeline: 60 },
        ]
    );
    let blend_bind = commands
        .iter()
        .position(|command| *command == GpuCommand::BindPipeline { pipeline: 61 })
        .expect("the blended pipeline is bound");
    let binds = commands
        .iter()
        .filter(|command| matches!(command, GpuCommand::BindPipeline { .. }))
        .count();
    assert_eq!(binds, 3);

    let modes = |commands: &[GpuCommand]| {
        commands
            .iter()
            .filter_map(|command| match command {
                GpuCommand::PushConstants { material, .. } => Some(material.alpha_mode),
                _ => None,
            })
            .collect::<Vec<_>>()
    };
    // Under the opaque pipeline: the opaque pass over both assets, then the
    // mask pass over both assets.
    assert_eq!(modes(&commands[6..blend_bind]), vec![1, 1, 1, 1, 2, 2]);
    assert_eq!(index_counts(&commands[6..blend_bind]), vec![3, 12, 3, 12, 6, 6]);
    // Under the blended pipeline: the blended primitives only.
    assert_eq!(modes(&commands[blend_bind..]), vec![3, 3]);
    assert_eq!(index_counts(&commands[blend_bind..]), vec![9, 9]);

    // The second asset is drawn at the offsets that the first one leaves.
    let second_draw = commands[6..blend_bind]
        .iter()
        .filter(|command| matches!(command, GpuCommand::DrawIndexed { .. }))
        .nth(2)
        .expect("four opaque draws");
    assert_eq!(
        *second_draw,
        GpuCommand::DrawIndexed {
            index_count: 3,
            instance_count: 1,
            first_index: 30,
            vertex_offset: 20,
            first_instance: 0,
        }
    );
    let offsets = commands
        .iter()
        .filter_map(|command| match command {
            GpuCommand::BindDescriptorSet { layout: 62, dynamic_offset, .. } => *dynamic_offset,
            _ => None,
        })
        .collect::<Vec<_>>();
    assert_eq!(offsets, vec![0, 256, 0, 256, 0, 256]);
    let textures = commands
        .iter()
        .filter_map(|command| match command {
            GpuCommand::PushConstants { material, .. } if material.alpha_mode == 3 => {
                Some(material.color_texture_set)
            }
            _ => None,
        })
        .collect::<Vec<_>>();
    assert_eq!(textures, vec![2, 5]);
}

#[test]
fn scene_without_assets_draws_the_skybox() {
    let scene = scene(Vec::new());
    let commands = scene.issue_commands().expect("drawable");
    assert_eq!(commands.len(), 7);
    assert_eq!(commands[6], GpuCommand::BindPipeline { pipeline: 61 });
    assert_eq!(scene.number_of_meshes(), Some(0));
}

#[test]
fn scene_counts_and_limits() {
    let mut big = mixed_asset();
    big.number_of_indices = u32::MAX as usize;
    let scene1 = scene(vec![mixed_asset(), big.clone()]);
    assert_eq!(scene1.number_of_meshes(), Some(2));
    assert_eq!(number_of_meshes(&scene1.assets), Some(2));
    assert_eq!(number_of_meshes(&Vec::new()), Some(0));
    // The index offset after the second asset is no u32.
    assert_eq!(scene1.issue_commands(), None);
    let mut many = mixed_asset();
    many.number_of_meshes = usize::MAX;
    assert_eq!(scene(vec![many.clone(), many]).number_of_meshes(), None);
}

#[test]
fn joints_of_skins_are_laid_out_in_order() {
    assert_eq!(joint_offsets(&vec![]), Some(vec![]));
    assert_eq!(joint_offsets(&vec![19, 0, 60, 49]), Some(vec![0, 19, 19, 79]));
    assert_eq!(joint_offsets(&vec![128]), Some(vec![0]));
    assert_eq!(joint_offsets(&vec![100, 29]), None);
    assert_eq!(joint_offsets(&vec![usize::MAX, 2]), None);
}

#[test]
fn blended_pipeline_differs_in_blend_state_only() {
    let shaders = ShaderSet::new().vertex_shader(1).fragment_shader(2);
    let vertex_state = VertexInputState { bindings: Vec::new(), attributes: Vec::new() };
    let pipelines = recreate_pipelines(9, vertex_state, 8, shaders, 4).expect("both shaders");
    assert_eq!(pipelines.settings.push_constant_range, Some(PushConstantRange { offset: 0, size: 64 }));
    assert_eq!(pipelines.settings.rasterization_samples, 4);
    assert!(!pipelines.opaque.color_blend_attachment.blend_enable);
    assert!(pipelines.blended.color_blend_attachment.blend_enable);
    assert_eq!(pipelines.blended.color_blend_attachment.src_color_blend_factor, BlendFactor::SrcAlpha);
    let mut same = pipelines.blended;
    same.color_blend_attachment = pipelines.opaque.color_blend_attachment;
    assert_eq!(same, pipelines.opaque);
    assert_eq!(pipelines.opaque.render_pass, 9);
    assert_eq!(pipelines.opaque.layout.push_constant_range, Some(PushConstantRange { offset: 0, size: 64 }));

    let vertex_state = VertexInputState { bindings: Vec::new(), attributes: Vec::new() };
    assert!(recreate_pipelines(9, vertex_state, 8, ShaderSet::new().vertex_shader(1), 4).is_none());
}
