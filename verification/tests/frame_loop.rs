use support::app::Dimensions;
use support::vulkan::command::GpuCommand;
use support::vulkan::renderer::{
    pipelines_result, recorded_draws, Command, CommandError, FrameAction, FrameEvent, FramePhase, Renderer, RendererError,
    VK_ERROR_OUT_OF_DATE_KHR, VK_SUBOPTIMAL_KHR, VK_SUCCESS,
};
use support::vulkan::descriptor::TextureHandle;
use support::vulkan::offscreen::{DepthBias, Offscreen, ShadowMap};
use support::vulkan::shader::{Shader, ShaderCache, ShaderStage};
use support::vulkan::swapchain::VulkanSwapchain;
use support::vulkan::sync::{CurrentFrameSynchronization, SynchronizationSet};

struct CountingCommand {
    shaders_made: usize,
    issued: Vec<usize>,
    pipelines_recreated: Vec<u64>,
    fail_issue: bool,
    fail_pipelines: bool,
}

impl CountingCommand {
    fn new() -> Self {
        CountingCommand {
            shaders_made: 0,
            issued: Vec::new(),
            pipelines_recreated: Vec::new(),
            fail_issue: false,
            fail_pipelines: false,
        }
    }
}

impl Command for CountingCommand {
    fn issue_commands(&mut self, command_buffer: usize) -> Result<Vec<GpuCommand>, CommandError> {
        if self.fail_issue {
            return Err(CommandError { message: String::from("no pipeline") });
        }
        self.issued.push(command_buffer);
        Ok(vec![GpuCommand::BindPipeline { pipeline: 77 }, GpuCommand::DrawUnitCube])
    }

    fn recreate_pipelines(
        &mut self,
        shader_cache: &mut ShaderCache,
        render_pass: u64,
    ) -> Result<(), CommandError> {
        if self.fail_pipelines {
            return Err(CommandError { message: String::from("no shader") });
        }
        let path = String::from("shaders/model.vert.spv");
        if shader_cache.get(&path).is_none() {
            self.shaders_made += 1;
            shader_cache.add_shader(path, Shader::new(900, ShaderStage::Vertex));
        }
        self.pipelines_recreated.push(render_pass);
        Ok(())
    }
}

fn slot(base: u64) -> CurrentFrameSynchronization {
    CurrentFrameSynchronization {
        image_available: base + 1,
        render_finished: base + 2,
        in_flight: base + 3,
    }
}

fn renderer(frames_in_flight: u64, images: u64) -> Renderer {
    let slots = (0..frames_in_flight).map(|i| slot(10 * (i + 1))).collect::<Vec<_>>();
    let set = SynchronizationSet::new(slots).expect("at least one slot");
    let framebuffers = (0..images).map(|i| 100 + i).collect::<Vec<_>>();
    let swapchain =
        VulkanSwapchain::new(Dimensions::new(800, 600), 5, framebuffers).expect("one image");
    let mut renderer = Renderer::new(set, swapchain).expect("one image");
    renderer.allocate_command_buffers();
    renderer
}

fn window() -> Dimensions {
    Dimensions::new(800, 600)
}

/// Runs one frame without errors and returns the fence waited on and the
/// command buffer submitted.
fn good_frame(renderer: &mut Renderer, acquired: u32) -> (u64, u32) {
    let fence = match renderer.render(FrameEvent::RedrawRequested, window()) {
        FrameAction::WaitForFence { fence } => fence,
        other => panic!("expected a fence wait, got {:?}", other),
    };
    match renderer.render(FrameEvent::FenceWaited { result: VK_SUCCESS }, window()) {
        FrameAction::AcquireNextImage { .. } => {}
        other => panic!("expected an acquire, got {:?}", other),
    }
    let submitted = match renderer.render(
        FrameEvent::ImageAcquired { result: VK_SUCCESS, image_index: acquired },
        window(),
    ) {
        FrameAction::Submit { command_buffer, fence: signalled, .. } => {
            assert_eq!(signalled, fence);
            command_buffer
        }
        other => panic!("expected a submit, got {:?}", other),
    };
    match renderer.render(FrameEvent::Submitted { result: VK_SUCCESS }, window()) {
        FrameAction::Present { image_index, .. } => assert_eq!(image_index, acquired),
        other => panic!("expected a present, got {:?}", other),
    }
    assert_eq!(
        renderer.render(FrameEvent::Presented { result: VK_SUCCESS }, window()),
        FrameAction::FrameDone
    );
    (fence, submitted)
}

#[test]
fn five_frames_two_in_flight_three_images() {
    let mut renderer = renderer(2, 3);
    let acquired = [0u32, 1, 2, 0, 1];
    let mut fences = Vec::new();
    let mut submitted = Vec::new();
    for (frame, image) in acquired.iter().enumerate() {
        assert_eq!(renderer.current_frame(), frame % 2);
        let (fence, command_buffer) = good_frame(&mut renderer, *image);
        fences.push(fence);
        submitted.push(command_buffer);
    }
    // One fence wait per frame, on the fence of slot `frame mod 2`.
    assert_eq!(fences, vec![13, 23, 13, 23, 13]);
    // The command buffer follows the acquired image, not the frame slot.
    assert_eq!(submitted, vec![0, 1, 2, 0, 1]);
    assert_eq!(renderer.current_frame(), 1);
    assert_eq!(renderer.phase(), FramePhase::Idle);
}

#[test]
fn suboptimal_present_recreates_once() {
    let mut renderer = renderer(2, 3);
    let mut command = CountingCommand::new();
    let mut actions = Vec::new();
    actions.push(renderer.render(FrameEvent::RedrawRequested, window()));
    actions.push(renderer.render(FrameEvent::FenceWaited { result: VK_SUCCESS }, window()));
    actions.push(renderer.render(
        FrameEvent::ImageAcquired { result: VK_SUCCESS, image_index: 2 },
        window(),
    ));
    actions.push(renderer.render(FrameEvent::Submitted { result: VK_SUCCESS }, window()));
    actions.push(renderer.render(FrameEvent::Presented { result: VK_SUBOPTIMAL_KHR }, window()));
    // The next frame does not proceed while the swapchain is stale.
    actions.push(renderer.render(FrameEvent::RedrawRequested, window()));
    let resized = Dimensions::new(1024, 768);
    actions.push(renderer.render(FrameEvent::DeviceIdle, resized));
    actions.push(renderer.render(FrameEvent::RedrawRequested, resized));

    let idle_waits = actions.iter().filter(|a| **a == FrameAction::WaitIdle).count();
    let rebuilds = actions
        .iter()
        .filter(|a| matches!(a, FrameAction::CreateSwapchain { .. }))
        .count();
    assert_eq!(idle_waits, 1);
    assert_eq!(rebuilds, 1);
    assert_eq!(actions[4], FrameAction::WaitIdle);
    assert_eq!(actions[5], FrameAction::Ignored);
    assert_eq!(actions[6], FrameAction::CreateSwapchain { dimensions: resized });
    assert_eq!(actions[7], FrameAction::Ignored);
    assert!(!renderer.has_swapchain());

    let recordings = renderer
        .recreate_swapchain(resized, 6, vec![200, 201, 202, 203], &mut command)
        .expect("recreation succeeds");
    assert_eq!(command.pipelines_recreated, vec![6]);
    assert_eq!(command.issued, vec![0, 1, 2, 3]);
    assert_eq!(recordings.len(), 4);
    assert_eq!(renderer.command_pool().number_of_command_buffers, 4);
    assert_eq!(renderer.vulkan_swapchain().extent, resized);
    assert_eq!(renderer.vulkan_swapchain().framebuffers, vec![200, 201, 202, 203]);
    for (index, recording) in recordings.iter().enumerate() {
        assert_eq!(
            *recording,
            vec![
                GpuCommand::BeginCommandBuffer,
                GpuCommand::BeginRenderPass {
                    render_pass: 6,
                    framebuffer: 200 + index as u64,
                    width: 1024,
                    height: 768,
                },
                GpuCommand::SetViewport { width: 1024, height: 768 },
                GpuCommand::SetScissor { width: 1024, height: 768 },
                GpuCommand::BindPipeline { pipeline: 77 },
                GpuCommand::DrawUnitCube,
                GpuCommand::EndRenderPass,
                GpuCommand::EndCommandBuffer,
            ]
        );
    }
    // The frame that was presented counts: the next frame uses slot 1.
    assert_eq!(renderer.current_frame(), 1);
    assert_eq!(renderer.phase(), FramePhase::Idle);
    assert_eq!(
        renderer.render(FrameEvent::RedrawRequested, resized),
        FrameAction::WaitForFence { fence: 23 }
    );
}

#[test]
fn out_of_date_acquire_aborts_the_frame() {
    let mut renderer = renderer(2, 3);
    let mut command = CountingCommand::new();
    renderer.render(FrameEvent::RedrawRequested, window());
    renderer.render(FrameEvent::FenceWaited { result: VK_SUCCESS }, window());
    assert_eq!(
        renderer.render(
            FrameEvent::ImageAcquired { result: VK_ERROR_OUT_OF_DATE_KHR, image_index: 0 },
            window()
        ),
        FrameAction::WaitIdle
    );
    assert_eq!(renderer.phase(), FramePhase::Draining { advance: false });
    assert_eq!(
        renderer.render(FrameEvent::DeviceIdle, window()),
        FrameAction::CreateSwapchain { dimensions: window() }
    );
    renderer
        .recreate_swapchain(window(), 5, vec![1, 2], &mut command)
        .expect("recreation succeeds");
    // Nothing was drawn, so the frame index stays.
    assert_eq!(renderer.current_frame(), 0);
    assert_eq!(renderer.command_pool().number_of_command_buffers, 2);
}

#[test]
fn out_of_date_present_recreates() {
    let mut renderer = renderer(2, 2);
    renderer.render(FrameEvent::RedrawRequested, window());
    renderer.render(FrameEvent::FenceWaited { result: VK_SUCCESS }, window());
    renderer.render(FrameEvent::ImageAcquired { result: VK_SUCCESS, image_index: 1 }, window());
    renderer.render(FrameEvent::Submitted { result: VK_SUCCESS }, window());
    assert_eq!(
        renderer.render(FrameEvent::Presented { result: VK_ERROR_OUT_OF_DATE_KHR }, window()),
        FrameAction::WaitIdle
    );
    assert_eq!(renderer.phase(), FramePhase::Draining { advance: true });
}

#[test]
fn other_results_are_fatal() {
    let device_lost = -4;
    let mut renderer = renderer(2, 2);
    renderer.render(FrameEvent::RedrawRequested, window());
    renderer.render(FrameEvent::FenceWaited { result: VK_SUCCESS }, window());
    assert_eq!(
        renderer.render(FrameEvent::ImageAcquired { result: device_lost, image_index: 0 }, window()),
        FrameAction::Fatal { result: device_lost }
    );
    assert_eq!(renderer.phase(), FramePhase::Failed);
    assert_eq!(renderer.render(FrameEvent::RedrawRequested, window()), FrameAction::Ignored);

    let mut renderer = self::renderer(2, 2);
    good_frame(&mut renderer, 0);
    renderer.render(FrameEvent::RedrawRequested, window());
    renderer.render(FrameEvent::FenceWaited { result: VK_SUCCESS }, window());
    renderer.render(FrameEvent::ImageAcquired { result: VK_SUBOPTIMAL_KHR, image_index: 1 }, window());
    renderer.render(FrameEvent::Submitted { result: VK_SUCCESS }, window());
    assert_eq!(
        renderer.render(FrameEvent::Presented { result: device_lost }, window()),
        FrameAction::Fatal { result: device_lost }
    );
}

#[test]
fn failed_wait_and_failed_submission_are_fatal() {
    let device_lost = -4;
    let mut renderer = renderer(2, 2);
    renderer.render(FrameEvent::RedrawRequested, window());
    assert_eq!(
        renderer.render(FrameEvent::FenceWaited { result: device_lost }, window()),
        FrameAction::Fatal { result: device_lost }
    );
    assert_eq!(renderer.phase(), FramePhase::Failed);

    let timeout = 2;
    let mut renderer = self::renderer(2, 2);
    renderer.render(FrameEvent::RedrawRequested, window());
    assert_eq!(
        renderer.render(FrameEvent::FenceWaited { result: timeout }, window()),
        FrameAction::Fatal { result: timeout }
    );

    let mut renderer = self::renderer(2, 2);
    renderer.render(FrameEvent::RedrawRequested, window());
    renderer.render(FrameEvent::FenceWaited { result: VK_SUCCESS }, window());
    renderer.render(FrameEvent::ImageAcquired { result: VK_SUCCESS, image_index: 0 }, window());
    assert_eq!(
        renderer.render(FrameEvent::Submitted { result: device_lost }, window()),
        FrameAction::Fatal { result: device_lost }
    );
    assert_eq!(renderer.phase(), FramePhase::Failed);
    assert_eq!(
        renderer.render(FrameEvent::Presented { result: VK_SUCCESS }, window()),
        FrameAction::Ignored
    );
}

#[test]
fn image_without_command_buffer_is_refused() {
    let mut renderer = renderer(2, 3);
    renderer.render(FrameEvent::RedrawRequested, window());
    renderer.render(FrameEvent::FenceWaited { result: VK_SUCCESS }, window());
    assert_eq!(
        renderer.render(FrameEvent::ImageAcquired { result: VK_SUCCESS, image_index: 3 }, window()),
        FrameAction::UnknownImage { image_index: 3 }
    );
}

#[test]
fn recreation_is_idempotent() {
    let mut command = CountingCommand::new();
    let mut extents = Vec::new();
    let mut counts = Vec::new();
    let mut renderer = renderer(2, 3);
    for _ in 0..3 {
        renderer.render(FrameEvent::RedrawRequested, window());
        renderer.render(FrameEvent::FenceWaited { result: VK_SUCCESS }, window());
        renderer.render(
            FrameEvent::ImageAcquired { result: VK_ERROR_OUT_OF_DATE_KHR, image_index: 0 },
            window(),
        );
        renderer.render(FrameEvent::DeviceIdle, window());
        let recordings = renderer
            .recreate_swapchain(window(), 5, vec![7, 8, 9], &mut command)
            .expect("recreation succeeds");
        extents.push(renderer.vulkan_swapchain().extent);
        counts.push((
            renderer.vulkan_swapchain().framebuffers.len(),
            renderer.command_pool().number_of_command_buffers,
            recordings.len(),
        ));
    }
    assert_eq!(extents, vec![window(), window(), window()]);
    assert_eq!(counts, vec![(3, 3, 3), (3, 3, 3), (3, 3, 3)]);
    // The shader was made for the first pipeline and found in the cache for
    // the others.
    assert_eq!(command.shaders_made, 1);
    assert_eq!(command.pipelines_recreated, vec![5, 5, 5]);
    assert_eq!(
        renderer.shader_cache().get(&String::from("shaders/model.vert.spv")),
        Some(Shader::new(900, ShaderStage::Vertex))
    );
}

#[test]
fn pipelines_are_built_against_the_render_pass() {
    let mut renderer = renderer(2, 2);
    let mut command = CountingCommand::new();
    assert!(renderer.recreate_pipelines(&mut command).is_ok());
    assert!(renderer.recreate_pipelines(&mut command).is_ok());
    assert_eq!(command.pipelines_recreated, vec![5, 5]);
    assert_eq!(command.shaders_made, 1);
    assert_eq!(renderer.phase(), FramePhase::Idle);
    command.fail_pipelines = true;
    assert!(matches!(
        renderer.recreate_pipelines(&mut command),
        Err(RendererError::RecreatePipelines)
    ));
}

#[test]
fn consumer_failure_is_never_an_empty_pass() {
    let draws = vec![GpuCommand::BindPipeline { pipeline: 3 }, GpuCommand::DrawUnitCube];
    assert_eq!(recorded_draws(Ok(draws.clone())).expect("issued"), draws);
    assert_eq!(recorded_draws(Ok(Vec::new())).expect("issued"), vec![]);
    assert!(matches!(
        recorded_draws(Err(CommandError { message: String::from("no pipeline") })),
        Err(RendererError::IssueCommands)
    ));
}

struct FailingShadows;

impl Command for FailingShadows {
    fn issue_shadow_commands(&mut self, _: usize) -> Result<Vec<GpuCommand>, CommandError> {
        Err(CommandError { message: String::from("no shadow pipeline") })
    }
}

#[test]
fn failing_shadow_commands_fail_the_recording() {
    let mut renderer = renderer(2, 2);
    assert!(renderer.record_single_command_buffer(0, &mut FailingShadows).is_ok());
    renderer.set_shadow_map(Some(shadow_map()));
    assert!(matches!(
        renderer.record_single_command_buffer(0, &mut FailingShadows),
        Err(RendererError::IssueCommands)
    ));
    assert!(matches!(
        renderer.record_all_command_buffers(&mut FailingShadows),
        Err(RendererError::IssueCommands)
    ));
}

#[test]
fn an_empty_pool_is_recorded_by_doing_nothing() {
    let slots = vec![slot(10), slot(20)];
    let set = SynchronizationSet::new(slots).expect("two slots");
    let swapchain =
        VulkanSwapchain::new(Dimensions::new(800, 600), 5, vec![100, 101]).expect("two images");
    let renderer = Renderer::new(set, swapchain).expect("two images");
    assert_eq!(renderer.command_pool().number_of_command_buffers, 0);
    let mut command = CountingCommand::new();
    command.fail_issue = true;
    let recordings = renderer.record_all_command_buffers(&mut command).expect("nothing to record");
    assert!(recordings.is_empty());
    assert!(command.issued.is_empty());
}

#[test]
fn consumer_failure_is_reported_as_failed_pipelines() {
    assert!(pipelines_result(Ok(())).is_ok());
    assert!(matches!(
        pipelines_result(Err(CommandError { message: String::from("no shader") })),
        Err(RendererError::RecreatePipelines)
    ));
    assert!(matches!(
        pipelines_result(Err(CommandError { message: String::new() })),
        Err(RendererError::RecreatePipelines)
    ));
}

#[test]
fn defaults_draw_nothing_and_rebuild_nothing() {
    let mut nothing = NothingToDraw;
    let mut cache = ShaderCache::new();
    let path = String::from("a.vert.spv");
    cache.add_shader(path.clone(), Shader::new(1, ShaderStage::Vertex));
    assert_eq!(nothing.issue_commands(0).expect("nothing can fail"), vec![]);
    assert_eq!(nothing.issue_commands(7).expect("nothing can fail"), vec![]);
    assert_eq!(nothing.issue_shadow_commands(1).expect("nothing can fail"), vec![]);
    assert!(nothing.recreate_pipelines(&mut cache, 5).is_ok());
    assert_eq!(cache.get(&path), Some(Shader::new(1, ShaderStage::Vertex)));
    assert_eq!(cache.get(&String::from("a.frag.spv")), None);
    let mut renderer = renderer(2, 2);
    assert!(renderer.recreate_pipelines(&mut nothing).is_ok());
}

#[test]
fn shader_cache_keeps_the_first_shader_of_a_path() {
    let mut cache = ShaderCache::new();
    let vertex = String::from("a.vert.spv");
    let fragment = String::from("a.frag.spv");
    assert_eq!(cache.get(&vertex), None);
    cache.add_shader(vertex.clone(), Shader::new(1, ShaderStage::Vertex));
    cache.add_shader(fragment.clone(), Shader::new(2, ShaderStage::Fragment));
    cache.add_shader(vertex.clone(), Shader::new(3, ShaderStage::Vertex));
    assert_eq!(cache.get(&vertex), Some(Shader::new(1, ShaderStage::Vertex)));
    assert_eq!(cache.get(&fragment), Some(Shader::new(2, ShaderStage::Fragment)));
    assert_eq!(cache.get(&String::from("b.vert.spv")), None);

    let mut renderer = renderer(2, 2);
    assert_eq!(renderer.shader_cache().get(&vertex), None);
    renderer.add_shader(vertex.clone(), Shader::new(7, ShaderStage::Vertex));
    renderer.add_shader(vertex.clone(), Shader::new(8, ShaderStage::Vertex));
    assert_eq!(renderer.shader_cache().get(&vertex), Some(Shader::new(7, ShaderStage::Vertex)));
}

#[test]
fn recreation_errors() {
    let mut command = CountingCommand::new();
    let mut renderer = renderer(2, 3);
    assert!(matches!(
        renderer.recreate_swapchain(window(), 5, vec![1], &mut command),
        Err(RendererError::NotRecreating)
    ));
    assert!(renderer.has_swapchain());
    renderer.render(FrameEvent::RedrawRequested, window());
    renderer.render(FrameEvent::FenceWaited { result: VK_SUCCESS }, window());
    renderer.render(
        FrameEvent::ImageAcquired { result: VK_ERROR_OUT_OF_DATE_KHR, image_index: 0 },
        window(),
    );
    renderer.render(FrameEvent::DeviceIdle, window());
    assert!(matches!(
        renderer.recreate_swapchain(window(), 5, vec![], &mut command),
        Err(RendererError::NoImages)
    ));
    assert_eq!(renderer.phase(), FramePhase::Recreating { advance: false });
    command.fail_pipelines = true;
    assert!(matches!(
        renderer.recreate_swapchain(window(), 5, vec![1], &mut command),
        Err(RendererError::RecreatePipelines)
    ));
    assert_eq!(renderer.phase(), FramePhase::Failed);
}

#[test]
fn failing_consumer_stops_recording() {
    let renderer = renderer(2, 3);
    let mut command = CountingCommand::new();
    command.fail_issue = true;
    assert!(matches!(
        renderer.record_all_command_buffers(&mut command),
        Err(RendererError::IssueCommands)
    ));
    assert!(matches!(
        renderer.record_single_command_buffer(0, &mut command),
        Err(RendererError::IssueCommands)
    ));
}

#[test]
fn nothing_is_recorded_while_a_frame_is_in_flight() {
    let mut renderer = renderer(2, 3);
    let mut command = CountingCommand::new();
    assert_eq!(
        renderer.record_all_command_buffers(&mut command).expect("nothing in flight").len(),
        3
    );
    good_frame(&mut renderer, 0);
    assert!(renderer.synchronization_set().is_pending(0));
    assert!(!renderer.synchronization_set().is_pending(1));
    assert!(!renderer.synchronization_set().is_idle());
    assert!(matches!(
        renderer.record_all_command_buffers(&mut command),
        Err(RendererError::FramesInFlight)
    ));
    assert_eq!(command.issued, vec![0, 1, 2]);
    // The wait on the slot's fence clears the slot again.
    good_frame(&mut renderer, 1);
    renderer.render(FrameEvent::RedrawRequested, window());
    renderer.render(FrameEvent::FenceWaited { result: VK_SUCCESS }, window());
    assert!(!renderer.synchronization_set().is_pending(0));
    assert!(renderer.synchronization_set().is_pending(1));
}

struct ShadowCaster;

impl Command for ShadowCaster {
    fn issue_commands(&mut self, _: usize) -> Result<Vec<GpuCommand>, CommandError> {
        Ok(vec![GpuCommand::BindPipeline { pipeline: 1 }, GpuCommand::DrawUnitCube])
    }

    fn issue_shadow_commands(&mut self, _: usize) -> Result<Vec<GpuCommand>, CommandError> {
        Ok(vec![GpuCommand::BindPipeline { pipeline: 2 }, GpuCommand::DrawUnitCube])
    }
}

fn shadow_map() -> ShadowMap {
    ShadowMap {
        offscreen: Offscreen {
            render_pass: 40,
            framebuffer: 41,
            depth_texture: TextureHandle { view: 42, sampler: 43 },
        },
        depth_bias: DepthBias {
            constant_factor: 1.25f32.to_bits(),
            slope_factor: 1.75f32.to_bits(),
        },
    }
}

#[test]
fn offscreen_pass_completes_before_the_main_pass() {
    let mut renderer = renderer(2, 2);
    renderer.set_shadow_map(Some(shadow_map()));
    let recordings =
        renderer.record_all_command_buffers(&mut ShadowCaster).expect("nothing can fail");
    assert_eq!(recordings.len(), 2);
    let expected = vec![
        GpuCommand::BeginCommandBuffer,
        GpuCommand::BeginDepthPass { render_pass: 40, framebuffer: 41, width: 2048, height: 2048 },
        GpuCommand::SetViewport { width: 2048, height: 2048 },
        GpuCommand::SetScissor { width: 2048, height: 2048 },
        GpuCommand::SetDepthBias { constant_factor: 0x3fa0_0000, slope_factor: 0x3fe0_0000 },
        GpuCommand::BindPipeline { pipeline: 2 },
        GpuCommand::DrawUnitCube,
        GpuCommand::EndRenderPass,
        GpuCommand::BeginRenderPass { render_pass: 5, framebuffer: 101, width: 800, height: 600 },
        GpuCommand::SetViewport { width: 800, height: 600 },
        GpuCommand::SetScissor { width: 800, height: 600 },
        GpuCommand::BindPipeline { pipeline: 1 },
        GpuCommand::DrawUnitCube,
        GpuCommand::EndRenderPass,
        GpuCommand::EndCommandBuffer,
    ];
    assert_eq!(recordings[1], expected);
    let end_of_offscreen = recordings[0]
        .iter()
        .position(|command| *command == GpuCommand::EndRenderPass)
        .expect("the offscreen pass ends");
    let begin_of_main = recordings[0]
        .iter()
        .position(|command| matches!(command, GpuCommand::BeginRenderPass { .. }))
        .expect("the main pass begins");
    assert!(end_of_offscreen < begin_of_main);
    assert_eq!(Offscreen::DIMENSION, 2048);

    let map = shadow_map();
    let shadow_draws = vec![GpuCommand::BindPipeline { pipeline: 2 }, GpuCommand::DrawUnitCube];
    assert_eq!(map.offscreen.record(map.depth_bias, &shadow_draws), expected[1..8].to_vec());
    assert_eq!(
        map.offscreen.frame_commands(
            map.depth_bias,
            &shadow_draws,
            renderer.vulkan_swapchain(),
            101,
            &vec![GpuCommand::BindPipeline { pipeline: 1 }, GpuCommand::DrawUnitCube],
        ),
        expected
    );

    // Without a shadow map the main pass is recorded alone.
    renderer.set_shadow_map(None);
    let plain = renderer.record_single_command_buffer(1, &mut ShadowCaster).expect("fine");
    assert_eq!(plain.len(), 8);
    assert_eq!(plain[1], expected[8]);
}

struct NothingToDraw;

impl Command for NothingToDraw {}

#[test]
fn an_application_may_draw_nothing() {
    let renderer = renderer(1, 2);
    let recordings =
        renderer.record_all_command_buffers(&mut NothingToDraw).expect("nothing can fail");
    assert_eq!(recordings.len(), 2);
    assert_eq!(
        recordings[1],
        vec![
            GpuCommand::BeginCommandBuffer,
            GpuCommand::BeginRenderPass { render_pass: 5, framebuffer: 101, width: 800, height: 600 },
            GpuCommand::SetViewport { width: 800, height: 600 },
            GpuCommand::SetScissor { width: 800, height: 600 },
            GpuCommand::EndRenderPass,
            GpuCommand::EndCommandBuffer,
        ]
    );
    assert_eq!(
        renderer.record_single_command_buffer(0, &mut NothingToDraw).expect("nothing can fail"),
        support::vulkan::renderer::frame_commands(renderer.vulkan_swapchain(), 100, Vec::new())
    );
}

#[test]
fn viewport_follows_the_extent() {
    let renderer = renderer(2, 3);
    assert_eq!(
        renderer.update_viewport(),
        vec![
            GpuCommand::SetViewport { width: 800, height: 600 },
            GpuCommand::SetScissor { width: 800, height: 600 },
        ]
    );
}

#[test]
fn pending_flags_follow_waits_and_submissions() {
    let set = SynchronizationSet::new(vec![slot(10), slot(20)]).expect("two slots");
    assert!(set.is_idle());
    let submitted = set.with_pending(3, true);
    assert!(submitted.is_pending(1));
    assert!(!submitted.is_pending(0));
    assert!(!submitted.is_idle());
    assert_eq!(submitted.current_frame_synchronization(1), slot(20));
    let both = submitted.with_pending(0, true);
    assert!(both.is_pending(0) && both.is_pending(1));
    let waited = both.with_pending(1, false);
    assert!(waited.is_pending(0) && !waited.is_pending(1));
    let idle = both.all_signaled();
    assert!(idle.is_idle());
    assert_eq!(idle.frames_in_flight(), 2);
    assert_eq!(idle.current_frame_synchronization(0), slot(10));
}

#[test]
fn slot_is_frame_index_modulo_slots() {
    let slots = vec![slot(10), slot(20), slot(30)];
    let set = SynchronizationSet::new(slots).expect("three slots");
    assert_eq!(set.frames_in_flight(), 3);
    for frame in 0..10usize {
        let expected = slot(10 * (frame as u64 % 3 + 1));
        assert_eq!(set.current_frame_synchronization(frame), expected);
        assert!(!set.is_pending(frame));
    }
    assert!(SynchronizationSet::new(Vec::new()).is_none());
    assert_eq!(SynchronizationSet::MAX_FRAMES_IN_FLIGHT, 2);
}
