//! The frame loop: which synchronisation slot a frame uses, what is asked of
//! the device next, when the swapchain is rebuilt, and what each command
//! buffer records.
//!
//! The renderer performs no device call. `Renderer::render` takes what the
//! device last reported and answers with the one operation that the caller
//! has to perform next.

use vstd::prelude::*;
use crate::app::Dimensions;
use crate::vulkan::command::GpuCommand;
use crate::vulkan::command::append_commands;
use crate::vulkan::offscreen::ShadowMap;
use crate::vulkan::shader::Shader;
use crate::vulkan::shader::ShaderCache;
use crate::vulkan::swapchain::SwapchainState;
use crate::vulkan::swapchain::VulkanSwapchain;
use crate::vulkan::sync::CurrentFrameSynchronization;
use crate::vulkan::sync::SynchronizationSet;
use crate::vulkan::sync::SynchronizationState;

verus! {

/// `VK_SUCCESS`.
pub const VK_SUCCESS: i32 = 0;

/// `VK_SUBOPTIMAL_KHR`: the swapchain still presents, but no longer matches
/// the surface.
pub const VK_SUBOPTIMAL_KHR: i32 = 1000001003;

/// `VK_ERROR_OUT_OF_DATE_KHR`: the swapchain can no longer present.
pub const VK_ERROR_OUT_OF_DATE_KHR: i32 = -1000001004;

/// Why the consumer of a command buffer could not do its part.
#[derive(Debug)]
pub struct CommandError {
    pub message: String,
}

/// What an application draws with. The renderer calls it whenever a command
/// buffer is recorded and whenever the render pass was replaced. What an
/// application's own methods do is the application's to say. An application
/// that leaves a method out gets the method as it stands here: it draws
/// nothing, or has no pipeline to rebuild, and that always succeeds.
pub trait Command {
    /// The draw commands of one frame, recorded inside the render pass of
    /// command buffer `command_buffer`. As it stands here, there is none, and
    /// the application stays as it is.
    fn issue_commands(&mut self, command_buffer: usize) -> (commands: Result<
        Vec<GpuCommand>,
        CommandError,
    >) where Self: Sized
        default_ensures
            commands matches Ok(draws) && draws@ == Seq::<GpuCommand>::empty(),
            *final(self) == *old(self),
    {
        Ok(Vec::new())
    }

    /// The draw commands that render the scene's depth as the light sees it,
    /// recorded inside the offscreen pass of command buffer `command_buffer`
    /// where the renderer has one. As it stands here, there is none, and the
    /// application stays as it is.
    fn issue_shadow_commands(&mut self, command_buffer: usize) -> (commands: Result<
        Vec<GpuCommand>,
        CommandError,
    >) where Self: Sized
        default_ensures
            commands matches Ok(draws) && draws@ == Seq::<GpuCommand>::empty(),
            *final(self) == *old(self),
    {
        Ok(Vec::new())
    }

    /// Rebuilds every pipeline against `render_pass`, which replaces the one
    /// they were built against. Shaders are looked up in `shader_cache`, and
    /// those that had to be made are added to it. As it stands here, there is
    /// no pipeline: the application and the cache stay as they are.
    fn recreate_pipelines(&mut self, shader_cache: &mut ShaderCache, render_pass: u64) -> (result:
        Result<(), CommandError>) where Self: Sized
        default_ensures
            result is Ok,
            *final(self) == *old(self),
            final(shader_cache)@ == old(shader_cache)@,
    {
        Ok(())
    }
}

/// Where the renderer stands in a frame.
#[derive(Clone, Copy, Debug, PartialEq, Eq, Structural)]
pub enum FramePhase {
    /// Between two frames.
    Idle,
    /// The caller waits on the fence of the frame's slot.
    WaitingForFence,
    /// The caller acquires the next image.
    Acquiring,
    /// The caller submits the command buffer of the acquired image.
    Submitting { image_index: u32 },
    /// The caller presents the acquired image.
    Presenting { image_index: u32 },
    /// The caller waits for the device to become idle before the swapchain
    /// goes. `advance` says whether the frame that found the swapchain stale
    /// was submitted, so that the frame index moves on once it is rebuilt.
    Draining { advance: bool },
    /// The old swapchain is gone and the caller creates the new one.
    Recreating { advance: bool },
    /// The device reported an error that nothing recovers from.
    Failed,
}

/// What the device reported to the caller.
#[derive(Clone, Copy, Debug, PartialEq, Eq, Structural)]
pub enum FrameEvent {
    /// The window asks for a frame.
    RedrawRequested,
    /// The wait on the slot's fence returned `result`.
    FenceWaited { result: i32 },
    /// The acquire returned `result`, for image `image_index` where that is
    /// a success.
    ImageAcquired { result: i32, image_index: u32 },
    /// The reset of the fence and the submission returned `result`: that of
    /// the reset where it failed, else that of the submission.
    Submitted { result: i32 },
    /// The present returned `result`.
    Presented { result: i32 },
    /// The device has finished all work.
    DeviceIdle,
}

/// What the caller has to do next.
#[derive(Clone, Copy, Debug, PartialEq, Eq, Structural)]
pub enum FrameAction {
    /// Block on `fence`.
    WaitForFence { fence: u64 },
    /// Acquire the next image, signalling `semaphore`, with no fence.
    AcquireNextImage { semaphore: u64 },
    /// Reset `fence`, then submit command buffer `command_buffer`: it waits
    /// on `wait_semaphore` at the colour attachment output stage, signals
    /// `signal_semaphore` and signals `fence`.
    Submit { command_buffer: u32, wait_semaphore: u64, signal_semaphore: u64, fence: u64 },
    /// Present image `image_index`, waiting on `wait_semaphore`.
    Present { wait_semaphore: u64, image_index: u32 },
    /// Wait until the device is idle.
    WaitIdle,
    /// Destroy the swapchain, create one of size `dimensions`, and hand it to
    /// `Renderer::recreate_swapchain`.
    CreateSwapchain { dimensions: Dimensions },
    /// The frame is over.
    FrameDone,
    /// Give up: the device reported `result`.
    Fatal { result: i32 },
    /// Give up: the device acquired an image that no command buffer was
    /// allocated for.
    UnknownImage { image_index: u32 },
    /// The event does not belong to the current phase. Nothing changed.
    Ignored,
}

/// Why a swapchain could not be put in place.
#[derive(Debug)]
pub enum RendererError {
    /// No swapchain is being recreated.
    NotRecreating,
    /// The new swapchain has no image.
    NoImages,
    /// The consumer failed to rebuild its pipelines.
    RecreatePipelines,
    /// The consumer failed to issue its draw commands.
    IssueCommands,
    /// A command buffer may still be executing.
    FramesInFlight,
}

/// How many command buffers the pool holds. Command buffer `i` belongs to
/// swapchain image `i`, not to a frame in flight.
#[derive(Clone, Copy, Debug, PartialEq, Eq, Structural)]
pub struct CommandPool {
    pub number_of_command_buffers: usize,
}

/// The renderer of one window: the frame loop with its swapchain,
/// synchronisation slots and command pool, and the shader cache that
/// pipelines are built from.
pub struct Renderer {
    shader_cache: ShaderCache,
    frames: FrameLoop,
}

/// The state of the frame loop.
struct FrameLoop {
    shadow_map: Option<ShadowMap>,
    vulkan_swapchain: Option<VulkanSwapchain>,
    synchronization_set: SynchronizationSet,
    current_frame: usize,
    command_pool: CommandPool,
    phase: FramePhase,
}

/// What contracts say of a `Renderer`.
pub struct RendererState {
    pub shadow_map: Option<ShadowMap>,
    pub swapchain: Option<SwapchainState>,
    pub sync: SynchronizationState,
    pub current_frame: nat,
    pub command_buffers: nat,
    pub phase: FramePhase,
}

impl RendererState {
    /// The slot of the current frame.
    pub open spec fn slot(self) -> CurrentFrameSynchronization {
        self.sync.slots[self.current_frame as int]
    }

    /// What holds of the renderer between any two calls.
    pub open spec fn wf(self) -> bool {
        &&& self.sync.wf()
        &&& self.current_frame < self.sync.slots.len()
        &&& (self.swapchain is None ==> self.phase is Recreating)
        &&& (self.swapchain matches Some(swapchain) ==> {
            &&& swapchain.framebuffers.len() >= 1
            &&& (self.command_buffers == 0 || self.command_buffers
                == swapchain.framebuffers.len())
        })
        &&& (self.phase is Acquiring ==> !self.sync.pending[self.current_frame as int])
        &&& (self.phase is Recreating ==> self.sync.idle())
        &&& (self.phase matches FramePhase::Submitting { image_index } ==> image_index
            < self.command_buffers)
        &&& (self.phase matches FramePhase::Presenting { image_index } ==> image_index
            < self.command_buffers)
    }

    /// The frame index after this one.
    pub open spec fn next_frame(self) -> nat {
        (self.current_frame + 1) % self.sync.slots.len()
    }

    /// The state in another phase.
    pub open spec fn in_phase(self, phase: FramePhase) -> Self {
        RendererState { phase, ..self }
    }

    /// The state with the pending flag of the current slot set to `pending`.
    pub open spec fn with_pending(self, pending: bool) -> Self {
        RendererState {
            sync: SynchronizationState {
                pending: self.sync.pending.update(self.current_frame as int, pending),
                ..self.sync
            },
            ..self
        }
    }

    /// The state once the device is idle and the swapchain is gone.
    pub open spec fn drained(self) -> Self {
        RendererState {
            swapchain: None,
            sync: SynchronizationState {
                pending: Seq::new(self.sync.pending.len(), |i: int| false),
                ..self.sync
            },
            ..self
        }
    }
}

/// One step of the frame loop: the state after `event` and what the caller
/// has to do next.
///
/// A frame waits on the fence of its slot, acquires an image, submits the
/// command buffer of that image and presents it; then the frame index moves
/// on by one modulo the number of slots. An acquire that finds the swapchain
/// out of date ends the frame without a draw and rebuilds the swapchain. A
/// present that finds it out of date or suboptimal rebuilds it after the
/// frame. Any other result but success, of the wait, the acquire, the
/// submission or the present, is fatal: nothing is retried.
pub open spec fn step(state: RendererState, event: FrameEvent, window_dimensions: Dimensions) -> (
    RendererState,
    FrameAction,
) {
    match (state.phase, event) {
        (FramePhase::Idle, FrameEvent::RedrawRequested) => (
            state.in_phase(FramePhase::WaitingForFence),
            FrameAction::WaitForFence { fence: state.slot().in_flight },
        ),
        (FramePhase::WaitingForFence, FrameEvent::FenceWaited { result }) => {
            if result == VK_SUCCESS {
                (
                    state.with_pending(false).in_phase(FramePhase::Acquiring),
                    FrameAction::AcquireNextImage { semaphore: state.slot().image_available },
                )
            } else {
                (state.in_phase(FramePhase::Failed), FrameAction::Fatal { result })
            }
        },
        (FramePhase::Acquiring, FrameEvent::ImageAcquired { result, image_index }) => {
            if result == VK_SUCCESS || result == VK_SUBOPTIMAL_KHR {
                if image_index < state.command_buffers {
                    (
                        state.with_pending(true).in_phase(FramePhase::Submitting { image_index }),
                        FrameAction::Submit {
                            command_buffer: image_index,
                            wait_semaphore: state.slot().image_available,
                            signal_semaphore: state.slot().render_finished,
                            fence: state.slot().in_flight,
                        },
                    )
                } else {
                    (state.in_phase(FramePhase::Failed), FrameAction::UnknownImage { image_index })
                }
            } else if result == VK_ERROR_OUT_OF_DATE_KHR {
                (state.in_phase(FramePhase::Draining { advance: false }), FrameAction::WaitIdle)
            } else {
                (state.in_phase(FramePhase::Failed), FrameAction::Fatal { result })
            }
        },
        (FramePhase::Submitting { image_index }, FrameEvent::Submitted { result }) => {
            if result == VK_SUCCESS {
                (
                    state.in_phase(FramePhase::Presenting { image_index }),
                    FrameAction::Present {
                        wait_semaphore: state.slot().render_finished,
                        image_index,
                    },
                )
            } else {
                (state.in_phase(FramePhase::Failed), FrameAction::Fatal { result })
            }
        },
        (FramePhase::Presenting { image_index }, FrameEvent::Presented { result }) => {
            if result == VK_SUCCESS {
                (
                    RendererState {
                        current_frame: state.next_frame(),
                        phase: FramePhase::Idle,
                        ..state
                    },
                    FrameAction::FrameDone,
                )
            } else if result == VK_SUBOPTIMAL_KHR || result == VK_ERROR_OUT_OF_DATE_KHR {
                (state.in_phase(FramePhase::Draining { advance: true }), FrameAction::WaitIdle)
            } else {
                (state.in_phase(FramePhase::Failed), FrameAction::Fatal { result })
            }
        },
        (FramePhase::Draining { advance }, FrameEvent::DeviceIdle) => (
            state.drained().in_phase(FramePhase::Recreating { advance }),
            FrameAction::CreateSwapchain { dimensions: window_dimensions },
        ),
        _ => (state, FrameAction::Ignored),
    }
}

/// What every command buffer records before the consumer's draw commands:
/// it begins, begins the render pass on its framebuffer over the whole
/// extent, and sets viewport and scissor to the extent.
pub open spec fn prologue(swapchain: SwapchainState, framebuffer: u64) -> Seq<GpuCommand> {
    seq![
        GpuCommand::BeginCommandBuffer,
        GpuCommand::BeginRenderPass {
            render_pass: swapchain.render_pass,
            framebuffer,
            width: swapchain.extent.width,
            height: swapchain.extent.height,
        },
        GpuCommand::SetViewport {
            width: swapchain.extent.width,
            height: swapchain.extent.height,
        },
        GpuCommand::SetScissor { width: swapchain.extent.width, height: swapchain.extent.height },
    ]
}

/// What every command buffer records after the consumer's draw commands.
pub open spec fn epilogue() -> Seq<GpuCommand> {
    seq![GpuCommand::EndRenderPass, GpuCommand::EndCommandBuffer]
}

/// The whole recording of the command buffer that renders to `framebuffer`,
/// around the consumer's draw commands `draws`.
pub open spec fn recording(swapchain: SwapchainState, framebuffer: u64, draws: Seq<GpuCommand>) -> Seq<
    GpuCommand,
> {
    prologue(swapchain, framebuffer) + draws + epilogue()
}

/// `commands` are the recording of the command buffer that renders to
/// `framebuffer`, around some draw commands: with an offscreen pass before
/// the main pass where there is a shadow map, else the main pass alone.
pub open spec fn is_recording(
    shadow_map: Option<ShadowMap>,
    swapchain: SwapchainState,
    framebuffer: u64,
    commands: Seq<GpuCommand>,
) -> bool {
    match shadow_map {
        Some(shadow_map) => exists|shadow_draws: Seq<GpuCommand>, draws: Seq<GpuCommand>|
            commands == #[trigger] shadow_map.offscreen.recording(
                shadow_map.depth_bias,
                shadow_draws,
                swapchain,
                framebuffer,
                draws,
            ),
        None => exists|draws: Seq<GpuCommand>|
            commands == #[trigger] recording(swapchain, framebuffer, draws),
    }
}

/// The recording of the command buffer that renders to `framebuffer` of
/// `swapchain`, around the draw commands `draws`.
pub fn frame_commands(swapchain: &VulkanSwapchain, framebuffer: u64, draws: Vec<GpuCommand>) -> (commands:
    Vec<GpuCommand>)
    ensures
        commands@ == recording(swapchain@, framebuffer, draws@),
{
    let mut commands: Vec<GpuCommand> = Vec::new();
    commands.push(GpuCommand::BeginCommandBuffer);
    commands.push(
        GpuCommand::BeginRenderPass {
            render_pass: swapchain.render_pass,
            framebuffer,
            width: swapchain.extent.width,
            height: swapchain.extent.height,
        },
    );
    commands.push(
        GpuCommand::SetViewport { width: swapchain.extent.width, height: swapchain.extent.height },
    );
    commands.push(
        GpuCommand::SetScissor { width: swapchain.extent.width, height: swapchain.extent.height },
    );
    append_commands(&mut commands, &draws);
    commands.push(GpuCommand::EndRenderPass);
    commands.push(GpuCommand::EndCommandBuffer);
    commands
}

impl View for FrameLoop {
    type V = RendererState;

    closed spec fn view(&self) -> RendererState {
        RendererState {
            shadow_map: self.shadow_map,
            swapchain: match self.vulkan_swapchain {
                Some(swapchain) => Some(swapchain@),
                None => None,
            },
            sync: self.synchronization_set@,
            current_frame: self.current_frame as nat,
            command_buffers: self.command_pool.number_of_command_buffers as nat,
            phase: self.phase,
        }
    }
}

impl FrameLoop {
    #[verifier::type_invariant]
    spec fn inv(self) -> bool {
        self@.wf()
    }

    fn new(synchronization_set: SynchronizationSet, swapchain: VulkanSwapchain) -> (frames: Option<
        Self,
    >)
        ensures
            frames is Some <==> swapchain@.framebuffers.len() >= 1,
            frames matches Some(frames) ==> frames@ == (RendererState {
                shadow_map: None,
                swapchain: Some(swapchain@),
                sync: synchronization_set@,
                current_frame: 0,
                command_buffers: 0,
                phase: FramePhase::Idle,
            }),
    {
        if swapchain.framebuffers.len() == 0 {
            return None;
        }
        let _ = synchronization_set.frames_in_flight();
        Some(
            FrameLoop {
                shadow_map: None,
                vulkan_swapchain: Some(swapchain),
                synchronization_set,
                current_frame: 0,
                command_pool: CommandPool { number_of_command_buffers: 0 },
                phase: FramePhase::Idle,
            },
        )
    }

    fn vulkan_swapchain(&self) -> (swapchain: &VulkanSwapchain)
        requires
            self@.swapchain is Some,
        ensures
            Some(swapchain@) == self@.swapchain,
    {
        match &self.vulkan_swapchain {
            Some(swapchain) => swapchain,
            None => unreached(),
        }
    }

    fn allocate_command_buffers(&mut self)
        requires
            old(self)@.swapchain is Some,
        ensures
            final(self)@ == (RendererState {
                command_buffers: old(self)@.swapchain->0.framebuffers.len(),
                ..old(self)@
            }),
            final(self)@.wf(),
    {
        proof {
            use_type_invariant(&*self);
        }
        let number_of_framebuffers: usize = self.vulkan_swapchain().framebuffers.len();
        self.command_pool = CommandPool { number_of_command_buffers: number_of_framebuffers };
    }

    fn render(&mut self, event: FrameEvent, window_dimensions: Dimensions) -> (action: FrameAction)
        ensures
            old(self)@.wf(),
            final(self)@.wf(),
            (final(self)@, action) == step(old(self)@, event, window_dimensions),
    {
        proof {
            use_type_invariant(&*self);
        }
        let slot = self.synchronization_set.current_frame_synchronization(self.current_frame);
        let frames_in_flight: usize = self.synchronization_set.frames_in_flight();
        assert(self@.sync.slot_index(self.current_frame as nat) == self.current_frame) by {
            vstd::arithmetic::div_mod::lemma_small_mod(
                self.current_frame as nat,
                self@.sync.slots.len(),
            );
        }
        match (self.phase, event) {
            (FramePhase::Idle, FrameEvent::RedrawRequested) => {
                self.phase = FramePhase::WaitingForFence;
                FrameAction::WaitForFence { fence: slot.in_flight }
            },
            (FramePhase::WaitingForFence, FrameEvent::FenceWaited { result }) => {
                if result == VK_SUCCESS {
                    let waited = self.synchronization_set.with_pending(self.current_frame, false);
                    self.synchronization_set = waited;
                    self.phase = FramePhase::Acquiring;
                    FrameAction::AcquireNextImage { semaphore: slot.image_available }
                } else {
                    self.phase = FramePhase::Failed;
                    FrameAction::Fatal { result }
                }
            },
            (FramePhase::Acquiring, FrameEvent::ImageAcquired { result, image_index }) => {
                if result == VK_SUCCESS || result == VK_SUBOPTIMAL_KHR {
                    if (image_index as usize) < self.command_pool.number_of_command_buffers {
                        let submitted = self.synchronization_set.with_pending(
                            self.current_frame,
                            true,
                        );
                        self.phase = FramePhase::Submitting { image_index };
                        self.synchronization_set = submitted;
                        FrameAction::Submit {
                            command_buffer: image_index,
                            wait_semaphore: slot.image_available,
                            signal_semaphore: slot.render_finished,
                            fence: slot.in_flight,
                        }
                    } else {
                        self.phase = FramePhase::Failed;
                        FrameAction::UnknownImage { image_index }
                    }
                } else if result == VK_ERROR_OUT_OF_DATE_KHR {
                    self.phase = FramePhase::Draining { advance: false };
                    FrameAction::WaitIdle
                } else {
                    self.phase = FramePhase::Failed;
                    FrameAction::Fatal { result }
                }
            },
            (FramePhase::Submitting { image_index }, FrameEvent::Submitted { result }) => {
                if result == VK_SUCCESS {
                    self.phase = FramePhase::Presenting { image_index };
                    FrameAction::Present { wait_semaphore: slot.render_finished, image_index }
                } else {
                    self.phase = FramePhase::Failed;
                    FrameAction::Fatal { result }
                }
            },
            (FramePhase::Presenting { image_index }, FrameEvent::Presented { result }) => {
                if result == VK_SUCCESS {
                    self.phase = FramePhase::Idle;
                    self.current_frame = next_frame_index(self.current_frame, frames_in_flight);
                    FrameAction::FrameDone
                } else if result == VK_SUBOPTIMAL_KHR || result == VK_ERROR_OUT_OF_DATE_KHR {
                    self.phase = FramePhase::Draining { advance: true };
                    FrameAction::WaitIdle
                } else {
                    self.phase = FramePhase::Failed;
                    FrameAction::Fatal { result }
                }
            },
            (FramePhase::Draining { advance }, FrameEvent::DeviceIdle) => {
                let idle = self.synchronization_set.all_signaled();
                self.synchronization_set = idle;
                self.phase = FramePhase::Recreating { advance };
                self.vulkan_swapchain = None;
                assert(self@.sync.pending =~= old(self)@.drained().sync.pending);
                FrameAction::CreateSwapchain { dimensions: window_dimensions }
            },
            _ => FrameAction::Ignored,
        }
    }

    fn record_single_command_buffer<C: Command>(&self, index: usize, command: &mut C) -> (commands:
        Result<Vec<GpuCommand>, RendererError>)
        requires
            self@.swapchain is Some,
            index < self@.swapchain->0.framebuffers.len(),
        ensures
            match commands {
                Ok(commands) => is_recording(
                    self@.shadow_map,
                    self@.swapchain->0,
                    self@.swapchain->0.framebuffers[index as int],
                    commands@,
                ),
                Err(error) => error is IssueCommands,
            },
    {
        let swapchain = self.vulkan_swapchain();
        let framebuffer: u64 = swapchain.framebuffers[index];
        let draws = match recorded_draws(command.issue_commands(index)) {
            Ok(draws) => draws,
            Err(error) => {
                return Err(error);
            },
        };
        match self.shadow_map {
            Some(shadow_map) => {
                let shadow_draws = match recorded_draws(command.issue_shadow_commands(index)) {
                    Ok(draws) => draws,
                    Err(error) => {
                        return Err(error);
                    },
                };
                Ok(
                    shadow_map.offscreen.frame_commands(
                        shadow_map.depth_bias,
                        &shadow_draws,
                        swapchain,
                        framebuffer,
                        &draws,
                    ),
                )
            },
            None => Ok(frame_commands(swapchain, framebuffer, draws)),
        }
    }

    fn record_all_command_buffers<C: Command>(&self, command: &mut C) -> (recordings: Result<
        Vec<Vec<GpuCommand>>,
        RendererError,
    >)
        requires
            self@.swapchain is Some,
        ensures
            self@.wf(),
            match recordings {
                Ok(recordings) => self@.sync.idle() && all_recorded(self@, recordings@),
                Err(error) => if self@.sync.idle() {
                    error is IssueCommands
                } else {
                    error is FramesInFlight
                },
            },
            self@.sync.idle() && self@.command_buffers == 0 ==> (recordings matches Ok(
                recordings,
            ) && recordings@.len() == 0),
    {
        proof {
            use_type_invariant(self);
        }
        if !self.synchronization_set.is_idle() {
            return Err(RendererError::FramesInFlight);
        }
        let count: usize = self.command_pool.number_of_command_buffers;
        let mut recordings: Vec<Vec<GpuCommand>> = Vec::new();
        let mut index: usize = 0;
        while index < count
            invariant
                self@.wf(),
                self@.swapchain is Some,
                self@.sync.idle(),
                count == self@.command_buffers,
                index <= count,
                recordings@.len() == index,
                forall|i: int|
                    0 <= i < index ==> is_recording(
                        self@.shadow_map,
                        self@.swapchain->0,
                        self@.swapchain->0.framebuffers[i],
                        (#[trigger] recordings@[i])@,
                    ),
            decreases count - index,
        {
            match self.record_single_command_buffer(index, command) {
                Ok(commands) => {
                    recordings.push(commands);
                },
                Err(error) => {
                    return Err(error);
                },
            }
            index += 1;
        }
        Ok(recordings)
    }

    /// Puts the swapchain in place. Until the consumer has done its part,
    /// the loop counts as failed. Says whether the frame index is to move on
    /// when it has.
    fn begin_recreation(
        &mut self,
        window_dimensions: Dimensions,
        render_pass: u64,
        framebuffers: Vec<u64>,
    ) -> (advance: Result<bool, RendererError>)
        ensures
            old(self)@.wf(),
            final(self)@.wf(),
            !(old(self)@.phase is Recreating) ==> {
                &&& advance matches Err(error) && error is NotRecreating
                &&& final(self)@ == old(self)@
            },
            old(self)@.phase is Recreating && framebuffers@.len() == 0 ==> {
                &&& advance matches Err(error) && error is NoImages
                &&& final(self)@ == old(self)@
            },
            old(self)@.phase is Recreating && framebuffers@.len() >= 1 ==> {
                &&& advance matches Ok(advance) && old(self)@.phase == (FramePhase::Recreating {
                    advance,
                })
                &&& final(self)@ == (RendererState {
                    swapchain: Some(
                        SwapchainState {
                            extent: window_dimensions,
                            render_pass,
                            framebuffers: framebuffers@,
                        },
                    ),
                    command_buffers: framebuffers@.len(),
                    phase: FramePhase::Failed,
                    ..old(self)@
                })
            },
    {
        proof {
            use_type_invariant(&*self);
        }
        let advance: bool = match self.phase {
            FramePhase::Recreating { advance } => advance,
            _ => {
                return Err(RendererError::NotRecreating);
            },
        };
        let swapchain = match VulkanSwapchain::new(window_dimensions, render_pass, framebuffers) {
            Some(swapchain) => swapchain,
            None => {
                return Err(RendererError::NoImages);
            },
        };
        self.vulkan_swapchain = None;
        self.command_pool = CommandPool { number_of_command_buffers: swapchain.image_count() };
        self.vulkan_swapchain = Some(swapchain);
        self.phase = FramePhase::Failed;
        Ok(advance)
    }

    /// The consumer has done its part: the loop is between two frames again.
    fn finish_recreation(&mut self, advance: bool)
        requires
            old(self)@.phase is Failed,
            old(self)@.swapchain is Some,
        ensures
            final(self)@.wf(),
            final(self)@ == (RendererState {
                current_frame: if advance {
                    old(self)@.next_frame()
                } else {
                    old(self)@.current_frame
                },
                phase: FramePhase::Idle,
                ..old(self)@
            }),
    {
        proof {
            use_type_invariant(&*self);
        }
        let frames_in_flight: usize = self.synchronization_set.frames_in_flight();
        if advance {
            self.current_frame = next_frame_index(self.current_frame, frames_in_flight);
        }
        self.phase = FramePhase::Idle;
    }
}

impl View for Renderer {
    type V = RendererState;

    closed spec fn view(&self) -> RendererState {
        self.frames@
    }
}

impl Renderer {
    /// The shaders that the renderer has cached, by the path of their file.
    pub closed spec fn shaders(&self) -> Map<Seq<char>, Shader> {
        self.shader_cache@
    }

    /// A renderer between two frames, at frame 0, with the swapchain of the
    /// window as it is, no command buffer allocated yet and no shader cached.
    /// `None` where the swapchain has no image.
    pub fn new(synchronization_set: SynchronizationSet, swapchain: VulkanSwapchain) -> (renderer:
        Option<Self>)
        ensures
            renderer is Some <==> swapchain@.framebuffers.len() >= 1,
            renderer matches Some(renderer) ==> {
                &&& renderer@.wf()
                &&& renderer.shaders() == Map::<Seq<char>, Shader>::empty()
                &&& renderer@ == (RendererState {
                    shadow_map: None,
                    swapchain: Some(swapchain@),
                    sync: synchronization_set@,
                    current_frame: 0,
                    command_buffers: 0,
                    phase: FramePhase::Idle,
                })
            },
    {
        let _ = synchronization_set.frames_in_flight();
        match FrameLoop::new(synchronization_set, swapchain) {
            Some(frames) => Some(Renderer { shader_cache: ShaderCache::new(), frames }),
            None => None,
        }
    }

    /// The swapchain. There is one except while it is being recreated.
    pub fn vulkan_swapchain(&self) -> (swapchain: &VulkanSwapchain)
        requires
            self@.swapchain is Some,
        ensures
            Some(swapchain@) == self@.swapchain,
    {
        self.frames.vulkan_swapchain()
    }

    /// Whether there is a swapchain.
    pub fn has_swapchain(&self) -> (present: bool)
        ensures
            present == (self@.swapchain is Some),
    {
        self.frames.vulkan_swapchain.is_some()
    }

    /// The index of the frame that is rendered or will be rendered next. It
    /// is the index of its synchronisation slot as well.
    pub fn current_frame(&self) -> (frame: usize)
        ensures
            frame == self@.current_frame,
    {
        self.frames.current_frame
    }

    /// Where the renderer stands in the frame.
    pub fn phase(&self) -> (phase: FramePhase)
        ensures
            phase == self@.phase,
    {
        self.frames.phase
    }

    /// The command pool.
    pub fn command_pool(&self) -> (pool: CommandPool)
        ensures
            pool.number_of_command_buffers == self@.command_buffers,
    {
        self.frames.command_pool
    }

    /// The synchronisation objects.
    pub fn synchronization_set(&self) -> (set: &SynchronizationSet)
        ensures
            set@ == self@.sync,
    {
        &self.frames.synchronization_set
    }

    /// Renders the offscreen pass of `shadow_map` before the main pass of
    /// every command buffer that is recorded from now on, or none.
    pub fn set_shadow_map(&mut self, shadow_map: Option<ShadowMap>)
        ensures
            final(self)@ == (RendererState { shadow_map, ..old(self)@ }),
            final(self).shaders() == old(self).shaders(),
    {
        proof {
            use_type_invariant(&self.frames);
        }
        self.frames.shadow_map = shadow_map;
    }

    /// The shader cache.
    pub fn shader_cache(&self) -> (cache: &ShaderCache)
        ensures
            cache@ == self.shaders(),
    {
        &self.shader_cache
    }

    /// Caches `shader` as the shader of the file at `path`, unless one is
    /// cached for that path already.
    pub fn add_shader(&mut self, path: String, shader: Shader)
        ensures
            final(self)@ == old(self)@,
            final(self).shaders() == (if old(self).shaders().contains_key(path@) {
                old(self).shaders()
            } else {
                old(self).shaders().insert(path@, shader)
            }),
    {
        self.shader_cache.add_shader(path, shader);
    }

    /// Gives the pool one command buffer per swapchain image.
    pub fn allocate_command_buffers(&mut self)
        requires
            old(self)@.swapchain is Some,
        ensures
            final(self)@.wf(),
            final(self).shaders() == old(self).shaders(),
            final(self)@ == (RendererState {
                command_buffers: old(self)@.swapchain->0.framebuffers.len(),
                ..old(self)@
            }),
    {
        self.frames.allocate_command_buffers();
    }

    /// The commands that set viewport and scissor to the swapchain's extent.
    pub fn update_viewport(&self) -> (commands: Vec<GpuCommand>)
        requires
            self@.swapchain is Some,
        ensures
            commands@ == seq![
                GpuCommand::SetViewport {
                    width: self@.swapchain->0.extent.width,
                    height: self@.swapchain->0.extent.height,
                },
                GpuCommand::SetScissor {
                    width: self@.swapchain->0.extent.width,
                    height: self@.swapchain->0.extent.height,
                },
            ],
    {
        let extent = self.vulkan_swapchain().extent;
        let mut commands: Vec<GpuCommand> = Vec::new();
        commands.push(GpuCommand::SetViewport { width: extent.width, height: extent.height });
        commands.push(GpuCommand::SetScissor { width: extent.width, height: extent.height });
        commands
    }

    /// Takes `event` and says what the caller has to do next, as `step` has
    /// it. `window_dimensions` is the size that a new swapchain is asked for.
    /// The renderer is well formed before and after.
    pub fn render(&mut self, event: FrameEvent, window_dimensions: Dimensions) -> (action:
        FrameAction)
        ensures
            old(self)@.wf(),
            final(self)@.wf(),
            final(self).shaders() == old(self).shaders(),
            (final(self)@, action) == step(old(self)@, event, window_dimensions),
    {
        self.frames.render(event, window_dimensions)
    }

    /// Has the consumer build its pipelines against the render pass of the
    /// swapchain, with the shader cache at hand. Whether that succeeds is the
    /// consumer's to say, and `pipelines_result` says what is answered then;
    /// the state of the frame loop stays as it is.
    pub fn recreate_pipelines<C: Command>(&mut self, command: &mut C) -> (result: Result<
        (),
        RendererError,
    >)
        requires
            old(self)@.swapchain is Some,
        ensures
            final(self)@ == old(self)@,
            result matches Err(error) ==> error is RecreatePipelines,
    {
        let render_pass: u64 = self.vulkan_swapchain().render_pass;
        pipelines_result(command.recreate_pipelines(&mut self.shader_cache, render_pass))
    }

    /// Records the command buffer of swapchain image `index`: the consumer's
    /// draw commands inside the render pass on the image's framebuffer, after
    /// the offscreen pass where the renderer has a shadow map. Whatever the
    /// consumer issues, a recording is what comes back when it succeeds;
    /// `recorded_draws` says what becomes of each outcome of the consumer,
    /// `frame_commands` and `Offscreen::frame_commands` say which recording
    /// its draw commands give.
    pub fn record_single_command_buffer<C: Command>(&self, index: usize, command: &mut C) -> (commands:
        Result<Vec<GpuCommand>, RendererError>)
        requires
            self@.swapchain is Some,
            index < self@.swapchain->0.framebuffers.len(),
        ensures
            match commands {
                Ok(commands) => is_recording(
                    self@.shadow_map,
                    self@.swapchain->0,
                    self@.swapchain->0.framebuffers[index as int],
                    commands@,
                ),
                Err(error) => error is IssueCommands,
            },
    {
        self.frames.record_single_command_buffer(index, command)
    }

    /// Records every command buffer of the pool, in order. Once the consumer
    /// fails, nothing more is recorded. Nothing is recorded at all while a
    /// submission may still be executing: a command buffer is not recorded
    /// again until every fence that covers it was waited on. A pool without
    /// command buffers is recorded by doing nothing, which always succeeds.
    pub fn record_all_command_buffers<C: Command>(&self, command: &mut C) -> (recordings: Result<
        Vec<Vec<GpuCommand>>,
        RendererError,
    >)
        requires
            self@.swapchain is Some,
        ensures
            self@.wf(),
            match recordings {
                Ok(recordings) => self@.sync.idle() && all_recorded(self@, recordings@),
                Err(error) => if self@.sync.idle() {
                    error is IssueCommands
                } else {
                    error is FramesInFlight
                },
            },
            self@.sync.idle() && self@.command_buffers == 0 ==> (recordings matches Ok(
                recordings,
            ) && recordings@.len() == 0),
    {
        self.frames.record_all_command_buffers(command)
    }

    /// Puts the new swapchain in place, once the caller has created it on
    /// `FrameAction::CreateSwapchain`: the swapchain has the extent
    /// `window_dimensions` and one framebuffer per image, the pool has one
    /// command buffer per image, the consumer rebuilds its pipelines against
    /// the new render pass with the shader cache at hand, and every command
    /// buffer is recorded again.
    /// The recordings come back for the caller to hand to the device; then
    /// the renderer is between two frames again.
    pub fn recreate_swapchain<C: Command>(
        &mut self,
        window_dimensions: Dimensions,
        render_pass: u64,
        framebuffers: Vec<u64>,
        command: &mut C,
    ) -> (recordings: Result<Vec<Vec<GpuCommand>>, RendererError>)
        ensures
            old(self)@.wf(),
            final(self)@.wf(),
            !(old(self)@.phase is Recreating) ==> {
                &&& recordings matches Err(error) && error is NotRecreating
                &&& final(self)@ == old(self)@
                &&& final(self).shaders() == old(self).shaders()
            },
            old(self)@.phase is Recreating && framebuffers@.len() == 0 ==> {
                &&& recordings matches Err(error) && error is NoImages
                &&& final(self)@ == old(self)@
                &&& final(self).shaders() == old(self).shaders()
            },
            old(self)@.phase is Recreating && framebuffers@.len() >= 1 ==> {
                &&& final(self)@.swapchain == Some(
                    SwapchainState {
                        extent: window_dimensions,
                        render_pass,
                        framebuffers: framebuffers@,
                    },
                )
                &&& final(self)@.command_buffers == framebuffers@.len()
                &&& final(self)@.sync == old(self)@.sync
                &&& match recordings {
                    Ok(recordings) => {
                        &&& final(self)@ == recreated(
                            old(self)@,
                            window_dimensions,
                            render_pass,
                            framebuffers@,
                        )
                        &&& all_recorded(final(self)@, recordings@)
                    },
                    Err(error) => {
                        &&& error is RecreatePipelines || error is IssueCommands
                        &&& final(self)@ == (RendererState {
                            swapchain: final(self)@.swapchain,
                            command_buffers: final(self)@.command_buffers,
                            phase: FramePhase::Failed,
                            ..old(self)@
                        })
                    },
                }
            },
    {
        let advance: bool = match self.frames.begin_recreation(
            window_dimensions,
            render_pass,
            framebuffers,
        ) {
            Ok(advance) => advance,
            Err(error) => {
                return Err(error);
            },
        };
        match pipelines_result(command.recreate_pipelines(&mut self.shader_cache, render_pass)) {
            Ok(()) => {},
            Err(error) => {
                return Err(error);
            },
        }
        let recordings = match self.frames.record_all_command_buffers(command) {
            Ok(recordings) => recordings,
            Err(error) => {
                return Err(error);
            },
        };
        self.frames.finish_recreation(advance);
        Ok(recordings)
    }
}

/// What goes into a recording once the consumer has tried to issue its draw
/// commands: the commands as they were issued where the consumer succeeded,
/// and `IssueCommands` whatever it failed with. A failure is never taken for
/// an empty pass.
pub fn recorded_draws(outcome: Result<Vec<GpuCommand>, CommandError>) -> (draws: Result<
    Vec<GpuCommand>,
    RendererError,
>)
    ensures
        draws is Ok <==> outcome is Ok,
        outcome matches Ok(issued) ==> (draws matches Ok(recorded) && recorded == issued),
        draws matches Err(error) ==> error is IssueCommands,
{
    match outcome {
        Ok(issued) => Ok(issued),
        Err(_) => Err(RendererError::IssueCommands),
    }
}

/// What the renderer answers once the consumer has tried to rebuild its
/// pipelines: success where the consumer succeeded, and `RecreatePipelines`
/// whatever it failed with.
pub fn pipelines_result(outcome: Result<(), CommandError>) -> (result: Result<(), RendererError>)
    ensures
        result is Ok <==> outcome is Ok,
        result matches Err(error) ==> error is RecreatePipelines,
{
    match outcome {
        Ok(()) => Ok(()),
        Err(_) => Err(RendererError::RecreatePipelines),
    }
}

/// The frame index after `current_frame`, with `frames_in_flight` slots.
fn next_frame_index(current_frame: usize, frames_in_flight: usize) -> (next: usize)
    requires
        current_frame < frames_in_flight,
    ensures
        next == (current_frame + 1) % (frames_in_flight as int),
        next < frames_in_flight,
{
    if current_frame + 1 == frames_in_flight {
        0
    } else {
        assert((current_frame + 1) % (frames_in_flight as int) == current_frame + 1) by {
            vstd::arithmetic::div_mod::lemma_small_mod(
                (current_frame + 1) as nat,
                frames_in_flight as nat,
            );
        }
        current_frame + 1
    }
}

/// There is one recording per command buffer of the pool, and recording `i`
/// renders to framebuffer `i` of the swapchain.
pub open spec fn all_recorded(state: RendererState, recordings: Seq<Vec<GpuCommand>>) -> bool {
    &&& state.swapchain is Some
    &&& recordings.len() == state.command_buffers
    &&& forall|i: int|
        0 <= i < recordings.len() ==> is_recording(
            state.shadow_map,
            state.swapchain->0,
            state.swapchain->0.framebuffers[i],
            (#[trigger] recordings[i])@,
        )
}

/// The state after a swapchain of extent `window_dimensions` with the images
/// `framebuffers` was put in place: it is the swapchain, there is one command
/// buffer per image, and the renderer is between two frames. Where the frame
/// that found the old swapchain stale had been submitted, the frame index
/// has moved on.
pub open spec fn recreated(
    state: RendererState,
    window_dimensions: Dimensions,
    render_pass: u64,
    framebuffers: Seq<u64>,
) -> RendererState {
    RendererState {
        swapchain: Some(SwapchainState { extent: window_dimensions, render_pass, framebuffers }),
        command_buffers: framebuffers.len(),
        current_frame: if state.phase == (FramePhase::Recreating { advance: true }) {
            state.next_frame()
        } else {
            state.current_frame
        },
        phase: FramePhase::Idle,
        ..state
    }
}

/// Every step keeps the renderer well formed.
pub proof fn lemma_step_preserves_wf(
    state: RendererState,
    event: FrameEvent,
    window_dimensions: Dimensions,
)
    requires
        state.wf(),
    ensures
        step(state, event, window_dimensions).0.wf(),
{
}

/// Slot reuse law. A submission is only ever asked for on the slot of the
/// current frame, with the command buffer of the image that was acquired, and
/// only when no earlier submission on that slot can still be executing: the
/// wait on the slot's fence has returned since.
pub proof fn lemma_submit_follows_fence_wait(
    state: RendererState,
    event: FrameEvent,
    window_dimensions: Dimensions,
)
    requires
        state.wf(),
        step(state, event, window_dimensions).1 is Submit,
    ensures
        state.phase is Acquiring,
        !state.sync.pending[state.current_frame as int],
        event matches FrameEvent::ImageAcquired { result, image_index } && step(
            state,
            event,
            window_dimensions,
        ).1 == (FrameAction::Submit {
            command_buffer: image_index,
            wait_semaphore: state.slot().image_available,
            signal_semaphore: state.slot().render_finished,
            fence: state.slot().in_flight,
        }),
        step(state, event, window_dimensions).0.sync.pending[state.current_frame as int],
{
}

/// The phase in which a frame acquires its image is only entered by the
/// return of the wait on the fence of the frame's slot.
pub proof fn lemma_acquire_follows_fence_wait(
    state: RendererState,
    event: FrameEvent,
    window_dimensions: Dimensions,
)
    requires
        state.wf(),
        !(state.phase is Acquiring),
        step(state, event, window_dimensions).0.phase is Acquiring,
    ensures
        state.phase is WaitingForFence,
        event == (FrameEvent::FenceWaited { result: VK_SUCCESS }),
        step(state, event, window_dimensions).0.current_frame == state.current_frame,
{
}

/// A frame that was presented moves the frame index on by one modulo the
/// number of frames in flight, and no other step changes it.
pub proof fn lemma_frame_index_advances(
    state: RendererState,
    event: FrameEvent,
    window_dimensions: Dimensions,
)
    requires
        state.wf(),
    ensures
        step(state, event, window_dimensions).0.current_frame == (if step(
            state,
            event,
            window_dimensions,
        ).1 is FrameDone {
            state.next_frame()
        } else {
            state.current_frame
        }),
{
}

/// Command buffer law. No step of a frame changes the number of command
/// buffers or the images of the swapchain, whatever the number of frames in
/// flight: once there is one command buffer per image, there is one per
/// image for as long as the swapchain lives.
pub proof fn lemma_step_keeps_command_buffers(
    state: RendererState,
    event: FrameEvent,
    window_dimensions: Dimensions,
)
    requires
        state.wf(),
    ensures
        step(state, event, window_dimensions).0.command_buffers == state.command_buffers,
        step(state, event, window_dimensions).0.swapchain is Some ==> step(
            state,
            event,
            window_dimensions,
        ).0.swapchain == state.swapchain,
{
}

/// Recreation law. Whatever the renderer went through before, putting a
/// swapchain for the same window dimensions and images in place gives the
/// same swapchain: its extent is the window's, it has one framebuffer per
/// image and at least one, and the pool has one command buffer per image.
pub proof fn lemma_recreation_is_idempotent(
    first: RendererState,
    second: RendererState,
    window_dimensions: Dimensions,
    render_pass: u64,
    framebuffers: Seq<u64>,
)
    requires
        framebuffers.len() >= 1,
    ensures
        recreated(first, window_dimensions, render_pass, framebuffers).swapchain == recreated(
            second,
            window_dimensions,
            render_pass,
            framebuffers,
        ).swapchain,
        recreated(first, window_dimensions, render_pass, framebuffers).swapchain matches Some(
            swapchain,
        ) && swapchain.extent == window_dimensions && swapchain.framebuffers.len()
            == framebuffers.len() && swapchain.framebuffers.len() >= 1,
        recreated(first, window_dimensions, render_pass, framebuffers).command_buffers
            == framebuffers.len(),
        recreated(
            recreated(first, window_dimensions, render_pass, framebuffers),
            window_dimensions,
            render_pass,
            framebuffers,
        ) == recreated(first, window_dimensions, render_pass, framebuffers),
{
}

/// A stale swapchain is rebuilt in exactly this order: the device drains,
/// the swapchain goes and a new one is asked for, and nothing else happens
/// until `Renderer::recreate_swapchain` has put it in place. When the new
/// swapchain is asked for, no submission can still be executing.
pub proof fn lemma_recreation_sequence(
    state: RendererState,
    event: FrameEvent,
    window_dimensions: Dimensions,
)
    requires
        state.wf(),
    ensures
        step(state, event, window_dimensions).1 is WaitIdle <==> step(
            state,
            event,
            window_dimensions,
        ).0.phase is Draining && !(state.phase is Draining),
        step(state, event, window_dimensions).1 is CreateSwapchain <==> state.phase is Draining
            && event is DeviceIdle,
        state.phase is Draining ==> step(state, event, window_dimensions).1 is CreateSwapchain
            || step(state, event, window_dimensions).1 is Ignored,
        state.phase is Recreating ==> step(state, event, window_dimensions) == (
            state,
            FrameAction::Ignored,
        ),
        step(state, event, window_dimensions).1 is CreateSwapchain ==> step(
            state,
            event,
            window_dimensions,
        ).0.sync.idle(),
{
}


/// Something that moves the renderer on: an event that `Renderer::render`
/// takes, or a call of `Renderer::recreate_swapchain` that the consumer let
/// succeed or made fail.
pub enum Transition {
    Event { event: FrameEvent, window_dimensions: Dimensions },
    Recreated { window_dimensions: Dimensions, render_pass: u64, framebuffers: Seq<u64> },
    RecreationFailed { window_dimensions: Dimensions, render_pass: u64, framebuffers: Seq<u64> },
}

/// The state after a transition.
pub open spec fn apply(state: RendererState, transition: Transition) -> RendererState {
    match transition {
        Transition::Event { event, window_dimensions } => step(state, event, window_dimensions).0,
        Transition::Recreated { window_dimensions, render_pass, framebuffers } => {
            if state.phase is Recreating && framebuffers.len() >= 1 {
                recreated(state, window_dimensions, render_pass, framebuffers)
            } else {
                state
            }
        },
        Transition::RecreationFailed { window_dimensions, render_pass, framebuffers } => {
            if state.phase is Recreating && framebuffers.len() >= 1 {
                RendererState {
                    swapchain: Some(
                        SwapchainState { extent: window_dimensions, render_pass, framebuffers },
                    ),
                    command_buffers: framebuffers.len(),
                    phase: FramePhase::Failed,
                    ..state
                }
            } else {
                state
            }
        },
    }
}

/// The transition ends a frame that was submitted: the frame was presented,
/// or the swapchain that its present found stale is in place again.
pub open spec fn completes_frame(state: RendererState, transition: Transition) -> bool {
    match transition {
        Transition::Event { event, window_dimensions } => step(
            state,
            event,
            window_dimensions,
        ).1 is FrameDone,
        Transition::Recreated { window_dimensions, render_pass, framebuffers } => state.phase
            == (FramePhase::Recreating { advance: true }) && framebuffers.len() >= 1,
        Transition::RecreationFailed { .. } => false,
    }
}

/// The state after a run of transitions.
pub open spec fn run(state: RendererState, transitions: Seq<Transition>) -> RendererState
    decreases transitions.len(),
{
    if transitions.len() == 0 {
        state
    } else {
        apply(run(state, transitions.drop_last()), transitions.last())
    }
}

/// The number of submitted frames that a run of transitions ends.
pub open spec fn frames_completed(state: RendererState, transitions: Seq<Transition>) -> nat
    decreases transitions.len(),
{
    if transitions.len() == 0 {
        0
    } else {
        let before = frames_completed(state, transitions.drop_last());
        if completes_frame(run(state, transitions.drop_last()), transitions.last()) {
            before + 1
        } else {
            before
        }
    }
}

/// There is one command buffer per swapchain image.
pub open spec fn one_command_buffer_per_image(state: RendererState) -> bool {
    state.swapchain matches Some(swapchain) ==> state.command_buffers
        == swapchain.framebuffers.len()
}

/// Frame slot law. Whatever happens to a renderer, it stays well formed, it
/// keeps its slots, and the slot of its next frame is the slot it began with
/// plus the number of frames that it has completed, modulo the number of
/// slots. For a renderer that begins at frame 0, frame `i` uses slot
/// `i mod N`.
pub proof fn lemma_frame_slot_after_run(state: RendererState, transitions: Seq<Transition>)
    requires
        state.wf(),
    ensures
        run(state, transitions).wf(),
        run(state, transitions).sync.slots == state.sync.slots,
        run(state, transitions).current_frame == (state.current_frame + frames_completed(
            state,
            transitions,
        )) % state.sync.slots.len(),
    decreases transitions.len(),
{
    let n = state.sync.slots.len() as int;
    if transitions.len() == 0 {
        vstd::arithmetic::div_mod::lemma_small_mod(state.current_frame, n as nat);
    } else {
        let before = run(state, transitions.drop_last());
        let total = (state.current_frame + frames_completed(state, transitions.drop_last())) as int;
        lemma_frame_slot_after_run(state, transitions.drop_last());
        if completes_frame(before, transitions.last()) {
            vstd::arithmetic::div_mod::lemma_add_mod_noop(total, 1, n);
            vstd::arithmetic::div_mod::lemma_add_mod_noop(total % n, 1, n);
            vstd::arithmetic::div_mod::lemma_mod_twice(total, n);
        }
    }
}

/// Command buffer law. Once there is one command buffer per swapchain image,
/// there is one per image whatever happens, however many frames are in
/// flight; and every swapchain that is put in place brings about one command
/// buffer per image.
pub proof fn lemma_command_buffers_follow_images(state: RendererState, transitions: Seq<Transition>)
    requires
        state.wf(),
        one_command_buffer_per_image(state),
    ensures
        one_command_buffer_per_image(run(state, transitions)),
    decreases transitions.len(),
{
    if transitions.len() > 0 {
        lemma_command_buffers_follow_images(state, transitions.drop_last());
    }
}

/// Every swapchain that is put in place brings about one command buffer per
/// image, whatever the state before and whether the consumer then does its
/// part or fails.
pub proof fn lemma_recreation_matches_command_buffers(state: RendererState, transition: Transition)
    requires
        state.wf(),
        state.phase is Recreating,
        match transition {
            Transition::Recreated { framebuffers, .. } => framebuffers.len() >= 1,
            Transition::RecreationFailed { framebuffers, .. } => framebuffers.len() >= 1,
            Transition::Event { .. } => false,
        },
    ensures
        one_command_buffer_per_image(apply(state, transition)),
        apply(state, transition).swapchain is Some,
        apply(state, transition).wf(),
{
}

/// The state after the first `n` events of a frame in which nothing goes
/// wrong and image `image_index` is acquired, and what the caller was asked
/// to do last.
pub open spec fn frame_prefix(
    state: RendererState,
    image_index: u32,
    window_dimensions: Dimensions,
    n: nat,
) -> (RendererState, FrameAction)
    decreases n,
{
    if n == 0 {
        (state, FrameAction::Ignored)
    } else {
        let before = frame_prefix(state, image_index, window_dimensions, (n - 1) as nat).0;
        let event = if n == 1 {
            FrameEvent::RedrawRequested
        } else if n == 2 {
            FrameEvent::FenceWaited { result: VK_SUCCESS }
        } else if n == 3 {
            FrameEvent::ImageAcquired { result: VK_SUCCESS, image_index }
        } else if n == 4 {
            FrameEvent::Submitted { result: VK_SUCCESS }
        } else {
            FrameEvent::Presented { result: VK_SUCCESS }
        };
        step(before, event, window_dimensions)
    }
}

/// The state after a whole frame in which nothing goes wrong and image
/// `image_index` is acquired.
pub open spec fn after_frame(
    state: RendererState,
    image_index: u32,
    window_dimensions: Dimensions,
) -> RendererState {
    frame_prefix(state, image_index, window_dimensions, 5).0
}

/// The state after one frame for each of `images`, in which nothing goes
/// wrong and the images are acquired in that order.
pub open spec fn after_frames(
    state: RendererState,
    images: Seq<u32>,
    window_dimensions: Dimensions,
) -> RendererState
    decreases images.len(),
{
    if images.len() == 0 {
        state
    } else {
        after_frame(
            after_frames(state, images.drop_last(), window_dimensions),
            images.last(),
            window_dimensions,
        )
    }
}

/// A frame uses the slot of its frame index and no other. In a frame in
/// which nothing goes wrong, the fence that is waited on, the semaphore that
/// the acquire signals, the semaphores and the fence of the submission and
/// the semaphore that the present waits on are those of the slot of the
/// current frame; the command buffer and the image presented are those of the
/// image that was acquired; and after the frame the renderer is between two
/// frames, at the next frame index.
pub proof fn lemma_frame_uses_its_slot(
    state: RendererState,
    image_index: u32,
    window_dimensions: Dimensions,
)
    requires
        state.wf(),
        state.phase is Idle,
        image_index < state.command_buffers,
    ensures
        frame_prefix(state, image_index, window_dimensions, 1).1 == (FrameAction::WaitForFence {
            fence: state.slot().in_flight,
        }),
        frame_prefix(state, image_index, window_dimensions, 2).1
            == (FrameAction::AcquireNextImage { semaphore: state.slot().image_available }),
        frame_prefix(state, image_index, window_dimensions, 3).1 == (FrameAction::Submit {
            command_buffer: image_index,
            wait_semaphore: state.slot().image_available,
            signal_semaphore: state.slot().render_finished,
            fence: state.slot().in_flight,
        }),
        frame_prefix(state, image_index, window_dimensions, 4).1 == (FrameAction::Present {
            wait_semaphore: state.slot().render_finished,
            image_index,
        }),
        frame_prefix(state, image_index, window_dimensions, 5).1 == FrameAction::FrameDone,
        after_frame(state, image_index, window_dimensions) == (RendererState {
            current_frame: state.next_frame(),
            sync: after_frame(state, image_index, window_dimensions).sync,
            ..state
        }),
        after_frame(state, image_index, window_dimensions).sync.slots == state.sync.slots,
        after_frame(state, image_index, window_dimensions).wf(),
{
    reveal_with_fuel(frame_prefix, 6);
}

/// Frame slot law, frame by frame. A renderer that is between two frames at
/// frame index 0 and has a command buffer for every image that is acquired
/// renders frame `i` with slot `i mod N` of its `N` slots: after `i` frames
/// in which nothing goes wrong it is between two frames again at frame index
/// `i mod N`, with the slots and command buffers it began with, so that
/// `lemma_frame_uses_its_slot` holds of the frame that follows.
pub proof fn lemma_frame_i_uses_slot_i_mod_n(
    state: RendererState,
    images: Seq<u32>,
    window_dimensions: Dimensions,
)
    requires
        state.wf(),
        state.phase is Idle,
        state.current_frame == 0,
        forall|k: int| 0 <= k < images.len() ==> images[k] < state.command_buffers,
    ensures
        after_frames(state, images, window_dimensions).wf(),
        after_frames(state, images, window_dimensions).phase is Idle,
        after_frames(state, images, window_dimensions).current_frame == images.len()
            % state.sync.slots.len(),
        after_frames(state, images, window_dimensions).sync.slots == state.sync.slots,
        after_frames(state, images, window_dimensions).command_buffers == state.command_buffers,
        after_frames(state, images, window_dimensions).slot() == state.sync.slots[(images.len()
            % state.sync.slots.len()) as int],
    decreases images.len(),
{
    let n = state.sync.slots.len() as int;
    if images.len() == 0 {
        vstd::arithmetic::div_mod::lemma_small_mod(0, n as nat);
    } else {
        let before = after_frames(state, images.drop_last(), window_dimensions);
        lemma_frame_i_uses_slot_i_mod_n(state, images.drop_last(), window_dimensions);
        lemma_frame_uses_its_slot(before, images.last(), window_dimensions);
        let done = (images.len() - 1) as int;
        vstd::arithmetic::div_mod::lemma_add_mod_noop(done, 1, n);
        vstd::arithmetic::div_mod::lemma_add_mod_noop(done % n, 1, n);
        vstd::arithmetic::div_mod::lemma_mod_twice(done, n);
    }
}

} // verus!
