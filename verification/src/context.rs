//! The render context: the surface configuration, the frame resource pool and
//! the frame timing, with the entry points that change them: creation, a
//! resize, and a frame in two steps. A redraw begins the frame and asks the
//! surface for its image; the answer decides whether the frame is rendered,
//! skipped, asked for once more, or failed.

use vstd::prelude::*;
use crate::command::{BindGroupLayoutDescriptor, Command, Fullscreen, Resource};
use crate::descriptor::{
    BindGroupLayoutEntry,
    BindingType,
    ComputePipelineDescriptor,
    Extent3d,
    ShaderStage,
    StorageTextureAccess,
    TextureFormat,
    TextureUsages,
    TextureViewDimension,
    POSITIONS_BINDING,
    TARGET_BINDING,
    spec_target_format,
    target_format,
};
use crate::frame::{Acquisition, FrameStep, SurfaceError, frame_step, spec_frame_step};
use crate::layout::{PointPosition, encode_positions, encoded_positions, spec_encode_positions};
use crate::pool::{
    FrameData,
    FramePool,
    FramePoolView,
    index_after,
    lemma_index_after,
    lemma_index_period,
    lemma_regenerate_fits,
    regenerate_commands,
    release_command,
    release_commands,
    setup_command,
    setup_commands,
    spec_frame_data,
    spec_target_extent,
};
use crate::surface::{
    SurfaceConfig,
    clamp_dimension,
    present_mode,
    spec_clamp_dimension,
    spec_present_mode,
};
use crate::timing::{Timing, READOUT_INTERVAL_NANOS, lemma_after_frames, lemma_readouts_are_spaced};

verus! {

/// Number of frame slots of a context made by `Context::new`.
pub const NUM_FRAMES: usize = 2;

/// Edge of the square of texels that one workgroup of the shader paints.
pub const WORKGROUP_SIZE: u32 = 8;

/// Workgroups needed to cover `extent` texels: `extent / WORKGROUP_SIZE`,
/// rounded up.
pub open spec fn spec_workgroup_count(extent: u32) -> u32 {
    ((extent + WORKGROUP_SIZE - 1) / WORKGROUP_SIZE as int) as u32
}

/// The configuration of the surface of a window of the given size: the format
/// that the surface reports first, as it is; the uses that the surface
/// proposes and the one that the copy needs; and the pacing that `turbo`
/// selects.
pub open spec fn spec_configure_surface(
    width: u32,
    height: u32,
    surface_format: TextureFormat,
    surface_usage: TextureUsages,
    turbo: bool,
) -> SurfaceConfig {
    SurfaceConfig {
        width: spec_clamp_dimension(width),
        height: spec_clamp_dimension(height),
        format: surface_format,
        usage: surface_usage.spec_union(TextureUsages::spec_copy_dst()),
        present_mode: spec_present_mode(turbo),
    }
}

/// The bind group layout: the position buffer as a uniform at binding 0, the
/// offscreen target as a write-only storage texture at binding 1, both for the
/// compute stage.
pub open spec fn spec_bind_group_layout() -> BindGroupLayoutDescriptor {
    BindGroupLayoutDescriptor {
        positions: BindGroupLayoutEntry {
            binding: POSITIONS_BINDING,
            visibility: ShaderStage::Compute,
            ty: BindingType::UniformBuffer { has_dynamic_offset: false },
        },
        target: BindGroupLayoutEntry {
            binding: TARGET_BINDING,
            visibility: ShaderStage::Compute,
            ty: BindingType::StorageTexture {
                access: StorageTextureAccess::WriteOnly,
                format: spec_target_format(),
                view_dimension: TextureViewDimension::D2,
            },
        },
    }
}

/// The pipeline: one compute stage over the one bind group layout.
pub open spec fn spec_compute_pipeline() -> ComputePipelineDescriptor {
    ComputePipelineDescriptor { stage: ShaderStage::Compute, bind_group_layouts: 1 }
}

/// The commands that bring up a context of `count` frame slots: configure the
/// surface, build the pipeline with its bind group layout, then create the
/// slots' resources.
pub open spec fn startup_commands(count: nat, config: SurfaceConfig) -> Seq<Command> {
    seq![
        Command::ConfigureSurface { config },
        Command::CreateBindGroupLayout { descriptor: spec_bind_group_layout() },
        Command::CreateComputePipeline { descriptor: spec_compute_pipeline() },
    ] + setup_commands(count, config)
}

/// The commands that tear a context of `count` frame slots down, in the
/// reverse of the order in which it acquired what it holds: the slots'
/// resources, the pipeline and its bind group layout, the queue and the
/// device, then the surface, and only then the window that the surface
/// presents to.
pub open spec fn teardown_commands(count: nat) -> Seq<Command> {
    release_commands(count) + seq![
        Command::Release { resource: Resource::ComputePipeline },
        Command::Release { resource: Resource::BindGroupLayout },
        Command::Release { resource: Resource::Queue },
        Command::Release { resource: Resource::Device },
        Command::Release { resource: Resource::Surface },
        Command::Release { resource: Resource::Window },
    ]
}

/// The command that reports the frame rate, where a readout is due.
pub open spec fn readout_commands(readout: Option<u64>) -> Seq<Command> {
    match readout {
        Some(frame_nanos) => seq![Command::PrintFrameRate { frame_nanos }],
        None => Seq::empty(),
    }
}

/// The context as a value.
pub struct ContextView {
    pub timing: Timing,
    pub config: SurfaceConfig,
    pub pool: FramePoolView,
    /// Whether the frame under way has asked for the surface image a second
    /// time.
    pub retried: bool,
}

impl ContextView {
    /// The timestamps are in order, the surface has a size, and every frame
    /// slot holds what the surface configuration asks for.
    pub open spec fn wf(self) -> bool {
        &&& self.timing.wf()
        &&& self.config.wf()
        &&& self.pool.wf(self.config)
    }

    /// A context that is created at `now` for a window of the given size.
    pub open spec fn spec_with_frames(
        count: nat,
        width: u32,
        height: u32,
        surface_format: TextureFormat,
        surface_usage: TextureUsages,
        turbo: bool,
        now: u64,
    ) -> ContextView {
        let config = spec_configure_surface(width, height, surface_format, surface_usage, turbo);
        ContextView {
            timing: Timing::spec_new(now),
            config,
            pool: FramePoolView::spec_new(count, config),
            retried: false,
        }
    }

    /// The slot that the next frame uses.
    pub open spec fn active_slot(self) -> usize {
        self.pool.index as usize
    }

    /// The command that uploads the points of a frame to the active slot, in
    /// the byte layout of the position buffer.
    pub open spec fn upload_command(self, points: [PointPosition; 4]) -> Command {
        Command::WritePositions { slot: self.active_slot(), bytes: spec_encode_positions(points) }
    }

    /// The command that paints the active slot's offscreen target: enough
    /// workgroups to cover the surface in both directions, one layer deep.
    pub open spec fn dispatch_command(self) -> Command {
        Command::DispatchCompute {
            slot: self.active_slot(),
            x: spec_workgroup_count(self.config.width),
            y: spec_workgroup_count(self.config.height),
            z: 1,
        }
    }

    /// The command that copies the active slot's offscreen target, all of it,
    /// to the surface image.
    pub open spec fn copy_command(self) -> Command {
        Command::CopyTextureToSurface {
            slot: self.active_slot(),
            extent: spec_target_extent(self.config),
        }
    }

    /// The commands that begin a frame: upload the points to the active slot,
    /// then ask the surface for its next image.
    pub open spec fn upload_commands(self, points: [PointPosition; 4]) -> Seq<Command> {
        seq![self.upload_command(points), Command::AcquireSurfaceTexture]
    }

    /// The commands that render to the acquired image at `now`: paint, copy,
    /// submit, present, report the frame rate if a readout is due, and ask
    /// for the next redraw.
    pub open spec fn render_commands(self, now: u64) -> Seq<Command> {
        seq![self.dispatch_command(), self.copy_command(), Command::Submit, Command::Present]
            + readout_commands(self.timing.spec_readout(now)) + seq![Command::RequestRedraw]
    }

    /// The commands that ask for the surface image once more: configure the
    /// surface as it is configured, then acquire.
    pub open spec fn retry_commands(self) -> Seq<Command> {
        seq![Command::ConfigureSurface { config: self.config }, Command::AcquireSurfaceTexture]
    }

    /// The commands of a step of a frame at `now`. A skipped frame asks for
    /// the next redraw and does nothing else; a failed frame does nothing.
    pub open spec fn step_commands(self, now: u64, step: FrameStep) -> Seq<Command> {
        match step {
            FrameStep::Render => self.render_commands(now),
            FrameStep::Skip => seq![Command::RequestRedraw],
            FrameStep::Retry => self.retry_commands(),
            FrameStep::Fail { .. } => Seq::empty(),
        }
    }

    /// All commands of a frame at `now` whose image was acquired at once.
    pub open spec fn frame_commands(self, now: u64, points: [PointPosition; 4]) -> Seq<Command> {
        self.upload_commands(points) + self.render_commands(now)
    }

    /// The context after the beginning of a frame: nothing has been asked
    /// twice yet.
    pub open spec fn spec_redraw(self) -> ContextView {
        ContextView { retried: false, ..self }
    }

    /// The context after a frame was rendered at `now`: the timing has moved
    /// on and the next slot is active.
    pub open spec fn spec_rendered(self, now: u64) -> ContextView {
        ContextView {
            timing: self.timing.spec_update(now),
            config: self.config,
            pool: self.pool.spec_advance(),
            retried: false,
        }
    }

    /// The context after a step of a frame at `now`. Only a rendered frame
    /// moves the timing and the active slot; a skipped or failed frame leaves
    /// them as they were.
    pub open spec fn spec_step(self, now: u64, step: FrameStep) -> ContextView {
        match step {
            FrameStep::Render => self.spec_rendered(now),
            FrameStep::Skip => ContextView { retried: false, ..self },
            FrameStep::Retry => ContextView { retried: true, ..self },
            FrameStep::Fail { .. } => ContextView { retried: false, ..self },
        }
    }

    /// The context after a whole frame at `now` whose image was acquired at
    /// once.
    pub open spec fn spec_frame(self, now: u64) -> ContextView {
        self.spec_redraw().spec_rendered(now)
    }

    /// The context after a resize: the surface has the new size, clamped, and
    /// every slot is fitted to it.
    pub open spec fn spec_resize(self, width: u32, height: u32) -> ContextView {
        let config = self.config.spec_with_size(width, height);
        ContextView { config, pool: self.pool.spec_regenerate(config), ..self }
    }

    /// The commands of a resize: configure the surface, give every slot a new
    /// target and bind group, and ask for a redraw.
    pub open spec fn resize_commands(self, width: u32, height: u32) -> Seq<Command> {
        let config = self.config.spec_with_size(width, height);
        seq![Command::ConfigureSurface { config }] + regenerate_commands(
            self.pool.slots.len(),
            config,
        ) + seq![Command::RequestRedraw]
    }

    /// The commands of frame `k` of a run of frames at `times` with `points`.
    pub open spec fn commands_of_frame(
        self,
        times: Seq<u64>,
        points: Seq<[PointPosition; 4]>,
        k: int,
    ) -> Seq<Command> {
        self.after_frames(times.take(k)).frame_commands(times[k], points[k])
    }

    /// The context after one frame at each of `times`, in order, each with
    /// its image acquired at once.
    pub open spec fn after_frames(self, times: Seq<u64>) -> ContextView
        decreases times.len(),
    {
        if times.len() == 0 {
            self
        } else {
            self.after_frames(times.drop_last()).spec_frame(times.last())
        }
    }
}

pub struct Context {
    timing: Timing,
    config: SurfaceConfig,
    pool: FramePool,
    retried: bool,
}

impl View for Context {
    type V = ContextView;

    closed spec fn view(&self) -> ContextView {
        ContextView {
            timing: self.timing,
            config: self.config,
            pool: self.pool@,
            retried: self.retried,
        }
    }
}

impl Context {
    pub open spec fn wf(&self) -> bool {
        self@.wf()
    }

    /// Creates the context for a window that reports the given inner size,
    /// with `NUM_FRAMES` frame slots, and returns the commands that bring it
    /// up. `surface_format` is the format that the surface reports first and
    /// `surface_usage` the usage that it proposes for its images; `turbo`
    /// switches vsync off; `now` starts the clock.
    pub fn new(
        width: u32,
        height: u32,
        surface_format: TextureFormat,
        surface_usage: TextureUsages,
        turbo: bool,
        now: u64,
    ) -> (made: (Context, Vec<Command>))
        ensures
            made.0@ == ContextView::spec_with_frames(
                NUM_FRAMES as nat,
                width,
                height,
                surface_format,
                surface_usage,
                turbo,
                now,
            ),
            made.0.wf(),
            made.0@.config.format == surface_format,
            made.1@ == startup_commands(NUM_FRAMES as nat, made.0@.config),
    {
        Self::with_frames(NUM_FRAMES, width, height, surface_format, surface_usage, turbo, now)
    }

    /// As `new`, with `count` frame slots, of which there is at least one.
    pub fn with_frames(
        count: usize,
        width: u32,
        height: u32,
        surface_format: TextureFormat,
        surface_usage: TextureUsages,
        turbo: bool,
        now: u64,
    ) -> (made: (Context, Vec<Command>))
        requires
            count >= 1,
        ensures
            made.0@ == ContextView::spec_with_frames(
                count as nat,
                width,
                height,
                surface_format,
                surface_usage,
                turbo,
                now,
            ),
            made.0.wf(),
            made.0@.config.format == surface_format,
            made.1@ == startup_commands(count as nat, made.0@.config),
    {
        let size = Self::get_window_size(width, height);
        let config = Self::configure_surface(size.0, size.1, surface_format, surface_usage, turbo);
        let mut plan: Vec<Command> = Vec::new();
        plan.push(Command::ConfigureSurface { config });
        plan.push(Command::CreateBindGroupLayout { descriptor: Self::create_bind_group_layout() });
        plan.push(Command::CreateComputePipeline { descriptor: Self::create_compute_pipeline() });
        let (pool, mut creation) = Self::create_frame_data(count, &config);
        plan.append(&mut creation);
        let timing = Timing::new(now);
        (Context { timing, config, pool, retried: false }, plan)
    }

    /// Begins a frame with the given points: returns the commands that
    /// upload them to the active slot and ask the surface for its next image.
    /// How that request ended goes to `frame_acquired`, which decides the rest
    /// of the frame.
    pub fn redraw(&mut self, points: [PointPosition; 4]) -> (plan: Vec<Command>)
        requires
            old(self).wf(),
        ensures
            final(self)@ == old(self)@.spec_redraw(),
            final(self).wf(),
            plan@ == old(self)@.upload_commands(points),
            plan@[0] matches Command::WritePositions { slot, bytes } && slot == old(self)@.pool.index
                && bytes@ == encoded_positions(points@),
    {
        let mut plan: Vec<Command> = Vec::new();
        plan.push(self.update_points_position_buffer(points));
        plan.push(Command::AcquireSurfaceTexture);
        self.retried = false;
        plan
    }

    /// Goes on with the frame at `now`, now that the request for the surface
    /// image has ended in `outcome`.
    ///
    /// With an image, the frame is rendered: the commands paint the active
    /// slot's target, copy it to the image, submit, present, report the frame
    /// rate if a readout is due and ask for the next redraw; the timing moves
    /// on and the next slot becomes active. After a timeout the frame is
    /// skipped: nothing is submitted or presented, the timing and the active
    /// slot stay, and the one command asks for the next redraw. A surface
    /// that is outdated or lost is configured again and asked once more; if
    /// that fails too, or on any other error, the frame fails with the error
    /// and the context stays as it was.
    ///
    /// Time does not run backwards: a frame is not rendered before the frame
    /// drawn last.
    pub fn frame_acquired(&mut self, now: u64, outcome: Acquisition) -> (result: Result<
        Vec<Command>,
        SurfaceError,
    >)
        requires
            old(self).wf(),
            outcome is Acquired ==> old(self)@.timing.time_last_draw <= now,
        ensures
            final(self)@ == old(self)@.spec_step(
                now,
                spec_frame_step(outcome, old(self)@.retried),
            ),
            final(self).wf(),
            outcome is Acquired ==> result is Ok && final(self)@.pool.index == (old(self)@.pool.index
                + 1) % (old(self)@.pool.slots.len() as int) && final(self)@.timing
                == old(self)@.timing.spec_update(now),
            outcome !is Acquired ==> final(self)@.pool == old(self)@.pool && final(self)@.timing
                == old(self)@.timing,
            outcome == (Acquisition::Failed { error: SurfaceError::Timeout }) ==> result is Ok,
            final(self)@.config == old(self)@.config,
            match result {
                Ok(plan) => {
                    &&& spec_frame_step(outcome, old(self)@.retried) !is Fail
                    &&& plan@ == old(self)@.step_commands(
                        now,
                        spec_frame_step(outcome, old(self)@.retried),
                    )
                },
                Err(error) => {
                    &&& spec_frame_step(outcome, old(self)@.retried) == (FrameStep::Fail { error })
                    &&& outcome == (Acquisition::Failed { error })
                },
            },
    {
        let step = frame_step(outcome, self.retried);
        let mut plan: Vec<Command> = Vec::new();
        match step {
            FrameStep::Render => {
                plan.push(self.dispatch_compute_pass());
                plan.push(
                    Command::CopyTextureToSurface {
                        slot: self.pool.current_slot_index(),
                        extent: Extent3d {
                            width: self.config.width,
                            height: self.config.height,
                            depth_or_array_layers: 1,
                        },
                    },
                );
                plan.push(Command::Submit);
                plan.push(Command::Present);
                match self.update_timing(now) {
                    Some(frame_nanos) => {
                        plan.push(Command::PrintFrameRate { frame_nanos });
                    },
                    None => {},
                }
                self.pool.advance();
                plan.push(Command::RequestRedraw);
                self.retried = false;
                Ok(plan)
            },
            FrameStep::Skip => {
                plan.push(Command::RequestRedraw);
                self.retried = false;
                Ok(plan)
            },
            FrameStep::Retry => {
                plan.push(Command::ConfigureSurface { config: self.config });
                plan.push(Command::AcquireSurfaceTexture);
                self.retried = true;
                Ok(plan)
            },
            FrameStep::Fail { error } => {
                self.retried = false;
                Err(error)
            },
        }
    }

    /// Takes the window's new size: the surface gets it, with no dimension
    /// below 1, and every frame slot, active or not, gets a target of that
    /// size and a bind group over it. Returns the commands, which end in a
    /// request for a redraw.
    pub fn resize(&mut self, width: u32, height: u32) -> (plan: Vec<Command>)
        requires
            old(self).wf(),
        ensures
            final(self)@ == old(self)@.spec_resize(width, height),
            final(self).wf(),
            final(self)@.config.width == spec_clamp_dimension(width),
            final(self)@.config.height == spec_clamp_dimension(height),
            final(self)@.config.width >= 1,
            final(self)@.config.height >= 1,
            plan@ == old(self)@.resize_commands(width, height),
    {
        self.config = self.config.with_size(width, height);
        let mut plan: Vec<Command> = Vec::new();
        plan.push(Command::ConfigureSurface { config: self.config });
        let mut regeneration = self.pool.regenerate(&self.config);
        plan.append(&mut regeneration);
        plan.push(Command::RequestRedraw);
        proof {
            lemma_regenerate_fits(old(self)@.pool, old(self)@.config, self.config);
        }
        plan
    }

    /// Ends the context, and returns the commands that release what it
    /// holds, the surface before the window.
    pub fn teardown(self) -> (plan: Vec<Command>)
        ensures
            plan@ == teardown_commands(self@.pool.slots.len()),
    {
        let mut plan = self.pool.release();
        plan.push(Command::Release { resource: Resource::ComputePipeline });
        plan.push(Command::Release { resource: Resource::BindGroupLayout });
        plan.push(Command::Release { resource: Resource::Queue });
        plan.push(Command::Release { resource: Resource::Device });
        plan.push(Command::Release { resource: Resource::Surface });
        plan.push(Command::Release { resource: Resource::Window });
        plan
    }

    /// The command that toggles fullscreen for a window that is fullscreen or
    /// not: leave it if it is, borderless fullscreen if it is not.
    pub fn toggle_fullscreen(&self, fullscreen: bool) -> (command: Command)
        ensures
            command == (Command::SetFullscreen {
                mode: if fullscreen {
                    Fullscreen::Windowed
                } else {
                    Fullscreen::Borderless
                },
            }),
    {
        if fullscreen {
            Command::SetFullscreen { mode: Fullscreen::Windowed }
        } else {
            Command::SetFullscreen { mode: Fullscreen::Borderless }
        }
    }

    /// The size to configure the surface with for a window that reports the
    /// given inner size: no dimension below 1.
    pub fn get_window_size(width: u32, height: u32) -> (size: (u32, u32))
        ensures
            size.0 == spec_clamp_dimension(width),
            size.1 == spec_clamp_dimension(height),
            size.0 >= 1,
            size.1 >= 1,
    {
        (clamp_dimension(width), clamp_dimension(height))
    }

    /// The surface configuration for a window of the given size, in the
    /// format that the surface reports first.
    pub fn configure_surface(
        width: u32,
        height: u32,
        surface_format: TextureFormat,
        surface_usage: TextureUsages,
        turbo: bool,
    ) -> (config: SurfaceConfig)
        ensures
            config == spec_configure_surface(width, height, surface_format, surface_usage, turbo),
            config.format == surface_format,
            config.wf(),
    {
        SurfaceConfig {
            width: clamp_dimension(width),
            height: clamp_dimension(height),
            format: surface_format,
            usage: surface_usage.union(TextureUsages::copy_dst()),
            present_mode: present_mode(turbo),
        }
    }

    /// The bind group layout of the pipeline.
    pub fn create_bind_group_layout() -> (descriptor: BindGroupLayoutDescriptor)
        ensures
            descriptor == spec_bind_group_layout(),
    {
        BindGroupLayoutDescriptor {
            positions: BindGroupLayoutEntry {
                binding: POSITIONS_BINDING,
                visibility: ShaderStage::Compute,
                ty: BindingType::UniformBuffer { has_dynamic_offset: false },
            },
            target: BindGroupLayoutEntry {
                binding: TARGET_BINDING,
                visibility: ShaderStage::Compute,
                ty: BindingType::StorageTexture {
                    access: StorageTextureAccess::WriteOnly,
                    format: target_format(),
                    view_dimension: TextureViewDimension::D2,
                },
            },
        }
    }

    /// The frame resource pool for a surface configuration, and the commands
    /// that create its resources.
    pub fn create_frame_data(count: usize, config: &SurfaceConfig) -> (made: (
        FramePool,
        Vec<Command>,
    ))
        requires
            count >= 1,
        ensures
            made.0@ == FramePoolView::spec_new(count as nat, *config),
            made.0@.wf(*config),
            made.1@ == setup_commands(count as nat, *config),
    {
        FramePool::new(count, config)
    }

    /// The one pipeline.
    pub fn create_compute_pipeline() -> (descriptor: ComputePipelineDescriptor)
        ensures
            descriptor == spec_compute_pipeline(),
    {
        ComputePipelineDescriptor { stage: ShaderStage::Compute, bind_group_layouts: 1 }
    }

    /// The command that uploads a frame's points to the active slot: it
    /// carries the 64 bytes of the buffer, 16 for each point.
    pub fn update_points_position_buffer(&self, points: [PointPosition; 4]) -> (command: Command)
        ensures
            command == self@.upload_command(points),
            command matches Command::WritePositions { slot, bytes } && slot == self@.pool.index
                && bytes@ == encoded_positions(points@),
    {
        Command::WritePositions {
            slot: self.pool.current_slot_index(),
            bytes: encode_positions(&points),
        }
    }

    /// The command that paints the active slot's offscreen target.
    pub fn dispatch_compute_pass(&self) -> (command: Command)
        ensures
            command == self@.dispatch_command(),
    {
        Command::DispatchCompute {
            slot: self.pool.current_slot_index(),
            x: workgroup_count(self.config.width),
            y: workgroup_count(self.config.height),
            z: 1,
        }
    }

    /// Records a frame drawn at `now`; returns the time since the previous
    /// frame if the frame rate is to be reported.
    pub fn update_timing(&mut self, now: u64) -> (readout: Option<u64>)
        requires
            old(self).wf(),
            old(self)@.timing.time_last_draw <= now,
        ensures
            final(self)@ == (ContextView { timing: old(self)@.timing.spec_update(now), ..old(self)@ }),
            final(self).wf(),
            readout == old(self)@.timing.spec_readout(now),
            readout is Some <==> now - old(self)@.timing.time_last_print > READOUT_INTERVAL_NANOS,
            readout matches Some(frame_nanos) ==> frame_nanos == now
                - old(self)@.timing.time_last_draw && final(self)@.timing.time_last_print == now,
            readout is None ==> final(self)@.timing.time_last_print
                == old(self)@.timing.time_last_print,
    {
        self.timing.update(now)
    }

    /// Time since the context was created.
    pub fn elapsed(&self, now: u64) -> (nanos: u64)
        requires
            self@.timing.time_start <= now,
        ensures
            nanos == now - self@.timing.time_start,
    {
        self.timing.elapsed(now)
    }

    pub fn timing(&self) -> (timing: Timing)
        ensures
            timing == self@.timing,
    {
        self.timing
    }

    pub fn config(&self) -> (config: SurfaceConfig)
        ensures
            config == self@.config,
    {
        self.config
    }

    /// Number of frame slots.
    pub fn num_frames(&self) -> (count: usize)
        ensures
            count == self@.pool.slots.len(),
    {
        self.pool.len()
    }

    /// The slot that the next frame uses.
    pub fn frame_data_index(&self) -> (index: usize)
        ensures
            index == self@.pool.index,
    {
        self.pool.current_slot_index()
    }

    /// What frame slot `slot` holds.
    pub fn frame_data(&self, slot: usize) -> (data: FrameData)
        requires
            slot < self@.pool.slots.len(),
        ensures
            data == self@.pool.slots[slot as int],
    {
        self.pool.slot(slot)
    }
}

/// Workgroups needed to cover `extent` texels.
pub fn workgroup_count(extent: u32) -> (count: u32)
    ensures
        count == spec_workgroup_count(extent),
        count * WORKGROUP_SIZE >= extent,
        count * WORKGROUP_SIZE < extent + WORKGROUP_SIZE,
{
    if extent % WORKGROUP_SIZE == 0 {
        extent / WORKGROUP_SIZE
    } else {
        extent / WORKGROUP_SIZE + 1
    }
}

/// Whether a plan reports the frame rate.
pub open spec fn reports_frame_rate(plan: Seq<Command>) -> bool {
    exists|k: int| 0 <= k < plan.len() && #[trigger] plan[k] is PrintFrameRate
}

/// The shape of a frame whose image was acquired at once: six commands in a
/// fixed order, of which the last presents; then the readout, if one is due
/// and only then; then the request for the next redraw. A frame presents
/// once, and submits before it does.
pub proof fn lemma_frame_shape(s: ContextView, now: u64, points: [PointPosition; 4])
    ensures
        ({
            let plan = s.frame_commands(now, points);
            let due = s.timing.readout_due(now);
            &&& plan.len() == if due {
                8int
            } else {
                7int
            }
            &&& plan[0] == s.upload_command(points)
            &&& plan[1] == Command::AcquireSurfaceTexture
            &&& plan[2] == s.dispatch_command()
            &&& plan[3] == s.copy_command()
            &&& plan[4] == Command::Submit
            &&& plan[5] == Command::Present
            &&& forall|k: int| 0 <= k < plan.len() && plan[k] == Command::Present ==> k == 5
            &&& due ==> plan[6] == (Command::PrintFrameRate {
                frame_nanos: (now - s.timing.time_last_draw) as u64,
            })
            &&& plan.last() == Command::RequestRedraw
            &&& reports_frame_rate(plan) == due
        }),
{
}

/// In a run of frames, two frames that report the frame rate are more than
/// the readout interval apart, however fast the frames between them were
/// drawn.
pub proof fn lemma_frame_readouts_are_spaced(
    s: ContextView,
    times: Seq<u64>,
    points: Seq<[PointPosition; 4]>,
    i: int,
    j: int,
)
    requires
        points.len() == times.len(),
        0 <= i < j < times.len(),
        reports_frame_rate(s.commands_of_frame(times, points, i)),
        reports_frame_rate(s.commands_of_frame(times, points, j)),
    ensures
        times[j] - times[i] > READOUT_INTERVAL_NANOS,
{
    let before_i = s.after_frames(times.take(i));
    let before_j = s.after_frames(times.take(j));
    lemma_frame_shape(before_i, times[i], points[i]);
    lemma_frame_shape(before_j, times[j], points[j]);
    lemma_frames_keep_time(s, times.take(i));
    lemma_frames_keep_time(s, times.take(j));
    lemma_readouts_are_spaced(s.timing, times, i, j);
}

/// A frame that is skipped or fails leaves the timing, the surface
/// configuration, the slots and the active slot as they were, so that the
/// next redraw finds the context as the last rendered frame left it. A frame
/// that asks once more changes nothing but the note that it did.
pub proof fn lemma_unrendered_frame(s: ContextView, now: u64, step: FrameStep)
    requires
        step !is Render,
    ensures
        s.spec_step(now, step).timing == s.timing,
        s.spec_step(now, step).config == s.config,
        s.spec_step(now, step).pool == s.pool,
        s.spec_step(now, step).retried == (step is Retry),
        s.wf() ==> s.spec_step(now, step).wf(),
        step is Skip ==> s.step_commands(now, step) == seq![Command::RequestRedraw],
        forall|k: int|
            0 <= k < s.step_commands(now, step).len() ==> s.step_commands(now, step)[k]
                != Command::Submit && #[trigger] s.step_commands(now, step)[k] != Command::Present,
        s.spec_redraw().spec_step(now, step).spec_redraw() == s.spec_redraw(),
{
}

/// A frame whose first request is answered by an outdated or lost surface
/// and whose second is answered with an image ends as a frame that got the
/// image at once.
pub proof fn lemma_retried_frame(s: ContextView, now: u64)
    ensures
        s.spec_redraw().spec_step(now, FrameStep::Retry).spec_step(now, FrameStep::Render)
            == s.spec_frame(now),
        s.spec_redraw().spec_step(now, FrameStep::Retry).step_commands(now, FrameStep::Render)
            == s.render_commands(now),
{
}

/// A resize leaves the surface with a size: each dimension is the one asked
/// for, or 1 where 0 was asked for, and a context that was well formed stays
/// so.
pub proof fn lemma_resize_clamps(s: ContextView, width: u32, height: u32)
    ensures
        s.spec_resize(width, height).config.width >= 1,
        s.spec_resize(width, height).config.height >= 1,
        width >= 1 ==> s.spec_resize(width, height).config.width == width,
        height >= 1 ==> s.spec_resize(width, height).config.height == height,
        width == 0 ==> s.spec_resize(width, height).config.width == 1,
        height == 0 ==> s.spec_resize(width, height).config.height == 1,
        s.wf() ==> s.spec_resize(width, height).wf(),
{
    if s.wf() {
        lemma_regenerate_fits(s.pool, s.config, s.config.spec_with_size(width, height));
    }
}

/// Resizing to the same size a second time changes nothing: the context
/// after the second resize is the context after the first, and the second
/// asks for the same commands, descriptor for descriptor.
pub proof fn lemma_resize_idempotent(s: ContextView, width: u32, height: u32)
    ensures
        s.spec_resize(width, height).spec_resize(width, height) == s.spec_resize(width, height),
        s.spec_resize(width, height).resize_commands(width, height) == s.resize_commands(
            width,
            height,
        ),
{
    let once = s.spec_resize(width, height);
    let twice = once.spec_resize(width, height);
    assert(twice.pool.slots =~= once.pool.slots);
}

/// Startup creates everything in order: the surface is configured first, the
/// bind group layout comes before the pipeline that is built over it, and of
/// each slot the buffer and the target come before the bind group that names
/// them.
pub proof fn lemma_startup_order(count: int, config: SurfaceConfig, slot: int)
    requires
        0 <= slot < count <= usize::MAX,
    ensures
        ({
            let plan = startup_commands(count as nat, config);
            let first = 3 + 3 * slot;
            let data = spec_frame_data(slot as usize, config);
            &&& plan.len() == 3 * count + 3
            &&& plan[0] == (Command::ConfigureSurface { config })
            &&& plan[1] == (Command::CreateBindGroupLayout { descriptor: spec_bind_group_layout() })
            &&& plan[2] == (Command::CreateComputePipeline { descriptor: spec_compute_pipeline() })
            &&& plan[first] == (Command::CreateBuffer {
                slot: slot as usize,
                descriptor: data.points_position_buffer,
            })
            &&& plan[first + 1] == (Command::CreateTexture {
                slot: slot as usize,
                descriptor: data.texture,
            })
            &&& plan[first + 2] == (Command::CreateBindGroup {
                slot: slot as usize,
                descriptor: data.bind_group,
            })
        }),
{
    let k = 3 * slot;
    let slots = setup_commands(count as nat, config);
    assert(slots[k] == setup_command(k, config));
    assert(slots[k + 1] == setup_command(k + 1, config));
    assert(slots[k + 2] == setup_command(k + 2, config));
}

/// Teardown releases everything once and in the reverse of startup: the
/// slots from the last to the first, of each the bind group before the
/// target before the buffer, then the pipeline before its bind group layout,
/// the queue, the device, and the window last, directly after the surface.
pub proof fn lemma_teardown_order(count: int, slot: int)
    requires
        0 <= slot < count <= usize::MAX,
    ensures
        ({
            let plan = teardown_commands(count as nat);
            let first = 3 * (count - 1 - slot);
            &&& plan.len() == 3 * count + 6
            &&& plan[first] == (Command::Release {
                resource: Resource::BindGroup { slot: slot as usize },
            })
            &&& plan[first + 1] == (Command::Release {
                resource: Resource::Texture { slot: slot as usize },
            })
            &&& plan[first + 2] == (Command::Release {
                resource: Resource::Buffer { slot: slot as usize },
            })
            &&& plan[3 * count] == (Command::Release { resource: Resource::ComputePipeline })
            &&& plan[3 * count + 1] == (Command::Release { resource: Resource::BindGroupLayout })
            &&& plan[3 * count + 2] == (Command::Release { resource: Resource::Queue })
            &&& plan[3 * count + 3] == (Command::Release { resource: Resource::Device })
            &&& plan[3 * count + 4] == (Command::Release { resource: Resource::Surface })
            &&& plan[3 * count + 5] == (Command::Release { resource: Resource::Window })
        }),
{
    let k = 3 * (count - 1 - slot);
    let slots = release_commands(count as nat);
    assert(slots[k] == release_command(k, count as nat));
    assert(slots[k + 1] == release_command(k + 1, count as nat));
    assert(slots[k + 2] == release_command(k + 2, count as nat));
}

/// A run of frames moves the timing as its times say, one frame after the
/// other, and touches neither the surface configuration nor what the slots
/// hold.
pub proof fn lemma_frames_keep_time(s: ContextView, times: Seq<u64>)
    ensures
        s.after_frames(times).timing == s.timing.after_frames(times),
        s.after_frames(times).config == s.config,
        s.after_frames(times).pool.slots == s.pool.slots,
        times.len() > 0 ==> !s.after_frames(times).retried,
    decreases times.len(),
{
    if times.len() > 0 {
        lemma_frames_keep_time(s, times.drop_last());
    }
}

/// A run of frames moves the active slot on by one for each frame, round
/// robin.
pub proof fn lemma_frames_rotate_slots(s: ContextView, times: Seq<u64>)
    requires
        s.wf(),
    ensures
        s.after_frames(times).pool.index == index_after(
            s.pool.index,
            s.pool.slots.len() as int,
            times.len(),
        ),
        s.after_frames(times).pool.index == (s.pool.index + times.len()) % (
        s.pool.slots.len() as int),
        s.after_frames(times).pool.wf(s.config),
    decreases times.len(),
{
    let count = s.pool.slots.len() as int;
    lemma_index_after(s.pool.index, count, times.len());
    lemma_frames_keep_time(s, times);
    if times.len() > 0 {
        lemma_frames_rotate_slots(s, times.drop_last());
        lemma_frames_keep_time(s, times.drop_last());
        lemma_index_after(s.pool.index, count, times.drop_last().len());
        assert((s.pool.index + times.len()) % count >= 0 && (s.pool.index + times.len()) % count
            < count) by (nonlinear_arith)
            requires
                count >= 1,
        ;
    }
}

/// The active slot cycles with the number of slots as its period: after as
/// many frames as there are slots, the slot that was active is active again,
/// whatever the times of the frames.
pub proof fn lemma_slot_period(s: ContextView, times: Seq<u64>)
    requires
        s.wf(),
        times.len() == s.pool.slots.len(),
    ensures
        s.after_frames(times).pool.index == s.pool.index,
{
    lemma_frames_rotate_slots(s, times);
    lemma_index_period(s.pool.index, s.pool.slots.len() as int);
}

/// A run of frames whose times do not go backwards leaves a well-formed
/// context well formed.
pub proof fn lemma_frames_keep_wf(s: ContextView, times: Seq<u64>)
    requires
        s.wf(),
        s.timing.admits(times),
    ensures
        s.after_frames(times).wf(),
{
    lemma_frames_rotate_slots(s, times);
    lemma_frames_keep_time(s, times);
    lemma_after_frames(s.timing, times);
}

} // verus!
