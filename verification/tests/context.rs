use glowing_dots::command::{BindGroupLayoutDescriptor, Command, Fullscreen, Resource};
use glowing_dots::context::{workgroup_count, Context, NUM_FRAMES, WORKGROUP_SIZE};
use glowing_dots::descriptor::{
    BindGroupLayoutEntry, BindingType, ComputePipelineDescriptor, Extent3d, PresentMode,
    ShaderStage, StorageTextureAccess, TextureFormat, TextureUsages, TextureViewDimension,
};
use glowing_dots::frame::{Acquisition, SurfaceError};
use glowing_dots::layout::{encode_positions, starting_positions, PointPosition};
use glowing_dots::pool::FramePool;
use glowing_dots::surface::SurfaceConfig;
use glowing_dots::timing::Timing;

const MS: u64 = 1_000_000;

fn render_attachment() -> TextureUsages {
    let mut usage = TextureUsages::empty();
    usage.render_attachment = true;
    usage
}

fn context(width: u32, height: u32) -> Context {
    Context::new(width, height, TextureFormat::Rgba8Unorm, render_attachment(), false, 0).0
}

/// A whole frame whose image is acquired at once.
fn draw(ctx: &mut Context, now: u64, points: [PointPosition; 4]) -> Vec<Command> {
    let mut plan = ctx.redraw(points);
    plan.extend(ctx.frame_acquired(now, Acquisition::Acquired).unwrap());
    plan
}

fn failed(error: SurfaceError) -> Acquisition {
    Acquisition::Failed { error }
}

fn state(ctx: &Context) -> (SurfaceConfig, Timing, usize, usize) {
    (ctx.config(), ctx.timing(), ctx.frame_data_index(), ctx.num_frames())
}

fn points(seed: u32) -> [PointPosition; 4] {
    [
        PointPosition { x: seed, y: seed + 1 },
        PointPosition { x: seed + 2, y: seed + 3 },
        PointPosition { x: seed + 4, y: seed + 5 },
        PointPosition { x: seed + 6, y: seed + 7 },
    ]
}

fn count(plan: &[Command], wanted: Command) -> usize {
    plan.iter().filter(|c| **c == wanted).count()
}

#[test]
fn workgroups_cover_the_extent() {
    assert_eq!(WORKGROUP_SIZE, 8);
    assert_eq!(workgroup_count(0), 0);
    assert_eq!(workgroup_count(1), 1);
    assert_eq!(workgroup_count(7), 1);
    assert_eq!(workgroup_count(8), 1);
    assert_eq!(workgroup_count(9), 2);
    assert_eq!(workgroup_count(500), 63);
    assert_eq!(workgroup_count(1920), 240);
    assert_eq!(workgroup_count(1080), 135);
    assert_eq!(workgroup_count(u32::MAX), 536_870_912);
}

#[test]
fn the_bind_group_layout_has_the_buffer_and_the_storage_texture() {
    assert_eq!(
        Context::create_bind_group_layout(),
        BindGroupLayoutDescriptor {
            positions: BindGroupLayoutEntry {
                binding: 0,
                visibility: ShaderStage::Compute,
                ty: BindingType::UniformBuffer { has_dynamic_offset: false },
            },
            target: BindGroupLayoutEntry {
                binding: 1,
                visibility: ShaderStage::Compute,
                ty: BindingType::StorageTexture {
                    access: StorageTextureAccess::WriteOnly,
                    format: TextureFormat::Rgba8Unorm,
                    view_dimension: TextureViewDimension::D2,
                },
            },
        }
    );
}

#[test]
fn the_pipeline_is_one_compute_stage() {
    assert_eq!(
        Context::create_compute_pipeline(),
        ComputePipelineDescriptor { stage: ShaderStage::Compute, bind_group_layouts: 1 }
    );
}

#[test]
fn a_new_context_is_configured_for_the_window() {
    let (ctx, plan) = Context::new(500, 500, TextureFormat::Rgba8Unorm, render_attachment(), false, 77);
    let config = SurfaceConfig {
        width: 500,
        height: 500,
        format: TextureFormat::Rgba8Unorm,
        usage: TextureUsages {
            copy_src: false,
            copy_dst: true,
            texture_binding: false,
            storage_binding: false,
            render_attachment: true,
        },
        present_mode: PresentMode::AutoVsync,
    };
    assert_eq!(ctx.config(), config);
    assert_eq!(ctx.timing(), Timing { time_start: 77, time_last_draw: 77, time_last_print: 77 });
    assert_eq!(NUM_FRAMES, 2);
    assert_eq!(ctx.num_frames(), 2);
    assert_eq!(ctx.frame_data_index(), 0);
    for slot in 0..2 {
        assert_eq!(ctx.frame_data(slot), FramePool::allocate_slot(slot, &config));
    }
    let (_, creation) = FramePool::new(2, &config);
    let mut expected = vec![
        Command::ConfigureSurface { config },
        Command::CreateBindGroupLayout { descriptor: Context::create_bind_group_layout() },
        Command::CreateComputePipeline { descriptor: Context::create_compute_pipeline() },
    ];
    expected.extend(creation);
    assert_eq!(plan.len(), 9);
    assert_eq!(plan, expected);
}

#[test]
fn turbo_selects_the_pacing_without_vsync() {
    let (ctx, _) = Context::new(500, 500, TextureFormat::Rgba8Unorm, render_attachment(), true, 0);
    assert_eq!(ctx.config().present_mode, PresentMode::AutoNoVsync);
}

#[test]
fn a_context_for_an_empty_window_has_a_size() {
    let (ctx, plan) = Context::new(0, 0, TextureFormat::Rgba8Unorm, render_attachment(), false, 0);
    assert_eq!((ctx.config().width, ctx.config().height), (1, 1));
    assert_eq!(plan[0], Command::ConfigureSurface { config: ctx.config() });
    assert_eq!(ctx.frame_data(0).texture.size, Extent3d { width: 1, height: 1, depth_or_array_layers: 1 });
}

#[test]
fn with_frames_makes_as_many_slots_as_asked() {
    for slots in [1usize, 2, 3, 5] {
        let (ctx, plan) = Context::with_frames(slots, 64, 32, TextureFormat::Rgba8Unorm, render_attachment(), false, 0);
        assert_eq!(ctx.num_frames(), slots);
        assert_eq!(plan.len(), 3 + 3 * slots);
    }
}

#[test]
fn a_frame_is_uploaded_painted_copied_and_presented_in_that_order() {
    let mut ctx = context(500, 300);
    let plan = draw(&mut ctx, 10 * MS, points(100));
    assert_eq!(
        plan,
        vec![
            Command::WritePositions { slot: 0, bytes: encode_positions(&points(100)) },
            Command::AcquireSurfaceTexture,
            Command::DispatchCompute { slot: 0, x: 63, y: 38, z: 1 },
            Command::CopyTextureToSurface {
                slot: 0,
                extent: Extent3d { width: 500, height: 300, depth_or_array_layers: 1 },
            },
            Command::Submit,
            Command::Present,
            Command::RequestRedraw,
        ]
    );
    assert_eq!(ctx.frame_data_index(), 1);
    assert_eq!(
        ctx.timing(),
        Timing { time_start: 0, time_last_draw: 10 * MS, time_last_print: 0 }
    );
}

#[test]
fn the_second_frame_uses_the_second_slot() {
    let mut ctx = context(16, 16);
    draw(&mut ctx, MS, points(0));
    let plan = draw(&mut ctx, 2 * MS, points(8));
    assert_eq!(plan[0], Command::WritePositions { slot: 1, bytes: encode_positions(&points(8)) });
    assert_eq!(plan[2], Command::DispatchCompute { slot: 1, x: 2, y: 2, z: 1 });
    assert_eq!(
        plan[3],
        Command::CopyTextureToSurface {
            slot: 1,
            extent: Extent3d { width: 16, height: 16, depth_or_array_layers: 1 },
        }
    );
    assert_eq!(ctx.frame_data_index(), 0);
}

#[test]
fn a_frame_after_the_interval_reports_the_frame_rate_before_the_redraw_request() {
    let mut ctx = context(500, 500);
    draw(&mut ctx, 40 * MS, starting_positions());
    let plan = draw(&mut ctx, 56 * MS, starting_positions());
    assert_eq!(plan.len(), 8);
    assert_eq!(plan[5], Command::Present);
    assert_eq!(plan[6], Command::PrintFrameRate { frame_nanos: 16 * MS });
    assert_eq!(plan[7], Command::RequestRedraw);
    assert_eq!(
        ctx.timing(),
        Timing { time_start: 0, time_last_draw: 56 * MS, time_last_print: 56 * MS }
    );
}

#[test]
fn a_frame_at_exactly_the_interval_reports_nothing() {
    let mut ctx = context(500, 500);
    let plan = draw(&mut ctx, 50 * MS, starting_positions());
    assert_eq!(plan.len(), 7);
    assert_eq!(count(&plan, Command::PrintFrameRate { frame_nanos: 50 * MS }), 0);
    let plan = draw(&mut ctx, 50 * MS + 1, starting_positions());
    assert_eq!(plan[6], Command::PrintFrameRate { frame_nanos: 1 });
}

#[test]
fn elapsed_is_the_time_since_creation() {
    let (mut ctx, _) = Context::new(10, 10, TextureFormat::Rgba8Unorm, render_attachment(), false, 500);
    assert_eq!(ctx.elapsed(500), 0);
    draw(&mut ctx, 900, starting_positions());
    assert_eq!(ctx.elapsed(4_000_000_500), 4_000_000_000);
}

#[test]
fn update_timing_moves_the_clock_only() {
    let mut ctx = context(500, 500);
    assert_eq!(ctx.update_timing(60 * MS), Some(60 * MS));
    assert_eq!(ctx.frame_data_index(), 0);
    assert_eq!(ctx.config().width, 500);
    assert_eq!(
        ctx.timing(),
        Timing { time_start: 0, time_last_draw: 60 * MS, time_last_print: 60 * MS }
    );
}

#[test]
fn upload_and_dispatch_name_the_active_slot() {
    let mut ctx = context(24, 9);
    assert_eq!(
        ctx.update_points_position_buffer(points(3)),
        Command::WritePositions { slot: 0, bytes: encode_positions(&points(3)) }
    );
    assert_eq!(ctx.dispatch_compute_pass(), Command::DispatchCompute { slot: 0, x: 3, y: 2, z: 1 });
    draw(&mut ctx, 1, points(0));
    assert_eq!(
        ctx.update_points_position_buffer(points(3)),
        Command::WritePositions { slot: 1, bytes: encode_positions(&points(3)) }
    );
    assert_eq!(ctx.dispatch_compute_pass(), Command::DispatchCompute { slot: 1, x: 3, y: 2, z: 1 });
}

#[test]
fn a_resize_reconfigures_the_surface_and_fits_every_slot() {
    let mut ctx = context(500, 500);
    draw(&mut ctx, MS, starting_positions());
    let plan = ctx.resize(800, 600);
    let config = ctx.config();
    assert_eq!((config.width, config.height), (800, 600));
    assert_eq!(ctx.frame_data_index(), 1);
    let slot0 = FramePool::allocate_slot(0, &config);
    let slot1 = FramePool::allocate_slot(1, &config);
    assert_eq!(ctx.frame_data(0), slot0);
    assert_eq!(ctx.frame_data(1), slot1);
    assert_eq!(slot0.texture.size, Extent3d { width: 800, height: 600, depth_or_array_layers: 1 });
    assert_eq!(
        plan,
        vec![
            Command::ConfigureSurface { config },
            Command::CreateTexture { slot: 0, descriptor: slot0.texture },
            Command::CreateBindGroup { slot: 0, descriptor: slot0.bind_group },
            Command::CreateTexture { slot: 1, descriptor: slot1.texture },
            Command::CreateBindGroup { slot: 1, descriptor: slot1.bind_group },
            Command::RequestRedraw,
        ]
    );
}

#[test]
fn a_resize_to_nothing_clamps_to_one_by_one() {
    let mut ctx = context(500, 500);
    let plan = ctx.resize(0, 0);
    assert_eq!((ctx.config().width, ctx.config().height), (1, 1));
    assert_eq!(plan[0], Command::ConfigureSurface { config: ctx.config() });
    for slot in 0..2 {
        assert_eq!(
            ctx.frame_data(slot).texture.size,
            Extent3d { width: 1, height: 1, depth_or_array_layers: 1 }
        );
    }
    let frame = draw(&mut ctx, MS, starting_positions());
    assert_eq!(frame[2], Command::DispatchCompute { slot: 0, x: 1, y: 1, z: 1 });
}

#[test]
fn no_resize_leaves_a_zero_dimension() {
    let mut ctx = context(500, 500);
    for (w, h) in [(0u32, 0u32), (0, 9), (9, 0), (1, 1), (u32::MAX, 0), (0, u32::MAX), (3, 4)] {
        ctx.resize(w, h);
        let config = ctx.config();
        assert_eq!(config.width, w.max(1));
        assert_eq!(config.height, h.max(1));
        assert!(config.width >= 1 && config.height >= 1);
    }
}

#[test]
fn resizing_twice_to_the_same_size_is_resizing_once() {
    for (w, h) in [(800u32, 600u32), (0, 0), (500, 500), (1, 0)] {
        let mut ctx = context(500, 500);
        draw(&mut ctx, MS, starting_positions());
        let first = ctx.resize(w, h);
        let state = (ctx.config(), ctx.timing(), ctx.frame_data_index(), ctx.frame_data(0), ctx.frame_data(1));
        let second = ctx.resize(w, h);
        assert_eq!(first, second);
        assert_eq!(
            state,
            (ctx.config(), ctx.timing(), ctx.frame_data_index(), ctx.frame_data(0), ctx.frame_data(1))
        );
    }
}

#[test]
fn a_resize_leaves_the_clock_alone() {
    let mut ctx = context(500, 500);
    draw(&mut ctx, 70 * MS, starting_positions());
    let before = ctx.timing();
    ctx.resize(30, 40);
    assert_eq!(ctx.timing(), before);
}

#[test]
fn the_slot_index_has_the_number_of_slots_as_its_period() {
    for slots in 1..=4usize {
        let (mut ctx, _) = Context::with_frames(slots, 8, 8, TextureFormat::Rgba8Unorm, render_attachment(), false, 0);
        let mut now = 0u64;
        for round in 0..3 {
            let start = ctx.frame_data_index();
            assert_eq!(start, 0, "round {round}");
            for step in 0..slots {
                assert_eq!(ctx.frame_data_index(), step);
                now += MS;
                draw(&mut ctx, now, starting_positions());
            }
            assert_eq!(ctx.frame_data_index(), start);
        }
    }
}

#[test]
fn a_hundred_frames_present_a_hundred_times() {
    let (mut ctx, startup) = Context::new(500, 500, TextureFormat::Rgba8Unorm, render_attachment(), false, 0);
    assert_eq!(startup.len(), 9);
    let mut presents = 0usize;
    let mut submits = 0usize;
    let mut acquires = 0usize;
    let mut redraws = 0usize;
    let mut readouts = 0usize;
    for frame in 0..100u64 {
        let now = (frame + 1) * 16 * MS;
        let slot = ctx.frame_data_index();
        assert_eq!(slot, (frame % 2) as usize);
        let plan = draw(&mut ctx, now, points(frame as u32));
        assert_eq!(plan[0], Command::WritePositions { slot, bytes: encode_positions(&points(frame as u32)) });
        assert_eq!(plan[2], Command::DispatchCompute { slot, x: 63, y: 63, z: 1 });
        presents += count(&plan, Command::Present);
        submits += count(&plan, Command::Submit);
        acquires += count(&plan, Command::AcquireSurfaceTexture);
        redraws += count(&plan, Command::RequestRedraw);
        readouts += count(&plan, Command::PrintFrameRate { frame_nanos: 16 * MS });
        assert_eq!(plan.last(), Some(&Command::RequestRedraw));
    }
    assert_eq!(presents, 100);
    assert_eq!(submits, 100);
    assert_eq!(acquires, 100);
    assert_eq!(redraws, 100);
    assert_eq!(readouts, 25);
    assert_eq!(ctx.frame_data_index(), 0);
    assert_eq!(ctx.timing().time_last_draw, 1600 * MS);
    assert_eq!(ctx.timing().time_last_print, 1600 * MS);
    assert_eq!(ctx.config().width, 500);
}

#[test]
fn toggle_fullscreen_leaves_fullscreen_or_enters_borderless() {
    let ctx = context(500, 500);
    assert_eq!(ctx.toggle_fullscreen(true), Command::SetFullscreen { mode: Fullscreen::Windowed });
    assert_eq!(
        ctx.toggle_fullscreen(false),
        Command::SetFullscreen { mode: Fullscreen::Borderless }
    );
}

#[test]
fn teardown_releases_the_surface_before_the_window() {
    let plan = context(500, 500).teardown();
    assert_eq!(
        plan,
        vec![
            Command::Release { resource: Resource::BindGroup { slot: 1 } },
            Command::Release { resource: Resource::Texture { slot: 1 } },
            Command::Release { resource: Resource::Buffer { slot: 1 } },
            Command::Release { resource: Resource::BindGroup { slot: 0 } },
            Command::Release { resource: Resource::Texture { slot: 0 } },
            Command::Release { resource: Resource::Buffer { slot: 0 } },
            Command::Release { resource: Resource::ComputePipeline },
            Command::Release { resource: Resource::BindGroupLayout },
            Command::Release { resource: Resource::Queue },
            Command::Release { resource: Resource::Device },
            Command::Release { resource: Resource::Surface },
            Command::Release { resource: Resource::Window },
        ]
    );
    let surface = plan
        .iter()
        .position(|c| *c == Command::Release { resource: Resource::Surface })
        .unwrap();
    let window = plan
        .iter()
        .position(|c| *c == Command::Release { resource: Resource::Window })
        .unwrap();
    assert!(surface < window);
}

#[test]
fn teardown_undoes_startup_in_reverse() {
    for slots in 1..=3usize {
        let (ctx, startup) = Context::with_frames(slots, 8, 8, TextureFormat::Rgba8Unorm, render_attachment(), false, 0);
        let teardown = ctx.teardown();
        let created: Vec<Resource> = startup
            .iter()
            .filter_map(|c| match c {
                Command::CreateBindGroupLayout { .. } => Some(Resource::BindGroupLayout),
                Command::CreateBuffer { slot, .. } => Some(Resource::Buffer { slot: *slot }),
                Command::CreateTexture { slot, .. } => Some(Resource::Texture { slot: *slot }),
                Command::CreateBindGroup { slot, .. } => Some(Resource::BindGroup { slot: *slot }),
                Command::CreateComputePipeline { .. } => Some(Resource::ComputePipeline),
                _ => None,
            })
            .collect();
        let released: Vec<Resource> = teardown
            .iter()
            .filter_map(|c| match c {
                Command::Release { resource } => Some(*resource),
                _ => None,
            })
            .collect();
        assert_eq!(released.len(), teardown.len());
        let mut reversed = created.clone();
        reversed.reverse();
        assert_eq!(&released[..reversed.len()], &reversed[..]);
        assert_eq!(
            &released[reversed.len()..],
            &[Resource::Queue, Resource::Device, Resource::Surface, Resource::Window]
        );
    }
}

const FORMATS: [TextureFormat; 9] = [
    TextureFormat::Rgba8Unorm,
    TextureFormat::Rgba8UnormSrgb,
    TextureFormat::Rgba8Snorm,
    TextureFormat::Bgra8Unorm,
    TextureFormat::Bgra8UnormSrgb,
    TextureFormat::Rgb10a2Unorm,
    TextureFormat::Rgba16Unorm,
    TextureFormat::Rgba16Snorm,
    TextureFormat::Rgba16Float,
];

#[test]
fn the_surface_is_configured_in_the_format_it_reports_first() {
    for format in FORMATS {
        let config = Context::configure_surface(500, 500, format, render_attachment(), false);
        assert_eq!(config.format, format);
        let (ctx, plan) = Context::new(500, 500, format, render_attachment(), false, 0);
        assert_eq!(ctx.config().format, format);
        assert_eq!(plan[0], Command::ConfigureSurface { config: ctx.config() });
        assert_eq!(ctx.config(), config);
    }
}

#[test]
fn a_resize_keeps_the_format_of_the_surface() {
    for format in FORMATS {
        let (mut ctx, _) = Context::new(500, 500, format, render_attachment(), true, 0);
        ctx.resize(0, 77);
        assert_eq!(ctx.config().format, format);
        assert_eq!(ctx.config().present_mode, PresentMode::AutoNoVsync);
    }
}

#[test]
fn the_offscreen_targets_are_rgba8_whatever_the_surface_reports() {
    for format in FORMATS {
        let (ctx, _) = Context::new(64, 64, format, render_attachment(), false, 0);
        assert_eq!(ctx.frame_data(0).texture.format, TextureFormat::Rgba8Unorm);
        assert_eq!(ctx.frame_data(1).texture.format, TextureFormat::Rgba8Unorm);
    }
}

#[test]
fn a_surface_takes_the_targets_where_the_formats_differ_in_encoding_only() {
    for format in FORMATS {
        let (ctx, _) = Context::new(64, 64, format, render_attachment(), false, 0);
        let expected =
            matches!(format, TextureFormat::Rgba8Unorm | TextureFormat::Rgba8UnormSrgb);
        assert_eq!(ctx.config().accepts_targets(), expected, "{format:?}");
    }
}

#[test]
fn copy_compatibility_ignores_the_encoding_and_nothing_else() {
    for a in FORMATS {
        assert!(a.copy_compatible(a));
        for b in FORMATS {
            assert_eq!(a.copy_compatible(b), b.copy_compatible(a));
            assert_eq!(a.copy_compatible(b), a.without_srgb() == b.without_srgb());
        }
    }
    assert!(TextureFormat::Bgra8Unorm.copy_compatible(TextureFormat::Bgra8UnormSrgb));
    assert!(!TextureFormat::Rgba8Unorm.copy_compatible(TextureFormat::Bgra8Unorm));
    assert!(!TextureFormat::Rgba8Unorm.copy_compatible(TextureFormat::Rgba8Snorm));
    assert_eq!(TextureFormat::Rgba8UnormSrgb.without_srgb(), TextureFormat::Rgba8Unorm);
    assert_eq!(TextureFormat::Bgra8UnormSrgb.without_srgb(), TextureFormat::Bgra8Unorm);
    assert_eq!(TextureFormat::Rgba16Float.without_srgb(), TextureFormat::Rgba16Float);
}

#[test]
fn a_redraw_uploads_and_asks_for_the_image_and_nothing_more() {
    let mut ctx = context(500, 500);
    let before = state(&ctx);
    let plan = ctx.redraw(points(9));
    assert_eq!(
        plan,
        vec![
            Command::WritePositions { slot: 0, bytes: encode_positions(&points(9)) },
            Command::AcquireSurfaceTexture,
        ]
    );
    assert_eq!(state(&ctx), before);
}

#[test]
fn an_acquired_image_is_painted_copied_submitted_and_presented() {
    let mut ctx = context(500, 300);
    ctx.redraw(points(0));
    let plan = ctx.frame_acquired(60 * MS, Acquisition::Acquired).unwrap();
    assert_eq!(
        plan,
        vec![
            Command::DispatchCompute { slot: 0, x: 63, y: 38, z: 1 },
            Command::CopyTextureToSurface {
                slot: 0,
                extent: Extent3d { width: 500, height: 300, depth_or_array_layers: 1 },
            },
            Command::Submit,
            Command::Present,
            Command::PrintFrameRate { frame_nanos: 60 * MS },
            Command::RequestRedraw,
        ]
    );
    assert_eq!(ctx.frame_data_index(), 1);
    assert_eq!(ctx.timing().time_last_draw, 60 * MS);
}

#[test]
fn a_timeout_skips_the_frame_and_the_animation_goes_on() {
    let mut ctx = context(500, 500);
    draw(&mut ctx, 10 * MS, points(0));
    let before = state(&ctx);

    ctx.redraw(points(1));
    let plan = ctx.frame_acquired(999 * MS, failed(SurfaceError::Timeout)).unwrap();
    assert_eq!(plan, vec![Command::RequestRedraw]);
    assert_eq!(count(&plan, Command::Submit), 0);
    assert_eq!(count(&plan, Command::Present), 0);
    assert_eq!(state(&ctx), before);

    let next = draw(&mut ctx, 20 * MS, points(2));
    assert_eq!(next[0], Command::WritePositions { slot: 1, bytes: encode_positions(&points(2)) });
    assert_eq!(count(&next, Command::Present), 1);
    assert_eq!(ctx.frame_data_index(), 0);
    assert_eq!(ctx.timing().time_last_draw, 20 * MS);
}

#[test]
fn a_timeout_does_not_need_a_clock() {
    let (mut ctx, _) =
        Context::new(8, 8, TextureFormat::Rgba8Unorm, render_attachment(), false, 500);
    ctx.redraw(points(0));
    assert_eq!(
        ctx.frame_acquired(0, failed(SurfaceError::Timeout)),
        Ok(vec![Command::RequestRedraw])
    );
    assert_eq!(ctx.timing(), Timing { time_start: 500, time_last_draw: 500, time_last_print: 500 });
}

#[test]
fn an_outdated_or_lost_surface_is_configured_again_and_asked_once_more() {
    for error in [SurfaceError::Outdated, SurfaceError::Lost] {
        let mut ctx = context(500, 500);
        ctx.resize(640, 480);
        let before = state(&ctx);
        ctx.redraw(points(0));
        let plan = ctx.frame_acquired(5 * MS, failed(error)).unwrap();
        assert_eq!(
            plan,
            vec![
                Command::ConfigureSurface { config: ctx.config() },
                Command::AcquireSurfaceTexture,
            ]
        );
        assert_eq!(state(&ctx), before);

        let plan = ctx.frame_acquired(5 * MS, Acquisition::Acquired).unwrap();
        assert_eq!(plan[0], Command::DispatchCompute { slot: 0, x: 80, y: 60, z: 1 });
        assert_eq!(count(&plan, Command::Present), 1);
        assert_eq!(ctx.frame_data_index(), 1);
        assert_eq!(ctx.timing().time_last_draw, 5 * MS);
    }
}

#[test]
fn a_second_failure_in_one_frame_fails_the_frame() {
    for first in [SurfaceError::Outdated, SurfaceError::Lost] {
        for second in [SurfaceError::Outdated, SurfaceError::Lost] {
            let mut ctx = context(500, 500);
            let before = state(&ctx);
            ctx.redraw(points(0));
            assert!(ctx.frame_acquired(MS, failed(first)).is_ok());
            assert_eq!(ctx.frame_acquired(MS, failed(second)), Err(second));
            assert_eq!(state(&ctx), before);
        }
    }
}

#[test]
fn a_timeout_after_a_retry_still_skips_the_frame() {
    let mut ctx = context(500, 500);
    let before = state(&ctx);
    ctx.redraw(points(0));
    assert!(ctx.frame_acquired(MS, failed(SurfaceError::Lost)).is_ok());
    assert_eq!(
        ctx.frame_acquired(MS, failed(SurfaceError::Timeout)),
        Ok(vec![Command::RequestRedraw])
    );
    assert_eq!(state(&ctx), before);
}

#[test]
fn every_frame_may_ask_once_more() {
    let mut ctx = context(500, 500);
    for round in 1..=3u64 {
        ctx.redraw(points(0));
        let retry = ctx.frame_acquired(round * MS, failed(SurfaceError::Outdated)).unwrap();
        assert_eq!(retry.len(), 2);
        let plan = ctx.frame_acquired(round * MS, Acquisition::Acquired).unwrap();
        assert_eq!(count(&plan, Command::Present), 1);
    }
    assert_eq!(ctx.frame_data_index(), 1);
}

#[test]
fn a_failure_of_the_frame_before_does_not_count_against_the_next() {
    let mut ctx = context(500, 500);
    ctx.redraw(points(0));
    assert!(ctx.frame_acquired(MS, failed(SurfaceError::Lost)).is_ok());
    assert_eq!(ctx.frame_acquired(MS, failed(SurfaceError::Lost)), Err(SurfaceError::Lost));
    ctx.redraw(points(0));
    let retry = ctx.frame_acquired(2 * MS, failed(SurfaceError::Lost)).unwrap();
    assert_eq!(retry[1], Command::AcquireSurfaceTexture);
}

#[test]
fn out_of_memory_and_other_errors_fail_the_frame_at_once() {
    for error in [SurfaceError::OutOfMemory, SurfaceError::Other] {
        let mut ctx = context(500, 500);
        draw(&mut ctx, 3 * MS, points(0));
        let before = state(&ctx);
        ctx.redraw(points(0));
        assert_eq!(ctx.frame_acquired(9 * MS, failed(error)), Err(error));
        assert_eq!(state(&ctx), before);
    }
}
