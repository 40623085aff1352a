use render_core::command::Command;
use render_core::device::{DeviceContext, BUFFER_USAGE_UNIFORM, MEMORY_HOST_COHERENT, MEMORY_HOST_VISIBLE};
use render_core::error::ResourceKind;
use render_core::frame::run_frame;
use render_core::image::Format;
use render_core::mainpass::{MainPass, PassPhase};
use render_core::pipeline::{build_vertex_layout, VERTEX_STRIDE};
use render_core::present::PresentPass;
use render_core::scheduler::FrameScheduler;

fn valid_shader_bytes() -> Vec<u8> {
    let mut b = vec![0x03u8, 0x02, 0x23, 0x07];
    b.extend_from_slice(&[0u8; 16]);
    b
}

#[test]
fn vertex_layout_is_interleaved_as_documented() {
    let attrs = build_vertex_layout();
    assert_eq!(VERTEX_STRIDE, 56);
    assert_eq!(attrs.len(), 5);
    let offsets: Vec<u32> = attrs.iter().map(|a| a.offset).collect();
    assert_eq!(offsets, vec![0, 12, 24, 36, 48]);
    for a in &attrs[0..4] {
        assert_eq!(a.format, Format::R32g32b32Sfloat);
        assert_eq!(a.binding, 0);
    }
    assert_eq!(attrs[4].format, Format::R32g32Sfloat);
}

#[test]
fn uniform_buffer_is_host_visible_and_one_matrix() {
    let mut dev = DeviceContext::new();
    let buf = dev.create_buffer(
        BUFFER_USAGE_UNIFORM,
        MEMORY_HOST_VISIBLE | MEMORY_HOST_COHERENT,
        64,
    );
    assert_eq!(buf.size, 64);
    assert_eq!(buf.usage, BUFFER_USAGE_UNIFORM);
    assert_ne!(buf.buffer, buf.memory);
}

#[test]
fn one_frame_ticks_simulation_renders_and_presents() {
    let mut dev = DeviceContext::new();
    let vs = valid_shader_bytes();
    let fs = valid_shader_bytes();
    let mut mp = MainPass::init(&mut dev, 640, 480, &vs, &fs).unwrap();
    let mut pp = PresentPass::init(&mut dev);
    let mut sched = FrameScheduler::new(17);

    let draws = vec![36u32, 12, 720];
    let steps = run_frame(&mut sched, &mut mp, &mut pp, &mut dev, 40, &draws);

    assert_eq!(steps, 2);
    assert_eq!(sched.accumulator, 6);
    assert_eq!(mp.phase, PassPhase::Ready);
    assert_eq!(pp.frames_presented, 1);
    assert_eq!(dev.submissions, 2);

    // Prelude (6 commands), three draws, and the render-pass end.
    let cmds = &mp.commandbuffer.commands;
    assert_eq!(cmds.len(), 10);
    assert_eq!(cmds[6], Command::Draw { vertex_count: 36 });
    assert_eq!(cmds[7], Command::Draw { vertex_count: 12 });
    assert_eq!(cmds[8], Command::Draw { vertex_count: 720 });
    assert_eq!(cmds[9], Command::EndRenderPass);
}

#[test]
fn empty_scene_still_renders_and_presents() {
    let mut dev = DeviceContext::new();
    let vs = valid_shader_bytes();
    let fs = valid_shader_bytes();
    let mut mp = MainPass::init(&mut dev, 640, 480, &vs, &fs).unwrap();
    let mut pp = PresentPass::init(&mut dev);
    let mut sched = FrameScheduler::new(17);

    let steps = run_frame(&mut sched, &mut mp, &mut pp, &mut dev, 16, &Vec::new());
    assert_eq!(steps, 0);
    // Prelude and render-pass end only: nothing to draw.
    assert_eq!(mp.commandbuffer.commands.len(), 7);
    assert_eq!(mp.commandbuffer.commands[6], Command::EndRenderPass);
    assert_eq!(pp.frames_presented, 1);
}

#[test]
fn present_teardown_releases_the_swapchain() {
    let mut dev = DeviceContext::new();
    let pp = PresentPass::init(&mut dev);
    assert_eq!(dev.refs, 2);
    let allocations_before = dev.live_allocations;
    assert!(pp.try_teardown(&mut dev).is_ok());
    assert_eq!(dev.refs, 1);
    assert_eq!(dev.live_allocations, allocations_before - 1);
    assert_eq!(dev.destruction_log, vec![ResourceKind::Swapchain]);
}

#[test]
fn frames_accumulate_across_the_loop() {
    let mut dev = DeviceContext::new();
    let vs = valid_shader_bytes();
    let fs = valid_shader_bytes();
    let mut mp = MainPass::init(&mut dev, 640, 480, &vs, &fs).unwrap();
    let mut pp = PresentPass::init(&mut dev);
    let mut sched = FrameScheduler::new(17);

    let draws = vec![3u32];
    let mut total_steps = 0u64;
    for frame_time in [20u64, 20, 5] {
        total_steps += run_frame(&mut sched, &mut mp, &mut pp, &mut dev, frame_time, &draws);
    }
    assert_eq!(total_steps, 2);
    assert_eq!(sched.accumulator, 11);
    assert_eq!(sched.steps_taken, 2);
    assert_eq!(pp.frames_presented, 3);
    assert_eq!(dev.submissions, 6);
}
