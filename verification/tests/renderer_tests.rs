use render_core::command::Command;
use render_core::device::DeviceContext;
use render_core::error::{RenderError, ResourceKind};
use render_core::image::{Format, ImageLayout, UsageState};
use render_core::image::{
    ACCESS_COLOR_ATTACHMENT_READ, ACCESS_COLOR_ATTACHMENT_WRITE, ACCESS_TRANSFER_READ,
    ASPECT_COLOR, STAGE_COLOR_ATTACHMENT_OUTPUT, STAGE_TRANSFER, USAGE_COLOR_ATTACHMENT,
    USAGE_SAMPLED,
};
use render_core::mainpass::{MainPass, PassPhase, POOL_MAX_SETS};
use render_core::pipeline::DescriptorPool;
use render_core::present::PresentPass;
use render_core::scheduler::FrameScheduler;

/// Minimal well-formed shader bytecode: the five-word header with the
/// little-endian magic number up front.
fn valid_shader() -> Vec<u8> {
    let mut b = vec![0x03u8, 0x02, 0x23, 0x07];
    b.extend_from_slice(&[0u8; 16]);
    b
}

fn color_target() -> UsageState {
    UsageState {
        access: ACCESS_COLOR_ATTACHMENT_READ | ACCESS_COLOR_ATTACHMENT_WRITE,
        layout: ImageLayout::ColorAttachmentOptimal,
        stage: STAGE_COLOR_ATTACHMENT_OUTPUT,
    }
}

#[test]
fn scheduler_example_sequence() {
    // Frame times 20, 20, 5 against a 17-unit fixed step: steps 1, 1, 0 and
    // a final accumulator of 20 + 20 + 5 - 2 * 17 = 11.
    let mut s = FrameScheduler::new(17);
    assert_eq!(s.advance(20), 1);
    assert_eq!(s.accumulator, 3);
    assert_eq!(s.advance(20), 1);
    assert_eq!(s.accumulator, 6);
    assert_eq!(s.advance(5), 0);
    assert_eq!(s.accumulator, 11);
    assert_eq!(s.steps_taken, 2);
}

#[test]
fn scheduler_drains_multiple_steps() {
    let mut s = FrameScheduler::new(10);
    assert_eq!(s.advance(35), 3);
    assert_eq!(s.accumulator, 5);
    assert_eq!(s.advance(0), 0);
    assert_eq!(s.accumulator, 5);
    assert_eq!(s.advance(5), 1);
    assert_eq!(s.accumulator, 0);
    assert_eq!(s.steps_taken, 4);
}

#[test]
fn scheduler_exact_multiple_leaves_nothing() {
    let mut s = FrameScheduler::new(17);
    assert_eq!(s.advance(34), 2);
    assert_eq!(s.accumulator, 0);
}

#[test]
fn texture_has_requested_size_and_state() {
    let mut dev = DeviceContext::new();
    let img = dev.create_texture(
        800,
        600,
        Format::R8g8b8a8Unorm,
        ASPECT_COLOR,
        USAGE_COLOR_ATTACHMENT | USAGE_SAMPLED,
        ACCESS_COLOR_ATTACHMENT_READ | ACCESS_COLOR_ATTACHMENT_WRITE,
        ImageLayout::ColorAttachmentOptimal,
        STAGE_COLOR_ATTACHMENT_OUTPUT,
    );
    assert_eq!(img.width, 800);
    assert_eq!(img.height, 600);
    assert_eq!(img.state.layout, ImageLayout::ColorAttachmentOptimal);
    assert_eq!(img.state, color_target());
    // The four handles are distinct.
    assert_ne!(img.image, img.view);
    assert_ne!(img.view, img.memory);
    assert_ne!(img.memory, img.sampler);
}

#[test]
fn transition_updates_tracked_state_and_records() {
    let mut dev = DeviceContext::new();
    let mut img = dev.create_texture(
        64,
        64,
        Format::R8g8b8a8Unorm,
        ASPECT_COLOR,
        USAGE_COLOR_ATTACHMENT,
        ACCESS_COLOR_ATTACHMENT_READ | ACCESS_COLOR_ATTACHMENT_WRITE,
        ImageLayout::ColorAttachmentOptimal,
        STAGE_COLOR_ATTACHMENT_OUTPUT,
    );
    let mut cmd = dev.create_commandbuffer();
    cmd.begin();
    dev.transition_texture(
        &mut img,
        ACCESS_TRANSFER_READ,
        ImageLayout::TransferSrcOptimal,
        STAGE_TRANSFER,
        &mut cmd,
    );
    assert_eq!(img.state.access, ACCESS_TRANSFER_READ);
    assert_eq!(img.state.layout, ImageLayout::TransferSrcOptimal);
    assert_eq!(img.state.stage, STAGE_TRANSFER);
    assert_eq!(cmd.commands.len(), 1);
    match cmd.commands[0] {
        Command::PipelineBarrier { from, to, .. } => {
            assert_eq!(from, color_target());
            assert_eq!(to, img.state);
        }
        _ => panic!("expected a barrier"),
    }
}

#[test]
fn transition_to_current_state_still_records() {
    // A transition to the state the image already holds is a valid no-op
    // for the tracked state but still records a barrier each time.
    let mut dev = DeviceContext::new();
    let mut img = dev.create_texture(
        64,
        64,
        Format::R8g8b8a8Unorm,
        ASPECT_COLOR,
        USAGE_COLOR_ATTACHMENT,
        ACCESS_COLOR_ATTACHMENT_READ | ACCESS_COLOR_ATTACHMENT_WRITE,
        ImageLayout::ColorAttachmentOptimal,
        STAGE_COLOR_ATTACHMENT_OUTPUT,
    );
    let before = img.state;
    let mut cmd = dev.create_commandbuffer();
    cmd.begin();
    for _ in 0..2 {
        dev.transition_texture(
            &mut img,
            ACCESS_COLOR_ATTACHMENT_READ | ACCESS_COLOR_ATTACHMENT_WRITE,
            ImageLayout::ColorAttachmentOptimal,
            STAGE_COLOR_ATTACHMENT_OUTPUT,
            &mut cmd,
        );
        assert_eq!(img.state, before);
    }
    assert_eq!(cmd.commands.len(), 2);
    assert_eq!(
        cmd.commands[0],
        Command::PipelineBarrier { image: img.image, from: before, to: before }
    );
    assert_eq!(cmd.commands[0], cmd.commands[1]);
}

#[test]
fn immediate_transition_submits_once() {
    let mut dev = DeviceContext::new();
    let mut img = dev.create_texture(
        32,
        32,
        Format::R8g8b8a8Unorm,
        ASPECT_COLOR,
        USAGE_COLOR_ATTACHMENT,
        0,
        ImageLayout::Undefined,
        0,
    );
    assert_eq!(dev.submissions, 0);
    dev.transition_texture_now(
        &mut img,
        ACCESS_COLOR_ATTACHMENT_READ | ACCESS_COLOR_ATTACHMENT_WRITE,
        ImageLayout::ColorAttachmentOptimal,
        STAGE_COLOR_ATTACHMENT_OUTPUT,
    );
    assert_eq!(dev.submissions, 1);
    assert_eq!(img.state, color_target());
}

#[test]
fn shader_module_rejects_malformed_bytecode() {
    let mut dev = DeviceContext::new();
    // Absent bytecode.
    assert_eq!(
        dev.create_shader_module(&Vec::new()),
        Err(RenderError::ShaderLoadFailure)
    );
    // Wrong magic number.
    let mut bad_magic = valid_shader();
    bad_magic[0] = 0xff;
    assert_eq!(
        dev.create_shader_module(&bad_magic),
        Err(RenderError::ShaderLoadFailure)
    );
    // Truncated to a fraction of a word.
    let mut ragged = valid_shader();
    ragged.push(0);
    assert_eq!(
        dev.create_shader_module(&ragged),
        Err(RenderError::ShaderLoadFailure)
    );
    // Well-formed bytecode compiles.
    let ok = dev.create_shader_module(&valid_shader()).unwrap();
    assert_eq!(ok.word_count, 5);
}

#[test]
fn pool_rejects_allocation_past_max_sets() {
    let mut pool = DescriptorPool {
        handle: 1,
        max_sets: 3,
        allocated_sets: 0,
        sampler_capacity: 14,
        sampler_used: 0,
        uniform_capacity: 4,
        uniform_used: 0,
    };
    for i in 0..3u32 {
        let set = pool.allocate_set(2, 1).unwrap();
        assert_eq!(set.index, i);
    }
    // The pool was sized for 3 sets: the 4th allocation fails.
    assert_eq!(
        pool.allocate_set(2, 1),
        Err(RenderError::DescriptorPoolExhausted)
    );
    assert_eq!(pool.allocated_sets, 3);
}

#[test]
fn pool_rejects_allocation_past_descriptor_budget() {
    let mut pool = DescriptorPool {
        handle: 1,
        max_sets: 8,
        allocated_sets: 0,
        sampler_capacity: 2,
        sampler_used: 0,
        uniform_capacity: 1,
        uniform_used: 0,
    };
    assert!(pool.allocate_set(2, 0).is_ok());
    // Two sampler descriptors are gone; one more cannot be had.
    assert_eq!(
        pool.allocate_set(1, 0),
        Err(RenderError::DescriptorPoolExhausted)
    );
}

#[test]
fn mainpass_pool_exhausts_at_configured_max() {
    let mut dev = DeviceContext::new();
    let vs = valid_shader();
    let fs = valid_shader();
    let mut mp = MainPass::init(&mut dev, 800, 600, &vs, &fs).unwrap();
    // init already allocated the view-matrix set.
    assert_eq!(mp.descriptor_pool.allocated_sets, 1);
    for _ in 1..POOL_MAX_SETS {
        mp.descriptor_pool.allocate_set(2, 0).unwrap();
    }
    assert_eq!(mp.descriptor_pool.allocated_sets, POOL_MAX_SETS);
    assert_eq!(
        mp.descriptor_pool.allocate_set(0, 0),
        Err(RenderError::DescriptorPoolExhausted)
    );
}

#[test]
fn init_builds_the_configured_render_target() {
    let mut dev = DeviceContext::new();
    let vs = valid_shader();
    let fs = valid_shader();
    let mp = MainPass::init(&mut dev, 800, 600, &vs, &fs).unwrap();
    assert_eq!(mp.render_image.width, 800);
    assert_eq!(mp.render_image.height, 600);
    assert_eq!(mp.render_image.format, Format::R8g8b8a8Unorm);
    assert_eq!(mp.render_image.state.layout, ImageLayout::ColorAttachmentOptimal);
    assert_eq!(mp.depth_image.format, Format::D32Sfloat);
    assert_eq!(mp.framebuffer.width, 800);
    assert_eq!(mp.framebuffer.height, 600);
    assert_eq!(mp.framebuffer.color_view, mp.render_image.view);
    assert_eq!(mp.framebuffer.depth_view, mp.depth_image.view);
    assert_eq!(mp.framebuffer.render_pass, mp.renderpass.handle);
    assert_eq!(mp.pipeline_layout.push_constant_size, 128);
    assert_eq!(mp.view_matrix_ub.size, 64);
    assert_eq!(mp.phase, PassPhase::Ready);
    // The stage holds a device reference besides the owner's.
    assert_eq!(dev.refs, 2);
}

#[test]
fn init_rejects_malformed_shader() {
    let mut dev = DeviceContext::new();
    let vs = valid_shader();
    let broken = vec![0u8; 7];
    let handles_before = dev.next_handle;
    match MainPass::init(&mut dev, 800, 600, &vs, &broken) {
        Err(e) => assert_eq!(e, RenderError::ShaderLoadFailure),
        Ok(_) => panic!("malformed bytecode must be rejected"),
    }
    // Nothing was created.
    assert_eq!(dev.next_handle, handles_before);
    assert_eq!(dev.live_allocations, 0);
    assert_eq!(dev.refs, 1);
}

#[test]
fn frame_recording_is_balanced() {
    let mut dev = DeviceContext::new();
    let vs = valid_shader();
    let fs = valid_shader();
    let mut mp = MainPass::init(&mut dev, 320, 240, &vs, &fs).unwrap();
    for _ in 0..3 {
        assert_eq!(mp.phase, PassPhase::Ready);
        let cmd = mp.begin_frame(&dev);
        assert_eq!(cmd, mp.commandbuffer.handle);
        assert_eq!(mp.phase, PassPhase::Recording);
        assert!(mp.commandbuffer.recording);
        mp.record_draw(36);
        mp.end_frame(&mut dev);
        assert_eq!(mp.phase, PassPhase::Ready);
        assert!(!mp.commandbuffer.recording);
    }
    assert_eq!(dev.submissions, 3);
}

#[test]
fn begin_frame_records_the_prelude() {
    let mut dev = DeviceContext::new();
    let vs = valid_shader();
    let fs = valid_shader();
    let mut mp = MainPass::init(&mut dev, 320, 240, &vs, &fs).unwrap();
    mp.begin_frame(&dev);
    let cmds = &mp.commandbuffer.commands;
    assert_eq!(cmds.len(), 6);
    assert_eq!(
        cmds[0],
        Command::PipelineBarrier { image: mp.render_image.image, from: color_target(), to: color_target() }
    );
    assert_eq!(
        cmds[1],
        Command::BeginRenderPass {
            render_pass: mp.renderpass.handle,
            framebuffer: mp.framebuffer.handle,
        }
    );
    assert_eq!(cmds[2], Command::BindDescriptorSets { first_set: 1, set_count: 1 });
    assert_eq!(cmds[3], Command::BindPipeline { pipeline: mp.pipeline.handle });
    match cmds[4] {
        Command::SetViewport { viewport } => {
            assert_eq!(viewport.width, 320);
            assert_eq!(viewport.height, 240);
        }
        _ => panic!("expected the viewport"),
    }
    mp.record_draw(3);
    mp.end_frame(&mut dev);
    assert_eq!(mp.commandbuffer.commands.len(), 8);
    assert_eq!(mp.commandbuffer.commands[6], Command::Draw { vertex_count: 3 });
    assert_eq!(mp.commandbuffer.commands[7], Command::EndRenderPass);
}

#[test]
fn present_hands_the_image_back_renderable() {
    let mut dev = DeviceContext::new();
    let vs = valid_shader();
    let fs = valid_shader();
    let mut mp = MainPass::init(&mut dev, 320, 240, &vs, &fs).unwrap();
    let mut pp = PresentPass::init(&mut dev);
    mp.begin_frame(&dev);
    mp.end_frame(&mut dev);
    pp.present_image(&mut dev, &mut mp.render_image);
    assert_eq!(pp.frames_presented, 1);
    assert_eq!(mp.render_image.state, color_target());
    let cmds = &pp.commandbuffer.commands;
    assert_eq!(cmds.len(), 3);
    match cmds[0] {
        Command::PipelineBarrier { from, to, .. } => {
            assert_eq!(from, color_target());
            assert_eq!(to.layout, ImageLayout::TransferSrcOptimal);
            assert_eq!(to.access, ACCESS_TRANSFER_READ);
        }
        _ => panic!("expected the transfer barrier"),
    }
    match cmds[1] {
        Command::CopyImage { src, dst, width, height } => {
            assert_eq!(src, mp.render_image.image);
            assert_eq!(dst, pp.swapchain_image);
            assert_eq!(width, 320);
            assert_eq!(height, 240);
        }
        _ => panic!("expected the copy"),
    }
    match cmds[2] {
        Command::PipelineBarrier { to, .. } => assert_eq!(to, color_target()),
        _ => panic!("expected the restoring barrier"),
    }
}

#[test]
fn teardown_after_device_release_is_refused() {
    let mut dev = DeviceContext::new();
    let vs = valid_shader();
    let fs = valid_shader();
    let mp = MainPass::init(&mut dev, 320, 240, &vs, &fs).unwrap();
    // The owner gives its device reference up first: the stage's reference
    // is now the last one, so teardown must refuse to touch the device.
    dev.release_ref();
    assert_eq!(dev.refs, 1);
    let log_before = dev.destruction_log.len();
    match mp.try_teardown(&mut dev) {
        Err((_mp, e)) => assert_eq!(e, RenderError::DanglingDeviceContext),
        Ok(()) => panic!("teardown after the device context must be refused"),
    }
    // Nothing was destroyed.
    assert_eq!(dev.destruction_log.len(), log_before);
}

#[test]
fn teardown_releases_in_dependency_order() {
    let mut dev = DeviceContext::new();
    let vs = valid_shader();
    let fs = valid_shader();
    let mp = MainPass::init(&mut dev, 320, 240, &vs, &fs).unwrap();
    // init released the two transient shader modules already.
    assert_eq!(
        dev.destruction_log,
        vec![ResourceKind::ShaderModule, ResourceKind::ShaderModule]
    );
    assert!(mp.try_teardown(&mut dev).is_ok());
    assert_eq!(dev.refs, 1);
    assert_eq!(dev.idle_waits, 1);
    let expected = vec![
        ResourceKind::ShaderModule,
        ResourceKind::ShaderModule,
        ResourceKind::Buffer,
        ResourceKind::Memory,
        ResourceKind::Sampler,
        ResourceKind::ImageView,
        ResourceKind::Image,
        ResourceKind::Memory,
        ResourceKind::Sampler,
        ResourceKind::ImageView,
        ResourceKind::Image,
        ResourceKind::Memory,
        ResourceKind::Framebuffer,
        ResourceKind::Pipeline,
        ResourceKind::PipelineLayout,
        ResourceKind::DescriptorSetLayout,
        ResourceKind::DescriptorSetLayout,
        ResourceKind::DescriptorPool,
        ResourceKind::RenderPass,
    ];
    assert_eq!(dev.destruction_log, expected);
    // The framebuffer goes before the render pass it depends on.
    let fb = dev
        .destruction_log
        .iter()
        .position(|k| *k == ResourceKind::Framebuffer)
        .unwrap();
    let rp = dev
        .destruction_log
        .iter()
        .position(|k| *k == ResourceKind::RenderPass)
        .unwrap();
    assert!(fb < rp);
    // Now only the owner holds the device, and it can be destroyed.
    dev.destroy();
    assert!(!dev.alive);
}

#[test]
fn present_teardown_after_device_release_is_refused() {
    let mut dev = DeviceContext::new();
    let pp = PresentPass::init(&mut dev);
    dev.release_ref();
    match pp.try_teardown(&mut dev) {
        Err((_pp, e)) => assert_eq!(e, RenderError::DanglingDeviceContext),
        Ok(()) => panic!("teardown after the device context must be refused"),
    }
}
