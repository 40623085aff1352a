//! One iteration of the render loop.
//!
//! Each outer iteration feeds the measured wall-clock frame time to the
//! scheduler — the caller then runs one simulation update per step the
//! scheduler asks for — records and submits one offscreen frame with one
//! draw per drawable, and hands the rendered image to the presentation
//! stage. Rendering happens once per iteration however many simulation
//! steps were taken, using the most recently computed state.

use crate::command::Command;
use crate::device::DeviceContext;
use crate::image::{color_target_state, transitioned};
use crate::mainpass::{draw_commands, frame_prelude, FrameEvent, MainPass};
use crate::present::PresentPass;
use crate::scheduler::FrameScheduler;
use vstd::prelude::*;

verus! {

/// Runs one frame: advances the scheduler by `frame_time` and returns how
/// many fixed simulation steps the caller must run; records the offscreen
/// frame with one draw per entry of `draws` (each entry a drawable's vertex
/// count) and submits it; then presents the rendered image, handing it back
/// in its renderable state. The command buffer ends up holding exactly the
/// frame prelude, the draws in order, and the render-pass end.
pub fn run_frame(
    sched: &mut FrameScheduler,
    mainpass: &mut MainPass,
    presentpass: &mut PresentPass,
    dev: &mut DeviceContext,
    frame_time: u64,
    draws: &Vec<u32>,
) -> (steps: u64)
    requires
        old(sched).wf(),
        old(sched).total_time() + frame_time <= u64::MAX,
        old(mainpass).wf(),
        old(mainpass).phase is Ready,
        old(presentpass).wf(),
        old(presentpass).frames_presented < u64::MAX,
        old(dev).alive,
        old(dev).submissions + 2 <= u64::MAX,
    ensures
        final(sched).wf(),
        final(sched).fixed_step == old(sched).fixed_step,
        steps == (old(sched).accumulator + frame_time) / (old(sched).fixed_step as int),
        final(sched).accumulator == (old(sched).accumulator + frame_time) % (
        old(sched).fixed_step as int),
        final(sched).steps_taken == old(sched).steps_taken + steps,
        final(mainpass).wf(),
        final(mainpass).phase is Ready,
        final(mainpass).frame_log@ == old(mainpass).frame_log@.push(FrameEvent::BeginFrame).push(
            FrameEvent::EndFrame,
        ),
        final(mainpass).commandbuffer.commands@ == frame_prelude(*old(mainpass)) + draw_commands(
            draws@,
        ) + seq![Command::EndRenderPass],
        final(mainpass).render_image == transitioned(
            old(mainpass).render_image,
            color_target_state(),
        ),
        final(presentpass).wf(),
        final(presentpass).frames_presented == old(presentpass).frames_presented + 1,
        *final(dev) == (DeviceContext {
            submissions: (old(dev).submissions + 2) as u64,
            ..*old(dev)
        }),
{
    let steps = sched.advance(frame_time);

    let _cmd = mainpass.begin_frame(dev);
    let ghost begun = *mainpass;
    let ghost base = mainpass.commandbuffer.commands@;

    let mut i: usize = 0;
    while i < draws.len()
        invariant
            i <= draws.len(),
            mainpass.wf(),
            mainpass.phase is Recording,
            *mainpass == (MainPass { commandbuffer: mainpass.commandbuffer, ..begun }),
            mainpass.commandbuffer == (crate::command::CommandBuffer {
                commands: mainpass.commandbuffer.commands,
                ..begun.commandbuffer
            }),
            mainpass.commandbuffer.commands@ == base + draw_commands(draws@.subrange(0, i as int)),
        decreases draws.len() - i,
    {
        mainpass.record_draw(*draws.get(i).unwrap());
        proof {
            assert(draws@.subrange(0, i + 1) =~= draws@.subrange(0, i as int).push(draws@[i as int]));
            assert(draw_commands(draws@.subrange(0, i + 1)) =~= draw_commands(
                draws@.subrange(0, i as int),
            ).push(Command::Draw { vertex_count: draws@[i as int] }));
        }
        i = i + 1;
    }
    proof {
        assert(draws@.subrange(0, draws@.len() as int) =~= draws@);
    }

    mainpass.end_frame(dev);

    presentpass.present_image(dev, &mut mainpass.render_image);

    steps
}

} // verus!
