//! What holds of the graphics context and the frame loop over whole runs.

use crate::context::GraphicsContextView;
use crate::frame_loop::{AcquireOutcome, Command, Event, FrameLoopView, LoopState};
use crate::pipeline::RenderPass;
use vstd::prelude::*;

verus! {

/// How many of the commands configure the surface.
pub open spec fn reconfigurations(commands: Seq<Command>) -> nat
    decreases commands.len(),
{
    if commands.len() == 0 {
        0
    } else {
        let before = reconfigurations(commands.drop_last());
        if commands.last() is ConfigureSurface {
            before + 1
        } else {
            before
        }
    }
}

/// How many of the commands submit a frame.
pub open spec fn submissions(commands: Seq<Command>) -> nat
    decreases commands.len(),
{
    if commands.len() == 0 {
        0
    } else {
        let before = submissions(commands.drop_last());
        if commands.last() is Submit {
            before + 1
        } else {
            before
        }
    }
}

/// How many of the commands ask to leave the event loop.
pub open spec fn exits(commands: Seq<Command>) -> nat
    decreases commands.len(),
{
    if commands.len() == 0 {
        0
    } else {
        let before = exits(commands.drop_last());
        if commands.last() is Exit {
            before + 1
        } else {
            before
        }
    }
}

/// The counts over commands in a row are the sums of the counts over each
/// part.
pub proof fn lemma_counts_add(front: Seq<Command>, back: Seq<Command>)
    ensures
        reconfigurations(front + back) == reconfigurations(front) + reconfigurations(back),
        submissions(front + back) == submissions(front) + submissions(back),
        exits(front + back) == exits(front) + exits(back),
    decreases back.len(),
{
    if back.len() == 0 {
        assert(front + back =~= front);
    } else {
        assert((front + back).drop_last() =~= front + back.drop_last());
        assert((front + back).last() == back.last());
        lemma_counts_add(front, back.drop_last());
    }
}

/// Commands none of which configures the surface count no reconfiguration.
pub proof fn lemma_no_reconfiguration(commands: Seq<Command>)
    requires
        forall|i: int| 0 <= i < commands.len() ==> !(#[trigger] commands[i] is ConfigureSurface),
    ensures
        reconfigurations(commands) == 0,
    decreases commands.len(),
{
    if commands.len() > 0 {
        lemma_no_reconfiguration(commands.drop_last());
    }
}

/// Commands none of which asks to leave count no exit.
pub proof fn lemma_no_exit(commands: Seq<Command>)
    requires
        forall|i: int| 0 <= i < commands.len() ==> !(#[trigger] commands[i] is Exit),
    ensures
        exits(commands) == 0,
    decreases commands.len(),
{
    if commands.len() > 0 {
        lemma_no_exit(commands.drop_last());
    }
}

/// A frame's commands hold one submission and no reconfiguration.
pub proof fn lemma_frame_counts(pass: RenderPass)
    ensures
        reconfigurations(seq![Command::RecordPass(pass), Command::Submit, Command::Present]) == 0,
        submissions(seq![Command::RecordPass(pass), Command::Submit, Command::Present]) == 1,
{
    let frame = seq![Command::RecordPass(pass), Command::Submit, Command::Present];
    let two = frame.drop_last();
    let one = two.drop_last();
    assert(two.last() == Command::Submit);
    assert(one.last() == Command::RecordPass(pass));
    assert(one.drop_last() =~= Seq::<Command>::empty());
    reveal_with_fuel(reconfigurations, 2);
    reveal_with_fuel(submissions, 2);
    assert(submissions(one) == 0);
    assert(submissions(two) == 1);
    assert(reconfigurations(one) == 0);
    assert(reconfigurations(two) == 0);
}

/// One event keeps a well-formed loop well formed. Every configuration that
/// it asks the surface to be configured with is the loop's own, without a
/// zero dimension, and every record that it asks to be written is the
/// loop's own, with its opacity in range.
pub proof fn lemma_next_keeps_well_formed(frame_loop: FrameLoopView, event: Event)
    requires
        frame_loop.wf(),
    ensures
        frame_loop.next(event).0.wf(),
        forall|i: int|
            0 <= i < frame_loop.next(event).1.len() ==> (#[trigger] frame_loop.next(event).1[i]
                matches Command::ConfigureSurface(config) ==> config.wf() && config
                == frame_loop.next(event).0.context.config),
        forall|i: int|
            0 <= i < frame_loop.next(event).1.len() ==> (#[trigger] frame_loop.next(event).1[i]
                matches Command::WriteUniforms(uniforms) ==> uniforms.wf() && uniforms
                == frame_loop.next(event).0.context.uniforms),
{
}

/// A run keeps a well-formed loop well formed. No command of the run
/// configures the surface with a zero dimension, and none writes a record
/// with its opacity out of range.
pub proof fn lemma_run_keeps_well_formed(frame_loop: FrameLoopView, events: Seq<Event>)
    requires
        frame_loop.wf(),
    ensures
        frame_loop.run(events).0.wf(),
        forall|i: int|
            0 <= i < frame_loop.run(events).1.len() ==> (#[trigger] frame_loop.run(events).1[i]
                matches Command::ConfigureSurface(config) ==> config.wf()),
        forall|i: int|
            0 <= i < frame_loop.run(events).1.len() ==> (#[trigger] frame_loop.run(events).1[i]
                matches Command::WriteUniforms(uniforms) ==> uniforms.wf()),
    decreases events.len(),
{
    if events.len() > 0 {
        let (after, first) = frame_loop.next(events[0]);
        lemma_next_keeps_well_formed(frame_loop, events[0]);
        lemma_run_keeps_well_formed(after, events.drop_first());
        let rest = after.run(events.drop_first()).1;
        let commands = frame_loop.run(events).1;
        assert(commands =~= first + rest);
        assert forall|i: int| 0 <= i < commands.len() implies (#[trigger] commands[i]
            matches Command::ConfigureSurface(config) ==> config.wf()) by {
            if i < first.len() {
                assert(commands[i] == first[i]);
            } else {
                assert(commands[i] == rest[i - first.len()]);
            }
        }
        assert forall|i: int| 0 <= i < commands.len() implies (#[trigger] commands[i]
            matches Command::WriteUniforms(uniforms) ==> uniforms.wf()) by {
            if i < first.len() {
                assert(commands[i] == first[i]);
            } else {
                assert(commands[i] == rest[i - first.len()]);
            }
        }
    }
}

/// A resize to a size without a zero dimension leaves the configuration with
/// exactly that width and height, and touches nothing else.
pub proof fn lemma_resize_takes_size(context: GraphicsContextView, width: u32, height: u32)
    requires
        context.wf(),
        width > 0,
        height > 0,
    ensures
        context.resize(width, height).config.width == width,
        context.resize(width, height).config.height == height,
        context.resize(width, height).config.usage == context.config.usage,
        context.resize(width, height).config.format == context.config.format,
        context.resize(width, height).config.present_mode == context.config.present_mode,
        context.resize(width, height).config.alpha_mode == context.config.alpha_mode,
        context.resize(width, height).uniforms == context.uniforms,
        context.resize(width, height).pipeline == context.pipeline,
        context.resize(width, height).wf(),
{
}

/// A resize is idempotent: the same size reported twice leaves what it left
/// the first time.
pub proof fn lemma_resize_is_idempotent(context: GraphicsContextView, width: u32, height: u32)
    ensures
        context.resize(width, height).resize(width, height) == context.resize(width, height),
{
}

/// A resize with a zero dimension leaves the context as it was, and the
/// loop, wherever it stands, issues no command for it: no surface is
/// configured with a zero size.
pub proof fn lemma_zero_size_changes_nothing(frame_loop: FrameLoopView, width: u32, height: u32)
    requires
        width == 0 || height == 0,
    ensures
        frame_loop.context.resize(width, height) == frame_loop.context,
        frame_loop.on_resize(width, height) == (frame_loop, Seq::<Command>::empty()),
{
}

/// A tick of the idle loop writes the uniforms and asks for an image, and
/// does not configure the surface.
pub proof fn lemma_tick_begins_without_reconfiguration(frame_loop: FrameLoopView, time: u32)
    requires
        frame_loop.state == LoopState::Idle,
    ensures
        frame_loop.on_redraw_requested(time).1 == seq![
            Command::WriteUniforms(frame_loop.context.uniforms.at_time(time)),
            Command::AcquireImage,
        ],
        frame_loop.on_redraw_requested(time).0.state == LoopState::Rendering,
        reconfigurations(frame_loop.on_redraw_requested(time).1) == 0,
        submissions(frame_loop.on_redraw_requested(time).1) == 0,
{
    let commands = frame_loop.on_redraw_requested(time).1;
    assert(commands.drop_last() =~= seq![
        Command::WriteUniforms(frame_loop.context.uniforms.at_time(time)),
    ]);
    assert(commands.drop_last().drop_last() =~= Seq::<Command>::empty());
    reveal_with_fuel(reconfigurations, 3);
    reveal_with_fuel(submissions, 3);
}

/// One resize notification for each size, in order.
pub open spec fn resize_events(sizes: Seq<(u32, u32)>) -> Seq<Event> {
    Seq::new(sizes.len(), |i: int| Event::Resized { width: sizes[i].0, height: sizes[i].1 })
}

/// After any run of resizes to sizes without a zero dimension, the idle loop
/// is idle, its configuration has the width and height of the last size, and
/// the surface was configured once for each size, with that size. The tick
/// that follows begins a frame without configuring the surface again.
pub proof fn lemma_resize_sequence(frame_loop: FrameLoopView, sizes: Seq<(u32, u32)>, time: u32)
    requires
        frame_loop.wf(),
        frame_loop.state == LoopState::Idle,
        sizes.len() > 0,
        forall|i: int| 0 <= i < sizes.len() ==> (#[trigger] sizes[i]).0 > 0 && sizes[i].1 > 0,
    ensures
        ({
            let (after, commands) = frame_loop.run(resize_events(sizes));
            &&& after.wf()
            &&& after.state == LoopState::Idle
            &&& after.context.config == frame_loop.context.config.with_size(
                sizes.last().0,
                sizes.last().1,
            )
            &&& after.context.uniforms == frame_loop.context.uniforms
            &&& after.context.pipeline == frame_loop.context.pipeline
            &&& commands.len() == sizes.len()
            &&& forall|i: int|
                0 <= i < sizes.len() ==> #[trigger] commands[i] == Command::ConfigureSurface(
                    frame_loop.context.config.with_size(sizes[i].0, sizes[i].1),
                )
            &&& reconfigurations(after.on_redraw_requested(time).1) == 0
        }),
    decreases sizes.len(),
{
    let events = resize_events(sizes);
    let (first_after, first_commands) = frame_loop.next(events[0]);
    assert(first_commands == seq![
        Command::ConfigureSurface(frame_loop.context.config.with_size(sizes[0].0, sizes[0].1)),
    ]);
    if sizes.len() == 1 {
        assert(events.drop_first() =~= Seq::<Event>::empty());
        assert(first_after.run(events.drop_first()).1 =~= Seq::<Command>::empty());
        let (after, commands) = frame_loop.run(events);
        assert(commands =~= first_commands);
        lemma_tick_begins_without_reconfiguration(after, time);
    } else {
        let rest = sizes.drop_first();
        assert(events.drop_first() =~= resize_events(rest));
        lemma_resize_sequence(first_after, rest, time);
        let (after, commands) = frame_loop.run(events);
        let (rest_after, rest_commands) = first_after.run(resize_events(rest));
        assert(commands =~= first_commands + rest_commands);
        assert(rest.last() == sizes.last());
        assert forall|i: int| 0 <= i < sizes.len() implies #[trigger] commands[i]
            == Command::ConfigureSurface(
            frame_loop.context.config.with_size(sizes[i].0, sizes[i].1),
        ) by {
            if i > 0 {
                assert(commands[i] == rest_commands[i - 1]);
                assert(rest[i - 1] == sizes[i]);
            }
        }
    }
}

/// After a resize that the idle loop took, the next frame goes through
/// without the surface being configured again: the tick and the acquired
/// image lead to one recorded pass, one submission and one presentation.
pub proof fn lemma_frame_after_resize(frame_loop: FrameLoopView, width: u32, height: u32, time: u32)
    requires
        frame_loop.wf(),
        frame_loop.state == LoopState::Idle,
        width > 0,
        height > 0,
    ensures
        ({
            let (resized, configure) = frame_loop.on_resize(width, height);
            let (begun, begin) = resized.on_redraw_requested(time);
            let (done, finish) = begun.on_acquisition(AcquireOutcome::Acquired);
            &&& configure == seq![Command::ConfigureSurface(resized.context.config)]
            &&& resized.context.config.width == width
            &&& resized.context.config.height == height
            &&& finish == seq![
                Command::RecordPass(RenderPass::overlay_spec(frame_loop.context.pipeline)),
                Command::Submit,
                Command::Present,
            ]
            &&& reconfigurations(begin + finish) == 0
            &&& done.state == LoopState::Idle
            &&& done.context.config == resized.context.config
        }),
{
    let (resized, configure) = frame_loop.on_resize(width, height);
    let (begun, begin) = resized.on_redraw_requested(time);
    let (done, finish) = begun.on_acquisition(AcquireOutcome::Acquired);
    assert(begun.held_back() =~= Seq::<Command>::empty());
    assert(finish =~= seq![
        Command::RecordPass(RenderPass::overlay_spec(frame_loop.context.pipeline)),
        Command::Submit,
        Command::Present,
    ]);
    let all = begin + finish;
    assert(all =~= seq![
        Command::WriteUniforms(resized.context.uniforms.at_time(time)),
        Command::AcquireImage,
        Command::RecordPass(RenderPass::overlay_spec(frame_loop.context.pipeline)),
        Command::Submit,
        Command::Present,
    ]);
    lemma_no_reconfiguration(all);
}

/// While a frame is in flight the surface is left alone: a resize during the
/// frame issues no command, and the configuration it brought is applied once
/// the frame is over, after the image was presented.
pub proof fn lemma_resize_during_frame_waits(
    frame_loop: FrameLoopView,
    width: u32,
    height: u32,
)
    requires
        frame_loop.wf(),
        frame_loop.state == LoopState::Rendering,
        width > 0,
        height > 0,
    ensures
        ({
            let (resized, now) = frame_loop.on_resize(width, height);
            let (done, finish) = resized.on_acquisition(AcquireOutcome::Acquired);
            &&& now == Seq::<Command>::empty()
            &&& resized.state == LoopState::Rendering
            &&& resized.context.config.width == width
            &&& resized.context.config.height == height
            &&& finish == seq![
                Command::RecordPass(RenderPass::overlay_spec(frame_loop.context.pipeline)),
                Command::Submit,
                Command::Present,
                Command::ConfigureSurface(resized.context.config),
            ]
            &&& done.state == LoopState::Idle
            &&& !done.resize_pending
        }),
{
    let (resized, now) = frame_loop.on_resize(width, height);
    let (done, finish) = resized.on_acquisition(AcquireOutcome::Acquired);
    assert(finish =~= seq![
        Command::RecordPass(RenderPass::overlay_spec(frame_loop.context.pipeline)),
        Command::Submit,
        Command::Present,
        Command::ConfigureSurface(resized.context.config),
    ]);
}

/// The latest update wins: after two updates the uniforms hold the time of
/// the second, as if the first had never been, and opacity and seed are those
/// from before.
pub proof fn lemma_update_latest_wins(context: GraphicsContextView, first: u32, second: u32)
    ensures
        context.update(first).update(second) == context.update(second),
        context.update(first).update(second).uniforms.time == second,
        context.update(first).update(second).uniforms.opacity == context.uniforms.opacity,
        context.update(first).update(second).uniforms.seed == context.uniforms.seed,
        context.update(first).update(second).config == context.config,
{
}

/// Two ticks, each with its frame brought to an end, write the uniforms
/// twice; the second write carries the second time and nothing of the first.
pub proof fn lemma_second_tick_writes_second_time(
    frame_loop: FrameLoopView,
    first: u32,
    outcome: AcquireOutcome,
    second: u32,
)
    requires
        frame_loop.wf(),
        frame_loop.state == LoopState::Idle,
        outcome != AcquireOutcome::OutOfMemory,
    ensures
        ({
            let begun = frame_loop.on_redraw_requested(first).0;
            let ended = begun.on_acquisition(outcome).0;
            let (again, commands) = ended.on_redraw_requested(second);
            &&& commands[0] == Command::WriteUniforms(frame_loop.context.uniforms.at_time(second))
            &&& again.context.uniforms == frame_loop.context.uniforms.at_time(second)
        }),
{
}

/// A lost or outdated surface is configured anew exactly once, at the size
/// and in the format it has, and the loop goes on: it is idle, and its next
/// tick begins a frame without any further reconfiguration.
pub proof fn lemma_lost_surface_is_reconfigured_once(
    frame_loop: FrameLoopView,
    outcome: AcquireOutcome,
    time: u32,
)
    requires
        frame_loop.wf(),
        frame_loop.state == LoopState::Rendering,
        outcome == AcquireOutcome::Lost || outcome == AcquireOutcome::Outdated,
    ensures
        ({
            let (after, commands) = frame_loop.on_acquisition(outcome);
            &&& commands == seq![Command::ConfigureSurface(frame_loop.context.config)]
            &&& frame_loop.context.config.wf()
            &&& reconfigurations(commands) == 1
            &&& submissions(commands) == 0
            &&& after.state == LoopState::Idle
            &&& after.context == frame_loop.context
            &&& after.wf()
            &&& after.on_redraw_requested(time).1 == seq![
                Command::WriteUniforms(frame_loop.context.uniforms.at_time(time)),
                Command::AcquireImage,
            ]
            &&& reconfigurations(after.on_redraw_requested(time).1) == 0
        }),
{
    let (after, commands) = frame_loop.on_acquisition(outcome);
    assert(commands.drop_last() =~= Seq::<Command>::empty());
    reveal_with_fuel(reconfigurations, 2);
    reveal_with_fuel(submissions, 2);
    lemma_tick_begins_without_reconfiguration(after, time);
}

/// From a lost or outdated surface to the next frame on screen: over the
/// failed acquisition, the next tick and its successful acquisition, the
/// surface is configured exactly once, before the tick, and exactly one frame
/// is submitted. The loop ends up idle.
pub proof fn lemma_recovery_from_lost_surface(
    frame_loop: FrameLoopView,
    outcome: AcquireOutcome,
    time: u32,
)
    requires
        frame_loop.wf(),
        frame_loop.state == LoopState::Rendering,
        outcome == AcquireOutcome::Lost || outcome == AcquireOutcome::Outdated,
    ensures
        ({
            let events = seq![
                Event::Acquisition(outcome),
                Event::RedrawRequested { time },
                Event::Acquisition(AcquireOutcome::Acquired),
            ];
            let (after, commands) = frame_loop.run(events);
            &&& commands == seq![
                Command::ConfigureSurface(frame_loop.context.config),
                Command::WriteUniforms(frame_loop.context.uniforms.at_time(time)),
                Command::AcquireImage,
                Command::RecordPass(RenderPass::overlay_spec(frame_loop.context.pipeline)),
                Command::Submit,
                Command::Present,
            ]
            &&& reconfigurations(commands) == 1
            &&& submissions(commands) == 1
            &&& after.state == LoopState::Idle
            &&& after.context.config == frame_loop.context.config
        }),
{
    let events = seq![
        Event::Acquisition(outcome),
        Event::RedrawRequested { time },
        Event::Acquisition(AcquireOutcome::Acquired),
    ];
    let (lost, configure) = frame_loop.next(events[0]);
    let (begun, begin) = lost.next(events[1]);
    let (done, finish) = begun.next(events[2]);
    let tail = events.drop_first();
    let last = tail.drop_first();
    assert(tail[0] == events[1]);
    assert(last[0] == events[2]);
    assert(last.drop_first() =~= Seq::<Event>::empty());
    reveal_with_fuel(FrameLoopView::run, 4);
    assert(begun.held_back() =~= Seq::<Command>::empty());
    let pass = RenderPass::overlay_spec(frame_loop.context.pipeline);
    assert(finish =~= seq![Command::RecordPass(pass), Command::Submit, Command::Present]);
    assert(begun.run(last).1 =~= finish);
    assert(lost.run(tail).1 =~= begin + finish);
    let commands = frame_loop.run(events).1;
    assert(commands =~= configure + (begin + finish));
    lemma_lost_surface_is_reconfigured_once(frame_loop, outcome, time);
    lemma_tick_begins_without_reconfiguration(lost, time);
    lemma_frame_counts(pass);
    lemma_counts_add(begin, finish);
    lemma_counts_add(configure, begin + finish);
}

/// Out of memory ends the loop: the one command is to leave, and nothing is
/// submitted.
pub proof fn lemma_out_of_memory_terminates(frame_loop: FrameLoopView)
    requires
        frame_loop.state == LoopState::Rendering,
    ensures
        frame_loop.on_acquisition(AcquireOutcome::OutOfMemory).0.state == LoopState::Terminated,
        frame_loop.on_acquisition(AcquireOutcome::OutOfMemory).1 == seq![Command::Exit],
        submissions(frame_loop.on_acquisition(AcquireOutcome::OutOfMemory).1) == 0,
{
    let commands = frame_loop.on_acquisition(AcquireOutcome::OutOfMemory).1;
    assert(commands.drop_last() =~= Seq::<Command>::empty());
    reveal_with_fuel(submissions, 2);
}

/// A terminated loop stays as it is and issues no command, whatever events
/// still arrive: no frame is submitted after the end.
pub proof fn lemma_terminated_is_final(frame_loop: FrameLoopView, events: Seq<Event>)
    requires
        frame_loop.state == LoopState::Terminated,
    ensures
        frame_loop.run(events) == (frame_loop, Seq::<Command>::empty()),
        submissions(frame_loop.run(events).1) == 0,
    decreases events.len(),
{
    if events.len() > 0 {
        assert(frame_loop.next(events[0]) == (frame_loop, Seq::<Command>::empty()));
        lemma_terminated_is_final(frame_loop, events.drop_first());
        assert(frame_loop.run(events).1 =~= Seq::<Command>::empty());
    }
}

/// One event makes the loop ask to leave exactly where it ends the loop.
pub proof fn lemma_leaves_where_it_ends(frame_loop: FrameLoopView, event: Event)
    ensures
        exits(frame_loop.next(event).1) == (if frame_loop.state != LoopState::Terminated
            && frame_loop.next(event).0.state == LoopState::Terminated {
            1nat
        } else {
            0nat
        }),
{
    let (after, commands) = frame_loop.next(event);
    if frame_loop.state != LoopState::Terminated && after.state == LoopState::Terminated {
        assert(commands == seq![Command::Exit]);
        assert(commands.drop_last() =~= Seq::<Command>::empty());
        reveal_with_fuel(exits, 2);
    } else {
        lemma_no_exit(commands);
    }
}

/// Over any run the loop asks to leave at most once: once where the run
/// ends a loop that had not ended, and never otherwise.
pub proof fn lemma_leaves_at_most_once(frame_loop: FrameLoopView, events: Seq<Event>)
    ensures
        exits(frame_loop.run(events).1) == (if frame_loop.state != LoopState::Terminated
            && frame_loop.run(events).0.state == LoopState::Terminated {
            1nat
        } else {
            0nat
        }),
        frame_loop.state == LoopState::Terminated ==> frame_loop.run(events).0.state
            == LoopState::Terminated,
    decreases events.len(),
{
    if events.len() > 0 {
        let (after, first) = frame_loop.next(events[0]);
        let rest = after.run(events.drop_first()).1;
        lemma_leaves_where_it_ends(frame_loop, events[0]);
        lemma_leaves_at_most_once(after, events.drop_first());
        lemma_counts_add(first, rest);
        assert(frame_loop.run(events).1 =~= first + rest);
    }
}

/// After out of memory no frame is submitted any more, whatever events still
/// arrive.
pub proof fn lemma_no_submission_after_out_of_memory(frame_loop: FrameLoopView, events: Seq<Event>)
    requires
        frame_loop.state == LoopState::Rendering,
    ensures
        ({
            let (ended, leave) = frame_loop.on_acquisition(AcquireOutcome::OutOfMemory);
            let (last, commands) = ended.run(events);
            &&& last.state == LoopState::Terminated
            &&& commands == Seq::<Command>::empty()
            &&& submissions(leave + commands) == 0
        }),
{
    let (ended, leave) = frame_loop.on_acquisition(AcquireOutcome::OutOfMemory);
    lemma_out_of_memory_terminates(frame_loop);
    lemma_terminated_is_final(ended, events);
    assert(leave + ended.run(events).1 =~= leave);
}

} // verus!
