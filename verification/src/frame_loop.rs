//! The frame loop: a state machine from the host's notifications and the
//! results of image acquisition to the commands to carry out on the GPU.
//!
//! A tick has two halves. On a redraw request the loop asks for the uniforms
//! to be written and an image to be acquired; on the result of the
//! acquisition it asks for the frame to be recorded, submitted and presented,
//! or recovers. Whoever drives the loop carries the commands out in order and
//! reports back.

use crate::context::{GraphicsContext, GraphicsContextView};
use crate::pipeline::RenderPass;
use crate::surface::SurfaceConfig;
use crate::uniforms::FrameUniforms;
use vstd::prelude::*;

verus! {

/// Where the loop stands.
#[derive(Clone, Copy, Debug, PartialEq, Eq, Structural)]
pub enum LoopState {
    /// Waiting for the next tick.
    Idle,
    /// One frame is in flight: an image was requested and its fate is not
    /// yet reported.
    Rendering,
    /// The loop has ended and does nothing any more.
    Terminated,
}

/// How the acquisition of the next presentable image ended.
#[derive(Clone, Copy, Debug, PartialEq, Eq, Structural)]
pub enum AcquireOutcome {
    /// An image is ready to be rendered to.
    Acquired,
    /// No image became available in time.
    Timeout,
    /// The surface has changed under the swap chain.
    Outdated,
    /// The swap chain is lost.
    Lost,
    /// No memory is left for a new frame.
    OutOfMemory,
    /// Any other failure.
    Other,
}

/// What the loop reacts to.
#[derive(Clone, Copy, Debug, PartialEq, Eq, Structural)]
pub enum Event {
    /// The window's physical size changed.
    Resized { width: u32, height: u32 },
    /// A tick. `time` is the bit pattern of the milliseconds since start.
    RedrawRequested { time: u32 },
    /// The image asked for by `Command::AcquireImage` was acquired, or not.
    Acquisition(AcquireOutcome),
    /// The host asks the overlay to close.
    CloseRequested,
}

/// What the loop asks to be done, in the order given.
#[derive(Clone, Copy, Debug, PartialEq, Eq)]
pub enum Command {
    /// Configure the surface.
    ConfigureSurface(SurfaceConfig),
    /// Queue a copy of the record's block into the uniform buffer.
    WriteUniforms(FrameUniforms),
    /// Acquire the next presentable image and report the outcome.
    AcquireImage,
    /// Record the render pass against the acquired image.
    RecordPass(RenderPass),
    /// Submit the recorded commands to the queue.
    Submit,
    /// Present the acquired image.
    Present,
    /// Warn that a frame was dropped; the loop goes on.
    ReportDroppedFrame(AcquireOutcome),
    /// Leave the event loop.
    Exit,
}

/// The loop as a plain value.
pub struct FrameLoopView {
    pub state: LoopState,
    pub context: GraphicsContextView,
    /// A size arrived while a frame was in flight; the surface is configured
    /// with it once the frame is over.
    pub resize_pending: bool,
}

impl FrameLoopView {
    /// The loop is well formed where its context is, and a reconfiguration
    /// waits only while a frame is in flight.
    pub open spec fn wf(self) -> bool {
        &&& self.context.wf()
        &&& self.resize_pending ==> self.state == LoopState::Rendering
    }

    /// The loop at start: idle, around a context that was set up.
    pub open spec fn start(context: GraphicsContextView) -> FrameLoopView {
        FrameLoopView { state: LoopState::Idle, context, resize_pending: false }
    }

    /// The loop in another state, with nothing waiting.
    pub open spec fn settle(self, state: LoopState) -> FrameLoopView {
        FrameLoopView { state, context: self.context, resize_pending: false }
    }

    /// The reconfiguration that was held back during the frame, if any.
    pub open spec fn held_back(self) -> Seq<Command> {
        if self.resize_pending {
            seq![Command::ConfigureSurface(self.context.config)]
        } else {
            Seq::empty()
        }
    }

    /// The host reports a size. A size with a zero dimension changes
    /// nothing. Any other size is taken at once; the surface is configured
    /// with it right away when idle, and once the frame is over when one is
    /// in flight.
    pub open spec fn on_resize(self, width: u32, height: u32) -> (FrameLoopView, Seq<Command>) {
        if self.state == LoopState::Terminated || !GraphicsContextView::accepts_size(
            width,
            height,
        ) {
            (self, Seq::empty())
        } else {
            let context = self.context.resize(width, height);
            if self.state == LoopState::Idle {
                (
                    FrameLoopView { state: self.state, context, resize_pending: false },
                    seq![Command::ConfigureSurface(context.config)],
                )
            } else {
                (FrameLoopView { state: self.state, context, resize_pending: true }, Seq::empty())
            }
        }
    }

    /// A tick. When idle, the uniforms move to `time` and a frame begins.
    /// A tick during a frame or after the end is passed over.
    pub open spec fn on_redraw_requested(self, time: u32) -> (FrameLoopView, Seq<Command>) {
        if self.state == LoopState::Idle {
            let context = self.context.update(time);
            (
                FrameLoopView { state: LoopState::Rendering, context, resize_pending: false },
                seq![Command::WriteUniforms(context.uniforms), Command::AcquireImage],
            )
        } else {
            (self, Seq::empty())
        }
    }

    /// The acquisition of the frame in flight ended. With an image, the frame
    /// is recorded, submitted and presented. A lost or outdated surface is
    /// configured anew at its current size. Out of memory ends the loop. Any
    /// other failure drops the frame with a warning. With no frame in flight
    /// the report is passed over.
    pub open spec fn on_acquisition(self, outcome: AcquireOutcome) -> (FrameLoopView, Seq<Command>) {
        if self.state == LoopState::Rendering {
            match outcome {
                AcquireOutcome::Acquired => (
                    self.settle(LoopState::Idle),
                    seq![
                        Command::RecordPass(RenderPass::overlay_spec(self.context.pipeline)),
                        Command::Submit,
                        Command::Present,
                    ] + self.held_back(),
                ),
                AcquireOutcome::Lost | AcquireOutcome::Outdated => (
                    self.settle(LoopState::Idle),
                    seq![Command::ConfigureSurface(self.context.config)],
                ),
                AcquireOutcome::OutOfMemory => (
                    self.settle(LoopState::Terminated),
                    seq![Command::Exit],
                ),
                AcquireOutcome::Timeout | AcquireOutcome::Other => (
                    self.settle(LoopState::Idle),
                    seq![Command::ReportDroppedFrame(outcome)] + self.held_back(),
                ),
            }
        } else {
            (self, Seq::empty())
        }
    }

    /// The host asks to close: the loop ends, once.
    pub open spec fn on_close_requested(self) -> (FrameLoopView, Seq<Command>) {
        if self.state == LoopState::Terminated {
            (self, Seq::empty())
        } else {
            (self.settle(LoopState::Terminated), seq![Command::Exit])
        }
    }

    /// The loop and its commands after one event.
    pub open spec fn next(self, event: Event) -> (FrameLoopView, Seq<Command>) {
        match event {
            Event::Resized { width, height } => self.on_resize(width, height),
            Event::RedrawRequested { time } => self.on_redraw_requested(time),
            Event::Acquisition(outcome) => self.on_acquisition(outcome),
            Event::CloseRequested => self.on_close_requested(),
        }
    }

    /// The loop after a run of events, and all commands of the run in order.
    pub open spec fn run(self, events: Seq<Event>) -> (FrameLoopView, Seq<Command>)
        decreases events.len(),
    {
        if events.len() == 0 {
            (self, Seq::empty())
        } else {
            let (after, first) = self.next(events[0]);
            let (last, rest) = after.run(events.drop_first());
            (last, first + rest)
        }
    }
}

/// The overlay's frame loop around its graphics context.
#[derive(Debug)]
pub struct FrameLoop {
    state: LoopState,
    context: GraphicsContext,
    resize_pending: bool,
}

impl View for FrameLoop {
    type V = FrameLoopView;

    closed spec fn view(&self) -> FrameLoopView {
        FrameLoopView {
            state: self.state,
            context: self.context@,
            resize_pending: self.resize_pending,
        }
    }
}

impl FrameLoop {
    /// Every loop that exists is well formed.
    #[verifier::type_invariant]
    pub open spec fn well_formed(self) -> bool {
        self@.wf()
    }

    /// An idle loop around a context that was set up.
    pub fn new(context: GraphicsContext) -> (made: FrameLoop)
        ensures
            made@ == FrameLoopView::start(context@),
            made@.wf(),
    {
        proof {
            use_type_invariant(&context);
        }
        FrameLoop { state: LoopState::Idle, context, resize_pending: false }
    }

    /// Where the loop stands.
    pub fn state(&self) -> (state: LoopState)
        ensures
            state == self@.state,
    {
        self.state
    }

    /// Whether the loop has ended.
    pub fn is_terminated(&self) -> (ended: bool)
        ensures
            ended == (self@.state == LoopState::Terminated),
    {
        match self.state {
            LoopState::Terminated => true,
            _ => false,
        }
    }

    /// The graphics context.
    pub fn context(&self) -> (context: &GraphicsContext)
        ensures
            context@ == self@.context,
    {
        &self.context
    }

    /// Takes a size that the host reports.
    pub fn on_resize(&mut self, width: u32, height: u32) -> (commands: Vec<Command>)
        ensures
            (final(self)@, commands@) == old(self)@.on_resize(width, height),
            final(self)@.wf(),
    {
        proof {
            use_type_invariant(&*self);
        }
        let mut commands: Vec<Command> = Vec::new();
        match self.state {
            LoopState::Terminated => {},
            LoopState::Idle => {
                if let Some(config) = self.context.resize(width, height) {
                    commands.push(Command::ConfigureSurface(config));
                }
            },
            LoopState::Rendering => {
                if self.context.resize(width, height).is_some() {
                    self.resize_pending = true;
                }
            },
        }
        assert(commands@ =~= old(self)@.on_resize(width, height).1);
        commands
    }

    /// Takes a tick at `time`, the bit pattern of the milliseconds since
    /// start.
    pub fn on_redraw_requested(&mut self, time: u32) -> (commands: Vec<Command>)
        ensures
            (final(self)@, commands@) == old(self)@.on_redraw_requested(time),
            final(self)@.wf(),
    {
        proof {
            use_type_invariant(&*self);
        }
        let mut commands: Vec<Command> = Vec::new();
        match self.state {
            LoopState::Idle => {
                let written: FrameUniforms = self.context.update(time);
                self.state = LoopState::Rendering;
                commands.push(Command::WriteUniforms(written));
                commands.push(Command::AcquireImage);
            },
            _ => {},
        }
        assert(commands@ =~= old(self)@.on_redraw_requested(time).1);
        commands
    }

    /// Takes the outcome of the acquisition that `Command::AcquireImage`
    /// asked for.
    pub fn on_acquisition(&mut self, outcome: AcquireOutcome) -> (commands: Vec<Command>)
        ensures
            (final(self)@, commands@) == old(self)@.on_acquisition(outcome),
            final(self)@.wf(),
    {
        proof {
            use_type_invariant(&*self);
        }
        let mut commands: Vec<Command> = Vec::new();
        match self.state {
            LoopState::Rendering => {
                let config: SurfaceConfig = self.context.surface_config();
                let held_back: bool = self.resize_pending;
                self.resize_pending = false;
                match outcome {
                    AcquireOutcome::Acquired => {
                        self.state = LoopState::Idle;
                        commands.push(Command::RecordPass(self.context.render_pass()));
                        commands.push(Command::Submit);
                        commands.push(Command::Present);
                        if held_back {
                            commands.push(Command::ConfigureSurface(config));
                        }
                    },
                    AcquireOutcome::Lost | AcquireOutcome::Outdated => {
                        self.state = LoopState::Idle;
                        commands.push(Command::ConfigureSurface(config));
                    },
                    AcquireOutcome::OutOfMemory => {
                        self.state = LoopState::Terminated;
                        commands.push(Command::Exit);
                    },
                    AcquireOutcome::Timeout | AcquireOutcome::Other => {
                        self.state = LoopState::Idle;
                        commands.push(Command::ReportDroppedFrame(outcome));
                        if held_back {
                            commands.push(Command::ConfigureSurface(config));
                        }
                    },
                }
            },
            _ => {},
        }
        assert(commands@ =~= old(self)@.on_acquisition(outcome).1);
        commands
    }

    /// Takes the host's request to close.
    pub fn on_close_requested(&mut self) -> (commands: Vec<Command>)
        ensures
            (final(self)@, commands@) == old(self)@.on_close_requested(),
            final(self)@.wf(),
    {
        proof {
            use_type_invariant(&*self);
        }
        let mut commands: Vec<Command> = Vec::new();
        match self.state {
            LoopState::Terminated => {},
            _ => {
                self.resize_pending = false;
                self.state = LoopState::Terminated;
                commands.push(Command::Exit);
            },
        }
        assert(commands@ =~= old(self)@.on_close_requested().1);
        commands
    }

    /// Takes one event, whichever it is.
    pub fn handle(&mut self, event: Event) -> (commands: Vec<Command>)
        ensures
            (final(self)@, commands@) == old(self)@.next(event),
            final(self)@.wf(),
    {
        match event {
            Event::Resized { width, height } => self.on_resize(width, height),
            Event::RedrawRequested { time } => self.on_redraw_requested(time),
            Event::Acquisition(outcome) => self.on_acquisition(outcome),
            Event::CloseRequested => self.on_close_requested(),
        }
    }
}

} // verus!
