//! The decisions of the render loop: what each window event asks of the host,
//! and what follows from each attempt to acquire a frame texture.
//!
//! The host performs the commands (configure the surface, request a redraw,
//! acquire, draw and present) and reports back what happened.

use vstd::prelude::*;
use crate::surface::{
    is_presentable, spec_resize, surface_wf, PresentMode, SurfaceConfig, SurfaceManager,
    SurfaceState,
};

verus! {

/// What came of asking the surface for a frame texture.
#[derive(Clone, Copy, PartialEq, Eq, Structural, Debug)]
pub enum AcquireOutcome {
    Acquired,
    Lost,
    OutOfMemory,
    Outdated,
    Timeout,
}

/// What the host does with the frame it tried to acquire.
pub enum FrameAction<F> {
    /// Render into the texture, submit, and present it.
    Draw,
    /// Draw nothing this frame; apply this configuration to the surface.
    Reconfigure(SurfaceConfig<F>),
    /// Draw nothing this frame; the next redraw tries again.
    Skip,
    /// Draw nothing and leave the loop.
    Exit,
}

/// An event addressed to a window.
#[derive(Clone, Copy, PartialEq, Eq, Structural, Debug)]
pub enum WindowEvent {
    CloseRequested,
    KeyboardInput { pressed: bool, escape: bool },
    /// The window's new physical size.
    Resized { width: u32, height: u32 },
    /// The scale factor changed; the window's new physical size.
    ScaleFactorChanged { width: u32, height: u32 },
    Other,
}

/// An event from the platform's event loop.
#[derive(Clone, Copy, PartialEq, Eq, Structural, Debug)]
pub enum Event {
    /// `own` tells whether the event is addressed to the window this loop drives.
    Window { own: bool, event: WindowEvent },
    RedrawRequested { own: bool },
    /// No input is pending.
    MainEventsCleared,
    Other,
}

/// What the host does in answer to an event.
pub enum Command<F> {
    Nothing,
    /// Leave the loop.
    Exit,
    /// Apply this configuration to the surface.
    Configure(SurfaceConfig<F>),
    /// Ask the window for a redraw.
    RequestRedraw,
    /// Acquire a frame texture and report the outcome to `frame_acquired`.
    RenderFrame,
}

/// The state of the loop: the surface and whether the loop still runs.
pub struct LoopState<F> {
    pub surface: SurfaceState<F>,
    pub running: bool,
}

/// The render loop of one window.
pub struct FrameLoop<F> {
    surface: SurfaceManager<F>,
    running: bool,
}

impl<F> View for FrameLoop<F> {
    type V = LoopState<F>;

    closed spec fn view(&self) -> LoopState<F> {
        LoopState { surface: self.surface@, running: self.running }
    }
}

/// The loop's state is well formed when its surface manager is.
pub open spec fn loop_wf<F>(s: LoopState<F>) -> bool {
    surface_wf(s.surface)
}

/// A resize of the window to `width` × `height`: the surface manager decides,
/// and a configuration it returns is passed on.
pub open spec fn spec_on_resize<F>(s: LoopState<F>, width: u32, height: u32) -> (
    LoopState<F>,
    Command<F>,
) {
    let (surface, c) = spec_resize(s.surface, width, height);
    (
        LoopState { surface, ..s },
        match c {
            Some(config) => Command::Configure(config),
            None => Command::Nothing,
        },
    )
}

/// The answer to an event. A stopped loop does nothing. For the own window, a
/// close request or a press of escape stops the loop; a resize or a change of
/// scale factor goes to the surface; a redraw renders a frame if the surface is
/// configured. When no input is pending a redraw is requested. Everything else,
/// and every event of another window, is ignored.
pub open spec fn spec_on_event<F>(s: LoopState<F>, event: Event) -> (LoopState<F>, Command<F>) {
    if !s.running {
        (s, Command::Nothing)
    } else {
        match event {
            Event::Window { own, event } => {
                if !own {
                    (s, Command::Nothing)
                } else {
                    match event {
                        WindowEvent::CloseRequested => (
                            LoopState { running: false, ..s },
                            Command::Exit,
                        ),
                        WindowEvent::KeyboardInput { pressed, escape } => {
                            if pressed && escape {
                                (LoopState { running: false, ..s }, Command::Exit)
                            } else {
                                (s, Command::Nothing)
                            }
                        },
                        WindowEvent::Resized { width, height } => spec_on_resize(s, width, height),
                        WindowEvent::ScaleFactorChanged { width, height } => spec_on_resize(
                            s,
                            width,
                            height,
                        ),
                        WindowEvent::Other => (s, Command::Nothing),
                    }
                }
            },
            Event::RedrawRequested { own } => {
                if own && s.surface.configured {
                    (s, Command::RenderFrame)
                } else {
                    (s, Command::Nothing)
                }
            },
            Event::MainEventsCleared => (s, Command::RequestRedraw),
            Event::Other => (s, Command::Nothing),
        }
    }
}

/// The answer to the outcome of an acquire. An acquired texture is drawn. A lost
/// surface is configured again at the last known size and the frame dropped. Out
/// of memory stops the loop. Any other failure drops the frame. A stopped loop
/// draws nothing.
pub open spec fn spec_on_frame<F>(s: LoopState<F>, outcome: AcquireOutcome) -> (
    LoopState<F>,
    FrameAction<F>,
) {
    if !s.running {
        (s, FrameAction::Skip)
    } else {
        match outcome {
            AcquireOutcome::Acquired => (s, FrameAction::Draw),
            AcquireOutcome::Lost => {
                let (surface, c) = spec_resize(
                    s.surface,
                    s.surface.config.width,
                    s.surface.config.height,
                );
                (
                    LoopState { surface, ..s },
                    match c {
                        Some(config) => FrameAction::Reconfigure(config),
                        None => FrameAction::Skip,
                    },
                )
            },
            AcquireOutcome::OutOfMemory => (LoopState { running: false, ..s }, FrameAction::Exit),
            AcquireOutcome::Outdated => (s, FrameAction::Skip),
            AcquireOutcome::Timeout => (s, FrameAction::Skip),
        }
    }
}

impl<F: Copy> FrameLoop<F> {
    /// A running loop over a surface of `format` presented with `present_mode`,
    /// for a window of `width` × `height`.
    pub fn new(format: F, present_mode: PresentMode, width: u32, height: u32) -> (r: Self)
        ensures
            r@.running,
            r@.surface.config == (SurfaceConfig { format, width, height, present_mode }),
            r@.surface.configured == is_presentable(width, height),
            loop_wf(r@),
    {
        FrameLoop { surface: SurfaceManager::new(format, present_mode, width, height), running: true }
    }

    /// The surface's current configuration.
    pub fn surface_config(&self) -> (r: SurfaceConfig<F>)
        ensures
            r == self@.surface.config,
    {
        self.surface.config()
    }

    /// Whether a configuration has been applied to the surface.
    pub fn surface_configured(&self) -> (r: bool)
        ensures
            r == self@.surface.configured,
    {
        self.surface.is_configured()
    }

    /// Whether the loop still runs.
    pub fn is_running(&self) -> (r: bool)
        ensures
            r == self@.running,
    {
        self.running
    }

    /// Decides what to do about `event`.
    pub fn handle_event(&mut self, event: Event) -> (r: Command<F>)
        requires
            loop_wf(old(self)@),
        ensures
            (final(self)@, r) == spec_on_event(old(self)@, event),
            loop_wf(final(self)@),
    {
        if !self.running {
            return Command::Nothing;
        }
        match event {
            Event::Window { own, event } => {
                if !own {
                    return Command::Nothing;
                }
                match event {
                    WindowEvent::CloseRequested => {
                        self.running = false;
                        Command::Exit
                    },
                    WindowEvent::KeyboardInput { pressed, escape } => {
                        if pressed && escape {
                            self.running = false;
                            Command::Exit
                        } else {
                            Command::Nothing
                        }
                    },
                    WindowEvent::Resized { width, height } => self.on_resize(width, height),
                    WindowEvent::ScaleFactorChanged { width, height } => self.on_resize(
                        width,
                        height,
                    ),
                    WindowEvent::Other => Command::Nothing,
                }
            },
            Event::RedrawRequested { own } => {
                if own && self.surface.is_configured() {
                    Command::RenderFrame
                } else {
                    Command::Nothing
                }
            },
            Event::MainEventsCleared => Command::RequestRedraw,
            Event::Other => Command::Nothing,
        }
    }

    fn on_resize(&mut self, width: u32, height: u32) -> (r: Command<F>)
        requires
            loop_wf(old(self)@),
        ensures
            (final(self)@, r) == spec_on_resize(old(self)@, width, height),
            loop_wf(final(self)@),
    {
        match self.surface.resize(width, height) {
            Some(config) => Command::Configure(config),
            None => Command::Nothing,
        }
    }

    /// Decides what to do with the frame whose acquire ended in `outcome`.
    pub fn frame_acquired(&mut self, outcome: AcquireOutcome) -> (r: FrameAction<F>)
        requires
            loop_wf(old(self)@),
        ensures
            (final(self)@, r) == spec_on_frame(old(self)@, outcome),
            loop_wf(final(self)@),
    {
        if !self.running {
            return FrameAction::Skip;
        }
        match outcome {
            AcquireOutcome::Acquired => FrameAction::Draw,
            AcquireOutcome::Lost => match self.surface.reconfigure() {
                Some(config) => FrameAction::Reconfigure(config),
                None => FrameAction::Skip,
            },
            AcquireOutcome::OutOfMemory => {
                self.running = false;
                FrameAction::Exit
            },
            AcquireOutcome::Outdated => FrameAction::Skip,
            AcquireOutcome::Timeout => FrameAction::Skip,
        }
    }
}


/// The commands a loop starting in `s` answers to `events`, one per event, in order.
pub open spec fn spec_commands<F>(s: LoopState<F>, events: Seq<Event>) -> Seq<Command<F>>
    decreases events.len(),
{
    if events.len() == 0 {
        Seq::empty()
    } else {
        let (t, c) = spec_on_event(s, events[0]);
        seq![c] + spec_commands(t, events.drop_first())
    }
}

/// A resize of the own window to a zero width or height, reported as a resize
/// (`resized`) or as a change of scale factor, changes nothing and asks for no
/// configuration; the loop stays well formed, so the next redraw and the
/// frame after it are decided as before the resize.
pub proof fn lemma_zero_resize_keeps_loop<F>(s: LoopState<F>, width: u32, height: u32, resized: bool)
    requires
        loop_wf(s),
        width == 0 || height == 0,
    ensures
        ({
            let event = if resized {
                WindowEvent::Resized { width, height }
            } else {
                WindowEvent::ScaleFactorChanged { width, height }
            };
            spec_on_event(s, Event::Window { own: true, event }) == (s, Command::<F>::Nothing)
        }),
        spec_on_event(s, Event::RedrawRequested { own: true }).1 is RenderFrame <==> s.running
            && s.surface.configured,
{
}

/// A lost surface on a frame draws nothing for that frame and configures the
/// surface exactly once, at the last known size; the next redraw renders, and an
/// acquire that then succeeds is drawn.
pub proof fn lemma_lost_surface_recovers<F>(s: LoopState<F>)
    requires
        loop_wf(s),
        s.running,
        s.surface.configured,
    ensures
        spec_on_frame(s, AcquireOutcome::Lost) == (s, FrameAction::Reconfigure(s.surface.config)),
        spec_on_event(s, Event::RedrawRequested { own: true }) == (s, Command::<F>::RenderFrame),
        spec_on_frame(s, AcquireOutcome::Acquired) == (s, FrameAction::<F>::Draw),
{
}

/// Out of memory on any frame stops the loop: that frame is not drawn, and from
/// then on no event leads to a frame, a redraw or a configuration, and no acquire
/// is drawn.
pub proof fn lemma_out_of_memory_stops<F>(
    s: LoopState<F>,
    events: Seq<Event>,
    outcome: AcquireOutcome,
)
    requires
        s.running,
    ensures
        spec_on_frame(s, AcquireOutcome::OutOfMemory).1 is Exit,
        !spec_on_frame(s, AcquireOutcome::OutOfMemory).0.running,
        spec_on_frame(spec_on_frame(s, AcquireOutcome::OutOfMemory).0, outcome).1 is Skip,
        forall|i: int|
            0 <= i < events.len() ==> #[trigger] spec_commands(
                spec_on_frame(s, AcquireOutcome::OutOfMemory).0,
                events,
            )[i] is Nothing,
{
    let t = spec_on_frame(s, AcquireOutcome::OutOfMemory).0;
    lemma_stopped_loop_is_inert(t, events);
}

/// A stopped loop answers every sequence of events with nothing, one per event.
pub proof fn lemma_stopped_loop_is_inert<F>(s: LoopState<F>, events: Seq<Event>)
    requires
        !s.running,
    ensures
        spec_commands(s, events).len() == events.len(),
        forall|i: int| 0 <= i < events.len() ==> #[trigger] spec_commands(s, events)[i] is Nothing,
    decreases events.len(),
{
    if events.len() > 0 {
        lemma_stopped_loop_is_inert(s, events.drop_first());
        let rest = spec_commands(s, events.drop_first());
        assert forall|i: int| 0 <= i < events.len() implies #[trigger] spec_commands(
            s,
            events,
        )[i] is Nothing by {
            if i > 0 {
                assert(spec_commands(s, events)[i] == rest[i - 1]);
            }
        }
    }
}

} // verus!
