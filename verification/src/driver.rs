//! The frame loop's decisions. The windowing system owns the loop itself: for
//! each event it delivers, [`FrameDriver::handle_event`] says what to do, and
//! after each frame [`FrameDriver::frame_finished`] says what follows from
//! how the frame went.

use vstd::prelude::*;
use crate::context::{ContextView, RenderContext};
use crate::error::{Recovery, RenderError};
use crate::event::{ElementState, Event, KeyCode, WindowEvent, WindowId};
use crate::size::Size;
use crate::surface::SurfaceConfig;

verus! {

/// The exit code of every way the frame loop ends.
pub const EXIT_CODE: i32 = 0;

/// Whether the frame loop goes on.
#[derive(Clone, Copy, Debug, PartialEq, Eq, Structural)]
pub enum ControlFlow {
    /// Begin the next iteration as soon as this one is over.
    Poll,
    /// Stop the loop and leave the process with this code. Once set, it
    /// stays.
    ExitWithCode(i32),
}

/// What the caller has to do after an event or a frame.
#[derive(Debug, PartialEq, Eq)]
pub enum Command<F, A> {
    /// Nothing.
    Idle,
    /// Ask the windowing system to have the window redrawn.
    RequestRedraw,
    /// Acquire the surface's next texture, draw the frame that
    /// [`RenderContext::render`] describes, present it, and report how it
    /// went to [`FrameDriver::frame_finished`].
    Render,
    /// Configure the surface with this configuration.
    Configure(SurfaceConfig<F, A>),
    /// Stop the event loop with this exit code.
    Exit(i32),
    /// Report the error to the user. Nothing else is to be done about it.
    Report(RenderError),
}

impl<F: Copy, A: Copy> Clone for Command<F, A> {
    fn clone(&self) -> (copy: Self)
        ensures
            copy == *self,
    {
        *self
    }
}

impl<F: Copy, A: Copy> Copy for Command<F, A> {

}

/// What reaches a driver: an event of the loop, or the outcome of a frame.
pub ghost enum Input {
    Event(Event),
    Frame(Result<(), RenderError>),
}

/// What a [`FrameDriver`] holds, as a mathematical value.
pub ghost struct DriverView<F, A> {
    pub context: ContextView<F, A>,
    /// The window whose frames are driven.
    pub window: WindowId,
    pub control_flow: ControlFlow,
}

impl<F, A> DriverView<F, A> {
    /// The context is well-formed; window and control flow may be anything.
    pub open spec fn wf(self) -> bool {
        self.context.wf()
    }

    /// Whether the loop has not been told to stop.
    pub open spec fn running(self) -> bool {
        self.control_flow is Poll
    }

    /// The driver of a context that has just been set up.
    pub open spec fn started(context: ContextView<F, A>, window: WindowId) -> Self {
        DriverView { context, window, control_flow: ControlFlow::Poll }
    }

    /// The window reported `size`: the context takes it over if it has
    /// area, and the surface is then to be configured for it.
    pub open spec fn resized(self, size: Size) -> (Self, Command<F, A>) {
        let next = DriverView { context: self.context.resize(size), ..self };
        if size.has_area() {
            (next, Command::Configure(next.context.config))
        } else {
            (next, Command::Idle)
        }
    }

    /// The loop was told to stop.
    pub open spec fn stopped(self) -> (Self, Command<F, A>) {
        (
            DriverView { control_flow: ControlFlow::ExitWithCode(EXIT_CODE), ..self },
            Command::Exit(EXIT_CODE),
        )
    }

    /// What an event for the driven window leads to, while the loop runs.
    pub open spec fn on_window_event(self, event: WindowEvent) -> (Self, Command<F, A>) {
        if let Some(size) = event.announced_size() {
            self.resized(size)
        } else if event.asks_to_quit() {
            self.stopped()
        } else {
            (self, Command::Idle)
        }
    }

    /// The state after `event` and the command it leads to. Nothing happens
    /// once the loop has been told to stop, nor on events for other windows.
    pub open spec fn on_event(self, event: Event) -> (Self, Command<F, A>) {
        if !self.running() {
            (self, Command::Idle)
        } else {
            match event {
                Event::MainEventsCleared => (self, Command::RequestRedraw),
                Event::RedrawRequested { window } => if window == self.window {
                    (self, Command::Render)
                } else {
                    (self, Command::Idle)
                },
                Event::WindowEvent { window, event } => if window == self.window {
                    self.on_window_event(event)
                } else {
                    (self, Command::Idle)
                },
                Event::Other => (self, Command::Idle),
            }
        }
    }

    /// The state after `input` and the command it leads to.
    pub open spec fn on_input(self, input: Input) -> (Self, Command<F, A>) {
        match input {
            Input::Event(event) => self.on_event(event),
            Input::Frame(outcome) => self.on_frame(outcome),
        }
    }

    /// The state after `inputs`, taken one after the other.
    pub open spec fn after(self, inputs: Seq<Input>) -> Self
        decreases inputs.len(),
    {
        if inputs.len() == 0 {
            self
        } else {
            self.after(inputs.drop_last()).on_input(inputs.last()).0
        }
    }

    /// The state after a frame that went as `outcome` says, and the command
    /// that follows from it, by the error's recovery policy.
    pub open spec fn on_frame(self, outcome: Result<(), RenderError>) -> (Self, Command<F, A>) {
        if !self.running() {
            (self, Command::Idle)
        } else {
            match outcome {
                Ok(_) => (self, Command::Idle),
                Err(error) => match error.recovery_spec() {
                    Recovery::Reconfigure => self.resized(self.context.size),
                    Recovery::Terminate => self.stopped(),
                    Recovery::Retry => (self, Command::Report(error)),
                },
            }
        }
    }
}

/// Drives the frames of one window.
pub struct FrameDriver<F, A> {
    context: RenderContext<F, A>,
    window: WindowId,
    control_flow: ControlFlow,
}

impl<F, A> View for FrameDriver<F, A> {
    type V = DriverView<F, A>;

    closed spec fn view(&self) -> DriverView<F, A> {
        DriverView {
            context: self.context@,
            window: self.window,
            control_flow: self.control_flow,
        }
    }
}

impl<F: Copy, A: Copy> FrameDriver<F, A> {
    /// Starts driving `window` with a context that has been set up for it.
    pub fn new(context: RenderContext<F, A>, window: WindowId) -> (driver: Self)
        ensures
            driver@ == DriverView::started(context@, window),
            driver@.wf(),
    {
        proof {
            use_type_invariant(&context);
        }
        FrameDriver { context, window, control_flow: ControlFlow::Poll }
    }

    /// The context behind the frames.
    pub fn context(&self) -> (context: &RenderContext<F, A>)
        ensures
            context@ == self@.context,
            self@.wf(),
    {
        proof {
            use_type_invariant(&self.context);
        }
        &self.context
    }

    /// The window whose frames are driven.
    pub fn window(&self) -> (window: WindowId)
        ensures
            window == self@.window,
    {
        self.window
    }

    /// Whether the loop goes on or stops, and with which code.
    pub fn control_flow(&self) -> (control_flow: ControlFlow)
        ensures
            control_flow == self@.control_flow,
    {
        self.control_flow
    }

    fn resized(&mut self, size: Size) -> (command: Command<F, A>)
        ensures
            (final(self)@, command) == old(self)@.resized(size),
            final(self)@.wf(),
    {
        match self.context.resize(size) {
            Some(config) => Command::Configure(config),
            None => Command::Idle,
        }
    }

    fn stopped(&mut self) -> (command: Command<F, A>)
        ensures
            (final(self)@, command) == old(self)@.stopped(),
            final(self)@.wf(),
    {
        proof {
            use_type_invariant(&self.context);
        }
        self.control_flow = ControlFlow::ExitWithCode(EXIT_CODE);
        Command::Exit(EXIT_CODE)
    }

    fn handle_window_event(&mut self, event: &WindowEvent) -> (command: Command<F, A>)
        ensures
            (final(self)@, command) == old(self)@.on_window_event(*event),
            final(self)@.wf(),
    {
        proof {
            use_type_invariant(&self.context);
        }
        if self.context.input(event) {
            return Command::Idle;
        }
        match *event {
            WindowEvent::Resized(size) => self.resized(size),
            WindowEvent::ScaleFactorChanged { new_inner_size } => self.resized(new_inner_size),
            WindowEvent::CloseRequested => self.stopped(),
            WindowEvent::KeyboardInput {
                state: ElementState::Released,
                key: Some(KeyCode::Escape),
            } => self.stopped(),
            _ => Command::Idle,
        }
    }

    /// Takes one event of the windowing system's loop and says what to do
    /// about it.
    ///
    /// While the loop runs: when the pending events are through, a redraw is
    /// requested; a redraw request for the driven window leads to a frame; a
    /// new size of that window goes to the context, and the surface is to be
    /// configured for it if it has area; a request to close the window, or
    /// the escape key coming up in it, stops the loop with [`EXIT_CODE`].
    /// Everything else, and everything after the loop was stopped, leads to
    /// nothing.
    pub fn handle_event(&mut self, event: &Event) -> (command: Command<F, A>)
        ensures
            (final(self)@, command) == old(self)@.on_event(*event),
            final(self)@.wf(),
    {
        proof {
            use_type_invariant(&self.context);
        }
        match self.control_flow {
            ControlFlow::ExitWithCode(_) => {
                return Command::Idle;
            },
            ControlFlow::Poll => {},
        }
        match *event {
            Event::MainEventsCleared => Command::RequestRedraw,
            Event::RedrawRequested { window } => {
                if window == self.window {
                    self.context.update();
                    Command::Render
                } else {
                    Command::Idle
                }
            },
            Event::WindowEvent { window, event } => {
                if window == self.window {
                    self.handle_window_event(&event)
                } else {
                    Command::Idle
                }
            },
            Event::Other => Command::Idle,
        }
    }

    /// Takes the outcome of the frame that [`Command::Render`] asked for and
    /// says what follows from it.
    ///
    /// A frame that was presented needs nothing. A lost surface is to be
    /// configured again, once, for the context's current size. Running out
    /// of memory stops the loop with [`EXIT_CODE`]. Any other error is to be
    /// reported; the state stays as it is and the next frame is rendered as
    /// usual.
    pub fn frame_finished(&mut self, outcome: Result<(), RenderError>) -> (command: Command<F, A>)
        ensures
            (final(self)@, command) == old(self)@.on_frame(outcome),
            final(self)@.wf(),
    {
        proof {
            use_type_invariant(&self.context);
        }
        match self.control_flow {
            ControlFlow::ExitWithCode(_) => {
                return Command::Idle;
            },
            ControlFlow::Poll => {},
        }
        match outcome {
            Ok(_) => Command::Idle,
            Err(error) => match error.recovery() {
                Recovery::Reconfigure => {
                    let size = self.context.size();
                    self.resized(size)
                },
                Recovery::Terminate => self.stopped(),
                Recovery::Retry => Command::Report(error),
            },
        }
    }
}

/// Every event and every frame outcome leaves the surface configured for
/// the window's last size with area.
pub proof fn lemma_steps_keep_wf<F, A>(
    driver: DriverView<F, A>,
    event: Event,
    outcome: Result<(), RenderError>,
)
    requires
        driver.wf(),
    ensures
        driver.on_event(event).0.wf(),
        driver.on_frame(outcome).0.wf(),
{
}

/// The surface is only ever to be configured with the configuration the
/// context holds afterwards, which has area: no event and no frame outcome
/// leads to an empty surface.
pub proof fn lemma_configured_surface_has_area<F, A>(
    driver: DriverView<F, A>,
    event: Event,
    outcome: Result<(), RenderError>,
)
    requires
        driver.wf(),
    ensures
        driver.on_event(event).1 matches Command::Configure(config) ==> config.size().has_area()
            && config == driver.on_event(event).0.context.config,
        driver.on_frame(outcome).1 matches Command::Configure(config) ==> config.size().has_area()
            && config == driver.on_frame(outcome).0.context.config,
{
}

/// A new size of the driven window, however it is announced, reaches the
/// context before anything else happens: a size with area is what the
/// surface is to be configured for, at once; a size without area changes
/// nothing and configures nothing.
pub proof fn lemma_new_size_is_applied<F, A>(
    driver: DriverView<F, A>,
    announcement: WindowEvent,
    size: Size,
)
    requires
        driver.running(),
        announcement.announced_size() == Some(size),
    ensures
        ({
            let event = Event::WindowEvent { window: driver.window, event: announcement };
            let (next, command) = driver.on_event(event);
            &&& next.context == driver.context.resize(size)
            &&& next.control_flow == driver.control_flow
            &&& size.has_area() ==> next.context.size == size && command == Command::Configure(
                driver.context.config.with_size(size),
            )
            &&& !size.has_area() ==> next == driver && command == Command::<F, A>::Idle
        }),
{
}

/// When the surface is lost, the answer is one command: configure the
/// surface again, for the size the context holds. The state itself stays as
/// it is, and the next redraw request renders as usual.
pub proof fn lemma_lost_surface_is_reconfigured<F, A>(driver: DriverView<F, A>)
    requires
        driver.wf(),
        driver.running(),
    ensures
        driver.on_frame(Err(RenderError::Lost)) == driver.resized(driver.context.size),
        driver.on_frame(Err(RenderError::Lost)) == (
            driver,
            Command::Configure(driver.context.config),
        ),
        driver.context.config.size() == driver.context.size,
        driver.on_event(Event::RedrawRequested { window: driver.window }) == (
            driver,
            Command::<F, A>::Render,
        ),
{
}

/// Running out of memory stops the loop with exit code 0 and touches
/// nothing else. Whatever event arrives afterwards, no frame is rendered
/// for it.
pub proof fn lemma_out_of_memory_stops_the_loop<F, A>(driver: DriverView<F, A>, later: Event)
    requires
        driver.running(),
    ensures
        ({
            let (next, command) = driver.on_frame(Err(RenderError::OutOfMemory));
            &&& command == Command::<F, A>::Exit(0)
            &&& next.control_flow == ControlFlow::ExitWithCode(0)
            &&& next.context == driver.context
            &&& next.window == driver.window
            &&& next.on_event(later) == (next, Command::<F, A>::Idle)
        }),
{
}

/// Once the loop has been told to stop, nothing leads to anything any more:
/// whatever event or frame outcome arrives, the state stays as it is and the
/// command is to do nothing. In particular no frame is rendered again.
pub proof fn lemma_nothing_happens_after_exit<F, A>(
    driver: DriverView<F, A>,
    event: Event,
    outcome: Result<(), RenderError>,
)
    requires
        !driver.running(),
    ensures
        driver.on_event(event) == (driver, Command::<F, A>::Idle),
        driver.on_frame(outcome) == (driver, Command::<F, A>::Idle),
{
}

/// A loop that was told to stop stays stopped for good: whatever reaches the
/// driver from then on, in whatever order, its state stays as it is and the
/// command is to do nothing.
pub proof fn lemma_stopped_for_good<F, A>(driver: DriverView<F, A>, inputs: Seq<Input>, next: Input)
    requires
        !driver.running(),
    ensures
        driver.after(inputs) == driver,
        driver.after(inputs).on_input(next) == (driver, Command::<F, A>::Idle),
    decreases inputs.len(),
{
    if inputs.len() > 0 {
        lemma_stopped_for_good(driver, inputs.drop_last(), inputs.last());
    }
}

/// Whatever reaches a driver that was started on a well-formed context, it
/// keeps driving the same window, its context stays well-formed, and it
/// either still runs or has stopped with exit code 0: there is no other
/// way out.
pub proof fn lemma_reachable_states<F, A>(
    context: ContextView<F, A>,
    window: WindowId,
    inputs: Seq<Input>,
)
    requires
        context.wf(),
    ensures
        ({
            let reached = DriverView::started(context, window).after(inputs);
            &&& reached.wf()
            &&& reached.window == window
            &&& reached.running() || reached.control_flow == ControlFlow::ExitWithCode(0)
        }),
    decreases inputs.len(),
{
    if inputs.len() > 0 {
        lemma_reachable_states(context, window, inputs.drop_last());
    }
}

/// An error other than a lost surface or exhausted memory is reported and
/// nothing more: the state stays as it is, the loop goes on, and the next
/// redraw request renders as usual.
pub proof fn lemma_transient_error_is_reported<F, A>(driver: DriverView<F, A>, error: RenderError)
    requires
        driver.running(),
        error != RenderError::Lost,
        error != RenderError::OutOfMemory,
    ensures
        driver.on_frame(Err(error)) == (driver, Command::<F, A>::Report(error)),
        driver.on_event(Event::RedrawRequested { window: driver.window }) == (
            driver,
            Command::<F, A>::Render,
        ),
{
}

/// The loop stops on its own account in two ways only, and both leave
/// with exit code 0: a request to close the driven window or the escape key
/// coming up in it, and a frame that ran out of memory.
pub proof fn lemma_exit_only_with_code_zero<F, A>(
    driver: DriverView<F, A>,
    event: Event,
    outcome: Result<(), RenderError>,
)
    requires
        driver.running(),
    ensures
        !driver.on_event(event).0.running() <==> (event matches Event::WindowEvent {
            window,
            event: inner,
        } && window == driver.window && inner.asks_to_quit()),
        !driver.on_event(event).0.running() ==> driver.on_event(event) == driver.stopped(),
        !driver.on_frame(outcome).0.running() <==> outcome == Err::<(), RenderError>(
            RenderError::OutOfMemory,
        ),
        driver.stopped().1 == Command::<F, A>::Exit(0),
{
}

} // verus!
