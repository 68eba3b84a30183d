//! The render thread as a state machine.
//!
//! The thread that owns the GPU context alternates between outside work (a GPU call, an
//! engine call, a blocking receive) and a decision about what to do next. The decisions
//! live here: [`Coordinator::step`] takes the completion of the outstanding action and
//! answers with the next action. Whoever drives the coordinator performs each action on
//! one thread and reports how it ended.

use vstd::prelude::*;
use vstd::string::*;

use crate::engine::EngineEvent;
use crate::error::{Cause, SetupError};
use crate::geometry::{reinterpret_signed, to_signed, PixelSize};
use crate::resources::Resource;

verus! {

/// A notification pushed into the coordinator's channel from a foreign thread. It carries
/// no payload: the consumer queries the window and the engine afresh.
#[derive(Clone, Copy, Debug, PartialEq, Eq, Structural)]
pub enum Event {
    /// A new frame is ready to be drawn.
    Redraw,
    /// The playback engine has queued events.
    EngineSignal,
}

/// A way of binding to the platform's GPU API.
#[derive(Clone, Copy, Debug, PartialEq, Eq, Structural)]
pub enum ApiBinding {
    /// The platform's own acceleration path. Tried first.
    Native,
    /// The cross-platform path. Tried when the native one is unavailable.
    CrossPlatform,
}

/// What the driver is asked to do next.
#[derive(Clone, Copy, Debug, PartialEq, Eq, Structural)]
pub enum Action {
    /// Ask the host window for its native handles and its pixel size.
    ProbeWindow,
    /// Open the GPU display through the given binding.
    CreateDisplay { binding: ApiBinding },
    /// List the framebuffer configurations that fit the native window.
    SelectConfig,
    /// Create the window surface from the configuration at index `config`, at this size.
    CreateSurface { config: usize, size: PixelSize },
    /// Create the rendering context for the chosen configuration.
    CreateContext,
    /// Make the rendering context current on the calling thread.
    MakeCurrent,
    /// Create the playback engine with its start-up options.
    CreateEngine,
    /// Bind the engine's renderer to the current rendering context.
    CreateBridge,
    /// Register the frame-ready and the engine-wakeup callbacks.
    InstallCallbacks,
    /// Send the command that loads the media source.
    Load,
    /// Block until the channel yields its next event.
    Receive,
    /// Ask the window for its present pixel size.
    QuerySize,
    /// Draw the current video frame into `framebuffer`.
    Render { framebuffer: i32, width: i32, height: i32, flip_y: bool },
    /// Swap the surface's back buffer to the front.
    SwapBuffers,
    /// Take the next event from the engine's queue without blocking.
    PollEngine,
    /// Give up ownership of this resource.
    Release { resource: Resource },
    /// Nothing is left to do: return from the thread.
    Exit,
}

/// How the outstanding action ended.
#[derive(Clone, Debug, PartialEq, Eq)]
pub enum Completion {
    /// The action succeeded and has nothing to report.
    Done,
    /// The action failed.
    Failed,
    /// The window has both native handles and reports this size.
    Probed(PixelSize),
    /// This many framebuffer configurations fit the native window.
    Configs(usize),
    /// The channel yielded an event, or `None` once every sender is gone.
    Received(Option<Event>),
    /// The window reports this size, or `None` if it could not be asked.
    Measured(Option<PixelSize>),
    /// The engine's queue yielded an event, or `None` when it is empty.
    Polled(Option<EngineEvent>),
}

/// Where the coordinator stands: which action it is waiting on.
#[derive(Clone, Copy, Debug, PartialEq, Eq, Structural)]
pub enum Phase {
    /// Waiting for the window's handles and size.
    Probing,
    /// Waiting for the display to open through `binding`; the window has the size `size`.
    OpeningDisplay { size: PixelSize, binding: ApiBinding },
    /// Waiting for the list of configurations that fit the window.
    SelectingConfig { size: PixelSize },
    /// Waiting for the window surface.
    CreatingSurface,
    /// Waiting for the rendering context.
    CreatingContext,
    /// Waiting for the context to become current.
    Activating,
    /// Waiting for the playback engine.
    StartingEngine,
    /// Waiting for the render bridge.
    BindingBridge,
    /// Waiting for the two callbacks to be registered.
    InstallingCallbacks,
    /// Waiting for the engine's answer to the load command.
    Loading,
    /// Waiting for the channel.
    Idle,
    /// Waiting for the window's size, to draw a frame.
    Measuring,
    /// Waiting for the frame to be drawn.
    Rendering,
    /// Waiting for the back buffer to be presented.
    Presenting,
    /// Waiting for the engine's next queued event.
    Draining,
    /// Waiting for `resource` to be released, on the way out.
    Releasing { resource: Resource, cause: Cause },
    /// Everything is released.
    Terminated { cause: Cause },
}

/// The coarse state of the coordinator.
#[derive(Clone, Copy, Debug, PartialEq, Eq, Structural)]
pub enum Lifecycle {
    /// Acquiring the window, GPU and playback objects.
    Starting,
    /// Consuming events.
    Running,
    /// On the way out, or out. Nothing leads back from here.
    Terminating,
}

/// How loud a log line is.
#[derive(Clone, Copy, Debug, PartialEq, Eq, Structural)]
pub enum Severity {
    Info,
    Error,
}

/// A line for the log.
#[derive(Clone, Debug, PartialEq, Eq)]
pub struct LogLine {
    pub severity: Severity,
    pub message: String,
}

/// The answer to a completion: the next action, and a line for the log if there is one.
#[derive(Clone, Debug, PartialEq, Eq)]
pub struct Step {
    pub action: Action,
    pub log: Option<LogLine>,
}

/// The framebuffer that stands for the surface's back buffer.
pub const BACK_BUFFER: i32 = 0;

/// The request to draw a frame that fills a window of the given size. The image is flipped
/// vertically: the GPU's Y axis points up, a video's points down.
pub open spec fn render_action(size: PixelSize) -> Action {
    Action::Render {
        framebuffer: BACK_BUFFER,
        width: reinterpret_signed(size.width) as i32,
        height: reinterpret_signed(size.height) as i32,
        flip_y: true,
    }
}

impl Phase {
    /// The most recently constructed resource that is held in this phase, if any.
    pub open spec fn newest_held(self) -> Option<Resource> {
        match self {
            Phase::Probing => None,
            Phase::OpeningDisplay { .. } => None,
            Phase::SelectingConfig { .. } => Some(Resource::GpuDisplay),
            Phase::CreatingSurface => Some(Resource::GpuDisplay),
            Phase::CreatingContext => Some(Resource::WindowSurface),
            Phase::Activating => Some(Resource::RenderingContext),
            Phase::StartingEngine => Some(Resource::RenderingContext),
            Phase::BindingBridge => Some(Resource::PlaybackEngine),
            Phase::InstallingCallbacks => Some(Resource::RenderBridge),
            Phase::Loading => Some(Resource::RenderBridge),
            Phase::Idle => Some(Resource::RenderBridge),
            Phase::Measuring => Some(Resource::RenderBridge),
            Phase::Rendering => Some(Resource::RenderBridge),
            Phase::Presenting => Some(Resource::RenderBridge),
            Phase::Draining => Some(Resource::RenderBridge),
            Phase::Releasing { resource, .. } => resource.before(),
            Phase::Terminated { .. } => None,
        }
    }

    /// Why the coordinator is on its way out, once it is.
    pub open spec fn cause(self) -> Option<Cause> {
        match self {
            Phase::Releasing { cause, .. } => Some(cause),
            Phase::Terminated { cause } => Some(cause),
            _ => None,
        }
    }

    /// The coarse state this phase belongs to.
    pub open spec fn lifecycle(self) -> Lifecycle {
        match self {
            Phase::Idle | Phase::Measuring | Phase::Rendering | Phase::Presenting
            | Phase::Draining => Lifecycle::Running,
            Phase::Releasing { .. } | Phase::Terminated { .. } => Lifecycle::Terminating,
            _ => Lifecycle::Starting,
        }
    }
}

/// Leaving for good: release `newest` first if anything is held, else exit at once.
pub open spec fn leave(newest: Option<Resource>, cause: Cause) -> (Phase, Action) {
    match newest {
        Some(resource) => (Phase::Releasing { resource, cause }, Action::Release { resource }),
        None => (Phase::Terminated { cause }, Action::Exit),
    }
}

/// Leaving because a setup step failed.
pub open spec fn abort(newest: Option<Resource>, error: SetupError) -> (Phase, Action) {
    leave(newest, Cause::Setup(error))
}

/// The transition function: the phase and the action that follow `phase` when the
/// outstanding action ends with `input`.
pub open spec fn next(phase: Phase, input: Completion) -> (Phase, Action) {
    match phase {
        Phase::Probing => match input {
            Completion::Probed(size) => if size.has_zero_dimension() {
                abort(None, SetupError::HandleUnavailable)
            } else {
                (
                    Phase::OpeningDisplay { size, binding: ApiBinding::Native },
                    Action::CreateDisplay { binding: ApiBinding::Native },
                )
            },
            Completion::Failed => abort(None, SetupError::HandleUnavailable),
            _ => leave(None, Cause::OutOfTurn),
        },
        Phase::OpeningDisplay { size, binding } => match input {
            Completion::Done => (Phase::SelectingConfig { size }, Action::SelectConfig),
            Completion::Failed => match binding {
                ApiBinding::Native => (
                    Phase::OpeningDisplay { size, binding: ApiBinding::CrossPlatform },
                    Action::CreateDisplay { binding: ApiBinding::CrossPlatform },
                ),
                ApiBinding::CrossPlatform => abort(None, SetupError::DisplayInitFailed),
            },
            _ => leave(None, Cause::OutOfTurn),
        },
        Phase::SelectingConfig { size } => match input {
            Completion::Configs(count) => if count == 0 {
                abort(Some(Resource::GpuDisplay), SetupError::NoCompatibleConfig)
            } else if size.has_zero_dimension() {
                abort(Some(Resource::GpuDisplay), SetupError::HandleUnavailable)
            } else {
                (Phase::CreatingSurface, Action::CreateSurface { config: 0, size })
            },
            Completion::Failed => abort(
                Some(Resource::GpuDisplay),
                SetupError::NoCompatibleConfig,
            ),
            _ => leave(Some(Resource::GpuDisplay), Cause::OutOfTurn),
        },
        Phase::CreatingSurface => match input {
            Completion::Done => (Phase::CreatingContext, Action::CreateContext),
            Completion::Failed => abort(
                Some(Resource::GpuDisplay),
                SetupError::SurfaceCreationFailed,
            ),
            _ => leave(Some(Resource::GpuDisplay), Cause::OutOfTurn),
        },
        Phase::CreatingContext => match input {
            Completion::Done => (Phase::Activating, Action::MakeCurrent),
            Completion::Failed => abort(
                Some(Resource::WindowSurface),
                SetupError::ContextCreationFailed,
            ),
            _ => leave(Some(Resource::WindowSurface), Cause::OutOfTurn),
        },
        Phase::Activating => match input {
            Completion::Done => (Phase::StartingEngine, Action::CreateEngine),
            // A failed activation has consumed the context.
            Completion::Failed => abort(
                Some(Resource::WindowSurface),
                SetupError::ContextActivationFailed,
            ),
            _ => leave(Some(Resource::RenderingContext), Cause::OutOfTurn),
        },
        Phase::StartingEngine => match input {
            Completion::Done => (Phase::BindingBridge, Action::CreateBridge),
            Completion::Failed => abort(
                Some(Resource::RenderingContext),
                SetupError::EngineInitFailed,
            ),
            _ => leave(Some(Resource::RenderingContext), Cause::OutOfTurn),
        },
        Phase::BindingBridge => match input {
            Completion::Done => (Phase::InstallingCallbacks, Action::InstallCallbacks),
            Completion::Failed => abort(
                Some(Resource::PlaybackEngine),
                SetupError::BridgeInitFailed,
            ),
            _ => leave(Some(Resource::PlaybackEngine), Cause::OutOfTurn),
        },
        Phase::InstallingCallbacks => match input {
            Completion::Done => (Phase::Loading, Action::Load),
            _ => leave(Some(Resource::RenderBridge), Cause::OutOfTurn),
        },
        Phase::Loading => match input {
            Completion::Done => (Phase::Idle, Action::Receive),
            Completion::Failed => abort(
                Some(Resource::RenderBridge),
                SetupError::CommandRejected,
            ),
            _ => leave(Some(Resource::RenderBridge), Cause::OutOfTurn),
        },
        Phase::Idle => match input {
            Completion::Received(Some(Event::Redraw)) => (Phase::Measuring, Action::QuerySize),
            Completion::Received(Some(Event::EngineSignal)) => (
                Phase::Draining,
                Action::PollEngine,
            ),
            Completion::Received(None) => leave(
                Some(Resource::RenderBridge),
                Cause::ChannelClosed,
            ),
            _ => leave(Some(Resource::RenderBridge), Cause::OutOfTurn),
        },
        Phase::Measuring => match input {
            Completion::Measured(Some(size)) => (Phase::Rendering, render_action(size)),
            Completion::Measured(None) => leave(Some(Resource::RenderBridge), Cause::WindowLost),
            _ => leave(Some(Resource::RenderBridge), Cause::OutOfTurn),
        },
        Phase::Rendering => match input {
            Completion::Done => (Phase::Presenting, Action::SwapBuffers),
            Completion::Failed => leave(Some(Resource::RenderBridge), Cause::RenderFailed),
            _ => leave(Some(Resource::RenderBridge), Cause::OutOfTurn),
        },
        Phase::Presenting => match input {
            Completion::Done => (Phase::Idle, Action::Receive),
            Completion::Failed => leave(Some(Resource::RenderBridge), Cause::SwapFailed),
            _ => leave(Some(Resource::RenderBridge), Cause::OutOfTurn),
        },
        Phase::Draining => match input {
            Completion::Polled(None) => (Phase::Idle, Action::Receive),
            Completion::Polled(Some(EngineEvent::Other(_))) => (
                Phase::Draining,
                Action::PollEngine,
            ),
            Completion::Polled(Some(EngineEvent::EndOfMedia)) => leave(
                Some(Resource::RenderBridge),
                Cause::EndOfMedia,
            ),
            Completion::Polled(Some(EngineEvent::Error(_))) => leave(
                Some(Resource::RenderBridge),
                Cause::EngineError,
            ),
            _ => leave(Some(Resource::RenderBridge), Cause::OutOfTurn),
        },
        Phase::Releasing { resource, cause } => leave(resource.before(), cause),
        Phase::Terminated { cause } => (Phase::Terminated { cause }, Action::Exit),
    }
}

/// The line that is logged when `phase` receives `input`: severity and text. Only what the
/// engine reports while its queue is drained is logged.
pub open spec fn logged(phase: Phase, input: Completion) -> Option<(Severity, Seq<char>)> {
    match (phase, input) {
        (Phase::Draining, Completion::Polled(Some(EngineEvent::EndOfMedia))) => Some(
            (Severity::Info, "End of file detected. Exiting render thread."@),
        ),
        (Phase::Draining, Completion::Polled(Some(EngineEvent::Other(text)))) => Some(
            (Severity::Info, "Received MPV Event: "@ + text@),
        ),
        (Phase::Draining, Completion::Polled(Some(EngineEvent::Error(text)))) => Some(
            (Severity::Error, "MPV event error: "@ + text@),
        ),
        _ => None,
    }
}

impl Step {
    /// The log line of this step as severity and text.
    pub open spec fn log_view(self) -> Option<(Severity, Seq<char>)> {
        match self.log {
            Some(line) => Some((line.severity, line.message@)),
            None => None,
        }
    }
}

/// The state machine of the render thread.
#[derive(Clone, Copy, Debug, PartialEq, Eq)]
pub struct Coordinator {
    pub phase: Phase,
}

impl View for Coordinator {
    type V = Phase;

    open spec fn view(&self) -> Phase {
        self.phase
    }
}

fn quiet(action: Action) -> (step: Step)
    ensures
        step.action == action,
        step.log is None,
{
    Step { action, log: None }
}

impl Coordinator {
    /// A coordinator that has done nothing yet. Its first action is [`Coordinator::first_action`].
    pub fn new() -> (coordinator: Coordinator)
        ensures
            coordinator@ == Phase::Probing,
    {
        Coordinator { phase: Phase::Probing }
    }

    /// The action a fresh coordinator is waiting on.
    pub fn first_action() -> (action: Action)
        ensures
            action == Action::ProbeWindow,
    {
        Action::ProbeWindow
    }

    /// The phase the coordinator is in.
    pub fn phase(&self) -> (phase: Phase)
        ensures
            phase == self@,
    {
        self.phase
    }

    /// The coarse state the coordinator is in.
    pub fn lifecycle(&self) -> (state: Lifecycle)
        ensures
            state == self@.lifecycle(),
    {
        match self.phase {
            Phase::Idle | Phase::Measuring | Phase::Rendering | Phase::Presenting
            | Phase::Draining => Lifecycle::Running,
            Phase::Releasing { .. } | Phase::Terminated { .. } => Lifecycle::Terminating,
            _ => Lifecycle::Starting,
        }
    }

    /// Why the coordinator is terminating, once it is.
    pub fn cause(&self) -> (cause: Option<Cause>)
        ensures
            cause == self@.cause(),
    {
        match self.phase {
            Phase::Releasing { cause, .. } => Some(cause),
            Phase::Terminated { cause } => Some(cause),
            _ => None,
        }
    }

    fn leave(&mut self, newest: Option<Resource>, cause: Cause) -> (action: Action)
        ensures
            (final(self)@, action) == leave(newest, cause),
    {
        match newest {
            Some(resource) => {
                self.phase = Phase::Releasing { resource, cause };
                Action::Release { resource }
            },
            None => {
                self.phase = Phase::Terminated { cause };
                Action::Exit
            },
        }
    }

    fn advance(&mut self, phase: Phase, action: Action) -> (out: Action)
        ensures
            final(self)@ == phase,
            out == action,
    {
        self.phase = phase;
        action
    }

    /// Takes the completion of the outstanding action and answers with the next one.
    ///
    /// The phase and the action follow [`next`]; the log line follows [`logged`]. Every
    /// completion is accepted in every phase: one that does not answer the outstanding
    /// action ends the run with [`Cause::OutOfTurn`].
    pub fn step(&mut self, input: &Completion) -> (step: Step)
        ensures
            (final(self)@, step.action) == next(old(self)@, *input),
            step.log_view() == logged(old(self)@, *input),
    {
        let bridge = Some(Resource::RenderBridge);
        match self.phase {
            Phase::Probing => match input {
                Completion::Probed(size) => {
                    let size = *size;
                    if size.width == 0 || size.height == 0 {
                        quiet(self.leave(None, Cause::Setup(SetupError::HandleUnavailable)))
                    } else {
                        quiet(
                            self.advance(
                                Phase::OpeningDisplay { size, binding: ApiBinding::Native },
                                Action::CreateDisplay { binding: ApiBinding::Native },
                            ),
                        )
                    }
                },
                Completion::Failed => quiet(
                    self.leave(None, Cause::Setup(SetupError::HandleUnavailable)),
                ),
                _ => quiet(self.leave(None, Cause::OutOfTurn)),
            },
            Phase::OpeningDisplay { size, binding } => match input {
                Completion::Done => quiet(
                    self.advance(Phase::SelectingConfig { size }, Action::SelectConfig),
                ),
                Completion::Failed => match binding {
                    ApiBinding::Native => quiet(
                        self.advance(
                            Phase::OpeningDisplay { size, binding: ApiBinding::CrossPlatform },
                            Action::CreateDisplay { binding: ApiBinding::CrossPlatform },
                        ),
                    ),
                    ApiBinding::CrossPlatform => quiet(
                        self.leave(None, Cause::Setup(SetupError::DisplayInitFailed)),
                    ),
                },
                _ => quiet(self.leave(None, Cause::OutOfTurn)),
            },
            Phase::SelectingConfig { size } => {
                let display = Some(Resource::GpuDisplay);
                match input {
                    Completion::Configs(count) => {
                        if *count == 0 {
                            quiet(
                                self.leave(display, Cause::Setup(SetupError::NoCompatibleConfig)),
                            )
                        } else if size.width == 0 || size.height == 0 {
                            quiet(
                                self.leave(display, Cause::Setup(SetupError::HandleUnavailable)),
                            )
                        } else {
                            quiet(
                                self.advance(
                                    Phase::CreatingSurface,
                                    Action::CreateSurface { config: 0, size },
                                ),
                            )
                        }
                    },
                    Completion::Failed => quiet(
                        self.leave(display, Cause::Setup(SetupError::NoCompatibleConfig)),
                    ),
                    _ => quiet(self.leave(display, Cause::OutOfTurn)),
                }
            },
            Phase::CreatingSurface => {
                let display = Some(Resource::GpuDisplay);
                match input {
                    Completion::Done => quiet(
                        self.advance(Phase::CreatingContext, Action::CreateContext),
                    ),
                    Completion::Failed => quiet(
                        self.leave(display, Cause::Setup(SetupError::SurfaceCreationFailed)),
                    ),
                    _ => quiet(self.leave(display, Cause::OutOfTurn)),
                }
            },
            Phase::CreatingContext => {
                let surface = Some(Resource::WindowSurface);
                match input {
                    Completion::Done => quiet(
                        self.advance(Phase::Activating, Action::MakeCurrent),
                    ),
                    Completion::Failed => quiet(
                        self.leave(surface, Cause::Setup(SetupError::ContextCreationFailed)),
                    ),
                    _ => quiet(self.leave(surface, Cause::OutOfTurn)),
                }
            },
            Phase::Activating => match input {
                Completion::Done => quiet(
                    self.advance(Phase::StartingEngine, Action::CreateEngine),
                ),
                Completion::Failed => quiet(
                    self.leave(
                        Some(Resource::WindowSurface),
                        Cause::Setup(SetupError::ContextActivationFailed),
                    ),
                ),
                _ => quiet(self.leave(Some(Resource::RenderingContext), Cause::OutOfTurn)),
            },
            Phase::StartingEngine => {
                let context = Some(Resource::RenderingContext);
                match input {
                    Completion::Done => quiet(
                        self.advance(Phase::BindingBridge, Action::CreateBridge),
                    ),
                    Completion::Failed => quiet(
                        self.leave(context, Cause::Setup(SetupError::EngineInitFailed)),
                    ),
                    _ => quiet(self.leave(context, Cause::OutOfTurn)),
                }
            },
            Phase::BindingBridge => {
                let engine = Some(Resource::PlaybackEngine);
                match input {
                    Completion::Done => quiet(
                        self.advance(Phase::InstallingCallbacks, Action::InstallCallbacks),
                    ),
                    Completion::Failed => quiet(
                        self.leave(engine, Cause::Setup(SetupError::BridgeInitFailed)),
                    ),
                    _ => quiet(self.leave(engine, Cause::OutOfTurn)),
                }
            },
            Phase::InstallingCallbacks => match input {
                Completion::Done => quiet(self.advance(Phase::Loading, Action::Load)),
                _ => quiet(self.leave(bridge, Cause::OutOfTurn)),
            },
            Phase::Loading => match input {
                Completion::Done => quiet(self.advance(Phase::Idle, Action::Receive)),
                Completion::Failed => quiet(
                    self.leave(bridge, Cause::Setup(SetupError::CommandRejected)),
                ),
                _ => quiet(self.leave(bridge, Cause::OutOfTurn)),
            },
            Phase::Idle => match input {
                Completion::Received(Some(Event::Redraw)) => quiet(
                    self.advance(Phase::Measuring, Action::QuerySize),
                ),
                Completion::Received(Some(Event::EngineSignal)) => quiet(
                    self.advance(Phase::Draining, Action::PollEngine),
                ),
                Completion::Received(None) => quiet(self.leave(bridge, Cause::ChannelClosed)),
                _ => quiet(self.leave(bridge, Cause::OutOfTurn)),
            },
            Phase::Measuring => match input {
                Completion::Measured(Some(size)) => {
                    let action = Action::Render {
                        framebuffer: BACK_BUFFER,
                        width: to_signed(size.width),
                        height: to_signed(size.height),
                        flip_y: true,
                    };
                    quiet(self.advance(Phase::Rendering, action))
                },
                Completion::Measured(None) => quiet(self.leave(bridge, Cause::WindowLost)),
                _ => quiet(self.leave(bridge, Cause::OutOfTurn)),
            },
            Phase::Rendering => match input {
                Completion::Done => quiet(self.advance(Phase::Presenting, Action::SwapBuffers)),
                Completion::Failed => quiet(self.leave(bridge, Cause::RenderFailed)),
                _ => quiet(self.leave(bridge, Cause::OutOfTurn)),
            },
            Phase::Presenting => match input {
                Completion::Done => quiet(self.advance(Phase::Idle, Action::Receive)),
                Completion::Failed => quiet(self.leave(bridge, Cause::SwapFailed)),
                _ => quiet(self.leave(bridge, Cause::OutOfTurn)),
            },
            Phase::Draining => match input {
                Completion::Polled(None) => quiet(self.advance(Phase::Idle, Action::Receive)),
                Completion::Polled(Some(EngineEvent::Other(text))) => {
                    let message = String::from_str("Received MPV Event: ").concat(text.as_str());
                    let action = self.advance(Phase::Draining, Action::PollEngine);
                    Step { action, log: Some(LogLine { severity: Severity::Info, message }) }
                },
                Completion::Polled(Some(EngineEvent::EndOfMedia)) => {
                    let message = String::from_str(
                        "End of file detected. Exiting render thread.",
                    );
                    let action = self.leave(bridge, Cause::EndOfMedia);
                    Step { action, log: Some(LogLine { severity: Severity::Info, message }) }
                },
                Completion::Polled(Some(EngineEvent::Error(text))) => {
                    let message = String::from_str("MPV event error: ").concat(text.as_str());
                    let action = self.leave(bridge, Cause::EngineError);
                    Step { action, log: Some(LogLine { severity: Severity::Error, message }) }
                },
                _ => quiet(self.leave(bridge, Cause::OutOfTurn)),
            },
            Phase::Releasing { resource, cause } => {
                let earlier = resource.predecessor();
                quiet(self.leave(earlier, cause))
            },
            Phase::Terminated { .. } => quiet(Action::Exit),
        }
    }
}

} // verus!
