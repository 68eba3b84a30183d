//! Why the render thread never started, or why it stopped.

use vstd::prelude::*;
use vstd::string::*;

verus! {

/// A failure while the thread acquires its window, GPU and playback objects. Each is fatal:
/// nothing is retried.
#[derive(Clone, Copy, Debug, PartialEq, Eq, Structural)]
pub enum SetupError {
    /// The window has no native handle yet, or reports a size with a zero dimension.
    HandleUnavailable,
    /// No GPU API binding could be opened for the display.
    DisplayInitFailed,
    /// The display offers no framebuffer configuration that fits the window.
    NoCompatibleConfig,
    /// The window surface could not be created.
    SurfaceCreationFailed,
    /// The rendering context could not be created.
    ContextCreationFailed,
    /// The rendering context could not be made current on this thread.
    ContextActivationFailed,
    /// The playback engine rejected one of its start-up options.
    EngineInitFailed,
    /// The engine's renderer rejected the GPU API or the symbol resolver.
    BridgeInitFailed,
    /// The engine refused the command that loads the media source.
    CommandRejected,
}

/// Why a coordinator left its running state.
#[derive(Clone, Copy, Debug, PartialEq, Eq, Structural)]
pub enum Cause {
    /// Setup failed before the event loop was entered.
    Setup(SetupError),
    /// The engine reported the end of the media.
    EndOfMedia,
    /// The engine reported an error event.
    EngineError,
    /// Drawing the frame failed.
    RenderFailed,
    /// Presenting the back buffer failed.
    SwapFailed,
    /// The window could no longer report its size.
    WindowLost,
    /// Every sender of the event channel is gone.
    ChannelClosed,
    /// A completion arrived that does not answer the outstanding action.
    OutOfTurn,
}

impl SetupError {
    /// The text of this error, as a view.
    pub open spec fn message(self) -> Seq<char> {
        match self {
            SetupError::HandleUnavailable => "window handle unavailable or zero-sized window"@,
            SetupError::DisplayInitFailed => "Failed to create glutin display"@,
            SetupError::NoCompatibleConfig => "No suitable config found"@,
            SetupError::SurfaceCreationFailed => "Failed to create window surface"@,
            SetupError::ContextCreationFailed => "Failed to create context"@,
            SetupError::ContextActivationFailed => "Failed to make context current"@,
            SetupError::EngineInitFailed => "Failed to create mpv instance with initializer"@,
            SetupError::BridgeInitFailed => "Failed creating render context"@,
            SetupError::CommandRejected => "loadfile command rejected"@,
        }
    }

    /// A human-readable line for this error.
    pub fn describe(&self) -> (text: String)
        ensures
            text@ == self.message(),
    {
        match self {
            SetupError::HandleUnavailable => String::from_str(
                "window handle unavailable or zero-sized window",
            ),
            SetupError::DisplayInitFailed => String::from_str("Failed to create glutin display"),
            SetupError::NoCompatibleConfig => String::from_str("No suitable config found"),
            SetupError::SurfaceCreationFailed => String::from_str(
                "Failed to create window surface",
            ),
            SetupError::ContextCreationFailed => String::from_str("Failed to create context"),
            SetupError::ContextActivationFailed => String::from_str(
                "Failed to make context current",
            ),
            SetupError::EngineInitFailed => String::from_str(
                "Failed to create mpv instance with initializer",
            ),
            SetupError::BridgeInitFailed => String::from_str("Failed creating render context"),
            SetupError::CommandRejected => String::from_str("loadfile command rejected"),
        }
    }
}

impl Cause {
    /// True for the one cause that is no fault: the media played to its end.
    pub open spec fn is_orderly(self) -> bool {
        self == Cause::EndOfMedia
    }

    /// Whether the thread stopped because playback finished rather than because something broke.
    pub fn orderly(&self) -> (b: bool)
        ensures
            b == self.is_orderly(),
    {
        match self {
            Cause::EndOfMedia => true,
            _ => false,
        }
    }
}

} // verus!
