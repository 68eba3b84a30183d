//! Decision logic for playing a video into a window that belongs to someone else.
//!
//! A render thread owns a GPU display, a window surface, a rendering context, a playback
//! engine and the bridge between the engine's renderer and the context. Two callbacks, run
//! by threads of the engine, tell it through one channel that a frame is ready or that the
//! engine has events queued. This crate holds what that thread decides: in which order the
//! objects are built, which failure ends the run and how, what is done for each event, and
//! in which order everything is given up again. It performs no GPU or engine call itself.
//!
//! - [`coordinator`]: the thread as a state machine, from the first probe of the window
//!   to the release of the last object.
//! - [`trace`], [`script`]: whole runs of that machine, and theorems about all of them.
//! - [`window`]: native handles and sizes of the host window.
//! - [`geometry`], [`symbol`], [`engine`], [`resources`], [`error`]: the values the machine
//!   speaks of.
//! - [`greeting`]: the greeting command.

pub mod coordinator;
pub mod engine;
pub mod error;
pub mod geometry;
pub mod greeting;
pub mod resources;
pub mod script;
pub mod symbol;
pub mod trace;
pub mod window;
