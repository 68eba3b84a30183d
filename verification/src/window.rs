//! The host window as the render thread sees it: native handles and a pixel size.

use raw_window_handle::{HandleError, RawDisplayHandle, RawWindowHandle};
use vstd::prelude::*;

use crate::error::SetupError;
use crate::geometry::PixelSize;

verus! {

/// A platform's identifier of a window, from the `raw-window-handle` crate. It is carried,
/// never looked into.
#[verifier::external_type_specification]
#[verifier::external_body]
pub struct ExRawWindowHandle(raw_window_handle::RawWindowHandle);

/// A platform's identifier of a display, from the `raw-window-handle` crate. It is carried,
/// never looked into.
#[verifier::external_type_specification]
#[verifier::external_body]
pub struct ExRawDisplayHandle(raw_window_handle::RawDisplayHandle);

/// The reason a window gave for not handing out a handle, from the `raw-window-handle`
/// crate. Whatever the reason, the handle is unavailable.
#[verifier::external_type_specification]
#[verifier::external_body]
pub struct ExHandleError(raw_window_handle::HandleError);

/// What a GPU display and a window surface are created from: the window's native handles
/// and its size, which has no zero dimension.
#[derive(Clone, Copy, Debug, PartialEq, Eq)]
pub struct NativeTarget {
    pub window: RawWindowHandle,
    pub display: RawDisplayHandle,
    pub size: PixelSize,
}

/// What a window surface is built from: the options chosen beforehand, the window's native
/// handle, and a width and a height that are not zero.
#[derive(Debug, PartialEq, Eq)]
pub struct SurfaceRequest<B> {
    pub builder: B,
    pub window: RawWindowHandle,
    pub width: u32,
    pub height: u32,
}

/// Puts together what a window reported. Succeeds when both handles and the size are there
/// and the size has no zero dimension; anything else is `HandleUnavailable`. A zero
/// dimension is turned away, never clamped.
pub fn native_target(
    window: Result<RawWindowHandle, HandleError>,
    display: Result<RawDisplayHandle, HandleError>,
    size: Option<PixelSize>,
) -> (target: Result<NativeTarget, SetupError>)
    ensures
        match target {
            Ok(t) => window is Ok && window->Ok_0 == t.window && display is Ok && display->Ok_0
                == t.display && size == Some(t.size) && !t.size.has_zero_dimension(),
            Err(e) => e == SetupError::HandleUnavailable && (window is Err || display is Err
                || size is None || size->0.has_zero_dimension()),
        },
{
    match (window, display, size) {
        (Ok(window), Ok(display), Some(size)) => {
            if size.width == 0 || size.height == 0 {
                Err(SetupError::HandleUnavailable)
            } else {
                Ok(NativeTarget { window, display, size })
            }
        },
        _ => Err(SetupError::HandleUnavailable),
    }
}

/// Completes the request for a window surface from what the window reported. Succeeds
/// when the handle and the size are there and the size has no zero dimension; anything
/// else is `HandleUnavailable`.
pub fn surface_request<B>(
    builder: B,
    window: Result<RawWindowHandle, HandleError>,
    size: Option<PixelSize>,
) -> (request: Result<SurfaceRequest<B>, SetupError>)
    ensures
        match request {
            Ok(r) => r.builder == builder && window is Ok && window->Ok_0 == r.window && size
                == Some(PixelSize { width: r.width, height: r.height }) && r.width != 0
                && r.height != 0,
            Err(e) => e == SetupError::HandleUnavailable && (window is Err || size is None
                || size->0.has_zero_dimension()),
        },
{
    match (window, size) {
        (Ok(window), Some(size)) => {
            match size.non_zero() {
                Some((width, height)) => Ok(SurfaceRequest { builder, window, width, height }),
                None => Err(SetupError::HandleUnavailable),
            }
        },
        _ => Err(SetupError::HandleUnavailable),
    }
}

/// A host window that can be drawn into.
///
/// The three queries answer for the window as it is when they are asked: a window that is
/// not realized yet has no handles, and its size changes when it is resized.
pub trait GlWindow {
    /// The native window handle, once the window is realized.
    fn window_handle(&self) -> Result<RawWindowHandle, HandleError>;

    /// The native handle of the display the window is on, once the window is realized.
    fn display_handle(&self) -> Result<RawDisplayHandle, HandleError>;

    /// The size of the window's client area in physical pixels, if it can be told.
    fn inner_size(&self) -> Option<PixelSize>;

    /// Completes the attributes of a surface for this window, at its present size, from
    /// the options in `builder`.
    fn build_surface_attributes<B>(&self, builder: B) -> (attributes: Result<
        SurfaceRequest<B>,
        SetupError,
    >)
        default_ensures
            match attributes {
                Ok(a) => a.builder == builder && a.width != 0 && a.height != 0,
                Err(e) => e == SetupError::HandleUnavailable,
            },
    {
        let window = self.window_handle();
        let size = self.inner_size();
        surface_request(builder, window, size)
    }
}

/// Asks a window for its native handles and its size.
pub fn native_handles<W: GlWindow>(window: &W) -> (target: Result<NativeTarget, SetupError>)
    ensures
        match target {
            Ok(t) => !t.size.has_zero_dimension(),
            Err(e) => e == SetupError::HandleUnavailable,
        },
{
    let handle = window.window_handle();
    let display = window.display_handle();
    let size = window.inner_size();
    native_target(handle, display, size)
}

} // verus!
