//! What the shell's decisions read of a window event and of a failed frame.

use crate::surface::PhysicalSize;
use vstd::prelude::*;
use winit::event::{Event, WindowEvent};
use winit::window::WindowId;

verus! {

/// `winit::window::WindowId`, carried as an opaque value.
#[verifier::external_type_specification]
#[verifier::external_body]
pub struct ExWindowId(WindowId);

/// `winit::event::Event`, carried as an opaque value.
#[verifier::external_type_specification]
#[verifier::external_body]
#[verifier::reject_recursive_types(T)]
pub struct ExEvent<T: 'static>(Event<T>);

/// `wgpu::SurfaceError`, carried as an opaque value.
#[verifier::external_type_specification]
#[verifier::external_body]
pub struct ExSurfaceError(wgpu::SurfaceError);

/// What an event means to the shell.
#[derive(Clone, Copy, Debug, PartialEq, Eq)]
pub enum Signal {
    /// The window is to be closed.
    CloseRequested(WindowId),
    /// The window's client area has this size now.
    Resized(WindowId, PhysicalSize),
    /// The window is to be drawn again.
    RedrawRequested(WindowId),
    /// Any other event: the shell does nothing about it.
    Ignored,
}

/// Why no frame could be acquired from a surface.
#[derive(Clone, Copy, Debug, PartialEq, Eq, Structural)]
pub enum SurfaceFault {
    Timeout,
    Outdated,
    Lost,
    OutOfMemory,
}

/// The integer that winit gives for a window id: what its `From<WindowId> for u64`
/// returns.
pub uninterp spec fn window_key(id: WindowId) -> u64;

/// The signal that an event carries: which of the three window events the shell
/// reacts to it is, with the window it names, or none of them.
pub uninterp spec fn signal_of(event: Event<()>) -> Signal;

/// Which of wgpu's four surface errors an error is.
pub uninterp spec fn fault_of(error: wgpu::SurfaceError) -> SurfaceFault;

/// Converts a window id with winit's `From<WindowId> for u64`. The integer depends on
/// the id alone, which is all that the contract says.
#[verifier::external_body]
pub(crate) fn key_of(id: WindowId) -> (r: u64)
    ensures
        r == window_key(id),
{
    u64::from(id)
}

/// Tells the variants of `winit::event::Event` apart: a `WindowEvent` that is
/// `CloseRequested`, `Resized` or `RedrawRequested` becomes the signal of that name
/// with the event's window id (and the new size), every other event `Ignored`.
#[verifier::external_body]
pub(crate) fn classify(event: &Event<()>) -> (r: Signal)
    ensures
        r == signal_of(*event),
{
    match event {
        Event::WindowEvent { window_id, event: WindowEvent::CloseRequested } => {
            Signal::CloseRequested(*window_id)
        },
        Event::WindowEvent { window_id, event: WindowEvent::Resized(size) } => {
            Signal::Resized(*window_id, PhysicalSize { width: size.width, height: size.height })
        },
        Event::WindowEvent { window_id, event: WindowEvent::RedrawRequested } => {
            Signal::RedrawRequested(*window_id)
        },
        _ => Signal::Ignored,
    }
}

/// Tells the variants of `wgpu::SurfaceError` apart, each becoming the fault of the
/// same name.
#[verifier::external_body]
pub(crate) fn fault(error: &wgpu::SurfaceError) -> (r: SurfaceFault)
    ensures
        r == fault_of(*error),
{
    match error {
        wgpu::SurfaceError::Timeout => SurfaceFault::Timeout,
        wgpu::SurfaceError::Outdated => SurfaceFault::Outdated,
        wgpu::SurfaceError::Lost => SurfaceFault::Lost,
        wgpu::SurfaceError::OutOfMemory => SurfaceFault::OutOfMemory,
    }
}

} // verus!
