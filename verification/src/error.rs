//! The errors of the shell.

use vstd::prelude::*;
use vstd::std_specs::convert::FromSpecImpl;

verus! {

/// `wgpu::RequestDeviceError`, carried as an opaque value.
#[verifier::external_type_specification]
#[verifier::external_body]
pub struct ExRequestDeviceError(wgpu::RequestDeviceError);

/// `wgpu::CreateSurfaceError`, carried as an opaque value.
#[verifier::external_type_specification]
#[verifier::external_body]
pub struct ExCreateSurfaceError(wgpu::CreateSurfaceError);

/// `winit::error::EventLoopError`, carried as an opaque value.
#[verifier::external_type_specification]
#[verifier::external_body]
pub struct ExEventLoopError(winit::error::EventLoopError);

/// `winit::error::OsError`, carried as an opaque value.
#[verifier::external_type_specification]
#[verifier::external_body]
pub struct ExOsError(winit::error::OsError);

/// Why no GPU context could be set up.
#[derive(Debug)]
pub enum WGPUContextError {
    /// No adapter matches the request.
    AdapterNotFound,
    /// The adapter refused to hand out a device.
    RequestDeviceError(wgpu::RequestDeviceError),
}

/// Why the application could not be set up.
#[derive(Debug)]
pub enum AppError {
    EventLoopError(winit::error::EventLoopError),
    WGPUContextError(WGPUContextError),
}

/// Why a window could not get its surface.
#[derive(Debug)]
pub enum WindowError {
    CreateSurfaceError(wgpu::CreateSurfaceError),
    /// The adapter cannot present to the surface.
    SurfaceNotSupported,
}

/// Why a window could not be created.
#[derive(Debug)]
pub enum CreateWindowError {
    OsError(winit::error::OsError),
    WindowError(WindowError),
}

impl From<wgpu::RequestDeviceError> for WGPUContextError {
    fn from(error: wgpu::RequestDeviceError) -> (r: Self) {
        WGPUContextError::RequestDeviceError(error)
    }
}

impl FromSpecImpl<wgpu::RequestDeviceError> for WGPUContextError {
    open spec fn obeys_from_spec() -> bool {
        true
    }

    open spec fn from_spec(error: wgpu::RequestDeviceError) -> Self {
        WGPUContextError::RequestDeviceError(error)
    }
}

impl From<winit::error::EventLoopError> for AppError {
    fn from(error: winit::error::EventLoopError) -> (r: Self) {
        AppError::EventLoopError(error)
    }
}

impl FromSpecImpl<winit::error::EventLoopError> for AppError {
    open spec fn obeys_from_spec() -> bool {
        true
    }

    open spec fn from_spec(error: winit::error::EventLoopError) -> Self {
        AppError::EventLoopError(error)
    }
}

impl From<WGPUContextError> for AppError {
    fn from(error: WGPUContextError) -> (r: Self) {
        AppError::WGPUContextError(error)
    }
}

impl FromSpecImpl<WGPUContextError> for AppError {
    open spec fn obeys_from_spec() -> bool {
        true
    }

    open spec fn from_spec(error: WGPUContextError) -> Self {
        AppError::WGPUContextError(error)
    }
}

impl From<wgpu::CreateSurfaceError> for WindowError {
    fn from(error: wgpu::CreateSurfaceError) -> (r: Self) {
        WindowError::CreateSurfaceError(error)
    }
}

impl FromSpecImpl<wgpu::CreateSurfaceError> for WindowError {
    open spec fn obeys_from_spec() -> bool {
        true
    }

    open spec fn from_spec(error: wgpu::CreateSurfaceError) -> Self {
        WindowError::CreateSurfaceError(error)
    }
}

impl From<winit::error::OsError> for CreateWindowError {
    fn from(error: winit::error::OsError) -> (r: Self) {
        CreateWindowError::OsError(error)
    }
}

impl FromSpecImpl<winit::error::OsError> for CreateWindowError {
    open spec fn obeys_from_spec() -> bool {
        true
    }

    open spec fn from_spec(error: winit::error::OsError) -> Self {
        CreateWindowError::OsError(error)
    }
}

impl From<WindowError> for CreateWindowError {
    fn from(error: WindowError) -> (r: Self) {
        CreateWindowError::WindowError(error)
    }
}

impl FromSpecImpl<WindowError> for CreateWindowError {
    open spec fn obeys_from_spec() -> bool {
        true
    }

    open spec fn from_spec(error: WindowError) -> Self {
        CreateWindowError::WindowError(error)
    }
}

} // verus!
