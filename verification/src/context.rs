//! The GPU context: the handles that every surface of the shell is made and drawn with.

use crate::error::WGPUContextError;
use vstd::prelude::*;

verus! {

/// `wgpu::Instance`, carried as an opaque value.
#[verifier::external_type_specification]
#[verifier::external_body]
pub struct ExInstance(wgpu::Instance);

/// `wgpu::Adapter`, carried as an opaque value.
#[verifier::external_type_specification]
#[verifier::external_body]
pub struct ExAdapter(wgpu::Adapter);

/// `wgpu::Device`, carried as an opaque value.
#[verifier::external_type_specification]
#[verifier::external_body]
pub struct ExDevice(wgpu::Device);

/// `wgpu::Queue`, carried as an opaque value.
#[verifier::external_type_specification]
#[verifier::external_body]
pub struct ExQueue(wgpu::Queue);

/// An instance, the adapter chosen on it, and the device and queue opened on the adapter.
pub struct WGPUContext {
    pub instance: wgpu::Instance,
    pub adapter: wgpu::Adapter,
    pub device: wgpu::Device,
    pub queue: wgpu::Queue,
}

impl WGPUContext {
    /// The context that comes of an adapter and of the answer to the request for its
    /// device: the four handles together, or the error of the request.
    pub open spec fn assembled(
        instance: wgpu::Instance,
        adapter: wgpu::Adapter,
        answer: Result<(wgpu::Device, wgpu::Queue), wgpu::RequestDeviceError>,
    ) -> Result<WGPUContext, WGPUContextError> {
        match answer {
            Ok((device, queue)) => Ok(WGPUContext { instance, adapter, device, queue }),
            Err(error) => Err(WGPUContextError::RequestDeviceError(error)),
        }
    }

    /// Puts the context together from its adapter and the answer to the request for
    /// the adapter's device.
    pub fn assemble(
        instance: wgpu::Instance,
        adapter: wgpu::Adapter,
        answer: Result<(wgpu::Device, wgpu::Queue), wgpu::RequestDeviceError>,
    ) -> (r: Result<Self, WGPUContextError>)
        ensures
            r == Self::assembled(instance, adapter, answer),
    {
        match answer {
            Ok((device, queue)) => Ok(WGPUContext { instance, adapter, device, queue }),
            Err(error) => Err(WGPUContextError::RequestDeviceError(error)),
        }
    }

    /// Puts the context together from an instance, the adapter that was found on it, if
    /// one was, and the device that `request_device` gets from that adapter. Without an
    /// adapter nothing is requested.
    pub fn new<F>(instance: wgpu::Instance, adapter: Option<wgpu::Adapter>, request_device: F) -> (r:
        Result<Self, WGPUContextError>) where
        F: FnOnce(&wgpu::Adapter) -> Result<(wgpu::Device, wgpu::Queue), wgpu::RequestDeviceError>,

        requires
            adapter matches Some(found) ==> request_device.requires((&found,)),
        ensures
            adapter is None ==> r == Err::<Self, WGPUContextError>(
                WGPUContextError::AdapterNotFound,
            ),
            adapter matches Some(found) ==> exists|
                answer: Result<(wgpu::Device, wgpu::Queue), wgpu::RequestDeviceError>,
            |
                #[trigger] request_device.ensures((&found,), answer) && r == Self::assembled(
                    instance,
                    found,
                    answer,
                ),
    {
        match adapter {
            None => Err(WGPUContextError::AdapterNotFound),
            Some(found) => {
                let answer = request_device(&found);
                Self::assemble(instance, found, answer)
            },
        }
    }
}

} // verus!
