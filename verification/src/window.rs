//! One window of the shell: its surface, and the settings and size that the surface
//! was last given.

use crate::error::WindowError;
use crate::surface::{PhysicalSize, SurfaceCapabilities, SurfaceConfiguration};
use vstd::prelude::*;

verus! {

/// A window's surface of type `S`, which the shell owns and this crate never looks
/// into, with the settings to configure it by and the size of the window.
#[derive(Debug)]
pub struct Window<S> {
    pub surface: S,
    pub config: SurfaceConfiguration,
    pub size: PhysicalSize,
}

impl<S> Window<S> {
    /// The settings span exactly the window's size.
    pub open spec fn is_fitted(self) -> bool {
        self.config.width == self.size.width && self.config.height == self.size.height
    }

    /// The window after a resize to `new_size` was asked for: size and settings take
    /// the new extent when it is drawable, and nothing changes when it is not.
    pub open spec fn resized(self, new_size: PhysicalSize) -> Self {
        if new_size.is_drawable() {
            Window {
                surface: self.surface,
                config: self.config.with_extent(new_size),
                size: new_size,
            }
        } else {
            self
        }
    }

    /// Sets up the window around `surface`. `supported` says whether the adapter can
    /// present to the surface at all. If it can, `capabilities` lists what it supports
    /// there, and the settings are negotiated from them for a window of `size`.
    pub fn new(
        surface: S,
        size: PhysicalSize,
        supported: bool,
        capabilities: &SurfaceCapabilities,
    ) -> (r: Result<Self, WindowError>)
        requires
            supported ==> capabilities.is_usable(),
        ensures
            !supported ==> r == Err::<Self, WindowError>(WindowError::SurfaceNotSupported),
            supported ==> r is Ok,
            r matches Ok(window) ==> {
                &&& window.surface == surface
                &&& window.size == size
                &&& window.config.is_negotiated(*capabilities, size)
                &&& window.is_fitted()
            },
    {
        if !supported {
            return Err(WindowError::SurfaceNotSupported);
        }
        let config = SurfaceConfiguration::negotiate(capabilities, size);
        Ok(Window { surface, config, size })
    }

    /// Takes up a new size. A size with a zero side is ignored. Returns whether the
    /// surface is to be configured anew, which is so exactly when the size was taken up.
    pub fn resize(&mut self, new_size: PhysicalSize) -> (reconfigure: bool)
        ensures
            reconfigure == new_size.is_drawable(),
            *final(self) == old(self).resized(new_size),
            reconfigure ==> final(self).is_fitted(),
    {
        if new_size.width > 0 && new_size.height > 0 {
            self.size = new_size;
            self.config.width = new_size.width;
            self.config.height = new_size.height;
            true
        } else {
            false
        }
    }
}

} // verus!
