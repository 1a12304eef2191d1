use vstd::prelude::*;

use crate::error::RenderError;

verus! {

/// How a ready image is presented to the surface.
#[derive(Clone, Copy, Debug, PartialEq, Eq, Structural)]
pub enum PresentMode {
    Fifo,
    FifoRelaxed,
    Immediate,
    Mailbox,
}

/// The stored surface configuration.
///
/// `format` is an opaque token for a presentation format: the window
/// collaborator numbers the formats the adapter reports and translates the
/// chosen token back when it reconfigures the real surface.
#[derive(Clone, Copy, Debug, PartialEq, Eq, Structural)]
pub struct SurfaceConfig {
    pub format: u32,
    pub width: u32,
    pub height: u32,
    pub present_mode: PresentMode,
}

/// Owner of the negotiated surface configuration.
///
/// The device, queue and surface handles themselves live with the window
/// collaborator; this context holds the one piece of their state the core's
/// rules read and update, the surface configuration.
#[derive(Debug)]
pub struct DeviceContext {
    pub config: SurfaceConfig,
    /// The number the next GPU object created from this context receives.
    /// Object numbers stand in for the underlying handles: the window
    /// collaborator keeps the real handle for each number it is told about.
    pub next_id: u64,
}

impl DeviceContext {
    /// Negotiates the initial surface configuration from the window size and
    /// the formats the adapter supports: the first supported format is the
    /// default, presentation is first-in-first-out. An adapter that reports
    /// no format at all is fatal.
    pub fn new(width: u32, height: u32, formats: &Vec<u32>) -> (r: Result<DeviceContext, RenderError>)
        ensures
            r is Err <==> formats@.len() == 0,
            r is Err ==> r == Err::<DeviceContext, RenderError>(RenderError::NoSurfaceFormat),
            r matches Ok(ctx) ==> ctx.config == (SurfaceConfig {
                format: formats@[0],
                width,
                height,
                present_mode: PresentMode::Fifo,
            }) && ctx.next_id == 1,
    {
        if formats.len() == 0 {
            Err(RenderError::NoSurfaceFormat)
        } else {
            Ok(DeviceContext {
                config: SurfaceConfig {
                    format: formats[0],
                    width,
                    height,
                    present_mode: PresentMode::Fifo,
                },
                next_id: 1,
            })
        }
    }

    /// Updates the stored configuration for a new framebuffer size and says
    /// which configuration the surface must be reconfigured with.
    ///
    /// A width or height of zero (a minimized-window transition) leaves the
    /// prior configuration untouched and asks for no reconfigure at all.
    pub fn resize(&mut self, width: u32, height: u32) -> (reconfigure: Option<SurfaceConfig>)
        ensures
            (width == 0 || height == 0) ==> *final(self) == *old(self) && reconfigure is None,
            (width > 0 && height > 0) ==> {
                &&& final(self).config == (SurfaceConfig { width, height, ..old(self).config })
                &&& reconfigure == Some(final(self).config)
                &&& final(self).next_id == old(self).next_id
            },
    {
        if width > 0 && height > 0 {
            self.config.width = width;
            self.config.height = height;
            Some(self.config)
        } else {
            None
        }
    }
}

} // verus!
