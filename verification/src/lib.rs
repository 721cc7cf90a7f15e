//! The CPU side of a small line renderer: the configuration of the surface
//! that frames are shown on, the queue of line segments of one frame, and the
//! geometry that a single draw call takes.

use vstd::prelude::*;
use crate::surface::{preferred_format, preferred_format_of, SurfaceCapabilities, SurfaceConfiguration};

pub mod line;
pub mod mesh;
pub mod surface;

verus! {

/// The state of the presentation surface that the renderer draws to. The
/// host keeps the GPU handles; this is the configuration it applies to them.
pub struct Context {
    surface_config: SurfaceConfiguration,
}

impl View for Context {
    type V = SurfaceConfiguration;

    closed spec fn view(&self) -> SurfaceConfiguration {
        self.surface_config
    }
}

impl Context {
    /// Configures a surface of `width` by `height` pixels from what it
    /// offers: the preferred colour format, and the first presentation mode
    /// and alpha mode reported.
    pub fn new(width: u32, height: u32, capabilities: &SurfaceCapabilities) -> (ctx: Context)
        requires
            capabilities.usable(),
        ensures
            ctx@ == (SurfaceConfiguration {
                format: preferred_format_of(capabilities.formats@),
                width,
                height,
                present_mode: capabilities.present_modes@[0],
                alpha_mode: capabilities.alpha_modes@[0],
            }),
    {
        Context {
            surface_config: SurfaceConfiguration {
                format: preferred_format(&capabilities.formats),
                width,
                height,
                present_mode: capabilities.present_modes[0],
                alpha_mode: capabilities.alpha_modes[0],
            },
        }
    }

    /// Takes a new size for the surface. Both dimensions must exceed one
    /// pixel for the size to be stored; any other request is dropped and the
    /// configuration stays as it was. Returns whether the size was stored,
    /// that is, whether the surface has to be configured anew.
    pub fn resize(&mut self, new_width: u32, new_height: u32) -> (applied: bool)
        ensures
            applied == (new_width > 1 && new_height > 1),
            final(self)@ == old(self)@.resized(new_width, new_height),
            new_width <= 1 || new_height <= 1 ==> final(self)@ == old(self)@,
            new_width > 1 && new_height > 1 ==> {
                &&& final(self)@.width == new_width
                &&& final(self)@.height == new_height
            },
    {
        if new_width > 1 && new_height > 1 {
            self.surface_config.width = new_width;
            self.surface_config.height = new_height;
            true
        } else {
            false
        }
    }

    /// The configuration to apply to the surface.
    pub fn surface_config(&self) -> (config: &SurfaceConfiguration)
        ensures
            *config == self@,
    {
        &self.surface_config
    }

    /// The colour format that the surface is configured with.
    pub fn wgpu_surface_format(&self) -> (format: &wgpu::TextureFormat)
        ensures
            *format == self@.format,
    {
        &self.surface_config.format
    }
}

} // verus!
