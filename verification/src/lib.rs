//! A GPU-style raster painting engine, verified.
//!
//! The engine keeps four same-sized image resources — Original, Base, Working
//! and Stencil — and composes them frame by frame: strokes are painted into
//! Working, Merge flattens Working into Base, Reset restores everything from
//! Original, and Export reads Base back for saving.  All GPU-facing work is
//! planned as an explicit command list whose layout/barrier protocol is
//! checked, while the pixel-level effect of every operation is carried out on
//! a CPU-resident model of the four buffers.  Windowing, device submission and
//! the panel UI are external collaborators that consume the command lists.

use vstd::prelude::*;

pub mod color;
pub mod coords;
pub mod editor;
pub mod gpu;
pub mod input;
pub mod kernel;
pub mod params;

verus! {

/// Top-level application shell: the fixed window configuration that the
/// external windowing layer is started with.
pub struct Application {
    /// Window width in pixels.
    pub window_width: u32,
    /// Window height in pixels.
    pub window_height: u32,
    /// Whether presentation waits for vertical sync.
    pub vsync: bool,
    /// Whether the frame rate is logged.
    pub log_fps: bool,
}

impl Application {
    /// The default shell configuration: a square window with vsync on.
    pub fn new() -> (a: Application)
        ensures
            a.window_width == 1180,
            a.window_height == 1180,
            a.vsync,
            a.log_fps,
    {
        Application { window_width: 1180, window_height: 1180, vsync: true, log_fps: true }
    }
}

} // verus!
