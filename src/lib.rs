//! A playground for neural cellular automata (NCA): the per-frame scheduling of
//! a double-buffered compute simulation, the generated kernel program, the packed
//! filter buffers and the brush overlay, as plain verified logic. The GPU, the
//! window and the user interface sit outside this library.
//!
//! Photosensitivity warning: the running simulation may flash rapidly.

pub mod bytes;
pub mod draw;
pub mod filter;
pub mod grid;
pub mod node;
pub mod presets;
pub mod settings;
pub mod shader;

use vstd::prelude::*;

use crate::grid::Grid;

verus! {

/// The file path, relative to the asset directory, of the generated kernel program.
pub const SHADER_ASSET_PATH: &'static str = "shaders/nca.wgsl";

/// Width of the simulation grid in cells.
pub const SIM_WIDTH: u32 = 1920;

/// Height of the simulation grid in cells.
pub const SIM_HEIGHT: u32 = 1080;

/// Side length of one square compute tile: the workgroup size of every kernel.
pub const WORKGROUP_SIZE: u32 = 8;

/// The playground as a whole: the automaton, its brush overlay, their controls
/// and the view onto the grid.
#[derive(Debug, Clone, Copy)]
pub struct NCAPlaygroundPlugin;

impl NCAPlaygroundPlugin {
    /// The simulation grid; its configured dimensions split evenly into tiles.
    pub fn grid(&self) -> (r: Grid)
        ensures
            r.wf(),
            r.width == SIM_WIDTH,
            r.height == SIM_HEIGHT,
    {
        Grid { width: SIM_WIDTH, height: SIM_HEIGHT }
    }
}

} // verus!
