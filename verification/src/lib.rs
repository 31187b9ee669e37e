//! Verified core of a compressible-flow and particle-fluid laboratory:
//! experiment catalogues, cell-grid indexing and boundary ghost cells,
//! the time-step retry policy, the simulation worker's control machine,
//! the particle neighbour grid, mesh index buffers, and benchmark
//! bookkeeping.

pub mod physics;
pub mod layout;
pub mod ghost;
pub mod spatial;
pub mod stepping;
pub mod control;
pub mod text;
pub mod cases;
mod clock;
pub mod observatory;
pub mod sph;
pub mod render;
pub mod ui;
pub mod benchmark;
pub mod numeral;
pub mod launch;
pub mod cli;
pub mod vtk;
pub mod mesh;
