use vstd::prelude::*;

verus! {

/// Tabs of the control window.
#[derive(Clone, Copy, Debug, PartialEq, Eq, Structural)]
pub enum Tab {
    Simulation,
    Rendering,
    Obstacles,
    Benchmark,
    Controls,
}

/// What dragging the mouse through the fluid does.
#[derive(Clone, Copy, Debug, PartialEq, Eq, Structural)]
pub enum MouseInteractionMode {
    Attract,
    Repel,
    Vortex,
    FluidJet,
}

} // verus!
