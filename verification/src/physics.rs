use vstd::prelude::*;

verus! {

/// The set of conservation laws that a grid evolves.
#[derive(Clone, Copy, Debug, PartialEq, Eq, Structural)]
pub enum Model {
    Newtonian,
    Relativistic,
}

/// Display name of a model.
pub open spec fn model_name(m: Model) -> Seq<char> {
    match m {
        Model::Newtonian => "Newtonian"@,
        Model::Relativistic => "Special relativity"@,
    }
}

impl Model {
    pub fn name(self) -> (r: &'static str)
        ensures
            r@ == model_name(self),
    {
        match self {
            Model::Newtonian => "Newtonian",
            Model::Relativistic => "Special relativity",
        }
    }
}

/// How cells outside the box are filled.
#[derive(Clone, Copy, Debug, PartialEq, Eq, Structural)]
pub enum Boundary {
    Periodic,
    Outflow,
    Jet,
}

} // verus!
