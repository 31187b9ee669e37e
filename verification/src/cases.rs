use vstd::prelude::*;
use crate::physics::{Boundary, Model};
use crate::text::same_text;

verus! {

/// The four experiments of the observatory.
#[derive(Clone, Copy, Debug, PartialEq, Eq, Structural)]
pub enum Scene {
    Jet,
    Blast,
    Shear,
    Shock,
}

/// Command-line identifier of a scene.
pub open spec fn scene_id(s: Scene) -> Seq<char> {
    match s {
        Scene::Jet => "jet"@,
        Scene::Blast => "blast"@,
        Scene::Shear => "shear"@,
        Scene::Shock => "shock"@,
    }
}

/// Headline of a scene.
pub open spec fn scene_title(s: Scene) -> Seq<char> {
    match s {
        Scene::Jet => "Beyond the sound barrier"@,
        Scene::Blast => "Anatomy of an explosion"@,
        Scene::Shear => "The birth of a vortex"@,
        Scene::Shock => "When pressure breaks free"@,
    }
}

/// Menu label of a scene.
pub open spec fn scene_label(s: Scene) -> Seq<char> {
    match s {
        Scene::Jet => "01   Relativistic jet"@,
        Scene::Blast => "02   Spherical blast"@,
        Scene::Shear => "03   Shear instability"@,
        Scene::Shock => "04   Shock tube"@,
    }
}

/// Explanation of a scene.
pub open spec fn scene_description(s: Scene) -> Seq<char> {
    match s {
        Scene::Jet => "A narrow beam meets a quiet gas. A bow shock compresses the ambient medium while a hot cocoon expands around the beam."@,
        Scene::Blast => "A small pocket of high pressure launches a spherical shock. Energy flows outward; the center cools as it expands."@,
        Scene::Shear => "Two layers slide past each other. A small transverse perturbation grows into Kelvin–Helmholtz rolls and mixes their boundary."@,
        Scene::Shock => "Remove a diaphragm between two gases. A shock, a contact discontinuity and a rarefaction fan emerge from one pressure jump."@,
    }
}

/// The model a scene starts with: relativity for the jet and the blast.
pub open spec fn scene_default_model(s: Scene) -> Model {
    match s {
        Scene::Jet | Scene::Blast => Model::Relativistic,
        _ => Model::Newtonian,
    }
}

/// The scenes in menu order.
pub open spec fn scene_order() -> Seq<Scene> {
    seq![Scene::Jet, Scene::Blast, Scene::Shear, Scene::Shock]
}

/// The first scene in menu order whose identifier is `t`.
pub open spec fn scene_named(t: Seq<char>) -> Option<Scene> {
    if t == scene_id(Scene::Jet) {
        Some(Scene::Jet)
    } else if t == scene_id(Scene::Blast) {
        Some(Scene::Blast)
    } else if t == scene_id(Scene::Shear) {
        Some(Scene::Shear)
    } else if t == scene_id(Scene::Shock) {
        Some(Scene::Shock)
    } else {
        None
    }
}

/// Position of a scene in menu order.
pub open spec fn scene_position(s: Scene) -> int {
    match s {
        Scene::Jet => 0,
        Scene::Blast => 1,
        Scene::Shear => 2,
        Scene::Shock => 3,
    }
}

impl Scene {
    /// All scenes, in menu order.
    pub fn all() -> (r: [Scene; 4])
        ensures
            r@ == scene_order(),
    {
        let r = [Scene::Jet, Scene::Blast, Scene::Shear, Scene::Shock];
        assert(r@ =~= scene_order());
        r
    }

    pub fn id(self) -> (r: &'static str)
        ensures
            r@ == scene_id(self),
    {
        match self {
            Scene::Jet => "jet",
            Scene::Blast => "blast",
            Scene::Shear => "shear",
            Scene::Shock => "shock",
        }
    }

    pub fn title(self) -> (r: &'static str)
        ensures
            r@ == scene_title(self),
    {
        match self {
            Scene::Jet => "Beyond the sound barrier",
            Scene::Blast => "Anatomy of an explosion",
            Scene::Shear => "The birth of a vortex",
            Scene::Shock => "When pressure breaks free",
        }
    }

    pub fn label(self) -> (r: &'static str)
        ensures
            r@ == scene_label(self),
    {
        match self {
            Scene::Jet => "01   Relativistic jet",
            Scene::Blast => "02   Spherical blast",
            Scene::Shear => "03   Shear instability",
            Scene::Shock => "04   Shock tube",
        }
    }

    pub fn description(self) -> (r: &'static str)
        ensures
            r@ == scene_description(self),
    {
        match self {
            Scene::Jet => "A narrow beam meets a quiet gas. A bow shock compresses the ambient medium while a hot cocoon expands around the beam.",
            Scene::Blast => "A small pocket of high pressure launches a spherical shock. Energy flows outward; the center cools as it expands.",
            Scene::Shear => "Two layers slide past each other. A small transverse perturbation grows into Kelvin–Helmholtz rolls and mixes their boundary.",
            Scene::Shock => "Remove a diaphragm between two gases. A shock, a contact discontinuity and a rarefaction fan emerge from one pressure jump.",
        }
    }

    pub fn default_model(self) -> (r: Model)
        ensures
            r == scene_default_model(self),
    {
        match self {
            Scene::Jet | Scene::Blast => Model::Relativistic,
            _ => Model::Newtonian,
        }
    }

    /// The scene whose identifier is `s`, if any.
    pub fn parse(s: &str) -> (r: Option<Scene>)
        ensures
            r == scene_named(s@),
    {
        let all = Scene::all();
        let mut i: usize = 0;
        while i < 4
            invariant
                all@ == scene_order(),
                i <= 4,
                forall|k: int| 0 <= k < i ==> s@ != #[trigger] scene_id(scene_order()[k]),
            decreases 4 - i,
        {
            let candidate = all[i];
            if same_text(candidate.id(), s) {
                return Some(candidate);
            }
            i += 1;
        }
        None
    }

    /// Position of the scene in menu order.
    pub fn position(self) -> (r: usize)
        ensures
            r == scene_position(self),
            scene_order()[r as int] == self,
    {
        match self {
            Scene::Jet => 0,
            Scene::Blast => 1,
            Scene::Shear => 2,
            Scene::Shock => 3,
        }
    }

    /// The scene after this one in the guided tour, which cycles through the
    /// menu.
    pub fn next_in_tour(self) -> (r: Scene)
        ensures
            r == scene_order()[(scene_position(self) + 1) % 4],
    {
        let all = Scene::all();
        all[(self.position() + 1) % 4]
    }
}

/// How the box of a scene is closed: the shear layer is periodic, the jet
/// has its inlet, the others let the flow out.
pub open spec fn scene_boundary(s: Scene) -> Boundary {
    match s {
        Scene::Shear => Boundary::Periodic,
        Scene::Jet => Boundary::Jet,
        _ => Boundary::Outflow,
    }
}

pub fn boundary_for(scene: Scene) -> (r: Boundary)
    ensures
        r == scene_boundary(scene),
{
    match scene {
        Scene::Shear => Boundary::Periodic,
        Scene::Jet => Boundary::Jet,
        _ => Boundary::Outflow,
    }
}

/// Cells of the 3 x 2 x 2 box at transverse resolution `res`: `3 res / 2`
/// along the long axis, `res` across.
pub fn grid_cells(res: usize) -> (r: [usize; 3])
    requires
        res * 3 <= usize::MAX,
    ensures
        r[0] == res * 3 / 2,
        r[1] == res,
        r[2] == res,
{
    [res * 3 / 2, res, res]
}

/// Every scene is found again from its identifier.
pub proof fn law_parse_inverts_id(s: Scene)
    ensures
        scene_named(scene_id(s)) == Some(s),
{
    reveal_strlit("jet");
    reveal_strlit("blast");
    reveal_strlit("shear");
    reveal_strlit("shock");
    assert("jet"@.len() == 3);
    assert("blast"@[1] == 'l');
    assert("shear"@[1] == 'h');
    assert("shock"@[2] == 'o');
    assert("shear"@[2] == 'e');
}

/// Four tour steps bring every scene back to itself.
pub proof fn law_tour_cycles(s: Scene)
    ensures
        ({
            let n1 = scene_order()[(scene_position(s) + 1) % 4];
            let n2 = scene_order()[(scene_position(n1) + 1) % 4];
            let n3 = scene_order()[(scene_position(n2) + 1) % 4];
            let n4 = scene_order()[(scene_position(n3) + 1) % 4];
            n4 == s && n1 != s
        }),
{
}

/// The shear layer, and only it, is closed periodically on every axis; the
/// jet, and only it, has its inlet; the blast and the shock tube let the flow
/// out.
pub proof fn law_scene_boundaries(s: Scene)
    ensures
        (scene_boundary(s) == Boundary::Periodic) <==> (s == Scene::Shear),
        (scene_boundary(s) == Boundary::Jet) <==> (s == Scene::Jet),
        (scene_boundary(s) == Boundary::Outflow) <==> (s == Scene::Blast || s == Scene::Shock),
{
}

/// The jet and the blast start relativistic; the shear layer and the shock
/// tube start Newtonian.
pub proof fn law_relativistic_scenes(s: Scene)
    ensures
        (scene_default_model(s) == Model::Relativistic) <==> (s == Scene::Jet || s == Scene::Blast),
        (scene_default_model(s) == Model::Newtonian) <==> (s == Scene::Shear || s == Scene::Shock),
{
}

/// Each of the words `jet`, `blast`, `shear` and `shock` names its own
/// scene, and no other word names any.
pub proof fn law_scene_words(t: Seq<char>)
    ensures
        (scene_named(t) == Some(Scene::Jet)) <==> (t == "jet"@),
        (scene_named(t) == Some(Scene::Blast)) <==> (t == "blast"@),
        (scene_named(t) == Some(Scene::Shear)) <==> (t == "shear"@),
        (scene_named(t) == Some(Scene::Shock)) <==> (t == "shock"@),
        (scene_named(t) is None) <==> (t != "jet"@ && t != "blast"@ && t != "shear"@ && t
            != "shock"@),
{
    reveal_strlit("jet");
    reveal_strlit("blast");
    reveal_strlit("shear");
    reveal_strlit("shock");
    assert("jet"@.len() == 3);
    assert("blast"@[1] == 'l');
    assert("shear"@[1] == 'h');
    assert("shock"@[2] == 'o');
    assert("shear"@[2] == 'e');
}

/// The guided tour runs jet, blast, shear layer, shock tube, and back to
/// the jet.
pub proof fn law_tour_order()
    ensures
        scene_order()[(scene_position(Scene::Jet) + 1) % 4] == Scene::Blast,
        scene_order()[(scene_position(Scene::Blast) + 1) % 4] == Scene::Shear,
        scene_order()[(scene_position(Scene::Shear) + 1) % 4] == Scene::Shock,
        scene_order()[(scene_position(Scene::Shock) + 1) % 4] == Scene::Jet,
{
}

} // verus!
