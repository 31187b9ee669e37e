use vstd::prelude::*;
use crate::cases::{Scene, scene_default_model};
use crate::physics::Model;
use crate::text::same_text;
use crate::numeral::{unsigned_numeral, parse_usize, parse_u64};

verus! {

/// The command-line options of the observatory.
#[derive(Clone, Copy, Debug, PartialEq, Eq, Structural)]
pub enum OptionKind {
    Help,
    Validate,
    Headless,
    Paused,
    Export,
    Smoke,
    Scene,
    Model,
    Resolution,
    JetSpeed,
    Steps,
    Capture,
    CaptureAfter,
    Unknown,
}

pub open spec fn option_kind(t: Seq<char>) -> OptionKind {
    if t == "--help"@ || t == "-h"@ {
        OptionKind::Help
    } else if t == "--validate"@ {
        OptionKind::Validate
    } else if t == "--headless"@ {
        OptionKind::Headless
    } else if t == "--paused"@ {
        OptionKind::Paused
    } else if t == "--export"@ {
        OptionKind::Export
    } else if t == "--smoke"@ {
        OptionKind::Smoke
    } else if t == "--scene"@ {
        OptionKind::Scene
    } else if t == "--model"@ {
        OptionKind::Model
    } else if t == "--resolution"@ {
        OptionKind::Resolution
    } else if t == "--jet-speed"@ {
        OptionKind::JetSpeed
    } else if t == "--steps"@ {
        OptionKind::Steps
    } else if t == "--capture"@ {
        OptionKind::Capture
    } else if t == "--capture-after"@ {
        OptionKind::CaptureAfter
    } else {
        OptionKind::Unknown
    }
}

/// Which option a command-line word names.
pub fn classify_option(arg: &str) -> (r: OptionKind)
    ensures
        r == option_kind(arg@),
{
    if same_text(arg, "--help") || same_text(arg, "-h") {
        OptionKind::Help
    } else if same_text(arg, "--validate") {
        OptionKind::Validate
    } else if same_text(arg, "--headless") {
        OptionKind::Headless
    } else if same_text(arg, "--paused") {
        OptionKind::Paused
    } else if same_text(arg, "--export") {
        OptionKind::Export
    } else if same_text(arg, "--smoke") {
        OptionKind::Smoke
    } else if same_text(arg, "--scene") {
        OptionKind::Scene
    } else if same_text(arg, "--model") {
        OptionKind::Model
    } else if same_text(arg, "--resolution") {
        OptionKind::Resolution
    } else if same_text(arg, "--jet-speed") {
        OptionKind::JetSpeed
    } else if same_text(arg, "--steps") {
        OptionKind::Steps
    } else if same_text(arg, "--capture") {
        OptionKind::Capture
    } else if same_text(arg, "--capture-after") {
        OptionKind::CaptureAfter
    } else {
        OptionKind::Unknown
    }
}

pub open spec fn model_for_word(t: Seq<char>) -> Option<Model> {
    if t == "newtonian"@ {
        Some(Model::Newtonian)
    } else if t == "relativistic"@ {
        Some(Model::Relativistic)
    } else {
        None
    }
}

/// The model named by the value of `--model`.
pub fn model_from_word(t: &str) -> (r: Option<Model>)
    ensures
        r == model_for_word(t@),
{
    if same_text(t, "newtonian") {
        Some(Model::Newtonian)
    } else if same_text(t, "relativistic") {
        Some(Model::Relativistic)
    } else {
        None
    }
}

/// Smallest and largest transverse grid resolution.
pub const MIN_RESOLUTION: usize = 8;
pub const MAX_RESOLUTION: usize = 64;

/// Why a `--resolution` value was refused.
#[derive(Debug)]
pub enum ResolutionError {
    /// The value is not an unsigned decimal numeral that fits `usize`.
    NotANumber(core::num::ParseIntError),
    /// The value lies outside 8..=64.
    OutOfRange,
}

/// The transverse resolution given by the value of `--resolution`.
pub fn parse_resolution(t: &str) -> (r: Result<usize, ResolutionError>)
    ensures
        r matches Ok(n) ==> unsigned_numeral(t@) == Some(n as int) && MIN_RESOLUTION <= n <= MAX_RESOLUTION,
        r matches Err(ResolutionError::OutOfRange) ==> unsigned_numeral(t@) matches Some(v)
            && v <= usize::MAX && !(MIN_RESOLUTION <= v <= MAX_RESOLUTION),
        r matches Err(ResolutionError::NotANumber(_)) ==> !(unsigned_numeral(t@) matches Some(v)
            && v <= usize::MAX),
{
    match parse_usize(t) {
        Ok(n) => {
            if MIN_RESOLUTION <= n && n <= MAX_RESOLUTION {
                Ok(n)
            } else {
                Err(ResolutionError::OutOfRange)
            }
        },
        Err(e) => Err(ResolutionError::NotANumber(e)),
    }
}

/// The number of headless steps given by the value of `--steps`.
pub fn parse_steps(t: &str) -> (r: Result<u64, core::num::ParseIntError>)
    ensures
        r is Ok <==> (unsigned_numeral(t@) matches Some(v) && v <= u64::MAX),
        r matches Ok(v) ==> unsigned_numeral(t@) == Some(v as int),
{
    parse_u64(t)
}

/// The message for an option that is not known.
pub fn unknown_option(arg: &str) -> (r: String)
    ensures
        r@ == "Unknown option: "@ + arg@ + "; use --help"@,
{
    String::from_str("Unknown option: ").concat(arg).concat("; use --help")
}

/// The experiment to open: scene, laws of motion and transverse resolution.
#[derive(Clone, Copy, Debug, PartialEq, Eq, Structural)]
pub struct Experiment {
    pub scene: Scene,
    pub model: Model,
    pub resolution: usize,
}

impl Experiment {
    /// The relativistic jet at the balanced resolution of 28 cells.
    pub fn standard() -> (r: Self)
        ensures
            r == (Experiment { scene: Scene::Jet, model: Model::Relativistic, resolution: 28 }),
    {
        Experiment { scene: Scene::Jet, model: Model::Relativistic, resolution: 28 }
    }
}

/// The experiment and pause state after the options were read: without an
/// explicit `--model` the scene's own model applies, and `--smoke` runs the
/// relativistic jet, unpaused.
pub open spec fn settled(e: Experiment, explicit_model: bool, smoke: bool, paused: bool) -> (Experiment, bool) {
    let e1 = if explicit_model { e } else { Experiment { model: scene_default_model(e.scene), ..e } };
    if smoke {
        (Experiment { scene: Scene::Jet, model: Model::Relativistic, ..e1 }, false)
    } else {
        (e1, paused)
    }
}

pub fn settle_launch(e: Experiment, explicit_model: bool, smoke: bool, paused: bool) -> (r: (Experiment, bool))
    ensures
        r == settled(e, explicit_model, smoke, paused),
{
    let mut e1 = e;
    if !explicit_model {
        e1.model = e.scene.default_model();
    }
    if smoke {
        (Experiment { scene: Scene::Jet, model: Model::Relativistic, ..e1 }, false)
    } else {
        (e1, paused)
    }
}

/// Each documented option word names its own option (`-h` is short for
/// `--help`), and a word that is not in the option list names none.
pub proof fn law_option_words(t: Seq<char>)
    ensures
        (option_kind(t) == OptionKind::Help) <==> (t == "--help"@ || t == "-h"@),
        (option_kind(t) == OptionKind::Validate) <==> (t == "--validate"@),
        (option_kind(t) == OptionKind::Headless) <==> (t == "--headless"@),
        (option_kind(t) == OptionKind::Paused) <==> (t == "--paused"@),
        (option_kind(t) == OptionKind::Export) <==> (t == "--export"@),
        (option_kind(t) == OptionKind::Smoke) <==> (t == "--smoke"@),
        (option_kind(t) == OptionKind::Scene) <==> (t == "--scene"@),
        (option_kind(t) == OptionKind::Model) <==> (t == "--model"@),
        (option_kind(t) == OptionKind::Resolution) <==> (t == "--resolution"@),
        (option_kind(t) == OptionKind::JetSpeed) <==> (t == "--jet-speed"@),
        (option_kind(t) == OptionKind::Steps) <==> (t == "--steps"@),
        (option_kind(t) == OptionKind::Capture) <==> (t == "--capture"@),
        (option_kind(t) == OptionKind::CaptureAfter) <==> (t == "--capture-after"@),
        (option_kind(t) == OptionKind::Unknown) <==> !(t == "--help"@ || t == "-h"@ || t
            == "--validate"@ || t == "--headless"@ || t == "--paused"@ || t == "--export"@ || t
            == "--smoke"@ || t == "--scene"@ || t == "--model"@ || t == "--resolution"@ || t
            == "--jet-speed"@ || t == "--steps"@ || t == "--capture"@ || t
            == "--capture-after"@),
{
    reveal_strlit("--help");
    reveal_strlit("-h");
    reveal_strlit("--validate");
    reveal_strlit("--headless");
    reveal_strlit("--paused");
    reveal_strlit("--export");
    reveal_strlit("--smoke");
    reveal_strlit("--scene");
    reveal_strlit("--model");
    reveal_strlit("--resolution");
    reveal_strlit("--jet-speed");
    reveal_strlit("--steps");
    reveal_strlit("--capture");
    reveal_strlit("--capture-after");
    assert("--help"@.len() == 6);
    assert("-h"@.len() == 2);
    assert("--validate"@.len() == 10 && "--validate"@[2] == 'v');
    assert("--headless"@.len() == 10 && "--headless"@[2] == 'h');
    assert("--paused"@.len() == 8 && "--paused"@[2] == 'p');
    assert("--export"@.len() == 8 && "--export"@[2] == 'e');
    assert("--smoke"@.len() == 7 && "--smoke"@[2] == 's' && "--smoke"@[3] == 'm');
    assert("--scene"@.len() == 7 && "--scene"@[2] == 's' && "--scene"@[3] == 'c');
    assert("--model"@.len() == 7 && "--model"@[2] == 'm');
    assert("--steps"@.len() == 7 && "--steps"@[2] == 's' && "--steps"@[3] == 't');
    assert("--resolution"@.len() == 12);
    assert("--jet-speed"@.len() == 11);
    assert("--capture"@.len() == 9);
    assert("--capture-after"@.len() == 15);
}

/// `newtonian` and `relativistic` name the two models, and no other word
/// names one.
pub proof fn law_model_words(t: Seq<char>)
    ensures
        (model_for_word(t) == Some(Model::Newtonian)) <==> (t == "newtonian"@),
        (model_for_word(t) == Some(Model::Relativistic)) <==> (t == "relativistic"@),
        (model_for_word(t) is None) <==> (t != "newtonian"@ && t != "relativistic"@),
{
    reveal_strlit("newtonian");
    reveal_strlit("relativistic");
    assert("newtonian"@.len() == 9);
    assert("relativistic"@.len() == 12);
}

/// Settling the launch keeps the resolution. A smoke run always shows the
/// relativistic jet, running. Otherwise the chosen scene and pause state
/// stay, with the model that was asked for, or else the scene's own.
pub proof fn law_launch_settles(e: Experiment, explicit_model: bool, smoke: bool, paused: bool)
    ensures
        ({
            let (r, p) = settled(e, explicit_model, smoke, paused);
            &&& r.resolution == e.resolution
            &&& smoke ==> r.scene == Scene::Jet && r.model == Model::Relativistic && !p
            &&& !smoke ==> r.scene == e.scene && p == paused
            &&& !smoke && explicit_model ==> r.model == e.model
            &&& !smoke && !explicit_model ==> (r.model == Model::Relativistic <==> (e.scene
                == Scene::Jet || e.scene == Scene::Blast))
        }),
{
}

} // verus!
