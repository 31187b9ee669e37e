use vstd::prelude::*;
use crate::text::same_text;

verus! {

/// Where the particle solver runs.
#[derive(Clone, Copy, Debug, PartialEq, Eq, Structural)]
pub enum EngineType {
    GpuCompute,
    CpuMultiThread,
}

/// Short label of an engine in benchmark tables.
pub open spec fn engine_label(e: EngineType) -> Seq<char> {
    match e {
        EngineType::GpuCompute => "GPU"@,
        EngineType::CpuMultiThread => "CPU"@,
    }
}

impl EngineType {
    pub fn label(self) -> (r: &'static str)
        ensures
            r@ == engine_label(self),
    {
        match self {
            EngineType::GpuCompute => "GPU",
            EngineType::CpuMultiThread => "CPU",
        }
    }
}

/// Preset particle scenarios.
#[derive(Clone, Copy, Debug, PartialEq, Eq, Structural)]
pub enum ScenarioType {
    DamBreak,
    DoubleWave,
    DropletSplash,
    ViscousHoney,
    VortexMixer,
    ZeroG,
    BenchmarkStress,
}

/// Menu name of a scenario.
pub open spec fn scenario_name(s: ScenarioType) -> Seq<char> {
    match s {
        ScenarioType::DamBreak => "Dam Break (High Energy)"@,
        ScenarioType::DoubleWave => "Double Wave Collision"@,
        ScenarioType::DropletSplash => "Crown Droplet Splash"@,
        ScenarioType::ViscousHoney => "Viscous Fluid (Honey)"@,
        ScenarioType::VortexMixer => "Turbine Vortex Mixer"@,
        ScenarioType::ZeroG => "Zero-G Surface Tension"@,
        ScenarioType::BenchmarkStress => "Extreme Benchmark Stress"@,
    }
}

/// The scenarios in menu order.
pub open spec fn scenario_order() -> Seq<ScenarioType> {
    seq![
        ScenarioType::DamBreak,
        ScenarioType::DoubleWave,
        ScenarioType::DropletSplash,
        ScenarioType::ViscousHoney,
        ScenarioType::VortexMixer,
        ScenarioType::ZeroG,
        ScenarioType::BenchmarkStress,
    ]
}

/// The scenario a lower-case command-line word selects; unknown words
/// select the dam break.
pub open spec fn scenario_for_word(t: Seq<char>) -> ScenarioType {
    if t == "doublewave"@ {
        ScenarioType::DoubleWave
    } else if t == "splash"@ {
        ScenarioType::DropletSplash
    } else if t == "honey"@ {
        ScenarioType::ViscousHoney
    } else if t == "vortex"@ {
        ScenarioType::VortexMixer
    } else if t == "zerog"@ {
        ScenarioType::ZeroG
    } else {
        ScenarioType::DamBreak
    }
}

impl ScenarioType {
    /// All scenarios, in menu order.
    pub fn all() -> (r: [ScenarioType; 7])
        ensures
            r@ == scenario_order(),
    {
        let r = [
            ScenarioType::DamBreak,
            ScenarioType::DoubleWave,
            ScenarioType::DropletSplash,
            ScenarioType::ViscousHoney,
            ScenarioType::VortexMixer,
            ScenarioType::ZeroG,
            ScenarioType::BenchmarkStress,
        ];
        assert(r@ =~= scenario_order());
        r
    }

    pub fn name(&self) -> (r: &'static str)
        ensures
            r@ == scenario_name(*self),
    {
        match self {
            ScenarioType::DamBreak => "Dam Break (High Energy)",
            ScenarioType::DoubleWave => "Double Wave Collision",
            ScenarioType::DropletSplash => "Crown Droplet Splash",
            ScenarioType::ViscousHoney => "Viscous Fluid (Honey)",
            ScenarioType::VortexMixer => "Turbine Vortex Mixer",
            ScenarioType::ZeroG => "Zero-G Surface Tension",
            ScenarioType::BenchmarkStress => "Extreme Benchmark Stress",
        }
    }

    /// The scenario selected by a lower-case command-line word.
    pub fn from_word(t: &str) -> (r: ScenarioType)
        ensures
            r == scenario_for_word(t@),
    {
        if same_text(t, "doublewave") {
            ScenarioType::DoubleWave
        } else if same_text(t, "splash") {
            ScenarioType::DropletSplash
        } else if same_text(t, "honey") {
            ScenarioType::ViscousHoney
        } else if same_text(t, "vortex") {
            ScenarioType::VortexMixer
        } else if same_text(t, "zerog") {
            ScenarioType::ZeroG
        } else {
            ScenarioType::DamBreak
        }
    }
}

/// Each documented scenario word selects its own preset; every other word,
/// and only such a word, falls back to the dam break. No word selects the
/// benchmark stress preset.
pub proof fn law_scenario_words(t: Seq<char>)
    ensures
        (scenario_for_word(t) == ScenarioType::DoubleWave) <==> (t == "doublewave"@),
        (scenario_for_word(t) == ScenarioType::DropletSplash) <==> (t == "splash"@),
        (scenario_for_word(t) == ScenarioType::ViscousHoney) <==> (t == "honey"@),
        (scenario_for_word(t) == ScenarioType::VortexMixer) <==> (t == "vortex"@),
        (scenario_for_word(t) == ScenarioType::ZeroG) <==> (t == "zerog"@),
        (scenario_for_word(t) == ScenarioType::DamBreak) <==> !(t == "doublewave"@ || t
            == "splash"@ || t == "honey"@ || t == "vortex"@ || t == "zerog"@),
        scenario_for_word(t) != ScenarioType::BenchmarkStress,
        scenario_for_word("dambreak"@) == ScenarioType::DamBreak,
{
    reveal_strlit("doublewave");
    reveal_strlit("splash");
    reveal_strlit("honey");
    reveal_strlit("vortex");
    reveal_strlit("zerog");
    assert("doublewave"@.len() == 10);
    assert("splash"@.len() == 6 && "splash"@[0] == 's');
    assert("vortex"@.len() == 6 && "vortex"@[0] == 'v');
    assert("honey"@.len() == 5 && "honey"@[0] == 'h');
    assert("zerog"@.len() == 5 && "zerog"@[0] == 'z');
    reveal_strlit("dambreak");
    assert("dambreak"@.len() == 8);
}

} // verus!
