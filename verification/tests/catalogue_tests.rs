use fluid_lab::cases::Scene;
use fluid_lab::observatory::{
    capture_name, capture_name_at, default_field, field_name, logarithmic_scale, scene_for_digit_key, shown_field,
    smoke_capture_name_at,
};
use fluid_lab::physics::{Boundary, Model};
use fluid_lab::render::{ColorTheme, RenderStyle};
use fluid_lab::sph::{EngineType, ScenarioType};
use fluid_lab::ui::{MouseInteractionMode, Tab};

#[test]
fn scenes_have_ids_and_parse_back() {
    let ids: Vec<&str> = Scene::all().iter().map(|s| s.id()).collect();
    assert_eq!(ids, vec!["jet", "blast", "shear", "shock"]);
    for s in Scene::all() {
        assert_eq!(Scene::parse(s.id()), Some(s));
    }
    assert_eq!(Scene::parse("Jet"), None);
    assert_eq!(Scene::parse(""), None);
}

#[test]
fn scene_texts_and_models() {
    assert_eq!(Scene::Jet.title(), "Beyond the sound barrier");
    assert_eq!(Scene::Shock.label(), "04   Shock tube");
    assert!(Scene::Shear.description().contains("Kelvin–Helmholtz"));
    assert_eq!(Scene::Jet.default_model(), Model::Relativistic);
    assert_eq!(Scene::Blast.default_model(), Model::Relativistic);
    assert_eq!(Scene::Shear.default_model(), Model::Newtonian);
    assert_eq!(Scene::Shock.default_model(), Model::Newtonian);
    assert_eq!(Model::Relativistic.name(), "Special relativity");
    assert_eq!(Model::Newtonian.name(), "Newtonian");
    assert_ne!(Boundary::Periodic, Boundary::Jet);
}

#[test]
fn the_tour_cycles_through_the_menu() {
    assert_eq!(Scene::Jet.next_in_tour(), Scene::Blast);
    assert_eq!(Scene::Shock.next_in_tour(), Scene::Jet);
    let mut s = Scene::Shear;
    for _ in 0..4 {
        s = s.next_in_tour();
    }
    assert_eq!(s, Scene::Shear);
    assert_eq!(Scene::Shock.position(), 3);
}

#[test]
fn observatory_fields() {
    assert_eq!(field_name(0), "Proper density ρ");
    assert_eq!(field_name(1), "Pressure p");
    assert_eq!(field_name(2), "Speed |v|");
    assert_eq!(field_name(7), "Lorentz factor W");
    assert_eq!(default_field(Scene::Shock), 0);
    assert_eq!(default_field(Scene::Jet), 1);
    assert_eq!(shown_field(3, Model::Newtonian), 2);
    assert_eq!(shown_field(3, Model::Relativistic), 3);
    assert!(logarithmic_scale(1) && !logarithmic_scale(2));
}

#[test]
fn capture_names_carry_the_time() {
    assert_eq!(capture_name_at(1_700_000_000_123), "captures/observatory-1700000000123.png");
    assert_eq!(capture_name_at(0), "captures/observatory-0.png");
    let now = capture_name();
    assert!(now.starts_with("captures/observatory-") && now.ends_with(".png"));
    let digits = &now["captures/observatory-".len()..now.len() - 4];
    assert!(digits.len() > 9 && digits.chars().all(|c| c.is_ascii_digit()));
}

#[test]
fn particle_catalogue_names() {
    assert_eq!(ScenarioType::DamBreak.name(), "Dam Break (High Energy)");
    assert_eq!(ScenarioType::all().len(), 7);
    assert_eq!(ScenarioType::all()[6], ScenarioType::BenchmarkStress);
    assert_eq!(RenderStyle::PressureHeatmap.name(), "Pressure / Density Field");
    assert_eq!(ColorTheme::MercurySilver.name(), "Quicksilver (Liquid Metal)");
    assert_eq!(ColorTheme::all()[5], ColorTheme::PlasmaPurple);
    assert_eq!(RenderStyle::all()[1], RenderStyle::ShadedSpheres);
    assert_eq!(EngineType::GpuCompute.label(), "GPU");
    assert_eq!(EngineType::CpuMultiThread.label(), "CPU");
    assert_ne!(Tab::Simulation, Tab::Controls);
    assert_ne!(MouseInteractionMode::Attract, MouseInteractionMode::Repel);
}

#[test]
fn words_select_presets() {
    assert_eq!(ScenarioType::from_word("zerog"), ScenarioType::ZeroG);
    assert_eq!(ScenarioType::from_word("dambreak"), ScenarioType::DamBreak);
    assert_eq!(ScenarioType::from_word("anything"), ScenarioType::DamBreak);
    assert_eq!(RenderStyle::from_word("shaded"), RenderStyle::ShadedSpheres);
    assert_eq!(RenderStyle::from_word("velocity"), RenderStyle::VelocityHeatmap);
    assert_eq!(RenderStyle::from_word("?"), RenderStyle::RealisticLiquid);
    assert_eq!(ColorTheme::from_word("lava"), ColorTheme::LavaAmber);
    assert_eq!(ColorTheme::from_word("azure"), ColorTheme::OceanAzure);
    assert_eq!(RenderStyle::for_digit_key(2), Some(RenderStyle::ShadedSpheres));
    assert_eq!(RenderStyle::for_digit_key(0), None);
    assert_eq!(RenderStyle::for_digit_key(5), None);
}

#[test]
fn smoke_captures_and_scene_keys() {
    assert_eq!(smoke_capture_name_at(42), "captures/smoke-42.png");
    assert_eq!(smoke_capture_name_at(7), capture_name_at(7).replace("observatory-", "smoke-"));
    assert_eq!(scene_for_digit_key(1), Some(Scene::Jet));
    assert_eq!(scene_for_digit_key(4), Some(Scene::Shock));
    assert_eq!(scene_for_digit_key(5), None);
}

#[test]
fn distinct_times_give_distinct_capture_names() {
    let names: Vec<String> = (0..200u128).map(|m| capture_name_at(m * 37)).collect();
    let mut sorted = names.clone();
    sorted.sort();
    sorted.dedup();
    assert_eq!(sorted.len(), names.len());
}
