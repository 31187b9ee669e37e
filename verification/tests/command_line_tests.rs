use fluid_lab::cases::Scene;
use fluid_lab::cli::{run_mode, screenshot_setup, CliArgs, RunMode};
use fluid_lab::launch::{
    classify_option, model_from_word, parse_resolution, parse_steps, settle_launch, unknown_option,
    Experiment, OptionKind, ResolutionError,
};
use fluid_lab::physics::Model;
use fluid_lab::render::{ColorTheme, RenderStyle};
use fluid_lab::sph::ScenarioType;

fn args() -> CliArgs {
    CliArgs {
        benchmark: false,
        particles: None,
        duration: None,
        engine: None,
        gpu_index: None,
        screenshot: None,
        render_style: "realistic".to_string(),
        scenario: "dambreak".to_string(),
        theme: "azure".to_string(),
        steps: 90,
    }
}

#[test]
fn options_are_recognised() {
    assert_eq!(classify_option("--help"), OptionKind::Help);
    assert_eq!(classify_option("-h"), OptionKind::Help);
    assert_eq!(classify_option("--capture-after"), OptionKind::CaptureAfter);
    assert_eq!(classify_option("--capture"), OptionKind::Capture);
    assert_eq!(classify_option("--jet-speed"), OptionKind::JetSpeed);
    assert_eq!(classify_option("--Scene"), OptionKind::Unknown);
    assert_eq!(unknown_option("--x"), "Unknown option: --x; use --help");
}

#[test]
fn models_and_numbers() {
    assert_eq!(model_from_word("newtonian"), Some(Model::Newtonian));
    assert_eq!(model_from_word("relativistic"), Some(Model::Relativistic));
    assert_eq!(model_from_word("Newtonian"), None);
    assert_eq!(parse_resolution("28").unwrap(), 28);
    assert_eq!(parse_resolution("+8").unwrap(), 8);
    assert!(matches!(parse_resolution("65"), Err(ResolutionError::OutOfRange)));
    assert!(matches!(parse_resolution("7"), Err(ResolutionError::OutOfRange)));
    assert!(matches!(parse_resolution("x"), Err(ResolutionError::NotANumber(_))));
    assert!(matches!(parse_resolution(" 9"), Err(ResolutionError::NotANumber(_))));
    assert_eq!(parse_steps("600").unwrap(), 600);
    assert!(parse_steps("-1").is_err());
    assert!(parse_steps("").is_err());
}

#[test]
fn launch_settles_model_and_smoke() {
    let e = Experiment { scene: Scene::Shear, model: Model::Relativistic, resolution: 20 };
    let (a, p) = settle_launch(e, false, false, true);
    assert_eq!(a.model, Model::Newtonian);
    assert!(p);
    let (b, _) = settle_launch(e, true, false, true);
    assert_eq!(b.model, Model::Relativistic);
    let (c, q) = settle_launch(e, false, true, true);
    assert_eq!((c.scene, c.model, c.resolution, q), (Scene::Jet, Model::Relativistic, 20, false));
    assert_eq!(Experiment::standard().resolution, 28);
}

#[test]
fn particle_program_modes_and_screenshot_words() {
    let mut a = args();
    assert!(matches!(run_mode(&a), RunMode::Windowed));
    a.benchmark = true;
    assert!(matches!(run_mode(&a), RunMode::Benchmark));
    a.screenshot = Some("shot.png".to_string());
    match run_mode(&a) {
        RunMode::Screenshot(p) => assert_eq!(p, "shot.png"),
        _ => panic!("screenshot expected"),
    }
    a.scenario = "DoubleWave".to_string();
    a.render_style = "PRESSURE".to_string();
    a.theme = "Plasma".to_string();
    let s = screenshot_setup(&a);
    assert_eq!(s.scenario, ScenarioType::DoubleWave);
    assert_eq!(s.style, RenderStyle::PressureHeatmap);
    assert_eq!(s.theme, ColorTheme::PlasmaPurple);
    assert_eq!(s.particles, 25_000);
    a.particles = Some(1234);
    assert_eq!(screenshot_setup(&a).particles, 1234);
}
