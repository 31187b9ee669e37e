use vstd::prelude::*;
use crate::render::{RenderStyle, ColorTheme, style_for_word, theme_for_word};
use crate::sph::{ScenarioType, scenario_for_word};
use crate::text::{lowercase, to_lowercase};

verus! {

/// Command-line arguments of the particle-fluid program.
#[derive(Debug)]
pub struct CliArgs {
    /// Run the headless benchmark suite.
    pub benchmark: bool,
    /// Particle count of the benchmark or the screenshot.
    pub particles: Option<usize>,
    /// Seconds per benchmark tier.
    pub duration: Option<u64>,
    /// Engine to benchmark (`gpu` or `cpu`).
    pub engine: Option<String>,
    /// Graphics adapter to use.
    pub gpu_index: Option<usize>,
    /// Render one frame headlessly to this PNG file.
    pub screenshot: Option<String>,
    /// Rendering style of the screenshot.
    pub render_style: String,
    /// Scenario preset.
    pub scenario: String,
    /// Liquid color theme.
    pub theme: String,
    /// Warm-up steps before the screenshot.
    pub steps: usize,
}

/// What the program does with its arguments.
#[derive(Debug)]
pub enum RunMode {
    /// Render one frame to the given file.
    Screenshot(String),
    /// Run the benchmark suite.
    Benchmark,
    /// Open the interactive window.
    Windowed,
}

pub fn run_mode(args: &CliArgs) -> (r: RunMode)
    ensures
        match args.screenshot {
            Some(p) => r matches RunMode::Screenshot(q) && q@ == p@,
            None => if args.benchmark { r is Benchmark } else { r is Windowed },
        },
{
    match &args.screenshot {
        Some(p) => RunMode::Screenshot(p.clone()),
        None => if args.benchmark { RunMode::Benchmark } else { RunMode::Windowed },
    }
}

/// The scene of a headless screenshot.
pub struct ScreenshotSetup {
    pub scenario: ScenarioType,
    pub style: RenderStyle,
    pub theme: ColorTheme,
    pub particles: usize,
}

/// Particle count of a screenshot when none is given.
pub const SCREENSHOT_PARTICLES: usize = 25_000;

/// The screenshot scene the arguments select; the words are matched in
/// lower case.
pub fn screenshot_setup(args: &CliArgs) -> (r: ScreenshotSetup)
    ensures
        r.scenario == scenario_for_word(lowercase(args.scenario@)),
        r.style == style_for_word(lowercase(args.render_style@)),
        r.theme == theme_for_word(lowercase(args.theme@)),
        r.particles == (match args.particles {
            Some(p) => p,
            None => SCREENSHOT_PARTICLES,
        }),
{
    let scenario = ScenarioType::from_word(to_lowercase(args.scenario.as_str()).as_str());
    let style = RenderStyle::from_word(to_lowercase(args.render_style.as_str()).as_str());
    let theme = ColorTheme::from_word(to_lowercase(args.theme.as_str()).as_str());
    let particles = match args.particles {
        Some(p) => p,
        None => SCREENSHOT_PARTICLES,
    };
    ScreenshotSetup { scenario, style, theme, particles }
}

} // verus!
