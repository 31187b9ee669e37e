use vstd::prelude::*;
use crate::text::same_text;

verus! {

/// How particles are drawn.
#[derive(Clone, Copy, Debug, PartialEq, Eq, Structural)]
pub enum RenderStyle {
    RealisticLiquid,
    ShadedSpheres,
    VelocityHeatmap,
    PressureHeatmap,
}

pub open spec fn style_name(s: RenderStyle) -> Seq<char> {
    match s {
        RenderStyle::RealisticLiquid => "Realistic Glassy Fluid (Screen-Space)"@,
        RenderStyle::ShadedSpheres => "3D Glossy Spheres (Raytraced)"@,
        RenderStyle::VelocityHeatmap => "Velocity Heatmap (Scientific)"@,
        RenderStyle::PressureHeatmap => "Pressure / Density Field"@,
    }
}

pub open spec fn style_order() -> Seq<RenderStyle> {
    seq![
        RenderStyle::RealisticLiquid,
        RenderStyle::ShadedSpheres,
        RenderStyle::VelocityHeatmap,
        RenderStyle::PressureHeatmap,
    ]
}

/// The style a lower-case command-line word selects; unknown words select
/// the realistic liquid.
pub open spec fn style_for_word(t: Seq<char>) -> RenderStyle {
    if t == "spheres"@ || t == "shaded"@ {
        RenderStyle::ShadedSpheres
    } else if t == "velocity"@ {
        RenderStyle::VelocityHeatmap
    } else if t == "pressure"@ {
        RenderStyle::PressureHeatmap
    } else {
        RenderStyle::RealisticLiquid
    }
}

impl RenderStyle {
    pub fn all() -> (r: [RenderStyle; 4])
        ensures
            r@ == style_order(),
    {
        let r = [
            RenderStyle::RealisticLiquid,
            RenderStyle::ShadedSpheres,
            RenderStyle::VelocityHeatmap,
            RenderStyle::PressureHeatmap,
        ];
        assert(r@ =~= style_order());
        r
    }

    pub fn name(&self) -> (r: &'static str)
        ensures
            r@ == style_name(*self),
    {
        match self {
            RenderStyle::RealisticLiquid => "Realistic Glassy Fluid (Screen-Space)",
            RenderStyle::ShadedSpheres => "3D Glossy Spheres (Raytraced)",
            RenderStyle::VelocityHeatmap => "Velocity Heatmap (Scientific)",
            RenderStyle::PressureHeatmap => "Pressure / Density Field",
        }
    }

    /// The style selected by a lower-case command-line word.
    pub fn from_word(t: &str) -> (r: RenderStyle)
        ensures
            r == style_for_word(t@),
    {
        if same_text(t, "spheres") || same_text(t, "shaded") {
            RenderStyle::ShadedSpheres
        } else if same_text(t, "velocity") {
            RenderStyle::VelocityHeatmap
        } else if same_text(t, "pressure") {
            RenderStyle::PressureHeatmap
        } else {
            RenderStyle::RealisticLiquid
        }
    }

    /// The style bound to a number key: 1 to 4 in menu order.
    pub fn for_digit_key(d: u8) -> (r: Option<RenderStyle>)
        ensures
            r == (if 1 <= d <= 4 { Some(style_order()[d - 1]) } else { None::<RenderStyle> }),
    {
        match d {
            1 => Some(RenderStyle::RealisticLiquid),
            2 => Some(RenderStyle::ShadedSpheres),
            3 => Some(RenderStyle::VelocityHeatmap),
            4 => Some(RenderStyle::PressureHeatmap),
            _ => None,
        }
    }
}

/// Liquid color themes.
#[derive(Clone, Copy, Debug, PartialEq, Eq, Structural)]
pub enum ColorTheme {
    OceanAzure,
    EmeraldToxic,
    GoldenHoney,
    LavaAmber,
    MercurySilver,
    PlasmaPurple,
}

pub open spec fn theme_name(t: ColorTheme) -> Seq<char> {
    match t {
        ColorTheme::OceanAzure => "Ocean Azure Water"@,
        ColorTheme::EmeraldToxic => "Biohazard Emerald"@,
        ColorTheme::GoldenHoney => "Golden Viscous Honey"@,
        ColorTheme::LavaAmber => "Molten Lava Amber"@,
        ColorTheme::MercurySilver => "Quicksilver (Liquid Metal)"@,
        ColorTheme::PlasmaPurple => "Neon Plasma Violet"@,
    }
}

pub open spec fn theme_order() -> Seq<ColorTheme> {
    seq![
        ColorTheme::OceanAzure,
        ColorTheme::EmeraldToxic,
        ColorTheme::GoldenHoney,
        ColorTheme::LavaAmber,
        ColorTheme::MercurySilver,
        ColorTheme::PlasmaPurple,
    ]
}

/// The theme a lower-case command-line word selects; unknown words select
/// the ocean azure.
pub open spec fn theme_for_word(t: Seq<char>) -> ColorTheme {
    if t == "emerald"@ {
        ColorTheme::EmeraldToxic
    } else if t == "honey"@ {
        ColorTheme::GoldenHoney
    } else if t == "lava"@ {
        ColorTheme::LavaAmber
    } else if t == "silver"@ {
        ColorTheme::MercurySilver
    } else if t == "plasma"@ {
        ColorTheme::PlasmaPurple
    } else {
        ColorTheme::OceanAzure
    }
}

impl ColorTheme {
    pub fn all() -> (r: [ColorTheme; 6])
        ensures
            r@ == theme_order(),
    {
        let r = [
            ColorTheme::OceanAzure,
            ColorTheme::EmeraldToxic,
            ColorTheme::GoldenHoney,
            ColorTheme::LavaAmber,
            ColorTheme::MercurySilver,
            ColorTheme::PlasmaPurple,
        ];
        assert(r@ =~= theme_order());
        r
    }

    pub fn name(&self) -> (r: &'static str)
        ensures
            r@ == theme_name(*self),
    {
        match self {
            ColorTheme::OceanAzure => "Ocean Azure Water",
            ColorTheme::EmeraldToxic => "Biohazard Emerald",
            ColorTheme::GoldenHoney => "Golden Viscous Honey",
            ColorTheme::LavaAmber => "Molten Lava Amber",
            ColorTheme::MercurySilver => "Quicksilver (Liquid Metal)",
            ColorTheme::PlasmaPurple => "Neon Plasma Violet",
        }
    }

    /// The theme selected by a lower-case command-line word.
    pub fn from_word(t: &str) -> (r: ColorTheme)
        ensures
            r == theme_for_word(t@),
    {
        if same_text(t, "emerald") {
            ColorTheme::EmeraldToxic
        } else if same_text(t, "honey") {
            ColorTheme::GoldenHoney
        } else if same_text(t, "lava") {
            ColorTheme::LavaAmber
        } else if same_text(t, "silver") {
            ColorTheme::MercurySilver
        } else if same_text(t, "plasma") {
            ColorTheme::PlasmaPurple
        } else {
            ColorTheme::OceanAzure
        }
    }
}

/// `spheres` and `shaded` select the shaded spheres, `velocity` and
/// `pressure` their heatmaps; every other word, and only such a word, the
/// realistic liquid.
pub proof fn law_style_words(t: Seq<char>)
    ensures
        (style_for_word(t) == RenderStyle::ShadedSpheres) <==> (t == "spheres"@ || t
            == "shaded"@),
        (style_for_word(t) == RenderStyle::VelocityHeatmap) <==> (t == "velocity"@),
        (style_for_word(t) == RenderStyle::PressureHeatmap) <==> (t == "pressure"@),
        (style_for_word(t) == RenderStyle::RealisticLiquid) <==> !(t == "spheres"@ || t
            == "shaded"@ || t == "velocity"@ || t == "pressure"@),
        style_for_word("realistic"@) == RenderStyle::RealisticLiquid,
{
    reveal_strlit("spheres");
    reveal_strlit("shaded");
    reveal_strlit("velocity");
    reveal_strlit("pressure");
    reveal_strlit("realistic");
    assert("spheres"@.len() == 7);
    assert("shaded"@.len() == 6);
    assert("velocity"@.len() == 8 && "velocity"@[0] == 'v');
    assert("pressure"@.len() == 8 && "pressure"@[0] == 'p');
    assert("realistic"@.len() == 9);
}

/// Each documented theme word selects its own theme; every other word, and
/// only such a word, the ocean azure.
pub proof fn law_theme_words(t: Seq<char>)
    ensures
        (theme_for_word(t) == ColorTheme::EmeraldToxic) <==> (t == "emerald"@),
        (theme_for_word(t) == ColorTheme::GoldenHoney) <==> (t == "honey"@),
        (theme_for_word(t) == ColorTheme::LavaAmber) <==> (t == "lava"@),
        (theme_for_word(t) == ColorTheme::MercurySilver) <==> (t == "silver"@),
        (theme_for_word(t) == ColorTheme::PlasmaPurple) <==> (t == "plasma"@),
        (theme_for_word(t) == ColorTheme::OceanAzure) <==> !(t == "emerald"@ || t == "honey"@
            || t == "lava"@ || t == "silver"@ || t == "plasma"@),
        theme_for_word("azure"@) == ColorTheme::OceanAzure,
{
    reveal_strlit("emerald");
    reveal_strlit("honey");
    reveal_strlit("lava");
    reveal_strlit("silver");
    reveal_strlit("plasma");
    reveal_strlit("azure");
    assert("emerald"@.len() == 7);
    assert("honey"@.len() == 5 && "honey"@[0] == 'h');
    assert("lava"@.len() == 4);
    assert("silver"@.len() == 6 && "silver"@[0] == 's');
    assert("plasma"@.len() == 6 && "plasma"@[0] == 'p');
    assert("azure"@.len() == 5 && "azure"@[0] == 'a');
}

} // verus!
