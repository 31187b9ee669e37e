use vstd::prelude::*;
use crate::cases::{Scene, scene_order};
use crate::physics::Model;
use crate::text::{decimal, decimal_text, law_decimal_reads_back};
use crate::clock::{duration_since_epoch, now, whole_millis};

verus! {

/// Display name of the scalar field shown in the volume: 0 proper density,
/// 1 pressure, 2 speed, anything else the Lorentz factor.
pub open spec fn field_title(k: i32) -> Seq<char> {
    if k == 0 {
        "Proper density ρ"@
    } else if k == 1 {
        "Pressure p"@
    } else if k == 2 {
        "Speed |v|"@
    } else {
        "Lorentz factor W"@
    }
}

pub fn field_name(k: i32) -> (r: &'static str)
    ensures
        r@ == field_title(k),
{
    match k {
        0 => "Proper density ρ",
        1 => "Pressure p",
        2 => "Speed |v|",
        _ => "Lorentz factor W",
    }
}

/// The field an experiment opens with: density for the shear layer and the
/// shock tube, pressure otherwise.
pub fn default_field(scene: Scene) -> (r: i32)
    ensures
        r == (if scene == Scene::Shear || scene == Scene::Shock { 0i32 } else { 1i32 }),
{
    match scene {
        Scene::Shear | Scene::Shock => 0,
        _ => 1,
    }
}

/// The field actually shown: the Lorentz factor has no meaning for a
/// Newtonian fluid, which shows its speed instead.
pub open spec fn field_shown(field: i32, model: Model) -> i32 {
    if field == 3 && model == Model::Newtonian { 2i32 } else { field }
}

pub fn shown_field(field: i32, model: Model) -> (r: i32)
    ensures
        r == field_shown(field, model),
{
    if field == 3 && model == Model::Newtonian {
        2
    } else {
        field
    }
}

/// Density and pressure use a logarithmic color scale.
pub fn logarithmic_scale(field: i32) -> (r: bool)
    ensures
        r == (field < 2),
{
    field < 2
}

/// File name of a window capture taken `millis` milliseconds after the epoch.
pub open spec fn capture_file(millis: nat) -> Seq<char> {
    "captures/observatory-"@ + decimal(millis) + ".png"@
}

pub fn capture_name_at(millis: u128) -> (r: String)
    ensures
        r@ == capture_file(millis as nat),
{
    let mut s = String::from_str("captures/observatory-");
    let digits = decimal_text(millis);
    s.append(digits.as_str());
    s.append(".png");
    s
}

/// File name of a window capture taken now.
pub fn capture_name() -> (r: String)
    ensures
        exists|millis: nat| r@ == capture_file(millis),
{
    let millis = match duration_since_epoch(&now()) {
        Some(d) => whole_millis(&d),
        None => 0,
    };
    let r = capture_name_at(millis);
    assert(r@ == capture_file(millis as nat));
    r
}

/// File name of the capture that ends a smoke run at `millis` milliseconds
/// after the epoch: the window capture name with `observatory-` replaced by
/// `smoke-`.
pub open spec fn smoke_capture_file(millis: nat) -> Seq<char> {
    "captures/smoke-"@ + decimal(millis) + ".png"@
}

pub fn smoke_capture_name_at(millis: u128) -> (r: String)
    ensures
        r@ == smoke_capture_file(millis as nat),
{
    let mut s = String::from_str("captures/smoke-");
    let digits = decimal_text(millis);
    s.append(digits.as_str());
    s.append(".png");
    s
}

/// The experiment bound to a number key: 1 to 4 in menu order.
pub fn scene_for_digit_key(d: u8) -> (r: Option<Scene>)
    ensures
        r == (if 1 <= d <= 4 { Some(scene_order()[d - 1]) } else { None::<Scene> }),
{
    match d {
        1 => Some(Scene::Jet),
        2 => Some(Scene::Blast),
        3 => Some(Scene::Shear),
        4 => Some(Scene::Shock),
        _ => None,
    }
}

/// Captures taken at different milliseconds get different file names, so
/// interactive saves never collide.
pub proof fn law_capture_names_are_unique(a: nat, b: nat)
    requires
        a != b,
    ensures
        capture_file(a) != capture_file(b),
{
    if capture_file(a) == capture_file(b) {
        let pre = "captures/observatory-"@;
        let suf = ".png"@;
        let da = decimal(a);
        let db = decimal(b);
        assert(capture_file(a) == pre + da + suf);
        assert(capture_file(b) == pre + db + suf);
        assert((pre + da + suf).len() == pre.len() + da.len() + suf.len());
        assert((pre + db + suf).len() == pre.len() + db.len() + suf.len());
        assert(da.len() == db.len());
        assert((pre + da + suf).subrange(pre.len() as int, (pre.len() + da.len()) as int) =~= da);
        assert((pre + db + suf).subrange(pre.len() as int, (pre.len() + db.len()) as int) =~= db);
        law_decimal_reads_back(a);
        law_decimal_reads_back(b);
    }
}

/// Each of the fields 0, 1 and 2 has its own title, and every other index
/// shows the Lorentz factor.
pub proof fn law_field_titles(k: i32)
    ensures
        (field_title(k) == "Proper density ρ"@) <==> (k == 0),
        (field_title(k) == "Pressure p"@) <==> (k == 1),
        (field_title(k) == "Speed |v|"@) <==> (k == 2),
        (field_title(k) == "Lorentz factor W"@) <==> (k != 0 && k != 1 && k != 2),
{
    reveal_strlit("Proper density ρ");
    reveal_strlit("Pressure p");
    reveal_strlit("Speed |v|");
    reveal_strlit("Lorentz factor W");
    assert("Proper density ρ"@.len() == 16 && "Proper density ρ"@[1] == 'r');
    assert("Pressure p"@.len() == 10);
    assert("Speed |v|"@.len() == 9);
    assert("Lorentz factor W"@.len() == 16 && "Lorentz factor W"@[1] == 'o');
}

/// A Newtonian fluid never shows the Lorentz factor: it shows its speed in
/// its place and every other field as chosen. A relativistic fluid shows
/// the chosen field.
pub proof fn law_newtonian_shows_no_lorentz_factor(field: i32)
    ensures
        field_shown(field, Model::Newtonian) != 3,
        field != 3 ==> field_shown(field, Model::Newtonian) == field,
        field_shown(3, Model::Newtonian) == 2,
        field_shown(field, Model::Relativistic) == field,
{
}

} // verus!
