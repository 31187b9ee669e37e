use vstd::prelude::*;
use crate::text::{decimal, decimal_text};

verus! {

/// Path of a VTK export stamped `stamp` milliseconds after the epoch, taken
/// after `steps` accepted steps.
pub open spec fn export_path_text(stamp: nat, steps: nat) -> Seq<char> {
    "exports/fluid-"@ + decimal(stamp) + "-"@ + decimal(steps) + ".vtk"@
}

pub fn export_path(stamp: u128, steps: u64) -> (r: String)
    ensures
        r@ == export_path_text(stamp as nat, steps as nat),
{
    let a = decimal_text(stamp);
    let b = decimal_text(steps as u128);
    let r = String::from_str("exports/fluid-").concat(a.as_str()).concat("-").concat(b.as_str()).concat(".vtk");
    assert(r@ =~= export_path_text(stamp as nat, steps as nat));
    r
}

/// The grid dimensions line of a structured-points data set.
pub open spec fn dimensions_text(n: [usize; 3]) -> Seq<char> {
    "DIMENSIONS "@ + decimal(n[0] as nat) + " "@ + decimal(n[1] as nat) + " "@ + decimal(n[2] as nat)
}

pub fn dimensions_line(n: [usize; 3]) -> (r: String)
    ensures
        r@ == dimensions_text(n),
{
    let a = decimal_text(n[0] as u128);
    let b = decimal_text(n[1] as u128);
    let c = decimal_text(n[2] as u128);
    let r = String::from_str("DIMENSIONS ").concat(a.as_str()).concat(" ").concat(b.as_str()).concat(
        " ",
    ).concat(c.as_str());
    assert(r@ =~= dimensions_text(n));
    r
}

/// The line that announces `count` point samples.
pub open spec fn point_data_text(count: nat) -> Seq<char> {
    "POINT_DATA "@ + decimal(count)
}

pub fn point_data_line(count: usize) -> (r: String)
    ensures
        r@ == point_data_text(count as nat),
{
    let a = decimal_text(count as u128);
    String::from_str("POINT_DATA ").concat(a.as_str())
}

/// The two header lines of a scalar field with one double per point.
pub open spec fn scalars_text(name: Seq<char>) -> Seq<char> {
    "SCALARS "@ + name + " double 1\nLOOKUP_TABLE default"@
}

pub fn scalars_header(name: &str) -> (r: String)
    ensures
        r@ == scalars_text(name@),
{
    let r = String::from_str("SCALARS ").concat(name).concat(" double 1\nLOOKUP_TABLE default");
    assert(r@ =~= scalars_text(name@));
    r
}

/// The header line of a five-component integral record.
pub open spec fn state_record_text(name: Seq<char>) -> Seq<char> {
    name + " 5 1 double"@
}

pub fn state_record_header(name: &str) -> (r: String)
    ensures
        r@ == state_record_text(name@),
{
    String::from_str(name).concat(" 5 1 double")
}

} // verus!
