use vstd::prelude::*;

use crate::occupancy::Occupancy;

verus! {

/// One tracked facility area. Each area owns one gauge, registered once at
/// startup and overwritten on every successful poll cycle.
#[derive(Clone, Copy, Debug, PartialEq, Eq, Structural)]
pub enum Area {
    Thermalbad,
    Saunawelt,
    Parkhaus,
}

/// The label under which this area appears on the scraped page.
pub open spec fn spec_area_label(a: Area) -> Seq<char> {
    match a {
        Area::Thermalbad => "Thermalbad"@,
        Area::Saunawelt => "Saunawelt"@,
        Area::Parkhaus => "Parkhaus"@,
    }
}

pub fn area_label(a: Area) -> (r: &'static str)
    ensures
        r@ == spec_area_label(a),
{
    match a {
        Area::Thermalbad => "Thermalbad",
        Area::Saunawelt => "Saunawelt",
        Area::Parkhaus => "Parkhaus",
    }
}

/// The fixed name this area's gauge is registered under.
pub open spec fn spec_metric_name(a: Area) -> Seq<char> {
    match a {
        Area::Thermalbad => "carolus_thermalbad_ratio"@,
        Area::Saunawelt => "carolus_saunawelt_ratio"@,
        Area::Parkhaus => "carolus_parkhaus_ratio"@,
    }
}

pub fn metric_name(a: Area) -> (r: &'static str)
    ensures
        r@ == spec_metric_name(a),
{
    match a {
        Area::Thermalbad => "carolus_thermalbad_ratio",
        Area::Saunawelt => "carolus_saunawelt_ratio",
        Area::Parkhaus => "carolus_parkhaus_ratio",
    }
}

/// The human-readable description this area's gauge is registered with.
pub open spec fn spec_metric_description(a: Area) -> Seq<char> {
    match a {
        Area::Thermalbad => "Occupancy of the Thermalbad of Carolus Thermen Aachen as percentage."@,
        Area::Saunawelt => "Occupancy of the Saunawelt of Carolus Thermen Aachen as percentage."@,
        Area::Parkhaus => "Occupancy of the Parkhaus of Carolus Thermen Aachen as percentage."@,
    }
}

pub fn metric_description(a: Area) -> (r: &'static str)
    ensures
        r@ == spec_metric_description(a),
{
    match a {
        Area::Thermalbad => "Occupancy of the Thermalbad of Carolus Thermen Aachen as percentage.",
        Area::Saunawelt => "Occupancy of the Saunawelt of Carolus Thermen Aachen as percentage.",
        Area::Parkhaus => "Occupancy of the Parkhaus of Carolus Thermen Aachen as percentage.",
    }
}

/// The reading's value for an area: what a publish pushes into that area's
/// gauge.
pub open spec fn spec_area_value(o: Occupancy, a: Area) -> u8 {
    match a {
        Area::Thermalbad => o.thermalbad,
        Area::Saunawelt => o.saunawelt,
        Area::Parkhaus => o.parkhaus,
    }
}

pub fn area_value(o: &Occupancy, a: Area) -> (r: u8)
    ensures
        r == spec_area_value(*o, a),
{
    match a {
        Area::Thermalbad => o.thermalbad,
        Area::Saunawelt => o.saunawelt,
        Area::Parkhaus => o.parkhaus,
    }
}

/// Every tracked area, in the fixed registration order.
pub fn all_areas() -> (r: Vec<Area>)
    ensures
        r@ == seq![Area::Thermalbad, Area::Saunawelt, Area::Parkhaus],
{
    let mut v: Vec<Area> = Vec::new();
    v.push(Area::Thermalbad);
    v.push(Area::Saunawelt);
    v.push(Area::Parkhaus);
    proof {
        assert(v@ =~= seq![Area::Thermalbad, Area::Saunawelt, Area::Parkhaus]);
    }
    v
}

} // verus!
