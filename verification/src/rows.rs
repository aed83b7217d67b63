//! Raw relational rows as the data-access collaborator hands them to the
//! aggregation engine, and the per-column decoding rules.
//!
//! A nullable column is an `Option`; an absent value is `None`, never a
//! sentinel.  Discovery-state columns differ between data sources — some
//! encode a native boolean, others the text `"true"` / `"false"` — so they
//! arrive as a [`RawFlag`] and are decoded by [`parse_flag`].

use vstd::prelude::*;
use vstd::string::StringExecFns;

verus! {

/// A discovery-state column as it arrives from the relational store.
pub enum RawFlag {
    /// The source encoded the column as a native boolean.
    Native(bool),
    /// The source encoded the column as text to be parsed.
    Text(String),
    /// The column was null.
    Missing,
}

/// What a discovery-state column decodes to: the exact texts `"true"` and
/// `"false"` parse; anything else degrades that one field to unknown
/// (`None`) rather than failing the whole record.
pub open spec fn spec_parse_flag(f: RawFlag) -> Option<bool> {
    match f {
        RawFlag::Native(b) => Some(b),
        RawFlag::Text(s) => if s@ == "true"@ {
            Some(true)
        } else if s@ == "false"@ {
            Some(false)
        } else {
            None
        },
        RawFlag::Missing => None,
    }
}

/// Decodes one discovery-state column; a parse failure yields `None`
/// (unknown), never an error.
pub fn parse_flag(f: &RawFlag) -> (r: Option<bool>)
    ensures
        r == spec_parse_flag(*f),
{
    match f {
        RawFlag::Native(b) => Some(*b),
        RawFlag::Text(s) => {
            if *s == String::from_str("true") {
                Some(true)
            } else if *s == String::from_str("false") {
                Some(false)
            } else {
                None
            }
        },
        RawFlag::Missing => None,
    }
}

/// One market row for a commodity: the price columns, the available stock,
/// and the station that the row belongs to.
pub struct CommodityRow {
    pub buy_price: Option<u64>,
    pub sell_price: Option<u64>,
    pub mean_price: Option<u64>,
    pub stock: Option<u64>,
    pub station_name: String,
    pub system_name: String,
}

/// The single attribute row of a system, before its children are attached.
pub struct SystemRow {
    pub name: Option<String>,
    pub body_count: Option<i32>,
    pub non_body_count: Option<i32>,
    pub population: Option<i64>,
    pub allegiance: Option<String>,
    pub economy: Option<String>,
    pub second_economy: Option<String>,
    pub government: Option<String>,
    pub security: Option<String>,
    pub faction: Option<String>,
    pub x: Option<u32>,
    pub y: Option<u32>,
    pub z: Option<u32>,
}

/// One star row; the discovery-state columns are still undecoded.
pub struct StarRow {
    pub body_name: Option<String>,
    pub body_id: Option<i32>,
    pub distance_from_arrival_ls: Option<u32>,
    pub star_type: Option<String>,
    pub subclass: Option<i32>,
    pub stellar_mass: Option<u32>,
    pub radius: Option<u32>,
    pub absolute_magnitude: Option<u32>,
    pub age_my: Option<i32>,
    pub surface_temperature: Option<u32>,
    pub luminosity: Option<String>,
    pub semi_major_axis: Option<u32>,
    pub eccentricity: Option<u32>,
    pub orbital_inclination: Option<u32>,
    pub periapsis: Option<u32>,
    pub orbital_period: Option<u32>,
    pub ascending_node: Option<u32>,
    pub mean_anomaly: Option<u32>,
    pub rotation_period: Option<u32>,
    pub axial_tilt: Option<u32>,
    pub was_discovered: RawFlag,
    pub was_mapped: RawFlag,
}

/// One planet row; the discovery-state columns are still undecoded.
pub struct PlanetRow {
    pub body_name: Option<String>,
    pub body_id: Option<i32>,
    pub distance_from_arrival_ls: Option<u32>,
    pub tidal_lock: Option<bool>,
    pub terraform_state: Option<String>,
    pub planet_class: Option<String>,
    pub atmosphere: Option<String>,
    pub volcanism: Option<String>,
    pub mass_em: Option<u32>,
    pub radius: Option<u32>,
    pub surface_gravity: Option<u32>,
    pub surface_temperature: Option<u32>,
    pub surface_pressure: Option<u32>,
    pub landable: Option<bool>,
    pub semi_major_axis: Option<u32>,
    pub eccentricity: Option<u32>,
    pub orbital_inclination: Option<u32>,
    pub periapsis: Option<u32>,
    pub orbital_period: Option<u32>,
    pub ascending_node: Option<u32>,
    pub mean_anomaly: Option<u32>,
    pub rotation_period: Option<u32>,
    pub axial_tilt: Option<u32>,
    pub was_discovered: RawFlag,
    pub was_mapped: RawFlag,
}

/// The data-access collaborator failed to execute a query (connectivity,
/// malformed statement, type-decode failure).  The orchestrator treats it
/// exactly like an absent record: nothing is surfaced and nothing is cached.
pub struct QueryError;

} // verus!
