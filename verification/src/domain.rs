//! Domain objects assembled by the aggregation engine and handed out by the
//! lookup operations.
//!
//! Every numeric or derived attribute is optional: an absent value means the
//! underlying aggregate or column was undefined, never a sentinel.  Fractional
//! physical attributes (coordinates, masses, orbital elements) are carried as
//! raw IEEE-754 single-precision bit patterns (`u32`); the library stores and
//! returns them untouched and never computes on them.

use vstd::prelude::*;

verus! {

/// The best offer for a commodity at one station: the price together with the
/// station that holds it and the system that contains the station.
pub struct Offer {
    pub price: u64,
    pub station_name: String,
    pub system_name: String,
}

impl Offer {
    /// An exact copy; the cache hands copies out, never its own entry.
    pub fn duplicate(&self) -> (r: Offer)
        ensures
            r == *self,
    {
        Offer {
            price: self.price,
            station_name: self.station_name.clone(),
            system_name: self.system_name.clone(),
        }
    }
}

/// Market statistics for one tradeable commodity: the three headline averages
/// and the two extremal offers.  Each average is absent when no row carried a
/// value for that column.
pub struct Commodity {
    pub name: String,
    pub buy_price: Option<u64>,
    pub sell_price: Option<u64>,
    pub mean_price: Option<u64>,
    pub lowest_buy_price: Option<Offer>,
    pub highest_sell_price: Option<Offer>,
}

impl Commodity {
    /// An exact copy; the cache hands copies out, never its own entry.
    pub fn duplicate(&self) -> (r: Commodity)
        ensures
            r == *self,
    {
        Commodity {
            name: self.name.clone(),
            buy_price: self.buy_price,
            sell_price: self.sell_price,
            mean_price: self.mean_price,
            lowest_buy_price: match &self.lowest_buy_price {
                None => None,
                Some(o) => Some(o.duplicate()),
            },
            highest_sell_price: match &self.highest_sell_price {
                None => None,
                Some(o) => Some(o.duplicate()),
            },
        }
    }
}

/// One star orbiting a system.  Discovery-state flags are `None` when the
/// source column was null or failed to parse.
pub struct Star {
    pub body_name: Option<String>,
    pub body_id: Option<i32>,
    pub distance_from_arrival_ls: Option<u32>,
    pub star_type: Option<String>,
    pub subclass: Option<i32>,
    pub stellar_mass: Option<u32>,
    pub radius: Option<u32>,
    pub absolute_magnitude: Option<u32>,
    pub age_my: Option<i32>,
    pub surface_temperature: Option<u32>,
    pub luminosity: Option<String>,
    pub semi_major_axis: Option<u32>,
    pub eccentricity: Option<u32>,
    pub orbital_inclination: Option<u32>,
    pub periapsis: Option<u32>,
    pub orbital_period: Option<u32>,
    pub ascending_node: Option<u32>,
    pub mean_anomaly: Option<u32>,
    pub rotation_period: Option<u32>,
    pub axial_tilt: Option<u32>,
    pub was_discovered: Option<bool>,
    pub was_mapped: Option<bool>,
}

impl Star {
    /// An exact copy; the cache hands copies out, never its own entry.
    pub fn duplicate(&self) -> (r: Star)
        ensures
            r == *self,
    {
        Star {
            body_name: clone_opt_string(&self.body_name),
            body_id: self.body_id,
            distance_from_arrival_ls: self.distance_from_arrival_ls,
            star_type: clone_opt_string(&self.star_type),
            subclass: self.subclass,
            stellar_mass: self.stellar_mass,
            radius: self.radius,
            absolute_magnitude: self.absolute_magnitude,
            age_my: self.age_my,
            surface_temperature: self.surface_temperature,
            luminosity: clone_opt_string(&self.luminosity),
            semi_major_axis: self.semi_major_axis,
            eccentricity: self.eccentricity,
            orbital_inclination: self.orbital_inclination,
            periapsis: self.periapsis,
            orbital_period: self.orbital_period,
            ascending_node: self.ascending_node,
            mean_anomaly: self.mean_anomaly,
            rotation_period: self.rotation_period,
            axial_tilt: self.axial_tilt,
            was_discovered: self.was_discovered,
            was_mapped: self.was_mapped,
        }
    }
}

/// One planet orbiting a system.  Discovery-state flags are `None` when the
/// source column was null or failed to parse.
pub struct Planet {
    pub body_name: Option<String>,
    pub body_id: Option<i32>,
    pub distance_from_arrival_ls: Option<u32>,
    pub tidal_lock: Option<bool>,
    pub terraform_state: Option<String>,
    pub planet_class: Option<String>,
    pub atmosphere: Option<String>,
    pub volcanism: Option<String>,
    pub mass_em: Option<u32>,
    pub radius: Option<u32>,
    pub surface_gravity: Option<u32>,
    pub surface_temperature: Option<u32>,
    pub surface_pressure: Option<u32>,
    pub landable: Option<bool>,
    pub semi_major_axis: Option<u32>,
    pub eccentricity: Option<u32>,
    pub orbital_inclination: Option<u32>,
    pub periapsis: Option<u32>,
    pub orbital_period: Option<u32>,
    pub ascending_node: Option<u32>,
    pub mean_anomaly: Option<u32>,
    pub rotation_period: Option<u32>,
    pub axial_tilt: Option<u32>,
    pub was_discovered: Option<bool>,
    pub was_mapped: Option<bool>,
}

impl Planet {
    /// An exact copy; the cache hands copies out, never its own entry.
    pub fn duplicate(&self) -> (r: Planet)
        ensures
            r == *self,
    {
        Planet {
            body_name: clone_opt_string(&self.body_name),
            body_id: self.body_id,
            distance_from_arrival_ls: self.distance_from_arrival_ls,
            tidal_lock: self.tidal_lock,
            terraform_state: clone_opt_string(&self.terraform_state),
            planet_class: clone_opt_string(&self.planet_class),
            atmosphere: clone_opt_string(&self.atmosphere),
            volcanism: clone_opt_string(&self.volcanism),
            mass_em: self.mass_em,
            radius: self.radius,
            surface_gravity: self.surface_gravity,
            surface_temperature: self.surface_temperature,
            surface_pressure: self.surface_pressure,
            landable: self.landable,
            semi_major_axis: self.semi_major_axis,
            eccentricity: self.eccentricity,
            orbital_inclination: self.orbital_inclination,
            periapsis: self.periapsis,
            orbital_period: self.orbital_period,
            ascending_node: self.ascending_node,
            mean_anomaly: self.mean_anomaly,
            rotation_period: self.rotation_period,
            axial_tilt: self.axial_tilt,
            was_discovered: self.was_discovered,
            was_mapped: self.was_mapped,
        }
    }
}

/// The mathematical value of a [`System`]: the same attributes with the child
/// collections abstracted to sequences.  Contracts speak of systems through
/// this view.
pub ghost struct SystemView {
    pub name: Option<String>,
    pub address: u64,
    pub body_count: Option<i32>,
    pub non_body_count: Option<i32>,
    pub population: Option<i64>,
    pub allegiance: Option<String>,
    pub economy: Option<String>,
    pub second_economy: Option<String>,
    pub government: Option<String>,
    pub security: Option<String>,
    pub faction: Option<String>,
    pub x: Option<u32>,
    pub y: Option<u32>,
    pub z: Option<u32>,
    pub stars: Seq<Star>,
    pub planets: Seq<Planet>,
}

/// An astronomical system with its socio-economic attributes and all orbiting
/// stars and planets.  The child collections are always present; a childless
/// system carries empty collections, never absent ones.
pub struct System {
    pub name: Option<String>,
    pub address: u64,
    pub body_count: Option<i32>,
    pub non_body_count: Option<i32>,
    pub population: Option<i64>,
    pub allegiance: Option<String>,
    pub economy: Option<String>,
    pub second_economy: Option<String>,
    pub government: Option<String>,
    pub security: Option<String>,
    pub faction: Option<String>,
    pub x: Option<u32>,
    pub y: Option<u32>,
    pub z: Option<u32>,
    pub stars: Vec<Star>,
    pub planets: Vec<Planet>,
}

impl View for System {
    type V = SystemView;

    open spec fn view(&self) -> SystemView {
        SystemView {
            name: self.name,
            address: self.address,
            body_count: self.body_count,
            non_body_count: self.non_body_count,
            population: self.population,
            allegiance: self.allegiance,
            economy: self.economy,
            second_economy: self.second_economy,
            government: self.government,
            security: self.security,
            faction: self.faction,
            x: self.x,
            y: self.y,
            z: self.z,
            stars: self.stars@,
            planets: self.planets@,
        }
    }
}

impl System {
    /// An exact copy; the cache hands copies out, never its own entry.
    pub fn duplicate(&self) -> (r: System)
        ensures
            r@ == self@,
    {
        let mut stars: Vec<Star> = Vec::new();
        let mut i: usize = 0;
        while i < self.stars.len()
            invariant
                i <= self.stars.len(),
                stars@ == self.stars@.subrange(0, i as int),
            decreases self.stars.len() - i,
        {
            stars.push(self.stars[i].duplicate());
            i = i + 1;
            proof {
                assert(stars@ =~= self.stars@.subrange(0, i as int));
            }
        }
        let mut planets: Vec<Planet> = Vec::new();
        let mut j: usize = 0;
        while j < self.planets.len()
            invariant
                j <= self.planets.len(),
                planets@ == self.planets@.subrange(0, j as int),
            decreases self.planets.len() - j,
        {
            planets.push(self.planets[j].duplicate());
            j = j + 1;
            proof {
                assert(planets@ =~= self.planets@.subrange(0, j as int));
            }
        }
        let r = System {
            name: clone_opt_string(&self.name),
            address: self.address,
            body_count: self.body_count,
            non_body_count: self.non_body_count,
            population: self.population,
            allegiance: clone_opt_string(&self.allegiance),
            economy: clone_opt_string(&self.economy),
            second_economy: clone_opt_string(&self.second_economy),
            government: clone_opt_string(&self.government),
            security: clone_opt_string(&self.security),
            faction: clone_opt_string(&self.faction),
            x: self.x,
            y: self.y,
            z: self.z,
            stars,
            planets,
        };
        proof {
            assert(self.stars@.subrange(0, self.stars@.len() as int) =~= self.stars@);
            assert(self.planets@.subrange(0, self.planets@.len() as int) =~= self.planets@);
        }
        r
    }
}

/// An exact copy of an optional string.
pub fn clone_opt_string(s: &Option<String>) -> (r: Option<String>)
    ensures
        r == *s,
{
    match s {
        None => None,
        Some(v) => Some(v.clone()),
    }
}

} // verus!
