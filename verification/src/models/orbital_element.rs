use vstd::prelude::*;
use crate::models::float64::Float64;

verus! {

/// One record of the CelesTrak GP API in CCSDS OMM JSON form.
#[derive(Clone, Debug)]
pub struct CelesTrakGp {
    pub object_name: String,
    pub object_id: Option<String>,
    pub norad_cat_id: u32,
    pub object_type: Option<String>,
    pub epoch: String,
    pub mean_motion: Float64,
    pub eccentricity: Float64,
    pub inclination: Float64,
    pub ra_of_asc_node: Float64,
    pub arg_of_pericenter: Float64,
    pub mean_anomaly: Float64,
    pub bstar: Float64,
    pub mean_motion_dot: Option<Float64>,
    pub mean_motion_ddot: Option<Float64>,
    pub semimajor_axis: Option<Float64>,
    pub period: Option<Float64>,
    pub apoapsis: Option<Float64>,
    pub periapsis: Option<Float64>,
    pub tle_line1: Option<String>,
    pub tle_line2: Option<String>,
    pub decay_date: Option<String>,
    pub site: Option<String>,
    pub rcs_size: Option<String>,
    pub country_code: Option<String>,
    pub launch_date: Option<String>,
}

/// Normalized orbital element set returned by the API.
#[derive(Clone, Debug)]
pub struct OrbitalElement {
    pub norad_id: u32,
    pub name: String,
    pub object_id: Option<String>,
    pub object_type: Option<String>,
    pub epoch: String,
    pub elements: KeplerianElements,
    pub tle: Option<TleLines>,
    pub metadata: SatelliteMetadata,
}

/// The mean Keplerian elements of an orbit.
#[derive(Clone, Debug)]
pub struct KeplerianElements {
    /// Mean motion (revolutions per day)
    pub mean_motion_rev_per_day: Float64,
    /// Eccentricity (dimensionless)
    pub eccentricity: Float64,
    /// Inclination (degrees)
    pub inclination_deg: Float64,
    /// Right ascension of ascending node (degrees)
    pub raan_deg: Float64,
    /// Argument of pericenter (degrees)
    pub arg_of_pericenter_deg: Float64,
    /// Mean anomaly (degrees)
    pub mean_anomaly_deg: Float64,
    /// BSTAR drag term
    pub bstar: Float64,
    /// Semi-major axis (km), if available
    pub semimajor_axis_km: Option<Float64>,
    /// Orbital period (minutes), if available
    pub period_min: Option<Float64>,
    /// Apoapsis altitude (km), if available
    pub apoapsis_km: Option<Float64>,
    /// Periapsis altitude (km), if available
    pub periapsis_km: Option<Float64>,
}

/// The two lines of a two-line element set.
#[derive(Clone, Debug)]
pub struct TleLines {
    pub line1: String,
    pub line2: String,
}

/// Catalogue facts about a satellite.
#[derive(Clone, Debug)]
pub struct SatelliteMetadata {
    pub country_code: Option<String>,
    pub launch_date: Option<String>,
    pub decay_date: Option<String>,
    pub rcs_size: Option<String>,
    pub site: Option<String>,
}

/// The TLE of a record: present only when both of its lines are.
pub open spec fn paired_tle(line1: Option<String>, line2: Option<String>) -> Option<TleLines> {
    match (line1, line2) {
        (Some(l1), Some(l2)) => Some(TleLines { line1: l1, line2: l2 }),
        _ => None,
    }
}

/// The normalized element set of a CelesTrak record: every field is carried
/// over under its normalized name, the two TLE lines are kept only as a
/// pair, and the mean-motion derivatives are not carried.
pub open spec fn normalized(gp: CelesTrakGp) -> OrbitalElement {
    OrbitalElement {
        norad_id: gp.norad_cat_id,
        name: gp.object_name,
        object_id: gp.object_id,
        object_type: gp.object_type,
        epoch: gp.epoch,
        elements: KeplerianElements {
            mean_motion_rev_per_day: gp.mean_motion,
            eccentricity: gp.eccentricity,
            inclination_deg: gp.inclination,
            raan_deg: gp.ra_of_asc_node,
            arg_of_pericenter_deg: gp.arg_of_pericenter,
            mean_anomaly_deg: gp.mean_anomaly,
            bstar: gp.bstar,
            semimajor_axis_km: gp.semimajor_axis,
            period_min: gp.period,
            apoapsis_km: gp.apoapsis,
            periapsis_km: gp.periapsis,
        },
        tle: paired_tle(gp.tle_line1, gp.tle_line2),
        metadata: SatelliteMetadata {
            country_code: gp.country_code,
            launch_date: gp.launch_date,
            decay_date: gp.decay_date,
            rcs_size: gp.rcs_size,
            site: gp.site,
        },
    }
}

impl From<CelesTrakGp> for OrbitalElement {
    /// Every field of the record is carried to the like-named normalized
    /// field; the TLE is kept only when both of its lines are given.
    fn from(gp: CelesTrakGp) -> (r: Self)
        ensures
            r.norad_id == gp.norad_cat_id,
            r.name == gp.object_name,
            r.object_id == gp.object_id,
            r.object_type == gp.object_type,
            r.epoch == gp.epoch,
            r.elements.mean_motion_rev_per_day == gp.mean_motion,
            r.elements.eccentricity == gp.eccentricity,
            r.elements.inclination_deg == gp.inclination,
            r.elements.raan_deg == gp.ra_of_asc_node,
            r.elements.arg_of_pericenter_deg == gp.arg_of_pericenter,
            r.elements.mean_anomaly_deg == gp.mean_anomaly,
            r.elements.bstar == gp.bstar,
            r.elements.semimajor_axis_km == gp.semimajor_axis,
            r.elements.period_min == gp.period,
            r.elements.apoapsis_km == gp.apoapsis,
            r.elements.periapsis_km == gp.periapsis,
            gp.tle_line1 is Some && gp.tle_line2 is Some ==> (r.tle matches Some(t) && t.line1
                == gp.tle_line1.unwrap() && t.line2 == gp.tle_line2.unwrap()),
            gp.tle_line1 is None || gp.tle_line2 is None ==> r.tle is None,
            r.metadata.country_code == gp.country_code,
            r.metadata.launch_date == gp.launch_date,
            r.metadata.decay_date == gp.decay_date,
            r.metadata.rcs_size == gp.rcs_size,
            r.metadata.site == gp.site,
    {
        let tle = match (gp.tle_line1, gp.tle_line2) {
            (Some(l1), Some(l2)) => Some(TleLines { line1: l1, line2: l2 }),
            _ => None,
        };

        OrbitalElement {
            norad_id: gp.norad_cat_id,
            name: gp.object_name,
            object_id: gp.object_id,
            object_type: gp.object_type,
            epoch: gp.epoch,
            elements: KeplerianElements {
                mean_motion_rev_per_day: gp.mean_motion,
                eccentricity: gp.eccentricity,
                inclination_deg: gp.inclination,
                raan_deg: gp.ra_of_asc_node,
                arg_of_pericenter_deg: gp.arg_of_pericenter,
                mean_anomaly_deg: gp.mean_anomaly,
                bstar: gp.bstar,
                semimajor_axis_km: gp.semimajor_axis,
                period_min: gp.period,
                apoapsis_km: gp.apoapsis,
                periapsis_km: gp.periapsis,
            },
            tle,
            metadata: SatelliteMetadata {
                country_code: gp.country_code,
                launch_date: gp.launch_date,
                decay_date: gp.decay_date,
                rcs_size: gp.rcs_size,
                site: gp.site,
            },
        }
    }
}

impl vstd::std_specs::convert::FromSpecImpl<CelesTrakGp> for OrbitalElement {
    open spec fn obeys_from_spec() -> bool {
        true
    }

    open spec fn from_spec(v: CelesTrakGp) -> OrbitalElement {
        normalized(v)
    }
}


/// Normalizing a CelesTrak record carries each of its fields, unchanged,
/// to the normalized field of the same meaning: the catalogue number, the
/// names, the epoch, every Keplerian element (periapsis to periapsis,
/// apoapsis to apoapsis, and so on), the TLE lines as a pair, and the
/// catalogue facts.
pub proof fn lemma_normalized_fields(gp: CelesTrakGp)
    ensures
        ({
            let r = normalized(gp);
            &&& r.norad_id == gp.norad_cat_id
            &&& r.name == gp.object_name
            &&& r.object_id == gp.object_id
            &&& r.object_type == gp.object_type
            &&& r.epoch == gp.epoch
            &&& r.elements.mean_motion_rev_per_day == gp.mean_motion
            &&& r.elements.eccentricity == gp.eccentricity
            &&& r.elements.inclination_deg == gp.inclination
            &&& r.elements.raan_deg == gp.ra_of_asc_node
            &&& r.elements.arg_of_pericenter_deg == gp.arg_of_pericenter
            &&& r.elements.mean_anomaly_deg == gp.mean_anomaly
            &&& r.elements.bstar == gp.bstar
            &&& r.elements.semimajor_axis_km == gp.semimajor_axis
            &&& r.elements.period_min == gp.period
            &&& r.elements.apoapsis_km == gp.apoapsis
            &&& r.elements.periapsis_km == gp.periapsis
            &&& (gp.tle_line1 is Some && gp.tle_line2 is Some) ==> (r.tle matches Some(t)
                && t.line1 == gp.tle_line1.unwrap() && t.line2 == gp.tle_line2.unwrap())
            &&& (gp.tle_line1 is None || gp.tle_line2 is None) ==> r.tle is None
            &&& r.metadata.country_code == gp.country_code
            &&& r.metadata.launch_date == gp.launch_date
            &&& r.metadata.decay_date == gp.decay_date
            &&& r.metadata.rcs_size == gp.rcs_size
            &&& r.metadata.site == gp.site
        }),
{
}

} // verus!
