use orbidata::api::conjunctions::{list_conjunctions, list_conjunctions_live};
use orbidata::api::tle::{get_tle, list_tles};
use orbidata::error::AppError;
use orbidata::ingest::cdm::fetch_conjunctions;
use orbidata::ingest::spacetrack::SpaceTrackCdm;
use orbidata::models::conjunction::{CdmMeasures, ConjunctionSource, MeasuredCdm};
use orbidata::models::float64::Float64;
use orbidata::models::orbital_element::{KeplerianElements, OrbitalElement, SatelliteMetadata};
use orbidata::models::pagination::PaginationParams;

fn element(norad_id: u32) -> OrbitalElement {
    let z = Float64::from_bits(0);
    OrbitalElement {
        norad_id,
        name: format!("SAT {}", norad_id),
        object_id: None,
        object_type: None,
        epoch: "2026-04-08T12:00:00.000000".to_string(),
        elements: KeplerianElements {
            mean_motion_rev_per_day: z,
            eccentricity: z,
            inclination_deg: z,
            raan_deg: z,
            arg_of_pericenter_deg: z,
            mean_anomaly_deg: z,
            bstar: z,
            semimajor_axis_km: None,
            period_min: None,
            apoapsis_km: None,
            periapsis_km: None,
        },
        tle: None,
        metadata: SatelliteMetadata {
            country_code: None,
            launch_date: None,
            decay_date: None,
            rcs_size: None,
            site: None,
        },
    }
}

#[test]
fn list_tles_pages_by_query() {
    let sats: Vec<OrbitalElement> = (1..=120).map(element).collect();
    let r = list_tles(sats, &PaginationParams { page: Some(3), per_page: None });
    assert_eq!(r.meta.page, 3);
    assert_eq!(r.meta.per_page, 50);
    assert_eq!(r.meta.total, 120);
    assert_eq!(r.meta.total_pages, 3);
    let ids: Vec<u32> = r.data.iter().map(|e| e.norad_id).collect();
    assert_eq!(ids, (101..=120).collect::<Vec<u32>>());
}

#[test]
fn get_tle_found() {
    let r = get_tle(Some(element(25544)), 25544);
    match r {
        Ok(e) => assert_eq!(e.norad_id, 25544),
        Err(_) => panic!("expected the element"),
    }
}

#[test]
fn get_tle_not_found_names_the_number() {
    match get_tle(None, 99999) {
        Err(AppError::NotFound(msg)) => assert_eq!(msg, "No TLE found for NORAD ID 99999"),
        _ => panic!("expected not found"),
    }
}

#[test]
fn fetch_conjunctions_without_credentials_gives_samples() {
    let a = fetch_conjunctions(None, None, Vec::new()).ok().expect("samples");
    assert_eq!(a.len(), 2);
    assert_eq!(a[0].cdm_id, "CDM-2026-001-SAMPLE");
    assert_eq!(a[0].source, ConjunctionSource::Sample);
}

#[test]
fn conjunctions_without_credentials_are_sample() {
    let r = list_conjunctions(None, None, vec![measured(cdm("9"))]).ok().expect("listing");
    assert_eq!(r.data[0].cdm_id, "CDM-2026-001-SAMPLE");
    assert_eq!(r.meta.total, 2);
    assert_eq!(r.meta.source, "sample");
    assert_eq!(
        r.meta.note.as_deref(),
        Some("Configure SPACETRACK_USERNAME and SPACETRACK_PASSWORD for live CDM data")
    );
}

#[test]
fn conjunctions_with_credentials_name_space_track() {
    let r = list_conjunctions(Some("user"), None, vec![measured(cdm("1")), measured(cdm("2"))])
        .ok()
        .expect("listing");
    assert_eq!(r.meta.total, 2);
    assert_eq!(r.data[0].cdm_id, "1");
    assert_eq!(r.data[1].cdm_id, "2");
    assert!(r.data.iter().all(|c| c.source == ConjunctionSource::SpaceTrack));
    assert_eq!(r.meta.source, "space-track");
    assert!(r.meta.note.is_none());
}

fn cdm(id: &str) -> SpaceTrackCdm {
    SpaceTrackCdm {
        cdm_id: id.to_string(),
        created: None,
        emergency_reportable: None,
        tca: None,
        min_rng: None,
        pc: None,
        sat_1_id: None,
        sat_1_name: None,
        sat_2_id: None,
        sat_2_name: None,
        sat_1_object_type: None,
        sat_2_object_type: None,
        collision_percentile: None,
    }
}

#[test]
fn live_conjunctions_unavailable_without_client() {
    match list_conjunctions_live(None) {
        Err(AppError::Unavailable(msg)) => assert_eq!(
            msg,
            "Space-Track credentials not configured. Set SPACETRACK_USERNAME and SPACETRACK_PASSWORD to enable live CDM data."
        ),
        _ => panic!("expected unavailable"),
    }
}

#[test]
fn live_conjunctions_lists_fetched_records() {
    let r = list_conjunctions_live(Some(vec![measured(cdm("1")), measured(cdm("2")), measured(cdm("3"))]))
        .ok()
        .expect("listing");
    assert_eq!(r.meta.total, 3);
    assert_eq!(r.meta.source, "space-track");
    assert!(r.meta.live);
    assert_eq!(r.data[2].cdm_id, "3");
    assert_eq!(r.data[2].source, ConjunctionSource::SpaceTrack);
}

fn measured(c: SpaceTrackCdm) -> MeasuredCdm {
    MeasuredCdm {
        cdm: c,
        measures: CdmMeasures {
            miss_distance_m: None,
            probability_of_collision: None,
            collision_percentile: None,
        },
    }
}

#[test]
fn fetch_conjunctions_with_credentials_normalizes_pulled_records() {
    let r = fetch_conjunctions(Some("user"), Some("pass"), vec![measured(cdm("A")), measured(cdm("B"))])
        .ok()
        .expect("records");
    assert_eq!(r.len(), 2);
    assert_eq!(r[0].cdm_id, "A");
    assert_eq!(r[1].cdm_id, "B");
    assert_eq!(r[0].source, ConjunctionSource::SpaceTrack);
    let none = fetch_conjunctions(Some("user"), None, Vec::new()).ok().expect("records");
    assert!(none.is_empty());
}
