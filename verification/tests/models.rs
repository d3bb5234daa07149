use orbidata::ingest::celestrak::{active_satellites_url, first_normalized, norad_id_url, normalize_records};
use orbidata::models::conjunction::{sample_conjunctions, CdmMeasures, ConjunctionRecord, ConjunctionSource};
use orbidata::models::float64::Float64;
use orbidata::models::orbital_element::{CelesTrakGp, OrbitalElement};
use orbidata::text::{decimal_text, parse_u32};

fn f(x: f64) -> Float64 {
    Float64::from_bits(x.to_bits())
}

fn iss(line1: Option<&str>, line2: Option<&str>) -> CelesTrakGp {
    CelesTrakGp {
        object_name: "ISS (ZARYA)".to_string(),
        object_id: Some("1998-067A".to_string()),
        norad_cat_id: 25544,
        object_type: Some("PAYLOAD".to_string()),
        epoch: "2026-04-08T12:00:00.000000".to_string(),
        mean_motion: f(15.50104),
        eccentricity: f(0.0006703),
        inclination: f(51.6416),
        ra_of_asc_node: f(247.4627),
        arg_of_pericenter: f(130.5360),
        mean_anomaly: f(325.0288),
        bstar: f(0.000036771),
        mean_motion_dot: Some(f(0.00016717)),
        mean_motion_ddot: Some(f(0.0)),
        semimajor_axis: Some(f(6797.22)),
        period: Some(f(92.89)),
        apoapsis: Some(f(423.64)),
        periapsis: None,
        tle_line1: line1.map(|s| s.to_string()),
        tle_line2: line2.map(|s| s.to_string()),
        decay_date: None,
        site: Some("TYMSC".to_string()),
        rcs_size: Some("LARGE".to_string()),
        country_code: Some("ISS".to_string()),
        launch_date: Some("1998-11-20".to_string()),
    }
}

#[test]
fn normalization_moves_every_field() {
    let e = OrbitalElement::from(iss(Some("1 25544U"), Some("2 25544")));
    assert_eq!(e.norad_id, 25544);
    assert_eq!(e.name, "ISS (ZARYA)");
    assert_eq!(e.object_id.as_deref(), Some("1998-067A"));
    assert_eq!(e.object_type.as_deref(), Some("PAYLOAD"));
    assert_eq!(e.epoch, "2026-04-08T12:00:00.000000");
    assert_eq!(f64::from_bits(e.elements.mean_motion_rev_per_day.to_bits()), 15.50104);
    assert_eq!(f64::from_bits(e.elements.eccentricity.bits), 0.0006703);
    assert_eq!(f64::from_bits(e.elements.inclination_deg.bits), 51.6416);
    assert_eq!(f64::from_bits(e.elements.raan_deg.bits), 247.4627);
    assert_eq!(f64::from_bits(e.elements.arg_of_pericenter_deg.bits), 130.5360);
    assert_eq!(f64::from_bits(e.elements.mean_anomaly_deg.bits), 325.0288);
    assert_eq!(f64::from_bits(e.elements.bstar.bits), 0.000036771);
    assert_eq!(e.elements.semimajor_axis_km, Some(f(6797.22)));
    assert_eq!(e.elements.period_min, Some(f(92.89)));
    assert_eq!(e.elements.apoapsis_km, Some(f(423.64)));
    assert_eq!(e.elements.periapsis_km, None);
    let tle = e.tle.expect("both lines present");
    assert_eq!(tle.line1, "1 25544U");
    assert_eq!(tle.line2, "2 25544");
    assert_eq!(e.metadata.country_code.as_deref(), Some("ISS"));
    assert_eq!(e.metadata.launch_date.as_deref(), Some("1998-11-20"));
    assert_eq!(e.metadata.decay_date, None);
    assert_eq!(e.metadata.rcs_size.as_deref(), Some("LARGE"));
    assert_eq!(e.metadata.site.as_deref(), Some("TYMSC"));
}

#[test]
fn tle_needs_both_lines() {
    assert!(OrbitalElement::from(iss(Some("1 25544U"), None)).tle.is_none());
    assert!(OrbitalElement::from(iss(None, Some("2 25544"))).tle.is_none());
    assert!(OrbitalElement::from(iss(None, None)).tle.is_none());
}

#[test]
fn normalize_records_keeps_order() {
    let mut a = iss(None, None);
    a.norad_cat_id = 1;
    let mut b = iss(None, None);
    b.norad_cat_id = 2;
    let mut c = iss(None, None);
    c.norad_cat_id = 3;
    let out = normalize_records(vec![a, b, c]);
    let ids: Vec<u32> = out.iter().map(|e| e.norad_id).collect();
    assert_eq!(ids, vec![1, 2, 3]);
    assert!(normalize_records(Vec::new()).is_empty());
}

#[test]
fn first_normalized_takes_first_record() {
    let mut a = iss(None, None);
    a.norad_cat_id = 10;
    let mut b = iss(None, None);
    b.norad_cat_id = 20;
    assert_eq!(first_normalized(vec![a, b]).map(|e| e.norad_id), Some(10));
    assert!(first_normalized(Vec::new()).is_none());
}

#[test]
fn celestrak_urls() {
    assert_eq!(
        active_satellites_url(),
        "https://celestrak.org/NORAD/elements/gp.php?GROUP=active&FORMAT=json"
    );
    assert_eq!(
        norad_id_url(25544),
        "https://celestrak.org/NORAD/elements/gp.php?CATNR=25544&FORMAT=json"
    );
    assert_eq!(norad_id_url(0), "https://celestrak.org/NORAD/elements/gp.php?CATNR=0&FORMAT=json");
}

#[test]
fn decimal_text_matches_to_string() {
    for n in [0u32, 7, 10, 99, 100, 25544, 4_000_000_000, u32::MAX] {
        assert_eq!(decimal_text(n), n.to_string());
    }
}

#[test]
fn sample_conjunctions_match_readme() {
    let s = sample_conjunctions();
    assert_eq!(s.len(), 2);
    let a = &s[0];
    assert_eq!(a.cdm_id, "CDM-2026-001-SAMPLE");
    assert_eq!(a.created, "2026-04-08T00:00:00Z");
    assert_eq!(a.emergency_reportable.as_deref(), Some("N"));
    assert_eq!(a.tca, "2026-04-10T14:23:00Z");
    assert_eq!(f64::from_bits(a.miss_distance_m.bits), 312.5);
    assert_eq!(a.probability_of_collision.map(|x| f64::from_bits(x.bits)), Some(1.2e-4));
    assert_eq!(a.sat1_id, 25544);
    assert_eq!(a.sat1_name, "ISS (ZARYA)");
    assert_eq!(a.sat2_id, 48274);
    assert_eq!(a.sat2_name, "COSMOS 1408 DEB");
    assert_eq!(a.sat1_object_type.as_deref(), Some("PAYLOAD"));
    assert_eq!(a.sat2_object_type.as_deref(), Some("DEBRIS"));
    assert_eq!(a.collision_percentile.map(|x| f64::from_bits(x.bits)), Some(97.3));
    assert_eq!(a.source, ConjunctionSource::Sample);
    let b = &s[1];
    assert_eq!(b.cdm_id, "CDM-2026-002-SAMPLE");
    assert_eq!(b.tca, "2026-04-11T07:45:00Z");
    assert_eq!(f64::from_bits(b.miss_distance_m.bits), 890.0);
    assert_eq!(b.probability_of_collision.map(|x| f64::from_bits(x.bits)), Some(3.4e-5));
    assert_eq!(b.sat1_id, 43013);
    assert_eq!(b.sat1_name, "STARLINK-1130");
    assert_eq!(b.sat2_id, 16908);
    assert_eq!(b.sat2_name, "COSMOS 1953");
    assert_eq!(b.sat2_object_type.as_deref(), Some("PAYLOAD"));
    assert_eq!(b.collision_percentile.map(|x| f64::from_bits(x.bits)), Some(78.1));
    assert_eq!(b.source, ConjunctionSource::Sample);
}

fn st_cdm() -> orbidata::ingest::spacetrack::SpaceTrackCdm {
    orbidata::ingest::spacetrack::SpaceTrackCdm {
        cdm_id: "123456".to_string(),
        created: Some("2026-04-08 00:00:00".to_string()),
        emergency_reportable: Some("N".to_string()),
        tca: Some("2026-04-10T14:23:00".to_string()),
        min_rng: Some("312.5".to_string()),
        pc: Some("0.00012".to_string()),
        sat_1_id: Some("25544".to_string()),
        sat_1_name: Some("ISS (ZARYA)".to_string()),
        sat_2_id: Some("+48274".to_string()),
        sat_2_name: None,
        sat_1_object_type: Some("PAYLOAD".to_string()),
        sat_2_object_type: None,
        collision_percentile: None,
    }
}

#[test]
fn from_spacetrack_normalizes_a_cdm() {
    let measures = CdmMeasures {
        miss_distance_m: Some(f(312.5)),
        probability_of_collision: Some(f(0.00012)),
        collision_percentile: None,
    };
    let r = ConjunctionRecord::from_spacetrack(st_cdm(), measures);
    assert_eq!(r.cdm_id, "123456");
    assert_eq!(r.created, "2026-04-08 00:00:00");
    assert_eq!(r.emergency_reportable.as_deref(), Some("N"));
    assert_eq!(r.tca, "2026-04-10T14:23:00");
    assert_eq!(f64::from_bits(r.miss_distance_m.bits), 312.5);
    assert_eq!(r.probability_of_collision, Some(f(0.00012)));
    assert_eq!(r.sat1_id, 25544);
    assert_eq!(r.sat1_name, "ISS (ZARYA)");
    assert_eq!(r.sat2_id, 48274);
    assert_eq!(r.sat2_name, "");
    assert_eq!(r.sat1_object_type.as_deref(), Some("PAYLOAD"));
    assert_eq!(r.sat2_object_type, None);
    assert_eq!(r.collision_percentile, None);
    assert_eq!(r.source, ConjunctionSource::SpaceTrack);
}

#[test]
fn from_spacetrack_defaults() {
    let mut c = st_cdm();
    c.sat_1_id = Some("not a number".to_string());
    c.sat_2_id = None;
    c.created = None;
    let r = ConjunctionRecord::from_spacetrack(
        c,
        CdmMeasures { miss_distance_m: None, probability_of_collision: None, collision_percentile: None },
    );
    assert_eq!(r.sat1_id, 0);
    assert_eq!(r.sat2_id, 0);
    assert_eq!(r.created, "");
    assert_eq!(r.miss_distance_m.bits, 0);
}

#[test]
fn parse_u32_matches_std() {
    for t in ["0", "25544", "+7", "4294967295", "4294967296", "", "+", "-1", " 1", "12a", "00012", "99999999999"] {
        assert_eq!(parse_u32(t), t.parse::<u32>().ok(), "{:?}", t);
    }
}
