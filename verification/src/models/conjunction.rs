use vstd::prelude::*;
use crate::ingest::spacetrack::SpaceTrackCdm;
use crate::models::float64::Float64;
use crate::text::{parse_u32, parsed_u32};

verus! {

/// Where a conjunction record came from.
#[derive(Clone, Copy, Debug, PartialEq, Eq, Structural)]
pub enum ConjunctionSource {
    SpaceTrack,
    Sample,
}

/// Normalized CDM (CCSDS Conjunction Data Message) record.
/// Mirrors the key fields from Space-Track CDM JSON format.
#[derive(Clone, Debug)]
pub struct ConjunctionRecord {
    pub cdm_id: String,
    pub created: String,
    pub emergency_reportable: Option<String>,
    pub tca: String,
    pub miss_distance_m: Float64,
    pub probability_of_collision: Option<Float64>,
    pub sat1_id: u32,
    pub sat1_name: String,
    pub sat2_id: u32,
    pub sat2_name: String,
    pub sat1_object_type: Option<String>,
    pub sat2_object_type: Option<String>,
    pub collision_percentile: Option<Float64>,
    pub source: ConjunctionSource,
}

/// A conjunction record with its texts taken as character sequences.
pub struct ConjunctionRecordView {
    pub cdm_id: Seq<char>,
    pub created: Seq<char>,
    pub emergency_reportable: Option<Seq<char>>,
    pub tca: Seq<char>,
    pub miss_distance_m: Float64,
    pub probability_of_collision: Option<Float64>,
    pub sat1_id: u32,
    pub sat1_name: Seq<char>,
    pub sat2_id: u32,
    pub sat2_name: Seq<char>,
    pub sat1_object_type: Option<Seq<char>>,
    pub sat2_object_type: Option<Seq<char>>,
    pub collision_percentile: Option<Float64>,
    pub source: ConjunctionSource,
}

/// The characters of an optional text.
pub open spec fn text_view(s: Option<String>) -> Option<Seq<char>> {
    match s {
        Some(t) => Some(t@),
        None => None,
    }
}

impl View for ConjunctionRecord {
    type V = ConjunctionRecordView;

    open spec fn view(&self) -> ConjunctionRecordView {
        ConjunctionRecordView {
            cdm_id: self.cdm_id@,
            created: self.created@,
            emergency_reportable: text_view(self.emergency_reportable),
            tca: self.tca@,
            miss_distance_m: self.miss_distance_m,
            probability_of_collision: self.probability_of_collision,
            sat1_id: self.sat1_id,
            sat1_name: self.sat1_name@,
            sat2_id: self.sat2_id,
            sat2_name: self.sat2_name@,
            sat1_object_type: text_view(self.sat1_object_type),
            sat2_object_type: text_view(self.sat2_object_type),
            collision_percentile: self.collision_percentile,
            source: self.source,
        }
    }
}

/// The first sample CDM: ISS (ZARYA) and a COSMOS 1408 debris fragment,
/// seen at their closest approach on 10 April 2026.
pub open spec fn first_sample() -> ConjunctionRecordView {
    ConjunctionRecordView {
        cdm_id: "CDM-2026-001-SAMPLE"@,
        created: "2026-04-08T00:00:00Z"@,
        emergency_reportable: Some("N"@),
        tca: "2026-04-10T14:23:00Z"@,
        miss_distance_m: Float64 { bits: 0x4073_8800_0000_0000 },
        probability_of_collision: Some(Float64 { bits: 0x3f1f_7510_4d55_1d69 }),
        sat1_id: 25544,
        sat1_name: "ISS (ZARYA)"@,
        sat2_id: 48274,
        sat2_name: "COSMOS 1408 DEB"@,
        sat1_object_type: Some("PAYLOAD"@),
        sat2_object_type: Some("DEBRIS"@),
        collision_percentile: Some(Float64 { bits: 0x4058_5333_3333_3333 }),
        source: ConjunctionSource::Sample,
    }
}

/// The second sample CDM: STARLINK-1130 and COSMOS 1953, seen at their
/// closest approach on 11 April 2026.
pub open spec fn second_sample() -> ConjunctionRecordView {
    ConjunctionRecordView {
        cdm_id: "CDM-2026-002-SAMPLE"@,
        created: "2026-04-08T00:00:00Z"@,
        emergency_reportable: Some("N"@),
        tca: "2026-04-11T07:45:00Z"@,
        miss_distance_m: Float64 { bits: 0x408b_d000_0000_0000 },
        probability_of_collision: Some(Float64 { bits: 0x3f01_d367_1ac1_4c66 }),
        sat1_id: 43013,
        sat1_name: "STARLINK-1130"@,
        sat2_id: 16908,
        sat2_name: "COSMOS 1953"@,
        sat1_object_type: Some("PAYLOAD"@),
        sat2_object_type: Some("PAYLOAD"@),
        collision_percentile: Some(Float64 { bits: 0x4053_8666_6666_6666 }),
        source: ConjunctionSource::Sample,
    }
}

/// The sample CDMs, in order.
pub open spec fn sample_views() -> Seq<ConjunctionRecordView> {
    seq![first_sample(), second_sample()]
}

/// The records of `records`, each taken by its view.
pub open spec fn record_views(records: Seq<ConjunctionRecord>) -> Seq<ConjunctionRecordView> {
    records.map_values(|r: ConjunctionRecord| r@)
}

fn text(s: &str) -> (r: String)
    ensures
        r@ == s@,
{
    String::from_str(s)
}

fn some_text(s: &str) -> (r: Option<String>)
    ensures
        text_view(r) == Some(s@),
{
    Some(String::from_str(s))
}

/// Sample CDMs used when Space-Track credentials are not configured.
pub fn sample_conjunctions() -> (r: Vec<ConjunctionRecord>)
    ensures
        record_views(r@) == sample_views(),
{
    let first = ConjunctionRecord {
        cdm_id: text("CDM-2026-001-SAMPLE"),
        created: text("2026-04-08T00:00:00Z"),
        emergency_reportable: some_text("N"),
        tca: text("2026-04-10T14:23:00Z"),
        miss_distance_m: Float64::from_bits(0x4073_8800_0000_0000),
        probability_of_collision: Some(Float64::from_bits(0x3f1f_7510_4d55_1d69)),
        sat1_id: 25544,
        sat1_name: text("ISS (ZARYA)"),
        sat2_id: 48274,
        sat2_name: text("COSMOS 1408 DEB"),
        sat1_object_type: some_text("PAYLOAD"),
        sat2_object_type: some_text("DEBRIS"),
        collision_percentile: Some(Float64::from_bits(0x4058_5333_3333_3333)),
        source: ConjunctionSource::Sample,
    };
    let second = ConjunctionRecord {
        cdm_id: text("CDM-2026-002-SAMPLE"),
        created: text("2026-04-08T00:00:00Z"),
        emergency_reportable: some_text("N"),
        tca: text("2026-04-11T07:45:00Z"),
        miss_distance_m: Float64::from_bits(0x408b_d000_0000_0000),
        probability_of_collision: Some(Float64::from_bits(0x3f01_d367_1ac1_4c66)),
        sat1_id: 43013,
        sat1_name: text("STARLINK-1130"),
        sat2_id: 16908,
        sat2_name: text("COSMOS 1953"),
        sat1_object_type: some_text("PAYLOAD"),
        sat2_object_type: some_text("PAYLOAD"),
        collision_percentile: Some(Float64::from_bits(0x4053_8666_6666_6666)),
        source: ConjunctionSource::Sample,
    };
    assert(first@ == first_sample());
    assert(second@ == second_sample());
    let mut records: Vec<ConjunctionRecord> = Vec::new();
    records.push(first);
    records.push(second);
    assert(record_views(records@) =~= sample_views());
    records
}


/// The numbers that a Space-Track CDM writes as text in `MIN_RNG`, `PC`
/// and `COLLISION_PERCENTILE`, each read as a binary64 number (`None` where
/// the field is absent or does not read as one).
#[derive(Clone, Copy, Debug)]
pub struct CdmMeasures {
    pub miss_distance_m: Option<Float64>,
    pub probability_of_collision: Option<Float64>,
    pub collision_percentile: Option<Float64>,
}

/// A Space-Track CDM together with the numbers read from its texts.
#[derive(Clone, Debug)]
pub struct MeasuredCdm {
    pub cdm: SpaceTrackCdm,
    pub measures: CdmMeasures,
}

/// The characters of an optional text, or none when it is absent.
pub open spec fn text_or_empty(s: Option<String>) -> Seq<char> {
    match s {
        Some(t) => t@,
        None => Seq::empty(),
    }
}

/// The catalogue number an optional text writes in decimal, or 0 when it
/// is absent or is not a decimal `u32`.
pub open spec fn catalog_number(s: Option<String>) -> u32 {
    match s {
        Some(t) => match parsed_u32(vstd::utf8::encode_utf8(t@)) {
            Some(n) => n,
            None => 0,
        },
        None => 0,
    }
}

/// The normalized record of a Space-Track CDM: its texts carried over
/// (absent required texts as empty), the satellite numbers read from their
/// decimal texts, the measured numbers as read (an absent miss distance as
/// the binary64 zero), and Space-Track as the source.
pub open spec fn spacetrack_record(cdm: SpaceTrackCdm, measures: CdmMeasures) -> ConjunctionRecordView {
    ConjunctionRecordView {
        cdm_id: cdm.cdm_id@,
        created: text_or_empty(cdm.created),
        emergency_reportable: text_view(cdm.emergency_reportable),
        tca: text_or_empty(cdm.tca),
        miss_distance_m: match measures.miss_distance_m {
            Some(x) => x,
            None => Float64 { bits: 0 },
        },
        probability_of_collision: measures.probability_of_collision,
        sat1_id: catalog_number(cdm.sat_1_id),
        sat1_name: text_or_empty(cdm.sat_1_name),
        sat2_id: catalog_number(cdm.sat_2_id),
        sat2_name: text_or_empty(cdm.sat_2_name),
        sat1_object_type: text_view(cdm.sat_1_object_type),
        sat2_object_type: text_view(cdm.sat_2_object_type),
        collision_percentile: measures.collision_percentile,
        source: ConjunctionSource::SpaceTrack,
    }
}

/// The normalized records of measured CDMs, in order.
pub open spec fn spacetrack_records(pulled: Seq<MeasuredCdm>) -> Seq<ConjunctionRecordView> {
    pulled.map_values(|m: MeasuredCdm| spacetrack_record(m.cdm, m.measures))
}

fn text_or_new(s: Option<String>) -> (r: String)
    ensures
        r@ == text_or_empty(s),
{
    match s {
        Some(t) => t,
        None => String::new(),
    }
}

fn catalog_number_of(s: &Option<String>) -> (r: u32)
    ensures
        r == catalog_number(*s),
{
    match s {
        Some(t) => match parse_u32(t.as_str()) {
            Some(n) => n,
            None => 0,
        },
        None => 0,
    }
}

impl ConjunctionRecord {
    /// Normalizes a Space-Track CDM, given the numbers read from its texts.
    /// Each text of the CDM goes to the like-named field of the record
    /// (an absent required text as empty), the satellite numbers are read
    /// from their decimal texts, the measured numbers are taken as read, and
    /// Space-Track is the source.
    pub fn from_spacetrack(cdm: SpaceTrackCdm, measures: CdmMeasures) -> (r: ConjunctionRecord)
        ensures
            r@ == spacetrack_record(cdm, measures),
            r.cdm_id == cdm.cdm_id,
            r.created@ == (match cdm.created { Some(t) => t@, None => Seq::<char>::empty() }),
            r.emergency_reportable == cdm.emergency_reportable,
            r.tca@ == (match cdm.tca { Some(t) => t@, None => Seq::<char>::empty() }),
            measures.miss_distance_m matches Some(x) ==> r.miss_distance_m == x,
            measures.miss_distance_m is None ==> r.miss_distance_m.bits == 0,
            r.probability_of_collision == measures.probability_of_collision,
            r.sat1_id == catalog_number(cdm.sat_1_id),
            r.sat1_name@ == (match cdm.sat_1_name { Some(t) => t@, None => Seq::<char>::empty() }),
            r.sat2_id == catalog_number(cdm.sat_2_id),
            r.sat2_name@ == (match cdm.sat_2_name { Some(t) => t@, None => Seq::<char>::empty() }),
            r.sat1_object_type == cdm.sat_1_object_type,
            r.sat2_object_type == cdm.sat_2_object_type,
            r.collision_percentile == measures.collision_percentile,
            r.source == ConjunctionSource::SpaceTrack,
    {
        let sat1_id = catalog_number_of(&cdm.sat_1_id);
        let sat2_id = catalog_number_of(&cdm.sat_2_id);
        let miss_distance_m = match measures.miss_distance_m {
            Some(x) => x,
            None => Float64::from_bits(0),
        };
        ConjunctionRecord {
            cdm_id: cdm.cdm_id,
            created: text_or_new(cdm.created),
            emergency_reportable: cdm.emergency_reportable,
            tca: text_or_new(cdm.tca),
            miss_distance_m,
            probability_of_collision: measures.probability_of_collision,
            sat1_id,
            sat1_name: text_or_new(cdm.sat_1_name),
            sat2_id,
            sat2_name: text_or_new(cdm.sat_2_name),
            sat1_object_type: cdm.sat_1_object_type,
            sat2_object_type: cdm.sat_2_object_type,
            collision_percentile: measures.collision_percentile,
            source: ConjunctionSource::SpaceTrack,
        }
    }
}

/// Normalizes every measured CDM, in order.
pub fn records_from_spacetrack(pulled: Vec<MeasuredCdm>) -> (r: Vec<ConjunctionRecord>)
    ensures
        record_views(r@) == spacetrack_records(pulled@),
{
    let ghost input = pulled@;
    let mut rest = pulled;
    let mut reversed: Vec<ConjunctionRecord> = Vec::new();
    while rest.len() > 0
        invariant
            rest@ == input.subrange(0, rest@.len() as int),
            reversed@.len() + rest@.len() == input.len(),
            forall|i: int|
                0 <= i < reversed@.len() ==> #[trigger] reversed@[i]@ == spacetrack_record(
                    input[input.len() - 1 - i].cdm,
                    input[input.len() - 1 - i].measures,
                ),
        decreases rest@.len(),
    {
        let m = rest.pop().unwrap();
        reversed.push(ConjunctionRecord::from_spacetrack(m.cdm, m.measures));
    }
    let mut result: Vec<ConjunctionRecord> = Vec::new();
    while reversed.len() > 0
        invariant
            reversed@.len() + result@.len() == input.len(),
            forall|i: int|
                0 <= i < reversed@.len() ==> #[trigger] reversed@[i]@ == spacetrack_record(
                    input[input.len() - 1 - i].cdm,
                    input[input.len() - 1 - i].measures,
                ),
            forall|i: int|
                0 <= i < result@.len() ==> #[trigger] result@[i]@ == spacetrack_record(
                    input[i].cdm,
                    input[i].measures,
                ),
        decreases reversed@.len(),
    {
        let e = reversed.pop().unwrap();
        result.push(e);
    }
    assert(record_views(result@) =~= spacetrack_records(input));
    result
}

/// The normalized record of a CDM names the CDM's own texts: its id, its
/// creation and closest-approach times, each satellite's name and object
/// type in that satellite's fields (absent texts as empty or absent), the
/// satellite numbers as their texts read in decimal (0 when unreadable), the
/// measured numbers as given, and Space-Track as the source.
pub proof fn lemma_spacetrack_record_fields(cdm: SpaceTrackCdm, measures: CdmMeasures)
    ensures
        ({
            let r = spacetrack_record(cdm, measures);
            &&& r.cdm_id == cdm.cdm_id@
            &&& r.created == (match cdm.created { Some(t) => t@, None => Seq::<char>::empty() })
            &&& r.tca == (match cdm.tca { Some(t) => t@, None => Seq::<char>::empty() })
            &&& r.emergency_reportable == (match cdm.emergency_reportable {
                Some(t) => Some(t@),
                None => None,
            })
            &&& r.sat1_name == (match cdm.sat_1_name { Some(t) => t@, None => Seq::<char>::empty() })
            &&& r.sat2_name == (match cdm.sat_2_name { Some(t) => t@, None => Seq::<char>::empty() })
            &&& r.sat1_object_type == (match cdm.sat_1_object_type {
                Some(t) => Some(t@),
                None => None,
            })
            &&& r.sat2_object_type == (match cdm.sat_2_object_type {
                Some(t) => Some(t@),
                None => None,
            })
            &&& r.sat1_id == (match cdm.sat_1_id {
                Some(t) => match parsed_u32(vstd::utf8::encode_utf8(t@)) {
                    Some(n) => n,
                    None => 0u32,
                },
                None => 0u32,
            })
            &&& r.sat2_id == (match cdm.sat_2_id {
                Some(t) => match parsed_u32(vstd::utf8::encode_utf8(t@)) {
                    Some(n) => n,
                    None => 0u32,
                },
                None => 0u32,
            })
            &&& (measures.miss_distance_m matches Some(x) ==> r.miss_distance_m == x)
            &&& (measures.miss_distance_m is None ==> r.miss_distance_m.bits == 0)
            &&& r.probability_of_collision == measures.probability_of_collision
            &&& r.collision_percentile == measures.collision_percentile
            &&& r.source == ConjunctionSource::SpaceTrack
        }),
{
}

/// Records pulled from Space-Track keep their number and order, and every
/// one of them names Space-Track as its source.
pub proof fn lemma_pulled_records_from_spacetrack(pulled: Seq<MeasuredCdm>)
    ensures
        spacetrack_records(pulled).len() == pulled.len(),
        forall|i: int|
            0 <= i < pulled.len() ==> (#[trigger] spacetrack_records(pulled)[i]).source
                == ConjunctionSource::SpaceTrack && spacetrack_records(pulled)[i].cdm_id
                == pulled[i].cdm.cdm_id@,
{
}

} // verus!
