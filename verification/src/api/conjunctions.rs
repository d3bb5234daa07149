use vstd::prelude::*;
use crate::error::AppError;
use crate::ingest::cdm::fetch_conjunctions;
use crate::models::conjunction::{
    record_views, records_from_spacetrack, sample_views, spacetrack_records, ConjunctionRecord,
    MeasuredCdm,
};

verus! {

/// Source named in a listing served from Space-Track.
pub const SPACETRACK_SOURCE: &'static str = "space-track";

/// Source named in a listing of the sample data.
pub const SAMPLE_SOURCE: &'static str = "sample";

/// Note attached to a listing of the sample data.
pub const SAMPLE_NOTE: &'static str = "Configure SPACETRACK_USERNAME and SPACETRACK_PASSWORD for live CDM data";

/// Error message when live CDMs are asked for without Space-Track credentials.
pub const LIVE_UNAVAILABLE: &'static str = "Space-Track credentials not configured. Set SPACETRACK_USERNAME and SPACETRACK_PASSWORD to enable live CDM data.";

/// The counts and provenance of a conjunction listing.
#[derive(Debug)]
pub struct ConjunctionsMeta {
    pub total: usize,
    pub source: String,
    pub note: Option<String>,
}

/// A conjunction listing.
#[derive(Debug)]
pub struct ConjunctionsResponse {
    pub data: Vec<ConjunctionRecord>,
    pub meta: ConjunctionsMeta,
}

/// The counts of a live CDM listing.
#[derive(Debug)]
pub struct LiveConjunctionsMeta {
    pub total: usize,
    pub source: String,
    pub live: bool,
}

/// A live CDM listing.
#[derive(Debug)]
pub struct LiveConjunctionsResponse {
    pub data: Vec<ConjunctionRecord>,
    pub meta: LiveConjunctionsMeta,
}

/// The conjunction listing for the configured credentials, with its
/// count: with a Space-Track username, the CDMs pulled from Space-Track
/// (`pulled`), normalized, named as coming from Space-Track; without one,
/// the sample CDMs, named as sample data, with a note on how to configure
/// Space-Track.
pub fn list_conjunctions(
    spacetrack_username: Option<&str>,
    spacetrack_password: Option<&str>,
    pulled: Vec<MeasuredCdm>,
) -> (r: Result<ConjunctionsResponse, AppError>)
    ensures
        r matches Ok(resp) && {
            &&& resp.meta.total == resp.data@.len()
            &&& spacetrack_username is Some ==> (record_views(resp.data@) == spacetrack_records(
                pulled@,
            ) && resp.meta.source@ == SPACETRACK_SOURCE@ && resp.meta.note is None)
            &&& spacetrack_username is None ==> (record_views(resp.data@) == sample_views()
                && resp.meta.source@ == SAMPLE_SOURCE@ && (resp.meta.note matches Some(n) && n@
                == SAMPLE_NOTE@))
        },
{
    let conjunctions = match fetch_conjunctions(spacetrack_username, spacetrack_password, pulled) {
        Ok(c) => c,
        Err(e) => return Err(e),
    };
    let total = conjunctions.len();
    let has_credentials = spacetrack_username.is_some();
    let source = if has_credentials {
        String::from_str(SPACETRACK_SOURCE)
    } else {
        String::from_str(SAMPLE_SOURCE)
    };
    let note = if !has_credentials {
        Some(String::from_str(SAMPLE_NOTE))
    } else {
        None
    };
    Ok(ConjunctionsResponse { data: conjunctions, meta: ConjunctionsMeta { total, source, note } })
}

/// The live CDM listing: unavailable when no Space-Track client is
/// configured (`None`), else the records fetched, normalized in order, with
/// their count.
pub fn list_conjunctions_live(fetched: Option<Vec<MeasuredCdm>>) -> (r: Result<
    LiveConjunctionsResponse,
    AppError,
>)
    ensures
        fetched is None ==> (r matches Err(AppError::Unavailable(msg)) && msg@
            == LIVE_UNAVAILABLE@),
        fetched matches Some(cdms) ==> (r matches Ok(resp) && {
            &&& record_views(resp.data@) == spacetrack_records(cdms@)
            &&& resp.meta.total == cdms@.len()
            &&& resp.meta.source@ == SPACETRACK_SOURCE@
            &&& resp.meta.live
        }),
{
    match fetched {
        None => Err(AppError::Unavailable(String::from_str(LIVE_UNAVAILABLE))),
        Some(cdms) => {
            let total = cdms.len();
            let data = records_from_spacetrack(cdms);
            Ok(
                LiveConjunctionsResponse {
                    data,
                    meta: LiveConjunctionsMeta {
                        total,
                        source: String::from_str(SPACETRACK_SOURCE),
                        live: true,
                    },
                },
            )
        },
    }
}

} // verus!
