use vstd::prelude::*;
use crate::error::AppError;
use crate::models::conjunction::{
    record_views, records_from_spacetrack, sample_conjunctions, sample_views,
    spacetrack_records, ConjunctionRecord, MeasuredCdm,
};

verus! {

/// Whether conjunctions are pulled live from Space-Track: they are when a
/// Space-Track username is configured, and the sample data is served when
/// none is.
pub fn pulls_live_conjunctions(spacetrack_username: Option<&str>) -> (r: bool)
    ensures
        r == spacetrack_username is Some,
{
    spacetrack_username.is_some()
}

/// Fetch conjunctions. When Space-Track credentials are configured, the
/// conjunctions are the CDMs pulled from Space-Track (`pulled`: the records
/// the caller fetched through the Space-Track session, with the numbers read
/// from their texts), normalized in order. Without credentials, the sample
/// data, which mirrors the normalized CDM schema, and `pulled` is not used.
pub fn fetch_conjunctions(
    spacetrack_username: Option<&str>,
    _spacetrack_password: Option<&str>,
    pulled: Vec<MeasuredCdm>,
) -> (r: Result<Vec<ConjunctionRecord>, AppError>)
    ensures
        r matches Ok(records) && {
            &&& spacetrack_username is None ==> record_views(records@) == sample_views()
            &&& spacetrack_username is Some ==> record_views(records@) == spacetrack_records(
                pulled@,
            )
        },
{
    if spacetrack_username.is_none() {
        return Ok(sample_conjunctions());
    }
    Ok(records_from_spacetrack(pulled))
}

} // verus!
