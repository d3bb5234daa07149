use vstd::prelude::*;
use crate::models::orbital_element::{normalized, CelesTrakGp, OrbitalElement};
use crate::text::{decimal, decimal_text};

verus! {

/// The CelesTrak GP query endpoint.
pub const CELESTRAK_GP_BASE: &'static str = "https://celestrak.org/NORAD/elements/gp.php";

/// The query selecting all active satellites, as JSON.
pub const ACTIVE_QUERY: &'static str = "?GROUP=active&FORMAT=json";

/// The start of the query selecting one catalogue number.
pub const CATALOG_QUERY: &'static str = "?CATNR=";

/// The end of the query selecting one catalogue number: JSON output.
pub const JSON_FORMAT: &'static str = "&FORMAT=json";

/// URL of the GP records of all active satellites.
pub fn active_satellites_url() -> (r: String)
    ensures
        r@ == CELESTRAK_GP_BASE@ + ACTIVE_QUERY@,
{
    String::from_str(CELESTRAK_GP_BASE).concat(ACTIVE_QUERY)
}

/// URL of the GP records of the satellite with catalogue number `norad_id`.
pub fn norad_id_url(norad_id: u32) -> (r: String)
    ensures
        r@ == CELESTRAK_GP_BASE@ + CATALOG_QUERY@ + decimal(norad_id as nat) + JSON_FORMAT@,
{
    let number = decimal_text(norad_id);
    let url = String::from_str(CELESTRAK_GP_BASE).concat(CATALOG_QUERY).concat(number.as_str()).concat(
        JSON_FORMAT,
    );
    url
}

/// The normalized form of every record, in order.
pub fn normalize_records(records: Vec<CelesTrakGp>) -> (r: Vec<OrbitalElement>)
    ensures
        r@ == records@.map_values(|gp: CelesTrakGp| normalized(gp)),
{
    let ghost input = records@;
    let mut rest = records;
    let mut reversed: Vec<OrbitalElement> = Vec::new();
    while rest.len() > 0
        invariant
            rest@ == input.subrange(0, rest@.len() as int),
            reversed@.len() + rest@.len() == input.len(),
            forall|i: int|
                0 <= i < reversed@.len() ==> #[trigger] reversed@[i] == normalized(
                    input[input.len() - 1 - i],
                ),
        decreases rest@.len(),
    {
        let gp = rest.pop().unwrap();
        reversed.push(OrbitalElement::from(gp));
    }
    let mut result: Vec<OrbitalElement> = Vec::new();
    while reversed.len() > 0
        invariant
            reversed@.len() + result@.len() == input.len(),
            forall|i: int|
                0 <= i < reversed@.len() ==> #[trigger] reversed@[i] == normalized(
                    input[input.len() - 1 - i],
                ),
            forall|i: int| 0 <= i < result@.len() ==> #[trigger] result@[i] == normalized(input[i]),
        decreases reversed@.len(),
    {
        let e = reversed.pop().unwrap();
        result.push(e);
    }
    assert(result@ =~= input.map_values(|gp: CelesTrakGp| normalized(gp)));
    result
}

/// The normalized form of the first record, if there is one.
pub fn first_normalized(records: Vec<CelesTrakGp>) -> (r: Option<OrbitalElement>)
    ensures
        records@.len() == 0 ==> r is None,
        records@.len() > 0 ==> r == Some(normalized(records@[0])),
{
    if records.len() == 0 {
        return None;
    }
    let ghost first = records@[0];
    let mut rest = records;
    rest.truncate(1);
    let gp = rest.pop().unwrap();
    Some(OrbitalElement::from(gp))
}


/// Looking up one catalogue number keeps the first record CelesTrak sends,
/// normalized as the whole listing would normalize it.
pub proof fn lemma_first_is_head_of_listing(records: Seq<CelesTrakGp>)
    requires
        records.len() > 0,
    ensures
        records.map_values(|gp: CelesTrakGp| normalized(gp))[0] == normalized(records[0]),
        records.map_values(|gp: CelesTrakGp| normalized(gp)).len() == records.len(),
{
}

} // verus!
