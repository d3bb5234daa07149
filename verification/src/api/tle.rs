use vstd::prelude::*;
use crate::error::AppError;
use crate::models::orbital_element::OrbitalElement;
use crate::models::pagination::{
    page_window, requested_page, requested_per_page, total_pages_for,
    PaginatedResponse, PaginationParams,
};
use crate::text::{decimal, decimal_text};

verus! {

/// Start of the message sent when no element set exists for a catalogue number.
pub const NOT_FOUND_PREFIX: &'static str = "No TLE found for NORAD ID ";

/// The page of `satellites` that the query parameters ask for.
pub fn list_tles(satellites: Vec<OrbitalElement>, params: &PaginationParams) -> (r:
    PaginatedResponse<OrbitalElement>)
    ensures
        r.data@ == page_window(
            satellites@,
            requested_page(params.page) as int,
            requested_per_page(params.per_page) as int,
        ),
        r.meta.total == satellites@.len(),
        r.meta.page == requested_page(params.page),
        r.meta.per_page == requested_per_page(params.per_page),
        r.meta.total_pages == total_pages_for(
            satellites@.len(),
            requested_per_page(params.per_page),
        ),
{
    let page = params.page();
    let per_page = params.per_page();
    PaginatedResponse::new(satellites, page, per_page)
}

/// The answer for catalogue number `norad_id`, given what CelesTrak
/// returned for it: the element set, or a not-found error naming the number.
pub fn get_tle(element: Option<OrbitalElement>, norad_id: u32) -> (r: Result<
    OrbitalElement,
    AppError,
>)
    ensures
        element matches Some(e) ==> r == Ok::<OrbitalElement, AppError>(e),
        element is None ==> (r matches Err(AppError::NotFound(msg)) && msg@ == NOT_FOUND_PREFIX@
            + decimal(norad_id as nat)),
{
    match element {
        Some(e) => Ok(e),
        None => {
            let number = decimal_text(norad_id);
            Err(AppError::NotFound(String::from_str(NOT_FOUND_PREFIX).concat(number.as_str())))
        },
    }
}

} // verus!
