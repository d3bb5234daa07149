use vstd::prelude::*;
use vstd::string::StringSliceAdditionalSpecFns;
use crate::clock::{
    add_seconds, is_before, is_clock_reading, nanos_between, seconds_after, span_nanos, utc_now,
    ClockUnreadable,
    whole_minutes, whole_minutes_between, whole_seconds, whole_seconds_between, Timestamp,
    INSTANT_SECS_LIMIT,
};

verus! {

/// Length of a rate-limit window, in seconds.
pub const RATE_WINDOW_SECS: i64 = 60;

/// Requests in one window at which the client counts as near Space-Track's
/// limit of 30 a minute (a margin of 2).
pub const NEAR_LIMIT_REQUESTS: u32 = 28;

/// How long the client holds off after Space-Track answers 429, in seconds.
pub const BACKOFF_SECS: i64 = 60;

/// How long a Space-Track login stays usable, in minutes.
pub const SESSION_LIFETIME_MINUTES: i64 = 90;

/// The instant is absent or within the range the library handles.
pub open spec fn opt_wf(t: Option<Timestamp>) -> bool {
    match t {
        Some(t) => t.wf(),
        None => true,
    }
}

/// Tracks rate-limit state. Space-Track allows 30 req/min per account.
#[derive(Debug)]
pub struct RateLimitState {
    pub request_count: u32,
    pub window_start: Option<Timestamp>,
    pub backoff_until: Option<Timestamp>,
}

impl RateLimitState {
    /// Every instant held lies in the range the library handles.
    pub open spec fn wf(self) -> bool {
        opt_wf(self.window_start) && opt_wf(self.backoff_until)
    }

    /// A backoff is set and `now` is before its end.
    pub open spec fn backing_off_at(self, now: Timestamp) -> bool {
        match self.backoff_until {
            Some(t) => now.nanos_since_epoch() < t.nanos_since_epoch(),
            None => false,
        }
    }

    /// Whole seconds from `now` to the end of the backoff, rounded toward
    /// zero; 0 when there is no backoff or it has ended.
    pub open spec fn secs_remaining_at(self, now: Timestamp) -> i64 {
        match self.backoff_until {
            Some(t) => {
                let s = whole_seconds(span_nanos(t, now));
                if s > 0 { s as i64 } else { 0 }
            },
            None => 0,
        }
    }

    /// Whether more than a full window (60 seconds) has passed at `now`
    /// since the current window started (or there is none), so that a
    /// request at `now` opens a new one.
    pub open spec fn window_expired_at(self, now: Timestamp) -> bool {
        match self.window_start {
            None => true,
            Some(s) => span_nanos(now, s) > RATE_WINDOW_SECS * 1_000_000_000,
        }
    }

    /// The state after recording one request at `now`: a new window
    /// holding one request when the old one has expired, else one more
    /// request in the current window.
    pub open spec fn after_request_at(self, now: Timestamp) -> RateLimitState {
        if self.window_expired_at(now) {
            RateLimitState { request_count: 1, window_start: Some(now), ..self }
        } else {
            RateLimitState { request_count: (self.request_count + 1) as u32, ..self }
        }
    }

    /// Recording a request at `now` would not overflow the counter.
    pub open spec fn can_record_at(self, now: Timestamp) -> bool {
        self.window_expired_at(now) || self.request_count < u32::MAX
    }

    /// The state after a backoff is set at `now`: it lasts 60 seconds.
    pub open spec fn after_backoff_at(self, now: Timestamp) -> RateLimitState {
        RateLimitState { backoff_until: Some(seconds_after(now, BACKOFF_SECS as int)), ..self }
    }

    /// A state with no requests, no window and no backoff.
    pub fn new() -> (r: RateLimitState)
        ensures
            r.request_count == 0,
            r.window_start is None,
            r.backoff_until is None,
            r.wf(),
    {
        RateLimitState { request_count: 0, window_start: None, backoff_until: None }
    }

    /// Whether the client is in a backoff period at `now`.
    pub fn is_backing_off_at(&self, now: Timestamp) -> (r: bool)
        requires
            self.wf(),
            now.wf(),
        ensures
            r == self.backing_off_at(now),
    {
        match self.backoff_until {
            Some(t) => is_before(now, t),
            None => false,
        }
    }

    /// Returns true if we are currently in a backoff period.
    /// Fails only when the system clock cannot be read.
    /// The clock is read only when a backoff is set.
    pub fn is_backing_off(&self) -> (r: Result<bool, ClockUnreadable>)
        requires
            self.wf(),
        ensures
            self.backoff_until is None ==> r == Ok::<bool, ClockUnreadable>(false),
            r is Err ==> self.backoff_until is Some,
            r matches Ok(b) ==> exists|now: Timestamp|
                is_clock_reading(now) && b == #[trigger] self.backing_off_at(now),
    {
        if self.backoff_until.is_none() {
            assert(self.backing_off_at(Timestamp { secs: 0, nanos: 0 }) == false);
            return Ok(false);
        }
        let now = match utc_now() {
            Ok(t) => t,
            Err(e) => return Err(e),
        };
        let b = self.is_backing_off_at(now);
        assert(b == self.backing_off_at(now));
        Ok(b)
    }

    /// Remaining backoff at `now`, in whole seconds, or 0 if not in backoff.
    pub fn backoff_secs_remaining_at(&self, now: Timestamp) -> (r: i64)
        requires
            self.wf(),
            now.wf(),
        ensures
            r == self.secs_remaining_at(now),
            r >= 0,
    {
        match self.backoff_until {
            Some(t) => {
                let s = whole_seconds_between(t, now);
                if s > 0 { s } else { 0 }
            },
            None => 0,
        }
    }

    /// Returns remaining backoff seconds, or 0 if not in backoff.
    /// Fails only when the system clock cannot be read.
    pub fn backoff_secs_remaining(&self) -> (r: Result<i64, ClockUnreadable>)
        requires
            self.wf(),
        ensures
            self.backoff_until is None ==> r == Ok::<i64, ClockUnreadable>(0),
            r is Err ==> self.backoff_until is Some,
            r matches Ok(secs) ==> secs >= 0 && exists|now: Timestamp|
                is_clock_reading(now) && secs == #[trigger] self.secs_remaining_at(now),
    {
        if self.backoff_until.is_none() {
            assert(self.secs_remaining_at(Timestamp { secs: 0, nanos: 0 }) == 0);
            return Ok(0);
        }
        let now = match utc_now() {
            Ok(t) => t,
            Err(e) => return Err(e),
        };
        let secs = self.backoff_secs_remaining_at(now);
        assert(secs == self.secs_remaining_at(now));
        Ok(secs)
    }

    /// Records a request made at `now`, opening a new window when more than
    /// 60 seconds have passed since the current one started.
    pub fn record_request_at(&mut self, now: Timestamp)
        requires
            old(self).wf(),
            now.wf(),
            old(self).can_record_at(now),
        ensures
            *final(self) == old(self).after_request_at(now),
            final(self).wf(),
    {
        let expired = match self.window_start {
            None => true,
            Some(start) => nanos_between(now, start) > 60_000_000_000,
        };
        if expired {
            self.window_start = Some(now);
            self.request_count = 1;
        } else {
            self.request_count = self.request_count + 1;
        }
    }

    /// Record a request and reset window if > 60s has passed.
    /// When the system clock cannot be read, nothing is recorded.
    pub fn record_request(&mut self) -> (r: Result<(), ClockUnreadable>)
        requires
            old(self).wf(),
            old(self).request_count < u32::MAX,
        ensures
            r is Ok ==> exists|now: Timestamp|
                is_clock_reading(now) && *final(self) == #[trigger] old(self).after_request_at(now),
            r is Err ==> *final(self) == *old(self),
            final(self).wf(),
    {
        let now = match utc_now() {
            Ok(t) => t,
            Err(e) => return Err(e),
        };
        let ghost before = *self;
        self.record_request_at(now);
        assert(*self == before.after_request_at(now));
        Ok(())
    }

    /// Returns true if we've hit 28 requests in the current window (2 req margin).
    pub fn is_near_limit(&self) -> (r: bool)
        ensures
            r == (self.request_count >= NEAR_LIMIT_REQUESTS),
    {
        self.request_count >= NEAR_LIMIT_REQUESTS
    }

    /// Sets a backoff lasting until 60 seconds after `now`.
    pub fn set_backoff_at(&mut self, now: Timestamp)
        requires
            old(self).wf(),
            now.wf(),
            now.secs <= INSTANT_SECS_LIMIT - BACKOFF_SECS,
        ensures
            *final(self) == old(self).after_backoff_at(now),
            final(self).wf(),
    {
        self.backoff_until = Some(add_seconds(now, BACKOFF_SECS));
    }

    /// Set a backoff until +60s from now.
    /// When the system clock cannot be read, no backoff is set.
    pub fn set_backoff(&mut self) -> (r: Result<(), ClockUnreadable>)
        requires
            old(self).wf(),
        ensures
            r is Ok ==> exists|now: Timestamp|
                is_clock_reading(now) && *final(self) == #[trigger] old(self).after_backoff_at(now),
            r is Err ==> *final(self) == *old(self),
            final(self).wf(),
    {
        let now = match utc_now() {
            Ok(t) => t,
            Err(e) => return Err(e),
        };
        let ghost before = *self;
        self.set_backoff_at(now);
        assert(*self == before.after_backoff_at(now));
        Ok(())
    }
}

impl Default for RateLimitState {
    fn default() -> (r: RateLimitState)
        ensures
            r.request_count == 0,
            r.window_start is None,
            r.backoff_until is None,
    {
        RateLimitState::new()
    }
}


/// Shared Space-Track session state.
#[derive(Debug)]
pub struct SpaceTrackSession {
    pub authenticated: bool,
    pub authenticated_at: Option<Timestamp>,
    pub rate_limit: RateLimitState,
}

impl SpaceTrackSession {
    /// Every instant held lies in the range the library handles.
    pub open spec fn wf(self) -> bool {
        opt_wf(self.authenticated_at) && self.rate_limit.wf()
    }

    /// The session is logged in, and its login is less than 90 whole
    /// minutes old at `now`.
    pub open spec fn valid_at(self, now: Timestamp) -> bool {
        self.authenticated && match self.authenticated_at {
            Some(t) => whole_minutes(span_nanos(now, t)) < SESSION_LIFETIME_MINUTES,
            None => false,
        }
    }

    /// A session that has not logged in and has made no request.
    pub fn new() -> (r: SpaceTrackSession)
        ensures
            !r.authenticated,
            r.authenticated_at is None,
            r.rate_limit.request_count == 0,
            r.rate_limit.window_start is None,
            r.rate_limit.backoff_until is None,
            r.wf(),
    {
        SpaceTrackSession {
            authenticated: false,
            authenticated_at: None,
            rate_limit: RateLimitState::new(),
        }
    }

    /// Whether the session is usable at `now`.
    pub fn is_session_valid_at(&self, now: Timestamp) -> (r: bool)
        requires
            self.wf(),
            now.wf(),
        ensures
            r == self.valid_at(now),
    {
        if !self.authenticated {
            return false;
        }
        match self.authenticated_at {
            Some(t) => whole_minutes_between(now, t) < SESSION_LIFETIME_MINUTES,
            None => false,
        }
    }

    /// Returns true if authenticated and session is less than 90 minutes old.
    /// The clock is read only for a logged-in session with a login time,
    /// and the check fails only when it cannot be read then.
    pub fn is_session_valid(&self) -> (r: Result<bool, ClockUnreadable>)
        requires
            self.wf(),
        ensures
            !self.authenticated || self.authenticated_at is None ==> r == Ok::<
                bool,
                ClockUnreadable,
            >(false),
            r is Err ==> self.authenticated && self.authenticated_at is Some,
            r matches Ok(b) ==> exists|now: Timestamp|
                is_clock_reading(now) && b == #[trigger] self.valid_at(now),
    {
        if !self.authenticated || self.authenticated_at.is_none() {
            assert(self.valid_at(Timestamp { secs: 0, nanos: 0 }) == false);
            return Ok(false);
        }
        let now = match utc_now() {
            Ok(t) => t,
            Err(e) => return Err(e),
        };
        let b = self.is_session_valid_at(now);
        assert(b == self.valid_at(now));
        Ok(b)
    }
}

impl Default for SpaceTrackSession {
    fn default() -> (r: SpaceTrackSession)
        ensures
            !r.authenticated,
            r.authenticated_at is None,
            r.rate_limit.request_count == 0,
            r.rate_limit.window_start is None,
            r.rate_limit.backoff_until is None,
    {
        SpaceTrackSession::new()
    }
}


/// The Space-Track site.
pub const BASE_URL: &'static str = "https://www.space-track.org";

/// Path of the login form.
pub const LOGIN_PATH: &'static str = "/ajaxauth/login";

/// Path of the public CDM query: the 20 conjunctions with the earliest
/// time of closest approach, as JSON.
pub const CDM_QUERY: &'static str = "/basicspacedata/query/class/cdm_public/orderby/TCA asc/limit/20/format/json";

/// URL of the login form.
pub fn login_url() -> (r: String)
    ensures
        r@ == BASE_URL@ + LOGIN_PATH@,
{
    String::from_str(BASE_URL).concat(LOGIN_PATH)
}

/// URL of the CDM query.
pub fn cdm_query_url() -> (r: String)
    ensures
        r@ == BASE_URL@ + CDM_QUERY@,
{
    String::from_str(BASE_URL).concat(CDM_QUERY)
}

/// Raw CDM record as returned by Space-Track (all fields are strings).
#[derive(Clone, Debug)]
pub struct SpaceTrackCdm {
    pub cdm_id: String,
    pub created: Option<String>,
    pub emergency_reportable: Option<String>,
    pub tca: Option<String>,
    pub min_rng: Option<String>,
    pub pc: Option<String>,
    pub sat_1_id: Option<String>,
    pub sat_1_name: Option<String>,
    pub sat_2_id: Option<String>,
    pub sat_2_name: Option<String>,
    pub sat_1_object_type: Option<String>,
    pub sat_2_object_type: Option<String>,
    pub collision_percentile: Option<String>,
}

/// Why an exchange with Space-Track failed.
#[derive(Clone, Copy, Debug, PartialEq, Eq, Structural)]
pub enum SpaceTrackError {
    /// A backoff is running; retry after this many seconds.
    BackoffActive { secs: i64 },
    /// The login was answered 200 with a `"Failed"` body.
    InvalidCredentials,
    /// The login was answered with this status, not 200.
    LoginStatus(u16),
    /// The CDM query was answered 429; a 60-second backoff has been set.
    RateLimited,
    /// The CDM query was answered 401 or 403; the session is logged out.
    SessionExpired,
    /// The CDM query was answered with this other status.
    QueryStatus(u16),
    /// The system clock could not be read.
    ClockUnreadable,
}

/// The next exchange of a CDM fetch that is not refused outright.
#[derive(Clone, Copy, Debug, PartialEq, Eq, Structural)]
pub enum CdmFetchStep {
    /// Log in first, then query.
    Authenticate,
    /// Query with the current session.
    Query,
}

/// HTTP 200 OK.
pub const STATUS_OK: u16 = 200;
/// HTTP 401 Unauthorized.
pub const STATUS_UNAUTHORIZED: u16 = 401;
/// HTTP 403 Forbidden.
pub const STATUS_FORBIDDEN: u16 = 403;
/// HTTP 429 Too Many Requests.
pub const STATUS_TOO_MANY_REQUESTS: u16 = 429;

/// The bytes of `"Failed"`, quotes included: a login answer that holds
/// them reports bad credentials.
pub open spec fn failed_marker() -> Seq<u8> {
    seq![34u8, 70u8, 97u8, 105u8, 108u8, 101u8, 100u8, 34u8]
}

/// `needle` occurs in `hay` as a run of consecutive bytes.
pub open spec fn contains_bytes(hay: Seq<u8>, needle: Seq<u8>) -> bool {
    exists|i: int| 0 <= i && i + needle.len() <= hay.len() && #[trigger] hay.subrange(i, i + needle.len()) == needle
}

fn marker_byte(k: usize) -> (r: u8)
    requires
        k < 8,
    ensures
        r == failed_marker()[k as int],
{
    match k {
        0 => 34,
        1 => 70,
        2 => 97,
        3 => 105,
        4 => 108,
        5 => 101,
        6 => 100,
        _ => 34,
    }
}

/// Whether a login answer reports bad credentials: whether its text holds
/// `"Failed"`, quotes included.
pub fn reports_login_failure(body: &str) -> (r: bool)
    ensures
        r == contains_bytes(body.spec_bytes(), failed_marker()),
{
    let bytes = body.as_bytes();
    let n = bytes.len();
    let ghost hay = bytes@;
    let ghost marker = failed_marker();
    if n < 8 {
        assert forall|i: int| 0 <= i && i + marker.len() <= hay.len() implies #[trigger] hay.subrange(
            i,
            i + marker.len(),
        ) != marker by {}
        return false;
    }
    let mut i: usize = 0;
    while i <= n - 8
        invariant
            bytes@ == hay,
            hay == body.spec_bytes(),
            n == hay.len(),
            marker == failed_marker(),
            n >= 8,
            i <= n - 7,
            n - 8 >= 0,
            forall|j: int| 0 <= j < i ==> #[trigger] hay.subrange(j, j + marker.len()) != marker,
        decreases n - i,
    {
        let mut k: usize = 0;
        let mut same = true;
        while k < 8
            invariant
                bytes@ == hay,
                n == hay.len(),
                marker == failed_marker(),
                i + 8 <= n,
                k <= 8,
                same == (forall|m: int| 0 <= m < k ==> hay[i + m] == marker[m]),
            decreases 8 - k,
        {
            let b = marker_byte(k);
            if bytes[i + k] != b {
                same = false;
            }
            k = k + 1;
        }
        if same {
            assert(hay.subrange(i as int, i + marker.len()) =~= marker);
            assert(contains_bytes(hay, marker));
            return true;
        }
        assert(hay.subrange(i as int, i + marker.len()) != marker) by {
            let m = choose|m: int| 0 <= m < 8 && hay[i + m] != marker[m];
            assert(hay.subrange(i as int, i + marker.len())[m] == hay[i + m]);
        }
        i = i + 1;
    }
    false
}

impl SpaceTrackSession {
    /// How a CDM fetch starts at `now`: refused while a backoff runs, with
    /// the seconds it has left; otherwise a login first unless the session
    /// is still valid, then the query.
    pub open spec fn fetch_plan_at(self, now: Timestamp) -> Result<CdmFetchStep, SpaceTrackError> {
        if self.rate_limit.backing_off_at(now) {
            Err(SpaceTrackError::BackoffActive { secs: self.rate_limit.secs_remaining_at(now) })
        } else if !self.valid_at(now) {
            Ok(CdmFetchStep::Authenticate)
        } else {
            Ok(CdmFetchStep::Query)
        }
    }

    /// Decides how a CDM fetch starts at `now`.
    pub fn plan_cdm_fetch_at(&self, now: Timestamp) -> (r: Result<CdmFetchStep, SpaceTrackError>)
        requires
            self.wf(),
            now.wf(),
        ensures
            r == self.fetch_plan_at(now),
    {
        if self.rate_limit.is_backing_off_at(now) {
            let secs = self.rate_limit.backoff_secs_remaining_at(now);
            return Err(SpaceTrackError::BackoffActive { secs });
        }
        if !self.is_session_valid_at(now) {
            Ok(CdmFetchStep::Authenticate)
        } else {
            Ok(CdmFetchStep::Query)
        }
    }

    /// Decides how a CDM fetch starts, by the system clock. The clock is
    /// read only when a backoff is set or the session has a login time to
    /// check; the fetch is refused with `ClockUnreadable` when it cannot be
    /// read then.
    pub fn plan_cdm_fetch(&self) -> (r: Result<CdmFetchStep, SpaceTrackError>)
        requires
            self.wf(),
        ensures
            self.rate_limit.backoff_until is None && (!self.authenticated
                || self.authenticated_at is None) ==> r == Ok::<CdmFetchStep, SpaceTrackError>(
                CdmFetchStep::Authenticate,
            ),
            r == Err::<CdmFetchStep, SpaceTrackError>(SpaceTrackError::ClockUnreadable) ==> (
            self.rate_limit.backoff_until is Some || (self.authenticated
                && self.authenticated_at is Some)),
            r == Err::<CdmFetchStep, SpaceTrackError>(SpaceTrackError::ClockUnreadable) || exists|
                now: Timestamp,
            | is_clock_reading(now) && r == #[trigger] self.fetch_plan_at(now),
    {
        if self.rate_limit.backoff_until.is_none() && (!self.authenticated
            || self.authenticated_at.is_none()) {
            let ghost w = Timestamp { secs: 0, nanos: 0 };
            assert(self.fetch_plan_at(w) == Ok::<CdmFetchStep, SpaceTrackError>(
                CdmFetchStep::Authenticate,
            ));
            return Ok(CdmFetchStep::Authenticate);
        }
        let now = match utc_now() {
            Ok(t) => t,
            Err(_) => return Err(SpaceTrackError::ClockUnreadable),
        };
        let r = self.plan_cdm_fetch_at(now);
        assert(r == self.fetch_plan_at(now));
        r
    }

    /// The session after the CDM query is answered with `status` at `now`,
    /// and what the fetch reports: 200 lets the body be read; 429 sets a
    /// backoff; 401 and 403 log the session out; any other status fails.
    pub open spec fn after_query_status(self, status: u16, now: Timestamp) -> (
        SpaceTrackSession,
        Result<(), SpaceTrackError>,
    ) {
        if status == STATUS_OK {
            (self, Ok(()))
        } else if status == STATUS_TOO_MANY_REQUESTS {
            (
                SpaceTrackSession { rate_limit: self.rate_limit.after_backoff_at(now), ..self },
                Err(SpaceTrackError::RateLimited),
            )
        } else if status == STATUS_UNAUTHORIZED || status == STATUS_FORBIDDEN {
            (SpaceTrackSession { authenticated: false, ..self }, Err(SpaceTrackError::SessionExpired))
        } else {
            (self, Err(SpaceTrackError::QueryStatus(status)))
        }
    }

    /// Applies the answer `status` of the CDM query, received at `now`.
    pub fn handle_cdm_status_at(&mut self, status: u16, now: Timestamp) -> (r: Result<
        (),
        SpaceTrackError,
    >)
        requires
            old(self).wf(),
            now.wf(),
            now.secs <= INSTANT_SECS_LIMIT - BACKOFF_SECS,
        ensures
            (*final(self), r) == old(self).after_query_status(status, now),
            final(self).wf(),
    {
        if status == STATUS_OK {
            Ok(())
        } else if status == STATUS_TOO_MANY_REQUESTS {
            self.rate_limit.set_backoff_at(now);
            Err(SpaceTrackError::RateLimited)
        } else if status == STATUS_UNAUTHORIZED || status == STATUS_FORBIDDEN {
            self.authenticated = false;
            Err(SpaceTrackError::SessionExpired)
        } else {
            Err(SpaceTrackError::QueryStatus(status))
        }
    }

    /// Applies the answer `status` of the CDM query, reading the system
    /// clock when a backoff is to be set; when it cannot be read then, the
    /// session is left as it was and `ClockUnreadable` is reported.
    pub fn handle_cdm_status(&mut self, status: u16) -> (r: Result<(), SpaceTrackError>)
        requires
            old(self).wf(),
        ensures
            r == Err::<(), SpaceTrackError>(SpaceTrackError::ClockUnreadable) ==> status
                == STATUS_TOO_MANY_REQUESTS && *final(self) == *old(self),
            r != Err::<(), SpaceTrackError>(SpaceTrackError::ClockUnreadable) ==> exists|
                now: Timestamp,
            |
                is_clock_reading(now) && (*final(self), r) == #[trigger] old(self).after_query_status(
                    status,
                    now,
                ),
            final(self).wf(),
    {
        let now = if status == STATUS_TOO_MANY_REQUESTS {
            match utc_now() {
                Ok(t) => t,
                Err(_) => return Err(SpaceTrackError::ClockUnreadable),
            }
        } else {
            Timestamp { secs: 0, nanos: 0 }
        };
        let ghost before = *self;
        let r = self.handle_cdm_status_at(status, now);
        assert((*self, r) == before.after_query_status(status, now));
        r
    }

    /// The session after the login is answered with `status` and the text
    /// `body` at `now`, and what the login reports: a 200 answer whose text
    /// holds `"Failed"` means bad credentials; any other 200 answer logs the
    /// session in at `now`; another status fails.
    pub open spec fn after_login_at(self, status: u16, body: Seq<u8>, now: Timestamp) -> (
        SpaceTrackSession,
        Result<(), SpaceTrackError>,
    ) {
        if status == STATUS_OK {
            if contains_bytes(body, failed_marker()) {
                (self, Err(SpaceTrackError::InvalidCredentials))
            } else {
                (
                    SpaceTrackSession { authenticated: true, authenticated_at: Some(now), ..self },
                    Ok(()),
                )
            }
        } else {
            (self, Err(SpaceTrackError::LoginStatus(status)))
        }
    }

    /// Applies the answer to a login, received at `now`.
    pub fn handle_login_response_at(&mut self, status: u16, body: &str, now: Timestamp) -> (r:
        Result<(), SpaceTrackError>)
        requires
            old(self).wf(),
            now.wf(),
        ensures
            (*final(self), r) == old(self).after_login_at(status, body.spec_bytes(), now),
            final(self).wf(),
    {
        if status == STATUS_OK {
            if reports_login_failure(body) {
                return Err(SpaceTrackError::InvalidCredentials);
            }
            self.authenticated = true;
            self.authenticated_at = Some(now);
            Ok(())
        } else {
            Err(SpaceTrackError::LoginStatus(status))
        }
    }

    /// Applies the answer to a login, timing a successful one by the
    /// system clock; when it cannot be read then, the session is left as it
    /// was and `ClockUnreadable` is reported.
    pub fn handle_login_response(&mut self, status: u16, body: &str) -> (r: Result<
        (),
        SpaceTrackError,
    >)
        requires
            old(self).wf(),
        ensures
            r == Err::<(), SpaceTrackError>(SpaceTrackError::ClockUnreadable) ==> status
                == STATUS_OK && !contains_bytes(body.spec_bytes(), failed_marker()) && *final(self)
                == *old(self),
            r != Err::<(), SpaceTrackError>(SpaceTrackError::ClockUnreadable) ==> exists|
                now: Timestamp,
            |
                is_clock_reading(now) && (*final(self), r) == #[trigger] old(self).after_login_at(
                    status,
                    body.spec_bytes(),
                    now,
                ),
            final(self).wf(),
    {
        let now = if status == STATUS_OK && !reports_login_failure(body) {
            match utc_now() {
                Ok(t) => t,
                Err(_) => return Err(SpaceTrackError::ClockUnreadable),
            }
        } else {
            Timestamp { secs: 0, nanos: 0 }
        };
        let ghost before = *self;
        let r = self.handle_login_response_at(status, body, now);
        assert((*self, r) == before.after_login_at(status, body.spec_bytes(), now));
        r
    }
}


/// Once a backoff is set at `now`, the client is backing off at every
/// instant less than 60 seconds later and at none from 60 seconds on, and
/// at `now` itself 60 seconds of backoff remain.
pub proof fn lemma_backoff_lasts_a_minute(state: RateLimitState, now: Timestamp, later: Timestamp)
    requires
        state.wf(),
        now.wf(),
        later.wf(),
        now.secs <= INSTANT_SECS_LIMIT - BACKOFF_SECS,
    ensures
        state.after_backoff_at(now).backing_off_at(later) <==> span_nanos(later, now)
            < BACKOFF_SECS * 1_000_000_000,
        state.after_backoff_at(now).secs_remaining_at(now) == BACKOFF_SECS,
{
    let end = seconds_after(now, BACKOFF_SECS as int);
    assert(end.nanos_since_epoch() == now.nanos_since_epoch() + 60_000_000_000);
    assert(span_nanos(end, now) == 60_000_000_000);
}

/// The backoff seconds left are positive only while the client is backing
/// off, and are 0 whenever it is not.
pub proof fn lemma_remaining_only_while_backing_off(state: RateLimitState, now: Timestamp)
    requires
        state.wf(),
        now.wf(),
    ensures
        state.secs_remaining_at(now) >= 0,
        state.secs_remaining_at(now) > 0 ==> state.backing_off_at(now),
        !state.backing_off_at(now) ==> state.secs_remaining_at(now) == 0,
{
}

/// While a backoff runs, every CDM fetch is refused with the seconds that
/// are left, whatever the state of the login.
pub proof fn lemma_backoff_refuses_fetch(session: SpaceTrackSession, now: Timestamp)
    requires
        session.rate_limit.backing_off_at(now),
    ensures
        session.fetch_plan_at(now) == Err::<CdmFetchStep, SpaceTrackError>(
            SpaceTrackError::BackoffActive { secs: session.rate_limit.secs_remaining_at(now) },
        ),
{
}

/// After Space-Track answers a CDM query with 429 at `now`, every CDM fetch
/// during the next 60 seconds is refused without contacting Space-Track.
pub proof fn lemma_rate_limited_fetch_refused(
    session: SpaceTrackSession,
    now: Timestamp,
    later: Timestamp,
)
    requires
        session.wf(),
        now.wf(),
        later.wf(),
        now.secs <= INSTANT_SECS_LIMIT - BACKOFF_SECS,
        0 <= span_nanos(later, now) < BACKOFF_SECS * 1_000_000_000,
    ensures
        session.after_query_status(STATUS_TOO_MANY_REQUESTS, now).1 == Err::<(), SpaceTrackError>(
            SpaceTrackError::RateLimited,
        ),
        session.after_query_status(STATUS_TOO_MANY_REQUESTS, now).0.fetch_plan_at(later) == Err::<
            CdmFetchStep,
            SpaceTrackError,
        >(
            SpaceTrackError::BackoffActive {
                secs: ((BACKOFF_SECS * 1_000_000_000 - span_nanos(later, now)) / 1_000_000_000) as i64,
            },
        ),
{
    lemma_backoff_lasts_a_minute(session.rate_limit, now, later);
    let end = seconds_after(now, BACKOFF_SECS as int);
    assert(span_nanos(end, later) == BACKOFF_SECS * 1_000_000_000 - span_nanos(later, now));
}

/// Two requests recorded more than 60 seconds apart, with the clock not
/// running backward from the start of any earlier window, leave a window
/// opened by the later one, holding that one request.
pub proof fn lemma_request_after_window_restarts_count(
    state: RateLimitState,
    first: Timestamp,
    second: Timestamp,
)
    requires
        state.can_record_at(first),
        state.window_start matches Some(w) ==> w.nanos_since_epoch() <= first.nanos_since_epoch(),
        span_nanos(second, first) > RATE_WINDOW_SECS * 1_000_000_000,
    ensures
        state.after_request_at(first).after_request_at(second).request_count == 1,
        state.after_request_at(first).after_request_at(second).window_start == Some(second),
{
    if !state.window_expired_at(first) {
        let w = state.window_start.unwrap();
        assert(span_nanos(second, w) == span_nanos(second, first) + span_nanos(first, w));
    }
}

/// A login is usable for 90 minutes: `whole_minutes` of a span stays below
/// 90 exactly when the span is shorter than 5400 seconds.
pub proof fn lemma_whole_minutes_below_limit(d: int)
    ensures
        whole_minutes(d) < SESSION_LIFETIME_MINUTES <==> d < SESSION_LIFETIME_MINUTES * 60
            * 1_000_000_000,
{
}

/// After a successful login at `now`, the session is valid at exactly the
/// instants less than 90 minutes later (and at any earlier instant).
pub proof fn lemma_login_valid_for_session_lifetime(
    session: SpaceTrackSession,
    body: Seq<u8>,
    now: Timestamp,
    later: Timestamp,
)
    requires
        !contains_bytes(body, failed_marker()),
    ensures
        session.after_login_at(STATUS_OK, body, now).1 == Ok::<(), SpaceTrackError>(()),
        session.after_login_at(STATUS_OK, body, now).0.valid_at(later) <==> span_nanos(later, now)
            < SESSION_LIFETIME_MINUTES * 60 * 1_000_000_000,
{
    lemma_whole_minutes_below_limit(span_nanos(later, now));
}

/// A login answered 200 with `"Failed"` in its text, or with any other
/// status, leaves the session as it was and reports the failure.
pub proof fn lemma_failed_login_changes_nothing(
    session: SpaceTrackSession,
    status: u16,
    body: Seq<u8>,
    now: Timestamp,
)
    requires
        status != STATUS_OK || contains_bytes(body, failed_marker()),
    ensures
        session.after_login_at(status, body, now).0 == session,
        session.after_login_at(status, body, now).1 is Err,
{
}

/// After Space-Track answers 401 or 403, the session is no longer valid,
/// so the next fetch logs in again unless a backoff refuses it.
pub proof fn lemma_rejected_session_logs_in_again(
    session: SpaceTrackSession,
    status: u16,
    now: Timestamp,
    later: Timestamp,
)
    requires
        status == STATUS_UNAUTHORIZED || status == STATUS_FORBIDDEN,
        !session.rate_limit.backing_off_at(later),
    ensures
        session.after_query_status(status, now).1 == Err::<(), SpaceTrackError>(
            SpaceTrackError::SessionExpired,
        ),
        !session.after_query_status(status, now).0.valid_at(later),
        session.after_query_status(status, now).0.fetch_plan_at(later) == Ok::<
            CdmFetchStep,
            SpaceTrackError,
        >(CdmFetchStep::Authenticate),
{
}

/// A CDM fetch goes straight to the query only with a valid session and
/// outside any backoff, and asks for a login only outside any backoff.
pub proof fn lemma_query_only_when_allowed(session: SpaceTrackSession, now: Timestamp)
    ensures
        session.fetch_plan_at(now) == Ok::<CdmFetchStep, SpaceTrackError>(CdmFetchStep::Query)
            ==> session.valid_at(now) && !session.rate_limit.backing_off_at(now),
        session.fetch_plan_at(now) == Ok::<CdmFetchStep, SpaceTrackError>(
            CdmFetchStep::Authenticate,
        ) ==> !session.valid_at(now) && !session.rate_limit.backing_off_at(now),
        session.fetch_plan_at(now) is Err <==> session.rate_limit.backing_off_at(now),
{
}

/// The state after recording each request of `times` in turn.
pub open spec fn after_requests(state: RateLimitState, times: Seq<Timestamp>) -> RateLimitState
    decreases times.len(),
{
    if times.len() == 0 {
        state
    } else {
        after_requests(state, times.drop_last()).after_request_at(times.last())
    }
}

/// From any state, when the first of a run of requests opens a new window
/// and every later one comes at most 60 seconds after it, all of them fall
/// in that window: the counter is the number of requests made since (and
/// including) the one that opened it, and the backoff is untouched.
pub proof fn lemma_window_counts_requests(state: RateLimitState, times: Seq<Timestamp>)
    requires
        times.len() > 0,
        times.len() <= u32::MAX,
        state.window_expired_at(times[0]),
        forall|i: int|
            0 <= i < times.len() ==> #[trigger] span_nanos(times[i], times[0]) <= RATE_WINDOW_SECS
                * 1_000_000_000,
    ensures
        after_requests(state, times).request_count == times.len(),
        after_requests(state, times).window_start == Some(times[0]),
        after_requests(state, times).backoff_until == state.backoff_until,
    decreases times.len(),
{
    if times.len() > 1 {
        let prefix = times.drop_last();
        assert forall|i: int| 0 <= i < prefix.len() implies #[trigger] span_nanos(
            prefix[i],
            prefix[0],
        ) <= RATE_WINDOW_SECS * 1_000_000_000 by {
            assert(prefix[i] == times[i]);
        }
        lemma_window_counts_requests(state, prefix);
        let before = after_requests(state, prefix);
        assert(prefix[0] == times[0]);
        assert(span_nanos(times[times.len() - 1], times[0]) <= RATE_WINDOW_SECS * 1_000_000_000);
        assert(!before.window_expired_at(times.last()));
        assert(after_requests(state, times) == before.after_request_at(times.last()));
    } else {
        assert(times.drop_last().len() == 0);
        assert(after_requests(state, times.drop_last()) == state);
        assert(after_requests(state, times) == state.after_request_at(times.last()));
        assert(times.last() == times[0]);
    }
}

/// Requests made at most 60 seconds after the start of the current window
/// stay in it: each adds one to the counter, and neither the window start
/// nor the backoff changes.
pub proof fn lemma_requests_in_open_window(state: RateLimitState, times: Seq<Timestamp>)
    requires
        state.window_start is Some,
        state.request_count + times.len() <= u32::MAX,
        forall|i: int|
            0 <= i < times.len() ==> #[trigger] span_nanos(times[i], state.window_start.unwrap())
                <= RATE_WINDOW_SECS * 1_000_000_000,
    ensures
        after_requests(state, times).request_count == state.request_count + times.len(),
        after_requests(state, times).window_start == state.window_start,
        after_requests(state, times).backoff_until == state.backoff_until,
    decreases times.len(),
{
    if times.len() > 0 {
        let prefix = times.drop_last();
        assert forall|i: int| 0 <= i < prefix.len() implies #[trigger] span_nanos(
            prefix[i],
            state.window_start.unwrap(),
        ) <= RATE_WINDOW_SECS * 1_000_000_000 by {
            assert(prefix[i] == times[i]);
        }
        lemma_requests_in_open_window(state, prefix);
        let before = after_requests(state, prefix);
        assert(span_nanos(times[times.len() - 1], state.window_start.unwrap()) <= RATE_WINDOW_SECS
            * 1_000_000_000);
        assert(!before.window_expired_at(times.last()));
        assert(after_requests(state, times) == before.after_request_at(times.last()));
    }
}

/// Recording one run of requests and then another is recording the two
/// runs joined.
pub proof fn lemma_after_requests_join(
    state: RateLimitState,
    first: Seq<Timestamp>,
    second: Seq<Timestamp>,
)
    ensures
        after_requests(state, first + second) == after_requests(
            after_requests(state, first),
            second,
        ),
    decreases second.len(),
{
    if second.len() == 0 {
        assert(first + second =~= first);
    } else {
        lemma_after_requests_join(state, first, second.drop_last());
        assert((first + second).drop_last() =~= first + second.drop_last());
        assert((first + second).last() == second.last());
    }
}

/// Recording requests never changes the backoff.
pub proof fn lemma_requests_keep_backoff(state: RateLimitState, times: Seq<Timestamp>)
    ensures
        after_requests(state, times).backoff_until == state.backoff_until,
    decreases times.len(),
{
    if times.len() > 0 {
        lemma_requests_keep_backoff(state, times.drop_last());
    }
}

/// From any state: when the request at index `k` of a run opens a new
/// window and every later request of the run comes at most 60 seconds after
/// it, the window at the end starts at that request and the counter is the
/// number of requests made since it, itself included; the backoff is never
/// changed.
pub proof fn lemma_count_since_window_opened(state: RateLimitState, times: Seq<Timestamp>, k: int)
    requires
        0 <= k < times.len(),
        times.len() - k <= u32::MAX,
        after_requests(state, times.take(k)).window_expired_at(times[k]),
        forall|j: int|
            k <= j < times.len() ==> #[trigger] span_nanos(times[j], times[k]) <= RATE_WINDOW_SECS
                * 1_000_000_000,
    ensures
        after_requests(state, times).window_start == Some(times[k]),
        after_requests(state, times).request_count == times.len() - k,
        after_requests(state, times).backoff_until == state.backoff_until,
{
    let before = times.take(k);
    let run = times.skip(k);
    assert(times =~= before + run);
    lemma_after_requests_join(state, before, run);
    let mid = after_requests(state, before);
    assert(run[0] == times[k]);
    assert forall|i: int| 0 <= i < run.len() implies #[trigger] span_nanos(run[i], run[0])
        <= RATE_WINDOW_SECS * 1_000_000_000 by {
        assert(run[i] == times[k + i]);
        assert(span_nanos(times[k + i], times[k]) <= RATE_WINDOW_SECS * 1_000_000_000);
    }
    lemma_window_counts_requests(mid, run);
    lemma_requests_keep_backoff(state, before);
}

/// Recording a request never leaves the counter at 0, and the window then
/// always has a start.
pub proof fn lemma_request_opens_window(state: RateLimitState, now: Timestamp)
    requires
        state.can_record_at(now),
    ensures
        state.after_request_at(now).request_count >= 1,
        state.after_request_at(now).window_start is Some,
        state.after_request_at(now).backoff_until == state.backoff_until,
        state.window_expired_at(now) ==> state.after_request_at(now).request_count == 1,
        !state.window_expired_at(now) ==> state.after_request_at(now).request_count
            == state.request_count + 1,
{
}

} // verus!
