use orbidata::clock::Timestamp;
use orbidata::ingest::spacetrack::{
    cdm_query_url, login_url, reports_login_failure, CdmFetchStep, RateLimitState,
    SpaceTrackError, SpaceTrackSession,
};

fn at(secs: i64, nanos: u32) -> Timestamp {
    Timestamp { secs, nanos }
}

#[test]
fn fresh_state_is_not_backing_off() {
    let st = RateLimitState::default();
    assert!(!st.is_backing_off_at(at(1_000, 0)));
    assert_eq!(st.backoff_secs_remaining_at(at(1_000, 0)), 0);
    assert_eq!(st.is_backing_off(), Ok(false));
    assert_eq!(st.backoff_secs_remaining(), Ok(0));
}

#[test]
fn backoff_lasts_sixty_seconds() {
    let mut st = RateLimitState::new();
    st.set_backoff_at(at(1_000, 250));
    assert_eq!(st.backoff_until, Some(at(1_060, 250)));
    assert!(st.is_backing_off_at(at(1_000, 250)));
    assert_eq!(st.backoff_secs_remaining_at(at(1_000, 250)), 60);
    assert!(st.is_backing_off_at(at(1_060, 249)));
    assert_eq!(st.backoff_secs_remaining_at(at(1_059, 500)), 0);
    assert!(!st.is_backing_off_at(at(1_060, 250)));
    assert_eq!(st.backoff_secs_remaining_at(at(1_070, 0)), 0);
}

#[test]
fn backoff_by_the_clock_is_active_right_after() {
    let mut st = RateLimitState::new();
    assert_eq!(st.set_backoff(), Ok(()));
    assert_eq!(st.is_backing_off(), Ok(true));
    let left = st.backoff_secs_remaining().unwrap();
    assert!(left >= 58 && left <= 60);
}

#[test]
fn requests_in_one_window_are_counted() {
    let mut st = RateLimitState::new();
    st.record_request_at(at(100, 0));
    assert_eq!(st.request_count, 1);
    assert_eq!(st.window_start, Some(at(100, 0)));
    st.record_request_at(at(130, 0));
    st.record_request_at(at(159, 999_999_999));
    assert_eq!(st.request_count, 3);
    assert_eq!(st.window_start, Some(at(100, 0)));
}

#[test]
fn request_at_exactly_a_minute_stays_in_window() {
    let mut st = RateLimitState::new();
    st.record_request_at(at(100, 0));
    st.record_request_at(at(110, 0));
    st.record_request_at(at(160, 0));
    assert_eq!(st.request_count, 3);
    assert_eq!(st.window_start, Some(at(100, 0)));
}

#[test]
fn request_after_more_than_a_minute_opens_new_window() {
    let mut st = RateLimitState::new();
    st.record_request_at(at(100, 0));
    st.record_request_at(at(110, 0));
    st.record_request_at(at(160, 1));
    assert_eq!(st.request_count, 1);
    assert_eq!(st.window_start, Some(at(160, 1)));
}

#[test]
fn near_limit_at_twenty_eight() {
    let mut st = RateLimitState::new();
    for i in 0..27 {
        st.record_request_at(at(100 + i, 0));
        assert!(!st.is_near_limit());
    }
    st.record_request_at(at(130, 0));
    assert_eq!(st.request_count, 28);
    assert!(st.is_near_limit());
}

#[test]
fn record_request_by_the_clock() {
    let mut st = RateLimitState::new();
    assert_eq!(st.record_request(), Ok(()));
    assert_eq!(st.record_request(), Ok(()));
    assert_eq!(st.request_count, 2);
    assert!(st.window_start.is_some());
}

#[test]
fn session_valid_for_ninety_minutes() {
    let mut s = SpaceTrackSession::new();
    assert!(!s.is_session_valid_at(at(0, 0)));
    assert_eq!(s.handle_login_response_at(200, "\"\"", at(1_000, 0)), Ok(()));
    assert!(s.authenticated);
    assert!(s.is_session_valid_at(at(1_000, 0)));
    assert!(s.is_session_valid_at(at(1_000 + 5_399, 999_999_999)));
    assert!(!s.is_session_valid_at(at(1_000 + 5_400, 0)));
}

#[test]
fn login_by_the_clock_is_valid_now() {
    let mut s = SpaceTrackSession::default();
    assert_eq!(s.handle_login_response(200, ""), Ok(()));
    assert_eq!(s.is_session_valid(), Ok(true));
}

#[test]
fn failed_login_body_is_rejected() {
    let mut s = SpaceTrackSession::new();
    let r = s.handle_login_response_at(200, "{\"Login\":\"Failed\"}", at(1_000, 0));
    assert_eq!(r, Err(SpaceTrackError::InvalidCredentials));
    assert!(!s.authenticated);
    assert_eq!(s.authenticated_at, None);
}

#[test]
fn login_with_bad_status_fails() {
    let mut s = SpaceTrackSession::new();
    let r = s.handle_login_response_at(500, "", at(1_000, 0));
    assert_eq!(r, Err(SpaceTrackError::LoginStatus(500)));
    assert!(!s.authenticated);
}

#[test]
fn failure_marker_needs_quotes() {
    assert!(reports_login_failure("\"Failed\""));
    assert!(reports_login_failure("xx \"Failed\" yy"));
    assert!(!reports_login_failure("Failed"));
    assert!(!reports_login_failure(""));
    assert!(!reports_login_failure("\"Failed"));
}

#[test]
fn fetch_plan_logs_in_first() {
    let s = SpaceTrackSession::new();
    assert_eq!(s.plan_cdm_fetch_at(at(1_000, 0)), Ok(CdmFetchStep::Authenticate));
    assert_eq!(s.plan_cdm_fetch(), Ok(CdmFetchStep::Authenticate));
}

#[test]
fn fetch_plan_queries_with_valid_session() {
    let mut s = SpaceTrackSession::new();
    s.handle_login_response_at(200, "", at(1_000, 0)).unwrap();
    assert_eq!(s.plan_cdm_fetch_at(at(1_010, 0)), Ok(CdmFetchStep::Query));
    assert_eq!(s.plan_cdm_fetch_at(at(1_000 + 5_400, 0)), Ok(CdmFetchStep::Authenticate));
}

#[test]
fn rate_limited_query_refuses_fetches_for_a_minute() {
    let mut s = SpaceTrackSession::new();
    s.handle_login_response_at(200, "", at(1_000, 0)).unwrap();
    let r = s.handle_cdm_status_at(429, at(1_100, 0));
    assert_eq!(r, Err(SpaceTrackError::RateLimited));
    assert_eq!(
        s.plan_cdm_fetch_at(at(1_100, 0)),
        Err(SpaceTrackError::BackoffActive { secs: 60 })
    );
    assert_eq!(
        s.plan_cdm_fetch_at(at(1_130, 500)),
        Err(SpaceTrackError::BackoffActive { secs: 29 })
    );
    assert_eq!(s.plan_cdm_fetch_at(at(1_160, 0)), Ok(CdmFetchStep::Query));
}

#[test]
fn rejected_session_logs_out() {
    for status in [401u16, 403u16] {
        let mut s = SpaceTrackSession::new();
        s.handle_login_response_at(200, "", at(1_000, 0)).unwrap();
        let r = s.handle_cdm_status_at(status, at(1_001, 0));
        assert_eq!(r, Err(SpaceTrackError::SessionExpired));
        assert!(!s.authenticated);
        assert_eq!(s.plan_cdm_fetch_at(at(1_002, 0)), Ok(CdmFetchStep::Authenticate));
    }
}

#[test]
fn ok_and_other_statuses() {
    let mut s = SpaceTrackSession::new();
    assert_eq!(s.handle_cdm_status_at(200, at(1, 0)), Ok(()));
    assert_eq!(s.handle_cdm_status_at(500, at(1, 0)), Err(SpaceTrackError::QueryStatus(500)));
    assert_eq!(s.handle_cdm_status(502), Err(SpaceTrackError::QueryStatus(502)));
    assert!(s.rate_limit.backoff_until.is_none());
    assert_eq!(s.handle_cdm_status(429), Err(SpaceTrackError::RateLimited));
    assert_eq!(s.rate_limit.is_backing_off(), Ok(true));
}

#[test]
fn space_track_urls() {
    assert_eq!(login_url(), "https://www.space-track.org/ajaxauth/login");
    assert_eq!(
        cdm_query_url(),
        "https://www.space-track.org/basicspacedata/query/class/cdm_public/orderby/TCA asc/limit/20/format/json"
    );
}

#[test]
fn clock_free_answers() {
    let st = RateLimitState::new();
    assert_eq!(st.is_backing_off(), Ok(false));
    assert_eq!(st.backoff_secs_remaining(), Ok(0));
    let s = SpaceTrackSession::new();
    assert_eq!(s.is_session_valid(), Ok(false));
    assert_eq!(s.plan_cdm_fetch(), Ok(CdmFetchStep::Authenticate));
}

#[test]
fn stale_login_by_the_clock_needs_a_new_login() {
    let mut s = SpaceTrackSession::new();
    s.handle_login_response_at(200, "", at(1_000, 0)).unwrap();
    assert_eq!(s.is_session_valid(), Ok(false));
    assert_eq!(s.plan_cdm_fetch(), Ok(CdmFetchStep::Authenticate));
}
