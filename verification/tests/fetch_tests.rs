use weather_proxy::error::Error;
use weather_proxy::fetch::{
    accept_chunk, classify_status, install_plan, scan_chunks, StatusOutcome, INSTALL_MODE,
    MAX_FETCH_BYTES,
};

#[test]
fn status_200_is_success() {
    assert_eq!(classify_status(200, false), StatusOutcome::Success);
    assert_eq!(classify_status(200, true), StatusOutcome::Success);
}

#[test]
fn status_304_answers_a_conditional_request() {
    assert_eq!(classify_status(304, true), StatusOutcome::NotModified);
}

#[test]
fn status_304_without_condition_is_upstream_failure() {
    assert_eq!(classify_status(304, false), StatusOutcome::Upstream(304));
}

#[test]
fn other_statuses_are_upstream_failures() {
    assert_eq!(classify_status(404, true), StatusOutcome::Upstream(404));
    assert_eq!(classify_status(500, false), StatusOutcome::Upstream(500));
    assert_eq!(classify_status(204, false), StatusOutcome::Upstream(204));
}

#[test]
fn chunk_up_to_the_cap_is_accepted() {
    assert_eq!(accept_chunk(0, MAX_FETCH_BYTES), Ok(MAX_FETCH_BYTES));
    assert_eq!(accept_chunk(100, 24), Ok(124));
}

#[test]
fn chunk_past_the_cap_is_too_large() {
    assert_eq!(accept_chunk(0, MAX_FETCH_BYTES + 1), Err(Error::ResourceTooLarge));
    assert_eq!(accept_chunk(MAX_FETCH_BYTES, 1), Err(Error::ResourceTooLarge));
}

#[test]
fn body_at_exactly_one_mebibyte_is_accepted() {
    let chunks = vec![vec![0u8; 512 * 1024], vec![0u8; 512 * 1024]];
    assert_eq!(scan_chunks(&chunks), Ok(1024 * 1024));
}

#[test]
fn body_past_one_mebibyte_is_too_large() {
    let chunks = vec![vec![0u8; 512 * 1024], vec![0u8; 512 * 1024], vec![1u8]];
    assert_eq!(scan_chunks(&chunks), Err(Error::ResourceTooLarge));
}

#[test]
fn empty_body_is_accepted() {
    let chunks: Vec<Vec<u8>> = Vec::new();
    assert_eq!(scan_chunks(&chunks), Ok(0));
}

#[test]
fn install_sets_group_readable_owner_writable_mode() {
    let plan = install_plan(&None);
    assert_eq!(plan.mode, 0o640);
    assert_eq!(plan.mode, INSTALL_MODE);
    assert_eq!(plan.mtime, None);
}

#[test]
fn install_takes_mtime_from_last_modified_header() {
    let header = Some(String::from("Wed, 21 Oct 2015 07:28:00 GMT"));
    let plan = install_plan(&header);
    assert_eq!(plan.mtime, Some(1445412480));
    assert_eq!(plan.mode, 0o640);
}

#[test]
fn install_keeps_filesystem_time_for_unparseable_header() {
    let header = Some(String::from("not an http date"));
    let plan = install_plan(&header);
    assert_eq!(plan.mtime, None);
}
