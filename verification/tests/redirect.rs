use url_shortener::clock::Instant;
use url_shortener::http::Status;
use url_shortener::models::UrlRecord;
use url_shortener::redirect::{handle_redirect, judge, resolve, resolve_at, Resolution, Route};
use url_shortener::store::Lookup;

const NOW: Instant = Instant { secs: 1_700_000_000, nanos: 0 };

fn record(expires_at: Option<&str>) -> UrlRecord {
    UrlRecord {
        id: 7,
        slug: "Abc123".to_string(),
        original_url: "https://example.com/page".to_string(),
        created_at: "2023-11-01 10:00:00".to_string(),
        clicks: 3,
        expires_at: expires_at.map(str::to_string),
    }
}

fn location(state: Resolution) -> String {
    match state {
        Resolution::Redirect(url) => url,
        other => panic!("expected a redirect, got {:?}", other),
    }
}

#[test]
fn a_path_with_a_dot_is_not_found_without_lookup() {
    assert_eq!(handle_redirect("favicon.ico"), Route::NotFound);
    assert_eq!(handle_redirect("."), Route::NotFound);
    assert_eq!(handle_redirect("Abc.23"), Route::NotFound);
    assert_eq!(handle_redirect("login.html"), Route::NotFound);
}

#[test]
fn application_paths_serve_the_index() {
    assert_eq!(handle_redirect("dashboard"), Route::ServeIndex);
    assert_eq!(handle_redirect("login"), Route::ServeIndex);
    assert_eq!(handle_redirect("logout"), Route::ServeIndex);
}

#[test]
fn any_other_path_is_looked_up() {
    assert_eq!(handle_redirect("Abc123"), Route::Lookup);
    assert_eq!(handle_redirect("Login"), Route::Lookup);
    assert_eq!(handle_redirect("logouts"), Route::Lookup);
    assert_eq!(handle_redirect("my-slug"), Route::Lookup);
    assert_eq!(handle_redirect(""), Route::Lookup);
}

#[test]
fn a_missing_record_is_not_found() {
    let state = resolve_at(&Lookup::Missing, NOW);
    assert!(matches!(state, Resolution::NotFound));
    assert!(!state.counts_click());
    let reply = state.reply();
    assert_eq!(reply.status, Status::NotFound);
    assert_eq!(reply.status.code(), 404);
    assert_eq!(reply.body, "URL not found");
    assert_eq!(reply.location, None);
    assert_eq!(reply.set_cookie, None);
}

#[test]
fn a_failed_lookup_is_a_store_error() {
    let state = resolve_at(&Lookup::Failed, NOW);
    assert!(matches!(state, Resolution::StoreError));
    assert!(!state.counts_click());
    let reply = state.reply();
    assert_eq!(reply.status.code(), 500);
    assert_eq!(reply.body, "Database error");
}

#[test]
fn a_record_without_expiry_redirects_and_counts_a_click() {
    let state = resolve_at(&Lookup::Found(record(None)), NOW);
    assert!(state.counts_click());
    let reply = state.reply();
    assert_eq!(reply.status, Status::TemporaryRedirect);
    assert_eq!(reply.status.code(), 307);
    assert_eq!(reply.location, Some("https://example.com/page".to_string()));
    assert_eq!(reply.set_cookie, None);
    assert_eq!(reply.body, "");
}

#[test]
fn an_expiry_in_the_future_redirects() {
    // 2023-11-14T22:13:21Z is one second after NOW.
    let state = resolve_at(&Lookup::Found(record(Some("2023-11-14T22:13:21Z"))), NOW);
    assert!(state.counts_click());
    assert_eq!(location(state), "https://example.com/page");
}

#[test]
fn an_expiry_at_this_very_instant_still_redirects() {
    // 2023-11-14T22:13:20Z is NOW.
    let state = resolve_at(&Lookup::Found(record(Some("2023-11-14T22:13:20Z"))), NOW);
    assert_eq!(location(state), "https://example.com/page");
}

#[test]
fn an_expiry_strictly_in_the_past_is_gone() {
    let state = resolve_at(&Lookup::Found(record(Some("2023-11-14T22:13:19Z"))), NOW);
    assert!(matches!(state, Resolution::Gone));
    assert!(!state.counts_click());
    let reply = state.reply();
    assert_eq!(reply.status, Status::Gone);
    assert_eq!(reply.status.code(), 410);
    assert_eq!(reply.body, "URL has expired");
    assert_eq!(reply.location, None);
}

#[test]
fn the_offset_of_an_expiry_is_honoured() {
    // 23:13:19+01:00 is 22:13:19Z, one second before NOW.
    let state = resolve_at(&Lookup::Found(record(Some("2023-11-14T23:13:19+01:00"))), NOW);
    assert!(matches!(state, Resolution::Gone));
    // 21:13:21-01:00 is 22:13:21Z, one second after NOW.
    let state = resolve_at(&Lookup::Found(record(Some("2023-11-14T21:13:21-01:00"))), NOW);
    assert!(matches!(state, Resolution::Redirect(_)));
}

#[test]
fn an_unreadable_expiry_fails_open() {
    for text in ["", "never", "2023-11-14 22:13:19", "2023-11-14", "1699999999"] {
        let state = resolve_at(&Lookup::Found(record(Some(text))), NOW);
        assert!(state.counts_click());
        assert_eq!(location(state), "https://example.com/page");
    }
}

#[test]
fn the_clock_judges_past_and_future() {
    let state = resolve(&Lookup::Found(record(Some("2001-01-01T00:00:00Z"))));
    assert!(matches!(state, Resolution::Gone));
    let state = resolve(&Lookup::Found(record(Some("9999-01-01T00:00:00Z"))));
    assert_eq!(location(state), "https://example.com/page");
}

#[test]
fn the_clock_is_not_needed_without_a_readable_expiry() {
    assert_eq!(location(resolve(&Lookup::Found(record(None)))), "https://example.com/page");
    assert_eq!(location(resolve(&Lookup::Found(record(Some("soon"))))), "https://example.com/page");
    assert!(matches!(resolve(&Lookup::Missing), Resolution::NotFound));
    assert!(matches!(resolve(&Lookup::Failed), Resolution::StoreError));
}

#[test]
fn judge_compares_the_expiry_with_now() {
    let r = record(None);
    let earlier = Instant { secs: NOW.secs - 1, nanos: 999_999_999 };
    let later = Instant { secs: NOW.secs, nanos: 1 };
    assert!(matches!(judge(&r, Some(earlier), NOW), Resolution::Gone));
    assert_eq!(location(judge(&r, Some(NOW), NOW)), "https://example.com/page");
    assert_eq!(location(judge(&r, Some(later), NOW)), "https://example.com/page");
    assert_eq!(location(judge(&r, None, NOW)), "https://example.com/page");
}

#[test]
fn judge_goes_by_the_expiry_given_not_the_record() {
    let r = record(Some("2001-01-01T00:00:00Z"));
    assert_eq!(location(judge(&r, None, NOW)), "https://example.com/page");
}
