use url_shortener::admin::{check_auth, delete_url, get_me, guard, list_urls, update_url};
use url_shortener::http::{JsonBody, JsonReply, Status};
use url_shortener::models::{DiscordUser, UrlRecord};

fn alice() -> DiscordUser {
    DiscordUser { id: "42".to_string(), username: "alice".to_string(), avatar: Some("pic".to_string()) }
}

fn record(id: i64, slug: &str) -> UrlRecord {
    UrlRecord {
        id,
        slug: slug.to_string(),
        original_url: format!("https://example.com/{}", id),
        created_at: "2024-01-01 00:00:00".to_string(),
        clicks: id * 2,
        expires_at: None,
    }
}

fn error_of(reply: JsonReply) -> (u16, String) {
    match reply.body {
        JsonBody::Error(body) => (reply.status.code(), body.error),
        other => panic!("expected an error body, got {:?}", other),
    }
}

fn is_success(reply: JsonReply) -> bool {
    reply.status == Status::Okay && matches!(reply.body, JsonBody::Success(ref s) if s.success)
}

#[test]
fn a_session_is_what_authorizes() {
    assert!(check_auth(&Some(alice())));
    assert!(!check_auth(&None));
}

#[test]
fn guard_lets_a_session_pass() {
    assert!(guard(&Some(alice())).is_none());
}

#[test]
fn guard_refuses_without_a_session() {
    let refusal = guard(&None).unwrap();
    assert_eq!(refusal.status, Status::Unauthorized);
    assert_eq!(error_of(refusal), (401, "Unauthorized".to_string()));
}

#[test]
fn listing_returns_the_records_in_the_stores_order() {
    let reply = list_urls(Ok(vec![record(3, "ccc"), record(1, "aaa"), record(2, "bbb")]));
    assert_eq!(reply.status, Status::Okay);
    match reply.body {
        JsonBody::Urls(urls) => {
            let slugs: Vec<&str> = urls.iter().map(|r| r.slug.as_str()).collect();
            assert_eq!(slugs, vec!["ccc", "aaa", "bbb"]);
            assert_eq!(urls[0].id, 3);
            assert_eq!(urls[0].clicks, 6);
            assert_eq!(urls[0].original_url, "https://example.com/3");
        }
        other => panic!("expected the records, got {:?}", other),
    }
}

#[test]
fn listing_may_be_empty() {
    let reply = list_urls(Ok(Vec::new()));
    assert_eq!(reply.status, Status::Okay);
    assert!(matches!(reply.body, JsonBody::Urls(ref urls) if urls.is_empty()));
}

#[test]
fn listing_reports_a_store_failure() {
    assert_eq!(error_of(list_urls(Err(sqlx::Error::PoolClosed))), (500, "Database error".to_string()));
}

#[test]
fn writes_report_success() {
    assert!(is_success(delete_url(Ok(()))));
    assert!(is_success(update_url(Ok(()))));
}

#[test]
fn writes_report_a_store_failure() {
    assert_eq!(error_of(delete_url(Err(sqlx::Error::PoolClosed))), (500, "Database error".to_string()));
    assert_eq!(error_of(update_url(Err(sqlx::Error::RowNotFound))), (500, "Database error".to_string()));
}

#[test]
fn me_returns_the_user() {
    let reply = get_me(Some(alice()));
    assert_eq!(reply.status, Status::Okay);
    match reply.body {
        JsonBody::Me(me) => {
            assert_eq!(me.user.id, "42");
            assert_eq!(me.user.username, "alice");
            assert_eq!(me.user.avatar, Some("pic".to_string()));
        }
        other => panic!("expected the user, got {:?}", other),
    }
}

#[test]
fn me_without_a_session_is_unauthorized() {
    assert_eq!(error_of(get_me(None)), (401, "Unauthorized".to_string()));
}
