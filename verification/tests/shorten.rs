use url_shortener::http::{JsonBody, Status};
use url_shortener::models::{CreateUrlRequest, CreateUrlResponse};
use url_shortener::shorten::{
    create_short_url, create_short_url_with, insert_answered, insert_answered_with, shorten_reply,
    Attempt, ShortenError, ShortenStep, MAX_ATTEMPTS,
};
use url_shortener::store::InsertOutcome;

const ALPHABET: &str = "abcdefghijklmnopqrstuvwxyzABCDEFGHIJKLMNOPQRSTUVWXYZ0123456789";
const BASE: &str = "http://localhost:3006";

fn request(url: &str, custom: Option<&str>, expires: Option<&str>) -> CreateUrlRequest {
    CreateUrlRequest {
        url: url.to_string(),
        custom_slug: custom.map(str::to_string),
        expires_at: expires.map(str::to_string),
    }
}

fn attempt_of(step: ShortenStep) -> Attempt {
    match step {
        ShortenStep::Insert(attempt) => attempt,
        ShortenStep::Done(result) => panic!("expected an insertion, got {:?}", result),
    }
}

fn result_of(step: ShortenStep) -> Result<CreateUrlResponse, ShortenError> {
    match step {
        ShortenStep::Done(result) => result,
        ShortenStep::Insert(attempt) => panic!("expected an end, got {:?}", attempt),
    }
}

fn is_generated(slug: &str) -> bool {
    slug.chars().count() == 6 && slug.chars().all(|c| ALPHABET.contains(c))
}

#[test]
fn five_attempts_are_the_bound() {
    assert_eq!(MAX_ATTEMPTS, 5);
}

#[test]
fn empty_url_is_refused_before_any_insertion() {
    let result = result_of(create_short_url(&request("", None, None)));
    assert_eq!(result.unwrap_err(), ShortenError::EmptyUrl);
    let result = result_of(create_short_url(&request("", Some("mine"), None)));
    assert_eq!(result.unwrap_err(), ShortenError::EmptyUrl);
    let result = result_of(create_short_url_with(&request("", None, None), "abcdef".to_string()));
    assert_eq!(result.unwrap_err(), ShortenError::EmptyUrl);
}

#[test]
fn without_custom_slug_a_generated_slug_is_tried_first() {
    let attempt = attempt_of(create_short_url(&request("https://example.com", None, None)));
    assert!(is_generated(&attempt.slug));
    assert!(!attempt.custom);
    assert_eq!(attempt.number, 1);
}

#[test]
fn a_given_candidate_is_tried_as_it_is() {
    let step = create_short_url_with(&request("https://example.com", None, None), "Abc123".to_string());
    let attempt = attempt_of(step);
    assert_eq!(attempt.slug, "Abc123");
    assert!(!attempt.custom);
    assert_eq!(attempt.number, 1);
}

#[test]
fn custom_slug_is_trimmed_and_tried() {
    let attempt = attempt_of(create_short_url(&request("https://example.com", Some("  my-slug \n"), None)));
    assert_eq!(attempt.slug, "my-slug");
    assert!(attempt.custom);
    assert_eq!(attempt.number, 1);
}

#[test]
fn custom_slug_keeps_inner_whitespace_and_dots() {
    let attempt = attempt_of(create_short_url(&request("https://example.com", Some("\ta b.c\u{3000}"), None)));
    assert_eq!(attempt.slug, "a b.c");
}

#[test]
fn custom_slug_of_whitespace_becomes_empty() {
    let attempt = attempt_of(create_short_url(&request("https://example.com", Some("   "), None)));
    assert_eq!(attempt.slug, "");
    assert!(attempt.custom);
}

#[test]
fn custom_slug_wins_over_the_candidate() {
    let step = create_short_url_with(
        &request("https://example.com", Some("mine"), None),
        "abcdef".to_string(),
    );
    assert_eq!(attempt_of(step).slug, "mine");
}

#[test]
fn inserted_reports_the_record() {
    let req = request("https://example.com/a?b=c", None, Some("2030-01-01T00:00:00Z"));
    let attempt = Attempt { slug: "Abc123".to_string(), custom: false, number: 1 };
    let response = result_of(insert_answered(&req, attempt, InsertOutcome::Inserted, BASE)).unwrap();
    assert!(response.success);
    assert_eq!(response.short_url, "http://localhost:3006/Abc123");
    assert_eq!(response.slug, "Abc123");
    assert_eq!(response.original_url, "https://example.com/a?b=c");
    assert_eq!(response.expires_at, Some("2030-01-01T00:00:00Z".to_string()));
}

#[test]
fn inserted_custom_slug_reports_the_trimmed_slug() {
    let req = request("https://example.com", Some(" mine "), None);
    let attempt = attempt_of(create_short_url(&req));
    let response = result_of(insert_answered(&req, attempt, InsertOutcome::Inserted, "https://sho.rt")).unwrap();
    assert_eq!(response.short_url, "https://sho.rt/mine");
    assert_eq!(response.slug, "mine");
    assert_eq!(response.expires_at, None);
}

#[test]
fn taken_custom_slug_is_a_conflict_without_retry() {
    let req = request("https://example.com", Some("mine"), None);
    let attempt = attempt_of(create_short_url(&req));
    let result = result_of(insert_answered(&req, attempt, InsertOutcome::UniqueViolation, BASE));
    assert_eq!(result.unwrap_err(), ShortenError::Conflict);
}

#[test]
fn store_failure_ends_the_request() {
    let req = request("https://example.com", None, None);
    let attempt = attempt_of(create_short_url(&req));
    let result = result_of(insert_answered(&req, attempt, InsertOutcome::Failed, BASE));
    assert_eq!(result.unwrap_err(), ShortenError::Store);

    let req = request("https://example.com", Some("mine"), None);
    let attempt = attempt_of(create_short_url(&req));
    let result = result_of(insert_answered(&req, attempt, InsertOutcome::Failed, BASE));
    assert_eq!(result.unwrap_err(), ShortenError::Store);
}

#[test]
fn taken_generated_slug_is_drawn_again() {
    let req = request("https://example.com", None, None);
    let first = attempt_of(create_short_url(&req));
    let second = attempt_of(insert_answered(&req, first, InsertOutcome::UniqueViolation, BASE));
    assert!(is_generated(&second.slug));
    assert!(!second.custom);
    assert_eq!(second.number, 2);
}

#[test]
fn the_next_candidate_is_used_on_collision() {
    let req = request("https://example.com", None, None);
    let first = attempt_of(create_short_url_with(&req, "aaaaaa".to_string()));
    let step = insert_answered_with(&req, first, InsertOutcome::UniqueViolation, "bbbbbb".to_string(), BASE);
    let second = attempt_of(step);
    assert_eq!(second.slug, "bbbbbb");
    assert_eq!(second.number, 2);
}

#[test]
fn forced_collisions_fail_after_exactly_five_attempts() {
    let req = request("https://example.com", None, None);
    let mut step = create_short_url(&req);
    let mut insertions = 0;
    let mut tried = Vec::new();
    let result = loop {
        match step {
            ShortenStep::Insert(attempt) => {
                insertions += 1;
                assert_eq!(attempt.number, insertions);
                assert!(is_generated(&attempt.slug));
                tried.push(attempt.slug.clone());
                assert!(insertions <= 5, "the coordinator must not try a sixth time");
                step = insert_answered(&req, attempt, InsertOutcome::UniqueViolation, BASE);
            }
            ShortenStep::Done(result) => break result,
        }
    };
    assert_eq!(insertions, 5);
    assert_eq!(result.unwrap_err(), ShortenError::AllocationExhausted);
    assert_eq!(tried.len(), 5);
}

#[test]
fn the_fifth_collision_exhausts_and_the_fourth_does_not() {
    let req = request("https://example.com", None, None);
    let fourth = Attempt { slug: "dddddd".to_string(), custom: false, number: 4 };
    let fifth = attempt_of(insert_answered(&req, fourth, InsertOutcome::UniqueViolation, BASE));
    assert_eq!(fifth.number, 5);
    let result = result_of(insert_answered(&req, fifth, InsertOutcome::UniqueViolation, BASE));
    assert_eq!(result.unwrap_err(), ShortenError::AllocationExhausted);
}

#[test]
fn the_fifth_attempt_may_still_succeed() {
    let req = request("https://example.com", None, None);
    let fifth = Attempt { slug: "eeeeee".to_string(), custom: false, number: 5 };
    let response = result_of(insert_answered(&req, fifth, InsertOutcome::Inserted, BASE)).unwrap();
    assert_eq!(response.slug, "eeeeee");
}

#[test]
fn errors_map_to_statuses_and_reasons() {
    assert_eq!(ShortenError::EmptyUrl.status(), Status::BadRequest);
    assert_eq!(ShortenError::EmptyUrl.reason(), "URL is required");
    assert_eq!(ShortenError::Conflict.status(), Status::Conflict);
    assert_eq!(ShortenError::Conflict.reason(), "Slug already exists");
    assert_eq!(ShortenError::AllocationExhausted.status(), Status::InternalServerError);
    assert_eq!(ShortenError::AllocationExhausted.reason(), "Failed to generate unique slug");
    assert_eq!(ShortenError::Store.status(), Status::InternalServerError);
    assert_eq!(ShortenError::Store.reason(), "Database error");
}

#[test]
fn reply_carries_the_response_or_the_reason() {
    let req = request("https://example.com", None, None);
    let attempt = Attempt { slug: "Abc123".to_string(), custom: false, number: 1 };
    let result = result_of(insert_answered(&req, attempt, InsertOutcome::Inserted, BASE));
    let reply = shorten_reply(result);
    assert_eq!(reply.status, Status::Okay);
    assert_eq!(reply.status.code(), 200);
    match reply.body {
        JsonBody::Created(response) => assert_eq!(response.short_url, "http://localhost:3006/Abc123"),
        other => panic!("expected the created record, got {:?}", other),
    }

    for (error, code, reason) in [
        (ShortenError::EmptyUrl, 400, "URL is required"),
        (ShortenError::Conflict, 409, "Slug already exists"),
        (ShortenError::AllocationExhausted, 500, "Failed to generate unique slug"),
        (ShortenError::Store, 500, "Database error"),
    ] {
        let reply = shorten_reply(Err(error));
        assert_eq!(reply.status.code(), code);
        match reply.body {
            JsonBody::Error(body) => assert_eq!(body.error, reason),
            other => panic!("expected an error body, got {:?}", other),
        }
    }
}

#[test]
fn first_attempt_is_number_one() {
    let attempt = Attempt::first("Abc123".to_string(), false);
    assert_eq!(attempt.slug, "Abc123");
    assert!(!attempt.custom);
    assert_eq!(attempt.number, 1);
    let attempt = Attempt::first("mine".to_string(), true);
    assert!(attempt.custom);
    assert_eq!(attempt.number, 1);
}

#[test]
fn trimming_removes_unicode_whitespace_at_both_ends_only() {
    let spaces = [
        "\t", "\n", "\u{b}", "\u{c}", "\r", " ", "\u{85}", "\u{a0}", "\u{1680}", "\u{2000}",
        "\u{200a}", "\u{2028}", "\u{2029}", "\u{202f}", "\u{205f}", "\u{3000}",
    ];
    for space in spaces {
        let custom = format!("{}{}a{}b{}{}", space, space, space, space, space);
        let attempt = attempt_of(create_short_url(&request("https://example.com", Some(&custom), None)));
        assert_eq!(attempt.slug, format!("a{}b", space));
    }
    for kept in ["\u{200b}", "\u{feff}", "\u{180e}", "_", "-"] {
        let custom = format!("{}a{}", kept, kept);
        let attempt = attempt_of(create_short_url(&request("https://example.com", Some(&custom), None)));
        assert_eq!(attempt.slug, custom);
    }
}

#[test]
fn a_trimmed_slug_neither_begins_nor_ends_with_whitespace() {
    for custom in ["  x  ", "\u{3000}日本語\u{a0}", " a b ", "\n\n", "", "x"] {
        let attempt = attempt_of(create_short_url(&request("https://example.com", Some(custom), None)));
        assert_eq!(attempt.slug, custom.trim());
        if let Some(first) = attempt.slug.chars().next() {
            assert!(!first.is_whitespace());
            assert!(!attempt.slug.chars().last().unwrap().is_whitespace());
        }
    }
}
