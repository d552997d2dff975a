use url_shortener::text::{contains_char, has_prefix, same_text};

#[test]
fn contains_char_finds_a_character_anywhere() {
    assert!(contains_char("style.css", '.'));
    assert!(contains_char(".hidden", '.'));
    assert!(contains_char("trailing.", '.'));
    assert!(!contains_char("abc123", '.'));
    assert!(!contains_char("", '.'));
    assert!(contains_char("naïve", 'ï'));
}

#[test]
fn has_prefix_compares_the_beginning() {
    assert!(has_prefix("https://example.com", "https"));
    assert!(has_prefix("https", "https"));
    assert!(!has_prefix("http://example.com", "https"));
    assert!(!has_prefix("http", "https"));
    assert!(!has_prefix("", "https"));
    assert!(has_prefix("anything", ""));
    assert!(!has_prefix("HTTPS://example.com", "https"));
}

#[test]
fn same_text_is_equality() {
    assert!(same_text("login", "login"));
    assert!(!same_text("login", "logins"));
    assert!(!same_text("Login", "login"));
    assert!(same_text("", ""));
}
