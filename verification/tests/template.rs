use chrono::Datelike;
use dns_01_web::models::User;
use dns_01_web::template::{build_template, context_for_year, i32_to_decimal, Context};

fn user() -> User {
    User {
        id: 1,
        username: "robert".to_string(),
        passhash: "h".to_string(),
        salt: "s".to_string(),
        apikey: "KEY".to_string(),
    }
}

#[test]
fn context_read_gives_back_the_last_write() {
    let mut c = Context::new();
    assert_eq!(c.get("a"), None);
    c.insert("a", "1".to_string());
    c.insert("b", "2".to_string());
    c.insert("a", "3".to_string());
    assert_eq!(c.get("a"), Some("3".to_string()));
    assert_eq!(c.get("b"), Some("2".to_string()));
    assert_eq!(c.get("c"), None);
    let entries = c.into_entries();
    assert_eq!(entries.len(), 2);
}

#[test]
fn decimal_numerals() {
    assert_eq!(i32_to_decimal(2024), "2024");
    assert_eq!(i32_to_decimal(0), "0");
    assert_eq!(i32_to_decimal(-5), "-5");
    assert_eq!(i32_to_decimal(i32::MIN), i32::MIN.to_string());
    assert_eq!(i32_to_decimal(i32::MAX), i32::MAX.to_string());
}

#[test]
fn page_without_own_context_has_year_username_and_key() {
    let c = context_for_year(2018, &Some(user()), None);
    assert_eq!(c.get("year"), Some("2018".to_string()));
    assert_eq!(c.get("username"), Some("robert".to_string()));
    assert_eq!(c.get("apikey"), Some("KEY".to_string()));
}

#[test]
fn anonymous_page_has_empty_username_and_key() {
    let c = context_for_year(2018, &None, None);
    assert_eq!(c.get("username"), Some(String::new()));
    assert_eq!(c.get("apikey"), Some(String::new()));
}

#[test]
fn page_with_own_context_keeps_it_and_adds_year_and_key_only() {
    let mut own = Context::new();
    own.insert("flash", "hello".to_string());
    own.insert("apikey", "old".to_string());
    let c = context_for_year(2018, &Some(user()), Some(own));
    assert_eq!(c.get("flash"), Some("hello".to_string()));
    assert_eq!(c.get("apikey"), Some("KEY".to_string()));
    assert_eq!(c.get("year"), Some("2018".to_string()));
    assert_eq!(c.get("username"), None);
}

#[test]
fn build_template_uses_the_current_year() {
    let c = build_template(&None, None);
    let year = chrono::Utc::now().year().to_string();
    assert_eq!(c.get("year"), Some(year));
}
