use dlsite_tui::api::ApiError;
use dlsite_tui::session::{cookie_file_text, is_logged_in, load_cookie_store, refresh_csrf_token};

fn line(name_value: &str, expires: &str) -> String {
    format!(
        "{{\"raw_cookie\":\"{}\",\"path\":[\"/\",false],\"domain\":{{\"HostOnly\":\"www.dlsite.com\"}},\"expires\":{}}}",
        name_value, expires
    )
}

#[test]
fn no_saved_file_gives_empty_jar() {
    let jar = load_cookie_store(None).unwrap();
    assert!(!is_logged_in(&jar));
    assert_eq!(cookie_file_text(&jar).unwrap(), Vec::<u8>::new());
}

#[test]
fn saved_session_cookie_means_logged_in() {
    let text = format!("{}\n{}\n", line("other=1", "\"SessionEnd\""), line("ci_session=abc", "\"SessionEnd\""));
    let jar = load_cookie_store(Some(&text)).unwrap();
    assert!(is_logged_in(&jar));
    let text = line("INT_MEMBER_LOGIN=x", "{\"AtUtc\":\"2999-01-01T00:00:00Z\"}");
    let jar = load_cookie_store(Some(&text)).unwrap();
    assert!(is_logged_in(&jar));
    let saved = String::from_utf8(cookie_file_text(&jar).unwrap()).unwrap();
    assert!(saved.contains("INT_MEMBER_LOGIN=x"));
    assert!(saved.ends_with('\n'));
    let session_only = load_cookie_store(Some(&line("ci_session=abc", "\"SessionEnd\""))).unwrap();
    assert_eq!(cookie_file_text(&session_only).unwrap(), Vec::<u8>::new());
}

#[test]
fn other_cookies_are_not_a_session() {
    let jar = load_cookie_store(Some(&line("XSRF-TOKEN=t", "\"SessionEnd\""))).unwrap();
    assert!(!is_logged_in(&jar));
}

#[test]
fn unreadable_cookie_file() {
    let err = load_cookie_store(Some("not a cookie")).err().unwrap();
    assert!(err.starts_with("Failed to load cookies: "));
}

#[test]
fn csrf_from_page_or_cookie() {
    let jar = load_cookie_store(Some(&line("XSRF-TOKEN=a%3Db", "\"SessionEnd\""))).unwrap();
    assert_eq!(refresh_csrf_token("<html></html>", &jar), Ok("a=b".to_string()));
    assert_eq!(refresh_csrf_token(r#"name="_token" value="page""#, &jar), Ok("page".to_string()));
    let empty = load_cookie_store(None).unwrap();
    assert_eq!(refresh_csrf_token("<html></html>", &empty), Err(ApiError::CsrfNotFound));
}

#[test]
fn expired_saved_cookie_is_dropped() {
    let text = line("ci_session=old", "{\"AtUtc\":\"2000-01-01T00:00:00Z\"}");
    let jar = load_cookie_store(Some(&text)).unwrap();
    assert!(!is_logged_in(&jar));
    assert_eq!(cookie_file_text(&jar).unwrap(), Vec::<u8>::new());
}

#[test]
fn saved_cookie_file_reads_back() {
    let text = format!(
        "{}\n{}\n",
        line("INT_MEMBER_LOGIN=x", "{\"AtUtc\":\"2999-01-01T00:00:00Z\"}"),
        line("other=1", "\"SessionEnd\"")
    );
    let jar = load_cookie_store(Some(&text)).unwrap();
    let saved = String::from_utf8(cookie_file_text(&jar).unwrap()).unwrap();
    let back = load_cookie_store(Some(&saved)).unwrap();
    assert!(is_logged_in(&back));
    let again = String::from_utf8(cookie_file_text(&back).unwrap()).unwrap();
    assert_eq!(again, saved);
}
