use dlsite_tui::api::{
    check_login_reply, csrf_token, download_url, extract_csrf_from_html, first_work_info,
    has_session_cookie, login_form, purchased_page_url, urlencoding_decode, work_info_url,
    ApiError, FileInfo, WorkInfo,
};
use dlsite_tui::db::work_from_info;

fn pairs(v: &[(&str, &str)]) -> Vec<(String, String)> {
    v.iter().map(|(a, b)| (a.to_string(), b.to_string())).collect()
}

fn info(workno: &str, name: &str, maker: &str, files: &[&str]) -> WorkInfo {
    WorkInfo {
        workno: workno.to_string(),
        work_name: name.to_string(),
        maker_name: maker.to_string(),
        contents: files
            .iter()
            .map(|f| FileInfo { workno: workno.to_string(), file_name: f.to_string(), file_size: 10 })
            .collect(),
    }
}

#[test]
fn csrf_from_token_input() {
    let body = r#"<form><input type="hidden" name="_token" value="abc123"><input name="x"></form>"#;
    assert_eq!(extract_csrf_from_html(body), Some("abc123".to_string()));
}

#[test]
fn csrf_from_token_input_with_value_later() {
    let body = r#"<input name="_token" type="hidden" value="tok-9">"#;
    assert_eq!(extract_csrf_from_html(body), Some("tok-9".to_string()));
}

#[test]
fn csrf_from_meta_tag() {
    let body = r#"<head><meta name="csrf-token" content="meta-tok"></head>"#;
    assert_eq!(extract_csrf_from_html(body), Some("meta-tok".to_string()));
}

#[test]
fn csrf_first_form_wins_over_meta() {
    let body = r#"<meta name="csrf-token" content="meta"><input name="_token" value="form">"#;
    assert_eq!(extract_csrf_from_html(body), Some("form".to_string()));
}

#[test]
fn csrf_missing_or_unterminated() {
    assert_eq!(extract_csrf_from_html("<html>no token here</html>"), None);
    assert_eq!(extract_csrf_from_html(r#"name="_token" value="unterminated"#), None);
}

#[test]
fn csrf_with_multibyte_text_around() {
    let body = r#"ログイン <input name="_token" value="日本">"#;
    assert_eq!(extract_csrf_from_html(body), Some("日本".to_string()));
}

#[test]
fn decode_percent_and_plus() {
    assert_eq!(urlencoding_decode("abc%20def"), "abc def");
    assert_eq!(urlencoding_decode("a+b"), "a b");
    assert_eq!(urlencoding_decode("%41BC"), "ABC");
    assert_eq!(urlencoding_decode("x%3Dy%3d"), "x=y=");
}

#[test]
fn decode_edge_cases() {
    assert_eq!(urlencoding_decode("%"), "\u{0}");
    assert_eq!(urlencoding_decode("%A"), "\u{a0}");
    assert_eq!(urlencoding_decode("%+5x"), "\u{5}x");
    assert_eq!(urlencoding_decode("%zzq"), "q");
    assert_eq!(urlencoding_decode("%-1q"), "q");
    assert_eq!(urlencoding_decode("%e9"), "\u{e9}");
    assert_eq!(urlencoding_decode(""), "");
}

#[test]
fn decode_plain_text_unchanged() {
    assert_eq!(urlencoding_decode("plain-text_123"), "plain-text_123");
}

#[test]
fn csrf_token_prefers_page() {
    let cookies = pairs(&[("XSRF-TOKEN", "cookie")]);
    assert_eq!(csrf_token(r#"name="_token" value="page""#, &cookies), Ok("page".to_string()));
}

#[test]
fn csrf_token_from_first_xsrf_cookie() {
    let cookies = pairs(&[("other", "x"), ("XSRF-TOKEN", "ab%3D%3D"), ("XSRF-TOKEN", "second")]);
    assert_eq!(csrf_token("<html></html>", &cookies), Ok("ab==".to_string()));
}

#[test]
fn csrf_token_not_found() {
    let cookies = pairs(&[("ci_session", "x")]);
    assert_eq!(csrf_token("<html></html>", &cookies), Err(ApiError::CsrfNotFound));
    assert_eq!(ApiError::CsrfNotFound.message(), "Could not find CSRF token");
}

#[test]
fn login_reply_rejected() {
    assert_eq!(
        check_login_reply("https://login.dlsite.com/login", "<p>ログイン</p>"),
        Err(ApiError::LoginRejected)
    );
    assert_eq!(
        check_login_reply("https://login.dlsite.com/login?x=1", "please login"),
        Err(ApiError::LoginRejected)
    );
    assert_eq!(ApiError::LoginRejected.message(), "Login failed - check credentials");
}

#[test]
fn login_reply_accepted() {
    assert_eq!(check_login_reply("https://www.dlsite.com/home", "login"), Ok(()));
    assert_eq!(check_login_reply("https://login.dlsite.com/login", "login ... logout"), Ok(()));
    assert_eq!(check_login_reply("https://login.dlsite.com/login", "welcome"), Ok(()));
}

#[test]
fn login_form_fields() {
    assert_eq!(
        login_form("me", "pw", "tok"),
        pairs(&[("login_id", "me"), ("password", "pw"), ("_token", "tok")])
    );
}

#[test]
fn request_urls() {
    assert_eq!(purchased_page_url(3), "https://play.dlsite.com/api/v3/content/sales?page=3");
    assert_eq!(purchased_page_url(120), "https://play.dlsite.com/api/v3/content/sales?page=120");
    assert_eq!(
        work_info_url("RJ123456"),
        "https://www.dlsite.com/maniax/api/=/product.json?workno=RJ123456"
    );
    assert_eq!(
        download_url("RJ01", 2),
        "https://www.dlsite.com/maniax/download/=/number/2/product_id/RJ01.html"
    );
    assert_eq!(
        download_url("RJ01", 10),
        "https://www.dlsite.com/maniax/download/=/number/10/product_id/RJ01.html"
    );
}

#[test]
fn first_work_info_of_reply() {
    let r = first_work_info(vec![info("RJ1", "One", "C", &[]), info("RJ2", "Two", "C", &[])]);
    assert_eq!(r.unwrap().workno, "RJ1");
    let e = first_work_info(vec![]);
    assert_eq!(e.unwrap_err(), ApiError::EmptyWorkInfo);
    assert_eq!(ApiError::EmptyWorkInfo.message(), "Empty work info response");
}

#[test]
fn session_cookies() {
    let names = |v: &[&str]| v.iter().map(|s| s.to_string()).collect::<Vec<_>>();
    assert!(has_session_cookie(&names(&["a", "ci_session"])));
    assert!(has_session_cookie(&names(&["INT_MEMBER_LOGIN"])));
    assert!(!has_session_cookie(&names(&["XSRF-TOKEN", "ci_sessionX"])));
    assert!(!has_session_cookie(&names(&[])));
}

#[test]
fn work_record_from_info() {
    let i = info("RJ9", "Title", "Circle", &["a.zip", "b.zip", "c.zip"]);
    let w = work_from_info("RJ9", "2024-01-02", &i);
    assert_eq!(w.id, "RJ9");
    assert_eq!(w.name, "Title");
    assert_eq!(w.circle, "Circle");
    assert_eq!(w.file_count, 3);
    assert_eq!(w.purchase_date, "2024-01-02");
}

#[test]
fn cookies_file_in_config_dir() {
    let p = dlsite_tui::config::cookies_path();
    assert!(p.ends_with("cookies.json"));
    assert!(p.parent().unwrap().ends_with("dlsite-tui") || p.parent() == Some(std::path::Path::new(".")));
    assert_eq!(p.parent(), Some(dlsite_tui::config::config_dir().as_path()));
    let c = dlsite_tui::config::config_path();
    assert!(c.ends_with("config.json"));
}

#[test]
fn config_dir_fallback_is_current_dir() {
    assert_eq!(dlsite_tui::config::config_dir_from(None), std::path::PathBuf::from("."));
    let p = std::path::PathBuf::from("/tmp/x");
    assert_eq!(dlsite_tui::config::config_dir_from(Some(p)), std::path::PathBuf::from("/tmp/x/dlsite-tui"));
}
