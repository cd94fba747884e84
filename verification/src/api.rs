//! The request-independent logic of the store client: page scraping for the
//! CSRF token, percent-decoding of cookie values, judging a login reply,
//! building request URLs and picking the work record out of a reply.
use vstd::prelude::*;
use crate::text::{
    byte_char, chars_of, contains, decimal, find, find_chars, lemma_find_skip, owned,
    push_decimal, push_str, string_of,
};

verus! {

/// One downloadable file of a work.
#[derive(Clone, Debug)]
pub struct FileInfo {
    pub workno: String,
    pub file_name: String,
    pub file_size: i64,
}

/// Product information of one work, as the product API describes it.
#[derive(Clone, Debug)]
pub struct WorkInfo {
    pub workno: String,
    pub work_name: String,
    pub maker_name: String,
    pub contents: Vec<FileInfo>,
}

/// The failures that the client decides on itself (the others come from the
/// transport and are reported as they are).
#[derive(Clone, Copy, Debug, PartialEq, Eq)]
pub enum ApiError {
    /// Neither the login page nor the cookies hold a CSRF token.
    CsrfNotFound,
    /// The reply to the login form is the login page again.
    LoginRejected,
    /// The product API answered with an empty list.
    EmptyWorkInfo,
}

impl ApiError {
    /// The message shown to the user.
    pub open spec fn spec_message(self) -> Seq<char> {
        match self {
            ApiError::CsrfNotFound => "Could not find CSRF token"@,
            ApiError::LoginRejected => "Login failed - check credentials"@,
            ApiError::EmptyWorkInfo => "Empty work info response"@,
        }
    }

    /// The message shown to the user.
    pub fn message(&self) -> (m: String)
        ensures
            m@ == self.spec_message(),
    {
        match self {
            ApiError::CsrfNotFound => owned("Could not find CSRF token"),
            ApiError::LoginRejected => owned("Login failed - check credentials"),
            ApiError::EmptyWorkInfo => owned("Empty work info response"),
        }
    }
}

/// `name="_token" value="`
pub open spec fn token_attr() -> Seq<char> {
    "name=\"_token\" value=\""@
}

/// `name="_token"`
pub open spec fn token_name() -> Seq<char> {
    "name=\"_token\""@
}

/// `value="`
pub open spec fn value_attr() -> Seq<char> {
    "value=\""@
}

/// `name="csrf-token" content="`
pub open spec fn meta_attr() -> Seq<char> {
    "name=\"csrf-token\" content=\""@
}

/// The text of `s` from index `k` up to the next double quote, if one follows.
pub open spec fn quoted_from(s: Seq<char>, k: int) -> Option<Seq<char>> {
    match find(s.skip(k), seq!['"']) {
        Some(e) => Some(s.subrange(k, k + e)),
        None => None,
    }
}

/// The quoted text right after the first occurrence of `attr`.
pub open spec fn quoted_after(body: Seq<char>, attr: Seq<char>) -> Option<Seq<char>> {
    match find(body, attr) {
        Some(st) => quoted_from(body, st + attr.len()),
        None => None,
    }
}

/// The quoted `value` that follows the first `name="_token"`.
pub open spec fn token_by_name(body: Seq<char>) -> Option<Seq<char>> {
    match find(body, token_name()) {
        Some(pos) => match find(body.skip(pos), value_attr()) {
            Some(v) => quoted_from(body, pos + v + value_attr().len()),
            None => None,
        },
        None => None,
    }
}

/// The CSRF token of a login page: the value of the `_token` form field,
/// written either as `name="_token" value="..."` or with the value attribute
/// later in the tag, else the content of the `csrf-token` meta tag.
pub open spec fn csrf_from_html(body: Seq<char>) -> Option<Seq<char>> {
    if quoted_after(body, token_attr()) is Some {
        quoted_after(body, token_attr())
    } else if token_by_name(body) is Some {
        token_by_name(body)
    } else {
        quoted_after(body, meta_attr())
    }
}

/// The view of an optional string.
pub open spec fn opt_view(o: Option<String>) -> Option<Seq<char>> {
    match o {
        Some(s) => Some(s@),
        None => None,
    }
}

/// The text between index `k` of `b` and the next double quote, if any.
fn quoted_text(b: &Vec<char>, k: usize) -> (r: Option<String>)
    requires
        k <= b.len(),
    ensures
        opt_view(r) == quoted_from(b@, k as int),
{
    let q = chars_of("\"");
    proof {
        reveal_strlit("\"");
        assert(q@ =~= seq!['"']);
        lemma_find_skip(b@, q@, k as int, 0);
    }
    match find_chars(b, &q, k) {
        Some(e) => {
            proof {
                crate::text::lemma_find_from(b@, q@, k as int);
            }
            Some(string_of(b, k, e))
        },
        None => None,
    }
}

/// The quoted text after the first occurrence of `attr` in `b`.
fn quoted_after_attr(b: &Vec<char>, attr: &str) -> (r: Option<String>)
    ensures
        opt_view(r) == quoted_after(b@, attr@),
{
    let a = chars_of(attr);
    match find_chars(b, &a, 0) {
        Some(st) => {
            proof {
                crate::text::lemma_find_from(b@, a@, 0);
                assert(crate::text::occurs_at(b@, a@, st as int));
            }
            quoted_text(b, st + a.len())
        },
        None => None,
    }
}

/// Scrapes the CSRF token out of the HTML of the login page.
pub fn extract_csrf_from_html(body: &str) -> (r: Option<String>)
    ensures
        opt_view(r) == csrf_from_html(body@),
{
    let b = chars_of(body);
    let first = quoted_after_attr(&b, "name=\"_token\" value=\"");
    if first.is_some() {
        return first;
    }
    let name = chars_of("name=\"_token\"");
    if let Some(pos) = find_chars(&b, &name, 0) {
        proof {
            crate::text::lemma_find_from(b@, name@, 0);
        }
        let value = chars_of("value=\"");
        proof {
            lemma_find_skip(b@, value@, pos as int, 0);
        }
        if let Some(vstart) = find_chars(&b, &value, pos) {
            proof {
                crate::text::lemma_find_from(b@, value@, pos as int);
            }
            let found = quoted_text(&b, vstart + value.len());
            if found.is_some() {
                return found;
            }
        }
    }
    quoted_after_attr(&b, "name=\"csrf-token\" content=\"")
}


/// The value of a hexadecimal digit (`0-9`, `a-f`, `A-F`).
pub open spec fn hex_value(c: char) -> Option<u8> {
    let u = c as u32;
    if 48 <= u <= 57 {
        Some((u - 48) as u8)
    } else if 97 <= u <= 102 {
        Some((u - 87) as u8)
    } else if 65 <= u <= 70 {
        Some((u - 55) as u8)
    } else {
        None
    }
}

/// What `u8::from_str_radix` gives for the two-character string `h1 h2` in
/// base 16: a leading `+` sign is accepted before a single digit.
pub open spec fn radix16_byte(h1: char, h2: char) -> Option<u8> {
    if h1 == '+' {
        hex_value(h2)
    } else {
        match (hex_value(h1), hex_value(h2)) {
            (Some(a), Some(b)) => Some((16 * a + b) as u8),
            _ => None,
        }
    }
}

/// Percent-decoding of a cookie value: `%XY` becomes the character with
/// code `0xXY` (a missing digit reads as `0`, an unreadable pair is
/// dropped), `+` becomes a space, anything else stays.
pub open spec fn url_decode(s: Seq<char>) -> Seq<char>
    decreases s.len(),
{
    if s.len() == 0 {
        seq![]
    } else if s[0] == '%' {
        let h1 = if s.len() > 1 { s[1] } else { '0' };
        let h2 = if s.len() > 2 { s[2] } else { '0' };
        let rest = if s.len() > 3 { s.skip(3) } else { seq![] };
        match radix16_byte(h1, h2) {
            Some(b) => seq![byte_char(b)] + url_decode(rest),
            None => url_decode(rest),
        }
    } else if s[0] == '+' {
        seq![' '] + url_decode(s.skip(1))
    } else {
        seq![s[0]] + url_decode(s.skip(1))
    }
}

fn hex_digit(c: char) -> (r: Option<u8>)
    ensures
        r == hex_value(c),
{
    let u = c as u32;
    if 48 <= u && u <= 57 {
        Some((u - 48) as u8)
    } else if 97 <= u && u <= 102 {
        Some((u - 87) as u8)
    } else if 65 <= u && u <= 70 {
        Some((u - 55) as u8)
    } else {
        None
    }
}

fn radix16(h1: char, h2: char) -> (r: Option<u8>)
    ensures
        r == radix16_byte(h1, h2),
{
    if h1 == '+' {
        hex_digit(h2)
    } else {
        match (hex_digit(h1), hex_digit(h2)) {
            (Some(a), Some(b)) => Some(16 * a + b),
            _ => None,
        }
    }
}

/// Decodes a percent-encoded cookie value.
pub fn urlencoding_decode(s: &str) -> (r: String)
    ensures
        r@ == url_decode(s@),
{
    let v = chars_of(s);
    let n = v.len();
    let mut result = String::new();
    let mut i: usize = 0;
    assert(v@.skip(0) =~= v@);
    while i < n
        invariant
            n == v.len(),
            v@ == s@,
            i <= n,
            url_decode(v@) == result@ + url_decode(v@.skip(i as int)),
        decreases n - i,
    {
        let ghost t = v@.skip(i as int);
        let c = v[i];
        if c == '%' {
            let h1 = if n - i > 1 { v[i + 1] } else { '0' };
            let h2 = if n - i > 2 { v[i + 2] } else { '0' };
            let next = if n - i > 3 { i + 3 } else { n };
            proof {
                assert(t[0] == c);
                let rest = if t.len() > 3 { t.skip(3) } else { seq![] };
                assert(rest =~= v@.skip(next as int));
            }
            match radix16(h1, h2) {
                Some(b) => {
                    result.push(b as char);
                    assert(url_decode(t) == seq![byte_char(b)] + url_decode(v@.skip(next as int)));
                },
                None => {},
            }
            assert(url_decode(v@) == result@ + url_decode(v@.skip(next as int)));
            i = next;
        } else if c == '+' {
            result.push(' ');
            assert(t.skip(1) =~= v@.skip(i + 1));
            i = i + 1;
        } else {
            result.push(c);
            assert(t.skip(1) =~= v@.skip(i + 1));
            i = i + 1;
        }
    }
    assert(v@.skip(n as int) =~= seq![]);
    result
}

/// The value of the first cookie called `name` among `(name, value)` pairs.
pub open spec fn first_named(cookies: Seq<(Seq<char>, Seq<char>)>, name: Seq<char>) -> Option<Seq<char>>
    decreases cookies.len(),
{
    if cookies.len() == 0 {
        None
    } else if cookies[0].0 == name {
        Some(cookies[0].1)
    } else {
        first_named(cookies.drop_first(), name)
    }
}

/// The view of `(name, value)` string pairs.
pub open spec fn pairs_view(v: Seq<(String, String)>) -> Seq<(Seq<char>, Seq<char>)> {
    v.map_values(|p: (String, String)| (p.0@, p.1@))
}

/// The CSRF token the client sends with the login form: the one in the login
/// page if the page has one, else the percent-decoded value of the first
/// `XSRF-TOKEN` cookie.
pub open spec fn csrf_choice(body: Seq<char>, cookies: Seq<(Seq<char>, Seq<char>)>) -> Option<Seq<char>> {
    match csrf_from_html(body) {
        Some(t) => Some(t),
        None => match first_named(cookies, "XSRF-TOKEN"@) {
            Some(v) => Some(url_decode(v)),
            None => None,
        },
    }
}

/// Picks the CSRF token from the login page `body` or, failing that, from
/// the cookie jar, given as `(name, value)` pairs in the jar's order.
pub fn csrf_token(body: &str, cookies: &Vec<(String, String)>) -> (r: Result<String, ApiError>)
    ensures
        match r {
            Ok(t) => csrf_choice(body@, pairs_view(cookies@)) == Some(t@),
            Err(e) => e == ApiError::CsrfNotFound && csrf_choice(body@, pairs_view(cookies@)) is None,
        },
{
    if let Some(token) = extract_csrf_from_html(body) {
        return Ok(token);
    }
    let ghost all = pairs_view(cookies@);
    let mut i: usize = 0;
    assert(all.skip(0) =~= all);
    while i < cookies.len()
        invariant
            i <= cookies.len(),
            all == pairs_view(cookies@),
            csrf_from_html(body@) is None,
            first_named(all, "XSRF-TOKEN"@) == first_named(all.skip(i as int), "XSRF-TOKEN"@),
        decreases cookies.len() - i,
    {
        let ghost t = all.skip(i as int);
        assert(t[0] == (cookies@[i as int].0@, cookies@[i as int].1@));
        if crate::text::str_eq(cookies[i].0.as_str(), "XSRF-TOKEN") {
            assert(first_named(t, "XSRF-TOKEN"@) == Some(cookies@[i as int].1@));
            return Ok(urlencoding_decode(cookies[i].1.as_str()));
        }
        assert(t.drop_first() =~= all.skip(i + 1));
        i = i + 1;
    }
    Err(ApiError::CsrfNotFound)
}

/// A reply to the login form that is still the login page (its URL holds
/// `/login`, its body mentions logging in, and it offers no logout) means the
/// credentials were refused.
pub open spec fn login_rejected(url: Seq<char>, body: Seq<char>) -> bool {
    &&& contains(url, "/login"@)
    &&& (contains(body, "ログイン"@) || contains(body, "login"@))
    &&& !contains(body, "logout"@)
}

/// Judges the reply to the login form from its final URL and its body.
pub fn check_login_reply(url: &str, body: &str) -> (r: Result<(), ApiError>)
    ensures
        r is Err <==> login_rejected(url@, body@),
        r matches Err(e) ==> e == ApiError::LoginRejected,
{
    if crate::text::str_contains(url, "/login") && (crate::text::str_contains(body, "ログイン")
        || crate::text::str_contains(body, "login")) && !crate::text::str_contains(body, "logout") {
        return Err(ApiError::LoginRejected);
    }
    Ok(())
}

/// The fields of the login form, in the order they are sent.
pub fn login_form(username: &str, password: &str, token: &str) -> (r: Vec<(String, String)>)
    ensures
        pairs_view(r@) == seq![
            ("login_id"@, username@),
            ("password"@, password@),
            ("_token"@, token@),
        ],
{
    let mut r: Vec<(String, String)> = Vec::new();
    r.push((owned("login_id"), owned(username)));
    r.push((owned("password"), owned(password)));
    r.push((owned("_token"), owned(token)));
    assert(pairs_view(r@) =~= seq![
        ("login_id"@, username@),
        ("password"@, password@),
        ("_token"@, token@),
    ]);
    r
}

/// The URL of one page of the purchase list.
pub open spec fn purchased_page_url_spec(page: u64) -> Seq<char> {
    "https://play.dlsite.com/api/v3/content/sales?page="@ + decimal(page as nat)
}

/// The URL of one page of the purchase list.
pub fn purchased_page_url(page: u64) -> (r: String)
    ensures
        r@ == purchased_page_url_spec(page),
{
    let mut r = owned("https://play.dlsite.com/api/v3/content/sales?page=");
    push_decimal(&mut r, page);
    r
}

/// The URL of the product information of work `id`.
pub open spec fn work_info_url_spec(id: Seq<char>) -> Seq<char> {
    "https://www.dlsite.com/maniax/api/=/product.json?workno="@ + id
}

/// The URL of the product information of work `id`.
pub fn work_info_url(id: &str) -> (r: String)
    ensures
        r@ == work_info_url_spec(id@),
{
    let mut r = owned("https://www.dlsite.com/maniax/api/=/product.json?workno=");
    push_str(&mut r, id);
    r
}

/// The URL of file number `file_number` (counted from 1) of work `work_id`.
pub open spec fn download_url_spec(work_id: Seq<char>, file_number: usize) -> Seq<char> {
    "https://www.dlsite.com/maniax/download/=/number/"@ + decimal(file_number as nat)
        + "/product_id/"@ + work_id + ".html"@
}

/// The URL of file number `file_number` (counted from 1) of work `work_id`.
pub fn download_url(work_id: &str, file_number: usize) -> (r: String)
    ensures
        r@ == download_url_spec(work_id@, file_number),
{
    let mut r = owned("https://www.dlsite.com/maniax/download/=/number/");
    push_decimal(&mut r, file_number as u64);
    push_str(&mut r, "/product_id/");
    push_str(&mut r, work_id);
    push_str(&mut r, ".html");
    r
}

/// The work record of a product API reply: its first entry.
pub fn first_work_info(reply: Vec<WorkInfo>) -> (r: Result<WorkInfo, ApiError>)
    ensures
        match r {
            Ok(w) => reply@.len() > 0 && w == reply@[0],
            Err(e) => reply@.len() == 0 && e == ApiError::EmptyWorkInfo,
        },
{
    let mut reply = reply;
    if reply.len() == 0 {
        return Err(ApiError::EmptyWorkInfo);
    }
    Ok(reply.swap_remove(0))
}

/// The cookies that mark a logged-in session.
pub open spec fn is_session_cookie(name: Seq<char>) -> bool {
    name == "ci_session"@ || name == "INT_MEMBER_LOGIN"@
}

/// Whether a cookie jar, given by the names of its cookies, holds a session.
pub fn has_session_cookie(names: &Vec<String>) -> (r: bool)
    ensures
        r == exists|i: int| 0 <= i < names@.len() && is_session_cookie(#[trigger] names@[i]@),
{
    let mut i: usize = 0;
    while i < names.len()
        invariant
            i <= names.len(),
            forall|k: int| 0 <= k < i ==> !is_session_cookie(#[trigger] names@[k]@),
        decreases names.len() - i,
    {
        let n = names[i].as_str();
        if crate::text::str_eq(n, "ci_session") || crate::text::str_eq(n, "INT_MEMBER_LOGIN") {
            return true;
        }
        i = i + 1;
    }
    false
}

} // verus!
