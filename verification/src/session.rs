//! The cookie jar of the session: loading it from the saved file, telling
//! whether it holds a login, finding the CSRF token, and saving it.
use vstd::prelude::*;
use cookie_store::CookieStore;
use vstd::multiset::Multiset;
use vstd::string::StringSliceAdditionalSpecFns;
use crate::api::{
    csrf_from_html, csrf_token, first_named, has_session_cookie, is_session_cookie, pairs_view,
    url_decode, ApiError,
};

verus! {

#[verifier::external_type_specification]
#[verifier::external_body]
pub struct ExCookieStore(CookieStore);

/// The `(name, value)` pairs of the cookies in a jar, expired ones included.
pub uninterp spec fn jar_cookies(store: CookieStore) -> Multiset<(Seq<char>, Seq<char>)>;

/// How `CookieStore::load_json` reads a saved text, given as bytes: where
/// every line of it is UTF-8 and reads as a cookie, the `(name, value)`
/// pairs of those cookies, one per line; else the message of its error.
/// This depends on the text alone.
pub uninterp spec fn cookie_text_reading(data: Seq<u8>) -> Result<
    Multiset<(Seq<char>, Seq<char>)>,
    Seq<char>,
>;

/// A printable ASCII character other than the space.
pub open spec fn is_visible_ascii(c: char) -> bool {
    0x21 <= c as u32 <= 0x7e
}

/// A cookie name that writes and parses back as itself: not empty, of
/// visible ASCII characters, without `;` or `=`.
pub open spec fn is_plain_name(n: Seq<char>) -> bool {
    n.len() > 0 && forall|i: int|
        0 <= i < n.len() ==> is_visible_ascii(#[trigger] n[i]) && n[i] != ';' && n[i] != '='
}

/// A cookie value that writes and parses back as itself: of visible ASCII
/// characters, without `;`.
pub open spec fn is_plain_value(v: Seq<char>) -> bool {
    forall|i: int| 0 <= i < v.len() ==> is_visible_ascii(#[trigger] v[i]) && v[i] != ';'
}

/// Every cookie of the jar has a plain name and value.
pub open spec fn plain_jar(cookies: Multiset<(Seq<char>, Seq<char>)>) -> bool {
    forall|c: (Seq<char>, Seq<char>)| cookies.contains(c) ==> is_plain_name(c.0) && is_plain_value(c.1)
}

/// What holds of a text that a save of the jar wrote: where the jar's
/// cookies are plain, the text reads back without error, and the cookies it
/// reads are cookies of the jar.
pub open spec fn reads_back_within(store: CookieStore, text: Seq<u8>) -> bool {
    plain_jar(jar_cookies(store)) ==> (cookie_text_reading(text) is Ok
        && cookie_text_reading(text)->Ok_0.subset_of(jar_cookies(store)))
}

/// What loading a saved text gives: a jar exactly when the text reads,
/// holding only cookies the text holds; else the reading's error.
pub open spec fn loaded_from(text: Seq<u8>, r: Result<CookieStore, String>) -> bool {
    &&& r is Ok <==> cookie_text_reading(text) is Ok
    &&& r matches Err(e) ==> cookie_text_reading(text) matches Err(m) && e@
        == "Failed to load cookies: "@ + m
    &&& r matches Ok(jar) ==> jar_cookies(jar).subset_of(cookie_text_reading(text)->Ok_0)
}

/// The jar holds a login session cookie.
pub open spec fn holds_login(store: CookieStore) -> bool {
    exists|c: (Seq<char>, Seq<char>)| jar_cookies(store).contains(c) && is_session_cookie(c.0)
}

/// `CookieStore::iter_any`: the jar walks its domain, path and name maps
/// and yields every cookie it holds once, expired or not; each is taken as
/// its name and value. The order is that of hash maps and is not stated.
#[verifier::external_body]
fn cookie_pairs(store: &CookieStore) -> (r: Vec<(String, String)>)
    ensures
        pairs_view(r@).to_multiset() == jar_cookies(*store),
{
    store.iter_any().map(|c| (c.name().to_string(), c.value().to_string())).collect()
}

/// `CookieStore::default`: a jar with no cookies.
#[verifier::external_body]
fn empty_jar() -> (r: CookieStore)
    ensures
        jar_cookies(r) == Multiset::<(Seq<char>, Seq<char>)>::empty(),
{
    CookieStore::default()
}

/// `CookieStore::load_json`: reads one cookie per line of the text; it
/// fails on the first line that is not a cookie. The jar keeps some of the
/// cookies read: a later line for the same domain, path and name replaces
/// an earlier one, and expired ones are dropped. Which ones it keeps is not
/// stated beyond that, since expiry depends on the clock.
#[verifier::external_body]
#[allow(deprecated)]
fn parse_jar(data: &str) -> (r: Result<CookieStore, String>)
    ensures
        r is Ok <==> cookie_text_reading(data.spec_bytes()) is Ok,
        r matches Err(e) ==> (cookie_text_reading(data.spec_bytes()) matches Err(m) && m == e@),
        r matches Ok(jar) ==> jar_cookies(jar).subset_of(cookie_text_reading(data.spec_bytes())->Ok_0),
{
    CookieStore::load_json(data.as_bytes()).map_err(|e| e.to_string())
}

/// `CookieStore::save_json`: writes one line, ended by a newline, for each
/// persistent cookie of the jar that has not expired: the cookie as JSON,
/// with its name and value written as `name=value` in its raw text. For a
/// jar with no cookies it writes nothing and succeeds. Reading such a line
/// back parses the raw text again, which gives back the name and value
/// where they are plain (`cookie::Cookie::parse` splits at the first `;`
/// and `=` and trims white space); so the text reads back as cookies of
/// the jar. Which cookies are written is not stated: that depends on the
/// clock.
#[verifier::external_body]
#[allow(deprecated)]
fn jar_text(store: &CookieStore) -> (r: Result<Vec<u8>, String>)
    ensures
        jar_cookies(*store).len() == 0 ==> r == Ok::<Vec<u8>, String>(r->Ok_0) && r->Ok_0@.len() == 0,
        r matches Ok(b) ==> b@.len() == 0 || b@.last() == 10u8,
        r matches Ok(b) ==> reads_back_within(*store, b@),
{
    let mut buf = Vec::new();
    store.save_json(&mut buf).map(|_| buf).map_err(|e| e.to_string())
}

/// The jar of the session: an empty one when no cookie file was saved,
/// else the one read from the saved text.
pub fn load_cookie_store(saved: Option<&str>) -> (r: Result<CookieStore, String>)
    ensures
        saved is None ==> r is Ok && jar_cookies(r->Ok_0) == Multiset::<(Seq<char>, Seq<char>)>::empty(),
        saved matches Some(d) ==> loaded_from(d.spec_bytes(), r),
{
    match saved {
        None => Ok(empty_jar()),
        Some(data) => match parse_jar(data) {
            Ok(store) => Ok(store),
            Err(e) => {
                let mut m = crate::text::owned("Failed to load cookies: ");
                crate::text::push_str(&mut m, e.as_str());
                Err(m)
            },
        },
    }
}

/// The text saved in the cookie file, or why it could not be made: one
/// line per persistent, unexpired cookie; nothing for a jar with no
/// cookies; text that reads back as cookies of the jar.
pub fn cookie_file_text(store: &CookieStore) -> (r: Result<Vec<u8>, String>)
    ensures
        jar_cookies(*store).len() == 0 ==> r == Ok::<Vec<u8>, String>(r->Ok_0) && r->Ok_0@.len() == 0,
        r matches Ok(b) ==> b@.len() == 0 || b@.last() == 10u8,
        r matches Ok(b) ==> reads_back_within(*store, b@),
        r matches Err(e) ==> exists|m: Seq<char>| e@ == "Failed to save cookies: "@ + m,
{
    match jar_text(store) {
        Ok(buf) => Ok(buf),
        Err(e) => {
            let mut m = crate::text::owned("Failed to save cookies: ");
            crate::text::push_str(&mut m, e.as_str());
            Err(m)
        },
    }
}

/// Whether the jar holds a login session cookie.
pub fn is_logged_in(store: &CookieStore) -> (r: bool)
    ensures
        r == holds_login(*store),
{
    broadcast use vstd::seq_lib::group_to_multiset_ensures;

    let pairs = cookie_pairs(store);
    let mut names: Vec<String> = Vec::new();
    let mut i: usize = 0;
    while i < pairs.len()
        invariant
            i <= pairs.len(),
            names@.len() == i,
            forall|k: int| 0 <= k < i ==> #[trigger] names@[k]@ == pairs@[k].0@,
        decreases pairs.len() - i,
    {
        names.push(pairs[i].0.clone());
        i = i + 1;
    }
    let r = has_session_cookie(&names);
    let ghost ps = pairs_view(pairs@);
    proof {
        if r {
            let k = choose|k: int| 0 <= k < names@.len() && is_session_cookie(#[trigger] names@[k]@);
            assert(ps[k] == (pairs@[k].0@, pairs@[k].1@));
            assert(ps.contains(ps[k]));
            assert(ps.to_multiset().count(ps[k]) > 0);
            assert(jar_cookies(*store).contains(ps[k]) && is_session_cookie(ps[k].0));
        } else {
            assert forall|c: (Seq<char>, Seq<char>)| jar_cookies(*store).contains(c) implies !is_session_cookie(c.0) by {
                assert(ps.to_multiset().count(c) > 0);
                let k = choose|k: int| 0 <= k < ps.len() && ps[k] == c;
                assert(ps[k] == (pairs@[k].0@, pairs@[k].1@));
                assert(names@[k]@ == c.0);
            }
        }
    }
    r
}

/// `first_named` finds a pair that is in the list.
proof fn lemma_first_named(cookies: Seq<(Seq<char>, Seq<char>)>, name: Seq<char>)
    ensures
        first_named(cookies, name) matches Some(v) ==> cookies.contains((name, v)),
        first_named(cookies, name) is None ==> forall|k: int| 0 <= k < cookies.len() ==> cookies[k].0 != name,
    decreases cookies.len(),
{
    if cookies.len() > 0 {
        lemma_first_named(cookies.drop_first(), name);
        if cookies[0].0 != name {
            if let Some(v) = first_named(cookies, name) {
                let k = choose|k: int| 0 <= k < cookies.drop_first().len() && cookies.drop_first()[k] == (name, v);
                assert(cookies[k + 1] == (name, v));
            }
            assert forall|k: int| 0 <= k < cookies.len() && first_named(cookies, name) is None implies cookies[k].0 != name by {
                if k > 0 {
                    assert(cookies[k] == cookies.drop_first()[k - 1]);
                }
            }
        } else {
            assert(cookies[0] == (name, cookies[0].1));
        }
    }
}

/// The CSRF token for the login form, from the login page `body` or, failing
/// that, from an `XSRF-TOKEN` cookie of the jar (which one, where the jar
/// holds several, is not fixed: the jar's order is not).
pub fn refresh_csrf_token(body: &str, store: &CookieStore) -> (r: Result<String, ApiError>)
    ensures
        csrf_from_html(body@) matches Some(t) ==> r == Ok::<String, ApiError>(r->Ok_0) && r->Ok_0@ == t,
        csrf_from_html(body@) is None ==> match r {
            Ok(t) => exists|v: Seq<char>| jar_cookies(*store).contains(("XSRF-TOKEN"@, v)) && t@ == url_decode(v),
            Err(e) => e == ApiError::CsrfNotFound && forall|v: Seq<char>| !jar_cookies(*store).contains(("XSRF-TOKEN"@, v)),
        },
{
    broadcast use vstd::seq_lib::group_to_multiset_ensures;

    let pairs = cookie_pairs(store);
    let r = csrf_token(body, &pairs);
    proof {
        let ps = pairs_view(pairs@);
        lemma_first_named(ps, "XSRF-TOKEN"@);
        if csrf_from_html(body@) is None {
            match first_named(ps, "XSRF-TOKEN"@) {
                Some(v) => {
                    assert(ps.to_multiset().count(("XSRF-TOKEN"@, v)) > 0);
                },
                None => {
                    assert forall|v: Seq<char>| !jar_cookies(*store).contains(("XSRF-TOKEN"@, v)) by {
                        if jar_cookies(*store).contains(("XSRF-TOKEN"@, v)) {
                            assert(ps.contains(("XSRF-TOKEN"@, v)));
                            let k = choose|k: int| 0 <= k < ps.len() && ps[k] == ("XSRF-TOKEN"@, v);
                        }
                    }
                },
            }
        }
    }
    r
}

} // verus!
