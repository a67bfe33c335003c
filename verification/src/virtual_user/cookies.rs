//! A virtual user's cookies: sent with each request to a matching URL, and
//! taken from the `Set-Cookie` headers of each response.
use vstd::prelude::*;
use crate::script::method::{ascii_lowercase, lowercase_chars};
use crate::text::push_str;
use crate::virtual_user::http::url_text;

verus! {

#[verifier::external_type_specification]
#[verifier::external_body]
pub struct ExCookieStore(cookie_store::CookieStore);

/// The keys of the cookies that `store` holds, expired ones included: for
/// each cookie its domain, its path and its name. The store keeps at most
/// one cookie under each key.
pub uninterp spec fn cookie_keys(store: cookie_store::CookieStore) -> Set<CookieKey>;

/// A cookie key: the cookie's domain, path and name.
pub type CookieKey = (Seq<char>, Seq<char>, Seq<char>);

/// Session cookies by key, each in encoded form.
pub type SessionCookies = Map<CookieKey, Seq<char>>;

/// The session cookies of `store` that it sends to the URL whose
/// serialization is `url`: for each stored cookie that has no expiry and
/// that `CookieStore::matches` returns for that URL, its key mapped to its
/// encoded form. A cookie without expiry never expires, so this does not
/// depend on the time.
pub uninterp spec fn session_cookies_for(store: cookie_store::CookieStore, url: Seq<char>) -> SessionCookies;

/// The session cookie that the `Set-Cookie` value `value`, received from
/// the URL whose serialization is `url`, gives: its key and encoded form,
/// where `value` parses (`cookie_store::Cookie::parse`) to a cookie with
/// neither `Expires` nor `Max-Age`, which `CookieStore::insert` takes from
/// that URL whatever the store holds, and which `CookieStore::matches`
/// returns for that URL once stored; else `None`.
pub uninterp spec fn session_cookie(value: Seq<char>, url: Seq<char>) -> Option<(CookieKey, Seq<char>)>;

/// Copies a store (`CookieStore`'s derived `Clone`): the copy holds the
/// same cookies.
pub assume_specification [<cookie_store::CookieStore as std::clone::Clone>::clone] (store: &cookie_store::CookieStore) -> (r: cookie_store::CookieStore)
    ensures
        cookie_keys(r) == cookie_keys(*store),
        forall|u: Seq<char>| #[trigger] session_cookies_for(r, u) == session_cookies_for(*store, u),
;

/// An empty store (`CookieStore::new_with_public_suffix(None)`).
#[verifier::external_body]
fn new_store() -> (r: cookie_store::CookieStore)
    ensures
        cookie_keys(r) == Set::<CookieKey>::empty(),
        forall|u: Seq<char>| #[trigger] session_cookies_for(r, u) == SessionCookies::empty(),
{
    cookie_store::CookieStore::new_with_public_suffix(None)
}

/// The cookies of `store` that match `url` (`CookieStore::matches`), each
/// in its encoded form, in the order in which the store gives them. The
/// store visits each of its cookies once, so at most one cookie per key
/// comes back, and every unexpired matching cookie does, session cookies
/// among them. Which other cookies match depends on the time.
#[verifier::external_body]
fn matching_cookies(store: &cookie_store::CookieStore, url: &url::Url) -> (r: Vec<String>)
    ensures
        cookie_keys(*store).finite() ==> r@.len() <= cookie_keys(*store).len(),
        forall|k: CookieKey| #[trigger] session_cookies_for(*store, url_text(*url)).dom().contains(k)
            ==> r@.map_values(|c: String| c@).contains(session_cookies_for(*store, url_text(*url))[k]),
{
    store.matches(url).into_iter().map(|c| c.encoded().to_string()).collect()
}

/// Parses a `Set-Cookie` value received from `url` into `store`
/// (`CookieStore::parse`). The store never drops a key: a new cookie is
/// added or replaces the one under its key, an expired one marks the stored
/// cookie under its key as expired, and a rejected one leaves the store as
/// it was. So the keys afterwards are the keys before, plus at most one.
/// A session cookie that the store takes from `url` replaces whatever its
/// key held, and the other session cookies sent to `url` stay. Whether a
/// cookie with an expiry is taken depends on the time and is not stated.
#[verifier::external_body]
fn parse_into(store: &mut cookie_store::CookieStore, value: &str, url: &url::Url)
    ensures
        cookie_keys(*old(store)).subset_of(cookie_keys(*final(store))),
        exists|k: CookieKey| cookie_keys(*final(store)).subset_of(cookie_keys(*old(store)).insert(k)),
        session_cookie(value@, url_text(*url)) matches Some((k, c)) ==> {
            &&& cookie_keys(*final(store)).contains(k)
            &&& session_cookies_for(*final(store), url_text(*url)) == session_cookies_for(*old(store), url_text(*url)).insert(k, c)
        },
{
    let _ = store.parse(value, url);
}

/// The session cookies sent to `url` after taking the `Set-Cookie` values
/// `values` in order from `url`, starting from `m`, where each value is a
/// session cookie.
pub open spec fn with_session_cookies(m: SessionCookies, values: Seq<Seq<char>>, url: Seq<char>) -> SessionCookies
    decreases values.len(),
{
    if values.len() == 0 {
        m
    } else {
        let rest = with_session_cookies(m, values.drop_last(), url);
        match session_cookie(values.last(), url) {
            Some((k, c)) => rest.insert(k, c),
            None => rest,
        }
    }
}

/// A session cookie taken from a URL is sent back to it: after taking the
/// `Set-Cookie` values `values` in order from `url`, the cookie of the last
/// one, where it is a session cookie, is among the session cookies for
/// `url`, under its key. `CookieJar::store_cookies` and
/// `CookieJar::cookie` then put it into the `Cookie` header sent to `url`.
pub proof fn lemma_last_session_cookie_is_sent(m: SessionCookies, values: Seq<Seq<char>>, url: Seq<char>)
    requires
        values.len() > 0,
        session_cookie(values.last(), url) is Some,
    ensures
        ({
            let (k, c) = session_cookie(values.last(), url)->0;
            &&& with_session_cookies(m, values, url).dom().contains(k)
            &&& with_session_cookies(m, values, url)[k] == c
        }),
{
}

/// `values` joined with `"; "`.
pub open spec fn semicolon_joined(values: Seq<Seq<char>>) -> Seq<char>
    decreases values.len(),
{
    if values.len() == 0 {
        Seq::empty()
    } else if values.len() == 1 {
        values[0]
    } else {
        semicolon_joined(values.drop_last()) + "; "@ + values.last()
    }
}

/// The `Cookie` request header for the encoded cookies `cookies`: none
/// where there is no cookie, else the cookies joined with `"; "`.
pub fn cookie_header(cookies: &Vec<String>) -> (r: Option<(String, String)>)
    ensures
        cookies@.len() == 0 ==> r is None,
        cookies@.len() > 0 ==> (r matches Some((name, value)) && name@ == "Cookie"@
            && value@ == semicolon_joined(cookies@.map_values(|c: String| c@))),
{
    if cookies.len() == 0 {
        return None;
    }
    let ghost views = cookies@.map_values(|c: String| c@);
    let mut value = String::new();
    let mut i: usize = 0;
    while i < cookies.len()
        invariant
            i <= cookies.len(),
            views == cookies@.map_values(|c: String| c@),
            value@ == semicolon_joined(views.take(i as int)),
        decreases cookies.len() - i,
    {
        if i > 0 {
            push_str(&mut value, "; ");
        }
        push_str(&mut value, cookies[i].as_str());
        proof {
            let t = views.take(i + 1);
            assert(t.drop_last() =~= views.take(i as int));
            assert(t.last() == cookies@[i as int]@);
            if i == 0 {
                assert(value@ =~= t[0]);
            }
        }
        i = i + 1;
    }
    proof {
        assert(views.take(cookies@.len() as int) =~= views);
    }
    Some(("Cookie".to_owned(), value))
}

/// The values of the `Set-Cookie` headers among `headers` (the name
/// compared ignoring ASCII case), in order.
pub open spec fn set_cookie_values(headers: Seq<(String, String)>) -> Seq<Seq<char>>
    decreases headers.len(),
{
    if headers.len() == 0 {
        Seq::empty()
    } else {
        let rest = set_cookie_values(headers.drop_last());
        if ascii_lowercase(headers.last().0@) == "set-cookie"@ {
            rest.push(headers.last().1@)
        } else {
            rest
        }
    }
}

/// The values of the `Set-Cookie` headers among `headers`, in order.
pub fn set_cookies(headers: &[(String, String)]) -> (r: Vec<String>)
    ensures
        r@.map_values(|c: String| c@) == set_cookie_values(headers@),
{
    let wanted: Vec<char> = lowercase_chars("set-cookie");
    proof {
        reveal_strlit("set-cookie");
        assert(ascii_lowercase("set-cookie"@) =~= "set-cookie"@);
    }
    let mut r: Vec<String> = Vec::new();
    let mut i: usize = 0;
    while i < headers.len()
        invariant
            i <= headers.len(),
            wanted@ == "set-cookie"@,
            r@.map_values(|c: String| c@) == set_cookie_values(headers@.take(i as int)),
        decreases headers.len() - i,
    {
        proof {
            let t = headers@.take(i + 1);
            assert(t.drop_last() =~= headers@.take(i as int));
            assert(t.last() == headers@[i as int]);
        }
        let name = lowercase_chars(headers[i].0.as_str());
        let ghost before = r@;
        if chars_eq(&name, &wanted) {
            r.push(headers[i].1.clone());
            proof {
                assert(r@.map_values(|c: String| c@) =~= before.map_values(|c: String| c@).push(headers@[i as int].1@));
            }
        }
        i = i + 1;
    }
    proof {
        assert(headers@.take(headers@.len() as int) =~= headers@);
    }
    r
}

fn chars_eq(a: &Vec<char>, b: &Vec<char>) -> (r: bool)
    ensures
        r == (a@ == b@),
{
    if a.len() != b.len() {
        return false;
    }
    let mut i: usize = 0;
    while i < a.len()
        invariant
            i <= a.len(),
            a.len() == b.len(),
            forall|j: int| 0 <= j < i ==> a@[j] == b@[j],
        decreases a.len() - i,
    {
        if a[i] != b[i] {
            return false;
        }
        i = i + 1;
    }
    proof {
        assert(a@ =~= b@);
    }
    true
}

/// The cookies a virtual user has received.
#[derive(Debug, Clone)]
pub struct CookieJar {
    store: cookie_store::CookieStore,
}

impl View for CookieJar {
    type V = Set<CookieKey>;

    /// The keys (domain, path, name) of the cookies in the jar.
    closed spec fn view(&self) -> Self::V {
        cookie_keys(self.store)
    }
}

impl CookieJar {
    /// The session cookies of the jar that are sent to the URL whose
    /// serialization is `url`, by key, in encoded form.
    pub closed spec fn session_cookies(self, url: Seq<char>) -> SessionCookies {
        session_cookies_for(self.store, url)
    }
}

impl Default for CookieJar {
    /// An empty jar.
    fn default() -> (j: Self)
        ensures
            j@ == Set::<CookieKey>::empty(),
            forall|url: Seq<char>| #[trigger] j.session_cookies(url) == SessionCookies::empty(),
    {
        CookieJar { store: new_store() }
    }
}

impl CookieJar {
    /// An empty jar.
    pub fn new() -> (j: Self)
        ensures
            j@ == Set::<CookieKey>::empty(),
            forall|url: Seq<char>| #[trigger] j.session_cookies(url) == SessionCookies::empty(),
    {
        CookieJar { store: new_store() }
    }

    /// The `Cookie` header to send to `url`: the matching cookies joined
    /// with `"; "`, or none where no cookie matches. Every session cookie of
    /// the jar for `url` is sent; at most one cookie per key of the jar is
    /// sent, so an empty jar sends none. Which cookies with an expiry match
    /// depends on the time.
    pub fn cookie(&self, url: &url::Url) -> (r: Option<(String, String)>)
        ensures
            r matches Some((name, _)) ==> name@ == "Cookie"@,
            r matches Some((_, value)) ==> exists|cs: Seq<Seq<char>>| {
                &&& 0 < cs.len()
                &&& value@ == semicolon_joined(cs)
                &&& self@.finite() ==> cs.len() <= self@.len()
                &&& forall|k: CookieKey| #[trigger] self.session_cookies(url_text(*url)).dom().contains(k)
                    ==> cs.contains(self.session_cookies(url_text(*url))[k])
            },
            (exists|k: CookieKey| #[trigger] self.session_cookies(url_text(*url)).dom().contains(k)) ==> r is Some,
            self@ == Set::<CookieKey>::empty() ==> r is None,
    {
        let cookies = matching_cookies(&self.store, url);
        let ghost cs = cookies@.map_values(|c: String| c@);
        let ghost sessions = self.session_cookies(url_text(*url));
        proof {
            if exists|k: CookieKey| #[trigger] sessions.dom().contains(k) {
                let k = choose|k: CookieKey| #[trigger] sessions.dom().contains(k);
                assert(cs.contains(sessions[k]));
            }
        }
        let r = cookie_header(&cookies);
        proof {
            if r is Some {
                let value = r.unwrap().1;
                assert(value@ == semicolon_joined(cs));
                assert({
                    &&& 0 < cs.len()
                    &&& value@ == semicolon_joined(cs)
                    &&& self@.finite() ==> cs.len() <= self@.len()
                    &&& forall|k: CookieKey| #[trigger] sessions.dom().contains(k) ==> cs.contains(sessions[k])
                });
            }
        }
        r
    }

    /// Takes the cookies of the `Set-Cookie` headers among a response's
    /// `headers`, received from `url`. No cookie key is dropped, each
    /// `Set-Cookie` header adds at most one, and each session cookie taken
    /// from `url` is kept under its key. Where every value is such a session
    /// cookie, the jar's session cookies for `url` are those before with
    /// each value's cookie put under its key, in order.
    pub fn store_cookies(&mut self, headers: &[(String, String)], url: &url::Url)
        ensures
            old(self)@.subset_of(final(self)@),
            old(self)@.finite() ==> final(self)@.finite()
                && final(self)@.len() <= old(self)@.len() + set_cookie_values(headers@).len(),
            forall|i: int| 0 <= i < set_cookie_values(headers@).len() ==>
                (#[trigger] session_cookie(set_cookie_values(headers@)[i], url_text(*url)) matches Some((k, _)) ==> final(self)@.contains(k)),
            (forall|i: int| 0 <= i < set_cookie_values(headers@).len() ==> #[trigger] session_cookie(set_cookie_values(headers@)[i], url_text(*url)) is Some)
                ==> final(self).session_cookies(url_text(*url)) == with_session_cookies(
                    old(self).session_cookies(url_text(*url)), set_cookie_values(headers@), url_text(*url)),
    {
        let values = set_cookies(headers);
        let ghost vals = set_cookie_values(headers@);
        let ghost u = url_text(*url);
        let ghost start = self@;
        let ghost start_sessions = self.session_cookies(u);
        let mut i: usize = 0;
        proof {
            assert(vals.take(0) =~= Seq::<Seq<char>>::empty());
        }
        while i < values.len()
            invariant
                i <= values.len(),
                values@.map_values(|c: String| c@) == vals,
                vals == set_cookie_values(headers@),
                u == url_text(*url),
                start.subset_of(self@),
                start.finite() ==> self@.finite() && self@.len() <= start.len() + i,
                forall|j: int| 0 <= j < i ==> (#[trigger] session_cookie(vals[j], u) matches Some((k, _)) ==> self@.contains(k)),
                (forall|j: int| 0 <= j < i ==> #[trigger] session_cookie(vals[j], u) is Some)
                    ==> self.session_cookies(u) == with_session_cookies(start_sessions, vals.take(i as int), u),
            decreases values.len() - i,
        {
            let ghost before = self@;
            let ghost before_sessions = self.session_cookies(u);
            proof {
                assert(values@[i as int]@ == vals[i as int]);
            }
            parse_into(&mut self.store, values[i].as_str(), url);
            proof {
                let k = choose|k: CookieKey| self@.subset_of(before.insert(k));
                if start.finite() {
                    vstd::set_lib::lemma_len_subset(self@, before.insert(k));
                }
                let t = vals.take(i + 1);
                assert(t.drop_last() =~= vals.take(i as int));
                assert(t.last() == vals[i as int]);
                assert forall|j: int| 0 <= j < i + 1 implies (#[trigger] session_cookie(vals[j], u) matches Some((k, _)) ==> self@.contains(k)) by {
                    if j < i {
                        if let Some((k, _)) = session_cookie(vals[j], u) {
                            assert(before.contains(k));
                        }
                    }
                }
                if forall|j: int| 0 <= j < i + 1 ==> #[trigger] session_cookie(vals[j], u) is Some {
                    assert(forall|j: int| 0 <= j < i ==> #[trigger] session_cookie(vals[j], u) is Some) by {
                        assert forall|j: int| 0 <= j < i implies #[trigger] session_cookie(vals[j], u) is Some by {
                            assert(0 <= j < i + 1);
                        }
                    }
                    assert(session_cookie(vals[i as int], u) is Some);
                }
            }
            i = i + 1;
        }
        proof {
            assert(vals.take(vals.len() as int) =~= vals);
        }
    }
}

} // verus!
