//! Sending a request spec over HTTP: resolving its URL, judging the
//! response, and turning what went wrong into a transaction outcome.
use vstd::prelude::*;
use crate::load::ServiceTime;
use crate::script::spec::HTTPStaticRequestSpec;
use crate::transaction::{
    DroppedCode, FailedCode, SpecId, TimeoutCode, Transaction, TransactionResult,
};
use crate::virtual_user::VirtualUserId;
use crate::wire::ServiceRegistry;
use crate::text::push_str;
use vstd::utf8::encode_utf8;

verus! {

#[verifier::external_type_specification]
#[verifier::external_body]
pub struct ExUrl(url::Url);

#[verifier::external_type_specification]
#[verifier::external_body]
pub struct ExUrlParseError(url::ParseError);

/// Why a URL did not parse, one variant per kind of `url::ParseError`.
#[derive(Debug, Clone, Copy, PartialEq, Eq, Structural)]
pub enum UrlParseError {
    EmptyHost,
    IdnaError,
    InvalidPort,
    InvalidIpv4Address,
    InvalidIpv6Address,
    InvalidDomainCharacter,
    RelativeUrlWithoutBase,
    RelativeUrlWithCannotBeABaseBase,
    SetHostOnCannotBeABaseUrl,
    Overflow,
    /// A kind that a later release of the URL parser added.
    Other,
}

/// The message of a URL parse error, as the URL parser words it.
pub open spec fn parse_error_message(e: UrlParseError) -> Seq<char> {
    match e {
        UrlParseError::EmptyHost => "empty host"@,
        UrlParseError::IdnaError => "invalid international domain name"@,
        UrlParseError::InvalidPort => "invalid port number"@,
        UrlParseError::InvalidIpv4Address => "invalid IPv4 address"@,
        UrlParseError::InvalidIpv6Address => "invalid IPv6 address"@,
        UrlParseError::InvalidDomainCharacter => "invalid domain character"@,
        UrlParseError::RelativeUrlWithoutBase => "relative URL without a base"@,
        UrlParseError::RelativeUrlWithCannotBeABaseBase => "relative URL with a cannot-be-a-base base"@,
        UrlParseError::SetHostOnCannotBeABaseUrl => "a cannot-be-a-base URL doesn\u{2019}t have a host to set"@,
        UrlParseError::Overflow => "URLs more than 4 GB are not supported"@,
        UrlParseError::Other => "invalid URL"@,
    }
}

impl UrlParseError {
    /// The message, as the URL parser words it.
    pub fn message(self) -> (s: &'static str)
        ensures
            s@ == parse_error_message(self),
    {
        match self {
            UrlParseError::EmptyHost => "empty host",
            UrlParseError::IdnaError => "invalid international domain name",
            UrlParseError::InvalidPort => "invalid port number",
            UrlParseError::InvalidIpv4Address => "invalid IPv4 address",
            UrlParseError::InvalidIpv6Address => "invalid IPv6 address",
            UrlParseError::InvalidDomainCharacter => "invalid domain character",
            UrlParseError::RelativeUrlWithoutBase => "relative URL without a base",
            UrlParseError::RelativeUrlWithCannotBeABaseBase => "relative URL with a cannot-be-a-base base",
            UrlParseError::SetHostOnCannotBeABaseUrl => "a cannot-be-a-base URL doesn\u{2019}t have a host to set",
            UrlParseError::Overflow => "URLs more than 4 GB are not supported",
            UrlParseError::Other => "invalid URL",
        }
    }
}

/// The serialization of `u` (`Url::as_str`). Two URLs with the same
/// serialization are equal (`Url`'s `==` compares serializations).
pub uninterp spec fn url_text(u: url::Url) -> Seq<char>;

/// What `url::Url::parse` gives for `s`: the serialization of the URL, or,
/// where `s` does not parse as an absolute URL, the kind of its error.
pub uninterp spec fn parsed_url(s: Seq<char>) -> Result<Seq<char>, UrlParseError>;

/// The serialization of the URL that `url::Url::parse_with_params` gives
/// for `base` with the form-encoded pairs `query` appended, or `None` where
/// `base` does not parse.
pub uninterp spec fn parsed_url_with_params(base: Seq<char>, query: Seq<(Seq<char>, Seq<char>)>) -> Option<Seq<char>>;

/// The serialization of the URL whose serialization is `url` after
/// `url::Url::set_path(path)`.
pub uninterp spec fn url_with_path(url: Seq<char>, path: Seq<char>) -> Seq<char>;

/// The length of `s` in bytes, encoded as UTF-8.
pub open spec fn utf8_len(s: Seq<char>) -> int {
    encode_utf8(s).len() as int
}

/// An upper bound on the bytes that appending the form-encoded pairs
/// `query` adds to a URL: one byte for the `?`, and per pair its name and
/// value with every byte percent-encoded, the `=` and the `&`.
pub open spec fn query_growth(query: Seq<(Seq<char>, Seq<char>)>) -> int
    decreases query.len(),
{
    if query.len() == 0 {
        1
    } else {
        query_growth(query.drop_last()) + 3 * (utf8_len(query.last().0) + utf8_len(query.last().1)) + 2
    }
}

/// The largest URL the URL parser can hold: its positions are `u32`.
pub open spec fn url_limit() -> int {
    u32::MAX as int
}

/// Whether appending `query` to the URL that `base` parses to stays within
/// the URL parser's limit; `parse_with_params` panics past it where the URL
/// has a fragment.
pub open spec fn query_fits(base: Seq<char>, query: Seq<(Seq<char>, Seq<char>)>) -> bool {
    match parsed_url(base) {
        Ok(t) => utf8_len(t) + query_growth(query) <= url_limit(),
        Err(_) => true,
    }
}

/// Whether setting `path` on the URL whose serialization is `url` stays
/// within the URL parser's limit: the path grows by at most three bytes
/// per byte, plus a leading `/` or `%2F`. `set_path` panics past it.
pub open spec fn path_fits(url: Seq<char>, path: Seq<char>) -> bool {
    utf8_len(url) + 3 * utf8_len(path) + 4 <= url_limit()
}

/// Tells the kinds of `url::ParseError` apart; the URL wrappers below use
/// it to hand back the kind of their error.
#[verifier::external_body]
fn parse_error_kind(e: url::ParseError) -> UrlParseError {
    match e {
        url::ParseError::EmptyHost => UrlParseError::EmptyHost,
        url::ParseError::IdnaError => UrlParseError::IdnaError,
        url::ParseError::InvalidPort => UrlParseError::InvalidPort,
        url::ParseError::InvalidIpv4Address => UrlParseError::InvalidIpv4Address,
        url::ParseError::InvalidIpv6Address => UrlParseError::InvalidIpv6Address,
        url::ParseError::InvalidDomainCharacter => UrlParseError::InvalidDomainCharacter,
        url::ParseError::RelativeUrlWithoutBase => UrlParseError::RelativeUrlWithoutBase,
        url::ParseError::RelativeUrlWithCannotBeABaseBase => UrlParseError::RelativeUrlWithCannotBeABaseBase,
        url::ParseError::SetHostOnCannotBeABaseUrl => UrlParseError::SetHostOnCannotBeABaseUrl,
        url::ParseError::Overflow => UrlParseError::Overflow,
        _ => UrlParseError::Other,
    }
}

/// Parses `base` with `url::Url::parse`, giving the kind of its error
/// where it fails. The parser reports a URL past its limit as an error, so
/// the call does not panic.
#[verifier::external_body]
fn parse_url(base: &str) -> (r: Result<url::Url, UrlParseError>)
    ensures
        r is Ok == parsed_url(base@) is Ok,
        r matches Ok(u) ==> (parsed_url(base@) matches Ok(t) && t == url_text(u)),
        r matches Err(k) ==> (parsed_url(base@) matches Err(e) && e == k),
{
    url::Url::parse(base).map_err(parse_error_kind)
}

/// Parses `base` and appends `query` as form-encoded pairs with
/// `url::Url::parse_with_params`: it parses as `url::Url::parse` does and
/// then appends the pairs, so it fails exactly where `parse` fails. The
/// appended URL must stay within the parser's limit, or the call panics.
#[verifier::external_body]
fn parse_url_with_params(base: &str, query: &Vec<(String, String)>) -> (r: Result<url::Url, UrlParseError>)
    requires
        query_fits(base@, query.deep_view()),
    ensures
        r is Ok == parsed_url(base@) is Ok,
        r matches Ok(u) ==> parsed_url_with_params(base@, query.deep_view()) == Some(url_text(u)),
        r matches Err(k) ==> (parsed_url(base@) matches Err(e) && e == k),
{
    url::Url::parse_with_params(base, query.iter()).map_err(parse_error_kind)
}

/// Replaces the path of `url` with `url::Url::set_path`. The new URL must
/// stay within the parser's limit, or the call panics.
#[verifier::external_body]
fn set_path(url: &mut url::Url, path: &str)
    requires
        path_fits(url_text(*old(url)), path@),
    ensures
        url_text(*final(url)) == url_with_path(url_text(*old(url)), path@),
{
    url.set_path(path)
}

/// The length in bytes of the serialization of `url`
/// (`Url::as_str`, then `str::len`).
#[verifier::external_body]
fn url_byte_len(url: &url::Url) -> (n: usize)
    ensures
        n == utf8_len(url_text(*url)),
{
    url.as_str().len()
}

/// The length in bytes of `s`, with the number `limit` standing for every
/// length past it.
fn capped_len(s: &str, limit: u64) -> (n: u64)
    ensures
        n == if utf8_len(s@) <= limit { utf8_len(s@) } else { limit as int + 1 },
{
    let l = s.as_bytes().len();
    if l as u64 > limit {
        limit + 1
    } else {
        l as u64
    }
}

/// Whether `query_growth(query)` is at most `limit`.
fn query_growth_within(query: &Vec<(String, String)>, limit: u64) -> (r: bool)
    requires
        limit <= u32::MAX,
    ensures
        r == (query_growth(query.deep_view()) <= limit),
{
    let ghost q = query.deep_view();
    let mut total: u64 = 1;
    let mut i: usize = 0;
    proof {
        assert(q.take(0) =~= Seq::<(Seq<char>, Seq<char>)>::empty());
    }
    while i < query.len()
        invariant
            i <= query.len(),
            q == query.deep_view(),
            q.len() == query.len(),
            limit <= u32::MAX,
            total == query_growth(q.take(i as int)),
            total <= limit + 1,
        decreases query.len() - i,
    {
        if total > limit {
            proof {
                lemma_query_growth_monotone(q, i as int, q.len() as int);
                assert(q.take(q.len() as int) =~= q);
            }
            return false;
        }
        let name = capped_len(query[i].0.as_str(), limit);
        let value = capped_len(query[i].1.as_str(), limit);
        proof {
            let t = q.take(i + 1);
            assert(t.drop_last() =~= q.take(i as int));
            assert(t.last() == q[i as int]);
            assert(q[i as int].0 == query@[i as int].0@);
            assert(q[i as int].1 == query@[i as int].1@);
        }
        // total <= limit, each capped length <= limit + 1: no overflow in u64.
        total = total + 3 * (name + value) + 2;
        if total > limit + 1 {
            proof {
                lemma_query_growth_monotone(q, i + 1, q.len() as int);
                assert(q.take(q.len() as int) =~= q);
            }
            return false;
        }
        i = i + 1;
    }
    proof {
        assert(q.take(q.len() as int) =~= q);
    }
    total <= limit
}

/// `query_growth` grows with the number of pairs taken.
proof fn lemma_query_growth_monotone(q: Seq<(Seq<char>, Seq<char>)>, i: int, j: int)
    requires
        0 <= i <= j <= q.len(),
    ensures
        query_growth(q.take(i)) <= query_growth(q.take(j)),
    decreases j - i,
{
    if i < j {
        lemma_query_growth_monotone(q, i, j - 1);
        let t = q.take(j);
        assert(t.drop_last() =~= q.take(j - 1));
        assert(utf8_len(t.last().0) >= 0 && utf8_len(t.last().1) >= 0);
    }
}

/// Why a request spec's URL could not be resolved.
#[derive(Debug, Clone, PartialEq, Eq)]
pub enum UrlError {
    /// The spec's service is not in the registry.
    ServiceNotFound(String),
    /// The registry's base URL for the service does not parse.
    InvalidUrl { service: String, source: UrlParseError },
    /// The URL for the service would grow past the 4 GiB that a URL can
    /// hold.
    TooLong { service: String },
}

/// The message of a URL error.
pub open spec fn url_error_message(e: UrlError) -> Seq<char> {
    match e {
        UrlError::ServiceNotFound(s) => "service `"@ + s@ + "` is not in the service registry"@,
        UrlError::InvalidUrl { service, source } => "invalid URL for service `"@ + service@ + "`: "@
            + parse_error_message(source),
        UrlError::TooLong { service } => "URL for service `"@ + service@ + "` would exceed 4 GiB"@,
    }
}

impl UrlError {
    /// The message of the error.
    pub fn message(&self) -> (s: String)
        ensures
            s@ == url_error_message(*self),
    {
        let mut s = String::new();
        match self {
            UrlError::ServiceNotFound(name) => {
                push_str(&mut s, "service `");
                push_str(&mut s, name.as_str());
                push_str(&mut s, "` is not in the service registry");
            },
            UrlError::InvalidUrl { service, source } => {
                push_str(&mut s, "invalid URL for service `");
                push_str(&mut s, service.as_str());
                push_str(&mut s, "`: ");
                push_str(&mut s, source.message());
            },
            UrlError::TooLong { service } => {
                push_str(&mut s, "URL for service `");
                push_str(&mut s, service.as_str());
                push_str(&mut s, "` would exceed 4 GiB");
            },
        }
        s
    }
}

/// The serialization of a service's base URL `base` with the query pairs
/// `query` appended: `parse` where there is no pair, `parse_with_params`
/// where there is.
pub open spec fn base_with_query(base: Seq<char>, query: Seq<(Seq<char>, Seq<char>)>) -> Option<Seq<char>> {
    if query.len() == 0 {
        match parsed_url(base) {
            Ok(t) => Some(t),
            Err(_) => None,
        }
    } else {
        parsed_url_with_params(base, query)
    }
}

/// Resolves the URL of a spec: the registry's base URL for the spec's
/// service, with the spec's query pairs appended and its path set. A URL
/// that would grow past the 4 GiB a URL can hold is refused.
pub fn resolve_url<F, J>(spec: &HTTPStaticRequestSpec<F, J>, registry: &ServiceRegistry) -> (r: Result<url::Url, UrlError>)
    requires
        registry.services.wf(),
    ensures
        !registry.services.spec_map().dom().contains(spec.service@) ==> (r matches Err(UrlError::ServiceNotFound(s)) && s@ == spec.service@),
        registry.services.spec_map().dom().contains(spec.service@) ==> {
            let base = registry.services.spec_map()[spec.service@];
            let query = spec.query.deep_view();
            &&& parsed_url(base) matches Err(k) ==> (r matches Err(UrlError::InvalidUrl { service, source })
                && service@ == spec.service@ && source == k)
            &&& (parsed_url(base) is Ok && query.len() > 0 && !query_fits(base, query)) ==> (r matches Err(UrlError::TooLong { service }) && service@ == spec.service@)
            &&& (parsed_url(base) is Ok && (query.len() == 0 || query_fits(base, query))) ==> {
                let t = base_with_query(base, query)->0;
                &&& base_with_query(base, query) is Some
                &&& !path_fits(t, spec.path@) ==> (r matches Err(UrlError::TooLong { service }) && service@ == spec.service@)
                &&& path_fits(t, spec.path@) ==> (r matches Ok(u) && url_text(u) == url_with_path(t, spec.path@))
            }
        },
{
    let base = match registry.services.get(spec.service.as_str()) {
        Some(b) => b,
        None => return Err(UrlError::ServiceNotFound(spec.service.clone())),
    };
    let parsed = parse_url(base.as_str());
    let mut url = match parsed {
        Ok(u) => u,
        Err(source) => return Err(UrlError::InvalidUrl { service: spec.service.clone(), source }),
    };
    if spec.query.len() != 0 {
        let base_len = url_byte_len(&url);
        proof {
            let q = spec.query.deep_view();
            assert(q.take(0) =~= Seq::<(Seq<char>, Seq<char>)>::empty());
            assert(q.take(q.len() as int) =~= q);
            lemma_query_growth_monotone(q, 0, q.len() as int);
        }
        if base_len >= 0xffff_ffff || !query_growth_within(&spec.query, 0xffff_ffff - base_len as u64) {
            return Err(UrlError::TooLong { service: spec.service.clone() });
        }
        url = match parse_url_with_params(base.as_str(), &spec.query) {
            Ok(u) => u,
            Err(source) => return Err(UrlError::InvalidUrl { service: spec.service.clone(), source }),
        };
    }
    let url_len = url_byte_len(&url);
    let path_len = capped_len(spec.path.as_str(), 0xffff_ffff);
    if url_len > 0xffff_ffff || url_len as u64 + 3 * path_len + 4 > 0xffff_ffff {
        return Err(UrlError::TooLong { service: spec.service.clone() });
    }
    set_path(&mut url, spec.path.as_str());
    Ok(url)
}

/// Why a request could not be sent or answered.
#[derive(Debug, Clone, PartialEq, Eq)]
pub enum RequestError {
    /// No response came within the client's timeout.
    Timeout(String),
    /// The request failed otherwise.
    Failed(String),
}

/// Why executing a request spec failed. `E` is the script runner's error,
/// raised by an `extract` function.
#[derive(Debug)]
pub enum HttpExecuteError<E> {
    /// The URL could not be resolved.
    Url(UrlError),
    /// No response came in time.
    Timeout { message: String, service_time: ServiceTime },
    /// The request failed.
    Failed { message: String, service_time: ServiceTime },
    /// The response's status is 400 or above.
    Status { code: u16, service_time: ServiceTime },
    /// The spec's `extract` function failed.
    Extract { source: E, service_time: ServiceTime },
}

/// Whether a status code counts as a failure: any code from 400 up.
pub open spec fn is_failure_status(code: u16) -> bool {
    code >= 400
}

/// Judges what came back for a request that took `service_time`:
/// `Ok(())` where the response succeeded and its `extract` function is to
/// run next, else the error to report.
pub fn check_response<E>(response: Result<u16, RequestError>, service_time: ServiceTime) -> (r: Result<(), HttpExecuteError<E>>)
    ensures
        match response {
            Err(RequestError::Timeout(message)) => r matches Err(HttpExecuteError::Timeout { message: m, service_time: t })
                && m == message && t == service_time,
            Err(RequestError::Failed(message)) => r matches Err(HttpExecuteError::Failed { message: m, service_time: t })
                && m == message && t == service_time,
            Ok(code) => if is_failure_status(code) {
                r matches Err(HttpExecuteError::Status { code: c, service_time: t }) && c == code && t == service_time
            } else {
                r is Ok
            },
        },
{
    match response {
        Err(RequestError::Timeout(message)) => Err(HttpExecuteError::Timeout { message, service_time }),
        Err(RequestError::Failed(message)) => Err(HttpExecuteError::Failed { message, service_time }),
        Ok(code) => {
            if code >= 400 {
                Err(HttpExecuteError::Status { code, service_time })
            } else {
                Ok(())
            }
        },
    }
}

/// Whether `r` completes transaction `t` of virtual user `id` whose
/// request for spec `spec_id` failed with `err` (the `extract` error given
/// as its message). The response time is whatever the clock gave.
pub open spec fn is_failure_outcome(
    t: Transaction,
    id: VirtualUserId,
    spec_id: SpecId,
    err: HttpExecuteError<String>,
    r: TransactionResult,
) -> bool {
    match err {
        HttpExecuteError::Timeout { message, service_time } => r matches TransactionResult::Timeout {
            metadata,
            service_time: st,
            code,
            ..
        } && metadata == t.result_metadata(id, spec_id) && st == service_time && code == TimeoutCode::Error(message),
        HttpExecuteError::Failed { message, service_time } => r matches TransactionResult::Failed {
            metadata,
            service_time: st,
            code,
            ..
        } && metadata == t.result_metadata(id, spec_id) && st == service_time && code == FailedCode::Send(message),
        HttpExecuteError::Status { code: status, service_time } => r matches TransactionResult::Failed {
            metadata,
            service_time: st,
            code,
            ..
        } && metadata == t.result_metadata(id, spec_id) && st == service_time && code == FailedCode::Status(status),
        HttpExecuteError::Extract { source, service_time } => r matches TransactionResult::Failed {
            metadata,
            service_time: st,
            code,
            ..
        } && metadata == t.result_metadata(id, spec_id) && st == service_time && code == FailedCode::Extract(source),
        HttpExecuteError::Url(u) => r matches TransactionResult::Dropped {
            metadata,
            code: DroppedCode::Error(m),
            ..
        } && metadata == t.dropped_metadata(id) && m@ == url_error_message(u),
    }
}

/// Completes a transaction whose request failed: a timeout stays a
/// timeout, a send error, a failure status or a failed `extract` make it
/// failed, and an unresolved URL drops it with the URL error's message.
/// The response time is read from the clock.
pub fn map_execution_error(
    transaction: Transaction,
    id: VirtualUserId,
    spec_id: SpecId,
    err: HttpExecuteError<String>,
) -> (r: TransactionResult)
    ensures
        is_failure_outcome(transaction, id, spec_id, err, r),
{
    match err {
        HttpExecuteError::Timeout { message, service_time } => transaction.into_timeout(id, spec_id, service_time, TimeoutCode::Error(message)),
        HttpExecuteError::Failed { message, service_time } => transaction.into_failed(id, spec_id, service_time, FailedCode::Send(message)),
        HttpExecuteError::Status { code, service_time } => transaction.into_failed(id, spec_id, service_time, FailedCode::Status(code)),
        HttpExecuteError::Extract { source, service_time } => transaction.into_failed(id, spec_id, service_time, FailedCode::Extract(source)),
        HttpExecuteError::Url(u) => {
            let message = u.message();
            transaction.into_dropped(id, DroppedCode::Error(message))
        },
    }
}

/// Why a virtual user could not be set up. `E` is the script runner's
/// error.
#[derive(Debug)]
pub enum UserError<E> {
    /// The script could not be loaded.
    RunnerSetup(E),
    /// A setup spec could not be resolved.
    SetupSpec(E),
    /// A setup request's URL could not be resolved.
    Url(UrlError),
    /// A setup request could not be sent or timed out.
    Http(RequestError),
    /// A setup request's response had a failure status.
    Status(u16),
    /// The `extract` function of setup request `id` failed.
    Extract { id: SpecId, source: E },
}

/// The setup error for setup request `id` that failed with `err`.
pub open spec fn setup_failure<E>(id: SpecId, err: HttpExecuteError<E>) -> UserError<E> {
    match err {
        HttpExecuteError::Url(u) => UserError::Url(u),
        HttpExecuteError::Timeout { message, .. } => UserError::Http(RequestError::Timeout(message)),
        HttpExecuteError::Failed { message, .. } => UserError::Http(RequestError::Failed(message)),
        HttpExecuteError::Status { code, .. } => UserError::Status(code),
        HttpExecuteError::Extract { source, .. } => UserError::Extract { id, source },
    }
}

/// The setup error for setup request `id` that failed with `err`.
pub fn fail_setup_with<E>(id: SpecId, err: HttpExecuteError<E>) -> (r: UserError<E>)
    ensures
        r == setup_failure(id, err),
{
    match err {
        HttpExecuteError::Url(u) => UserError::Url(u),
        HttpExecuteError::Timeout { message, .. } => UserError::Http(RequestError::Timeout(message)),
        HttpExecuteError::Failed { message, .. } => UserError::Http(RequestError::Failed(message)),
        HttpExecuteError::Status { code, .. } => UserError::Status(code),
        HttpExecuteError::Extract { source, .. } => UserError::Extract { id, source },
    }
}

/// Whether a transaction waited too long to be sent: the client has a
/// timeout (not zero) and the time since the transaction's start exceeds
/// it.
pub fn waited_too_long(timeout_nanos: u64, elapsed: crate::load::ResponseTime) -> (r: bool)
    ensures
        r == (timeout_nanos != 0 && elapsed.spec_nanos() > timeout_nanos),
{
    timeout_nanos != 0 && elapsed.as_nanos() > timeout_nanos
}

} // verus!
