//! Parsing of the request specs a script returns.
//!
//! A script describes each request as a Lua table. The parser checks the
//! table field by field, in a fixed order, and reports the first field that
//! is missing or malformed.
use vstd::prelude::*;
use crate::script::lua::{
    field_json, field_value, has_field, kind_name, take_field, LuaEntry, LuaKey, LuaKind,
    LuaTable, LuaValue,
};
use crate::script::method::{ascii_lowercase, method_named, Error as MethodError, HttpMethod};
use crate::script::spec::{HTTPStaticRequestSpec, LuaRequestSpec, RequestSpec, SpecType};
use crate::text::{i64_to_decimal, signed_decimal};

verus! {

/// The fields of a request spec table.
#[derive(Debug, Clone, Copy, PartialEq, Eq, Structural)]
pub enum Field {
    Protocol,
    Name,
    Spec,
    Method,
    Service,
    Path,
    Headers,
    Query,
    Body,
    Extract,
}

/// The key under which a field stands in its table.
pub open spec fn field_key(f: Field) -> Seq<char> {
    match f {
        Field::Protocol => "protocol"@,
        Field::Name => "name"@,
        Field::Spec => "spec"@,
        Field::Method => "method"@,
        Field::Service => "service"@,
        Field::Path => "path"@,
        Field::Headers => "headers"@,
        Field::Query => "query"@,
        Field::Body => "body"@,
        Field::Extract => "extract"@,
    }
}

impl Field {
    /// The key under which the field stands in its table.
    pub fn key(self) -> (s: &'static str)
        ensures
            s@ == field_key(self),
    {
        match self {
            Field::Protocol => "protocol",
            Field::Name => "name",
            Field::Spec => "spec",
            Field::Method => "method",
            Field::Service => "service",
            Field::Path => "path",
            Field::Headers => "headers",
            Field::Query => "query",
            Field::Body => "body",
            Field::Extract => "extract",
        }
    }
}

/// Why a request spec could not be parsed.
#[derive(Debug)]
pub enum Error<F, J> {
    /// The runtime reported an error while the table was read.
    Lua(String),
    /// The `protocol` field names no supported protocol (kept lowercased).
    InvalidProtocol(String),
    /// A protocol-specific field is malformed.
    InvalidHTTPSpec(MethodError),
    /// A required field is missing.
    RequiredFieldMissing(Field),
    /// A field that must be a string holds another kind of value.
    FieldNotString { field: Field, kind: LuaKind },
    /// A string field is not valid UTF-8; its bytes are kept.
    FieldStringValueNotUTF8 { field: Field, value: Vec<u8> },
    /// A field that must be a table holds another kind of value.
    FieldNotTable { field: Field, kind: LuaKind },
    /// A value in `headers` or `query` is neither a string, a number nor a
    /// boolean.
    StringMapValueNotCoercible { field: Field, key: String, value: LuaValue<F, J> },
    /// The `body` field has no JSON form; the bridge's message is kept.
    BodyNotJson(String),
    /// A field that must be a function holds another kind of value.
    FieldNotFunction { field: Field, kind: LuaKind },
    /// The `spec` field of a named spec is neither a table nor a function.
    InvalidSpecType(LuaKind),
    /// A spec is neither a table nor a function.
    InvalidRequestSpec(LuaKind),
}

/// Distinct fields stand under distinct keys.
pub proof fn lemma_field_keys_distinct()
    ensures
        forall|a: Field, b: Field| a != b ==> #[trigger] field_key(a) != #[trigger] field_key(b),
{
    reveal_strlit("protocol");
    reveal_strlit("name");
    reveal_strlit("spec");
    reveal_strlit("method");
    reveal_strlit("service");
    reveal_strlit("path");
    reveal_strlit("headers");
    reveal_strlit("query");
    reveal_strlit("body");
    reveal_strlit("extract");
    assert forall|a: Field, b: Field| a != b implies #[trigger] field_key(a) != #[trigger] field_key(b) by {
        if field_key(a).len() == field_key(b).len() {
            assert(field_key(a)[0] != field_key(b)[0] || field_key(a)[1] != field_key(b)[1]);
        }
    }
}

/// The value of field `f` of table `t` (`nil` where there is none).
pub open spec fn fv<F, J>(t: LuaTable<F, J>, f: Field) -> LuaValue<F, J> {
    field_value(t, field_key(f))
}

/// The outcome of reading a required string field that holds `v`.
pub open spec fn text_field_result<F, J>(v: LuaValue<F, J>, field: Field) -> Result<String, Error<F, J>> {
    match v {
        LuaValue::Nil => Err(Error::RequiredFieldMissing(field)),
        LuaValue::Str(Ok(s)) => Ok(s),
        LuaValue::Str(Err(b)) => Err(Error::FieldStringValueNotUTF8 { field, value: b }),
        other => Err(Error::FieldNotString { field, kind: other.kind() }),
    }
}

/// The outcome of reading the `method` field when it holds `v`: the method
/// it names, ignoring ASCII case.
pub open spec fn method_result<F, J>(v: LuaValue<F, J>) -> Result<HttpMethod, Error<F, J>> {
    match text_field_result(v, Field::Method) {
        Ok(s) => match method_named(ascii_lowercase(s@)) {
            Some(m) => Ok(m),
            None => Err(Error::InvalidHTTPSpec(MethodError::UnknownMethod(s))),
        },
        Err(e) => Err(e),
    }
}

/// The text the runtime turns a key into, or the runtime's message where
/// it cannot.
pub open spec fn key_text(k: LuaKey) -> Result<Seq<char>, Seq<char>> {
    match k {
        LuaKey::Name(n) => Ok(n@),
        LuaKey::Index(i) => Ok(signed_decimal(i as int)),
        LuaKey::Other(Ok(t)) => Ok(t@),
        LuaKey::Other(Err(m)) => Err(m@),
    }
}

/// The text of a value that a string map accepts: strings, numbers and
/// booleans.
pub open spec fn coerced_text<F, J>(v: LuaValue<F, J>) -> Option<Seq<char>> {
    match v {
        LuaValue::Str(Ok(s)) => Some(s@),
        LuaValue::Integer(i) => Some(signed_decimal(i as int)),
        LuaValue::Number(t) => Some(t@),
        LuaValue::Boolean(b) => Some(if b { "true"@ } else { "false"@ }),
        _ => None,
    }
}

/// The name-value pair an entry of a string map gives, if any.
pub open spec fn entry_pair<F, J>(e: LuaEntry<F, J>) -> Option<(Seq<char>, Seq<char>)> {
    match key_text(e.key) {
        Ok(k) => match coerced_text(e.value) {
            Some(v) => Some((k, v)),
            None => None,
        },
        Err(_) => None,
    }
}

/// Whether every entry gives a pair.
pub open spec fn all_pairs<F, J>(s: Seq<LuaEntry<F, J>>) -> bool {
    forall|i: int| 0 <= i < s.len() ==> (#[trigger] entry_pair(s[i])) is Some
}

/// Whether `i` is the first entry that gives no pair.
pub open spec fn first_unpaired<F, J>(s: Seq<LuaEntry<F, J>>, i: int) -> bool {
    &&& 0 <= i < s.len()
    &&& entry_pair(s[i]) is None
    &&& forall|j: int| 0 <= j < i ==> (#[trigger] entry_pair(s[j])) is Some
}

/// The error an entry that gives no pair is reported with.
pub open spec fn pair_error<F, J>(e: LuaEntry<F, J>, field: Field, err: Error<F, J>) -> bool {
    match key_text(e.key) {
        Err(m) => err matches Error::Lua(t) && t@ == m,
        Ok(k) => err matches Error::StringMapValueNotCoercible { field: f, key, value } && f == field
            && key@ == k && value == e.value,
    }
}

/// Whether `v` is `nil` or a table whose entries all give pairs.
pub open spec fn map_ok<F, J>(v: LuaValue<F, J>) -> bool {
    match v {
        LuaValue::Nil => true,
        LuaValue::Table(t) => all_pairs(t.entries@),
        _ => false,
    }
}

/// Whether `r` is the outcome of reading a string map field that holds `v`:
/// no pairs for `nil`; for a table, its pairs in the order of its entries,
/// or the error of its first entry that gives none; an error for any other
/// value.
pub open spec fn string_map_outcome<F, J>(
    v: LuaValue<F, J>,
    field: Field,
    r: Result<Vec<(String, String)>, Error<F, J>>,
) -> bool {
    match v {
        LuaValue::Nil => r matches Ok(m) && m@.len() == 0,
        LuaValue::Table(t) => if all_pairs(t.entries@) {
            r matches Ok(m) && m@.len() == t.entries@.len() && forall|i: int|
                0 <= i < m@.len() ==> Some((#[trigger] m@[i].0@, m@[i].1@)) == entry_pair(
                    t.entries@[i],
                )
        } else {
            r matches Err(e) && exists|i: int|
                #[trigger] first_unpaired(t.entries@, i) && pair_error(t.entries@[i], field, e)
        },
        other => r == Err::<Vec<(String, String)>, Error<F, J>>(
            Error::FieldNotTable { field, kind: other.kind() },
        ),
    }
}

/// The outcome of reading the `body` field when it holds `v`, with `json`
/// what the runtime's JSON bridge makes of it.
pub open spec fn body_result<F, J>(v: LuaValue<F, J>, json: Option<Result<J, String>>) -> Result<Option<J>, Error<F, J>> {
    if v is Nil {
        Ok(None)
    } else {
        match json {
            Some(Ok(j)) => Ok(Some(j)),
            Some(Err(m)) => Err(Error::BodyNotJson(m)),
            None => Ok(None),
        }
    }
}

/// The outcome of reading the `extract` field when it holds `v`.
pub open spec fn extract_result<F, J>(v: LuaValue<F, J>) -> Result<Option<F>, Error<F, J>> {
    match v {
        LuaValue::Nil => Ok(None),
        LuaValue::Function(f) => Ok(Some(f)),
        other => Err(Error::FieldNotFunction { field: Field::Extract, kind: other.kind() }),
    }
}

/// Whether `r` is the outcome of parsing table `t` as an HTTP spec: the
/// fields are checked in the order `method`, `service`, `path`, `headers`,
/// `query`, `body`, `extract`, and the first that fails gives the error.
pub open spec fn http_spec_outcome<F, J>(
    t: LuaTable<F, J>,
    r: Result<HTTPStaticRequestSpec<F, J>, Error<F, J>>,
) -> bool {
    let headers = fv(t, Field::Headers);
    let query = fv(t, Field::Query);
    match method_result(fv(t, Field::Method)) {
        Err(e) => r == Err::<HTTPStaticRequestSpec<F, J>, Error<F, J>>(e),
        Ok(method) => match text_field_result(fv(t, Field::Service), Field::Service) {
            Err(e) => r == Err::<HTTPStaticRequestSpec<F, J>, Error<F, J>>(e),
            Ok(service) => match text_field_result(fv(t, Field::Path), Field::Path) {
                Err(e) => r == Err::<HTTPStaticRequestSpec<F, J>, Error<F, J>>(e),
                Ok(path) => if !map_ok(headers) {
                    r matches Err(e) && string_map_outcome(headers, Field::Headers, Err(e))
                } else if !map_ok(query) {
                    r matches Err(e) && string_map_outcome(query, Field::Query, Err(e))
                } else {
                    match body_result(fv(t, Field::Body), field_json(t, field_key(Field::Body))) {
                        Err(e) => r == Err::<HTTPStaticRequestSpec<F, J>, Error<F, J>>(e),
                        Ok(body) => match extract_result(fv(t, Field::Extract)) {
                            Err(e) => r == Err::<HTTPStaticRequestSpec<F, J>, Error<F, J>>(e),
                            Ok(extract) => r matches Ok(spec) && spec.method == method
                                && spec.service == service && spec.path == path
                                && string_map_outcome(headers, Field::Headers, Ok(spec.headers))
                                && string_map_outcome(query, Field::Query, Ok(spec.query))
                                && spec.body == body && spec.extract == extract,
                        },
                    }
                },
            },
        },
    }
}

/// Takes field `f` out of `t`, `nil` where it is absent.
fn take<F, J>(t: &mut LuaTable<F, J>, f: Field) -> (r: (LuaValue<F, J>, Option<Result<J, String>>))
    ensures
        r.0 == fv(*old(t), f),
        r.1 == field_json(*old(t), field_key(f)),
        forall|m: Seq<char>| m != field_key(f) ==> {
            &&& #[trigger] field_value(*final(t), m) == field_value(*old(t), m)
            &&& field_json(*final(t), m) == field_json(*old(t), m)
            &&& has_field(*final(t), m) == has_field(*old(t), m)
        },
{
    let key = f.key().to_owned();
    match take_field(t, &key) {
        Some((v, j)) => (v, Some(j)),
        None => (LuaValue::Nil, None),
    }
}

/// Reads a required string field.
fn parse_text_field<F, J>(v: LuaValue<F, J>, field: Field) -> (r: Result<String, Error<F, J>>)
    ensures
        r == text_field_result(v, field),
{
    match v {
        LuaValue::Nil => Err(Error::RequiredFieldMissing(field)),
        LuaValue::Str(Ok(s)) => Ok(s),
        LuaValue::Str(Err(b)) => Err(Error::FieldStringValueNotUTF8 { field, value: b }),
        other => {
            let kind = other.kind_of();
            Err(Error::FieldNotString { field, kind })
        },
    }
}

/// Reads the `method` field: one of the seven standard methods, in any
/// ASCII case.
fn parse_method<F, J>(v: LuaValue<F, J>) -> (r: Result<HttpMethod, Error<F, J>>)
    ensures
        r == method_result(v),
{
    match parse_text_field(v, Field::Method) {
        Ok(s) => match HttpMethod::from_str(s.as_str()) {
            Ok(m) => Ok(m),
            Err(_) => Err(Error::InvalidHTTPSpec(MethodError::UnknownMethod(s))),
        },
        Err(e) => Err(e),
    }
}

/// The text of a string-map value: strings, numbers and booleans are
/// accepted.
fn coerce_to_string<F, J>(v: &LuaValue<F, J>) -> (r: Option<String>)
    ensures
        match r {
            Some(s) => coerced_text(*v) == Some(s@),
            None => coerced_text(*v) is None,
        },
{
    match v {
        LuaValue::Str(Ok(s)) => Some(s.clone()),
        LuaValue::Integer(i) => Some(i64_to_decimal(*i)),
        LuaValue::Number(t) => Some(t.clone()),
        LuaValue::Boolean(b) => {
            if *b {
                Some("true".to_owned())
            } else {
                Some("false".to_owned())
            }
        },
        _ => None,
    }
}

/// The text the runtime turns a key into.
fn key_to_string(k: LuaKey) -> (r: Result<String, String>)
    ensures
        match r {
            Ok(s) => key_text(k) == Ok::<Seq<char>, Seq<char>>(s@),
            Err(m) => key_text(k) == Err::<Seq<char>, Seq<char>>(m@),
        },
{
    match k {
        LuaKey::Name(n) => Ok(n),
        LuaKey::Index(i) => Ok(i64_to_decimal(i)),
        LuaKey::Other(r) => r,
    }
}

/// Reads a string map field (`headers` or `query`): its name-value pairs in
/// the order of the table's entries.
fn parse_string_map<F, J>(v: LuaValue<F, J>, field: Field) -> (r: Result<Vec<(String, String)>, Error<F, J>>)
    ensures
        string_map_outcome(v, field, r),
{
    let ghost v0 = v;
    match v {
        LuaValue::Nil => Ok(Vec::new()),
        LuaValue::Table(t) => {
            let ghost entries = t.entries@;
            assert(v0 matches LuaValue::Table(t0) && t0.entries@ == entries);
            let mut map: Vec<(String, String)> = Vec::new();
            for e in it: t.entries.into_iter()
                invariant
                    it.seq() == entries,
                    v0 matches LuaValue::Table(t0) && t0.entries@ == entries,
                    v0 == v,
                    map@.len() == it.index(),
                    forall|j: int| 0 <= j < it.index() ==> (#[trigger] entry_pair(entries[j])) is Some,
                    forall|j: int|
                        0 <= j < map@.len() ==> Some((#[trigger] map@[j].0@, map@[j].1@)) == entry_pair(
                            entries[j],
                        ),
            {
                let ghost i = it.index();
                let ghost entry = e;
                assert(entry == entries[i]);
                let LuaEntry { key, value, json: _ } = e;
                let ghost key_view = key_text(key);
                match key_to_string(key) {
                    Err(m) => {
                        let err: Error<F, J> = Error::Lua(m);
                        proof {
                            assert(first_unpaired(entries, i));
                            assert(pair_error(entries[i], field, err));
                            assert(!all_pairs(entries));
                            assert(string_map_outcome(v0, field, Err(err)));
                        }
                        return Err(err);
                    },
                    Ok(k) => match coerce_to_string(&value) {
                        Some(text) => {
                            map.push((k, text));
                        },
                        None => {
                            let err: Error<F, J> = Error::StringMapValueNotCoercible { field, key: k, value };
                            proof {
                                assert(first_unpaired(entries, i));
                                assert(pair_error(entries[i], field, err));
                                assert(!all_pairs(entries));
                                assert(string_map_outcome(v0, field, Err(err)));
                            }
                            return Err(err);
                        },
                    },
                }
            }
            proof {
                assert(all_pairs(entries));
                assert(string_map_outcome(v0, field, Ok(map)));
            }
            Ok(map)
        },
        other => {
            let kind = other.kind_of();
            Err(Error::FieldNotTable { field, kind })
        },
    }
}

/// Reads the `body` field: no body for `nil`, else the JSON form the
/// runtime's bridge gives it.
fn parse_body<F, J>(v: LuaValue<F, J>, json: Option<Result<J, String>>) -> (r: Result<Option<J>, Error<F, J>>)
    ensures
        r == body_result(v, json),
{
    if let LuaValue::Nil = v {
        return Ok(None);
    }
    match json {
        Some(Ok(j)) => Ok(Some(j)),
        Some(Err(m)) => Err(Error::BodyNotJson(m)),
        None => Ok(None),
    }
}

/// Reads the `extract` field: absent, or a function.
fn parse_extract<F, J>(v: LuaValue<F, J>) -> (r: Result<Option<F>, Error<F, J>>)
    ensures
        r == extract_result(v),
{
    match v {
        LuaValue::Nil => Ok(None),
        LuaValue::Function(f) => Ok(Some(f)),
        other => {
            let kind = other.kind_of();
            Err(Error::FieldNotFunction { field: Field::Extract, kind })
        },
    }
}

/// Parses a table as an HTTP request spec.
///
/// `method`, `service` and `path` are required strings; `headers` and
/// `query` are optional tables of strings, numbers or booleans; `body` is
/// optional and taken in the JSON form the runtime gives it; `extract` is an
/// optional function. The first field that fails gives the error.
pub fn parse_http_spec<F, J>(table: LuaTable<F, J>) -> (r: Result<HTTPStaticRequestSpec<F, J>, Error<F, J>>)
    ensures
        http_spec_outcome(table, r),
{
    proof {
        lemma_field_keys_distinct();
    }
    let mut t = table;
    let (v, _) = take(&mut t, Field::Method);
    let method = match parse_method(v) {
        Ok(m) => m,
        Err(e) => return Err(e),
    };
    let (v, _) = take(&mut t, Field::Service);
    let service = match parse_text_field(v, Field::Service) {
        Ok(s) => s,
        Err(e) => return Err(e),
    };
    let (v, _) = take(&mut t, Field::Path);
    let path = match parse_text_field(v, Field::Path) {
        Ok(s) => s,
        Err(e) => return Err(e),
    };
    let (v, _) = take(&mut t, Field::Headers);
    let headers = match parse_string_map(v, Field::Headers) {
        Ok(h) => h,
        Err(e) => return Err(e),
    };
    let (v, _) = take(&mut t, Field::Query);
    let query = match parse_string_map(v, Field::Query) {
        Ok(q) => q,
        Err(e) => return Err(e),
    };
    let (v, j) = take(&mut t, Field::Body);
    let body = match parse_body(v, j) {
        Ok(b) => b,
        Err(e) => return Err(e),
    };
    let (v, _) = take(&mut t, Field::Extract);
    let extract = match parse_extract(v) {
        Ok(x) => x,
        Err(e) => return Err(e),
    };
    Ok(HTTPStaticRequestSpec { method, service, path, headers, query, body, extract })
}

/// The Unicode lowercase form of a string (`str::to_lowercase`).
pub uninterp spec fn unicode_lowercase(s: Seq<char>) -> Seq<char>;

/// Lowercases `s` with `str::to_lowercase`; the contract names the result
/// and claims no more than that it is a function of `s`.
#[verifier::external_body]
fn to_lowercase(s: &str) -> (r: String)
    ensures
        r@ == unicode_lowercase(s@),
{
    s.to_lowercase()
}

/// Whether `r` is the outcome of parsing table `t` as a static spec: the
/// `protocol` field is required, and `"http"` in any case selects an HTTP
/// spec.
pub open spec fn static_spec_outcome<F, J>(
    t: LuaTable<F, J>,
    r: Result<RequestSpec<F, J>, Error<F, J>>,
) -> bool {
    match fv(t, Field::Protocol) {
        LuaValue::Nil => r == Err::<RequestSpec<F, J>, Error<F, J>>(
            Error::RequiredFieldMissing(Field::Protocol),
        ),
        LuaValue::Str(Ok(p)) => if unicode_lowercase(p@) == "http"@ {
            match r {
                Ok(RequestSpec::Http(x)) => http_spec_outcome(t, Ok(x)),
                Err(e) => http_spec_outcome(t, Err(e)),
            }
        } else {
            r matches Err(Error::InvalidProtocol(q)) && q@ == unicode_lowercase(p@)
        },
        LuaValue::Str(Err(b)) => r == Err::<RequestSpec<F, J>, Error<F, J>>(
            Error::FieldStringValueNotUTF8 { field: Field::Protocol, value: b },
        ),
        other => r == Err::<RequestSpec<F, J>, Error<F, J>>(
            Error::FieldNotString { field: Field::Protocol, kind: other.kind() },
        ),
    }
}

proof fn lemma_http_outcome_same_fields<F, J>(
    a: LuaTable<F, J>,
    b: LuaTable<F, J>,
    r: Result<HTTPStaticRequestSpec<F, J>, Error<F, J>>,
)
    requires
        fv(a, Field::Method) == fv(b, Field::Method),
        fv(a, Field::Service) == fv(b, Field::Service),
        fv(a, Field::Path) == fv(b, Field::Path),
        fv(a, Field::Headers) == fv(b, Field::Headers),
        fv(a, Field::Query) == fv(b, Field::Query),
        fv(a, Field::Body) == fv(b, Field::Body),
        field_json(a, field_key(Field::Body)) == field_json(b, field_key(Field::Body)),
        fv(a, Field::Extract) == fv(b, Field::Extract),
    ensures
        http_spec_outcome(a, r) == http_spec_outcome(b, r),
{
}

/// Parses a table as a static request spec.
///
/// The `protocol` field is required and must be a string; its lowercase
/// form selects the protocol, and `"http"` is the one supported. The
/// remaining fields are checked as the protocol requires.
pub fn parse_static_spec<F, J>(table: LuaTable<F, J>) -> (r: Result<RequestSpec<F, J>, Error<F, J>>)
    ensures
        static_spec_outcome(table, r),
{
    proof {
        lemma_field_keys_distinct();
    }
    let ghost t0 = table;
    let mut t = table;
    let (v, _) = take(&mut t, Field::Protocol);
    proof {
        lemma_http_outcome_same_fields(t0, t, Ok(arbitrary()));
    }
    match v {
        LuaValue::Nil => Err(Error::RequiredFieldMissing(Field::Protocol)),
        LuaValue::Str(Ok(p)) => {
            let lower = to_lowercase(p.as_str());
            let http = "http".to_owned();
            proof {
                reveal_strlit("http");
            }
            if lower == http {
                let ghost t1 = t;
                let r = parse_http_spec(t);
                proof {
                    lemma_http_outcome_same_fields(t0, t1, r);
                }
                match r {
                    Ok(x) => Ok(RequestSpec::Http(x)),
                    Err(e) => Err(e),
                }
            } else {
                Err(Error::InvalidProtocol(lower))
            }
        },
        LuaValue::Str(Err(b)) => Err(Error::FieldStringValueNotUTF8 { field: Field::Protocol, value: b }),
        other => {
            let kind = other.kind_of();
            Err(Error::FieldNotString { field: Field::Protocol, kind })
        },
    }
}

/// Whether `r` is the outcome of parsing a value as a request spec: a table
/// without a `name` is an anonymous static spec; a table with a `name` holds
/// the spec under `spec`, a table for a static spec or a function for a
/// dynamic one; a bare function is an anonymous dynamic spec.
pub open spec fn spec_outcome<F, J>(v: LuaValue<F, J>, r: Result<LuaRequestSpec<F, J>, Error<F, J>>) -> bool {
    match v {
        LuaValue::Table(t) => match fv(t, Field::Name) {
            LuaValue::Nil => match r {
                Ok(s) => s.name is None && (s.spec matches SpecType::Static(x) && static_spec_outcome(t, Ok(x))),
                Err(e) => static_spec_outcome(t, Err(e)),
            },
            LuaValue::Str(Ok(n)) => match fv(t, Field::Spec) {
                LuaValue::Table(st) => match r {
                    Ok(s) => s.name == Some(n) && (s.spec matches SpecType::Static(x) && static_spec_outcome(st, Ok(x))),
                    Err(e) => static_spec_outcome(st, Err(e)),
                },
                LuaValue::Function(f) => r == Ok::<LuaRequestSpec<F, J>, Error<F, J>>(
                    LuaRequestSpec { name: Some(n), spec: SpecType::Dynamic(f) },
                ),
                other => r == Err::<LuaRequestSpec<F, J>, Error<F, J>>(Error::InvalidSpecType(other.kind())),
            },
            LuaValue::Str(Err(b)) => r == Err::<LuaRequestSpec<F, J>, Error<F, J>>(
                Error::FieldStringValueNotUTF8 { field: Field::Name, value: b },
            ),
            other => r == Err::<LuaRequestSpec<F, J>, Error<F, J>>(
                Error::FieldNotString { field: Field::Name, kind: other.kind() },
            ),
        },
        LuaValue::Function(f) => r == Ok::<LuaRequestSpec<F, J>, Error<F, J>>(
            LuaRequestSpec { name: None, spec: SpecType::Dynamic(f) },
        ),
        other => r == Err::<LuaRequestSpec<F, J>, Error<F, J>>(Error::InvalidRequestSpec(other.kind())),
    }
}

proof fn lemma_static_outcome_same_fields<F, J>(
    a: LuaTable<F, J>,
    b: LuaTable<F, J>,
    r: Result<RequestSpec<F, J>, Error<F, J>>,
)
    requires
        fv(a, Field::Protocol) == fv(b, Field::Protocol),
        fv(a, Field::Method) == fv(b, Field::Method),
        fv(a, Field::Service) == fv(b, Field::Service),
        fv(a, Field::Path) == fv(b, Field::Path),
        fv(a, Field::Headers) == fv(b, Field::Headers),
        fv(a, Field::Query) == fv(b, Field::Query),
        fv(a, Field::Body) == fv(b, Field::Body),
        field_json(a, field_key(Field::Body)) == field_json(b, field_key(Field::Body)),
        fv(a, Field::Extract) == fv(b, Field::Extract),
    ensures
        static_spec_outcome(a, r) == static_spec_outcome(b, r),
{
    match r {
        Ok(RequestSpec::Http(x)) => lemma_http_outcome_same_fields(a, b, Ok(x)),
        Err(e) => lemma_http_outcome_same_fields(a, b, Err(e)),
    }
}

/// Parses a value a script returned as a request spec.
///
/// A table without a `name` field is an anonymous static spec. A table
/// with a `name` (a string) holds its spec under `spec`: a table for a
/// static spec, a function for a dynamic one. A bare function is an
/// anonymous dynamic spec. Anything else is refused.
pub fn parse_spec<F, J>(value: LuaValue<F, J>) -> (r: Result<LuaRequestSpec<F, J>, Error<F, J>>)
    ensures
        spec_outcome(value, r),
{
    proof {
        lemma_field_keys_distinct();
    }
    match value {
        LuaValue::Table(table) => {
            let ghost t0 = table;
            let mut t = table;
            let (name, _) = take(&mut t, Field::Name);
            match name {
                LuaValue::Nil => {
                    let ghost t1 = t;
                    let r = parse_static_spec(t);
                    proof {
                        lemma_static_outcome_same_fields(t0, t1, r);
                    }
                    match r {
                        Ok(x) => Ok(LuaRequestSpec { name: None, spec: SpecType::Static(x) }),
                        Err(e) => Err(e),
                    }
                },
                LuaValue::Str(Ok(n)) => {
                    let (spec, _) = take(&mut t, Field::Spec);
                    match spec {
                        LuaValue::Table(st) => match parse_static_spec(st) {
                            Ok(x) => Ok(LuaRequestSpec { name: Some(n), spec: SpecType::Static(x) }),
                            Err(e) => Err(e),
                        },
                        LuaValue::Function(f) => Ok(LuaRequestSpec { name: Some(n), spec: SpecType::Dynamic(f) }),
                        other => {
                            let kind = other.kind_of();
                            Err(Error::InvalidSpecType(kind))
                        },
                    }
                },
                LuaValue::Str(Err(b)) => Err(Error::FieldStringValueNotUTF8 { field: Field::Name, value: b }),
                other => {
                    let kind = other.kind_of();
                    Err(Error::FieldNotString { field: Field::Name, kind })
                },
            }
        },
        LuaValue::Function(f) => Ok(LuaRequestSpec { name: None, spec: SpecType::Dynamic(f) }),
        other => {
            let kind = other.kind_of();
            Err(Error::InvalidRequestSpec(kind))
        },
    }
}

} // verus!
