//! A builder of the Lua source of one request spec entry.
use vstd::prelude::*;
use std::marker::PhantomData;
use crate::test_utils::script::{join, joined, views, DEFAULT_TEST_METHOD, DEFAULT_TEST_PATH, DEFAULT_TEST_SERVICE};
use crate::text::{debug_str, push_str, str_debug};

verus! {

/// Marks a builder of a static spec.
#[derive(Debug, Clone, Copy)]
pub struct Static;

/// Marks a builder of a dynamic spec, given as raw Lua.
#[derive(Debug, Clone, Copy)]
pub struct Dynamic;

/// A JSON value for a request body, as its Lua literal is written: numbers
/// are held as the text JSON writes for them.
#[derive(Debug)]
pub enum JsonBody {
    Null,
    Bool(bool),
    Number(String),
    Str(String),
    Array(Vec<JsonBody>),
    Object(Vec<(String, JsonBody)>),
}

/// The Lua literal of a JSON value: `nil`, booleans and numbers as they
/// are, strings in double quotes, arrays and objects as tables.
pub open spec fn lua_literal(v: JsonBody) -> Seq<char>
    decreases v,
{
    match v {
        JsonBody::Null => "nil"@,
        JsonBody::Bool(b) => if b { "true"@ } else { "false"@ },
        JsonBody::Number(t) => t@,
        JsonBody::Str(s) => seq!['"'] + s@ + seq!['"'],
        JsonBody::Array(items) => "{ "@ + lua_items(items@) + " }"@,
        JsonBody::Object(entries) => "{ "@ + lua_entries(entries@) + " }"@,
    }
}

/// The literals of `items`, separated by `", "`.
pub open spec fn lua_items(items: Seq<JsonBody>) -> Seq<char>
    decreases items,
{
    if items.len() == 0 {
        Seq::empty()
    } else if items.len() == 1 {
        lua_literal(items[0])
    } else {
        lua_items(items.drop_last()) + ", "@ + lua_literal(items.last())
    }
}

/// The fields `["key"] = literal` of `entries`, separated by `", "`.
pub open spec fn lua_entries(entries: Seq<(String, JsonBody)>) -> Seq<char>
    decreases entries,
{
    if entries.len() == 0 {
        Seq::empty()
    } else if entries.len() == 1 {
        "[\""@ + entries[0].0@ + "\"] = "@ + lua_literal(entries[0].1)
    } else {
        lua_entries(entries.drop_last()) + ", "@ + "[\""@ + entries.last().0@ + "\"] = "@ + lua_literal(entries.last().1)
    }
}

/// Writes the Lua literal of a JSON value.
pub fn json_to_lua_literal(value: &JsonBody) -> (s: String)
    ensures
        s@ == lua_literal(*value),
    decreases value,
{
    let mut s = String::new();
    match value {
        JsonBody::Null => push_str(&mut s, "nil"),
        JsonBody::Bool(b) => {
            if *b {
                push_str(&mut s, "true");
            } else {
                push_str(&mut s, "false");
            }
        },
        JsonBody::Number(t) => push_str(&mut s, t.as_str()),
        JsonBody::Str(text) => {
            push_str(&mut s, "\"");
            push_str(&mut s, text.as_str());
            push_str(&mut s, "\"");
            proof {
                reveal_strlit("\"");
                assert(s@ =~= seq!['"'] + text@ + seq!['"']);
            }
        },
        JsonBody::Array(items) => {
            push_str(&mut s, "{ ");
            let mut i: usize = 0;
            while i < items.len()
                invariant
                    i <= items.len(),
                    s@ == "{ "@ + lua_items(items@.take(i as int)),
                    *value == JsonBody::Array(*items),
                decreases items.len() - i,
            {
                if i > 0 {
                    push_str(&mut s, ", ");
                }
                proof {
                    assert(decreases_to!(*value => value->Array_0));
                    vstd::std_specs::vec::axiom_vec_index_decreases(*items, i as int);
                    assert(decreases_to!(*items => items@[i as int]));
                    assert(decreases_to!(*value => items@[i as int]));
                }
                let lit = json_to_lua_literal(&items[i]);
                push_str(&mut s, lit.as_str());
                proof {
                    let t = items@.take(i + 1);
                    assert(t.drop_last() =~= items@.take(i as int));
                    assert(t.last() == items@[i as int]);
                    if i == 0 {
                        assert(items@.take(0) =~= Seq::<JsonBody>::empty());
                        assert(t[0] == items@[0]);
                    }
                }
                i = i + 1;
            }
            push_str(&mut s, " }");
            proof {
                assert(items@.take(items@.len() as int) =~= items@);
            }
        },
        JsonBody::Object(entries) => {
            push_str(&mut s, "{ ");
            let mut i: usize = 0;
            while i < entries.len()
                invariant
                    i <= entries.len(),
                    s@ == "{ "@ + lua_entries(entries@.take(i as int)),
                    *value == JsonBody::Object(*entries),
                decreases entries.len() - i,
            {
                if i > 0 {
                    push_str(&mut s, ", ");
                }
                push_str(&mut s, "[\"");
                push_str(&mut s, entries[i].0.as_str());
                push_str(&mut s, "\"] = ");
                proof {
                    assert(decreases_to!(*value => value->Object_0));
                    vstd::std_specs::vec::axiom_vec_index_decreases(*entries, i as int);
                    assert(decreases_to!(*entries => entries@[i as int]));
                    assert(decreases_to!(entries@[i as int] => entries@[i as int].1));
                    assert(decreases_to!(*value => entries@[i as int].1));
                }
                let lit = json_to_lua_literal(&entries[i].1);
                push_str(&mut s, lit.as_str());
                proof {
                    let t = entries@.take(i + 1);
                    assert(t.drop_last() =~= entries@.take(i as int));
                    assert(t.last() == entries@[i as int]);
                    if i == 0 {
                        assert(entries@.take(0) =~= Seq::<(String, JsonBody)>::empty());
                        assert(t[0] == entries@[0]);
                    }
                }
                i = i + 1;
            }
            push_str(&mut s, " }");
            proof {
                assert(entries@.take(entries@.len() as int) =~= entries@);
            }
        },
    }
    s
}

/// The fields `["key"] = "value"` of `pairs`, separated by `", "`.
pub open spec fn pair_fields(pairs: Seq<(&'static str, &'static str)>) -> Seq<char>
    decreases pairs.len(),
{
    if pairs.len() == 0 {
        Seq::empty()
    } else if pairs.len() == 1 {
        pair_field(pairs[0])
    } else {
        pair_fields(pairs.drop_last()) + ", "@ + pair_field(pairs.last())
    }
}

/// The field `["key"] = "value"`.
pub open spec fn pair_field(p: (&'static str, &'static str)) -> Seq<char> {
    "[\""@ + p.0@ + "\"] = \""@ + p.1@ + "\""@
}

fn push_pair_fields(out: &mut String, pairs: &Vec<(&'static str, &'static str)>)
    ensures
        final(out)@ == old(out)@ + pair_fields(pairs@),
{
    let ghost start = out@;
    let mut i: usize = 0;
    while i < pairs.len()
        invariant
            i <= pairs.len(),
            out@ == start + pair_fields(pairs@.take(i as int)),
        decreases pairs.len() - i,
    {
        if i > 0 {
            push_str(out, ", ");
        }
        push_str(out, "[\"");
        push_str(out, pairs[i].0);
        push_str(out, "\"] = \"");
        push_str(out, pairs[i].1);
        push_str(out, "\"");
        proof {
            let t = pairs@.take(i + 1);
            assert(t.drop_last() =~= pairs@.take(i as int));
            assert(t.last() == pairs@[i as int]);
            if i == 0 {
                assert(pairs@.take(0) =~= Seq::<(&'static str, &'static str)>::empty());
                assert(t[0] == pairs@[0]);
            }
        }
        i = i + 1;
    }
    proof {
        assert(pairs@.take(pairs@.len() as int) =~= pairs@);
    }
}

/// Builds the Lua source of one request spec entry. `T` is `Static` for a
/// spec given field by field, `Dynamic` for one given as raw Lua.
#[derive(Debug)]
pub struct RequestBuilder<T> {
    method: &'static str,
    service: &'static str,
    path: &'static str,
    headers: Vec<(&'static str, &'static str)>,
    query: Vec<(&'static str, &'static str)>,
    body: Option<JsonBody>,
    extract: Option<&'static str>,
    name: Option<&'static str>,
    raw_lua: &'static str,
    markers: PhantomData<T>,
}

impl<T> RequestBuilder<T> {
    pub closed spec fn spec_method(self) -> Seq<char> {
        self.method@
    }

    pub closed spec fn spec_service(self) -> Seq<char> {
        self.service@
    }

    pub closed spec fn spec_path(self) -> Seq<char> {
        self.path@
    }

    pub closed spec fn spec_headers(self) -> Seq<(&'static str, &'static str)> {
        self.headers@
    }

    pub closed spec fn spec_query(self) -> Seq<(&'static str, &'static str)> {
        self.query@
    }

    pub closed spec fn spec_body(self) -> Option<JsonBody> {
        self.body
    }

    pub closed spec fn spec_extract(self) -> Option<&'static str> {
        self.extract
    }

    pub closed spec fn spec_name(self) -> Option<&'static str> {
        self.name
    }

    pub closed spec fn spec_raw(self) -> Seq<char> {
        self.raw_lua@
    }

    /// The same builder, with the spec named `name` (a target for jumps).
    pub fn with_name(self, name: &'static str) -> (b: RequestBuilder<T>)
        ensures
            b.spec_name() == Some(name),
            b.spec_method() == self.spec_method(),
            b.spec_service() == self.spec_service(),
            b.spec_path() == self.spec_path(),
            b.spec_headers() == self.spec_headers(),
            b.spec_query() == self.spec_query(),
            b.spec_body() == self.spec_body(),
            b.spec_extract() == self.spec_extract(),
            b.spec_raw() == self.spec_raw(),
    {
        RequestBuilder { name: Some(name), ..self }
    }
}

impl Default for RequestBuilder<Static> {
    /// A `GET` of the default path of the default test service.
    fn default() -> (b: Self)
        ensures
            b.spec_method() == DEFAULT_TEST_METHOD@,
            b.spec_service() == DEFAULT_TEST_SERVICE@,
            b.spec_path() == DEFAULT_TEST_PATH@,
            b.spec_headers().len() == 0,
            b.spec_query().len() == 0,
            b.spec_body() is None,
            b.spec_extract() is None,
            b.spec_name() is None,
    {
        RequestBuilder::new_static(DEFAULT_TEST_METHOD, DEFAULT_TEST_SERVICE, DEFAULT_TEST_PATH)
    }
}

/// The entry text of a static spec with the given fields.
pub open spec fn static_entry(b: RequestBuilder<Static>) -> Seq<char> {
    let spec = "{ "@ + static_fields(b) + " }"@;
    match b.spec_name() {
        Some(n) => "{ name = "@ + str_debug(n@) + ", spec = "@ + spec + " }"@,
        None => spec,
    }
}

/// The fields of a static spec's table, separated by `", "`.
pub open spec fn static_fields(b: RequestBuilder<Static>) -> Seq<char> {
    let base = "protocol = \"http\", method = \""@ + b.spec_method() + "\", service = \""@ + b.spec_service()
        + "\", path = \""@ + b.spec_path() + "\""@;
    let with_headers = if b.spec_headers().len() > 0 {
        base + ", headers = { "@ + pair_fields(b.spec_headers()) + " }"@
    } else {
        base
    };
    let with_query = if b.spec_query().len() > 0 {
        with_headers + ", query = { "@ + pair_fields(b.spec_query()) + " }"@
    } else {
        with_headers
    };
    let with_body = match b.spec_body() {
        Some(v) => with_query + ", body = "@ + lua_literal(v),
        None => with_query,
    };
    match b.spec_extract() {
        Some(e) => with_body + ", extract = "@ + e@,
        None => with_body,
    }
}

impl RequestBuilder<Static> {
    /// A static spec with the given method, service and path.
    pub fn new_static(method: &'static str, service: &'static str, path: &'static str) -> (b: Self)
        ensures
            b.spec_method() == method@,
            b.spec_service() == service@,
            b.spec_path() == path@,
            b.spec_headers().len() == 0,
            b.spec_query().len() == 0,
            b.spec_body() is None,
            b.spec_extract() is None,
            b.spec_name() is None,
    {
        RequestBuilder {
            method,
            service,
            path,
            headers: Vec::new(),
            query: Vec::new(),
            body: None,
            extract: None,
            name: None,
            raw_lua: "",
            markers: PhantomData,
        }
    }

    /// The same builder with another method.
    pub fn with_method(self, method: &'static str) -> (b: Self)
        ensures
            b.spec_method() == method@,
            b.spec_service() == self.spec_service(),
            b.spec_path() == self.spec_path(),
            b.spec_headers() == self.spec_headers(),
            b.spec_query() == self.spec_query(),
            b.spec_body() == self.spec_body(),
            b.spec_extract() == self.spec_extract(),
            b.spec_name() == self.spec_name(),
            b.spec_raw() == self.spec_raw(),
    {
        RequestBuilder { method, ..self }
    }

    /// The same builder with another service.
    pub fn with_service(self, service: &'static str) -> (b: Self)
        ensures
            b.spec_method() == self.spec_method(),
            b.spec_service() == service@,
            b.spec_path() == self.spec_path(),
            b.spec_headers() == self.spec_headers(),
            b.spec_query() == self.spec_query(),
            b.spec_body() == self.spec_body(),
            b.spec_extract() == self.spec_extract(),
            b.spec_name() == self.spec_name(),
            b.spec_raw() == self.spec_raw(),
    {
        RequestBuilder { service, ..self }
    }

    /// The same builder with another path.
    pub fn with_path(self, path: &'static str) -> (b: Self)
        ensures
            b.spec_method() == self.spec_method(),
            b.spec_service() == self.spec_service(),
            b.spec_path() == path@,
            b.spec_headers() == self.spec_headers(),
            b.spec_query() == self.spec_query(),
            b.spec_body() == self.spec_body(),
            b.spec_extract() == self.spec_extract(),
            b.spec_name() == self.spec_name(),
            b.spec_raw() == self.spec_raw(),
    {
        RequestBuilder { path, ..self }
    }

    /// The same builder with these headers.
    pub fn with_headers(self, h: Vec<(&'static str, &'static str)>) -> (b: Self)
        ensures
            b.spec_method() == self.spec_method(),
            b.spec_service() == self.spec_service(),
            b.spec_path() == self.spec_path(),
            b.spec_headers() == h@,
            b.spec_query() == self.spec_query(),
            b.spec_body() == self.spec_body(),
            b.spec_extract() == self.spec_extract(),
            b.spec_name() == self.spec_name(),
            b.spec_raw() == self.spec_raw(),
    {
        RequestBuilder { headers: h, ..self }
    }

    /// The same builder with these query parameters.
    pub fn with_query(self, q: Vec<(&'static str, &'static str)>) -> (b: Self)
        ensures
            b.spec_method() == self.spec_method(),
            b.spec_service() == self.spec_service(),
            b.spec_path() == self.spec_path(),
            b.spec_headers() == self.spec_headers(),
            b.spec_query() == q@,
            b.spec_body() == self.spec_body(),
            b.spec_extract() == self.spec_extract(),
            b.spec_name() == self.spec_name(),
            b.spec_raw() == self.spec_raw(),
    {
        RequestBuilder { query: q, ..self }
    }

    /// The same builder with this body.
    pub fn with_body(self, body: JsonBody) -> (b: Self)
        ensures
            b.spec_method() == self.spec_method(),
            b.spec_service() == self.spec_service(),
            b.spec_path() == self.spec_path(),
            b.spec_headers() == self.spec_headers(),
            b.spec_query() == self.spec_query(),
            b.spec_body() == Some(body),
            b.spec_extract() == self.spec_extract(),
            b.spec_name() == self.spec_name(),
            b.spec_raw() == self.spec_raw(),
    {
        RequestBuilder { body: Some(body), ..self }
    }

    /// The same builder with this `extract` function, given as Lua.
    pub fn with_extract(self, lua: &'static str) -> (b: Self)
        ensures
            b.spec_method() == self.spec_method(),
            b.spec_service() == self.spec_service(),
            b.spec_path() == self.spec_path(),
            b.spec_headers() == self.spec_headers(),
            b.spec_query() == self.spec_query(),
            b.spec_body() == self.spec_body(),
            b.spec_extract() == Some(lua),
            b.spec_name() == self.spec_name(),
            b.spec_raw() == self.spec_raw(),
    {
        RequestBuilder { extract: Some(lua), ..self }
    }

    /// The method.
    pub fn method(&self) -> (m: &'static str)
        ensures
            m@ == self.spec_method(),
    {
        self.method
    }

    /// The service.
    pub fn service(&self) -> (s: &'static str)
        ensures
            s@ == self.spec_service(),
    {
        self.service
    }

    /// The path.
    pub fn path(&self) -> (p: &'static str)
        ensures
            p@ == self.spec_path(),
    {
        self.path
    }

    /// The body, if any.
    pub fn body(&self) -> (b: Option<&JsonBody>)
        ensures
            b == match self.spec_body() {
                Some(x) => Some(&x),
                None => None::<&JsonBody>,
            },
    {
        match &self.body {
            Some(x) => Some(x),
            None => None,
        }
    }

    /// The headers.
    pub fn headers(&self) -> (h: &[(&'static str, &'static str)])
        ensures
            h@ == self.spec_headers(),
    {
        self.headers.as_slice()
    }

    /// The query parameters.
    pub fn query(&self) -> (q: &[(&'static str, &'static str)])
        ensures
            q@ == self.spec_query(),
    {
        self.query.as_slice()
    }

    /// The Lua source of the entry: the spec's table, wrapped with its name
    /// where it has one.
    pub fn build(self) -> (s: String)
        ensures
            s@ == static_entry(self),
    {
        let mut fields = String::new();
        push_str(&mut fields, "protocol = \"http\", method = \"");
        push_str(&mut fields, self.method);
        push_str(&mut fields, "\", service = \"");
        push_str(&mut fields, self.service);
        push_str(&mut fields, "\", path = \"");
        push_str(&mut fields, self.path);
        push_str(&mut fields, "\"");
        if self.headers.len() > 0 {
            push_str(&mut fields, ", headers = { ");
            push_pair_fields(&mut fields, &self.headers);
            push_str(&mut fields, " }");
        }
        if self.query.len() > 0 {
            push_str(&mut fields, ", query = { ");
            push_pair_fields(&mut fields, &self.query);
            push_str(&mut fields, " }");
        }
        if let Some(body) = &self.body {
            push_str(&mut fields, ", body = ");
            let lit = json_to_lua_literal(body);
            push_str(&mut fields, lit.as_str());
        }
        if let Some(extract) = self.extract {
            push_str(&mut fields, ", extract = ");
            push_str(&mut fields, extract);
        }
        assert(fields@ =~= static_fields(self));
        let mut spec = String::new();
        push_str(&mut spec, "{ ");
        push_str(&mut spec, fields.as_str());
        push_str(&mut spec, " }");
        match self.name {
            Some(n) => {
                let mut s = String::new();
                push_str(&mut s, "{ name = ");
                let quoted = debug_str(n);
                push_str(&mut s, quoted.as_str());
                push_str(&mut s, ", spec = ");
                push_str(&mut s, spec.as_str());
                push_str(&mut s, " }");
                s
            },
            None => spec,
        }
    }
}

/// The entry text of a dynamic spec.
pub open spec fn dynamic_entry(b: RequestBuilder<Dynamic>) -> Seq<char> {
    match b.spec_name() {
        Some(n) => "{ name = "@ + str_debug(n@) + ", spec = "@ + b.spec_raw() + " }"@,
        None => b.spec_raw(),
    }
}

impl RequestBuilder<Dynamic> {
    /// A dynamic spec given as raw Lua (a function, or a table of the
    /// static form).
    pub fn dynamic(raw: &'static str) -> (b: Self)
        ensures
            b.spec_raw() == raw@,
            b.spec_name() is None,
    {
        RequestBuilder {
            method: "",
            service: "",
            path: "",
            headers: Vec::new(),
            query: Vec::new(),
            body: None,
            extract: None,
            name: None,
            raw_lua: raw,
            markers: PhantomData,
        }
    }

    /// The Lua source of the entry: the raw Lua, wrapped with its name where
    /// it has one.
    pub fn build(self) -> (s: String)
        ensures
            s@ == dynamic_entry(self),
    {
        match self.name {
            Some(n) => {
                let mut s = String::new();
                push_str(&mut s, "{ name = ");
                let quoted = debug_str(n);
                push_str(&mut s, quoted.as_str());
                push_str(&mut s, ", spec = ");
                push_str(&mut s, self.raw_lua);
                push_str(&mut s, " }");
                s
            },
            None => self.raw_lua.to_owned(),
        }
    }
}

} // verus!
