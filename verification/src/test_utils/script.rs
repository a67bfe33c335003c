//! A builder of Lua user scripts from request entries.
use vstd::prelude::*;
use crate::text::push_str;
use crate::test_utils::request::{static_entry, RequestBuilder, Static};

verus! {

pub const DEFAULT_TEST_METHOD: &'static str = "GET";
pub const DEFAULT_TEST_SERVICE: &'static str = "api";
pub const DEFAULT_TEST_PATH: &'static str = "/test";

/// The entries joined by `sep`.
pub open spec fn joined(entries: Seq<Seq<char>>, sep: Seq<char>) -> Seq<char>
    decreases entries.len(),
{
    if entries.len() == 0 {
        seq![]
    } else if entries.len() == 1 {
        entries[0]
    } else {
        joined(entries.drop_last(), sep) + sep + entries.last()
    }
}

/// The views of a list of strings.
pub open spec fn views(v: Seq<String>) -> Seq<Seq<char>> {
    v.map_values(|s: String| s@)
}

/// The entries joined by `sep`.
pub fn join(entries: &Vec<String>, sep: &str) -> (s: String)
    ensures
        s@ == joined(views(entries@), sep@),
{
    let mut s = String::new();
    let mut i: usize = 0;
    proof {
        assert(views(entries@).take(0) =~= Seq::<Seq<char>>::empty());
    }
    while i < entries.len()
        invariant
            i <= entries.len(),
            s@ == joined(views(entries@).take(i as int), sep@),
        decreases entries.len() - i,
    {
        if i > 0 {
            push_str(&mut s, sep);
        }
        push_str(&mut s, entries[i].as_str());
        proof {
            let t = views(entries@).take(i + 1);
            assert(t.drop_last() =~= views(entries@).take(i as int));
            assert(t.last() == entries@[i as int]@);
            if i == 0 {
                assert(s@ =~= t[0]);
            }
        }
        i = i + 1;
    }
    proof {
        assert(views(entries@).take(entries.len() as int) =~= views(entries@));
    }
    s
}

/// Builds a script whose `setup` and `requests` functions return the given
/// entries.
pub struct ScriptBuilder {
    setup: Vec<String>,
    requests: Vec<String>,
}

/// The script text for setup entries `setup` and request entries
/// `requests`: setup entries joined by `", "`, request entries by `","`.
pub open spec fn script_text(setup: Seq<Seq<char>>, requests: Seq<Seq<char>>) -> Seq<char> {
    "local function setup()\n    return {"@ + joined(setup, ", "@)
        + "}\nend\n\nlocal function requests()\n    return {"@ + joined(requests, ","@)
        + "}\nend\n\nreturn { setup = setup, requests = requests }"@
}

impl ScriptBuilder {
    pub closed spec fn spec_setup(self) -> Seq<Seq<char>> {
        views(self.setup@)
    }

    pub closed spec fn spec_requests(self) -> Seq<Seq<char>> {
        views(self.requests@)
    }

    /// A builder with no setup and no request entries.
    pub fn new() -> (b: Self)
        ensures
            b.spec_setup().len() == 0,
            b.spec_requests().len() == 0,
    {
        let b = ScriptBuilder { setup: Vec::new(), requests: Vec::new() };
        proof {
            assert(b.spec_setup() =~= Seq::<Seq<char>>::empty());
            assert(b.spec_requests() =~= Seq::<Seq<char>>::empty());
        }
        b
    }

    /// Replaces the setup entries.
    pub fn with_setup(self, entries: &[String]) -> (b: Self)
        ensures
            b.spec_setup() == views(entries@),
            b.spec_requests() == self.spec_requests(),
    {
        let setup = copy_strings(entries);
        ScriptBuilder { setup, requests: self.requests }
    }

    /// Replaces the request entries.
    pub fn with_requests(self, entries: &[String]) -> (b: Self)
        ensures
            b.spec_requests() == views(entries@),
            b.spec_setup() == self.spec_setup(),
    {
        let requests = copy_strings(entries);
        ScriptBuilder { setup: self.setup, requests }
    }

    /// The script text.
    pub fn build(self) -> (s: String)
        ensures
            s@ == script_text(self.spec_setup(), self.spec_requests()),
    {
        let setup_entries = join(&self.setup, ", ");
        let request_entries = join(&self.requests, ",");
        let mut s = String::new();
        push_str(&mut s, "local function setup()\n    return {");
        push_str(&mut s, setup_entries.as_str());
        push_str(&mut s, "}\nend\n\nlocal function requests()\n    return {");
        push_str(&mut s, request_entries.as_str());
        push_str(&mut s, "}\nend\n\nreturn { setup = setup, requests = requests }");
        proof {
            assert(s@ =~= script_text(self.spec_setup(), self.spec_requests()));
        }
        s
    }
}

fn copy_strings(entries: &[String]) -> (v: Vec<String>)
    ensures
        views(v@) == views(entries@),
{
    let mut v: Vec<String> = Vec::new();
    let mut i: usize = 0;
    while i < entries.len()
        invariant
            i <= entries.len(),
            v@.len() == i,
            forall|j: int| 0 <= j < i ==> (#[trigger] v@[j])@ == entries@[j]@,
        decreases entries.len() - i,
    {
        v.push(entries[i].clone());
        i = i + 1;
    }
    proof {
        assert(views(v@) =~= views(entries@));
    }
    v
}

/// The entry of the default request: a `GET` of the default path of the
/// default test service.
pub open spec fn default_request_entry() -> Seq<char> {
    "{ protocol = \"http\", method = \""@ + DEFAULT_TEST_METHOD@ + "\", service = \""@ + DEFAULT_TEST_SERVICE@
        + "\", path = \""@ + DEFAULT_TEST_PATH@ + "\" }"@
}

impl Default for ScriptBuilder {
    /// No setup entries, and the default request as the only request entry.
    fn default() -> (b: Self)
        ensures
            b.spec_setup().len() == 0,
            b.spec_requests() == seq![default_request_entry()],
    {
        let request: RequestBuilder<Static> = RequestBuilder::default();
        let entry = request.build();
        proof {
            reveal_strlit("{ ");
            reveal_strlit(" }");
            reveal_strlit("protocol = \"http\", method = \"");
            reveal_strlit("{ protocol = \"http\", method = \"");
            reveal_strlit("\"");
            reveal_strlit("\" }");
            assert(entry@ =~= default_request_entry());
        }
        let mut requests: Vec<String> = Vec::new();
        requests.push(entry);
        let b = ScriptBuilder { setup: Vec::new(), requests };
        proof {
            assert(b.spec_setup() =~= Seq::<Seq<char>>::empty());
            assert(b.spec_requests() =~= seq![default_request_entry()]);
        }
        b
    }
}

} // verus!
