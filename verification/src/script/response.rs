//! The HTTP response a script's `extract` function inspects.
use vstd::prelude::*;
use crate::script::method::{ascii_lowercase, lowercase_chars};
use crate::text::push_str;

verus! {

#[verifier::external_type_specification]
#[verifier::external_body]
pub struct ExBytes(bytes::Bytes);

/// The values of the headers named `name`, ignoring ASCII case, in order.
pub open spec fn header_values(h: Seq<(String, String)>, name: Seq<char>) -> Seq<Seq<char>>
    decreases h.len(),
{
    if h.len() == 0 {
        Seq::empty()
    } else {
        let rest = header_values(h.drop_last(), name);
        if ascii_lowercase(h.last().0@) == ascii_lowercase(name) {
            rest.push(h.last().1@)
        } else {
            rest
        }
    }
}

/// `values` joined with commas.
pub open spec fn comma_joined(values: Seq<Seq<char>>) -> Seq<char>
    decreases values.len(),
{
    if values.len() == 0 {
        Seq::empty()
    } else if values.len() == 1 {
        values[0]
    } else {
        comma_joined(values.drop_last()) + seq![','] + values.last()
    }
}

/// A response: its status, its headers in order, and its body.
#[derive(Debug, Clone)]
pub struct Response {
    status: u16,
    headers: Vec<(String, String)>,
    body: Option<bytes::Bytes>,
}

impl Response {
    pub closed spec fn spec_status(self) -> u16 {
        self.status
    }

    pub closed spec fn spec_headers(self) -> Seq<(String, String)> {
        self.headers@
    }

    pub closed spec fn spec_body(self) -> Option<bytes::Bytes> {
        self.body
    }

    /// A response with the given status, headers and body (`None` for an
    /// empty body).
    pub fn new(status: u16, headers: Vec<(String, String)>, body: Option<bytes::Bytes>) -> (r: Self)
        ensures
            r.spec_status() == status,
            r.spec_headers() == headers@,
            r.spec_body() == body,
    {
        Response { status, headers, body }
    }

    /// The status code.
    pub fn status(&self) -> (s: u16)
        ensures
            s == self.spec_status(),
    {
        self.status
    }

    /// The body, if there is one.
    pub fn body(&self) -> (b: Option<&bytes::Bytes>)
        ensures
            b == match self.spec_body() {
                Some(x) => Some(&x),
                None => None::<&bytes::Bytes>,
            },
    {
        match &self.body {
            Some(x) => Some(x),
            None => None,
        }
    }

    /// The value of the header `name`, ignoring ASCII case: `None` where no
    /// header has that name, the values of all that have it joined with
    /// commas otherwise.
    pub fn header(&self, name: &str) -> (r: Option<String>)
        ensures
            match r {
                None => header_values(self.spec_headers(), name@).len() == 0,
                Some(s) => header_values(self.spec_headers(), name@).len() > 0
                    && s@ == comma_joined(header_values(self.spec_headers(), name@)),
            },
    {
        let wanted = lowercase_chars(name);
        let mut joined = String::new();
        let mut found = false;
        let mut i: usize = 0;
        while i < self.headers.len()
            invariant
                i <= self.headers.len(),
                wanted@ == ascii_lowercase(name@),
                found == (header_values(self.headers@.take(i as int), name@).len() > 0),
                joined@ == comma_joined(header_values(self.headers@.take(i as int), name@)),
            decreases self.headers.len() - i,
        {
            let ghost prefix = self.headers@.take(i as int);
            proof {
                assert(self.headers@.take(i + 1).drop_last() =~= prefix);
                assert(self.headers@.take(i + 1).last() == self.headers@[i as int]);
            }
            let key = lowercase_chars(self.headers[i].0.as_str());
            let ghost vals = header_values(prefix, name@);
            if vec_eq(&key, &wanted) {
                proof {
                    let v = self.headers@[i as int].1@;
                    assert(header_values(self.headers@.take(i + 1), name@) == vals.push(v));
                    assert(vals.push(v).drop_last() =~= vals);
                    assert(vals.push(v).last() == v);
                }
                if found {
                    push_str(&mut joined, ",");
                    proof {
                        reveal_strlit(",");
                    }
                }
                push_str(&mut joined, self.headers[i].1.as_str());
                found = true;
            }
            i = i + 1;
        }
        proof {
            assert(self.headers@.take(self.headers@.len() as int) =~= self.headers@);
        }
        if found {
            Some(joined)
        } else {
            None
        }
    }
}

fn vec_eq(a: &Vec<char>, b: &Vec<char>) -> (r: bool)
    ensures
        r == (a@ == b@),
{
    if a.len() != b.len() {
        return false;
    }
    let mut i: usize = 0;
    while i < a.len()
        invariant
            i <= a.len(),
            a.len() == b.len(),
            forall|j: int| 0 <= j < i ==> a@[j] == b@[j],
        decreases a.len() - i,
    {
        if a[i] != b[i] {
            return false;
        }
        i = i + 1;
    }
    proof {
        assert(a@ =~= b@);
    }
    true
}

} // verus!
