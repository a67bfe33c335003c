//! The HTTP methods a request spec may name.
use vstd::prelude::*;
use crate::text::chars_of;

verus! {

/// The seven standard HTTP methods.
#[derive(Debug, Clone, Copy, PartialEq, Eq, Hash, Structural)]
pub enum HttpMethod {
    Get,
    Post,
    Put,
    Delete,
    Patch,
    Head,
    Options,
}

/// Errors of parsing an HTTP request spec.
#[derive(Debug, Clone, PartialEq, Eq)]
pub enum Error {
    /// The `method` field names none of the seven standard methods; the
    /// field's text is kept as written.
    UnknownMethod(String),
}

/// `c` with an ASCII capital letter turned into its small letter.
pub open spec fn ascii_lower(c: char) -> char {
    if 'A' <= c <= 'Z' { ((c as int) + 32) as char } else { c }
}

/// `s` with every ASCII capital letter turned into its small letter.
pub open spec fn ascii_lowercase(s: Seq<char>) -> Seq<char> {
    s.map_values(|c: char| ascii_lower(c))
}

/// The method whose lowercase name is `s`, if any.
pub open spec fn method_named(s: Seq<char>) -> Option<HttpMethod> {
    if s == seq!['g', 'e', 't'] {
        Some(HttpMethod::Get)
    } else if s == seq!['p', 'o', 's', 't'] {
        Some(HttpMethod::Post)
    } else if s == seq!['p', 'u', 't'] {
        Some(HttpMethod::Put)
    } else if s == seq!['d', 'e', 'l', 'e', 't', 'e'] {
        Some(HttpMethod::Delete)
    } else if s == seq!['p', 'a', 't', 'c', 'h'] {
        Some(HttpMethod::Patch)
    } else if s == seq!['h', 'e', 'a', 'd'] {
        Some(HttpMethod::Head)
    } else if s == seq!['o', 'p', 't', 'i', 'o', 'n', 's'] {
        Some(HttpMethod::Options)
    } else {
        None
    }
}

/// The ASCII-lowercase form of `c`.
pub fn to_ascii_lower(c: char) -> (r: char)
    ensures
        r == ascii_lower(c),
{
    if 'A' <= c && c <= 'Z' {
        let b = (c as u8) + 32;
        proof {
            assert(b as int == (c as int) + 32);
        }
        b as char
    } else {
        c
    }
}

/// The ASCII-lowercase characters of `s`.
pub fn lowercase_chars(s: &str) -> (v: Vec<char>)
    ensures
        v@ == ascii_lowercase(s@),
{
    let chars = chars_of(s);
    let mut v: Vec<char> = Vec::new();
    let mut i: usize = 0;
    while i < chars.len()
        invariant
            i <= chars.len(),
            chars@ == s@,
            v@ == ascii_lowercase(s@.take(i as int)),
        decreases chars.len() - i,
    {
        v.push(to_ascii_lower(chars[i]));
        proof {
            assert(ascii_lowercase(s@.take(i + 1)) =~= ascii_lowercase(s@.take(i as int)).push(ascii_lower(s@[i as int])));
        }
        i = i + 1;
    }
    proof {
        assert(s@.take(chars.len() as int) =~= s@);
    }
    v
}

fn chars_equal(a: &Vec<char>, lit: &[char]) -> (r: bool)
    ensures
        r == (a@ == lit@),
{
    if a.len() != lit.len() {
        return false;
    }
    let mut i: usize = 0;
    while i < a.len()
        invariant
            i <= a.len(),
            a.len() == lit@.len(),
            forall|j: int| 0 <= j < i ==> a@[j] == lit@[j],
        decreases a.len() - i,
    {
        if a[i] != lit[i] {
            return false;
        }
        i = i + 1;
    }
    proof {
        assert(a@ =~= lit@);
    }
    true
}

impl HttpMethod {
    /// Parses a method name, ignoring ASCII case.
    pub fn from_str(s: &str) -> (r: Result<HttpMethod, Error>)
        ensures
            match method_named(ascii_lowercase(s@)) {
                Some(m) => r == Ok::<HttpMethod, Error>(m),
                None => r matches Err(Error::UnknownMethod(t)) && t@ == s@,
            },
    {
        let lower = lowercase_chars(s);
        if chars_equal(&lower, &['g', 'e', 't']) {
            Ok(HttpMethod::Get)
        } else if chars_equal(&lower, &['p', 'o', 's', 't']) {
            Ok(HttpMethod::Post)
        } else if chars_equal(&lower, &['p', 'u', 't']) {
            Ok(HttpMethod::Put)
        } else if chars_equal(&lower, &['d', 'e', 'l', 'e', 't', 'e']) {
            Ok(HttpMethod::Delete)
        } else if chars_equal(&lower, &['p', 'a', 't', 'c', 'h']) {
            Ok(HttpMethod::Patch)
        } else if chars_equal(&lower, &['h', 'e', 'a', 'd']) {
            Ok(HttpMethod::Head)
        } else if chars_equal(&lower, &['o', 'p', 't', 'i', 'o', 'n', 's']) {
            Ok(HttpMethod::Options)
        } else {
            Err(Error::UnknownMethod(s.to_owned()))
        }
    }
}

} // verus!
