//! CSV field quoting as RFC 4180 asks for it.
use vstd::prelude::*;
use crate::text::{chars_of, push_char};

verus! {

/// Whether `c` forces a CSV field to be quoted.
pub open spec fn is_special(c: char) -> bool {
    c == '"' || c == ',' || c == '\n' || c == '\r'
}

/// Whether `s` holds a character that forces quoting.
pub open spec fn needs_quoting(s: Seq<char>) -> bool {
    exists|i: int| 0 <= i < s.len() && is_special(#[trigger] s[i])
}

/// `s` with every double quote doubled.
pub open spec fn doubled_quotes(s: Seq<char>) -> Seq<char>
    decreases s.len(),
{
    if s.len() == 0 {
        seq![]
    } else {
        doubled_quotes(s.drop_last()) + if s.last() == '"' { seq!['"', '"'] } else { seq![s.last()] }
    }
}

/// The CSV rendering of one field: unchanged when it holds no quote, comma
/// or line break; otherwise enclosed in double quotes with its double
/// quotes doubled.
pub open spec fn escaped(s: Seq<char>) -> Seq<char> {
    if needs_quoting(s) {
        seq!['"'] + doubled_quotes(s) + seq!['"']
    } else {
        s
    }
}

/// Appends the CSV rendering of `value` to `out`.
pub fn push_escaped(out: &mut String, value: &str)
    ensures
        final(out)@ == old(out)@ + escaped(value@),
{
    let chars = chars_of(value);
    let mut special = false;
    let mut body = String::new();
    let mut i: usize = 0;
    while i < chars.len()
        invariant
            i <= chars.len(),
            chars@ == value@,
            body@ == doubled_quotes(value@.take(i as int)),
            special <==> exists|j: int| 0 <= j < i && is_special(#[trigger] value@[j]),
        decreases chars.len() - i,
    {
        let c = chars[i];
        if c == '"' || c == ',' || c == '\n' || c == '\r' {
            special = true;
        }
        if c == '"' {
            push_char(&mut body, '"');
        }
        push_char(&mut body, c);
        proof {
            let t = value@.take(i + 1);
            assert(t.drop_last() =~= value@.take(i as int));
            assert(t.last() == c);
            if c == '"' {
                assert(body@ =~= doubled_quotes(value@.take(i as int)) + seq!['"', '"']);
            } else {
                assert(body@ =~= doubled_quotes(value@.take(i as int)) + seq![c]);
            }
        }
        i = i + 1;
    }
    proof {
        assert(value@.take(chars.len() as int) =~= value@);
    }
    if special {
        push_char(out, '"');
        crate::text::push_str(out, body.as_str());
        push_char(out, '"');
        proof {
            assert(final(out)@ =~= old(out)@ + (seq!['"'] + doubled_quotes(value@) + seq!['"']));
        }
    } else {
        proof {
            assert forall|j: int| 0 <= j < value@.len() implies !is_special(#[trigger] value@[j]) by {}
            lemma_no_quotes_unchanged(value@);
        }
        crate::text::push_str(out, value);
    }
}

proof fn lemma_no_quotes_unchanged(s: Seq<char>)
    requires
        forall|j: int| 0 <= j < s.len() ==> !is_special(#[trigger] s[j]),
    ensures
        doubled_quotes(s) == s,
    decreases s.len(),
{
    if s.len() > 0 {
        assert forall|j: int| 0 <= j < s.drop_last().len() implies !is_special(#[trigger] s.drop_last()[j]) by {
            assert(s.drop_last()[j] == s[j]);
        }
        lemma_no_quotes_unchanged(s.drop_last());
        assert(!is_special(s[s.len() - 1]));
        assert(s =~= s.drop_last() + seq![s.last()]);
    }
}

/// The CSV rendering of one field.
pub fn escape_field(value: &str) -> (s: String)
    ensures
        s@ == escaped(value@),
{
    let mut s = String::new();
    push_escaped(&mut s, value);
    s
}

/// The fields of a row joined by commas.
pub open spec fn join_fields(fields: Seq<Seq<char>>) -> Seq<char>
    decreases fields.len(),
{
    if fields.len() == 0 {
        seq![]
    } else if fields.len() == 1 {
        fields[0]
    } else {
        join_fields(fields.drop_last()).push(',') + fields.last()
    }
}

/// The CSV row of `fields`: each field escaped, joined by commas.
pub open spec fn csv_row(fields: Seq<Seq<char>>) -> Seq<char> {
    join_fields(fields.map_values(|f: Seq<char>| escaped(f)))
}

/// Renders `fields` as one CSV row (without the line break).
pub fn render_row(fields: &Vec<String>) -> (s: String)
    ensures
        s@ == csv_row(fields@.map_values(|f: String| f@)),
{
    let ghost views = fields@.map_values(|f: String| f@);
    let ghost esc = views.map_values(|f: Seq<char>| escaped(f));
    let mut s = String::new();
    let mut i: usize = 0;
    proof {
        assert(esc.take(0) =~= Seq::<Seq<char>>::empty());
    }
    while i < fields.len()
        invariant
            i <= fields.len(),
            views == fields@.map_values(|f: String| f@),
            esc == views.map_values(|f: Seq<char>| escaped(f)),
            s@ == join_fields(esc.take(i as int)),
        decreases fields.len() - i,
    {
        if i > 0 {
            push_char(&mut s, ',');
        }
        push_escaped(&mut s, fields[i].as_str());
        proof {
            let t = esc.take(i + 1);
            assert(t.drop_last() =~= esc.take(i as int));
            assert(t.last() == escaped(fields@[i as int]@));
            if i == 0 {
                assert(t.len() == 1);
                assert(s@ =~= t[0]);
            }
        }
        i = i + 1;
    }
    proof {
        assert(esc.take(fields.len() as int) =~= esc);
    }
    s
}

} // verus!
