//! What the values a script's functions return mean.
//!
//! The runtime calls a script function and hands the library what came
//! back: the returned value, or the runtime's message where the call raised
//! an error. The library decides what the value means.
use vstd::prelude::*;
use vstd::relations::injective_on;
use vstd::set_lib::{lemma_int_range, lemma_len_subset, lemma_map_size, set_int_range};
use crate::script::lua::{
    first_indexed, has_index, index_pos, index_value, is_indexed, take_index, LuaKind, LuaTable,
    LuaValue,
};
use crate::script::parser::{
    coerced_text, parse_spec, parse_static_spec, spec_outcome, static_spec_outcome,
    Error as SpecError,
};
use crate::script::spec::{LuaRequestSpec, RequestSpec};
use crate::text::i64_to_decimal;

verus! {

/// Why the value a script function returned was refused.
#[derive(Debug)]
pub enum CallError<F, J> {
    /// The runtime reported an error while the value was read.
    Lua(String),
    /// The call raised an error; the runtime's message is kept.
    Call(String),
    /// A top-level function returned something other than a table.
    NonTableReturn(LuaKind),
    /// A dynamic spec function returned neither a table nor a string,
    /// number or boolean.
    NotStringCoercible { value: LuaValue<F, J>, kind: LuaKind },
    /// A dynamic spec function returned a string that is not valid UTF-8.
    NonUTF8String { value: LuaValue<F, J> },
    /// A returned spec is malformed; `index` counts from one.
    InvalidSpec { index: usize, source: SpecError<F, J> },
}

/// What a dynamic spec function asks for.
#[derive(Debug)]
pub enum DynamicResolve<F, J> {
    /// A request, given as a static spec.
    Spec(RequestSpec<F, J>),
    /// A jump to the spec of that name.
    Jump(String),
}

/// Whether `n` is the length of the sequence part of `t`: the values under
/// `1..=n` are not `nil`, and the one under `n + 1` is.
pub open spec fn sequence_len<F, J>(t: LuaTable<F, J>, n: int) -> bool {
    &&& n >= 0
    &&& forall|k: int| 1 <= k <= n ==> !(#[trigger] index_value(t, k) is Nil)
    &&& index_value(t, n + 1) is Nil
}

/// Whether `r` is the outcome of a top-level function call that returned
/// `ret`: a table's sequence part, each value parsed as a spec, or the
/// error of the first value that does not parse.
pub open spec fn top_level_outcome<F, J>(
    ret: Result<LuaValue<F, J>, String>,
    r: Result<Vec<LuaRequestSpec<F, J>>, CallError<F, J>>,
) -> bool {
    match ret {
        Err(m) => r == Err::<Vec<LuaRequestSpec<F, J>>, CallError<F, J>>(CallError::Call(m)),
        Ok(LuaValue::Table(t)) => match r {
            Ok(specs) => sequence_len(t, specs@.len() as int) && forall|i: int|
                0 <= i < specs@.len() ==> spec_outcome(index_value(t, i + 1), Ok(#[trigger] specs@[i])),
            Err(CallError::InvalidSpec { index, source }) => {
                &&& 1 <= index
                &&& forall|k: int| 1 <= k < index ==> {
                    &&& !(#[trigger] index_value(t, k) is Nil)
                    &&& exists|s: LuaRequestSpec<F, J>| spec_outcome(index_value(t, k), Ok(s))
                }
                &&& !(index_value(t, index as int) is Nil)
                &&& spec_outcome(index_value(t, index as int), Err(source))
            },
            Err(_) => false,
        },
        Ok(other) => r == Err::<Vec<LuaRequestSpec<F, J>>, CallError<F, J>>(
            CallError::NonTableReturn(other.kind()),
        ),
    }
}

/// A table whose keys `1..=n` all hold an entry has at least `n` entries.
proof fn lemma_sequence_fits<F, J>(t: LuaTable<F, J>, n: int)
    requires
        n >= 0,
        forall|k: int| 1 <= k <= n ==> #[trigger] has_index(t, k),
    ensures
        n <= t.entries@.len(),
{
    let s = t.entries@;
    let keys = set_int_range(1, n + 1);
    let f = |k: int| index_pos(t, k);
    lemma_int_range(1, n + 1);
    assert forall|k: int| 1 <= k <= n implies first_indexed(s, k, #[trigger] index_pos(t, k)) by {
        assert(has_index(t, k));
    }
    assert(injective_on(f, keys)) by {
        assert forall|a: int, b: int| keys.contains(a) && keys.contains(b) && #[trigger] f(a) == #[trigger] f(b) implies a == b by {
            assert(first_indexed(s, a, index_pos(t, a)));
            assert(first_indexed(s, b, index_pos(t, b)));
            assert(is_indexed(s[index_pos(t, a)], a));
            assert(is_indexed(s[index_pos(t, b)], b));
        }
    }
    let positions = keys.map(f);
    lemma_map_size(keys, positions, f);
    let all = set_int_range(0, s.len() as int);
    lemma_int_range(0, s.len() as int);
    assert(positions.subset_of(all)) by {
        assert forall|p: int| positions.contains(p) implies all.contains(p) by {
            let k = choose|k: int| keys.contains(k) && f(k) == p;
            assert(first_indexed(s, k, index_pos(t, k)));
        }
    }
    lemma_len_subset(positions, all);
}

/// Reads what a top-level script function (`setup` or `requests`)
/// returned: a table whose sequence part lists the specs, each parsed in
/// turn.
pub fn top_level_specs<F, J>(ret: Result<LuaValue<F, J>, String>) -> (r: Result<Vec<LuaRequestSpec<F, J>>, CallError<F, J>>)
    ensures
        top_level_outcome(ret, r),
{
    let table = match ret {
        Err(m) => return Err(CallError::Call(m)),
        Ok(LuaValue::Table(t)) => t,
        Ok(other) => {
            let kind = other.kind_of();
            return Err(CallError::NonTableReturn(kind));
        },
    };
    let ghost t0 = table;
    let size = table.entries.len();
    let mut t = table;
    let mut specs: Vec<LuaRequestSpec<F, J>> = Vec::new();
    let mut k: i64 = 1;
    loop
        invariant_except_break
            1 <= k,
            k - 1 <= t0.entries@.len(),
            t0.entries@.len() == size,
            specs@.len() == k - 1,
            forall|j: int| 1 <= j < k ==> !(#[trigger] index_value(t0, j) is Nil),
            forall|j: int| 1 <= j < k ==> #[trigger] has_index(t0, j),
            forall|j: int| 0 <= j < specs@.len() ==> spec_outcome(index_value(t0, j + 1), Ok(#[trigger] specs@[j])),
            forall|m: int| m >= k ==> #[trigger] index_value(t, m) == index_value(t0, m),
            ret == Ok::<LuaValue<F, J>, String>(LuaValue::Table(t0)),
        ensures
            ret == Ok::<LuaValue<F, J>, String>(LuaValue::Table(t0)),
            sequence_len(t0, specs@.len() as int),
            forall|j: int| 0 <= j < specs@.len() ==> spec_outcome(index_value(t0, j + 1), Ok(#[trigger] specs@[j])),
        decreases t0.entries@.len() + 1 - k,
    {
        let v = take_index(&mut t, k);
        if let LuaValue::Nil = v {
            break;
        }
        proof {
            assert(has_index(t0, k as int));
            assert forall|j: int| 1 <= j <= k implies #[trigger] has_index(t0, j) by {}
            lemma_sequence_fits(t0, k as int);
        }
        let ghost value = v;
        match parse_spec(v) {
            Err(e) => {
                proof {
                    assert forall|j: int| 1 <= j < k implies {
                        &&& !(#[trigger] index_value(t0, j) is Nil)
                        &&& exists|s: LuaRequestSpec<F, J>| spec_outcome(index_value(t0, j), Ok(s))
                    } by {
                        assert(spec_outcome(index_value(t0, (j - 1) + 1), Ok(specs@[j - 1])));
                    }
                    assert(value == index_value(t0, k as int));
                }
                let index = k as usize;
                assert(index as int == k as int);
                return Err(CallError::InvalidSpec { index, source: e });
            },
            Ok(s) => {
                specs.push(s);
            },
        }
        if k == i64::MAX {
            proof {
                assert(!has_index(t0, k + 1)) by {
                    if has_index(t0, k + 1) {
                        let p = index_pos(t0, k + 1);
                        assert(is_indexed(t0.entries@[p], k + 1));
                    }
                }
            }
            break;
        }
        k = k + 1;
    }
    Ok(specs)
}

/// Whether `r` is what a dynamic spec's value `v`, when it is not a table,
/// asks for: a jump to the spec named by its text, where it is a string,
/// number or boolean.
pub open spec fn jump_outcome<F, J>(v: LuaValue<F, J>, r: Result<String, CallError<F, J>>) -> bool {
    match coerced_text(v) {
        Some(text) => r matches Ok(s) && s@ == text,
        None => if v matches LuaValue::Str(Err(_)) {
            r == Err::<String, CallError<F, J>>(CallError::NonUTF8String { value: v })
        } else {
            r == Err::<String, CallError<F, J>>(CallError::NotStringCoercible { value: v, kind: v.kind() })
        },
    }
}

/// The name of the spec a dynamic spec jumps to: the text of a string,
/// number or boolean.
fn jump_name<F, J>(v: LuaValue<F, J>) -> (r: Result<String, CallError<F, J>>)
    ensures
        jump_outcome(v, r),
{
    match v {
        LuaValue::Str(Ok(s)) => Ok(s),
        LuaValue::Integer(i) => Ok(i64_to_decimal(i)),
        LuaValue::Number(t) => Ok(t),
        LuaValue::Boolean(b) => {
            if b {
                Ok("true".to_owned())
            } else {
                Ok("false".to_owned())
            }
        },
        LuaValue::Str(Err(bytes)) => Err(CallError::NonUTF8String { value: LuaValue::Str(Err(bytes)) }),
        other => {
            let kind = other.kind_of();
            Err(CallError::NotStringCoercible { value: other, kind })
        },
    }
}

/// Whether `r` is the outcome of a dynamic spec call that returned `ret`.
pub open spec fn dynamic_outcome<F, J>(
    index: usize,
    ret: Result<LuaValue<F, J>, String>,
    r: Result<DynamicResolve<F, J>, CallError<F, J>>,
) -> bool {
    match ret {
        Err(m) => r == Err::<DynamicResolve<F, J>, CallError<F, J>>(CallError::Call(m)),
        Ok(LuaValue::Table(t)) => match r {
            Ok(DynamicResolve::Spec(x)) => static_spec_outcome(t, Ok(x)),
            Err(CallError::InvalidSpec { index: i, source }) => i == index && static_spec_outcome(t, Err(source)),
            _ => false,
        },
        Ok(v) => match r {
            Ok(DynamicResolve::Jump(s)) => jump_outcome(v, Ok(s)),
            Ok(DynamicResolve::Spec(_)) => false,
            Err(e) => jump_outcome(v, Err(e)),
        },
    }
}

/// Reads what a dynamic spec function returned: a table is a static spec
/// for this request; a string, number or boolean names the spec to jump
/// to. `index` is the position reported with a malformed spec.
pub fn dynamic_resolve<F, J>(index: usize, ret: Result<LuaValue<F, J>, String>) -> (r: Result<DynamicResolve<F, J>, CallError<F, J>>)
    ensures
        dynamic_outcome(index, ret, r),
{
    match ret {
        Err(m) => Err(CallError::Call(m)),
        Ok(LuaValue::Table(t)) => match parse_static_spec(t) {
            Ok(x) => Ok(DynamicResolve::Spec(x)),
            Err(e) => Err(CallError::InvalidSpec { index, source: e }),
        },
        Ok(v) => match jump_name(v) {
            Ok(s) => Ok(DynamicResolve::Jump(s)),
            Err(e) => Err(e),
        },
    }
}

} // verus!
