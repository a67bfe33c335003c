//! Lua values as the script logic reads them.
//!
//! The scripting runtime hands the library each value a script returns in
//! this form: the scalars as plain values, tables as their entries, and
//! functions as handles of type `F` that the library only carries. What the
//! runtime alone can compute about a value (the text it writes for a float,
//! the JSON its serde bridge makes of a value) travels with it.
use vstd::prelude::*;

verus! {

/// The kinds of Lua value.
#[derive(Debug, Clone, Copy, PartialEq, Eq, Structural)]
pub enum LuaKind {
    Nil,
    Boolean,
    LightUserData,
    Integer,
    Number,
    Str,
    Table,
    Function,
    Thread,
    UserData,
    ErrorValue,
    Other,
}

/// The name the runtime gives to a kind of value.
pub open spec fn kind_name(k: LuaKind) -> Seq<char> {
    match k {
        LuaKind::Nil => "nil"@,
        LuaKind::Boolean => "boolean"@,
        LuaKind::LightUserData => "lightuserdata"@,
        LuaKind::Integer => "integer"@,
        LuaKind::Number => "number"@,
        LuaKind::Str => "string"@,
        LuaKind::Table => "table"@,
        LuaKind::Function => "function"@,
        LuaKind::Thread => "thread"@,
        LuaKind::UserData => "userdata"@,
        LuaKind::ErrorValue => "error"@,
        LuaKind::Other => "other"@,
    }
}

impl LuaKind {
    /// The name the runtime gives to this kind of value.
    pub fn name(self) -> (s: &'static str)
        ensures
            s@ == kind_name(self),
    {
        match self {
            LuaKind::Nil => "nil",
            LuaKind::Boolean => "boolean",
            LuaKind::LightUserData => "lightuserdata",
            LuaKind::Integer => "integer",
            LuaKind::Number => "number",
            LuaKind::Str => "string",
            LuaKind::Table => "table",
            LuaKind::Function => "function",
            LuaKind::Thread => "thread",
            LuaKind::UserData => "userdata",
            LuaKind::ErrorValue => "error",
            LuaKind::Other => "other",
        }
    }
}

/// A Lua value. `F` is the runtime's handle of a function; `J` is a JSON
/// value as the runtime's serde bridge makes it.
#[derive(Debug)]
pub enum LuaValue<F, J> {
    Nil,
    Boolean(bool),
    Integer(i64),
    /// A float, held as the text the runtime writes for it.
    Number(String),
    /// A string: its text, or its bytes where they are not valid UTF-8.
    Str(Result<String, Vec<u8>>),
    Table(LuaTable<F, J>),
    Function(F),
    /// A value of a kind that no script logic accepts (userdata, threads,
    /// ...), with its kind.
    Other(LuaKind),
}

/// The key of a table entry.
#[derive(Debug)]
pub enum LuaKey {
    /// A string key that is valid UTF-8.
    Name(String),
    /// An integer key.
    Index(i64),
    /// Any other key: `Ok` holds the text the runtime turns it into (a float
    /// key), `Err` the runtime's message where it cannot turn it into a
    /// string.
    Other(Result<String, String>),
}

/// One entry of a table: its key, its value, and what the runtime's JSON
/// bridge makes of the value (`Err` holds the bridge's message).
#[derive(Debug)]
pub struct LuaEntry<F, J> {
    pub key: LuaKey,
    pub value: LuaValue<F, J>,
    pub json: Result<J, String>,
}

/// A Lua table, as its entries in the order in which the runtime walks them.
#[derive(Debug)]
pub struct LuaTable<F, J> {
    pub entries: Vec<LuaEntry<F, J>>,
}

impl<F, J> LuaValue<F, J> {
    /// The kind of this value.
    pub open spec fn kind(self) -> LuaKind {
        match self {
            LuaValue::Nil => LuaKind::Nil,
            LuaValue::Boolean(_) => LuaKind::Boolean,
            LuaValue::Integer(_) => LuaKind::Integer,
            LuaValue::Number(_) => LuaKind::Number,
            LuaValue::Str(_) => LuaKind::Str,
            LuaValue::Table(_) => LuaKind::Table,
            LuaValue::Function(_) => LuaKind::Function,
            LuaValue::Other(k) => k,
        }
    }

    /// The kind of this value.
    pub fn kind_of(&self) -> (k: LuaKind)
        ensures
            k == self.kind(),
    {
        match self {
            LuaValue::Nil => LuaKind::Nil,
            LuaValue::Boolean(_) => LuaKind::Boolean,
            LuaValue::Integer(_) => LuaKind::Integer,
            LuaValue::Number(_) => LuaKind::Number,
            LuaValue::Str(_) => LuaKind::Str,
            LuaValue::Table(_) => LuaKind::Table,
            LuaValue::Function(_) => LuaKind::Function,
            LuaValue::Other(k) => *k,
        }
    }
}

/// Whether `e` is the entry under the string key `name`.
pub open spec fn is_named<F, J>(e: LuaEntry<F, J>, name: Seq<char>) -> bool {
    e.key matches LuaKey::Name(n) && n@ == name
}

/// Whether `i` is the first entry of `s` under the string key `name`.
pub open spec fn first_named<F, J>(s: Seq<LuaEntry<F, J>>, name: Seq<char>, i: int) -> bool {
    &&& 0 <= i < s.len()
    &&& is_named(s[i], name)
    &&& forall|j: int| 0 <= j < i ==> !is_named(#[trigger] s[j], name)
}

/// Whether the table has an entry under the string key `name`.
pub open spec fn has_field<F, J>(t: LuaTable<F, J>, name: Seq<char>) -> bool {
    exists|i: int| first_named(t.entries@, name, i)
}

/// The position of the entry under the string key `name`.
pub open spec fn field_index<F, J>(t: LuaTable<F, J>, name: Seq<char>) -> int {
    choose|i: int| first_named(t.entries@, name, i)
}

/// The value under the string key `name`, `nil` where there is none
/// (`table.get(name)`).
pub open spec fn field_value<F, J>(t: LuaTable<F, J>, name: Seq<char>) -> LuaValue<F, J> {
    if has_field(t, name) {
        t.entries@[field_index(t, name)].value
    } else {
        LuaValue::Nil
    }
}

/// What the runtime's JSON bridge makes of the value under `name`, where
/// there is an entry under it.
pub open spec fn field_json<F, J>(t: LuaTable<F, J>, name: Seq<char>) -> Option<Result<J, String>> {
    if has_field(t, name) {
        Some(t.entries@[field_index(t, name)].json)
    } else {
        None
    }
}

proof fn lemma_first_named_unique<F, J>(s: Seq<LuaEntry<F, J>>, name: Seq<char>, i: int, j: int)
    requires
        first_named(s, name, i),
        first_named(s, name, j),
    ensures
        i == j,
{
    if i < j {
        assert(!is_named(s[i], name));
    } else if j < i {
        assert(!is_named(s[j], name));
    }
}

proof fn lemma_same_keys<F, J>(before: Seq<LuaEntry<F, J>>, after: Seq<LuaEntry<F, J>>, m: Seq<char>)
    requires
        after.len() == before.len(),
        forall|j: int| 0 <= j < after.len() ==> #[trigger] after[j].key == before[j].key,
    ensures
        forall|k: int| #[trigger] first_named(after, m, k) == first_named(before, m, k),
{
    assert forall|k: int| #[trigger] first_named(after, m, k) == first_named(before, m, k) by {
        if 0 <= k < after.len() {
            assert(after[k].key == before[k].key);
            assert forall|j: int| #![trigger after[j]] #![trigger before[j]] 0 <= j < k implies is_named(after[j], m) == is_named(before[j], m) by {
                assert(after[j].key == before[j].key);
            }
        }
    }
}

/// Finds the first entry under `name` without changing the table.
fn find_field<F, J>(t: &LuaTable<F, J>, name: &String) -> (r: Option<usize>)
    ensures
        match r {
            Some(i) => has_field(*t, name@) && i == field_index(*t, name@),
            None => !has_field(*t, name@),
        },
{
    let mut i: usize = 0;
    while i < t.entries.len()
        invariant
            i <= t.entries.len(),
            forall|j: int| 0 <= j < i ==> !is_named(#[trigger] t.entries@[j], name@),
        decreases t.entries.len() - i,
    {
        let found = match &t.entries[i].key {
            LuaKey::Name(n) => *n == *name,
            _ => false,
        };
        if found {
            proof {
                assert(first_named(t.entries@, name@, i as int));
                let k = field_index(*t, name@);
                lemma_first_named_unique(t.entries@, name@, i as int, k);
            }
            return Some(i);
        }
        i = i + 1;
    }
    proof {
        assert forall|k: int| !first_named(t.entries@, name@, k) by {
            if 0 <= k < t.entries@.len() {
                assert(!is_named(t.entries@[k], name@));
            }
        }
    }
    None
}

/// Takes the value under the string key `name` out of the table, leaving
/// `nil` in its place; `None` where the table has no entry under `name`.
/// What the table holds under every other name is unchanged.
pub fn take_field<F, J>(t: &mut LuaTable<F, J>, name: &String) -> (r: Option<(LuaValue<F, J>, Result<J, String>)>)
    ensures
        r == (if has_field(*old(t), name@) {
            Some((field_value(*old(t), name@), field_json(*old(t), name@).unwrap()))
        } else {
            None::<(LuaValue<F, J>, Result<J, String>)>
        }),
        forall|m: Seq<char>| m != name@ ==> {
            &&& #[trigger] field_value(*final(t), m) == field_value(*old(t), m)
            &&& field_json(*final(t), m) == field_json(*old(t), m)
            &&& has_field(*final(t), m) == has_field(*old(t), m)
        },
{
    match find_field(t, name) {
        None => None,
        Some(i) => {
            let ghost before = t.entries@;
            let mut value: LuaValue<F, J> = LuaValue::Nil;
            let mut json: Result<J, String> = Err(String::new());
            std::mem::swap(&mut value, &mut t.entries[i].value);
            std::mem::swap(&mut json, &mut t.entries[i].json);
            proof {
                let after = t.entries@;
                assert(after.len() == before.len());
                assert forall|j: int| 0 <= j < after.len() implies #[trigger] after[j].key == before[j].key by {}
                assert forall|j: int| 0 <= j < after.len() && j != i implies #[trigger] after[j] == before[j] by {}
                assert forall|m: Seq<char>| m != name@ implies {
                    &&& #[trigger] field_value(*t, m) == field_value(*old(t), m)
                    &&& field_json(*t, m) == field_json(*old(t), m)
                    &&& has_field(*t, m) == has_field(*old(t), m)
                } by {
                    lemma_same_keys(before, after, m);
                    if has_field(*old(t), m) {
                        let k = field_index(*old(t), m);
                        let k2 = field_index(*t, m);
                        assert(first_named(after, m, k));
                        lemma_first_named_unique(after, m, k, k2);
                        assert(k != i);
                    } else {
                        assert forall|k: int| !first_named(after, m, k) by {
                            assert(!first_named(before, m, k));
                        }
                    }
                }
            }
            Some((value, json))
        }
    }
}

/// Whether `e` is the entry under the integer key `k`.
pub open spec fn is_indexed<F, J>(e: LuaEntry<F, J>, k: int) -> bool {
    e.key matches LuaKey::Index(i) && i == k
}

/// Whether `i` is the first entry of `s` under the integer key `k`.
pub open spec fn first_indexed<F, J>(s: Seq<LuaEntry<F, J>>, k: int, i: int) -> bool {
    &&& 0 <= i < s.len()
    &&& is_indexed(s[i], k)
    &&& forall|j: int| 0 <= j < i ==> !is_indexed(#[trigger] s[j], k)
}

/// Whether the table has an entry under the integer key `k`.
pub open spec fn has_index<F, J>(t: LuaTable<F, J>, k: int) -> bool {
    exists|i: int| first_indexed(t.entries@, k, i)
}

/// The position of the entry under the integer key `k`.
pub open spec fn index_pos<F, J>(t: LuaTable<F, J>, k: int) -> int {
    choose|i: int| first_indexed(t.entries@, k, i)
}

/// The value under the integer key `k`, `nil` where there is none
/// (`table.raw_get(k)`).
pub open spec fn index_value<F, J>(t: LuaTable<F, J>, k: int) -> LuaValue<F, J> {
    if has_index(t, k) {
        t.entries@[index_pos(t, k)].value
    } else {
        LuaValue::Nil
    }
}

proof fn lemma_first_indexed_unique<F, J>(s: Seq<LuaEntry<F, J>>, k: int, i: int, j: int)
    requires
        first_indexed(s, k, i),
        first_indexed(s, k, j),
    ensures
        i == j,
{
    if i < j {
        assert(!is_indexed(s[i], k));
    } else if j < i {
        assert(!is_indexed(s[j], k));
    }
}

proof fn lemma_same_keys_indexed<F, J>(before: Seq<LuaEntry<F, J>>, after: Seq<LuaEntry<F, J>>, m: int)
    requires
        after.len() == before.len(),
        forall|j: int| 0 <= j < after.len() ==> #[trigger] after[j].key == before[j].key,
    ensures
        forall|k: int| #[trigger] first_indexed(after, m, k) == first_indexed(before, m, k),
{
    assert forall|k: int| #[trigger] first_indexed(after, m, k) == first_indexed(before, m, k) by {
        if 0 <= k < after.len() {
            assert(after[k].key == before[k].key);
            assert forall|j: int| #![trigger after[j]] #![trigger before[j]] 0 <= j < k implies is_indexed(after[j], m) == is_indexed(before[j], m) by {
                assert(after[j].key == before[j].key);
            }
        }
    }
}

/// Finds the first entry under the integer key `k`.
fn find_index<F, J>(t: &LuaTable<F, J>, k: i64) -> (r: Option<usize>)
    ensures
        match r {
            Some(i) => has_index(*t, k as int) && i == index_pos(*t, k as int),
            None => !has_index(*t, k as int),
        },
{
    let mut i: usize = 0;
    while i < t.entries.len()
        invariant
            i <= t.entries.len(),
            forall|j: int| 0 <= j < i ==> !is_indexed(#[trigger] t.entries@[j], k as int),
        decreases t.entries.len() - i,
    {
        let found = match &t.entries[i].key {
            LuaKey::Index(n) => *n == k,
            _ => false,
        };
        if found {
            proof {
                assert(first_indexed(t.entries@, k as int, i as int));
                let p = index_pos(*t, k as int);
                lemma_first_indexed_unique(t.entries@, k as int, i as int, p);
            }
            return Some(i);
        }
        i = i + 1;
    }
    proof {
        assert forall|p: int| !first_indexed(t.entries@, k as int, p) by {
            if 0 <= p < t.entries@.len() {
                assert(!is_indexed(t.entries@[p], k as int));
            }
        }
    }
    None
}

/// Takes the value under the integer key `k` out of the table, leaving
/// `nil` in its place (`nil` where there is no such entry). What the table
/// holds under every other integer key is unchanged.
pub fn take_index<F, J>(t: &mut LuaTable<F, J>, k: i64) -> (r: LuaValue<F, J>)
    ensures
        r == index_value(*old(t), k as int),
        forall|m: int| m != k ==> #[trigger] index_value(*final(t), m) == index_value(*old(t), m),
{
    match find_index(t, k) {
        None => LuaValue::Nil,
        Some(i) => {
            let ghost before = t.entries@;
            let mut value: LuaValue<F, J> = LuaValue::Nil;
            std::mem::swap(&mut value, &mut t.entries[i].value);
            proof {
                let after = t.entries@;
                assert(after.len() == before.len());
                assert forall|j: int| 0 <= j < after.len() implies #[trigger] after[j].key == before[j].key by {}
                assert forall|j: int| 0 <= j < after.len() && j != i implies #[trigger] after[j] == before[j] by {}
                assert forall|m: int| m != k implies #[trigger] index_value(*t, m) == index_value(*old(t), m) by {
                    lemma_same_keys_indexed(before, after, m);
                    if has_index(*old(t), m) {
                        let p = index_pos(*old(t), m);
                        let p2 = index_pos(*t, m);
                        assert(first_indexed(after, m, p));
                        lemma_first_indexed_unique(after, m, p, p2);
                        assert(p != i);
                    } else {
                        assert forall|p: int| !first_indexed(after, m, p) by {
                            assert(!first_indexed(before, m, p));
                        }
                    }
                }
            }
            value
        }
    }
}

} // verus!
