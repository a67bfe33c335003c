//! The order in which a virtual user runs the specs of its script.
//!
//! Setup specs run once, in declaration order. User specs form a cycle:
//! after the last one the first comes again. A dynamic spec is a script
//! function; calling it either produces a spec or names another spec to
//! jump to. The scripting runtime makes those calls; this module decides
//! which spec comes next, which function to call, and where the cursors
//! move.
use vstd::prelude::*;
use crate::script::calls::{CallError, DynamicResolve};
use crate::script::loader::{LoadError, ScriptFn};
use crate::script::spec::{LuaRequestSpec, RequestSpec, SpecType};
use crate::text::chars_of;
use crate::transaction::SpecId;

verus! {

/// Whether a spec is used as parsed or computed by a call.
#[derive(Debug, Clone, Copy, PartialEq, Eq, Structural)]
pub enum SpecKind {
    Static,
    Dynamic,
}

/// The kind of a script spec.
pub open spec fn kind_of<F, J>(s: LuaRequestSpec<F, J>) -> SpecKind {
    match s.spec {
        SpecType::Static(_) => SpecKind::Static,
        SpecType::Dynamic(_) => SpecKind::Dynamic,
    }
}

/// The name of a script spec as characters.
pub open spec fn name_of<F, J>(s: LuaRequestSpec<F, J>) -> Option<Seq<char>> {
    match s.name {
        Some(n) => Some(n@),
        None => None,
    }
}

/// The last position in `names` that holds `name` (later entries take
/// precedence, as when the names are collected into a map in order).
pub open spec fn last_named(names: Seq<Option<Seq<char>>>, name: Seq<char>) -> Option<int>
    decreases names.len(),
{
    if names.len() == 0 {
        None
    } else if names.last() == Some(name) {
        Some(names.len() - 1)
    } else {
        last_named(names.drop_last(), name)
    }
}

/// `last_named` finds the last position that holds the name, and finds
/// none only where no position holds it.
pub proof fn lemma_last_named_is_named(names: Seq<Option<Seq<char>>>, name: Seq<char>)
    ensures
        match last_named(names, name) {
            Some(i) => 0 <= i < names.len() && names[i] == Some(name)
                && forall|j: int| i < j < names.len() ==> names[j] != Some(name),
            None => forall|j: int| 0 <= j < names.len() ==> names[j] != Some(name),
        },
    decreases names.len(),
{
    if names.len() > 0 {
        lemma_last_named_is_named(names.drop_last(), name);
        assert forall|j: int| 0 <= j < names.len() - 1 implies names.drop_last()[j] == names[j] by {}
    }
}

/// An optional string as characters.
pub open spec fn opt_view(n: Option<String>) -> Option<Seq<char>> {
    match n {
        Some(s) => Some(s@),
        None => None,
    }
}

/// The kinds and names of a list of specs, for choosing among them.
#[derive(Debug, Clone)]
pub struct SpecTable {
    kinds: Vec<SpecKind>,
    names: Vec<Option<String>>,
}

/// A decision of what to do next.
#[derive(Debug, Clone, Copy, PartialEq, Eq, Structural)]
pub enum Step {
    /// Use the static spec at `index` of the list.
    Use { index: usize },
    /// Call the dynamic spec's function at `index`.
    Call { index: usize },
    /// Use the spec that the call of the function at `index` produced.
    Produced { index: usize },
}

/// What a call of a dynamic spec's function gave.
#[derive(Debug, Clone, PartialEq, Eq)]
pub enum CallOutcome {
    /// A request spec (kept by the caller).
    Spec,
    /// The name of a spec to jump to.
    Jump(String),
}

/// Why a dynamic spec could not be resolved; indices count from one.
#[derive(Debug)]
pub enum ResolveError<E> {
    /// The function of the dynamic spec at `index` failed.
    Dynamic { index: usize, source: E },
    /// The dynamic spec at `index` jumped to a name no spec has.
    UnknownJump { index: usize, jump: String },
}

impl SpecTable {
    pub closed spec fn spec_kinds(self) -> Seq<SpecKind> {
        self.kinds@
    }

    pub closed spec fn spec_names(self) -> Seq<Option<Seq<char>>> {
        Seq::new(self.names@.len(), |i: int| opt_view(self.names@[i]))
    }

    pub closed spec fn wf(self) -> bool {
        self.kinds@.len() == self.names@.len()
    }

    pub open spec fn spec_len(self) -> nat {
        self.spec_kinds().len()
    }

    /// The table of `specs`: their kinds and names, in order.
    pub fn new<F, J>(specs: &Vec<LuaRequestSpec<F, J>>) -> (t: Self)
        ensures
            t.wf(),
            t.spec_len() == specs@.len(),
            t.spec_names().len() == specs@.len(),
            forall|i: int| 0 <= i < specs@.len() ==> #[trigger] t.spec_kinds()[i] == kind_of(specs@[i]),
            forall|i: int| 0 <= i < specs@.len() ==> #[trigger] t.spec_names()[i] == name_of(specs@[i]),
    {
        let mut kinds: Vec<SpecKind> = Vec::new();
        let mut names: Vec<Option<String>> = Vec::new();
        let mut i: usize = 0;
        while i < specs.len()
            invariant
                i <= specs.len(),
                kinds@.len() == i,
                names@.len() == i,
                forall|k: int| 0 <= k < i ==> #[trigger] kinds@[k] == kind_of(specs@[k]),
                forall|k: int| 0 <= k < i ==> #[trigger] opt_view(names@[k]) == name_of(specs@[k]),
            decreases specs.len() - i,
        {
            let spec = &specs[i];
            let kind = match &spec.spec {
                SpecType::Static(_) => SpecKind::Static,
                SpecType::Dynamic(_) => SpecKind::Dynamic,
            };
            let name = match &spec.name {
                Some(n) => Some(n.clone()),
                None => None,
            };
            kinds.push(kind);
            names.push(name);
            i = i + 1;
        }
        SpecTable { kinds, names }
    }

    /// The number of specs.
    pub fn len(&self) -> (n: usize)
        requires
            self.wf(),
        ensures
            n == self.spec_len(),
    {
        self.kinds.len()
    }

    /// The position of the last spec named `name`.
    pub fn lookup(&self, name: &str) -> (r: Option<usize>)
        requires
            self.wf(),
        ensures
            match last_named(self.spec_names(), name@) {
                Some(i) => r == Some(i as usize),
                None => r is None,
            },
    {
        let key = chars_of(name);
        let mut i = self.names.len();
        let ghost all = self.spec_names();
        proof {
            assert(all.take(i as int) =~= all);
        }
        while i > 0
            invariant
                i <= self.names.len(),
                all == self.spec_names(),
                all.len() == self.names@.len(),
                key@ == name@,
                last_named(all, name@) == last_named(all.take(i as int), name@),
            decreases i,
        {
            proof {
                assert(all.take(i as int).last() == opt_view(self.names@[i - 1]));
            }
            let j = i - 1;
            let hit = match &self.names[j] {
                Some(n) => {
                    let c = chars_of(n.as_str());
                    chars_match(&c, &key)
                },
                None => false,
            };
            proof {
                assert(all.take(i as int).drop_last() =~= all.take(j as int));
                assert(all.take(i as int).last() == all[j as int]);
            }
            if hit {
                return Some(j);
            }
            i = j;
        }
        proof {
            assert(all.take(0) =~= Seq::<Option<Seq<char>>>::empty());
        }
        None
    }

    /// The first step of resolving the spec at `index`: use it when it is
    /// static, call its function when it is dynamic.
    pub fn start(&self, index: usize) -> (s: Step)
        requires
            self.wf(),
            index < self.spec_len(),
        ensures
            s == (if self.spec_kinds()[index as int] == SpecKind::Static {
                Step::Use { index }
            } else {
                Step::Call { index }
            }),
    {
        match self.kinds[index] {
            SpecKind::Static => Step::Use { index },
            SpecKind::Dynamic => Step::Call { index },
        }
    }

    /// The step after the function of the dynamic spec at `index` returned
    /// `outcome`: a produced spec is used as the spec at `index`; a jump
    /// continues at the last spec of that name, which is used when static and
    /// called when dynamic; a jump to an unknown name fails.
    pub fn after_call<E>(&self, index: usize, outcome: CallOutcome) -> (r: Result<Step, ResolveError<E>>)
        requires
            self.wf(),
            index < self.spec_len(),
        ensures
            outcome is Spec ==> r == Ok::<Step, ResolveError<E>>(Step::Produced { index }),
            match outcome {
                CallOutcome::Spec => true,
                CallOutcome::Jump(name) => match last_named(self.spec_names(), name@) {
                    Some(j) => 0 <= j < self.spec_len() && (r matches Ok(s) && s == (if self.spec_kinds()[j] == SpecKind::Static {
                        Step::Use { index: j as usize }
                    } else {
                        Step::Call { index: j as usize }
                    })),
                    None => (r matches Err(ResolveError::UnknownJump { index: i, jump }) && i == index + 1 && jump@ == name@),
                },
            },
    {
        match outcome {
            CallOutcome::Spec => Ok(Step::Produced { index }),
            CallOutcome::Jump(name) => {
                match self.lookup(name.as_str()) {
                    Some(j) => {
                        let n = self.kinds.len();
                        proof {
                            lemma_last_named_is_named(self.spec_names(), name@);
                            assert(n == self.spec_len());
                            let k = last_named(self.spec_names(), name@).unwrap();
                            assert(0 <= k < self.spec_len());
                            assert(j as int == k);
                        }
                        Ok(self.start(j))
                    },
                    None => {
                        assert(index < self.kinds.len());
                        Err(ResolveError::UnknownJump { index: index + 1, jump: name })
                    },
                }
            },
        }
    }
}

fn chars_match(a: &Vec<char>, b: &Vec<char>) -> (r: bool)
    ensures
        r == (a@ == b@),
{
    if a.len() != b.len() {
        return false;
    }
    let mut i: usize = 0;
    while i < a.len()
        invariant
            i <= a.len(),
            a.len() == b.len(),
            forall|j: int| 0 <= j < i ==> a@[j] == b@[j],
        decreases a.len() - i,
    {
        if a[i] != b[i] {
            return false;
        }
        i = i + 1;
    }
    proof {
        assert(a@ =~= b@);
    }
    true
}

/// The user-spec list was empty.
#[derive(Debug, Clone, Copy, PartialEq, Eq, Structural)]
pub struct EmptyUserSpecs;

/// Where a script runner stands in its setup list and its user cycle.
#[derive(Debug, Clone)]
pub struct ScriptCursor {
    setup: SpecTable,
    setup_cursor: usize,
    user: SpecTable,
    user_cursor: usize,
}

/// Captures the user cursor before a user spec was chosen, so that the
/// choice can be undone.
#[derive(Debug)]
pub struct RevertHandle {
    previous_cursor: usize,
}

impl RevertHandle {
    pub closed spec fn spec_previous(self) -> usize {
        self.previous_cursor
    }

    /// Puts the runner's user cursor back where it was before the call that
    /// produced this handle.
    pub fn revert(self, runner: &mut ScriptCursor)
        requires
            old(runner).wf(),
            self.spec_previous() < old(runner).spec_user().spec_len(),
        ensures
            final(runner).wf(),
            final(runner).spec_user_cursor() == self.spec_previous(),
            final(runner).spec_setup_cursor() == old(runner).spec_setup_cursor(),
            final(runner).spec_setup() == old(runner).spec_setup(),
            final(runner).spec_user() == old(runner).spec_user(),
    {
        runner.user_cursor = self.previous_cursor;
    }
}

impl ScriptCursor {
    pub closed spec fn spec_setup(self) -> SpecTable {
        self.setup
    }

    pub closed spec fn spec_user(self) -> SpecTable {
        self.user
    }

    pub closed spec fn spec_setup_cursor(self) -> usize {
        self.setup_cursor
    }

    pub closed spec fn spec_user_cursor(self) -> usize {
        self.user_cursor
    }

    /// The user cycle is not empty and its cursor points into it.
    pub open spec fn wf(self) -> bool {
        &&& self.spec_setup().wf()
        &&& self.spec_user().wf()
        &&& self.spec_user().spec_len() > 0
        &&& self.spec_user_cursor() < self.spec_user().spec_len()
    }

    /// Cursors at the start of both lists; fails when there are no user
    /// specs.
    pub fn new(setup: SpecTable, user: SpecTable) -> (r: Result<Self, EmptyUserSpecs>)
        requires
            setup.wf(),
            user.wf(),
        ensures
            user.spec_len() == 0 ==> r is Err,
            user.spec_len() > 0 ==> (r matches Ok(c) && c.wf()
                && c.spec_setup() == setup && c.spec_user() == user
                && c.spec_setup_cursor() == 0 && c.spec_user_cursor() == 0),
    {
        if user.len() == 0 {
            return Err(EmptyUserSpecs);
        }
        Ok(ScriptCursor { setup, setup_cursor: 0, user, user_cursor: 0 })
    }

    /// The first step towards the next setup spec; `None` once every setup
    /// spec has been used.
    pub fn next_setup(&self) -> (s: Option<Step>)
        requires
            self.wf(),
        ensures
            self.spec_setup_cursor() >= self.spec_setup().spec_len() ==> s is None,
            self.spec_setup_cursor() < self.spec_setup().spec_len() ==> s == Some(
                if self.spec_setup().spec_kinds()[self.spec_setup_cursor() as int] == SpecKind::Static {
                    Step::Use { index: self.spec_setup_cursor() }
                } else {
                    Step::Call { index: self.spec_setup_cursor() }
                },
            ),
    {
        if self.setup.len() == 0 || self.setup_cursor >= self.setup.len() {
            return None;
        }
        Some(self.setup.start(self.setup_cursor))
    }

    /// The first step towards the next user spec, at the user cursor.
    pub fn next_user(&self) -> (s: Step)
        requires
            self.wf(),
        ensures
            s == (if self.spec_user().spec_kinds()[self.spec_user_cursor() as int] == SpecKind::Static {
                Step::Use { index: self.spec_user_cursor() }
            } else {
                Step::Call { index: self.spec_user_cursor() }
            }),
    {
        self.user.start(self.user_cursor)
    }

    /// The table of setup specs.
    pub fn setup_table(&self) -> (t: &SpecTable)
        ensures
            *t == self.spec_setup(),
    {
        &self.setup
    }

    /// The table of user specs.
    pub fn user_table(&self) -> (t: &SpecTable)
        ensures
            *t == self.spec_user(),
    {
        &self.user
    }

    /// Records that the setup spec at `index` was used: the setup cursor
    /// moves past it.
    pub fn commit_setup(&mut self, index: usize) -> (id: SpecId)
        requires
            old(self).wf(),
            index < old(self).spec_setup().spec_len(),
        ensures
            final(self).wf(),
            id.spec_get() == index,
            final(self).spec_setup_cursor() == index + 1,
            final(self).spec_user_cursor() == old(self).spec_user_cursor(),
            final(self).spec_setup() == old(self).spec_setup(),
            final(self).spec_user() == old(self).spec_user(),
    {
        assert(index < self.setup.kinds.len());
        self.setup_cursor = index + 1;
        SpecId::new(index)
    }

    /// Records that the user spec at `index` was used: the user cursor moves
    /// past it, wrapping after the last spec. The handle remembers the
    /// cursor from before.
    pub fn commit_user(&mut self, index: usize) -> (r: (RevertHandle, SpecId))
        requires
            old(self).wf(),
            index < old(self).spec_user().spec_len(),
        ensures
            final(self).wf(),
            r.0.spec_previous() == old(self).spec_user_cursor(),
            r.1.spec_get() == index,
            final(self).spec_user_cursor() == (index + 1) % (old(self).spec_user().spec_len() as int),
            final(self).spec_setup_cursor() == old(self).spec_setup_cursor(),
            final(self).spec_setup() == old(self).spec_setup(),
            final(self).spec_user() == old(self).spec_user(),
    {
        let previous_cursor = self.user_cursor;
        let len = self.user.len();
        self.user_cursor = (index + 1) % len;
        (RevertHandle { previous_cursor }, SpecId::new(index))
    }
}

/// Choosing a user spec and then reverting its handle leaves the runner as
/// it was: `before` is the runner before `commit_user(index)`, `middle` the
/// runner after it with `handle` the handle it returned, and `after` the
/// runner once `handle` was reverted on `middle`. Each state is described
/// by what the two operations ensure.
pub proof fn lemma_revert_undoes_commit(
    before: ScriptCursor,
    index: usize,
    middle: ScriptCursor,
    handle: RevertHandle,
    after: ScriptCursor,
)
    requires
        before.wf(),
        index < before.spec_user().spec_len(),
        handle.spec_previous() == before.spec_user_cursor(),
        middle.spec_user_cursor() == (index + 1) % (before.spec_user().spec_len() as int),
        middle.spec_setup_cursor() == before.spec_setup_cursor(),
        middle.spec_setup() == before.spec_setup(),
        middle.spec_user() == before.spec_user(),
        after.spec_user_cursor() == handle.spec_previous(),
        after.spec_setup_cursor() == middle.spec_setup_cursor(),
        after.spec_setup() == middle.spec_setup(),
        after.spec_user() == middle.spec_user(),
    ensures
        after.spec_user_cursor() == before.spec_user_cursor(),
        after.spec_setup_cursor() == before.spec_setup_cursor(),
        after.spec_setup() == before.spec_setup(),
        after.spec_user() == before.spec_user(),
        after.wf(),
{
}

/// When every user spec is static, the `k`-th user spec chosen from a fresh
/// runner is the one at `k` modulo the number of user specs: moving the
/// cursor past the spec at `k % n` puts it at `(k + 1) % n`.
pub proof fn lemma_static_user_cycle(k: nat, n: nat)
    requires
        n > 0,
    ensures
        ((k % n) as int + 1) % (n as int) == ((k as int) + 1) % (n as int),
        k % n < n,
{
    vstd::arithmetic::div_mod::lemma_add_mod_noop(k as int, 1, n as int);
    if n == 1 {
        vstd::arithmetic::div_mod::lemma_mod_self_0(1);
    } else {
        vstd::arithmetic::div_mod::lemma_small_mod(1, n);
    }
    vstd::arithmetic::div_mod::lemma_mod_bound(k as int, n as int);
}

/// When every user spec is static, choosing user specs one after another
/// from a runner whose user cursor is at the first spec visits them in
/// declaration order and wraps around forever: the `k`-th choice (counting
/// from zero) uses the spec at `k % n`. `cursors[k]` is the runner before
/// the `k`-th choice; that choice takes the step `next_user` gives there,
/// which uses the spec at the cursor, and commits it with `commit_user`,
/// which gives `cursors[k + 1]`. Each state is described by what the two
/// operations ensure.
pub proof fn lemma_static_user_order(cursors: Seq<ScriptCursor>)
    requires
        cursors.len() > 0,
        cursors[0].wf(),
        cursors[0].spec_user_cursor() == 0,
        forall|i: int| 0 <= i < cursors[0].spec_user().spec_len() ==>
            #[trigger] cursors[0].spec_user().spec_kinds()[i] == SpecKind::Static,
        forall|k: int| 0 <= k < cursors.len() - 1 ==> {
            &&& (#[trigger] cursors[k + 1]).spec_user() == cursors[k].spec_user()
            &&& cursors[k + 1].spec_user_cursor() == (cursors[k].spec_user_cursor() + 1) % (cursors[k].spec_user().spec_len() as int)
        },
    ensures
        forall|k: int| 0 <= k < cursors.len() ==> {
            let n = cursors[0].spec_user().spec_len() as int;
            &&& (#[trigger] cursors[k]).spec_user() == cursors[0].spec_user()
            &&& cursors[k].spec_user_cursor() == k % n
            &&& cursors[k].spec_user().spec_kinds()[cursors[k].spec_user_cursor() as int] == SpecKind::Static
        },
    decreases cursors.len(),
{
    let n = cursors[0].spec_user().spec_len() as int;
    if cursors.len() > 1 {
        let init = cursors.drop_last();
        assert forall|k: int| 0 <= k < init.len() - 1 implies {
            &&& (#[trigger] init[k + 1]).spec_user() == init[k].spec_user()
            &&& init[k + 1].spec_user_cursor() == (init[k].spec_user_cursor() + 1) % (init[k].spec_user().spec_len() as int)
        } by {
            assert(init[k + 1] == cursors[k + 1] && init[k] == cursors[k]);
        }
        lemma_static_user_order(init);
        let last = cursors.len() - 1;
        assert(init[last - 1] == cursors[last - 1]);
        let prev = last - 1;
        assert(cursors[prev + 1].spec_user() == cursors[prev].spec_user());
        assert(prev + 1 == last);
        lemma_static_user_cycle((last - 1) as nat, n as nat);
        vstd::arithmetic::div_mod::lemma_mod_bound(last, n);
        assert forall|k: int| 0 <= k < cursors.len() implies {
            &&& (#[trigger] cursors[k]).spec_user() == cursors[0].spec_user()
            &&& cursors[k].spec_user_cursor() == k % n
            &&& cursors[k].spec_user().spec_kinds()[cursors[k].spec_user_cursor() as int] == SpecKind::Static
        } by {
            if k < last {
                assert(init[k] == cursors[k]);
            }
        }
    } else {
        vstd::arithmetic::div_mod::lemma_small_mod(0, n as nat);
    }
}

/// Why a script runner could not be set up or could not give the next
/// spec.
#[derive(Debug)]
pub enum ScriptError<F, J> {
    /// The script module was refused.
    ScriptLoad(LoadError),
    /// Calling a top-level function, or reading what it returned, failed.
    TopLevelFunctionCall { function: ScriptFn, source: CallError<F, J> },
    /// The `requests` function returned no spec.
    EmptyUserSpecs,
    /// A setup spec could not be resolved.
    SetupSpec(ResolveError<CallError<F, J>>),
    /// A user spec could not be resolved.
    UserSpec(ResolveError<CallError<F, J>>),
    /// A spec's `extract` function raised an error; the runtime's message.
    HttpExtract(String),
}

/// The specs a top-level function gave, or the error naming the function.
pub fn top_level_result<F, J>(function: ScriptFn, r: Result<Vec<LuaRequestSpec<F, J>>, CallError<F, J>>) -> (out: Result<Vec<LuaRequestSpec<F, J>>, ScriptError<F, J>>)
    ensures
        match r {
            Ok(v) => out == Ok::<Vec<LuaRequestSpec<F, J>>, ScriptError<F, J>>(v),
            Err(e) => out == Err::<Vec<LuaRequestSpec<F, J>>, ScriptError<F, J>>(
                ScriptError::TopLevelFunctionCall { function, source: e },
            ),
        },
{
    match r {
        Ok(v) => Ok(v),
        Err(e) => Err(ScriptError::TopLevelFunctionCall { function, source: e }),
    }
}

/// The cursor over the setup and user specs a script gave; refused when
/// there is no user spec.
pub fn cursor_for<F, J>(setup: &Vec<LuaRequestSpec<F, J>>, user: &Vec<LuaRequestSpec<F, J>>) -> (r: Result<ScriptCursor, ScriptError<F, J>>)
    ensures
        user@.len() == 0 ==> r matches Err(ScriptError::EmptyUserSpecs),
        user@.len() > 0 ==> (r matches Ok(c) && c.wf() && c.spec_setup_cursor() == 0 && c.spec_user_cursor() == 0
            && c.spec_setup().spec_len() == setup@.len() && c.spec_user().spec_len() == user@.len()
            && (forall|i: int| 0 <= i < setup@.len() ==> #[trigger] c.spec_setup().spec_kinds()[i] == kind_of(setup@[i])
                && c.spec_setup().spec_names()[i] == name_of(setup@[i]))
            && (forall|i: int| 0 <= i < user@.len() ==> #[trigger] c.spec_user().spec_kinds()[i] == kind_of(user@[i])
                && c.spec_user().spec_names()[i] == name_of(user@[i]))),
{
    let setup_table = SpecTable::new(setup);
    let user_table = SpecTable::new(user);
    match ScriptCursor::new(setup_table, user_table) {
        Ok(c) => Ok(c),
        Err(_) => Err(ScriptError::EmptyUserSpecs),
    }
}

/// What the call of the dynamic spec at `index` (from zero) gave, as the
/// resolution goes on with it: a produced spec (handed back to be used), a
/// jump, or the error reported for the spec at position `index + 1`.
pub fn call_outcome<F, J>(index: usize, r: Result<DynamicResolve<F, J>, CallError<F, J>>) -> (out: Result<(CallOutcome, Option<RequestSpec<F, J>>), ResolveError<CallError<F, J>>>)
    requires
        index < usize::MAX,
    ensures
        match r {
            Ok(DynamicResolve::Spec(s)) => out == Ok::<(CallOutcome, Option<RequestSpec<F, J>>), ResolveError<CallError<F, J>>>((CallOutcome::Spec, Some(s))),
            Ok(DynamicResolve::Jump(name)) => out matches Ok((CallOutcome::Jump(n), None)) && n == name,
            Err(e) => out matches Err(ResolveError::Dynamic { index: i, source }) && i == index + 1 && source == e,
        },
{
    match r {
        Ok(DynamicResolve::Spec(s)) => Ok((CallOutcome::Spec, Some(s))),
        Ok(DynamicResolve::Jump(name)) => Ok((CallOutcome::Jump(name), None)),
        Err(e) => Err(ResolveError::Dynamic { index: index + 1, source: e }),
    }
}

} // verus!
