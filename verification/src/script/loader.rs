//! The shape of a script module.
//!
//! A script is a Lua chunk that returns a table with two functions, `setup`
//! and `requests`. The runtime compiles and runs the chunk; the library
//! checks what it returned.
use vstd::prelude::*;
use crate::script::lua::{field_value, take_field, LuaKind, LuaValue};

verus! {

/// The two functions a script module provides.
#[derive(Debug, Clone, Copy, PartialEq, Eq, Structural)]
pub enum ScriptFn {
    /// Returns the specs run once, in order, before the load.
    Setup,
    /// Returns the specs each virtual user cycles through.
    Requests,
}

/// The key under which a module holds the function.
pub open spec fn script_fn_key(f: ScriptFn) -> Seq<char> {
    match f {
        ScriptFn::Setup => "setup"@,
        ScriptFn::Requests => "requests"@,
    }
}

impl ScriptFn {
    /// The key under which a module holds the function.
    pub fn key(self) -> (s: &'static str)
        ensures
            s@ == script_fn_key(self),
    {
        match self {
            ScriptFn::Setup => "setup",
            ScriptFn::Requests => "requests",
        }
    }
}

/// Why a script module was refused.
#[derive(Debug)]
pub enum LoadError {
    /// The runtime reported an error while the module was read.
    Lua(String),
    /// The chunk failed to compile or to run; the runtime's message is kept.
    ModuleLoad(String),
    /// The chunk returned something other than a table.
    ModuleReturn(LuaKind),
    /// The module has no such function.
    MissingFn(ScriptFn),
    /// The module holds something other than a function under the key.
    TableValueNotFunction { key: ScriptFn, kind: LuaKind },
}

/// The two functions of a script module, as handles of the runtime.
#[derive(Debug)]
pub struct UserScript<F> {
    pub setup: F,
    pub requests: F,
}

/// The outcome of reading function `which` from a module entry holding `v`.
pub open spec fn function_result<F, J>(v: LuaValue<F, J>, which: ScriptFn) -> Result<F, LoadError> {
    match v {
        LuaValue::Nil => Err(LoadError::MissingFn(which)),
        LuaValue::Function(f) => Ok(f),
        other => Err(LoadError::TableValueNotFunction { key: which, kind: other.kind() }),
    }
}

/// The outcome of reading a module that the chunk returned (or the
/// runtime's message where compiling or running it failed).
pub open spec fn module_result<F, J>(module: Result<LuaValue<F, J>, String>) -> Result<UserScript<F>, LoadError> {
    match module {
        Err(m) => Err(LoadError::ModuleLoad(m)),
        Ok(LuaValue::Table(t)) => match function_result(field_value(t, script_fn_key(ScriptFn::Setup)), ScriptFn::Setup) {
            Err(e) => Err(e),
            Ok(setup) => match function_result(
                field_value(t, script_fn_key(ScriptFn::Requests)),
                ScriptFn::Requests,
            ) {
                Err(e) => Err(e),
                Ok(requests) => Ok(UserScript { setup, requests }),
            },
        },
        Ok(other) => Err(LoadError::ModuleReturn(other.kind())),
    }
}

fn read_function<F, J>(v: LuaValue<F, J>, which: ScriptFn) -> (r: Result<F, LoadError>)
    ensures
        r == function_result(v, which),
{
    match v {
        LuaValue::Nil => Err(LoadError::MissingFn(which)),
        LuaValue::Function(f) => Ok(f),
        other => {
            let kind = other.kind_of();
            Err(LoadError::TableValueNotFunction { key: which, kind })
        },
    }
}

/// Checks what a script chunk returned: a table holding the `setup` and
/// `requests` functions.
pub fn script_functions<F, J>(module: Result<LuaValue<F, J>, String>) -> (r: Result<UserScript<F>, LoadError>)
    ensures
        r == module_result(module),
{
    let table = match module {
        Err(m) => return Err(LoadError::ModuleLoad(m)),
        Ok(LuaValue::Table(t)) => t,
        Ok(other) => {
            let kind = other.kind_of();
            return Err(LoadError::ModuleReturn(kind));
        },
    };
    let mut t = table;
    proof {
        reveal_strlit("setup");
        reveal_strlit("requests");
        assert(script_fn_key(ScriptFn::Setup).len() != script_fn_key(ScriptFn::Requests).len());
    }
    let setup_key = ScriptFn::Setup.key().to_owned();
    let setup_value = match take_field(&mut t, &setup_key) {
        Some((v, _)) => v,
        None => LuaValue::Nil,
    };
    let setup = match read_function(setup_value, ScriptFn::Setup) {
        Ok(f) => f,
        Err(e) => return Err(e),
    };
    let requests_key = ScriptFn::Requests.key().to_owned();
    let requests_value = match take_field(&mut t, &requests_key) {
        Some((v, _)) => v,
        None => LuaValue::Nil,
    };
    let requests = match read_function(requests_value, ScriptFn::Requests) {
        Ok(f) => f,
        Err(e) => return Err(e),
    };
    Ok(UserScript { setup, requests })
}

} // verus!
