//! Script bindings: a loaded automation script together with the host-side
//! state kept for it between ticks.
use vstd::prelude::*;
use crate::focus::{after_check, FocusGuard, FocusView};
use mlua::{Chunk, ChunkMode, Lua, LuaOptions, StdLib};

verus! {

#[verifier::external_type_specification]
#[verifier::external_body]
pub struct ExLua(mlua::Lua);

#[verifier::external_type_specification]
#[verifier::external_body]
pub struct ExLuaError(mlua::Error);

#[verifier::external_type_specification]
#[verifier::external_body]
pub struct ExChunk<'lua, 'a>(mlua::Chunk<'lua, 'a>);

/// Relies on `mlua::Lua::new_with`: a fresh interpreter with only the
/// `coroutine`, `table`, `string`, `utf8` and `math` libraries. A script so
/// has no `os` (no `os.exit`), no `io` and no `package` to reach outside the
/// interpreter.
#[verifier::external_body]
fn sandboxed_interpreter() -> (r: Result<Lua, mlua::Error>) {
    let libs = StdLib::COROUTINE | StdLib::TABLE | StdLib::STRING | StdLib::UTF8 | StdLib::MATH;
    Lua::new_with(libs, LuaOptions::default())
}

/// Relies on `mlua::Lua::load`: the chunk of source `bytes`, not yet run.
#[verifier::external_body]
fn chunk_of<'lua, 'a>(lua: &'lua Lua, bytes: &'a [u8]) -> (r: Chunk<'lua, 'a>) {
    lua.load(bytes)
}

/// Relies on `mlua::Chunk::set_name`: names the chunk in error messages; a
/// name that Lua cannot take is an error.
#[verifier::external_body]
fn chunk_named<'lua, 'a>(chunk: Chunk<'lua, 'a>, name: &str) -> (r: Result<
    Chunk<'lua, 'a>,
    mlua::Error,
>) {
    chunk.set_name(name)
}

/// Relies on `mlua::Chunk::set_mode` with `ChunkMode::Text`: the chunk is
/// read as source text only, so precompiled bytecode, which Lua does not
/// check, is refused as a load error rather than run.
#[verifier::external_body]
fn chunk_as_text<'lua, 'a>(chunk: Chunk<'lua, 'a>) -> (r: Chunk<'lua, 'a>) {
    chunk.set_mode(ChunkMode::Text)
}

/// Relies on `mlua::Chunk::exec`: parses the chunk and runs its top-level
/// code once, or reports the parse or runtime error. The call does not come
/// back while the code loops, unless the caller has bounded the
/// interpreter's instruction count.
#[verifier::external_body]
fn chunk_exec<'lua, 'a>(chunk: Chunk<'lua, 'a>) -> (r: Result<(), mlua::Error>) {
    chunk.exec()
}

/// Relies on `Display for mlua::Error`: the error's message.
#[verifier::external_body]
fn error_text(e: &mlua::Error) -> (r: String) {
    e.to_string()
}

/// Lua instructions that one run of a script (its top-level code, or one
/// tick's `process()`) may take before the host stops it.
pub const INSTRUCTION_BUDGET: u32 = 10_000_000;

/// The message of the error that stops a script past its budget.
pub fn budget_message() -> (r: String)
    ensures
        r@ == "script exceeded its instruction budget"@,
{
    String::from_str("script exceeded its instruction budget")
}

/// Parses `bytes` as source text named `name` and runs its top-level code
/// once in `lua`.
fn run_source(lua: &Lua, bytes: &[u8], name: &str) -> (r: Result<(), mlua::Error>) {
    match chunk_named(chunk_of(lua, bytes), name) {
        Ok(chunk) => chunk_exec(chunk_as_text(chunk)),
        Err(e) => Err(e),
    }
}

/// A fresh sandboxed interpreter for one script: no `os`, `io` or
/// `package` library.
pub fn sandbox() -> (r: Result<Lua, ScriptError>) {
    match sandboxed_interpreter() {
        Ok(lua) => Ok(lua),
        Err(e) => Err(ScriptError { message: error_text(&e) }),
    }
}

/// A script that failed to load or to run.
pub struct ScriptError {
    pub message: String,
}

/// The guard of a binding that has checked no window yet.
pub open spec fn fresh_guard() -> FocusView {
    after_check(0, None, false)
}

/// An active, loaded automation script.
pub struct Binding {
    /// The interpreter, which owns the script's globals and functions.
    pub lua: Lua,
    /// The display name.
    pub name: String,
    /// The script's cached decision on the foreground window.
    pub guard: FocusGuard,
}

impl Binding {
    /// The display name.
    pub open spec fn name_view(&self) -> Seq<char> {
        self.name@
    }

    /// The guard's state.
    pub open spec fn guard_view(&self) -> FocusView {
        self.guard@
    }

    /// Whether this is a binding just loaded under `name`: it carries that
    /// name and its guard has checked no window yet.
    pub open spec fn is_fresh(&self, name: Seq<char>) -> bool {
        self.name_view() == name && self.guard_view() == fresh_guard()
    }

    /// Loads a script from its source bytes into a fresh `sandbox()`,
    /// running its top-level code once. Fails when the script does not parse
    /// (bytecode is refused) or its top-level code raises an error.
    pub fn from_bytes(bytes: &[u8], name: &str) -> (r: Result<Binding, ScriptError>)
        ensures
            r matches Ok(b) ==> b.is_fresh(name@),
            r matches Ok(b) ==> b.guard@ == fresh_guard(),
    {
        match sandbox() {
            Ok(lua) => Binding::load_into(lua, bytes, name),
            Err(e) => Err(e),
        }
    }

    /// Loads a script into the interpreter `lua`, which the caller may have
    /// prepared (say, with a bound on the instructions it runs), running the
    /// script's top-level code once. Fails when the script does not parse
    /// (bytecode is refused) or its top-level code raises an error.
    pub fn load_into(lua: Lua, bytes: &[u8], name: &str) -> (r: Result<Binding, ScriptError>)
        ensures
            r matches Ok(b) ==> b.is_fresh(name@),
            r matches Ok(b) ==> b.guard@ == fresh_guard(),
    {
        match run_source(&lua, bytes, name) {
            Ok(()) => Ok(Binding { lua, name: name.to_string(), guard: FocusGuard::new() }),
            Err(e) => Err(ScriptError { message: error_text(&e) }),
        }
    }

    /// The display name.
    pub fn name(&self) -> (r: &str)
        ensures
            r@ == self.name_view(),
    {
        self.name.as_str()
    }
}

/// Two bindings loaded from the same script under the same name start from
/// the same host-side state: the same name and the same guard, so that each
/// key request is guarded alike.
pub proof fn lemma_loads_alike(a: Binding, b: Binding, name: Seq<char>)
    requires
        a.is_fresh(name),
        b.is_fresh(name),
    ensures
        a.name_view() == b.name_view(),
        a.guard_view() == b.guard_view(),
        !a.guard_view().accepts,
{
}

} // verus!
