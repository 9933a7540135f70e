use vstd::prelude::*;
use crate::context::{RunContext, RunContextView};
use crate::error::{unit_view, AppError, AppErrorView, AppResult};

verus! {

/// The interpreter of `mlua`. Nothing of its state is visible here.
#[verifier::external_type_specification]
#[verifier::external_body]
pub struct ExLua(mlua::Lua);

/// A handle to a table of the interpreter. What the table holds belongs to the
/// interpreter's state and can change behind the handle. A handle is good only in the
/// interpreter that made it and while that one lives, so the library takes none from its
/// callers: it hands them out, and works on tables that it looks up itself.
#[verifier::external_type_specification]
#[verifier::external_body]
pub struct ExTable(mlua::Table);

/// An error of the interpreter.
#[verifier::external_type_specification]
#[verifier::external_body]
pub struct ExError(mlua::Error);

/// `mlua::Lua::new`: a new interpreter with the safe part of the standard libraries.
/// Nothing is claimed of it.
#[verifier::external_body]
fn fresh_state() -> (lua: mlua::Lua) {
    mlua::Lua::new()
}

/// `mlua::Lua::create_table`, `mlua::Lua::globals` and `mlua::Table::raw_set`: makes a new
/// table in `lua` and stores it in the table of global names of the same `lua`, under
/// `name`, without running any code of the script. The outcome is the interpreter's to
/// say: nothing is claimed of it.
#[verifier::external_body]
fn bind_new_table(lua: &mlua::Lua, name: &str) -> (outcome: Result<(), mlua::Error>) {
    lua.globals().raw_set(name, lua.create_table()?)
}

/// `mlua::Lua::globals` and `mlua::Table::raw_get` as `mlua::Table`: the table that `lua`
/// holds under the global name `name`, or the interpreter's error, as where it holds no
/// table there. Nothing is claimed of the outcome.
#[verifier::external_body]
fn global_table(lua: &mlua::Lua, name: &str) -> (outcome: Result<mlua::Table, mlua::Error>) {
    lua.globals().raw_get::<mlua::Table>(name)
}

/// `mlua::Lua::globals`, `mlua::Table::raw_get` as `mlua::Table` and
/// `mlua::Table::raw_set`: looks up the table that `lua` holds under the global name
/// `table` and stores a text, or nothing, in it under `key`, without running any code of
/// the script. The outcome is the interpreter's to say: nothing is claimed of it.
#[verifier::external_body]
fn put_row(lua: &mlua::Lua, table: &str, key: &str, text: &Option<String>) -> (outcome: Result<
    (),
    mlua::Error,
>) {
    lua.globals().raw_get::<mlua::Table>(table)?.raw_set(key, text.as_deref())
}

/// The `Display` text of an `mlua::Error`. Nothing is claimed of it.
#[verifier::external_body]
fn describe(error: &mlua::Error) -> (text: String) {
    error.to_string()
}

/// The two global names that a script finds.
#[derive(Debug, Clone, Copy, PartialEq, Eq, Structural)]
pub enum Global {
    /// The table of directories.
    Env,
    /// The table of host functions.
    Utils,
}

impl Global {
    /// The name as the script writes it.
    pub open spec fn name_of(self) -> Seq<char> {
        match self {
            Global::Env => "env"@,
            Global::Utils => "utils"@,
        }
    }

    /// The name as the script writes it.
    pub fn name(&self) -> (name: &'static str)
        ensures
            name@ == self.name_of(),
    {
        match self {
            Global::Env => "env",
            Global::Utils => "utils",
        }
    }
}

/// One attempt to bind a name in the interpreter: what was handed over, and what it came
/// to.
#[derive(Debug, PartialEq, Eq)]
pub struct Attempt {
    /// The table in which the name was to be bound, by its global name: `None` for a
    /// global name itself.
    pub table: Option<String>,
    /// The name that was to be bound: a global name, or the key of a row.
    pub name: String,
    /// The text that was handed over for the name. `None` for a row whose directory is
    /// absent, under which nothing is stored, and for a global name, which is bound to a
    /// new, empty table.
    pub value: Option<String>,
    /// The interpreter's text where the attempt failed, `None` where it succeeded.
    pub failure: Option<String>,
}

/// An attempt as a mathematical value.
pub struct AttemptView {
    pub table: Option<Seq<char>>,
    pub name: Seq<char>,
    pub value: Option<Seq<char>>,
    pub failure: Option<Seq<char>>,
}

/// What is handed to the interpreter in one attempt: where, under which name, and what.
pub struct Handed {
    pub table: Option<Seq<char>>,
    pub name: Seq<char>,
    pub value: Option<Seq<char>>,
}

impl AttemptView {
    /// What was handed over in the attempt.
    pub open spec fn handed(self) -> Handed {
        Handed { table: self.table, name: self.name, value: self.value }
    }
}

impl View for Attempt {
    type V = AttemptView;

    open spec fn view(&self) -> AttemptView {
        AttemptView {
            table: self.table.deep_view(),
            name: self.name@,
            value: self.value.deep_view(),
            failure: self.failure.deep_view(),
        }
    }
}

impl DeepView for Attempt {
    type V = AttemptView;

    open spec fn deep_view(&self) -> AttemptView {
        self@
    }
}

/// What installing a context hands to the interpreter, in order: a new table under the
/// global name `env`; in that table each row of the context, the directory's path under
/// its key, and nothing under the key of a directory that is absent; a new table under
/// the global name `utils`.
pub open spec fn handed(context: RunContextView) -> Seq<Handed> {
    seq![Handed { table: None, name: Global::Env.name_of(), value: None }]
        + context.table().map_values(
        |row: (Seq<char>, Option<Seq<char>>)|
            Handed { table: Some(Global::Env.name_of()), name: row.0, value: row.1 },
    ) + seq![Handed { table: None, name: Global::Utils.name_of(), value: None }]
}

/// What a series of attempts handed over, in order.
pub open spec fn handed_in(attempts: Seq<AttemptView>) -> Seq<Handed> {
    attempts.map_values(|attempt: AttemptView| attempt.handed())
}

/// The text of the first attempt of a series that failed, `None` where none did.
pub open spec fn first_failure(attempts: Seq<AttemptView>) -> Option<Seq<char>>
    decreases attempts.len(),
{
    if attempts.len() == 0 {
        None
    } else if attempts.first().failure is Some {
        attempts.first().failure
    } else {
        first_failure(attempts.drop_first())
    }
}

/// What a series of attempts comes to: success where none failed, else the interpreter's
/// error with the text of the first that did.
pub open spec fn settled(attempts: Seq<AttemptView>) -> Result<(), AppErrorView> {
    match first_failure(attempts) {
        None => Ok(()),
        Some(text) => Err(AppErrorView::FromLua(text)),
    }
}

/// The interpreter's error as an error of this library: it carries the interpreter's text.
pub fn from_lua_error(error: &mlua::Error) -> (converted: AppError)
    ensures
        converted is FromLua,
{
    AppError::FromLua(describe(error))
}

/// The record of one attempt, given what was handed over and what the interpreter
/// answered: it keeps what was handed over, and holds the interpreter's text exactly where
/// the answer was an error.
fn attempt(
    table: Option<&str>,
    name: &str,
    value: &Option<String>,
    outcome: Result<(), mlua::Error>,
) -> (made: Attempt)
    ensures
        made@.handed() == (Handed {
            table: match table {
                Some(table) => Some(table@),
                None => None,
            },
            name: name@,
            value: value.deep_view(),
        }),
        made.failure is Some <==> outcome is Err,
{
    let table = match table {
        Some(table) => Some(String::from_str(table)),
        None => None,
    };
    let value = match value {
        Some(value) => Some(value.clone()),
        None => None,
    };
    let failure = match outcome {
        Ok(()) => None,
        Err(error) => Some(describe(&error)),
    };
    Attempt { table, name: String::from_str(name), value, failure }
}

/// What a series of attempts comes to: success where none failed, else the interpreter's
/// error with the text of the first that did.
pub fn settle(attempts: &Vec<Attempt>) -> (outcome: AppResult<()>)
    ensures
        unit_view(outcome) == settled(attempts.deep_view()),
{
    let ghost all = attempts.deep_view();
    let mut i: usize = 0;
    assert(all.skip(0) =~= all);
    while i < attempts.len()
        invariant
            i <= attempts.len(),
            all == attempts.deep_view(),
            first_failure(all) == first_failure(all.skip(i as int)),
        decreases attempts.len() - i,
    {
        proof {
            assert(all.skip(i as int).first() == all[i as int]);
            assert(all.skip(i as int).drop_first() =~= all.skip(i as int + 1));
        }
        match &attempts[i].failure {
            Some(text) => {
                return Err(AppError::FromLua(text.clone()));
            },
            None => {},
        }
        i += 1;
    }
    Ok(())
}

/// What installing a context came to: every attempt that was made, and the outcome that
/// they settle to.
#[derive(Debug, PartialEq, Eq)]
pub struct Installation {
    pub attempts: Vec<Attempt>,
    pub outcome: AppResult<()>,
}

/// The script runtime: it owns the interpreter that the script runs in.
pub struct LuaEngine {
    pub lua: mlua::Lua,
}

impl LuaEngine {
    /// A runtime with a fresh interpreter.
    pub fn new() -> (engine: LuaEngine) {
        LuaEngine { lua: fresh_state() }
    }

    /// Attempts every binding that a script is owed: a new table under `env`, each row
    /// of `context` in that table, and a new, empty table under `utils`. Every attempt
    /// is made, whatever became of the ones before it, so that a value that the
    /// interpreter does not take costs that one name only. The record holds one attempt
    /// for each name, in order, with what was handed over for it; whether an attempt
    /// fails is the interpreter's to say.
    pub fn bind_globals(&self, context: &RunContext) -> (attempts: Vec<Attempt>)
        ensures
            handed_in(attempts.deep_view()) == handed(context@),
    {
        let rows = context.entries();
        let mut attempts: Vec<Attempt> = Vec::new();
        let env = Global::Env.name();
        let nothing: Option<String> = None;
        attempts.push(attempt(None, env, &nothing, bind_new_table(&self.lua, env)));
        let mut i: usize = 0;
        while i < rows.len()
            invariant
                i <= rows.len(),
                rows.deep_view() == context@.table(),
                attempts.len() == i + 1,
                env@ == Global::Env.name_of(),
                nothing is None,
                attempts[0]@.handed() == (Handed {
                    table: None,
                    name: Global::Env.name_of(),
                    value: None,
                }),
                forall|k: int|
                    0 <= k < i ==> (#[trigger] attempts[k + 1])@.handed() == (Handed {
                        table: Some(Global::Env.name_of()),
                        name: rows[k].0@,
                        value: rows[k].1.deep_view(),
                    }),
            decreases rows.len() - i,
        {
            let key = rows[i].0.as_str();
            let value = &rows[i].1;
            attempts.push(attempt(Some(env), key, value, put_row(&self.lua, env, key, value)));
            i += 1;
        }
        let utils = Global::Utils.name();
        attempts.push(attempt(None, utils, &nothing, bind_new_table(&self.lua, utils)));
        proof {
            let made = handed_in(attempts.deep_view());
            let owed = handed(context@);
            assert(made.len() == owed.len());
            assert forall|k: int| 0 <= k < made.len() implies made[k] == owed[k] by {
                if 0 < k && k < made.len() - 1 {
                    assert(attempts[(k - 1) + 1]@.handed().name == rows[k - 1].0@);
                    assert(rows.deep_view()[k - 1] == context@.table()[k - 1]);
                }
            }
            assert(made =~= owed);
        }
        attempts
    }

    /// Binds the two global names that a script finds: `env`, a table with the rows of
    /// `context`, and `utils`, an empty table for the host functions.
    ///
    /// Every binding is attempted, as `bind_globals` says, and the record of the attempts
    /// is handed back beside the outcome. The outcome is an error exactly where an
    /// attempt failed, and then it carries the interpreter's text for the first that did.
    pub fn set_globals(&self, context: &RunContext) -> (installation: Installation)
        ensures
            handed_in(installation.attempts.deep_view()) == handed(context@),
            unit_view(installation.outcome) == settled(installation.attempts.deep_view()),
    {
        let attempts = self.bind_globals(context);
        let outcome = settle(&attempts);
        Installation { attempts, outcome }
    }

    /// The table that stands under `utils`, for the caller to fill with the host
    /// functions: the one that `set_globals` bound, made by this runtime's interpreter.
    /// An error where the interpreter holds no table there.
    pub fn utils(&self) -> (outcome: AppResult<mlua::Table>)
        ensures
            outcome matches Err(error) ==> error is FromLua,
    {
        match global_table(&self.lua, Global::Utils.name()) {
            Ok(table) => Ok(table),
            Err(error) => Err(from_lua_error(&error)),
        }
    }
}

} // verus!
