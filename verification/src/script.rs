//! The script runtime: a compiled program, its persistent scope, and the
//! three lifecycle callbacks.
//!
//! A runtime starts unloaded. Loading a script that parses makes it
//! compiled; running `init` on a compiled runtime makes it initialized, and
//! there it stays. A callback that the script does not define is skipped. A
//! callback that faults is reported as such; the runtime goes on.

use vstd::prelude::*;
use vstd::string::*;
use crate::interp::{
    compile, empty_scope, functions_of, integer_in, invoke, latest_int, listed, parse_failure,
    scope_entries, script_functions, seconds, seconds_of,
};

verus! {

/// The lifecycle callbacks that a script may define.
#[derive(Clone, Copy, Debug, PartialEq, Eq, Structural)]
pub enum Callback {
    Init,
    Update,
    Draw,
}

/// Where a runtime stands in its lifecycle.
#[derive(Clone, Copy, Debug, PartialEq, Eq, Structural)]
pub enum Phase {
    Unloaded,
    Compiled,
    Initialized,
}

/// A runtime fault inside a callback.
#[derive(Clone, Debug, PartialEq, Eq)]
pub struct Fault {
    pub callback: Callback,
    pub message: String,
}

/// How the call of a callback ended.
#[derive(Clone, Debug, PartialEq, Eq)]
pub enum CallOutcome {
    /// The script does not define the callback; nothing was run.
    Skipped,
    /// The callback ran to its end.
    Completed,
    /// The callback ran and faulted. What it did before the fault stands.
    Faulted(Fault),
}

/// Why a script could not be loaded.
#[derive(Clone, Debug, PartialEq, Eq)]
pub struct ScriptError {
    pub message: String,
}

impl Callback {
    /// The name under which a script defines the callback.
    pub open spec fn name(self) -> Seq<char> {
        match self {
            Callback::Init => "init"@,
            Callback::Update => "update"@,
            Callback::Draw => "draw"@,
        }
    }

    /// The number of arguments the callback is called with: `update` gets
    /// the elapsed time, the others nothing.
    pub open spec fn arity(self) -> nat {
        match self {
            Callback::Update => 1,
            _ => 0,
        }
    }

    /// The name under which a script defines the callback.
    pub fn label(self) -> (name: &'static str)
        ensures
            name@ == self.name(),
    {
        match self {
            Callback::Init => "init",
            Callback::Update => "update",
            Callback::Draw => "draw",
        }
    }

    /// The number of arguments the callback is called with.
    pub fn parameters(self) -> (count: usize)
        ensures
            count == self.arity(),
    {
        match self {
            Callback::Update => 1,
            _ => 0,
        }
    }
}

/// The line that reports a fault: the callback's name, then the message.
pub open spec fn report_of(callback: Callback, message: Seq<char>) -> Seq<char> {
    "Error calling "@ + callback.name() + ": "@ + message
}

impl Fault {
    /// The line to log for this fault.
    pub fn report(&self) -> (line: String)
        ensures
            line@ == report_of(self.callback, self.message@),
    {
        let mut line: String = "Error calling ".to_owned();
        line.append(self.callback.label());
        line.append(": ");
        line.append(self.message.as_str());
        line
    }
}

/// Whether a script with these functions defines `callback`: by its name,
/// with its number of parameters.
pub open spec fn defined_in(functions: Set<(Seq<char>, nat)>, callback: Callback) -> bool {
    functions.contains((callback.name(), callback.arity()))
}

/// Looks `callback` up in the list of a script's functions.
pub fn is_listed(list: &Vec<(String, usize)>, callback: Callback) -> (found: bool)
    ensures
        found == defined_in(listed(list@), callback),
{
    let name: String = callback.label().to_owned();
    let count: usize = callback.parameters();
    let mut index: usize = 0;
    while index < list.len()
        invariant
            index <= list@.len(),
            name@ == callback.name(),
            count == callback.arity(),
            forall|i: int|
                0 <= i < index ==> (#[trigger] list@[i].0@, list@[i].1 as nat) != (
                    callback.name(),
                    callback.arity(),
                ),
        decreases list@.len() - index,
    {
        let entry: &(String, usize) = &list[index];
        if entry.1 == count && entry.0 == name {
            assert((callback.name(), callback.arity()) == (
                list@[index as int].0@,
                list@[index as int].1 as nat,
            ));
            return true;
        }
        index = index + 1;
    }
    false
}

/// Turns what the interpreter returned from a callback into the outcome
/// that the host sees: a fault is kept, with the interpreter's message, and
/// goes no further.
pub fn settle(callback: Callback, result: Result<(), Box<rhai::EvalAltResult>>) -> (outcome:
    CallOutcome)
    ensures
        result is Ok ==> outcome == CallOutcome::Completed,
        result matches Err(fault) ==> {
            &&& outcome matches CallOutcome::Faulted(kept)
            &&& kept.callback == callback
            &&& to_string_from_display_ensures::<rhai::EvalAltResult>(&*fault, kept.message)
        },
{
    match result {
        Ok(()) => CallOutcome::Completed,
        Err(fault) => {
            let inner: &rhai::EvalAltResult = &*fault;
            CallOutcome::Faulted(Fault { callback, message: inner.to_string() })
        },
    }
}

/// Whether the script's top-level statements are run before a callback.
/// They are not: a callback is the call of one function and nothing more.
pub const RUNS_TOP_LEVEL: bool = false;

/// Whether the variables that a callback declares are taken back when it
/// returns. They are not: the scope persists from call to call, and a
/// callback that declares a variable on every frame lets the scope grow by
/// one on every frame.
pub const REWINDS_SCOPE: bool = false;

/// One call handed to the interpreter: which callback, and on what.
pub struct Call {
    pub callback: Callback,
    pub args: Seq<rhai::Dynamic>,
}

/// The call of `init`: no arguments.
pub open spec fn init_call() -> Call {
    Call { callback: Callback::Init, args: Seq::empty() }
}

/// The call of `update` after `delta_micros` microseconds: one argument,
/// the elapsed time in seconds.
pub open spec fn update_call(delta_micros: u64) -> Call {
    Call { callback: Callback::Update, args: seq![seconds_of(delta_micros)] }
}

/// The call of `draw`: no arguments.
pub open spec fn draw_call() -> Call {
    Call { callback: Callback::Draw, args: Seq::empty() }
}

/// The record of calls after `call` was asked for: it joins the record if
/// the script defines its callback, and otherwise nothing was called.
pub open spec fn handed(calls: Seq<Call>, defined: bool, call: Call) -> Seq<Call> {
    if defined {
        calls.push(call)
    } else {
        calls
    }
}

/// The arguments that `update` is called with: the elapsed time in seconds,
/// and nothing else.
pub fn update_arguments(delta_micros: u64) -> (args: Vec<rhai::Dynamic>)
    ensures
        args@ == seq![seconds_of(delta_micros)],
{
    let mut args: Vec<rhai::Dynamic> = Vec::new();
    args.push(seconds(delta_micros));
    assert(args@ =~= seq![seconds_of(delta_micros)]);
    args
}

/// A script runtime.
pub struct ScriptEngine {
    engine: rhai::Engine,
    program: Option<rhai::AST>,
    scope: rhai::Scope<'static>,
    phase: Phase,
    has_init: bool,
    has_update: bool,
    has_draw: bool,
    calls: Ghost<Seq<Call>>,
}

impl ScriptEngine {
    /// The interpreter that runs the script.
    pub closed spec fn engine(&self) -> rhai::Engine {
        self.engine
    }

    /// The compiled script, once one is loaded.
    pub closed spec fn program(&self) -> Option<rhai::AST> {
        self.program
    }

    /// The scope that the script's callbacks run against.
    pub closed spec fn scope(&self) -> rhai::Scope<'static> {
        self.scope
    }

    /// Where the runtime stands in its lifecycle.
    pub closed spec fn phase(&self) -> Phase {
        self.phase
    }

    /// Whether the table of callbacks, filled when the script was loaded,
    /// has `callback`.
    pub closed spec fn defines(&self, callback: Callback) -> bool {
        match callback {
            Callback::Init => self.has_init,
            Callback::Update => self.has_update,
            Callback::Draw => self.has_draw,
        }
    }

    /// The calls handed to the interpreter so far, oldest first.
    pub closed spec fn calls(&self) -> Seq<Call> {
        self.calls@
    }

    /// The variables of the scope, oldest first.
    pub open spec fn bindings(&self) -> Seq<(Seq<char>, Option<i64>)> {
        scope_entries(self.scope())
    }

    /// Whether this runtime's table has exactly the callbacks of `other`'s.
    pub open spec fn same_callbacks(&self, other: &ScriptEngine) -> bool {
        &&& self.defines(Callback::Init) == other.defines(Callback::Init)
        &&& self.defines(Callback::Update) == other.defines(Callback::Update)
        &&& self.defines(Callback::Draw) == other.defines(Callback::Draw)
    }

    /// Whether the table has exactly those callbacks that are among
    /// `functions`.
    pub open spec fn callbacks_among(&self, functions: Set<(Seq<char>, nat)>) -> bool {
        &&& self.defines(Callback::Init) == defined_in(functions, Callback::Init)
        &&& self.defines(Callback::Update) == defined_in(functions, Callback::Update)
        &&& self.defines(Callback::Draw) == defined_in(functions, Callback::Draw)
    }

    /// A runtime is unloaded exactly while it has no program, and then has
    /// no callbacks; with a program, its table has the callbacks that the
    /// program defines.
    pub open spec fn wf(&self) -> bool {
        match self.program() {
            None => self.phase() == Phase::Unloaded && self.callbacks_among(Set::empty()),
            Some(program) => self.phase() != Phase::Unloaded && self.callbacks_among(
                script_functions(program),
            ),
        }
    }

    /// An unloaded runtime around `engine`, with an empty scope. The host
    /// hands in the interpreter with its capabilities already bound.
    pub fn new(engine: rhai::Engine) -> (runtime: ScriptEngine)
        ensures
            runtime.wf(),
            runtime.engine() == engine,
            runtime.program() is None,
            runtime.phase() == Phase::Unloaded,
            runtime.bindings() == Seq::<(Seq<char>, Option<i64>)>::empty(),
            runtime.calls() == Seq::<Call>::empty(),
    {
        ScriptEngine {
            engine,
            program: None,
            scope: empty_scope(),
            phase: Phase::Unloaded,
            has_init: false,
            has_update: false,
            has_draw: false,
            calls: Ghost(Seq::empty()),
        }
    }

    /// Where the runtime stands in its lifecycle.
    pub fn current_phase(&self) -> (phase: Phase)
        ensures
            phase == self.phase(),
    {
        self.phase
    }

    /// Whether the loaded script defines `callback`.
    pub fn has_callback(&self, callback: Callback) -> (found: bool)
        ensures
            found == self.defines(callback),
    {
        match callback {
            Callback::Init => self.has_init,
            Callback::Update => self.has_update,
            Callback::Draw => self.has_draw,
        }
    }

    /// The integer that the scope's newest variable called `name` holds, if
    /// there is such a variable and it holds one.
    pub fn int_variable(&self, name: &str) -> (found: Option<i64>)
        ensures
            found == latest_int(self.bindings(), name@),
    {
        integer_in(&self.scope, name)
    }

    /// Takes in what the parser returned. A program replaces the one
    /// before it: its callbacks are looked up once, here, and the runtime is
    /// compiled, not yet initialized. A parse error changes nothing and is
    /// handed on. The scope stays as it is either way.
    pub fn install(&mut self, compiled: Result<rhai::AST, rhai::ParseError>) -> (result: Result<
        (),
        ScriptError,
    >)
        requires
            old(self).wf(),
        ensures
            final(self).wf(),
            final(self).engine() == old(self).engine(),
            final(self).scope() == old(self).scope(),
            final(self).calls() == old(self).calls(),
            match compiled {
                Ok(program) => result is Ok && final(self).program() == Some(program)
                    && final(self).phase() == Phase::Compiled,
                Err(error) => {
                    &&& *final(self) == *old(self)
                    &&& result matches Err(told)
                    &&& to_string_from_display_ensures::<rhai::ParseError>(&error, told.message)
                },
            },
    {
        match compiled {
            Ok(program) => {
                let list: Vec<(String, usize)> = functions_of(&program);
                self.has_init = is_listed(&list, Callback::Init);
                self.has_update = is_listed(&list, Callback::Update);
                self.has_draw = is_listed(&list, Callback::Draw);
                self.program = Some(program);
                self.phase = Phase::Compiled;
                Ok(())
            },
            Err(error) => Err(ScriptError { message: error.to_string() }),
        }
    }

    /// Compiles `code` and installs the program. Where `code` parses, the
    /// program replaces the one before it and the runtime is compiled, not
    /// yet initialized. Where it does not, the runtime is left exactly as it
    /// was and the parser's error is returned. The scope stays as it is
    /// either way, and nothing is called.
    pub fn load_script(&mut self, code: &str) -> (result: Result<(), ScriptError>)
        requires
            old(self).wf(),
        ensures
            final(self).wf(),
            final(self).engine() == old(self).engine(),
            final(self).scope() == old(self).scope(),
            final(self).calls() == old(self).calls(),
            match parse_failure(old(self).engine(), code@) {
                None => {
                    &&& result is Ok
                    &&& final(self).program() is Some
                    &&& final(self).phase() == Phase::Compiled
                },
                Some(error) => {
                    &&& *final(self) == *old(self)
                    &&& result matches Err(told)
                    &&& to_string_from_display_ensures::<rhai::ParseError>(&error, told.message)
                },
            },
    {
        let compiled = compile(&self.engine, code);
        self.install(compiled)
    }

    /// Calls `callback` with `args` if the script defines it, and records
    /// the call. The callback runs alone, without the script's top-level
    /// statements, and what it declares stays in the scope.
    fn call(&mut self, callback: Callback, args: Vec<rhai::Dynamic>) -> (outcome: CallOutcome)
        requires
            old(self).wf(),
            args@.len() == callback.arity(),
        ensures
            final(self).wf(),
            final(self).engine() == old(self).engine(),
            final(self).program() == old(self).program(),
            final(self).phase() == old(self).phase(),
            final(self).same_callbacks(old(self)),
            final(self).calls() == handed(
                old(self).calls(),
                old(self).defines(callback),
                Call { callback, args: args@ },
            ),
            outcome is Skipped <==> !old(self).defines(callback),
            !old(self).defines(callback) ==> *final(self) == *old(self),
            outcome matches CallOutcome::Faulted(fault) ==> fault.callback == callback,
    {
        let defined: bool = self.has_callback(callback);
        match &self.program {
            Some(program) => {
                if defined {
                    self.calls = Ghost(self.calls@.push(Call { callback, args: args@ }));
                    let result = invoke(
                        &self.engine,
                        &mut self.scope,
                        program,
                        callback.label(),
                        args,
                        RUNS_TOP_LEVEL,
                        REWINDS_SCOPE,
                    );
                    settle(callback, result)
                } else {
                    CallOutcome::Skipped
                }
            },
            None => CallOutcome::Skipped,
        }
    }

    /// Runs the script's `init` and, once a script is loaded, marks the
    /// runtime initialized, whether `init` is there or not and however it
    /// ended. Without a script nothing happens. Without an `init` the scope
    /// stays as it is.
    pub fn call_init(&mut self) -> (outcome: CallOutcome)
        requires
            old(self).wf(),
        ensures
            final(self).wf(),
            final(self).engine() == old(self).engine(),
            final(self).program() == old(self).program(),
            final(self).same_callbacks(old(self)),
            final(self).phase() == if old(self).phase() == Phase::Unloaded {
                Phase::Unloaded
            } else {
                Phase::Initialized
            },
            final(self).calls() == handed(
                old(self).calls(),
                old(self).defines(Callback::Init),
                init_call(),
            ),
            outcome is Skipped <==> !old(self).defines(Callback::Init),
            !old(self).defines(Callback::Init) ==> final(self).scope() == old(self).scope(),
            outcome matches CallOutcome::Faulted(fault) ==> fault.callback == Callback::Init,
    {
        let outcome = self.call(Callback::Init, Vec::new());
        if self.program.is_some() {
            self.phase = Phase::Initialized;
        }
        outcome
    }

    /// Runs the script's `update` on the elapsed time, which the script
    /// receives in seconds as its one argument. Without an `update` this
    /// does nothing at all.
    pub fn call_update(&mut self, delta_micros: u64) -> (outcome: CallOutcome)
        requires
            old(self).wf(),
        ensures
            final(self).wf(),
            final(self).engine() == old(self).engine(),
            final(self).program() == old(self).program(),
            final(self).phase() == old(self).phase(),
            final(self).same_callbacks(old(self)),
            final(self).calls() == handed(
                old(self).calls(),
                old(self).defines(Callback::Update),
                update_call(delta_micros),
            ),
            outcome is Skipped <==> !old(self).defines(Callback::Update),
            !old(self).defines(Callback::Update) ==> *final(self) == *old(self),
            outcome matches CallOutcome::Faulted(fault) ==> fault.callback == Callback::Update,
    {
        self.call(Callback::Update, update_arguments(delta_micros))
    }

    /// Runs the script's `draw`. Without a `draw` this does nothing at all:
    /// the runtime, its scope included, is left exactly as it was.
    pub fn call_draw(&mut self) -> (outcome: CallOutcome)
        requires
            old(self).wf(),
        ensures
            final(self).wf(),
            final(self).engine() == old(self).engine(),
            final(self).program() == old(self).program(),
            final(self).phase() == old(self).phase(),
            final(self).same_callbacks(old(self)),
            final(self).calls() == handed(
                old(self).calls(),
                old(self).defines(Callback::Draw),
                draw_call(),
            ),
            outcome is Skipped <==> !old(self).defines(Callback::Draw),
            !old(self).defines(Callback::Draw) ==> *final(self) == *old(self),
            outcome matches CallOutcome::Faulted(fault) ==> fault.callback == Callback::Draw,
    {
        self.call(Callback::Draw, Vec::new())
    }
}

} // verus!
