//! The interpreter, as far as the runtime relies on it.
//!
//! The types declared here are opaque, and the contracts of the functions
//! are taken on trust: they say of the interpreter what its source shows,
//! and nothing is proved of them.

use vstd::prelude::*;

verus! {

/// `rhai::Engine`, the interpreter. Opaque.
#[verifier::external_type_specification]
#[verifier::external_body]
pub struct ExEngine(rhai::Engine);

/// `rhai::AST`, a compiled script. Opaque but for its functions.
#[verifier::external_type_specification]
#[verifier::external_body]
pub struct ExProgram(rhai::AST);

/// `rhai::Scope`, the variables that a script runs against. Opaque but for
/// its entries.
#[verifier::external_type_specification]
#[verifier::external_body]
pub struct ExScope<'a>(rhai::Scope<'a>);

/// `rhai::Dynamic`, a script value. Opaque.
#[verifier::external_type_specification]
#[verifier::external_body]
pub struct ExDynamic(rhai::Dynamic);

/// `rhai::ParseError`, why a script did not parse. Opaque.
#[verifier::external_type_specification]
#[verifier::external_body]
pub struct ExParseError(rhai::ParseError);

/// `rhai::EvalAltResult`, a fault raised while a script ran. Opaque.
#[verifier::external_type_specification]
#[verifier::external_body]
pub struct ExEvalAltResult(rhai::EvalAltResult);

/// The functions that a compiled script defines, each as its name and the
/// number of its parameters.
pub uninterp spec fn script_functions(program: rhai::AST) -> Set<(Seq<char>, nat)>;

/// The variables of a scope from the oldest to the newest, each as its name
/// and, where it holds an integer, that integer.
pub uninterp spec fn scope_entries(scope: rhai::Scope<'static>) -> Seq<(Seq<char>, Option<i64>)>;

/// The error with which an interpreter's parser turns a source text down,
/// or `None` where the text parses.
pub uninterp spec fn parse_failure(engine: rhai::Engine, source: Seq<char>) -> Option<
    rhai::ParseError,
>;

/// The script value that stands for an elapsed time of `micros`
/// microseconds: a floating-point number of seconds.
pub uninterp spec fn seconds_of(micros: u64) -> rhai::Dynamic;

/// What a list of functions says that a script defines.
pub open spec fn listed(list: Seq<(String, usize)>) -> Set<(Seq<char>, nat)> {
    Set::new(
        |f: (Seq<char>, nat)|
            exists|i: int| 0 <= i < list.len() && f == (#[trigger] list[i].0@, list[i].1 as nat),
    )
}

/// What a lookup by name finds in a scope: the newest variable of that
/// name, if it holds an integer.
pub open spec fn latest_int(entries: Seq<(Seq<char>, Option<i64>)>, name: Seq<char>) -> Option<i64>
    decreases entries.len(),
{
    if entries.len() == 0 {
        None
    } else if entries.last().0 == name {
        entries.last().1
    } else {
        latest_int(entries.drop_last(), name)
    }
}

/// `rhai::Engine::compile`: parses `source` under the engine's settings.
/// It fails exactly where `parse_failure` names an error, and then with
/// that error. Of the program that a success returns nothing is claimed
/// here; its functions are what `script_functions` names.
#[verifier::external_body]
pub(crate) fn compile(engine: &rhai::Engine, source: &str) -> (compiled: Result<
    rhai::AST,
    rhai::ParseError,
>)
    ensures
        match compiled {
            Ok(_) => parse_failure(*engine, source@) is None,
            Err(error) => parse_failure(*engine, source@) == Some(error),
        },
{
    engine.compile(source)
}

/// `rhai::AST::iter_functions`: the script's own functions, handed out as
/// name and parameter count. The order is the interpreter's.
#[verifier::external_body]
pub(crate) fn functions_of(program: &rhai::AST) -> (list: Vec<(String, usize)>)
    ensures
        listed(list@) == script_functions(*program),
{
    program.iter_functions().map(|f| (f.name.to_string(), f.params.len())).collect()
}

/// `rhai::Scope::new`: a scope without variables.
#[verifier::external_body]
pub(crate) fn empty_scope() -> (scope: rhai::Scope<'static>)
    ensures
        scope_entries(scope) == Seq::<(Seq<char>, Option<i64>)>::empty(),
{
    rhai::Scope::new()
}

/// `rhai::Scope::get_value`, asked for an integer: the scope is searched
/// from its newest variable back, and the first one of that name is the
/// answer if it holds an integer.
#[verifier::external_body]
pub(crate) fn integer_in(scope: &rhai::Scope<'static>, name: &str) -> (found: Option<i64>)
    ensures
        found == latest_int(scope_entries(*scope), name@),
{
    scope.get_value::<i64>(name)
}

/// `rhai::Dynamic::from_float` on a duration in seconds: the script value
/// for an elapsed time that the host counts in microseconds. The duration is
/// made by `Duration::from_micros` and read by `Duration::as_secs_f64`.
#[verifier::external_body]
pub(crate) fn seconds(micros: u64) -> (value: rhai::Dynamic)
    ensures
        value == seconds_of(micros),
{
    rhai::Dynamic::from_float(std::time::Duration::from_micros(micros).as_secs_f64())
}

/// `rhai::Engine::call_fn_with_options`: runs the script function `name`
/// on `args` against `scope`. `eval_ast` says whether the script's
/// top-level statements are run first, `rewind_scope` whether the variables
/// that the run declares are taken back afterwards. What the function does
/// to the scope is the script's affair, as is how long it runs; a fault
/// comes back as an error.
#[verifier::external_body]
pub(crate) fn invoke(
    engine: &rhai::Engine,
    scope: &mut rhai::Scope<'static>,
    program: &rhai::AST,
    name: &str,
    args: Vec<rhai::Dynamic>,
    eval_ast: bool,
    rewind_scope: bool,
) -> (result: Result<(), Box<rhai::EvalAltResult>>) {
    let options = rhai::CallFnOptions::new().eval_ast(eval_ast).rewind_scope(rewind_scope);
    engine.call_fn_with_options::<()>(options, scope, program, name, args)
}

} // verus!
