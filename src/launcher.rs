use vstd::prelude::*;
use vstd::string::*;

use crate::args::arg_views;

verus! {

/// The worker runtime that is looked up on the search path by default.
pub open spec fn default_program() -> Seq<char> {
    "python"@
}

/// The runtime asked for through the environment, else the default.
pub open spec fn python_program_spec(env_override: Option<Seq<char>>) -> Seq<char> {
    match env_override {
        Some(p) => p,
        None => default_program(),
    }
}

/// The worker's arguments: unbuffered standard streams, then its entry script.
pub open spec fn worker_args_spec() -> Seq<Seq<char>> {
    seq!["-u"@, "main.py"@]
}

pub open spec fn launch_failure_message_spec(program: Seq<char>) -> Seq<char> {
    "failed to start the worker runtime: "@ + program
}

/// The worker runtime executable: the value of the override variable when it
/// is set, else `python`.
pub fn get_python_program(env_override: Option<String>) -> (r: String)
    ensures
        r@ == python_program_spec(
            match env_override {
                Some(s) => Some(s@),
                None => None,
            },
        ),
{
    match env_override {
        Some(p) => p,
        None => String::from_str("python"),
    }
}

/// The arguments handed to the worker runtime.
pub fn worker_args() -> (r: Vec<String>)
    ensures
        arg_views(r@) == worker_args_spec(),
{
    let mut v: Vec<String> = Vec::new();
    v.push(String::from_str("-u"));
    v.push(String::from_str("main.py"));
    assert(arg_views(v@) =~= worker_args_spec());
    v
}

/// The message shown when the worker runtime cannot be started; it names
/// the executable that was tried.
pub fn launch_failure_message(program: &String) -> (r: String)
    ensures
        r@ == launch_failure_message_spec(program@),
{
    let m = String::from_str("failed to start the worker runtime: ");
    m.concat(program.as_str())
}

} // verus!
