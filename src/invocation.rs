//! The invocation: `<launcher> <runtime-cmd> <wasm-program> [<argument>...]`.
use vstd::prelude::*;

verus! {

/// What a well-formed invocation names.
pub struct Invocation {
    /// The runtime command, as given.
    pub runtime: String,
    /// The path of the WebAssembly program.
    pub program: String,
    /// The program's own arguments, forwarded unchanged.
    pub app_args: Vec<String>,
}

/// Why an invocation is not usable.
#[derive(Debug, Clone, Copy, PartialEq, Eq, Structural)]
pub enum UsageError {
    /// No runtime command was given.
    MissingRuntime,
    /// A runtime command was given, but no program.
    MissingProgram,
}

impl UsageError {
    /// The line reported after the usage text.
    pub fn message(&self) -> (r: String)
        ensures
            self is MissingRuntime ==> r@ == "Need to specify WASM runtime command"@,
            self is MissingProgram ==> r@ == "Need to specify WASM program file"@,
    {
        match self {
            UsageError::MissingRuntime => String::from_str("Need to specify WASM runtime command"),
            UsageError::MissingProgram => String::from_str("Need to specify WASM program file"),
        }
    }
}

/// The usage text, for a launcher invoked as `name`.
pub open spec fn usage_of(name: Seq<char>) -> Seq<char> {
    "USAGE:\n    "@ + name + " <RUNTIME-CMD> <WASM-PROGRAM> [<ARGUMENT>...]"@
}

/// The usage text shown when the invocation is incomplete.
pub fn usage(name: &str) -> (r: String)
    ensures
        r@ == usage_of(name@),
{
    let head = String::from_str("USAGE:\n    ");
    let with_name = head.concat(name);
    with_name.concat(" <RUNTIME-CMD> <WASM-PROGRAM> [<ARGUMENT>...]")
}

/// The error of an invocation with `n` tokens, the launcher's own name
/// included, if there is one.
pub open spec fn usage_error_of(n: nat) -> Option<UsageError> {
    if n < 2 {
        Some(UsageError::MissingRuntime)
    } else if n < 3 {
        Some(UsageError::MissingProgram)
    } else {
        None
    }
}

/// An invocation with fewer than two tokens after the launcher's own name is
/// a usage error.
pub proof fn lemma_short_invocation_is_usage_error(n: nat)
    requires
        n < 3,
    ensures
        usage_error_of(n) is Some,
{
}

/// Splits the process arguments into runtime, program and the program's
/// arguments. Fewer than three tokens is a usage error.
pub fn parse_invocation(args: &Vec<String>) -> (r: Result<Invocation, UsageError>)
    ensures
        usage_error_of(args@.len()) matches Some(e) ==> r == Err::<Invocation, UsageError>(e),
        usage_error_of(args@.len()) is None ==> (r matches Ok(inv) && inv.runtime == args@[1]
            && inv.program == args@[2] && inv.app_args@ == args@.subrange(3, args@.len() as int)),
{
    if args.len() < 2 {
        return Err(UsageError::MissingRuntime);
    }
    if args.len() < 3 {
        return Err(UsageError::MissingProgram);
    }
    let runtime = args[1].clone();
    let program = args[2].clone();
    let mut app_args: Vec<String> = Vec::new();
    let mut i: usize = 3;
    while i < args.len()
        invariant
            3 <= i <= args@.len(),
            app_args@ == args@.subrange(3, i as int),
        decreases args@.len() - i,
    {
        app_args.push(args[i].clone());
        i = i + 1;
        assert(app_args@ =~= args@.subrange(3, i as int));
    }
    Ok(Invocation { runtime, program, app_args })
}

} // verus!
