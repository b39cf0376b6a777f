//! The launch as a whole: from the invocation and the settings read at
//! startup to the runtime and command line to run, or the error that stops
//! the launch before anything is run.
use crate::command::{assemble_args, command_line_of};
use crate::discovery::{fallback_of, opt_view, resolve_runtime, DiscoveryError, Resolved};
use crate::invocation::{parse_invocation, usage_error_of, UsageError};
use crate::runtime_args::{extra_args_of, extra_runtime_args, setting_outcome, ConfigError};
use crate::views;
use vstd::prelude::*;

verus! {

/// What the environment configures, read once at startup.
pub struct Settings {
    /// Whether diagnostics are written before the runtime is run.
    pub verbose: bool,
    /// The text of the extra runtime arguments setting, if it is set.
    pub runtime_args: Option<String>,
    /// The user's home directory, if one is known.
    pub home: Option<String>,
}

/// The home directory: the POSIX one where it is set, else the Windows one.
pub fn pick_home(posix_home: Option<String>, windows_home: Option<String>) -> (r: Option<String>)
    ensures
        posix_home is Some ==> r == posix_home,
        posix_home is None ==> r == windows_home,
{
    match posix_home {
        Some(h) => Some(h),
        None => windows_home,
    }
}

/// A launch that is ready to run.
#[derive(Debug)]
pub struct Launch {
    /// The runtime executable.
    pub runtime: Resolved,
    /// The extra runtime arguments that the settings gave.
    pub extra_args: Vec<String>,
    /// The runtime's command line.
    pub args: Vec<String>,
}

/// Why a launch stops before the runtime is run.
#[derive(Debug)]
pub enum LaunchError {
    Usage(UsageError),
    Config(ConfigError),
    Discovery(DiscoveryError),
}

/// Plans the launch for the process arguments `args`: the invocation is
/// checked first, then the extra runtime arguments, then the runtime is found.
pub fn prepare_launch(args: &Vec<String>, settings: &Settings) -> (r: Result<Launch, LaunchError>)
    ensures
        usage_error_of(args@.len()) matches Some(u) ==> (r matches Err(LaunchError::Usage(e))
            && e == u),
        r matches Err(LaunchError::Usage(e)) ==> usage_error_of(args@.len()) == Some(e),
        r matches Err(LaunchError::Config(e)) ==> usage_error_of(args@.len()) is None
            && setting_outcome(opt_view(settings.runtime_args), Err(e)),
        usage_error_of(args@.len()) is None && extra_args_of(opt_view(settings.runtime_args))
            is None ==> r matches Err(LaunchError::Config(_)),
        r matches Err(LaunchError::Discovery(e)) ==> usage_error_of(args@.len()) is None && match e {
            DiscoveryError::NotFound(p) => fallback_of(args@[1]@, opt_view(settings.home)) == Ok::<
                Seq<char>,
                DiscoveryError,
            >(p@),
            _ => fallback_of(args@[1]@, opt_view(settings.home)) == Err::<Seq<char>, DiscoveryError>(
                e,
            ),
        },
        r matches Ok(l) ==> usage_error_of(args@.len()) is None && extra_args_of(
            opt_view(settings.runtime_args),
        ) == Some(l.extra_args@) && views(l.args@) == command_line_of(
            args@[2]@,
            views(l.extra_args@),
            views(args@.subrange(3, args@.len() as int)),
        ) && (l.runtime.origin is HomeFallback ==> fallback_of(
            args@[1]@,
            opt_view(settings.home),
        ) is Ok),
{
    let inv = match parse_invocation(args) {
        Ok(inv) => inv,
        Err(e) => return Err(LaunchError::Usage(e)),
    };
    let setting = match &settings.runtime_args {
        Some(t) => Some(t.as_str()),
        None => None,
    };
    let extra = match extra_runtime_args(setting) {
        Ok(v) => v,
        Err(e) => return Err(LaunchError::Config(e)),
    };
    let runtime = match resolve_runtime(inv.runtime.as_str(), &settings.home) {
        Ok(res) => res,
        Err(e) => return Err(LaunchError::Discovery(e)),
    };
    let cmd = assemble_args(&inv.program, &extra, &inv.app_args);
    Ok(Launch { runtime, extra_args: extra, args: cmd })
}

} // verus!
