//! Finding the runtime executable: first on the executable search path, then
//! at the conventional install location of a known runtime under the user's
//! home directory, `<home>/<install-dir>/bin/<runtime>`.
use std::path::PathBuf;
use vstd::prelude::*;

verus! {

#[verifier::external_type_specification]
#[verifier::external_body]
pub struct ExPathBuf(std::path::PathBuf);

/// Where a runtime executable was found.
#[derive(Debug, Clone, Copy, PartialEq, Eq, Structural)]
pub enum Origin {
    /// On the executable search path.
    SearchPath,
    /// At the install location under the home directory.
    HomeFallback,
}

/// A runtime executable that was found.
#[derive(Debug)]
pub struct Resolved {
    pub path: PathBuf,
    pub origin: Origin,
}

/// Why no runtime executable was found.
#[derive(Debug, PartialEq, Eq)]
pub enum DiscoveryError {
    /// The runtime is not on the search path and has no known install location.
    CannotAutoDetect,
    /// The runtime is not on the search path and no home directory is known.
    NoHome,
    /// Nothing executable stands at the install location; it holds that path.
    NotFound(String),
}

/// The next step after the search path was consulted.
#[derive(Debug)]
pub enum Discovery {
    /// The executable is found.
    Found(Resolved),
    /// The executable may stand at this path, which is still to be checked.
    Probe(String),
}

/// The install directory, under the home directory, of each known runtime.
pub open spec fn install_dir_of(runtime: Seq<char>) -> Option<Seq<char>> {
    if runtime == "wasmer"@ {
        Some(".wasmer"@)
    } else if runtime == "wasmtime"@ {
        Some(".wasmtime"@)
    } else {
        None
    }
}

/// The install directory of a known runtime; `None` for any other name.
pub fn install_dir(runtime: &str) -> (r: Option<String>)
    ensures
        r is None <==> install_dir_of(runtime@) is None,
        r matches Some(d) ==> install_dir_of(runtime@) == Some(d@),
{
    let name = runtime.to_owned();
    if name == String::from_str("wasmer") {
        Some(String::from_str(".wasmer"))
    } else if name == String::from_str("wasmtime") {
        Some(String::from_str(".wasmtime"))
    } else {
        None
    }
}

/// The view of an optional string.
pub open spec fn opt_view(s: Option<String>) -> Option<Seq<char>> {
    match s {
        Some(x) => Some(x@),
        None => None,
    }
}

/// The path at which a runtime installed under `home` stands.
pub open spec fn install_path_of(home: Seq<char>, dir: Seq<char>, runtime: Seq<char>) -> Seq<char> {
    home + "/"@ + dir + "/bin/"@ + runtime
}

/// The path to check when the runtime is not on the search path. A runtime
/// without a known install location cannot be detected, whatever the home
/// directory; a known one needs a home directory.
pub open spec fn fallback_of(runtime: Seq<char>, home: Option<Seq<char>>) -> Result<
    Seq<char>,
    DiscoveryError,
> {
    match install_dir_of(runtime) {
        None => Err(DiscoveryError::CannotAutoDetect),
        Some(dir) => match home {
            None => Err(DiscoveryError::NoHome),
            Some(h) => Ok(install_path_of(h, dir, runtime)),
        },
    }
}

/// `r` is the path, or the error, that `fallback_of` gives.
pub open spec fn fallback_matches(
    runtime: Seq<char>,
    home: Option<Seq<char>>,
    r: Result<String, DiscoveryError>,
) -> bool {
    match fallback_of(runtime, home) {
        Ok(p) => r matches Ok(s) && s@ == p,
        Err(e) => r == Err::<String, DiscoveryError>(e),
    }
}

/// Each known runtime is installed in a directory named after it, with a dot
/// in front: its fallback path is `<home>/.<runtime>/bin/<runtime>`.
pub proof fn lemma_install_path_named_after_runtime(runtime: Seq<char>, home: Seq<char>)
    requires
        runtime == "wasmer"@ || runtime == "wasmtime"@,
    ensures
        fallback_of(runtime, Some(home)) == Ok::<Seq<char>, DiscoveryError>(
            home + "/"@ + seq!['.'] + runtime + "/bin/"@ + runtime,
        ),
{
    reveal_strlit("wasmer");
    reveal_strlit(".wasmer");
    reveal_strlit("wasmtime");
    reveal_strlit(".wasmtime");
    if runtime == "wasmer"@ {
        assert(".wasmer"@ =~= seq!['.'] + runtime);
    } else {
        assert(".wasmtime"@ =~= seq!['.'] + runtime);
    }
    assert(install_path_of(home, seq!['.'] + runtime, runtime) =~= home + "/"@ + seq!['.']
        + runtime + "/bin/"@ + runtime);
}

/// A runtime outside the table of known ones cannot be detected, whatever the
/// home directory is, or whether there is one.
pub proof fn lemma_unknown_runtime_not_detected(
    runtime: Seq<char>,
    home: Option<Seq<char>>,
    other_home: Option<Seq<char>>,
)
    requires
        install_dir_of(runtime) is None,
    ensures
        fallback_of(runtime, home) == Err::<Seq<char>, DiscoveryError>(
            DiscoveryError::CannotAutoDetect,
        ),
        fallback_of(runtime, home) == fallback_of(runtime, other_home),
{
}

/// The path to check at the install location of `runtime` under `home`.
pub fn fallback_path(runtime: &str, home: &Option<String>) -> (r: Result<String, DiscoveryError>)
    ensures
        fallback_matches(runtime@, opt_view(*home), r),
{
    match install_dir(runtime) {
        None => Err(DiscoveryError::CannotAutoDetect),
        Some(dir) => match home {
            None => Err(DiscoveryError::NoHome),
            Some(h) => {
                let path = h.clone().concat("/").concat(dir.as_str()).concat("/bin/").concat(
                    runtime,
                );
                Ok(path)
            },
        },
    }
}

/// Decides on what the search path gave for `runtime`: that executable where
/// there was one, and otherwise the install location to check. Where the
/// search path found it, the home directory plays no part.
pub fn after_search(runtime: &str, home: &Option<String>, found: Option<PathBuf>) -> (r: Result<
    Discovery,
    DiscoveryError,
>)
    ensures
        found matches Some(p) ==> r == Ok::<Discovery, DiscoveryError>(
            Discovery::Found(Resolved { path: p, origin: Origin::SearchPath }),
        ),
        found is None ==> match fallback_of(runtime@, opt_view(*home)) {
            Ok(p) => r matches Ok(Discovery::Probe(s)) && s@ == p,
            Err(e) => r == Err::<Discovery, DiscoveryError>(e),
        },
{
    match found {
        Some(path) => Ok(Discovery::Found(Resolved { path, origin: Origin::SearchPath })),
        None => match fallback_path(runtime, home) {
            Ok(candidate) => Ok(Discovery::Probe(candidate)),
            Err(e) => Err(e),
        },
    }
}

/// Decides on what the check of the install location `candidate` gave.
pub fn after_probe(candidate: String, found: Option<PathBuf>) -> (r: Result<
    Resolved,
    DiscoveryError,
>)
    ensures
        found matches Some(p) ==> r == Ok::<Resolved, DiscoveryError>(
            Resolved { path: p, origin: Origin::HomeFallback },
        ),
        found is None ==> r == Err::<Resolved, DiscoveryError>(DiscoveryError::NotFound(candidate)),
{
    match found {
        Some(path) => Ok(Resolved { path, origin: Origin::HomeFallback }),
        None => Err(DiscoveryError::NotFound(candidate)),
    }
}

/// Relies on `which::which` to find an executable: by a bare name on the
/// search path, or by a path that must name an existing executable file.
/// What it finds depends on the file system, so nothing is promised of it.
#[verifier::external_body]
fn find_executable(name: &str) -> (r: Option<PathBuf>) {
    which::which(name).ok()
}

/// Finds the executable of `runtime`: on the search path, else at its install
/// location under `home`.
pub fn resolve_runtime(runtime: &str, home: &Option<String>) -> (r: Result<Resolved, DiscoveryError>)
    ensures
        r matches Ok(res) ==> (res.origin is HomeFallback ==> fallback_of(
            runtime@,
            opt_view(*home),
        ) is Ok),
        r matches Err(e) ==> match e {
            DiscoveryError::NotFound(p) => fallback_of(runtime@, opt_view(*home)) == Ok::<
                Seq<char>,
                DiscoveryError,
            >(p@),
            _ => fallback_of(runtime@, opt_view(*home)) == Err::<Seq<char>, DiscoveryError>(e),
        },
{
    match after_search(runtime, home, find_executable(runtime))? {
        Discovery::Found(res) => Ok(res),
        Discovery::Probe(candidate) => {
            let found = find_executable(candidate.as_str());
            after_probe(candidate, found)
        },
    }
}

} // verus!
