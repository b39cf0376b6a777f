use std::path::PathBuf;
use wasm_runner::command::{assemble_args, exit_code, NO_STATUS_EXIT};
use wasm_runner::discovery::{
    after_probe, after_search, fallback_path, install_dir, resolve_runtime, Discovery,
    DiscoveryError, Origin,
};
use wasm_runner::invocation::{parse_invocation, usage, UsageError};
use wasm_runner::launch::{pick_home, prepare_launch, LaunchError, Settings};
use wasm_runner::runtime_args::{
    args_from_document, extra_runtime_args, ConfigError, JsonDocument, JsonEntry,
};

fn strings(items: &[&str]) -> Vec<String> {
    items.iter().map(|s| s.to_string()).collect()
}

fn settings(runtime_args: Option<&str>, home: Option<&str>) -> Settings {
    Settings {
        verbose: false,
        runtime_args: runtime_args.map(|s| s.to_string()),
        home: home.map(|s| s.to_string()),
    }
}

#[test]
fn usage_text_names_the_launcher() {
    assert_eq!(
        usage("wasm-runner"),
        "USAGE:\n    wasm-runner <RUNTIME-CMD> <WASM-PROGRAM> [<ARGUMENT>...]"
    );
}

#[test]
fn usage_error_messages() {
    assert_eq!(UsageError::MissingRuntime.message(), "Need to specify WASM runtime command");
    assert_eq!(UsageError::MissingProgram.message(), "Need to specify WASM program file");
}

#[test]
fn invocation_without_runtime_is_usage_error() {
    assert!(matches!(parse_invocation(&strings(&[])), Err(UsageError::MissingRuntime)));
    assert!(matches!(parse_invocation(&strings(&["runner"])), Err(UsageError::MissingRuntime)));
}

#[test]
fn invocation_without_program_is_usage_error() {
    assert!(matches!(
        parse_invocation(&strings(&["runner", "wasmtime"])),
        Err(UsageError::MissingProgram)
    ));
}

#[test]
fn invocation_splits_runtime_program_and_arguments() {
    let inv = parse_invocation(&strings(&["runner", "wasmtime", "prog.wasm", "a", "-b"]))
        .ok()
        .unwrap();
    assert_eq!(inv.runtime, "wasmtime");
    assert_eq!(inv.program, "prog.wasm");
    assert_eq!(inv.app_args, strings(&["a", "-b"]));
    let bare = parse_invocation(&strings(&["runner", "wasmer", "p.wasm"])).ok().unwrap();
    assert!(bare.app_args.is_empty());
}

#[test]
fn short_invocation_stops_launch_with_usage() {
    let s = settings(None, Some("/home/u"));
    assert!(matches!(
        prepare_launch(&strings(&["runner"]), &s),
        Err(LaunchError::Usage(UsageError::MissingRuntime))
    ));
    assert!(matches!(
        prepare_launch(&strings(&["runner", "wasmer"]), &s),
        Err(LaunchError::Usage(UsageError::MissingProgram))
    ));
}

#[test]
fn usage_is_checked_before_the_setting() {
    let s = settings(Some("{\"a\":1}"), None);
    assert!(matches!(
        prepare_launch(&strings(&["runner"]), &s),
        Err(LaunchError::Usage(UsageError::MissingRuntime))
    ));
}

#[test]
fn assembled_args_with_extra_runtime_args() {
    let extra = extra_runtime_args(Some("[\"--flag\",\"x\"]")).ok().unwrap();
    assert_eq!(extra, strings(&["--flag", "x"]));
    let args = assemble_args(&"prog.wasm".to_string(), &extra, &strings(&["a", "b"]));
    assert_eq!(args, strings(&["run", "prog.wasm", "--flag", "x", "--", "a", "b"]));
}

#[test]
fn assembled_args_without_setting() {
    let extra = extra_runtime_args(None).ok().unwrap();
    assert!(extra.is_empty());
    let args = assemble_args(&"prog.wasm".to_string(), &extra, &strings(&["a"]));
    assert_eq!(args, strings(&["run", "prog.wasm", "--", "a"]));
}

#[test]
fn assembled_args_keep_separator_with_nothing_else() {
    let args = assemble_args(&"p.wasm".to_string(), &vec![], &vec![]);
    assert_eq!(args, strings(&["run", "p.wasm", "--"]));
}

#[test]
fn empty_json_array_gives_no_extra_args() {
    assert!(extra_runtime_args(Some("[]")).ok().unwrap().is_empty());
}

#[test]
fn json_object_setting_is_rejected() {
    assert!(matches!(extra_runtime_args(Some("{\"a\":1}")), Err(ConfigError::NotAList)));
    assert!(matches!(extra_runtime_args(Some("\"--flag\"")), Err(ConfigError::NotAList)));
}

#[test]
fn json_array_with_number_is_rejected() {
    match extra_runtime_args(Some("[\"x\",1,true]")) {
        Err(ConfigError::NotText(shown)) => assert_eq!(shown, "Number(1)"),
        other => panic!("unexpected {:?}", other),
    }
}

#[test]
fn invalid_json_setting_is_rejected() {
    assert!(matches!(extra_runtime_args(Some("[\"x\"")), Err(ConfigError::Malformed(_))));
    assert!(matches!(extra_runtime_args(Some("")), Err(ConfigError::Malformed(_))));
}

#[test]
fn malformed_setting_stops_launch() {
    let args = strings(&["runner", "no-such-runtime-for-tests", "prog.wasm"]);
    assert!(matches!(
        prepare_launch(&args, &settings(Some("{\"a\":1}"), Some("/home/u"))),
        Err(LaunchError::Config(ConfigError::NotAList))
    ));
    assert!(matches!(
        prepare_launch(&args, &settings(Some("[1]"), Some("/home/u"))),
        Err(LaunchError::Config(ConfigError::NotText(_)))
    ));
}

#[test]
fn document_reports_first_non_string_entry() {
    let doc = JsonDocument::List(vec![
        JsonEntry::Text("a".to_string()),
        JsonEntry::Other("Null".to_string()),
        JsonEntry::Other("Bool(true)".to_string()),
    ]);
    match args_from_document(doc) {
        Err(ConfigError::NotText(shown)) => assert_eq!(shown, "Null"),
        other => panic!("unexpected {:?}", other),
    }
    assert!(matches!(args_from_document(JsonDocument::Other), Err(ConfigError::NotAList)));
}

#[test]
fn install_dirs_of_known_runtimes() {
    assert_eq!(install_dir("wasmer"), Some(".wasmer".to_string()));
    assert_eq!(install_dir("wasmtime"), Some(".wasmtime".to_string()));
    assert_eq!(install_dir("wasm3"), None);
    assert_eq!(install_dir("Wasmer"), None);
}

#[test]
fn fallback_path_of_known_runtime() {
    let home = Some("/home/u".to_string());
    assert_eq!(fallback_path("wasmer", &home), Ok("/home/u/.wasmer/bin/wasmer".to_string()));
    assert_eq!(
        fallback_path("wasmtime", &home),
        Ok("/home/u/.wasmtime/bin/wasmtime".to_string())
    );
}

#[test]
fn fallback_needs_home_for_known_runtime() {
    assert_eq!(fallback_path("wasmtime", &None), Err(DiscoveryError::NoHome));
}

#[test]
fn unknown_runtime_cannot_be_detected() {
    assert_eq!(fallback_path("node", &Some("/home/u".to_string())), Err(DiscoveryError::CannotAutoDetect));
    assert_eq!(fallback_path("node", &None), Err(DiscoveryError::CannotAutoDetect));
    assert!(matches!(
        after_search("node", &None, None),
        Err(DiscoveryError::CannotAutoDetect)
    ));
    assert!(matches!(
        resolve_runtime("no-such-runtime-for-tests", &Some("/home/u".to_string())),
        Err(DiscoveryError::CannotAutoDetect)
    ));
}

#[test]
fn unknown_runtime_stops_launch() {
    let args = strings(&["runner", "no-such-runtime-for-tests", "prog.wasm"]);
    assert!(matches!(
        prepare_launch(&args, &settings(None, None)),
        Err(LaunchError::Discovery(DiscoveryError::CannotAutoDetect))
    ));
}

#[test]
fn search_path_result_wins() {
    let found = PathBuf::from("/usr/local/bin/wasmer");
    match after_search("wasmer", &None, Some(found.clone())) {
        Ok(Discovery::Found(res)) => {
            assert_eq!(res.path, found);
            assert_eq!(res.origin, Origin::SearchPath);
        }
        other => panic!("unexpected {:?}", other),
    }
}

#[test]
fn missing_runtime_is_probed_at_install_location() {
    match after_search("wasmer", &Some("/home/u".to_string()), None) {
        Ok(Discovery::Probe(candidate)) => {
            assert_eq!(candidate, "/home/u/.wasmer/bin/wasmer");
            let res = after_probe(candidate.clone(), Some(PathBuf::from(&candidate))).ok().unwrap();
            assert_eq!(res.path, PathBuf::from("/home/u/.wasmer/bin/wasmer"));
            assert_eq!(res.origin, Origin::HomeFallback);
        }
        other => panic!("unexpected {:?}", other),
    }
}

#[test]
fn failed_probe_names_the_path() {
    let r = after_probe("/home/u/.wasmtime/bin/wasmtime".to_string(), None);
    assert!(matches!(
        r,
        Err(DiscoveryError::NotFound(p)) if p == "/home/u/.wasmtime/bin/wasmtime"
    ));
}

#[test]
fn home_prefers_posix_variable() {
    assert_eq!(pick_home(Some("/home/u".to_string()), Some("C:\\Users\\u".to_string())), Some("/home/u".to_string()));
    assert_eq!(pick_home(None, Some("C:\\Users\\u".to_string())), Some("C:\\Users\\u".to_string()));
    assert_eq!(pick_home(None, None), None);
}

#[test]
fn exit_status_follows_runtime() {
    assert_eq!(exit_code(Some(0)), 0);
    assert_eq!(exit_code(Some(42)), 42);
    assert_eq!(exit_code(Some(1)), 1);
    assert_eq!(exit_code(None), NO_STATUS_EXIT);
    assert_ne!(exit_code(None), 0);
}
