use zed_julia::labels::{
    CodeLabel, CodeLabelSpan, Completion, CompletionKind, CompletionLabelDetails, Symbol,
    SymbolKind,
};
use zed_julia::launch::JETLS_REVISION;
use zed_julia::settings::{CommandSettings, LspSettings};
use zed_julia::start::{Action, Event, Phase, ServerStart};
use zed_julia::storage::{DirCreation, StorageEntry, MAX_DURATION_NANOS};
use zed_julia::version::CommandOutput;
use zed_julia::{JuliaExtension, Os};

fn strings(values: &[&str]) -> Vec<String> {
    values.iter().map(|value| value.to_string()).collect()
}

fn pairs(values: &[(&str, &str)]) -> Vec<(String, String)> {
    values
        .iter()
        .map(|(key, value)| (key.to_string(), value.to_string()))
        .collect()
}

fn literal(span: &CodeLabelSpan) -> (String, Option<String>) {
    match span {
        CodeLabelSpan::Literal(literal) => (literal.text.clone(), literal.highlight_name.clone()),
        CodeLabelSpan::CodeRange(_) => panic!("expected a literal span"),
    }
}

// Environment

#[test]
fn setting_a_variable_twice_keeps_the_second_value_only() {
    let mut once = pairs(&[("A", "1"), ("PATH", "/bin"), ("B", "2")]);
    let mut twice = once.clone();
    JuliaExtension::set_env_value(&mut once, "PATH", "second".to_string(), Os::Linux);
    JuliaExtension::set_env_value(&mut twice, "PATH", "first".to_string(), Os::Linux);
    JuliaExtension::set_env_value(&mut twice, "PATH", "second".to_string(), Os::Linux);
    assert_eq!(once, twice);
    assert_eq!(once, pairs(&[("A", "1"), ("B", "2"), ("PATH", "second")]));
}

#[test]
fn setting_a_variable_keeps_the_others() {
    let mut env = pairs(&[("A", "1"), ("a", "lower"), ("B", "2")]);
    JuliaExtension::set_env_value(&mut env, "B", "3".to_string(), Os::Mac);
    assert_eq!(JuliaExtension::env_value(&env, "A", Os::Mac), Some("1"));
    assert_eq!(JuliaExtension::env_value(&env, "a", Os::Mac), Some("lower"));
    assert_eq!(JuliaExtension::env_value(&env, "B", Os::Mac), Some("3"));
}

#[test]
fn later_variables_win_and_windows_replaces_every_casing() {
    let mut env = pairs(&[("Path", "C:\\one"), ("PATH", "C:\\two"), ("OTHER", "x")]);
    assert_eq!(JuliaExtension::env_value(&env, "path", Os::Windows), Some("C:\\two"));
    JuliaExtension::set_env_value(&mut env, "path", "C:\\three".to_string(), Os::Windows);
    assert_eq!(env, pairs(&[("OTHER", "x"), ("path", "C:\\three")]));
    assert!(JuliaExtension::env_key_matches("Julia_Depot_Path", "JULIA_DEPOT_PATH", Os::Windows));
    assert!(!JuliaExtension::env_key_matches("Julia_Depot_Path", "JULIA_DEPOT_PATH", Os::Linux));
    assert!(!JuliaExtension::env_key_matches("PATHS", "PATH", Os::Windows));
}

#[test]
fn an_empty_or_missing_path_becomes_the_directory_alone() {
    let mut env = pairs(&[("PATH", "")]);
    JuliaExtension::prepend_path_directory(&mut env, "/managed/bin", Os::Linux);
    assert_eq!(env, pairs(&[("PATH", "/managed/bin")]));

    let mut env = pairs(&[("HOME", "/h")]);
    JuliaExtension::prepend_path_directory(&mut env, "/managed/bin", Os::Linux);
    assert_eq!(env, pairs(&[("HOME", "/h"), ("PATH", "/managed/bin")]));
}

#[test]
fn uses_the_user_profile_as_home_on_windows() {
    let env = pairs(&[("HOME", "/ignored"), ("USERPROFILE", r"C:\Users\me")]);
    assert_eq!(
        JuliaExtension::server_depot_chain(&env, r"C:\managed", Os::Windows),
        r"C:\managed;C:\Users\me/.julia;"
    );
    assert_eq!(JuliaExtension::path_list_separator(Os::Windows), ';');
    assert_eq!(JuliaExtension::path_list_separator(Os::Linux), ':');
    assert_eq!(JuliaExtension::maintenance_depot_chain("/depot", Os::Linux), "/depot:");
}

// Settings

#[test]
fn settings_give_arguments_and_variables_over_the_shell_environment() {
    let settings = LspSettings {
        binary: Some(CommandSettings {
            path: None,
            arguments: Some(strings(&["--threads=2", "--", "serve"])),
            env: Some(pairs(&[("JULIA_APPS_JULIA_CMD", "/opt/julia/bin/julia")])),
        }),
    };
    assert_eq!(
        JuliaExtension::resolve_binary_args(&settings),
        strings(&["--threads=2", "--", "serve"])
    );
    assert_eq!(
        JuliaExtension::settings_env(&settings),
        pairs(&[("JULIA_APPS_JULIA_CMD", "/opt/julia/bin/julia")])
    );
    let env = JuliaExtension::command_env(
        &settings,
        pairs(&[("JULIA_APPS_JULIA_CMD", "julia"), ("HOME", "/h")]),
        Os::Linux,
    );
    assert_eq!(
        env,
        pairs(&[("HOME", "/h"), ("JULIA_APPS_JULIA_CMD", "/opt/julia/bin/julia")])
    );
    assert_eq!(JuliaExtension::julia_command(&env, Os::Linux), "/opt/julia/bin/julia");

    let defaults = LspSettings { binary: None };
    assert_eq!(JuliaExtension::resolve_binary_args(&defaults), strings(&["serve"]));
    assert!(JuliaExtension::settings_env(&defaults).is_empty());
    assert_eq!(JuliaExtension::julia_command(&[], Os::Linux), "julia");
}

// Commands

#[test]
fn reports_arguments_without_exactly_one_serve() {
    assert_eq!(
        JuliaExtension::args_for_subcommand(&strings(&["--threads=1"]), "version"),
        Err("Invalid JETLS binary arguments: expected exactly one `serve` subcommand, got [\"--threads=1\"]".to_string())
    );
    assert_eq!(
        JuliaExtension::version_command_args(&strings(&["serve"])),
        Ok(strings(&[
            "--startup-file=no",
            "--history-file=no",
            "--threads=auto",
            "-m",
            "JETLS",
            "version"
        ]))
    );
    assert!(JuliaExtension::version_command_args(&[]).is_err());
}

#[test]
fn passes_everything_after_the_first_separator_to_the_app() {
    assert_eq!(
        JuliaExtension::julia_launch_args(&strings(&["-O0", "--", "serve", "--", "x"])),
        strings(&[
            "--startup-file=no",
            "--history-file=no",
            "--threads=auto",
            "-O0",
            "-m",
            "JETLS",
            "serve",
            "--",
            "x"
        ])
    );
}

#[test]
fn resolves_commands_given_as_paths_without_lookup() {
    assert!(JuliaExtension::command_is_path("/usr/bin/julia"));
    assert!(JuliaExtension::command_is_path(r"C:\julia\julia.exe"));
    assert!(!JuliaExtension::command_is_path("julia"));
    assert_eq!(
        JuliaExtension::resolve_command("/usr/bin/julia", "Julia", Some("/elsewhere".to_string())),
        Ok("/usr/bin/julia".to_string())
    );
    assert_eq!(
        JuliaExtension::resolve_command("julia", "Julia", Some("/usr/local/bin/julia".to_string())),
        Ok("/usr/local/bin/julia".to_string())
    );
    assert_eq!(
        JuliaExtension::resolve_command("julia", "Julia", None),
        Err("Unable to find Julia command 'julia'. Make sure it is available in the worktree PATH or specify its full path in Zed settings.".to_string())
    );
}

#[test]
fn builds_the_version_check_and_the_installation_commands() {
    let check = JuliaExtension::julia_version_check_args();
    assert_eq!(check[..3], strings(&["--startup-file=no", "--history-file=no", "-e"])[..]);
    assert!(check[3].starts_with("\nlet lower = v\"1.12.2\"\n    upper = v\"1.13\"\n"));
    assert!(check[3].contains("JETLS requires Julia 1.12.2 through 1.13; found Julia "));
    assert!(check[3].ends_with("    print(stdout, VERSION)\nend\n"));

    assert_eq!(
        JuliaExtension::install_args(),
        strings(&[
            "--startup-file=no",
            "--history-file=no",
            "-e",
            "using Pkg; Pkg.Apps.add(; url=\"https://github.com/aviatesk/JETLS.jl\", rev=\"2026-08-29\")"
        ])
    );
    assert_eq!(
        JuliaExtension::install_env(
            &pairs(&[("PATH", "/usr/bin"), ("JULIA_DEPOT_PATH", "/user")]),
            "/managed",
            Os::Linux
        ),
        pairs(&[("JULIA_DEPOT_PATH", "/managed:"), ("PATH", "/managed/bin:/usr/bin")])
    );
}

// Versions

#[test]
fn reports_failed_commands_with_status_and_output() {
    let ok = CommandOutput { status: Some(0), stdout: b"1.12.6".to_vec(), stderr: Vec::new() };
    assert_eq!(JuliaExtension::successful_output(ok, "The check"), Ok("1.12.6".to_string()));

    let failed = CommandOutput {
        status: Some(1),
        stdout: b"out".to_vec(),
        stderr: vec![b'e', 0xff],
    };
    assert_eq!(
        JuliaExtension::successful_output(failed, "The check"),
        Err("The check exited with status Some(1)\nstdout:\nout\nstderr:\ne\u{FFFD}".to_string())
    );

    let killed = CommandOutput { status: None, stdout: Vec::new(), stderr: Vec::new() };
    assert_eq!(
        JuliaExtension::successful_output(killed, "The check"),
        Err("The check exited with status None\nstdout:\n\nstderr:\n".to_string())
    );

    let negative = CommandOutput { status: Some(-127), stdout: Vec::new(), stderr: Vec::new() };
    assert_eq!(
        JuliaExtension::successful_output(negative, "X"),
        Err("X exited with status Some(-127)\nstdout:\n\nstderr:\n".to_string())
    );
}

#[test]
fn accepts_only_installations_of_the_pinned_release() {
    assert_eq!(
        JuliaExtension::check_installed_version(&format!("jetls version {JETLS_REVISION}\n")),
        Ok(())
    );
    assert_eq!(
        JuliaExtension::check_installed_version("jetls version 2026-08-01\n"),
        Err("Managed JETLS installation returned an unexpected version. Expected 2026-08-29, got:\njetls version 2026-08-01\n".to_string())
    );
    // The revision ends at whitespace or a comma, and lines are trimmed.
    assert!(JuliaExtension::is_pinned_jetls_version(&format!(
        "Precompiling...\r\n  jetls version {JETLS_REVISION} extra\r\n"
    )));
    assert!(!JuliaExtension::is_pinned_jetls_version(&format!(
        "jetls version {JETLS_REVISION}x\n"
    )));
    assert!(!JuliaExtension::is_pinned_jetls_version(""));
}

#[test]
fn keys_runtimes_by_binary_and_minor_version() {
    assert_eq!(JuliaExtension::julia_minor_version("\u{3000} 1 \t"), "1");
    assert_eq!(JuliaExtension::julia_minor_version(""), "");
    assert_eq!(
        JuliaExtension::julia_runtime("/usr/bin/julia", " 1.12.6\n"),
        "/usr/bin/julia\n1.12"
    );
}

// Paths and storage

#[test]
fn joins_paths_with_one_separator() {
    assert_eq!(JuliaExtension::join_path("/a", "b"), "/a/b");
    assert_eq!(JuliaExtension::join_path("/a/", "b"), "/a/b");
    assert_eq!(JuliaExtension::join_path("", "b"), "b");
    assert_eq!(JuliaExtension::join_path("/a", "/b"), "/b");
    assert_eq!(JuliaExtension::current_pointer_path("/c"), "/c/current");
    assert_eq!(JuliaExtension::install_stamp_path("/g"), "/g/install-stamp.json");
    assert_eq!(JuliaExtension::last_used_path("/g"), "/g/last-used");
    assert_eq!(
        JuliaExtension::managed_container_path("/work", "/path/to/julia\n1.12"),
        "/work/jetls-depots/fe6aa0725209c575"
    );
}

#[test]
fn cache_keys_are_sixteen_hexadecimal_digits() {
    assert_eq!(JuliaExtension::runtime_cache_key(""), "cbf29ce484222325");
    assert_eq!(JuliaExtension::runtime_cache_key("a"), "af63dc4c8601ec8c");
    let key = JuliaExtension::runtime_cache_key("julia ü\n1.12");
    assert_eq!(key.len(), 16);
    assert!(key.chars().all(|c| c.is_ascii_hexdigit() && !c.is_ascii_uppercase()));
}

#[test]
fn reads_back_the_published_generation() {
    let document = JuliaExtension::current_pointer_document("2026-08-29-1a");
    assert_eq!(document, "{\"generation\":\"2026-08-29-1a\"}");
    assert_eq!(
        JuliaExtension::current_generation_target("/c", &document),
        Some("/c/2026-08-29-1a".to_string())
    );
    // Written by another tool, with spaces and other members.
    assert_eq!(
        JuliaExtension::current_generation_target("/c", "{ \"other\": 1, \"generation\": \"g\" }"),
        Some("/c/g".to_string())
    );
}

#[test]
fn rejects_unsafe_or_malformed_pointers() {
    for generation in ["../evil", "a/b", r"a\b", ".hidden", "C:evil", ""] {
        let document = format!("{{\"generation\": {generation:?}}}");
        assert_eq!(JuliaExtension::current_generation_target("/c", &document), None);
    }
    assert_eq!(JuliaExtension::current_generation_target("/c", "garbage"), None);
    assert_eq!(JuliaExtension::current_generation_target("/c", "{\"generation\": 7}"), None);
    assert_eq!(JuliaExtension::current_generation_target("/c", "[\"generation\"]"), None);
}

#[test]
fn stamps_the_revision_and_julia_version() {
    assert_eq!(
        JuliaExtension::install_stamp_document("1.12.6"),
        "{\"julia\":\"1.12.6\",\"revision\":\"2026-08-29\"}"
    );
    assert_eq!(
        JuliaExtension::install_stamp_document("a\"b"),
        "{\"julia\":\"a\\\"b\",\"revision\":\"2026-08-29\"}"
    );
}

#[test]
fn names_generations_and_temporary_files_by_time() {
    assert_eq!(JuliaExtension::generation_id_at(255), "2026-08-29-ff");
    assert_eq!(JuliaExtension::generation_id_at(0), "2026-08-29-0");
    assert!(JuliaExtension::is_safe_generation_id(&JuliaExtension::generation_id_at(u128::MAX)));
    let temp = JuliaExtension::replacement_temp_path("/c/current");
    let middle = temp.strip_prefix("/c/current.").unwrap().strip_suffix(".tmp").unwrap();
    assert!(!middle.is_empty());
    assert!(middle.chars().all(|c| c.is_ascii_hexdigit()));
    assert!(JuliaExtension::unix_nanos() > 0);
    assert!(JuliaExtension::unix_nanos() <= MAX_DURATION_NANOS);
}

#[test]
fn ages_entries_by_their_last_use() {
    assert_eq!(JuliaExtension::entry_age(Some(5), Some(9)), Some(5));
    assert_eq!(JuliaExtension::entry_age(None, Some(9)), Some(9));
    assert_eq!(JuliaExtension::entry_age(None, None), None);
}

#[test]
fn cleanup_spares_control_files_and_the_current_generation() {
    let old = Some(30 * 24 * 60 * 60 * 1_000_000_000u128);
    assert!(!JuliaExtension::container_entry_removable("current", "/c/current", None, false, old));
    assert!(!JuliaExtension::container_entry_removable("last-used", "/c/last-used", None, false, old));
    assert!(!JuliaExtension::container_entry_removable("g", "/c/g", Some("/c/g"), true, old));
    assert!(JuliaExtension::container_entry_removable("g", "/c/g", Some("/c/h"), true, old));
    assert!(!JuliaExtension::container_entry_removable("g", "/c/g", None, true, Some(1)));
}

#[test]
fn sweeps_only_sibling_runtimes_of_the_managed_depots() {
    assert!(JuliaExtension::may_sweep_sibling_runtimes("/work/jetls-depots/key"));
    assert!(JuliaExtension::may_sweep_sibling_runtimes("/work/jetls-depots//key/"));
    assert!(!JuliaExtension::may_sweep_sibling_runtimes("/work/other/key"));
    assert!(!JuliaExtension::may_sweep_sibling_runtimes("key"));

    let old = Some(31 * 24 * 60 * 60 * 1_000_000_000u128);
    let fresh = Some(29 * 24 * 60 * 60 * 1_000_000_000u128);
    assert!(JuliaExtension::sibling_runtime_removable("/d/other", "/d/key", old));
    assert!(!JuliaExtension::sibling_runtime_removable("/d/other", "/d/key", fresh));
    assert!(!JuliaExtension::sibling_runtime_removable("/d/other", "/d/key", None));
    assert!(!JuliaExtension::sibling_runtime_removable("/d//key/", "/d/./key", old));
}

#[test]
fn compares_paths_by_their_components() {
    assert!(JuliaExtension::is_same_path("/a/b", "/a//b/"));
    assert!(JuliaExtension::is_same_path("./a", "./a/."));
    assert!(!JuliaExtension::is_same_path("./a", "a"));
    assert!(!JuliaExtension::is_same_path("/a", "a"));
    assert!(!JuliaExtension::is_same_path("/a/b", "/a/c"));
}

// Labels

#[test]
fn labels_completions_by_kind() {
    let label = |text: &str, kind: Option<CompletionKind>| -> CodeLabel {
        JuliaExtension::label_for_completion_impl(Completion {
            label: text.to_string(),
            label_details: None,
            kind,
        })
        .unwrap()
    };
    let macro_label = label("@time", Some(CompletionKind::Function));
    assert_eq!(literal(&macro_label.spans[0]), ("@time".to_string(), Some("function.macro".to_string())));
    let call = label("sum", Some(CompletionKind::Function));
    assert_eq!(literal(&call.spans[0]), ("sum".to_string(), Some("function.call".to_string())));
    let module = label("Base", Some(CompletionKind::Module));
    assert_eq!(literal(&module.spans[0]).1, Some("type".to_string()));
    let plain = label("x", None);
    assert_eq!(literal(&plain.spans[0]), ("x".to_string(), None));
    let snippet = label("αβ", Some(CompletionKind::Snippet));
    match &snippet.spans[0] {
        CodeLabelSpan::CodeRange(range) => assert_eq!((range.start, range.end), (0, 4)),
        CodeLabelSpan::Literal(_) => panic!("expected a code range"),
    }
    assert_eq!((snippet.filter_range.start, snippet.filter_range.end), (0, 4));
    assert_eq!(snippet.code, "αβ");
}

#[test]
fn appends_completion_details_without_highlight() {
    let label = JuliaExtension::label_for_completion_impl(Completion {
        label: "x".to_string(),
        label_details: Some(CompletionLabelDetails {
            detail: Some("::Int".to_string()),
            description: Some("local".to_string()),
        }),
        kind: Some(CompletionKind::Variable),
    })
    .unwrap();
    assert_eq!(label.spans.len(), 3);
    assert_eq!(literal(&label.spans[0]), ("x".to_string(), Some("variable".to_string())));
    assert_eq!(literal(&label.spans[1]), ("::Int".to_string(), None));
    assert_eq!(literal(&label.spans[2]), (" local".to_string(), None));
    assert_eq!(label.code, "x");
}

#[test]
fn labels_symbols_with_their_keyword() {
    let label = |name: &str, kind: SymbolKind| -> CodeLabel {
        JuliaExtension::label_for_symbol_impl(Symbol { kind, name: name.to_string() }).unwrap()
    };
    let function = label("f", SymbolKind::Function);
    assert_eq!(function.code, "function f");
    assert_eq!(literal(&function.spans[0]), ("function ".to_string(), Some("keyword".to_string())));
    assert_eq!(literal(&function.spans[1]), ("f".to_string(), Some("function".to_string())));
    assert_eq!((function.filter_range.start, function.filter_range.end), (9, 10));

    let macro_symbol = label("@m", SymbolKind::Function);
    assert_eq!(macro_symbol.code, "macro @m");

    let abstract_type = label("Number", SymbolKind::Interface);
    assert_eq!(abstract_type.code, "abstract type Number");

    let field = label("ü", SymbolKind::Field);
    assert_eq!(field.spans.len(), 1);
    assert_eq!(literal(&field.spans[0]), ("ü".to_string(), Some("property".to_string())));
    assert_eq!((field.filter_range.start, field.filter_range.end), (0, 2));

    let other = label("k", SymbolKind::Key);
    assert_eq!(literal(&other.spans[0]), ("k".to_string(), None));
    assert_eq!(other.code, "k");
}

// The start of the managed server

fn output(status: i32, stdout: &str) -> Event {
    Event::CommandRan(Ok(CommandOutput {
        status: Some(status),
        stdout: stdout.as_bytes().to_vec(),
        stderr: Vec::new(),
    }))
}

fn begin(env: &[(&str, &str)]) -> ServerStart {
    ServerStart::new(&LspSettings { binary: None }, pairs(env), Os::Linux)
}

/// Drives the start up to its container, with Julia found and 1.12.6.
fn up_to_pointer(env: &[(&str, &str)]) -> (ServerStart, String) {
    let mut start = begin(env);
    assert!(matches!(start.action(), Action::FindCommand { command } if command == "julia"));
    start = start.advance(Event::CommandFound(Some("/usr/bin/julia".to_string())));
    match start.action() {
        Action::RunCommand { program, args, .. } => {
            assert_eq!(program, "/usr/bin/julia");
            assert_eq!(args, JuliaExtension::julia_version_check_args());
        }
        _ => panic!("expected the version check"),
    }
    start = start.advance(output(0, "1.12.6"));
    assert!(matches!(start.action(), Action::ResolveCurrentDir));
    start = start.advance(Event::CurrentDir(Ok("/work".to_string())));
    let container = JuliaExtension::managed_container_path("/work", "/usr/bin/julia\n1.12");
    assert!(matches!(start.action(), Action::CreateDirectories { path } if path == container));
    start = start.advance(Event::DirectoriesCreated(Ok(())));
    let marker = format!("{container}/last-used");
    assert!(matches!(start.action(), Action::TouchFile { path } if path == marker));
    start = start.advance(Event::Touched);
    let pointer = format!("{container}/current");
    assert!(matches!(start.action(), Action::ReadPointer { path } if path == pointer));
    (start, container)
}

fn finish(mut start: ServerStart, generation: &str, container: &str) -> ServerStart {
    let marker = format!("{generation}/last-used");
    assert!(matches!(start.action(), Action::TouchFile { path } if path == marker));
    start = start.advance(Event::Touched);
    let marker = format!("{container}/last-used");
    assert!(matches!(start.action(), Action::TouchFile { path } if path == marker));
    start = start.advance(Event::Touched);
    assert!(matches!(start.action(), Action::CleanUp { container_path } if container_path == container));
    start.advance(Event::CleanedUp)
}

#[test]
fn installs_verifies_and_then_publishes_a_fresh_generation() {
    let (mut start, container) = up_to_pointer(&[("HOME", "/Users/me"), ("PATH", "/usr/bin")]);
    start = start.advance(Event::PointerRead(None));
    assert!(matches!(start.action(), Action::ReportDownloading));
    start = start.advance(Event::StatusReported);
    assert!(matches!(start.action(), Action::ReadClock));
    start = start.advance(Event::Clock(255));
    let generation = format!("{container}/2026-08-29-ff");
    assert!(matches!(start.action(), Action::CreateDirectory { path } if path == generation));
    start = start.advance(Event::DirectoryCreated(DirCreation::Created));
    assert!(matches!(start.action(), Action::CreateDirectories { path } if path == generation));
    start = start.advance(Event::DirectoriesCreated(Ok(())));
    match start.action() {
        Action::RunCommand { args, env, .. } => {
            assert_eq!(args, JuliaExtension::install_args());
            assert_eq!(
                JuliaExtension::env_value(&env, "PATH", Os::Linux),
                Some(format!("{generation}/bin:/usr/bin").as_str())
            );
        }
        _ => panic!("expected the installation"),
    }
    start = start.advance(output(0, "installed"));
    match start.action() {
        Action::RunCommand { args, env, .. } => {
            assert_eq!(args.last().unwrap(), "version");
            assert_eq!(
                JuliaExtension::env_value(&env, "JULIA_LOAD_PATH", Os::Linux),
                Some(format!("{generation}/environments/apps/JETLS").as_str())
            );
        }
        _ => panic!("expected the version check"),
    }
    start = start.advance(output(0, "jetls version 2026-08-29, julia version 1.12.6\n"));
    match start.action() {
        Action::ReplaceFile { path, content } => {
            assert_eq!(path, format!("{generation}/install-stamp.json"));
            assert_eq!(content, "{\"julia\":\"1.12.6\",\"revision\":\"2026-08-29\"}");
        }
        _ => panic!("expected the stamp"),
    }
    start = start.advance(Event::FileReplaced(Err("read-only".to_string())));
    match start.action() {
        Action::ReplaceFile { path, content } => {
            assert_eq!(path, format!("{container}/current"));
            assert_eq!(content, "{\"generation\":\"2026-08-29-ff\"}");
        }
        _ => panic!("expected the publication"),
    }
    start = start.advance(Event::FileReplaced(Ok(())));
    start = finish(start, &generation, &container);
    assert_eq!(start.phase(), Phase::Finished);
    match start.action() {
        Action::Finish(Ok(command)) => {
            assert_eq!(command.command, "/usr/bin/julia");
            assert_eq!(command.args, JuliaExtension::julia_launch_args(&strings(&["serve"])));
            assert_eq!(
                JuliaExtension::env_value(&command.env, "JULIA_DEPOT_PATH", Os::Linux),
                Some(format!("{generation}:/Users/me/.julia:").as_str())
            );
        }
        _ => panic!("expected the launch command"),
    }
}

#[test]
fn reuses_a_published_generation_of_the_pinned_release() {
    let (mut start, container) = up_to_pointer(&[]);
    start = start.advance(Event::PointerRead(Some("{\"generation\":\"2026-08-29-1\"}".to_string())));
    let generation = format!("{container}/2026-08-29-1");
    assert!(matches!(start.action(), Action::CheckDirectory { path } if path == generation));
    start = start.advance(Event::DirectoryChecked(true));
    assert!(matches!(start.action(), Action::RunCommand { .. }));
    start = start.advance(output(0, "jetls version 2026-08-29\n"));
    start = finish(start, &generation, &container);
    assert!(matches!(start.action(), Action::Finish(Ok(_))));
}

#[test]
fn reports_a_failed_repair_with_the_failed_verification() {
    let (mut start, container) = up_to_pointer(&[]);
    start = start.advance(Event::PointerRead(Some("{\"generation\":\"g\"}".to_string())));
    start = start.advance(Event::DirectoryChecked(true));
    start = start.advance(output(1, ""));
    assert!(matches!(start.action(), Action::ReportDownloading));
    start = start.advance(Event::StatusReported);
    start = start.advance(Event::Clock(1));
    start = start.advance(Event::DirectoryCreated(DirCreation::Failed("denied".to_string())));
    match start.action() {
        Action::Finish(Err(message)) => assert_eq!(
            message,
            format!(
                "The cached managed JETLS installation failed verification:\nThe JETLS version check exited with status Some(1)\nstdout:\n\nstderr:\n\nFailed to repair the managed JETLS installation:\nFailed to create a managed JETLS generation in '{container}': denied\nIf the error persists, delete the managed JETLS storage at '{container}' and restart the language server."
            )
        ),
        _ => panic!("expected the failure"),
    }
}

#[test]
fn gives_up_after_eight_taken_generation_names() {
    let (mut start, container) = up_to_pointer(&[]);
    start = start.advance(Event::PointerRead(None));
    start = start.advance(Event::StatusReported);
    for attempt in 0..8 {
        assert!(matches!(start.action(), Action::ReadClock));
        start = start.advance(Event::Clock(attempt));
        start = start.advance(Event::DirectoryCreated(DirCreation::AlreadyExists));
    }
    match start.action() {
        Action::Finish(Err(message)) => assert_eq!(
            message,
            format!(
                "Failed to allocate a fresh managed JETLS generation in '{container}'\nIf the error persists, delete the managed JETLS storage at '{container}' and restart the language server."
            )
        ),
        _ => panic!("expected the failure"),
    }
}

#[test]
fn never_publishes_an_installation_of_another_release() {
    let (mut start, container) = up_to_pointer(&[]);
    start = start.advance(Event::PointerRead(None));
    start = start.advance(Event::StatusReported);
    start = start.advance(Event::Clock(2));
    start = start.advance(Event::DirectoryCreated(DirCreation::Created));
    start = start.advance(Event::DirectoriesCreated(Ok(())));
    start = start.advance(output(0, ""));
    start = start.advance(output(0, "jetls version 2026-08-01\n"));
    match start.action() {
        Action::Finish(Err(message)) => {
            assert!(message.starts_with("Managed JETLS installation returned an unexpected version."));
            assert!(message.ends_with(&format!("delete the managed JETLS storage at '{container}' and restart the language server.")));
        }
        _ => panic!("expected the failure"),
    }
}

#[test]
fn fails_early_without_julia_or_a_supported_version() {
    let start = begin(&[]).advance(Event::CommandFound(None));
    assert!(matches!(start.action(), Action::Finish(Err(message)) if message.starts_with("Unable to find Julia command 'julia'.")));

    let start = begin(&[])
        .advance(Event::CommandFound(Some("/j".to_string())))
        .advance(Event::CommandRan(Err("no such file".to_string())));
    assert!(matches!(start.action(), Action::Finish(Err(message)) if message == "Failed to run the Julia version check using '/j': no such file"));

    let start = begin(&[])
        .advance(Event::CommandFound(Some("/j".to_string())))
        .advance(output(0, "1.12.6"))
        .advance(Event::CurrentDir(Err("gone".to_string())));
    assert!(matches!(start.action(), Action::Finish(Err(message)) if message == "Failed to resolve the extension data directory: gone"));
}

#[test]
fn ignores_events_that_answer_no_pending_action() {
    let start = begin(&[("JULIA_APPS_JULIA_CMD", "/opt/julia")]);
    assert_eq!(start.phase(), Phase::CheckingJulia);
    let start = start.advance(Event::Touched);
    assert_eq!(start.phase(), Phase::CheckingJulia);
    let done = start.advance(Event::CommandRan(Err("x".to_string())));
    assert_eq!(done.phase(), Phase::Finished);
    let still = done.advance(Event::CleanedUp);
    assert_eq!(still.phase(), Phase::Finished);
}

#[test]
fn launches_the_reused_generation_with_its_own_environment() {
    let (mut start, container) = up_to_pointer(&[]);
    start = start.advance(Event::PointerRead(Some("{\"generation\":\"2026-08-29-2\"}".to_string())));
    let generation = format!("{container}/2026-08-29-2");
    start = start.advance(Event::DirectoryChecked(true));
    start = start.advance(output(0, "jetls version 2026-08-29\n"));
    start = finish(start, &generation, &container);
    match start.action() {
        Action::Finish(Ok(command)) => {
            assert_eq!(command.command, "/usr/bin/julia");
            assert_eq!(command.args, JuliaExtension::julia_launch_args(&strings(&["serve"])));
            assert_eq!(
                command.env,
                JuliaExtension::server_launch_env(Vec::new(), &generation, Os::Linux)
            );
        }
        _ => panic!("expected the launch command"),
    }
}

#[test]
fn stops_the_minor_version_at_the_second_dot() {
    assert_eq!(JuliaExtension::julia_minor_version("1.2.3.4"), "1.2");
    assert_eq!(JuliaExtension::julia_minor_version(" 1. "), "1.");
    assert_eq!(JuliaExtension::julia_minor_version("..x"), ".");
    assert_eq!(JuliaExtension::julia_minor_version("12"), "12");
}

#[test]
fn replaces_the_one_serve_wherever_it_stands() {
    assert_eq!(
        JuliaExtension::args_for_subcommand(&strings(&["serve", "--x"]), "version").unwrap(),
        strings(&["version"])
    );
    assert_eq!(
        JuliaExtension::args_for_subcommand(&strings(&["-a", "-b", "serve"]), "check").unwrap(),
        strings(&["-a", "-b", "check"])
    );
    assert!(JuliaExtension::args_for_subcommand(&strings(&["serve", "-a", "serve"]), "version")
        .is_err());
}

#[test]
fn escapes_pointer_text_as_json_does() {
    assert_eq!(
        JuliaExtension::current_pointer_document("a\"b\\c\n\t\u{1}\u{1f}é"),
        "{\"generation\":\"a\\\"b\\\\c\\n\\t\\u0001\\u001fé\"}"
    );
}

fn entry(name: &str, published: bool, days: Option<u128>) -> StorageEntry {
    StorageEntry {
        name: name.to_string(),
        published,
        age: days.map(|d| d * 24 * 60 * 60 * 1_000_000_000 + 1),
    }
}

#[test]
fn plans_the_container_cleanup_from_its_listing() {
    let entries = vec![
        entry("current", false, Some(90)),
        entry("last-used", false, Some(90)),
        entry("2026-08-29-1", true, Some(90)),
        entry("2026-08-29-2", true, Some(8)),
        entry("2026-08-29-3", true, Some(6)),
        entry("2026-08-29-4", false, Some(1)),
        entry("2026-08-29-5", false, None),
        entry("old-depot", false, Some(2)),
    ];
    assert_eq!(
        JuliaExtension::container_cleanup_paths("/d/key", Some("/d/key/2026-08-29-1"), &entries),
        strings(&["/d/key/2026-08-29-2", "/d/key/2026-08-29-4", "/d/key/old-depot"])
    );
    assert_eq!(
        JuliaExtension::container_cleanup_paths("/d/key/", None, &entries[2..3]),
        strings(&["/d/key/2026-08-29-1"])
    );
}

#[test]
fn plans_the_sibling_sweep_only_in_the_managed_depots() {
    let entries = vec![
        entry("key", false, Some(90)),
        entry("other", false, Some(31)),
        entry("recent", false, Some(29)),
        entry("unknown", false, None),
    ];
    assert_eq!(
        JuliaExtension::sibling_cleanup_paths("/w/jetls-depots/key", "/w/jetls-depots", &entries),
        strings(&["/w/jetls-depots/other"])
    );
    assert!(JuliaExtension::sibling_cleanup_paths("/w/other/key", "/w/other", &entries).is_empty());
}
