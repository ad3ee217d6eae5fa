use std::time::Duration;

use zed_julia::launch::JETLS_REVISION;
use zed_julia::{JuliaExtension, Os};

fn strings(values: &[&str]) -> Vec<String> {
    values.iter().map(|value| value.to_string()).collect()
}

#[test]
fn derives_sibling_jetls_subcommands() {
    let args = strings(&["--threads=1", "--", "serve", "ignored"]);
    assert_eq!(
        JuliaExtension::args_for_subcommand(&args, "version").unwrap(),
        strings(&["--threads=1", "--", "version"])
    );
}

#[test]
fn rejects_ambiguous_serve_subcommands() {
    let missing = strings(&["--threads=1"]);
    assert!(JuliaExtension::args_for_subcommand(&missing, "version").is_err());

    let repeated = strings(&["serve", "--", "serve"]);
    assert!(JuliaExtension::args_for_subcommand(&repeated, "version").is_err());
}

#[test]
fn launches_julia_directly_with_the_shim_argument_protocol() {
    // Without a `--` separator, every argument goes to the JETLS app.
    assert_eq!(
        JuliaExtension::julia_launch_args(&strings(&["serve"])),
        strings(&[
            "--startup-file=no",
            "--history-file=no",
            "--threads=auto",
            "-m",
            "JETLS",
            "serve"
        ])
    );
    // Arguments before `--` go to `julia` itself, after the defaults so
    // they can override them.
    assert_eq!(
        JuliaExtension::julia_launch_args(&strings(&["--threads=1", "--", "serve"])),
        strings(&[
            "--startup-file=no",
            "--history-file=no",
            "--threads=auto",
            "--threads=1",
            "-m",
            "JETLS",
            "serve"
        ])
    );
}

#[test]
fn chains_the_managed_depot_before_the_user_depots() {
    // An explicit user chain is preserved after the managed depot.
    let env = vec![("JULIA_DEPOT_PATH".to_string(), "/custom/depot:".to_string())];
    assert_eq!(
        JuliaExtension::server_depot_chain(&env, "/managed", Os::Mac),
        "/managed:/custom/depot:"
    );

    let env = vec![("JULIA_DEPOT_PATH".to_string(), r"C:\custom".to_string())];
    assert_eq!(
        JuliaExtension::server_depot_chain(&env, r"C:\managed", Os::Windows),
        r"C:\managed;C:\custom"
    );

    // Windows environment keys match case-insensitively.
    let env = vec![("julia_depot_path".to_string(), r"C:\custom".to_string())];
    assert_eq!(
        JuliaExtension::server_depot_chain(&env, r"C:\managed", Os::Windows),
        r"C:\managed;C:\custom"
    );

    // Otherwise the default user depot is chained, with a trailing empty
    // entry appending the bundled system depots.
    let env = vec![("HOME".to_string(), "/Users/me".to_string())];
    assert_eq!(
        JuliaExtension::server_depot_chain(&env, "/managed", Os::Mac),
        "/managed:/Users/me/.julia:"
    );

    // An empty user chain means the Julia default chain, not "no depot".
    let env = vec![
        ("JULIA_DEPOT_PATH".to_string(), String::new()),
        ("HOME".to_string(), "/Users/me".to_string()),
    ];
    assert_eq!(
        JuliaExtension::server_depot_chain(&env, "/managed", Os::Mac),
        "/managed:/Users/me/.julia:"
    );

    // Without a resolvable home, fall back to the bundled depots only.
    assert_eq!(
        JuliaExtension::server_depot_chain(&[], "/managed", Os::Mac),
        "/managed:"
    );
}

#[test]
fn pins_the_depot_chain_and_load_path_for_the_server_launch() {
    let env = vec![("HOME".to_string(), "/Users/me".to_string())];
    let launch_env = JuliaExtension::server_launch_env(env, "/managed", Os::Mac);
    assert_eq!(
        JuliaExtension::env_value(&launch_env, "JULIA_DEPOT_PATH", Os::Mac),
        Some("/managed:/Users/me/.julia:")
    );
    assert_eq!(
        JuliaExtension::env_value(&launch_env, "JULIA_LOAD_PATH", Os::Mac),
        Some("/managed/environments/apps/JETLS")
    );
}

#[test]
fn recognizes_only_the_pinned_jetls_version() {
    assert!(JuliaExtension::is_pinned_jetls_version(&format!(
        "jetls version {JETLS_REVISION}, julia version 1.12.6\n"
    )));
    assert!(JuliaExtension::is_pinned_jetls_version(&format!(
        "jetls version {JETLS_REVISION}\n"
    )));
    assert!(!JuliaExtension::is_pinned_jetls_version(
        "jetls version 2026-08-01, julia version 1.12.6\n"
    ));
    // The pre-2026-08-23 output format signals a stale installation.
    assert!(!JuliaExtension::is_pinned_jetls_version(&format!(
        "JETLS version {JETLS_REVISION} on Julia 1.12.6\n"
    )));
    assert!(!JuliaExtension::is_pinned_jetls_version(&format!(
        "jetls version {JETLS_REVISION}\njetls version {JETLS_REVISION}\n"
    )));
    assert!(!JuliaExtension::is_pinned_jetls_version(
        "unexpected output\n"
    ));
}

#[test]
fn generation_ids_embed_the_pinned_revision() {
    let id = JuliaExtension::new_generation_id();
    let suffix = id.strip_prefix(&format!("{JETLS_REVISION}-")).unwrap();
    assert!(!suffix.is_empty());
    assert!(suffix
        .chars()
        .all(|character| character.is_ascii_hexdigit()));
}

#[test]
fn reclaims_entries_only_after_their_grace() {
    const HOUR: Duration = Duration::from_secs(60 * 60);
    const DAY: Duration = Duration::from_secs(24 * 60 * 60);
    // An unknown age never removes.
    assert!(!JuliaExtension::should_remove_entry(false, None));
    // In-progress installations survive the short grace...
    assert!(!JuliaExtension::should_remove_entry(false, Some(HOUR.as_nanos())));
    // ...but abandoned ones are reclaimed soon after it.
    assert!(JuliaExtension::should_remove_entry(false, Some((2 * DAY).as_nanos())));
    // Published generations outlive the unpublished grace...
    assert!(!JuliaExtension::should_remove_entry(true, Some((2 * DAY).as_nanos())));
    // ...until no window has plausibly resolved them within the retention.
    assert!(JuliaExtension::should_remove_entry(true, Some((8 * DAY).as_nanos())));
}

#[test]
fn requests_update_unless_the_pinned_version_is_verified() {
    // Not installed yet.
    assert!(JuliaExtension::managed_installation_needs_update(None));
    // Installed, but failed verification (e.g., a corrupted depot).
    assert!(JuliaExtension::managed_installation_needs_update(Some(
        &Err("The JETLS version check exited with status Some(1)".to_string())
    )));
    // Installed, but at a different pin.
    assert!(JuliaExtension::managed_installation_needs_update(Some(
        &Ok("jetls version 2026-08-01, julia version 1.12.6\n".to_string())
    )));
    // Installed at the pinned version.
    assert!(!JuliaExtension::managed_installation_needs_update(Some(
        &Ok(format!(
            "jetls version {JETLS_REVISION}, julia version 1.12.6\n"
        ))
    )));
}

#[test]
fn replaces_environment_values_instead_of_duplicating_them() {
    let mut env = vec![
        ("OTHER".to_string(), "value".to_string()),
        ("JULIA_DEPOT_PATH".to_string(), "old".to_string()),
    ];
    JuliaExtension::set_env_value(
        &mut env,
        "JULIA_DEPOT_PATH",
        "managed".to_string(),
        Os::Mac,
    );

    assert_eq!(
        JuliaExtension::env_value(&env, "JULIA_DEPOT_PATH", Os::Mac),
        Some("managed")
    );
    assert_eq!(
        env.iter()
            .filter(|(key, _)| key == "JULIA_DEPOT_PATH")
            .count(),
        1
    );
}

#[test]
fn matches_environment_keys_case_insensitively_on_windows() {
    let mut env = vec![("Julia_Depot_Path".to_string(), "old".to_string())];
    assert_eq!(
        JuliaExtension::env_value(&env, "JULIA_DEPOT_PATH", Os::Windows),
        Some("old")
    );
    // Elsewhere, differently cased keys are distinct variables.
    assert_eq!(
        JuliaExtension::env_value(&env, "JULIA_DEPOT_PATH", Os::Mac),
        None
    );

    // A replacement must not leave a differently cased duplicate behind.
    JuliaExtension::set_env_value(
        &mut env,
        "JULIA_DEPOT_PATH",
        "managed".to_string(),
        Os::Windows,
    );
    assert_eq!(
        env,
        vec![("JULIA_DEPOT_PATH".to_string(), "managed".to_string())]
    );
}

#[test]
fn prepends_the_managed_app_bin_to_path() {
    let mut mac_env = vec![("PATH".to_string(), "/usr/bin".to_string())];
    JuliaExtension::prepend_path_directory(&mut mac_env, "/managed/bin", Os::Mac);
    assert_eq!(
        mac_env,
        vec![("PATH".to_string(), "/managed/bin:/usr/bin".to_string())]
    );

    let mut windows_env = vec![("Path".to_string(), r"C:\Windows\System32".to_string())];
    JuliaExtension::prepend_path_directory(
        &mut windows_env,
        r"C:\managed\bin",
        Os::Windows,
    );
    assert_eq!(
        windows_env,
        vec![(
            "PATH".to_string(),
            r"C:\managed\bin;C:\Windows\System32".to_string()
        )]
    );
}

#[test]
fn keys_the_depot_by_julia_minor_version() {
    assert_eq!(JuliaExtension::julia_minor_version("1.12.6"), "1.12");
    assert_eq!(JuliaExtension::julia_minor_version("1.12.7\n"), "1.12");
    assert_eq!(JuliaExtension::julia_minor_version("1.13.0-rc1"), "1.13");
}

#[test]
fn uses_separate_caches_for_different_julia_runtimes() {
    let julia_112 = "/path/to/julia\n1.12";
    let julia_113 = "/path/to/julia\n1.13";
    let other_julia_112 = "/other/path/to/julia\n1.12";

    assert_eq!(
        JuliaExtension::runtime_cache_key(julia_112),
        "fe6aa0725209c575"
    );
    assert_ne!(
        JuliaExtension::runtime_cache_key(julia_112),
        JuliaExtension::runtime_cache_key(julia_113)
    );
    assert_ne!(
        JuliaExtension::runtime_cache_key(julia_112),
        JuliaExtension::runtime_cache_key(other_julia_112)
    );
}
