use vstd::prelude::*;
use vstd::string::*;

use crate::env::{separator, with_prepended_path, with_value, EnvView};
use crate::paths::path_join;
use crate::text::{chars_of, contains_char, str_equal};
use crate::{JuliaExtension, Os};

verus! {

/// The repository of the JETLS language server.
pub const JETLS_REPOSITORY: &'static str = "https://github.com/aviatesk/JETLS.jl";

/// The dated JETLS release that this extension installs.
pub const JETLS_REVISION: &'static str = "2026-08-29";

/// The oldest supported Julia version.
pub const JULIA_VERSION_LOWER_BOUND: &'static str = "1.12.2";

/// The newest supported Julia minor version; any patch release of it is supported.
pub const JULIA_VERSION_UPPER_BOUND: &'static str = "1.13";

/// The text `std`'s `Debug` formatting gives a list of strings.
pub uninterp spec fn debug_list(items: Seq<Seq<char>>) -> Seq<char>;

/// The `Debug` text of a list of strings, such as `["a", "b"]`.
///
/// Calls `format!("{:?}", ..)` on the slice; the contract names the text and
/// says nothing more of it.
#[verifier::external_body]
fn debug_text_of_strings(items: &[String]) -> (text: String)
    ensures
        text@ == debug_list(items.deep_view()),
{
    format!("{items:?}")
}

/// The positions of `item` in `items`, in order.
pub open spec fn positions_of(items: Seq<Seq<char>>, item: Seq<char>) -> Seq<int>
    decreases items.len(),
{
    if items.len() == 0 {
        Seq::empty()
    } else {
        let before = positions_of(items.drop_last(), item);
        if items.last() == item {
            before.push(items.len() - 1)
        } else {
            before
        }
    }
}

/// The arguments that run `subcommand` in place of the one `serve` of
/// `base_args`, or `None` unless `serve` occurs exactly once.
pub open spec fn subcommand_args(base_args: Seq<Seq<char>>, subcommand: Seq<char>) -> Option<
    Seq<Seq<char>>,
> {
    let serve = positions_of(base_args, "serve"@);
    if serve.len() == 1 {
        Some(base_args.take(serve[0]).push(subcommand))
    } else {
        None
    }
}

/// `serve` occurs in `base_args` at position `i` and nowhere else.
pub open spec fn serve_only_at(base_args: Seq<Seq<char>>, i: int) -> bool {
    &&& 0 <= i < base_args.len()
    &&& base_args[i] == "serve"@
    &&& forall|j: int| 0 <= j < base_args.len() && base_args[j] == "serve"@ ==> j == i
}

/// The positions of `item` are the indices holding it, in increasing order.
pub proof fn lemma_positions_of(items: Seq<Seq<char>>, item: Seq<char>)
    ensures
        forall|k: int|
            0 <= k < positions_of(items, item).len() ==> {
                &&& 0 <= #[trigger] positions_of(items, item)[k] < items.len()
                &&& items[positions_of(items, item)[k]] == item
            },
        forall|j: int|
            0 <= j < items.len() && #[trigger] items[j] == item ==> exists|k: int|
                0 <= k < positions_of(items, item).len() && #[trigger] positions_of(items, item)[k]
                    == j,
        forall|a: int, b: int|
            0 <= a < b < positions_of(items, item).len() ==> #[trigger] positions_of(items, item)[a]
                < #[trigger] positions_of(items, item)[b],
    decreases items.len(),
{
    if items.len() > 0 {
        let rest = items.drop_last();
        lemma_positions_of(rest, item);
        let before = positions_of(rest, item);
        let p = positions_of(items, item);
        assert forall|j: int| 0 <= j < items.len() && #[trigger] items[j] == item implies exists|
            k: int,
        | 0 <= k < p.len() && #[trigger] p[k] == j by {
            if j < items.len() - 1 {
                assert(rest[j] == items[j]);
                let k = choose|k: int| 0 <= k < before.len() && #[trigger] before[k] == j;
                assert(p[k] == j);
            } else {
                assert(p[before.len() as int] == j);
            }
        }
    }
}

/// The arguments for a subcommand exist exactly when `serve` occurs at exactly
/// one position of the base arguments, and they are then the arguments before
/// that position, then the subcommand.
pub proof fn law_subcommand_replaces_the_one_serve(base_args: Seq<Seq<char>>, subcommand: Seq<char>)
    ensures
        subcommand_args(base_args, subcommand) is Some <==> exists|i: int|
            serve_only_at(base_args, i),
        forall|i: int|
            serve_only_at(base_args, i) ==> subcommand_args(base_args, subcommand) == Some(
                base_args.take(i).push(subcommand),
            ),
{
    let p = positions_of(base_args, "serve"@);
    lemma_positions_of(base_args, "serve"@);
    if p.len() == 1 {
        assert(serve_only_at(base_args, p[0]));
        assert forall|i: int| serve_only_at(base_args, i) implies i == p[0] by {
            assert(base_args[i] == "serve"@);
        }
    } else {
        assert forall|i: int| !serve_only_at(base_args, i) by {
            if serve_only_at(base_args, i) {
                assert(base_args[i] == "serve"@);
                if p.len() >= 2 {
                    assert(p[0] < p[1]);
                    assert(base_args[p[0]] == "serve"@);
                    assert(base_args[p[1]] == "serve"@);
                }
            }
        }
    }
}

/// The message of arguments without exactly one `serve`.
pub open spec fn invalid_args_message(base_args: Seq<Seq<char>>) -> Seq<char> {
    "Invalid JETLS binary arguments: expected exactly one `serve` subcommand, got "@ + debug_list(
        base_args,
    )
}

/// The first position of `item` in `items`.
pub open spec fn first_position(items: Seq<Seq<char>>, item: Seq<char>) -> Option<int> {
    let found = positions_of(items, item);
    if found.len() > 0 {
        Some(found[0])
    } else {
        None
    }
}

/// The options `julia` always gets before those of the user.
pub open spec fn default_julia_options() -> Seq<Seq<char>> {
    seq!["--startup-file=no"@, "--history-file=no"@, "--threads=auto"@]
}

/// The arguments of `julia -m JETLS` for the shim's argument protocol:
/// arguments before a `--` go to `julia` (after the defaults, so that they can
/// override them), the rest to the JETLS app.
pub open spec fn launch_args(shim_args: Seq<Seq<char>>) -> Seq<Seq<char>> {
    let (julia_args, app_args) = match first_position(shim_args, "--"@) {
        Some(k) => (shim_args.take(k), shim_args.skip(k + 1)),
        None => (Seq::empty(), shim_args),
    };
    default_julia_options() + julia_args + seq!["-m"@, "JETLS"@] + app_args
}

/// The server is started as `julia -m JETLS`, with `--startup-file=no`,
/// `--history-file=no` and `--threads=auto` first. The arguments before the
/// first `--` follow as Julia options (so they can override those defaults),
/// the ones after it go to the app, and the `--` itself is dropped; without a
/// `--`, every argument goes to the app.
pub proof fn law_launch_args_split_at_the_first_separator(shim_args: Seq<Seq<char>>)
    ensures
        (forall|j: int| 0 <= j < shim_args.len() ==> shim_args[j] != "--"@) ==> launch_args(
            shim_args,
        ) == seq!["--startup-file=no"@, "--history-file=no"@, "--threads=auto"@, "-m"@, "JETLS"@]
            + shim_args,
        forall|k: int|
            0 <= k < shim_args.len() && #[trigger] shim_args[k] == "--"@ && (forall|j: int|
                0 <= j < k ==> shim_args[j] != "--"@) ==> launch_args(shim_args) == seq![
                "--startup-file=no"@,
                "--history-file=no"@,
                "--threads=auto"@,
            ] + shim_args.take(k) + seq!["-m"@, "JETLS"@] + shim_args.skip(k + 1),
{
    let p = positions_of(shim_args, "--"@);
    lemma_positions_of(shim_args, "--"@);
    if p.len() > 0 {
        assert(shim_args[p[0]] == "--"@);
    }
    assert forall|k: int|
        0 <= k < shim_args.len() && #[trigger] shim_args[k] == "--"@ && (forall|j: int|
            0 <= j < k ==> shim_args[j] != "--"@) implies p.len() > 0 && p[0] == k by {
        let m = choose|m: int| 0 <= m < p.len() && #[trigger] p[m] == k;
        assert(shim_args[p[0]] == "--"@);
        if m > 0 {
            assert(p[0] < p[m]);
        }
    }
    if p.len() == 0 {
        assert(seq!["--startup-file=no"@, "--history-file=no"@, "--threads=auto"@] + Seq::empty()
            + seq!["-m"@, "JETLS"@] + shim_args =~= seq![
            "--startup-file=no"@,
            "--history-file=no"@,
            "--threads=auto"@,
            "-m"@,
            "JETLS"@,
        ] + shim_args);
    }
}

/// The Julia program that prints the Julia version, or fails unless it is
/// within the supported bounds.
pub open spec fn version_check_script() -> Seq<char> {
    "\nlet lower = v\""@ + JULIA_VERSION_LOWER_BOUND@ + "\"\n    upper = v\""@
        + JULIA_VERSION_UPPER_BOUND@
        + "\"\n    if !("@ + "lower <= VERSION && (VERSION.major, VERSION.minor) <= (upper.major, upper.minor)"@
        + ")\n        println(stderr, \"JETLS requires Julia "@
        + JULIA_VERSION_LOWER_BOUND@ + " through "@ + JULIA_VERSION_UPPER_BOUND@
        + "; found Julia \", VERSION)\n        exit(1)\n    end\n    print(stdout, VERSION)\nend\n"@
}

/// The version check accepts the supported Julia versions: at least 1.12.2,
/// and at most 1.13 compared by major and minor version only, so that every
/// patch release of 1.13 passes. Its guard compares `VERSION` with the lower
/// bound in full and with the upper bound by `(major, minor)`.
pub proof fn law_version_check_allows_every_patch_of_the_upper_minor()
    ensures
        JULIA_VERSION_LOWER_BOUND@ == "1.12.2"@,
        JULIA_VERSION_UPPER_BOUND@ == "1.13"@,
        exists|after: Seq<char>|
            version_check_script() == "\nlet lower = v\""@ + "1.12.2"@ + "\"\n    upper = v\""@
                + "1.13"@ + "\"\n    if !("@
                + "lower <= VERSION && (VERSION.major, VERSION.minor) <= (upper.major, upper.minor)"@
                + after,
{
    let after = ")\n        println(stderr, \"JETLS requires Julia "@ + JULIA_VERSION_LOWER_BOUND@
        + " through "@ + JULIA_VERSION_UPPER_BOUND@
        + "; found Julia \", VERSION)\n        exit(1)\n    end\n    print(stdout, VERSION)\nend\n"@;
    assert(version_check_script() =~= "\nlet lower = v\""@ + "1.12.2"@ + "\"\n    upper = v\""@
        + "1.13"@ + "\"\n    if !("@
        + "lower <= VERSION && (VERSION.major, VERSION.minor) <= (upper.major, upper.minor)"@
        + after);
}

/// The Julia program that installs the pinned JETLS release as an app.
pub open spec fn install_script() -> Seq<char> {
    "using Pkg; Pkg.Apps.add(; url=\""@ + JETLS_REPOSITORY@ + "\", rev=\""@ + JETLS_REVISION@
        + "\")"@
}

/// The arguments that run a Julia program without startup and history files.
pub open spec fn script_args(script: Seq<char>) -> Seq<Seq<char>> {
    seq!["--startup-file=no"@, "--history-file=no"@, "-e"@, script]
}

/// The environment of the installation: the depot chain is the managed depot
/// followed by the bundled system depots (the trailing empty entry), so that
/// the managed depot stays self-contained, and the depot's `bin` directory,
/// where the JETLS app is installed, comes first on `PATH`.
pub open spec fn install_env(env: EnvView, depot_path: Seq<char>, platform: Os) -> EnvView {
    let with_depot = with_value(
        env,
        "JULIA_DEPOT_PATH"@,
        depot_path + seq![separator(platform)],
        platform,
    );
    with_prepended_path(with_depot, path_join(depot_path, "bin"@), platform)
}

/// Whether a command is given as a path rather than a name to look up.
pub open spec fn is_command_path(command: Seq<char>) -> bool {
    command.contains('/') || command.contains('\\')
}

/// The message of a command that is neither a path nor found on `PATH`.
pub open spec fn command_not_found_message(command: Seq<char>, description: Seq<char>) -> Seq<
    char,
> {
    "Unable to find "@ + description + " command '"@ + command
        + "'. Make sure it is available in the worktree PATH or specify its full path in Zed settings."@
}

/// A list of strings from literals.
fn strings_of(items: &[&str]) -> (strings: Vec<String>)
    ensures
        strings@.len() == items@.len(),
        forall|i: int| 0 <= i < items@.len() ==> #[trigger] strings@[i]@ == items@[i]@,
{
    let mut strings: Vec<String> = Vec::new();
    let mut i: usize = 0;
    while i < items.len()
        invariant
            i <= items@.len(),
            strings@.len() == i,
            forall|j: int| 0 <= j < i ==> #[trigger] strings@[j]@ == items@[j]@,
        decreases items@.len() - i,
    {
        strings.push(String::from_str(items[i]));
        i = i + 1;
    }
    strings
}

/// Appends the strings `items[from..to]` to `out`.
fn extend_strings(out: &mut Vec<String>, items: &[String], from: usize, to: usize)
    requires
        from <= to <= items@.len(),
    ensures
        final(out).deep_view() == old(out).deep_view() + items.deep_view().subrange(
            from as int,
            to as int,
        ),
{
    let mut i: usize = from;
    while i < to
        invariant
            from <= i <= to <= items@.len(),
            out.deep_view() == old(out).deep_view() + items.deep_view().subrange(
                from as int,
                i as int,
            ),
        decreases to - i,
    {
        let ghost before = out.deep_view();
        out.push(items[i].clone());
        assert(out.deep_view() =~= before.push(items.deep_view()[i as int]));
        assert(out.deep_view() =~= old(out).deep_view() + items.deep_view().subrange(
            from as int,
            i + 1,
        ));
        i = i + 1;
    }
}

/// The positions of `item` in `items`: the first one, and whether there is a second.
fn find_positions(items: &[String], item: &str) -> (found: (Option<usize>, bool))
    ensures
        ({
            let positions = positions_of(items.deep_view(), item@);
            &&& found.0 is Some <==> positions.len() > 0
            &&& found.0 matches Some(k) ==> k == positions[0] && k < items@.len()
            &&& found.1 <==> positions.len() > 1
        }),
{
    let ghost all = items.deep_view();
    let mut first: Option<usize> = None;
    let mut second = false;
    let mut i: usize = 0;
    while i < items.len()
        invariant
            i <= items@.len(),
            all == items.deep_view(),
            ({
                let positions = positions_of(all.take(i as int), item@);
                &&& first is Some <==> positions.len() > 0
                &&& first matches Some(k) ==> k == positions[0] && k < i
                &&& second <==> positions.len() > 1
            }),
        decreases items@.len() - i,
    {
        let ghost next = all.take(i + 1);
        assert(next.drop_last() =~= all.take(i as int));
        assert(next.last() == items[i as int]@);
        if str_equal(items[i].as_str(), item) {
            if first.is_some() {
                second = true;
            } else {
                first = Some(i);
            }
        }
        i = i + 1;
    }
    assert(all.take(i as int) =~= all);
    (first, second)
}

impl JuliaExtension {
    /// The arguments that run `subcommand` instead of `serve`: those before the
    /// one `serve` of `base_args`, then `subcommand`. Fails unless `serve`
    /// occurs exactly once.
    pub fn args_for_subcommand(base_args: &[String], subcommand: &str) -> (args: Result<
        Vec<String>,
        String,
    >)
        ensures
            args is Ok <==> subcommand_args(base_args.deep_view(), subcommand@) is Some,
            args matches Ok(v) ==> Some(v.deep_view()) == subcommand_args(
                base_args.deep_view(),
                subcommand@,
            ),
            args matches Err(e) ==> e@ == invalid_args_message(base_args.deep_view()),
            args is Ok <==> exists|i: int| serve_only_at(base_args.deep_view(), i),
            forall|i: int|
                serve_only_at(base_args.deep_view(), i) ==> (args matches Ok(v) && v.deep_view()
                    == base_args.deep_view().take(i).push(subcommand@)),
    {
        let ghost all = base_args.deep_view();
        proof {
            law_subcommand_replaces_the_one_serve(all, subcommand@);
        }
        let (first, second) = find_positions(base_args, "serve");
        match first {
            Some(position) => {
                if !second {
                    let mut args: Vec<String> = Vec::new();
                    extend_strings(&mut args, base_args, 0, position);
                    let ghost before = args.deep_view();
                    args.push(String::from_str(subcommand));
                    assert(before =~= all.take(position as int));
                    assert(args.deep_view() =~= all.take(position as int).push(subcommand@));
                    return Ok(args);
                }
            },
            None => {},
        }
        let mut message = String::from_str(
            "Invalid JETLS binary arguments: expected exactly one `serve` subcommand, got ",
        );
        let listed = debug_text_of_strings(base_args);
        message.append(listed.as_str());
        Err(message)
    }

    /// The arguments of `julia` that run the JETLS app with the shim's
    /// argument protocol.
    pub fn julia_launch_args(shim_args: &[String]) -> (args: Vec<String>)
        ensures
            args.deep_view() == launch_args(shim_args.deep_view()),
    {
        let ghost all = shim_args.deep_view();
        let (separator, _) = find_positions(shim_args, "--");
        let mut args = strings_of(&["--startup-file=no", "--history-file=no", "--threads=auto"]);
        assert(args.deep_view() =~= default_julia_options());
        match separator {
            Some(k) => {
                extend_strings(&mut args, shim_args, 0, k);
                assert(all.subrange(0, k as int) =~= all.take(k as int));
            },
            None => {},
        }
        let ghost with_julia_args = args.deep_view();
        args.push(String::from_str("-m"));
        args.push(String::from_str("JETLS"));
        assert(args.deep_view() =~= with_julia_args + seq!["-m"@, "JETLS"@]);
        match separator {
            Some(k) => {
                let n = shim_args.len();
                assert(k < n);
                extend_strings(&mut args, shim_args, k + 1, n);
                assert(all.subrange(k + 1, all.len() as int) =~= all.skip(k + 1));
            },
            None => {
                extend_strings(&mut args, shim_args, 0, shim_args.len());
                assert(all.subrange(0, all.len() as int) =~= all);
            },
        }
        assert(args.deep_view() =~= launch_args(all));
        args
    }

    /// The arguments that run the JETLS `version` subcommand the way the
    /// server is launched.
    pub fn version_command_args(base_args: &[String]) -> (args: Result<Vec<String>, String>)
        ensures
            args is Ok <==> subcommand_args(base_args.deep_view(), "version"@) is Some,
            args matches Ok(v) ==> v.deep_view() == launch_args(
                subcommand_args(base_args.deep_view(), "version"@)->0,
            ),
            args matches Err(e) ==> e@ == invalid_args_message(base_args.deep_view()),
    {
        match Self::args_for_subcommand(base_args, "version") {
            Ok(subcommand) => Ok(Self::julia_launch_args(subcommand.as_slice())),
            Err(message) => Err(message),
        }
    }

    /// The arguments of the Julia version check.
    pub fn julia_version_check_args() -> (args: Vec<String>)
        ensures
            args.deep_view() == script_args(version_check_script()),
    {
        let mut script = String::from_str("\nlet lower = v\"");
        script.append(JULIA_VERSION_LOWER_BOUND);
        script.append("\"\n    upper = v\"");
        script.append(JULIA_VERSION_UPPER_BOUND);
        script.append("\"\n    if !(");
        script.append("lower <= VERSION && (VERSION.major, VERSION.minor) <= (upper.major, upper.minor)");
        script.append(")\n        println(stderr, \"JETLS requires Julia ");
        script.append(JULIA_VERSION_LOWER_BOUND);
        script.append(" through ");
        script.append(JULIA_VERSION_UPPER_BOUND);
        script.append(
            "; found Julia \", VERSION)\n        exit(1)\n    end\n    print(stdout, VERSION)\nend\n",
        );
        let mut args = strings_of(&["--startup-file=no", "--history-file=no", "-e"]);
        args.push(script);
        assert(args.deep_view() =~= script_args(version_check_script()));
        args
    }

    /// The arguments of the managed JETLS installation.
    pub fn install_args() -> (args: Vec<String>)
        ensures
            args.deep_view() == script_args(install_script()),
    {
        let mut script = String::from_str("using Pkg; Pkg.Apps.add(; url=\"");
        script.append(JETLS_REPOSITORY);
        script.append("\", rev=\"");
        script.append(JETLS_REVISION);
        script.append("\")");
        let mut args = strings_of(&["--startup-file=no", "--history-file=no", "-e"]);
        args.push(script);
        assert(args.deep_view() =~= script_args(install_script()));
        args
    }

    /// The environment of the managed JETLS installation into `depot_path`.
    pub fn install_env(env: &[(String, String)], depot_path: &str, platform: Os) -> (install:
        Vec<(String, String)>)
        ensures
            install.deep_view() == install_env(env.deep_view(), depot_path@, platform),
    {
        let mut install = crate::settings::clone_pairs(env);
        let chain = Self::maintenance_depot_chain(depot_path, platform);
        Self::set_env_value(&mut install, "JULIA_DEPOT_PATH", chain, platform);
        let bin_dir = Self::join_path(depot_path, "bin");
        Self::prepend_path_directory(&mut install, bin_dir.as_str(), platform);
        install
    }

    /// Whether `command` is a path rather than a name to look up on `PATH`.
    pub fn command_is_path(command: &str) -> (is_path: bool)
        ensures
            is_path == is_command_path(command@),
    {
        let chars = chars_of(command);
        contains_char(chars.as_slice(), '/') || contains_char(chars.as_slice(), '\\')
    }

    /// The program to run for `command`: the command itself if it is a path,
    /// else what the lookup on the worktree's `PATH` found.
    pub fn resolve_command(command: &str, description: &str, found_on_path: Option<String>) -> (program: Result<String, String>)
        ensures
            is_command_path(command@) ==> (program matches Ok(p) && p@ == command@),
            !is_command_path(command@) ==> match found_on_path {
                Some(found) => (program matches Ok(p) && p@ == found@),
                None => (program matches Err(e) && e@ == command_not_found_message(
                    command@,
                    description@,
                )),
            },
    {
        if Self::command_is_path(command) {
            return Ok(String::from_str(command));
        }
        match found_on_path {
            Some(found) => Ok(found),
            None => {
                let mut message = String::from_str("Unable to find ");
                message.append(description);
                message.append(" command '");
                message.append(command);
                message.append(
                    "'. Make sure it is available in the worktree PATH or specify its full path in Zed settings.",
                );
                Err(message)
            },
        }
    }

    /// The Julia command the settings configure, `julia` by default.
    pub fn julia_command(settings_env: &[(String, String)], platform: Os) -> (command: String)
        ensures
            command@ == match crate::env::lookup(
                settings_env.deep_view(),
                "JULIA_APPS_JULIA_CMD"@,
                platform,
            ) {
                Some(configured) => configured,
                None => "julia"@,
            },
    {
        match Self::env_value(settings_env, "JULIA_APPS_JULIA_CMD", platform) {
            Some(configured) => String::from_str(configured),
            None => String::from_str("julia"),
        }
    }
}

} // verus!
