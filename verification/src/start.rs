use vstd::prelude::*;
use vstd::string::*;

use crate::env::{lookup, with_values, EnvView};
use crate::launch::{
    command_not_found_message, install_env, install_script, invalid_args_message,
    is_command_path, launch_args, script_args, subcommand_args, version_check_script,
};
use crate::paths::{
    launch_env, managed_container, path_join, CURRENT_POINTER_FILE, INSTALL_STAMP_FILE,
    LAST_USED_FILE,
};
use crate::settings::{
    binary_args_view, clone_pairs, clone_strings, settings_env_view, LspSettings,
};
use crate::storage::{
    generation_failure_message, generation_id_text, generations_exhausted_message,
    install_stamp_document, is_safe_generation_id, json_string_member, law_generation_ids_are_safe,
    pointer_document,
    pointer_target, DirCreation, DirCreationView, GENERATION_ATTEMPTS,
};
use crate::version::{
    failed_command_message, is_pinned_version, minor_version, needs_update, utf8_lossy,
    CommandOutput,
};
use crate::{JuliaExtension, Os};

verus! {

/// The command that starts the language server.
pub struct LaunchCommand {
    /// The program to run.
    pub command: String,
    /// Its arguments.
    pub args: Vec<String>,
    /// Its environment.
    pub env: Vec<(String, String)>,
}

/// A launch command as values.
pub struct LaunchView {
    pub command: Seq<char>,
    pub args: Seq<Seq<char>>,
    pub env: EnvView,
}

impl View for LaunchCommand {
    type V = LaunchView;

    open spec fn view(&self) -> LaunchView {
        LaunchView { command: self.command@, args: self.args.deep_view(), env: self.env.deep_view() }
    }
}

/// Where the start of the managed language server stands.
#[derive(Clone, Copy, Debug, PartialEq, Eq, Structural)]
pub enum Phase {
    /// Looking the Julia command up on the worktree's `PATH`.
    FindingJulia,
    /// Checking that the Julia version is supported.
    CheckingJulia,
    /// Finding the extension's working directory.
    LocatingStorage,
    /// Creating the container of the Julia runtime.
    CreatingStorage,
    /// Marking the container as used, against the stale-runtime sweep.
    MarkingStorage,
    /// Reading which generation the container publishes.
    ReadingPointer,
    /// Checking that the published generation exists.
    CheckingGeneration,
    /// Asking the published generation for its version.
    ProbingGeneration,
    /// Reporting that an installation starts.
    Downloading,
    /// Reading the clock to name a fresh generation.
    NamingGeneration,
    /// Creating the directory of the fresh generation.
    CreatingGeneration,
    /// Creating the depot of the fresh generation.
    PreparingDepot,
    /// Installing JETLS into the fresh generation.
    Installing,
    /// Asking the fresh generation for its version.
    VerifyingInstallation,
    /// Writing the install stamp of the verified generation.
    Stamping,
    /// Pointing the container at the verified generation.
    Publishing,
    /// Marking the generation as used.
    MarkingGeneration,
    /// Marking the container as used.
    MarkingContainer,
    /// Removing what no start needs anymore.
    CleaningUp,
    /// Done, with the launch command or the failure.
    Finished,
}

/// What the caller must do next for the start to go on.
pub enum Action {
    /// Look `command` up on the worktree's `PATH`; answer `CommandFound`.
    FindCommand { command: String },
    /// Run a program; answer `CommandRan`.
    RunCommand { program: String, args: Vec<String>, env: Vec<(String, String)> },
    /// Find the extension's working directory; answer `CurrentDir`.
    ResolveCurrentDir,
    /// Create a directory and its parents; answer `DirectoriesCreated`.
    CreateDirectories { path: String },
    /// Write an empty file (best effort); answer `Touched`.
    TouchFile { path: String },
    /// Read a file if it can be read; answer `PointerRead`.
    ReadPointer { path: String },
    /// Check that a path is a directory; answer `DirectoryChecked`.
    CheckDirectory { path: String },
    /// Report that the server is being downloaded; answer `StatusReported`.
    ReportDownloading,
    /// Read the clock in nanoseconds since the Unix epoch; answer `Clock`.
    ReadClock,
    /// Create one directory; answer `DirectoryCreated`.
    CreateDirectory { path: String },
    /// Replace a file through a temporary file; answer `FileReplaced`.
    ReplaceFile { path: String, content: String },
    /// Remove what no start needs anymore from the storage; answer `CleanedUp`.
    CleanUp { container_path: String },
    /// The start is over.
    Finish(Result<LaunchCommand, String>),
}

/// What the caller reports once it has done the action.
pub enum Event {
    CommandFound(Option<String>),
    CommandRan(Result<CommandOutput, String>),
    CurrentDir(Result<String, String>),
    DirectoriesCreated(Result<(), String>),
    Touched,
    PointerRead(Option<String>),
    DirectoryChecked(bool),
    StatusReported,
    Clock(u128),
    DirectoryCreated(DirCreation),
    FileReplaced(Result<(), String>),
    CleanedUp,
}

/// A command's output as values.
pub struct OutputView {
    pub status: Option<i32>,
    pub stdout: Seq<u8>,
    pub stderr: Seq<u8>,
}

/// An action as values.
pub enum ActionView {
    FindCommand(Seq<char>),
    RunCommand(Seq<char>, Seq<Seq<char>>, EnvView),
    ResolveCurrentDir,
    CreateDirectories(Seq<char>),
    TouchFile(Seq<char>),
    ReadPointer(Seq<char>),
    CheckDirectory(Seq<char>),
    ReportDownloading,
    ReadClock,
    CreateDirectory(Seq<char>),
    ReplaceFile(Seq<char>, Seq<char>),
    CleanUp(Seq<char>),
    Finish(Result<LaunchView, Seq<char>>),
}

/// An event as values.
pub enum EventView {
    CommandFound(Option<Seq<char>>),
    CommandRan(Result<OutputView, Seq<char>>),
    CurrentDir(Result<Seq<char>, Seq<char>>),
    DirectoriesCreated(Result<(), Seq<char>>),
    Touched,
    PointerRead(Option<Seq<char>>),
    DirectoryChecked(bool),
    StatusReported,
    Clock(u128),
    DirectoryCreated(DirCreationView),
    FileReplaced(Result<(), Seq<char>>),
    CleanedUp,
}

pub open spec fn text_result_view<T>(r: Result<T, String>) -> Result<(), Seq<char>> {
    match r {
        Ok(_) => Ok(()),
        Err(e) => Err(e@),
    }
}

impl View for Event {
    type V = EventView;

    open spec fn view(&self) -> EventView {
        match self {
            Event::CommandFound(found) => EventView::CommandFound(
                match found {
                    Some(p) => Some(p@),
                    None => None,
                },
            ),
            Event::CommandRan(ran) => EventView::CommandRan(
                match ran {
                    Ok(output) => Ok(
                        OutputView {
                            status: output.status,
                            stdout: output.stdout@,
                            stderr: output.stderr@,
                        },
                    ),
                    Err(e) => Err(e@),
                },
            ),
            Event::CurrentDir(dir) => EventView::CurrentDir(
                match dir {
                    Ok(d) => Ok(d@),
                    Err(e) => Err(e@),
                },
            ),
            Event::DirectoriesCreated(r) => EventView::DirectoriesCreated(text_result_view(*r)),
            Event::Touched => EventView::Touched,
            Event::PointerRead(text) => EventView::PointerRead(
                match text {
                    Some(t) => Some(t@),
                    None => None,
                },
            ),
            Event::DirectoryChecked(is_dir) => EventView::DirectoryChecked(*is_dir),
            Event::StatusReported => EventView::StatusReported,
            Event::Clock(nanos) => EventView::Clock(*nanos),
            Event::DirectoryCreated(c) => EventView::DirectoryCreated(c@),
            Event::FileReplaced(r) => EventView::FileReplaced(text_result_view(*r)),
            Event::CleanedUp => EventView::CleanedUp,
        }
    }
}

impl View for Action {
    type V = ActionView;

    open spec fn view(&self) -> ActionView {
        match self {
            Action::FindCommand { command } => ActionView::FindCommand(command@),
            Action::RunCommand { program, args, env } => ActionView::RunCommand(
                program@,
                args.deep_view(),
                env.deep_view(),
            ),
            Action::ResolveCurrentDir => ActionView::ResolveCurrentDir,
            Action::CreateDirectories { path } => ActionView::CreateDirectories(path@),
            Action::TouchFile { path } => ActionView::TouchFile(path@),
            Action::ReadPointer { path } => ActionView::ReadPointer(path@),
            Action::CheckDirectory { path } => ActionView::CheckDirectory(path@),
            Action::ReportDownloading => ActionView::ReportDownloading,
            Action::ReadClock => ActionView::ReadClock,
            Action::CreateDirectory { path } => ActionView::CreateDirectory(path@),
            Action::ReplaceFile { path, content } => ActionView::ReplaceFile(path@, content@),
            Action::CleanUp { container_path } => ActionView::CleanUp(container_path@),
            Action::Finish(result) => ActionView::Finish(
                match result {
                    Ok(command) => Ok(command@),
                    Err(e) => Err(e@),
                },
            ),
        }
    }
}

/// The start of the managed language server, as values.
pub struct StartView {
    pub args: Seq<Seq<char>>,
    pub env: EnvView,
    pub platform: Os,
    pub julia_command: Seq<char>,
    pub julia_bin: Seq<char>,
    pub julia_version: Seq<char>,
    pub container: Seq<char>,
    pub installed: Option<Result<Seq<char>, Seq<char>>>,
    pub generation_id: Seq<char>,
    pub generation: Seq<char>,
    pub verified: Seq<char>,
    pub attempt: u32,
    pub phase: Phase,
    pub outcome: Option<Result<LaunchView, Seq<char>>>,
}

/// The message of a command that could not be run.
pub open spec fn run_failure_message(description: Seq<char>, program: Seq<char>, error: Seq<char>) -> Seq<char> {
    "Failed to run "@ + description + " using '"@ + program + "': "@ + error
}

/// What a finished command reports: its standard output if it exited with
/// status 0, else a message.
pub open spec fn command_result(
    ran: Result<OutputView, Seq<char>>,
    description: Seq<char>,
    message_description: Seq<char>,
    program: Seq<char>,
) -> Result<Seq<char>, Seq<char>> {
    match ran {
        Err(e) => Err(run_failure_message(description, program, e)),
        Ok(output) => if output.status == Some(0i32) {
            Ok(utf8_lossy(output.stdout))
        } else {
            Err(
                failed_command_message(
                    message_description,
                    output.status,
                    utf8_lossy(output.stdout),
                    utf8_lossy(output.stderr),
                ),
            )
        },
    }
}

/// The failure of an installation: if the published generation failed its
/// version check, both failures are reported.
pub open spec fn installation_failure(
    installed: Option<Result<Seq<char>, Seq<char>>>,
    error: Seq<char>,
) -> Seq<char> {
    match installed {
        Some(Err(verification_error)) => "The cached managed JETLS installation failed verification:\n"@
            + verification_error + "\nFailed to repair the managed JETLS installation:\n"@ + error,
        _ => error,
    }
}

/// A failure of the managed installation, with the hint to delete its storage.
pub open spec fn with_storage_hint(error: Seq<char>, container: Seq<char>) -> Seq<char> {
    error + "\nIf the error persists, delete the managed JETLS storage at '"@ + container
        + "' and restart the language server."@
}

/// The start finished with `message`.
pub open spec fn failed(s: StartView, message: Seq<char>) -> StartView {
    StartView { phase: Phase::Finished, outcome: Some(Err(message)), ..s }
}

/// The start finished with a failure of the managed installation.
pub open spec fn installation_failed(s: StartView, error: Seq<char>) -> StartView {
    failed(s, with_storage_hint(installation_failure(s.installed, error), s.container))
}

/// The start moved on to `phase`.
pub open spec fn moved(s: StartView, phase: Phase) -> StartView {
    StartView { phase, ..s }
}

/// The start goes on to install a new generation.
pub open spec fn to_download(s: StartView, installed: Option<Result<Seq<char>, Seq<char>>>) -> StartView {
    StartView { phase: Phase::Downloading, installed, ..s }
}

/// The arguments that ask JETLS for its version.
pub open spec fn version_args(args: Seq<Seq<char>>) -> Seq<Seq<char>> {
    launch_args(subcommand_args(args, "version"@)->0)
}

/// The start at its beginning: the command environment is the shell
/// environment with the settings' variables over it, and the Julia command is
/// `JULIA_APPS_JULIA_CMD` of that environment, else `julia`; a command given as
/// a path is not looked up.
pub open spec fn initial(settings: &LspSettings, shell_env: EnvView, platform: Os) -> StartView {
    let env = with_values(shell_env, settings_env_view(settings), platform);
    let command = match lookup(env, "JULIA_APPS_JULIA_CMD"@, platform) {
        Some(configured) => configured,
        None => "julia"@,
    };
    StartView {
        args: binary_args_view(settings),
        env,
        platform,
        julia_command: command,
        julia_bin: command,
        julia_version: Seq::empty(),
        container: Seq::empty(),
        installed: None,
        generation_id: Seq::empty(),
        generation: Seq::empty(),
        verified: Seq::empty(),
        attempt: 0,
        phase: if is_command_path(command) {
            Phase::CheckingJulia
        } else {
            Phase::FindingJulia
        },
        outcome: None,
    }
}

/// The start after `event`. An event that does not answer the pending action
/// leaves the start unchanged.
pub open spec fn next(s: StartView, event: EventView) -> StartView {
    match (s.phase, event) {
        (Phase::FindingJulia, EventView::CommandFound(found)) => match found {
            Some(program) => StartView { julia_bin: program, phase: Phase::CheckingJulia, ..s },
            None => failed(s, command_not_found_message(s.julia_command, "Julia"@)),
        },
        (Phase::CheckingJulia, EventView::CommandRan(ran)) => match command_result(
            ran,
            "the Julia version check"@,
            "The Julia version check"@,
            s.julia_bin,
        ) {
            Ok(version) => StartView {
                julia_version: version,
                phase: Phase::LocatingStorage,
                ..s
            },
            Err(message) => failed(s, message),
        },
        (Phase::LocatingStorage, EventView::CurrentDir(dir)) => match dir {
            Ok(dir) => {
                let runtime = s.julia_bin + "\n"@ + minor_version(s.julia_version);
                let container = managed_container(dir, runtime);
                if subcommand_args(s.args, "version"@) is Some {
                    StartView { container, phase: Phase::CreatingStorage, ..s }
                } else {
                    failed(StartView { container, ..s }, invalid_args_message(s.args))
                }
            },
            Err(e) => failed(s, "Failed to resolve the extension data directory: "@ + e),
        },
        (Phase::CreatingStorage, EventView::DirectoriesCreated(created)) => match created {
            Ok(_) => moved(s, Phase::MarkingStorage),
            Err(e) => failed(
                s,
                "Failed to create the managed JETLS storage '"@ + s.container + "': "@ + e,
            ),
        },
        (Phase::MarkingStorage, EventView::Touched) => moved(s, Phase::ReadingPointer),
        (Phase::ReadingPointer, EventView::PointerRead(pointer)) => match pointer {
            Some(text) => match pointer_target(s.container, text) {
                Some(generation) => StartView {
                    generation,
                    phase: Phase::CheckingGeneration,
                    ..s
                },
                None => to_download(s, None),
            },
            None => to_download(s, None),
        },
        (Phase::CheckingGeneration, EventView::DirectoryChecked(is_dir)) => if !is_dir {
            to_download(s, None)
        } else if subcommand_args(s.args, "version"@) is Some {
            moved(s, Phase::ProbingGeneration)
        } else {
            to_download(s, Some(Err(invalid_args_message(s.args))))
        },
        (Phase::ProbingGeneration, EventView::CommandRan(ran)) => {
            let installed = Some(
                command_result(
                    ran,
                    "the JETLS version check"@,
                    "The JETLS version check"@,
                    s.julia_bin,
                ),
            );
            if needs_update(installed) {
                to_download(s, installed)
            } else {
                StartView { installed, phase: Phase::MarkingGeneration, ..s }
            }
        },
        (Phase::Downloading, EventView::StatusReported) => StartView {
            attempt: 0,
            phase: Phase::NamingGeneration,
            ..s
        },
        (Phase::NamingGeneration, EventView::Clock(nanos)) => {
            let id = generation_id_text(nanos as nat);
            StartView {
                generation_id: id,
                generation: path_join(s.container, id),
                attempt: (s.attempt + 1) as u32,
                phase: Phase::CreatingGeneration,
                ..s
            }
        },
        (Phase::CreatingGeneration, EventView::DirectoryCreated(creation)) => match creation {
            DirCreationView::Created => moved(s, Phase::PreparingDepot),
            DirCreationView::AlreadyExists => if s.attempt < GENERATION_ATTEMPTS {
                moved(s, Phase::NamingGeneration)
            } else {
                installation_failed(s, generations_exhausted_message(s.container))
            },
            DirCreationView::Failed(e) => installation_failed(
                s,
                generation_failure_message(s.container, e),
            ),
        },
        (Phase::PreparingDepot, EventView::DirectoriesCreated(created)) => match created {
            Ok(_) => moved(s, Phase::Installing),
            Err(e) => installation_failed(
                s,
                "Failed to create the managed JETLS depot '"@ + s.generation + "': "@ + e,
            ),
        },
        (Phase::Installing, EventView::CommandRan(ran)) => match command_result(
            ran,
            "the managed JETLS installation"@,
            "The managed JETLS installation"@,
            s.julia_bin,
        ) {
            Ok(_) => if subcommand_args(s.args, "version"@) is Some {
                moved(s, Phase::VerifyingInstallation)
            } else {
                installation_failed(s, invalid_args_message(s.args))
            },
            Err(message) => installation_failed(s, message),
        },
        (Phase::VerifyingInstallation, EventView::CommandRan(ran)) => match command_result(
            ran,
            "the JETLS version check"@,
            "The JETLS version check"@,
            s.julia_bin,
        ) {
            Ok(version) => if is_pinned_version(version) {
                StartView { verified: version, phase: Phase::Stamping, ..s }
            } else {
                installation_failed(s, crate::version::unexpected_version_message(version))
            },
            Err(message) => installation_failed(s, message),
        },
        (Phase::Stamping, EventView::FileReplaced(_)) => moved(s, Phase::Publishing),
        (Phase::Publishing, EventView::FileReplaced(replaced)) => match replaced {
            Ok(_) => moved(s, Phase::MarkingGeneration),
            Err(e) => installation_failed(
                s,
                "Failed to publish the managed JETLS generation: "@ + e,
            ),
        },
        (Phase::MarkingGeneration, EventView::Touched) => moved(s, Phase::MarkingContainer),
        (Phase::MarkingContainer, EventView::Touched) => moved(s, Phase::CleaningUp),
        (Phase::CleaningUp, EventView::CleanedUp) => StartView {
            phase: Phase::Finished,
            outcome: Some(
                Ok(
                    LaunchView {
                        command: s.julia_bin,
                        args: launch_args(s.args),
                        env: launch_env(s.env, s.generation, s.platform),
                    },
                ),
            ),
            ..s
        },
        _ => s,
    }
}

/// What the caller must do in a state of the start.
pub open spec fn action_of(s: StartView) -> ActionView {
    match s.phase {
        Phase::FindingJulia => ActionView::FindCommand(s.julia_command),
        Phase::CheckingJulia => ActionView::RunCommand(
            s.julia_bin,
            script_args(version_check_script()),
            s.env,
        ),
        Phase::LocatingStorage => ActionView::ResolveCurrentDir,
        Phase::CreatingStorage => ActionView::CreateDirectories(s.container),
        Phase::MarkingStorage => ActionView::TouchFile(path_join(s.container, LAST_USED_FILE@)),
        Phase::ReadingPointer => ActionView::ReadPointer(
            path_join(s.container, CURRENT_POINTER_FILE@),
        ),
        Phase::CheckingGeneration => ActionView::CheckDirectory(s.generation),
        Phase::ProbingGeneration => ActionView::RunCommand(
            s.julia_bin,
            version_args(s.args),
            launch_env(s.env, s.generation, s.platform),
        ),
        Phase::Downloading => ActionView::ReportDownloading,
        Phase::NamingGeneration => ActionView::ReadClock,
        Phase::CreatingGeneration => ActionView::CreateDirectory(s.generation),
        Phase::PreparingDepot => ActionView::CreateDirectories(s.generation),
        Phase::Installing => ActionView::RunCommand(
            s.julia_bin,
            script_args(install_script()),
            install_env(s.env, s.generation, s.platform),
        ),
        Phase::VerifyingInstallation => ActionView::RunCommand(
            s.julia_bin,
            version_args(s.args),
            launch_env(s.env, s.generation, s.platform),
        ),
        Phase::Stamping => ActionView::ReplaceFile(
            path_join(s.generation, INSTALL_STAMP_FILE@),
            install_stamp_document(s.julia_version),
        ),
        Phase::Publishing => ActionView::ReplaceFile(
            path_join(s.container, CURRENT_POINTER_FILE@),
            pointer_document(s.generation_id),
        ),
        Phase::MarkingGeneration => ActionView::TouchFile(
            path_join(s.generation, LAST_USED_FILE@),
        ),
        Phase::MarkingContainer => ActionView::TouchFile(path_join(s.container, LAST_USED_FILE@)),
        Phase::CleaningUp => ActionView::CleanUp(s.container),
        Phase::Finished => ActionView::Finish(
            match s.outcome {
                Some(result) => result,
                None => Err(Seq::empty()),
            },
        ),
    }
}

/// What holds in every state of the start: the version subcommand is known
/// before the server is asked for its version, a generation is only stamped
/// and published once its version check reported the pinned release, a fresh
/// generation has a safe name inside the container, the base arguments hold
/// exactly one `serve` once the container is known, the generation attempts are
/// counted from 1 up to their bound, a finished start has its outcome, and what
/// holds of the launch (`launch_is_checked`).
pub open spec fn well_formed(s: StartView) -> bool {
    &&& (s.phase == Phase::ProbingGeneration || s.phase == Phase::VerifyingInstallation)
        ==> subcommand_args(s.args, "version"@) is Some
    &&& (s.phase == Phase::Stamping || s.phase == Phase::Publishing) ==> is_pinned_version(
        s.verified,
    )
    &&& (s.phase == Phase::CreatingGeneration || s.phase == Phase::PreparingDepot || s.phase
        == Phase::Installing || s.phase == Phase::VerifyingInstallation || s.phase
        == Phase::Stamping || s.phase == Phase::Publishing) ==> {
        &&& is_safe_generation_id(s.generation_id)
        &&& s.generation == path_join(s.container, s.generation_id)
    }
    &&& is_past_storage(s.phase) ==> subcommand_args(s.args, "version"@) is Some
    &&& s.attempt <= GENERATION_ATTEMPTS
    &&& s.phase == Phase::NamingGeneration ==> s.attempt < GENERATION_ATTEMPTS
    &&& s.phase == Phase::CreatingGeneration ==> 1 <= s.attempt
    &&& s.phase == Phase::FindingJulia ==> !is_command_path(s.julia_command)
    &&& s.phase == Phase::Finished <==> s.outcome is Some
    &&& launch_is_checked(s)
}

/// What holds of the launch: from the moment the container is known it is the
/// managed container of the Julia runtime; the generation, once read or made,
/// lies directly inside it; and before the start launches that generation, and
/// when it finishes with a launch command, the generation's JETLS reported the
/// pinned release and the command is the one for that generation.
#[verifier::opaque]
pub open spec fn launch_is_checked(s: StartView) -> bool {
    &&& (is_past_storage(s.phase) || finished_ok(s)) ==> container_of_runtime(s)
    &&& (s.phase == Phase::CheckingGeneration || s.phase == Phase::ProbingGeneration
        || is_launching(s.phase) || finished_ok(s)) ==> generation_in_container(s)
    &&& (is_launching(s.phase) || finished_ok(s)) ==> launches_pinned(s)
    &&& finished_ok(s) ==> s.outcome == Some(Ok::<LaunchView, Seq<char>>(launch_command(s)))
}

/// The phases after the container is known and before the start finishes.
pub open spec fn is_past_storage(phase: Phase) -> bool {
    !(phase == Phase::FindingJulia || phase == Phase::CheckingJulia || phase
        == Phase::LocatingStorage || phase == Phase::Finished)
}

/// The phases in which a checked generation is made ready to launch.
pub open spec fn is_launching(phase: Phase) -> bool {
    phase == Phase::MarkingGeneration || phase == Phase::MarkingContainer || phase
        == Phase::CleaningUp
}

/// The start finished with a launch command.
pub open spec fn finished_ok(s: StartView) -> bool {
    s.phase == Phase::Finished && s.outcome matches Some(Ok(_))
}

/// The container is the managed one, under some working directory, of the
/// Julia binary and the `major.minor` version its check reported.
pub open spec fn container_of_runtime(s: StartView) -> bool {
    exists|dir: Seq<char>|
        s.container == #[trigger] managed_container(
            dir,
            s.julia_bin + "\n"@ + minor_version(s.julia_version),
        )
}

/// The generation is a directory directly inside the container, named by a
/// safe generation id.
pub open spec fn generation_in_container(s: StartView) -> bool {
    exists|id: Seq<char>|
        is_safe_generation_id(id) && s.generation == #[trigger] path_join(s.container, id)
}

/// The JETLS of the generation reported the pinned release: the published
/// generation passed its version check, or the fresh one did.
pub open spec fn launches_pinned(s: StartView) -> bool {
    !needs_update(s.installed) || is_pinned_version(s.verified)
}

/// The command that launches the server from the generation of the start.
pub open spec fn launch_command(s: StartView) -> LaunchView {
    LaunchView {
        command: s.julia_bin,
        args: launch_args(s.args),
        env: launch_env(s.env, s.generation, s.platform),
    }
}



/// Every start begins well formed.
pub proof fn law_initial_is_well_formed(settings: &LspSettings, shell_env: EnvView, platform: Os)
    ensures
        well_formed(initial(settings, shell_env, platform)),
{
    reveal(launch_is_checked);
}

/// A start that finishes with a failure still holds what it knew of its launch.
proof fn lemma_failed_is_checked(s: StartView, message: Seq<char>)
    ensures
        launch_is_checked(failed(s, message)),
{
    reveal(launch_is_checked);
}

/// Every event keeps what holds of the launch.
proof fn lemma_launch_is_checked_kept(s: StartView, event: EventView)
    requires
        well_formed(s),
    ensures
        launch_is_checked(next(s, event)),
{
    reveal(launch_is_checked);
    let t = next(s, event);
    match (s.phase, event) {
        (Phase::LocatingStorage, EventView::CurrentDir(Ok(dir))) => {
            let runtime = s.julia_bin + "\n"@ + minor_version(s.julia_version);
            let container = managed_container(dir, runtime);
            if subcommand_args(s.args, "version"@) is Some {
                assert(t == StartView { container, phase: Phase::CreatingStorage, ..s });
            } else {
                assert(t == failed(StartView { container, ..s }, invalid_args_message(s.args)));
            }
            assert(t.container == container);
            assert(t.julia_bin == s.julia_bin && t.julia_version == s.julia_version);
            assert(container_of_runtime(t));
        },
        (Phase::ReadingPointer, EventView::PointerRead(Some(text))) => {
            if let Some(id) = json_string_member(text, "generation"@) {
                if is_safe_generation_id(id) {
                    assert(t.generation == path_join(t.container, id));
                    assert(generation_in_container(t));
                }
            }
        },
        (Phase::Publishing, EventView::FileReplaced(Ok(_))) => {
            assert(t.generation == path_join(t.container, s.generation_id));
            assert(generation_in_container(t));
        },
        _ => {},
    }
    if is_past_storage(s.phase) && (is_past_storage(t.phase) || finished_ok(t)) {
        let runtime = s.julia_bin + "\n"@ + minor_version(s.julia_version);
        let dir = choose|dir: Seq<char>| s.container == #[trigger] managed_container(dir, runtime);
        assert(t.container == s.container && t.julia_bin == s.julia_bin && t.julia_version
            == s.julia_version);
        assert(t.container == managed_container(dir, runtime));
    }
}

/// A start that finishes with a launch command runs the Julia binary it found
/// and checked, with the server's arguments and the launch environment of a
/// generation directly inside the managed container of that binary and its
/// `major.minor` version; and that generation's JETLS reported the pinned
/// release: the published generation passed its version check, or the fresh
/// one did before it was published.
pub proof fn law_launches_only_pinned_generations(s: StartView)
    requires
        well_formed(s),
        s.outcome matches Some(Ok(_)),
    ensures
        s.outcome == Some(
            Ok::<LaunchView, Seq<char>>(
                LaunchView {
                    command: s.julia_bin,
                    args: launch_args(s.args),
                    env: launch_env(s.env, s.generation, s.platform),
                },
            ),
        ),
        exists|id: Seq<char>|
            is_safe_generation_id(id) && s.generation == #[trigger] path_join(s.container, id),
        exists|dir: Seq<char>|
            s.container == #[trigger] managed_container(
                dir,
                s.julia_bin + "\n"@ + minor_version(s.julia_version),
            ),
        (s.installed matches Some(Ok(version)) && is_pinned_version(version))
            || is_pinned_version(s.verified),
{
    reveal(launch_is_checked);
}

/// The installation runs once its depot exists: a depot that cannot be created
/// fails the installation before any command runs; the installation runs the
/// Julia binary on the pinned `Pkg.Apps.add` script with the installation
/// environment of the generation; and it goes on to the version check exactly
/// when the command exited with status 0.
pub proof fn law_installation_runs_once_its_depot_exists(s: StartView, event: EventView)
    requires
        well_formed(s),
    ensures
        s.phase == Phase::PreparingDepot ==> {
            &&& action_of(s) == ActionView::CreateDirectories(s.generation)
            &&& event matches EventView::DirectoriesCreated(Err(e)) ==> next(s, event)
                == installation_failed(
                s,
                "Failed to create the managed JETLS depot '"@ + s.generation + "': "@ + e,
            )
            &&& event matches EventView::DirectoriesCreated(Ok(_)) ==> next(s, event).phase
                == Phase::Installing
        },
        s.phase == Phase::Installing ==> {
            &&& action_of(s) == ActionView::RunCommand(
                s.julia_bin,
                script_args(install_script()),
                install_env(s.env, s.generation, s.platform),
            )
            &&& event matches EventView::CommandRan(ran) ==> next(s, event) == match command_result(
                ran,
                "the managed JETLS installation"@,
                "The managed JETLS installation"@,
                s.julia_bin,
            ) {
                Ok(_) => moved(s, Phase::VerifyingInstallation),
                Err(message) => installation_failed(s, message),
            }
        },
{
}

/// A fresh generation is named at most `GENERATION_ATTEMPTS` times: the count
/// starts at 0 when the installation starts, each clock reading names one more
/// generation, a taken name is retried only below the bound and fails the
/// installation at it, and any other failure to create the directory fails the
/// installation at once.
pub proof fn law_generation_attempts_are_bounded(s: StartView, event: EventView)
    requires
        well_formed(s),
    ensures
        s.phase == Phase::CreatingGeneration ==> 1 <= s.attempt <= GENERATION_ATTEMPTS,
        s.phase == Phase::Downloading && event == EventView::StatusReported ==> next(s, event).phase
            == Phase::NamingGeneration && next(s, event).attempt == 0,
        s.phase == Phase::NamingGeneration ==> action_of(s) == ActionView::ReadClock,
        s.phase == Phase::NamingGeneration ==> (event matches EventView::Clock(nanos) ==> {
            &&& next(s, event).phase == Phase::CreatingGeneration
            &&& next(s, event).attempt == s.attempt + 1
            &&& next(s, event).generation_id == generation_id_text(nanos as nat)
            &&& next(s, event).generation == path_join(s.container, generation_id_text(nanos as nat))
        }),
        s.phase == Phase::CreatingGeneration && event == EventView::DirectoryCreated(
            DirCreationView::AlreadyExists,
        ) ==> next(s, event) == if s.attempt < GENERATION_ATTEMPTS {
            moved(s, Phase::NamingGeneration)
        } else {
            installation_failed(s, generations_exhausted_message(s.container))
        },
        s.phase == Phase::CreatingGeneration ==> (event matches EventView::DirectoryCreated(
            DirCreationView::Failed(e),
        ) ==> next(s, event) == installation_failed(s, generation_failure_message(s.container, e))),
{
}

/// A fresh installation is checked before anything of it is published: the
/// check runs the installed JETLS for its version; a report of the pinned
/// release goes on to stamping, any other report fails the installation with
/// the version it gave, and a failed check fails it with its message.
pub proof fn law_fresh_installation_is_checked_before_publishing(
    s: StartView,
    ran: Result<OutputView, Seq<char>>,
)
    requires
        well_formed(s),
        s.phase == Phase::VerifyingInstallation,
    ensures
        action_of(s) == ActionView::RunCommand(
            s.julia_bin,
            version_args(s.args),
            launch_env(s.env, s.generation, s.platform),
        ),
        next(s, EventView::CommandRan(ran)) == match command_result(
            ran,
            "the JETLS version check"@,
            "The JETLS version check"@,
            s.julia_bin,
        ) {
            Ok(version) => if is_pinned_version(version) {
                StartView { verified: version, phase: Phase::Stamping, ..s }
            } else {
                installation_failed(s, crate::version::unexpected_version_message(version))
            },
            Err(message) => installation_failed(s, message),
        },
{
}

/// A verified fresh generation is published before it is launched: once its
/// install stamp is written, whether or not that succeeded, the start points
/// the container's `current` file at the generation; and, from an
/// installation, the start goes on to launch a generation only through a
/// successful publication. The only other way to launch is the reuse of a
/// published generation whose version check reported the pinned release.
pub proof fn law_fresh_generation_is_published_before_launch(s: StartView, event: EventView)
    requires
        well_formed(s),
    ensures
        s.phase == Phase::Stamping ==> action_of(s) == ActionView::ReplaceFile(
            path_join(s.generation, "install-stamp.json"@),
            install_stamp_document(s.julia_version),
        ),
        s.phase == Phase::Stamping && event is FileReplaced ==> {
            &&& next(s, event).phase == Phase::Publishing
            &&& action_of(next(s, event)) == ActionView::ReplaceFile(
                path_join(s.container, "current"@),
                pointer_document(s.generation_id),
            )
        },
        s.phase != Phase::MarkingGeneration && next(s, event).phase == Phase::MarkingGeneration
            ==> {
            ||| s.phase == Phase::Publishing && (event matches EventView::FileReplaced(Ok(_)))
            ||| s.phase == Phase::ProbingGeneration && !needs_update(next(s, event).installed)
        },
{
}

/// Patch releases of a Julia binary share a container: it is keyed by the
/// binary and the `major.minor` version only.
pub proof fn law_patch_releases_share_a_container(
    s: StartView,
    current_dir: Seq<char>,
    other_version: Seq<char>,
)
    requires
        s.phase == Phase::LocatingStorage,
        minor_version(other_version) == minor_version(s.julia_version),
    ensures
        next(s, EventView::CurrentDir(Ok(current_dir))).container == next(
            StartView { julia_version: other_version, ..s },
            EventView::CurrentDir(Ok(current_dir)),
        ).container,
{
}

/// Every event keeps the start well formed.
pub proof fn law_well_formed_is_kept(s: StartView, event: EventView)
    requires
        well_formed(s),
    ensures
        well_formed(next(s, event)),
{
    if s.phase == Phase::NamingGeneration {
        if let EventView::Clock(nanos) = event {
            law_generation_ids_are_safe(nanos as nat);
        }
    }
    lemma_launch_is_checked_kept(s, event);
}

/// A finished start stays finished, whatever is reported.
pub proof fn law_finished_is_final(s: StartView, event: EventView)
    requires
        s.phase == Phase::Finished,
    ensures
        next(s, event) == s,
{
}

/// Nothing of an installation is published, neither its stamp nor the
/// container's pointer, unless its version check reported the pinned release;
/// and the pointer then names the fresh generation, a directory inside the
/// container.
pub proof fn law_only_verified_generations_are_published(s: StartView)
    requires
        well_formed(s),
    ensures
        action_of(s) is ReplaceFile ==> is_pinned_version(s.verified),
        s.phase == Phase::Publishing ==> {
            &&& action_of(s) == ActionView::ReplaceFile(
                path_join(s.container, CURRENT_POINTER_FILE@),
                pointer_document(s.generation_id),
            )
            &&& is_safe_generation_id(s.generation_id)
            &&& s.generation == path_join(s.container, s.generation_id)
        },
{
}

/// A published generation whose version check reports the pinned release is
/// used as it is; otherwise the start installs a fresh one.
pub proof fn law_verified_generation_is_reused(s: StartView, output: OutputView)
    requires
        s.phase == Phase::ProbingGeneration,
    ensures
        ({
            let after = next(s, EventView::CommandRan(Ok(output)));
            if output.status == Some(0i32) && is_pinned_version(utf8_lossy(output.stdout)) {
                after.phase == Phase::MarkingGeneration && after.generation == s.generation
            } else {
                after.phase == Phase::Downloading
            }
        }),
{
}

/// When the published generation failed its version check and its repair
/// fails too, the start reports both failures and where the storage to delete
/// is.
pub proof fn law_failed_repair_reports_both_failures(
    s: StartView,
    verification_error: Seq<char>,
    error: Seq<char>,
)
    requires
        s.installed == Some(Err::<Seq<char>, Seq<char>>(verification_error)),
    ensures
        installation_failed(s, error).outcome == Some(
            Err::<LaunchView, Seq<char>>(
                with_storage_hint(
                    "The cached managed JETLS installation failed verification:\n"@
                        + verification_error
                        + "\nFailed to repair the managed JETLS installation:\n"@ + error,
                    s.container,
                ),
            ),
        ),
{
}

/// The start of the managed language server: it checks the Julia runtime,
/// reuses the published generation of its container if that reports the
/// pinned JETLS release, and otherwise installs a fresh generation, verifies
/// it and only then publishes it. The caller performs each `Action` and
/// reports the `Event` that answers it.
pub struct ServerStart {
    args: Vec<String>,
    env: Vec<(String, String)>,
    platform: Os,
    julia_command: String,
    julia_bin: String,
    julia_version: String,
    container: String,
    installed: Option<Result<String, String>>,
    generation_id: String,
    generation: String,
    verified: String,
    attempt: u32,
    phase: Phase,
    outcome: Option<Result<LaunchCommand, String>>,
}

/// The view of an optional result of text.
pub open spec fn installed_view(installed: Option<Result<String, String>>) -> Option<
    Result<Seq<char>, Seq<char>>,
> {
    match installed {
        Some(Ok(v)) => Some(Ok(v@)),
        Some(Err(e)) => Some(Err(e@)),
        None => None,
    }
}

/// The view of an optional outcome.
pub open spec fn outcome_view(outcome: Option<Result<LaunchCommand, String>>) -> Option<
    Result<LaunchView, Seq<char>>,
> {
    match outcome {
        Some(Ok(command)) => Some(Ok(command@)),
        Some(Err(e)) => Some(Err(e@)),
        None => None,
    }
}

impl View for ServerStart {
    type V = StartView;

    closed spec fn view(&self) -> StartView {
        StartView {
            args: self.args.deep_view(),
            env: self.env.deep_view(),
            platform: self.platform,
            julia_command: self.julia_command@,
            julia_bin: self.julia_bin@,
            julia_version: self.julia_version@,
            container: self.container@,
            installed: installed_view(self.installed),
            generation_id: self.generation_id@,
            generation: self.generation@,
            verified: self.verified@,
            attempt: self.attempt,
            phase: self.phase,
            outcome: outcome_view(self.outcome),
        }
    }
}

impl ServerStart {
    #[verifier::type_invariant]
    spec fn keeps_well_formed(&self) -> bool {
        well_formed(self@)
    }

    /// The phase the start is in.
    pub fn phase(&self) -> (phase: Phase)
        ensures
            phase == self@.phase,
    {
        self.phase
    }

    /// What the caller must do next.
    pub fn action(&self) -> (action: Action)
        ensures
            action@ == action_of(self@),
            well_formed(self@),
            action@ matches ActionView::Finish(Ok(command)) ==> {
                &&& command == launch_command(self@)
                &&& launches_pinned(self@)
                &&& generation_in_container(self@)
                &&& container_of_runtime(self@)
            },
    {
        proof {
            use_type_invariant(self);
            reveal(launch_is_checked);
        }
        match self.phase {
            Phase::FindingJulia => Action::FindCommand { command: self.julia_command.clone() },
            Phase::CheckingJulia => Action::RunCommand {
                program: self.julia_bin.clone(),
                args: JuliaExtension::julia_version_check_args(),
                env: clone_pairs(self.env.as_slice()),
            },
            Phase::LocatingStorage => Action::ResolveCurrentDir,
            Phase::CreatingStorage => Action::CreateDirectories { path: self.container.clone() },
            Phase::MarkingStorage => Action::TouchFile {
                path: JuliaExtension::last_used_path(self.container.as_str()),
            },
            Phase::ReadingPointer => Action::ReadPointer {
                path: JuliaExtension::current_pointer_path(self.container.as_str()),
            },
            Phase::CheckingGeneration => Action::CheckDirectory {
                path: self.generation.clone(),
            },
            Phase::ProbingGeneration | Phase::VerifyingInstallation => {
                let args = match JuliaExtension::version_command_args(self.args.as_slice()) {
                    Ok(args) => args,
                    Err(_) => unreached(),
                };
                Action::RunCommand {
                    program: self.julia_bin.clone(),
                    args,
                    env: JuliaExtension::server_launch_env(
                        clone_pairs(self.env.as_slice()),
                        self.generation.as_str(),
                        self.platform,
                    ),
                }
            },
            Phase::Downloading => Action::ReportDownloading,
            Phase::NamingGeneration => Action::ReadClock,
            Phase::CreatingGeneration => Action::CreateDirectory {
                path: self.generation.clone(),
            },
            Phase::PreparingDepot => Action::CreateDirectories { path: self.generation.clone() },
            Phase::Installing => Action::RunCommand {
                program: self.julia_bin.clone(),
                args: JuliaExtension::install_args(),
                env: JuliaExtension::install_env(
                    self.env.as_slice(),
                    self.generation.as_str(),
                    self.platform,
                ),
            },
            Phase::Stamping => Action::ReplaceFile {
                path: JuliaExtension::install_stamp_path(self.generation.as_str()),
                content: JuliaExtension::install_stamp_document(self.julia_version.as_str()),
            },
            Phase::Publishing => Action::ReplaceFile {
                path: JuliaExtension::current_pointer_path(self.container.as_str()),
                content: JuliaExtension::current_pointer_document(self.generation_id.as_str()),
            },
            Phase::MarkingGeneration => Action::TouchFile {
                path: JuliaExtension::last_used_path(self.generation.as_str()),
            },
            Phase::MarkingContainer => Action::TouchFile {
                path: JuliaExtension::last_used_path(self.container.as_str()),
            },
            Phase::CleaningUp => Action::CleanUp { container_path: self.container.clone() },
            Phase::Finished => Action::Finish(
                match &self.outcome {
                    Some(Ok(command)) => Ok(
                        LaunchCommand {
                            command: command.command.clone(),
                            args: clone_strings(command.args.as_slice()),
                            env: clone_pairs(command.env.as_slice()),
                        },
                    ),
                    Some(Err(e)) => Err(e.clone()),
                    None => unreached(),
                },
            ),
        }
    }
}

/// The message of a command that could not be run.
fn run_failure(description: &str, program: &str, error: &str) -> (message: String)
    ensures
        message@ == run_failure_message(description@, program@, error@),
{
    let mut message = String::from_str("Failed to run ");
    message.append(description);
    message.append(" using '");
    message.append(program);
    message.append("': ");
    message.append(error);
    message
}

/// What a finished command reports.
fn command_outcome(
    ran: Result<CommandOutput, String>,
    description: &str,
    message_description: &str,
    program: &str,
) -> (result: Result<String, String>)
    ensures
        match result {
            Ok(text) => command_result(
                ran_view(ran),
                description@,
                message_description@,
                program@,
            ) == Ok::<Seq<char>, Seq<char>>(text@),
            Err(text) => command_result(
                ran_view(ran),
                description@,
                message_description@,
                program@,
            ) == Err::<Seq<char>, Seq<char>>(text@),
        },
{
    match ran {
        Ok(output) => JuliaExtension::successful_output(output, message_description),
        Err(error) => Err(run_failure(description, program, error.as_str())),
    }
}

/// The view of a command's outcome.
pub open spec fn ran_view(ran: Result<CommandOutput, String>) -> Result<OutputView, Seq<char>> {
    match ran {
        Ok(output) => Ok(
            OutputView { status: output.status, stdout: output.stdout@, stderr: output.stderr@ },
        ),
        Err(e) => Err(e@),
    }
}

impl ServerStart {
    /// The start at its beginning, for the language server settings, the
    /// worktree's shell environment and the platform.
    pub fn new(settings: &LspSettings, shell_env: Vec<(String, String)>, platform: Os) -> (start:
        ServerStart)
        ensures
            start@ == initial(settings, shell_env.deep_view(), platform),
            well_formed(start@),
    {
        let env = JuliaExtension::command_env(settings, shell_env, platform);
        let args = JuliaExtension::resolve_binary_args(settings);
        let command = JuliaExtension::julia_command(env.as_slice(), platform);
        proof {
            reveal(launch_is_checked);
        }
        let phase = if JuliaExtension::command_is_path(command.as_str()) {
            Phase::CheckingJulia
        } else {
            Phase::FindingJulia
        };
        ServerStart {
            args,
            env,
            platform,
            julia_command: command.clone(),
            julia_bin: command,
            julia_version: String::new(),
            container: String::new(),
            installed: None,
            generation_id: String::new(),
            generation: String::new(),
            verified: String::new(),
            attempt: 0,
            phase,
            outcome: None,
        }
    }

    /// The start, finished with `message`.
    fn fail(self, message: String) -> (failed_start: ServerStart)
        ensures
            failed_start@ == failed(self@, message@),
    {
        proof {
            use_type_invariant(&self);
            lemma_failed_is_checked(self@, message@);
        }
        ServerStart { phase: Phase::Finished, outcome: Some(Err(message)), ..self }
    }

    /// The start, finished with a failure of the managed installation.
    fn fail_installation(self, error: String) -> (failed_start: ServerStart)
        ensures
            failed_start@ == installation_failed(self@, error@),
    {
        let mut message = match &self.installed {
            Some(Err(verification_error)) => {
                let mut message = String::from_str(
                    "The cached managed JETLS installation failed verification:\n",
                );
                message.append(verification_error.as_str());
                message.append("\nFailed to repair the managed JETLS installation:\n");
                message.append(error.as_str());
                message
            },
            _ => error,
        };
        message.append("\nIf the error persists, delete the managed JETLS storage at '");
        message.append(self.container.as_str());
        message.append("' and restart the language server.");
        self.fail(message)
    }

    /// The start, moved on to `phase`.
    fn to_phase(self, phase: Phase) -> (moved_start: ServerStart)
        requires
            well_formed(moved(self@, phase)),
        ensures
            moved_start@ == moved(self@, phase),
    {
        ServerStart { phase, ..self }
    }

    /// The start after `event`, in phase `FindingJulia`.
    fn on_finding_julia(self, event: Event) -> (next_start: ServerStart)
        requires
            self@.phase == Phase::FindingJulia,
        ensures
            next_start@ == next(self@, event@),
    {
        proof {
            use_type_invariant(&self);
            lemma_launch_is_checked_kept(self@, event@);
        }
        match event {
            Event::CommandFound(Some(program)) => ServerStart {
                julia_bin: program,
                phase: Phase::CheckingJulia,
                ..self
            },
            Event::CommandFound(None) => {
                let message = JuliaExtension::resolve_command(
                    self.julia_command.as_str(),
                    "Julia",
                    None,
                );
                match message {
                    Err(message) => self.fail(message),
                    Ok(_) => unreached(),
                }
            },
            _ => self,
        }
    }

    /// The start after `event`, in phase `CheckingJulia`.
    fn on_checking_julia(self, event: Event) -> (next_start: ServerStart)
        requires
            self@.phase == Phase::CheckingJulia,
        ensures
            next_start@ == next(self@, event@),
    {
        proof {
            use_type_invariant(&self);
            lemma_launch_is_checked_kept(self@, event@);
        }
        match event {
            Event::CommandRan(ran) => {
                match command_outcome(
                    ran,
                    "the Julia version check",
                    "The Julia version check",
                    self.julia_bin.as_str(),
                ) {
                    Ok(version) => ServerStart {
                        julia_version: version,
                        phase: Phase::LocatingStorage,
                        ..self
                    },
                    Err(message) => self.fail(message),
                }
            },
            _ => self,
        }
    }

    /// The start after `event`, in phase `LocatingStorage`.
    fn on_locating_storage(self, event: Event) -> (next_start: ServerStart)
        requires
            self@.phase == Phase::LocatingStorage,
        ensures
            next_start@ == next(self@, event@),
    {
        proof {
            use_type_invariant(&self);
            lemma_launch_is_checked_kept(self@, event@);
            reveal(launch_is_checked);
        }
        match event {
            Event::CurrentDir(Ok(dir)) => {
                let runtime = JuliaExtension::julia_runtime(
                    self.julia_bin.as_str(),
                    self.julia_version.as_str(),
                );
                let container = JuliaExtension::managed_container_path(
                    dir.as_str(),
                    runtime.as_str(),
                );
                match JuliaExtension::args_for_subcommand(self.args.as_slice(), "version") {
                    Ok(_) => ServerStart { container, phase: Phase::CreatingStorage, ..self },
                    Err(message) => ServerStart { container, ..self }.fail(message),
                }
            },
            Event::CurrentDir(Err(error)) => {
                let mut message = String::from_str(
                    "Failed to resolve the extension data directory: ",
                );
                message.append(error.as_str());
                self.fail(message)
            },
            _ => self,
        }
    }

    /// The start after `event`, in phase `CreatingStorage`.
    fn on_creating_storage(self, event: Event) -> (next_start: ServerStart)
        requires
            self@.phase == Phase::CreatingStorage,
        ensures
            next_start@ == next(self@, event@),
    {
        proof {
            use_type_invariant(&self);
            lemma_launch_is_checked_kept(self@, event@);
        }
        match event {
            Event::DirectoriesCreated(Ok(())) => self.to_phase(Phase::MarkingStorage),
            Event::DirectoriesCreated(Err(error)) => {
                let mut message = String::from_str("Failed to create the managed JETLS storage '");
                message.append(self.container.as_str());
                message.append("': ");
                message.append(error.as_str());
                self.fail(message)
            },
            _ => self,
        }
    }

    /// The start after `event`, in phase `MarkingStorage`.
    fn on_marking_storage(self, event: Event) -> (next_start: ServerStart)
        requires
            self@.phase == Phase::MarkingStorage,
        ensures
            next_start@ == next(self@, event@),
    {
        proof {
            use_type_invariant(&self);
            lemma_launch_is_checked_kept(self@, event@);
        }
        match event {
            Event::Touched => self.to_phase(Phase::ReadingPointer),
            _ => self,
        }
    }

    /// The start after `event`, in phase `ReadingPointer`.
    fn on_reading_pointer(self, event: Event) -> (next_start: ServerStart)
        requires
            self@.phase == Phase::ReadingPointer,
        ensures
            next_start@ == next(self@, event@),
            forall|id: Seq<char>|
                event@ == EventView::PointerRead(Some(#[trigger] pointer_document(id)))
                    && is_safe_generation_id(id) ==> next_start@.phase == Phase::CheckingGeneration
                    && next_start@.generation == path_join(self@.container, id),
    {
        proof {
            use_type_invariant(&self);
            lemma_launch_is_checked_kept(self@, event@);
        }
        match event {
            Event::PointerRead(Some(text)) => {
                match JuliaExtension::current_generation_target(
                    self.container.as_str(),
                    text.as_str(),
                ) {
                    Some(generation) => ServerStart {
                        generation,
                        phase: Phase::CheckingGeneration,
                        ..self
                    },
                    None => ServerStart {
                        installed: None,
                        phase: Phase::Downloading,
                        ..self
                    },
                }
            },
            Event::PointerRead(None) => ServerStart {
                installed: None,
                phase: Phase::Downloading,
                ..self
            },
            _ => self,
        }
    }

    /// The start after `event`, in phase `CheckingGeneration`.
    fn on_checking_generation(self, event: Event) -> (next_start: ServerStart)
        requires
            self@.phase == Phase::CheckingGeneration,
        ensures
            next_start@ == next(self@, event@),
    {
        proof {
            use_type_invariant(&self);
            lemma_launch_is_checked_kept(self@, event@);
        }
        match event {
            Event::DirectoryChecked(is_dir) => {
                if !is_dir {
                    ServerStart { installed: None, phase: Phase::Downloading, ..self }
                } else {
                    match JuliaExtension::args_for_subcommand(self.args.as_slice(), "version") {
                        Ok(_) => self.to_phase(Phase::ProbingGeneration),
                        Err(message) => ServerStart {
                            installed: Some(Err(message)),
                            phase: Phase::Downloading,
                            ..self
                        },
                    }
                }
            },
            _ => self,
        }
    }

    /// The start after `event`, in phase `ProbingGeneration`.
    fn on_probing_generation(self, event: Event) -> (next_start: ServerStart)
        requires
            self@.phase == Phase::ProbingGeneration,
        ensures
            next_start@ == next(self@, event@),
    {
        proof {
            use_type_invariant(&self);
            lemma_launch_is_checked_kept(self@, event@);
        }
        match event {
            Event::CommandRan(ran) => {
                let installed = command_outcome(
                    ran,
                    "the JETLS version check",
                    "The JETLS version check",
                    self.julia_bin.as_str(),
                );
                if JuliaExtension::managed_installation_needs_update(Some(&installed)) {
                    ServerStart {
                        installed: Some(installed),
                        phase: Phase::Downloading,
                        ..self
                    }
                } else {
                    ServerStart {
                        installed: Some(installed),
                        phase: Phase::MarkingGeneration,
                        ..self
                    }
                }
            },
            _ => self,
        }
    }

    /// The start after `event`, in phase `Downloading`.
    fn on_downloading(self, event: Event) -> (next_start: ServerStart)
        requires
            self@.phase == Phase::Downloading,
        ensures
            next_start@ == next(self@, event@),
    {
        proof {
            use_type_invariant(&self);
            lemma_launch_is_checked_kept(self@, event@);
        }
        match event {
            Event::StatusReported => ServerStart {
                attempt: 0,
                phase: Phase::NamingGeneration,
                ..self
            },
            _ => self,
        }
    }

    /// The start after `event`, in phase `NamingGeneration`.
    fn on_naming_generation(self, event: Event) -> (next_start: ServerStart)
        requires
            self@.phase == Phase::NamingGeneration,
        ensures
            next_start@ == next(self@, event@),
    {
        proof {
            use_type_invariant(&self);
            lemma_launch_is_checked_kept(self@, event@);
        }
        match event {
            Event::Clock(nanos) => {
                let generation_id = JuliaExtension::generation_id_at(nanos);
                let generation = JuliaExtension::join_path(
                    self.container.as_str(),
                    generation_id.as_str(),
                );
                proof {
                    law_generation_ids_are_safe(nanos as nat);
                }
                ServerStart {
                    generation_id,
                    generation,
                    attempt: self.attempt + 1,
                    phase: Phase::CreatingGeneration,
                    ..self
                }
            },
            _ => self,
        }
    }

    /// The start after `event`, in phase `CreatingGeneration`.
    fn on_creating_generation(self, event: Event) -> (next_start: ServerStart)
        requires
            self@.phase == Phase::CreatingGeneration,
        ensures
            next_start@ == next(self@, event@),
    {
        proof {
            use_type_invariant(&self);
            lemma_launch_is_checked_kept(self@, event@);
        }
        match event {
            Event::DirectoryCreated(DirCreation::Created) => self.to_phase(
                Phase::PreparingDepot,
            ),
            Event::DirectoryCreated(DirCreation::AlreadyExists) => {
                if self.attempt < GENERATION_ATTEMPTS {
                    self.to_phase(Phase::NamingGeneration)
                } else {
                    let message = JuliaExtension::generations_exhausted_message(
                        self.container.as_str(),
                    );
                    self.fail_installation(message)
                }
            },
            Event::DirectoryCreated(DirCreation::Failed(error)) => {
                let mut message = String::from_str(
                    "Failed to create a managed JETLS generation in '",
                );
                message.append(self.container.as_str());
                message.append("': ");
                message.append(error.as_str());
                self.fail_installation(message)
            },
            _ => self,
        }
    }

    /// The start after `event`, in phase `PreparingDepot`.
    fn on_preparing_depot(self, event: Event) -> (next_start: ServerStart)
        requires
            self@.phase == Phase::PreparingDepot,
        ensures
            next_start@ == next(self@, event@),
    {
        proof {
            use_type_invariant(&self);
            lemma_launch_is_checked_kept(self@, event@);
        }
        match event {
            Event::DirectoriesCreated(Ok(())) => self.to_phase(Phase::Installing),
            Event::DirectoriesCreated(Err(error)) => {
                let mut message = String::from_str("Failed to create the managed JETLS depot '");
                message.append(self.generation.as_str());
                message.append("': ");
                message.append(error.as_str());
                self.fail_installation(message)
            },
            _ => self,
        }
    }

    /// The start after `event`, in phase `Installing`.
    fn on_installing(self, event: Event) -> (next_start: ServerStart)
        requires
            self@.phase == Phase::Installing,
        ensures
            next_start@ == next(self@, event@),
    {
        proof {
            use_type_invariant(&self);
            lemma_launch_is_checked_kept(self@, event@);
        }
        match event {
            Event::CommandRan(ran) => {
                match command_outcome(
                    ran,
                    "the managed JETLS installation",
                    "The managed JETLS installation",
                    self.julia_bin.as_str(),
                ) {
                    Ok(_) => match JuliaExtension::args_for_subcommand(
                        self.args.as_slice(),
                        "version",
                    ) {
                        Ok(_) => self.to_phase(Phase::VerifyingInstallation),
                        Err(message) => self.fail_installation(message),
                    },
                    Err(message) => self.fail_installation(message),
                }
            },
            _ => self,
        }
    }

    /// The start after `event`, in phase `VerifyingInstallation`.
    fn on_verifying_installation(self, event: Event) -> (next_start: ServerStart)
        requires
            self@.phase == Phase::VerifyingInstallation,
        ensures
            next_start@ == next(self@, event@),
    {
        proof {
            use_type_invariant(&self);
            lemma_launch_is_checked_kept(self@, event@);
        }
        match event {
            Event::CommandRan(ran) => {
                match command_outcome(
                    ran,
                    "the JETLS version check",
                    "The JETLS version check",
                    self.julia_bin.as_str(),
                ) {
                    Ok(version) => match JuliaExtension::check_installed_version(
                        version.as_str(),
                    ) {
                        Ok(()) => ServerStart {
                            verified: version,
                            phase: Phase::Stamping,
                            ..self
                        },
                        Err(message) => self.fail_installation(message),
                    },
                    Err(message) => self.fail_installation(message),
                }
            },
            _ => self,
        }
    }

    /// The start after `event`, in phase `Stamping`.
    fn on_stamping(self, event: Event) -> (next_start: ServerStart)
        requires
            self@.phase == Phase::Stamping,
        ensures
            next_start@ == next(self@, event@),
    {
        proof {
            use_type_invariant(&self);
            lemma_launch_is_checked_kept(self@, event@);
        }
        match event {
            Event::FileReplaced(_) => self.to_phase(Phase::Publishing),
            _ => self,
        }
    }

    /// The start after `event`, in phase `Publishing`.
    fn on_publishing(self, event: Event) -> (next_start: ServerStart)
        requires
            self@.phase == Phase::Publishing,
        ensures
            next_start@ == next(self@, event@),
    {
        proof {
            use_type_invariant(&self);
            lemma_launch_is_checked_kept(self@, event@);
        }
        match event {
            Event::FileReplaced(Ok(())) => self.to_phase(Phase::MarkingGeneration),
            Event::FileReplaced(Err(error)) => {
                let mut message = String::from_str(
                    "Failed to publish the managed JETLS generation: ",
                );
                message.append(error.as_str());
                self.fail_installation(message)
            },
            _ => self,
        }
    }

    /// The start after `event`, in phase `MarkingGeneration`.
    fn on_marking_generation(self, event: Event) -> (next_start: ServerStart)
        requires
            self@.phase == Phase::MarkingGeneration,
        ensures
            next_start@ == next(self@, event@),
    {
        proof {
            use_type_invariant(&self);
            lemma_launch_is_checked_kept(self@, event@);
        }
        match event {
            Event::Touched => self.to_phase(Phase::MarkingContainer),
            _ => self,
        }
    }

    /// The start after `event`, in phase `MarkingContainer`.
    fn on_marking_container(self, event: Event) -> (next_start: ServerStart)
        requires
            self@.phase == Phase::MarkingContainer,
        ensures
            next_start@ == next(self@, event@),
    {
        proof {
            use_type_invariant(&self);
            lemma_launch_is_checked_kept(self@, event@);
        }
        match event {
            Event::Touched => self.to_phase(Phase::CleaningUp),
            _ => self,
        }
    }

    /// The start after `event`, in phase `CleaningUp`.
    fn on_cleaning_up(self, event: Event) -> (next_start: ServerStart)
        requires
            self@.phase == Phase::CleaningUp,
        ensures
            next_start@ == next(self@, event@),
    {
        proof {
            use_type_invariant(&self);
            lemma_launch_is_checked_kept(self@, event@);
        }
        match event {
            Event::CleanedUp => {
                let command = LaunchCommand {
                    command: self.julia_bin.clone(),
                    args: JuliaExtension::julia_launch_args(self.args.as_slice()),
                    env: JuliaExtension::server_launch_env(
                        clone_pairs(self.env.as_slice()),
                        self.generation.as_str(),
                        self.platform,
                    ),
                };
                ServerStart { phase: Phase::Finished, outcome: Some(Ok(command)), ..self }
            },
            _ => self,
        }
    }

    /// The start once the caller reports `event`; an event that does not
    /// answer the pending action leaves it unchanged.
    pub fn advance(self, event: Event) -> (next_start: ServerStart)
        ensures
            next_start@ == next(self@, event@),
            well_formed(next_start@),
            forall|id: Seq<char>|
                self@.phase == Phase::ReadingPointer && event@ == EventView::PointerRead(
                    Some(#[trigger] pointer_document(id)),
                ) && is_safe_generation_id(id) ==> next_start@.phase == Phase::CheckingGeneration
                    && next_start@.generation == path_join(self@.container, id),
    {
        proof {
            use_type_invariant(&self);
            law_well_formed_is_kept(self@, event@);
        }
        match self.phase {
            Phase::FindingJulia => self.on_finding_julia(event),
            Phase::CheckingJulia => self.on_checking_julia(event),
            Phase::LocatingStorage => self.on_locating_storage(event),
            Phase::CreatingStorage => self.on_creating_storage(event),
            Phase::MarkingStorage => self.on_marking_storage(event),
            Phase::ReadingPointer => self.on_reading_pointer(event),
            Phase::CheckingGeneration => self.on_checking_generation(event),
            Phase::ProbingGeneration => self.on_probing_generation(event),
            Phase::Downloading => self.on_downloading(event),
            Phase::NamingGeneration => self.on_naming_generation(event),
            Phase::CreatingGeneration => self.on_creating_generation(event),
            Phase::PreparingDepot => self.on_preparing_depot(event),
            Phase::Installing => self.on_installing(event),
            Phase::VerifyingInstallation => self.on_verifying_installation(event),
            Phase::Stamping => self.on_stamping(event),
            Phase::Publishing => self.on_publishing(event),
            Phase::MarkingGeneration => self.on_marking_generation(event),
            Phase::MarkingContainer => self.on_marking_container(event),
            Phase::CleaningUp => self.on_cleaning_up(event),
            Phase::Finished => self,
        }
    }
}

} // verus!
