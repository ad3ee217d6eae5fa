use vstd::prelude::*;
use vstd::string::*;

use crate::env::{with_values, EnvView};
use crate::{JuliaExtension, Os};

verus! {

/// The `binary` part of the language server settings a user gave in Zed.
pub struct CommandSettings {
    /// The path to the server binary.
    pub path: Option<String>,
    /// The arguments to pass to the server.
    pub arguments: Option<Vec<String>>,
    /// The environment variables to set, as (name, value) pairs.
    pub env: Option<Vec<(String, String)>>,
}

/// The language server settings a user gave in Zed that the launch reads.
pub struct LspSettings {
    /// The settings of the server binary.
    pub binary: Option<CommandSettings>,
}

/// The environment variables of the settings, as pairs.
pub open spec fn settings_env_view(settings: &LspSettings) -> EnvView {
    match settings.binary {
        Some(binary) => match binary.env {
            Some(env) => env.deep_view(),
            None => Seq::empty(),
        },
        None => Seq::empty(),
    }
}

/// The arguments of the server binary: those of the settings, else `serve`.
pub open spec fn binary_args_view(settings: &LspSettings) -> Seq<Seq<char>> {
    match settings.binary {
        Some(binary) => match binary.arguments {
            Some(arguments) => arguments.deep_view(),
            None => seq!["serve"@],
        },
        None => seq!["serve"@],
    }
}

/// A copy of the (name, value) pairs.
pub fn clone_pairs(pairs: &[(String, String)]) -> (copy: Vec<(String, String)>)
    ensures
        copy.deep_view() == pairs.deep_view(),
{
    let mut copy: Vec<(String, String)> = Vec::new();
    let mut i: usize = 0;
    while i < pairs.len()
        invariant
            i <= pairs@.len(),
            copy.deep_view() == pairs.deep_view().take(i as int),
        decreases pairs@.len() - i,
    {
        let ghost before = copy.deep_view();
        copy.push((pairs[i].0.clone(), pairs[i].1.clone()));
        assert(copy.deep_view() =~= before.push(pairs.deep_view()[i as int]));
        assert(copy.deep_view() =~= pairs.deep_view().take(i + 1));
        i = i + 1;
    }
    assert(pairs.deep_view().take(i as int) =~= pairs.deep_view());
    copy
}

/// A copy of the strings.
pub fn clone_strings(strings: &[String]) -> (copy: Vec<String>)
    ensures
        copy.deep_view() == strings.deep_view(),
{
    let mut copy: Vec<String> = Vec::new();
    let mut i: usize = 0;
    while i < strings.len()
        invariant
            i <= strings@.len(),
            copy.deep_view() == strings.deep_view().take(i as int),
        decreases strings@.len() - i,
    {
        let ghost before = copy.deep_view();
        copy.push(strings[i].clone());
        assert(copy.deep_view() =~= before.push(strings.deep_view()[i as int]));
        assert(copy.deep_view() =~= strings.deep_view().take(i + 1));
        i = i + 1;
    }
    assert(strings.deep_view().take(i as int) =~= strings.deep_view());
    copy
}

impl JuliaExtension {
    /// The environment variables that the settings give the server binary.
    pub fn settings_env(settings: &LspSettings) -> (env: Vec<(String, String)>)
        ensures
            env.deep_view() == settings_env_view(settings),
    {
        match &settings.binary {
            Some(binary) => match &binary.env {
                Some(env) => clone_pairs(env.as_slice()),
                None => {
                    let env: Vec<(String, String)> = Vec::new();
                    assert(env.deep_view() =~= Seq::empty());
                    env
                },
            },
            None => {
                let env: Vec<(String, String)> = Vec::new();
                assert(env.deep_view() =~= Seq::empty());
                env
            },
        }
    }

    /// The environment of the commands the extension runs: the worktree's
    /// shell environment with the variables of the settings set over it.
    pub fn command_env(settings: &LspSettings, shell_env: Vec<(String, String)>, platform: Os) -> (env:
        Vec<(String, String)>)
        ensures
            env.deep_view() == with_values(
                shell_env.deep_view(),
                settings_env_view(settings),
                platform,
            ),
    {
        let pairs = Self::settings_env(settings);
        let mut env = shell_env;
        let ghost start = env.deep_view();
        let mut i: usize = 0;
        while i < pairs.len()
            invariant
                i <= pairs@.len(),
                pairs.deep_view() == settings_env_view(settings),
                env.deep_view() == with_values(start, pairs.deep_view().take(i as int), platform),
            decreases pairs@.len() - i,
        {
            assert(pairs.deep_view().take(i + 1).drop_last() =~= pairs.deep_view().take(i as int));
            Self::set_env_value(&mut env, pairs[i].0.as_str(), pairs[i].1.clone(), platform);
            i = i + 1;
        }
        assert(pairs.deep_view().take(i as int) =~= pairs.deep_view());
        env
    }

    /// The arguments of the server binary: those of the settings, else `serve`.
    pub fn resolve_binary_args(settings: &LspSettings) -> (args: Vec<String>)
        ensures
            args.deep_view() == binary_args_view(settings),
    {
        match &settings.binary {
            Some(binary) => match &binary.arguments {
                Some(arguments) => {
                    return clone_strings(arguments.as_slice());
                },
                None => {},
            },
            None => {},
        }
        let mut args: Vec<String> = Vec::new();
        args.push(String::from_str("serve"));
        assert(args.deep_view() =~= seq!["serve"@]);
        args
    }
}

} // verus!
