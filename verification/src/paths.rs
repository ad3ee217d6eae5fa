use vstd::prelude::*;
use vstd::string::*;
use vstd::utf8::{is_ascii_chars, is_ascii_chars_encode_utf8};

use crate::env::{
    key_matches, law_lookup_after_set, law_set_keeps_other_variables, lookup, separator, with_value,
    EnvView,
};
use crate::text::{
    hex_text_fixed, is_lower_hex_digit, lemma_hex_text_fixed_digits, push_hex_fixed, string_of,
};
use crate::{JuliaExtension, Os};

verus! {

/// The directory, in the extension's working directory, that holds one
/// container per Julia runtime.
pub const MANAGED_DEPOTS_DIR: &'static str = "jetls-depots";

/// The file of a container that names its published generation.
pub const CURRENT_POINTER_FILE: &'static str = "current";

/// The file that marks a generation as completely installed.
pub const INSTALL_STAMP_FILE: &'static str = "install-stamp.json";

/// The file whose age records the last start that used a directory.
pub const LAST_USED_FILE: &'static str = "last-used";

/// The FNV-1a offset basis for 64-bit hashes.
pub const FNV_OFFSET_BASIS: u64 = 0xcbf29ce484222325;

/// The FNV-1a prime for 64-bit hashes.
pub const FNV_PRIME: u64 = 0x100000001b3;

/// `name` appended to `base` as `Path::join` does with `/` separators (the
/// extension runs on a WASI host, whose paths are Unix-like): an absolute
/// `name` replaces `base`, and a separator is added unless `base` is empty or
/// already ends with one.
pub open spec fn path_join(base: Seq<char>, name: Seq<char>) -> Seq<char> {
    if name.len() > 0 && name[0] == '/' {
        name
    } else if base.len() == 0 || base.last() == '/' {
        base + name
    } else {
        base + seq!['/'] + name
    }
}

/// The 64-bit FNV-1a hash of `bytes`.
pub open spec fn fnv1a(bytes: Seq<u8>) -> u64
    decreases bytes.len(),
{
    if bytes.len() == 0 {
        FNV_OFFSET_BASIS
    } else {
        (fnv1a(bytes.drop_last()) ^ (bytes.last() as u64)).wrapping_mul(FNV_PRIME)
    }
}

/// The cache key of a Julia runtime: its FNV-1a hash as 16 lowercase
/// hexadecimal digits.
pub open spec fn cache_key(julia_runtime: Seq<char>) -> Seq<char> {
    hex_text_fixed(fnv1a(vstd::utf8::encode_utf8(julia_runtime)) as nat, 16)
}

/// The container of a Julia runtime in the working directory `current_dir`.
pub open spec fn managed_container(current_dir: Seq<char>, julia_runtime: Seq<char>) -> Seq<char> {
    path_join(path_join(current_dir, MANAGED_DEPOTS_DIR@), cache_key(julia_runtime))
}

/// The app environment of the managed JETLS installation in a depot.
pub open spec fn managed_environment_path(depot_path: Seq<char>) -> Seq<char> {
    path_join(path_join(path_join(depot_path, "environments"@), "apps"@), "JETLS"@)
}

/// The name of the variable holding the user's home directory.
pub open spec fn home_key(platform: Os) -> Seq<char> {
    if platform == Os::Windows {
        "USERPROFILE"@
    } else {
        "HOME"@
    }
}

/// The depot chain of the server: the managed depot first, then the user's
/// own chain if one is set, else the user's default depot and the bundled
/// system depots (the trailing empty entry), else only the bundled ones.
pub open spec fn depot_chain(env: EnvView, depot_path: Seq<char>, platform: Os) -> Seq<char> {
    let sep = seq![separator(platform)];
    let user_chain = lookup(env, "JULIA_DEPOT_PATH"@, platform);
    let home = lookup(env, home_key(platform), platform);
    if user_chain is Some && user_chain->0.len() > 0 {
        depot_path + sep + user_chain->0
    } else if home is Some && home->0.len() > 0 {
        depot_path + sep + home->0 + "/.julia"@ + sep
    } else {
        depot_path + sep
    }
}

/// The environment the server is launched with.
pub open spec fn launch_env(env: EnvView, depot_path: Seq<char>, platform: Os) -> EnvView {
    with_value(
        with_value(env, "JULIA_DEPOT_PATH"@, depot_chain(env, depot_path, platform), platform),
        "JULIA_LOAD_PATH"@,
        managed_environment_path(depot_path),
        platform,
    )
}


/// The server's launch environment holds the managed depot chain as
/// `JULIA_DEPOT_PATH` and the managed app environment as `JULIA_LOAD_PATH`.
pub proof fn law_launch_env_pins_depot_chain_and_load_path(
    env: EnvView,
    depot_path: Seq<char>,
    platform: Os,
)
    ensures
        lookup(launch_env(env, depot_path, platform), "JULIA_DEPOT_PATH"@, platform) == Some(
            depot_chain(env, depot_path, platform),
        ),
        lookup(launch_env(env, depot_path, platform), "JULIA_LOAD_PATH"@, platform) == Some(
            managed_environment_path(depot_path),
        ),
{
    reveal_strlit("JULIA_DEPOT_PATH");
    reveal_strlit("JULIA_LOAD_PATH");
    let depot_name = "JULIA_DEPOT_PATH"@;
    let load_name = "JULIA_LOAD_PATH"@;
    assert(is_ascii_chars(depot_name));
    assert(is_ascii_chars(load_name));
    is_ascii_chars_encode_utf8(depot_name);
    is_ascii_chars_encode_utf8(load_name);
    assert(!key_matches(depot_name, load_name, platform));
    let first = with_value(env, depot_name, depot_chain(env, depot_path, platform), platform);
    law_lookup_after_set(env, depot_name, depot_chain(env, depot_path, platform), platform);
    law_set_keeps_other_variables(
        first,
        load_name,
        managed_environment_path(depot_path),
        depot_name,
        platform,
    );
    law_lookup_after_set(first, load_name, managed_environment_path(depot_path), platform);
}

/// The user's own depot chain always follows the managed depot: whenever
/// `JULIA_DEPOT_PATH` holds a non-empty chain, the server's chain is the
/// managed depot, the list separator (`;` on Windows, `:` elsewhere) and that
/// chain, whatever the home directory is. Only without such a chain does the
/// user's default depot (`.julia` in `USERPROFILE` on Windows, in `HOME`
/// elsewhere) follow, with the trailing separator that keeps the bundled
/// depots; with neither, only that trailing separator does.
pub proof fn law_user_depot_chain_follows_the_managed_depot(
    env: EnvView,
    depot_path: Seq<char>,
    platform: Os,
)
    ensures
        ({
            let sep = if platform == Os::Windows {
                seq![';']
            } else {
                seq![':']
            };
            let home_name = if platform == Os::Windows {
                "USERPROFILE"@
            } else {
                "HOME"@
            };
            let user_chain = lookup(env, "JULIA_DEPOT_PATH"@, platform);
            let home = lookup(env, home_name, platform);
            let chain = depot_chain(env, depot_path, platform);
            &&& (user_chain matches Some(c) && c.len() > 0) ==> chain == depot_path + sep + user_chain->0
            &&& !(user_chain matches Some(c) && c.len() > 0) && (home matches Some(h) && h.len() > 0)
                ==> chain == depot_path + sep + home->0 + "/.julia"@ + sep
            &&& !(user_chain matches Some(c) && c.len() > 0) && !(home matches Some(h) && h.len() > 0)
                ==> chain == depot_path + sep
        }),
{
}

/// Every write of the server goes to the managed depot: it comes first in
/// the server's depot chain, whatever the environment holds.
pub proof fn law_managed_depot_comes_first(env: EnvView, depot_path: Seq<char>, platform: Os)
    ensures
        ({
            let head = depot_path + seq![separator(platform)];
            depot_chain(env, depot_path, platform).len() >= head.len()
                && depot_chain(env, depot_path, platform).take(head.len() as int) == head
        }),
{
    let head = depot_path + seq![separator(platform)];
    let chain = depot_chain(env, depot_path, platform);
    assert(chain.take(head.len() as int) =~= head);
}

impl JuliaExtension {
    /// `name` appended to the path `base`.
    pub fn join_path(base: &str, name: &str) -> (path: String)
        ensures
            path@ == path_join(base@, name@),
    {
        if !name.is_empty() && name.get_char(0) == '/' {
            return String::from_str(name);
        }
        let mut path = String::from_str(base);
        let n = base.unicode_len();
        if n > 0 && base.get_char(n - 1) != '/' {
            path.push('/');
        }
        path.append(name);
        path
    }

    /// The file of a container that names its published generation.
    pub fn current_pointer_path(container_path: &str) -> (path: String)
        ensures
            path@ == path_join(container_path@, CURRENT_POINTER_FILE@),
    {
        Self::join_path(container_path, CURRENT_POINTER_FILE)
    }

    /// The file that marks a generation as completely installed.
    pub fn install_stamp_path(generation_path: &str) -> (path: String)
        ensures
            path@ == path_join(generation_path@, INSTALL_STAMP_FILE@),
    {
        Self::join_path(generation_path, INSTALL_STAMP_FILE)
    }

    /// The file whose age records the last start that used `base_path`.
    pub fn last_used_path(base_path: &str) -> (path: String)
        ensures
            path@ == path_join(base_path@, LAST_USED_FILE@),
    {
        Self::join_path(base_path, LAST_USED_FILE)
    }

    /// A cache key for a Julia runtime that stays the same across builds of
    /// the extension: the 64-bit FNV-1a hash of its UTF-8 bytes, written as 16
    /// lowercase hexadecimal digits.
    pub fn runtime_cache_key(julia_runtime: &str) -> (key: String)
        ensures
            key@ == cache_key(julia_runtime@),
            key@.len() == 16,
            forall|i: int| 0 <= i < key@.len() ==> is_lower_hex_digit(#[trigger] key@[i]),
    {
        let bytes = julia_runtime.as_bytes();
        let mut hash: u64 = FNV_OFFSET_BASIS;
        let mut i: usize = 0;
        while i < bytes.len()
            invariant
                i <= bytes@.len(),
                bytes@ == julia_runtime.spec_bytes(),
                hash == fnv1a(bytes@.take(i as int)),
            decreases bytes@.len() - i,
        {
            assert(bytes@.take(i + 1).drop_last() =~= bytes@.take(i as int));
            hash = (hash ^ (bytes[i] as u64)).wrapping_mul(FNV_PRIME);
            i = i + 1;
        }
        assert(bytes@.take(i as int) =~= bytes@);
        let mut digits: Vec<char> = Vec::new();
        push_hex_fixed(&mut digits, hash, 16);
        assert(digits@ =~= hex_text_fixed(hash as nat, 16));
        proof {
            lemma_hex_text_fixed_digits(hash as nat, 16);
        }
        string_of(digits.as_slice())
    }

    /// The container of a Julia runtime, in the managed depots directory of the
    /// extension's working directory `current_dir`.
    pub fn managed_container_path(current_dir: &str, julia_runtime: &str) -> (path: String)
        ensures
            path@ == managed_container(current_dir@, julia_runtime@),
    {
        let depots = Self::join_path(current_dir, MANAGED_DEPOTS_DIR);
        let key = Self::runtime_cache_key(julia_runtime);
        Self::join_path(depots.as_str(), key.as_str())
    }

    /// The depot chain of the maintenance commands (install, gc): the managed
    /// depot, then the bundled system depots.
    pub fn maintenance_depot_chain(depot_path: &str, platform: Os) -> (chain: String)
        ensures
            chain@ == depot_path@ + seq![separator(platform)],
    {
        let mut chain = String::from_str(depot_path);
        chain.push(Self::path_list_separator(platform));
        chain
    }

    /// The app environment of the managed JETLS installation in a depot.
    pub fn managed_environment(depot_path: &str) -> (path: String)
        ensures
            path@ == managed_environment_path(depot_path@),
    {
        let environments = Self::join_path(depot_path, "environments");
        let apps = Self::join_path(environments.as_str(), "apps");
        Self::join_path(apps.as_str(), "JETLS")
    }

    /// The depot chain the server is launched with.
    pub fn server_depot_chain(env: &[(String, String)], depot_path: &str, platform: Os) -> (chain:
        String)
        ensures
            chain@ == depot_chain(env.deep_view(), depot_path@, platform),
    {
        let separator = Self::path_list_separator(platform);
        let mut chain = String::from_str(depot_path);
        chain.push(separator);
        match Self::env_value(env, "JULIA_DEPOT_PATH", platform) {
            Some(user_chain) => {
                if !user_chain.is_empty() {
                    chain.append(user_chain);
                    return chain;
                }
            },
            None => {},
        }
        let home_key = match platform {
            Os::Windows => "USERPROFILE",
            _ => "HOME",
        };
        match Self::env_value(env, home_key, platform) {
            Some(home) => {
                if !home.is_empty() {
                    chain.append(home);
                    chain.append("/.julia");
                    chain.push(separator);
                }
            },
            None => {},
        }
        chain
    }

    /// The environment the server is launched with: the managed depot chain
    /// and the managed app environment as the load path.
    pub fn server_launch_env(env: Vec<(String, String)>, depot_path: &str, platform: Os) -> (launch:
        Vec<(String, String)>)
        ensures
            launch.deep_view() == launch_env(env.deep_view(), depot_path@, platform),
    {
        let mut env = env;
        let depot_chain = Self::server_depot_chain(env.as_slice(), depot_path, platform);
        Self::set_env_value(&mut env, "JULIA_DEPOT_PATH", depot_chain, platform);
        let load_path = Self::managed_environment(depot_path);
        Self::set_env_value(&mut env, "JULIA_LOAD_PATH", load_path, platform);
        env
    }
}

} // verus!
