use vstd::prelude::*;
use vstd::string::*;
use vstd::utf8::*;

use crate::text::{opt_str_view, str_equal};
use crate::{JuliaExtension, Os};

verus! {

/// An environment as a sequence of (name, value) pairs; later pairs win.
pub type EnvView = Seq<(Seq<char>, Seq<char>)>;

/// The byte that `u8::to_ascii_lowercase` gives.
pub open spec fn ascii_lower(b: u8) -> u8 {
    if 65 <= b <= 90 {
        (b + 32) as u8
    } else {
        b
    }
}

/// Whether two byte strings are equal up to ASCII case.
pub open spec fn bytes_eq_ignore_ascii_case(a: Seq<u8>, b: Seq<u8>) -> bool {
    a.len() == b.len() && forall|i: int| 0 <= i < a.len() ==> ascii_lower(a[i]) == ascii_lower(b[i])
}

/// Whether the environment variable `key` is the variable `name`: Windows
/// variable names are ASCII case-insensitive, elsewhere they match exactly.
pub open spec fn key_matches(key: Seq<char>, name: Seq<char>, platform: Os) -> bool {
    if platform == Os::Windows {
        bytes_eq_ignore_ascii_case(encode_utf8(key), encode_utf8(name))
    } else {
        key == name
    }
}

/// The value of the last variable of `env` that is `name`.
pub open spec fn lookup(env: EnvView, name: Seq<char>, platform: Os) -> Option<Seq<char>>
    decreases env.len(),
{
    if env.len() == 0 {
        None
    } else if key_matches(env.last().0, name, platform) {
        Some(env.last().1)
    } else {
        lookup(env.drop_last(), name, platform)
    }
}

/// `env` without the variables that are `name`, in their order.
pub open spec fn without(env: EnvView, name: Seq<char>, platform: Os) -> EnvView
    decreases env.len(),
{
    if env.len() == 0 {
        env
    } else {
        let rest = without(env.drop_last(), name, platform);
        if key_matches(env.last().0, name, platform) {
            rest
        } else {
            rest.push(env.last())
        }
    }
}

/// `env` with every variable that is `name` replaced by one `(name, value)`
/// pair at the end.
pub open spec fn with_value(env: EnvView, name: Seq<char>, value: Seq<char>, platform: Os) -> EnvView {
    without(env, name, platform).push((name, value))
}

/// The separator of path lists (`PATH`, `JULIA_DEPOT_PATH`) on `platform`.
pub open spec fn separator(platform: Os) -> char {
    if platform == Os::Windows {
        ';'
    } else {
        ':'
    }
}

/// The value of `PATH` once `directory` is put in front of it.
pub open spec fn prepended_path(env: EnvView, directory: Seq<char>, platform: Os) -> Seq<char> {
    let existing = lookup(env, "PATH"@, platform);
    if existing is Some && existing->0.len() > 0 {
        directory + seq![separator(platform)] + existing->0
    } else {
        directory
    }
}

/// `env` with `directory` put in front of its `PATH`.
pub open spec fn with_prepended_path(env: EnvView, directory: Seq<char>, platform: Os) -> EnvView {
    with_value(env, "PATH"@, prepended_path(env, directory, platform), platform)
}

/// `env` after every pair of `pairs` has been set in turn.
pub open spec fn with_values(env: EnvView, pairs: EnvView, platform: Os) -> EnvView
    decreases pairs.len(),
{
    if pairs.len() == 0 {
        env
    } else {
        let before = with_values(env, pairs.drop_last(), platform);
        with_value(before, pairs.last().0, pairs.last().1, platform)
    }
}

/// Whether two byte strings are equal up to ASCII case.
fn bytes_equal_ignoring_ascii_case(a: &[u8], b: &[u8]) -> (equal: bool)
    ensures
        equal == bytes_eq_ignore_ascii_case(a@, b@),
{
    if a.len() != b.len() {
        return false;
    }
    let mut i: usize = 0;
    while i < a.len()
        invariant
            a@.len() == b@.len(),
            i <= a@.len(),
            forall|j: int| 0 <= j < i ==> ascii_lower(a@[j]) == ascii_lower(b@[j]),
        decreases a@.len() - i,
    {
        let x = if 65 <= a[i] && a[i] <= 90 {
            a[i] + 32
        } else {
            a[i]
        };
        let y = if 65 <= b[i] && b[i] <= 90 {
            b[i] + 32
        } else {
            b[i]
        };
        if x != y {
            return false;
        }
        i = i + 1;
    }
    true
}

/// Matching variable names is symmetric and transitive.
pub proof fn lemma_key_matches_equivalence(a: Seq<char>, b: Seq<char>, c: Seq<char>, platform: Os)
    ensures
        key_matches(a, b, platform) ==> key_matches(b, a, platform),
        key_matches(a, b, platform) && key_matches(b, c, platform) ==> key_matches(a, c, platform),
{
    if platform == Os::Windows {
        let (ea, eb, ec) = (encode_utf8(a), encode_utf8(b), encode_utf8(c));
        if bytes_eq_ignore_ascii_case(ea, eb) && bytes_eq_ignore_ascii_case(eb, ec) {
            assert forall|i: int| 0 <= i < ea.len() implies ascii_lower(ea[i]) == ascii_lower(
                ec[i],
            ) by {
                assert(ascii_lower(ea[i]) == ascii_lower(eb[i]));
                assert(ascii_lower(eb[i]) == ascii_lower(ec[i]));
            }
        }
    }
}

/// No variable left by `without` is `name`.
pub proof fn lemma_without_has_no_match(env: EnvView, name: Seq<char>, platform: Os)
    ensures
        forall|i: int|
            0 <= i < without(env, name, platform).len() ==> !key_matches(
                #[trigger] without(env, name, platform)[i].0,
                name,
                platform,
            ),
        without(env, name, platform).len() <= env.len(),
    decreases env.len(),
{
    if env.len() > 0 {
        lemma_without_has_no_match(env.drop_last(), name, platform);
    }
}

/// Removing `name` twice removes no more than removing it once.
pub proof fn lemma_without_idempotent(env: EnvView, name: Seq<char>, platform: Os)
    ensures
        without(without(env, name, platform), name, platform) == without(env, name, platform),
    decreases env.len(),
{
    if env.len() > 0 {
        lemma_without_idempotent(env.drop_last(), name, platform);
        let rest = without(env.drop_last(), name, platform);
        if !key_matches(env.last().0, name, platform) {
            assert(rest.push(env.last()).drop_last() =~= rest);
        }
    }
}

/// Removing `name` leaves the value of a variable that is not `name` unchanged.
pub proof fn lemma_without_keeps_others(env: EnvView, name: Seq<char>, other: Seq<char>, platform: Os)
    requires
        !key_matches(other, name, platform),
    ensures
        lookup(without(env, name, platform), other, platform) == lookup(env, other, platform),
    decreases env.len(),
{
    if env.len() > 0 {
        lemma_without_keeps_others(env.drop_last(), name, other, platform);
        let rest = without(env.drop_last(), name, platform);
        let last = env.last();
        if key_matches(last.0, name, platform) {
            lemma_key_matches_equivalence(last.0, other, name, platform);
            lemma_key_matches_equivalence(other, last.0, name, platform);
        } else {
            assert(rest.push(last).drop_last() =~= rest);
        }
    }
}

/// After a variable is set, looking it up gives the value that was set.
pub proof fn law_lookup_after_set(env: EnvView, name: Seq<char>, value: Seq<char>, platform: Os)
    ensures
        lookup(with_value(env, name, value, platform), name, platform) == Some(value),
{
}

/// Setting a variable never leaves a second variable of that name behind,
/// however its name is cased on Windows: only the last pair is `name`.
pub proof fn law_set_leaves_one_entry(env: EnvView, name: Seq<char>, value: Seq<char>, platform: Os)
    ensures
        ({
            let after = with_value(env, name, value, platform);
            &&& after.last() == (name, value)
            &&& forall|i: int|
                0 <= i < after.len() - 1 ==> !key_matches(#[trigger] after[i].0, name, platform)
        }),
{
    lemma_without_has_no_match(env, name, platform);
    let after = with_value(env, name, value, platform);
    assert forall|i: int| 0 <= i < after.len() - 1 implies !key_matches(
        #[trigger] after[i].0,
        name,
        platform,
    ) by {
        assert(after[i] == without(env, name, platform)[i]);
    }
}

/// Setting a variable leaves the value of every variable that is not it unchanged.
pub proof fn law_set_keeps_other_variables(
    env: EnvView,
    name: Seq<char>,
    value: Seq<char>,
    other: Seq<char>,
    platform: Os,
)
    requires
        !key_matches(other, name, platform),
    ensures
        lookup(with_value(env, name, value, platform), other, platform) == lookup(
            env,
            other,
            platform,
        ),
{
    lemma_without_keeps_others(env, name, other, platform);
    lemma_key_matches_equivalence(other, name, other, platform);
    let rest = without(env, name, platform);
    assert(rest.push((name, value)).drop_last() =~= rest);
}

/// Setting a variable twice is setting it once to the second value.
pub proof fn law_set_twice(
    env: EnvView,
    name: Seq<char>,
    first: Seq<char>,
    second: Seq<char>,
    platform: Os,
)
    ensures
        with_value(with_value(env, name, first, platform), name, second, platform) == with_value(
            env,
            name,
            second,
            platform,
        ),
{
    let rest = without(env, name, platform);
    assert(rest.push((name, first)).drop_last() =~= rest);
    lemma_without_idempotent(env, name, platform);
}

impl JuliaExtension {
    /// Whether the variable `key` is the variable `name` on `platform`.
    pub fn env_key_matches(key: &str, name: &str, platform: Os) -> (matches: bool)
        ensures
            matches == key_matches(key@, name@, platform),
    {
        match platform {
            Os::Windows => bytes_equal_ignoring_ascii_case(key.as_bytes(), name.as_bytes()),
            _ => str_equal(key, name),
        }
    }

    /// The value of the last variable of `env` that is `name`.
    pub fn env_value<'a>(env: &'a [(String, String)], name: &str, platform: Os) -> (value: Option<
        &'a str,
    >)
        ensures
            opt_str_view(value) == lookup(env.deep_view(), name@, platform),
    {
        let ghost full = env.deep_view();
        let mut i: usize = env.len();
        assert(full.take(i as int) =~= full);
        while i > 0
            invariant
                i <= env@.len(),
                full == env.deep_view(),
                lookup(full, name@, platform) == lookup(full.take(i as int), name@, platform),
            decreases i,
        {
            let ghost before = full.take(i as int);
            assert(before.drop_last() =~= full.take(i - 1));
            i = i - 1;
            let entry = &env[i];
            assert(before.last() == (entry.0@, entry.1@));
            if Self::env_key_matches(entry.0.as_str(), name, platform) {
                return Some(entry.1.as_str());
            }
        }
        None
    }

    /// Replaces every variable of `env` that is `name` by one `(name, value)`
    /// pair at the end.
    pub fn set_env_value(env: &mut Vec<(String, String)>, name: &str, value: String, platform: Os)
        ensures
            final(env).deep_view() == with_value(old(env).deep_view(), name@, value@, platform),
    {
        let ghost full = old(env).deep_view();
        let mut kept: Vec<(String, String)> = Vec::new();
        let mut i: usize = 0;
        assert(kept.deep_view() =~= without(full.take(0), name@, platform));
        while i < env.len()
            invariant
                i <= env@.len(),
                full == env.deep_view(),
                kept.deep_view() == without(full.take(i as int), name@, platform),
            decreases env@.len() - i,
        {
            let ghost next = full.take(i + 1);
            assert(next.drop_last() =~= full.take(i as int));
            assert(next.last() == (env@[i as int].0@, env@[i as int].1@));
            if !Self::env_key_matches(env[i].0.as_str(), name, platform) {
                let ghost before = kept.deep_view();
                kept.push((env[i].0.clone(), env[i].1.clone()));
                assert(kept.deep_view() =~= before.push(next.last()));
            }
            i = i + 1;
        }
        assert(full.take(i as int) =~= full);
        let ghost before = kept.deep_view();
        kept.push((String::from_str(name), value));
        assert(kept.deep_view() =~= before.push((name@, value@)));
        *env = kept;
    }

    /// The separator of path lists on `platform`.
    pub fn path_list_separator(platform: Os) -> (sep: char)
        ensures
            sep == separator(platform),
    {
        match platform {
            Os::Windows => ';',
            _ => ':',
        }
    }

    /// Puts `directory` in front of the `PATH` of `env`.
    pub fn prepend_path_directory(env: &mut Vec<(String, String)>, directory: &str, platform: Os)
        ensures
            final(env).deep_view() == with_prepended_path(old(env).deep_view(), directory@, platform),
    {
        let ghost full = env.deep_view();
        let mut path = String::from_str(directory);
        match Self::env_value(env.as_slice(), "PATH", platform) {
            Some(existing) => {
                if !existing.is_empty() {
                    path.push(Self::path_list_separator(platform));
                    path.append(existing);
                }
            },
            None => {},
        }
        assert(path@ == prepended_path(full, directory@, platform));
        Self::set_env_value(env, "PATH", path, platform);
    }
}

} // verus!
