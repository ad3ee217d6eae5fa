use vstd::prelude::*;
use vstd::string::*;
use vstd::utf8::{decode_utf8, valid_utf8};

use crate::launch::JETLS_REVISION;
use crate::text::{
    chars_equal, chars_of, has_prefix, is_whitespace, lemma_split_on_front, push_chars, split_chars,
    split_on,
    starts_with, string_of, trim, trimmed, whitespace,
};
use crate::JuliaExtension;

verus! {

/// What a command that ran reported.
pub struct CommandOutput {
    /// The exit status, if the command exited normally.
    pub status: Option<i32>,
    /// The bytes the command wrote to its standard output.
    pub stdout: Vec<u8>,
    /// The bytes the command wrote to its standard error.
    pub stderr: Vec<u8>,
}

/// The `major.minor` part of a Julia version: the first two `.`-separated
/// pieces of the trimmed version, joined again by `.`.
pub open spec fn minor_version(julia_version: Seq<char>) -> Seq<char> {
    let pieces = split_on(trim(julia_version), '.');
    if pieces.len() >= 2 {
        pieces[0] + seq!['.'] + pieces[1]
    } else {
        pieces[0]
    }
}

/// The minor version is the trimmed version up to its second `.`, or all of
/// it where it holds fewer than two: a prefix of the trimmed version with at
/// most one `.`, which, where it is not all of it, holds one `.` and is
/// followed there by the second.
pub proof fn law_minor_version_stops_at_the_second_dot(julia_version: Seq<char>)
    ensures
        ({
            let t = trim(julia_version);
            let m = minor_version(julia_version);
            &&& m.len() <= t.len()
            &&& t.take(m.len() as int) == m
            &&& forall|a: int, b: int| 0 <= a < b < m.len() && m[a] == '.' ==> m[b] != '.'
            &&& m.len() < t.len() ==> t[m.len() as int] == '.' && m.contains('.')
        }),
{
    let t = trim(julia_version);
    let pieces = split_on(t, '.');
    let m = minor_version(julia_version);
    lemma_split_on_front(t, '.');
    let p0 = pieces[0];
    if pieces.len() >= 2 {
        let p1 = pieces[1];
        let n0 = p0.len() as int;
        assert(m == p0 + seq!['.'] + p1);
        assert forall|i: int| 0 <= i < m.len() implies #[trigger] m[i] == t[i] by {
            if i < n0 {
                assert(t.take(n0)[i] == t[i]);
            } else if i > n0 {
                assert(t.subrange(n0 + 1, n0 + 1 + p1.len())[i - n0 - 1] == t[i]);
            }
        }
        assert(t.take(m.len() as int) =~= m);
        assert forall|i: int| 0 <= i < m.len() && i != n0 implies #[trigger] m[i] != '.' by {
            if i < n0 {
                assert(pieces[0][i] != '.');
            } else {
                assert(pieces[1][i - n0 - 1] != '.');
            }
        }
        assert(m[n0] == '.');
    } else {
        assert(m == p0);
        assert forall|i: int| 0 <= i < m.len() implies #[trigger] m[i] != '.' by {
            assert(pieces[0][i] != '.');
        }
    }
}

/// The start of the line with which JETLS reports its version.
pub open spec fn version_line_prefix() -> Seq<char> {
    "jetls version "@
}

/// For each line that, trimmed, starts with `jetls version `, what follows
/// that prefix, in order.
pub open spec fn version_line_rests(lines: Seq<Seq<char>>) -> Seq<Seq<char>>
    decreases lines.len(),
{
    if lines.len() == 0 {
        Seq::empty()
    } else {
        let before = version_line_rests(lines.drop_last());
        let line = trim(lines.last());
        if has_prefix(line, version_line_prefix()) {
            before.push(line.skip(version_line_prefix().len() as int))
        } else {
            before
        }
    }
}

/// Whether `c` ends the version in a `jetls version` line.
pub open spec fn is_token_end(c: char) -> bool {
    c == ',' || is_whitespace(c)
}

/// The characters of `s` before the first `,` or whitespace.
pub open spec fn first_token(s: Seq<char>) -> Seq<char>
    decreases s.len(),
{
    if s.len() == 0 {
        s
    } else if is_token_end(s[0]) {
        Seq::empty()
    } else {
        seq![s[0]] + first_token(s.drop_first())
    }
}

/// Whether the output of `jetls version` reports the pinned release: exactly
/// one line reads `jetls version <revision>`, possibly followed by `,` or
/// whitespace and more, and its revision is the pinned one. (`str::lines` also
/// drops a `\r` before each `\n` and a final empty line; neither changes a
/// trimmed line that starts with the prefix, so splitting at `\n` is the same.)
pub open spec fn is_pinned_version(version_output: Seq<char>) -> bool {
    let rests = version_line_rests(split_on(version_output, '\n'));
    rests.len() == 1 && first_token(rests[0]) == JETLS_REVISION@
}

/// Whether the managed installation must be (re)installed: unless its version
/// was checked and is the pinned one.
pub open spec fn needs_update(installed_version: Option<Result<Seq<char>, Seq<char>>>) -> bool {
    !(installed_version matches Some(Ok(version)) && is_pinned_version(version))
}

/// The view of an optional result of a version check.
pub open spec fn version_result_view(installed_version: Option<&Result<String, String>>) -> Option<
    Result<Seq<char>, Seq<char>>,
> {
    match installed_version {
        Some(Ok(version)) => Some(Ok(version@)),
        Some(Err(error)) => Some(Err(error@)),
        None => None,
    }
}

/// The message of an installation that reports another version.
pub open spec fn unexpected_version_message(installed_version: Seq<char>) -> Seq<char> {
    "Managed JETLS installation returned an unexpected version. Expected "@ + JETLS_REVISION@
        + ", got:\n"@ + installed_version
}

/// The text `String::from_utf8_lossy` gives for `bytes`.
pub uninterp spec fn utf8_lossy(bytes: Seq<u8>) -> Seq<char>;

/// The text of `bytes`, with each invalid UTF-8 sequence replaced by U+FFFD.
///
/// Calls `String::from_utf8_lossy`. The contract names the text, and states
/// what the function's documentation gives: valid UTF-8 is decoded as it is.
#[verifier::external_body]
fn lossy_text(bytes: &[u8]) -> (text: String)
    ensures
        text@ == utf8_lossy(bytes@),
        valid_utf8(bytes@) ==> text@ == decode_utf8(bytes@),
{
    String::from_utf8_lossy(bytes).into_owned()
}

/// The decimal digit for a value below 10.
pub open spec fn decimal_digit(d: nat) -> char {
    (('0' as nat) + d) as char
}

/// The decimal digits of `n` without leading zeros.
pub open spec fn decimal_text(n: nat) -> Seq<char>
    decreases n,
{
    if n < 10 {
        seq![decimal_digit(n)]
    } else {
        decimal_text(n / 10).push(decimal_digit(n % 10))
    }
}

/// An integer as `Display` writes it.
pub open spec fn int_text(n: int) -> Seq<char> {
    if n < 0 {
        seq!['-'] + decimal_text((-n) as nat)
    } else {
        decimal_text(n as nat)
    }
}

/// An exit status as `Debug` writes it: `Some(1)` or `None`.
pub open spec fn status_text(status: Option<i32>) -> Seq<char> {
    match status {
        Some(code) => "Some("@ + int_text(code as int) + ")"@,
        None => "None"@,
    }
}

/// The message of a command that did not exit with status 0.
pub open spec fn failed_command_message(
    description: Seq<char>,
    status: Option<i32>,
    stdout: Seq<char>,
    stderr: Seq<char>,
) -> Seq<char> {
    description + " exited with status "@ + status_text(status) + "\nstdout:\n"@ + stdout
        + "\nstderr:\n"@ + stderr
}

fn push_decimal(out: &mut Vec<char>, n: u64)
    ensures
        final(out)@ == old(out)@ + decimal_text(n as nat),
    decreases n,
{
    if n >= 10 {
        push_decimal(out, n / 10);
    }
    let d = (n % 10) as u8;
    out.push((48u8 + d) as char);
    assert(final(out)@ =~= old(out)@ + decimal_text(n as nat));
}

/// An exit status as `Debug` writes it.
fn status_string(status: Option<i32>) -> (text: String)
    ensures
        text@ == status_text(status),
{
    match status {
        Some(code) => {
            let mut chars: Vec<char> = Vec::new();
            if code < 0 {
                chars.push('-');
                let magnitude = (0i64 - code as i64) as u64;
                push_decimal(&mut chars, magnitude);
            } else {
                push_decimal(&mut chars, code as u64);
            }
            assert(chars@ =~= int_text(code as int));
            let mut text = String::from_str("Some(");
            let digits = string_of(chars.as_slice());
            text.append(digits.as_str());
            text.append(")");
            text
        },
        None => String::from_str("None"),
    }
}

/// The characters of `s` before the first `,` or whitespace.
fn token_of(s: &[char]) -> (token: Vec<char>)
    ensures
        token@ == first_token(s@),
{
    let n = s.len();
    let mut i: usize = 0;
    assert(s@.subrange(0, n as int) =~= s@);
    while i < n && !(s[i] == ',' || whitespace(s[i]))
        invariant
            n == s@.len(),
            i <= n,
            first_token(s@) == s@.take(i as int) + first_token(s@.subrange(i as int, n as int)),
        decreases n - i,
    {
        let ghost rest = s@.subrange(i as int, n as int);
        assert(rest.drop_first() =~= s@.subrange(i + 1, n as int));
        assert(s@.take(i + 1) =~= s@.take(i as int) + seq![s@[i as int]]);
        assert(s@.take(i + 1) + first_token(s@.subrange(i + 1, n as int)) =~= s@.take(i as int)
            + first_token(rest));
        i = i + 1;
    }
    let mut token: Vec<char> = Vec::new();
    let mut j: usize = 0;
    while j < i
        invariant
            j <= i <= n,
            n == s@.len(),
            token@ == s@.take(j as int),
        decreases i - j,
    {
        token.push(s[j]);
        j = j + 1;
        assert(token@ =~= s@.take(j as int));
    }
    assert(first_token(s@.subrange(i as int, n as int)) =~= Seq::<char>::empty());
    assert(s@.take(i as int) + Seq::<char>::empty() =~= s@.take(i as int));
    token
}

impl JuliaExtension {
    /// The `major.minor` part of a Julia version, which keys the managed
    /// depot: patch releases share a depot.
    pub fn julia_minor_version(julia_version: &str) -> (minor: String)
        ensures
            minor@ == minor_version(julia_version@),
            minor@.len() <= trim(julia_version@).len(),
            trim(julia_version@).take(minor@.len() as int) == minor@,
            forall|a: int, b: int|
                0 <= a < b < minor@.len() && minor@[a] == '.' ==> minor@[b] != '.',
            minor@.len() < trim(julia_version@).len() ==> trim(julia_version@)[minor@.len() as int]
                == '.' && minor@.contains('.'),
    {
        proof {
            law_minor_version_stops_at_the_second_dot(julia_version@);
        }
        let chars = chars_of(julia_version);
        let trimmed_version = trimmed(chars.as_slice());
        let pieces = split_chars(trimmed_version.as_slice(), '.');
        let mut minor: Vec<char> = Vec::new();
        push_chars(&mut minor, pieces[0].as_slice());
        if pieces.len() >= 2 {
            minor.push('.');
            push_chars(&mut minor, pieces[1].as_slice());
        }
        assert(minor@ =~= minor_version(julia_version@));
        string_of(minor.as_slice())
    }

    /// Whether the output of `jetls version` reports the pinned JETLS release.
    pub fn is_pinned_jetls_version(version_output: &str) -> (pinned: bool)
        ensures
            pinned == is_pinned_version(version_output@),
    {
        let chars = chars_of(version_output);
        let lines = split_chars(chars.as_slice(), '\n');
        let ghost line_views = split_on(version_output@, '\n');
        let prefix = chars_of("jetls version ");
        let revision = chars_of(JETLS_REVISION);
        let mut count: usize = 0;
        let mut first_matches = false;
        let mut i: usize = 0;
        while i < lines.len()
            invariant
                i <= lines@.len(),
                lines@.len() == line_views.len(),
                forall|j: int| 0 <= j < lines@.len() ==> #[trigger] lines@[j]@ == line_views[j],
                line_views == split_on(version_output@, '\n'),
                prefix@ == version_line_prefix(),
                revision@ == JETLS_REVISION@,
                count == version_line_rests(line_views.take(i as int)).len(),
                count <= i,
                count >= 1 ==> (first_matches <==> first_token(
                    version_line_rests(line_views.take(i as int))[0],
                ) == JETLS_REVISION@),
            decreases lines@.len() - i,
        {
            let ghost before = version_line_rests(line_views.take(i as int));
            assert(line_views.take(i + 1).drop_last() =~= line_views.take(i as int));
            let line = trimmed(lines[i].as_slice());
            if starts_with(line.as_slice(), prefix.as_slice()) {
                if count == 0 {
                    let mut rest: Vec<char> = Vec::new();
                    let mut k: usize = prefix.len();
                    while k < line.len()
                        invariant
                            prefix@.len() <= k <= line@.len(),
                            rest@ == line@.subrange(prefix@.len() as int, k as int),
                        decreases line@.len() - k,
                    {
                        rest.push(line[k]);
                        k = k + 1;
                        assert(rest@ =~= line@.subrange(prefix@.len() as int, k as int));
                    }
                    assert(rest@ =~= line@.skip(prefix@.len() as int));
                    let token = token_of(rest.as_slice());
                    first_matches = chars_equal(token.as_slice(), revision.as_slice());
                }
                count = count + 1;
            }
            i = i + 1;
        }
        assert(line_views.take(i as int) =~= line_views);
        count == 1 && first_matches
    }

    /// Whether the managed installation must be (re)installed: unless a
    /// version check ran and reported the pinned release.
    pub fn managed_installation_needs_update(installed_version: Option<&Result<String, String>>) -> (update: bool)
        ensures
            update == needs_update(version_result_view(installed_version)),
    {
        match installed_version {
            Some(Ok(version)) => !Self::is_pinned_jetls_version(version.as_str()),
            _ => true,
        }
    }

    /// Accepts a fresh installation only if it reports the pinned release.
    pub fn check_installed_version(installed_version: &str) -> (checked: Result<(), String>)
        ensures
            checked is Ok <==> is_pinned_version(installed_version@),
            checked matches Err(e) ==> e@ == unexpected_version_message(installed_version@),
    {
        if Self::is_pinned_jetls_version(installed_version) {
            Ok(())
        } else {
            let mut message = String::from_str(
                "Managed JETLS installation returned an unexpected version. Expected ",
            );
            message.append(JETLS_REVISION);
            message.append(", got:\n");
            message.append(installed_version);
            Err(message)
        }
    }

    /// The standard output of a command that exited with status 0, else a
    /// message with its status and both outputs.
    pub fn successful_output(output: CommandOutput, description: &str) -> (text: Result<
        String,
        String,
    >)
        ensures
            text is Ok <==> output.status == Some(0i32),
            text matches Ok(stdout) ==> stdout@ == utf8_lossy(output.stdout@),
            text matches Err(message) ==> message@ == failed_command_message(
                description@,
                output.status,
                utf8_lossy(output.stdout@),
                utf8_lossy(output.stderr@),
            ),
    {
        let stdout = lossy_text(output.stdout.as_slice());
        let stderr = lossy_text(output.stderr.as_slice());
        match output.status {
            Some(0) => Ok(stdout),
            _ => {
                let mut message = String::from_str(description);
                message.append(" exited with status ");
                let status = status_string(output.status);
                message.append(status.as_str());
                message.append("\nstdout:\n");
                message.append(stdout.as_str());
                message.append("\nstderr:\n");
                message.append(stderr.as_str());
                Err(message)
            },
        }
    }

    /// The Julia runtime that keys a managed container: the Julia binary and
    /// its `major.minor` version, on two lines.
    pub fn julia_runtime(julia_bin: &str, julia_version: &str) -> (runtime: String)
        ensures
            runtime@ == julia_bin@ + "\n"@ + minor_version(julia_version@),
    {
        let mut runtime = String::from_str(julia_bin);
        runtime.append("\n");
        let minor = Self::julia_minor_version(julia_version);
        runtime.append(minor.as_str());
        runtime
    }
}

} // verus!
