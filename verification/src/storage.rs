use std::time::{Duration, SystemTime, SystemTimeError, UNIX_EPOCH};

use vstd::prelude::*;
use vstd::string::*;

use zed_extension_api::serde_json;

use crate::launch::JETLS_REVISION;
use crate::paths::{path_join, CURRENT_POINTER_FILE, LAST_USED_FILE, MANAGED_DEPOTS_DIR};
use crate::text::{
    chars_equal, chars_of, contains_char, opt_str_view, opt_string_view, hex_digit, hex_text, is_lower_hex_digit, lemma_hex_text_digits,
    push_chars, push_hex, split_chars, split_on, string_of,
};
use crate::JuliaExtension;

verus! {

/// An unpublished generation may still be being installed (even by a process
/// that outlived its window), so it is removed only a day after its last use.
pub const UNPUBLISHED_GENERATION_GRACE_NANOS: u128 = 86_400_000_000_000;

/// A published generation may still run a server in another window, so it is
/// removed only once no start has used it for a week.
pub const GENERATION_RETENTION_NANOS: u128 = 604_800_000_000_000;

/// A whole runtime container is removed once unused for 30 days: reclaiming
/// one the user switches back to costs a full reinstall.
pub const RUNTIME_RETENTION_NANOS: u128 = 2_592_000_000_000_000;

/// How many fresh generation names an installation tries before it gives up.
pub const GENERATION_ATTEMPTS: u32 = 8;

/// The nanoseconds in the longest `Duration`: `u64::MAX` whole seconds and
/// 999_999_999 nanoseconds more.
pub const MAX_DURATION_NANOS: u128 = 18_446_744_073_709_551_615_999_999_999;

/// `std::time::SystemTime`, a reading of the system clock, opaque here.
#[verifier::external_type_specification]
#[verifier::external_body]
pub struct ExSystemTime(SystemTime);

/// `std::time::SystemTimeError`, a clock reading before the epoch, opaque here.
#[verifier::external_type_specification]
#[verifier::external_body]
pub struct ExSystemTimeError(SystemTimeError);

/// `serde_json::Error`, a failure to serialise or parse JSON, opaque here.
#[verifier::external_type_specification]
#[verifier::external_body]
pub struct ExJsonError(serde_json::Error);

/// The current time of the system clock.
///
/// Calls `SystemTime::now`; nothing is promised of the time it returns.
#[verifier::external_body]
fn system_time_now() -> SystemTime {
    SystemTime::now()
}

/// The time elapsed from the Unix epoch to `time`, or an error if `time` is
/// earlier.
///
/// Calls `SystemTime::duration_since(UNIX_EPOCH)`; nothing is promised of the
/// duration, which is opaque here.
#[verifier::external_body]
fn time_since_unix_epoch(time: &SystemTime) -> Result<Duration, SystemTimeError> {
    time.duration_since(UNIX_EPOCH)
}

/// The length of a duration in nanoseconds.
///
/// Calls `Duration::as_nanos`, the total number of nanoseconds of the duration.
/// A `Duration` is a `u64` count of whole seconds and fewer than one billion
/// nanoseconds more, so the number is at most `MAX_DURATION_NANOS`; a duration
/// is opaque here, so nothing more is promised of it.
#[verifier::external_body]
fn duration_nanos(duration: &Duration) -> (nanos: u128)
    ensures
        nanos <= MAX_DURATION_NANOS,
{
    duration.as_nanos()
}

/// How `serde_json` writes the character `c` inside a string literal: a
/// quote and a backslash behind a backslash, backspace, form feed, line feed,
/// carriage return and tab as `\b \f \n \r \t`, other control characters
/// below U+0020 as `\u00` and two lowercase hexadecimal digits, and every other
/// character as it is.
pub open spec fn json_escape(c: char) -> Seq<char> {
    if c == '"' {
        seq!['\\', '"']
    } else if c == '\\' {
        seq!['\\', '\\']
    } else if c == '\u{8}' {
        seq!['\\', 'b']
    } else if c == '\u{c}' {
        seq!['\\', 'f']
    } else if c == '\n' {
        seq!['\\', 'n']
    } else if c == '\r' {
        seq!['\\', 'r']
    } else if c == '\t' {
        seq!['\\', 't']
    } else if (c as nat) < 0x20 {
        seq!['\\', 'u', '0', '0', hex_digit((c as nat) / 16), hex_digit((c as nat) % 16)]
    } else {
        seq![c]
    }
}

/// The characters of `text`, each written as `serde_json` writes it inside a
/// string literal.
pub open spec fn json_escaped(text: Seq<char>) -> Seq<char>
    decreases text.len(),
{
    if text.len() == 0 {
        Seq::empty()
    } else {
        json_escaped(text.drop_last()) + json_escape(text.last())
    }
}

/// The JSON string literal that `serde_json` writes for `text`: its escaped
/// characters between quotes.
pub open spec fn json_string_literal(text: Seq<char>) -> Seq<char> {
    seq!['"'] + json_escaped(text) + seq!['"']
}

/// The string member `key` of the JSON object `document`, if `document` parses
/// as a JSON object whose member `key` is a string: what `serde_json::from_str`
/// into a `Value`, then `Value::get` and `Value::as_str` give together.
pub uninterp spec fn json_string_member(document: Seq<char>, key: Seq<char>) -> Option<Seq<char>>;

/// `text` as a JSON string literal, with quotes and escapes.
///
/// Calls `serde_json::to_string` on the string. The contract states the text,
/// as `serde_json`'s escape table writes it (the table escapes only bytes below
/// 0x80, so every other character is copied whole), and that serialising a
/// string never fails, which the source shows: the string is escaped into an
/// in-memory buffer.
#[verifier::external_body]
fn json_quote(text: &str) -> (quoted: Result<String, serde_json::Error>)
    ensures
        quoted is Ok,
        quoted is Ok ==> quoted->Ok_0@ == json_string_literal(text@),
{
    serde_json::to_string(text)
}

/// The string member `key` of the JSON object `document`.
///
/// Calls `serde_json::from_str` into a `serde_json::Value` and reads the
/// member with `Value::get` and `Value::as_str`. The contract names the result
/// of the three calls together,
/// and states that an object of one string member, written as `serde_json`
/// writes it, gives that member back.
#[verifier::external_body]
fn json_member(document: &str, key: &str) -> (member: Option<String>)
    ensures
        opt_string_view(member) == json_string_member(document@, key@),
        forall|value: Seq<char>|
            document@ == seq!['{'] + json_string_literal(key@) + seq![':'] + #[trigger] json_string_literal(
                value,
            ) + seq!['}'] ==> opt_string_view(member) == Some(value),
{
    let parsed: serde_json::Value = serde_json::from_str(document).ok()?;
    parsed.get(key)?.as_str().map(|m| m.to_string())
}

/// The generation id made at `nanos` nanoseconds after the Unix epoch: the
/// pinned revision, `-`, and `nanos` in lowercase hexadecimal.
pub open spec fn generation_id_text(nanos: nat) -> Seq<char> {
    JETLS_REVISION@ + seq!['-'] + hex_text(nanos)
}

/// Whether a generation id names a directory inside its container: it is not
/// empty, not hidden and holds no path separator or drive prefix (`:`).
pub open spec fn is_safe_generation_id(id: Seq<char>) -> bool {
    &&& id.len() > 0
    &&& id[0] != '.'
    &&& !id.contains('/')
    &&& !id.contains('\\')
    &&& !id.contains(':')
}

/// The JSON document of a container's `current` file.
pub open spec fn pointer_document(generation_id: Seq<char>) -> Seq<char> {
    seq!['{'] + json_string_literal("generation"@) + seq![':'] + json_string_literal(generation_id)
        + seq!['}']
}

/// The generation directory that the `current` file with text `pointer`
/// names, if its id is safe.
pub open spec fn pointer_target(container_path: Seq<char>, pointer: Seq<char>) -> Option<
    Seq<char>,
> {
    match json_string_member(pointer, "generation"@) {
        Some(id) => if is_safe_generation_id(id) {
            Some(path_join(container_path, id))
        } else {
            None
        },
        None => None,
    }
}

/// The JSON document of a generation's install stamp, members in the sorted
/// order in which `serde_json` writes an object.
pub open spec fn install_stamp_document(julia_version: Seq<char>) -> Seq<char> {
    seq!['{'] + json_string_literal("julia"@) + seq![':'] + json_string_literal(julia_version)
        + seq![','] + json_string_literal("revision"@) + seq![':'] + json_string_literal(
        JETLS_REVISION@,
    ) + seq!['}']
}

/// Whether an entry of the given age is old enough to remove: published
/// generations are kept for the retention, unpublished ones for the shorter
/// grace, and an entry of unknown age is kept.
pub open spec fn is_removable_age(published: bool, age: Option<u128>) -> bool {
    let grace = if published {
        GENERATION_RETENTION_NANOS
    } else {
        UNPUBLISHED_GENERATION_GRACE_NANOS
    };
    age matches Some(a) && a > grace
}

/// The components of a `/`-separated path as `Path::components` gives the
/// normal ones: empty pieces (repeated and trailing separators) are dropped,
/// and so is `.` except at the start of a relative path.
pub open spec fn path_parts(path: Seq<char>) -> Seq<Seq<char>> {
    kept_parts(split_on(path, '/'))
}

/// The pieces kept as components: non-empty, and `.` only as the first piece.
pub open spec fn kept_parts(pieces: Seq<Seq<char>>) -> Seq<Seq<char>>
    decreases pieces.len(),
{
    if pieces.len() == 0 {
        Seq::empty()
    } else {
        let before = kept_parts(pieces.drop_last());
        let piece = pieces.last();
        if piece.len() == 0 || (piece == seq!['.'] && pieces.len() > 1) {
            before
        } else {
            before.push(piece)
        }
    }
}

/// Whether a path starts at the root.
pub open spec fn is_absolute(path: Seq<char>) -> bool {
    path.len() > 0 && path[0] == '/'
}

/// Whether two paths are equal as `Path`s: the same root and components.
pub open spec fn same_path(a: Seq<char>, b: Seq<char>) -> bool {
    is_absolute(a) == is_absolute(b) && path_parts(a) == path_parts(b)
}

/// Whether the parent of a container is the managed depots directory, whose
/// other runtime containers a cleanup may then sweep.
pub open spec fn in_managed_depots(container_path: Seq<char>) -> bool {
    let parts = path_parts(container_path);
    parts.len() >= 2 && parts[parts.len() - 2] == MANAGED_DEPOTS_DIR@
}

/// Whether an entry of a container may be removed by a cleanup: not a control
/// file, not the current generation, and old enough.
pub open spec fn is_removable_container_entry(
    name: Seq<char>,
    entry_path: Seq<char>,
    current_generation: Option<Seq<char>>,
    published: bool,
    age: Option<u128>,
) -> bool {
    &&& name != CURRENT_POINTER_FILE@
    &&& name != LAST_USED_FILE@
    &&& current_generation != Some(entry_path)
    &&& is_removable_age(published, age)
}

/// Whether a sibling runtime container may be removed: not the active
/// container, and unused for longer than the runtime retention.
pub open spec fn is_removable_runtime(
    entry_path: Seq<char>,
    container_path: Seq<char>,
    age: Option<u128>,
) -> bool {
    !same_path(entry_path, container_path) && (age matches Some(a) && a > RUNTIME_RETENTION_NANOS)
}

/// How long storage is kept unused: an unpublished generation one day, a
/// published one seven days, and a sibling runtime thirty days, counted in
/// nanoseconds; an entry of unknown age is kept, and so is the active runtime.
pub proof fn law_retention_periods(
    published: bool,
    age: Option<u128>,
    entry_path: Seq<char>,
    container_path: Seq<char>,
)
    ensures
        is_removable_age(published, age) <==> (age matches Some(a) && a > if published {
            7 * 24 * 60 * 60 * 1_000_000_000int
        } else {
            24 * 60 * 60 * 1_000_000_000int
        }),
        is_removable_runtime(entry_path, container_path, age) <==> (!same_path(
            entry_path,
            container_path,
        ) && (age matches Some(a) && a > 30 * 24 * 60 * 60 * 1_000_000_000int)),
{
}

/// An entry of a listed directory: its file name, whether it holds an install
/// stamp, and how long it has gone unused, if that is known.
pub struct StorageEntry {
    pub name: String,
    pub published: bool,
    pub age: Option<u128>,
}

/// The paths a cleanup removes from a container, in the order of its listed
/// entries: each entry's path in the container, where the entry may be removed.
pub open spec fn container_removals(
    container_path: Seq<char>,
    entries: Seq<StorageEntry>,
    current_generation: Option<Seq<char>>,
) -> Seq<Seq<char>>
    decreases entries.len(),
{
    if entries.len() == 0 {
        Seq::empty()
    } else {
        let before = container_removals(container_path, entries.drop_last(), current_generation);
        let entry = entries.last();
        let path = path_join(container_path, entry.name@);
        if is_removable_container_entry(
            entry.name@,
            path,
            current_generation,
            entry.published,
            entry.age,
        ) {
            before.push(path)
        } else {
            before
        }
    }
}

/// The paths a cleanup removes from the depots directory that holds the
/// container, in the order of its listed entries: none unless the container
/// sits in the managed depots directory, else each entry's path that is a
/// removable sibling runtime.
pub open spec fn sibling_removals(
    container_path: Seq<char>,
    depots_path: Seq<char>,
    entries: Seq<StorageEntry>,
) -> Seq<Seq<char>>
    decreases entries.len(),
{
    if !in_managed_depots(container_path) || entries.len() == 0 {
        Seq::empty()
    } else {
        let before = sibling_removals(container_path, depots_path, entries.drop_last());
        let path = path_join(depots_path, entries.last().name@);
        if is_removable_runtime(path, container_path, entries.last().age) {
            before.push(path)
        } else {
            before
        }
    }
}

/// `path` is the path in the container of `entry`, which is no control file
/// and has gone unused for longer than its retention.
pub open spec fn is_stale_entry(container_path: Seq<char>, entry: StorageEntry, path: Seq<char>) -> bool {
    &&& path == path_join(container_path, entry.name@)
    &&& entry.name@ != CURRENT_POINTER_FILE@
    &&& entry.name@ != LAST_USED_FILE@
    &&& is_removable_age(entry.published, entry.age)
}

/// `path` is the path of a listed entry of the container that is no control
/// file and has gone unused for longer than its retention.
pub open spec fn is_stale_child(container_path: Seq<char>, entries: Seq<StorageEntry>, path: Seq<char>) -> bool {
    exists|j: int| 0 <= j < entries.len() && is_stale_entry(container_path, #[trigger] entries[j], path)
}

/// `path` is the path in the depots directory of `entry`, a runtime unused for
/// longer than the runtime retention.
pub open spec fn is_stale_runtime_entry(depots_path: Seq<char>, entry: StorageEntry, path: Seq<char>) -> bool {
    &&& path == path_join(depots_path, entry.name@)
    &&& entry.age matches Some(a) && a > RUNTIME_RETENTION_NANOS
}

/// `path` is the path of a listed entry of the depots directory, a runtime
/// unused for longer than the runtime retention.
pub open spec fn is_stale_runtime(depots_path: Seq<char>, entries: Seq<StorageEntry>, path: Seq<char>) -> bool {
    exists|j: int| 0 <= j < entries.len() && is_stale_runtime_entry(depots_path, #[trigger] entries[j], path)
}

/// A cleanup of a container removes only its direct children, never the
/// `current` pointer, the `last-used` marker or the current generation, and
/// only children unused for longer than their retention.
pub proof fn law_container_cleanup_spares_what_is_in_use(
    container_path: Seq<char>,
    entries: Seq<StorageEntry>,
    current_generation: Option<Seq<char>>,
)
    ensures
        forall|k: int|
            0 <= k < container_removals(container_path, entries, current_generation).len()
                ==> is_stale_child(
                container_path,
                entries,
                #[trigger] container_removals(container_path, entries, current_generation)[k],
            ),
        forall|k: int|
            0 <= k < container_removals(container_path, entries, current_generation).len()
                ==> current_generation != Some(
                #[trigger] container_removals(container_path, entries, current_generation)[k],
            ),
    decreases entries.len(),
{
    if entries.len() > 0 {
        let rest = entries.drop_last();
        law_container_cleanup_spares_what_is_in_use(container_path, rest, current_generation);
        let removals = container_removals(container_path, entries, current_generation);
        let before = container_removals(container_path, rest, current_generation);
        assert forall|k: int| 0 <= k < removals.len() implies is_stale_child(
            container_path,
            entries,
            #[trigger] removals[k],
        ) by {
            if k < before.len() {
                assert(removals[k] == before[k]);
                assert(is_stale_child(container_path, rest, before[k]));
                let j = choose|j: int| 0 <= j < rest.len() && is_stale_entry(container_path, #[trigger] rest[j], before[k]);
                assert(rest[j] == entries[j]);
                assert(is_stale_entry(container_path, entries[j], removals[k]));
            } else {
                let j = entries.len() - 1;
                assert(entries[j] == entries.last());
                assert(is_stale_entry(container_path, entries[j], removals[k]));
            }
        }
        assert forall|k: int| 0 <= k < removals.len() implies current_generation != Some(
            #[trigger] removals[k],
        ) by {
            if k < before.len() {
                assert(removals[k] == before[k]);
            }
        }
    }
}

/// A sweep of sibling runtimes runs only for a container in the managed
/// depots directory, removes only direct children of the depots directory,
/// never the active container, and only runtimes unused for longer than the
/// runtime retention.
pub proof fn law_sibling_sweep_spares_the_active_container(
    container_path: Seq<char>,
    depots_path: Seq<char>,
    entries: Seq<StorageEntry>,
)
    ensures
        sibling_removals(container_path, depots_path, entries).len() > 0 ==> in_managed_depots(
            container_path,
        ),
        forall|k: int|
            0 <= k < sibling_removals(container_path, depots_path, entries).len() ==> !same_path(
                #[trigger] sibling_removals(container_path, depots_path, entries)[k],
                container_path,
            ),
        forall|k: int|
            0 <= k < sibling_removals(container_path, depots_path, entries).len() ==> is_stale_runtime(
                depots_path,
                entries,
                #[trigger] sibling_removals(container_path, depots_path, entries)[k],
            ),
    decreases entries.len(),
{
    if entries.len() > 0 && in_managed_depots(container_path) {
        let rest = entries.drop_last();
        law_sibling_sweep_spares_the_active_container(container_path, depots_path, rest);
        let removals = sibling_removals(container_path, depots_path, entries);
        let before = sibling_removals(container_path, depots_path, rest);
        assert forall|k: int| 0 <= k < removals.len() implies !same_path(
            #[trigger] removals[k],
            container_path,
        ) by {
            if k < before.len() {
                assert(removals[k] == before[k]);
            }
        }
        assert forall|k: int| 0 <= k < removals.len() implies is_stale_runtime(
            depots_path,
            entries,
            #[trigger] removals[k],
        ) by {
            if k < before.len() {
                assert(removals[k] == before[k]);
                assert(is_stale_runtime(depots_path, rest, before[k]));
                let j = choose|j: int| 0 <= j < rest.len() && is_stale_runtime_entry(depots_path, #[trigger] rest[j], before[k]);
                assert(rest[j] == entries[j]);
                assert(is_stale_runtime_entry(depots_path, entries[j], removals[k]));
            } else {
                let j = entries.len() - 1;
                assert(entries[j] == entries.last());
                assert(is_stale_runtime_entry(depots_path, entries[j], removals[k]));
            }
        }
    }
}

/// What an attempt to create a generation directory reported.
pub enum DirCreation {
    /// The directory was created.
    Created,
    /// A directory of that name already existed.
    AlreadyExists,
    /// Creating it failed for another reason, given as text.
    Failed(String),
}

/// What an attempt to create a generation directory reported, as values.
pub enum DirCreationView {
    Created,
    AlreadyExists,
    Failed(Seq<char>),
}

impl View for DirCreation {
    type V = DirCreationView;

    open spec fn view(&self) -> DirCreationView {
        match self {
            DirCreation::Created => DirCreationView::Created,
            DirCreation::AlreadyExists => DirCreationView::AlreadyExists,
            DirCreation::Failed(error) => DirCreationView::Failed(error@),
        }
    }
}

/// The message of a generation directory that could not be created.
pub open spec fn generation_failure_message(container_path: Seq<char>, error: Seq<char>) -> Seq<
    char,
> {
    "Failed to create a managed JETLS generation in '"@ + container_path + "': "@ + error
}

/// The message of an installation that found no fresh generation name.
pub open spec fn generations_exhausted_message(container_path: Seq<char>) -> Seq<char> {
    "Failed to allocate a fresh managed JETLS generation in '"@ + container_path + "'"@
}

/// The characters of `JETLS_REVISION` are digits and dashes.
proof fn lemma_revision_chars()
    ensures
        JETLS_REVISION@ =~= "2026-08-29"@,
        forall|i: int|
            0 <= i < JETLS_REVISION@.len() ==> (#[trigger] JETLS_REVISION@[i] == '-' || ('0'
                <= JETLS_REVISION@[i] && JETLS_REVISION@[i] <= '9')),
        JETLS_REVISION@.len() == 10,
{
    reveal_strlit("2026-08-29");
}

/// Every generation id the extension makes is a safe pointer target.
pub proof fn law_generation_ids_are_safe(nanos: nat)
    ensures
        is_safe_generation_id(generation_id_text(nanos)),
{
    lemma_revision_chars();
    lemma_hex_text_digits(nanos);
    let id = generation_id_text(nanos);
    let hex = hex_text(nanos);
    assert forall|i: int| 0 <= i < id.len() implies id[i] != '/' && id[i] != '\\' && id[i]
        != ':' by {
        if i < 10 {
            assert(id[i] == JETLS_REVISION@[i]);
        } else if i > 10 {
            assert(id[i] == hex[i - 11]);
            assert(is_lower_hex_digit(hex[i - 11]));
        }
    }
    assert(id[0] == JETLS_REVISION@[0]);
}

/// An unknown age never removes an entry, a published generation is kept
/// whenever an unpublished one of the same age would be, and the older an
/// entry, the more removable it is.
pub proof fn law_removal_is_monotonic(published: bool, younger: u128, older: u128)
    requires
        younger <= older,
    ensures
        !is_removable_age(published, None),
        is_removable_age(true, Some(younger)) ==> is_removable_age(false, Some(younger)),
        is_removable_age(published, Some(younger)) ==> is_removable_age(published, Some(older)),
{
}

impl JuliaExtension {
    /// Nanoseconds since the Unix epoch, or 0 if the clock is set before it.
    ///
    /// The reading rests on the system clock, so of every outcome only its
    /// range is stated: no more than a `Duration` can hold.
    pub fn unix_nanos() -> (nanos: u128)
        ensures
            nanos <= MAX_DURATION_NANOS,
    {
        let now = system_time_now();
        match time_since_unix_epoch(&now) {
            Ok(elapsed) => duration_nanos(&elapsed),
            Err(_) => 0,
        }
    }

    /// The generation id made at `nanos` nanoseconds after the Unix epoch.
    pub fn generation_id_at(nanos: u128) -> (id: String)
        ensures
            id@ == generation_id_text(nanos as nat),
    {
        let mut chars = chars_of(JETLS_REVISION);
        chars.push('-');
        push_hex(&mut chars, nanos);
        assert(chars@ =~= generation_id_text(nanos as nat));
        string_of(chars.as_slice())
    }

    /// A fresh generation id: the pinned revision and the current time. A
    /// generation directory is never renamed once installed into (precompile
    /// caches record absolute paths), so it is published by pointing the
    /// container's `current` file at it.
    pub fn new_generation_id() -> (id: String)
        ensures
            exists|nanos: u128| id@ == generation_id_text(nanos as nat),
    {
        let nanos = Self::unix_nanos();
        Self::generation_id_at(nanos)
    }

    /// Whether a generation id names a directory inside its container.
    pub fn is_safe_generation_id(id: &str) -> (safe: bool)
        ensures
            safe == is_safe_generation_id(id@),
    {
        let chars = chars_of(id);
        chars.len() > 0 && chars[0] != '.' && !contains_char(chars.as_slice(), '/')
            && !contains_char(chars.as_slice(), '\\') && !contains_char(chars.as_slice(), ':')
    }

    /// The text of a container's `current` file that publishes `generation_id`.
    pub fn current_pointer_document(generation_id: &str) -> (document: String)
        ensures
            document@ == pointer_document(generation_id@),
    {
        let key = json_quote("generation");
        let value = json_quote(generation_id);
        let mut document = String::new();
        document.push('{');
        match (key, value) {
            (Ok(key), Ok(value)) => {
                document.append(key.as_str());
                document.push(':');
                document.append(value.as_str());
            },
            _ => {},
        }
        document.push('}');
        assert(document@ =~= pointer_document(generation_id@));
        document
    }

    /// The generation directory that a `current` file with text `pointer`
    /// names, if it names one safely. Whether that directory exists is for the
    /// caller to check.
    pub fn current_generation_target(container_path: &str, pointer: &str) -> (target: Option<String>)
        ensures
            opt_string_view(target) == pointer_target(container_path@, pointer@),
            forall|generation_id: Seq<char>|
                pointer@ == #[trigger] pointer_document(generation_id) && is_safe_generation_id(
                    generation_id,
                ) ==> opt_string_view(target) == Some(path_join(container_path@, generation_id)),
    {
        match json_member(pointer, "generation") {
            Some(id) => {
                if Self::is_safe_generation_id(id.as_str()) {
                    Some(Self::join_path(container_path, id.as_str()))
                } else {
                    None
                }
            },
            None => None,
        }
    }

    /// The text of the install stamp of a generation installed for
    /// `julia_version`.
    pub fn install_stamp_document(julia_version: &str) -> (document: String)
        ensures
            document@ == install_stamp_document(julia_version@),
    {
        let mut document = String::new();
        document.push('{');
        match (json_quote("julia"), json_quote(julia_version)) {
            (Ok(key), Ok(value)) => {
                document.append(key.as_str());
                document.push(':');
                document.append(value.as_str());
            },
            _ => {},
        }
        document.push(',');
        match (json_quote("revision"), json_quote(JETLS_REVISION)) {
            (Ok(key), Ok(value)) => {
                document.append(key.as_str());
                document.push(':');
                document.append(value.as_str());
            },
            _ => {},
        }
        document.push('}');
        assert(document@ =~= install_stamp_document(julia_version@));
        document
    }

    /// A temporary file next to `file_path` with a unique suffix, through which
    /// a file is replaced by a rename.
    pub fn replacement_temp_path(file_path: &str) -> (temp_path: String)
        ensures
            exists|nanos: u128|
                temp_path@ == file_path@ + seq!['.'] + hex_text(nanos as nat) + ".tmp"@,
    {
        let nanos = Self::unix_nanos();
        let mut chars = chars_of(file_path);
        chars.push('.');
        push_hex(&mut chars, nanos);
        let mut temp_path = string_of(chars.as_slice());
        temp_path.append(".tmp");
        temp_path
    }

    /// Whether an entry of the given age (in nanoseconds) is old enough to be
    /// removed.
    pub fn should_remove_entry(published: bool, age: Option<u128>) -> (remove: bool)
        ensures
            remove == is_removable_age(published, age),
    {
        let grace = if published {
            GENERATION_RETENTION_NANOS
        } else {
            UNPUBLISHED_GENERATION_GRACE_NANOS
        };
        match age {
            Some(age) => age > grace,
            None => false,
        }
    }

    /// The age of an entry: that of its `last-used` file if it has one, else
    /// its own.
    pub fn entry_age(last_used_age: Option<u128>, own_age: Option<u128>) -> (age: Option<u128>)
        ensures
            age == if last_used_age is Some {
                last_used_age
            } else {
                own_age
            },
    {
        match last_used_age {
            Some(age) => Some(age),
            None => own_age,
        }
    }

    /// Whether a cleanup may remove this entry of a container.
    pub fn container_entry_removable(
        name: &str,
        entry_path: &str,
        current_generation: Option<&str>,
        published: bool,
        age: Option<u128>,
    ) -> (remove: bool)
        ensures
            remove == is_removable_container_entry(
                name@,
                entry_path@,
                opt_str_view(current_generation),
                published,
                age,
            ),
    {
        if crate::text::str_equal(name, CURRENT_POINTER_FILE) || crate::text::str_equal(
            name,
            LAST_USED_FILE,
        ) {
            return false;
        }
        match current_generation {
            Some(current) => {
                if crate::text::str_equal(current, entry_path) {
                    return false;
                }
            },
            None => {},
        }
        Self::should_remove_entry(published, age)
    }

    /// Whether the container sits in the managed depots directory, so that a
    /// cleanup may sweep the other runtime containers there.
    pub fn may_sweep_sibling_runtimes(container_path: &str) -> (sweep: bool)
        ensures
            sweep == in_managed_depots(container_path@),
    {
        let parts = path_components(container_path);
        if parts.len() < 2 {
            return false;
        }
        let depots = chars_of(MANAGED_DEPOTS_DIR);
        chars_equal(parts[parts.len() - 2].as_slice(), depots.as_slice())
    }

    /// Whether a cleanup may remove a sibling runtime container.
    pub fn sibling_runtime_removable(entry_path: &str, container_path: &str, age: Option<u128>) -> (remove:
        bool)
        ensures
            remove == is_removable_runtime(entry_path@, container_path@, age),
    {
        if Self::is_same_path(entry_path, container_path) {
            return false;
        }
        match age {
            Some(age) => age > RUNTIME_RETENTION_NANOS,
            None => false,
        }
    }

    /// The paths a cleanup removes from a container, given its listed entries
    /// and the generation its pointer publishes.
    pub fn container_cleanup_paths(
        container_path: &str,
        current_generation: Option<&str>,
        entries: &[StorageEntry],
    ) -> (paths: Vec<String>)
        ensures
            paths.deep_view() == container_removals(
                container_path@,
                entries@,
                opt_str_view(current_generation),
            ),
            forall|k: int|
                0 <= k < paths@.len() ==> is_stale_child(
                    container_path@,
                    entries@,
                    #[trigger] paths@[k]@,
                ) && opt_str_view(current_generation) != Some(paths@[k]@),
    {
        let ghost current = opt_str_view(current_generation);
        proof {
            law_container_cleanup_spares_what_is_in_use(container_path@, entries@, current);
        }
        let mut paths: Vec<String> = Vec::new();
        let mut i: usize = 0;
        while i < entries.len()
            invariant
                i <= entries@.len(),
                current == opt_str_view(current_generation),
                paths.deep_view() == container_removals(
                    container_path@,
                    entries@.take(i as int),
                    current,
                ),
            decreases entries@.len() - i,
        {
            let entry = &entries[i];
            let path = Self::join_path(container_path, entry.name.as_str());
            let ghost before = paths.deep_view();
            assert(entries@.take(i + 1).drop_last() =~= entries@.take(i as int));
            assert(entries@.take(i + 1).last() == entries@[i as int]);
            if Self::container_entry_removable(
                entry.name.as_str(),
                path.as_str(),
                current_generation,
                entry.published,
                entry.age,
            ) {
                paths.push(path);
                assert(paths.deep_view() =~= before.push(paths@[paths@.len() - 1]@));
            }
            i = i + 1;
        }
        assert(entries@.take(entries@.len() as int) =~= entries@);
        assert forall|k: int| 0 <= k < paths@.len() implies #[trigger] paths@[k]@ == paths.deep_view()[k] by {}
        paths
    }

    /// The sibling runtimes a cleanup removes from the depots directory that
    /// holds the container, given its listed entries.
    pub fn sibling_cleanup_paths(
        container_path: &str,
        depots_path: &str,
        entries: &[StorageEntry],
    ) -> (paths: Vec<String>)
        ensures
            paths.deep_view() == sibling_removals(container_path@, depots_path@, entries@),
            paths@.len() > 0 ==> in_managed_depots(container_path@),
            forall|k: int|
                0 <= k < paths@.len() ==> !same_path(#[trigger] paths@[k]@, container_path@)
                    && is_stale_runtime(depots_path@, entries@, paths@[k]@),
    {
        proof {
            law_sibling_sweep_spares_the_active_container(container_path@, depots_path@, entries@);
        }
        let mut paths: Vec<String> = Vec::new();
        if !Self::may_sweep_sibling_runtimes(container_path) {
            assert(paths.deep_view() =~= Seq::<Seq<char>>::empty());
            return paths;
        }
        let mut i: usize = 0;
        while i < entries.len()
            invariant
                i <= entries@.len(),
                in_managed_depots(container_path@),
                paths.deep_view() == sibling_removals(
                    container_path@,
                    depots_path@,
                    entries@.take(i as int),
                ),
            decreases entries@.len() - i,
        {
            let entry = &entries[i];
            let path = Self::join_path(depots_path, entry.name.as_str());
            let ghost before = paths.deep_view();
            assert(entries@.take(i + 1).drop_last() =~= entries@.take(i as int));
            assert(entries@.take(i + 1).last() == entries@[i as int]);
            if Self::sibling_runtime_removable(path.as_str(), container_path, entry.age) {
                paths.push(path);
                assert(paths.deep_view() =~= before.push(paths@[paths@.len() - 1]@));
            }
            i = i + 1;
        }
        assert(entries@.take(entries@.len() as int) =~= entries@);
        assert forall|k: int| 0 <= k < paths@.len() implies #[trigger] paths@[k]@ == paths.deep_view()[k] by {}
        paths
    }

    /// Whether two paths are the same path.
    pub fn is_same_path(a: &str, b: &str) -> (same: bool)
        ensures
            same == same_path(a@, b@),
    {
        let a_chars = chars_of(a);
        let b_chars = chars_of(b);
        let a_absolute = a_chars.len() > 0 && a_chars[0] == '/';
        let b_absolute = b_chars.len() > 0 && b_chars[0] == '/';
        if a_absolute != b_absolute {
            return false;
        }
        let a_parts = path_components(a);
        let b_parts = path_components(b);
        if a_parts.len() != b_parts.len() {
            assert(path_parts(a@).len() != path_parts(b@).len());
            return false;
        }
        let mut i: usize = 0;
        while i < a_parts.len()
            invariant
                i <= a_parts@.len(),
                a_parts@.len() == b_parts@.len(),
                a_parts@.len() == path_parts(a@).len(),
                b_parts@.len() == path_parts(b@).len(),
                forall|j: int| 0 <= j < a_parts@.len() ==> #[trigger] a_parts@[j]@ == path_parts(a@)[j],
                forall|j: int| 0 <= j < b_parts@.len() ==> #[trigger] b_parts@[j]@ == path_parts(b@)[j],
                forall|j: int| 0 <= j < i ==> path_parts(a@)[j] == path_parts(b@)[j],
            decreases a_parts@.len() - i,
        {
            if !chars_equal(a_parts[i].as_slice(), b_parts[i].as_slice()) {
                assert(a_parts@[i as int]@ != b_parts@[i as int]@);
                assert(path_parts(a@)[i as int] != path_parts(b@)[i as int]);
                return false;
            }
            i = i + 1;
        }
        assert(path_parts(a@) =~= path_parts(b@));
        true
    }

    /// The message of an installation that found no fresh generation name in
    /// `GENERATION_ATTEMPTS` tries.
    pub fn generations_exhausted_message(container_path: &str) -> (message: String)
        ensures
            message@ == generations_exhausted_message(container_path@),
    {
        let mut message = String::from_str(
            "Failed to allocate a fresh managed JETLS generation in '",
        );
        message.append(container_path);
        message.append("'");
        message
    }
}

/// The components of a path, as `path_parts` gives them.
fn path_components(path: &str) -> (parts: Vec<Vec<char>>)
    ensures
        parts@.len() == path_parts(path@).len(),
        forall|j: int| 0 <= j < parts@.len() ==> #[trigger] parts@[j]@ == path_parts(path@)[j],
{
    let chars = chars_of(path);
    let pieces = split_chars(chars.as_slice(), '/');
    let ghost views = split_on(path@, '/');
    let mut parts: Vec<Vec<char>> = Vec::new();
    let mut i: usize = 0;
    while i < pieces.len()
        invariant
            i <= pieces@.len(),
            pieces@.len() == views.len(),
            views == split_on(path@, '/'),
            forall|j: int| 0 <= j < pieces@.len() ==> #[trigger] pieces@[j]@ == views[j],
            parts@.len() == kept_parts(views.take(i as int)).len(),
            forall|j: int|
                0 <= j < parts@.len() ==> #[trigger] parts@[j]@ == kept_parts(views.take(i as int))[j],
        decreases pieces@.len() - i,
    {
        let ghost next = views.take(i + 1);
        assert(next.drop_last() =~= views.take(i as int));
        assert(next.last() == pieces@[i as int]@);
        let piece = &pieces[i];
        let is_dot = piece.len() == 1 && piece[0] == '.';
        assert(is_dot == (piece@ == seq!['.'])) by {
            if piece@.len() == 1 {
                assert(piece@ =~= seq![piece@[0]] || piece@[0] != '.');
            }
        }
        if !(piece.len() == 0 || (is_dot && i > 0)) {
            let mut copy: Vec<char> = Vec::new();
            push_chars(&mut copy, piece.as_slice());
            assert(copy@ =~= piece@);
            parts.push(copy);
        }
        i = i + 1;
    }
    assert(views.take(i as int) =~= views);
    parts
}

} // verus!
