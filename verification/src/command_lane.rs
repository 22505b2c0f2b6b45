//! Command lane system: lane-based command queue with concurrency control, and
//! the shell-command classification and warnings used by coding loops.
//!
//! Different kinds of work go through separate lanes with independent
//! concurrency limits, so that none starves the others:
//! - Main: user messages (serialized, 1 at a time)
//! - Cron: scheduled jobs (2 concurrent)
//! - Subagent: spawned child agents (3 concurrent)

use std::sync::Arc;
use tokio::sync::Semaphore;
use vstd::prelude::*;

use crate::text::{
    chars_eq, chars_of, push_char, contains_seq, lowercase, parse_u64, parse_u64_text, split_whitespace,
    starts_with_seq, str_contains, str_eq, str_starts_with, to_lowercase, whitespace_words,
    words_view,
};

verus! {

/// High-level shell command safety class used by coding loops.
#[derive(Debug, Clone, Copy, PartialEq, Eq, Structural)]
pub enum ShellCommandClass {
    ReadOnly,
    Mutating,
}

// ── Classification ───────────────────────────────────────────────────

/// Programs that only read.
pub open spec fn is_read_only_program(bin: Seq<char>) -> bool {
    ||| bin == "ls"@
    ||| bin == "cat"@
    ||| bin == "head"@
    ||| bin == "tail"@
    ||| bin == "pwd"@
    ||| bin == "echo"@
    ||| bin == "grep"@
    ||| bin == "rg"@
    ||| bin == "find"@
    ||| bin == "tree"@
    ||| bin == "wc"@
    ||| bin == "stat"@
    ||| bin == "du"@
    ||| bin == "df"@
    ||| bin == "ps"@
    ||| bin == "top"@
}

/// Git subcommands that only read.
pub open spec fn is_read_only_git_subcommand(sub: Seq<char>) -> bool {
    ||| sub == "status"@
    ||| sub == "diff"@
    ||| sub == "show"@
    ||| sub == "log"@
    ||| sub == "branch"@
    ||| sub == "rev-parse"@
    ||| sub == "grep"@
    ||| sub == "ls-files"@
    ||| sub == "remote"@
    ||| sub == "tag"@
    ||| sub == "blame"@
}

/// The class of a command given as its shell words.
pub open spec fn class_of_words(words: Seq<Seq<char>>) -> ShellCommandClass {
    if words.len() == 0 {
        ShellCommandClass::Mutating
    } else if is_read_only_program(lowercase(words[0])) {
        ShellCommandClass::ReadOnly
    } else if lowercase(words[0]) == "git"@ && words.len() > 1 && is_read_only_git_subcommand(
        lowercase(words[1]),
    ) {
        ShellCommandClass::ReadOnly
    } else {
        ShellCommandClass::Mutating
    }
}

/// Characters that chain commands on a line: `;`, `|` (also `||`) and `&` (also `&&`).
pub open spec fn is_chain_char(c: char) -> bool {
    c == ';' || c == '|' || c == '&'
}

/// Where a scan of a command line stands with respect to shell quoting.
#[derive(Debug, Clone, Copy, PartialEq, Eq, Structural)]
pub enum Quoting {
    /// Outside quotes.
    Plain,
    /// Inside single quotes.
    Single,
    /// Inside double quotes.
    Double,
}

/// The state of a scan: pieces completed, piece in progress, quoting, and whether
/// the next character is escaped by a backslash.
pub type SegmentScan = (Seq<Seq<char>>, Seq<char>, Quoting, bool);

/// One character of a scan. Outside quotes a backslash escapes the next
/// character, quotes open, and an unescaped `;`, `|` or `&` ends the piece;
/// inside single quotes only `'` is special; inside double quotes `"` closes and
/// a backslash escapes the next character. Every character but a cutting one
/// is kept in its piece, so the piece still splits as the shell would.
pub open spec fn scan_step(st: SegmentScan, c: char) -> SegmentScan {
    let (done, cur, quote, escaped) = st;
    if escaped {
        (done, cur.push(c), quote, false)
    } else {
        match quote {
            Quoting::Plain => if c == '\\' {
                (done, cur.push(c), Quoting::Plain, true)
            } else if c == '\'' {
                (done, cur.push(c), Quoting::Single, false)
            } else if c == '"' {
                (done, cur.push(c), Quoting::Double, false)
            } else if is_chain_char(c) {
                (done.push(cur), seq![], Quoting::Plain, false)
            } else {
                (done, cur.push(c), Quoting::Plain, false)
            },
            Quoting::Single => if c == '\'' {
                (done, cur.push(c), Quoting::Plain, false)
            } else {
                (done, cur.push(c), Quoting::Single, false)
            },
            Quoting::Double => if c == '\\' {
                (done, cur.push(c), Quoting::Double, true)
            } else if c == '"' {
                (done, cur.push(c), Quoting::Plain, false)
            } else {
                (done, cur.push(c), Quoting::Double, false)
            },
        }
    }
}

/// Reading `s` from the left, cutting at chaining characters outside quotes.
pub open spec fn segment_scan(s: Seq<char>) -> SegmentScan
    decreases s.len(),
{
    if s.len() == 0 {
        (seq![], seq![], Quoting::Plain, false)
    } else {
        scan_step(segment_scan(s.drop_last()), s.last())
    }
}

/// The pieces of a command line between its unquoted, unescaped chaining characters,
/// empty ones included.
pub open spec fn command_segments(s: Seq<char>) -> Seq<Seq<char>> {
    let (done, cur, _, _) = segment_scan(s);
    done.push(cur)
}

/// Whether a piece of a command line splits into shell words and, when it has
/// any, they form a read-only command.
pub open spec fn segment_read_only(segment: Seq<char>) -> bool {
    match shell_words(segment) {
        Some(words) => words.len() == 0 || class_of_words(words) == ShellCommandClass::ReadOnly,
        None => false,
    }
}

/// Whether a piece of a command line holds a command (at least one shell word).
pub open spec fn segment_has_command(segment: Seq<char>) -> bool {
    shell_words(segment) matches Some(words) && words.len() > 0
}

/// The class of a command line: read-only exactly when every command chained on
/// it (the pieces between unquoted `;`, `|`, `&`) is read-only and there is at least one.
/// A piece that does not split into shell words makes the line mutating.
pub open spec fn class_of_command(command: Seq<char>) -> ShellCommandClass {
    let segments = command_segments(command);
    if (forall|i: int| 0 <= i < segments.len() ==> segment_read_only(#[trigger] segments[i]))
        && (exists|i: int| 0 <= i < segments.len() && segment_has_command(#[trigger] segments[i])) {
        ShellCommandClass::ReadOnly
    } else {
        ShellCommandClass::Mutating
    }
}

/// The string views of a vector of strings.
pub open spec fn strings_view(v: Seq<String>) -> Seq<Seq<char>> {
    v.map_values(|s: String| s@)
}

fn is_read_only_program_name(bin: &str) -> (r: bool)
    ensures
        r == is_read_only_program(bin@),
{
    str_eq(bin, "ls") || str_eq(bin, "cat") || str_eq(bin, "head") || str_eq(bin, "tail")
        || str_eq(bin, "pwd") || str_eq(bin, "echo") || str_eq(bin, "grep") || str_eq(bin, "rg")
        || str_eq(bin, "find") || str_eq(bin, "tree") || str_eq(bin, "wc") || str_eq(bin, "stat")
        || str_eq(bin, "du") || str_eq(bin, "df") || str_eq(bin, "ps") || str_eq(bin, "top")
}

fn is_read_only_git_subcommand_name(sub: &str) -> (r: bool)
    ensures
        r == is_read_only_git_subcommand(sub@),
{
    str_eq(sub, "status") || str_eq(sub, "diff") || str_eq(sub, "show") || str_eq(sub, "log")
        || str_eq(sub, "branch") || str_eq(sub, "rev-parse") || str_eq(sub, "grep") || str_eq(
        sub,
        "ls-files",
    ) || str_eq(sub, "remote") || str_eq(sub, "tag") || str_eq(sub, "blame")
}

/// Classify a command that has been split into shell words.
pub fn classify_shell_words(words: &Vec<String>) -> (r: ShellCommandClass)
    ensures
        r == class_of_words(strings_view(words@)),
{
    if words.len() == 0 {
        return ShellCommandClass::Mutating;
    }
    let bin = to_lowercase(words[0].as_str());
    if is_read_only_program_name(bin.as_str()) {
        return ShellCommandClass::ReadOnly;
    }
    if str_eq(bin.as_str(), "git") && words.len() > 1 {
        let sub = to_lowercase(words[1].as_str());
        if is_read_only_git_subcommand_name(sub.as_str()) {
            return ShellCommandClass::ReadOnly;
        }
    }
    ShellCommandClass::Mutating
}

/// Cut a command line at its chaining characters (`;`, `|`, `&`) that stand
/// outside quotes and are not escaped.
pub fn split_command_segments(command: &str) -> (r: Vec<String>)
    ensures
        strings_view(r@) == command_segments(command@),
{
    let chars = chars_of(command);
    let mut done: Vec<String> = Vec::new();
    let mut cur = String::new();
    let mut quote = Quoting::Plain;
    let mut escaped = false;
    let mut i: usize = 0;
    while i < chars.len()
        invariant
            chars@ == command@,
            i <= chars@.len(),
            (strings_view(done@), cur@, quote, escaped) == segment_scan(
                command@.subrange(0, i as int),
            ),
        decreases chars.len() - i,
    {
        let c = chars[i];
        assert(command@.subrange(0, i + 1).drop_last() =~= command@.subrange(0, i as int));
        let ghost before = (strings_view(done@), cur@, quote, escaped);
        if escaped {
            push_char(&mut cur, c);
            escaped = false;
        } else {
            match quote {
                Quoting::Plain => {
                    if c == '\\' {
                        push_char(&mut cur, c);
                        escaped = true;
                    } else if c == '\'' {
                        push_char(&mut cur, c);
                        quote = Quoting::Single;
                    } else if c == '"' {
                        push_char(&mut cur, c);
                        quote = Quoting::Double;
                    } else if c == ';' || c == '|' || c == '&' {
                        let piece = cur;
                        done.push(piece);
                        cur = String::new();
                        assert(strings_view(done@) =~= before.0.push(before.1));
                    } else {
                        push_char(&mut cur, c);
                    }
                },
                Quoting::Single => {
                    push_char(&mut cur, c);
                    if c == '\'' {
                        quote = Quoting::Plain;
                    }
                },
                Quoting::Double => {
                    push_char(&mut cur, c);
                    if c == '\\' {
                        escaped = true;
                    } else if c == '"' {
                        quote = Quoting::Plain;
                    }
                },
            }
        }
        assert((strings_view(done@), cur@, quote, escaped) == scan_step(before, c));
        i = i + 1;
    }
    assert(command@.subrange(0, chars@.len() as int) =~= command@);
    done.push(cur);
    assert(strings_view(done@) =~= command_segments(command@));
    done
}

/// Classify shell command intent for lane and warning decisions.
///
/// A command line is read-only when every command chained on it with `;`, `|`,
/// `||`, `&&` or `&` (outside quotes) is read-only, so that read-only lines can run in parallel
/// and anything that may change state stays serialized.
pub fn classify_shell_command(command: &str) -> (r: ShellCommandClass)
    ensures
        r == class_of_command(command@),
{
    let segments = split_command_segments(command);
    let ghost segs = command_segments(command@);
    let mut any_command = false;
    let mut i: usize = 0;
    while i < segments.len()
        invariant
            segs == strings_view(segments@),
            segs == command_segments(command@),
            i <= segments@.len(),
            forall|j: int| 0 <= j < i ==> segment_read_only(#[trigger] segs[j]),
            any_command == exists|j: int| 0 <= j < i && segment_has_command(#[trigger] segs[j]),
        decreases segments.len() - i,
    {
        assert(segs[i as int] == segments@[i as int]@);
        match shell_split(segments[i].as_str()) {
            None => {
                assert(!segment_read_only(segs[i as int]));
                return ShellCommandClass::Mutating;
            },
            Some(words) => {
                if words.len() > 0 {
                    any_command = true;
                    if classify_shell_words(&words) == ShellCommandClass::Mutating {
                        assert(!segment_read_only(segs[i as int]));
                        return ShellCommandClass::Mutating;
                    }
                }
            },
        }
        assert(segment_read_only(segs[i as int]));
        i = i + 1;
    }
    if any_command {
        ShellCommandClass::ReadOnly
    } else {
        ShellCommandClass::Mutating
    }
}

/// A read-only line holds no mutating command anywhere in its chain.
pub proof fn lemma_read_only_line_has_only_read_only_commands(command: Seq<char>, i: int)
    requires
        class_of_command(command) == ShellCommandClass::ReadOnly,
        0 <= i < command_segments(command).len(),
        shell_words(command_segments(command)[i]) matches Some(words) && words.len() > 0,
    ensures
        class_of_words(shell_words(command_segments(command)[i])->Some_0)
            == ShellCommandClass::ReadOnly,
{
    assert(segment_read_only(command_segments(command)[i]));
}

/// What `shlex::split` gives for a command line: its words under POSIX shell
/// quoting rules, or `None` when the quoting is erroneous.
pub uninterp spec fn shell_words(command: Seq<char>) -> Option<Seq<Seq<char>>>;

/// Calls `shlex::split`. Its result is a function of the text, named [`shell_words`].
#[verifier::external_body]
fn shell_split(command: &str) -> (r: Option<Vec<String>>)
    ensures
        match r {
            Some(words) => shell_words(command@) == Some(strings_view(words@)),
            None => shell_words(command@) is None,
        },
{
    shlex::split(command)
}

// ── Warnings ─────────────────────────────────────────────────────────

/// Warning for commands that look destructive.
pub const DESTRUCTIVE_WARNING: &'static str =
    "This looks destructive (filesystem, infra, database, or git history rewrite). Verify target scope and confirm intent before continuing.";

/// Warning for long blocking sleeps.
pub const SLEEP_WARNING: &'static str =
    "Long blocking sleep detected. Prefer non-blocking workflows (e.g., process_start + process_poll) to avoid stalling coding loops.";

/// Warning for streaming or monitoring commands.
pub const STREAMING_WARNING: &'static str =
    "Streaming/monitoring command detected. Consider running it in a background process and polling output instead of blocking the turn.";

/// Warning for a git checkout.
pub const CHECKOUT_WARNING: &'static str =
    "Git checkout changes working tree state. Re-read affected files before subsequent edits to avoid stale writes.";

/// Sleeps of at least this many seconds get a warning.
pub const LONG_SLEEP_SECS: u64 = 30;

/// Whether a (lowercased) command holds one of the destructive patterns.
pub open spec fn looks_destructive(cmd: Seq<char>) -> bool {
    ||| contains_seq(cmd, "rm -rf"@)
    ||| contains_seq(cmd, "mkfs"@)
    ||| contains_seq(cmd, "shutdown"@)
    ||| contains_seq(cmd, "reboot"@)
    ||| contains_seq(cmd, "poweroff"@)
    ||| contains_seq(cmd, "terraform destroy"@)
    ||| contains_seq(cmd, "kubectl delete"@)
    ||| contains_seq(cmd, "drop database"@)
    ||| contains_seq(cmd, "git reset --hard"@)
    ||| contains_seq(cmd, "git clean -fd"@)
    ||| contains_seq(cmd, "git push --force"@)
}

/// The sleep duration found from word `i` on: the number after the first `sleep`
/// word that is followed by a number; scanning stops at a `sleep` that is the last word.
pub open spec fn sleep_from(words: Seq<Seq<char>>, i: int) -> Option<u64>
    decreases words.len() - i,
{
    if i < 0 || i >= words.len() {
        None
    } else if words[i] == "sleep"@ {
        if i + 1 >= words.len() {
            None
        } else {
            match parse_u64_text(words[i + 1]) {
                Some(v) => Some(v),
                None => sleep_from(words, i + 1),
            }
        }
    } else {
        sleep_from(words, i + 1)
    }
}

/// The sleep duration requested by a (lowercased) command, if any.
pub open spec fn sleep_seconds(cmd: Seq<char>) -> Option<u64> {
    sleep_from(whitespace_words(cmd), 0)
}

/// Whether a (lowercased) command streams or monitors output.
pub open spec fn looks_streaming(cmd: Seq<char>) -> bool {
    ||| contains_seq(cmd, " tail -f"@)
    ||| starts_with_seq(cmd, "tail -f"@)
    ||| contains_seq(cmd, " watch "@)
}

/// Whether a (lowercased) command looks like a git checkout.
pub open spec fn looks_like_checkout(cmd: Seq<char>) -> bool {
    contains_seq(cmd, "git "@) && contains_seq(cmd, " checkout "@)
}

/// The warning for an already lowercased command, in order of precedence.
pub open spec fn warning_for(cmd: Seq<char>, class: ShellCommandClass) -> Option<Seq<char>> {
    if looks_destructive(cmd) {
        Some(DESTRUCTIVE_WARNING@)
    } else if sleep_seconds(cmd) matches Some(secs) && secs >= LONG_SLEEP_SECS {
        Some(SLEEP_WARNING@)
    } else if looks_streaming(cmd) {
        Some(STREAMING_WARNING@)
    } else if class == ShellCommandClass::Mutating && looks_like_checkout(cmd) {
        Some(CHECKOUT_WARNING@)
    } else {
        None
    }
}

/// The number of seconds of the first `sleep N` in an already lowercased command.
pub fn parse_sleep_seconds(command_lc: &str) -> (r: Option<u64>)
    ensures
        r == sleep_seconds(command_lc@),
{
    let chars = chars_of(command_lc);
    let words = split_whitespace(&chars);
    let ghost ws = words_view(words@);
    let sleep = chars_of("sleep");
    let mut idx: usize = 0;
    while idx < words.len()
        invariant
            ws == words_view(words@),
            ws == whitespace_words(command_lc@),
            sleep@ == "sleep"@,
            idx <= words@.len(),
            sleep_from(ws, 0) == sleep_from(ws, idx as int),
        decreases words.len() - idx,
    {
        if chars_eq(&words[idx], &sleep) {
            if idx + 1 >= words.len() {
                return None;
            }
            match parse_u64(&words[idx + 1]) {
                Some(secs) => {
                    return Some(secs);
                },
                None => {},
            }
        }
        idx = idx + 1;
    }
    None
}

fn looks_destructive_text(cmd: &str) -> (r: bool)
    ensures
        r == looks_destructive(cmd@),
{
    str_contains(cmd, "rm -rf") || str_contains(cmd, "mkfs") || str_contains(cmd, "shutdown")
        || str_contains(cmd, "reboot") || str_contains(cmd, "poweroff") || str_contains(
        cmd,
        "terraform destroy",
    ) || str_contains(cmd, "kubectl delete") || str_contains(cmd, "drop database")
        || str_contains(cmd, "git reset --hard") || str_contains(cmd, "git clean -fd")
        || str_contains(cmd, "git push --force")
}

/// The warning for a command that has already been lowercased.
pub fn shell_command_warning_lowercased(cmd: &str, class: ShellCommandClass) -> (r: Option<String>)
    ensures
        opt_string_seq(r) == warning_for(cmd@, class),
{
    if looks_destructive_text(cmd) {
        return Some(DESTRUCTIVE_WARNING.to_owned());
    }
    if let Some(sleep_secs) = parse_sleep_seconds(cmd) {
        if sleep_secs >= LONG_SLEEP_SECS {
            return Some(SLEEP_WARNING.to_owned());
        }
    }
    if str_contains(cmd, " tail -f") || str_starts_with(cmd, "tail -f") || str_contains(
        cmd,
        " watch ",
    ) {
        return Some(STREAMING_WARNING.to_owned());
    }
    if class == ShellCommandClass::Mutating && str_contains(cmd, "git ") && str_contains(
        cmd,
        " checkout ",
    ) {
        return Some(CHECKOUT_WARNING.to_owned());
    }
    None
}

/// Produce non-blocking warning guidance for risky or stall-prone shell commands.
///
/// The command is matched in lowercase.
pub fn shell_command_warning(command: &str, class: ShellCommandClass) -> (r: Option<String>)
    ensures
        opt_string_seq(r) == warning_for(lowercase(command@), class),
{
    let cmd = to_lowercase(command);
    shell_command_warning_lowercased(cmd.as_str(), class)
}

/// The string view of an optional `String`.
pub open spec fn opt_string_seq(o: Option<String>) -> Option<Seq<char>> {
    match o {
        Some(s) => Some(s@),
        None => None,
    }
}

/// A mutating command gets every warning that the same command gets as read-only.
pub proof fn lemma_mutating_warned_at_least_as_read_only(cmd: Seq<char>)
    ensures
        warning_for(cmd, ShellCommandClass::ReadOnly) matches Some(w) ==> warning_for(
            cmd,
            ShellCommandClass::Mutating,
        ) == Some(w),
{
}

/// A destructive pattern always yields the destructive warning, whatever else the command holds.
pub proof fn lemma_destructive_takes_precedence(cmd: Seq<char>, class: ShellCommandClass)
    requires
        looks_destructive(cmd),
    ensures
        warning_for(cmd, class) == Some(DESTRUCTIVE_WARNING@),
{
}

/// A command, given as shell words, that runs one of the sixteen read-only
/// programs ls, cat, head, tail, pwd, echo, grep, rg, find, tree, wc, stat, du,
/// df, ps, top, or `git` with one of the eleven read-only subcommands status,
/// diff, show, log, branch, rev-parse, grep, ls-files, remote, tag, blame
/// (names compared in lowercase).
pub open spec fn listed_read_only(words: Seq<Seq<char>>) -> bool {
    &&& words.len() > 0
    &&& set![
        "ls"@,
        "cat"@,
        "head"@,
        "tail"@,
        "pwd"@,
        "echo"@,
        "grep"@,
        "rg"@,
        "find"@,
        "tree"@,
        "wc"@,
        "stat"@,
        "du"@,
        "df"@,
        "ps"@,
        "top"@,
    ].contains(lowercase(words[0])) || (lowercase(words[0]) == "git"@ && words.len() > 1 && set![
        "status"@,
        "diff"@,
        "show"@,
        "log"@,
        "branch"@,
        "rev-parse"@,
        "grep"@,
        "ls-files"@,
        "remote"@,
        "tag"@,
        "blame"@,
    ].contains(lowercase(words[1])))
}

/// A command given as shell words is read-only exactly when it runs one of the
/// sixteen listed read-only programs, or `git` with one of the eleven listed
/// read-only subcommands; any other command (`mv`, `rm`, `cargo`, ...), and the
/// empty one, is mutating.
pub proof fn lemma_read_only_commands_exactly(words: Seq<Seq<char>>)
    ensures
        class_of_words(words) == ShellCommandClass::ReadOnly <==> listed_read_only(words),
        class_of_words(words) == ShellCommandClass::Mutating <==> !listed_read_only(words),
{
}

/// A command line is read-only exactly when every piece between its unquoted
/// chaining characters splits into shell words, each piece that holds a command
/// is one of the listed read-only commands, and at least one piece holds a command.
pub proof fn lemma_read_only_lines_exactly(command: Seq<char>)
    ensures
        class_of_command(command) == ShellCommandClass::ReadOnly <==> ((forall|i: int|
            0 <= i < command_segments(command).len() ==> match #[trigger] shell_words(
                command_segments(command)[i],
            ) {
                Some(w) => w.len() == 0 || listed_read_only(w),
                None => false,
            }) && (exists|i: int|
            0 <= i < command_segments(command).len() && match #[trigger] shell_words(
                command_segments(command)[i],
            ) {
                Some(w) => w.len() > 0,
                None => false,
            })),
{
    let segs = command_segments(command);
    assert forall|i: int| 0 <= i < segs.len() implies (segment_read_only(segs[i]) <==> match
        #[trigger] shell_words(segs[i]) {
        Some(w) => w.len() == 0 || listed_read_only(w),
        None => false,
    }) by {
        if let Some(w) = shell_words(segs[i]) {
            lemma_read_only_commands_exactly(w);
        }
    }
}

/// The warning for a (lowercased) command, by its literal patterns and texts:
/// - the destructive warning exactly when it holds one of `rm -rf`, `mkfs`,
///   `shutdown`, `reboot`, `poweroff`, `terraform destroy`, `kubectl delete`,
///   `drop database`, `git reset --hard`, `git clean -fd` or `git push --force`;
/// - otherwise the sleep warning for a sleep of 30 seconds or more;
/// - otherwise the streaming warning when it holds ` tail -f` or ` watch `, or
///   starts with `tail -f`;
/// - otherwise, for a mutating command, the checkout warning when it holds both
///   `git ` and ` checkout `;
/// - otherwise no warning.
pub proof fn lemma_warnings_by_pattern(cmd: Seq<char>, class: ShellCommandClass)
    ensures
        ({
            let destructive = contains_seq(cmd, "rm -rf"@) || contains_seq(cmd, "mkfs"@)
                || contains_seq(cmd, "shutdown"@) || contains_seq(cmd, "reboot"@)
                || contains_seq(cmd, "poweroff"@) || contains_seq(cmd, "terraform destroy"@)
                || contains_seq(cmd, "kubectl delete"@) || contains_seq(cmd, "drop database"@)
                || contains_seq(cmd, "git reset --hard"@) || contains_seq(cmd, "git clean -fd"@)
                || contains_seq(cmd, "git push --force"@);
            let long_sleep = sleep_seconds(cmd) matches Some(secs) && secs >= 30;
            let streaming = contains_seq(cmd, " tail -f"@) || starts_with_seq(cmd, "tail -f"@)
                || contains_seq(cmd, " watch "@);
            let checkout = class == ShellCommandClass::Mutating && contains_seq(cmd, "git "@)
                && contains_seq(cmd, " checkout "@);
            &&& destructive ==> warning_for(cmd, class) == Some(
                "This looks destructive (filesystem, infra, database, or git history rewrite). Verify target scope and confirm intent before continuing."@,
            )
            &&& !destructive && long_sleep ==> warning_for(cmd, class) == Some(
                "Long blocking sleep detected. Prefer non-blocking workflows (e.g., process_start + process_poll) to avoid stalling coding loops."@,
            )
            &&& !destructive && !long_sleep && streaming ==> warning_for(cmd, class) == Some(
                "Streaming/monitoring command detected. Consider running it in a background process and polling output instead of blocking the turn."@,
            )
            &&& !destructive && !long_sleep && !streaming && checkout ==> warning_for(cmd, class)
                == Some(
                "Git checkout changes working tree state. Re-read affected files before subsequent edits to avoid stale writes."@,
            )
            &&& !destructive && !long_sleep && !streaming && !checkout ==> warning_for(cmd, class)
                is None
        }),
{
}

/// The destructive warning is given only for a command holding one of the eleven
/// destructive patterns: no other warning has its text.
pub proof fn lemma_destructive_warning_only_for_patterns(cmd: Seq<char>, class: ShellCommandClass)
    ensures
        warning_for(cmd, class) == Some(
            "This looks destructive (filesystem, infra, database, or git history rewrite). Verify target scope and confirm intent before continuing."@,
        ) ==> contains_seq(cmd, "rm -rf"@) || contains_seq(cmd, "mkfs"@) || contains_seq(
            cmd,
            "shutdown"@,
        ) || contains_seq(cmd, "reboot"@) || contains_seq(cmd, "poweroff"@) || contains_seq(
            cmd,
            "terraform destroy"@,
        ) || contains_seq(cmd, "kubectl delete"@) || contains_seq(cmd, "drop database"@)
            || contains_seq(cmd, "git reset --hard"@) || contains_seq(cmd, "git clean -fd"@)
            || contains_seq(cmd, "git push --force"@),
{
    broadcast use vstd::string::group_string_axioms;

    reveal_strlit(
        "This looks destructive (filesystem, infra, database, or git history rewrite). Verify target scope and confirm intent before continuing.",
    );
    reveal_strlit(
        "Long blocking sleep detected. Prefer non-blocking workflows (e.g., process_start + process_poll) to avoid stalling coding loops.",
    );
    reveal_strlit(
        "Streaming/monitoring command detected. Consider running it in a background process and polling output instead of blocking the turn.",
    );
    reveal_strlit(
        "Git checkout changes working tree state. Re-read affected files before subsequent edits to avoid stale writes.",
    );
    assert(DESTRUCTIVE_WARNING@[0] != SLEEP_WARNING@[0]);
    assert(DESTRUCTIVE_WARNING@[0] != STREAMING_WARNING@[0]);
    assert(DESTRUCTIVE_WARNING@[0] != CHECKOUT_WARNING@[0]);
}

// ── Lanes ────────────────────────────────────────────────────────────

/// Command lane type.
#[derive(Debug, Clone, Copy, PartialEq, Eq, Structural)]
pub enum Lane {
    /// User-facing message processing (1 concurrent).
    Main,
    /// Cron/scheduled job execution (2 concurrent).
    Cron,
    /// Subagent spawn/call execution (3 concurrent).
    Subagent,
}

/// The display name of a lane.
pub open spec fn lane_name(lane: Lane) -> Seq<char> {
    match lane {
        Lane::Main => "main"@,
        Lane::Cron => "cron"@,
        Lane::Subagent => "subagent"@,
    }
}

impl Lane {
    /// The lane's display name.
    pub fn as_str(&self) -> (r: &'static str)
        ensures
            r@ == lane_name(*self),
    {
        match self {
            Lane::Main => "main",
            Lane::Cron => "cron",
            Lane::Subagent => "subagent",
        }
    }
}

/// Lane occupancy snapshot.
#[derive(Debug, Clone)]
pub struct LaneOccupancy {
    /// Lane type.
    pub lane: Lane,
    /// Current number of active tasks.
    pub active: u32,
    /// Maximum concurrent tasks.
    pub capacity: u32,
}

/// Declares `tokio::sync::Semaphore`, which bounds how many tasks run in a lane.
#[verifier::external_type_specification]
#[verifier::external_body]
pub struct ExSemaphore(Semaphore);

/// The number of permits a semaphore was created with.
pub uninterp spec fn initial_permits(sem: Semaphore) -> usize;

/// Calls `tokio::sync::Semaphore::new`, which creates a semaphore with the given
/// number of permits and panics above `Semaphore::MAX_PERMITS` (`usize::MAX >> 3`);
/// the `requires` leaves those counts out.
#[verifier::external_body]
fn new_semaphore(permits: usize) -> (r: Semaphore)
    requires
        permits <= usize::MAX / 8,
    ensures
        initial_permits(r) == permits,
{
    Semaphore::new(permits)
}

/// `n` is a count of free permits read from `sem` at some moment.
pub uninterp spec fn permits_reading(sem: Semaphore, n: usize) -> bool;

/// Calls `Semaphore::available_permits`. The count depends on the tasks that hold
/// permits at the moment of the call; the contract only ties the count to the
/// semaphore it was read from, and states no value.
#[verifier::external_body]
fn available_permits(sem: &Semaphore) -> (r: usize)
    ensures
        permits_reading(*sem, r),
{
    sem.available_permits()
}

/// The snapshot of one lane: the active count is the capacity less the free permits,
/// in `u32` arithmetic that wraps (the count never exceeds the capacity unless
/// permits are added to a lane from outside).
pub fn lane_occupancy(lane: Lane, capacity: u32, available: usize) -> (r: LaneOccupancy)
    ensures
        r.lane == lane,
        r.capacity == capacity,
        r.active == capacity.wrapping_sub(available as u32),
        available <= capacity ==> r.active == capacity - available,
{
    LaneOccupancy { lane, active: capacity.wrapping_sub(available as u32), capacity }
}

/// Command queue with lane-based concurrency control.
#[derive(Debug, Clone)]
pub struct CommandQueue {
    main_sem: Arc<Semaphore>,
    cron_sem: Arc<Semaphore>,
    subagent_sem: Arc<Semaphore>,
    main_capacity: u32,
    cron_capacity: u32,
    subagent_capacity: u32,
}

impl CommandQueue {
    /// The concurrency limit of a lane.
    pub closed spec fn capacity_of(&self, lane: Lane) -> u32 {
        match lane {
            Lane::Main => self.main_capacity,
            Lane::Cron => self.cron_capacity,
            Lane::Subagent => self.subagent_capacity,
        }
    }

    /// The semaphore that bounds a lane.
    pub closed spec fn semaphore_of(&self, lane: Lane) -> Arc<Semaphore> {
        match lane {
            Lane::Main => self.main_sem,
            Lane::Cron => self.cron_sem,
            Lane::Subagent => self.subagent_sem,
        }
    }

    /// Each lane's semaphore was created with as many permits as the lane's capacity.
    pub closed spec fn wf(&self) -> bool {
        &&& initial_permits(*self.main_sem) == self.main_capacity
        &&& initial_permits(*self.cron_sem) == self.cron_capacity
        &&& initial_permits(*self.subagent_sem) == self.subagent_capacity
    }

    /// The lane's semaphore was created with as many permits as the lane's capacity.
    pub proof fn lemma_lane_permits(&self, lane: Lane)
        requires
            self.wf(),
        ensures
            initial_permits(*self.semaphore_of(lane)) == self.capacity_of(lane),
    {
    }

    /// Create a new command queue with default capacities (main 1, cron 2, subagent 3).
    pub fn new() -> (r: Self)
        ensures
            r.wf(),
            r.capacity_of(Lane::Main) == 1,
            r.capacity_of(Lane::Cron) == 2,
            r.capacity_of(Lane::Subagent) == 3,
    {
        Self::with_capacities(1, 2, 3)
    }

    /// Create with custom capacities.
    pub fn with_capacities(main: u32, cron: u32, subagent: u32) -> (r: Self)
        requires
            main <= usize::MAX / 8,
            cron <= usize::MAX / 8,
            subagent <= usize::MAX / 8,
        ensures
            r.wf(),
            r.capacity_of(Lane::Main) == main,
            r.capacity_of(Lane::Cron) == cron,
            r.capacity_of(Lane::Subagent) == subagent,
    {
        Self {
            main_sem: Arc::new(new_semaphore(main as usize)),
            cron_sem: Arc::new(new_semaphore(cron as usize)),
            subagent_sem: Arc::new(new_semaphore(subagent as usize)),
            main_capacity: main,
            cron_capacity: cron,
            subagent_capacity: subagent,
        }
    }

    /// The semaphore that bounds a lane.
    pub fn semaphore_for(&self, lane: Lane) -> (r: &Arc<Semaphore>)
        ensures
            *r == self.semaphore_of(lane),
    {
        match lane {
            Lane::Main => &self.main_sem,
            Lane::Cron => &self.cron_sem,
            Lane::Subagent => &self.subagent_sem,
        }
    }

    /// Get current occupancy for all lanes, in the order main, cron, subagent.
    pub fn occupancy(&self) -> (r: Vec<LaneOccupancy>)
        ensures
            r@.len() == 3,
            r@[0].lane == Lane::Main,
            r@[1].lane == Lane::Cron,
            r@[2].lane == Lane::Subagent,
            forall|i: int|
                0 <= i < 3 ==> (#[trigger] r@[i]).capacity == self.capacity_of(r@[i].lane),
            forall|i: int|
                0 <= i < 3 ==> exists|a: usize|
                    permits_reading(*self.semaphore_of(#[trigger] r@[i].lane), a) && r@[i].active
                        == self.capacity_of(r@[i].lane).wrapping_sub(a as u32),
    {
        let main_free = available_permits(&self.main_sem);
        let cron_free = available_permits(&self.cron_sem);
        let subagent_free = available_permits(&self.subagent_sem);
        let mut out: Vec<LaneOccupancy> = Vec::new();
        out.push(lane_occupancy(Lane::Main, self.main_capacity, main_free));
        out.push(lane_occupancy(Lane::Cron, self.cron_capacity, cron_free));
        out.push(lane_occupancy(Lane::Subagent, self.subagent_capacity, subagent_free));
        assert(out@[0].lane == Lane::Main && out@[1].lane == Lane::Cron && out@[2].lane
            == Lane::Subagent);
        assert(permits_reading(*self.semaphore_of(Lane::Main), main_free));
        assert(permits_reading(*self.semaphore_of(Lane::Cron), cron_free));
        assert(permits_reading(*self.semaphore_of(Lane::Subagent), subagent_free));
        out
    }
}

impl Default for CommandQueue {
    fn default() -> (r: Self)
        ensures
            r.wf(),
            r.capacity_of(Lane::Main) == 1,
            r.capacity_of(Lane::Cron) == 2,
            r.capacity_of(Lane::Subagent) == 3,
    {
        Self::new()
    }
}

} // verus!
