//! Permission policy: how dangerous a shell command is, and whether a tool call
//! is allowed, denied or needs the user's confirmation.

use vstd::prelude::*;
use crate::text::{
    chars_of, first_word, first_word_of, has_sub, lower_text, owned, push_str, starts_with,
    str_contains, str_eq, str_starts_with, string_of, to_lowercase, trim, trim_bounds, trim_end, trim_start,
    trim_str, is_ws,
};
use crate::tool_input::ToolInput;
use crate::config::PermissionRule;

verus! {

#[derive(Debug, Clone, Copy, PartialEq, Eq, Structural)]
pub enum PermissionMode {
    Default,
    Auto,
    Plan,
    Bypass,
}

#[derive(Debug, Clone, Copy, PartialEq, Eq, Structural)]
pub enum PermissionStrictness {
    High,
    Medium,
    Low,
}

#[derive(Debug, Clone, PartialEq, Eq)]
pub enum PermissionResult {
    Allow,
    Deny(String),
    Ask,
}

/// How much harm a shell command can do; ordered from least to most.
#[derive(Debug, Clone, Copy, PartialEq, Eq, PartialOrd, Ord)]
pub enum DangerLevel {
    Safe,
    Moderate,
    Destructive,
}

impl PermissionMode {
    /// The default mode.
    pub fn default_mode() -> (m: PermissionMode)
        ensures
            m == PermissionMode::Default,
    {
        PermissionMode::Default
    }
}

impl PermissionStrictness {
    /// The default strictness.
    pub fn default_strictness() -> (s: PermissionStrictness)
        ensures
            s == PermissionStrictness::Medium,
    {
        PermissionStrictness::Medium
    }
}

pub open spec fn rank(d: DangerLevel) -> int {
    match d {
        DangerLevel::Safe => 0,
        DangerLevel::Moderate => 1,
        DangerLevel::Destructive => 2,
    }
}

pub open spec fn max_danger(a: DangerLevel, b: DangerLevel) -> DangerLevel {
    if rank(a) >= rank(b) { a } else { b }
}

// ─── Splitting a command line ──────────────────────────────────────────────

/// `acc` with the trimmed `cur` appended, unless it is blank.
pub open spec fn push_piece(acc: Seq<Seq<char>>, cur: Seq<char>) -> Seq<Seq<char>> {
    if trim(cur).len() == 0 { acc } else { acc.push(trim(cur)) }
}

/// The splitting rule, stated over the characters not yet read: `;`, `&&`
/// and `||` outside quotes end a sub-command; a single `&` or `|` and every
/// quote character stay in it; each sub-command is trimmed and blank ones are
/// dropped.
pub open spec fn split_go(
    rest: Seq<char>,
    cur: Seq<char>,
    sq: bool,
    dq: bool,
    acc: Seq<Seq<char>>,
) -> Seq<Seq<char>>
    decreases rest.len(),
{
    if rest.len() == 0 {
        push_piece(acc, cur)
    } else {
        let c = rest[0];
        if c == '\'' && !dq {
            split_go(rest.drop_first(), cur.push(c), !sq, dq, acc)
        } else if c == '"' && !sq {
            split_go(rest.drop_first(), cur.push(c), sq, !dq, acc)
        } else if (c == '&' || c == '|') && !sq && !dq {
            if rest.len() > 1 && rest[1] == c {
                split_go(rest.skip(2), seq![], sq, dq, push_piece(acc, cur))
            } else {
                split_go(rest.drop_first(), cur.push(c), sq, dq, acc)
            }
        } else if c == ';' && !sq && !dq {
            split_go(rest.drop_first(), seq![], sq, dq, push_piece(acc, cur))
        } else {
            split_go(rest.drop_first(), cur.push(c), sq, dq, acc)
        }
    }
}

/// The sub-commands of a command line.
pub open spec fn split_commands(s: Seq<char>) -> Seq<Seq<char>> {
    split_go(s, seq![], false, false, seq![])
}

// ─── Classifying one command ───────────────────────────────────────────────

pub open spec fn destructive_patterns() -> Seq<Seq<char>> {
    seq![
        "rm -rf"@, "rm -fr"@, "git push --force"@, "git push -f"@, "git reset --hard"@,
        "git clean -f"@, "drop table"@, "drop database"@, "dd if="@, "mkfs"@, "truncate"@,
        "format "@, "fdisk"@, ":(){ :|:& };:"@,
    ]
}

pub open spec fn safe_commands() -> Seq<Seq<char>> {
    seq![
        "ls"@, "cat"@, "head"@, "tail"@, "echo"@, "pwd"@, "whoami"@, "date"@, "wc"@, "sort"@,
        "uniq"@, "diff"@, "find"@, "grep"@, "rg"@, "which"@, "type"@, "file"@, "stat"@, "du"@,
        "df"@, "env"@, "printenv"@, "uname"@, "hostname"@, "tree"@, "less"@, "more"@,
    ]
}

pub open spec fn safe_prefixes() -> Seq<Seq<char>> {
    seq![
        "git log"@, "git status"@, "git diff"@, "git show"@, "git branch"@, "git remote"@,
        "cargo build"@, "cargo test"@, "cargo check"@, "cargo clippy"@, "cargo fmt"@,
        "cargo run"@, "npm test"@, "npm run"@, "python -c"@, "rustc --version"@,
        "node --version"@, "cd "@,
    ]
}

/// Some destructive pattern occurs in the lowercased command.
pub open spec fn is_destructive(c: Seq<char>) -> bool {
    exists|i: int|
        0 <= i < destructive_patterns().len() && has_sub(lower_text(c), destructive_patterns()[i])
}

/// The command starts with a known read-only word or a safe prefix (or is a
/// safe prefix without its trailing space).
pub open spec fn is_known_safe(c: Seq<char>) -> bool {
    ||| safe_commands().contains(first_word(c))
    ||| exists|i: int|
        0 <= i < safe_prefixes().len() && (starts_with(c, safe_prefixes()[i]) || c
            == trim(safe_prefixes()[i]))
}

/// Danger level of one (sub-)command: blank is safe; a destructive pattern
/// anywhere wins; then known-safe commands; everything else is moderate.
pub open spec fn classify_spec(cmd: Seq<char>) -> DangerLevel {
    let c = trim(cmd);
    if c.len() == 0 {
        DangerLevel::Safe
    } else if is_destructive(c) {
        DangerLevel::Destructive
    } else if is_known_safe(c) {
        DangerLevel::Safe
    } else {
        DangerLevel::Moderate
    }
}

/// The highest danger level among `cmds`, `Safe` when there are none.
pub open spec fn max_classified(cmds: Seq<Seq<char>>) -> DangerLevel
    decreases cmds.len(),
{
    if cmds.len() == 0 {
        DangerLevel::Safe
    } else {
        max_danger(max_classified(cmds.drop_last()), classify_spec(cmds.last()))
    }
}

/// Danger level of a command line: the highest among its sub-commands.
pub open spec fn danger_spec(command: Seq<char>) -> DangerLevel {
    max_classified(split_commands(command))
}

fn list_destructive() -> (v: Vec<&'static str>)
    ensures
        v@.map_values(|p: &str| p@) == destructive_patterns(),
{
    let v = vec![
        "rm -rf", "rm -fr", "git push --force", "git push -f", "git reset --hard",
        "git clean -f", "drop table", "drop database", "dd if=", "mkfs", "truncate",
        "format ", "fdisk", ":(){ :|:& };:",
    ];
    assert(v@.map_values(|p: &str| p@) =~= destructive_patterns());
    v
}

fn list_safe_commands() -> (v: Vec<&'static str>)
    ensures
        v@.map_values(|p: &str| p@) == safe_commands(),
{
    let v = vec![
        "ls", "cat", "head", "tail", "echo", "pwd", "whoami", "date", "wc", "sort", "uniq",
        "diff", "find", "grep", "rg", "which", "type", "file", "stat", "du", "df", "env",
        "printenv", "uname", "hostname", "tree", "less", "more",
    ];
    assert(v@.map_values(|p: &str| p@) =~= safe_commands());
    v
}

fn list_safe_prefixes() -> (v: Vec<&'static str>)
    ensures
        v@.map_values(|p: &str| p@) == safe_prefixes(),
{
    let v = vec![
        "git log", "git status", "git diff", "git show", "git branch", "git remote",
        "cargo build", "cargo test", "cargo check", "cargo clippy", "cargo fmt", "cargo run",
        "npm test", "npm run", "python -c", "rustc --version", "node --version", "cd ",
    ];
    assert(v@.map_values(|p: &str| p@) =~= safe_prefixes());
    v
}

/// Appends the trimmed `cur` to `acc` unless it is blank.
fn push_trimmed(acc: &mut Vec<String>, cur: &Vec<char>)
    ensures
        final(acc)@.map_values(|s: String| s@) == push_piece(
            old(acc)@.map_values(|s: String| s@),
            cur@,
        ),
{
    let (lo, hi) = trim_bounds(cur);
    if lo < hi {
        let piece = string_of(cur, lo, hi);
        acc.push(piece);
        assert(acc@.map_values(|s: String| s@) =~= old(acc)@.map_values(|s: String| s@).push(
            trim(cur@),
        ));
    } else {
        assert(acc@.map_values(|s: String| s@) =~= old(acc)@.map_values(|s: String| s@));
    }
}

/// Splits a command line into sub-commands at `;`, `&&` and `||` that stand
/// outside quotes; each is trimmed and blank ones are dropped.
pub fn split_shell_commands(command: &str) -> (out: Vec<String>)
    ensures
        out@.map_values(|s: String| s@) == split_commands(command@),
{
    let v = chars_of(command);
    let mut results: Vec<String> = Vec::new();
    let mut current: Vec<char> = Vec::new();
    let mut sq = false;
    let mut dq = false;
    let mut i: usize = 0;
    assert(v@.skip(0) =~= v@);
    assert(results@.map_values(|s: String| s@) =~= Seq::<Seq<char>>::empty());
    while i < v.len()
        invariant
            i <= v.len(),
            split_commands(command@) == split_go(
                v@.skip(i as int),
                current@,
                sq,
                dq,
                results@.map_values(|s: String| s@),
            ),
            v@ == command@,
        decreases v.len() - i,
    {
        let ghost rest = v@.skip(i as int);
        let c = v[i];
        assert(rest[0] == c);
        assert(rest.drop_first() =~= v@.skip(i + 1));
        if c == '\'' && !dq {
            sq = !sq;
            current.push(c);
            i += 1;
        } else if c == '"' && !sq {
            dq = !dq;
            current.push(c);
            i += 1;
        } else if (c == '&' || c == '|') && !sq && !dq {
            if i + 1 < v.len() && v[i + 1] == c {
                assert(rest[1] == v@[i + 1]);
                assert(rest.skip(2) =~= v@.skip(i + 2));
                push_trimmed(&mut results, &current);
                current = Vec::new();
                i += 2;
            } else {
                current.push(c);
                i += 1;
            }
        } else if c == ';' && !sq && !dq {
            push_trimmed(&mut results, &current);
            current = Vec::new();
            i += 1;
        } else {
            current.push(c);
            i += 1;
        }
    }
    push_trimmed(&mut results, &current);
    results
}

fn any_destructive(lower: &str) -> (b: bool)
    ensures
        b == exists|j: int|
            0 <= j < destructive_patterns().len() && has_sub(lower@, destructive_patterns()[j]),
{
    let pats = list_destructive();
    let mut i: usize = 0;
    while i < pats.len()
        invariant
            i <= pats.len(),
            pats@.map_values(|p: &str| p@) == destructive_patterns(),
            forall|j: int| 0 <= j < i ==> !has_sub(lower@, destructive_patterns()[j]),
        decreases pats.len() - i,
    {
        assert(pats@.map_values(|p: &str| p@)[i as int] == pats@[i as int]@);
        if str_contains(lower, pats[i]) {
            assert(has_sub(lower@, destructive_patterns()[i as int]));
            return true;
        }
        i += 1;
    }
    false
}

fn is_safe_command(word: &str) -> (b: bool)
    ensures
        b == safe_commands().contains(word@),
{
    let cmds = list_safe_commands();
    let mut i: usize = 0;
    while i < cmds.len()
        invariant
            i <= cmds.len(),
            cmds@.map_values(|p: &str| p@) == safe_commands(),
            forall|j: int| 0 <= j < i ==> safe_commands()[j] != word@,
        decreases cmds.len() - i,
    {
        assert(cmds@.map_values(|p: &str| p@)[i as int] == cmds@[i as int]@);
        if str_eq(word, cmds[i]) {
            assert(safe_commands()[i as int] == word@);
            return true;
        }
        i += 1;
    }
    false
}

fn has_safe_prefix(t: &str) -> (b: bool)
    ensures
        b == exists|j: int|
            0 <= j < safe_prefixes().len() && (starts_with(t@, safe_prefixes()[j]) || t@ == trim(
                safe_prefixes()[j],
            )),
{
    let prefixes = list_safe_prefixes();
    let mut i: usize = 0;
    while i < prefixes.len()
        invariant
            i <= prefixes.len(),
            prefixes@.map_values(|p: &str| p@) == safe_prefixes(),
            forall|j: int|
                0 <= j < i ==> !(starts_with(t@, safe_prefixes()[j]) || t@ == trim(
                    safe_prefixes()[j],
                )),
        decreases prefixes.len() - i,
    {
        assert(prefixes@.map_values(|p: &str| p@)[i as int] == prefixes@[i as int]@);
        let p = prefixes[i];
        let pt = trim_str(p);
        if str_starts_with(t, p) || str_eq(t, pt.as_str()) {
            assert(starts_with(t@, safe_prefixes()[i as int]) || t@ == trim(safe_prefixes()[i as int]));
            return true;
        }
        i += 1;
    }
    false
}

/// Danger level of a single command.
pub fn classify_single_command(cmd: &str) -> (d: DangerLevel)
    ensures
        d == classify_spec(cmd@),
{
    let t = trim_str(cmd);
    if t.as_str().is_empty() {
        return DangerLevel::Safe;
    }
    let lower = to_lowercase(t.as_str());
    if any_destructive(lower.as_str()) {
        return DangerLevel::Destructive;
    }
    let word = first_word_of(t.as_str());
    if is_safe_command(word.as_str()) || has_safe_prefix(t.as_str()) {
        return DangerLevel::Safe;
    }
    DangerLevel::Moderate
}

/// Danger level of a command line: the highest among its sub-commands.
pub fn classify_bash_danger(command: &str) -> (d: DangerLevel)
    ensures
        d == danger_spec(command@),
{
    let subs = split_shell_commands(command);
    let ghost views = subs@.map_values(|s: String| s@);
    let mut level = DangerLevel::Safe;
    let mut i: usize = 0;
    assert(views.take(0) =~= Seq::<Seq<char>>::empty());
    while i < subs.len()
        invariant
            i <= subs.len(),
            views == subs@.map_values(|s: String| s@),
            level == max_classified(views.take(i as int)),
        decreases subs.len() - i,
    {
        let d = classify_single_command(subs[i].as_str());
        assert(views.take(i + 1).drop_last() =~= views.take(i as int));
        assert(views[i as int] == subs@[i as int]@);
        if rank_of(d) > rank_of(level) {
            level = d;
        }
        i += 1;
    }
    assert(views.take(subs.len() as int) =~= views);
    level
}

fn rank_of(d: DangerLevel) -> (r: u8)
    ensures
        r == rank(d),
{
    match d {
        DangerLevel::Safe => 0,
        DangerLevel::Moderate => 1,
        DangerLevel::Destructive => 2,
    }
}

// ─── Asking, allowing, denying ─────────────────────────────────────────────

/// The command text a Bash call carries (`input["command"]`, or empty).
pub open spec fn command_of(input: &ToolInput) -> Seq<char> {
    match input.str_arg("command"@) {
        Some(c) => c,
        None => ""@,
    }
}

/// When a tool call needs the user's confirmation: never for read-only tools;
/// on `High` always; on `Medium` for Bash unless the command is safe, and for
/// every other tool; on `Low` only for destructive Bash commands.
pub open spec fn should_ask_spec(
    tool_name: Seq<char>,
    input: &ToolInput,
    is_read_only: bool,
    strictness: PermissionStrictness,
) -> bool {
    if is_read_only {
        false
    } else {
        match strictness {
            PermissionStrictness::High => true,
            PermissionStrictness::Medium => if tool_name == "Bash"@ {
                rank(danger_spec(command_of(input))) >= 1
            } else {
                true
            },
            PermissionStrictness::Low => if tool_name == "Bash"@ {
                rank(danger_spec(command_of(input))) >= 2
            } else {
                false
            },
        }
    }
}

/// Whether a tool invocation should prompt the user for permission.
pub fn should_ask_permission(
    tool_name: &str,
    input: &ToolInput,
    is_read_only: bool,
    strictness: PermissionStrictness,
) -> (b: bool)
    ensures
        b == should_ask_spec(tool_name@, input, is_read_only, strictness),
{
    if is_read_only {
        return false;
    }
    match strictness {
        PermissionStrictness::High => true,
        PermissionStrictness::Medium => {
            if str_eq(tool_name, "Bash") {
                let command = match input.get_str("command") {
                    Some(c) => c,
                    None => "",
                };
                let danger = classify_bash_danger(command);
                rank_of(danger) >= 1
            } else {
                true
            }
        },
        PermissionStrictness::Low => {
            if str_eq(tool_name, "Bash") {
                let command = match input.get_str("command") {
                    Some(c) => c,
                    None => "",
                };
                let danger = classify_bash_danger(command);
                rank_of(danger) >= 2
            } else {
                false
            }
        },
    }
}

/// A rule applies to `tool_name` when it names that tool or `*`, and carries
/// no pattern or the pattern `*`.
pub open spec fn rule_matches(rule: PermissionRule, tool_name: Seq<char>) -> bool {
    (rule.tool_name@ == tool_name || rule.tool_name@ == "*"@) && match rule.pattern {
        None => true,
        Some(p) => p@ == "*"@,
    }
}

/// Position of the first rule in `rules` that applies to `tool_name`, or
/// `rules.len()`.
pub open spec fn first_match(rules: Seq<PermissionRule>, tool_name: Seq<char>) -> int
    decreases rules.len(),
{
    if rules.len() == 0 {
        0
    } else if rule_matches(rules[0], tool_name) {
        0
    } else {
        1 + first_match(rules.drop_first(), tool_name)
    }
}

pub proof fn lemma_first_match(rules: Seq<PermissionRule>, tool_name: Seq<char>, k: int)
    requires
        0 <= k <= rules.len(),
        forall|i: int| 0 <= i < k ==> !rule_matches(rules[i], tool_name),
        k == rules.len() || rule_matches(rules[k], tool_name),
    ensures
        first_match(rules, tool_name) == k,
    decreases k,
{
    if k > 0 {
        lemma_first_match(rules.drop_first(), tool_name, k - 1);
    }
}

/// The message a deny rule produces.
pub open spec fn deny_message(rule: PermissionRule) -> Seq<char> {
    "Denied by rule: "@ + rule.tool_name@
}

/// The decision for a tool call: the first applicable deny rule denies; else
/// an applicable allow rule allows; else bypass mode allows; else the call
/// is allowed unless it needs confirmation, in which case the user is asked.
pub open spec fn check_spec(
    tool_name: Seq<char>,
    input: &ToolInput,
    is_read_only: bool,
    mode: PermissionMode,
    allow_rules: Seq<PermissionRule>,
    deny_rules: Seq<PermissionRule>,
    strictness: PermissionStrictness,
) -> PermissionResult {
    let d = first_match(deny_rules, tool_name);
    if d < deny_rules.len() {
        PermissionResult::Deny(arbitrary())
    } else if first_match(allow_rules, tool_name) < allow_rules.len() {
        PermissionResult::Allow
    } else if mode == PermissionMode::Bypass {
        PermissionResult::Allow
    } else if should_ask_spec(tool_name, input, is_read_only, strictness) {
        PermissionResult::Ask
    } else {
        PermissionResult::Allow
    }
}

/// Whether `rule` applies to `tool_name`.
pub fn matches_rule(rule: &PermissionRule, tool_name: &str) -> (b: bool)
    ensures
        b == rule_matches(*rule, tool_name@),
{
    if !str_eq(rule.tool_name.as_str(), tool_name) && !str_eq(rule.tool_name.as_str(), "*") {
        return false;
    }
    match &rule.pattern {
        None => true,
        Some(p) => str_eq(p.as_str(), "*"),
    }
}

fn find_rule(rules: &[PermissionRule], tool_name: &str) -> (r: usize)
    ensures
        r == first_match(rules@, tool_name@),
        r <= rules@.len(),
{
    let mut i: usize = 0;
    while i < rules.len()
        invariant
            i <= rules@.len(),
            forall|j: int| 0 <= j < i ==> !rule_matches(rules@[j], tool_name@),
        decreases rules@.len() - i,
    {
        if matches_rule(&rules[i], tool_name) {
            proof {
                lemma_first_match(rules@, tool_name@, i as int);
            }
            return i;
        }
        i += 1;
    }
    proof {
        lemma_first_match(rules@, tool_name@, i as int);
    }
    i
}

/// Decides whether a tool call is allowed, denied, or needs confirmation.
pub fn check_tool_permission(
    tool_name: &str,
    input: &ToolInput,
    is_read_only: bool,
    mode: PermissionMode,
    allow_rules: &[PermissionRule],
    deny_rules: &[PermissionRule],
    strictness: PermissionStrictness,
) -> (r: PermissionResult)
    ensures
        match r {
            PermissionResult::Deny(msg) => {
                let d = first_match(deny_rules@, tool_name@);
                &&& d < deny_rules@.len()
                &&& msg@ == deny_message(deny_rules@[d])
            },
            _ => r == check_spec(
                tool_name@,
                input,
                is_read_only,
                mode,
                allow_rules@,
                deny_rules@,
                strictness,
            ),
        },
        (r is Deny) == (first_match(deny_rules@, tool_name@) < deny_rules@.len()),
{
    let d = find_rule(deny_rules, tool_name);
    if d < deny_rules.len() {
        let mut msg = owned("Denied by rule: ");
        push_str(&mut msg, deny_rules[d].tool_name.as_str());
        return PermissionResult::Deny(msg);
    }
    let a = find_rule(allow_rules, tool_name);
    if a < allow_rules.len() {
        return PermissionResult::Allow;
    }
    match mode {
        PermissionMode::Bypass => PermissionResult::Allow,
        _ => {
            if should_ask_permission(tool_name, input, is_read_only, strictness) {
                PermissionResult::Ask
            } else {
                PermissionResult::Allow
            }
        },
    }
}

/// The argument text of a string argument, or `""`.
pub open spec fn str_or_empty(input: &ToolInput, key: Seq<char>) -> Seq<char> {
    match input.str_arg(key) {
        Some(s) => s,
        None => seq![],
    }
}

/// The one-line summary of a tool call shown when asking for permission.
pub open spec fn input_summary(tool_name: Seq<char>, input: &ToolInput) -> Seq<char> {
    if tool_name == "Bash"@ {
        str_or_empty(input, "command"@)
    } else if tool_name == "Read"@ || tool_name == "Edit"@ {
        str_or_empty(input, "file_path"@)
    } else if tool_name == "Write"@ {
        str_or_empty(input, "file_path"@) + " ("@ + crate::text::decimal(
            crate::text::blen(str_or_empty(input, "content"@)),
        ) + " bytes)"@
    } else if tool_name == "Glob"@ {
        str_or_empty(input, "pattern"@)
    } else if tool_name == "Grep"@ {
        str_or_empty(input, "pattern"@) + " in "@ + match input.str_arg("path"@) {
            Some(p) => p,
            None => "."@,
        }
    } else {
        crate::text::prefix(input.rendered@, 200)
    }
}

fn arg_or_empty<'a>(input: &'a ToolInput, key: &str) -> (s: &'a str)
    ensures
        s@ == str_or_empty(input, key@),
{
    proof {
        reveal_strlit("");
    }
    match input.get_str(key) {
        Some(s) => s,
        None => "",
    }
}

/// The one-line summary of a tool call shown when asking for permission.
pub fn summarize_input(tool_name: &str, input: &ToolInput) -> (out: String)
    ensures
        out@ == input_summary(tool_name@, input),
{
    if str_eq(tool_name, "Bash") {
        owned(arg_or_empty(input, "command"))
    } else if str_eq(tool_name, "Read") || str_eq(tool_name, "Edit") {
        owned(arg_or_empty(input, "file_path"))
    } else if str_eq(tool_name, "Write") {
        let mut out = owned(arg_or_empty(input, "file_path"));
        push_str(&mut out, " (");
        let c = arg_or_empty(input, "content");
        let n = crate::text::decimal_string(c.len() as u64);
        push_str(&mut out, n.as_str());
        push_str(&mut out, " bytes)");
        out
    } else if str_eq(tool_name, "Glob") {
        owned(arg_or_empty(input, "pattern"))
    } else if str_eq(tool_name, "Grep") {
        let mut out = owned(arg_or_empty(input, "pattern"));
        push_str(&mut out, " in ");
        match input.get_str("path") {
            Some(p) => push_str(&mut out, p),
            None => push_str(&mut out, "."),
        }
        out
    } else {
        crate::text::prefix_chars(input.rendered.as_str(), 200)
    }
}

/// Whether the user's reply to a permission prompt grants it: `y` or `Y`,
/// surrounding whitespace aside.
pub fn permission_granted(reply: &str) -> (b: bool)
    ensures
        b == (trim(reply@) == "y"@ || trim(reply@) == "Y"@),
{
    let t = trim_str(reply);
    str_eq(t.as_str(), "y") || str_eq(t.as_str(), "Y")
}

// ─── Laws ───────────────────────────────────────────────────────────────────

/// Read-only tools never ask, whatever the strictness.
pub proof fn law_read_only_never_asks(tool_name: Seq<char>, input: &ToolInput, strictness: PermissionStrictness)
    ensures
        !should_ask_spec(tool_name, input, true, strictness),
{
}

/// A stricter setting asks whenever a laxer one does: `Low` asks only where
/// `Medium` asks, and `Medium` only where `High` asks.
pub proof fn law_stricter_asks_more(tool_name: Seq<char>, input: &ToolInput, is_read_only: bool)
    ensures
        should_ask_spec(tool_name, input, is_read_only, PermissionStrictness::Low) ==> should_ask_spec(
            tool_name,
            input,
            is_read_only,
            PermissionStrictness::Medium,
        ),
        should_ask_spec(tool_name, input, is_read_only, PermissionStrictness::Medium) ==> should_ask_spec(
            tool_name,
            input,
            is_read_only,
            PermissionStrictness::High,
        ),
{
}

/// A compound command is as dangerous as its most dangerous part: no part
/// is more dangerous than the whole.
pub proof fn law_compound_danger_is_the_maximum(cmds: Seq<Seq<char>>, i: int)
    requires
        0 <= i < cmds.len(),
    ensures
        rank(classify_spec(cmds[i])) <= rank(max_classified(cmds)),
    decreases cmds.len(),
{
    if i < cmds.len() - 1 {
        law_compound_danger_is_the_maximum(cmds.drop_last(), i);
        assert(cmds.drop_last()[i] == cmds[i]);
    }
}

/// Splitting from any state lists what was split before, then the rest.
proof fn lemma_split_acc(rest: Seq<char>, cur: Seq<char>, sq: bool, dq: bool, acc: Seq<Seq<char>>)
    ensures
        split_go(rest, cur, sq, dq, acc) == acc + split_go(rest, cur, sq, dq, seq![]),
    decreases rest.len(),
{
    if rest.len() == 0 {
        assert(push_piece(acc, cur) =~= acc + push_piece(seq![], cur));
    } else {
        let c = rest[0];
        if c == '\'' && !dq {
            lemma_split_acc(rest.drop_first(), cur.push(c), !sq, dq, acc);
        } else if c == '"' && !sq {
            lemma_split_acc(rest.drop_first(), cur.push(c), sq, !dq, acc);
        } else if (c == '&' || c == '|') && !sq && !dq {
            if rest.len() > 1 && rest[1] == c {
                lemma_split_acc(rest.skip(2), seq![], sq, dq, push_piece(acc, cur));
                lemma_split_acc(rest.skip(2), seq![], sq, dq, push_piece(seq![], cur));
                assert(push_piece(acc, cur) =~= acc + push_piece(seq![], cur));
                assert(push_piece(acc, cur) + split_go(rest.skip(2), seq![], sq, dq, seq![]) =~= acc + (
                push_piece(seq![], cur) + split_go(rest.skip(2), seq![], sq, dq, seq![])));
            } else {
                lemma_split_acc(rest.drop_first(), cur.push(c), sq, dq, acc);
            }
        } else if c == ';' && !sq && !dq {
            lemma_split_acc(rest.drop_first(), seq![], sq, dq, push_piece(acc, cur));
            lemma_split_acc(rest.drop_first(), seq![], sq, dq, push_piece(seq![], cur));
            assert(push_piece(acc, cur) =~= acc + push_piece(seq![], cur));
            assert(push_piece(acc, cur) + split_go(rest.drop_first(), seq![], sq, dq, seq![]) =~= acc + (
            push_piece(seq![], cur) + split_go(rest.drop_first(), seq![], sq, dq, seq![])));
        } else {
            lemma_split_acc(rest.drop_first(), cur.push(c), sq, dq, acc);
        }
    }
}

/// A separator between two sub-commands: `;`, `&&` or `||`.
pub open spec fn is_separator(sep: Seq<char>) -> bool {
    sep == seq![';'] || sep == seq!['&', '&'] || sep == seq!['|', '|']
}

/// `a` holds no quote, and does not end with the separator's character (a
/// third `&` or `|` would pair with the first of the separator).
pub open spec fn joinable(a: Seq<char>, sep: Seq<char>) -> bool {
    &&& forall|i: int| 0 <= i < a.len() ==> a[i] != '\'' && a[i] != '"'
    &&& (a.len() > 0 && sep != seq![';'] ==> a.last() != sep[0])
}

/// Outside quotes, a separator after `a` ends what `a` was building.
proof fn lemma_split_separator(a: Seq<char>, sep: Seq<char>, b: Seq<char>, cur: Seq<char>, acc: Seq<Seq<char>>)
    requires
        is_separator(sep),
        joinable(a, sep),
    ensures
        split_go(a + sep + b, cur, false, false, acc) == split_go(
            b,
            seq![],
            false,
            false,
            split_go(a, cur, false, false, acc),
        ),
    decreases a.len(),
{
    let r = a + sep + b;
    if a.len() == 0 {
        assert(r =~= sep + b);
        assert(r[0] == sep[0]);
        if sep == seq![';'] {
            assert(r.drop_first() =~= b);
        } else {
            assert(r[1] == sep[1]);
            assert(r.skip(2) =~= b);
        }
    } else {
        let c = a[0];
        assert(r[0] == c);
        assert(r.drop_first() =~= a.drop_first() + sep + b);
        assert(joinable(a.drop_first(), sep)) by {
            assert forall|i: int| 0 <= i < a.drop_first().len() implies a.drop_first()[i] != '\''
                && a.drop_first()[i] != '"' by {
                assert(a.drop_first()[i] == a[i + 1]);
            }
            if a.drop_first().len() > 0 {
                assert(a.drop_first().last() == a.last());
            }
        }
        if (c == '&' || c == '|') {
            if a.len() > 1 && a[1] == c {
                assert(r[1] == c);
                assert(r.skip(2) =~= a.skip(2) + sep + b);
                assert(joinable(a.skip(2), sep)) by {
                    assert forall|i: int| 0 <= i < a.skip(2).len() implies a.skip(2)[i] != '\'' && a.skip(
                        2,
                    )[i] != '"' by {
                        assert(a.skip(2)[i] == a[i + 2]);
                    }
                    if a.skip(2).len() > 0 {
                        assert(a.skip(2).last() == a.last());
                    }
                }
                lemma_split_separator(a.skip(2), sep, b, seq![], push_piece(acc, cur));
            } else {
                if a.len() > 1 {
                    assert(r[1] == a[1]);
                } else {
                    assert(r[1] == sep[0]);
                    assert(a.last() == c);
                }
                lemma_split_separator(a.drop_first(), sep, b, cur.push(c), acc);
            }
        } else if c == ';' {
            lemma_split_separator(a.drop_first(), sep, b, seq![], push_piece(acc, cur));
        } else {
            lemma_split_separator(a.drop_first(), sep, b, cur.push(c), acc);
        }
    }
}

proof fn lemma_max_classified_concat(x: Seq<Seq<char>>, y: Seq<Seq<char>>)
    ensures
        rank(max_classified(x + y)) == if rank(max_classified(x)) >= rank(max_classified(y)) {
            rank(max_classified(x))
        } else {
            rank(max_classified(y))
        },
    decreases y.len(),
{
    if y.len() == 0 {
        assert(x + y =~= x);
    } else {
        assert((x + y).drop_last() =~= x + y.drop_last());
        assert((x + y).last() == y.last());
        lemma_max_classified_concat(x, y.drop_last());
    }
}

/// Commands joined by `;`, `&&` or `||` are split apart: where `a` holds no
/// quote (and does not end with the separator's character), the
/// sub-commands of `a`, the separator, then `b` are those of `a` followed by
/// those of `b`; the line is exactly as dangerous as the more dangerous of
/// the two, so never less dangerous than either.
pub proof fn law_separators_split(a: Seq<char>, sep: Seq<char>, b: Seq<char>)
    requires
        is_separator(sep),
        joinable(a, sep),
    ensures
        split_commands(a + sep + b) == split_commands(a) + split_commands(b),
        rank(danger_spec(a + sep + b)) == if rank(danger_spec(a)) >= rank(danger_spec(b)) {
            rank(danger_spec(a))
        } else {
            rank(danger_spec(b))
        },
        rank(danger_spec(a)) <= rank(danger_spec(a + sep + b)),
        rank(danger_spec(b)) <= rank(danger_spec(a + sep + b)),
{
    lemma_split_separator(a, sep, b, seq![], seq![]);
    lemma_split_acc(b, seq![], false, false, split_commands(a));
    lemma_max_classified_concat(split_commands(a), split_commands(b));
}

/// A command that is not blank and contains (in lower case) any of the
/// destructive patterns is destructive, whatever else it says.
pub proof fn law_destructive_patterns_win(cmd: Seq<char>, p: Seq<char>)
    requires
        trim(cmd).len() > 0,
        p == "rm -rf"@ || p == "rm -fr"@ || p == "git push --force"@ || p == "git push -f"@ || p == "git reset --hard"@ || p == "git clean -f"@ || p == "drop table"@ || p == "drop database"@ || p == "dd if="@ || p == "mkfs"@ || p == "truncate"@ || p == "format "@ || p == "fdisk"@ || p == ":(){ :|:& };:"@,
        has_sub(lower_text(trim(cmd)), p),
    ensures
        classify_spec(cmd) == DangerLevel::Destructive,
{
    if p == "rm -rf"@ {
        assert(destructive_patterns()[0] == p);
        assert(0 <= 0 < destructive_patterns().len() && has_sub(lower_text(trim(cmd)), destructive_patterns()[0]));
    } else if p == "rm -fr"@ {
        assert(destructive_patterns()[1] == p);
        assert(0 <= 1 < destructive_patterns().len() && has_sub(lower_text(trim(cmd)), destructive_patterns()[1]));
    } else if p == "git push --force"@ {
        assert(destructive_patterns()[2] == p);
        assert(0 <= 2 < destructive_patterns().len() && has_sub(lower_text(trim(cmd)), destructive_patterns()[2]));
    } else if p == "git push -f"@ {
        assert(destructive_patterns()[3] == p);
        assert(0 <= 3 < destructive_patterns().len() && has_sub(lower_text(trim(cmd)), destructive_patterns()[3]));
    } else if p == "git reset --hard"@ {
        assert(destructive_patterns()[4] == p);
        assert(0 <= 4 < destructive_patterns().len() && has_sub(lower_text(trim(cmd)), destructive_patterns()[4]));
    } else if p == "git clean -f"@ {
        assert(destructive_patterns()[5] == p);
        assert(0 <= 5 < destructive_patterns().len() && has_sub(lower_text(trim(cmd)), destructive_patterns()[5]));
    } else if p == "drop table"@ {
        assert(destructive_patterns()[6] == p);
        assert(0 <= 6 < destructive_patterns().len() && has_sub(lower_text(trim(cmd)), destructive_patterns()[6]));
    } else if p == "drop database"@ {
        assert(destructive_patterns()[7] == p);
        assert(0 <= 7 < destructive_patterns().len() && has_sub(lower_text(trim(cmd)), destructive_patterns()[7]));
    } else if p == "dd if="@ {
        assert(destructive_patterns()[8] == p);
        assert(0 <= 8 < destructive_patterns().len() && has_sub(lower_text(trim(cmd)), destructive_patterns()[8]));
    } else if p == "mkfs"@ {
        assert(destructive_patterns()[9] == p);
        assert(0 <= 9 < destructive_patterns().len() && has_sub(lower_text(trim(cmd)), destructive_patterns()[9]));
    } else if p == "truncate"@ {
        assert(destructive_patterns()[10] == p);
        assert(0 <= 10 < destructive_patterns().len() && has_sub(lower_text(trim(cmd)), destructive_patterns()[10]));
    } else if p == "format "@ {
        assert(destructive_patterns()[11] == p);
        assert(0 <= 11 < destructive_patterns().len() && has_sub(lower_text(trim(cmd)), destructive_patterns()[11]));
    } else if p == "fdisk"@ {
        assert(destructive_patterns()[12] == p);
        assert(0 <= 12 < destructive_patterns().len() && has_sub(lower_text(trim(cmd)), destructive_patterns()[12]));
    } else if p == ":(){ :|:& };:"@ {
        assert(destructive_patterns()[13] == p);
        assert(0 <= 13 < destructive_patterns().len() && has_sub(lower_text(trim(cmd)), destructive_patterns()[13]));
    }
}

/// A command without a destructive pattern whose first word is a read-only
/// command is safe.
pub proof fn law_read_only_commands_are_safe(cmd: Seq<char>, p: Seq<char>)
    requires
        trim(cmd).len() > 0,
        !is_destructive(trim(cmd)),
        first_word(trim(cmd)) == p,
        p == "ls"@ || p == "cat"@ || p == "head"@ || p == "tail"@ || p == "echo"@ || p == "pwd"@ || p == "whoami"@ || p == "date"@ || p == "wc"@ || p == "sort"@ || p == "uniq"@ || p == "diff"@ || p == "find"@ || p == "grep"@ || p == "rg"@ || p == "which"@ || p == "type"@ || p == "file"@ || p == "stat"@ || p == "du"@ || p == "df"@ || p == "env"@ || p == "printenv"@ || p == "uname"@ || p == "hostname"@ || p == "tree"@ || p == "less"@ || p == "more"@,
    ensures
        classify_spec(cmd) == DangerLevel::Safe,
{
    if p == "ls"@ {
        assert(safe_commands()[0] == p);
        assert(safe_commands().contains(p));
    } else if p == "cat"@ {
        assert(safe_commands()[1] == p);
        assert(safe_commands().contains(p));
    } else if p == "head"@ {
        assert(safe_commands()[2] == p);
        assert(safe_commands().contains(p));
    } else if p == "tail"@ {
        assert(safe_commands()[3] == p);
        assert(safe_commands().contains(p));
    } else if p == "echo"@ {
        assert(safe_commands()[4] == p);
        assert(safe_commands().contains(p));
    } else if p == "pwd"@ {
        assert(safe_commands()[5] == p);
        assert(safe_commands().contains(p));
    } else if p == "whoami"@ {
        assert(safe_commands()[6] == p);
        assert(safe_commands().contains(p));
    } else if p == "date"@ {
        assert(safe_commands()[7] == p);
        assert(safe_commands().contains(p));
    } else if p == "wc"@ {
        assert(safe_commands()[8] == p);
        assert(safe_commands().contains(p));
    } else if p == "sort"@ {
        assert(safe_commands()[9] == p);
        assert(safe_commands().contains(p));
    } else if p == "uniq"@ {
        assert(safe_commands()[10] == p);
        assert(safe_commands().contains(p));
    } else if p == "diff"@ {
        assert(safe_commands()[11] == p);
        assert(safe_commands().contains(p));
    } else if p == "find"@ {
        assert(safe_commands()[12] == p);
        assert(safe_commands().contains(p));
    } else if p == "grep"@ {
        assert(safe_commands()[13] == p);
        assert(safe_commands().contains(p));
    } else if p == "rg"@ {
        assert(safe_commands()[14] == p);
        assert(safe_commands().contains(p));
    } else if p == "which"@ {
        assert(safe_commands()[15] == p);
        assert(safe_commands().contains(p));
    } else if p == "type"@ {
        assert(safe_commands()[16] == p);
        assert(safe_commands().contains(p));
    } else if p == "file"@ {
        assert(safe_commands()[17] == p);
        assert(safe_commands().contains(p));
    } else if p == "stat"@ {
        assert(safe_commands()[18] == p);
        assert(safe_commands().contains(p));
    } else if p == "du"@ {
        assert(safe_commands()[19] == p);
        assert(safe_commands().contains(p));
    } else if p == "df"@ {
        assert(safe_commands()[20] == p);
        assert(safe_commands().contains(p));
    } else if p == "env"@ {
        assert(safe_commands()[21] == p);
        assert(safe_commands().contains(p));
    } else if p == "printenv"@ {
        assert(safe_commands()[22] == p);
        assert(safe_commands().contains(p));
    } else if p == "uname"@ {
        assert(safe_commands()[23] == p);
        assert(safe_commands().contains(p));
    } else if p == "hostname"@ {
        assert(safe_commands()[24] == p);
        assert(safe_commands().contains(p));
    } else if p == "tree"@ {
        assert(safe_commands()[25] == p);
        assert(safe_commands().contains(p));
    } else if p == "less"@ {
        assert(safe_commands()[26] == p);
        assert(safe_commands().contains(p));
    } else if p == "more"@ {
        assert(safe_commands()[27] == p);
        assert(safe_commands().contains(p));
    }
}

/// A command without a destructive pattern that starts with one of the
/// known safe prefixes is safe.
pub proof fn law_safe_prefixes_are_safe(cmd: Seq<char>, p: Seq<char>)
    requires
        trim(cmd).len() > 0,
        !is_destructive(trim(cmd)),
        starts_with(trim(cmd), p),
        p == "git log"@ || p == "git status"@ || p == "git diff"@ || p == "git show"@ || p == "git branch"@ || p == "git remote"@ || p == "cargo build"@ || p == "cargo test"@ || p == "cargo check"@ || p == "cargo clippy"@ || p == "cargo fmt"@ || p == "cargo run"@ || p == "npm test"@ || p == "npm run"@ || p == "python -c"@ || p == "rustc --version"@ || p == "node --version"@ || p == "cd "@,
    ensures
        classify_spec(cmd) == DangerLevel::Safe,
{
    if p == "git log"@ {
        assert(safe_prefixes()[0] == p);
        assert(0 <= 0 < safe_prefixes().len() && starts_with(trim(cmd), safe_prefixes()[0]));
    } else if p == "git status"@ {
        assert(safe_prefixes()[1] == p);
        assert(0 <= 1 < safe_prefixes().len() && starts_with(trim(cmd), safe_prefixes()[1]));
    } else if p == "git diff"@ {
        assert(safe_prefixes()[2] == p);
        assert(0 <= 2 < safe_prefixes().len() && starts_with(trim(cmd), safe_prefixes()[2]));
    } else if p == "git show"@ {
        assert(safe_prefixes()[3] == p);
        assert(0 <= 3 < safe_prefixes().len() && starts_with(trim(cmd), safe_prefixes()[3]));
    } else if p == "git branch"@ {
        assert(safe_prefixes()[4] == p);
        assert(0 <= 4 < safe_prefixes().len() && starts_with(trim(cmd), safe_prefixes()[4]));
    } else if p == "git remote"@ {
        assert(safe_prefixes()[5] == p);
        assert(0 <= 5 < safe_prefixes().len() && starts_with(trim(cmd), safe_prefixes()[5]));
    } else if p == "cargo build"@ {
        assert(safe_prefixes()[6] == p);
        assert(0 <= 6 < safe_prefixes().len() && starts_with(trim(cmd), safe_prefixes()[6]));
    } else if p == "cargo test"@ {
        assert(safe_prefixes()[7] == p);
        assert(0 <= 7 < safe_prefixes().len() && starts_with(trim(cmd), safe_prefixes()[7]));
    } else if p == "cargo check"@ {
        assert(safe_prefixes()[8] == p);
        assert(0 <= 8 < safe_prefixes().len() && starts_with(trim(cmd), safe_prefixes()[8]));
    } else if p == "cargo clippy"@ {
        assert(safe_prefixes()[9] == p);
        assert(0 <= 9 < safe_prefixes().len() && starts_with(trim(cmd), safe_prefixes()[9]));
    } else if p == "cargo fmt"@ {
        assert(safe_prefixes()[10] == p);
        assert(0 <= 10 < safe_prefixes().len() && starts_with(trim(cmd), safe_prefixes()[10]));
    } else if p == "cargo run"@ {
        assert(safe_prefixes()[11] == p);
        assert(0 <= 11 < safe_prefixes().len() && starts_with(trim(cmd), safe_prefixes()[11]));
    } else if p == "npm test"@ {
        assert(safe_prefixes()[12] == p);
        assert(0 <= 12 < safe_prefixes().len() && starts_with(trim(cmd), safe_prefixes()[12]));
    } else if p == "npm run"@ {
        assert(safe_prefixes()[13] == p);
        assert(0 <= 13 < safe_prefixes().len() && starts_with(trim(cmd), safe_prefixes()[13]));
    } else if p == "python -c"@ {
        assert(safe_prefixes()[14] == p);
        assert(0 <= 14 < safe_prefixes().len() && starts_with(trim(cmd), safe_prefixes()[14]));
    } else if p == "rustc --version"@ {
        assert(safe_prefixes()[15] == p);
        assert(0 <= 15 < safe_prefixes().len() && starts_with(trim(cmd), safe_prefixes()[15]));
    } else if p == "node --version"@ {
        assert(safe_prefixes()[16] == p);
        assert(0 <= 16 < safe_prefixes().len() && starts_with(trim(cmd), safe_prefixes()[16]));
    } else if p == "cd "@ {
        assert(safe_prefixes()[17] == p);
        assert(0 <= 17 < safe_prefixes().len() && starts_with(trim(cmd), safe_prefixes()[17]));
    }
}

/// Inside a quote, every character but the closing quote stays in the
/// sub-command.
proof fn lemma_split_in_quotes(x: Seq<char>, q: char, rest: Seq<char>, cur: Seq<char>, acc: Seq<Seq<char>>)
    requires
        q == '\'' || q == '"',
        forall|i: int| 0 <= i < x.len() ==> x[i] != q,
    ensures
        split_go(x + seq![q] + rest, cur, q == '\'', q == '"', acc) == split_go(rest, cur + x + seq![q], false, false, acc),
    decreases x.len(),
{
    let r = x + seq![q] + rest;
    if x.len() == 0 {
        assert(r[0] == q);
        assert(r.drop_first() =~= rest);
        assert(cur + x + seq![q] =~= cur.push(q));
    } else {
        assert(r[0] == x[0]);
        assert(r.drop_first() =~= x.drop_first() + seq![q] + rest);
        assert forall|i: int| 0 <= i < x.drop_first().len() implies x.drop_first()[i] != q by {
            assert(x.drop_first()[i] == x[i + 1]);
        }
        lemma_split_in_quotes(x.drop_first(), q, rest, cur.push(x[0]), acc);
        assert(cur.push(x[0]) + x.drop_first() + seq![q] =~= cur + x + seq![q]);
    }
}

/// Separators inside quotes do not split: a quoted text with no quote of
/// its kind inside is one sub-command, whatever `;`, `&&` or `||` it holds.
pub proof fn law_quoted_text_is_one_command(x: Seq<char>, q: char)
    requires
        q == '\'' || q == '"',
        forall|i: int| 0 <= i < x.len() ==> x[i] != q,
    ensures
        split_commands(seq![q] + x + seq![q]) == seq![seq![q] + x + seq![q]],
{
    let w = seq![q] + x + seq![q];
    assert(w[0] == q);
    assert(w.drop_first() =~= x + seq![q] + Seq::<char>::empty());
    lemma_split_in_quotes(x, q, seq![], seq![q], seq![]);
    assert(seq![q] + x + seq![q] =~= w);
    assert(!is_ws(q));
    assert(trim_start(w) == w);
    assert(w.last() == q);
    assert(trim_end(w) == w);
}

/// A deny rule that applies decides the call, whatever the mode, the allow
/// rules and the strictness.
pub proof fn law_deny_rule_wins(
    tool_name: Seq<char>,
    input: &ToolInput,
    is_read_only: bool,
    mode: PermissionMode,
    allow_rules: Seq<PermissionRule>,
    deny_rules: Seq<PermissionRule>,
    strictness: PermissionStrictness,
    k: int,
)
    requires
        0 <= k < deny_rules.len(),
        rule_matches(deny_rules[k], tool_name),
    ensures
        check_spec(tool_name, input, is_read_only, mode, allow_rules, deny_rules, strictness) is Deny,
{
    lemma_first_match_bound(deny_rules, tool_name, k);
}

/// Where `rules[k]` applies, the first applicable rule is at or before `k`.
pub proof fn lemma_first_match_bound(rules: Seq<PermissionRule>, tool_name: Seq<char>, k: int)
    requires
        0 <= k < rules.len(),
        rule_matches(rules[k], tool_name),
    ensures
        first_match(rules, tool_name) <= k,
    decreases k,
{
    if k > 0 && !rule_matches(rules[0], tool_name) {
        lemma_first_match_bound(rules.drop_first(), tool_name, k - 1);
        assert(rules.drop_first()[k - 1] == rules[k]);
    }
}

/// Without an applicable deny rule, bypass mode allows every call.
pub proof fn law_bypass_allows(
    tool_name: Seq<char>,
    input: &ToolInput,
    is_read_only: bool,
    allow_rules: Seq<PermissionRule>,
    deny_rules: Seq<PermissionRule>,
    strictness: PermissionStrictness,
)
    requires
        first_match(deny_rules, tool_name) >= deny_rules.len(),
    ensures
        check_spec(tool_name, input, is_read_only, PermissionMode::Bypass, allow_rules, deny_rules, strictness)
            == PermissionResult::Allow,
{
}

} // verus!
