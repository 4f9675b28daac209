//! Skill: a named prompt, taken from the project's `.arcee/skills` directory
//! or from the bundled set, expanded into the conversation. This module checks
//! the name, parses the skill file (an optional `---` frontmatter of
//! `key: value` lines, then the prompt) and builds the expanded prompt;
//! reading the files is left to the caller.

use vstd::prelude::*;
use super::Early;
use crate::text::{
    chars_of, first_at, has_sub, idx_of, index_of_char, is_whitespace, is_ws, join, lines,
    lemma_trim_start_skip, occurs_at, owned, push_joined, push_str, split_lines, starts_with,
    str_contains, str_eq, str_starts_with, string_of, trim, trim_start, trim_str, views,
    find_from, lemma_first_at_unique,
};
use crate::tool_input::ToolInput;
use crate::tool_output::{out_view, BodyV, OutV, ToolOutput};

verus! {

// ─── Frontmatter ────────────────────────────────────────────────────────────

/// `s` without its leading `"` characters.
pub open spec fn drop_lead_quotes(s: Seq<char>) -> Seq<char>
    decreases s.len(),
{
    if s.len() > 0 && s[0] == '"' {
        drop_lead_quotes(s.drop_first())
    } else {
        s
    }
}

/// `s` without its trailing `"` characters.
pub open spec fn drop_trail_quotes(s: Seq<char>) -> Seq<char>
    decreases s.len(),
{
    if s.len() > 0 && s.last() == '"' {
        drop_trail_quotes(s.drop_last())
    } else {
        s
    }
}

/// `s` with the `"` characters at both ends removed (`trim_matches('"')`).
pub open spec fn unquote(s: Seq<char>) -> Seq<char> {
    drop_trail_quotes(drop_lead_quotes(s))
}

/// A frontmatter line `key: value` as its trimmed key and its trimmed,
/// unquoted value; `None` for a line without `:`.
pub open spec fn meta_line(l: Seq<char>) -> Option<(Seq<char>, Seq<char>)> {
    let k = idx_of(l, ':');
    if 0 <= k < l.len() {
        Some((trim(l.take(k)), unquote(trim(l.skip(k + 1)))))
    } else {
        None
    }
}

/// The entries of the frontmatter lines `ls`, in order.
pub open spec fn meta_entries(ls: Seq<Seq<char>>) -> Seq<(Seq<char>, Seq<char>)>
    decreases ls.len(),
{
    if ls.len() == 0 {
        seq![]
    } else {
        let prev = meta_entries(ls.drop_last());
        match meta_line(ls.last()) {
            Some(e) => prev.push(e),
            None => prev,
        }
    }
}

/// The value of the last entry named `key` (a later line overrides an
/// earlier one).
pub open spec fn lookup(es: Seq<(Seq<char>, Seq<char>)>, key: Seq<char>) -> Option<Seq<char>>
    decreases es.len(),
{
    if es.len() == 0 {
        None
    } else if es.last().0 == key {
        Some(es.last().1)
    } else {
        lookup(es.drop_last(), key)
    }
}

/// The file opens a frontmatter block that a `\n---` closes.
pub open spec fn has_frontmatter(c: Seq<char>) -> bool {
    starts_with(c, "---\n"@) && has_sub(c.skip(4), "\n---"@)
}

/// Where the closing `\n---` starts, counted after the opening `---\n`.
pub open spec fn frontmatter_end(c: Seq<char>) -> int {
    choose|e: int| first_at(c.skip(4), "\n---"@, e)
}

/// The metadata of a skill file.
pub open spec fn skill_meta(c: Seq<char>) -> Seq<(Seq<char>, Seq<char>)> {
    if has_frontmatter(c) {
        meta_entries(lines(c.subrange(4, 4 + frontmatter_end(c))))
    } else {
        seq![]
    }
}

/// The prompt of a skill file: what follows the frontmatter, without leading
/// whitespace, or the whole file when it has none.
pub open spec fn skill_body(c: Seq<char>) -> Seq<char> {
    if has_frontmatter(c) {
        trim_start(c.skip(4 + frontmatter_end(c) + 4))
    } else {
        c
    }
}

pub proof fn lemma_lead_quotes(s: Seq<char>, k: int)
    requires
        0 <= k <= s.len(),
        forall|i: int| 0 <= i < k ==> s[i] == '"',
        k == s.len() || s[k] != '"',
    ensures
        drop_lead_quotes(s) == s.skip(k),
    decreases k,
{
    if k == 0 {
        assert(s.skip(0) =~= s);
    } else {
        let t = s.drop_first();
        lemma_lead_quotes(t, k - 1);
        assert(t.skip(k - 1) =~= s.skip(k));
    }
}

pub proof fn lemma_trail_quotes(s: Seq<char>, k: int)
    requires
        0 <= k <= s.len(),
        forall|i: int| k <= i < s.len() ==> s[i] == '"',
        k == 0 || s[k - 1] != '"',
    ensures
        drop_trail_quotes(s) == s.take(k),
    decreases s.len() - k,
{
    if k == s.len() {
        assert(s.take(k) =~= s);
    } else {
        let t = s.drop_last();
        lemma_trail_quotes(t, k);
        assert(t.take(k) =~= s.take(k));
    }
}

/// `s` with the `"` characters at both ends removed.
pub fn unquote_str(s: &str) -> (out: String)
    ensures
        out@ == unquote(s@),
{
    let v = chars_of(s);
    let n = v.len();
    let mut lo: usize = 0;
    while lo < n && v[lo] == '"'
        invariant
            lo <= n == v.len(),
            forall|i: int| 0 <= i < lo ==> v@[i] == '"',
        decreases n - lo,
    {
        lo += 1;
    }
    proof {
        lemma_lead_quotes(v@, lo as int);
    }
    let ghost t = v@.skip(lo as int);
    let mut hi: usize = n;
    while hi > lo && v[hi - 1] == '"'
        invariant
            lo <= hi <= n == v.len(),
            t == v@.skip(lo as int),
            forall|i: int| hi <= i < n ==> v@[i] == '"',
        decreases hi,
    {
        hi -= 1;
    }
    proof {
        let k = hi - lo;
        assert forall|i: int| k <= i < t.len() implies t[i] == '"' by {
            assert(t[i] == v@[i + lo]);
        }
        lemma_trail_quotes(t, k as int);
        assert(t.take(k as int) =~= v@.subrange(lo as int, hi as int));
    }
    string_of(&v, lo, hi)
}

/// A frontmatter line as its key and value (`split_once(':')`).
pub fn parse_meta_line(line: &str) -> (r: Option<(String, String)>)
    ensures
        match r {
            Some(e) => meta_line(line@) == Some((e.0@, e.1@)),
            None => meta_line(line@) is None,
        },
{
    let v = chars_of(line);
    let k = index_of_char(&v, ':', 0);
    assert(v@.skip(0) =~= v@);
    if k == v.len() {
        return None;
    }
    let key_raw = string_of(&v, 0, k);
    let key = trim_str(key_raw.as_str());
    let val_raw = string_of(&v, k + 1, v.len());
    let val_t = trim_str(val_raw.as_str());
    let val = unquote_str(val_t.as_str());
    proof {
        assert(v@.take(k as int) =~= v@.subrange(0, k as int));
        assert(v@.skip(k + 1) =~= v@.subrange(k + 1, v@.len() as int));
    }
    Some((key, val))
}

/// The metadata of a skill file: its frontmatter entries in order.
pub struct SkillMeta {
    pub entries: Vec<(String, String)>,
}

impl View for SkillMeta {
    type V = Seq<(Seq<char>, Seq<char>)>;

    open spec fn view(&self) -> Seq<(Seq<char>, Seq<char>)> {
        self.entries@.map_values(|e: (String, String)| (e.0@, e.1@))
    }
}

impl SkillMeta {
    /// The value given for `key`; a later line overrides an earlier one.
    pub fn get(&self, key: &str) -> (r: Option<&str>)
        ensures
            match r {
                Some(s) => lookup(self@, key@) == Some(s@),
                None => lookup(self@, key@) is None,
            },
    {
        let mut i = self.entries.len();
        assert(self@.take(i as int) =~= self@);
        while i > 0
            invariant
                i <= self.entries@.len(),
                lookup(self@, key@) == lookup(self@.take(i as int), key@),
            decreases i,
        {
            i -= 1;
            let ghost pre = self@.take(i + 1);
            assert(pre.drop_last() =~= self@.take(i as int));
            assert(pre.last() == self@[i as int]);
            if str_eq(self.entries[i].0.as_str(), key) {
                return Some(self.entries[i].1.as_str());
            }
        }
        None
    }

    /// Whether the file had no metadata.
    pub fn is_empty(&self) -> (b: bool)
        ensures
            b == (self@.len() == 0),
    {
        self.entries.len() == 0
    }
}

/// Splits a skill file into its metadata and its prompt.
pub fn parse_skill_file(content: &str) -> (r: (SkillMeta, String))
    ensures
        r.0@ == skill_meta(content@),
        r.1@ == skill_body(content@),
{
    let mut entries: Vec<(String, String)> = Vec::new();
    let ghost c = content@;
    let ghost pat = "\n---"@;
    if !str_starts_with(content, "---\n") {
        proof {
            reveal_strlit("---\n");
            assert(!has_frontmatter(c));
        }
        let m = SkillMeta { entries };
        assert(m@ =~= Seq::<(Seq<char>, Seq<char>)>::empty());
        return (m, owned(content));
    }
    let v = chars_of(content);
    let p = chars_of("\n---");
    proof {
        reveal_strlit("---\n");
        reveal_strlit("\n---");
    }
    let found = find_from(&v, &p, 4);
    let i = match found {
        Some(i) => i,
        None => {
            proof {
                if has_sub(c.skip(4), pat) {
                    let j = choose|j: int| occurs_at(c.skip(4), pat, j);
                    assert(c.skip(4).subrange(j, j + 4) =~= c.subrange(j + 4, j + 8));
                    assert(occurs_at(v@, p@, j + 4));
                }
            }
            let m = SkillMeta { entries };
            assert(m@ =~= Seq::<(Seq<char>, Seq<char>)>::empty());
            return (m, owned(content));
        },
    };
    proof {
        let s = c.skip(4);
        assert(s.subrange(i - 4, i as int) =~= c.subrange(i as int, i + 4));
        assert(occurs_at(s, pat, i - 4));
        assert forall|j: int| 0 <= j < i - 4 implies !occurs_at(s, pat, j) by {
            if occurs_at(s, pat, j) {
                assert(s.subrange(j, j + 4) =~= c.subrange(j + 4, j + 8));
                assert(occurs_at(v@, p@, j + 4));
            }
        }
        assert(first_at(s, pat, i - 4));
        assert(has_frontmatter(c));
        lemma_first_at_unique(s, pat, i - 4, frontmatter_end(c));
    }
    let front = string_of(&v, 4, i);
    let ls = split_lines(front.as_str());
    let mut j: usize = 0;
    while j < ls.len()
        invariant
            j <= ls@.len(),
            views(ls@) == lines(front@),
            entries@.map_values(|e: (String, String)| (e.0@, e.1@)) == meta_entries(
                views(ls@).take(j as int),
            ),
        decreases ls@.len() - j,
    {
        let ghost before = entries@;
        let parsed = parse_meta_line(ls[j].as_str());
        proof {
            assert(views(ls@).take(j + 1).drop_last() =~= views(ls@).take(j as int));
            assert(views(ls@).take(j + 1).last() == ls@[j as int]@);
        }
        match parsed {
            Some(e) => {
                entries.push(e);
                assert(entries@.map_values(|e: (String, String)| (e.0@, e.1@)) =~= before.map_values(
                    |e: (String, String)| (e.0@, e.1@),
                ).push((entries@.last().0@, entries@.last().1@)));
            },
            None => {},
        }
        j += 1;
    }
    assert(views(ls@).take(ls@.len() as int) =~= views(ls@));
    let n = v.len();
    let mut lo = i + 4;
    while lo < n && is_whitespace(v[lo])
        invariant
            i + 4 <= lo <= n == v.len(),
            forall|k: int| i + 4 <= k < lo ==> is_ws(v@[k]),
        decreases n - lo,
    {
        lo += 1;
    }
    proof {
        let t = v@.skip(i + 4);
        assert forall|k: int| 0 <= k < lo - (i + 4) implies is_ws(t[k]) by {
            assert(t[k] == v@[k + i + 4]);
        }
        if lo < n {
            assert(t[lo - (i + 4)] == v@[lo as int]);
        }
        lemma_trim_start_skip(t, lo - (i + 4));
        assert(t.skip(lo - (i + 4)) =~= v@.subrange(lo as int, n as int));
    }
    let body = string_of(&v, lo, n);
    (SkillMeta { entries }, body)
}

// ─── The tool ───────────────────────────────────────────────────────────────

pub struct SkillTool;

/// What a Skill call asks for.
pub struct SkillRequest {
    pub skill: String,
    pub args: String,
}

/// A skill name is a simple identifier: not empty, with no path separator
/// and no `..`.
pub open spec fn skill_name_ok(n: Seq<char>) -> bool {
    &&& n.len() > 0
    &&& !has_sub(n, "/"@)
    &&& !has_sub(n, "\\"@)
    &&& !has_sub(n, ".."@)
}

/// The skills that come with the program.
pub open spec fn bundled_names() -> Seq<Seq<char>> {
    seq!["commit"@, "review-pr"@, "simplify"@]
}

/// `names` followed by each of `extra` that is not already listed.
pub open spec fn add_unique(names: Seq<Seq<char>>, extra: Seq<Seq<char>>) -> Seq<Seq<char>>
    decreases extra.len(),
{
    if extra.len() == 0 {
        names
    } else {
        let prev = add_unique(names, extra.drop_last());
        if prev.contains(extra.last()) {
            prev
        } else {
            prev.push(extra.last())
        }
    }
}

/// Position of the last `.` in `s`, or -1.
pub open spec fn last_dot(s: Seq<char>) -> int
    decreases s.len(),
{
    if s.len() == 0 {
        -1
    } else if s.last() == '.' {
        s.len() - 1
    } else {
        last_dot(s.drop_last())
    }
}

/// The skill a file in the skills directory defines: the file stem of a
/// name whose extension is `md` (a leading `.` starts no extension).
pub open spec fn skill_stem_spec(file_name: Seq<char>) -> Option<Seq<char>> {
    let k = last_dot(file_name);
    if k > 0 && file_name.skip(k + 1) == "md"@ {
        Some(file_name.take(k))
    } else {
        None
    }
}

/// The expanded prompt: a heading with the skill's description when it has
/// one, the prompt, then the arguments when there are any.
pub open spec fn expanded_prompt(
    name: Seq<char>,
    args: Seq<char>,
    meta: Seq<(Seq<char>, Seq<char>)>,
    body: Seq<char>,
) -> Seq<char> {
    let head = match lookup(meta, "description"@) {
        Some(d) => "# Skill: "@ + name + "\n"@ + d + "\n\n"@,
        None => "# Skill: "@ + name + "\n\n"@,
    };
    let tail = if args.len() > 0 {
        "\n\nArguments: "@ + args
    } else {
        seq![]
    };
    head + body + tail
}

/// The output for a loaded skill whose file holds `content`.
pub open spec fn loaded_view(name: Seq<char>, args: Seq<char>, content: Seq<char>) -> OutV {
    OutV {
        is_error: false,
        summary: Some("loaded skill '"@ + name + "'"@),
        body: BodyV::Text(expanded_prompt(name, args, skill_meta(content), skill_body(content))),
        truncation: None,
        steps: seq![],
    }
}

pub proof fn lemma_last_dot(s: Seq<char>)
    ensures
        -1 <= last_dot(s) < s.len(),
        last_dot(s) >= 0 ==> s[last_dot(s)] == '.',
        forall|i: int| last_dot(s) < i < s.len() ==> s[i] != '.',
    decreases s.len(),
{
    if s.len() > 0 && s.last() != '.' {
        let t = s.drop_last();
        lemma_last_dot(t);
        assert forall|i: int| last_dot(s) < i < s.len() implies s[i] != '.' by {
            if i < s.len() - 1 {
                assert(s[i] == t[i]);
            }
        }
    }
}

impl SkillTool {
    /// Reads the call's arguments; a missing `skill` fails the call, and
    /// missing `args` are empty.
    pub fn request(input: &ToolInput) -> (r: Result<SkillRequest, Early>)
        ensures
            match r {
                Ok(q) => input.str_arg("skill"@) == Some(q.skill@) && q.args@ == match input.str_arg(
                    "args"@,
                ) {
                    Some(a) => a,
                    None => seq![],
                },
                Err(Early::Fail(m)) => input.str_arg("skill"@) is None && m@
                    == "Missing 'skill' parameter"@,
                Err(Early::Output(_)) => false,
            },
    {
        let skill = match input.get_str("skill") {
            Some(s) => s.to_owned(),
            None => {
                return Err(Early::Fail("Missing 'skill' parameter".to_owned()));
            },
        };
        let args = match input.get_str("args") {
            Some(a) => a.to_owned(),
            None => String::new(),
        };
        Ok(SkillRequest { skill, args })
    }

    /// Whether `name` is a simple identifier.
    pub fn name_ok(name: &str) -> (b: bool)
        ensures
            b == skill_name_ok(name@),
    {
        !str_contains(name, "/") && !str_contains(name, "\\") && !str_contains(name, "..")
            && !name.is_empty()
    }

    /// The error for a name that is not a simple identifier.
    pub fn invalid_name(name: &str) -> (o: ToolOutput)
        ensures
            out_view(o) == crate::tool_output::error_view(
                "Invalid skill name '"@ + name@
                    + "'. Skill names must be simple identifiers (no path separators)."@,
            ),
    {
        let mut msg = owned("Invalid skill name '");
        push_str(&mut msg, name);
        push_str(&mut msg, "'. Skill names must be simple identifiers (no path separators).");
        let o = ToolOutput::error(msg.as_str());
        assert(views(o.next_steps@) =~= Seq::<Seq<char>>::empty());
        o
    }

    /// The error for a skill that no file defines, listing those that exist.
    pub fn unknown(name: &str, available: &Vec<String>) -> (o: ToolOutput)
        ensures
            out_view(o) == crate::tool_output::error_view(
                "Unknown skill '"@ + name@ + "'. Available skills: "@ + join(views(available@), ", "@),
            ),
    {
        let mut msg = owned("Unknown skill '");
        push_str(&mut msg, name);
        push_str(&mut msg, "'. Available skills: ");
        push_joined(&mut msg, available, ", ");
        let o = ToolOutput::error(msg.as_str());
        assert(views(o.next_steps@) =~= Seq::<Seq<char>>::empty());
        o
    }

    /// The loaded skill: the prompt of `content` under a heading, with the
    /// arguments after it.
    pub fn expand(name: &str, args: &str, content: &str) -> (o: ToolOutput)
        ensures
            out_view(o) == loaded_view(name@, args@, content@),
    {
        let (meta, body) = parse_skill_file(content);
        let mut expanded = owned("# Skill: ");
        push_str(&mut expanded, name);
        match meta.get("description") {
            Some(d) => {
                push_str(&mut expanded, "\n");
                push_str(&mut expanded, d);
                push_str(&mut expanded, "\n\n");
            },
            None => {
                push_str(&mut expanded, "\n\n");
            },
        }
        push_str(&mut expanded, body.as_str());
        let ghost before_tail = expanded@;
        if !args.is_empty() {
            push_str(&mut expanded, "\n\nArguments: ");
            push_str(&mut expanded, args);
        } else {
            assert(before_tail + Seq::<char>::empty() =~= before_tail);
        }
        let mut summary = owned("loaded skill '");
        push_str(&mut summary, name);
        push_str(&mut summary, "'");
        assert(expanded@ == expanded_prompt(name@, args@, meta@, body@));
        assert(summary@ == "loaded skill '"@ + name@ + "'"@);
        let o = ToolOutput::success().with_summary(summary.as_str()).with_text(expanded.as_str());
        proof {
            assert(views(o.next_steps@) =~= Seq::<Seq<char>>::empty());
        }
        o
    }

    /// The result of a call once the skill's text is known: `project` is the
    /// project's own file for the skill when it could be read, `bundled` the
    /// bundled text of that name, and `available` the skills that exist. An
    /// invalid name is refused before anything else; an empty text means an
    /// unknown skill.
    pub fn finish(
        req: &SkillRequest,
        project: Option<String>,
        bundled: Option<&str>,
        available: &Vec<String>,
    ) -> (o: ToolOutput)
        ensures
            !skill_name_ok(req.skill@) ==> out_view(o) == crate::tool_output::error_view(
                "Invalid skill name '"@ + req.skill@
                    + "'. Skill names must be simple identifiers (no path separators)."@,
            ),
            skill_name_ok(req.skill@) ==> {
                let content = match project {
                    Some(p) => p@,
                    None => match bundled {
                        Some(b) => b@,
                        None => seq![],
                    },
                };
                if content.len() == 0 {
                    out_view(o) == crate::tool_output::error_view(
                        "Unknown skill '"@ + req.skill@ + "'. Available skills: "@ + join(
                            views(available@),
                            ", "@,
                        ),
                    )
                } else {
                    out_view(o) == loaded_view(req.skill@, req.args@, content)
                }
            },
    {
        if !Self::name_ok(req.skill.as_str()) {
            return Self::invalid_name(req.skill.as_str());
        }
        let content = match project {
            Some(p) => p,
            None => match bundled {
                Some(b) => owned(b),
                None => String::new(),
            },
        };
        if content.as_str().is_empty() {
            Self::unknown(req.skill.as_str(), available)
        } else {
            Self::expand(req.skill.as_str(), req.args.as_str(), content.as_str())
        }
    }
}

/// Whether `name` is one of the bundled skills.
pub fn is_bundled_skill(name: &str) -> (b: bool)
    ensures
        b == bundled_names().contains(name@),
{
    proof {
        reveal_strlit("commit");
        reveal_strlit("review-pr");
        reveal_strlit("simplify");
    }
    let r = str_eq(name, "commit") || str_eq(name, "review-pr") || str_eq(name, "simplify");
    proof {
        if bundled_names().contains(name@) {
            let i = choose|i: int| 0 <= i < 3 && bundled_names()[i] == name@;
            assert(i == 0 || i == 1 || i == 2);
        }
        if r {
            assert(name@ == bundled_names()[0] || name@ == bundled_names()[1] || name@
                == bundled_names()[2]);
        }
    }
    r
}

/// The skill a file in the skills directory defines, by the file's name.
pub fn skill_stem(file_name: &str) -> (r: Option<String>)
    ensures
        match r {
            Some(s) => skill_stem_spec(file_name@) == Some(s@),
            None => skill_stem_spec(file_name@) is None,
        },
{
    let v = chars_of(file_name);
    let mut k = v.len();
    assert(v@.take(k as int) =~= v@);
    while k > 0 && v[k - 1] != '.'
        invariant
            k <= v@.len(),
            last_dot(v@) == last_dot(v@.take(k as int)),
        decreases k,
    {
        assert(v@.take(k as int).drop_last() =~= v@.take(k - 1));
        k -= 1;
    }
    if k <= 1 {
        proof {
            if k == 1 {
                assert(v@.take(1).last() == '.');
            }
        }
        return None;
    }
    let dot = k - 1;
    proof {
        assert(v@.take(k as int).last() == '.');
        assert(last_dot(v@) == dot);
        reveal_strlit("md");
    }
    let ext = string_of(&v, dot + 1, v.len());
    assert(v@.skip(dot + 1) =~= v@.subrange(dot + 1, v@.len() as int));
    if str_eq(ext.as_str(), "md") {
        assert(v@.take(dot as int) =~= v@.subrange(0, dot as int));
        Some(string_of(&v, 0, dot))
    } else {
        None
    }
}

/// The skills that exist: the bundled ones, then each project skill whose
/// name is not already listed.
pub fn available_skills(project: &Vec<String>) -> (out: Vec<String>)
    ensures
        views(out@) == add_unique(bundled_names(), views(project@)),
{
    let mut out: Vec<String> = Vec::new();
    out.push(owned("commit"));
    out.push(owned("review-pr"));
    out.push(owned("simplify"));
    assert(views(out@) =~= bundled_names());
    let mut i: usize = 0;
    while i < project.len()
        invariant
            i <= project@.len(),
            views(out@) == add_unique(bundled_names(), views(project@).take(i as int)),
        decreases project@.len() - i,
    {
        let ghost before = views(out@);
        assert(views(project@).take(i + 1).drop_last() =~= views(project@).take(i as int));
        assert(views(project@).take(i + 1).last() == project@[i as int]@);
        let mut found = false;
        let mut j: usize = 0;
        while j < out.len()
            invariant
                j <= out@.len(),
                i < project@.len(),
                before == views(out@),
                found == exists|m: int| 0 <= m < j && out@[m]@ == project@[i as int]@,
            decreases out@.len() - j,
        {
            if str_eq(out[j].as_str(), project[i].as_str()) {
                found = true;
            }
            j += 1;
        }
        proof {
            if found {
                let m = choose|m: int| 0 <= m < j && out@[m]@ == project@[i as int]@;
                assert(before[m] == project@[i as int]@);
            }
            if before.contains(project@[i as int]@) {
                let m = choose|m: int| 0 <= m < before.len() && before[m] == project@[i as int]@;
                assert(out@[m]@ == project@[i as int]@);
            }
        }
        if !found {
            out.push(project[i].clone());
            assert(views(out@) =~= before.push(project@[i as int]@));
        }
        i += 1;
    }
    assert(views(project@).take(project@.len() as int) =~= views(project@));
    out
}

} // verus!
