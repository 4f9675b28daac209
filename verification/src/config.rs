//! Settings: defaults, permission rules, and how the layers of configuration
//! (user file, project file, environment, command line) combine. Reading the
//! files and the environment is left to the caller, which hands over what
//! it found.

use vstd::prelude::*;
use crate::hooks::{event_lists, merge, HooksConfig};
use crate::model_router::Intensity;
use crate::permissions::{PermissionMode, PermissionStrictness};
use crate::text::{lower_text, str_eq, to_lowercase};

verus! {

/// A user rule allowing or denying a tool (`*` for every tool); a pattern
/// other than `*` makes the rule never apply.
#[derive(Debug)]
pub struct PermissionRule {
    pub tool_name: String,
    pub pattern: Option<String>,
}

/// The settings of a session (the spending budget and the price table are
/// kept beside them by the caller).
pub struct Config {
    pub model: String,
    pub api_key: String,
    pub base_url: String,
    pub permission_mode: PermissionMode,
    pub permission_strictness: PermissionStrictness,
    pub max_turns: usize,
    pub max_tokens: u32,
    pub allow_rules: Vec<PermissionRule>,
    pub deny_rules: Vec<PermissionRule>,
    pub config_dir: String,
    pub cwd: String,
    pub verbose: bool,
    pub auto_model_routing: bool,
    pub intensity: Intensity,
    pub hooks: HooksConfig,
}

pub fn default_model() -> (s: String)
    ensures
        s@ == "trinity-large-thinking"@,
{
    "trinity-large-thinking".to_owned()
}

pub fn default_base_url() -> (s: String)
    ensures
        s@ == "https://api.arcee.ai"@,
{
    "https://api.arcee.ai".to_owned()
}

pub fn default_max_turns() -> (n: usize)
    ensures
        n == 200,
{
    200
}

pub fn default_max_tokens() -> (n: u32)
    ensures
        n == 16384,
{
    16384
}

pub fn default_auto_routing() -> (b: bool)
    ensures
        b,
{
    true
}

/// The settings of the user's `config.json`, with the file's defaults for
/// what it leaves out.
pub struct FileConfig {
    pub model: String,
    pub permission_mode: PermissionMode,
    pub permission_strictness: PermissionStrictness,
    pub max_turns: usize,
    pub max_tokens: u32,
    pub allow_rules: Vec<PermissionRule>,
    pub deny_rules: Vec<PermissionRule>,
    pub auto_model_routing: bool,
    pub intensity: Intensity,
    pub hooks: HooksConfig,
}

/// What the caller found in the configuration files and the environment.
pub struct ConfigSources {
    /// The user's `config.json`, when it exists and parses.
    pub user_file: Option<FileConfig>,
    /// Its `api_key` string, when it has one.
    pub user_api_key: Option<String>,
    /// The project file's `permission_mode` string.
    pub project_mode: Option<String>,
    /// The project file's `permission_strictness` string.
    pub project_strictness: Option<String>,
    /// The project file's `hooks`, when they parse.
    pub project_hooks: Option<HooksConfig>,
    pub env_api_key: Option<String>,
    pub env_base_url: Option<String>,
    pub env_model: Option<String>,
    pub env_strictness: Option<String>,
}

/// The command-line settings that configuration reads.
pub struct CliSettings {
    pub model: Option<String>,
    pub permission_mode: Option<PermissionMode>,
    pub permission_strictness: Option<PermissionStrictness>,
    pub max_turns: Option<usize>,
    pub no_auto_route: bool,
    pub verbose: bool,
}

/// A permission mode by its (lower-case) name.
pub open spec fn mode_named(s: Seq<char>) -> Option<PermissionMode> {
    if s == "default"@ {
        Some(PermissionMode::Default)
    } else if s == "auto"@ {
        Some(PermissionMode::Auto)
    } else if s == "plan"@ {
        Some(PermissionMode::Plan)
    } else if s == "bypass"@ {
        Some(PermissionMode::Bypass)
    } else {
        None
    }
}

/// A strictness by its (lower-case) name.
pub open spec fn strictness_word(s: Seq<char>) -> Option<PermissionStrictness> {
    if s == "high"@ {
        Some(PermissionStrictness::High)
    } else if s == "medium"@ {
        Some(PermissionStrictness::Medium)
    } else if s == "low"@ {
        Some(PermissionStrictness::Low)
    } else {
        None
    }
}

/// The strictness an environment value asks for: `high` or `low` in any
/// case, anything else medium.
pub open spec fn env_strictness_of(s: Seq<char>) -> PermissionStrictness {
    let l = lower_text(s);
    if l == "high"@ {
        PermissionStrictness::High
    } else if l == "low"@ {
        PermissionStrictness::Low
    } else {
        PermissionStrictness::Medium
    }
}

fn parse_mode(s: &str) -> (r: Option<PermissionMode>)
    ensures
        r == mode_named(s@),
{
    if str_eq(s, "default") {
        Some(PermissionMode::Default)
    } else if str_eq(s, "auto") {
        Some(PermissionMode::Auto)
    } else if str_eq(s, "plan") {
        Some(PermissionMode::Plan)
    } else if str_eq(s, "bypass") {
        Some(PermissionMode::Bypass)
    } else {
        None
    }
}

fn parse_strictness(s: &str) -> (r: Option<PermissionStrictness>)
    ensures
        r == strictness_word(s@),
{
    if str_eq(s, "high") {
        Some(PermissionStrictness::High)
    } else if str_eq(s, "medium") {
        Some(PermissionStrictness::Medium)
    } else if str_eq(s, "low") {
        Some(PermissionStrictness::Low)
    } else {
        None
    }
}

pub open spec fn opt_or(o: Option<String>, d: Seq<char>) -> Seq<char> {
    match o {
        Some(s) => s@,
        None => d,
    }
}

impl Config {
    /// The defaults, in `config_dir` and `cwd`.
    pub fn defaults(config_dir: String, cwd: String) -> (c: Config)
        ensures
            c.model@ == "trinity-large-thinking"@,
            c.api_key@.len() == 0,
            c.base_url@ == "https://api.arcee.ai"@,
            c.permission_mode == PermissionMode::Default,
            c.permission_strictness == PermissionStrictness::Medium,
            c.max_turns == 200,
            c.max_tokens == 16384,
            c.allow_rules@.len() == 0,
            c.deny_rules@.len() == 0,
            c.config_dir == config_dir,
            c.cwd == cwd,
            !c.verbose,
            c.auto_model_routing,
            c.intensity == Intensity::Medium,
            forall|i: int| 0 <= i < 11 ==> (#[trigger] event_lists(c.hooks)[i]).len() == 0,
    {
        Config {
            model: default_model(),
            api_key: String::new(),
            base_url: default_base_url(),
            permission_mode: PermissionMode::Default,
            permission_strictness: PermissionStrictness::Medium,
            max_turns: default_max_turns(),
            max_tokens: default_max_tokens(),
            allow_rules: Vec::new(),
            deny_rules: Vec::new(),
            config_dir,
            cwd,
            verbose: false,
            auto_model_routing: default_auto_routing(),
            intensity: Intensity::Medium,
            hooks: HooksConfig::default(),
        }
    }

    /// Combines the layers: defaults, then the user file, then the project
    /// file (mode, strictness, and hooks added to the user's), then the
    /// environment, then the command line; zero turns become one and zero
    /// tokens the default.
    pub fn load(config_dir: String, cwd: String, src: ConfigSources, cli: CliSettings) -> (c: Config)
        ensures
            ({
                let f = src.user_file;
                let model0: Seq<char> = match f {
                    Some(fc) => fc.model@,
                    None => "trinity-large-thinking"@,
                };
                let model1 = opt_or(src.env_model, model0);
                c.model@ == opt_or(cli.model, model1)
            }),
            c.api_key@ == opt_or(
                src.env_api_key,
                match src.user_api_key {
                    Some(k) => if k@.len() > 0 { k@ } else { seq![] },
                    None => seq![],
                },
            ),
            c.base_url@ == opt_or(src.env_base_url, "https://api.arcee.ai"@),
            ({
                let m0 = match src.user_file {
                    Some(fc) => fc.permission_mode,
                    None => PermissionMode::Default,
                };
                let m1 = match src.project_mode {
                    Some(s) => match mode_named(s@) {
                        Some(m) => m,
                        None => m0,
                    },
                    None => m0,
                };
                c.permission_mode == match cli.permission_mode {
                    Some(m) => m,
                    None => m1,
                }
            }),
            ({
                let s0 = match src.user_file {
                    Some(fc) => fc.permission_strictness,
                    None => PermissionStrictness::Medium,
                };
                let s1 = match src.project_strictness {
                    Some(s) => match strictness_word(s@) {
                        Some(v) => v,
                        None => s0,
                    },
                    None => s0,
                };
                let s2 = match src.env_strictness {
                    Some(s) => env_strictness_of(s@),
                    None => s1,
                };
                c.permission_strictness == match cli.permission_strictness {
                    Some(v) => v,
                    None => s2,
                }
            }),
            ({
                let t0: usize = match src.user_file {
                    Some(fc) => fc.max_turns,
                    None => 200,
                };
                let t1 = match cli.max_turns {
                    Some(t) => t,
                    None => t0,
                };
                c.max_turns == if t1 == 0 { 1 } else { t1 }
            }),
            ({
                let k0: u32 = match src.user_file {
                    Some(fc) => fc.max_tokens,
                    None => 16384,
                };
                c.max_tokens == if k0 == 0 { 16384 } else { k0 }
            }),
            c.allow_rules@ == match src.user_file {
                Some(fc) => fc.allow_rules@,
                None => Seq::<PermissionRule>::empty(),
            },
            c.deny_rules@ == match src.user_file {
                Some(fc) => fc.deny_rules@,
                None => Seq::<PermissionRule>::empty(),
            },
            c.config_dir == config_dir,
            c.cwd == cwd,
            c.verbose == cli.verbose,
            c.auto_model_routing == (!cli.no_auto_route && match src.user_file {
                Some(fc) => fc.auto_model_routing,
                None => true,
            }),
            c.intensity == match src.user_file {
                Some(fc) => fc.intensity,
                None => Intensity::Medium,
            },
            forall|i: int| 0 <= i < 11 ==> #[trigger] event_lists(c.hooks)[i] == (match src.user_file {
                Some(fc) => event_lists(fc.hooks)[i],
                None => Seq::empty(),
            }) + match src.project_hooks {
                Some(h) => event_lists(h)[i],
                None => Seq::empty(),
            },
    {
        let (fmodel, fmode, fstrict, fturns, ftokens, fallow, fdeny, froute, fint, fhooks) = match src.user_file {
            Some(fc) => (
                fc.model,
                fc.permission_mode,
                fc.permission_strictness,
                fc.max_turns,
                fc.max_tokens,
                fc.allow_rules,
                fc.deny_rules,
                fc.auto_model_routing,
                fc.intensity,
                fc.hooks,
            ),
            None => (
                default_model(),
                PermissionMode::Default,
                PermissionStrictness::Medium,
                default_max_turns(),
                default_max_tokens(),
                Vec::new(),
                Vec::new(),
                default_auto_routing(),
                Intensity::Medium,
                HooksConfig::default(),
            ),
        };
        let model = pick(cli.model, pick(src.env_model, fmodel));
        let file_key = match src.user_api_key {
            Some(k) => if !k.as_str().is_empty() { k } else { String::new() },
            None => String::new(),
        };
        let api_key = pick(src.env_api_key, file_key);
        let base_url = pick(src.env_base_url, default_base_url());
        let mode1 = match src.project_mode {
            Some(s) => match parse_mode(s.as_str()) {
                Some(m) => m,
                None => fmode,
            },
            None => fmode,
        };
        let permission_mode = match cli.permission_mode {
            Some(m) => m,
            None => mode1,
        };
        let strict1 = match src.project_strictness {
            Some(s) => match parse_strictness(s.as_str()) {
                Some(v) => v,
                None => fstrict,
            },
            None => fstrict,
        };
        let strict2 = match src.env_strictness {
            Some(s) => {
                let l = to_lowercase(s.as_str());
                if str_eq(l.as_str(), "high") {
                    PermissionStrictness::High
                } else if str_eq(l.as_str(), "low") {
                    PermissionStrictness::Low
                } else {
                    PermissionStrictness::Medium
                }
            },
            None => strict1,
        };
        let permission_strictness = match cli.permission_strictness {
            Some(v) => v,
            None => strict2,
        };
        let turns1 = match cli.max_turns {
            Some(t) => t,
            None => fturns,
        };
        let max_turns = if turns1 == 0 { 1 } else { turns1 };
        let max_tokens = if ftokens == 0 { default_max_tokens() } else { ftokens };
        let mut hooks = fhooks;
        let ghost hooks_before = hooks;
        match src.project_hooks {
            Some(h) => merge(&mut hooks, h),
            None => {
                assert forall|i: int| 0 <= i < 11 implies #[trigger] event_lists(hooks)[i]
                    == event_lists(hooks_before)[i] + Seq::<crate::hooks::HookGroup>::empty() by {
                    assert(event_lists(hooks_before)[i] + Seq::<crate::hooks::HookGroup>::empty()
                        =~= event_lists(hooks_before)[i]);
                }
            },
        }
        proof {
            reveal_strlit("");
        }
        Config {
            model,
            api_key,
            base_url,
            permission_mode,
            permission_strictness,
            max_turns,
            max_tokens,
            allow_rules: fallow,
            deny_rules: fdeny,
            config_dir,
            cwd,
            verbose: cli.verbose,
            auto_model_routing: froute && !cli.no_auto_route,
            intensity: fint,
            hooks,
        }
    }
}

fn pick(o: Option<String>, d: String) -> (r: String)
    ensures
        r@ == opt_or(o, d@),
{
    match o {
        Some(s) => s,
        None => d,
    }
}

} // verus!
