//! Engine configuration: what a configuration file may set, the defaults for
//! what it leaves out, and the providers of quota information.

use vstd::prelude::*;

verus! {

/// Context window assumed when the configuration names none.
pub const DEFAULT_CONTEXT_LIMIT: u32 = 200_000;

/// Seconds between usage polls when the configuration names none.
pub const DEFAULT_POLL_SECONDS: u64 = 30;

/// One source of quota information, as configured.
#[allow(inconsistent_fields)]
#[derive(Debug)]
pub enum ProviderConfig {
    /// The engine's own token estimate against a fixed limit.
    Local { name: Option<String>, limit_tokens: Option<u64> },
    /// Fixed figures.
    Manual { name: String, limit_tokens: u64, used_tokens: u64 },
    /// Figures read from a JSON document fetched over HTTP, at two JSON
    /// Pointer paths. `headers` are sent in the order given; `body`, if any,
    /// is the JSON text to send.
    HttpJson {
        name: String,
        url: String,
        method: Option<String>,
        headers: Option<Vec<(String, String)>>,
        body: Option<String>,
        used_pointer: String,
        limit_pointer: String,
    },
}

/// What a `ProviderConfig` holds, as plain text and numbers.
#[allow(inconsistent_fields)]
pub enum ProviderSpec {
    Local { name: Option<Seq<char>>, limit_tokens: Option<u64> },
    Manual { name: Seq<char>, limit_tokens: u64, used_tokens: u64 },
    HttpJson {
        name: Seq<char>,
        url: Seq<char>,
        method: Option<Seq<char>>,
        headers: Option<Seq<(Seq<char>, Seq<char>)>>,
        body: Option<Seq<char>>,
        used_pointer: Seq<char>,
        limit_pointer: Seq<char>,
    },
}

impl DeepView for ProviderConfig {
    type V = ProviderSpec;

    open spec fn deep_view(&self) -> ProviderSpec {
        match self {
            ProviderConfig::Local { name, limit_tokens } => ProviderSpec::Local {
                name: name.deep_view(),
                limit_tokens: *limit_tokens,
            },
            ProviderConfig::Manual { name, limit_tokens, used_tokens } => ProviderSpec::Manual {
                name: name@,
                limit_tokens: *limit_tokens,
                used_tokens: *used_tokens,
            },
            ProviderConfig::HttpJson {
                name,
                url,
                method,
                headers,
                body,
                used_pointer,
                limit_pointer,
            } => ProviderSpec::HttpJson {
                name: name@,
                url: url@,
                method: method.deep_view(),
                headers: headers.deep_view(),
                body: body.deep_view(),
                used_pointer: used_pointer@,
                limit_pointer: limit_pointer@,
            },
        }
    }
}

/// The keys of a configuration file, each present or left out.
#[derive(Debug)]
pub struct ConfigFile {
    pub context_limit: Option<u32>,
    pub usage_poll_seconds: Option<u64>,
    pub providers: Option<Vec<ProviderConfig>>,
}

/// What a `ConfigFile` holds, as plain text and numbers.
pub struct ConfigFileSpec {
    pub context_limit: Option<u32>,
    pub usage_poll_seconds: Option<u64>,
    pub providers: Option<Seq<ProviderSpec>>,
}

impl DeepView for ConfigFile {
    type V = ConfigFileSpec;

    open spec fn deep_view(&self) -> ConfigFileSpec {
        ConfigFileSpec {
            context_limit: self.context_limit,
            usage_poll_seconds: self.usage_poll_seconds,
            providers: self.providers.deep_view(),
        }
    }
}

/// The configuration the engine runs with.
#[derive(Debug)]
pub struct Config {
    /// Command that starts the child agent.
    pub claude_cmd: String,
    /// Size of the context window, in tokens.
    pub context_limit: u32,
    /// Seconds between usage polls, as configured.
    pub usage_poll_seconds: u64,
    /// Sources of quota information; never empty.
    pub providers: Vec<ProviderConfig>,
}

/// What a `Config` holds, as plain text and numbers.
pub struct ConfigSpec {
    pub claude_cmd: Seq<char>,
    pub context_limit: u32,
    pub usage_poll_seconds: u64,
    pub providers: Seq<ProviderSpec>,
}

impl DeepView for Config {
    type V = ConfigSpec;

    open spec fn deep_view(&self) -> ConfigSpec {
        ConfigSpec {
            claude_cmd: self.claude_cmd@,
            context_limit: self.context_limit,
            usage_poll_seconds: self.usage_poll_seconds,
            providers: self.providers.deep_view(),
        }
    }
}

/// The command for the child agent: the override if there is one, else the
/// sibling executable if there is one, else the fallback, a bare name to be
/// looked up on the search path.
pub open spec fn resolved_command(
    override_cmd: Option<Seq<char>>,
    sibling_cmd: Option<Seq<char>>,
    fallback_cmd: Seq<char>,
) -> Seq<char> {
    match override_cmd {
        Some(cmd) => cmd,
        None => match sibling_cmd {
            Some(cmd) => cmd,
            None => fallback_cmd,
        },
    }
}

/// The provider that stands in when none is configured: the engine's own
/// estimate against the context limit.
pub open spec fn fallback_provider(context_limit: u32) -> ProviderSpec {
    ProviderSpec::Local { name: Some("local-estimate"@), limit_tokens: Some(context_limit as u64) }
}

/// The providers in force: those listed, or the fallback if none is listed.
pub open spec fn effective_providers(
    listed: Option<Seq<ProviderSpec>>,
    context_limit: u32,
) -> Seq<ProviderSpec> {
    match listed {
        Some(list) => if list.len() > 0 {
            list
        } else {
            seq![fallback_provider(context_limit)]
        },
        None => seq![fallback_provider(context_limit)],
    }
}

/// The configuration that results from an optional command override, an
/// optional sibling executable, the fallback command and an optional
/// configuration file.
pub open spec fn loaded_config(
    override_cmd: Option<Seq<char>>,
    sibling_cmd: Option<Seq<char>>,
    fallback_cmd: Seq<char>,
    file: Option<ConfigFileSpec>,
) -> ConfigSpec {
    let context_limit = match file {
        Some(f) => match f.context_limit {
            Some(limit) => limit,
            None => DEFAULT_CONTEXT_LIMIT,
        },
        None => DEFAULT_CONTEXT_LIMIT,
    };
    let usage_poll_seconds = match file {
        Some(f) => match f.usage_poll_seconds {
            Some(seconds) => seconds,
            None => DEFAULT_POLL_SECONDS,
        },
        None => DEFAULT_POLL_SECONDS,
    };
    let listed = match file {
        Some(f) => f.providers,
        None => None,
    };
    ConfigSpec {
        claude_cmd: resolved_command(override_cmd, sibling_cmd, fallback_cmd),
        context_limit,
        usage_poll_seconds,
        providers: effective_providers(listed, context_limit),
    }
}

impl Config {
    /// Builds the configuration. `override_cmd` is the command named by the
    /// environment, `sibling_cmd` the executable found next to the engine's
    /// own, `file` the configuration file that was found first; each may be
    /// absent. `fallback_cmd` is the command to use when the first two are.
    /// Keys that the file leaves out take their defaults, and with no
    /// provider listed the engine's own estimate becomes the only one.
    pub fn load(
        override_cmd: Option<String>,
        sibling_cmd: Option<String>,
        fallback_cmd: String,
        file: Option<ConfigFile>,
    ) -> (config: Config)
        ensures
            config.deep_view() == loaded_config(
                override_cmd.deep_view(),
                sibling_cmd.deep_view(),
                fallback_cmd@,
                file.deep_view(),
            ),
            config.providers@.len() >= 1,
    {
        let claude_cmd = match override_cmd {
            Some(cmd) => cmd,
            None => match sibling_cmd {
                Some(cmd) => cmd,
                None => fallback_cmd,
            },
        };
        let mut context_limit: u32 = DEFAULT_CONTEXT_LIMIT;
        let mut usage_poll_seconds: u64 = DEFAULT_POLL_SECONDS;
        let mut providers: Vec<ProviderConfig> = Vec::new();
        if let Some(f) = file {
            if let Some(limit) = f.context_limit {
                context_limit = limit;
            }
            if let Some(seconds) = f.usage_poll_seconds {
                usage_poll_seconds = seconds;
            }
            if let Some(list) = f.providers {
                providers = list;
            }
        }
        if providers.len() == 0 {
            let fallback = ProviderConfig::Local {
                name: Some("local-estimate".to_owned()),
                limit_tokens: Some(context_limit as u64),
            };
            providers.push(fallback);
            proof {
                assert(providers.deep_view() =~= seq![fallback_provider(context_limit)]);
            }
        }
        Config { claude_cmd, context_limit, usage_poll_seconds, providers }
    }
}

/// Position of the first `--` among `args` at or after `from`.
pub open spec fn separator_from(args: Seq<Seq<char>>, from: int) -> Option<int>
    decreases args.len() - from,
{
    if from < 0 || from >= args.len() {
        None
    } else if args[from] == "--"@ {
        Some(from)
    } else {
        separator_from(args, from + 1)
    }
}

/// The arguments meant for the child agent: all that follow the first `--`,
/// or none if there is no `--`.
pub open spec fn forwarded_args(args: Seq<Seq<char>>) -> Seq<Seq<char>> {
    match separator_from(args, 0) {
        Some(at) => args.skip(at + 1),
        None => Seq::empty(),
    }
}

/// Splits the arguments for the child agent off the engine's command line:
/// what follows the first `--` is forwarded as it stands.
pub fn child_args(args: Vec<String>) -> (forwarded: Vec<String>)
    ensures
        forwarded.deep_view() == forwarded_args(args.deep_view()),
{
    let ghost all = args.deep_view();
    let mut rest = args;
    let separator = "--".to_owned();
    let mut i: usize = 0;
    while i < rest.len()
        invariant
            i <= rest.len(),
            all == args.deep_view(),
            all == rest.deep_view(),
            separator@ == "--"@,
            separator_from(all, 0) == separator_from(all, i as int),
        decreases rest.len() - i,
    {
        if rest[i] == separator {
            let forwarded = rest.split_off(i + 1);
            return forwarded;
        }
        i += 1;
    }
    let none: Vec<String> = Vec::new();
    none
}

} // verus!
