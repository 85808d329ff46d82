//! The quota aggregator: one state per configured provider, the requests
//! that refresh the providers polled over HTTP, and the usage entries shown
//! for all of them.

use crate::config::{Config, ProviderConfig, ProviderSpec};
use crate::json::{
    error_text, find_leaf, json_document, json_error_text, leaf_at, leaf_value, outcome_view,
    parse_document, read_leaf,
};
use crate::text::{push_arg, trim, trim_spec};
use vstd::prelude::*;

verus! {

/// Least number of seconds between two polls.
pub const MIN_POLL_SECONDS: u64 = 5;

/// A copy of `s`.
fn copy_text(s: &String) -> (copy: String)
    ensures
        copy@ == s@,
{
    s.clone()
}

/// A copy of an optional text.
fn copy_optional(s: &Option<String>) -> (copy: Option<String>)
    ensures
        copy.deep_view() == s.deep_view(),
{
    match s {
        Some(text) => Some(copy_text(text)),
        None => None,
    }
}

/// A copy of a list of header names and values.
fn copy_headers(headers: &Vec<(String, String)>) -> (copy: Vec<(String, String)>)
    ensures
        copy.deep_view() == headers.deep_view(),
{
    let mut copy: Vec<(String, String)> = Vec::new();
    let mut i: usize = 0;
    while i < headers.len()
        invariant
            i <= headers.len(),
            copy.deep_view() == headers.deep_view().take(i as int),
        decreases headers.len() - i,
    {
        let ghost before = copy.deep_view();
        let pair = (copy_text(&headers[i].0), copy_text(&headers[i].1));
        copy.push(pair);
        i += 1;
        proof {
            assert(copy.deep_view() =~= before.push(pair.deep_view()));
        }
    }
    copy
}

/// What is shown for one provider: its name, and either its figures or a
/// status text.
#[derive(Debug)]
pub struct UsageEntry {
    pub name: String,
    pub used: Option<u64>,
    pub limit: Option<u64>,
    pub status: Option<String>,
}

/// What a `UsageEntry` holds, as plain text and numbers.
pub struct UsageEntrySpec {
    pub name: Seq<char>,
    pub used: Option<u64>,
    pub limit: Option<u64>,
    pub status: Option<Seq<char>>,
}

impl UsageEntrySpec {
    /// Whether the entry says anything: both figures, or a status.
    pub open spec fn reported(self) -> bool {
        (self.used is Some && self.limit is Some) || self.status is Some
    }

    /// Whether the entry holds both figures and no status.
    pub open spec fn measured(self) -> bool {
        self.used is Some && self.limit is Some && self.status is None
    }
}

impl DeepView for UsageEntry {
    type V = UsageEntrySpec;

    open spec fn deep_view(&self) -> UsageEntrySpec {
        UsageEntrySpec {
            name: self.name@,
            used: self.used,
            limit: self.limit,
            status: self.status.deep_view(),
        }
    }
}

impl Clone for UsageEntry {
    fn clone(&self) -> (copy: Self)
        ensures
            copy.deep_view() == self.deep_view(),
    {
        UsageEntry {
            name: copy_text(&self.name),
            used: self.used,
            limit: self.limit,
            status: copy_optional(&self.status),
        }
    }
}

/// How to poll one provider over HTTP and where its figures stand in the
/// response.
#[derive(Debug)]
pub struct HttpJsonConfig {
    pub name: String,
    pub url: String,
    pub method: String,
    pub headers: Vec<(String, String)>,
    pub body: Option<String>,
    pub used_pointer: String,
    pub limit_pointer: String,
}

/// What an `HttpJsonConfig` holds, as plain text.
pub struct HttpJsonSpec {
    pub name: Seq<char>,
    pub url: Seq<char>,
    pub method: Seq<char>,
    pub headers: Seq<(Seq<char>, Seq<char>)>,
    pub body: Option<Seq<char>>,
    pub used_pointer: Seq<char>,
    pub limit_pointer: Seq<char>,
}

impl DeepView for HttpJsonConfig {
    type V = HttpJsonSpec;

    open spec fn deep_view(&self) -> HttpJsonSpec {
        HttpJsonSpec {
            name: self.name@,
            url: self.url@,
            method: self.method@,
            headers: self.headers.deep_view(),
            body: self.body.deep_view(),
            used_pointer: self.used_pointer@,
            limit_pointer: self.limit_pointer@,
        }
    }
}

impl Clone for HttpJsonConfig {
    fn clone(&self) -> (copy: Self)
        ensures
            copy.deep_view() == self.deep_view(),
    {
        HttpJsonConfig {
            name: copy_text(&self.name),
            url: copy_text(&self.url),
            method: copy_text(&self.method),
            headers: copy_headers(&self.headers),
            body: copy_optional(&self.body),
            used_pointer: copy_text(&self.used_pointer),
            limit_pointer: copy_text(&self.limit_pointer),
        }
    }
}

/// What the aggregator knows of one provider.
#[allow(inconsistent_fields)]
#[derive(Debug)]
pub enum ProviderState {
    /// The engine's own estimate against `limit`.
    Local { name: String, limit: u64 },
    /// Fixed figures.
    Manual { name: String, used: u64, limit: u64 },
    /// A polled provider: the entry of the last poll that succeeded, and the
    /// error of the last poll if that one failed.
    HttpJson { config: HttpJsonConfig, last: Option<UsageEntry>, last_error: Option<String> },
}

/// What a `ProviderState` holds, as plain text and numbers.
#[allow(inconsistent_fields)]
pub enum ProviderStateSpec {
    Local { name: Seq<char>, limit: u64 },
    Manual { name: Seq<char>, used: u64, limit: u64 },
    HttpJson { config: HttpJsonSpec, last: Option<UsageEntrySpec>, last_error: Option<Seq<char>> },
}

impl DeepView for ProviderState {
    type V = ProviderStateSpec;

    open spec fn deep_view(&self) -> ProviderStateSpec {
        match self {
            ProviderState::Local { name, limit } => ProviderStateSpec::Local {
                name: name@,
                limit: *limit,
            },
            ProviderState::Manual { name, used, limit } => ProviderStateSpec::Manual {
                name: name@,
                used: *used,
                limit: *limit,
            },
            ProviderState::HttpJson { config, last, last_error } => ProviderStateSpec::HttpJson {
                config: config.deep_view(),
                last: last.deep_view(),
                last_error: last_error.deep_view(),
            },
        }
    }
}

/// The state a provider starts in. A local provider without a name is called
/// `local-estimate`, one without a limit takes the context limit; a polled
/// provider without a method uses `GET`, and has seen no poll yet.
pub open spec fn initial_state(provider: ProviderSpec, context_limit: u32) -> ProviderStateSpec {
    match provider {
        ProviderSpec::Local { name, limit_tokens } => ProviderStateSpec::Local {
            name: match name {
                Some(n) => n,
                None => "local-estimate"@,
            },
            limit: match limit_tokens {
                Some(l) => l,
                None => context_limit as u64,
            },
        },
        ProviderSpec::Manual { name, limit_tokens, used_tokens } => ProviderStateSpec::Manual {
            name,
            used: used_tokens,
            limit: limit_tokens,
        },
        ProviderSpec::HttpJson {
            name,
            url,
            method,
            headers,
            body,
            used_pointer,
            limit_pointer,
        } => ProviderStateSpec::HttpJson {
            config: HttpJsonSpec {
                name,
                url,
                method: match method {
                    Some(m) => m,
                    None => "GET"@,
                },
                headers: match headers {
                    Some(h) => h,
                    None => Seq::empty(),
                },
                body,
                used_pointer,
                limit_pointer,
            },
            last: None,
            last_error: None,
        },
    }
}

/// The entry shown for a provider. A local provider shows the caller's token
/// estimate, a manual one its fixed figures, a polled one its last successful
/// entry; before any poll has succeeded it shows the last error, or
/// `loading`.
pub open spec fn entry_for(state: ProviderStateSpec, context_tokens: u64) -> UsageEntrySpec {
    match state {
        ProviderStateSpec::Local { name, limit } => UsageEntrySpec {
            name,
            used: Some(context_tokens),
            limit: Some(limit),
            status: None,
        },
        ProviderStateSpec::Manual { name, used, limit } => UsageEntrySpec {
            name,
            used: Some(used),
            limit: Some(limit),
            status: None,
        },
        ProviderStateSpec::HttpJson { config, last, last_error } => match last {
            Some(entry) => entry,
            None => UsageEntrySpec {
                name: config.name,
                used: None,
                limit: None,
                status: match last_error {
                    Some(error) => Some(error),
                    None => Some("loading"@),
                },
            },
        },
    }
}

/// The header arguments of a request: `-H` and `name: value` for each header.
pub open spec fn header_args(headers: Seq<(Seq<char>, Seq<char>)>) -> Seq<Seq<char>>
    decreases headers.len(),
{
    if headers.len() == 0 {
        Seq::empty()
    } else {
        header_args(headers.drop_last()) + seq![
            "-H"@,
            headers.last().0 + ": "@ + headers.last().1,
        ]
    }
}

/// The arguments of the transfer program for one poll: quiet but for errors,
/// failing on an HTTP error status, with the method, the URL, the headers
/// and, if there is a body, its content type and the body.
pub open spec fn request_args(config: HttpJsonSpec) -> Seq<Seq<char>> {
    seq!["-sS"@, "-f"@, "-X"@, config.method, config.url] + header_args(config.headers) + (
    match config.body {
        Some(body) => seq!["-H"@, "Content-Type: application/json"@, "-d"@, body],
        None => Seq::empty(),
    })
}

/// The arguments of the transfer program for one poll of `config`.
pub fn curl_args(config: &HttpJsonConfig) -> (args: Vec<String>)
    ensures
        args.deep_view() == request_args(config.deep_view()),
{
    let mut args: Vec<String> = Vec::new();
    push_arg(&mut args, "-sS");
    push_arg(&mut args, "-f");
    push_arg(&mut args, "-X");
    push_arg(&mut args, config.method.as_str());
    push_arg(&mut args, config.url.as_str());
    let ghost lead = seq!["-sS"@, "-f"@, "-X"@, config.method@, config.url@];
    let ghost headers = config.headers.deep_view();
    let mut i: usize = 0;
    while i < config.headers.len()
        invariant
            i <= config.headers.len(),
            headers == config.headers.deep_view(),
            args.deep_view() == lead + header_args(headers.take(i as int)),
        decreases config.headers.len() - i,
    {
        let ghost before = args.deep_view();
        let mut header = copy_text(&config.headers[i].0);
        header.append(": ");
        header.append(config.headers[i].1.as_str());
        push_arg(&mut args, "-H");
        push_arg(&mut args, header.as_str());
        i += 1;
        proof {
            let seen = headers.take(i as int);
            assert(seen.drop_last() =~= headers.take(i - 1));
        }
    }
    proof {
        assert(headers.take(i as int) =~= headers);
    }
    if let Some(body) = &config.body {
        push_arg(&mut args, "-H");
        push_arg(&mut args, "Content-Type: application/json");
        push_arg(&mut args, "-d");
        push_arg(&mut args, body.as_str());
    }
    args
}

/// What a finished transfer delivers: the response body if the program
/// succeeded, else what it wrote to its error stream, trimmed.
pub fn fetched_body(succeeded: bool, stdout: Vec<u8>, stderr: &str) -> (fetched: Result<
    Vec<u8>,
    String,
>)
    ensures
        succeeded ==> fetched == Ok::<Vec<u8>, String>(stdout),
        !succeeded ==> fetched is Err && fetched->Err_0@ == trim_spec(stderr@),
{
    if succeeded {
        Ok(stdout)
    } else {
        Err(trim(stderr))
    }
}

/// What a usage result holds, as plain text and numbers.
pub open spec fn usage_view(outcome: Result<UsageEntry, String>) -> Result<
    UsageEntrySpec,
    Seq<char>,
> {
    match outcome {
        Ok(entry) => Ok(entry.deep_view()),
        Err(message) => Err(message@),
    }
}

/// What a fetch result holds, as plain bytes and text.
pub open spec fn fetched_view(fetched: Result<Vec<u8>, String>) -> Result<Seq<u8>, Seq<char>> {
    match fetched {
        Ok(body) => Ok(body@),
        Err(message) => Err(message@),
    }
}

/// The entry made of two extraction results: both figures under `name`, or
/// the error of the first extraction that failed.
pub open spec fn usage_of_figures(
    name: Seq<char>,
    used: Result<u64, Seq<char>>,
    limit: Result<u64, Seq<char>>,
) -> Result<UsageEntrySpec, Seq<char>> {
    match used {
        Err(message) => Err(message),
        Ok(u) => match limit {
            Err(message) => Err(message),
            Ok(l) => Ok(UsageEntrySpec { name, used: Some(u), limit: Some(l), status: None }),
        },
    }
}

/// The entry that a parsed response gives for `config`: the figures at its
/// two pointers.
pub open spec fn usage_of_document(config: HttpJsonSpec, document: serde_json::Value) -> Result<
    UsageEntrySpec,
    Seq<char>,
> {
    usage_of_figures(
        config.name,
        leaf_value(leaf_at(document, config.used_pointer), config.used_pointer),
        leaf_value(leaf_at(document, config.limit_pointer), config.limit_pointer),
    )
}

/// The entry that a response body gives for `config`, or the reason why it
/// gives none: the body is not JSON, or a figure is missing or not a number.
pub open spec fn usage_of_response(config: HttpJsonSpec, body: Seq<u8>) -> Result<
    UsageEntrySpec,
    Seq<char>,
> {
    match json_document(body) {
        Ok(document) => usage_of_document(config, document),
        Err(error) => Err(json_error_text(error)),
    }
}

/// The entry made of two extraction results: both figures under `name`, or
/// the error of the first extraction that failed.
pub fn usage_from_figures(name: &str, used: Result<u64, String>, limit: Result<u64, String>) -> (
    outcome: Result<UsageEntry, String>
)
    ensures
        usage_view(outcome) == usage_of_figures(name@, outcome_view(used), outcome_view(limit)),
{
    match used {
        Err(message) => Err(message),
        Ok(u) => match limit {
            Err(message) => Err(message),
            Ok(l) => Ok(
                UsageEntry { name: name.to_owned(), used: Some(u), limit: Some(l), status: None },
            ),
        },
    }
}

/// Reads the usage entry for `config` out of a response body.
pub fn usage_from_response(config: &HttpJsonConfig, body: &[u8]) -> (outcome: Result<
    UsageEntry,
    String,
>)
    ensures
        usage_view(outcome) == usage_of_response(config.deep_view(), body@),
{
    match parse_document(body) {
        Err(error) => Err(error_text(&error)),
        Ok(document) => {
            let used = read_leaf(
                find_leaf(&document, config.used_pointer.as_str()),
                config.used_pointer.as_str(),
            );
            let limit = read_leaf(
                find_leaf(&document, config.limit_pointer.as_str()),
                config.limit_pointer.as_str(),
            );
            usage_from_figures(config.name.as_str(), used, limit)
        },
    }
}

/// The outcome of one poll of `config`: the failure of the transfer, or what
/// the response body gives.
pub open spec fn poll_outcome(config: HttpJsonSpec, fetched: Result<Seq<u8>, Seq<char>>) -> Result<
    UsageEntrySpec,
    Seq<char>,
> {
    match fetched {
        Ok(body) => usage_of_response(config, body),
        Err(message) => Err(message),
    }
}

/// The outcome of one poll of `config`, given what the transfer fetched: a
/// failed transfer is the poll's failure, and a response body is read for
/// the two figures.
pub fn fetch_http_usage(config: &HttpJsonConfig, fetched: Result<Vec<u8>, String>) -> (outcome:
    Result<UsageEntry, String>)
    ensures
        usage_view(outcome) == poll_outcome(config.deep_view(), fetched_view(fetched)),
{
    match fetched {
        Ok(body) => usage_from_response(config, body.as_slice()),
        Err(message) => Err(message),
    }
}

/// A provider's state after a poll. Only a polled provider changes: a
/// success replaces its entry and clears its error, a failure records the
/// error and keeps the entry.
pub open spec fn after_poll(state: ProviderStateSpec, fetched: Result<Seq<u8>, Seq<char>>) -> ProviderStateSpec {
    match state {
        ProviderStateSpec::HttpJson { config, last, last_error } => match poll_outcome(
            config,
            fetched,
        ) {
            Ok(entry) => ProviderStateSpec::HttpJson { config, last: Some(entry), last_error: None },
            Err(message) => ProviderStateSpec::HttpJson {
                config,
                last,
                last_error: Some(message),
            },
        },
        _ => state,
    }
}

/// The providers after the poll of provider `index`. An index that names no
/// provider changes nothing.
pub open spec fn after_poll_at(
    states: Seq<ProviderStateSpec>,
    index: int,
    fetched: Result<Seq<u8>, Seq<char>>,
) -> Seq<ProviderStateSpec> {
    if 0 <= index < states.len() {
        states.update(index, after_poll(states[index], fetched))
    } else {
        states
    }
}

/// The polls that are due: for each polled provider, in order, its index and
/// the arguments of its request.
pub open spec fn due_polls(states: Seq<ProviderStateSpec>) -> Seq<(usize, Seq<Seq<char>>)>
    decreases states.len(),
{
    if states.len() == 0 {
        Seq::empty()
    } else {
        let before = due_polls(states.drop_last());
        match states.last() {
            ProviderStateSpec::HttpJson { config, .. } => before.push(
                ((states.len() - 1) as usize, request_args(config)),
            ),
            _ => before,
        }
    }
}

/// Whether every entry kept from a poll holds both figures.
pub open spec fn caches_measured(states: Seq<ProviderStateSpec>) -> bool {
    forall|i: int|
        0 <= i < states.len() ==> (#[trigger] states[i] matches ProviderStateSpec::HttpJson {
            last: Some(entry),
            ..
        } ==> entry.measured())
}

/// One poll to make: the provider's index and the arguments of the request.
#[derive(Debug)]
pub struct PollRequest {
    pub index: usize,
    pub args: Vec<String>,
}

impl DeepView for PollRequest {
    type V = (usize, Seq<Seq<char>>);

    open spec fn deep_view(&self) -> (usize, Seq<Seq<char>>) {
        (self.index, self.args.deep_view())
    }
}

/// The state in which `provider` starts.
fn starting_state(provider: &ProviderConfig, context_limit: u32) -> (state: ProviderState)
    ensures
        state.deep_view() == initial_state(provider.deep_view(), context_limit),
{
    match provider {
        ProviderConfig::Local { name, limit_tokens } => ProviderState::Local {
            name: match name {
                Some(n) => copy_text(n),
                None => "local-estimate".to_owned(),
            },
            limit: match limit_tokens {
                Some(l) => *l,
                None => context_limit as u64,
            },
        },
        ProviderConfig::Manual { name, limit_tokens, used_tokens } => ProviderState::Manual {
            name: copy_text(name),
            used: *used_tokens,
            limit: *limit_tokens,
        },
        ProviderConfig::HttpJson {
            name,
            url,
            method,
            headers,
            body,
            used_pointer,
            limit_pointer,
        } => {
            let sent = match headers {
                Some(h) => copy_headers(h),
                None => {
                    let none: Vec<(String, String)> = Vec::new();
                    proof {
                        assert(none.deep_view() =~= Seq::<(Seq<char>, Seq<char>)>::empty());
                    }
                    none
                },
            };
            ProviderState::HttpJson {
                config: HttpJsonConfig {
                    name: copy_text(name),
                    url: copy_text(url),
                    method: match method {
                        Some(m) => copy_text(m),
                        None => "GET".to_owned(),
                    },
                    headers: sent,
                    body: copy_optional(body),
                    used_pointer: copy_text(used_pointer),
                    limit_pointer: copy_text(limit_pointer),
                },
                last: None,
                last_error: None,
            }
        },
    }
}

/// The quota aggregator: the state of every configured provider.
#[derive(Debug)]
pub struct UsageManager {
    state: Vec<ProviderState>,
    poll_seconds: u64,
}

impl UsageManager {
    /// The providers' states, in configured order.
    pub closed spec fn providers(&self) -> Seq<ProviderStateSpec> {
        self.state.deep_view()
    }

    /// Seconds between polls, as configured.
    pub closed spec fn configured_seconds(&self) -> u64 {
        self.poll_seconds
    }

    /// Every entry kept from a poll holds both figures.
    pub open spec fn wf(&self) -> bool {
        caches_measured(self.providers())
    }

    /// An aggregator for the providers of `config`, none of them polled yet.
    pub fn new(config: &Config) -> (manager: Self)
        ensures
            manager.wf(),
            manager.configured_seconds() == config.usage_poll_seconds,
            manager.providers() == config.providers.deep_view().map_values(
                |p: ProviderSpec| initial_state(p, config.context_limit),
            ),
    {
        let mut state: Vec<ProviderState> = Vec::new();
        let ghost listed = config.providers.deep_view();
        let ghost start = |p: ProviderSpec| initial_state(p, config.context_limit);
        let mut i: usize = 0;
        while i < config.providers.len()
            invariant
                i <= config.providers.len(),
                listed == config.providers.deep_view(),
                start == |p: ProviderSpec| initial_state(p, config.context_limit),
                state.deep_view() == listed.take(i as int).map_values(start),
            decreases config.providers.len() - i,
        {
            let ghost before = state.deep_view();
            let next = starting_state(&config.providers[i], config.context_limit);
            state.push(next);
            i += 1;
            proof {
                assert(state.deep_view() =~= before.push(next.deep_view()));
            }
        }
        UsageManager { state, poll_seconds: config.usage_poll_seconds }
    }

    /// Seconds to wait between two rounds of polls: the configured number,
    /// but never fewer than `MIN_POLL_SECONDS`.
    pub fn poll_interval(&self) -> (seconds: u64)
        ensures
            seconds == if self.configured_seconds() >= MIN_POLL_SECONDS {
                self.configured_seconds()
            } else {
                MIN_POLL_SECONDS
            },
    {
        if self.poll_seconds >= MIN_POLL_SECONDS {
            self.poll_seconds
        } else {
            MIN_POLL_SECONDS
        }
    }

    /// The polls to make in one round: one per polled provider, in order.
    pub fn http_targets(&self) -> (requests: Vec<PollRequest>)
        ensures
            requests.deep_view() == due_polls(self.providers()),
    {
        let mut requests: Vec<PollRequest> = Vec::new();
        let ghost states = self.state.deep_view();
        let mut i: usize = 0;
        while i < self.state.len()
            invariant
                i <= self.state.len(),
                states == self.state.deep_view(),
                requests.deep_view() == due_polls(states.take(i as int)),
            decreases self.state.len() - i,
        {
            proof {
                assert(states.take(i + 1).drop_last() =~= states.take(i as int));
            }
            match &self.state[i] {
                ProviderState::HttpJson { config, .. } => {
                    let request = PollRequest { index: i, args: curl_args(config) };
                    requests.push(request);
                },
                _ => {},
            }
            i += 1;
        }
        proof {
            assert(states.take(i as int) =~= states);
        }
        requests
    }

    /// Takes in what the poll of provider `index` fetched: the response body,
    /// or the failure of the transfer. A body that yields both figures
    /// replaces the provider's entry and clears its error; anything else
    /// becomes its error and leaves its entry as it was.
    pub fn apply_poll(&mut self, index: usize, fetched: Result<Vec<u8>, String>)
        requires
            old(self).wf(),
        ensures
            final(self).wf(),
            final(self).configured_seconds() == old(self).configured_seconds(),
            final(self).providers() == after_poll_at(
                old(self).providers(),
                index as int,
                fetched_view(fetched),
            ),
    {
        if index >= self.state.len() {
            return ;
        }
        let ghost before = self.state.deep_view();
        let next = match &self.state[index] {
            ProviderState::HttpJson { config, last, last_error } => {
                match fetch_http_usage(config, fetched) {
                    Ok(entry) => ProviderState::HttpJson {
                        config: config.clone(),
                        last: Some(entry),
                        last_error: None,
                    },
                    Err(message) => ProviderState::HttpJson {
                        config: config.clone(),
                        last: match last {
                            Some(entry) => Some(entry.clone()),
                            None => None,
                        },
                        last_error: Some(message),
                    },
                }
            },
            _ => {
                return ;
            },
        };
        self.state.set(index, next);
        proof {
            assert(self.state.deep_view() =~= before.update(index as int, next.deep_view()));
        }
    }

    /// The entries to show, one per provider in configured order, with the
    /// local provider using the caller's token estimate. Each entry holds
    /// both figures or a status.
    pub fn entries(&self, context_tokens: u64) -> (out: Vec<UsageEntry>)
        requires
            self.wf(),
        ensures
            out.deep_view() == self.providers().map_values(
                |s: ProviderStateSpec| entry_for(s, context_tokens),
            ),
            forall|i: int| 0 <= i < out.len() ==> (#[trigger] out.deep_view()[i]).reported(),
    {
        let mut out: Vec<UsageEntry> = Vec::new();
        let ghost states = self.state.deep_view();
        let ghost show = |s: ProviderStateSpec| entry_for(s, context_tokens);
        let mut i: usize = 0;
        while i < self.state.len()
            invariant
                i <= self.state.len(),
                states == self.state.deep_view(),
                caches_measured(states),
                show == |s: ProviderStateSpec| entry_for(s, context_tokens),
                out.deep_view() == states.take(i as int).map_values(show),
                forall|k: int| 0 <= k < out.len() ==> (#[trigger] out.deep_view()[k]).reported(),
            decreases self.state.len() - i,
        {
            let ghost before = out.deep_view();
            let entry = match &self.state[i] {
                ProviderState::Local { name, limit } => UsageEntry {
                    name: copy_text(name),
                    used: Some(context_tokens),
                    limit: Some(*limit),
                    status: None,
                },
                ProviderState::Manual { name, used, limit } => UsageEntry {
                    name: copy_text(name),
                    used: Some(*used),
                    limit: Some(*limit),
                    status: None,
                },
                ProviderState::HttpJson { config, last, last_error } => match last {
                    Some(entry) => entry.clone(),
                    None => UsageEntry {
                        name: copy_text(&config.name),
                        used: None,
                        limit: None,
                        status: match last_error {
                            Some(error) => Some(copy_text(error)),
                            None => Some("loading".to_owned()),
                        },
                    },
                },
            };
            out.push(entry);
            i += 1;
            proof {
                assert(out.deep_view() =~= before.push(entry.deep_view()));
            }
        }
        out
    }
}

} // verus!
