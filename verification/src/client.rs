//! The client of an agent and its runs: credentials, metrics, and the
//! notifications they send.

use vstd::prelude::*;
use crate::fields::{Fields, Val, ValView};
use crate::metrics::{metrics_after, metrics_reset, record_metric, reset_metric};
use crate::payload::{Payload, build_payload, payload_for, state_view};
use crate::state::{RunState, millis_reading, now_ms};
use crate::text::{concat2, push_str};

verus! {

#[verifier::external_type_specification]
#[verifier::external_body]
#[verifier::reject_recursive_types(T)]
pub struct ExSyncSender<T>(std::sync::mpsc::SyncSender<T>);

/// Credentials and settings of a client.
pub struct Options {
    pub token: String,
    pub secret: String,
    /// Seconds after which an orphaned state file is removed; 0 means the default.
    pub state_ttl: u64,
}

/// Extra metadata sent with a tracked event.
pub struct TrackOptions {
    pub meta: Fields,
}

/// Credentials saved for an agent.
pub struct AgentConfig {
    pub token: String,
    pub secret: String,
}

/// The version of this library.
pub const VERSION: &'static str = "0.4.0";

/// The address notifications of the agent with this token are posted to.
pub open spec fn webhook_url_of(token: Seq<char>) -> Seq<char> {
    "https://hook.notilens.com/webhook/"@ + token + "/send"@
}

/// The address notifications are posted to for `token`.
pub fn webhook_url(token: &str) -> (r: String)
    ensures
        r@ == webhook_url_of(token@),
{
    let mut u = concat2("https://hook.notilens.com/webhook/", token);
    push_str(&mut u, "/send");
    u
}

/// The `User-Agent` of the library's requests.
pub fn user_agent() -> (r: String)
    ensures
        r@ == "NotiLens-SDK/"@ + VERSION@,
{
    concat2("NotiLens-SDK/", VERSION)
}

/// The time to live of orphaned state, in seconds, when none is given.
pub const DEFAULT_STATE_TTL: u64 = 86400;

/// `first`, or `fallback` when `first` is empty.
pub open spec fn or_else(first: Seq<char>, fallback: Seq<char>) -> Seq<char> {
    if first.len() == 0 {
        fallback
    } else {
        first
    }
}

/// The message of a client that found no credentials.
pub open spec fn missing_credentials_message(agent: Seq<char>) -> Seq<char> {
    "NotiLens: token and secret are required. Pass them directly, set NOTILENS_TOKEN/NOTILENS_SECRET env vars, or run: notilens init --agent "@
        + agent + " --token TOKEN --secret SECRET"@
}

/// A credential taken from the options, else the environment, else the saved
/// configuration.
pub open spec fn resolved(given: Option<Seq<char>>, env: Seq<char>, saved: Option<Seq<char>>) -> Seq<
    char,
> {
    let from_opts = match given {
        Some(t) => t,
        None => Seq::empty(),
    };
    or_else(
        or_else(from_opts, env),
        match saved {
            Some(t) => t,
            None => Seq::empty(),
        },
    )
}

/// The time to live given in the options, or the default when none (or 0) is given.
pub open spec fn resolved_ttl(given: Option<u64>) -> u64 {
    match given {
        Some(t) if t > 0 => t,
        _ => DEFAULT_STATE_TTL,
    }
}

/// A credential given in the options wins over the environment, which wins
/// over the saved configuration; an empty credential counts as not given.
pub proof fn law_credentials_precedence(given: Seq<char>, env: Seq<char>, saved: Seq<char>)
    ensures
        given.len() > 0 ==> resolved(Some(given), env, Some(saved)) == given,
        given.len() == 0 && env.len() > 0 ==> resolved(Some(given), env, Some(saved)) == env,
        env.len() > 0 ==> resolved(None, env, Some(saved)) == env,
        given.len() == 0 && env.len() == 0 ==> resolved(Some(given), env, Some(saved)) == saved,
        env.len() == 0 ==> resolved(None, env, Some(saved)) == saved,
        env.len() == 0 ==> resolved(None, env, None).len() == 0,
{
}

/// Without options, or with options whose time to live is 0, orphaned state
/// is kept for 86400 seconds (one day); a positive time to live given in the
/// options is kept as given.
pub proof fn law_default_ttl(given: Option<u64>)
    ensures
        given is None ==> resolved_ttl(given) == 86400,
        given == Some(0u64) ==> resolved_ttl(given) == 86400,
        given is Some && given->0 > 0 ==> resolved_ttl(given) == given->0,
{
}

/// Resolves a client's credentials: each of token and secret is taken from the
/// options, else from the environment (`env_token`, `env_secret`), else from
/// the saved configuration of the agent. Fails, naming the agent, when either
/// stays empty.
pub fn resolve_credentials(
    agent: &str,
    opts: Option<Options>,
    env_token: String,
    env_secret: String,
    saved: Option<AgentConfig>,
) -> (r: Result<Options, String>)
    ensures
        ({
            let token = resolved(
                match opts {
                    Some(o) => Some(o.token@),
                    None => None,
                },
                env_token@,
                match saved {
                    Some(c) => Some(c.token@),
                    None => None,
                },
            );
            let secret = resolved(
                match opts {
                    Some(o) => Some(o.secret@),
                    None => None,
                },
                env_secret@,
                match saved {
                    Some(c) => Some(c.secret@),
                    None => None,
                },
            );
            let ttl = resolved_ttl(
                match opts {
                    Some(o) => Some(o.state_ttl),
                    None => None,
                },
            );
            match r {
                Ok(o) => token.len() > 0 && secret.len() > 0 && o.token@ == token && o.secret@
                    == secret && o.state_ttl == ttl,
                Err(e) => (token.len() == 0 || secret.len() == 0) && e@
                    == missing_credentials_message(agent@),
            }
        }),
{
    let mut token = String::new();
    let mut secret = String::new();
    let mut state_ttl: u64 = DEFAULT_STATE_TTL;
    match opts {
        Some(o) => {
            token = o.token;
            secret = o.secret;
            if o.state_ttl > 0 {
                state_ttl = o.state_ttl;
            }
        },
        None => {},
    }
    if token.as_str().unicode_len() == 0 {
        token = env_token;
    }
    if secret.as_str().unicode_len() == 0 {
        secret = env_secret;
    }
    if token.as_str().unicode_len() == 0 || secret.as_str().unicode_len() == 0 {
        match saved {
            Some(conf) => {
                if token.as_str().unicode_len() == 0 {
                    token = conf.token;
                }
                if secret.as_str().unicode_len() == 0 {
                    secret = conf.secret;
                }
            },
            None => {},
        }
    }
    if token.as_str().unicode_len() == 0 || secret.as_str().unicode_len() == 0 {
        let mut msg = String::from_str(
            "NotiLens: token and secret are required. Pass them directly, set NOTILENS_TOKEN/NOTILENS_SECRET env vars, or run: notilens init --agent ",
        );
        push_str(&mut msg, agent);
        push_str(&mut msg, " --token TOKEN --secret SECRET");
        return Err(msg);
    }
    Ok(Options { token, secret, state_ttl })
}

/// The client of one agent.
pub struct NotiLens {
    agent: String,
    token: String,
    secret: String,
    state_ttl: u64,
    metrics: Fields,
    outbox: std::sync::mpsc::SyncSender<Payload>,
}

impl NotiLens {
    /// A client for `agent` with resolved `settings`, whose notifications go to
    /// `outbox` (the queue of the delivery worker); it starts with no metrics.
    pub fn with_outbox(
        agent: &str,
        settings: Options,
        outbox: std::sync::mpsc::SyncSender<Payload>,
    ) -> (r: NotiLens)
        ensures
            r.agent_name() == agent@,
            r.token_of() == settings.token@,
            r.secret_of() == settings.secret@,
            r.ttl() == settings.state_ttl,
            r.metrics_of() == Map::<Seq<char>, ValView>::empty(),
            r.outbox_of() == outbox,
    {
        NotiLens {
            agent: String::from_str(agent),
            token: settings.token,
            secret: settings.secret,
            state_ttl: settings.state_ttl,
            metrics: Fields::new(),
            outbox,
        }
    }

    pub closed spec fn agent_name(&self) -> Seq<char> {
        self.agent@
    }

    pub closed spec fn token_of(&self) -> Seq<char> {
        self.token@
    }

    pub closed spec fn secret_of(&self) -> Seq<char> {
        self.secret@
    }

    pub closed spec fn ttl(&self) -> u64 {
        self.state_ttl
    }

    pub closed spec fn metrics_of(&self) -> Map<Seq<char>, ValView> {
        self.metrics@
    }

    pub closed spec fn outbox_of(&self) -> std::sync::mpsc::SyncSender<Payload> {
        self.outbox
    }

    /// The queue of the delivery worker, which the notifications are handed to.
    pub fn outbox(&self) -> (r: &std::sync::mpsc::SyncSender<Payload>)
        ensures
            *r == self.outbox_of(),
    {
        &self.outbox
    }

    /// The agent's name.
    pub fn agent(&self) -> (r: &str)
        ensures
            r@ == self.agent_name(),
    {
        self.agent.as_str()
    }

    /// The time to live of orphaned state, in seconds.
    pub fn state_ttl(&self) -> (r: u64)
        ensures
            r == self.ttl(),
    {
        self.state_ttl
    }

    /// The agent-level metrics.
    pub fn metrics(&self) -> (r: &Fields)
        ensures
            r@ == self.metrics_of(),
    {
        &self.metrics
    }

    /// Sets a metric to `value`, replacing the earlier value (a number that
    /// accumulates arrives here as the sum already made).
    pub fn metric(&mut self, key: &str, value: Val) -> (r: &mut Self)
        ensures
            r.metrics_of() == metrics_after(old(self).metrics_of(), key@, value@),
            r.agent_name() == old(self).agent_name(),
            r.ttl() == old(self).ttl(),
            *final(self) == *final(r),
    {
        record_metric(&mut self.metrics, key, value);
        self
    }

    /// Forgets one metric, or all of them when no key is given.
    pub fn reset_metrics(&mut self, key: Option<&str>) -> (r: &mut Self)
        ensures
            r.metrics_of() == metrics_reset(old(self).metrics_of(), match key {
                Some(k) => Some(k@),
                None => None,
            }),
            r.agent_name() == old(self).agent_name(),
            r.ttl() == old(self).ttl(),
            *final(self) == *final(r),
    {
        reset_metric(&mut self.metrics, key);
        self
    }

    /// The notification of `event` (see `payload::payload_for`): from this
    /// agent, for the run id and task label (empty for an agent-level event),
    /// with the run's saved state when there is one, the given metrics and the
    /// extra metadata. One clock reading stamps the notification and is the
    /// instant at which the run's durations are measured. The caller hands it
    /// to the delivery worker.
    pub fn prepare_payload(
        &self,
        event: &str,
        message: &str,
        run_id: &str,
        label: &str,
        state: Option<&RunState>,
        run_metrics: &Fields,
        extra: Option<Fields>,
    ) -> (p: Payload)
        ensures
            payload_for(
                p,
                self.agent_name(),
                event@,
                message@,
                run_id@,
                label@,
                state_view(state),
                p.ts_ms as int,
                p.ts_ms as int,
                run_metrics@,
                extra_owned_view(extra),
            ),
            exists|millis: Option<u128>| p.ts_ms == #[trigger] millis_reading(millis),
    {
        let now = now_ms();
        let payload = match &extra {
            Some(e) => build_payload(
                self.agent.as_str(),
                event,
                message,
                run_id,
                label,
                state,
                now,
                now,
                run_metrics,
                Some(e),
            ),
            None => build_payload(
                self.agent.as_str(),
                event,
                message,
                run_id,
                label,
                state,
                now,
                now,
                run_metrics,
                None,
            ),
        };
        payload
    }

    /// The notification of a free-form agent-level event, with the agent's
    /// metrics and the extra metadata of `opts`, stamped with a clock reading.
    pub fn track_payload(&self, event: &str, message: &str, opts: Option<TrackOptions>) -> (p:
        Payload)
        ensures
            payload_for(
                p,
                self.agent_name(),
                event@,
                message@,
                Seq::empty(),
                Seq::empty(),
                None,
                p.ts_ms as int,
                p.ts_ms as int,
                self.metrics_of(),
                track_meta_view(opts),
            ),
            exists|millis: Option<u128>| p.ts_ms == #[trigger] millis_reading(millis),
    {
        let extra = match opts {
            Some(o) => Some(o.meta),
            None => None,
        };
        let ghost extra_view = extra_owned_view(extra);
        assert(extra_view == track_meta_view(opts));
        let sent = self.prepare_payload(event, message, "", "", None, &self.metrics, extra);
        proof {
            reveal_strlit("");
            assert(""@ =~= Seq::<char>::empty());
            assert(state_view(None) == None::<(crate::state::RunStateView, Map<Seq<char>, ValView>)>);
        }
        sent
    }
}

/// The extra metadata of optional track options (none counts as empty).
pub open spec fn track_meta_view(opts: Option<TrackOptions>) -> Map<Seq<char>, ValView> {
    match opts {
        Some(o) => o.meta@,
        None => Map::empty(),
    }
}

/// The view of optional extra metadata handed over by value (none counts as
/// empty).
pub open spec fn extra_owned_view(extra: Option<Fields>) -> Map<Seq<char>, ValView> {
    match extra {
        Some(e) => e@,
        None => Map::empty(),
    }
}

/// One execution of a task of an agent.
pub struct Run<'a> {
    agent: &'a NotiLens,
    label: String,
    pub run_id: String,
    state_file: String,
    metrics: Fields,
}

impl<'a> Run<'a> {
    /// A run of the task `label` of `agent`, known as `run_id`, whose state is
    /// saved in the file `state_file`; it starts with no metrics.
    pub fn new(agent: &'a NotiLens, label: &str, run_id: String, state_file: String) -> (r: Run<'a>)
        ensures
            r.label_of() == label@,
            r.run_id_of() == run_id@,
            r.state_file_of() == state_file@,
            r.metrics_of() == Map::<Seq<char>, ValView>::empty(),
            *r.client() == *agent,
    {
        Run { agent, label: String::from_str(label), run_id, state_file, metrics: Fields::new() }
    }

    pub closed spec fn label_of(&self) -> Seq<char> {
        self.label@
    }

    pub closed spec fn run_id_of(&self) -> Seq<char> {
        self.run_id@
    }

    pub closed spec fn state_file_of(&self) -> Seq<char> {
        self.state_file@
    }

    pub closed spec fn metrics_of(&self) -> Map<Seq<char>, ValView> {
        self.metrics@
    }

    pub closed spec fn client(&self) -> &'a NotiLens {
        self.agent
    }

    /// The client this run belongs to.
    pub fn agent(&self) -> (r: &'a NotiLens)
        ensures
            *r == *self.client(),
    {
        self.agent
    }

    /// The task label.
    pub fn label(&self) -> (r: &str)
        ensures
            r@ == self.label_of(),
    {
        self.label.as_str()
    }

    /// The file holding the run's saved state.
    pub fn state_file(&self) -> (r: &str)
        ensures
            r@ == self.state_file_of(),
    {
        self.state_file.as_str()
    }

    /// The run's metrics.
    pub fn metrics(&self) -> (r: &Fields)
        ensures
            r@ == self.metrics_of(),
    {
        &self.metrics
    }

    /// Sets a metric of the run to `value`, replacing the earlier value (a
    /// number that accumulates arrives here as the sum already made).
    pub fn metric(&mut self, key: &str, value: Val) -> (r: &mut Self)
        ensures
            r.metrics_of() == metrics_after(old(self).metrics_of(), key@, value@),
            r.label_of() == old(self).label_of(),
            r.run_id_of() == old(self).run_id_of(),
            r.state_file_of() == old(self).state_file_of(),
            *final(self) == *final(r),
    {
        record_metric(&mut self.metrics, key, value);
        self
    }

    /// Forgets one metric of the run, or all of them when no key is given.
    pub fn reset_metrics(&mut self, key: Option<&str>) -> (r: &mut Self)
        ensures
            r.metrics_of() == metrics_reset(old(self).metrics_of(), match key {
                Some(k) => Some(k@),
                None => None,
            }),
            r.label_of() == old(self).label_of(),
            r.run_id_of() == old(self).run_id_of(),
            r.state_file_of() == old(self).state_file_of(),
            *final(self) == *final(r),
    {
        reset_metric(&mut self.metrics, key);
        self
    }

    /// The notification of `event` for this run, given the run's saved
    /// `state`, its durations measured at the clock reading that stamps it
    /// (see `NotiLens::prepare_payload`).
    pub fn payload(&self, event: &str, message: &str, state: &RunState, extra: Option<Fields>) -> (p:
        Payload)
        ensures
            payload_for(
                p,
                self.client().agent_name(),
                event@,
                message@,
                self.run_id_of(),
                self.label_of(),
                Some((state@, state.metrics@)),
                p.ts_ms as int,
                p.ts_ms as int,
                self.metrics_of(),
                extra_owned_view(extra),
            ),
            exists|millis: Option<u128>| p.ts_ms == #[trigger] millis_reading(millis),
    {
        self.agent.prepare_payload(
            event,
            message,
            self.run_id.as_str(),
            self.label.as_str(),
            Some(state),
            &self.metrics,
            extra,
        )
    }
}

} // verus!
