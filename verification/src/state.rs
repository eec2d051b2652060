//! The persisted state of one run: what it holds, how each lifecycle step
//! changes it, and the timing read from it.

use vstd::prelude::*;
use crate::fields::{Fields, Val, ValView};
use crate::text::{concat2, push_str, replace_all, replace_char, has_prefix, has_suffix, starts_with, ends_with};

verus! {

// ── Clock ────────────────────────────────────────────────────────────────────

#[verifier::external_type_specification]
#[verifier::external_body]
pub struct ExSystemTime(std::time::SystemTime);

#[verifier::external_type_specification]
#[verifier::external_body]
pub struct ExSystemTimeError(std::time::SystemTimeError);

/// `SystemTime::now`: the current wall-clock time. Nothing is promised of it.
#[verifier::external_body]
fn system_now() -> std::time::SystemTime {
    std::time::SystemTime::now()
}

/// `SystemTime::duration_since(UNIX_EPOCH)`: the time elapsed since the Unix
/// epoch, or an error for a time before it. Nothing is promised of it.
#[verifier::external_body]
fn since_unix_epoch(t: &std::time::SystemTime) -> Result<
    std::time::Duration,
    std::time::SystemTimeError,
> {
    t.duration_since(std::time::UNIX_EPOCH)
}

/// `Duration::as_millis`: the whole milliseconds of a duration.
#[verifier::external_body]
fn duration_millis(d: &std::time::Duration) -> u128 {
    d.as_millis()
}

/// `Duration::as_secs`: the whole seconds of a duration.
#[verifier::external_body]
fn duration_secs(d: &std::time::Duration) -> u64 {
    d.as_secs()
}

/// The clock value reported for a reading of the milliseconds since the Unix
/// epoch (`None` for a clock before the epoch): the milliseconds taken modulo
/// 2^64 as an `i64`, or 0.
pub open spec fn millis_reading(millis: Option<u128>) -> i64 {
    match millis {
        Some(m) => m as i64,
        None => 0,
    }
}

/// The clock value reported for a reading of the milliseconds since the Unix
/// epoch (see [`millis_reading`]).
pub fn clock_millis(millis: Option<u128>) -> (r: i64)
    ensures
        r == millis_reading(millis),
{
    match millis {
        Some(m) => {
            #[verifier::truncate]
            (m as i64)
        },
        None => 0,
    }
}

/// Milliseconds since the Unix epoch (the milliseconds taken modulo 2^64 as an
/// `i64`), or 0 when the clock reads a time before the epoch.
pub fn now_ms() -> (r: i64)
    ensures
        exists|millis: Option<u128>| r == #[trigger] millis_reading(millis),
{
    let reading = match since_unix_epoch(&system_now()) {
        Ok(d) => Some(duration_millis(&d)),
        Err(_) => None,
    };
    let r = clock_millis(reading);
    assert(r == millis_reading(reading));
    r
}

/// The clock value reported for a reading of the whole seconds since the
/// Unix epoch (`None` for a clock before the epoch): the seconds, or 0.
pub open spec fn secs_reading(secs: Option<u64>) -> u64 {
    match secs {
        Some(t) => t,
        None => 0,
    }
}

/// The clock value reported for a reading of the whole seconds since the
/// Unix epoch (see [`secs_reading`]).
pub fn clock_secs(secs: Option<u64>) -> (r: u64)
    ensures
        r == secs_reading(secs),
{
    match secs {
        Some(t) => t,
        None => 0,
    }
}

/// Whole seconds since the Unix epoch, or 0 when the clock reads a time
/// before the epoch.
pub fn now_secs() -> (r: u64)
    ensures
        exists|secs: Option<u64>| r == #[trigger] secs_reading(secs),
{
    let reading = match since_unix_epoch(&system_now()) {
        Ok(d) => Some(duration_secs(&d)),
        Err(_) => None,
    };
    let r = clock_secs(reading);
    assert(r == secs_reading(reading));
    r
}

// ── File names ───────────────────────────────────────────────────────────────

/// The name of the state file of run `run_id` of `agent` for `user`; `sep`
/// (the platform's path separator) is replaced by `_` in the agent and run id.
pub open spec fn state_file_name_of(
    user: Seq<char>,
    agent: Seq<char>,
    run_id: Seq<char>,
    sep: char,
) -> Seq<char> {
    "notilens_"@ + user + "_"@ + replace_char(agent, sep, "_"@) + "_"@ + replace_char(
        run_id,
        sep,
        "_"@,
    ) + ".json"@
}

/// The label as it appears in a pointer file name: `/` and `\` become `_`.
pub open spec fn safe_label(label: Seq<char>) -> Seq<char> {
    replace_char(replace_char(label, '/', "_"@), '\\', "_"@)
}

/// The name of the file that points at the active run of `label`.
pub open spec fn pointer_file_name_of(user: Seq<char>, agent: Seq<char>, label: Seq<char>) -> Seq<
    char,
> {
    "notilens_"@ + user + "_"@ + agent + "_"@ + safe_label(label) + ".ptr"@
}

/// The prefix shared by every state and pointer file of `agent` for `user`.
pub open spec fn agent_prefix_of(user: Seq<char>, agent: Seq<char>) -> Seq<char> {
    "notilens_"@ + user + "_"@ + agent + "_"@
}

/// The file name of the state of a run (without its directory).
pub fn state_file_name(user: &str, agent: &str, run_id: &str, sep: char) -> (r: String)
    ensures
        r@ == state_file_name_of(user@, agent@, run_id@, sep),
{
    let mut s = concat2("notilens_", user);
    push_str(&mut s, "_");
    let a = replace_all(agent, sep, "_");
    push_str(&mut s, a.as_str());
    push_str(&mut s, "_");
    let b = replace_all(run_id, sep, "_");
    push_str(&mut s, b.as_str());
    push_str(&mut s, ".json");
    s
}

/// The file name of the pointer of a label (without its directory).
pub fn pointer_file_name(user: &str, agent: &str, label: &str) -> (r: String)
    ensures
        r@ == pointer_file_name_of(user@, agent@, label@),
{
    let mut s = concat2("notilens_", user);
    push_str(&mut s, "_");
    push_str(&mut s, agent);
    push_str(&mut s, "_");
    let l1 = replace_all(label, '/', "_");
    let l2 = replace_all(l1.as_str(), '\\', "_");
    push_str(&mut s, l2.as_str());
    push_str(&mut s, ".ptr");
    s
}

/// The prefix of every state and pointer file of `agent`.
pub fn agent_prefix(user: &str, agent: &str) -> (r: String)
    ensures
        r@ == agent_prefix_of(user@, agent@),
{
    let mut s = concat2("notilens_", user);
    push_str(&mut s, "_");
    push_str(&mut s, agent);
    push_str(&mut s, "_");
    s
}

/// Files last changed before this many seconds since the epoch are stale.
pub open spec fn cutoff_of(now_secs: int, ttl: int) -> int {
    if now_secs > ttl {
        now_secs - ttl
    } else {
        0
    }
}

/// The stale cutoff for a time to live of `ttl` seconds at `now_secs`.
pub fn stale_cutoff(now_secs: u64, ttl: u64) -> (r: u64)
    ensures
        r == cutoff_of(now_secs as int, ttl as int),
{
    now_secs.saturating_sub(ttl)
}

/// Whether a file of the temporary directory is a stale state or pointer file
/// of the agent whose files start with `prefix`.
pub open spec fn is_stale_file(
    name: Seq<char>,
    prefix: Seq<char>,
    modified_secs: Option<u64>,
    cutoff: u64,
) -> bool {
    &&& has_prefix(name, prefix)
    &&& (has_suffix(name, ".json"@) || has_suffix(name, ".ptr"@))
    &&& modified_secs matches Some(m) && m < cutoff
}

/// Whether the file `name`, last changed `modified_secs` after the epoch (when
/// known), is to be removed.
pub fn should_remove(name: &str, prefix: &str, modified_secs: Option<u64>, cutoff: u64) -> (r: bool)
    ensures
        r == is_stale_file(name@, prefix@, modified_secs, cutoff),
{
    if !starts_with(name, prefix) {
        return false;
    }
    if !ends_with(name, ".json") && !ends_with(name, ".ptr") {
        return false;
    }
    match modified_secs {
        Some(m) => m < cutoff,
        None => false,
    }
}

// ── Run state ────────────────────────────────────────────────────────────────

/// The fields of a run's state that the library reads: instants in
/// milliseconds since the epoch (0 when unset), accumulated milliseconds,
/// counters, and the metrics saved with the run.
pub struct RunState {
    pub queued_at: i64,
    pub start_time: i64,
    pub paused_at: i64,
    pub wait_at: i64,
    pub pause_total_ms: i64,
    pub wait_total_ms: i64,
    pub retry_count: i64,
    pub loop_count: i64,
    pub error_count: i64,
    pub pause_count: i64,
    pub wait_count: i64,
    pub metrics: Fields,
}

/// The numeric fields of a run's state.
pub struct RunStateView {
    pub queued_at: int,
    pub start_time: int,
    pub paused_at: int,
    pub wait_at: int,
    pub pause_total_ms: int,
    pub wait_total_ms: int,
    pub retry_count: int,
    pub loop_count: int,
    pub error_count: int,
    pub pause_count: int,
    pub wait_count: int,
}

impl View for RunState {
    type V = RunStateView;

    open spec fn view(&self) -> RunStateView {
        RunStateView {
            queued_at: self.queued_at as int,
            start_time: self.start_time as int,
            paused_at: self.paused_at as int,
            wait_at: self.wait_at as int,
            pause_total_ms: self.pause_total_ms as int,
            wait_total_ms: self.wait_total_ms as int,
            retry_count: self.retry_count as int,
            loop_count: self.loop_count as int,
            error_count: self.error_count as int,
            pause_count: self.pause_count as int,
            wait_count: self.wait_count as int,
        }
    }
}

impl RunState {
    /// The state of a run with no saved state: every field 0, no metrics.
    pub fn empty() -> (r: RunState)
        ensures
            r@ == RunStateView::zero(),
            r.metrics@ == Map::<Seq<char>, ValView>::empty(),
    {
        RunState {
            queued_at: 0,
            start_time: 0,
            paused_at: 0,
            wait_at: 0,
            pause_total_ms: 0,
            wait_total_ms: 0,
            retry_count: 0,
            loop_count: 0,
            error_count: 0,
            pause_count: 0,
            wait_count: 0,
            metrics: Fields::new(),
        }
    }
}

impl RunStateView {
    pub open spec fn zero() -> RunStateView {
        RunStateView {
            queued_at: 0,
            start_time: 0,
            paused_at: 0,
            wait_at: 0,
            pause_total_ms: 0,
            wait_total_ms: 0,
            retry_count: 0,
            loop_count: 0,
            error_count: 0,
            pause_count: 0,
            wait_count: 0,
        }
    }
}

/// The number a value the library saves reads back as: an integer as
/// written, a null, a boolean or a text as 0. (The library saves no `Json`
/// value in a state, so this says nothing of how one reads.)
pub open spec fn read_num(v: ValView) -> int {
    match v {
        ValView::Int(i) => i,
        _ => 0,
    }
}

/// The field `key` after the updates `u`, when it held `old` before.
pub open spec fn field_after(u: Map<Seq<char>, ValView>, key: Seq<char>, old: int) -> int {
    if u.dom().contains(key) {
        read_num(u[key])
    } else {
        old
    }
}

/// The state read back after the updates `u` are merged into a state `s`.
/// Saved integers read back as written: the state file holds them as JSON
/// numbers, read through `f64`, which keeps integers exact up to 2^53 in
/// magnitude (instants in milliseconds since the epoch stay far below).
pub open spec fn apply_updates(s: RunStateView, u: Map<Seq<char>, ValView>) -> RunStateView {
    RunStateView {
        queued_at: field_after(u, "queued_at"@, s.queued_at),
        start_time: field_after(u, "start_time"@, s.start_time),
        paused_at: field_after(u, "paused_at"@, s.paused_at),
        wait_at: field_after(u, "wait_at"@, s.wait_at),
        pause_total_ms: field_after(u, "pause_total_ms"@, s.pause_total_ms),
        wait_total_ms: field_after(u, "wait_total_ms"@, s.wait_total_ms),
        retry_count: field_after(u, "retry_count"@, s.retry_count),
        loop_count: field_after(u, "loop_count"@, s.loop_count),
        error_count: field_after(u, "error_count"@, s.error_count),
        pause_count: field_after(u, "pause_count"@, s.pause_count),
        wait_count: field_after(u, "wait_count"@, s.wait_count),
    }
}

/// The state read back from a freshly written document `d`.
pub open spec fn state_of_doc(d: Map<Seq<char>, ValView>) -> RunStateView {
    apply_updates(RunStateView::zero(), d)
}

// ── Lifecycle writes ─────────────────────────────────────────────────────────

/// A fresh state document: who the run is, the instant under `time_key`, and
/// every counter and total at 0.
pub open spec fn fresh_doc(
    agent: Seq<char>,
    label: Seq<char>,
    run_id: Seq<char>,
    time_key: Seq<char>,
    now: int,
) -> Map<Seq<char>, ValView> {
    Map::empty().insert("agent"@, ValView::Text(agent)).insert("task"@, ValView::Text(label)).insert(
        "run_id"@,
        ValView::Text(run_id),
    ).insert(time_key, ValView::Int(now)).insert("retry_count"@, ValView::Int(0)).insert(
        "loop_count"@,
        ValView::Int(0),
    ).insert("error_count"@, ValView::Int(0)).insert("pause_count"@, ValView::Int(0)).insert(
        "wait_count"@,
        ValView::Int(0),
    ).insert("pause_total_ms"@, ValView::Int(0)).insert("wait_total_ms"@, ValView::Int(0))
}

fn fresh(agent: &str, label: &str, run_id: &str, time_key: &str, now: i64) -> (r: Fields)
    ensures
        r@ == fresh_doc(agent@, label@, run_id@, time_key@, now as int),
{
    let mut d = Fields::new();
    d.insert(String::from_str("agent"), Val::text(agent));
    d.insert(String::from_str("task"), Val::text(label));
    d.insert(String::from_str("run_id"), Val::text(run_id));
    d.insert(String::from_str(time_key), Val::Int(now as i128));
    d.insert(String::from_str("retry_count"), Val::Int(0));
    d.insert(String::from_str("loop_count"), Val::Int(0));
    d.insert(String::from_str("error_count"), Val::Int(0));
    d.insert(String::from_str("pause_count"), Val::Int(0));
    d.insert(String::from_str("wait_count"), Val::Int(0));
    d.insert(String::from_str("pause_total_ms"), Val::Int(0));
    d.insert(String::from_str("wait_total_ms"), Val::Int(0));
    d
}

/// The state written when a run is queued at `now`.
pub fn queued_doc(agent: &str, label: &str, run_id: &str, now: i64) -> (r: Fields)
    ensures
        r@ == fresh_doc(agent@, label@, run_id@, "queued_at"@, now as int),
{
    fresh(agent, label, run_id, "queued_at", now)
}

/// How a lifecycle step changes the saved state: replace it whole, or merge
/// the given keys into it.
pub enum StateWrite {
    Replace(Fields),
    Merge(Fields),
}

/// What starting a run at `now` writes: over an existing state only the start
/// time; otherwise a fresh state.
pub fn start_write(existing_is_empty: bool, agent: &str, label: &str, run_id: &str, now: i64) -> (r:
    StateWrite)
    ensures
        existing_is_empty ==> (r matches StateWrite::Replace(d) && d@ == fresh_doc(
            agent@,
            label@,
            run_id@,
            "start_time"@,
            now as int,
        )),
        !existing_is_empty ==> (r matches StateWrite::Merge(u) && u@ == single(
            "start_time"@,
            ValView::Int(now as int),
        )),
{
    if existing_is_empty {
        StateWrite::Replace(fresh(agent, label, run_id, "start_time", now))
    } else {
        let mut u = Fields::new();
        u.insert(String::from_str("start_time"), Val::Int(now as i128));
        StateWrite::Merge(u)
    }
}

/// A one-key update.
pub open spec fn single(key: Seq<char>, v: ValView) -> Map<Seq<char>, ValView> {
    Map::empty().insert(key, v)
}

/// A two-key update.
pub open spec fn pair(k1: Seq<char>, v1: ValView, k2: Seq<char>, v2: ValView) -> Map<
    Seq<char>,
    ValView,
> {
    Map::empty().insert(k1, v1).insert(k2, v2)
}

/// The update of a loop step: one more loop.
pub fn loop_update(s: &RunState) -> (r: Fields)
    ensures
        r@ == single("loop_count"@, ValView::Int(s.loop_count + 1)),
{
    let mut u = Fields::new();
    u.insert(String::from_str("loop_count"), Val::Int(s.loop_count as i128 + 1));
    u
}

/// The update of a retry: one more retry.
pub fn retry_update(s: &RunState) -> (r: Fields)
    ensures
        r@ == single("retry_count"@, ValView::Int(s.retry_count + 1)),
{
    let mut u = Fields::new();
    u.insert(String::from_str("retry_count"), Val::Int(s.retry_count as i128 + 1));
    u
}

/// The update of a pause at `now`: the pause instant and one more pause.
pub fn pause_update(s: &RunState, now: i64) -> (r: Fields)
    ensures
        r@ == pair(
            "paused_at"@,
            ValView::Int(now as int),
            "pause_count"@,
            ValView::Int(s.pause_count + 1),
        ),
{
    let mut u = Fields::new();
    u.insert(String::from_str("paused_at"), Val::Int(now as i128));
    u.insert(String::from_str("pause_count"), Val::Int(s.pause_count as i128 + 1));
    u
}

/// The update of a wait at `now`: the wait instant and one more wait.
pub fn wait_update(s: &RunState, now: i64) -> (r: Fields)
    ensures
        r@ == pair(
            "wait_at"@,
            ValView::Int(now as int),
            "wait_count"@,
            ValView::Int(s.wait_count + 1),
        ),
{
    let mut u = Fields::new();
    u.insert(String::from_str("wait_at"), Val::Int(now as i128));
    u.insert(String::from_str("wait_count"), Val::Int(s.wait_count as i128 + 1));
    u
}

/// The update of a non-fatal error: the last error message and one more error.
pub fn error_update(s: &RunState, message: &str) -> (r: Fields)
    ensures
        r@ == pair(
            "last_error"@,
            ValView::Text(message@),
            "error_count"@,
            ValView::Int(s.error_count + 1),
        ),
{
    let mut u = Fields::new();
    u.insert(String::from_str("last_error"), Val::text(message));
    u.insert(String::from_str("error_count"), Val::Int(s.error_count as i128 + 1));
    u
}

/// The update of a resume at `now`: an open pause is closed and its length
/// added to the pause total; likewise an open wait.
pub open spec fn resume_map(s: RunStateView, now: int) -> Map<Seq<char>, ValView> {
    let after_pause = if s.paused_at > 0 {
        Map::empty().insert(
            "pause_total_ms"@,
            ValView::Int(s.pause_total_ms + (now - s.paused_at)),
        ).insert("paused_at"@, ValView::Null)
    } else {
        Map::empty()
    };
    if s.wait_at > 0 {
        after_pause.insert("wait_total_ms"@, ValView::Int(s.wait_total_ms + (now - s.wait_at))).insert(
            "wait_at"@,
            ValView::Null,
        )
    } else {
        after_pause
    }
}

/// The update of a resume at `now` (empty when nothing was paused or waiting).
pub fn resume_update(s: &RunState, now: i64) -> (r: Fields)
    ensures
        r@ == resume_map(s@, now as int),
{
    let mut u = Fields::new();
    if s.paused_at > 0 {
        u.insert(
            String::from_str("pause_total_ms"),
            Val::Int(s.pause_total_ms as i128 + (now as i128 - s.paused_at as i128)),
        );
        u.insert(String::from_str("paused_at"), Val::Null);
    }
    if s.wait_at > 0 {
        u.insert(
            String::from_str("wait_total_ms"),
            Val::Int(s.wait_total_ms as i128 + (now as i128 - s.wait_at as i128)),
        );
        u.insert(String::from_str("wait_at"), Val::Null);
    }
    u
}

// ── Timing ───────────────────────────────────────────────────────────────────

/// The durations reported for a run, in milliseconds.
pub struct Timing {
    pub total_ms: i128,
    pub queue_ms: i128,
    pub pause_ms: i128,
    pub wait_ms: i128,
    pub active_ms: i128,
}

/// Time paused so far, counting an open pause up to `now`.
pub open spec fn pause_so_far(s: RunStateView, now: int) -> int {
    s.pause_total_ms + if s.paused_at > 0 {
        now - s.paused_at
    } else {
        0
    }
}

/// Time spent waiting so far, counting an open wait up to `now`.
pub open spec fn wait_so_far(s: RunStateView, now: int) -> int {
    s.wait_total_ms + if s.wait_at > 0 {
        now - s.wait_at
    } else {
        0
    }
}

/// Wall-clock time since the start, or 0 before a start.
pub open spec fn total_of(s: RunStateView, now: int) -> int {
    if s.start_time > 0 {
        now - s.start_time
    } else {
        0
    }
}

/// Time between queueing and start, or 0 unless both happened.
pub open spec fn queue_of(s: RunStateView) -> int {
    if s.start_time > 0 && s.queued_at > 0 {
        s.start_time - s.queued_at
    } else {
        0
    }
}

/// Active time: total less pauses and waits, never below 0.
pub open spec fn active_of(s: RunStateView, now: int) -> int {
    let a = total_of(s, now) - pause_so_far(s, now) - wait_so_far(s, now);
    if a > 0 {
        a
    } else {
        0
    }
}

/// The durations of a run at `now`.
pub fn timing(s: &RunState, now: i64) -> (r: Timing)
    ensures
        r.total_ms == total_of(s@, now as int),
        r.queue_ms == queue_of(s@),
        r.pause_ms == pause_so_far(s@, now as int),
        r.wait_ms == wait_so_far(s@, now as int),
        r.active_ms == active_of(s@, now as int),
{
    let now = now as i128;
    let mut pause = s.pause_total_ms as i128;
    let mut wait = s.wait_total_ms as i128;
    if s.paused_at > 0 {
        pause = pause + (now - s.paused_at as i128);
    }
    if s.wait_at > 0 {
        wait = wait + (now - s.wait_at as i128);
    }
    let total = if s.start_time > 0 {
        now - s.start_time as i128
    } else {
        0
    };
    let queue = if s.start_time > 0 && s.queued_at > 0 {
        s.start_time as i128 - s.queued_at as i128
    } else {
        0
    };
    let a = total - pause - wait;
    let active = if a > 0 {
        a
    } else {
        0
    };
    Timing { total_ms: total, queue_ms: queue, pause_ms: pause, wait_ms: wait, active_ms: active }
}

} // verus!

verus! {

// ── Laws ─────────────────────────────────────────────────────────────────────



/// The keys of the state document, told apart by length and first letters.
proof fn lemma_state_keys()
    ensures
        "queued_at"@.len() == 9 && "queued_at"@[0] == 'q' && "queued_at"@[1] == 'u',
        "start_time"@.len() == 10 && "start_time"@[0] == 's' && "start_time"@[1] == 't',
        "paused_at"@.len() == 9 && "paused_at"@[0] == 'p' && "paused_at"@[1] == 'a',
        "wait_at"@.len() == 7 && "wait_at"@[0] == 'w' && "wait_at"@[1] == 'a',
        "pause_total_ms"@.len() == 14 && "pause_total_ms"@[0] == 'p' && "pause_total_ms"@[1] == 'a',
        "wait_total_ms"@.len() == 13 && "wait_total_ms"@[0] == 'w' && "wait_total_ms"@[1] == 'a',
        "retry_count"@.len() == 11 && "retry_count"@[0] == 'r' && "retry_count"@[1] == 'e',
        "loop_count"@.len() == 10 && "loop_count"@[0] == 'l' && "loop_count"@[1] == 'o',
        "error_count"@.len() == 11 && "error_count"@[0] == 'e' && "error_count"@[1] == 'r',
        "pause_count"@.len() == 11 && "pause_count"@[0] == 'p' && "pause_count"@[1] == 'a',
        "wait_count"@.len() == 10 && "wait_count"@[0] == 'w' && "wait_count"@[1] == 'a',
        "last_error"@.len() == 10 && "last_error"@[0] == 'l' && "last_error"@[1] == 'a',
        "agent"@.len() == 5 && "agent"@[0] == 'a' && "agent"@[1] == 'g',
        "task"@.len() == 4 && "task"@[0] == 't' && "task"@[1] == 'a',
        "run_id"@.len() == 6 && "run_id"@[0] == 'r' && "run_id"@[1] == 'u',
        "metrics"@.len() == 7 && "metrics"@[0] == 'm' && "metrics"@[1] == 'e',
{
    reveal_strlit("queued_at");
    reveal_strlit("start_time");
    reveal_strlit("paused_at");
    reveal_strlit("wait_at");
    reveal_strlit("pause_total_ms");
    reveal_strlit("wait_total_ms");
    reveal_strlit("retry_count");
    reveal_strlit("loop_count");
    reveal_strlit("error_count");
    reveal_strlit("pause_count");
    reveal_strlit("wait_count");
    reveal_strlit("last_error");
    reveal_strlit("agent");
    reveal_strlit("task");
    reveal_strlit("run_id");
    reveal_strlit("metrics");
}

/// Each counting step raises its own counter by exactly one and leaves every
/// other field of the state as it was.
pub proof fn law_counting_steps(s: RunStateView, now: int, message: Seq<char>)
    requires
    ensures
        apply_updates(s, single("loop_count"@, ValView::Int(s.loop_count + 1)))
            == (RunStateView { loop_count: s.loop_count + 1, ..s }),
        apply_updates(s, single("retry_count"@, ValView::Int(s.retry_count + 1)))
            == (RunStateView { retry_count: s.retry_count + 1, ..s }),
        apply_updates(
            s,
            pair("last_error"@, ValView::Text(message), "error_count"@, ValView::Int(s.error_count + 1)),
        ) == (RunStateView { error_count: s.error_count + 1, ..s }),
        apply_updates(
            s,
            pair("paused_at"@, ValView::Int(now), "pause_count"@, ValView::Int(s.pause_count + 1)),
        ) == (RunStateView { paused_at: now, pause_count: s.pause_count + 1, ..s }),
        apply_updates(
            s,
            pair("wait_at"@, ValView::Int(now), "wait_count"@, ValView::Int(s.wait_count + 1)),
        ) == (RunStateView { wait_at: now, wait_count: s.wait_count + 1, ..s }),
{
    lemma_state_keys();
}

/// A pause at `t1` followed by a resume at `t2` closes the pause and adds
/// exactly `t2 - t1` to the pause total; the pause counter rose by one.
pub proof fn law_pause_then_resume(s: RunStateView, t1: int, t2: int)
    requires
        t1 > 0,
    ensures
        ({
            let s1 = apply_updates(
                s,
                pair("paused_at"@, ValView::Int(t1), "pause_count"@, ValView::Int(s.pause_count + 1)),
            );
            let s2 = apply_updates(s1, resume_map(s1, t2));
            &&& s2.paused_at == 0
            &&& s2.pause_total_ms == s.pause_total_ms + (t2 - t1)
            &&& s2.pause_count == s.pause_count + 1
        }),
{
    lemma_state_keys();
}

/// A wait at `t1` followed by a resume at `t2` closes the wait and adds
/// exactly `t2 - t1` to the wait total; the wait counter rose by one.
pub proof fn law_wait_then_resume(s: RunStateView, t1: int, t2: int)
    requires
        t1 > 0,
    ensures
        ({
            let s1 = apply_updates(
                s,
                pair("wait_at"@, ValView::Int(t1), "wait_count"@, ValView::Int(s.wait_count + 1)),
            );
            let s2 = apply_updates(s1, resume_map(s1, t2));
            &&& s2.wait_at == 0
            &&& s2.wait_total_ms == s.wait_total_ms + (t2 - t1)
            &&& s2.wait_count == s.wait_count + 1
        }),
{
    lemma_state_keys();
}

/// A resume with nothing paused or waiting changes nothing.
pub proof fn law_resume_when_running(s: RunStateView, now: int)
    requires
        s.paused_at <= 0,
        s.wait_at <= 0,
    ensures
        resume_map(s, now) == Map::<Seq<char>, ValView>::empty(),
{
}

/// Queueing at `t0` and then starting at `t1` keeps the queue instant, so the
/// reported queue time is `t1 - t0`; every counter starts at 0.
pub proof fn law_queue_then_start(
    agent: Seq<char>,
    label: Seq<char>,
    run_id: Seq<char>,
    t0: int,
    t1: int,
)
    requires
        t0 > 0,
        t1 > 0,
    ensures
        ({
            let s1 = state_of_doc(fresh_doc(agent, label, run_id, "queued_at"@, t0));
            let s2 = apply_updates(s1, single("start_time"@, ValView::Int(t1)));
            &&& s2 == (RunStateView { queued_at: t0, start_time: t1, ..RunStateView::zero() })
            &&& queue_of(s2) == t1 - t0
        }),
{
    lemma_state_keys();
}

/// Starting a run that was never queued reports no queue time.
pub proof fn law_start_without_queue(
    agent: Seq<char>,
    label: Seq<char>,
    run_id: Seq<char>,
    t1: int,
)
    requires
    ensures
        state_of_doc(fresh_doc(agent, label, run_id, "start_time"@, t1)) == (RunStateView {
            start_time: t1,
            ..RunStateView::zero()
        }),
        queue_of(state_of_doc(fresh_doc(agent, label, run_id, "start_time"@, t1))) == 0,
{
    lemma_state_keys();
}

/// Active time is the total less pauses and waits whenever that is not
/// negative, and 0 otherwise.
pub proof fn law_active_time(s: RunStateView, now: int)
    ensures
        total_of(s, now) - pause_so_far(s, now) - wait_so_far(s, now) >= 0 ==> active_of(s, now)
            == total_of(s, now) - pause_so_far(s, now) - wait_so_far(s, now),
        total_of(s, now) - pause_so_far(s, now) - wait_so_far(s, now) < 0 ==> active_of(s, now)
            == 0,
{
}

/// An open wait counts up to `now`: with a wait begun at `t1 > 0` (not after
/// `now`) and not yet resumed, the wait time at `now` is the closed waits plus
/// `now - t1`, and the active time is that of the same run without the open
/// wait less `now - t1`, while it stays positive; total and pause time are
/// unchanged.
pub proof fn law_open_wait_counts(s: RunStateView, t1: int, now: int)
    requires
        0 < t1 <= now,
        s.wait_at <= 0,
    ensures
        ({
            let w = RunStateView { wait_at: t1, ..s };
            &&& wait_so_far(w, now) == s.wait_total_ms + (now - t1)
            &&& wait_so_far(w, now) == wait_so_far(s, now) + (now - t1)
            &&& total_of(w, now) == total_of(s, now)
            &&& pause_so_far(w, now) == pause_so_far(s, now)
            &&& active_of(w, now) > 0 ==> active_of(w, now) == active_of(s, now) - (now - t1)
        }),
{
}

/// An open pause counts up to `now`: with a pause begun at `t1 > 0` (not
/// after `now`) and not yet resumed, the pause time at `now` is the closed
/// pauses plus `now - t1`, and the active time is that of the same run without
/// the open pause less `now - t1`, while it stays positive; total and wait
/// time are unchanged.
pub proof fn law_open_pause_counts(s: RunStateView, t1: int, now: int)
    requires
        0 < t1 <= now,
        s.paused_at <= 0,
    ensures
        ({
            let w = RunStateView { paused_at: t1, ..s };
            &&& pause_so_far(w, now) == s.pause_total_ms + (now - t1)
            &&& pause_so_far(w, now) == pause_so_far(s, now) + (now - t1)
            &&& total_of(w, now) == total_of(s, now)
            &&& wait_so_far(w, now) == wait_so_far(s, now)
            &&& active_of(w, now) > 0 ==> active_of(w, now) == active_of(s, now) - (now - t1)
        }),
{
}

/// A run started at `t1` that began waiting at `t2` and was not resumed
/// reports at `now`: total `now - t1`, wait `now - t2`, no pause, and active
/// time `t2 - t1`, the time it ran before waiting.
pub proof fn law_waiting_run(
    agent: Seq<char>,
    label: Seq<char>,
    run_id: Seq<char>,
    t1: int,
    t2: int,
    now: int,
)
    requires
        0 < t1 <= t2 <= now,
    ensures
        ({
            let s1 = state_of_doc(fresh_doc(agent, label, run_id, "start_time"@, t1));
            let s2 = apply_updates(
                s1,
                pair("wait_at"@, ValView::Int(t2), "wait_count"@, ValView::Int(s1.wait_count + 1)),
            );
            &&& total_of(s2, now) == now - t1
            &&& wait_so_far(s2, now) == now - t2
            &&& pause_so_far(s2, now) == 0
            &&& active_of(s2, now) == t2 - t1
        }),
{
    lemma_state_keys();
    law_start_without_queue(agent, label, run_id, t1);
    let s1 = state_of_doc(fresh_doc(agent, label, run_id, "start_time"@, t1));
    law_counting_steps(s1, t2, Seq::empty());
}

/// Replacing a character that does not occur leaves the text as it was.
proof fn lemma_replace_absent(s: Seq<char>, c: char, with: Seq<char>)
    requires
        forall|i: int| 0 <= i < s.len() ==> s[i] != c,
    ensures
        replace_char(s, c, with) == s,
    decreases s.len(),
{
    if s.len() > 0 {
        let d = s.drop_last();
        assert forall|i: int| 0 <= i < d.len() implies d[i] != c by {
            assert(d[i] == s[i]);
        }
        lemma_replace_absent(d, c, with);
        assert(d + seq![s.last()] =~= s);
    }
}

/// The sweep of stale files takes a state or pointer file of the agent
/// exactly when it was last changed more than the time to live before now: a
/// file changed within the time to live, or whose change time is unknown,
/// stays (for an agent name without the path separator).
pub proof fn law_sweep_keeps_fresh_files(
    user: Seq<char>,
    agent: Seq<char>,
    run_id: Seq<char>,
    label: Seq<char>,
    sep: char,
    modified: u64,
    now_secs: u64,
    ttl: u64,
)
    requires
        forall|i: int| 0 <= i < agent.len() ==> agent[i] != sep,
    ensures
        ({
            let prefix = agent_prefix_of(user, agent);
            let cutoff = cutoff_of(now_secs as int, ttl as int) as u64;
            let state_name = state_file_name_of(user, agent, run_id, sep);
            let pointer_name = pointer_file_name_of(user, agent, label);
            &&& is_stale_file(state_name, prefix, Some(modified), cutoff) <==> modified + ttl
                < now_secs
            &&& is_stale_file(pointer_name, prefix, Some(modified), cutoff) <==> modified + ttl
                < now_secs
            &&& !is_stale_file(state_name, prefix, None, cutoff)
            &&& !is_stale_file(pointer_name, prefix, None, cutoff)
        }),
{
    lemma_replace_absent(agent, sep, "_"@);
    let prefix = agent_prefix_of(user, agent);
    let rid = replace_char(run_id, sep, "_"@);
    let state_name = state_file_name_of(user, agent, run_id, sep);
    let pointer_name = pointer_file_name_of(user, agent, label);
    assert(state_name =~= prefix + rid + ".json"@);
    assert(pointer_name =~= prefix + safe_label(label) + ".ptr"@);
    assert(state_name.subrange(0, prefix.len() as int) =~= prefix);
    assert(pointer_name.subrange(0, prefix.len() as int) =~= prefix);
    assert(state_name.subrange(state_name.len() - ".json"@.len(), state_name.len() as int)
        =~= ".json"@);
    assert(pointer_name.subrange(pointer_name.len() - ".ptr"@.len(), pointer_name.len() as int)
        =~= ".ptr"@);
}

/// A run queued at `t0`, started at `t1`, paused at `t2` and resumed at `t3`
/// reports at `now`: total `now - t1`, queue `t1 - t0`, pause `t3 - t2`, no
/// wait, and the rest of the total as active time.
pub proof fn law_timed_run(
    agent: Seq<char>,
    label: Seq<char>,
    run_id: Seq<char>,
    t0: int,
    t1: int,
    t2: int,
    t3: int,
    now: int,
)
    requires
        0 < t0,
        0 < t1,
        0 < t2,
    ensures
        ({
            let s1 = state_of_doc(fresh_doc(agent, label, run_id, "queued_at"@, t0));
            let s2 = apply_updates(s1, single("start_time"@, ValView::Int(t1)));
            let s3 = apply_updates(
                s2,
                pair("paused_at"@, ValView::Int(t2), "pause_count"@, ValView::Int(s2.pause_count + 1)),
            );
            let s4 = apply_updates(s3, resume_map(s3, t3));
            &&& total_of(s4, now) == now - t1
            &&& queue_of(s4) == t1 - t0
            &&& pause_so_far(s4, now) == t3 - t2
            &&& wait_so_far(s4, now) == 0
            &&& active_of(s4, now) == if (now - t1) - (t3 - t2) > 0 {
                (now - t1) - (t3 - t2)
            } else {
                0
            }
        }),
{
    lemma_state_keys();
    law_queue_then_start(agent, label, run_id, t0, t1);
    let s1 = state_of_doc(fresh_doc(agent, label, run_id, "queued_at"@, t0));
    let s2 = apply_updates(s1, single("start_time"@, ValView::Int(t1)));
    law_pause_then_resume(s2, t2, t3);
}

} // verus!
