//! The notification sent for an event: its title, type, flags, links and the
//! metadata gathered from the run.

use vstd::prelude::*;
use crate::events::{actionable_by_default, event_type_of, get_event_type, is_actionable_default};
use crate::fields::{Fields, Val, ValView};
use crate::state::{
    apply_updates, fresh_doc, law_queue_then_start, single, state_of_doc,
    RunState, RunStateView, active_of, pause_so_far, queue_of, timing, total_of, wait_so_far,
};
use crate::text::{concat2, push_str};

verus! {

/// A notification ready to be delivered.
pub struct Payload {
    pub event: String,
    pub title: String,
    pub message: String,
    /// The notification type: `info`, `success`, `warning` or `urgent`.
    pub event_type: String,
    pub agent: String,
    pub task_id: String,
    pub is_actionable: bool,
    pub image_url: String,
    pub open_url: String,
    pub download_url: String,
    pub tags: String,
    /// When the notification was made, in milliseconds since the epoch.
    pub ts_ms: i64,
    pub meta: Fields,
}

/// The title of a notification: the agent, the task label when there is one,
/// and the event, separated by ` | `.
pub open spec fn title_of(agent: Seq<char>, label: Seq<char>, event: Seq<char>) -> Seq<char> {
    if label.len() == 0 {
        agent + " | "@ + event
    } else {
        agent + " | "@ + label + " | "@ + event
    }
}

/// The title of a notification.
pub fn make_title(agent: &str, label: &str, event: &str) -> (r: String)
    ensures
        r@ == title_of(agent@, label@, event@),
{
    let mut t = concat2(agent, " | ");
    if label.unicode_len() != 0 {
        push_str(&mut t, label);
        push_str(&mut t, " | ");
    }
    push_str(&mut t, event);
    t
}

/// `m` with `key` set to `v` when `v` is positive.
pub open spec fn put_positive(m: Map<Seq<char>, ValView>, key: Seq<char>, v: int) -> Map<
    Seq<char>,
    ValView,
> {
    if v > 0 {
        m.insert(key, ValView::Int(v))
    } else {
        m
    }
}

/// The metadata every notification starts from: the agent, and the run id and
/// task label when they are given.
pub open spec fn base_meta(agent: Seq<char>, run_id: Seq<char>, label: Seq<char>) -> Map<
    Seq<char>,
    ValView,
> {
    let m = Map::empty().insert("agent"@, ValView::Text(agent));
    let m = if run_id.len() > 0 {
        m.insert("run_id"@, ValView::Text(run_id))
    } else {
        m
    };
    if label.len() > 0 {
        m.insert("task"@, ValView::Text(label))
    } else {
        m
    }
}

/// `m` with the run's durations and counters at `now`, each only when positive.
pub open spec fn with_timing(m: Map<Seq<char>, ValView>, s: RunStateView, now: int) -> Map<
    Seq<char>,
    ValView,
> {
    let m = put_positive(m, "total_duration_ms"@, total_of(s, now));
    let m = put_positive(m, "queue_ms"@, queue_of(s));
    let m = put_positive(m, "pause_ms"@, pause_so_far(s, now));
    let m = put_positive(m, "wait_ms"@, wait_so_far(s, now));
    let m = put_positive(m, "active_ms"@, active_of(s, now));
    let m = put_positive(m, "retry_count"@, s.retry_count);
    let m = put_positive(m, "loop_count"@, s.loop_count);
    let m = put_positive(m, "error_count"@, s.error_count);
    let m = put_positive(m, "pause_count"@, s.pause_count);
    put_positive(m, "wait_count"@, s.wait_count)
}

/// The metadata of a notification before its reserved keys are taken out:
/// later sources win over earlier ones (base, then the saved state's durations,
/// counters and metrics, then the run's metrics, then the extra metadata).
pub open spec fn gathered_meta(
    agent: Seq<char>,
    run_id: Seq<char>,
    label: Seq<char>,
    state: Option<(RunStateView, Map<Seq<char>, ValView>)>,
    now: int,
    run_metrics: Map<Seq<char>, ValView>,
    extra: Map<Seq<char>, ValView>,
) -> Map<Seq<char>, ValView> {
    let m = base_meta(agent, run_id, label);
    let m = match state {
        Some((s, saved)) => with_timing(m, s, now).union_prefer_right(saved),
        None => m,
    };
    m.union_prefer_right(run_metrics).union_prefer_right(extra)
}

/// The text held under `key`, or the empty text when there is none.
pub open spec fn text_under(m: Map<Seq<char>, ValView>, key: Seq<char>) -> Seq<char> {
    if m.dom().contains(key) && m[key] is Text {
        m[key]->Text_0
    } else {
        Seq::empty()
    }
}

/// The `is_actionable` flag of the metadata, or the event's default.
pub open spec fn actionable_under(m: Map<Seq<char>, ValView>, event: Seq<char>) -> bool {
    if m.dom().contains("is_actionable"@) && m["is_actionable"@] is Bool {
        m["is_actionable"@]->Bool_0
    } else {
        actionable_by_default(event)
    }
}

/// The metadata with the keys that become fields of the notification removed.
pub open spec fn without_reserved(m: Map<Seq<char>, ValView>) -> Map<Seq<char>, ValView> {
    m.remove("image_url"@).remove("open_url"@).remove("download_url"@).remove("tags"@).remove(
        "is_actionable"@,
    )
}

/// The view of an optional saved state: its numeric fields and its metrics.
pub open spec fn state_view(state: Option<&RunState>) -> Option<(RunStateView, Map<Seq<char>, ValView>)> {
    match state {
        Some(s) => Some((s@, s.metrics@)),
        None => None,
    }
}

/// The view of optional extra metadata (none counts as empty).
pub open spec fn extra_view(extra: Option<&Fields>) -> Map<Seq<char>, ValView> {
    match extra {
        Some(e) => e@,
        None => Map::empty(),
    }
}

fn put_if_positive(m: &mut Fields, key: &str, v: i128)
    ensures
        final(m)@ == put_positive(old(m)@, key@, v as int),
{
    if v > 0 {
        m.insert(String::from_str(key), Val::Int(v));
    }
}

/// Gathers the metadata of a notification (see [`gathered_meta`]).
pub fn gather_meta(
    agent: &str,
    run_id: &str,
    label: &str,
    state: Option<&RunState>,
    now: i64,
    run_metrics: &Fields,
    extra: Option<&Fields>,
) -> (r: Fields)
    ensures
        r@ == gathered_meta(
            agent@,
            run_id@,
            label@,
            state_view(state),
            now as int,
            run_metrics@,
            extra_view(extra),
        ),
{
    let mut m = base(agent, run_id, label);
    match state {
        Some(s) => {
            add_timing(&mut m, s, now);
            m.extend_from(&s.metrics);
        },
        None => {},
    }
    m.extend_from(run_metrics);
    match extra {
        Some(e) => m.extend_from(e),
        None => {
            assert(m@.union_prefer_right(Map::empty()) =~= m@);
        },
    }
    m
}

/// The base metadata (see [`base_meta`]).
pub fn base(agent: &str, run_id: &str, label: &str) -> (r: Fields)
    ensures
        r@ == base_meta(agent@, run_id@, label@),
{
    let mut m = Fields::new();
    m.insert(String::from_str("agent"), Val::text(agent));
    if run_id.unicode_len() != 0 {
        m.insert(String::from_str("run_id"), Val::text(run_id));
    }
    if label.unicode_len() != 0 {
        m.insert(String::from_str("task"), Val::text(label));
    }
    m
}

/// Adds the run's positive durations and counters (see [`with_timing`]).
pub fn add_timing(m: &mut Fields, s: &RunState, now: i64)
    ensures
        final(m)@ == with_timing(old(m)@, s@, now as int),
{
    let t = timing(s, now);
    put_if_positive(m, "total_duration_ms", t.total_ms);
    put_if_positive(m, "queue_ms", t.queue_ms);
    put_if_positive(m, "pause_ms", t.pause_ms);
    put_if_positive(m, "wait_ms", t.wait_ms);
    put_if_positive(m, "active_ms", t.active_ms);
    put_if_positive(m, "retry_count", s.retry_count as i128);
    put_if_positive(m, "loop_count", s.loop_count as i128);
    put_if_positive(m, "error_count", s.error_count as i128);
    put_if_positive(m, "pause_count", s.pause_count as i128);
    put_if_positive(m, "wait_count", s.wait_count as i128);
}

/// Takes `key` out of the metadata, handing back its text (or the empty text
/// when it held none, or held something other than text).
fn take_text(m: &mut Fields, key: &str) -> (r: String)
    ensures
        final(m)@ == old(m)@.remove(key@),
        r@ == text_under(old(m)@, key@),
{
    match m.remove(key) {
        Some(Val::Text(s)) => s,
        _ => String::new(),
    }
}

/// `p` is the notification of `event` with `message` from `agent`, for the
/// run `run_id` of task `label` (both empty for an agent-level event), with
/// the run's saved state when there is one (its durations taken at `now`), the
/// given metrics and extra metadata, stamped `ts` milliseconds after the epoch.
pub open spec fn payload_for(
    p: Payload,
    agent: Seq<char>,
    event: Seq<char>,
    message: Seq<char>,
    run_id: Seq<char>,
    label: Seq<char>,
    state: Option<(RunStateView, Map<Seq<char>, ValView>)>,
    now: int,
    ts: int,
    run_metrics: Map<Seq<char>, ValView>,
    extra: Map<Seq<char>, ValView>,
) -> bool {
    let m = gathered_meta(agent, run_id, label, state, now, run_metrics, extra);
    &&& p.event@ == event
    &&& p.title@ == title_of(agent, label, event)
    &&& p.message@ == message
    &&& p.event_type@ == event_type_of(event)
    &&& p.agent@ == agent
    &&& p.task_id@ == label
    &&& p.is_actionable == actionable_under(m, event)
    &&& p.image_url@ == text_under(m, "image_url"@)
    &&& p.open_url@ == text_under(m, "open_url"@)
    &&& p.download_url@ == text_under(m, "download_url"@)
    &&& p.tags@ == text_under(m, "tags"@)
    &&& p.ts_ms == ts
    &&& p.meta@ == without_reserved(m)
}

/// Builds the notification for `event` (see [`payload_for`]).
pub fn build_payload(
    agent: &str,
    event: &str,
    message: &str,
    run_id: &str,
    label: &str,
    state: Option<&RunState>,
    now: i64,
    ts_ms: i64,
    run_metrics: &Fields,
    extra: Option<&Fields>,
) -> (p: Payload)
    ensures
        payload_for(
            p,
            agent@,
            event@,
            message@,
            run_id@,
            label@,
            state_view(state),
            now as int,
            ts_ms as int,
            run_metrics@,
            extra_view(extra),
        ),
{
    let title = make_title(agent, label, event);
    let mut meta = gather_meta(agent, run_id, label, state, now, run_metrics, extra);
    let ghost m = meta@;
    let image_url = take_text(&mut meta, "image_url");
    let open_url = take_text(&mut meta, "open_url");
    let download_url = take_text(&mut meta, "download_url");
    let tags = take_text(&mut meta, "tags");
    proof {
        lemma_reserved_keys();
    }
    let is_actionable = match meta.remove("is_actionable") {
        Some(Val::Bool(b)) => b,
        _ => is_actionable_default(event),
    };
    Payload {
        event: String::from_str(event),
        title,
        message: String::from_str(message),
        event_type: String::from_str(get_event_type(event)),
        agent: String::from_str(agent),
        task_id: String::from_str(label),
        is_actionable,
        image_url,
        open_url,
        download_url,
        tags,
        ts_ms,
        meta,
    }
}

/// The reserved keys are distinct from one another.
proof fn lemma_reserved_keys()
    ensures
        "image_url"@ != "open_url"@,
        "image_url"@ != "download_url"@,
        "image_url"@ != "tags"@,
        "image_url"@ != "is_actionable"@,
        "open_url"@ != "download_url"@,
        "open_url"@ != "tags"@,
        "open_url"@ != "is_actionable"@,
        "download_url"@ != "tags"@,
        "download_url"@ != "is_actionable"@,
        "tags"@ != "is_actionable"@,
{
    reveal_strlit("image_url");
    reveal_strlit("open_url");
    reveal_strlit("download_url");
    reveal_strlit("tags");
    reveal_strlit("is_actionable");
    assert("image_url"@[0] != "open_url"@[0]);
    assert("image_url"@[0] != "download_url"@[0]);
    assert("image_url"@[0] != "tags"@[0]);
    assert("image_url"@[1] != "is_actionable"@[1]);
    assert("open_url"@[0] != "download_url"@[0]);
    assert("open_url"@[0] != "tags"@[0]);
    assert("open_url"@[0] != "is_actionable"@[0]);
    assert("download_url"@[0] != "tags"@[0]);
    assert("download_url"@[0] != "is_actionable"@[0]);
    assert("tags"@[0] != "is_actionable"@[0]);
}

// ── Laws ─────────────────────────────────────────────────────────────────────

/// The metadata keys, told apart by length and first letter.
proof fn lemma_meta_keys()
    ensures
        "total_duration_ms"@.len() == 17 && "total_duration_ms"@[0] == 't',
        "queue_ms"@.len() == 8 && "queue_ms"@[0] == 'q',
        "pause_ms"@.len() == 8 && "pause_ms"@[0] == 'p',
        "wait_ms"@.len() == 7 && "wait_ms"@[0] == 'w',
        "active_ms"@.len() == 9 && "active_ms"@[0] == 'a',
        "retry_count"@.len() == 11 && "retry_count"@[0] == 'r',
        "loop_count"@.len() == 10 && "loop_count"@[0] == 'l',
        "error_count"@.len() == 11 && "error_count"@[0] == 'e',
        "pause_count"@.len() == 11 && "pause_count"@[0] == 'p',
        "wait_count"@.len() == 10 && "wait_count"@[0] == 'w',
        "agent"@.len() == 5 && "agent"@[0] == 'a',
        "run_id"@.len() == 6 && "run_id"@[0] == 'r',
        "task"@.len() == 4 && "task"@[0] == 't',
{
    reveal_strlit("total_duration_ms");
    reveal_strlit("queue_ms");
    reveal_strlit("pause_ms");
    reveal_strlit("wait_ms");
    reveal_strlit("active_ms");
    reveal_strlit("retry_count");
    reveal_strlit("loop_count");
    reveal_strlit("error_count");
    reveal_strlit("pause_count");
    reveal_strlit("wait_count");
    reveal_strlit("agent");
    reveal_strlit("run_id");
    reveal_strlit("task");
}

/// The keys that become fields of the notification never remain in its
/// metadata.
pub proof fn law_reserved_keys_stripped(m: Map<Seq<char>, ValView>)
    ensures
        !without_reserved(m).dom().contains("image_url"@),
        !without_reserved(m).dom().contains("open_url"@),
        !without_reserved(m).dom().contains("download_url"@),
        !without_reserved(m).dom().contains("tags"@),
        !without_reserved(m).dom().contains("is_actionable"@),
{
}

/// Extra metadata wins over the run's metrics, which win over the saved
/// metrics, which win over the durations and counters.
pub proof fn law_meta_precedence(
    agent: Seq<char>,
    run_id: Seq<char>,
    label: Seq<char>,
    s: RunStateView,
    saved: Map<Seq<char>, ValView>,
    now: int,
    run_metrics: Map<Seq<char>, ValView>,
    extra: Map<Seq<char>, ValView>,
    k: Seq<char>,
)
    ensures
        ({
            let m = gathered_meta(agent, run_id, label, Some((s, saved)), now, run_metrics, extra);
            &&& extra.dom().contains(k) ==> m[k] == extra[k]
            &&& !extra.dom().contains(k) && run_metrics.dom().contains(k) ==> m[k] == run_metrics[k]
            &&& !extra.dom().contains(k) && !run_metrics.dom().contains(k) && saved.dom().contains(k)
                ==> m[k] == saved[k]
        }),
{
}

/// An `is_actionable` flag among the extra metadata decides whether the
/// notification asks to act, whatever the event.
pub proof fn law_actionable_override(
    agent: Seq<char>,
    run_id: Seq<char>,
    label: Seq<char>,
    state: Option<(RunStateView, Map<Seq<char>, ValView>)>,
    now: int,
    run_metrics: Map<Seq<char>, ValView>,
    extra: Map<Seq<char>, ValView>,
    event: Seq<char>,
    b: bool,
)
    requires
        extra.dom().contains("is_actionable"@),
        extra["is_actionable"@] == ValView::Bool(b),
    ensures
        actionable_under(gathered_meta(agent, run_id, label, state, now, run_metrics, extra), event)
            == b,
{
}

/// Each duration is reported exactly when it is positive, with its value, and
/// each counter exactly when it is positive (when no metrics or extra
/// metadata use their keys).
pub proof fn law_durations_reported_when_positive(
    agent: Seq<char>,
    run_id: Seq<char>,
    label: Seq<char>,
    s: RunStateView,
    now: int,
)
    ensures
        ({
            let m = gathered_meta(agent, run_id, label, Some((s, Map::empty())), now, Map::empty(), Map::empty());
            &&& m.dom().contains("total_duration_ms"@) == (total_of(s, now) > 0)
            &&& total_of(s, now) > 0 ==> m["total_duration_ms"@] == ValView::Int(total_of(s, now))
            &&& m.dom().contains("queue_ms"@) == (queue_of(s) > 0)
            &&& queue_of(s) > 0 ==> m["queue_ms"@] == ValView::Int(queue_of(s))
            &&& m.dom().contains("pause_ms"@) == (pause_so_far(s, now) > 0)
            &&& pause_so_far(s, now) > 0 ==> m["pause_ms"@] == ValView::Int(pause_so_far(s, now))
            &&& m.dom().contains("wait_ms"@) == (wait_so_far(s, now) > 0)
            &&& wait_so_far(s, now) > 0 ==> m["wait_ms"@] == ValView::Int(wait_so_far(s, now))
            &&& m.dom().contains("active_ms"@) == (active_of(s, now) > 0)
            &&& active_of(s, now) > 0 ==> m["active_ms"@] == ValView::Int(active_of(s, now))
            &&& m.dom().contains("retry_count"@) == (s.retry_count > 0)
            &&& m.dom().contains("loop_count"@) == (s.loop_count > 0)
            &&& m.dom().contains("error_count"@) == (s.error_count > 0)
            &&& m.dom().contains("pause_count"@) == (s.pause_count > 0)
            &&& m.dom().contains("wait_count"@) == (s.wait_count > 0)
        }),
{
    lemma_meta_keys();
    let m = gathered_meta(agent, run_id, label, Some((s, Map::empty())), now, Map::empty(), Map::empty());
    let w = with_timing(base_meta(agent, run_id, label), s, now);
    assert(m =~= w);
}

/// An agent-level event (no run, no state) reports only the agent, the given
/// metrics and the extra metadata.
pub proof fn law_agent_level_meta(
    agent: Seq<char>,
    now: int,
    metrics: Map<Seq<char>, ValView>,
    extra: Map<Seq<char>, ValView>,
)
    ensures
        gathered_meta(agent, Seq::empty(), Seq::empty(), None, now, metrics, extra)
            == Map::<Seq<char>, ValView>::empty().insert("agent"@, ValView::Text(agent)).union_prefer_right(
            metrics,
        ).union_prefer_right(extra),
{
}

/// A progress notification of a run queued at `t0` and started at `t1` reports
/// the time since the start as total and active time, and the queue time;
/// nothing was paused or waited.
pub proof fn law_progress_reports_timing(
    p: Payload,
    agent: Seq<char>,
    message: Seq<char>,
    run_id: Seq<char>,
    label: Seq<char>,
    t0: int,
    t1: int,
    now: int,
    ts: int,
)
    requires
        0 < t0 < t1 < now,
        payload_for(
            p,
            agent,
            "task.progress"@,
            message,
            run_id,
            label,
            Some(
                (
                    apply_updates(
                        state_of_doc(fresh_doc(agent, label, run_id, "queued_at"@, t0)),
                        single("start_time"@, ValView::Int(t1)),
                    ),
                    Map::empty(),
                ),
            ),
            now,
            ts,
            Map::empty(),
            Map::empty(),
        ),
    ensures
        p.meta@["total_duration_ms"@] == ValView::Int(now - t1),
        p.meta@["queue_ms"@] == ValView::Int(t1 - t0),
        p.meta@["active_ms"@] == ValView::Int(now - t1),
        !p.meta@.dom().contains("pause_ms"@),
        !p.meta@.dom().contains("wait_ms"@),
{
    law_queue_then_start(agent, label, run_id, t0, t1);
    let s = apply_updates(
        state_of_doc(fresh_doc(agent, label, run_id, "queued_at"@, t0)),
        single("start_time"@, ValView::Int(t1)),
    );
    law_durations_reported_when_positive(agent, run_id, label, s, now);
    lemma_timing_not_reserved();
}

/// A notification whose run durations are measured at its own time stamp
/// reports, for a run started before that stamp with nothing paused or waited,
/// the time from the start to the stamp as its total and its active time
/// (when no saved metric, run metric or extra metadata uses those keys).
pub proof fn law_durations_at_stamp(
    p: Payload,
    agent: Seq<char>,
    event: Seq<char>,
    message: Seq<char>,
    run_id: Seq<char>,
    label: Seq<char>,
    s: RunStateView,
    saved: Map<Seq<char>, ValView>,
    run_metrics: Map<Seq<char>, ValView>,
    extra: Map<Seq<char>, ValView>,
)
    requires
        payload_for(
            p,
            agent,
            event,
            message,
            run_id,
            label,
            Some((s, saved)),
            p.ts_ms as int,
            p.ts_ms as int,
            run_metrics,
            extra,
        ),
        0 < s.start_time < p.ts_ms,
        s.paused_at <= 0,
        s.wait_at <= 0,
        s.pause_total_ms == 0,
        s.wait_total_ms == 0,
        !saved.dom().contains("total_duration_ms"@),
        !run_metrics.dom().contains("total_duration_ms"@),
        !extra.dom().contains("total_duration_ms"@),
        !saved.dom().contains("active_ms"@),
        !run_metrics.dom().contains("active_ms"@),
        !extra.dom().contains("active_ms"@),
    ensures
        p.meta@["total_duration_ms"@] == ValView::Int(p.ts_ms - s.start_time),
        p.meta@["active_ms"@] == ValView::Int(p.ts_ms - s.start_time),
{
    let now = p.ts_ms as int;
    law_durations_reported_when_positive(agent, run_id, label, s, now);
    lemma_timing_not_reserved();
    let w = with_timing(base_meta(agent, run_id, label), s, now);
    assert(gathered_meta(agent, run_id, label, Some((s, Map::empty())), now, Map::empty(), Map::empty()) =~= w);
    let m = gathered_meta(agent, run_id, label, Some((s, saved)), now, run_metrics, extra);
    assert(m["total_duration_ms"@] == w["total_duration_ms"@]);
    assert(m["active_ms"@] == w["active_ms"@]);
}

/// The duration keys are none of the reserved keys.
proof fn lemma_timing_not_reserved()
    ensures
        "image_url"@ != "total_duration_ms"@,
        "image_url"@ != "queue_ms"@,
        "image_url"@ != "active_ms"@,
        "image_url"@ != "pause_ms"@,
        "image_url"@ != "wait_ms"@,
        "open_url"@ != "total_duration_ms"@,
        "open_url"@ != "queue_ms"@,
        "open_url"@ != "active_ms"@,
        "open_url"@ != "pause_ms"@,
        "open_url"@ != "wait_ms"@,
        "download_url"@ != "total_duration_ms"@,
        "download_url"@ != "queue_ms"@,
        "download_url"@ != "active_ms"@,
        "download_url"@ != "pause_ms"@,
        "download_url"@ != "wait_ms"@,
        "tags"@ != "total_duration_ms"@,
        "tags"@ != "queue_ms"@,
        "tags"@ != "active_ms"@,
        "tags"@ != "pause_ms"@,
        "tags"@ != "wait_ms"@,
        "is_actionable"@ != "total_duration_ms"@,
        "is_actionable"@ != "queue_ms"@,
        "is_actionable"@ != "active_ms"@,
        "is_actionable"@ != "pause_ms"@,
        "is_actionable"@ != "wait_ms"@,
{
    reveal_strlit("image_url");
    reveal_strlit("open_url");
    reveal_strlit("download_url");
    reveal_strlit("tags");
    reveal_strlit("is_actionable");
    reveal_strlit("total_duration_ms");
    reveal_strlit("queue_ms");
    reveal_strlit("active_ms");
    reveal_strlit("pause_ms");
    reveal_strlit("wait_ms");
    assert("image_url"@.len() == 9 && "open_url"@.len() == 8 && "download_url"@.len() == 12);
    assert("tags"@.len() == 4 && "is_actionable"@.len() == 13);
    assert("total_duration_ms"@.len() == 17 && "active_ms"@.len() == 9 && "wait_ms"@.len() == 7);
    assert("queue_ms"@[0] == 'q' && "pause_ms"@[0] == 'p' && "open_url"@[0] == 'o');
    assert("image_url"@[0] == 'i' && "active_ms"@[0] == 'a');
}

} // verus!
