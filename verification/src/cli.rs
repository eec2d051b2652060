//! The command line: arguments, flags, the active run, and the notification a
//! command sends.

use vstd::prelude::*;
use crate::events::{actionable_by_default, event_type_of, get_event_type, is_actionable_default, is_event_type_name, is_known_type};
use crate::fields::{Fields, Val, ValView};
use crate::payload::{Payload, base, add_timing, base_meta, with_timing, make_title, title_of};
use crate::state::{RunState, RunStateView};
use crate::text::{find_char, first_index_of, has_prefix, slice_chars, starts_with, str_eq};

verus! {

/// The character sequences of a list of strings.
pub open spec fn views(v: Seq<String>) -> Seq<Seq<char>> {
    v.map_values(|s: String| s@)
}

/// Whether a command-line argument is a flag (starts with `--`).
pub open spec fn is_flag(s: Seq<char>) -> bool {
    has_prefix(s, "--"@)
}

/// Splits the arguments before the first flag (the positional arguments) from
/// the rest.
pub fn positional_args(args: &Vec<String>) -> (r: (Vec<String>, Vec<String>))
    ensures
        ({
            let k = r.0@.len();
            &&& k <= args@.len()
            &&& forall|i: int| 0 <= i < k ==> !is_flag(#[trigger] args@[i]@)
            &&& k < args@.len() ==> is_flag(args@[k as int]@)
            &&& views(r.0@) == views(args@).subrange(0, k as int)
            &&& views(r.1@) == views(args@).subrange(k as int, args@.len() as int)
        }),
{
    let n = args.len();
    let mut pos: Vec<String> = Vec::new();
    let mut i: usize = 0;
    while i < n && !starts_with(args[i].as_str(), "--")
        invariant
            n == args@.len(),
            i <= n,
            pos@.len() == i,
            forall|j: int| 0 <= j < i ==> !is_flag(#[trigger] args@[j]@),
            forall|j: int| 0 <= j < i ==> #[trigger] pos@[j]@ == args@[j]@,
        decreases n - i,
    {
        pos.push(args[i].clone());
        i = i + 1;
    }
    let k = i;
    let mut rest: Vec<String> = Vec::new();
    while i < n
        invariant
            n == args@.len(),
            k <= i <= n,
            rest@.len() == i - k,
            forall|j: int| 0 <= j < i - k ==> #[trigger] rest@[j]@ == args@[k + j]@,
        decreases n - i,
    {
        rest.push(args[i].clone());
        i = i + 1;
    }
    assert(views(pos@) =~= views(args@).subrange(0, k as int));
    assert(views(rest@) =~= views(args@).subrange(k as int, n as int));
    (pos, rest)
}

/// The first `=` of `kv` splits it into a key and a value.
pub open spec fn key_value(kv: Seq<char>) -> Option<(Seq<char>, Seq<char>)> {
    if exists|i: int| first_index_of(kv, '=', i) {
        let i = choose|i: int| first_index_of(kv, '=', i);
        Some((kv.subrange(0, i), kv.subrange(i + 1, kv.len() as int)))
    } else {
        None
    }
}

proof fn lemma_first_index_unique(s: Seq<char>, c: char, i: int, j: int)
    requires
        first_index_of(s, c, i),
        first_index_of(s, c, j),
    ensures
        i == j,
{
    if i < j {
        assert(s[i] != c);
    } else if j < i {
        assert(s[j] != c);
    }
}

/// `key=value` splits at its first `=`: a key without `=`, then `=` and any
/// value (which may itself hold `=`), gives back that key and that value.
pub proof fn law_meta_pair(k: Seq<char>, v: Seq<char>)
    requires
        forall|i: int| 0 <= i < k.len() ==> k[i] != '=',
    ensures
        key_value(k + seq!['='] + v) == Some((k, v)),
{
    let kv = k + seq!['='] + v;
    assert(kv[k.len() as int] == '=');
    assert forall|j: int| 0 <= j < k.len() implies kv[j] != '=' by {
        assert(kv[j] == k[j]);
    }
    assert(first_index_of(kv, '=', k.len() as int));
    let j = choose|j: int| first_index_of(kv, '=', j);
    lemma_first_index_unique(kv, '=', k.len() as int, j);
    assert(kv.subrange(0, k.len() as int) =~= k);
    assert(kv.subrange(k.len() as int + 1, kv.len() as int) =~= v);
}

/// A text without `=` is no `key=value` pair.
pub proof fn law_meta_needs_equals(kv: Seq<char>)
    requires
        forall|i: int| 0 <= i < kv.len() ==> kv[i] != '=',
    ensures
        key_value(kv) is None,
{
}

/// Splits `key=value` at its first `=`; `None` when there is no `=`.
pub fn split_key_value(kv: &str) -> (r: Option<(String, String)>)
    ensures
        match r {
            Some((k, v)) => key_value(kv@) == Some((k@, v@)),
            None => key_value(kv@) is None,
        },
{
    match find_char(kv, '=') {
        Some(i) => {
            let n = kv.unicode_len();
            let k = slice_chars(kv, 0, i);
            let v = slice_chars(kv, i + 1, n);
            proof {
                let j = choose|j: int| first_index_of(kv@, '=', j);
                lemma_first_index_unique(kv@, '=', i as int, j);
            }
            Some((k, v))
        },
        None => None,
    }
}

/// The flags of a command.
pub struct Flags {
    pub agent: String,
    pub task_label: String,
    pub typ: String,
    pub meta: Fields,
    pub image_url: String,
    pub open_url: String,
    pub download_url: String,
    pub tags: String,
    pub is_actionable: String,
}

pub struct FlagsView {
    pub agent: Seq<char>,
    pub task_label: Seq<char>,
    pub typ: Seq<char>,
    pub meta: Map<Seq<char>, ValView>,
    pub image_url: Seq<char>,
    pub open_url: Seq<char>,
    pub download_url: Seq<char>,
    pub tags: Seq<char>,
    pub is_actionable: Seq<char>,
}

impl View for Flags {
    type V = FlagsView;

    open spec fn view(&self) -> FlagsView {
        FlagsView {
            agent: self.agent@,
            task_label: self.task_label@,
            typ: self.typ@,
            meta: self.meta@,
            image_url: self.image_url@,
            open_url: self.open_url@,
            download_url: self.download_url@,
            tags: self.tags@,
            is_actionable: self.is_actionable@,
        }
    }
}

impl FlagsView {
    pub open spec fn empty() -> FlagsView {
        FlagsView {
            agent: Seq::empty(),
            task_label: Seq::empty(),
            typ: Seq::empty(),
            meta: Map::empty(),
            image_url: Seq::empty(),
            open_url: Seq::empty(),
            download_url: Seq::empty(),
            tags: Seq::empty(),
            is_actionable: Seq::empty(),
        }
    }
}

/// Whether `name` is a flag that takes the next argument as its value.
pub open spec fn takes_value(name: Seq<char>) -> bool {
    ||| name == "--agent"@
    ||| name == "--task"@
    ||| name == "--type"@
    ||| name == "--image_url"@
    ||| name == "--open_url"@
    ||| name == "--download_url"@
    ||| name == "--tags"@
    ||| name == "--is_actionable"@
    ||| name == "--meta"@
}

/// The flags after the flag `name` is given the value `value`.
pub open spec fn set_flag(f: FlagsView, name: Seq<char>, value: Seq<char>) -> FlagsView {
    if name == "--agent"@ {
        FlagsView { agent: value, ..f }
    } else if name == "--task"@ {
        FlagsView { task_label: value, ..f }
    } else if name == "--type"@ {
        FlagsView { typ: value, ..f }
    } else if name == "--image_url"@ {
        FlagsView { image_url: value, ..f }
    } else if name == "--open_url"@ {
        FlagsView { open_url: value, ..f }
    } else if name == "--download_url"@ {
        FlagsView { download_url: value, ..f }
    } else if name == "--tags"@ {
        FlagsView { tags: value, ..f }
    } else if name == "--is_actionable"@ {
        FlagsView { is_actionable: value, ..f }
    } else {
        match key_value(value) {
            Some((k, v)) => FlagsView { meta: f.meta.insert(k, ValView::Text(v)), ..f },
            None => f,
        }
    }
}

/// The flags read from `a[i..]`, starting from `f`: a value flag followed by
/// an argument takes it as its value (a later one wins); anything else is
/// skipped.
pub open spec fn flags_from(a: Seq<Seq<char>>, i: int, f: FlagsView) -> FlagsView
    decreases a.len() - i,
{
    if i < 0 || i >= a.len() {
        f
    } else if takes_value(a[i]) && i + 1 < a.len() {
        flags_from(a, i + 2, set_flag(f, a[i], a[i + 1]))
    } else {
        flags_from(a, i + 1, f)
    }
}

/// The value flags, told apart by length and their third, fourth and sixth
/// letters.
proof fn lemma_flag_names()
    ensures
        "--agent"@.len() == 7 && "--agent"@[2] == 'a' && "--agent"@[3] == 'g' && "--agent"@[5] == 'n',
        "--task"@.len() == 6 && "--task"@[2] == 't' && "--task"@[3] == 'a' && "--task"@[5] == 'k',
        "--type"@.len() == 6 && "--type"@[2] == 't' && "--type"@[3] == 'y' && "--type"@[5] == 'e',
        "--image_url"@.len() == 11 && "--image_url"@[2] == 'i' && "--image_url"@[3] == 'm' && "--image_url"@[5] == 'g',
        "--open_url"@.len() == 10 && "--open_url"@[2] == 'o' && "--open_url"@[3] == 'p' && "--open_url"@[5] == 'n',
        "--download_url"@.len() == 14 && "--download_url"@[2] == 'd' && "--download_url"@[3] == 'o' && "--download_url"@[5] == 'n',
        "--tags"@.len() == 6 && "--tags"@[2] == 't' && "--tags"@[3] == 'a' && "--tags"@[5] == 's',
        "--is_actionable"@.len() == 15 && "--is_actionable"@[2] == 'i' && "--is_actionable"@[3] == 's' && "--is_actionable"@[5] == 'a',
        "--meta"@.len() == 6 && "--meta"@[2] == 'm' && "--meta"@[3] == 'e' && "--meta"@[5] == 'a',
{
    reveal_strlit("--agent");
    reveal_strlit("--task");
    reveal_strlit("--type");
    reveal_strlit("--image_url");
    reveal_strlit("--open_url");
    reveal_strlit("--download_url");
    reveal_strlit("--tags");
    reveal_strlit("--is_actionable");
    reveal_strlit("--meta");
}

/// Each value flag sets its own field of the flags and leaves every other one
/// as it was; `--meta key=value` adds the pair to the metadata.
pub proof fn law_value_flags(f: FlagsView, v: Seq<char>, k: Seq<char>, x: Seq<char>)
    requires
        forall|i: int| 0 <= i < k.len() ==> k[i] != '=',
    ensures
        set_flag(f, "--agent"@, v) == (FlagsView { agent: v, ..f }),
        set_flag(f, "--task"@, v) == (FlagsView { task_label: v, ..f }),
        set_flag(f, "--type"@, v) == (FlagsView { typ: v, ..f }),
        set_flag(f, "--image_url"@, v) == (FlagsView { image_url: v, ..f }),
        set_flag(f, "--open_url"@, v) == (FlagsView { open_url: v, ..f }),
        set_flag(f, "--download_url"@, v) == (FlagsView { download_url: v, ..f }),
        set_flag(f, "--tags"@, v) == (FlagsView { tags: v, ..f }),
        set_flag(f, "--is_actionable"@, v) == (FlagsView { is_actionable: v, ..f }),
        set_flag(f, "--meta"@, k + seq!['='] + x) == (FlagsView {
            meta: f.meta.insert(k, ValView::Text(x)),
            ..f
        }),
{
    lemma_flag_names();
    law_meta_pair(k, x);
}

/// Why a command cannot go on.
pub enum CliError {
    /// No `--agent` was given.
    MissingAgent,
    /// No `--task` was given.
    MissingTask,
    /// The task has no active run.
    NoActiveRun,
    /// `init` lacks one of `--agent`, `--token`, `--secret`.
    InitUsage,
}

fn set_flag_exec(f: &mut Flags, name: &str, value: &String)
    requires
        takes_value(name@),
    ensures
        final(f)@ == set_flag(old(f)@, name@, value@),
{
    if str_eq(name, "--agent") {
        f.agent = value.clone();
    } else if str_eq(name, "--task") {
        f.task_label = value.clone();
    } else if str_eq(name, "--type") {
        f.typ = value.clone();
    } else if str_eq(name, "--image_url") {
        f.image_url = value.clone();
    } else if str_eq(name, "--open_url") {
        f.open_url = value.clone();
    } else if str_eq(name, "--download_url") {
        f.download_url = value.clone();
    } else if str_eq(name, "--tags") {
        f.tags = value.clone();
    } else if str_eq(name, "--is_actionable") {
        f.is_actionable = value.clone();
    } else {
        match split_key_value(value.as_str()) {
            Some((k, v)) => {
                f.meta.insert(k, Val::Text(v));
            },
            None => {},
        }
    }
}

fn is_value_flag(name: &str) -> (r: bool)
    ensures
        r == takes_value(name@),
{
    str_eq(name, "--agent") || str_eq(name, "--task") || str_eq(name, "--type") || str_eq(
        name,
        "--image_url",
    ) || str_eq(name, "--open_url") || str_eq(name, "--download_url") || str_eq(name, "--tags")
        || str_eq(name, "--is_actionable") || str_eq(name, "--meta")
}

/// Reads the flags of a command; fails when no agent is named.
pub fn parse_flags(args: &Vec<String>) -> (r: Result<Flags, CliError>)
    ensures
        ({
            let f = flags_from(views(args@), 0, FlagsView::empty());
            match r {
                Ok(flags) => flags@ == f && f.agent.len() > 0,
                Err(e) => e is MissingAgent && f.agent.len() == 0,
            }
        }),
{
    let mut f = Flags {
        agent: String::new(),
        task_label: String::new(),
        typ: String::new(),
        meta: Fields::new(),
        image_url: String::new(),
        open_url: String::new(),
        download_url: String::new(),
        tags: String::new(),
        is_actionable: String::new(),
    };
    let ghost a = views(args@);
    let n = args.len();
    let mut i: usize = 0;
    assert(f@ == FlagsView::empty());
    while i < n
        invariant
            n == args@.len(),
            a == views(args@),
            i <= n + 1,
            flags_from(a, i as int, f@) == flags_from(a, 0, FlagsView::empty()),
        decreases n + 1 - i,
    {
        if is_value_flag(args[i].as_str()) && i + 1 < n {
            set_flag_exec(&mut f, args[i].as_str(), &args[i + 1]);
            i = i + 2;
        } else {
            i = i + 1;
        }
    }
    if f.agent.as_str().unicode_len() == 0 {
        return Err(CliError::MissingAgent);
    }
    Ok(f)
}

/// The active run of the command's task, given the run id read from the
/// task's pointer file (empty when there is none).
pub fn resolve_run_id(flags: &Flags, pointer: &str) -> (r: Result<String, CliError>)
    ensures
        flags.task_label@.len() == 0 ==> (r matches Err(e) && e is MissingTask),
        flags.task_label@.len() > 0 && pointer@.len() == 0 ==> (r matches Err(e) && e is NoActiveRun),
        flags.task_label@.len() > 0 && pointer@.len() > 0 ==> (r matches Ok(id) && id@ == pointer@),
{
    if flags.task_label.as_str().unicode_len() == 0 {
        return Err(CliError::MissingTask);
    }
    if pointer.unicode_len() == 0 {
        return Err(CliError::NoActiveRun);
    }
    Ok(String::from_str(pointer))
}

/// The run a `task.start` command starts: the one queued earlier (named by
/// the task's pointer), else the fresh id.
pub fn start_run_id(pointer: &str, fresh: String) -> (r: String)
    ensures
        r@ == if pointer@.len() == 0 {
            fresh@
        } else {
            pointer@
        },
{
    if pointer.unicode_len() == 0 {
        fresh
    } else {
        String::from_str(pointer)
    }
}

/// The credentials given to `init`.
pub struct InitArgs {
    pub agent: String,
    pub token: String,
    pub secret: String,
}

/// `(agent, token, secret)` read from `a[i..]`, starting from `acc`.
pub open spec fn init_from(a: Seq<Seq<char>>, i: int, acc: (Seq<char>, Seq<char>, Seq<char>)) -> (
    Seq<char>,
    Seq<char>,
    Seq<char>,
)
    decreases a.len() - i,
{
    if i < 0 || i >= a.len() {
        acc
    } else if a[i] == "--agent"@ && i + 1 < a.len() {
        init_from(a, i + 2, (a[i + 1], acc.1, acc.2))
    } else if a[i] == "--token"@ && i + 1 < a.len() {
        init_from(a, i + 2, (acc.0, a[i + 1], acc.2))
    } else if a[i] == "--secret"@ && i + 1 < a.len() {
        init_from(a, i + 2, (acc.0, acc.1, a[i + 1]))
    } else {
        init_from(a, i + 1, acc)
    }
}

/// Reads the arguments of `init`; fails unless agent, token and secret are
/// all given (a later flag wins).
pub fn parse_init_args(args: &Vec<String>) -> (r: Result<InitArgs, CliError>)
    ensures
        ({
            let (agent, token, secret) = init_from(
                views(args@),
                0,
                (Seq::empty(), Seq::empty(), Seq::empty()),
            );
            let complete = agent.len() > 0 && token.len() > 0 && secret.len() > 0;
            match r {
                Ok(x) => complete && x.agent@ == agent && x.token@ == token && x.secret@ == secret,
                Err(e) => !complete && e is InitUsage,
            }
        }),
{
    let ghost a = views(args@);
    let mut agent = String::new();
    let mut token = String::new();
    let mut secret = String::new();
    let n = args.len();
    let mut i: usize = 0;
    while i < n
        invariant
            n == args@.len(),
            a == views(args@),
            i <= n + 1,
            init_from(a, i as int, (agent@, token@, secret@)) == init_from(
                a,
                0,
                (Seq::empty(), Seq::empty(), Seq::empty()),
            ),
        decreases n + 1 - i,
    {
        let arg = args[i].as_str();
        if str_eq(arg, "--agent") && i + 1 < n {
            agent = args[i + 1].clone();
            i = i + 2;
        } else if str_eq(arg, "--token") && i + 1 < n {
            token = args[i + 1].clone();
            i = i + 2;
        } else if str_eq(arg, "--secret") && i + 1 < n {
            secret = args[i + 1].clone();
            i = i + 2;
        } else {
            i = i + 1;
        }
    }
    if agent.as_str().unicode_len() == 0 || token.as_str().unicode_len() == 0
        || secret.as_str().unicode_len() == 0 {
        return Err(CliError::InitUsage);
    }
    Ok(InitArgs { agent, token, secret })
}

/// The metadata of a command's notification: the agent, run id and task
/// label; the run's durations and counters when a task is named; then the
/// run's saved metrics and the `--meta` pairs (later sources win).
pub open spec fn cli_meta(
    f: FlagsView,
    run_id: Seq<char>,
    s: RunStateView,
    saved: Map<Seq<char>, ValView>,
    now: int,
) -> Map<Seq<char>, ValView> {
    let m = base_meta(f.agent, run_id, f.task_label);
    let m = if f.task_label.len() > 0 {
        with_timing(m, s, now)
    } else {
        m
    };
    m.union_prefer_right(saved).union_prefer_right(f.meta)
}

/// The type a command's notification gets: the `--type` given when it names a
/// known type, else the event's own.
pub open spec fn cli_type(typ: Seq<char>, event: Seq<char>) -> Seq<char> {
    if is_known_type(typ) {
        typ
    } else {
        event_type_of(event)
    }
}

/// Whether a command's notification asks to act: `--is_actionable true` or
/// `false` when given, else the event's default.
pub open spec fn cli_actionable(flag: Seq<char>, event: Seq<char>) -> bool {
    if flag == "true"@ {
        true
    } else if flag == "false"@ {
        false
    } else {
        actionable_by_default(event)
    }
}

/// A `--type` that names one of the four notification types is the type of a
/// command's notification, whatever the event; any other value (or none)
/// leaves the event's own type.
pub proof fn law_type_flag(typ: Seq<char>, event: Seq<char>)
    ensures
        typ == "info"@ || typ == "success"@ || typ == "warning"@ || typ == "urgent"@ ==> cli_type(
            typ,
            event,
        ) == typ,
        typ != "info"@ && typ != "success"@ && typ != "warning"@ && typ != "urgent"@ ==> cli_type(
            typ,
            event,
        ) == event_type_of(event),
{
}

/// The two words of `--is_actionable` are different words.
proof fn lemma_flag_words_differ()
    ensures
        "true"@ != "false"@,
{
    reveal_strlit("true");
    reveal_strlit("false");
    assert("true"@.len() == 4 && "false"@.len() == 5);
}

/// `--is_actionable false` makes a command's notification not actionable and
/// `--is_actionable true` makes it actionable, whatever the event; any other
/// value (or none) leaves the event's default.
pub proof fn law_actionable_flag(flag: Seq<char>, event: Seq<char>)
    ensures
        flag == "false"@ ==> !cli_actionable(flag, event),
        flag == "true"@ ==> cli_actionable(flag, event),
        flag != "true"@ && flag != "false"@ ==> cli_actionable(flag, event)
            == actionable_by_default(event),
{
    lemma_flag_words_differ();
}

/// The notification a command sends for `event` about run `run_id`, whose
/// saved state is `state`; `now` stamps the durations, `ts_ms` the
/// notification.
pub fn build_cli_payload(
    flags: &Flags,
    event: &str,
    message: &str,
    run_id: &str,
    state: &RunState,
    now: i64,
    ts_ms: i64,
) -> (p: Payload)
    ensures
        p.event@ == event@,
        p.title@ == title_of(flags.agent@, flags.task_label@, event@),
        p.message@ == message@,
        p.event_type@ == cli_type(flags.typ@, event@),
        p.agent@ == flags.agent@,
        p.task_id@ == flags.task_label@,
        p.is_actionable == cli_actionable(flags.is_actionable@, event@),
        flags.is_actionable@ == "false"@ ==> !p.is_actionable,
        flags.is_actionable@ == "true"@ ==> p.is_actionable,
        flags.is_actionable@ != "true"@ && flags.is_actionable@ != "false"@ ==> p.is_actionable
            == actionable_by_default(event@),
        p.image_url@ == flags.image_url@,
        p.open_url@ == flags.open_url@,
        p.download_url@ == flags.download_url@,
        p.tags@ == flags.tags@,
        p.ts_ms == ts_ms,
        p.meta@ == cli_meta(flags@, run_id@, state@, state.metrics@, now as int),
{
    let label = flags.task_label.as_str();
    let mut meta = base(flags.agent.as_str(), run_id, label);
    if label.unicode_len() != 0 {
        add_timing(&mut meta, state, now);
    }
    meta.extend_from(&state.metrics);
    meta.extend_from(&flags.meta);
    let event_type = if is_event_type_name(flags.typ.as_str()) {
        flags.typ.clone()
    } else {
        String::from_str(get_event_type(event))
    };
    proof {
        lemma_flag_words_differ();
    }
    let is_actionable = if str_eq(flags.is_actionable.as_str(), "true") {
        true
    } else if str_eq(flags.is_actionable.as_str(), "false") {
        false
    } else {
        is_actionable_default(event)
    };
    Payload {
        event: String::from_str(event),
        title: make_title(flags.agent.as_str(), label, event),
        message: String::from_str(message),
        event_type,
        agent: flags.agent.clone(),
        task_id: flags.task_label.clone(),
        is_actionable,
        image_url: flags.image_url.clone(),
        open_url: flags.open_url.clone(),
        download_url: flags.download_url.clone(),
        tags: flags.tags.clone(),
        ts_ms,
        meta,
    }
}

/// What an event command does to the run's saved state before it notifies.
pub enum Step {
    /// Nothing.
    Notify,
    /// One more loop.
    Loop,
    /// One more retry.
    Retry,
    /// Opens a pause.
    Pause,
    /// Closes an open pause or wait.
    Resume,
    /// Opens a wait.
    Wait,
    /// Records an error.
    Error,
}

/// An event about a task's active run.
pub struct RunEvent {
    /// The event sent.
    pub event: &'static str,
    /// The message sent, when the command takes none from its arguments.
    pub fixed_message: Option<&'static str>,
    /// The change to the saved state made first.
    pub step: Step,
    /// Whether the run ends with it (its state and pointer are removed).
    pub ends_run: bool,
}

/// A command of the command line.
pub enum Command {
    Init,
    Agents,
    RemoveAgent,
    Queue,
    Start,
    Metric,
    MetricReset,
    Track,
    Version,
    RunEvent(RunEvent),
}

pub enum CommandView {
    Init,
    Agents,
    RemoveAgent,
    Queue,
    Start,
    Metric,
    MetricReset,
    Track,
    Version,
    RunEvent { event: Seq<char>, fixed_message: Option<Seq<char>>, step: Step, ends_run: bool },
}

impl View for Command {
    type V = CommandView;

    open spec fn view(&self) -> CommandView {
        match self {
            Command::Init => CommandView::Init,
            Command::Agents => CommandView::Agents,
            Command::RemoveAgent => CommandView::RemoveAgent,
            Command::Queue => CommandView::Queue,
            Command::Start => CommandView::Start,
            Command::Metric => CommandView::Metric,
            Command::MetricReset => CommandView::MetricReset,
            Command::Track => CommandView::Track,
            Command::Version => CommandView::Version,
            Command::RunEvent(e) => CommandView::RunEvent {
                event: e.event@,
                fixed_message: match e.fixed_message {
                    Some(m) => Some(m@),
                    None => None,
                },
                step: e.step,
                ends_run: e.ends_run,
            },
        }
    }
}

/// The command named `name`.
pub open spec fn command_of(name: Seq<char>) -> Option<CommandView> {
    if name == "init"@ {
        Some(CommandView::Init)
    } else if name == "agents"@ {
        Some(CommandView::Agents)
    } else if name == "remove-agent"@ {
        Some(CommandView::RemoveAgent)
    } else if name == "task.queue"@ {
        Some(CommandView::Queue)
    } else if name == "task.start"@ {
        Some(CommandView::Start)
    } else if name == "metric"@ {
        Some(CommandView::Metric)
    } else if name == "metric.reset"@ {
        Some(CommandView::MetricReset)
    } else if name == "track"@ {
        Some(CommandView::Track)
    } else if name == "version"@ {
        Some(CommandView::Version)
    } else if name == "task.progress"@ {
        Some(CommandView::RunEvent { event: "task.progress"@, fixed_message: None, step: Step::Notify, ends_run: false })
    } else if name == "task.loop"@ {
        Some(CommandView::RunEvent { event: "task.loop"@, fixed_message: None, step: Step::Loop, ends_run: false })
    } else if name == "task.retry"@ {
        Some(CommandView::RunEvent { event: "task.retry"@, fixed_message: Some("Retrying task"@), step: Step::Retry, ends_run: false })
    } else if name == "task.stop"@ {
        Some(CommandView::RunEvent { event: "task.stopped"@, fixed_message: Some("Task stopped"@), step: Step::Notify, ends_run: false })
    } else if name == "task.pause"@ {
        Some(CommandView::RunEvent { event: "task.paused"@, fixed_message: None, step: Step::Pause, ends_run: false })
    } else if name == "task.resume"@ {
        Some(CommandView::RunEvent { event: "task.resumed"@, fixed_message: None, step: Step::Resume, ends_run: false })
    } else if name == "task.wait"@ {
        Some(CommandView::RunEvent { event: "task.waiting"@, fixed_message: None, step: Step::Wait, ends_run: false })
    } else if name == "task.error"@ {
        Some(CommandView::RunEvent { event: "task.error"@, fixed_message: None, step: Step::Error, ends_run: false })
    } else if name == "task.fail"@ {
        Some(CommandView::RunEvent { event: "task.failed"@, fixed_message: None, step: Step::Notify, ends_run: true })
    } else if name == "task.timeout"@ {
        Some(CommandView::RunEvent { event: "task.timeout"@, fixed_message: None, step: Step::Notify, ends_run: true })
    } else if name == "task.cancel"@ {
        Some(CommandView::RunEvent { event: "task.cancelled"@, fixed_message: None, step: Step::Notify, ends_run: true })
    } else if name == "task.terminate"@ {
        Some(CommandView::RunEvent { event: "task.terminated"@, fixed_message: None, step: Step::Notify, ends_run: true })
    } else if name == "task.complete"@ {
        Some(CommandView::RunEvent { event: "task.completed"@, fixed_message: None, step: Step::Notify, ends_run: true })
    } else if name == "output.generate"@ {
        Some(CommandView::RunEvent { event: "output.generated"@, fixed_message: None, step: Step::Notify, ends_run: false })
    } else if name == "output.fail"@ {
        Some(CommandView::RunEvent { event: "output.failed"@, fixed_message: None, step: Step::Notify, ends_run: false })
    } else if name == "input.required"@ {
        Some(CommandView::RunEvent { event: "input.required"@, fixed_message: None, step: Step::Notify, ends_run: false })
    } else if name == "input.approve"@ {
        Some(CommandView::RunEvent { event: "input.approved"@, fixed_message: None, step: Step::Notify, ends_run: false })
    } else if name == "input.reject"@ {
        Some(CommandView::RunEvent { event: "input.rejected"@, fixed_message: None, step: Step::Notify, ends_run: false })
    } else {
        None
    }
}

/// The command named `name`, if there is one.
pub fn parse_command(name: &str) -> (r: Option<Command>)
    ensures
        match r {
            Some(c) => command_of(name@) == Some(c@),
            None => command_of(name@) is None,
        },
{
    if str_eq(name, "init") {
        Some(Command::Init)
    } else if str_eq(name, "agents") {
        Some(Command::Agents)
    } else if str_eq(name, "remove-agent") {
        Some(Command::RemoveAgent)
    } else if str_eq(name, "task.queue") {
        Some(Command::Queue)
    } else if str_eq(name, "task.start") {
        Some(Command::Start)
    } else if str_eq(name, "metric") {
        Some(Command::Metric)
    } else if str_eq(name, "metric.reset") {
        Some(Command::MetricReset)
    } else if str_eq(name, "track") {
        Some(Command::Track)
    } else if str_eq(name, "version") {
        Some(Command::Version)
    } else if str_eq(name, "task.progress") {
        Some(Command::RunEvent(RunEvent { event: "task.progress", fixed_message: None, step: Step::Notify, ends_run: false }))
    } else if str_eq(name, "task.loop") {
        Some(Command::RunEvent(RunEvent { event: "task.loop", fixed_message: None, step: Step::Loop, ends_run: false }))
    } else if str_eq(name, "task.retry") {
        Some(Command::RunEvent(RunEvent { event: "task.retry", fixed_message: Some("Retrying task"), step: Step::Retry, ends_run: false }))
    } else if str_eq(name, "task.stop") {
        Some(Command::RunEvent(RunEvent { event: "task.stopped", fixed_message: Some("Task stopped"), step: Step::Notify, ends_run: false }))
    } else if str_eq(name, "task.pause") {
        Some(Command::RunEvent(RunEvent { event: "task.paused", fixed_message: None, step: Step::Pause, ends_run: false }))
    } else if str_eq(name, "task.resume") {
        Some(Command::RunEvent(RunEvent { event: "task.resumed", fixed_message: None, step: Step::Resume, ends_run: false }))
    } else if str_eq(name, "task.wait") {
        Some(Command::RunEvent(RunEvent { event: "task.waiting", fixed_message: None, step: Step::Wait, ends_run: false }))
    } else if str_eq(name, "task.error") {
        Some(Command::RunEvent(RunEvent { event: "task.error", fixed_message: None, step: Step::Error, ends_run: false }))
    } else if str_eq(name, "task.fail") {
        Some(Command::RunEvent(RunEvent { event: "task.failed", fixed_message: None, step: Step::Notify, ends_run: true }))
    } else if str_eq(name, "task.timeout") {
        Some(Command::RunEvent(RunEvent { event: "task.timeout", fixed_message: None, step: Step::Notify, ends_run: true }))
    } else if str_eq(name, "task.cancel") {
        Some(Command::RunEvent(RunEvent { event: "task.cancelled", fixed_message: None, step: Step::Notify, ends_run: true }))
    } else if str_eq(name, "task.terminate") {
        Some(Command::RunEvent(RunEvent { event: "task.terminated", fixed_message: None, step: Step::Notify, ends_run: true }))
    } else if str_eq(name, "task.complete") {
        Some(Command::RunEvent(RunEvent { event: "task.completed", fixed_message: None, step: Step::Notify, ends_run: true }))
    } else if str_eq(name, "output.generate") {
        Some(Command::RunEvent(RunEvent { event: "output.generated", fixed_message: None, step: Step::Notify, ends_run: false }))
    } else if str_eq(name, "output.fail") {
        Some(Command::RunEvent(RunEvent { event: "output.failed", fixed_message: None, step: Step::Notify, ends_run: false }))
    } else if str_eq(name, "input.required") {
        Some(Command::RunEvent(RunEvent { event: "input.required", fixed_message: None, step: Step::Notify, ends_run: false }))
    } else if str_eq(name, "input.approve") {
        Some(Command::RunEvent(RunEvent { event: "input.approved", fixed_message: None, step: Step::Notify, ends_run: false }))
    } else if str_eq(name, "input.reject") {
        Some(Command::RunEvent(RunEvent { event: "input.rejected", fixed_message: None, step: Step::Notify, ends_run: false }))
    } else {
        None
    }
}

} // verus!
