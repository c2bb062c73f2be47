//! Long-running tool calls ("jobs"): their life-cycle state machine, the
//! registry that holds them, the events each transition emits, and the
//! answers of the `job/watch` tool.

use vstd::prelude::*;
use crate::atp::now_rfc3339;
use crate::error::AvixError;
use crate::ids::new_uuid_v4;
use crate::json::{Json, JsonNumber, json_get, get_str_spec, json_same, lemma_json_same_trans, member_count};
use crate::text::{owned, concat2, concat3};
use crate::types::Pid;

verus! {

/// Where a job is in its life.
#[derive(Clone, Copy, Debug, PartialEq, Eq, Structural, Hash)]
pub enum JobState {
    Pending,
    Running,
    Paused,
    Done,
    Failed,
    Cancelled,
}

/// `Done`, `Failed` and `Cancelled` are final.
pub open spec fn state_is_terminal(s: JobState) -> bool {
    s is Done || s is Failed || s is Cancelled
}

/// The state's name as printed in messages.
pub open spec fn state_debug_name(s: JobState) -> Seq<char> {
    match s {
        JobState::Pending => "Pending"@,
        JobState::Running => "Running"@,
        JobState::Paused => "Paused"@,
        JobState::Done => "Done"@,
        JobState::Failed => "Failed"@,
        JobState::Cancelled => "Cancelled"@,
    }
}

/// The state's name on the wire (lower case).
pub open spec fn state_wire_name(s: JobState) -> Seq<char> {
    match s {
        JobState::Pending => "pending"@,
        JobState::Running => "running"@,
        JobState::Paused => "paused"@,
        JobState::Done => "done"@,
        JobState::Failed => "failed"@,
        JobState::Cancelled => "cancelled"@,
    }
}

impl JobState {
    /// No transition leaves this state.
    pub fn is_terminal(&self) -> (b: bool)
        ensures
            b == state_is_terminal(*self),
    {
        match self {
            JobState::Done | JobState::Failed | JobState::Cancelled => true,
            _ => false,
        }
    }

    /// The name printed in messages.
    pub fn debug_name(&self) -> (s: String)
        ensures
            s@ == state_debug_name(*self),
    {
        match self {
            JobState::Pending => owned("Pending"),
            JobState::Running => owned("Running"),
            JobState::Paused => owned("Paused"),
            JobState::Done => owned("Done"),
            JobState::Failed => owned("Failed"),
            JobState::Cancelled => owned("Cancelled"),
        }
    }

    /// The name on the wire.
    pub fn wire_name(&self) -> (s: String)
        ensures
            s@ == state_wire_name(*self),
    {
        match self {
            JobState::Pending => owned("pending"),
            JobState::Running => owned("running"),
            JobState::Paused => owned("paused"),
            JobState::Done => owned("done"),
            JobState::Failed => owned("failed"),
            JobState::Cancelled => owned("cancelled"),
        }
    }
}

/// Why a job failed.
#[derive(Debug)]
pub struct JobError {
    pub code: String,
    pub message: String,
}

impl JobError {
    /// A copy of this error.
    pub fn duplicate(&self) -> (e: JobError)
        ensures
            e == *self,
    {
        JobError { code: self.code.clone(), message: self.message.clone() }
    }
}

/// The stream a log line was written to.
#[derive(Clone, Copy, Debug, PartialEq, Eq, Structural)]
pub enum LogStream {
    Stdout,
    Stderr,
}

/// Something that happened to a job.
#[derive(Debug)]
pub enum JobEvent {
    StatusChange { job_id: String, old_state: JobState, new_state: JobState },
    Progress { job_id: String, percent: Option<u8>, stage: Option<String>, detail: Option<String> },
    Log { job_id: String, stream: LogStream, line: String },
    Complete { job_id: String, result: Json },
    Fail { job_id: String, error: JobError },
}

/// The job an event is about.
pub open spec fn event_job_id(e: JobEvent) -> Seq<char> {
    match e {
        JobEvent::StatusChange { job_id, .. } => job_id@,
        JobEvent::Progress { job_id, .. } => job_id@,
        JobEvent::Log { job_id, .. } => job_id@,
        JobEvent::Complete { job_id, .. } => job_id@,
        JobEvent::Fail { job_id, .. } => job_id@,
    }
}

impl JobEvent {
    /// The id of the job this event is about.
    pub fn job_id(&self) -> (r: &str)
        ensures
            r@ == event_job_id(*self),
    {
        match self {
            JobEvent::StatusChange { job_id, .. } => job_id.as_str(),
            JobEvent::Progress { job_id, .. } => job_id.as_str(),
            JobEvent::Log { job_id, .. } => job_id.as_str(),
            JobEvent::Complete { job_id, .. } => job_id.as_str(),
            JobEvent::Fail { job_id, .. } => job_id.as_str(),
        }
    }
}

/// The wire name of a log stream.
pub open spec fn stream_wire_name(s: LogStream) -> Seq<char> {
    match s {
        LogStream::Stdout => "stdout"@,
        LogStream::Stderr => "stderr"@,
    }
}

/// `j` is the wire form of `e`: an object tagged by `type`, carrying the
/// event's fields (an absent optional field is left out).
pub open spec fn event_json(e: JobEvent, j: Json) -> bool {
    &&& j is Object
    &&& get_str_spec(j, "job_id"@) == Some(event_job_id(e))
    &&& match e {
        JobEvent::StatusChange { old_state, new_state, .. } => {
            &&& get_str_spec(j, "type"@) == Some("status_change"@)
            &&& get_str_spec(j, "old_state"@) == Some(state_wire_name(old_state))
            &&& get_str_spec(j, "new_state"@) == Some(state_wire_name(new_state))
            &&& member_count(j) == 4
        },
        JobEvent::Progress { percent, stage, detail, .. } => {
            &&& get_str_spec(j, "type"@) == Some("progress"@)
            &&& json_get(j, "percent"@) == (match percent {
                Some(p) => Some(Json::Number(JsonNumber::PosInt(p as u64))),
                None => None,
            })
            &&& (match stage { Some(t) => get_str_spec(j, "stage"@) == Some(t@), None => json_get(j, "stage"@) is None })
            &&& (match detail { Some(t) => get_str_spec(j, "detail"@) == Some(t@), None => json_get(j, "detail"@) is None })
            &&& member_count(j) == 2 + (if percent is Some { 1nat } else { 0nat }) + (if stage is Some { 1nat } else { 0nat })
                + (if detail is Some { 1nat } else { 0nat })
        },
        JobEvent::Log { stream, line, .. } => {
            &&& get_str_spec(j, "type"@) == Some("log"@)
            &&& get_str_spec(j, "stream"@) == Some(stream_wire_name(stream))
            &&& get_str_spec(j, "line"@) == Some(line@)
            &&& member_count(j) == 4
        },
        JobEvent::Complete { result, .. } => {
            &&& get_str_spec(j, "type"@) == Some("complete"@)
            &&& json_get(j, "result"@) matches Some(r) && json_same(result, r)
            &&& member_count(j) == 3
        },
        JobEvent::Fail { error, .. } => {
            &&& get_str_spec(j, "type"@) == Some("fail"@)
            &&& json_get(j, "error"@) matches Some(x) && error_json(error, x)
            &&& member_count(j) == 3
        },
    }
}

/// `j` is the wire form of a job error: `{ code, message }`.
pub open spec fn error_json(e: JobError, j: Json) -> bool {
    &&& j is Object
    &&& get_str_spec(j, "code"@) == Some(e.code@)
    &&& get_str_spec(j, "message"@) == Some(e.message@)
    &&& member_count(j) == 2
}

fn error_to_json(e: &JobError) -> (j: Json)
    ensures
        error_json(*e, j),
{
    let mut j = Json::empty_object();
    j.set("code", Json::Str(e.code.clone()));
    j.set("message", Json::Str(e.message.clone()));
    proof { reveal_strlit("code"); reveal_strlit("message"); assert("code"@.len() == 4); assert("message"@.len() == 7); }
    j
}

impl LogStream {
    /// The stream's wire name.
    pub fn wire_name(&self) -> (s: String)
        ensures
            s@ == stream_wire_name(*self),
    {
        match self {
            LogStream::Stdout => owned("stdout"),
            LogStream::Stderr => owned("stderr"),
        }
    }
}

impl JobEvent {
    /// The event's wire form.
    pub fn to_json(&self) -> (j: Json)
        ensures
            event_json(*self, j),
    {
        proof {
            reveal_strlit("type"); reveal_strlit("job_id"); reveal_strlit("old_state"); reveal_strlit("new_state");
            reveal_strlit("percent"); reveal_strlit("stage"); reveal_strlit("detail"); reveal_strlit("stream");
            reveal_strlit("line"); reveal_strlit("result"); reveal_strlit("error");
            assert("type"@.len() == 4); assert("job_id"@.len() == 6); assert("old_state"@.len() == 9);
            assert("new_state"@.len() == 9); assert("percent"@.len() == 7); assert("stage"@.len() == 5);
            assert("detail"@.len() == 6); assert("stream"@.len() == 6); assert("line"@.len() == 4);
            assert("result"@.len() == 6); assert("error"@.len() == 5);
            assert("old_state"@[0] != "new_state"@[0]); assert("type"@[0] != "line"@[0]);
            assert("job_id"@[0] != "detail"@[0]); assert("job_id"@[0] != "stream"@[0]); assert("job_id"@[0] != "result"@[0]);
        }
        let mut j = Json::empty_object();
        match self {
            JobEvent::StatusChange { job_id, old_state, new_state } => {
                j.set("type", Json::string("status_change"));
                j.set("job_id", Json::Str(job_id.clone()));
                j.set("old_state", Json::Str(old_state.wire_name()));
                j.set("new_state", Json::Str(new_state.wire_name()));
            },
            JobEvent::Progress { job_id, percent, stage, detail } => {
                j.set("type", Json::string("progress"));
                j.set("job_id", Json::Str(job_id.clone()));
                match percent {
                    Some(p) => { j.set("percent", Json::uint(*p as u64)); },
                    None => {},
                }
                match stage {
                    Some(t) => { j.set("stage", Json::Str(t.clone())); },
                    None => {},
                }
                match detail {
                    Some(t) => { j.set("detail", Json::Str(t.clone())); },
                    None => {},
                }
            },
            JobEvent::Log { job_id, stream, line } => {
                j.set("type", Json::string("log"));
                j.set("job_id", Json::Str(job_id.clone()));
                j.set("stream", Json::Str(stream.wire_name()));
                j.set("line", Json::Str(line.clone()));
            },
            JobEvent::Complete { job_id, result } => {
                j.set("type", Json::string("complete"));
                j.set("job_id", Json::Str(job_id.clone()));
                j.set("result", result.deep_clone());
            },
            JobEvent::Fail { job_id, error } => {
                j.set("type", Json::string("fail"));
                j.set("job_id", Json::Str(job_id.clone()));
                j.set("error", error_to_json(error));
            },
        }
        j
    }
}

/// `e` reports job `id` going from `from` to `to`.
pub open spec fn is_status_change(e: JobEvent, id: Seq<char>, from: JobState, to: JobState) -> bool {
    e matches JobEvent::StatusChange { job_id, old_state, new_state }
        && job_id@ == id && old_state == from && new_state == to
}

/// One job: what it runs, for whom, and where it stands. Times are RFC 3339
/// text.
#[derive(Debug)]
pub struct Job {
    pub id: String,
    pub tool: String,
    pub owner_pid: Pid,
    pub state: JobState,
    pub created_at: String,
    pub updated_at: String,
    pub result: Option<Json>,
    pub error: Option<JobError>,
}

/// `b` is `a` with its state, time, result and error replaced as given
/// (a `None` result or error keeps the old one).
pub open spec fn job_changed(a: Job, b: Job, state: JobState, result: Option<Json>, error: Option<JobError>) -> bool {
    &&& b.id == a.id
    &&& b.tool == a.tool
    &&& b.owner_pid == a.owner_pid
    &&& b.created_at == a.created_at
    &&& b.state == state
    &&& b.result == (if result is Some { result } else { a.result })
    &&& b.error == (if error is Some { error } else { a.error })
}

/// The first job in `s` with id `id`.
pub open spec fn job_lookup(s: Seq<Job>, id: Seq<char>) -> Option<Job>
    decreases s.len(),
{
    if s.len() == 0 {
        None
    } else if s[0].id@ == id {
        Some(s[0])
    } else {
        job_lookup(s.drop_first(), id)
    }
}

/// No two jobs share an id.
pub open spec fn job_ids_distinct(s: Seq<Job>) -> bool {
    forall|i: int, j: int| 0 <= i < j < s.len() ==> s[i].id@ != s[j].id@
}

proof fn lemma_job_lookup_at(s: Seq<Job>, i: int)
    requires
        0 <= i < s.len(),
        job_ids_distinct(s),
    ensures
        job_lookup(s, s[i].id@) == Some(s[i]),
    decreases i,
{
    if i > 0 {
        assert(s.drop_first()[i - 1] == s[i]);
        assert(s[0].id@ != s[i].id@);
        lemma_job_lookup_at(s.drop_first(), i - 1);
    }
}

proof fn lemma_job_lookup_absent(s: Seq<Job>, id: Seq<char>)
    requires
        forall|j: int| 0 <= j < s.len() ==> s[j].id@ != id,
    ensures
        job_lookup(s, id) is None,
    decreases s.len(),
{
    if s.len() > 0 {
        assert forall|j: int| 0 <= j < s.drop_first().len() implies s.drop_first()[j].id@ != id by {
            assert(s.drop_first()[j] == s[j + 1]);
        }
        lemma_job_lookup_absent(s.drop_first(), id);
    }
}

proof fn lemma_job_lookup_update(s: Seq<Job>, i: int, job: Job, other: Seq<char>)
    requires
        0 <= i < s.len(),
        s[i].id@ == job.id@,
        other != job.id@,
    ensures
        job_lookup(s.update(i, job), other) == job_lookup(s, other),
    decreases i,
{
    let u = s.update(i, job);
    if i > 0 {
        assert(u.drop_first() =~= s.drop_first().update(i - 1, job));
        lemma_job_lookup_update(s.drop_first(), i - 1, job, other);
    } else {
        assert(u.drop_first() =~= s.drop_first());
    }
}

proof fn lemma_job_lookup_push(s: Seq<Job>, job: Job, other: Seq<char>)
    requires
        other != job.id@,
    ensures
        job_lookup(s.push(job), other) == job_lookup(s, other),
    decreases s.len(),
{
    let u = s.push(job);
    if s.len() > 0 {
        assert(u.drop_first() =~= s.drop_first().push(job));
        assert(u[0] == s[0]);
        lemma_job_lookup_push(s.drop_first(), job, other);
    } else {
        assert(u[0] == job);
        assert(u.drop_first() =~= Seq::<Job>::empty());
        assert(job_lookup(u.drop_first(), other) is None);
    }
}

/// The message for an unknown job id.
pub open spec fn job_not_found_message(id: Seq<char>) -> Seq<char> {
    "job '"@ + id + "' not found"@
}

/// The message for starting a job that is not pending.
pub open spec fn cannot_start_message(id: Seq<char>, s: JobState) -> Seq<char> {
    "cannot start job '"@ + id + "': state is "@ + state_debug_name(s)
}

/// The message for reporting on a job that is not running (`what` is
/// `progress` or `log`).
pub open spec fn not_running_message(what: Seq<char>, id: Seq<char>) -> Seq<char> {
    "cannot emit "@ + what + " for job '"@ + id + "': not running"@
}

/// The message for ending (`verb`: complete, fail, cancel) a job that is
/// not finished but not in a state that allows it.
pub open spec fn wrong_state_message(verb: Seq<char>, id: Seq<char>, s: JobState) -> Seq<char> {
    "cannot "@ + verb + " job '"@ + id + "': state is "@ + state_debug_name(s)
}

/// The message for ending (`verb`: complete, fail, cancel) a finished job.
pub open spec fn already_terminal_message(verb: Seq<char>, id: Seq<char>, s: JobState) -> Seq<char> {
    "cannot "@ + verb + " job '"@ + id + "': already in terminal state "@ + state_debug_name(s)
}

/// All jobs, keyed by id, and the events emitted but not yet delivered.
#[derive(Debug)]
pub struct JobRegistry {
    jobs: Vec<Job>,
    outbox: Vec<JobEvent>,
}

/// Every job other than `id` reads as before, and there are as many jobs.
pub open spec fn only_job_changed(before: JobRegistry, after: JobRegistry, id: Seq<char>) -> bool {
    &&& after.jobs().len() == before.jobs().len()
    &&& forall|k: Seq<char>| k != id ==> after.lookup(k) == before.lookup(k)
}

/// A refused transition: the error carrying `msg`, and nothing changed.
pub open spec fn refused(before: JobRegistry, after: JobRegistry, r: Result<(), AvixError>, msg: Seq<char>, not_found: bool) -> bool {
    &&& after.jobs() == before.jobs()
    &&& after.pending_events() == before.pending_events()
    &&& if not_found {
        r matches Err(AvixError::NotFound(m)) && m@ == msg
    } else {
        r matches Err(AvixError::ConfigParse(m)) && m@ == msg
    }
}

/// Job `id`, which was `j`, is now in state `to` (same id, tool, owner and
/// creation time); no other job changed; `n` events were appended.
pub open spec fn advanced(before: JobRegistry, after: JobRegistry, id: Seq<char>, j: Job, to: JobState, n: nat) -> bool {
    &&& after.lookup(id) matches Some(x) && x.id == j.id && x.tool == j.tool && x.owner_pid == j.owner_pid
        && x.created_at == j.created_at && x.state == to
    &&& only_job_changed(before, after, id)
    &&& after.pending_events().len() == before.pending_events().len() + n
    &&& after.pending_events().subrange(0, before.pending_events().len() as int) =~= before.pending_events()
}

/// The job's result and error are as they were.
pub open spec fn keeps_outcome(after: JobRegistry, id: Seq<char>, j: Job) -> bool {
    after.lookup(id) matches Some(x) && x.result == j.result && x.error == j.error
}

/// The event at position `k` of `after`'s pending events.
pub open spec fn event_at(after: JobRegistry, k: int) -> JobEvent {
    after.pending_events()[k]
}

/// `start(id)`: only a `Pending` job starts; it becomes `Running`.
pub open spec fn start_outcome(before: JobRegistry, after: JobRegistry, id: Seq<char>, r: Result<(), AvixError>) -> bool {
    let k = before.pending_events().len() as int;
    match before.lookup(id) {
        None => refused(before, after, r, job_not_found_message(id), true),
        Some(j) => if j.state != JobState::Pending {
            refused(before, after, r, cannot_start_message(id, j.state), false)
        } else {
            &&& r is Ok
            &&& advanced(before, after, id, j, JobState::Running, 1)
            &&& keeps_outcome(after, id, j)
            &&& is_status_change(event_at(after, k), id, JobState::Pending, JobState::Running)
        },
    }
}

/// `progress(id, ..)`: a `Running` job reports progress; nothing else changes.
pub open spec fn progress_outcome(before: JobRegistry, after: JobRegistry, id: Seq<char>, percent: Option<u8>,
    stage: Option<String>, detail: Option<String>, r: Result<(), AvixError>) -> bool {
    let k = before.pending_events().len() as int;
    match before.lookup(id) {
        None => refused(before, after, r, job_not_found_message(id), true),
        Some(j) => if j.state != JobState::Running {
            refused(before, after, r, not_running_message("progress"@, id), false)
        } else {
            &&& r is Ok
            &&& advanced(before, after, id, j, JobState::Running, 1)
            &&& keeps_outcome(after, id, j)
            &&& event_at(after, k) matches JobEvent::Progress { job_id, percent: p, stage: s, detail: d }
                && job_id@ == id && p == percent && s == stage && d == detail
        },
    }
}

/// `log(id, ..)`: a `Running` job reports a log line; nothing else changes.
pub open spec fn log_outcome(before: JobRegistry, after: JobRegistry, id: Seq<char>, stream: LogStream,
    line: String, r: Result<(), AvixError>) -> bool {
    let k = before.pending_events().len() as int;
    match before.lookup(id) {
        None => refused(before, after, r, job_not_found_message(id), true),
        Some(j) => if j.state != JobState::Running {
            refused(before, after, r, not_running_message("log"@, id), false)
        } else {
            &&& r is Ok
            &&& advanced(before, after, id, j, JobState::Running, 1)
            &&& keeps_outcome(after, id, j)
            &&& event_at(after, k) matches JobEvent::Log { job_id, stream: s, line: l }
                && job_id@ == id && s == stream && l == line
        },
    }
}

/// `complete(id, result)`: a `Running` job becomes `Done`, keeping a copy
/// of `result`; a status change and then the result are announced. A job
/// in any other state is refused and left as it was.
pub open spec fn complete_outcome(before: JobRegistry, after: JobRegistry, id: Seq<char>, result: Json,
    r: Result<(), AvixError>) -> bool {
    let k = before.pending_events().len() as int;
    match before.lookup(id) {
        None => refused(before, after, r, job_not_found_message(id), true),
        Some(j) => if state_is_terminal(j.state) {
            refused(before, after, r, already_terminal_message("complete"@, id, j.state), false)
        } else if j.state != JobState::Running {
            refused(before, after, r, wrong_state_message("complete"@, id, j.state), false)
        } else {
            &&& r is Ok
            &&& advanced(before, after, id, j, JobState::Done, 2)
            &&& after.lookup(id) matches Some(x) && x.error == j.error
                && (x.result matches Some(kept) && json_same(result, kept))
            &&& is_status_change(event_at(after, k), id, j.state, JobState::Done)
            &&& event_at(after, k + 1) matches JobEvent::Complete { job_id, result: res }
                && job_id@ == id && res == result
        },
    }
}

/// `fail(id, error)`: a `Running` job becomes `Failed`, keeping the
/// error; a status change and then the failure are announced. A job in any
/// other state is refused and left as it was.
pub open spec fn fail_outcome(before: JobRegistry, after: JobRegistry, id: Seq<char>, error: JobError,
    r: Result<(), AvixError>) -> bool {
    let k = before.pending_events().len() as int;
    match before.lookup(id) {
        None => refused(before, after, r, job_not_found_message(id), true),
        Some(j) => if state_is_terminal(j.state) {
            refused(before, after, r, already_terminal_message("fail"@, id, j.state), false)
        } else if j.state != JobState::Running {
            refused(before, after, r, wrong_state_message("fail"@, id, j.state), false)
        } else {
            &&& r is Ok
            &&& advanced(before, after, id, j, JobState::Failed, 2)
            &&& after.lookup(id) matches Some(x) && x.result == j.result && x.error == Some(error)
            &&& is_status_change(event_at(after, k), id, j.state, JobState::Failed)
            &&& event_at(after, k + 1) matches JobEvent::Fail { job_id, error: e }
                && job_id@ == id && e == error
        },
    }
}

/// `cancel(id)`: a `Running` or `Paused` job becomes `Cancelled`; a job in
/// any other state is refused and left as it was.
pub open spec fn cancel_outcome(before: JobRegistry, after: JobRegistry, id: Seq<char>, r: Result<(), AvixError>) -> bool {
    let k = before.pending_events().len() as int;
    match before.lookup(id) {
        None => refused(before, after, r, job_not_found_message(id), true),
        Some(j) => if state_is_terminal(j.state) {
            refused(before, after, r, already_terminal_message("cancel"@, id, j.state), false)
        } else if !(j.state is Running || j.state is Paused) {
            refused(before, after, r, wrong_state_message("cancel"@, id, j.state), false)
        } else {
            &&& r is Ok
            &&& advanced(before, after, id, j, JobState::Cancelled, 1)
            &&& keeps_outcome(after, id, j)
            &&& is_status_change(event_at(after, k), id, j.state, JobState::Cancelled)
        },
    }
}

fn not_found_error(id: &str) -> (e: AvixError)
    ensures
        e matches AvixError::NotFound(m) && m@ == job_not_found_message(id@),
{
    AvixError::NotFound(concat3("job '", id, "' not found"))
}

fn terminal_error(verb: &str, id: &str, st: JobState) -> (e: AvixError)
    ensures
        e matches AvixError::ConfigParse(m) && m@ == already_terminal_message(verb@, id@, st),
{
    let head = concat3("cannot ", verb, " job '");
    let mid = concat3(head.as_str(), id, "': already in terminal state ");
    AvixError::ConfigParse(concat2(mid.as_str(), st.debug_name().as_str()))
}

fn wrong_state_error(verb: &str, id: &str, st: JobState) -> (e: AvixError)
    ensures
        e matches AvixError::ConfigParse(m) && m@ == wrong_state_message(verb@, id@, st),
{
    let head = concat3("cannot ", verb, " job '");
    let mid = concat3(head.as_str(), id, "': state is ");
    AvixError::ConfigParse(concat2(mid.as_str(), st.debug_name().as_str()))
}

fn not_running_error(what: &str, id: &str) -> (e: AvixError)
    ensures
        e matches AvixError::ConfigParse(m) && m@ == not_running_message(what@, id@),
{
    let head = concat3("cannot emit ", what, " for job '");
    AvixError::ConfigParse(concat3(head.as_str(), id, "': not running"))
}

impl JobRegistry {
    #[verifier::type_invariant]
    spec fn inv(&self) -> bool {
        job_ids_distinct(self.jobs@)
    }

    /// The jobs, in the order they were created.
    pub closed spec fn jobs(&self) -> Seq<Job> {
        self.jobs@
    }

    /// The events emitted and not yet taken, oldest first.
    pub closed spec fn pending_events(&self) -> Seq<JobEvent> {
        self.outbox@
    }

    /// The job under `id`.
    pub open spec fn lookup(&self, id: Seq<char>) -> Option<Job> {
        job_lookup(self.jobs(), id)
    }

    /// An empty registry.
    pub fn new() -> (r: JobRegistry)
        ensures
            r.jobs().len() == 0,
            r.pending_events().len() == 0,
            forall|k: Seq<char>| r.lookup(k) is None,
    {
        JobRegistry { jobs: Vec::new(), outbox: Vec::new() }
    }

    fn find(&self, id: &str) -> (r: Option<usize>)
        ensures
            match r {
                Some(i) => i < self.jobs().len() && self.jobs()[i as int].id@ == id@
                    && self.lookup(id@) == Some(self.jobs()[i as int]),
                None => self.lookup(id@) is None,
            },
    {
        proof { use_type_invariant(self); }
        let mut i: usize = 0;
        while i < self.jobs.len()
            invariant
                i <= self.jobs@.len(),
                job_ids_distinct(self.jobs@),
                forall|j: int| 0 <= j < i ==> self.jobs@[j].id@ != id@,
            decreases self.jobs@.len() - i,
        {
            if crate::text::str_eq(self.jobs[i].id.as_str(), id) {
                proof { lemma_job_lookup_at(self.jobs@, i as int); }
                return Some(i);
            }
            i += 1;
        }
        proof { lemma_job_lookup_absent(self.jobs@, id@); }
        None
    }

    /// Replace the state (and, when given, the result or error) of the job
    /// at `i`, stamping it with `now`.
    fn change(&mut self, i: usize, state: JobState, result: Option<Json>, error: Option<JobError>, now: String)
        requires
            i < old(self).jobs().len(),
        ensures
            final(self).jobs().len() == old(self).jobs().len(),
            final(self).jobs()[i as int].updated_at == now,
            job_changed(old(self).jobs()[i as int], final(self).jobs()[i as int], state, result, error),
            forall|k: Seq<char>| k != old(self).jobs()[i as int].id@ ==> final(self).lookup(k) == old(self).lookup(k),
            final(self).lookup(old(self).jobs()[i as int].id@) == Some(final(self).jobs()[i as int]),
            final(self).pending_events() == old(self).pending_events(),
    {
        proof { use_type_invariant(&*self); }
        let mut jobs: Vec<Job> = Vec::new();
        std::mem::swap(&mut jobs, &mut self.jobs);
        let ghost s0 = jobs@;
        let mut job = jobs.remove(i);
        job.state = state;
        job.updated_at = now;
        match result {
            Some(r) => { job.result = Some(r); },
            None => {},
        }
        match error {
            Some(e) => { job.error = Some(e); },
            None => {},
        }
        let ghost nj = job;
        jobs.insert(i, job);
        proof {
            assert(jobs@ =~= s0.update(i as int, nj));
            assert(job_ids_distinct(jobs@));
            lemma_job_lookup_at(jobs@, i as int);
            assert forall|k: Seq<char>| k != s0[i as int].id@ implies job_lookup(jobs@, k) == job_lookup(s0, k) by {
                lemma_job_lookup_update(s0, i as int, nj, k);
            }
        }
        self.jobs = jobs;
    }

    fn emit(&mut self, e: JobEvent)
        ensures
            final(self).jobs() == old(self).jobs(),
            final(self).pending_events() == old(self).pending_events().push(e),
    {
        proof { use_type_invariant(&*self); }
        let mut out: Vec<JobEvent> = Vec::new();
        std::mem::swap(&mut out, &mut self.outbox);
        out.push(e);
        self.outbox = out;
    }

    /// Create a job for `tool` in `Pending` state; returns its new id,
    /// `job-` followed by a fresh identifier.
    pub fn create(&mut self, tool: &str, owner_pid: Pid) -> (id: String)
        ensures
            id@.len() == 40,
            "job-"@.is_prefix_of(id@),
            final(self).lookup(id@) matches Some(j) && j.id@ == id@ && j.tool@ == tool@
                && j.owner_pid == owner_pid && j.state == JobState::Pending
                && j.result is None && j.error is None && j.created_at == j.updated_at,
            forall|k: Seq<char>| k != id@ ==> final(self).lookup(k) == old(self).lookup(k),
            final(self).jobs().len() == old(self).jobs().len() + (if old(self).lookup(id@) is Some { 0int } else { 1int }),
            final(self).pending_events() == old(self).pending_events(),
    {
        proof { use_type_invariant(&*self); }
        let u = new_uuid_v4();
        let id = concat2("job-", u.as_str());
        proof { reveal_strlit("job-"); assert("job-"@.len() == 4); assert(id@.subrange(0, 4) =~= "job-"@); }
        let now = now_rfc3339();
        let job = Job {
            id: id.clone(),
            tool: owned(tool),
            owner_pid,
            state: JobState::Pending,
            created_at: now.clone(),
            updated_at: now,
            result: None,
            error: None,
        };
        match self.find(id.as_str()) {
            Some(i) => {
                // a job with this id already existed: it is replaced outright
                let mut jobs: Vec<Job> = Vec::new();
                std::mem::swap(&mut jobs, &mut self.jobs);
                let ghost s0 = jobs@;
                let ghost nj = job;
                jobs.set(i, job);
                proof {
                    assert(jobs@ =~= s0.update(i as int, nj));
                    assert(job_ids_distinct(jobs@));
                    lemma_job_lookup_at(jobs@, i as int);
                    assert forall|k: Seq<char>| k != id@ implies job_lookup(jobs@, k) == job_lookup(s0, k) by {
                        lemma_job_lookup_update(s0, i as int, nj, k);
                    }
                }
                self.jobs = jobs;
            },
            None => {
                let mut jobs: Vec<Job> = Vec::new();
                std::mem::swap(&mut jobs, &mut self.jobs);
                let ghost s0 = jobs@;
                let ghost nj = job;
                jobs.push(job);
                proof {
                    assert(job_ids_distinct(jobs@)) by {
                        assert forall|a: int, b: int| 0 <= a < b < jobs@.len() implies jobs@[a].id@ != jobs@[b].id@ by {
                            if b == s0.len() {
                                if jobs@[a].id@ == id@ {
                                    assert(job_lookup(s0, s0[a].id@) == Some(s0[a])) by {
                                        lemma_job_lookup_at(s0, a);
                                    }
                                }
                            }
                        }
                    }
                    lemma_job_lookup_at(jobs@, s0.len() as int);
                    assert forall|k: Seq<char>| k != id@ implies job_lookup(jobs@, k) == job_lookup(s0, k) by {
                        lemma_job_lookup_push(s0, nj, k);
                    }
                }
                self.jobs = jobs;
            },
        }
        id
    }
    /// Transition `Pending` → `Running`.
    pub fn start(&mut self, job_id: &str) -> (r: Result<(), AvixError>)
        ensures
            start_outcome(*old(self), *final(self), job_id@, r),
    {
        match self.find(job_id) {
            None => Err(not_found_error(job_id)),
            Some(i) => {
                let st = self.jobs[i].state;
                if st != JobState::Pending {
                    let m = concat3("cannot start job '", job_id, "': state is ");
                    return Err(AvixError::ConfigParse(concat2(m.as_str(), st.debug_name().as_str())));
                }
                let now = now_rfc3339();
                self.change(i, JobState::Running, None, None, now);
                self.emit(JobEvent::StatusChange { job_id: owned(job_id), old_state: st, new_state: JobState::Running });
                Ok(())
            },
        }
    }

    /// Announce progress of a `Running` job.
    pub fn progress(&mut self, job_id: &str, percent: Option<u8>, stage: Option<String>, detail: Option<String>) -> (r: Result<(), AvixError>)
        ensures
            progress_outcome(*old(self), *final(self), job_id@, percent, stage, detail, r),
    {
        match self.find(job_id) {
            None => Err(not_found_error(job_id)),
            Some(i) => {
                let st = self.jobs[i].state;
                if st != JobState::Running {
                    return Err(not_running_error("progress", job_id));
                }
                let now = now_rfc3339();
                self.change(i, JobState::Running, None, None, now);
                self.emit(JobEvent::Progress { job_id: owned(job_id), percent, stage, detail });
                Ok(())
            },
        }
    }

    /// Announce a log line of a `Running` job.
    pub fn log(&mut self, job_id: &str, stream: LogStream, line: String) -> (r: Result<(), AvixError>)
        ensures
            log_outcome(*old(self), *final(self), job_id@, stream, line, r),
    {
        match self.find(job_id) {
            None => Err(not_found_error(job_id)),
            Some(i) => {
                let st = self.jobs[i].state;
                if st != JobState::Running {
                    return Err(not_running_error("log", job_id));
                }
                let now = now_rfc3339();
                self.change(i, JobState::Running, None, None, now);
                self.emit(JobEvent::Log { job_id: owned(job_id), stream, line });
                Ok(())
            },
        }
    }

    /// Finish a `Running` job with `result`.
    pub fn complete(&mut self, job_id: &str, result: Json) -> (r: Result<(), AvixError>)
        ensures
            complete_outcome(*old(self), *final(self), job_id@, result, r),
    {
        match self.find(job_id) {
            None => Err(not_found_error(job_id)),
            Some(i) => {
                let st = self.jobs[i].state;
                if st.is_terminal() {
                    return Err(terminal_error("complete", job_id, st));
                }
                if st != JobState::Running {
                    return Err(wrong_state_error("complete", job_id, st));
                }
                let now = now_rfc3339();
                let kept = result.deep_clone();
                self.change(i, JobState::Done, Some(kept), None, now);
                self.emit(JobEvent::StatusChange { job_id: owned(job_id), old_state: st, new_state: JobState::Done });
                self.emit(JobEvent::Complete { job_id: owned(job_id), result });
                Ok(())
            },
        }
    }

    /// Fail a `Running` job with `error`.
    pub fn fail(&mut self, job_id: &str, error: JobError) -> (r: Result<(), AvixError>)
        ensures
            fail_outcome(*old(self), *final(self), job_id@, error, r),
    {
        match self.find(job_id) {
            None => Err(not_found_error(job_id)),
            Some(i) => {
                let st = self.jobs[i].state;
                if st.is_terminal() {
                    return Err(terminal_error("fail", job_id, st));
                }
                if st != JobState::Running {
                    return Err(wrong_state_error("fail", job_id, st));
                }
                let now = now_rfc3339();
                let kept = error.duplicate();
                self.change(i, JobState::Failed, None, Some(kept), now);
                self.emit(JobEvent::StatusChange { job_id: owned(job_id), old_state: st, new_state: JobState::Failed });
                self.emit(JobEvent::Fail { job_id: owned(job_id), error });
                Ok(())
            },
        }
    }

    /// Cancel a `Running` or `Paused` job.
    pub fn cancel(&mut self, job_id: &str) -> (r: Result<(), AvixError>)
        ensures
            cancel_outcome(*old(self), *final(self), job_id@, r),
    {
        match self.find(job_id) {
            None => Err(not_found_error(job_id)),
            Some(i) => {
                let st = self.jobs[i].state;
                if st.is_terminal() {
                    return Err(terminal_error("cancel", job_id, st));
                }
                if !(st == JobState::Running || st == JobState::Paused) {
                    return Err(wrong_state_error("cancel", job_id, st));
                }
                let now = now_rfc3339();
                self.change(i, JobState::Cancelled, None, None, now);
                self.emit(JobEvent::StatusChange { job_id: owned(job_id), old_state: st, new_state: JobState::Cancelled });
                Ok(())
            },
        }
    }

    /// The job under `job_id`.
    pub fn get(&self, job_id: &str) -> (r: Result<&Job, AvixError>)
        ensures
            match self.lookup(job_id@) {
                Some(j) => r matches Ok(x) && *x == j,
                None => r matches Err(AvixError::NotFound(m)) && m@ == job_not_found_message(job_id@),
            },
    {
        match self.find(job_id) {
            Some(i) => Ok(&self.jobs[i]),
            None => Err(not_found_error(job_id)),
        }
    }

    /// How many jobs the registry holds.
    pub fn job_count(&self) -> (n: usize)
        ensures
            n == self.jobs().len(),
    {
        self.jobs.len()
    }

    /// Hand over the events emitted so far, oldest first.
    pub fn take_events(&mut self) -> (evs: Vec<JobEvent>)
        ensures
            evs@ == old(self).pending_events(),
            final(self).pending_events().len() == 0,
            final(self).jobs() == old(self).jobs(),
    {
        proof { use_type_invariant(&*self); }
        let mut out: Vec<JobEvent> = Vec::new();
        std::mem::swap(&mut out, &mut self.outbox);
        out
    }
}

/// How long `job/watch` waits when the caller names no timeout.
pub const DEFAULT_WATCH_TIMEOUT_MS: u64 = 5000;

/// The wait a `job/watch` call uses: the requested one, or the default.
pub fn watch_timeout_ms(requested: Option<u64>) -> (ms: u64)
    ensures
        ms == (match requested {
            Some(t) => t,
            None => DEFAULT_WATCH_TIMEOUT_MS,
        }),
{
    match requested {
        Some(t) => t,
        None => DEFAULT_WATCH_TIMEOUT_MS,
    }
}

/// `j` is the bare status answer `{ status: s }`.
pub open spec fn status_reply(j: Json, s: Seq<char>) -> bool {
    j is Object && get_str_spec(j, "status"@) == Some(s) && member_count(j) == 1
}

/// `j` is `{ event: e }` with `e` satisfying `inner`.
pub open spec fn event_reply(j: Json, inner: spec_fn(Json) -> bool) -> bool {
    j is Object && member_count(j) == 1 && (json_get(j, "event"@) matches Some(e) && inner(e))
}

/// What `job/watch` does first, before waiting for events.
#[derive(Debug)]
pub enum WatchStart {
    /// Answer at once.
    Reply(Json),
    /// Wait for the job's next event.
    Wait,
}

/// The immediate answer `job/watch` gives for job `id` in registry `reg`:
/// `not_found` for an unknown job, the final event of a finished one
/// (`complete` with its result, `fail` with its error, or the change to
/// `cancelled`), and otherwise a wait.
pub open spec fn watch_start_spec(reg: JobRegistry, id: Seq<char>, w: WatchStart) -> bool {
    match reg.lookup(id) {
        None => w matches WatchStart::Reply(j) && status_reply(j, "not_found"@),
        Some(job) => match job.state {
            JobState::Done => w matches WatchStart::Reply(j) && event_reply(j, |e: Json|
                get_str_spec(e, "type"@) == Some("complete"@) && get_str_spec(e, "job_id"@) == Some(id)
                && (json_get(e, "result"@) matches Some(r) && match job.result {
                    Some(kept) => json_same(kept, r),
                    None => r is Null,
                }) && member_count(e) == 3),
            JobState::Failed => match job.error {
                Some(err) => w matches WatchStart::Reply(j) && event_reply(j, |e: Json|
                    get_str_spec(e, "type"@) == Some("fail"@) && get_str_spec(e, "job_id"@) == Some(id)
                    && (json_get(e, "error"@) matches Some(x) && error_json(err, x)) && member_count(e) == 3),
                None => w is Wait,
            },
            JobState::Cancelled => w matches WatchStart::Reply(j) && event_reply(j, |e: Json|
                get_str_spec(e, "type"@) == Some("status_change"@) && get_str_spec(e, "job_id"@) == Some(id)
                && get_str_spec(e, "old_state"@) == Some("running"@)
                && get_str_spec(e, "new_state"@) == Some("cancelled"@) && member_count(e) == 4),
            _ => w is Wait,
        },
    }
}

fn status_object(status: &str) -> (j: Json)
    ensures
        status_reply(j, status@),
{
    let mut j = Json::empty_object();
    j.set("status", Json::string(status));
    j
}

fn wrap_event(e: Json) -> (j: Json)
    ensures
        j is Object,
        member_count(j) == 1,
        json_get(j, "event"@) == Some(e),
{
    let mut j = Json::empty_object();
    j.set("event", e);
    j
}

/// The first step of `job/watch` for `job_id`.
pub fn watch_start(reg: &JobRegistry, job_id: &str) -> (w: WatchStart)
    ensures
        watch_start_spec(*reg, job_id@, w),
{
    proof {
        reveal_strlit("type"); reveal_strlit("job_id"); reveal_strlit("result"); reveal_strlit("error");
        reveal_strlit("old_state"); reveal_strlit("new_state");
        assert("type"@.len() == 4); assert("job_id"@.len() == 6); assert("result"@.len() == 6);
        assert("error"@.len() == 5); assert("old_state"@.len() == 9); assert("new_state"@.len() == 9);
        assert("job_id"@[0] != "result"@[0]); assert("old_state"@[0] != "new_state"@[0]);
    }
    match reg.get(job_id) {
        Err(_) => WatchStart::Reply(status_object("not_found")),
        Ok(job) => match job.state {
            JobState::Done => {
                let result = match &job.result {
                    Some(r) => r.deep_clone(),
                    None => Json::Null,
                };
                let mut e = Json::empty_object();
                e.set("type", Json::string("complete"));
                e.set("job_id", Json::string(job_id));
                e.set("result", result);
                WatchStart::Reply(wrap_event(e))
            },
            JobState::Failed => match &job.error {
                Some(err) => {
                    let mut e = Json::empty_object();
                    e.set("type", Json::string("fail"));
                    e.set("job_id", Json::string(job_id));
                    e.set("error", error_to_json(err));
                    WatchStart::Reply(wrap_event(e))
                },
                None => WatchStart::Wait,
            },
            JobState::Cancelled => {
                let mut e = Json::empty_object();
                e.set("type", Json::string("status_change"));
                e.set("job_id", Json::string(job_id));
                e.set("old_state", Json::string("running"));
                e.set("new_state", Json::string("cancelled"));
                WatchStart::Reply(wrap_event(e))
            },
            _ => WatchStart::Wait,
        },
    }
}

/// The answer `job/watch` gives to an event while waiting for job
/// `job_id`: the event itself when it is about that job, else nothing
/// (keep waiting).
pub fn watch_event(job_id: &str, ev: &JobEvent) -> (r: Option<Json>)
    ensures
        event_job_id(*ev) == job_id@ ==> (r matches Some(j) && event_reply(j, |e: Json| event_json(*ev, e))),
        event_job_id(*ev) != job_id@ ==> r is None,
{
    if crate::text::str_eq(ev.job_id(), job_id) {
        Some(wrap_event(ev.to_json()))
    } else {
        None
    }
}

/// The answer `job/watch` gives when the wait ends without an event.
pub fn watch_timeout_reply() -> (j: Json)
    ensures
        status_reply(j, "timeout"@),
{
    status_object("timeout")
}

/// Create a job for `tool` and start it at once; returns its id. The work
/// itself is run by the caller.
pub fn start_job(registry: &mut JobRegistry, tool: &str, owner_pid: Pid) -> (id: String)
    ensures
        "job-"@.is_prefix_of(id@),
        final(registry).lookup(id@) matches Some(j) && j.tool@ == tool@ && j.owner_pid == owner_pid
            && j.state == JobState::Running && j.result is None && j.error is None,
        forall|k: Seq<char>| k != id@ ==> final(registry).lookup(k) == old(registry).lookup(k),
        final(registry).pending_events().len() == old(registry).pending_events().len() + 1,
        is_status_change(final(registry).pending_events().last(), id@, JobState::Pending, JobState::Running),
{
    let id = registry.create(tool, owner_pid);
    let r = registry.start(id.as_str());
    proof {
        assert(r is Ok);
    }
    id
}

/// A finished job stays finished: every transition asked of a job in
/// `Done`, `Failed` or `Cancelled` is refused and changes nothing.
pub proof fn law_finished_job_is_final(
    before: JobRegistry,
    after: JobRegistry,
    id: Seq<char>,
    r: Result<(), AvixError>,
    percent: Option<u8>,
    stage: Option<String>,
    detail: Option<String>,
    stream: LogStream,
    line: String,
    result: Json,
    error: JobError,
)
    requires
        before.lookup(id) matches Some(j) && state_is_terminal(j.state),
        start_outcome(before, after, id, r) || progress_outcome(before, after, id, percent, stage, detail, r)
            || log_outcome(before, after, id, stream, line, r) || complete_outcome(before, after, id, result, r)
            || fail_outcome(before, after, id, error, r) || cancel_outcome(before, after, id, r),
    ensures
        r is Err,
        after.jobs() == before.jobs(),
        after.pending_events() == before.pending_events(),
{
}

/// Only a pending job starts, and a started job is running.
pub proof fn law_start_only_from_pending(before: JobRegistry, after: JobRegistry, id: Seq<char>, r: Result<(), AvixError>)
    requires
        start_outcome(before, after, id, r),
        r is Ok,
    ensures
        before.lookup(id) matches Some(j) && j.state == JobState::Pending,
        after.lookup(id) matches Some(j) && j.state == JobState::Running,
{
}

/// Once a job is completed, `job/watch` answers at once with its
/// `complete` event, carrying the result it was completed with.
pub proof fn law_watch_reports_completion(
    before: JobRegistry,
    after: JobRegistry,
    id: Seq<char>,
    result: Json,
    r: Result<(), AvixError>,
    w: WatchStart,
)
    requires
        complete_outcome(before, after, id, result, r),
        r is Ok,
        watch_start_spec(after, id, w),
    ensures
        w matches WatchStart::Reply(j) && (json_get(j, "event"@) matches Some(e)
            && get_str_spec(e, "type"@) == Some("complete"@) && get_str_spec(e, "job_id"@) == Some(id)
            && (json_get(e, "result"@) matches Some(x) && json_same(result, x))),
{
    let job = after.lookup(id)->0;
    let kept = job.result->0;
    let j = w->Reply_0;
    let e = json_get(j, "event"@)->0;
    let x = json_get(e, "result"@)->0;
    lemma_json_same_trans(result, kept, x);
}

/// Once a job has failed, `job/watch` answers at once with its `fail`
/// event, carrying the error it failed with.
pub proof fn law_watch_reports_failure(
    before: JobRegistry,
    after: JobRegistry,
    id: Seq<char>,
    error: JobError,
    r: Result<(), AvixError>,
    w: WatchStart,
)
    requires
        fail_outcome(before, after, id, error, r),
        r is Ok,
        watch_start_spec(after, id, w),
    ensures
        w matches WatchStart::Reply(j) && (json_get(j, "event"@) matches Some(e)
            && get_str_spec(e, "type"@) == Some("fail"@) && get_str_spec(e, "job_id"@) == Some(id)
            && (json_get(e, "error"@) matches Some(x) && error_json(error, x))),
{
}

} // verus!
