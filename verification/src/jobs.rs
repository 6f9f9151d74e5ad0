//! The job poller: the client-side state machine that resolves operations
//! the daemon runs asynchronously.
//!
//! A poll fetches a fresh job status record. While the job is in progress the
//! caller sleeps a fixed interval and polls again; on completion the job is
//! freed exactly once and its payload (if any) is the call's result, a
//! completion without a payload being success with no value; a terminal
//! `error` status with no prior error detail, or an unrecognized status, is
//! a plugin bug.

use vstd::prelude::*;

use crate::codec::{encode_request, request_outcome};
use crate::error::{LsmError, LsmErrorKind, LsmResult};
use crate::json::{model_int, obj_get, obj_model, obj_new, obj_push, Json, JsonModel};
use crate::text::dec_chars;

verus! {

pub const JOB_STATUS_INPROGRESS: u64 = 1;

pub const JOB_STATUS_COMPLETE: u64 = 2;

pub const JOB_STATUS_ERROR: u64 = 3;

/// A job's status, as a closed set with an explicit fallback for any wire
/// value outside the known ones.
#[derive(Debug, Clone, Copy, PartialEq, Eq, Structural)]
pub enum JobStatus {
    InProgress,
    Complete,
    Error,
    Unknown(u64),
}

/// One fresh job status record: fetched on every poll, never cached.
#[derive(Debug)]
pub struct JobRecord {
    pub status: JobStatus,
    /// Progress indication only; it does not affect control flow.
    pub percent: u8,
    pub data: Option<Json>,
}

/// The status the wire integer denotes.
pub open spec fn status_of_int(s: int) -> JobStatus {
    if s == JOB_STATUS_INPROGRESS {
        JobStatus::InProgress
    } else if s == JOB_STATUS_COMPLETE {
        JobStatus::Complete
    } else if s == JOB_STATUS_ERROR {
        JobStatus::Error
    } else {
        JobStatus::Unknown(s as u64)
    }
}

/// Whether a decoded value has the shape of a job status record: a `status`
/// integer that fits 32 bits, a `percent` that fits 8 bits, and an optional
/// `data` payload.
pub open spec fn valid_job_record(m: JsonModel) -> bool {
    &&& m is Obj
    &&& m->Obj_0.contains_key("status"@)
    &&& (model_int(m->Obj_0["status"@]) matches Some(s) && 0 <= s <= u32::MAX)
    &&& m->Obj_0.contains_key("percent"@)
    &&& (model_int(m->Obj_0["percent"@]) matches Some(p) && 0 <= p <= u8::MAX)
}

/// The `status` integer of a well-formed record.
pub open spec fn job_status_model(m: JsonModel) -> int {
    match model_int(m->Obj_0["status"@]) {
        Some(s) => s,
        None => 0,
    }
}

/// The `percent` integer of a well-formed record.
pub open spec fn job_percent_model(m: JsonModel) -> int {
    match model_int(m->Obj_0["percent"@]) {
        Some(p) => p,
        None => 0,
    }
}

/// The `data` payload of a record: a missing or null field carries none.
pub open spec fn job_data_model(m: JsonModel) -> Option<JsonModel> {
    if m->Obj_0.contains_key("data"@) && !(m->Obj_0["data"@] is Null) {
        Some(m->Obj_0["data"@])
    } else {
        None
    }
}

/// Decodes a `job_status` result into a record; any shape mismatch is a
/// serialization failure.
pub fn job_record_from_json(j: &Json) -> (r: LsmResult<JobRecord>)
    ensures
        ({
            let m = j.deep_view();
            match r {
                Ok(rec) => {
                    &&& valid_job_record(m)
                    &&& rec.status == status_of_int(job_status_model(m))
                    &&& rec.percent as int == job_percent_model(m)
                    &&& match (rec.data, job_data_model(m)) {
                        (None, None) => true,
                        (Some(d), Some(dm)) => d.deep_view() == dm,
                        _ => false,
                    }
                },
                Err(e) => !valid_job_record(m) && e.kind == LsmErrorKind::TransportSerialization,
            }
        }),
{
    let fields = match j {
        Json::Obj(fields) => fields,
        _ => {
            return Err(malformed_job_record());
        },
    };
    let status_int: u64 = match obj_get(fields, "status") {
        Some(sj) => match sj.as_u64() {
            Some(s) if s <= u32::MAX as u64 => s,
            _ => {
                return Err(malformed_job_record());
            },
        },
        None => {
            return Err(malformed_job_record());
        },
    };
    let percent: u8 = match obj_get(fields, "percent") {
        Some(pj) => match pj.as_u64() {
            Some(p) if p <= u8::MAX as u64 => p as u8,
            _ => {
                return Err(malformed_job_record());
            },
        },
        None => {
            return Err(malformed_job_record());
        },
    };
    let data: Option<Json> = match obj_get(fields, "data") {
        None => None,
        Some(dj) => {
            if dj.is_null() {
                None
            } else {
                Some(dj.deep_clone())
            }
        },
    };
    let status = if status_int == JOB_STATUS_INPROGRESS {
        JobStatus::InProgress
    } else if status_int == JOB_STATUS_COMPLETE {
        JobStatus::Complete
    } else if status_int == JOB_STATUS_ERROR {
        JobStatus::Error
    } else {
        JobStatus::Unknown(status_int)
    };
    Ok(JobRecord { status, percent, data })
}

/// The error returned for a `job_status` result of the wrong shape.
fn malformed_job_record() -> (r: LsmError)
    ensures
        r.kind == LsmErrorKind::TransportSerialization,
{
    LsmError::with_msg(LsmErrorKind::TransportSerialization, "malformed job status record")
}

/// What the poll loop does after one status record.
#[derive(Debug)]
pub enum PollStep {
    /// The job is still in progress: sleep the fixed interval, poll again.
    Wait,
    /// The job completed: the handle is freed exactly once, and the payload
    /// (if any) is the call's result; no payload means success with no
    /// value.
    Finish(Option<Json>),
    /// The poll ends the call with this error.
    Fail(LsmError),
}

/// The message reported when a job fails without prior error detail.
pub open spec fn no_error_detail_msg() -> Seq<char> {
    "got no error detail for failed job"@
}

/// The message reported for an unrecognized status value.
pub open spec fn invalid_status_msg(s: int) -> Seq<char> {
    "got invalid job status "@ + dec_chars(s as nat)
}

/// Decides one step of the poll loop from a fresh status record.
///
/// A job still in progress is waited on; a completed job is freed and
/// finishes with its payload (if any); a failed job whose error detail never
/// arrived on a prior call is a plugin bug, as is an unrecognized status
/// value.
pub fn poll_decision(rec: JobRecord) -> (d: PollStep)
    ensures
        match rec.status {
            JobStatus::InProgress => d is Wait,
            JobStatus::Complete => d matches PollStep::Finish(p) && p == rec.data,
            JobStatus::Error => d matches PollStep::Fail(e) && e.kind == LsmErrorKind::PluginBug
                && e.msg@ == no_error_detail_msg(),
            JobStatus::Unknown(s) => d matches PollStep::Fail(e) && e.kind
                == LsmErrorKind::PluginBug && e.msg@ == invalid_status_msg(s as int),
        },
{
    match rec.status {
        JobStatus::InProgress => PollStep::Wait,
        JobStatus::Complete => PollStep::Finish(rec.data),
        JobStatus::Error => PollStep::Fail(
            LsmError::with_msg(LsmErrorKind::PluginBug, "got no error detail for failed job"),
        ),
        JobStatus::Unknown(s) => {
            let mut m = "got invalid job status ".to_owned();
            m.append(crate::text::u64_to_dec_string(s).as_str());
            proof {
                assert(m@ =~= invalid_status_msg(s as int));
            }
            PollStep::Fail(LsmError { kind: LsmErrorKind::PluginBug, msg: m })
        },
    }
}

/// The index of the first record that is not in progress: where the poll
/// loop, driven by [`poll_decision`], stops waiting.
pub open spec fn first_terminal(s: Seq<JobRecord>) -> int
    decreases s.len(),
{
    if s.len() == 0 {
        0
    } else if !(s[0].status is InProgress) {
        0
    } else {
        1 + first_terminal(s.drop_first())
    }
}

/// How many `job_status` polls a scripted run issues: one per in-progress
/// record and one for the terminal record, if any.
pub open spec fn script_polls(s: Seq<JobRecord>) -> int {
    if first_terminal(s) < s.len() {
        first_terminal(s) + 1
    } else {
        s.len() as int
    }
}

/// How many sleeps a scripted run takes: one after each in-progress poll.
pub open spec fn script_sleeps(s: Seq<JobRecord>) -> int {
    first_terminal(s)
}

/// How many `job_free` calls a scripted run issues: exactly one when the
/// job completes, none otherwise.
pub open spec fn script_frees(s: Seq<JobRecord>) -> int {
    if first_terminal(s) < s.len() && s[first_terminal(s)].status is Complete {
        1
    } else {
        0
    }
}

/// The payload a scripted run returns, when the job completes.
pub open spec fn script_result(s: Seq<JobRecord>) -> Option<Option<Json>> {
    if first_terminal(s) < s.len() && s[first_terminal(s)].status is Complete {
        Some(s[first_terminal(s)].data)
    } else {
        None
    }
}

proof fn lemma_first_terminal_at(s: Seq<JobRecord>, k: int)
    requires
        0 <= k < s.len(),
        forall|j: int| 0 <= j < k ==> (#[trigger] s[j]).status is InProgress,
        !(s[k].status is InProgress),
    ensures
        first_terminal(s) == k,
    decreases k,
{
    if k == 0 {
    } else {
        assert(s[0].status is InProgress);
        let t = s.drop_first();
        assert forall|j: int| 0 <= j < k - 1 implies (#[trigger] t[j]).status is InProgress by {
            assert(t[j] == s[j + 1]);
        }
        assert(t[k - 1] == s[k]);
        lemma_first_terminal_at(t, k - 1);
    }
}

/// The poll loop's transcript law: scripted as `k` in-progress records and
/// then a completed one, the poller issues exactly `k + 1` status polls,
/// sleeps after each of the `k` in-progress replies, frees the job exactly
/// once, and returns the completing record's payload.
pub proof fn lemma_poll_script_counts(s: Seq<JobRecord>, k: int)
    requires
        0 <= k < s.len(),
        forall|j: int| 0 <= j < k ==> (#[trigger] s[j]).status is InProgress,
        s[k].status is Complete,
    ensures
        script_polls(s) == k + 1,
        script_sleeps(s) == k,
        script_frees(s) == 1,
        script_result(s) == Some(s[k].data),
{
    lemma_first_terminal_at(s, k);
}

/// The parameters of a `job_status` or `job_free` request.
pub open spec fn job_params(job_id: Seq<char>) -> Map<Seq<char>, JsonModel> {
    Map::empty().insert("job_id"@, JsonModel::Str(job_id))
}

/// Builds the `job_status` request for a job handle.
pub fn job_status_request(job_id: &str) -> (r: LsmResult<Vec<u8>>)
    ensures
        request_outcome(r, "job_status"@, job_params(job_id@)),
{
    let mut params = obj_new();
    obj_push(&mut params, "job_id", Json::Str(job_id.to_owned()));
    encode_request("job_status", params)
}

/// Builds the `job_free` request for a job handle. Its result is discarded
/// by the caller.
pub fn job_free_request(job_id: &str) -> (r: LsmResult<Vec<u8>>)
    ensures
        request_outcome(r, "job_free"@, job_params(job_id@)),
{
    let mut params = obj_new();
    obj_push(&mut params, "job_id", Json::Str(job_id.to_owned()));
    encode_request("job_free", params)
}

} // verus!
