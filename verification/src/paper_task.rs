//! What the records of the task owners have in common.

use crate::text::{all_identity_chars, byte_len, byte_length, safe_identity, same_text};
use crate::timestamp::Timestamp;
use vstd::prelude::*;

verus! {

pub const TASK_RECORD_SCHEMA_VERSION: u16 = 1;

pub const TASK_STRATEGY: &'static str = "read_only_task";

pub const TASK_SYMBOL: &'static str = "control-plane";

pub const MAX_TASK_ID_BYTES: usize = 96;

pub const MAX_IDENTITY_BYTES: usize = 128;

/// The bytes of `/op/` and a number of twenty digits.
pub const OPERATION_SUFFIX_BYTES: usize = 24;

/// An owner identity: not empty, made of plain characters, and short enough
/// that every operation identity stays within its bound too.
pub open spec fn is_task_identity(value: Seq<char>) -> bool {
    &&& value.len() > 0
    &&& byte_length(value) <= MAX_TASK_ID_BYTES
    &&& byte_length(value) + OPERATION_SUFFIX_BYTES <= MAX_IDENTITY_BYTES
    &&& all_identity_chars(value)
}

/// The identity of an exchange or a source: not empty, bounded, and made of
/// plain characters.
pub open spec fn is_plain_identity(value: Seq<char>) -> bool {
    value.len() > 0 && byte_length(value) <= MAX_IDENTITY_BYTES && all_identity_chars(value)
}

pub fn valid_task_identity(value: &str) -> (r: bool)
    ensures
        r == is_task_identity(value@),
{
    !value.is_empty() && byte_len(value) <= MAX_TASK_ID_BYTES && byte_len(value)
        + OPERATION_SUFFIX_BYTES <= MAX_IDENTITY_BYTES && safe_identity(value)
}

pub fn valid_plain_identity(value: &str) -> (r: bool)
    ensures
        r == is_plain_identity(value@),
{
    !value.is_empty() && byte_len(value) <= MAX_IDENTITY_BYTES && safe_identity(value)
}

/// Where a market source stands.
#[derive(Clone, Copy, Debug, PartialEq, Eq, Structural)]
pub enum MarketSupervisorPhase {
    Starting,
    Running,
    Stopping,
    Stopped,
    Failed,
}

/// How a market source does.
#[derive(Clone, Copy, Debug, PartialEq, Eq, Structural)]
pub enum MarketSupervisorHealth {
    Unknown,
    Healthy,
    Degraded,
}

/// How a market source ended.
#[derive(Clone, Copy, Debug, PartialEq, Eq, Structural)]
pub enum MarketSupervisorExit {
    StopRequested,
    SourceEnded,
    ReconnectExhausted,
    ShutdownTimedOut,
}

pub open spec fn phase_text(phase: MarketSupervisorPhase) -> Seq<char> {
    match phase {
        MarketSupervisorPhase::Starting => "starting"@,
        MarketSupervisorPhase::Running => "running"@,
        MarketSupervisorPhase::Stopping => "stopping"@,
        MarketSupervisorPhase::Stopped => "stopped"@,
        MarketSupervisorPhase::Failed => "failed"@,
    }
}

pub fn source_phase_label(phase: MarketSupervisorPhase) -> (r: &'static str)
    ensures
        r@ == phase_text(phase),
{
    match phase {
        MarketSupervisorPhase::Starting => "starting",
        MarketSupervisorPhase::Running => "running",
        MarketSupervisorPhase::Stopping => "stopping",
        MarketSupervisorPhase::Stopped => "stopped",
        MarketSupervisorPhase::Failed => "failed",
    }
}

pub open spec fn health_text(health: MarketSupervisorHealth) -> Seq<char> {
    match health {
        MarketSupervisorHealth::Unknown => "unknown"@,
        MarketSupervisorHealth::Healthy => "healthy"@,
        MarketSupervisorHealth::Degraded => "degraded"@,
    }
}

pub fn source_health_label(health: MarketSupervisorHealth) -> (r: &'static str)
    ensures
        r@ == health_text(health),
{
    match health {
        MarketSupervisorHealth::Unknown => "unknown",
        MarketSupervisorHealth::Healthy => "healthy",
        MarketSupervisorHealth::Degraded => "degraded",
    }
}

pub open spec fn exit_text(exit: MarketSupervisorExit) -> Seq<char> {
    match exit {
        MarketSupervisorExit::StopRequested => "stop_requested"@,
        MarketSupervisorExit::SourceEnded => "source_ended"@,
        MarketSupervisorExit::ReconnectExhausted => "reconnect_exhausted"@,
        MarketSupervisorExit::ShutdownTimedOut => "shutdown_timed_out"@,
    }
}

pub fn source_exit_label(exit: MarketSupervisorExit) -> (r: &'static str)
    ensures
        r@ == exit_text(exit),
{
    match exit {
        MarketSupervisorExit::StopRequested => "stop_requested",
        MarketSupervisorExit::SourceEnded => "source_ended",
        MarketSupervisorExit::ReconnectExhausted => "reconnect_exhausted",
        MarketSupervisorExit::ShutdownTimedOut => "shutdown_timed_out",
    }
}

/// One market source of an owner, as its status shows it.
#[derive(Clone, Debug)]
pub struct MarketSupervisorStatus {
    pub schema_version: u16,
    pub task_id: Option<u128>,
    pub source_id: String,
    pub phase: MarketSupervisorPhase,
    pub health: MarketSupervisorHealth,
    pub event_sequence: u64,
    pub dropped_event_count: u64,
    pub consecutive_source_failures: u32,
    pub last_event_at: Option<Timestamp>,
    pub exit: Option<MarketSupervisorExit>,
}

/// The status of a source that has not started yet.
pub open spec fn is_placeholder(
    status: MarketSupervisorStatus,
    source_id: Seq<char>,
    schema_version: u16,
) -> bool {
    &&& status.schema_version == schema_version
    &&& status.task_id is None
    &&& status.source_id@ == source_id
    &&& status.phase == MarketSupervisorPhase::Starting
    &&& status.health == MarketSupervisorHealth::Unknown
    &&& status.event_sequence == 0
    &&& status.dropped_event_count == 0
    &&& status.consecutive_source_failures == 0
    &&& status.last_event_at is None
    &&& status.exit is None
}

/// The status of a source that has not started yet, in the schema of the
/// market sources.
pub fn placeholder_source_value(source_id: &str, schema_version: u16) -> (r: MarketSupervisorStatus)
    ensures
        is_placeholder(r, source_id@, schema_version),
{
    MarketSupervisorStatus {
        schema_version,
        task_id: None,
        source_id: source_id.to_owned(),
        phase: MarketSupervisorPhase::Starting,
        health: MarketSupervisorHealth::Unknown,
        event_sequence: 0,
        dropped_event_count: 0,
        consecutive_source_failures: 0,
        last_event_at: None,
        exit: None,
    }
}

/// One lifecycle record of an owner.
#[derive(Debug)]
pub struct TaskRecord {
    pub recorded_at: Timestamp,
    pub schema_version: u16,
    pub strategy: &'static str,
    pub symbol: &'static str,
    pub decision: &'static str,
    pub task_id: String,
    pub task_kind: &'static str,
    pub phase: &'static str,
    pub processed_event_count: u64,
    pub exit: Option<&'static str>,
    pub failure: Option<&'static str>,
}

/// The characters of an optional label.
pub open spec fn label_in(label: Option<&'static str>) -> Option<Seq<char>> {
    match label {
        Some(text) => Some(text@),
        None => None,
    }
}

/// The record is the one of these values.
pub open spec fn is_task_record(
    record: TaskRecord,
    task_id: Seq<char>,
    task_kind: Seq<char>,
    decision: Seq<char>,
    phase: Seq<char>,
    processed_event_count: u64,
    exit: Option<Seq<char>>,
    failure: Option<Seq<char>>,
    recorded_at: Timestamp,
) -> bool {
    &&& record.recorded_at == recorded_at
    &&& record.schema_version == TASK_RECORD_SCHEMA_VERSION
    &&& record.strategy@ == TASK_STRATEGY@
    &&& record.symbol@ == TASK_SYMBOL@
    &&& record.decision@ == decision
    &&& record.task_id@ == task_id
    &&& record.task_kind@ == task_kind
    &&& record.phase@ == phase
    &&& record.processed_event_count == processed_event_count
    &&& label_in(record.exit) == exit
    &&& label_in(record.failure) == failure
}

/// The lifecycle record of these values.
pub fn lifecycle_record(
    task_id: &str,
    task_kind: &'static str,
    decision: &'static str,
    phase: &'static str,
    processed_event_count: u64,
    exit: Option<&'static str>,
    failure: Option<&'static str>,
    recorded_at: Timestamp,
) -> (r: TaskRecord)
    ensures
        is_task_record(
            r,
            task_id@,
            task_kind@,
            decision@,
            phase@,
            processed_event_count,
            label_in(exit),
            label_in(failure),
            recorded_at,
        ),
{
    TaskRecord {
        recorded_at,
        schema_version: TASK_RECORD_SCHEMA_VERSION,
        strategy: TASK_STRATEGY,
        symbol: TASK_SYMBOL,
        decision,
        task_id: task_id.to_owned(),
        task_kind,
        phase,
        processed_event_count,
        exit,
        failure,
    }
}

/// The record that registers an owner before its sources start.
pub fn registered_record(task_id: &str, task_kind: &'static str, recorded_at: Timestamp) -> (r:
    TaskRecord)
    ensures
        is_task_record(
            r,
            task_id@,
            task_kind@,
            "task_registered"@,
            "registered"@,
            0,
            None,
            None,
            recorded_at,
        ),
{
    lifecycle_record(
        task_id,
        task_kind,
        "task_registered",
        "registered",
        0,
        None,
        None,
        recorded_at,
    )
}

/// The record of an owner whose source could not start; it is never earlier
/// than the registration.
pub fn startup_failure_record(
    task_id: &str,
    task_kind: &'static str,
    now: Timestamp,
    registered_at: Timestamp,
) -> (r: TaskRecord)
    ensures
        is_task_record(
            r,
            task_id@,
            task_kind@,
            "task_failed"@,
            "failed"@,
            0,
            None,
            Some("startup_failed"@),
            crate::timestamp::later_of(now, registered_at),
        ),
{
    lifecycle_record(
        task_id,
        task_kind,
        "task_failed",
        "failed",
        0,
        None,
        Some("startup_failed"),
        now.later(registered_at),
    )
}

/// What the journal says of an earlier owner under the same identity.
#[derive(Clone, Copy, Debug, PartialEq, Eq, Structural)]
pub struct EarlierTask {
    pub stopped: bool,
    pub needs_recovery: bool,
}

/// There was no earlier owner, or it stopped and needs no recovery.
pub open spec fn earlier_task_is_settled(earlier: Option<EarlierTask>) -> bool {
    match earlier {
        None => true,
        Some(task) => task.stopped && !task.needs_recovery,
    }
}

/// A new owner may take the place of the earlier one.
pub fn earlier_task_settled(earlier: Option<EarlierTask>) -> (r: bool)
    ensures
        r == earlier_task_is_settled(earlier),
{
    match earlier {
        None => true,
        Some(task) => task.stopped && !task.needs_recovery,
    }
}

/// What the read model of the journal shows of one task.
#[derive(Clone, Copy, Debug, PartialEq, Eq, Structural)]
pub enum DurableTask {
    /// The model is not complete: nothing may be read from it.
    RecoveryRequired,
    Missing,
    /// The place of the task in the model.
    Found(usize),
}

/// No task has this identity.
pub open spec fn is_absent(task_ids: Seq<String>, task_id: Seq<char>) -> bool {
    forall|i: int| 0 <= i < task_ids.len() ==> (#[trigger] task_ids[i])@ != task_id
}

/// The first task with this identity stands here.
pub open spec fn is_first_task(task_ids: Seq<String>, task_id: Seq<char>, index: int) -> bool {
    &&& 0 <= index < task_ids.len()
    &&& task_ids[index]@ == task_id
    &&& forall|i: int| 0 <= i < index ==> (#[trigger] task_ids[i])@ != task_id
}

/// Finds a task in the read model of the journal.
pub fn durable_task_view(complete: bool, task_ids: &Vec<String>, task_id: &str) -> (r: DurableTask)
    ensures
        r is RecoveryRequired <==> !complete,
        r is Missing <==> complete && is_absent(task_ids@, task_id@),
        r is Found ==> complete && is_first_task(task_ids@, task_id@, r->Found_0 as int),
{
    if !complete {
        return DurableTask::RecoveryRequired;
    }
    let mut i: usize = 0;
    while i < task_ids.len()
        invariant
            i <= task_ids@.len(),
            complete,
            forall|k: int| 0 <= k < i ==> (#[trigger] task_ids@[k])@ != task_id@,
        decreases task_ids.len() - i,
    {
        if same_text(&task_ids[i], task_id) {
            assert(task_ids@[i as int]@ == task_id@);
            return DurableTask::Found(i);
        }
        i = i + 1;
    }
    DurableTask::Missing
}

} // verus!
