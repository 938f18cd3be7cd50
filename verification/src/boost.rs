use crate::codec::read_u32_le;
use crate::status::Completion;
use crate::status::DriverError;
use vstd::bytes::spec_u32_from_le_bytes;
use vstd::pervasive::unreached;
use vstd::prelude::*;

verus! {

/// The platform's legal dynamic-priority band. Values outside it are
/// rejected before any lookup, because the privileged primitive does
/// not validate and an out-of-range value causes undefined scheduling
/// behaviour.
pub const PRIORITY_MIN: i32 = 1;
pub const PRIORITY_MAX: i32 = 31;

/// Size in bytes of the priority-change record: a 32-bit target
/// identifier followed by a 32-bit signed priority.
pub const THREAD_DATA_SIZE: u32 = 8;

/// The priority-change record carried in a write request's payload.
#[derive(Clone, Copy, PartialEq, Eq, Structural, Debug)]
pub struct ThreadData {
    pub thread_id: u32,
    pub priority: i32,
}

pub open spec fn priority_in_range(priority: i32) -> bool {
    PRIORITY_MIN <= priority <= PRIORITY_MAX
}

/// The record held in the first eight payload bytes: both fields
/// little-endian, the priority read as a signed 32-bit value.
pub open spec fn thread_data_spec(payload: Seq<u8>) -> ThreadData
    recommends
        payload.len() >= THREAD_DATA_SIZE,
{
    ThreadData {
        thread_id: spec_u32_from_le_bytes(payload.subrange(0, 4)),
        priority: spec_u32_from_le_bytes(payload.subrange(4, 8)) as i32,
    }
}

/// Decodes the priority-change record from a request payload.
pub fn decode_thread_data(payload: &Vec<u8>) -> (data: ThreadData)
    requires
        payload@.len() >= THREAD_DATA_SIZE,
    ensures
        data == thread_data_spec(payload@),
{
    let thread_id = read_u32_le(payload, 0);
    let priority = read_u32_le(payload, 4) as i32;
    ThreadData { thread_id, priority }
}

/// The diagnostic record emitted after a successful priority change.
/// It is observability only: losing it never changes the request's
/// outcome.
#[derive(Clone, Copy, PartialEq, Eq, Structural, Debug)]
pub struct BoostDiagnostic {
    pub thread_id: u32,
    pub old_priority: i32,
    pub new_priority: i32,
}

/// Where a priority-change request stands. The request advances only
/// through the step functions below, which enforce the strict order:
/// validate, look the target up, apply the priority, release the
/// target's handle, complete.
#[derive(Clone, Copy, PartialEq, Eq, Debug)]
pub enum BoostPhase {
    /// The record is validated; the target has yet to be resolved.
    AwaitingLookup { data: ThreadData },
    /// The target is resolved and its handle is held.
    AwaitingSet { data: ThreadData },
    /// The priority is applied; the handle is still held and must be
    /// released before completion.
    AwaitingRelease { data: ThreadData, old_priority: i32 },
    /// Terminal: the completion to report, and the diagnostic to emit
    /// if the change was applied.
    Completed { completion: Completion, diagnostic: Option<BoostDiagnostic> },
}

/// What the runner must do next on the request's behalf.
#[derive(Clone, Copy, PartialEq, Eq, Debug)]
pub enum BoostAction {
    /// Resolve the identifier to a live execution context, taking a
    /// reference on it.
    LookupThread { thread_id: u32 },
    /// Apply the new priority to the resolved target, capturing the
    /// previous value.
    SetThreadPriority { thread_id: u32, priority: i32 },
    /// Drop the reference taken by the lookup.
    ReleaseThreadHandle,
    /// Report the completion; the request is over.
    CompleteRequest,
}

/// What the platform's lookup reported back.
#[derive(Clone, Copy, PartialEq, Eq, Debug)]
pub enum LookupOutcome {
    Found,
    /// The platform's failure status, to be propagated verbatim.
    Failed { code: u32 },
}

/// True while the request owns a reference to the target's execution
/// context. Such a reference must be released on every path before the
/// request completes.
pub open spec fn holds_handle(phase: BoostPhase) -> bool {
    phase is AwaitingSet || phase is AwaitingRelease
}

/// First step: gate the payload length, decode the record, check the
/// priority band. Either failure completes the request at once — no
/// lookup is performed — and a valid record asks for the lookup.
pub open spec fn boost_start_spec(payload: Seq<u8>) -> (BoostPhase, BoostAction) {
    if payload.len() < THREAD_DATA_SIZE {
        (
            BoostPhase::Completed {
                completion: Completion::failure_spec(DriverError::BufferTooSmall),
                diagnostic: None,
            },
            BoostAction::CompleteRequest,
        )
    } else {
        let data = thread_data_spec(payload);
        if !priority_in_range(data.priority) {
            (
                BoostPhase::Completed {
                    completion: Completion::failure_spec(DriverError::InvalidParameter),
                    diagnostic: None,
                },
                BoostAction::CompleteRequest,
            )
        } else {
            (
                BoostPhase::AwaitingLookup { data },
                BoostAction::LookupThread { thread_id: data.thread_id },
            )
        }
    }
}

pub fn boost_start(payload: &Vec<u8>) -> (r: (BoostPhase, BoostAction))
    ensures
        r == boost_start_spec(payload@),
        !holds_handle(r.0),
{
    if payload.len() < THREAD_DATA_SIZE as usize {
        let completion = Completion::failure(DriverError::BufferTooSmall);
        (BoostPhase::Completed { completion, diagnostic: None }, BoostAction::CompleteRequest)
    } else {
        let data = decode_thread_data(payload);
        if data.priority < PRIORITY_MIN || data.priority > PRIORITY_MAX {
            let completion = Completion::failure(DriverError::InvalidParameter);
            (BoostPhase::Completed { completion, diagnostic: None }, BoostAction::CompleteRequest)
        } else {
            (
                BoostPhase::AwaitingLookup { data },
                BoostAction::LookupThread { thread_id: data.thread_id },
            )
        }
    }
}

/// Second step: fold the lookup's outcome in. A failure is propagated
/// verbatim and the request completes without ever having held a
/// reference; on success the handle is now held and the priority is to
/// be applied.
pub open spec fn boost_on_lookup_spec(phase: BoostPhase, outcome: LookupOutcome) -> (
    BoostPhase,
    BoostAction,
)
    recommends
        phase is AwaitingLookup,
{
    let data = phase->AwaitingLookup_data;
    match outcome {
        LookupOutcome::Found => (
            BoostPhase::AwaitingSet { data },
            BoostAction::SetThreadPriority { thread_id: data.thread_id, priority: data.priority },
        ),
        LookupOutcome::Failed { code } => (
            BoostPhase::Completed {
                completion: Completion::failure_spec(DriverError::TargetNotFound { code }),
                diagnostic: None,
            },
            BoostAction::CompleteRequest,
        ),
    }
}

pub fn boost_on_lookup(phase: BoostPhase, outcome: LookupOutcome) -> (r: (BoostPhase, BoostAction))
    requires
        phase is AwaitingLookup,
    ensures
        r == boost_on_lookup_spec(phase, outcome),
        holds_handle(r.0) <==> outcome is Found,
{
    match phase {
        BoostPhase::AwaitingLookup { data } => match outcome {
            LookupOutcome::Found => (
                BoostPhase::AwaitingSet { data },
                BoostAction::SetThreadPriority {
                    thread_id: data.thread_id,
                    priority: data.priority,
                },
            ),
            LookupOutcome::Failed { code } => {
                let completion = Completion::failure(DriverError::TargetNotFound { code });
                (
                    BoostPhase::Completed { completion, diagnostic: None },
                    BoostAction::CompleteRequest,
                )
            },
        },
        _ => unreached(),
    }
}

/// Third step: the priority is applied and the previous value is in
/// hand. The handle is still held: the one legal next action is to
/// release it.
pub open spec fn boost_on_set_spec(phase: BoostPhase, old_priority: i32) -> (
    BoostPhase,
    BoostAction,
)
    recommends
        phase is AwaitingSet,
{
    let data = phase->AwaitingSet_data;
    (BoostPhase::AwaitingRelease { data, old_priority }, BoostAction::ReleaseThreadHandle)
}

pub fn boost_on_set(phase: BoostPhase, old_priority: i32) -> (r: (BoostPhase, BoostAction))
    requires
        phase is AwaitingSet,
    ensures
        r == boost_on_set_spec(phase, old_priority),
        r.1 is ReleaseThreadHandle,
{
    match phase {
        BoostPhase::AwaitingSet { data } => (
            BoostPhase::AwaitingRelease { data, old_priority },
            BoostAction::ReleaseThreadHandle,
        ),
        _ => unreached(),
    }
}

/// Last step: the handle is released, so the request may complete:
/// success, the record's size as the transferred count, and the
/// diagnostic reporting the previous and the new priority.
pub open spec fn boost_on_release_spec(phase: BoostPhase) -> (BoostPhase, BoostAction)
    recommends
        phase is AwaitingRelease,
{
    let data = phase->AwaitingRelease_data;
    let old_priority = phase->AwaitingRelease_old_priority;
    (
        BoostPhase::Completed {
            completion: Completion::success_spec(THREAD_DATA_SIZE),
            diagnostic: Some(
                BoostDiagnostic {
                    thread_id: data.thread_id,
                    old_priority,
                    new_priority: data.priority,
                },
            ),
        },
        BoostAction::CompleteRequest,
    )
}

pub fn boost_on_release(phase: BoostPhase) -> (r: (BoostPhase, BoostAction))
    requires
        phase is AwaitingRelease,
    ensures
        r == boost_on_release_spec(phase),
        !holds_handle(r.0),
{
    match phase {
        BoostPhase::AwaitingRelease { data, old_priority } => {
            let completion = Completion::success(THREAD_DATA_SIZE);
            let diagnostic = Some(
                BoostDiagnostic {
                    thread_id: data.thread_id,
                    old_priority,
                    new_priority: data.priority,
                },
            );
            (BoostPhase::Completed { completion, diagnostic }, BoostAction::CompleteRequest)
        },
        _ => unreached(),
    }
}

/// A record whose priority lies outside the legal band — zero or
/// thirty-two as much as any other out-of-range value — fails with
/// `InvalidParameter` before any lookup: the first step completes the
/// request at once, asks for no lookup, and emits no diagnostic.
pub proof fn lemma_out_of_range_priority_rejected(payload: Seq<u8>)
    requires
        payload.len() >= THREAD_DATA_SIZE,
        !priority_in_range(thread_data_spec(payload).priority),
    ensures
        boost_start_spec(payload).0 == (BoostPhase::Completed {
            completion: Completion::failure_spec(DriverError::InvalidParameter),
            diagnostic: None,
        }),
        boost_start_spec(payload).1 == BoostAction::CompleteRequest,
        !(boost_start_spec(payload).1 is LookupThread),
{
}

/// A record whose declared payload is shorter than the record itself
/// fails with `BufferTooSmall` before the payload is interpreted, and
/// no lookup is asked for.
pub proof fn lemma_short_payload_rejected(payload: Seq<u8>)
    requires
        payload.len() < THREAD_DATA_SIZE,
    ensures
        boost_start_spec(payload).0 == (BoostPhase::Completed {
            completion: Completion::failure_spec(DriverError::BufferTooSmall),
            diagnostic: None,
        }),
        boost_start_spec(payload).1 == BoostAction::CompleteRequest,
{
}

/// A valid record whose target exists runs the whole path: the lookup
/// is asked for the record's own identifier, the priority applied to
/// the target is exactly the record's, the handle is released before
/// completion, and the completion reports success, the record's size,
/// and a diagnostic carrying the previously-held priority.
pub proof fn lemma_valid_boost_succeeds(payload: Seq<u8>, old_priority: i32)
    requires
        payload.len() >= THREAD_DATA_SIZE,
        priority_in_range(thread_data_spec(payload).priority),
    ensures
        ({
            let data = thread_data_spec(payload);
            let (p1, a1) = boost_start_spec(payload);
            let (p2, a2) = boost_on_lookup_spec(p1, LookupOutcome::Found);
            let (p3, a3) = boost_on_set_spec(p2, old_priority);
            let (p4, a4) = boost_on_release_spec(p3);
            &&& a1 == (BoostAction::LookupThread { thread_id: data.thread_id })
            &&& a2 == (BoostAction::SetThreadPriority {
                thread_id: data.thread_id,
                priority: data.priority,
            })
            &&& a3 is ReleaseThreadHandle
            &&& a4 is CompleteRequest
            &&& p4 == (BoostPhase::Completed {
                completion: Completion::success_spec(THREAD_DATA_SIZE),
                diagnostic: Some(
                    BoostDiagnostic {
                        thread_id: data.thread_id,
                        old_priority,
                        new_priority: data.priority,
                    },
                ),
            })
            &&& !holds_handle(p4)
        }),
{
}

/// A valid record whose target does not exist fails with the
/// platform's own lookup status, propagated verbatim, and the request
/// never holds a reference: there is nothing to leak, however often
/// the call fails.
pub proof fn lemma_missing_target_leaves_no_reference(payload: Seq<u8>, code: u32)
    requires
        payload.len() >= THREAD_DATA_SIZE,
        priority_in_range(thread_data_spec(payload).priority),
    ensures
        ({
            let (p1, a1) = boost_start_spec(payload);
            let (p2, a2) = boost_on_lookup_spec(p1, LookupOutcome::Failed { code });
            &&& !holds_handle(p1)
            &&& p2 == (BoostPhase::Completed {
                completion: Completion::failure_spec(DriverError::TargetNotFound { code }),
                diagnostic: None,
            })
            &&& a2 is CompleteRequest
            &&& !holds_handle(p2)
        }),
{
}

/// The handle discipline across every transition: a reference is held
/// exactly from a successful lookup until the release step, the only
/// action offered while it is held leads toward the release, and no
/// completed phase ever holds one.
pub proof fn lemma_release_before_completion(
    payload: Seq<u8>,
    lookup_phase: BoostPhase,
    outcome: LookupOutcome,
    set_phase: BoostPhase,
    release_phase: BoostPhase,
    old_priority: i32,
)
    requires
        lookup_phase is AwaitingLookup,
        set_phase is AwaitingSet,
        release_phase is AwaitingRelease,
    ensures
        !holds_handle(boost_start_spec(payload).0),
        holds_handle(boost_on_lookup_spec(lookup_phase, outcome).0) <==> outcome is Found,
        holds_handle(boost_on_set_spec(set_phase, old_priority).0),
        boost_on_set_spec(set_phase, old_priority).1 is ReleaseThreadHandle,
        !holds_handle(boost_on_release_spec(release_phase).0),
        boost_on_release_spec(release_phase).0 is Completed,
{
}

} // verus!
