use vstd::pervasive::unreached;
use vstd::prelude::*;

verus! {

/// Where a driver instance stands between nothing and a published
/// device. The phases order the two external steps — creating the
/// device object and publishing its user-visible alias — and their
/// strict reverse on teardown, so that the alias can never outlive
/// the object it names.
#[derive(Clone, Copy, PartialEq, Eq, Debug)]
pub enum LifecyclePhase {
    /// Nothing exists yet.
    Idle,
    /// The device-object creation has been issued.
    CreatingDevice,
    /// The device object exists; alias publication has been issued.
    PublishingAlias,
    /// Device object and alias both exist: the driver serves requests.
    Operational,
    /// Publication failed; the device object is being destroyed so
    /// that nothing is left half-published. The field is the status
    /// to report once the rollback is done.
    RollingBack { status: u32 },
    /// Terminal failure: nothing is left behind, and this status is
    /// reported to the loader.
    FailedClean { status: u32 },
    /// Teardown has begun: the alias revocation has been issued while
    /// both still exist.
    RevokingAlias,
    /// The alias is gone; destruction of the device object has been
    /// issued.
    DestroyingDevice,
    /// Terminal: the driver is unloaded and nothing is left behind.
    Stopped,
}

/// What the runner must ask the platform to do next.
#[derive(Clone, Copy, PartialEq, Eq, Debug)]
pub enum LifecycleAction {
    CreateDevice,
    PublishAlias,
    RevokeAlias,
    DestroyDevice,
    /// Report the phase's status to the loader; nothing further runs.
    Report,
}

/// How a platform step ended: success, or the platform's own failure
/// status.
#[derive(Clone, Copy, PartialEq, Eq, Debug)]
pub enum StepOutcome {
    Done,
    Failed { status: u32 },
}

/// Whether the device object exists in this phase.
pub open spec fn device_exists(phase: LifecyclePhase) -> bool {
    match phase {
        LifecyclePhase::Idle => false,
        LifecyclePhase::CreatingDevice => false,
        LifecyclePhase::PublishingAlias => true,
        LifecyclePhase::Operational => true,
        LifecyclePhase::RollingBack { .. } => true,
        LifecyclePhase::FailedClean { .. } => false,
        LifecyclePhase::RevokingAlias => true,
        LifecyclePhase::DestroyingDevice => true,
        LifecyclePhase::Stopped => false,
    }
}

/// Whether the user-visible alias exists in this phase.
pub open spec fn alias_visible(phase: LifecyclePhase) -> bool {
    match phase {
        LifecyclePhase::Operational => true,
        LifecyclePhase::RevokingAlias => true,
        _ => false,
    }
}

/// A phase is settled when no platform step is pending on it.
pub open spec fn is_terminal(phase: LifecyclePhase) -> bool {
    phase is Operational || phase is FailedClean || phase is Stopped
}

/// The alias is visible only while the device object it names exists,
/// in every phase the machine can ever be in: creation and publication
/// are not independently observable.
pub proof fn lemma_alias_never_dangles(phase: LifecyclePhase)
    ensures
        alias_visible(phase) ==> device_exists(phase),
        phase is FailedClean ==> !device_exists(phase) && !alias_visible(phase),
        phase is Stopped ==> !device_exists(phase) && !alias_visible(phase),
{
}

/// Startup begins by asking the platform for the device object.
pub fn begin_setup() -> (r: (LifecyclePhase, LifecycleAction))
    ensures
        r.0 is CreatingDevice,
        r.1 is CreateDevice,
{
    (LifecyclePhase::CreatingDevice, LifecycleAction::CreateDevice)
}

/// Folds in the device-creation outcome. Failure is terminal at once:
/// nothing was created, so nothing is rolled back. Success moves on to
/// publishing the alias — in that order, never the reverse.
pub fn on_device_created(phase: LifecyclePhase, outcome: StepOutcome) -> (r: (
    LifecyclePhase,
    LifecycleAction,
))
    requires
        phase is CreatingDevice,
    ensures
        outcome is Done ==> r.0 is PublishingAlias && r.1 is PublishAlias,
        outcome matches StepOutcome::Failed { status } ==> r.0 == (LifecyclePhase::FailedClean {
            status,
        }) && r.1 is Report,
        alias_visible(r.0) ==> device_exists(r.0),
{
    match outcome {
        StepOutcome::Done => (LifecyclePhase::PublishingAlias, LifecycleAction::PublishAlias),
        StepOutcome::Failed { status } => (
            LifecyclePhase::FailedClean { status },
            LifecycleAction::Report,
        ),
    }
}

/// Folds in the alias-publication outcome. Success makes the driver
/// operational. Failure starts the transactional rollback: the device
/// object just created must be destroyed before the failure is
/// reported, so that no half-published device remains.
pub fn on_alias_published(phase: LifecyclePhase, outcome: StepOutcome) -> (r: (
    LifecyclePhase,
    LifecycleAction,
))
    requires
        phase is PublishingAlias,
    ensures
        outcome is Done ==> r.0 is Operational && r.1 is Report,
        outcome matches StepOutcome::Failed { status } ==> r.0 == (LifecyclePhase::RollingBack {
            status,
        }) && r.1 is DestroyDevice,
        alias_visible(r.0) ==> device_exists(r.0),
{
    match outcome {
        StepOutcome::Done => (LifecyclePhase::Operational, LifecycleAction::Report),
        StepOutcome::Failed { status } => (
            LifecyclePhase::RollingBack { status },
            LifecycleAction::DestroyDevice,
        ),
    }
}

/// The rollback's destroy step has run: the failure recorded when
/// publication failed is now reported, with nothing left behind.
pub fn on_rollback_done(phase: LifecyclePhase) -> (r: (LifecyclePhase, LifecycleAction))
    requires
        phase is RollingBack,
    ensures
        r.0 == (LifecyclePhase::FailedClean { status: phase->RollingBack_status }),
        r.1 is Report,
        !device_exists(r.0) && !alias_visible(r.0),
{
    match phase {
        LifecyclePhase::RollingBack { status } => (
            LifecyclePhase::FailedClean { status },
            LifecycleAction::Report,
        ),
        _ => unreached(),
    }
}

/// Teardown starts from an operational driver by revoking the alias
/// first — the reverse of the setup order — so no caller can reach a
/// device object that is about to go away.
pub fn begin_teardown(phase: LifecyclePhase) -> (r: (LifecyclePhase, LifecycleAction))
    requires
        phase is Operational,
    ensures
        r.0 is RevokingAlias,
        r.1 is RevokeAlias,
        device_exists(r.0),
{
    (LifecyclePhase::RevokingAlias, LifecycleAction::RevokeAlias)
}

/// The alias is gone; only now is the device object destroyed.
pub fn on_alias_revoked(phase: LifecyclePhase) -> (r: (LifecyclePhase, LifecycleAction))
    requires
        phase is RevokingAlias,
    ensures
        r.0 is DestroyingDevice,
        r.1 is DestroyDevice,
        !alias_visible(r.0),
{
    (LifecyclePhase::DestroyingDevice, LifecycleAction::DestroyDevice)
}

/// The device object is gone: the driver is fully unloaded.
pub fn on_device_destroyed(phase: LifecyclePhase) -> (r: (LifecyclePhase, LifecycleAction))
    requires
        phase is DestroyingDevice,
    ensures
        r.0 is Stopped,
        r.1 is Report,
        !device_exists(r.0) && !alias_visible(r.0),
{
    (LifecyclePhase::Stopped, LifecycleAction::Report)
}

/// The startup transaction as a whole: whatever the two outcomes, it
/// ends either fully operational — object and alias both present — or
/// failed with neither left behind. No interleaving of outcomes leaves
/// the pair inconsistent.
pub proof fn lemma_setup_all_or_nothing(create: StepOutcome, publish: StepOutcome)
    ensures
        ({
            let first = if create is Done {
                LifecyclePhase::PublishingAlias
            } else {
                LifecyclePhase::FailedClean { status: create->Failed_status }
            };
            let second = if first is PublishingAlias {
                if publish is Done {
                    LifecyclePhase::Operational
                } else {
                    LifecyclePhase::FailedClean { status: publish->Failed_status }
                }
            } else {
                first
            };
            &&& is_terminal(second)
            &&& second is Operational ==> device_exists(second) && alias_visible(second)
            &&& second is FailedClean ==> !device_exists(second) && !alias_visible(second)
            &&& second is Operational <==> create is Done && publish is Done
        }),
{
}

} // verus!
