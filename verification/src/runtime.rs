//! Runtime orchestration.
//!
//! What the hook's observation callback and the attach-time entrypoint
//! decide, over the trigger state, the hook slot and the snapshot passes. The
//! collaborator around the library performs the raw parts — calling the
//! original function through the trampoline, writing the planned files —
//! and reports the outcome back for recording.

use vstd::prelude::*;

use crate::dump::{dump, plan_for, DumpPlan};
use crate::gate::{spec_decide, spec_dump_root, Decision, Gate};
use crate::hook::{spec_enable, spec_install, Hook, InstallError};
use crate::offsets::{ModuleImage, Offsets};
use crate::world::{ScheduleSnapshot, WorldSnapshot};

verus! {

/// Evaluates one observed call of the hooked scheduler-run function, after
/// the original has run: decides both trigger policies, and renders the
/// dump plan when either fired. Recording a successful delayed dump is the
/// caller's part, by recording the outcome, once the writes are done.
pub fn observe_schedule_run(
    gate: &Gate,
    world: &WorldSnapshot,
    schedule: &ScheduleSnapshot,
    now_ms: i64,
) -> (r: (Decision, Option<DumpPlan>))
    ensures
        r.0 == spec_decide(*gate, world.id, schedule.label@, now_ms),
        (r.0.startup || r.0.delayed) == (r.1 is Some),
        r.1 matches Some(p) ==> plan_for(
            p,
            spec_dump_root(*gate),
            *world,
            *schedule,
            schedule.label@,
        ),
{
    let decision = gate.decide(world.id, schedule.label.as_str(), now_ms);
    if decision.startup || decision.delayed {
        let root = gate.dump_root();
        let plan = dump(root.as_str(), world, schedule, schedule.label.as_str());
        (decision, Some(plan))
    } else {
        (decision, None)
    }
}

/// The attach-time entrypoint: arms the trigger state with the configured delay,
/// then installs and enables the hook at the live address of the resolved
/// offset. A hook that was already installed is refused and left exactly
/// as it was; failure here leaves the instrumentation inert.
pub fn operate(
    gate: &mut Gate,
    hook: &mut Hook,
    image: &ModuleImage,
    offsets: &Offsets,
    delay_ms: i64,
) -> (r: Result<(), InstallError>)
    requires
        image.base + offsets.run_schedule <= u64::MAX,
    ensures
        final(gate).armed matches Some(a) && a.delay_ms == delay_ms,
        final(gate).ran == old(gate).ran,
        r is Ok <==> old(hook).record is None,
        r is Ok ==> *final(hook) == spec_enable(
            spec_install(*old(hook), (image.base + offsets.run_schedule) as u64).0,
        ).0,
        r is Err ==> *final(hook) == *old(hook),
{
    gate.arm(delay_ms);
    match hook.install(image, offsets.run_schedule) {
        Ok(()) => {},
        Err(e) => {
            return Err(e);
        },
    }
    match hook.enable() {
        Ok(()) => {},
        Err(e) => {
            return Err(e);
        },
    }
    Ok(())
}

} // verus!
