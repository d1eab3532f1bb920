//! What holds of deleting the machines in the end.
use crate::cleanup::{
    emergency_outcome, emergency_plan, emergency_plan_of, normal_outcome, normal_plan,
    normal_plan_of, outcome_view, shutdown_done, CleanupPlan,
};
use crate::config::ConfigView;
use crate::deployment::{banner, LogEntry};
use crate::text::{debug_list, decimal};
use vstd::prelude::*;

verus! {

/// After the signal to stop the machines are deleted at once, each of them; the log announces it
/// and names them. Without machines nothing happens.
pub proof fn law_emergency_is_announced(queue: Seq<Seq<char>>, list: Seq<char>)
    ensures
        ({
            let plan = emergency_plan_of(queue, list);
            &&& plan.wait_seconds == 0
            &&& (queue.len() == 0 ==> plan.vm_ids is None && plan.announcement.len() == 0
                && plan.order.len() == 0)
            &&& (queue.len() > 0 ==> plan.vm_ids == Some(queue) && plan.announcement == banner(
                "🚨 EMERGENCY VM CLEANUP (Ctrl+C)"@,
            ) && plan.order == seq![
                LogEntry::Info("Emergency deleting "@ + decimal(queue.len()) + " VMs: "@ + list),
            ])
            &&& emergency_plan(queue) == emergency_plan_of(queue, debug_list(queue))
        }),
{
}

/// At the end of a run that is to delete its machines, each of them is deleted, after the delay
/// that is configured; the log announces it, tells the delay if there is one and names the
/// machines. Without machines the log says so and nothing happens.
pub proof fn law_deletion_is_announced(c: ConfigView, queue: Seq<Seq<char>>, list: Seq<char>)
    requires
        c.batch_delete_enabled,
    ensures
        ({
            let plan = normal_plan_of(c, queue, list);
            let count = decimal(queue.len());
            &&& (queue.len() == 0 ==> plan.vm_ids is None && plan.wait_seconds == 0
                && plan.order.len() == 0 && plan.announcement == seq![
                LogEntry::Info("No VMs to delete"@),
            ])
            &&& (queue.len() > 0 ==> plan.vm_ids == Some(queue) && plan.wait_seconds
                == c.delete_delay_seconds && plan.order == seq![
                LogEntry::Info("Deleting "@ + count + " VMs: "@ + list),
            ])
            &&& (queue.len() > 0 && c.delete_delay_seconds == 0 ==> plan.announcement == banner(
                "VM CLEANUP"@,
            ))
            &&& (queue.len() > 0 && c.delete_delay_seconds > 0 ==> plan.announcement == banner(
                "VM CLEANUP"@,
            ).push(
                LogEntry::Info(
                    "Waiting "@ + decimal(c.delete_delay_seconds as nat)
                        + " seconds before deleting "@ + count + " VMs..."@,
                ),
            ))
            &&& normal_plan(c, queue) == normal_plan_of(c, queue, debug_list(queue))
        }),
{
}

/// At the end of a run that is to keep its machines, none is deleted, and the log tells how many
/// keep running, if any do.
pub proof fn law_machines_are_kept(c: ConfigView, queue: Seq<Seq<char>>, list: Seq<char>)
    requires
        !c.batch_delete_enabled,
    ensures
        ({
            let plan = normal_plan_of(c, queue, list);
            &&& plan.vm_ids is None && plan.wait_seconds == 0 && plan.order.len() == 0
            &&& (queue.len() == 0 ==> plan.announcement.len() == 0)
            &&& (queue.len() > 0 ==> plan.announcement == seq![
                LogEntry::Info(
                    "Batch deletion disabled. "@ + decimal(queue.len())
                        + " VMs left running (will continue charging)"@,
                ),
            ])
            &&& normal_plan(c, queue) == normal_plan_of(c, queue, debug_list(queue))
        }),
{
}

/// What came of deleting machines is told: how many were deleted and how long it took, or why it
/// failed; and after the signal to stop, how many may still be running.
pub proof fn law_deletion_is_told(count: nat, reason: Seq<char>, took: Seq<char>)
    ensures
        normal_outcome(count, Ok(()), took) == seq![
            LogEntry::Success(
                "Successfully deleted "@ + decimal(count) + " VMs in "@ + took + "s"@,
            ),
        ],
        normal_outcome(count, Err(reason), took) == seq![
            LogEntry::Error("Failed to delete VMs: "@ + reason),
        ],
        emergency_outcome(count, Ok(()), took) == seq![
            LogEntry::Success(
                "✅ Emergency deleted "@ + decimal(count) + " VMs in "@ + took + "s"@,
            ),
        ],
        emergency_outcome(count, Err(reason), took) == seq![
            LogEntry::Error("❌ Failed emergency VM deletion: "@ + reason),
            LogEntry::Error(
                "⚠️  WARNING: "@ + decimal(count) + " VMs may still be running and charging!"@,
            ),
        ],
        shutdown_done() == LogEntry::Info("🛑 Graceful shutdown completed"@),
{
}

/// A plan, and what came of it, are seen as they were made.
pub proof fn law_plan_is_seen_whole(plan: CleanupPlan, outcome: Result<(), String>)
    ensures
        plan.deep_view().announcement == plan.announcement.deep_view(),
        plan.deep_view().wait_seconds == plan.wait_seconds,
        plan.deep_view().order == plan.order.deep_view(),
        plan.deep_view().vm_ids is Some <==> plan.vm_ids is Some,
        plan.vm_ids is Some ==> plan.deep_view().vm_ids->0 == plan.vm_ids->0.deep_view(),
        outcome_view(outcome) is Ok <==> outcome is Ok,
        outcome is Err ==> outcome_view(outcome)->Err_0 == (outcome->Err_0)@,
{
}

} // verus!
