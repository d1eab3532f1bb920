//! Deleting the machines of a run in the end.
use crate::client::{delete_body, VmResponseView};
use crate::clock::{seconds_text, seconds_written, span_nanos};
use crate::config::{Config, ConfigView};
use crate::deployment::{add_banner, banner, no_logs, note, LogEntry, LogMessage};
use crate::json::{field, Json};
use crate::text::{copy_texts, debug_list, decimal, decimal_text, format_list};
use crate::worker::new_ids;
use std::time::Duration;
use vstd::prelude::*;

verus! {

/// What to do with the machines of a run.
#[derive(Debug)]
pub struct CleanupPlan {
    /// What is logged first.
    pub announcement: Vec<LogMessage>,
    /// How long to wait then.
    pub wait_seconds: u64,
    /// What is logged after that, right before the machines are deleted.
    pub order: Vec<LogMessage>,
    /// The machines to delete, if any.
    pub vm_ids: Option<Vec<String>>,
}

pub struct CleanupPlanView {
    pub announcement: Seq<LogEntry>,
    pub wait_seconds: u64,
    pub order: Seq<LogEntry>,
    pub vm_ids: Option<Seq<Seq<char>>>,
}

impl DeepView for CleanupPlan {
    type V = CleanupPlanView;

    open spec fn deep_view(&self) -> CleanupPlanView {
        CleanupPlanView {
            announcement: self.announcement.deep_view(),
            wait_seconds: self.wait_seconds,
            order: self.order.deep_view(),
            vm_ids: self.vm_ids.deep_view(),
        }
    }
}

/// Nothing is deleted.
pub open spec fn nothing_to_delete(announcement: Seq<LogEntry>) -> CleanupPlanView {
    CleanupPlanView { announcement, wait_seconds: 0, order: Seq::empty(), vm_ids: None }
}

/// After the signal to stop, the machines are deleted at once. `list` is the list of machines as
/// it is written.
pub open spec fn emergency_plan_of(queue: Seq<Seq<char>>, list: Seq<char>) -> CleanupPlanView {
    if queue.len() == 0 {
        nothing_to_delete(Seq::empty())
    } else {
        CleanupPlanView {
            announcement: banner("🚨 EMERGENCY VM CLEANUP (Ctrl+C)"@),
            wait_seconds: 0,
            order: seq![
                LogEntry::Info(
                    "Emergency deleting "@ + decimal(queue.len()) + " VMs: "@ + list,
                ),
            ],
            vm_ids: Some(queue),
        }
    }
}

/// After the signal to stop, the machines are deleted at once.
pub open spec fn emergency_plan(queue: Seq<Seq<char>>) -> CleanupPlanView {
    emergency_plan_of(queue, debug_list(queue))
}

/// At the end of a run, the machines are deleted if that is configured. `list` is the list of
/// machines as it is written.
pub open spec fn normal_plan_of(
    config: ConfigView,
    queue: Seq<Seq<char>>,
    list: Seq<char>,
) -> CleanupPlanView {
    if !config.batch_delete_enabled {
        if queue.len() > 0 {
            nothing_to_delete(
                seq![
                    LogEntry::Info(
                        "Batch deletion disabled. "@ + decimal(queue.len())
                            + " VMs left running (will continue charging)"@,
                    ),
                ],
            )
        } else {
            nothing_to_delete(Seq::empty())
        }
    } else if queue.len() == 0 {
        nothing_to_delete(seq![LogEntry::Info("No VMs to delete"@)])
    } else {
        CleanupPlanView {
            announcement: if config.delete_delay_seconds > 0 {
                banner("VM CLEANUP"@).push(
                    LogEntry::Info(
                        "Waiting "@ + decimal(config.delete_delay_seconds as nat)
                            + " seconds before deleting "@ + decimal(queue.len()) + " VMs..."@,
                    ),
                )
            } else {
                banner("VM CLEANUP"@)
            },
            wait_seconds: config.delete_delay_seconds,
            order: seq![LogEntry::Info("Deleting "@ + decimal(queue.len()) + " VMs: "@ + list)],
            vm_ids: Some(queue),
        }
    }
}

/// At the end of a run, the machines are deleted if that is configured.
pub open spec fn normal_plan(config: ConfigView, queue: Seq<Seq<char>>) -> CleanupPlanView {
    normal_plan_of(config, queue, debug_list(queue))
}

/// What is logged once `count` machines were deleted after the signal to stop, or could not be.
/// `took` is how long it took in seconds, as it is written.
pub open spec fn emergency_outcome(
    count: nat,
    outcome: Result<(), Seq<char>>,
    took: Seq<char>,
) -> Seq<LogEntry> {
    match outcome {
        Ok(_) => seq![
            LogEntry::Success(
                "✅ Emergency deleted "@ + decimal(count) + " VMs in "@ + took + "s"@,
            ),
        ],
        Err(e) => seq![
            LogEntry::Error("❌ Failed emergency VM deletion: "@ + e),
            LogEntry::Error(
                "⚠️  WARNING: "@ + decimal(count) + " VMs may still be running and charging!"@,
            ),
        ],
    }
}

/// What is logged once `count` machines were deleted, or could not be.
/// `took` is how long it took in seconds, as it is written.
pub open spec fn normal_outcome(
    count: nat,
    outcome: Result<(), Seq<char>>,
    took: Seq<char>,
) -> Seq<LogEntry> {
    match outcome {
        Ok(_) => seq![
            LogEntry::Success(
                "Successfully deleted "@ + decimal(count) + " VMs in "@ + took + "s"@,
            ),
        ],
        Err(e) => seq![LogEntry::Error("Failed to delete VMs: "@ + e)],
    }
}

/// The texts of the outcome of a deletion.
pub open spec fn outcome_view(outcome: Result<(), String>) -> Result<(), Seq<char>> {
    match outcome {
        Ok(_) => Ok(()),
        Err(e) => Err(e@),
    }
}

/// The end of a run that was stopped.
pub open spec fn shutdown_done() -> LogEntry {
    LogEntry::Info("🛑 Graceful shutdown completed"@)
}

/// A plan that deletes nothing.
fn delete_nothing(announcement: Vec<LogMessage>) -> (plan: CleanupPlan)
    ensures
        plan.deep_view() == nothing_to_delete(announcement.deep_view()),
{
    CleanupPlan { announcement, wait_seconds: 0, order: no_logs(), vm_ids: None }
}

/// What to do with the machines of a run after the signal to stop.
pub fn emergency_cleanup(queue: &Vec<String>) -> (plan: CleanupPlan)
    ensures
        plan.deep_view() == emergency_plan(queue.deep_view()),
{
    emergency_cleanup_of(queue, format_list(queue).as_str())
}

/// What to do with the machines of a run after the signal to stop. `list` is the list of machines
/// as it is written.
pub fn emergency_cleanup_of(queue: &Vec<String>, list: &str) -> (plan: CleanupPlan)
    ensures
        plan.deep_view() == emergency_plan_of(queue.deep_view(), list@),
{
    let mut announcement: Vec<LogMessage> = no_logs();
    if queue.len() == 0 {
        return delete_nothing(announcement);
    }
    let mut order: Vec<LogMessage> = no_logs();
    add_banner(&mut announcement, "🚨 EMERGENCY VM CLEANUP (Ctrl+C)");
    note(
        &mut order,
        LogMessage::Info(
            "Emergency deleting ".to_string().concat(
                decimal_text(queue.len() as u64).as_str(),
            ).concat(" VMs: ").concat(list),
        ),
    );
    let ghost want = emergency_plan_of(queue.deep_view(), list@);
    let plan: CleanupPlan = CleanupPlan {
        announcement,
        wait_seconds: 0,
        order,
        vm_ids: Some(copy_texts(queue)),
    };
    assert(plan.deep_view().announcement =~= want.announcement);
    assert(plan.deep_view().order =~= want.order);
    plan
}

/// What to log once `count` machines were deleted after the signal to stop, or could not be.
/// `took` is how long it took in seconds, as it is written.
pub fn emergency_messages(count: usize, outcome: &Result<(), String>, took: &str) -> (logs: Vec<
    LogMessage,
>)
    ensures
        logs.deep_view() == emergency_outcome(count as nat, outcome_view(*outcome), took@),
{
    let mut logs: Vec<LogMessage> = no_logs();
    let number: String = decimal_text(count as u64);
    match outcome {
        Ok(_) => {
            note(
                &mut logs,
                LogMessage::Success(
                    "✅ Emergency deleted ".to_string().concat(number.as_str()).concat(
                        " VMs in ",
                    ).concat(took).concat("s"),
                ),
            );
        },
        Err(e) => {
            note(
                &mut logs,
                LogMessage::Error(
                    "❌ Failed emergency VM deletion: ".to_string().concat(e.as_str()),
                ),
            );
            note(
                &mut logs,
                LogMessage::Error(
                    "⚠️  WARNING: ".to_string().concat(number.as_str()).concat(
                        " VMs may still be running and charging!",
                    ),
                ),
            );
        },
    }
    logs
}

/// What to log after the machines were deleted, if there were any, on the signal to stop.
/// `deletion` is what came of it and how long it took.
pub fn emergency_cleanup_done(
    queue: &Vec<String>,
    deletion: Option<(Result<(), String>, Duration)>,
) -> (logs: Vec<LogMessage>)
    ensures
        logs.deep_view() == (match deletion {
            Some((outcome, took)) => emergency_outcome(
                queue.len() as nat,
                outcome_view(outcome),
                seconds_written(span_nanos(took), 6),
            ),
            None => Seq::empty(),
        }).push(shutdown_done()),
{
    let mut logs: Vec<LogMessage> = match deletion {
        Some((outcome, took)) => emergency_messages(
            queue.len(),
            &outcome,
            seconds_text(took, 6).as_str(),
        ),
        None => no_logs(),
    };
    note(&mut logs, LogMessage::Info("🛑 Graceful shutdown completed".to_string()));
    logs
}

/// What to do with the machines of a run that has come to its end.
pub fn normal_cleanup(config: &Config, queue: &Vec<String>) -> (plan: CleanupPlan)
    ensures
        plan.deep_view() == normal_plan(config.deep_view(), queue.deep_view()),
{
    normal_cleanup_of(config, queue, format_list(queue).as_str())
}

/// What to do with the machines of a run that has come to its end. `list` is the list of machines
/// as it is written.
pub fn normal_cleanup_of(config: &Config, queue: &Vec<String>, list: &str) -> (plan: CleanupPlan)
    ensures
        plan.deep_view() == normal_plan_of(config.deep_view(), queue.deep_view(), list@),
{
    let mut announcement: Vec<LogMessage> = no_logs();
    let count: String = decimal_text(queue.len() as u64);
    if !config.batch_delete_enabled {
        if queue.len() > 0 {
            note(
                &mut announcement,
                LogMessage::Info(
                    "Batch deletion disabled. ".to_string().concat(count.as_str()).concat(
                        " VMs left running (will continue charging)",
                    ),
                ),
            );
        }
        return delete_nothing(announcement);
    }
    if queue.len() == 0 {
        note(&mut announcement, LogMessage::Info("No VMs to delete".to_string()));
        return delete_nothing(announcement);
    }
    let mut order: Vec<LogMessage> = no_logs();
    add_banner(&mut announcement, "VM CLEANUP");
    if config.delete_delay_seconds > 0 {
        note(
            &mut announcement,
            LogMessage::Info(
                "Waiting ".to_string().concat(
                    decimal_text(config.delete_delay_seconds).as_str(),
                ).concat(" seconds before deleting ").concat(count.as_str()).concat(" VMs..."),
            ),
        );
    }
    note(
        &mut order,
        LogMessage::Info(
            "Deleting ".to_string().concat(count.as_str()).concat(" VMs: ").concat(list),
        ),
    );
    let plan: CleanupPlan = CleanupPlan {
        announcement,
        wait_seconds: config.delete_delay_seconds,
        order,
        vm_ids: Some(copy_texts(queue)),
    };
    let ghost want = normal_plan_of(config.deep_view(), queue.deep_view(), list@);
    assert(plan.deep_view().announcement =~= want.announcement);
    assert(plan.deep_view().order =~= want.order);
    plan
}

/// What to log once `count` machines were deleted at the end of a run, or could not be. `took` is
/// how long it took in seconds, as it is written.
pub fn deletion_messages(count: usize, outcome: &Result<(), String>, took: &str) -> (logs: Vec<
    LogMessage,
>)
    ensures
        logs.deep_view() == normal_outcome(count as nat, outcome_view(*outcome), took@),
{
    let mut logs: Vec<LogMessage> = no_logs();
    match outcome {
        Ok(_) => {
            note(
                &mut logs,
                LogMessage::Success(
                    "Successfully deleted ".to_string().concat(
                        decimal_text(count as u64).as_str(),
                    ).concat(" VMs in ").concat(took).concat("s"),
                ),
            );
        },
        Err(e) => {
            note(
                &mut logs,
                LogMessage::Error("Failed to delete VMs: ".to_string().concat(e.as_str())),
            );
        },
    }
    logs
}

/// What to log after `queue` was deleted, or could not be, at the end of a run. `took` is how
/// long it took.
pub fn normal_cleanup_done(queue: &Vec<String>, outcome: Result<(), String>, took: Duration) -> (
    logs: Vec<LogMessage>)
    ensures
        logs.deep_view() == normal_outcome(
            queue.len() as nat,
            outcome_view(outcome),
            seconds_written(span_nanos(took), 6),
        ),
{
    deletion_messages(queue.len(), &outcome, seconds_text(took, 6).as_str())
}

/// After the signal to stop, every machine of the run is deleted, without delay and whatever is
/// configured.
pub proof fn law_emergency_deletes_everything(queue: Seq<Seq<char>>)
    ensures
        emergency_plan(queue).wait_seconds == 0,
        queue.len() > 0 ==> emergency_plan(queue).vm_ids == Some(queue),
        queue.len() == 0 ==> emergency_plan(queue).vm_ids is None,
{
}

/// At the end of a run, either every machine is deleted, after the delay that is configured, or
/// none is; they are deleted exactly if that is configured and there are any.
pub proof fn law_cleanup_is_all_or_nothing(config: ConfigView, queue: Seq<Seq<char>>)
    ensures
        normal_plan(config, queue).vm_ids is Some <==> config.batch_delete_enabled && queue.len()
            > 0,
        normal_plan(config, queue).vm_ids is Some ==> {
            &&& normal_plan(config, queue).vm_ids == Some(queue)
            &&& normal_plan(config, queue).wait_seconds == config.delete_delay_seconds
        },
        normal_plan(config, queue).vm_ids is None ==> normal_plan(config, queue).wait_seconds == 0,
{
}

/// Machines that keep running, and costing, at the end of a run are told of: there is a message
/// exactly if something is deleted, or could have been, or deleting is configured.
pub proof fn law_machines_left_running_are_told_of(config: ConfigView, queue: Seq<Seq<char>>)
    ensures
        normal_plan(config, queue).announcement.len() > 0 <==> config.batch_delete_enabled
            || queue.len() > 0,
{
}

/// Every machine that a call brings is deleted in the end, whatever else is queued before and
/// after it: on the signal to stop always, and else if deleting is configured. The request to
/// delete names it.
pub proof fn law_created_machines_are_deleted(
    config: ConfigView,
    before: Seq<Seq<char>>,
    reply: Result<Seq<VmResponseView>, Seq<char>>,
    later: Seq<Seq<char>>,
    i: int,
)
    requires
        reply is Ok,
        0 <= i < reply->Ok_0.len(),
    ensures
        ({
            let id = reply->Ok_0[i].vm_id;
            let queue = before + new_ids(reply) + later;
            &&& queue.contains(id)
            &&& emergency_plan(queue).vm_ids == Some(queue)
            &&& config.batch_delete_enabled ==> normal_plan(config, queue).vm_ids == Some(queue)
            &&& field(delete_body(queue), "vmIds"@) matches Some(Json::Array(list))
                && list.contains(Json::Text(id))
        }),
{
    let id = reply->Ok_0[i].vm_id;
    let queue = before + new_ids(reply) + later;
    let k = before.len() + i;
    assert(queue[k] == id);
    let list = queue.map_values(|s: Seq<char>| Json::Text(s));
    assert(list[k] == Json::Text(id));
}

} // verus!
