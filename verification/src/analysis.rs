//! What came of a run: which machines were launched, and the report on it.
use crate::client::{
    name_in, place_of, position_of, VmResponse, VmResponseView, VmStatusResponse,
    VmStatusView,
};
use crate::clock::{as_nanos, seconds_text, seconds_written, span_nanos};
use crate::deployment::{
    add_banner, banner, no_logs, note, DeploymentResult, DeploymentResultView, LogEntry, LogMessage,
};
use crate::run::Approach;
use crate::text::{decimal, decimal_text, same_text, to_uppercase, uppercase};
use std::time::Duration;
use vstd::prelude::*;

verus! {

/// The outcome of all deployments, machine by machine.
#[derive(Debug)]
pub struct AnalysisResult<'a> {
    /// Id, name, approach, IP address and the time of the launch, as it is printed.
    pub launched_vms: Vec<(String, String, String, Option<String>, String)>,
    /// Id, name and approach.
    pub failed_vms: Vec<(String, String, String)>,
    pub total_requested: usize,
    pub bulk_results: Vec<&'a DeploymentResult>,
    pub decomposed_results: Vec<&'a DeploymentResult>,
}

pub struct AnalysisView {
    pub launched_vms: Seq<(Seq<char>, Seq<char>, Seq<char>, Option<Seq<char>>, Seq<char>)>,
    pub failed_vms: Seq<(Seq<char>, Seq<char>, Seq<char>)>,
    pub total_requested: nat,
    pub bulk_results: Seq<DeploymentResultView>,
    pub decomposed_results: Seq<DeploymentResultView>,
}

impl<'a> DeepView for AnalysisResult<'a> {
    type V = AnalysisView;

    open spec fn deep_view(&self) -> AnalysisView {
        AnalysisView {
            launched_vms: self.launched_vms.deep_view(),
            failed_vms: self.failed_vms.deep_view(),
            total_requested: self.total_requested as nat,
            bulk_results: self.bulk_results.deep_view(),
            decomposed_results: self.decomposed_results.deep_view(),
        }
    }
}

/// The machines that a deployment brought.
pub open spec fn machines_of(r: DeploymentResultView) -> Seq<VmResponseView> {
    match r.vm_responses {
        Some(vms) => vms,
        None => Seq::empty(),
    }
}

/// What is known of a machine that is up.
pub open spec fn status_in(r: DeploymentResultView, vm_id: Seq<char>) -> Option<VmStatusView> {
    match r.vm_statuses {
        Some(list) => match place_of(list, vm_id) {
            Some(i) => Some(list[i]),
            None => None,
        },
        None => None,
    }
}

/// How long the launch of a machine took, in nanoseconds, if that is known.
pub open spec fn launch_time(r: DeploymentResultView, vm_id: Seq<char>) -> Option<nat> {
    match r.vm_phase_timings {
        Some(table) => if table.contains_key(vm_id) {
            table[vm_id].total()
        } else {
            None
        },
        None => None,
    }
}

/// A launch time in seconds, as it is written, if it is known.
pub open spec fn time_written(time: Option<nat>) -> Option<Seq<char>> {
    match time {
        Some(nanos) => Some(seconds_written(nanos, 1)),
        None => None,
    }
}

/// A launch time for the list of machines that are up; nothing if the time is not known.
pub open spec fn total_time(seconds: Option<Seq<char>>) -> Seq<char> {
    match seconds {
        Some(text) => " - "@ + text + "s total"@,
        None => ""@,
    }
}

/// Those of a list of machines of a deployment that are up, with what is known of them.
pub open spec fn launched_among(r: DeploymentResultView, vms: Seq<VmResponseView>) -> Seq<
    (Seq<char>, Seq<char>, Seq<char>, Option<Seq<char>>, Seq<char>),
>
    decreases vms.len(),
{
    if vms.len() == 0 {
        Seq::empty()
    } else {
        let vm = vms.last();
        match status_in(r, vm.vm_id) {
            Some(s) => launched_among(r, vms.drop_last()).push(
                (
                    vm.vm_id,
                    vm.vm_name,
                    r.approach,
                    s.public_ip,
                    total_time(time_written(launch_time(r, vm.vm_id))),
                ),
            ),
            None => launched_among(r, vms.drop_last()),
        }
    }
}

/// Those of a list of machines of a deployment that are not up.
pub open spec fn failed_among(r: DeploymentResultView, vms: Seq<VmResponseView>) -> Seq<
    (Seq<char>, Seq<char>, Seq<char>),
>
    decreases vms.len(),
{
    if vms.len() == 0 {
        Seq::empty()
    } else {
        let vm = vms.last();
        match status_in(r, vm.vm_id) {
            Some(_) => failed_among(r, vms.drop_last()),
            None => failed_among(r, vms.drop_last()).push((vm.vm_id, vm.vm_name, r.approach)),
        }
    }
}

/// The machines of a list of deployments that are up.
pub open spec fn launched_in(results: Seq<DeploymentResultView>) -> Seq<
    (Seq<char>, Seq<char>, Seq<char>, Option<Seq<char>>, Seq<char>),
>
    decreases results.len(),
{
    if results.len() == 0 {
        Seq::empty()
    } else {
        let r = results.last();
        launched_in(results.drop_last()) + launched_among(r, machines_of(r))
    }
}

/// The machines of a list of deployments that are not up.
pub open spec fn failed_in(results: Seq<DeploymentResultView>) -> Seq<
    (Seq<char>, Seq<char>, Seq<char>),
>
    decreases results.len(),
{
    if results.len() == 0 {
        Seq::empty()
    } else {
        let r = results.last();
        failed_in(results.drop_last()) + failed_among(r, machines_of(r))
    }
}

/// How many machines a deployment counts for: those that it brought, or else a number that
/// depends on the approach alone.
pub open spec fn requested_by(r: DeploymentResultView) -> nat {
    match r.vm_responses {
        Some(vms) => vms.len(),
        None => if r.approach == "decomposed"@ {
            1
        } else {
            3
        },
    }
}

/// How many machines a list of deployments counts for.
pub open spec fn requested_in(results: Seq<DeploymentResultView>) -> nat
    decreases results.len(),
{
    if results.len() == 0 {
        0
    } else {
        requested_in(results.drop_last()) + requested_by(results.last())
    }
}

pub open spec fn is_bulk(r: DeploymentResultView) -> bool {
    r.approach == "bulk"@
}

/// The outcome of a list of deployments.
pub open spec fn analysis_of(results: Seq<DeploymentResultView>) -> AnalysisView {
    AnalysisView {
        launched_vms: launched_in(results),
        failed_vms: failed_in(results),
        total_requested: requested_in(results),
        bulk_results: results.filter(|r: DeploymentResultView| is_bulk(r)),
        decomposed_results: results.filter(|r: DeploymentResultView| !is_bulk(r)),
    }
}

/// What is known of a machine that is up.
fn find_status<'a>(result: &'a DeploymentResult, vm_id: &String) -> (r: Option<
    &'a VmStatusResponse,
>)
    ensures
        r.deep_view() == status_in(result.deep_view(), vm_id@),
{
    match &result.vm_statuses {
        Some(statuses) => match position_of(statuses, vm_id.as_str()) {
            Some(i) => Some(&statuses[i]),
            None => None,
        },
        None => None,
    }
}

/// A launch time in seconds, as it is written, if it is known.
fn launch_seconds(result: &DeploymentResult, vm_id: &String) -> (r: Option<String>)
    ensures
        r.deep_view() == time_written(launch_time(result.deep_view(), vm_id@)),
{
    match &result.vm_phase_timings {
        Some(table) => match table.get(vm_id) {
            Some(timings) => match timings.get_total_duration() {
                Some(d) => Some(seconds_text(d, 1)),
                None => None,
            },
            None => None,
        },
        None => None,
    }
}

/// A launch time for the list of machines that are up. `seconds` is that time as it is written.
pub fn total_time_text(seconds: &Option<String>) -> (r: String)
    ensures
        r@ == total_time(seconds.deep_view()),
{
    match seconds {
        Some(text) => " - ".to_string().concat(text.as_str()).concat("s total"),
        None => "".to_string(),
    }
}

/// Sorts the machines of a deployment into those that are up and those that are not.
fn sort_machines(
    result: &DeploymentResult,
    launched: &mut Vec<(String, String, String, Option<String>, String)>,
    failed: &mut Vec<(String, String, String)>,
)
    ensures
        final(launched).deep_view() == old(launched).deep_view() + launched_among(
            result.deep_view(),
            machines_of(result.deep_view()),
        ),
        final(failed).deep_view() == old(failed).deep_view() + failed_among(
            result.deep_view(),
            machines_of(result.deep_view()),
        ),
{
    let ghost r = result.deep_view();
    let ghost l0 = launched.deep_view();
    let ghost f0 = failed.deep_view();
    let ghost all = machines_of(r);
    assert(l0 =~= l0 + launched_among(r, all.take(0)));
    assert(f0 =~= f0 + failed_among(r, all.take(0)));
    if let Some(vms) = &result.vm_responses {
        let mut i: usize = 0;
        while i < vms.len()
            invariant
                i <= vms.len(),
                all == vms.deep_view(),
                r == result.deep_view(),
                launched.deep_view() == l0 + launched_among(r, all.take(i as int)),
                failed.deep_view() == f0 + failed_among(r, all.take(i as int)),
            decreases vms.len() - i,
        {
            let vm: &VmResponse = &vms[i];
            let ghost l1 = launched.deep_view();
            let ghost f1 = failed.deep_view();
            let ghost next = all.take(i + 1);
            assert(next.drop_last() =~= all.take(i as int));
            assert(next.last() == vm.deep_view());
            match find_status(result, &vm.vm_id) {
                Some(status) => {
                    let entry: (String, String, String, Option<String>, String) = (
                        vm.vm_id.clone(),
                        vm.vm_name.clone(),
                        result.approach.clone(),
                        status.public_ip.clone(),
                        total_time_text(&launch_seconds(result, &vm.vm_id)),
                    );
                    launched.push(entry);
                    assert(launched.deep_view() =~= l1.push(entry.deep_view()));
                    assert(launched.deep_view() =~= l0 + launched_among(r, next));
                },
                None => {
                    let entry: (String, String, String) = (
                        vm.vm_id.clone(),
                        vm.vm_name.clone(),
                        result.approach.clone(),
                    );
                    failed.push(entry);
                    assert(failed.deep_view() =~= f1.push(entry.deep_view()));
                    assert(failed.deep_view() =~= f0 + failed_among(r, next));
                },
            }
            i += 1;
        }
        assert(all.take(i as int) =~= all);
    } else {
        assert(all.take(0) =~= all);
    }
}

/// How many machines a deployment counts for.
fn requested_count(result: &DeploymentResult) -> (r: usize)
    ensures
        r == requested_by(result.deep_view()),
{
    match &result.vm_responses {
        Some(vms) => vms.len(),
        None => if same_text(&result.approach, "decomposed") {
            1
        } else {
            3
        },
    }
}

proof fn lemma_requested_rises(results: Seq<DeploymentResultView>, i: int)
    requires
        0 <= i <= results.len(),
    ensures
        requested_in(results.take(i)) <= requested_in(results),
    decreases results.len(),
{
    if i == results.len() {
        assert(results.take(i) =~= results);
    } else {
        assert(results.drop_last().take(i) =~= results.take(i));
        lemma_requested_rises(results.drop_last(), i);
    }
}

/// How many machines a list of deployments counts for.
pub fn calculate_total_requested(results: &[DeploymentResult]) -> (r: usize)
    requires
        requested_in(results.deep_view()) <= usize::MAX,
    ensures
        r == requested_in(results.deep_view()),
{
    let ghost all = results.deep_view();
    let mut total: usize = 0;
    let mut i: usize = 0;
    while i < results.len()
        invariant
            i <= results.len(),
            all == results.deep_view(),
            requested_in(all) <= usize::MAX,
            total == requested_in(all.take(i as int)),
        decreases results.len() - i,
    {
        proof {
            let next = all.take(i + 1);
            assert(next.drop_last() =~= all.take(i as int));
            assert(next.last() == results@[i as int].deep_view());
            lemma_requested_rises(all, i + 1);
        }
        total = total + requested_count(&results[i]);
        i += 1;
    }
    assert(all.take(i as int) =~= all);
    total
}

/// Which machines of a list of deployments were launched.
pub fn analyze_results(results: &[DeploymentResult]) -> (r: AnalysisResult<'_>)
    requires
        requested_in(results.deep_view()) <= usize::MAX,
    ensures
        r.deep_view() == analysis_of(results.deep_view()),
        requested_in(r.deep_view().bulk_results) <= usize::MAX,
        requested_in(r.deep_view().decomposed_results) <= usize::MAX,
{
    proof {
        law_approaches_add_up(results.deep_view());
    }
    let ghost all = results.deep_view();
    let ghost bulk = |r: DeploymentResultView| is_bulk(r);
    let ghost other = |r: DeploymentResultView| !is_bulk(r);
    let mut bulk_results: Vec<&DeploymentResult> = Vec::new();
    let mut decomposed_results: Vec<&DeploymentResult> = Vec::new();
    let mut launched_vms: Vec<(String, String, String, Option<String>, String)> = Vec::new();
    let mut failed_vms: Vec<(String, String, String)> = Vec::new();
    let mut i: usize = 0;
    proof {
        reveal(Seq::filter);
        assert(launched_vms.deep_view() =~= launched_in(all.take(0)));
        assert(failed_vms.deep_view() =~= failed_in(all.take(0)));
        assert(bulk_results.deep_view() =~= all.take(0).filter(bulk));
        assert(decomposed_results.deep_view() =~= all.take(0).filter(other));
    }
    while i < results.len()
        invariant
            i <= results.len(),
            all == results.deep_view(),
            bulk == (|r: DeploymentResultView| is_bulk(r)),
            other == (|r: DeploymentResultView| !is_bulk(r)),
            launched_vms.deep_view() == launched_in(all.take(i as int)),
            failed_vms.deep_view() == failed_in(all.take(i as int)),
            bulk_results.deep_view() == all.take(i as int).filter(bulk),
            decomposed_results.deep_view() == all.take(i as int).filter(other),
        decreases results.len() - i,
    {
        let result: &DeploymentResult = &results[i];
        let ghost b = bulk_results.deep_view();
        let ghost d = decomposed_results.deep_view();
        proof {
            reveal(Seq::filter);
            let next = all.take(i + 1);
            assert(next.drop_last() =~= all.take(i as int));
            assert(next.last() == result.deep_view());
        }
        if same_text(&result.approach, "bulk") {
            bulk_results.push(result);
            assert(bulk_results.deep_view() =~= b.push(result.deep_view()));
        } else {
            decomposed_results.push(result);
            assert(decomposed_results.deep_view() =~= d.push(result.deep_view()));
        }
        sort_machines(result, &mut launched_vms, &mut failed_vms);
        i += 1;
    }
    assert(all.take(i as int) =~= all);
    AnalysisResult {
        launched_vms,
        failed_vms,
        total_requested: calculate_total_requested(results),
        bulk_results,
        decomposed_results,
    }
}

/// The line on a deployment: how many machines it was meant to bring, brought and launched.
/// `approach` is the approach in capitals and `seconds` how long it took, as it is written.
pub open spec fn result_line(
    r: DeploymentResultView,
    approach: Seq<char>,
    seconds: Seq<char>,
) -> Seq<char> {
    let symbol = if r.success {
        "✅"@
    } else {
        "❌"@
    };
    let intended: nat = if is_bulk(r) {
        3
    } else {
        1
    };
    let launched: nat = match r.vm_statuses {
        Some(list) => list.len(),
        None => 0,
    };
    symbol + " "@ + approach + " [Thread "@ + r.thread_id + "] - "@ + seconds + "s - Intended: "@
        + decimal(intended) + " | Requested: "@ + decimal(machines_of(r).len()) + " | Launched: "@
        + decimal(launched)
}

/// A text, or another one where there is none.
pub open spec fn text_or(text: Option<Seq<char>>, other: Seq<char>) -> Seq<char> {
    match text {
        Some(s) => s,
        None => other,
    }
}

/// The line on a machine that is up. `approach` is the approach in capitals.
pub open spec fn machine_line(vm: VmResponseView, s: VmStatusView, approach: Seq<char>) -> Seq<
    char,
> {
    "✓ LAUNCHED: "@ + vm.vm_name + " ["@ + vm.vm_id + "] ("@ + approach + ") IP: "@ + text_or(
        s.public_ip,
        "No IP"@,
    ) + " Datacenter: "@ + text_or(name_in(s.datacenter), "Unknown"@)
}

/// What became of the machines of a deployment that are not up. Machines that were followed leave
/// times, though there may be none that is up.
pub open spec fn failure_status(r: DeploymentResultView) -> Seq<char> {
    if r.vm_statuses is Some || r.vm_phase_timings is Some {
        "TIMEOUT"@
    } else {
        "NO_POLLING"@
    }
}

/// The line on a machine that is not up. `approach` is the approach in capitals.
pub open spec fn failed_line(
    vm: VmResponseView,
    approach: Seq<char>,
    status: Seq<char>,
) -> Seq<char> {
    "✗ FAILED:   "@ + vm.vm_name + " ["@ + vm.vm_id + "] ("@ + approach + ") - Status: "@ + status
}

/// A launch time behind the line on a machine; nothing if the time is not known.
pub open spec fn time_behind(seconds: Option<Seq<char>>) -> Seq<char> {
    match seconds {
        Some(text) => " ("@ + text + "s)"@,
        None => ""@,
    }
}

/// The message on a machine: whether it is up and, if that is known, how long its launch took.
/// `approach` is the approach in capitals and `seconds` the time as it is written.
pub open spec fn machine_entry(
    r: DeploymentResultView,
    vm: VmResponseView,
    approach: Seq<char>,
    seconds: Option<Seq<char>>,
) -> LogEntry {
    match status_in(r, vm.vm_id) {
        Some(s) => LogEntry::Success(machine_line(vm, s, approach) + time_behind(seconds)),
        None => LogEntry::Error(failed_line(vm, approach, failure_status(r))),
    }
}

/// The messages on a list of machines of a deployment: one for each, in their order.
pub open spec fn machine_lines(r: DeploymentResultView, vms: Seq<VmResponseView>) -> Seq<LogEntry> {
    vms.map_values(
        |vm: VmResponseView|
            machine_entry(
                r,
                vm,
                uppercase(r.approach),
                time_written(launch_time(r, vm.vm_id)),
            ),
    )
}

/// The report on a deployment.
pub open spec fn result_report(r: DeploymentResultView) -> Seq<LogEntry> {
    let head = seq![
        LogEntry::Info(result_line(r, uppercase(r.approach), seconds_written(r.duration, 3))),
    ];
    let explained = if r.success {
        head
    } else {
        head.push(LogEntry::Error("   ERROR: "@ + text_or(r.error_message, "Unknown error"@)))
    };
    (explained + machine_lines(r, machines_of(r))).push(LogEntry::Info(""@))
}

/// The reports on a list of deployments.
pub open spec fn result_reports(results: Seq<DeploymentResultView>) -> Seq<LogEntry>
    decreases results.len(),
{
    if results.len() == 0 {
        Seq::empty()
    } else {
        result_reports(results.drop_last()) + result_report(results.last())
    }
}

/// The line on a deployment. `approach` is the approach in capitals and `seconds` how long it
/// took, as it is written.
pub fn result_line_text(result: &DeploymentResult, approach: &str, seconds: &str) -> (s: String)
    ensures
        s@ == result_line(result.deep_view(), approach@, seconds@),
{
    let symbol: &str = if result.success {
        "✅"
    } else {
        "❌"
    };
    let intended: u64 = if same_text(&result.approach, "bulk") {
        3
    } else {
        1
    };
    let actual: usize = match &result.vm_responses {
        Some(vms) => vms.len(),
        None => 0,
    };
    let launched: usize = match &result.vm_statuses {
        Some(list) => list.len(),
        None => 0,
    };
    symbol.to_string().concat(" ").concat(approach).concat(" [Thread ").concat(
        result.thread_id.as_str(),
    ).concat("] - ").concat(seconds).concat("s - Intended: ").concat(
        decimal_text(intended).as_str(),
    ).concat(" | Requested: ").concat(decimal_text(actual as u64).as_str()).concat(
        " | Launched: ",
    ).concat(decimal_text(launched as u64).as_str())
}

/// The line on a machine that is up. `approach` is the approach in capitals.
pub fn machine_line_text(vm: &VmResponse, status: &VmStatusResponse, approach: &str) -> (s: String)
    ensures
        s@ == machine_line(vm.deep_view(), status.deep_view(), approach@),
{
    let ip: &str = match &status.public_ip {
        Some(ip) => ip.as_str(),
        None => "No IP",
    };
    let datacenter: String = match status.datacenter_name() {
        Some(name) => name,
        None => "Unknown".to_string(),
    };
    "✓ LAUNCHED: ".to_string().concat(vm.vm_name.as_str()).concat(" [").concat(
        vm.vm_id.as_str(),
    ).concat("] (").concat(approach).concat(") IP: ").concat(ip).concat(" Datacenter: ").concat(
        datacenter.as_str(),
    )
}

/// The line on a machine that is not up. `approach` is the approach in capitals.
pub fn failed_line_text(vm: &VmResponse, approach: &str, status: &str) -> (s: String)
    ensures
        s@ == failed_line(vm.deep_view(), approach@, status@),
{
    "✗ FAILED:   ".to_string().concat(vm.vm_name.as_str()).concat(" [").concat(
        vm.vm_id.as_str(),
    ).concat("] (").concat(approach).concat(") - Status: ").concat(status)
}

/// A launch time behind the line on a machine. `seconds` is that time as it is written.
pub fn time_behind_text(seconds: &Option<String>) -> (s: String)
    ensures
        s@ == time_behind(seconds.deep_view()),
{
    match seconds {
        Some(text) => " (".to_string().concat(text.as_str()).concat("s)"),
        None => "".to_string(),
    }
}

/// The message on a machine. `approach` is the approach in capitals and `seconds` how long the
/// launch took, if that is known, as it is written.
pub fn machine_message(
    result: &DeploymentResult,
    vm: &VmResponse,
    approach: &str,
    seconds: &Option<String>,
) -> (m: LogMessage)
    ensures
        m.deep_view() == machine_entry(
            result.deep_view(),
            vm.deep_view(),
            approach@,
            seconds.deep_view(),
        ),
{
    match find_status(result, &vm.vm_id) {
        Some(status) => LogMessage::Success(
            machine_line_text(vm, status, approach).concat(time_behind_text(seconds).as_str()),
        ),
        None => {
            let followed: bool = result.vm_statuses.is_some() || result.vm_phase_timings.is_some();
            let status: &str = if followed {
                "TIMEOUT"
            } else {
                "NO_POLLING"
            };
            LogMessage::Error(failed_line_text(vm, approach, status))
        },
    }
}

/// Adds the report on a deployment.
fn report_result(logs: &mut Vec<LogMessage>, result: &DeploymentResult)
    ensures
        final(logs).deep_view() == old(logs).deep_view() + result_report(result.deep_view()),
{
    let ghost before = logs.deep_view();
    let ghost r = result.deep_view();
    let ghost all = machines_of(r);
    let approach: String = to_uppercase(result.approach.as_str());
    let took: String = seconds_text(result.duration, 3);
    note(
        logs,
        LogMessage::Info(result_line_text(result, approach.as_str(), took.as_str())),
    );
    if !result.success {
        let why: &str = match &result.error_message {
            Some(e) => e.as_str(),
            None => "Unknown error",
        };
        note(logs, LogMessage::Error("   ERROR: ".to_string().concat(why)));
    }
    let ghost head = logs.deep_view();
    let ghost lines = machine_lines(r, all);
    assert(head =~= head + lines.take(0));
    if let Some(vms) = &result.vm_responses {
        let mut i: usize = 0;
        while i < vms.len()
            invariant
                i <= vms.len(),
                all == vms.deep_view(),
                r == result.deep_view(),
                approach@ == uppercase(r.approach),
                lines == machine_lines(r, all),
                logs.deep_view() == head + lines.take(i as int),
            decreases vms.len() - i,
        {
            let vm: &VmResponse = &vms[i];
            assert(all[i as int] == vm.deep_view());
            let seconds: Option<String> = launch_seconds(result, &vm.vm_id);
            note(logs, machine_message(result, vm, approach.as_str(), &seconds));
            i += 1;
            assert(logs.deep_view() =~= head + lines.take(i as int));
        }
        assert(lines.take(i as int) =~= lines);
    } else {
        assert(lines.take(0) =~= lines);
    }
    note(logs, LogMessage::Info("".to_string()));
    assert(logs.deep_view() =~= before + result_report(r));
}

/// The report on each deployment.
pub fn log_vm_status_report(_analysis: &AnalysisResult<'_>, results: &[DeploymentResult]) -> (logs:
    Vec<LogMessage>)
    ensures
        logs.deep_view() == banner("DEPLOYMENT RESULTS"@) + result_reports(results.deep_view()),
{
    let ghost all = results.deep_view();
    let mut logs: Vec<LogMessage> = no_logs();
    add_banner(&mut logs, "DEPLOYMENT RESULTS");
    let ghost head = banner("DEPLOYMENT RESULTS"@);
    assert(logs.deep_view() =~= head + result_reports(all.take(0)));
    let mut i: usize = 0;
    while i < results.len()
        invariant
            i <= results.len(),
            all == results.deep_view(),
            logs.deep_view() == head + result_reports(all.take(i as int)),
        decreases results.len() - i,
    {
        let ghost next = all.take(i + 1);
        assert(next.drop_last() =~= all.take(i as int));
        assert(next.last() == results@[i as int].deep_view());
        report_result(&mut logs, &results[i]);
        i += 1;
        assert(logs.deep_view() =~= head + result_reports(next));
    }
    assert(all.take(i as int) =~= all);
    logs
}

/// The line of the summary on a machine that is up. `approach` is the approach in capitals.
pub open spec fn launched_line(
    vm: (Seq<char>, Seq<char>, Seq<char>, Option<Seq<char>>, Seq<char>),
    approach: Seq<char>,
) -> Seq<char> {
    "  "@ + vm.1 + " ["@ + vm.0 + "] ("@ + approach + ") - "@ + text_or(vm.3, "No IP"@)
}

/// The lines of the summary on the machines that are up.
pub open spec fn launched_lines(
    vms: Seq<(Seq<char>, Seq<char>, Seq<char>, Option<Seq<char>>, Seq<char>)>,
) -> Seq<LogEntry> {
    vms.map_values(
        |vm: (Seq<char>, Seq<char>, Seq<char>, Option<Seq<char>>, Seq<char>)|
            LogEntry::Success(launched_line(vm, uppercase(vm.2))),
    )
}

/// What to try after a failure.
pub open spec fn tips() -> Seq<LogEntry> {
    seq![
        LogEntry::Error("💡 TROUBLESHOOTING TIPS:"@),
        LogEntry::Error("   - Try removing country restrictions (remove 'datacenter' section)"@),
        LogEntry::Error("   - Increase maxPricePerEpochUsd (try 5.0 or 10.0)"@),
        LogEntry::Error("   - Use smaller VM size (cpu-1-ram-2gb-storage-25gb)"@),
        LogEntry::Error("   - Try different regions (DE, US, CA instead of PL)"@),
    ]
}

/// Whether some deployment of a list failed.
pub open spec fn some_failed(results: Seq<DeploymentResultView>) -> bool {
    exists|i: int| 0 <= i < results.len() && !(#[trigger] results[i]).success
}

/// The part of the summary on the machines that are up.
pub open spec fn launched_part(a: AnalysisView) -> Seq<LogEntry> {
    if a.launched_vms.len() == 0 {
        Seq::empty()
    } else {
        seq![LogEntry::Info(""@), LogEntry::Success("SUCCESSFUL DEPLOYMENTS:"@)] + launched_lines(
            a.launched_vms,
        )
    }
}

/// The part of the summary on what is missing.
pub open spec fn failed_part(a: AnalysisView) -> Seq<LogEntry> {
    if a.launched_vms.len() < a.total_requested {
        seq![
            LogEntry::Info(""@),
            LogEntry::Error(
                "FAILED DEPLOYMENTS: "@ + decimal(
                    (a.total_requested - a.launched_vms.len()) as nat,
                ),
            ),
        ] + (if some_failed(a.bulk_results) || some_failed(a.decomposed_results) {
            tips()
        } else {
            Seq::empty()
        })
    } else {
        Seq::empty()
    }
}

/// The summary. `rate` is the share of the machines that are up, in percent.
pub open spec fn summary(a: AnalysisView, rate: Seq<char>) -> Seq<LogEntry> {
    banner("SUMMARY"@).push(
        LogEntry::Info(
            "VMs Launched: "@ + decimal(a.launched_vms.len()) + "/"@ + decimal(a.total_requested)
                + " ("@ + rate + "% success rate)"@,
        ),
    ) + launched_part(a) + failed_part(a)
}

/// Who provides a machine that is up and where, if the API tells one of them.
pub open spec fn place_of_machine(s: VmStatusView) -> Option<(Seq<char>, Seq<char>)> {
    match (name_in(s.provider), name_in(s.provider_location)) {
        (None, None) => None,
        (provider, location) => Some(
            (text_or(provider, "Unknown"@), text_or(location, "Unknown"@)),
        ),
    }
}

/// Who provides those of a list of machines of a deployment that are up, and where.
pub open spec fn places_among(r: DeploymentResultView, vms: Seq<VmResponseView>) -> Seq<
    (Seq<char>, Seq<char>),
>
    decreases vms.len(),
{
    if vms.len() == 0 {
        Seq::empty()
    } else {
        let before = places_among(r, vms.drop_last());
        match status_in(r, vms.last().vm_id) {
            Some(s) => match place_of_machine(s) {
                Some(place) => before.push(place),
                None => before,
            },
            None => before,
        }
    }
}

/// Who provides the machines of a list of deployments that are up, and where.
pub open spec fn places_in(results: Seq<DeploymentResultView>) -> Seq<(Seq<char>, Seq<char>)>
    decreases results.len(),
{
    if results.len() == 0 {
        Seq::empty()
    } else {
        let r = results.last();
        places_in(results.drop_last()) + places_among(r, machines_of(r))
    }
}

/// How often a place stands in a list.
pub open spec fn occurrences(
    list: Seq<(Seq<char>, Seq<char>)>,
    place: (Seq<char>, Seq<char>),
) -> nat
    decreases list.len(),
{
    if list.len() == 0 {
        0
    } else {
        occurrences(list.drop_last(), place) + (if list.last() == place {
            1nat
        } else {
            0nat
        })
    }
}

/// What is logged of a provider and a location with that many machines.
pub open spec fn place_entry(place: (Seq<char>, Seq<char>), count: nat) -> LogEntry {
    LogEntry::Info(
        "    Provider: "@ + place.0 + " Location: "@ + place.1 + " - "@ + decimal(count) + " VMs"@,
    )
}

/// The distribution of machines over the first `n` places of a list, each told once.
pub open spec fn place_lines(list: Seq<(Seq<char>, Seq<char>)>, n: nat) -> Seq<LogEntry>
    decreases n,
{
    if n == 0 {
        Seq::empty()
    } else {
        let place = list[n - 1];
        let before = place_lines(list, (n - 1) as nat);
        if list.take(n - 1).contains(place) {
            before
        } else {
            before.push(place_entry(place, occurrences(list, place)))
        }
    }
}

/// How an approach did: the share of the machines that are up, in percent, and who provides them.
pub open spec fn approach_part(
    label: Seq<char>,
    results: Seq<DeploymentResultView>,
    rate: Seq<char>,
) -> Seq<LogEntry> {
    if results.len() == 0 {
        Seq::empty()
    } else {
        seq![
            LogEntry::Info(
                label + decimal(launched_in(results).len()) + "/"@ + decimal(
                    requested_in(results),
                ) + " VMs launched ("@ + rate + "% success rate)"@,
            ),
        ] + place_lines(places_in(results), places_in(results).len())
    }
}

/// How long a list of deployments took together, in nanoseconds.
pub open spec fn total_nanos(results: Seq<DeploymentResultView>) -> nat
    decreases results.len(),
{
    if results.len() == 0 {
        0
    } else {
        total_nanos(results.drop_last()) + results.last().duration
    }
}

/// The approach that took less time on average, if one did. Of two averages, the smaller one has
/// the smaller sum when each sum is taken times the number of the other.
pub open spec fn faster(a: AnalysisView) -> Option<Approach> {
    let bulk = total_nanos(a.bulk_results) * a.decomposed_results.len();
    let decomposed = total_nanos(a.decomposed_results) * a.bulk_results.len();
    if bulk < decomposed {
        Some(Approach::Bulk)
    } else if decomposed < bulk {
        Some(Approach::Decomposed)
    } else {
        None
    }
}

/// How many times faster which approach was. `factor` is that number as it is written.
pub open spec fn speedup_line(faster: Option<Approach>, factor: Seq<char>) -> Seq<char> {
    factor + (match faster {
        Some(Approach::Bulk) => "x (Bulk faster)"@,
        Some(Approach::Decomposed) => "x (Decomposed faster)"@,
        None => "x (Equal)"@,
    })
}

/// How long it all took and how the approaches compare. `total` and the averages are in seconds
/// and the rates in percent; `speedup` tells how many times faster which approach was.
pub open spec fn comparison(
    a: AnalysisView,
    total: Seq<char>,
    bulk_average: Seq<char>,
    decomposed_average: Seq<char>,
    bulk_rate: Seq<char>,
    decomposed_rate: Seq<char>,
    speedup: Seq<char>,
) -> Seq<LogEntry> {
    let both = a.bulk_results.len() > 0 && a.decomposed_results.len() > 0;
    seq![
        LogEntry::Info(""@),
        LogEntry::Info("Total deployment time: "@ + total + " seconds"@),
    ] + (if both {
        seq![
            LogEntry::Info(
                "Average time - Bulk: "@ + bulk_average + "s | Decomposed: "@ + decomposed_average
                    + "s"@,
            ),
        ]
    } else {
        Seq::empty()
    }) + seq![LogEntry::Info("PERFORMANCE COMPARISON:"@)] + approach_part(
        "  Bulk: "@,
        a.bulk_results,
        bulk_rate,
    ) + approach_part("  Decomposed: "@, a.decomposed_results, decomposed_rate) + (if both {
        seq![LogEntry::Info("  Speedup Factor: "@ + speedup)]
    } else {
        Seq::empty()
    })
}

/// Whether some deployment of a list failed.
fn any_failed(results: &Vec<&DeploymentResult>) -> (r: bool)
    ensures
        r == some_failed(results.deep_view()),
{
    let ghost all = results.deep_view();
    let mut i: usize = 0;
    while i < results.len()
        invariant
            i <= results.len(),
            all == results.deep_view(),
            forall|k: int| 0 <= k < i ==> (#[trigger] all[k]).success,
        decreases results.len() - i,
    {
        assert(all[i as int] == results@[i as int].deep_view());
        if !results[i].success {
            return true;
        }
        i += 1;
    }
    false
}

/// The line of the summary on a machine that is up. `approach` is the approach in capitals.
pub fn launched_line_text(
    vm: &(String, String, String, Option<String>, String),
    approach: &str,
) -> (s: String)
    ensures
        s@ == launched_line(vm.deep_view(), approach@),
{
    let ip: &str = match &vm.3 {
        Some(ip) => ip.as_str(),
        None => "No IP",
    };
    "  ".to_string().concat(vm.1.as_str()).concat(" [").concat(vm.0.as_str()).concat(
        "] (",
    ).concat(approach).concat(") - ").concat(ip)
}

/// Adds the part of the summary on the machines that are up.
fn add_launched(logs: &mut Vec<LogMessage>, analysis: &AnalysisResult<'_>)
    ensures
        final(logs).deep_view() == old(logs).deep_view() + launched_part(analysis.deep_view()),
{
    let ghost before = logs.deep_view();
    let ghost all = analysis.launched_vms.deep_view();
    if analysis.launched_vms.len() > 0 {
        note(logs, LogMessage::Info("".to_string()));
        note(logs, LogMessage::Success("SUCCESSFUL DEPLOYMENTS:".to_string()));
        let ghost head = logs.deep_view();
        let ghost lines = launched_lines(all);
        assert(head =~= head + lines.take(0));
        let mut i: usize = 0;
        while i < analysis.launched_vms.len()
            invariant
                i <= analysis.launched_vms.len(),
                all == analysis.launched_vms.deep_view(),
                lines == launched_lines(all),
                logs.deep_view() == head + lines.take(i as int),
            decreases analysis.launched_vms.len() - i,
        {
            let vm: &(String, String, String, Option<String>, String) = &analysis.launched_vms[i];
            assert(all[i as int] == vm.deep_view());
            let approach: String = to_uppercase(vm.2.as_str());
            note(logs, LogMessage::Success(launched_line_text(vm, approach.as_str())));
            i += 1;
            assert(logs.deep_view() =~= head + lines.take(i as int));
        }
        assert(lines.take(i as int) =~= lines);
    }
    assert(logs.deep_view() =~= before + launched_part(analysis.deep_view()));
}

/// Adds the part of the summary on what is missing.
fn add_failed(logs: &mut Vec<LogMessage>, analysis: &AnalysisResult<'_>)
    ensures
        final(logs).deep_view() == old(logs).deep_view() + failed_part(analysis.deep_view()),
{
    let ghost before = logs.deep_view();
    if analysis.launched_vms.len() < analysis.total_requested {
        let missing: usize = analysis.total_requested - analysis.launched_vms.len();
        note(logs, LogMessage::Info("".to_string()));
        note(
            logs,
            LogMessage::Error(
                "FAILED DEPLOYMENTS: ".to_string().concat(decimal_text(missing as u64).as_str()),
            ),
        );
        if any_failed(&analysis.bulk_results) || any_failed(&analysis.decomposed_results) {
            note(logs, LogMessage::Error("💡 TROUBLESHOOTING TIPS:".to_string()));
            note(
                logs,
                LogMessage::Error(
                    "   - Try removing country restrictions (remove 'datacenter' section)".to_string(),
                ),
            );
            note(
                logs,
                LogMessage::Error(
                    "   - Increase maxPricePerEpochUsd (try 5.0 or 10.0)".to_string(),
                ),
            );
            note(
                logs,
                LogMessage::Error(
                    "   - Use smaller VM size (cpu-1-ram-2gb-storage-25gb)".to_string(),
                ),
            );
            note(
                logs,
                LogMessage::Error(
                    "   - Try different regions (DE, US, CA instead of PL)".to_string(),
                ),
            );
        }
    }
    assert(logs.deep_view() =~= before + failed_part(analysis.deep_view()));
}

/// The summary. `rate` is the share of the machines that are up, in percent.
pub fn log_summary(analysis: &AnalysisResult<'_>, _results: &[DeploymentResult], rate: &str) -> (
    logs: Vec<LogMessage>)
    ensures
        logs.deep_view() == summary(analysis.deep_view(), rate@),
{
    let mut logs: Vec<LogMessage> = no_logs();
    add_banner(&mut logs, "SUMMARY");
    note(
        &mut logs,
        LogMessage::Info(
            "VMs Launched: ".to_string().concat(
                decimal_text(analysis.launched_vms.len() as u64).as_str(),
            ).concat("/").concat(decimal_text(analysis.total_requested as u64).as_str()).concat(
                " (",
            ).concat(rate).concat("% success rate)"),
        ),
    );
    add_launched(&mut logs, analysis);
    add_failed(&mut logs, analysis);
    assert(logs.deep_view() =~= summary(analysis.deep_view(), rate@));
    logs
}

/// Nothing more is said of each approach: the report on each deployment has it all.
pub fn log_approach_results(_analysis: &AnalysisResult<'_>) -> (logs: Vec<LogMessage>)
    ensures
        logs.deep_view() == Seq::<LogEntry>::empty(),
{
    no_logs()
}

proof fn lemma_launched_few(results: Seq<DeploymentResultView>, i: int)
    requires
        0 <= i <= results.len(),
    ensures
        launched_in(results.take(i)).len() <= requested_in(results),
{
    law_every_machine_is_sorted(results.take(i));
    lemma_requested_rises(results, i);
}

/// How many machines of a list of deployments are up.
pub fn launched_count(results: &Vec<&DeploymentResult>) -> (n: usize)
    requires
        requested_in(results.deep_view()) <= usize::MAX,
    ensures
        n == launched_in(results.deep_view()).len(),
{
    let ghost all = results.deep_view();
    let mut n: usize = 0;
    let mut i: usize = 0;
    while i < results.len()
        invariant
            i <= results.len(),
            all == results.deep_view(),
            requested_in(all) <= usize::MAX,
            n == launched_in(all.take(i as int)).len(),
        decreases results.len() - i,
    {
        let result: &DeploymentResult = results[i];
        let ghost next = all.take(i + 1);
        proof {
            assert(next.drop_last() =~= all.take(i as int));
            assert(next.last() == result.deep_view());
            lemma_launched_few(all, i + 1);
        }
        n = n + launched_of_result(result);
        i += 1;
    }
    assert(all.take(i as int) =~= all);
    n
}

/// How many machines of a deployment are up.
fn launched_of_result(result: &DeploymentResult) -> (n: usize)
    ensures
        n == launched_among(result.deep_view(), machines_of(result.deep_view())).len(),
{
    let ghost r = result.deep_view();
    let ghost all = machines_of(r);
    let mut n: usize = 0;
    if let Some(vms) = &result.vm_responses {
        let mut i: usize = 0;
        assert(launched_among(r, all.take(0)).len() == 0);
        while i < vms.len()
            invariant
                n <= i <= vms.len(),
                r == result.deep_view(),
                all == vms.deep_view(),
                n == launched_among(r, all.take(i as int)).len(),
            decreases vms.len() - i,
        {
            let ghost next = all.take(i + 1);
            assert(next.drop_last() =~= all.take(i as int));
            assert(next.last() == vms@[i as int].deep_view());
            if find_status(result, &vms[i].vm_id).is_some() {
                n += 1;
            }
            i += 1;
        }
        assert(all.take(i as int) =~= all);
    }
    n
}

/// How many machines a list of deployments counts for.
pub fn requested_total(results: &Vec<&DeploymentResult>) -> (n: usize)
    requires
        requested_in(results.deep_view()) <= usize::MAX,
    ensures
        n == requested_in(results.deep_view()),
{
    let ghost all = results.deep_view();
    let mut n: usize = 0;
    let mut i: usize = 0;
    while i < results.len()
        invariant
            i <= results.len(),
            all == results.deep_view(),
            requested_in(all) <= usize::MAX,
            n == requested_in(all.take(i as int)),
        decreases results.len() - i,
    {
        let result: &DeploymentResult = results[i];
        proof {
            let next = all.take(i + 1);
            assert(next.drop_last() =~= all.take(i as int));
            assert(next.last() == result.deep_view());
            lemma_requested_rises(all, i + 1);
        }
        n = n + requested_count(result);
        i += 1;
    }
    assert(all.take(i as int) =~= all);
    n
}

proof fn lemma_total_rises(results: Seq<DeploymentResultView>, i: int)
    requires
        0 <= i <= results.len(),
    ensures
        total_nanos(results.take(i)) <= total_nanos(results),
    decreases results.len(),
{
    if i == results.len() {
        assert(results.take(i) =~= results);
    } else {
        assert(results.drop_last().take(i) =~= results.take(i));
        lemma_total_rises(results.drop_last(), i);
    }
}

/// How long a list of deployments took together, in nanoseconds.
fn sum_nanos(results: &Vec<&DeploymentResult>) -> (sum: u128)
    requires
        total_nanos(results.deep_view()) <= u128::MAX,
    ensures
        sum == total_nanos(results.deep_view()),
{
    let ghost all = results.deep_view();
    let mut sum: u128 = 0;
    let mut i: usize = 0;
    while i < results.len()
        invariant
            i <= results.len(),
            all == results.deep_view(),
            total_nanos(all) <= u128::MAX,
            sum == total_nanos(all.take(i as int)),
        decreases results.len() - i,
    {
        let result: &DeploymentResult = results[i];
        proof {
            let next = all.take(i + 1);
            assert(next.drop_last() =~= all.take(i as int));
            assert(next.last() == result.deep_view());
            lemma_total_rises(all, i + 1);
        }
        sum = sum + as_nanos(result.duration);
        i += 1;
    }
    assert(all.take(i as int) =~= all);
    sum
}

/// The product of two numbers, as how often 2^64 goes into it and what is left.
fn product(a: u128, n: u64) -> (r: (u128, u64))
    ensures
        r.0 * 0x1_0000_0000_0000_0000 + r.1 == a * n,
{
    let high: u128 = a / 0x1_0000_0000_0000_0000;
    let low: u128 = a % 0x1_0000_0000_0000_0000;
    let m: u128 = n as u128;
    assert(high * m <= 0xffff_ffff_ffff_ffff * 0xffff_ffff_ffff_ffff) by (nonlinear_arith)
        requires
            high <= 0xffff_ffff_ffff_ffff,
            m <= 0xffff_ffff_ffff_ffff,
    ;
    assert(low * m <= 0xffff_ffff_ffff_ffff * 0xffff_ffff_ffff_ffff) by (nonlinear_arith)
        requires
            low <= 0xffff_ffff_ffff_ffff,
            m <= 0xffff_ffff_ffff_ffff,
    ;
    assert(a * m == (high * m) * 0x1_0000_0000_0000_0000 + low * m) by (nonlinear_arith)
        requires
            a == high * 0x1_0000_0000_0000_0000 + low,
    ;
    let rest: u128 = low * m;
    (high * m + rest / 0x1_0000_0000_0000_0000, (rest % 0x1_0000_0000_0000_0000) as u64)
}

/// The approach that took less time on average, if one did.
pub fn faster_approach(analysis: &AnalysisResult<'_>) -> (r: Option<Approach>)
    requires
        total_nanos(analysis.deep_view().bulk_results) <= u128::MAX,
        total_nanos(analysis.deep_view().decomposed_results) <= u128::MAX,
    ensures
        r == faster(analysis.deep_view()),
{
    let bulk: (u128, u64) = product(
        sum_nanos(&analysis.bulk_results),
        analysis.decomposed_results.len() as u64,
    );
    let decomposed: (u128, u64) = product(
        sum_nanos(&analysis.decomposed_results),
        analysis.bulk_results.len() as u64,
    );
    if bulk.0 < decomposed.0 || (bulk.0 == decomposed.0 && bulk.1 < decomposed.1) {
        Some(Approach::Bulk)
    } else if bulk.0 == decomposed.0 && bulk.1 == decomposed.1 {
        None
    } else {
        Some(Approach::Decomposed)
    }
}

/// How many times faster which approach was. `factor` is that number as it is written.
pub fn speedup_text(faster: Option<Approach>, factor: &str) -> (s: String)
    ensures
        s@ == speedup_line(faster, factor@),
{
    let which: &str = match faster {
        Some(Approach::Bulk) => "x (Bulk faster)",
        Some(Approach::Decomposed) => "x (Decomposed faster)",
        None => "x (Equal)",
    };
    factor.to_string().concat(which)
}

/// Who provides a machine that is up and where, if the API tells one of them.
fn read_place(status: &VmStatusResponse) -> (r: Option<(String, String)>)
    ensures
        r.deep_view() == place_of_machine(status.deep_view()),
{
    let provider: Option<String> = status.provider_name();
    let location: Option<String> = status.location_name();
    if provider.is_none() && location.is_none() {
        return None;
    }
    let first: String = match provider {
        Some(name) => name,
        None => "Unknown".to_string(),
    };
    let second: String = match location {
        Some(name) => name,
        None => "Unknown".to_string(),
    };
    Some((first, second))
}

/// Adds who provides the machines of a deployment that are up, and where.
fn add_places(places: &mut Vec<(String, String)>, result: &DeploymentResult)
    ensures
        final(places).deep_view() == old(places).deep_view() + places_among(
            result.deep_view(),
            machines_of(result.deep_view()),
        ),
{
    let ghost r = result.deep_view();
    let ghost all = machines_of(r);
    let ghost before = places.deep_view();
    assert(before =~= before + places_among(r, all.take(0)));
    if let Some(vms) = &result.vm_responses {
        let mut i: usize = 0;
        while i < vms.len()
            invariant
                i <= vms.len(),
                r == result.deep_view(),
                all == vms.deep_view(),
                places.deep_view() == before + places_among(r, all.take(i as int)),
            decreases vms.len() - i,
        {
            let ghost so_far = places.deep_view();
            let ghost next = all.take(i + 1);
            assert(next.drop_last() =~= all.take(i as int));
            assert(next.last() == vms@[i as int].deep_view());
            if let Some(status) = find_status(result, &vms[i].vm_id) {
                if let Some(place) = read_place(status) {
                    let ghost added = place.deep_view();
                    places.push(place);
                    assert(places.deep_view() =~= so_far.push(added));
                }
            }
            i += 1;
            assert(places.deep_view() =~= before + places_among(r, next));
        }
        assert(all.take(i as int) =~= all);
    } else {
        assert(all.take(0) =~= all);
    }
}

/// Who provides the machines of a list of deployments that are up, and where.
pub fn collect_places(results: &Vec<&DeploymentResult>) -> (places: Vec<(String, String)>)
    ensures
        places.deep_view() == places_in(results.deep_view()),
{
    let ghost all = results.deep_view();
    let mut places: Vec<(String, String)> = Vec::new();
    assert(places.deep_view() =~= places_in(all.take(0)));
    let mut i: usize = 0;
    while i < results.len()
        invariant
            i <= results.len(),
            all == results.deep_view(),
            places.deep_view() == places_in(all.take(i as int)),
        decreases results.len() - i,
    {
        let result: &DeploymentResult = results[i];
        let ghost next = all.take(i + 1);
        assert(next.drop_last() =~= all.take(i as int));
        assert(next.last() == result.deep_view());
        add_places(&mut places, result);
        i += 1;
    }
    assert(all.take(i as int) =~= all);
    places
}

/// How often the place at a position stands in the first `n` positions of a list.
fn count_place(places: &Vec<(String, String)>, at: usize, n: usize) -> (count: usize)
    requires
        at < places.len(),
        n <= places.len(),
    ensures
        count == occurrences(places.deep_view().take(n as int), places.deep_view()[at as int]),
        count > 0 <==> places.deep_view().take(n as int).contains(places.deep_view()[at as int]),
{
    let ghost all = places.deep_view();
    let ghost place = all[at as int];
    let mut count: usize = 0;
    let mut i: usize = 0;
    while i < n
        invariant
            count <= i <= n <= places.len(),
            at < places.len(),
            all == places.deep_view(),
            place == all[at as int],
            count == occurrences(all.take(i as int), place),
            count > 0 <==> all.take(i as int).contains(place),
        decreases n - i,
    {
        let ghost before = all.take(i as int);
        let ghost next = all.take(i + 1);
        assert(next.drop_last() =~= before);
        assert(next =~= before.push(all[i as int]));
        assert(all[i as int] == places@[i as int].deep_view());
        assert(place == places@[at as int].deep_view());
        let same: bool = places[i].0 == places[at].0 && places[i].1 == places[at].1;
        proof {
            if same {
                assert(next[i as int] == place);
            } else if next.contains(place) {
                let k = choose|k: int| 0 <= k < next.len() && next[k] == place;
                assert(before[k] == place);
            }
            if before.contains(place) {
                let k = choose|k: int| 0 <= k < before.len() && before[k] == place;
                assert(next[k] == place);
            }
        }
        if same {
            count += 1;
        }
        i += 1;
    }
    count
}

/// Adds the distribution of machines over places, each told once.
fn add_distribution(logs: &mut Vec<LogMessage>, places: &Vec<(String, String)>)
    ensures
        final(logs).deep_view() == old(logs).deep_view() + place_lines(
            places.deep_view(),
            places.len() as nat,
        ),
{
    let ghost before = logs.deep_view();
    let ghost all = places.deep_view();
    assert(before =~= before + place_lines(all, 0));
    assert(all.take(all.len() as int) =~= all);
    let mut i: usize = 0;
    while i < places.len()
        invariant
            i <= places.len(),
            all == places.deep_view(),
            all.take(all.len() as int) == all,
            logs.deep_view() == before + place_lines(all, i as nat),
        decreases places.len() - i,
    {
        assert(all[i as int] == places@[i as int].deep_view());
        if count_place(places, i, i) == 0 {
            let count: usize = count_place(places, i, places.len());
            note(
                logs,
                LogMessage::Info(
                    "    Provider: ".to_string().concat(places[i].0.as_str()).concat(
                        " Location: ",
                    ).concat(places[i].1.as_str()).concat(" - ").concat(
                        decimal_text(count as u64).as_str(),
                    ).concat(" VMs"),
                ),
            );
        }
        i += 1;
        assert(logs.deep_view() =~= before + place_lines(all, i as nat));
    }
}

/// Adds how an approach did.
fn add_approach(
    logs: &mut Vec<LogMessage>,
    label: &str,
    results: &Vec<&DeploymentResult>,
    rate: &str,
)
    requires
        requested_in(results.deep_view()) <= usize::MAX,
    ensures
        final(logs).deep_view() == old(logs).deep_view() + approach_part(
            label@,
            results.deep_view(),
            rate@,
        ),
{
    let ghost before = logs.deep_view();
    if results.len() > 0 {
        note(
            logs,
            LogMessage::Info(
                label.to_string().concat(
                    decimal_text(launched_count(results) as u64).as_str(),
                ).concat("/").concat(decimal_text(requested_total(results) as u64).as_str()).concat(
                    " VMs launched (",
                ).concat(rate).concat("% success rate)"),
            ),
        );
        add_distribution(logs, &collect_places(results));
    }
    assert(logs.deep_view() =~= before + approach_part(label@, results.deep_view(), rate@));
}

/// How long it all took and how the approaches compare. `total` is how long it took in seconds,
/// as it is written.
pub fn comparison_messages(
    analysis: &AnalysisResult<'_>,
    total: &str,
    bulk_average: &str,
    decomposed_average: &str,
    bulk_rate: &str,
    decomposed_rate: &str,
    speedup: &str,
) -> (logs: Vec<LogMessage>)
    requires
        requested_in(analysis.deep_view().bulk_results) <= usize::MAX,
        requested_in(analysis.deep_view().decomposed_results) <= usize::MAX,
    ensures
        logs.deep_view() == comparison(
            analysis.deep_view(),
            total@,
            bulk_average@,
            decomposed_average@,
            bulk_rate@,
            decomposed_rate@,
            speedup@,
        ),
{
    let mut logs: Vec<LogMessage> = no_logs();
    let both: bool = analysis.bulk_results.len() > 0 && analysis.decomposed_results.len() > 0;
    note(&mut logs, LogMessage::Info("".to_string()));
    note(
        &mut logs,
        LogMessage::Info(
            "Total deployment time: ".to_string().concat(total).concat(" seconds"),
        ),
    );
    if both {
        note(
            &mut logs,
            LogMessage::Info(
                "Average time - Bulk: ".to_string().concat(bulk_average).concat(
                    "s | Decomposed: ",
                ).concat(decomposed_average).concat("s"),
            ),
        );
    }
    note(&mut logs, LogMessage::Info("PERFORMANCE COMPARISON:".to_string()));
    add_approach(&mut logs, "  Bulk: ", &analysis.bulk_results, bulk_rate);
    add_approach(&mut logs, "  Decomposed: ", &analysis.decomposed_results, decomposed_rate);
    if both {
        note(
            &mut logs,
            LogMessage::Info("  Speedup Factor: ".to_string().concat(speedup)),
        );
    }
    assert(logs.deep_view() =~= comparison(
        analysis.deep_view(),
        total@,
        bulk_average@,
        decomposed_average@,
        bulk_rate@,
        decomposed_rate@,
        speedup@,
    ));
    logs
}

/// How long it all took and how the approaches compare. The averages are in seconds and the rates
/// in percent; `speedup` tells how many times faster which approach was.
pub fn log_performance_comparison(
    analysis: &AnalysisResult<'_>,
    total_deployment_time: Duration,
    bulk_average: &str,
    decomposed_average: &str,
    bulk_rate: &str,
    decomposed_rate: &str,
    speedup: &str,
) -> (logs: Vec<LogMessage>)
    requires
        requested_in(analysis.deep_view().bulk_results) <= usize::MAX,
        requested_in(analysis.deep_view().decomposed_results) <= usize::MAX,
    ensures
        logs.deep_view() == comparison(
            analysis.deep_view(),
            seconds_written(span_nanos(total_deployment_time), 3),
            bulk_average@,
            decomposed_average@,
            bulk_rate@,
            decomposed_rate@,
            speedup@,
        ),
{
    comparison_messages(
        analysis,
        seconds_text(total_deployment_time, 3).as_str(),
        bulk_average,
        decomposed_average,
        bulk_rate,
        decomposed_rate,
        speedup,
    )
}

/// How many machines a list of deployments brought.
pub open spec fn brought_in(results: Seq<DeploymentResultView>) -> nat
    decreases results.len(),
{
    if results.len() == 0 {
        0
    } else {
        brought_in(results.drop_last()) + machines_of(results.last()).len()
    }
}

proof fn lemma_sorted_once(r: DeploymentResultView, vms: Seq<VmResponseView>)
    ensures
        launched_among(r, vms).len() + failed_among(r, vms).len() == vms.len(),
    decreases vms.len(),
{
    if vms.len() > 0 {
        lemma_sorted_once(r, vms.drop_last());
    }
}

/// Every machine counts either as launched or as failed, and no more machines are launched than
/// are counted as requested.
pub proof fn law_every_machine_is_sorted(results: Seq<DeploymentResultView>)
    ensures
        launched_in(results).len() + failed_in(results).len() == brought_in(results),
        brought_in(results) <= requested_in(results),
        launched_in(results).len() <= analysis_of(results).total_requested,
    decreases results.len(),
{
    if results.len() > 0 {
        law_every_machine_is_sorted(results.drop_last());
        lemma_sorted_once(results.last(), machines_of(results.last()));
    }
}

/// Every deployment is either bulk or decomposed.
pub proof fn law_every_result_has_its_approach(results: Seq<DeploymentResultView>)
    ensures
        analysis_of(results).bulk_results.len() + analysis_of(results).decomposed_results.len()
            == results.len(),
    decreases results.len(),
{
    reveal(Seq::filter);
    if results.len() > 0 {
        law_every_result_has_its_approach(results.drop_last());
    }
}

/// A machine counts as launched exactly if it is one of the deployment's machines and its status
/// was collected.
pub proof fn law_launched_means_known(
    r: DeploymentResultView,
    vms: Seq<VmResponseView>,
    vm_id: Seq<char>,
)
    ensures
        (exists|i: int|
            0 <= i < launched_among(r, vms).len() && (#[trigger] launched_among(r, vms)[i]).0
                == vm_id) <==> status_in(r, vm_id) is Some && (exists|j: int|
            0 <= j < vms.len() && (#[trigger] vms[j]).vm_id == vm_id),
    decreases vms.len(),
{
    if vms.len() > 0 {
        let front = vms.drop_last();
        law_launched_means_known(r, front, vm_id);
        let before = launched_among(r, front);
        let after = launched_among(r, vms);
        assert(forall|j: int| 0 <= j < front.len() ==> front[j] == #[trigger] vms[j]);
        assert(forall|i: int| 0 <= i < before.len() ==> before[i] == #[trigger] after[i]);
        if exists|i: int| 0 <= i < after.len() && (#[trigger] after[i]).0 == vm_id {
            let i = choose|i: int| 0 <= i < after.len() && (#[trigger] after[i]).0 == vm_id;
            if i < before.len() {
                assert(before[i].0 == vm_id);
                let j = choose|j: int| 0 <= j < front.len() && (#[trigger] front[j]).vm_id == vm_id;
                assert(vms[j].vm_id == vm_id);
            } else {
                assert(vms[vms.len() - 1].vm_id == vm_id);
            }
        }
        if status_in(r, vm_id) is Some && exists|j: int|
            0 <= j < vms.len() && (#[trigger] vms[j]).vm_id == vm_id {
            let j = choose|j: int| 0 <= j < vms.len() && (#[trigger] vms[j]).vm_id == vm_id;
            if j < front.len() {
                assert(front[j].vm_id == vm_id);
                let i = choose|i: int| 0 <= i < before.len() && (#[trigger] before[i]).0 == vm_id;
                assert(after[i].0 == vm_id);
            } else {
                assert(after[after.len() - 1].0 == vm_id);
            }
        }
    }
}

proof fn lemma_counts_of_one_more(results: Seq<DeploymentResultView>, r: DeploymentResultView)
    ensures
        requested_in(results.push(r)) == requested_in(results) + requested_by(r),
        launched_in(results.push(r)).len() == launched_in(results).len() + launched_among(
            r,
            machines_of(r),
        ).len(),
{
    assert(results.push(r).drop_last() =~= results);
}

/// The machines of the two approaches add up to all machines: those that are up as well as those
/// that are counted as requested.
pub proof fn law_approaches_add_up(results: Seq<DeploymentResultView>)
    ensures
        ({
            let a = analysis_of(results);
            &&& launched_in(a.bulk_results).len() + launched_in(a.decomposed_results).len()
                == a.launched_vms.len()
            &&& requested_in(a.bulk_results) + requested_in(a.decomposed_results)
                == a.total_requested
        }),
    decreases results.len(),
{
    reveal(Seq::filter);
    if results.len() > 0 {
        let a = analysis_of(results.drop_last());
        law_approaches_add_up(results.drop_last());
        lemma_counts_of_one_more(a.bulk_results, results.last());
        lemma_counts_of_one_more(a.decomposed_results, results.last());
    }
}

/// The report has exactly one message on every machine, in their order: one that says that it was
/// launched, or one that says that it failed.
pub proof fn law_every_machine_is_reported(
    r: DeploymentResultView,
    vms: Seq<VmResponseView>,
    i: int,
)
    requires
        0 <= i < vms.len(),
    ensures
        machine_lines(r, vms).len() == vms.len(),
        machine_lines(r, vms)[i] is Success <==> status_in(r, vms[i].vm_id) is Some,
        machine_lines(r, vms)[i] is Error <==> status_in(r, vms[i].vm_id) is None,
{
}

/// How many messages the reports on a list of deployments hold: two for each deployment, one more
/// for each that failed, and one for each machine.
pub open spec fn messages_due(results: Seq<DeploymentResultView>) -> nat
    decreases results.len(),
{
    if results.len() == 0 {
        0
    } else {
        messages_due(results.drop_last()) + 2 + (if results.last().success {
            0nat
        } else {
            1nat
        }) + machines_of(results.last()).len()
    }
}

/// The reports hold no more and no less than the messages that are due.
pub proof fn law_report_has_no_more_than_is_due(results: Seq<DeploymentResultView>)
    ensures
        result_reports(results).len() == messages_due(results),
    decreases results.len(),
{
    if results.len() > 0 {
        law_report_has_no_more_than_is_due(results.drop_last());
    }
}

/// The distribution tells of every provider and location, with the number of machines.
pub proof fn law_every_place_is_told(list: Seq<(Seq<char>, Seq<char>)>, i: int)
    requires
        0 <= i < list.len(),
    ensures
        place_lines(list, list.len()).contains(
            place_entry(list[i], occurrences(list, list[i])),
        ),
{
    lemma_place_is_told(list, list.len(), i);
}

proof fn lemma_place_is_told(list: Seq<(Seq<char>, Seq<char>)>, n: nat, i: int)
    requires
        0 <= i < n <= list.len(),
    ensures
        place_lines(list, n).contains(place_entry(list[i], occurrences(list, list[i]))),
    decreases n,
{
    let line = place_entry(list[i], occurrences(list, list[i]));
    let before = place_lines(list, (n - 1) as nat);
    let all = place_lines(list, n);
    if i < n - 1 {
        lemma_place_is_told(list, (n - 1) as nat, i);
        let k = choose|k: int| 0 <= k < before.len() && before[k] == line;
        assert(all[k] == line);
    } else if list.take(n - 1).contains(list[i]) {
        let front = list.take(n - 1);
        let j = choose|j: int| 0 <= j < front.len() && front[j] == list[i];
        lemma_place_is_told(list, (n - 1) as nat, j);
    } else {
        assert(all[all.len() - 1] == line);
    }
}

} // verus!
