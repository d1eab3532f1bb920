//! What holds of the outcome of a run and of the report on it.
use crate::analysis::{
    analysis_of, approach_part, comparison, failed_among, failed_in, failed_line, failure_status,
    faster, is_bulk, launch_time, launched_among, launched_in, launched_line, machine_entry,
    machine_line, machines_of, occurrences, place_lines, place_of_machine, places_among, places_in,
    requested_in, result_line, result_report, result_reports, some_failed, speedup_line, status_in,
    summary, text_or, time_behind, time_written, total_nanos, total_time, AnalysisResult,
    AnalysisView,
};
use crate::client::{
    law_first_of_that_id, name_in, place_of, VmResponseView, VmStatusView,
};
use crate::clock::seconds_written;
use crate::deployment::{DeploymentResultView, LogEntry, VmPollingResponseView};
use crate::laws::worker::{
    holds_what_came, law_bulk_result_holds_what_came, law_decomposed_result_holds_what_came,
    lemma_what_passes_is_left, successes,
};
use crate::run::Approach;
use crate::text::{decimal, ruler, uppercase};
use crate::worker::{BulkRunView, DecomposedRunView, PollCollectorView};
use vstd::prelude::*;

verus! {

/// A machine of a result is up: its status was collected.
pub open spec fn is_up(r: DeploymentResultView, vm_id: Seq<char>) -> bool {
    r.vm_statuses is Some && exists|i: int|
        0 <= i < r.vm_statuses->0.len() && (#[trigger] r.vm_statuses->0[i]).id == vm_id
}

/// `i` is the first place with the id.
pub open spec fn first_with(list: Seq<VmStatusView>, vm_id: Seq<char>, i: int) -> bool {
    0 <= i < list.len() && list[i].id == vm_id && forall|k: int|
        0 <= k < i ==> (#[trigger] list[k]).id != vm_id
}

/// What was collected of a machine that is up: the first entry with its id.
pub open spec fn known_of(r: DeploymentResultView, vm_id: Seq<char>) -> VmStatusView {
    let list = r.vm_statuses->0;
    list[choose|i: int| #[trigger] first_with(list, vm_id, i)]
}

/// How long the launch of a machine took, in seconds with one digit after the point, if its
/// phases were recorded and tell it.
pub open spec fn seconds_of(r: DeploymentResultView, vm_id: Seq<char>) -> Option<Seq<char>> {
    if r.vm_phase_timings is Some && r.vm_phase_timings->0.contains_key(vm_id)
        && r.vm_phase_timings->0[vm_id].total() is Some {
        Some(seconds_written(r.vm_phase_timings->0[vm_id].total()->0, 1))
    } else {
        None
    }
}

/// A machine is known of exactly if its status was collected, and what is known of it is the
/// first that was collected.
pub proof fn law_known_is_what_was_collected(r: DeploymentResultView, vm_id: Seq<char>)
    ensures
        status_in(r, vm_id) is Some <==> is_up(r, vm_id),
        is_up(r, vm_id) ==> status_in(r, vm_id) == Some(known_of(r, vm_id)) && known_of(
            r,
            vm_id,
        ).id == vm_id && r.vm_statuses->0.contains(known_of(r, vm_id)),
{
    if r.vm_statuses is Some {
        let list = r.vm_statuses->0;
        law_first_of_that_id(list, vm_id);
        if is_up(r, vm_id) {
            let i = place_of(list, vm_id)->0;
            assert(first_with(list, vm_id, i));
            let j = choose|j: int| #[trigger] first_with(list, vm_id, j);
            assert(list[i].id == vm_id && list[j].id == vm_id);
            assert(i == j);
        }
    }
}

/// The time of a launch is the whole time that its phases tell.
pub proof fn law_launch_time_is_the_whole(r: DeploymentResultView, vm_id: Seq<char>)
    ensures
        time_written(launch_time(r, vm_id)) == seconds_of(r, vm_id),
        r.vm_phase_timings is Some && r.vm_phase_timings->0.contains_key(vm_id) ==> launch_time(
            r,
            vm_id,
        ) == r.vm_phase_timings->0[vm_id].total(),
        r.vm_phase_timings is None || !r.vm_phase_timings->0.contains_key(vm_id) ==> launch_time(
            r,
            vm_id,
        ) is None,
{
}

/// What a launched machine is listed with: its id, its name, the approach, its address, and how
/// long its launch took if that is known.
pub open spec fn launched_as(r: DeploymentResultView, vm: VmResponseView) -> (
    Seq<char>,
    Seq<char>,
    Seq<char>,
    Option<Seq<char>>,
    Seq<char>,
) {
    (
        vm.vm_id,
        vm.vm_name,
        r.approach,
        known_of(r, vm.vm_id).public_ip,
        if seconds_of(r, vm.vm_id) is Some {
            " - "@ + seconds_of(r, vm.vm_id)->0 + "s total"@
        } else {
            ""@
        },
    )
}

/// The machines of a list that are up, in their order.
pub open spec fn up_among(r: DeploymentResultView, vms: Seq<VmResponseView>) -> Seq<
    VmResponseView,
> {
    vms.filter(|vm: VmResponseView| is_up(r, vm.vm_id))
}

/// The machines of a list that are not up, in their order.
pub open spec fn down_among(r: DeploymentResultView, vms: Seq<VmResponseView>) -> Seq<
    VmResponseView,
> {
    vms.filter(|vm: VmResponseView| !is_up(r, vm.vm_id))
}

/// The machines that a result brings.
pub open spec fn brought_by(r: DeploymentResultView) -> Seq<VmResponseView> {
    if r.vm_responses is Some {
        r.vm_responses->0
    } else {
        Seq::empty()
    }
}

proof fn lemma_launched_are_those_up(r: DeploymentResultView, vms: Seq<VmResponseView>)
    ensures
        launched_among(r, vms).len() == up_among(r, vms).len(),
        forall|i: int|
            0 <= i < up_among(r, vms).len() ==> #[trigger] launched_among(r, vms)[i]
                == launched_as(r, up_among(r, vms)[i]),
        failed_among(r, vms).len() == down_among(r, vms).len(),
        forall|i: int|
            0 <= i < down_among(r, vms).len() ==> #[trigger] failed_among(r, vms)[i] == (
                down_among(r, vms)[i].vm_id,
                down_among(r, vms)[i].vm_name,
                r.approach,
            ),
    decreases vms.len(),
{
    reveal(Seq::filter);
    if vms.len() > 0 {
        let vm = vms.last();
        let front = vms.drop_last();
        lemma_launched_are_those_up(r, front);
        law_known_is_what_was_collected(r, vm.vm_id);
        law_launch_time_is_the_whole(r, vm.vm_id);
        assert(up_among(r, vms) == if is_up(r, vm.vm_id) {
            up_among(r, front).push(vm)
        } else {
            up_among(r, front)
        });
        assert(down_among(r, vms) == if is_up(r, vm.vm_id) {
            down_among(r, front)
        } else {
            down_among(r, front).push(vm)
        });
        assert forall|i: int| 0 <= i < up_among(r, vms).len() implies #[trigger] launched_among(
            r,
            vms,
        )[i] == launched_as(r, up_among(r, vms)[i]) by {
            if i < up_among(r, front).len() {
                assert(launched_among(r, vms)[i] == launched_among(r, front)[i]);
            }
        }
        assert forall|i: int| 0 <= i < down_among(r, vms).len() implies #[trigger] failed_among(
            r,
            vms,
        )[i] == (down_among(r, vms)[i].vm_id, down_among(r, vms)[i].vm_name, r.approach) by {
            if i < down_among(r, front).len() {
                assert(failed_among(r, vms)[i] == failed_among(r, front)[i]);
            }
        }
    }
}

/// Of a single result, the machines whose status was collected are launched and the others
/// failed, each list in the order of the machines. A result without machines counts for one
/// machine under the decomposed approach and for three under any other.
pub proof fn law_one_result_is_sorted(r: DeploymentResultView)
    ensures
        ({
            let a = analysis_of(seq![r]);
            let vms = brought_by(r);
            &&& a.launched_vms.len() == up_among(r, vms).len()
            &&& (forall|i: int|
                0 <= i < up_among(r, vms).len() ==> #[trigger] a.launched_vms[i] == launched_as(
                    r,
                    up_among(r, vms)[i],
                ))
            &&& a.failed_vms.len() == down_among(r, vms).len()
            &&& (forall|i: int|
                0 <= i < down_among(r, vms).len() ==> #[trigger] a.failed_vms[i] == (
                    down_among(r, vms)[i].vm_id,
                    down_among(r, vms)[i].vm_name,
                    r.approach,
                ))
            &&& (r.vm_responses is Some ==> a.total_requested == vms.len())
            &&& (r.vm_responses is None && r.approach == "decomposed"@ ==> a.total_requested == 1)
            &&& (r.vm_responses is None && r.approach != "decomposed"@ ==> a.total_requested == 3)
            &&& (r.approach == "bulk"@ ==> a.bulk_results == seq![r]
                && a.decomposed_results.len() == 0)
            &&& (r.approach != "bulk"@ ==> a.decomposed_results == seq![r]
                && a.bulk_results.len() == 0)
        }),
{
    reveal(Seq::filter);
    let one = seq![r];
    assert(one.drop_last() =~= Seq::empty());
    assert(one.last() == r);
    lemma_launched_are_those_up(r, machines_of(r));
    assert(launched_in(one.drop_last()) =~= Seq::empty());
    assert(failed_in(one.drop_last()) =~= Seq::empty());
    assert(requested_in(one.drop_last()) == 0);
    assert(launched_in(one) =~= launched_among(r, machines_of(r)));
    assert(failed_in(one) =~= failed_among(r, machines_of(r)));
    let bulk = |x: DeploymentResultView| is_bulk(x);
    let other = |x: DeploymentResultView| !is_bulk(x);
    assert(one.drop_last().filter(bulk) =~= Seq::empty());
    assert(one.drop_last().filter(other) =~= Seq::empty());
    let a = analysis_of(one);
    if r.approach == "bulk"@ {
        assert(a.bulk_results =~= one);
        assert(a.decomposed_results =~= Seq::empty());
    } else {
        assert(a.decomposed_results =~= one);
        assert(a.bulk_results =~= Seq::empty());
    }
}

/// The outcome of two lists of results is the outcome of the one and then of the other.
pub proof fn law_results_are_sorted_one_by_one(
    a: Seq<DeploymentResultView>,
    b: Seq<DeploymentResultView>,
)
    ensures
        ({
            let both = analysis_of(a + b);
            let first = analysis_of(a);
            let second = analysis_of(b);
            &&& both.launched_vms == first.launched_vms + second.launched_vms
            &&& both.failed_vms == first.failed_vms + second.failed_vms
            &&& both.total_requested == first.total_requested + second.total_requested
            &&& both.bulk_results == first.bulk_results + second.bulk_results
            &&& both.decomposed_results == first.decomposed_results + second.decomposed_results
        }),
    decreases b.len(),
{
    reveal(Seq::filter);
    let both = analysis_of(a + b);
    let first = analysis_of(a);
    let second = analysis_of(b);
    if b.len() == 0 {
        assert(a + b =~= a);
    } else {
        law_results_are_sorted_one_by_one(a, b.drop_last());
        assert((a + b).drop_last() =~= a + b.drop_last());
        assert((a + b).last() == b.last());
    }
    assert(both.launched_vms =~= first.launched_vms + second.launched_vms);
    assert(both.failed_vms =~= first.failed_vms + second.failed_vms);
    assert(both.bulk_results =~= first.bulk_results + second.bulk_results);
    assert(both.decomposed_results =~= first.decomposed_results + second.decomposed_results);
}

/// Without results there is nothing to tell.
pub proof fn law_no_results_no_machines()
    ensures
        analysis_of(Seq::empty()).launched_vms.len() == 0,
        analysis_of(Seq::empty()).failed_vms.len() == 0,
        analysis_of(Seq::empty()).total_requested == 0,
        analysis_of(Seq::empty()).bulk_results.len() == 0,
        analysis_of(Seq::empty()).decomposed_results.len() == 0,
{
    reveal(Seq::filter);
}

/// An answer that tells of success came for a machine.
pub open spec fn came_up(responses: Seq<VmPollingResponseView>, vm_id: Seq<char>) -> bool {
    exists|i: int|
        0 <= i < responses.len() && (#[trigger] responses[i]).success && responses[i].vm_id
            == vm_id
}

/// A machine counts as launched.
pub open spec fn counts_as_launched(a: AnalysisView, vm_id: Seq<char>) -> bool {
    exists|k: int| 0 <= k < a.launched_vms.len() && (#[trigger] a.launched_vms[k]).0 == vm_id
}

/// A machine counts as failed.
pub open spec fn counts_as_failed(a: AnalysisView, vm_id: Seq<char>) -> bool {
    exists|k: int| 0 <= k < a.failed_vms.len() && (#[trigger] a.failed_vms[k]).0 == vm_id
}

/// A machine of a decomposed run whose machines were followed counts as launched exactly if an
/// answer that tells of success came for its id, and as failed exactly if none did.
pub proof fn law_decomposed_machine_is_launched_if_it_came(
    run: DecomposedRunView,
    expected: nat,
    responses: Seq<VmPollingResponseView>,
    end: int,
    vm: VmResponseView,
)
    requires
        run.vms.contains(vm),
    ensures
        ({
            let followed = PollCollectorView::waiting(expected).taken_all(responses);
            let a = analysis_of(seq![run.result(Some(followed), end)]);
            &&& (counts_as_launched(a, vm.vm_id) <==> came_up(responses, vm.vm_id))
            &&& (counts_as_failed(a, vm.vm_id) <==> !came_up(responses, vm.vm_id))
        }),
{
    let followed = PollCollectorView::waiting(expected).taken_all(responses);
    law_decomposed_result_holds_what_came(run, expected, responses, end);
    lemma_launched_if_it_came(run.result(Some(followed), end), responses, vm);
}

/// A machine of a bulk run whose machines were followed counts as launched exactly if an answer
/// that tells of success came for its id, and as failed exactly if none did.
pub proof fn law_bulk_machine_is_launched_if_it_came(
    run: BulkRunView,
    vms: Seq<VmResponseView>,
    replied: int,
    expected: nat,
    responses: Seq<VmPollingResponseView>,
    end: int,
    vm: VmResponseView,
)
    requires
        vms.contains(vm),
    ensures
        ({
            let followed = PollCollectorView::waiting(expected).taken_all(responses);
            let a = analysis_of(seq![run.result(Ok(vms), replied, Some(followed), end)]);
            &&& (counts_as_launched(a, vm.vm_id) <==> came_up(responses, vm.vm_id))
            &&& (counts_as_failed(a, vm.vm_id) <==> !came_up(responses, vm.vm_id))
        }),
{
    let followed = PollCollectorView::waiting(expected).taken_all(responses);
    law_bulk_result_holds_what_came(run, vms, replied, expected, responses, end);
    lemma_launched_if_it_came(run.result(Ok(vms), replied, Some(followed), end), responses, vm);
}

proof fn lemma_launched_if_it_came(
    r: DeploymentResultView,
    responses: Seq<VmPollingResponseView>,
    vm: VmResponseView,
)
    requires
        holds_what_came(r, responses),
        brought_by(r).contains(vm),
    ensures
        counts_as_launched(analysis_of(seq![r]), vm.vm_id) <==> came_up(responses, vm.vm_id),
        counts_as_failed(analysis_of(seq![r]), vm.vm_id) <==> !came_up(responses, vm.vm_id),
{
    let a = analysis_of(seq![r]);
    let id = vm.vm_id;
    law_one_result_is_sorted(r);
    let good = |x: VmPollingResponseView| x.success;
    let up = successes(responses);
    assert(is_up(r, id) <==> came_up(responses, id)) by {
        if is_up(r, id) {
            let list = r.vm_statuses->0;
            let i = choose|i: int| 0 <= i < list.len() && (#[trigger] list[i]).id == id;
            assert(up[i].vm_id == id);
            lemma_what_passes_is_left(responses, good, up[i]);
            let j = choose|j: int| 0 <= j < responses.len() && responses[j] == up[i];
            assert(responses[j].success && responses[j].vm_id == id);
        }
        if came_up(responses, id) {
            let i = choose|i: int|
                0 <= i < responses.len() && (#[trigger] responses[i]).success
                    && responses[i].vm_id == id;
            lemma_what_passes_is_left(responses, good, responses[i]);
            let j = choose|j: int| 0 <= j < up.len() && up[j] == responses[i];
            assert(r.vm_statuses->0[j].id == id);
        }
    }
    let yes = |x: VmResponseView| is_up(r, x.vm_id);
    let no = |x: VmResponseView| !is_up(r, x.vm_id);
    let vms = brought_by(r);
    let ups = up_among(r, vms);
    let downs = down_among(r, vms);
    assert(ups == vms.filter(yes) && downs == vms.filter(no));
    lemma_what_passes_is_left(vms, yes, vm);
    lemma_what_passes_is_left(vms, no, vm);
    if is_up(r, id) {
        let k = choose|k: int| 0 <= k < ups.len() && ups[k] == vm;
        assert(a.launched_vms[k].0 == id);
        assert forall|k: int| 0 <= k < a.failed_vms.len() implies (#[trigger] a.failed_vms[k]).0
            != id by {
            lemma_what_passes_is_left(vms, no, downs[k]);
        }
    } else {
        let k = choose|k: int| 0 <= k < downs.len() && downs[k] == vm;
        assert(a.failed_vms[k].0 == id);
        assert forall|k: int| 0 <= k < a.launched_vms.len() implies (
        #[trigger] a.launched_vms[k]).0 != id by {
            lemma_what_passes_is_left(vms, yes, ups[k]);
        }
    }
}

/// The line on a deployment tells whether it succeeded, the approach, the thread, how long it
/// took, and how many machines it was meant to have, has and has up.
pub proof fn law_result_is_told_in_a_line(
    r: DeploymentResultView,
    approach: Seq<char>,
    seconds: Seq<char>,
)
    ensures
        ({
            let tail = " "@ + approach + " [Thread "@ + r.thread_id + "] - "@ + seconds
                + "s - Intended: "@;
            let requested = decimal(brought_by(r).len());
            let launched = if r.vm_statuses is Some {
                decimal(r.vm_statuses->0.len())
            } else {
                decimal(0)
            };
            let symbol = if r.success {
                "✅"@
            } else {
                "❌"@
            };
            let intended = if r.approach == "bulk"@ {
                decimal(3)
            } else {
                decimal(1)
            };
            result_line(r, approach, seconds) == symbol + tail + intended + " | Requested: "@
                + requested + " | Launched: "@ + launched
        }),
{
    let tail = " "@ + approach + " [Thread "@ + r.thread_id + "] - "@ + seconds
        + "s - Intended: "@;
    let symbol = if r.success {
        "✅"@
    } else {
        "❌"@
    };
    assert(symbol + " "@ + approach + " [Thread "@ + r.thread_id + "] - "@ + seconds
        + "s - Intended: "@ =~= symbol + tail);
}

/// What is said of a machine of a deployment: that it was launched, with its address, its
/// datacenter and, if it is known, the time of the launch; or that it failed, and whether it took
/// too long or was never followed.
pub proof fn law_machine_is_told_of(
    r: DeploymentResultView,
    vm: VmResponseView,
    approach: Seq<char>,
    seconds: Option<Seq<char>>,
)
    ensures
        ({
            let s = known_of(r, vm.vm_id);
            let who = vm.vm_name + " ["@ + vm.vm_id + "] ("@ + approach + ")"@;
            let ip = if s.public_ip is Some {
                s.public_ip->0
            } else {
                "No IP"@
            };
            let place = if name_in(s.datacenter) is Some {
                name_in(s.datacenter)->0
            } else {
                "Unknown"@
            };
            let time = if seconds is Some {
                " ("@ + seconds->0 + "s)"@
            } else {
                ""@
            };
            let reason = if r.vm_statuses is None && r.vm_phase_timings is None {
                "NO_POLLING"@
            } else {
                "TIMEOUT"@
            };
            let entry = machine_entry(r, vm, approach, seconds);
            &&& (is_up(r, vm.vm_id) ==> entry == LogEntry::Success(
                "✓ LAUNCHED: "@ + who + " IP: "@ + ip + " Datacenter: "@ + place + time,
            ))
            &&& (!is_up(r, vm.vm_id) ==> entry == LogEntry::Error(
                "✗ FAILED:   "@ + who + " - Status: "@ + reason,
            ))
        }),
{
    law_known_is_what_was_collected(r, vm.vm_id);
    let s = known_of(r, vm.vm_id);
    let who = vm.vm_name + " ["@ + vm.vm_id + "] ("@ + approach + ")"@;
    let ip = text_or(s.public_ip, "No IP"@);
    let place = text_or(name_in(s.datacenter), "Unknown"@);
    reveal_strlit(") IP: ");
    reveal_strlit(" IP: ");
    reveal_strlit(")");
    reveal_strlit(") - Status: ");
    reveal_strlit(" - Status: ");
    assert(") IP: "@ =~= ")"@ + " IP: "@);
    assert(") - Status: "@ =~= ")"@ + " - Status: "@);
    assert(machine_line(vm, s, approach) =~= "✓ LAUNCHED: "@ + who + " IP: "@ + ip
        + " Datacenter: "@ + place);
    assert(failed_line(vm, approach, failure_status(r)) =~= "✗ FAILED:   "@ + who + " - Status: "@
        + failure_status(r));
}

/// The report on a deployment: the line on it, why it failed if it did, one message on each of
/// its machines in their order, and an empty line.
pub proof fn law_result_is_reported(r: DeploymentResultView, i: int)
    ensures
        ({
            let report = result_report(r);
            let vms = brought_by(r);
            let head: int = if r.success {
                1
            } else {
                2
            };
            &&& report.len() == head + vms.len() + 1
            &&& report[0] == LogEntry::Info(
                result_line(r, uppercase(r.approach), seconds_written(r.duration, 3)),
            )
            &&& (!r.success && r.error_message is Some ==> report[1] == LogEntry::Error(
                "   ERROR: "@ + r.error_message->0,
            ))
            &&& (!r.success && r.error_message is None ==> report[1] == LogEntry::Error(
                "   ERROR: "@ + "Unknown error"@,
            ))
            &&& (0 <= i < vms.len() ==> report[head + i] == machine_entry(
                r,
                vms[i],
                uppercase(r.approach),
                seconds_of(r, vms[i].vm_id),
            ))
            &&& report.last() == LogEntry::Info(""@)
        }),
{
    let vms = brought_by(r);
    assert(vms =~= machines_of(r));
    if 0 <= i < vms.len() {
        law_launch_time_is_the_whole(r, vms[i].vm_id);
    }
}

/// Deployments are reported one by one, in their order.
pub proof fn law_results_are_reported_one_by_one(
    a: Seq<DeploymentResultView>,
    b: Seq<DeploymentResultView>,
    r: DeploymentResultView,
)
    ensures
        result_reports(a + b) == result_reports(a) + result_reports(b),
        result_reports(seq![r]) == result_report(r),
        result_reports(Seq::empty()).len() == 0,
    decreases b.len(),
{
    let one = seq![r];
    assert(one.drop_last() =~= Seq::empty());
    assert(result_reports(one.drop_last()) =~= Seq::empty());
    assert(result_reports(one) =~= result_report(r));
    if b.len() == 0 {
        assert(a + b =~= a);
    } else {
        law_results_are_reported_one_by_one(a, b.drop_last(), r);
        assert((a + b).drop_last() =~= a + b.drop_last());
        assert((a + b).last() == b.last());
    }
    assert(result_reports(a + b) =~= result_reports(a) + result_reports(b));
}

/// The lists of the outcome and the reports name a launch time only if there is one.
pub proof fn law_known_time_is_told(seconds: Seq<char>, nanos: nat)
    ensures
        total_time(Some(seconds)) == " - "@ + seconds + "s total"@,
        total_time(None) == ""@,
        time_behind(Some(seconds)) == " ("@ + seconds + "s)"@,
        time_behind(None) == ""@,
        time_written(Some(nanos)) == Some(seconds_written(nanos, 1)),
        time_written(None) is None,
{
}

/// The summary tells how many machines are up, of how many, and then of each that is up, and how
/// many are missing if any are. Tips follow exactly if a deployment failed.
pub proof fn law_summary_tells_the_outcome(a: AnalysisView, rate: Seq<char>, i: int)
    ensures
        ({
            let lines = summary(a, rate);
            let up = a.launched_vms;
            let shown: int = if up.len() > 0 {
                2 + up.len() as int
            } else {
                0
            };
            let short = up.len() < a.total_requested;
            let failed = (exists|k: int|
                0 <= k < a.bulk_results.len() && !(#[trigger] a.bulk_results[k]).success) || (
            exists|k: int|
                0 <= k < a.decomposed_results.len() && !(
                #[trigger] a.decomposed_results[k]).success);
            let missing: int = if !short {
                0
            } else if failed {
                7
            } else {
                2
            };
            let end = 4 + shown;
            &&& lines.len() == end + missing
            &&& lines[0] == LogEntry::Info(ruler(80)) && lines[2] == LogEntry::Info(ruler(80))
            &&& lines[1] == LogEntry::Info("SUMMARY"@)
            &&& lines[3] == LogEntry::Info(
                "VMs Launched: "@ + decimal(up.len()) + "/"@ + decimal(a.total_requested) + " ("@
                    + rate + "% success rate)"@,
            )
            &&& (up.len() > 0 ==> lines[4] == LogEntry::Info(""@) && lines[5]
                == LogEntry::Success("SUCCESSFUL DEPLOYMENTS:"@))
            &&& (0 <= i < up.len() && up[i].3 is Some ==> lines[6 + i] == LogEntry::Success(
                "  "@ + up[i].1 + " ["@ + up[i].0 + "] ("@ + uppercase(up[i].2) + ") - "@
                    + up[i].3->0,
            ))
            &&& (0 <= i < up.len() && up[i].3 is None ==> lines[6 + i] == LogEntry::Success(
                "  "@ + up[i].1 + " ["@ + up[i].0 + "] ("@ + uppercase(up[i].2) + ") - "@
                    + "No IP"@,
            ))
            &&& (short ==> lines[end] == LogEntry::Info(""@) && lines[end + 1]
                == LogEntry::Error(
                "FAILED DEPLOYMENTS: "@ + decimal((a.total_requested - up.len()) as nat),
            ))
            &&& (short && failed ==> {
                &&& lines[end + 2] == LogEntry::Error("💡 TROUBLESHOOTING TIPS:"@)
                &&& lines[end + 3] == LogEntry::Error(
                    "   - Try removing country restrictions (remove 'datacenter' section)"@,
                )
                &&& lines[end + 4] == LogEntry::Error(
                    "   - Increase maxPricePerEpochUsd (try 5.0 or 10.0)"@,
                )
                &&& lines[end + 5] == LogEntry::Error(
                    "   - Use smaller VM size (cpu-1-ram-2gb-storage-25gb)"@,
                )
                &&& lines[end + 6] == LogEntry::Error(
                    "   - Try different regions (DE, US, CA instead of PL)"@,
                )
            })
        }),
{
    assert(some_failed(a.bulk_results) == exists|k: int|
        0 <= k < a.bulk_results.len() && !(#[trigger] a.bulk_results[k]).success);
    assert(some_failed(a.decomposed_results) == exists|k: int|
        0 <= k < a.decomposed_results.len() && !(#[trigger] a.decomposed_results[k]).success);
}

/// A machine that is up is told of in the summary with its name, its id, the approach and its
/// address, if it has one.
pub proof fn law_launched_machine_is_summed_up(
    vm: (Seq<char>, Seq<char>, Seq<char>, Option<Seq<char>>, Seq<char>),
    approach: Seq<char>,
)
    ensures
        vm.3 is Some ==> launched_line(vm, approach) == "  "@ + vm.1 + " ["@ + vm.0 + "] ("@
            + approach + ") - "@ + vm.3->0,
        vm.3 is None ==> launched_line(vm, approach) == "  "@ + vm.1 + " ["@ + vm.0 + "] ("@
            + approach + ") - "@ + "No IP"@,
{
}

/// The place of a machine is known if its provider or its location is; the one that is not known
/// is told to be unknown.
pub proof fn law_where_a_machine_is(s: VmStatusView)
    ensures
        ({
            let place = place_of_machine(s);
            let provider = name_in(s.provider);
            let location = name_in(s.provider_location);
            &&& (place is None <==> provider is None && location is None)
            &&& (place matches Some((p, l)) ==> {
                &&& (provider is Some ==> p == provider->0)
                &&& (provider is None ==> p == "Unknown"@)
                &&& (location is Some ==> l == location->0)
                &&& (location is None ==> l == "Unknown"@)
            })
        }),
{
}

/// The places of machines are gathered machine by machine: of a machine that is up and whose
/// place is known, that place; of any other, nothing.
pub proof fn law_places_are_gathered(
    r: DeploymentResultView,
    vms: Seq<VmResponseView>,
    vm: VmResponseView,
)
    ensures
        places_among(r, Seq::empty()).len() == 0,
        ({
            let known = is_up(r, vm.vm_id) && place_of_machine(known_of(r, vm.vm_id)) is Some;
            &&& (known ==> places_among(r, vms.push(vm)) == places_among(r, vms).push(
                place_of_machine(known_of(r, vm.vm_id))->0,
            ))
            &&& (!known ==> places_among(r, vms.push(vm)) == places_among(r, vms))
        }),
{
    law_known_is_what_was_collected(r, vm.vm_id);
    assert(vms.push(vm).drop_last() =~= vms);
}

/// The places of the machines of several deployments are those of each, one after the other.
pub proof fn law_places_of_all_deployments(
    a: Seq<DeploymentResultView>,
    b: Seq<DeploymentResultView>,
    r: DeploymentResultView,
)
    ensures
        places_in(a + b) == places_in(a) + places_in(b),
        places_in(seq![r]) == places_among(r, brought_by(r)),
        places_in(Seq::empty()).len() == 0,
    decreases b.len(),
{
    let one = seq![r];
    assert(one.drop_last() =~= Seq::empty());
    assert(places_in(one.drop_last()) =~= Seq::empty());
    assert(places_in(one) =~= places_among(r, brought_by(r)));
    if b.len() == 0 {
        assert(a + b =~= a);
    } else {
        law_places_of_all_deployments(a, b.drop_last(), r);
        assert((a + b).drop_last() =~= a + b.drop_last());
        assert((a + b).last() == b.last());
    }
    assert(places_in(a + b) =~= places_in(a) + places_in(b));
}

/// A place is counted each time that it stands in a list.
pub proof fn law_places_are_counted(
    a: Seq<(Seq<char>, Seq<char>)>,
    b: Seq<(Seq<char>, Seq<char>)>,
    place: (Seq<char>, Seq<char>),
    other: (Seq<char>, Seq<char>),
)
    ensures
        occurrences(a + b, place) == occurrences(a, place) + occurrences(b, place),
        occurrences(seq![place], place) == 1,
        other != place ==> occurrences(seq![other], place) == 0,
        occurrences(Seq::empty(), place) == 0,
    decreases b.len(),
{
    assert(seq![place].drop_last() =~= Seq::empty());
    assert(seq![other].drop_last() =~= Seq::empty());
    assert(occurrences(seq![place].drop_last(), place) == 0);
    assert(occurrences(seq![other].drop_last(), place) == 0);
    if b.len() == 0 {
        assert(a + b =~= a);
    } else {
        law_places_are_counted(a, b.drop_last(), place, other);
        assert((a + b).drop_last() =~= a + b.drop_last());
        assert((a + b).last() == b.last());
    }
}

/// The places of a list at which a place stands for the first time, one after the other.
pub open spec fn first_times(
    picked: Seq<int>,
    list: Seq<(Seq<char>, Seq<char>)>,
    n: nat,
) -> bool {
    &&& forall|j: int, k: int| 0 <= j < k < picked.len() ==> picked[j] < picked[k]
    &&& forall|j: int| 0 <= j < picked.len() ==> 0 <= #[trigger] picked[j] < n
    &&& forall|i: int|
        0 <= i < n ==> (#[trigger] picked.contains(i) <==> !list.take(i).contains(list[i]))
}

/// The distribution tells each place once, where it stands for the first time, with the number of
/// its machines.
pub proof fn law_each_place_is_told_once(list: Seq<(Seq<char>, Seq<char>)>, n: nat) -> (picked: Seq<
    int,
>)
    requires
        n <= list.len(),
    ensures
        first_times(picked, list, n),
        place_lines(list, n).len() == picked.len(),
        forall|j: int|
            0 <= j < picked.len() ==> #[trigger] place_lines(list, n)[j] == LogEntry::Info(
                "    Provider: "@ + list[picked[j]].0 + " Location: "@ + list[picked[j]].1 + " - "@
                    + decimal(occurrences(list, list[picked[j]])) + " VMs"@,
            ),
    decreases n,
{
    if n == 0 {
        Seq::empty()
    } else {
        let m = (n - 1) as nat;
        let last = n - 1;
        let front = law_each_place_is_told_once(list, m);
        if list.take(last).contains(list[last]) {
            assert forall|i: int| 0 <= i < n implies (#[trigger] front.contains(i) <==> !list.take(
                i,
            ).contains(list[i])) by {
                if i == last && front.contains(i) {
                    let j = choose|j: int| 0 <= j < front.len() && front[j] == i;
                    assert(front[j] < m);
                }
            }
            front
        } else {
            let picked = front.push(last);
            assert forall|i: int| 0 <= i < n implies (#[trigger] picked.contains(i)
                <==> !list.take(i).contains(list[i])) by {
                if i == last {
                    assert(picked[front.len() as int] == last);
                } else {
                    if front.contains(i) {
                        let j = choose|j: int| 0 <= j < front.len() && front[j] == i;
                        assert(picked[j] == i);
                    }
                    if picked.contains(i) {
                        let j = choose|j: int| 0 <= j < picked.len() && picked[j] == i;
                        assert(front[j] == i);
                    }
                    assert(front.contains(i) <==> picked.contains(i));
                }
            }
            let before = place_lines(list, m);
            let lines = place_lines(list, n);
            assert forall|j: int| 0 <= j < picked.len() implies #[trigger] lines[j]
                == LogEntry::Info(
                "    Provider: "@ + list[picked[j]].0 + " Location: "@ + list[picked[j]].1 + " - "@
                    + decimal(occurrences(list, list[picked[j]])) + " VMs"@,
            ) by {
                if j < front.len() {
                    assert(lines[j] == before[j]);
                }
            }
            picked
        }
    }
}

/// How an approach is told of: the number of its machines that are up and of all of them, the
/// share, and then where they are; nothing if it was not tried.
pub proof fn law_approach_is_told_of(
    label: Seq<char>,
    results: Seq<DeploymentResultView>,
    rate: Seq<char>,
)
    ensures
        results.len() == 0 ==> approach_part(label, results, rate).len() == 0,
        results.len() > 0 ==> approach_part(label, results, rate) == seq![
            LogEntry::Info(
                label + decimal(analysis_of(results).launched_vms.len()) + "/"@ + decimal(
                    analysis_of(results).total_requested,
                ) + " VMs launched ("@ + rate + "% success rate)"@,
            ),
        ] + place_lines(places_in(results), places_in(results).len()),
{
}

/// The comparison tells how long it all took and how each approach did, the bulk one first; and
/// if both were tried, how long each took on average and how many times faster one was.
pub proof fn law_comparison_tells_both(
    a: AnalysisView,
    total: Seq<char>,
    bulk_average: Seq<char>,
    decomposed_average: Seq<char>,
    bulk_rate: Seq<char>,
    decomposed_rate: Seq<char>,
    speedup: Seq<char>,
)
    ensures
        ({
            let lines = comparison(
                a,
                total,
                bulk_average,
                decomposed_average,
                bulk_rate,
                decomposed_rate,
                speedup,
            );
            let both = a.bulk_results.len() > 0 && a.decomposed_results.len() > 0;
            let parts = approach_part("  Bulk: "@, a.bulk_results, bulk_rate) + approach_part(
                "  Decomposed: "@,
                a.decomposed_results,
                decomposed_rate,
            );
            let at: int = if both {
                3
            } else {
                2
            };
            &&& lines[0] == LogEntry::Info(""@)
            &&& lines[1] == LogEntry::Info("Total deployment time: "@ + total + " seconds"@)
            &&& (both ==> lines[2] == LogEntry::Info(
                "Average time - Bulk: "@ + bulk_average + "s | Decomposed: "@ + decomposed_average
                    + "s"@,
            ))
            &&& lines[at] == LogEntry::Info("PERFORMANCE COMPARISON:"@)
            &&& lines.subrange(at + 1, at + 1 + parts.len()) == parts
            &&& (both ==> lines.len() == at + parts.len() + 2 && lines.last() == LogEntry::Info(
                "  Speedup Factor: "@ + speedup,
            ))
            &&& (!both ==> lines.len() == at + parts.len() + 1)
        }),
{
    let lines = comparison(
        a,
        total,
        bulk_average,
        decomposed_average,
        bulk_rate,
        decomposed_rate,
        speedup,
    );
    let both = a.bulk_results.len() > 0 && a.decomposed_results.len() > 0;
    let parts = approach_part("  Bulk: "@, a.bulk_results, bulk_rate) + approach_part(
        "  Decomposed: "@,
        a.decomposed_results,
        decomposed_rate,
    );
    let at: int = if both {
        3
    } else {
        2
    };
    assert(lines.subrange(at + 1, at + 1 + parts.len()) =~= parts);
}

/// The time of several deployments is the sum of their times.
pub proof fn law_times_add_up(
    a: Seq<DeploymentResultView>,
    b: Seq<DeploymentResultView>,
    r: DeploymentResultView,
)
    ensures
        total_nanos(a + b) == total_nanos(a) + total_nanos(b),
        total_nanos(seq![r]) == r.duration,
        total_nanos(Seq::empty()) == 0,
    decreases b.len(),
{
    assert(seq![r].drop_last() =~= Seq::empty());
    assert(total_nanos(seq![r].drop_last()) == 0);
    if b.len() == 0 {
        assert(a + b =~= a);
    } else {
        law_times_add_up(a, b.drop_last(), r);
        assert((a + b).drop_last() =~= a + b.drop_last());
        assert((a + b).last() == b.last());
    }
}

/// An approach is faster exactly if its deployments took less time on average: if each bulk one
/// took `x` and each decomposed one `y` on average, the smaller of the two decides.
pub proof fn law_faster_takes_less_on_average(a: AnalysisView, x: nat, y: nat)
    requires
        a.bulk_results.len() > 0,
        a.decomposed_results.len() > 0,
        total_nanos(a.bulk_results) == x * a.bulk_results.len(),
        total_nanos(a.decomposed_results) == y * a.decomposed_results.len(),
    ensures
        x < y ==> faster(a) == Some(Approach::Bulk),
        y < x ==> faster(a) == Some(Approach::Decomposed),
        x == y ==> faster(a) is None,
{
    let n = a.bulk_results.len();
    let m = a.decomposed_results.len();
    assert((x * n) * m == x * (n * m)) by (nonlinear_arith);
    assert((y * m) * n == y * (n * m)) by (nonlinear_arith);
    let k = n * m;
    assert(k > 0) by (nonlinear_arith)
        requires
            n > 0,
            m > 0,
            k == n * m,
    ;
    if x < y {
        assert(x * k < y * k) by (nonlinear_arith)
            requires
                x < y,
                k > 0,
        ;
    } else if y < x {
        assert(y * k < x * k) by (nonlinear_arith)
            requires
                y < x,
                k > 0,
        ;
    }
}

/// Which approach is faster is decided by the averages, also where they are no whole numbers.
pub proof fn law_averages_decide(a: AnalysisView)
    ensures
        ({
            let bulk = total_nanos(a.bulk_results) * a.decomposed_results.len();
            let decomposed = total_nanos(a.decomposed_results) * a.bulk_results.len();
            &&& (faster(a) == Some(Approach::Bulk) <==> bulk < decomposed)
            &&& (faster(a) == Some(Approach::Decomposed) <==> bulk > decomposed)
            &&& (faster(a) is None <==> bulk == decomposed)
        }),
{
}

/// The faster approach is named behind the factor.
pub proof fn law_faster_one_is_named(factor: Seq<char>)
    ensures
        speedup_line(Some(Approach::Bulk), factor) == factor + "x (Bulk faster)"@,
        speedup_line(Some(Approach::Decomposed), factor) == factor + "x (Decomposed faster)"@,
        speedup_line(None, factor) == factor + "x (Equal)"@,
{
}

/// The outcome is seen as it was found.
pub proof fn law_outcome_is_seen_whole(a: AnalysisResult<'_>)
    ensures
        a.deep_view().launched_vms == a.launched_vms.deep_view(),
        a.deep_view().failed_vms == a.failed_vms.deep_view(),
        a.deep_view().total_requested == a.total_requested,
        a.deep_view().bulk_results.len() == a.bulk_results@.len(),
        a.deep_view().decomposed_results.len() == a.decomposed_results@.len(),
        forall|i: int|
            0 <= i < a.bulk_results@.len() ==> #[trigger] a.deep_view().bulk_results[i]
                == a.bulk_results@[i].deep_view(),
        forall|i: int|
            0 <= i < a.decomposed_results@.len()
                ==> #[trigger] a.deep_view().decomposed_results[i]
                == a.decomposed_results@[i].deep_view(),
{
}

} // verus!
