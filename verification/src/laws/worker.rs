//! What holds of the two ways to ask for machines.
use crate::client::{DeploymentView, VmResponseView, VmStatusView};
use crate::clock::seconds_written;
use crate::deployment::{
    DeploymentResultView, LogEntry, PhaseTimingsView, VmPollingResponseView,
};
use crate::text::decimal;
use crate::worker::{
    follow_requests, ids_of, individual, law_collected_machines_are_up, micros, new_ids, status_of,
    BulkRunView, DecomposedRunView, PollCollectorView,
};
use vstd::prelude::*;

verus! {

/// A list of machines is what the answers that tell of success say, one machine for each, in the
/// order of the answers.
pub open spec fn tells_of(
    statuses: Seq<VmStatusView>,
    up: Seq<VmPollingResponseView>,
) -> bool {
    &&& statuses.len() == up.len()
    &&& forall|i: int|
        0 <= i < up.len() ==> {
            let s = #[trigger] statuses[i];
            &&& s.id == up[i].vm_id
            &&& s.vm_name == up[i].vm_name
            &&& s.status == up[i].status
            &&& s.public_ip == up[i].public_ip
            &&& s.datacenter == up[i].datacenter
            &&& s.provider == up[i].provider
            &&& s.provider_location == up[i].provider_location
        }
}

/// The answers that tell of success, in their order.
pub open spec fn successes(responses: Seq<VmPollingResponseView>) -> Seq<VmPollingResponseView> {
    responses.filter(|r: VmPollingResponseView| r.success)
}

/// The machines that a result tells to be up are those whose answers told of success, and no
/// others. It tells of none exactly if no answer told of success.
pub open spec fn holds_what_came(
    result: DeploymentResultView,
    responses: Seq<VmPollingResponseView>,
) -> bool {
    let up = successes(responses);
    &&& (up.len() == 0 ==> result.vm_statuses is None)
    &&& (up.len() > 0 ==> result.vm_statuses is Some && tells_of(result.vm_statuses->0, up))
    &&& result.vm_phase_timings is Some
    &&& (forall|id: Seq<char>|
        #[trigger] result.vm_phase_timings->0.contains_key(id) <==> exists|i: int|
            0 <= i < responses.len() && (#[trigger] responses[i]).success && responses[i].vm_id
                == id)
    &&& (forall|id: Seq<char>|
        #[trigger] result.vm_phase_timings->0.contains_key(id) ==> exists|i: int|
            0 <= i < responses.len() && (#[trigger] responses[i]).success && responses[i].vm_id
                == id && responses[i].phase_timings == result.vm_phase_timings->0[id])
}

/// What is left of a list by a test is what passes it.
pub(crate) proof fn lemma_what_passes_is_left<A>(s: Seq<A>, test: spec_fn(A) -> bool, x: A)
    ensures
        s.filter(test).contains(x) <==> s.contains(x) && test(x),
    decreases s.len(),
{
    reveal(Seq::filter);
    if s.len() > 0 {
        let front = s.drop_last();
        lemma_what_passes_is_left(front, test, x);
        assert(s =~= front.push(s.last()));
        if front.contains(x) {
            let i = choose|i: int| 0 <= i < front.len() && front[i] == x;
            assert(s[i] == x);
        }
        if s.contains(x) && s.last() != x {
            let i = choose|i: int| 0 <= i < s.len() && s[i] == x;
            assert(front[i] == x);
        }
        if s.last() == x {
            assert(s[s.len() - 1] == x);
        }
        let kept = front.filter(test);
        let all = s.filter(test);
        if test(s.last()) {
            assert(all == kept.push(s.last()));
            if kept.contains(x) {
                let i = choose|i: int| 0 <= i < kept.len() && kept[i] == x;
                assert(all[i] == x);
            }
            if s.last() == x {
                assert(all[kept.len() as int] == x);
            }
            if all.contains(x) && s.last() != x {
                let i = choose|i: int| 0 <= i < all.len() && all[i] == x;
                assert(kept[i] == x);
            }
        }
    }
}

/// The phases of every machine that is up are recorded.
proof fn lemma_phases_of_all_that_are_up(
    expected: nat,
    responses: Seq<VmPollingResponseView>,
    i: int,
)
    requires
        0 <= i < responses.len(),
        responses[i].success,
    ensures
        PollCollectorView::waiting(expected).taken_all(responses).timings.contains_key(
            responses[i].vm_id,
        ),
    decreases responses.len(),
{
    if i < responses.len() - 1 {
        assert(responses.drop_last()[i] == responses[i]);
        lemma_phases_of_all_that_are_up(expected, responses.drop_last(), i);
    } else {
        assert(responses.last() == responses[i]);
    }
}

proof fn lemma_result_holds_what_came(
    expected: nat,
    responses: Seq<VmPollingResponseView>,
    result: DeploymentResultView,
)
    requires
        ({
            let c = PollCollectorView::waiting(expected).taken_all(responses);
            &&& result.vm_statuses == (if c.statuses.len() == 0 {
                None
            } else {
                Some(c.statuses)
            })
            &&& result.vm_phase_timings == Some(c.timings)
        }),
    ensures
        holds_what_came(result, responses),
{
    let c = PollCollectorView::waiting(expected).taken_all(responses);
    let up = successes(responses);
    law_collected_machines_are_up(expected, responses);
    assert(c.statuses.len() == up.len());
    assert forall|i: int| 0 <= i < up.len() implies #[trigger] c.statuses[i] == status_of(
        up[i],
    ) by {}
    assert forall|id: Seq<char>|
        #[trigger] result.vm_phase_timings->0.contains_key(id) <==> exists|i: int|
            0 <= i < responses.len() && (#[trigger] responses[i]).success && responses[i].vm_id
                == id by {
        if exists|i: int|
            0 <= i < responses.len() && (#[trigger] responses[i]).success && responses[i].vm_id
                == id {
            let i = choose|i: int|
                0 <= i < responses.len() && (#[trigger] responses[i]).success
                    && responses[i].vm_id == id;
            lemma_phases_of_all_that_are_up(expected, responses, i);
        }
    }
}

/// The result of a decomposed run whose machines were followed tells of exactly the machines
/// whose answers told of success, in the order of the answers; it tells of none only if there is
/// no such answer.
pub proof fn law_decomposed_result_holds_what_came(
    run: DecomposedRunView,
    expected: nat,
    responses: Seq<VmPollingResponseView>,
    end: int,
)
    ensures
        holds_what_came(
            run.result(Some(PollCollectorView::waiting(expected).taken_all(responses)), end),
            responses,
        ),
{
    let c = PollCollectorView::waiting(expected).taken_all(responses);
    lemma_result_holds_what_came(expected, responses, run.result(Some(c), end));
}

/// The result of a bulk run that succeeded and whose machines were followed tells of exactly the
/// machines whose answers told of success, in the order of the answers; it tells of none only if
/// there is no such answer.
pub proof fn law_bulk_result_holds_what_came(
    run: BulkRunView,
    vms: Seq<VmResponseView>,
    replied: int,
    expected: nat,
    responses: Seq<VmPollingResponseView>,
    end: int,
)
    ensures
        holds_what_came(
            run.result(
                Ok(vms),
                replied,
                Some(PollCollectorView::waiting(expected).taken_all(responses)),
                end,
            ),
            responses,
        ),
{
    let c = PollCollectorView::waiting(expected).taken_all(responses);
    lemma_result_holds_what_came(
        expected,
        responses,
        run.result(Ok(vms), replied, Some(c), end),
    );
}

/// The result of a run whose machines were not followed tells of none that is up and of no
/// phases.
pub proof fn law_unfollowed_result_tells_nothing(
    bulk: BulkRunView,
    decomposed: DecomposedRunView,
    reply: Result<Seq<VmResponseView>, Seq<char>>,
    replied: int,
    end: int,
)
    ensures
        bulk.result(reply, replied, None, end).vm_statuses is None,
        bulk.result(reply, replied, None, end).vm_phase_timings is None,
        decomposed.result(None, end).vm_statuses is None,
        decomposed.result(None, end).vm_phase_timings is None,
{
}

/// The result of a decomposed run names the deployment, the approach and the thread, tells when
/// the run began and how long it took, and has every machine that came, the time of each call
/// and why the run failed, if it did.
pub proof fn law_decomposed_result_tells_the_run(
    run: DecomposedRunView,
    followed: Option<PollCollectorView>,
    end: int,
)
    ensures
        ({
            let r = run.result(followed, end);
            &&& r.config_name == run.config.vm_config.name
            &&& r.approach == "decomposed"@
            &&& r.thread_id == run.thread_id
            &&& r.start_time == run.start
            &&& (run.start <= end ==> r.duration == end - run.start)
            &&& (run.start > end ==> r.duration == 0)
            &&& (r.success <==> run.error is None)
            &&& r.error_message == run.error
            &&& (run.vms.len() == 0 ==> r.vm_responses is None)
            &&& (run.vms.len() > 0 ==> r.vm_responses == Some(run.vms))
            &&& r.individual_timings == Some(run.timings)
        }),
{
}

/// The result of a bulk run names the deployment, the approach and the thread, tells when the run
/// began and how long it took, and has every machine that came or why none did.
pub proof fn law_bulk_result_tells_the_run(
    run: BulkRunView,
    vms: Seq<VmResponseView>,
    reason: Seq<char>,
    replied: int,
    followed: Option<PollCollectorView>,
    end: int,
)
    ensures
        ({
            let good = run.result(Ok(vms), replied, followed, end);
            let bad = run.result(Err(reason), replied, followed, end);
            &&& good.success && good.error_message is None && good.vm_responses == Some(vms)
            &&& !bad.success && bad.error_message == Some(reason) && bad.vm_responses is None
            &&& bad.vm_statuses is None && bad.vm_phase_timings is None
            &&& good.config_name == run.config.vm_config.name && bad.config_name
                == run.config.vm_config.name
            &&& good.approach == "bulk"@ && bad.approach == "bulk"@
            &&& good.thread_id == run.thread_id && bad.thread_id == run.thread_id
            &&& good.start_time == run.start && bad.start_time == run.start
            &&& good.individual_timings is None && bad.individual_timings is None
            &&& (run.start <= end ==> good.duration == end - run.start)
            &&& (run.start > end ==> good.duration == 0)
            &&& (run.start <= replied ==> bad.duration == replied - run.start)
            &&& (run.start > replied ==> bad.duration == 0)
        }),
{
}

/// A collector begins with nothing. An answer counts whatever it says; only one that tells of
/// success adds a machine, as the last one, and its phases.
pub proof fn law_answers_are_collected(c: PollCollectorView, r: VmPollingResponseView, n: nat)
    ensures
        ({
            let begun = PollCollectorView::waiting(n);
            &&& begun.expected == n && begun.received == 0
            &&& begun.statuses.len() == 0 && begun.timings == Map::<
                Seq<char>,
                PhaseTimingsView,
            >::empty()
        }),
        c.taken(r).expected == c.expected,
        c.taken(r).received == c.received + 1,
        !r.success ==> c.taken(r).statuses == c.statuses && c.taken(r).timings == c.timings,
        r.success ==> {
            let s = c.taken(r).statuses.last();
            &&& c.taken(r).statuses.drop_last() == c.statuses
            &&& c.taken(r).statuses.len() == c.statuses.len() + 1
            &&& tells_of(seq![s], seq![r])
            &&& c.taken(r).timings == c.timings.insert(r.vm_id, r.phase_timings)
        },
{
    if r.success {
        assert(c.taken(r).statuses.drop_last() =~= c.statuses);
    }
}

/// A call of the decomposed approach asks for a single machine, whose name is that of the
/// deployment with the number of the call, counted from one; all else is as the deployment has
/// it.
pub proof fn law_call_asks_for_one_machine(d: DeploymentView, i: u32)
    ensures
        ({
            let part = individual(d, i);
            &&& part.instances == 1
            &&& part.vm_config.name == d.vm_config.name + "-"@ + decimal((i + 1) as nat)
            &&& part.vm_config.basic_configuration == d.vm_config.basic_configuration
            &&& part.vm_config.additional_storage == d.vm_config.additional_storage
            &&& part.vm_config.open_ports == d.vm_config.open_ports
            &&& part.vm_config.hostname == d.vm_config.hostname
            &&& part.vm_config.os_image == d.vm_config.os_image
            &&& part.vm_config.ssh_keys == d.vm_config.ssh_keys
            &&& part.datacenter == d.datacenter
            &&& part.max_price_per_epoch_usd == d.max_price_per_epoch_usd
        }),
{
}

/// Each machine that a reply brings is to be deleted in the end, under its id; a failed call
/// brings none.
pub proof fn law_new_machines_are_named(vms: Seq<VmResponseView>, reason: Seq<char>)
    ensures
        ids_of(vms).len() == vms.len(),
        forall|i: int| 0 <= i < vms.len() ==> #[trigger] ids_of(vms)[i] == vms[i].vm_id,
        new_ids(Ok(vms)).len() == vms.len(),
        forall|i: int| 0 <= i < vms.len() ==> #[trigger] new_ids(Ok(vms))[i] == vms[i].vm_id,
        new_ids(Err(reason)).len() == 0,
{
}

/// Each machine of a list is followed, in the order of the list, under its own id and name, for
/// its deployment and approach.
pub proof fn law_each_machine_is_followed(
    vms: Seq<VmResponseView>,
    deployment_name: Seq<char>,
    approach: Seq<char>,
)
    ensures
        ({
            let requests = follow_requests(vms, deployment_name, approach);
            &&& requests.len() == vms.len()
            &&& forall|i: int|
                0 <= i < vms.len() ==> {
                    let q = #[trigger] requests[i];
                    &&& q.vm_id == vms[i].vm_id && q.vm_name == vms[i].vm_name
                    &&& q.deployment_name == deployment_name && q.approach == approach
                }
        }),
{
}

/// A run that has just begun has made no call, brought no machine and not failed.
pub proof fn law_run_begins_with_nothing(
    config: DeploymentView,
    thread_id: Seq<char>,
    start: int,
)
    ensures
        ({
            let run = DecomposedRunView::begun(config, thread_id, start);
            &&& run.config == config && run.thread_id == thread_id && run.start == start
            &&& run.calls == 0 && run.vms.len() == 0 && run.timings.len() == 0
            &&& run.error is None
        }),
{
}

/// An answer counts the call and its time, and adds the machines that it brings behind those that
/// came before. A failed call adds none, and fails the run only if it is the last one and no
/// machine came.
pub proof fn law_answer_adds_its_machines(
    run: DecomposedRunView,
    vms: Seq<VmResponseView>,
    reason: Seq<char>,
    took: nat,
)
    requires
        run.calls < run.config.instances,
    ensures
        ({
            let good = run.answered(Ok(vms), took);
            let bad = run.answered(Err(reason), took);
            let last = run.calls + 1 == run.config.instances;
            &&& good.calls == run.calls + 1 && bad.calls == run.calls + 1
            &&& good.timings == run.timings.push(took) && bad.timings == run.timings.push(took)
            &&& good.vms == run.vms + vms && bad.vms == run.vms
            &&& good.error == run.error
            &&& (last && run.vms.len() == 0 ==> bad.error == Some(reason))
            &&& (!last || run.vms.len() > 0 ==> bad.error == run.error)
            &&& good.config == run.config && bad.config == run.config
            &&& good.thread_id == run.thread_id && bad.thread_id == run.thread_id
            &&& good.start == run.start && bad.start == run.start
        }),
{
}

/// What a run tells before its first call: the thread, the approach, the deployment and how many
/// machines it is to have.
pub proof fn law_start_is_told(config: DeploymentView, thread_id: Seq<char>)
    ensures
        BulkRunView::start_entry(config, thread_id) == LogEntry::Info(
            "[Thread "@ + thread_id + "] "@ + "BULK"@ + ": "@ + "Starting deployment of config '"@
                + config.vm_config.name + "' with "@ + decimal(config.instances as nat)
                + " instances"@,
        ),
        DecomposedRunView::start_entry(config, thread_id) == LogEntry::Info(
            "[Thread "@ + thread_id + "] "@ + "DECOMPOSED"@ + ": "@
                + "Starting deployment of config '"@ + config.vm_config.name + "' with "@ + decimal(
                config.instances as nat,
            ) + " individual API calls"@,
        ),
{
}

/// What a bulk run tells of its call: how long it took, and how many machines came or why none
/// did.
pub proof fn law_bulk_reply_is_told(
    run: BulkRunView,
    vms: Seq<VmResponseView>,
    reason: Seq<char>,
    took: Seq<char>,
)
    ensures
        ({
            let head = "[Thread "@ + run.thread_id + "] "@ + "BULK"@ + ": "@ + "Config '"@
                + run.config.vm_config.name;
            &&& run.reply_entry(Ok(vms), took) == LogEntry::Success(
                head + "' API request successful in "@ + took + "s. REQUESTED "@ + decimal(
                    vms.len(),
                ) + " VMs"@,
            )
            &&& run.reply_entry(Err(reason), took) == LogEntry::Error(
                head + "' failed after "@ + took + "s: "@ + reason,
            )
        }),
{
}

/// What a decomposed run tells of a call: the number of the call and of all calls, the name of
/// its machine, how long it took and why it failed, if it did.
pub proof fn law_decomposed_answer_is_told(
    run: DecomposedRunView,
    vms: Seq<VmResponseView>,
    reason: Seq<char>,
    took: Seq<char>,
)
    ensures
        ({
            let number = decimal((run.calls + 1) as nat);
            let head = "[Thread "@ + run.thread_id + "] "@ + "DECOMPOSED"@ + ": "@ + "VM "@
                + number + "/"@ + decimal(run.config.instances as nat) + " '"@ + (
            run.config.vm_config.name + "-"@ + number);
            &&& run.answer_entry(Ok(vms), took) == LogEntry::Success(
                head + "' REQUESTED in "@ + took + "s"@,
            )
            &&& run.answer_entry(Err(reason), took) == LogEntry::Error(
                head + "' failed in "@ + took + "s: "@ + reason + " - CONTINUING"@,
            )
        }),
{
}

/// How long a call took is told to the microsecond.
pub proof fn law_calls_are_timed_to_the_microsecond(nanos: nat)
    ensures
        micros(nanos) == seconds_written(nanos, 6),
{
}

} // verus!
