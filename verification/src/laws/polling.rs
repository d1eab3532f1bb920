//! What holds of following machines.
use crate::client::{name_in, VmStatusView};
use crate::clock::seconds_written;
use crate::deployment::{LogEntry, PhaseTimingsView, VmPhaseTimings, VmPollingRequestView};
use crate::polling::{
    positions, rate_limited, timed_out, timeout_verdict, verdict_view, without, ActivePoll,
    PollAction, PollActionView, PollerView, Verdict,
};
use crate::text::{decimal, has_part};
use vstd::prelude::*;

verus! {

/// A machine is next in a round.
pub open spec fn in_round<T>(p: PollerView<T>) -> bool {
    p.cursor is Some && p.cursor->0 < p.active.len() <= usize::MAX
}

/// A machine that is next in a round is given up as timed out exactly if more time lies between
/// its request and now than the setting allows, in nanoseconds; otherwise the API is asked about
/// it.
pub proof fn law_timeout_is_the_configured_one<T>(p: PollerView<T>, now: int)
    requires
        in_round(p),
    ensures
        ({
            let i = p.cursor->0 as int;
            let late = now - p.active[i].timings.requested_time > p.settings.timeout_seconds
                * 1_000_000_000;
            let action = p.next(now).2;
            &&& (late ==> action is Reply && action->index == i && action->response.status
                == "Timeout"@ && !action->response.success)
            &&& (!late ==> action == (PollActionView::Ask { vm_id: p.active[i].request.vm_id }))
        }),
{
}

/// Whether a machine has taken too long depends on how long it has taken and on the setting, and
/// on nothing else: it has exactly if the time since the request, in nanoseconds, is more than
/// the setting.
pub proof fn law_too_long_is_longer_than_the_setting(
    t: PhaseTimingsView,
    timeout_seconds: u64,
    now: int,
)
    ensures
        timed_out(t, timeout_seconds, now) <==> now - t.requested_time > timeout_seconds
            * 1_000_000_000,
{
}

/// A machine that is given up as timed out is answered for by itself: with its own name and
/// address of the request, the time that it took and an error that tells it. The log tells it
/// too, and the machine is done with in this round; nothing else changes.
pub proof fn law_timeout_is_told<T>(p: PollerView<T>, now: int)
    requires
        in_round(p),
        p.next(now).2 is Reply,
    ensures
        ({
            let i = p.cursor->0 as int;
            let request = p.active[i].request;
            let waited = seconds_written((now - p.active[i].timings.requested_time) as nat, 1);
            let response = p.next(now).2->response;
            let after = p.next(now).0;
            &&& p.next(now).1 == seq![
                LogEntry::Error(
                    "[POLLING] VM "@ + request.vm_name + " ("@ + request.deployment_name + ") "@
                        + "TIMEOUT after "@ + waited + "s - never launched"@,
                ),
            ]
            &&& response.vm_id == request.vm_id && response.vm_name == request.vm_name
            &&& response.deployment_name == request.deployment_name && response.approach
                == request.approach
            &&& response.error == Some("Timeout after "@ + waited + "s"@)
            &&& response.public_ip is None && response.provider is None
            &&& response.provider_location is None && response.datacenter is None
            &&& response.phase_timings == (PhaseTimingsView {
                total_launch_duration: Some(
                    (now - p.active[i].timings.requested_time) as nat,
                ),
                ..p.active[i].timings
            })
            &&& after.active == p.active && after.settings == p.settings
            &&& after.cursor == Some((i + 1) as usize) && after.last_poll_time
                == p.last_poll_time
            &&& after.completed == p.completed.push(i as usize)
        }),
{
    let i = p.cursor->0 as int;
    assert(p.active.update(i, p.active[i]) =~= p.active);
}

/// Giving up a machine that has taken too long needs no pause, and leaves what is known of its
/// phases as it is.
pub proof fn law_timeout_needs_no_pause(r: VmPollingRequestView, t: PhaseTimingsView, now: int)
    ensures
        timeout_verdict(r, t, now).pause_seconds == 0,
        timeout_verdict(r, t, now).timings == t,
        timeout_verdict(r, t, now).response is Some,
        timeout_verdict(r, t, now).logs.len() == 1,
{
}

/// Asking changes nothing and logs nothing.
pub proof fn law_asking_changes_nothing<T>(p: PollerView<T>, now: int)
    requires
        p.next(now).2 is Ask,
    ensures
        p.next(now).0 == p,
        p.next(now).1.len() == 0,
        p.cursor is Some && p.cursor->0 < p.active.len(),
{
}

/// A round begins exactly if there is a machine to look at and the configured time has gone by
/// since the last one, in nanoseconds. It begins with the first machine, and the log tells how
/// many there are. Otherwise nothing happens.
pub proof fn law_round_begins_after_the_interval<T>(p: PollerView<T>, now: int)
    requires
        p.wf(),
        p.cursor is None,
    ensures
        ({
            let waited = if now > p.last_poll_time {
                now - p.last_poll_time
            } else {
                0
            };
            let due = p.active.len() > 0 && waited >= p.settings.poll_interval_seconds
                * 1_000_000_000;
            let (after, logs, action) = p.next(now);
            &&& (due ==> action is Proceed && after == (PollerView { cursor: Some(0), ..p })
                && logs == seq![
                LogEntry::Info(
                    "[POLLING] Checking status of "@ + decimal(p.active.len()) + " VMs..."@,
                ),
            ])
            &&& (!due ==> action is Rest && after == p && logs.len() == 0)
        }),
{
}

/// The positions below `n` that are not gone, one after the other.
pub open spec fn staying(picked: Seq<int>, n: nat, gone: Set<int>) -> bool {
    &&& forall|j: int, k: int| 0 <= j < k < picked.len() ==> picked[j] < picked[k]
    &&& forall|j: int|
        0 <= j < picked.len() ==> 0 <= #[trigger] picked[j] < n && !gone.contains(picked[j])
    &&& forall|i: int| 0 <= i < n && !gone.contains(i) ==> #[trigger] picked.contains(i)
}

/// What is left of a list when some positions are taken out is what stands at the others, in
/// their order.
pub proof fn law_what_is_not_taken_out_stays<A>(s: Seq<A>, gone: Set<int>) -> (picked: Seq<int>)
    ensures
        staying(picked, s.len(), gone),
        without(s, gone).len() == picked.len(),
        forall|j: int| 0 <= j < picked.len() ==> #[trigger] without(s, gone)[j] == s[picked[j]],
    decreases s.len(),
{
    if s.len() == 0 {
        Seq::empty()
    } else {
        let front = law_what_is_not_taken_out_stays(s.drop_last(), gone);
        let last = s.len() - 1;
        if gone.contains(last) {
            assert forall|i: int| 0 <= i < s.len() && !gone.contains(i) implies #[trigger] front.contains(
                i) by {
                assert(i != last);
            }
            front
        } else {
            let picked = front.push(last);
            assert forall|i: int| 0 <= i < s.len() && !gone.contains(i) implies #[trigger] picked.contains(
                i) by {
                if i == last {
                    assert(picked[front.len() as int] == last);
                } else {
                    assert(front.contains(i));
                    let j = choose|j: int| 0 <= j < front.len() && front[j] == i;
                    assert(picked[j] == i);
                }
            }
            picked
        }
    }
}

/// A round ends after the last machine. The machines that were done with are followed no longer,
/// the others stay in their order with all that is known of them, and the time until the next
/// round runs from now.
pub proof fn law_round_ends_after_the_last<T>(p: PollerView<T>, now: int) -> (picked: Seq<int>)
    requires
        p.wf(),
        p.cursor is Some,
        p.cursor->0 == p.active.len(),
    ensures
        ({
            let (after, logs, action) = p.next(now);
            &&& action is Rest && logs.len() == 0
            &&& after.cursor is None && after.completed.len() == 0
            &&& after.last_poll_time == now && after.settings == p.settings
            &&& after.active.len() == picked.len()
            &&& (forall|j: int, k: int| 0 <= j < k < picked.len() ==> picked[j] < picked[k])
            &&& (forall|j: int|
                0 <= j < picked.len() ==> 0 <= #[trigger] picked[j] < p.active.len()
                    && after.active[j] == p.active[picked[j]])
            &&& (forall|i: int|
                0 <= i < p.active.len() ==> (#[trigger] picked.contains(i)
                    <==> !p.completed.contains(i as usize)))
        }),
{
    let gone = positions(p.completed);
    let picked = law_what_is_not_taken_out_stays(p.active, gone);
    let left = without(p.active, gone);
    assert forall|j: int| 0 <= j < picked.len() implies 0 <= #[trigger] picked[j] < p.active.len()
        && p.next(now).0.active[j] == p.active[picked[j]] by {
        assert(left[j] == p.active[picked[j]]);
    }
    assert forall|i: int| 0 <= i < p.active.len() implies (#[trigger] picked.contains(i)
        <==> !p.completed.contains(i as usize)) by {
        if p.completed.contains(i as usize) {
            let j = choose|j: int| 0 <= j < p.completed.len() && p.completed[j] == i as usize;
            assert(p.completed[j] == i);
            assert(gone.contains(i));
        }
        if gone.contains(i) {
            let j = choose|j: int| 0 <= j < p.completed.len() && #[trigger] p.completed[j] == i;
            assert(p.completed[j] == i as usize);
        }
    }
    picked
}

/// A machine that is followed from now on is the last one, has been through no phase and is
/// answered for where the request says; the others stay.
pub proof fn law_machine_is_taken_in<T>(
    p: PollerView<T>,
    request: VmPollingRequestView,
    reply_to: T,
    now: int,
)
    ensures
        ({
            let after = p.added(request, reply_to, now);
            let new = after.active.last();
            &&& after.active.len() == p.active.len() + 1
            &&& after.active.drop_last() == p.active
            &&& new.request == request && new.reply_to == reply_to
            &&& new.timings == PhaseTimingsView::fresh(now)
            &&& new.timings.requested_time == now && new.timings.active_time is None
            &&& after.settings == p.settings && after.last_poll_time == p.last_poll_time
            &&& after.cursor == p.cursor && after.completed == p.completed
        }),
{
    assert(p.added(request, reply_to, now).active.drop_last() =~= p.active);
}

/// After an answer the round goes on with the machine behind. Of the machine that was asked
/// about, only the phases can change; it is done with exactly if there is something to send. The
/// other machines stay as they are.
pub proof fn law_answer_moves_the_round_on<T>(
    p: PollerView<T>,
    answer: Result<VmStatusView, Seq<char>>,
    now: int,
)
    requires
        in_round(p),
    ensures
        ({
            let i = p.cursor->0 as int;
            let after = p.answered(answer, now);
            let v = p.verdict(answer, now);
            &&& after.cursor == Some((i + 1) as usize)
            &&& after.active.len() == p.active.len()
            &&& (forall|k: int|
                0 <= k < p.active.len() && k != i ==> #[trigger] after.active[k] == p.active[k])
            &&& after.active[i].request == p.active[i].request && after.active[i].reply_to
                == p.active[i].reply_to
            &&& after.active[i].timings == v.timings
            &&& (v.response is Some ==> after.completed == p.completed.push(i as usize))
            &&& (v.response is None ==> after.completed == p.completed)
            &&& after.settings == p.settings && after.last_poll_time == p.last_poll_time
        }),
{
}

/// Since when a machine that is seen launching has been launching.
pub open spec fn launching_since(t: PhaseTimingsView, now: int) -> int {
    if t.launching_entered is Some {
        t.launching_entered->0
    } else {
        now
    }
}

/// A machine that is launching is followed further. It has been launching since it was first seen
/// so, has its address since it was first seen with one, and is stuck once it has been launching
/// for more than three hundred seconds; nothing else of its phases changes.
pub proof fn law_launching_machine_is_followed<T>(p: PollerView<T>, s: VmStatusView, now: int)
    requires
        in_round(p),
        s.status == "Launching"@,
    ensures
        ({
            let t = p.active[p.cursor->0 as int].timings;
            let v = p.verdict(Ok(s), now);
            &&& v.response is None && v.pause_seconds == 0
            &&& v.timings.launching_entered == Some(launching_since(t, now))
            &&& (s.public_ip is Some && t.ip_assigned is None ==> v.timings.ip_assigned == Some(
                now,
            ))
            &&& (s.public_ip is None || t.ip_assigned is Some ==> v.timings.ip_assigned
                == t.ip_assigned)
            &&& v.timings.stuck_in_launching == (t.stuck_in_launching || now - launching_since(
                t,
                now,
            ) > 300 * 1_000_000_000)
            &&& v.timings.requested_time == t.requested_time && v.timings.active_time
                == t.active_time
            &&& v.timings.total_launch_duration == t.total_launch_duration
                && v.timings.time_in_launching == t.time_in_launching
            &&& v.timings.launching_phase_details == t.launching_phase_details
        }),
{
}

/// What is told of a machine that is launching: its address if it has just got one, how long it
/// has been launching and followed, and that it is stuck if it is.
pub proof fn law_launching_machine_is_told_of<T>(p: PollerView<T>, s: VmStatusView, now: int)
    requires
        in_round(p),
        s.status == "Launching"@,
        p.active[p.cursor->0 as int].timings.requested_time <= now,
        launching_since(p.active[p.cursor->0 as int].timings, now) <= now,
    ensures
        ({
            let poll = p.active[p.cursor->0 as int];
            let t = poll.timings;
            let name = "[POLLING] VM "@ + poll.request.vm_name + " ("@
                + poll.request.deployment_name + ") "@;
            let launching = seconds_written((now - launching_since(t, now)) as nat, 1);
            let total = seconds_written((now - t.requested_time) as nat, 1);
            let has_ip = s.public_ip is Some;
            let new_ip = has_ip && t.ip_assigned is None;
            let stuck = now - launching_since(t, now) > 300 * 1_000_000_000;
            let logs = p.verdict(Ok(s), now).logs;
            let at: int = if new_ip {
                1
            } else {
                0
            };
            let end: int = if stuck {
                at + 2
            } else {
                at + 1
            };
            &&& logs.len() == end
            &&& (new_ip ==> logs[0] == LogEntry::Success(
                name + "IP ASSIGNED "@ + s.public_ip->0 + " after "@ + launching
                    + "s in launching"@,
            ))
            &&& (has_ip ==> logs[at] == LogEntry::Info(
                name + "launching "@ + "WITH"@ + " IP ("@ + launching + "s in launching, "@
                    + total + "s total)"@,
            ))
            &&& (!has_ip ==> logs[at] == LogEntry::Info(
                name + "launching "@ + "WITHOUT"@ + " IP ("@ + launching + "s in launching, "@
                    + total + "s total)"@,
            ))
            &&& (stuck && has_ip ==> logs[at + 1] == LogEntry::Error(
                name + "STUCK in launching phase for "@ + launching + "s! IP allocated: "@
                    + "true"@,
            ))
            &&& (stuck && !has_ip ==> logs[at + 1] == LogEntry::Error(
                name + "STUCK in launching phase for "@ + launching + "s! IP allocated: "@
                    + "false"@,
            ))
        }),
{
}

/// A machine that is active is up, unless an address is asked for and it has none: then it is
/// followed further, and the log tells it. Word of a machine that is up says of it what the API
/// says, and tells how long its phases took.
pub proof fn law_active_machine_is_answered_for<T>(p: PollerView<T>, s: VmStatusView, now: int)
    requires
        in_round(p),
        s.status == "Active"@,
    ensures
        ({
            let poll = p.active[p.cursor->0 as int];
            let v = p.verdict(Ok(s), now);
            let up = !p.settings.enable_ip_retrieval || s.public_ip is Some;
            let response = v.response->0;
            &&& v.pause_seconds == 0
            &&& v.timings == poll.timings.active_marked(now)
            &&& v.timings.active_time is Some
            &&& (v.response is Some <==> up)
            &&& (!up ==> v.logs == seq![
                LogEntry::Error(
                    "[POLLING] VM "@ + poll.request.vm_name + " ("@ + poll.request.deployment_name
                        + ") "@ + "is Active but has NO IP! This is unexpected."@,
                ),
            ])
            &&& (up ==> {
                &&& response.success && response.error is None
                &&& response.vm_id == poll.request.vm_id && response.vm_name
                    == poll.request.vm_name
                &&& response.deployment_name == poll.request.deployment_name && response.approach
                    == poll.request.approach
                &&& response.status == "Active"@ && response.public_ip == s.public_ip
                &&& response.provider == s.provider && response.provider_location
                    == s.provider_location
                &&& response.datacenter == s.datacenter
                &&& response.phase_timings == poll.timings.active_marked(now)
            })
        }),
{
    reveal_strlit("Launching");
    reveal_strlit("Active");
    assert("Launching"@.len() != "Active"@.len());
}

/// A part of a message, empty if there is nothing to tell.
pub open spec fn told(label: Seq<char>, value: Option<Seq<char>>) -> Seq<char> {
    if value is Some {
        label + value->0
    } else {
        Seq::empty()
    }
}

/// What is told of a machine that is up: how long it took, its address, its datacenter, its
/// provider and its location, as far as they are known.
pub proof fn law_active_machine_is_told_of<T>(p: PollerView<T>, s: VmStatusView, now: int)
    requires
        in_round(p),
        s.status == "Active"@,
        p.verdict(Ok(s), now).response is Some,
        p.active[p.cursor->0 as int].timings.active_time is None,
        p.active[p.cursor->0 as int].timings.requested_time <= now,
    ensures
        ({
            let poll = p.active[p.cursor->0 as int];
            p.verdict(Ok(s), now).logs == seq![
                LogEntry::Success(
                    "[POLLING] VM "@ + poll.request.vm_name + " FULLY LAUNCHED in "@
                        + seconds_written((now - poll.timings.requested_time) as nat, 1) + "s"@
                        + told(" IP: "@, s.public_ip) + told(
                        " Datacenter: "@,
                        name_in(s.datacenter),
                    ) + told(" Provider: "@, name_in(s.provider)) + told(
                        " Location: "@,
                        name_in(s.provider_location),
                    ),
                ),
            ]
        }),
{
    reveal_strlit("Launching");
    reveal_strlit("Active");
    assert("Launching"@.len() != "Active"@.len());
}

/// A machine with any other status is given up: word of it says what the status is, tells of no
/// address and takes its phases as they are, with the time until now.
pub proof fn law_other_status_ends_it<T>(p: PollerView<T>, s: VmStatusView, now: int)
    requires
        in_round(p),
        s.status != "Launching"@,
        s.status != "Active"@,
        p.active[p.cursor->0 as int].timings.requested_time <= now,
    ensures
        ({
            let poll = p.active[p.cursor->0 as int];
            let took = (now - poll.timings.requested_time) as nat;
            let v = p.verdict(Ok(s), now);
            let response = v.response->0;
            &&& v.response is Some && v.pause_seconds == 0
            &&& v.timings == poll.timings
            &&& v.logs == seq![
                LogEntry::Error(
                    "[POLLING] VM "@ + poll.request.vm_name + " ("@ + poll.request.deployment_name
                        + ") "@ + "failed with status: "@ + s.status + " after "@
                        + seconds_written(took, 1) + "s"@,
                ),
            ]
            &&& !response.success && response.status == s.status
            &&& response.error == Some("Unexpected status: "@ + s.status)
            &&& response.vm_id == poll.request.vm_id && response.vm_name == poll.request.vm_name
            &&& response.deployment_name == poll.request.deployment_name && response.approach
                == poll.request.approach
            &&& response.public_ip is None && response.provider is None
            &&& response.provider_location is None && response.datacenter is None
            &&& response.phase_timings == (PhaseTimingsView {
                total_launch_duration: Some(took),
                ..poll.timings
            })
        }),
{
}

/// When the API asks to be called less often it is left alone for five seconds, and the machine
/// is followed further with its phases as they are. The API asks so exactly if the error names
/// the status for it, by number or in words.
pub proof fn law_rate_limit_is_waited_out<T>(p: PollerView<T>, e: Seq<char>, now: int)
    requires
        in_round(p),
    ensures
        rate_limited(e) <==> has_part(e, "429"@) || has_part(e, "Too Many Requests"@),
        has_part(e, "429"@) || has_part(e, "Too Many Requests"@) ==> {
            let poll = p.active[p.cursor->0 as int];
            let v = p.verdict(Err(e), now);
            &&& v.response is None && v.pause_seconds == 5
            &&& v.timings == poll.timings
            &&& v.logs == seq![
                LogEntry::Info(
                    "[POLLING] Rate limited, will retry VM "@ + poll.request.vm_name + " ("@
                        + poll.request.deployment_name + ")"@,
                ),
            ]
        },
{
}

/// A machine that the API says nothing of for any other reason is given up: word of it gives
/// that reason, tells of no address and takes its phases as they are, with the time until now.
pub proof fn law_other_error_ends_it<T>(p: PollerView<T>, e: Seq<char>, now: int)
    requires
        in_round(p),
        !has_part(e, "429"@),
        !has_part(e, "Too Many Requests"@),
        p.active[p.cursor->0 as int].timings.requested_time <= now,
    ensures
        ({
            let poll = p.active[p.cursor->0 as int];
            let took = (now - poll.timings.requested_time) as nat;
            let v = p.verdict(Err(e), now);
            let response = v.response->0;
            &&& v.response is Some && v.pause_seconds == 0
            &&& v.timings == poll.timings
            &&& v.logs == seq![
                LogEntry::Error(
                    "[POLLING] Failed to get status for VM "@ + poll.request.vm_name + " ("@
                        + poll.request.deployment_name + ") after "@ + seconds_written(took, 1)
                        + "s: "@ + e,
                ),
            ]
            &&& !response.success && response.status == "Error"@ && response.error == Some(e)
            &&& response.vm_id == poll.request.vm_id && response.vm_name == poll.request.vm_name
            &&& response.deployment_name == poll.request.deployment_name && response.approach
                == poll.request.approach
            &&& response.public_ip is None && response.provider is None
            &&& response.provider_location is None && response.datacenter is None
            &&& response.phase_timings == (PhaseTimingsView {
                total_launch_duration: Some(took),
                ..poll.timings
            })
        }),
{
}

/// A poller is sound between rounds if nothing is done with, and in a round if only machines
/// before the next one are, each once and in their order.
pub proof fn law_what_a_sound_poller_is<T>(p: PollerView<T>)
    requires
        p.wf(),
    ensures
        p.cursor is None ==> p.completed.len() == 0,
        p.cursor is Some ==> p.cursor->0 <= p.active.len(),
        p.cursor is Some ==> forall|j: int|
            0 <= j < p.completed.len() ==> #[trigger] p.completed[j] < p.cursor->0,
        p.cursor is Some ==> forall|j: int, k: int|
            0 <= j < k < p.completed.len() ==> p.completed[j] < p.completed[k],
{
}

/// A verdict, a machine that is followed and what is to be done are seen as they were written.
pub proof fn law_verdict_is_seen_whole<T>(
    v: Verdict,
    t: VmPhaseTimings,
    poll: ActivePoll<T>,
    action: PollAction,
)
    ensures
        verdict_view(v, t).timings == t.deep_view(),
        verdict_view(v, t).logs == v.logs.deep_view(),
        verdict_view(v, t).response == v.response.deep_view(),
        verdict_view(v, t).pause_seconds == v.pause_seconds,
        poll.deep_view().request == poll.request.deep_view(),
        poll.deep_view().timings == poll.timings.deep_view(),
        poll.deep_view().reply_to == poll.reply_to,
        action is Rest <==> action.deep_view() is Rest,
        action is Proceed <==> action.deep_view() is Proceed,
        action is Ask <==> action.deep_view() is Ask,
        action is Ask ==> action.deep_view()->vm_id == (action->vm_id)@,
        action is Reply ==> action.deep_view()->index == action->index
            && action.deep_view()->response == (action->response).deep_view(),
{
}

} // verus!
