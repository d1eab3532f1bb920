//! What holds of messages, of the phases of a launch and of what is recorded of them.
use crate::clock::{
    clock_nanos, nanos_between, run_id_pattern, seconds_nanos, span_nanos, stamp_pattern,
};
use crate::deployment::{
    banner, DeploymentResult, LaunchingPhaseCheck, LogEntry, LogMessage, PhaseTimingsView,
    VmPhaseTimings, VmPollingRequest, VmPollingResponse,
};
use crate::json::json_of;
use vstd::prelude::*;

verus! {

/// Time runs forward: from a moment to a later one it is their distance, and from a moment to an
/// earlier one no time at all. A second has a thousand million nanoseconds.
pub proof fn law_time_runs_forward(a: int, b: int, seconds: nat)
    ensures
        a <= b ==> a + nanos_between(a, b) == b,
        a >= b ==> nanos_between(a, b) == 0,
        seconds_nanos(seconds) == seconds * 1_000_000_000,
{
}

/// A run is named by the date and the time of day, to the second; people read them with the year
/// first and are told that they are in UTC.
pub proof fn law_how_moments_are_written()
    ensures
        run_id_pattern() == "%Y%m%d_%H%M%S"@,
        stamp_pattern() == "%Y-%m-%d %H:%M:%S UTC"@,
{
}

/// A title stands between two lines of eighty equals signs.
pub proof fn law_title_stands_between_rulers(title: Seq<char>)
    ensures
        banner(title).len() == 3,
        banner(title)[1] == LogEntry::Info(title),
        banner(title)[0] is Info && (banner(title)[0]->Info_0).len() == 80 && forall|i: int|
            0 <= i < 80 ==> #[trigger] (banner(title)[0]->Info_0)[i] == '=',
        banner(title)[2] == banner(title)[0],
{
}

/// A machine that has just been requested has been through no phase.
pub proof fn law_requested_machine_is_fresh(now: int)
    ensures
        ({
            let t = PhaseTimingsView::fresh(now);
            &&& t.requested_time == now
            &&& t.launching_entered is None
            &&& t.ip_assigned is None
            &&& t.active_time is None
            &&& t.total_launch_duration is None
            &&& t.time_in_launching is None
            &&& !t.stuck_in_launching
            &&& t.launching_phase_details.len() == 0
        }),
{
}

/// A machine that is seen launching for the first time has been launching since then; nothing
/// else about it changes.
pub proof fn law_launching_is_marked(t: PhaseTimingsView, now: int)
    ensures
        ({
            let m = t.launching_marked(now);
            &&& (t.launching_entered is None ==> m.launching_entered == Some(now))
            &&& (t.launching_entered is Some ==> m.launching_entered == t.launching_entered)
            &&& m.requested_time == t.requested_time && m.ip_assigned == t.ip_assigned
            &&& m.active_time == t.active_time && m.total_launch_duration
                == t.total_launch_duration
            &&& m.time_in_launching == t.time_in_launching && m.stuck_in_launching
                == t.stuck_in_launching
            &&& m.launching_phase_details == t.launching_phase_details
        }),
{
}

/// A machine that is seen with an address for the first time has had it since then; nothing else
/// about it changes.
pub proof fn law_address_is_marked(t: PhaseTimingsView, now: int)
    ensures
        ({
            let m = t.ip_marked(now);
            &&& (t.ip_assigned is None ==> m.ip_assigned == Some(now))
            &&& (t.ip_assigned is Some ==> m.ip_assigned == t.ip_assigned)
            &&& m.requested_time == t.requested_time && m.launching_entered
                == t.launching_entered
            &&& m.active_time == t.active_time && m.total_launch_duration
                == t.total_launch_duration
            &&& m.time_in_launching == t.time_in_launching && m.stuck_in_launching
                == t.stuck_in_launching
            &&& m.launching_phase_details == t.launching_phase_details
        }),
{
}

/// A machine that is seen active for the first time has been active since then, which fixes how
/// long the launch took and how long the machine was launching; nothing else about it changes. A
/// machine that was active before stays as it is.
pub proof fn law_activity_is_marked(t: PhaseTimingsView, now: int)
    ensures
        ({
            let m = t.active_marked(now);
            &&& (t.active_time is Some ==> m == t)
            &&& (t.active_time is None ==> m.active_time == Some(now))
            &&& (t.active_time is None && t.requested_time <= now ==> m.total_launch_duration
                == Some((now - t.requested_time) as nat))
            &&& (t.active_time is None && t.requested_time > now ==> m.total_launch_duration
                == Some(0nat))
            &&& (t.active_time is None && t.launching_entered is None ==> m.time_in_launching
                == t.time_in_launching)
            &&& (t.active_time is None && t.launching_entered is Some && t.launching_entered->0
                <= now ==> m.time_in_launching == Some((now - t.launching_entered->0) as nat))
            &&& (t.active_time is None && t.launching_entered is Some && t.launching_entered->0
                > now ==> m.time_in_launching == Some(0nat))
            &&& m.requested_time == t.requested_time && m.launching_entered
                == t.launching_entered
            &&& m.ip_assigned == t.ip_assigned && m.stuck_in_launching == t.stuck_in_launching
            &&& m.launching_phase_details == t.launching_phase_details
        }),
{
}

/// A machine that is given up has taken the time until then; one that is stuck is marked so.
/// Nothing else about it changes.
pub proof fn law_end_is_marked(t: PhaseTimingsView, now: int)
    ensures
        ({
            let m = t.ended(now);
            &&& (t.requested_time <= now ==> m.total_launch_duration == Some(
                (now - t.requested_time) as nat,
            ))
            &&& (t.requested_time > now ==> m.total_launch_duration == Some(0nat))
            &&& m == (PhaseTimingsView { total_launch_duration: m.total_launch_duration, ..t })
            &&& t.stuck() == (PhaseTimingsView { stuck_in_launching: true, ..t })
        }),
{
}

/// The time between two phases is the distance of their moments, as soon as both were reached;
/// the whole launch took what was recorded, or else the time until the machine was active.
pub proof fn law_phases_are_measured(t: PhaseTimingsView)
    requires
        t.in_order(),
    ensures
        t.request_to_launch() is Some <==> t.launching_entered is Some,
        t.launching_entered is Some ==> t.request_to_launch()->0 == t.launching_entered->0
            - t.requested_time,
        t.launch_to_ip() is Some <==> t.launching_entered is Some && t.ip_assigned is Some,
        t.launching_entered is Some && t.ip_assigned is Some ==> t.launch_to_ip()->0
            == t.ip_assigned->0 - t.launching_entered->0,
        t.ip_to_active() is Some <==> t.ip_assigned is Some && t.active_time is Some,
        t.ip_assigned is Some && t.active_time is Some ==> t.ip_to_active()->0 == t.active_time->0
            - t.ip_assigned->0,
        t.total() is Some <==> t.total_launch_duration is Some || t.active_time is Some,
        t.total_launch_duration is Some ==> t.total()->0 == t.total_launch_duration->0,
        t.active_time is Some ==> t.total()->0 == t.active_time->0 - t.requested_time,
{
}

/// A phase that seems to end before it began took no time; without a record the launch took the
/// time until the machine was active.
pub proof fn law_no_phase_takes_less_than_no_time(t: PhaseTimingsView)
    ensures
        t.launching_entered is Some && t.launching_entered->0 < t.requested_time
            ==> t.request_to_launch() == Some(0nat),
        t.launching_entered is Some && t.ip_assigned is Some && t.ip_assigned->0
            < t.launching_entered->0 ==> t.launch_to_ip() == Some(0nat),
        t.ip_assigned is Some && t.active_time is Some && t.active_time->0 < t.ip_assigned->0
            ==> t.ip_to_active() == Some(0nat),
        t.total_launch_duration is None && t.active_time is Some && t.active_time->0
            < t.requested_time ==> t.total() == Some(0nat),
        t.total_launch_duration is None && t.active_time is Some && t.active_time->0
            >= t.requested_time ==> t.total() == Some((t.active_time->0 - t.requested_time) as nat),
        t.launching_entered is Some && t.launching_entered->0 >= t.requested_time
            ==> t.request_to_launch() == Some((t.launching_entered->0 - t.requested_time) as nat),
        t.launching_entered is Some && t.ip_assigned is Some && t.ip_assigned->0
            >= t.launching_entered->0 ==> t.launch_to_ip() == Some(
            (t.ip_assigned->0 - t.launching_entered->0) as nat,
        ),
        t.ip_assigned is Some && t.active_time is Some && t.active_time->0 >= t.ip_assigned->0
            ==> t.ip_to_active() == Some((t.active_time->0 - t.ip_assigned->0) as nat),
{
}

/// What it means for the phases to be in order: none was reached before the request, and none
/// before the phase that it follows.
pub proof fn law_what_order_means(t: PhaseTimingsView)
    requires
        t.in_order(),
    ensures
        t.launching_entered is Some ==> t.requested_time <= t.launching_entered->0,
        t.ip_assigned is Some ==> t.launching_entered is Some && t.launching_entered->0
            <= t.ip_assigned->0,
        t.active_time is Some ==> t.requested_time <= t.active_time->0,
        t.active_time is Some && t.launching_entered is Some ==> t.launching_entered->0
            <= t.active_time->0,
        t.active_time is Some && t.ip_assigned is Some ==> t.ip_assigned->0 <= t.active_time->0,
        t.active_time is Some ==> t.total_launch_duration == Some(
            (t.active_time->0 - t.requested_time) as nat,
        ),
{
}

/// A message is seen as it was written.
pub proof fn law_message_is_seen_whole(m: LogMessage)
    ensures
        m is Info <==> m.deep_view() is Info,
        m is Success <==> m.deep_view() is Success,
        m is Error <==> m.deep_view() is Error,
        m is Shutdown <==> m.deep_view() is Shutdown,
        m is Info ==> m.deep_view()->Info_0 == (m->Info_0)@,
        m is Success ==> m.deep_view()->Success_0 == (m->Success_0)@,
        m is Error ==> m.deep_view()->Error_0 == (m->Error_0)@,
{
}

/// The phases of a launch are seen as they were recorded.
pub proof fn law_phases_are_seen_whole(t: VmPhaseTimings, check: LaunchingPhaseCheck)
    ensures
        ({
            let seen = t.deep_view();
            &&& seen.requested_time == clock_nanos(t.requested_time)
            &&& (seen.launching_entered is Some <==> t.launching_entered is Some)
            &&& (t.launching_entered is Some ==> seen.launching_entered->0 == clock_nanos(
                t.launching_entered->0,
            ))
            &&& (seen.ip_assigned is Some <==> t.ip_assigned is Some)
            &&& (t.ip_assigned is Some ==> seen.ip_assigned->0 == clock_nanos(t.ip_assigned->0))
            &&& (seen.active_time is Some <==> t.active_time is Some)
            &&& (t.active_time is Some ==> seen.active_time->0 == clock_nanos(t.active_time->0))
            &&& (seen.total_launch_duration is Some <==> t.total_launch_duration is Some)
            &&& (t.total_launch_duration is Some ==> seen.total_launch_duration->0 == span_nanos(
                t.total_launch_duration->0,
            ))
            &&& (seen.time_in_launching is Some <==> t.time_in_launching is Some)
            &&& (t.time_in_launching is Some ==> seen.time_in_launching->0 == span_nanos(
                t.time_in_launching->0,
            ))
            &&& seen.stuck_in_launching == t.stuck_in_launching
            &&& seen.launching_phase_details.len() == t.launching_phase_details@.len()
            &&& (forall|i: int|
                0 <= i < t.launching_phase_details@.len()
                    ==> #[trigger] seen.launching_phase_details[i]
                    == t.launching_phase_details@[i].deep_view())
            &&& check.deep_view().timestamp == clock_nanos(check.timestamp)
            &&& check.deep_view().elapsed_since_launch == span_nanos(check.elapsed_since_launch)
            &&& check.deep_view().has_ip == check.has_ip
            &&& check.deep_view().status == check.status@
        }),
{
}

/// A request to follow a machine, and how following it ended, are seen as they were written.
pub proof fn law_following_is_seen_whole(q: VmPollingRequest, r: VmPollingResponse)
    ensures
        q.deep_view().vm_id == q.vm_id@ && q.deep_view().vm_name == q.vm_name@,
        q.deep_view().deployment_name == q.deployment_name@ && q.deep_view().approach
            == q.approach@,
        r.deep_view().vm_id == r.vm_id@ && r.deep_view().vm_name == r.vm_name@,
        r.deep_view().deployment_name == r.deployment_name@ && r.deep_view().approach
            == r.approach@,
        r.deep_view().status == r.status@ && r.deep_view().success == r.success,
        r.deep_view().public_ip is Some <==> r.public_ip is Some,
        r.public_ip is Some ==> r.deep_view().public_ip->0 == r.public_ip->0@,
        r.deep_view().error is Some <==> r.error is Some,
        r.error is Some ==> r.deep_view().error->0 == r.error->0@,
        r.deep_view().provider is Some <==> r.provider is Some,
        r.provider is Some ==> r.deep_view().provider->0 == json_of(r.provider->0),
        r.deep_view().provider_location is Some <==> r.provider_location is Some,
        r.provider_location is Some ==> r.deep_view().provider_location->0 == json_of(
            r.provider_location->0,
        ),
        r.deep_view().datacenter is Some <==> r.datacenter is Some,
        r.datacenter is Some ==> r.deep_view().datacenter->0 == json_of(r.datacenter->0),
        r.deep_view().phase_timings == r.phase_timings.deep_view(),
{
}

/// The result of a run is seen as it was recorded.
pub proof fn law_result_is_seen_whole(r: DeploymentResult)
    ensures
        ({
            let seen = r.deep_view();
            &&& seen.config_name == r.config_name@ && seen.approach == r.approach@
            &&& seen.start_time == clock_nanos(r.start_time)
            &&& seen.duration == span_nanos(r.duration)
            &&& seen.success == r.success && seen.thread_id == r.thread_id@
            &&& (seen.vm_responses is Some <==> r.vm_responses is Some)
            &&& (r.vm_responses is Some ==> seen.vm_responses->0 == r.vm_responses->0.deep_view())
            &&& (seen.vm_statuses is Some <==> r.vm_statuses is Some)
            &&& (r.vm_statuses is Some ==> seen.vm_statuses->0 == r.vm_statuses->0.deep_view())
            &&& (seen.error_message is Some <==> r.error_message is Some)
            &&& (r.error_message is Some ==> seen.error_message->0 == r.error_message->0@)
            &&& (seen.individual_timings is Some <==> r.individual_timings is Some)
            &&& (r.individual_timings is Some ==> seen.individual_timings->0.len()
                == r.individual_timings->0@.len() && forall|i: int|
                0 <= i < seen.individual_timings->0.len()
                    ==> #[trigger] seen.individual_timings->0[i] == span_nanos(
                    r.individual_timings->0@[i],
                ))
            &&& (seen.vm_phase_timings is Some <==> r.vm_phase_timings is Some)
            &&& (r.vm_phase_timings is Some ==> seen.vm_phase_timings->0
                == r.vm_phase_timings->0.deep_view())
        }),
{
}

} // verus!
