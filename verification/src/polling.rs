//! Following machines until they are up.
use crate::client::{
    name_in, status_error, status_line, status_reply, status_view, VmStatusResponse, VmStatusView,
};
use crate::clock::{
    at_least, clock_nanos, longer_than, nanos_between, seconds_nanos, seconds_text,
    seconds_written, since,
};
use crate::deployment::{
    no_logs, note, LogEntry, LogMessage, PhaseTimingsView, VmPhaseTimings, VmPollingRequest,
    VmPollingRequestView, VmPollingResponse, VmPollingResponseView,
};
use crate::text::{contains, decimal, decimal_text, has_part, same_text};
use std::time::{Duration, Instant};
use vstd::prelude::*;

verus! {

/// How machines are followed.
#[derive(Debug, Clone, Copy)]
pub struct PollSettings {
    /// How long a machine may take until it is given up.
    pub timeout_seconds: u64,
    /// How long to wait between two rounds.
    pub poll_interval_seconds: u64,
    /// Whether a machine without an IP address is not up yet.
    pub enable_ip_retrieval: bool,
}

/// What follows from one look at a machine.
#[derive(Debug)]
pub struct Verdict {
    pub logs: Vec<LogMessage>,
    /// Given when the machine need not be followed any longer.
    pub response: Option<VmPollingResponse>,
    /// How long to leave the API alone.
    pub pause_seconds: u64,
}

pub struct VerdictView {
    pub timings: PhaseTimingsView,
    pub logs: Seq<LogEntry>,
    pub response: Option<VmPollingResponseView>,
    pub pause_seconds: u64,
}

/// A verdict, together with the phases of the machine after the look.
pub open spec fn verdict_view(v: Verdict, timings: VmPhaseTimings) -> VerdictView {
    VerdictView {
        timings: timings.deep_view(),
        logs: v.logs.deep_view(),
        response: v.response.deep_view(),
        pause_seconds: v.pause_seconds,
    }
}

/// How messages about a machine begin.
pub open spec fn about(r: VmPollingRequestView) -> Seq<char> {
    "[POLLING] VM "@ + r.vm_name + " ("@ + r.deployment_name + ") "@
}

/// What is logged of a machine that has taken too long. Times are in seconds, as they are written.
pub open spec fn timeout_entry(r: VmPollingRequestView, elapsed: Seq<char>) -> LogEntry {
    LogEntry::Error(about(r) + "TIMEOUT after "@ + elapsed + "s - never launched"@)
}

/// Why a machine that has taken too long failed.
pub open spec fn timeout_error(elapsed: Seq<char>) -> Seq<char> {
    "Timeout after "@ + elapsed + "s"@
}

/// What is logged of a machine that has got its IP address.
pub open spec fn ip_entry(r: VmPollingRequestView, ip: Seq<char>, waited: Seq<char>) -> LogEntry {
    LogEntry::Success(about(r) + "IP ASSIGNED "@ + ip + " after "@ + waited + "s in launching"@)
}

/// What is logged of a machine that is launching.
pub open spec fn launching_entry(
    r: VmPollingRequestView,
    has_ip: bool,
    launching: Seq<char>,
    total: Seq<char>,
) -> LogEntry {
    LogEntry::Info(
        about(r) + "launching "@ + (if has_ip {
            "WITH"@
        } else {
            "WITHOUT"@
        }) + " IP ("@ + launching + "s in launching, "@ + total + "s total)"@,
    )
}

/// What is logged of a machine that has been launching for too long.
pub open spec fn stuck_entry(
    r: VmPollingRequestView,
    has_ip: bool,
    launching: Seq<char>,
) -> LogEntry {
    LogEntry::Error(
        about(r) + "STUCK in launching phase for "@ + launching + "s! IP allocated: "@ + (
        if has_ip {
            "true"@
        } else {
            "false"@
        }),
    )
}

/// A part of a message that stands only if there is something to tell.
pub open spec fn detail(label: Seq<char>, value: Option<Seq<char>>) -> Seq<char> {
    match value {
        Some(text) => label + text,
        None => Seq::empty(),
    }
}

/// What is logged of a machine that is up: how long it took, and its address, its datacenter, its
/// provider and where the provider has it, as far as the API tells them.
pub open spec fn launched_entry(
    r: VmPollingRequestView,
    s: VmStatusView,
    total: Seq<char>,
) -> LogEntry {
    LogEntry::Success(
        "[POLLING] VM "@ + r.vm_name + " FULLY LAUNCHED in "@ + total + "s"@ + detail(
            " IP: "@,
            s.public_ip,
        ) + detail(" Datacenter: "@, name_in(s.datacenter)) + detail(
            " Provider: "@,
            name_in(s.provider),
        ) + detail(" Location: "@, name_in(s.provider_location)),
    )
}

/// What is logged of a machine with an unexpected status.
pub open spec fn unexpected_entry(
    r: VmPollingRequestView,
    status: Seq<char>,
    elapsed: Seq<char>,
) -> LogEntry {
    LogEntry::Error(
        about(r) + "failed with status: "@ + status + " after "@ + elapsed + "s"@,
    )
}

/// What is logged of a machine that the API says nothing of.
pub open spec fn error_entry(
    r: VmPollingRequestView,
    error: Seq<char>,
    elapsed: Seq<char>,
) -> LogEntry {
    LogEntry::Error(
        "[POLLING] Failed to get status for VM "@ + r.vm_name + " ("@ + r.deployment_name
            + ") after "@ + elapsed + "s: "@ + error,
    )
}

/// A span in seconds with one digit after the point.
pub open spec fn tenths(nanos: nat) -> Seq<char> {
    seconds_written(nanos, 1)
}

/// A machine that is given up.
pub open spec fn gave_up(
    r: VmPollingRequestView,
    status: Seq<char>,
    error: Seq<char>,
    timings: PhaseTimingsView,
) -> VmPollingResponseView {
    VmPollingResponseView {
        vm_id: r.vm_id,
        vm_name: r.vm_name,
        deployment_name: r.deployment_name,
        approach: r.approach,
        status,
        public_ip: None,
        provider: None,
        provider_location: None,
        datacenter: None,
        success: false,
        error: Some(error),
        phase_timings: timings,
    }
}

/// A machine has taken too long.
pub open spec fn timed_out(timings: PhaseTimingsView, timeout_seconds: u64, now: int) -> bool {
    nanos_between(timings.requested_time, now) > seconds_nanos(timeout_seconds as nat)
}

/// What follows for a machine that has taken too long.
pub open spec fn timeout_verdict(
    r: VmPollingRequestView,
    t: PhaseTimingsView,
    now: int,
) -> VerdictView {
    let elapsed = tenths(nanos_between(t.requested_time, now));
    VerdictView {
        timings: t,
        logs: seq![timeout_entry(r, elapsed)],
        response: Some(gave_up(r, "Timeout"@, timeout_error(elapsed), t.ended(now))),
        pause_seconds: 0,
    }
}

/// The machine has an IP address that it did not have at the look before.
pub open spec fn ip_is_new(t: PhaseTimingsView, s: VmStatusView) -> bool {
    s.public_ip is Some && t.ip_assigned is None
}

/// The phases of a machine that is seen launching, before it is asked whether it is stuck.
pub open spec fn seen_launching(
    t: PhaseTimingsView,
    s: VmStatusView,
    now: int,
) -> PhaseTimingsView {
    if ip_is_new(t, s) {
        t.launching_marked(now).ip_marked(now)
    } else {
        t.launching_marked(now)
    }
}

/// How long a machine may be launching until it counts as stuck, in seconds.
pub const STUCK_AFTER_SECONDS: u64 = 300;

/// What follows for a machine that is launching.
pub open spec fn launching_verdict(
    r: VmPollingRequestView,
    t: PhaseTimingsView,
    s: VmStatusView,
    now: int,
) -> VerdictView {
    let seen = seen_launching(t, s, now);
    let launching = nanos_between(seen.launching_entered->0, now);
    let stuck = launching > seconds_nanos(STUCK_AFTER_SECONDS as nat);
    let ip_logs = if ip_is_new(t, s) {
        seq![ip_entry(r, s.public_ip->0, tenths(seen.launch_to_ip()->0))]
    } else {
        Seq::empty()
    };
    let logs = ip_logs.push(
        launching_entry(
            r,
            s.public_ip is Some,
            tenths(launching),
            tenths(nanos_between(t.requested_time, now)),
        ),
    );
    VerdictView {
        timings: if stuck {
            seen.stuck()
        } else {
            seen
        },
        logs: if stuck {
            logs.push(stuck_entry(r, s.public_ip is Some, tenths(launching)))
        } else {
            logs
        },
        response: None,
        pause_seconds: 0,
    }
}

/// What follows for a machine that is active.
pub open spec fn active_verdict(
    r: VmPollingRequestView,
    t: PhaseTimingsView,
    s: VmStatusView,
    enable_ip_retrieval: bool,
    now: int,
) -> VerdictView {
    let seen = t.active_marked(now);
    if enable_ip_retrieval && s.public_ip is None {
        VerdictView {
            timings: seen,
            logs: seq![
                LogEntry::Error(about(r) + "is Active but has NO IP! This is unexpected."@),
            ],
            response: None,
            pause_seconds: 0,
        }
    } else {
        VerdictView {
            timings: seen,
            logs: seq![launched_entry(r, s, tenths(seen.total()->0))],
            response: Some(
                VmPollingResponseView {
                    vm_id: r.vm_id,
                    vm_name: r.vm_name,
                    deployment_name: r.deployment_name,
                    approach: r.approach,
                    status: s.status,
                    public_ip: s.public_ip,
                    provider: s.provider,
                    provider_location: s.provider_location,
                    datacenter: s.datacenter,
                    success: true,
                    error: None,
                    phase_timings: seen,
                },
            ),
            pause_seconds: 0,
        }
    }
}

/// What follows for a machine with any other status.
pub open spec fn unexpected_verdict(
    r: VmPollingRequestView,
    t: PhaseTimingsView,
    s: VmStatusView,
    now: int,
) -> VerdictView {
    VerdictView {
        timings: t,
        logs: seq![
            unexpected_entry(r, s.status, tenths(nanos_between(t.requested_time, now))),
        ],
        response: Some(
            gave_up(r, s.status, "Unexpected status: "@ + s.status, t.ended(now)),
        ),
        pause_seconds: 0,
    }
}

/// What follows from what the API says of a machine.
pub open spec fn status_verdict(
    r: VmPollingRequestView,
    t: PhaseTimingsView,
    s: VmStatusView,
    enable_ip_retrieval: bool,
    now: int,
) -> VerdictView {
    if s.status == "Launching"@ {
        launching_verdict(r, t, s, now)
    } else if s.status == "Active"@ {
        active_verdict(r, t, s, enable_ip_retrieval, now)
    } else {
        unexpected_verdict(r, t, s, now)
    }
}

/// The API asks to be called less often.
pub open spec fn rate_limited(error: Seq<char>) -> bool {
    has_part(error, "429"@) || has_part(error, "Too Many Requests"@)
}

/// How long to leave the API alone when it asks for it, in seconds.
pub const RATE_LIMIT_PAUSE_SECONDS: u64 = 5;

/// What follows when the API says nothing of a machine.
pub open spec fn error_verdict(
    r: VmPollingRequestView,
    t: PhaseTimingsView,
    error: Seq<char>,
    now: int,
) -> VerdictView {
    if rate_limited(error) {
        VerdictView {
            timings: t,
            logs: seq![
                LogEntry::Info(
                    "[POLLING] Rate limited, will retry VM "@ + r.vm_name + " ("@
                        + r.deployment_name + ")"@,
                ),
            ],
            response: None,
            pause_seconds: RATE_LIMIT_PAUSE_SECONDS,
        }
    } else {
        VerdictView {
            timings: t,
            logs: seq![error_entry(r, error, tenths(nanos_between(t.requested_time, now)))],
            response: Some(gave_up(r, "Error"@, error, t.ended(now))),
            pause_seconds: 0,
        }
    }
}

/// What follows from the API's answer about a machine.
pub open spec fn answer_verdict(
    r: VmPollingRequestView,
    t: PhaseTimingsView,
    answer: Result<VmStatusView, Seq<char>>,
    enable_ip_retrieval: bool,
    now: int,
) -> VerdictView {
    match answer {
        Ok(s) => status_verdict(r, t, s, enable_ip_retrieval, now),
        Err(e) => error_verdict(r, t, e, now),
    }
}

fn about_text(r: &VmPollingRequest) -> (s: String)
    ensures
        s@ == about(r.deep_view()),
{
    "[POLLING] VM ".to_string().concat(r.vm_name.as_str()).concat(" (").concat(
        r.deployment_name.as_str(),
    ).concat(") ")
}

/// The message on a machine that has taken too long. Times are in seconds, as they are written.
pub fn timeout_message(r: &VmPollingRequest, elapsed: &str) -> (m: LogMessage)
    ensures
        m.deep_view() == timeout_entry(r.deep_view(), elapsed@),
{
    LogMessage::Error(
        about_text(r).concat("TIMEOUT after ").concat(elapsed).concat("s - never launched"),
    )
}

/// Why a machine that has taken too long failed.
pub fn timeout_error_text(elapsed: &str) -> (s: String)
    ensures
        s@ == timeout_error(elapsed@),
{
    "Timeout after ".to_string().concat(elapsed).concat("s")
}

/// The message on a machine that has got its IP address.
pub fn ip_message(r: &VmPollingRequest, ip: &str, waited: &str) -> (m: LogMessage)
    ensures
        m.deep_view() == ip_entry(r.deep_view(), ip@, waited@),
{
    LogMessage::Success(
        about_text(r).concat("IP ASSIGNED ").concat(ip).concat(" after ").concat(waited).concat(
            "s in launching",
        ),
    )
}

/// The message on a machine that is launching.
pub fn launching_message(r: &VmPollingRequest, has_ip: bool, launching: &str, total: &str) -> (m:
    LogMessage)
    ensures
        m.deep_view() == launching_entry(r.deep_view(), has_ip, launching@, total@),
{
    let with: &str = if has_ip {
        "WITH"
    } else {
        "WITHOUT"
    };
    LogMessage::Info(
        about_text(r).concat("launching ").concat(with).concat(" IP (").concat(launching).concat(
            "s in launching, ",
        ).concat(total).concat("s total)"),
    )
}

/// The message on a machine that has been launching for too long.
pub fn stuck_message(r: &VmPollingRequest, has_ip: bool, launching: &str) -> (m: LogMessage)
    ensures
        m.deep_view() == stuck_entry(r.deep_view(), has_ip, launching@),
{
    let allocated: &str = if has_ip {
        "true"
    } else {
        "false"
    };
    LogMessage::Error(
        about_text(r).concat("STUCK in launching phase for ").concat(launching).concat(
            "s! IP allocated: ",
        ).concat(allocated),
    )
}

fn detail_text(label: &str, value: &Option<String>) -> (s: String)
    ensures
        s@ == detail(label@, value.deep_view()),
{
    match value {
        Some(text) => label.to_string().concat(text.as_str()),
        None => String::new(),
    }
}

/// The message on a machine that is up.
pub fn launched_message(r: &VmPollingRequest, status: &VmStatusResponse, total: &str) -> (m:
    LogMessage)
    ensures
        m.deep_view() == launched_entry(r.deep_view(), status.deep_view(), total@),
{
    LogMessage::Success(
        "[POLLING] VM ".to_string().concat(r.vm_name.as_str()).concat(
            " FULLY LAUNCHED in ",
        ).concat(total).concat("s").concat(
            detail_text(" IP: ", &status.public_ip).as_str(),
        ).concat(detail_text(" Datacenter: ", &status.datacenter_name()).as_str()).concat(
            detail_text(" Provider: ", &status.provider_name()).as_str(),
        ).concat(detail_text(" Location: ", &status.location_name()).as_str()),
    )
}

/// The message on a machine with an unexpected status.
pub fn unexpected_message(r: &VmPollingRequest, status: &str, elapsed: &str) -> (m: LogMessage)
    ensures
        m.deep_view() == unexpected_entry(r.deep_view(), status@, elapsed@),
{
    LogMessage::Error(
        about_text(r).concat("failed with status: ").concat(status).concat(" after ").concat(
            elapsed,
        ).concat("s"),
    )
}

/// The message on a machine that the API says nothing of.
pub fn error_message(r: &VmPollingRequest, error: &str, elapsed: &str) -> (m: LogMessage)
    ensures
        m.deep_view() == error_entry(r.deep_view(), error@, elapsed@),
{
    LogMessage::Error(
        "[POLLING] Failed to get status for VM ".to_string().concat(r.vm_name.as_str()).concat(
            " (",
        ).concat(r.deployment_name.as_str()).concat(") after ").concat(elapsed).concat(
            "s: ",
        ).concat(error),
    )
}

fn give_up(
    r: &VmPollingRequest,
    status: String,
    error: String,
    phase_timings: VmPhaseTimings,
) -> (response: VmPollingResponse)
    ensures
        response.deep_view() == gave_up(
            r.deep_view(),
            status@,
            error@,
            phase_timings.deep_view(),
        ),
{
    VmPollingResponse {
        vm_id: r.vm_id.clone(),
        vm_name: r.vm_name.clone(),
        deployment_name: r.deployment_name.clone(),
        approach: r.approach.clone(),
        status,
        public_ip: None,
        provider: None,
        provider_location: None,
        datacenter: None,
        success: false,
        error: Some(error),
        phase_timings,
    }
}

/// Whether a machine has taken too long.
pub fn is_timed_out(timings: &VmPhaseTimings, timeout_seconds: u64, now: Instant) -> (r: bool)
    ensures
        r == timed_out(timings.deep_view(), timeout_seconds, clock_nanos(now)),
{
    longer_than(since(now, timings.requested_time), timeout_seconds)
}

/// Gives up a machine that has taken too long.
pub fn on_timeout(
    r: &VmPollingRequest,
    timings: &VmPhaseTimings,
    now: Instant,
) -> (verdict: Verdict)
    ensures
        verdict_view(verdict, *timings) == timeout_verdict(
            r.deep_view(),
            timings.deep_view(),
            clock_nanos(now),
        ),
{
    let elapsed: String = seconds_text(since(now, timings.requested_time), 1);
    let mut logs: Vec<LogMessage> = no_logs();
    note(&mut logs, timeout_message(r, elapsed.as_str()));
    let error: String = timeout_error_text(elapsed.as_str());
    let response: VmPollingResponse = give_up(
        r,
        "Timeout".to_string(),
        error,
        timings.ended_at(now),
    );
    Verdict { logs, response: Some(response), pause_seconds: 0 }
}

fn on_launching(
    r: &VmPollingRequest,
    timings: &mut VmPhaseTimings,
    status: &VmStatusResponse,
    now: Instant,
) -> (verdict: Verdict)
    ensures
        verdict_view(verdict, *final(timings)) == launching_verdict(
            r.deep_view(),
            old(timings).deep_view(),
            status.deep_view(),
            clock_nanos(now),
        ),
{
    let mut logs: Vec<LogMessage> = no_logs();
    timings.mark_launching_entered_at(now);
    if let Some(ip) = &status.public_ip {
        if timings.ip_assigned.is_none() {
            timings.mark_ip_assigned_at(now);
            let waited: Duration = match timings.get_launch_to_ip_duration() {
                Some(d) => d,
                None => since(now, now),
            };
            note(&mut logs, ip_message(r, ip.as_str(), seconds_text(waited, 1).as_str()));
        }
    }
    let launching: Duration = match timings.launching_entered {
        Some(t) => since(now, t),
        None => since(now, now),
    };
    note(
        &mut logs,
        launching_message(
            r,
            status.public_ip.is_some(),
            seconds_text(launching, 1).as_str(),
            seconds_text(since(now, timings.requested_time), 1).as_str(),
        ),
    );
    if longer_than(launching, STUCK_AFTER_SECONDS) {
        timings.stuck_in_launching = true;
        note(
            &mut logs,
            stuck_message(r, status.public_ip.is_some(), seconds_text(launching, 1).as_str()),
        );
    }
    Verdict { logs, response: None, pause_seconds: 0 }
}

fn on_active(
    r: &VmPollingRequest,
    timings: &mut VmPhaseTimings,
    status: VmStatusResponse,
    enable_ip_retrieval: bool,
    now: Instant,
) -> (verdict: Verdict)
    ensures
        verdict_view(verdict, *final(timings)) == active_verdict(
            r.deep_view(),
            old(timings).deep_view(),
            status.deep_view(),
            enable_ip_retrieval,
            clock_nanos(now),
        ),
{
    let mut logs: Vec<LogMessage> = no_logs();
    timings.mark_active_at(now);
    if enable_ip_retrieval && status.public_ip.is_none() {
        note(
            &mut logs,
            LogMessage::Error(
                about_text(r).concat("is Active but has NO IP! This is unexpected."),
            ),
        );
        return Verdict { logs, response: None, pause_seconds: 0 };
    }
    let total: Duration = match timings.get_total_duration() {
        Some(d) => d,
        None => since(now, now),
    };
    note(&mut logs, launched_message(r, &status, seconds_text(total, 1).as_str()));
    let response: VmPollingResponse = VmPollingResponse {
        vm_id: r.vm_id.clone(),
        vm_name: r.vm_name.clone(),
        deployment_name: r.deployment_name.clone(),
        approach: r.approach.clone(),
        status: status.status,
        public_ip: status.public_ip,
        provider: status.provider,
        provider_location: status.provider_location,
        datacenter: status.datacenter,
        success: true,
        error: None,
        phase_timings: timings.clone(),
    };
    Verdict { logs, response: Some(response), pause_seconds: 0 }
}

fn on_unexpected(
    r: &VmPollingRequest,
    timings: &VmPhaseTimings,
    status: VmStatusResponse,
    now: Instant,
) -> (verdict: Verdict)
    ensures
        verdict_view(verdict, *timings) == unexpected_verdict(
            r.deep_view(),
            timings.deep_view(),
            status.deep_view(),
            clock_nanos(now),
        ),
{
    let mut logs: Vec<LogMessage> = no_logs();
    note(
        &mut logs,
        unexpected_message(
            r,
            status.status.as_str(),
            seconds_text(since(now, timings.requested_time), 1).as_str(),
        ),
    );
    let error: String = "Unexpected status: ".to_string().concat(status.status.as_str());
    let response: VmPollingResponse = give_up(r, status.status, error, timings.ended_at(now));
    Verdict { logs, response: Some(response), pause_seconds: 0 }
}

/// Draws the conclusion from what the API says of a machine.
pub fn on_status(
    r: &VmPollingRequest,
    timings: &mut VmPhaseTimings,
    status: VmStatusResponse,
    enable_ip_retrieval: bool,
    now: Instant,
) -> (verdict: Verdict)
    ensures
        verdict_view(verdict, *final(timings)) == status_verdict(
            r.deep_view(),
            old(timings).deep_view(),
            status.deep_view(),
            enable_ip_retrieval,
            clock_nanos(now),
        ),
{
    if same_text(&status.status, "Launching") {
        on_launching(r, timings, &status, now)
    } else if same_text(&status.status, "Active") {
        on_active(r, timings, status, enable_ip_retrieval, now)
    } else {
        on_unexpected(r, timings, status, now)
    }
}

/// Draws the conclusion from the API saying nothing of a machine.
pub fn on_error(
    r: &VmPollingRequest,
    timings: &VmPhaseTimings,
    error: String,
    now: Instant,
) -> (verdict: Verdict)
    ensures
        verdict_view(verdict, *timings) == error_verdict(
            r.deep_view(),
            timings.deep_view(),
            error@,
            clock_nanos(now),
        ),
{
    let mut logs: Vec<LogMessage> = no_logs();
    if contains(error.as_str(), "429") || contains(error.as_str(), "Too Many Requests") {
        note(
            &mut logs,
            LogMessage::Info(
                "[POLLING] Rate limited, will retry VM ".to_string().concat(
                    r.vm_name.as_str(),
                ).concat(" (").concat(r.deployment_name.as_str()).concat(")"),
            ),
        );
        return Verdict { logs, response: None, pause_seconds: RATE_LIMIT_PAUSE_SECONDS };
    }
    note(
        &mut logs,
        error_message(
            r,
            error.as_str(),
            seconds_text(since(now, timings.requested_time), 1).as_str(),
        ),
    );
    let response: VmPollingResponse = give_up(
        r,
        "Error".to_string(),
        error,
        timings.ended_at(now),
    );
    Verdict { logs, response: Some(response), pause_seconds: 0 }
}

/// Draws the conclusion from the API's answer about a machine.
pub fn on_answer(
    r: &VmPollingRequest,
    timings: &mut VmPhaseTimings,
    answer: Result<VmStatusResponse, String>,
    enable_ip_retrieval: bool,
    now: Instant,
) -> (verdict: Verdict)
    ensures
        verdict_view(verdict, *final(timings)) == answer_verdict(
            r.deep_view(),
            old(timings).deep_view(),
            status_view(answer),
            enable_ip_retrieval,
            clock_nanos(now),
        ),
{
    match answer {
        Ok(status) => on_status(r, timings, status, enable_ip_retrieval, now),
        Err(error) => on_error(r, timings, error, now),
    }
}

/// What is left of `s` when the positions in `gone` are taken out.
pub open spec fn without<A>(s: Seq<A>, gone: Set<int>) -> Seq<A>
    decreases s.len(),
{
    if s.len() == 0 {
        s
    } else {
        let front = without(s.drop_last(), gone);
        if gone.contains(s.len() - 1) {
            front
        } else {
            front.push(s.last())
        }
    }
}

proof fn lemma_without_none<A>(s: Seq<A>, gone: Set<int>)
    requires
        forall|k: int| 0 <= k < s.len() ==> !gone.contains(k),
    ensures
        without(s, gone) == s,
    decreases s.len(),
{
    if s.len() > 0 {
        lemma_without_none(s.drop_last(), gone);
        assert(s.drop_last().push(s.last()) =~= s);
    }
}

/// Taking out one more position that lies before all that are gone.
proof fn lemma_without_one_more<A>(s: Seq<A>, gone: Set<int>, i: int)
    requires
        0 <= i < s.len(),
        forall|k: int| gone.contains(k) ==> i < k,
    ensures
        i < without(s, gone).len(),
        without(s, gone.insert(i)) == without(s, gone).remove(i),
    decreases s.len(),
{
    let last = s.len() - 1;
    if i == last {
        lemma_without_none(s, gone);
        lemma_without_none(s.drop_last(), gone.insert(i));
        assert(s.remove(i) =~= s.drop_last());
    } else {
        lemma_without_one_more(s.drop_last(), gone, i);
        let front = without(s.drop_last(), gone);
        if !gone.contains(last) {
            assert(front.push(s.last()).remove(i) =~= front.remove(i).push(s.last()));
        }
    }
}

/// The positions in a list.
pub open spec fn positions(list: Seq<usize>) -> Set<int> {
    Set::new(|k: int| exists|j: int| 0 <= j < list.len() && #[trigger] list[j] == k)
}

/// The positions in a list rise.
pub open spec fn rising(list: Seq<usize>) -> bool {
    forall|i: int, j: int| 0 <= i < j < list.len() ==> list[i] < list[j]
}

/// Takes the given positions out of a list, the last one first so that the others stay valid.
pub fn remove_positions<A>(items: &mut Vec<A>, completed: &Vec<usize>)
    requires
        rising(completed@),
        forall|j: int| 0 <= j < completed.len() ==> completed@[j] < old(items).len(),
    ensures
        final(items)@ == without(old(items)@, positions(completed@)),
{
    let ghost before = items@;
    let mut n: usize = completed.len();
    proof {
        assert(positions(completed@.skip(n as int)) =~= Set::empty());
        lemma_without_none(before, Set::empty());
    }
    while n > 0
        invariant
            n <= completed.len(),
            rising(completed@),
            forall|j: int| 0 <= j < completed.len() ==> completed@[j] < before.len(),
            items@ == without(before, positions(completed@.skip(n as int))),
        decreases n,
    {
        n -= 1;
        let i: usize = completed[n];
        proof {
            let later = completed@.skip(n + 1);
            let gone = positions(later);
            let tail = completed@.skip(n as int);
            assert forall|k: int| gone.contains(k) implies i < k by {
                let j = choose|j: int|
                    0 <= j < later.len() && #[trigger] later[j] == k;
                assert(completed@[n + 1 + j] == k);
            }
            lemma_without_one_more(before, gone, i as int);
            assert forall|k: int| positions(tail).contains(k) == gone.insert(
                i as int,
            ).contains(k) by {
                assert(tail[0] == i);
                if gone.contains(k) {
                    let j = choose|j: int|
                        0 <= j < later.len() && #[trigger] later[j] == k;
                    assert(tail[j + 1] == k);
                }
                if positions(tail).contains(k) {
                    let j = choose|j: int| 0 <= j < tail.len() && #[trigger] tail[j] == k;
                    if j > 0 {
                        assert(later[j - 1] == k);
                    }
                }
            }
            assert(positions(tail) =~= gone.insert(i as int));
        }
        let _gone: A = items.remove(i);
    }
    assert(completed@.skip(0) =~= completed@);
}

/// A machine that is being followed, and where to send word of it.
pub struct ActivePoll<T> {
    pub request: VmPollingRequest,
    pub timings: VmPhaseTimings,
    pub reply_to: T,
}

pub struct ActivePollView<T> {
    pub request: VmPollingRequestView,
    pub timings: PhaseTimingsView,
    pub reply_to: T,
}

impl<T> DeepView for ActivePoll<T> {
    type V = ActivePollView<T>;

    open spec fn deep_view(&self) -> ActivePollView<T> {
        ActivePollView {
            request: self.request.deep_view(),
            timings: self.timings.deep_view(),
            reply_to: self.reply_to,
        }
    }
}

/// What there is to do next about the machines that are being followed.
#[derive(Debug)]
pub enum PollAction {
    /// Nothing for the moment: wait a little, then take in new requests.
    Rest,
    /// Go on at once.
    Proceed,
    /// Ask the API about this machine and pass its answer on.
    Ask { vm_id: String },
    /// Send word of the machine at this position, then go on.
    Reply { index: usize, response: VmPollingResponse },
}

pub enum PollActionView {
    Rest,
    Proceed,
    Ask { vm_id: Seq<char> },
    Reply { index: int, response: VmPollingResponseView },
}

impl DeepView for PollAction {
    type V = PollActionView;

    open spec fn deep_view(&self) -> PollActionView {
        match self {
            PollAction::Rest => PollActionView::Rest,
            PollAction::Proceed => PollActionView::Proceed,
            PollAction::Ask { vm_id } => PollActionView::Ask { vm_id: vm_id@ },
            PollAction::Reply { index, response } => PollActionView::Reply {
                index: *index as int,
                response: response.deep_view(),
            },
        }
    }
}

/// The machines that are being followed. They are looked at in rounds, one after the other.
pub struct VmPoller<T> {
    settings: PollSettings,
    active: Vec<ActivePoll<T>>,
    last_poll_time: Instant,
    cursor: Option<usize>,
    completed: Vec<usize>,
}

pub struct PollerView<T> {
    pub settings: PollSettings,
    pub active: Seq<ActivePollView<T>>,
    /// When the last round ended.
    pub last_poll_time: int,
    /// The machine that is next in the round, if a round is under way.
    pub cursor: Option<usize>,
    /// The machines of the round that need not be followed any longer.
    pub completed: Seq<usize>,
}

impl<T> DeepView for VmPoller<T> {
    type V = PollerView<T>;

    closed spec fn deep_view(&self) -> PollerView<T> {
        PollerView {
            settings: self.settings,
            active: self.active.deep_view(),
            last_poll_time: clock_nanos(self.last_poll_time),
            cursor: self.cursor,
            completed: self.completed@,
        }
    }
}

impl<T> PollerView<T> {
    /// Between rounds nothing is settled; in a round only machines before the next one are.
    pub open spec fn wf(self) -> bool {
        match self.cursor {
            Some(i) => {
                &&& i <= self.active.len() <= usize::MAX
                &&& rising(self.completed)
                &&& forall|j: int| 0 <= j < self.completed.len() ==> self.completed[j] < i
            },
            None => self.completed.len() == 0 && self.active.len() <= usize::MAX,
        }
    }

    /// Another machine is followed, as the last one.
    pub open spec fn added(
        self,
        request: VmPollingRequestView,
        reply_to: T,
        now: int,
    ) -> PollerView<T> {
        PollerView {
            active: self.active.push(
                ActivePollView { request, timings: PhaseTimingsView::fresh(now), reply_to },
            ),
            ..self
        }
    }

    /// It is time for a round.
    pub open spec fn due(self, now: int) -> bool {
        self.active.len() > 0 && nanos_between(self.last_poll_time, now) >= seconds_nanos(
            self.settings.poll_interval_seconds as nat,
        )
    }

    /// The machine that is next has been looked at.
    pub open spec fn looked_at(self, timings: PhaseTimingsView, done: bool) -> PollerView<T> {
        let i = self.cursor->0;
        PollerView {
            active: self.active.update(
                i as int,
                ActivePollView { timings, ..self.active[i as int] },
            ),
            cursor: Some((i + 1) as usize),
            completed: if done {
                self.completed.push(i)
            } else {
                self.completed
            },
            ..self
        }
    }

    /// The round is over: the machines that are settled are no longer followed.
    pub open spec fn round_over(self, now: int) -> PollerView<T> {
        PollerView {
            active: without(self.active, positions(self.completed)),
            last_poll_time: now,
            cursor: None,
            completed: Seq::empty(),
            ..self
        }
    }

    /// What there is to do next, what is logged on the way and what the machines are then.
    pub open spec fn next(self, now: int) -> (PollerView<T>, Seq<LogEntry>, PollActionView) {
        match self.cursor {
            None => if self.due(now) {
                (
                    PollerView { cursor: Some(0), ..self },
                    seq![
                        LogEntry::Info(
                            "[POLLING] Checking status of "@ + decimal(self.active.len())
                                + " VMs..."@,
                        ),
                    ],
                    PollActionView::Proceed,
                )
            } else {
                (self, Seq::empty(), PollActionView::Rest)
            },
            Some(i) => if i >= self.active.len() {
                (self.round_over(now), Seq::empty(), PollActionView::Rest)
            } else {
                let poll = self.active[i as int];
                if timed_out(poll.timings, self.settings.timeout_seconds, now) {
                    let v = timeout_verdict(poll.request, poll.timings, now);
                    (
                        self.looked_at(v.timings, true),
                        v.logs,
                        PollActionView::Reply { index: i as int, response: v.response->0 },
                    )
                } else {
                    (self, Seq::empty(), PollActionView::Ask { vm_id: poll.request.vm_id })
                }
            },
        }
    }

    /// What follows from the API's answer about the machine that is next.
    pub open spec fn verdict(
        self,
        answer: Result<VmStatusView, Seq<char>>,
        now: int,
    ) -> VerdictView {
        let poll = self.active[self.cursor->0 as int];
        answer_verdict(
            poll.request,
            poll.timings,
            answer,
            self.settings.enable_ip_retrieval,
            now,
        )
    }

    /// The machines after the API's answer about the one that is next.
    pub open spec fn answered(
        self,
        answer: Result<VmStatusView, Seq<char>>,
        now: int,
    ) -> PollerView<T> {
        let v = self.verdict(answer, now);
        self.looked_at(v.timings, v.response is Some)
    }
}

impl<T> VmPoller<T> {
    /// No machine is followed yet.
    pub fn new(settings: PollSettings, now: Instant) -> (r: Self)
        ensures
            r.deep_view() == (PollerView::<T> {
                settings,
                active: Seq::empty(),
                last_poll_time: clock_nanos(now),
                cursor: None,
                completed: Seq::empty(),
            }),
            r.deep_view().wf(),
    {
        let r: VmPoller<T> = VmPoller {
            settings,
            active: Vec::new(),
            last_poll_time: now,
            cursor: None,
            completed: Vec::new(),
        };
        assert(r.active.deep_view() =~= Seq::empty());
        r
    }

    /// Whether new machines can be taken in.
    pub fn between_rounds(&self) -> (r: bool)
        ensures
            r == (self.deep_view().cursor is None),
    {
        self.cursor.is_none()
    }

    /// How many machines are followed.
    pub fn len(&self) -> (r: usize)
        ensures
            r == self.deep_view().active.len(),
    {
        self.active.len()
    }

    /// Where to send word of the machine at a position.
    pub fn reply_to(&self, index: usize) -> (r: &T)
        requires
            index < self.deep_view().active.len(),
        ensures
            *r == self.deep_view().active[index as int].reply_to,
    {
        &self.active[index].reply_to
    }

    /// Follows another machine from now on.
    pub fn add(&mut self, request: VmPollingRequest, reply_to: T, now: Instant) -> (
        log: LogMessage)
        requires
            old(self).deep_view().wf(),
            old(self).deep_view().cursor is None,
            old(self).deep_view().active.len() < usize::MAX,
        ensures
            final(self).deep_view() == old(self).deep_view().added(
                request.deep_view(),
                reply_to,
                clock_nanos(now),
            ),
            final(self).deep_view().wf(),
            log.deep_view() == LogEntry::Info(
                "[POLLING] Added VM "@ + request.vm_name@ + " ("@ + request.vm_id@
                    + ") to polling queue"@,
            ),
    {
        let log: LogMessage = LogMessage::Info(
            "[POLLING] Added VM ".to_string().concat(request.vm_name.as_str()).concat(
                " (",
            ).concat(request.vm_id.as_str()).concat(") to polling queue"),
        );
        let ghost before = self.active.deep_view();
        let timings: VmPhaseTimings = VmPhaseTimings::requested_at(now);
        let poll: ActivePoll<T> = ActivePoll { request, timings, reply_to };
        let ghost added = poll.deep_view();
        self.active.push(poll);
        assert(self.active.deep_view() =~= before.push(added));
        log
    }

    /// Decides what there is to do next.
    pub fn step(&mut self, now: Instant) -> (r: (Vec<LogMessage>, PollAction))
        requires
            old(self).deep_view().wf(),
        ensures
            (final(self).deep_view(), r.0.deep_view(), r.1.deep_view()) == old(
                self,
            ).deep_view().next(clock_nanos(now)),
            final(self).deep_view().wf(),
    {
        let mut logs: Vec<LogMessage> = no_logs();
        match self.cursor {
            None => {
                if self.active.len() > 0 && at_least(
                    since(now, self.last_poll_time),
                    self.settings.poll_interval_seconds,
                ) {
                    note(
                        &mut logs,
                        LogMessage::Info(
                            "[POLLING] Checking status of ".to_string().concat(
                                decimal_text(self.active.len() as u64).as_str(),
                            ).concat(" VMs..."),
                        ),
                    );
                    self.cursor = Some(0);
                    (logs, PollAction::Proceed)
                } else {
                    (logs, PollAction::Rest)
                }
            },
            Some(i) => {
                if i >= self.active.len() {
                    let ghost before = self.active@;
                    proof {
                        lemma_without_len(before, positions(self.completed@));
                        lemma_without_mapped(before, positions(self.completed@));
                        assert(self.active.deep_view() =~= before.map_values(
                            |p: ActivePoll<T>| p.deep_view(),
                        ));
                    }
                    remove_positions(&mut self.active, &self.completed);
                    assert(self.active.deep_view() =~= self.active@.map_values(
                        |p: ActivePoll<T>| p.deep_view(),
                    ));
                    self.completed = Vec::new();
                    self.cursor = None;
                    self.last_poll_time = now;
                    (logs, PollAction::Rest)
                } else if is_timed_out(
                    &self.active[i].timings,
                    self.settings.timeout_seconds,
                    now,
                ) {
                    let verdict: Verdict = on_timeout(
                        &self.active[i].request,
                        &self.active[i].timings,
                        now,
                    );
                    assert(self.active.deep_view() =~= self.active.deep_view().update(
                        i as int,
                        self.active.deep_view()[i as int],
                    ));
                    self.completed.push(i);
                    self.cursor = Some(i + 1);
                    match verdict.response {
                        Some(response) => (
                            verdict.logs,
                            PollAction::Reply { index: i, response },
                        ),
                        None => (verdict.logs, PollAction::Proceed),
                    }
                } else {
                    (logs, PollAction::Ask { vm_id: self.active[i].request.vm_id.clone() })
                }
            },
        }
    }

    /// Takes in the API's answer about the machine that is next in the round. The result says
    /// where that machine stands and what follows.
    pub fn answer(&mut self, answer: Result<VmStatusResponse, String>, now: Instant) -> (r: (
        usize,
        Verdict,
    ))
        requires
            old(self).deep_view().wf(),
            old(self).deep_view().cursor matches Some(i) && i < old(
                self,
            ).deep_view().active.len(),
        ensures
            Some(r.0) == old(self).deep_view().cursor,
            ({
                let v = old(self).deep_view().verdict(status_view(answer), clock_nanos(now));
                &&& r.1.logs.deep_view() == v.logs
                &&& r.1.response.deep_view() == v.response
                &&& r.1.pause_seconds == v.pause_seconds
            }),
            final(self).deep_view() == old(self).deep_view().answered(
                status_view(answer),
                clock_nanos(now),
            ),
            final(self).deep_view().wf(),
    {
        let i: usize = match self.cursor {
            Some(i) => i,
            None => 0,
        };
        let ghost before = self.active.deep_view();
        let mut timings: VmPhaseTimings = self.active[i].timings.clone();
        let verdict: Verdict = on_answer(
            &self.active[i].request,
            &mut timings,
            answer,
            self.settings.enable_ip_retrieval,
            now,
        );
        self.active[i].timings = timings;
        if verdict.response.is_some() {
            self.completed.push(i);
        }
        self.cursor = Some(i + 1);
        assert(self.active.deep_view() =~= before.update(
            i as int,
            ActivePollView { timings: timings.deep_view(), ..before[i as int] },
        ));
        (i, verdict)
    }
}

proof fn lemma_without_len<A>(s: Seq<A>, gone: Set<int>)
    ensures
        without(s, gone).len() <= s.len(),
    decreases s.len(),
{
    if s.len() > 0 {
        lemma_without_len(s.drop_last(), gone);
    }
}

proof fn lemma_without_mapped<T>(s: Seq<ActivePoll<T>>, gone: Set<int>)
    ensures
        without(s.map_values(|p: ActivePoll<T>| p.deep_view()), gone) == without(
            s,
            gone,
        ).map_values(|p: ActivePoll<T>| p.deep_view()),
    decreases s.len(),
{
    let f = |p: ActivePoll<T>| p.deep_view();
    let mapped = s.map_values(f);
    if s.len() == 0 {
        assert(mapped =~= s.map_values(f));
    } else {
        lemma_without_mapped(s.drop_last(), gone);
        assert(mapped.drop_last() =~= s.drop_last().map_values(f));
        if !gone.contains(s.len() - 1) {
            let front = without(s.drop_last(), gone);
            assert(front.push(s.last()).map_values(f) =~= front.map_values(f).push(f(s.last())));
        }
    }
}

/// How many of the first `n` positions are not gone.
pub open spec fn kept(gone: Set<int>, n: nat) -> nat
    decreases n,
{
    if n == 0 {
        0
    } else if gone.contains(n - 1) {
        kept(gone, (n - 1) as nat)
    } else {
        kept(gone, (n - 1) as nat) + 1
    }
}

/// At the end of a round a machine is dropped exactly if it was settled in that round; all others
/// stay, in the order in which they were.
pub proof fn law_only_settled_machines_leave<T>(p: PollerView<T>, now: int)
    requires
        p.wf(),
    ensures
        p.round_over(now).active.len() == kept(positions(p.completed), p.active.len()),
        forall|i: int|
            0 <= i < p.active.len() && !p.completed.contains(i as usize)
                ==> #[trigger] p.active[i] == p.round_over(now).active[kept(
                positions(p.completed),
                i as nat,
            ) as int],
        forall|i: int, j: int|
            0 <= i < j <= p.active.len() && !p.completed.contains(i as usize)
                ==> #[trigger] kept(positions(p.completed), i as nat) < #[trigger] kept(
                positions(p.completed),
                j as nat,
            ),
{
    assert forall|i: int, j: int|
        0 <= i < j <= p.active.len() && !p.completed.contains(
            i as usize,
        ) implies #[trigger] kept(positions(p.completed), i as nat) < #[trigger] kept(
        positions(p.completed),
        j as nat,
    ) by {
        assert(!positions(p.completed).contains(i));
        lemma_kept_rises(positions(p.completed), i as nat, j as nat);
    }
    lemma_kept(p.active, positions(p.completed));
    assert forall|i: int|
        0 <= i < p.active.len() && !p.completed.contains(
            i as usize,
        ) implies #[trigger] p.active[i] == p.round_over(now).active[kept(
        positions(p.completed),
        i as nat,
    ) as int] by {
        assert(!positions(p.completed).contains(i));
    }
}

proof fn lemma_kept_rises(gone: Set<int>, i: nat, j: nat)
    requires
        i < j,
        !gone.contains(i as int),
    ensures
        kept(gone, i) < kept(gone, j),
    decreases j,
{
    if i < j - 1 {
        lemma_kept_rises(gone, i, (j - 1) as nat);
    }
}

proof fn lemma_kept<A>(s: Seq<A>, gone: Set<int>)
    ensures
        without(s, gone).len() == kept(gone, s.len()),
        forall|i: int|
            #![trigger s[i]]
            #![trigger kept(gone, i as nat)]
            0 <= i < s.len() && !gone.contains(i) ==> kept(gone, i as nat) < kept(gone, s.len())
                && s[i] == without(s, gone)[kept(gone, i as nat) as int],
    decreases s.len(),
{
    if s.len() > 0 {
        let front = s.drop_last();
        lemma_kept(front, gone);
        assert forall|i: int|
            #![trigger s[i]]
            #![trigger kept(gone, i as nat)]
            0 <= i < s.len() && !gone.contains(i) implies kept(gone, i as nat) < kept(
            gone,
            s.len(),
        ) && s[i] == without(s, gone)[kept(gone, i as nat) as int] by {
            if i < front.len() {
                assert(front[i] == s[i]);
            }
        }
    }
}

/// A machine is settled in a round exactly if word of it is sent then: a machine that is
/// looked at is either answered for or stays pending, never both and never neither.
pub proof fn law_settled_means_answered<T>(
    p: PollerView<T>,
    answer: Result<VmStatusView, Seq<char>>,
    now: int,
)
    requires
        p.wf(),
        p.cursor is Some,
        p.cursor->0 < p.active.len(),
    ensures
        p.answered(answer, now).completed.contains(p.cursor->0) <==> p.verdict(
            answer,
            now,
        ).response is Some,
        p.next(now).0.completed.contains(p.cursor->0) <==> p.next(now).2 is Reply,
{
    let i = p.cursor->0;
    let done = p.completed.push(i);
    assert(done[done.len() - 1] == i);
}

/// Only a machine that the API calls active counts as launched, and where an IP address is asked
/// for, only if it has one. The answer then names that machine and tells its address, its
/// provider and where it is.
pub proof fn law_launched_means_active(
    r: VmPollingRequestView,
    t: PhaseTimingsView,
    answer: Result<VmStatusView, Seq<char>>,
    enable_ip_retrieval: bool,
    now: int,
)
    ensures
        ({
            let v = answer_verdict(r, t, answer, enable_ip_retrieval, now);
            v.response matches Some(response) ==> {
                &&& response.vm_id == r.vm_id
                &&& response.success ==> {
                    &&& answer is Ok
                    &&& answer->Ok_0.status == "Active"@
                    &&& enable_ip_retrieval ==> answer->Ok_0.public_ip is Some
                    &&& response.public_ip == answer->Ok_0.public_ip
                    &&& response.provider == answer->Ok_0.provider
                    &&& response.provider_location == answer->Ok_0.provider_location
                    &&& response.datacenter == answer->Ok_0.datacenter
                }
            }
        }),
{
}

/// A machine that is still launching, or active without the IP address that is asked for, is
/// followed further.
pub proof fn law_pending_machines_are_followed(
    r: VmPollingRequestView,
    t: PhaseTimingsView,
    s: VmStatusView,
    enable_ip_retrieval: bool,
    now: int,
)
    requires
        s.status == "Launching"@ || (s.status == "Active"@ && enable_ip_retrieval
            && s.public_ip is None),
    ensures
        status_verdict(r, t, s, enable_ip_retrieval, now).response is None,
{
    reveal_strlit("Launching");
    reveal_strlit("Active");
}

/// A machine that is active, with the IP address where one is asked for, counts as launched.
pub proof fn law_active_machines_are_launched(
    r: VmPollingRequestView,
    t: PhaseTimingsView,
    s: VmStatusView,
    enable_ip_retrieval: bool,
    now: int,
)
    requires
        s.status == "Active"@,
        enable_ip_retrieval ==> s.public_ip is Some,
    ensures
        status_verdict(r, t, s, enable_ip_retrieval, now).response matches Some(response)
            && response.success && response.phase_timings.active_time is Some,
{
    reveal_strlit("Launching");
    reveal_strlit("Active");
}

/// When the API answers that it is called too often, the machine is asked for again later, after
/// a pause: it is not given up.
pub proof fn law_rate_limit_is_no_failure(
    r: VmPollingRequestView,
    t: PhaseTimingsView,
    text: Seq<char>,
    parsed: Result<Seq<VmStatusView>, Seq<char>>,
    enable_ip_retrieval: bool,
    now: int,
)
    ensures
        ({
            let answer = status_reply(r.vm_id, 429, text, parsed);
            let v = answer_verdict(r, t, answer, enable_ip_retrieval, now);
            &&& v.response is None
            &&& v.timings == t
            &&& v.pause_seconds == RATE_LIMIT_PAUSE_SECONDS
        }),
{
    let error = status_error(status_line(429), text);
    reveal_strlit("429");
    reveal_strlit("API Error: ");
    reveal_with_fuel(decimal, 3);
    let n = "API Error: "@.len() as int;
    assert(error.subrange(n, n + 3) =~= "429"@);
    assert(has_part(error, "429"@));
}

/// A machine that has taken too long is given up at the next look, whatever the API would say.
pub proof fn law_late_machines_are_given_up<T>(p: PollerView<T>, now: int)
    requires
        p.wf(),
        p.cursor is Some,
        p.cursor->0 < p.active.len(),
        timed_out(p.active[p.cursor->0 as int].timings, p.settings.timeout_seconds, now),
    ensures
        p.next(now).2 matches PollActionView::Reply { index, response } && index == p.cursor->0
            && !response.success && response.vm_id
            == p.active[p.cursor->0 as int].request.vm_id,
{
}

} // verus!
