//! What a deployment is made of: messages, phases of a launch, requests to follow a machine and
//! the result of a run.
use crate::client::{VmResponse, VmResponseView, VmStatusResponse, VmStatusView};
use crate::clock::{
    clock_nanos, clock_reading, nanos_between, opt_clock, opt_span, read_clock, since, span_nanos,
    spans,
};
use crate::json::{opt_json, Json};
use crate::text::{ruler, ruler_text};
use serde_json::Value;
use std::time::{Duration, Instant};
use vstd::prelude::*;

verus! {

/// A message for the log.
#[derive(Debug)]
pub enum LogMessage {
    Info(String),
    Success(String),
    Error(String),
    /// The log ends here.
    Shutdown,
}

/// What a message for the log says.
pub enum LogEntry {
    Info(Seq<char>),
    Success(Seq<char>),
    Error(Seq<char>),
    Shutdown,
}

impl DeepView for LogMessage {
    type V = LogEntry;

    open spec fn deep_view(&self) -> LogEntry {
        match self {
            LogMessage::Info(s) => LogEntry::Info(s@),
            LogMessage::Success(s) => LogEntry::Success(s@),
            LogMessage::Error(s) => LogEntry::Error(s@),
            LogMessage::Shutdown => LogEntry::Shutdown,
        }
    }
}

/// An empty list of messages.
pub fn no_logs() -> (logs: Vec<LogMessage>)
    ensures
        logs.deep_view() == Seq::<LogEntry>::empty(),
{
    Vec::new()
}

/// Adds a message to a list of messages.
pub fn note(logs: &mut Vec<LogMessage>, message: LogMessage)
    ensures
        final(logs).deep_view() == old(logs).deep_view().push(message.deep_view()),
{
    let ghost before = logs.deep_view();
    logs.push(message);
    assert(logs.deep_view() =~= before.push(message.deep_view()));
}

/// A title between two rulers.
pub open spec fn banner(title: Seq<char>) -> Seq<LogEntry> {
    seq![LogEntry::Info(ruler(80)), LogEntry::Info(title), LogEntry::Info(ruler(80))]
}

/// Adds a title between two rulers.
pub fn add_banner(logs: &mut Vec<LogMessage>, title: &str)
    ensures
        final(logs).deep_view() == old(logs).deep_view() + banner(title@),
{
    let ghost before = logs.deep_view();
    note(logs, LogMessage::Info(ruler_text(80)));
    note(logs, LogMessage::Info(title.to_string()));
    note(logs, LogMessage::Info(ruler_text(80)));
    assert(logs.deep_view() =~= before + banner(title@));
}

/// The phases that a machine goes through from the request until it is active.
#[derive(Debug)]
pub struct VmPhaseTimings {
    pub requested_time: Instant,
    pub launching_entered: Option<Instant>,
    pub ip_assigned: Option<Instant>,
    pub active_time: Option<Instant>,
    pub total_launch_duration: Option<Duration>,
    pub time_in_launching: Option<Duration>,
    pub stuck_in_launching: bool,
    pub launching_phase_details: Vec<LaunchingPhaseCheck>,
}

/// One look at a machine that is launching.
#[derive(Debug)]
pub struct LaunchingPhaseCheck {
    pub timestamp: Instant,
    pub elapsed_since_launch: Duration,
    pub has_ip: bool,
    pub status: String,
}

/// The phases of a launch: moments on the clock's time line and spans, in nanoseconds.
pub struct PhaseTimingsView {
    pub requested_time: int,
    pub launching_entered: Option<int>,
    pub ip_assigned: Option<int>,
    pub active_time: Option<int>,
    pub total_launch_duration: Option<nat>,
    pub time_in_launching: Option<nat>,
    pub stuck_in_launching: bool,
    pub launching_phase_details: Seq<LaunchingPhaseCheckView>,
}

pub struct LaunchingPhaseCheckView {
    pub timestamp: int,
    pub elapsed_since_launch: nat,
    pub has_ip: bool,
    pub status: Seq<char>,
}

impl DeepView for LaunchingPhaseCheck {
    type V = LaunchingPhaseCheckView;

    open spec fn deep_view(&self) -> LaunchingPhaseCheckView {
        LaunchingPhaseCheckView {
            timestamp: clock_nanos(self.timestamp),
            elapsed_since_launch: span_nanos(self.elapsed_since_launch),
            has_ip: self.has_ip,
            status: self.status@,
        }
    }
}

impl DeepView for VmPhaseTimings {
    type V = PhaseTimingsView;

    open spec fn deep_view(&self) -> PhaseTimingsView {
        PhaseTimingsView {
            requested_time: clock_nanos(self.requested_time),
            launching_entered: opt_clock(self.launching_entered),
            ip_assigned: opt_clock(self.ip_assigned),
            active_time: opt_clock(self.active_time),
            total_launch_duration: opt_span(self.total_launch_duration),
            time_in_launching: opt_span(self.time_in_launching),
            stuck_in_launching: self.stuck_in_launching,
            launching_phase_details: self.launching_phase_details.deep_view(),
        }
    }
}

impl PhaseTimingsView {
    /// The machine has just been requested.
    pub open spec fn fresh(now: int) -> PhaseTimingsView {
        PhaseTimingsView {
            requested_time: now,
            launching_entered: None,
            ip_assigned: None,
            active_time: None,
            total_launch_duration: None,
            time_in_launching: None,
            stuck_in_launching: false,
            launching_phase_details: Seq::empty(),
        }
    }

    /// The machine is seen launching: the first time counts.
    pub open spec fn launching_marked(self, now: int) -> PhaseTimingsView {
        if self.launching_entered is None {
            PhaseTimingsView { launching_entered: Some(now), ..self }
        } else {
            self
        }
    }

    /// The machine is seen with an IP address: the first time counts.
    pub open spec fn ip_marked(self, now: int) -> PhaseTimingsView {
        if self.ip_assigned is None {
            PhaseTimingsView { ip_assigned: Some(now), ..self }
        } else {
            self
        }
    }

    /// The machine is seen active: the first time counts, and fixes how long the launch took.
    pub open spec fn active_marked(self, now: int) -> PhaseTimingsView {
        if self.active_time is None {
            PhaseTimingsView {
                active_time: Some(now),
                total_launch_duration: Some(nanos_between(self.requested_time, now)),
                time_in_launching: match self.launching_entered {
                    Some(t) => Some(nanos_between(t, now)),
                    None => self.time_in_launching,
                },
                ..self
            }
        } else {
            self
        }
    }

    /// The machine has been launching for too long.
    pub open spec fn stuck(self) -> PhaseTimingsView {
        PhaseTimingsView { stuck_in_launching: true, ..self }
    }

    /// The machine is given up.
    pub open spec fn ended(self, now: int) -> PhaseTimingsView {
        PhaseTimingsView {
            total_launch_duration: Some(nanos_between(self.requested_time, now)),
            ..self
        }
    }

    /// From the request until the machine was seen launching.
    pub open spec fn request_to_launch(self) -> Option<nat> {
        match self.launching_entered {
            Some(t) => Some(nanos_between(self.requested_time, t)),
            None => None,
        }
    }

    /// From when the machine was seen launching until it had an IP address.
    pub open spec fn launch_to_ip(self) -> Option<nat> {
        match (self.launching_entered, self.ip_assigned) {
            (Some(t), Some(u)) => Some(nanos_between(t, u)),
            _ => None,
        }
    }

    /// From when the machine had an IP address until it was active.
    pub open spec fn ip_to_active(self) -> Option<nat> {
        match (self.ip_assigned, self.active_time) {
            (Some(t), Some(u)) => Some(nanos_between(t, u)),
            _ => None,
        }
    }

    /// The whole launch: as it was fixed, or else from the request until the machine was active.
    pub open spec fn total(self) -> Option<nat> {
        match (self.total_launch_duration, self.active_time) {
            (Some(d), _) => Some(d),
            (None, Some(t)) => Some(nanos_between(self.requested_time, t)),
            (None, None) => None,
        }
    }

    /// Each phase that has been reached was reached after the phases before it.
    pub open spec fn in_order(self) -> bool {
        &&& self.launching_entered matches Some(t) ==> self.requested_time <= t
        &&& self.ip_assigned matches Some(u) ==> self.launching_entered matches Some(t) && t <= u
        &&& self.active_time matches Some(w) ==> {
            &&& self.requested_time <= w
            &&& self.launching_entered matches Some(t) ==> t <= w
            &&& self.ip_assigned matches Some(u) ==> u <= w
            &&& self.total_launch_duration == Some(nanos_between(self.requested_time, w))
        }
    }
}

impl VmPhaseTimings {
    /// A machine that is requested now.
    pub fn new() -> (r: Self)
        ensures
            exists|t: Instant| #[trigger]
                clock_reading(t) && r.deep_view() == PhaseTimingsView::fresh(clock_nanos(t)),
    {
        let t: Instant = read_clock();
        VmPhaseTimings::requested_at(t)
    }

    /// A machine that was requested at `t`.
    pub fn requested_at(t: Instant) -> (r: Self)
        ensures
            r.deep_view() == PhaseTimingsView::fresh(clock_nanos(t)),
    {
        let r: VmPhaseTimings = VmPhaseTimings {
            requested_time: t,
            launching_entered: None,
            ip_assigned: None,
            active_time: None,
            total_launch_duration: None,
            time_in_launching: None,
            stuck_in_launching: false,
            launching_phase_details: Vec::new(),
        };
        assert(r.launching_phase_details.deep_view() =~= Seq::empty());
        r
    }

    pub fn get_request_to_launch_duration(&self) -> (r: Option<Duration>)
        ensures
            opt_span(r) == self.deep_view().request_to_launch(),
    {
        match self.launching_entered {
            Some(t) => Some(since(t, self.requested_time)),
            None => None,
        }
    }

    pub fn get_launch_to_ip_duration(&self) -> (r: Option<Duration>)
        ensures
            opt_span(r) == self.deep_view().launch_to_ip(),
    {
        match (self.launching_entered, self.ip_assigned) {
            (Some(t), Some(u)) => Some(since(u, t)),
            _ => None,
        }
    }

    pub fn get_ip_to_active_duration(&self) -> (r: Option<Duration>)
        ensures
            opt_span(r) == self.deep_view().ip_to_active(),
    {
        match (self.ip_assigned, self.active_time) {
            (Some(t), Some(u)) => Some(since(u, t)),
            _ => None,
        }
    }

    pub fn get_total_duration(&self) -> (r: Option<Duration>)
        ensures
            opt_span(r) == self.deep_view().total(),
    {
        match (self.total_launch_duration, self.active_time) {
            (Some(d), _) => Some(d),
            (None, Some(t)) => Some(since(t, self.requested_time)),
            (None, None) => None,
        }
    }

    /// The machine has an IP address now.
    pub fn mark_ip_assigned(&mut self)
        ensures
            exists|t: Instant| #[trigger]
                clock_reading(t) && final(self).deep_view() == old(self).deep_view().ip_marked(
                    clock_nanos(t),
                ),
    {
        let t: Instant = read_clock();
        self.mark_ip_assigned_at(t);
    }

    /// The machine had an IP address at `t`.
    pub fn mark_ip_assigned_at(&mut self, t: Instant)
        ensures
            final(self).deep_view() == old(self).deep_view().ip_marked(clock_nanos(t)),
    {
        if self.ip_assigned.is_none() {
            self.ip_assigned = Some(t);
        }
    }

    /// The machine is active now.
    pub fn mark_active(&mut self)
        ensures
            exists|t: Instant| #[trigger]
                clock_reading(t) && final(self).deep_view() == old(self).deep_view().active_marked(
                    clock_nanos(t),
                ),
    {
        let t: Instant = read_clock();
        self.mark_active_at(t);
    }

    /// The machine was active at `t`.
    pub fn mark_active_at(&mut self, t: Instant)
        ensures
            final(self).deep_view() == old(self).deep_view().active_marked(clock_nanos(t)),
    {
        if self.active_time.is_none() {
            self.active_time = Some(t);
            self.total_launch_duration = Some(since(t, self.requested_time));
            if let Some(launching_time) = self.launching_entered {
                self.time_in_launching = Some(since(t, launching_time));
            }
        }
    }

    /// The machine is launching now.
    pub fn mark_launching_entered(&mut self)
        ensures
            exists|t: Instant| #[trigger]
                clock_reading(t) && final(self).deep_view() == old(self).deep_view().launching_marked(
                    clock_nanos(t),
                ),
    {
        let t: Instant = read_clock();
        self.mark_launching_entered_at(t);
    }

    /// The machine was launching at `t`.
    pub fn mark_launching_entered_at(&mut self, t: Instant)
        ensures
            final(self).deep_view() == old(self).deep_view().launching_marked(clock_nanos(t)),
    {
        if self.launching_entered.is_none() {
            self.launching_entered = Some(t);
        }
    }

    /// A copy for the record of a machine that is given up at `t`.
    pub fn ended_at(&self, t: Instant) -> (r: VmPhaseTimings)
        ensures
            r.deep_view() == self.deep_view().ended(clock_nanos(t)),
    {
        let mut r: VmPhaseTimings = self.clone();
        r.total_launch_duration = Some(since(t, self.requested_time));
        r
    }
}

impl LaunchingPhaseCheck {
    pub fn new(
        timestamp: Instant,
        elapsed_since_launch: Duration,
        has_ip: bool,
        status: String,
    ) -> (r: Self)
        ensures
            r == (LaunchingPhaseCheck { timestamp, elapsed_since_launch, has_ip, status }),
    {
        LaunchingPhaseCheck { timestamp, elapsed_since_launch, has_ip, status }
    }
}

impl Clone for LaunchingPhaseCheck {
    fn clone(&self) -> (r: Self)
        ensures
            r.deep_view() == self.deep_view(),
    {
        LaunchingPhaseCheck {
            timestamp: self.timestamp,
            elapsed_since_launch: self.elapsed_since_launch,
            has_ip: self.has_ip,
            status: self.status.clone(),
        }
    }
}

impl Clone for VmPhaseTimings {
    fn clone(&self) -> (r: Self)
        ensures
            r.deep_view() == self.deep_view(),
    {
        let r: VmPhaseTimings = VmPhaseTimings {
            requested_time: self.requested_time,
            launching_entered: self.launching_entered,
            ip_assigned: self.ip_assigned,
            active_time: self.active_time,
            total_launch_duration: self.total_launch_duration,
            time_in_launching: self.time_in_launching,
            stuck_in_launching: self.stuck_in_launching,
            launching_phase_details: self.launching_phase_details.clone(),
        };
        assert(r.launching_phase_details.deep_view() =~= self.launching_phase_details.deep_view());
        r
    }
}

/// The phases of several machines, by the id of the machine.
#[derive(Debug)]
pub struct PhaseTimingsTable {
    entries: Vec<(String, VmPhaseTimings)>,
}

/// What a list of entries says of each id: the last one counts.
spec fn table_of(entries: Seq<(String, VmPhaseTimings)>) -> Map<Seq<char>, PhaseTimingsView>
    decreases entries.len(),
{
    if entries.len() == 0 {
        Map::empty()
    } else {
        table_of(entries.drop_last()).insert(entries.last().0@, entries.last().1.deep_view())
    }
}

proof fn lemma_table_lookup(entries: Seq<(String, VmPhaseTimings)>, key: Seq<char>, i: int)
    requires
        -1 <= i < entries.len(),
        i >= 0 ==> entries[i].0@ == key,
        forall|k: int| i < k < entries.len() ==> entries[k].0@ != key,
    ensures
        i >= 0 ==> table_of(entries).contains_key(key) && table_of(entries)[key]
            == entries[i].1.deep_view(),
        i < 0 ==> !table_of(entries).contains_key(key),
    decreases entries.len(),
{
    if entries.len() > 0 && i < entries.len() - 1 {
        assert(entries.last().0@ != key);
        lemma_table_lookup(entries.drop_last(), key, i);
    }
}

proof fn lemma_table_update(
    entries: Seq<(String, VmPhaseTimings)>,
    i: int,
    entry: (String, VmPhaseTimings),
)
    requires
        0 <= i < entries.len(),
        entries[i].0@ == entry.0@,
        forall|k: int| i < k < entries.len() ==> entries[k].0@ != entry.0@,
    ensures
        table_of(entries.update(i, entry)) == table_of(entries).insert(
            entry.0@,
            entry.1.deep_view(),
        ),
    decreases entries.len(),
{
    let updated = entries.update(i, entry);
    if i == entries.len() - 1 {
        assert(updated.drop_last() =~= entries.drop_last());
    } else {
        assert(updated.drop_last() =~= entries.drop_last().update(i, entry));
        lemma_table_update(entries.drop_last(), i, entry);
        assert(entries.last().0@ != entry.0@);
    }
    assert(table_of(updated) =~= table_of(entries).insert(entry.0@, entry.1.deep_view()));
}

impl DeepView for PhaseTimingsTable {
    type V = Map<Seq<char>, PhaseTimingsView>;

    closed spec fn deep_view(&self) -> Map<Seq<char>, PhaseTimingsView> {
        table_of(self.entries@)
    }
}

impl PhaseTimingsTable {
    /// No id stands in the table twice.
    pub closed spec fn distinct(&self) -> bool {
        forall|i: int, j: int|
            0 <= i < j < self.entries.len() ==> self.entries@[i].0@ != self.entries@[j].0@
    }

    pub fn new() -> (r: Self)
        ensures
            r.deep_view() == Map::<Seq<char>, PhaseTimingsView>::empty(),
            r.distinct(),
    {
        PhaseTimingsTable { entries: Vec::new() }
    }

    /// Where the last entry for an id stands.
    fn position(&self, vm_id: &String) -> (r: Option<usize>)
        ensures
            match r {
                Some(i) => i < self.entries.len() && self.entries@[i as int].0@ == vm_id@
                    && forall|k: int|
                    i < k < self.entries.len() ==> self.entries@[k].0@ != vm_id@,
                None => forall|k: int|
                    0 <= k < self.entries.len() ==> self.entries@[k].0@ != vm_id@,
            },
    {
        let mut i: usize = self.entries.len();
        while i > 0
            invariant
                i <= self.entries.len(),
                forall|k: int| i <= k < self.entries.len() ==> self.entries@[k].0@ != vm_id@,
            decreases i,
        {
            i -= 1;
            if self.entries[i].0 == *vm_id {
                return Some(i);
            }
        }
        None
    }

    /// Sets the phases of a machine, whether or not there were any.
    pub fn insert(&mut self, vm_id: String, timings: VmPhaseTimings)
        ensures
            final(self).deep_view() == old(self).deep_view().insert(
                vm_id@,
                timings.deep_view(),
            ),
            old(self).distinct() ==> final(self).distinct(),
    {
        match self.position(&vm_id) {
            Some(i) => {
                proof {
                    lemma_table_update(self.entries@, i as int, (vm_id, timings));
                }
                self.entries.set(i, (vm_id, timings));
            },
            None => {
                let ghost before = self.entries@;
                self.entries.push((vm_id, timings));
                assert(self.entries@.drop_last() =~= before);
            },
        }
    }

    /// The phases of a machine.
    pub fn get(&self, vm_id: &String) -> (r: Option<&VmPhaseTimings>)
        ensures
            match r {
                Some(t) => self.deep_view().contains_key(vm_id@) && self.deep_view()[vm_id@]
                    == t.deep_view(),
                None => !self.deep_view().contains_key(vm_id@),
            },
    {
        match self.position(vm_id) {
            Some(i) => {
                proof {
                    lemma_table_lookup(self.entries@, vm_id@, i as int);
                }
                Some(&self.entries[i].1)
            },
            None => {
                proof {
                    lemma_table_lookup(self.entries@, vm_id@, -1);
                }
                None
            },
        }
    }
}

/// A machine to follow until it is up.
#[derive(Debug)]
pub struct VmPollingRequest {
    pub vm_id: String,
    pub vm_name: String,
    pub deployment_name: String,
    /// `bulk` or `decomposed`.
    pub approach: String,
}

/// How following a machine ended.
#[derive(Debug)]
pub struct VmPollingResponse {
    pub vm_id: String,
    pub vm_name: String,
    pub deployment_name: String,
    pub approach: String,
    pub status: String,
    pub public_ip: Option<String>,
    pub provider: Option<Value>,
    pub provider_location: Option<Value>,
    pub datacenter: Option<Value>,
    pub success: bool,
    pub error: Option<String>,
    pub phase_timings: VmPhaseTimings,
}

pub struct VmPollingRequestView {
    pub vm_id: Seq<char>,
    pub vm_name: Seq<char>,
    pub deployment_name: Seq<char>,
    pub approach: Seq<char>,
}

pub struct VmPollingResponseView {
    pub vm_id: Seq<char>,
    pub vm_name: Seq<char>,
    pub deployment_name: Seq<char>,
    pub approach: Seq<char>,
    pub status: Seq<char>,
    pub public_ip: Option<Seq<char>>,
    pub provider: Option<Json>,
    pub provider_location: Option<Json>,
    pub datacenter: Option<Json>,
    pub success: bool,
    pub error: Option<Seq<char>>,
    pub phase_timings: PhaseTimingsView,
}

impl DeepView for VmPollingRequest {
    type V = VmPollingRequestView;

    open spec fn deep_view(&self) -> VmPollingRequestView {
        VmPollingRequestView {
            vm_id: self.vm_id@,
            vm_name: self.vm_name@,
            deployment_name: self.deployment_name@,
            approach: self.approach@,
        }
    }
}

impl DeepView for VmPollingResponse {
    type V = VmPollingResponseView;

    open spec fn deep_view(&self) -> VmPollingResponseView {
        VmPollingResponseView {
            vm_id: self.vm_id@,
            vm_name: self.vm_name@,
            deployment_name: self.deployment_name@,
            approach: self.approach@,
            status: self.status@,
            public_ip: self.public_ip.deep_view(),
            provider: opt_json(self.provider),
            provider_location: opt_json(self.provider_location),
            datacenter: opt_json(self.datacenter),
            success: self.success,
            error: self.error.deep_view(),
            phase_timings: self.phase_timings.deep_view(),
        }
    }
}

impl Clone for VmPollingRequest {
    fn clone(&self) -> (r: Self)
        ensures
            r.deep_view() == self.deep_view(),
    {
        VmPollingRequest {
            vm_id: self.vm_id.clone(),
            vm_name: self.vm_name.clone(),
            deployment_name: self.deployment_name.clone(),
            approach: self.approach.clone(),
        }
    }
}

impl VmPollingResponse {
    /// The deployment that the machine belongs to and the approach that it was started by.
    pub fn get_deployment_info(&self) -> (r: (&str, &str))
        ensures
            r.0@ == self.deployment_name@,
            r.1@ == self.approach@,
    {
        (self.deployment_name.as_str(), self.approach.as_str())
    }
}

/// What came of one deployment under one approach.
#[derive(Debug)]
pub struct DeploymentResult {
    pub config_name: String,
    /// `bulk` or `decomposed`.
    pub approach: String,
    pub start_time: Instant,
    pub duration: Duration,
    pub success: bool,
    pub vm_responses: Option<Vec<VmResponse>>,
    pub vm_statuses: Option<Vec<VmStatusResponse>>,
    pub error_message: Option<String>,
    /// The thread that did the work, as it is printed.
    pub thread_id: String,
    /// How long each call of the decomposed approach took.
    pub individual_timings: Option<Vec<Duration>>,
    pub vm_phase_timings: Option<PhaseTimingsTable>,
}

pub struct DeploymentResultView {
    pub config_name: Seq<char>,
    pub approach: Seq<char>,
    pub start_time: int,
    pub duration: nat,
    pub success: bool,
    pub vm_responses: Option<Seq<VmResponseView>>,
    pub vm_statuses: Option<Seq<VmStatusView>>,
    pub error_message: Option<Seq<char>>,
    pub thread_id: Seq<char>,
    pub individual_timings: Option<Seq<nat>>,
    pub vm_phase_timings: Option<Map<Seq<char>, PhaseTimingsView>>,
}

impl DeepView for DeploymentResult {
    type V = DeploymentResultView;

    open spec fn deep_view(&self) -> DeploymentResultView {
        DeploymentResultView {
            config_name: self.config_name@,
            approach: self.approach@,
            start_time: clock_nanos(self.start_time),
            duration: span_nanos(self.duration),
            success: self.success,
            vm_responses: self.vm_responses.deep_view(),
            vm_statuses: self.vm_statuses.deep_view(),
            error_message: self.error_message.deep_view(),
            thread_id: self.thread_id@,
            individual_timings: match self.individual_timings {
                Some(list) => Some(spans(list@)),
                None => None,
            },
            vm_phase_timings: self.vm_phase_timings.deep_view(),
        }
    }
}

impl DeploymentResult {
    /// The time since the deployment started.
    pub fn get_execution_time(&self) -> (r: Duration)
        ensures
            exists|t: Instant| #[trigger]
                clock_reading(t) && span_nanos(r) == nanos_between(
                    self.deep_view().start_time,
                    clock_nanos(t),
                ),
    {
        let t: Instant = read_clock();
        self.execution_time_at(t)
    }

    /// The time from when the deployment started until `t`.
    pub fn execution_time_at(&self, t: Instant) -> (r: Duration)
        ensures
            span_nanos(r) == nanos_between(self.deep_view().start_time, clock_nanos(t)),
    {
        since(t, self.start_time)
    }
}

/// Once a phase has been marked, marking it again changes nothing.
pub proof fn law_first_mark_counts(v: PhaseTimingsView, t: int, u: int)
    ensures
        v.launching_marked(t).launching_marked(u) == v.launching_marked(t),
        v.ip_marked(t).ip_marked(u) == v.ip_marked(t),
        v.active_marked(t).active_marked(u) == v.active_marked(t),
{
}

/// Marks that are set as time goes on keep the phases in order.
pub proof fn law_marks_keep_order(v: PhaseTimingsView, now: int)
    requires
        v.in_order(),
        v.requested_time <= now,
        v.launching_entered matches Some(t) ==> t <= now,
        v.ip_assigned matches Some(t) ==> t <= now,
    ensures
        PhaseTimingsView::fresh(now).in_order(),
        v.active_time is None ==> v.launching_marked(now).in_order(),
        v.active_time is None && v.launching_entered is Some ==> v.ip_marked(now).in_order(),
        v.active_marked(now).in_order(),
{
}

/// The three phases of a launch add up to the whole launch.
pub proof fn law_phases_add_up(v: PhaseTimingsView)
    requires
        v.in_order(),
        v.launching_entered is Some,
        v.ip_assigned is Some,
        v.active_time is Some,
    ensures
        v.total() == Some(
            v.request_to_launch()->0 + v.launch_to_ip()->0 + v.ip_to_active()->0,
        ),
{
}

impl PhaseTimingsView {
    /// The machine is seen launching, again and again.
    pub open spec fn launching_marked_often(self, times: Seq<int>) -> PhaseTimingsView
        decreases times.len(),
    {
        if times.len() == 0 {
            self
        } else {
            self.launching_marked_often(times.drop_last()).launching_marked(times.last())
        }
    }

    /// The machine is seen with an IP address, again and again.
    pub open spec fn ip_marked_often(self, times: Seq<int>) -> PhaseTimingsView
        decreases times.len(),
    {
        if times.len() == 0 {
            self
        } else {
            self.ip_marked_often(times.drop_last()).ip_marked(times.last())
        }
    }

    /// The machine is seen active, again and again.
    pub open spec fn active_marked_often(self, times: Seq<int>) -> PhaseTimingsView
        decreases times.len(),
    {
        if times.len() == 0 {
            self
        } else {
            self.active_marked_often(times.drop_last()).active_marked(times.last())
        }
    }
}

proof fn lemma_marked_often(v: PhaseTimingsView, times: Seq<int>)
    requires
        times.len() > 0,
    ensures
        v.launching_marked_often(times) == v.launching_marked(times[0]),
        v.ip_marked_often(times) == v.ip_marked(times[0]),
        v.active_marked_often(times) == v.active_marked(times[0]),
    decreases times.len(),
{
    let front = times.drop_last();
    if front.len() > 0 {
        assert(front[0] == times[0]);
        lemma_marked_often(v, front);
    } else {
        assert(v.launching_marked_often(front) == v);
        assert(v.ip_marked_often(front) == v);
        assert(v.active_marked_often(front) == v);
        assert(times.last() == times[0]);
    }
}

/// A machine that is requested and then seen launching, with an IP address and active, each as
/// often as may be, has every phase; the phases add up to the whole launch, and the last two to
/// the time in launching. The first looks at each phase are in the order of time.
pub proof fn law_a_launch_adds_up(
    requested: int,
    launching: Seq<int>,
    ip: Seq<int>,
    active: Seq<int>,
)
    requires
        launching.len() > 0 && ip.len() > 0 && active.len() > 0,
        requested <= launching[0] <= ip[0] <= active[0],
    ensures
        ({
            let v = PhaseTimingsView::fresh(requested).launching_marked_often(
                launching,
            ).ip_marked_often(ip).active_marked_often(active);
            &&& v.request_to_launch() is Some
            &&& v.launch_to_ip() is Some
            &&& v.ip_to_active() is Some
            &&& v.total() == Some(
                v.request_to_launch()->0 + v.launch_to_ip()->0 + v.ip_to_active()->0,
            )
            &&& v.time_in_launching == Some(v.launch_to_ip()->0 + v.ip_to_active()->0)
        }),
{
    let a = PhaseTimingsView::fresh(requested);
    lemma_marked_often(a, launching);
    let b = a.launching_marked_often(launching);
    lemma_marked_often(b, ip);
    let d = b.ip_marked_often(ip);
    lemma_marked_often(d, active);
}

} // verus!
