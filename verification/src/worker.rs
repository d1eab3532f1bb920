//! The two ways to ask for the machines of a deployment: all at once, or one call for each.
use crate::client::{
    responses_view, Deployment, DeploymentView, VmConfigView, VmResponse, VmResponseView,
    VmStatusResponse, VmStatusView,
};
use crate::clock::{
    clock_nanos, nanos_between, seconds_text, seconds_written, since, span_nanos, spans,
};
use crate::deployment::{
    DeploymentResult, DeploymentResultView, LogEntry, LogMessage, PhaseTimingsTable,
    PhaseTimingsView, VmPollingRequest, VmPollingRequestView, VmPollingResponse,
    VmPollingResponseView,
};
use crate::text::{decimal, decimal_text, law_decimal_is_unique};
use std::time::{Duration, Instant};
use vstd::prelude::*;

verus! {

/// How a message names the thread and the approach that it comes from.
pub open spec fn origin(thread_id: Seq<char>, approach: Seq<char>) -> Seq<char> {
    "[Thread "@ + thread_id + "] "@ + approach + ": "@
}

/// A span of time in seconds, to the microsecond.
pub open spec fn micros(nanos: nat) -> Seq<char> {
    seconds_written(nanos, 6)
}

/// The part of a deployment that one call of the decomposed approach asks for: a single machine,
/// with a number after its name.
pub open spec fn individual(d: DeploymentView, i: u32) -> DeploymentView {
    DeploymentView {
        vm_config: VmConfigView {
            name: d.vm_config.name + "-"@ + decimal((i + 1) as nat),
            ..d.vm_config
        },
        instances: 1,
        ..d
    }
}

/// The ids of a list of machines.
pub open spec fn ids_of(vms: Seq<VmResponseView>) -> Seq<Seq<char>> {
    vms.map_values(|vm: VmResponseView| vm.vm_id)
}

/// The request to follow a machine.
pub open spec fn follow_request(
    vm: VmResponseView,
    deployment_name: Seq<char>,
    approach: Seq<char>,
) -> VmPollingRequestView {
    VmPollingRequestView { vm_id: vm.vm_id, vm_name: vm.vm_name, deployment_name, approach }
}

/// The requests to follow a list of machines.
pub open spec fn follow_requests(
    vms: Seq<VmResponseView>,
    deployment_name: Seq<char>,
    approach: Seq<char>,
) -> Seq<VmPollingRequestView> {
    vms.map_values(|vm: VmResponseView| follow_request(vm, deployment_name, approach))
}

fn origin_text(thread_id: &str, approach: &str) -> (r: String)
    ensures
        r@ == origin(thread_id@, approach@),
{
    "[Thread ".to_string().concat(thread_id).concat("] ").concat(approach).concat(": ")
}

/// The part of a deployment that call `i` of the decomposed approach asks for.
pub fn individual_deployment(config: &Deployment, i: u32) -> (r: Deployment)
    requires
        i < u32::MAX,
    ensures
        r.deep_view() == individual(config.deep_view(), i),
{
    let mut r: Deployment = config.clone();
    let number: String = decimal_text(i as u64 + 1);
    r.vm_config.name = r.vm_config.name.concat("-").concat(number.as_str());
    r.instances = 1;
    r
}

/// Puts the ids of new machines on the list of machines to delete in the end.
pub fn queue_vms(queue: &mut Vec<String>, vms: &Vec<VmResponse>)
    ensures
        final(queue).deep_view() == old(queue).deep_view() + ids_of(vms.deep_view()),
{
    let ghost before = queue.deep_view();
    let ghost ids = ids_of(vms.deep_view());
    let mut i: usize = 0;
    assert(queue.deep_view() =~= before + ids.take(0));
    while i < vms.len()
        invariant
            i <= vms.len(),
            ids == ids_of(vms.deep_view()),
            queue.deep_view() == before + ids.take(i as int),
        decreases vms.len() - i,
    {
        let ghost so_far = queue.deep_view();
        let id: String = vms[i].vm_id.clone();
        queue.push(id);
        assert(queue.deep_view() =~= so_far.push(id@));
        assert(ids[i as int] == id@);
        i += 1;
        assert(queue.deep_view() =~= before + ids.take(i as int));
    }
    assert(ids.take(i as int) =~= ids);
}

/// The requests to follow the machines of a deployment.
pub fn polling_requests(vms: &Vec<VmResponse>, deployment_name: &str, approach: &str) -> (r: Vec<
    VmPollingRequest,
>)
    ensures
        r.deep_view() == follow_requests(vms.deep_view(), deployment_name@, approach@),
{
    let mut out: Vec<VmPollingRequest> = Vec::new();
    let mut i: usize = 0;
    while i < vms.len()
        invariant
            i <= vms.len(),
            out.len() == i,
            forall|k: int|
                0 <= k < i ==> (#[trigger] out@[k]).deep_view() == follow_request(
                    vms@[k].deep_view(),
                    deployment_name@,
                    approach@,
                ),
        decreases vms.len() - i,
    {
        out.push(
            VmPollingRequest {
                vm_id: vms[i].vm_id.clone(),
                vm_name: vms[i].vm_name.clone(),
                deployment_name: deployment_name.to_string(),
                approach: approach.to_string(),
            },
        );
        i += 1;
    }
    assert(out.deep_view() =~= follow_requests(vms.deep_view(), deployment_name@, approach@));
    out
}

/// How long to wait for the next answer on a followed machine: the time that a machine has,
/// and a minute.
pub fn response_wait_seconds(timeout_seconds: u64) -> (r: u64)
    requires
        timeout_seconds + 60 <= u64::MAX,
    ensures
        r == timeout_seconds + 60,
{
    timeout_seconds + 60
}

/// The answers on the followed machines of a deployment.
#[derive(Debug)]
pub struct PollCollector {
    expected: usize,
    received: usize,
    statuses: Vec<VmStatusResponse>,
    timings: PhaseTimingsTable,
}

pub struct PollCollectorView {
    /// How many answers there will be.
    pub expected: nat,
    /// How many there were.
    pub received: nat,
    /// The machines that are up, in the order of the answers.
    pub statuses: Seq<VmStatusView>,
    /// How the launch of each of them went.
    pub timings: Map<Seq<char>, PhaseTimingsView>,
}

impl DeepView for PollCollector {
    type V = PollCollectorView;

    closed spec fn deep_view(&self) -> PollCollectorView {
        PollCollectorView {
            expected: self.expected as nat,
            received: self.received as nat,
            statuses: self.statuses.deep_view(),
            timings: self.timings.deep_view(),
        }
    }
}

/// The machine that an answer tells of.
pub open spec fn status_of(r: VmPollingResponseView) -> VmStatusView {
    VmStatusView {
        id: r.vm_id,
        vm_name: r.vm_name,
        status: r.status,
        public_ip: r.public_ip,
        datacenter: r.datacenter,
        provider: r.provider,
        provider_location: r.provider_location,
    }
}

impl PollCollectorView {
    /// Nothing has come in.
    pub open spec fn waiting(expected: nat) -> PollCollectorView {
        PollCollectorView {
            expected,
            received: 0,
            statuses: Seq::empty(),
            timings: Map::empty(),
        }
    }

    /// One more answer has come in. It adds to what is known only if the machine is up.
    pub open spec fn taken(self, r: VmPollingResponseView) -> PollCollectorView {
        if r.success {
            PollCollectorView {
                received: self.received + 1,
                statuses: self.statuses.push(status_of(r)),
                timings: self.timings.insert(r.vm_id, r.phase_timings),
                ..self
            }
        } else {
            PollCollectorView { received: self.received + 1, ..self }
        }
    }

    /// Answers have come in, one by one.
    pub open spec fn taken_all(self, responses: Seq<VmPollingResponseView>) -> PollCollectorView
        decreases responses.len(),
    {
        if responses.len() == 0 {
            self
        } else {
            self.taken_all(responses.drop_last()).taken(responses.last())
        }
    }

    /// The machines that are up, if there are any.
    pub open spec fn launched(self) -> Option<Seq<VmStatusView>> {
        if self.statuses.len() == 0 {
            None
        } else {
            Some(self.statuses)
        }
    }
}

/// The machines that are up according to what was collected, if anything was.
pub open spec fn launched_of(followed: Option<PollCollectorView>) -> Option<Seq<VmStatusView>> {
    match followed {
        Some(c) => c.launched(),
        None => None,
    }
}

/// How the launches went according to what was collected, if anything was.
pub open spec fn timings_of(followed: Option<PollCollectorView>) -> Option<
    Map<Seq<char>, PhaseTimingsView>,
> {
    match followed {
        Some(c) => Some(c.timings),
        None => None,
    }
}

impl PollCollector {
    /// Waits for a number of answers.
    pub fn new(expected: usize) -> (r: Self)
        ensures
            r.deep_view() == PollCollectorView::waiting(expected as nat),
    {
        let r: PollCollector = PollCollector {
            expected,
            received: 0,
            statuses: Vec::new(),
            timings: PhaseTimingsTable::new(),
        };
        assert(r.statuses.deep_view() =~= Seq::empty());
        r
    }

    /// Whether there are answers still to come.
    pub fn wants_more(&self) -> (r: bool)
        ensures
            r == (self.deep_view().received < self.deep_view().expected),
    {
        self.received < self.expected
    }

    /// Takes an answer.
    pub fn take(&mut self, response: VmPollingResponse)
        requires
            old(self).deep_view().received < old(self).deep_view().expected,
        ensures
            final(self).deep_view() == old(self).deep_view().taken(response.deep_view()),
    {
        let ghost before = self.deep_view();
        self.received += 1;
        if response.success {
            let status: VmStatusResponse = VmStatusResponse {
                id: response.vm_id.clone(),
                vm_name: response.vm_name,
                status: response.status,
                public_ip: response.public_ip,
                datacenter: response.datacenter,
                provider: response.provider,
                provider_location: response.provider_location,
            };
            self.statuses.push(status);
            self.timings.insert(response.vm_id, response.phase_timings);
            assert(self.statuses.deep_view() =~= before.statuses.push(
                status_of(response.deep_view()),
            ));
        }
    }

    /// What was collected: the machines that are up, if any, and how their launches went.
    fn finish(self) -> (r: (Option<Vec<VmStatusResponse>>, PhaseTimingsTable))
        ensures
            r.0.deep_view() == self.deep_view().launched(),
            r.1.deep_view() == self.deep_view().timings,
    {
        if self.statuses.len() == 0 {
            (None, self.timings)
        } else {
            (Some(self.statuses), self.timings)
        }
    }
}

/// What was collected, if anything was.
fn outcome(followed: Option<PollCollector>) -> (r: (
    Option<Vec<VmStatusResponse>>,
    Option<PhaseTimingsTable>,
))
    ensures
        r.0.deep_view() == launched_of(followed.deep_view()),
        r.1.deep_view() == timings_of(followed.deep_view()),
{
    match followed {
        Some(c) => {
            let (statuses, timings) = c.finish();
            (statuses, Some(timings))
        },
        None => (None, None),
    }
}

/// A deployment whose machines are asked for in one call.
#[derive(Debug)]
pub struct BulkRun {
    config: Deployment,
    thread_id: String,
    start: Instant,
}

pub struct BulkRunView {
    pub config: DeploymentView,
    /// The thread that does the work, as it is printed.
    pub thread_id: Seq<char>,
    /// When the call was made.
    pub start: int,
}

impl DeepView for BulkRun {
    type V = BulkRunView;

    closed spec fn deep_view(&self) -> BulkRunView {
        BulkRunView {
            config: self.config.deep_view(),
            thread_id: self.thread_id@,
            start: clock_nanos(self.start),
        }
    }
}

impl BulkRunView {
    /// What is logged before the call.
    pub open spec fn start_entry(config: DeploymentView, thread_id: Seq<char>) -> LogEntry {
        LogEntry::Info(
            origin(thread_id, "BULK"@) + "Starting deployment of config '"@ + config.vm_config.name
                + "' with "@ + decimal(config.instances as nat) + " instances"@,
        )
    }

    /// What is logged of the reply, given how long it took in seconds, as it is written.
    pub open spec fn reply_entry(
        self,
        reply: Result<Seq<VmResponseView>, Seq<char>>,
        took: Seq<char>,
    ) -> LogEntry {
        let head = origin(self.thread_id, "BULK"@) + "Config '"@ + self.config.vm_config.name;
        match reply {
            Ok(vms) => LogEntry::Success(
                head + "' API request successful in "@ + took + "s. REQUESTED "@ + decimal(
                    vms.len(),
                ) + " VMs"@,
            ),
            Err(e) => LogEntry::Error(head + "' failed after "@ + took + "s: "@ + e),
        }
    }

    /// What comes of the run.
    pub open spec fn result(
        self,
        reply: Result<Seq<VmResponseView>, Seq<char>>,
        replied: int,
        followed: Option<PollCollectorView>,
        end: int,
    ) -> DeploymentResultView {
        match reply {
            Ok(vms) => DeploymentResultView {
                config_name: self.config.vm_config.name,
                approach: "bulk"@,
                start_time: self.start,
                duration: nanos_between(self.start, end),
                success: true,
                vm_responses: Some(vms),
                vm_statuses: launched_of(followed),
                error_message: None,
                thread_id: self.thread_id,
                individual_timings: None,
                vm_phase_timings: timings_of(followed),
            },
            Err(e) => DeploymentResultView {
                config_name: self.config.vm_config.name,
                approach: "bulk"@,
                start_time: self.start,
                duration: nanos_between(self.start, replied),
                success: false,
                vm_responses: None,
                vm_statuses: None,
                error_message: Some(e),
                thread_id: self.thread_id,
                individual_timings: None,
                vm_phase_timings: None,
            },
        }
    }
}

/// The ids of the machines that a reply brings.
pub open spec fn new_ids(reply: Result<Seq<VmResponseView>, Seq<char>>) -> Seq<Seq<char>> {
    match reply {
        Ok(vms) => ids_of(vms),
        Err(_) => Seq::empty(),
    }
}

impl BulkRun {
    /// The message before the call.
    pub fn start_message(config: &Deployment, thread_id: &str) -> (r: LogMessage)
        ensures
            r.deep_view() == BulkRunView::start_entry(config.deep_view(), thread_id@),
    {
        LogMessage::Info(
            origin_text(thread_id, "BULK").concat("Starting deployment of config '").concat(
                config.vm_config.name.as_str(),
            ).concat("' with ").concat(decimal_text(config.instances as u64).as_str()).concat(
                " instances",
            ),
        )
    }

    /// The call is made at `start`.
    pub fn new(config: Deployment, thread_id: String, start: Instant) -> (r: Self)
        ensures
            r.deep_view() == (BulkRunView {
                config: config.deep_view(),
                thread_id: thread_id@,
                start: clock_nanos(start),
            }),
    {
        BulkRun { config, thread_id, start }
    }

    /// What the call asks for. There is no call after the signal to stop.
    pub fn next_call(&self, stop: bool) -> (r: Option<&Deployment>)
        ensures
            r is Some <==> !stop,
            r is Some ==> r->0.deep_view() == self.deep_view().config,
    {
        if stop {
            None
        } else {
            Some(&self.config)
        }
    }

    /// The message on the reply. `took` is how long it took in seconds, as it is written.
    pub fn reply_message(&self, reply: &Result<Vec<VmResponse>, String>, took: &str) -> (message:
        LogMessage)
        ensures
            message.deep_view() == self.deep_view().reply_entry(responses_view(*reply), took@),
    {
        let head: String = origin_text(self.thread_id.as_str(), "BULK").concat("Config '").concat(
            self.config.vm_config.name.as_str(),
        );
        match reply {
            Ok(vms) => LogMessage::Success(
                head.concat("' API request successful in ").concat(took).concat(
                    "s. REQUESTED ",
                ).concat(decimal_text(vms.len() as u64).as_str()).concat(" VMs"),
            ),
            Err(e) => LogMessage::Error(
                head.concat("' failed after ").concat(took).concat("s: ").concat(e.as_str()),
            ),
        }
    }

    /// Takes the reply: the new machines are put on the list of machines to delete in the end.
    pub fn reply(
        &self,
        queue: &mut Vec<String>,
        reply: &Result<Vec<VmResponse>, String>,
        replied: Instant,
    ) -> (message: LogMessage)
        ensures
            message.deep_view() == self.deep_view().reply_entry(
                responses_view(*reply),
                micros(nanos_between(self.deep_view().start, clock_nanos(replied))),
            ),
            final(queue).deep_view() == old(queue).deep_view() + new_ids(responses_view(*reply)),
    {
        match reply {
            Ok(vms) => {
                queue_vms(queue, vms);
            },
            Err(_) => {
                assert(queue.deep_view() + Seq::empty() =~= queue.deep_view());
            },
        }
        self.reply_message(reply, seconds_text(since(replied, self.start), 6).as_str())
    }

    /// The requests to follow the new machines, if machines are followed and the call succeeded.
    pub fn requests(&self, polling: bool, reply: &Result<Vec<VmResponse>, String>) -> (r: Option<
        Vec<VmPollingRequest>,
    >)
        ensures
            r is Some <==> polling && reply is Ok,
            r is Some ==> r->0.deep_view() == follow_requests(
                reply->Ok_0.deep_view(),
                self.deep_view().config.vm_config.name,
                "bulk"@,
            ),
    {
        match reply {
            Ok(vms) => if polling {
                Some(polling_requests(vms, self.config.vm_config.name.as_str(), "bulk"))
            } else {
                None
            },
            Err(_) => None,
        }
    }
}

/// What comes of asking for all machines of a deployment at once. `reply` came in at `replied`;
/// `followed` is what was collected on the machines, if they were followed, until `end`.
pub fn deploy_vm_bulk_worker(
    run: BulkRun,
    reply: Result<Vec<VmResponse>, String>,
    replied: Instant,
    followed: Option<PollCollector>,
    end: Instant,
) -> (r: DeploymentResult)
    ensures
        r.deep_view() == run.deep_view().result(
            responses_view(reply),
            clock_nanos(replied),
            followed.deep_view(),
            clock_nanos(end),
        ),
{
    match reply {
        Ok(vms) => {
            let (vm_statuses, vm_phase_timings) = outcome(followed);
            DeploymentResult {
                config_name: run.config.vm_config.name,
                approach: "bulk".to_string(),
                start_time: run.start,
                duration: since(end, run.start),
                success: true,
                vm_responses: Some(vms),
                vm_statuses,
                error_message: None,
                thread_id: run.thread_id,
                individual_timings: None,
                vm_phase_timings,
            }
        },
        Err(e) => DeploymentResult {
            config_name: run.config.vm_config.name,
            approach: "bulk".to_string(),
            start_time: run.start,
            duration: since(replied, run.start),
            success: false,
            vm_responses: None,
            vm_statuses: None,
            error_message: Some(e),
            thread_id: run.thread_id,
            individual_timings: None,
            vm_phase_timings: None,
        },
    }
}

/// A deployment whose machines are asked for one by one.
#[derive(Debug)]
pub struct DecomposedRun {
    config: Deployment,
    thread_id: String,
    start: Instant,
    calls: u32,
    vms: Vec<VmResponse>,
    timings: Vec<Duration>,
    error: Option<String>,
}

pub struct DecomposedRunView {
    pub config: DeploymentView,
    /// The thread that does the work, as it is printed.
    pub thread_id: Seq<char>,
    /// When the first call was made.
    pub start: int,
    /// How many calls have been answered.
    pub calls: u32,
    /// The machines that they brought.
    pub vms: Seq<VmResponseView>,
    /// How long each of them took.
    pub timings: Seq<nat>,
    /// Why the run failed, if it did.
    pub error: Option<Seq<char>>,
}

impl DeepView for DecomposedRun {
    type V = DecomposedRunView;

    closed spec fn deep_view(&self) -> DecomposedRunView {
        DecomposedRunView {
            config: self.config.deep_view(),
            thread_id: self.thread_id@,
            start: clock_nanos(self.start),
            calls: self.calls,
            vms: self.vms.deep_view(),
            timings: spans(self.timings@),
            error: self.error.deep_view(),
        }
    }
}

impl DecomposedRunView {
    /// No call has been made.
    pub open spec fn begun(config: DeploymentView, thread_id: Seq<char>, start: int) -> Self {
        DecomposedRunView {
            config,
            thread_id,
            start,
            calls: 0,
            vms: Seq::empty(),
            timings: Seq::empty(),
            error: None,
        }
    }

    /// There is one time for each call, and no more calls than machines.
    pub open spec fn wf(self) -> bool {
        &&& self.calls <= self.config.instances
        &&& self.timings.len() == self.calls
        &&& self.error is Some ==> self.calls == self.config.instances && self.vms.len() == 0
    }

    /// What is logged before the first call.
    pub open spec fn start_entry(config: DeploymentView, thread_id: Seq<char>) -> LogEntry {
        LogEntry::Info(
            origin(thread_id, "DECOMPOSED"@) + "Starting deployment of config '"@
                + config.vm_config.name + "' with "@ + decimal(config.instances as nat)
                + " individual API calls"@,
        )
    }

    /// A call has been answered. The run has failed if the last call fails and no call before
    /// it brought a machine.
    pub open spec fn answered(
        self,
        reply: Result<Seq<VmResponseView>, Seq<char>>,
        took: nat,
    ) -> DecomposedRunView {
        let next = DecomposedRunView {
            calls: (self.calls + 1) as u32,
            timings: self.timings.push(took),
            ..self
        };
        match reply {
            Ok(vms) => DecomposedRunView { vms: self.vms + vms, ..next },
            Err(e) => if self.vms.len() == 0 && self.calls + 1 == self.config.instances {
                DecomposedRunView { error: Some(e), ..next }
            } else {
                next
            },
        }
    }

    /// What is logged of the answer to a call, given how long it took in seconds, as it is written.
    pub open spec fn answer_entry(
        self,
        reply: Result<Seq<VmResponseView>, Seq<char>>,
        took: Seq<char>,
    ) -> LogEntry {
        let head = origin(self.thread_id, "DECOMPOSED"@) + "VM "@ + decimal(
            (self.calls + 1) as nat,
        ) + "/"@ + decimal(self.config.instances as nat) + " '"@ + individual(
            self.config,
            self.calls,
        ).vm_config.name;
        match reply {
            Ok(_) => LogEntry::Success(head + "' REQUESTED in "@ + took + "s"@),
            Err(e) => LogEntry::Error(
                head + "' failed in "@ + took + "s: "@ + e + " - CONTINUING"@,
            ),
        }
    }

    /// What comes of the run.
    pub open spec fn result(
        self,
        followed: Option<PollCollectorView>,
        end: int,
    ) -> DeploymentResultView {
        DeploymentResultView {
            config_name: self.config.vm_config.name,
            approach: "decomposed"@,
            start_time: self.start,
            duration: nanos_between(self.start, end),
            success: self.error is None,
            vm_responses: if self.vms.len() == 0 {
                None
            } else {
                Some(self.vms)
            },
            vm_statuses: launched_of(followed),
            error_message: self.error,
            thread_id: self.thread_id,
            individual_timings: Some(self.timings),
            vm_phase_timings: timings_of(followed),
        }
    }
}

impl DecomposedRun {
    /// The message before the first call.
    pub fn start_message(config: &Deployment, thread_id: &str) -> (r: LogMessage)
        ensures
            r.deep_view() == DecomposedRunView::start_entry(config.deep_view(), thread_id@),
    {
        LogMessage::Info(
            origin_text(thread_id, "DECOMPOSED").concat("Starting deployment of config '").concat(
                config.vm_config.name.as_str(),
            ).concat("' with ").concat(decimal_text(config.instances as u64).as_str()).concat(
                " individual API calls",
            ),
        )
    }

    /// The calls begin at `start`.
    pub fn new(config: Deployment, thread_id: String, start: Instant) -> (r: Self)
        ensures
            r.deep_view() == DecomposedRunView::begun(
                config.deep_view(),
                thread_id@,
                clock_nanos(start),
            ),
            r.deep_view().wf(),
    {
        let r: DecomposedRun = DecomposedRun {
            config,
            thread_id,
            start,
            calls: 0,
            vms: Vec::new(),
            timings: Vec::new(),
            error: None,
        };
        assert(r.vms.deep_view() =~= Seq::empty());
        assert(spans(r.timings@) =~= Seq::empty());
        r
    }

    /// What the next call asks for. There is none once every machine has been asked for, nor
    /// after the signal to stop.
    pub fn next_call(&self, stop: bool) -> (r: Option<Deployment>)
        requires
            self.deep_view().wf(),
        ensures
            r is Some <==> !stop && self.deep_view().calls < self.deep_view().config.instances,
            r is Some ==> r->0.deep_view() == individual(
                self.deep_view().config,
                self.deep_view().calls,
            ),
    {
        if !stop && self.calls < self.config.instances {
            Some(individual_deployment(&self.config, self.calls))
        } else {
            None
        }
    }

    /// The message on the answer to a call. `took` is how long it took in seconds, as it is written.
    pub fn answer_message(&self, reply: &Result<Vec<VmResponse>, String>, took: &str) -> (message:
        LogMessage)
        ensures
            message.deep_view() == self.deep_view().answer_entry(responses_view(*reply), took@),
    {
        let number: String = decimal_text(self.calls as u64 + 1);
        let name: String = self.config.vm_config.name.clone().concat("-").concat(number.as_str());
        let head: String = origin_text(self.thread_id.as_str(), "DECOMPOSED").concat("VM ").concat(
            number.as_str(),
        ).concat("/").concat(decimal_text(self.config.instances as u64).as_str()).concat(
            " '",
        ).concat(name.as_str());
        match reply {
            Ok(_) => LogMessage::Success(head.concat("' REQUESTED in ").concat(took).concat("s")),
            Err(e) => LogMessage::Error(
                head.concat("' failed in ").concat(took).concat("s: ").concat(e.as_str()).concat(
                    " - CONTINUING",
                ),
            ),
        }
    }

    /// Takes the answer to a call: the new machines are put on the list of machines to delete in
    /// the end.
    pub fn answer(
        &mut self,
        queue: &mut Vec<String>,
        reply: Result<Vec<VmResponse>, String>,
        took: Duration,
    ) -> (message: LogMessage)
        requires
            old(self).deep_view().wf(),
            old(self).deep_view().calls < old(self).deep_view().config.instances,
        ensures
            final(self).deep_view() == old(self).deep_view().answered(
                responses_view(reply),
                span_nanos(took),
            ),
            final(self).deep_view().wf(),
            message.deep_view() == old(self).deep_view().answer_entry(
                responses_view(reply),
                micros(span_nanos(took)),
            ),
            final(queue).deep_view() == old(queue).deep_view() + new_ids(responses_view(reply)),
    {
        let ghost before = self.deep_view();
        let message: LogMessage = self.answer_message(&reply, seconds_text(took, 6).as_str());
        self.timings.push(took);
        self.calls += 1;
        assert(spans(self.timings@) =~= before.timings.push(span_nanos(took)));
        match reply {
            Ok(vms) => {
                let mut vms: Vec<VmResponse> = vms;
                queue_vms(queue, &vms);
                let ghost new = vms.deep_view();
                self.vms.append(&mut vms);
                assert(self.vms.deep_view() =~= before.vms + new);
            },
            Err(e) => {
                if self.vms.len() == 0 && self.calls == self.config.instances {
                    self.error = Some(e);
                }
                assert(queue.deep_view() + Seq::empty() =~= queue.deep_view());
            },
        }
        message
    }

    /// The requests to follow the new machines, if machines are followed and there are any.
    pub fn requests(&self, polling: bool) -> (r: Option<Vec<VmPollingRequest>>)
        ensures
            r is Some <==> polling && self.deep_view().vms.len() > 0,
            r is Some ==> r->0.deep_view() == follow_requests(
                self.deep_view().vms,
                self.deep_view().config.vm_config.name,
                "decomposed"@,
            ),
    {
        if polling && self.vms.len() > 0 {
            Some(
                polling_requests(&self.vms, self.config.vm_config.name.as_str(), "decomposed"),
            )
        } else {
            None
        }
    }
}

/// What comes of asking for the machines of a deployment one by one. `followed` is what was
/// collected on the machines, if they were followed, until `end`.
pub fn deploy_vm_decomposed_worker(
    run: DecomposedRun,
    followed: Option<PollCollector>,
    end: Instant,
) -> (r: DeploymentResult)
    ensures
        r.deep_view() == run.deep_view().result(followed.deep_view(), clock_nanos(end)),
{
    let (vm_statuses, vm_phase_timings) = outcome(followed);
    let success: bool = run.error.is_none();
    let vm_responses: Option<Vec<VmResponse>> = if run.vms.len() == 0 {
        None
    } else {
        Some(run.vms)
    };
    DeploymentResult {
        config_name: run.config.vm_config.name,
        approach: "decomposed".to_string(),
        start_time: run.start,
        duration: since(end, run.start),
        success,
        vm_responses,
        vm_statuses,
        error_message: run.error,
        thread_id: run.thread_id,
        individual_timings: Some(run.timings),
        vm_phase_timings,
    }
}

/// The calls of the decomposed approach ask for machines under different names.
pub proof fn law_individual_names_differ(d: DeploymentView, i: u32, j: u32)
    requires
        i != j,
    ensures
        individual(d, i).vm_config.name != individual(d, j).vm_config.name,
{
    law_decimal_is_unique((i + 1) as nat, (j + 1) as nat);
    let head = d.vm_config.name + "-"@;
    let a = decimal((i + 1) as nat);
    let b = decimal((j + 1) as nat);
    assert((head + a).skip(head.len() as int) =~= a);
    assert((head + b).skip(head.len() as int) =~= b);
}

/// But for its name, the machine that a call of the decomposed approach asks for is one that the
/// deployment asks for.
pub proof fn law_individual_asks_the_same(d: DeploymentView, i: u32)
    ensures
        ({
            let part = individual(d, i);
            &&& part.instances == 1
            &&& part == (DeploymentView {
                vm_config: VmConfigView { name: part.vm_config.name, ..d.vm_config },
                instances: 1,
                ..d
            })
        }),
{
}

/// The machines that a list of replies brings.
pub open spec fn machines_in(
    replies: Seq<(Result<Seq<VmResponseView>, Seq<char>>, nat)>,
) -> Seq<VmResponseView>
    decreases replies.len(),
{
    if replies.len() == 0 {
        Seq::empty()
    } else {
        machines_in(replies.drop_last()) + (match replies.last().0 {
            Ok(vms) => vms,
            Err(_) => Seq::empty(),
        })
    }
}

/// The ids that a list of replies puts on the list of machines to delete in the end.
pub open spec fn queued_by(
    replies: Seq<(Result<Seq<VmResponseView>, Seq<char>>, nat)>,
) -> Seq<Seq<char>>
    decreases replies.len(),
{
    if replies.len() == 0 {
        Seq::empty()
    } else {
        queued_by(replies.drop_last()) + new_ids(replies.last().0)
    }
}

impl DecomposedRunView {
    /// Calls have been answered, one by one.
    pub open spec fn answered_all(
        self,
        replies: Seq<(Result<Seq<VmResponseView>, Seq<char>>, nat)>,
    ) -> DecomposedRunView
        decreases replies.len(),
    {
        if replies.len() == 0 {
            self
        } else {
            self.answered_all(replies.drop_last()).answered(replies.last().0, replies.last().1)
        }
    }
}

/// A decomposed run goes on after a failed call: in the end it has every machine that came, and
/// the time of every call. It has failed exactly if its last call failed and no machine came.
pub proof fn law_run_has_every_machine(
    config: DeploymentView,
    thread_id: Seq<char>,
    start: int,
    replies: Seq<(Result<Seq<VmResponseView>, Seq<char>>, nat)>,
)
    requires
        replies.len() <= config.instances,
    ensures
        ({
            let run = DecomposedRunView::begun(config, thread_id, start).answered_all(replies);
            &&& run.wf()
            &&& run.config == config
            &&& run.thread_id == thread_id
            &&& run.start == start
            &&& run.calls == replies.len()
            &&& run.vms == machines_in(replies)
            &&& run.timings == replies.map_values(
                |r: (Result<Seq<VmResponseView>, Seq<char>>, nat)| r.1,
            )
            &&& run.error is Some <==> replies.len() > 0 && replies.len() == config.instances
                && replies.last().0 is Err && machines_in(replies).len() == 0
            &&& run.error is Some ==> run.error->0 == replies.last().0->Err_0
        }),
    decreases replies.len(),
{
    let begun = DecomposedRunView::begun(config, thread_id, start);
    let run = begun.answered_all(replies);
    if replies.len() > 0 {
        let before = begun.answered_all(replies.drop_last());
        law_run_has_every_machine(config, thread_id, start, replies.drop_last());
        assert(replies.drop_last().push(replies.last()) =~= replies);
        if replies.last().0 is Err {
            assert(machines_in(replies) =~= machines_in(replies.drop_last()));
        }
    }
    assert(run.timings =~= replies.map_values(
        |r: (Result<Seq<VmResponseView>, Seq<char>>, nat)| r.1,
    ));
}

/// Every machine that a decomposed run brings, and nothing else, is put on the list of machines
/// to delete in the end.
pub proof fn law_every_machine_is_queued(
    replies: Seq<(Result<Seq<VmResponseView>, Seq<char>>, nat)>,
)
    ensures
        queued_by(replies) == ids_of(machines_in(replies)),
    decreases replies.len(),
{
    if replies.len() > 0 {
        law_every_machine_is_queued(replies.drop_last());
    }
    assert(queued_by(replies) =~= ids_of(machines_in(replies)));
}

/// Every machine of the result of a bulk run, and nothing else, is put on the list of machines
/// to delete in the end. The run has succeeded exactly if its one call did.
pub proof fn law_bulk_run_is_its_call(
    run: BulkRunView,
    reply: Result<Seq<VmResponseView>, Seq<char>>,
    replied: int,
    followed: Option<PollCollectorView>,
    end: int,
)
    ensures
        ({
            let result = run.result(reply, replied, followed, end);
            &&& result.success == (reply is Ok)
            &&& result.success ==> result.vm_responses is Some && new_ids(reply) == ids_of(
                result.vm_responses->0,
            )
            &&& !result.success ==> result.vm_responses is None && new_ids(reply).len() == 0
                && result.error_message == Some(reply->Err_0)
        }),
{
}

/// What is collected of the followed machines is what the answers say of those that are up, in
/// the order of the answers, and how the launch of each of them went.
pub proof fn law_collected_machines_are_up(
    expected: nat,
    responses: Seq<VmPollingResponseView>,
)
    ensures
        ({
            let c = PollCollectorView::waiting(expected).taken_all(responses);
            let up = responses.filter(|r: VmPollingResponseView| r.success);
            &&& c.expected == expected
            &&& c.received == responses.len()
            &&& c.statuses == up.map_values(|r: VmPollingResponseView| status_of(r))
            &&& forall|i: int|
                0 <= i < c.statuses.len() ==> c.timings.contains_key((#[trigger] c.statuses[i]).id)
            &&& forall|id: Seq<char>| #[trigger]
                c.timings.contains_key(id) ==> exists|i: int|
                    0 <= i < responses.len() && (#[trigger] responses[i]).success
                        && responses[i].vm_id == id && responses[i].phase_timings == c.timings[id]
        }),
    decreases responses.len(),
{
    reveal(Seq::filter);
    let c = PollCollectorView::waiting(expected).taken_all(responses);
    let up = responses.filter(|r: VmPollingResponseView| r.success);
    if responses.len() > 0 {
        let front = responses.drop_last();
        let b = PollCollectorView::waiting(expected).taken_all(front);
        law_collected_machines_are_up(expected, front);
        assert forall|id: Seq<char>| #[trigger] c.timings.contains_key(id) implies exists|i: int|
            0 <= i < responses.len() && (#[trigger] responses[i]).success && responses[i].vm_id
                == id && responses[i].phase_timings == c.timings[id] by {
            if responses.last().success && responses.last().vm_id == id {
                assert(responses[responses.len() - 1].success);
            } else {
                assert(b.timings.contains_key(id));
                let i = choose|i: int|
                    0 <= i < front.len() && (#[trigger] front[i]).success && front[i].vm_id == id
                        && front[i].phase_timings == b.timings[id];
                assert(responses[i] == front[i]);
            }
        }
        assert forall|i: int| 0 <= i < c.statuses.len() implies c.timings.contains_key(
            (#[trigger] c.statuses[i]).id,
        ) by {
            if i < b.statuses.len() {
                assert(c.statuses[i] == b.statuses[i]);
            }
        }
    }
    assert(c.statuses =~= up.map_values(|r: VmPollingResponseView| status_of(r)));
}

} // verus!
