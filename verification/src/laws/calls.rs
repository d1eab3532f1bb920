//! What the operations promise to those who call them, said of what is handed in and what is
//! handed back.
use crate::analysis::{
    analysis_of, analyze_results, brought_in, law_every_machine_is_sorted,
    law_every_result_has_its_approach, log_vm_status_report, result_reports, AnalysisResult,
};
use crate::cleanup::{
    emergency_cleanup, emergency_cleanup_done, emergency_outcome, normal_cleanup,
    normal_cleanup_done, normal_outcome, outcome_view, CleanupPlan,
};
use crate::client::{
    is_success, law_first_of_that_id, name_in, reason_phrase, refusal, responses_view,
    status_view, DeployRequest, Deployment, FluenceClient, VmResponse, VmResponseView,
    VmStatusResponse, VmStatusView,
};
use crate::clock::{clock_nanos, seconds_written, span_nanos, utc_written};
use crate::config::{
    config_file_path, env_assignments, get_approach_info, keys_in, load_env_config, log_file_path,
    parse_ssh_keys, run_id, validate_config, Config,
};
use crate::deployment::{
    banner, DeploymentResult, LogEntry, LogMessage, PhaseTimingsTable, VmPhaseTimings,
    VmPollingRequest, VmPollingResponse, VmPollingResponseView,
};
use crate::json::{field, json_of, opt_json, parsed_json, Json};
use crate::laws::client::{
    law_deletion_names_every_machine, law_request_has_three_parts, law_request_names_the_machine,
    law_request_opens_every_port, lists,
};
use crate::laws::config::{
    law_key_is_read_whole, law_lines_are_read_one_by_one, law_plain_line_gives_key_and_value,
};
use crate::laws::logging::law_console_shows_the_line;
use crate::laws::polling::in_round;
use crate::laws::text::clean;
use crate::laws::worker::{
    holds_what_came, law_bulk_result_holds_what_came, law_decomposed_result_holds_what_came,
};
use crate::logging::{flush_log_buffer, stamp_text, Logger, LoggerStep};
use crate::polling::{is_timed_out, PollAction, Verdict, VmPoller};
use crate::run::{
    completion_messages, inject_ssh_keys, launch_plan, law_one_result_for_each_job, log_completion,
    running_message, Approach, Job, ResultCollector,
};
use crate::text::decimal;
use crate::worker::{
    deploy_vm_bulk_worker, deploy_vm_decomposed_worker, queue_vms, response_wait_seconds, BulkRun,
    DecomposedRun, PollCollector, PollCollectorView,
};
use serde_json::Value;
use std::time::{Duration, Instant};
use vstd::prelude::*;

verus! {

/// A machine is said to have taken too long exactly if more time lies between its request and
/// now than it was given.
pub proof fn law_call_is_timed_out(t: VmPhaseTimings, seconds: u64, now: Instant, r: bool)
    requires
        call_ensures(is_timed_out, (&t, seconds, now), r),
    ensures
        r <==> clock_nanos(now) - clock_nanos(t.requested_time) > seconds * 1_000_000_000,
{
}

/// The next step about a machine of a round is to give it up exactly if more time lies between
/// its request and now than the settings allow; otherwise it is to ask the API about it.
pub proof fn law_call_step<T>(now: Instant, r: (Vec<LogMessage>, PollAction))
    ensures
        forall|p: &mut VmPoller<T>| #[trigger]
            call_ensures(VmPoller::<T>::step, (p, now), r) && in_round((*p).deep_view()) ==> {
                let view = (*p).deep_view();
                let i = view.cursor->0 as int;
                let late = clock_nanos(now) - view.active[i].timings.requested_time
                    > view.settings.timeout_seconds * 1_000_000_000;
                &&& (late ==> r.1 is Reply && r.1->index == i && !(r.1->response).success
                    && (r.1->response).status@ == "Timeout"@ && (r.1->response).vm_id@
                    == view.active[i].request.vm_id)
                &&& (!late ==> r.1 is Ask && (r.1->vm_id)@ == view.active[i].request.vm_id)
            },
{
    assert forall|p: &mut VmPoller<T>| #[trigger]
        call_ensures(VmPoller::<T>::step, (p, now), r) && in_round((*p).deep_view()) implies {
        let view = (*p).deep_view();
        let i = view.cursor->0 as int;
        let late = clock_nanos(now) - view.active[i].timings.requested_time
            > view.settings.timeout_seconds * 1_000_000_000;
        &&& (late ==> r.1 is Reply && r.1->index == i && !(r.1->response).success && (
        r.1->response).status@ == "Timeout"@ && (r.1->response).vm_id@
            == view.active[i].request.vm_id)
        &&& (!late ==> r.1 is Ask && (r.1->vm_id)@ == view.active[i].request.vm_id)
    } by {
        assert(r.1.deep_view() == (*p).deep_view().next(clock_nanos(now)).2);
    }
}

/// A machine that is followed from now on is announced with its name and its id.
pub proof fn law_call_add<T>(
    request: VmPollingRequest,
    reply_to: T,
    now: Instant,
    log: LogMessage,
)
    ensures
        forall|p: &mut VmPoller<T>| #[trigger]
            call_ensures(VmPoller::<T>::add, (p, request, reply_to, now), log) ==> {
                let added = (*final(p)).deep_view().active.last();
                &&& (*final(p)).deep_view().active.len() == (*p).deep_view().active.len() + 1
                &&& added.request.vm_id == request.vm_id@
                &&& added.timings.requested_time == clock_nanos(now)
                &&& log is Info
                &&& (log->Info_0)@ == "[POLLING] Added VM "@ + request.vm_name@ + " ("@
                    + request.vm_id@ + ") to polling queue"@
            },
{
    assert forall|p: &mut VmPoller<T>| #[trigger]
        call_ensures(VmPoller::<T>::add, (p, request, reply_to, now), log) implies {
        let added = (*final(p)).deep_view().active.last();
        &&& (*final(p)).deep_view().active.len() == (*p).deep_view().active.len() + 1
        &&& added.request.vm_id == request.vm_id@
        &&& added.timings.requested_time == clock_nanos(now)
        &&& log is Info
        &&& (log->Info_0)@ == "[POLLING] Added VM "@ + request.vm_name@ + " ("@ + request.vm_id@
            + ") to polling queue"@
    } by {
        assert(log.deep_view() is Info);
    }
}

/// The request to deploy machines opens every port that is configured, with its number and its
/// protocol, in their order, and gives the machines the name and the image that are configured;
/// it goes to the address of the API with the key that opens it.
pub proof fn law_call_deploy_vm(
    client: FluenceClient,
    config: Deployment,
    r: DeployRequest,
)
    requires
        call_ensures(FluenceClient::deploy_vm, (&client, &config), r),
    ensures
        ({
            let setup = field(json_of(r.body), "vmConfiguration"@)->0;
            let ports = config.vm_config.open_ports@;
            let sent = field(setup, "openPorts"@);
            &&& r.url@ == client.deep_view().base_url + "/vms/v3"@
            &&& r.authorization@ == "Bearer "@ + client.deep_view().api_key
            &&& field(json_of(r.body), "instances"@) == Some(
                Json::Integer(config.instances as int),
            )
            &&& field(setup, "name"@) == Some(Json::Text(config.vm_config.name@))
            &&& field(setup, "osImage"@) == Some(Json::Text(config.vm_config.os_image@))
            &&& (config.vm_config.hostname is Some ==> field(setup, "hostname"@) == Some(
                Json::Text(config.vm_config.hostname->0@),
            ))
            &&& (ports.len() == 0 ==> sent is None)
            &&& (ports.len() > 0 ==> sent is Some && sent->0 is Array && sent->0->Array_0.len()
                == ports.len())
            &&& (ports.len() > 0 ==> forall|i: int|
                0 <= i < ports.len() ==> {
                    let item = #[trigger] sent->0->Array_0[i];
                    &&& field(item, "port"@) == Some(Json::Integer(ports[i].port as int))
                    &&& field(item, "protocol"@) == Some(Json::Text(ports[i].protocol@))
                })
        }),
{
    let d = config.deep_view();
    law_request_has_three_parts(d);
    law_request_names_the_machine(d);
    law_request_opens_every_port(d);
    assert(d.vm_config.open_ports.len() == config.vm_config.open_ports@.len());
    assert(forall|i: int|
        0 <= i < config.vm_config.open_ports@.len() ==> #[trigger] d.vm_config.open_ports[i]
            == config.vm_config.open_ports@[i].deep_view());
}

/// The answer to the request to deploy machines is taken as it was read if the request was
/// carried out; otherwise the reason that the API gives is.
pub proof fn law_call_deploy_vm_reply(
    client: FluenceClient,
    config: Deployment,
    status: u16,
    text: &str,
    parsed: Result<Vec<VmResponse>, String>,
    r: (Vec<LogMessage>, Result<Vec<VmResponse>, String>),
)
    requires
        call_ensures(
            FluenceClient::deploy_vm_reply,
            (&client, &config, status, text, parsed),
            r,
        ),
    ensures
        200 <= status < 300 ==> r.1 == parsed,
        !(200 <= status < 300) ==> r.1 is Err && (r.1->Err_0)@ == refusal(
            parsed_json(text@),
            decimal(status as nat) + " "@ + reason_phrase(status),
            text@,
        ),
{
}

/// The request to delete machines names each of them, in their order.
pub proof fn law_call_delete_vms(client: FluenceClient, ids: Vec<String>, body: Value)
    requires
        call_ensures(FluenceClient::delete_vms, (&client, &ids), body),
    ensures
        field(json_of(body), "vmIds"@) is Some,
        lists(field(json_of(body), "vmIds"@)->0, ids.deep_view()),
{
    law_deletion_names_every_machine(ids.deep_view());
}

/// Machines are deleted exactly if the request to delete them was carried out; otherwise the
/// answer is the reason.
pub proof fn law_call_delete_vms_reply(
    client: FluenceClient,
    status: u16,
    text: &str,
    r: Result<(), String>,
)
    requires
        call_ensures(FluenceClient::delete_vms_reply, (&client, status, text), r),
    ensures
        r is Ok <==> 200 <= status < 300,
        r is Err ==> (r->Err_0)@ == "API Error: "@ + text@,
{
}

/// A request was carried out exactly if its status is one of the two hundreds.
pub proof fn law_call_is_success(status: u16, r: bool)
    requires
        call_ensures(is_success, (status,), r),
    ensures
        r <==> 200 <= status < 300,
{
}

/// What the API says of a machine is handed on as it says it.
pub proof fn law_call_status_names(
    s: VmStatusResponse,
    info: (&Option<Value>, &Option<Value>),
    name: &str,
    datacenter: Option<String>,
    provider: Option<String>,
    location: Option<String>,
)
    requires
        call_ensures(VmStatusResponse::get_provider_info, (&s,), info),
        call_ensures(VmStatusResponse::get_full_name, (&s,), name),
        call_ensures(VmStatusResponse::datacenter_name, (&s,), datacenter),
        call_ensures(VmStatusResponse::provider_name, (&s,), provider),
        call_ensures(VmStatusResponse::location_name, (&s,), location),
    ensures
        *info.0 == s.provider,
        *info.1 == s.provider_location,
        name@ == s.vm_name@,
        datacenter.deep_view() == name_in(opt_json(s.datacenter)),
        provider.deep_view() == name_in(opt_json(s.provider)),
        location.deep_view() == name_in(opt_json(s.provider_location)),
{
}

/// From a file of one line, the key before the first equals sign and all that stands after it are
/// read, whatever the value holds.
pub proof fn law_call_env_assignments(
    content: &str,
    key: Seq<char>,
    value: Seq<char>,
    r: Vec<(String, String)>,
)
    requires
        call_ensures(env_assignments, (content,), r),
        content@ == key.push('=') + value,
        clean(key) && clean(value),
        !key.contains('='),
        !key.contains('\n'),
        !value.contains('\n'),
    ensures
        r@.len() == 1,
        r@[0].0@ == key,
        r@[0].1@ == value,
{
    law_plain_line_gives_key_and_value(key, value);
    assert(r.deep_view().len() == r@.len());
    assert(r.deep_view()[0] == r@[0].deep_view());
}

/// A file is read line by line: what is read from two parts of it is read from the whole, in
/// their order.
pub proof fn law_call_env_assignments_of_parts(
    a: &str,
    b: &str,
    whole: &str,
    ra: Vec<(String, String)>,
    rb: Vec<(String, String)>,
    r: Vec<(String, String)>,
)
    requires
        call_ensures(env_assignments, (a,), ra),
        call_ensures(env_assignments, (b,), rb),
        call_ensures(env_assignments, (whole,), r),
        whole@ == a@.push('\n') + b@,
    ensures
        r.deep_view() == ra.deep_view() + rb.deep_view(),
{
    law_lines_are_read_one_by_one(a@, b@);
}

/// A key without white space around it, and without a comma, is read as it stands.
pub proof fn law_call_parse_ssh_keys(s: &str, r: Vec<String>)
    requires
        call_ensures(parse_ssh_keys, (s,), r),
        clean(s@),
        !s@.contains(','),
    ensures
        s@.len() > 0 ==> r@.len() == 1 && r@[0]@ == s@,
        s@.len() == 0 ==> r@.len() == 0,
{
    let none = Seq::<char>::empty();
    assert(none + s@ + none =~= s@);
    law_key_is_read_whole(none, s@, none);
    assert(r.deep_view().len() == r@.len());
    if s@.len() > 0 {
        assert(r.deep_view()[0] == r@[0]@);
    }
}

/// Where the configuration and the log are, is what the environment says, or else the usual
/// place.
pub proof fn law_call_paths(variable: Option<String>, config: String, log: String)
    requires
        call_ensures(config_file_path, (variable,), config),
        call_ensures(log_file_path, (variable,), log),
    ensures
        variable is Some ==> config@ == variable->0@ && log@ == variable->0@,
        variable is None ==> config@ == "./deployment_config.yaml"@ && log@
            == "./logs/vm_deployment.log"@,
{
}

/// A run is named, and its lines are stamped, by the moment that is given.
pub proof fn law_call_moments(seconds: i64, id: String, stamp: String)
    requires
        call_ensures(run_id, (seconds,), id),
        call_ensures(stamp_text, (seconds,), stamp),
    ensures
        id@ == utc_written(seconds as int, "%Y%m%d_%H%M%S"@),
        stamp@ == utc_written(seconds as int, "%Y-%m-%d %H:%M:%S UTC"@),
{
}

/// A configuration is refused exactly if it has no deployment or no approach, and the refusal
/// says which.
pub proof fn law_call_validate_config(c: Config, r: Result<(), String>)
    requires
        call_ensures(validate_config, (&c,), r),
    ensures
        c.deployments@.len() == 0 ==> r is Err && (r->Err_0)@
            == "No deployments found in config file"@,
        c.deployments@.len() > 0 && !c.enable_bulk_approach && !c.enable_decomposed_approach
            ==> r is Err && (r->Err_0)@
            == "Both bulk and decomposed approaches are disabled! Enable at least one in config."@,
        c.deployments@.len() > 0 && (c.enable_bulk_approach || c.enable_decomposed_approach)
            ==> r is Ok,
{
    assert(c.deep_view().deployments.len() == c.deployments@.len());
}

/// The approaches that a run takes are named.
pub proof fn law_call_get_approach_info(c: Config, r: &'static str)
    requires
        call_ensures(get_approach_info, (&c,), r),
        c.enable_bulk_approach || c.enable_decomposed_approach,
    ensures
        c.enable_bulk_approach && c.enable_decomposed_approach ==> r@
            == "BOTH BULK and DECOMPOSED approaches"@,
        !c.enable_decomposed_approach ==> r@ == "BULK approach only"@,
        !c.enable_bulk_approach ==> r@ == "DECOMPOSED approach only"@,
{
}

/// With the console enabled a message is printed exactly if it is not the end, and what is printed
/// is the line that is kept or written; with the console disabled nothing is printed.
pub proof fn law_call_accept(
    message: LogMessage,
    seconds: i64,
    variable: Option<String>,
    step: LoggerStep,
)
    ensures
        forall|l: &mut Logger| #[trigger]
            call_ensures(Logger::accept, (l, &message, seconds, variable), step) ==> {
                let before = (*l).deep_view();
                let after = (*final(l)).deep_view();
                &&& (step.print is Some <==> before.enable_console && !(message is Shutdown))
                &&& (step.print is Some && step.write is None && after.buffer.len() > 0
                    ==> after.buffer == before.buffer.push(step.print->0@))
                &&& (step.print is Some && step.write is Some ==> (step.write->0).1.deep_view()
                    == before.buffer.push(step.print->0@) && after.buffer.len() == 0)
                &&& (step.stop <==> message is Shutdown)
                &&& after.enable_console == before.enable_console
            },
{
    assert forall|l: &mut Logger| #[trigger]
        call_ensures(Logger::accept, (l, &message, seconds, variable), step) implies {
        let before = (*l).deep_view();
        let after = (*final(l)).deep_view();
        &&& (step.print is Some <==> before.enable_console && !(message is Shutdown))
        &&& (step.print is Some && step.write is None && after.buffer.len() > 0 ==> after.buffer
            == before.buffer.push(step.print->0@))
        &&& (step.print is Some && step.write is Some ==> (step.write->0).1.deep_view()
            == before.buffer.push(step.print->0@) && after.buffer.len() == 0)
        &&& (step.stop <==> message is Shutdown)
        &&& after.enable_console == before.enable_console
    } by {
        law_console_shows_the_line(
            (*l).deep_view(),
            message.deep_view(),
            seconds as int,
            variable.deep_view(),
        );
        assert(step.deep_view().print == step.print.deep_view());
        assert(step.deep_view().write == step.write.deep_view());
    }
}

/// Emptying the buffer takes every line out of it.
pub proof fn law_call_flush_log_buffer(
    variable: Option<String>,
    r: Option<(String, Vec<String>)>,
)
    ensures
        forall|buffer: &mut Vec<String>| #[trigger]
            call_ensures(flush_log_buffer, (buffer, variable), r) ==> {
                &&& (*final(buffer)).deep_view().len() == 0
                &&& (r is Some ==> (r->0).1.deep_view() == (*buffer).deep_view())
                &&& (r is Some && variable is Some ==> (r->0).0@ == variable->0@)
            },
{
    assert forall|buffer: &mut Vec<String>| #[trigger]
        call_ensures(flush_log_buffer, (buffer, variable), r) implies {
        &&& (*final(buffer)).deep_view().len() == 0
        &&& (r is Some ==> (r->0).1.deep_view() == (*buffer).deep_view())
        &&& (r is Some && variable is Some ==> (r->0).0@ == variable->0@)
    } by {
        if r is Some {
            assert(r.deep_view()->0 == (r->0).deep_view());
        }
    }
}

/// The result of a decomposed run whose machines were followed tells of exactly the machines
/// whose answers told of success, in the order of the answers.
pub proof fn law_call_deploy_vm_decomposed_worker(
    run: DecomposedRun,
    followed: PollCollector,
    end: Instant,
    expected: nat,
    responses: Seq<VmPollingResponseView>,
    r: DeploymentResult,
)
    requires
        call_ensures(deploy_vm_decomposed_worker, (run, Some(followed), end), r),
        followed.deep_view() == PollCollectorView::waiting(expected).taken_all(responses),
    ensures
        holds_what_came(r.deep_view(), responses),
        r.approach@ == "decomposed"@,
{
    let option = Some(followed);
    assert(option.deep_view() == Some(followed.deep_view()));
    law_decomposed_result_holds_what_came(
        run.deep_view(),
        expected,
        responses,
        clock_nanos(end),
    );
}

/// The result of a bulk run that succeeded and whose machines were followed tells of exactly the
/// machines whose answers told of success, in the order of the answers.
pub proof fn law_call_deploy_vm_bulk_worker(
    run: BulkRun,
    vms: Vec<VmResponse>,
    replied: Instant,
    followed: PollCollector,
    end: Instant,
    expected: nat,
    responses: Seq<VmPollingResponseView>,
    r: DeploymentResult,
)
    requires
        call_ensures(deploy_vm_bulk_worker, (run, Ok(vms), replied, Some(followed), end), r),
        followed.deep_view() == PollCollectorView::waiting(expected).taken_all(responses),
    ensures
        holds_what_came(r.deep_view(), responses),
        r.approach@ == "bulk"@,
        r.success,
{
    let option = Some(followed);
    assert(option.deep_view() == Some(followed.deep_view()));
    law_bulk_result_holds_what_came(
        run.deep_view(),
        vms.deep_view(),
        clock_nanos(replied),
        expected,
        responses,
        clock_nanos(end),
    );
}

/// A bulk run makes its call unless the signal to stop has come, and asks for the whole
/// deployment.
pub proof fn law_call_bulk_next_call(run: BulkRun, stop: bool, r: Option<&Deployment>)
    requires
        call_ensures(BulkRun::next_call, (&run, stop), r),
    ensures
        r is Some <==> !stop,
        r is Some ==> r->0.deep_view() == run.deep_view().config,
{
}

/// A decomposed run makes its next call unless every machine was asked for or the signal to stop
/// has come, and asks for a single machine under its own name.
pub proof fn law_call_decomposed_next_call(
    run: DecomposedRun,
    stop: bool,
    r: Option<Deployment>,
)
    requires
        call_ensures(DecomposedRun::next_call, (&run, stop), r),
    ensures
        r is Some <==> !stop && run.deep_view().calls < run.deep_view().config.instances,
        r is Some ==> (r->0).instances == 1 && (r->0).vm_config.name@
            == run.deep_view().config.vm_config.name + "-"@ + decimal(
            (run.deep_view().calls + 1) as nat,
        ),
{
    if r is Some {
        assert((r->0).deep_view().instances == (r->0).instances);
    }
}

/// The machines of a run are followed exactly if machines are followed and some came; each of them
/// is, in their order, for its deployment and approach.
pub proof fn law_call_requests(
    bulk: BulkRun,
    polling: bool,
    reply: Result<Vec<VmResponse>, String>,
    rb: Option<Vec<VmPollingRequest>>,
    decomposed: DecomposedRun,
    rd: Option<Vec<VmPollingRequest>>,
)
    requires
        call_ensures(BulkRun::requests, (&bulk, polling, &reply), rb),
        call_ensures(DecomposedRun::requests, (&decomposed, polling), rd),
    ensures
        rb is Some <==> polling && reply is Ok,
        rb is Some ==> {
            let vms = (reply->Ok_0).deep_view();
            let list = rb->0.deep_view();
            &&& list.len() == vms.len()
            &&& forall|i: int|
                0 <= i < vms.len() ==> (#[trigger] list[i]).vm_id == vms[i].vm_id
                    && list[i].vm_name == vms[i].vm_name && list[i].deployment_name
                    == bulk.deep_view().config.vm_config.name && list[i].approach == "bulk"@
        },
        rd is Some <==> polling && decomposed.deep_view().vms.len() > 0,
        rd is Some ==> {
            let vms = decomposed.deep_view().vms;
            let list = rd->0.deep_view();
            &&& list.len() == vms.len()
            &&& forall|i: int|
                0 <= i < vms.len() ==> (#[trigger] list[i]).vm_id == vms[i].vm_id
                    && list[i].vm_name == vms[i].vm_name && list[i].deployment_name
                    == decomposed.deep_view().config.vm_config.name && list[i].approach
                    == "decomposed"@
        },
{
}

/// New machines are queued for deletion behind those that are queued, each under its id.
pub proof fn law_call_queue_vms(vms: Vec<VmResponse>)
    ensures
        forall|queue: &mut Vec<String>| #[trigger]
            call_ensures(queue_vms, (queue, &vms), ()) ==> {
                let before = (*queue).deep_view();
                let after = (*final(queue)).deep_view();
                &&& after.len() == before.len() + vms@.len()
                &&& after.take(before.len() as int) == before
                &&& forall|i: int|
                    0 <= i < vms@.len() ==> after[before.len() + i] == (#[trigger] vms@[i]).vm_id@
            },
{
    assert forall|queue: &mut Vec<String>| #[trigger]
        call_ensures(queue_vms, (queue, &vms), ()) implies {
        let before = (*queue).deep_view();
        let after = (*final(queue)).deep_view();
        &&& after.len() == before.len() + vms@.len()
        &&& after.take(before.len() as int) == before
        &&& forall|i: int|
            0 <= i < vms@.len() ==> after[before.len() + i] == (#[trigger] vms@[i]).vm_id@
    } by {
        let before = (*queue).deep_view();
        let after = (*final(queue)).deep_view();
        assert(after.take(before.len() as int) =~= before);
        assert(vms.deep_view().len() == vms@.len());
        assert(forall|i: int|
            0 <= i < vms@.len() ==> vms.deep_view()[i] == (#[trigger] vms@[i]).deep_view());
    }
}

/// A run waits for the next answer a minute longer than a machine may take.
pub proof fn law_call_response_wait_seconds(timeout: u64, r: u64)
    requires
        call_ensures(response_wait_seconds, (timeout,), r),
        timeout + 60 <= u64::MAX,
    ensures
        r - timeout == 60,
{
}

/// More answers are wanted exactly until as many came as were expected.
pub proof fn law_call_wants_more(c: PollCollector, r: bool)
    requires
        call_ensures(PollCollector::wants_more, (&c,), r),
    ensures
        r <==> c.deep_view().received < c.deep_view().expected,
{
}

/// A collector begins with nothing and waits for as many answers as are asked for.
pub proof fn law_call_collector_new(expected: usize, r: PollCollector)
    requires
        call_ensures(PollCollector::new, (expected,), r),
    ensures
        r.deep_view().expected == expected,
        r.deep_view().received == 0,
        r.deep_view().statuses.len() == 0,
{
}

/// An answer that is taken counts, and adds its machine exactly if it tells of success.
pub proof fn law_call_collector_take(response: VmPollingResponse)
    ensures
        forall|c: &mut PollCollector| #[trigger]
            call_ensures(PollCollector::take, (c, response), ()) ==> {
                let before = (*c).deep_view();
                let after = (*final(c)).deep_view();
                &&& after.received == before.received + 1 && after.expected == before.expected
                &&& (!response.success ==> after.statuses == before.statuses && after.timings
                    == before.timings)
                &&& (response.success ==> after.statuses.len() == before.statuses.len() + 1
                    && after.statuses.last().id == response.vm_id@
                    && after.statuses.last().public_ip == response.public_ip.deep_view()
                    && after.timings[response.vm_id@] == response.phase_timings.deep_view())
            },
{
}

/// After the signal to stop there are no jobs; otherwise each deployment has one for each approach
/// that is enabled.
pub proof fn law_call_launch_plan(c: Config, stop: bool, r: Vec<Job>)
    requires
        call_ensures(launch_plan, (&c, stop), r),
    ensures
        stop ==> r@.len() == 0,
        !stop && c.enable_bulk_approach && c.enable_decomposed_approach ==> r@.len()
            == c.deployments@.len() * 2,
        !stop && c.enable_bulk_approach != c.enable_decomposed_approach ==> r@.len()
            == c.deployments@.len() && forall|i: int|
            0 <= i < r@.len() ==> (#[trigger] r@[i]).deployment.deep_view()
                == c.deployments@[i].deep_view() && (r@[i].approach == Approach::Bulk
                <==> c.enable_bulk_approach),
{
    let view = c.deep_view();
    assert(r.deep_view().len() == r@.len());
    assert(view.deployments.len() == c.deployments@.len());
    assert(forall|i: int|
        0 <= i < r@.len() ==> r.deep_view()[i] == (#[trigger] r@[i]).deep_view());
    if view.deployments.len() > 0 && (c.enable_bulk_approach || c.enable_decomposed_approach) {
        law_one_result_for_each_job(view);
        assert(forall|i: int|
            0 <= i < c.deployments@.len() ==> view.deployments[i] == (
            #[trigger] c.deployments@[i]).deep_view());
    }
    assert forall|i: int|
        !stop && c.enable_bulk_approach != c.enable_decomposed_approach && 0 <= i
            < r@.len() implies (#[trigger] r@[i]).deployment.deep_view()
        == c.deployments@[i].deep_view() && (r@[i].approach == Approach::Bulk
        <==> c.enable_bulk_approach) by {
        assert(view.deployments[i] == c.deployments@[i].deep_view());
        assert(r.deep_view()[i] == r@[i].deep_view());
    }
}

/// Before its jobs are launched a run tells how many deployments there are and by which
/// approaches.
pub proof fn law_call_running_message(c: Config, approaches: &str, r: LogMessage)
    requires
        call_ensures(running_message, (&c, approaches), r),
    ensures
        r is Info,
        (r->Info_0)@ == "Running: "@ + decimal(c.deployments@.len()) + " deployments with "@
            + approaches@,
{
    assert(c.deep_view().deployments.len() == c.deployments@.len());
    assert(r.deep_view() is Info);
}

/// The last words of a run tell when it ended.
pub proof fn law_call_completion(
    stamp: &str,
    words: Vec<LogMessage>,
    seconds: i64,
    log: Vec<LogMessage>,
)
    requires
        call_ensures(completion_messages, (stamp,), words),
        call_ensures(log_completion, (seconds,), log),
    ensures
        words.deep_view() == banner("FLUENCE VM DEPLOYMENT COMPLETED - "@ + stamp@),
        log.deep_view() == banner(
            "FLUENCE VM DEPLOYMENT COMPLETED - "@ + utc_written(
                seconds as int,
                "%Y-%m-%d %H:%M:%S UTC"@,
            ),
        ),
{
}

/// What came of the deployments is told under its title, one deployment after the other.
pub proof fn law_call_log_vm_status_report(
    analysis: AnalysisResult<'_>,
    results: &[DeploymentResult],
    logs: Vec<LogMessage>,
)
    requires
        call_ensures(log_vm_status_report, (&analysis, results), logs),
    ensures
        logs.deep_view() == banner("DEPLOYMENT RESULTS"@) + result_reports(results.deep_view()),
{
}

/// The results of a run are handed on as they came.
pub proof fn law_call_results(
    c: ResultCollector,
    results: Vec<DeploymentResult>,
    config: Config,
    begun: ResultCollector,
)
    requires
        call_ensures(ResultCollector::collect_results, (c,), results),
        call_ensures(ResultCollector::new, (&config,), begun),
    ensures
        results.deep_view() == c.deep_view().results,
        begun.deep_view().results.len() == 0,
        config.enable_bulk_approach && config.enable_decomposed_approach
            ==> begun.deep_view().expected == config.deployments@.len() * 2,
        !(config.enable_bulk_approach && config.enable_decomposed_approach)
            ==> begun.deep_view().expected == config.deployments@.len(),
{
    assert(config.deep_view().deployments.len() == config.deployments@.len());
}

/// A result that is taken is the last one, and the others stay.
pub proof fn law_call_results_take(result: DeploymentResult)
    ensures
        forall|c: &mut ResultCollector| #[trigger]
            call_ensures(ResultCollector::take, (c, result), ()) ==> {
                let before = (*c).deep_view();
                let after = (*final(c)).deep_view();
                &&& after.expected == before.expected
                &&& after.results == before.results.push(result.deep_view())
            },
{
}

/// Machines whose deletion was ordered are all named in the order, after the signal to stop and at
/// the end of a run that is to delete its machines.
pub proof fn law_call_cleanup(
    queue: Vec<String>,
    config: Config,
    emergency: CleanupPlan,
    normal: CleanupPlan,
)
    requires
        call_ensures(emergency_cleanup, (&queue,), emergency),
        call_ensures(normal_cleanup, (&config, &queue), normal),
    ensures
        queue@.len() > 0 ==> emergency.vm_ids is Some && emergency.vm_ids->0.deep_view()
            == queue.deep_view() && emergency.wait_seconds == 0,
        queue@.len() > 0 && config.batch_delete_enabled ==> normal.vm_ids is Some
            && normal.vm_ids->0.deep_view() == queue.deep_view() && normal.wait_seconds
            == config.delete_delay_seconds,
        !config.batch_delete_enabled || queue@.len() == 0 ==> normal.vm_ids is None
            && normal.wait_seconds == 0,
        queue@.len() == 0 ==> emergency.vm_ids is None,
{
    assert(queue.deep_view().len() == queue@.len());
    assert(emergency.deep_view().vm_ids == emergency.vm_ids.deep_view());
    assert(normal.deep_view().vm_ids == normal.vm_ids.deep_view());
}

/// What came of deleting the machines is told with how many they were and how long it took, to the
/// microsecond; after the signal to stop the last words are that the run was stopped.
pub proof fn law_call_cleanup_done(
    queue: Vec<String>,
    deletion: Option<(Result<(), String>, Duration)>,
    stopped: Vec<LogMessage>,
    outcome: Result<(), String>,
    took: Duration,
    ended: Vec<LogMessage>,
)
    requires
        call_ensures(emergency_cleanup_done, (&queue, deletion), stopped),
        call_ensures(normal_cleanup_done, (&queue, outcome, took), ended),
    ensures
        stopped.deep_view().last() == LogEntry::Info("🛑 Graceful shutdown completed"@),
        deletion is None ==> stopped.deep_view().len() == 1,
        deletion matches Some((Ok(_), d)) ==> stopped.deep_view().drop_last()
            == emergency_outcome(
            queue@.len(),
            Ok(()),
            seconds_written(span_nanos(d), 6),
        ),
        deletion matches Some((Err(e), d)) ==> stopped.deep_view().drop_last()
            == emergency_outcome(
            queue@.len(),
            Err(e@),
            seconds_written(span_nanos(d), 6),
        ),
        outcome is Ok ==> ended.deep_view() == normal_outcome(
            queue@.len(),
            Ok(()),
            seconds_written(span_nanos(took), 6),
        ),
        outcome is Err ==> ended.deep_view() == normal_outcome(
            queue@.len(),
            Err((outcome->Err_0)@),
            seconds_written(span_nanos(took), 6),
        ),
{
    let all = stopped.deep_view();
    let head = match deletion {
        Some((outcome, took)) => emergency_outcome(
            queue@.len(),
            outcome_view(outcome),
            seconds_written(span_nanos(took), 6),
        ),
        None => Seq::empty(),
    };
    assert(all.drop_last() =~= head);
}

/// The phases of a machine that were set are found again under its id, and those of the other
/// machines stay.
pub proof fn law_call_table(
    id: String,
    timings: VmPhaseTimings,
    other: Seq<char>,
)
    ensures
        forall|t: &mut PhaseTimingsTable| #[trigger]
            call_ensures(PhaseTimingsTable::insert, (t, id, timings), ()) ==> {
                let before = (*t).deep_view();
                let after = (*final(t)).deep_view();
                &&& after.contains_key(id@) && after[id@] == timings.deep_view()
                &&& (other != id@ ==> (after.contains_key(other) <==> before.contains_key(other)))
                &&& (other != id@ && before.contains_key(other) ==> after[other]
                    == before[other])
            },
{
}

/// The time that a deployment has taken runs from its start.
pub proof fn law_call_execution_time(result: DeploymentResult, t: Instant, r: Duration)
    requires
        call_ensures(DeploymentResult::execution_time_at, (&result, t), r),
        clock_nanos(result.start_time) <= clock_nanos(t),
    ensures
        span_nanos(r) == clock_nanos(t) - clock_nanos(result.start_time),
{
}

/// An answer on a machine names its deployment and its approach.
pub proof fn law_call_get_deployment_info(response: VmPollingResponse, r: (&str, &str))
    requires
        call_ensures(VmPollingResponse::get_deployment_info, (&response,), r),
    ensures
        r.0@ == response.deployment_name@,
        r.1@ == response.approach@,
{
}

/// Asking for a machine gives a machine only if the question was answered, and then the one with
/// the id that was asked for, which the API listed.
pub proof fn law_call_get_vm_status(
    client: FluenceClient,
    vm_id: &str,
    status: u16,
    text: &str,
    parsed: Result<Vec<VmStatusResponse>, String>,
    r: Result<VmStatusResponse, String>,
)
    requires
        call_ensures(FluenceClient::get_vm_status, (&client, vm_id, status, text, parsed), r),
    ensures
        r is Ok <==> 200 <= status < 300 && parsed is Ok && exists|i: int|
            0 <= i < (parsed->Ok_0).deep_view().len() && (
            #[trigger] (parsed->Ok_0).deep_view()[i]).id == vm_id@,
        r is Ok ==> (r->Ok_0).id@ == vm_id@ && (parsed->Ok_0).deep_view().contains(
            (r->Ok_0).deep_view(),
        ),
{
    if parsed is Ok {
        law_first_of_that_id((parsed->Ok_0).deep_view(), vm_id@);
    }
}

/// What the environment must give is there exactly if the key to the API is and a key to log in
/// with; it is taken as it is read, and the log goes where the environment says.
pub proof fn law_call_load_env_config(
    api_key: Option<String>,
    ssh_keys: Option<String>,
    path: Option<String>,
    r: Result<(String, Vec<String>, String), String>,
)
    requires
        call_ensures(load_env_config, (api_key, ssh_keys, path), r),
    ensures
        r is Ok <==> api_key is Some && ssh_keys is Some && keys_in(ssh_keys->0@).len() > 0,
        r is Ok ==> (r->Ok_0).0@ == api_key->0@ && (r->Ok_0).1.deep_view() == keys_in(
            ssh_keys->0@,
        ),
        r is Ok && path is Some ==> (r->Ok_0).2@ == path->0@,
        r is Ok && path is None ==> (r->Ok_0).2@ == "./logs/vm_deployment.log"@,
{
}

/// The outcome of several deployments sorts every machine: as many are launched or failed as the
/// deployments brought.
pub proof fn law_call_analyze_results(results: &[DeploymentResult], r: AnalysisResult<'_>)
    requires
        call_ensures(analyze_results, (results,), r),
    ensures
        r.deep_view() == analysis_of(results.deep_view()),
        r.launched_vms@.len() + r.failed_vms@.len() == brought_in(results.deep_view()),
        r.bulk_results@.len() + r.decomposed_results@.len() == results@.len(),
{
    law_every_machine_is_sorted(results.deep_view());
    law_every_result_has_its_approach(results.deep_view());
    assert(r.launched_vms.deep_view().len() == r.launched_vms@.len());
    assert(r.failed_vms.deep_view().len() == r.failed_vms@.len());
    assert(r.bulk_results.deep_view().len() == r.bulk_results@.len());
    assert(r.decomposed_results.deep_view().len() == r.decomposed_results@.len());
    assert(results.deep_view().len() == results@.len());
}

/// After an answer about the machine that is next, the round goes on with the machine behind it.
/// Word is sent of a machine that is active, as far as it has an address or needs none, and says
/// that it is up; a machine that is launching is followed further.
pub proof fn law_call_answer<T>(
    status: VmStatusResponse,
    now: Instant,
    r: (usize, Verdict),
)
    ensures
        forall|p: &mut VmPoller<T>| #[trigger]
            call_ensures(VmPoller::<T>::answer, (p, Ok(status), now), r) && in_round(
                (*p).deep_view(),
            ) ==> {
                let before = (*p).deep_view();
                let after = (*final(p)).deep_view();
                let needs = before.settings.enable_ip_retrieval;
                &&& before.cursor == Some(r.0)
                &&& after.cursor == Some((r.0 + 1) as usize)
                &&& after.active.len() == before.active.len()
                &&& (status.status@ == "Launching"@ ==> r.1.response is None)
                &&& (status.status@ == "Active"@ ==> (r.1.response is Some <==> !needs
                    || status.public_ip is Some))
                &&& (status.status@ == "Active"@ && r.1.response is Some
                    ==> r.1.response->0.success && r.1.response->0.vm_id@
                    == before.active[r.0 as int].request.vm_id)
                &&& (status.status@ != "Active"@ && status.status@ != "Launching"@
                    ==> r.1.response is Some && !r.1.response->0.success)
                &&& (r.1.response is Some ==> after.completed == before.completed.push(r.0))
                &&& (r.1.response is None ==> after.completed == before.completed)
            },
{
    reveal_strlit("Launching");
    reveal_strlit("Active");
    assert("Launching"@.len() != "Active"@.len());
    let answer: Result<VmStatusResponse, String> = Ok(status);
    assert(status_view(answer) == Ok::<VmStatusView, Seq<char>>(status.deep_view()));
}

/// The answer to a call counts, and the machines that it brings are kept and queued for deletion,
/// behind those that came before.
pub proof fn law_call_decomposed_answer(
    vms: Vec<VmResponse>,
    took: Duration,
    message: LogMessage,
)
    ensures
        forall|run: &mut DecomposedRun, queue: &mut Vec<String>| #[trigger]
            call_ensures(DecomposedRun::answer, (run, queue, Ok(vms), took), message)
                && (*run).deep_view().calls < (*run).deep_view().config.instances ==> {
                let before = (*run).deep_view();
                let after = (*final(run)).deep_view();
                &&& after.calls == before.calls + 1
                &&& after.vms == before.vms + vms.deep_view()
                &&& after.timings == before.timings.push(span_nanos(took))
                &&& after.error == before.error && after.config == before.config
                &&& (*final(queue)).deep_view().len() == (*queue).deep_view().len()
                    + vms.deep_view().len()
                &&& message is Success
            },
{
    let reply: Result<Vec<VmResponse>, String> = Ok(vms);
    assert(responses_view(reply) == Ok::<Seq<VmResponseView>, Seq<char>>(vms.deep_view()));
    assert(message is Success <==> message.deep_view() is Success);
}

/// The machines of a bulk call are queued for deletion behind those that are queued; a failed call
/// queues none.
pub proof fn law_call_bulk_reply(
    run: BulkRun,
    reply: Result<Vec<VmResponse>, String>,
    replied: Instant,
    message: LogMessage,
)
    ensures
        forall|queue: &mut Vec<String>| #[trigger]
            call_ensures(BulkRun::reply, (&run, queue, &reply, replied), message) ==> {
                let before = (*queue).deep_view();
                let after = (*final(queue)).deep_view();
                &&& (reply is Err ==> after == before && message is Error)
                &&& (reply is Ok ==> after.len() == before.len() + (reply->Ok_0).deep_view().len()
                    && message is Success)
                &&& (reply is Ok ==> forall|i: int|
                    0 <= i < (reply->Ok_0).deep_view().len() ==> after[before.len() + i] == (
                    #[trigger] (reply->Ok_0).deep_view()[i]).vm_id)
            },
{
    assert(message is Success <==> message.deep_view() is Success);
    assert(message is Error <==> message.deep_view() is Error);
    assert forall|queue: &mut Vec<String>| #[trigger]
        call_ensures(BulkRun::reply, (&run, queue, &reply, replied), message) && reply is Err implies (
    *final(queue)).deep_view() == (*queue).deep_view() by {
        assert((*final(queue)).deep_view() =~= (*queue).deep_view());
    }
}

/// Default keys go to the deployments without keys of their own, and to no other.
pub proof fn law_call_inject_ssh_keys(keys: Vec<String>, logs: Vec<LogMessage>, i: int)
    ensures
        forall|c: &mut Config| #[trigger]
            call_ensures(inject_ssh_keys, (c, &keys), logs) && 0 <= i
                < (*c).deep_view().deployments.len() ==> {
                let before = (*c).deep_view().deployments[i];
                let after = (*final(c)).deep_view().deployments[i];
                &&& (before.vm_config.ssh_keys.len() > 0 ==> after == before)
                &&& (before.vm_config.ssh_keys.len() == 0 ==> after.vm_config.ssh_keys
                    == keys.deep_view() && after.vm_config.name == before.vm_config.name
                    && after.instances == before.instances)
            },
{
}

} // verus!
