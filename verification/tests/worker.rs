use serde_json::Value;
use std::time::{Duration, Instant};
use vm_deployer::client::{
    DatacenterConstraints, Deployment, PortConfig, Price, StorageResource, VmConfig, VmResponse,
};
use vm_deployer::deployment::{LogMessage, VmPhaseTimings, VmPollingResponse};
use vm_deployer::worker::{
    deploy_vm_bulk_worker, deploy_vm_decomposed_worker, individual_deployment, polling_requests,
    queue_vms, response_wait_seconds, BulkRun, DecomposedRun, PollCollector,
};

fn said(m: &LogMessage) -> String {
    match m {
        LogMessage::Info(s) => format!("I {}", s),
        LogMessage::Success(s) => format!("S {}", s),
        LogMessage::Error(s) => format!("E {}", s),
        LogMessage::Shutdown => "shutdown".to_string(),
    }
}

fn at(start: Instant, micros: u64) -> Instant {
    start + Duration::from_micros(micros)
}

fn deployment(instances: u32) -> Deployment {
    Deployment {
        vm_config: VmConfig {
            name: "web".to_string(),
            basic_configuration: "cpu-2".to_string(),
            additional_storage: Some(vec![StorageResource {
                storage_type: "SSD".to_string(),
                supply: 10,
                units: "GB".to_string(),
            }]),
            open_ports: vec![PortConfig { port: 22, protocol: "tcp".to_string() }],
            hostname: Some("h".to_string()),
            os_image: "img".to_string(),
            ssh_keys: vec!["k".to_string()],
        },
        datacenter: Some(DatacenterConstraints { countries: vec!["US".to_string()] }),
        instances,
        max_price_per_epoch_usd: Some(Price {
            exact: "2".to_string(),
            rounded: "2.00".to_string(),
        }),
    }
}

fn vms(ids: &[&str]) -> Vec<VmResponse> {
    ids.iter()
        .map(|id| VmResponse { vm_id: id.to_string(), vm_name: format!("vm-{}", id) })
        .collect()
}

fn answer(id: &str, success: bool, requested: Instant) -> VmPollingResponse {
    VmPollingResponse {
        vm_id: id.to_string(),
        vm_name: format!("vm-{}", id),
        deployment_name: "web".to_string(),
        approach: "bulk".to_string(),
        status: if success { "Active".to_string() } else { "Error".to_string() },
        public_ip: Some("1.2.3.4".to_string()),
        provider: Some(Value::from("p")),
        provider_location: Some(Value::from("l")),
        datacenter: Some(Value::from("d")),
        success,
        error: None,
        phase_timings: VmPhaseTimings::requested_at(requested),
    }
}

#[test]
fn each_call_asks_for_one_machine_under_its_own_name() {
    let d = deployment(12);
    let mut names: Vec<String> = Vec::new();
    for i in 0..12 {
        let part = individual_deployment(&d, i);
        assert_eq!(part.vm_config.name, format!("web-{}", i + 1));
        assert_eq!(part.instances, 1);
        assert!(!names.contains(&part.vm_config.name));
        names.push(part.vm_config.name);
        assert_eq!(part.vm_config.basic_configuration, "cpu-2");
        assert_eq!(part.vm_config.additional_storage.unwrap()[0].supply, 10);
        assert_eq!(part.vm_config.open_ports[0].port, 22);
        assert_eq!(part.vm_config.hostname.as_deref(), Some("h"));
        assert_eq!(part.vm_config.os_image, "img");
        assert_eq!(part.vm_config.ssh_keys, vec!["k".to_string()]);
        assert_eq!(part.datacenter.unwrap().countries, vec!["US".to_string()]);
        assert_eq!(part.max_price_per_epoch_usd.unwrap().exact, "2");
    }
    assert_eq!(individual_deployment(&d, 4294967294).vm_config.name, "web-4294967295");
}

#[test]
fn new_machines_are_queued_behind_the_others() {
    let mut queue = vec!["a".to_string()];
    queue_vms(&mut queue, &vms(&["b", "c"]));
    queue_vms(&mut queue, &Vec::new());
    assert_eq!(queue, vec!["a".to_string(), "b".to_string(), "c".to_string()]);
}

#[test]
fn every_machine_gets_a_request() {
    let list = polling_requests(&vms(&["b", "c"]), "web", "bulk");
    assert_eq!(list.len(), 2);
    assert_eq!(list[1].vm_id, "c");
    assert_eq!(list[1].vm_name, "vm-c");
    assert_eq!(list[1].deployment_name, "web");
    assert_eq!(list[1].approach, "bulk");
}

#[test]
fn answers_have_a_minute_more_than_a_machine() {
    assert_eq!(response_wait_seconds(600), 660);
    assert_eq!(response_wait_seconds(0), 60);
}

#[test]
fn only_machines_that_are_up_are_collected() {
    let s = Instant::now();
    let mut c = PollCollector::new(4);
    assert!(c.wants_more());
    c.take(answer("a", true, s));
    c.take(answer("b", false, s));
    c.take(answer("c", true, at(s, 1)));
    assert!(c.wants_more());
    c.take(answer("a", true, at(s, 2)));
    assert!(!c.wants_more());
    let run = BulkRun::new(deployment(3), "ThreadId(2)".to_string(), s);
    let r = deploy_vm_bulk_worker(run, Ok(vms(&["a", "b", "c"])), at(s, 5), Some(c), at(s, 9));
    let statuses = r.vm_statuses.unwrap();
    let ids: Vec<&str> = statuses.iter().map(|v| v.id.as_str()).collect();
    assert_eq!(ids, vec!["a", "c", "a"]);
    assert_eq!(statuses[1].vm_name, "vm-c");
    assert_eq!(statuses[1].status, "Active");
    assert_eq!(statuses[1].public_ip.as_deref(), Some("1.2.3.4"));
    assert_eq!(statuses[1].datacenter, Some(Value::from("d")));
    assert_eq!(statuses[1].provider, Some(Value::from("p")));
    assert_eq!(statuses[1].provider_location, Some(Value::from("l")));
    let table = r.vm_phase_timings.unwrap();
    assert_eq!(table.get(&"a".to_string()).unwrap().requested_time, at(s, 2));
    assert_eq!(table.get(&"c".to_string()).unwrap().requested_time, at(s, 1));
    assert!(table.get(&"b".to_string()).is_none());
}

#[test]
fn a_bulk_run_that_succeeds() {
    let s = Instant::now();
    let d = deployment(3);
    assert_eq!(
        said(&BulkRun::start_message(&d, "ThreadId(2)")),
        "I [Thread ThreadId(2)] BULK: Starting deployment of config 'web' with 3 instances"
    );
    let run = BulkRun::new(d, "ThreadId(2)".to_string(), s);
    let reply = Ok(vms(&["a", "b"]));
    let mut queue = vec!["z".to_string()];
    let message = run.reply(&mut queue, &reply, at(s, 1_500_000));
    assert_eq!(
        said(&message),
        "S [Thread ThreadId(2)] BULK: Config 'web' API request successful in 1.500000s. \
         REQUESTED 2 VMs"
    );
    assert_eq!(queue, vec!["z".to_string(), "a".to_string(), "b".to_string()]);
    assert!(run.requests(false, &reply).is_none());
    let requests = run.requests(true, &reply).unwrap();
    assert_eq!(requests.len(), 2);
    assert_eq!(requests[0].approach, "bulk");
    assert!(run.requests(true, &Ok(Vec::new())).unwrap().is_empty());
    let r = deploy_vm_bulk_worker(run, reply, at(s, 1_500_000), None, at(s, 2_000_000));
    assert!(r.success);
    assert_eq!(r.config_name, "web");
    assert_eq!(r.approach, "bulk");
    assert_eq!(r.start_time, s);
    assert_eq!(r.duration, Duration::from_secs(2));
    assert_eq!(r.vm_responses.unwrap().len(), 2);
    assert!(r.vm_statuses.is_none());
    assert!(r.vm_phase_timings.is_none());
    assert_eq!(r.error_message, None);
    assert_eq!(r.thread_id, "ThreadId(2)");
    assert_eq!(r.individual_timings, None);
}

#[test]
fn a_bulk_run_that_fails() {
    let s = Instant::now();
    let run = BulkRun::new(deployment(3), "ThreadId(2)".to_string(), s);
    let reply = Err("no offers".to_string());
    let mut queue: Vec<String> = Vec::new();
    let message = run.reply(&mut queue, &reply, at(s, 250_000));
    assert_eq!(
        said(&message),
        "E [Thread ThreadId(2)] BULK: Config 'web' failed after 0.250000s: no offers"
    );
    assert!(queue.is_empty());
    assert!(run.requests(true, &reply).is_none());
    let r = deploy_vm_bulk_worker(run, reply, at(s, 250_000), None, at(s, 900_000));
    assert!(!r.success);
    assert_eq!(r.duration, Duration::from_micros(250_000));
    assert!(r.vm_responses.is_none());
    assert_eq!(r.error_message.as_deref(), Some("no offers"));
}

#[test]
fn machines_that_never_came_up_leave_no_status() {
    let s = Instant::now();
    let run = BulkRun::new(deployment(1), "t".to_string(), s);
    let mut c = PollCollector::new(1);
    c.take(answer("a", false, s));
    let r = deploy_vm_bulk_worker(run, Ok(vms(&["a"])), s, Some(c), s);
    assert!(r.vm_statuses.is_none());
    assert!(r.vm_phase_timings.is_some());
    assert!(r.success);
}

#[test]
fn a_decomposed_run_goes_on_after_a_failure() {
    let s = Instant::now();
    let d = deployment(3);
    assert_eq!(
        said(&DecomposedRun::start_message(&d, "ThreadId(3)")),
        "I [Thread ThreadId(3)] DECOMPOSED: Starting deployment of config 'web' with 3 \
         individual API calls"
    );
    let mut run = DecomposedRun::new(d, "ThreadId(3)".to_string(), s);
    let mut queue: Vec<String> = Vec::new();
    assert_eq!(run.next_call(false).unwrap().vm_config.name, "web-1");
    let m = run.answer(&mut queue, Err("busy".to_string()), Duration::from_micros(2));
    assert_eq!(
        said(&m),
        "E [Thread ThreadId(3)] DECOMPOSED: VM 1/3 'web-1' failed in 0.000002s: busy - CONTINUING"
    );
    assert!(run.requests(true).is_none());
    assert_eq!(run.next_call(false).unwrap().vm_config.name, "web-2");
    let m = run.answer(&mut queue, Ok(vms(&["a"])), Duration::from_secs(1));
    assert_eq!(
        said(&m),
        "S [Thread ThreadId(3)] DECOMPOSED: VM 2/3 'web-2' REQUESTED in 1.000000s"
    );
    assert_eq!(run.next_call(false).unwrap().vm_config.name, "web-3");
    run.answer(&mut queue, Err("busy".to_string()), Duration::from_secs(3));
    assert!(run.next_call(false).is_none());
    assert_eq!(queue, vec!["a".to_string()]);
    assert!(run.requests(false).is_none());
    assert_eq!(run.requests(true).unwrap()[0].approach, "decomposed");
    let r = deploy_vm_decomposed_worker(run, None, at(s, 5_000_000));
    assert!(r.success);
    assert_eq!(r.error_message, None);
    assert_eq!(r.approach, "decomposed");
    assert_eq!(r.duration, Duration::from_secs(5));
    assert_eq!(r.vm_responses.unwrap()[0].vm_id, "a");
    assert_eq!(
        r.individual_timings,
        Some(vec![Duration::from_micros(2), Duration::from_secs(1), Duration::from_secs(3)])
    );
}

#[test]
fn a_decomposed_run_fails_if_nothing_comes_and_the_last_call_fails() {
    let s = Instant::now();
    let mut queue: Vec<String> = Vec::new();
    let mut run = DecomposedRun::new(deployment(2), "t".to_string(), s);
    run.answer(&mut queue, Err("first".to_string()), Duration::from_secs(1));
    run.answer(&mut queue, Err("last".to_string()), Duration::from_secs(1));
    let r = deploy_vm_decomposed_worker(run, None, s);
    assert!(!r.success);
    assert_eq!(r.error_message.as_deref(), Some("last"));
    assert!(r.vm_responses.is_none());

    let mut run = DecomposedRun::new(deployment(2), "t".to_string(), s);
    run.answer(&mut queue, Err("first".to_string()), Duration::from_secs(1));
    run.answer(&mut queue, Ok(Vec::new()), Duration::from_secs(1));
    let r = deploy_vm_decomposed_worker(run, None, s);
    assert!(r.success);
    assert!(r.vm_responses.is_none());

    let run = DecomposedRun::new(deployment(0), "t".to_string(), s);
    assert!(run.next_call(false).is_none());
    assert!(deploy_vm_decomposed_worker(run, None, s).success);
}

#[test]
fn no_call_is_made_after_the_signal_to_stop() {
    let run = DecomposedRun::new(deployment(2), "t".to_string(), Instant::now());
    assert!(run.next_call(false).is_some());
    assert!(run.next_call(true).is_none());
    let run = BulkRun::new(deployment(2), "t".to_string(), Instant::now());
    assert_eq!(run.next_call(false).unwrap().vm_config.name, "web");
    assert_eq!(run.next_call(false).unwrap().instances, 2);
    assert!(run.next_call(true).is_none());
}

#[test]
fn messages_of_a_run_are_built_from_written_times() {
    let s = Instant::now();
    let bulk = BulkRun::new(deployment(3), "T".to_string(), s);
    assert_eq!(
        said(&bulk.reply_message(&Ok(vms(&["a"])), "1.5")),
        "S [Thread T] BULK: Config 'web' API request successful in 1.5s. REQUESTED 1 VMs"
    );
    assert_eq!(
        said(&bulk.reply_message(&Err("no".to_string()), "1.5")),
        "E [Thread T] BULK: Config 'web' failed after 1.5s: no"
    );
    let run = DecomposedRun::new(deployment(3), "T".to_string(), s);
    assert_eq!(
        said(&run.answer_message(&Ok(Vec::new()), "1.5")),
        "S [Thread T] DECOMPOSED: VM 1/3 'web-1' REQUESTED in 1.5s"
    );
    assert_eq!(
        said(&run.answer_message(&Err("no".to_string()), "1.5")),
        "E [Thread T] DECOMPOSED: VM 1/3 'web-1' failed in 1.5s: no - CONTINUING"
    );
}
