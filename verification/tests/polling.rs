use serde_json::Value;
use std::time::{Duration, Instant};
use vm_deployer::client::{FluenceClient, VmStatusResponse};
use vm_deployer::deployment::{LogMessage, VmPhaseTimings, VmPollingRequest, VmPollingResponse};
use vm_deployer::polling::{
    error_message, ip_message, is_timed_out, launched_message, launching_message, on_answer,
    on_error, on_status, on_timeout, remove_positions, stuck_message, timeout_error_text,
    timeout_message, unexpected_message, PollAction, PollSettings, Verdict, VmPoller,
    RATE_LIMIT_PAUSE_SECONDS, STUCK_AFTER_SECONDS,
};

fn said(logs: &[LogMessage]) -> Vec<String> {
    logs.iter()
        .map(|m| match m {
            LogMessage::Info(s) => format!("I {}", s),
            LogMessage::Success(s) => format!("S {}", s),
            LogMessage::Error(s) => format!("E {}", s),
            LogMessage::Shutdown => "shutdown".to_string(),
        })
        .collect()
}

fn at(start: Instant, millis: u64) -> Instant {
    start + Duration::from_millis(millis)
}

fn request(id: &str) -> VmPollingRequest {
    VmPollingRequest {
        vm_id: id.to_string(),
        vm_name: format!("vm-{}", id),
        deployment_name: "dep".to_string(),
        approach: "bulk".to_string(),
    }
}

fn status(id: &str, state: &str, ip: Option<&str>) -> VmStatusResponse {
    VmStatusResponse {
        id: id.to_string(),
        vm_name: format!("vm-{}", id),
        status: state.to_string(),
        public_ip: ip.map(|s| s.to_string()),
        datacenter: Some(Value::from("us-east-1")),
        provider: Some(Value::from("p")),
        provider_location: Some(Value::from("l")),
    }
}

fn settings() -> PollSettings {
    PollSettings { timeout_seconds: 600, poll_interval_seconds: 30, enable_ip_retrieval: true }
}

fn failed_with(v: &VmPollingResponse, status: &str, error: &str) {
    assert!(!v.success);
    assert_eq!(v.status, status);
    assert_eq!(v.error.as_deref(), Some(error));
    assert_eq!(v.public_ip, None);
    assert_eq!(v.datacenter, None);
}

#[test]
fn a_machine_times_out_after_its_time() {
    let s = Instant::now();
    let t = VmPhaseTimings::requested_at(s);
    assert!(!is_timed_out(&t, 600, at(s, 600_000)));
    assert!(is_timed_out(&t, 600, at(s, 600_001)));
    let v: Verdict = on_timeout(&request("1"), &t, at(s, 600_250));
    assert_eq!(
        said(&v.logs),
        vec!["E [POLLING] VM vm-1 (dep) TIMEOUT after 600.2s - never launched"]
    );
    let r = v.response.unwrap();
    failed_with(&r, "Timeout", "Timeout after 600.2s");
    assert_eq!(r.phase_timings.get_total_duration(), Some(Duration::from_millis(600_250)));
    assert_eq!(v.pause_seconds, 0);
}

#[test]
fn a_launching_machine_is_followed_further() {
    let s = Instant::now();
    let mut t = VmPhaseTimings::requested_at(s);
    let v = on_status(&request("1"), &mut t, status("1", "Launching", None), true, at(s, 1500));
    assert!(v.response.is_none());
    assert_eq!(
        said(&v.logs),
        vec!["I [POLLING] VM vm-1 (dep) launching WITHOUT IP (0.0s in launching, 1.5s total)"]
    );
    let seen = status("1", "Launching", Some("1.2.3.4"));
    let v = on_status(&request("1"), &mut t, seen, true, at(s, 4000));
    assert_eq!(
        said(&v.logs),
        vec![
            "S [POLLING] VM vm-1 (dep) IP ASSIGNED 1.2.3.4 after 2.5s in launching",
            "I [POLLING] VM vm-1 (dep) launching WITH IP (2.5s in launching, 4.0s total)",
        ]
    );
    assert_eq!(t.launching_entered, Some(at(s, 1500)));
    assert_eq!(t.ip_assigned, Some(at(s, 4000)));
    assert!(!t.stuck_in_launching);
}

#[test]
fn a_machine_can_be_stuck() {
    let s = Instant::now();
    let mut t = VmPhaseTimings::requested_at(s);
    t.mark_launching_entered_at(s);
    let limit = STUCK_AFTER_SECONDS * 1000;
    on_status(&request("1"), &mut t, status("1", "Launching", None), true, at(s, limit));
    assert!(!t.stuck_in_launching);
    let seen = status("1", "Launching", None);
    let v = on_status(&request("1"), &mut t, seen, true, at(s, limit + 100));
    assert!(t.stuck_in_launching);
    assert!(v.response.is_none());
    assert_eq!(
        said(&v.logs)[1],
        "E [POLLING] VM vm-1 (dep) STUCK in launching phase for 300.1s! IP allocated: false"
    );
}

#[test]
fn an_active_machine_is_launched() {
    let s = Instant::now();
    let mut t = VmPhaseTimings::requested_at(s);
    let v = on_status(
        &request("1"),
        &mut t,
        status("1", "Active", Some("82.177.167.169")),
        true,
        at(s, 180_500),
    );
    assert_eq!(
        said(&v.logs),
        vec![
            "S [POLLING] VM vm-1 FULLY LAUNCHED in 180.5s IP: 82.177.167.169 \
             Datacenter: us-east-1 Provider: p Location: l"
        ]
    );
    let r = v.response.unwrap();
    assert!(r.success);
    assert_eq!(r.status, "Active");
    assert_eq!(r.public_ip.as_deref(), Some("82.177.167.169"));
    assert_eq!(r.datacenter, Some(Value::from("us-east-1")));
    assert_eq!(r.provider, Some(Value::from("p")));
    assert_eq!(r.provider_location, Some(Value::from("l")));
    assert_eq!(r.phase_timings.active_time, Some(at(s, 180_500)));
}

#[test]
fn an_active_machine_without_an_address_is_followed_only_if_one_is_asked_for() {
    let s = Instant::now();
    let mut t = VmPhaseTimings::requested_at(s);
    let v = on_status(&request("1"), &mut t, status("1", "Active", None), true, at(s, 1000));
    assert!(v.response.is_none());
    assert_eq!(
        said(&v.logs),
        vec!["E [POLLING] VM vm-1 (dep) is Active but has NO IP! This is unexpected."]
    );
    let mut bare = status("1", "Active", None);
    bare.datacenter = None;
    bare.provider = None;
    bare.provider_location = None;
    let v = on_status(&request("1"), &mut t, bare, false, at(s, 3000));
    assert_eq!(said(&v.logs), vec!["S [POLLING] VM vm-1 FULLY LAUNCHED in 1.0s"]);
    assert!(v.response.unwrap().success);
}

#[test]
fn any_other_status_is_a_failure() {
    let s = Instant::now();
    let mut t = VmPhaseTimings::requested_at(s);
    let v = on_status(&request("1"), &mut t, status("1", "launching", None), true, at(s, 2000));
    assert_eq!(
        said(&v.logs),
        vec!["E [POLLING] VM vm-1 (dep) failed with status: launching after 2.0s"]
    );
    failed_with(&v.response.unwrap(), "launching", "Unexpected status: launching");
}

#[test]
fn an_error_is_a_failure() {
    let s = Instant::now();
    let t = VmPhaseTimings::requested_at(s);
    let v = on_error(&request("1"), &t, "VM not found".to_string(), at(s, 2000));
    assert_eq!(
        said(&v.logs),
        vec!["E [POLLING] Failed to get status for VM vm-1 (dep) after 2.0s: VM not found"]
    );
    failed_with(&v.response.unwrap(), "Error", "VM not found");
}

#[test]
fn a_rate_limit_is_no_failure() {
    let s = Instant::now();
    let mut t = VmPhaseTimings::requested_at(s);
    let client = FluenceClient::new("k", "u");
    let answer = client.get_vm_status("1", 429, "", Ok(Vec::new()));
    let v = on_answer(&request("1"), &mut t, answer, true, at(s, 2000));
    assert!(v.response.is_none());
    assert_eq!(v.pause_seconds, RATE_LIMIT_PAUSE_SECONDS);
    assert_eq!(said(&v.logs), vec!["I [POLLING] Rate limited, will retry VM vm-1 (dep)"]);
    let answer = Err("Too Many Requests".to_string());
    let v = on_answer(&request("1"), &mut t, answer, true, at(s, 2000));
    assert_eq!(v.pause_seconds, 5);
    assert!(v.response.is_none());
}

#[test]
fn settled_positions_are_dropped() {
    let mut v = vec![10, 11, 12, 13, 14];
    remove_positions(&mut v, &vec![0, 3, 4]);
    assert_eq!(v, vec![11, 12]);
    remove_positions(&mut v, &Vec::new());
    assert_eq!(v, vec![11, 12]);
}

#[test]
fn a_poller_without_machines_rests() {
    let s = Instant::now();
    let mut p: VmPoller<u8> = VmPoller::new(settings(), s);
    assert!(p.between_rounds());
    let (logs, action) = p.step(at(s, 1_000_000));
    assert!(logs.is_empty());
    assert!(matches!(action, PollAction::Rest));
}

#[test]
fn a_round_looks_at_every_machine_and_drops_the_settled_ones() {
    let s = Instant::now();
    let mut p: VmPoller<u8> = VmPoller::new(settings(), s);
    let log = p.add(request("1"), 1, s);
    assert_eq!(said(&[log]), vec!["I [POLLING] Added VM vm-1 (1) to polling queue"]);
    p.add(request("2"), 2, s);
    p.add(request("3"), 3, s);
    assert!(matches!(p.step(at(s, 29_999)).1, PollAction::Rest));
    let now = at(s, 30_000);
    let (logs, action) = p.step(now);
    assert_eq!(said(&logs), vec!["I [POLLING] Checking status of 3 VMs..."]);
    assert!(matches!(action, PollAction::Proceed));
    assert!(!p.between_rounds());

    assert!(matches!(p.step(now).1, PollAction::Ask { vm_id } if vm_id == "1"));
    let (i, v) = p.answer(Ok(status("1", "Active", Some("1.1.1.1"))), now);
    assert_eq!(*p.reply_to(i), 1);
    assert!(v.response.unwrap().success);
    assert!(matches!(p.step(now).1, PollAction::Ask { vm_id } if vm_id == "2"));
    let (_, v) = p.answer(Ok(status("2", "Launching", None)), now);
    assert!(v.response.is_none());
    assert!(matches!(p.step(now).1, PollAction::Ask { vm_id } if vm_id == "3"));
    let (i, v) = p.answer(Err("VM not found".to_string()), now);
    assert_eq!(*p.reply_to(i), 3);
    assert!(!v.response.unwrap().success);
    assert_eq!(p.len(), 3);
    assert!(matches!(p.step(now).1, PollAction::Rest));
    assert!(p.between_rounds());
    assert_eq!(p.len(), 1);
    assert_eq!(*p.reply_to(0), 2);

    assert!(matches!(p.step(at(s, 59_999)).1, PollAction::Rest));
    assert!(matches!(p.step(at(s, 60_000)).1, PollAction::Proceed));
    assert!(matches!(p.step(at(s, 60_000)).1, PollAction::Ask { vm_id } if vm_id == "2"));
}

#[test]
fn a_late_machine_is_given_up_without_asking() {
    let s = Instant::now();
    let mut p: VmPoller<u8> = VmPoller::new(settings(), s);
    p.add(request("1"), 7, s);
    let late = at(s, 600_100);
    assert!(matches!(p.step(late).1, PollAction::Proceed));
    match p.step(late).1 {
        PollAction::Reply { index, response } => {
            assert_eq!(*p.reply_to(index), 7);
            failed_with(&response, "Timeout", "Timeout after 600.1s");
            assert_eq!(response.vm_id, "1");
        }
        _ => panic!("no reply"),
    }
    assert!(matches!(p.step(late).1, PollAction::Rest));
    assert_eq!(p.len(), 0);
}

#[test]
fn messages_on_a_machine_are_built_from_written_times() {
    let r = request("1");
    let logs = [
        timeout_message(&r, "9.5"),
        ip_message(&r, "1.2.3.4", "9.5"),
        launching_message(&r, true, "1.0", "9.5"),
        stuck_message(&r, true, "9.5"),
        unexpected_message(&r, "Gone", "9.5"),
        error_message(&r, "why", "9.5"),
        launched_message(&r, &status("1", "Active", Some("1.2.3.4")), "180.5"),
    ];
    assert_eq!(
        said(&logs),
        vec![
            "E [POLLING] VM vm-1 (dep) TIMEOUT after 9.5s - never launched",
            "S [POLLING] VM vm-1 (dep) IP ASSIGNED 1.2.3.4 after 9.5s in launching",
            "I [POLLING] VM vm-1 (dep) launching WITH IP (1.0s in launching, 9.5s total)",
            "E [POLLING] VM vm-1 (dep) STUCK in launching phase for 9.5s! IP allocated: true",
            "E [POLLING] VM vm-1 (dep) failed with status: Gone after 9.5s",
            "E [POLLING] Failed to get status for VM vm-1 (dep) after 9.5s: why",
            "S [POLLING] VM vm-1 FULLY LAUNCHED in 180.5s IP: 1.2.3.4 Datacenter: us-east-1 \
             Provider: p Location: l",
        ]
    );
    assert_eq!(timeout_error_text("9.5"), "Timeout after 9.5s");
}

#[test]
fn each_request_gets_at_most_one_response() {
    let s = Instant::now();
    let mut p: VmPoller<usize> = VmPoller::new(settings(), s);
    for i in 0..4 {
        // The same machine is asked for twice: each request counts for itself.
        p.add(request(["a", "b", "b", "c"][i]), i, s);
    }
    let mut replies = [0; 4];
    for round in 1..30u64 {
        let now = at(s, 30_000 * round);
        loop {
            match p.step(now).1 {
                PollAction::Rest => break,
                PollAction::Proceed => {}
                PollAction::Reply { index, .. } => replies[*p.reply_to(index)] += 1,
                PollAction::Ask { vm_id } => {
                    let state = if vm_id == "b" && round >= 3 { "Active" } else { "Launching" };
                    let answer = if vm_id == "c" && round == 2 {
                        Err("gone".to_string())
                    } else {
                        Ok(status(&vm_id, state, Some("1.1.1.1")))
                    };
                    let (index, verdict) = p.answer(answer, now);
                    let number = *p.reply_to(index);
                    assert_eq!(replies[number], 0);
                    assert_eq!(["a", "b", "b", "c"][number], vm_id);
                    if verdict.response.is_some() {
                        replies[number] += 1;
                    }
                }
            }
        }
        assert_eq!(p.len() + replies.iter().sum::<usize>(), 4);
    }
    assert_eq!(replies, [1, 1, 1, 1]);
}
