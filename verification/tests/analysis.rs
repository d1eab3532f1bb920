use serde_json::Value;
use std::time::{Duration, Instant};
use vm_deployer::analysis::{
    analyze_results, calculate_total_requested, collect_places, comparison_messages,
    failed_line_text, faster_approach, launched_count, launched_line_text, log_approach_results,
    log_performance_comparison, log_summary, log_vm_status_report, machine_line_text,
    machine_message, requested_total, result_line_text, speedup_text, time_behind_text,
    total_time_text,
};
use vm_deployer::client::{VmResponse, VmStatusResponse};
use vm_deployer::deployment::{DeploymentResult, LogMessage, PhaseTimingsTable, VmPhaseTimings};
use vm_deployer::run::Approach;

fn said(logs: &[LogMessage]) -> Vec<String> {
    logs.iter()
        .map(|m| match m {
            LogMessage::Info(s) => format!("I {}", s),
            LogMessage::Success(s) => format!("S {}", s),
            LogMessage::Error(s) => format!("E {}", s),
            LogMessage::Shutdown => "shutdown".to_string(),
        })
        .collect()
}

fn vms(ids: &[&str]) -> Vec<VmResponse> {
    ids.iter()
        .map(|id| VmResponse { vm_id: id.to_string(), vm_name: format!("vm-{}", id) })
        .collect()
}

fn status(id: &str, ip: Option<&str>, datacenter: Option<&str>) -> VmStatusResponse {
    VmStatusResponse {
        id: id.to_string(),
        vm_name: format!("vm-{}", id),
        status: "Active".to_string(),
        public_ip: ip.map(|s| s.to_string()),
        datacenter: datacenter.map(Value::from),
        provider: None,
        provider_location: None,
    }
}

fn result(approach: &str, success: bool) -> DeploymentResult {
    DeploymentResult {
        config_name: "web".to_string(),
        approach: approach.to_string(),
        start_time: Instant::now(),
        duration: Duration::from_millis(12_345),
        success,
        vm_responses: None,
        vm_statuses: None,
        error_message: None,
        thread_id: "ThreadId(2)".to_string(),
        individual_timings: None,
        vm_phase_timings: None,
    }
}

/// A bulk deployment with two of three machines up, and a decomposed one that failed.
fn results() -> Vec<DeploymentResult> {
    let s = Instant::now();
    let mut bulk = result("bulk", true);
    bulk.vm_responses = Some(vms(&["a", "b", "c"]));
    bulk.vm_statuses =
        Some(vec![status("c", None, None), status("a", Some("1.2.3.4"), Some("us-east-1"))]);
    let mut table = PhaseTimingsTable::new();
    let mut t = VmPhaseTimings::requested_at(s);
    t.mark_active_at(s + Duration::from_millis(61_500));
    table.insert("a".to_string(), t);
    bulk.vm_phase_timings = Some(table);
    let mut failed = result("decomposed", false);
    failed.error_message = Some("no offers".to_string());
    vec![bulk, failed]
}

#[test]
fn machines_are_sorted_by_whether_their_status_is_known() {
    let results = results();
    let a = analyze_results(&results);
    assert_eq!(
        a.launched_vms,
        vec![
            (
                "a".to_string(),
                "vm-a".to_string(),
                "bulk".to_string(),
                Some("1.2.3.4".to_string()),
                " - 61.5s total".to_string()
            ),
            ("c".to_string(), "vm-c".to_string(), "bulk".to_string(), None, "".to_string()),
        ]
    );
    assert_eq!(
        a.failed_vms,
        vec![("b".to_string(), "vm-b".to_string(), "bulk".to_string())]
    );
    assert_eq!(a.total_requested, 4);
    assert_eq!(a.bulk_results.len(), 1);
    assert_eq!(a.decomposed_results.len(), 1);
    assert!(a.launched_vms.len() <= a.total_requested);
    assert_eq!(a.bulk_results.len() + a.decomposed_results.len(), results.len());
}

#[test]
fn machines_that_were_not_followed_count_as_failed() {
    let mut r = result("decomposed", true);
    r.vm_responses = Some(vms(&["a"]));
    let results = vec![r];
    let a = analyze_results(&results);
    assert!(a.launched_vms.is_empty());
    assert_eq!(a.failed_vms.len(), 1);
    assert_eq!(a.total_requested, 1);
}

#[test]
fn a_deployment_without_machines_counts_by_its_approach() {
    assert_eq!(calculate_total_requested(&[]), 0);
    assert_eq!(calculate_total_requested(&[result("decomposed", false)]), 1);
    assert_eq!(calculate_total_requested(&[result("bulk", false)]), 3);
    assert_eq!(calculate_total_requested(&[result("other", false), result("bulk", false)]), 6);
    let mut r = result("bulk", true);
    r.vm_responses = Some(Vec::new());
    assert_eq!(calculate_total_requested(&[r]), 0);
}

#[test]
fn the_report_shows_each_deployment() {
    let results = results();
    let a = analyze_results(&results);
    let line = format!("I {}", "=".repeat(80));
    assert_eq!(
        said(&log_vm_status_report(&a, &results)),
        vec![
            line.clone(),
            "I DEPLOYMENT RESULTS".to_string(),
            line,
            "I ✅ BULK [Thread ThreadId(2)] - 12.345s - Intended: 3 | Requested: 3 | Launched: 2"
                .to_string(),
            "S ✓ LAUNCHED: vm-a [a] (BULK) IP: 1.2.3.4 Datacenter: us-east-1 (61.5s)".to_string(),
            "E ✗ FAILED:   vm-b [b] (BULK) - Status: TIMEOUT".to_string(),
            "S ✓ LAUNCHED: vm-c [c] (BULK) IP: No IP Datacenter: Unknown".to_string(),
            "I ".to_string(),
            "I ❌ DECOMPOSED [Thread ThreadId(2)] - 12.345s - Intended: 1 | Requested: 0 | \
             Launched: 0"
                .to_string(),
            "E    ERROR: no offers".to_string(),
            "I ".to_string(),
        ]
    );
    let failed = vec![result("bulk", false)];
    let report = log_vm_status_report(&analyze_results(&failed), &failed);
    assert_eq!(said(&report)[4], "E    ERROR: Unknown error");
}

#[test]
fn the_summary_tells_what_is_missing() {
    let results = results();
    let a = analyze_results(&results);
    let all = said(&log_summary(&a, &results, "50.0"));
    assert_eq!(
        all[1..8].to_vec(),
        vec![
            "I SUMMARY".to_string(),
            format!("I {}", "=".repeat(80)),
            "I VMs Launched: 2/4 (50.0% success rate)".to_string(),
            "I ".to_string(),
            "S SUCCESSFUL DEPLOYMENTS:".to_string(),
            "S   vm-a [a] (BULK) - 1.2.3.4".to_string(),
            "S   vm-c [c] (BULK) - No IP".to_string(),
        ]
    );
    assert_eq!(
        all[8..].to_vec(),
        vec![
            "I ",
            "E FAILED DEPLOYMENTS: 2",
            "E 💡 TROUBLESHOOTING TIPS:",
            "E    - Try removing country restrictions (remove 'datacenter' section)",
            "E    - Increase maxPricePerEpochUsd (try 5.0 or 10.0)",
            "E    - Use smaller VM size (cpu-1-ram-2gb-storage-25gb)",
            "E    - Try different regions (DE, US, CA instead of PL)",
        ]
    );
}

#[test]
fn there_are_tips_only_after_a_failure() {
    let mut r = result("bulk", true);
    r.vm_responses = Some(vms(&["a"]));
    let results = vec![r];
    let all = said(&log_summary(&analyze_results(&results), &results, "0.0"));
    assert_eq!(all.len(), 6);
    assert_eq!(all[5], "E FAILED DEPLOYMENTS: 1");
}

#[test]
fn a_run_without_losses_has_no_failures() {
    let mut r = result("decomposed", true);
    r.vm_responses = Some(vms(&["a"]));
    r.vm_statuses = Some(vec![status("a", None, None)]);
    let results = vec![r];
    let a = analyze_results(&results);
    let all = said(&log_summary(&a, &results, "100.0"));
    assert_eq!(all.len(), 7);
    assert_eq!(all[6], "S   vm-a [a] (DECOMPOSED) - No IP");
    assert!(log_approach_results(&a).is_empty());
}

#[test]
fn a_launched_machine_is_reported_with_its_approach() {
    let mut r = result("decomposed", true);
    r.vm_responses = Some(vec![VmResponse {
        vm_id: "0xABC123...".to_string(),
        vm_name: "test-vm-1".to_string(),
    }]);
    r.vm_statuses =
        Some(vec![status("0xABC123...", Some("82.177.167.169"), Some("us-east-1"))]);
    let results = vec![r];
    let logs = said(&log_vm_status_report(&analyze_results(&results), &results));
    assert_eq!(
        logs[4],
        "S ✓ LAUNCHED: test-vm-1 [0xABC123...] (DECOMPOSED) IP: 82.177.167.169 \
         Datacenter: us-east-1"
    );
    assert_eq!(logs.len(), 6);
}

#[test]
fn a_machine_that_was_not_followed_is_reported_as_such() {
    let mut r = result("bulk", true);
    r.vm_responses = Some(vms(&["a"]));
    let results = vec![r];
    let logs = said(&log_vm_status_report(&analyze_results(&results), &results));
    assert_eq!(logs[4], "E ✗ FAILED:   vm-a [a] (BULK) - Status: NO_POLLING");
}

/// A bulk deployment with one of three machines up, and a decomposed one with all three.
fn compared() -> Vec<DeploymentResult> {
    let mut bulk = result("bulk", true);
    bulk.vm_responses = Some(vms(&["a", "b", "c"]));
    bulk.vm_statuses = Some(vec![status("a", None, None)]);
    let mut decomposed = result("decomposed", true);
    decomposed.vm_responses = Some(vms(&["d", "e", "f"]));
    let mut statuses = vec![status("d", None, None), status("e", None, None)];
    statuses.push(status("f", None, None));
    statuses[0].provider = Some(Value::from("p1"));
    statuses[1].provider = Some(Value::from("p2"));
    statuses[1].provider_location = Some(Value::from("Berlin"));
    statuses[2].provider = Some(Value::from("p1"));
    decomposed.vm_statuses = Some(statuses);
    vec![bulk, decomposed]
}

#[test]
fn the_approaches_are_compared() {
    let results = compared();
    let a = analyze_results(&results);
    let want = vec![
        "I ",
        "I Total deployment time: 2.500 seconds",
        "I Average time - Bulk: 1.000s | Decomposed: 2.000s",
        "I PERFORMANCE COMPARISON:",
        "I   Bulk: 1/3 VMs launched (33.3% success rate)",
        "I   Decomposed: 3/3 VMs launched (100.0% success rate)",
        "I     Provider: p1 Location: Unknown - 2 VMs",
        "I     Provider: p2 Location: Berlin - 1 VMs",
        "I   Speedup Factor: 1.88x (Decomposed faster)",
    ];
    assert_eq!(
        said(&log_performance_comparison(
            &a,
            Duration::from_millis(2500),
            "1.000",
            "2.000",
            "33.3",
            "100.0",
            "1.88x (Decomposed faster)"
        )),
        want
    );
    assert_eq!(
        said(&comparison_messages(
            &a,
            "2.500",
            "1.000",
            "2.000",
            "33.3",
            "100.0",
            "1.88x (Decomposed faster)"
        )),
        want
    );
    assert_eq!(collect_places(&a.decomposed_results).len(), 3);
}

#[test]
fn the_approaches_add_up() {
    for results in [results(), compared(), Vec::new()] {
        let a = analyze_results(&results);
        assert_eq!(
            launched_count(&a.bulk_results) + launched_count(&a.decomposed_results),
            a.launched_vms.len()
        );
        assert_eq!(
            requested_total(&a.bulk_results) + requested_total(&a.decomposed_results),
            a.total_requested
        );
    }
}

#[test]
fn one_approach_has_nothing_to_be_faster_than() {
    let one = vec![result("bulk", true)];
    let a = analyze_results(&one);
    let logs =
        log_performance_comparison(&a, Duration::from_secs(1), "1.000", "", "0.0", "", "");
    assert_eq!(
        said(&logs),
        vec![
            "I ",
            "I Total deployment time: 1.000 seconds",
            "I PERFORMANCE COMPARISON:",
            "I   Bulk: 0/3 VMs launched (0.0% success rate)",
        ]
    );
}

#[test]
fn lines_of_the_report_are_built_from_written_texts() {
    let vm = &vms(&["a"])[0];
    let s = status("a", Some("1.2.3.4"), Some("dc"));
    assert_eq!(
        machine_line_text(vm, &s, "X"),
        "✓ LAUNCHED: vm-a [a] (X) IP: 1.2.3.4 Datacenter: dc"
    );
    assert_eq!(failed_line_text(vm, "X", "LOST"), "✗ FAILED:   vm-a [a] (X) - Status: LOST");
    assert_eq!(
        result_line_text(&result("bulk", true), "X", "7"),
        "✅ X [Thread ThreadId(2)] - 7s - Intended: 3 | Requested: 0 | Launched: 0"
    );
    let launched = (
        "a".to_string(),
        "vm-a".to_string(),
        "bulk".to_string(),
        None,
        "".to_string(),
    );
    assert_eq!(launched_line_text(&launched, "X"), "  vm-a [a] (X) - No IP");
    assert_eq!(total_time_text(&Some("7".to_string())), " - 7s total");
    assert_eq!(total_time_text(&None), "");
    assert_eq!(time_behind_text(&Some("7".to_string())), " (7s)");
    assert_eq!(time_behind_text(&None), "");
    let mut r = result("bulk", true);
    let known = Some("7".to_string());
    assert_eq!(
        said(&[machine_message(&r, vm, "X", &known)]),
        vec!["E ✗ FAILED:   vm-a [a] (X) - Status: NO_POLLING"]
    );
    r.vm_statuses = Some(vec![s]);
    assert_eq!(
        said(&[machine_message(&r, vm, "X", &known)]),
        vec!["S ✓ LAUNCHED: vm-a [a] (X) IP: 1.2.3.4 Datacenter: dc (7s)"]
    );
}

#[test]
fn machines_that_were_followed_and_never_came_up_timed_out() {
    let mut r = result("bulk", true);
    r.vm_responses = Some(vms(&["a"]));
    r.vm_phase_timings = Some(PhaseTimingsTable::new());
    let results = vec![r];
    let logs = said(&log_vm_status_report(&analyze_results(&results), &results));
    assert_eq!(logs[4], "E ✗ FAILED:   vm-a [a] (BULK) - Status: TIMEOUT");
}

#[test]
fn the_report_has_one_message_for_each_machine() {
    for results in [results(), compared(), Vec::new()] {
        let mut due = 3;
        for r in &results {
            due += 2 + if r.success { 0 } else { 1 };
            due += r.vm_responses.as_ref().map(|v| v.len()).unwrap_or(0);
        }
        assert_eq!(log_vm_status_report(&analyze_results(&results), &results).len(), due);
    }
}

#[test]
fn the_faster_approach_is_the_one_with_the_smaller_average() {
    let took = |approach: &str, nanos: u64| {
        let mut r = result(approach, true);
        r.duration = Duration::from_nanos(nanos);
        r
    };
    let faster = |results: Vec<DeploymentResult>| faster_approach(&analyze_results(&results));
    assert_eq!(
        faster(vec![took("bulk", 10), took("bulk", 11), took("decomposed", 11)]),
        Some(Approach::Bulk)
    );
    assert_eq!(
        faster(vec![took("bulk", 10), took("bulk", 12), took("decomposed", 11)]),
        None
    );
    assert_eq!(
        faster(vec![took("bulk", 11), took("decomposed", 10), took("decomposed", 11)]),
        Some(Approach::Decomposed)
    );
    let mut long = result("bulk", true);
    long.duration = Duration::MAX;
    let mut longer = result("decomposed", true);
    longer.duration = Duration::MAX - Duration::from_nanos(1);
    assert_eq!(faster(vec![long, longer]), Some(Approach::Decomposed));
    assert_eq!(faster(Vec::new()), None);
}

#[test]
fn the_speedup_names_the_faster_approach() {
    assert_eq!(speedup_text(Some(Approach::Decomposed), "1.88"), "1.88x (Decomposed faster)");
    assert_eq!(speedup_text(Some(Approach::Bulk), "2.00"), "2.00x (Bulk faster)");
    assert_eq!(speedup_text(None, "1.00"), "1.00x (Equal)");
}
