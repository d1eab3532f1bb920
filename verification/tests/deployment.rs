use std::time::{Duration, Instant};
use vm_deployer::deployment::{
    add_banner, no_logs, note, DeploymentResult, LaunchingPhaseCheck, LogMessage,
    PhaseTimingsTable, VmPhaseTimings, VmPollingRequest, VmPollingResponse,
};

fn at(start: Instant, seconds: u64) -> Instant {
    start + Duration::from_secs(seconds)
}

#[test]
fn a_new_machine_has_reached_nothing() {
    let before = Instant::now();
    let t = VmPhaseTimings::new();
    assert!(t.requested_time >= before);
    assert_eq!(t.get_request_to_launch_duration(), None);
    assert_eq!(t.get_launch_to_ip_duration(), None);
    assert_eq!(t.get_ip_to_active_duration(), None);
    assert_eq!(t.get_total_duration(), None);
    assert!(!t.stuck_in_launching);
    assert!(t.launching_phase_details.is_empty());
}

#[test]
fn phases_add_up() {
    let s = Instant::now();
    let mut t = VmPhaseTimings::requested_at(s);
    t.mark_launching_entered_at(at(s, 10));
    t.mark_ip_assigned_at(at(s, 25));
    t.mark_active_at(at(s, 100));
    assert_eq!(t.get_request_to_launch_duration(), Some(Duration::from_secs(10)));
    assert_eq!(t.get_launch_to_ip_duration(), Some(Duration::from_secs(15)));
    assert_eq!(t.get_ip_to_active_duration(), Some(Duration::from_secs(75)));
    assert_eq!(t.get_total_duration(), Some(Duration::from_secs(100)));
    assert_eq!(t.time_in_launching, Some(Duration::from_secs(90)));
    t.mark_launching_entered_at(at(s, 200));
    t.mark_active_at(at(s, 300));
    assert_eq!(t.get_total_duration(), Some(Duration::from_secs(100)));
}

#[test]
fn the_first_mark_counts() {
    let s = Instant::now();
    let mut t = VmPhaseTimings::requested_at(s);
    t.mark_launching_entered_at(at(s, 1));
    t.mark_launching_entered_at(at(s, 2));
    t.mark_ip_assigned_at(at(s, 3));
    t.mark_ip_assigned_at(at(s, 4));
    t.mark_active_at(at(s, 5));
    t.mark_active_at(at(s, 6));
    assert_eq!(t.launching_entered, Some(at(s, 1)));
    assert_eq!(t.ip_assigned, Some(at(s, 3)));
    assert_eq!(t.active_time, Some(at(s, 5)));
    assert_eq!(t.get_total_duration(), Some(Duration::from_secs(5)));
}

#[test]
fn marks_of_now_keep_the_order() {
    let mut t = VmPhaseTimings::new();
    t.mark_launching_entered();
    t.mark_ip_assigned();
    t.mark_active();
    assert!(t.requested_time <= t.launching_entered.unwrap());
    assert!(t.launching_entered.unwrap() <= t.ip_assigned.unwrap());
    assert!(t.ip_assigned.unwrap() <= t.active_time.unwrap());
    assert_eq!(t.clone().get_total_duration(), t.get_total_duration());
}

#[test]
fn a_machine_can_be_active_without_having_been_seen_launching() {
    let s = Instant::now();
    let mut t = VmPhaseTimings::requested_at(s);
    t.mark_active_at(at(s, 7));
    assert_eq!(t.time_in_launching, None);
    assert_eq!(t.get_total_duration(), Some(Duration::from_secs(7)));
    t.total_launch_duration = None;
    assert_eq!(t.get_total_duration(), Some(Duration::from_secs(7)));
}

#[test]
fn a_machine_that_is_given_up_has_a_total() {
    let s = Instant::now();
    let t = VmPhaseTimings::requested_at(s);
    let e = t.ended_at(at(s, 9));
    assert_eq!(e.get_total_duration(), Some(Duration::from_secs(9)));
    assert_eq!(e.active_time, None);
    assert_eq!(t.get_total_duration(), None);
}

#[test]
fn a_phase_that_lies_before_another_takes_no_time() {
    let s = Instant::now();
    let mut t = VmPhaseTimings::requested_at(at(s, 5));
    t.mark_launching_entered_at(s);
    assert_eq!(t.get_request_to_launch_duration(), Some(Duration::from_secs(0)));
}

#[test]
fn a_look_holds_what_was_seen() {
    let s = Instant::now();
    let c = LaunchingPhaseCheck::new(s, Duration::from_secs(3), true, "Launching".to_string());
    let d = c.clone();
    assert_eq!(d.timestamp, s);
    assert_eq!(d.elapsed_since_launch, Duration::from_secs(3));
    assert!(d.has_ip);
    assert_eq!(d.status, "Launching");
}

#[test]
fn a_table_keeps_the_last_entry_of_each_machine() {
    let s = Instant::now();
    let mut table = PhaseTimingsTable::new();
    assert!(table.get(&"a".to_string()).is_none());
    table.insert("a".to_string(), VmPhaseTimings::requested_at(s));
    table.insert("b".to_string(), VmPhaseTimings::requested_at(at(s, 1)));
    table.insert("a".to_string(), VmPhaseTimings::requested_at(at(s, 2)));
    assert_eq!(table.get(&"a".to_string()).unwrap().requested_time, at(s, 2));
    assert_eq!(table.get(&"b".to_string()).unwrap().requested_time, at(s, 1));
    assert!(table.get(&"c".to_string()).is_none());
}

#[test]
fn answers_name_their_deployment() {
    let r = VmPollingResponse {
        vm_id: "1".to_string(),
        vm_name: "n".to_string(),
        deployment_name: "d".to_string(),
        approach: "bulk".to_string(),
        status: "Active".to_string(),
        public_ip: None,
        provider: None,
        provider_location: None,
        datacenter: None,
        success: true,
        error: None,
        phase_timings: VmPhaseTimings::new(),
    };
    assert_eq!(r.get_deployment_info(), ("d", "bulk"));
    let q = VmPollingRequest {
        vm_id: "1".to_string(),
        vm_name: "n".to_string(),
        deployment_name: "d".to_string(),
        approach: "bulk".to_string(),
    };
    assert_eq!(q.clone().vm_name, "n");
}

#[test]
fn the_time_of_a_deployment_runs_on() {
    let s = Instant::now();
    let r = DeploymentResult {
        config_name: "c".to_string(),
        approach: "bulk".to_string(),
        start_time: s,
        duration: Duration::from_secs(1),
        success: true,
        vm_responses: None,
        vm_statuses: None,
        error_message: None,
        thread_id: "ThreadId(1)".to_string(),
        individual_timings: None,
        vm_phase_timings: None,
    };
    assert_eq!(r.execution_time_at(at(s, 4)), Duration::from_secs(4));
    let a = r.get_execution_time();
    assert!(r.get_execution_time() >= a);
}

#[test]
fn a_banner_stands_between_rulers() {
    let mut logs = no_logs();
    note(&mut logs, LogMessage::Shutdown);
    add_banner(&mut logs, "TITLE");
    assert_eq!(logs.len(), 4);
    assert!(matches!(&logs[0], LogMessage::Shutdown));
    assert!(matches!(&logs[1], LogMessage::Info(s) if *s == "=".repeat(80)));
    assert!(matches!(&logs[2], LogMessage::Info(s) if s == "TITLE"));
    assert!(matches!(&logs[3], LogMessage::Info(s) if *s == "=".repeat(80)));
}
