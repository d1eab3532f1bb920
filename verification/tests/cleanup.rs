use std::time::Duration;
use vm_deployer::cleanup::{
    deletion_messages, emergency_cleanup, emergency_cleanup_done, emergency_cleanup_of,
    emergency_messages, normal_cleanup, normal_cleanup_done, normal_cleanup_of,
};
use vm_deployer::client::{FluenceClient, VmResponse};
use vm_deployer::config::Config;
use vm_deployer::deployment::LogMessage;
use vm_deployer::worker::queue_vms;

fn said(logs: &[LogMessage]) -> Vec<String> {
    logs.iter()
        .map(|m| match m {
            LogMessage::Info(s) => format!("I {}", s),
            LogMessage::Success(s) => format!("S {}", s),
            LogMessage::Error(s) => format!("E {}", s),
            LogMessage::Shutdown => "shutdown".to_string(),
        })
        .collect()
}

fn config(enabled: bool, delay: u64) -> Config {
    Config {
        api_base_url: "u".to_string(),
        config_file_path: "c".to_string(),
        enable_console_output: true,
        deployment_timeout_seconds: 600,
        poll_interval_seconds: 30,
        enable_status_polling: true,
        enable_ip_retrieval: true,
        batch_delete_enabled: enabled,
        delete_delay_seconds: delay,
        enable_bulk_approach: true,
        enable_decomposed_approach: true,
        http_timeout_seconds: 120,
        deployments: Vec::new(),
    }
}

fn queue() -> Vec<String> {
    vec!["0x1".to_string(), "0x2".to_string()]
}

#[test]
fn an_emergency_deletes_everything_at_once() {
    let plan = emergency_cleanup(&queue());
    let line = format!("I {}", "=".repeat(80));
    assert_eq!(
        said(&plan.announcement),
        vec![line.clone(), "I 🚨 EMERGENCY VM CLEANUP (Ctrl+C)".to_string(), line]
    );
    assert_eq!(plan.wait_seconds, 0);
    assert_eq!(said(&plan.order), vec!["I Emergency deleting 2 VMs: [\"0x1\", \"0x2\"]"]);
    assert_eq!(plan.vm_ids, Some(queue()));
}

#[test]
fn an_emergency_without_machines_deletes_nothing() {
    let plan = emergency_cleanup(&Vec::new());
    assert!(plan.announcement.is_empty());
    assert!(plan.order.is_empty());
    assert_eq!(plan.vm_ids, None);
    assert_eq!(
        said(&emergency_cleanup_done(&Vec::new(), None)),
        vec!["I 🛑 Graceful shutdown completed"]
    );
}

#[test]
fn the_outcome_of_an_emergency_is_told() {
    let took = Duration::from_millis(1250);
    assert_eq!(
        said(&emergency_cleanup_done(&queue(), Some((Ok(()), took)))),
        vec!["S ✅ Emergency deleted 2 VMs in 1.250000s", "I 🛑 Graceful shutdown completed"]
    );
    assert_eq!(
        said(&emergency_cleanup_done(&queue(), Some((Err("API Error: no".to_string()), took)))),
        vec![
            "E ❌ Failed emergency VM deletion: API Error: no",
            "E ⚠️  WARNING: 2 VMs may still be running and charging!",
            "I 🛑 Graceful shutdown completed",
        ]
    );
}

#[test]
fn machines_are_deleted_after_the_delay() {
    let plan = normal_cleanup(&config(true, 15), &queue());
    assert_eq!(said(&plan.announcement)[1], "I VM CLEANUP");
    assert_eq!(
        said(&plan.announcement)[3],
        "I Waiting 15 seconds before deleting 2 VMs..."
    );
    assert_eq!(plan.wait_seconds, 15);
    assert_eq!(said(&plan.order), vec!["I Deleting 2 VMs: [\"0x1\", \"0x2\"]"]);
    assert_eq!(plan.vm_ids, Some(queue()));
    let plan = normal_cleanup(&config(true, 0), &queue());
    assert_eq!(plan.announcement.len(), 3);
    assert_eq!(plan.wait_seconds, 0);
    assert_eq!(plan.vm_ids, Some(queue()));
}

#[test]
fn machines_are_deleted_only_if_that_is_configured() {
    let plan = normal_cleanup(&config(false, 15), &queue());
    assert_eq!(
        said(&plan.announcement),
        vec!["I Batch deletion disabled. 2 VMs left running (will continue charging)"]
    );
    assert_eq!(plan.vm_ids, None);
    assert_eq!(plan.wait_seconds, 0);
    let plan = normal_cleanup(&config(false, 15), &Vec::new());
    assert!(plan.announcement.is_empty());
    let plan = normal_cleanup(&config(true, 15), &Vec::new());
    assert_eq!(said(&plan.announcement), vec!["I No VMs to delete"]);
    assert_eq!(plan.vm_ids, None);
}

#[test]
fn the_outcome_of_a_cleanup_is_told() {
    let took = Duration::from_micros(500);
    assert_eq!(
        said(&normal_cleanup_done(&queue(), Ok(()), took)),
        vec!["S Successfully deleted 2 VMs in 0.000500s"]
    );
    assert_eq!(
        said(&normal_cleanup_done(&queue(), Err("no".to_string()), took)),
        vec!["E Failed to delete VMs: no"]
    );
}

#[test]
fn every_machine_that_was_created_is_deleted() {
    let vm = |id: &str| VmResponse { vm_id: id.to_string(), vm_name: "vm".to_string() };
    let mut queue: Vec<String> = Vec::new();
    queue_vms(&mut queue, &vec![vm("a")]);
    queue_vms(&mut queue, &vec![vm("b"), vm("c")]);
    let want = vec!["a".to_string(), "b".to_string(), "c".to_string()];
    assert_eq!(emergency_cleanup(&queue).vm_ids, Some(want.clone()));
    let vm_ids = normal_cleanup(&config(true, 0), &queue).vm_ids.unwrap();
    assert_eq!(vm_ids, want);
    let body = FluenceClient::new("k", "u").delete_vms(&vm_ids);
    assert_eq!(body.to_string(), "{\"vmIds\":[\"a\",\"b\",\"c\"]}");
}

#[test]
fn messages_of_a_cleanup_are_built_from_written_texts() {
    assert_eq!(
        said(&emergency_cleanup_of(&queue(), "<list>").order),
        vec!["I Emergency deleting 2 VMs: <list>"]
    );
    assert_eq!(
        said(&normal_cleanup_of(&config(true, 0), &queue(), "<list>").order),
        vec!["I Deleting 2 VMs: <list>"]
    );
    assert_eq!(
        said(&emergency_messages(2, &Ok(()), "1.5")),
        vec!["S ✅ Emergency deleted 2 VMs in 1.5s"]
    );
    assert_eq!(
        said(&deletion_messages(2, &Ok(()), "1.5")),
        vec!["S Successfully deleted 2 VMs in 1.5s"]
    );
}
