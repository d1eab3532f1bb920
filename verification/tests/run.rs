use std::time::{Duration, Instant};
use vm_deployer::client::{
    DatacenterConstraints, Deployment, PortConfig, Price, StorageResource, VmConfig,
};
use vm_deployer::config::{get_approach_info, Config};
use vm_deployer::deployment::{DeploymentResult, LogMessage};
use vm_deployer::run::{
    completion_messages, inject_ssh_keys, launch_plan, log_completion, log_configuration,
    log_deployment, log_settings, running_message, ssh_key_preview, Approach, CollectAction,
    ResultCollector,
};

fn said(logs: &[LogMessage]) -> Vec<String> {
    logs.iter()
        .map(|m| match m {
            LogMessage::Info(s) => format!("I {}", s),
            LogMessage::Success(s) => format!("S {}", s),
            LogMessage::Error(s) => format!("E {}", s),
            LogMessage::Shutdown => "shutdown".to_string(),
        })
        .collect()
}

fn deployment(name: &str, keys: &[&str]) -> Deployment {
    Deployment {
        vm_config: VmConfig {
            name: name.to_string(),
            basic_configuration: "cpu-2".to_string(),
            additional_storage: None,
            open_ports: Vec::new(),
            hostname: None,
            os_image: "img".to_string(),
            ssh_keys: keys.iter().map(|k| k.to_string()).collect(),
        },
        datacenter: None,
        instances: 3,
        max_price_per_epoch_usd: None,
    }
}

fn config(bulk: bool, decomposed: bool) -> Config {
    let mut b = deployment("b", &["own"]);
    b.datacenter = Some(DatacenterConstraints { countries: vec!["US".to_string()] });
    b.vm_config.hostname = Some("host".to_string());
    b.vm_config.open_ports = vec![
        PortConfig { port: 22, protocol: "tcp".to_string() },
        PortConfig { port: 53, protocol: "udp".to_string() },
    ];
    b.vm_config.additional_storage = Some(vec![StorageResource {
        storage_type: "SSD".to_string(),
        supply: 10,
        units: "GB".to_string(),
    }]);
    b.max_price_per_epoch_usd =
        Some(Price { exact: "2.5".to_string(), rounded: "2.50".to_string() });
    Config {
        api_base_url: "https://api.fluence.dev".to_string(),
        config_file_path: "c".to_string(),
        enable_console_output: true,
        deployment_timeout_seconds: 600,
        poll_interval_seconds: 30,
        enable_status_polling: true,
        enable_ip_retrieval: false,
        batch_delete_enabled: true,
        delete_delay_seconds: 0,
        enable_bulk_approach: bulk,
        enable_decomposed_approach: decomposed,
        http_timeout_seconds: 120,
        deployments: vec![deployment("a", &[]), b],
    }
}

fn result(name: &str) -> DeploymentResult {
    DeploymentResult {
        config_name: name.to_string(),
        approach: "bulk".to_string(),
        start_time: Instant::now(),
        duration: Duration::from_secs(1),
        success: true,
        vm_responses: None,
        vm_statuses: None,
        error_message: None,
        thread_id: "t".to_string(),
        individual_timings: None,
        vm_phase_timings: None,
    }
}

#[test]
fn only_the_beginning_of_a_key_is_shown() {
    assert_eq!(ssh_key_preview(&Vec::new()), "NONE!");
    assert_eq!(ssh_key_preview(&vec!["short".to_string()]), "short...");
    assert_eq!(
        ssh_key_preview(&vec!["ssh-ed25519 AAAAC3NzaC1lZDI1".to_string(), "x".to_string()]),
        "ssh-ed25519 AAAAC3Nz..."
    );
    assert_eq!(ssh_key_preview(&vec!["é".repeat(21)]), format!("{}...", "é".repeat(20)));
}

#[test]
fn the_configuration_is_logged() {
    let logs = said(&log_configuration(&config(true, false), "logs/x.log", 1734618622));
    let wide = format!("I {}", "=".repeat(120));
    let line = format!("I {}", "=".repeat(80));
    let mut want: Vec<String> = vec![
        wide.as_str(),
        "I FLUENCE VM DEPLOYMENT RUN - 2024-12-19 14:30:22 UTC",
        "I LOG FILE: logs/x.log",
        wide.as_str(),
        "I CONFIGURATION:",
        "I   API URL: https://api.fluence.dev",
        "I   Config File: c",
        "I   Console Output: true",
        "I   HTTP Timeout: 120s",
        "I   Timeout: 600s",
        "I   Poll Interval: 30s",
        "I   Status Polling: true",
        "I   IP Retrieval: false",
        "I   Batch Delete: true",
        "I   Delete Delay: 0s",
        "I   Bulk Approach: true",
        "I   Decomposed Approach: false",
        "I ",
        "I   Deployment 1:",
        "I     Name: a",
        "I     Instances: 3",
        "I     Config: cpu-2",
        "I     OS Image: img",
        "I     SSH Keys: 0 keys",
        "I ",
        "I   Deployment 2:",
        "I     Name: b",
        "I     Instances: 3",
        "I     Config: cpu-2",
        "I     OS Image: img",
        "I     SSH Keys: 1 keys",
        "I       own",
        "I     Hostname: host",
        "I     Open Port: 22/tcp",
        "I     Open Port: 53/udp",
        "I     Additional Storage: SSD 10 GB",
        "I     Countries: [\"US\"]",
        "I     Max Price: $2.50",
        "I     Max Price Sent: $2.5",
        "I ",
    ]
    .iter()
    .map(|s| s.to_string())
    .collect();
    want.push(line.clone());
    want.push("I DEPLOYMENT STARTED".to_string());
    want.push(line);
    assert_eq!(logs, want);
}

#[test]
fn default_keys_go_where_there_are_none() {
    let mut c = config(true, true);
    let keys = vec!["k1".to_string(), "k2".to_string()];
    assert_eq!(
        said(&inject_ssh_keys(&mut c, &keys)),
        vec!["I Using default SSH keys from .env for deployment 'a'"]
    );
    assert_eq!(c.deployments[0].vm_config.ssh_keys, keys);
    assert_eq!(c.deployments[1].vm_config.ssh_keys, vec!["own".to_string()]);
    assert!(inject_ssh_keys(&mut c, &vec!["other".to_string()]).is_empty());
    assert_eq!(c.deployments[0].vm_config.ssh_keys, keys);
    assert_eq!(c.deployments[0].vm_config.name, "a");
}

#[test]
fn every_deployment_is_launched_in_every_enabled_way() {
    let plan = |bulk, decomposed| -> Vec<(String, Approach)> {
        launch_plan(&config(bulk, decomposed), false)
            .into_iter()
            .map(|j| (j.deployment.vm_config.name, j.approach))
            .collect()
    };
    let job = |name: &str, approach| (name.to_string(), approach);
    assert_eq!(
        plan(true, true),
        vec![
            job("a", Approach::Bulk),
            job("a", Approach::Decomposed),
            job("b", Approach::Bulk),
            job("b", Approach::Decomposed),
        ]
    );
    assert_eq!(plan(true, false), vec![job("a", Approach::Bulk), job("b", Approach::Bulk)]);
    assert_eq!(
        plan(false, true),
        vec![job("a", Approach::Decomposed), job("b", Approach::Decomposed)]
    );
    assert!(launch_plan(&config(true, true), true).is_empty());
}

#[test]
fn a_run_says_what_it_does() {
    let c = config(true, true);
    assert_eq!(
        said(&[running_message(&c, get_approach_info(&c))]),
        vec!["I Running: 2 deployments with BOTH BULK and DECOMPOSED approaches"]
    );
}

#[test]
fn a_run_waits_for_one_result_of_each_job() {
    for (bulk, decomposed) in [(true, true), (true, false), (false, true)] {
        let c = config(bulk, decomposed);
        let n = launch_plan(&c, false).len();
        let mut collector = ResultCollector::new(&c);
        for i in 0..n {
            assert!(matches!(collector.next(false), CollectAction::Wait));
            collector.take(result(&format!("{}", i)));
        }
        assert!(matches!(collector.next(false), CollectAction::Done));
        assert!(matches!(collector.next(true), CollectAction::Done));
        let results = collector.collect_results();
        assert_eq!(results.len(), n);
        assert_eq!(results[1].config_name, "1");
    }
}

#[test]
fn a_run_stops_waiting_on_the_signal() {
    let collector = ResultCollector::new(&config(true, true));
    match collector.next(true) {
        CollectAction::Stop(m) => assert_eq!(
            said(&[m]),
            vec!["E 🛑 SHUTDOWN SIGNAL RECEIVED - Stopping deployment..."]
        ),
        _ => panic!("no stop"),
    }
    assert!(collector.collect_results().is_empty());
}

#[test]
fn the_last_words_have_a_stamp() {
    assert_eq!(
        said(&log_completion(1734618622))[1],
        "I FLUENCE VM DEPLOYMENT COMPLETED - 2024-12-19 14:30:22 UTC"
    );
}

#[test]
fn the_log_tells_every_setting() {
    let base = config(true, true);
    let mut changed: Vec<Config> = Vec::new();
    for i in 0..12 {
        let mut c = config(true, true);
        match i {
            0 => c.api_base_url = "other".to_string(),
            1 => c.config_file_path = "other".to_string(),
            2 => c.enable_console_output = false,
            3 => c.deployment_timeout_seconds = 1,
            4 => c.poll_interval_seconds = 1,
            5 => c.enable_status_polling = false,
            6 => c.enable_ip_retrieval = true,
            7 => c.batch_delete_enabled = false,
            8 => c.delete_delay_seconds = 1,
            9 => c.enable_bulk_approach = false,
            10 => c.enable_decomposed_approach = false,
            _ => c.http_timeout_seconds = 1,
        }
        changed.push(c);
    }
    for c in &changed {
        assert_ne!(
            said(&log_configuration(&base, "x.log", 0)),
            said(&log_configuration(c, "x.log", 0))
        );
    }
}

#[test]
fn lines_of_a_run_are_built_from_written_texts() {
    let c = config(true, true);
    assert_eq!(said(&log_settings(&c, "x.log", "noon"))[1], "I FLUENCE VM DEPLOYMENT RUN - noon");
    let mut logs: Vec<LogMessage> = Vec::new();
    log_deployment(&mut logs, 7, &c.deployments[0], &Some("<list>".to_string()));
    assert_eq!(said(&logs)[0], "I   Deployment 7:");
    assert_eq!(said(&logs)[6], "I     Countries: <list>");
    assert_eq!(
        said(&completion_messages("noon"))[1],
        "I FLUENCE VM DEPLOYMENT COMPLETED - noon"
    );
}
