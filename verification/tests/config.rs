use vm_deployer::client::{Deployment, VmConfig};
use vm_deployer::config::{
    config_file_path, env_assignments, get_approach_info, load_env_config, log_file_path,
    log_path_of_run, parse_ssh_keys, run_id, setup_logging, validate_config, Config,
};

fn deployment(name: &str) -> Deployment {
    Deployment {
        vm_config: VmConfig {
            name: name.to_string(),
            basic_configuration: "cpu-2-ram-4gb-storage-25gb".to_string(),
            additional_storage: None,
            open_ports: Vec::new(),
            hostname: None,
            os_image: "image".to_string(),
            ssh_keys: Vec::new(),
        },
        datacenter: None,
        instances: 3,
        max_price_per_epoch_usd: None,
    }
}

fn config(bulk: bool, decomposed: bool, deployments: Vec<Deployment>) -> Config {
    Config {
        api_base_url: "https://api.fluence.dev".to_string(),
        config_file_path: "./deployment_config.yaml".to_string(),
        enable_console_output: true,
        deployment_timeout_seconds: 600,
        poll_interval_seconds: 30,
        enable_status_polling: true,
        enable_ip_retrieval: true,
        batch_delete_enabled: true,
        delete_delay_seconds: 0,
        enable_bulk_approach: bulk,
        enable_decomposed_approach: decomposed,
        http_timeout_seconds: 120,
        deployments,
    }
}

#[test]
fn defaults_hold_unless_the_environment_says_otherwise() {
    assert_eq!(config_file_path(None), "./deployment_config.yaml");
    assert_eq!(config_file_path(Some("x.yaml".to_string())), "x.yaml");
    assert_eq!(log_file_path(None), "./logs/vm_deployment.log");
    assert_eq!(log_file_path(Some("".to_string())), "");
}

#[test]
fn assignments_are_read_from_a_file() {
    let content = "# Required: a key\nFLUENCE_API_KEY= abc=def \r\n\n SSH_KEYS =k1,k2\nnothing";
    let want = vec![
        ("FLUENCE_API_KEY".to_string(), "abc=def".to_string()),
        ("SSH_KEYS".to_string(), "k1,k2".to_string()),
    ];
    assert_eq!(env_assignments(content), want);
    assert_eq!(env_assignments(""), Vec::new());
}

#[test]
fn keys_are_clean() {
    let keys = parse_ssh_keys(" ssh-ed25519 AAAA user@host , ,ssh-rsa BBBB,");
    assert_eq!(keys, vec!["ssh-ed25519 AAAA user@host".to_string(), "ssh-rsa BBBB".to_string()]);
    for key in &keys {
        assert!(!key.is_empty());
        assert_eq!(key.trim(), key);
    }
}

#[test]
fn the_environment_must_give_keys() {
    let s = |t: &str| Some(t.to_string());
    assert_eq!(
        load_env_config(None, s("k"), None),
        Err("FLUENCE_API_KEY not found in environment or .env file".to_string())
    );
    assert_eq!(
        load_env_config(s("a"), None, None),
        Err("SSH_KEYS not found in environment or .env file".to_string())
    );
    assert_eq!(
        load_env_config(s("a"), s(" , "), None),
        Err("No valid SSH keys found in SSH_KEYS".to_string())
    );
    assert_eq!(
        load_env_config(s("a"), s("k1, k2"), None),
        Ok((
            "a".to_string(),
            vec!["k1".to_string(), "k2".to_string()],
            "./logs/vm_deployment.log".to_string()
        ))
    );
    assert_eq!(
        load_env_config(s(""), s("k"), s("x.log")),
        Ok(("".to_string(), vec!["k".to_string()], "x.log".to_string()))
    );
}

#[test]
fn a_run_is_named_after_its_start() {
    assert_eq!(run_id(1734618622), "20241219_143022");
    assert_eq!(run_id(0), "19700101_000000");
}

#[test]
fn the_log_of_a_run_bears_its_name() {
    assert_eq!(
        log_path_of_run("logs/vm_deployment.log", "20241219_143022"),
        "logs/vm_deployment_20241219_143022.log"
    );
    assert_eq!(log_path_of_run("out", "1"), "out_1.log");
    assert_eq!(log_path_of_run("a.logs/b.log", "1"), "a_1.logs/b_1.log");
    assert_eq!(log_path_of_run("", "1"), "_1.log");
}

#[test]
fn two_runs_have_two_logs() {
    let ids = ["", "1", "11", "1.log", "_1"];
    for path in ["a.log", "a.log.log", "a", ""] {
        for (i, a) in ids.iter().enumerate() {
            for b in &ids[i + 1..] {
                assert_ne!(log_path_of_run(path, a), log_path_of_run(path, b));
            }
            assert!(log_path_of_run(path, a).ends_with(&format!("_{}.log", a)));
        }
    }
}

#[test]
fn logging_starts_now() {
    let (path, seconds) = setup_logging(Some("x.log".to_string()));
    assert!(seconds > 1_600_000_000);
    assert_eq!(path, format!("x_{}.log", run_id(seconds)));
}

#[test]
fn a_configuration_needs_a_deployment_and_an_approach() {
    assert_eq!(
        validate_config(&config(true, true, Vec::new())),
        Err("No deployments found in config file".to_string())
    );
    assert_eq!(
        validate_config(&config(false, false, vec![deployment("a")])),
        Err("Both bulk and decomposed approaches are disabled! Enable at least one in config."
            .to_string())
    );
    assert_eq!(validate_config(&config(true, false, vec![deployment("a")])), Ok(()));
    assert_eq!(validate_config(&config(false, true, vec![deployment("a")])), Ok(()));
}

#[test]
fn approaches_have_a_name() {
    assert_eq!(
        get_approach_info(&config(true, true, Vec::new())),
        "BOTH BULK and DECOMPOSED approaches"
    );
    assert_eq!(get_approach_info(&config(true, false, Vec::new())), "BULK approach only");
    assert_eq!(get_approach_info(&config(false, true, Vec::new())), "DECOMPOSED approach only");
}
