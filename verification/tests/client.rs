use serde_json::Value;
use vm_deployer::client::{
    failed_constraints_text, is_success, refusal_text, reply_messages, request_messages,
    status_error_text, DatacenterConstraints, Deployment, FluenceClient, PortConfig, Price,
    VmConfig, VmResponse, VmStatusResponse,
};
use vm_deployer::deployment::LogMessage;

fn said(logs: &[LogMessage]) -> Vec<String> {
    logs.iter()
        .map(|m| match m {
            LogMessage::Info(s) => format!("I {}", s),
            LogMessage::Success(s) => format!("S {}", s),
            LogMessage::Error(s) => format!("E {}", s),
            LogMessage::Shutdown => "shutdown".to_string(),
        })
        .collect()
}

fn plain() -> Deployment {
    Deployment {
        vm_config: VmConfig {
            name: "test-vm".to_string(),
            basic_configuration: "cpu-2".to_string(),
            additional_storage: None,
            open_ports: Vec::new(),
            hostname: None,
            os_image: "img".to_string(),
            ssh_keys: Vec::new(),
        },
        datacenter: None,
        instances: 3,
        max_price_per_epoch_usd: None,
    }
}

fn full() -> Deployment {
    let mut d = plain();
    d.vm_config.hostname = Some("host".to_string());
    d.vm_config.open_ports = vec![PortConfig { port: 22, protocol: "tcp".to_string() }];
    d.vm_config.ssh_keys = vec!["k1".to_string(), "k2".to_string()];
    d.datacenter =
        Some(DatacenterConstraints { countries: vec!["US".to_string(), "D\"E".to_string()] });
    d.max_price_per_epoch_usd =
        Some(Price { exact: "2.5".to_string(), rounded: "2.50".to_string() });
    d
}

fn client() -> FluenceClient {
    FluenceClient::new("secret", "https://api.fluence.dev")
}

fn status(id: &str, state: &str) -> VmStatusResponse {
    VmStatusResponse {
        id: id.to_string(),
        vm_name: format!("name-{}", id),
        status: state.to_string(),
        public_ip: None,
        datacenter: None,
        provider: None,
        provider_location: None,
    }
}

#[test]
fn requests_go_to_the_machines_with_the_key() {
    let r = client().deploy_vm(&plain());
    assert_eq!(r.url, "https://api.fluence.dev/vms/v3");
    assert_eq!(r.authorization, "Bearer secret");
    assert_eq!(client().clone().vms_url(), client().vms_url());
    assert_eq!(client().clone().authorization(), "Bearer secret");
}

#[test]
fn a_plain_request_holds_only_what_is_set() {
    let r = client().deploy_vm(&plain());
    let want: Value = serde_json::from_str(
        "{\"constraints\":{\"basicConfiguration\":\"cpu-2\"},\"instances\":3,\
         \"vmConfiguration\":{\"name\":\"test-vm\",\"osImage\":\"img\"}}",
    )
    .unwrap();
    assert_eq!(r.body, want);
    let said = said(&r.logs);
    assert_eq!(
        said,
        vec![format!("I DEBUG REQUEST JSON:\n{}", serde_json::to_string_pretty(&want).unwrap())]
    );
    assert!(said[0].contains("\n    \"basicConfiguration\": \"cpu-2\"\n"));
}

#[test]
fn a_full_request_holds_everything() {
    let r = client().deploy_vm(&full());
    let want: Value = serde_json::from_str(
        "{\"constraints\":{\"basicConfiguration\":\"cpu-2\",\"maxTotalPricePerEpochUsd\":\"2.5\",\
         \"datacenter\":{\"countries\":[\"US\",\"D\\\"E\"]}},\"instances\":3,\
         \"vmConfiguration\":{\"name\":\"test-vm\",\"osImage\":\"img\",\"hostname\":\"host\",\
         \"openPorts\":[{\"port\":22,\"protocol\":\"tcp\"}],\"sshKeys\":[\"k1\",\"k2\"]}}",
    )
    .unwrap();
    assert_eq!(r.body, want);
    let said = said(&r.logs);
    assert_eq!(said.len(), 2);
    assert_eq!(said[0], "I DEBUG: Adding datacenter constraints: [\"US\", \"D\\\"E\"]");
}

#[test]
fn no_countries_are_no_limit() {
    let mut d = full();
    d.datacenter = Some(DatacenterConstraints { countries: Vec::new() });
    let r = client().deploy_vm(&d);
    assert!(r.body.get("constraints").unwrap().get("datacenter").is_none());
    assert_eq!(r.logs.len(), 1);
}

#[test]
fn a_request_that_is_carried_out_brings_machines() {
    let vms =
        vec![VmResponse { vm_id: "0x1".to_string(), vm_name: "test-vm".to_string() }];
    let (logs, r) = client().deploy_vm_reply(&plain(), 201, "[..]", Ok(vms));
    assert_eq!(said(&logs), vec!["I DEBUG RESPONSE: 201 Created - [..]"]);
    let got = r.unwrap();
    assert_eq!(got.len(), 1);
    assert_eq!(got[0].vm_id, "0x1");
    let (_, r) = client().deploy_vm_reply(&plain(), 200, "x", Err("expected value".to_string()));
    assert_eq!(r.unwrap_err(), "expected value");
}

#[test]
fn a_request_that_is_refused_is_explained() {
    let (logs, r) = client().deploy_vm_reply(
        &full(),
        422,
        "{\"error\":\"no offers\"}",
        Err("unused".to_string()),
    );
    assert_eq!(
        said(&logs),
        vec![
            "I DEBUG RESPONSE: 422 Unprocessable Entity - {\"error\":\"no offers\"}".to_string(),
            "E FAILED CONSTRAINTS: instances=3, config=cpu-2, price=$2.5, \
             countries=[\"US\", \"D\\\"E\"]"
                .to_string(),
        ]
    );
    assert_eq!(r.unwrap_err(), "no offers");
    let (logs, r) =
        client().deploy_vm_reply(&plain(), 500, "oops", Err("unused".to_string()));
    assert_eq!(
        said(&logs)[1],
        "E FAILED CONSTRAINTS: instances=3, config=cpu-2, price=$0, countries=[\"ANY\"]"
    );
    assert_eq!(r.unwrap_err(), "HTTP 500 Internal Server Error - oops");
    let (_, r) = client().deploy_vm_reply(&plain(), 400, "{\"error\":7}", Err("u".to_string()));
    assert_eq!(r.unwrap_err(), "{\"error\":7}");
    let (_, r) = client().deploy_vm_reply(&plain(), 400, "[1]", Err("u".to_string()));
    assert_eq!(r.unwrap_err(), "[1]");
    let (_, r) = client().deploy_vm_reply(&plain(), 599, "", Err("u".to_string()));
    assert_eq!(r.unwrap_err(), "HTTP 599 <unknown status code> - ");
}

#[test]
fn the_reason_of_a_refusal_depends_on_what_was_read() {
    let read: Result<Value, serde_json::Error> = serde_json::from_str("{\"error\":\"why\"}");
    assert_eq!(refusal_text(&read, "400 Bad Request", "text"), "why");
    let read: Result<Value, serde_json::Error> = serde_json::from_str("{");
    assert_eq!(refusal_text(&read, "404 Not Found", "{"), "HTTP 404 Not Found - {");
    assert_eq!(status_error_text("404 Not Found", "x"), "API Error: 404 Not Found - x");
}

#[test]
fn success_is_what_http_calls_so() {
    assert!(!is_success(199));
    assert!(is_success(200));
    assert!(is_success(299));
    assert!(!is_success(300));
}

#[test]
fn the_first_machine_with_the_id_is_found() {
    let list = vec![status("a", "Active"), status("b", "Launching"), status("b", "Active")];
    let r = client().get_vm_status("b", 200, "", Ok(list)).unwrap();
    assert_eq!(r.id, "b");
    assert_eq!(r.status, "Launching");
    assert_eq!(r.get_full_name(), "name-b");
}

#[test]
fn a_machine_may_not_be_found() {
    let r = client().get_vm_status("c", 200, "", Ok(vec![status("a", "Active")]));
    assert_eq!(r.unwrap_err(), "VM not found");
    let r = client().get_vm_status("c", 200, "", Ok(Vec::new()));
    assert_eq!(r.unwrap_err(), "VM not found");
    let r = client().get_vm_status("c", 200, "x", Err("expected value".to_string()));
    assert_eq!(r.unwrap_err(), "expected value");
    let r = client().get_vm_status("a", 429, "slow", Ok(vec![status("a", "Active")]));
    assert_eq!(r.unwrap_err(), "API Error: 429 Too Many Requests - slow");
}

#[test]
fn machines_are_deleted_by_id() {
    let body = client().delete_vms(&vec!["0x1".to_string(), "0x2".to_string()]);
    assert_eq!(body.to_string(), "{\"vmIds\":[\"0x1\",\"0x2\"]}");
    assert_eq!(client().delete_vms(&Vec::new()).to_string(), "{\"vmIds\":[]}");
    assert_eq!(client().delete_vms_reply(204, ""), Ok(()));
    assert_eq!(client().delete_vms_reply(403, "no"), Err("API Error: no".to_string()));
}

#[test]
fn a_datacenter_is_a_text_or_has_a_name() {
    let mut s = status("a", "Active");
    assert_eq!(s.datacenter_name(), None);
    s.datacenter = Some(Value::from("us-east-1"));
    assert_eq!(s.datacenter_name(), Some("us-east-1".to_string()));
    s.datacenter = Some(serde_json::from_str("{\"name\":\"de-1\",\"id\":4}").unwrap());
    assert_eq!(s.datacenter_name(), Some("de-1".to_string()));
    s.datacenter = Some(serde_json::from_str("{\"name\":4}").unwrap());
    assert_eq!(s.datacenter_name(), None);
    s.datacenter = Some(Value::from(4));
    assert_eq!(s.datacenter_name(), None);
    assert_eq!(s.provider_name(), None);
    assert_eq!(s.location_name(), None);
    s.provider = Some(Value::from("p"));
    s.provider_location = Some(serde_json::from_str("{\"name\":\"Berlin\"}").unwrap());
    assert_eq!(s.provider_name(), Some("p".to_string()));
    assert_eq!(s.location_name(), Some("Berlin".to_string()));
    s.provider_location = None;
    assert_eq!(s.get_provider_info(), (&Some(Value::from("p")), &None));
}

#[test]
fn messages_are_built_from_written_texts() {
    assert_eq!(
        said(&request_messages(&Some("[US]".to_string()), "{}")),
        vec!["I DEBUG: Adding datacenter constraints: [US]", "I DEBUG REQUEST JSON:\n{}"]
    );
    assert_eq!(said(&request_messages(&None, "{}")), vec!["I DEBUG REQUEST JSON:\n{}"]);
    assert_eq!(
        failed_constraints_text(&full(), "[US]"),
        "FAILED CONSTRAINTS: instances=3, config=cpu-2, price=$2.5, countries=[US]"
    );
    assert_eq!(
        said(&reply_messages(&full(), 500, "500 Oops", "[US]", "text")),
        vec![
            "I DEBUG RESPONSE: 500 Oops - text",
            "E FAILED CONSTRAINTS: instances=3, config=cpu-2, price=$2.5, countries=[US]",
        ]
    );
    assert_eq!(said(&reply_messages(&full(), 200, "200 OK", "[US]", "t")).len(), 1);
}
