//! The Fluence API: what is sent to it and how its answers are read.
use crate::deployment::{no_logs, note, LogEntry, LogMessage};
use crate::json::{
    array_value, field, get_field, get_text, json_list, json_of, json_text, new_fields, no_fields,
    number_value, object_value, opt_json, parse, parsed_json, pretty, pretty_json, set_field,
    text_array, text_array_value, text_value, Json,
};
use crate::text::{copy_texts, debug_list, decimal, decimal_text, format_list, same_text};
use serde_json::Value;
use vstd::prelude::*;

verus! {

/// A group of machines to deploy.
#[derive(Debug)]
pub struct Deployment {
    pub vm_config: VmConfig,
    pub datacenter: Option<DatacenterConstraints>,
    /// How many machines to deploy.
    pub instances: u32,
    /// The most that the machines may cost per epoch, in US dollars.
    pub max_price_per_epoch_usd: Option<Price>,
}

/// How each machine of a group is set up.
#[derive(Debug)]
pub struct VmConfig {
    pub name: String,
    pub basic_configuration: String,
    pub additional_storage: Option<Vec<StorageResource>>,
    pub open_ports: Vec<PortConfig>,
    pub hostname: Option<String>,
    pub os_image: String,
    pub ssh_keys: Vec<String>,
}

#[derive(Debug)]
pub struct StorageResource {
    pub storage_type: String,
    pub supply: u32,
    pub units: String,
}

#[derive(Debug)]
pub struct DatacenterConstraints {
    pub countries: Vec<String>,
}

#[derive(Debug)]
pub struct PortConfig {
    pub port: u16,
    pub protocol: String,
}

/// A price, as it is written for the API and as it is written for people.
#[derive(Debug)]
pub struct Price {
    /// With as many digits as it takes.
    pub exact: String,
    /// With two digits after the point.
    pub rounded: String,
}

/// A machine that the API has agreed to start.
#[derive(Debug)]
pub struct VmResponse {
    pub vm_id: String,
    pub vm_name: String,
}

/// What the API says of a machine.
#[derive(Debug)]
pub struct VmStatusResponse {
    pub id: String,
    pub vm_name: String,
    pub status: String,
    pub public_ip: Option<String>,
    pub datacenter: Option<Value>,
    pub provider: Option<Value>,
    pub provider_location: Option<Value>,
}

pub struct DeploymentView {
    pub vm_config: VmConfigView,
    pub datacenter: Option<Seq<Seq<char>>>,
    pub instances: u32,
    pub max_price_per_epoch_usd: Option<PriceView>,
}

pub struct VmConfigView {
    pub name: Seq<char>,
    pub basic_configuration: Seq<char>,
    pub additional_storage: Option<Seq<StorageResourceView>>,
    pub open_ports: Seq<PortConfigView>,
    pub hostname: Option<Seq<char>>,
    pub os_image: Seq<char>,
    pub ssh_keys: Seq<Seq<char>>,
}

pub struct StorageResourceView {
    pub storage_type: Seq<char>,
    pub supply: u32,
    pub units: Seq<char>,
}

pub struct PortConfigView {
    pub port: u16,
    pub protocol: Seq<char>,
}

pub struct PriceView {
    pub exact: Seq<char>,
    pub rounded: Seq<char>,
}

pub struct VmResponseView {
    pub vm_id: Seq<char>,
    pub vm_name: Seq<char>,
}

pub struct VmStatusView {
    pub id: Seq<char>,
    pub vm_name: Seq<char>,
    pub status: Seq<char>,
    pub public_ip: Option<Seq<char>>,
    pub datacenter: Option<Json>,
    pub provider: Option<Json>,
    pub provider_location: Option<Json>,
}

impl DeepView for StorageResource {
    type V = StorageResourceView;

    open spec fn deep_view(&self) -> StorageResourceView {
        StorageResourceView {
            storage_type: self.storage_type@,
            supply: self.supply,
            units: self.units@,
        }
    }
}

impl DeepView for DatacenterConstraints {
    type V = Seq<Seq<char>>;

    open spec fn deep_view(&self) -> Seq<Seq<char>> {
        self.countries.deep_view()
    }
}

impl DeepView for PortConfig {
    type V = PortConfigView;

    open spec fn deep_view(&self) -> PortConfigView {
        PortConfigView { port: self.port, protocol: self.protocol@ }
    }
}

impl DeepView for Price {
    type V = PriceView;

    open spec fn deep_view(&self) -> PriceView {
        PriceView { exact: self.exact@, rounded: self.rounded@ }
    }
}

impl DeepView for VmConfig {
    type V = VmConfigView;

    open spec fn deep_view(&self) -> VmConfigView {
        VmConfigView {
            name: self.name@,
            basic_configuration: self.basic_configuration@,
            additional_storage: self.additional_storage.deep_view(),
            open_ports: self.open_ports.deep_view(),
            hostname: self.hostname.deep_view(),
            os_image: self.os_image@,
            ssh_keys: self.ssh_keys.deep_view(),
        }
    }
}

impl DeepView for Deployment {
    type V = DeploymentView;

    open spec fn deep_view(&self) -> DeploymentView {
        DeploymentView {
            vm_config: self.vm_config.deep_view(),
            datacenter: self.datacenter.deep_view(),
            instances: self.instances,
            max_price_per_epoch_usd: self.max_price_per_epoch_usd.deep_view(),
        }
    }
}

impl DeepView for VmResponse {
    type V = VmResponseView;

    open spec fn deep_view(&self) -> VmResponseView {
        VmResponseView { vm_id: self.vm_id@, vm_name: self.vm_name@ }
    }
}

impl DeepView for VmStatusResponse {
    type V = VmStatusView;

    open spec fn deep_view(&self) -> VmStatusView {
        VmStatusView {
            id: self.id@,
            vm_name: self.vm_name@,
            status: self.status@,
            public_ip: self.public_ip.deep_view(),
            datacenter: opt_json(self.datacenter),
            provider: opt_json(self.provider),
            provider_location: opt_json(self.provider_location),
        }
    }
}

impl Clone for StorageResource {
    fn clone(&self) -> (r: Self)
        ensures
            r.deep_view() == self.deep_view(),
    {
        StorageResource {
            storage_type: self.storage_type.clone(),
            supply: self.supply,
            units: self.units.clone(),
        }
    }
}

impl Clone for DatacenterConstraints {
    fn clone(&self) -> (r: Self)
        ensures
            r.deep_view() == self.deep_view(),
    {
        DatacenterConstraints { countries: copy_texts(&self.countries) }
    }
}

impl Clone for PortConfig {
    fn clone(&self) -> (r: Self)
        ensures
            r.deep_view() == self.deep_view(),
    {
        PortConfig { port: self.port, protocol: self.protocol.clone() }
    }
}

impl Clone for Price {
    fn clone(&self) -> (r: Self)
        ensures
            r.deep_view() == self.deep_view(),
    {
        Price { exact: self.exact.clone(), rounded: self.rounded.clone() }
    }
}

impl Clone for VmConfig {
    fn clone(&self) -> (r: Self)
        ensures
            r.deep_view() == self.deep_view(),
    {
        let r: VmConfig = VmConfig {
            name: self.name.clone(),
            basic_configuration: self.basic_configuration.clone(),
            additional_storage: self.additional_storage.clone(),
            open_ports: self.open_ports.clone(),
            hostname: self.hostname.clone(),
            os_image: self.os_image.clone(),
            ssh_keys: copy_texts(&self.ssh_keys),
        };
        assert(r.open_ports.deep_view() =~= self.open_ports.deep_view());
        assert(r.additional_storage.deep_view() =~= self.additional_storage.deep_view());
        r
    }
}

impl Clone for Deployment {
    fn clone(&self) -> (r: Self)
        ensures
            r.deep_view() == self.deep_view(),
    {
        Deployment {
            vm_config: self.vm_config.clone(),
            datacenter: self.datacenter.clone(),
            instances: self.instances,
            max_price_per_epoch_usd: self.max_price_per_epoch_usd.clone(),
        }
    }
}

impl Clone for VmResponse {
    fn clone(&self) -> (r: Self)
        ensures
            r.deep_view() == self.deep_view(),
    {
        VmResponse { vm_id: self.vm_id.clone(), vm_name: self.vm_name.clone() }
    }
}

/// The name of a datacenter, a provider or a location, which the API gives as a text or as the
/// field `name` of an object.
pub open spec fn name_in(value: Option<Json>) -> Option<Seq<char>> {
    match value {
        Some(v) => match json_text(v) {
            Some(s) => Some(s),
            None => match field(v, "name"@) {
                Some(n) => json_text(n),
                None => None,
            },
        },
        None => None,
    }
}

impl VmStatusResponse {
    /// The provider of the machine and where it is.
    pub fn get_provider_info(&self) -> (r: (&Option<Value>, &Option<Value>))
        ensures
            *r.0 == self.provider,
            *r.1 == self.provider_location,
    {
        (&self.provider, &self.provider_location)
    }

    pub fn get_full_name(&self) -> (r: &str)
        ensures
            r@ == self.vm_name@,
    {
        self.vm_name.as_str()
    }

    /// The name of the datacenter that the machine is in, if the API tells it.
    pub fn datacenter_name(&self) -> (r: Option<String>)
        ensures
            r.deep_view() == name_in(self.deep_view().datacenter),
    {
        read_name(&self.datacenter)
    }

    /// The name of the provider of the machine, if the API tells it.
    pub fn provider_name(&self) -> (r: Option<String>)
        ensures
            r.deep_view() == name_in(self.deep_view().provider),
    {
        read_name(&self.provider)
    }

    /// The name of the place where the provider has the machine, if the API tells it.
    pub fn location_name(&self) -> (r: Option<String>)
        ensures
            r.deep_view() == name_in(self.deep_view().provider_location),
    {
        read_name(&self.provider_location)
    }
}

/// The name of a datacenter, a provider or a location.
fn read_name(value: &Option<Value>) -> (r: Option<String>)
    ensures
        r.deep_view() == name_in(opt_json(*value)),
{
    match value {
        Some(v) => match get_text(v) {
            Some(s) => Some(s.to_string()),
            None => match get_field(v, "name") {
                Some(n) => match get_text(n) {
                    Some(s) => Some(s.to_string()),
                    None => None,
                },
                None => None,
            },
        },
        None => None,
    }
}

/// What `StatusCode::canonical_reason` gives for a status code, or that there is none.
pub uninterp spec fn reason_phrase(status: u16) -> Seq<char>;

/// The status codes that HTTP knows.
pub open spec fn http_status(status: u16) -> bool {
    100 <= status <= 999
}

/// The answer means that the request was carried out.
pub open spec fn successful(status: u16) -> bool {
    200 <= status <= 299
}

/// A status code as it is printed.
pub open spec fn status_line(status: u16) -> Seq<char> {
    decimal(status as nat) + " "@ + reason_phrase(status)
}

/// `reqwest::StatusCode` as it is printed: the code, a space and the reason that goes with the
/// code, which is a function of the code, named `reason_phrase`. `StatusCode::from_u16` knows
/// the codes from 100 to 999 only.
#[verifier::external_body]
pub(crate) fn status_text(status: u16) -> (r: String)
    requires
        http_status(status),
    ensures
        r@ == decimal(status as nat) + " "@ + reason_phrase(status),
{
    reqwest::StatusCode::from_u16(status).unwrap().to_string()
}

/// Access to the API: where it is and the key that opens it.
#[derive(Debug)]
pub struct FluenceClient {
    api_key: String,
    base_url: String,
}

pub struct FluenceClientView {
    pub api_key: Seq<char>,
    pub base_url: Seq<char>,
}

impl DeepView for FluenceClient {
    type V = FluenceClientView;

    closed spec fn deep_view(&self) -> FluenceClientView {
        FluenceClientView { api_key: self.api_key@, base_url: self.base_url@ }
    }
}

impl FluenceClientView {
    /// Where the machines are found.
    pub open spec fn url(self) -> Seq<char> {
        self.base_url + "/vms/v3"@
    }

    /// What is sent to open the API.
    pub open spec fn authorization(self) -> Seq<char> {
        "Bearer "@ + self.api_key
    }
}

/// A request to deploy machines, and what is logged about it.
pub struct DeployRequest {
    pub url: String,
    pub authorization: String,
    pub body: Value,
    pub logs: Vec<LogMessage>,
}

/// The countries that a deployment is limited to, if it is.
pub open spec fn countries(d: DeploymentView) -> Option<Seq<Seq<char>>> {
    match d.datacenter {
        Some(list) => if list.len() > 0 {
            Some(list)
        } else {
            None
        },
        None => None,
    }
}

/// What the machines must be like.
pub open spec fn constraint_fields(d: DeploymentView) -> Map<Seq<char>, Json> {
    let base = no_fields().insert(
        "basicConfiguration"@,
        Json::Text(d.vm_config.basic_configuration),
    );
    let priced = match d.max_price_per_epoch_usd {
        Some(price) => base.insert("maxTotalPricePerEpochUsd"@, Json::Text(price.exact)),
        None => base,
    };
    match countries(d) {
        Some(list) => priced.insert(
            "datacenter"@,
            Json::Object(no_fields().insert("countries"@, text_array(list))),
        ),
        None => priced,
    }
}

/// An open port in JSON.
pub open spec fn port_json(port: PortConfigView) -> Json {
    Json::Object(
        no_fields().insert("port"@, Json::Integer(port.port as int)).insert(
            "protocol"@,
            Json::Text(port.protocol),
        ),
    )
}

/// A list of open ports in JSON.
pub open spec fn ports_json(ports: Seq<PortConfigView>) -> Json {
    Json::Array(ports.map_values(|p: PortConfigView| port_json(p)))
}

/// How the machines are set up.
pub open spec fn configuration_fields(c: VmConfigView) -> Map<Seq<char>, Json> {
    let base = no_fields().insert("name"@, Json::Text(c.name)).insert(
        "osImage"@,
        Json::Text(c.os_image),
    );
    let hosted = match c.hostname {
        Some(hostname) => base.insert("hostname"@, Json::Text(hostname)),
        None => base,
    };
    let opened = if c.open_ports.len() > 0 {
        hosted.insert("openPorts"@, ports_json(c.open_ports))
    } else {
        hosted
    };
    if c.ssh_keys.len() > 0 {
        opened.insert("sshKeys"@, text_array(c.ssh_keys))
    } else {
        opened
    }
}

/// The body of the request to deploy machines.
pub open spec fn deploy_body(d: DeploymentView) -> Json {
    Json::Object(
        no_fields().insert("constraints"@, Json::Object(constraint_fields(d))).insert(
            "instances"@,
            Json::Integer(d.instances as int),
        ).insert("vmConfiguration"@, Json::Object(configuration_fields(d.vm_config))),
    )
}

/// What is logged before machines are requested, given the countries, if there is a limit, and
/// the body of the request as they are written.
pub open spec fn request_entries(countries: Option<Seq<char>>, body: Seq<char>) -> Seq<LogEntry> {
    let limits = match countries {
        Some(list) => seq![LogEntry::Info("DEBUG: Adding datacenter constraints: "@ + list)],
        None => Seq::empty(),
    };
    limits.push(LogEntry::Info("DEBUG REQUEST JSON:\n"@ + body))
}

/// What is logged before machines are requested.
pub open spec fn deploy_logs(d: DeploymentView) -> Seq<LogEntry> {
    request_entries(
        match countries(d) {
            Some(list) => Some(debug_list(list)),
            None => None,
        },
        pretty_json(deploy_body(d)),
    )
}

/// The body of the request to delete machines.
pub open spec fn delete_body(vm_ids: Seq<Seq<char>>) -> Json {
    Json::Object(no_fields().insert("vmIds"@, text_array(vm_ids)))
}

/// The countries that are told of in the log of a request that failed.
pub open spec fn told_countries(d: DeploymentView) -> Seq<Seq<char>> {
    match d.datacenter {
        Some(list) => list,
        None => seq!["ANY"@],
    }
}

/// What was asked for, for the log of a request that failed, given the countries as they are
/// written.
pub open spec fn failed_constraints(d: DeploymentView, countries: Seq<char>) -> Seq<char> {
    "FAILED CONSTRAINTS: instances="@ + decimal(d.instances as nat) + ", config="@
        + d.vm_config.basic_configuration + ", price=$"@ + (match d.max_price_per_epoch_usd {
        Some(price) => price.exact,
        None => "0"@,
    }) + ", countries="@ + countries
}

/// What is logged when the API has answered, given the status and the countries as they are
/// written.
pub open spec fn reply_entries(
    d: DeploymentView,
    status: u16,
    line: Seq<char>,
    countries: Seq<char>,
    text: Seq<char>,
) -> Seq<LogEntry> {
    let logs = seq![LogEntry::Info("DEBUG RESPONSE: "@ + line + " - "@ + text)];
    if successful(status) {
        logs
    } else {
        logs.push(LogEntry::Error(failed_constraints(d, countries)))
    }
}

/// What is logged when the API has answered.
pub open spec fn reply_logs(d: DeploymentView, status: u16, text: Seq<char>) -> Seq<LogEntry> {
    reply_entries(d, status, status_line(status), debug_list(told_countries(d)), text)
}

/// Why a request failed: the field `error` of the answer, the whole answer if it is JSON without
/// that field, and the status, as it is written, and the answer if it is no JSON.
pub open spec fn refusal(parsed: Option<Json>, line: Seq<char>, text: Seq<char>) -> Seq<char> {
    match parsed {
        Some(v) => match field(v, "error"@) {
            Some(e) => match json_text(e) {
                Some(s) => s,
                None => text,
            },
            None => text,
        },
        None => "HTTP "@ + line + " - "@ + text,
    }
}

/// Where a machine stands in a list, if it does: the first place.
pub open spec fn place_of(list: Seq<VmStatusView>, vm_id: Seq<char>) -> Option<int>
    decreases list.len(),
{
    if list.len() == 0 {
        None
    } else {
        match place_of(list.drop_last(), vm_id) {
            Some(i) => Some(i),
            None => if list.last().id == vm_id {
                Some(list.len() - 1)
            } else {
                None
            },
        }
    }
}

/// The texts of a result: what it holds or why there is nothing.
pub open spec fn statuses_view(
    r: Result<Vec<VmStatusResponse>, String>,
) -> Result<Seq<VmStatusView>, Seq<char>> {
    match r {
        Ok(list) => Ok(list.deep_view()),
        Err(e) => Err(e@),
    }
}

pub open spec fn responses_view(
    r: Result<Vec<VmResponse>, String>,
) -> Result<Seq<VmResponseView>, Seq<char>> {
    match r {
        Ok(list) => Ok(list.deep_view()),
        Err(e) => Err(e@),
    }
}

pub open spec fn status_view(
    r: Result<VmStatusResponse, String>,
) -> Result<VmStatusView, Seq<char>> {
    match r {
        Ok(s) => Ok(s.deep_view()),
        Err(e) => Err(e@),
    }
}

/// Why the question for all machines failed, given the status as it is written.
pub open spec fn status_error(line: Seq<char>, text: Seq<char>) -> Seq<char> {
    "API Error: "@ + line + " - "@ + text
}

/// What the API says of a machine, given the answer to the question for all machines.
pub open spec fn status_reply(
    vm_id: Seq<char>,
    status: u16,
    text: Seq<char>,
    parsed: Result<Seq<VmStatusView>, Seq<char>>,
) -> Result<VmStatusView, Seq<char>> {
    if successful(status) {
        match parsed {
            Ok(list) => match place_of(list, vm_id) {
                Some(i) => Ok(list[i]),
                None => Err("VM not found"@),
            },
            Err(e) => Err(e),
        }
    } else {
        Err(status_error(status_line(status), text))
    }
}

/// Where a machine stands in a list, if it does.
pub(crate) fn position_of(list: &Vec<VmStatusResponse>, vm_id: &str) -> (r: Option<usize>)
    ensures
        match r {
            Some(i) => i < list.len() && place_of(list.deep_view(), vm_id@) == Some(i as int),
            None => place_of(list.deep_view(), vm_id@) is None,
        },
{
    let ghost all = list.deep_view();
    let mut i: usize = 0;
    while i < list.len()
        invariant
            i <= list.len(),
            all == list.deep_view(),
            place_of(all.take(i as int), vm_id@) is None,
        decreases list.len() - i,
    {
        assert(all.take(i + 1).drop_last() =~= all.take(i as int));
        if same_text(&list[i].id, vm_id) {
            proof {
                lemma_place_stays(all, vm_id@, i + 1);
            }
            return Some(i);
        }
        i += 1;
    }
    assert(all.take(i as int) =~= all);
    None
}

fn port_value(port: &PortConfig) -> (v: Value)
    ensures
        json_of(v) == port_json(port.deep_view()),
{
    let mut fields: serde_json::Map<String, Value> = new_fields();
    set_field(&mut fields, "port".to_string(), number_value(port.port as u64));
    set_field(&mut fields, "protocol".to_string(), text_value(port.protocol.clone()));
    object_value(fields)
}

fn ports_value(ports: &Vec<PortConfig>) -> (v: Value)
    ensures
        json_of(v) == ports_json(ports.deep_view()),
{
    let mut items: Vec<Value> = Vec::new();
    let mut i: usize = 0;
    while i < ports.len()
        invariant
            i <= ports.len(),
            items.len() == i,
            forall|k: int|
                0 <= k < i ==> json_of(#[trigger] items@[k]) == port_json(ports.deep_view()[k]),
        decreases ports.len() - i,
    {
        items.push(port_value(&ports[i]));
        i += 1;
    }
    assert(json_list(items@) =~= ports.deep_view().map_values(
        |p: PortConfigView| port_json(p),
    ));
    array_value(items)
}

fn constraints_value(config: &Deployment) -> (v: Value)
    ensures
        json_of(v) == Json::Object(constraint_fields(config.deep_view())),
{
    let mut fields: serde_json::Map<String, Value> = new_fields();
    set_field(
        &mut fields,
        "basicConfiguration".to_string(),
        text_value(config.vm_config.basic_configuration.clone()),
    );
    if let Some(price) = &config.max_price_per_epoch_usd {
        set_field(
            &mut fields,
            "maxTotalPricePerEpochUsd".to_string(),
            text_value(price.exact.clone()),
        );
    }
    if let Some(datacenter) = &config.datacenter {
        if datacenter.countries.len() > 0 {
            let mut inner: serde_json::Map<String, Value> = new_fields();
            set_field(
                &mut inner,
                "countries".to_string(),
                text_array_value(&datacenter.countries),
            );
            set_field(&mut fields, "datacenter".to_string(), object_value(inner));
        }
    }
    object_value(fields)
}

fn configuration_value(config: &VmConfig) -> (v: Value)
    ensures
        json_of(v) == Json::Object(configuration_fields(config.deep_view())),
{
    let mut fields: serde_json::Map<String, Value> = new_fields();
    set_field(&mut fields, "name".to_string(), text_value(config.name.clone()));
    set_field(&mut fields, "osImage".to_string(), text_value(config.os_image.clone()));
    if let Some(hostname) = &config.hostname {
        set_field(&mut fields, "hostname".to_string(), text_value(hostname.clone()));
    }
    if config.open_ports.len() > 0 {
        set_field(&mut fields, "openPorts".to_string(), ports_value(&config.open_ports));
    }
    if config.ssh_keys.len() > 0 {
        set_field(&mut fields, "sshKeys".to_string(), text_array_value(&config.ssh_keys));
    }
    object_value(fields)
}

/// The reason that the API gives for not carrying out a request, read from an answer that has
/// been parsed. `line` is the status as it is written.
pub fn refusal_text(
    parsed: &Result<Value, serde_json::Error>,
    line: &str,
    text: &str,
) -> (r: String)
    ensures
        r@ == refusal(
            match *parsed {
                Ok(v) => Some(json_of(v)),
                Err(_) => None,
            },
            line@,
            text@,
        ),
{
    match parsed {
        Ok(v) => match get_field(v, "error") {
            Some(e) => match get_text(e) {
                Some(s) => s.to_string(),
                None => text.to_string(),
            },
            None => text.to_string(),
        },
        Err(_) => "HTTP ".to_string().concat(line).concat(" - ").concat(text),
    }
}

/// Whether an answer means that the request was carried out.
pub fn is_success(status: u16) -> (r: bool)
    ensures
        r == successful(status),
{
    200 <= status && status <= 299
}

/// Why the question for all machines failed. `line` is the status as it is written.
pub fn status_error_text(line: &str, text: &str) -> (r: String)
    ensures
        r@ == status_error(line@, text@),
{
    "API Error: ".to_string().concat(line).concat(" - ").concat(text)
}

/// What was asked for, for the log of a request that failed. `countries` is the list of countries
/// as it is written.
pub fn failed_constraints_text(config: &Deployment, countries: &str) -> (r: String)
    ensures
        r@ == failed_constraints(config.deep_view(), countries@),
{
    let price: String = match &config.max_price_per_epoch_usd {
        Some(price) => price.exact.clone(),
        None => "0".to_string(),
    };
    "FAILED CONSTRAINTS: instances=".to_string().concat(
        decimal_text(config.instances as u64).as_str(),
    ).concat(", config=").concat(config.vm_config.basic_configuration.as_str()).concat(
        ", price=$",
    ).concat(price.as_str()).concat(", countries=").concat(countries)
}

/// What is logged before machines are requested. `countries` is the list of countries, if there
/// is a limit, and `body` the body of the request, as they are written.
pub fn request_messages(countries: &Option<String>, body: &str) -> (logs: Vec<LogMessage>)
    ensures
        logs.deep_view() == request_entries(countries.deep_view(), body@),
{
    let mut logs: Vec<LogMessage> = no_logs();
    if let Some(list) = countries {
        note(
            &mut logs,
            LogMessage::Info(
                "DEBUG: Adding datacenter constraints: ".to_string().concat(list.as_str()),
            ),
        );
    }
    note(&mut logs, LogMessage::Info("DEBUG REQUEST JSON:\n".to_string().concat(body)));
    assert(logs.deep_view() =~= request_entries(countries.deep_view(), body@));
    logs
}

/// What is logged when the API has answered. `line` is the status and `countries` the list of
/// countries, as they are written.
pub fn reply_messages(
    config: &Deployment,
    status: u16,
    line: &str,
    countries: &str,
    text: &str,
) -> (logs: Vec<LogMessage>)
    ensures
        logs.deep_view() == reply_entries(config.deep_view(), status, line@, countries@, text@),
{
    let mut logs: Vec<LogMessage> = no_logs();
    note(
        &mut logs,
        LogMessage::Info("DEBUG RESPONSE: ".to_string().concat(line).concat(" - ").concat(text)),
    );
    if !is_success(status) {
        note(&mut logs, LogMessage::Error(failed_constraints_text(config, countries)));
    }
    logs
}

/// The countries of a deployment, for the log of a request that failed.
fn told_countries_list(config: &Deployment) -> (r: Vec<String>)
    ensures
        r.deep_view() == told_countries(config.deep_view()),
{
    match &config.datacenter {
        Some(datacenter) => copy_texts(&datacenter.countries),
        None => {
            let mut any: Vec<String> = Vec::new();
            any.push("ANY".to_string());
            assert(any.deep_view() =~= seq!["ANY"@]);
            any
        },
    }
}

impl FluenceClient {
    pub fn new(api_key: &str, base_url: &str) -> (r: Self)
        ensures
            r.deep_view() == (FluenceClientView { api_key: api_key@, base_url: base_url@ }),
    {
        FluenceClient { api_key: api_key.to_string(), base_url: base_url.to_string() }
    }

    /// Where the machines are found.
    pub fn vms_url(&self) -> (r: String)
        ensures
            r@ == self.deep_view().url(),
    {
        self.base_url.clone().concat("/vms/v3")
    }

    /// What is sent to open the API.
    pub fn authorization(&self) -> (r: String)
        ensures
            r@ == self.deep_view().authorization(),
    {
        "Bearer ".to_string().concat(self.api_key.as_str())
    }

    /// The request to deploy machines.
    pub fn deploy_vm(&self, config: &Deployment) -> (r: DeployRequest)
        ensures
            r.url@ == self.deep_view().url(),
            r.authorization@ == self.deep_view().authorization(),
            json_of(r.body) == deploy_body(config.deep_view()),
            r.logs.deep_view() == deploy_logs(config.deep_view()),
    {
        let countries: Option<String> = match &config.datacenter {
            Some(datacenter) => if datacenter.countries.len() > 0 {
                Some(format_list(&datacenter.countries))
            } else {
                None
            },
            None => None,
        };
        let mut fields: serde_json::Map<String, Value> = new_fields();
        set_field(&mut fields, "constraints".to_string(), constraints_value(config));
        set_field(&mut fields, "instances".to_string(), number_value(config.instances as u64));
        set_field(
            &mut fields,
            "vmConfiguration".to_string(),
            configuration_value(&config.vm_config),
        );
        let body: Value = object_value(fields);
        let written: String = match pretty(&body) {
            Ok(written) => written,
            Err(_) => "".to_string(),
        };
        let logs: Vec<LogMessage> = request_messages(&countries, written.as_str());
        DeployRequest { url: self.vms_url(), authorization: self.authorization(), body, logs }
    }

    /// Reads the answer to the request to deploy machines. `parsed` is the answer read as a list
    /// of machines, or why it could not be read so; it counts only if the request was carried
    /// out.
    pub fn deploy_vm_reply(
        &self,
        config: &Deployment,
        status: u16,
        text: &str,
        parsed: Result<Vec<VmResponse>, String>,
    ) -> (r: (Vec<LogMessage>, Result<Vec<VmResponse>, String>))
        requires
            http_status(status),
        ensures
            r.0.deep_view() == reply_logs(config.deep_view(), status, text@),
            successful(status) ==> r.1 == parsed,
            !successful(status) ==> r.1 is Err && r.1->Err_0@ == refusal(
                parsed_json(text@),
                status_line(status),
                text@,
            ),
    {
        let line: String = status_text(status);
        let countries: String = format_list(&told_countries_list(config));
        let logs: Vec<LogMessage> = reply_messages(
            config,
            status,
            line.as_str(),
            countries.as_str(),
            text,
        );
        if is_success(status) {
            return (logs, parsed);
        }
        let answer: Result<Value, serde_json::Error> = parse(text);
        (logs, Err(refusal_text(&answer, line.as_str(), text)))
    }

    /// Reads the answer to the question for all machines. `parsed` is the answer read as a list
    /// of machines, or why it could not be read so; it counts only if the question was answered.
    pub fn get_vm_status(
        &self,
        vm_id: &str,
        status: u16,
        text: &str,
        parsed: Result<Vec<VmStatusResponse>, String>,
    ) -> (r: Result<VmStatusResponse, String>)
        requires
            http_status(status),
        ensures
            status_view(r) == status_reply(vm_id@, status, text@, statuses_view(parsed)),
    {
        if !is_success(status) {
            return Err(status_error_text(status_text(status).as_str(), text));
        }
        let mut vms: Vec<VmStatusResponse> = match parsed {
            Ok(vms) => vms,
            Err(e) => {
                return Err(e);
            },
        };
        match position_of(&vms, vm_id) {
            Some(i) => Ok(vms.remove(i)),
            None => Err("VM not found".to_string()),
        }
    }

    /// The body of the request to delete machines.
    pub fn delete_vms(&self, vm_ids: &Vec<String>) -> (body: Value)
        ensures
            json_of(body) == delete_body(vm_ids.deep_view()),
    {
        let mut fields: serde_json::Map<String, Value> = new_fields();
        set_field(&mut fields, "vmIds".to_string(), text_array_value(vm_ids));
        object_value(fields)
    }

    /// Reads the answer to the request to delete machines.
    pub fn delete_vms_reply(&self, status: u16, text: &str) -> (r: Result<(), String>)
        ensures
            r is Ok <==> successful(status),
            r matches Err(e) ==> e@ == "API Error: "@ + text@,
    {
        if is_success(status) {
            Ok(())
        } else {
            Err("API Error: ".to_string().concat(text))
        }
    }
}

impl Clone for FluenceClient {
    fn clone(&self) -> (r: Self)
        ensures
            r.deep_view() == self.deep_view(),
    {
        FluenceClient { api_key: self.api_key.clone(), base_url: self.base_url.clone() }
    }
}

proof fn lemma_place_stays(list: Seq<VmStatusView>, vm_id: Seq<char>, n: int)
    requires
        0 <= n <= list.len(),
        place_of(list.take(n), vm_id) is Some,
    ensures
        place_of(list, vm_id) == place_of(list.take(n), vm_id),
    decreases list.len(),
{
    if n == list.len() {
        assert(list.take(n) =~= list);
    } else {
        assert(list.drop_last().take(n) =~= list.take(n));
        lemma_place_stays(list.drop_last(), vm_id, n);
    }
}

/// Where a machine stands in a list is the first place with its id; it stands nowhere exactly if
/// no place has its id.
pub proof fn law_first_of_that_id(list: Seq<VmStatusView>, vm_id: Seq<char>)
    ensures
        match place_of(list, vm_id) {
            Some(i) => 0 <= i < list.len() && list[i].id == vm_id && forall|k: int|
                0 <= k < i ==> (#[trigger] list[k]).id != vm_id,
            None => forall|k: int| 0 <= k < list.len() ==> (#[trigger] list[k]).id != vm_id,
        },
    decreases list.len(),
{
    if list.len() > 0 {
        let front = list.drop_last();
        law_first_of_that_id(front, vm_id);
        assert(forall|k: int| 0 <= k < front.len() ==> front[k] == #[trigger] list[k]);
    }
}

/// A status that is found is the status of the machine that was asked for, and the API gave it.
pub proof fn law_status_is_of_the_machine(
    vm_id: Seq<char>,
    status: u16,
    text: Seq<char>,
    parsed: Result<Seq<VmStatusView>, Seq<char>>,
)
    ensures
        status_reply(vm_id, status, text, parsed) matches Ok(s) ==> s.id == vm_id && successful(
            status,
        ) && parsed is Ok && parsed->Ok_0.contains(s),
{
    if parsed is Ok {
        law_first_of_that_id(parsed->Ok_0, vm_id);
    }
}

/// A price limit is sent exactly if one is set, and countries are sent exactly if some are named.
pub proof fn law_limits_are_sent(d: DeploymentView)
    ensures
        constraint_fields(d).contains_key("maxTotalPricePerEpochUsd"@)
            <==> d.max_price_per_epoch_usd is Some,
        d.max_price_per_epoch_usd is Some
            ==> constraint_fields(d)["maxTotalPricePerEpochUsd"@] == Json::Text(
            d.max_price_per_epoch_usd->0.exact,
        ),
        constraint_fields(d).contains_key("datacenter"@) <==> d.datacenter is Some
            && d.datacenter->0.len() > 0,
        constraint_fields(d).contains_key("datacenter"@) ==> field(
            constraint_fields(d)["datacenter"@],
            "countries"@,
        ) == Some(text_array(d.datacenter->0)),
        constraint_fields(d)["basicConfiguration"@] == Json::Text(
            d.vm_config.basic_configuration,
        ),
{
    reveal_strlit("maxTotalPricePerEpochUsd");
    reveal_strlit("datacenter");
    reveal_strlit("basicConfiguration");
    assert("maxTotalPricePerEpochUsd"@.len() == 24);
    assert("datacenter"@.len() == 10);
    assert("basicConfiguration"@.len() == 18);
}

/// A request tells the number of machines, the limits and how the machines are set up; SSH keys
/// are sent exactly if there are any.
pub proof fn law_request_tells_the_deployment(d: DeploymentView)
    ensures
        field(deploy_body(d), "instances"@) == Some(Json::Integer(d.instances as int)),
        field(deploy_body(d), "constraints"@) == Some(Json::Object(constraint_fields(d))),
        field(deploy_body(d), "vmConfiguration"@) == Some(
            Json::Object(configuration_fields(d.vm_config)),
        ),
        configuration_fields(d.vm_config).contains_key("sshKeys"@)
            <==> d.vm_config.ssh_keys.len() > 0,
        d.vm_config.ssh_keys.len() > 0 ==> configuration_fields(d.vm_config)["sshKeys"@]
            == text_array(d.vm_config.ssh_keys),
{
    reveal_strlit("constraints");
    reveal_strlit("instances");
    reveal_strlit("vmConfiguration");
    assert("constraints"@.len() == 11);
    assert("instances"@.len() == 9);
    assert("vmConfiguration"@.len() == 15);
    reveal_strlit("sshKeys");
    reveal_strlit("name");
    reveal_strlit("osImage");
    reveal_strlit("hostname");
    reveal_strlit("openPorts");
    assert("sshKeys"@[0] == 's');
    assert("name"@.len() == 4);
    assert("osImage"@[0] == 'o');
    assert("hostname"@.len() == 8);
    assert("openPorts"@.len() == 9);
    assert("sshKeys"@.len() == 7);
}

} // verus!
