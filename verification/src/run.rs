//! A whole run: what it starts with, which deployments it launches and when it is over.
use crate::client::{
    Deployment, DeploymentView, PortConfig, PortConfigView, StorageResource, StorageResourceView,
    VmConfigView,
};
use crate::clock::on_calendar;
use crate::config::{valid_config, Config, ConfigView};
use crate::deployment::{
    add_banner, banner, no_logs, note, DeploymentResult, DeploymentResultView, LogEntry, LogMessage,
};
use crate::logging::{stamp, stamp_text};
use crate::text::{
    chars_of, copy_texts, debug_list, decimal, decimal_text, format_list, law_decimal_is_unique,
    ruler, ruler_text, text_of,
};
use vstd::prelude::*;

verus! {

/// The beginning of the first key, or a word that says that there is none.
pub open spec fn preview(keys: Seq<Seq<char>>) -> Seq<char> {
    if keys.len() == 0 {
        "NONE!"@
    } else if keys[0].len() <= 20 {
        keys[0] + "..."@
    } else {
        keys[0].take(20) + "..."@
    }
}

/// The beginning of the first key, or a word that says that there is none.
pub fn ssh_key_preview(keys: &Vec<String>) -> (r: String)
    ensures
        r@ == preview(keys.deep_view()),
{
    if keys.len() == 0 {
        return "NONE!".to_string();
    }
    let chars: Vec<char> = chars_of(keys[0].as_str());
    let n: usize = if chars.len() <= 20 {
        chars.len()
    } else {
        20
    };
    let r: String = text_of(&chars, 0, n).concat("...");
    assert(keys.deep_view()[0] == keys@[0]@);
    assert(chars@.subrange(0, n as int) =~= keys@[0]@.take(n as int));
    assert(keys@[0]@.take(keys@[0]@.len() as int) =~= keys@[0]@);
    r
}

/// A truth value as it is printed.
pub open spec fn bool_written(b: bool) -> Seq<char> {
    if b {
        "true"@
    } else {
        "false"@
    }
}

fn bool_text(b: bool) -> (r: &'static str)
    ensures
        r@ == bool_written(b),
{
    if b {
        "true"
    } else {
        "false"
    }
}

/// What is logged of the settings, given the date and time as they are written.
pub open spec fn settings_entries(c: ConfigView, log_file: Seq<char>, stamp: Seq<char>) -> Seq<
    LogEntry,
> {
    seq![
        LogEntry::Info(ruler(120)),
        LogEntry::Info("FLUENCE VM DEPLOYMENT RUN - "@ + stamp),
        LogEntry::Info("LOG FILE: "@ + log_file),
        LogEntry::Info(ruler(120)),
        LogEntry::Info("CONFIGURATION:"@),
        LogEntry::Info("  API URL: "@ + c.api_base_url),
        LogEntry::Info("  Config File: "@ + c.config_file_path),
        LogEntry::Info("  Console Output: "@ + bool_written(c.enable_console_output)),
        LogEntry::Info("  HTTP Timeout: "@ + decimal(c.http_timeout_seconds as nat) + "s"@),
        LogEntry::Info("  Timeout: "@ + decimal(c.deployment_timeout_seconds as nat) + "s"@),
        LogEntry::Info("  Poll Interval: "@ + decimal(c.poll_interval_seconds as nat) + "s"@),
        LogEntry::Info("  Status Polling: "@ + bool_written(c.enable_status_polling)),
        LogEntry::Info("  IP Retrieval: "@ + bool_written(c.enable_ip_retrieval)),
        LogEntry::Info("  Batch Delete: "@ + bool_written(c.batch_delete_enabled)),
        LogEntry::Info("  Delete Delay: "@ + decimal(c.delete_delay_seconds as nat) + "s"@),
        LogEntry::Info("  Bulk Approach: "@ + bool_written(c.enable_bulk_approach)),
        LogEntry::Info("  Decomposed Approach: "@ + bool_written(c.enable_decomposed_approach)),
        LogEntry::Info(""@),
    ]
}

/// What is logged of the storage that a deployment adds.
pub open spec fn storage_entries(list: Seq<StorageResourceView>) -> Seq<LogEntry> {
    list.map_values(
        |s: StorageResourceView|
            LogEntry::Info(
                "    Additional Storage: "@ + s.storage_type + " "@ + decimal(s.supply as nat)
                    + " "@ + s.units,
            ),
    )
}

/// What is logged of the open ports of a deployment.
pub open spec fn port_entries(list: Seq<PortConfigView>) -> Seq<LogEntry> {
    list.map_values(
        |p: PortConfigView|
            LogEntry::Info("    Open Port: "@ + decimal(p.port as nat) + "/"@ + p.protocol),
    )
}

/// What is logged of the keys of a deployment.
pub open spec fn key_entries(list: Seq<Seq<char>>) -> Seq<LogEntry> {
    list.map_values(|key: Seq<char>| LogEntry::Info("      "@ + key))
}

/// A line that stands only if there is something to tell.
pub open spec fn optional_entry(label: Seq<char>, value: Option<Seq<char>>) -> Seq<LogEntry> {
    match value {
        Some(text) => seq![LogEntry::Info(label + text)],
        None => Seq::empty(),
    }
}

/// What is logged of the deployment with that number, given its countries, if it names any, as
/// they are written.
pub open spec fn deployment_entries(
    number: nat,
    d: DeploymentView,
    countries: Option<Seq<char>>,
) -> Seq<LogEntry> {
    seq![
        LogEntry::Info("  Deployment "@ + decimal(number) + ":"@),
        LogEntry::Info("    Name: "@ + d.vm_config.name),
        LogEntry::Info("    Instances: "@ + decimal(d.instances as nat)),
        LogEntry::Info("    Config: "@ + d.vm_config.basic_configuration),
        LogEntry::Info("    OS Image: "@ + d.vm_config.os_image),
        LogEntry::Info("    SSH Keys: "@ + decimal(d.vm_config.ssh_keys.len()) + " keys"@),
    ] + key_entries(d.vm_config.ssh_keys) + optional_entry("    Hostname: "@, d.vm_config.hostname)
        + port_entries(d.vm_config.open_ports) + (match d.vm_config.additional_storage {
        Some(list) => storage_entries(list),
        None => Seq::empty(),
    }) + optional_entry("    Countries: "@, countries) + (match d.max_price_per_epoch_usd {
        Some(price) => seq![
            LogEntry::Info("    Max Price: $"@ + price.rounded),
            LogEntry::Info("    Max Price Sent: $"@ + price.exact),
        ],
        None => Seq::empty(),
    }) + seq![LogEntry::Info(""@)]
}

/// The countries of a deployment, if it names any, as they are written.
pub open spec fn countries_written(d: DeploymentView) -> Option<Seq<char>> {
    match d.datacenter {
        Some(list) => Some(debug_list(list)),
        None => None,
    }
}

/// What is logged of a list of deployments.
pub open spec fn deployments_entries(list: Seq<DeploymentView>) -> Seq<LogEntry>
    decreases list.len(),
{
    if list.len() == 0 {
        Seq::empty()
    } else {
        deployments_entries(list.drop_last()) + deployment_entries(
            list.len(),
            list.last(),
            countries_written(list.last()),
        )
    }
}

/// What is logged at the start of a run.
pub open spec fn configuration_entries(c: ConfigView, log_file: Seq<char>, seconds: int) -> Seq<
    LogEntry,
> {
    settings_entries(c, log_file, stamp(seconds)) + deployments_entries(c.deployments) + banner(
        "DEPLOYMENT STARTED"@,
    )
}

fn add_info(logs: &mut Vec<LogMessage>, label: &str, value: &str, unit: &str)
    ensures
        final(logs).deep_view() == old(logs).deep_view().push(
            LogEntry::Info(label@ + value@ + unit@),
        ),
{
    note(logs, LogMessage::Info(label.to_string().concat(value).concat(unit)));
}

fn add_line(logs: &mut Vec<LogMessage>, label: &str, value: &str)
    ensures
        final(logs).deep_view() == old(logs).deep_view().push(LogEntry::Info(label@ + value@)),
{
    note(logs, LogMessage::Info(label.to_string().concat(value)));
}

/// What is logged of the settings. `stamp` is the date and time as they are written.
pub fn log_settings(config: &Config, log_file: &str, stamp: &str) -> (logs: Vec<LogMessage>)
    ensures
        logs.deep_view() == settings_entries(config.deep_view(), log_file@, stamp@),
{
    let mut logs: Vec<LogMessage> = no_logs();
    note(&mut logs, LogMessage::Info(ruler_text(120)));
    add_line(&mut logs, "FLUENCE VM DEPLOYMENT RUN - ", stamp);
    add_line(&mut logs, "LOG FILE: ", log_file);
    note(&mut logs, LogMessage::Info(ruler_text(120)));
    note(&mut logs, LogMessage::Info("CONFIGURATION:".to_string()));
    add_line(&mut logs, "  API URL: ", config.api_base_url.as_str());
    add_line(&mut logs, "  Config File: ", config.config_file_path.as_str());
    add_line(&mut logs, "  Console Output: ", bool_text(config.enable_console_output));
    add_info(
        &mut logs,
        "  HTTP Timeout: ",
        decimal_text(config.http_timeout_seconds).as_str(),
        "s",
    );
    add_info(
        &mut logs,
        "  Timeout: ",
        decimal_text(config.deployment_timeout_seconds).as_str(),
        "s",
    );
    add_info(
        &mut logs,
        "  Poll Interval: ",
        decimal_text(config.poll_interval_seconds).as_str(),
        "s",
    );
    add_line(&mut logs, "  Status Polling: ", bool_text(config.enable_status_polling));
    add_line(&mut logs, "  IP Retrieval: ", bool_text(config.enable_ip_retrieval));
    add_line(&mut logs, "  Batch Delete: ", bool_text(config.batch_delete_enabled));
    add_info(
        &mut logs,
        "  Delete Delay: ",
        decimal_text(config.delete_delay_seconds).as_str(),
        "s",
    );
    add_line(&mut logs, "  Bulk Approach: ", bool_text(config.enable_bulk_approach));
    add_line(&mut logs, "  Decomposed Approach: ", bool_text(config.enable_decomposed_approach));
    note(&mut logs, LogMessage::Info("".to_string()));
    assert(logs.deep_view() =~= settings_entries(config.deep_view(), log_file@, stamp@));
    logs
}

/// Adds what is logged of the storage that a deployment adds.
fn log_storage(logs: &mut Vec<LogMessage>, list: &Vec<StorageResource>)
    ensures
        final(logs).deep_view() == old(logs).deep_view() + storage_entries(list.deep_view()),
{
    let ghost before = logs.deep_view();
    let ghost entries = storage_entries(list.deep_view());
    assert(before =~= before + entries.take(0));
    let mut i: usize = 0;
    while i < list.len()
        invariant
            i <= list.len(),
            entries == storage_entries(list.deep_view()),
            logs.deep_view() == before + entries.take(i as int),
        decreases list.len() - i,
    {
        assert(list.deep_view()[i as int] == list@[i as int].deep_view());
        note(
            logs,
            LogMessage::Info(
                "    Additional Storage: ".to_string().concat(
                    list[i].storage_type.as_str(),
                ).concat(" ").concat(decimal_text(list[i].supply as u64).as_str()).concat(
                    " ",
                ).concat(list[i].units.as_str()),
            ),
        );
        i += 1;
        assert(logs.deep_view() =~= before + entries.take(i as int));
    }
    assert(entries.take(i as int) =~= entries);
}

/// Adds what is logged of the open ports of a deployment.
fn log_ports(logs: &mut Vec<LogMessage>, list: &Vec<PortConfig>)
    ensures
        final(logs).deep_view() == old(logs).deep_view() + port_entries(list.deep_view()),
{
    let ghost before = logs.deep_view();
    let ghost entries = port_entries(list.deep_view());
    assert(before =~= before + entries.take(0));
    let mut i: usize = 0;
    while i < list.len()
        invariant
            i <= list.len(),
            entries == port_entries(list.deep_view()),
            logs.deep_view() == before + entries.take(i as int),
        decreases list.len() - i,
    {
        assert(list.deep_view()[i as int] == list@[i as int].deep_view());
        note(
            logs,
            LogMessage::Info(
                "    Open Port: ".to_string().concat(
                    decimal_text(list[i].port as u64).as_str(),
                ).concat("/").concat(list[i].protocol.as_str()),
            ),
        );
        i += 1;
        assert(logs.deep_view() =~= before + entries.take(i as int));
    }
    assert(entries.take(i as int) =~= entries);
}

/// Adds what is logged of the keys of a deployment.
fn log_keys(logs: &mut Vec<LogMessage>, list: &Vec<String>)
    ensures
        final(logs).deep_view() == old(logs).deep_view() + key_entries(list.deep_view()),
{
    let ghost before = logs.deep_view();
    let ghost entries = key_entries(list.deep_view());
    assert(before =~= before + entries.take(0));
    let mut i: usize = 0;
    while i < list.len()
        invariant
            i <= list.len(),
            entries == key_entries(list.deep_view()),
            logs.deep_view() == before + entries.take(i as int),
        decreases list.len() - i,
    {
        assert(list.deep_view()[i as int] == list@[i as int]@);
        add_line(logs, "      ", list[i].as_str());
        i += 1;
        assert(logs.deep_view() =~= before + entries.take(i as int));
    }
    assert(entries.take(i as int) =~= entries);
}

/// Adds a line if there is something to tell.
fn add_optional(logs: &mut Vec<LogMessage>, label: &str, value: &Option<String>)
    ensures
        final(logs).deep_view() == old(logs).deep_view() + optional_entry(
            label@,
            value.deep_view(),
        ),
{
    let ghost before = logs.deep_view();
    if let Some(text) = value {
        add_line(logs, label, text.as_str());
    }
    assert(logs.deep_view() =~= before + optional_entry(label@, value.deep_view()));
}

/// Adds what is logged of the deployment with that number. `countries` is the list of its
/// countries, if it names any, as it is written.
pub fn log_deployment(
    logs: &mut Vec<LogMessage>,
    number: u64,
    d: &Deployment,
    countries: &Option<String>,
)
    ensures
        final(logs).deep_view() == old(logs).deep_view() + deployment_entries(
            number as nat,
            d.deep_view(),
            countries.deep_view(),
        ),
{
    let ghost before = logs.deep_view();
    add_info(logs, "  Deployment ", decimal_text(number).as_str(), ":");
    add_line(logs, "    Name: ", d.vm_config.name.as_str());
    add_line(logs, "    Instances: ", decimal_text(d.instances as u64).as_str());
    add_line(logs, "    Config: ", d.vm_config.basic_configuration.as_str());
    add_line(logs, "    OS Image: ", d.vm_config.os_image.as_str());
    add_info(
        logs,
        "    SSH Keys: ",
        decimal_text(d.vm_config.ssh_keys.len() as u64).as_str(),
        " keys",
    );
    let ghost c = d.deep_view().vm_config;
    let ghost head = seq![
        LogEntry::Info("  Deployment "@ + decimal(number as nat) + ":"@),
        LogEntry::Info("    Name: "@ + c.name),
        LogEntry::Info("    Instances: "@ + decimal(d.instances as nat)),
        LogEntry::Info("    Config: "@ + c.basic_configuration),
        LogEntry::Info("    OS Image: "@ + c.os_image),
        LogEntry::Info("    SSH Keys: "@ + decimal(c.ssh_keys.len()) + " keys"@),
    ];
    assert(logs.deep_view() =~= before + head);
    log_keys(logs, &d.vm_config.ssh_keys);
    let ghost keyed = head + key_entries(c.ssh_keys);
    assert(logs.deep_view() =~= before + keyed);
    add_optional(logs, "    Hostname: ", &d.vm_config.hostname);
    let ghost hosted = keyed + optional_entry("    Hostname: "@, c.hostname);
    assert(logs.deep_view() =~= before + hosted);
    log_ports(logs, &d.vm_config.open_ports);
    let ghost opened = hosted + port_entries(c.open_ports);
    assert(logs.deep_view() =~= before + opened);
    if let Some(list) = &d.vm_config.additional_storage {
        log_storage(logs, list);
    }
    let ghost stored = opened + (match c.additional_storage {
        Some(list) => storage_entries(list),
        None => Seq::empty(),
    });
    assert(logs.deep_view() =~= before + stored);
    add_optional(logs, "    Countries: ", countries);
    let ghost placed = stored + optional_entry("    Countries: "@, countries.deep_view());
    assert(logs.deep_view() =~= before + placed);
    if let Some(price) = &d.max_price_per_epoch_usd {
        add_line(logs, "    Max Price: $", price.rounded.as_str());
        add_line(logs, "    Max Price Sent: $", price.exact.as_str());
    }
    let ghost priced = placed + (match d.deep_view().max_price_per_epoch_usd {
        Some(price) => seq![
            LogEntry::Info("    Max Price: $"@ + price.rounded),
            LogEntry::Info("    Max Price Sent: $"@ + price.exact),
        ],
        None => Seq::empty(),
    });
    assert(logs.deep_view() =~= before + priced);
    note(logs, LogMessage::Info("".to_string()));
    assert(logs.deep_view() =~= before + (priced + seq![LogEntry::Info(""@)]));
}

/// What is logged at the start of a run, at a moment in seconds since 1970.
pub fn log_configuration(config: &Config, log_file_with_run: &str, run_timestamp: i64) -> (logs:
    Vec<LogMessage>)
    requires
        on_calendar(run_timestamp as int),
    ensures
        logs.deep_view() == configuration_entries(
            config.deep_view(),
            log_file_with_run@,
            run_timestamp as int,
        ),
{
    let mut logs: Vec<LogMessage> = log_settings(
        config,
        log_file_with_run,
        stamp_text(run_timestamp).as_str(),
    );
    let ghost head = logs.deep_view();
    let ghost all = config.deployments.deep_view();
    assert(head =~= head + deployments_entries(all.take(0)));
    let mut i: usize = 0;
    while i < config.deployments.len()
        invariant
            i <= config.deployments.len(),
            all == config.deployments.deep_view(),
            logs.deep_view() == head + deployments_entries(all.take(i as int)),
        decreases config.deployments.len() - i,
    {
        let ghost next = all.take(i + 1);
        assert(next.drop_last() =~= all.take(i as int));
        assert(next.last() == config.deployments@[i as int].deep_view());
        i += 1;
        let countries: Option<String> = match &config.deployments[i - 1].datacenter {
            Some(datacenter) => Some(format_list(&datacenter.countries)),
            None => None,
        };
        log_deployment(&mut logs, i as u64, &config.deployments[i - 1], &countries);
        assert(logs.deep_view() =~= head + deployments_entries(next));
    }
    assert(all.take(i as int) =~= all);
    add_banner(&mut logs, "DEPLOYMENT STARTED");
    logs
}

/// A deployment with the default keys, if it has none of its own.
pub open spec fn with_keys(d: DeploymentView, keys: Seq<Seq<char>>) -> DeploymentView {
    if d.vm_config.ssh_keys.len() == 0 {
        DeploymentView { vm_config: VmConfigView { ssh_keys: keys, ..d.vm_config }, ..d }
    } else {
        d
    }
}

/// A configuration whose deployments have the default keys, if they have none of their own.
pub open spec fn injected(c: ConfigView, keys: Seq<Seq<char>>) -> ConfigView {
    ConfigView {
        deployments: c.deployments.map_values(|d: DeploymentView| with_keys(d, keys)),
        ..c
    }
}

/// What is logged of the deployments that get the default keys.
pub open spec fn injection_entries(list: Seq<DeploymentView>) -> Seq<LogEntry>
    decreases list.len(),
{
    if list.len() == 0 {
        Seq::empty()
    } else if list.last().vm_config.ssh_keys.len() == 0 {
        injection_entries(list.drop_last()).push(
            LogEntry::Info(
                "Using default SSH keys from .env for deployment '"@ + list.last().vm_config.name
                    + "'"@,
            ),
        )
    } else {
        injection_entries(list.drop_last())
    }
}

/// Gives the default keys to the deployments that have none of their own.
pub fn inject_ssh_keys(config: &mut Config, default_ssh_keys: &Vec<String>) -> (logs: Vec<
    LogMessage,
>)
    ensures
        final(config).deep_view() == injected(
            old(config).deep_view(),
            default_ssh_keys.deep_view(),
        ),
        logs.deep_view() == injection_entries(old(config).deep_view().deployments),
{
    let ghost before = config.deep_view();
    let ghost all = config.deployments.deep_view();
    let ghost keys = default_ssh_keys.deep_view();
    let mut logs: Vec<LogMessage> = no_logs();
    let mut i: usize = 0;
    while i < config.deployments.len()
        invariant
            i <= config.deployments.len(),
            config.deployments.len() == all.len(),
            keys == default_ssh_keys.deep_view(),
            config.deep_view() == (ConfigView {
                deployments: config.deployments.deep_view(),
                ..before
            }),
            forall|k: int|
                #![trigger config.deployments@[k]]
                #![trigger all[k]]
                0 <= k < all.len() ==> config.deployments@[k].deep_view() == if k < i {
                    with_keys(all[k], keys)
                } else {
                    all[k]
                },
            logs.deep_view() == injection_entries(all.take(i as int)),
        decreases config.deployments.len() - i,
    {
        let ghost next = all.take(i + 1);
        assert(next.drop_last() =~= all.take(i as int));
        assert(next.last() == config.deployments@[i as int].deep_view());
        if config.deployments[i].vm_config.ssh_keys.len() == 0 {
            config.deployments[i].vm_config.ssh_keys = copy_texts(default_ssh_keys);
            note(
                &mut logs,
                LogMessage::Info(
                    "Using default SSH keys from .env for deployment '".to_string().concat(
                        config.deployments[i].vm_config.name.as_str(),
                    ).concat("'"),
                ),
            );
        }
        i += 1;
    }
    assert(all.take(i as int) =~= all);
    assert(config.deployments.deep_view() =~= all.map_values(
        |d: DeploymentView| with_keys(d, keys),
    ));
    logs
}

/// The two ways to ask for the machines of a deployment.
#[derive(Debug, Clone, Copy, PartialEq, Eq, Structural)]
pub enum Approach {
    Bulk,
    Decomposed,
}

/// A deployment to carry out in one of the two ways.
#[derive(Debug)]
pub struct Job {
    pub deployment: Deployment,
    pub approach: Approach,
}

pub struct JobView {
    pub deployment: DeploymentView,
    pub approach: Approach,
}

impl DeepView for Job {
    type V = JobView;

    open spec fn deep_view(&self) -> JobView {
        JobView { deployment: self.deployment.deep_view(), approach: self.approach }
    }
}

/// The jobs for a deployment.
pub open spec fn jobs_for(bulk: bool, decomposed: bool, d: DeploymentView) -> Seq<JobView> {
    (if bulk {
        seq![JobView { deployment: d, approach: Approach::Bulk }]
    } else {
        Seq::empty()
    }) + (if decomposed {
        seq![JobView { deployment: d, approach: Approach::Decomposed }]
    } else {
        Seq::empty()
    })
}

/// The jobs for a list of deployments.
pub open spec fn jobs_for_all(bulk: bool, decomposed: bool, list: Seq<DeploymentView>) -> Seq<
    JobView,
>
    decreases list.len(),
{
    if list.len() == 0 {
        Seq::empty()
    } else {
        jobs_for_all(bulk, decomposed, list.drop_last()) + jobs_for(bulk, decomposed, list.last())
    }
}

/// The jobs of a run.
pub open spec fn jobs(c: ConfigView) -> Seq<JobView> {
    jobs_for_all(c.enable_bulk_approach, c.enable_decomposed_approach, c.deployments)
}

/// How many results a run waits for.
pub open spec fn results_of(c: ConfigView) -> nat {
    if c.enable_bulk_approach && c.enable_decomposed_approach {
        c.deployments.len() * 2
    } else {
        c.deployments.len()
    }
}

fn add_job(out: &mut Vec<Job>, deployment: &Deployment, approach: Approach)
    ensures
        final(out).deep_view() == old(out).deep_view().push(
            (JobView { deployment: deployment.deep_view(), approach }),
        ),
{
    let ghost before = out.deep_view();
    let job: Job = Job { deployment: deployment.clone(), approach };
    out.push(job);
    assert(out.deep_view() =~= before.push(job.deep_view()));
}

/// The jobs of a run. There are none after the signal to stop.
pub fn launch_plan(config: &Config, stop: bool) -> (r: Vec<Job>)
    ensures
        r.deep_view() == if stop {
            Seq::empty()
        } else {
            jobs(config.deep_view())
        },
{
    let bulk: bool = config.enable_bulk_approach;
    let decomposed: bool = config.enable_decomposed_approach;
    let ghost all = config.deployments.deep_view();
    let mut out: Vec<Job> = Vec::new();
    assert(out.deep_view() =~= jobs_for_all(bulk, decomposed, all.take(0)));
    if stop {
        return out;
    }
    let mut i: usize = 0;
    while i < config.deployments.len()
        invariant
            i <= config.deployments.len(),
            all == config.deployments.deep_view(),
            out.deep_view() == jobs_for_all(bulk, decomposed, all.take(i as int)),
        decreases config.deployments.len() - i,
    {
        let ghost next = all.take(i + 1);
        assert(next.drop_last() =~= all.take(i as int));
        assert(next.last() == config.deployments@[i as int].deep_view());
        if bulk {
            add_job(&mut out, &config.deployments[i], Approach::Bulk);
        }
        if decomposed {
            add_job(&mut out, &config.deployments[i], Approach::Decomposed);
        }
        i += 1;
        assert(out.deep_view() =~= jobs_for_all(bulk, decomposed, next));
    }
    assert(all.take(i as int) =~= all);
    out
}

/// The message before the jobs are launched.
pub fn running_message(config: &Config, approach_info: &str) -> (r: LogMessage)
    ensures
        r.deep_view() == LogEntry::Info(
            "Running: "@ + decimal(config.deep_view().deployments.len()) + " deployments with "@
                + approach_info@,
        ),
{
    LogMessage::Info(
        "Running: ".to_string().concat(
            decimal_text(config.deployments.len() as u64).as_str(),
        ).concat(" deployments with ").concat(approach_info),
    )
}

/// The results of a run, as they come in.
#[derive(Debug)]
pub struct ResultCollector {
    expected: usize,
    results: Vec<DeploymentResult>,
}

pub struct ResultCollectorView {
    pub expected: nat,
    pub results: Seq<DeploymentResultView>,
}

/// What a run that waits for results does next.
#[derive(Debug)]
pub enum CollectAction {
    /// Wait for the next result.
    Wait,
    /// Go on: every result is there.
    Done,
    /// Stop waiting: the signal to stop has come.
    Stop(LogMessage),
}

pub enum CollectActionView {
    Wait,
    Done,
    Stop(LogEntry),
}

impl DeepView for CollectAction {
    type V = CollectActionView;

    open spec fn deep_view(&self) -> CollectActionView {
        match self {
            CollectAction::Wait => CollectActionView::Wait,
            CollectAction::Done => CollectActionView::Done,
            CollectAction::Stop(m) => CollectActionView::Stop(m.deep_view()),
        }
    }
}

impl DeepView for ResultCollector {
    type V = ResultCollectorView;

    closed spec fn deep_view(&self) -> ResultCollectorView {
        ResultCollectorView {
            expected: self.expected as nat,
            results: self.results.deep_view(),
        }
    }
}

impl ResultCollectorView {
    /// No more results are there than are expected.
    pub open spec fn wf(self) -> bool {
        self.results.len() <= self.expected
    }

    /// What to do next. Once every result is there, the signal to stop changes nothing.
    pub open spec fn next(self, stop: bool) -> CollectActionView {
        if self.results.len() >= self.expected {
            CollectActionView::Done
        } else if stop {
            CollectActionView::Stop(
                LogEntry::Error("🛑 SHUTDOWN SIGNAL RECEIVED - Stopping deployment..."@),
            )
        } else {
            CollectActionView::Wait
        }
    }
}

impl ResultCollector {
    /// Waits for the results of a run.
    pub fn new(config: &Config) -> (r: Self)
        requires
            config.deployments.len() * 2 <= usize::MAX,
        ensures
            r.deep_view() == (ResultCollectorView {
                expected: results_of(config.deep_view()),
                results: Seq::empty(),
            }),
            r.deep_view().wf(),
    {
        let expected: usize = if config.enable_bulk_approach && config.enable_decomposed_approach {
            config.deployments.len() * 2
        } else {
            config.deployments.len()
        };
        let r: ResultCollector = ResultCollector { expected, results: Vec::new() };
        assert(r.results.deep_view() =~= Seq::empty());
        r
    }

    /// What to do next, given whether the signal to stop has come.
    pub fn next(&self, stop: bool) -> (r: CollectAction)
        ensures
            r.deep_view() == self.deep_view().next(stop),
    {
        if self.results.len() >= self.expected {
            CollectAction::Done
        } else if stop {
            CollectAction::Stop(
                LogMessage::Error(
                    "🛑 SHUTDOWN SIGNAL RECEIVED - Stopping deployment...".to_string(),
                ),
            )
        } else {
            CollectAction::Wait
        }
    }

    /// Takes a result that is still expected.
    pub fn take(&mut self, result: DeploymentResult)
        requires
            old(self).deep_view().results.len() < old(self).deep_view().expected,
        ensures
            final(self).deep_view() == (ResultCollectorView {
                results: old(self).deep_view().results.push(result.deep_view()),
                ..old(self).deep_view()
            }),
            final(self).deep_view().wf(),
    {
        let ghost before = self.results.deep_view();
        self.results.push(result);
        assert(self.results.deep_view() =~= before.push(result.deep_view()));
    }

    /// The results that came in, in their order; no more than are expected.
    pub fn collect_results(self) -> (r: Vec<DeploymentResult>)
        requires
            self.deep_view().wf(),
        ensures
            r.deep_view() == self.deep_view().results,
            r.len() <= self.deep_view().expected,
    {
        self.results
    }
}

/// The last words of a run. `stamp` is the date and time as they are written.
pub fn completion_messages(stamp: &str) -> (logs: Vec<LogMessage>)
    ensures
        logs.deep_view() == banner("FLUENCE VM DEPLOYMENT COMPLETED - "@ + stamp@),
{
    let mut logs: Vec<LogMessage> = no_logs();
    let title: String = "FLUENCE VM DEPLOYMENT COMPLETED - ".to_string().concat(stamp);
    add_banner(&mut logs, title.as_str());
    assert(logs.deep_view() =~= banner(title@));
    logs
}

/// The last words of a run that ends at a moment, in seconds since 1970.
pub fn log_completion(seconds: i64) -> (logs: Vec<LogMessage>)
    requires
        on_calendar(seconds as int),
    ensures
        logs.deep_view() == banner("FLUENCE VM DEPLOYMENT COMPLETED - "@ + stamp(seconds as int)),
{
    completion_messages(stamp_text(seconds).as_str())
}

/// With default keys, every deployment ends up with keys: its own where it has some, and else
/// the default ones. Nothing else changes.
pub proof fn law_every_deployment_has_keys(c: ConfigView, keys: Seq<Seq<char>>)
    requires
        keys.len() > 0,
    ensures
        injected(c, keys).deployments.len() == c.deployments.len(),
        forall|i: int|
            #![trigger injected(c, keys).deployments[i]]
            0 <= i < c.deployments.len() ==> {
                let before = c.deployments[i];
                let after = injected(c, keys).deployments[i];
                &&& after.vm_config.ssh_keys.len() > 0
                &&& before.vm_config.ssh_keys.len() > 0 ==> after == before
                &&& before.vm_config.ssh_keys.len() == 0 ==> after.vm_config.ssh_keys == keys
                &&& after == (DeploymentView {
                    vm_config: VmConfigView {
                        ssh_keys: after.vm_config.ssh_keys,
                        ..before.vm_config
                    },
                    ..before
                })
            },
        injected(c, keys) == (ConfigView { deployments: injected(c, keys).deployments, ..c }),
{
}

/// Giving out the default keys a second time changes nothing.
pub proof fn law_keys_are_given_once(c: ConfigView, keys: Seq<Seq<char>>, other: Seq<Seq<char>>)
    requires
        keys.len() > 0,
    ensures
        injected(injected(c, keys), other) == injected(c, keys),
        injection_entries(injected(c, keys).deployments).len() == 0,
{
    assert(injected(injected(c, keys), other).deployments =~= injected(c, keys).deployments);
    lemma_nothing_to_inject(injected(c, keys).deployments);
}

proof fn lemma_nothing_to_inject(list: Seq<DeploymentView>)
    requires
        forall|i: int| 0 <= i < list.len() ==> (#[trigger] list[i]).vm_config.ssh_keys.len() > 0,
    ensures
        injection_entries(list).len() == 0,
    decreases list.len(),
{
    if list.len() > 0 {
        let front = list.drop_last();
        assert(forall|i: int| 0 <= i < front.len() ==> (#[trigger] front[i]) == list[i]);
        lemma_nothing_to_inject(front);
    }
}

proof fn lemma_jobs_in_place(bulk: bool, decomposed: bool, list: Seq<DeploymentView>)
    ensures
        ({
            let all = jobs_for_all(bulk, decomposed, list);
            &&& bulk && decomposed ==> all.len() == list.len() * 2 && forall|i: int|
                #![trigger list[i]]
                0 <= i < list.len() ==> all[i * 2] == (JobView {
                    deployment: list[i],
                    approach: Approach::Bulk,
                }) && all[i * 2 + 1] == (JobView {
                    deployment: list[i],
                    approach: Approach::Decomposed,
                })
            &&& bulk != decomposed ==> all.len() == list.len() && forall|i: int|
                #![trigger list[i]]
                0 <= i < list.len() ==> all[i] == (JobView {
                    deployment: list[i],
                    approach: if bulk {
                        Approach::Bulk
                    } else {
                        Approach::Decomposed
                    },
                })
        }),
    decreases list.len(),
{
    if list.len() > 0 {
        let front = list.drop_last();
        let before = jobs_for_all(bulk, decomposed, front);
        let all = jobs_for_all(bulk, decomposed, list);
        lemma_jobs_in_place(bulk, decomposed, front);
        assert forall|i: int| #![trigger list[i]] 0 <= i < front.len() implies front[i]
            == list[i] by {}
        assert forall|k: int| 0 <= k < before.len() implies #[trigger] all[k] == before[k] by {}
    }
}

/// A run that may start carries out every deployment in every way that is enabled, bulk first,
/// and waits for exactly one result of each job.
pub proof fn law_one_result_for_each_job(c: ConfigView)
    requires
        valid_config(c),
    ensures
        jobs(c).len() == results_of(c),
        jobs(c).len() > 0,
        c.enable_bulk_approach && c.enable_decomposed_approach ==> forall|i: int|
            #![trigger c.deployments[i]]
            0 <= i < c.deployments.len() ==> jobs(c)[i * 2] == (JobView {
                deployment: c.deployments[i],
                approach: Approach::Bulk,
            }) && jobs(c)[i * 2 + 1] == (JobView {
                deployment: c.deployments[i],
                approach: Approach::Decomposed,
            }),
        c.enable_bulk_approach != c.enable_decomposed_approach ==> forall|i: int|
            #![trigger c.deployments[i]]
            0 <= i < c.deployments.len() ==> jobs(c)[i] == (JobView {
                deployment: c.deployments[i],
                approach: if c.enable_bulk_approach {
                    Approach::Bulk
                } else {
                    Approach::Decomposed
                },
            }),
{
    lemma_jobs_in_place(c.enable_bulk_approach, c.enable_decomposed_approach, c.deployments);
}

/// A run takes a result only while it waits for one; it goes on exactly if it has one result of
/// each job, or the signal to stop has come.
pub proof fn law_results_are_awaited(p: ResultCollectorView, stop: bool)
    requires
        p.wf(),
    ensures
        p.next(stop) is Wait <==> p.results.len() < p.expected && !stop,
        p.next(stop) is Stop <==> p.results.len() < p.expected && stop,
        p.next(stop) is Done <==> p.results.len() == p.expected,
{
}

proof fn lemma_same_value(label: Seq<char>, a: Seq<char>, b: Seq<char>, unit: Seq<char>)
    requires
        label + a + unit == label + b + unit,
    ensures
        a == b,
{
    let whole = label + a + unit;
    assert((label + b + unit).len() == whole.len());
    assert(a.len() == b.len());
    assert(whole.subrange(label.len() as int, (label.len() + a.len()) as int) =~= a);
    assert((label + b + unit).subrange(label.len() as int, (label.len() + b.len()) as int) =~= b);
}

proof fn lemma_same_line(label: Seq<char>, a: Seq<char>, b: Seq<char>)
    requires
        label + a == label + b,
    ensures
        a == b,
{
    assert((label + a).skip(label.len() as int) =~= a);
    assert((label + b).skip(label.len() as int) =~= b);
}

proof fn lemma_same_number(label: Seq<char>, a: nat, b: nat, unit: Seq<char>)
    requires
        label + decimal(a) + unit == label + decimal(b) + unit,
    ensures
        a == b,
{
    lemma_same_value(label, decimal(a), decimal(b), unit);
    if a != b {
        law_decimal_is_unique(a, b);
    }
}

proof fn lemma_same_bool(label: Seq<char>, a: bool, b: bool)
    requires
        label + bool_written(a) == label + bool_written(b),
    ensures
        a == b,
{
    lemma_same_line(label, bool_written(a), bool_written(b));
    reveal_strlit("true");
    reveal_strlit("false");
    assert("true"@.len() == 4);
    assert("false"@.len() == 5);
}

/// The log tells every setting: two runs that log the same have the same settings, but for what
/// they deploy.
pub proof fn law_log_tells_every_setting(
    a: ConfigView,
    b: ConfigView,
    log_file: Seq<char>,
    seconds: int,
)
    requires
        configuration_entries(a, log_file, seconds) == configuration_entries(b, log_file, seconds),
    ensures
        a == (ConfigView { deployments: a.deployments, ..b }),
{
    let sa = settings_entries(a, log_file, stamp(seconds));
    let sb = settings_entries(b, log_file, stamp(seconds));
    assert(sa.len() == 18 && sb.len() == 18);
    assert(configuration_entries(a, log_file, seconds).take(18) =~= sa);
    assert(configuration_entries(b, log_file, seconds).take(18) =~= sb);
    assert(forall|i: int| 0 <= i < 18 ==> #[trigger] sa[i] == sb[i]);
    assert(sa[5] == sb[5]);
    lemma_same_line("  API URL: "@, a.api_base_url, b.api_base_url);
    assert(sa[6] == sb[6]);
    lemma_same_line("  Config File: "@, a.config_file_path, b.config_file_path);
    assert(sa[7] == sb[7]);
    lemma_same_bool("  Console Output: "@, a.enable_console_output, b.enable_console_output);
    assert(sa[8] == sb[8]);
    lemma_same_number(
        "  HTTP Timeout: "@,
        a.http_timeout_seconds as nat,
        b.http_timeout_seconds as nat,
        "s"@,
    );
    assert(sa[9] == sb[9]);
    lemma_same_number(
        "  Timeout: "@,
        a.deployment_timeout_seconds as nat,
        b.deployment_timeout_seconds as nat,
        "s"@,
    );
    assert(sa[10] == sb[10]);
    lemma_same_number(
        "  Poll Interval: "@,
        a.poll_interval_seconds as nat,
        b.poll_interval_seconds as nat,
        "s"@,
    );
    assert(sa[11] == sb[11]);
    lemma_same_bool("  Status Polling: "@, a.enable_status_polling, b.enable_status_polling);
    assert(sa[12] == sb[12]);
    lemma_same_bool("  IP Retrieval: "@, a.enable_ip_retrieval, b.enable_ip_retrieval);
    assert(sa[13] == sb[13]);
    lemma_same_bool("  Batch Delete: "@, a.batch_delete_enabled, b.batch_delete_enabled);
    assert(sa[14] == sb[14]);
    lemma_same_number(
        "  Delete Delay: "@,
        a.delete_delay_seconds as nat,
        b.delete_delay_seconds as nat,
        "s"@,
    );
    assert(sa[15] == sb[15]);
    lemma_same_bool("  Bulk Approach: "@, a.enable_bulk_approach, b.enable_bulk_approach);
    assert(sa[16] == sb[16]);
    lemma_same_bool(
        "  Decomposed Approach: "@,
        a.enable_decomposed_approach,
        b.enable_decomposed_approach,
    );
}

} // verus!
