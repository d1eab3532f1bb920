//! What holds of a whole run.
use crate::client::{DeploymentView, VmConfigView};
use crate::clock::utc_written;
use crate::config::ConfigView;
use crate::deployment::{banner, LogEntry};
use crate::logging::stamp;
use crate::run::{
    configuration_entries, countries_written, deployment_entries, deployments_entries, injected,
    injection_entries, jobs, jobs_for_all, preview, results_of, settings_entries, Approach,
    CollectAction, CollectActionView, Job, JobView, ResultCollectorView,
};
use crate::text::{debug_list, decimal, ruler};
use vstd::prelude::*;

verus! {

/// Of the keys, the log shows no more than the first twenty characters of the first one.
pub proof fn law_little_of_a_key_is_shown(keys: Seq<Seq<char>>)
    ensures
        keys.len() == 0 ==> preview(keys) == "NONE!"@,
        keys.len() > 0 && keys[0].len() <= 20 ==> preview(keys) == keys[0] + "..."@,
        keys.len() > 0 && keys[0].len() > 20 ==> preview(keys) == keys[0].subrange(0, 20)
            + "..."@,
{
}

/// How a truth value is told.
pub open spec fn yes_or_no(b: bool) -> Seq<char> {
    if b {
        "true"@
    } else {
        "false"@
    }
}

/// The log tells the moment of the run, where the log is, and every setting under its name.
pub proof fn law_each_setting_is_told_by_name(c: ConfigView, log_file: Seq<char>, time: Seq<char>)
    ensures
        ({
            let lines = settings_entries(c, log_file, time);
            &&& lines.len() == 18
            &&& lines[0] == LogEntry::Info(ruler(120)) && lines[3] == LogEntry::Info(ruler(120))
            &&& lines[1] == LogEntry::Info("FLUENCE VM DEPLOYMENT RUN - "@ + time)
            &&& lines[2] == LogEntry::Info("LOG FILE: "@ + log_file)
            &&& lines[4] == LogEntry::Info("CONFIGURATION:"@)
            &&& lines[5] == LogEntry::Info("  API URL: "@ + c.api_base_url)
            &&& lines[6] == LogEntry::Info("  Config File: "@ + c.config_file_path)
            &&& lines[7] == LogEntry::Info(
                "  Console Output: "@ + yes_or_no(c.enable_console_output),
            )
            &&& lines[8] == LogEntry::Info(
                "  HTTP Timeout: "@ + decimal(c.http_timeout_seconds as nat) + "s"@,
            )
            &&& lines[9] == LogEntry::Info(
                "  Timeout: "@ + decimal(c.deployment_timeout_seconds as nat) + "s"@,
            )
            &&& lines[10] == LogEntry::Info(
                "  Poll Interval: "@ + decimal(c.poll_interval_seconds as nat) + "s"@,
            )
            &&& lines[11] == LogEntry::Info(
                "  Status Polling: "@ + yes_or_no(c.enable_status_polling),
            )
            &&& lines[12] == LogEntry::Info("  IP Retrieval: "@ + yes_or_no(c.enable_ip_retrieval))
            &&& lines[13] == LogEntry::Info("  Batch Delete: "@ + yes_or_no(c.batch_delete_enabled))
            &&& lines[14] == LogEntry::Info(
                "  Delete Delay: "@ + decimal(c.delete_delay_seconds as nat) + "s"@,
            )
            &&& lines[15] == LogEntry::Info(
                "  Bulk Approach: "@ + yes_or_no(c.enable_bulk_approach),
            )
            &&& lines[16] == LogEntry::Info(
                "  Decomposed Approach: "@ + yes_or_no(c.enable_decomposed_approach),
            )
            &&& lines[17] == LogEntry::Info(""@)
        }),
{
}

/// How many lines tell of something that may be missing: one if it is there, and else none.
pub open spec fn lines_of_option<A>(value: Option<A>) -> int {
    if value is Some {
        1
    } else {
        0
    }
}

/// The log tells a deployment under its number: its name, how many machines, what they are like,
/// every key, the host, every port, all storage, the countries and the price, each as it is
/// configured and as far as it is.
pub proof fn law_deployment_is_told_by_name(
    number: nat,
    d: DeploymentView,
    countries: Option<Seq<char>>,
    i: int,
)
    ensures
        ({
            let lines = deployment_entries(number, d, countries);
            let c = d.vm_config;
            let keys = c.ssh_keys;
            let ports = c.open_ports;
            let storage = c.additional_storage;
            let stored: int = if storage is Some {
                storage->0.len() as int
            } else {
                0
            };
            let host_at = 6 + keys.len();
            let ports_at = host_at + lines_of_option(c.hostname);
            let storage_at = ports_at + ports.len();
            let countries_at = storage_at + stored;
            let price_at = countries_at + lines_of_option(countries);
            &&& lines.len() == price_at + 2 * lines_of_option(d.max_price_per_epoch_usd) + 1
            &&& lines[0] == LogEntry::Info("  Deployment "@ + decimal(number) + ":"@)
            &&& lines[1] == LogEntry::Info("    Name: "@ + c.name)
            &&& lines[2] == LogEntry::Info("    Instances: "@ + decimal(d.instances as nat))
            &&& lines[3] == LogEntry::Info("    Config: "@ + c.basic_configuration)
            &&& lines[4] == LogEntry::Info("    OS Image: "@ + c.os_image)
            &&& lines[5] == LogEntry::Info("    SSH Keys: "@ + decimal(keys.len()) + " keys"@)
            &&& (0 <= i < keys.len() ==> lines[6 + i] == LogEntry::Info("      "@ + keys[i]))
            &&& (c.hostname is Some ==> lines[host_at as int] == LogEntry::Info(
                "    Hostname: "@ + c.hostname->0,
            ))
            &&& (0 <= i < ports.len() ==> lines[ports_at + i] == LogEntry::Info(
                "    Open Port: "@ + decimal(ports[i].port as nat) + "/"@ + ports[i].protocol,
            ))
            &&& (0 <= i < stored ==> lines[storage_at + i] == LogEntry::Info(
                "    Additional Storage: "@ + storage->0[i].storage_type + " "@ + decimal(
                    storage->0[i].supply as nat,
                ) + " "@ + storage->0[i].units,
            ))
            &&& (countries is Some ==> lines[countries_at] == LogEntry::Info(
                "    Countries: "@ + countries->0,
            ))
            &&& (d.max_price_per_epoch_usd is Some ==> lines[price_at] == LogEntry::Info(
                "    Max Price: $"@ + d.max_price_per_epoch_usd->0.rounded,
            ) && lines[price_at + 1] == LogEntry::Info(
                "    Max Price Sent: $"@ + d.max_price_per_epoch_usd->0.exact,
            ))
            &&& lines.last() == LogEntry::Info(""@)
        }),
{
}

/// Deployments are told one after the other, counted from one, with the countries that they
/// name.
pub proof fn law_deployments_are_told_in_order(list: Seq<DeploymentView>, d: DeploymentView)
    ensures
        deployments_entries(Seq::empty()).len() == 0,
        deployments_entries(list.push(d)) == deployments_entries(list) + deployment_entries(
            list.len() + 1,
            d,
            countries_written(d),
        ),
        d.datacenter is Some ==> countries_written(d) == Some(debug_list(d.datacenter->0)),
        d.datacenter is None ==> countries_written(d) is None,
{
    assert(list.push(d).drop_last() =~= list);
}

/// The log of a run begins with the settings, goes on with the deployments and then announces
/// that the run starts.
pub proof fn law_log_begins_with_the_configuration(
    c: ConfigView,
    log_file: Seq<char>,
    seconds: int,
)
    ensures
        ({
            let lines = configuration_entries(c, log_file, seconds);
            let told = deployments_entries(c.deployments);
            let time = utc_written(seconds, "%Y-%m-%d %H:%M:%S UTC"@);
            &&& lines.len() == 18 + told.len() + 3
            &&& lines.subrange(0, 18) == settings_entries(c, log_file, time)
            &&& lines.subrange(18, 18 + told.len() as int) == told
            &&& lines.skip(18 + told.len() as int) == banner("DEPLOYMENT STARTED"@)
            &&& stamp(seconds) == time
        }),
{
    let lines = configuration_entries(c, log_file, seconds);
    let told = deployments_entries(c.deployments);
    assert(lines.subrange(0, 18) =~= settings_entries(c, log_file, stamp(seconds)));
    assert(lines.subrange(18, 18 + told.len() as int) =~= told);
    assert(lines.skip(18 + told.len() as int) =~= banner("DEPLOYMENT STARTED"@));
}

/// Default keys go to the deployments without keys, all of them, and to no other; nothing else
/// changes.
pub proof fn law_default_keys_fill_in(c: ConfigView, keys: Seq<Seq<char>>, i: int)
    requires
        0 <= i < c.deployments.len(),
    ensures
        ({
            let after = injected(c, keys);
            let d = c.deployments[i];
            &&& after == (ConfigView { deployments: after.deployments, ..c })
            &&& after.deployments.len() == c.deployments.len()
            &&& (d.vm_config.ssh_keys.len() > 0 ==> after.deployments[i] == d)
            &&& (d.vm_config.ssh_keys.len() == 0 ==> after.deployments[i] == (DeploymentView {
                vm_config: VmConfigView { ssh_keys: keys, ..d.vm_config },
                ..d
            }))
        }),
{
}

/// The log tells of each deployment that gets default keys, by its name and in their order, and of
/// no other.
pub proof fn law_default_keys_are_told(list: Seq<DeploymentView>, d: DeploymentView)
    ensures
        injection_entries(Seq::empty()).len() == 0,
        d.vm_config.ssh_keys.len() == 0 ==> injection_entries(list.push(d)) == injection_entries(
            list,
        ).push(
            LogEntry::Info(
                "Using default SSH keys from .env for deployment '"@ + d.vm_config.name + "'"@,
            ),
        ),
        d.vm_config.ssh_keys.len() > 0 ==> injection_entries(list.push(d)) == injection_entries(
            list,
        ),
{
    assert(list.push(d).drop_last() =~= list);
}

proof fn lemma_jobs_of_both(
    bulk: bool,
    decomposed: bool,
    a: Seq<DeploymentView>,
    b: Seq<DeploymentView>,
)
    ensures
        jobs_for_all(bulk, decomposed, a + b) == jobs_for_all(bulk, decomposed, a) + jobs_for_all(
            bulk,
            decomposed,
            b,
        ),
    decreases b.len(),
{
    if b.len() == 0 {
        assert(a + b =~= a);
    } else {
        lemma_jobs_of_both(bulk, decomposed, a, b.drop_last());
        assert((a + b).drop_last() =~= a + b.drop_last());
        assert((a + b).last() == b.last());
    }
    assert(jobs_for_all(bulk, decomposed, a + b) =~= jobs_for_all(bulk, decomposed, a)
        + jobs_for_all(bulk, decomposed, b));
}

/// The jobs of a run are those of its deployments, one after the other.
pub proof fn law_jobs_of_all_deployments(
    c: ConfigView,
    a: Seq<DeploymentView>,
    b: Seq<DeploymentView>,
)
    ensures
        jobs(ConfigView { deployments: a + b, ..c }) == jobs(ConfigView { deployments: a, ..c })
            + jobs(ConfigView { deployments: b, ..c }),
        jobs(ConfigView { deployments: Seq::empty(), ..c }).len() == 0,
{
    lemma_jobs_of_both(c.enable_bulk_approach, c.enable_decomposed_approach, a, b);
}

/// A deployment is carried out once in each way that is enabled, the bulk one first.
pub proof fn law_jobs_of_a_deployment(c: ConfigView, d: DeploymentView)
    ensures
        ({
            let list = jobs(ConfigView { deployments: seq![d], ..c });
            let bulk = JobView { deployment: d, approach: Approach::Bulk };
            let decomposed = JobView { deployment: d, approach: Approach::Decomposed };
            &&& (c.enable_bulk_approach && c.enable_decomposed_approach ==> list == seq![
                bulk,
                decomposed,
            ])
            &&& (c.enable_bulk_approach && !c.enable_decomposed_approach ==> list == seq![bulk])
            &&& (!c.enable_bulk_approach && c.enable_decomposed_approach ==> list == seq![
                decomposed,
            ])
            &&& (!c.enable_bulk_approach && !c.enable_decomposed_approach ==> list.len() == 0)
        }),
{
    let one = seq![d];
    let list = jobs(ConfigView { deployments: one, ..c });
    assert(one.drop_last() =~= Seq::empty());
    assert(one.last() == d);
    assert(jobs_for_all(
        c.enable_bulk_approach,
        c.enable_decomposed_approach,
        one.drop_last(),
    ) =~= Seq::empty());
    let bulk = JobView { deployment: d, approach: Approach::Bulk };
    let decomposed = JobView { deployment: d, approach: Approach::Decomposed };
    if c.enable_bulk_approach && c.enable_decomposed_approach {
        assert(list =~= seq![bulk, decomposed]);
    } else if c.enable_bulk_approach {
        assert(list =~= seq![bulk]);
    } else if c.enable_decomposed_approach {
        assert(list =~= seq![decomposed]);
    }
}

/// A run waits for two results of each deployment if both approaches are enabled, and for one
/// otherwise.
pub proof fn law_how_many_results_are_awaited(c: ConfigView)
    ensures
        c.enable_bulk_approach && c.enable_decomposed_approach ==> results_of(c)
            == c.deployments.len() + c.deployments.len(),
        !c.enable_bulk_approach || !c.enable_decomposed_approach ==> results_of(c)
            == c.deployments.len(),
{
}

/// While results are missing a run waits for them, unless the signal to stop comes: then it stops
/// and says so. Once every result is there it goes on, whatever the signal.
pub proof fn law_waiting_ends(p: ResultCollectorView, stop: bool)
    ensures
        p.results.len() >= p.expected ==> p.next(stop) is Done,
        p.results.len() < p.expected && !stop ==> p.next(stop) is Wait,
        p.results.len() < p.expected && stop ==> p.next(stop) == CollectActionView::Stop(
            LogEntry::Error("🛑 SHUTDOWN SIGNAL RECEIVED - Stopping deployment..."@),
        ),
        p.wf() <==> p.results.len() <= p.expected,
{
}

/// A job, and what a run does next, are seen as they were made.
pub proof fn law_job_is_seen_whole(job: Job, action: CollectAction)
    ensures
        job.deep_view().deployment == job.deployment.deep_view(),
        job.deep_view().approach == job.approach,
        action is Wait <==> action.deep_view() is Wait,
        action is Done <==> action.deep_view() is Done,
        action is Stop <==> action.deep_view() is Stop,
        action is Stop ==> action.deep_view()->Stop_0 == (action->Stop_0).deep_view(),
{
}

} // verus!
