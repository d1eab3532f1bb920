//! What holds of the requests to the API and of its answers.
use crate::client::{
    delete_body, deploy_body, deploy_logs, failed_constraints, http_status, law_first_of_that_id,
    name_in, place_of, reason_phrase, refusal, reply_entries, reply_logs, request_entries,
    responses_view, status_error, status_line, status_reply, status_view, statuses_view,
    successful, Deployment, DeploymentView, FluenceClientView, VmResponse, VmStatusResponse,
    VmStatusView,
};
use crate::deployment::LogEntry;
use crate::json::{field, json_of, json_text, pretty_json, Json};
use crate::text::{debug_list, decimal};
use vstd::prelude::*;

verus! {

/// A value is an object with exactly the one field.
pub open spec fn holds_only(v: Json, key: Seq<char>, value: Json) -> bool {
    v matches Json::Object(m) && m.contains_key(key) && m[key] == value && forall|k: Seq<char>|
        #[trigger] m.contains_key(k) ==> k == key
}

/// A value is the list of some texts, one after the other.
pub open spec fn lists(v: Json, texts: Seq<Seq<char>>) -> bool {
    v matches Json::Array(items) && items.len() == texts.len() && forall|i: int|
        0 <= i < texts.len() ==> #[trigger] items[i] == Json::Text(texts[i])
}

/// Two keys differ where their lengths do, or their first letters.
proof fn lemma_keys_differ()
    ensures
        "constraints"@ != "instances"@ && "constraints"@ != "vmConfiguration"@ && "instances"@
            != "vmConfiguration"@,
        "basicConfiguration"@ != "maxTotalPricePerEpochUsd"@ && "basicConfiguration"@
            != "datacenter"@ && "maxTotalPricePerEpochUsd"@ != "datacenter"@,
        "name"@ != "osImage"@ && "name"@ != "hostname"@ && "name"@ != "openPorts"@ && "name"@
            != "sshKeys"@,
        "osImage"@ != "hostname"@ && "osImage"@ != "openPorts"@ && "osImage"@ != "sshKeys"@,
        "hostname"@ != "openPorts"@ && "hostname"@ != "sshKeys"@ && "openPorts"@ != "sshKeys"@,
        "port"@ != "protocol"@,
{
    reveal_strlit("constraints");
    reveal_strlit("instances");
    reveal_strlit("vmConfiguration");
    reveal_strlit("basicConfiguration");
    reveal_strlit("maxTotalPricePerEpochUsd");
    reveal_strlit("datacenter");
    reveal_strlit("name");
    reveal_strlit("osImage");
    reveal_strlit("hostname");
    reveal_strlit("openPorts");
    reveal_strlit("sshKeys");
    reveal_strlit("port");
    reveal_strlit("protocol");
    assert("constraints"@.len() == 11 && "instances"@.len() == 9 && "vmConfiguration"@.len() == 15);
    assert("basicConfiguration"@.len() == 18 && "maxTotalPricePerEpochUsd"@.len() == 24
        && "datacenter"@.len() == 10);
    assert("name"@.len() == 4 && "hostname"@.len() == 8 && "openPorts"@.len() == 9);
    assert("osImage"@.len() == 7 && "sshKeys"@.len() == 7 && "osImage"@[0] == 'o' && "sshKeys"@[0]
        == 's');
    assert("port"@.len() == 4 && "protocol"@.len() == 8);
}

/// A request has three parts: the limits, the number of machines and how they are set up.
pub proof fn law_request_has_three_parts(d: DeploymentView)
    ensures
        deploy_body(d) is Object,
        forall|key: Seq<char>|
            field(deploy_body(d), key) is Some <==> key == "constraints"@ || key == "instances"@
                || key == "vmConfiguration"@,
        field(deploy_body(d), "instances"@) == Some(Json::Integer(d.instances as int)),
        field(deploy_body(d), "constraints"@)->0 is Object,
        field(deploy_body(d), "vmConfiguration"@)->0 is Object,
{
    lemma_keys_differ();
}

/// The machines of a request are named and set up as is configured: the name, the image, and the
/// name of the host if there is one.
pub proof fn law_request_names_the_machine(d: DeploymentView)
    ensures
        ({
            let setup = field(deploy_body(d), "vmConfiguration"@)->0;
            &&& field(setup, "name"@) == Some(Json::Text(d.vm_config.name))
            &&& field(setup, "osImage"@) == Some(Json::Text(d.vm_config.os_image))
            &&& (d.vm_config.hostname is None ==> field(setup, "hostname"@) is None)
            &&& (d.vm_config.hostname is Some ==> field(setup, "hostname"@) == Some(
                Json::Text(d.vm_config.hostname->0),
            ))
            &&& forall|key: Seq<char>|
                field(setup, key) is Some ==> key == "name"@ || key == "osImage"@ || key
                    == "hostname"@ || key == "openPorts"@ || key == "sshKeys"@
        }),
{
    lemma_keys_differ();
}

/// Every port that is to be open is sent, with its number and its protocol, in the order of the
/// ports; nothing is sent of ports if none is to be open.
pub proof fn law_request_opens_every_port(d: DeploymentView)
    ensures
        ({
            let setup = field(deploy_body(d), "vmConfiguration"@)->0;
            let ports = d.vm_config.open_ports;
            let sent = field(setup, "openPorts"@);
            &&& (ports.len() == 0 ==> sent is None)
            &&& (ports.len() > 0 ==> sent is Some && sent->0 is Array && sent->0->Array_0.len()
                == ports.len())
            &&& (ports.len() > 0 ==> forall|i: int|
                0 <= i < ports.len() ==> {
                    let item = #[trigger] sent->0->Array_0[i];
                    &&& field(item, "port"@) == Some(Json::Integer(ports[i].port as int))
                    &&& field(item, "protocol"@) == Some(Json::Text(ports[i].protocol))
                    &&& forall|key: Seq<char>|
                        field(item, key) is Some ==> key == "port"@ || key == "protocol"@
                })
        }),
{
    lemma_keys_differ();
}

/// Every key to log in with is sent, in the order of the keys; nothing is sent of keys if there
/// are none.
pub proof fn law_request_sends_every_key(d: DeploymentView)
    ensures
        ({
            let setup = field(deploy_body(d), "vmConfiguration"@)->0;
            let sent = field(setup, "sshKeys"@);
            &&& (d.vm_config.ssh_keys.len() == 0 ==> sent is None)
            &&& (d.vm_config.ssh_keys.len() > 0 ==> sent is Some && lists(
                sent->0,
                d.vm_config.ssh_keys,
            ))
        }),
{
    lemma_keys_differ();
}

/// The limits of a request are those of the deployment: the size of the machines, the price to
/// the last digit if there is a limit, and every country if some are named.
pub proof fn law_request_sends_every_limit(d: DeploymentView)
    ensures
        ({
            let limits = field(deploy_body(d), "constraints"@)->0;
            let price = field(limits, "maxTotalPricePerEpochUsd"@);
            let place = field(limits, "datacenter"@);
            &&& field(limits, "basicConfiguration"@) == Some(
                Json::Text(d.vm_config.basic_configuration),
            )
            &&& (d.max_price_per_epoch_usd is None ==> price is None)
            &&& (d.max_price_per_epoch_usd is Some ==> price == Some(
                Json::Text(d.max_price_per_epoch_usd->0.exact),
            ))
            &&& (d.datacenter is None || d.datacenter->0.len() == 0 ==> place is None)
            &&& (d.datacenter is Some && d.datacenter->0.len() > 0 ==> {
                &&& place is Some
                &&& field(place->0, "countries"@) is Some
                &&& lists(field(place->0, "countries"@)->0, d.datacenter->0)
                &&& holds_only(place->0, "countries"@, field(place->0, "countries"@)->0)
            })
            &&& forall|key: Seq<char>|
                field(limits, key) is Some ==> key == "basicConfiguration"@ || key
                    == "maxTotalPricePerEpochUsd"@ || key == "datacenter"@
        }),
{
    lemma_keys_differ();
}

/// The request to delete machines names each of them, and nothing else.
pub proof fn law_deletion_names_every_machine(vm_ids: Seq<Seq<char>>)
    ensures
        field(delete_body(vm_ids), "vmIds"@) is Some,
        lists(field(delete_body(vm_ids), "vmIds"@)->0, vm_ids),
        holds_only(delete_body(vm_ids), "vmIds"@, field(delete_body(vm_ids), "vmIds"@)->0),
{
}

/// The API is found under its address, and opened with the key.
pub proof fn law_how_the_api_is_reached(client: FluenceClientView)
    ensures
        client.url() == client.base_url + "/vms/v3"@,
        client.authorization() == "Bearer "@ + client.api_key,
{
}

/// A request was carried out exactly if the status is one of the two hundreds; a status is
/// written with its number and its reason. A status has three digits.
pub proof fn law_what_a_status_means(status: u16)
    ensures
        http_status(status) <==> 99 < status < 1000,
        successful(status) <==> status as int / 100 == 2,
        status_line(status) == decimal(status as nat) + " "@ + reason_phrase(status),
{
}

/// A field is found in an object that has it, and nowhere else.
pub proof fn law_field_is_looked_up(v: Json, key: Seq<char>)
    ensures
        v is Object && (v->Object_0).contains_key(key) ==> field(v, key) == Some(
            (v->Object_0)[key],
        ),
        !(v is Object && (v->Object_0).contains_key(key)) ==> field(v, key) is None,
        v is Text ==> json_text(v) == Some(v->Text_0),
        !(v is Text) ==> json_text(v) is None,
{
}

/// A datacenter, a provider or a location is named by a text, or by the text in the field `name`
/// of an object; anything else names nothing.
pub proof fn law_what_names_a_place(m: Map<Seq<char>, Json>, v: Json, s: Seq<char>)
    ensures
        name_in(None) is None,
        name_in(Some(Json::Text(s))) == Some(s),
        m.contains_key("name"@) && m["name"@] == Json::Text(s) ==> name_in(Some(Json::Object(m)))
            == Some(s),
        !(v is Text) && !(v is Object) ==> name_in(Some(v)) is None,
        !m.contains_key("name"@) || !(m["name"@] is Text) ==> name_in(Some(Json::Object(m)))
            is None,
{
}

/// Before machines are requested the log tells the countries, if there is a limit, and then the
/// whole request.
pub proof fn law_request_is_told(d: DeploymentView)
    ensures
        ({
            let logs = deploy_logs(d);
            &&& logs.last() == LogEntry::Info("DEBUG REQUEST JSON:\n"@ + pretty_json(
                deploy_body(d),
            ))
            &&& (d.datacenter is Some && d.datacenter->0.len() > 0 ==> logs.len() == 2 && logs[0]
                == LogEntry::Info(
                "DEBUG: Adding datacenter constraints: "@ + debug_list(d.datacenter->0),
            ))
            &&& (d.datacenter is None || d.datacenter->0.len() == 0 ==> logs.len() == 1)
        }),
{
}

/// What is told of a request is what is given.
pub proof fn law_request_is_told_as_written(countries: Seq<char>, body: Seq<char>)
    ensures
        request_entries(Some(countries), body) == seq![
            LogEntry::Info("DEBUG: Adding datacenter constraints: "@ + countries),
            LogEntry::Info("DEBUG REQUEST JSON:\n"@ + body),
        ],
        request_entries(None, body) == seq![LogEntry::Info("DEBUG REQUEST JSON:\n"@ + body)],
{
}

/// The answer to a request is told with its status; if the request was not carried out, the log
/// goes on to tell what was asked for.
pub proof fn law_answer_is_told(d: DeploymentView, status: u16, text: Seq<char>)
    ensures
        ({
            let logs = reply_logs(d, status, text);
            let price = if d.max_price_per_epoch_usd is Some {
                d.max_price_per_epoch_usd->0.exact
            } else {
                "0"@
            };
            let countries = if d.datacenter is Some {
                d.datacenter->0
            } else {
                seq!["ANY"@]
            };
            &&& logs[0] == LogEntry::Info(
                "DEBUG RESPONSE: "@ + (decimal(status as nat) + " "@ + reason_phrase(status))
                    + " - "@ + text,
            )
            &&& (200 <= status < 300 ==> logs.len() == 1)
            &&& (!(200 <= status < 300) ==> logs.len() == 2 && logs[1] == LogEntry::Error(
                "FAILED CONSTRAINTS: instances="@ + decimal(d.instances as nat) + ", config="@
                    + d.vm_config.basic_configuration + ", price=$"@ + price + ", countries="@
                    + debug_list(countries),
            ))
        }),
{
}

/// What is told of an answer is what is given.
pub proof fn law_answer_is_told_as_written(
    d: DeploymentView,
    status: u16,
    line: Seq<char>,
    countries: Seq<char>,
    text: Seq<char>,
)
    ensures
        ({
            let logs = reply_entries(d, status, line, countries, text);
            &&& logs[0] == LogEntry::Info("DEBUG RESPONSE: "@ + line + " - "@ + text)
            &&& (200 <= status < 300 ==> logs.len() == 1)
            &&& (!(200 <= status < 300) ==> logs.len() == 2 && logs[1] == LogEntry::Error(
                failed_constraints(d, countries),
            ))
            &&& (d.max_price_per_epoch_usd is Some ==> failed_constraints(d, countries)
                == "FAILED CONSTRAINTS: instances="@ + decimal(d.instances as nat) + ", config="@
                + d.vm_config.basic_configuration + ", price=$"@
                + d.max_price_per_epoch_usd->0.exact + ", countries="@ + countries)
            &&& (d.max_price_per_epoch_usd is None ==> failed_constraints(d, countries)
                == "FAILED CONSTRAINTS: instances="@ + decimal(d.instances as nat) + ", config="@
                + d.vm_config.basic_configuration + ", price=$"@ + "0"@ + ", countries="@
                + countries)
        }),
{
}

/// The reason for a refusal is the one that the API gives. Where it gives none, the whole answer
/// is the reason, behind the status if the answer is no JSON.
pub proof fn law_reason_is_the_one_given(
    m: Map<Seq<char>, Json>,
    v: Json,
    reason: Seq<char>,
    line: Seq<char>,
    text: Seq<char>,
)
    ensures
        m.contains_key("error"@) && m["error"@] == Json::Text(reason) ==> refusal(
            Some(Json::Object(m)),
            line,
            text,
        ) == reason,
        !m.contains_key("error"@) || !(m["error"@] is Text) ==> refusal(
            Some(Json::Object(m)),
            line,
            text,
        ) == text,
        !(v is Object) ==> refusal(Some(v), line, text) == text,
        refusal(None, line, text) == "HTTP "@ + line + " - "@ + text,
{
}

/// Asking for a machine gives the first machine of its id that the API lists, exactly as the API
/// lists it. It fails if the question was not answered, if the answer cannot be read, and if the
/// machine is not listed, and says which.
pub proof fn law_machine_is_looked_up(
    vm_id: Seq<char>,
    status: u16,
    text: Seq<char>,
    parsed: Result<Seq<VmStatusView>, Seq<char>>,
    i: int,
)
    ensures
        ({
            let reply = status_reply(vm_id, status, text, parsed);
            let list = parsed->Ok_0;
            &&& (!(200 <= status < 300) ==> reply is Err && reply->Err_0 == "API Error: "@ + (
            decimal(status as nat) + " "@ + reason_phrase(status)) + " - "@ + text)
            &&& (200 <= status < 300 && parsed is Err ==> reply is Err && reply->Err_0
                == parsed->Err_0)
            &&& (200 <= status < 300 && parsed is Ok && 0 <= i < list.len() && list[i].id == vm_id
                && (forall|k: int| 0 <= k < i ==> (#[trigger] list[k]).id != vm_id) ==> reply is Ok
                && reply->Ok_0 == list[i])
            &&& (200 <= status < 300 && parsed is Ok && (forall|k: int|
                0 <= k < list.len() ==> (#[trigger] list[k]).id != vm_id) ==> reply is Err
                && reply->Err_0 == "VM not found"@)
        }),
{
    if parsed is Ok {
        let list = parsed->Ok_0;
        law_first_of_that_id(list, vm_id);
        if 0 <= i < list.len() && list[i].id == vm_id && (forall|k: int|
            0 <= k < i ==> (#[trigger] list[k]).id != vm_id) {
            let j = place_of(list, vm_id)->0;
            assert(list[j].id == vm_id);
            assert(i == j);
        }
    }
}

/// A question that was not answered is told with its status.
pub proof fn law_unanswered_question_is_told(line: Seq<char>, text: Seq<char>)
    ensures
        status_error(line, text) == "API Error: "@ + line + " - "@ + text,
{
}

/// A deployment is seen as it was read.
pub proof fn law_deployment_is_seen_whole(d: Deployment)
    ensures
        ({
            let seen = d.deep_view();
            let c = d.vm_config;
            &&& seen.instances == d.instances
            &&& seen.vm_config.name == c.name@
            &&& seen.vm_config.basic_configuration == c.basic_configuration@
            &&& seen.vm_config.os_image == c.os_image@
            &&& (seen.vm_config.hostname is Some <==> c.hostname is Some)
            &&& (c.hostname is Some ==> seen.vm_config.hostname->0 == c.hostname->0@)
            &&& seen.vm_config.ssh_keys.len() == c.ssh_keys@.len()
            &&& (forall|i: int|
                0 <= i < c.ssh_keys@.len() ==> #[trigger] seen.vm_config.ssh_keys[i]
                    == c.ssh_keys@[i]@)
            &&& seen.vm_config.open_ports.len() == c.open_ports@.len()
            &&& (forall|i: int|
                0 <= i < c.open_ports@.len() ==> (#[trigger] seen.vm_config.open_ports[i]).port
                    == c.open_ports@[i].port && seen.vm_config.open_ports[i].protocol
                    == c.open_ports@[i].protocol@)
            &&& (seen.vm_config.additional_storage is Some <==> c.additional_storage is Some)
            &&& (c.additional_storage is Some ==> {
                let list = c.additional_storage->0@;
                let told = seen.vm_config.additional_storage->0;
                &&& told.len() == list.len()
                &&& forall|i: int|
                    0 <= i < list.len() ==> (#[trigger] told[i]).storage_type
                        == list[i].storage_type@ && told[i].supply == list[i].supply
                        && told[i].units == list[i].units@
            })
            &&& (seen.datacenter is Some <==> d.datacenter is Some)
            &&& (d.datacenter is Some ==> seen.datacenter->0.len() == d.datacenter->0.countries@.len()
                && forall|i: int|
                0 <= i < seen.datacenter->0.len() ==> #[trigger] seen.datacenter->0[i]
                    == d.datacenter->0.countries@[i]@)
            &&& (seen.max_price_per_epoch_usd is Some <==> d.max_price_per_epoch_usd is Some)
            &&& (d.max_price_per_epoch_usd is Some ==> seen.max_price_per_epoch_usd->0.exact
                == d.max_price_per_epoch_usd->0.exact@ && seen.max_price_per_epoch_usd->0.rounded
                == d.max_price_per_epoch_usd->0.rounded@)
        }),
{
}

/// What the API says of a machine is seen as it says it.
pub proof fn law_status_is_seen_whole(vm: VmResponse, s: VmStatusResponse)
    ensures
        vm.deep_view().vm_id == vm.vm_id@,
        vm.deep_view().vm_name == vm.vm_name@,
        s.deep_view().id == s.id@,
        s.deep_view().vm_name == s.vm_name@,
        s.deep_view().status == s.status@,
        s.deep_view().public_ip is Some <==> s.public_ip is Some,
        s.public_ip is Some ==> s.deep_view().public_ip->0 == s.public_ip->0@,
        s.deep_view().datacenter is Some <==> s.datacenter is Some,
        s.datacenter is Some ==> s.deep_view().datacenter->0 == json_of(s.datacenter->0),
        s.deep_view().provider is Some <==> s.provider is Some,
        s.provider is Some ==> s.deep_view().provider->0 == json_of(s.provider->0),
        s.deep_view().provider_location is Some <==> s.provider_location is Some,
        s.provider_location is Some ==> s.deep_view().provider_location->0 == json_of(
            s.provider_location->0,
        ),
{
}

/// An answer is seen as it was read.
pub proof fn law_answers_are_seen_whole(
    one: Result<VmStatusResponse, String>,
    all: Result<Vec<VmStatusResponse>, String>,
    started: Result<Vec<VmResponse>, String>,
)
    ensures
        status_view(one) is Ok <==> one is Ok,
        one is Ok ==> status_view(one)->Ok_0 == (one->Ok_0).deep_view(),
        one is Err ==> status_view(one)->Err_0 == (one->Err_0)@,
        statuses_view(all) is Ok <==> all is Ok,
        all is Ok ==> statuses_view(all)->Ok_0 == (all->Ok_0).deep_view(),
        all is Err ==> statuses_view(all)->Err_0 == (all->Err_0)@,
        responses_view(started) is Ok <==> started is Ok,
        started is Ok ==> responses_view(started)->Ok_0 == (started->Ok_0).deep_view(),
        started is Err ==> responses_view(started)->Err_0 == (started->Err_0)@,
{
}

} // verus!
