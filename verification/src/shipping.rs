//! Shipping of logs to a remote collector: what the startup settings amount to.

use vstd::prelude::*;

verus! {

/// What is needed to ship logs: where to, under which authorization, and the
/// labels that tell this instance from the others.
#[derive(Debug)]
pub struct ShippingSettings {
    pub endpoint: String,
    pub authorization: String,
    pub instance: String,
    pub region: String,
}

/// The authorization under which logs are shipped by the account `id` with
/// the key `api_key`.
pub open spec fn bearer(id: Seq<char>, api_key: Seq<char>) -> Seq<char> {
    "Bearer "@ + id + seq![':'] + api_key
}

/// The label of something whose name may not be known.
pub open spec fn label_or_unknown(name: Option<String>) -> Seq<char> {
    match name {
        Some(name) => name@,
        None => "unknown"@,
    }
}

/// `settings` are the settings that the given endpoint, account, key, machine
/// and region amount to.
pub open spec fn settings_of(
    settings: ShippingSettings,
    endpoint: Seq<char>,
    id: Seq<char>,
    api_key: Seq<char>,
    machine: Option<String>,
    region: Option<String>,
) -> bool {
    &&& settings.endpoint@ == endpoint
    &&& settings.authorization@ == bearer(id, api_key)
    &&& settings.instance@ == label_or_unknown(machine)
    &&& settings.region@ == label_or_unknown(region)
}

/// What is said at startup about the shipping of logs.
pub open spec fn notice_of(shipping: bool) -> Seq<char> {
    if shipping {
        "Initializing Grafana Cloud logging"@
    } else {
        "Grafana Cloud logging not configured"@
    }
}

fn or_unknown(name: Option<String>) -> (label: String)
    ensures
        label@ == label_or_unknown(name),
{
    match name {
        Some(name) => name,
        None => String::from_str("unknown"),
    }
}

/// Works out the shipping settings. Logs are shipped only where the endpoint,
/// the account and the key are all given; a machine or a region that is not
/// given is labelled `unknown`.
pub fn shipping_settings(
    endpoint: Option<String>,
    id: Option<String>,
    api_key: Option<String>,
    machine: Option<String>,
    region: Option<String>,
) -> (settings: Option<ShippingSettings>)
    ensures
        settings is Some <==> endpoint is Some && id is Some && api_key is Some,
        settings is Some ==> settings_of(
            settings->0,
            endpoint->0@,
            id->0@,
            api_key->0@,
            machine,
            region,
        ),
{
    match (endpoint, id, api_key) {
        (Some(endpoint), Some(id), Some(api_key)) => {
            let mut authorization = String::from_str("Bearer ");
            authorization.append(id.as_str());
            authorization.push(':');
            authorization.append(api_key.as_str());
            assert(authorization@ =~= bearer(id@, api_key@));
            Some(
                ShippingSettings {
                    endpoint,
                    authorization,
                    instance: or_unknown(machine),
                    region: or_unknown(region),
                },
            )
        },
        _ => None,
    }
}

/// Says at startup whether logs are shipped.
pub fn startup_notice(shipping: bool) -> (notice: &'static str)
    ensures
        notice@ == notice_of(shipping),
{
    if shipping {
        "Initializing Grafana Cloud logging"
    } else {
        "Grafana Cloud logging not configured"
    }
}

} // verus!
