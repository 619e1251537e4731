//! The persisted file layout under the agent's base directory.

use vstd::prelude::*;
use vstd::string::StringExecFns;

verus! {

fn join(base: &str, leaf: &str) -> (r: String)
    ensures
        r@ == base@ + "\\"@ + leaf@,
{
    String::from_str(base).concat("\\").concat(leaf)
}

pub fn config_path(base: &str) -> (r: String)
    ensures
        r@ == base@ + "\\"@ + "config.toml"@,
{
    join(base, "config.toml")
}

pub fn logs_dir(base: &str) -> (r: String)
    ensures
        r@ == base@ + "\\"@ + "logs"@,
{
    join(base, "logs")
}

pub fn killswitch_state_path(base: &str) -> (r: String)
    ensures
        r@ == base@ + "\\"@ + "killswitch-state.toml"@,
{
    join(base, "killswitch-state.toml")
}

pub fn incidents_dir(base: &str) -> (r: String)
    ensures
        r@ == base@ + "\\"@ + "incidents"@,
{
    join(base, "incidents")
}

pub fn sysmon_bookmark_path(base: &str) -> (r: String)
    ensures
        r@ == base@ + "\\"@ + "sysmon-bookmark.toml"@,
{
    join(base, "sysmon-bookmark.toml")
}

pub fn device_id_path(base: &str) -> (r: String)
    ensures
        r@ == base@ + "\\"@ + "device_id.txt"@,
{
    join(base, "device_id.txt")
}

pub fn license_dir(base: &str) -> (r: String)
    ensures
        r@ == base@ + "\\"@ + "license"@,
{
    join(base, "license")
}

pub fn license_json_path(base: &str) -> (r: String)
    ensures
        r@ == base@ + "\\"@ + "license"@ + "\\"@ + "license.json"@,
{
    join(license_dir(base).as_str(), "license.json")
}

pub fn license_sig_path(base: &str) -> (r: String)
    ensures
        r@ == base@ + "\\"@ + "license"@ + "\\"@ + "license.sig"@,
{
    join(license_dir(base).as_str(), "license.sig")
}

pub fn license_activation_path(base: &str) -> (r: String)
    ensures
        r@ == base@ + "\\"@ + "license"@ + "\\"@ + "activation.json"@,
{
    join(license_dir(base).as_str(), "activation.json")
}

pub fn license_status_path(base: &str) -> (r: String)
    ensures
        r@ == base@ + "\\"@ + "license"@ + "\\"@ + "status.toml"@,
{
    join(license_dir(base).as_str(), "status.toml")
}

pub fn threat_feed_dir(base: &str) -> (r: String)
    ensures
        r@ == base@ + "\\"@ + "threat-feed"@,
{
    join(base, "threat-feed")
}

pub fn threat_feed_bundle_path(base: &str) -> (r: String)
    ensures
        r@ == base@ + "\\"@ + "threat-feed"@ + "\\"@ + "bundle.json"@,
{
    join(threat_feed_dir(base).as_str(), "bundle.json")
}

pub fn threat_feed_sig_path(base: &str) -> (r: String)
    ensures
        r@ == base@ + "\\"@ + "threat-feed"@ + "\\"@ + "bundle.sig"@,
{
    join(threat_feed_dir(base).as_str(), "bundle.sig")
}

pub fn threat_feed_state_path(base: &str) -> (r: String)
    ensures
        r@ == base@ + "\\"@ + "threat-feed"@ + "\\"@ + "state.toml"@,
{
    join(threat_feed_dir(base).as_str(), "state.toml")
}

pub fn threat_feed_meta_path(base: &str) -> (r: String)
    ensures
        r@ == base@ + "\\"@ + "threat-feed"@ + "\\"@ + "meta.json"@,
{
    join(threat_feed_dir(base).as_str(), "meta.json")
}

pub fn threat_feed_last_good_bundle_path(base: &str) -> (r: String)
    ensures
        r@ == base@ + "\\"@ + "threat-feed"@ + "\\"@ + "bundle.json.last-good"@,
{
    join(threat_feed_dir(base).as_str(), "bundle.json.last-good")
}

pub fn threat_feed_last_good_sig_path(base: &str) -> (r: String)
    ensures
        r@ == base@ + "\\"@ + "threat-feed"@ + "\\"@ + "bundle.sig.last-good"@,
{
    join(threat_feed_dir(base).as_str(), "bundle.sig.last-good")
}

} // verus!
