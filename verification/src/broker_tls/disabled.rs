//! The broker built without TLS support: `https://` is refused with a
//! message that names the missing Cargo feature.
use vstd::prelude::*;

use crate::text::{has_prefix, starts_with};

verus! {

pub open spec fn broker_tls_feature_required_text() -> Seq<char> {
    "https:// support requires the remote-exec-broker `broker-tls` Cargo feature"@
}

/// The error any `https://` request gets in this build.
pub fn broker_tls_feature_required_message() -> (res: String)
    ensures
        res@ == broker_tls_feature_required_text(),
{
    String::from_str("https:// support requires the remote-exec-broker `broker-tls` Cargo feature")
}

pub open spec fn spec_ensure_broker_url_supported(url: Seq<char>) -> Result<(), Seq<char>> {
    if has_prefix(url, "https://"@) {
        Err("broker URL `"@ + url + "` uses https://; "@ + broker_tls_feature_required_text())
    } else {
        Ok(())
    }
}

/// Refuses an `https://` broker URL; any other URL is fine.
pub fn ensure_broker_url_supported(url: &str) -> (res: Result<(), String>)
    ensures
        match spec_ensure_broker_url_supported(url@) {
            Ok(_) => res is Ok,
            Err(m) => res matches Err(e) && e@ == m,
        },
{
    if starts_with(url, "https://") {
        let mut msg = String::from_str("broker URL `");
        msg.append(url);
        msg.append("` uses https://; ");
        let tail = broker_tls_feature_required_message();
        msg.append(tail.as_str());
        return Err(msg);
    }
    Ok(())
}

/// Building a client for an `https://` target fails in this build.
pub fn build_daemon_https_client_unavailable() -> (res: String)
    ensures
        res@ == broker_tls_feature_required_text(),
{
    broker_tls_feature_required_message()
}

/// Nothing to install in this build.
pub fn install_crypto_provider() -> (res: Result<(), String>)
    ensures
        res is Ok,
{
    Ok(())
}

} // verus!
