//! The dashboard's read-only records: proxy descriptions, the optional CDN
//! record, the page's data, and uptime formatting.

use vstd::prelude::*;
use vstd::string::StrSliceExecFns;
use vstd::string::StringExecFns;

use crate::stats::TunnelStats;
use crate::text::{dec_rep, u64_to_string};

verus! {

/// What the dashboard shows about the deployed proxy.
#[derive(Debug, Clone)]
pub enum ProxyInfo {
    Aws {
        instance_id: String,
        instance_type: String,
        region: String,
        public_ip: String,
        private_ip: String,
        state: String,
        launch_time: String,
        uptime: String,
    },
    Cloudflare {
        hostname: String,
        connector_id: String,
        connections: u32,
    },
}

impl ProxyInfo {
    /// The demo-mode record for the cloud-stack provider.
    pub fn example_aws() -> (r: ProxyInfo)
        ensures
            r matches ProxyInfo::Aws {
                instance_id,
                instance_type,
                region,
                public_ip,
                private_ip,
                state,
                launch_time,
                uptime,
            } && instance_id@ == "i-0123456789abcdef0"@ && instance_type@ == "t4g.nano"@
                && region@ == "us-east-2"@ && public_ip@ == "203.0.113.42"@ && private_ip@
                == "172.17.0.1"@ && state@ == "running"@ && launch_time@
                == "2025-11-11 19:30:00 UTC"@ && uptime@ == "2h 15m"@,
    {
        ProxyInfo::Aws {
            instance_id: "i-0123456789abcdef0".to_owned(),
            instance_type: "t4g.nano".to_owned(),
            region: "us-east-2".to_owned(),
            public_ip: "203.0.113.42".to_owned(),
            private_ip: "172.17.0.1".to_owned(),
            state: "running".to_owned(),
            launch_time: "2025-11-11 19:30:00 UTC".to_owned(),
            uptime: "2h 15m".to_owned(),
        }
    }

    /// The demo-mode record for the tunnel-daemon provider.
    pub fn example_cloudflare() -> (r: ProxyInfo)
        ensures
            r matches ProxyInfo::Cloudflare { hostname, connector_id, connections } && hostname@
                == "www.example.com"@ && connector_id@ == "abc123-def456-ghi789"@ && connections
                == 4u32,
    {
        ProxyInfo::Cloudflare {
            hostname: "www.example.com".to_owned(),
            connector_id: "abc123-def456-ghi789".to_owned(),
            connections: 4,
        }
    }
}

/// What the dashboard shows about the optional CDN distribution.
#[derive(Debug, Clone)]
pub struct CloudFrontInfo {
    pub distribution_id: String,
    pub distribution_domain: String,
    pub status: String,
}

impl Default for CloudFrontInfo {
    /// All fields empty.
    fn default() -> (r: CloudFrontInfo)
        ensures
            r.distribution_id@ == Seq::<char>::empty() && r.distribution_domain@
                == Seq::<char>::empty() && r.status@ == Seq::<char>::empty(),
    {
        CloudFrontInfo {
            distribution_id: String::new(),
            distribution_domain: String::new(),
            status: String::new(),
        }
    }
}

impl CloudFrontInfo {
    /// The demo-mode record.
    pub fn example() -> (r: CloudFrontInfo)
        ensures
            r.distribution_id@ == "E1234ABCDEFGHI"@ && r.distribution_domain@
                == "d1234abcdefghi.cloudfront.net"@ && r.status@ == "Deployed"@,
    {
        CloudFrontInfo {
            distribution_id: "E1234ABCDEFGHI".to_owned(),
            distribution_domain: "d1234abcdefghi.cloudfront.net".to_owned(),
            status: "Deployed".to_owned(),
        }
    }
}

/// Everything the status page renders.
pub struct IndexTemplate {
    pub tunnel_stats: TunnelStats,
    pub proxy_info: Option<ProxyInfo>,
    pub cloudfront_info: Option<CloudFrontInfo>,
    pub upload_limit: Option<u32>,
    pub download_limit: Option<u32>,
}

// ---------------------------------------------------------------------------
// Uptime
// ---------------------------------------------------------------------------

/// The uptime string for a non-negative duration in seconds: days, hours and
/// minutes, dropping the leading units that are zero.
pub open spec fn uptime_text(secs: int) -> Seq<char> {
    let s = if secs < 0 {
        0
    } else {
        secs
    };
    let days = s / 86400;
    let hours = (s / 3600) % 24;
    let minutes = (s / 60) % 60;
    if days > 0 {
        dec_rep(days as nat) + "d "@ + dec_rep(hours as nat) + "h "@ + dec_rep(minutes as nat)
            + "m"@
    } else if hours > 0 {
        dec_rep(hours as nat) + "h "@ + dec_rep(minutes as nat) + "m"@
    } else {
        dec_rep(minutes as nat) + "m"@
    }
}

/// Formats a duration the way the dashboard shows uptimes.
pub fn format_uptime(seconds: u64) -> (r: String)
    ensures
        r@ == uptime_text(seconds as int),
{
    let days = seconds / 86400;
    let hours = (seconds / 3600) % 24;
    let minutes = (seconds / 60) % 60;
    if days > 0 {
        let mut out = u64_to_string(days);
        out.append("d ");
        out.append(u64_to_string(hours).as_str());
        out.append("h ");
        out.append(u64_to_string(minutes).as_str());
        out.append("m");
        out
    } else if hours > 0 {
        let mut out = u64_to_string(hours);
        out.append("h ");
        out.append(u64_to_string(minutes).as_str());
        out.append("m");
        out
    } else {
        let mut out = u64_to_string(minutes);
        out.append("m");
        out
    }
}

/// The epoch second a fixed timestamp text denotes, when it parses.
pub uninterp spec fn rfc3339_epoch(s: Seq<char>) -> Option<int>;

/// Relies on chrono's `DateTime::parse_from_rfc3339` and `timestamp`: the
/// parse depends on the text alone, and a parsed timestamp's epoch second is
/// a fixed function of it.
#[verifier::external_body]
fn parse_rfc3339_epoch(s: &str) -> (r: Option<i64>)
    ensures
        r is Some <==> rfc3339_epoch(s@) is Some,
        r is Some ==> r->0 as int == rfc3339_epoch(s@)->0,
{
    match chrono::DateTime::parse_from_rfc3339(s) {
        Ok(dt) => Some(dt.timestamp()),
        Err(_) => None,
    }
}

/// Relies on std's `SystemTime::now`, read as its distance from the Unix
/// epoch: whole seconds, and zero for a clock set before the epoch, so the
/// call returns on every clock state. The value depends on the moment of the
/// call, so nothing is promised of it.
#[verifier::external_body]
fn now_epoch() -> (r: u64) {
    match std::time::SystemTime::now().duration_since(std::time::UNIX_EPOCH) {
        Ok(d) => d.as_secs(),
        Err(_) => 0,
    }
}

/// The uptime since a launch time in fixed-offset timestamp form, against the
/// clock now; `Unknown` when the text does not parse.
pub fn calculate_uptime(launch_time: &str) -> (r: String)
    ensures
        rfc3339_epoch(launch_time@) is None ==> r@ == "Unknown"@,
        rfc3339_epoch(launch_time@) is Some ==> exists|d: int| d >= 0 && r@ == #[trigger] uptime_text(d),
{
    match parse_rfc3339_epoch(launch_time) {
        None => "Unknown".to_owned(),
        Some(launch) => {
            let now = now_epoch();
            let diff: i128 = (now as i128) - (launch as i128);
            let secs: u64 = if diff < 0 {
                0
            } else if diff > u64::MAX as i128 {
                u64::MAX
            } else {
                diff as u64
            };
            let out = format_uptime(secs);
            proof {
                assert(secs as int >= 0);
                assert(out@ == uptime_text(secs as int));
            }
            out
        },
    }
}

} // verus!
