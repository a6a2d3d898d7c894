//! The tunnel-daemon provider's pure parts: its on-disk configuration record
//! and the selection of the credentials file the daemon wrote.

use vstd::prelude::*;
use vstd::string::StrSliceExecFns;
use vstd::string::StringExecFns;

use crate::text::{dec_rep, ends_with, str_ends_with, u16_to_string};

verus! {

/// One ingress entry of the daemon's configuration; the catch-all entry at
/// the end carries no hostname.
#[derive(Debug, Clone)]
pub struct CloudflareConfigIngress {
    pub hostname: Option<String>,
    pub service: String,
}

/// The daemon's configuration record.
#[derive(Debug, Clone)]
pub struct CloudflareConfig {
    pub tunnel: String,
    pub credentials_file: String,
    pub ingress: Vec<CloudflareConfigIngress>,
}

/// Builds the daemon's configuration: one routed ingress for the fully
/// qualified name, then the mandatory catch-all, with the tunnel id and
/// credentials path left for the caller to fill in.
pub fn build_cloudflare_config(fqdn: &str, origin_host: &str, origin_port: u16) -> (r:
    CloudflareConfig)
    ensures
        r.tunnel@ == Seq::<char>::empty(),
        r.credentials_file@ == Seq::<char>::empty(),
        r.ingress@.len() == 2,
        r.ingress@[0].hostname matches Some(h) && h@ == fqdn@,
        r.ingress@[0].service@ == "http://"@ + origin_host@ + ":"@ + dec_rep(origin_port as nat),
        r.ingress@[1].hostname is None,
        r.ingress@[1].service@ == "http_status:404"@,
{
    let mut service = "http://".to_owned();
    service.append(origin_host);
    service.append(":");
    service.append(u16_to_string(origin_port).as_str());
    let mut ingress: Vec<CloudflareConfigIngress> = Vec::new();
    ingress.push(CloudflareConfigIngress { hostname: Some(fqdn.to_owned()), service });
    ingress.push(
        CloudflareConfigIngress { hostname: None, service: "http_status:404".to_owned() },
    );
    CloudflareConfig { tunnel: String::new(), credentials_file: String::new(), ingress }
}

/// The index of the last name ending in `.json` among the first `hi`; `-1`
/// if none.
pub open spec fn last_json_index(names: Seq<String>, hi: int) -> int
    decreases hi,
{
    if hi <= 0 || hi > names.len() {
        -1
    } else if ends_with(names[hi - 1]@, ".json"@) {
        hi - 1
    } else {
        last_json_index(names, hi - 1)
    }
}

/// Picks the daemon's credentials file out of a scratch-directory listing:
/// the last name ending in `.json`, returned as `(stem, name)`.
pub fn pick_credentials(names: &Vec<String>) -> (r: Option<(String, String)>)
    ensures
        r is Some <==> last_json_index(names@, names@.len() as int) >= 0,
        r is Some ==> {
            let i = last_json_index(names@, names@.len() as int);
            let name = names@[i]@;
            (r->0).1@ == name && (r->0).0@ == name.subrange(0, name.len() - 5)
        },
{
    let mut hi = names.len();
    while hi > 0
        invariant
            hi <= names@.len(),
            last_json_index(names@, names@.len() as int) == last_json_index(names@, hi as int),
        decreases hi,
    {
        let name = &names[hi - 1];
        if str_ends_with(name.as_str(), ".json") {
            let n = name.as_str().unicode_len();
            proof {
                reveal_strlit(".json");
            }
            let stem = name.as_str().substring_char(0, n - 5).to_owned();
            return Some((stem, name.clone()));
        }
        hi = hi - 1;
    }
    None
}

} // verus!
