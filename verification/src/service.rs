//! The service configuration: the two provider variants, endpoint accessors,
//! and the cross-endpoint rules that are enforced before deployment.

use vstd::prelude::*;
use vstd::string::StrSliceExecFns;
use vstd::string::StringExecFns;

use crate::errors::OutpostError;
use crate::endpoint::{Endpoint, EndpointModel, Protocol, parse_result};
use crate::text::{find_from, find_char_from};

verus! {

/// The global options in front of the provider subcommand.
#[derive(Debug, Clone)]
pub struct CommandLine {
    pub command: Option<ServiceConfig>,
    /// Upload bandwidth limit in Mbps.
    pub upload_limit: Option<u32>,
    /// Download bandwidth limit in Mbps.
    pub download_limit: Option<u32>,
}

/// A bandwidth limit must lie between 1 and 10000 Mbps.
pub open spec fn limit_ok(l: Option<u32>) -> bool {
    match l {
        Some(v) => 1 <= v <= 10000,
        None => true,
    }
}

impl CommandLine {
    /// Checks the two bandwidth limits' ranges.
    pub fn validate(&self) -> (r: Result<(), OutpostError>)
        ensures
            r is Ok <==> limit_ok(self.upload_limit) && limit_ok(self.download_limit),
            r is Err ==> r->Err_0 is BadInput,
    {
        if let Some(v) = self.upload_limit {
            if v < 1 || v > 10000 {
                return Err(
                    OutpostError::BadInput("upload limit must be between 1 and 10000 Mbps".to_owned()),
                );
            }
        }
        if let Some(v) = self.download_limit {
            if v < 1 || v > 10000 {
                return Err(
                    OutpostError::BadInput(
                        "download limit must be between 1 and 10000 Mbps".to_owned(),
                    ),
                );
            }
        }
        Ok(())
    }
}

/// The provider selection with its options, as plain values.
#[derive(Debug, Clone)]
pub enum ServiceConfig {
    Cloudflare {
        ingress: String,
        origin: String,
        origin_cert: String,
    },
    Aws {
        ingress: Vec<String>,
        origin: String,
        regions: String,
        instance_type: String,
        hosted_zone_id: String,
        access_key_id: String,
        secret_access_key: String,
        debug: bool,
        use_cloudfront: bool,
    },
}

/// The raw region string of a configuration, where the variant has one.
pub open spec fn regions_of(c: ServiceConfig) -> Option<Seq<char>> {
    match c {
        ServiceConfig::Cloudflare { .. } => None,
        ServiceConfig::Aws { regions, .. } => Some(regions@),
    }
}

/// The raw ingress strings of a configuration.
pub open spec fn ingress_texts(c: ServiceConfig) -> Seq<Seq<char>> {
    match c {
        ServiceConfig::Cloudflare { ingress, .. } => seq![ingress@],
        ServiceConfig::Aws { ingress, .. } => ingress@.map_values(|s: String| s@),
    }
}

/// Whether every ingress string parses, and there is at least one.
pub open spec fn ingresses_ok(c: ServiceConfig) -> bool {
    &&& ingress_texts(c).len() > 0
    &&& forall|i: int|
        0 <= i < ingress_texts(c).len() ==> parse_result(#[trigger] ingress_texts(c)[i], true) is Some
}

/// The parsed ingress endpoints, meaningful when `ingresses_ok`.
pub open spec fn ingress_models(c: ServiceConfig) -> Seq<EndpointModel> {
    ingress_texts(c).map_values(|t: Seq<char>| parse_result(t, true)->0)
}

/// Whether the origin string parses under the rules of the variant: with a
/// single ingress the origin must carry a port, with several it must not.
pub open spec fn origin_ok(c: ServiceConfig) -> bool {
    match c {
        ServiceConfig::Cloudflare { origin, .. } => parse_result(origin@, true) is Some,
        ServiceConfig::Aws { origin, ingress, .. } => {
            let rp = ingress@.len() == 1;
            match parse_result(origin@, rp) {
                None => false,
                Some(m) => !(ingress@.len() > 1 && m.port is Some),
            }
        },
    }
}

/// The parsed origin endpoint, meaningful when `origin_ok`.
pub open spec fn origin_model(c: ServiceConfig) -> EndpointModel {
    match c {
        ServiceConfig::Cloudflare { origin, .. } => parse_result(origin@, true)->0,
        ServiceConfig::Aws { origin, ingress, .. } => parse_result(
            origin@,
            ingress@.len() == 1,
        )->0,
    }
}

/// All ingress protocols agree and the origin's protocol equals them.
pub open spec fn protocols_uniform(c: ServiceConfig) -> bool {
    let ms = ingress_models(c);
    &&& forall|i: int| 0 <= i < ms.len() ==> (#[trigger] ms[i]).protocol == ms[0].protocol
    &&& origin_model(c).protocol == ms[0].protocol
}

/// TLS admits exactly one ingress.
pub open spec fn tls_single_ok(c: ServiceConfig) -> bool {
    match c {
        ServiceConfig::Cloudflare { .. } => true,
        ServiceConfig::Aws { ingress, .. } => ingress@.len() > 1 ==> {
            match parse_result(ingress@[0]@, true) {
                None => false,
                Some(m) => m.protocol != Protocol::Tls,
            }
        },
    }
}

/// The CDN option admits exactly one ingress, and its port must be 443.
pub open spec fn cloudfront_ok(c: ServiceConfig) -> bool {
    match c {
        ServiceConfig::Cloudflare { .. } => true,
        ServiceConfig::Aws { ingress, use_cloudfront, .. } => use_cloudfront ==> {
            &&& ingress@.len() == 1
            &&& match parse_result(ingress@[0]@, true) {
                None => false,
                Some(m) => m.port is None || m.port == Some(443u16),
            }
        },
    }
}

impl ServiceConfig {
    /// Parses every ingress endpoint, in order.
    ///
    /// Fails when the list is empty or any entry is malformed.
    pub fn ingresses(&self) -> (r: Result<Vec<Endpoint>, OutpostError>)
        ensures
            r is Ok <==> ingresses_ok(*self),
            r is Ok ==> {
                let ms = ingress_models(*self);
                let v = r->Ok_0@;
                v.len() == ms.len() && forall|i: int|
                    0 <= i < v.len() ==> (#[trigger] v[i]).protocol == ms[i].protocol && v[i].host@
                        == ms[i].host && v[i].port == ms[i].port
            },
            r is Err ==> r->Err_0 is BadInput,
    {
        match self {
            ServiceConfig::Cloudflare { ingress, .. } => {
                assert(ingress_texts(*self) =~= seq![ingress@]);
                match Endpoint::parse(ingress.as_str(), true) {
                    Ok(e) => {
                        let mut v: Vec<Endpoint> = Vec::new();
                        v.push(e);
                        assert(ingress_models(*self)[0] == parse_result(ingress@, true)->0);
                        Ok(v)
                    },
                    Err(e) => {
                        assert(parse_result(ingress_texts(*self)[0], true) is None);
                        Err(e)
                    },
                }
            },
            ServiceConfig::Aws { ingress, .. } => {
                let ghost texts = ingress_texts(*self);
                proof {
                    assert(texts.len() == ingress@.len());
                }
                if ingress.len() == 0 {
                    return Err(
                        OutpostError::BadInput(
                            "at least one ingress endpoint must be specified".to_owned(),
                        ),
                    );
                }
                let mut v: Vec<Endpoint> = Vec::new();
                let mut i: usize = 0;
                while i < ingress.len()
                    invariant
                        i <= ingress@.len(),
                        texts == ingress_texts(*self),
                        texts.len() == ingress@.len(),
                        forall|m: int| 0 <= m < texts.len() ==> #[trigger] texts[m] == ingress@[m]@,
                        v@.len() == i,
                        forall|m: int|
                            0 <= m < i ==> parse_result(#[trigger] texts[m], true) is Some,
                        forall|m: int|
                            0 <= m < i ==> {
                                let em = parse_result(texts[m], true)->0;
                                (#[trigger] v@[m]).protocol == em.protocol && v@[m].host@ == em.host
                                    && v@[m].port == em.port
                            },
                    decreases ingress@.len() - i,
                {
                    match Endpoint::parse(ingress[i].as_str(), true) {
                        Ok(e) => {
                            v.push(e);
                        },
                        Err(e) => {
                            assert(parse_result(texts[i as int], true) is None);
                            return Err(e);
                        },
                    }
                    i = i + 1;
                }
                proof {
                    assert(ingress_models(*self).len() == texts.len());
                }
                Ok(v)
            },
        }
    }

    /// The single ingress endpoint; fails when several were declared.
    pub fn ingress(&self) -> (r: Result<Endpoint, OutpostError>)
        ensures
            r is Ok <==> ingresses_ok(*self) && ingress_texts(*self).len() == 1,
            r is Ok ==> {
                let m = ingress_models(*self)[0];
                r->Ok_0.protocol == m.protocol && r->Ok_0.host@ == m.host && r->Ok_0.port == m.port
            },
            r is Err ==> r->Err_0 is BadInput,
    {
        let mut v = self.ingresses()?;
        if v.len() > 1 {
            return Err(
                OutpostError::BadInput(
                    "multiple ingress endpoints specified, use ingresses() instead".to_owned(),
                ),
            );
        }
        let e = v.remove(0);
        Ok(e)
    }

    /// Parses the origin endpoint.
    ///
    /// With one ingress the origin must name a port; with several it must
    /// name none, and each ingress port is mapped to the same origin port.
    pub fn origin(&self) -> (r: Result<Endpoint, OutpostError>)
        ensures
            r is Ok <==> origin_ok(*self),
            r is Ok ==> {
                let m = origin_model(*self);
                r->Ok_0.protocol == m.protocol && r->Ok_0.host@ == m.host && r->Ok_0.port == m.port
            },
            r is Err ==> r->Err_0 is BadInput,
    {
        match self {
            ServiceConfig::Cloudflare { origin, .. } => Endpoint::parse(origin.as_str(), true),
            ServiceConfig::Aws { origin, ingress, .. } => {
                let require_port = ingress.len() == 1;
                let e = Endpoint::parse(origin.as_str(), require_port)?;
                if ingress.len() > 1 && e.port.is_some() {
                    return Err(
                        OutpostError::BadInput(
                            "with multiple ingress endpoints the origin must not include a port".to_owned(),
                        ),
                    );
                }
                Ok(e)
            },
        }
    }

    /// The comma-separated region list, split and trimmed; `None` for the
    /// provider that has no regions.
    pub fn aws_regions(&self) -> (r: Option<Vec<String>>)
        ensures
            r is Some <==> *self is Aws,
            forall|regs: Seq<char>|
                regions_of(*self) == Some(regs) ==> {
                    let pieces = split_commas(regs);
                    let v = r->0@;
                    v.len() == pieces.len() && v.len() > 0 && forall|i: int|
                        0 <= i < v.len() ==> (#[trigger] v[i])@ == trim_spaces(pieces[i])
                },
    {
        match self {
            ServiceConfig::Cloudflare { .. } => None,
            ServiceConfig::Aws { regions, .. } => Some(split_and_trim_commas(regions.as_str())),
        }
    }

    /// Runs every pre-deployment rule: the limits of the variant, protocol
    /// homogeneity, the TLS single-ingress rule, and the CDN rule.
    pub fn validate_all(&self) -> (r: Result<(), OutpostError>)
        ensures
            r is Ok <==> ingresses_ok(*self) && origin_ok(*self) && protocols_uniform(*self)
                && tls_single_ok(*self) && cloudfront_ok(*self),
            r is Err ==> r->Err_0 is BadInput,
    {
        self.validate_protocols()?;
        self.validate_tls_single_endpoint()?;
        self.validate_cloudfront()?;
        Ok(())
    }

    /// All ingress endpoints must share one protocol, and the origin must use
    /// that same protocol.
    pub fn validate_protocols(&self) -> (r: Result<(), OutpostError>)
        ensures
            r is Ok <==> ingresses_ok(*self) && origin_ok(*self) && protocols_uniform(*self),
            r is Err ==> r->Err_0 is BadInput,
    {
        let v = self.ingresses()?;
        let o = self.origin()?;
        let ghost ms = ingress_models(*self);
        let first = v[0].protocol;
        let mut i: usize = 1;
        while i < v.len()
            invariant
                ms == ingress_models(*self),
                1 <= i <= v@.len(),
                v@.len() == ms.len(),
                first == ms[0].protocol,
                forall|m: int| 0 <= m < v@.len() ==> (#[trigger] v@[m]).protocol == ms[m].protocol,
                forall|m: int| 0 <= m < i ==> (#[trigger] ms[m]).protocol == ms[0].protocol,
            decreases v@.len() - i,
        {
            if v[i].protocol != first {
                proof {
                    assert(v@[i as int].protocol == ms[i as int].protocol);
                    assert(!protocols_uniform(*self)) by {
                        assert(0 <= i < ingress_models(*self).len());
                        assert(ingress_models(*self)[i as int].protocol != ingress_models(
                            *self,
                        )[0].protocol);
                    }
                }
                return Err(
                    OutpostError::BadInput(
                        "all ingress endpoints must use the same protocol".to_owned(),
                    ),
                );
            }
            i = i + 1;
        }
        if o.protocol != first {
            return Err(
                OutpostError::BadInput(
                    "ingress protocol does not match origin protocol".to_owned(),
                ),
            );
        }
        Ok(())
    }

    /// TLS does not support multiple ingress endpoints.
    pub fn validate_tls_single_endpoint(&self) -> (r: Result<(), OutpostError>)
        ensures
            r is Ok <==> tls_single_ok(*self),
            r is Err ==> r->Err_0 is BadInput,
    {
        match self {
            ServiceConfig::Cloudflare { .. } => Ok(()),
            ServiceConfig::Aws { ingress, .. } => {
                if ingress.len() > 1 {
                    let first = Endpoint::parse(ingress[0].as_str(), true)?;
                    if matches!(first.protocol, Protocol::Tls) {
                        return Err(
                            OutpostError::BadInput(
                                "TLS does not support multiple ingress endpoints".to_owned(),
                            ),
                        );
                    }
                }
                Ok(())
            },
        }
    }

    /// The CDN path needs a single ingress on port 443.
    pub fn validate_cloudfront(&self) -> (r: Result<(), OutpostError>)
        ensures
            r is Ok <==> cloudfront_ok(*self),
            r is Err ==> r->Err_0 is BadInput,
    {
        match self {
            ServiceConfig::Cloudflare { .. } => Ok(()),
            ServiceConfig::Aws { ingress, use_cloudfront, .. } => {
                if *use_cloudfront {
                    if ingress.len() != 1 {
                        return Err(
                            OutpostError::BadInput(
                                "the CDN option needs exactly one ingress endpoint".to_owned(),
                            ),
                        );
                    }
                    let e = Endpoint::parse(ingress[0].as_str(), true)?;
                    if let Some(p) = e.port {
                        if p != 443 {
                            return Err(
                                OutpostError::BadInput(
                                    "the CDN option can only be used with port 443".to_owned(),
                                ),
                            );
                        }
                    }
                }
                Ok(())
            },
        }
    }
}

// ---------------------------------------------------------------------------
// Comma splitting with trimming
// ---------------------------------------------------------------------------

/// The pieces of `s[start..]` between commas, commas excluded.
pub open spec fn split_commas_from(s: Seq<char>, start: int) -> Seq<Seq<char>>
    decreases s.len() - start,
    via split_commas_from_dec
{
    if start < 0 || start > s.len() {
        seq![]
    } else {
        let k = find_from(s, ',', start);
        if k >= s.len() {
            seq![s.subrange(start, s.len() as int)]
        } else {
            seq![s.subrange(start, k)] + split_commas_from(s, k + 1)
        }
    }
}

#[via_fn]
proof fn split_commas_from_dec(s: Seq<char>, start: int) {
    if 0 <= start <= s.len() {
        crate::text::lemma_find_from_bounds(s, ',', start);
    }
}

pub open spec fn split_commas(s: Seq<char>) -> Seq<Seq<char>> {
    split_commas_from(s, 0)
}

/// `s` with leading spaces removed.
pub open spec fn trim_front(s: Seq<char>) -> Seq<char>
    decreases s.len(),
{
    if s.len() > 0 && s[0] == ' ' {
        trim_front(s.subrange(1, s.len() as int))
    } else {
        s
    }
}

/// `s` with trailing spaces removed.
pub open spec fn trim_back(s: Seq<char>) -> Seq<char>
    decreases s.len(),
{
    if s.len() > 0 && s.last() == ' ' {
        trim_back(s.drop_last())
    } else {
        s
    }
}

/// `s` with leading and trailing spaces removed.
pub open spec fn trim_spaces(s: Seq<char>) -> Seq<char> {
    trim_back(trim_front(s))
}

proof fn lemma_trim_front_range(s: Seq<char>, lo: int, hi: int, j: int)
    requires
        0 <= lo <= j <= hi <= s.len(),
        forall|m: int| lo <= m < j ==> s[m] == ' ',
        j == hi || s[j] != ' ',
    ensures
        trim_front(s.subrange(lo, hi)) == s.subrange(j, hi),
    decreases j - lo,
{
    if j == lo {
        if lo < hi {
            assert(s.subrange(lo, hi)[0] == s[lo]);
        }
        assert(trim_front(s.subrange(lo, hi)) == s.subrange(lo, hi));
    } else {
        assert(s.subrange(lo, hi)[0] == s[lo]);
        assert(s.subrange(lo, hi).subrange(1, s.subrange(lo, hi).len() as int) =~= s.subrange(
            lo + 1,
            hi,
        ));
        lemma_trim_front_range(s, lo + 1, hi, j);
    }
}

proof fn lemma_trim_back_range(s: Seq<char>, lo: int, hi: int, j: int)
    requires
        0 <= lo <= j <= hi <= s.len(),
        forall|m: int| j <= m < hi ==> s[m] == ' ',
        j == lo || s[j - 1] != ' ',
    ensures
        trim_back(s.subrange(lo, hi)) == s.subrange(lo, j),
    decreases hi - j,
{
    if j == hi {
        if lo < hi {
            assert(s.subrange(lo, hi).last() == s[hi - 1]);
        }
        assert(trim_back(s.subrange(lo, hi)) == s.subrange(lo, hi));
    } else {
        assert(s.subrange(lo, hi).last() == s[hi - 1]);
        assert(s.subrange(lo, hi).drop_last() =~= s.subrange(lo, hi - 1));
        lemma_trim_back_range(s, lo, hi - 1, j);
    }
}

/// One piece of `s`, trimmed: `trim_spaces(s[lo..hi])`.
fn trimmed_piece(s: &str, lo: usize, hi: usize) -> (r: String)
    requires
        lo <= hi <= s@.len(),
    ensures
        r@ == trim_spaces(s@.subrange(lo as int, hi as int)),
{
    let mut a = lo;
    while a < hi && s.get_char(a) == ' '
        invariant
            lo <= a <= hi <= s@.len(),
            forall|m: int| lo <= m <= a - 1 ==> s@[m] == ' ',
        decreases hi - a,
    {
        a = a + 1;
    }
    let mut b = hi;
    while b > a && s.get_char(b - 1) == ' '
        invariant
            a <= b <= hi,
            hi <= s@.len(),
            forall|m: int| b <= m < hi ==> s@[m] == ' ',
        decreases b,
    {
        b = b - 1;
    }
    proof {
        lemma_trim_front_range(s@, lo as int, hi as int, a as int);
        lemma_trim_back_range(s@, a as int, hi as int, b as int);
    }
    s.substring_char(a, b).to_owned()
}

/// Splits on commas and trims spaces off each piece.
pub fn split_and_trim_commas(s: &str) -> (r: Vec<String>)
    ensures
        ({
            let pieces = split_commas(s@);
            r@.len() == pieces.len() && r@.len() > 0 && forall|i: int|
                0 <= i < r@.len() ==> (#[trigger] r@[i])@ == trim_spaces(pieces[i])
        }),
{
    let n = s.unicode_len();
    let mut out: Vec<String> = Vec::new();
    let mut start: usize = 0;
    let ghost pieces = split_commas(s@);
    let ghost mut done: Seq<Seq<char>> = Seq::empty();
    loop
        invariant_except_break
            start <= n,
            n == s@.len(),
            pieces == split_commas(s@),
            pieces =~= done + split_commas_from(s@, start as int),
            out@.len() == done.len(),
            forall|i: int| 0 <= i < done.len() ==> (#[trigger] out@[i])@ == trim_spaces(done[i]),
        ensures
            out@.len() == pieces.len(),
            out@.len() > 0,
            forall|i: int| 0 <= i < pieces.len() ==> (#[trigger] out@[i])@ == trim_spaces(pieces[i]),
        decreases n - start,
    {
        let k = find_char_from(s, ',', start);
        proof {
            crate::text::lemma_find_from_bounds(s@, ',', start as int);
        }
        if k == n {
            let piece = trimmed_piece(s, start, n);
            out.push(piece);
            proof {
                assert(split_commas_from(s@, start as int) =~= seq![
                    s@.subrange(start as int, n as int),
                ]);
                done = done + seq![s@.subrange(start as int, n as int)];
                assert(pieces =~= done);
            }
            break;
        } else {
            let piece = trimmed_piece(s, start, k);
            out.push(piece);
            proof {
                done = done + seq![s@.subrange(start as int, k as int)];
            }
            start = k + 1;
        }
    }
    out
}

} // verus!
