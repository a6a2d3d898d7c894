//! Endpoint parsing: `scheme://host[:port]` strings, protocols, and port
//! mappings, with a functional specification of the accepted grammar.

use vstd::prelude::*;
use vstd::string::StrSliceExecFns;
use vstd::string::StringExecFns;

use crate::errors::OutpostError;
use crate::text::{
    all_digits, dec_rep, dec_val, find_from, lower, lower_char, rfind_in,
    find_char_from, rfind_char_in, parse_port_digits, lower_char_exec,
    lemma_find_from_eq, lemma_rfind_in_eq, lemma_dec_rep_digits, lemma_dec_rep_val,
};

verus! {

/// The protocols an ingress or origin endpoint may use.
#[derive(Debug, Clone, Copy, PartialEq, Eq, Structural)]
pub enum Protocol {
    Tcp,
    Udp,
    Tls,
}

/// The lowercase name of a protocol.
pub open spec fn protocol_name(p: Protocol) -> Seq<char> {
    match p {
        Protocol::Tcp => "tcp"@,
        Protocol::Udp => "udp"@,
        Protocol::Tls => "tls"@,
    }
}

/// The protocol with the given lowercase name, if any.
pub open spec fn proto_of(s: Seq<char>) -> Option<Protocol> {
    if s == "tcp"@ {
        Some(Protocol::Tcp)
    } else if s == "udp"@ {
        Some(Protocol::Udp)
    } else if s == "tls"@ {
        Some(Protocol::Tls)
    } else {
        None
    }
}

/// Case-insensitive comparison of `s` against a (lowercase) reference `t`.
fn eq_lower(s: &str, t: &str) -> (r: bool)
    ensures
        r == (lower(s@) == t@),
{
    let ns = s.unicode_len();
    let nt = t.unicode_len();
    if ns != nt {
        assert(lower(s@).len() == s@.len());
        return false;
    }
    let mut i: usize = 0;
    while i < ns
        invariant
            i <= ns,
            ns == s@.len(),
            ns == t@.len(),
            forall|m: int| 0 <= m < i ==> lower(s@)[m] == t@[m],
        decreases ns - i,
    {
        if lower_char_exec(s.get_char(i)) != t.get_char(i) {
            assert(lower(s@)[i as int] != t@[i as int]);
            return false;
        }
        i = i + 1;
    }
    proof {
        assert(lower(s@) =~= t@);
    }
    true
}

impl Protocol {
    /// Parses a protocol name, ignoring ASCII case.
    ///
    /// Exactly `tcp`, `udp` and `tls` are accepted.
    pub fn from_str(s: &str) -> (r: Result<Protocol, OutpostError>)
        ensures
            r is Ok <==> proto_of(lower(s@)) is Some,
            r is Ok ==> Some(r->Ok_0) == proto_of(lower(s@)),
            r is Err ==> r->Err_0 is BadInput,
    {
        if eq_lower(s, "tcp") {
            Ok(Protocol::Tcp)
        } else if eq_lower(s, "udp") {
            Ok(Protocol::Udp)
        } else if eq_lower(s, "tls") {
            Ok(Protocol::Tls)
        } else {
            Err(OutpostError::BadInput("unsupported protocol; expected tcp, udp or tls".to_owned()))
        }
    }

    /// The lowercase name of the protocol.
    pub fn as_str(&self) -> (r: &'static str)
        ensures
            r@ == protocol_name(*self),
    {
        match self {
            Protocol::Tcp => "tcp",
            Protocol::Udp => "udp",
            Protocol::Tls => "tls",
        }
    }
}

/// A parsed endpoint: protocol, host, and an optional port.
#[derive(Debug, Clone)]
pub struct Endpoint {
    pub protocol: Protocol,
    pub host: String,
    pub port: Option<u16>,
}

/// The mathematical image of a parsed endpoint.
pub struct EndpointModel {
    pub protocol: Protocol,
    pub host: Seq<char>,
    pub port: Option<u16>,
}

/// What `Endpoint::parse` returns on `s`: `None` stands for a rejection.
///
/// The grammar is `scheme://host[:port][/ignored]`: the first colon must open
/// a `://`, the scheme must name a protocol (any ASCII case), the authority
/// runs to the first `/` after it and must be non-empty, the last colon of the
/// authority separates an optional decimal port that must fit 16 bits, and a
/// missing port is accepted only when the caller does not require one.
pub open spec fn parse_result(s: Seq<char>, require_port: bool) -> Option<EndpointModel> {
    let ci = find_from(s, ':', 0);
    if ci + 3 > s.len() || s[ci + 1] != '/' || s[ci + 2] != '/' {
        None
    } else {
        match proto_of(lower(s.subrange(0, ci))) {
            None => None,
            Some(p) => {
                let lo = ci + 3;
                let hi = find_from(s, '/', lo);
                if hi <= lo {
                    None
                } else {
                    let pc = rfind_in(s, ':', lo, hi);
                    if pc < 0 {
                        if require_port {
                            None
                        } else {
                            Some(EndpointModel { protocol: p, host: s.subrange(lo, hi), port: None })
                        }
                    } else if pc == lo {
                        None
                    } else if pc + 1 == hi {
                        if require_port {
                            None
                        } else {
                            Some(EndpointModel { protocol: p, host: s.subrange(lo, pc), port: None })
                        }
                    } else {
                        let digits = s.subrange(pc + 1, hi);
                        if all_digits(digits) && dec_val(digits) <= 65535 {
                            Some(
                                EndpointModel {
                                    protocol: p,
                                    host: s.subrange(lo, pc),
                                    port: Some(dec_val(digits) as u16),
                                },
                            )
                        } else {
                            None
                        }
                    }
                }
            },
        }
    }
}

impl Endpoint {
    /// Parses `scheme://host[:port]`.
    ///
    /// Rejects an unknown scheme, a missing host, a malformed or out-of-range
    /// port, and — when `require_port` is set — a missing port.
    pub fn parse(s: &str, require_port: bool) -> (r: Result<Endpoint, OutpostError>)
        ensures
            r is Ok <==> parse_result(s@, require_port) is Some,
            r is Ok ==> {
                let m = parse_result(s@, require_port)->0;
                r->Ok_0.protocol == m.protocol && r->Ok_0.host@ == m.host && r->Ok_0.port == m.port
            },
            r is Err ==> r->Err_0 is BadInput,
    {
        let n = s.unicode_len();
        let ci = find_char_from(s, ':', 0);
        proof {
            crate::text::lemma_find_from_bounds(s@, ':', 0);
        }
        if n < 3 || ci > n - 3 {
            return Err(OutpostError::BadInput("endpoint is not scheme://host[:port]".to_owned()));
        }
        if s.get_char(ci + 1) != '/' || s.get_char(ci + 2) != '/' {
            return Err(OutpostError::BadInput("endpoint is not scheme://host[:port]".to_owned()));
        }
        let scheme = s.substring_char(0, ci);
        let protocol = if eq_lower(scheme, "tcp") {
            Protocol::Tcp
        } else if eq_lower(scheme, "udp") {
            Protocol::Udp
        } else if eq_lower(scheme, "tls") {
            Protocol::Tls
        } else {
            return Err(
                OutpostError::BadInput("unsupported protocol; expected tcp, udp or tls".to_owned()),
            );
        };
        let lo = ci + 3;
        let hi = find_char_from(s, '/', lo);
        proof {
            crate::text::lemma_find_from_bounds(s@, '/', lo as int);
        }
        if hi <= lo {
            return Err(OutpostError::BadInput("missing host in endpoint".to_owned()));
        }
        let pc_opt = rfind_char_in(s, ':', lo, hi);
        match pc_opt {
            None => {
                if require_port {
                    Err(OutpostError::BadInput("missing port in endpoint".to_owned()))
                } else {
                    Ok(Endpoint { protocol, host: s.substring_char(lo, hi).to_owned(), port: None })
                }
            },
            Some(pc) => {
                proof {
                    crate::text::lemma_rfind_in_bounds(s@, ':', lo as int, hi as int);
                }
                if pc == lo {
                    return Err(OutpostError::BadInput("missing host in endpoint".to_owned()));
                }
                if pc + 1 == hi {
                    if require_port {
                        return Err(OutpostError::BadInput("missing port in endpoint".to_owned()));
                    }
                    return Ok(
                        Endpoint { protocol, host: s.substring_char(lo, pc).to_owned(), port: None },
                    );
                }
                match parse_port_digits(s, pc + 1, hi) {
                    Some(port) => Ok(
                        Endpoint {
                            protocol,
                            host: s.substring_char(lo, pc).to_owned(),
                            port: Some(port),
                        },
                    ),
                    None => Err(OutpostError::BadInput("invalid port in endpoint".to_owned())),
                }
            },
        }
    }

    /// The endpoint's port; an error when none was given.
    pub fn port(&self) -> (r: Result<u16, OutpostError>)
        ensures
            r is Ok <==> self.port is Some,
            r is Ok ==> r->Ok_0 == self.port->0,
            r is Err ==> r->Err_0 is BadInput,
    {
        match self.port {
            Some(p) => Ok(p),
            None => Err(OutpostError::BadInput("port not specified for endpoint".to_owned())),
        }
    }
}

/// Round trip: rendering a protocol, host and port as `proto://host:port` and
/// parsing it back yields exactly those three fields, for every host that
/// carries no `:` or `/` of its own.
pub proof fn lemma_endpoint_parse_round_trip(p: Protocol, host: Seq<char>, port: u16)
    requires
        host.len() > 0,
        forall|i: int| 0 <= i < host.len() ==> host[i] != ':' && host[i] != '/',
    ensures
        ({
            let s = protocol_name(p) + "://"@ + host + ":"@ + dec_rep(port as nat);
            parse_result(s, true) == Some(
                EndpointModel { protocol: p, host, port: Some(port) },
            )
        }),
{
    reveal_strlit("tcp");
    reveal_strlit("udp");
    reveal_strlit("tls");
    reveal_strlit("://");
    reveal_strlit(":");
    let name = protocol_name(p);
    let digits = dec_rep(port as nat);
    let s = name + "://"@ + host + ":"@ + digits;
    lemma_dec_rep_digits(port as nat);
    lemma_dec_rep_val(port as nat);
    assert(name.len() == 3 && name[0] != ':' && name[1] != ':' && name[2] != ':' && name[0] != '/'
        && name[1] != '/' && name[2] != '/') by {
        match p {
            Protocol::Tcp => {},
            Protocol::Udp => {},
            Protocol::Tls => {},
        }
    }
    let hl = host.len() as int;
    let dl = digits.len() as int;
    assert(s.len() == 7 + hl + dl);
    // The layout of s, index by index.
    assert forall|i: int| 0 <= i < 3 implies s[i] == name[i] by {}
    assert(s[3] == ':' && s[4] == '/' && s[5] == '/');
    assert forall|i: int| 6 <= i < 6 + hl implies s[i] == host[i - 6] by {}
    assert(s[6 + hl] == ':');
    assert forall|i: int| 7 + hl <= i < s.len() implies s[i] == digits[i - 7 - hl] by {}
    // First colon is at 3.
    lemma_find_from_eq(s, ':', 0, 3);
    // Scheme.
    assert(s.subrange(0, 3) =~= name);
    assert(lower(name) =~= name) by {
        match p {
            Protocol::Tcp => {
                assert forall|i: int| 0 <= i < 3 implies lower(name)[i] == name[i] by {
                    assert(lower_char(name[i]) == name[i]);
                }
            },
            Protocol::Udp => {
                assert forall|i: int| 0 <= i < 3 implies lower(name)[i] == name[i] by {
                    assert(lower_char(name[i]) == name[i]);
                }
            },
            Protocol::Tls => {
                assert forall|i: int| 0 <= i < 3 implies lower(name)[i] == name[i] by {
                    assert(lower_char(name[i]) == name[i]);
                }
            },
        }
    }
    assert(proto_of(lower(s.subrange(0, 3))) == Some(p)) by {
        match p {
            Protocol::Tcp => {},
            Protocol::Udp => {},
            Protocol::Tls => {},
        }
    }
    // No slash after the authority start.
    assert forall|m: int| 6 <= m < s.len() implies s[m] != '/' by {
        if m < 6 + hl {
            assert(s[m] == host[m - 6]);
        } else if m == 6 + hl {
        } else {
            assert(all_digits(digits));
            assert(crate::text::is_dec_digit(digits[m - 7 - hl]));
        }
    }
    lemma_find_from_eq(s, '/', 6, s.len() as int);
    // Last colon of the authority is right after the host.
    assert forall|m: int| 6 + hl < m < s.len() implies s[m] != ':' by {
        assert(crate::text::is_dec_digit(digits[m - 7 - hl]));
    }
    lemma_rfind_in_eq(s, ':', 6, s.len() as int, 6 + hl);
    // The host and digit ranges are the pieces themselves.
    assert(s.subrange(6, 6 + hl) =~= host);
    assert(s.subrange(7 + hl, s.len() as int) =~= digits);
    assert(dec_val(digits) == port);
    assert((dec_val(digits) as u16) == port);
}

/// What a port string denotes: `P` maps a port onto itself, `L:P` maps the
/// local port `L` onto the public port `P`; anything else is rejected.
pub open spec fn port_spec_result(s: Seq<char>) -> Option<(u16, u16)> {
    let k = find_from(s, ':', 0);
    if k >= s.len() {
        if s.len() > 0 && all_digits(s) && dec_val(s) <= 65535 {
            Some((dec_val(s) as u16, dec_val(s) as u16))
        } else {
            None
        }
    } else {
        let l = s.subrange(0, k);
        let p = s.subrange(k + 1, s.len() as int);
        if l.len() > 0 && all_digits(l) && dec_val(l) <= 65535 && p.len() > 0 && all_digits(p)
            && dec_val(p) <= 65535 {
            Some((dec_val(l) as u16, dec_val(p) as u16))
        } else {
            None
        }
    }
}

/// Parses one port string: `P` or `L:P`, as `(local, public)`.
pub fn parse_port_spec(s: &str) -> (r: Result<(u16, u16), OutpostError>)
    ensures
        r is Ok <==> port_spec_result(s@) is Some,
        r is Ok ==> Some(r->Ok_0) == port_spec_result(s@),
        r is Err ==> r->Err_0 is BadInput,
{
    let n = s.unicode_len();
    let k = find_char_from(s, ':', 0);
    proof {
        crate::text::lemma_find_from_bounds(s@, ':', 0);
    }
    if k == n {
        match parse_port_digits(s, 0, n) {
            Some(p) => {
                proof {
                    assert(s@.subrange(0, n as int) =~= s@);
                }
                Ok((p, p))
            },
            None => {
                proof {
                    assert(s@.subrange(0, n as int) =~= s@);
                }
                Err(OutpostError::BadInput("invalid port string".to_owned()))
            },
        }
    } else {
        let local = parse_port_digits(s, 0, k);
        let public = parse_port_digits(s, k + 1, n);
        match (local, public) {
            (Some(l), Some(p)) => Ok((l, p)),
            _ => Err(OutpostError::BadInput("invalid port string".to_owned())),
        }
    }
}

/// Builds the `(port, protocol)` list that the stack template and the tunnel
/// configuration share, one entry per ingress, in order.
///
/// Succeeds exactly when every ingress carries a port.
pub fn build_port_mappings(ingresses: &Vec<Endpoint>) -> (r: Result<
    Vec<(u16, String)>,
    OutpostError,
>)
    ensures
        r is Ok <==> (forall|i: int| 0 <= i < ingresses@.len() ==> (#[trigger] ingresses@[i]).port is Some),
        r is Ok ==> {
            let m = r->Ok_0@;
            m.len() == ingresses@.len() && forall|i: int|
                0 <= i < m.len() ==> (#[trigger] m[i]).0 == ingresses@[i].port->0 && m[i].1@
                    == protocol_name(ingresses@[i].protocol)
        },
        r is Err ==> r->Err_0 is BadInput,
{
    let mut out: Vec<(u16, String)> = Vec::new();
    let mut i: usize = 0;
    while i < ingresses.len()
        invariant
            i <= ingresses@.len(),
            out@.len() == i,
            forall|m: int| 0 <= m < i ==> (#[trigger] ingresses@[m]).port is Some,
            forall|m: int|
                0 <= m < i ==> (#[trigger] out@[m]).0 == ingresses@[m].port->0 && out@[m].1@
                    == protocol_name(ingresses@[m].protocol),
        decreases ingresses@.len() - i,
    {
        let e = &ingresses[i];
        match e.port {
            Some(p) => {
                out.push((p, e.protocol.as_str().to_owned()));
            },
            None => {
                return Err(
                    OutpostError::BadInput("every ingress endpoint needs a port".to_owned()),
                );
            },
        }
        i = i + 1;
    }
    Ok(out)
}

} // verus!
