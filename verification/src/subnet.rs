//! The tunnel subnet picker: a fixed, ordered candidate pool, scanned for the
//! first prefix that no host interface already uses.

use vstd::prelude::*;
use vstd::string::StringExecFns;

use crate::errors::OutpostError;
use crate::text::{dec_rep, u64_to_string};

verus! {

/// One candidate network prefix: the common two-octet form, or the one
/// three-octet fallback at the end of the pool.
#[derive(Debug, Clone, Copy, PartialEq, Eq, Structural)]
pub enum Candidate {
    Two(u8, u8),
    Three(u8, u8, u8),
}

/// The fixed, ordered candidate pool.
pub open spec fn candidates() -> Seq<Candidate> {
    seq![
        Candidate::Two(172, 17),
        Candidate::Two(172, 18),
        Candidate::Two(172, 19),
        Candidate::Two(172, 20),
        Candidate::Two(172, 21),
        Candidate::Two(172, 22),
        Candidate::Two(172, 23),
        Candidate::Two(172, 24),
        Candidate::Two(172, 25),
        Candidate::Two(172, 26),
        Candidate::Two(172, 27),
        Candidate::Two(172, 28),
        Candidate::Two(172, 29),
        Candidate::Two(172, 30),
        Candidate::Two(172, 31),
        Candidate::Two(10, 99),
        Candidate::Two(10, 98),
        Candidate::Two(10, 97),
        Candidate::Three(192, 168, 99),
    ]
}

/// A candidate collides when its two-octet prefix equals the first two octets
/// of some host address. The three-octet fallback's prefix can never equal a
/// two-octet one, so it never collides.
pub open spec fn collides(c: Candidate, existing: Seq<(u8, u8)>) -> bool {
    match c {
        Candidate::Two(a, b) => exists|j: int|
            0 <= j < existing.len() && #[trigger] existing[j] == (a, b),
        Candidate::Three(..) => false,
    }
}

/// The index of the first collision-free candidate from `i` on; `-1` if none.
pub open spec fn first_free(existing: Seq<(u8, u8)>, i: int) -> int
    decreases candidates().len() - i,
{
    if i < 0 || i >= candidates().len() {
        -1
    } else if !collides(candidates()[i], existing) {
        i
    } else {
        first_free(existing, i + 1)
    }
}

/// The proxy's address inside a candidate network: `prefix.0.1`, with the
/// prefix extended by `.0` when it has only two octets.
pub open spec fn proxy_ip_text(c: Candidate) -> Seq<char> {
    match c {
        Candidate::Two(a, b) => dec_rep(a as nat) + "."@ + dec_rep(b as nat) + ".0.1"@,
        Candidate::Three(a, b, d) => dec_rep(a as nat) + "."@ + dec_rep(b as nat) + "."@ + dec_rep(
            d as nat,
        ) + ".1"@,
    }
}

/// The origin's address inside a candidate network: `prefix.0.2`.
pub open spec fn origin_ip_text(c: Candidate) -> Seq<char> {
    match c {
        Candidate::Two(a, b) => dec_rep(a as nat) + "."@ + dec_rep(b as nat) + ".0.2"@,
        Candidate::Three(a, b, d) => dec_rep(a as nat) + "."@ + dec_rep(b as nat) + "."@ + dec_rep(
            d as nat,
        ) + ".2"@,
    }
}

/// The chosen tunnel network: the proxy's and the origin's address in it.
#[derive(Debug, Clone)]
pub struct SubnetChoice {
    pub proxy_ip: String,
    pub origin_ip: String,
}

/// Whether a choice names the two addresses of some candidate.
pub open spec fn is_candidate_choice(ch: &SubnetChoice) -> bool {
    exists|i: int|
        0 <= i < candidates().len() && ch.proxy_ip@ == proxy_ip_text(#[trigger] candidates()[i])
            && ch.origin_ip@ == origin_ip_text(candidates()[i])
}

/// The candidate at one index of the pool.
fn candidate_at(i: usize) -> (r: Candidate)
    requires
        i < candidates().len(),
    ensures
        r == candidates()[i as int],
{
    match i {
        0usize => Candidate::Two(172, 17),
        1usize => Candidate::Two(172, 18),
        2usize => Candidate::Two(172, 19),
        3usize => Candidate::Two(172, 20),
        4usize => Candidate::Two(172, 21),
        5usize => Candidate::Two(172, 22),
        6usize => Candidate::Two(172, 23),
        7usize => Candidate::Two(172, 24),
        8usize => Candidate::Two(172, 25),
        9usize => Candidate::Two(172, 26),
        10usize => Candidate::Two(172, 27),
        11usize => Candidate::Two(172, 28),
        12usize => Candidate::Two(172, 29),
        13usize => Candidate::Two(172, 30),
        14usize => Candidate::Two(172, 31),
        15usize => Candidate::Two(10, 99),
        16usize => Candidate::Two(10, 98),
        17usize => Candidate::Two(10, 97),
        _ => Candidate::Three(192, 168, 99),
    }
}

/// Whether this candidate's prefix is bound on some interface.
fn collides_exec(c: Candidate, existing: &Vec<(u8, u8)>) -> (r: bool)
    ensures
        r == collides(c, existing@),
{
    match c {
        Candidate::Two(a, b) => {
            let mut j: usize = 0;
            while j < existing.len()
                invariant
                    c == Candidate::Two(a, b),
                    j <= existing@.len(),
                    forall|m: int| 0 <= m < j ==> #[trigger] existing@[m] != (a, b),
                decreases existing@.len() - j,
            {
                if existing[j].0 == a && existing[j].1 == b {
                    assert(existing@[j as int] == (a, b));
                    return true;
                }
                j = j + 1;
            }
            false
        },
        Candidate::Three(..) => false,
    }
}

/// Renders one octet.
fn octet(n: u8) -> (r: String)
    ensures
        r@ == dec_rep(n as nat),
{
    u64_to_string(n as u64)
}

fn candidate_proxy_ip(c: Candidate) -> (r: String)
    ensures
        r@ == proxy_ip_text(c),
{
    match c {
        Candidate::Two(a, b) => {
            let mut out = octet(a);
            out.append(".");
            out.append(octet(b).as_str());
            out.append(".0.1");
            out
        },
        Candidate::Three(a, b, d) => {
            let mut out = octet(a);
            out.append(".");
            out.append(octet(b).as_str());
            out.append(".");
            out.append(octet(d).as_str());
            out.append(".1");
            out
        },
    }
}

fn candidate_origin_ip(c: Candidate) -> (r: String)
    ensures
        r@ == origin_ip_text(c),
{
    match c {
        Candidate::Two(a, b) => {
            let mut out = octet(a);
            out.append(".");
            out.append(octet(b).as_str());
            out.append(".0.2");
            out
        },
        Candidate::Three(a, b, d) => {
            let mut out = octet(a);
            out.append(".");
            out.append(octet(b).as_str());
            out.append(".");
            out.append(octet(d).as_str());
            out.append(".2");
            out
        },
    }
}

/// Picks the first candidate network that no interface collides with.
///
/// Subnet disjointness: the returned pair belongs to the first collision-free
/// candidate, so a two-octet choice's prefix equals the first two octets of
/// no address in `existing`.
pub fn select_subnet(existing: &Vec<(u8, u8)>) -> (r: Result<SubnetChoice, OutpostError>)
    ensures
        r is Ok <==> first_free(existing@, 0) >= 0,
        r is Ok ==> {
            let i = first_free(existing@, 0);
            &&& 0 <= i < candidates().len()
            &&& !collides(candidates()[i], existing@)
            &&& forall|m: int| 0 <= m < i ==> collides(#[trigger] candidates()[m], existing@)
            &&& r->Ok_0.proxy_ip@ == proxy_ip_text(candidates()[i])
            &&& r->Ok_0.origin_ip@ == origin_ip_text(candidates()[i])
        },
        r is Err ==> r->Err_0 is NoSubnetAvailable,
{
    let mut i: usize = 0;
    while i < 19
        invariant
            i <= 19,
            candidates().len() == 19,
            first_free(existing@, 0) == first_free(existing@, i as int),
            forall|m: int| 0 <= m < i ==> collides(#[trigger] candidates()[m], existing@),
        decreases 19 - i,
    {
        let c = candidate_at(i);
        if !collides_exec(c, existing) {
            return Ok(
                SubnetChoice {
                    proxy_ip: candidate_proxy_ip(c),
                    origin_ip: candidate_origin_ip(c),
                },
            );
        }
        i = i + 1;
    }
    Err(OutpostError::NoSubnetAvailable)
}

/// The candidate pool always has a free entry: the three-octet fallback
/// collides with nothing, so selection never fails.
pub proof fn lemma_pool_never_exhausted(existing: Seq<(u8, u8)>)
    ensures
        first_free(existing, 0) >= 0,
{
    assert forall|i: int| 0 <= i < 19 implies first_free(existing, i) >= 0 by {
        lemma_first_free_from(existing, i);
    }
}

proof fn lemma_first_free_from(existing: Seq<(u8, u8)>, i: int)
    requires
        0 <= i < 19,
    ensures
        first_free(existing, i) >= 0,
    decreases 19 - i,
{
    assert(candidates().len() == 19);
    if i == 18 {
        assert(!collides(candidates()[18], existing));
    } else {
        if !collides(candidates()[i], existing) {
        } else {
            lemma_first_free_from(existing, i + 1);
        }
    }
}

/// Reads the first two octets of every IPv4 address bound to a host
/// interface.
///
/// Relies on nix's getifaddrs: it yields every interface address of the
/// host; the IPv4 ones are converted to their leading octet pair. The result
/// depends on the machine, so nothing is promised about the pairs; a failed
/// enumeration maps to the transient kind.
#[verifier::external_body]
fn interface_prefixes() -> (r: Result<Vec<(u8, u8)>, OutpostError>)
    ensures
        r is Err ==> r->Err_0 is NetworkTransient,
{
    match nix::ifaddrs::getifaddrs() {
        Ok(addrs) => {
            let mut v: Vec<(u8, u8)> = Vec::new();
            for ifaddr in addrs {
                if let Some(address) = ifaddr.address {
                    if let Some(sin) = address.as_sockaddr_in() {
                        let octets = sin.ip().octets();
                        v.push((octets[0], octets[1]));
                    }
                }
            }
            Ok(v)
        },
        Err(e) => Err(OutpostError::NetworkTransient(e.to_string())),
    }
}

/// Enumerates the host's interface prefixes and picks the first candidate
/// network that avoids all of them.
///
/// Whatever the machine reports, a success is one of the pool's candidates
/// with its `.1`/`.2` address pair, and the only failure is a failed
/// enumeration — the pool itself is never exhausted. The disjointness is
/// stated on `select_subnet`, which takes the enumeration as an argument.
pub fn find_available_subnet() -> (r: Result<SubnetChoice, OutpostError>)
    ensures
        r is Ok ==> is_candidate_choice(&r->Ok_0),
        r is Err ==> r->Err_0 is NetworkTransient,
{
    let existing = interface_prefixes()?;
    proof {
        lemma_pool_never_exhausted(existing@);
    }
    let choice = select_subnet(&existing)?;
    proof {
        let i = first_free(existing@, 0);
        assert(choice.proxy_ip@ == proxy_ip_text(candidates()[i]) && choice.origin_ip@
            == origin_ip_text(candidates()[i]));
    }
    Ok(choice)
}

} // verus!
