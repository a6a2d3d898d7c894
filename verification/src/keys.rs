//! Key material for the tunnel: triples of private, public and preshared
//! keys, assembled from the toolchain's raw output.

use vstd::prelude::*;
use vstd::string::StrSliceExecFns;

use crate::errors::OutpostError;
use crate::text::{trim_ws, trim_ascii_ws};

verus! {

/// One peer's key triple, trimmed and non-empty.
#[derive(Debug, Clone)]
pub struct WireGuardKeys {
    pub private_key: String,
    pub public_key: String,
    pub preshared_key: String,
}

/// The triple's invariant: nothing is empty.
pub open spec fn keys_wf(k: &WireGuardKeys) -> bool {
    k.private_key@.len() > 0 && k.public_key@.len() > 0 && k.preshared_key@.len() > 0
}

impl WireGuardKeys {
    /// Builds a triple from the toolchain's raw output lines, trimming the
    /// surrounding whitespace.
    ///
    /// Succeeds exactly when all three are non-empty once trimmed.
    pub fn assemble(private_key: &str, public_key: &str, preshared_key: &str) -> (r: Result<
        WireGuardKeys,
        OutpostError,
    >)
        ensures
            r is Ok <==> trim_ws(private_key@).len() > 0 && trim_ws(public_key@).len() > 0
                && trim_ws(preshared_key@).len() > 0,
            r is Ok ==> {
                let k = r->Ok_0;
                k.private_key@ == trim_ws(private_key@) && k.public_key@ == trim_ws(public_key@)
                    && k.preshared_key@ == trim_ws(preshared_key@) && keys_wf(&k)
            },
            r is Err ==> r->Err_0 is ToolchainFailed,
    {
        let private_key = trim_ascii_ws(private_key);
        let public_key = trim_ascii_ws(public_key);
        let preshared_key = trim_ascii_ws(preshared_key);
        if private_key.as_str().unicode_len() == 0 || public_key.as_str().unicode_len() == 0
            || preshared_key.as_str().unicode_len() == 0 {
            return Err(
                OutpostError::ToolchainFailed("the toolchain produced an empty key".to_owned()),
            );
        }
        Ok(WireGuardKeys { private_key, public_key, preshared_key })
    }
}

/// The two peers' key triples.
#[derive(Debug, Clone)]
pub struct WireGuardPair {
    pub origin: WireGuardKeys,
    pub proxy: WireGuardKeys,
}

/// The pair's invariant: both triples are well formed.
pub open spec fn pair_wf(p: &WireGuardPair) -> bool {
    keys_wf(&p.origin) && keys_wf(&p.proxy)
}

impl WireGuardPair {
    /// Pairs two independently generated triples, origin first.
    pub fn assemble(origin: WireGuardKeys, proxy: WireGuardKeys) -> (r: WireGuardPair)
        requires
            keys_wf(&origin),
            keys_wf(&proxy),
        ensures
            pair_wf(&r),
            r.origin == origin,
            r.proxy == proxy,
    {
        WireGuardPair { origin, proxy }
    }
}

} // verus!
