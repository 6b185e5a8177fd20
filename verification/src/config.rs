//! Run configuration: the credential, zone and record identifiers, record
//! name, and the optional interface filter, loaded once per run and shared
//! read-only by everything that follows.

use vstd::prelude::*;

verus! {

/// The literal text `null`: a configured record identifier equal to it
/// disables its address family, exactly as an empty identifier does.
pub open spec fn skip_sentinel() -> Seq<u8> {
    seq![110u8, 117u8, 108u8, 108u8]
}

/// A record identifier that is empty or the sentinel means "this family has
/// no managed record; skip it".
pub open spec fn is_skip_id(id: Seq<u8>) -> bool {
    id.len() == 0 || id == skip_sentinel()
}

/// Everything a run needs to know, immutable once built.
pub struct Config {
    /// Bearer credential presented to the update API.
    pub api_token: Vec<u8>,
    /// Identifier of the zone both records live in.
    pub zone_id: Vec<u8>,
    /// Identifier of the A (IPv4) record; empty or `null` disables IPv4 updates.
    pub record_a_id: Vec<u8>,
    /// Identifier of the AAAA (IPv6) record; empty or `null` disables IPv6 updates.
    pub record_aaaa_id: Vec<u8>,
    /// Fully qualified name the records carry.
    pub domain: Vec<u8>,
    /// If set, only the interface with this name is considered when looking
    /// for a local IPv6 address.
    pub interface_name: Option<Vec<u8>>,
}

/// Whether a configured record identifier disables its family.
pub fn record_id_is_skip(id: &Vec<u8>) -> (r: bool)
    ensures
        r == is_skip_id(id@),
{
    if id.len() == 0 {
        return true;
    }
    if id.len() != 4 {
        return false;
    }
    let r = id[0] == 110 && id[1] == 117 && id[2] == 108 && id[3] == 108;
    proof {
        if r {
            assert(id@ =~= skip_sentinel());
        }
    }
    r
}

} // verus!
