//! The run plan: combining the two resolved addresses into the single
//! cached comparison unit, checking it against the cache, and deciding
//! which record updates the run issues.

use vstd::prelude::*;
use crate::bytes::append_bytes;
use crate::bytes::bytes_eq;
use crate::bytes::trim_ascii;
use crate::bytes::trimmed;
use crate::config::Config;
use crate::config::is_skip_id;
use crate::config::record_id_is_skip;

verus! {

/// An unresolved family contributes an empty string to the combined state.
pub open spec fn address_or_empty(addr: Option<Seq<u8>>) -> Seq<u8> {
    match addr {
        Some(a) => a,
        None => Seq::empty(),
    }
}

/// The unit of caching and comparison: the IPv4 text, a `|`, the IPv6 text,
/// with an empty side for an unresolved family.
pub open spec fn combined(v4: Option<Seq<u8>>, v6: Option<Seq<u8>>) -> Seq<u8> {
    address_or_empty(v4) + seq![124u8] + address_or_empty(v6)
}

/// A run is short-circuited when the cached content, trimmed of surrounding
/// whitespace, equals the freshly combined state exactly; an absent cache
/// never matches.
pub open spec fn cache_hit(cache: Option<Seq<u8>>, fresh: Seq<u8>) -> bool {
    match cache {
        Some(c) => trimmed(c) == fresh,
        None => false,
    }
}

/// An update for a family is attempted only if its record identifier is
/// configured (neither empty nor the sentinel) and its address resolved to
/// non-empty text this run.
pub open spec fn family_enabled(id: Seq<u8>, addr: Option<Seq<u8>>) -> bool {
    &&& !is_skip_id(id)
    &&& match addr {
        Some(a) => a.len() > 0,
        None => false,
    }
}

/// The DNS record type of an address family.
#[derive(Clone, Copy, Debug, PartialEq, Eq, Structural)]
pub enum RecordKind {
    /// An IPv4 record.
    A,
    /// An IPv6 record.
    AAAA,
}

/// One update the run has decided to issue.
#[derive(Debug, PartialEq, Eq)]
pub struct UpdateAction {
    /// The record to rewrite.
    pub record_id: Vec<u8>,
    /// The record type sent in the body.
    pub kind: RecordKind,
    /// The freshly resolved address the record is set to.
    pub address: Vec<u8>,
}

/// What a run does after resolution: nothing, because the cache matched, or
/// issue the listed updates and persist the new state.
#[derive(Debug, PartialEq, Eq)]
pub enum RunPlan {
    /// The freshly combined state equals the cached one: no update call is
    /// made and the cache is not rewritten.
    CacheHit,
    /// The state changed: issue each action independently, best effort, and
    /// write `new_state` to the cache whatever their outcomes.
    Proceed { actions: Vec<UpdateAction>, new_state: Vec<u8> },
}

/// `a` is the action that updates the record `id` of type `kind` to the
/// resolved address `addr`.
pub open spec fn action_for(
    a: UpdateAction,
    id: Seq<u8>,
    kind: RecordKind,
    addr: Option<Seq<u8>>,
) -> bool {
    &&& a.record_id@ == id
    &&& a.kind == kind
    &&& a.address@ == address_or_empty(addr)
}

/// Exactly the enabled families get an action, IPv4 first, then IPv6.
pub open spec fn planned_actions(
    actions: Seq<UpdateAction>,
    cfg: Config,
    v4: Option<Seq<u8>>,
    v6: Option<Seq<u8>>,
) -> bool {
    let a_on = family_enabled(cfg.record_a_id@, v4);
    let aaaa_on = family_enabled(cfg.record_aaaa_id@, v6);
    if a_on && aaaa_on {
        &&& actions.len() == 2
        &&& action_for(actions[0], cfg.record_a_id@, RecordKind::A, v4)
        &&& action_for(actions[1], cfg.record_aaaa_id@, RecordKind::AAAA, v6)
    } else if a_on {
        &&& actions.len() == 1
        &&& action_for(actions[0], cfg.record_a_id@, RecordKind::A, v4)
    } else if aaaa_on {
        &&& actions.len() == 1
        &&& action_for(actions[0], cfg.record_aaaa_id@, RecordKind::AAAA, v6)
    } else {
        actions.len() == 0
    }
}

/// Build the combined state from the two resolved addresses.
pub fn combined_state(v4: &Option<Vec<u8>>, v6: &Option<Vec<u8>>) -> (r: Vec<u8>)
    ensures
        r@ == combined(v4.deep_view(), v6.deep_view()),
{
    let mut out: Vec<u8> = Vec::new();
    match v4 {
        Some(a) => {
            append_bytes(&mut out, a.as_slice());
            proof {
                assert(a.deep_view() =~= a@);
            }
        },
        None => {},
    }
    out.push(124);
    match v6 {
        Some(a) => {
            append_bytes(&mut out, a.as_slice());
            proof {
                assert(a.deep_view() =~= a@);
            }
        },
        None => {},
    }
    proof {
        assert(out@ =~= combined(v4.deep_view(), v6.deep_view()));
    }
    out
}

/// Compare the cached content, if any, against the freshly combined state.
pub fn cache_matches(cache: &Option<Vec<u8>>, fresh: &Vec<u8>) -> (r: bool)
    ensures
        r == cache_hit(cache.deep_view(), fresh@),
{
    match cache {
        Some(c) => {
            proof {
                assert(c.deep_view() =~= c@);
            }
            let t = trim_ascii(c);
            bytes_eq(&t, fresh)
        },
        None => false,
    }
}

/// Whether an update for a family will be attempted.
pub fn family_update_enabled(id: &Vec<u8>, addr: &Option<Vec<u8>>) -> (r: bool)
    ensures
        r == family_enabled(id@, addr.deep_view()),
{
    if record_id_is_skip(id) {
        return false;
    }
    match addr {
        Some(a) => {
            proof {
                assert(a.deep_view() =~= a@);
            }
            a.len() > 0
        },
        None => false,
    }
}

/// Decide a whole run after resolution: short-circuit on a cache hit, else
/// list the update each enabled family gets (IPv4 first) together with the
/// new state to persist afterwards.
pub fn plan_updates(
    cfg: &Config,
    v4: &Option<Vec<u8>>,
    v6: &Option<Vec<u8>>,
    cache: &Option<Vec<u8>>,
) -> (plan: RunPlan)
    ensures
        (plan is CacheHit) == cache_hit(cache.deep_view(), combined(v4.deep_view(), v6.deep_view())),
        plan matches RunPlan::Proceed { actions, new_state } ==> {
            &&& new_state@ == combined(v4.deep_view(), v6.deep_view())
            &&& planned_actions(actions@, *cfg, v4.deep_view(), v6.deep_view())
        },
{
    let fresh = combined_state(v4, v6);
    if cache_matches(cache, &fresh) {
        return RunPlan::CacheHit;
    }
    let mut actions: Vec<UpdateAction> = Vec::new();
    if family_update_enabled(&cfg.record_a_id, v4) {
        match v4 {
            Some(a) => {
                let act = UpdateAction {
                    record_id: cfg.record_a_id.clone(),
                    kind: RecordKind::A,
                    address: a.clone(),
                };
                proof {
                    assert(act.record_id@ =~= cfg.record_a_id@);
                    assert(act.address@ =~= a@);
                    assert(a.deep_view() =~= a@);
                }
                actions.push(act);
            },
            None => {
                proof {
                    assert(false);
                }
            },
        }
    }
    if family_update_enabled(&cfg.record_aaaa_id, v6) {
        match v6 {
            Some(a) => {
                let act = UpdateAction {
                    record_id: cfg.record_aaaa_id.clone(),
                    kind: RecordKind::AAAA,
                    address: a.clone(),
                };
                proof {
                    assert(act.record_id@ =~= cfg.record_aaaa_id@);
                    assert(act.address@ =~= a@);
                    assert(a.deep_view() =~= a@);
                }
                actions.push(act);
            },
            None => {
                proof {
                    assert(false);
                }
            },
        }
    }
    RunPlan::Proceed { actions, new_state: fresh }
}

} // verus!
