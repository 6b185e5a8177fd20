//! The guarantees the client gives across its functions, each stated and
//! proved over the same spec functions the executable contracts use.

use vstd::prelude::*;
use crate::bytes::no_outer_space;
use crate::bytes::trimmed;
use crate::bytes::lemma_trimmed_no_outer_space;
use crate::bytes::lemma_trimmed_of_clean;
use crate::config::Config;
use crate::config::is_skip_id;
use crate::plan::UpdateAction;
use crate::plan::RecordKind;
use crate::plan::action_for;
use crate::plan::address_or_empty;
use crate::plan::cache_hit;
use crate::plan::combined;
use crate::plan::family_enabled;
use crate::plan::planned_actions;
use crate::resolve::NetInterface;
use crate::resolve::family_delimiter;
use crate::resolve::iface_address_text;
use crate::resolve::iface_qualifies;
use crate::resolve::resolved_address;
use crate::resolve::selected_local_ipv6;

verus! {

/// With both record identifiers set to the skip sentinel, a run issues no
/// update call, whatever the resolved addresses and the cache hold.
pub proof fn lemma_skip_sentinels_no_updates(
    actions: Seq<UpdateAction>,
    cfg: Config,
    v4: Option<Seq<u8>>,
    v6: Option<Seq<u8>>,
)
    requires
        is_skip_id(cfg.record_a_id@),
        is_skip_id(cfg.record_aaaa_id@),
        planned_actions(actions, cfg, v4, v6),
    ensures
        actions.len() == 0,
{
}

/// If every provider for a family failed outright or returned text without
/// the family's delimiter, ordered fallback resolves that family to
/// nothing.
pub proof fn lemma_all_providers_rejected(responses: Seq<Option<Seq<u8>>>, want_v6: bool)
    requires
        forall|i: int|
            0 <= i < responses.len() ==> match #[trigger] responses[i] {
                Some(text) => !trimmed(text).contains(family_delimiter(want_v6)),
                None => true,
            },
    ensures
        resolved_address(responses, want_v6) is None,
    decreases responses.len(),
{
    if responses.len() > 0 {
        assert forall|i: int|
            0 <= i < responses.drop_first().len() implies match #[trigger] responses.drop_first()[
            i
        ] {
            Some(text) => !trimmed(text).contains(family_delimiter(want_v6)),
            None => true,
        } by {
            assert(responses.drop_first()[i] == responses[i + 1]);
        }
        lemma_all_providers_rejected(responses.drop_first(), want_v6);
    }
}

/// An unresolved family gets no action: with no IPv4 address no planned
/// action touches the A record, and likewise for IPv6 and the AAAA record.
pub proof fn lemma_unresolved_family_not_updated(
    actions: Seq<UpdateAction>,
    cfg: Config,
    v4: Option<Seq<u8>>,
    v6: Option<Seq<u8>>,
)
    requires
        planned_actions(actions, cfg, v4, v6),
    ensures
        v4 is None ==> forall|i: int|
            0 <= i < actions.len() ==> (#[trigger] actions[i]).kind != RecordKind::A,
        v6 is None ==> forall|i: int|
            0 <= i < actions.len() ==> (#[trigger] actions[i]).kind != RecordKind::AAAA,
{
}

/// Whatever ordered fallback resolves is the trimmed text of some accepted
/// response: non-empty, free of outer whitespace, and containing the
/// family's delimiter.
pub proof fn lemma_resolved_address_clean(responses: Seq<Option<Seq<u8>>>, want_v6: bool)
    ensures
        match resolved_address(responses, want_v6) {
            Some(ip) => no_outer_space(ip) && ip.contains(family_delimiter(want_v6)) && ip.len()
                > 0,
            None => true,
        },
    decreases responses.len(),
{
    if responses.len() > 0 {
        lemma_resolved_address_clean(responses.drop_first(), want_v6);
        match responses[0] {
            Some(text) => {
                lemma_trimmed_no_outer_space(text);
            },
            None => {},
        }
    }
}

/// Whatever local resolution selects came from a qualifying interface: one
/// that passes the name filter, is not a loopback interface, and holds an
/// IPv6 address whose leading segment lies in 2000::/3.
pub proof fn lemma_selected_from_qualifying_interface(
    ifaces: Seq<NetInterface>,
    filter: Option<Seq<u8>>,
)
    ensures
        match selected_local_ipv6(ifaces, filter) {
            Some(text) => exists|i: int|
                0 <= i < ifaces.len() && #[trigger] iface_qualifies(ifaces[i], filter)
                    && iface_address_text(ifaces[i]) == text,
            None => true,
        },
    decreases ifaces.len(),
{
    if ifaces.len() > 0 {
        if iface_qualifies(ifaces[0], filter) {
            assert(iface_qualifies(ifaces[0], filter));
        } else {
            lemma_selected_from_qualifying_interface(ifaces.drop_first(), filter);
            match selected_local_ipv6(ifaces.drop_first(), filter) {
                Some(text) => {
                    let j = choose|j: int|
                        0 <= j < ifaces.drop_first().len() && #[trigger] iface_qualifies(
                            ifaces.drop_first()[j],
                            filter,
                        ) && iface_address_text(ifaces.drop_first()[j]) == text;
                    assert(ifaces.drop_first()[j] == ifaces[j + 1]);
                    assert(iface_qualifies(ifaces[j + 1], filter));
                },
                None => {},
            }
        }
    }
}

/// When the combined state differs from the cached one, both enabled
/// families are attempted: the plan carries one action for each, and the
/// new state stands in the plan independently of either action's outcome.
pub proof fn lemma_changed_state_both_attempted(
    actions: Seq<UpdateAction>,
    cfg: Config,
    v4: Option<Seq<u8>>,
    v6: Option<Seq<u8>>,
)
    requires
        planned_actions(actions, cfg, v4, v6),
        family_enabled(cfg.record_a_id@, v4),
        family_enabled(cfg.record_aaaa_id@, v6),
    ensures
        actions.len() == 2,
        action_for(actions[0], cfg.record_a_id@, RecordKind::A, v4),
        action_for(actions[1], cfg.record_aaaa_id@, RecordKind::AAAA, v6),
{
}

/// Writing the combined state to the cache and reloading it immediately
/// compares equal: a state built from addresses without outer whitespace
/// is its own trim, so the following run short-circuits.
pub proof fn lemma_cache_round_trip(v4: Option<Seq<u8>>, v6: Option<Seq<u8>>)
    requires
        no_outer_space(address_or_empty(v4)),
        no_outer_space(address_or_empty(v6)),
    ensures
        cache_hit(Some(combined(v4, v6)), combined(v4, v6)),
{
    let a = address_or_empty(v4);
    let b = address_or_empty(v6);
    let c = combined(v4, v6);
    if a.len() > 0 {
        assert(c[0] == a[0]);
    } else {
        assert(c[0] == 124u8);
    }
    if b.len() > 0 {
        assert(c[c.len() - 1] == b[b.len() - 1]);
    } else {
        assert(c[c.len() - 1] == 124u8);
    }
    lemma_trimmed_of_clean(c);
}

} // verus!
