//! Address resolution.
//!
//! Public addresses come from ordered provider fallback: each provider's
//! response text is trimmed and accepted only if it contains the delimiter
//! characteristic of the requested family (`:` for IPv6, `.` for IPv4),
//! which guards against HTML error pages and wrong-family payloads. IPv6
//! is preferentially taken from a local interface holding a global-unicast
//! address (2000::/3); the provider fallback is only for when no interface
//! qualifies.

use vstd::prelude::*;
use crate::bytes::bytes_eq;
use crate::bytes::contains_byte;
use crate::bytes::trim_ascii;
use crate::bytes::trimmed;

verus! {

/// The byte whose presence marks a plausible address of the requested
/// family: `:` (58) for IPv6, `.` (46) for IPv4.
pub open spec fn family_delimiter(want_v6: bool) -> u8 {
    if want_v6 {
        58u8
    } else {
        46u8
    }
}

/// What the client accepts from one provider: the response text, trimmed,
/// if it contains the family's delimiter; otherwise nothing.
pub open spec fn accepted_address(text: Seq<u8>, want_v6: bool) -> Option<Seq<u8>> {
    if trimmed(text).contains(family_delimiter(want_v6)) {
        Some(trimmed(text))
    } else {
        None
    }
}

/// The first accepted response, in provider order. An entry of `None`
/// stands for a transport failure of that provider; an entry whose text is
/// not accepted is passed over the same way.
pub open spec fn resolved_address(responses: Seq<Option<Seq<u8>>>, want_v6: bool) -> Option<
    Seq<u8>,
>
    decreases responses.len(),
{
    if responses.len() == 0 {
        None
    } else {
        let rest = resolved_address(responses.drop_first(), want_v6);
        match responses[0] {
            Some(text) => match accepted_address(text, want_v6) {
                Some(ip) => Some(ip),
                None => rest,
            },
            None => rest,
        }
    }
}

/// Validate one provider response: trim it and accept it only if it
/// contains the requested family's delimiter.
pub fn accept_provider_response(text: &Vec<u8>, want_v6: bool) -> (r: Option<Vec<u8>>)
    ensures
        r.deep_view() == accepted_address(text@, want_v6),
{
    let ip = trim_ascii(text);
    let delimiter: u8 = if want_v6 {
        58
    } else {
        46
    };
    if contains_byte(&ip, delimiter) {
        proof {
            assert(ip.deep_view() =~= ip@);
        }
        Some(ip)
    } else {
        None
    }
}

/// Run the ordered fallback over a list of provider responses and return
/// the first accepted address, if any.
pub fn resolve_from_responses(responses: &Vec<Option<Vec<u8>>>, want_v6: bool) -> (r: Option<
    Vec<u8>,
>)
    ensures
        r.deep_view() == resolved_address(responses.deep_view(), want_v6),
{
    let ghost all = responses.deep_view();
    proof {
        assert(all.skip(0) =~= all);
    }
    let mut i: usize = 0;
    while i < responses.len()
        invariant
            i <= responses@.len(),
            all == responses.deep_view(),
            resolved_address(all, want_v6) == resolved_address(all.skip(i as int), want_v6),
        decreases responses@.len() - i,
    {
        proof {
            assert(all.skip(i as int)[0] == all[i as int]);
            assert(all.skip(i as int).drop_first() =~= all.skip(i as int + 1));
        }
        match &responses[i] {
            Some(text) => {
                proof {
                    assert(all[i as int] == Some(text.deep_view()));
                    assert(text.deep_view() =~= text@);
                }
                if let Some(ip) = accept_provider_response(text, want_v6) {
                    return Some(ip);
                }
            },
            None => {},
        }
        i = i + 1;
    }
    proof {
        assert(all.skip(i as int) =~= Seq::<Option<Seq<u8>>>::empty());
    }
    None
}

/// One local network interface as the resolution logic sees it: its name,
/// whether it is a loopback interface, and its address. Of an IPv6 address
/// the logic reads the leading 16-bit segment (for the global-unicast test)
/// and keeps the canonical address text; of an IPv4 address it reads
/// nothing, so none is carried.
pub enum InterfaceAddress {
    /// An IPv4 address; never a candidate for local IPv6 resolution.
    V4,
    /// An IPv6 address: its leading 16-bit segment and its canonical text.
    V6 { segment0: u16, text: Vec<u8> },
}

/// A local network interface.
pub struct NetInterface {
    /// The interface's system name.
    pub name: Vec<u8>,
    /// Whether the interface is a loopback interface.
    pub loopback: bool,
    /// The interface's address.
    pub address: InterfaceAddress,
}

/// The global-unicast range 2000::/3: the top three bits of the leading
/// segment are 001.
pub open spec fn is_global_unicast(segment0: u16) -> bool {
    segment0 & 0xe000 == 0x2000
}

/// The mask test is exactly "the top three bits of the leading segment
/// are 001".
pub proof fn lemma_global_unicast_top_bits(segment0: u16)
    ensures
        is_global_unicast(segment0) <==> segment0 >> 13 == 1,
{
    assert((segment0 & 0xe000 == 0x2000) <==> segment0 >> 13 == 1) by (bit_vector);
}

/// Whether the leading segment of an IPv6 address lies in 2000::/3.
pub fn global_unicast_segment(segment0: u16) -> (r: bool)
    ensures
        r == is_global_unicast(segment0),
{
    segment0 & 0xe000 == 0x2000
}

/// Whether `iface` can serve as the local IPv6 answer under `filter`: the
/// name matches the filter when one is given, the interface is not a
/// loopback interface, and it holds a global-unicast IPv6 address.
pub open spec fn iface_qualifies(iface: NetInterface, filter: Option<Seq<u8>>) -> bool {
    &&& match filter {
        Some(name) => iface.name@ == name,
        None => true,
    }
    &&& !iface.loopback
    &&& match iface.address {
        InterfaceAddress::V6 { segment0, .. } => is_global_unicast(segment0),
        InterfaceAddress::V4 => false,
    }
}

/// The address text a qualifying interface contributes.
pub open spec fn iface_address_text(iface: NetInterface) -> Seq<u8> {
    match iface.address {
        InterfaceAddress::V6 { text, .. } => text@,
        InterfaceAddress::V4 => Seq::empty(),
    }
}

/// The first qualifying interface's address, in enumeration order.
pub open spec fn selected_local_ipv6(ifaces: Seq<NetInterface>, filter: Option<Seq<u8>>) -> Option<
    Seq<u8>,
>
    decreases ifaces.len(),
{
    if ifaces.len() == 0 {
        None
    } else if iface_qualifies(ifaces[0], filter) {
        Some(iface_address_text(ifaces[0]))
    } else {
        selected_local_ipv6(ifaces.drop_first(), filter)
    }
}

/// Walk the enumerated interfaces and return the address text of the first
/// one that qualifies: name matching the filter (if any), not loopback,
/// IPv6 with its leading segment in 2000::/3.
pub fn select_local_ipv6(ifaces: &Vec<NetInterface>, filter: &Option<Vec<u8>>) -> (r: Option<
    Vec<u8>,
>)
    ensures
        r.deep_view() == selected_local_ipv6(ifaces@, filter.deep_view()),
{
    proof {
        assert(ifaces@.skip(0) =~= ifaces@);
    }
    let mut i: usize = 0;
    while i < ifaces.len()
        invariant
            i <= ifaces@.len(),
            selected_local_ipv6(ifaces@, filter.deep_view()) == selected_local_ipv6(
                ifaces@.skip(i as int),
                filter.deep_view(),
            ),
        decreases ifaces@.len() - i,
    {
        proof {
            assert(ifaces@.skip(i as int)[0] == ifaces@[i as int]);
            assert(ifaces@.skip(i as int).drop_first() =~= ifaces@.skip(i as int + 1));
        }
        let iface = &ifaces[i];
        let name_ok = match filter {
            Some(name) => bytes_eq(&iface.name, name),
            None => true,
        };
        proof {
            if filter is Some {
                assert(filter.deep_view() == Some(filter->0.deep_view()));
                assert(filter->0.deep_view() =~= filter->0@);
            }
        }
        if name_ok && !iface.loopback {
            match &iface.address {
                InterfaceAddress::V6 { segment0, text } => {
                    if global_unicast_segment(*segment0) {
                        let ip = text.clone();
                        proof {
                            assert(ip@ =~= text@);
                            assert(ip.deep_view() =~= ip@);
                        }
                        return Some(ip);
                    }
                },
                InterfaceAddress::V4 => {},
            }
        }
        i = i + 1;
    }
    proof {
        assert(ifaces@.skip(i as int) =~= Seq::<NetInterface>::empty());
    }
    None
}

} // verus!
