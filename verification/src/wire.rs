//! Framing the update request: the endpoint URL under the provider API and
//! the JSON body, as exact bytes.
//!
//! The body is a fixed five-field object — type, name, content, a TTL of
//! 60 seconds, and proxying off — with the two free-text fields escaped as
//! JSON string literals.

use vstd::prelude::*;
use crate::bytes::append_bytes;
use crate::plan::RecordKind;

verus! {

/// The URL path segment `/zones/`.
pub open spec fn zones_segment() -> Seq<u8> {
    seq![47u8, 122u8, 111u8, 110u8, 101u8, 115u8, 47u8]
}

/// The URL path segment `/dns_records/`.
pub open spec fn records_segment() -> Seq<u8> {
    seq![47u8, 100u8, 110u8, 115u8, 95u8, 114u8, 101u8, 99u8, 111u8, 114u8, 100u8, 115u8, 47u8]
}

/// The record type label sent in the body: `A` or `AAAA`.
pub open spec fn record_kind_label(kind: RecordKind) -> Seq<u8> {
    match kind {
        RecordKind::A => seq![65u8],
        RecordKind::AAAA => seq![65u8, 65u8, 65u8, 65u8],
    }
}

/// The label as bytes.
pub fn record_kind_bytes(kind: RecordKind) -> (r: Vec<u8>)
    ensures
        r@ == record_kind_label(kind),
{
    let mut out: Vec<u8> = Vec::new();
    out.push(65u8);
    match kind {
        RecordKind::A => {},
        RecordKind::AAAA => {
            out.push(65u8);
            out.push(65u8);
            out.push(65u8);
        },
    }
    proof {
        assert(out@ =~= record_kind_label(kind));
    }
    out
}

/// The update endpoint for one record:
/// `{base}/zones/{zone}/dns_records/{record}`.
pub fn update_url(base: &Vec<u8>, zone_id: &Vec<u8>, record_id: &Vec<u8>) -> (r: Vec<u8>)
    ensures
        r@ == base@ + zones_segment() + zone_id@ + records_segment() + record_id@,
{
    let mut out: Vec<u8> = Vec::new();
    append_bytes(&mut out, base.as_slice());
    out.push(47u8);
    out.push(122u8);
    out.push(111u8);
    out.push(110u8);
    out.push(101u8);
    out.push(115u8);
    out.push(47u8);
    append_bytes(&mut out, zone_id.as_slice());
    out.push(47u8);
    out.push(100u8);
    out.push(110u8);
    out.push(115u8);
    out.push(95u8);
    out.push(114u8);
    out.push(101u8);
    out.push(99u8);
    out.push(111u8);
    out.push(114u8);
    out.push(100u8);
    out.push(115u8);
    out.push(47u8);
    append_bytes(&mut out, record_id.as_slice());
    proof {
        assert(out@ =~= base@ + zones_segment() + zone_id@ + records_segment() + record_id@);
    }
    out
}

/// The lower-case hexadecimal digit for a value below sixteen.
pub open spec fn hex_digit(n: u8) -> u8 {
    if n < 10 {
        (48 + n) as u8
    } else {
        (87 + n) as u8
    }
}

/// The escape of one byte inside a JSON string literal: `"` and `\` get a
/// backslash, control bytes become `\u00xx`, everything else stands as is.
pub open spec fn escaped_byte(b: u8) -> Seq<u8> {
    if b == 34 {
        seq![92u8, 34u8]
    } else if b == 92 {
        seq![92u8, 92u8]
    } else if b < 32 {
        seq![92u8, 117u8, 48u8, 48u8, hex_digit(b / 16), hex_digit(b % 16)]
    } else {
        seq![b]
    }
}

/// `s` escaped byte by byte for inclusion in a JSON string literal.
pub open spec fn json_escaped(s: Seq<u8>) -> Seq<u8>
    decreases s.len(),
{
    if s.len() == 0 {
        Seq::empty()
    } else {
        json_escaped(s.drop_last()) + escaped_byte(s.last())
    }
}

/// The lower-case hexadecimal digit as a byte.
fn hex_digit_byte(n: u8) -> (r: u8)
    requires
        n < 16,
    ensures
        r == hex_digit(n),
{
    if n < 10 {
        48 + n
    } else {
        87 + n
    }
}

/// Escape `s` for inclusion in a JSON string literal.
pub fn json_escape(s: &Vec<u8>) -> (r: Vec<u8>)
    ensures
        r@ == json_escaped(s@),
{
    let mut out: Vec<u8> = Vec::new();
    let mut i: usize = 0;
    proof {
        assert(out@ =~= json_escaped(s@.subrange(0, 0)));
    }
    while i < s.len()
        invariant
            i <= s@.len(),
            out@ == json_escaped(s@.subrange(0, i as int)),
        decreases s@.len() - i,
    {
        let b = s[i];
        if b == 34 {
            out.push(92u8);
            out.push(34u8);
        } else if b == 92 {
            out.push(92u8);
            out.push(92u8);
        } else if b < 32 {
            out.push(92u8);
            out.push(117u8);
            out.push(48u8);
            out.push(48u8);
            out.push(hex_digit_byte(b / 16));
            out.push(hex_digit_byte(b % 16));
        } else {
            out.push(b);
        }
        proof {
            assert(s@.subrange(0, i as int + 1).drop_last() =~= s@.subrange(0, i as int));
            assert(s@.subrange(0, i as int + 1).last() == s@[i as int]);
            assert(out@ =~= json_escaped(s@.subrange(0, i as int)) + escaped_byte(s@[i as int]));
        }
        i = i + 1;
    }
    proof {
        assert(s@.subrange(0, s@.len() as int) =~= s@);
    }
    out
}

/// The opening of the body up to the type label: `{"type":"`.
pub open spec fn body_type_part() -> Seq<u8> {
    seq![123u8, 34u8, 116u8, 121u8, 112u8, 101u8, 34u8, 58u8, 34u8]
}

/// Between the type label and the name: `","name":"`.
pub open spec fn body_name_part() -> Seq<u8> {
    seq![34u8, 44u8, 34u8, 110u8, 97u8, 109u8, 101u8, 34u8, 58u8, 34u8]
}

/// Between the name and the content: `","content":"`.
pub open spec fn body_content_part() -> Seq<u8> {
    seq![34u8, 44u8, 34u8, 99u8, 111u8, 110u8, 116u8, 101u8, 110u8, 116u8, 34u8, 58u8, 34u8]
}

/// The fixed tail: `","ttl":60,"proxied":false}`.
pub open spec fn body_tail_part() -> Seq<u8> {
    seq![
        34u8,
        44u8,
        34u8,
        116u8,
        116u8,
        108u8,
        34u8,
        58u8,
        54u8,
        48u8,
        44u8,
        34u8,
        112u8,
        114u8,
        111u8,
        120u8,
        105u8,
        101u8,
        100u8,
        34u8,
        58u8,
        102u8,
        97u8,
        108u8,
        115u8,
        101u8,
        125u8,
    ]
}

/// The whole update body for one record.
pub open spec fn body_bytes(kind: RecordKind, domain: Seq<u8>, address: Seq<u8>) -> Seq<u8> {
    body_type_part() + record_kind_label(kind) + body_name_part() + json_escaped(domain)
        + body_content_part() + json_escaped(address) + body_tail_part()
}

/// Append `{"type":"` to `out`.
fn push_body_type_part(out: &mut Vec<u8>)
    ensures
        final(out)@ == old(out)@ + body_type_part(),
{
    out.push(123u8);
    out.push(34u8);
    out.push(116u8);
    out.push(121u8);
    out.push(112u8);
    out.push(101u8);
    out.push(34u8);
    out.push(58u8);
    out.push(34u8);
    proof {
        assert(out@ =~= old(out)@ + body_type_part());
    }
}

/// Append `","name":"` to `out`.
fn push_body_name_part(out: &mut Vec<u8>)
    ensures
        final(out)@ == old(out)@ + body_name_part(),
{
    out.push(34u8);
    out.push(44u8);
    out.push(34u8);
    out.push(110u8);
    out.push(97u8);
    out.push(109u8);
    out.push(101u8);
    out.push(34u8);
    out.push(58u8);
    out.push(34u8);
    proof {
        assert(out@ =~= old(out)@ + body_name_part());
    }
}

/// Append `","content":"` to `out`.
fn push_body_content_part(out: &mut Vec<u8>)
    ensures
        final(out)@ == old(out)@ + body_content_part(),
{
    out.push(34u8);
    out.push(44u8);
    out.push(34u8);
    out.push(99u8);
    out.push(111u8);
    out.push(110u8);
    out.push(116u8);
    out.push(101u8);
    out.push(110u8);
    out.push(116u8);
    out.push(34u8);
    out.push(58u8);
    out.push(34u8);
    proof {
        assert(out@ =~= old(out)@ + body_content_part());
    }
}

/// Append `","ttl":60,"proxied":false}` to `out`.
fn push_body_tail_part(out: &mut Vec<u8>)
    ensures
        final(out)@ == old(out)@ + body_tail_part(),
{
    out.push(34u8);
    out.push(44u8);
    out.push(34u8);
    out.push(116u8);
    out.push(116u8);
    out.push(108u8);
    out.push(34u8);
    out.push(58u8);
    out.push(54u8);
    out.push(48u8);
    out.push(44u8);
    out.push(34u8);
    out.push(112u8);
    out.push(114u8);
    out.push(111u8);
    out.push(120u8);
    out.push(105u8);
    out.push(101u8);
    out.push(100u8);
    out.push(34u8);
    out.push(58u8);
    out.push(102u8);
    out.push(97u8);
    out.push(108u8);
    out.push(115u8);
    out.push(101u8);
    out.push(125u8);
    proof {
        assert(out@ =~= old(out)@ + body_tail_part());
    }
}

/// Frame the JSON body of one update: the record type, the record name,
/// the new address, a TTL of 60 seconds, proxying off. The name and the
/// address are escaped as JSON string literals.
pub fn update_body(kind: RecordKind, domain: &Vec<u8>, address: &Vec<u8>) -> (r: Vec<u8>)
    ensures
        r@ == body_bytes(kind, domain@, address@),
{
    let mut out: Vec<u8> = Vec::new();
    push_body_type_part(&mut out);
    let label = record_kind_bytes(kind);
    append_bytes(&mut out, label.as_slice());
    push_body_name_part(&mut out);
    let escaped_domain = json_escape(domain);
    append_bytes(&mut out, escaped_domain.as_slice());
    push_body_content_part(&mut out);
    let escaped_address = json_escape(address);
    append_bytes(&mut out, escaped_address.as_slice());
    push_body_tail_part(&mut out);
    proof {
        assert(out@ =~= body_bytes(kind, domain@, address@));
    }
    out
}

} // verus!
