//! Presentation of the audit record. Ceremony participants compare printed
//! output character for character, so the exact layout — lower-case hex, the
//! hash in four-byte sections, four sections to a tab-led line — is part of
//! the contract, not a cosmetic choice.

use vstd::prelude::*;

use crate::hex::encode_hex;
use crate::hex::encoded_hex;

verus! {

/// The beacon line: a fixed caption, the beacon's 32 bytes in lower-case hex,
/// and a line break.
pub open spec fn beacon_report(seed: Seq<u8>) -> Seq<char> {
    "Final result of beacon: "@ + encoded_hex(seed) + seq!['\n']
}

/// One four-byte section of the hash, rendered and followed by a space.
pub open spec fn hash_section(h: Seq<u8>, i: int) -> Seq<char> {
    encoded_hex(h.subrange(i, i + 4)) + seq![' ']
}

/// One report line: a tab, then four sections of four bytes each, then a line
/// break.
pub open spec fn hash_line(h: Seq<u8>, i: int) -> Seq<char> {
    seq!['\t'] + hash_section(h, i) + hash_section(h, i + 4) + hash_section(h, i + 8)
        + hash_section(h, i + 12) + seq!['\n']
}

/// The grouped rendering of the 64-byte binding hash: four lines of sixteen
/// bytes each.
pub open spec fn hash_report(h: Seq<u8>) -> Seq<char> {
    hash_line(h, 0) + hash_line(h, 16) + hash_line(h, 32) + hash_line(h, 48)
}

/// Render the beacon line for the audit record.
pub fn render_beacon_report(seed: &[u8]) -> (r: String)
    ensures
        r@ == beacon_report(seed@),
{
    let mut r = String::from_str("Final result of beacon: ");
    let hex = encode_hex(seed);
    r.append(hex.as_str());
    r.append("\n");
    proof {
        reveal_strlit("\n");
        assert(r@ =~= beacon_report(seed@));
    }
    r
}

/// Render one four-byte section of the hash, followed by a space.
fn render_hash_section(h: &[u8], i: usize) -> (r: String)
    requires
        h@.len() == 64,
        i + 4 <= 64,
    ensures
        r@ == hash_section(h@, i as int),
{
    let section = vstd::slice::slice_subrange(h, i, i + 4);
    let mut r = encode_hex(section);
    r.append(" ");
    proof {
        reveal_strlit(" ");
        assert(r@ =~= hash_section(h@, i as int));
    }
    r
}

/// Render one line of the hash report: a tab and four sections.
fn render_hash_line(h: &[u8], i: usize) -> (r: String)
    requires
        h@.len() == 64,
        i + 16 <= 64,
    ensures
        r@ == hash_line(h@, i as int),
{
    let mut r = String::from_str("\t");
    let s0 = render_hash_section(h, i);
    let s1 = render_hash_section(h, i + 4);
    let s2 = render_hash_section(h, i + 8);
    let s3 = render_hash_section(h, i + 12);
    r.append(s0.as_str());
    r.append(s1.as_str());
    r.append(s2.as_str());
    r.append(s3.as_str());
    r.append("\n");
    proof {
        reveal_strlit("\t");
        reveal_strlit("\n");
        assert(r@ =~= hash_line(h@, i as int));
    }
    r
}

/// Render the grouped hash report for the audit record.
pub fn render_hash_report(h: &[u8]) -> (r: String)
    requires
        h@.len() == 64,
    ensures
        r@ == hash_report(h@),
{
    let mut r = render_hash_line(h, 0);
    let l1 = render_hash_line(h, 16);
    let l2 = render_hash_line(h, 32);
    let l3 = render_hash_line(h, 48);
    r.append(l1.as_str());
    r.append(l2.as_str());
    r.append(l3.as_str());
    proof {
        assert(r@ =~= hash_report(h@));
    }
    r
}

} // verus!
