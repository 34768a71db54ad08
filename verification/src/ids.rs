//! Random identifiers and the host name, as the audit and connection records carry them.

use vstd::prelude::*;
use crate::text::{hex_fixed, push_char, write_hex_fixed};

verus! {

/// The hyphenated lowercase text of a UUID given as a 128-bit big-endian value
/// (what `Uuid`'s `Display` prints): 8-4-4-4-12 hexadecimal digits.
pub open spec fn uuid_text(v: nat) -> Seq<char> {
    hex_fixed(v / 0x1_0000_0000_0000_0000_0000_0000, 8) + seq!['-'] + hex_fixed(
        v / 0x1_0000_0000_0000_0000_0000,
        4,
    ) + seq!['-'] + hex_fixed(v / 0x1_0000_0000_0000_0000, 4) + seq!['-'] + hex_fixed(
        v / 0x1_0000_0000_0000,
        4,
    ) + seq!['-'] + hex_fixed(v, 12)
}

/// Whether a 128-bit value carries the version-4 and RFC 4122 variant bits.
pub open spec fn is_v4_uuid(v: u128) -> bool {
    &&& (v / 0x1000_0000_0000_0000_0000) % 16 == 4
    &&& (v / 0x4000_0000_0000_0000) % 4 == 2
}

/// A fresh random version-4 UUID as its 128-bit value (`Uuid::new_v4().as_u128()`).
/// uuid masks in the version and variant bits; the other bits are random.
#[verifier::external_body]
pub(crate) fn random_uuid() -> (v: u128)
    ensures
        is_v4_uuid(v),
{
    uuid::Uuid::new_v4().as_u128()
}

/// The hyphenated lowercase text of a UUID value.
pub fn uuid_to_string(v: u128) -> (s: String)
    ensures
        s@ == uuid_text(v as nat),
{
    let mut s = String::new();
    write_hex_fixed(&mut s, v / 0x1_0000_0000_0000_0000_0000_0000u128, 8);
    push_char(&mut s, '-');
    write_hex_fixed(&mut s, v / 0x1_0000_0000_0000_0000_0000u128, 4);
    push_char(&mut s, '-');
    write_hex_fixed(&mut s, v / 0x1_0000_0000_0000_0000u128, 4);
    push_char(&mut s, '-');
    write_hex_fixed(&mut s, v / 0x1_0000_0000_0000u128, 4);
    push_char(&mut s, '-');
    write_hex_fixed(&mut s, v, 12);
    assert(s@ =~= uuid_text(v as nat));
    s
}

/// A fresh random UUID in hyphenated text form (`Uuid::new_v4().to_string()`).
pub fn new_uuid_string() -> (s: String)
    ensures
        exists|v: u128| is_v4_uuid(v) && s@ == uuid_text(v as nat),
{
    let v = random_uuid();
    uuid_to_string(v)
}

/// `hostname::get`, converted lossily to text; `None` when the system call fails. Its value
/// depends on the machine, so nothing is promised about it.
#[verifier::external_body]
fn machine_host_name() -> Option<String> {
    hostname::get().ok().map(|h| h.to_string_lossy().to_string())
}

/// The machine's host name, or `unknown` when it cannot be read.
pub(crate) fn host_name() -> String {
    match machine_host_name() {
        Some(h) => h,
        None => "unknown".to_owned(),
    }
}

} // verus!
