//! The checks a catalogue document passes around its decoding: a leading UTF-8
//! byte-order mark is dropped, and the decoded schema version must be the one
//! the parser was written for.
use vstd::prelude::*;

use crate::errors::ServiceError;
use crate::types::RenoDxManifest;

verus! {

/// Whether `bytes` starts with the UTF-8 byte-order mark.
pub open spec fn has_bom(bytes: Seq<u8>) -> bool {
    bytes.len() >= 3 && bytes[0] == 0xEFu8 && bytes[1] == 0xBBu8 && bytes[2] == 0xBFu8
}

/// The document without a leading UTF-8 byte-order mark.
pub fn strip_utf8_bom(bytes: &[u8]) -> (r: &[u8])
    ensures
        r@ == if has_bom(bytes@) {
            bytes@.subrange(3, bytes@.len() as int)
        } else {
            bytes@
        },
{
    let n = bytes.len();
    if n >= 3 && bytes[0] == 0xEFu8 && bytes[1] == 0xBBu8 && bytes[2] == 0xBFu8 {
        vstd::slice::slice_subrange(bytes, 3, n)
    } else {
        bytes
    }
}

/// The decimal digit `d`.
pub open spec fn digit(d: nat) -> Seq<char> {
    if d == 0 {
        "0"@
    } else if d == 1 {
        "1"@
    } else if d == 2 {
        "2"@
    } else if d == 3 {
        "3"@
    } else if d == 4 {
        "4"@
    } else if d == 5 {
        "5"@
    } else if d == 6 {
        "6"@
    } else if d == 7 {
        "7"@
    } else if d == 8 {
        "8"@
    } else {
        "9"@
    }
}

/// The decimal form of `n`, without leading zeros.
pub open spec fn decimal(n: nat) -> Seq<char>
    decreases n,
{
    if n < 10 {
        digit(n)
    } else {
        decimal(n / 10) + digit(n % 10)
    }
}

fn digit_str(d: u32) -> (r: &'static str)
    requires
        d < 10,
    ensures
        r@ == digit(d as nat),
{
    if d == 0 {
        "0"
    } else if d == 1 {
        "1"
    } else if d == 2 {
        "2"
    } else if d == 3 {
        "3"
    } else if d == 4 {
        "4"
    } else if d == 5 {
        "5"
    } else if d == 6 {
        "6"
    } else if d == 7 {
        "7"
    } else if d == 8 {
        "8"
    } else {
        "9"
    }
}

/// The decimal form of a number.
pub fn decimal_string(n: u32) -> (r: String)
    ensures
        r@ == decimal(n as nat),
    decreases n,
{
    if n < 10 {
        String::from_str(digit_str(n))
    } else {
        decimal_string(n / 10).concat(digit_str(n % 10))
    }
}

/// The refusal of a document whose schema version is not the parser's.
pub open spec fn version_mismatch(document: Seq<char>, found: u32, expected: u32) -> Seq<char> {
    document + " schema version "@ + decimal(found as nat) + " does not match parser version "@
        + decimal(expected as nat)
}

/// Refuses a decoded catalogue whose schema version is not `expected`.
pub fn ensure_wire_schema_version(manifest: &RenoDxManifest, expected: u32, document: &str) -> (r:
    Result<(), ServiceError>)
    ensures
        r is Ok <==> manifest.schema_version == expected,
        r matches Err(e) ==> e matches ServiceError::Failed(m) && m@ == version_mismatch(
            document@,
            manifest.schema_version,
            expected,
        ),
{
    if manifest.schema_version != expected {
        let msg = String::from_str(document).concat(" schema version ").concat(
            decimal_string(manifest.schema_version).as_str(),
        ).concat(" does not match parser version ").concat(decimal_string(expected).as_str());
        return Err(ServiceError::Failed(msg));
    }
    Ok(())
}

} // verus!
