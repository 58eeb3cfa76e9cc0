//! Lowercase hexadecimal text for byte strings.
use vstd::prelude::*;

verus! {

/// The lowercase hex digit for a nibble.
pub open spec fn nibble_char(n: int) -> char {
    if 0 <= n < 10 {
        ((n + 48) as u8) as char
    } else {
        ((n - 10 + 97) as u8) as char
    }
}

/// Two lowercase hex digits per byte, most significant nibble first.
pub open spec fn hex_lower(bytes: Seq<u8>) -> Seq<char> {
    Seq::new(
        (2 * bytes.len()) as nat,
        |i: int|
            if i % 2 == 0 {
                nibble_char(bytes[i / 2] as int / 16)
            } else {
                nibble_char(bytes[i / 2] as int % 16)
            },
    )
}

/// `"0x"` followed by the lowercase hex digits of `bytes`.
pub open spec fn prefixed_hex(bytes: Seq<u8>) -> Seq<char> {
    seq!['0', 'x'] + hex_lower(bytes)
}

/// Calls `const_hex::encode` (re-exported as `ethers_core::utils::hex::encode`),
/// which writes each byte as two lowercase hex digits, high nibble first.
#[verifier::external_body]
fn hex_encode(bytes: &[u8]) -> (res: String)
    ensures
        res@ == hex_lower(bytes@),
{
    ethers_core::utils::hex::encode(bytes)
}

/// Renders `bytes` as `0x`-prefixed lowercase hex, the form Ethereum JSON-RPC
/// expects for data and raw transactions.
pub fn to_prefixed_hex(bytes: &[u8]) -> (res: String)
    ensures
        res@ == prefixed_hex(bytes@),
{
    let mut res = String::from_str("0x");
    let digits = hex_encode(bytes);
    proof {
        reveal_strlit("0x");
    }
    res.append(digits.as_str());
    res
}

} // verus!
