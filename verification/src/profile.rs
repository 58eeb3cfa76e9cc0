//! Profiles: the balance query a profile makes and the reading of its
//! answer.
use vstd::prelude::*;
use crate::accounts::{USER_ROLE, MERCHANT_ROLE};
use crate::abi::{abi_selector, create_erc20_balance_data, create_pbm_balance_data};
use crate::eth::{all_hex_digits, h160_from_str, hex_value, limb_base, parse_address_text};
use crate::hex::{prefixed_hex, to_prefixed_hex};

verus! {

/// Which contract a profile's balance comes from.
pub enum BalanceSource {
    /// Users hold PBM balances.
    Pbm,
    /// Merchants hold ERC-20 tokens.
    Token,
}

/// The `0x` hex call data of `balanceOf(address)` for an address text.
pub open spec fn balance_call_text(address_text: Seq<char>) -> Seq<char> {
    prefixed_hex(
        abi_selector("balanceOf(address)"@) + Seq::new(12, |i: int| 0u8) + parse_address_text(
            address_text,
        )->0,
    )
}

/// The balance query of a profile: the contract to ask and the `0x` hex
/// call data of `balanceOf(address)`. Users ask the PBM contract, merchants
/// the token; other roles make no query. The address text must parse.
pub fn balance_query(role: u64, address_text: &str) -> (q: Option<(BalanceSource, String)>)
    requires
        parse_address_text(address_text@) is Some,
    ensures
        q is Some <==> (role == USER_ROLE || role == MERCHANT_ROLE),
        q matches Some(p) ==> (p.0 is Pbm <==> role == USER_ROLE) && p.1@ == balance_call_text(
            address_text@,
        ),
{
    if role != USER_ROLE && role != MERCHANT_ROLE {
        return None;
    }
    let a = match h160_from_str(address_text) {
        Some(a) => a,
        None => return None,
    };
    proof {
        assert(abi_selector("balanceOf(address)"@) + (Seq::new(12, |i: int| 0u8) + a.bytes@)
            =~= abi_selector("balanceOf(address)"@) + Seq::new(12, |i: int| 0u8) + a.bytes@);
    }
    if role == USER_ROLE {
        let data = create_pbm_balance_data(a).unwrap();
        Some((BalanceSource::Pbm, to_prefixed_hex(data.as_slice())))
    } else {
        let data = create_erc20_balance_data(a).unwrap();
        Some((BalanceSource::Token, to_prefixed_hex(data.as_slice())))
    }
}

/// The `u64` that `u64::from_str_radix(s, 16)` reads: an optional `+`, then
/// one or more hex digits in either case, below 2^64.
pub open spec fn parse_u64_hex_text(s: Seq<char>) -> Option<nat> {
    let d = if s.len() > 0 && s[0] == '+' {
        s.skip(1)
    } else {
        s
    };
    if d.len() > 0 && all_hex_digits(d) && hex_value(d) < limb_base() {
        Some(hex_value(d))
    } else {
        None
    }
}

/// Calls `u64::from_str_radix(s, 16)`.
#[verifier::external_body]
fn u64_from_hex(s: &str) -> (res: Option<u64>)
    ensures
        res is Some <==> parse_u64_hex_text(s@) is Some,
        res matches Some(v) ==> v == parse_u64_hex_text(s@)->0,
{
    u64::from_str_radix(s, 16).ok()
}

/// The number of UTF-8 bytes that encode a character.
pub open spec fn utf8_len(c: char) -> nat {
    if (c as u32) < 0x80 {
        1
    } else if (c as u32) < 0x800 {
        2
    } else if (c as u32) < 0x10000 {
        3
    } else {
        4
    }
}

/// The balance in cents that a `balanceOf` answer carries: the text after
/// its first two bytes (where the `0x` prefix stands), read as hex. `None`
/// when the answer has fewer than two bytes, when its second byte falls
/// inside a character, or when the rest is not a hex number below 2^64.
pub open spec fn balance_cents_of(result: Seq<char>) -> Option<nat> {
    if result.len() >= 1 && utf8_len(result[0]) == 2 {
        parse_u64_hex_text(result.skip(1))
    } else if result.len() >= 2 && utf8_len(result[0]) == 1 && utf8_len(result[1]) == 1 {
        parse_u64_hex_text(result.skip(2))
    } else {
        None
    }
}

/// Reads the balance in cents from a `balanceOf` answer.
pub fn balance_cents(result: &str) -> (cents: Option<u64>)
    ensures
        cents is Some <==> balance_cents_of(result@) is Some,
        cents matches Some(c) ==> c == balance_cents_of(result@)->0,
{
    let n = result.unicode_len();
    if n < 1 {
        return None;
    }
    let c0 = result.get_char(0);
    if 0x80 <= (c0 as u32) && (c0 as u32) < 0x800 {
        let rest = result.substring_char(1, n);
        proof {
            assert(rest@ =~= result@.skip(1));
        }
        return u64_from_hex(rest);
    }
    if (c0 as u32) >= 0x80 || n < 2 {
        return None;
    }
    let c1 = result.get_char(1);
    if (c1 as u32) >= 0x80 {
        return None;
    }
    let rest = result.substring_char(2, n);
    proof {
        assert(rest@ =~= result@.skip(2));
    }
    u64_from_hex(rest)
}

/// Whether a profile lookup for `role` succeeds: users and merchants need
/// exactly one matching row; other roles have no profile.
pub fn profile_found(role: u64, rows: usize) -> (ok: bool)
    ensures
        ok == ((role == USER_ROLE || role == MERCHANT_ROLE) && rows == 1),
{
    (role == USER_ROLE || role == MERCHANT_ROLE) && rows == 1
}

} // verus!
