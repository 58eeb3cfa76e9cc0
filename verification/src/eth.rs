//! Ethereum values: 20-byte addresses and 256-bit unsigned quantities, with
//! the text forms that JSON-RPC and the database use.
use vstd::prelude::*;
use vstd::arithmetic::div_mod::{lemma_div_denominator, lemma_mod_breakdown};
use crate::hex::{hex_lower, nibble_char, prefixed_hex};
use ethers_core::types::{H160, U256};
use std::str::FromStr;

verus! {

/// Whether `c` is a hex digit, in either case.
pub open spec fn is_hex_digit(c: char) -> bool {
    ('0' <= c <= '9') || ('a' <= c <= 'f') || ('A' <= c <= 'F')
}

/// The value of a hex digit.
pub open spec fn hex_digit_value(c: char) -> nat {
    if '0' <= c <= '9' {
        (c as u32 - '0' as u32) as nat
    } else if 'a' <= c <= 'f' {
        (c as u32 - 'a' as u32 + 10) as nat
    } else {
        (c as u32 - 'A' as u32 + 10) as nat
    }
}

/// The number that a string of hex digits denotes, most significant first
/// (0 for the empty string).
pub open spec fn hex_value(s: Seq<char>) -> nat
    decreases s.len(),
{
    if s.len() == 0 {
        0
    } else {
        hex_value(s.drop_last()) * 16 + hex_digit_value(s.last())
    }
}

/// Whether every character of `s` is a hex digit.
pub open spec fn all_hex_digits(s: Seq<char>) -> bool {
    forall|i: int| 0 <= i < s.len() ==> is_hex_digit(#[trigger] s[i])
}

/// `s` without one leading `0x`, if it has one.
pub open spec fn strip_0x(s: Seq<char>) -> Seq<char> {
    if s.len() >= 2 && s[0] == '0' && s[1] == 'x' {
        s.skip(2)
    } else {
        s
    }
}

/// The characters that the hex decoder behind address parsing skips.
pub open spec fn is_hex_gap(c: char) -> bool {
    c == ' ' || c == '\r' || c == '\n' || c == '\t'
}

/// Bytes from pairs of hex digits, high nibble first.
pub open spec fn hex_pairs(digits: Seq<char>) -> Seq<u8> {
    Seq::new(
        digits.len() / 2,
        |i: int| (hex_digit_value(digits[2 * i]) * 16 + hex_digit_value(digits[2 * i + 1])) as u8,
    )
}

/// The 20 bytes that an address text denotes: after an optional `0x`, the
/// text holds exactly 40 hex digits, possibly with spaces, tabs, carriage
/// returns or line feeds among them, and nothing else.
pub open spec fn parse_address_text(s: Seq<char>) -> Option<Seq<u8>> {
    let t = strip_0x(s);
    let digits = t.filter(|c: char| !is_hex_gap(c));
    if (forall|i: int| 0 <= i < t.len() ==> is_hex_digit(t[i]) || is_hex_gap(t[i]))
        && digits.len() == 40 {
        Some(hex_pairs(digits))
    } else {
        None
    }
}

/// A 20-byte Ethereum account or contract address.
#[derive(Clone, Copy, Debug)]
pub struct Address {
    pub bytes: [u8; 20],
}

/// The 32-byte big-endian encoding of a number below 2^256.
pub open spec fn be_word(v: nat) -> Seq<u8> {
    Seq::new(32, |i: int| ((v / pow256((31 - i) as nat)) % 256) as u8)
}

/// 256 to the power `n`.
pub open spec fn pow256(n: nat) -> nat
    decreases n,
{
    if n == 0 {
        1
    } else {
        256 * pow256((n - 1) as nat)
    }
}

/// 2^64.
pub open spec fn limb_base() -> nat {
    0x1_0000_0000_0000_0000
}

/// 2^256, one more than the largest quantity.
pub open spec fn u256_bound() -> nat {
    limb_base() * limb_base() * limb_base() * limb_base()
}

/// An unsigned 256-bit quantity as four 64-bit limbs, least significant
/// first (the layout of `ethers_core::types::U256`).
#[derive(Clone, Copy, Debug)]
pub struct Uint256 {
    pub limbs: [u64; 4],
}

impl Uint256 {
    /// The number the limbs denote.
    pub open spec fn value(&self) -> nat {
        self.limbs@[0] as nat + limb_base() * (self.limbs@[1] as nat + limb_base() * (
        self.limbs@[2] as nat + limb_base() * self.limbs@[3] as nat))
    }

    pub fn from_u64(v: u64) -> (r: Uint256)
        ensures
            r.value() == v,
    {
        Uint256 { limbs: [v, 0, 0, 0] }
    }
}

/// The lowest-order limb holds a value below 2^64, and the whole below 2^256.
pub proof fn lemma_value_bound(x: Uint256)
    ensures
        x.value() < u256_bound(),
{
    let b = limb_base();
    let l0 = x.limbs@[0] as nat;
    let l1 = x.limbs@[1] as nat;
    let l2 = x.limbs@[2] as nat;
    let l3 = x.limbs@[3] as nat;
    assert(l2 + b * l3 < b * b) by (nonlinear_arith)
        requires
            l2 < b,
            l3 < b,
    ;
    assert(l1 + b * (l2 + b * l3) < b * (b * b)) by (nonlinear_arith)
        requires
            l1 < b,
            l2 + b * l3 < b * b,
    ;
    assert(l0 + b * (l1 + b * (l2 + b * l3)) < b * (b * (b * b))) by (nonlinear_arith)
        requires
            l0 < b,
            l1 + b * (l2 + b * l3) < b * (b * b),
    ;
    assert(b * (b * (b * b)) == b * b * b * b) by (nonlinear_arith);
}

/// The number that a JSON-RPC quantity text denotes, as `U256::from_str`
/// reads it: after an optional `0x`, at most 64 hex digits in either case
/// (none at all reads as 0).
pub open spec fn parse_quantity_text(s: Seq<char>) -> Option<nat> {
    let t = strip_0x(s);
    if t.len() <= 64 && all_hex_digits(t) {
        Some(hex_value(t))
    } else {
        None
    }
}

/// The shortest lowercase hex digits of `v` (`"0"` for zero), as the
/// `LowerHex` format of `U256` writes them.
pub open spec fn quantity_digits(v: nat) -> Seq<char>
    decreases v,
{
    if v < 16 {
        seq![nibble_char(v as int)]
    } else {
        quantity_digits(v / 16).push(nibble_char((v % 16) as int))
    }
}

/// Calls `<H160 as FromStr>::from_str`: an optional `0x` is stripped, then
/// the rustc-hex decoder reads hex digits, skipping spaces, tabs, carriage
/// returns and line feeds, and fails on any other character; exactly 20
/// bytes must come out.
#[verifier::external_body]
pub(crate) fn h160_from_str(s: &str) -> (res: Option<Address>)
    ensures
        res is Some <==> parse_address_text(s@) is Some,
        res matches Some(a) ==> a.bytes@ == parse_address_text(s@).unwrap(),
{
    match H160::from_str(s) {
        Ok(h) => Some(Address { bytes: h.0 }),
        Err(_) => None,
    }
}

impl Address {
    /// Reads an address text: `0x` and 40 hex digits in either case, as
    /// `H160::from_str` accepts it.
    pub fn parse(text: &str) -> (a: Option<Address>)
        ensures
            a is Some <==> parse_address_text(text@) is Some,
            a matches Some(a) ==> a.bytes@ == parse_address_text(text@)->0,
    {
        h160_from_str(text)
    }
}

/// Calls the `Debug` format of `H160`, which writes `{:#x}`: `0x` and the 40
/// lowercase hex digits of the address.
#[verifier::external_body]
pub(crate) fn h160_debug_text(a: &Address) -> (res: String)
    ensures
        res@ == prefixed_hex(a.bytes@),
{
    format!("{:?}", H160(a.bytes))
}

/// Calls `<U256 as FromStr>::from_str`: an optional `0x` is stripped, the rest
/// must be at most 64 hex digits (an odd count gets a leading zero), read as
/// a big-endian number.
#[verifier::external_body]
pub(crate) fn u256_from_str(s: &str) -> (res: Option<Uint256>)
    ensures
        res is Some <==> parse_quantity_text(s@) is Some,
        res matches Some(q) ==> q.value() == parse_quantity_text(s@).unwrap(),
{
    match U256::from_str(s) {
        Ok(u) => Some(Uint256 { limbs: u.0 }),
        Err(_) => None,
    }
}

/// Calls the `LowerHex` format of `U256`: the shortest lowercase hex digits
/// of the number, `0` for zero.
#[verifier::external_body]
pub(crate) fn u256_lower_hex(x: &Uint256) -> (res: String)
    ensures
        res@ == quantity_digits(x.value()),
{
    format!("{:x}", U256(x.limbs))
}

/// Calls `U256::checked_mul`: the product, or `None` when it reaches 2^256.
#[verifier::external_body]
pub(crate) fn u256_checked_mul(a: &Uint256, b: &Uint256) -> (res: Option<Uint256>)
    ensures
        res is Some <==> a.value() * b.value() < u256_bound(),
        res matches Some(p) ==> p.value() == a.value() * b.value(),
{
    match U256(a.limbs).checked_mul(U256(b.limbs)) {
        Some(p) => Some(Uint256 { limbs: p.0 }),
        None => None,
    }
}

/// Calls `<U256 as Div>::div`, the quotient rounded down; it panics on a
/// zero divisor.
#[verifier::external_body]
pub(crate) fn u256_div(a: &Uint256, b: &Uint256) -> (res: Uint256)
    requires
        b.value() != 0,
    ensures
        res.value() == a.value() / b.value(),
{
    Uint256 { limbs: (U256(a.limbs) / U256(b.limbs)).0 }
}

/// The number that bytes denote, big-endian.
pub open spec fn be_value(bytes: Seq<u8>) -> nat
    decreases bytes.len(),
{
    if bytes.len() == 0 {
        0
    } else {
        be_value(bytes.drop_last()) * 256 + bytes.last() as nat
    }
}

/// The low `n` bytes of `v`, big-endian.
pub open spec fn be_bytes(v: nat, n: nat) -> Seq<u8> {
    Seq::new(n, |i: int| ((v / pow256((n - 1 - i) as nat)) % 256) as u8)
}

pub proof fn lemma_pow256_positive(n: nat)
    ensures
        pow256(n) > 0,
    decreases n,
{
    if n > 0 {
        lemma_pow256_positive((n - 1) as nat);
    }
}

/// Reading back the low `n` bytes of `v` gives `v` modulo `256^n`.
pub proof fn lemma_be_bytes_value(v: nat, n: nat)
    ensures
        be_value(be_bytes(v, n)) == v % pow256(n),
    decreases n,
{
    if n == 0 {
        assert(be_bytes(v, 0) =~= Seq::<u8>::empty());
    } else {
        let m = (n - 1) as nat;
        lemma_be_bytes_value(v / 256, m);
        let s = be_bytes(v, n);
        let t = be_bytes(v / 256, m);
        assert forall|i: int| 0 <= i < m implies s[i] == t[i] by {
            let k = (m - 1 - i) as nat;
            assert(pow256((n - 1 - i) as nat) == 256 * pow256(k));
            lemma_pow256_positive(k);
            lemma_div_denominator(v as int, 256, pow256(k) as int);
        }
        assert(s.drop_last() =~= t);
        assert(s.last() == (v % 256) as u8) by {
            assert(pow256(0) == 1);
            assert(s.last() == s[n - 1]);
            assert(((n - 1 - (n - 1)) as nat) == 0);
            assert(s[n - 1] == ((v / pow256(0)) % 256) as u8);
            assert(v / 1 == v);
        }
        lemma_pow256_positive(m);
        lemma_mod_breakdown(v as int, 256, pow256(m) as int);
        assert(pow256(n) == 256 * pow256(m));
    }
}

/// `2^256` is `256^32`.
pub proof fn lemma_u256_bound_bytes()
    ensures
        pow256(32) == u256_bound(),
{
    reveal_with_fuel(pow256, 33);
}

/// The 32-byte word of a quantity reads back as the quantity: what an
/// unsigned argument encodes is exactly the number given.
pub proof fn lemma_be_word_value(v: nat)
    requires
        v < u256_bound(),
    ensures
        be_word(v).len() == 32,
        be_value(be_word(v)) == v,
{
    assert(be_word(v) =~= be_bytes(v, 32));
    lemma_be_bytes_value(v, 32);
    lemma_u256_bound_bytes();
    vstd::arithmetic::div_mod::lemma_small_mod(v, pow256(32));
}

/// The digit written for a nibble is a hex digit of that value.
proof fn lemma_nibble_digit(n: int)
    requires
        0 <= n < 16,
    ensures
        is_hex_digit(nibble_char(n)),
        hex_digit_value(nibble_char(n)) == n,
{
}

/// Lowercase hex text reads back as the bytes it was written from.
pub proof fn lemma_hex_round_trip(bytes: Seq<u8>)
    ensures
        all_hex_digits(hex_lower(bytes)),
        hex_pairs(hex_lower(bytes)) == bytes,
{
    let h = hex_lower(bytes);
    assert forall|i: int| 0 <= i < h.len() implies is_hex_digit(#[trigger] h[i]) by {
        if i % 2 == 0 {
            lemma_nibble_digit(bytes[i / 2] as int / 16);
        } else {
            lemma_nibble_digit(bytes[i / 2] as int % 16);
        }
    }
    assert forall|i: int| 0 <= i < bytes.len() implies #[trigger] hex_pairs(h)[i] == bytes[i] by {
        assert((2 * i) / 2 == i && (2 * i) % 2 == 0);
        assert((2 * i + 1) / 2 == i && (2 * i + 1) % 2 == 1);
        lemma_nibble_digit(bytes[i] as int / 16);
        lemma_nibble_digit(bytes[i] as int % 16);
    }
    assert(hex_pairs(h) =~= bytes);
}

/// Keeping the characters that a predicate accepts leaves a sequence
/// unchanged when it accepts all of them.
proof fn lemma_filter_keeps_all(s: Seq<char>, keep: spec_fn(char) -> bool)
    requires
        forall|i: int| 0 <= i < s.len() ==> keep(#[trigger] s[i]),
    ensures
        s.filter(keep) == s,
    decreases s.len(),
{
    reveal(Seq::filter);
    if s.len() > 0 {
        lemma_filter_keeps_all(s.drop_last(), keep);
        assert(s.drop_last().push(s.last()) =~= s);
    }
}

/// The address text the service writes (`0x` and 40 lowercase hex digits)
/// reads back as the address.
pub proof fn lemma_address_text_round_trip(bytes: Seq<u8>)
    requires
        bytes.len() == 20,
    ensures
        parse_address_text(prefixed_hex(bytes)) == Some(bytes),
{
    let s = prefixed_hex(bytes);
    let t = strip_0x(s);
    lemma_hex_round_trip(bytes);
    assert(t =~= hex_lower(bytes));
    assert forall|i: int| 0 <= i < t.len() implies !is_hex_gap(#[trigger] t[i]) by {
        assert(is_hex_digit(t[i]));
    }
    lemma_filter_keeps_all(t, |c: char| !is_hex_gap(c));
}

} // verus!
