//! Transactions: what the flows ask to have signed and sent, the JSON-RPC
//! texts around sending them, and the signed raw transaction.
use vstd::prelude::*;
use crate::eth::{
    Address, Uint256, h160_debug_text, parse_quantity_text, quantity_digits, u256_bound,
    u256_checked_mul, u256_div, u256_from_str, u256_lower_hex,
};
use crate::hex::{prefixed_hex, to_prefixed_hex};
use crate::keys::{SigningKey, secret_key_address, valid_secret_key};
use ethers_core::types::{
    transaction::eip2718::TypedTransaction, Bytes, Signature, TransactionRequest, H160, U256, U64,
};
use ethers_signers::{LocalWallet, Signer};

verus! {

/// A transaction to sign and send: recipient, call data and value in wei.
pub struct TxRequest {
    pub to: Address,
    pub data: Vec<u8>,
    pub value: Uint256,
}

/// A legacy (pre-EIP-2718) transaction with an EIP-155 chain id.
pub struct LegacyTx {
    pub from: Address,
    pub to: Address,
    pub nonce: Uint256,
    pub gas_price: Uint256,
    pub gas: Uint256,
    pub value: Uint256,
    pub data: Vec<u8>,
    pub chain_id: u64,
}

/// Name for the signature `(r, s, v)` that ethers' `Wallet::sign_transaction_sync`
/// makes for a legacy transaction with a secret key: deterministic (RFC 6979)
/// ECDSA over the Keccak-256 hash of the transaction's EIP-155 encoding, with
/// `v` normalised for the chain id.
pub uninterp spec fn legacy_signature(
    secret: Seq<u8>,
    chain_id: nat,
    nonce: nat,
    gas_price: nat,
    gas: nat,
    to: Seq<u8>,
    value: nat,
    data: Seq<u8>,
) -> (nat, nat, nat);

/// Name for the signed RLP encoding that `TypedTransaction::rlp_signed` writes
/// for a legacy transaction: the list of nonce, gas price, gas, recipient,
/// value, data, `v`, `r` and `s`.
pub uninterp spec fn legacy_rlp_signed(
    nonce: nat,
    gas_price: nat,
    gas: nat,
    to: Seq<u8>,
    value: nat,
    data: Seq<u8>,
    v: nat,
    r: nat,
    s: nat,
) -> Seq<u8>;

/// Calls `Wallet::sign_transaction_sync` for the wallet of a secret key
/// (`LocalWallet::from_bytes`, with the transaction's chain id) on the
/// transaction as a `TypedTransaction::Legacy`. The EIP-155 `v` is
/// `35 + 2 * chain_id` plus the recovery id (at most 3), computed in `u64`.
#[verifier::external_body]
fn sign_legacy(secret: &[u8], tx: &LegacyTx) -> (sig: (Uint256, Uint256, u64))
    requires
        valid_secret_key(secret@),
        tx.chain_id * 2 + 38 <= u64::MAX,
    ensures
        (sig.0.value(), sig.1.value(), sig.2 as nat) == legacy_signature(
            secret@,
            tx.chain_id as nat,
            tx.nonce.value(),
            tx.gas_price.value(),
            tx.gas.value(),
            tx.to.bytes@,
            tx.value.value(),
            tx.data@,
        ),
{
    let w = LocalWallet::from_bytes(secret).unwrap().with_chain_id(tx.chain_id);
    let t: TypedTransaction = TransactionRequest::new().from(H160(tx.from.bytes)).to(H160(tx.to.bytes))
        .nonce(U256(tx.nonce.limbs)).gas_price(U256(tx.gas_price.limbs)).gas(U256(tx.gas.limbs))
        .chain_id(U64::from(tx.chain_id)).data(Bytes::from(tx.data.clone()))
        .value(U256(tx.value.limbs)).into();
    let sig = w.sign_transaction_sync(&t).unwrap();
    (Uint256 { limbs: sig.r.0 }, Uint256 { limbs: sig.s.0 }, sig.v)
}

/// Calls `TypedTransaction::rlp_signed` on the transaction as a
/// `TypedTransaction::Legacy` with the signature `(r, s, v)`.
#[verifier::external_body]
fn rlp_signed(tx: &LegacyTx, r: &Uint256, s: &Uint256, v: u64) -> (bytes: Vec<u8>)
    ensures
        bytes@ == legacy_rlp_signed(
            tx.nonce.value(),
            tx.gas_price.value(),
            tx.gas.value(),
            tx.to.bytes@,
            tx.value.value(),
            tx.data@,
            v as nat,
            r.value(),
            s.value(),
        ),
{
    let t: TypedTransaction = TransactionRequest::new().from(H160(tx.from.bytes)).to(H160(tx.to.bytes))
        .nonce(U256(tx.nonce.limbs)).gas_price(U256(tx.gas_price.limbs)).gas(U256(tx.gas.limbs))
        .chain_id(U64::from(tx.chain_id)).data(Bytes::from(tx.data.clone()))
        .value(U256(tx.value.limbs)).into();
    t.rlp_signed(&Signature { r: U256(r.limbs), s: U256(s.limbs), v }).to_vec()
}

/// Why a transaction could not be prepared from the node's answers.
#[derive(Debug)]
pub enum WrapError {
    /// The transaction count is not a quantity.
    BadNonce,
    /// The gas price is not a quantity.
    BadGasPrice,
    /// The gas estimate is not a quantity.
    BadGasEstimate,
    /// The estimate with its 20% margin does not fit 256 bits.
    GasOverflow,
}

/// The gas limit given to a transaction: the node's estimate plus 20%,
/// rounded down.
pub open spec fn padded_gas(estimate: nat) -> nat {
    estimate * 12 / 10
}

/// The `0x` hex raw transaction for the given fields, signed with `secret`.
pub open spec fn signed_raw_tx(
    secret: Seq<u8>,
    chain_id: nat,
    nonce: nat,
    gas_price: nat,
    gas: nat,
    to: Seq<u8>,
    value: nat,
    data: Seq<u8>,
) -> Seq<char> {
    let sig = legacy_signature(secret, chain_id, nonce, gas_price, gas, to, value, data);
    prefixed_hex(legacy_rlp_signed(nonce, gas_price, gas, to, value, data, sig.2, sig.0, sig.1))
}

/// What preparing a transaction yields from the node's answers: the answers
/// are read as quantities in the order count, price, estimate; the gas
/// limit is the padded estimate.
pub open spec fn wrap_outcome(
    secret: Seq<u8>,
    chain_id: nat,
    to: Seq<u8>,
    data: Seq<u8>,
    value: nat,
    nonce_text: Seq<char>,
    gas_price_text: Seq<char>,
    estimate_text: Seq<char>,
) -> Result<Seq<char>, WrapError> {
    match (
        parse_quantity_text(nonce_text),
        parse_quantity_text(gas_price_text),
        parse_quantity_text(estimate_text),
    ) {
        (None, _, _) => Err(WrapError::BadNonce),
        (Some(_), None, _) => Err(WrapError::BadGasPrice),
        (Some(_), Some(_), None) => Err(WrapError::BadGasEstimate),
        (Some(n), Some(p), Some(e)) => if e * 12 < u256_bound() {
            Ok(signed_raw_tx(secret, chain_id, n, p, padded_gas(e), to, value, data))
        } else {
            Err(WrapError::GasOverflow)
        },
    }
}

/// A prepared transaction as a result of character sequences.
pub open spec fn wrap_view(r: Result<String, WrapError>) -> Result<Seq<char>, WrapError> {
    match r {
        Ok(s) => Ok(s@),
        Err(e) => Err(e),
    }
}

/// Prepares a raw transaction for `eth_sendRawTransaction`: the node's
/// answers for the sender's transaction count, the gas price and the gas
/// estimate are read, the estimate gets a 20% margin, and the legacy
/// transaction from the key's address to `to` is signed for `chain_id` and
/// written as `0x` hex. The chain id must leave room for the EIP-155 `v`
/// (`35 + 2 * chain_id` and a recovery id of at most 3) in a `u64`.
pub fn wrap_transaction(
    key: &SigningKey,
    chain_id: u64,
    to: Address,
    data: Vec<u8>,
    value: Uint256,
    nonce_text: &str,
    gas_price_text: &str,
    estimate_text: &str,
) -> (res: Result<String, WrapError>)
    requires
        chain_id * 2 + 38 <= u64::MAX,
    ensures
        wrap_view(res) == wrap_outcome(
            key@,
            chain_id as nat,
            to.bytes@,
            data@,
            value.value(),
            nonce_text@,
            gas_price_text@,
            estimate_text@,
        ),
{
    let nonce = match u256_from_str(nonce_text) {
        Some(n) => n,
        None => return Err(WrapError::BadNonce),
    };
    let gas_price = match u256_from_str(gas_price_text) {
        Some(p) => p,
        None => return Err(WrapError::BadGasPrice),
    };
    let estimate = match u256_from_str(estimate_text) {
        Some(e) => e,
        None => return Err(WrapError::BadGasEstimate),
    };
    let scaled = match u256_checked_mul(&estimate, &Uint256::from_u64(12)) {
        Some(x) => x,
        None => return Err(WrapError::GasOverflow),
    };
    let gas = u256_div(&scaled, &Uint256::from_u64(10));
    let from = key.address();
    let tx = LegacyTx { from, to, nonce, gas_price, gas, value, data, chain_id };
    let (r, s, v) = sign_legacy(key.secret(), &tx);
    let raw = rlp_signed(&tx, &r, &s, v);
    Ok(to_prefixed_hex(raw.as_slice()))
}

/// The address text with which the transaction count of a key's address is
/// asked for: `0x` and the address's 40 lowercase hex digits.
pub fn sender_text(key: &SigningKey) -> (t: String)
    ensures
        t@ == prefixed_hex(secret_key_address(key@)),
{
    let a = key.address();
    h160_debug_text(&a)
}

/// The parameters of `eth_estimateGas` for a transaction: sender,
/// recipient, value as `0x` and its shortest lowercase hex digits, and the
/// call data as `0x` hex.
pub fn estimate_gas_params(from: &Address, to: &Address, value: &Uint256, data: &[u8]) -> (p: (
    String,
    String,
    String,
    String,
))
    ensures
        p.0@ == prefixed_hex(from.bytes@),
        p.1@ == prefixed_hex(to.bytes@),
        p.2@ == seq!['0', 'x'] + quantity_digits(value.value()),
        p.3@ == prefixed_hex(data@),
{
    let mut v = String::from_str("0x");
    proof {
        reveal_strlit("0x");
    }
    let digits = u256_lower_hex(value);
    v.append(digits.as_str());
    (h160_debug_text(from), h160_debug_text(to), v, to_prefixed_hex(data))
}

/// A prepared transaction carries exactly what it was given: when the node's
/// answers read as quantities, the raw transaction is the signed RLP of the
/// legacy transaction with the answered nonce and gas price, a gas limit of
/// the estimate plus a fifth (rounded down), and the given recipient, value
/// and call data, signed over those same fields for the chain.
pub proof fn lemma_wrap_carries_fields(
    secret: Seq<u8>,
    chain_id: nat,
    to: Seq<u8>,
    data: Seq<u8>,
    value: nat,
    nonce_text: Seq<char>,
    gas_price_text: Seq<char>,
    estimate_text: Seq<char>,
)
    ensures
        wrap_outcome(secret, chain_id, to, data, value, nonce_text, gas_price_text, estimate_text)
            matches Ok(raw) ==> {
            let n = parse_quantity_text(nonce_text)->0;
            let p = parse_quantity_text(gas_price_text)->0;
            let g = parse_quantity_text(estimate_text)->0 * 12 / 10;
            let sig = legacy_signature(secret, chain_id, n, p, g, to, value, data);
            &&& parse_quantity_text(nonce_text) is Some
            &&& parse_quantity_text(gas_price_text) is Some
            &&& parse_quantity_text(estimate_text) is Some
            &&& raw == prefixed_hex(legacy_rlp_signed(n, p, g, to, value, data, sig.2, sig.0, sig.1))
        },
{
}

} // verus!
