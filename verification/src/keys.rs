//! Key pairs: secp256k1 secret keys as the service stores them (`0x` hex
//! text), and the addresses they control.
use vstd::prelude::*;
use crate::eth::{Address, all_hex_digits, be_value, hex_pairs, hex_value, is_hex_digit, lemma_hex_round_trip};
use crate::eth::h160_debug_text;
use crate::hex::{hex_lower, prefixed_hex, to_prefixed_hex};
use ethers_signers::{coins_bip39::English, LocalWallet, MnemonicBuilder, Signer};
use std::str::FromStr;

verus! {

/// The order of the secp256k1 group; secret keys lie strictly between 0 and it.
pub open spec fn secp256k1_order() -> nat {
    0xFFFFFFFFFFFFFFFFFFFFFFFFFFFFFFFEBAAEDCE6AF48A03BBFD25E8CD0364141nat
}

/// Whether 32 bytes are a secp256k1 secret key.
pub open spec fn valid_secret_key(secret: Seq<u8>) -> bool {
    secret.len() == 32 && 0 < be_value(secret) < secp256k1_order()
}

/// `s` without one leading `0X`, if it has one.
pub open spec fn strip_upper_0x(s: Seq<char>) -> Seq<char> {
    if s.len() >= 2 && s[0] == '0' && s[1] == 'X' {
        s.skip(2)
    } else {
        s
    }
}

/// `s` without one leading `0x` or `0X`, if it has one.
pub open spec fn strip_any_0x(s: Seq<char>) -> Seq<char> {
    if s.len() >= 2 && s[0] == '0' && (s[1] == 'x' || s[1] == 'X') {
        s.skip(2)
    } else {
        s
    }
}

/// The secret key that a key text denotes, as `LocalWallet::from_str` reads
/// it: after one optional `0X` and then one optional `0x` or `0X`, exactly 64
/// hex digits whose value is a secp256k1 secret key.
pub open spec fn parse_secret_key_text(s: Seq<char>) -> Option<Seq<u8>> {
    let t = strip_any_0x(strip_upper_0x(s));
    if t.len() == 64 && all_hex_digits(t) && valid_secret_key(hex_pairs(t)) {
        Some(hex_pairs(t))
    } else {
        None
    }
}

/// The key text the service stores for a secret key (`0x` and its 64
/// lowercase hex digits) reads back as that key.
pub proof fn lemma_key_text_round_trip(secret: Seq<u8>)
    requires
        valid_secret_key(secret),
    ensures
        parse_secret_key_text(prefixed_hex(secret)) == Some(secret),
{
    let s = prefixed_hex(secret);
    lemma_hex_round_trip(secret);
    assert(strip_upper_0x(s) == s);
    assert(strip_any_0x(s) =~= hex_lower(secret));
}

/// Name for the address that ethers derives for a secret key: the last 20
/// bytes of the Keccak-256 hash of the uncompressed secp256k1 public key.
pub uninterp spec fn secret_key_address(secret: Seq<u8>) -> Seq<u8>;

/// Calls `<LocalWallet as FromStr>::from_str` and hands out the wallet's
/// secret key bytes (`signer().to_bytes()`).
#[verifier::external_body]
fn parse_secret_key(text: &str) -> (res: Option<Vec<u8>>)
    ensures
        res is Some <==> parse_secret_key_text(text@) is Some,
        res matches Some(k) ==> k@ == parse_secret_key_text(text@)->0,
{
    match LocalWallet::from_str(text) {
        Ok(w) => Some(w.signer().to_bytes().to_vec()),
        Err(_) => None,
    }
}

/// Calls `LocalWallet::from_bytes` on a secret key and hands out the
/// wallet's address.
#[verifier::external_body]
fn address_of_secret(secret: &[u8]) -> (a: Address)
    requires
        valid_secret_key(secret@),
    ensures
        a.bytes@ == secret_key_address(secret@),
{
    Address { bytes: LocalWallet::from_bytes(secret).unwrap().address().0 }
}

/// A secret key that signs transactions; it is always a secp256k1 secret key.
pub struct SigningKey {
    secret: Vec<u8>,
}

impl SigningKey {
    #[verifier::type_invariant]
    spec fn is_secret_key(self) -> bool {
        valid_secret_key(self.secret@)
    }

    /// The 32 bytes of the key.
    pub closed spec fn view(&self) -> Seq<u8> {
        self.secret@
    }

    /// Reads a key text as the service's wallets do (`0x` and 64 hex digits).
    /// `None` when the text is not a secret key.
    pub fn parse(text: &str) -> (k: Option<SigningKey>)
        ensures
            k is Some <==> parse_secret_key_text(text@) is Some,
            k matches Some(k) ==> k@ == parse_secret_key_text(text@)->0,
    {
        match parse_secret_key(text) {
            Some(secret) => Some(SigningKey { secret }),
            None => None,
        }
    }

    /// The key's bytes, a secp256k1 secret key.
    pub fn secret(&self) -> (s: &[u8])
        ensures
            s@ == self@,
            valid_secret_key(self@),
    {
        proof {
            use_type_invariant(self);
        }
        self.secret.as_slice()
    }

    /// The address the key controls.
    pub fn address(&self) -> (a: Address)
        ensures
            a.bytes@ == secret_key_address(self@),
    {
        proof {
            use_type_invariant(self);
        }
        address_of_secret(self.secret.as_slice())
    }
}

/// Name for the secret key that `coins-bip39` derives from a mnemonic with
/// the English word list and no password: the BIP-39 seed of the mnemonic
/// whose entropy is `entropy`, taken as a BIP-32 master key and derived
/// along the path written `path`.
pub uninterp spec fn mnemonic_key(entropy: Seq<u8>, path: Seq<char>) -> Seq<u8>;

/// Calls `MnemonicBuilder::<English>::default().word_count(word_count)
/// .derivation_path(path)` and `build_random` with the thread random
/// generator, and hands out the key and address of the new wallet. A word
/// count other than 12, 15, 18, 21 or 24, or a path that does not parse,
/// gives `None`.
/// The mnemonic's entropy is drawn at random, four bytes for every three
/// words; whatever it is, the key is the one derived from it along `path`,
/// it is a secret key, and the address is the one derived for it. Success
/// is not stated: the BIP-32
/// derivation of `coins-bip32` fails (`Bip32Error::BadTweak`) for some
/// random mnemonics, so whether a wallet comes out also rests on chance.
#[verifier::external_body]
fn random_wallet(word_count: usize, path: &str) -> (res: Option<(Vec<u8>, Address)>)
    ensures
        res matches Some(p) ==> {
            &&& valid_secret_key(p.0@)
            &&& p.1.bytes@ == secret_key_address(p.0@)
            &&& exists|entropy: Seq<u8>|
                entropy.len() * 3 == word_count * 4 && p.0@ == #[trigger] mnemonic_key(
                    entropy,
                    path@,
                )
        },
{
    let builder = MnemonicBuilder::<English>::default().word_count(word_count)
        .derivation_path(path).ok()?;
    let w = builder.build_random(&mut ethers_core::rand::thread_rng()).ok()?;
    Some((w.signer().to_bytes().to_vec(), Address { bytes: w.address().0 }))
}

/// A fresh key pair for a new account: its address as `0x` hex and its
/// secret key as `0x` hex. The address is the one the key controls, and the
/// key text reads back as the key. The key comes from a random 24-word
/// mnemonic along the path `m/44'/60'/0'/2/1`. `None` when the wallet
/// derivation fails.
pub fn gen_key() -> (res: Option<(String, String)>)
    ensures
        res matches Some(p) ==> exists|k: Seq<u8>|
            {
                &&& valid_secret_key(k)
                &&& p.1@ == prefixed_hex(k)
                &&& parse_secret_key_text(p.1@) == Some(k)
                &&& secret_key_address(k).len() == 20
                &&& p.0@ == prefixed_hex(secret_key_address(k))
                &&& exists|entropy: Seq<u8>|
                    entropy.len() == 32 && k == #[trigger] mnemonic_key(
                        entropy,
                        "m/44'/60'/0'/2/1"@,
                    )
            },
{
    match random_wallet(24, "m/44'/60'/0'/2/1") {
        Some((secret, address)) => {
            let addr = h160_debug_text(&address);
            let key = to_prefixed_hex(secret.as_slice());
            proof {
                lemma_key_text_round_trip(secret@);
                assert(address.bytes@.len() == 20);
            }
            Some((addr, key))
        },
        None => None,
    }
}

} // verus!
