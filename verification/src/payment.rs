//! Payments, funding and redemption: who may act, what each response
//! reports, and the transactions that move the tokens.
use vstd::prelude::*;
use crate::accounts::{AuthUser, USER_ROLE, MERCHANT_ROLE};
use crate::abi::{
    abi_selector, address_word, create_erc20_approve_data, create_erc20_transfer_data,
    create_pbm_funduser_data, create_pbm_pay_data,
};
use crate::eth::{Address, Uint256, be_word, h160_from_str, parse_address_text};
use crate::text::str_eq;
use crate::grants::is_decimal_digit;
use crate::tx::TxRequest;

verus! {

/// Whether an administrator or donor password is right.
pub fn password_matches(given: &str, expected: &str) -> (ok: bool)
    ensures
        ok == (given@ == expected@),
{
    str_eq(given, expected)
}

/// Whether the signed-in identity may list a user's transactions.
pub fn may_list_user_transactions(au: &AuthUser) -> (ok: bool)
    ensures
        ok == (au.user_id != 0 && au.role == USER_ROLE),
{
    au.user_id != 0 && au.role == USER_ROLE
}

/// Whether the signed-in identity may list a merchant's transactions or
/// redeem a merchant's tokens.
pub fn may_act_as_merchant(au: &AuthUser) -> (ok: bool)
    ensures
        ok == (au.user_id != 0 && au.role == MERCHANT_ROLE),
{
    au.user_id != 0 && au.role == MERCHANT_ROLE
}

/// How a payment request starts.
pub enum PayGate {
    /// A payment above the limit came without the PIN last sent to the payer.
    WrongPin,
    /// Nobody is signed in.
    Unauthorized,
    /// The payment goes ahead.
    Proceed,
}

/// How a payment request starts: a payment above the limit with a PIN other
/// than the one last sent is refused before the sign-in is checked.
pub open spec fn pay_gate_of(above_limit: bool, pin: Seq<char>, session_pin: Seq<char>, user_id: u64) -> PayGate {
    if above_limit && pin != session_pin {
        PayGate::WrongPin
    } else if user_id == 0 {
        PayGate::Unauthorized
    } else {
        PayGate::Proceed
    }
}

/// Decides how a payment request starts. `above_limit` says whether the
/// amount exceeds 50 tokens; only such payments need the PIN.
pub fn pay_gate(above_limit: bool, pin: &str, au: &AuthUser) -> (gate: PayGate)
    ensures
        gate == pay_gate_of(above_limit, pin@, au.pin@, au.user_id),
{
    if above_limit && !str_eq(pin, au.pin.as_str()) {
        PayGate::WrongPin
    } else if au.user_id == 0 {
        PayGate::Unauthorized
    } else {
        PayGate::Proceed
    }
}

/// A payment PIN serves one payment: once a payment goes ahead the session's
/// PIN is the placeholder `"PIN"`, and no four-digit PIN passes for a payment
/// above the limit until a new PIN is sent.
pub proof fn lemma_pin_single_use(pin: Seq<char>, user_id: u64)
    requires
        pin.len() == 4,
        forall|i: int| 0 <= i < 4 ==> is_decimal_digit(#[trigger] pin[i]),
    ensures
        pay_gate_of(true, pin, "PIN"@, user_id) == PayGate::WrongPin,
{
    reveal_strlit("PIN");
    assert(pin[0] != "PIN"@[0]);
}

/// The identity a session keeps once a payment has gone ahead: the same
/// identity with the placeholder PIN `"PIN"` in place of the PIN just used.
pub fn spend_pin(au: AuthUser) -> (spent: AuthUser)
    ensures
        spent.pin@ == "PIN"@,
        spent.user_id == au.user_id,
        spent.phone_country@ == au.phone_country@,
        spent.phone_number@ == au.phone_number@,
        spent.phone_active == au.phone_active,
        spent.email@ == au.email@,
        spent.email_active == au.email_active,
        spent.role == au.role,
{
    au.with_pin(String::from_str("PIN"))
}

/// What a payment response reports.
pub enum PayMessage {
    Paid,
    WrongPin,
    PartiesNotFound,
    TransactionFailed,
}

pub open spec fn pay_message_text(m: PayMessage) -> Seq<char> {
    match m {
        PayMessage::Paid => "The payment is successful."@,
        PayMessage::WrongPin => "The user entered the wrong PIN code."@,
        PayMessage::PartiesNotFound => "Cannot get the user or merchant from the database."@,
        PayMessage::TransactionFailed => "The blockchain transaction failed."@,
    }
}

impl PayMessage {
    pub fn text(&self) -> (t: &'static str)
        ensures
            t@ == pay_message_text(*self),
    {
        match self {
            PayMessage::Paid => "The payment is successful.",
            PayMessage::WrongPin => "The user entered the wrong PIN code.",
            PayMessage::PartiesNotFound => "Cannot get the user or merchant from the database.",
            PayMessage::TransactionFailed => "The blockchain transaction failed.",
        }
    }
}

/// A payment goes ahead only when exactly one payer row and exactly one
/// merchant row (by the receiving address) are found.
pub fn pay_parties_found(users: usize, merchants: usize) -> (found: bool)
    ensures
        found == (users == 1 && merchants == 1),
{
    users == 1 && merchants == 1
}

/// The status and message of a payment that goes ahead: the parties
/// must be found and then the transaction must go through.
pub fn pay_result(parties_found: bool, tx_sent: bool) -> (res: (bool, PayMessage))
    ensures
        res.0 == (parties_found && tx_sent),
        !parties_found ==> res.1 == PayMessage::PartiesNotFound,
        parties_found && !tx_sent ==> res.1 == PayMessage::TransactionFailed,
        parties_found && tx_sent ==> res.1 == PayMessage::Paid,
{
    if !parties_found {
        (false, PayMessage::PartiesNotFound)
    } else if !tx_sent {
        (false, PayMessage::TransactionFailed)
    } else {
        (true, PayMessage::Paid)
    }
}

/// Whether a transaction calls `name(address,uint256)` on `to` with the
/// address denoted by `arg_text` and `cents`, sending no ether.
pub open spec fn is_address_amount_tx(
    t: TxRequest,
    to: Seq<u8>,
    signature: Seq<char>,
    arg_text: Seq<char>,
    cents: nat,
) -> bool {
    &&& t.to.bytes@ == to
    &&& t.data@ == abi_selector(signature) + Seq::new(12, |i: int| 0u8) + parse_address_text(
        arg_text,
    )->0 + be_word(cents)
    &&& t.value.value() == 0
}

proof fn lemma_call_shape(signature: Seq<char>, a: Address, cents: nat)
    ensures
        abi_selector(signature) + address_word(a) + be_word(cents) == abi_selector(signature)
            + Seq::new(12, |i: int| 0u8) + a.bytes@ + be_word(cents),
{
    assert(abi_selector(signature) + address_word(a) + be_word(cents) =~= abi_selector(signature)
        + Seq::new(12, |i: int| 0u8) + a.bytes@ + be_word(cents));
}

/// The PBM payment: a call of `pay(merchant, cents)` on the PBM contract.
/// No transaction when either address text does not parse.
pub fn pay_transaction(pool_text: &str, to_text: &str, cents: u64) -> (t: Option<TxRequest>)
    ensures
        t is Some <==> parse_address_text(pool_text@) is Some && parse_address_text(to_text@) is Some,
        t matches Some(t) ==> is_address_amount_tx(
            t,
            parse_address_text(pool_text@)->0,
            "pay(address,uint256)"@,
            to_text@,
            cents as nat,
        ),
{
    let pool = match h160_from_str(pool_text) {
        Some(a) => a,
        None => return None,
    };
    let receiver = match h160_from_str(to_text) {
        Some(a) => a,
        None => return None,
    };
    let data = create_pbm_pay_data(receiver, Uint256::from_u64(cents)).unwrap();
    proof {
        lemma_call_shape("pay(address,uint256)"@, receiver, cents as nat);
    }
    Some(TxRequest { to: pool, data, value: Uint256::from_u64(0) })
}

/// The two funding transactions: the ERC-20 `approve(pbm, cents)` on the
/// token, then `fundUser(user, cents)` on the PBM contract. None when an
/// address text does not parse.
pub fn add_fund_transactions(pool_text: &str, token_text: &str, user_text: &str, cents: u64) -> (txs:
    Option<(TxRequest, TxRequest)>)
    ensures
        txs is Some <==> parse_address_text(pool_text@) is Some && parse_address_text(token_text@) is Some
            && parse_address_text(user_text@) is Some,
        txs matches Some(p) ==> is_address_amount_tx(
            p.0,
            parse_address_text(token_text@)->0,
            "approve(address,uint256)"@,
            pool_text@,
            cents as nat,
        ) && is_address_amount_tx(
            p.1,
            parse_address_text(pool_text@)->0,
            "fundUser(address,uint256)"@,
            user_text@,
            cents as nat,
        ),
{
    let pool = match h160_from_str(pool_text) {
        Some(a) => a,
        None => return None,
    };
    let token = match h160_from_str(token_text) {
        Some(a) => a,
        None => return None,
    };
    let user = match h160_from_str(user_text) {
        Some(a) => a,
        None => return None,
    };
    let approve = create_erc20_approve_data(pool, Uint256::from_u64(cents)).unwrap();
    let fund = create_pbm_funduser_data(user, Uint256::from_u64(cents)).unwrap();
    proof {
        lemma_call_shape("approve(address,uint256)"@, pool, cents as nat);
        lemma_call_shape("fundUser(address,uint256)"@, user, cents as nat);
    }
    Some(
        (
            TxRequest { to: token, data: approve, value: Uint256::from_u64(0) },
            TxRequest { to: pool, data: fund, value: Uint256::from_u64(0) },
        ),
    )
}

/// The redemption: an ERC-20 `transfer(redeem_address, cents)` signed by the
/// merchant. None when an address text does not parse.
pub fn redeem_transaction(token_text: &str, redeem_text: &str, cents: u64) -> (t: Option<TxRequest>)
    ensures
        t is Some <==> parse_address_text(token_text@) is Some && parse_address_text(redeem_text@) is Some,
        t matches Some(t) ==> is_address_amount_tx(
            t,
            parse_address_text(token_text@)->0,
            "transfer(address,uint256)"@,
            redeem_text@,
            cents as nat,
        ),
{
    let token = match h160_from_str(token_text) {
        Some(a) => a,
        None => return None,
    };
    let to = match h160_from_str(redeem_text) {
        Some(a) => a,
        None => return None,
    };
    let data = create_erc20_transfer_data(to, Uint256::from_u64(cents)).unwrap();
    proof {
        lemma_call_shape("transfer(address,uint256)"@, to, cents as nat);
    }
    Some(TxRequest { to: token, data, value: Uint256::from_u64(0) })
}

/// What a redemption response reports.
pub fn redeem_message(merchant_found: bool) -> (t: &'static str)
    ensures
        merchant_found ==> t@ == "Success"@,
        !merchant_found ==> t@ == "Cannot find the merchant"@,
{
    if merchant_found {
        "Success"
    } else {
        "Cannot find the merchant"
    }
}

/// The PIN check refuses only a PIN that differs from the session's: a
/// payment of any amount whose PIN is the one last sent is never refused for
/// the PIN, and goes ahead whenever someone is signed in.
pub proof fn lemma_matching_pin_accepted(above_limit: bool, pin: Seq<char>, user_id: u64)
    ensures
        pay_gate_of(above_limit, pin, pin, user_id) != PayGate::WrongPin,
        user_id != 0 ==> pay_gate_of(above_limit, pin, pin, user_id) == PayGate::Proceed,
        user_id == 0 ==> pay_gate_of(above_limit, pin, pin, user_id) == PayGate::Unauthorized,
{
}

} // verus!
