//! Login: by a link sent to the phone or the email of an active account,
//! and by the code in that link; and the payment PIN sent to signed-in users.
use vstd::prelude::*;
use crate::grants::is_decimal_digit;
use ethers_core::rand::Rng;

verus! {

/// How the login link is delivered.
pub enum LoginChannel {
    Phone,
    Email,
}

/// What a login-link response reports.
pub enum LoginMessage {
    Success,
    SendFailed,
    PhoneNotActivated,
    EmailNotActivated,
}

pub open spec fn login_message_text(m: LoginMessage) -> Seq<char> {
    match m {
        LoginMessage::Success => "Success"@,
        LoginMessage::SendFailed => "Failed to send login link! Please try again later."@,
        LoginMessage::PhoneNotActivated => "The phone number is not activated. Please sign up first."@,
        LoginMessage::EmailNotActivated => "The email is not activated. Please sign up first."@,
    }
}

impl LoginMessage {
    pub fn text(&self) -> (t: &'static str)
        ensures
            t@ == login_message_text(*self),
    {
        match self {
            LoginMessage::Success => "Success",
            LoginMessage::SendFailed => "Failed to send login link! Please try again later.",
            LoginMessage::PhoneNotActivated => "The phone number is not activated. Please sign up first.",
            LoginMessage::EmailNotActivated => "The email is not activated. Please sign up first.",
        }
    }
}

/// The value of a string of decimal digits.
pub open spec fn decimal_nat(s: Seq<char>) -> nat
    decreases s.len(),
{
    if s.len() == 0 {
        0
    } else {
        decimal_nat(s.drop_last()) * 10 + (s.last() as u32 - '0' as u32) as nat
    }
}

/// The `u64` that a text denotes, as `str::parse::<u64>` reads it: an
/// optional `+`, then one or more decimal digits, below 2^64.
pub open spec fn parse_u64_text(s: Seq<char>) -> Option<nat> {
    let d = if s.len() > 0 && s[0] == '+' {
        s.skip(1)
    } else {
        s
    };
    if d.len() > 0 && (forall|i: int| 0 <= i < d.len() ==> is_decimal_digit(#[trigger] d[i]))
        && decimal_nat(d) <= u64::MAX {
        Some(decimal_nat(d))
    } else {
        None
    }
}

/// Calls `str::parse::<u64>`, which accepts an optional `+` followed by
/// decimal digits whose value fits a `u64`.
#[verifier::external_body]
fn parse_u64(s: &str) -> (res: Option<u64>)
    ensures
        res is Some <==> parse_u64_text(s@) is Some,
        res matches Some(v) ==> v == parse_u64_text(s@)->0,
{
    s.parse::<u64>().ok()
}

/// The role a login request names: its number, or 0 (user) when the text
/// is not a number.
pub fn role_from_text(text: &str) -> (role: u64)
    ensures
        role == match parse_u64_text(text@) {
            Some(v) => v,
            None => 0,
        },
{
    match parse_u64(text) {
        Some(v) => v,
        None => 0,
    }
}

/// The account a login is for: there must be exactly one match.
pub fn single_account(ids: &Vec<u64>) -> (id: Option<u64>)
    ensures
        id is Some <==> ids@.len() == 1,
        id matches Some(v) ==> v == ids@[0],
{
    if ids.len() == 1 {
        Some(ids[0])
    } else {
        None
    }
}

/// The status and message of a login-link request: a link goes out only to
/// exactly one active account, and the request succeeds when it was sent.
pub fn login_link_result(channel: LoginChannel, account_found: bool, link_sent: bool) -> (res: (
    bool,
    LoginMessage,
))
    ensures
        res.0 == (account_found && link_sent),
        !account_found ==> res.1 == match channel {
            LoginChannel::Phone => LoginMessage::PhoneNotActivated,
            LoginChannel::Email => LoginMessage::EmailNotActivated,
        },
        account_found && !link_sent ==> res.1 == LoginMessage::SendFailed,
        account_found && link_sent ==> res.1 == LoginMessage::Success,
{
    if !account_found {
        match channel {
            LoginChannel::Phone => (false, LoginMessage::PhoneNotActivated),
            LoginChannel::Email => (false, LoginMessage::EmailNotActivated),
        }
    } else if !link_sent {
        (false, LoginMessage::SendFailed)
    } else {
        (true, LoginMessage::Success)
    }
}

/// Whether following a login code opens a session: only for a code that
/// names a user (a nonzero id).
pub fn login_opens_session(user_id: u64) -> (opens: bool)
    ensures
        opens == (user_id != 0),
{
    user_id != 0
}

/// The status of following a login code: the code must be known, and when
/// it names a user the session must open.
pub fn login_code_status(code_known: bool, user_id: u64, session_opened: bool) -> (status: bool)
    ensures
        status == (code_known && (user_id != 0 ==> session_opened)),
{
    code_known && (user_id == 0 || session_opened)
}

/// Calls `rand::Rng::gen_range(0..10)` on `rand::thread_rng()` (through
/// `ethers_core::rand`): a random digit value.
#[verifier::external_body]
fn random_digit() -> (d: u8)
    ensures
        d < 10,
{
    ethers_core::rand::thread_rng().gen_range(0..10u8)
}

/// The text of one decimal digit.
fn digit_text(d: u8) -> (t: &'static str)
    requires
        d < 10,
    ensures
        t@ == seq![((d + 48) as u8) as char],
{
    proof {
        reveal_strlit("0");
        reveal_strlit("1");
        reveal_strlit("2");
        reveal_strlit("3");
        reveal_strlit("4");
        reveal_strlit("5");
        reveal_strlit("6");
        reveal_strlit("7");
        reveal_strlit("8");
        reveal_strlit("9");
    }
    match d {
        0 => "0",
        1 => "1",
        2 => "2",
        3 => "3",
        4 => "4",
        5 => "5",
        6 => "6",
        7 => "7",
        8 => "8",
        _ => "9",
    }
}

/// The text of a PIN: one decimal digit per digit value.
pub open spec fn pin_digits_text(digits: Seq<u8>) -> Seq<char> {
    Seq::new(digits.len(), |i: int| ((digits[i] + 48) as u8) as char)
}

/// The text of a four-digit payment PIN.
pub fn pin_text(digits: [u8; 4]) -> (pin: String)
    requires
        forall|i: int| 0 <= i < 4 ==> #[trigger] digits@[i] < 10,
    ensures
        pin@ == pin_digits_text(digits@),
{
    let mut pin = String::new();
    let mut k: usize = 0;
    while k < 4
        invariant
            k <= 4,
            forall|i: int| 0 <= i < 4 ==> #[trigger] digits@[i] < 10,
            pin@ == pin_digits_text(digits@.take(k as int)),
        decreases 4 - k,
    {
        let ghost before = pin@;
        pin.append(digit_text(digits[k]));
        proof {
            assert(pin_digits_text(digits@.take(k + 1)) =~= before + seq![
                ((digits@[k as int] + 48) as u8) as char,
            ]);
        }
        k = k + 1;
    }
    proof {
        assert(digits@.take(4) =~= digits@);
    }
    pin
}

/// A fresh payment PIN: four random decimal digits.
pub fn new_payment_pin() -> (pin: String)
    ensures
        pin@.len() == 4,
        forall|i: int| 0 <= i < 4 ==> is_decimal_digit(#[trigger] pin@[i]),
        exists|digits: Seq<u8>|
            digits.len() == 4 && (forall|i: int| 0 <= i < 4 ==> #[trigger] digits[i] < 10) && pin@
                == pin_digits_text(digits),
{
    let digits: [u8; 4] = [random_digit(), random_digit(), random_digit(), random_digit()];
    let pin = pin_text(digits);
    proof {
        assert forall|i: int| 0 <= i < 4 implies is_decimal_digit(#[trigger] pin@[i]) by {
            assert(digits@[i] < 10);
        }
    }
    pin
}

} // verus!
