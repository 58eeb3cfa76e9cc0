//! Request bodies: the JSON text members that the handlers read from the
//! body of a request.
use vstd::prelude::*;
use crate::login::{parse_u64_text, role_from_text};
use crate::text::str_eq;

verus! {

/// Name for what `serde_json` reads from a request body for one member:
/// `None` when the body is not JSON; otherwise `None` inside when the body
/// has no member named `key` (a body that is not an object has none),
/// `Some(None)` when the member is not a string, and `Some(Some(text))` when
/// it is the string `text`.
pub uninterp spec fn body_member(body: Seq<u8>, key: Seq<char>) -> Option<Option<Option<Seq<char>>>>;

/// A member read as above, with its text as a character sequence.
pub open spec fn member_view(m: Option<Option<Option<String>>>) -> Option<Option<Option<Seq<char>>>> {
    match m {
        None => None,
        Some(None) => Some(None),
        Some(Some(None)) => Some(Some(None)),
        Some(Some(Some(s))) => Some(Some(Some(s@))),
    }
}

/// Calls `serde_json::from_slice::<Value>` on the body, then `Value::get`
/// with the key and `Value::as_str` on the member.
#[verifier::external_body]
fn read_body_member(body: &[u8], key: &str) -> (m: Option<Option<Option<String>>>)
    ensures
        member_view(m) == body_member(body@, key@),
{
    let v: serde_json::Value = serde_json::from_slice(body).ok()?;
    Some(v.get(key).map(|x| x.as_str().map(|s| s.to_string())))
}

/// The text of a member that must be a string; `None` when the body is not
/// JSON, lacks the member, or the member is not a string.
pub open spec fn body_text(body: Seq<u8>, key: Seq<char>) -> Option<Seq<char>> {
    match body_member(body, key) {
        Some(Some(Some(s))) => Some(s),
        _ => None,
    }
}

/// The text of a member that may be left out, standing for the empty text
/// then; `None` when the body is not JSON or the member is not a string.
pub open spec fn optional_body_text(body: Seq<u8>, key: Seq<char>) -> Option<Seq<char>> {
    match body_member(body, key) {
        Some(None) => Some(Seq::empty()),
        Some(Some(Some(s))) => Some(s),
        _ => None,
    }
}

/// The role that a role text names, or 0 when it is not a number.
pub open spec fn role_of_text(text: Seq<char>) -> u64 {
    match parse_u64_text(text) {
        Some(v) => v as u64,
        None => 0,
    }
}

/// Reads a string member.
fn text_member(body: &[u8], key: &str) -> (t: Option<String>)
    ensures
        t is Some <==> body_text(body@, key@) is Some,
        t matches Some(s) ==> s@ == body_text(body@, key@)->0,
{
    match read_body_member(body, key) {
        Some(Some(Some(s))) => Some(s),
        _ => None,
    }
}

/// Reads a string member that may be left out.
fn optional_text_member(body: &[u8], key: &str) -> (t: Option<String>)
    ensures
        t is Some <==> optional_body_text(body@, key@) is Some,
        t matches Some(s) ==> s@ == optional_body_text(body@, key@)->0,
{
    match read_body_member(body, key) {
        Some(None) => Some(String::new()),
        Some(Some(Some(s))) => Some(s),
        _ => None,
    }
}

/// A sign-up request.
pub struct RegisterRequest {
    pub firstname: String,
    pub lastname: String,
    pub phone_country: String,
    pub phone_number: String,
}

/// Reads a sign-up request: `firstname`, `lastname`, `phone_country` and
/// `phone_number` must all be strings.
pub fn register_request(body: &[u8]) -> (r: Option<RegisterRequest>)
    ensures
        r is Some <==> {
            &&& body_text(body@, "firstname"@) is Some
            &&& body_text(body@, "lastname"@) is Some
            &&& body_text(body@, "phone_country"@) is Some
            &&& body_text(body@, "phone_number"@) is Some
        },
        r matches Some(q) ==> {
            &&& q.firstname@ == body_text(body@, "firstname"@)->0
            &&& q.lastname@ == body_text(body@, "lastname"@)->0
            &&& q.phone_country@ == body_text(body@, "phone_country"@)->0
            &&& q.phone_number@ == body_text(body@, "phone_number"@)->0
        },
{
    let firstname = text_member(body, "firstname");
    let lastname = text_member(body, "lastname");
    let phone_country = text_member(body, "phone_country");
    let phone_number = text_member(body, "phone_number");
    match (firstname, lastname, phone_country, phone_number) {
        (Some(firstname), Some(lastname), Some(phone_country), Some(phone_number)) => Some(
            RegisterRequest { firstname, lastname, phone_country, phone_number },
        ),
        _ => None,
    }
}

/// A request for a login link by phone.
pub struct LoginPhoneRequest {
    pub phone_country: String,
    pub phone_number: String,
    pub role: u64,
    pub redirect_url: String,
}

/// Reads a request for a login link by phone: `phone_country`,
/// `phone_number` and `role` must be strings (a role that is not a number
/// is 0); `redirect_url`, when given, must be a string.
pub fn login_phone_request(body: &[u8]) -> (r: Option<LoginPhoneRequest>)
    ensures
        r is Some <==> {
            &&& body_text(body@, "phone_country"@) is Some
            &&& body_text(body@, "phone_number"@) is Some
            &&& body_text(body@, "role"@) is Some
            &&& optional_body_text(body@, "redirect_url"@) is Some
        },
        r matches Some(q) ==> {
            &&& q.phone_country@ == body_text(body@, "phone_country"@)->0
            &&& q.phone_number@ == body_text(body@, "phone_number"@)->0
            &&& q.role == role_of_text(body_text(body@, "role"@)->0)
            &&& q.redirect_url@ == optional_body_text(body@, "redirect_url"@)->0
        },
{
    let phone_country = text_member(body, "phone_country");
    let phone_number = text_member(body, "phone_number");
    let role = text_member(body, "role");
    let redirect_url = optional_text_member(body, "redirect_url");
    match (phone_country, phone_number, role, redirect_url) {
        (Some(phone_country), Some(phone_number), Some(role), Some(redirect_url)) => {
            let role = role_from_text(role.as_str());
            Some(LoginPhoneRequest { phone_country, phone_number, role, redirect_url })
        },
        _ => None,
    }
}

/// A request for a login link by email.
pub struct LoginEmailRequest {
    pub email: String,
    pub role: u64,
    pub redirect_url: String,
}

/// Reads a request for a login link by email: `email` and `role` must be
/// strings (a role that is not a number is 0); `redirect_url`, when given,
/// must be a string.
pub fn login_email_request(body: &[u8]) -> (r: Option<LoginEmailRequest>)
    ensures
        r is Some <==> {
            &&& body_text(body@, "email"@) is Some
            &&& body_text(body@, "role"@) is Some
            &&& optional_body_text(body@, "redirect_url"@) is Some
        },
        r matches Some(q) ==> {
            &&& q.email@ == body_text(body@, "email"@)->0
            &&& q.role == role_of_text(body_text(body@, "role"@)->0)
            &&& q.redirect_url@ == optional_body_text(body@, "redirect_url"@)->0
        },
{
    let email = text_member(body, "email");
    let role = text_member(body, "role");
    let redirect_url = optional_text_member(body, "redirect_url");
    match (email, role, redirect_url) {
        (Some(email), Some(role), Some(redirect_url)) => {
            let role = role_from_text(role.as_str());
            Some(LoginEmailRequest { email, role, redirect_url })
        },
        _ => None,
    }
}

/// A payment request; the amount is the text of a decimal number of tokens.
pub struct PayRequest {
    pub pin: String,
    pub to_address: String,
    pub amount: String,
}

/// Reads a payment request: `pin`, `to_address` and `amount` must be
/// strings.
pub fn pay_request(body: &[u8]) -> (r: Option<PayRequest>)
    ensures
        r is Some <==> {
            &&& body_text(body@, "pin"@) is Some
            &&& body_text(body@, "to_address"@) is Some
            &&& body_text(body@, "amount"@) is Some
        },
        r matches Some(q) ==> {
            &&& q.pin@ == body_text(body@, "pin"@)->0
            &&& q.to_address@ == body_text(body@, "to_address"@)->0
            &&& q.amount@ == body_text(body@, "amount"@)->0
        },
{
    let pin = text_member(body, "pin");
    let to_address = text_member(body, "to_address");
    let amount = text_member(body, "amount");
    match (pin, to_address, amount) {
        (Some(pin), Some(to_address), Some(amount)) => Some(PayRequest { pin, to_address, amount }),
        _ => None,
    }
}

/// A request to fund a user; its amount is a JSON number.
pub struct AddFundRequest {
    pub password: String,
    pub phone_country: String,
    pub phone_number: String,
}

/// Reads the text members of a request to fund a user: `password`,
/// `phone_country` and `phone_number` must be strings.
pub fn add_fund_request(body: &[u8]) -> (r: Option<AddFundRequest>)
    ensures
        r is Some <==> {
            &&& body_text(body@, "password"@) is Some
            &&& body_text(body@, "phone_country"@) is Some
            &&& body_text(body@, "phone_number"@) is Some
        },
        r matches Some(q) ==> {
            &&& q.password@ == body_text(body@, "password"@)->0
            &&& q.phone_country@ == body_text(body@, "phone_country"@)->0
            &&& q.phone_number@ == body_text(body@, "phone_number"@)->0
        },
{
    let password = text_member(body, "password");
    let phone_country = text_member(body, "phone_country");
    let phone_number = text_member(body, "phone_number");
    match (password, phone_country, phone_number) {
        (Some(password), Some(phone_country), Some(phone_number)) => Some(
            AddFundRequest { password, phone_country, phone_number },
        ),
        _ => None,
    }
}

/// Whether the `password` string of a request body is the expected one;
/// `None` when the body carries no password string.
pub fn body_password_matches(body: &[u8], expected: &str) -> (r: Option<bool>)
    ensures
        r is Some <==> body_text(body@, "password"@) is Some,
        r matches Some(b) ==> b == (body_text(body@, "password"@)->0 == expected@),
{
    match text_member(body, "password") {
        Some(p) => Some(str_eq(p.as_str(), expected)),
        None => None,
    }
}

} // verus!
