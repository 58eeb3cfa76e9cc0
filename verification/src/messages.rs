//! The texts that the service writes: phone numbers, names, and the links
//! and codes that it sends by email and SMS.
use vstd::prelude::*;
use crate::text::str_eq;

verus! {

/// The country registered for a phone country code.
pub open spec fn country_of_code(code: Seq<char>) -> Seq<char> {
    if code == "1"@ {
        "USA"@
    } else if code == "65"@ {
        "Singapore"@
    } else if code == "86"@ {
        "China"@
    } else {
        "unknown"@
    }
}

/// The country registered for a phone country code: the United States,
/// Singapore and China are known, any other code is `unknown`.
pub fn country_for_phone_code(code: &str) -> (country: &'static str)
    ensures
        country@ == country_of_code(code@),
{
    if str_eq(code, "1") {
        "USA"
    } else if str_eq(code, "65") {
        "Singapore"
    } else if str_eq(code, "86") {
        "China"
    } else {
        "unknown"
    }
}

/// The number to send an SMS to: `+`, the country code and the number.
pub fn international_number(phone_country: &str, phone_number: &str) -> (s: String)
    ensures
        s@ == "+"@ + phone_country@ + phone_number@,
{
    let mut s = String::from_str("+");
    s.append(phone_country);
    s.append(phone_number);
    s
}

/// The phone number as transaction records show it: `+code number`.
pub fn display_phone(phone_country: &str, phone_number: &str) -> (s: String)
    ensures
        s@ == "+"@ + phone_country@ + " "@ + phone_number@,
{
    let mut s = String::from_str("+");
    s.append(phone_country);
    s.append(" ");
    s.append(phone_number);
    s
}

/// A person's name as records show it: first name, a space, last name.
pub fn full_name(firstname: &str, lastname: &str) -> (s: String)
    ensures
        s@ == firstname@ + " "@ + lastname@,
{
    let mut s = String::from_str(firstname);
    s.append(" ");
    s.append(lastname);
    s
}

/// The message that carries an account activation link.
pub fn activation_link_message(origin_site: &str, code: &str) -> (s: String)
    ensures
        s@ == "Click on the link to activate: "@ + origin_site@ + "/activate.html?code="@ + code@,
{
    let mut s = String::from_str("Click on the link to activate: ");
    s.append(origin_site);
    s.append("/activate.html?code=");
    s.append(code);
    s
}

/// The message that carries a login link.
pub fn login_link_message(origin_site: &str, code: &str) -> (s: String)
    ensures
        s@ == "Click on the link to login: "@ + origin_site@ + "/login.html?code="@ + code@,
{
    let mut s = String::from_str("Click on the link to login: ");
    s.append(origin_site);
    s.append("/login.html?code=");
    s.append(code);
    s
}

/// The message that carries a payment PIN.
pub fn payment_pin_message(pin: &str) -> (s: String)
    ensures
        s@ == "The payment pin code is "@ + pin@,
{
    let mut s = String::from_str("The payment pin code is ");
    s.append(pin);
    s
}

} // verus!
