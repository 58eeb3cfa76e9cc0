use charity_pbm::eth::{Address, Uint256};
use charity_pbm::tx::estimate_gas_params;
use charity_pbm::hex::to_prefixed_hex;
use charity_pbm::messages::{
    activation_link_message, country_for_phone_code, display_phone, full_name,
    international_number, login_link_message, payment_pin_message,
};
use charity_pbm::session::get_session_id;
use charity_pbm::text::{split_on, str_eq};

#[test]
fn address_text_parses() {
    let a = Address::parse("0x3b8535d3511d564c5B72Eb16977830543aC1b89c").unwrap();
    assert_eq!(a.bytes[0], 0x3b);
    assert_eq!(a.bytes[19], 0x9c);
    let (text, _, _, _) = estimate_gas_params(&a, &a, &Uint256::from_u64(0), &[]);
    assert_eq!(text, "0x3b8535d3511d564c5b72eb16977830543ac1b89c");
    let b = Address::parse("3b8535d3511d564c5B72Eb16977830543aC1b89c").unwrap();
    assert_eq!(a.bytes, b.bytes);
}

#[test]
fn address_text_may_hold_blanks_between_digits() {
    let a = Address::parse("0x3b85 35d3511d564c5B72Eb16977830543aC1b89c\n").unwrap();
    assert_eq!(a.bytes[1], 0x85);
    assert_eq!(a.bytes[2], 0x35);
}

#[test]
fn bad_address_texts_are_refused() {
    assert!(Address::parse("0x3b8535d3511d564c5B72Eb16977830543aC1b89").is_none());
    assert!(Address::parse("0x3b8535d3511d564c5B72Eb16977830543aC1b89c00").is_none());
    assert!(Address::parse("0X3b8535d3511d564c5B72Eb16977830543aC1b89c").is_none());
    assert!(Address::parse("0x3b8535d3511d564c5B72Eb16977830543aC1b8zz").is_none());
    assert!(Address::parse("0x").is_none());
}

#[test]
fn prefixed_hex() {
    assert_eq!(to_prefixed_hex(&[0xde, 0xad, 0x00, 0x0f]), "0xdead000f");
    assert_eq!(to_prefixed_hex(&[]), "0x");
}

#[test]
fn text_operations() {
    assert_eq!(split_on("a;;b", ';'), vec!["a", "", "b"]);
    assert_eq!(split_on("", ';'), vec![""]);
    assert_eq!(split_on("x;", ';'), vec!["x", ""]);
    assert!(str_eq("abc", "abc"));
    assert!(!str_eq("abc", "abd"));
    assert!(!str_eq("abc", "ab"));
}

#[test]
fn cookie_header_texts_are_trimmed_and_lowercased() {
    let headers = vec![(
        "CoOkIe".to_string(),
        "\u{3000}a=b; SESSIONID=\u{a0}xyz\u{a0}\t".to_string(),
    )];
    assert_eq!(get_session_id(headers), "xyz");
    let headers = vec![("COOKIE".to_string(), " \t SESSIONID= a b \r\n".to_string())];
    assert_eq!(get_session_id(headers), "a b");
}

#[test]
fn messages() {
    assert_eq!(country_for_phone_code("1"), "USA");
    assert_eq!(country_for_phone_code("65"), "Singapore");
    assert_eq!(country_for_phone_code("86"), "China");
    assert_eq!(country_for_phone_code("44"), "unknown");
    assert_eq!(international_number("65", "91234567"), "+6591234567");
    assert_eq!(display_phone("65", "91234567"), "+65 91234567");
    assert_eq!(full_name("Ada", "Lovelace"), "Ada Lovelace");
    assert_eq!(
        activation_link_message("https://x.org", "c0de"),
        "Click on the link to activate: https://x.org/activate.html?code=c0de"
    );
    assert_eq!(
        login_link_message("https://x.org", "c0de"),
        "Click on the link to login: https://x.org/login.html?code=c0de"
    );
    assert_eq!(payment_pin_message("0427"), "The payment pin code is 0427");
}
