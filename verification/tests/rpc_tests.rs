use charity_pbm::accounts::AuthUser;
use charity_pbm::login::pin_text;
use charity_pbm::payment::{pay_gate, spend_pin, PayGate};
use charity_pbm::rpc::{checked_rpc_result, reply_has_result, rpc_result, ReplyError};
use charity_pbm::session::new_code;
use charity_pbm::request::{
    add_fund_request, body_password_matches, login_email_request, login_phone_request, pay_request,
    register_request,
};

#[test]
fn reply_results_as_text() {
    assert_eq!(rpc_result(r#"{"jsonrpc":"2.0","id":1,"result":"0x1a"}"#).unwrap(), "0x1a");
    assert_eq!(rpc_result(r#"{"result":5}"#).unwrap(), "5");
    assert_eq!(rpc_result(r#"{"result":null}"#).unwrap(), "null");
    assert_eq!(rpc_result(r#"{"result":{"a":1}}"#).unwrap(), r#"{"a":1}"#);
    assert_eq!(rpc_result(r#"{"result":""}"#).unwrap(), "");
}

#[test]
fn replies_without_result() {
    let error_reply = r#"{"error":{"code":-32000}}"#;
    assert!(!reply_has_result(error_reply));
    assert!(matches!(checked_rpc_result(error_reply), Err(ReplyError::NoResult)));
    assert!(reply_has_result("not json"));
    assert_eq!(rpc_result("not json"), None);
    assert!(matches!(checked_rpc_result("not json"), Err(ReplyError::NotJson)));
    assert_eq!(rpc_result("[1,2]"), None);
    assert_eq!(checked_rpc_result(r#"{"result":"0x1"}"#).unwrap(), "0x1");
}

#[test]
fn codes_are_hyphenated_uuids() {
    let c = new_code();
    assert_eq!(c.len(), 36);
    for (i, ch) in c.chars().enumerate() {
        if i == 8 || i == 13 || i == 18 || i == 23 {
            assert_eq!(ch, '-');
        } else {
            assert!(ch.is_ascii_hexdigit() && !ch.is_ascii_uppercase());
        }
    }
    assert_ne!(new_code(), c);
}

#[test]
fn pin_texts() {
    assert_eq!(pin_text([0, 4, 2, 7]), "0427");
    assert_eq!(pin_text([9, 9, 9, 9]), "9999");
}

#[test]
fn a_spent_pin_pays_no_more() {
    let au = AuthUser::new(5, "1234".into(), "65".into(), "9".into(), 1, "".into(), 0, 0);
    assert!(matches!(pay_gate(true, "1234", &au), PayGate::Proceed));
    let spent = spend_pin(au);
    assert_eq!(spent.pin, "PIN");
    assert_eq!(spent.user_id, 5);
    assert!(matches!(pay_gate(true, "1234", &spent), PayGate::WrongPin));
    assert!(matches!(pay_gate(false, "1234", &spent), PayGate::Proceed));
}

#[test]
fn request_bodies() {
    let body = br#"{"firstname":"Ada","lastname":"Lovelace","phone_country":"65","phone_number":"9123"}"#;
    let r = register_request(body).unwrap();
    assert_eq!((r.firstname.as_str(), r.lastname.as_str()), ("Ada", "Lovelace"));
    assert_eq!((r.phone_country.as_str(), r.phone_number.as_str()), ("65", "9123"));
    assert!(register_request(br#"{"firstname":"Ada","lastname":"L","phone_country":65,"phone_number":"1"}"#).is_none());
    assert!(register_request(b"not json").is_none());
    assert!(register_request(br#"["firstname"]"#).is_none());

    let l = login_phone_request(br#"{"phone_country":"1","phone_number":"555","role":"1"}"#).unwrap();
    assert_eq!((l.role, l.redirect_url.as_str()), (1, ""));
    let l = login_phone_request(br#"{"phone_country":"1","phone_number":"555","role":"x","redirect_url":"/a"}"#).unwrap();
    assert_eq!((l.role, l.redirect_url.as_str()), (0, "/a"));
    assert!(login_phone_request(br#"{"phone_country":"1","phone_number":"555","role":"1","redirect_url":3}"#).is_none());
    assert!(login_phone_request(br#"{"phone_country":"1","phone_number":"555"}"#).is_none());

    let e = login_email_request(br#"{"email":"a@b.c","role":"0","redirect_url":"/p"}"#).unwrap();
    assert_eq!((e.email.as_str(), e.role, e.redirect_url.as_str()), ("a@b.c", 0, "/p"));
    assert!(login_email_request(br#"{"role":"0"}"#).is_none());

    let p = pay_request(br#"{"pin":"0427","to_address":"0xab","amount":"12.5"}"#).unwrap();
    assert_eq!((p.pin.as_str(), p.to_address.as_str(), p.amount.as_str()), ("0427", "0xab", "12.5"));
    assert!(pay_request(br#"{"pin":"0427","to_address":"0xab","amount":12.5}"#).is_none());

    let f = add_fund_request(br#"{"password":"s","phone_country":"65","phone_number":"9","amount":3}"#).unwrap();
    assert_eq!((f.password.as_str(), f.phone_country.as_str(), f.phone_number.as_str()), ("s", "65", "9"));

    assert_eq!(body_password_matches(br#"{"password":"s3cret"}"#, "s3cret"), Some(true));
    assert_eq!(body_password_matches(br#"{"password":"nope"}"#, "s3cret"), Some(false));
    assert_eq!(body_password_matches(br#"{}"#, "s3cret"), None);
}
