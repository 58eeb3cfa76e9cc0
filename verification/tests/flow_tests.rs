use charity_pbm::accounts::AuthUser;
use charity_pbm::activate::{
    activation_mode_text, parse_activation_mode, ActivationAction, ActivationEvent, ActivationFlow,
    ActivationMessage, ActivationMode, ActivationStage,
};
use charity_pbm::eth::Address;
use charity_pbm::grants::{activation_grant, grant_from_list};
use charity_pbm::login::{
    login_code_status, login_link_result, login_opens_session, new_payment_pin, role_from_text,
    single_account, LoginChannel, LoginMessage,
};
use charity_pbm::payment::{
    add_fund_transactions, may_act_as_merchant, may_list_user_transactions, password_matches,
    pay_gate, pay_parties_found, pay_result, pay_transaction, redeem_message, redeem_transaction,
    PayGate, PayMessage,
};
use charity_pbm::profile::{balance_cents, balance_query, profile_found, BalanceSource};
use charity_pbm::register::{RegisterAction, RegisterEvent, RegisterFlow, RegisterMessage};
use charity_pbm::sms::{tencent_outcome, SendStatus};

fn hex(bytes: &[u8]) -> String {
    bytes.iter().map(|b| format!("{:02x}", b)).collect()
}

fn word_of(byte: u8) -> String {
    format!("{}{}", "00".repeat(12), format!("{:02x}", byte).repeat(20))
}

fn amount_word(v: u64) -> String {
    format!("{:064x}", v)
}

fn user(id: u64, role: u64, pin: &str) -> AuthUser {
    AuthUser::new(id, pin.into(), "65".into(), "9123".into(), 1, "".into(), 0, role)
}

#[test]
fn sign_up_by_phone_succeeds() {
    let mut f = RegisterFlow::start("", "91234567");
    assert!(matches!(f.pending(), RegisterAction::LookupTaken));
    assert!(matches!(
        f.step(RegisterEvent::TakenCounts { by_email: 0, by_phone: 0 }),
        RegisterAction::InsertUser
    ));
    assert!(matches!(
        f.step(RegisterEvent::Inserted { id: Some(42) }),
        RegisterAction::SendSmsActivation { uid: 42 }
    ));
    let a = f.step(RegisterEvent::SmsSent { ok: true });
    assert!(matches!(a, RegisterAction::Respond { status: true, message: RegisterMessage::NoMessage }));
    assert_eq!(RegisterMessage::NoMessage.text(), "");
}

#[test]
fn sign_up_with_taken_phone_fails() {
    let mut f = RegisterFlow::start("", "91234567");
    let a = f.step(RegisterEvent::TakenCounts { by_email: 0, by_phone: 1 });
    match a {
        RegisterAction::Respond { status, message } => {
            assert!(!status);
            assert_eq!(message.text(), "The email or phone number is already taken!");
        }
        _ => panic!("expected a response"),
    }
}

#[test]
fn sign_up_without_contact_fails_after_insert() {
    let mut f = RegisterFlow::start(" ", "  ");
    f.step(RegisterEvent::TakenCounts { by_email: 0, by_phone: 0 });
    let a = f.step(RegisterEvent::Inserted { id: Some(1) });
    match a {
        RegisterAction::Respond { status, message } => {
            assert!(!status);
            assert_eq!(
                message.text(),
                "You must provide a validate email address or a mobile phone number."
            );
        }
        _ => panic!("expected a response"),
    }
}

#[test]
fn sign_up_by_email_and_phone_reports_last_failure() {
    let mut f = RegisterFlow::start("a@b.c", "555");
    f.step(RegisterEvent::TakenCounts { by_email: 0, by_phone: 0 });
    assert!(matches!(
        f.step(RegisterEvent::Inserted { id: Some(8) }),
        RegisterAction::SendEmailActivation { uid: 8 }
    ));
    assert!(matches!(
        f.step(RegisterEvent::EmailSent { ok: false }),
        RegisterAction::SendSmsActivation { uid: 8 }
    ));
    let a = f.step(RegisterEvent::SmsSent { ok: false });
    assert!(matches!(a, RegisterAction::Respond { status: false, message: RegisterMessage::SmsFailed }));
    let mut g = RegisterFlow::start("", "555");
    g.step(RegisterEvent::TakenCounts { by_email: 0, by_phone: 0 });
    let a = g.step(RegisterEvent::Inserted { id: None });
    assert!(matches!(a, RegisterAction::Respond { status: false, message: RegisterMessage::InsertFailed }));
}

fn contracts() -> (Address, Address) {
    (Address { bytes: [0x33; 20] }, Address { bytes: [0x44; 20] })
}

#[test]
fn activation_with_grant_runs_all_steps() {
    let (pool, token) = contracts();
    let receiver_text = format!("0x{}", "22".repeat(20));
    let mut f = ActivationFlow::start(Some(ActivationMode::Phone), &receiver_text, pool, token, 5);
    assert!(matches!(f.pending(), ActivationAction::SendTransaction));
    let t = f.transaction().unwrap();
    assert_eq!(t.to.bytes, [0x33; 20]);
    assert_eq!(hex(&t.data), format!("421b2d8b{}", word_of(0x22)));
    assert_eq!(t.value.limbs, [0, 0, 0, 0]);
    f.step(ActivationEvent::TransactionSent { hash: Some("0xa".into()) });
    let t = f.transaction().unwrap();
    assert_eq!(t.to.bytes, [0x22; 20]);
    assert_eq!(t.data, vec![0u8; 32]);
    assert_eq!(t.value.limbs, [100_000_000_000_000_000, 0, 0, 0]);
    f.step(ActivationEvent::TransactionSent { hash: Some("0xb".into()) });
    let t = f.transaction().unwrap();
    assert_eq!(t.to.bytes, [0x44; 20]);
    assert_eq!(hex(&t.data), format!("095ea7b3{}{}", word_of(0x33), amount_word(500)));
    f.step(ActivationEvent::TransactionSent { hash: Some("0xc".into()) });
    let t = f.transaction().unwrap();
    assert_eq!(t.to.bytes, [0x33; 20]);
    assert_eq!(hex(&t.data), format!("4e23a144{}{}", word_of(0x22), amount_word(500)));
    f.step(ActivationEvent::TransactionSent { hash: Some("0xfund".into()) });
    assert!(matches!(f.pending(), ActivationAction::ActivateAccount { mode: ActivationMode::Phone }));
    assert_eq!(f.tx_hash, "0xfund");
    f.step(ActivationEvent::AccountActivated { ok: true });
    assert!(matches!(f.pending(), ActivationAction::OpenSession));
    f.step(ActivationEvent::SessionOpened { ok: true });
    assert!(matches!(
        f.pending(),
        ActivationAction::Respond { status: true, message: ActivationMessage::Activated }
    ));
    assert_eq!(ActivationMessage::Activated.text(), "Activated successfully.");
}

#[test]
fn activation_without_grant_skips_funding() {
    let (pool, token) = contracts();
    let receiver_text = format!("0x{}", "22".repeat(20));
    let mut f = ActivationFlow::start(Some(ActivationMode::Email), &receiver_text, pool, token, 0);
    f.step(ActivationEvent::TransactionSent { hash: Some("a".into()) });
    f.step(ActivationEvent::TransactionSent { hash: Some("b".into()) });
    assert!(matches!(f.stage, ActivationStage::ActivateAccount));
    assert!(f.transaction().is_none());
    assert_eq!(f.tx_hash, "");
}

#[test]
fn activation_failures() {
    let (pool, token) = contracts();
    let f = ActivationFlow::start(Some(ActivationMode::Email), "0xnothex", pool, token, 1);
    match f.pending() {
        ActivationAction::Respond { status, message } => {
            assert!(!status);
            assert_eq!(message.text(), "Failed to generate a valid ETH address.");
        }
        _ => panic!("expected a response"),
    }
    let receiver_text = format!("0x{}", "22".repeat(20));
    let mut g = ActivationFlow::start(None, &receiver_text, pool, token, 0);
    g.step(ActivationEvent::TransactionSent { hash: Some("a".into()) });
    g.step(ActivationEvent::TransactionSent { hash: None });
    assert!(matches!(
        g.pending(),
        ActivationAction::Respond { status: false, message: ActivationMessage::GasFeeFailed }
    ));
    let mut h = ActivationFlow::start(None, &receiver_text, pool, token, 0);
    h.step(ActivationEvent::TransactionSent { hash: Some("a".into()) });
    h.step(ActivationEvent::TransactionSent { hash: Some("b".into()) });
    match h.pending() {
        ActivationAction::Respond { status, message } => {
            assert!(!status);
            assert_eq!(message.text(), "The mode is neither phone or email.");
        }
        _ => panic!("expected a response"),
    }
}

#[test]
fn activation_modes() {
    assert!(matches!(parse_activation_mode("email"), Some(ActivationMode::Email)));
    assert!(matches!(parse_activation_mode("phone"), Some(ActivationMode::Phone)));
    assert!(parse_activation_mode("Phone").is_none());
    assert_eq!(activation_mode_text(&ActivationMode::Phone), "phone");
}

#[test]
fn grant_list_lookup() {
    let csv = b"id,name,phone_country,phone_number,amount\n1,a,65,9123,50\n2,b,1,555,7\n3,c,1,555,9\n";
    assert_eq!(grant_from_list(csv, "1", "555"), Some(7));
    assert_eq!(grant_from_list(csv, "65", "9123"), Some(50));
    assert_eq!(grant_from_list(csv, "44", "1"), Some(0));
    let bad = b"id,name,phone_country,phone_number,amount\n1,a,65,9123,lots\n";
    assert_eq!(grant_from_list(bad, "65", "9123"), None);
    assert_eq!(grant_from_list(bad, "65", "1"), Some(0));
    let short = b"id,name,phone_country,phone_number,amount\n1,a,65\n";
    assert_eq!(grant_from_list(short, "65", "1"), None);
}

#[test]
fn grant_rows_lookup() {
    let row = |f: &[&str]| f.iter().map(|s| s.to_string()).collect::<Vec<String>>();
    let rows = vec![row(&["1", "a", "65", "9123", "50"]), row(&["2", "b", "1", "555", "7"])];
    assert_eq!(activation_grant(&rows, false, "1", "555"), Some(7));
    assert_eq!(activation_grant(&rows, false, "44", "1"), Some(0));
    assert_eq!(activation_grant(&rows, true, "44", "1"), None);
    let rows = vec![row(&["1", "a", "65"]), row(&["2", "b", "1", "555", "7"])];
    assert_eq!(activation_grant(&rows, false, "1", "555"), None);
}

#[test]
fn login_decisions() {
    assert_eq!(role_from_text("1"), 1);
    assert_eq!(role_from_text("+2"), 2);
    assert_eq!(role_from_text("merchant"), 0);
    assert_eq!(role_from_text(""), 0);
    assert_eq!(single_account(&vec![7]), Some(7));
    assert_eq!(single_account(&vec![7, 8]), None);
    assert_eq!(single_account(&vec![]), None);
    let (s, m) = login_link_result(LoginChannel::Phone, false, false);
    assert!(!s);
    assert_eq!(m.text(), "The phone number is not activated. Please sign up first.");
    let (s, m) = login_link_result(LoginChannel::Email, false, true);
    assert!(!s);
    assert_eq!(m.text(), "The email is not activated. Please sign up first.");
    let (s, m) = login_link_result(LoginChannel::Email, true, false);
    assert!(!s && matches!(m, LoginMessage::SendFailed));
    let (s, m) = login_link_result(LoginChannel::Phone, true, true);
    assert!(s);
    assert_eq!(m.text(), "Success");
    assert!(login_opens_session(3) && !login_opens_session(0));
    assert!(login_code_status(true, 0, false));
    assert!(!login_code_status(true, 4, false));
    assert!(!login_code_status(false, 0, true));
}

#[test]
fn payment_pins_are_four_digits() {
    for _ in 0..20 {
        let pin = new_payment_pin();
        assert_eq!(pin.len(), 4);
        assert!(pin.chars().all(|c| c.is_ascii_digit()));
    }
}

#[test]
fn payment_gate() {
    assert!(matches!(pay_gate(true, "1234", &user(5, 0, "9999")), PayGate::WrongPin));
    assert!(matches!(pay_gate(true, "1234", &user(0, 0, "9999")), PayGate::WrongPin));
    assert!(matches!(pay_gate(true, "1234", &user(5, 0, "1234")), PayGate::Proceed));
    assert!(matches!(pay_gate(false, "", &user(5, 0, "PIN")), PayGate::Proceed));
    assert!(matches!(pay_gate(false, "", &user(0, 0, "PIN")), PayGate::Unauthorized));
    assert!(pay_parties_found(1, 1) && !pay_parties_found(1, 2) && !pay_parties_found(0, 1));
    let (s, m) = pay_result(true, true);
    assert!(s && matches!(m, PayMessage::Paid));
    assert_eq!(m.text(), "The payment is successful.");
    let (s, m) = pay_result(false, true);
    assert!(!s);
    assert_eq!(m.text(), "Cannot get the user or merchant from the database.");
    let (s, m) = pay_result(true, false);
    assert!(!s);
    assert_eq!(m.text(), "The blockchain transaction failed.");
    assert_eq!(PayMessage::WrongPin.text(), "The user entered the wrong PIN code.");
}

#[test]
fn payment_and_funding_transactions() {
    let pool = "0x3b8535d3511d564c5B72Eb16977830543aC1b89c";
    let token = "0x69d388C32BCDC33D38846087317457A49f52dB20";
    let merchant = format!("0x{}", "11".repeat(20));
    let t = pay_transaction(pool, &merchant, 2550).unwrap();
    assert_eq!(t.to.bytes, Address::parse(pool).unwrap().bytes);
    assert_eq!(hex(&t.data), format!("c4076876{}{}", word_of(0x11), amount_word(2550)));
    assert!(pay_transaction(pool, "0x12", 1).is_none());
    let (approve, fund) = add_fund_transactions(pool, token, &merchant, 100).unwrap();
    assert_eq!(approve.to.bytes, Address::parse(token).unwrap().bytes);
    assert_eq!(
        hex(&approve.data),
        format!("095ea7b3{}{}", "00".repeat(12) + "3b8535d3511d564c5b72eb16977830543ac1b89c", amount_word(100))
    );
    assert_eq!(fund.to.bytes, Address::parse(pool).unwrap().bytes);
    assert_eq!(hex(&fund.data), format!("4e23a144{}{}", word_of(0x11), amount_word(100)));
    let r = redeem_transaction(token, &merchant, 7).unwrap();
    assert_eq!(hex(&r.data), format!("a9059cbb{}{}", word_of(0x11), amount_word(7)));
    assert!(redeem_transaction(token, "0x", 7).is_none());
    assert_eq!(redeem_message(true), "Success");
    assert_eq!(redeem_message(false), "Cannot find the merchant");
}

#[test]
fn permissions() {
    assert!(password_matches("s3cret", "s3cret"));
    assert!(!password_matches("s3cret", "s3cret "));
    assert!(may_list_user_transactions(&user(4, 0, "PIN")));
    assert!(!may_list_user_transactions(&user(4, 1, "PIN")));
    assert!(!may_list_user_transactions(&user(0, 0, "PIN")));
    assert!(may_act_as_merchant(&user(4, 1, "PIN")));
    assert!(!may_act_as_merchant(&user(4, 0, "PIN")));
}

#[test]
fn profile_balance() {
    let address = format!("0x{}", "ab".repeat(20));
    let (source, data) = balance_query(0, &address).unwrap();
    assert!(matches!(source, BalanceSource::Pbm));
    assert_eq!(data, format!("0x70a08231{}", word_of(0xab)));
    let (source, data2) = balance_query(1, &address).unwrap();
    assert!(matches!(source, BalanceSource::Token));
    assert_eq!(data, data2);
    assert!(balance_query(2, &address).is_none());
    assert_eq!(balance_cents(&format!("0x{}", amount_word(1000))), Some(1000));
    assert_eq!(balance_cents("0x3e8"), Some(1000));
    assert_eq!(balance_cents("0x"), None);
    assert_eq!(balance_cents("x"), None);
    assert_eq!(balance_cents("\u{df}1"), Some(1));
    assert_eq!(balance_cents("a\u{df}1"), None);
    assert_eq!(balance_cents("\u{20ac}1"), None);
    assert_eq!(balance_cents("0x1ffffffffffffffff"), None);
    assert!(profile_found(0, 1) && profile_found(1, 1));
    assert!(!profile_found(2, 1) && !profile_found(0, 0));
}

#[test]
fn tencent_replies() {
    let st = |p: &str, c: &str, m: &str| SendStatus {
        phone_number: p.into(),
        code: c.into(),
        message: m.into(),
    };
    assert_eq!(tencent_outcome("+65", None), Err("Deliver failed".to_string()));
    assert_eq!(tencent_outcome("+65", Some(vec![])), Err("Deliver failed".to_string()));
    let v = vec![st("+1", "Ok", "one"), st("+65", "Fail", "bad"), st("+65", "Ok", "late")];
    assert_eq!(tencent_outcome("+65", Some(v)), Err("bad".to_string()));
    let v = vec![st("+1", "Fail", "x"), st("+65", "Ok", "send success")];
    assert_eq!(tencent_outcome("+65", Some(v)), Ok("send success".to_string()));
}
