use charity_pbm::accounts::{one_row_found, signed_in, AuthUser};
use charity_pbm::session::{
    default_headers, get_session_id, merchant_session_identity, session_cookie, session_table,
    single_identity, user_session_identity, AccountTable,
};

fn h(k: &str, v: &str) -> (String, String) {
    (k.to_string(), v.to_string())
}

#[test]
fn session_id_from_cookie_header() {
    let headers = vec![h("Content-Type", "text/plain"), h("Cookie", "a=1; SESSIONID=abc-123 ; b=2")];
    assert_eq!(get_session_id(headers), "abc-123");
}

#[test]
fn session_cookie_name_must_match_exactly() {
    assert_eq!(get_session_id(vec![h("cookie", "sessionid=abc")]), "");
    assert_eq!(get_session_id(vec![h("cookie", "SESSIONID=a=b")]), "");
    assert_eq!(get_session_id(vec![h("set-cookie", "SESSIONID=abc")]), "");
    assert_eq!(get_session_id(vec![]), "");
}

#[test]
fn header_name_is_case_insensitive_and_last_cookie_wins() {
    let headers = vec![h("COOKIE", "SESSIONID=first"), h("cookie", "x=y;SESSIONID=second")];
    assert_eq!(get_session_id(headers), "second");
}

#[test]
fn cookie_round_trip() {
    let sid = "0b5e2c1a-8f7d-4c3b-9a21-3f6d5e4c2b1a";
    let set_cookie = session_cookie(sid, "example.org");
    assert_eq!(
        set_cookie,
        format!("SESSIONID={}; Domain=example.org; Path=/; SameSite=None; Secure; HttpOnly", sid)
    );
    let sent_back = set_cookie.split(';').next().unwrap().to_string();
    assert_eq!(get_session_id(vec![h("Cookie", &sent_back)]), sid);
}

#[test]
fn default_response_headers() {
    let headers = default_headers("https://shop.example".to_string());
    assert_eq!(headers.len(), 5);
    assert_eq!(headers[0], h("content-type", "application/json"));
    assert_eq!(headers[1], h("Access-Control-Allow-Origin", "https://shop.example"));
    assert_eq!(headers[2], h("Access-Control-Allow-Methods", "GET, POST, OPTIONS"));
    assert_eq!(headers[3], h("Access-Control-Allow-Credentials", "true"));
    assert_eq!(
        headers[4],
        h("Access-Control-Allow-Headers", "Set-Cookie,cookie,api,Keep-Alive,User-Agent,Content-Type")
    );
}

#[test]
fn nobody_is_signed_in_by_default() {
    let au = AuthUser::default();
    assert_eq!(au.user_id, 0);
    assert_eq!(au.pin, "");
    assert_eq!(au.role, 0);
}

#[test]
fn session_identities() {
    assert!(matches!(session_table(0), Some(AccountTable::Users)));
    assert!(matches!(session_table(1), Some(AccountTable::Merchants)));
    assert!(session_table(2).is_none());
    let u = user_session_identity(7, "65".into(), "91234567".into(), 1, "".into(), 0);
    assert_eq!((u.user_id, u.pin.as_str(), u.phone_active, u.role), (7, "PIN", 1, 0));
    let m = merchant_session_identity(9, "65".into(), "8888".into(), "m@x".into());
    assert_eq!((m.phone_active, m.email_active, m.role), (-1, -1, 1));
    assert!(single_identity(vec![u, m]).is_none());
    let only = single_identity(vec![user_session_identity(3, "1".into(), "2".into(), 1, "".into(), 0)]);
    assert_eq!(only.unwrap().user_id, 3);
    assert!(single_identity(vec![]).is_none());
}

#[test]
fn pin_replacement_keeps_identity() {
    let au = user_session_identity(5, "1".into(), "555".into(), 1, "e@x".into(), 1);
    let au = au.with_pin("4321".to_string());
    assert_eq!((au.user_id, au.pin.as_str(), au.email.as_str()), (5, "4321", "e@x"));
}

#[test]
fn signed_in_and_single_rows() {
    assert!(!signed_in(&AuthUser::default()));
    let u = user_session_identity(7, "65".into(), "91234567".into(), 1, "".into(), 0);
    assert!(signed_in(&u));
    assert!(one_row_found(1));
    assert!(!one_row_found(0));
    assert!(!one_row_found(2));
}
