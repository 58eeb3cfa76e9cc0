//! Cookie sessions: reading the session id from request headers, the
//! `Set-Cookie` value that hands it out, the default response headers, and
//! the choice of the signed-in identity.
use vstd::prelude::*;
use crate::accounts::{AuthUser, USER_ROLE, MERCHANT_ROLE};
use crate::text::{
    split, split_on, str_eq, to_lowercase, trim, trim_end, trim_start, trim_str, unicode_lowercase,
    is_white_space, lemma_split_without_sep, lemma_split_two,
};

verus! {

/// The name of the session cookie.
pub open spec fn session_cookie_name() -> Seq<char> {
    seq!['S', 'E', 'S', 'S', 'I', 'O', 'N', 'I', 'D']
}

/// The header name that carries cookies, in lowercase.
pub open spec fn cookie_header_name() -> Seq<char> {
    seq!['c', 'o', 'o', 'k', 'i', 'e']
}

/// The session id that one `name=value` cookie piece sets, or `acc` if the
/// piece is not the session cookie: the piece is trimmed and split on `=`;
/// exactly two parts whose first is `SESSIONID` give the trimmed second.
pub open spec fn session_in_piece(piece: Seq<char>, acc: Seq<char>) -> Seq<char> {
    let parts = split(trim(piece), '=');
    if parts.len() == 2 && parts[0] == session_cookie_name() {
        trim(parts[1])
    } else {
        acc
    }
}

/// The session id after the cookie pieces `pieces`, taken in order; a later
/// session cookie replaces an earlier one.
pub open spec fn session_in_pieces(pieces: Seq<Seq<char>>, acc: Seq<char>) -> Seq<char>
    decreases pieces.len(),
{
    if pieces.len() == 0 {
        acc
    } else {
        session_in_piece(pieces.last(), session_in_pieces(pieces.drop_last(), acc))
    }
}

/// The session id after one header: a header whose lowercased name is
/// `cookie` is split on `;` after trimming, other headers change nothing.
pub open spec fn session_in_header(name: Seq<char>, value: Seq<char>, acc: Seq<char>) -> Seq<char> {
    if unicode_lowercase(name) == cookie_header_name() {
        session_in_pieces(split(trim(value), ';'), acc)
    } else {
        acc
    }
}

/// The session id that a list of request headers carries: the value of the
/// last `SESSIONID` cookie, or the empty string when there is none.
pub open spec fn session_id_of(headers: Seq<(Seq<char>, Seq<char>)>) -> Seq<char>
    decreases headers.len(),
{
    if headers.len() == 0 {
        Seq::empty()
    } else {
        let h = headers.last();
        session_in_header(h.0, h.1, session_id_of(headers.drop_last()))
    }
}

/// The headers as pairs of character sequences.
pub open spec fn headers_view(headers: Seq<(String, String)>) -> Seq<(Seq<char>, Seq<char>)> {
    headers.map_values(|h: (String, String)| (h.0@, h.1@))
}

/// The session id of a request: the value of the last `SESSIONID` cookie in
/// its `cookie` headers, or the empty string.
pub fn get_session_id(headers: Vec<(String, String)>) -> (session_id: String)
    ensures
        session_id@ == session_id_of(headers_view(headers@)),
{
    let mut session_id = String::new();
    let n = headers.len();
    let mut i: usize = 0;
    proof {
        reveal_strlit("cookie");
        reveal_strlit("SESSIONID");
        assert(headers_view(headers@).take(0) =~= Seq::<(Seq<char>, Seq<char>)>::empty());
    }
    while i < n
        invariant
            n == headers@.len(),
            i <= n,
            session_id@ == session_id_of(headers_view(headers@).take(i as int)),
            "cookie"@ == cookie_header_name(),
            "SESSIONID"@ == session_cookie_name(),
        decreases n - i,
    {
        let k = &headers[i].0;
        let v = &headers[i].1;
        let ghost before = session_id@;
        let lower = to_lowercase(k.as_str());
        if str_eq(lower.as_str(), "cookie") {
            let pieces = split_on(trim_str(v.as_str()), ';');
            let m = pieces.len();
            let mut j: usize = 0;
            proof {
                assert(pieces@.map_values(|p: &str| p@).take(0) =~= Seq::<Seq<char>>::empty());
            }
            while j < m
                invariant
                    m == pieces@.len(),
                    j <= m,
                    session_id@ == session_in_pieces(
                        pieces@.map_values(|p: &str| p@).take(j as int),
                        before,
                    ),
                    "SESSIONID"@ == session_cookie_name(),
                decreases m - j,
            {
                let parts = split_on(trim_str(pieces[j]), '=');
                let ghost pv = pieces@.map_values(|p: &str| p@);
                proof {
                    assert(pv.take(j + 1).drop_last() =~= pv.take(j as int));
                    assert(pv.take(j + 1).last() == pieces@[j as int]@);
                }
                if parts.len() == 2 && str_eq(parts[0], "SESSIONID") {
                    proof {
                        assert(parts@.map_values(|p: &str| p@)[0] == parts@[0]@);
                        assert(parts@.map_values(|p: &str| p@)[1] == parts@[1]@);
                    }
                    session_id = String::from_str(trim_str(parts[1]));
                } else {
                    proof {
                        if parts.len() == 2 {
                            assert(parts@.map_values(|p: &str| p@)[0] == parts@[0]@);
                        }
                    }
                }
                j = j + 1;
            }
            proof {
                assert(pieces@.map_values(|p: &str| p@).take(m as int) =~= pieces@.map_values(
                    |p: &str| p@,
                ));
            }
        }
        proof {
            let hv = headers_view(headers@);
            assert(hv.take(i + 1).drop_last() =~= hv.take(i as int));
            assert(hv.take(i + 1).last() == (headers@[i as int].0@, headers@[i as int].1@));
        }
        i = i + 1;
    }
    proof {
        assert(headers_view(headers@).take(n as int) =~= headers_view(headers@));
    }
    session_id
}

/// The `Set-Cookie` value that hands a session id to the browser.
pub fn session_cookie(session_id: &str, cookie_domain: &str) -> (cookie: String)
    ensures
        cookie@ == "SESSIONID="@ + session_id@ + "; Domain="@ + cookie_domain@
            + "; Path=/; SameSite=None; Secure; HttpOnly"@,
{
    let mut cookie = String::from_str("SESSIONID=");
    cookie.append(session_id);
    cookie.append("; Domain=");
    cookie.append(cookie_domain);
    cookie.append("; Path=/; SameSite=None; Secure; HttpOnly");
    cookie
}

/// The headers of every JSON response: content type and the CORS headers
/// that admit `origin_site` with credentials.
pub fn default_headers(origin_site: String) -> (headers: Vec<(String, String)>)
    ensures
        headers@.len() == 5,
        headers@[0].0@ == "content-type"@,
        headers@[0].1@ == "application/json"@,
        headers@[1].0@ == "Access-Control-Allow-Origin"@,
        headers@[1].1@ == origin_site@,
        headers@[2].0@ == "Access-Control-Allow-Methods"@,
        headers@[2].1@ == "GET, POST, OPTIONS"@,
        headers@[3].0@ == "Access-Control-Allow-Credentials"@,
        headers@[3].1@ == "true"@,
        headers@[4].0@ == "Access-Control-Allow-Headers"@,
        headers@[4].1@ == "Set-Cookie,cookie,api,Keep-Alive,User-Agent,Content-Type"@,
{
    let mut headers: Vec<(String, String)> = Vec::new();
    headers.push((String::from_str("content-type"), String::from_str("application/json")));
    headers.push((String::from_str("Access-Control-Allow-Origin"), origin_site));
    headers.push((String::from_str("Access-Control-Allow-Methods"), String::from_str("GET, POST, OPTIONS")));
    headers.push((String::from_str("Access-Control-Allow-Credentials"), String::from_str("true")));
    headers.push(
        (
            String::from_str("Access-Control-Allow-Headers"),
            String::from_str("Set-Cookie,cookie,api,Keep-Alive,User-Agent,Content-Type"),
        ),
    );
    headers
}

/// The account table that a session for `role` is built from: users for
/// role 0, merchants for role 1, none for any other role.
pub enum AccountTable {
    Users,
    Merchants,
}

pub fn session_table(role: u64) -> (table: Option<AccountTable>)
    ensures
        role == USER_ROLE <==> table matches Some(AccountTable::Users),
        role == MERCHANT_ROLE <==> table matches Some(AccountTable::Merchants),
        table is None <==> (role != USER_ROLE && role != MERCHANT_ROLE),
{
    if role == USER_ROLE {
        Some(AccountTable::Users)
    } else if role == MERCHANT_ROLE {
        Some(AccountTable::Merchants)
    } else {
        None
    }
}

/// The session identity for a user row: the PIN placeholder `"PIN"` and the
/// user's activation flags.
pub fn user_session_identity(
    user_id: u64,
    phone_country: String,
    phone_number: String,
    phone_active: i32,
    email: String,
    email_active: i32,
) -> (au: AuthUser)
    ensures
        au.user_id == user_id,
        au.pin@ == "PIN"@,
        au.phone_country@ == phone_country@,
        au.phone_number@ == phone_number@,
        au.phone_active == phone_active,
        au.email@ == email@,
        au.email_active == email_active,
        au.role == USER_ROLE,
{
    AuthUser::new(
        user_id,
        String::from_str("PIN"),
        phone_country,
        phone_number,
        phone_active,
        email,
        email_active,
        USER_ROLE,
    )
}

/// The session identity for a merchant row: merchants have no activation
/// flags, which the session records as `-1`.
pub fn merchant_session_identity(
    user_id: u64,
    phone_country: String,
    phone_number: String,
    email: String,
) -> (au: AuthUser)
    ensures
        au.user_id == user_id,
        au.pin@ == "PIN"@,
        au.phone_country@ == phone_country@,
        au.phone_number@ == phone_number@,
        au.phone_active == -1,
        au.email@ == email@,
        au.email_active == -1,
        au.role == MERCHANT_ROLE,
{
    AuthUser::new(
        user_id,
        String::from_str("PIN"),
        phone_country,
        phone_number,
        -1,
        email,
        -1,
        MERCHANT_ROLE,
    )
}

/// A session is opened only for exactly one matching account row.
pub fn single_identity(rows: Vec<AuthUser>) -> (au: Option<AuthUser>)
    ensures
        au is Some <==> rows@.len() == 1,
        au matches Some(a) ==> a == rows@[0],
{
    let mut rows = rows;
    if rows.len() == 1 {
        rows.pop()
    } else {
        None
    }
}

/// Trimming leaves a string alone whose ends are not white space.
pub proof fn lemma_trim_unchanged(s: Seq<char>)
    requires
        s.len() > 0 ==> !is_white_space(s[0]) && !is_white_space(s.last()),
    ensures
        trim(s) == s,
{
}

/// The cookie a browser sends back for a session handed out by
/// `session_cookie` names that session: a request whose only header is a
/// `cookie` header (in any letter case) with value `SESSIONID=<id>`, where the
/// id holds no `;` or `=` and has no white space at its ends, carries `id`.
pub proof fn lemma_session_cookie_round_trip(name: Seq<char>, id: Seq<char>)
    requires
        unicode_lowercase(name) == cookie_header_name(),
        !id.contains(';'),
        !id.contains('='),
        id.len() > 0 ==> !is_white_space(id[0]) && !is_white_space(id.last()),
    ensures
        session_id_of(seq![(name, session_cookie_name() + seq!['='] + id)]) == id,
{
    let value = session_cookie_name() + seq!['='] + id;
    let headers = seq![(name, value)];
    assert(headers.drop_last() =~= Seq::<(Seq<char>, Seq<char>)>::empty());
    assert(value[0] == 'S');
    assert(value.last() != ';' && !is_white_space(value.last())) by {
        if id.len() > 0 {
            assert(value.last() == id.last());
        } else {
            assert(value.last() == '=');
        }
    }
    lemma_trim_unchanged(value);
    assert(!value.contains(';')) by {
        if value.contains(';') {
            let k = choose|k: int| 0 <= k < value.len() && value[k] == ';';
            if k >= 10 {
                assert(id[k - 10] == ';');
            }
        }
    }
    lemma_split_without_sep(value, ';');
    let pieces = split(trim(value), ';');
    assert(pieces.drop_last() =~= Seq::<Seq<char>>::empty());
    assert(!session_cookie_name().contains('=')) by {
        if session_cookie_name().contains('=') {
            let k = choose|k: int|
                0 <= k < session_cookie_name().len() && session_cookie_name()[k] == '=';
        }
    }
    lemma_split_two(session_cookie_name(), id, '=');
    lemma_trim_unchanged(id);
}

/// Whether a text has the form of a hyphenated UUID as `uuid` writes it:
/// 36 characters, hyphens at positions 8, 13, 18 and 23 and lowercase hex
/// digits elsewhere.
pub open spec fn is_uuid_text(s: Seq<char>) -> bool {
    &&& s.len() == 36
    &&& forall|i: int|
        0 <= i < 36 ==> if i == 8 || i == 13 || i == 18 || i == 23 {
            s[i] == '-'
        } else {
            ('0' <= #[trigger] s[i] <= '9') || ('a' <= s[i] <= 'f')
        }
}

/// Calls `uuid::Uuid::new_v4().to_string()`: a random version-4 UUID,
/// written hyphenated in lowercase. Which one is chance.
#[verifier::external_body]
fn new_uuid_text() -> (s: String)
    ensures
        is_uuid_text(s@),
{
    uuid::Uuid::new_v4().to_string()
}

/// A fresh random code for a session id or for an activation or login link,
/// in the UUID form.
pub fn new_code() -> (code: String)
    ensures
        is_uuid_text(code@),
{
    new_uuid_text()
}

/// Session ids are fresh codes of the UUID form, and such an id comes back
/// from the browser intact: a request whose only header is a `cookie`
/// header (in any letter case) with value `SESSIONID=<code>` carries `code`.
pub proof fn lemma_uuid_session_round_trip(name: Seq<char>, code: Seq<char>)
    requires
        unicode_lowercase(name) == cookie_header_name(),
        is_uuid_text(code),
    ensures
        session_id_of(seq![(name, session_cookie_name() + seq!['='] + code)]) == code,
{
    assert(!code.contains(';')) by {
        if code.contains(';') {
            let k = choose|k: int| 0 <= k < code.len() && code[k] == ';';
            assert(code[k] == ';');
        }
    }
    assert(!code.contains('=')) by {
        if code.contains('=') {
            let k = choose|k: int| 0 <= k < code.len() && code[k] == '=';
            assert(code[k] == '=');
        }
    }
    assert(code[0] == code[0]);
    assert(code[35] == code[35]);
    assert(code.last() == code[35]);
    lemma_session_cookie_round_trip(name, code);
}

/// Whether a cookie piece sets the session cookie: trimmed and split on
/// `=`, it has exactly two parts, the first `SESSIONID`.
pub open spec fn is_session_piece(piece: Seq<char>) -> bool {
    let parts = split(trim(piece), '=');
    parts.len() == 2 && parts[0] == session_cookie_name()
}

proof fn lemma_pieces_without_session(pieces: Seq<Seq<char>>, acc: Seq<char>)
    requires
        forall|i: int| 0 <= i < pieces.len() ==> !is_session_piece(#[trigger] pieces[i]),
    ensures
        session_in_pieces(pieces, acc) == acc,
    decreases pieces.len(),
{
    if pieces.len() > 0 {
        assert forall|i: int| 0 <= i < pieces.drop_last().len() implies !is_session_piece(
            #[trigger] pieces.drop_last()[i],
        ) by {
            assert(pieces.drop_last()[i] == pieces[i]);
        }
        lemma_pieces_without_session(pieces.drop_last(), acc);
        assert(!is_session_piece(pieces[pieces.len() - 1]));
    }
}

/// A header that sets no session cookie leaves the session id as the
/// earlier headers left it: whatever its name, when none of the `;`
/// pieces of its trimmed value is a `SESSIONID` cookie, appending it to the
/// headers does not change the session id, so cookies spread over several
/// `cookie` headers keep the session of an earlier one.
pub proof fn lemma_header_without_session_keeps_id(
    headers: Seq<(Seq<char>, Seq<char>)>,
    name: Seq<char>,
    value: Seq<char>,
)
    requires
        forall|i: int|
            0 <= i < split(trim(value), ';').len() ==> !is_session_piece(
                #[trigger] split(trim(value), ';')[i],
            ),
    ensures
        session_id_of(headers.push((name, value))) == session_id_of(headers),
{
    let hs = headers.push((name, value));
    assert(hs.drop_last() =~= headers);
    assert(hs.last() == (name, value));
    lemma_pieces_without_session(split(trim(value), ';'), session_id_of(headers));
}

} // verus!
