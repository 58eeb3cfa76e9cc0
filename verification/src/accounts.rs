//! Accounts: the signed-in identity kept in a session, and the user and
//! merchant rows that the flows read.
use vstd::prelude::*;

verus! {

/// Role of an ordinary user (a payer).
pub const USER_ROLE: u64 = 0;

/// Role of a merchant (a payee).
pub const MERCHANT_ROLE: u64 = 1;

/// The identity stored in a session. `user_id == 0` means nobody is signed
/// in; `pin` holds the last payment PIN sent to the user, or `"PIN"`.
pub struct AuthUser {
    pub user_id: u64,
    pub pin: String,
    pub phone_country: String,
    pub phone_number: String,
    pub phone_active: i32,
    pub email: String,
    pub email_active: i32,
    pub role: u64,
}

impl AuthUser {
    pub fn new(
        user_id: u64,
        pin: String,
        phone_country: String,
        phone_number: String,
        phone_active: i32,
        email: String,
        email_active: i32,
        role: u64,
    ) -> (au: Self)
        ensures
            au.user_id == user_id,
            au.pin@ == pin@,
            au.phone_country@ == phone_country@,
            au.phone_number@ == phone_number@,
            au.phone_active == phone_active,
            au.email@ == email@,
            au.email_active == email_active,
            au.role == role,
    {
        AuthUser {
            user_id,
            pin,
            phone_country,
            phone_number,
            phone_active,
            email,
            email_active,
            role,
        }
    }

    /// The same identity with another payment PIN: the PIN just sent to the
    /// user, or the placeholder once a payment has used it.
    pub fn with_pin(self, pin: String) -> (au: Self)
        ensures
            au.pin@ == pin@,
            au.user_id == self.user_id,
            au.phone_country@ == self.phone_country@,
            au.phone_number@ == self.phone_number@,
            au.phone_active == self.phone_active,
            au.email@ == self.email@,
            au.email_active == self.email_active,
            au.role == self.role,
    {
        AuthUser { pin, ..self }
    }
}

/// Whether an identity is someone signed in: nobody has the user id 0.
pub fn signed_in(au: &AuthUser) -> (ok: bool)
    ensures
        ok == (au.user_id != 0),
{
    au.user_id != 0
}

/// Whether a lookup by a unique key found its row: exactly one row must
/// come back.
pub fn one_row_found(rows: usize) -> (found: bool)
    ensures
        found == (rows == 1),
{
    rows == 1
}

impl Default for AuthUser {
    /// Nobody signed in: every number 0 and every text empty.
    fn default() -> (au: Self)
        ensures
            au.user_id == 0,
            au.pin@ == Seq::<char>::empty(),
            au.phone_country@ == Seq::<char>::empty(),
            au.phone_number@ == Seq::<char>::empty(),
            au.phone_active == 0,
            au.email@ == Seq::<char>::empty(),
            au.email_active == 0,
            au.role == 0,
    {
        AuthUser {
            user_id: 0,
            pin: String::new(),
            phone_country: String::new(),
            phone_number: String::new(),
            phone_active: 0,
            email: String::new(),
            email_active: 0,
            role: 0,
        }
    }
}

/// A row of the `users` table, as far as the flows read it.
pub struct User {
    pub user_id: u64,
    pub firstname: String,
    pub lastname: String,
    pub address: String,
    pub country: String,
    pub dob: String,
    pub official_id: String,
    pub phone_country: String,
    pub phone_number: String,
    pub phone_active: i32,
    pub email: String,
    pub email_active: i32,
    pub payment_pin: String,
    pub eth_address: String,
    pub eth_pk: String,
}

impl User {
    pub fn new(
        user_id: u64,
        firstname: String,
        lastname: String,
        address: String,
        country: String,
        dob: String,
        official_id: String,
        phone_country: String,
        phone_number: String,
        phone_active: i32,
        email: String,
        email_active: i32,
        payment_pin: String,
        eth_address: String,
        eth_pk: String,
    ) -> (u: Self)
        ensures
            u.user_id == user_id,
            u.firstname@ == firstname@,
            u.lastname@ == lastname@,
            u.address@ == address@,
            u.country@ == country@,
            u.dob@ == dob@,
            u.official_id@ == official_id@,
            u.phone_country@ == phone_country@,
            u.phone_number@ == phone_number@,
            u.phone_active == phone_active,
            u.email@ == email@,
            u.email_active == email_active,
            u.payment_pin@ == payment_pin@,
            u.eth_address@ == eth_address@,
            u.eth_pk@ == eth_pk@,
    {
        User {
            user_id,
            firstname,
            lastname,
            address,
            country,
            dob,
            official_id,
            phone_country,
            phone_number,
            phone_active,
            email,
            email_active,
            payment_pin,
            eth_address,
            eth_pk,
        }
    }
}

/// A row of the `merchants` table, as far as the flows read it.
pub struct Merchant {
    pub user_id: u64,
    pub merchant_name: String,
    pub address: String,
    pub country: String,
    pub phone_country: String,
    pub phone_number: String,
    pub email: String,
    pub eth_address: String,
    pub eth_pk: String,
}

impl Merchant {
    pub fn new(
        user_id: u64,
        merchant_name: String,
        address: String,
        country: String,
        phone_country: String,
        phone_number: String,
        email: String,
        eth_address: String,
        eth_pk: String,
    ) -> (m: Self)
        ensures
            m.user_id == user_id,
            m.merchant_name@ == merchant_name@,
            m.address@ == address@,
            m.country@ == country@,
            m.phone_country@ == phone_country@,
            m.phone_number@ == phone_number@,
            m.email@ == email@,
            m.eth_address@ == eth_address@,
            m.eth_pk@ == eth_pk@,
    {
        Merchant {
            user_id,
            merchant_name,
            address,
            country,
            phone_country,
            phone_number,
            email,
            eth_address,
            eth_pk,
        }
    }
}

} // verus!
