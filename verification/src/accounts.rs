//! Registering accounts and logging in.
//!
//! A new account gets a random salt and a random API key; its password is
//! stored only as the hash of the salt followed by the password. Logging in
//! recomputes that hash.

use vstd::prelude::*;
use crate::models::{Row, User, UserView, user_of_row, valid_user_row};
use crate::records::{input_error, RecordDataView, RecordError, APIKEY_LEN};
use crate::secrets::{
    hash_password, is_alphanumeric_of_len, lemma_alphanumeric_byte_len, password_hash,
    random_secret,
};
use crate::text::{byte_len, len_fits, utf8_len};
use crate::secrets::{hex_lower, sha3_256};
use vstd::utf8::encode_utf8;

verus! {

/// Shortest username, in bytes.
pub const MIN_USERNAME_LEN: usize = 6;

/// Shortest password, in bytes.
pub const MIN_PASSWORD_LEN: usize = 6;

/// Length of generated salts and API keys, in characters.
pub const SECRET_LEN: usize = 32;

/// The credentials a register or login form carries.
pub struct RegisterData {
    pub username: String,
    pub password: String,
}

/// An account ready to be stored: everything of a [`User`] but its id.
pub struct NewAccount {
    pub username: String,
    pub passhash: String,
    pub salt: String,
    pub apikey: String,
}

/// The mathematical value of a [`NewAccount`].
pub struct NewAccountView {
    pub username: Seq<char>,
    pub passhash: Seq<char>,
    pub salt: Seq<char>,
    pub apikey: Seq<char>,
}

impl View for NewAccount {
    type V = NewAccountView;

    open spec fn view(&self) -> NewAccountView {
        NewAccountView {
            username: self.username@,
            passhash: self.passhash@,
            salt: self.salt@,
            apikey: self.apikey@,
        }
    }
}

/// The refusal of a registration, if any: the username is checked first.
pub open spec fn registration_error(username: Seq<char>, password: Seq<char>) -> Option<Seq<char>> {
    if byte_len(username) < MIN_USERNAME_LEN {
        Some("username must be at least 6 characters long"@)
    } else if byte_len(password) < MIN_PASSWORD_LEN {
        Some("password must be at least 6 characters long."@)
    } else {
        None
    }
}

/// The message when the username is already taken.
pub open spec fn username_taken_text() -> Seq<char> {
    "failed to create new user. Username is most likely taken"@
}

/// The message when no user matches.
pub open spec fn no_user_text() -> Seq<char> {
    "failed to get user"@
}

/// The message when the password does not match.
pub open spec fn wrong_password_text() -> Seq<char> {
    "username or password invalid"@
}

/// The account stored for `username` with the given password, salt and key.
pub open spec fn account_of(
    username: Seq<char>,
    password: Seq<char>,
    salt: Seq<char>,
    apikey: Seq<char>,
) -> NewAccountView {
    NewAccountView { username, passhash: password_hash(salt, password), salt, apikey }
}

/// The user that account `a` becomes once stored under `id`.
pub open spec fn stored_user(a: NewAccountView, id: u64) -> UserView {
    UserView { id, username: a.username, passhash: a.passhash, salt: a.salt, apikey: a.apikey }
}

/// `password` is the password of `u`.
pub open spec fn login_accepts(u: UserView, password: Seq<char>) -> bool {
    password_hash(u.salt, password) == u.passhash
}

/// Checks a registration form, answering its refusal if it has one.
pub fn check_registration(username: &String, password: &String) -> (res: Option<&'static str>)
    requires
        len_fits(username@),
        len_fits(password@),
    ensures
        res is Some <==> registration_error(username@, password@) is Some,
        res matches Some(m) ==> registration_error(username@, password@) == Some(m@),
{
    if utf8_len(username) < MIN_USERNAME_LEN {
        return Some("username must be at least 6 characters long");
    }
    if utf8_len(password) < MIN_PASSWORD_LEN {
        return Some("password must be at least 6 characters long.");
    }
    None
}

/// The account for `username` and `password` with the given salt and key.
pub fn account_from_secrets(username: &String, password: &String, salt: String, apikey: String) -> (a:
    NewAccount)
    ensures
        a@ == account_of(username@, password@, salt@, apikey@),
        a.passhash@.len() == 64,
{
    let passhash = hash_password(&salt, password);
    NewAccount { username: username.clone(), passhash, salt, apikey }
}

/// Prepares a new account: refuses a username or password shorter than six
/// bytes, else draws a fresh salt and API key and hashes the password.
pub fn new_account(username: &String, password: &String) -> (res: Result<NewAccount, &'static str>)
    requires
        len_fits(username@),
        len_fits(password@),
    ensures
        res is Err <==> registration_error(username@, password@) is Some,
        res matches Err(m) ==> registration_error(username@, password@) == Some(m@),
        res matches Ok(a) ==> {
            &&& a@ == account_of(username@, password@, a.salt@, a.apikey@)
            &&& a.passhash@.len() == 64
            &&& is_alphanumeric_of_len(a.salt@, SECRET_LEN as nat)
            &&& is_alphanumeric_of_len(a.apikey@, SECRET_LEN as nat)
        },
{
    if let Some(m) = check_registration(username, password) {
        return Err(m);
    }
    let salt = random_secret(SECRET_LEN);
    let apikey = random_secret(SECRET_LEN);
    Ok(account_from_secrets(username, password, salt, apikey))
}

/// The answer to a registration once the store was tried: the id the store
/// gave the new row, or `None` when it refused the row.
pub fn stored_account(account: NewAccount, inserted_id: Option<u64>) -> (res: Result<User, &'static str>)
    ensures
        res is Ok <==> inserted_id is Some,
        res matches Err(m) ==> m@ == username_taken_text(),
        res matches Ok(u) ==> u@ == stored_user(account@, inserted_id->0),
{
    match inserted_id {
        None => Err("failed to create new user. Username is most likely taken"),
        Some(id) => Ok(
            User {
                id,
                username: account.username,
                passhash: account.passhash,
                salt: account.salt,
                apikey: account.apikey,
            },
        ),
    }
}

/// The user found by a lookup, or the refusal when there is none.
pub fn found_user(found: Option<Row>) -> (res: Result<User, String>)
    requires
        found matches Some(row) ==> valid_user_row(&row),
    ensures
        res is Ok <==> found is Some,
        res matches Err(m) ==> m@ == no_user_text(),
        res matches Ok(u) ==> u@ == user_of_row(&found->0),
{
    match found {
        None => Err(String::from_str("failed to get user")),
        Some(row) => Ok(User::from_row(row)),
    }
}

/// Logs in with `password` as the user found by name, if any.
pub fn check_login(found: Option<Row>, password: &String) -> (res: Result<User, String>)
    requires
        found matches Some(row) ==> valid_user_row(&row),
    ensures
        found is None ==> (res matches Err(m) && m@ == no_user_text()),
        found matches Some(row) ==> {
            let u = user_of_row(&row);
            if login_accepts(u, password@) {
                (res matches Ok(r) && r@ == u)
            } else {
                (res matches Err(m) && m@ == wrong_password_text())
            }
        },
{
    match found_user(found) {
        Err(m) => Err(m),
        Ok(user) => {
            let hash = hash_password(&user.salt, password);
            if hash == user.passhash {
                Ok(user)
            } else {
                Err(String::from_str("username or password invalid"))
            }
        },
    }
}

/// An account prepared from a password and stored under any id logs in with
/// that same password.
pub proof fn lemma_registered_password_logs_in(
    username: Seq<char>,
    password: Seq<char>,
    salt: Seq<char>,
    apikey: Seq<char>,
    id: u64,
)
    ensures
        login_accepts(stored_user(account_of(username, password, salt, apikey), id), password),
{
}

/// Another password logs an account in only when its hash under the
/// account's salt equals that of the account's own password.
pub proof fn lemma_other_password_needs_same_hash(
    username: Seq<char>,
    password: Seq<char>,
    other: Seq<char>,
    salt: Seq<char>,
    apikey: Seq<char>,
    id: u64,
)
    ensures
        login_accepts(stored_user(account_of(username, password, salt, apikey), id), other)
            <==> password_hash(salt, other) == password_hash(salt, password),
{
}

/// A generated API key has the length that record requests demand, so a
/// request carrying it is never refused for its key's length.
pub proof fn lemma_issued_apikey_has_valid_length(apikey: Seq<char>, d: RecordDataView)
    requires
        is_alphanumeric_of_len(apikey, SECRET_LEN as nat),
        d.apikey == apikey,
    ensures
        byte_len(apikey) == APIKEY_LEN,
        input_error(d) != Some(RecordError::InvalidApikey),
{
    lemma_alphanumeric_byte_len(apikey, SECRET_LEN as nat);
}

/// A registration is refused exactly when the username or the password is
/// shorter than 6 UTF-8 bytes, whatever their lengths otherwise; a short
/// username is reported before a short password.
pub proof fn lemma_registration_refusals(username: Seq<char>, password: Seq<char>)
    ensures
        registration_error(username, password) is None <==> (encode_utf8(username).len() >= 6
            && encode_utf8(password).len() >= 6),
        encode_utf8(username).len() < 6 ==> registration_error(username, password) == Some(
            "username must be at least 6 characters long"@,
        ),
        encode_utf8(username).len() >= 6 && encode_utf8(password).len() < 6 ==> registration_error(
            username,
            password,
        ) == Some("password must be at least 6 characters long."@),
{
}

/// An account keeps the username, salt and key it was made with, and stores
/// the hex SHA3-256 digest of the salt's bytes followed by the password's;
/// stored under an id it becomes the user with that id and those fields; and
/// a password logs a user in exactly when the digest of the user's salt
/// followed by that password is the stored hash.
pub proof fn lemma_account_fields(
    username: Seq<char>,
    password: Seq<char>,
    salt: Seq<char>,
    apikey: Seq<char>,
    id: u64,
    u: UserView,
    attempt: Seq<char>,
)
    ensures
        ({
            let a = account_of(username, password, salt, apikey);
            let s = stored_user(a, id);
            &&& a.username == username && a.salt == salt && a.apikey == apikey
            &&& a.passhash == hex_lower(sha3_256(encode_utf8(salt) + encode_utf8(password)))
            &&& s.id == id && s.username == username && s.passhash == a.passhash && s.salt == salt
                && s.apikey == apikey
        }),
        login_accepts(u, attempt) <==> hex_lower(sha3_256(encode_utf8(u.salt) + encode_utf8(attempt)))
            == u.passhash,
{
}

} // verus!
