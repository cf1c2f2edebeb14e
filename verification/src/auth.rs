use vstd::prelude::*;

use crate::crypto::{bcrypt_matches, hash_password, is_bcrypt_hash, verify_password, AuthError};
use crate::response::{make_response, response_model, ApiResponse, ResponseModel};
use crate::store::{with_logged_in, StoreError, UserModel, UsersTable};

verus! {

/// What registration decides for a username.
#[derive(Clone, Copy, Debug, PartialEq, Eq, Structural)]
pub enum RegisterOutcome {
    Created,
    Duplicate,
}

/// What login decides for a username and password.
#[derive(Clone, Copy, Debug, PartialEq, Eq, Structural)]
pub enum LoginOutcome {
    UserNotFound,
    WrongPassword,
    LoggedIn,
}

/// What logout decides for a username.
#[derive(Clone, Copy, Debug, PartialEq, Eq, Structural)]
pub enum LogoutOutcome {
    UserNotFound,
    LoggedOut,
}

/// The registration rule: a username that is already present is rejected,
/// any other is created.
pub open spec fn spec_register_outcome(
    m: Map<Seq<char>, UserModel>,
    username: Seq<char>,
) -> RegisterOutcome {
    if m.contains_key(username) {
        RegisterOutcome::Duplicate
    } else {
        RegisterOutcome::Created
    }
}

/// The store after registering `username` with the given id and hash: a new
/// row with the logged-in flag off, or the store unchanged on a duplicate.
pub open spec fn spec_register_store(
    m: Map<Seq<char>, UserModel>,
    username: Seq<char>,
    id: int,
    hash: Seq<char>,
) -> Map<Seq<char>, UserModel> {
    if m.contains_key(username) {
        m
    } else {
        m.insert(username, UserModel { id, hash, logged_in: false })
    }
}

/// The reply that registration sends for each outcome; a failure embeds the
/// store's error detail after the fixed prefix.
pub open spec fn register_response(o: RegisterOutcome, detail: Seq<char>) -> ResponseModel {
    match o {
        RegisterOutcome::Created => response_model(200, "success"@, "Berhasil Daftar"@),
        RegisterOutcome::Duplicate => response_model(400, "Failed"@, "Gagal Daftar: "@ + detail),
    }
}

/// The login rule: unknown usernames are rejected first, then the password
/// is checked against the stored hash.
pub open spec fn spec_login_outcome(
    m: Map<Seq<char>, UserModel>,
    username: Seq<char>,
    password: Seq<char>,
) -> LoginOutcome {
    if !m.contains_key(username) {
        LoginOutcome::UserNotFound
    } else if !bcrypt_matches(password, m[username].hash) {
        LoginOutcome::WrongPassword
    } else {
        LoginOutcome::LoggedIn
    }
}

/// The store after a login attempt: only a successful login changes it, by
/// turning the user's logged-in flag on.
pub open spec fn spec_login_store(
    m: Map<Seq<char>, UserModel>,
    username: Seq<char>,
    password: Seq<char>,
) -> Map<Seq<char>, UserModel> {
    if spec_login_outcome(m, username, password) == LoginOutcome::LoggedIn {
        m.insert(username, with_logged_in(m[username], true))
    } else {
        m
    }
}

/// The reply that login sends for each outcome.
pub open spec fn login_response(o: LoginOutcome) -> ResponseModel {
    match o {
        LoginOutcome::UserNotFound => response_model(401, "Failed"@, "User tidak ditemukan"@),
        LoginOutcome::WrongPassword => response_model(401, "Failed"@, "Password salah"@),
        LoginOutcome::LoggedIn => response_model(200, "success"@, "Berhasil Login"@),
    }
}

/// The logout rule: any caller who names a known username turns its flag
/// off; no password is checked.
pub open spec fn spec_logout_outcome(
    m: Map<Seq<char>, UserModel>,
    username: Seq<char>,
) -> LogoutOutcome {
    if m.contains_key(username) {
        LogoutOutcome::LoggedOut
    } else {
        LogoutOutcome::UserNotFound
    }
}

/// The store after a logout attempt.
pub open spec fn spec_logout_store(
    m: Map<Seq<char>, UserModel>,
    username: Seq<char>,
) -> Map<Seq<char>, UserModel> {
    if m.contains_key(username) {
        m.insert(username, with_logged_in(m[username], false))
    } else {
        m
    }
}

/// The reply that logout sends for each outcome.
pub open spec fn logout_response(o: LogoutOutcome) -> ResponseModel {
    match o {
        LogoutOutcome::UserNotFound => response_model(400, "error"@, "User tidak ditemukan"@),
        LogoutOutcome::LoggedOut => response_model(200, "success"@, "Sayonara"@),
    }
}

/// Builds the registration reply from the outcome of the insert: no error
/// means success, an error detail is embedded verbatim after the fixed
/// failure prefix.
pub fn register_outcome_response(insert_error: Option<String>) -> (r: ApiResponse)
    ensures
        (match insert_error {
            Option::None => r@ == register_response(RegisterOutcome::Created, Seq::<char>::empty()),
            Option::Some(d) => r@ == register_response(RegisterOutcome::Duplicate, d@),
        }),
{
    match insert_error {
        None => make_response(200, "success", "Berhasil Daftar"),
        Some(d) => {
            let message = String::from_str("Gagal Daftar: ").concat(d.as_str());
            ApiResponse { code: 400, status: String::from_str("Failed"), message }
        },
    }
}

/// Builds the logout reply from the number of rows the update affected, the
/// way the handler reads the store's answer.
pub fn logout_outcome_response(rows_affected: u64) -> (r: ApiResponse)
    ensures
        r@ == (if rows_affected == 0 {
            logout_response(LogoutOutcome::UserNotFound)
        } else {
            logout_response(LogoutOutcome::LoggedOut)
        }),
{
    if rows_affected == 0 {
        make_response(400, "error", "User tidak ditemukan")
    } else {
        make_response(200, "success", "Sayonara")
    }
}

/// The decision at the heart of login, taken on the looked-up row alone: a
/// missing row or a wrong password is rejected with the documented reply; a
/// match asks the caller to turn the logged-in flag of row `id` on. The
/// error case arises only when the stored string is not a bcrypt hash.
pub fn login_decision(found: Option<(u64, String)>, password: &String) -> (r: Result<
    (Option<u64>, ApiResponse),
    AuthError,
>)
    ensures
        (match r {
            Result::Err(_) => (match found {
                Option::Some(p) => !is_bcrypt_hash(p.1@),
                Option::None => false,
            }),
            Result::Ok(d) => (match found {
                Option::None => d.0 is None && d.1@ == login_response(LoginOutcome::UserNotFound),
                Option::Some(p) => (if bcrypt_matches(password@, p.1@) {
                    d.0 == Some(p.0) && d.1@ == login_response(LoginOutcome::LoggedIn)
                } else {
                    d.0 is None && d.1@ == login_response(LoginOutcome::WrongPassword)
                }),
            }),
        }),
{
    match found {
        None => Ok((None, make_response(401, "Failed", "User tidak ditemukan"))),
        Some((id, stored_hash)) => match verify_password(password, &stored_hash) {
            Err(e) => Err(e),
            Ok(false) => Ok((None, make_response(401, "Failed", "Password salah"))),
            Ok(true) => Ok((Some(id), make_response(200, "success", "Berhasil Login"))),
        },
    }
}

/// `POST /register`: hashes the password, inserts the user, and answers with
/// the documented reply. A hashing failure is handed back untouched, with
/// the store as it was; otherwise the reply and the new store follow the
/// registration rule, and a fresh user's stored hash verifies against the
/// given password.
pub fn register(store: &mut UsersTable, username: &String, password: &String) -> (r: Result<
    ApiResponse,
    AuthError,
>)
    requires
        old(store).wf(),
    ensures
        final(store).wf(),
        (match r {
            Result::Err(_) => *final(store) == *old(store),
            Result::Ok(resp) => {
                &&& resp@ == register_response(
                    spec_register_outcome(old(store)@, username@),
                    StoreError::DuplicateUsername.detail_spec(),
                )
                &&& (spec_register_outcome(old(store)@, username@) == RegisterOutcome::Duplicate
                    ==> *final(store) == *old(store))
                &&& (spec_register_outcome(old(store)@, username@) == RegisterOutcome::Created
                    ==> {
                    &&& final(store)@.contains_key(username@)
                    &&& bcrypt_matches(password@, final(store)@[username@].hash)
                    &&& is_bcrypt_hash(final(store)@[username@].hash)
                    &&& final(store)@ == spec_register_store(
                        old(store)@,
                        username@,
                        final(store)@[username@].id,
                        final(store)@[username@].hash,
                    )
                })
            },
        }),
{
    let hashed = match hash_password(password) {
        Ok(h) => h,
        Err(e) => {
            return Err(e);
        },
    };
    Ok(register_with_hash(store, username, hashed))
}

/// Registration after the password has been hashed: the verified tail of
/// `register`, which the caller can also drive with a hash of its own.
pub fn register_with_hash(store: &mut UsersTable, username: &String, password_hash: String) -> (r:
    ApiResponse)
    requires
        old(store).wf(),
    ensures
        final(store).wf(),
        r@ == register_response(
            spec_register_outcome(old(store)@, username@),
            StoreError::DuplicateUsername.detail_spec(),
        ),
        spec_register_outcome(old(store)@, username@) == RegisterOutcome::Duplicate
            ==> *final(store) == *old(store),
        spec_register_outcome(old(store)@, username@) == RegisterOutcome::Created
            ==> final(store)@.contains_key(username@) && final(store)@ == spec_register_store(
                old(store)@,
                username@,
                final(store)@[username@].id,
                password_hash@,
            ),
{
    match store.insert_user(username.clone(), password_hash) {
        Ok(_) => register_outcome_response(None),
        Err(e) => register_outcome_response(Some(e.detail())),
    }
}

/// `POST /login`: looks the user up, checks the password against the stored
/// hash, and on a match turns the logged-in flag on. The reply and the new
/// store follow the login rule; an error arises only when the stored string
/// is not a bcrypt hash, and leaves the store unchanged.
pub fn login(store: &mut UsersTable, username: &String, password: &String) -> (r: Result<
    ApiResponse,
    AuthError,
>)
    requires
        old(store).wf(),
    ensures
        final(store).wf(),
        (match r {
            Result::Err(_) => *final(store) == *old(store)
                && old(store)@.contains_key(username@)
                && !is_bcrypt_hash(old(store)@[username@].hash),
            Result::Ok(resp) => resp@ == login_response(
                spec_login_outcome(old(store)@, username@, password@),
            ) && final(store)@ == spec_login_store(old(store)@, username@, password@),
        }),
{
    let found = store.find_user(username);
    match login_decision(found, password) {
        Err(e) => Err(e),
        Ok((action, resp)) => {
            if let Some(id) = action {
                store.mark_logged_in(id);
            }
            Ok(resp)
        },
    }
}

/// `POST /logout`: turns the logged-in flag off for the named user; no
/// password is asked. The reply and the new store follow the logout rule.
pub fn logout(store: &mut UsersTable, username: &String) -> (r: ApiResponse)
    requires
        old(store).wf(),
    ensures
        final(store).wf(),
        r@ == logout_response(spec_logout_outcome(old(store)@, username@)),
        final(store)@ == spec_logout_store(old(store)@, username@),
{
    let affected = store.logout_by_username(username);
    logout_outcome_response(affected)
}

} // verus!
