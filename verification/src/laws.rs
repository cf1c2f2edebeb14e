use vstd::prelude::*;

use crate::auth::{
    login_response, logout_response, register_response, spec_login_outcome, spec_login_store,
    spec_logout_outcome, spec_logout_store, spec_register_outcome, spec_register_store,
    LoginOutcome, LogoutOutcome, RegisterOutcome,
};
use crate::crypto::bcrypt_matches;
use crate::response::response_model;
use crate::store::UserModel;

verus! {

/// Registering a fresh username and then logging in with the same
/// credentials succeeds: the registration is created with the documented 200
/// reply, and a login on the resulting store answers the documented 200
/// reply and leaves the user logged in — for any hash the registration
/// stored, provided it verifies against the password, which `register`
/// guarantees of a fresh user.
pub proof fn lemma_register_then_login(
    m: Map<Seq<char>, UserModel>,
    username: Seq<char>,
    password: Seq<char>,
    id: int,
    hash: Seq<char>,
)
    requires
        !m.contains_key(username),
        bcrypt_matches(password, hash),
    ensures
        spec_register_outcome(m, username) == RegisterOutcome::Created,
        register_response(RegisterOutcome::Created, Seq::<char>::empty()) == response_model(
            200,
            "success"@,
            "Berhasil Daftar"@,
        ),
        spec_login_outcome(spec_register_store(m, username, id, hash), username, password)
            == LoginOutcome::LoggedIn,
        login_response(LoginOutcome::LoggedIn) == response_model(
            200,
            "success"@,
            "Berhasil Login"@,
        ),
        spec_login_store(spec_register_store(m, username, id, hash), username, password)[username]
            == (UserModel { id, hash, logged_in: true }),
{
}

/// Registering the same username twice: the second call is rejected with
/// the documented 400 reply and changes nothing, whatever id and hash it
/// carried — the store holds exactly one new entry, the one the first call
/// made.
pub proof fn lemma_register_twice(
    m: Map<Seq<char>, UserModel>,
    username: Seq<char>,
    id1: int,
    hash1: Seq<char>,
    id2: int,
    hash2: Seq<char>,
    detail: Seq<char>,
)
    requires
        !m.contains_key(username),
    ensures
        spec_register_outcome(m, username) == RegisterOutcome::Created,
        spec_register_outcome(spec_register_store(m, username, id1, hash1), username)
            == RegisterOutcome::Duplicate,
        register_response(RegisterOutcome::Duplicate, detail) == response_model(
            400,
            "Failed"@,
            "Gagal Daftar: "@ + detail,
        ),
        spec_register_store(spec_register_store(m, username, id1, hash1), username, id2, hash2)
            == spec_register_store(m, username, id1, hash1),
        spec_register_store(m, username, id1, hash1).dom() == m.dom().insert(username),
{
}

/// Login with an unregistered username answers 401 with "User tidak
/// ditemukan" and changes nothing, regardless of the password.
pub proof fn lemma_login_unknown_user(
    m: Map<Seq<char>, UserModel>,
    username: Seq<char>,
    password: Seq<char>,
)
    requires
        !m.contains_key(username),
    ensures
        spec_login_outcome(m, username, password) == LoginOutcome::UserNotFound,
        login_response(LoginOutcome::UserNotFound) == response_model(
            401,
            "Failed"@,
            "User tidak ditemukan"@,
        ),
        spec_login_store(m, username, password) == m,
{
}

/// Login with a registered username and a password that does not verify
/// against the stored hash answers 401 with "Password salah" and changes
/// nothing.
pub proof fn lemma_login_wrong_password(
    m: Map<Seq<char>, UserModel>,
    username: Seq<char>,
    password: Seq<char>,
)
    requires
        m.contains_key(username),
        !bcrypt_matches(password, m[username].hash),
    ensures
        spec_login_outcome(m, username, password) == LoginOutcome::WrongPassword,
        login_response(LoginOutcome::WrongPassword) == response_model(
            401,
            "Failed"@,
            "Password salah"@,
        ),
        spec_login_store(m, username, password) == m,
{
}

/// Logout on an unregistered username answers 400 with "User tidak
/// ditemukan" and leaves the store exactly as it was.
pub proof fn lemma_logout_unknown_user(m: Map<Seq<char>, UserModel>, username: Seq<char>)
    requires
        !m.contains_key(username),
    ensures
        spec_logout_outcome(m, username) == LogoutOutcome::UserNotFound,
        logout_response(LogoutOutcome::UserNotFound) == response_model(
            400,
            "error"@,
            "User tidak ditemukan"@,
        ),
        spec_logout_store(m, username) == m,
{
}

/// Two registrations of the same fresh username race: the store serializes
/// the two inserts, so one of the two runs first, in either order. Whichever
/// runs first is created; the other is rejected as a duplicate and changes
/// nothing; either way the store ends with exactly one entry for the
/// username.
pub proof fn lemma_register_race(
    m: Map<Seq<char>, UserModel>,
    username: Seq<char>,
    id1: int,
    hash1: Seq<char>,
    id2: int,
    hash2: Seq<char>,
)
    requires
        !m.contains_key(username),
    ensures
        spec_register_outcome(m, username) == RegisterOutcome::Created,
        spec_register_outcome(spec_register_store(m, username, id1, hash1), username)
            == RegisterOutcome::Duplicate,
        spec_register_store(spec_register_store(m, username, id1, hash1), username, id2, hash2)
            == spec_register_store(m, username, id1, hash1),
        spec_register_outcome(spec_register_store(m, username, id2, hash2), username)
            == RegisterOutcome::Duplicate,
        spec_register_store(spec_register_store(m, username, id2, hash2), username, id1, hash1)
            == spec_register_store(m, username, id2, hash2),
        spec_register_store(m, username, id1, hash1).dom() == m.dom().insert(username),
        spec_register_store(m, username, id2, hash2).dom() == m.dom().insert(username),
{
}

} // verus!
