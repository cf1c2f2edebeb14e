use movie_catalog::auth::{
    login, login_decision, logout, logout_outcome_response, register, register_outcome_response,
    register_with_hash,
};
use movie_catalog::store::{StoreError, UsersTable};

#[test]
fn register_then_login_succeeds() {
    let mut t = UsersTable::new();
    let u = "alice".to_string();
    let p = "rahasia".to_string();
    let r = register(&mut t, &u, &p).unwrap();
    assert_eq!(r.code, 200);
    assert_eq!(r.status, "success");
    assert_eq!(r.message, "Berhasil Daftar");
    let r = login(&mut t, &u, &p).unwrap();
    assert_eq!(r.code, 200);
    assert_eq!(r.status, "success");
    assert_eq!(r.message, "Berhasil Login");
}

#[test]
fn register_duplicate_is_rejected() {
    let mut t = UsersTable::new();
    let u = "budi".to_string();
    let r = register(&mut t, &u, &"satu".to_string()).unwrap();
    assert_eq!(r.code, 200);
    let r = register(&mut t, &u, &"dua".to_string()).unwrap();
    assert_eq!(r.code, 400);
    assert_eq!(r.status, "Failed");
    assert_eq!(r.message, "Gagal Daftar: username is already taken");
    // The rejected call left no second row and did not touch the first one:
    // the original password still logs in.
    let r = login(&mut t, &u, &"satu".to_string()).unwrap();
    assert_eq!(r.code, 200);
}

#[test]
fn login_unknown_user_is_unauthorized() {
    let mut t = UsersTable::new();
    for pw in ["", "anything", "p4ssw0rd"] {
        let r = login(&mut t, &"nobody".to_string(), &pw.to_string()).unwrap();
        assert_eq!(r.code, 401);
        assert_eq!(r.status, "Failed");
        assert_eq!(r.message, "User tidak ditemukan");
    }
}

#[test]
fn login_wrong_password_is_unauthorized() {
    let mut t = UsersTable::new();
    let u = "citra".to_string();
    register(&mut t, &u, &"benar".to_string()).unwrap();
    let r = login(&mut t, &u, &"salah".to_string()).unwrap();
    assert_eq!(r.code, 401);
    assert_eq!(r.status, "Failed");
    assert_eq!(r.message, "Password salah");
    // The stored hash round-trips: the right password still verifies.
    let r = login(&mut t, &u, &"benar".to_string()).unwrap();
    assert_eq!(r.code, 200);
}

#[test]
fn password_hash_round_trips_for_any_plaintext() {
    // Through the public handlers, for an empty and a unicode password.
    for pw in ["", "pa\u{00df}w\u{00f6}rd \u{1F512}"] {
        let mut t = UsersTable::new();
        let u = "dewi".to_string();
        register(&mut t, &u, &pw.to_string()).unwrap();
        let r = login(&mut t, &u, &pw.to_string()).unwrap();
        assert_eq!(r.code, 200, "password {:?} did not round-trip", pw);
        // And a different password does not verify.
        let r = login(&mut t, &u, &"lain".to_string()).unwrap();
        assert_eq!(r.code, 401);
    }
}

#[test]
fn logout_unknown_user_changes_nothing() {
    let mut t = UsersTable::new();
    let r = logout(&mut t, &"ghost".to_string());
    assert_eq!(r.code, 400);
    assert_eq!(r.status, "error");
    assert_eq!(r.message, "User tidak ditemukan");
    // No row was created by the failed logout: the name is still free.
    let r = register(&mut t, &"ghost".to_string(), &"pw".to_string()).unwrap();
    assert_eq!(r.code, 200);
}

#[test]
fn logout_known_user_says_sayonara() {
    let mut t = UsersTable::new();
    let u = "eka".to_string();
    register(&mut t, &u, &"pw".to_string()).unwrap();
    login(&mut t, &u, &"pw".to_string()).unwrap();
    let r = logout(&mut t, &u);
    assert_eq!(r.code, 200);
    assert_eq!(r.status, "success");
    assert_eq!(r.message, "Sayonara");
}

#[test]
fn concurrent_registration_one_winner() {
    // Two callers race to register the same name; the store serializes the
    // two inserts, so one order runs. Whichever runs second is rejected.
    let mut t = UsersTable::new();
    let u = "fajar".to_string();
    let first = register(&mut t, &u, &"pw1".to_string()).unwrap();
    let second = register(&mut t, &u, &"pw2".to_string()).unwrap();
    let successes = [&first, &second].iter().filter(|r| r.code == 200).count();
    let failures = [&first, &second].iter().filter(|r| r.code == 400).count();
    assert_eq!(successes, 1);
    assert_eq!(failures, 1);
}

#[test]
fn insert_user_reports_duplicate() {
    let mut t = UsersTable::new();
    assert!(t.insert_user("gita".to_string(), "h1".to_string()).is_ok());
    let r = t.insert_user("gita".to_string(), "h2".to_string());
    assert!(matches!(r, Err(StoreError::DuplicateUsername)));
    // The first row is untouched.
    let (_, hash) = t.find_user(&"gita".to_string()).unwrap();
    assert_eq!(hash, "h1");
}

#[test]
fn find_user_misses_unknown_name() {
    let t = UsersTable::new();
    assert!(t.find_user(&"none".to_string()).is_none());
}

#[test]
fn logout_by_username_counts_rows() {
    let mut t = UsersTable::new();
    t.insert_user("hana".to_string(), "h".to_string()).unwrap();
    assert_eq!(t.logout_by_username(&"hana".to_string()), 1);
    assert_eq!(t.logout_by_username(&"iman".to_string()), 0);
}

#[test]
fn register_with_hash_stores_given_hash() {
    let mut t = UsersTable::new();
    let u = "joko".to_string();
    let r = register_with_hash(&mut t, &u, "not-a-real-hash".to_string());
    assert_eq!(r.code, 200);
    let (_, hash) = t.find_user(&u).unwrap();
    assert_eq!(hash, "not-a-real-hash");
    // Logging in against a stored string that is not a bcrypt hash is the
    // one infrastructure failure login reports.
    assert!(login(&mut t, &u, &"pw".to_string()).is_err());
}

#[test]
fn register_outcome_response_embeds_detail() {
    let ok = register_outcome_response(None);
    assert_eq!(ok.code, 200);
    assert_eq!(ok.status, "success");
    assert_eq!(ok.message, "Berhasil Daftar");
    let err = register_outcome_response(Some("UNIQUE constraint failed".to_string()));
    assert_eq!(err.code, 400);
    assert_eq!(err.status, "Failed");
    assert_eq!(err.message, "Gagal Daftar: UNIQUE constraint failed");
}

#[test]
fn logout_outcome_response_follows_row_count() {
    let miss = logout_outcome_response(0);
    assert_eq!(miss.code, 400);
    assert_eq!(miss.status, "error");
    assert_eq!(miss.message, "User tidak ditemukan");
    let hit = logout_outcome_response(1);
    assert_eq!(hit.code, 200);
    assert_eq!(hit.status, "success");
    assert_eq!(hit.message, "Sayonara");
}

#[test]
fn login_decision_drives_the_flag_update() {
    let hash = bcrypt::hash("kunci", bcrypt::DEFAULT_COST).unwrap();
    let (action, resp) = login_decision(Some((7, hash.clone())), &"kunci".to_string()).unwrap();
    assert_eq!(action, Some(7));
    assert_eq!(resp.code, 200);
    let (action, resp) = login_decision(Some((7, hash)), &"keliru".to_string()).unwrap();
    assert_eq!(action, None);
    assert_eq!(resp.code, 401);
    assert_eq!(resp.message, "Password salah");
    let (action, resp) = login_decision(None, &"kunci".to_string()).unwrap();
    assert_eq!(action, None);
    assert_eq!(resp.code, 401);
    assert_eq!(resp.message, "User tidak ditemukan");
}
