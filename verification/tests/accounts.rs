use dns_01_web::accounts::{
    account_from_secrets, check_login, check_registration, found_user, new_account, stored_account,
};
use dns_01_web::models::{Column, Row};
use dns_01_web::records::{RecordAction, RecordData, RecordPublisher};
use dns_01_web::secrets::{hash_password, random_secret};

const SHA3_EMPTY: &str = "a7ffc6f8bf1ed76651c14756a061d662f580ff4de43b49fa82d80a4b80f8434a";
const SHA3_ABC: &str = "3a985da74fe225b2045c172d6bd390bd855f086e3e9d525b46bfe24511431532";

fn user_row(id: u64, username: &str, passhash: &str, salt: &str, apikey: &str) -> Row {
    let t = |s: &str| Column { uint: None, text: Some(s.to_string()) };
    Row {
        columns: vec![Column { uint: Some(id), text: None }, t(username), t(passhash), t(salt), t(apikey)],
    }
}

fn is_alnum32(s: &str) -> bool {
    s.len() == 32 && s.chars().all(|c| c.is_ascii_alphanumeric())
}

#[test]
fn hash_of_empty_salt_and_password_is_sha3_of_nothing() {
    assert_eq!(hash_password(&String::new(), &String::new()), SHA3_EMPTY);
}

#[test]
fn hash_feeds_salt_then_password() {
    assert_eq!(hash_password(&"ab".to_string(), &"c".to_string()), SHA3_ABC);
    assert_eq!(hash_password(&String::new(), &"abc".to_string()), SHA3_ABC);
    assert_ne!(hash_password(&"c".to_string(), &"ab".to_string()), SHA3_ABC);
}

#[test]
fn random_secrets_are_alphanumeric() {
    let a = random_secret(32);
    assert!(is_alnum32(&a));
    assert_eq!(random_secret(0), "");
}

#[test]
fn short_username_is_refused_first() {
    assert_eq!(
        check_registration(&"bob".to_string(), &"x".to_string()),
        Some("username must be at least 6 characters long")
    );
}

#[test]
fn short_password_is_refused() {
    assert_eq!(
        check_registration(&"robert".to_string(), &"12345".to_string()),
        Some("password must be at least 6 characters long.")
    );
    assert_eq!(check_registration(&"robert".to_string(), &"123456".to_string()), None);
}

#[test]
fn lengths_are_counted_in_bytes() {
    // three two-byte characters: six bytes
    assert_eq!(check_registration(&"ééé".to_string(), &"123456".to_string()), None);
    assert!(new_account(&"éé".to_string(), &"123456".to_string()).is_err());
}

#[test]
fn new_account_hashes_with_fresh_secrets() {
    let a = new_account(&"robert".to_string(), &"hunter22".to_string()).ok().unwrap();
    assert_eq!(a.username, "robert");
    assert!(is_alnum32(&a.salt));
    assert!(is_alnum32(&a.apikey));
    assert_eq!(a.passhash.len(), 64);
    assert!(a.passhash.chars().all(|c| c.is_ascii_hexdigit() && !c.is_ascii_uppercase()));
    assert_eq!(a.passhash, hash_password(&a.salt, &"hunter22".to_string()));
}

#[test]
fn account_from_secrets_is_exact() {
    let a = account_from_secrets(&"robert".to_string(), &"c".to_string(), "ab".to_string(), "K".to_string());
    assert_eq!(a.passhash, SHA3_ABC);
    assert_eq!(a.salt, "ab");
    assert_eq!(a.apikey, "K");
}

#[test]
fn refused_insert_means_username_taken() {
    let a = account_from_secrets(&"robert".to_string(), &"pw".to_string(), "s".to_string(), "k".to_string());
    assert_eq!(
        stored_account(a, None).err().unwrap(),
        "failed to create new user. Username is most likely taken"
    );
}

#[test]
fn stored_account_gets_its_id() {
    let a = account_from_secrets(&"robert".to_string(), &"pw".to_string(), "s".to_string(), "k".to_string());
    let u = stored_account(a, Some(42)).ok().unwrap();
    assert_eq!(u.id, 42);
    assert_eq!(u.username, "robert");
    assert_eq!(u.salt, "s");
    assert_eq!(u.apikey, "k");
}

#[test]
fn lookup_without_user_fails() {
    assert_eq!(found_user(None).err().unwrap(), "failed to get user");
    assert_eq!(check_login(None, &"pw".to_string()).err().unwrap(), "failed to get user");
}

#[test]
fn login_checks_the_hash() {
    let hash = hash_password(&"salt".to_string(), &"secret1".to_string());
    let ok = check_login(Some(user_row(3, "robert", &hash, "salt", "key")), &"secret1".to_string());
    assert_eq!(ok.ok().unwrap().id, 3);
    let bad = check_login(Some(user_row(3, "robert", &hash, "salt", "key")), &"secret2".to_string());
    assert_eq!(bad.err().unwrap(), "username or password invalid");
}

#[test]
fn registered_password_logs_in() {
    let a = new_account(&"robert".to_string(), &"hunter22".to_string()).ok().unwrap();
    let u = stored_account(a, Some(5)).ok().unwrap();
    let row = user_row(u.id, &u.username, &u.passhash, &u.salt, &u.apikey);
    assert_eq!(check_login(Some(row), &"hunter22".to_string()).ok().unwrap().id, 5);
}

#[test]
fn issued_apikey_passes_the_record_key_check() {
    let a = new_account(&"robert".to_string(), &"hunter22".to_string()).ok().unwrap();
    let d = RecordData {
        apikey: a.apikey.clone(),
        name: "myhost".to_string(),
        token: "t".repeat(32),
        ttl: 300,
    };
    assert!(matches!(RecordPublisher::start(d).1, RecordAction::LookUpApikey));
}

#[test]
fn other_password_is_refused() {
    let a = new_account(&"robert".to_string(), &"hunter22".to_string()).ok().unwrap();
    let u = stored_account(a, Some(5)).ok().unwrap();
    let row = user_row(u.id, &u.username, &u.passhash, &u.salt, &u.apikey);
    assert_eq!(check_login(Some(row), &"hunter23".to_string()).err().unwrap(), "username or password invalid");
}
