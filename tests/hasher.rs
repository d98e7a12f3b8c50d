use api::error::Error;
use api::hasher::Hasher;

#[test]
fn test_generate_hash() {
    let salt = "somesalt";
    let password = "password";

    let hasher = Hasher::new(salt.to_string());
    let hash = hasher.generate(password);

    assert_eq!(hash.is_ok(), true);
}

#[test]
fn test_verify_hash() {
    let salt = "somesalt";
    let password = "password";

    let hasher = Hasher::new(salt.to_string());
    let hash = &hasher.generate(password).unwrap();
    let verified_password = hasher.verify(hash, password);

    assert_eq!(verified_password.is_ok(), true);
}

#[test]
fn digest_is_encoded_argon2id_and_not_the_password() {
    let hasher = Hasher::new("somesalt".to_string());
    let hash = hasher.generate("password").unwrap();
    assert_ne!(hash, "password");
    assert!(hash.starts_with("$argon2id$v=19$m=32768,t=2,p=6$"));
}

#[test]
fn digest_depends_on_password_and_salt_alone() {
    let a = Hasher::new("somesalt".to_string()).generate("password").unwrap();
    let b = Hasher::new("somesalt".to_string()).generate("password").unwrap();
    let c = Hasher::new("othersalt".to_string()).generate("password").unwrap();
    assert_eq!(a, b);
    assert_ne!(a, c);
}

#[test]
fn digest_verifies_against_its_password() {
    let hasher = Hasher::new("somesalt".to_string());
    let hash = hasher.generate("correct horse").unwrap();
    assert_eq!(hasher.verify(&hash, "correct horse"), Ok(true));
}

#[test]
fn digest_under_another_salt_still_verifies() {
    let hash = Hasher::new("firstsalt".to_string()).generate("pw").unwrap();
    let other = Hasher::new("secondsalt".to_string());
    assert_eq!(other.verify(&hash, "pw"), Ok(true));
}

#[test]
fn digest_refuses_another_password() {
    let hasher = Hasher::new("somesalt".to_string());
    let hash = hasher.generate("password1").unwrap();
    assert_eq!(hasher.verify(&hash, "password2"), Ok(false));
}

#[test]
fn empty_password_is_hashed() {
    let hasher = Hasher::new("somesalt".to_string());
    let hash = hasher.generate("").unwrap();
    assert_eq!(hasher.verify(&hash, ""), Ok(true));
    assert_eq!(hasher.verify(&hash, " "), Ok(false));
}

#[test]
fn short_salt_is_refused() {
    let hasher = Hasher::new("1234567".to_string());
    assert_eq!(hasher.generate("password"), Err(Error::Hasher));
}

#[test]
fn eight_byte_salt_is_accepted() {
    let hasher = Hasher::new("12345678".to_string());
    assert!(hasher.generate("password").is_ok());
}

#[test]
fn malformed_digest_is_a_hashing_error() {
    let hasher = Hasher::new("somesalt".to_string());
    assert_eq!(hasher.verify("not a digest", "password"), Err(Error::Hasher));
}
