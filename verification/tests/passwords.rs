use user_service::crypt::{
    encrypt_md5, generate_encrypted_password, generate_salt, generate_secret, rand_str,
    verify_encrypted_password,
};

#[test]
fn md5_hex_of_password_and_salt() {
    assert_eq!(encrypt_md5("123456", "salt"), "207acd61a3c1bd506d7e9a4535359f8a");
    assert_eq!(encrypt_md5("", ""), "d41d8cd98f00b204e9800998ecf8427e");
    assert_eq!(encrypt_md5("pässword", "abc"), "3371bb57b8fb4d59c756892ad12039e7");
    assert_eq!(generate_secret("123456", "salt"), "207acd61a3c1bd506d7e9a4535359f8a");
}

#[test]
fn encrypted_password_verifies() {
    let (stored, salt) = generate_encrypted_password("hunter2");
    assert_eq!(stored.len(), 32);
    assert!(verify_encrypted_password("hunter2", &salt, &stored));
    assert!(!verify_encrypted_password("hunter3", &salt, &stored));
    assert_eq!(stored, encrypt_md5("hunter2", &salt));
}

#[test]
fn salts_are_alphanumeric() {
    let s = generate_salt();
    assert_eq!(s.chars().count(), 32);
    assert!(s.chars().all(|c| c.is_ascii_alphanumeric()));
    let r = rand_str(100);
    assert_eq!(r.len(), 100);
    assert!(r.chars().all(|c| c.is_ascii_alphanumeric()));
    assert_eq!(rand_str(0), "");
}
