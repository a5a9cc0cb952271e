use tomb::aes256cbc::{Config as AesConfig, Key};
use tomb::error::ErrorKind;
use tomb::tomb::{path_to_md5, AES256Secret, AES256Tomb};

fn generate_key() -> (Key, AesConfig) {
    let config = AesConfig::builtin(None);
    let password = String::from("123456");
    (Key::from_password(&password.as_bytes(), &config), config)
}

fn fast_store() -> (AES256Tomb, Key) {
    let config = AesConfig::from_vec(&[2, 2, 2]);
    let key = Key::from_password(b"123456", &config);
    (AES256Tomb::new("store.yaml", key.duplicate(), config), key)
}

#[test]
fn test_create_tomb_and_manage_secrets() {
    let (key, config) = generate_key();

    let mut tomb = AES256Tomb::new("test-create-tomb.yaml", key.duplicate(), config);
    // Deriving the same key again yields the same key, so derive it once.
    let derived = tomb.derive_key("123456");
    tomb.add_secret_from_bytes("my-secret", Vec::from("some bytes"), derived.duplicate())
        .expect("secret should be added");
    tomb.add_secret("another-secret", String::from("more bytes"), derived.duplicate())
        .expect("secret should be added");

    let plaintext = tomb
        .get_bytes("my-secret", derived.duplicate())
        .expect("secret should have been stored by previous statement(s)");

    assert_eq!(plaintext, Vec::from("some bytes"));

    let plaintext = tomb
        .get_string("another-secret", derived.duplicate())
        .expect("secret should have been stored by previous statement(s)");

    assert_eq!(plaintext, String::from("more bytes"));

    let secrets = tomb.list("*").expect("failed to list *");
    assert_eq!(secrets.len(), 2);

    let first = tomb.list("my-*").expect("failed to list my-*");
    assert_eq!(first.len(), 1);

    let last = tomb.list("another-*").expect("failed to list another-*");
    assert_eq!(last.len(), 1);
}

#[test]
fn scenario_two_secrets() {
    let (mut tomb, key) = fast_store();
    tomb.add_secret("my-secret", String::from("some bytes"), key.duplicate()).unwrap();
    tomb.add_secret("another-secret", String::from("more bytes"), key.duplicate()).unwrap();
    assert_eq!(tomb.list("*").unwrap().len(), 2);
    let mine = tomb.list("my-*").unwrap();
    assert_eq!(mine.len(), 1);
    assert_eq!(mine[0].path, "my-secret");
    assert_eq!(tomb.get_string("another-secret", key.duplicate()).unwrap(), "more bytes");
    assert_eq!(tomb.get_string("my-secret", key.duplicate()).unwrap(), "some bytes");
}

#[test]
fn list_follows_id_order() {
    let (mut tomb, key) = fast_store();
    for path in ["a", "b", "c", "d/e"] {
        tomb.add_secret(path, String::from(path), key.duplicate()).unwrap();
    }
    let listed = tomb.list("*").unwrap();
    assert_eq!(listed.len(), 4);
    let ids: Vec<String> = listed.iter().map(|s| s.key()).collect();
    let mut sorted = ids.clone();
    sorted.sort();
    assert_eq!(ids, sorted);
    assert_eq!(tomb.list("?").unwrap().len(), 3);
    assert_eq!(tomb.list("d/*").unwrap().len(), 1);
    assert_eq!(tomb.list("x*").unwrap().len(), 0);
}

#[test]
fn list_keeps_legacy_ids() {
    let (mut tomb, key) = fast_store();
    let sealed = key.encrypt(b"legacy").unwrap();
    let legacy = AES256Secret::new(String::from("old/path"), sealed.clone(), key.duplicate());
    tomb.data.insert(String::from("old/path"), legacy);
    let stray = AES256Secret::new(String::from("stray"), sealed, key.duplicate());
    tomb.data.insert(String::from("unrelated-id"), stray);
    let listed = tomb.list("*").unwrap();
    assert_eq!(listed.len(), 1);
    assert_eq!(listed[0].path, "old/path");
}

#[test]
fn invalid_pattern_is_reported() {
    let (tomb, _key) = fast_store();
    assert_eq!(tomb.list("abc\\").unwrap_err().kind, ErrorKind::InvalidPattern);
}

#[test]
fn delete_then_get_is_not_found() {
    let (mut tomb, key) = fast_store();
    tomb.add_secret("gone", String::from("soon"), key.duplicate()).unwrap();
    tomb.add_secret("kept", String::from("here"), key.duplicate()).unwrap();
    assert!(tomb.get("gone").is_ok());
    tomb.delete_secret("gone").unwrap();
    assert_eq!(tomb.get("gone").unwrap_err().kind, ErrorKind::NotFound);
    assert_eq!(tomb.delete_secret("gone").unwrap_err().kind, ErrorKind::NotFound);
    assert_eq!(tomb.get_string("kept", key.duplicate()).unwrap(), "here");
    assert_eq!(tomb.get_bytes("gone", key).unwrap_err().kind, ErrorKind::NotFound);
}

#[test]
fn adding_again_overwrites() {
    let (mut tomb, key) = fast_store();
    tomb.add_secret("p", String::from("one"), key.duplicate()).unwrap();
    tomb.add_secret("p", String::from("two"), key.duplicate()).unwrap();
    assert_eq!(tomb.data.len(), 1);
    assert_eq!(tomb.get_string("p", key).unwrap(), "two");
}

#[test]
fn reading_with_another_key_fails() {
    let (mut tomb, key) = fast_store();
    tomb.add_secret("p", String::from("one"), key.duplicate()).unwrap();
    let other = Key::from_password(b"654321", &AesConfig::from_vec(&[2, 2, 2]));
    assert_eq!(tomb.get_string("p", other).unwrap_err().kind, ErrorKind::KeyMismatch);
}

#[test]
fn record_checks_its_path_and_text() {
    let (mut tomb, key) = fast_store();
    tomb.add_secret_from_bytes("bin", vec![0xff, 0xfe], key.duplicate()).unwrap();
    let secret = tomb.get("bin").unwrap();
    assert_eq!(secret.key(), path_to_md5("bin"));
    assert_eq!(secret.get_bytes("other", key.duplicate()).unwrap_err().kind, ErrorKind::PathMismatch);
    assert_eq!(secret.get_bytes("bin", key.duplicate()).unwrap(), vec![0xff, 0xfe]);
    assert_eq!(secret.get_string("bin", key.duplicate()).unwrap_err().kind, ErrorKind::Decode);
    assert_eq!(secret.get_base64_string("bin", key.duplicate()).unwrap(), "//4=");
    assert_eq!(tomb.get_base64_string("bin", key.duplicate()).unwrap(), "//4=");
    let by_id = tomb.get_by_md5(&path_to_md5("bin")).unwrap();
    assert_eq!(by_id.path, "bin");
}

#[test]
fn secret_update_re_encrypts() {
    let (_tomb, key) = fast_store();
    let mut secret = AES256Secret::new(String::from("a"), key.encrypt(b"old").unwrap(), key.duplicate());
    assert_eq!(secret.digest, key.digest());
    assert_eq!(secret.attributes.as_ref().map(|m| m.len()), Some(0));
    secret.update(String::from("b"), b"new".to_vec(), key.duplicate()).unwrap();
    assert_eq!(secret.path, "b");
    assert_eq!(secret.get_string("b", key.duplicate()).unwrap(), "new");
    let copy = secret.with_notes(Some(String::from("n")));
    assert_eq!(copy.notes, Some(String::from("n")));
    secret.set_username(Some(String::from("u")));
    secret.set_url(Some(String::from("https://example.org")));
    assert_eq!(secret.username, Some(String::from("u")));
    assert_eq!(secret.url, Some(String::from("https://example.org")));
}

#[test]
fn md5_ids_are_lower_hex() {
    assert_eq!(path_to_md5(""), "d41d8cd98f00b204e9800998ecf8427e");
    assert_eq!(path_to_md5("abc"), "900150983cd24fb0d6963f7d28e17f72");
}

#[test]
fn store_paths_for_saving() {
    let (tomb, key) = fast_store();
    assert_eq!(tomb.save_target().unwrap(), "store.yaml");
    assert_eq!(tomb.version, Some(String::from("0.1.0")));
    assert_eq!(tomb.digest, key.digest());
    let moved = tomb.with_filepath("elsewhere.yaml");
    assert_eq!(moved.reload_target(), "elsewhere.yaml");
    let mut bare = moved;
    bare.filepath = None;
    assert_eq!(bare.save_target().unwrap_err().kind, ErrorKind::NoFilePath);
    assert_eq!(bare.reload_target(), "~/.tomb.yaml");
}

#[test]
fn replace_data_takes_the_fresh_records() {
    let (mut tomb, key) = fast_store();
    tomb.add_secret("old", String::from("x"), key.duplicate()).unwrap();
    let (mut fresh, _) = fast_store();
    fresh.add_secret("new", String::from("y"), key.duplicate()).unwrap();
    tomb.replace_data(fresh);
    assert!(tomb.get("old").is_err());
    assert_eq!(tomb.get_string("new", key).unwrap(), "y");
    assert_eq!(tomb.filepath, Some(String::from("store.yaml")));
}

#[test]
fn store_counts_each_id_once() {
    let (mut tomb, key) = fast_store();
    tomb.add_secret("one", String::from("1"), key.duplicate()).unwrap();
    tomb.add_secret("two", String::from("2"), key.duplicate()).unwrap();
    tomb.add_secret("one", String::from("3"), key.duplicate()).unwrap();
    assert_eq!(tomb.data.len(), 2);
    tomb.delete_secret("one").unwrap();
    assert_eq!(tomb.data.len(), 1);
}
