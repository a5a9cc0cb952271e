use tomb::aes256cbc::{bytes_match, hmac_256_digest, Config, CyclesConfig, Key, KEY_CYCLES};
use tomb::error::ErrorKind;
use tomb::ioutils::{b64decode, b64encode};

fn fast_config() -> Config {
    Config::from_vec(&[3, 2, 1])
}

fn hex(bytes: &[u8]) -> String {
    bytes.iter().map(|b| format!("{:02x}", b)).collect()
}

#[test]
fn test_encrypt_and_decrypt() {
    let config = Config::builtin(None);
    let password = "123456";
    let key = Key::from_password(password.as_bytes(), &config);

    let plaintext = b"This is a secret";
    let ciphertext = key.encrypt(plaintext).unwrap();

    let decrypted = key.decrypt(&ciphertext).unwrap();
    assert_eq!(decrypted, b"This is a secret".to_vec());
}

#[test]
fn round_trip_on_several_payloads() {
    let key = Key::from_password(b"correct horse", &fast_config());
    for payload in [Vec::new(), vec![0u8], vec![7u8; 15], vec![7u8; 16], vec![9u8; 5000]] {
        let sealed = key.encrypt(&payload).unwrap();
        assert_eq!(&sealed[..32], &key.digest()[..]);
        assert_ne!(&sealed[32..], &payload[..]);
        assert_eq!(sealed.len() - 32, (payload.len() / 16 + 1) * 16);
        assert_eq!(key.decrypt(&sealed).unwrap(), payload);
    }
}

#[test]
fn generated_key_round_trips() {
    let key = Key::generate();
    assert!(key.magic().is_none());
    assert_eq!(key.key_bytes().unwrap().len(), 127);
    assert_eq!(key.mac_bytes().unwrap().len(), 127);
    assert_eq!(key.iv_bytes().unwrap().len(), 16);
    let sealed = key.encrypt(b"random key").unwrap();
    assert_eq!(key.decrypt(&sealed).unwrap(), b"random key".to_vec());
}

#[test]
fn wrong_key_is_rejected() {
    let k1 = Key::from_password(b"first", &fast_config());
    let k2 = Key::from_password(b"second", &fast_config());
    assert_ne!(k1.digest(), k2.digest());
    let sealed = k1.encrypt(b"payload").unwrap();
    let err = k2.decrypt(&sealed).unwrap_err();
    assert_eq!(err.kind, ErrorKind::KeyMismatch);
}

#[test]
fn short_blob_is_refused() {
    let key = Key::from_password(b"pw", &fast_config());
    let err = key.decrypt(&[1u8; 31]).unwrap_err();
    assert_eq!(err.kind, ErrorKind::Decode);
}

#[test]
fn bad_padding_is_a_decrypt_error() {
    let key = Key::from_password(b"pw", &fast_config());
    let mut sealed = key.encrypt(b"some payload").unwrap();
    sealed.truncate(32 + 5);
    let err = key.decrypt(&sealed).unwrap_err();
    assert_eq!(err.kind, ErrorKind::Decrypt);
}

#[test]
fn derivation_is_deterministic() {
    let a = Key::from_password(b"same", &fast_config());
    let b = Key::from_password(b"same", &fast_config());
    assert_eq!(a.key(), b.key());
    assert_eq!(a.mac(), b.mac());
    assert_eq!(a.iv(), b.iv());
    assert_eq!(a.digest(), b.digest());
    assert_eq!(a.magic(), &Some(vec![3, 2, 1]));
    assert_eq!(a.algo(), "aes-256-cbc");
    let c = Key::from_password(b"other", &fast_config());
    assert_ne!(a.key(), c.key());
}

#[test]
fn digest_depends_on_mac_and_iv() {
    let a = Key::from_password(b"pw", &fast_config());
    let b = Key::from_parts(
        String::from("other"),
        b64encode(&[5u8; 40]),
        a.mac().clone(),
        a.iv().clone(),
        None,
    )
    .unwrap();
    assert_eq!(a.digest(), b.digest());
    assert!(b.check_digest(&a.digest()));
    assert!(!b.check_digest(&[0u8; 32]));
}

#[test]
fn from_parts_checks_the_fields() {
    let err = Key::from_parts(
        String::from("aes-256-cbc"),
        b64encode(&[1u8; 16]),
        b64encode(&[1u8; 16]),
        b64encode(&[1u8; 16]),
        None,
    )
    .unwrap_err();
    assert_eq!(err.kind, ErrorKind::InvalidKey);
    let err = Key::from_parts(
        String::from("aes-256-cbc"),
        String::from("not base64!"),
        b64encode(&[1u8; 16]),
        b64encode(&[1u8; 16]),
        None,
    )
    .unwrap_err();
    assert_eq!(err.kind, ErrorKind::InvalidKey);
}

#[test]
fn key_slices_follow_the_stored_layout() {
    let config = fast_config();
    let key = Key::from_password(b"layout", &config);
    let salt = config.derive_salt(b"layout");
    let material = config.derive_key(b"layout", &salt);
    assert_eq!(key.key_bytes().unwrap(), material[0..127].to_vec());
    assert_eq!(key.mac_bytes().unwrap(), material[128..255].to_vec());
    assert_eq!(key.iv_bytes().unwrap(), config.derive_iv(b"layout").to_vec());
}

#[test]
fn pbkdf2_matches_the_published_vector() {
    let config = Config::from_vec(&[1, 1, 1]);
    let derived = config.derive_key(b"password", b"salt");
    assert_eq!(
        hex(&derived[..32]),
        "120fb6cffcf8b32c43e7225256c4f837a86548c92ccc35480805987cb70be17b"
    );
}

#[test]
fn hmac_matches_the_published_vector() {
    let digest = hmac_256_digest(b"Jefe", b"what do ya want for nothing?").unwrap();
    assert_eq!(
        hex(&digest),
        "5bdcc146bf60754e6a042426089575c75a003f089d2739839dec58b964ec3843"
    );
}

#[test]
fn bytes_match_compares_whole_buffers() {
    assert!(bytes_match(b"abc", b"abc"));
    assert!(!bytes_match(b"abc", b"abd"));
    assert!(!bytes_match(b"abc", b"abcd"));
    assert!(bytes_match(b"", b""));
}

#[test]
fn cycles_round_trip_through_vec() {
    let cycles = CyclesConfig::from_vec(&[10, 20, 30]);
    assert_eq!(cycles.to_vec(), vec![10, 20, 30]);
    let config = Config::from_vec(&[10, 20, 30]);
    assert_eq!(config.key_cycles(), 10);
    assert_eq!(config.salt_cycles(), 20);
    assert_eq!(config.iv_cycles(), 30);
    assert!(config.default_key_path.is_none());
    let builtin = Config::builtin(Some(String::from("/tmp/k")));
    assert_eq!(builtin.key_cycles(), KEY_CYCLES);
    assert_eq!(builtin.cycles.to_vec(), vec![16000, 16000, 16000]);
    assert_eq!(builtin.default_key_path, Some(String::from("/tmp/k")));
}

#[test]
fn base64_encodes_and_decodes() {
    assert_eq!(b64encode(b"Hello"), "SGVsbG8=");
    assert_eq!(b64decode("SGVsbG8=").unwrap(), b"Hello".to_vec());
    assert_eq!(b64decode("*not*").unwrap_err().kind, ErrorKind::Decode);
}

#[test]
fn oversized_padding_byte_is_a_decrypt_error() {
    let key = Key::from_password(b"pw", &fast_config());
    for fill in [0x20u8, 0u8, 17u8] {
        // Keep only the first block, whose plaintext is sixteen `fill` bytes.
        let mut sealed = key.encrypt(&[fill; 16]).unwrap();
        assert_eq!(sealed.len(), 32 + 32);
        sealed.truncate(32 + 16);
        assert_eq!(key.decrypt(&sealed).unwrap_err().kind, ErrorKind::Decrypt);
    }
}

#[test]
fn full_padding_block_is_accepted() {
    let key = Key::from_password(b"pw", &fast_config());
    // A payload of whole blocks gets a whole block of padding (sixteen 16s).
    let sealed = key.encrypt(&[16u8; 16]).unwrap();
    let mut first = sealed.clone();
    first.truncate(32 + 16);
    assert_eq!(key.decrypt(&first).unwrap(), Vec::<u8>::new());
    assert_eq!(key.decrypt(&sealed).unwrap(), vec![16u8; 16]);
}

#[test]
fn body_not_whole_blocks_is_a_decrypt_error() {
    let key = Key::from_password(b"pw", &fast_config());
    let mut blob = key.digest().to_vec();
    blob.extend_from_slice(&[1u8; 17]);
    assert_eq!(key.decrypt(&blob).unwrap_err().kind, ErrorKind::Decrypt);
    let only_digest = key.digest().to_vec();
    assert_eq!(key.decrypt(&only_digest).unwrap(), Vec::<u8>::new());
}

#[test]
fn empty_payload_gets_a_padding_block() {
    let key = Key::from_password(b"pw", &fast_config());
    let sealed = key.encrypt(b"").unwrap();
    assert_eq!(sealed.len(), 48);
    assert_eq!(key.decrypt(&sealed).unwrap(), Vec::<u8>::new());
}

#[test]
fn key_from_material_cuts_the_material() {
    let mut material = [0u8; 256];
    for (i, b) in material.iter_mut().enumerate() {
        *b = i as u8;
    }
    let iv = [7u8; 16];
    let key = Key::from_material(&material, &iv);
    assert_eq!(key.key_bytes().unwrap(), material[0..127].to_vec());
    assert_eq!(key.mac_bytes().unwrap(), material[128..255].to_vec());
    assert_eq!(key.iv_bytes().unwrap(), iv.to_vec());
    assert!(key.magic().is_none());
    let sealed = key.encrypt(b"material").unwrap();
    assert_eq!(key.decrypt(&sealed).unwrap(), b"material".to_vec());
}
