//! AES-256-CBC keys: derivation from a password, random generation, the
//! key fingerprint (digest), and encryption/decryption of byte payloads.

use vstd::prelude::*;

use crypto::hmac::Hmac;
use crypto::mac::Mac;
use crypto::sha2::Sha256;
use crypto::{aes, blockmodes, buffer, pbkdf2};
use crypto::buffer::{ReadBuffer, WriteBuffer};
use crypto::symmetriccipher::SymmetricCipherError;
use rand::RngCore;

use crate::error::{Error, ErrorKind};
use crate::ioutils::{b64decode, b64encode, base64_decoded, base64_of};
use vstd::slice::{slice_subrange, slice_to_vec};

verus! {

pub const ALGO: &'static str = "aes-256-cbc";

pub const DIGEST_SIZE: usize = 32;

/// The path used for the key file when nothing else is configured.
pub const TOMB_KEY: &'static str = "~/.tomb.key";

/// The builtin number of cycles for a key derivation.
pub const KEY_CYCLES: u32 = 16000;

/// The builtin number of cycles for a salt derivation.
pub const SALT_CYCLES: u32 = 16000;

/// The builtin number of cycles for an iv derivation.
pub const IV_CYCLES: u32 = 16000;

pub const KEY_SIZE: usize = 256;

pub const IV_SIZE: usize = 16;

pub const BLOCK_SIZE: usize = 4096;

/// The number of key bytes that AES-256 uses.
pub const AES_KEY_LEN: usize = 32;

/// A key fingerprint: the HMAC-SHA256 of a key's iv under its mac key.
pub type Digest = [u8; DIGEST_SIZE];

/// Names the HMAC-SHA256 code of `message` under `key`.
pub uninterp spec fn hmac_sha256(key: Seq<u8>, message: Seq<u8>) -> Seq<u8>;

/// Names the `len` bytes that PBKDF2 with HMAC-SHA256 derives from
/// `password` and `salt` in `cycles` iterations.
pub uninterp spec fn pbkdf2_hmac_sha256(password: Seq<u8>, salt: Seq<u8>, cycles: u32, len: nat) -> Seq<u8>;

/// Relies on `crypto::hmac::Hmac` over `crypto::sha2::Sha256`: the code is
/// the 32-byte HMAC-SHA256 of the message.
#[verifier::external_body]
fn hmac_sha256_code(key: &[u8], message: &[u8]) -> (r: Vec<u8>)
    ensures
        r@ == hmac_sha256(key@, message@),
        r@.len() == DIGEST_SIZE,
{
    let mut mac = Hmac::new(Sha256::new(), key);
    mac.input(message);
    mac.result().code().to_vec()
}

/// Relies on `crypto::pbkdf2::pbkdf2` with an HMAC-SHA256 keyed by the
/// password; it asserts that `cycles` is positive.
#[verifier::external_body]
fn pbkdf2_sha256(password: &[u8], salt: &[u8], cycles: u32, len: usize) -> (r: Vec<u8>)
    requires
        cycles > 0,
        len <= KEY_SIZE,
    ensures
        r@ == pbkdf2_hmac_sha256(password@, salt@, cycles, len as nat),
        r@.len() == len,
{
    let mut derived = vec![0u8; len];
    let mut mac = Hmac::new(Sha256::new(), password);
    pbkdf2::pbkdf2(&mut mac, salt, cycles, &mut derived);
    derived
}

/// Relies on `rand::RngCore::fill_bytes` of `rand::thread_rng()`: `len`
/// random bytes.
#[verifier::external_body]
fn random_bytes(len: usize) -> (r: Vec<u8>)
    ensures
        r@.len() == len,
{
    let mut bytes = vec![0u8; len];
    rand::thread_rng().fill_bytes(&mut bytes);
    bytes
}

/// Whether two byte strings are equal: the bytes of the common prefix are
/// XOR-folded, and the lengths must agree.
pub fn bytes_match(a: &[u8], b: &[u8]) -> (r: bool)
    ensures
        r == (a@ == b@),
{
    let n: usize = if a.len() < b.len() { a.len() } else { b.len() };
    let mut diff: u8 = 0;
    let mut i: usize = 0;
    while i < n
        invariant
            n <= a@.len(),
            n <= b@.len(),
            i <= n,
            (diff == 0) <==> (forall|j: int| 0 <= j < i ==> a@[j] == b@[j]),
        decreases n - i,
    {
        let x: u8 = a[i];
        let y: u8 = b[i];
        let next: u8 = diff | (x ^ y);
        assert((next == 0) <==> (diff == 0 && x == y)) by (bit_vector)
            requires
                next == diff | (x ^ y),
        ;
        diff = next;
        i = i + 1;
    }
    let r = diff == 0 && a.len() == b.len();
    if r {
        assert(a@ =~= b@);
    }
    r
}

/// Copies `N` bytes into an array.
fn array_from<const N: usize>(bytes: &Vec<u8>) -> (r: [u8; N])
    requires
        bytes@.len() == N,
    ensures
        r@ == bytes@,
{
    let mut d: [u8; N] = [0u8; N];
    let mut i: usize = 0;
    while i < N
        invariant
            bytes@.len() == N,
            i <= N,
            forall|j: int| 0 <= j < i ==> d@[j] == bytes@[j],
        decreases N - i,
    {
        d[i] = bytes[i];
        i = i + 1;
    }
    assert(d@ =~= bytes@);
    d
}

/// The HMAC-SHA256 of `iv` under `mac_key`, as a digest.
pub fn hmac_256_digest(mac_key: &[u8], iv: &[u8]) -> (r: Result<Digest, Error>)
    ensures
        r is Ok,
        r->Ok_0@ == hmac_sha256(mac_key@, iv@),
{
    let code = hmac_sha256_code(mac_key, iv);
    Ok(array_from::<DIGEST_SIZE>(&code))
}

/// A random buffer of key material.
pub fn generate_key() -> (r: [u8; KEY_SIZE]) {
    array_from::<KEY_SIZE>(&random_bytes(KEY_SIZE))
}

/// A random initialization vector.
pub fn generate_iv() -> (r: [u8; IV_SIZE]) {
    array_from::<IV_SIZE>(&random_bytes(IV_SIZE))
}

/// The PBKDF2 iteration counts for the key, the salt and the iv.
#[derive(Debug, Clone, Copy, PartialEq, Eq, Structural)]
pub struct CyclesConfig {
    pub key: u32,
    pub salt: u32,
    pub iv: u32,
}

impl CyclesConfig {
    /// The counts in the order key, salt, iv.
    pub open spec fn spec_to_seq(self) -> Seq<u32> {
        seq![self.key, self.salt, self.iv]
    }

    /// Every count is positive, as PBKDF2 needs.
    pub open spec fn positive(self) -> bool {
        self.key > 0 && self.salt > 0 && self.iv > 0
    }

    pub fn to_vec(&self) -> (r: Vec<u32>)
        ensures
            r@ == self.spec_to_seq(),
    {
        let mut cycles: Vec<u32> = Vec::new();
        cycles.push(self.key);
        cycles.push(self.salt);
        cycles.push(self.iv);
        assert(cycles@ =~= self.spec_to_seq());
        cycles
    }

    pub fn from_vec(vec: &[u32; 3]) -> (r: CyclesConfig)
        ensures
            r.key == vec@[0],
            r.salt == vec@[1],
            r.iv == vec@[2],
    {
        CyclesConfig { key: vec[0], salt: vec[1], iv: vec[2] }
    }
}

/// The configuration for key derivation: the cycles for key, salt and iv,
/// and where the key file lives by default.
#[derive(Debug, Clone)]
pub struct Config {
    pub cycles: CyclesConfig,
    pub default_key_path: Option<String>,
}

impl Config {
    /// A config with the given cycles (key, salt, iv) and no key path.
    pub fn from_vec(vec: &[u32; 3]) -> (r: Config)
        ensures
            r.cycles.key == vec@[0],
            r.cycles.salt == vec@[1],
            r.cycles.iv == vec@[2],
            r.default_key_path is None,
    {
        Config { cycles: CyclesConfig::from_vec(vec), default_key_path: None }
    }

    /// The builtin config: the builtin cycle counts and the given key path.
    pub fn builtin(default_key_path: Option<String>) -> (r: Config)
        ensures
            r.cycles == (CyclesConfig { key: KEY_CYCLES, salt: SALT_CYCLES, iv: IV_CYCLES }),
            r.default_key_path == default_key_path,
    {
        Config {
            default_key_path,
            cycles: CyclesConfig { key: KEY_CYCLES, salt: SALT_CYCLES, iv: IV_CYCLES },
        }
    }

    pub fn iv_cycles(&self) -> (r: u32)
        ensures
            r == self.cycles.iv,
    {
        self.cycles.iv
    }

    pub fn key_cycles(&self) -> (r: u32)
        ensures
            r == self.cycles.key,
    {
        self.cycles.key
    }

    pub fn salt_cycles(&self) -> (r: u32)
        ensures
            r == self.cycles.salt,
    {
        self.cycles.salt
    }

    /// Key material derived from the password with the given salt.
    pub fn derive_key(&self, password: &[u8], salt: &[u8]) -> (r: [u8; KEY_SIZE])
        requires
            self.cycles.key > 0,
        ensures
            r@ == pbkdf2_hmac_sha256(password@, salt@, self.cycles.key, KEY_SIZE as nat),
    {
        array_from::<KEY_SIZE>(&pbkdf2_sha256(password, salt, self.key_cycles(), KEY_SIZE))
    }

    /// A salt derived from the password alone (the password is its own salt).
    pub fn derive_salt(&self, password: &[u8]) -> (r: [u8; KEY_SIZE])
        requires
            self.cycles.salt > 0,
        ensures
            r@ == pbkdf2_hmac_sha256(password@, password@, self.cycles.salt, KEY_SIZE as nat),
    {
        array_from::<KEY_SIZE>(&pbkdf2_sha256(password, password, self.salt_cycles(), KEY_SIZE))
    }

    /// An iv derived from the password alone (the password is its own salt).
    pub fn derive_iv(&self, password: &[u8]) -> (r: [u8; IV_SIZE])
        requires
            self.cycles.iv > 0,
        ensures
            r@ == pbkdf2_hmac_sha256(password@, password@, self.cycles.iv, IV_SIZE as nat),
    {
        array_from::<IV_SIZE>(&pbkdf2_sha256(password, password, self.iv_cycles(), IV_SIZE))
    }
}

/// The AES block length.
pub const AES_BLOCK_SIZE: usize = 16;

/// The largest payload that `Key::encrypt` takes: the cipher's output
/// buffer must have room for one more block.
pub const MAX_PAYLOAD: usize = usize::MAX - AES_BLOCK_SIZE;

/// Names what AES-256 in CBC mode makes of whole blocks `blocks` under
/// `key` and `iv`, with no padding added.
pub uninterp spec fn aes256_cbc_raw_encrypted(key: Seq<u8>, iv: Seq<u8>, blocks: Seq<u8>) -> Seq<u8>;

/// Names the blocks that AES-256 in CBC mode recovers from `cipher` under
/// `key` and `iv`, with any padding left in place.
pub uninterp spec fn aes256_cbc_raw_decrypted(key: Seq<u8>, iv: Seq<u8>, cipher: Seq<u8>) -> Seq<u8>;

/// `plain` followed by PKCS#7 padding: `n` bytes of value `n`, where `n`
/// (1 to 16) brings the length to a whole number of blocks.
pub open spec fn pkcs7_pad(plain: Seq<u8>) -> Seq<u8> {
    let n = AES_BLOCK_SIZE as int - (plain.len() % (AES_BLOCK_SIZE as nat)) as int;
    plain + Seq::new(n as nat, |i: int| n as u8)
}

/// The data before valid PKCS#7 padding: the last byte `n` lies in 1..=16
/// and the last `n` bytes all equal `n`. `None` where that does not hold.
pub open spec fn pkcs7_unpadded(block: Seq<u8>) -> Option<Seq<u8>> {
    if block.len() == 0 {
        None
    } else {
        let n = block.last() as int;
        if 1 <= n <= AES_BLOCK_SIZE && n <= block.len() && (forall|i: int|
            block.len() - n <= i < block.len() ==> #[trigger] block[i] == n as u8) {
            Some(block.subrange(0, block.len() - n))
        } else {
            None
        }
    }
}

/// Stripping the padding that `pkcs7_pad` adds gives the data back.
pub proof fn lemma_unpad_pad(plain: Seq<u8>)
    ensures
        pkcs7_unpadded(pkcs7_pad(plain)) == Some(plain),
{
    let padded = pkcs7_pad(plain);
    let n = AES_BLOCK_SIZE as int - (plain.len() % (AES_BLOCK_SIZE as nat)) as int;
    assert(padded.last() == n as u8);
    assert forall|i: int| padded.len() - n <= i < padded.len() implies #[trigger] padded[i] == n as u8 by {}
    assert(padded.subrange(0, padded.len() - n) =~= plain);
}

#[verifier::external_type_specification]
#[verifier::external_body]
pub struct ExSymmetricCipherError(SymmetricCipherError);

/// Relies on `crypto::aes::cbc_encryptor` with `NoPadding`, run over the
/// whole input at once into a buffer as long as the input. On a positive
/// whole number of blocks its block engine does not fail and hands back as
/// many bytes as it was given, which the CBC decryptor under the same key
/// and iv turns back into the input.
#[verifier::external_body]
fn aes256_cbc_encrypt_raw(key: &[u8], iv: &[u8], blocks: &[u8]) -> (r: Result<Vec<u8>, SymmetricCipherError>)
    requires
        key@.len() == AES_KEY_LEN,
        iv@.len() == IV_SIZE,
        blocks@.len() > 0,
        blocks@.len() % (AES_BLOCK_SIZE as nat) == 0,
    ensures
        r is Ok,
        r->Ok_0@ == aes256_cbc_raw_encrypted(key@, iv@, blocks@),
        r->Ok_0@.len() == blocks@.len(),
        aes256_cbc_raw_decrypted(key@, iv@, r->Ok_0@) == blocks@,
{
    let mut encryptor = aes::cbc_encryptor(aes::KeySize::KeySize256, key, iv, blockmodes::NoPadding);
    let mut out = vec![0u8; blocks.len()];
    let mut reader = buffer::RefReadBuffer::new(blocks);
    let mut writer = buffer::RefWriteBuffer::new(&mut out);
    match encryptor.encrypt(&mut reader, &mut writer, true) {
        Ok(_) => Ok(writer.take_read_buffer().take_remaining().to_vec()),
        Err(error) => Err(error),
    }
}

/// `plain` with PKCS#7 padding appended.
pub fn pad_pkcs7(plain: &[u8]) -> (r: Vec<u8>)
    requires
        plain@.len() <= MAX_PAYLOAD,
    ensures
        r@ == pkcs7_pad(plain@),
        r@.len() == AES_BLOCK_SIZE * (plain@.len() / (AES_BLOCK_SIZE as nat) + 1),
{
    let n: usize = AES_BLOCK_SIZE - plain.len() % AES_BLOCK_SIZE;
    let mut out = slice_to_vec(plain);
    let mut i: usize = 0;
    while i < n
        invariant
            n == AES_BLOCK_SIZE - plain@.len() % (AES_BLOCK_SIZE as nat),
            1 <= n <= AES_BLOCK_SIZE,
            i <= n,
            out@ == plain@ + Seq::new(i as nat, |j: int| n as u8),
        decreases n - i,
    {
        out.push(n as u8);
        i = i + 1;
        assert(out@ =~= plain@ + Seq::new(i as nat, |j: int| n as u8));
    }
    assert(out@ =~= pkcs7_pad(plain@));
    assert(plain@.len() + n == AES_BLOCK_SIZE * (plain@.len() / (AES_BLOCK_SIZE as nat) + 1)) by (nonlinear_arith)
        requires
            n == AES_BLOCK_SIZE - plain@.len() % (AES_BLOCK_SIZE as nat),
    ;
    out
}

/// Relies on `crypto::aes::cbc_decryptor` with `NoPadding`, run over the
/// whole input at once into a buffer as long as the input. On a positive
/// whole number of blocks its block engine does not fail and hands back as
/// many bytes as it was given.
#[verifier::external_body]
fn aes256_cbc_decrypt_raw(key: &[u8], iv: &[u8], cipher: &[u8]) -> (r: Result<Vec<u8>, SymmetricCipherError>)
    requires
        key@.len() == AES_KEY_LEN,
        iv@.len() == IV_SIZE,
        cipher@.len() > 0,
        cipher@.len() % (AES_BLOCK_SIZE as nat) == 0,
    ensures
        r is Ok,
        r->Ok_0@ == aes256_cbc_raw_decrypted(key@, iv@, cipher@),
        r->Ok_0@.len() == cipher@.len(),
{
    let mut decryptor = aes::cbc_decryptor(aes::KeySize::KeySize256, key, iv, blockmodes::NoPadding);
    let mut out = vec![0u8; cipher.len()];
    let mut reader = buffer::RefReadBuffer::new(cipher);
    let mut writer = buffer::RefWriteBuffer::new(&mut out);
    match decryptor.decrypt(&mut reader, &mut writer, true) {
        Ok(_) => Ok(writer.take_read_buffer().take_remaining().to_vec()),
        Err(error) => Err(error),
    }
}

/// Strips PKCS#7 padding, which must be valid.
pub fn strip_padding(block: &Vec<u8>) -> (r: Option<Vec<u8>>)
    ensures
        match r {
            Some(v) => pkcs7_unpadded(block@) == Some(v@),
            None => pkcs7_unpadded(block@) is None,
        },
{
    let len = block.len();
    if len == 0 {
        return None;
    }
    let n = block[len - 1] as usize;
    if n < 1 || n > AES_BLOCK_SIZE || n > len {
        return None;
    }
    let mut i: usize = len - n;
    while i < len
        invariant
            len == block@.len(),
            n == block@.last() as int,
            1 <= n <= len,
            len - n <= i <= len,
            forall|j: int| len - n <= j < i ==> #[trigger] block@[j] == n as u8,
        decreases len - i,
    {
        if block[i] as usize != n {
            return None;
        }
        i = i + 1;
    }
    Some(slice_to_vec(slice_subrange(block.as_slice(), 0, len - n)))
}

/// Key material is cut into an encryption key (bytes 0..127) and a mac key
/// (bytes 128..255); byte 127 and byte 255 are left out. Stored keys have
/// always been cut this way, so the cut is kept; AES-256 itself reads the
/// first 32 bytes of the encryption key.
pub const ENC_KEY_END: usize = 127;

pub const MAC_KEY_START: usize = 128;

pub const MAC_KEY_END: usize = 255;

/// An AES-256 key as it is stored: the encryption key, the mac key and the
/// iv, each in base64, and the cycles it was derived with, if any.
#[derive(Debug)]
pub struct Key {
    algo: String,
    key: String,
    mac: String,
    iv: String,
    magic: Option<Vec<u32>>,
}

/// What a key holds, as mathematical values.
pub ghost struct KeyView {
    pub algo: Seq<char>,
    pub key: Seq<char>,
    pub mac: Seq<char>,
    pub iv: Seq<char>,
    pub magic: Option<Seq<u32>>,
}

impl KeyView {
    /// Every base64 field decodes, the encryption key has at least the 32
    /// bytes that AES-256 uses and the iv is one block long.
    pub open spec fn valid(self) -> bool {
        &&& base64_decoded(self.key) is Some
        &&& base64_decoded(self.mac) is Some
        &&& base64_decoded(self.iv) is Some
        &&& self.key_bytes().len() >= AES_KEY_LEN
        &&& self.iv_bytes().len() == IV_SIZE
    }

    pub open spec fn key_bytes(self) -> Seq<u8> {
        base64_decoded(self.key)->Some_0
    }

    pub open spec fn mac_bytes(self) -> Seq<u8> {
        base64_decoded(self.mac)->Some_0
    }

    pub open spec fn iv_bytes(self) -> Seq<u8> {
        base64_decoded(self.iv)->Some_0
    }

    /// The bytes that the cipher uses as its key: AES-256 reads the first
    /// 32 bytes of the stored encryption key.
    pub open spec fn cipher_key(self) -> Seq<u8> {
        self.key_bytes().subrange(0, AES_KEY_LEN as int)
    }

    /// The key's fingerprint.
    pub open spec fn digest(self) -> Seq<u8> {
        hmac_sha256(self.mac_bytes(), self.iv_bytes())
    }

    /// What encryption makes of `plain`: the digest, then the ciphertext.
    pub open spec fn sealed(self, plain: Seq<u8>) -> Seq<u8> {
        self.digest() + aes256_cbc_raw_encrypted(self.cipher_key(), self.iv_bytes(), pkcs7_pad(plain))
    }

    /// What decryption makes of `blob`: the plaintext, or the kind of error.
    /// A blob that is the digest alone opens as an empty payload: stores
    /// written by earlier versions of this format encrypted an empty payload
    /// that way, and they still open.
    pub open spec fn opened(self, blob: Seq<u8>) -> Result<Seq<u8>, ErrorKind> {
        if blob.len() < DIGEST_SIZE {
            Err(ErrorKind::Decode)
        } else if blob.subrange(0, DIGEST_SIZE as int) != self.digest() {
            Err(ErrorKind::KeyMismatch)
        } else {
            let body = blob.subrange(DIGEST_SIZE as int, blob.len() as int);
            if body.len() == 0 {
                Ok(Seq::empty())
            } else if body.len() % (AES_BLOCK_SIZE as nat) != 0 {
                Err(ErrorKind::Decrypt)
            } else {
                match pkcs7_unpadded(aes256_cbc_raw_decrypted(self.cipher_key(), self.iv_bytes(), body)) {
                    Some(p) => Ok(p),
                    None => Err(ErrorKind::Decrypt),
                }
            }
        }
    }
}

/// The key cut from `material` (the encryption and mac keys, as
/// `ENC_KEY_END` describes) with the given iv, and no cycles recorded.
pub open spec fn material_key(material: Seq<u8>, iv: Seq<u8>) -> KeyView {
    KeyView {
        algo: ALGO@,
        key: base64_of(material.subrange(0, ENC_KEY_END as int)),
        mac: base64_of(material.subrange(MAC_KEY_START as int, MAC_KEY_END as int)),
        iv: base64_of(iv),
        magic: None,
    }
}

/// The key derived from a password under the given cycles.
pub open spec fn derived_key(password: Seq<u8>, cycles: CyclesConfig) -> KeyView {
    let iv = pbkdf2_hmac_sha256(password, password, cycles.iv, IV_SIZE as nat);
    let salt = pbkdf2_hmac_sha256(password, password, cycles.salt, KEY_SIZE as nat);
    let material = pbkdf2_hmac_sha256(password, salt, cycles.key, KEY_SIZE as nat);
    KeyView { magic: Some(cycles.spec_to_seq()), ..material_key(material, iv) }
}

impl View for Key {
    type V = KeyView;

    closed spec fn view(&self) -> KeyView {
        KeyView {
            algo: self.algo@,
            key: self.key@,
            mac: self.mac@,
            iv: self.iv@,
            magic: match self.magic {
                Some(m) => Some(m@),
                None => None,
            },
        }
    }
}

/// The bytes that a base64 field decodes to.
fn decode_field(text: &String) -> (r: Vec<u8>)
    requires
        base64_decoded(text@) is Some,
    ensures
        r@ == base64_decoded(text@)->Some_0,
{
    b64decode(text.as_str()).unwrap()
}

impl Key {
    #[verifier::type_invariant]
    closed spec fn well_formed(&self) -> bool {
        self@.valid()
    }

    /// The key cut from `material` with the given iv: bytes 0..127 of the
    /// material become the encryption key, bytes 128..255 the mac key.
    pub fn from_material(material: &[u8; KEY_SIZE], iv: &[u8; IV_SIZE]) -> (r: Key)
        ensures
            r@ == material_key(material@, iv@),
    {
        let enc_key = slice_subrange(material, 0, ENC_KEY_END);
        let mac_key = slice_subrange(material, MAC_KEY_START, MAC_KEY_END);
        let key = Key {
            key: b64encode(enc_key),
            mac: b64encode(mac_key),
            iv: b64encode(iv),
            algo: ALGO.to_string(),
            magic: None,
        };
        assert(key@ =~= material_key(material@, iv@));
        key
    }

    /// Derives a key from a password with the cycles of the config: the iv
    /// and a salt come from the password alone, the key material from the
    /// password and that salt, and the material is cut as `from_material`
    /// cuts it.
    pub fn from_password(password: &[u8], config: &Config) -> (r: Key)
        requires
            config.cycles.positive(),
        ensures
            r@ == derived_key(password@, config.cycles),
    {
        let iv = config.derive_iv(password);
        let salt = config.derive_salt(password);
        let material = config.derive_key(password, &salt);
        let mut key = Key::from_material(&material, &iv);
        proof {
            use_type_invariant(&key);
        }
        key.magic = Some(config.cycles.to_vec());
        assert(key@ =~= derived_key(password@, config.cycles));
        key
    }

    /// Generates a key from random material and a random iv.
    pub fn generate() -> (r: Key)
        ensures
            exists|material: Seq<u8>, iv: Seq<u8>|
                material.len() == KEY_SIZE && iv.len() == IV_SIZE && r@ == material_key(material, iv),
    {
        let iv = generate_iv();
        let material = generate_key();
        Key::from_material(&material, &iv)
    }

    /// Builds a key from its stored fields, which must decode and have the
    /// lengths that a key needs.
    pub fn from_parts(algo: String, key: String, mac: String, iv: String, magic: Option<Vec<u32>>) -> (r: Result<Key, Error>)
        ensures
            match r {
                Ok(k) => k@ == (KeyView {
                    algo: algo@,
                    key: key@,
                    mac: mac@,
                    iv: iv@,
                    magic: match magic {
                        Some(m) => Some(m@),
                        None => None,
                    },
                }),
                Err(e) => e.kind == ErrorKind::InvalidKey && !(KeyView {
                    algo: algo@,
                    key: key@,
                    mac: mac@,
                    iv: iv@,
                    magic: None,
                }).valid(),
            },
    {
        let key_ok = match b64decode(key.as_str()) {
            Ok(k) => k.len() >= AES_KEY_LEN,
            Err(_) => false,
        };
        let mac_ok = b64decode(mac.as_str()).is_ok();
        let iv_ok = match b64decode(iv.as_str()) {
            Ok(v) => v.len() == IV_SIZE,
            Err(_) => false,
        };
        if key_ok && mac_ok && iv_ok {
            Ok(Key { algo, key, mac, iv, magic })
        } else {
            Err(Error::new(ErrorKind::InvalidKey, "key fields are not valid base64 key material"))
        }
    }

    pub fn algo(&self) -> (r: &String)
        ensures
            r@ == self@.algo,
    {
        &self.algo
    }

    /// The base64 of the encryption key.
    pub fn key(&self) -> (r: &String)
        ensures
            r@ == self@.key,
    {
        &self.key
    }

    /// The base64 of the mac key.
    pub fn mac(&self) -> (r: &String)
        ensures
            r@ == self@.mac,
    {
        &self.mac
    }

    /// The base64 of the iv.
    pub fn iv(&self) -> (r: &String)
        ensures
            r@ == self@.iv,
    {
        &self.iv
    }

    /// The cycles the key was derived with, if it was derived.
    pub fn magic(&self) -> (r: &Option<Vec<u32>>)
        ensures
            match *r {
                Some(m) => self@.magic == Some(m@),
                None => self@.magic is None,
            },
    {
        &self.magic
    }

    /// A copy of the key.
    pub fn duplicate(&self) -> (r: Key)
        ensures
            r@ == self@,
    {
        proof {
            use_type_invariant(self);
        }
        let magic = match &self.magic {
            Some(m) => Some(m.clone()),
            None => None,
        };
        Key {
            algo: self.algo.clone(),
            key: self.key.clone(),
            mac: self.mac.clone(),
            iv: self.iv.clone(),
            magic,
        }
    }

    pub fn iv_bytes(&self) -> (r: Result<Vec<u8>, Error>)
        ensures
            r is Ok,
            r->Ok_0@ == self@.iv_bytes(),
    {
        proof {
            use_type_invariant(self);
        }
        b64decode(self.iv.as_str())
    }

    pub fn key_bytes(&self) -> (r: Result<Vec<u8>, Error>)
        ensures
            r is Ok,
            r->Ok_0@ == self@.key_bytes(),
    {
        proof {
            use_type_invariant(self);
        }
        b64decode(self.key.as_str())
    }

    pub fn mac_bytes(&self) -> (r: Result<Vec<u8>, Error>)
        ensures
            r is Ok,
            r->Ok_0@ == self@.mac_bytes(),
    {
        proof {
            use_type_invariant(self);
        }
        b64decode(self.mac.as_str())
    }

    /// The key's fingerprint: the HMAC-SHA256 of the iv under the mac key.
    pub fn digest(&self) -> (r: Digest)
        ensures
            r@ == self@.digest(),
    {
        proof {
            use_type_invariant(self);
        }
        let mac = decode_field(&self.mac);
        let iv = decode_field(&self.iv);
        hmac_256_digest(mac.as_slice(), iv.as_slice()).unwrap()
    }

    /// Whether the given bytes are this key's fingerprint.
    pub fn check_digest(&self, buffer: &Digest) -> (r: bool)
        ensures
            r == (buffer@ == self@.digest()),
    {
        let digest = self.digest();
        bytes_match(buffer, &digest)
    }

    /// Encrypts `data`: the result is the key's digest followed by the
    /// AES-256-CBC ciphertext, and decrypting it with this key gives `data`.
    /// Only a payload too large for the cipher's buffer is refused.
    pub fn encrypt(&self, data: &[u8]) -> (r: Result<Vec<u8>, Error>)
        ensures
            r is Ok <==> data@.len() <= MAX_PAYLOAD,
            match r {
                Ok(c) => c@ == self@.sealed(data@) && c@.len() == DIGEST_SIZE + AES_BLOCK_SIZE * (
                data@.len() / (AES_BLOCK_SIZE as nat) + 1) && self@.opened(c@) == Ok::<
                    Seq<u8>,
                    ErrorKind,
                >(data@),
                Err(e) => e.kind == ErrorKind::Encrypt,
            },
    {
        proof {
            use_type_invariant(self);
        }
        if data.len() > MAX_PAYLOAD {
            return Err(Error::new(ErrorKind::Encrypt, "data is too large to encrypt"));
        }
        let enc_key = decode_field(&self.key);
        let iv = decode_field(&self.iv);
        let cipher_key = slice_subrange(enc_key.as_slice(), 0, AES_KEY_LEN);
        let digest = self.digest();
        let padded = pad_pkcs7(data);
        assert(padded@.len() % (AES_BLOCK_SIZE as nat) == 0) by (nonlinear_arith)
            requires
                padded@.len() == AES_BLOCK_SIZE * (data@.len() / (AES_BLOCK_SIZE as nat) + 1),
        ;
        let body = aes256_cbc_encrypt_raw(cipher_key, iv.as_slice(), padded.as_slice()).unwrap();
        let mut out = slice_to_vec(&digest);
        out.extend_from_slice(body.as_slice());
        assert(out@ =~= digest@ + body@);
        assert(out@.subrange(0, DIGEST_SIZE as int) =~= digest@);
        assert(out@.subrange(DIGEST_SIZE as int, out@.len() as int) =~= body@);
        proof {
            lemma_unpad_pad(data@);
        }
        Ok(out)
    }

    /// Decrypts a blob made by `encrypt`. A blob shorter than a digest, or
    /// one whose leading digest is not this key's, is refused before any
    /// cipher work; so is a ciphertext that is not a whole number of blocks.
    /// The padding is checked and stripped here.
    pub fn decrypt(&self, blob: &[u8]) -> (r: Result<Vec<u8>, Error>)
        ensures
            match r {
                Ok(p) => self@.opened(blob@) == Ok::<Seq<u8>, ErrorKind>(p@),
                Err(e) => self@.opened(blob@) == Err::<Seq<u8>, ErrorKind>(e.kind),
            },
    {
        proof {
            use_type_invariant(self);
        }
        if blob.len() < DIGEST_SIZE {
            return Err(Error::new(ErrorKind::Decode, "data is shorter than a key digest"));
        }
        let head = slice_to_vec(slice_subrange(blob, 0, DIGEST_SIZE));
        let hmac_bytes = array_from::<DIGEST_SIZE>(&head);
        if !self.check_digest(&hmac_bytes) {
            return Err(Error::new(ErrorKind::KeyMismatch, "data was not encrypted with the provided key"));
        }
        let enc_key = decode_field(&self.key);
        let iv = decode_field(&self.iv);
        let cipher_key = slice_subrange(enc_key.as_slice(), 0, AES_KEY_LEN);
        let body = slice_subrange(blob, DIGEST_SIZE, blob.len());
        if body.len() == 0 {
            return Ok(Vec::new());
        }
        if body.len() % AES_BLOCK_SIZE != 0 {
            return Err(Error::new(ErrorKind::Decrypt, "ciphertext is not a whole number of blocks"));
        }
        let padded = aes256_cbc_decrypt_raw(cipher_key, iv.as_slice(), body).unwrap();
        match strip_padding(&padded) {
            Some(p) => Ok(p),
            None => Err(Error::new(ErrorKind::Decrypt, "ciphertext has invalid padding")),
        }
    }
}

/// Deriving a key twice from the same password and cycles gives the same
/// key, byte for byte.
pub proof fn lemma_derivation_deterministic(password: Seq<u8>, cycles: CyclesConfig, k1: Key, k2: Key)
    requires
        k1@ == derived_key(password, cycles),
        k2@ == derived_key(password, cycles),
    ensures
        k1@ == k2@,
{
}

/// A key's digest depends on its mac and iv fields alone.
pub proof fn lemma_digest_stable(k1: KeyView, k2: KeyView)
    requires
        k1.mac == k2.mac,
        k1.iv == k2.iv,
    ensures
        k1.digest() == k2.digest(),
{
}

/// A blob sealed under one key is refused with a key mismatch by any key
/// whose digest differs from the sealing key's digest `d1`.
pub proof fn lemma_wrong_key_rejected(k1: KeyView, d1: Digest, k2: KeyView, plain: Seq<u8>)
    requires
        d1@ == k1.digest(),
        d1@ != k2.digest(),
    ensures
        k2.opened(k1.sealed(plain)) == Err::<Seq<u8>, ErrorKind>(ErrorKind::KeyMismatch),
{
    let blob = k1.sealed(plain);
    assert(blob.subrange(0, DIGEST_SIZE as int) =~= d1@);
}

} // verus!
