//! The secret store: encrypted records addressed by path, kept in the order
//! of their ids (the MD5 hex of the path), with lookup, glob search and
//! removal.

use vstd::prelude::*;

use std::collections::BTreeMap;
use vstd::slice::slice_to_vec;
use vstd::utf8::{decode_utf8, encode_utf8, encode_utf8_decode_utf8, encode_utf8_valid_utf8, valid_utf8};

use crate::aes256cbc::{Config, Digest, Key, KeyView, MAX_PAYLOAD};
use crate::about::version;
use crate::error::{Error, ErrorKind};
use crate::glob::{glob_compiles, glob_matches, is_prefix_glob, prefix_glob_matches, GlobMatcher};
use crate::ioutils::{b64decode, b64encode, base64_decoded, base64_of};
use crate::strmap::{has_key, keys_sorted, value_of, StrMap};

verus! {

pub const DEFAULT_TOMB_PATH: &'static str = "~/.tomb.yaml";

/// Names the lower-case hex of the MD5 digest of the text's UTF-8 bytes.
pub uninterp spec fn md5_hex(text: Seq<char>) -> Seq<char>;

/// The id under which a path is stored.
///
/// Relies on `md5::compute` and its lower-hex formatting.
#[verifier::external_body]
pub fn path_to_md5(path: &str) -> (r: String)
    ensures
        r@ == md5_hex(path@),
{
    format!("{:x}", md5::compute(path.as_bytes()))
}

/// A point in time: seconds since the Unix epoch and the nanoseconds past them.
#[derive(Debug, Clone, Copy, PartialEq, Eq, Structural)]
pub struct Timestamp {
    pub seconds: i64,
    pub nanos: u32,
}

/// Relies on `chrono::Utc::now`: the current time, read from the system clock.
#[verifier::external_body]
fn now() -> (r: Timestamp) {
    let t = chrono::Utc::now();
    Timestamp { seconds: t.timestamp(), nanos: t.timestamp_subsec_nanos() }
}

/// Relies on `String::from_utf8`: the text, exactly when the bytes are
/// valid UTF-8.
#[verifier::external_body]
fn utf8_string(bytes: Vec<u8>) -> (r: Option<String>)
    ensures
        match r {
            Some(s) => valid_utf8(bytes@) && s@ == decode_utf8(bytes@),
            None => !valid_utf8(bytes@),
        },
{
    String::from_utf8(bytes).ok()
}

/// The view of an optional string.
pub open spec fn opt_view(o: Option<String>) -> Option<Seq<char>> {
    match o {
        Some(s) => Some(s@),
        None => None,
    }
}

fn clone_opt(o: &Option<String>) -> (r: Option<String>)
    ensures
        opt_view(r) == opt_view(*o),
{
    match o {
        Some(s) => Some(s.clone()),
        None => None,
    }
}

/// One named secret: its ciphertext in base64, the digest of the key that
/// made it, metadata and timestamps.
#[derive(Debug, Clone)]
pub struct AES256Secret {
    pub digest: Digest,
    pub path: String,
    pub value: String,
    pub notes: Option<String>,
    pub username: Option<String>,
    pub url: Option<String>,
    pub attributes: Option<BTreeMap<String, String>>,
    pub created_at: Timestamp,
    pub updated_at: Timestamp,
}

/// What a secret holds, as mathematical values.
pub ghost struct SecretView {
    pub digest: Seq<u8>,
    pub path: Seq<char>,
    pub value: Seq<char>,
    pub notes: Option<Seq<char>>,
    pub username: Option<Seq<char>>,
    pub url: Option<Seq<char>>,
    pub attributes: Option<Map<String, String>>,
    pub created_at: Timestamp,
    pub updated_at: Timestamp,
}

impl View for AES256Secret {
    type V = SecretView;

    open spec fn view(&self) -> SecretView {
        SecretView {
            digest: self.digest@,
            path: self.path@,
            value: self.value@,
            notes: opt_view(self.notes),
            username: opt_view(self.username),
            url: opt_view(self.url),
            attributes: match self.attributes {
                Some(m) => Some(m@),
                None => None,
            },
            created_at: self.created_at,
            updated_at: self.updated_at,
        }
    }
}

/// The plaintext of a secret asked for under `path` with `key`, or the kind
/// of error that comes instead.
pub open spec fn secret_bytes(secret: SecretView, path: Seq<char>, key: KeyView) -> Result<Seq<u8>, ErrorKind> {
    if path != secret.path {
        Err(ErrorKind::PathMismatch)
    } else {
        match base64_decoded(secret.value) {
            Some(blob) => key.opened(blob),
            None => Err(ErrorKind::Decode),
        }
    }
}

/// The plaintext of a secret as text.
pub open spec fn secret_string(secret: SecretView, path: Seq<char>, key: KeyView) -> Result<Seq<char>, ErrorKind> {
    match secret_bytes(secret, path, key) {
        Ok(b) => if valid_utf8(b) {
            Ok(decode_utf8(b))
        } else {
            Err(ErrorKind::Decode)
        },
        Err(k) => Err(k),
    }
}

impl AES256Secret {
    /// A new secret holding `value` (a ciphertext) under `path`.
    pub fn new(path: String, value: Vec<u8>, key: Key) -> (r: AES256Secret)
        ensures
            r.digest@ == key@.digest(),
            r.path == path,
            r.value@ == base64_of(value@),
            base64_decoded(r.value@) == Some(value@),
            r.notes is None,
            r.username is None,
            r.url is None,
            r@.attributes == Some(Map::<String, String>::empty()),
            r.created_at == r.updated_at,
    {
        let t = now();
        AES256Secret {
            digest: key.digest(),
            path,
            value: b64encode(value.as_slice()),
            notes: None,
            username: None,
            url: None,
            attributes: Some(BTreeMap::new()),
            created_at: t,
            updated_at: t,
        }
    }

    /// The id under which the secret is stored.
    pub fn key(&self) -> (r: String)
        ensures
            r@ == md5_hex(self.path@),
    {
        path_to_md5(self.path.as_str())
    }

    /// A copy of the secret.
    pub fn duplicate(&self) -> (r: AES256Secret)
        ensures
            r@ == self@,
    {
        AES256Secret {
            digest: self.digest,
            path: self.path.clone(),
            value: self.value.clone(),
            notes: clone_opt(&self.notes),
            username: clone_opt(&self.username),
            url: clone_opt(&self.url),
            attributes: match &self.attributes {
                Some(m) => Some(m.clone()),
                None => None,
            },
            created_at: self.created_at,
            updated_at: self.updated_at,
        }
    }

    pub fn set_notes(&mut self, notes: Option<String>)
        ensures
            *final(self) == (AES256Secret { notes, ..*old(self) }),
    {
        self.notes = notes;
    }

    /// Sets the notes and hands back a copy of the secret.
    pub fn with_notes(&mut self, notes: Option<String>) -> (r: AES256Secret)
        ensures
            *final(self) == (AES256Secret { notes, ..*old(self) }),
            r@ == final(self)@,
    {
        self.set_notes(notes);
        self.duplicate()
    }

    pub fn set_username(&mut self, username: Option<String>)
        ensures
            *final(self) == (AES256Secret { username, ..*old(self) }),
    {
        self.username = username;
    }

    /// Sets the user name and hands back a copy of the secret.
    pub fn with_username(&mut self, username: Option<String>) -> (r: AES256Secret)
        ensures
            *final(self) == (AES256Secret { username, ..*old(self) }),
            r@ == final(self)@,
    {
        self.set_username(username);
        self.duplicate()
    }

    pub fn set_url(&mut self, url: Option<String>)
        ensures
            *final(self) == (AES256Secret { url, ..*old(self) }),
    {
        self.url = url;
    }

    /// Sets the url and hands back a copy of the secret.
    pub fn with_url(&mut self, url: Option<String>) -> (r: AES256Secret)
        ensures
            *final(self) == (AES256Secret { url, ..*old(self) }),
            r@ == final(self)@,
    {
        self.set_url(url);
        self.duplicate()
    }

    /// The ciphertext that the base64 value holds.
    pub fn value_bytes(&self) -> (r: Result<Vec<u8>, Error>)
        ensures
            match r {
                Ok(v) => base64_decoded(self.value@) == Some(v@),
                Err(e) => base64_decoded(self.value@) is None && e.kind == ErrorKind::Decode,
            },
    {
        b64decode(self.value.as_str())
    }

    /// Re-encrypts the secret under `path` with `key`: on success the
    /// digest, path and value change together and `updated_at` is stamped;
    /// on failure the record is left as it was.
    pub fn update(&mut self, path: String, plaintext: Vec<u8>, key: Key) -> (r: Result<(), Error>)
        ensures
            r is Ok <==> plaintext@.len() <= MAX_PAYLOAD,
            match r {
                Ok(_) => final(self).digest@ == key@.digest() && final(self).path == path
                    && final(self).value@ == base64_of(key@.sealed(plaintext@)) && secret_bytes(
                    final(self)@,
                    path@,
                    key@,
                ) == Ok::<Seq<u8>, ErrorKind>(plaintext@) && final(self).notes == old(self).notes
                    && final(self).username == old(self).username && final(self).url == old(
                    self,
                ).url && final(self).attributes == old(self).attributes && final(self).created_at
                    == old(self).created_at,
                Err(e) => e.kind == ErrorKind::Encrypt && *final(self) == *old(self),
            },
    {
        match key.encrypt(plaintext.as_slice()) {
            Ok(cyphertext) => {
                self.digest = key.digest();
                self.path = path;
                self.value = b64encode(cyphertext.as_slice());
                self.updated_at = now();
                Ok(())
            },
            Err(_) => Err(Error::new(ErrorKind::Encrypt, "cannot encrypt data for path with the provided key")),
        }
    }

    /// The plaintext, provided `path` is the secret's own path and `key`
    /// decrypts its value.
    pub fn get_bytes(&self, path: &str, key: Key) -> (r: Result<Vec<u8>, Error>)
        ensures
            match r {
                Ok(v) => secret_bytes(self@, path@, key@) == Ok::<Seq<u8>, ErrorKind>(v@),
                Err(e) => secret_bytes(self@, path@, key@) == Err::<Seq<u8>, ErrorKind>(e.kind),
            },
    {
        if path.to_string() != self.path {
            return Err(Error::new(ErrorKind::PathMismatch, "path does not match the secret's path"));
        }
        match self.value_bytes() {
            Ok(blob) => key.decrypt(blob.as_slice()),
            Err(e) => Err(e),
        }
    }

    /// The plaintext as UTF-8 text.
    pub fn get_string(&self, path: &str, key: Key) -> (r: Result<String, Error>)
        ensures
            match r {
                Ok(s) => secret_string(self@, path@, key@) == Ok::<Seq<char>, ErrorKind>(s@),
                Err(e) => secret_string(self@, path@, key@) == Err::<Seq<char>, ErrorKind>(e.kind),
            },
    {
        match self.get_bytes(path, key) {
            Ok(bytes) => match utf8_string(bytes) {
                Some(value) => Ok(value),
                None => Err(Error::new(ErrorKind::Decode, "cannot convert value to a valid utf-8 string")),
            },
            Err(error) => Err(error),
        }
    }

    /// The plaintext in base64.
    pub fn get_base64_string(&self, path: &str, key: Key) -> (r: Result<String, Error>)
        ensures
            match r {
                Ok(s) => secret_bytes(self@, path@, key@) is Ok && s@ == base64_of(
                    secret_bytes(self@, path@, key@)->Ok_0,
                ),
                Err(e) => secret_bytes(self@, path@, key@) == Err::<Seq<u8>, ErrorKind>(e.kind),
            },
    {
        match self.get_bytes(path, key) {
            Ok(bytes) => Ok(b64encode(bytes.as_slice())),
            Err(error) => Err(error),
        }
    }
}

/// What a store yields for `path` with `key`: the plaintext of the record
/// stored under the path's id, or the kind of error that comes instead.
pub open spec fn stored_bytes(data: Seq<(String, AES256Secret)>, path: Seq<char>, key: KeyView) -> Result<Seq<u8>, ErrorKind> {
    if has_key(data, md5_hex(path)) {
        secret_bytes(value_of(data, md5_hex(path))@, path, key)
    } else {
        Err(ErrorKind::NotFound)
    }
}

/// What a store yields for `path` with `key`, as text.
pub open spec fn stored_string(data: Seq<(String, AES256Secret)>, path: Seq<char>, key: KeyView) -> Result<Seq<char>, ErrorKind> {
    if has_key(data, md5_hex(path)) {
        secret_string(value_of(data, md5_hex(path))@, path, key)
    } else {
        Err(ErrorKind::NotFound)
    }
}

/// The paths that a glob pattern matches.
pub open spec fn glob_pred(pattern: Seq<char>) -> spec_fn(Seq<char>) -> bool {
    |t: Seq<char>| glob_matches(pattern, t)
}

/// The paths that a prefix glob matches.
pub open spec fn prefix_pred(pattern: Seq<char>) -> spec_fn(Seq<char>) -> bool {
    |t: Seq<char>| prefix_glob_matches(pattern, t)
}

/// An entry is listed when its path matches and its id is the MD5 hex of
/// the path or, as in older stores, the path itself.
pub open spec fn entry_selected(e: (String, AES256Secret), matches: spec_fn(Seq<char>) -> bool) -> bool {
    matches(e.1.path@) && (e.0@ == md5_hex(e.1.path@) || e.0@ == e.1.path@)
}

/// The records listed from `entries`, in the entries' order.
pub open spec fn listed(entries: Seq<(String, AES256Secret)>, matches: spec_fn(Seq<char>) -> bool) -> Seq<SecretView>
    decreases entries.len(),
{
    if entries.len() == 0 {
        Seq::empty()
    } else {
        let rest = listed(entries.drop_last(), matches);
        if entry_selected(entries.last(), matches) {
            rest.push(entries.last().1@)
        } else {
            rest
        }
    }
}

/// Every listed record has a path that the pattern matches.
pub proof fn lemma_listed_only_matching(
    entries: Seq<(String, AES256Secret)>,
    matches: spec_fn(Seq<char>) -> bool,
    i: int,
)
    requires
        0 <= i < listed(entries, matches).len(),
    ensures
        matches(listed(entries, matches)[i].path),
    decreases entries.len(),
{
    if entries.len() > 0 {
        let rest = listed(entries.drop_last(), matches);
        if i < rest.len() {
            lemma_listed_only_matching(entries.drop_last(), matches, i);
        }
    }
}

/// Every selected entry is listed.
pub proof fn lemma_listed_includes(
    entries: Seq<(String, AES256Secret)>,
    matches: spec_fn(Seq<char>) -> bool,
    j: int,
)
    requires
        0 <= j < entries.len(),
        entry_selected(entries[j], matches),
    ensures
        listed(entries, matches).contains(entries[j].1@),
    decreases entries.len(),
{
    let rest = listed(entries.drop_last(), matches);
    if j == entries.len() - 1 {
        assert(listed(entries, matches).last() == entries[j].1@);
    } else {
        assert(entries.drop_last()[j] == entries[j]);
        lemma_listed_includes(entries.drop_last(), matches, j);
        let k = choose|k: int| 0 <= k < rest.len() && rest[k] == entries[j].1@;
        if entry_selected(entries.last(), matches) {
            assert(listed(entries, matches)[k] == entries[j].1@);
        }
    }
}

/// Listing with `*` includes every record whose id is the MD5 hex of its
/// path (or the path itself) and whose path holds no line break.
pub proof fn lemma_star_lists_every_record(entries: Seq<(String, AES256Secret)>, j: int)
    requires
        0 <= j < entries.len(),
        entries[j].0@ == md5_hex(entries[j].1.path@) || entries[j].0@ == entries[j].1.path@,
        forall|i: int| 0 <= i < entries[j].1.path@.len() ==> #[trigger] entries[j].1.path@[i] != '\n',
    ensures
        is_prefix_glob(seq!['*']),
        listed(entries, prefix_pred(seq!['*'])).contains(entries[j].1@),
{
    let star = seq!['*'];
    let path = entries[j].1.path@;
    assert(path.subrange(0, 0) =~= star.subrange(0, 0));
    assert(prefix_pred(star)(path));
    lemma_listed_includes(entries, prefix_pred(star), j);
}

/// Listing with a prefix glob such as `my-*` yields only records whose
/// path starts with the literal part.
pub proof fn lemma_prefix_lists_only_prefixed(
    entries: Seq<(String, AES256Secret)>,
    pattern: Seq<char>,
    i: int,
)
    requires
        is_prefix_glob(pattern),
        0 <= i < listed(entries, prefix_pred(pattern)).len(),
    ensures
        listed(entries, prefix_pred(pattern))[i].path.len() >= pattern.len() - 1,
        listed(entries, prefix_pred(pattern))[i].path.subrange(0, pattern.len() - 1) == pattern.subrange(
            0,
            pattern.len() - 1,
        ),
{
    lemma_listed_only_matching(entries, prefix_pred(pattern), i);
}

/// The persisted collection of secrets, keyed by the MD5 hex of their paths.
pub struct AES256Tomb {
    pub digest: Digest,
    pub config: Config,
    pub filepath: Option<String>,
    pub data: StrMap<AES256Secret>,
    pub version: Option<String>,
}

impl AES256Tomb {
    /// An empty store that records the digest of `key`.
    pub fn new(filepath: &str, key: Key, config: Config) -> (r: AES256Tomb)
        ensures
            r.digest@ == key@.digest(),
            r.data@ == Seq::<(String, AES256Secret)>::empty(),
            keys_sorted(r.data@),
            opt_view(r.filepath) == Some(filepath@),
            opt_view(r.version) == Some(crate::about::VERSION@),
            r.config == config,
    {
        AES256Tomb {
            digest: key.digest(),
            data: StrMap::new(),
            filepath: Some(filepath.to_string()),
            version: Some(version()),
            config,
        }
    }

    pub fn set_filepath(&mut self, path: &str)
        ensures
            opt_view(final(self).filepath) == Some(path@),
            final(self).digest == old(self).digest,
            final(self).config == old(self).config,
            final(self).data == old(self).data,
            final(self).version == old(self).version,
    {
        self.filepath = Some(path.to_string());
    }

    /// The store with another file path.
    pub fn with_filepath(self, path: &str) -> (r: AES256Tomb)
        ensures
            opt_view(r.filepath) == Some(path@),
            r.digest == self.digest,
            r.config == self.config,
            r.data == self.data,
            r.version == self.version,
    {
        let mut dolly = self;
        dolly.set_filepath(path);
        dolly
    }

    /// Where `save` writes: the store's file path, which it must have.
    pub fn save_target(&self) -> (r: Result<String, Error>)
        ensures
            match r {
                Ok(p) => opt_view(self.filepath) == Some(p@),
                Err(e) => self.filepath is None && e.kind == ErrorKind::NoFilePath,
            },
    {
        match &self.filepath {
            Some(p) => Ok(p.clone()),
            None => Err(Error::new(ErrorKind::NoFilePath, "attempt to save tomb that does not have a filepath")),
        }
    }

    /// Where `reload` reads: the store's file path, or the default one.
    pub fn reload_target(&self) -> (r: String)
        ensures
            match self.filepath {
                Some(p) => r@ == p@,
                None => r@ == DEFAULT_TOMB_PATH@,
            },
    {
        match &self.filepath {
            Some(p) => p.clone(),
            None => DEFAULT_TOMB_PATH.to_string(),
        }
    }

    /// Takes over the records of a store read back from disk; nothing is merged.
    pub fn replace_data(&mut self, fresh: AES256Tomb)
        ensures
            final(self).data == fresh.data,
            final(self).digest == old(self).digest,
            final(self).config == old(self).config,
            final(self).filepath == old(self).filepath,
            final(self).version == old(self).version,
    {
        self.data = fresh.data;
    }

    /// The records whose path matches the glob `pattern` (and whose id is
    /// the MD5 hex of the path, or the path itself), in id order.
    pub fn list(&self, pattern: &str) -> (r: Result<Vec<AES256Secret>, Error>)
        ensures
            match r {
                Ok(v) => glob_compiles(pattern@) && v@.map_values(|s: AES256Secret| s@) == listed(
                    self.data@,
                    glob_pred(pattern@),
                ),
                Err(e) => !glob_compiles(pattern@) && e.kind == ErrorKind::InvalidPattern,
            },
            is_prefix_glob(pattern@) ==> r is Ok,
            is_prefix_glob(pattern@) && r is Ok ==> r->Ok_0@.map_values(|s: AES256Secret| s@)
                == listed(self.data@, prefix_pred(pattern@)),
    {
        let matcher = match GlobMatcher::compile(pattern) {
            Ok(m) => m,
            Err(_) => {
                return Err(Error::new(ErrorKind::InvalidPattern, "invalid glob pattern"));
            },
        };
        let ghost pred = glob_pred(pattern@);
        let mut result: Vec<AES256Secret> = Vec::new();
        let n = self.data.len();
        let mut i: usize = 0;
        while i < n
            invariant
                n == self.data@.len(),
                i <= n,
                matcher.pattern() == pattern@,
                pred == glob_pred(pattern@),
                result@.map_values(|s: AES256Secret| s@) == listed(self.data@.subrange(0, i as int), pred),
            decreases n - i,
        {
            let entry = self.data.entry(i);
            let ghost prefix = self.data@.subrange(0, i + 1);
            assert(prefix.drop_last() =~= self.data@.subrange(0, i as int));
            assert(prefix.last() == self.data@[i as int]);
            let path = entry.1.path.as_str();
            let selected = matcher.is_match(path) && (entry.0 == entry.1.key() || entry.0 == entry.1.path);
            assert(pred(entry.1.path@) == glob_matches(pattern@, entry.1.path@));
            assert(selected == entry_selected(prefix.last(), pred));
            if selected {
                let ghost before = result@;
                result.push(entry.1.duplicate());
                assert(result@.map_values(|s: AES256Secret| s@) =~= before.map_values(
                    |s: AES256Secret| s@,
                ).push(entry.1@));
            }
            i = i + 1;
        }
        assert(self.data@.subrange(0, n as int) =~= self.data@);
        proof {
            if is_prefix_glob(pattern@) {
                assert(glob_pred(pattern@) =~= prefix_pred(pattern@));
            }
        }
        Ok(result)
    }

    /// Removes the record stored for `path`.
    pub fn delete_secret(&mut self, path: &str) -> (r: Result<(), Error>)
        ensures
            keys_sorted(final(self).data@),
            final(self).data@.len() == old(self).data@.len() - if r is Ok {
                1int
            } else {
                0int
            },
            match r {
                Ok(_) => has_key(old(self).data@, md5_hex(path@)),
                Err(e) => !has_key(old(self).data@, md5_hex(path@)) && e.kind == ErrorKind::NotFound,
            },
            !has_key(final(self).data@, md5_hex(path@)),
            forall|k: Seq<char>|
                k != md5_hex(path@) ==> has_key(final(self).data@, k) == has_key(old(self).data@, k),
            forall|k: Seq<char>|
                k != md5_hex(path@) && has_key(old(self).data@, k) ==> value_of(final(self).data@, k)
                    == value_of(old(self).data@, k),
            final(self).digest == old(self).digest,
            final(self).config == old(self).config,
            final(self).filepath == old(self).filepath,
            final(self).version == old(self).version,
    {
        let key = path_to_md5(path);
        match self.data.remove(key.as_str()) {
            Some(_) => Ok(()),
            None => Err(Error::new(ErrorKind::NotFound, "key not found")),
        }
    }

    /// Encrypts `plaintext` with `key` and stores it for `path` (only a
    /// payload too large for the cipher is refused), replacing
    /// any record stored there.
    pub fn add_secret_from_bytes(&mut self, path: &str, plaintext: Vec<u8>, key: Key) -> (r: Result<(), Error>)
        ensures
            keys_sorted(final(self).data@),
            final(self).data@.len() == old(self).data@.len() + if r is Ok && !has_key(
                old(self).data@,
                md5_hex(path@),
            ) {
                1int
            } else {
                0int
            },
            r is Ok <==> plaintext@.len() <= MAX_PAYLOAD,
            match r {
                Ok(_) => has_key(final(self).data@, md5_hex(path@)) && value_of(
                    final(self).data@,
                    md5_hex(path@),
                ).path@ == path@ && value_of(final(self).data@, md5_hex(path@)).digest@
                    == key@.digest() && stored_bytes(final(self).data@, path@, key@) == Ok::<
                    Seq<u8>,
                    ErrorKind,
                >(plaintext@),
                Err(e) => e.kind == ErrorKind::Encrypt && final(self).data@ == old(self).data@,
            },
            forall|k: Seq<char>|
                k != md5_hex(path@) ==> has_key(final(self).data@, k) == has_key(old(self).data@, k),
            forall|k: Seq<char>|
                k != md5_hex(path@) && has_key(old(self).data@, k) ==> value_of(final(self).data@, k)
                    == value_of(old(self).data@, k),
            final(self).digest == old(self).digest,
            final(self).config == old(self).config,
            final(self).filepath == old(self).filepath,
            final(self).version == old(self).version,
    {
        self.data.prove_sorted();
        let cyphertext = match key.encrypt(plaintext.as_slice()) {
            Ok(c) => c,
            Err(_) => {
                return Err(Error::new(ErrorKind::Encrypt, "cannot encrypt data for path with the provided key"));
            },
        };
        let secret = AES256Secret::new(path.to_string(), cyphertext, key);
        let id = secret.key();
        self.data.insert(id, secret);
        Ok(())
    }

    /// Stores the UTF-8 bytes of `plaintext` for `path`, as
    /// `add_secret_from_bytes` does; the text reads back unchanged.
    pub fn add_secret(&mut self, path: &str, plaintext: String, key: Key) -> (r: Result<(), Error>)
        ensures
            keys_sorted(final(self).data@),
            final(self).data@.len() == old(self).data@.len() + if r is Ok && !has_key(
                old(self).data@,
                md5_hex(path@),
            ) {
                1int
            } else {
                0int
            },
            r is Ok <==> encode_utf8(plaintext@).len() <= MAX_PAYLOAD,
            match r {
                Ok(_) => has_key(final(self).data@, md5_hex(path@)) && value_of(
                    final(self).data@,
                    md5_hex(path@),
                ).path@ == path@ && value_of(final(self).data@, md5_hex(path@)).digest@
                    == key@.digest() && stored_bytes(
                    final(self).data@,
                    path@,
                    key@,
                ) == Ok::<Seq<u8>, ErrorKind>(encode_utf8(plaintext@)) && stored_string(
                    final(self).data@,
                    path@,
                    key@,
                ) == Ok::<Seq<char>, ErrorKind>(plaintext@),
                Err(e) => e.kind == ErrorKind::Encrypt && final(self).data@ == old(self).data@,
            },
            forall|k: Seq<char>|
                k != md5_hex(path@) ==> has_key(final(self).data@, k) == has_key(old(self).data@, k),
            forall|k: Seq<char>|
                k != md5_hex(path@) && has_key(old(self).data@, k) ==> value_of(final(self).data@, k)
                    == value_of(old(self).data@, k),
            final(self).digest == old(self).digest,
            final(self).config == old(self).config,
            final(self).filepath == old(self).filepath,
            final(self).version == old(self).version,
    {
        let bytes = slice_to_vec(plaintext.as_str().as_bytes());
        let r = self.add_secret_from_bytes(path, bytes, key);
        proof {
            encode_utf8_valid_utf8(plaintext@);
            encode_utf8_decode_utf8(plaintext@);
        }
        r
    }

    /// The key derived from `password` with the store's config.
    pub fn derive_key(&self, password: &str) -> (r: Key)
        requires
            self.config.cycles.positive(),
        ensures
            r@ == crate::aes256cbc::derived_key(encode_utf8(password@), self.config.cycles),
    {
        Key::from_password(password.as_bytes(), &self.config)
    }

    /// A copy of the record stored for `path`.
    pub fn get(&self, path: &str) -> (r: Result<AES256Secret, Error>)
        ensures
            match r {
                Ok(s) => has_key(self.data@, md5_hex(path@)) && s@ == value_of(self.data@, md5_hex(path@))@,
                Err(e) => !has_key(self.data@, md5_hex(path@)) && e.kind == ErrorKind::NotFound,
            },
    {
        let key = path_to_md5(path);
        self.get_by_md5(key.as_str())
    }

    /// A copy of the record stored under the id `key`.
    pub fn get_by_md5(&self, key: &str) -> (r: Result<AES256Secret, Error>)
        ensures
            match r {
                Ok(s) => has_key(self.data@, key@) && s@ == value_of(self.data@, key@)@,
                Err(e) => !has_key(self.data@, key@) && e.kind == ErrorKind::NotFound,
            },
    {
        match self.data.get(key) {
            Some(secret) => Ok(secret.duplicate()),
            None => Err(Error::new(ErrorKind::NotFound, "key (path) not found")),
        }
    }

    /// The plaintext stored for `path`, in base64.
    pub fn get_base64_string(&self, path: &str, key: Key) -> (r: Result<String, Error>)
        ensures
            match r {
                Ok(s) => stored_bytes(self.data@, path@, key@) is Ok && s@ == base64_of(
                    stored_bytes(self.data@, path@, key@)->Ok_0,
                ),
                Err(e) => stored_bytes(self.data@, path@, key@) == Err::<Seq<u8>, ErrorKind>(e.kind),
            },
    {
        match self.get(path) {
            Ok(secret) => secret.get_base64_string(path, key),
            Err(e) => Err(e),
        }
    }

    /// The plaintext stored for `path`, as UTF-8 text.
    pub fn get_string(&self, path: &str, key: Key) -> (r: Result<String, Error>)
        ensures
            match r {
                Ok(s) => stored_string(self.data@, path@, key@) == Ok::<Seq<char>, ErrorKind>(s@),
                Err(e) => stored_string(self.data@, path@, key@) == Err::<Seq<char>, ErrorKind>(e.kind),
            },
    {
        match self.get(path) {
            Ok(secret) => secret.get_string(path, key),
            Err(e) => Err(e),
        }
    }

    /// The plaintext stored for `path`.
    pub fn get_bytes(&self, path: &str, key: Key) -> (r: Result<Vec<u8>, Error>)
        ensures
            match r {
                Ok(v) => stored_bytes(self.data@, path@, key@) == Ok::<Seq<u8>, ErrorKind>(v@),
                Err(e) => stored_bytes(self.data@, path@, key@) == Err::<Seq<u8>, ErrorKind>(e.kind),
            },
    {
        match self.get(path) {
            Ok(secret) => secret.get_bytes(path, key),
            Err(e) => Err(e),
        }
    }
}

} // verus!
