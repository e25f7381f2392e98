//! Envelope encryption with AES-256-GCM-SIV: under a raw 256-bit key, and
//! under a key derived from a passphrase with Argon2.
use vstd::prelude::*;
use vstd::slice::{slice_subrange, slice_to_vec};

use aes_gcm_siv::aead::{Aead, KeyInit};
use aes_gcm_siv::{Aes256GcmSiv, Key, Nonce};
use rand::RngCore;

use crate::error::{TecError, TecResult};
use crate::hex::{self, hex_of, unhex, lemma_hex_round_trip};

verus! {

/// The length of a nonce.
pub const NONCE_LEN: usize = 12;

/// The length of a salt.
pub const SALT_LEN: usize = 32;

/// The length of a key.
pub const KEY_LEN: usize = 32;

/// The length of an authentication tag.
pub const TAG_LEN: usize = 16;

/// The longest plaintext that AES-256-GCM-SIV takes: 2^36 bytes.
pub const P_MAX: u64 = 0x10_0000_0000;

/// The longest passphrase that Argon2 takes.
pub const MAX_PWD_LEN: u64 = 0xFFFF_FFFF;

/// The ciphertext and tag that AES-256-GCM-SIV gives for `plaintext` under
/// `key` and `nonce`.
pub uninterp spec fn gcm_siv_seal(key: Seq<u8>, nonce: Seq<u8>, plaintext: Seq<u8>) -> Seq<u8>;

/// What AES-256-GCM-SIV decryption gives for `ciphertext` under `key` and
/// `nonce`: the plaintext, or `None` where the tag does not authenticate.
pub uninterp spec fn gcm_siv_open(key: Seq<u8>, nonce: Seq<u8>, ciphertext: Seq<u8>) -> Option<Seq<u8>>;

/// The 32-byte key that Argon2id, with its default parameters, derives from
/// `pwd` and `salt`.
pub uninterp spec fn argon2id_key(pwd: Seq<u8>, salt: Seq<u8>) -> Seq<u8>;

/// Relies on `KeyInit::new_from_slice` of `aes_gcm_siv::Aes256GcmSiv`: it
/// accepts exactly the keys of 32 bytes.
#[verifier::external_body]
fn check_key_len(key: &[u8]) -> (r: Result<(), crypto_common::InvalidLength>)
    ensures
        r is Ok <==> key@.len() == KEY_LEN,
{
    Aes256GcmSiv::new_from_slice(key).map(|_| ())
}

/// Relies on `Aead::encrypt` of `aes_gcm_siv::Aes256GcmSiv` (the key and the
/// nonce only change type): it fails only on a plaintext over `P_MAX` bytes,
/// and appends a 16-byte tag to a ciphertext as long as the plaintext.
#[verifier::external_body]
fn aead_encrypt(key: &[u8], nonce: &[u8], plaintext: &[u8]) -> (r: Result<Vec<u8>, aes_gcm_siv::aead::Error>)
    requires
        key@.len() == KEY_LEN,
        nonce@.len() == NONCE_LEN,
    ensures
        r is Ok <==> plaintext@.len() <= P_MAX,
        r matches Ok(c) ==> c@ == gcm_siv_seal(key@, nonce@, plaintext@),
        r matches Ok(c) ==> c@.len() == plaintext@.len() + TAG_LEN,
{
    Aes256GcmSiv::new(Key::<Aes256GcmSiv>::from_slice(key)).encrypt(Nonce::from_slice(nonce), plaintext)
}

/// Relies on `Aead::decrypt` of `aes_gcm_siv::Aes256GcmSiv` (the key and the
/// nonce only change type), and on its being the inverse of `Aead::encrypt`
/// under the same key and nonce; a ciphertext shorter than the tag fails.
#[verifier::external_body]
fn aead_decrypt(key: &[u8], nonce: &[u8], ciphertext: &[u8]) -> (r: Result<Vec<u8>, aes_gcm_siv::aead::Error>)
    requires
        key@.len() == KEY_LEN,
        nonce@.len() == NONCE_LEN,
    ensures
        r is Ok <==> gcm_siv_open(key@, nonce@, ciphertext@) is Some,
        ciphertext@.len() < TAG_LEN ==> r is Err,
        r matches Ok(v) ==> gcm_siv_open(key@, nonce@, ciphertext@) == Some(v@),
        forall|p: Seq<u8>|
            p.len() <= P_MAX && ciphertext@ == #[trigger] gcm_siv_seal(key@, nonce@, p)
                ==> (r is Ok && r->Ok_0@ == p),
{
    Aes256GcmSiv::new(Key::<Aes256GcmSiv>::from_slice(key)).decrypt(Nonce::from_slice(nonce), ciphertext)
}

/// Relies on `argon2::Argon2::default().hash_password_into` with a 32-byte
/// salt and a 32-byte output: it fails only on a passphrase over
/// `MAX_PWD_LEN` bytes.
#[verifier::external_body]
fn argon2_derive(pwd: &[u8], salt: &[u8]) -> (r: Result<Vec<u8>, argon2::Error>)
    requires
        salt@.len() == SALT_LEN,
    ensures
        r is Ok <==> pwd@.len() <= MAX_PWD_LEN,
        r matches Ok(k) ==> k@ == argon2id_key(pwd@, salt@) && k@.len() == KEY_LEN,
{
    let mut out = vec![0u8; KEY_LEN];
    argon2::Argon2::default().hash_password_into(pwd, salt, &mut out).map(|_| out)
}

/// Relies on `rand::thread_rng` and `RngCore::fill_bytes`: `len` random bytes.
#[verifier::external_body]
pub(crate) fn random_bytes(len: usize) -> (r: Vec<u8>)
    ensures
        r@.len() == len,
{
    let mut v = vec![0u8; len];
    rand::thread_rng().fill_bytes(&mut v);
    v
}

/// Relies on `rand::rngs::OsRng` and `RngCore::fill_bytes`: `len` random
/// bytes from the operating system.
#[verifier::external_body]
pub(crate) fn os_random_bytes(len: usize) -> (r: Vec<u8>)
    ensures
        r@.len() == len,
{
    let mut v = vec![0u8; len];
    rand::rngs::OsRng.fill_bytes(&mut v);
    v
}

/// A blob as [`AesCipher`] writes it: the nonce, then ciphertext and tag.
pub open spec fn sealed_envelope(key: Seq<u8>, nonce: Seq<u8>, plaintext: Seq<u8>) -> Seq<u8> {
    nonce + gcm_siv_seal(key, nonce, plaintext)
}

/// What [`AesCipher`] reads from a blob: `None` for a blob shorter than a
/// nonce or one that does not authenticate.
pub open spec fn open_envelope(key: Seq<u8>, blob: Seq<u8>) -> Option<Seq<u8>> {
    if blob.len() < NONCE_LEN {
        None
    } else {
        gcm_siv_open(key, blob.subrange(0, NONCE_LEN as int), blob.subrange(NONCE_LEN as int, blob.len() as int))
    }
}

fn concat(a: &[u8], b: &[u8]) -> (r: Vec<u8>)
    ensures
        r@ == a@ + b@,
{
    let mut v = slice_to_vec(a);
    let mut tail = slice_to_vec(b);
    v.append(&mut tail);
    v
}

/// Authenticated encryption of byte strings under a 256-bit key.
pub struct AesCipher {
    key: Vec<u8>,
}

impl AesCipher {
    /// The key.
    pub closed spec fn key(&self) -> Seq<u8> {
        self.key@
    }

    /// The key of a cipher is 32 bytes long.
    pub closed spec fn wf(&self) -> bool {
        self.key@.len() == KEY_LEN
    }

    /// A cipher under `key`, which must be 32 bytes long.
    pub fn from_slice(key: &[u8]) -> (r: TecResult<AesCipher>)
        ensures
            r is Ok <==> key@.len() == KEY_LEN,
            r matches Ok(c) ==> c.key() == key@ && c.wf(),
    {
        match check_key_len(key) {
            Ok(()) => Ok(AesCipher { key: slice_to_vec(key) }),
            Err(e) => Err(TecError::InvalidLength(e)),
        }
    }

    /// Encrypts under a fresh random nonce, which leads the blob.
    pub fn encypt(&self, plaintext: &[u8]) -> (r: TecResult<Vec<u8>>)
        requires
            self.wf(),
        ensures
            r is Ok <==> plaintext@.len() <= P_MAX,
            r matches Ok(b) ==> b@.len() == NONCE_LEN + plaintext@.len() + TAG_LEN,
            r matches Ok(b) ==> exists|n: Seq<u8>|
                n.len() == NONCE_LEN && b@ == #[trigger] sealed_envelope(self.key(), n, plaintext@),
    {
        let nonce = random_bytes(NONCE_LEN);
        match aead_encrypt(self.key.as_slice(), nonce.as_slice(), plaintext) {
            Ok(ct) => {
                let blob = concat(nonce.as_slice(), ct.as_slice());
                assert(blob@ == sealed_envelope(self.key(), nonce@, plaintext@));
                Ok(blob)
            },
            Err(e) => Err(TecError::AESError(e)),
        }
    }

    /// Decrypts a blob that [`AesCipher::encypt`] wrote; a blob sealed under
    /// this key gives its plaintext back.
    pub fn decypt(&self, enc: &[u8]) -> (r: TecResult<Vec<u8>>)
        requires
            self.wf(),
        ensures
            match open_envelope(self.key(), enc@) {
                Some(p) => r matches Ok(v) && v@ == p,
                None => r is Err,
            },
            forall|n: Seq<u8>, p: Seq<u8>|
                n.len() == NONCE_LEN && p.len() <= P_MAX && enc@ == #[trigger] sealed_envelope(self.key(), n, p)
                    ==> (r is Ok && r->Ok_0@ == p),
    {
        if enc.len() < NONCE_LEN {
            return Err(TecError::InvalidInput);
        }
        let nonce = slice_subrange(enc, 0, NONCE_LEN);
        let ct = slice_subrange(enc, NONCE_LEN, enc.len());
        let res = aead_decrypt(self.key.as_slice(), nonce, ct);
        assert forall|n: Seq<u8>, p: Seq<u8>|
            n.len() == NONCE_LEN && p.len() <= P_MAX && enc@ == #[trigger] sealed_envelope(self.key(), n, p)
                implies (res is Ok && res->Ok_0@ == p) by {
            assert(nonce@ =~= n);
            assert(ct@ =~= gcm_siv_seal(self.key(), n, p));
        }
        match res {
            Ok(v) => Ok(v),
            Err(e) => Err(TecError::AESError(e)),
        }
    }
}

/// The key file text that sealing `plaintext` under the passphrase `pwd`
/// gives with `salt` and `nonce`: in hexadecimal, the salt, the nonce, then
/// ciphertext and tag under the key that Argon2id derives.
pub open spec fn key_frame(pwd: Seq<u8>, salt: Seq<u8>, nonce: Seq<u8>, plaintext: Seq<u8>) -> Seq<char> {
    hex_of(salt + nonce + gcm_siv_seal(argon2id_key(pwd, salt), nonce, plaintext))
}

/// What opening a key file text with the passphrase `pwd` gives: `None` for
/// a text that is no hexadecimal, is shorter than salt and nonce, or does not
/// authenticate, and for a passphrase that Argon2 refuses.
pub open spec fn open_key_frame(pwd: Seq<u8>, text: Seq<char>) -> Option<Seq<u8>> {
    match unhex(text) {
        None => None,
        Some(b) => if b.len() < SALT_LEN + NONCE_LEN || pwd.len() > MAX_PWD_LEN {
            None
        } else {
            gcm_siv_open(
                argon2id_key(pwd, b.subrange(0, SALT_LEN as int)),
                b.subrange(SALT_LEN as int, (SALT_LEN + NONCE_LEN) as int),
                b.subrange((SALT_LEN + NONCE_LEN) as int, b.len() as int),
            )
        },
    }
}

/// Encryption under a key derived from a passphrase.
pub struct Argon2Cipher<'a> {
    pwd: &'a [u8],
}

impl<'a> Argon2Cipher<'a> {
    pub closed spec fn passphrase(&self) -> Seq<u8> {
        self.pwd@
    }

    pub fn new(pwd: &'a [u8]) -> (r: Self)
        ensures
            r.passphrase() == pwd@,
    {
        Argon2Cipher { pwd }
    }

    /// Seals `plaintext` under a fresh salt and nonce into key file text.
    pub fn encrypt(&self, plaintext: &[u8]) -> (r: TecResult<String>)
        ensures
            r is Ok <==> self.passphrase().len() <= MAX_PWD_LEN && plaintext@.len() <= P_MAX,
            r matches Ok(s) ==> s@.len() == 2 * (SALT_LEN + NONCE_LEN + plaintext@.len() + TAG_LEN),
            r matches Ok(s) ==> exists|salt: Seq<u8>, nonce: Seq<u8>|
                salt.len() == SALT_LEN && nonce.len() == NONCE_LEN
                    && s@ == #[trigger] key_frame(self.passphrase(), salt, nonce, plaintext@),
    {
        let salt = random_bytes(SALT_LEN);
        let nonce = random_bytes(NONCE_LEN);
        let enc_key = match argon2_derive(self.pwd, salt.as_slice()) {
            Ok(k) => k,
            Err(e) => return Err(TecError::Argon2Error(e)),
        };
        let ct = match aead_encrypt(enc_key.as_slice(), nonce.as_slice(), plaintext) {
            Ok(c) => c,
            Err(e) => return Err(TecError::AESError(e)),
        };
        let head = concat(salt.as_slice(), nonce.as_slice());
        let enc = concat(head.as_slice(), ct.as_slice());
        match hex::encode(enc.as_slice()) {
            Ok(s) => {
                assert(s@ == key_frame(self.passphrase(), salt@, nonce@, plaintext@));
                Ok(s)
            },
            Err(e) => Err(e),
        }
    }

    /// Opens key file text; text that this passphrase sealed gives its
    /// plaintext back.
    pub fn decrypt(&self, enc_str: &str) -> (r: TecResult<Vec<u8>>)
        ensures
            match open_key_frame(self.passphrase(), enc_str@) {
                Some(p) => r matches Ok(v) && v@ == p,
                None => r is Err,
            },
            forall|salt: Seq<u8>, nonce: Seq<u8>, p: Seq<u8>|
                salt.len() == SALT_LEN && nonce.len() == NONCE_LEN && p.len() <= P_MAX
                    && self.passphrase().len() <= MAX_PWD_LEN
                    && enc_str@ == #[trigger] key_frame(self.passphrase(), salt, nonce, p)
                    ==> (r is Ok && r->Ok_0@ == p),
    {
        let enc = match hex::decode(enc_str) {
            Ok(b) => b,
            Err(e) => {
                proof {
                    assert forall|salt: Seq<u8>, nonce: Seq<u8>, p: Seq<u8>|
                        enc_str@ == #[trigger] key_frame(self.passphrase(), salt, nonce, p) implies false by {
                        lemma_hex_round_trip(salt + nonce + gcm_siv_seal(argon2id_key(self.passphrase(), salt), nonce, p));
                    }
                }
                return Err(e);
            },
        };
        if enc.len() < SALT_LEN + NONCE_LEN {
            proof {
                assert forall|salt: Seq<u8>, nonce: Seq<u8>, p: Seq<u8>|
                    salt.len() == SALT_LEN && nonce.len() == NONCE_LEN
                    && enc_str@ == #[trigger] key_frame(self.passphrase(), salt, nonce, p) implies false by {
                    lemma_hex_round_trip(salt + nonce + gcm_siv_seal(argon2id_key(self.passphrase(), salt), nonce, p));
                }
            }
            return Err(TecError::InvalidInput);
        }
        let salt = slice_subrange(enc.as_slice(), 0, SALT_LEN);
        let nonce = slice_subrange(enc.as_slice(), SALT_LEN, SALT_LEN + NONCE_LEN);
        let ct = slice_subrange(enc.as_slice(), SALT_LEN + NONCE_LEN, enc.len());
        let enc_key = match argon2_derive(self.pwd, salt) {
            Ok(k) => k,
            Err(e) => return Err(TecError::Argon2Error(e)),
        };
        let res = aead_decrypt(enc_key.as_slice(), nonce, ct);
        assert forall|s: Seq<u8>, n: Seq<u8>, p: Seq<u8>|
            s.len() == SALT_LEN && n.len() == NONCE_LEN && p.len() <= P_MAX
                && self.passphrase().len() <= MAX_PWD_LEN
                && enc_str@ == #[trigger] key_frame(self.passphrase(), s, n, p)
                implies (res is Ok && res->Ok_0@ == p) by {
            let whole = s + n + gcm_siv_seal(argon2id_key(self.passphrase(), s), n, p);
            lemma_hex_round_trip(whole);
            assert(enc@ == whole);
            assert(salt@ =~= s);
            assert(nonce@ =~= n);
            assert(ct@ =~= gcm_siv_seal(argon2id_key(self.passphrase(), s), n, p));
        }
        match res {
            Ok(v) => Ok(v),
            Err(e) => Err(TecError::AESError(e)),
        }
    }
}

} // verus!
