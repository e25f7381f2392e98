//! The master key, kept sealed under the passphrase in a key file.
//!
//! The store holds the key file's text; reading and writing the file is left
//! to the caller, which hands over what it read (or `None` where there is no
//! file) and writes back [`KeyStore::stored`] after [`KeyStore::set_key`].
use vstd::prelude::*;

use crate::cipher::{Argon2Cipher, KEY_LEN, TAG_LEN, MAX_PWD_LEN, NONCE_LEN, P_MAX, SALT_LEN, key_frame, open_key_frame, os_random_bytes};
use crate::error::{TecError, TecResult};

verus! {

/// The key file's text, where there is a key file.
pub struct KeyStore {
    stored: Option<String>,
}

impl KeyStore {
    /// The text of the key file, if there is one.
    pub closed spec fn file(&self) -> Option<Seq<char>> {
        match self.stored {
            Some(s) => Some(s@),
            None => None,
        }
    }

    /// A store over the key file text read, or `None` where there is no file.
    pub fn new(stored: Option<String>) -> (r: Self)
        ensures
            r.file() == match stored {
                Some(s) => Some(s@),
                None => None::<Seq<char>>,
            },
    {
        KeyStore { stored }
    }

    /// Whether a key file exists; it says nothing of its content.
    pub fn has_key(&self) -> (r: bool)
        ensures
            r == self.file() is Some,
    {
        self.stored.is_some()
    }

    /// The key file text to write, if any.
    pub fn stored(&self) -> (r: Option<&str>)
        ensures
            match self.file() {
                Some(t) => r matches Some(s) && s@ == t,
                None => r is None,
            },
    {
        match &self.stored {
            Some(s) => Some(s.as_str()),
            None => None,
        }
    }

    /// Draws a fresh random 32-byte master key and seals it under `pwd` with a
    /// fresh salt and nonce, replacing any key file text held before.
    pub fn set_key(&mut self, pwd: &[u8]) -> (r: TecResult<()>)
        ensures
            r is Ok <==> pwd@.len() <= MAX_PWD_LEN,
            r is Ok ==> exists|salt: Seq<u8>, nonce: Seq<u8>, key: Seq<u8>|
                salt.len() == SALT_LEN && nonce.len() == NONCE_LEN && key.len() == KEY_LEN
                    && final(self).file() == Some(#[trigger] key_frame(pwd@, salt, nonce, key)),
            r is Ok ==> (final(self).file() matches Some(t) && t.len() == 2 * (SALT_LEN + NONCE_LEN + KEY_LEN + TAG_LEN)),
            r is Err ==> final(self).file() == old(self).file(),
    {
        let key = os_random_bytes(KEY_LEN);
        let cipher = Argon2Cipher::new(pwd);
        let enc = cipher.encrypt(key.as_slice())?;
        self.stored = Some(enc);
        Ok(())
    }

    /// The master key that the key file holds under `pwd`. A wrong
    /// passphrase, a damaged file and a missing one fail alike, with
    /// `PasswordNotMatch`; the key that
    /// [`KeyStore::set_key`] sealed under `pwd` comes back.
    pub fn get_key(&self, pwd: &[u8]) -> (r: TecResult<Vec<u8>>)
        ensures
            match self.file() {
                None => r is Err,
                Some(t) => match open_key_frame(pwd@, t) {
                    Some(k) => r matches Ok(v) && v@ == k,
                    None => r is Err,
                },
            },
            forall|salt: Seq<u8>, nonce: Seq<u8>, key: Seq<u8>|
                salt.len() == SALT_LEN && nonce.len() == NONCE_LEN && key.len() == KEY_LEN
                    && pwd@.len() <= MAX_PWD_LEN
                    && self.file() == Some(#[trigger] key_frame(pwd@, salt, nonce, key))
                    ==> (r is Ok && r->Ok_0@ == key),
            r is Err ==> (r matches Err(TecError::PasswordNotMatch)),
    {
        match &self.stored {
            None => Err(TecError::PasswordNotMatch),
            Some(text) => {
                let cipher = Argon2Cipher::new(pwd);
                let res = cipher.decrypt(text.as_str());
                assert forall|salt: Seq<u8>, nonce: Seq<u8>, key: Seq<u8>|
                    salt.len() == SALT_LEN && nonce.len() == NONCE_LEN && key.len() == KEY_LEN
                        && pwd@.len() <= MAX_PWD_LEN
                        && self.file() == Some(#[trigger] key_frame(pwd@, salt, nonce, key))
                        implies (res is Ok && res->Ok_0@ == key) by {
                    assert(key.len() <= P_MAX);
                    assert(text@ == key_frame(cipher.passphrase(), salt, nonce, key));
                }
                match res {
                    Ok(k) => Ok(k),
                    Err(_) => Err(TecError::PasswordNotMatch),
                }
            },
        }
    }
}

} // verus!
