//! The library's error type.
use vstd::prelude::*;

use crate::hex::HexError;

verus! {

#[verifier::external_type_specification]
#[verifier::external_body]
pub struct ExInvalidLength(crypto_common::InvalidLength);

#[verifier::external_type_specification]
#[verifier::external_body]
pub struct ExArgon2Error(argon2::Error);

#[verifier::external_type_specification]
#[verifier::external_body]
pub struct ExAeadError(aes_gcm_siv::aead::Error);

#[verifier::external_type_specification]
#[verifier::external_body]
pub struct ExSqliteError(rusqlite::Error);

#[verifier::external_type_specification]
#[verifier::external_body]
pub struct ExFromUtf8Error(std::string::FromUtf8Error);

/// What can go wrong in the vault.
#[derive(Debug)]
pub enum TecError {
    /// A key of a length other than 32 bytes.
    InvalidLength(crypto_common::InvalidLength),
    /// Encryption refused the input, or decryption failed to authenticate.
    AESError(aes_gcm_siv::aead::Error),
    /// The passphrase could not be hashed.
    Argon2Error(argon2::Error),
    /// A stored text is no hexadecimal.
    HexError(HexError),
    /// The storage engine failed.
    SqliteError(rusqlite::Error),
    /// Decrypted bytes are no UTF-8 text.
    FromUtf8Error(std::string::FromUtf8Error),
    /// A stored key is shorter than its frame, or an imported record lacks
    /// fields.
    InvalidInput,
    /// An imported time is no decimal numeral that fits.
    ParseIntError,
    /// The passphrase does not unlock the stored key, or there is no
    /// readable stored key.
    PasswordNotMatch,
}

/// The result type of the vault's fallible operations.
pub type TecResult<T> = Result<T, TecError>;

} // verus!
