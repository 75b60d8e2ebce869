//! Interfaces for symmetric encryption with AES.

pub mod sealed;

use crate::errorcode::ErrorCode;
use vstd::prelude::*;

verus! {

/// Handles the completion of encryptions.
pub trait Client<'a> {
    /// An encryption completed.
    fn crypt_done(&'a self, source: Option<&'static mut [u8]>, dest: &'static mut [u8]);
}

/// The size of an AES block in bytes.
pub const AES_BLOCK_SIZE: usize = 16;

/// The size of an AES-128 key in bytes.
pub const AES128_KEY_SIZE: usize = 16;

/// The size of an AES-256 key in bytes.
pub const AES256_KEY_SIZE: usize = 32;

/// The size of an initialization vector in bytes.
pub const AES_IV_SIZE: usize = 16;

/// The size of a key, known from the type.
pub trait AESKeySize: sealed::Sealed {
    /// The size of the key in bytes.
    fn length() -> usize;
}

/// AES with 128 bit keys.
pub struct AES128;

impl sealed::Sealed for AES128 {

}

impl AESKeySize for AES128 {
    fn length() -> (r: usize)
        ensures
            r == AES128_KEY_SIZE,
    {
        AES128_KEY_SIZE
    }
}

/// AES with 256 bit keys.
pub struct AES256;

impl sealed::Sealed for AES256 {

}

impl AESKeySize for AES256 {
    fn length() -> (r: usize)
        ensures
            r == AES256_KEY_SIZE,
    {
        AES256_KEY_SIZE
    }
}

/// An AES engine.
pub trait AES<'a, K: AESKeySize> {
    /// Enables the engine.
    fn enable(&self);

    /// Disables the engine.
    fn disable(&self);

    /// Sets the client.
    fn set_client(&'a self, client: &'a dyn Client<'a>);

    /// Sets the key.
    fn set_key(&self, key: &[u8]) -> Result<(), ErrorCode>;

    /// Sets the initialization vector.
    fn set_iv(&self, iv: &[u8]) -> Result<(), ErrorCode>;

    /// Starts a new message.
    fn start_message(&self);

    /// Encrypts or decrypts `dest[start_index..stop_index]`; `None` when the
    /// operation started, else its outcome and the buffers back.
    fn crypt(
        &self,
        source: Option<&'static mut [u8]>,
        dest: &'static mut [u8],
        start_index: usize,
        stop_index: usize,
    ) -> Option<(Result<(), ErrorCode>, Option<&'static mut [u8]>, &'static mut [u8])>;
}

/// AES in counter mode.
pub trait AESCtr {
    /// Selects counter mode.
    fn set_mode_aesctr(&self, encrypting: bool) -> Result<(), ErrorCode>;
}

/// AES in cipher block chaining mode.
pub trait AESCBC {
    /// Selects cipher block chaining mode.
    fn set_mode_aescbc(&self, encrypting: bool) -> Result<(), ErrorCode>;
}

/// AES in electronic codebook mode.
pub trait AESECB {
    /// Selects electronic codebook mode.
    fn set_mode_aesecb(&self, encrypting: bool) -> Result<(), ErrorCode>;
}

/// Handles the completion of CCM operations.
pub trait CCMClient {
    /// An operation completed; whether the tag was valid.
    fn crypt_done(&self, buf: &'static mut [u8], res: Result<(), ErrorCode>, tag_is_valid: bool);
}

/// The length of a CCM nonce in bytes.
pub const CCM_NONCE_LENGTH: usize = 13;

/// AES in CCM mode.
pub trait AESCCM<'a, K: AESKeySize> {
    /// Sets the client.
    fn set_client(&'a self, client: &'a dyn CCMClient);

    /// Sets the key.
    fn set_key(&self, key: &[u8]) -> Result<(), ErrorCode>;

    /// Sets the nonce.
    fn set_nonce(&self, nonce: &[u8]) -> Result<(), ErrorCode>;

    /// Encrypts or decrypts the message in the buffer and computes or checks
    /// its tag; on failure the buffer is given back.
    fn crypt(
        &self,
        buf: &'static mut [u8],
        a_off: usize,
        m_off: usize,
        m_len: usize,
        mic_len: usize,
        confidential: bool,
        encrypting: bool,
    ) -> Result<(), (ErrorCode, &'static mut [u8])>;
}

/// Handles the completion of GCM operations.
pub trait GCMClient {
    /// An operation completed; whether the tag was valid.
    fn crypt_done(&self, buf: &'static mut [u8], res: Result<(), ErrorCode>, tag_is_valid: bool);
}

/// AES in GCM mode.
pub trait AESGCM<'a, K: AESKeySize> {
    /// Sets the client.
    fn set_client(&'a self, client: &'a dyn GCMClient);

    /// Sets the key.
    fn set_key(&self, key: &[u8]) -> Result<(), ErrorCode>;

    /// Sets the initialization vector.
    fn set_iv(&self, nonce: &[u8]) -> Result<(), ErrorCode>;

    /// Encrypts or decrypts the message in the buffer and computes or checks
    /// its tag; on failure the buffer is given back.
    fn crypt(
        &self,
        buf: &'static mut [u8],
        aad_offset: usize,
        message_offset: usize,
        message_len: usize,
        tag_len: usize,
        encrypting: bool,
    ) -> Result<(), (ErrorCode, &'static mut [u8])>;
}

} // verus!
