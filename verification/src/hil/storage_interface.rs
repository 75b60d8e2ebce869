//! Interfaces for logs in persistent storage.

use crate::returncode::ReturnCode;
use vstd::prelude::*;

verus! {

/// A position in a log.
#[derive(Clone, Copy, PartialEq, Eq, Structural, Debug)]
pub enum StorageCookie {
    /// The beginning of the log.
    SeekBeginning,
    /// A position given by the log.
    Cookie(usize),
}

/// Reading a log.
pub trait LogRead<'a> {
    /// Sets the client of reads.
    fn set_read_client(&'a self, read_client: &'a dyn LogReadClient);

    /// Reads up to `length` bytes into the buffer; on failure the buffer
    /// may be given back.
    fn read(&self, buffer: &'static mut [u8], length: usize) -> Result<
        (),
        (ReturnCode, Option<&'static mut [u8]>),
    >;

    /// The position the next read starts at.
    fn current_read_cookie(&self) -> StorageCookie;

    /// Moves the read position.
    fn seek(&self, offset: StorageCookie) -> ReturnCode;

    /// The size of the log in bytes.
    fn get_size(&self) -> usize;
}

/// Handles the completion of reads.
pub trait LogReadClient {
    /// A read completed.
    fn read_done(&self, buffer: &'static mut [u8], length: usize, error: ReturnCode);

    /// A seek completed.
    fn seek_done(&self, error: ReturnCode);
}

/// Appending to a log.
pub trait LogWrite<'a> {
    /// Sets the client of appends.
    fn set_append_client(&'a self, append_client: &'a dyn LogWriteClient);

    /// Appends `length` bytes of the buffer; on failure the buffer may be
    /// given back.
    fn append(&self, buffer: &'static mut [u8], length: usize) -> Result<
        (),
        (ReturnCode, Option<&'static mut [u8]>),
    >;

    /// The position the next append goes to.
    fn current_append_cookie(&self) -> StorageCookie;

    /// Writes what was appended to storage.
    fn sync(&self) -> ReturnCode;

    /// Erases the log.
    fn erase(&self) -> ReturnCode;
}

/// Handles the completion of appends.
pub trait LogWriteClient {
    /// An append completed; records may have been lost.
    fn append_done(&self, buffer: &'static mut [u8], length: usize, records_lost: bool, error: ReturnCode);

    /// A sync completed.
    fn sync_done(&self, error: ReturnCode);

    /// An erase completed.
    fn erase_done(&self, error: ReturnCode);
}

} // verus!
