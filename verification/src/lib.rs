//! A file encryption library built on the ChaCha20 stream cipher.
//!
//! A run reads an input file and a 32-byte key file and either encrypts or
//! decrypts, chosen by a filename-extension convention: a path ending in the
//! marker extension `c20` decrypts to the path without it, any other path
//! encrypts to the path with `.c20` appended. An encrypted file starts with a
//! fresh 12-byte nonce, followed by the plaintext XORed with the ChaCha20
//! keystream for the run's key and that nonce, from stream position zero.
//!
//! The crate holds the logic of such a run: the streaming cipher engine
//! ([`cipher`]), nonce generation and the on-disk framing ([`nonce`]), the
//! mode selector ([`path_name`]), the key loader ([`key`]), and the pipeline
//! driver as a state machine ([`pipeline`]) whose I/O actions a caller
//! performs. The caller owns every file handle; the library only computes.

use vstd::prelude::*;

pub mod cipher;
pub mod context_menu;
pub mod key;
pub mod nonce;
pub mod path_name;
pub mod pipeline;

verus! {

/// Why a run failed. Every failure is terminal for the run: nothing is
/// retried and partially written output is left in place.
#[derive(Clone, Copy, Debug, PartialEq, Eq, Structural)]
pub enum Error {
    /// The input path names no file.
    InputNotFound,
    /// The input file exists but cannot be opened or inspected.
    InputUnreadable,
    /// The key path names no file.
    KeyMissing,
    /// The key file does not hold exactly the expected number of bytes, or
    /// reading it returned fewer.
    KeyInvalid { expected: u64, actual: u64 },
    /// The output file cannot be created for writing.
    OutputUnwritable,
    /// Writing the fresh nonce, or reading the stored one, did not complete.
    NonceIOError,
    /// Reading or writing failed while the cipher engine was streaming.
    StreamIOError,
}

} // verus!
