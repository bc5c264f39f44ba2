//! The pipeline driver.
//!
//! One run walks the states `AwaitingInput`, `ModeResolved`, `KeyLoaded`,
//! `OutputOpened`, `NonceResolved`, `Streaming` and ends in `Done`, or in
//! `Failed` at the first failure: nothing is retried and partially written
//! output stays on disk. The driver does no I/O itself: [`step`] maps the
//! current state and the outcome of the last I/O action to the next state
//! and the next action, and the caller performs each action — open, read,
//! create, write — handing back what happened as the next [`Event`].

use vstd::prelude::*;
use vstd::slice::slice_to_vec;
use crate::Error;
use crate::cipher::{CipherStream, KEY_LEN, NONCE_LEN, KEYSTREAM_END, transform};
use crate::key::key_from_bytes;
use crate::nonce::{generate_nonce, nonce_of};
use crate::path_name::{Direction, prepare_output_file_name, spec_output_name, is_encrypted_name};

verus! {

/// What the caller must do next. Paths and data are handed out with the
/// action; the caller answers with the matching [`Event`].
pub enum Action {
    /// Open the input file for reading and report its byte length.
    OpenInput { path: Vec<u8> },
    /// Read the key file: its byte length, and the bytes one read returns.
    ReadKey { path: Vec<u8> },
    /// Create or truncate the output file for writing.
    CreateOutput { path: Vec<u8> },
    /// Write these bytes at the very start of the output file.
    WriteNonce { nonce: Vec<u8> },
    /// Read the first 12 bytes of the input file.
    ReadNonce,
    /// Read the next chunk of the input file; an empty chunk means its end.
    ReadChunk,
    /// Append these bytes to the output file.
    WriteChunk { data: Vec<u8> },
    /// The run is complete; close both files.
    Finish,
    /// The run failed; surface the error to the caller.
    Fail { error: Error },
}

/// What the last action came to. The caller reports outcomes only; every
/// decision belongs to [`step`].
pub enum Event {
    /// The input file opened; `size` is its byte length.
    InputOpened { size: u64 },
    /// The input path names no file.
    InputMissing,
    /// The input file exists but could not be opened or inspected.
    InputUnreadable,
    /// The key file was read: its reported byte length, and the bytes one
    /// read returned.
    KeyFileRead { file_size: u64, data: Vec<u8> },
    /// The key path could not be opened.
    KeyFileMissing,
    /// The output file is ready for writing.
    OutputCreated,
    /// The output file could not be created.
    OutputFailed,
    /// The nonce was written in full.
    NonceWritten,
    /// Reading the nonce returned these bytes (fewer than 12 when the input
    /// ended early).
    NonceRead { data: Vec<u8> },
    /// Writing or reading the nonce failed outright.
    NonceFailed,
    /// Reading the input returned this chunk; empty at the input's end.
    ChunkRead { data: Vec<u8> },
    /// The last transformed chunk was written in full.
    ChunkWritten,
    /// Reading or writing failed while streaming.
    StreamFailed,
}

/// The state of one run.
pub enum State {
    /// Waiting for the input file to be opened.
    AwaitingInput { input_path: Vec<u8>, key_path: Vec<u8> },
    /// Direction and output path are fixed; waiting for the key file.
    ModeResolved { direction: Direction, output_path: Vec<u8> },
    /// The key passed validation; waiting for the output file.
    KeyLoaded { direction: Direction, key: Vec<u8> },
    /// The output file is open. Encrypting runs already carry the fresh
    /// nonce being written; decrypting runs await the stored one.
    OutputOpened { direction: Direction, key: Vec<u8>, nonce: Option<Vec<u8>> },
    /// Key and nonce are settled and no data byte is transformed yet.
    NonceResolved { cipher: CipherStream },
    /// Data is flowing through the cipher engine.
    Streaming { cipher: CipherStream },
    /// The run succeeded.
    Done,
    /// The run failed; terminal.
    Failed { error: Error },
}

/// Internal consistency of a state: sizes of key and nonce, an encrypting
/// run's nonce present exactly when the direction says so, and a cipher
/// stream that has produced nothing before streaming begins.
pub open spec fn state_wf(s: State) -> bool {
    match s {
        State::KeyLoaded { key, .. } => key@.len() == KEY_LEN,
        State::OutputOpened { direction, key, nonce } => {
            &&& key@.len() == KEY_LEN
            &&& match nonce {
                Some(n) => direction == Direction::Encrypt && n@.len() == NONCE_LEN,
                None => direction == Direction::Decrypt,
            }
        },
        State::NonceResolved { cipher } => cipher.wf() && cipher.spos() == 0,
        State::Streaming { cipher } => cipher.wf(),
        _ => true,
    }
}

/// Whether `e` is an outcome the state `s` can be waiting for. A chunk may
/// only be as long as the keystream still left.
pub open spec fn accepts(s: State, e: Event) -> bool {
    match (s, e) {
        (State::AwaitingInput { .. }, Event::InputOpened { .. }) => true,
        (State::AwaitingInput { .. }, Event::InputMissing) => true,
        (State::AwaitingInput { .. }, Event::InputUnreadable) => true,
        (State::ModeResolved { .. }, Event::KeyFileRead { .. }) => true,
        (State::ModeResolved { .. }, Event::KeyFileMissing) => true,
        (State::KeyLoaded { .. }, Event::OutputCreated) => true,
        (State::KeyLoaded { .. }, Event::OutputFailed) => true,
        (State::OutputOpened { nonce: Some(_), .. }, Event::NonceWritten) => true,
        (State::OutputOpened { nonce: None, .. }, Event::NonceRead { .. }) => true,
        (State::OutputOpened { .. }, Event::NonceFailed) => true,
        (State::NonceResolved { cipher }, Event::ChunkRead { data }) =>
            cipher.spos() + data@.len() < KEYSTREAM_END,
        (State::NonceResolved { .. }, Event::StreamFailed) => true,
        (State::Streaming { cipher }, Event::ChunkRead { data }) =>
            cipher.spos() + data@.len() < KEYSTREAM_END,
        (State::Streaming { .. }, Event::ChunkWritten) => true,
        (State::Streaming { .. }, Event::StreamFailed) => true,
        _ => false,
    }
}

/// Both halves of a failing transition: the terminal state and the action
/// that surfaces the same error.
pub open spec fn fails_with(s2: State, a: Action, e: Error) -> bool {
    &&& s2 matches State::Failed { error } && error == e
    &&& a matches Action::Fail { error } && error == e
}

/// The transition relation of the driver: what [`step`] promises of its next
/// state and action for each state and event.
pub open spec fn step_rel(s: State, e: Event, s2: State, a: Action) -> bool {
    match (s, e) {
        (State::AwaitingInput { input_path, key_path }, Event::InputOpened { .. }) => {
            &&& s2 matches State::ModeResolved { direction, output_path }
                && output_path@ == spec_output_name(input_path@)
                && direction == (if is_encrypted_name(input_path@) {
                    Direction::Decrypt
                } else {
                    Direction::Encrypt
                })
            &&& a matches Action::ReadKey { path } && path@ == key_path@
        },
        (State::AwaitingInput { .. }, Event::InputMissing) =>
            fails_with(s2, a, Error::InputNotFound),
        (State::AwaitingInput { .. }, Event::InputUnreadable) =>
            fails_with(s2, a, Error::InputUnreadable),
        (State::ModeResolved { direction, output_path }, Event::KeyFileRead { file_size, data }) => {
            if file_size == KEY_LEN && data@.len() >= KEY_LEN {
                &&& s2 matches State::KeyLoaded { direction: d2, key }
                    && d2 == direction
                    && key@ == data@.take(KEY_LEN as int)
                &&& a matches Action::CreateOutput { path } && path@ == output_path@
            } else if file_size != KEY_LEN {
                fails_with(s2, a, Error::KeyInvalid { expected: KEY_LEN as u64, actual: file_size })
            } else {
                fails_with(
                    s2,
                    a,
                    Error::KeyInvalid { expected: KEY_LEN as u64, actual: data@.len() as u64 },
                )
            }
        },
        (State::ModeResolved { .. }, Event::KeyFileMissing) =>
            fails_with(s2, a, Error::KeyMissing),
        (State::KeyLoaded { direction: Direction::Encrypt, key }, Event::OutputCreated) => {
            s2 matches State::OutputOpened { direction: d2, key: k2, nonce: Some(n) }
                && d2 == Direction::Encrypt
                && k2@ == key@
                && n@.len() == NONCE_LEN
                && (exists|t: u64, r: Seq<u8>| r.len() == 4 && n@ == #[trigger] nonce_of(t, r))
                && (a matches Action::WriteNonce { nonce } && nonce@ == n@)
        },
        (State::KeyLoaded { direction: Direction::Decrypt, key }, Event::OutputCreated) => {
            s2 matches State::OutputOpened { direction: d2, key: k2, nonce: None }
                && d2 == Direction::Decrypt
                && k2@ == key@
                && (a is ReadNonce)
        },
        (State::KeyLoaded { .. }, Event::OutputFailed) =>
            fails_with(s2, a, Error::OutputUnwritable),
        (State::OutputOpened { key, nonce: Some(n), .. }, Event::NonceWritten) => {
            s2 matches State::NonceResolved { cipher }
                && cipher.skey() == key@
                && cipher.snonce() == n@
                && cipher.spos() == 0
                && (a is ReadChunk)
        },
        (State::OutputOpened { key, nonce: None, .. }, Event::NonceRead { data }) => {
            if data@.len() == NONCE_LEN {
                s2 matches State::NonceResolved { cipher }
                    && cipher.skey() == key@
                    && cipher.snonce() == data@
                    && cipher.spos() == 0
                    && (a is ReadChunk)
            } else {
                fails_with(s2, a, Error::NonceIOError)
            }
        },
        (State::OutputOpened { .. }, Event::NonceFailed) =>
            fails_with(s2, a, Error::NonceIOError),
        (State::NonceResolved { cipher }, Event::ChunkRead { data }) =>
            streams_chunk(cipher, data@, s2, a),
        (State::NonceResolved { .. }, Event::StreamFailed) =>
            fails_with(s2, a, Error::StreamIOError),
        (State::Streaming { cipher }, Event::ChunkRead { data }) =>
            streams_chunk(cipher, data@, s2, a),
        (State::Streaming { cipher }, Event::ChunkWritten) => {
            s2 matches State::Streaming { cipher: c2 }
                && c2.skey() == cipher.skey()
                && c2.snonce() == cipher.snonce()
                && c2.spos() == cipher.spos()
                && (a is ReadChunk)
        },
        (State::Streaming { .. }, Event::StreamFailed) =>
            fails_with(s2, a, Error::StreamIOError),
        _ => false,
    }
}

/// One streaming transition: an empty chunk ends the run; any other chunk
/// comes back transformed at the stream's position, the position advanced by
/// its length.
pub open spec fn streams_chunk(cipher: CipherStream, data: Seq<u8>, s2: State, a: Action) -> bool {
    if data.len() == 0 {
        (s2 is Done) && (a is Finish)
    } else {
        s2 matches State::Streaming { cipher: c2 }
            && c2.skey() == cipher.skey()
            && c2.snonce() == cipher.snonce()
            && c2.spos() == cipher.spos() + data.len()
            && (a matches Action::WriteChunk { data: out }
                && out@ == transform(cipher.skey(), cipher.snonce(), cipher.spos(), data))
    }
}

/// The first state and action of a run: remember both paths and have the
/// caller open the input file.
pub fn start(input_path: Vec<u8>, key_path: Vec<u8>) -> (r: (State, Action))
    ensures
        state_wf(r.0),
        r.0 matches State::AwaitingInput { input_path: ip, key_path: kp }
            && ip@ == input_path@
            && kp@ == key_path@,
        r.1 matches Action::OpenInput { path } && path@ == input_path@,
{
    let path = slice_to_vec(input_path.as_slice());
    (State::AwaitingInput { input_path, key_path }, Action::OpenInput { path })
}

/// One transition of the driver: from the current state and the outcome of
/// the last action to the next state and the next action, as
/// [`step_rel`] states. The caller keeps the returned state opaque and obeys
/// the returned action.
pub fn step(s: State, e: Event) -> (r: (State, Action))
    requires
        state_wf(s),
        accepts(s, e),
    ensures
        state_wf(r.0),
        step_rel(s, e, r.0, r.1),
{
    match (s, e) {
        (State::AwaitingInput { input_path, key_path }, Event::InputOpened { .. }) => {
            let (output_path, direction) = prepare_output_file_name(&input_path);
            (
                State::ModeResolved { direction, output_path },
                Action::ReadKey { path: key_path },
            )
        },
        (State::AwaitingInput { .. }, Event::InputMissing) => (
            State::Failed { error: Error::InputNotFound },
            Action::Fail { error: Error::InputNotFound },
        ),
        (State::AwaitingInput { .. }, Event::InputUnreadable) => (
            State::Failed { error: Error::InputUnreadable },
            Action::Fail { error: Error::InputUnreadable },
        ),
        (State::ModeResolved { direction, output_path }, Event::KeyFileRead { file_size, data }) => {
            match key_from_bytes(file_size, &data) {
                Ok(key) => (
                    State::KeyLoaded { direction, key },
                    Action::CreateOutput { path: output_path },
                ),
                Err(error) => (State::Failed { error }, Action::Fail { error }),
            }
        },
        (State::ModeResolved { .. }, Event::KeyFileMissing) => (
            State::Failed { error: Error::KeyMissing },
            Action::Fail { error: Error::KeyMissing },
        ),
        (State::KeyLoaded { direction: Direction::Encrypt, key }, Event::OutputCreated) => {
            let nonce = generate_nonce();
            let to_write = slice_to_vec(nonce.as_slice());
            (
                State::OutputOpened {
                    direction: Direction::Encrypt,
                    key,
                    nonce: Some(nonce),
                },
                Action::WriteNonce { nonce: to_write },
            )
        },
        (State::KeyLoaded { direction: Direction::Decrypt, key }, Event::OutputCreated) => (
            State::OutputOpened { direction: Direction::Decrypt, key, nonce: None },
            Action::ReadNonce,
        ),
        (State::KeyLoaded { .. }, Event::OutputFailed) => (
            State::Failed { error: Error::OutputUnwritable },
            Action::Fail { error: Error::OutputUnwritable },
        ),
        (State::OutputOpened { key, nonce: Some(n), .. }, Event::NonceWritten) => (
            State::NonceResolved { cipher: CipherStream::new(key, n) },
            Action::ReadChunk,
        ),
        (State::OutputOpened { key, nonce: None, .. }, Event::NonceRead { data }) => {
            if data.len() == NONCE_LEN {
                (
                    State::NonceResolved { cipher: CipherStream::new(key, data) },
                    Action::ReadChunk,
                )
            } else {
                (
                    State::Failed { error: Error::NonceIOError },
                    Action::Fail { error: Error::NonceIOError },
                )
            }
        },
        (State::OutputOpened { .. }, Event::NonceFailed) => (
            State::Failed { error: Error::NonceIOError },
            Action::Fail { error: Error::NonceIOError },
        ),
        (State::NonceResolved { cipher }, Event::ChunkRead { data }) =>
            stream_chunk(cipher, data),
        (State::NonceResolved { .. }, Event::StreamFailed) => (
            State::Failed { error: Error::StreamIOError },
            Action::Fail { error: Error::StreamIOError },
        ),
        (State::Streaming { cipher }, Event::ChunkRead { data }) => stream_chunk(cipher, data),
        (State::Streaming { cipher }, Event::ChunkWritten) => (
            State::Streaming { cipher },
            Action::ReadChunk,
        ),
        (State::Streaming { .. }, Event::StreamFailed) => (
            State::Failed { error: Error::StreamIOError },
            Action::Fail { error: Error::StreamIOError },
        ),
        _ => vstd::pervasive::unreached(),
    }
}

/// Pushes one chunk through the cipher engine: an empty chunk ends the run,
/// any other comes back transformed for the caller to write.
fn stream_chunk(cipher: CipherStream, data: Vec<u8>) -> (r: (State, Action))
    requires
        cipher.wf(),
        cipher.spos() + data@.len() < KEYSTREAM_END,
    ensures
        state_wf(r.0),
        streams_chunk(cipher, data@, r.0, r.1),
{
    if data.len() == 0 {
        (State::Done, Action::Finish)
    } else {
        let mut c = cipher;
        let mut buf = data;
        c.apply_keystream(&mut buf);
        (State::Streaming { cipher: c }, Action::WriteChunk { data: buf })
    }
}

} // verus!
