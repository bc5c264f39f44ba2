//! The key loader.
//!
//! A key file holds exactly 32 raw bytes, no header and no metadata. The
//! loader decides from the file's reported size and the bytes a single read
//! returned whether the run has a valid key; it judges the key's size only,
//! never its quality.

use vstd::prelude::*;
use vstd::slice::{slice_subrange, slice_to_vec};
use crate::Error;
use crate::cipher::KEY_LEN;

verus! {

/// Accepts a key read from a key file: the file must be exactly 32 bytes
/// long and the read must have returned all 32; the key is those 32 bytes.
/// Any other size, of file or of read, is invalid, reported with the size
/// seen.
pub fn key_from_bytes(file_size: u64, data: &Vec<u8>) -> (r: Result<Vec<u8>, Error>)
    ensures
        file_size != KEY_LEN
            ==> (r matches Err(e)
                && e == (Error::KeyInvalid { expected: KEY_LEN as u64, actual: file_size })),
        file_size == KEY_LEN && data@.len() < KEY_LEN
            ==> (r matches Err(e)
                && e == (Error::KeyInvalid { expected: KEY_LEN as u64, actual: data@.len() as u64 })),
        file_size == KEY_LEN && data@.len() >= KEY_LEN
            ==> (r matches Ok(k) && k@ == data@.take(KEY_LEN as int)),
{
    if file_size != KEY_LEN as u64 {
        return Err(Error::KeyInvalid { expected: KEY_LEN as u64, actual: file_size });
    }
    if data.len() < KEY_LEN {
        return Err(Error::KeyInvalid { expected: KEY_LEN as u64, actual: data.len() as u64 });
    }
    let key = slice_to_vec(slice_subrange(data.as_slice(), 0, KEY_LEN));
    proof {
        assert(key@ =~= data@.take(KEY_LEN as int));
    }
    Ok(key)
}

} // verus!
