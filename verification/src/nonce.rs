//! The nonce protocol and the on-disk ciphertext framing.
//!
//! At encrypt time a fresh nonce is derived by hashing the wall-clock time at
//! nanosecond resolution together with four random bytes and keeping the
//! first 12 bytes of the SHA3-256 digest. The nonce is the first 12 raw bytes
//! of the output file, before any ciphertext; at decrypt time those 12 bytes
//! are read back and never fed to the cipher engine.

use vstd::prelude::*;
use vstd::slice::{slice_subrange, slice_to_vec};
use sha3::Digest;
use crate::Error;
use crate::cipher::{KEY_LEN, NONCE_LEN, KEYSTREAM_END, transform, transform_buffer,
    lemma_transform_involution};

verus! {

/// The SHA3-256 digest of `data`: a function of the input bytes alone. What
/// is known of it comes only from the contract of `sha3_256` below.
pub uninterp spec fn sha3_256_of(data: Seq<u8>) -> Seq<u8>;

/// Relies on `sha3::Sha3_256` (`Digest::digest`): the digest is a function of
/// the input bytes alone and is 32 bytes long.
#[verifier::external_body]
fn sha3_256(data: &Vec<u8>) -> (r: Vec<u8>)
    ensures
        r@ == sha3_256_of(data@),
        r@.len() == 32,
{
    sha3::Sha3_256::digest(data.as_slice()).to_vec()
}

/// Relies on `chrono::Utc::now` and `DateTime::timestamp_nanos_opt`: the
/// clock decides the result, so nothing is promised of it.
#[verifier::external_body]
fn now_timestamp_nanos() -> (t: Option<i64>) {
    chrono::Utc::now().timestamp_nanos_opt()
}

/// Relies on `rand::random`: four bytes from a cryptographically seeded
/// generator; nothing is promised of their values.
#[verifier::external_body]
fn random_bytes() -> (r: Vec<u8>)
    ensures
        r@.len() == 4,
{
    rand::random::<[u8; 4]>().to_vec()
}

/// Big-endian byte `k` (0 is the most significant) of a 64-bit value.
pub open spec fn be_byte(x: u64, k: int) -> u8 {
    ((x >> (((7 - k) * 8) as u64)) & 0xff) as u8
}

/// The eight big-endian bytes of a 64-bit value.
pub open spec fn be_bytes8(x: u64) -> Seq<u8> {
    Seq::new(8, |k: int| be_byte(x, k))
}

/// Appends the eight big-endian bytes of `x` to `out`.
fn push_be_bytes8(out: &mut Vec<u8>, x: u64)
    ensures
        final(out)@ == old(out)@ + be_bytes8(x),
{
    let ghost base = out@;
    let mut k: usize = 0;
    while k < 8
        invariant
            k <= 8,
            out@ == base + be_bytes8(x).take(k as int),
        decreases 8 - k,
    {
        let shift: u64 = 56 - 8 * (k as u64);
        assert(((x >> shift) & 0xff) < 256) by (bit_vector);
        let b: u8 = ((x >> shift) & 0xff) as u8;
        out.push(b);
        proof {
            assert(shift == ((7 - k as int) * 8) as u64);
            assert(b == be_byte(x, k as int));
            assert(out@ =~= base + be_bytes8(x).take(k as int + 1));
        }
        k = k + 1;
    }
    proof {
        assert(be_bytes8(x).take(8) =~= be_bytes8(x));
    }
}

/// The nonce derived from one run's entropy: the first 12 bytes of the
/// SHA3-256 digest of the timestamp's eight big-endian bytes followed by the
/// four random bytes.
pub open spec fn nonce_of(timestamp: u64, random: Seq<u8>) -> Seq<u8> {
    sha3_256_of(be_bytes8(timestamp) + random).take(NONCE_LEN as int)
}

/// Derives the nonce from a timestamp and four random bytes.
pub fn nonce_from_entropy(timestamp: u64, random: &Vec<u8>) -> (n: Vec<u8>)
    requires
        random@.len() == 4,
    ensures
        n@ == nonce_of(timestamp, random@),
        n@.len() == NONCE_LEN,
{
    let mut preimage: Vec<u8> = Vec::new();
    push_be_bytes8(&mut preimage, timestamp);
    let mut rnd = slice_to_vec(random.as_slice());
    preimage.append(&mut rnd);
    proof {
        assert(preimage@ =~= be_bytes8(timestamp) + random@);
    }
    let mut n = sha3_256(&preimage);
    n.truncate(NONCE_LEN);
    proof {
        assert(n@ =~= nonce_of(timestamp, random@));
    }
    n
}

/// Generates a fresh nonce: the current time at nanosecond resolution and
/// four random bytes, hashed, the digest's first 12 bytes kept. A clock out
/// of the timestamp's range counts as zero; uniqueness rests on the entropy
/// of clock and generator, not on a counter.
pub fn generate_nonce() -> (n: Vec<u8>)
    ensures
        n@.len() == NONCE_LEN,
        exists|t: u64, r: Seq<u8>| r.len() == 4 && n@ == #[trigger] nonce_of(t, r),
{
    let t: i64 = match now_timestamp_nanos() {
        Some(v) => v,
        None => 0,
    };
    let tu: u64 = #[verifier::truncate] (t as u64);
    let random = random_bytes();
    let n = nonce_from_entropy(tu, &random);
    proof {
        assert(random@.len() == 4 && n@ == nonce_of(tu, random@));
    }
    n
}

/// The on-disk ciphertext format: the nonce as the 12-byte prefix, then the
/// plaintext XORed with the keystream from position zero.
pub open spec fn encrypted_file(key: Seq<u8>, nonce: Seq<u8>, plain: Seq<u8>) -> Seq<u8>
    recommends
        nonce.len() == NONCE_LEN,
{
    nonce + transform(key, nonce, 0, plain)
}

/// Encrypts a whole plaintext buffer under a given nonce, producing the
/// on-disk format: nonce first, ciphertext after.
pub fn encrypt_with_nonce(key: &Vec<u8>, nonce: &Vec<u8>, plain: Vec<u8>) -> (out: Vec<u8>)
    requires
        key@.len() == KEY_LEN,
        nonce@.len() == NONCE_LEN,
        plain@.len() < KEYSTREAM_END,
    ensures
        out@ == encrypted_file(key@, nonce@, plain@),
        out@.len() == NONCE_LEN + plain@.len(),
        out@.subrange(0, NONCE_LEN as int) == nonce@,
        out@.skip(NONCE_LEN as int) == transform(key@, nonce@, 0, plain@),
{
    let mut out = slice_to_vec(nonce.as_slice());
    let mut body = transform_buffer(key, nonce, 0, plain);
    out.append(&mut body);
    proof {
        assert(out@ =~= encrypted_file(key@, nonce@, plain@));
        assert(out@.subrange(0, NONCE_LEN as int) =~= nonce@);
        assert(out@.skip(NONCE_LEN as int) =~= transform(key@, nonce@, 0, plain@));
    }
    out
}

/// Encrypts a whole plaintext buffer under a fresh nonce. The output's first
/// 12 bytes are that nonce; a zero-byte plaintext gives exactly 12 bytes.
pub fn encrypt_buffer(key: &Vec<u8>, plain: Vec<u8>) -> (out: Vec<u8>)
    requires
        key@.len() == KEY_LEN,
        plain@.len() < KEYSTREAM_END,
    ensures
        out@.len() == NONCE_LEN + plain@.len(),
        out@ == encrypted_file(key@, out@.subrange(0, NONCE_LEN as int), plain@),
{
    let nonce = generate_nonce();
    let out = encrypt_with_nonce(key, &nonce, plain);
    proof {
        assert(out@ == encrypted_file(key@, out@.subrange(0, NONCE_LEN as int), plain@));
    }
    out
}

/// Retrieves the nonce stored as a ciphertext file's first 12 bytes. A file
/// shorter than the nonce has no complete one and is rejected.
pub fn read_nonce(file: &Vec<u8>) -> (r: Result<Vec<u8>, Error>)
    ensures
        file@.len() >= NONCE_LEN
            ==> (r matches Ok(n) && n@ == file@.subrange(0, NONCE_LEN as int)),
        file@.len() < NONCE_LEN ==> (r matches Err(e) && e == Error::NonceIOError),
{
    if file.len() < NONCE_LEN {
        return Err(Error::NonceIOError);
    }
    Ok(slice_to_vec(slice_subrange(file.as_slice(), 0, NONCE_LEN)))
}

/// Decrypts a whole file in the on-disk format: the first 12 bytes are the
/// nonce, the rest is XORed with that nonce's keystream from position zero.
pub fn decrypt_buffer(key: &Vec<u8>, file: Vec<u8>) -> (r: Result<Vec<u8>, Error>)
    requires
        key@.len() == KEY_LEN,
        file@.len() < KEYSTREAM_END,
    ensures
        file@.len() >= NONCE_LEN
            ==> (r matches Ok(p)
                && p@ == transform(key@, file@.subrange(0, NONCE_LEN as int), 0, file@.skip(NONCE_LEN as int))),
        file@.len() < NONCE_LEN ==> (r matches Err(e) && e == Error::NonceIOError),
{
    let nonce = match read_nonce(&file) {
        Ok(n) => n,
        Err(e) => {
            return Err(e);
        },
    };
    let body = slice_to_vec(slice_subrange(file.as_slice(), NONCE_LEN, file.len()));
    proof {
        assert(body@ =~= file@.skip(NONCE_LEN as int));
    }
    Ok(transform_buffer(key, &nonce, 0, body))
}

/// Law: decrypting an encrypted file with the key that produced it, using
/// the nonce embedded as its 12-byte prefix, returns the plaintext; and the
/// nonce read back at decrypt time is exactly the nonce placed at encrypt
/// time.
pub proof fn lemma_round_trip(key: Seq<u8>, nonce: Seq<u8>, plain: Seq<u8>)
    requires
        nonce.len() == NONCE_LEN,
    ensures
        encrypted_file(key, nonce, plain).subrange(0, NONCE_LEN as int) == nonce,
        transform(
            key,
            encrypted_file(key, nonce, plain).subrange(0, NONCE_LEN as int),
            0,
            encrypted_file(key, nonce, plain).skip(NONCE_LEN as int),
        ) == plain,
{
    let file = encrypted_file(key, nonce, plain);
    assert(file.subrange(0, NONCE_LEN as int) =~= nonce);
    assert(file.skip(NONCE_LEN as int) =~= transform(key, nonce, 0, plain));
    lemma_transform_involution(key, nonce, 0, plain);
}

} // verus!
