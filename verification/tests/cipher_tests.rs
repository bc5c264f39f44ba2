use crypto_tool::cipher::{CipherStream, transform_buffer};
use crypto_tool::nonce::{encrypt_with_nonce, encrypt_buffer, decrypt_buffer, read_nonce};
use chacha20::cipher::{NewCipher, StreamCipher, StreamCipherSeek};

fn zero_key() -> Vec<u8> {
    vec![0u8; 32]
}

fn zero_nonce() -> Vec<u8> {
    vec![0u8; 12]
}

fn sample_key() -> Vec<u8> {
    (0u8..32u8).collect()
}

fn sample_nonce() -> Vec<u8> {
    (100u8..112u8).collect()
}

/// The first 64 keystream bytes of ChaCha20 for the all-zero key and
/// all-zero nonce, at block counter zero (the well-known test vector).
const KEYSTREAM_ZERO: [u8; 64] = [
    0x76, 0xb8, 0xe0, 0xad, 0xa0, 0xf1, 0x3d, 0x90, 0x40, 0x5d, 0x6a, 0xe5, 0x53, 0x86, 0xbd,
    0x28, 0xbd, 0xd2, 0x19, 0xb8, 0xa0, 0x8d, 0xed, 0x1a, 0xa8, 0x36, 0xef, 0xcc, 0x8b, 0x77,
    0x0d, 0xc7, 0xda, 0x41, 0x59, 0x7c, 0x51, 0x57, 0x48, 0x8d, 0x77, 0x24, 0xe0, 0x3f, 0xb8,
    0xd8, 0x4a, 0x37, 0x6a, 0x43, 0xb8, 0xf4, 0x15, 0x18, 0xa1, 0x1c, 0xc3, 0x87, 0xb6, 0x69,
    0xb2, 0xee, 0x65, 0x86,
];

#[test]
fn keystream_matches_known_vector() {
    // Transforming zeros yields the raw keystream.
    let out = transform_buffer(&zero_key(), &zero_nonce(), 0, vec![0u8; 64]);
    assert_eq!(out, KEYSTREAM_ZERO.to_vec());
}

#[test]
fn transform_at_position_matches_direct_cipher_use() {
    let key = sample_key();
    let nonce = sample_nonce();
    let data: Vec<u8> = (0u8..200u8).collect();

    let out = transform_buffer(&key, &nonce, 77, data.clone());

    let mut cipher = chacha20::ChaCha20::new(
        chacha20::Key::from_slice(&key),
        chacha20::Nonce::from_slice(&nonce),
    );
    cipher.seek(77u64);
    let mut expected = data;
    cipher.apply_keystream(&mut expected);
    assert_eq!(out, expected);
}

#[test]
fn round_trip_with_fixed_nonce() {
    let key = sample_key();
    let nonce = sample_nonce();
    let plain: Vec<u8> = b"attack at dawn, bring 32 bytes".to_vec();
    let file = encrypt_with_nonce(&key, &nonce, plain.clone());
    let back = decrypt_buffer(&key, file).unwrap();
    assert_eq!(back, plain);
}

#[test]
fn round_trip_with_fresh_nonce() {
    let key = sample_key();
    let plain: Vec<u8> = (0u8..=255u8).cycle().take(1000).collect();
    let file = encrypt_buffer(&key, plain.clone());
    assert_eq!(file.len(), 12 + plain.len());
    let back = decrypt_buffer(&key, file).unwrap();
    assert_eq!(back, plain);
}

#[test]
fn nonce_is_the_output_prefix() {
    let key = sample_key();
    let nonce = sample_nonce();
    let plain: Vec<u8> = b"prefix check".to_vec();
    let file = encrypt_with_nonce(&key, &nonce, plain);
    assert_eq!(&file[..12], nonce.as_slice());
    let read_back = read_nonce(&file).unwrap();
    assert_eq!(read_back, nonce);
}

#[test]
fn empty_plaintext_gives_nonce_only() {
    let key = sample_key();
    let file = encrypt_buffer(&key, Vec::new());
    assert_eq!(file.len(), 12);
    let back = decrypt_buffer(&key, file).unwrap();
    assert_eq!(back, Vec::<u8>::new());
}

#[test]
fn chunked_equals_whole_buffer() {
    let key = sample_key();
    let nonce = sample_nonce();
    let data: Vec<u8> = (0u8..=255u8).cycle().take(517).collect();

    let whole = transform_buffer(&key, &nonce, 0, data.clone());

    for chunk_size in [1usize, 3, 7, 13, 64, 100, 517, 1000] {
        let mut stream = CipherStream::new(key.clone(), nonce.clone());
        let mut out: Vec<u8> = Vec::new();
        let mut rest = data.as_slice();
        while !rest.is_empty() {
            let n = chunk_size.min(rest.len());
            let mut chunk = rest[..n].to_vec();
            stream.apply_keystream(&mut chunk);
            out.extend_from_slice(&chunk);
            rest = &rest[n..];
        }
        assert_eq!(out, whole, "chunk size {} diverged", chunk_size);
    }
}

#[test]
fn short_final_chunk_touches_only_its_bytes() {
    let key = sample_key();
    let nonce = sample_nonce();
    let mut stream = CipherStream::new(key.clone(), nonce.clone());
    let mut first = vec![0u8; 64];
    stream.apply_keystream(&mut first);
    // A 5-byte chunk consumes exactly 5 keystream bytes.
    let mut short = vec![0u8; 5];
    stream.apply_keystream(&mut short);
    assert_eq!(stream.pos(), 69);
    let expected = transform_buffer(&key, &nonce, 64, vec![0u8; 5]);
    assert_eq!(short, expected);
}

#[test]
fn transform_is_deterministic() {
    let key = sample_key();
    let nonce = sample_nonce();
    let data: Vec<u8> = b"same in, same out".to_vec();
    let a = transform_buffer(&key, &nonce, 42, data.clone());
    let b = transform_buffer(&key, &nonce, 42, data);
    assert_eq!(a, b);
}
