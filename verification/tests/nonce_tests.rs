use crypto_tool::Error;
use crypto_tool::nonce::{generate_nonce, nonce_from_entropy, read_nonce};
use sha3::Digest;

#[test]
fn generated_nonce_is_twelve_bytes() {
    let n = generate_nonce();
    assert_eq!(n.len(), 12);
}

#[test]
fn two_generated_nonces_differ() {
    // Equal nonces would need a 96-bit coincidence.
    let a = generate_nonce();
    let b = generate_nonce();
    assert_ne!(a, b);
}

#[test]
fn nonce_is_the_digest_prefix_of_time_and_randomness() {
    let timestamp: u64 = 0x0102_0304_0506_0708;
    let random = vec![0xaau8, 0xbb, 0xcc, 0xdd];
    let n = nonce_from_entropy(timestamp, &random);

    let mut preimage: Vec<u8> = timestamp.to_be_bytes().to_vec();
    preimage.extend_from_slice(&random);
    let digest = sha3::Sha3_256::digest(&preimage);
    assert_eq!(n.as_slice(), &digest[..12]);
}

#[test]
fn nonce_derivation_is_deterministic() {
    let random = vec![1u8, 2, 3, 4];
    let a = nonce_from_entropy(77, &random);
    let b = nonce_from_entropy(77, &random);
    assert_eq!(a, b);
    assert_eq!(a.len(), 12);
}

#[test]
fn read_nonce_returns_the_prefix() {
    let file: Vec<u8> = (0u8..40u8).collect();
    let n = read_nonce(&file).unwrap();
    assert_eq!(n, (0u8..12u8).collect::<Vec<u8>>());
}

#[test]
fn read_nonce_rejects_a_short_file() {
    let file = vec![5u8; 11];
    assert_eq!(read_nonce(&file), Err(Error::NonceIOError));
}
