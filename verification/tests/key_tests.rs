use crypto_tool::Error;
use crypto_tool::key::key_from_bytes;

#[test]
fn key_file_of_31_bytes_is_invalid() {
    let data = vec![9u8; 31];
    let r = key_from_bytes(31, &data);
    assert_eq!(r, Err(Error::KeyInvalid { expected: 32, actual: 31 }));
}

#[test]
fn key_file_of_33_bytes_is_invalid() {
    let data = vec![9u8; 33];
    let r = key_from_bytes(33, &data);
    assert_eq!(r, Err(Error::KeyInvalid { expected: 32, actual: 33 }));
}

#[test]
fn key_file_of_32_bytes_is_accepted() {
    let data: Vec<u8> = (0u8..32u8).collect();
    let r = key_from_bytes(32, &data);
    assert_eq!(r, Ok(data));
}

#[test]
fn short_read_of_a_32_byte_file_is_invalid() {
    let data = vec![9u8; 10];
    let r = key_from_bytes(32, &data);
    assert_eq!(r, Err(Error::KeyInvalid { expected: 32, actual: 10 }));
}

#[test]
fn empty_key_file_is_invalid() {
    let data = Vec::new();
    let r = key_from_bytes(0, &data);
    assert_eq!(r, Err(Error::KeyInvalid { expected: 32, actual: 0 }));
}
