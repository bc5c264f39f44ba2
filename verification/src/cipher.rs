//! The streaming cipher engine.
//!
//! The engine XORs data with the ChaCha20 keystream of a key and nonce. The
//! keystream byte at a position is a function of key, nonce and position
//! alone, so the transform can be applied chunk by chunk, at any chunk sizes,
//! and applying it twice at the same position returns the original bytes.

use vstd::prelude::*;
use chacha20::cipher::{NewCipher, StreamCipher, StreamCipherSeek};

verus! {

/// Bytes in a ChaCha20 key.
pub const KEY_LEN: usize = 32;

/// Bytes in a ChaCha20 nonce.
pub const NONCE_LEN: usize = 12;

/// One more than the last usable keystream position: ChaCha20 with a 32-bit
/// block counter and 64-byte blocks offers 2^38 keystream bytes per
/// key-and-nonce pair.
pub const KEYSTREAM_END: u64 = 0x40_0000_0000;

/// The byte of the ChaCha20 keystream for `key` and `nonce` at stream
/// position `i`. What is known of it comes only from the contract of
/// `chacha20_xor` below.
pub uninterp spec fn keystream_byte(key: Seq<u8>, nonce: Seq<u8>, i: int) -> u8;

/// `data` XORed byte for byte with the keystream of `key` and `nonce`
/// starting at stream position `pos`.
pub open spec fn transform(key: Seq<u8>, nonce: Seq<u8>, pos: int, data: Seq<u8>) -> Seq<u8> {
    Seq::new(data.len(), |i: int| data[i] ^ keystream_byte(key, nonce, pos + i))
}

/// Relies on `chacha20::ChaCha20` (`NewCipher::new`, `StreamCipherSeek::seek`
/// and `StreamCipher::apply_keystream`): the ChaCha20 keystream is a
/// deterministic function of key, nonce and byte position alone, and
/// `apply_keystream` XORs it into the buffer in place. The position bound
/// keeps the 32-bit block counter in range, so neither `seek` nor
/// `apply_keystream` panics; `from_slice` is given exactly the lengths the
/// cipher demands.
#[verifier::external_body]
fn chacha20_xor(key: &Vec<u8>, nonce: &Vec<u8>, pos: u64, data: &mut Vec<u8>)
    requires
        key@.len() == KEY_LEN,
        nonce@.len() == NONCE_LEN,
        pos + old(data)@.len() < KEYSTREAM_END,
    ensures
        final(data)@ == transform(key@, nonce@, pos as int, old(data)@),
        final(data)@.len() == old(data)@.len(),
        forall|i: int|
            0 <= i < old(data)@.len()
                ==> final(data)@[i] == old(data)@[i] ^ keystream_byte(key@, nonce@, pos + i),
{
    let mut cipher = chacha20::ChaCha20::new(
        chacha20::Key::from_slice(key.as_slice()),
        chacha20::Nonce::from_slice(nonce.as_slice()),
    );
    cipher.seek(pos);
    cipher.apply_keystream(data.as_mut_slice());
}

/// The running state of one cipher stream: the key and nonce of the run and
/// the number of keystream bytes already consumed. The position only ever
/// advances; it is never rewound.
pub struct CipherStream {
    key: Vec<u8>,
    nonce: Vec<u8>,
    pos: u64,
}

impl CipherStream {
    /// The key the stream was created with.
    pub closed spec fn skey(self) -> Seq<u8> {
        self.key@
    }

    /// The nonce the stream was created with.
    pub closed spec fn snonce(self) -> Seq<u8> {
        self.nonce@
    }

    /// The stream position: how many keystream bytes were consumed so far.
    pub closed spec fn spos(self) -> int {
        self.pos as int
    }

    /// Key and nonce have the cipher's sizes and the position is in the
    /// keystream's range.
    pub open spec fn wf(self) -> bool {
        &&& self.skey().len() == KEY_LEN
        &&& self.snonce().len() == NONCE_LEN
        &&& 0 <= self.spos() < KEYSTREAM_END
    }

    /// A fresh stream for `key` and `nonce`, at position zero.
    pub fn new(key: Vec<u8>, nonce: Vec<u8>) -> (s: Self)
        requires
            key@.len() == KEY_LEN,
            nonce@.len() == NONCE_LEN,
        ensures
            s.wf(),
            s.skey() == key@,
            s.snonce() == nonce@,
            s.spos() == 0,
    {
        CipherStream { key, nonce, pos: 0 }
    }

    /// The stream position as a number of bytes.
    pub fn pos(&self) -> (p: u64)
        ensures
            p as int == self.spos(),
    {
        self.pos
    }

    /// Applies the keystream to the next chunk, in place: `data` becomes
    /// `data` XOR the keystream at the current position, and the position
    /// advances by the chunk's length. A short chunk touches only its own
    /// bytes; chunk boundaries leave no trace in the output.
    pub fn apply_keystream(&mut self, data: &mut Vec<u8>)
        requires
            old(self).wf(),
            old(self).spos() + old(data)@.len() < KEYSTREAM_END,
        ensures
            final(self).wf(),
            final(self).skey() == old(self).skey(),
            final(self).snonce() == old(self).snonce(),
            final(self).spos() == old(self).spos() + old(data)@.len(),
            final(data)@ == transform(old(self).skey(), old(self).snonce(), old(self).spos(), old(data)@),
    {
        chacha20_xor(&self.key, &self.nonce, self.pos, data);
        self.pos = self.pos + data.len() as u64;
    }
}

/// Transforms a whole buffer in one shot, starting at position `pos`.
pub fn transform_buffer(key: &Vec<u8>, nonce: &Vec<u8>, pos: u64, data: Vec<u8>) -> (out: Vec<u8>)
    requires
        key@.len() == KEY_LEN,
        nonce@.len() == NONCE_LEN,
        pos + data@.len() < KEYSTREAM_END,
    ensures
        out@ == transform(key@, nonce@, pos as int, data@),
{
    let mut out = data;
    chacha20_xor(key, nonce, pos, &mut out);
    out
}

/// Law: applying the transform twice with the same key, nonce and position
/// returns the original data, because XOR with the same keystream byte
/// cancels out.
pub proof fn lemma_transform_involution(key: Seq<u8>, nonce: Seq<u8>, pos: int, data: Seq<u8>)
    ensures
        transform(key, nonce, pos, transform(key, nonce, pos, data)) == data,
{
    let once = transform(key, nonce, pos, data);
    let twice = transform(key, nonce, pos, once);
    assert forall|i: int| 0 <= i < data.len() implies twice[i] == data[i] by {
        let d = data[i];
        let k = keystream_byte(key, nonce, pos + i);
        assert((d ^ k) ^ k == d) by (bit_vector);
    }
    assert(twice =~= data);
}

/// Law: the transform is a function of key, nonce, position and data alone;
/// equal inputs give equal outputs, on every run and on every machine.
pub proof fn lemma_transform_deterministic(
    key1: Seq<u8>,
    nonce1: Seq<u8>,
    pos1: int,
    data1: Seq<u8>,
    key2: Seq<u8>,
    nonce2: Seq<u8>,
    pos2: int,
    data2: Seq<u8>,
)
    requires
        key1 == key2,
        nonce1 == nonce2,
        pos1 == pos2,
        data1 == data2,
    ensures
        transform(key1, nonce1, pos1, data1) == transform(key2, nonce2, pos2, data2),
{
}

/// Law: transforming a concatenation equals transforming the parts in order,
/// the second part starting where the first ended.
pub proof fn lemma_transform_append(key: Seq<u8>, nonce: Seq<u8>, pos: int, a: Seq<u8>, b: Seq<u8>)
    ensures
        transform(key, nonce, pos, a + b)
            == transform(key, nonce, pos, a) + transform(key, nonce, pos + a.len(), b),
{
    let lhs = transform(key, nonce, pos, a + b);
    let rhs = transform(key, nonce, pos, a) + transform(key, nonce, pos + a.len(), b);
    assert forall|i: int| 0 <= i < lhs.len() implies lhs[i] == rhs[i] by {
        if i < a.len() {
            assert((a + b)[i] == a[i]);
        } else {
            assert((a + b)[i] == b[i - a.len()]);
        }
    }
    assert(lhs =~= rhs);
}

/// The output of the streaming engine fed `chunks` one after another from
/// position `pos`: each chunk transformed where the previous one ended.
pub open spec fn transform_chunked(key: Seq<u8>, nonce: Seq<u8>, pos: int, chunks: Seq<Seq<u8>>) -> Seq<u8>
    decreases chunks.len(),
{
    if chunks.len() == 0 {
        Seq::empty()
    } else {
        transform(key, nonce, pos, chunks.first())
            + transform_chunked(key, nonce, pos + chunks.first().len(), chunks.drop_first())
    }
}

/// Law: feeding a buffer to the streaming engine in chunks, at any chunk
/// sizes, yields the same bytes as transforming it in one shot.
pub proof fn lemma_chunked_eq_whole(key: Seq<u8>, nonce: Seq<u8>, pos: int, chunks: Seq<Seq<u8>>)
    ensures
        transform_chunked(key, nonce, pos, chunks) == transform(key, nonce, pos, chunks.flatten()),
    decreases chunks.len(),
{
    if chunks.len() == 0 {
        assert(chunks.flatten() =~= Seq::<u8>::empty());
        assert(transform(key, nonce, pos, chunks.flatten()) =~= Seq::<u8>::empty());
    } else {
        lemma_chunked_eq_whole(key, nonce, pos + chunks.first().len(), chunks.drop_first());
        lemma_transform_append(key, nonce, pos, chunks.first(), chunks.drop_first().flatten());
        assert(chunks.flatten() == chunks.first() + chunks.drop_first().flatten());
    }
}

} // verus!
