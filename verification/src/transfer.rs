//! Transfer buffers: the fill pattern and its word-wise validation.
//!
//! The sender fills a fixed-size buffer with a constant byte and writes it
//! repeatedly; a receiver with validation enabled re-reads each incoming
//! buffer as eight-byte words and demands that every word equal the fill
//! byte replicated eight times. The first mismatching word is reported with
//! its value, the diagnostic signal for cross-architecture byte-order
//! trouble.

use vstd::prelude::*;

use crate::errors::{ConfigError, SessionError};

verus! {

/// Every outgoing payload byte carries this value.
pub const FILL_BYTE: u8 = 0xaa;

/// The fill byte replicated across one eight-byte word.
pub const FILL_WORD: u64 = 0xaaaa_aaaa_aaaa_aaaa;

/// Validation walks the buffer in words of this many bytes.
pub const WORD_BYTES: usize = 8;

/// A transfer buffer size is valid when it is a positive multiple of the
/// word size, so that word-wise validation covers the whole buffer.
pub open spec fn valid_buff_size(n: usize) -> bool {
    n > 0 && n % WORD_BYTES == 0
}

/// Rejects a configured buffer size unless it is a positive multiple of
/// the word size. Runs before any session starts.
pub fn check_buff_size(n: usize) -> (r: Result<(), ConfigError>)
    ensures
        r is Ok <==> valid_buff_size(n),
        r is Err ==> r == Err::<(), ConfigError>(ConfigError::BuffSizeNotWordMultiple),
{
    if n > 0 && n % WORD_BYTES == 0 {
        Ok(())
    } else {
        Err(ConfigError::BuffSizeNotWordMultiple)
    }
}

/// What a sender's buffer of `n` bytes holds: the fill byte throughout.
pub open spec fn spec_fill(n: usize) -> Seq<u8> {
    Seq::new(n as nat, |i: int| FILL_BYTE)
}

/// A fresh transfer buffer of `n` bytes, wholly filled with the fill byte.
pub fn fill_buffer(n: usize) -> (buf: Vec<u8>)
    ensures
        buf@ == spec_fill(n),
        buf@.len() == n,
        forall|i: int| 0 <= i < n ==> buf@[i] == FILL_BYTE,
{
    let mut buf: Vec<u8> = Vec::new();
    while buf.len() < n
        invariant
            buf@.len() <= n,
            forall|i: int| 0 <= i < buf@.len() ==> buf@[i] == FILL_BYTE,
        decreases n - buf@.len(),
    {
        buf.push(FILL_BYTE);
    }
    proof {
        assert(buf@ =~= spec_fill(n));
    }
    buf
}

/// The word starting at byte offset `8 * w`, assembled least-significant
/// byte first (the native order on little-endian hosts).
pub open spec fn word_at(b: Seq<u8>, w: int) -> u64 {
    (b[8 * w] as u64) | ((b[8 * w + 1] as u64) << 8) | ((b[8 * w + 2] as u64) << 16) | ((b[8 * w
        + 3] as u64) << 24) | ((b[8 * w + 4] as u64) << 32) | ((b[8 * w + 5] as u64) << 40) | ((b[8
        * w + 6] as u64) << 48) | ((b[8 * w + 7] as u64) << 56)
}

/// How many whole words the buffer holds; trailing bytes beyond the last
/// whole word are outside validation's reach.
pub open spec fn word_count(b: Seq<u8>) -> int {
    b.len() as int / 8
}

/// Every whole word of the buffer equals the fill word.
pub open spec fn all_words_fill(b: Seq<u8>) -> bool {
    forall|w: int| 0 <= w < word_count(b) ==> word_at(b, w) == FILL_WORD
}

/// Reads the word at word index `w` out of the buffer, least-significant
/// byte first.
fn word_of(buf: &[u8], w: usize) -> (x: u64)
    requires
        8 * w + 8 <= buf@.len(),
    ensures
        x == word_at(buf@, w as int),
{
    proof {
        // The view's length fits in usize, so `8 * w` cannot overflow.
        vstd::slice::axiom_spec_len(buf);
    }
    let base = 8 * w;
    (buf[base] as u64) | ((buf[base + 1] as u64) << 8u64) | ((buf[base + 2] as u64) << 16u64) | ((
    buf[base + 3] as u64) << 24u64) | ((buf[base + 4] as u64) << 32u64) | ((buf[base + 5] as u64)
        << 40u64) | ((buf[base + 6] as u64) << 48u64) | ((buf[base + 7] as u64) << 56u64)
}

/// Checks every whole eight-byte word of a received buffer against the
/// fill word and reports the first mismatch with the value actually seen.
pub fn validate_buffer(buf: &[u8]) -> (r: Result<(), SessionError>)
    ensures
        r is Ok <==> all_words_fill(buf@),
        r is Err ==> ({
            &&& r matches Err(SessionError::Validation { word, word_index })
            &&& 0 <= word_index < word_count(buf@)
            &&& word == word_at(buf@, word_index as int)
            &&& word != FILL_WORD
            &&& forall|j: int| 0 <= j < word_index ==> word_at(buf@, j) == FILL_WORD
        }),
{
    let words = buf.len() / 8;
    let mut w: usize = 0;
    while w < words
        invariant
            words == word_count(buf@),
            w <= words,
            8 * words <= buf@.len(),
            forall|j: int| 0 <= j < w ==> word_at(buf@, j) == FILL_WORD,
        decreases words - w,
    {
        let x = word_of(buf, w);
        if x != FILL_WORD {
            return Err(SessionError::Validation { word: x, word_index: w });
        }
        w = w + 1;
    }
    Ok(())
}

/// Law: a buffer wholly filled with the fill byte passes word-wise
/// validation, whatever its size; so a sender's buffer, received intact by
/// a validating receiver, never raises a validation error.
pub proof fn lemma_fill_passes_validation(b: Seq<u8>)
    requires
        forall|i: int| 0 <= i < b.len() ==> b[i] == FILL_BYTE,
    ensures
        all_words_fill(b),
{
    assert forall|w: int| 0 <= w < word_count(b) implies word_at(b, w) == FILL_WORD by {
        assert(8 * w + 8 <= b.len());
        assert((0xaau64) | ((0xaau64) << 8) | ((0xaau64) << 16) | ((0xaau64) << 24) | ((0xaau64)
            << 32) | ((0xaau64) << 40) | ((0xaau64) << 48) | ((0xaau64) << 56)
            == 0xaaaa_aaaa_aaaa_aaaau64) by (bit_vector);
    }
}

/// Law: for every valid buffer size, a send/receive pair agree on the
/// payload. The buffer a sender fills passes the receiver's word-wise
/// validation whole, so with validation enabled at least one full buffer
/// moves without a validation error whenever the stream carries it intact.
pub proof fn lemma_send_receive_pair_agree(n: usize)
    requires
        valid_buff_size(n),
    ensures
        all_words_fill(spec_fill(n)),
{
    lemma_fill_passes_validation(spec_fill(n));
}

} // verus!
