//! 32-bit words and the bytes they are stored in.
//!
//! Pixels, parameter blocks and model weights are all sequences of 32-bit words.  A
//! floating-point value is carried as the word that holds its bits.

use vstd::prelude::*;

verus! {

/// Byte `k` of a word, counted from the least significant.
pub open spec fn byte_of(word: u32, k: int) -> u8 {
    if k == 0 {
        (word % 0x100) as u8
    } else if k == 1 {
        (word / 0x100 % 0x100) as u8
    } else if k == 2 {
        (word / 0x1_0000 % 0x100) as u8
    } else {
        (word / 0x100_0000) as u8
    }
}

/// The word made of four bytes, the least significant first.
pub open spec fn word_of(b0: u8, b1: u8, b2: u8, b3: u8) -> u32 {
    (b0 + 0x100 * b1 + 0x1_0000 * b2 + 0x100_0000 * b3) as u32
}

/// The words whose little-endian bytes are `bytes`; bytes beyond the last full word are left
/// out.
pub open spec fn le_words(bytes: Seq<u8>) -> Seq<u32> {
    Seq::new(
        bytes.len() / 4,
        |i: int| word_of(bytes[4 * i], bytes[4 * i + 1], bytes[4 * i + 2], bytes[4 * i + 3]),
    )
}

/// The bytes of `words`, each word with its least significant byte first.
pub open spec fn le_bytes(words: Seq<u32>) -> Seq<u8> {
    Seq::new(4 * words.len(), |i: int| byte_of(words[i / 4], i % 4))
}

/// The bytes of `words`, each word with its most significant byte first.
pub open spec fn be_bytes(words: Seq<u32>) -> Seq<u8> {
    Seq::new(4 * words.len(), |i: int| byte_of(words[i / 4], 3 - i % 4))
}

/// A word is made of its bytes, and the bytes of a word made of four bytes are those four.
pub proof fn lemma_word_bytes(word: u32, b0: u8, b1: u8, b2: u8, b3: u8)
    ensures
        word_of(byte_of(word, 0), byte_of(word, 1), byte_of(word, 2), byte_of(word, 3)) == word,
        byte_of(word_of(b0, b1, b2, b3), 0) == b0,
        byte_of(word_of(b0, b1, b2, b3), 1) == b1,
        byte_of(word_of(b0, b1, b2, b3), 2) == b2,
        byte_of(word_of(b0, b1, b2, b3), 3) == b3,
{
    let low = word % 0x100;
    let rest1 = word / 0x100;
    let rest2 = word / 0x1_0000;
    let rest3 = word / 0x100_0000;
    assert(rest2 == rest1 / 0x100 && rest3 == rest2 / 0x100 && rest3 < 0x100);
    assert(word == low + 0x100 * (rest1 % 0x100) + 0x1_0000 * (rest2 % 0x100) + 0x100_0000
        * rest3);
    let w = word_of(b0, b1, b2, b3);
    assert(w == b0 + 0x100 * b1 + 0x1_0000 * b2 + 0x100_0000 * b3);
    assert(w / 0x100 == b1 + 0x100 * b2 + 0x1_0000 * b3);
    assert(w / 0x1_0000 == b2 + 0x100 * b3);
    assert(w / 0x100_0000 == b3);
    assert(w % 0x100 == b0);
    assert((w / 0x100) % 0x100 == b1);
    assert((w / 0x1_0000) % 0x100 == b2);
}

/// Words survive a trip through their little-endian bytes.
pub proof fn lemma_words_roundtrip(words: Seq<u32>)
    ensures
        le_words(le_bytes(words)) == words,
{
    let bytes = le_bytes(words);
    assert forall|i: int| 0 <= i < words.len() implies #[trigger] le_words(bytes)[i]
        == words[i] by {
        lemma_word_bytes(words[i], 0, 0, 0, 0);
        assert((4 * i) / 4 == i && (4 * i) % 4 == 0);
        assert((4 * i + 1) / 4 == i && (4 * i + 1) % 4 == 1);
        assert((4 * i + 2) / 4 == i && (4 * i + 2) % 4 == 2);
        assert((4 * i + 3) / 4 == i && (4 * i + 3) % 4 == 3);
    }
    assert(le_words(bytes) =~= words);
}

/// Whole words of bytes survive a trip through the words they make: camera pixels that are
/// packed into words are, on a little-endian machine, the same bytes again.
pub proof fn lemma_bytes_roundtrip(bytes: Seq<u8>)
    requires
        bytes.len() % 4 == 0,
    ensures
        le_bytes(le_words(bytes)) == bytes,
{
    let words = le_words(bytes);
    assert forall|i: int| 0 <= i < bytes.len() implies #[trigger] le_bytes(words)[i]
        == bytes[i] by {
        let j = i / 4;
        lemma_word_bytes(0, bytes[4 * j], bytes[4 * j + 1], bytes[4 * j + 2], bytes[4 * j + 3]);
        assert(i == 4 * j + i % 4);
    }
    assert(le_bytes(words) =~= bytes);
}

/// On either kind of machine different words have different bytes.
pub proof fn lemma_bytes_determine_words(left: Seq<u32>, right: Seq<u32>)
    requires
        le_bytes(left) == le_bytes(right) || be_bytes(left) == be_bytes(right),
    ensures
        left == right,
{
    if le_bytes(left) == le_bytes(right) {
        lemma_words_roundtrip(left);
        lemma_words_roundtrip(right);
    } else {
        assert(be_bytes(left).len() == be_bytes(right).len());
        assert forall|i: int| 0 <= i < left.len() implies left[i] == right[i] by {
            lemma_word_bytes(left[i], 0, 0, 0, 0);
            lemma_word_bytes(right[i], 0, 0, 0, 0);
            assert((4 * i) / 4 == i && (4 * i) % 4 == 0);
            assert((4 * i + 1) / 4 == i && (4 * i + 1) % 4 == 1);
            assert((4 * i + 2) / 4 == i && (4 * i + 2) % 4 == 2);
            assert((4 * i + 3) / 4 == i && (4 * i + 3) % 4 == 3);
            assert(be_bytes(left)[4 * i] == be_bytes(right)[4 * i]);
            assert(be_bytes(left)[4 * i + 1] == be_bytes(right)[4 * i + 1]);
            assert(be_bytes(left)[4 * i + 2] == be_bytes(right)[4 * i + 2]);
            assert(be_bytes(left)[4 * i + 3] == be_bytes(right)[4 * i + 3]);
        }
        assert(left =~= right);
    }
}

/// Packs little-endian bytes into words.  Applied to RGBA pixels, red is the low byte.
pub fn pack_words(bytes: &[u8]) -> (r: Vec<u32>)
    ensures
        r@ == le_words(bytes@),
{
    let len: usize = bytes.len();
    let count: usize = len / 4;
    let mut r: Vec<u32> = Vec::new();
    let mut i: usize = 0;
    while i < count
        invariant
            i <= count,
            len == bytes@.len(),
            count == len / 4,
            r@ == le_words(bytes@).take(i as int),
        decreases count - i,
    {
        let b0: u32 = bytes[4 * i] as u32;
        let b1: u32 = bytes[4 * i + 1] as u32;
        let b2: u32 = bytes[4 * i + 2] as u32;
        let b3: u32 = bytes[4 * i + 3] as u32;
        r.push(b0 + 0x100 * b1 + 0x1_0000 * b2 + 0x100_0000 * b3);
        i = i + 1;
        assert(r@ =~= le_words(bytes@).take(i as int));
    }
    assert(le_words(bytes@).take(count as int) =~= le_words(bytes@));
    r
}

/// Of four bytes the first counts least: red is the low byte of a pixel, alpha the high one.
/// And the other way: the first of a word's little-endian bytes is its remainder by 256, and
/// big-endian bytes are those four in reverse.
pub proof fn lemma_byte_order(bytes: Seq<u8>, words: Seq<u32>, i: int)
    ensures
        le_words(bytes).len() == bytes.len() / 4,
        0 <= i < bytes.len() / 4 ==> le_words(bytes)[i] == bytes[4 * i] + 256 * (bytes[4 * i + 1]
            + 256 * (bytes[4 * i + 2] + 256 * bytes[4 * i + 3])),
        le_bytes(words).len() == 4 * words.len(),
        be_bytes(words).len() == 4 * words.len(),
        0 <= i < words.len() ==> {
            &&& le_bytes(words)[4 * i] == words[i] % 256
            &&& le_bytes(words)[4 * i + 1] == words[i] / 256 % 256
            &&& le_bytes(words)[4 * i + 2] == words[i] / 65536 % 256
            &&& le_bytes(words)[4 * i + 3] == words[i] / 16777216
            &&& be_bytes(words)[4 * i] == le_bytes(words)[4 * i + 3]
            &&& be_bytes(words)[4 * i + 1] == le_bytes(words)[4 * i + 2]
            &&& be_bytes(words)[4 * i + 2] == le_bytes(words)[4 * i + 1]
            &&& be_bytes(words)[4 * i + 3] == le_bytes(words)[4 * i]
        },
{
    if 0 <= i < words.len() {
        assert((4 * i) / 4 == i && (4 * i) % 4 == 0);
        assert((4 * i + 1) / 4 == i && (4 * i + 1) % 4 == 1);
        assert((4 * i + 2) / 4 == i && (4 * i + 2) % 4 == 2);
        assert((4 * i + 3) / 4 == i && (4 * i + 3) % 4 == 3);
    }
}

/// A copy of words.
pub fn copy_words(words: &[u32]) -> (r: Vec<u32>)
    ensures
        r@ == words@,
{
    vstd::slice::slice_to_vec(words)
}

/// Views words as the bytes they are stored in, in the byte order of the machine.
///
/// Calls `bytemuck::cast_slice` from `u32` to `u8`.  Claimed of it: the slice that comes back
/// holds four bytes for each word, in order, each word stored either least or most
/// significant byte first, the same way for all of them.  Which of the two is a matter of the
/// machine and is left open.  The call cannot fail: bytes have the weakest alignment and a
/// word is a whole number of them.
#[verifier::external_body]
fn cast_words(words: &[u32]) -> (r: &[u8])
    ensures
        r@ == le_bytes(words@) || r@ == be_bytes(words@),
{
    bytemuck::cast_slice(words)
}

/// The bytes of a frame or a parameter block as they are written into a GPU buffer.
pub fn upload_bytes(words: &[u32]) -> (r: &[u8])
    ensures
        r@ == le_bytes(words@) || r@ == be_bytes(words@),
        r@.len() == 4 * words@.len(),
{
    cast_words(words)
}

} // verus!
