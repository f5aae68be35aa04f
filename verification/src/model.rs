//! The mathematical model: word alignment, little-endian words, and the
//! target memory seen as a function from addresses to bytes.
use vstd::prelude::*;

verus! {

/// First address of the 4-byte word that holds `address`.
pub open spec fn aligned_start(address: int) -> int {
    address - address % 4
}

/// One past the last address of the last 4-byte word that the range
/// `[address, address + len)` touches (equal to `aligned_start` of
/// `address + len` rounded up).
pub open spec fn aligned_end(address: int, len: int) -> int {
    ((address + len + 3) / 4) * 4
}

/// Number of whole words in the aligned region of `[address, address + len)`.
pub open spec fn word_count(address: int, len: int) -> int {
    (aligned_end(address, len) - aligned_start(address)) / 4
}

/// Address of the `i`-th word of the aligned region.
pub open spec fn block_address(address: int, i: int) -> int {
    aligned_start(address) + 4 * i
}

/// Whether the `i`-th word of the aligned region lies wholly inside
/// `[address, address + len)`, so that it can be written without reading it.
pub open spec fn block_covered(address: int, len: int, i: int) -> bool {
    address <= block_address(address, i) && block_address(address, i) + 4 <= address + len
}

/// The 32-bit word whose little-endian bytes are `b0, b1, b2, b3`.
pub open spec fn le_word(b0: u8, b1: u8, b2: u8, b3: u8) -> u32 {
    (b0 as u32) | ((b1 as u32) << 8u32) | ((b2 as u32) << 16u32) | ((b3 as u32) << 24u32)
}

/// Byte `j` (0 = least significant) of the word `w`.
pub open spec fn word_byte(w: u32, j: int) -> u8 {
    if j == 0 {
        (w & 0xffu32) as u8
    } else if j == 1 {
        ((w >> 8u32) & 0xffu32) as u8
    } else if j == 2 {
        ((w >> 16u32) & 0xffu32) as u8
    } else {
        ((w >> 24u32) & 0xffu32) as u8
    }
}

/// The word made of the four bytes of `s` starting at `k`, little-endian.
pub open spec fn le_word_at(s: Seq<u8>, k: int) -> u32 {
    le_word(s[k], s[k + 1], s[k + 2], s[k + 3])
}

/// `len` bytes of memory starting at `start`.
pub open spec fn memory_bytes(mem: spec_fn(int) -> u8, start: int, len: nat) -> Seq<u8> {
    Seq::new(len, |i: int| mem(start + i))
}

/// The memory after the bytes `data` replaced those at `[address, address + data.len())`.
pub open spec fn overlay(mem: spec_fn(int) -> u8, address: int, data: Seq<u8>) -> spec_fn(int) -> u8 {
    |a: int| if address <= a < address + data.len() { data[a - address] } else { mem(a) }
}

/// The memory after the words `words` were stored from `start` on, each
/// little-endian, as the target stores them.
pub open spec fn stored_words(mem: spec_fn(int) -> u8, start: int, words: Seq<u32>) -> spec_fn(int) -> u8 {
    |a: int|
        if start <= a < start + 4 * words.len() {
            word_byte(words[(a - start) / 4], (a - start) % 4)
        } else {
            mem(a)
        }
}

/// The bytes of a write widened to whole words: the byte at offset `k` of the
/// aligned region comes from `data` where the region overlaps the write, and
/// from the word fetched for its block elsewhere.
pub open spec fn merged_byte(address: int, data: Seq<u8>, fetched: Seq<Seq<u8>>, k: int) -> u8 {
    let a = aligned_start(address) + k;
    if address <= a < address + data.len() {
        data[a - address]
    } else {
        fetched[k / 4][k % 4]
    }
}

/// The words that a write of `data` at `address` stores, given the words
/// `fetched` for each block of its aligned region.
pub open spec fn write_words(address: int, data: Seq<u8>, fetched: Seq<Seq<u8>>) -> Seq<u32> {
    Seq::new(
        word_count(address, data.len() as int) as nat,
        |i: int|
            le_word(
                merged_byte(address, data, fetched, 4 * i),
                merged_byte(address, data, fetched, 4 * i + 1),
                merged_byte(address, data, fetched, 4 * i + 2),
                merged_byte(address, data, fetched, 4 * i + 3),
            ),
    )
}

/// The bytes that a read of `len` bytes at `address` hands back, given the
/// bytes `region` of its aligned region.
pub open spec fn read_bytes(address: int, len: int, region: Seq<u8>) -> Seq<u8> {
    region.subrange(address - aligned_start(address), address - aligned_start(address) + len)
}

/// The bytes of `words`, each little-endian.
#[verifier::opaque]
pub open spec fn le_bytes_of_u32s(words: Seq<u32>) -> Seq<u8> {
    Seq::new(4 * words.len(), |k: int| word_byte(words[k / 4], k % 4))
}

/// The bytes of `words`, each big-endian.
#[verifier::opaque]
pub open spec fn be_bytes_of_u32s(words: Seq<u32>) -> Seq<u8> {
    Seq::new(4 * words.len(), |k: int| word_byte(words[k / 4], 3 - k % 4))
}

/// Byte `j` (0 = least significant) of the half-word `h`.
pub open spec fn half_byte(h: u16, j: int) -> u8 {
    if j == 0 {
        (h & 0xffu16) as u8
    } else {
        ((h >> 8u16) & 0xffu16) as u8
    }
}

/// The bytes of `halves`, each little-endian.
#[verifier::opaque]
pub open spec fn le_bytes_of_u16s(halves: Seq<u16>) -> Seq<u8> {
    Seq::new(2 * halves.len(), |k: int| half_byte(halves[k / 2], k % 2))
}

/// The bytes of `halves`, each big-endian.
#[verifier::opaque]
pub open spec fn be_bytes_of_u16s(halves: Seq<u16>) -> Seq<u8> {
    Seq::new(2 * halves.len(), |k: int| half_byte(halves[k / 2], 1 - k % 2))
}

/// Byte `j` (0 = least significant) of the double word `d`.
pub open spec fn dword_byte(d: u64, j: int) -> u8 {
    ((d >> ((8 * j) as u64)) & 0xffu64) as u8
}

/// The bytes of `dwords`, each little-endian.
#[verifier::opaque]
pub open spec fn le_bytes_of_u64s(dwords: Seq<u64>) -> Seq<u8> {
    Seq::new(8 * dwords.len(), |k: int| dword_byte(dwords[k / 8], k % 8))
}

/// The bytes of `dwords`, each big-endian.
#[verifier::opaque]
pub open spec fn be_bytes_of_u64s(dwords: Seq<u64>) -> Seq<u8> {
    Seq::new(8 * dwords.len(), |k: int| dword_byte(dwords[k / 8], 7 - k % 8))
}

/// The bytes of `halves` in the byte order of the machine that runs the code
/// (vstd's `endianness()`).
#[verifier::opaque]
pub open spec fn host_bytes_of_u16s(halves: Seq<u16>) -> Seq<u8> {
    match vstd::endian::endianness() {
        vstd::endian::Endian::Little => le_bytes_of_u16s(halves),
        vstd::endian::Endian::Big => be_bytes_of_u16s(halves),
    }
}

/// The bytes of `words` in the byte order of the machine that runs the code
/// (vstd's `endianness()`).
#[verifier::opaque]
pub open spec fn host_bytes_of_u32s(words: Seq<u32>) -> Seq<u8> {
    match vstd::endian::endianness() {
        vstd::endian::Endian::Little => le_bytes_of_u32s(words),
        vstd::endian::Endian::Big => be_bytes_of_u32s(words),
    }
}

/// The bytes of `dwords` in the byte order of the machine that runs the code
/// (vstd's `endianness()`).
#[verifier::opaque]
pub open spec fn host_bytes_of_u64s(dwords: Seq<u64>) -> Seq<u8> {
    match vstd::endian::endianness() {
        vstd::endian::Endian::Little => le_bytes_of_u64s(dwords),
        vstd::endian::Endian::Big => be_bytes_of_u64s(dwords),
    }
}

/// Reading the bytes back out of a little-endian word gives the bytes.
pub proof fn lemma_le_word_bytes(b0: u8, b1: u8, b2: u8, b3: u8)
    ensures
        word_byte(le_word(b0, b1, b2, b3), 0) == b0,
        word_byte(le_word(b0, b1, b2, b3), 1) == b1,
        word_byte(le_word(b0, b1, b2, b3), 2) == b2,
        word_byte(le_word(b0, b1, b2, b3), 3) == b3,
{
    let w = le_word(b0, b1, b2, b3);
    assert(w == (b0 as u32) | ((b1 as u32) << 8u32) | ((b2 as u32) << 16u32) | ((b3 as u32) << 24u32));
    assert((((b0 as u32) | ((b1 as u32) << 8u32) | ((b2 as u32) << 16u32) | ((b3 as u32) << 24u32)) & 0xffu32) as u8 == b0) by (bit_vector);
    assert(((((b0 as u32) | ((b1 as u32) << 8u32) | ((b2 as u32) << 16u32) | ((b3 as u32) << 24u32)) >> 8u32) & 0xffu32) as u8 == b1) by (bit_vector);
    assert(((((b0 as u32) | ((b1 as u32) << 8u32) | ((b2 as u32) << 16u32) | ((b3 as u32) << 24u32)) >> 16u32) & 0xffu32) as u8 == b2) by (bit_vector);
    assert(((((b0 as u32) | ((b1 as u32) << 8u32) | ((b2 as u32) << 16u32) | ((b3 as u32) << 24u32)) >> 24u32) & 0xffu32) as u8 == b3) by (bit_vector);
}


/// The byte views of `u16` elements have 2 bytes per element.
pub proof fn lemma_u16_views_len(s: Seq<u16>)
    ensures
        le_bytes_of_u16s(s).len() == 2 * s.len(),
        be_bytes_of_u16s(s).len() == 2 * s.len(),
{
    reveal(le_bytes_of_u16s);
    reveal(be_bytes_of_u16s);
}

/// The byte views of `u32` elements have 4 bytes per element.
pub proof fn lemma_u32_views_len(s: Seq<u32>)
    ensures
        le_bytes_of_u32s(s).len() == 4 * s.len(),
        be_bytes_of_u32s(s).len() == 4 * s.len(),
{
    reveal(le_bytes_of_u32s);
    reveal(be_bytes_of_u32s);
}

/// The byte views of `u64` elements have 8 bytes per element.
pub proof fn lemma_u64_views_len(s: Seq<u64>)
    ensures
        le_bytes_of_u64s(s).len() == 8 * s.len(),
        be_bytes_of_u64s(s).len() == 8 * s.len(),
{
    reveal(le_bytes_of_u64s);
    reveal(be_bytes_of_u64s);
}

} // verus!
