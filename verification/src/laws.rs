//! Laws of memory access through the interface, stated over the model of
//! [`crate::model`]: the target memory is a function from addresses to bytes,
//! a word read answers the memory's bytes, and a word write stores its words
//! little-endian.
use vstd::prelude::*;
use crate::model::{
    aligned_end, aligned_start, block_address, block_covered, lemma_le_word_bytes, memory_bytes,
    merged_byte, overlay, read_bytes, stored_words, word_byte, word_count, write_words,
    half_byte, dword_byte, le_bytes_of_u16s, be_bytes_of_u16s, le_bytes_of_u32s, be_bytes_of_u32s,
    le_bytes_of_u64s, be_bytes_of_u64s, host_bytes_of_u16s, host_bytes_of_u32s, host_bytes_of_u64s,
    lemma_u16_views_len, lemma_u32_views_len, lemma_u64_views_len,
};
use crate::memory::bus_address;

verus! {

/// Facts about the aligned region of `[address, address + len)`.
proof fn lemma_region(address: int, len: int)
    requires
        0 <= address,
        0 < len,
    ensures
        aligned_start(address) % 4 == 0,
        aligned_start(address) <= address,
        address - aligned_start(address) < 4,
        address + len <= aligned_end(address, len),
        aligned_end(address, len) < address + len + 4,
        aligned_start(address) + 4 * word_count(address, len) == aligned_end(address, len),
        word_count(address, len) >= 1,
{
    let s = aligned_start(address);
    let e = aligned_end(address, len);
    assert(s % 4 == 0 && s <= address && address - s < 4) by (nonlinear_arith)
        requires s == address - address % 4, address >= 0;
    assert(address + len <= e && e < address + len + 4 && e % 4 == 0) by (nonlinear_arith)
        requires e == ((address + len + 3) / 4) * 4, address >= 0, len > 0;
    assert(s + 4 * ((e - s) / 4) == e) by (nonlinear_arith)
        requires s % 4 == 0, e % 4 == 0, s <= e;
}

/// Offset `k` of the aligned region lies in word `k / 4` at byte `k % 4`.
proof fn lemma_split_offset(k: int)
    requires
        0 <= k,
    ensures
        k == 4 * (k / 4) + k % 4,
        0 <= k % 4 < 4,
        0 <= k / 4,
{
    assert(k == 4 * (k / 4) + k % 4 && 0 <= k % 4 < 4 && 0 <= k / 4) by (nonlinear_arith)
        requires 0 <= k;
}

/// Only the first and the last word of the aligned region of a write can be
/// partly outside the bytes written, so a write reads at most two words.
pub proof fn law_only_edge_words_are_read(address: int, len: int, i: int)
    requires
        0 <= address,
        0 < len,
        0 < i < word_count(address, len) - 1,
    ensures
        block_covered(address, len, i),
{
    lemma_region(address, len);
}

/// A write changes the target memory at the written bytes and nowhere else:
/// if each word that the write reads answers the memory's bytes, storing the
/// words that the write sends leaves the memory equal to the old one with the
/// written bytes laid over it.
pub proof fn law_write_changes_only_written_bytes(
    mem: spec_fn(int) -> u8,
    address: int,
    data: Seq<u8>,
    fetched: Seq<Seq<u8>>,
)
    requires
        0 <= address,
        0 < data.len(),
        fetched.len() == word_count(address, data.len() as int),
        forall|i: int|
            0 <= i < fetched.len() && !block_covered(address, data.len() as int, i)
                ==> #[trigger] fetched[i] == memory_bytes(mem, block_address(address, i), 4),
    ensures
        stored_words(mem, aligned_start(address), write_words(address, data, fetched))
            =~= overlay(mem, address, data),
{
    let len = data.len() as int;
    let s = aligned_start(address);
    let words = write_words(address, data, fetched);
    lemma_region(address, len);
    assert forall|x: int| #[trigger] stored_words(mem, s, words)(x) == overlay(mem, address, data)(x) by {
        if s <= x < s + 4 * words.len() {
            let k = x - s;
            lemma_split_offset(k);
            let i = k / 4;
            let j = k % 4;
            lemma_le_word_bytes(
                merged_byte(address, data, fetched, 4 * i),
                merged_byte(address, data, fetched, 4 * i + 1),
                merged_byte(address, data, fetched, 4 * i + 2),
                merged_byte(address, data, fetched, 4 * i + 3),
            );
            assert(word_byte(words[i], j) == merged_byte(address, data, fetched, k));
            if !(address <= x < address + len) {
                assert(!block_covered(address, len, i));
                assert(fetched[i] == memory_bytes(mem, block_address(address, i), 4));
                assert(block_address(address, i) + j == x);
            }
        }
    }
}

/// A read hands back the target memory's bytes: if the word read answers
/// the memory's bytes of the aligned region, the bytes handed back are those
/// of `[address, address + len)`.
pub proof fn law_read_returns_memory(mem: spec_fn(int) -> u8, address: int, len: int)
    requires
        0 <= address,
        0 < len,
    ensures
        read_bytes(address, len, memory_bytes(mem, aligned_start(address), (4 * word_count(address, len)) as nat))
            =~= memory_bytes(mem, address, len as nat),
{
    lemma_region(address, len);
}

/// A read of the bytes just written hands back those bytes.
pub proof fn law_read_after_write(
    mem: spec_fn(int) -> u8,
    address: int,
    data: Seq<u8>,
    fetched: Seq<Seq<u8>>,
)
    requires
        0 <= address,
        0 < data.len(),
        fetched.len() == word_count(address, data.len() as int),
        forall|i: int|
            0 <= i < fetched.len() && !block_covered(address, data.len() as int, i)
                ==> #[trigger] fetched[i] == memory_bytes(mem, block_address(address, i), 4),
    ensures
        ({
            let after = stored_words(mem, aligned_start(address), write_words(address, data, fetched));
            let len = data.len() as int;
            read_bytes(address, len, memory_bytes(after, aligned_start(address), (4 * word_count(address, len)) as nat))
                == data
        }),
{
    let len = data.len() as int;
    let after = stored_words(mem, aligned_start(address), write_words(address, data, fetched));
    law_write_changes_only_written_bytes(mem, address, data, fetched);
    law_read_returns_memory(after, address, len);
    assert(memory_bytes(after, address, len as nat) =~= data) by {
        assert forall|i: int| 0 <= i < len implies #[trigger] memory_bytes(after, address, len as nat)[i] == data[i] by {
            assert(after(address + i) == overlay(mem, address, data)(address + i));
        }
    }
}


/// The address a command carries is the full address reduced to the 32 bits
/// of the target's bus: an address below 2^32 is sent unchanged, and any
/// address is sent as the one below 2^32 that agrees with it in its low 32 bits.
pub proof fn law_bus_address_keeps_all_32_bits(a: int)
    requires
        0 <= a,
    ensures
        0 <= bus_address(a) < 0x1_0000_0000,
        (a - bus_address(a)) % 0x1_0000_0000 == 0,
        a < 0x1_0000_0000 ==> bus_address(a) == a,
{
    assert((a - a % 0x1_0000_0000) % 0x1_0000_0000 == 0) by (nonlinear_arith)
        requires 0 <= a;
}

/// Offset `k` of a view with `n`-byte elements lies in element `k / n` at byte `k % n`.
proof fn lemma_element_offset(i: int, j: int, n: int)
    requires
        0 <= i,
        0 <= j < n,
    ensures
        (n * i + j) / n == i,
        (n * i + j) % n == j,
{
    assert((n * i + j) / n == i && (n * i + j) % n == j) by (nonlinear_arith)
        requires 0 <= i, 0 <= j < n;
}

proof fn lemma_u16_bytes_determine(w: u16, v: u16)
    requires
        (w & 0xffu16) as u8 == (v & 0xffu16) as u8,
        ((w >> 8u16) & 0xffu16) as u8 == ((v >> 8u16) & 0xffu16) as u8,
    ensures
        w == v,
{
    assert(w == v) by (bit_vector)
        requires
            (w & 0xffu16) as u8 == (v & 0xffu16) as u8,
            ((w >> 8u16) & 0xffu16) as u8 == ((v >> 8u16) & 0xffu16) as u8;
}

proof fn lemma_u32_bytes_determine(w: u32, v: u32)
    requires
        forall|j: int| 0 <= j < 4 ==> #[trigger] word_byte(w, j) == word_byte(v, j),
    ensures
        w == v,
{
    assert(word_byte(w, 0) == word_byte(v, 0));
    assert(word_byte(w, 1) == word_byte(v, 1));
    assert(word_byte(w, 2) == word_byte(v, 2));
    assert(word_byte(w, 3) == word_byte(v, 3));
    assert(w == v) by (bit_vector)
        requires
            (w & 0xffu32) as u8 == (v & 0xffu32) as u8,
            ((w >> 8u32) & 0xffu32) as u8 == ((v >> 8u32) & 0xffu32) as u8,
            ((w >> 16u32) & 0xffu32) as u8 == ((v >> 16u32) & 0xffu32) as u8,
            ((w >> 24u32) & 0xffu32) as u8 == ((v >> 24u32) & 0xffu32) as u8;
}

proof fn lemma_u64_bytes_determine(w: u64, v: u64)
    requires
        forall|j: int| 0 <= j < 8 ==> #[trigger] dword_byte(w, j) == dword_byte(v, j),
    ensures
        w == v,
{
    assert(dword_byte(w, 0) == dword_byte(v, 0));
    assert(dword_byte(w, 1) == dword_byte(v, 1));
    assert(dword_byte(w, 2) == dword_byte(v, 2));
    assert(dword_byte(w, 3) == dword_byte(v, 3));
    assert(dword_byte(w, 4) == dword_byte(v, 4));
    assert(dword_byte(w, 5) == dword_byte(v, 5));
    assert(dword_byte(w, 6) == dword_byte(v, 6));
    assert(dword_byte(w, 7) == dword_byte(v, 7));
    assert(w == v) by (bit_vector)
        requires
            ((w >> 0u64) & 0xffu64) as u8 == ((v >> 0u64) & 0xffu64) as u8,
            ((w >> 8u64) & 0xffu64) as u8 == ((v >> 8u64) & 0xffu64) as u8,
            ((w >> 16u64) & 0xffu64) as u8 == ((v >> 16u64) & 0xffu64) as u8,
            ((w >> 24u64) & 0xffu64) as u8 == ((v >> 24u64) & 0xffu64) as u8,
            ((w >> 32u64) & 0xffu64) as u8 == ((v >> 32u64) & 0xffu64) as u8,
            ((w >> 40u64) & 0xffu64) as u8 == ((v >> 40u64) & 0xffu64) as u8,
            ((w >> 48u64) & 0xffu64) as u8 == ((v >> 48u64) & 0xffu64) as u8,
            ((w >> 56u64) & 0xffu64) as u8 == ((v >> 56u64) & 0xffu64) as u8;
}

/// Half-words are told apart by their bytes in the machine's byte order:
/// two sequences with the same host byte view are equal.
pub proof fn law_host_u16_view_is_injective(x: Seq<u16>, y: Seq<u16>)
    requires
        host_bytes_of_u16s(x) == host_bytes_of_u16s(y),
    ensures
        x == y,
{
    reveal(host_bytes_of_u16s);
    reveal(le_bytes_of_u16s);
    reveal(be_bytes_of_u16s);
    lemma_u16_views_len(x);
    lemma_u16_views_len(y);
    let bx = host_bytes_of_u16s(x);
    let by_ = host_bytes_of_u16s(y);
    assert(x.len() == y.len());
    assert forall|i: int| 0 <= i < x.len() implies #[trigger] x[i] == y[i] by {
        lemma_element_offset(i, 0, 2);
        lemma_element_offset(i, 1, 2);
        assert(bx[2 * i] == by_[2 * i]);
        assert(bx[2 * i + 1] == by_[2 * i + 1]);
        assert(half_byte(x[i], 0) == half_byte(y[i], 0));
        assert(half_byte(x[i], 1) == half_byte(y[i], 1));
        lemma_u16_bytes_determine(x[i], y[i]);
    }
    assert(x =~= y);
}

/// Words are told apart by their bytes in the machine's byte order: two
/// sequences with the same host byte view are equal.
pub proof fn law_host_u32_view_is_injective(x: Seq<u32>, y: Seq<u32>)
    requires
        host_bytes_of_u32s(x) == host_bytes_of_u32s(y),
    ensures
        x == y,
{
    reveal(host_bytes_of_u32s);
    reveal(le_bytes_of_u32s);
    reveal(be_bytes_of_u32s);
    lemma_u32_views_len(x);
    lemma_u32_views_len(y);
    let bx = host_bytes_of_u32s(x);
    let by_ = host_bytes_of_u32s(y);
    assert(x.len() == y.len());
    assert forall|i: int| 0 <= i < x.len() implies #[trigger] x[i] == y[i] by {
        assert forall|j: int| 0 <= j < 4 implies #[trigger] word_byte(x[i], j) == word_byte(y[i], j) by {
            lemma_element_offset(i, j, 4);
            lemma_element_offset(i, 3 - j, 4);
            assert(bx[4 * i + j] == by_[4 * i + j]);
            assert(bx[4 * i + (3 - j)] == by_[4 * i + (3 - j)]);
        }
        lemma_u32_bytes_determine(x[i], y[i]);
    }
    assert(x =~= y);
}

/// Double words are told apart by their bytes in the machine's byte order:
/// two sequences with the same host byte view are equal.
pub proof fn law_host_u64_view_is_injective(x: Seq<u64>, y: Seq<u64>)
    requires
        host_bytes_of_u64s(x) == host_bytes_of_u64s(y),
    ensures
        x == y,
{
    reveal(host_bytes_of_u64s);
    reveal(le_bytes_of_u64s);
    reveal(be_bytes_of_u64s);
    lemma_u64_views_len(x);
    lemma_u64_views_len(y);
    let bx = host_bytes_of_u64s(x);
    let by_ = host_bytes_of_u64s(y);
    assert(x.len() == y.len());
    assert forall|i: int| 0 <= i < x.len() implies #[trigger] x[i] == y[i] by {
        assert forall|j: int| 0 <= j < 8 implies #[trigger] dword_byte(x[i], j) == dword_byte(y[i], j) by {
            lemma_element_offset(i, j, 8);
            lemma_element_offset(i, 7 - j, 8);
            assert(bx[8 * i + j] == by_[8 * i + j]);
            assert(bx[8 * i + (7 - j)] == by_[8 * i + (7 - j)]);
        }
        lemma_u64_bytes_determine(x[i], y[i]);
    }
    assert(x =~= y);
}

/// Writing u16 elements and reading the same number of u16 elements back
/// from the same address gives the elements back, for every count: the
/// write stores their bytes in the machine's byte order (if each word it
/// reads answers the memory's bytes), and the read assembles the elements
/// from the bytes in that same order.
pub proof fn law_read_u16_after_write_u16(
    mem: spec_fn(int) -> u8,
    address: int,
    elements: Seq<u16>,
    fetched: Seq<Seq<u8>>,
    back: Seq<u16>,
)
    requires
        0 <= address,
        0 < elements.len(),
        fetched.len() == word_count(address, (2 * elements.len()) as int),
        forall|i: int|
            0 <= i < fetched.len() && !block_covered(address, (2 * elements.len()) as int, i)
                ==> #[trigger] fetched[i] == memory_bytes(mem, block_address(address, i), 4),
        ({
            let len = (2 * elements.len()) as int;
            let after = stored_words(mem, aligned_start(address), write_words(address, host_bytes_of_u16s(elements), fetched));
            host_bytes_of_u16s(back) == read_bytes(address, len, memory_bytes(after, aligned_start(address), (4 * word_count(address, len)) as nat))
        }),
    ensures
        back == elements,
{
    let data = host_bytes_of_u16s(elements);
    reveal(host_bytes_of_u16s);
    lemma_u16_views_len(elements);
    assert(data.len() == 2 * elements.len());
    law_read_after_write(mem, address, data, fetched);
    law_host_u16_view_is_injective(back, elements);
}

/// Writing u32 elements and reading the same number of u32 elements back
/// from the same address gives the elements back, for every count: the
/// write stores their bytes in the machine's byte order (if each word it
/// reads answers the memory's bytes), and the read assembles the elements
/// from the bytes in that same order.
pub proof fn law_read_u32_after_write_u32(
    mem: spec_fn(int) -> u8,
    address: int,
    elements: Seq<u32>,
    fetched: Seq<Seq<u8>>,
    back: Seq<u32>,
)
    requires
        0 <= address,
        0 < elements.len(),
        fetched.len() == word_count(address, (4 * elements.len()) as int),
        forall|i: int|
            0 <= i < fetched.len() && !block_covered(address, (4 * elements.len()) as int, i)
                ==> #[trigger] fetched[i] == memory_bytes(mem, block_address(address, i), 4),
        ({
            let len = (4 * elements.len()) as int;
            let after = stored_words(mem, aligned_start(address), write_words(address, host_bytes_of_u32s(elements), fetched));
            host_bytes_of_u32s(back) == read_bytes(address, len, memory_bytes(after, aligned_start(address), (4 * word_count(address, len)) as nat))
        }),
    ensures
        back == elements,
{
    let data = host_bytes_of_u32s(elements);
    reveal(host_bytes_of_u32s);
    lemma_u32_views_len(elements);
    assert(data.len() == 4 * elements.len());
    law_read_after_write(mem, address, data, fetched);
    law_host_u32_view_is_injective(back, elements);
}

/// Writing u64 elements and reading the same number of u64 elements back
/// from the same address gives the elements back, for every count: the
/// write stores their bytes in the machine's byte order (if each word it
/// reads answers the memory's bytes), and the read assembles the elements
/// from the bytes in that same order.
pub proof fn law_read_u64_after_write_u64(
    mem: spec_fn(int) -> u8,
    address: int,
    elements: Seq<u64>,
    fetched: Seq<Seq<u8>>,
    back: Seq<u64>,
)
    requires
        0 <= address,
        0 < elements.len(),
        fetched.len() == word_count(address, (8 * elements.len()) as int),
        forall|i: int|
            0 <= i < fetched.len() && !block_covered(address, (8 * elements.len()) as int, i)
                ==> #[trigger] fetched[i] == memory_bytes(mem, block_address(address, i), 4),
        ({
            let len = (8 * elements.len()) as int;
            let after = stored_words(mem, aligned_start(address), write_words(address, host_bytes_of_u64s(elements), fetched));
            host_bytes_of_u64s(back) == read_bytes(address, len, memory_bytes(after, aligned_start(address), (4 * word_count(address, len)) as nat))
        }),
    ensures
        back == elements,
{
    let data = host_bytes_of_u64s(elements);
    reveal(host_bytes_of_u64s);
    lemma_u64_views_len(elements);
    assert(data.len() == 8 * elements.len());
    law_read_after_write(mem, address, data, fetched);
    law_host_u64_view_is_injective(back, elements);
}

} // verus!
