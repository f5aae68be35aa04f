//! Memory access through the SiFli UART debug protocol.
//!
//! The protocol moves whole 32-bit words only. A read of any byte range is
//! widened to the words that hold it, read with one command, and cut back to
//! the bytes asked for. A write is widened the same way: words that the new
//! bytes cover wholly are taken from them, each other word is first read,
//! patched with the new bytes it overlaps, and then all words are written
//! with one command.
//!
//! The serial link is driven by the caller. A [`ReadTransfer`] or
//! [`WriteTransfer`] says which command to send next and takes the device's
//! answer; its contracts say exactly which commands are sent and what comes
//! out for every answer.
use vstd::prelude::*;
use crate::model::{aligned_start, block_address, block_covered, le_word, merged_byte, word_count, write_words, read_bytes, le_bytes_of_u16s, be_bytes_of_u16s, le_bytes_of_u32s, be_bytes_of_u32s, le_bytes_of_u64s, be_bytes_of_u64s, lemma_u16_views_len, lemma_u32_views_len, lemma_u64_views_len, host_bytes_of_u16s, host_bytes_of_u32s, host_bytes_of_u64s};
use crate::bytes::{fill_u16s, fill_u32s, fill_u64s, u16s_as_bytes, u32s_as_bytes, u64s_as_bytes};
use crate::types::{ArmError, Csw, DebugProbeError, FullyQualifiedApAddress, SifliUartCommand, SifliUartResponse};

verus! {

/// How far a write has come.
#[derive(Clone, Copy, Debug, PartialEq, Eq, Structural)]
pub enum WriteStage {
    /// The next command has yet to be asked for.
    Pending,
    /// A word of the aligned region was asked for; its bytes are awaited.
    AwaitingBlock,
    /// The words were sent; the acknowledgement is awaited.
    AwaitingWriteAck,
    /// The write is done.
    Finished,
    /// The write failed; nothing more is sent.
    Failed,
}

/// The address of a command: the target's address bus has 32 bits.
pub open spec fn bus_address(a: int) -> int {
    a % 0x1_0000_0000
}

/// Reduces `a` to the 32 bits of the target's address bus.
fn to_bus_address(a: u64) -> (r: u32)
    ensures
        r as int == bus_address(a as int),
        r as int == a as int % 0x1_0000_0000,
        a < 0x1_0000_0000 ==> r as int == a as int,
{
    (a % 0x1_0000_0000) as u32
}

/// The error for an answer that is not the expected memory read.
fn memread_error() -> (e: ArmError)
    ensures
        e matches ArmError::Other(m) && m@ == "MEMRead Error"@,
{
    ArmError::Other("MEMRead Error".to_string())
}

/// Whether `e` is the error given for an answer that is not the expected memory read.
pub open spec fn is_memread_error(e: ArmError) -> bool {
    e matches ArmError::Other(m) && m@ == "MEMRead Error"@
}

/// A write of bytes to target memory, in progress.
pub struct WriteTransfer {
    address: u64,
    data: Vec<u8>,
    start: u64,
    total_words: usize,
    buffer: Vec<u8>,
    block: usize,
    stage: WriteStage,
    fetched: Ghost<Seq<Seq<u8>>>,
}

impl WriteTransfer {
    /// The address of the first byte written.
    pub closed spec fn address(&self) -> int {
        self.address as int
    }

    /// The bytes written.
    pub closed spec fn data(&self) -> Seq<u8> {
        self.data@
    }

    /// For each word of the aligned region handled so far, in order: its bytes
    /// as answered by the target, or, for a word that the new bytes cover
    /// wholly, those bytes.
    pub closed spec fn fetched(&self) -> Seq<Seq<u8>> {
        self.fetched@
    }

    /// How far the write has come.
    pub closed spec fn stage(&self) -> WriteStage {
        self.stage
    }

    /// Number of words of the aligned region.
    pub open spec fn total_words(&self) -> int {
        word_count(self.address(), self.data().len() as int)
    }

    /// The internal consistency of the transfer.
    pub closed spec fn wf(&self) -> bool {
        let a = self.address as int;
        let len = self.data@.len() as int;
        &&& len + 8 <= usize::MAX
        &&& len == 0 ==> self.stage == WriteStage::Finished
        &&& (self.stage != WriteStage::Finished || len > 0) ==> {
            &&& a + len + 3 <= u64::MAX
            &&& self.start == aligned_start(a)
            &&& self.total_words == word_count(a, len)
            &&& self.block <= self.total_words
            &&& self.buffer@.len() == 4 * self.block
            &&& self.fetched@.len() == self.block
            &&& forall|k: int|
                0 <= k < self.buffer@.len() ==> #[trigger] self.buffer@[k] == merged_byte(a, self.data@, self.fetched@, k)
            &&& self.stage == WriteStage::AwaitingBlock ==> self.block < self.total_words && !block_covered(a, len, self.block as int)
            &&& self.stage == WriteStage::AwaitingWriteAck ==> self.block == self.total_words
        }
    }

    /// Starts a write of `data` at `address`. Nothing is sent for no bytes.
    pub fn new(address: u64, data: &[u8]) -> (t: Self)
        requires
            data@.len() > 0 ==> address + data@.len() + 3 <= u64::MAX,
            data@.len() + 8 <= usize::MAX,
        ensures
            t.wf(),
            t.address() == address,
            t.data() == data@,
            t.fetched() == Seq::<Seq<u8>>::empty(),
            t.stage() == (if data@.len() == 0 { WriteStage::Finished } else { WriteStage::Pending }),
    {
        let data_vec = vstd::slice::slice_to_vec(data);
        if data.len() == 0 {
            return WriteTransfer {
                address,
                data: data_vec,
                start: 0,
                total_words: 0,
                buffer: Vec::new(),
                block: 0,
                stage: WriteStage::Finished,
                fetched: Ghost(Seq::empty()),
            };
        }
        let start = address - address % 4;
        let end = ((address + data.len() as u64 + 3) / 4) * 4;
        assert(end - start <= data.len() + 6);
        let total_words = ((end - start) / 4) as usize;
        WriteTransfer {
            address,
            data: data_vec,
            start,
            total_words,
            buffer: Vec::new(),
            block: 0,
            stage: WriteStage::Pending,
            fetched: Ghost(Seq::empty()),
        }
    }

    /// Whether the transfer waits for an answer of the target.
    pub fn is_awaiting_response(&self) -> (r: bool)
        ensures
            r == (self.stage() == WriteStage::AwaitingBlock || self.stage() == WriteStage::AwaitingWriteAck),
    {
        self.stage == WriteStage::AwaitingBlock || self.stage == WriteStage::AwaitingWriteAck
    }

    /// The next command to send, if any. Words that the new bytes cover
    /// wholly are taken from them; at the first word that they do not, that
    /// word is asked for. When every word is known, all of them are written
    /// with one command. A finished or failed write sends nothing more.
    pub fn next_command(&mut self) -> (c: Option<SifliUartCommand>)
        requires
            old(self).wf(),
            old(self).stage() != WriteStage::AwaitingBlock,
            old(self).stage() != WriteStage::AwaitingWriteAck,
        ensures
            final(self).wf(),
            final(self).address() == old(self).address(),
            final(self).data() == old(self).data(),
            old(self).stage() != WriteStage::Pending ==> c is None && final(self).stage() == old(self).stage()
                && final(self).fetched() == old(self).fetched(),
            old(self).stage() == WriteStage::Pending ==> {
                let a = old(self).address();
                let len = old(self).data().len() as int;
                let b0 = old(self).fetched().len() as int;
                let b = final(self).fetched().len() as int;
                &&& b0 <= b <= old(self).total_words()
                &&& final(self).fetched().subrange(0, b0) == old(self).fetched()
                &&& forall|i: int| b0 <= i < b ==> #[trigger] block_covered(a, len, i)
                &&& forall|i: int| b0 <= i < b ==> #[trigger] final(self).fetched()[i] == old(self).data().subrange(
                        block_address(a, i) - a, block_address(a, i) - a + 4)
                &&& if b < old(self).total_words() {
                    &&& !block_covered(a, len, b)
                    &&& final(self).stage() == WriteStage::AwaitingBlock
                    &&& c matches Some(SifliUartCommand::MEMRead { addr, len: n })
                        && addr as int == bus_address(block_address(a, b)) && n == 1
                } else {
                    &&& final(self).stage() == WriteStage::AwaitingWriteAck
                    &&& c matches Some(SifliUartCommand::MEMWrite { addr, data: words })
                        && addr as int == bus_address(aligned_start(a))
                        && words@ == write_words(a, old(self).data(), final(self).fetched())
                }
            },
    {
        if self.stage != WriteStage::Pending {
            return None;
        }
        let ghost a = self.address as int;
        let ghost len = self.data@.len() as int;
        let ghost b0 = self.block as int;
        let ghost f0 = self.fetched@;
        let ghost d0 = self.data@;
        loop
            invariant
                self.wf(),
                self.stage == WriteStage::Pending,
                self.address as int == a,
                self.data@ == d0,
                self.data@.len() == len,
                len > 0,
                a + len + 3 <= u64::MAX,
                self.start == aligned_start(a),
                self.total_words == word_count(a, len),
                self.fetched@.len() == self.block,
                self.buffer@.len() == 4 * self.block,
                0 <= b0 <= self.block <= self.total_words,
                self.fetched@.subrange(0, b0) == f0,
                forall|i: int| b0 <= i < self.block ==> #[trigger] block_covered(a, len, i),
                forall|i: int| b0 <= i < self.block ==> #[trigger] self.fetched@[i] == self.data@.subrange(
                        block_address(a, i) - a, block_address(a, i) - a + 4),
            ensures
                self.block == self.total_words || !block_covered(a, len, self.block as int),
            decreases self.total_words - self.block,
        {
            if self.block >= self.total_words {
                break;
            }
            let block_addr: u64 = self.start + 4 * (self.block as u64);
            let block_end: u64 = block_addr + 4;
            assert(block_addr == block_address(a, self.block as int));
            if block_addr >= self.address && block_end <= self.address + self.data.len() as u64 {
                let off = (block_addr - self.address) as usize;
                let ghost old_buffer = self.buffer@;
                let ghost old_fetched = self.fetched@;
                let ghost piece = self.data@.subrange(off as int, off + 4);
                assert(old_fetched.len() == self.block);
                self.buffer.push(self.data[off]);
                self.buffer.push(self.data[off + 1]);
                self.buffer.push(self.data[off + 2]);
                self.buffer.push(self.data[off + 3]);
                self.fetched = Ghost(old_fetched.push(piece));
                self.block = self.block + 1;
                assert forall|k: int| 0 <= k < self.buffer@.len() implies #[trigger] self.buffer@[k]
                    == merged_byte(a, self.data@, self.fetched@, k) by {
                    if k < old_buffer.len() {
                        assert(self.buffer@[k] == old_buffer[k]);
                    }
                }
                assert(self.fetched@ == old_fetched.push(piece));
                assert(b0 <= old_fetched.len());
                assert(self.fetched@.len() == old_fetched.len() + 1);
                assert(self.fetched@.subrange(0, b0) =~= old_fetched.subrange(0, b0));
                assert forall|i: int| b0 <= i < self.block implies #[trigger] block_covered(a, len, i)
                    && self.fetched@[i] == self.data@.subrange(
                        block_address(a, i) - a, block_address(a, i) - a + 4) by {
                    if i < self.block - 1 {
                        assert(self.fetched@[i] == old_fetched[i]);
                    } else {
                        assert(i == self.block - 1);
                        assert(block_address(a, i) - a == off);
                    }
                }
            } else {
                break;
            }
        }
        if self.block < self.total_words {
            let block_addr: u64 = self.start + 4 * (self.block as u64);
            self.stage = WriteStage::AwaitingBlock;
            Some(SifliUartCommand::MEMRead { addr: to_bus_address(block_addr), len: 1 })
        } else {
            let mut words: Vec<u32> = Vec::new();
            let mut i: usize = 0;
            while i < self.total_words
                invariant
                    self.wf(),
                    self.block == self.total_words,
                    self.stage == WriteStage::Pending,
                    self.address as int == a,
                    self.data@ == d0,
                    self.data@.len() == len,
                    len > 0,
                    0 <= i <= self.total_words,
                    words@.len() == i,
                    forall|j: int| 0 <= j < i ==> #[trigger] words@[j] == write_words(a, self.data@, self.fetched@)[j],
                decreases self.total_words - i,
            {
                let k = 4 * i;
                let w: u32 = (self.buffer[k] as u32) | ((self.buffer[k + 1] as u32) << 8u32)
                    | ((self.buffer[k + 2] as u32) << 16u32) | ((self.buffer[k + 3] as u32) << 24u32);
                assert(w == le_word(self.buffer@[k as int], self.buffer@[k + 1], self.buffer@[k + 2], self.buffer@[k + 3]));
                words.push(w);
                i = i + 1;
            }
            assert(words@ =~= write_words(a, self.data@, self.fetched@));
            self.stage = WriteStage::AwaitingWriteAck;
            Some(SifliUartCommand::MEMWrite { addr: to_bus_address(self.start), data: words })
        }
    }

    /// Takes the target's answer to the last command. The bytes of an asked
    /// word must come as a memory read of exactly four bytes; any other
    /// answer fails the write. A failure of the link itself, described by
    /// `response`'s error, fails it too. Any answer to the final write
    /// finishes it.
    pub fn receive(&mut self, response: Result<SifliUartResponse, String>) -> (r: Result<(), ArmError>)
        requires
            old(self).wf(),
            old(self).stage() == WriteStage::AwaitingBlock || old(self).stage() == WriteStage::AwaitingWriteAck,
        ensures
            final(self).wf(),
            final(self).address() == old(self).address(),
            final(self).data() == old(self).data(),
            old(self).stage() == WriteStage::AwaitingBlock ==> match response {
                Ok(SifliUartResponse::MEMRead { data: d }) => if d@.len() == 4 {
                    &&& r is Ok
                    &&& final(self).fetched() == old(self).fetched().push(d@)
                    &&& final(self).stage() == WriteStage::Pending
                } else {
                    &&& r matches Err(e) && is_memread_error(e)
                    &&& final(self).fetched() == old(self).fetched()
                    &&& final(self).stage() == WriteStage::Failed
                },
                Ok(_) => {
                    &&& r matches Err(e) && is_memread_error(e)
                    &&& final(self).fetched() == old(self).fetched()
                    &&& final(self).stage() == WriteStage::Failed
                },
                Err(s) => {
                    &&& r == Err::<(), ArmError>(ArmError::Other(s))
                    &&& final(self).fetched() == old(self).fetched()
                    &&& final(self).stage() == WriteStage::Failed
                },
            },
            old(self).stage() == WriteStage::AwaitingWriteAck ==> final(self).fetched() == old(self).fetched()
                && match response {
                Ok(_) => r is Ok && final(self).stage() == WriteStage::Finished,
                Err(s) => r == Err::<(), ArmError>(ArmError::Other(s)) && final(self).stage() == WriteStage::Failed,
            },
    {
        if self.stage == WriteStage::AwaitingWriteAck {
            match response {
                Ok(_) => {
                    self.stage = WriteStage::Finished;
                    return Ok(());
                },
                Err(s) => {
                    self.stage = WriteStage::Failed;
                    return Err(ArmError::Other(s));
                },
            }
        }
        let ghost a = self.address as int;
        let ghost len = self.data@.len() as int;
        match response {
            Err(s) => {
                self.stage = WriteStage::Failed;
                Err(ArmError::Other(s))
            },
            Ok(SifliUartResponse::MEMRead { data: d }) => {
                if d.len() != 4 {
                    self.stage = WriteStage::Failed;
                    return Err(memread_error());
                }
                let block_addr: u64 = self.start + 4 * (self.block as u64);
                let block_end: u64 = block_addr + 4;
                let data_end: u64 = self.address + self.data.len() as u64;
                assert(block_addr == block_address(a, self.block as int));
                let ghost old_buffer = self.buffer@;
                let ghost new_fetched = self.fetched@.push(d@);
                let ghost s0 = *self;
                let mut j: usize = 0;
                while j < 4
                    invariant
                        s0.wf(),
                        s0.stage == WriteStage::AwaitingBlock,
                        self.address == s0.address,
                        self.data == s0.data,
                        self.start == s0.start,
                        self.total_words == s0.total_words,
                        self.block == s0.block,
                        self.fetched == s0.fetched,
                        self.stage == s0.stage,
                        old_buffer == s0.buffer@,
                        self.address as int == a,
                        self.data@.len() == len,
                        block_addr == block_address(a, self.block as int),
                        data_end == a + len,
                        d@.len() == 4,
                        new_fetched == self.fetched@.push(d@),
                        0 <= j <= 4,
                        self.buffer@.len() == old_buffer.len() + j,
                        forall|k: int| 0 <= k < self.buffer@.len() ==> #[trigger] self.buffer@[k]
                            == merged_byte(a, self.data@, new_fetched, k),
                    decreases 4 - j,
                {
                    let byte_addr: u64 = block_addr + j as u64;
                    let byte = if byte_addr >= self.address && byte_addr < data_end {
                        self.data[(byte_addr - self.address) as usize]
                    } else {
                        d[j]
                    };
                    proof {
                        let k = old_buffer.len() + j;
                        let b = self.block as int;
                        let jj = j as int;
                        assert(k == 4 * b + jj);
                        assert((4 * b + jj) / 4 == b && (4 * b + jj) % 4 == jj) by (nonlinear_arith)
                            requires 0 <= jj < 4, b >= 0;
                        assert forall|k2: int| 0 <= k2 < old_buffer.len() implies
                            merged_byte(a, self.data@, new_fetched, k2) == merged_byte(a, self.data@, self.fetched@, k2) by {
                            assert(k2 / 4 < self.fetched@.len()) by (nonlinear_arith)
                                requires 0 <= k2 < 4 * self.fetched@.len();
                        }
                    }
                    self.buffer.push(byte);
                    j = j + 1;
                }
                self.fetched = Ghost(new_fetched);
                self.block = self.block + 1;
                self.stage = WriteStage::Pending;
                Ok(())
            },
            Ok(_) => {
                self.stage = WriteStage::Failed;
                Err(memread_error())
            },
        }
    }
}


/// A read of bytes from target memory, in progress.
pub struct ReadTransfer {
    address: u64,
    len: usize,
    start: u64,
    total_words: usize,
}

impl ReadTransfer {
    /// The address of the first byte read.
    pub closed spec fn address(&self) -> int {
        self.address as int
    }

    /// The number of bytes read.
    pub closed spec fn len(&self) -> int {
        self.len as int
    }

    /// The internal consistency of the transfer.
    pub closed spec fn wf(&self) -> bool {
        let a = self.address as int;
        let len = self.len as int;
        len > 0 ==> {
            &&& a + len + 3 <= u64::MAX
            &&& self.start == aligned_start(a)
            &&& self.total_words == word_count(a, len)
        }
    }

    /// The bytes that the answer `response` yields, if it is a memory read of
    /// exactly the aligned region.
    pub open spec fn answer_bytes(&self, response: Result<SifliUartResponse, String>) -> Option<Seq<u8>> {
        match response {
            Ok(SifliUartResponse::MEMRead { data: buf }) => if buf@.len() == 4 * word_count(self.address(), self.len()) {
                Some(read_bytes(self.address(), self.len(), buf@))
            } else {
                None
            },
            _ => None,
        }
    }

    /// The error that a read fails with on the answer `response`: the link's
    /// own error, or the error for an unexpected answer.
    pub open spec fn answer_error(response: Result<SifliUartResponse, String>, e: ArmError) -> bool {
        match response {
            Err(s) => e == ArmError::Other(s),
            Ok(_) => is_memread_error(e),
        }
    }

    /// Starts a read of `len` bytes at `address`. Nothing is sent for no bytes.
    pub fn new(address: u64, len: usize) -> (t: Self)
        requires
            len > 0 ==> address + len + 3 <= u64::MAX,
        ensures
            t.wf(),
            t.address() == address,
            t.len() == len,
    {
        if len == 0 {
            return ReadTransfer { address, len, start: 0, total_words: 0 };
        }
        let start = address - address % 4;
        let end = ((address + len as u64 + 3) / 4) * 4;
        assert(end - start <= len + 6);
        let total_words = ((end - start) / 4) as usize;
        ReadTransfer { address, len, start, total_words }
    }

    /// The one command of the read: all words of the aligned region at once.
    /// The word count is sent as 16 bits.
    pub fn command(&self) -> (c: Option<SifliUartCommand>)
        requires
            self.wf(),
        ensures
            self.len() == 0 ==> c is None,
            self.len() > 0 ==> (c matches Some(SifliUartCommand::MEMRead { addr, len: n })
                && addr as int == bus_address(aligned_start(self.address()))
                && n as int == word_count(self.address(), self.len()) % 0x1_0000),
    {
        if self.len == 0 {
            return None;
        }
        Some(SifliUartCommand::MEMRead {
            addr: to_bus_address(self.start),
            len: (self.total_words % 0x1_0000) as u16,
        })
    }

    /// The bytes asked for, cut from the target's answer. The answer must be
    /// a memory read of exactly the aligned region; any other answer fails.
    /// A failure of the link itself, described by `response`'s error, fails
    /// the read too.
    pub fn finish_bytes(&self, response: Result<SifliUartResponse, String>) -> (r: Result<Vec<u8>, ArmError>)
        requires
            self.wf(),
            self.len() > 0,
        ensures
            match self.answer_bytes(response) {
                Some(b) => r matches Ok(v) && v@ == b,
                None => r matches Err(e) && Self::answer_error(response, e),
            },
    {
        let buf = match response {
            Err(s) => {
                return Err(ArmError::Other(s));
            },
            Ok(SifliUartResponse::MEMRead { data }) => {
                if data.len() as u64 != 4 * (self.total_words as u64) {
                    return Err(memread_error());
                }
                data
            },
            Ok(_) => {
                return Err(memread_error());
            },
        };
        proof {
            let a = self.address as int;
            let l = self.len as int;
            assert(((a + l + 3) / 4) * 4 >= a + l) by (nonlinear_arith)
                requires a >= 0, l >= 0;
        }
        let offset = (self.address - self.start) as usize;
        let mut out: Vec<u8> = Vec::new();
        let mut i: usize = 0;
        while i < self.len
            invariant
                self.wf(),
                self.len > 0,
                buf@.len() == 4 * word_count(self.address(), self.len()),
                offset == self.address() - aligned_start(self.address()),
                offset + self.len <= buf@.len(),
                buf@.len() <= usize::MAX,
                0 <= i <= self.len,
                out@ =~= read_bytes(self.address(), self.len(), buf@).subrange(0, i as int),
            decreases self.len - i,
        {
            out.push(buf[offset + i]);
            i = i + 1;
        }
        Ok(out)
    }

    /// Cuts the bytes asked for from the target's answer into `data`, as
    /// [`ReadTransfer::finish_bytes`] does; on failure `data` is left as it
    /// was. A read of no bytes succeeds at once.
    #[verifier::spinoff_prover]
    pub fn finish(&self, response: Result<SifliUartResponse, String>, data: &mut [u8]) -> (r: Result<(), ArmError>)
        requires
            self.wf(),
            old(data)@.len() == self.len(),
        ensures
            self.len() == 0 ==> r is Ok && final(data)@ == old(data)@,
            self.len() > 0 ==> match self.answer_bytes(response) {
                Some(b) => r is Ok && final(data)@ == b,
                None => r matches Err(e) && Self::answer_error(response, e) && final(data)@ == old(data)@,
            },
    {
        if data.len() == 0 {
            return Ok(());
        }
        let bytes = match self.finish_bytes(response) {
            Ok(b) => b,
            Err(e) => {
                return Err(e);
            },
        };
        let mut i: usize = 0;
        while i < data.len()
            invariant
                bytes@.len() == data@.len(),
                0 <= i <= data@.len(),
                forall|k: int| 0 <= k < i ==> data@[k] == bytes@[k],
            decreases data@.len() - i,
        {
            data[i] = bytes[i];
            i = i + 1;
        }
        assert(data@ =~= bytes@);
        Ok(())
    }

    /// Cuts the bytes asked for from the target's answer, as
    /// [`ReadTransfer::finish_bytes`] does, into the 16-bit elements of
    /// `data` in the machine's byte order; on failure `data` is left as it was.
    #[verifier::spinoff_prover]
    pub fn finish_16(&self, response: Result<SifliUartResponse, String>, data: &mut [u16]) -> (r: Result<(), ArmError>)
        requires
            self.wf(),
            self.len() == 2 * old(data)@.len(),
        ensures
            final(data)@.len() == old(data)@.len(),
            self.len() == 0 ==> r is Ok && final(data)@ == old(data)@,
            self.len() > 0 ==> match self.answer_bytes(response) {
                Some(b) => r is Ok && host_bytes_of_u16s(final(data)@) == b
                    && (le_bytes_of_u16s(final(data)@) == b || be_bytes_of_u16s(final(data)@) == b),
                None => r matches Err(e) && Self::answer_error(response, e) && final(data)@ == old(data)@,
            },
    {
        if data.len() == 0 {
            return Ok(());
        }
        let bytes = match self.finish_bytes(response) {
            Ok(b) => b,
            Err(e) => {
                return Err(e);
            },
        };
        proof {
            lemma_u16_views_len(data@);
        }
        fill_u16s(data, bytes.as_slice());
        Ok(())
    }

    /// Cuts the bytes asked for from the target's answer, as
    /// [`ReadTransfer::finish_bytes`] does, into the 32-bit elements of
    /// `data` in the machine's byte order; on failure `data` is left as it was.
    #[verifier::spinoff_prover]
    pub fn finish_32(&self, response: Result<SifliUartResponse, String>, data: &mut [u32]) -> (r: Result<(), ArmError>)
        requires
            self.wf(),
            self.len() == 4 * old(data)@.len(),
        ensures
            final(data)@.len() == old(data)@.len(),
            self.len() == 0 ==> r is Ok && final(data)@ == old(data)@,
            self.len() > 0 ==> match self.answer_bytes(response) {
                Some(b) => r is Ok && host_bytes_of_u32s(final(data)@) == b
                    && (le_bytes_of_u32s(final(data)@) == b || be_bytes_of_u32s(final(data)@) == b),
                None => r matches Err(e) && Self::answer_error(response, e) && final(data)@ == old(data)@,
            },
    {
        if data.len() == 0 {
            return Ok(());
        }
        let bytes = match self.finish_bytes(response) {
            Ok(b) => b,
            Err(e) => {
                return Err(e);
            },
        };
        proof {
            lemma_u32_views_len(data@);
        }
        fill_u32s(data, bytes.as_slice());
        Ok(())
    }

    /// Cuts the bytes asked for from the target's answer, as
    /// [`ReadTransfer::finish_bytes`] does, into the 64-bit elements of
    /// `data` in the machine's byte order; on failure `data` is left as it was.
    #[verifier::spinoff_prover]
    pub fn finish_64(&self, response: Result<SifliUartResponse, String>, data: &mut [u64]) -> (r: Result<(), ArmError>)
        requires
            self.wf(),
            self.len() == 8 * old(data)@.len(),
        ensures
            final(data)@.len() == old(data)@.len(),
            self.len() == 0 ==> r is Ok && final(data)@ == old(data)@,
            self.len() > 0 ==> match self.answer_bytes(response) {
                Some(b) => r is Ok && host_bytes_of_u64s(final(data)@) == b
                    && (le_bytes_of_u64s(final(data)@) == b || be_bytes_of_u64s(final(data)@) == b),
                None => r matches Err(e) && Self::answer_error(response, e) && final(data)@ == old(data)@,
            },
    {
        if data.len() == 0 {
            return Ok(());
        }
        let bytes = match self.finish_bytes(response) {
            Ok(b) => b,
            Err(e) => {
                return Err(e);
            },
        };
        proof {
            lemma_u64_views_len(data@);
        }
        fill_u64s(data, bytes.as_slice());
        Ok(())
    }
}

/// The memory interface of one access port.
pub struct SifliUartMemoryInterface {
    current_ap: FullyQualifiedApAddress,
}

impl SifliUartMemoryInterface {
    /// The access port this interface reaches.
    pub closed spec fn current_ap(&self) -> FullyQualifiedApAddress {
        self.current_ap
    }

    /// The memory interface of the access port `current_ap`.
    pub fn new(current_ap: FullyQualifiedApAddress) -> (r: Self)
        ensures
            r.current_ap() == current_ap,
    {
        SifliUartMemoryInterface { current_ap }
    }

    /// The access port this interface reaches.
    pub fn fully_qualified_address(&self) -> (r: FullyQualifiedApAddress)
        ensures
            r == self.current_ap(),
    {
        self.current_ap
    }

    /// The generic status of the access port is not available over UART.
    pub fn generic_status(&mut self) -> (r: Result<Csw, ArmError>)
        ensures
            r matches Err(ArmError::Probe(DebugProbeError::InterfaceNotAvailable { interface_name }))
                && interface_name == "ARM",
            *final(self) == *old(self),
    {
        Err(ArmError::Probe(DebugProbeError::InterfaceNotAvailable { interface_name: "ARM" }))
    }

    /// 64-bit accesses are supported.
    pub fn supports_native_64bit_access(&mut self) -> (r: bool)
        ensures
            r,
            *final(self) == *old(self),
    {
        true
    }

    /// 8-bit accesses are supported.
    pub fn supports_8bit_transfers(&self) -> (r: Result<bool, ArmError>)
        ensures
            r matches Ok(b) && b,
    {
        Ok(true)
    }

    /// Nothing is buffered, so flushing succeeds at once.
    pub fn flush(&mut self) -> (r: Result<(), ArmError>)
        ensures
            r is Ok,
            *final(self) == *old(self),
    {
        Ok(())
    }

    /// Starts a write of the bytes `data` at `address`.
    pub fn write(&self, address: u64, data: &[u8]) -> (t: WriteTransfer)
        requires
            data@.len() > 0 ==> address + data@.len() + 3 <= u64::MAX,
            data@.len() + 8 <= usize::MAX,
        ensures
            t.wf(),
            t.address() == address,
            t.data() == data@,
            t.fetched() == Seq::<Seq<u8>>::empty(),
            t.stage() == (if data@.len() == 0 { WriteStage::Finished } else { WriteStage::Pending }),
    {
        WriteTransfer::new(address, data)
    }

    /// Starts a write of the bytes `data` at `address`.
    pub fn write_8(&self, address: u64, data: &[u8]) -> (t: WriteTransfer)
        requires
            data@.len() > 0 ==> address + data@.len() + 3 <= u64::MAX,
            data@.len() + 8 <= usize::MAX,
        ensures
            t.wf(),
            t.address() == address,
            t.data() == data@,
            t.fetched() == Seq::<Seq<u8>>::empty(),
            t.stage() == (if data@.len() == 0 { WriteStage::Finished } else { WriteStage::Pending }),
    {
        self.write(address, data)
    }

    /// Starts a read of `len` bytes at `address`.
    pub fn read(&self, address: u64, len: usize) -> (t: ReadTransfer)
        requires
            len > 0 ==> address + len + 3 <= u64::MAX,
        ensures
            t.wf(),
            t.address() == address,
            t.len() == len,
    {
        ReadTransfer::new(address, len)
    }

    /// Starts a read of `len` bytes at `address`.
    pub fn read_8(&self, address: u64, len: usize) -> (t: ReadTransfer)
        requires
            len > 0 ==> address + len + 3 <= u64::MAX,
        ensures
            t.wf(),
            t.address() == address,
            t.len() == len,
    {
        self.read(address, len)
    }

    /// Starts a read of `count` 16-bit elements at `address`; finish it with
    /// [`ReadTransfer::finish_16`].
    pub fn read_16(&self, address: u64, count: usize) -> (t: ReadTransfer)
        requires
            2 * count <= usize::MAX,
            count > 0 ==> address + 2 * count + 3 <= u64::MAX,
        ensures
            t.wf(),
            t.address() == address,
            t.len() == 2 * count,
    {
        self.read(address, 2 * count)
    }

    /// Starts a write of the 16-bit elements `data` at `address`, as bytes in
    /// the machine's byte order.
    pub fn write_16(&self, address: u64, data: &[u16]) -> (t: WriteTransfer)
        requires
            data@.len() > 0 ==> address + 2 * data@.len() + 3 <= u64::MAX,
            2 * data@.len() + 8 <= usize::MAX,
        ensures
            t.wf(),
            t.address() == address,
            t.data() == host_bytes_of_u16s(data@),
            t.data() == le_bytes_of_u16s(data@) || t.data() == be_bytes_of_u16s(data@),
            t.fetched() == Seq::<Seq<u8>>::empty(),
            t.stage() == (if data@.len() == 0 { WriteStage::Finished } else { WriteStage::Pending }),
    {
        let bytes = u16s_as_bytes(data);
        proof {
            lemma_u16_views_len(data@);
        }
        self.write(address, bytes.as_slice())
    }

    /// Starts a read of `count` 32-bit elements at `address`; finish it with
    /// [`ReadTransfer::finish_32`].
    pub fn read_32(&self, address: u64, count: usize) -> (t: ReadTransfer)
        requires
            4 * count <= usize::MAX,
            count > 0 ==> address + 4 * count + 3 <= u64::MAX,
        ensures
            t.wf(),
            t.address() == address,
            t.len() == 4 * count,
    {
        self.read(address, 4 * count)
    }

    /// Starts a write of the 32-bit elements `data` at `address`, as bytes in
    /// the machine's byte order.
    pub fn write_32(&self, address: u64, data: &[u32]) -> (t: WriteTransfer)
        requires
            data@.len() > 0 ==> address + 4 * data@.len() + 3 <= u64::MAX,
            4 * data@.len() + 8 <= usize::MAX,
        ensures
            t.wf(),
            t.address() == address,
            t.data() == host_bytes_of_u32s(data@),
            t.data() == le_bytes_of_u32s(data@) || t.data() == be_bytes_of_u32s(data@),
            t.fetched() == Seq::<Seq<u8>>::empty(),
            t.stage() == (if data@.len() == 0 { WriteStage::Finished } else { WriteStage::Pending }),
    {
        let bytes = u32s_as_bytes(data);
        proof {
            lemma_u32_views_len(data@);
        }
        self.write(address, bytes.as_slice())
    }

    /// Starts a read of `count` 64-bit elements at `address`; finish it with
    /// [`ReadTransfer::finish_64`].
    pub fn read_64(&self, address: u64, count: usize) -> (t: ReadTransfer)
        requires
            8 * count <= usize::MAX,
            count > 0 ==> address + 8 * count + 3 <= u64::MAX,
        ensures
            t.wf(),
            t.address() == address,
            t.len() == 8 * count,
    {
        self.read(address, 8 * count)
    }

    /// Starts a write of the 64-bit elements `data` at `address`, as bytes in
    /// the machine's byte order.
    pub fn write_64(&self, address: u64, data: &[u64]) -> (t: WriteTransfer)
        requires
            data@.len() > 0 ==> address + 8 * data@.len() + 3 <= u64::MAX,
            8 * data@.len() + 8 <= usize::MAX,
        ensures
            t.wf(),
            t.address() == address,
            t.data() == host_bytes_of_u64s(data@),
            t.data() == le_bytes_of_u64s(data@) || t.data() == be_bytes_of_u64s(data@),
            t.fetched() == Seq::<Seq<u8>>::empty(),
            t.stage() == (if data@.len() == 0 { WriteStage::Finished } else { WriteStage::Pending }),
    {
        let bytes = u64s_as_bytes(data);
        proof {
            lemma_u64_views_len(data@);
        }
        self.write(address, bytes.as_slice())
    }
}

} // verus!
