use vstd::prelude::*;

verus! {

/// Why a read from the scratch buffer failed.
#[derive(Clone, Copy, Debug, PartialEq, Eq, Structural)]
pub enum ScratchError {
    /// The cursor stands past the end of the buffer.
    OutsideBuffer,
}

/// Single-slot staging area for a variable-length result, drained by
/// bounded reads that advance a cursor.
#[derive(Clone, Debug, Default, PartialEq, Eq)]
pub struct EventsScratch {
    pub read_ptr: usize,
    pub buffer: Vec<u8>,
}

/// How many bytes a read of `want` bytes copies from a buffer of `len` bytes
/// whose cursor stands at `ptr`.
pub open spec fn chunk_len(len: nat, ptr: nat, want: nat) -> nat {
    if ptr >= len {
        0
    } else if want < (len - ptr) as nat {
        want
    } else {
        (len - ptr) as nat
    }
}

/// The bytes handed out by successive reads of the sizes in `chunks`, starting
/// with the cursor at `ptr`.
pub open spec fn drained(data: Seq<u8>, ptr: nat, chunks: Seq<nat>) -> Seq<u8>
    decreases chunks.len(),
{
    if chunks.len() == 0 {
        Seq::empty()
    } else {
        let n = chunk_len(data.len(), ptr, chunks[0]);
        data.subrange(ptr as int, (ptr + n) as int) + drained(data, ptr + n, chunks.drop_first())
    }
}

/// Sum of the read sizes.
pub open spec fn total(chunks: Seq<nat>) -> nat
    decreases chunks.len(),
{
    if chunks.len() == 0 {
        0
    } else {
        chunks[0] + total(chunks.drop_first())
    }
}

impl EventsScratch {
    /// The bytes not yet read.
    pub open spec fn remaining(&self) -> Seq<u8> {
        self.buffer@.subrange(self.read_ptr as int, self.buffer@.len() as int)
    }

    /// Stages `buffer` with the cursor at its start.
    pub fn new(buffer: Vec<u8>) -> (r: Self)
        ensures
            r.read_ptr == 0,
            r.buffer@ == buffer@,
    {
        EventsScratch { read_ptr: 0, buffer }
    }

    /// Copies `min(remaining, buf.len())` bytes from the cursor into the front
    /// of `buf`, advances the cursor by that amount, and returns the count.
    /// A cursor past the end of the buffer is an error and changes nothing.
    pub fn read(&mut self, buf: &mut [u8]) -> (r: Result<usize, ScratchError>)
        ensures
            final(self).buffer@ == old(self).buffer@,
            old(self).read_ptr > old(self).buffer@.len() ==> {
                &&& r == Err::<usize, ScratchError>(ScratchError::OutsideBuffer)
                &&& final(self).read_ptr == old(self).read_ptr
                &&& final(buf)@ == old(buf)@
            },
            old(self).read_ptr <= old(self).buffer@.len() ==> {
                let n = chunk_len(
                    old(self).buffer@.len(),
                    old(self).read_ptr as nat,
                    old(buf)@.len(),
                );
                &&& r == Ok::<usize, ScratchError>(n as usize)
                &&& final(self).read_ptr == old(self).read_ptr + n
                &&& final(buf)@.len() == old(buf)@.len()
                &&& final(buf)@.subrange(0, n as int) == old(self).buffer@.subrange(
                    old(self).read_ptr as int,
                    old(self).read_ptr + n,
                )
                &&& final(buf)@.subrange(n as int, old(buf)@.len() as int) == old(buf)@.subrange(
                    n as int,
                    old(buf)@.len() as int,
                )
            },
    {
        let len = self.buffer.len();
        if self.read_ptr > len {
            return Err(ScratchError::OutsideBuffer);
        }
        let avail = len - self.read_ptr;
        let n: usize = if buf.len() < avail {
            buf.len()
        } else {
            avail
        };
        let start = self.read_ptr;
        let ghost orig = buf@;
        let mut i: usize = 0;
        while i < n
            invariant
                i <= n,
                n <= buf@.len(),
                start + n <= len,
                len == self.buffer@.len(),
                buf@.len() == orig.len(),
                forall|k: int| 0 <= k < i ==> buf@[k] == self.buffer@[start + k],
                forall|k: int| i <= k < orig.len() ==> buf@[k] == orig[k],
            decreases n - i,
        {
            buf[i] = self.buffer[start + i];
            i = i + 1;
        }
        self.read_ptr = start + n;
        assert(buf@.subrange(0, n as int) =~= self.buffer@.subrange(start as int, start + n));
        assert(buf@.subrange(n as int, orig.len() as int) =~= orig.subrange(
            n as int,
            orig.len() as int,
        ));
        Ok(n)
    }
}

/// Why a guest's read of the scratch slot failed.
#[derive(Clone, Copy, Debug, PartialEq, Eq, Structural)]
pub enum ReadFault {
    /// Nothing has been staged.
    NoPendingBuffer,
    /// The staged buffer's cursor stands past its end.
    OutsideBuffer,
}

/// Reads from the session's scratch slot into `buf`. The staged buffer stays
/// in the slot after the read, so reads past its end keep returning 0; an
/// empty slot is a fault.
pub fn read_scratch(slot: &mut Option<EventsScratch>, buf: &mut [u8]) -> (r: Result<usize, ReadFault>)
    ensures
        *old(slot) is None ==> r == Err::<usize, ReadFault>(ReadFault::NoPendingBuffer)
            && *final(slot) is None && final(buf)@ == old(buf)@,
        *old(slot) matches Some(s) ==> *final(slot) matches Some(t) && t.buffer@ == s.buffer@ && ({
            if s.read_ptr > s.buffer@.len() {
                &&& r == Err::<usize, ReadFault>(ReadFault::OutsideBuffer)
                &&& t.read_ptr == s.read_ptr
                &&& final(buf)@ == old(buf)@
            } else {
                let n = chunk_len(s.buffer@.len(), s.read_ptr as nat, old(buf)@.len());
                &&& r == Ok::<usize, ReadFault>(n as usize)
                &&& t.read_ptr == s.read_ptr + n
                &&& final(buf)@.len() == old(buf)@.len()
                &&& final(buf)@.subrange(0, n as int) == s.buffer@.subrange(
                    s.read_ptr as int,
                    s.read_ptr + n,
                )
                &&& final(buf)@.subrange(n as int, old(buf)@.len() as int) == old(buf)@.subrange(
                    n as int,
                    old(buf)@.len() as int,
                )
            }
        }),
{
    match slot {
        None => Err(ReadFault::NoPendingBuffer),
        Some(s) => match s.read(buf) {
            Ok(n) => Ok(n),
            Err(_) => Err(ReadFault::OutsideBuffer),
        },
    }
}

/// Draining a staged buffer by reads of any sizes that add up to at least its
/// remaining length hands out exactly its remaining bytes, in order.
pub proof fn lemma_drain_round_trip(data: Seq<u8>, ptr: nat, chunks: Seq<nat>)
    requires
        ptr <= data.len(),
        total(chunks) >= data.len() - ptr,
    ensures
        drained(data, ptr, chunks) == data.subrange(ptr as int, data.len() as int),
    decreases chunks.len(),
{
    if chunks.len() == 0 {
        assert(data.subrange(ptr as int, data.len() as int) =~= Seq::<u8>::empty());
    } else {
        let n = chunk_len(data.len(), ptr, chunks[0]);
        lemma_drain_round_trip(data, ptr + n, chunks.drop_first());
        assert(data.subrange(ptr as int, (ptr + n) as int) + data.subrange(
            (ptr + n) as int,
            data.len() as int,
        ) =~= data.subrange(ptr as int, data.len() as int));
    }
}

/// Once a buffer is drained, every further read hands out nothing and leaves
/// the cursor where it is.
pub proof fn lemma_read_after_drain(data: Seq<u8>, chunks: Seq<nat>)
    ensures
        drained(data, data.len(), chunks) == Seq::<u8>::empty(),
    decreases chunks.len(),
{
    if chunks.len() > 0 {
        lemma_read_after_drain(data, chunks.drop_first());
        assert(data.subrange(data.len() as int, data.len() as int) =~= Seq::<u8>::empty());
    }
}

} // verus!
