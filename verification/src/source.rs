//! What a sample source needs to serve reads of an exact size from a
//! device that hands out data in pieces of its own choosing.

use crate::decode::encode_sample;
use crate::decode::encoded;
use vstd::prelude::*;

verus! {

/// Bytes that have arrived and were not yet read, in order of arrival.
/// A read is served only in full.
pub struct FrameAssembler {
    pending: Vec<u8>,
}

impl View for FrameAssembler {
    type V = Seq<u8>;

    closed spec fn view(&self) -> Seq<u8> {
        self.pending@
    }
}

impl FrameAssembler {
    /// An assembler that holds nothing.
    pub fn new() -> (assembler: FrameAssembler)
        ensures
            assembler@ == Seq::<u8>::empty(),
    {
        FrameAssembler { pending: Vec::new() }
    }

    /// The number of bytes that wait to be read.
    pub fn len(&self) -> (len: usize)
        ensures
            len == self@.len(),
    {
        self.pending.len()
    }

    /// Takes in bytes, behind those that wait.
    pub fn feed(&mut self, bytes: &[u8])
        ensures
            final(self)@ == old(self)@ + bytes@,
    {
        let mut i: usize = 0;
        while i < bytes.len()
            invariant
                i <= bytes.len(),
                self@ == old(self)@ + bytes@.take(i as int),
            decreases bytes.len() - i,
        {
            self.pending.push(bytes[i]);
            assert(bytes@.take(i as int).push(bytes@[i as int]) == bytes@.take(i + 1));
            i = i + 1;
        }
        assert(bytes@.take(bytes.len() as int) == bytes@);
    }

    /// Takes in samples, each as four bytes with the least significant
    /// first, behind the bytes that wait.
    pub fn feed_samples(&mut self, samples: &[i32])
        ensures
            final(self)@ == old(self)@ + encoded(samples@),
    {
        let mut i: usize = 0;
        while i < samples.len()
            invariant
                i <= samples.len(),
                self@ == old(self)@ + encoded(samples@.take(i as int)),
            decreases samples.len() - i,
        {
            let bytes = encode_sample(samples[i]);
            let ghost before = self@;
            self.pending.push(bytes[0]);
            self.pending.push(bytes[1]);
            self.pending.push(bytes[2]);
            self.pending.push(bytes[3]);
            proof {
                assert(self@ == before + bytes@);
                assert(samples@.take(i + 1).drop_last() == samples@.take(i as int));
                assert(samples@.take(i + 1).last() == samples@[i as int]);
            }
            i = i + 1;
        }
        assert(samples@.take(samples.len() as int) == samples@);
    }

    /// Serves a read of exactly `byte_count` bytes: the oldest ones, where
    /// that many wait, and nothing, with the assembler left as it was,
    /// where they do not.
    pub fn take_exact(&mut self, byte_count: usize) -> (read: Option<Vec<u8>>)
        ensures
            read is Some <==> byte_count <= old(self)@.len(),
            read matches Some(bytes) ==> bytes@ == old(self)@.take(byte_count as int)
                && final(self)@ == old(self)@.skip(byte_count as int),
            read is None ==> final(self)@ == old(self)@,
    {
        if self.pending.len() < byte_count {
            return None;
        }
        let mut rest = self.pending.split_off(byte_count);
        std::mem::swap(&mut self.pending, &mut rest);
        Some(rest)
    }
}

} // verus!
