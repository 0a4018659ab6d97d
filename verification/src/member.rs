//! Materialized archive members.
//!
//! The downstream decoder needs random access, while archive members are
//! only exposed as forward-only decompression streams.  The materializer
//! resolves that mismatch by copying a member's decompressed bytes into a
//! [`MaterializedMember`]: an owned, seekable, finite byte buffer whose
//! read position starts at the beginning.

use vstd::prelude::*;

verus! {

/// An owned, seekable byte buffer holding one member's fully decompressed
/// contents, with an explicit read position.
#[derive(Clone, Debug)]
pub struct MaterializedMember {
    pub data: Vec<u8>,
    pub pos: usize,
}

/// The bytes still ahead of the member's read position.
pub open spec fn remaining_bytes(m: MaterializedMember) -> Seq<u8> {
    m.data@.skip(m.pos as int)
}

impl MaterializedMember {
    /// The read position never passes the end of the buffer.
    pub open spec fn wf(self) -> bool {
        self.pos <= self.data@.len()
    }

    /// Wraps freshly extracted bytes, with the read position reset to the
    /// start so that callers who read immediately need not seek first.
    pub fn new(data: Vec<u8>) -> (m: Self)
        ensures
            m.data@ == data@,
            m.pos == 0,
            m.wf(),
    {
        MaterializedMember { data, pos: 0 }
    }

    /// Total size of the buffer, independent of the read position.
    pub fn len(&self) -> (n: usize)
        ensures
            n == self.data@.len(),
    {
        self.data.len()
    }

    /// Moves the read position to an absolute offset.
    pub fn seek_to(&mut self, pos: usize)
        requires
            pos <= old(self).data@.len(),
        ensures
            final(self).data == old(self).data,
            final(self).pos == pos,
            final(self).wf(),
    {
        self.pos = pos;
    }

    /// Reads every byte from the current position to the end, leaving the
    /// position at the end of the buffer.
    pub fn read_to_end(&mut self) -> (bytes: Vec<u8>)
        requires
            old(self).wf(),
        ensures
            bytes@ == remaining_bytes(*old(self)),
            final(self).data == old(self).data,
            final(self).pos == final(self).data@.len(),
    {
        let n = self.data.len();
        let mut bytes: Vec<u8> = Vec::new();
        let mut i = self.pos;
        while i < n
            invariant
                n == self.data@.len(),
                old(self).pos <= i <= n,
                self.data == old(self).data,
                self.pos == old(self).pos,
                bytes@ == self.data@.subrange(old(self).pos as int, i as int),
            decreases n - i,
        {
            bytes.push(self.data[i]);
            proof {
                assert(self.data@.subrange(old(self).pos as int, i as int + 1)
                    =~= self.data@.subrange(old(self).pos as int, i as int).push(
                    self.data@[i as int],
                ));
            }
            i = i + 1;
        }
        proof {
            assert(self.data@.subrange(old(self).pos as int, n as int) =~= remaining_bytes(
                *old(self),
            ));
        }
        self.pos = n;
        bytes
    }

    /// Surrenders the underlying buffer, e.g. to hand it to the decoder.
    pub fn into_bytes(self) -> (bytes: Vec<u8>)
        ensures
            bytes@ == self.data@,
    {
        self.data
    }
}

/// Round trip: a member fresh from materialization - its buffer holding
/// the decompressed source bytes and its position at the start - reads
/// back byte-for-byte the same content as the source.
pub proof fn lemma_member_round_trip(m: MaterializedMember, source: Seq<u8>)
    requires
        m.data@ == source,
        m.pos == 0,
    ensures
        remaining_bytes(m) == source,
{
    assert(m.data@.skip(0) =~= m.data@);
}

} // verus!
