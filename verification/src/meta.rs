//! Per-line occupancy marks for one block: a compact bitmap with one bit
//! per line, `LINE_COUNT` bits in all.
//!
//! A collector scans live objects, marks the lines they occupy, and later
//! reads the marks to find holes of unmarked lines worth recycling. The
//! bitmap is cleared wholesale at the start of each collection cycle.

use crate::LINE_COUNT;
use vstd::prelude::*;

verus! {

/// Number of bytes that hold the `LINE_COUNT` line-mark bits.
pub const LINE_MARK_BYTES: usize = 32;

/// Whether bit `i % 8` of byte `i / 8` is set in `marks`.
pub open spec fn line_bit(marks: Seq<u8>, i: int) -> bool {
    (marks[i / 8] >> ((i % 8) as u8)) & 1u8 == 1u8
}

/// Setting one bit of a byte raises that bit and leaves every other bit
/// of the byte as it was.
proof fn lemma_set_bit(b: u8, bit: u8)
    by (bit_vector)
    requires
        bit < 8,
    ensures
        ((b | (1u8 << bit)) >> bit) & 1u8 == 1u8,
        forall|k: u8| #![auto]
            k < 8 && k != bit ==> ((b | (1u8 << bit)) >> k) & 1u8 == (b >> k) & 1u8,
{
}

/// No bit of a zero byte is set.
proof fn lemma_zero_byte(bit: u8)
    by (bit_vector)
    ensures
        (0u8 >> bit) & 1u8 == 0u8,
{
}

/// The line-mark bitmap of one block.
pub struct BlockMeta {
    line_marks: Vec<u8>,
}

impl BlockMeta {
    /// Whether line `i` is marked as holding live data.
    pub closed spec fn spec_marked(&self, i: int) -> bool {
        line_bit(self.line_marks@, i)
    }

    /// The bitmap holds exactly one bit per line.
    pub closed spec fn wf(&self) -> bool {
        self.line_marks@.len() == LINE_MARK_BYTES
    }

    /// A fresh bitmap with every line unmarked.
    pub fn new() -> (m: BlockMeta)
        ensures
            m.wf(),
            forall|i: int| 0 <= i < LINE_COUNT ==> !m.spec_marked(i),
    {
        let mut v: Vec<u8> = Vec::new();
        let mut k: usize = 0;
        while k < LINE_MARK_BYTES
            invariant
                k <= LINE_MARK_BYTES,
                v@.len() == k,
                forall|j: int| 0 <= j < k ==> v@[j] == 0u8,
            decreases LINE_MARK_BYTES - k,
        {
            v.push(0u8);
            k = k + 1;
        }
        let m = BlockMeta { line_marks: v };
        proof {
            assert forall|i: int| 0 <= i < LINE_COUNT implies !m.spec_marked(i) by {
                let bit = (i % 8) as u8;
                lemma_zero_byte(bit);
            }
        }
        m
    }

    /// Records that line `index` holds live data. Every other line keeps
    /// its mark.
    pub fn mark_line(&mut self, index: usize)
        requires
            old(self).wf(),
            index < LINE_COUNT,
        ensures
            final(self).wf(),
            final(self).spec_marked(index as int),
            forall|j: int|
                0 <= j < LINE_COUNT && j != index ==> final(self).spec_marked(j) == old(
                    self,
                ).spec_marked(j),
    {
        let byte_index: usize = index / 8;
        let bit: u8 = (index % 8) as u8;
        let b: u8 = self.line_marks[byte_index];
        let nb: u8 = b | (1u8 << bit);
        self.line_marks.set(byte_index, nb);
        proof {
            lemma_set_bit(b, bit);
        }
    }

    /// Whether line `index` is marked as holding live data.
    pub fn is_marked(&self, index: usize) -> (r: bool)
        requires
            self.wf(),
            index < LINE_COUNT,
        ensures
            r == self.spec_marked(index as int),
    {
        let byte: u8 = self.line_marks[index / 8];
        let bit: u8 = (index % 8) as u8;
        ((byte >> bit) & 1u8) == 1u8
    }

    /// Clears every line mark, as done wholesale at the start of a
    /// collection cycle.
    pub fn clear_all(&mut self)
        requires
            old(self).wf(),
        ensures
            final(self).wf(),
            forall|i: int| 0 <= i < LINE_COUNT ==> !final(self).spec_marked(i),
    {
        let mut k: usize = 0;
        while k < LINE_MARK_BYTES
            invariant
                k <= LINE_MARK_BYTES,
                self.line_marks@.len() == LINE_MARK_BYTES,
                forall|j: int| 0 <= j < k ==> self.line_marks@[j] == 0u8,
            decreases LINE_MARK_BYTES - k,
        {
            self.line_marks.set(k, 0u8);
            k = k + 1;
        }
        proof {
            assert forall|i: int| 0 <= i < LINE_COUNT implies !self.spec_marked(i) by {
                let bit = (i % 8) as u8;
                lemma_zero_byte(bit);
            }
        }
    }
}

} // verus!
