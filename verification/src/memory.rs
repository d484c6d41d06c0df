//! The memory interface: an externally supplied capability mapping
//! (bank, offset) pairs to byte-level reads and writes.  The cartridge or
//! mapping subsystem behind it is a collaborator, not implemented here; this
//! module states the contract such an implementation must meet, and provides
//! one simple in-memory implementation so that the core can be driven and
//! tested without external hardware.

use vstd::prelude::*;

verus! {

/// Byte-level memory addressed by an 8-bit bank and a 16-bit offset.
///
/// `byte_at` is the implementation's model of its own contents: a total
/// function, so reads never fail — fault handling for unmapped regions is
/// the implementor's responsibility (commonly by returning a defined value).
/// `read` must return exactly that byte, and `write` must change exactly the
/// addressed cell.
pub trait Mapper: Sized {
    /// The byte currently visible at `(bank, offset)`.
    spec fn byte_at(&self, bank: u8, offset: u16) -> u8;

    /// Read one byte.  Total: every `(bank, offset)` pair yields a byte.
    fn read(&self, bank: u8, offset: u16) -> (b: u8)
        ensures
            b == self.byte_at(bank, offset),
    ;

    /// Write one byte, leaving every other cell unchanged.
    fn write(&mut self, bank: u8, offset: u16, value: u8)
        ensures
            forall|bk: u8, of: u16|
                #[trigger] final(self).byte_at(bk, of) == if bk == bank && of == offset {
                    value
                } else {
                    old(self).byte_at(bk, of)
                },
    ;
}

/// A flat memory that starts zeroed and remembers every write: the byte at a
/// cell is the value of the most recent write to it, or zero if the cell was
/// never written.
pub struct Memory {
    writes: Vec<(u8, u16, u8)>,
}

impl Memory {
    /// The byte visible at `(bank, offset)` after the recorded sequence of
    /// writes `s`: the last matching write wins, and an unwritten cell holds
    /// zero.
    spec fn lookup(s: Seq<(u8, u16, u8)>, bank: u8, offset: u16) -> u8
        decreases s.len(),
    {
        if s.len() == 0 {
            0
        } else if s.last().0 == bank && s.last().1 == offset {
            s.last().2
        } else {
            Memory::lookup(s.drop_last(), bank, offset)
        }
    }

    /// A memory with every cell zero.
    pub fn new() -> (m: Memory)
        ensures
            forall|bk: u8, of: u16| #[trigger] m.byte_at(bk, of) == 0,
    {
        Memory { writes: Vec::new() }
    }
}

impl Mapper for Memory {
    closed spec fn byte_at(&self, bank: u8, offset: u16) -> u8 {
        Memory::lookup(self.writes@, bank, offset)
    }

    fn read(&self, bank: u8, offset: u16) -> (b: u8) {
        let ghost s = self.writes@;
        let mut i: usize = self.writes.len();
        proof {
            assert(s.take(s.len() as int) =~= s);
        }
        while i > 0
            invariant
                i <= self.writes.len(),
                s == self.writes@,
                Memory::lookup(s, bank, offset) == Memory::lookup(s.take(i as int), bank, offset),
            decreases i,
        {
            i = i - 1;
            let entry = self.writes[i];
            proof {
                assert(s.take(i + 1).last() == s[i as int]);
                assert(s.take(i + 1).drop_last() =~= s.take(i as int));
            }
            if entry.0 == bank && entry.1 == offset {
                return entry.2;
            }
        }
        0
    }

    fn write(&mut self, bank: u8, offset: u16, value: u8) {
        let ghost s = self.writes@;
        self.writes.push((bank, offset, value));
        proof {
            assert forall|bk: u8, of: u16|
                #[trigger] self.byte_at(bk, of) == if bk == bank && of == offset {
                    value
                } else {
                    Memory::lookup(s, bk, of)
                } by {
                assert(self.writes@.drop_last() =~= s);
            }
        }
    }
}

} // verus!
