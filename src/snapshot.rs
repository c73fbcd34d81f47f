use vstd::prelude::*;

verus! {

/// One cell of an initial memory image.
#[derive(Clone, Copy, Debug, PartialEq, Eq, Structural)]
pub struct MemoryCell {
    pub mmid: u16,
    pub offset: u32,
    pub value: u64,
}

/// The value that `cells` gives to `(mmid, offset)`: that of the last cell
/// at that place, if any.
pub open spec fn lookup_cells(cells: Seq<MemoryCell>, mmid: u16, offset: u32) -> Option<u64>
    decreases cells.len(),
{
    if cells.len() == 0 {
        None
    } else {
        let last = cells.last();
        if last.mmid == mmid && last.offset == offset {
            Some(last.value)
        } else {
            lookup_cells(cells.drop_last(), mmid, offset)
        }
    }
}

/// The heap image supplied before any access of a trace, from
/// `(mmid, offset)` to a value.
pub struct InitialMemorySnapshot {
    cells: Vec<MemoryCell>,
}

impl InitialMemorySnapshot {
    pub closed spec fn cells(&self) -> Seq<MemoryCell> {
        self.cells@
    }

    /// The value at `(mmid, offset)`, or `None` where the image has none.
    pub open spec fn value_at(&self, mmid: u16, offset: u32) -> Option<u64> {
        lookup_cells(self.cells(), mmid, offset)
    }

    /// An empty image.
    pub fn new() -> (r: InitialMemorySnapshot)
        ensures
            forall|m: u16, o: u32| r.value_at(m, o) == None::<u64>,
    {
        InitialMemorySnapshot { cells: Vec::new() }
    }

    /// Sets the value at `(mmid, offset)`, replacing any earlier one.
    pub fn insert(&mut self, mmid: u16, offset: u32, value: u64)
        ensures
            final(self).value_at(mmid, offset) == Some(value),
            forall|m: u16, o: u32|
                !(m == mmid && o == offset) ==> #[trigger] final(self).value_at(m, o) == old(
                    self,
                ).value_at(m, o),
    {
        self.cells.push(MemoryCell { mmid, offset, value });
        proof {
            assert(self.cells@.drop_last() == old(self).cells@);
        }
    }

    /// Looks up the value at `(mmid, offset)`.
    pub fn get(&self, mmid: u16, offset: u32) -> (r: Option<u64>)
        ensures
            r == self.value_at(mmid, offset),
    {
        let mut i: usize = self.cells.len();
        proof {
            assert(self.cells@.subrange(0, i as int) == self.cells@);
        }
        while i > 0
            invariant
                i <= self.cells@.len(),
                lookup_cells(self.cells@, mmid, offset) == lookup_cells(
                    self.cells@.subrange(0, i as int),
                    mmid,
                    offset,
                ),
            decreases i,
        {
            let c = self.cells[i - 1];
            proof {
                assert(self.cells@.subrange(0, i as int).drop_last() == self.cells@.subrange(
                    0,
                    i - 1,
                ));
            }
            if c.mmid == mmid && c.offset == offset {
                return Some(c.value);
            }
            i = i - 1;
        }
        None
    }
}

} // verus!
