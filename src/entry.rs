use vstd::prelude::*;

verus! {

/// The address space that an access targets.
#[derive(Clone, Copy, Debug, PartialEq, Eq, Structural)]
pub enum LocationType {
    Heap,
    Stack,
}

/// The kind of an access.
#[derive(Clone, Copy, Debug, PartialEq, Eq, Structural)]
pub enum AccessType {
    Init,
    Read,
    Write,
}

/// The type tag of an accessed value, which fixes its width in bytes.
#[derive(Clone, Copy, Debug, PartialEq, Eq, Structural)]
pub enum VarType {
    U8,
    I8,
    U16,
    I16,
    U32,
    I32,
    U64,
    I64,
}

impl LocationType {
    /// Tag of the address space: heap 0, stack 1.
    pub open spec fn tag_spec(self) -> u64 {
        match self {
            LocationType::Heap => 0,
            LocationType::Stack => 1,
        }
    }

    pub fn tag(&self) -> (r: u64)
        ensures
            r == self.tag_spec(),
    {
        match self {
            LocationType::Heap => 0,
            LocationType::Stack => 1,
        }
    }
}

impl AccessType {
    /// Tag of the access kind: read 1, write 2, init 3.
    pub open spec fn tag_spec(self) -> u64 {
        match self {
            AccessType::Read => 1,
            AccessType::Write => 2,
            AccessType::Init => 3,
        }
    }

    pub fn tag(&self) -> (r: u64)
        ensures
            r == self.tag_spec(),
    {
        match self {
            AccessType::Read => 1,
            AccessType::Write => 2,
            AccessType::Init => 3,
        }
    }

    /// Reads and writes are the operations that the remaining-operations
    /// counter accounts for; initialisations are not.
    pub open spec fn is_mutating_spec(self) -> bool {
        self != AccessType::Init
    }

    pub fn is_mutating(&self) -> (r: bool)
        ensures
            r == self.is_mutating_spec(),
    {
        !matches!(self, AccessType::Init)
    }
}

impl VarType {
    /// Tag of the value type, from 0 for `U8` to 7 for `I64`.
    pub open spec fn tag_spec(self) -> u64 {
        match self {
            VarType::U8 => 0,
            VarType::I8 => 1,
            VarType::U16 => 2,
            VarType::I16 => 3,
            VarType::U32 => 4,
            VarType::I32 => 5,
            VarType::U64 => 6,
            VarType::I64 => 7,
        }
    }

    pub fn tag(&self) -> (r: u64)
        ensures
            r == self.tag_spec(),
    {
        match self {
            VarType::U8 => 0,
            VarType::I8 => 1,
            VarType::U16 => 2,
            VarType::I16 => 3,
            VarType::U32 => 4,
            VarType::I32 => 5,
            VarType::U64 => 6,
            VarType::I64 => 7,
        }
    }

    /// Width of a value of this type, in bytes.
    pub open spec fn byte_width_spec(self) -> u64 {
        match self {
            VarType::U8 | VarType::I8 => 1,
            VarType::U16 | VarType::I16 => 2,
            VarType::U32 | VarType::I32 => 4,
            VarType::U64 | VarType::I64 => 8,
        }
    }

    pub fn byte_width(&self) -> (r: u64)
        ensures
            r == self.byte_width_spec(),
            r == 1 || r == 2 || r == 4 || r == 8,
    {
        match self {
            VarType::U8 | VarType::I8 => 1,
            VarType::U16 | VarType::I16 => 2,
            VarType::U32 | VarType::I32 => 4,
            VarType::U64 | VarType::I64 => 8,
        }
    }
}

/// One row of a memory-access trace.
///
/// The field types bound each field, so that every field has its own band
/// in the ordering key.
#[derive(Clone, Copy, Debug, PartialEq, Eq, Structural)]
pub struct MemoryAccessEntry {
    /// Execution step of the access.
    pub eid: u32,
    /// Ordinal of the access within its step.
    pub emid: u16,
    /// Memory instance.
    pub mmid: u16,
    pub ltype: LocationType,
    /// Word index within the memory instance and address space.
    pub offset: u32,
    pub atype: AccessType,
    pub vtype: VarType,
    pub value: u64,
    /// False only for padding rows at the end of a trace.
    pub is_real: bool,
}

impl MemoryAccessEntry {
    pub fn new(
        ltype: LocationType,
        mmid: u16,
        offset: u32,
        eid: u32,
        emid: u16,
        atype: AccessType,
        vtype: VarType,
        value: u64,
    ) -> (r: MemoryAccessEntry)
        ensures
            r == (MemoryAccessEntry { eid, emid, mmid, ltype, offset, atype, vtype, value, is_real: true }),
    {
        MemoryAccessEntry { eid, emid, mmid, ltype, offset, atype, vtype, value, is_real: true }
    }

    /// A padding row: not real, and with every other field at its least value.
    pub fn padding() -> (r: MemoryAccessEntry)
        ensures
            !r.is_real,
            r.eid == 0 && r.emid == 0 && r.mmid == 0 && r.offset == 0 && r.value == 0,
            r.ltype == LocationType::Heap,
            r.atype == AccessType::Init,
            r.vtype == VarType::U8,
    {
        MemoryAccessEntry {
            eid: 0,
            emid: 0,
            mmid: 0,
            ltype: LocationType::Heap,
            offset: 0,
            atype: AccessType::Init,
            vtype: VarType::U8,
            value: 0,
            is_real: false,
        }
    }

    pub open spec fn is_heap_spec(self) -> bool {
        self.ltype == LocationType::Heap
    }

    pub fn is_heap(&self) -> (r: bool)
        ensures
            r == self.is_heap_spec(),
    {
        matches!(self.ltype, LocationType::Heap)
    }

    pub fn byte_width(&self) -> (r: u64)
        ensures
            r == self.vtype.byte_width_spec(),
    {
        self.vtype.byte_width()
    }

    /// The address group of the access: address space, memory instance and
    /// offset.
    pub open spec fn same_group(self, other: MemoryAccessEntry) -> bool {
        self.ltype == other.ltype && self.mmid == other.mmid && self.offset == other.offset
    }
}

} // verus!
