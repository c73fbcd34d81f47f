use vstd::prelude::*;
use crate::entry::{AccessType, LocationType, MemoryAccessEntry};
use crate::flags::EqualityFlags;
use crate::snapshot::InitialMemorySnapshot;

verus! {

// Each rule looks at an entry `e`, the flags of `e` against the real entry
// just before it, and, where the flags say that both touch one address
// group, at that entry `prev`. Each is true where the rule is broken.

/// Only the first access to a group may be an initialisation.
pub open spec fn init_not_first_spec(f: EqualityFlags, e: MemoryAccessEntry) -> bool {
    f.same_offset && e.atype == AccessType::Init
}

/// The first access to a heap group must be its initialisation.
pub open spec fn heap_first_not_init_spec(f: EqualityFlags, e: MemoryAccessEntry) -> bool {
    !f.same_offset && e.ltype == LocationType::Heap && e.atype != AccessType::Init
}

/// The first access to a stack group must not be a read.
pub open spec fn stack_first_read_spec(f: EqualityFlags, e: MemoryAccessEntry) -> bool {
    !f.same_offset && e.ltype == LocationType::Stack && e.atype == AccessType::Read
}

/// A read returns the value and type that the previous access to its group
/// left.
pub open spec fn read_changed_spec(
    f: EqualityFlags,
    prev: MemoryAccessEntry,
    e: MemoryAccessEntry,
) -> bool {
    f.same_offset && e.atype == AccessType::Read && (e.value != prev.value || e.vtype != prev.vtype)
}

/// A heap initialisation takes its value from the initial memory image.
pub open spec fn init_not_in_image_spec(
    f: EqualityFlags,
    e: MemoryAccessEntry,
    snapshot: InitialMemorySnapshot,
) -> bool {
    !f.same_offset && e.ltype == LocationType::Heap && e.atype == AccessType::Init
        && snapshot.value_at(e.mmid, e.offset) != Some(e.value)
}

pub fn init_not_first(f: &EqualityFlags, e: &MemoryAccessEntry) -> (r: bool)
    ensures
        r == init_not_first_spec(*f, *e),
{
    f.same_offset && matches!(e.atype, AccessType::Init)
}

pub fn heap_first_not_init(f: &EqualityFlags, e: &MemoryAccessEntry) -> (r: bool)
    ensures
        r == heap_first_not_init_spec(*f, *e),
{
    !f.same_offset && e.is_heap() && !matches!(e.atype, AccessType::Init)
}

pub fn stack_first_read(f: &EqualityFlags, e: &MemoryAccessEntry) -> (r: bool)
    ensures
        r == stack_first_read_spec(*f, *e),
{
    !f.same_offset && !e.is_heap() && matches!(e.atype, AccessType::Read)
}

pub fn read_changed(f: &EqualityFlags, prev: &MemoryAccessEntry, e: &MemoryAccessEntry) -> (r: bool)
    ensures
        r == read_changed_spec(*f, *prev, *e),
{
    f.same_offset && matches!(e.atype, AccessType::Read) && (e.value != prev.value || e.vtype
        != prev.vtype)
}

/// Also returns what the image holds at the entry's place.
pub fn init_not_in_image(
    f: &EqualityFlags,
    e: &MemoryAccessEntry,
    snapshot: &InitialMemorySnapshot,
) -> (r: (bool, Option<u64>))
    ensures
        r.0 == init_not_in_image_spec(*f, *e, *snapshot),
        r.1 == snapshot.value_at(e.mmid, e.offset),
{
    let image = snapshot.get(e.mmid, e.offset);
    let differs = match image {
        Some(v) => v != e.value,
        None => true,
    };
    (!f.same_offset && e.is_heap() && matches!(e.atype, AccessType::Init) && differs, image)
}

} // verus!
