use vstd::prelude::*;
use crate::entry::MemoryAccessEntry;

verus! {

/// How much of the ordering key two consecutive entries share. Each flag
/// holds only where the one before it holds.
#[derive(Clone, Copy, Debug, PartialEq, Eq, Structural)]
pub struct EqualityFlags {
    pub same_ltype: bool,
    pub same_mmid: bool,
    pub same_offset: bool,
    pub same_eid: bool,
}

/// The flags of `cur` against the entry `prev` just before it.
pub open spec fn flags_spec(prev: MemoryAccessEntry, cur: MemoryAccessEntry) -> EqualityFlags {
    let same_ltype = prev.ltype == cur.ltype;
    let same_mmid = same_ltype && prev.mmid == cur.mmid;
    let same_offset = same_mmid && prev.offset == cur.offset;
    let same_eid = same_offset && prev.eid == cur.eid;
    EqualityFlags { same_ltype, same_mmid, same_offset, same_eid }
}

/// The flags of an entry that starts a run: nothing is shared.
pub open spec fn no_flags() -> EqualityFlags {
    EqualityFlags { same_ltype: false, same_mmid: false, same_offset: false, same_eid: false }
}

impl EqualityFlags {
    pub open spec fn is_nested_spec(self) -> bool {
        (self.same_mmid ==> self.same_ltype) && (self.same_offset ==> self.same_mmid) && (
        self.same_eid ==> self.same_offset)
    }

    /// True when each flag implies the one before it.
    pub fn is_nested(&self) -> (r: bool)
        ensures
            r == self.is_nested_spec(),
    {
        (!self.same_mmid || self.same_ltype) && (!self.same_offset || self.same_mmid) && (
        !self.same_eid || self.same_offset)
    }

    pub fn none() -> (r: EqualityFlags)
        ensures
            r == no_flags(),
    {
        EqualityFlags { same_ltype: false, same_mmid: false, same_offset: false, same_eid: false }
    }
}

/// Computes the flags of `cur` against `prev`.
pub fn equality_flags(prev: &MemoryAccessEntry, cur: &MemoryAccessEntry) -> (r: EqualityFlags)
    ensures
        r == flags_spec(*prev, *cur),
        r.is_nested_spec(),
        r.same_offset == prev.same_group(*cur),
{
    let same_ltype = prev.ltype == cur.ltype;
    let same_mmid = same_ltype && prev.mmid == cur.mmid;
    let same_offset = same_mmid && prev.offset == cur.offset;
    let same_eid = same_offset && prev.eid == cur.eid;
    EqualityFlags { same_ltype, same_mmid, same_offset, same_eid }
}

/// Accepts claimed flags only where they are the computed ones; flags that
/// are not nested are never accepted.
pub fn flags_match(prev: &MemoryAccessEntry, cur: &MemoryAccessEntry, claimed: &EqualityFlags) -> (r:
    bool)
    ensures
        r == (*claimed == flags_spec(*prev, *cur)),
        r ==> claimed.is_nested_spec(),
{
    let computed = equality_flags(prev, cur);
    computed.same_ltype == claimed.same_ltype && computed.same_mmid == claimed.same_mmid
        && computed.same_offset == claimed.same_offset && computed.same_eid == claimed.same_eid
}

} // verus!
