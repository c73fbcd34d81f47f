use vstd::prelude::*;
use crate::entry::{AccessType, LocationType, MemoryAccessEntry};
use crate::key::{lemma_group_between, sort_key};
use crate::snapshot::InitialMemorySnapshot;
use crate::width::{fits_width, lanes_zero_from, lemma_width_containment, WidthFlags};
use crate::counter::{lemma_rest_zero_after, rest_mops_at};
use crate::checker::{
    entry_violations,
    has_prev,
    log_violations,
    missing_init,
    position_violations,
    prev_flags,
    read_mismatch,
    violations_upto,
    counter_violation,
};

verus! {

/// A log whose counter column has its length and which breaks no rule.
pub open spec fn is_valid(
    log: Seq<MemoryAccessEntry>,
    snapshot: InitialMemorySnapshot,
    rest_mops: Seq<u64>,
) -> bool {
    rest_mops.len() == log.len() + 1 && log_violations(log, snapshot, rest_mops).len() == 0
}

proof fn lemma_upto_empty(
    log: Seq<MemoryAccessEntry>,
    snapshot: InitialMemorySnapshot,
    rest_mops: Seq<u64>,
    k: nat,
    p: int,
)
    requires
        violations_upto(log, snapshot, rest_mops, k).len() == 0,
        0 <= p < k,
    ensures
        position_violations(log, snapshot, rest_mops, p).len() == 0,
    decreases k,
{
    if p < k - 1 {
        lemma_upto_empty(log, snapshot, rest_mops, (k - 1) as nat, p);
    }
}

/// An entry with no violation breaks none of the rules.
proof fn lemma_entry_clean(log: Seq<MemoryAccessEntry>, snapshot: InitialMemorySnapshot, p: int)
    requires
        0 <= p < log.len(),
        log[p].is_real,
        entry_violations(log, snapshot, p).len() == 0,
    ensures
        !(p > 0 && !log[p - 1].is_real),
        !(has_prev(log, p) && sort_key(log[p]) <= sort_key(log[p - 1])),
        !(prev_flags(log, p).same_offset && log[p].atype == AccessType::Init),
        !missing_init(log, p),
        !read_mismatch(log, p),
        fits_width(log[p].value, log[p].vtype.byte_width_spec()),
{
}

/// What a valid log gives at one position: no rule of the entry there
/// fires, and the counter there is right.
proof fn lemma_valid_at(
    log: Seq<MemoryAccessEntry>,
    snapshot: InitialMemorySnapshot,
    rest_mops: Seq<u64>,
    p: int,
)
    requires
        is_valid(log, snapshot, rest_mops),
        0 <= p <= log.len(),
    ensures
        rest_mops[p] == rest_mops_at(log, p as nat),
        p < log.len() && log[p].is_real ==> {
            &&& !(p > 0 && !log[p - 1].is_real)
            &&& !(has_prev(log, p) && sort_key(log[p]) <= sort_key(log[p - 1]))
            &&& !(prev_flags(log, p).same_offset && log[p].atype == AccessType::Init)
            &&& !missing_init(log, p)
            &&& !read_mismatch(log, p)
            &&& fits_width(log[p].value, log[p].vtype.byte_width_spec())
        },
{
    lemma_upto_empty(log, snapshot, rest_mops, log.len() + 1, p);
    let here = if p < log.len() {
        entry_violations(log, snapshot, p)
    } else {
        Seq::empty()
    };
    assert(position_violations(log, snapshot, rest_mops, p) == here + counter_violation(
        log,
        rest_mops,
        p,
    ));
    assert(counter_violation(log, rest_mops, p).len() == 0);
    if p < log.len() && log[p].is_real {
        assert(entry_violations(log, snapshot, p).len() == 0);
        lemma_entry_clean(log, snapshot, p);
    }
}

/// In a valid log the real entries come first.
proof fn lemma_real_prefix(
    log: Seq<MemoryAccessEntry>,
    snapshot: InitialMemorySnapshot,
    rest_mops: Seq<u64>,
    i: int,
    j: int,
)
    requires
        is_valid(log, snapshot, rest_mops),
        0 <= i <= j < log.len(),
        log[j].is_real,
    ensures
        log[i].is_real,
    decreases j - i,
{
    if i < j {
        lemma_valid_at(log, snapshot, rest_mops, j);
        lemma_real_prefix(log, snapshot, rest_mops, i, j - 1);
    }
}

/// In a valid log the keys of the real entries never decrease.
proof fn lemma_keys_monotone(
    log: Seq<MemoryAccessEntry>,
    snapshot: InitialMemorySnapshot,
    rest_mops: Seq<u64>,
    i: int,
    j: int,
)
    requires
        is_valid(log, snapshot, rest_mops),
        0 <= i <= j < log.len(),
        log[j].is_real,
    ensures
        sort_key(log[i]) <= sort_key(log[j]),
    decreases j - i,
{
    if i < j {
        lemma_valid_at(log, snapshot, rest_mops, j);
        lemma_real_prefix(log, snapshot, rest_mops, j - 1, j);
        lemma_keys_monotone(log, snapshot, rest_mops, i, j - 1);
    }
}

/// In a valid log the key strictly increases from each real entry to the
/// next real entry.
pub proof fn lemma_keys_increase(
    log: Seq<MemoryAccessEntry>,
    snapshot: InitialMemorySnapshot,
    rest_mops: Seq<u64>,
)
    requires
        is_valid(log, snapshot, rest_mops),
    ensures
        forall|i: int|
            0 <= i && i + 1 < log.len() && log[i].is_real && #[trigger] log[i + 1].is_real
                ==> sort_key(log[i]) < sort_key(log[i + 1]),
{
    assert forall|i: int|
        0 <= i && i + 1 < log.len() && log[i].is_real && #[trigger] log[i + 1].is_real implies sort_key(
        log[i],
    ) < sort_key(log[i + 1]) by {
        lemma_valid_at(log, snapshot, rest_mops, i + 1);
    }
}

proof fn lemma_heap_group_has_init(
    log: Seq<MemoryAccessEntry>,
    snapshot: InitialMemorySnapshot,
    rest_mops: Seq<u64>,
    j: int,
)
    requires
        is_valid(log, snapshot, rest_mops),
        0 <= j < log.len(),
        log[j].is_real,
        log[j].ltype == LocationType::Heap,
    ensures
        exists|i: int|
            0 <= i <= j && #[trigger] log[i].same_group(log[j]) && log[i].atype == AccessType::Init,
    decreases j,
{
    lemma_valid_at(log, snapshot, rest_mops, j);
    if prev_flags(log, j).same_offset {
        lemma_heap_group_has_init(log, snapshot, rest_mops, j - 1);
        let i = choose|i: int|
            0 <= i <= j - 1 && #[trigger] log[i].same_group(log[j - 1]) && log[i].atype
                == AccessType::Init;
        assert(log[i].same_group(log[j]));
    } else {
        assert(log[j].same_group(log[j]));
    }
}

/// In a valid log no access to a group after its first one is an
/// initialisation, and every heap group starts with its initialisation:
/// a heap group holds exactly one, as its first access.
pub proof fn lemma_single_init(
    log: Seq<MemoryAccessEntry>,
    snapshot: InitialMemorySnapshot,
    rest_mops: Seq<u64>,
)
    requires
        is_valid(log, snapshot, rest_mops),
    ensures
        forall|i: int, j: int|
            0 <= i < j < log.len() && log[j].is_real && #[trigger] log[i].same_group(log[j])
                ==> log[j].atype != AccessType::Init,
        forall|j: int|
            0 <= j < log.len() && #[trigger] log[j].is_real && log[j].ltype == LocationType::Heap
                ==> exists|i: int|
                0 <= i <= j && #[trigger] log[i].same_group(log[j]) && log[i].atype
                    == AccessType::Init,
{
    assert forall|i: int, j: int|
        0 <= i < j < log.len() && log[j].is_real && #[trigger] log[i].same_group(
            log[j],
        ) implies log[j].atype != AccessType::Init by {
        lemma_real_prefix(log, snapshot, rest_mops, j - 1, j);
        lemma_keys_monotone(log, snapshot, rest_mops, i, j - 1);
        lemma_keys_monotone(log, snapshot, rest_mops, j - 1, j);
        lemma_group_between(log[i], log[j - 1], log[j]);
        lemma_valid_at(log, snapshot, rest_mops, j);
    }
    assert forall|j: int|
        0 <= j < log.len() && #[trigger] log[j].is_real && log[j].ltype
            == LocationType::Heap implies exists|i: int|
        0 <= i <= j && #[trigger] log[i].same_group(log[j]) && log[i].atype == AccessType::Init by {
        lemma_heap_group_has_init(log, snapshot, rest_mops, j);
    }
}

/// In a valid log a read that follows an access to its group returns the
/// value and type of that access.
pub proof fn lemma_read_unchanged(
    log: Seq<MemoryAccessEntry>,
    snapshot: InitialMemorySnapshot,
    rest_mops: Seq<u64>,
)
    requires
        is_valid(log, snapshot, rest_mops),
    ensures
        forall|i: int|
            0 <= i < log.len() && log[i].is_real && #[trigger] prev_flags(log, i).same_offset
                && log[i].atype == AccessType::Read ==> log[i].value == log[i - 1].value
                && log[i].vtype == log[i - 1].vtype,
{
    assert forall|i: int|
        0 <= i < log.len() && log[i].is_real && #[trigger] prev_flags(log, i).same_offset
            && log[i].atype == AccessType::Read implies log[i].value == log[i - 1].value
        && log[i].vtype == log[i - 1].vtype by {
        lemma_valid_at(log, snapshot, rest_mops, i);
    }
}

/// In a valid log the counter is zero at every position from the one just
/// after the last real entry, drops by one over each real read or write,
/// and stays the same over each real initialisation.
pub proof fn lemma_counter(
    log: Seq<MemoryAccessEntry>,
    snapshot: InitialMemorySnapshot,
    rest_mops: Seq<u64>,
)
    requires
        is_valid(log, snapshot, rest_mops),
    ensures
        rest_mops[log.len() as int] == 0,
        forall|p: int|
            0 <= p <= log.len() && (forall|q: int| p <= q < log.len() ==> !(#[trigger] log[q]).is_real)
                ==> #[trigger] rest_mops[p] == 0,
        forall|p: int|
            0 <= p < log.len() && log[p].is_real && log[p].atype != AccessType::Init
                ==> #[trigger] rest_mops[p] == rest_mops[p + 1] + 1,
        forall|p: int|
            0 <= p < log.len() && log[p].is_real && log[p].atype == AccessType::Init
                ==> #[trigger] rest_mops[p] == rest_mops[p + 1],
{
    lemma_valid_at(log, snapshot, rest_mops, log.len() as int);
    assert forall|p: int|
        0 <= p <= log.len() && (forall|q: int| p <= q < log.len() ==> !(#[trigger] log[q]).is_real)
            implies #[trigger] rest_mops[p] == 0 by {
        lemma_valid_at(log, snapshot, rest_mops, p);
        lemma_rest_zero_after(log, p as nat);
    }
    assert forall|p: int| 0 <= p < log.len() && log[p].is_real implies (log[p].atype
        != AccessType::Init ==> #[trigger] rest_mops[p] == rest_mops[p + 1] + 1) && (log[p].atype
        == AccessType::Init ==> rest_mops[p] == rest_mops[p + 1]) by {
        lemma_valid_at(log, snapshot, rest_mops, p);
        lemma_valid_at(log, snapshot, rest_mops, p + 1);
    }
}

/// In a valid log every byte lane of a real entry's value above its
/// declared width is zero, and the width flags of every value type are
/// nested.
pub proof fn lemma_width_lanes(
    log: Seq<MemoryAccessEntry>,
    snapshot: InitialMemorySnapshot,
    rest_mops: Seq<u64>,
)
    requires
        is_valid(log, snapshot, rest_mops),
    ensures
        forall|i: int|
            0 <= i < log.len() && #[trigger] log[i].is_real ==> lanes_zero_from(
                log[i].value,
                log[i].vtype.byte_width_spec(),
            ),
        forall|i: int|
            0 <= i < log.len() ==> (#[trigger] WidthFlags::of_width(
                log[i].vtype.byte_width_spec(),
            )).is_nested_spec(),
{
    assert forall|i: int| 0 <= i < log.len() implies (#[trigger] log[i].is_real ==> lanes_zero_from(
        log[i].value,
        log[i].vtype.byte_width_spec(),
    )) && WidthFlags::of_width(log[i].vtype.byte_width_spec()).is_nested_spec() by {
        lemma_valid_at(log, snapshot, rest_mops, i);
        lemma_width_containment(log[i].value, log[i].vtype);
    }
}

} // verus!
