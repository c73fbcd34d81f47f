use vstd::prelude::*;
use crate::entry::{MemoryAccessEntry, VarType};
use crate::rules::{
    heap_first_not_init,
    heap_first_not_init_spec,
    init_not_first,
    init_not_first_spec,
    init_not_in_image,
    init_not_in_image_spec,
    read_changed,
    read_changed_spec,
    stack_first_read,
    stack_first_read_spec,
};
use crate::flags::{equality_flags, flags_spec, no_flags, EqualityFlags};
use crate::key::{key_in_order, sort_key};
use crate::snapshot::InitialMemorySnapshot;
use crate::width::{fits_width, width_fits};
use crate::counter::{compute_rest_mops, rest_mops_at};

verus! {

/// Identifies the entry that a violation is about.
#[derive(Clone, Copy, Debug, PartialEq, Eq, Structural)]
pub struct AccessId {
    pub eid: u32,
    pub emid: u16,
    pub mmid: u16,
    pub offset: u32,
}

/// The rule that an entry, or a counter value, breaks.
#[derive(Clone, Copy, Debug, PartialEq, Eq, Structural)]
pub enum ViolationKind {
    /// A real entry follows a padding row.
    RealAfterPadding,
    /// The key does not increase from the previous real entry.
    OutOfOrder,
    /// An initialisation that is not the first access to its group.
    DuplicateInit,
    /// The first access to a group is not allowed there: on the heap it
    /// must be an initialisation, on the stack it must not be a read.
    MissingInit,
    /// A read that does not return the value and type left by the previous
    /// access to its group.
    ReadMismatch { expected_value: u64, expected_vtype: VarType, value: u64, vtype: VarType },
    /// A heap initialisation whose value is not the one of the initial
    /// memory image, or of which the image has no value.
    SnapshotMismatch { image_value: Option<u64>, value: u64 },
    /// A counter value that is not the number of reads and writes from
    /// that position on.
    CounterMismatch { expected: u64, actual: u64 },
    /// A value with a non-zero byte lane above its declared width.
    WidthOverflow { width: u64, value: u64 },
}

/// One violation: where it was found, which entry, and which rule.
#[derive(Clone, Copy, Debug, PartialEq, Eq, Structural)]
pub struct Violation {
    /// Position in the log; for a counter value, position in the counter
    /// column, whose last position lies just past the log.
    pub index: usize,
    /// The entry at that position; `None` just past the log.
    pub access: Option<AccessId>,
    pub kind: ViolationKind,
}

pub open spec fn access_id(e: MemoryAccessEntry) -> AccessId {
    AccessId { eid: e.eid, emid: e.emid, mmid: e.mmid, offset: e.offset }
}

/// Whether entry `i` has a real entry just before it.
pub open spec fn has_prev(log: Seq<MemoryAccessEntry>, i: int) -> bool {
    i > 0 && log[i - 1].is_real
}

/// The entry that entry `i` is compared with: the one before it where that
/// is real, else itself.
pub open spec fn prev_entry(log: Seq<MemoryAccessEntry>, i: int) -> MemoryAccessEntry {
    if has_prev(log, i) {
        log[i - 1]
    } else {
        log[i]
    }
}

/// The equality flags of entry `i`: nothing is shared at the start of the
/// log or after padding.
pub open spec fn prev_flags(log: Seq<MemoryAccessEntry>, i: int) -> EqualityFlags {
    if has_prev(log, i) {
        flags_spec(log[i - 1], log[i])
    } else {
        no_flags()
    }
}

pub open spec fn opt_violation(c: bool, v: Violation) -> Seq<Violation> {
    if c {
        seq![v]
    } else {
        Seq::empty()
    }
}

/// The first access to a group is not one that the group's state allows.
pub open spec fn missing_init(log: Seq<MemoryAccessEntry>, i: int) -> bool {
    heap_first_not_init_spec(prev_flags(log, i), log[i]) || stack_first_read_spec(
        prev_flags(log, i),
        log[i],
    )
}

pub open spec fn read_mismatch(log: Seq<MemoryAccessEntry>, i: int) -> bool {
    read_changed_spec(prev_flags(log, i), prev_entry(log, i), log[i])
}

pub open spec fn snapshot_mismatch(
    log: Seq<MemoryAccessEntry>,
    snapshot: InitialMemorySnapshot,
    i: int,
) -> bool {
    init_not_in_image_spec(prev_flags(log, i), log[i], snapshot)
}

/// The violations of entry `i`, in a fixed order of rules. Padding rows
/// break none of these rules.
pub open spec fn entry_violations(
    log: Seq<MemoryAccessEntry>,
    snapshot: InitialMemorySnapshot,
    i: int,
) -> Seq<Violation> {
    let e = log[i];
    let p = prev_entry(log, i);
    let f = prev_flags(log, i);
    let at = |k: ViolationKind| Violation { index: i as usize, access: Some(access_id(e)), kind: k };
    if !e.is_real {
        Seq::empty()
    } else {
        Seq::<Violation>::empty() + opt_violation(i > 0 && !log[i - 1].is_real, at(ViolationKind::RealAfterPadding))
            + opt_violation(has_prev(log, i) && sort_key(e) <= sort_key(p), at(ViolationKind::OutOfOrder))
            + opt_violation(init_not_first_spec(f, e), at(ViolationKind::DuplicateInit))
            + opt_violation(missing_init(log, i), at(ViolationKind::MissingInit))
            + opt_violation(read_mismatch(log, i), at(ViolationKind::ReadMismatch {
                expected_value: p.value,
                expected_vtype: p.vtype,
                value: e.value,
                vtype: e.vtype,
            }))
            + opt_violation(snapshot_mismatch(log, snapshot, i), at(ViolationKind::SnapshotMismatch {
                image_value: snapshot.value_at(e.mmid, e.offset),
                value: e.value,
            }))
            + opt_violation(!fits_width(e.value, e.vtype.byte_width_spec()), at(ViolationKind::WidthOverflow {
                width: e.vtype.byte_width_spec(),
                value: e.value,
            }))
    }
}

/// The violation of counter position `p`, if its value is wrong.
pub open spec fn counter_violation(
    log: Seq<MemoryAccessEntry>,
    rest_mops: Seq<u64>,
    p: int,
) -> Seq<Violation> {
    opt_violation(rest_mops[p] != rest_mops_at(log, p as nat), Violation {
        index: p as usize,
        access: if p < log.len() { Some(access_id(log[p])) } else { None },
        kind: ViolationKind::CounterMismatch {
            expected: rest_mops_at(log, p as nat) as u64,
            actual: rest_mops[p],
        },
    })
}

/// The violations found at position `p`: those of the entry there, if
/// any, then that of the counter.
pub open spec fn position_violations(
    log: Seq<MemoryAccessEntry>,
    snapshot: InitialMemorySnapshot,
    rest_mops: Seq<u64>,
    p: int,
) -> Seq<Violation> {
    (if p < log.len() {
        entry_violations(log, snapshot, p)
    } else {
        Seq::empty()
    }) + counter_violation(log, rest_mops, p)
}

/// The violations of positions `0 .. k`, in order of position.
pub open spec fn violations_upto(
    log: Seq<MemoryAccessEntry>,
    snapshot: InitialMemorySnapshot,
    rest_mops: Seq<u64>,
    k: nat,
) -> Seq<Violation>
    decreases k,
{
    if k == 0 {
        Seq::empty()
    } else {
        violations_upto(log, snapshot, rest_mops, (k - 1) as nat) + position_violations(
            log,
            snapshot,
            rest_mops,
            k - 1,
        )
    }
}

/// Every violation of a log with its counter column, which holds one value
/// per entry and one for the end of the log.
pub open spec fn log_violations(
    log: Seq<MemoryAccessEntry>,
    snapshot: InitialMemorySnapshot,
    rest_mops: Seq<u64>,
) -> Seq<Violation> {
    violations_upto(log, snapshot, rest_mops, log.len() + 1)
}

/// The counter column that a log must carry.
pub open spec fn expected_rest_mops(log: Seq<MemoryAccessEntry>) -> Seq<u64> {
    Seq::new((log.len() + 1) as nat, |p: int| rest_mops_at(log, p as nat) as u64)
}

fn push_if(out: &mut Vec<Violation>, c: bool, v: Violation)
    ensures
        final(out)@ == old(out)@ + opt_violation(c, v),
{
    if c {
        out.push(v);
    } else {
        assert(old(out)@ + Seq::<Violation>::empty() =~= old(out)@);
    }
}

/// The violations of entry `i` of `log`.
pub fn check_entry(log: &Vec<MemoryAccessEntry>, snapshot: &InitialMemorySnapshot, i: usize) -> (r:
    Vec<Violation>)
    requires
        i < log@.len(),
    ensures
        r@ == entry_violations(log@, *snapshot, i as int),
{
    let e = &log[i];
    let mut out: Vec<Violation> = Vec::new();
    if !e.is_real {
        return out;
    }
    let has_prev = i > 0 && log[i - 1].is_real;
    let p = if has_prev {
        log[i - 1]
    } else {
        *e
    };
    let f = if has_prev {
        equality_flags(&p, e)
    } else {
        EqualityFlags::none()
    };
    let id = AccessId { eid: e.eid, emid: e.emid, mmid: e.mmid, offset: e.offset };
    let at_index = |k: ViolationKind| -> (v: Violation)
        ensures
            v == (Violation { index: i, access: Some(id), kind: k }),
        { Violation { index: i, access: Some(id), kind: k } };
    push_if(&mut out, i > 0 && !log[i - 1].is_real, at_index(ViolationKind::RealAfterPadding));
    push_if(&mut out, has_prev && !key_in_order(&p, e), at_index(ViolationKind::OutOfOrder));
    push_if(&mut out, init_not_first(&f, e), at_index(ViolationKind::DuplicateInit));
    let missing = heap_first_not_init(&f, e) || stack_first_read(&f, e);
    push_if(&mut out, missing, at_index(ViolationKind::MissingInit));
    push_if(
        &mut out,
        read_changed(&f, &p, e),
        at_index(
            ViolationKind::ReadMismatch {
                expected_value: p.value,
                expected_vtype: p.vtype,
                value: e.value,
                vtype: e.vtype,
            },
        ),
    );
    let (wrong_init, image) = init_not_in_image(&f, e, snapshot);
    push_if(
        &mut out,
        wrong_init,
        at_index(ViolationKind::SnapshotMismatch { image_value: image, value: e.value }),
    );
    let width = e.byte_width();
    push_if(
        &mut out,
        !width_fits(e.value, &e.vtype),
        at_index(ViolationKind::WidthOverflow { width, value: e.value }),
    );
    out
}

/// Every violation of `log` against the initial memory image `snapshot`
/// and the counter column `rest_mops`, in order of position, and at each
/// position in the order of the rules. The log is valid exactly when none
/// is returned.
pub fn check_log(
    log: &Vec<MemoryAccessEntry>,
    snapshot: &InitialMemorySnapshot,
    rest_mops: &Vec<u64>,
) -> (r: Vec<Violation>)
    requires
        rest_mops@.len() == log@.len() + 1,
    ensures
        r@ == log_violations(log@, *snapshot, rest_mops@),
{
    let expected = compute_rest_mops(log);
    let n = log.len();
    let total = rest_mops.len();
    let mut out: Vec<Violation> = Vec::new();
    let mut p: usize = 0;
    while p < total
        invariant
            n == log@.len(),
            total == n + 1,
            total == rest_mops@.len(),
            p <= total,
            expected@.len() == n + 1,
            forall|q: int| 0 <= q <= n ==> expected@[q] == rest_mops_at(log@, q as nat),
            out@ == violations_upto(log@, *snapshot, rest_mops@, p as nat),
        decreases total - p,
    {
        let mut here = if p < n {
            check_entry(log, snapshot, p)
        } else {
            Vec::new()
        };
        let access = if p < n {
            Some(AccessId { eid: log[p].eid, emid: log[p].emid, mmid: log[p].mmid, offset: log[p].offset })
        } else {
            None
        };
        push_if(
            &mut here,
            rest_mops[p] != expected[p],
            Violation {
                index: p,
                access,
                kind: ViolationKind::CounterMismatch { expected: expected[p], actual: rest_mops[p] },
            },
        );
        out.append(&mut here);
        p = p + 1;
    }
    out
}

/// Every violation of `log` against `snapshot`, with the counter column
/// that the log itself implies; no counter violation is found.
pub fn check_trace(log: &Vec<MemoryAccessEntry>, snapshot: &InitialMemorySnapshot) -> (r: Vec<
    Violation,
>)
    ensures
        r@ == log_violations(log@, *snapshot, expected_rest_mops(log@)),
{
    let rest = compute_rest_mops(log);
    assert(rest@ =~= expected_rest_mops(log@));
    check_log(log, snapshot, &rest)
}

/// True when `log` breaks no rule against `snapshot` and `rest_mops`.
pub fn is_valid_log(
    log: &Vec<MemoryAccessEntry>,
    snapshot: &InitialMemorySnapshot,
    rest_mops: &Vec<u64>,
) -> (r: bool)
    requires
        rest_mops@.len() == log@.len() + 1,
    ensures
        r == (log_violations(log@, *snapshot, rest_mops@).len() == 0),
{
    check_log(log, snapshot, rest_mops).len() == 0
}

} // verus!
