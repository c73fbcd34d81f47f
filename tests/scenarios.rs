use mtable::checker::{check_log, check_trace, is_valid_log, AccessId, Violation, ViolationKind};
use mtable::counter::compute_rest_mops;
use mtable::entry::{AccessType, LocationType, MemoryAccessEntry, VarType};
use mtable::snapshot::InitialMemorySnapshot;

fn entry(
    ltype: LocationType,
    mmid: u16,
    offset: u32,
    eid: u32,
    atype: AccessType,
    value: u64,
) -> MemoryAccessEntry {
    MemoryAccessEntry::new(ltype, mmid, offset, eid, 0, atype, VarType::I64, value)
}

fn kinds(v: &[Violation]) -> Vec<ViolationKind> {
    v.iter().map(|x| x.kind).collect()
}

fn snapshot_1_0(value: u64) -> InitialMemorySnapshot {
    let mut s = InitialMemorySnapshot::new();
    s.insert(1, 0, value);
    s
}

#[test]
fn heap_init_then_matching_read_is_valid() {
    let log = vec![
        entry(LocationType::Heap, 1, 0, 1, AccessType::Init, 5),
        entry(LocationType::Heap, 1, 0, 2, AccessType::Read, 5),
    ];
    let snap = snapshot_1_0(5);
    assert!(check_trace(&log, &snap).is_empty());
    let rest = compute_rest_mops(&log);
    assert_eq!(rest, vec![1, 1, 0]);
    assert!(is_valid_log(&log, &snap, &rest));
}

#[test]
fn read_with_changed_value_is_read_mismatch() {
    let log = vec![
        entry(LocationType::Heap, 1, 0, 1, AccessType::Init, 5),
        entry(LocationType::Heap, 1, 0, 2, AccessType::Read, 6),
    ];
    let snap = snapshot_1_0(5);
    let v = check_trace(&log, &snap);
    assert_eq!(
        v,
        vec![Violation {
            index: 1,
            access: Some(AccessId { eid: 2, emid: 0, mmid: 1, offset: 0 }),
            kind: ViolationKind::ReadMismatch {
                expected_value: 5,
                expected_vtype: VarType::I64,
                value: 6,
                vtype: VarType::I64,
            },
        }]
    );
}

#[test]
fn read_with_changed_vtype_is_read_mismatch() {
    let mut second = entry(LocationType::Heap, 1, 0, 2, AccessType::Read, 5);
    second.vtype = VarType::I32;
    let log = vec![entry(LocationType::Heap, 1, 0, 1, AccessType::Init, 5), second];
    let v = check_trace(&log, &snapshot_1_0(5));
    assert_eq!(v.len(), 1);
    assert!(matches!(v[0].kind, ViolationKind::ReadMismatch { .. }));
}

#[test]
fn heap_read_without_init_is_missing_init() {
    let log = vec![entry(LocationType::Heap, 1, 0, 1, AccessType::Read, 0)];
    let v = check_trace(&log, &snapshot_1_0(5));
    assert_eq!(kinds(&v), vec![ViolationKind::MissingInit]);
    assert_eq!(v[0].index, 0);
}

#[test]
fn heap_write_without_init_is_missing_init() {
    let log = vec![entry(LocationType::Heap, 1, 0, 1, AccessType::Write, 3)];
    let v = check_trace(&log, &InitialMemorySnapshot::new());
    assert_eq!(kinds(&v), vec![ViolationKind::MissingInit]);
}

#[test]
fn stack_read_first_is_missing_init() {
    let log = vec![entry(LocationType::Stack, 1, 0, 1, AccessType::Read, 0)];
    let v = check_trace(&log, &InitialMemorySnapshot::new());
    assert_eq!(kinds(&v), vec![ViolationKind::MissingInit]);
}

#[test]
fn init_after_stack_write_is_duplicate_init() {
    let log = vec![
        entry(LocationType::Stack, 1, 0, 1, AccessType::Write, 9),
        entry(LocationType::Stack, 1, 0, 2, AccessType::Init, 0),
    ];
    let v = check_trace(&log, &InitialMemorySnapshot::new());
    assert_eq!(kinds(&v), vec![ViolationKind::DuplicateInit]);
    assert_eq!(v[0].index, 1);
    assert_eq!(v[0].access, Some(AccessId { eid: 2, emid: 0, mmid: 1, offset: 0 }));
}

#[test]
fn counter_counts_reads_and_writes_down_to_zero() {
    let log = vec![
        entry(LocationType::Heap, 1, 0, 1, AccessType::Write, 0),
        entry(LocationType::Heap, 1, 0, 2, AccessType::Read, 0),
        entry(LocationType::Stack, 1, 0, 3, AccessType::Write, 7),
        entry(LocationType::Stack, 1, 0, 4, AccessType::Read, 7),
    ];
    assert_eq!(compute_rest_mops(&log), vec![4, 3, 2, 1, 0]);
}

#[test]
fn counter_skips_init_and_padding() {
    let log = vec![
        entry(LocationType::Heap, 1, 0, 1, AccessType::Init, 5),
        entry(LocationType::Heap, 1, 0, 2, AccessType::Write, 6),
        entry(LocationType::Stack, 1, 0, 3, AccessType::Init, 0),
        MemoryAccessEntry::padding(),
        MemoryAccessEntry::padding(),
    ];
    assert_eq!(compute_rest_mops(&log), vec![1, 1, 0, 0, 0, 0]);
}

#[test]
fn empty_log_is_valid() {
    let log: Vec<MemoryAccessEntry> = Vec::new();
    assert_eq!(compute_rest_mops(&log), vec![0]);
    assert!(check_trace(&log, &InitialMemorySnapshot::new()).is_empty());
}

#[test]
fn wrong_counter_is_counter_mismatch() {
    let log = vec![
        entry(LocationType::Stack, 1, 0, 1, AccessType::Write, 9),
        entry(LocationType::Stack, 1, 0, 2, AccessType::Read, 9),
    ];
    let snap = InitialMemorySnapshot::new();
    let v = check_log(&log, &snap, &vec![2, 1, 1]);
    assert_eq!(
        v,
        vec![Violation {
            index: 2,
            access: None,
            kind: ViolationKind::CounterMismatch { expected: 0, actual: 1 },
        }]
    );
    let v = check_log(&log, &snap, &vec![3, 1, 0]);
    assert_eq!(kinds(&v), vec![ViolationKind::CounterMismatch { expected: 2, actual: 3 }]);
    assert_eq!(v[0].access, Some(AccessId { eid: 1, emid: 0, mmid: 1, offset: 0 }));
    assert!(!is_valid_log(&log, &snap, &vec![3, 1, 0]));
}

#[test]
fn keys_out_of_order_are_reported() {
    let log = vec![
        entry(LocationType::Stack, 1, 0, 1, AccessType::Write, 1),
        entry(LocationType::Heap, 1, 0, 2, AccessType::Init, 5),
    ];
    let v = check_trace(&log, &snapshot_1_0(5));
    assert_eq!(kinds(&v), vec![ViolationKind::OutOfOrder]);
    assert_eq!(v[0].index, 1);
}

#[test]
fn equal_keys_are_out_of_order() {
    let log = vec![
        entry(LocationType::Stack, 1, 0, 1, AccessType::Write, 1),
        entry(LocationType::Stack, 1, 0, 1, AccessType::Write, 1),
    ];
    let v = check_trace(&log, &InitialMemorySnapshot::new());
    assert_eq!(kinds(&v), vec![ViolationKind::OutOfOrder]);
}

#[test]
fn heap_init_against_image() {
    let log = vec![entry(LocationType::Heap, 1, 0, 1, AccessType::Init, 4)];
    let v = check_trace(&log, &snapshot_1_0(5));
    assert_eq!(
        kinds(&v),
        vec![ViolationKind::SnapshotMismatch { image_value: Some(5), value: 4 }]
    );
    let v = check_trace(&log, &InitialMemorySnapshot::new());
    assert_eq!(kinds(&v), vec![ViolationKind::SnapshotMismatch { image_value: None, value: 4 }]);
}

#[test]
fn stack_init_ignores_image() {
    let log = vec![entry(LocationType::Stack, 1, 0, 1, AccessType::Init, 4)];
    assert!(check_trace(&log, &InitialMemorySnapshot::new()).is_empty());
}

#[test]
fn value_wider_than_type_is_width_overflow() {
    let mut e = entry(LocationType::Stack, 1, 0, 1, AccessType::Write, 0x1_00);
    e.vtype = VarType::U8;
    let v = check_trace(&vec![e], &InitialMemorySnapshot::new());
    assert_eq!(kinds(&v), vec![ViolationKind::WidthOverflow { width: 1, value: 0x100 }]);
    e.value = 0xff;
    assert!(check_trace(&vec![e], &InitialMemorySnapshot::new()).is_empty());
}

#[test]
fn real_entry_after_padding_is_reported() {
    let log = vec![
        entry(LocationType::Stack, 1, 0, 1, AccessType::Write, 1),
        MemoryAccessEntry::padding(),
        entry(LocationType::Stack, 1, 1, 2, AccessType::Write, 1),
    ];
    let v = check_trace(&log, &InitialMemorySnapshot::new());
    assert_eq!(kinds(&v), vec![ViolationKind::RealAfterPadding]);
    assert_eq!(v[0].index, 2);
}

#[test]
fn every_violation_is_reported_in_order() {
    let mut wide = entry(LocationType::Heap, 2, 3, 7, AccessType::Read, 0x1_0000);
    wide.vtype = VarType::U16;
    let log = vec![
        entry(LocationType::Stack, 1, 0, 1, AccessType::Read, 0),
        entry(LocationType::Stack, 1, 0, 2, AccessType::Init, 0),
        wide,
    ];
    let v = check_trace(&log, &InitialMemorySnapshot::new());
    assert_eq!(
        kinds(&v),
        vec![
            ViolationKind::MissingInit,
            ViolationKind::DuplicateInit,
            ViolationKind::OutOfOrder,
            ViolationKind::MissingInit,
            ViolationKind::WidthOverflow { width: 2, value: 0x1_0000 },
        ]
    );
    assert_eq!(v.iter().map(|x| x.index).collect::<Vec<_>>(), vec![0, 1, 2, 2, 2]);
}

#[test]
fn several_groups_and_memories_are_valid() {
    let mut snap = InitialMemorySnapshot::new();
    snap.insert(0, 4, 10);
    snap.insert(1, 4, 20);
    let log = vec![
        entry(LocationType::Heap, 0, 4, 1, AccessType::Init, 10),
        entry(LocationType::Heap, 0, 4, 5, AccessType::Write, 11),
        entry(LocationType::Heap, 0, 4, 6, AccessType::Read, 11),
        entry(LocationType::Heap, 1, 4, 2, AccessType::Init, 20),
        entry(LocationType::Stack, 0, 0, 3, AccessType::Write, 1),
        entry(LocationType::Stack, 0, 0, 4, AccessType::Read, 1),
        MemoryAccessEntry::padding(),
    ];
    assert!(check_trace(&log, &snap).is_empty());
    assert_eq!(compute_rest_mops(&log), vec![4, 4, 3, 2, 2, 1, 0, 0]);
}
