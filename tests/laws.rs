use mtable::checker::check_trace;
use mtable::counter::compute_rest_mops;
use mtable::entry::{AccessType, LocationType, MemoryAccessEntry, VarType};
use mtable::key::encode_key;
use mtable::snapshot::InitialMemorySnapshot;
use mtable::width::byte_lanes;

fn valid_log() -> (Vec<MemoryAccessEntry>, InitialMemorySnapshot) {
    let mut snap = InitialMemorySnapshot::new();
    snap.insert(0, 0, 3);
    snap.insert(0, 1, 0xab);
    let log = vec![
        MemoryAccessEntry::new(LocationType::Heap, 0, 0, 1, 0, AccessType::Init, VarType::I64, 3),
        MemoryAccessEntry::new(LocationType::Heap, 0, 0, 4, 0, AccessType::Read, VarType::I64, 3),
        MemoryAccessEntry::new(LocationType::Heap, 0, 0, 4, 1, AccessType::Write, VarType::U8, 9),
        MemoryAccessEntry::new(LocationType::Heap, 0, 1, 2, 0, AccessType::Init, VarType::U8, 0xab),
        MemoryAccessEntry::new(LocationType::Stack, 0, 7, 3, 0, AccessType::Write, VarType::U16, 0x1234),
        MemoryAccessEntry::new(LocationType::Stack, 0, 7, 5, 0, AccessType::Read, VarType::U16, 0x1234),
        MemoryAccessEntry::padding(),
    ];
    (log, snap)
}

#[test]
fn valid_log_keys_strictly_increase() {
    let (log, snap) = valid_log();
    assert!(check_trace(&log, &snap).is_empty());
    for i in 0..log.len() - 1 {
        if log[i].is_real && log[i + 1].is_real {
            assert!(encode_key(&log[i]) < encode_key(&log[i + 1]));
        }
    }
}

#[test]
fn valid_log_has_one_init_first_per_heap_group() {
    let (log, snap) = valid_log();
    assert!(check_trace(&log, &snap).is_empty());
    for j in 0..log.len() {
        if !log[j].is_real {
            continue;
        }
        let group: Vec<usize> = (0..log.len())
            .filter(|&i| {
                log[i].is_real
                    && log[i].ltype == log[j].ltype
                    && log[i].mmid == log[j].mmid
                    && log[i].offset == log[j].offset
            })
            .collect();
        let inits: Vec<usize> =
            group.iter().copied().filter(|&i| log[i].atype == AccessType::Init).collect();
        if log[j].ltype == LocationType::Heap {
            assert_eq!(inits, vec![group[0]]);
        } else {
            assert!(inits.is_empty() || inits == vec![group[0]]);
        }
    }
}

#[test]
fn valid_log_reads_repeat_the_previous_access() {
    let (log, snap) = valid_log();
    assert!(check_trace(&log, &snap).is_empty());
    for i in 1..log.len() {
        let same = log[i - 1].ltype == log[i].ltype
            && log[i - 1].mmid == log[i].mmid
            && log[i - 1].offset == log[i].offset;
        if log[i].is_real && same && log[i].atype == AccessType::Read {
            assert_eq!(log[i].value, log[i - 1].value);
            assert_eq!(log[i].vtype, log[i - 1].vtype);
        }
    }
}

#[test]
fn valid_log_counter_steps() {
    let (log, _) = valid_log();
    let rest = compute_rest_mops(&log);
    assert_eq!(rest, vec![4, 4, 3, 2, 2, 1, 0, 0]);
    for p in 0..log.len() {
        if !log[p].is_real {
            assert_eq!(rest[p], 0);
        } else if log[p].atype == AccessType::Init {
            assert_eq!(rest[p], rest[p + 1]);
        } else {
            assert_eq!(rest[p], rest[p + 1] + 1);
        }
    }
    assert_eq!(rest[log.len()], 0);
}

#[test]
fn valid_log_lanes_above_width_are_zero() {
    let (log, snap) = valid_log();
    assert!(check_trace(&log, &snap).is_empty());
    for e in log.iter().filter(|e| e.is_real) {
        let lanes = byte_lanes(e.value);
        for l in (e.byte_width() as usize)..8 {
            assert_eq!(lanes[l], 0);
        }
    }
}
