use counter_program::{increment_counter, initialize_account, ErrorKind, Identity, Record};

fn identity(n: u128) -> Identity {
    Identity { hi: n, lo: 0 }
}

#[test]
fn initialize_stores_little_endian_encoding() {
    let owner = identity(1);
    let mut record = Record { key: identity(2), owner, writable: true, data: vec![0; 8] };

    let result = record.initialize(&owner, 0x0807060504030201);
    assert_eq!(result, Ok(()));
    assert_eq!(record.data, vec![1, 2, 3, 4, 5, 6, 7, 8]);
}

#[test]
fn initialize_leaves_tail_bytes_untouched() {
    let owner = identity(1);
    let mut record = Record { key: identity(2), owner, writable: true, data: vec![0; 12] };

    let result = record.initialize(&owner, 3);
    assert_eq!(result, Ok(()));
    assert_eq!(record.data, vec![3, 0, 0, 0, 0, 0, 0, 0, 0, 0, 0, 0]);
}

#[test]
fn initialize_checks_ownership_before_anything_else() {
    let owner = identity(1);
    let caller = identity(2);
    // Not writable and already populated: the ownership failure still wins.
    let mut record =
        Record { key: identity(3), owner, writable: false, data: vec![7, 7, 7] };

    let result = record.initialize(&caller, 1);
    assert_eq!(result, Err(ErrorKind::AccessDenied));
    assert_eq!(record.data, vec![7, 7, 7]);
}

#[test]
fn initialize_rejects_unwritable_record() {
    let owner = identity(1);
    let mut record = Record { key: identity(2), owner, writable: false, data: vec![0; 8] };

    let result = record.initialize(&owner, 1);
    assert_eq!(result, Err(ErrorKind::PermissionDenied));
    assert_eq!(record.data, vec![0; 8]);
}

#[test]
fn initialize_rejects_populated_record() {
    let owner = identity(1);
    let mut record =
        Record { key: identity(2), owner, writable: true, data: vec![0, 0, 0, 0, 0, 0, 0, 1] };

    let result = record.initialize(&owner, 1);
    assert_eq!(result, Err(ErrorKind::AlreadyInitialized));
    assert_eq!(record.data, vec![0, 0, 0, 0, 0, 0, 0, 1]);
}

#[test]
fn increment_advances_counter_by_one() {
    let mut record =
        Record { key: identity(2), owner: identity(1), writable: true, data: 41u64.to_le_bytes().to_vec() };

    let result = record.increment();
    assert_eq!(result, Ok(()));
    assert_eq!(record.data, 42u64.to_le_bytes().to_vec());
}

#[test]
fn increment_wraps_at_the_maximum() {
    let mut record =
        Record { key: identity(2), owner: identity(1), writable: true, data: u64::MAX.to_le_bytes().to_vec() };

    let result = record.increment();
    assert_eq!(result, Ok(()));
    assert_eq!(record.data, 0u64.to_le_bytes().to_vec());
}

#[test]
fn increment_leaves_tail_bytes_untouched() {
    let mut record = Record {
        key: identity(2),
        owner: identity(1),
        writable: true,
        data: vec![0xFF, 0, 0, 0, 0, 0, 0, 0, 0xAB, 0xCD],
    };

    let result = record.increment();
    assert_eq!(result, Ok(()));
    assert_eq!(record.data, vec![0, 1, 0, 0, 0, 0, 0, 0, 0xAB, 0xCD]);
}

#[test]
fn increment_rejects_unwritable_record() {
    let mut record =
        Record { key: identity(2), owner: identity(1), writable: false, data: vec![0; 8] };

    let result = record.increment();
    assert_eq!(result, Err(ErrorKind::PermissionDenied));
    assert_eq!(record.data, vec![0; 8]);
}

#[test]
fn increment_rejects_short_buffer() {
    let mut record =
        Record { key: identity(2), owner: identity(1), writable: true, data: vec![0; 4] };

    let result = record.increment();
    assert_eq!(result, Err(ErrorKind::BufferTooSmall));
    assert_eq!(record.data, vec![0; 4]);
}

#[test]
fn increment_does_not_check_ownership() {
    // Asymmetric with initialization by design: the increment transition
    // checks writability only.
    let mut record =
        Record { key: identity(2), owner: identity(99), writable: true, data: vec![0; 8] };

    let result = record.increment();
    assert_eq!(result, Ok(()));
    assert_eq!(record.data, vec![1, 0, 0, 0, 0, 0, 0, 0]);
}

#[test]
fn initialize_account_uses_the_first_record() {
    let program_id = identity(1);
    let mut accounts = vec![
        Record { key: identity(2), owner: program_id, writable: true, data: vec![0; 8] },
        Record { key: identity(3), owner: program_id, writable: true, data: vec![4; 8] },
    ];

    let payload = 1_000_000u64.to_le_bytes();
    let result = initialize_account(&program_id, &mut accounts, &payload);
    assert_eq!(result, Ok(()));
    assert_eq!(accounts[0].data, 1_000_000u64.to_le_bytes().to_vec());
    assert_eq!(accounts[1].data, vec![4; 8]);
}

#[test]
fn increment_counter_uses_the_first_record() {
    let program_id = identity(1);
    let mut accounts = vec![
        Record { key: identity(2), owner: program_id, writable: true, data: vec![0; 8] },
        Record { key: identity(3), owner: program_id, writable: false, data: vec![4; 8] },
    ];

    let result = increment_counter(&mut accounts);
    assert_eq!(result, Ok(()));
    assert_eq!(accounts[0].data, vec![1, 0, 0, 0, 0, 0, 0, 0]);
    assert_eq!(accounts[1].data, vec![4; 8]);
}
