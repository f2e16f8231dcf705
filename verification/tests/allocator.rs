use lab_allocator::AllocError;
use lab_allocator::LabByteAllocator;
use lab_allocator::REGISTRY_CAPACITY;

#[test]
fn new_allocator_is_empty() {
    let mut a = LabByteAllocator::new();
    assert_eq!(a.total_bytes(), 0);
    assert_eq!(a.used_bytes(), 0);
    assert_eq!(a.available_bytes(), 0);
    assert_eq!(a.allocate(0, 1), Err(AllocError::NoMemory));
}

#[test]
fn init_contract() {
    let mut a = LabByteAllocator::new();
    a.init(4096, 1000);
    assert_eq!(a.total_bytes(), 1000);
    assert_eq!(a.used_bytes(), 0);
    assert_eq!(a.available_bytes(), 1000);
}

#[test]
fn bump_addresses_increase_without_overlap() {
    let mut a = LabByteAllocator::new();
    a.init(100, 1000);
    let sizes: [usize; 4] = [16, 3, 40, 1];
    let mut prev_end: usize = 100;
    for &s in sizes.iter() {
        let addr = a.allocate(s, 1).unwrap();
        assert!(addr >= prev_end);
        prev_end = addr + s;
    }
    // Each block begins exactly where the padded previous one ended.
    assert_eq!(a.used_bytes(), 16 + 1 + 3 + 1 + 40 + 1 + 1 + 1);
}

#[test]
fn exact_fit_reuse_returns_released_address() {
    let mut a = LabByteAllocator::new();
    a.init(0, 1000);
    let addr = a.allocate(10, 1).unwrap();
    assert_eq!(addr, 0);
    let used_before = a.used_bytes();
    a.dealloc(addr, 10);
    // The registry stores the padded size 11, and the scan compares the raw
    // request against it: a request of 11 matches, a request of 10 does not.
    let again = a.allocate(11, 1).unwrap();
    assert_eq!(again, addr);
    assert_eq!(a.used_bytes(), used_before);
    assert_eq!(a.available_bytes(), 1000 - used_before);
}

#[test]
fn raw_size_does_not_match_padded_record() {
    let mut a = LabByteAllocator::new();
    a.init(0, 1000);
    let addr = a.allocate(10, 1).unwrap();
    a.dealloc(addr, 10);
    // A second request of the same raw size finds no record of size 10 and
    // falls back to the bump region.
    let second = a.allocate(10, 1).unwrap();
    assert_ne!(second, addr);
    assert_eq!(second, 11);
}

#[test]
fn out_of_memory_boundary() {
    let mut a = LabByteAllocator::new();
    a.init(0, 10);
    // The padded size 11 exceeds the 10 available bytes.
    assert_eq!(a.allocate(10, 1), Err(AllocError::NoMemory));
    assert_eq!(a.total_bytes(), 10);
    assert_eq!(a.used_bytes(), 0);
    assert_eq!(a.available_bytes(), 10);
    // The padded size 10 fits exactly.
    assert_eq!(a.allocate(9, 1), Ok(0));
    assert_eq!(a.available_bytes(), 0);
    assert_eq!(a.allocate(0, 1), Err(AllocError::NoMemory));
}

#[test]
fn registry_overflow_leaks_silently() {
    let n = REGISTRY_CAPACITY + 1;
    let mut a = LabByteAllocator::new();
    a.init(0, 7 * n);
    let mut addrs: Vec<usize> = Vec::new();
    for _ in 0..n {
        addrs.push(a.allocate(5, 1).unwrap());
    }
    let leaked = addrs[n - 1];
    assert_eq!(leaked, 6 * (n - 1));
    let used_before = a.used_bytes();
    // Release every block; the last release finds the registry full and
    // drops the block without any error.
    for &addr in addrs.iter() {
        a.dealloc(addr, 5);
    }
    assert_eq!(a.used_bytes(), used_before);
    // Draining the registry and one more bump allocation never hands the
    // leaked address back.
    for _ in 0..n {
        let got = a.allocate(6, 1).unwrap();
        assert_ne!(got, leaked);
    }
}

#[test]
fn queries_stay_consistent() {
    let mut a = LabByteAllocator::new();
    assert_eq!(a.total_bytes(), a.used_bytes() + a.available_bytes());
    a.init(50, 500);
    assert_eq!(a.total_bytes(), a.used_bytes() + a.available_bytes());
    let addr = a.allocate(20, 4).unwrap();
    assert_eq!(a.total_bytes(), a.used_bytes() + a.available_bytes());
    a.dealloc(addr, 20);
    assert_eq!(a.total_bytes(), a.used_bytes() + a.available_bytes());
    let _ = a.allocate(21, 4).unwrap();
    assert_eq!(a.total_bytes(), a.used_bytes() + a.available_bytes());
    assert!(a.add_memory(50, 600).is_ok());
    assert_eq!(a.total_bytes(), a.used_bytes() + a.available_bytes());
}

#[test]
fn add_memory_extends_the_extent() {
    let mut a = LabByteAllocator::new();
    a.init(0, 10);
    assert_eq!(a.allocate(10, 1), Err(AllocError::NoMemory));
    assert!(a.add_memory(0, 30).is_ok());
    assert_eq!(a.total_bytes(), 30);
    assert_eq!(a.used_bytes(), 0);
    assert_eq!(a.available_bytes(), 30);
    assert_eq!(a.allocate(10, 1), Ok(0));
}

#[test]
fn reinit_discards_the_registry() {
    let mut a = LabByteAllocator::new();
    a.init(0, 100);
    let addr = a.allocate(10, 1).unwrap();
    a.dealloc(addr, 10);
    a.init(0, 100);
    // The released record is gone: a request of 11 takes the bump path.
    assert_eq!(a.allocate(11, 1), Ok(0));
    assert_eq!(a.used_bytes(), 12);
}

#[test]
fn alignment_is_accepted_but_not_enforced() {
    let mut a = LabByteAllocator::new();
    a.init(0, 100);
    let first = a.allocate(3, 64).unwrap();
    let second = a.allocate(3, 64).unwrap();
    // Addresses follow the bump cursor regardless of the requested alignment.
    assert_eq!(first, 0);
    assert_eq!(second, 4);
}
