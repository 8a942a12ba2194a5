use chandra::region_guard::RegionGuard;
use std::sync::atomic::{AtomicBool, AtomicI32, Ordering};

#[test]
fn a_write_lock_keeps_others_out_until_it_is_released() {
    let data: Vec<i32> = (0..20).collect();
    let mut writer = RegionGuard::new(data, vec![(0, 10), (10, 20)]).unwrap();
    let mut reader = writer.share();
    let done = AtomicBool::new(false);
    let seen = AtomicI32::new(0);
    let pool = rayon::ThreadPoolBuilder::new().num_threads(2).build().unwrap();
    assert!(writer.set(0, 1));
    pool.scope(|scope| {
        scope.spawn(|_| {
            let value = reader.index(0).unwrap();
            seen.store(value, Ordering::SeqCst);
            done.store(true, Ordering::SeqCst);
            reader.free();
        });
        for round in 2..2000 {
            assert!(writer.set(0, round));
            assert!(!done.load(Ordering::SeqCst));
        }
        writer.free();
    });
    assert!(done.load(Ordering::SeqCst));
    assert_eq!(seen.load(Ordering::SeqCst), 1999);
}

#[test]
fn a_reader_of_another_region_is_not_kept_out() {
    let data: Vec<i32> = (0..20).collect();
    let mut writer = RegionGuard::new(data, vec![(0, 10), (10, 20)]).unwrap();
    let mut reader = writer.share();
    let seen = AtomicI32::new(0);
    let pool = rayon::ThreadPoolBuilder::new().num_threads(2).build().unwrap();
    assert!(writer.set(0, 1));
    pool.scope(|scope| {
        scope.spawn(|_| {
            seen.store(reader.index(15).unwrap(), Ordering::SeqCst);
            reader.free();
        });
    });
    assert_eq!(seen.load(Ordering::SeqCst), 15);
    assert!(writer.set(1, 2));
    writer.free();
}
