use param_sync::worker_pool::Threadpool;
use std::sync::Arc;

fn double(i: u16) -> u32 {
    2 * i as u32
}

#[test]
fn new_pool_builds_each_worker_from_its_index() {
    let pool = Threadpool::new(3, double);
    assert_eq!(pool.get_num_workers(), 3);
    for i in 0..3u16 {
        let w = pool.get_worker_ref(i).unwrap();
        assert_eq!(*w.lock().unwrap(), 2 * i as u32);
    }
}

#[test]
fn new_empty_pool_has_no_workers() {
    let pool: Threadpool<u8> = Threadpool::new_empty();
    assert_eq!(pool.get_num_workers(), 0);
    assert!(pool.get_worker_ref(0).is_none());
}

#[test]
fn get_worker_ref_out_of_range_is_none() {
    let pool = Threadpool::new(2, |i| i);
    assert!(pool.get_worker_ref(2).is_none());
    assert!(pool.get_worker_ref(u16::MAX).is_none());
}

#[test]
fn get_worker_ref_shares_the_same_worker() {
    let pool = Threadpool::new(2, |i| i);
    let a = pool.get_worker_ref(1).unwrap();
    let b = pool.get_worker_ref(1).unwrap();
    assert!(Arc::ptr_eq(&a, &b));
    *a.lock().unwrap() = 40;
    assert_eq!(*b.lock().unwrap(), 40);
}

#[test]
fn add_worker_appends_at_the_end() {
    let mut pool = Threadpool::new(1, |_| String::from("first"));
    pool.add_worker(String::from("second"));
    assert_eq!(pool.get_num_workers(), 2);
    assert_eq!(*pool.get_worker_ref(0).unwrap().lock().unwrap(), "first");
    assert_eq!(*pool.get_worker_ref(1).unwrap().lock().unwrap(), "second");
}
