use chandra::region_guard::{
    all_written, cut, gather, is_valid_split, offsets, sort_starts, Held, LockState, RegionArray,
    RegionGuard, RegionLock, Transition,
};

fn two_regions() -> RegionGuard<i32> {
    let data: Vec<i32> = (0..20).collect();
    RegionGuard::new(data, vec![(0, 10), (10, 20)]).unwrap()
}

fn held(region: usize, state: LockState) -> Option<Held> {
    Some(Held { region, state })
}

#[test]
fn starts_are_sorted() {
    assert_eq!(sort_starts(&vec![30, 10, 20, 10, 0]), vec![0, 10, 10, 20, 30]);
    assert_eq!(sort_starts(&vec![1, 2, 3]), vec![1, 2, 3]);
    assert_eq!(sort_starts(&vec![]), Vec::<usize>::new());
}

#[test]
fn regions_end_where_the_next_starts() {
    let regions = RegionArray::from_regions(vec![(20, 2), (0, 0), (10, 1)]);
    assert_eq!(regions.regions, vec![(0, 10), (10, 20), (20, usize::MAX)]);
    assert_eq!(regions.len, 3);
    assert_eq!(regions.avg, usize::MAX / 3);
    assert_eq!(regions.upper_bound(0), 10);
    assert_eq!(regions.upper_bound(2), usize::MAX);
}

#[test]
fn a_single_region_has_no_end() {
    let regions = RegionArray::from_regions(vec![(5, 0)]);
    assert_eq!(regions.regions, vec![(5, usize::MAX)]);
    assert_eq!(regions.avg, usize::MAX - 5);
    assert_eq!(regions.find(5), (5, 0));
    assert_eq!(regions.find(usize::MAX - 1), (5, 0));
}

#[test]
fn find_gives_start_and_place() {
    let starts: Vec<(usize, usize)> = (0..8).map(|i| (i * 10, i)).collect();
    let regions = RegionArray::from_regions(starts);
    for key in 0..80 {
        assert_eq!(regions.find(key), ((key / 10) * 10, key / 10));
    }
    assert_eq!(regions.find(1000), (70, 7));
    assert_eq!(regions.find(usize::MAX - 1), (70, 7));
}

#[test]
fn find_works_with_uneven_regions() {
    let regions = RegionArray::from_regions(vec![(0, 0), (1, 0), (2, 0), (1000, 0), (1001, 0)]);
    assert_eq!(regions.find(0), (0, 0));
    assert_eq!(regions.find(1), (1, 1));
    assert_eq!(regions.find(2), (2, 2));
    assert_eq!(regions.find(999), (2, 2));
    assert_eq!(regions.find(1000), (1000, 3));
    assert_eq!(regions.find(5000), (1001, 4));
}

#[test]
fn locate_tells_where_no_region_holds_an_index() {
    let regions = RegionArray::from_regions(vec![(10, 0), (20, 1)]);
    assert_eq!(regions.locate(9), None);
    assert_eq!(regions.locate(10), Some((10, 0)));
    assert_eq!(regions.locate(25), Some((20, 1)));
    assert_eq!(regions.locate(usize::MAX), None);
}

#[test]
fn a_valid_split_is_sorted_and_inside_the_buffer() {
    assert!(is_valid_split(&vec![(0, 10), (10, 20)], 20));
    assert!(is_valid_split(&vec![(0, 5), (10, 20)], 20));
    assert!(is_valid_split(&vec![(0, 0)], 0));
    assert!(!is_valid_split(&vec![], 20));
    assert!(!is_valid_split(&vec![(0, 10), (10, 21)], 20));
    assert!(!is_valid_split(&vec![(0, 11), (10, 20)], 20));
    assert!(!is_valid_split(&vec![(10, 20), (0, 10)], 20));
    assert!(!is_valid_split(&vec![(5, 4)], 20));
}

#[test]
fn a_guard_is_made_of_a_valid_split_only() {
    assert!(RegionGuard::new(vec![0u8; 20], vec![(0, 10), (10, 20)]).is_some());
    assert!(RegionGuard::new(vec![0u8; 20], vec![(0, 10), (5, 20)]).is_none());
    assert!(RegionGuard::new(vec![0u8; 20], vec![]).is_none());
    assert!(RegionGuard::new(vec![0u8; 10], vec![(0, 10), (10, 20)]).is_none());
}

#[test]
fn reading_takes_the_region_of_the_index() {
    let mut lock = RegionLock::new(RegionArray::from_regions(vec![(0, 0), (10, 1)]));
    let (place, t) = lock.read(3);
    assert_eq!(place, (0, 0));
    assert_eq!(t, Transition::Acquire { release: None, region: 0, state: LockState::Read });
    assert_eq!(lock.lock, held(0, LockState::Read));
    assert_eq!(lock.current_bounds, Some((0, 0, 10)));
    let (place, t) = lock.read(12);
    assert_eq!(place, (1, 10));
    assert_eq!(
        t,
        Transition::Acquire {
            release: held(0, LockState::Read),
            region: 1,
            state: LockState::Read
        }
    );
    assert_eq!(lock.lock, held(1, LockState::Read));
    assert_eq!(lock.current_bounds, Some((1, 10, usize::MAX)));
}

#[test]
fn coming_back_to_the_same_region_keeps_the_lock() {
    let mut lock = RegionLock::new(RegionArray::from_regions(vec![(0, 0), (10, 1)]));
    lock.read(3);
    assert_eq!(lock.read(4), ((0, 0), Transition::Keep));
    assert_eq!(lock.read(9), ((0, 0), Transition::Keep));
    assert_eq!(lock.lock, held(0, LockState::Read));
    lock.write(15);
    assert_eq!(lock.write(16), ((1, 10), Transition::Keep));
    assert_eq!(lock.read(17), ((1, 10), Transition::Keep));
    assert_eq!(lock.lock, held(1, LockState::Write));
}

#[test]
fn writing_after_reading_upgrades_in_place() {
    let mut lock = RegionLock::new(RegionArray::from_regions(vec![(0, 0), (10, 1)]));
    lock.read(3);
    assert_eq!(lock.write(5), ((0, 0), Transition::Upgrade));
    assert_eq!(lock.lock, held(0, LockState::Write));
}

#[test]
fn moving_on_releases_as_it_was_acquired() {
    let mut lock = RegionLock::new(RegionArray::from_regions(vec![(0, 0), (10, 1)]));
    lock.write(3);
    let (_, t) = lock.write(13);
    assert_eq!(
        t,
        Transition::Acquire {
            release: held(0, LockState::Write),
            region: 1,
            state: LockState::Write
        }
    );
    let (_, t) = lock.read(3);
    assert_eq!(
        t,
        Transition::Acquire {
            release: held(1, LockState::Write),
            region: 0,
            state: LockState::Read
        }
    );
    assert_eq!(lock.free(), held(0, LockState::Read));
    assert_eq!(lock.lock, None);
    assert_eq!(lock.free(), None);
}

#[test]
fn moving_on_remembers_the_bounds_of_the_new_region() {
    let mut lock = RegionLock::new(RegionArray::from_regions(vec![(0, 0), (10, 1), (25, 2)]));
    assert_eq!(lock.current_bounds, None);
    lock.write(3);
    assert_eq!(lock.current_bounds, Some((0, 0, 10)));
    lock.write(13);
    assert_eq!(lock.lock, held(1, LockState::Write));
    assert_eq!(lock.current_bounds, Some((1, 10, 25)));
    lock.read(14);
    assert_eq!(lock.current_bounds, Some((1, 10, 25)));
    lock.read(30);
    assert_eq!(lock.lock, held(2, LockState::Read));
    assert_eq!(lock.current_bounds, Some((2, 25, usize::MAX)));
    lock.write(31);
    assert_eq!(lock.lock, held(2, LockState::Write));
    assert_eq!(lock.current_bounds, Some((2, 25, usize::MAX)));
    lock.free();
    assert_eq!(lock.current_bounds, Some((2, 25, usize::MAX)));
}

#[test]
fn a_region_is_cut_out_of_the_data() {
    let data: Vec<i32> = (0..20).collect();
    assert_eq!(cut(&data, 10, 20), (10..20).collect::<Vec<i32>>());
    assert_eq!(cut(&data, 3, 5), vec![3, 4]);
    assert_eq!(cut(&data, 7, 7), Vec::<i32>::new());
}

#[test]
fn offsets_follow_one_another() {
    assert_eq!(offsets(2, 3), vec![2, 3, 4]);
    assert_eq!(offsets(0, 1), vec![0]);
    assert_eq!(offsets(7, 0), Vec::<usize>::new());
    assert_eq!(offsets(usize::MAX - 2, 2), vec![usize::MAX - 2, usize::MAX - 1]);
}

#[test]
fn what_was_read_is_gathered_up_to_the_first_gap() {
    assert_eq!(gather(&vec![Some(12), Some(13), Some(14)]), vec![12, 13, 14]);
    assert_eq!(gather(&vec![Some(1), None, Some(3)]), vec![1]);
    assert_eq!(gather(&vec![None, Some(3)]), Vec::<i32>::new());
    assert_eq!(gather(&Vec::<Option<i32>>::new()), Vec::<i32>::new());
}

#[test]
fn all_writes_must_be_done() {
    assert!(all_written(&vec![true, true, true]));
    assert!(!all_written(&vec![true, false, true]));
    assert!(!all_written(&vec![false]));
    assert!(all_written(&vec![]));
}

#[test]
fn a_range_inside_the_second_region_is_read_from_it() {
    let mut guard = two_regions();
    assert_eq!(guard.index_range(12, 15), vec![12, 13, 14]);
    assert_eq!(guard.locks().lock, held(1, LockState::Read));
    assert_eq!(guard.locks().current_bounds, Some((1, 10, usize::MAX)));
    assert_eq!(guard.index_range(18, 25), vec![18, 19]);
    assert_eq!(guard.locks().lock, held(1, LockState::Read));
}

#[test]
fn an_empty_range_is_set_without_a_write() {
    let mut guard = two_regions();
    assert!(guard.set_range(12, vec![]));
    assert_eq!(guard.locks().lock, held(1, LockState::Write));
    assert_eq!(guard.index_range(10, 20), (10..20).collect::<Vec<i32>>());
}

#[test]
fn regions_can_be_taken_by_their_place() {
    let mut lock = RegionLock::new(RegionArray::from_regions(vec![(0, 0), (10, 1)]));
    assert_eq!(
        lock.read_region(1),
        Transition::Acquire { release: None, region: 1, state: LockState::Read }
    );
    assert_eq!(lock.read_region(1), Transition::Keep);
    assert_eq!(lock.write_region(1), Transition::Upgrade);
    assert_eq!(lock.write_region(1), Transition::Keep);
    assert_eq!(lock.current_bounds, Some((1, 10, usize::MAX)));
}

#[test]
fn a_range_must_lie_in_one_region() {
    let lock = RegionLock::new(RegionArray::from_regions(vec![(0, 0), (10, 1)]));
    assert!(lock.same_region(0, 10));
    assert!(lock.same_region(10, 20));
    assert!(lock.same_region(8, 9));
    assert!(!lock.same_region(8, 12));
    assert!(!lock.same_region(9, 11));
    assert!(!lock.same_region(6, 5));
}

#[test]
fn an_empty_range_lies_in_the_region_around_it() {
    let lock = RegionLock::new(RegionArray::from_regions(vec![(0, 0), (10, 1)]));
    assert!(lock.same_region(5, 5));
    assert!(lock.same_region(15, 15));
    assert!(!lock.same_region(10, 10));
    assert!(!lock.same_region(0, 0));
    let mut guard = two_regions();
    assert_eq!(guard.try_index_range(5, 5), Some(vec![]));
    assert_eq!(guard.locks().lock, held(0, LockState::Read));
    assert_eq!(guard.index_range(15, 15), Vec::<i32>::new());
    assert_eq!(guard.locks().lock, held(1, LockState::Read));
    assert_eq!(guard.try_index_range(10, 10), None);
    assert_eq!(guard.locks().lock, held(1, LockState::Read));
}

#[test]
fn what_is_set_is_read_back_and_nothing_else_changes() {
    let mut guard = two_regions();
    assert!(guard.set(13, 99));
    assert_eq!(guard.index(13), Some(99));
    assert_eq!(guard.locks().lock, held(1, LockState::Write));
    assert_eq!(
        guard.index_range(10, 20),
        vec![10, 11, 12, 99, 14, 15, 16, 17, 18, 19]
    );
    assert_eq!(guard.index_range(0, 10), (0..10).collect::<Vec<i32>>());
}

#[test]
fn a_region_ends_with_its_last_item() {
    let data: Vec<i32> = (0..20).collect();
    let mut guard = RegionGuard::new(data, vec![(0, 5), (10, 20)]).unwrap();
    assert_eq!(guard.index(4), Some(4));
    assert_eq!(guard.index(5), None);
    assert_eq!(guard.index(9), None);
    assert_eq!(guard.index(10), Some(10));
    assert!(!guard.set(7, 1));
    assert!(guard.set(4, 1));
    assert_eq!(guard.index_range(3, 8), vec![3, 1]);
    assert_eq!(guard.index_range(6, 8), Vec::<i32>::new());
    assert!(!guard.set_range(3, vec![7, 8, 9]));
    assert_eq!(guard.index_range(0, 10), vec![0, 1, 2, 7, 8]);
    assert_eq!(guard.index_2((1, 9)), Some(19));
    assert_eq!(guard.index_2((1, 10)), None);
    assert!(guard.set_2((0, 0), 5));
    assert!(!guard.set_2((0, 5), 5));
    assert_eq!(guard.index(0), Some(5));
}

#[test]
fn an_access_that_spans_two_regions_fails() {
    let mut guard = two_regions();
    assert_eq!(guard.try_index_range(8, 12), None);
    assert_eq!(guard.locks().lock, None);
    assert_eq!(guard.try_index_range(8, 10), Some(vec![8, 9]));
    assert_eq!(guard.try_index_range(10, 12), Some(vec![10, 11]));
    assert_eq!(guard.try_index_range(0, 10), Some((0..10).collect::<Vec<i32>>()));
}

#[test]
fn what_is_set_is_read_back() {
    let mut guard = two_regions();
    assert_eq!(guard.index(3), Some(3));
    assert!(guard.set(3, 33));
    assert_eq!(guard.index(3), Some(33));
    assert_eq!(guard.locks().lock, held(0, LockState::Write));
    assert!(guard.set(13, 133));
    assert_eq!(guard.locks().lock, held(1, LockState::Write));
    assert_eq!(guard.index(13), Some(133));
    assert_eq!(guard.index(3), Some(33));
    assert_eq!(guard.locks().lock, held(0, LockState::Read));
    guard.free();
    assert_eq!(guard.locks().lock, None);
}

#[test]
fn items_are_cut_at_the_bounds() {
    let data: Vec<i32> = (0..20).collect();
    let mut guard = RegionGuard::new(data, vec![(0, 5), (10, 20)]).unwrap();
    assert_eq!(guard.index(4), Some(4));
    assert_eq!(guard.index(5), None);
    assert_eq!(guard.index(9), None);
    assert_eq!(guard.index(10), Some(10));
    assert_eq!(guard.index(19), Some(19));
    assert_eq!(guard.index(20), None);
    assert!(!guard.set(7, 1));
}

#[test]
fn a_place_is_a_region_and_an_offset() {
    let mut guard = two_regions();
    assert_eq!(guard.index_2((1, 3)), Some(13));
    assert!(guard.set_2((1, 3), -1));
    assert_eq!(guard.index(13), Some(-1));
    assert_eq!(guard.index_2((0, 10)), None);
}

#[test]
fn a_range_is_set_within_its_region() {
    let mut guard = two_regions();
    assert!(guard.set_range(2, vec![7, 8, 9]));
    assert_eq!(guard.index_range(0, 6), vec![0, 1, 7, 8, 9, 5]);
    assert!(!guard.set_range(8, vec![1, 2, 3]));
    assert_eq!(guard.index(8), Some(1));
    assert_eq!(guard.index(9), Some(2));
    assert_eq!(guard.index(10), Some(10));
}

#[test]
fn accessors_share_what_they_write() {
    let mut first = two_regions();
    let mut second = first.share();
    assert!(first.set(1, 100));
    first.free();
    assert_eq!(second.index(1), Some(100));
    assert_eq!(second.locks().lock, held(0, LockState::Read));
    assert_eq!(first.locks().lock, None);
}

#[test]
fn reads_of_two_regions_do_not_wait_for_each_other() {
    let mut first = two_regions();
    let mut second = first.share();
    assert_eq!(first.index(1), Some(1));
    assert_eq!(second.index(11), Some(11));
    assert_eq!(first.index(2), Some(2));
    assert_eq!(first.locks().lock, held(0, LockState::Read));
    assert_eq!(second.locks().lock, held(1, LockState::Read));
    assert!(second.set(12, 0));
    assert!(first.set(3, 0));
}

#[test]
fn workers_write_their_own_regions_in_parallel() {
    let guard = RegionGuard::new(vec![0u32; 40], vec![(0, 10), (10, 20), (20, 30), (30, 40)])
        .unwrap();
    let pool = rayon::ThreadPoolBuilder::new().num_threads(4).build().unwrap();
    pool.scope(|scope| {
        for worker in 0..4usize {
            let mut mine = guard.share();
            scope.spawn(move |_| {
                for i in worker * 10..worker * 10 + 10 {
                    assert!(mine.set(i, (i * 2) as u32));
                }
                mine.free();
            });
        }
    });
    let mut reader = guard.share();
    for i in 0..40usize {
        assert_eq!(reader.index(i), Some((i * 2) as u32));
    }
}
