use fixed_vec::FixedVec;

#[derive(Debug)]
struct Tag;

#[test]
fn insert_before_an_index_moves_the_element_one_up() {
    let mut v = FixedVec::<i32, Tag>::fix(vec![10, 20, 30]);
    let index = v.check_index(2).unwrap();
    assert_eq!(v.get(index), &30);

    v.insert(0, 5);

    assert_eq!(v.len(), 4);
    assert_eq!(v.get(index), &20);
    let moved = v.check_index(3).unwrap();
    assert_eq!(v.get(moved), &30);
    let front = v.check_index(0).unwrap();
    assert_eq!(v.get(front), &5);
    assert_eq!(v.unfix(), vec![5, 10, 20, 30]);
}

#[test]
fn insert_at_an_index_moves_the_element_one_up() {
    let mut v = FixedVec::<i32, Tag>::fix(vec![10, 20, 30]);
    let index = v.check_index(1).unwrap();

    v.insert(1, 15);

    assert_eq!(v.get(index), &15);
    assert_eq!(v.get(v.check_index(2).unwrap()), &20);
    assert_eq!(v.unfix(), vec![10, 15, 20, 30]);
}

#[test]
fn insert_after_an_index_leaves_the_element_in_place() {
    let mut v = FixedVec::<i32, Tag>::fix(vec![10, 20, 30]);
    let index = v.check_index(1).unwrap();

    v.insert(2, 25);
    assert_eq!(v.get(index), &20);

    v.insert(4, 35);
    assert_eq!(v.get(index), &20);
    assert_eq!(v.unfix(), vec![10, 20, 25, 30, 35]);
}

#[test]
fn push_and_append_leave_earlier_elements_in_place() {
    let mut v = FixedVec::<i32, Tag>::fix(vec![10, 20, 30]);
    let indices = [
        v.check_index(0).unwrap(),
        v.check_index(1).unwrap(),
        v.check_index(2).unwrap(),
    ];

    v.push(40);
    let mut more = vec![50, 60];
    v.append(&mut more);
    v.push(70);

    assert!(more.is_empty());
    assert_eq!(v.get(indices[0]), &10);
    assert_eq!(v.get(indices[1]), &20);
    assert_eq!(v.get(indices[2]), &30);
    assert_eq!(v.get(v.check_index(6).unwrap()), &70);
    assert_eq!(v.unfix(), vec![10, 20, 30, 40, 50, 60, 70]);
}

#[test]
fn growth_makes_new_positions_checkable() {
    let mut v = FixedVec::<i32, Tag>::fix(Vec::new());
    assert!(v.check_index(0).is_none());

    v.push(1);
    assert!(v.check_index(0).is_some());
    assert!(v.check_index(1).is_none());
    assert!(v.check_range(0..1).is_some());
    assert!(v.check_range(0..2).is_none());

    v.insert(0, 0);
    assert!(v.check_index(1).is_some());
    assert!(v.check_range(0..2).is_some());
}

#[test]
fn reserve_keeps_the_elements_and_makes_room() {
    let mut v = FixedVec::<u64, Tag>::fix(vec![1, 2, 3]);
    let index = v.check_index(2).unwrap();

    v.reserve(100);

    assert!(v.capacity() >= 103);
    assert_eq!(v.len(), 3);
    assert_eq!(v.get(index), &3);
    assert_eq!(v.unfix(), vec![1, 2, 3]);
}

#[test]
fn reserve_exact_keeps_the_elements_and_makes_room() {
    let mut v = FixedVec::<u64, Tag>::fix(vec![1, 2, 3]);
    let index = v.check_index(0).unwrap();
    let before = v.capacity();
    assert!(before < 203);

    v.reserve_exact(200);

    assert!(v.capacity() >= 203);
    assert_eq!(v.len(), 3);
    assert_eq!(v.get(index), &1);
    assert_eq!(v.unfix(), vec![1, 2, 3]);
}

#[test]
fn shrink_to_fit_keeps_the_elements_and_gives_room_back() {
    let mut raw: Vec<u64> = Vec::with_capacity(500);
    raw.extend([1, 2, 3]);
    let mut v = FixedVec::<u64, Tag>::fix(raw);
    let index = v.check_index(2).unwrap();
    assert!(v.capacity() >= 500);

    v.shrink_to_fit();

    assert!(v.capacity() < 500);
    assert!(v.capacity() >= 3);
    assert_eq!(v.len(), 3);
    assert_eq!(v.get(index), &3);
    assert_eq!(v.unfix(), vec![1, 2, 3]);
}

#[test]
fn as_mut_slice_allows_bulk_writes_that_keep_the_length() {
    let mut v = FixedVec::<i32, Tag>::fix(vec![3, 1, 2]);
    let index = v.check_index(2).unwrap();

    v.as_mut_slice().sort();
    assert_eq!(v.get(index), &3);

    v.as_mut_slice()[0] = 9;
    v.as_mut_slice().swap(1, 2);

    assert_eq!(v.len(), 3);
    assert_eq!(v.unfix(), vec![9, 3, 2]);
}

#[test]
fn insert_at_the_end_acts_as_push() {
    let mut v = FixedVec::<i32, Tag>::fix(vec![1, 2]);

    v.insert(2, 3);

    assert_eq!(v.unfix(), vec![1, 2, 3]);
}

#[test]
fn append_of_nothing_changes_nothing() {
    let mut v = FixedVec::<i32, Tag>::fix(vec![1, 2]);
    let mut none: Vec<i32> = Vec::new();

    v.append(&mut none);

    assert_eq!(v.unfix(), vec![1, 2]);
}
