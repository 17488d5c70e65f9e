use facet_pretty::iset::{ISet, ISET_CAPACITY};

#[test]
fn default_set_is_empty() {
    let set = ISet::default();
    for index in 0..ISET_CAPACITY {
        assert!(!set.has(index));
    }
    assert!(set.all_set(0));
    assert!(!set.all_set(1));
    assert!(!set.all_set(64));
}

#[test]
fn set_marks_one_index() {
    let mut set = ISet::default();
    set.set(5);
    for index in 0..64 {
        assert_eq!(set.has(index), index == 5);
    }
    set.set(5);
    assert!(set.has(5));
}

#[test]
fn unset_clears_one_index() {
    let mut set = ISet::default();
    set.set(0);
    set.set(1);
    set.set(63);
    set.unset(1);
    assert!(set.has(0));
    assert!(!set.has(1));
    assert!(set.has(63));
    set.unset(1);
    assert!(!set.has(1));
    set.unset(63);
    assert!(!set.has(63));
    assert!(set.has(0));
}

#[test]
fn lowest_and_highest_index() {
    let mut set = ISet::default();
    set.set(0);
    set.set(63);
    assert!(set.has(0));
    assert!(set.has(63));
    assert!(!set.has(1));
    assert!(!set.has(62));
    assert!(set.all_set(1));
    assert!(!set.all_set(2));
}

#[test]
fn all_set_counts_from_the_lowest_index() {
    let mut set = ISet::default();
    for index in 0..10 {
        set.set(index);
    }
    for count in 0..=10 {
        assert!(set.all_set(count));
    }
    for count in 11..=64 {
        assert!(!set.all_set(count));
    }
    set.unset(4);
    assert!(set.all_set(4));
    assert!(!set.all_set(5));
    assert!(!set.all_set(10));
}

#[test]
fn all_set_at_full_capacity() {
    let mut set = ISet::default();
    for index in 0..64 {
        assert!(!set.all_set(64));
        set.set(index);
    }
    assert!(set.all_set(64));
    assert!(set.all_set(63));
    set.unset(63);
    assert!(!set.all_set(64));
    assert!(set.all_set(63));
}

#[test]
fn all_set_ignores_higher_indices() {
    let mut set = ISet::default();
    set.set(0);
    set.set(1);
    set.set(40);
    assert!(set.all_set(2));
    assert!(!set.all_set(3));
}

#[test]
fn copies_are_independent() {
    let mut set = ISet::default();
    set.set(7);
    let copy = set;
    set.unset(7);
    assert!(copy.has(7));
    assert!(!set.has(7));
}
