use fdselect::{to_fdset_ptr, FdSet, Ptr, FD_SETSIZE};

fn members(set: &mut FdSet) -> Vec<i32> {
    let mut found = Vec::new();
    for fd in 0..FD_SETSIZE as i32 {
        if set.is_set(fd) {
            found.push(fd);
        }
    }
    found
}

#[test]
fn size_is_1024() {
    assert_eq!(FD_SETSIZE, 1024);
    assert_eq!(fdselect::fd_set::WORDS * fdselect::fd_set::WORD_BITS, FD_SETSIZE);
}

#[test]
fn new_set_has_no_members() {
    let mut set = FdSet::new();
    assert_eq!(members(&mut set), Vec::<i32>::new());
    assert_eq!(*set.words_mut(), [0u64; 16]);
}

#[test]
fn added_descriptor_is_member_until_removed() {
    for fd in 0..FD_SETSIZE as i32 {
        let mut set = FdSet::new();
        set.set(fd);
        assert!(set.is_set(fd), "descriptor {} after set", fd);
        assert_eq!(members(&mut set), vec![fd]);
        set.clear(fd);
        assert!(!set.is_set(fd), "descriptor {} after clear", fd);
        assert_eq!(members(&mut set), Vec::<i32>::new());
    }
}

#[test]
fn removing_a_non_member_changes_nothing() {
    let mut set = FdSet::new();
    set.set(4);
    set.set(70);
    let before = *set.words_mut();
    for fd in 0..FD_SETSIZE as i32 {
        if fd != 4 && fd != 70 {
            set.clear(fd);
            assert!(!set.is_set(fd));
            assert_eq!(*set.words_mut(), before);
        }
    }
    assert_eq!(members(&mut set), vec![4, 70]);
}

#[test]
fn removing_from_an_empty_set_leaves_it_empty() {
    let mut set = FdSet::new();
    set.clear(0);
    set.clear(1023);
    assert!(!set.is_set(0));
    assert!(!set.is_set(1023));
    assert_eq!(*set.words_mut(), [0u64; 16]);
}

#[test]
fn adding_a_member_again_changes_nothing() {
    let mut set = FdSet::new();
    set.set(5);
    let before = *set.words_mut();
    set.set(5);
    assert_eq!(*set.words_mut(), before);
    assert_eq!(members(&mut set), vec![5]);
}

#[test]
fn first_and_last_descriptor_of_each_word() {
    let mut set = FdSet::new();
    for fd in [0, 63, 64, 127, 960, 1023] {
        set.set(fd);
    }
    assert_eq!(members(&mut set), vec![0, 63, 64, 127, 960, 1023]);
    set.clear(63);
    set.clear(64);
    assert_eq!(members(&mut set), vec![0, 127, 960, 1023]);
    set.clear(0);
    set.clear(1023);
    assert_eq!(members(&mut set), vec![127, 960]);
}

#[test]
fn members_do_not_disturb_each_other() {
    let mut set = FdSet::new();
    set.set(3);
    set.set(4);
    set.set(5);
    set.clear(4);
    assert!(set.is_set(3));
    assert!(!set.is_set(4));
    assert!(set.is_set(5));
}

#[test]
fn is_set_leaves_the_set_alone() {
    let mut set = FdSet::new();
    set.set(9);
    set.set(700);
    let before = *set.words_mut();
    for fd in 0..FD_SETSIZE as i32 {
        set.is_set(fd);
    }
    assert_eq!(*set.words_mut(), before);
}

#[test]
fn descriptor_is_bit_of_its_word() {
    let mut set = FdSet::new();
    set.set(0);
    set.set(65);
    set.set(1023);
    let words = *set.words_mut();
    assert_eq!(words[0], 1);
    assert_eq!(words[1], 2);
    assert_eq!(words[15], 1u64 << 63);
    for k in 2..15 {
        assert_eq!(words[k], 0);
    }
}

#[test]
fn a_full_set_holds_every_descriptor() {
    let mut set = FdSet::new();
    for fd in 0..FD_SETSIZE as i32 {
        set.set(fd);
    }
    assert_eq!(*set.words_mut(), [u64::MAX; 16]);
    assert_eq!(members(&mut set).len(), FD_SETSIZE);
}

#[test]
fn what_is_written_to_the_bitmap_is_the_set() {
    let mut set = FdSet::new();
    set.set(3);
    set.set(5);
    set.set(64);
    // Keep descriptor 5 alone, as a wait would for the one ready descriptor.
    {
        let words = set.words_mut();
        words[0] &= 1 << 5;
        words[1] = 0;
    }
    assert_eq!(members(&mut set), vec![5]);
}

#[test]
fn pointer_to_a_set_is_its_bitmap() {
    let mut set = FdSet::new();
    set.set(7);
    match to_fdset_ptr(Some(&mut set)) {
        Ptr::Null => panic!("a set was given"),
        Ptr::To(words) => {
            assert_eq!(words[0], 1 << 7);
            words[0] = 0;
            words[2] = 1;
        }
    }
    assert_eq!(members(&mut set), vec![128]);
}

#[test]
fn pointer_to_no_set_is_null() {
    assert!(matches!(to_fdset_ptr(None), Ptr::Null));
}

#[test]
fn an_empty_set_is_not_an_absent_one() {
    let mut set = FdSet::new();
    assert!(matches!(to_fdset_ptr(Some(&mut set)), Ptr::To(_)));
}
