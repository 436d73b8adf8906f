use glcim::updatable::{Selection, Updatable};
use std::time::Instant;

fn list(items: Vec<u8>) -> Updatable<Vec<u8>> {
    Updatable { update: false, data: Some((Instant::now(), items)) }
}

fn at(selected: usize) -> Selection {
    Selection { selected: Some(selected), rewound: false }
}

#[test]
fn missing_data_is_asked_for_once() {
    let mut data: Updatable<Vec<u8>> = Updatable::new();
    assert!(!data.update && data.data.is_none());
    assert!(data.check_expiry(1000));
    assert!(data.update);
    assert!(!data.check_expiry(1000));
    data.updated();
    assert!(!data.update);
}

#[test]
fn data_expires_after_its_time() {
    let mut data = list(vec![1]);
    assert!(!data.check_expiry_after(999_999, 1));
    assert!(!data.update);
    assert!(data.check_expiry_after(1_000_000, 1));
    assert!(data.update);
    assert!(!data.check_expiry_after(5_000_000, 1));
}

#[test]
fn fresh_data_has_not_expired() {
    let mut data = list(vec![1]);
    assert!(!data.check_expiry(u64::MAX));
    assert!(data.check_expiry(0));
}

#[test]
fn giving_up_a_selection_rewinds() {
    let mut s = Selection::new();
    assert_eq!(s, Selection { selected: None, rewound: false });
    s.select(Some(3));
    assert_eq!(s, at(3));
    s.select(None);
    assert_eq!(s, Selection { selected: None, rewound: true });
    s.select(Some(1));
    assert!(s.take_rewound());
    assert!(!s.take_rewound());
    assert_eq!(s, at(1));
}

#[test]
fn selection_is_moved_to_where_it_can_be() {
    let data = list(vec![1, 2, 3]);
    let mut s = Selection::new();
    data.fix_selected(&mut s, None);
    assert_eq!(s.selected, Some(0));
    let mut s = at(7);
    data.fix_selected(&mut s, None);
    assert_eq!(s.selected, Some(2));
    data.fix_selected(&mut s, Some(2));
    assert_eq!(s.selected, Some(1));
    let mut s = at(7);
    data.fix_selected(&mut s, Some(0));
    assert_eq!(s.selected, Some(7));
    let mut s = at(1);
    list(vec![]).fix_selected(&mut s, None);
    assert_eq!(s.selected, Some(1));
    let mut s = Selection::new();
    list(vec![]).fix_selected(&mut s, None);
    assert_eq!(s, Selection { selected: None, rewound: true });
    let mut s = at(1);
    Updatable::<Vec<u8>>::new().fix_selected(&mut s, None);
    assert_eq!(s, Selection { selected: None, rewound: true });
}

#[test]
fn fixing_a_selection_twice_changes_nothing() {
    let data = list(vec![1, 2, 3]);
    for selected in [None, Some(0), Some(2), Some(9)] {
        let mut once = Selection { selected, rewound: false };
        data.fix_selected(&mut once, Some(2));
        let mut twice = once;
        data.fix_selected(&mut twice, Some(2));
        assert_eq!(once, twice);
    }
}

#[test]
fn steps_stay_in_the_list() {
    let data = list(vec![1, 2, 3]);
    let mut s = at(0);
    data.up(&mut s, None);
    assert_eq!(s, at(0));
    data.down(&mut s, None);
    assert_eq!(s, at(1));
    data.up(&mut s, None);
    assert_eq!(s, at(0));
    data.end(&mut s, None);
    assert_eq!(s, at(2));
    data.down(&mut s, None);
    assert_eq!(s, at(2));
    data.home(&mut s, None);
    assert_eq!(s, at(0));
    let mut s = Selection::new();
    data.down(&mut s, None);
    assert_eq!(s.selected, Some(0));
    let mut s = Selection::new();
    data.up(&mut s, None);
    assert_eq!(s.selected, Some(0));
}

#[test]
fn pages_are_many_steps() {
    let data = list(vec![0; 10]);
    let mut s = at(1);
    assert!(data.can_page_down(&s, None, 4));
    data.page_down(&mut s, None, 4);
    assert_eq!(s, at(5));
    data.page_down(&mut s, None, 40);
    assert_eq!(s, at(9));
    data.page_up(&mut s, None, 3);
    assert_eq!(s, at(6));
    data.page_up(&mut s, None, 0);
    assert_eq!(s, at(6));
    data.page_up(&mut s, None, 40);
    assert_eq!(s, at(0));
}

#[test]
fn steps_beyond_the_last_number_are_refused() {
    let empty = list(vec![]);
    assert!(!empty.can_page_down(&at(usize::MAX), None, 1));
    assert!(empty.can_page_down(&at(usize::MAX - 1), None, 1));
    assert!(!empty.can_page_down(&at(usize::MAX - 1), None, 2));
    assert!(list(vec![1]).can_page_down(&at(0), None, 65_535));
}
