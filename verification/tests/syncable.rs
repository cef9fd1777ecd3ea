use frontend::syncable::{Syncable, CLIENT_UPDATE_DELAY_MS};

#[test]
fn new_value_is_shown() {
    let s = Syncable::new(3u32);
    assert_eq!(*s.get(), 3);
}

#[test]
fn server_value_shown_when_page_never_changed_it() {
    let mut s = Syncable::new(1u32);
    s.sync(Some(5), 1000);
    assert_eq!(*s.get(), 5);
    s.sync(None, 2000);
    assert_eq!(*s.get(), 5);
}

#[test]
fn recent_page_change_holds_off_server() {
    let mut s = Syncable::new(1u32);
    s.set(7, 1000);
    s.sync(Some(9), 1000 + CLIENT_UPDATE_DELAY_MS);
    assert_eq!(*s.get(), 7);
    s.sync(None, 1000 + CLIENT_UPDATE_DELAY_MS + 1);
    assert_eq!(*s.get(), 9);
}

#[test]
fn server_value_older_than_page_change_is_not_applied() {
    let mut s = Syncable::new(1u32);
    s.sync(Some(4), 100);
    assert_eq!(*s.get(), 4);
    s.set(8, 200);
    s.sync(None, 10_000);
    assert_eq!(*s.get(), 8);
}

#[test]
fn update_in_place_counts_as_page_change() {
    let mut s = Syncable::new(vec![1u8]);
    s.update(50).push(2);
    assert_eq!(s.get(), &vec![1, 2]);
    s.sync(Some(vec![9]), 60);
    assert_eq!(s.get(), &vec![1, 2]);
    s.sync(None, 600);
    assert_eq!(s.get(), &vec![9]);
}
