use frontend::inventory::SellQueue;

#[test]
fn toggle_marks_and_unmarks() {
    let mut q = SellQueue::new();
    assert!(q.is_empty());
    q.toggle(3);
    assert!(q.contains(3));
    assert!(!q.is_empty());
    q.toggle(3);
    assert!(!q.contains(3));
    assert!(q.is_empty());
}

#[test]
fn unmark_and_clear() {
    let mut q = SellQueue::new();
    q.toggle(1);
    q.toggle(2);
    q.unmark(1);
    q.unmark(5);
    assert!(!q.contains(1));
    assert!(q.contains(2));
    q.clear();
    assert!(q.is_empty());
}

#[test]
fn drain_gives_each_marked_item_once() {
    let mut q = SellQueue::new();
    q.toggle(4);
    q.toggle(0);
    q.toggle(9);
    q.toggle(0);
    let mut sold = q.drain_for_sale();
    sold.sort();
    assert_eq!(sold, vec![4, 9]);
    assert!(q.is_empty());
    assert!(q.drain_for_sale().is_empty());
}

#[test]
fn drain_keeps_low_byte() {
    let mut q = SellQueue::new();
    q.toggle(260);
    assert_eq!(q.drain_for_sale(), vec![4]);
}
