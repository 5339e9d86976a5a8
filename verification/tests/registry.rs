use spider_rs::registry::Handles;

#[test]
fn first_id_is_zero_and_ids_count_up() {
    let mut h = Handles::new();
    assert_eq!(h.next_id(), 0);
    h.insert(h.next_id());
    assert_eq!(h.next_id(), 1);
    h.insert(h.next_id());
    assert_eq!(h.len(), 2);
    assert!(h.contains(0) && h.contains(1));
}

#[test]
fn remove_reports_presence() {
    let mut h = Handles::new();
    h.insert(0);
    assert!(h.remove(0));
    assert!(!h.remove(0));
    assert_eq!(h.len(), 0);
    assert_eq!(h.next_id(), 0);
}

#[test]
fn inserting_a_present_id_changes_nothing() {
    let mut h = Handles::new();
    h.insert(3);
    h.insert(3);
    assert_eq!(h.len(), 1);
}

#[test]
fn drain_hands_out_ids_in_order() {
    let mut h = Handles::new();
    h.insert(0);
    h.insert(1);
    h.insert(2);
    assert_eq!(h.drain(), vec![0, 1, 2]);
    assert_eq!(h.len(), 0);
}

#[test]
fn removing_an_early_id_keeps_the_next_id_fresh() {
    let mut h = Handles::new();
    h.insert(0);
    h.insert(1);
    h.insert(2);
    assert!(h.remove(0));
    // the last id (2) moved into the removed place: the order is now 2, 1,
    // and the next id is above the highest one
    assert_eq!(h.next_id(), 3);
    h.insert(h.next_id());
    assert_eq!(h.drain(), vec![2, 1, 3]);
}

#[test]
fn removing_the_last_id_restores_the_registry() {
    let mut h = Handles::new();
    h.insert(0);
    h.insert(1);
    let id = h.next_id();
    h.insert(id);
    assert!(h.remove(id));
    assert_eq!(h.drain(), vec![0, 1]);
}
