use feddit_archivieren::registry::Registry;

#[test]
fn fresh_registry_is_empty() {
    let r = Registry::new();
    assert_eq!(r.len(), 0);
}

#[test]
fn subscribing_appends_in_order() {
    let mut r = Registry::new();
    r.subscribe(10);
    r.subscribe(20);
    r.subscribe(30);
    assert_eq!(r.len(), 3);
    assert_eq!(r.subs[0].id, 10);
    assert_eq!(r.subs[1].id, 20);
    assert_eq!(r.subs[2].id, 30);
}

#[test]
fn successful_broadcast_keeps_everyone() {
    let mut r = Registry::new();
    r.subscribe(1);
    r.subscribe(2);
    r.record_broadcast("hallo", &vec![true, true]);
    assert_eq!(r.len(), 2);
    assert_eq!(r.subs[0].id, 1);
    assert_eq!(r.subs[1].id, 2);
}

#[test]
fn failed_write_removes_exactly_that_subscriber() {
    let mut r = Registry::new();
    r.subscribe(1);
    r.subscribe(2);
    r.subscribe(3);
    r.record_broadcast("eine Zeile", &vec![true, false, true]);
    assert_eq!(r.len(), 2);
    assert_eq!(r.subs[0].id, 1);
    assert_eq!(r.subs[1].id, 3);
    r.record_broadcast("noch eine", &vec![true, true]);
    assert_eq!(r.len(), 2);
    assert_eq!(r.subs[0].id, 1);
    assert_eq!(r.subs[1].id, 3);
}

#[test]
fn all_failed_broadcast_empties_the_registry() {
    let mut r = Registry::new();
    r.subscribe(7);
    r.record_broadcast("weg", &vec![false]);
    assert_eq!(r.len(), 0);
}

#[test]
fn late_subscriber_misses_nothing_later() {
    let mut r = Registry::new();
    r.subscribe(1);
    r.record_broadcast("vorher", &vec![true]);
    r.subscribe(2);
    r.record_broadcast("nachher", &vec![true, true]);
    assert_eq!(r.len(), 2);
    assert_eq!(r.subs[0].id, 1);
    assert_eq!(r.subs[1].id, 2);
}
