use rod_bridge::registry::IdentityRegistry;

#[test]
fn lookup_reflects_most_recent_operation() {
    let mut reg = IdentityRegistry::new();
    assert_eq!(reg.lookup(1), None);
    reg.bind(1, 10);
    assert_eq!(reg.lookup(1), Some(10));
    reg.bind(2, 20);
    assert_eq!(reg.lookup(1), Some(10));
    assert_eq!(reg.lookup(2), Some(20));
    reg.unbind(1);
    assert_eq!(reg.lookup(1), None);
    assert_eq!(reg.lookup(2), Some(20));
    reg.bind(1, 11);
    assert_eq!(reg.lookup(1), Some(11));
}

#[test]
fn unbind_of_unbound_id_is_harmless() {
    let mut reg = IdentityRegistry::new();
    reg.unbind(42);
    assert_eq!(reg.lookup(42), None);
    reg.bind(42, 4);
    reg.unbind(7);
    assert_eq!(reg.lookup(42), Some(4));
}

#[test]
fn rebind_replaces_the_entry() {
    let mut reg = IdentityRegistry::new();
    reg.bind(5, 50);
    reg.bind(5, 51);
    assert_eq!(reg.lookup(5), Some(51));
    reg.unbind(5);
    assert_eq!(reg.lookup(5), None);
}

#[test]
fn interleaved_bind_unbind_history() {
    let mut reg = IdentityRegistry::new();
    reg.bind(1, 1);
    reg.bind(2, 2);
    reg.bind(3, 3);
    reg.unbind(2);
    reg.bind(4, 4);
    reg.unbind(1);
    reg.bind(2, 22);
    assert_eq!(reg.lookup(1), None);
    assert_eq!(reg.lookup(2), Some(22));
    assert_eq!(reg.lookup(3), Some(3));
    assert_eq!(reg.lookup(4), Some(4));
    assert_eq!(reg.lookup(5), None);
}
