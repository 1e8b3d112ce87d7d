use portserve::state::PortCell;

#[test]
fn port_is_set_once() {
    let mut c = PortCell::new();
    assert!(!c.is_set());
    assert_eq!(c.get(), None);
    assert_eq!(c.set_once(20000), 20000);
    assert!(c.is_set());
    assert_eq!(c.set_once(21000), 20000);
    assert_eq!(c.get(), Some(20000));
    assert_eq!(c.get(), Some(20000));
}
