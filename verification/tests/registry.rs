use d_switch::registry::{state, FocusRegistry};

#[test]
fn save_then_lookup_other_index() {
    let mut reg = state();
    reg.save(0, 7);
    reg.save(1, 9);
    assert_eq!(reg.lookup(0), Some(7));
    assert_eq!(reg.lookup(1), Some(9));
}

#[test]
fn repeated_save_same_arguments() {
    let mut once = FocusRegistry::new();
    once.save(2, 5);
    let mut twice = FocusRegistry::new();
    twice.save(2, 5);
    twice.save(2, 5);
    for index in 0..12 {
        assert_eq!(once.lookup(index), twice.lookup(index));
    }
    assert_eq!(twice.lookup(2), Some(5));
}

#[test]
fn lookup_never_saved_returns_none() {
    let reg = state();
    assert_eq!(reg.lookup(0), None);
    assert_eq!(reg.lookup(8), None);
}

#[test]
fn zero_handle_is_a_real_entry() {
    let mut reg = state();
    reg.save(1, 0);
    assert_eq!(reg.lookup(1), Some(0));
    assert_eq!(reg.lookup(2), None);
}

#[test]
fn overwrite_same_index() {
    let mut reg = state();
    reg.save(3, 10);
    reg.save(3, 11);
    assert_eq!(reg.lookup(3), Some(11));
}
