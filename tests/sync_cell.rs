use write_once::sync;

#[test]
fn sync_fresh_cell_is_empty_then_reads_back() {
    let cell: sync::OnceCell<u64> = sync::OnceCell::new();
    assert_eq!(cell.get(), None);
    assert_eq!(cell.set(42), Ok(()));
    assert_eq!(cell.get(), Some(&42));
}

#[test]
fn sync_second_set_is_rejected_with_its_value() {
    let cell: sync::OnceCell<String> = sync::OnceCell::new();
    assert_eq!(cell.set(String::from("Hello")), Ok(()));
    assert_eq!(cell.set(String::from("World")), Err(String::from("World")));
    assert_eq!(cell.get(), Some(&String::from("Hello")));
}

#[test]
fn sync_set_on_completed_cell_fails_at_once() {
    let cell: sync::OnceCell<u64> = sync::OnceCell::new();
    assert_eq!(cell.set(1), Ok(()));
    for i in 2..50u64 {
        assert_eq!(cell.set(i), Err(i));
    }
    assert_eq!(cell.get(), Some(&1));
}

#[test]
fn sync_repeated_reads_agree() {
    let cell: sync::OnceCell<Vec<u8>> = sync::OnceCell::new();
    assert!(cell.set(vec![4, 5, 6]).is_ok());
    let a = cell.get();
    let b = cell.get();
    assert_eq!(a, Some(&vec![4, 5, 6]));
    assert_eq!(a, b);
    assert!(std::ptr::eq(a.unwrap(), b.unwrap()));
}

#[test]
fn sync_end_to_end_scenario() {
    let cell: sync::OnceCell<&str> = sync::OnceCell::new();
    assert_eq!(cell.get(), None);
    assert_eq!(cell.set("a"), Ok(()));
    assert_eq!(cell.set("b"), Err("b"));
    assert_eq!(cell.get(), Some(&"a"));
}
