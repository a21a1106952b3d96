use debug_cell::{BorrowState, Location, RefCell};

fn loc(s: &str) -> Location {
    Location::new(s.to_string())
}

#[test]
fn ok_borrows() {
    let mut a = RefCell::new(2);
    let b = a.borrow(loc("first shared"));
    let c = a.borrow(loc("second shared"));
    assert_eq!(*a.read(&b), 2);
    assert_eq!(*a.read(&c), 2);
    a.release(b);
    a.release(c);

    let b = a.borrow_mut(loc("exclusive"));
    assert_eq!(*a.read_mut(&b), 2);
    a.write(&b, 4);
    a.release_mut(b);

    let b = a.borrow(loc("read back"));
    assert_eq!(*a.read(&b), 4);
    a.release(b);
}

#[test]
#[should_panic]
fn bad_borrow_mut() {
    let mut a = RefCell::new(2);
    let _a = a.borrow(loc("shared"));
    a.borrow_mut(loc("conflicting exclusive"));
}

#[test]
#[should_panic]
fn bad_borrow() {
    let mut a = RefCell::new(2);
    let _a = a.borrow_mut(loc("exclusive"));
    a.borrow(loc("conflicting shared"));
}

#[test]
fn failed_exclusive_leaves_state_unchanged() {
    let mut a = RefCell::new(5);
    let g = a.borrow(loc("reader"));
    let r = a.try_borrow_mut(loc("writer"));
    let e = match r {
        Err(e) => e,
        Ok(_) => panic!("exclusive acquisition must fail while a shared access is alive"),
    };
    assert_eq!(e.attempted_at.describe(), "writer");
    assert_eq!(e.already_borrowed_at.len(), 1);
    assert_eq!(e.already_borrowed_at[0].describe(), "reader");
    assert_eq!(a.state(), BorrowState::Reading);

    let g2 = match a.try_borrow(loc("second reader")) {
        Ok(g) => g,
        Err(_) => panic!("shared access must stay reentrant after a failed exclusive attempt"),
    };
    assert_eq!(*a.read(&g2), 5);
    a.release(g2);
    a.release(g);
    assert_eq!(a.state(), BorrowState::Unused);
}

#[test]
fn exclusive_blocks_all() {
    let mut a = RefCell::new(1);
    let g = a.borrow_mut(loc("writer"));
    assert!(a.try_borrow(loc("reader")).is_err());
    assert!(a.try_borrow_mut(loc("second writer")).is_err());
    match a.try_borrow(loc("reader again")) {
        Err(e) => {
            assert_eq!(e.already_borrowed_at.len(), 1);
            assert_eq!(e.already_borrowed_at[0].describe(), "writer");
        },
        Ok(_) => panic!("shared acquisition must fail while the exclusive access is alive"),
    }
    assert_eq!(a.state(), BorrowState::Writing);
    a.release_mut(g);
    assert_eq!(a.state(), BorrowState::Unused);
}

#[test]
fn many_shared_then_unused() {
    let mut a = RefCell::new(9);
    let mut guards = Vec::new();
    for i in 0..3 {
        guards.push(a.borrow(loc(&format!("reader {i}"))));
        assert_eq!(a.state(), BorrowState::Reading);
    }
    while let Some(g) = guards.pop() {
        assert_eq!(*a.read(&g), 9);
        a.release(g);
    }
    assert_eq!(a.state(), BorrowState::Unused);
    assert_eq!(a.into_inner(), 9);
}

#[test]
fn release_restores_prior_state() {
    let mut a = RefCell::new(0);
    assert_eq!(a.state(), BorrowState::Unused);
    let g = a.borrow(loc("shared"));
    assert_eq!(a.state(), BorrowState::Reading);
    a.release(g);
    assert_eq!(a.state(), BorrowState::Unused);
    let g = a.borrow_mut(loc("exclusive"));
    assert_eq!(a.state(), BorrowState::Writing);
    a.release_mut(g);
    assert_eq!(a.state(), BorrowState::Unused);
}

#[test]
fn into_inner_returns_value() {
    let a = RefCell::new(7);
    assert_eq!(a.into_inner(), 7);
}
