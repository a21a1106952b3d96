use debug_cell::{BorrowState, Location, RefCell, locations_display};

fn loc(s: &str) -> Location {
    Location::new(s.to_string())
}

#[test]
fn locations_display_empty() {
    assert_eq!(locations_display(&[]), "");
}

#[test]
fn locations_display_joins_blocks() {
    let single = vec![loc("src/main.rs:3:9")];
    assert_eq!(locations_display(&single), "  ---------------\n  src/main.rs:3:9");

    let pair = vec![loc("a"), loc("b")];
    assert_eq!(locations_display(&pair), "  ---------------\n  a\n  ---------------\n  b");
}

#[test]
fn borrow_mut_error_message_lists_readers() {
    let mut a = RefCell::new(0);
    let g1 = a.borrow(loc("src/main.rs:10:5"));
    let g2 = a.borrow(loc("src/main.rs:11:5"));
    let e = match a.try_borrow_mut(loc("src/main.rs:20:5")) {
        Err(e) => e,
        Ok(_) => panic!("exclusive acquisition must fail while shared accesses are alive"),
    };
    assert_eq!(
        e.message(),
        "Value is already borrowed, current active borrows:\n  ---------------\n  \
         src/main.rs:10:5\n  ---------------\n  src/main.rs:11:5\n\n"
    );
    a.release(g2);
    a.release(g1);
}

#[test]
fn borrow_error_message_names_writer() {
    let mut a = RefCell::new(0);
    let g = a.borrow_mut(loc("src/main.rs:30:5"));
    let e = match a.try_borrow(loc("src/main.rs:40:5")) {
        Err(e) => e,
        Ok(_) => panic!("shared acquisition must fail while the exclusive access is alive"),
    };
    assert_eq!(
        e.message(),
        "Value is already borrowed mutably, current active borrows: \n  ---------------\n  \
         src/main.rs:30:5\n\n"
    );
    assert_eq!(e.attempted_at.describe(), "src/main.rs:40:5");
    a.release_mut(g);
}

#[test]
fn without_diagnostics_records_nothing() {
    let mut a = RefCell::new_without_diagnostics(3);
    let g = a.borrow(loc("ignored"));
    let e = match a.try_borrow_mut(loc("also ignored")) {
        Err(e) => e,
        Ok(_) => panic!("exclusive acquisition must fail while a shared access is alive"),
    };
    assert_eq!(e.already_borrowed_at.len(), 0);
    assert_eq!(e.message(), "Value is already borrowed");
    assert_eq!(e.attempted_at.describe(), "also ignored");
    a.release(g);

    let m = a.borrow_mut(loc("still ignored"));
    let e = match a.try_borrow(loc("reader")) {
        Err(e) => e,
        Ok(_) => panic!("shared acquisition must fail while the exclusive access is alive"),
    };
    assert_eq!(e.already_borrowed_at.len(), 0);
    assert_eq!(e.message(), "Value is already borrowed mutably");
    a.release_mut(m);

    assert_eq!(a.state(), BorrowState::Unused);
    assert_eq!(a.into_inner(), 3);
}
