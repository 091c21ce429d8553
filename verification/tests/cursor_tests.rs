use trav::cursor::Cursor;

#[test]
fn with_items_selects_first_when_nonempty() {
    let c = Cursor::with_items(vec![10i32, 20, 30]);
    assert_eq!(c.current_idx(), Some(0));
    assert_eq!(c.len(), 3);
    assert_eq!(c.current(), Some(&10));
}

#[test]
fn with_items_empty_has_no_selection() {
    let c: Cursor<i32> = Cursor::with_items(Vec::new());
    assert_eq!(c.current_idx(), None);
    assert_eq!(c.len(), 0);
}

#[test]
fn new_is_empty() {
    let c: Cursor<u8> = Cursor::new();
    assert_eq!(c.len(), 0);
    assert_eq!(c.current_idx(), None);
}

#[test]
fn next_wraps_and_round_trips_from_any_start() {
    // A walk of length n returns to the start, from every start.
    for start in 0..3usize {
        let mut c = Cursor::with_items(vec![10i32, 20, 30]);
        c.select(Some(start));
        assert_eq!(c.current_idx(), Some(start));
        for _ in 0..3 {
            c.next();
        }
        assert_eq!(c.current_idx(), Some(start));
    }
}

#[test]
fn previous_wraps_and_round_trips_from_any_start() {
    for start in 0..4usize {
        let mut c = Cursor::with_items(vec![1i32, 2, 3, 4]);
        c.select(Some(start));
        for _ in 0..4 {
            c.previous();
        }
        assert_eq!(c.current_idx(), Some(start));
    }
}

#[test]
fn next_steps_forward_and_wraps_at_end() {
    let mut c = Cursor::with_items(vec![10i32, 20, 30]);
    assert_eq!(c.next(), Some(1));
    assert_eq!(c.next(), Some(2));
    assert_eq!(c.next(), Some(0));
    assert_eq!(c.current(), Some(&10));
}

#[test]
fn previous_wraps_at_start() {
    let mut c = Cursor::with_items(vec![10i32, 20, 30]);
    assert_eq!(c.previous(), Some(2));
    assert_eq!(c.current(), Some(&30));
}

#[test]
fn empty_sequence_moves_yield_no_selection() {
    let mut c: Cursor<i32> = Cursor::with_items(Vec::new());
    assert_eq!(c.next(), None);
    assert_eq!(c.previous(), None);
    assert_eq!(c.current(), None);
    assert_eq!(c.current_idx(), None);
}

#[test]
fn select_out_of_range_clamps_to_last() {
    let mut c = Cursor::with_items(vec![10i32, 20, 30]);
    c.select(Some(3));
    assert_eq!(c.current_idx(), Some(2));
    c.select(Some(1000));
    assert_eq!(c.current_idx(), Some(2));
    c.select(Some(1));
    assert_eq!(c.current_idx(), Some(1));
}

#[test]
fn select_on_empty_yields_none() {
    let mut c: Cursor<i32> = Cursor::with_items(Vec::new());
    c.select(Some(0));
    assert_eq!(c.current_idx(), None);
    c.select(Some(7));
    assert_eq!(c.current_idx(), None);
}

#[test]
fn select_none_clears_selection() {
    let mut c = Cursor::with_items(vec![10i32, 20]);
    c.select(None);
    assert_eq!(c.current_idx(), None);
    assert_eq!(c.current(), None);
}

#[test]
fn next_from_cleared_selection_picks_first() {
    let mut c = Cursor::with_items(vec![10i32, 20]);
    c.select(None);
    assert_eq!(c.next(), Some(0));
}

#[test]
fn items_exposes_the_sequence() {
    let c = Cursor::with_items(vec![5i32, 6]);
    assert_eq!(c.items(), &vec![5i32, 6]);
}
