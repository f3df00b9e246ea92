use hexcore::message::Scroll;

#[test]
fn new_scroll_is_zeroed() {
    let scroll = Scroll::new();
    assert_eq!(scroll.scroll_y(), &[0, 0]);
}

#[test]
fn scroll_y_mut_writes_through() {
    let mut scroll = Scroll::new();
    scroll.scroll_y_mut()[0] = 7;
    scroll.scroll_y_mut()[1] = 3;
    assert_eq!(scroll.scroll_y(), &[7, 3]);
}

#[test]
fn border_is_bottom_minus_margin() {
    assert_eq!(Scroll::calc_border(20), 17);
    assert_eq!(Scroll::calc_border(3), 0);
    assert_eq!(Scroll::calc_border(2), 0);
    assert_eq!(Scroll::calc_border(0), 0);
}

#[test]
fn scroll_amount_keeps_cursor_at_border() {
    assert_eq!(Scroll::calc_scroll(10, 7), 3);
    assert_eq!(Scroll::calc_scroll(7, 7), 0);
    assert_eq!(Scroll::calc_scroll(0, 7), 0);
    // the row minus the offset never passes the border
    for y in 0..50u16 {
        let border = 17;
        let offset = Scroll::calc_scroll(y, border);
        assert!(y - offset <= border);
    }
}
