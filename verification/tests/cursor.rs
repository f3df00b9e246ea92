use hexcore::message::CursorPosition;

#[test]
fn move_left_saturates_at_zero() {
    let mut cursor = CursorPosition::new();
    cursor.move_to_left();
    assert_eq!(cursor.index(), 0);
}

#[test]
fn move_up_saturates_at_zero() {
    let mut cursor = CursorPosition::new();
    cursor.move_to_up();
    assert_eq!(cursor.index(), 0);
    cursor.move_to_right(40);
    cursor.move_to_up();
    assert_eq!(cursor.index(), 0);
}

#[test]
fn move_right_clamps_to_limit() {
    let mut cursor = CursorPosition::new();
    cursor.move_to_right(2);
    assert_eq!(cursor.index(), 1);
    cursor.move_to_right(2);
    assert_eq!(cursor.index(), 2);
    cursor.move_to_right(2);
    assert_eq!(cursor.index(), 2);
}

#[test]
fn move_down_advances_one_line() {
    let mut cursor = CursorPosition::new();
    cursor.move_to_down(40);
    assert_eq!(cursor.index(), 16);
    cursor.move_to_down(40);
    assert_eq!(cursor.index(), 32);
    cursor.move_to_down(40);
    assert_eq!(cursor.index(), 40);
}

#[test]
fn move_up_steps_back_one_line() {
    let mut cursor = CursorPosition::new();
    cursor.move_to_down(64);
    cursor.move_to_down(64);
    cursor.move_to_up();
    assert_eq!(cursor.index(), 16);
}

#[test]
fn position_derives_from_index() {
    let mut cursor = CursorPosition::new();
    assert_eq!(cursor.position().x, 10);
    assert_eq!(cursor.position().y, 2);
    for _ in 0..17 {
        cursor.move_to_right(100);
    }
    cursor.calc_position();
    // index 17: row 1, column 1 within the line
    assert_eq!(cursor.position().x, 10 + 3);
    assert_eq!(cursor.position().y, 2 + 1);
}

#[test]
fn position_includes_pending_nibble_offset() {
    let mut cursor = CursorPosition::new();
    cursor.input_buf_x(1);
    cursor.calc_position();
    assert_eq!(cursor.position().x, 11);
    assert_eq!(cursor.position().y, 2);
}

#[test]
fn adjust_y_caps_row() {
    let mut cursor = CursorPosition::new();
    for _ in 0..10 {
        cursor.move_to_down(1000);
    }
    cursor.calc_position();
    assert_eq!(cursor.position().y, 12);
    cursor.adjust_y(5);
    assert_eq!(cursor.position().y, 5);
    cursor.adjust_y(9);
    assert_eq!(cursor.position().y, 5);
}
