use hexcore::event_handler::Command;
use hexcore::event_handler::EventHandler;
use hexcore::event_handler::record_save_result;
use hexcore::message::Message;
use hexcore::message::WriteMode;

fn session_with(bytes: Vec<u8>) -> Message {
    let mut message = Message::new();
    message.bin_data_mut().push_back(bytes);
    message
}

#[test]
fn overwrite_two_digits_replace_byte_in_place() {
    // buffer [01 02 03], cursor moved to index 1, Overwrite mode
    let mut message = session_with(vec![0x01, 0x02, 0x03]);
    let mut handler = EventHandler::new();
    handler.handle_command(Command::MoveRight, &mut message);
    assert_eq!(message.cursor().index(), 1);

    handler.handle_command(Command::EnterHexDigit('A'), &mut message);
    handler.handle_command(Command::EnterHexDigit('B'), &mut message);
    assert_eq!(message.bin_data().buf(), &[0x01, 0xAB, 0x03]);
}

#[test]
fn insert_mode_inserts_then_completes() {
    let mut message = session_with(vec![0x01]);
    let mut handler = EventHandler::new();
    handler.handle_command(Command::ToggleMode, &mut message);
    assert_eq!(*message.write_mode(), WriteMode::Insert);

    // first nibble: a fresh byte with the typed high nibble is inserted
    handler.handle_command(Command::EnterHexDigit('A'), &mut message);
    assert_eq!(message.bin_data().buf(), &[0xA0, 0x01]);

    // second nibble: the byte at the cursor gets the full value
    handler.handle_command(Command::EnterHexDigit('B'), &mut message);
    assert_eq!(message.bin_data().buf(), &[0xAB, 0x01]);
}

#[test]
fn delete_on_single_byte_zero_fills() {
    // buffer [01]: Delete keeps length 1 and zeroes the sole byte
    let mut message = session_with(vec![0x01]);
    let mut handler = EventHandler::new();
    handler.handle_command(Command::Delete, &mut message);
    assert_eq!(message.bin_data().buf(), &[0x00]);
    assert_eq!(message.bin_data().buf().len(), 1);
}

#[test]
fn delete_removes_byte_under_cursor() {
    let mut message = session_with(vec![0x01, 0x02, 0x03]);
    let mut handler = EventHandler::new();
    handler.handle_command(Command::MoveRight, &mut message);
    handler.handle_command(Command::Delete, &mut message);
    assert_eq!(message.bin_data().buf(), &[0x01, 0x03]);
    assert_eq!(message.cursor().index(), 1);
}

#[test]
fn delete_at_last_byte_steps_cursor_left() {
    let mut message = session_with(vec![0x01, 0x02]);
    let mut handler = EventHandler::new();
    handler.handle_command(Command::MoveRight, &mut message);
    handler.handle_command(Command::Delete, &mut message);
    assert_eq!(message.bin_data().buf(), &[0x01]);
    assert_eq!(message.cursor().index(), 0);
}

#[test]
fn move_up_at_origin_saturates() {
    // cursor at index 0, line width 16: MoveUp keeps the index at 0
    let mut message = session_with(vec![0x01, 0x02, 0x03]);
    let mut handler = EventHandler::new();
    handler.handle_command(Command::MoveUp, &mut message);
    assert_eq!(message.cursor().index(), 0);
}

#[test]
fn move_right_stops_one_past_the_end() {
    let mut message = session_with(vec![0x01, 0x02]);
    let mut handler = EventHandler::new();
    for _ in 0..5 {
        handler.handle_command(Command::MoveRight, &mut message);
    }
    assert_eq!(message.cursor().index(), 2);
}

#[test]
fn toggle_mode_flips_back_and_forth() {
    let mut message = session_with(vec![0x01]);
    let mut handler = EventHandler::new();
    assert_eq!(*message.write_mode(), WriteMode::OverWrite);
    handler.handle_command(Command::ToggleMode, &mut message);
    assert_eq!(*message.write_mode(), WriteMode::Insert);
    handler.handle_command(Command::ToggleMode, &mut message);
    assert_eq!(*message.write_mode(), WriteMode::OverWrite);
}

#[test]
fn quit_on_a_fresh_session() {
    // quitting never touches the buffer, so it works before any load
    let mut message = Message::new();
    let mut handler = EventHandler::new();
    handler.handle_command(Command::Quit, &mut message);
    assert!(!handler.is_looping());
    assert_eq!(message.bin_data().buf().len(), 0);
}

#[test]
fn quit_stops_the_loop() {
    let mut message = session_with(vec![0x01]);
    let mut handler = EventHandler::new();
    assert!(handler.is_looping());
    handler.handle_command(Command::Quit, &mut message);
    assert!(!handler.is_looping());
}

#[test]
fn save_without_path_queues_notice() {
    let mut message = session_with(vec![0x01]);
    let mut handler = EventHandler::new();
    let save_to = handler.handle_command(Command::Save, &mut message);
    assert_eq!(save_to, None);
    assert_eq!(message.notice_mut().pop_front(), " Not specified file path ");
}

#[test]
fn save_with_path_hands_it_back() {
    let mut message = session_with(vec![0x01]);
    *message.current_file_mut().path_mut() = String::from("out.bin");
    let mut handler = EventHandler::new();
    let save_to = handler.handle_command(Command::Save, &mut message);
    assert_eq!(save_to, Some(String::from("out.bin")));
    // no notice yet: the outcome is reported once the write happened
    assert_eq!(message.notice_mut().pop_front(), "");
}

#[test]
fn save_outcomes_are_reported() {
    let mut message = session_with(vec![0x01]);
    record_save_result(&mut message, Ok(()));
    assert_eq!(message.notice_mut().pop_front(), " Saved! ");

    let mut message = session_with(vec![0x01]);
    record_save_result(&mut message, Err(String::from("disk full")));
    assert_eq!(message.notice_mut().pop_front(), " disk full ");
}

#[test]
fn moving_primes_assembler_from_new_cell() {
    let mut message = session_with(vec![0x12, 0x34]);
    let mut handler = EventHandler::new();
    handler.handle_command(Command::MoveRight, &mut message);
    // assembler now spells 0x34; one typed digit lands in the high slot
    handler.handle_command(Command::EnterHexDigit('F'), &mut message);
    assert_eq!(message.bin_data().buf(), &[0x12, 0xF4]);
}
