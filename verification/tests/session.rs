use hexcore::message::CurrentFile;
use hexcore::message::Message;
use hexcore::message::Notice;
use hexcore::message::WriteMode;

#[test]
fn fresh_session_defaults() {
    let message = Message::new();
    assert_eq!(message.bin_data().buf().len(), 0);
    assert_eq!(message.cursor().index(), 0);
    assert_eq!(message.scroll().scroll_y(), &[0, 0]);
    assert_eq!(*message.write_mode(), WriteMode::OverWrite);
    assert!(message.current_file().path().is_none());
}

#[test]
fn current_file_path_roundtrip() {
    let mut file = CurrentFile::new();
    assert!(file.path().is_none());
    *file.path_mut() = String::from("samples/data.bin");
    assert_eq!(file.path(), Some(&String::from("samples/data.bin")));
}

#[test]
fn file_name_is_last_path_component() {
    let mut file = CurrentFile::new();
    *file.path_mut() = String::from("dir/sub/data.bin");
    assert_eq!(file.file_name(), "data.bin");

    *file.path_mut() = String::from("data.bin");
    assert_eq!(file.file_name(), "data.bin");
}

#[test]
fn file_name_ignores_trailing_separator() {
    let mut file = CurrentFile::new();
    *file.path_mut() = String::from("dir/");
    assert_eq!(file.file_name(), "dir");

    *file.path_mut() = String::from("a/b//");
    assert_eq!(file.file_name(), "b");
}

#[test]
fn file_name_ignores_lone_dot_components() {
    let mut file = CurrentFile::new();
    *file.path_mut() = String::from("a/b/.");
    assert_eq!(file.file_name(), "b");

    *file.path_mut() = String::from("a/./");
    assert_eq!(file.file_name(), "a");
}

#[test]
fn file_name_falls_back_to_full_path() {
    let mut file = CurrentFile::new();
    *file.path_mut() = String::from("/");
    assert_eq!(file.file_name(), "/");

    *file.path_mut() = String::from("a/..");
    assert_eq!(file.file_name(), "a/..");

    *file.path_mut() = String::from("..");
    assert_eq!(file.file_name(), "..");

    *file.path_mut() = String::from(".");
    assert_eq!(file.file_name(), ".");
}

#[test]
fn file_name_placeholder_when_empty() {
    let file = CurrentFile::new();
    assert_eq!(file.file_name(), "no file");
}

#[test]
fn notice_message_decays_after_a_few_ticks() {
    let mut notice = Notice::new();
    notice.add(String::from("hi"));
    assert_eq!(notice.pop_front(), " hi ");
    assert_eq!(notice.pop_front(), " hi ");
    assert_eq!(notice.pop_front(), " hi ");
    assert_eq!(notice.pop_front(), " hi ");
    assert_eq!(notice.pop_front(), "");
}

#[test]
fn notice_queue_is_first_in_first_out() {
    let mut notice = Notice::new();
    notice.add(String::from("one"));
    notice.add(String::from("two"));
    assert_eq!(notice.pop_front(), " one ");
    // the first message keeps showing for its display lifetime
    assert_eq!(notice.pop_front(), " one ");
    assert_eq!(notice.pop_front(), " one ");
    assert_eq!(notice.pop_front(), " one ");
    assert_eq!(notice.pop_front(), " two ");
}

#[test]
fn mutable_accessors_write_through() {
    let mut message = Message::new();
    message.bin_data_mut().push_back(vec![0x42]);
    assert_eq!(message.bin_data().buf(), &[0x42]);
    message.cursor_mut().move_to_right(1);
    assert_eq!(message.cursor().index(), 1);
    message.scroll_mut().scroll_y_mut()[1] = 9;
    assert_eq!(message.scroll().scroll_y(), &[0, 9]);
    message.notice_mut().add(String::from("note"));
    assert_eq!(message.notice_mut().pop_front(), " note ");
}
