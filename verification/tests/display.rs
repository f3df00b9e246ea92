use hexcore::converter::Converter;
use hexcore::converter::ConverterTrait;
use hexcore::converter::ForAscii;
use hexcore::converter::ForHex;

#[test]
fn printable_chars_pass_through() {
    assert_eq!(Converter::to_printable_char(0x41), 'A');
    assert_eq!(Converter::to_printable_char(0x20), ' ');
    assert_eq!(Converter::to_printable_char(0x7e), '~');
}

#[test]
fn control_bytes_become_dots() {
    assert_eq!(Converter::to_printable_char(0x00), '.');
    assert_eq!(Converter::to_printable_char(0x1f), '.');
    assert_eq!(Converter::to_printable_char(0x7f), '.');
    assert_eq!(Converter::to_printable_char(0xff), '.');
}

#[test]
fn hex_row_spells_bytes_in_order() {
    assert_eq!(ForHex::convert(&[0xAB, 0x01, 0xFF]), "AB 01 FF");
    assert_eq!(ForHex::convert(&[0x00]), "00");
    assert_eq!(ForHex::convert(&[]), "");
}

#[test]
fn ascii_row_shows_printables_and_dots() {
    assert_eq!(ForAscii::convert(&[0x41, 0x00, 0x62, 0x7f]), "A.b.");
    assert_eq!(ForAscii::convert(&[]), "");
}

#[test]
fn lines_chunk_the_buffer() {
    let bytes: Vec<u8> = (0u8..18).collect();
    let lines = Converter::convert_to_lines::<ForHex>(&bytes, 16);
    assert_eq!(lines.len(), 2);
    assert_eq!(
        lines[0],
        "         00 01 02 03 04 05 06 07 08 09 0A 0B 0C 0D 0E 0F"
    );
    assert_eq!(lines[1], "         10 11");
}

#[test]
fn ascii_lines_chunk_the_buffer() {
    let bytes = vec![0x48u8, 0x69, 0x00];
    let lines = Converter::convert_to_lines::<ForAscii>(&bytes, 2);
    assert_eq!(lines.len(), 2);
    assert_eq!(lines[0], "         Hi");
    assert_eq!(lines[1], "         .");
}

#[test]
fn empty_buffer_yields_no_lines() {
    let lines = Converter::convert_to_lines::<ForHex>(&[], 16);
    assert!(lines.is_empty());
}
