//! Command handling: the two-digit hex input assembler and the state
//! machine that applies decoded editor commands to the session state.

use crate::hex::hex_char_of;
use crate::hex::hex_digit_to_value;
use crate::hex::hex_digit_value;
use crate::hex::is_hex_digit;
use crate::hex::is_hex_digit_char;
use crate::hex::spec_hex_char;
use crate::message::Message;
use crate::message::WriteMode;
use vstd::prelude::*;
use vstd::string::StringExecFns;

verus! {

/// One already-decoded editor command.  The mapping from physical key
/// presses to these commands is the input decoder's responsibility.
#[derive(Clone, Copy, Debug, PartialEq, Eq, Structural)]
pub enum Command {
    MoveLeft,
    MoveRight,
    MoveUp,
    MoveDown,
    Delete,
    ToggleMode,
    EnterHexDigit(char),
    Save,
    Quit,
}

/// Failure of parsing the two assembler slots as one base-16 byte.  It
/// cannot arise through the public operations, which keep both slots
/// valid hexadecimal digits.
#[derive(Clone, Copy, Debug, PartialEq, Eq, Structural)]
pub struct HexParseError;

/// A two-slot hexadecimal digit accumulator: the high and low nibble of
/// one byte being typed, plus the write cursor that cycles between them.
#[derive(Debug)]
pub struct InputBuf {
    buf: [char; 2],
    index: usize,
}

impl InputBuf {
    pub closed spec fn spec_buf(&self) -> Seq<char> {
        self.buf@
    }

    pub closed spec fn spec_index(&self) -> usize {
        self.index
    }

    /// Both slots always hold hexadecimal digits, and the write cursor
    /// stays on one of the two slots.
    pub open spec fn wf(&self) -> bool {
        &&& self.spec_index() <= 1
        &&& self.spec_buf().len() == 2
        &&& is_hex_digit(self.spec_buf()[0])
        &&& is_hex_digit(self.spec_buf()[1])
    }

    /// The byte the two slots spell in base 16.
    pub open spec fn spec_value(&self) -> int {
        hex_digit_value(self.spec_buf()[0]) * 16 + hex_digit_value(self.spec_buf()[1])
    }

    pub fn new() -> (r: Self)
        ensures
            r.spec_buf() =~= seq!['0', '0'],
            r.spec_index() == 0,
            r.wf(),
            r.spec_value() == 0,
    {
        let buf: [char; 2] = ['0'; 2];
        let index: usize = 0;
        Self { buf, index }
    }

    /// Writes one typed digit into the slot under the write cursor, then
    /// advances the cursor modulo 2.
    pub fn add(&mut self, value: char)
        requires
            old(self).wf(),
            is_hex_digit(value),
        ensures
            final(self).spec_buf() == old(self).spec_buf().update(
                old(self).spec_index() as int,
                value,
            ),
            final(self).spec_index() == (old(self).spec_index() + 1) % 2,
            final(self).wf(),
    {
        if self.index == 0 {
            self.buf = [value, self.buf[1]];
        } else {
            self.buf = [self.buf[0], value];
        }
        self.index = (self.index + 1) % 2;
        proof {
            assert(final(self).spec_buf() =~= old(self).spec_buf().update(
                old(self).spec_index() as int,
                value,
            ));
        }
    }

    /// Parses the two slots as one base-16 byte; fails only if a slot does
    /// not hold a valid hexadecimal digit, which the public operations
    /// never allow.
    pub fn to_hex(&self) -> (r: Result<u8, HexParseError>)
        ensures
            is_hex_digit(self.spec_buf()[0]) && is_hex_digit(self.spec_buf()[1]) ==> r
                == Ok::<u8, HexParseError>(self.spec_value() as u8),
            !(is_hex_digit(self.spec_buf()[0]) && is_hex_digit(self.spec_buf()[1])) ==> r
                is Err,
    {
        let c0 = self.buf[0];
        let c1 = self.buf[1];
        if is_hex_digit_char(c0) && is_hex_digit_char(c1) {
            Ok(hex_digit_to_value(c0) * 16 + hex_digit_to_value(c1))
        } else {
            Err(HexParseError)
        }
    }

    /// Primes both slots with the hexadecimal representation of `value`
    /// and rewinds the write cursor, so typing starts from that byte.
    pub fn set_value(&mut self, value: u8)
        ensures
            final(self).spec_buf() =~= seq![
                spec_hex_char(value as int / 16),
                spec_hex_char(value as int % 16),
            ],
            final(self).spec_index() == 0,
            final(self).wf(),
            final(self).spec_value() == value,
    {
        let hi = hex_char_of(value / 16);
        let lo = hex_char_of(value % 16);
        self.buf = [hi, lo];
        self.index = 0;
    }

    /// Which slot the next typed digit lands in: 0 or 1.
    pub fn index(&self) -> (r: usize)
        ensures
            r == self.spec_index(),
    {
        self.index
    }
}

/// The assembler slots after priming from the buffer cell at `index`: the
/// cell under the cursor, or the last byte when the cursor sits one past
/// the end.
pub open spec fn spec_reset_slots(data: Seq<u8>, index: int) -> Seq<char> {
    let b = if index < data.len() {
        data[index]
    } else {
        data[data.len() - 1]
    };
    seq![spec_hex_char(b as int / 16), spec_hex_char(b as int % 16)]
}

/// The buffer contents after a delete at `index`: the byte is removed,
/// except that a one-byte buffer keeps its length and is zero-filled, and
/// an out-of-range index changes nothing.
pub open spec fn spec_delete_buffer(data: Seq<u8>, index: int) -> Seq<u8> {
    if data.len() > 1 && index < data.len() {
        data.remove(index)
    } else if data.len() == 1 {
        data.update(0, 0u8)
    } else {
        data
    }
}

/// The cursor index after a delete: one step left when the deleted cell
/// was the last valid one, unchanged otherwise.
pub open spec fn spec_delete_cursor(index: int, len: int) -> int {
    if index == len - 1 {
        if index >= 1 {
            index - 1
        } else {
            0
        }
    } else {
        index
    }
}

/// What one cursor-movement command leaves behind: the cursor lands on
/// `new_index` with the caret rewound to the cell's first nibble, the
/// assembler is primed from that cell, and everything else stays as it
/// was.
pub open spec fn spec_moved(
    pre_h: EventHandler,
    pre_m: Message,
    post_h: EventHandler,
    post_m: Message,
    save_to: Option<String>,
    new_index: int,
) -> bool {
    &&& post_m.spec_cursor().spec_index() == new_index
    &&& post_m.spec_cursor().spec_input_buf_x() == 0
    &&& post_m.spec_cursor().spec_position() == pre_m.spec_cursor().spec_position()
    &&& post_m.spec_bin_data() == pre_m.spec_bin_data()
    &&& post_m.spec_scroll() == pre_m.spec_scroll()
    &&& post_m.spec_write_mode() == pre_m.spec_write_mode()
    &&& post_m.spec_current_file() == pre_m.spec_current_file()
    &&& post_m.spec_notice() == pre_m.spec_notice()
    &&& post_h.spec_looping() == pre_h.spec_looping()
    &&& post_h.spec_input_buf().spec_buf() == spec_reset_slots(pre_m.spec_bin_data()@, new_index)
    &&& post_h.spec_input_buf().spec_index() == 0
    &&& save_to is None
}

/// What feeding the hex digit `c` leaves behind, per write mode.
pub open spec fn spec_entered(
    pre_h: EventHandler,
    pre_m: Message,
    post_h: EventHandler,
    post_m: Message,
    save_to: Option<String>,
    c: char,
) -> bool {
    let slots = pre_h.spec_input_buf().spec_buf();
    let idx0 = pre_h.spec_input_buf().spec_index() as int;
    let newslots = slots.update(idx0, c);
    let val = hex_digit_value(newslots[0]) * 16 + hex_digit_value(newslots[1]);
    let ci = pre_m.spec_cursor().spec_index() as int;
    let data = pre_m.spec_bin_data()@;
    &&& save_to is None
    &&& post_h.spec_looping() == pre_h.spec_looping()
    &&& post_m.spec_scroll() == pre_m.spec_scroll()
    &&& post_m.spec_write_mode() == pre_m.spec_write_mode()
    &&& post_m.spec_current_file() == pre_m.spec_current_file()
    &&& post_m.spec_notice() == pre_m.spec_notice()
    &&& post_m.spec_cursor().spec_index() == ci
    &&& post_m.spec_cursor().spec_position() == pre_m.spec_cursor().spec_position()
    &&& if pre_m.spec_write_mode() == WriteMode::OverWrite {
        // Both slots are always parsed together: the byte under the cursor
        // is replaced in place whichever nibble completed the parse.
        &&& post_m.spec_bin_data()@ == if ci < data.len() {
            data.update(ci, val as u8)
        } else {
            data
        }
        &&& post_h.spec_input_buf().spec_buf() == newslots
        &&& post_h.spec_input_buf().spec_index() == (idx0 + 1) % 2
        &&& post_m.spec_cursor().spec_input_buf_x() == (idx0 + 1) % 2
    } else if idx0 == 0 {
        // Insert mode, first nibble of a new entry: a fresh byte holding
        // the typed digit as its high nibble is inserted at the cursor,
        // and the assembler is left mid-entry on that byte.
        &&& post_m.spec_bin_data()@ == data.insert(ci, (hex_digit_value(c) * 16) as u8)
        &&& post_h.spec_input_buf().spec_buf() == seq![c, '0']
        &&& post_h.spec_input_buf().spec_index() == 1
        &&& post_m.spec_cursor().spec_input_buf_x() == 1
    } else {
        // Insert mode, second nibble: the byte at the cursor is updated
        // with the full two-nibble value.
        &&& post_m.spec_bin_data()@ == if ci < data.len() {
            data.update(ci, val as u8)
        } else {
            data
        }
        &&& post_h.spec_input_buf().spec_buf() == newslots
        &&& post_h.spec_input_buf().spec_index() == 0
        &&& post_m.spec_cursor().spec_input_buf_x() == 0
    }
}

/// The full effect of one command on the session, relating the states
/// before and after `EventHandler::handle_command` and its result.
pub open spec fn spec_handle_command(
    command: Command,
    pre_h: EventHandler,
    pre_m: Message,
    post_h: EventHandler,
    post_m: Message,
    save_to: Option<String>,
) -> bool {
    let ci = pre_m.spec_cursor().spec_index() as int;
    let len = pre_m.spec_bin_data()@.len() as int;
    match command {
        Command::MoveLeft => spec_moved(
            pre_h,
            pre_m,
            post_h,
            post_m,
            save_to,
            if ci >= 1 {
                ci - 1
            } else {
                0
            },
        ),
        Command::MoveRight => spec_moved(
            pre_h,
            pre_m,
            post_h,
            post_m,
            save_to,
            if ci + 1 <= len {
                ci + 1
            } else {
                len
            },
        ),
        Command::MoveUp => spec_moved(
            pre_h,
            pre_m,
            post_h,
            post_m,
            save_to,
            if ci >= crate::constants::LINE_LEN {
                ci - crate::constants::LINE_LEN
            } else {
                0
            },
        ),
        Command::MoveDown => spec_moved(
            pre_h,
            pre_m,
            post_h,
            post_m,
            save_to,
            if ci + crate::constants::LINE_LEN <= len {
                ci + crate::constants::LINE_LEN
            } else {
                len
            },
        ),
        Command::Delete => {
            let nbuf = spec_delete_buffer(pre_m.spec_bin_data()@, ci);
            let nci = spec_delete_cursor(ci, len);
            &&& post_m.spec_bin_data()@ == nbuf
            &&& post_m.spec_cursor().spec_index() == nci
            &&& post_m.spec_cursor().spec_input_buf_x() == 0
            &&& post_m.spec_cursor().spec_position() == pre_m.spec_cursor().spec_position()
            &&& post_m.spec_scroll() == pre_m.spec_scroll()
            &&& post_m.spec_write_mode() == pre_m.spec_write_mode()
            &&& post_m.spec_current_file() == pre_m.spec_current_file()
            &&& post_m.spec_notice() == pre_m.spec_notice()
            &&& post_h.spec_looping() == pre_h.spec_looping()
            &&& post_h.spec_input_buf().spec_buf() == spec_reset_slots(nbuf, nci)
            &&& post_h.spec_input_buf().spec_index() == 0
            &&& save_to is None
        },
        Command::ToggleMode => {
            &&& post_m.spec_write_mode() == if pre_m.spec_write_mode() == WriteMode::OverWrite {
                WriteMode::Insert
            } else {
                WriteMode::OverWrite
            }
            &&& post_m.spec_bin_data() == pre_m.spec_bin_data()
            &&& post_m.spec_cursor() == pre_m.spec_cursor()
            &&& post_m.spec_scroll() == pre_m.spec_scroll()
            &&& post_m.spec_current_file() == pre_m.spec_current_file()
            &&& post_m.spec_notice() == pre_m.spec_notice()
            &&& post_h == pre_h
            &&& save_to is None
        },
        Command::EnterHexDigit(c) => spec_entered(pre_h, pre_m, post_h, post_m, save_to, c),
        Command::Save => {
            let path = pre_m.spec_current_file().spec_path();
            &&& post_m.spec_bin_data() == pre_m.spec_bin_data()
            &&& post_m.spec_cursor() == pre_m.spec_cursor()
            &&& post_m.spec_scroll() == pre_m.spec_scroll()
            &&& post_m.spec_write_mode() == pre_m.spec_write_mode()
            &&& post_m.spec_current_file() == pre_m.spec_current_file()
            &&& post_h == pre_h
            &&& if path.len() > 0 {
                &&& post_m.spec_notice() == pre_m.spec_notice()
                &&& save_to matches Some(p) && p@ == path
            } else {
                &&& post_m.spec_notice().spec_queue().len() == pre_m.spec_notice().spec_queue().len()
                    + 1
                &&& post_m.spec_notice().spec_queue().subrange(
                    0,
                    pre_m.spec_notice().spec_queue().len() as int,
                ) == pre_m.spec_notice().spec_queue()
                &&& post_m.spec_notice().spec_queue().last()@ == "Not specified file path"@
                &&& post_m.spec_notice().spec_count() == pre_m.spec_notice().spec_count()
                &&& post_m.spec_notice().spec_cache() == pre_m.spec_notice().spec_cache()
                &&& save_to is None
            }
        },
        Command::Quit => {
            &&& post_h.spec_looping() == false
            &&& post_h.spec_input_buf() == pre_h.spec_input_buf()
            &&& post_m == pre_m
            &&& save_to is None
        },
    }
}

/// The command-driven state machine: dispatches decoded commands to the
/// session state and owns the hex input assembler.
pub struct EventHandler {
    looping: bool,
    input_buf: InputBuf,
}

impl EventHandler {
    pub closed spec fn spec_looping(&self) -> bool {
        self.looping
    }

    pub closed spec fn spec_input_buf(&self) -> InputBuf {
        self.input_buf
    }

    pub open spec fn wf(&self) -> bool {
        self.spec_input_buf().wf()
    }

    pub fn new() -> (r: Self)
        ensures
            r.spec_looping() == true,
            r.spec_input_buf().spec_buf() =~= seq!['0', '0'],
            r.spec_input_buf().spec_index() == 0,
            r.wf(),
    {
        Self { looping: true, input_buf: InputBuf::new() }
    }

    /// Whether the session keeps running; `Quit` clears it.
    pub fn is_looping(&self) -> (r: bool)
        ensures
            r == self.spec_looping(),
    {
        self.looping
    }

    /// Applies one decoded command to the session state.
    ///
    /// Commands that edit the buffer or move the cursor ask for a session
    /// under way (a non-empty buffer); toggling the mode, saving and
    /// quitting never touch the buffer and are accepted on any session.
    ///
    /// The one effect the core cannot perform itself is writing the buffer
    /// to disk: for `Save` with a chosen path the caller receives that
    /// path, writes `bin_data().buf()` to it, and reports the outcome
    /// through [`record_save_result`].
    pub fn handle_command(&mut self, command: Command, message: &mut Message) -> (save_to: Option<
        String,
    >)
        requires
            old(self).wf(),
            match command {
                Command::ToggleMode | Command::Save | Command::Quit => true,
                _ => old(message).wf(),
            },
            command matches Command::EnterHexDigit(c) ==> is_hex_digit(c),
        ensures
            final(self).wf(),
            old(message).wf() ==> final(message).wf(),
            spec_handle_command(
                command,
                *old(self),
                *old(message),
                *final(self),
                *final(message),
                save_to,
            ),
    {
        let len = message.bin_data().buf().len();
        match command {
            Command::MoveLeft => {
                message.cursor_mut().move_to_left();
                self.reset_input_buf(message);
                None
            },
            Command::MoveRight => {
                message.cursor_mut().move_to_right(len);
                self.reset_input_buf(message);
                None
            },
            Command::MoveUp => {
                message.cursor_mut().move_to_up();
                self.reset_input_buf(message);
                None
            },
            Command::MoveDown => {
                message.cursor_mut().move_to_down(len);
                self.reset_input_buf(message);
                None
            },
            Command::Delete => {
                let index = message.cursor().index();
                if index == len.saturating_sub(1) {
                    message.cursor_mut().move_to_left();
                }
                message.bin_data_mut().remove(index);
                if len == 1 {
                    message.bin_data_mut().update(0, 0);
                }
                self.reset_input_buf(message);
                None
            },
            Command::ToggleMode => {
                message.toggle_mode();
                None
            },
            Command::EnterHexDigit(char_code) => {
                self.input_buf.add(char_code);
                let res = self.input_buf.to_hex();
                if let Ok(val) = res {
                    let index = message.cursor().index();
                    let mode = *message.write_mode();
                    match mode {
                        WriteMode::OverWrite => {
                            message.bin_data_mut().update(index, val);
                        },
                        WriteMode::Insert => {
                            if self.input_buf.index() != 0 {
                                self.input_buf.set_value(0);
                                self.input_buf.add(char_code);
                                proof {
                                    assert(self.spec_input_buf().spec_buf() =~= seq![
                                        char_code,
                                        '0',
                                    ]);
                                }
                                let res2 = self.input_buf.to_hex();
                                if let Ok(val2) = res2 {
                                    message.bin_data_mut().insert(index, val2);
                                }
                            }
                            if self.input_buf.index() == 0 {
                                message.bin_data_mut().update(index, val);
                            }
                        },
                    }
                }
                message.cursor_mut().input_buf_x(self.input_buf.index());
                None
            },
            Command::Save => {
                let save_to = match message.current_file().path() {
                    Some(path) => Some(path.clone()),
                    None => None,
                };
                if save_to.is_none() {
                    let err_msg = String::from_str("Not specified file path");
                    let ghost q0 = message.spec_notice().spec_queue();
                    message.notice_mut().add(err_msg);
                    proof {
                        assert(message.spec_notice().spec_queue().subrange(0, q0.len() as int)
                            =~= q0);
                    }
                }
                save_to
            },
            Command::Quit => {
                self.looping = false;
                None
            },
        }
    }

    /// Primes the input assembler from the buffer cell under the cursor
    /// (or the last byte when the cursor sits one past the end), and
    /// rewinds the caret to the cell's first nibble.
    fn reset_input_buf(&mut self, message: &mut Message)
        requires
            old(message).spec_bin_data()@.len() >= 1,
        ensures
            final(self).spec_looping() == old(self).spec_looping(),
            final(self).spec_input_buf().spec_buf() == spec_reset_slots(
                old(message).spec_bin_data()@,
                old(message).spec_cursor().spec_index() as int,
            ),
            final(self).spec_input_buf().spec_index() == 0,
            final(self).wf(),
            final(message).spec_cursor().spec_input_buf_x() == 0,
            final(message).spec_cursor().spec_index() == old(message).spec_cursor().spec_index(),
            final(message).spec_cursor().spec_position() == old(
                message,
            ).spec_cursor().spec_position(),
            final(message).spec_bin_data() == old(message).spec_bin_data(),
            final(message).spec_scroll() == old(message).spec_scroll(),
            final(message).spec_write_mode() == old(message).spec_write_mode(),
            final(message).spec_current_file() == old(message).spec_current_file(),
            final(message).spec_notice() == old(message).spec_notice(),
    {
        let index = message.cursor().index();
        let data_len = message.bin_data().buf().len();
        let i = if index < data_len {
            index
        } else {
            data_len - 1
        };
        let b = message.bin_data().buf()[i];
        self.input_buf.set_value(b);
        message.cursor_mut().input_buf_x(0);
    }
}

/// Records the outcome of the one effect the caller performs for the
/// core: a `Save` made good by writing the buffer to disk queues a
/// success notice, a failed one queues the failure's description.
pub fn record_save_result(message: &mut Message, result: Result<(), String>)
    ensures
        final(message).spec_notice().spec_queue().len() == old(
            message,
        ).spec_notice().spec_queue().len() + 1,
        final(message).spec_notice().spec_queue().subrange(
            0,
            old(message).spec_notice().spec_queue().len() as int,
        ) == old(message).spec_notice().spec_queue(),
        result is Ok ==> final(message).spec_notice().spec_queue().last()@ == "Saved!"@,
        result matches Err(e) ==> final(message).spec_notice().spec_queue().last() == e,
        final(message).spec_notice().spec_count() == old(message).spec_notice().spec_count(),
        final(message).spec_notice().spec_cache() == old(message).spec_notice().spec_cache(),
        final(message).spec_bin_data() == old(message).spec_bin_data(),
        final(message).spec_cursor() == old(message).spec_cursor(),
        final(message).spec_scroll() == old(message).spec_scroll(),
        final(message).spec_write_mode() == old(message).spec_write_mode(),
        final(message).spec_current_file() == old(message).spec_current_file(),
{
    let ghost q0 = message.spec_notice().spec_queue();
    match result {
        Ok(_) => {
            let success_msg = String::from_str("Saved!");
            message.notice_mut().add(success_msg);
        },
        Err(e) => {
            message.notice_mut().add(e);
        },
    }
    proof {
        assert(message.spec_notice().spec_queue().subrange(0, q0.len() as int) =~= q0);
    }
}

} // verus!
