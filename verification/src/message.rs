//! Session state of the editor: byte buffer, cursor, scroll amounts,
//! write mode, current file and status notices.

use std::collections::VecDeque;
use vstd::prelude::*;
use vstd::string::StringExecFns;

verus! {

/// One editing session's state, bundled so that command handling sees it
/// by exclusive mutable reference and the renderer by read-only reference.
pub struct Message {
    bin_data: BinData,
    cursor: CursorPosition,
    scroll: Scroll,
    write_mode: WriteMode,
    current_file: CurrentFile,
    notice: Notice,
}

impl Message {
    pub closed spec fn spec_bin_data(&self) -> BinData {
        self.bin_data
    }

    pub closed spec fn spec_cursor(&self) -> CursorPosition {
        self.cursor
    }

    pub closed spec fn spec_scroll(&self) -> Scroll {
        self.scroll
    }

    pub closed spec fn spec_write_mode(&self) -> WriteMode {
        self.write_mode
    }

    pub closed spec fn spec_current_file(&self) -> CurrentFile {
        self.current_file
    }

    pub closed spec fn spec_notice(&self) -> Notice {
        self.notice
    }

    /// A session under way: the buffer is never empty, and the cursor sits
    /// inside it or one past its last byte.
    pub open spec fn wf(&self) -> bool {
        &&& self.spec_bin_data()@.len() >= 1
        &&& self.spec_cursor().spec_index() <= self.spec_bin_data()@.len()
        &&& self.spec_cursor().wf()
    }

    /// A fresh session: the buffer starts empty, so the caller loads or
    /// appends at least one byte before commands are handled.
    pub fn new() -> (r: Self)
        ensures
            r.spec_bin_data()@ =~= Seq::<u8>::empty(),
            r.spec_cursor().spec_index() == 0,
            r.spec_cursor().spec_input_buf_x() == 0,
            r.spec_cursor().wf(),
            r.spec_scroll().spec_scroll_y() =~= seq![0u16, 0u16],
            r.spec_write_mode() == WriteMode::OverWrite,
            r.spec_current_file().spec_path() =~= Seq::<char>::empty(),
            r.spec_notice().spec_count() == 0,
            r.spec_notice().spec_queue() =~= Seq::<String>::empty(),
            r.spec_notice().spec_cache() =~= Seq::<char>::empty(),
    {
        Self {
            bin_data: BinData::new(),
            cursor: CursorPosition::new(),
            scroll: Scroll::new(),
            write_mode: WriteMode::OverWrite,
            current_file: CurrentFile::new(),
            notice: Notice::new(),
        }
    }

    pub fn bin_data(&self) -> (r: &BinData)
        ensures
            *r == self.spec_bin_data(),
    {
        &self.bin_data
    }

    pub fn bin_data_mut(&mut self) -> (r: &mut BinData)
        ensures
            *r == old(self).spec_bin_data(),
            final(self).spec_bin_data() == *final(r),
            final(self).spec_cursor() == old(self).spec_cursor(),
            final(self).spec_scroll() == old(self).spec_scroll(),
            final(self).spec_write_mode() == old(self).spec_write_mode(),
            final(self).spec_current_file() == old(self).spec_current_file(),
            final(self).spec_notice() == old(self).spec_notice(),
    {
        &mut self.bin_data
    }

    pub fn cursor(&self) -> (r: &CursorPosition)
        ensures
            *r == self.spec_cursor(),
    {
        &self.cursor
    }

    pub fn cursor_mut(&mut self) -> (r: &mut CursorPosition)
        ensures
            *r == old(self).spec_cursor(),
            final(self).spec_cursor() == *final(r),
            final(self).spec_bin_data() == old(self).spec_bin_data(),
            final(self).spec_scroll() == old(self).spec_scroll(),
            final(self).spec_write_mode() == old(self).spec_write_mode(),
            final(self).spec_current_file() == old(self).spec_current_file(),
            final(self).spec_notice() == old(self).spec_notice(),
    {
        &mut self.cursor
    }

    pub fn scroll(&self) -> (r: &Scroll)
        ensures
            *r == self.spec_scroll(),
    {
        &self.scroll
    }

    pub fn scroll_mut(&mut self) -> (r: &mut Scroll)
        ensures
            *r == old(self).spec_scroll(),
            final(self).spec_scroll() == *final(r),
            final(self).spec_bin_data() == old(self).spec_bin_data(),
            final(self).spec_cursor() == old(self).spec_cursor(),
            final(self).spec_write_mode() == old(self).spec_write_mode(),
            final(self).spec_current_file() == old(self).spec_current_file(),
            final(self).spec_notice() == old(self).spec_notice(),
    {
        &mut self.scroll
    }

    pub fn write_mode(&self) -> (r: &WriteMode)
        ensures
            *r == self.spec_write_mode(),
    {
        &self.write_mode
    }

    /// Flips the write mode between overwriting and inserting.
    pub fn toggle_mode(&mut self) -> (r: &WriteMode)
        ensures
            old(self).spec_write_mode() == WriteMode::OverWrite ==> final(self).spec_write_mode()
                == WriteMode::Insert,
            old(self).spec_write_mode() == WriteMode::Insert ==> final(self).spec_write_mode()
                == WriteMode::OverWrite,
            *r == final(self).spec_write_mode(),
            final(self).spec_bin_data() == old(self).spec_bin_data(),
            final(self).spec_cursor() == old(self).spec_cursor(),
            final(self).spec_scroll() == old(self).spec_scroll(),
            final(self).spec_current_file() == old(self).spec_current_file(),
            final(self).spec_notice() == old(self).spec_notice(),
    {
        self.write_mode = match self.write_mode {
            WriteMode::OverWrite => WriteMode::Insert,
            WriteMode::Insert => WriteMode::OverWrite,
        };
        &self.write_mode
    }

    pub fn current_file(&self) -> (r: &CurrentFile)
        ensures
            *r == self.spec_current_file(),
    {
        &self.current_file
    }

    pub fn current_file_mut(&mut self) -> (r: &mut CurrentFile)
        ensures
            *r == old(self).spec_current_file(),
            final(self).spec_current_file() == *final(r),
            final(self).spec_bin_data() == old(self).spec_bin_data(),
            final(self).spec_cursor() == old(self).spec_cursor(),
            final(self).spec_scroll() == old(self).spec_scroll(),
            final(self).spec_write_mode() == old(self).spec_write_mode(),
            final(self).spec_notice() == old(self).spec_notice(),
    {
        &mut self.current_file
    }

    pub fn notice(&self) -> (r: &Notice)
        ensures
            *r == self.spec_notice(),
    {
        &self.notice
    }

    pub fn notice_mut(&mut self) -> (r: &mut Notice)
        ensures
            *r == old(self).spec_notice(),
            final(self).spec_notice() == *final(r),
            final(self).spec_bin_data() == old(self).spec_bin_data(),
            final(self).spec_cursor() == old(self).spec_cursor(),
            final(self).spec_scroll() == old(self).spec_scroll(),
            final(self).spec_write_mode() == old(self).spec_write_mode(),
            final(self).spec_current_file() == old(self).spec_current_file(),
    {
        &mut self.notice
    }
}

/// How a committed hex byte is applied to the buffer: replace the byte
/// under the cursor, or insert a new one ahead of it.
#[derive(Clone, Copy, Debug, PartialEq, Eq, Structural)]
pub enum WriteMode {
    OverWrite,
    Insert,
}

/// The file path edits are saved to; empty means no file was chosen.
pub struct CurrentFile {
    path: String,
}

impl CurrentFile {
    pub closed spec fn spec_path(&self) -> Seq<char> {
        self.path@
    }

    pub fn new() -> (r: Self)
        ensures
            r.spec_path() =~= Seq::<char>::empty(),
    {
        let path = String::new();
        Self { path }
    }

    /// The save target, or nothing while no path was chosen.
    pub fn path(&self) -> (r: Option<&String>)
        ensures
            self.spec_path().len() == 0 <==> r is None,
            r matches Some(p) ==> p@ == self.spec_path(),
    {
        if self.path.as_str().is_empty() {
            None
        } else {
            Some(&self.path)
        }
    }

    pub fn path_mut(&mut self) -> (r: &mut String)
        ensures
            r@ == old(self).spec_path(),
            final(self).spec_path() == final(r)@,
    {
        &mut self.path
    }

    /// The path's display name: its final component, as the platform's
    /// path parsing names it — trailing separators and lone-dot
    /// components are ignored, and a path with no usable final component
    /// (empty, all separators, or ending in a parent-dir component) falls
    /// back to the whole path.  Only an empty result shows as the
    /// placeholder.
    pub fn file_name(&self) -> (r: String)
        ensures
            spec_file_name(self.spec_path()).len() > 0 ==> r@ == spec_file_name(self.spec_path()),
            spec_file_name(self.spec_path()).len() == 0 ==> r@ == "no file"@,
    {
        let s = self.path.as_str();
        let len = s.unicode_len();

        // drop trailing separators and lone-dot components from the end
        let mut e: usize = len;
        proof {
            assert(s@.take(len as int) =~= s@);
        }
        while e > 0
            invariant
                e <= len,
                len == s@.len(),
                s@ == self.spec_path(),
                normalized_end(s@) == normalized_end(s@.take(e as int)),
            ensures
                e <= len,
                len == s@.len(),
                normalized_end(s@) == normalized_end(s@.take(e as int)),
                e > 0 ==> s@[e - 1] != '/',
                e > 0 ==> !(s@[e - 1] == '.' && (e == 1 || s@[e - 2] == '/')),
            decreases e,
        {
            let c = s.get_char(e - 1);
            if c == '/' {
                proof {
                    assert(s@.take(e as int).drop_last() =~= s@.take(e - 1));
                }
                e = e - 1;
            } else if c == '.' && (e == 1 || s.get_char(e - 2) == '/') {
                proof {
                    assert(s@.take(e as int).drop_last() =~= s@.take(e - 1));
                }
                e = e - 1;
            } else {
                break ;
            }
        }
        proof {
            if e > 0 {
                let t = s@.take(e as int);
                assert(t.last() == s@[e - 1]);
                assert(!ends_in_dot_component(t));
                assert(normalized_end(t) == t);
            } else {
                assert(s@.take(0) =~= Seq::<char>::empty());
            }
            assert(normalized_end(s@) == s@.take(e as int));
        }

        // find the last separator ahead of the final component
        let mut start: usize = 0;
        let mut i: usize = 0;
        while i < e
            invariant
                i <= e,
                e <= len,
                start <= i,
                len == s@.len(),
                s@ == self.spec_path(),
                suffix_after_last_slash(s@.take(i as int)) =~= s@.subrange(
                    start as int,
                    i as int,
                ),
            decreases e - i,
        {
            if s.get_char(i) == '/' {
                start = i + 1;
            }
            proof {
                let t = s@.take(i + 1);
                assert(t.last() == s@[i as int]);
                assert(t.drop_last() =~= s@.take(i as int));
                if s@[i as int] != '/' {
                    assert(suffix_after_last_slash(t) == suffix_after_last_slash(
                        s@.take(i as int),
                    ).push(s@[i as int]));
                    assert(s@.subrange(start as int, i as int).push(s@[i as int]) =~= s@.subrange(
                        start as int,
                        i + 1,
                    ));
                }
            }
            i = i + 1;
        }
        proof {
            assert(suffix_after_last_slash(s@.take(e as int)) =~= s@.subrange(
                start as int,
                e as int,
            ));
        }

        let no_component = e == 0 || (e - start == 2 && s.get_char(start) == '.' && s.get_char(
            start + 1,
        ) == '.');
        if no_component {
            proof {
                if e > 0 {
                    assert(suffix_after_last_slash(normalized_end(s@)) =~= seq!['.', '.']);
                }
            }
            if len == 0 {
                let placeholder = String::from_str("no file");
                placeholder
            } else {
                self.path.clone()
            }
        } else {
            proof {
                let name = suffix_after_last_slash(normalized_end(s@));
                assert(name.len() == e - start);
                if name =~= seq!['.', '.'] {
                    assert(name[0] == '.' && name[1] == '.');
                    assert(s@[start as int] == '.' && s@[start + 1] == '.');
                }
                assert(name.len() > 0);
            }
            let name = s.substring_char(start, e);
            name.to_owned()
        }
    }
}

/// What follows the last `'/'` of `s`; all of `s` when it has none.
pub open spec fn suffix_after_last_slash(s: Seq<char>) -> Seq<char>
    decreases s.len(),
{
    if s.len() == 0 {
        s
    } else if s.last() == '/' {
        Seq::<char>::empty()
    } else {
        suffix_after_last_slash(s.drop_last()).push(s.last())
    }
}

/// Whether `s` ends in a lone-dot component: a final `'.'` that is a
/// whole component, alone or right after a separator.
pub open spec fn ends_in_dot_component(s: Seq<char>) -> bool {
    s.len() >= 1 && s.last() == '.' && (s.len() == 1 || s[s.len() - 2] == '/')
}

/// `s` with trailing separators and lone-dot components removed, which
/// the platform's path parsing ignores when naming the final component.
pub open spec fn normalized_end(s: Seq<char>) -> Seq<char>
    decreases s.len(),
{
    if s.len() > 0 && s.last() == '/' {
        normalized_end(s.drop_last())
    } else if ends_in_dot_component(s) {
        normalized_end(s.drop_last())
    } else {
        s
    }
}

/// The display name a path yields: the final component of its normalized
/// form, or the whole path when none remains (the path was empty or all
/// separators, or its final component is the parent directory).
pub open spec fn spec_file_name(path: Seq<char>) -> Seq<char> {
    let t = normalized_end(path);
    let name = suffix_after_last_slash(t);
    if t.len() == 0 || name == seq!['.', '.'] {
        path
    } else {
        name
    }
}

/// Status messages for the renderer's status line.
///
/// Messages queue up in order; each popped message stays on display for a
/// small fixed number of render ticks before the next one is shown.
pub struct Notice {
    count: u8,
    notice: VecDeque<String>,
    cache: String,
}

/// Render ticks (beyond the first) that one message stays on display.
pub const NOTICE_LIMIT: u8 = 2;

impl Notice {
    pub closed spec fn spec_count(&self) -> u8 {
        self.count
    }

    pub closed spec fn spec_queue(&self) -> Seq<String> {
        self.notice@
    }

    pub closed spec fn spec_cache(&self) -> Seq<char> {
        self.cache@
    }

    pub fn new() -> (r: Self)
        ensures
            r.spec_count() == 0,
            r.spec_queue() =~= Seq::<String>::empty(),
            r.spec_cache() =~= Seq::<char>::empty(),
    {
        Self { count: 0, notice: VecDeque::new(), cache: String::new() }
    }

    /// Queues one status message.
    pub fn add(&mut self, state: String)
        ensures
            final(self).spec_queue() == old(self).spec_queue().push(state),
            final(self).spec_count() == old(self).spec_count(),
            final(self).spec_cache() == old(self).spec_cache(),
    {
        self.notice.push_back(state);
    }

    /// The message to display this render tick.
    ///
    /// A fresh tick (count 0) takes the next queued message, pads it with
    /// one space on each side and shows it, or clears the display when the
    /// queue is empty.  Further ticks repeat the cached message until the
    /// count passes `NOTICE_LIMIT` and wraps to 0.
    pub fn pop_front(&mut self) -> (r: String)
        ensures
            old(self).spec_count() == 0 && old(self).spec_queue().len() > 0 ==> {
                &&& final(self).spec_cache() =~= seq![' '] + old(self).spec_queue()[0]@
                    + seq![' ']
                &&& final(self).spec_queue() == old(self).spec_queue().subrange(
                    1,
                    old(self).spec_queue().len() as int,
                )
                &&& final(self).spec_count() == 1
            },
            old(self).spec_count() == 0 && old(self).spec_queue().len() == 0 ==> {
                &&& final(self).spec_cache() =~= Seq::<char>::empty()
                &&& final(self).spec_queue() == old(self).spec_queue()
                &&& final(self).spec_count() == 0
            },
            old(self).spec_count() > NOTICE_LIMIT ==> {
                &&& final(self).spec_cache() == old(self).spec_cache()
                &&& final(self).spec_queue() == old(self).spec_queue()
                &&& final(self).spec_count() == 0
            },
            0 < old(self).spec_count() <= NOTICE_LIMIT ==> {
                &&& final(self).spec_cache() == old(self).spec_cache()
                &&& final(self).spec_queue() == old(self).spec_queue()
                &&& final(self).spec_count() == old(self).spec_count() + 1
            },
            r@ == final(self).spec_cache(),
    {
        if self.count == 0 {
            if let Some(state) = self.notice.pop_front() {
                let mut padded = String::from_str(" ");
                padded.append(state.as_str());
                padded.append(" ");
                proof {
                    reveal_strlit(" ");
                }
                self.cache = padded;
                self.count = 1;
            } else {
                self.cache = String::new();
            }
        } else if self.count > NOTICE_LIMIT {
            self.count = 0;
        } else {
            self.count = self.count + 1;
        }
        self.cache.clone()
    }
}

/// The editable byte sequence.
///
/// Contents are opaque bytes; positional edits shift later bytes.  Out of
/// range indices are silent no-ops, so a cursor briefly out of sync with a
/// just-mutated buffer never crashes the session.  A buffer of length 1 is
/// never shrunk by `remove`; the caller zero-fills the sole byte instead.
pub struct BinData {
    buf: Vec<u8>,
}

impl BinData {
    /// The contents in order.
    pub closed spec fn view(&self) -> Seq<u8> {
        self.buf@
    }

    pub fn new() -> (r: Self)
        ensures
            r@ =~= Seq::<u8>::empty(),
    {
        BinData { buf: Vec::new() }
    }

    /// Appends `new_buf` to the end of the contents.
    pub fn push_back(&mut self, new_buf: Vec<u8>)
        ensures
            final(self)@ == old(self)@ + new_buf@,
    {
        let mut new_data = new_buf;
        self.buf.append(&mut new_data);
    }

    /// Inserts one byte at `index`, shifting subsequent bytes right.
    /// Callers validate the index; past-the-end insertion appends.
    pub fn insert(&mut self, index: usize, value: u8)
        requires
            index <= old(self)@.len(),
        ensures
            final(self)@ == old(self)@.insert(index as int, value),
    {
        self.buf.insert(index, value);
    }

    /// Removes the byte at `index`, shifting subsequent bytes left, unless
    /// only one byte is left or the index is out of range: then nothing
    /// changes.  The length therefore never drops below 1.
    pub fn remove(&mut self, index: usize)
        ensures
            old(self)@.len() > 1 && index < old(self)@.len() ==> final(self)@ == old(
                self,
            )@.remove(index as int),
            old(self)@.len() <= 1 || index >= old(self)@.len() ==> final(self)@ == old(self)@,
            final(self)@.len() >= 1 || old(self)@.len() == 0,
    {
        if self.buf.len() > 1 && index < self.buf.len() {
            self.buf.remove(index);
        }
    }

    /// Replaces the byte at `index` in place; out of range indices leave
    /// the contents unchanged.
    pub fn update(&mut self, index: usize, value: u8)
        ensures
            index < old(self)@.len() ==> final(self)@ == old(self)@.update(index as int, value),
            index >= old(self)@.len() ==> final(self)@ == old(self)@,
    {
        if index < self.buf.len() {
            self.buf.set(index, value);
        }
    }

    /// Read-only view of the full contents in order.
    pub fn buf(&self) -> (r: &[u8])
        ensures
            r@ == self@,
    {
        self.buf.as_slice()
    }

    /// Replaces the whole contents with `bytes`; the callers that read a
    /// file hand its bytes here unchanged.
    pub fn load(&mut self, bytes: Vec<u8>)
        ensures
            final(self)@ == bytes@,
    {
        self.buf.clear();
        self.push_back(bytes);
        proof {
            assert(final(self)@ =~= bytes@);
        }
    }
}

impl From<Vec<u8>> for BinData {
    fn from(buf: Vec<u8>) -> (r: Self)
        ensures
            r@ == buf@,
    {
        BinData { buf }
    }
}

impl vstd::std_specs::convert::FromSpecImpl<Vec<u8>> for BinData {
    open spec fn obeys_from_spec() -> bool {
        true
    }

    closed spec fn from_spec(buf: Vec<u8>) -> Self {
        BinData { buf }
    }
}

impl Default for BinData {
    fn default() -> (r: Self)
        ensures
            r@ =~= Seq::<u8>::empty(),
    {
        Self::new()
    }
}

/// Inserting a byte and removing it at the same index restores the
/// original sequence, whatever the buffer held before.
pub proof fn lemma_insert_remove_inverse(s: Seq<u8>, i: int, v: u8)
    requires
        0 <= i <= s.len(),
    ensures
        s.insert(i, v).remove(i) =~= s,
{
}

/// A screen position in terminal cells, as the renderer addresses them.
#[derive(Clone, Copy, Debug, PartialEq, Eq, Structural)]
pub struct Position {
    pub x: u16,
    pub y: u16,
}

/// Horizontal cells per byte column in the hex view: two digits and a space.
pub const CURSOR_STEP: usize = 3;

/// Leftmost screen column of the first byte column.
pub const CURSOR_ORIGIN_X: u16 = 10;

/// Topmost screen row of the first display line.
pub const CURSOR_ORIGIN_Y: u16 = 2;

/// The cursor: a linear index into the byte buffer together with the
/// screen position derived from it.
///
/// `index` is clamped to `[0, len]`; `index == len` is the valid
/// past-the-last-byte position used for appending.  `input_buf_x` is the
/// pending horizontal sub-offset (0 or 1) that lets the caret straddle the
/// two nibble columns of one byte while a hex digit is half-entered.
pub struct CursorPosition {
    index: usize,
    input_buf_x: usize,
    position: Position,
}

impl CursorPosition {
    pub closed spec fn spec_index(&self) -> usize {
        self.index
    }

    pub closed spec fn spec_input_buf_x(&self) -> usize {
        self.input_buf_x
    }

    pub closed spec fn spec_position(&self) -> Position {
        self.position
    }

    /// The pending sub-offset stays inside one two-nibble cell.
    pub open spec fn wf(&self) -> bool {
        self.spec_input_buf_x() <= 1
    }

    pub fn new() -> (r: Self)
        ensures
            r.spec_index() == 0,
            r.spec_input_buf_x() == 0,
            r.spec_position() == (Position { x: CURSOR_ORIGIN_X, y: CURSOR_ORIGIN_Y }),
            r.wf(),
    {
        let index: usize = 0;
        let input_buf_x: usize = 0;
        let position = Position { x: CURSOR_ORIGIN_X, y: CURSOR_ORIGIN_Y };
        Self { index, input_buf_x, position }
    }

    pub fn index(&self) -> (r: usize)
        ensures
            r == self.spec_index(),
    {
        self.index
    }

    /// Records which nibble of the cell the caret should sit on next.
    pub fn input_buf_x(&mut self, x: usize)
        requires
            x <= 1,
        ensures
            final(self).spec_input_buf_x() == x,
            final(self).spec_index() == old(self).spec_index(),
            final(self).spec_position() == old(self).spec_position(),
            final(self).wf(),
    {
        self.input_buf_x = x;
    }

    pub fn position(&self) -> (r: &Position)
        ensures
            *r == self.spec_position(),
    {
        &self.position
    }

    /// One cell right, saturating at `len` (the past-the-end position).
    /// The index never exceeds the supplied limit.
    pub fn move_to_right(&mut self, len: usize)
        ensures
            final(self).spec_index() == if old(self).spec_index() + 1 <= len {
                old(self).spec_index() + 1
            } else {
                len as int
            },
            old(self).spec_index() <= len ==> final(self).spec_index() <= len,
            final(self).spec_input_buf_x() == old(self).spec_input_buf_x(),
            final(self).spec_position() == old(self).spec_position(),
    {
        self.index = self.index.saturating_add(1);
        if self.index > len {
            self.index = len;
        }
    }

    /// One cell left, saturating at 0: the index never goes negative.
    pub fn move_to_left(&mut self)
        ensures
            final(self).spec_index() == if old(self).spec_index() >= 1 {
                old(self).spec_index() - 1
            } else {
                0
            },
            final(self).spec_input_buf_x() == old(self).spec_input_buf_x(),
            final(self).spec_position() == old(self).spec_position(),
    {
        self.index = self.index.saturating_sub(1);
    }

    /// One display line up, saturating at 0: the index never goes negative.
    pub fn move_to_up(&mut self)
        ensures
            final(self).spec_index() == if old(self).spec_index() >= crate::constants::LINE_LEN {
                old(self).spec_index() - crate::constants::LINE_LEN
            } else {
                0
            },
            final(self).spec_input_buf_x() == old(self).spec_input_buf_x(),
            final(self).spec_position() == old(self).spec_position(),
    {
        self.index = self.index.saturating_sub(crate::constants::LINE_LEN);
    }

    /// One display line down, saturating at `len`: the index never exceeds
    /// the supplied limit.
    pub fn move_to_down(&mut self, len: usize)
        ensures
            final(self).spec_index() == if old(self).spec_index() + crate::constants::LINE_LEN
                <= len {
                old(self).spec_index() + crate::constants::LINE_LEN
            } else {
                len as int
            },
            old(self).spec_index() <= len ==> final(self).spec_index() <= len,
            final(self).spec_input_buf_x() == old(self).spec_input_buf_x(),
            final(self).spec_position() == old(self).spec_position(),
    {
        self.index = self.index.saturating_add(crate::constants::LINE_LEN);
        if self.index > len {
            self.index = len;
        }
    }

    /// Derives the screen position from the index: the row is the display
    /// line, the column steps three cells per byte plus the pending nibble
    /// sub-offset.  The row must fit in the u16 the terminal addresses.
    pub fn calc_position(&mut self)
        requires
            old(self).wf(),
            CURSOR_ORIGIN_Y + old(self).spec_index() as int / crate::constants::LINE_LEN as int <= u16::MAX,
        ensures
            final(self).spec_position().x == CURSOR_ORIGIN_X + CURSOR_STEP * (old(
                self,
            ).spec_index() % crate::constants::LINE_LEN) + old(self).spec_input_buf_x(),
            final(self).spec_position().y == CURSOR_ORIGIN_Y + old(self).spec_index() as int
                / crate::constants::LINE_LEN as int,
            final(self).spec_index() == old(self).spec_index(),
            final(self).spec_input_buf_x() == old(self).spec_input_buf_x(),
            final(self).wf(),
    {
        self.position.x = CURSOR_ORIGIN_X + (CURSOR_STEP * (self.index % crate::constants::LINE_LEN)
            + self.input_buf_x) as u16;
        self.position.y = CURSOR_ORIGIN_Y + (self.index / crate::constants::LINE_LEN) as u16;
    }

    /// Caps the derived row at the visible-window ceiling.
    pub fn adjust_y(&mut self, border: u16)
        ensures
            final(self).spec_position().y == if old(self).spec_position().y > border {
                border
            } else {
                old(self).spec_position().y
            },
            final(self).spec_position().x == old(self).spec_position().x,
            final(self).spec_index() == old(self).spec_index(),
            final(self).spec_input_buf_x() == old(self).spec_input_buf_x(),
    {
        if self.position.y > border {
            self.position.y = border;
        }
    }
}

/// Vertical scroll amounts, one per visible panel (main hex view and
/// secondary ASCII view).
pub struct Scroll {
    scroll_y: [u16; 2],
}

/// Rows below this distance from a panel's bottom edge force scrolling.
pub const SCROLL_Y_BORDER: u16 = 3;

/// Last cursor row that needs no scrolling in a panel whose bottom edge
/// sits at `bottom`.
pub open spec fn spec_calc_border(bottom: u16) -> u16 {
    if bottom >= SCROLL_Y_BORDER {
        (bottom - SCROLL_Y_BORDER) as u16
    } else {
        0
    }
}

/// Rows to scroll past the top so that a cursor at row `y` stays within
/// the border.
pub open spec fn spec_calc_scroll(y: u16, border: u16) -> u16 {
    if y > border {
        (y - border) as u16
    } else {
        0
    }
}

impl Scroll {
    pub closed spec fn spec_scroll_y(&self) -> Seq<u16> {
        self.scroll_y@
    }

    pub fn new() -> (r: Self)
        ensures
            r.spec_scroll_y() =~= seq![0u16, 0u16],
    {
        let scroll_y: [u16; 2] = [0; 2];
        Self { scroll_y }
    }

    pub fn scroll_y(&self) -> (r: &[u16; 2])
        ensures
            r@ == self.spec_scroll_y(),
    {
        &self.scroll_y
    }

    pub fn scroll_y_mut(&mut self) -> (r: &mut [u16; 2])
        ensures
            r@ == old(self).spec_scroll_y(),
            final(self).spec_scroll_y() == final(r)@,
    {
        &mut self.scroll_y
    }

    /// Last row that does not require scrolling, for a panel whose bottom
    /// edge is `bottom`.
    pub fn calc_border(bottom: u16) -> (r: u16)
        ensures
            r == spec_calc_border(bottom),
    {
        bottom.saturating_sub(SCROLL_Y_BORDER)
    }

    /// Scroll amount that keeps a cursor at row `y` within `border`.
    pub fn calc_scroll(y: u16, border: u16) -> (r: u16)
        ensures
            r == spec_calc_scroll(y, border),
    {
        if y > border {
            y - border
        } else {
            0
        }
    }
}

/// The scroll amount never overshoots: it is non-negative, and once it is
/// subtracted from the cursor row, the row lies at or above the border.
pub proof fn lemma_scroll_keeps_cursor_visible(y: u16, border: u16)
    ensures
        spec_calc_scroll(y, border) >= 0,
        y - spec_calc_scroll(y, border) <= border,
{
}

} // verus!
