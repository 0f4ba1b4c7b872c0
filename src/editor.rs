use vstd::prelude::*;

use crate::coords::{logical_to_rendered, render_of, render_row, rx_of, KILO_TAB};
use crate::key::{ctrl_key, EditorKey};
use crate::render::{frame, push_cursor_position, push_rows, push_status_bar, screen_rows_text, status_bar};
use crate::winsize::{parse_window_size, reported_size};

verus! {

/// Terminal rows used for text when the terminal's size is not known
/// (a conventional 24-row terminal less the status line).
pub const DEFAULT_SCREEN_ROWS: usize = 23;

/// Terminal columns used when the terminal's size is not known.
pub const DEFAULT_SCREEN_COLS: usize = 80;

/// A single-buffer viewer: the loaded lines, the cursor and the viewport.
pub struct Editor {
    cx: usize,
    cy: usize,
    rx: usize,
    row_off: usize,
    col_off: usize,
    screen_rows: usize,
    screen_cols: usize,
    row: Vec<String>,
    render: Vec<String>,
    filename: String,
}

/// The cursor position, as the movement rules see it: `cx` a logical column,
/// `cy` a line index.
pub struct CursorState {
    pub cx: int,
    pub cy: int,
}

/// Length of line `cy`, for a line that exists.
pub open spec fn line_len(rows: Seq<Seq<char>>, cy: int) -> int {
    rows[cy].len() as int
}

/// Pulls `cx` back to the end of line `cy` where that line exists and is
/// shorter.
pub open spec fn clamp_cx(rows: Seq<Seq<char>>, s: CursorState) -> CursorState {
    if 0 <= s.cy < rows.len() && s.cx > line_len(rows, s.cy) {
        CursorState { cx: line_len(rows, s.cy), cy: s.cy }
    } else {
        s
    }
}

/// One arrow, Home or End move, before the cursor is clamped to its line.
pub open spec fn basic_step(rows: Seq<Seq<char>>, s: CursorState, key: EditorKey) -> CursorState {
    let n = rows.len() as int;
    match key {
        EditorKey::ArrowLeft => {
            if s.cx != 0 {
                CursorState { cx: s.cx - 1, cy: s.cy }
            } else if s.cy > 0 {
                CursorState { cx: line_len(rows, s.cy - 1), cy: s.cy - 1 }
            } else {
                s
            }
        },
        EditorKey::ArrowRight => {
            if s.cy < n && s.cx < line_len(rows, s.cy) {
                CursorState { cx: s.cx + 1, cy: s.cy }
            } else if s.cy < n && s.cx == line_len(rows, s.cy) {
                CursorState { cx: 0, cy: s.cy + 1 }
            } else {
                s
            }
        },
        EditorKey::ArrowUp => {
            if s.cy != 0 {
                CursorState { cx: s.cx, cy: s.cy - 1 }
            } else {
                s
            }
        },
        EditorKey::ArrowDown => {
            if s.cy < n {
                CursorState { cx: s.cx, cy: s.cy + 1 }
            } else {
                s
            }
        },
        EditorKey::HomeKey => CursorState { cx: 0, cy: s.cy },
        EditorKey::EndKey => {
            if s.cy < n {
                CursorState { cx: line_len(rows, s.cy), cy: s.cy }
            } else {
                s
            }
        },
        _ => s,
    }
}

/// One arrow, Home or End move, followed by the clamp to the line's length.
pub open spec fn step(rows: Seq<Seq<char>>, s: CursorState, key: EditorKey) -> CursorState {
    clamp_cx(rows, basic_step(rows, s, key))
}

/// The same move made `times` times in a row.
pub open spec fn repeat_step(
    rows: Seq<Seq<char>>,
    s: CursorState,
    key: EditorKey,
    times: nat,
) -> CursorState
    decreases times,
{
    if times == 0 {
        s
    } else {
        repeat_step(rows, step(rows, s, key), key, (times - 1) as nat)
    }
}

/// Where a key event leaves the cursor, given the rows, the top visible row
/// and the number of text rows on screen. Page Up jumps to the top visible
/// row and then moves up a screenful; Page Down jumps to the bottom visible
/// row (or past the last line) and then moves down a screenful; Delete and
/// literal characters leave the cursor alone.
pub open spec fn moved(
    rows: Seq<Seq<char>>,
    s: CursorState,
    key: EditorKey,
    row_off: int,
    screen_rows: int,
) -> CursorState {
    match key {
        EditorKey::PageUp => repeat_step(
            rows,
            CursorState { cx: s.cx, cy: row_off },
            EditorKey::ArrowUp,
            screen_rows as nat,
        ),
        EditorKey::PageDown => {
            let target = if row_off + screen_rows - 1 > rows.len() {
                rows.len() as int
            } else {
                row_off + screen_rows - 1
            };
            repeat_step(
                rows,
                CursorState { cx: s.cx, cy: target },
                EditorKey::ArrowDown,
                screen_rows as nat,
            )
        },
        EditorKey::DelKey => s,
        EditorKey::Char(_) => s,
        _ => step(rows, s, key),
    }
}

/// Where the cursor sits in a state that the rules allow: on a line or just
/// past the last one, and within its line where that line exists.
pub open spec fn cursor_ok(rows: Seq<Seq<char>>, s: CursorState) -> bool {
    &&& 0 <= s.cx
    &&& 0 <= s.cy <= rows.len()
    &&& s.cy < rows.len() ==> s.cx <= line_len(rows, s.cy)
}

impl Editor {
    /// The lines as loaded.
    pub closed spec fn rows(&self) -> Seq<Seq<char>> {
        self.row@.map_values(|r: String| r@)
    }

    /// The lines as displayed, tabs expanded.
    pub closed spec fn rendered(&self) -> Seq<Seq<char>> {
        self.render@.map_values(|r: String| r@)
    }

    /// The cursor's logical column.
    pub closed spec fn spec_cx(&self) -> nat {
        self.cx as nat
    }

    /// The cursor's line index.
    pub closed spec fn spec_cy(&self) -> nat {
        self.cy as nat
    }

    /// The cursor's rendered column, as of the last scroll.
    pub closed spec fn spec_rx(&self) -> nat {
        self.rx as nat
    }

    /// The first line shown.
    pub closed spec fn spec_row_off(&self) -> nat {
        self.row_off as nat
    }

    /// The first rendered column shown.
    pub closed spec fn spec_col_off(&self) -> nat {
        self.col_off as nat
    }

    /// Screen rows for text, the status line not counted.
    pub closed spec fn spec_screen_rows(&self) -> nat {
        self.screen_rows as nat
    }

    /// Screen columns.
    pub closed spec fn spec_screen_cols(&self) -> nat {
        self.screen_cols as nat
    }

    /// The name of the loaded file; empty when none was loaded.
    pub closed spec fn spec_filename(&self) -> Seq<char> {
        self.filename@
    }

    /// The cursor as the movement rules see it.
    pub open spec fn cursor(&self) -> CursorState {
        CursorState { cx: self.spec_cx() as int, cy: self.spec_cy() as int }
    }

    /// The editor's invariant: each displayed line is its loaded line with
    /// tabs expanded, the cursor is where the rules allow, the top visible
    /// row is within the buffer, and the screen has room for text.
    pub open spec fn wf(&self) -> bool {
        &&& self.layout_ok()
        &&& cursor_ok(self.rows(), self.cursor())
    }

    /// The part of the invariant that does not speak of the cursor.
    pub closed spec fn layout_ok(&self) -> bool {
        &&& self.row@.len() == self.render@.len()
        &&& forall|i: int|
            0 <= i < self.row@.len() ==> #[trigger] self.render@[i]@ == render_of(self.row@[i]@)
        &&& forall|i: int|
            0 <= i < self.row@.len() ==> KILO_TAB * (#[trigger] self.row@[i])@.len() <= usize::MAX
        &&& self.row@.len() < usize::MAX
        &&& self.row_off <= self.row@.len()
        &&& self.screen_rows >= 1
        &&& self.screen_cols >= 1
    }

    /// An editor with an empty buffer, the cursor at the origin, nothing
    /// scrolled, and a conventional screen size until the real one is known.
    pub fn new() -> (e: Self)
        ensures
            e.wf(),
            e.rows().len() == 0,
            e.spec_cx() == 0,
            e.spec_cy() == 0,
            e.spec_rx() == 0,
            e.spec_row_off() == 0,
            e.spec_col_off() == 0,
            e.spec_screen_rows() == DEFAULT_SCREEN_ROWS,
            e.spec_screen_cols() == DEFAULT_SCREEN_COLS,
            e.spec_filename().len() == 0,
    {
        Editor {
            cx: 0,
            cy: 0,
            rx: 0,
            row_off: 0,
            col_off: 0,
            screen_rows: DEFAULT_SCREEN_ROWS,
            screen_cols: DEFAULT_SCREEN_COLS,
            row: Vec::new(),
            render: Vec::new(),
            filename: String::new(),
        }
    }

    /// Everything but the cursor is as it was.
    pub open spec fn same_but_cursor(&self, other: &Editor) -> bool {
        &&& self.rows() == other.rows()
        &&& self.rendered() == other.rendered()
        &&& self.spec_rx() == other.spec_rx()
        &&& self.spec_row_off() == other.spec_row_off()
        &&& self.spec_col_off() == other.spec_col_off()
        &&& self.spec_screen_rows() == other.spec_screen_rows()
        &&& self.spec_screen_cols() == other.spec_screen_cols()
        &&& self.spec_filename() == other.spec_filename()
    }

    /// Length in characters of loaded line `i`.
    fn line_length(&self, i: usize) -> (r: usize)
        requires
            i < self.rows().len(),
        ensures
            r == line_len(self.rows(), i as int),
    {
        self.row[i].as_str().unicode_len()
    }

    /// Applies one arrow, Home or End move and clamps the cursor to its line.
    fn move_basic(&mut self, key: EditorKey)
        requires
            old(self).layout_ok(),
            old(self).spec_cy() <= old(self).rows().len(),
        ensures
            final(self).wf(),
            final(self).same_but_cursor(old(self)),
            final(self).cursor() == step(old(self).rows(), old(self).cursor(), key),
    {
        let ghost rows = self.rows();
        let n = self.row.len();
        match key {
            EditorKey::ArrowLeft => {
                if self.cx != 0 {
                    self.cx -= 1;
                } else if self.cy > 0 {
                    self.cy -= 1;
                    self.cx = self.line_length(self.cy);
                }
            },
            EditorKey::ArrowRight => {
                if self.cy < n {
                    let len = self.line_length(self.cy);
                    if self.cx < len {
                        self.cx += 1;
                    } else if self.cx == len {
                        self.cy += 1;
                        self.cx = 0;
                    }
                }
            },
            EditorKey::ArrowUp => {
                if self.cy != 0 {
                    self.cy -= 1;
                }
            },
            EditorKey::ArrowDown => {
                if self.cy < n {
                    self.cy += 1;
                }
            },
            EditorKey::HomeKey => {
                self.cx = 0;
            },
            EditorKey::EndKey => {
                if self.cy < n {
                    self.cx = self.line_length(self.cy);
                }
            },
            _ => {},
        }
        if self.cy < n {
            let len = self.line_length(self.cy);
            if self.cx > len {
                self.cx = len;
            }
        }
    }

    /// Applies a key event to the cursor: arrows, Home and End move it one
    /// step, Page Up and Page Down move it a screenful, and other keys leave
    /// it where it is.
    pub fn move_cursor(&mut self, key: EditorKey)
        requires
            old(self).wf(),
        ensures
            final(self).wf(),
            final(self).same_but_cursor(old(self)),
            final(self).cursor() == moved(
                old(self).rows(),
                old(self).cursor(),
                key,
                old(self).spec_row_off() as int,
                old(self).spec_screen_rows() as int,
            ),
    {
        let ghost e0 = *self;
        match key {
            EditorKey::PageUp => {
                self.cy = self.row_off;
                let ghost start = self.cursor();
                let mut times = self.screen_rows;
                while times > 0
                    invariant
                        self.layout_ok(),
                        self.spec_cy() <= self.rows().len(),
                        times < e0.spec_screen_rows() ==> self.wf(),
                        self.same_but_cursor(&e0),
                        times <= e0.spec_screen_rows(),
                        repeat_step(self.rows(), self.cursor(), EditorKey::ArrowUp, times as nat)
                            == repeat_step(self.rows(), start, EditorKey::ArrowUp, e0.spec_screen_rows()),
                    decreases times,
                {
                    self.move_basic(EditorKey::ArrowUp);
                    times -= 1;
                }
            },
            EditorKey::PageDown => {
                let n = self.row.len();
                if self.screen_rows - 1 > n - self.row_off {
                    self.cy = n;
                } else {
                    self.cy = self.row_off + (self.screen_rows - 1);
                }
                let ghost start = self.cursor();
                let mut times = self.screen_rows;
                while times > 0
                    invariant
                        self.layout_ok(),
                        self.spec_cy() <= self.rows().len(),
                        times < e0.spec_screen_rows() ==> self.wf(),
                        self.same_but_cursor(&e0),
                        times <= e0.spec_screen_rows(),
                        repeat_step(self.rows(), self.cursor(), EditorKey::ArrowDown, times as nat)
                            == repeat_step(self.rows(), start, EditorKey::ArrowDown, e0.spec_screen_rows()),
                    decreases times,
                {
                    self.move_basic(EditorKey::ArrowDown);
                    times -= 1;
                }
            },
            EditorKey::DelKey => {},
            EditorKey::Char(_) => {},
            _ => {
                self.move_basic(key);
            },
        }
    }

    /// Loads the lines of the file `filename` into an empty buffer, each with
    /// its displayed form; the cursor is then clamped to its line.
    pub fn open(&mut self, filename: &str, lines: Vec<String>)
        requires
            old(self).wf(),
            old(self).rows().len() == 0,
            lines@.len() < usize::MAX,
            forall|i: int| 0 <= i < lines@.len() ==> KILO_TAB * (#[trigger] lines@[i])@.len() <= usize::MAX,
        ensures
            final(self).wf(),
            final(self).rows() == lines@.map_values(|r: String| r@),
            final(self).rendered() == lines@.map_values(|r: String| render_of(r@)),
            final(self).spec_filename() == filename@,
            final(self).cursor() == clamp_cx(final(self).rows(), old(self).cursor()),
            final(self).spec_rx() == old(self).spec_rx(),
            final(self).spec_row_off() == old(self).spec_row_off(),
            final(self).spec_col_off() == old(self).spec_col_off(),
            final(self).spec_screen_rows() == old(self).spec_screen_rows(),
            final(self).spec_screen_cols() == old(self).spec_screen_cols(),
    {
        self.filename = filename.to_owned();
        let mut render: Vec<String> = Vec::new();
        let mut i: usize = 0;
        while i < lines.len()
            invariant
                i <= lines@.len(),
                render@.len() == i,
                forall|m: int|
                    0 <= m < lines@.len() ==> KILO_TAB * (#[trigger] lines@[m])@.len() <= usize::MAX,
                forall|m: int| 0 <= m < i ==> #[trigger] render@[m]@ == render_of(lines@[m]@),
            decreases lines@.len() - i,
        {
            let r = render_row(&lines[i]);
            render.push(r);
            i += 1;
        }
        self.row = lines;
        self.render = render;
        proof {
            assert(self.rows() =~= lines@.map_values(|r: String| r@));
            assert(self.rendered() =~= lines@.map_values(|r: String| render_of(r@)));
        }
        if self.cy < self.row.len() {
            let len = self.line_length(self.cy);
            if self.cx > len {
                self.cx = len;
            }
        }
    }

    /// Takes the terminal's size from its reply to a cursor-position query
    /// made at the bottom-right corner: one row is kept for the status line.
    /// A reply that is malformed, or leaves no row for text or no column,
    /// changes nothing.
    pub fn get_window_size(&mut self, response: &[u8])
        requires
            old(self).wf(),
        ensures
            final(self).wf(),
            final(self).cursor() == old(self).cursor(),
            final(self).rows() == old(self).rows(),
            final(self).rendered() == old(self).rendered(),
            final(self).spec_rx() == old(self).spec_rx(),
            final(self).spec_row_off() == old(self).spec_row_off(),
            final(self).spec_col_off() == old(self).spec_col_off(),
            final(self).spec_filename() == old(self).spec_filename(),
            size_fits(reported_size(response@)) ==> final(self).spec_screen_rows()
                == reported_size(response@).unwrap().0 - 1 && final(self).spec_screen_cols()
                == reported_size(response@).unwrap().1,
            !size_fits(reported_size(response@)) ==> final(self).spec_screen_rows()
                == old(self).spec_screen_rows() && final(self).spec_screen_cols() == old(
                self,
            ).spec_screen_cols(),
    {
        match parse_window_size(response) {
            Some((rows, cols)) => {
                if rows >= 2 && cols >= 1 {
                    self.screen_rows = rows - 1;
                    self.screen_cols = cols;
                }
            },
            None => {},
        }
    }

    /// Handles one key event: Ctrl-Q asks to quit, and every other key is
    /// applied to the cursor. Returns whether the session should end.
    pub fn process_key_press(&mut self, key: EditorKey) -> (quit: bool)
        requires
            old(self).wf(),
        ensures
            final(self).wf(),
            quit == (key == EditorKey::Char('\x11')),
            final(self).same_but_cursor(old(self)),
            final(self).cursor() == moved(
                old(self).rows(),
                old(self).cursor(),
                key,
                old(self).spec_row_off() as int,
                old(self).spec_screen_rows() as int,
            ),
    {
        match key {
            EditorKey::Char(c) => {
                let q = ctrl_key('q');
                assert(q == '\x11');
                c == q
            },
            _ => {
                self.move_cursor(key);
                false
            },
        }
    }

    /// Appends the content rows of the screen to `out`.
    pub fn editor_draw_rows(&self, out: &mut String)
        requires
            self.wf(),
        ensures
            final(out)@ == old(out)@ + screen_rows_text(
                self.rendered(),
                self.spec_screen_rows(),
                self.spec_row_off(),
                self.spec_col_off(),
                self.spec_screen_rows(),
                self.spec_screen_cols(),
            ),
    {
        push_rows(out, &self.render, self.row_off, self.col_off, self.screen_rows, self.screen_cols);
    }

    /// Appends the status bar to `out`.
    pub fn draw_status_bar(&self, out: &mut String)
        requires
            self.wf(),
        ensures
            final(out)@ == old(out)@ + status_bar(
                self.spec_filename(),
                self.rows().len(),
                self.spec_cy(),
                self.spec_screen_cols(),
            ),
    {
        push_status_bar(out, &self.filename, self.row.len(), self.cy, self.screen_cols);
    }

    /// Scrolls the cursor into view and composes the whole frame to be
    /// written to the terminal in one go.
    pub fn refresh_screen(&mut self) -> (out: String)
        requires
            old(self).wf(),
        ensures
            final(self).wf(),
            final(self).rows() == old(self).rows(),
            final(self).rendered() == old(self).rendered(),
            final(self).cursor() == old(self).cursor(),
            final(self).spec_screen_rows() == old(self).spec_screen_rows(),
            final(self).spec_screen_cols() == old(self).spec_screen_cols(),
            final(self).spec_filename() == old(self).spec_filename(),
            final(self).spec_rx() == scrolled_rx(old(self).rows(), old(self).spec_cx(), old(self).spec_cy()),
            final(self).spec_row_off() == scrolled_off(
                old(self).spec_cy(),
                old(self).spec_row_off(),
                old(self).spec_screen_rows(),
            ),
            final(self).spec_col_off() == scrolled_off(
                final(self).spec_rx(),
                old(self).spec_col_off(),
                old(self).spec_screen_cols(),
            ),
            out@ == frame(
                final(self).rendered(),
                final(self).spec_filename(),
                final(self).spec_cy(),
                final(self).spec_rx(),
                final(self).spec_row_off(),
                final(self).spec_col_off(),
                final(self).spec_screen_rows(),
                final(self).spec_screen_cols(),
            ),
    {
        self.scroll();
        let mut out = String::new();
        proof {
            reveal_strlit("\x1b[?25l");
            reveal_strlit("\x1b[H");
            reveal_strlit("\x1b[?25h");
        }
        out.append("\x1b[?25l");
        out.append("\x1b[H");
        self.editor_draw_rows(&mut out);
        self.draw_status_bar(&mut out);
        push_cursor_position(&mut out, (self.cy - self.row_off) + 1, (self.rx - self.col_off) + 1);
        out.append("\x1b[?25h");
        assert(self.rendered().len() == self.rows().len());
        assert(out@ =~= frame(
            self.rendered(),
            self.spec_filename(),
            self.spec_cy(),
            self.spec_rx(),
            self.spec_row_off(),
            self.spec_col_off(),
            self.spec_screen_rows(),
            self.spec_screen_cols(),
        ));
        out
    }

    /// The cursor's logical column.
    pub fn cx(&self) -> (r: usize)
        ensures
            r == self.spec_cx(),
    {
        self.cx
    }

    /// The cursor's line.
    pub fn cy(&self) -> (r: usize)
        ensures
            r == self.spec_cy(),
    {
        self.cy
    }

    /// The cursor's rendered column, as of the last scroll.
    pub fn rx(&self) -> (r: usize)
        ensures
            r == self.spec_rx(),
    {
        self.rx
    }

    /// The first line shown.
    pub fn row_off(&self) -> (r: usize)
        ensures
            r == self.spec_row_off(),
    {
        self.row_off
    }

    /// The first rendered column shown.
    pub fn col_off(&self) -> (r: usize)
        ensures
            r == self.spec_col_off(),
    {
        self.col_off
    }

    /// Screen rows for text.
    pub fn screen_rows(&self) -> (r: usize)
        ensures
            r == self.spec_screen_rows(),
    {
        self.screen_rows
    }

    /// Screen columns.
    pub fn screen_cols(&self) -> (r: usize)
        ensures
            r == self.spec_screen_cols(),
    {
        self.screen_cols
    }

    /// Number of lines in the buffer.
    pub fn num_rows(&self) -> (r: usize)
        ensures
            r == self.rows().len(),
    {
        self.row.len()
    }

    /// Loaded line `i`.
    pub fn row(&self, i: usize) -> (r: &String)
        requires
            i < self.rows().len(),
        ensures
            r@ == self.rows()[i as int],
    {
        &self.row[i]
    }

    /// Displayed line `i`.
    pub fn render(&self, i: usize) -> (r: &String)
        requires
            i < self.rendered().len(),
        ensures
            r@ == self.rendered()[i as int],
    {
        &self.render[i]
    }

    /// The rendered column of the cursor's logical column within `row`.
    pub fn row_cx_to_rx(&self, row: &String) -> (r: usize)
        requires
            KILO_TAB * row@.len() <= usize::MAX,
        ensures
            r == rx_of(row@, self.spec_cx()),
    {
        logical_to_rendered(row, self.cx)
    }

    /// Brings the cursor into view: recomputes the rendered column, then
    /// moves the offsets just far enough that the cursor's row and rendered
    /// column are inside the visible window.
    pub fn scroll(&mut self)
        requires
            old(self).wf(),
        ensures
            final(self).wf(),
            final(self).rows() == old(self).rows(),
            final(self).rendered() == old(self).rendered(),
            final(self).cursor() == old(self).cursor(),
            final(self).spec_screen_rows() == old(self).spec_screen_rows(),
            final(self).spec_screen_cols() == old(self).spec_screen_cols(),
            final(self).spec_filename() == old(self).spec_filename(),
            final(self).spec_rx() == scrolled_rx(old(self).rows(), old(self).spec_cx(), old(self).spec_cy()),
            final(self).spec_row_off() == scrolled_off(
                old(self).spec_cy(),
                old(self).spec_row_off(),
                old(self).spec_screen_rows(),
            ),
            final(self).spec_col_off() == scrolled_off(
                final(self).spec_rx(),
                old(self).spec_col_off(),
                old(self).spec_screen_cols(),
            ),
            final(self).spec_row_off() <= final(self).spec_cy()
                < final(self).spec_row_off() + final(self).spec_screen_rows(),
            final(self).spec_col_off() <= final(self).spec_rx()
                < final(self).spec_col_off() + final(self).spec_screen_cols(),
    {
        self.rx = 0;
        if self.cy < self.row.len() {
            self.rx = self.row_cx_to_rx(&self.row[self.cy]);
        }
        if self.cy < self.row_off {
            self.row_off = self.cy;
        }
        if self.cy - self.row_off >= self.screen_rows {
            self.row_off = self.cy - self.screen_rows + 1;
        }
        if self.rx < self.col_off {
            self.col_off = self.rx;
        }
        if self.rx - self.col_off >= self.screen_cols {
            self.col_off = self.rx - self.screen_cols + 1;
        }
    }
}

/// The rendered column of the cursor: that of its logical column on its line,
/// or 0 past the last line.
pub open spec fn scrolled_rx(rows: Seq<Seq<char>>, cx: nat, cy: nat) -> nat {
    if cy < rows.len() {
        rx_of(rows[cy as int], cx)
    } else {
        0
    }
}

/// The offset after scrolling so that position `p` lies in a window of
/// `size` starting at `off`: unchanged if it already does, else the nearest
/// offset that shows `p`.
pub open spec fn scrolled_off(p: nat, off: nat, size: nat) -> nat {
    if p < off {
        p
    } else if p >= off + size {
        (p - size + 1) as nat
    } else {
        off
    }
}

/// A reported terminal size that leaves at least one row for text and one
/// column, and whose figures fit the machine's sizes.
pub open spec fn size_fits(rep: Option<(nat, nat)>) -> bool {
    match rep {
        Some((rows, cols)) => 2 <= rows <= usize::MAX && 1 <= cols <= usize::MAX,
        None => false,
    }
}

/// ArrowRight at the end of a line that is not the last moves to the start of
/// the next line, and ArrowLeft at the start of a line that is not the first
/// moves to the end of the previous line.
pub proof fn lemma_arrows_wrap(rows: Seq<Seq<char>>, s: CursorState)
    requires
        cursor_ok(rows, s),
    ensures
        s.cy + 1 < rows.len() && s.cx == line_len(rows, s.cy) ==> step(
            rows,
            s,
            EditorKey::ArrowRight,
        ) == (CursorState { cx: 0, cy: s.cy + 1 }),
        0 < s.cy < rows.len() && s.cx == 0 ==> step(rows, s, EditorKey::ArrowLeft) == (
        CursorState { cx: line_len(rows, s.cy - 1), cy: s.cy - 1 }),
{
}

/// ArrowRight then ArrowLeft returns to where the cursor was, from anywhere on
/// a line; ArrowLeft then ArrowRight does too, except at the very start of the
/// buffer, or past the last line away from its first column.
pub proof fn lemma_arrows_round_trip(rows: Seq<Seq<char>>, s: CursorState)
    requires
        cursor_ok(rows, s),
    ensures
        s.cy < rows.len() ==> step(rows, step(rows, s, EditorKey::ArrowRight), EditorKey::ArrowLeft)
            == s,
        (s.cy < rows.len() && !(s.cx == 0 && s.cy == 0)) || (s.cx == 0 && s.cy == rows.len() > 0)
            ==> step(rows, step(rows, s, EditorKey::ArrowLeft), EditorKey::ArrowRight) == s,
{
}

/// After a scroll, the position lies in the window: the new offset is at
/// most the position, and the position is less than the offset plus the
/// window's size, whatever the offset was before.
pub proof fn lemma_scrolled_off_shows(p: nat, off: nat, size: nat)
    requires
        size >= 1,
    ensures
        scrolled_off(p, off, size) <= p < scrolled_off(p, off, size) + size,
{
}

} // verus!
