use vstd::prelude::*;
use crate::row::Row;
use crate::row::clip;
use crate::row::push_char;

verus! {

/// Number of screen rows that show buffer content: the bottom row holds the status bar.
pub open spec fn content_rows(h: int) -> int {
    if h >= 1 {
        h - 1
    } else {
        0
    }
}

/// Largest scroll offset for a buffer of `n` lines.
pub open spec fn max_rowoff(n: int) -> int {
    if n >= 1 {
        n - 1
    } else {
        0
    }
}

/// Largest cursor row for a buffer of `n` lines: the row past the last line,
/// as far as a `u16` reaches.
pub open spec fn row_limit(n: int) -> int {
    if n <= u16::MAX {
        n
    } else {
        u16::MAX as int
    }
}

/// The buffer holds only the sentinel: the single empty line that an empty
/// text loads as. The cursor then rests at its place.
pub open spec fn is_sentinel(lines: Seq<Seq<char>>) -> bool {
    lines.len() == 1 && lines[0].len() == 0
}

/// Scroll offset after one reconcile step with the cursor on row `cur`. The
/// offset stays within a `u16`.
pub open spec fn reconcile_offset(rowoff: int, cur: int, h: int, n: int) -> int {
    let r = if cur < rowoff {
        cur
    } else if cur >= rowoff + content_rows(h) && rowoff < u16::MAX {
        rowoff + 1
    } else {
        rowoff
    };
    if r > max_rowoff(n) {
        max_rowoff(n)
    } else {
        r
    }
}

/// The lines that a text holds when it is split at each line feed. A final line
/// feed leaves an empty last line, and an empty text is one empty line.
pub open spec fn split_lines(s: Seq<char>) -> Seq<Seq<char>>
    decreases s.len(),
{
    if s.len() == 0 {
        seq![Seq::<char>::empty()]
    } else {
        let prev = split_lines(s.drop_last());
        if s.last() == '\n' {
            prev.push(Seq::<char>::empty())
        } else {
            prev.update(prev.len() - 1, prev.last().push(s.last()))
        }
    }
}

/// Splitting always gives at least one line.
pub proof fn lemma_split_lines_nonempty(s: Seq<char>)
    ensures
        split_lines(s).len() >= 1,
    decreases s.len(),
{
    if s.len() > 0 {
        lemma_split_lines_nonempty(s.drop_last());
    }
}

/// The number of line feeds in `s`.
pub open spec fn count_newlines(s: Seq<char>) -> nat
    decreases s.len(),
{
    if s.len() == 0 {
        0
    } else {
        count_newlines(s.drop_last()) + if s.last() == '\n' { 1nat } else { 0nat }
    }
}

/// A cursor motion keeps the state valid and changes nothing but the cursor.
pub proof fn lemma_motion_valid(e: EditorView, m: Motion)
    requires
        e.valid(),
    ensures
        e.moved(m).valid(),
        e.moved(m).lines == e.lines,
        e.moved(m).rowoff == e.rowoff,
{
}

/// The cursor row never leaves the buffer: from a valid state, after any
/// sequence of cursor motions (moving down included), the row lies between zero
/// and the number of lines, and the buffer is unchanged.
pub proof fn lemma_motions_keep_row_in_buffer(e: EditorView, ms: Seq<Motion>)
    requires
        e.valid(),
    ensures
        e.moved_by(ms).valid(),
        e.moved_by(ms).lines == e.lines,
        0 <= e.moved_by(ms).row <= e.lines.len(),
    decreases ms.len(),
{
    if ms.len() > 0 {
        lemma_motions_keep_row_in_buffer(e, ms.drop_last());
        lemma_motion_valid(e.moved_by(ms.drop_last()), ms.last());
    }
}

/// At the origin, moving up or left changes nothing: from column 0 and row 0,
/// any sequence of up and left motions leaves the cursor at (0, 0).
pub proof fn lemma_up_left_stay_at_origin(e: EditorView, ms: Seq<Motion>)
    requires
        e.col == 0,
        e.row == 0,
        forall|i: int| 0 <= i < ms.len() ==> #[trigger] ms[i] == Motion::Up || ms[i] == Motion::Left,
    ensures
        e.moved_by(ms).col == 0,
        e.moved_by(ms).row == 0,
    decreases ms.len(),
{
    if ms.len() > 0 {
        let rest = ms.drop_last();
        assert forall|i: int| 0 <= i < rest.len() implies #[trigger] rest[i] == Motion::Up || rest[i]
            == Motion::Left by {
            assert(rest[i] == ms[i]);
        }
        lemma_up_left_stay_at_origin(e, rest);
        assert(ms[ms.len() - 1] == Motion::Up || ms[ms.len() - 1] == Motion::Left);
    }
}

/// After a reconcile the cursor row is on screen: it lies in the window
/// `[rowoff, rowoff + H - 1)`, or the window has reached the end of the buffer
/// and cannot move further. This holds when the terminal has at least one
/// content row and the cursor stood at most one row below the window.
pub proof fn lemma_reconcile_shows_cursor(e: EditorView)
    requires
        e.valid(),
        e.h >= 2,
        e.row <= e.rowoff + content_rows(e.h),
    ensures
        e.reconciled().valid(),
        e.reconciled().rowoff <= e.reconciled().row,
        e.reconciled().row < e.reconciled().rowoff + content_rows(e.h)
            || e.reconciled().rowoff == max_rowoff(e.lines.len() as int),
{
}

/// A second reconcile with no cursor motion in between leaves the scroll offset
/// as the first one set it, under the same conditions as above.
pub proof fn lemma_reconcile_idempotent(e: EditorView)
    requires
        e.valid(),
        e.h >= 2,
        e.row <= e.rowoff + content_rows(e.h),
    ensures
        e.reconciled().reconciled() == e.reconciled(),
{
    lemma_reconcile_shows_cursor(e);
}

/// Loading a text gives one line more than it has line feeds: a final line feed
/// leaves an empty last line, and an empty text gives one empty line.
pub proof fn lemma_line_count(s: Seq<char>)
    ensures
        split_lines(s).len() == count_newlines(s) + 1,
    decreases s.len(),
{
    if s.len() > 0 {
        lemma_line_count(s.drop_last());
    }
}

/// A cursor movement.
#[derive(Clone, Copy, Debug, PartialEq, Eq, Structural)]
pub enum Motion {
    Left,
    Right,
    Up,
    Down,
    PageUp,
    PageDown,
}

/// The state of an editor as plain values.
pub struct EditorView {
    pub w: int,
    pub h: int,
    pub col: int,
    pub row: int,
    pub rowoff: int,
    pub lines: Seq<Seq<char>>,
    pub filename: Seq<char>,
}

impl EditorView {
    /// Every coordinate fits a `u16`, and the cursor row is at most one past the last line.
    pub open spec fn valid(self) -> bool {
        &&& 0 <= self.w <= u16::MAX
        &&& 0 <= self.h <= u16::MAX
        &&& 0 <= self.col <= u16::MAX
        &&& 0 <= self.row <= u16::MAX
        &&& 0 <= self.rowoff <= u16::MAX
        &&& self.row <= self.lines.len()
    }

    /// The cursor position after motion `m`. On the sentinel buffer moving down or
    /// right changes nothing.
    pub open spec fn motion_cursor(self, m: Motion) -> (int, int) {
        let (col, row) = (self.col, self.row);
        let limit = if is_sentinel(self.lines) {
            0
        } else {
            row_limit(self.lines.len() as int)
        };
        match m {
            Motion::Left => (if col > 0 { col - 1 } else { col }, row),
            Motion::Right => (if col < self.w && !is_sentinel(self.lines) { col + 1 } else { col }, row),
            Motion::Up => (col, if row > 0 { row - 1 } else { row }),
            Motion::Down => (col, if row < limit { row + 1 } else { row }),
            Motion::PageUp => (col, if row > self.h { row - self.h } else { 0 }),
            Motion::PageDown => (col, if row >= limit {
                row
            } else if row + content_rows(self.h) <= limit {
                row + content_rows(self.h)
            } else {
                limit
            }),
        }
    }

    /// The state after motion `m`: only the cursor changes.
    pub open spec fn moved(self, m: Motion) -> EditorView {
        EditorView { col: self.motion_cursor(m).0, row: self.motion_cursor(m).1, ..self }
    }

    /// The state after a sequence of motions, applied in order.
    pub open spec fn moved_by(self, ms: Seq<Motion>) -> EditorView
        decreases ms.len(),
    {
        if ms.len() == 0 {
            self
        } else {
            self.moved_by(ms.drop_last()).moved(ms.last())
        }
    }

    /// The state after the scroll offset is brought back to the cursor.
    pub open spec fn reconciled(self) -> EditorView {
        EditorView {
            rowoff: reconcile_offset(self.rowoff, self.row, self.h, self.lines.len() as int),
            ..self
        }
    }

    /// What screen row `y` shows: a tilde past the end of the buffer, else the
    /// line clipped to the terminal width.
    pub open spec fn visible_row(self, y: int) -> Seq<char> {
        let idx = self.rowoff + y;
        if idx >= self.lines.len() {
            seq!['~']
        } else {
            clip(self.lines[idx], self.w)
        }
    }

    /// The status bar: the file name, clipped and padded with spaces to the terminal width.
    pub open spec fn status_line(self) -> Seq<char> {
        let name = clip(self.filename, self.w);
        name + Seq::new((self.w - name.len()) as nat, |i: int| ' ')
    }

    /// Where the cursor stands on the screen.
    pub open spec fn screen_cursor(self) -> (int, int) {
        (self.col, if self.row >= self.rowoff { self.row - self.rowoff } else { 0 })
    }
}

/// An index past the last line of the buffer.
#[derive(Clone, Copy, Debug, PartialEq, Eq, Structural)]
pub enum BufferError {
    OutOfRange,
}

/// One frame to paint: the content rows from the top, the status bar, and the
/// cursor position on the screen.
pub struct Frame {
    pub rows: Vec<String>,
    pub status: String,
    pub cursor: (u16, u16),
}

/// A text buffer shown through a scrollable window of the terminal, with a cursor.
pub struct Editor {
    w: u16,
    h: u16,
    cursor: (u16, u16),
    rows: Vec<Row>,
    rowoff: u16,
    filename: String,
}

impl View for Editor {
    type V = EditorView;

    closed spec fn view(&self) -> EditorView {
        EditorView {
            w: self.w as int,
            h: self.h as int,
            col: self.cursor.0 as int,
            row: self.cursor.1 as int,
            rowoff: self.rowoff as int,
            lines: self.rows@.map_values(|r: Row| r@),
            filename: self.filename@,
        }
    }
}

impl Editor {
    /// The cursor row lies within the buffer or on the row just past it.
    pub open spec fn wf(&self) -> bool {
        self@.valid()
    }

    /// An empty buffer on a terminal of `w` columns and `h` rows, cursor and
    /// window at the top.
    pub fn new(w: u16, h: u16) -> (r: Editor)
        ensures
            r.wf(),
            r@.w == w as int,
            r@.h == h as int,
            r@.col == 0,
            r@.row == 0,
            r@.rowoff == 0,
            r@.lines == Seq::<Seq<char>>::empty(),
            r@.filename == "*None*"@,
    {
        let r = Editor {
            w,
            h,
            cursor: (0, 0),
            rows: Vec::new(),
            rowoff: 0,
            filename: "*None*".to_owned(),
        };
        assert(r@.lines =~= Seq::<Seq<char>>::empty());
        r
    }

    /// Sets the terminal size; the next frame uses it.
    pub fn upadate_size(&mut self, w: u16, h: u16)
        requires
            old(self).wf(),
        ensures
            final(self).wf(),
            final(self)@ == (EditorView { w: w as int, h: h as int, ..old(self)@ }),
    {
        self.w = w;
        self.h = h;
    }

    /// The terminal size as (columns, rows).
    pub fn get_size(&mut self) -> (r: (u16, u16))
        ensures
            *final(self) == *old(self),
            r.0 as int == old(self)@.w,
            r.1 as int == old(self)@.h,
    {
        (self.w, self.h)
    }

    /// The cursor position as (column, row) in buffer coordinates.
    pub fn get_cursor_pos(&mut self) -> (r: (u16, u16))
        ensures
            *final(self) == *old(self),
            r.0 as int == old(self)@.col,
            r.1 as int == old(self)@.row,
    {
        self.cursor
    }

    /// The current scroll offset: the buffer line shown on the top screen row.
    pub fn get_rowoff(&self) -> (r: u16)
        ensures
            r as int == self@.rowoff,
    {
        self.rowoff
    }

    /// The number of lines in the buffer.
    pub fn line_count(&self) -> (r: usize)
        ensures
            r as int == self@.lines.len(),
    {
        self.rows.len()
    }

    /// A copy of line `index`, or `OutOfRange` past the last line.
    pub fn get_line(&self, index: usize) -> (r: Result<String, BufferError>)
        ensures
            index < self@.lines.len() ==> r is Ok && r->Ok_0@ == self@.lines[index as int],
            index >= self@.lines.len() ==> r == Err::<String, BufferError>(BufferError::OutOfRange),
    {
        if index < self.rows.len() {
            let mut row = self.rows[index].clone_row();
            Ok(row.get_content())
        } else {
            Err(BufferError::OutOfRange)
        }
    }

    /// Whether the buffer holds only the sentinel line.
    pub fn holds_only_sentinel(&self) -> (r: bool)
        ensures
            r == is_sentinel(self@.lines),
    {
        self.rows.len() == 1 && self.rows[0].is_empty()
    }

    /// Moves the cursor one column left, unless it is in the first column.
    pub fn cursor_move_left(&mut self)
        requires
            old(self).wf(),
        ensures
            final(self).wf(),
            final(self)@ == old(self)@.moved(Motion::Left),
    {
        if self.cursor.0 > 0 {
            self.cursor.0 = self.cursor.0 - 1;
        }
    }

    /// Moves the cursor one column right, up to the terminal width; on the
    /// sentinel buffer it stays.
    pub fn cursor_move_right(&mut self)
        requires
            old(self).wf(),
        ensures
            final(self).wf(),
            final(self)@ == old(self)@.moved(Motion::Right),
    {
        if self.cursor.0 < self.w && !self.holds_only_sentinel() {
            self.cursor.0 = self.cursor.0 + 1;
        }
    }

    /// Moves the cursor one row up, unless it is on the first row.
    pub fn cursor_move_up(&mut self)
        requires
            old(self).wf(),
        ensures
            final(self).wf(),
            final(self)@ == old(self)@.moved(Motion::Up),
    {
        if self.cursor.1 > 0 {
            self.cursor.1 = self.cursor.1 - 1;
        }
    }

    /// Moves the cursor one row down, up to the row just past the last line; on
    /// the sentinel buffer it stays.
    pub fn cursor_move_down(&mut self)
        requires
            old(self).wf(),
        ensures
            final(self).wf(),
            final(self)@ == old(self)@.moved(Motion::Down),
    {
        if (self.cursor.1 as usize) < self.rows.len() && self.cursor.1 < u16::MAX
            && !self.holds_only_sentinel() {
            self.cursor.1 = self.cursor.1 + 1;
        }
    }

    /// Moves the cursor up once for each row of the terminal.
    pub fn page_up(&mut self)
        requires
            old(self).wf(),
        ensures
            final(self).wf(),
            final(self)@ == old(self)@.moved(Motion::PageUp),
    {
        let n = self.h;
        let ghost start = self@;
        for i in 0..n
            invariant
                self.wf(),
                n as int == start.h,
                self@ == (EditorView { row: if start.row > i { start.row - i } else { 0 }, ..start }),
        {
            self.cursor_move_up();
        }
    }

    /// Moves the cursor down once for each content row of the terminal.
    pub fn page_down(&mut self)
        requires
            old(self).wf(),
        ensures
            final(self).wf(),
            final(self)@ == old(self)@.moved(Motion::PageDown),
    {
        let n: u16 = if self.h >= 1 { self.h - 1 } else { 0 };
        let ghost start = self@;
        let ghost limit = if is_sentinel(start.lines) {
            0
        } else {
            row_limit(start.lines.len() as int)
        };
        for i in 0..n
            invariant
                self.wf(),
                n as int == content_rows(start.h),
                limit == (if is_sentinel(start.lines) {
                    0
                } else {
                    row_limit(start.lines.len() as int)
                }),
                self@ == (EditorView {
                    row: if start.row >= limit {
                        start.row
                    } else if start.row + i <= limit {
                        start.row + i
                    } else {
                        limit
                    },
                    ..start
                }),
        {
            self.cursor_move_down();
        }
    }


    /// Appends one line with text `s` at the end of the buffer.
    pub fn append_row(&mut self, s: String)
        requires
            old(self).wf(),
        ensures
            final(self).wf(),
            final(self)@ == (EditorView { lines: old(self)@.lines.push(s@), ..old(self)@ }),
    {
        let mut r = Row::new();
        r.set_content(s);
        self.rows.push(r);
        assert(self@.lines =~= old(self)@.lines.push(s@));
    }

    /// Starts a session with no file: the buffer gets the line "Hello World".
    pub fn open_editor(&mut self)
        requires
            old(self).wf(),
        ensures
            final(self).wf(),
            final(self)@ == (EditorView { lines: old(self)@.lines.push("Hello World"@), ..old(self)@ }),
    {
        self.append_row("Hello World".to_owned());
    }

    /// Loads the text of the file `filepath`: each of its lines, split at line
    /// feeds, is appended to the buffer, and the status bar shows `filepath`.
    pub fn open_file(&mut self, filepath: String, text: &str)
        requires
            old(self).wf(),
        ensures
            final(self).wf(),
            final(self)@ == (EditorView {
                lines: old(self)@.lines + split_lines(text@),
                filename: filepath@,
                ..old(self)@
            }),
    {
        self.filename = filepath;
        let ghost start = self@;
        let mut current = String::new();
        for c in it: text.chars()
            invariant
                it.seq() == text@,
                self.wf(),
                self@.lines + seq![current@] == start.lines + split_lines(text@.take(it.index() as int)),
                self@ == (EditorView { lines: self@.lines, ..start }),
        {
            let ghost done = text@.take(it.index() as int);
            let ghost next = text@.take(it.index() as int + 1);
            assert(next.drop_last() =~= done);
            assert(next.last() == c);
            let ghost prev = split_lines(done);
            let ghost lines0 = self@.lines;
            let ghost cur0 = current@;
            proof {
                lemma_split_lines_nonempty(done);
                let k = lines0.len() as int;
                let a = lines0 + seq![cur0];
                let b = start.lines + prev;
                assert(a == b);
                assert(a.len() == b.len());
                assert(a[k] == cur0);
                assert(b[k] == prev.last());
                assert(prev.last() == cur0);
                assert(lines0 =~= (start.lines + prev).drop_last());
            }
            if c == '\n' {
                self.append_row(current);
                current = String::new();
                assert(split_lines(next) == prev.push(Seq::<char>::empty()));
                assert(self@.lines =~= start.lines + prev);
                assert(self@.lines + seq![current@] =~= start.lines + split_lines(next));
            } else {
                let ghost before = current@;
                push_char(&mut current, c);
                assert(split_lines(next) == prev.update(prev.len() - 1, before.push(c)));
                assert(self@.lines + seq![current@] =~= start.lines + split_lines(next));
            }
        }
        assert(text@.take(text@.len() as int) =~= text@);
        let ghost before = self@.lines + seq![current@];
        self.append_row(current);
        assert(self@.lines =~= before);
    }


    /// Brings the scroll offset toward the cursor, one step per frame: up to the
    /// cursor when it stands above the window, down one row when it stands below,
    /// and never past the last line.
    pub fn scroll(&mut self)
        requires
            old(self).wf(),
        ensures
            final(self).wf(),
            final(self)@ == old(self)@.reconciled(),
    {
        let cur = self.cursor.1;
        let content: u16 = if self.h >= 1 { self.h - 1 } else { 0 };
        let mut r: u32 = self.rowoff as u32;
        if cur < self.rowoff {
            r = cur as u32;
        } else if cur as u32 >= self.rowoff as u32 + content as u32 && self.rowoff < u16::MAX {
            r = self.rowoff as u32 + 1;
        }
        let n = self.rows.len();
        let last: usize = if n >= 1 { n - 1 } else { 0 };
        if r as usize > last {
            r = last as u32;
        }
        self.rowoff = r as u16;
    }

    /// The content rows of the screen, from the top: the window of the buffer
    /// that starts at the scroll offset, with a tilde on each row past the end.
    pub fn draw_rows(&self) -> (r: Vec<String>)
        ensures
            r@.len() == content_rows(self@.h),
            forall|y: int| 0 <= y < r@.len() ==> (#[trigger] r@[y])@ == self@.visible_row(y),
    {
        let mut out: Vec<String> = Vec::new();
        let content: u16 = if self.h >= 1 { self.h - 1 } else { 0 };
        for y in 0..content
            invariant
                content as int == content_rows(self@.h),
                out@.len() == y,
                forall|k: int| 0 <= k < out@.len() ==> (#[trigger] out@[k])@ == self@.visible_row(k),
        {
            let fileoff: usize = y as usize + self.rowoff as usize;
            if fileoff >= self.rows.len() {
                out.push("~".to_owned());
                proof {
                    reveal_strlit("~");
                    assert("~"@ =~= seq!['~']);
                }
            } else {
                out.push(self.rows[fileoff].truncated(self.w));
            }
        }
        out
    }

    /// The status bar: the file name, clipped and padded with spaces to the
    /// terminal width.
    pub fn draw_bottom_bar(&self) -> (r: String)
        ensures
            r@ == self@.status_line(),
    {
        let mut bar = crate::row::clip_string(self.filename.as_str(), self.w);
        let ghost name = bar@;
        let mut k: usize = 0;
        let fill: usize = self.w as usize - bar.as_str().unicode_len();
        while k < fill
            invariant
                fill == self@.w - name.len(),
                k <= fill,
                bar@ == name + Seq::new(k as nat, |i: int| ' '),
            decreases fill - k,
        {
            push_char(&mut bar, ' ');
            k = k + 1;
            assert(bar@ =~= name + Seq::new(k as nat, |i: int| ' '));
        }
        bar
    }

    /// Brings the window to the cursor, then gives the frame to paint.
    pub fn refresh(&mut self) -> (r: Frame)
        requires
            old(self).wf(),
        ensures
            final(self).wf(),
            final(self)@ == old(self)@.reconciled(),
            r.rows@.len() == content_rows(final(self)@.h),
            forall|y: int| 0 <= y < r.rows@.len() ==> (#[trigger] r.rows@[y])@ == final(self)@.visible_row(y),
            r.status@ == final(self)@.status_line(),
            r.cursor.0 as int == final(self)@.screen_cursor().0,
            r.cursor.1 as int == final(self)@.screen_cursor().1,
    {
        self.scroll();
        let rows = self.draw_rows();
        let status = self.draw_bottom_bar();
        let y: u16 = if self.cursor.1 >= self.rowoff { self.cursor.1 - self.rowoff } else { 0 };
        Frame { rows, status, cursor: (self.cursor.0, y) }
    }

    /// Applies one cursor movement.
    pub fn apply_motion(&mut self, m: Motion)
        requires
            old(self).wf(),
        ensures
            final(self).wf(),
            final(self)@ == old(self)@.moved(m),
    {
        match m {
            Motion::Left => self.cursor_move_left(),
            Motion::Right => self.cursor_move_right(),
            Motion::Up => self.cursor_move_up(),
            Motion::Down => self.cursor_move_down(),
            Motion::PageUp => self.page_up(),
            Motion::PageDown => self.page_down(),
        }
    }
}

} // verus!
