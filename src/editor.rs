use vstd::prelude::*;
use crate::document::{Document, row_length, doc_fits};
use crate::row::{Row, window};

verus! {

/// A column `x` and a row `y`, in document or screen coordinates.
#[derive(Clone, Copy, Debug, PartialEq, Eq, Structural)]
pub struct Position {
    pub x: usize,
    pub y: usize,
}

impl Default for Position {
    fn default() -> (p: Position)
        ensures
            p.x == 0 && p.y == 0,
    {
        Position { x: 0, y: 0 }
    }
}

/// The terminal's dimensions in character cells.
#[derive(Clone, Copy, Debug, PartialEq, Eq, Structural)]
pub struct Size {
    pub width: u16,
    pub height: u16,
}

/// A key press, as far as the editor tells keys apart.
#[derive(Clone, Copy, Debug, PartialEq, Eq, Structural)]
pub enum Key {
    Left,
    Right,
    Up,
    Down,
    Home,
    End,
    PageUp,
    PageDown,
    Char(char),
    Ctrl(char),
    Other,
}

/// The key that ends the session.
pub open spec fn is_quit_key(k: Key) -> bool {
    k == Key::Ctrl('p')
}

/// Up arrow or k.
pub open spec fn is_up(k: Key) -> bool {
    k == Key::Up || k == Key::Char('k')
}

/// Down arrow or j.
pub open spec fn is_down(k: Key) -> bool {
    k == Key::Down || k == Key::Char('j')
}

/// Left arrow or h.
pub open spec fn is_left(k: Key) -> bool {
    k == Key::Left || k == Key::Char('h')
}

/// Right arrow or l.
pub open spec fn is_right(k: Key) -> bool {
    k == Key::Right || k == Key::Char('l')
}

/// Arrow keys and their letter equivalents h, j, k, l.
pub open spec fn spec_is_move_key(k: Key) -> bool {
    is_up(k) || is_down(k) || is_left(k) || is_right(k)
}

/// The keys that jump: Page Down, Page Up, Home and End.
pub open spec fn spec_is_move_shortcut(k: Key) -> bool {
    k == Key::PageDown || k == Key::PageUp || k == Key::Home || k == Key::End
}

/// The cursor lies on a row of the document or on the line just past it, and
/// no further right than the end of its row.
pub open spec fn in_bounds(doc: Seq<Seq<u8>>, p: Position) -> bool {
    &&& p.y <= doc.len()
    &&& p.x <= row_length(doc, p.y as int)
}

/// The row that key `k` moves to from row `y`, before any clamping.
pub open spec fn target_y(doc: Seq<Seq<u8>>, y: int, k: Key) -> int {
    if is_up(k) {
        if y > 0 { y - 1 } else { 0 }
    } else if is_down(k) {
        if y < doc.len() { y + 1 } else { y }
    } else if k == Key::PageDown {
        doc.len() as int
    } else if k == Key::PageUp {
        0
    } else {
        y
    }
}

/// The column that key `k` moves to from column `x` on row `y`, before clamping.
pub open spec fn target_x(doc: Seq<Seq<u8>>, x: int, y: int, k: Key) -> int {
    if is_left(k) {
        if x > 0 { x - 1 } else { 0 }
    } else if is_right(k) {
        if x < row_length(doc, y) { x + 1 } else { x }
    } else if k == Key::Home {
        0
    } else if k == Key::End {
        row_length(doc, y)
    } else {
        x
    }
}

/// Where key `k` takes the cursor from `p`: the move, then the column clamped
/// to the length of the row it ends on.
pub open spec fn moved(doc: Seq<Seq<u8>>, p: Position, k: Key) -> Position {
    let y = target_y(doc, p.y as int, k);
    let x = target_x(doc, p.x as int, p.y as int, k);
    let w = row_length(doc, y);
    Position { x: (if x > w { w } else { x }) as usize, y: y as usize }
}

/// One axis of the viewport: the new start of a window of `span` cells that
/// begins at `off`, so that it shows `c`: unchanged while `off <= c < off + span`,
/// else moved just far enough to put `c` on its first or last cell.
pub open spec fn scroll_axis(c: int, off: int, span: int) -> int {
    if c < off {
        c
    } else if c - off >= span {
        if c - span + 1 <= usize::MAX { c - span + 1 } else { usize::MAX as int }
    } else {
        off
    }
}

/// The offset after scrolling so that `cursor` is in view.
pub open spec fn scrolled(cursor: Position, offset: Position, size: Size) -> Position {
    Position {
        x: scroll_axis(cursor.x as int, offset.x as int, size.width as int) as usize,
        y: scroll_axis(cursor.y as int, offset.y as int, size.height as int) as usize,
    }
}

/// The cursor is on screen: its distance from the offset is under the
/// viewport's size on both axes.
pub open spec fn visible(cursor: Position, offset: Position, size: Size) -> bool {
    &&& offset.x <= cursor.x < offset.x + size.width
    &&& offset.y <= cursor.y < offset.y + size.height
}

/// The byte drawn at the start of a screen line past the end of the document.
pub const PLACEHOLDER: u8 = 124;

/// The byte used to pad the welcome banner.
pub const SPACE: u8 = 32;

/// The welcome line on a screen `width` cells wide: a placeholder mark, spaces
/// that centre `banner`, then `banner`, all cut to `width`.
pub open spec fn welcome(banner: Seq<u8>, width: int) -> Seq<u8> {
    let pad = if width > banner.len() { (width - banner.len()) / 2 } else { 0 };
    let spaces = if pad > 0 { pad - 1 } else { 0 };
    let full = seq![PLACEHOLDER] + Seq::new(spaces as nat, |i: int| SPACE) + banner;
    if full.len() > width { full.subrange(0, width) } else { full }
}

/// What screen line `r` shows: the document row under it, windowed to the
/// viewport; else the welcome line, on an empty document at a third of the
/// height; else the placeholder mark.
pub open spec fn screen_line(
    doc: Seq<Seq<u8>>,
    offset: Position,
    size: Size,
    banner: Seq<u8>,
    r: int,
) -> Seq<u8> {
    let d = r + offset.y;
    let end = if offset.x + size.width <= usize::MAX { offset.x + size.width } else { usize::MAX as int };
    if d < doc.len() {
        window(doc[d], offset.x as int, end)
    } else if doc.len() == 0 && r == size.height / 3 {
        welcome(banner, size.width as int)
    } else {
        seq![PLACEHOLDER]
    }
}

/// The number of screen lines drawn: all but the last, kept for a status line.
pub open spec fn body_height(size: Size) -> int {
    if size.height > 0 { size.height - 1 } else { 0 }
}

/// The terminal cursor's place: the cursor relative to the offset.
pub open spec fn screen_cursor(cursor: Position, offset: Position) -> Position {
    Position {
        x: (if cursor.x >= offset.x { cursor.x - offset.x } else { 0 }) as usize,
        y: (if cursor.y >= offset.y { cursor.y - offset.y } else { 0 }) as usize,
    }
}

/// One frame to draw.
pub enum Frame {
    /// The session has ended: clear the screen and say goodbye.
    Farewell,
    /// The screen lines from the top, and where to put the terminal cursor.
    Body { lines: Vec<Vec<u8>>, cursor: Position },
}

/// Whether `key` is an arrow key or one of h, j, k, l.
pub fn is_move_key(key: Key) -> (r: bool)
    ensures
        r == spec_is_move_key(key),
{
    match key {
        Key::Left | Key::Up | Key::Right | Key::Down => true,
        Key::Char(c) => c == 'h' || c == 'j' || c == 'k' || c == 'l',
        _ => false,
    }
}

/// Whether `key` is Page Down, Page Up, Home or End.
pub fn is_move_shortcut(key: Key) -> (r: bool)
    ensures
        r == spec_is_move_shortcut(key),
{
    match key {
        Key::PageDown | Key::PageUp | Key::Home | Key::End => true,
        _ => false,
    }
}

/// The cursor position after `key` on `document`, from `current`.
pub fn move_position(document: &Document, current: Position, key: Key) -> (r: Position)
    ensures
        r == moved(document@, current, key),
{
    let Position { mut x, mut y } = current;
    let height = document.len();
    let width = document.row_len(y);
    match key {
        Key::Up | Key::Char('k') => {
            if y > 0 {
                y = y - 1;
            }
        },
        Key::Down | Key::Char('j') => {
            if y < height {
                y = y + 1;
            }
        },
        Key::Left | Key::Char('h') => {
            if x > 0 {
                x = x - 1;
            }
        },
        Key::Right | Key::Char('l') => {
            if x < width {
                x = x + 1;
            }
        },
        Key::PageDown => y = height,
        Key::PageUp => y = 0,
        Key::Home => x = 0,
        Key::End => x = width,
        _ => {},
    }
    let width = document.row_len(y);
    if x > width {
        x = width;
    }
    Position { x, y }
}

/// One axis of `scroll_offset`.
fn scroll_coordinate(c: usize, off: usize, span: usize) -> (r: usize)
    ensures
        r == scroll_axis(c as int, off as int, span as int),
{
    if c < off {
        c
    } else if c - off >= span {
        if c - span < usize::MAX { c - span + 1 } else { usize::MAX }
    } else {
        off
    }
}

/// The offset that keeps `cursor` in a viewport of `size`, moved from `offset`
/// only as far as needed.
pub fn scroll_offset(cursor: Position, offset: Position, size: Size) -> (r: Position)
    ensures
        r == scrolled(cursor, offset, size),
        size.width > 0 && size.height > 0 ==> visible(cursor, r, size),
        visible(cursor, offset, size) ==> r == offset,
{
    Position {
        x: scroll_coordinate(cursor.x, offset.x, size.width as usize),
        y: scroll_coordinate(cursor.y, offset.y, size.height as usize),
    }
}

} // verus!

verus! {

/// The welcome line on a screen `width` cells wide.
pub fn welcome_msg(banner: &Vec<u8>, width: usize) -> (r: Vec<u8>)
    ensures
        r@ == welcome(banner@, width as int),
{
    let pad: usize = if width > banner.len() { (width - banner.len()) / 2 } else { 0 };
    let spaces: usize = if pad > 0 { pad - 1 } else { 0 };
    let ghost pads = Seq::new(spaces as nat, |i: int| SPACE);
    let ghost head = seq![PLACEHOLDER] + pads;
    let ghost full = head + banner@;
    let mut out: Vec<u8> = Vec::new();
    if width == 0 {
        assert(out@ =~= welcome(banner@, width as int));
        return out;
    }
    out.push(PLACEHOLDER);
    let mut i: usize = 0;
    while i < spaces && out.len() < width
        invariant
            i <= spaces,
            out@.len() == i + 1,
            1 <= out@.len() <= width,
            out@ =~= full.subrange(0, out@.len() as int),
            full.len() == 1 + spaces + banner@.len(),
            full == head + banner@,
            head == seq![PLACEHOLDER] + pads,
            pads == Seq::new(spaces as nat, |k: int| SPACE),
        decreases spaces - i,
    {
        assert(pads[i as int] == SPACE);
        assert(head[out@.len() as int] == pads[i as int]);
        assert(full[out@.len() as int] == SPACE);
        out.push(SPACE);
        i = i + 1;
    }
    let mut j: usize = 0;
    while j < banner.len() && out.len() < width
        invariant
            j <= banner@.len(),
            1 <= out@.len() <= width,
            i == spaces || out@.len() == width,
            i <= spaces,
            j > 0 ==> i == spaces,
            out@.len() == i + 1 + j,
            out@ =~= full.subrange(0, out@.len() as int),
            full.len() == 1 + spaces + banner@.len(),
            full == head + banner@,
            head.len() == 1 + spaces,
        decreases banner@.len() - j,
    {
        assert(head.len() == 1 + spaces);
        assert(full[out@.len() as int] == banner@[j as int]);
        out.push(banner[j]);
        j = j + 1;
    }
    assert(out@ =~= welcome(banner@, width as int));
    out
}

} // verus!

verus! {

/// What frame `f` must be for a session in the given state: the farewell once
/// quitting, else every body line and the terminal cursor.
pub open spec fn frame_shows(
    f: Frame,
    quit: bool,
    doc: Seq<Seq<u8>>,
    cursor: Position,
    offset: Position,
    size: Size,
    banner: Seq<u8>,
) -> bool {
    match f {
        Frame::Farewell => quit,
        Frame::Body { lines, cursor: at } => {
            &&& !quit
            &&& lines@.len() == body_height(size)
            &&& forall|r: int| 0 <= r < lines@.len() ==> #[trigger] lines@[r]@ == screen_line(doc, offset, size, banner, r)
            &&& at == screen_cursor(cursor, offset)
        },
    }
}

/// A viewing session over one document: the cursor, the viewport's offset,
/// and whether the user asked to quit.
pub struct Editor {
    want_quit: bool,
    cursor_position: Position,
    offset: Position,
    document: Document,
    banner: Vec<u8>,
}

impl Editor {
    /// Whether the user asked to quit.
    pub closed spec fn spec_quit(&self) -> bool {
        self.want_quit
    }

    /// The cursor, in document coordinates.
    pub closed spec fn spec_cursor(&self) -> Position {
        self.cursor_position
    }

    /// The document coordinate at the top left of the viewport.
    pub closed spec fn spec_offset(&self) -> Position {
        self.offset
    }

    /// The rows of the document, as bytes.
    pub closed spec fn spec_document(&self) -> Seq<Seq<u8>> {
        self.document@
    }

    /// The text of the welcome line.
    pub closed spec fn spec_banner(&self) -> Seq<u8> {
        self.banner@
    }

    /// Holds of every session: the cursor lies within the document.
    #[verifier::type_invariant]
    spec fn cursor_in_document(&self) -> bool {
        in_bounds(self.document@, self.cursor_position)
    }

    /// The cursor stays within the document.
    pub open spec fn inv(&self) -> bool {
        in_bounds(self.spec_document(), self.spec_cursor())
    }

    /// A session on `document` with the cursor and viewport at the top left;
    /// `banner` is the text of the welcome line.
    pub fn new(document: Document, banner: Vec<u8>) -> (e: Editor)
        ensures
            !e.spec_quit(),
            e.spec_cursor() == (Position { x: 0, y: 0 }),
            e.spec_offset() == (Position { x: 0, y: 0 }),
            e.spec_document() == document@,
            e.spec_banner() == banner@,
            e.inv(),
    {
        Editor {
            want_quit: false,
            cursor_position: Position { x: 0, y: 0 },
            offset: Position { x: 0, y: 0 },
            document,
            banner,
        }
    }

    /// Whether the user asked to quit.
    pub fn want_quit(&self) -> (r: bool)
        ensures
            r == self.spec_quit(),
    {
        self.want_quit
    }

    /// The cursor, in document coordinates.
    pub fn cursor_position(&self) -> (r: Position)
        ensures
            r == self.spec_cursor(),
    {
        self.cursor_position
    }

    /// The document coordinate at the top left of the viewport.
    pub fn offset(&self) -> (r: Position)
        ensures
            r == self.spec_offset(),
    {
        self.offset
    }

    /// The document being viewed.
    pub fn document(&self) -> (r: &Document)
        ensures
            r@ == self.spec_document(),
    {
        &self.document
    }

    /// Moves the cursor as `key` says, then clamps its column to its row.
    pub fn move_cursor(&mut self, key: Key)
        ensures
            final(self).spec_cursor() == moved(old(self).spec_document(), old(self).spec_cursor(), key),
            final(self).spec_quit() == old(self).spec_quit(),
            final(self).spec_offset() == old(self).spec_offset(),
            final(self).spec_document() == old(self).spec_document(),
            final(self).spec_banner() == old(self).spec_banner(),
            final(self).inv(),
    {
        proof {
            use_type_invariant(&*self);
            self.document.lemma_fits();
            lemma_move_in_bounds(self.document@, self.cursor_position, key);
        }
        self.cursor_position = move_position(&self.document, self.cursor_position, key);
    }

    /// Moves the offset just far enough that the cursor is on screen.
    pub fn scroll(&mut self, size: Size)
        ensures
            final(self).spec_offset() == scrolled(old(self).spec_cursor(), old(self).spec_offset(), size),
            final(self).spec_quit() == old(self).spec_quit(),
            final(self).spec_cursor() == old(self).spec_cursor(),
            final(self).spec_document() == old(self).spec_document(),
            final(self).spec_banner() == old(self).spec_banner(),
            size.width > 0 && size.height > 0 ==> visible(final(self).spec_cursor(), final(self).spec_offset(), size),
    {
        proof {
            use_type_invariant(&*self);
        }
        self.offset = scroll_offset(self.cursor_position, self.offset, size);
    }

    /// Handles one key: Ctrl-p asks to quit, a movement key moves the cursor,
    /// any other key changes nothing; then the viewport follows the cursor.
    pub fn process_keypress(&mut self, key: Key, size: Size)
        ensures
            final(self).spec_quit() == (old(self).spec_quit() || is_quit_key(key)),
            final(self).spec_cursor() == (if !is_quit_key(key) && (spec_is_move_key(key) || spec_is_move_shortcut(key)) {
                moved(old(self).spec_document(), old(self).spec_cursor(), key)
            } else {
                old(self).spec_cursor()
            }),
            final(self).spec_offset() == scrolled(final(self).spec_cursor(), old(self).spec_offset(), size),
            final(self).spec_document() == old(self).spec_document(),
            final(self).spec_banner() == old(self).spec_banner(),
            final(self).inv(),
            size.width > 0 && size.height > 0 ==> visible(final(self).spec_cursor(), final(self).spec_offset(), size),
    {
        proof {
            use_type_invariant(&*self);
        }
        if key == Key::Ctrl('p') {
            self.want_quit = true;
        } else if is_move_key(key) || is_move_shortcut(key) {
            self.move_cursor(key);
        }
        self.scroll(size);
    }

    /// Row `row` cut to the columns the viewport shows.
    pub fn draw_row(&self, row: &Row, width: u16) -> (r: Vec<u8>)
        ensures
            r@ == window(
                row@,
                self.spec_offset().x as int,
                if self.spec_offset().x + width <= usize::MAX { self.spec_offset().x + width } else { usize::MAX as int },
            ),
    {
        let start = self.offset.x;
        let w = width as usize;
        let end: usize = if start <= usize::MAX - w { start + w } else { usize::MAX };
        row.render(start, end)
    }

    /// Screen line `r` of a viewport of `size`.
    fn draw_line(&self, r: usize, size: Size) -> (line: Vec<u8>)
        ensures
            line@ == screen_line(self.spec_document(), self.spec_offset(), size, self.spec_banner(), r as int),
    {
        let oy = self.offset.y;
        let n = self.document.len();
        if oy < n && r < n - oy {
            match self.document.row(r + oy) {
                Some(row) => self.draw_row(row, size.width),
                None => Vec::new(),
            }
        } else if n == 0 && r == (size.height / 3) as usize {
            welcome_msg(&self.banner, size.width as usize)
        } else {
            let mut line: Vec<u8> = Vec::new();
            line.push(PLACEHOLDER);
            assert(line@ =~= seq![PLACEHOLDER]);
            line
        }
    }

    /// The body lines of a viewport of `size`, from the top.
    pub fn draw_rows(&self, size: Size) -> (lines: Vec<Vec<u8>>)
        ensures
            lines@.len() == body_height(size),
            forall|r: int| 0 <= r < lines@.len() ==>
                #[trigger] lines@[r]@ == screen_line(self.spec_document(), self.spec_offset(), size, self.spec_banner(), r),
    {
        let count: usize = if size.height > 0 { (size.height - 1) as usize } else { 0 };
        let mut lines: Vec<Vec<u8>> = Vec::new();
        let mut r: usize = 0;
        while r < count
            invariant
                r <= count,
                count == body_height(size),
                lines@.len() == r,
                forall|i: int| 0 <= i < r ==>
                    #[trigger] lines@[i]@ == screen_line(self.spec_document(), self.spec_offset(), size, self.spec_banner(), i),
            decreases count - r,
        {
            let line = self.draw_line(r, size);
            lines.push(line);
            r = r + 1;
        }
        lines
    }

    /// The frame to draw now: the farewell once quitting, else the body lines
    /// and the cursor's place on screen.
    pub fn refresh_screen(&self, size: Size) -> (f: Frame)
        ensures
            frame_shows(f, self.spec_quit(), self.spec_document(), self.spec_cursor(), self.spec_offset(), size, self.spec_banner()),
    {
        if self.want_quit {
            Frame::Farewell
        } else {
            let lines = self.draw_rows(size);
            let c = self.cursor_position;
            let o = self.offset;
            let at = Position {
                x: if c.x >= o.x { c.x - o.x } else { 0 },
                y: if c.y >= o.y { c.y - o.y } else { 0 },
            };
            Frame::Body { lines, cursor: at }
        }
    }

    /// One turn of the session: handles `key`, then gives the frame to draw.
    pub fn run(&mut self, key: Key, size: Size) -> (f: Frame)
        ensures
            final(self).spec_quit() == (old(self).spec_quit() || is_quit_key(key)),
            final(self).spec_cursor() == (if !is_quit_key(key) && (spec_is_move_key(key) || spec_is_move_shortcut(key)) {
                moved(old(self).spec_document(), old(self).spec_cursor(), key)
            } else {
                old(self).spec_cursor()
            }),
            final(self).spec_offset() == scrolled(final(self).spec_cursor(), old(self).spec_offset(), size),
            final(self).spec_document() == old(self).spec_document(),
            final(self).spec_banner() == old(self).spec_banner(),
            final(self).inv(),
            frame_shows(f, final(self).spec_quit(), final(self).spec_document(), final(self).spec_cursor(), final(self).spec_offset(), size, final(self).spec_banner()),
    {
        self.process_keypress(key, size);
        self.refresh_screen(size)
    }
}

/// Whatever key is pressed, a cursor on a row of the document or on the line
/// past it stays within the document.
pub proof fn lemma_move_in_bounds(doc: Seq<Seq<u8>>, p: Position, k: Key)
    requires
        doc_fits(doc),
        p.y <= doc.len(),
    ensures
        in_bounds(doc, moved(doc, p, k)),
{
    let y = target_y(doc, p.y as int, k);
    if 0 <= y < doc.len() {
        assert(doc[y].len() <= usize::MAX);
    }
}

} // verus!

verus! {

/// Moves toward an edge the cursor already stands on change nothing: Up or
/// Left at the top left corner, Down on the line past the last row, Right at
/// the end of a row.
pub proof fn lemma_moves_at_edges(doc: Seq<Seq<u8>>, p: Position, k: Key)
    requires
        doc_fits(doc),
        in_bounds(doc, p),
    ensures
        p.x == 0 && p.y == 0 && (is_up(k) || is_left(k)) ==> moved(doc, p, k) == p,
        p.y == doc.len() && is_down(k) ==> moved(doc, p, k) == p,
        p.x == row_length(doc, p.y as int) && is_right(k) ==> moved(doc, p, k) == p,
{
}

/// Scrolling a second time, with the cursor where it was, leaves the offset
/// where the first scroll put it.
pub proof fn lemma_scroll_idempotent(cursor: Position, offset: Position, size: Size)
    requires
        size.width > 0,
        size.height > 0,
    ensures
        scrolled(cursor, scrolled(cursor, offset, size), size) == scrolled(cursor, offset, size),
{
}

/// Scrolling moves the window only toward the cursor: not at all while the
/// cursor is on screen, back to the cursor's own line or column when it lies
/// before the window, and, on a viewport of some size, never past the cursor
/// when it lies after it.
pub proof fn lemma_scroll_moves_toward_cursor(cursor: Position, offset: Position, size: Size)
    ensures
        visible(cursor, offset, size) ==> scrolled(cursor, offset, size) == offset,
        cursor.y < offset.y ==> scrolled(cursor, offset, size).y == cursor.y,
        cursor.x < offset.x ==> scrolled(cursor, offset, size).x == cursor.x,
        size.height > 0 && cursor.y >= offset.y ==> offset.y <= scrolled(cursor, offset, size).y <= cursor.y,
        size.width > 0 && cursor.x >= offset.x ==> offset.x <= scrolled(cursor, offset, size).x <= cursor.x,
{
}

/// Wherever the cursor has been moved, scrolling puts it on screen: its
/// distance from the new offset is under the width and under the height.
pub proof fn lemma_scroll_shows_cursor(cursor: Position, offset: Position, size: Size)
    requires
        size.width > 0,
        size.height > 0,
    ensures
        visible(cursor, scrolled(cursor, offset, size), size),
{
}

} // verus!
