//! Text-console driver: a fixed 25x80 grid of character cells presented as a
//! line-oriented, colour-attributed sink with automatic wrap and scroll.
//!
//! The grid here is the driver's own state; the unverified shell mirrors
//! every cell to the memory-mapped hardware buffer.
use vstd::prelude::*;
use vstd::string::StringSliceAdditionalSpecFns;

verus! {

/// Number of rows of the console grid.
pub const BUF_HEIGHT: usize = 25;

/// Number of columns of the console grid.
pub const BUF_WIDTH: usize = 80;

/// The sixteen hardware text-mode colours.
#[allow(dead_code)]
#[derive(Debug, Copy, Clone, PartialEq, Eq, Structural)]
pub enum Colour {
    Black,
    Blue,
    Green,
    Cyan,
    Red,
    Magenta,
    Brown,
    LightGray,
    DarkGray,
    LightBlue,
    LightGreen,
    LightCyan,
    LightRed,
    Pink,
    Yellow,
    White,
}

impl Colour {
    /// Hardware code of the colour, in `[0, 15]`.
    pub open spec fn spec_code(self) -> u8 {
        match self {
            Colour::Black => 0,
            Colour::Blue => 1,
            Colour::Green => 2,
            Colour::Cyan => 3,
            Colour::Red => 4,
            Colour::Magenta => 5,
            Colour::Brown => 6,
            Colour::LightGray => 7,
            Colour::DarkGray => 8,
            Colour::LightBlue => 9,
            Colour::LightGreen => 10,
            Colour::LightCyan => 11,
            Colour::LightRed => 12,
            Colour::Pink => 13,
            Colour::Yellow => 14,
            Colour::White => 15,
        }
    }

    /// Hardware code of the colour.
    pub fn code(self) -> (c: u8)
        ensures
            c == self.spec_code(),
            c <= 15,
    {
        match self {
            Colour::Black => 0,
            Colour::Blue => 1,
            Colour::Green => 2,
            Colour::Cyan => 3,
            Colour::Red => 4,
            Colour::Magenta => 5,
            Colour::Brown => 6,
            Colour::LightGray => 7,
            Colour::DarkGray => 8,
            Colour::LightBlue => 9,
            Colour::LightGreen => 10,
            Colour::LightCyan => 11,
            Colour::LightRed => 12,
            Colour::Pink => 13,
            Colour::Yellow => 14,
            Colour::White => 15,
        }
    }
}

/// Full colour attribute of a cell: background in the high half of the byte,
/// foreground in the low half.
#[derive(Debug, Copy, Clone, PartialEq, Eq, Structural)]
pub struct ColourCode(u8);

impl ColourCode {
    /// The packed attribute byte.
    pub closed spec fn spec_code(self) -> u8 {
        self.0
    }

    /// Packs a foreground and a background colour into one attribute byte.
    pub fn new(fg: Colour, bg: Colour) -> (cc: ColourCode)
        ensures
            cc.spec_code() == bg.spec_code() * 16 + fg.spec_code(),
    {
        ColourCode(bg.code() * 16 + fg.code())
    }

    /// The packed attribute byte.
    pub fn code(self) -> (c: u8)
        ensures
            c == self.spec_code(),
    {
        self.0
    }
}

/// One cell of the console grid: a character code and its colour attribute.
#[derive(Debug, Copy, Clone, PartialEq, Eq, Structural)]
pub struct ScreenChar {
    pub ascii_char: u8,
    pub colour_code: ColourCode,
}

/// Total number of cells of the grid, row-major.
pub const BUF_CELLS: usize = BUF_HEIGHT * BUF_WIDTH;

/// Position of cell `(row, col)` in the row-major grid.
pub open spec fn cell_index(row: int, col: int) -> int {
    row * BUF_WIDTH + col
}

/// A blank cell: a space character in the given colour.
pub open spec fn blank_cell(colour: ColourCode) -> ScreenChar {
    ScreenChar { ascii_char: 0x20, colour_code: colour }
}

/// A grid of nothing but blank cells.
pub open spec fn blank_grid(colour: ColourCode) -> Seq<ScreenChar> {
    Seq::new(BUF_CELLS as nat, |i: int| blank_cell(colour))
}

/// The grid after one scroll: every row moves up by one, and the bottom row
/// becomes blank in the given colour. The top row is permanently discarded.
pub open spec fn scrolled_grid(g: Seq<ScreenChar>, colour: ColourCode) -> Seq<ScreenChar> {
    Seq::new(
        BUF_CELLS as nat,
        |i: int|
            if i < cell_index(BUF_HEIGHT - 1, 0) {
                g[i + BUF_WIDTH]
            } else {
                blank_cell(colour)
            },
    )
}

/// Mathematical state of a console writer: the grid contents, the cursor
/// column within the bottom row, and the current colour attribute.
pub ghost struct WriterModel {
    pub grid: Seq<ScreenChar>,
    pub column: int,
    pub colour: ColourCode,
}

impl WriterModel {
    /// Well-formedness: the grid has exactly one cell per position, and the
    /// cursor never moves past the end of a row. (The column equals
    /// `BUF_WIDTH` only transiently, after a row has just been filled; the
    /// next written byte scrolls first.)
    pub open spec fn wf(self) -> bool {
        &&& self.grid.len() == BUF_CELLS
        &&& 0 <= self.column <= BUF_WIDTH
    }
}

/// State change of a scroll: the grid rows move up, the bottom row is
/// cleared, and the cursor returns to column zero.
pub open spec fn spec_new_line(m: WriterModel) -> WriterModel {
    WriterModel { grid: scrolled_grid(m.grid, m.colour), column: 0, colour: m.colour }
}

/// State change of writing one byte. A newline only scrolls. Any other byte
/// scrolls first if the row is already full, then lands at the cursor in the
/// bottom row and advances the cursor by one.
pub open spec fn spec_write_byte(m: WriterModel, byte: u8) -> WriterModel {
    if byte == 0x0a {
        spec_new_line(m)
    } else {
        let at = if m.column >= BUF_WIDTH {
            spec_new_line(m)
        } else {
            m
        };
        WriterModel {
            grid: at.grid.update(
                cell_index(BUF_HEIGHT - 1, at.column),
                ScreenChar { ascii_char: byte, colour_code: at.colour },
            ),
            column: at.column + 1,
            colour: at.colour,
        }
    }
}

/// A byte the console can render: printable ASCII or newline.
pub open spec fn renderable_byte(b: u8) -> bool {
    (0x20 <= b && b <= 0x7e) || b == 0x0a
}

/// The fixed replacement code stored for bytes the console cannot render.
pub const SUBSTITUTE_CHAR: u8 = 0xfe;

/// What is forwarded to the cell for an input byte: the byte itself when
/// renderable, the fixed substitute otherwise.
pub open spec fn substitute_byte(b: u8) -> u8 {
    if renderable_byte(b) {
        b
    } else {
        SUBSTITUTE_CHAR
    }
}

/// State change of writing a whole byte sequence, front to back, each byte
/// substituted when it is not renderable.
pub open spec fn spec_write_string(m: WriterModel, s: Seq<u8>) -> WriterModel
    decreases s.len(),
{
    if s.len() == 0 {
        m
    } else {
        spec_write_string(spec_write_byte(m, substitute_byte(s[0])), s.drop_first())
    }
}

/// Whether writing this byte scrolls: it is a newline, or the row is already
/// full. A scroll happens under no other condition.
pub open spec fn byte_scrolls(m: WriterModel, b: u8) -> bool {
    b == 0x0a || m.column >= BUF_WIDTH
}

/// Number of scrolls performed while writing `s`: one exactly for each byte
/// that is a newline or that arrives at a full row, never otherwise.
pub open spec fn spec_scroll_count(m: WriterModel, s: Seq<u8>) -> nat
    decreases s.len(),
{
    if s.len() == 0 {
        0
    } else {
        (if byte_scrolls(m, substitute_byte(s[0])) {
            1nat
        } else {
            0nat
        }) + spec_scroll_count(spec_write_byte(m, substitute_byte(s[0])), s.drop_first())
    }
}

/// Law: one byte scrolls exactly when it is a newline or the row is full.
/// Then every row above the bottom moves up by exactly one and the cursor
/// restarts at column zero (advancing past the landed cell unless the byte
/// was a newline); otherwise no cell above the bottom row changes.
pub proof fn lemma_byte_scrolls_exactly_when(m: WriterModel, b: u8)
    requires
        m.wf(),
    ensures
        ({
            let m2 = spec_write_byte(m, b);
            &&& !byte_scrolls(m, b) ==> m2.column == m.column + 1 && (forall|i: int|
                0 <= i < cell_index(BUF_HEIGHT - 1, 0) ==> #[trigger] m2.grid[i] == m.grid[i])
            &&& byte_scrolls(m, b) ==> m2.column == (if b == 0x0a {
                0int
            } else {
                1int
            }) && (forall|i: int|
                0 <= i < cell_index(BUF_HEIGHT - 1, 0) ==> #[trigger] m2.grid[i] == m.grid[i
                    + BUF_WIDTH])
        }),
{
}

/// Appending one byte to a written sequence is writing the sequence and then
/// that byte.
proof fn lemma_write_string_push(m: WriterModel, s: Seq<u8>, b: u8)
    ensures
        spec_write_string(m, s.push(b)) == spec_write_byte(
            spec_write_string(m, s),
            substitute_byte(b),
        ),
    decreases s.len(),
{
    if s.len() == 0 {
        assert(s.push(b)[0] == b);
        assert(s.push(b).drop_first() =~= Seq::<u8>::empty());
        assert(spec_write_string(m, s.push(b)) == spec_write_string(
            spec_write_byte(m, substitute_byte(b)),
            Seq::<u8>::empty(),
        ));
        assert(spec_write_string(spec_write_byte(m, substitute_byte(b)), Seq::<u8>::empty())
            == spec_write_byte(m, substitute_byte(b)));
        assert(spec_write_string(m, s) == m);
    } else {
        assert(s.push(b)[0] == s[0]);
        assert(s.push(b).drop_first() =~= s.drop_first().push(b));
        assert(spec_write_string(m, s.push(b)) == spec_write_string(
            spec_write_byte(m, substitute_byte(s[0])),
            s.drop_first().push(b),
        ));
        lemma_write_string_push(spec_write_byte(m, substitute_byte(s[0])), s.drop_first(), b);
        assert(spec_write_string(m, s) == spec_write_string(
            spec_write_byte(m, substitute_byte(s[0])),
            s.drop_first(),
        ));
    }
}

/// Law: writing one byte keeps the cursor inside the row bound (and the
/// grid its fixed size).
pub proof fn lemma_write_byte_wf(m: WriterModel, b: u8)
    requires
        m.wf(),
    ensures
        spec_write_byte(m, b).wf(),
{
}

/// Law: no sequence of writes ever moves the cursor outside the row bound —
/// the console invariant holds in every reachable state.
pub proof fn lemma_write_string_wf(m: WriterModel, s: Seq<u8>)
    requires
        m.wf(),
    ensures
        spec_write_string(m, s).wf(),
    decreases s.len(),
{
    if s.len() > 0 {
        lemma_write_byte_wf(m, substitute_byte(s[0]));
        lemma_write_string_wf(spec_write_byte(m, substitute_byte(s[0])), s.drop_first());
    }
}

/// Law: writing a renderable, non-newline byte reproduces it exactly in the
/// bottom-row cell it lands in — at the cursor, or at column zero after the
/// wrap when the row was already full — and advances the cursor past it.
pub proof fn lemma_renderable_byte_reproduced(m: WriterModel, b: u8)
    requires
        m.wf(),
        0x20 <= b <= 0x7e,
    ensures
        ({
            let landed = if m.column >= BUF_WIDTH {
                0int
            } else {
                m.column
            };
            let m2 = spec_write_string(m, seq![b]);
            &&& m2.grid[cell_index(BUF_HEIGHT - 1, landed)] == (ScreenChar {
                ascii_char: b,
                colour_code: m.colour,
            })
            &&& m2.column == landed + 1
        }),
{
    let m1 = spec_write_byte(m, b);
    assert(seq![b][0] == b);
    assert(substitute_byte(b) == b);
    assert(seq![b].drop_first() =~= Seq::<u8>::empty());
    assert(spec_write_string(m, seq![b]) == spec_write_string(m1, Seq::<u8>::empty()));
    assert(spec_write_string(m1, Seq::<u8>::empty()) == m1);
}

/// Law: writing a byte outside the renderable set stores the fixed
/// substitute code in the cell written.
pub proof fn lemma_unrenderable_byte_substituted(m: WriterModel, b: u8)
    requires
        m.wf(),
        !renderable_byte(b),
    ensures
        ({
            let landed = if m.column >= BUF_WIDTH {
                0int
            } else {
                m.column
            };
            let m2 = spec_write_string(m, seq![b]);
            &&& m2.grid[cell_index(BUF_HEIGHT - 1, landed)] == (ScreenChar {
                ascii_char: SUBSTITUTE_CHAR,
                colour_code: m.colour,
            })
            &&& m2.column == landed + 1
        }),
{
    let m1 = spec_write_byte(m, SUBSTITUTE_CHAR);
    assert(seq![b][0] == b);
    assert(substitute_byte(b) == SUBSTITUTE_CHAR);
    assert(seq![b].drop_first() =~= Seq::<u8>::empty());
    assert(spec_write_string(m, seq![b]) == spec_write_string(m1, Seq::<u8>::empty()));
    assert(spec_write_string(m1, Seq::<u8>::empty()) == m1);
}

/// A character code the grid is allowed to hold: printable ASCII or the
/// fixed substitute. Newlines and other control codes are never stored.
pub open spec fn storable_char(c: u8) -> bool {
    (0x20 <= c && c <= 0x7e) || c == SUBSTITUTE_CHAR
}

/// Every cell of the grid holds a storable character code.
pub open spec fn grid_storable(g: Seq<ScreenChar>) -> bool {
    forall|i: int| 0 <= i < g.len() ==> storable_char(#[trigger] g[i].ascii_char)
}

/// Law: `write_string` keeps every cell of the grid inside the renderable
/// set, whatever bytes arrive.
pub proof fn lemma_grid_stays_storable(m: WriterModel, s: Seq<u8>)
    requires
        m.wf(),
        grid_storable(m.grid),
    ensures
        grid_storable(spec_write_string(m, s).grid),
    decreases s.len(),
{
    if s.len() > 0 {
        let b = substitute_byte(s[0]);
        let m1 = spec_write_byte(m, b);
        assert(grid_storable(scrolled_grid(m.grid, m.colour)));
        if b != 0x0a {
            assert(storable_char(b));
        }
        assert(grid_storable(m1.grid));
        lemma_write_byte_wf(m, b);
        lemma_grid_stays_storable(m1, s.drop_first());
    }
}

/// Writing `a + b` is writing `a`, then `b`.
pub proof fn lemma_write_string_concat(m: WriterModel, a: Seq<u8>, b: Seq<u8>)
    ensures
        spec_write_string(m, a + b) == spec_write_string(spec_write_string(m, a), b),
    decreases a.len(),
{
    if a.len() == 0 {
        assert(a + b =~= b);
    } else {
        assert((a + b)[0] == a[0]);
        assert((a + b).drop_first() =~= a.drop_first() + b);
        lemma_write_string_concat(spec_write_byte(m, substitute_byte(a[0])), a.drop_first(), b);
    }
}

/// Scroll counts add up over concatenation.
pub proof fn lemma_scroll_count_concat(m: WriterModel, a: Seq<u8>, b: Seq<u8>)
    ensures
        spec_scroll_count(m, a + b) == spec_scroll_count(m, a) + spec_scroll_count(
            spec_write_string(m, a),
            b,
        ),
    decreases a.len(),
{
    if a.len() == 0 {
        assert(a + b =~= b);
        assert(spec_write_string(m, a) == m);
    } else {
        assert((a + b)[0] == a[0]);
        assert((a + b).drop_first() =~= a.drop_first() + b);
        lemma_scroll_count_concat(spec_write_byte(m, substitute_byte(a[0])), a.drop_first(), b);
        assert(spec_write_string(m, a) == spec_write_string(
            spec_write_byte(m, substitute_byte(a[0])),
            a.drop_first(),
        ));
    }
}

/// Law: writing `s` scrolls `spec_scroll_count(m, s)` times and no more:
/// every row that stays far enough above the bottom row to receive no
/// written cell has moved up by exactly that many rows.
pub proof fn lemma_scroll_count_shifts_rows(m: WriterModel, s: Seq<u8>)
    requires
        m.wf(),
    ensures
        ({
            let n = spec_scroll_count(m, s) as int;
            let m2 = spec_write_string(m, s);
            forall|r: int, c: int|
                0 <= r && r + n <= BUF_HEIGHT - 2 && 0 <= c < BUF_WIDTH ==> #[trigger] m2.grid[
                    cell_index(r, c)
                ] == m.grid[cell_index(r + n, c)]
        }),
    decreases s.len(),
{
    if s.len() > 0 {
        let b = substitute_byte(s[0]);
        let m1 = spec_write_byte(m, b);
        lemma_write_byte_wf(m, b);
        lemma_byte_scrolls_exactly_when(m, b);
        lemma_scroll_count_shifts_rows(m1, s.drop_first());
        let n1 = spec_scroll_count(m1, s.drop_first()) as int;
        let n = spec_scroll_count(m, s) as int;
        let m2 = spec_write_string(m, s);
        assert(m2 == spec_write_string(m1, s.drop_first()));
        assert forall|r: int, c: int|
            0 <= r && r + n <= BUF_HEIGHT - 2 && 0 <= c < BUF_WIDTH implies #[trigger] m2.grid[
            cell_index(r, c)
        ] == m.grid[cell_index(r + n, c)] by {
            let i = cell_index(r + n1, c);
            if byte_scrolls(m, b) {
                assert(n == n1 + 1);
                assert(m2.grid[cell_index(r, c)] == m1.grid[i]);
                assert(m1.grid[i] == m.grid[i + BUF_WIDTH]);
                assert(i + BUF_WIDTH == cell_index(r + n1 + 1, c));
            } else {
                assert(n == n1);
                assert(m2.grid[cell_index(r, c)] == m1.grid[i]);
                assert(m1.grid[i] == m.grid[i]);
            }
        }
    }
}

/// Writing renderable, non-newline bytes that fit in the remainder of the
/// bottom row fills consecutive cells, scrolls nothing, and touches no other
/// cell.
pub proof fn lemma_fill_row(m: WriterModel, s: Seq<u8>)
    requires
        m.wf(),
        m.column + s.len() <= BUF_WIDTH,
        forall|j: int| 0 <= j < s.len() ==> 0x20 <= #[trigger] s[j] <= 0x7e,
    ensures
        ({
            let m2 = spec_write_string(m, s);
            &&& spec_scroll_count(m, s) == 0
            &&& m2.wf()
            &&& m2.colour == m.colour
            &&& m2.column == m.column + s.len()
            &&& forall|j: int|
                0 <= j < s.len() ==> #[trigger] m2.grid[cell_index(BUF_HEIGHT - 1, m.column + j)]
                    == (ScreenChar { ascii_char: s[j], colour_code: m.colour })
            &&& forall|i: int|
                0 <= i < BUF_CELLS && !(cell_index(BUF_HEIGHT - 1, m.column) <= i < cell_index(
                    BUF_HEIGHT - 1,
                    m.column + s.len(),
                )) ==> #[trigger] m2.grid[i] == m.grid[i]
        }),
    decreases s.len(),
{
    if s.len() > 0 {
        assert(substitute_byte(s[0]) == s[0]);
        let m1 = spec_write_byte(m, s[0]);
        let written = cell_index(BUF_HEIGHT - 1, m.column);
        assert(m1.grid == m.grid.update(
            written,
            ScreenChar { ascii_char: s[0], colour_code: m.colour },
        ));
        assert(forall|j: int|
            0 <= j < s.drop_first().len() ==> #[trigger] s.drop_first()[j] == s[j + 1]);
        lemma_fill_row(m1, s.drop_first());
        let m2 = spec_write_string(m1, s.drop_first());
        assert(spec_write_string(m, s) == m2);
        assert forall|j: int| 0 <= j < s.len() implies #[trigger] m2.grid[cell_index(
            BUF_HEIGHT - 1,
            m.column + j,
        )] == (ScreenChar { ascii_char: s[j], colour_code: m.colour }) by {
            if j == 0 {
                assert(m2.grid[written] == m1.grid[written]);
            } else {
                assert(m2.grid[cell_index(BUF_HEIGHT - 1, m1.column + (j - 1))] == (ScreenChar {
                    ascii_char: s.drop_first()[j - 1],
                    colour_code: m1.colour,
                }));
                assert(cell_index(BUF_HEIGHT - 1, m1.column + (j - 1)) == cell_index(
                    BUF_HEIGHT - 1,
                    m.column + j,
                ));
            }
        }
        assert forall|i: int|
            0 <= i < BUF_CELLS && !(cell_index(BUF_HEIGHT - 1, m.column) <= i < cell_index(
                BUF_HEIGHT - 1,
                m.column + s.len(),
            )) implies #[trigger] m2.grid[i] == m.grid[i] by {
            assert(m2.grid[i] == m1.grid[i]);
            assert(i != written);
        }
    }
}

/// Law: writing `BUF_WIDTH + k` renderable bytes (`1 <= k <= BUF_WIDTH`)
/// from column zero triggers exactly one scroll (`spec_scroll_count` is 1),
/// exactly when the cursor would pass the width: the filled row moves up one
/// row, the remaining `k` bytes land at the bottom-left, the rest of the
/// bottom row is blank, the rows above have shifted up exactly once, and the
/// cursor ends at column `k`.
pub proof fn lemma_row_overflow_scrolls_once(m: WriterModel, s: Seq<u8>)
    requires
        m.wf(),
        m.column == 0,
        BUF_WIDTH < s.len() <= 2 * BUF_WIDTH,
        forall|j: int| 0 <= j < s.len() ==> 0x20 <= #[trigger] s[j] <= 0x7e,
    ensures
        ({
            let m2 = spec_write_string(m, s);
            let k = s.len() - BUF_WIDTH;
            &&& spec_scroll_count(m, s) == 1
            &&& m2.column == k
            &&& m2.colour == m.colour
            &&& forall|c: int|
                0 <= c < BUF_WIDTH ==> #[trigger] m2.grid[cell_index(BUF_HEIGHT - 2, c)]
                    == (ScreenChar { ascii_char: s[c], colour_code: m.colour })
            &&& forall|c: int|
                0 <= c < k ==> #[trigger] m2.grid[cell_index(BUF_HEIGHT - 1, c)] == (ScreenChar {
                    ascii_char: s[BUF_WIDTH + c],
                    colour_code: m.colour,
                })
            &&& forall|c: int|
                k <= c < BUF_WIDTH ==> #[trigger] m2.grid[cell_index(BUF_HEIGHT - 1, c)]
                    == blank_cell(m.colour)
            &&& forall|r: int, c: int|
                0 <= r < BUF_HEIGHT - 2 && 0 <= c < BUF_WIDTH ==> #[trigger] m2.grid[cell_index(
                    r,
                    c,
                )] == m.grid[cell_index(r + 1, c)]
        }),
{
    let w = BUF_WIDTH as int;
    let first = s.take(w);
    let rest = s.skip(w);
    let k = s.len() - BUF_WIDTH;
    assert(s =~= first + rest);
    lemma_write_string_concat(m, first, rest);
    lemma_fill_row(m, first);
    let mfull = spec_write_string(m, first);
    assert(mfull.column == BUF_WIDTH);
    assert(rest.len() == k);
    assert(rest[0] == s[w]);
    assert(substitute_byte(rest[0]) == rest[0]);
    let m1 = spec_write_byte(mfull, rest[0]);
    assert(spec_write_string(mfull, rest) == spec_write_string(m1, rest.drop_first()));
    assert(m1.grid == scrolled_grid(mfull.grid, m.colour).update(
        cell_index(BUF_HEIGHT - 1, 0),
        ScreenChar { ascii_char: rest[0], colour_code: m.colour },
    ));
    assert(m1.column == 1);
    assert(forall|j: int|
        0 <= j < rest.drop_first().len() ==> #[trigger] rest.drop_first()[j] == s[w + j + 1]);
    lemma_fill_row(m1, rest.drop_first());
    let m2 = spec_write_string(m1, rest.drop_first());
    assert(m2.column == k);
    // Exactly one scroll: none while the row fills, one at the byte that
    // would pass the width, none for the tail.
    lemma_scroll_count_concat(m, first, rest);
    assert(byte_scrolls(mfull, substitute_byte(rest[0])));
    assert(spec_scroll_count(mfull, rest) == 1 + spec_scroll_count(m1, rest.drop_first()));
    assert(spec_scroll_count(m, s) == 1);
    // The filled row has moved up one row.
    assert forall|c: int| 0 <= c < BUF_WIDTH implies #[trigger] m2.grid[cell_index(
        BUF_HEIGHT - 2,
        c,
    )] == (ScreenChar { ascii_char: s[c], colour_code: m.colour }) by {
        let i = cell_index(BUF_HEIGHT - 2, c);
        assert(m2.grid[i] == m1.grid[i]);
        assert(m1.grid[i] == scrolled_grid(mfull.grid, m.colour)[i]);
        assert(scrolled_grid(mfull.grid, m.colour)[i] == mfull.grid[cell_index(BUF_HEIGHT - 1, c)]);
        assert(mfull.grid[cell_index(BUF_HEIGHT - 1, m.column + c)] == (ScreenChar {
            ascii_char: first[c],
            colour_code: m.colour,
        }));
        assert(cell_index(BUF_HEIGHT - 1, m.column + c) == cell_index(BUF_HEIGHT - 1, c));
        assert(first[c] == s[c]);
    }
    // The tail landed at the bottom-left.
    assert forall|c: int| 0 <= c < k implies #[trigger] m2.grid[cell_index(BUF_HEIGHT - 1, c)]
        == (ScreenChar { ascii_char: s[BUF_WIDTH + c], colour_code: m.colour }) by {
        if c == 0 {
            assert(m2.grid[cell_index(BUF_HEIGHT - 1, 0)] == m1.grid[cell_index(
                BUF_HEIGHT - 1,
                0,
            )]);
        } else {
            assert(m2.grid[cell_index(BUF_HEIGHT - 1, m1.column + (c - 1))] == (ScreenChar {
                ascii_char: rest.drop_first()[c - 1],
                colour_code: m.colour,
            }));
        }
    }
    // Past the tail, the bottom row is the blank left by the scroll.
    assert forall|c: int| k <= c < BUF_WIDTH implies #[trigger] m2.grid[cell_index(
        BUF_HEIGHT - 1,
        c,
    )] == blank_cell(m.colour) by {
        let i = cell_index(BUF_HEIGHT - 1, c);
        assert(m2.grid[i] == m1.grid[i]);
        assert(m1.grid[i] == scrolled_grid(mfull.grid, m.colour)[i]);
    }
    // Rows above the filled one have shifted up exactly once.
    assert forall|r: int, c: int|
        0 <= r < BUF_HEIGHT - 2 && 0 <= c < BUF_WIDTH implies #[trigger] m2.grid[cell_index(r, c)]
        == m.grid[cell_index(r + 1, c)] by {
        let i = cell_index(r, c);
        assert(i < cell_index(BUF_HEIGHT - 2, 0)) by (nonlinear_arith)
            requires
                0 <= r < BUF_HEIGHT - 2 && 0 <= c < BUF_WIDTH && i == cell_index(r, c),
        ;
        assert(m2.grid[i] == m1.grid[i]);
        assert(m1.grid[i] == scrolled_grid(mfull.grid, m.colour)[i]);
        assert(scrolled_grid(mfull.grid, m.colour)[i] == mfull.grid[i + BUF_WIDTH]);
        assert(i + BUF_WIDTH == cell_index(r + 1, c));
        assert(cell_index(r + 1, c) < cell_index(BUF_HEIGHT - 1, 0)) by (nonlinear_arith)
            requires
                0 <= r < BUF_HEIGHT - 2 && 0 <= c < BUF_WIDTH,
        ;
        assert(mfull.grid[i + BUF_WIDTH] == m.grid[i + BUF_WIDTH]);
    }
}

/// The console grid itself. The shell mirrors these cells to the
/// memory-mapped hardware buffer, the one place raw memory is touched.
struct Buffer {
    chars: Vec<ScreenChar>,
}

/// A writer over the console grid: tracks the cursor column in the bottom
/// row and the colour attribute applied to every cell it writes.
pub struct Writer {
    column_pos: usize,
    colour_code: ColourCode,
    buffer: Buffer,
}

impl View for Writer {
    type V = WriterModel;

    closed spec fn view(&self) -> WriterModel {
        WriterModel {
            grid: self.buffer.chars@,
            column: self.column_pos as int,
            colour: self.colour_code,
        }
    }
}

impl Writer {
    /// Well-formedness of the writer's state.
    pub open spec fn wf(self) -> bool {
        self@.wf()
    }

    /// A writer with the given colour over a cleared grid, cursor at column
    /// zero.
    pub fn new(cc: ColourCode) -> (w: Writer)
        ensures
            w.wf(),
            w@ == (WriterModel { grid: blank_grid(cc), column: 0, colour: cc }),
    {
        let mut chars: Vec<ScreenChar> = Vec::new();
        let mut i: usize = 0;
        while i < BUF_CELLS
            invariant
                i <= BUF_CELLS,
                chars@.len() == i,
                forall|j: int| 0 <= j < i ==> chars@[j] == blank_cell(cc),
            decreases BUF_CELLS - i,
        {
            chars.push(ScreenChar { ascii_char: 0x20, colour_code: cc });
            i = i + 1;
        }
        let w = Writer { column_pos: 0, colour_code: cc, buffer: Buffer { chars } };
        proof {
            assert(w@.grid =~= blank_grid(cc));
        }
        w
    }

    /// The cursor column.
    pub fn get_column_pos(self) -> (col: usize)
        ensures
            col == self@.column,
    {
        self.column_pos
    }

    /// Moves the cursor to `col` when `col` names a column of the grid;
    /// rejects any other value and changes nothing. Used to hand cursor
    /// continuity between two writers sharing the backing buffer.
    pub fn set_column_pos(&mut self, col: usize) -> (r: Result<usize, ()>)
        requires
            old(self).wf(),
        ensures
            final(self).wf(),
            col < BUF_WIDTH ==> r == Ok::<usize, ()>(col) && final(self)@ == (WriterModel {
                column: col as int,
                ..old(self)@
            }),
            col >= BUF_WIDTH ==> r == Err::<usize, ()>(()) && final(self)@ == old(self)@,
    {
        if col < BUF_WIDTH {
            self.column_pos = col;
            Ok(col)
        } else {
            Err(())
        }
    }

    /// The current colour attribute.
    pub fn colour_code(&self) -> (cc: ColourCode)
        ensures
            cc == self@.colour,
    {
        self.colour_code
    }

    /// Changes the colour attribute applied to the cells written from here
    /// on; the grid and the cursor stay as they are. With this, one writer
    /// over the one screen serves differently-coloured phases of output, and
    /// every cell already written keeps the colour it was written in.
    pub fn set_colour_code(&mut self, cc: ColourCode)
        requires
            old(self).wf(),
        ensures
            final(self).wf(),
            final(self)@ == (WriterModel { colour: cc, ..old(self)@ }),
    {
        self.colour_code = cc;
    }

    /// Writes one byte at the cursor in the bottom row: a newline scrolls; a
    /// full row scrolls before the byte lands; the cursor advances past each
    /// written cell. The byte is stored as given — substitution of
    /// non-renderable input is `write_string`'s duty.
    pub fn write_byte(&mut self, byte: u8)
        requires
            old(self).wf(),
        ensures
            final(self).wf(),
            final(self)@ == spec_write_byte(old(self)@, byte),
    {
        if byte == 0x0a {
            self.new_line();
        } else {
            if self.column_pos >= BUF_WIDTH {
                self.new_line();
            }
            let row: usize = BUF_HEIGHT - 1;
            let col: usize = self.column_pos;
            let colour_code = self.colour_code;
            self.buffer.chars[row * BUF_WIDTH + col] = ScreenChar { ascii_char: byte, colour_code };
            self.column_pos = self.column_pos + 1;
        }
    }

    /// Writes every byte of `s`, forwarding renderable bytes unchanged and
    /// substituting `SUBSTITUTE_CHAR` for the rest, so the grid never holds
    /// a code outside the renderable set.
    pub fn write_string(&mut self, s: &str)
        requires
            old(self).wf(),
        ensures
            final(self).wf(),
            final(self)@ == spec_write_string(old(self)@, s.spec_bytes()),
    {
        let bytes: &[u8] = s.as_bytes();
        let n: usize = bytes.len();
        let mut i: usize = 0;
        while i < n
            invariant
                self.wf(),
                i <= n,
                n == bytes@.len(),
                bytes@ == s.spec_bytes(),
                self@ == spec_write_string(old(self)@, bytes@.take(i as int)),
            decreases n - i,
        {
            let byte: u8 = bytes[i];
            proof {
                assert(bytes@.take(i + 1).drop_last() =~= bytes@.take(i as int));
                lemma_write_string_push(old(self)@, bytes@.take(i as int), byte);
                assert(bytes@.take(i + 1) =~= bytes@.take(i as int).push(byte));
            }
            if (0x20 <= byte && byte <= 0x7e) || byte == 0x0a {
                self.write_byte(byte);
            } else {
                self.write_byte(SUBSTITUTE_CHAR);
            }
            i = i + 1;
        }
        proof {
            assert(bytes@.take(n as int) =~= bytes@);
        }
    }

    /// Scrolls: every row `r` in `[1, BUF_HEIGHT)` moves to row `r - 1`, the
    /// bottom row becomes blank, and the cursor returns to column zero.
    fn new_line(&mut self)
        requires
            old(self).wf(),
        ensures
            final(self).wf(),
            final(self)@ == spec_new_line(old(self)@),
    {
        let mut row: usize = 1;
        while row < BUF_HEIGHT
            invariant
                old(self).wf(),
                1 <= row <= BUF_HEIGHT,
                self.buffer.chars@.len() == BUF_CELLS,
                self.column_pos == old(self).column_pos,
                self.colour_code == old(self).colour_code,
                forall|i: int|
                    0 <= i < (row - 1) * BUF_WIDTH ==> self.buffer.chars@[i] == old(
                        self,
                    ).buffer.chars@[i + BUF_WIDTH],
                forall|i: int|
                    (row - 1) * BUF_WIDTH <= i < BUF_CELLS ==> self.buffer.chars@[i] == old(
                        self,
                    ).buffer.chars@[i],
            decreases BUF_HEIGHT - row,
        {
            let mut col: usize = 0;
            while col < BUF_WIDTH
                invariant
                    old(self).wf(),
                    1 <= row < BUF_HEIGHT,
                    0 <= col <= BUF_WIDTH,
                    self.buffer.chars@.len() == BUF_CELLS,
                    self.column_pos == old(self).column_pos,
                    self.colour_code == old(self).colour_code,
                    forall|i: int|
                        0 <= i < (row - 1) * BUF_WIDTH + col ==> self.buffer.chars@[i] == old(
                            self,
                        ).buffer.chars@[i + BUF_WIDTH],
                    forall|i: int|
                        (row - 1) * BUF_WIDTH + col <= i < BUF_CELLS ==> self.buffer.chars@[i]
                            == old(self).buffer.chars@[i],
                decreases BUF_WIDTH - col,
            {
                let c: ScreenChar = self.buffer.chars[row * BUF_WIDTH + col];
                self.buffer.chars[(row - 1) * BUF_WIDTH + col] = c;
                col = col + 1;
            }
            row = row + 1;
        }
        self.clear_row(BUF_HEIGHT - 1);
        self.column_pos = 0;
        proof {
            assert(self@.grid =~= scrolled_grid(old(self)@.grid, old(self)@.colour));
        }
    }

    /// Clears row `row` to blank cells in the current colour; every other
    /// cell, the cursor and the colour stay as they were.
    fn clear_row(&mut self, row: usize)
        requires
            old(self)@.grid.len() == BUF_CELLS,
            row < BUF_HEIGHT,
        ensures
            final(self)@.grid.len() == BUF_CELLS,
            final(self)@.column == old(self)@.column,
            final(self)@.colour == old(self)@.colour,
            forall|i: int|
                cell_index(row as int, 0) <= i < cell_index(row as int + 1, 0)
                    ==> #[trigger] final(self)@.grid[i] == blank_cell(old(self)@.colour),
            forall|i: int|
                0 <= i < BUF_CELLS && !(cell_index(row as int, 0) <= i < cell_index(
                    row as int + 1,
                    0,
                )) ==> final(self)@.grid[i] == old(self)@.grid[i],
    {
        let blank = ScreenChar { ascii_char: 0x20, colour_code: self.colour_code };
        let mut col: usize = 0;
        while col < BUF_WIDTH
            invariant
                old(self)@.grid.len() == BUF_CELLS,
                row < BUF_HEIGHT,
                0 <= col <= BUF_WIDTH,
                blank == blank_cell(old(self)@.colour),
                self.buffer.chars@.len() == BUF_CELLS,
                self.column_pos == old(self).column_pos,
                self.colour_code == old(self).colour_code,
                forall|i: int|
                    cell_index(row as int, 0) <= i < cell_index(row as int, col as int)
                        ==> #[trigger] self.buffer.chars@[i] == blank,
                forall|i: int|
                    0 <= i < BUF_CELLS && !(cell_index(row as int, 0) <= i < cell_index(
                        row as int,
                        col as int,
                    )) ==> self.buffer.chars@[i] == old(self).buffer.chars@[i],
            decreases BUF_WIDTH - col,
        {
            self.buffer.chars[row * BUF_WIDTH + col] = blank;
            col = col + 1;
        }
    }

    /// The cell stored at `(row, col)`.
    pub fn cell_at(&self, row: usize, col: usize) -> (c: ScreenChar)
        requires
            self.wf(),
            row < BUF_HEIGHT,
            col < BUF_WIDTH,
        ensures
            c == self@.grid[cell_index(row as int, col as int)],
    {
        self.buffer.chars[row * BUF_WIDTH + col]
    }
}

} // verus!
