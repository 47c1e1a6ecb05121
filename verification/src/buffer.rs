//! The in-memory character/color grid: a fixed-size, row-major sequence
//! of cells, each holding one glyph and the color pair supplied at write
//! time, together with a current-color register. Writes clip at the end
//! of the row and at the edge of the grid instead of wrapping or failing.

use vstd::prelude::*;

use crate::color::ColorPair;
use crate::color::ColorPairView;
use crate::color::push_char;

verus! {

/// A grid position: column `x`, row `y`.
#[derive(Clone, Copy, Debug, PartialEq, Eq, Structural)]
pub struct Vec2 {
    /// Column index.
    pub x: usize,
    /// Row index.
    pub y: usize,
}

impl Vec2 {
    pub fn new(x: usize, y: usize) -> (r: Self)
        ensures
            r.x == x,
            r.y == y,
    {
        Vec2 { x, y }
    }
}

/// One cell of the grid: the text of a single glyph and the color pair
/// it was written with.
#[derive(Debug, PartialEq, Eq)]
pub struct TextColorPair {
    text: String,
    color: ColorPair,
}

/// The mathematical content of a cell: its glyph text and its colors.
#[verifier::ext_equal]
pub ghost struct TextColorPairView {
    pub text: Seq<char>,
    pub color: ColorPairView,
}

impl View for TextColorPair {
    type V = TextColorPairView;

    closed spec fn view(&self) -> TextColorPairView {
        TextColorPairView { text: self.text@, color: self.color@ }
    }
}

impl TextColorPair {
    pub fn new(text: String, color: ColorPair) -> (r: Self)
        ensures
            r@ == (TextColorPairView { text: text@, color: color@ }),
    {
        Self { text, color }
    }

    /// The cell's glyph text.
    pub fn text(&self) -> (r: &String)
        ensures
            r@ == self@.text,
    {
        &self.text
    }

    /// The colors the cell was written with.
    pub fn color(&self) -> (r: &ColorPair)
        ensures
            r@ == self@.color,
    {
        &self.color
    }
}

impl Clone for TextColorPair {
    fn clone(&self) -> (res: Self)
        ensures
            res == *self,
    {
        Self { text: self.text.clone(), color: self.color.clone() }
    }
}

/// A single-character string holding the given glyph.
fn char_to_string(c: char) -> (r: String)
    ensures
        r@ == seq![c],
{
    let mut s = String::new();
    push_char(&mut s, c);
    proof {
        assert(s@ =~= seq![c]);
    }
    s
}

/// The cell every slot starts out as: a space glyph in the given colors.
pub open spec fn blank_cell(color: ColorPairView) -> TextColorPairView {
    TextColorPairView { text: seq![' '], color }
}

/// Whether a write of `text_len` glyphs starting at column `x` of row
/// `y` covers the cell at index `i` of a row-major grid `width` columns
/// wide. A glyph lands only inside its own row: the segment is cut off
/// at the row's last column, so no write wraps to the next row.
pub open spec fn cell_written(width: nat, x: int, y: int, text_len: int, i: int) -> bool {
    &&& y * width + x <= i
    &&& i < y * width + x + text_len
    &&& i < y * width + width
}

/// The grid after a clipped write: covered cells hold one glyph of
/// `text` and the supplied colors; every other cell is unchanged.
pub open spec fn spec_write(
    cells: Seq<TextColorPairView>,
    width: nat,
    x: int,
    y: int,
    text: Seq<char>,
    color: ColorPairView,
) -> Seq<TextColorPairView> {
    Seq::new(
        cells.len(),
        |i: int|
            if cell_written(width, x, y, text.len() as int, i) {
                TextColorPairView { text: seq![text[i - (y * width + x)]], color }
            } else {
                cells[i]
            },
    )
}

/// The fixed-size grid with its current-color register.
pub struct ScreenBuffer {
    width: usize,
    height: usize,
    cells: Vec<TextColorPair>,
    color: ColorPair,
}

/// The mathematical content of a `ScreenBuffer`: its dimensions, the
/// cell contents in row-major order, and the current-color register.
#[verifier::ext_equal]
pub ghost struct ScreenBufferView {
    pub width: nat,
    pub height: nat,
    pub cells: Seq<TextColorPairView>,
    pub color: ColorPairView,
}

impl View for ScreenBuffer {
    type V = ScreenBufferView;

    closed spec fn view(&self) -> ScreenBufferView {
        ScreenBufferView {
            width: self.width as nat,
            height: self.height as nat,
            cells: self.cells@.map_values(|c: TextColorPair| c@),
            color: self.color@,
        }
    }
}

impl ScreenBuffer {
    /// The shape invariant: the grid always holds exactly
    /// `width * height` cells; it is never resized.
    pub open spec fn wf(&self) -> bool {
        self@.cells.len() == self@.width * self@.height
    }

    /// Builds a grid of the given dimensions, every cell blank in the
    /// given colors, which also become the initial register value.
    pub fn new(width: usize, height: usize, color: ColorPair) -> (r: Self)
        requires
            width * height <= usize::MAX,
        ensures
            r.wf(),
            r@.width == width,
            r@.height == height,
            r@.color == color@,
            forall|i: int| 0 <= i < r@.cells.len() ==> r@.cells[i] == blank_cell(color@),
    {
        let total = width * height;
        let mut cells: Vec<TextColorPair> = Vec::new();
        let mut i: usize = 0;
        while i < total
            invariant
                i <= total,
                cells@.len() == i,
                forall|j: int| 0 <= j < i ==> #[trigger] cells@[j]@ == blank_cell(color@),
            decreases total - i,
        {
            let space = char_to_string(' ');
            cells.push(TextColorPair::new(space, color.clone()));
            i += 1;
        }
        let r = ScreenBuffer { width, height, cells, color };
        proof {
            assert forall|i: int| 0 <= i < r@.cells.len() implies r@.cells[i] == blank_cell(
                color@,
            ) by {
                assert(r@.cells[i] == r.cells@[i]@);
            }
        }
        r
    }

    /// The number of columns.
    pub fn width(&self) -> (r: usize)
        ensures
            r == self@.width,
    {
        self.width
    }

    /// The number of rows.
    pub fn height(&self) -> (r: usize)
        ensures
            r == self@.height,
    {
        self.height
    }

    /// Writes the glyphs of `text` one cell at a time starting at `pos`,
    /// advancing one column per glyph within the row, every written cell
    /// taking the supplied colors. Glyphs that would land past the row's
    /// last column or outside the grid are dropped silently: the write
    /// clips, it never wraps and never fails.
    pub fn write(&mut self, pos: Vec2, text: &str, color: &ColorPair)
        requires
            old(self).wf(),
        ensures
            final(self).wf(),
            final(self)@.width == old(self)@.width,
            final(self)@.height == old(self)@.height,
            final(self)@.color == old(self)@.color,
            final(self)@.cells == spec_write(
                old(self)@.cells,
                old(self)@.width,
                pos.x as int,
                pos.y as int,
                text@,
                color@,
            ),
    {
        let text_len = text.unicode_len();
        let mut i: usize = 0;
        while i < text_len
            invariant
                i <= text_len,
                text_len == text@.len(),
                self.wf(),
                self@.width == old(self)@.width,
                self@.height == old(self)@.height,
                self@.color == old(self)@.color,
                self@.cells == spec_write(
                    old(self)@.cells,
                    old(self)@.width,
                    pos.x as int,
                    pos.y as int,
                    text@.subrange(0, i as int),
                    color@,
                ),
            decreases text_len - i,
        {
            let ghost prev = self@.cells;
            if pos.y < self.height && pos.x < self.width && i < self.width - pos.x {
                let n_cells = self.cells.len();
                proof {
                    assert(pos.y * self.width + self.width <= self.width * self.height)
                        by (nonlinear_arith)
                        requires
                            pos.y < self.height,
                    ;
                    assert(pos.y * self.width + self.width <= n_cells);
                }
                let c = text.get_char(i);
                let row = pos.y * self.width;
                let idx = row + pos.x + i;
                let glyph = char_to_string(c);
                self.cells.set(idx, TextColorPair::new(glyph, color.clone()));
                proof {
                    let wv = old(self)@.width;
                    let xx = pos.x as int;
                    let yy = pos.y as int;
                    let start = yy * wv + xx;
                    let target = spec_write(
                        old(self)@.cells,
                        wv,
                        xx,
                        yy,
                        text@.subrange(0, i + 1),
                        color@,
                    );
                    assert forall|j: int|
                        0 <= j < prev.len() implies self@.cells[j] == target[j] by {
                        assert(self@.cells[j] == self.cells@[j]@);
                        if j == idx {
                            assert(cell_written(wv, xx, yy, i + 1, j));
                            assert(text@.subrange(0, i + 1)[j - start] == text@[i as int]);
                        } else {
                            assert(self.cells@[j]@ == prev[j]);
                            if cell_written(wv, xx, yy, i as int, j) {
                                assert(cell_written(wv, xx, yy, i + 1, j));
                                assert(text@.subrange(0, i + 1)[j - start] == text@.subrange(
                                    0,
                                    i as int,
                                )[j - start]);
                            } else {
                                assert(!cell_written(wv, xx, yy, i + 1, j));
                            }
                        }
                    }
                    assert(self@.cells =~= target);
                }
            } else {
                proof {
                    if pos.y >= self.height {
                        assert(self.height * self.width <= pos.y * self.width)
                            by (nonlinear_arith)
                            requires
                                self.height <= pos.y,
                                self.width >= 0,
                        ;
                    }
                    assert(prev =~= spec_write(
                        old(self)@.cells,
                        old(self)@.width,
                        pos.x as int,
                        pos.y as int,
                        text@.subrange(0, i + 1),
                        color@,
                    ));
                }
            }
            i += 1;
        }
        proof {
            assert(text@.subrange(0, text_len as int) =~= text@);
        }
    }

    /// Writes with the current-color register, as the framework's
    /// print call does: the register's value at call time is copied
    /// into every written cell.
    pub fn write_current(&mut self, pos: Vec2, text: &str)
        requires
            old(self).wf(),
        ensures
            final(self).wf(),
            final(self)@.width == old(self)@.width,
            final(self)@.height == old(self)@.height,
            final(self)@.color == old(self)@.color,
            final(self)@.cells == spec_write(
                old(self)@.cells,
                old(self)@.width,
                pos.x as int,
                pos.y as int,
                text@,
                old(self)@.color,
            ),
    {
        let current = self.color.clone();
        self.write(pos, text, &current);
    }

    /// Replaces the current-color register and hands back the previous
    /// value, so a caller can save and restore it. The cells are
    /// untouched: a register change never reaches glyphs already
    /// written.
    pub fn set_color(&mut self, color: ColorPair) -> (prev: ColorPair)
        requires
            old(self).wf(),
        ensures
            final(self).wf(),
            final(self)@.width == old(self)@.width,
            final(self)@.height == old(self)@.height,
            final(self)@.cells == old(self)@.cells,
            final(self)@.color == color@,
            prev@ == old(self)@.color,
    {
        let prev = self.color.clone();
        self.color = color;
        prev
    }

    /// A deep, independent copy of all cells in row-major order: the
    /// synchronization boundary between backend writes and renderer
    /// reads. Mutation after the copy never reaches the copy.
    pub fn snapshot(&self) -> (r: Vec<TextColorPair>)
        ensures
            r@.map_values(|c: TextColorPair| c@) == self@.cells,
    {
        let mut out: Vec<TextColorPair> = Vec::new();
        let mut i: usize = 0;
        while i < self.cells.len()
            invariant
                i <= self.cells@.len(),
                out@.len() == i,
                forall|j: int| 0 <= j < i ==> out@[j]@ == self.cells@[j]@,
            decreases self.cells@.len() - i,
        {
            out.push(self.cells[i].clone());
            i += 1;
        }
        proof {
            assert(out@.map_values(|c: TextColorPair| c@) =~= self@.cells);
        }
        out
    }
}

/// Clipping law: a write never resizes the grid, and a cell it does not
/// cover — in particular every cell of another row and every cell past
/// the row's last column — keeps its exact previous content. Together
/// with `spec_write`'s covered case this pins the write down: only the
/// columns that fit are modified, and nothing wraps to the next row.
pub proof fn lemma_write_clips(
    cells: Seq<TextColorPairView>,
    width: nat,
    x: int,
    y: int,
    text: Seq<char>,
    color: ColorPairView,
)
    requires
        0 <= x,
    ensures
        spec_write(cells, width, x, y, text, color).len() == cells.len(),
        forall|i: int|
            0 <= i < cells.len() && !cell_written(width, x, y, text.len() as int, i)
                ==> spec_write(cells, width, x, y, text, color)[i] == cells[i],
        forall|i: int|
            0 <= i < cells.len() && !(y * width <= i < y * width + width) ==> spec_write(
                cells,
                width,
                x,
                y,
                text,
                color,
            )[i] == cells[i],
{
    assert forall|i: int|
        0 <= i < cells.len() && !(y * width <= i < y * width + width) implies spec_write(
        cells,
        width,
        x,
        y,
        text,
        color,
    )[i] == cells[i] by {
        assert(!cell_written(width, x, y, text.len() as int, i));
    }
}

/// Color isolation law: after one glyph is written with colors `c1`,
/// a later one-glyph write at any other cell — with any other colors —
/// leaves the first cell holding its glyph and `c1` exactly. A register
/// change between the writes cannot interfere at all: `set_color`
/// ensures the cells are untouched.
pub proof fn lemma_color_isolation(
    cells: Seq<TextColorPairView>,
    width: nat,
    x: int,
    y: int,
    g1: Seq<char>,
    c1: ColorPairView,
    x2: int,
    y2: int,
    g2: Seq<char>,
    c2: ColorPairView,
)
    requires
        g1.len() == 1,
        g2.len() == 1,
        0 <= x < width,
        0 <= y,
        y * width + x < cells.len(),
        y2 * width + x2 != y * width + x,
    ensures
        ({
            let after_first = spec_write(cells, width, x, y, g1, c1);
            let after_second = spec_write(after_first, width, x2, y2, g2, c2);
            after_second[y * width + x] == (TextColorPairView { text: seq![g1[0]], color: c1 })
        }),
{
    let idx = y * width + x;
    assert(cell_written(width, x, y, 1, idx));
    assert(!cell_written(width, x2, y2, 1, idx));
}

} // verus!
