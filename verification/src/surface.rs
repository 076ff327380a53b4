//! The render surface: an addressable character grid, and the three
//! per-screen renderers that draw into it.
//!
//! Renderers overwrite only the cells they touch; nothing clears the grid
//! between frames, so switching screens leaves previously drawn cells
//! behind. That is observable behavior of the system and is kept, not
//! fixed.

use vstd::prelude::*;
use vstd::string::StrSliceExecFns;
use crate::entity::{chair_glyph, face_glyph, Hacker};

verus! {

/// A render failure: an entity's glyphs fall outside the surface. The
/// payload is the index of the first offending entity, for a clear
/// fail-fast diagnostic.
#[derive(Clone, Copy, Debug, PartialEq, Eq, Structural)]
pub enum SurfaceError {
    OutOfBounds(usize),
}

/// An addressable character grid of `width` columns by `height` rows,
/// stored row-major. Its view is the flat sequence of cells.
pub struct Grid {
    width: u16,
    height: u16,
    cells: Vec<char>,
}

impl View for Grid {
    type V = Seq<char>;

    closed spec fn view(&self) -> Seq<char> {
        self.cells@
    }
}

/// The cells of `cells` from slot `row * width + col` on overwritten with
/// `text`, one cell per character, left to right.
pub open spec fn write_seq(
    cells: Seq<char>,
    width: int,
    col: int,
    row: int,
    text: Seq<char>,
) -> Seq<char>
    decreases text.len(),
{
    if text.len() == 0 {
        cells
    } else {
        write_seq(cells, width, col, row, text.drop_last()).update(
            row * width + col + text.len() - 1,
            text.last(),
        )
    }
}

/// `text` clipped to what fits on row `row` starting at column `col`:
/// nothing when the start is off the surface, otherwise at most the
/// remaining width of the row.
pub open spec fn clip(text: Seq<char>, width: int, height: int, col: int, row: int) -> Seq<char> {
    if 0 <= col < width && 0 <= row < height {
        if text.len() <= width - col {
            text
        } else {
            text.take(width - col)
        }
    } else {
        Seq::empty()
    }
}

/// One line of text written at (col, row), clipped at the surface edge.
pub open spec fn write_clipped(
    cells: Seq<char>,
    width: int,
    height: int,
    col: int,
    row: int,
    text: Seq<char>,
) -> Seq<char> {
    write_seq(cells, width, col, row, clip(text, width, height, col, row))
}

/// Whether both of an entity's glyphs — the face at its position and the
/// chair one row below — lie on a surface of the given size.
pub open spec fn hacker_fits(h: Hacker, width: u16, height: u16) -> bool {
    h.position.0 < width && h.position.1 + 1 < height
}

/// One entity drawn: its face glyph at its position, its chair glyph one
/// row below.
pub open spec fn render_hacker(cells: Seq<char>, width: int, h: Hacker) -> Seq<char> {
    cells.update(h.position.1 as int * width + h.position.0 as int, face_glyph(h.mood)).update(
        (h.position.1 as int + 1) * width + h.position.0 as int,
        chair_glyph(h.sit_state),
    )
}

/// Every entity drawn in world order: later entities draw on top of
/// earlier ones, which fixes the layering when positions overlap.
pub open spec fn render_hackers_seq(cells: Seq<char>, width: int, hackers: Seq<Hacker>) -> Seq<char>
    decreases hackers.len(),
{
    if hackers.len() == 0 {
        cells
    } else {
        render_hacker(render_hackers_seq(cells, width, hackers.drop_last()), width, hackers.last())
    }
}

/// The area of any grid-sized rectangle fits comfortably in a machine
/// word.
proof fn lemma_area_fits(width: u16, height: u16)
    ensures
        width as int * height as int >= 0,
        (width as int * height as int) < 4294967296,
{
    vstd::arithmetic::mul::lemma_mul_nonnegative(width as int, height as int);
    vstd::arithmetic::mul::lemma_mul_upper_bound(width as int, 0xFFFF, height as int, 0xFFFF);
}

/// A row-major slot computed from on-surface coordinates lies inside the
/// cell vector.
proof fn lemma_slot_in_range(width: u16, height: u16, col: u16, row: u16)
    requires
        col < width,
        row < height,
    ensures
        0 <= row as int * width as int + col as int,
        (row as int * width as int + col as int) < width as int * height as int,
{
    vstd::arithmetic::mul::lemma_mul_nonnegative(row as int, width as int);
    vstd::arithmetic::mul::lemma_mul_inequality(row as int, height as int - 1, width as int);
    vstd::arithmetic::mul::lemma_mul_is_distributive_sub_other_way(
        width as int,
        height as int,
        1,
    );
    vstd::arithmetic::mul::lemma_mul_is_commutative(width as int, height as int);
}

impl Grid {
    /// A grid is well formed when it holds exactly one cell per coordinate.
    pub open spec fn wf(&self) -> bool {
        self@.len() == self.spec_width() as nat * self.spec_height() as nat
    }

    pub closed spec fn spec_width(&self) -> u16 {
        self.width
    }

    pub closed spec fn spec_height(&self) -> u16 {
        self.height
    }

    pub open spec fn in_bounds(&self, col: u16, row: u16) -> bool {
        col < self.spec_width() && row < self.spec_height()
    }

    /// The glyph shown at (col, row).
    pub open spec fn cell_at(&self, col: u16, row: u16) -> char
        recommends
            self.in_bounds(col, row),
    {
        self@[row as int * self.spec_width() as int + col as int]
    }

    /// A fresh surface of the given size, every cell blank.
    pub fn new(width: u16, height: u16) -> (g: Grid)
        ensures
            g.wf(),
            g.spec_width() == width,
            g.spec_height() == height,
            forall|i: int| 0 <= i < g@.len() ==> g@[i] == ' ',
    {
        proof {
            lemma_area_fits(width, height);
        }
        let n: usize = (width as usize) * (height as usize);
        let mut cells: Vec<char> = Vec::new();
        let mut i: usize = 0;
        while i < n
            invariant
                i <= n,
                cells@.len() == i,
                forall|j: int| 0 <= j < i ==> cells@[j] == ' ',
            decreases n - i,
        {
            cells.push(' ');
            i += 1;
        }
        Grid { width, height, cells }
    }

    pub fn width(&self) -> (w: u16)
        ensures
            w == self.spec_width(),
    {
        self.width
    }

    pub fn height(&self) -> (h: u16)
        ensures
            h == self.spec_height(),
    {
        self.height
    }

    /// Reads the glyph at (col, row); the coordinates must be on the
    /// surface.
    pub fn get_cell(&self, col: u16, row: u16) -> (c: char)
        requires
            self.wf(),
            self.in_bounds(col, row),
        ensures
            c == self.cell_at(col, row),
    {
        proof {
            lemma_slot_in_range(self.spec_width(), self.spec_height(), col, row);
            lemma_area_fits(self.spec_width(), self.spec_height());
        }
        self.cells[(row as usize) * (self.width as usize) + (col as usize)]
    }

    /// Sets the glyph at (col, row); the coordinates must be on the
    /// surface.
    pub fn set_cell(&mut self, col: u16, row: u16, c: char)
        requires
            old(self).wf(),
            old(self).in_bounds(col, row),
        ensures
            final(self).wf(),
            final(self).spec_width() == old(self).spec_width(),
            final(self).spec_height() == old(self).spec_height(),
            final(self)@ == old(self)@.update(
                row as int * old(self).spec_width() as int + col as int,
                c,
            ),
    {
        proof {
            lemma_slot_in_range(self.spec_width(), self.spec_height(), col, row);
            lemma_area_fits(self.spec_width(), self.spec_height());
        }
        let idx: usize = (row as usize) * (self.width as usize) + (col as usize);
        self.cells[idx] = c;
    }

    /// Writes `text` left to right starting at (col, row), clipping at
    /// the right edge and writing nothing when the start is off the
    /// surface. Text never fails to render; it is cut, as the physical
    /// display does.
    pub fn write_text(&mut self, col: u16, row: u16, text: &str)
        requires
            old(self).wf(),
        ensures
            final(self).wf(),
            final(self).spec_width() == old(self).spec_width(),
            final(self).spec_height() == old(self).spec_height(),
            final(self)@ == write_clipped(
                old(self)@,
                old(self).spec_width() as int,
                old(self).spec_height() as int,
                col as int,
                row as int,
                text@,
            ),
    {
        let ghost g0 = *self;
        let ghost w = self.spec_width() as int;
        let ghost h = self.spec_height() as int;
        if !(col < self.width && row < self.height) {
            proof {
                assert(clip(text@, w, h, col as int, row as int) =~= Seq::<char>::empty());
            }
            return ;
        }
        let len = text.unicode_len();
        let avail = (self.width - col) as usize;
        let n = if len < avail {
            len
        } else {
            avail
        };
        proof {
            assert(clip(text@, w, h, col as int, row as int) =~= text@.take(n as int));
        }
        let mut i: usize = 0;
        while i < n
            invariant
                i <= n,
                n <= avail,
                n <= text@.len(),
                avail == g0.spec_width() - col,
                row < g0.spec_height(),
                self.wf(),
                self.spec_width() == g0.spec_width(),
                self.spec_height() == g0.spec_height(),
                self@ == write_seq(g0@, w, col as int, row as int, text@.take(i as int)),
                g0.wf(),
                w == g0.spec_width() as int,
                h == g0.spec_height() as int,
            decreases n - i,
        {
            let c = text.get_char(i);
            self.set_cell(col + (i as u16), row, c);
            proof {
                assert(text@.take(i as int + 1).drop_last() =~= text@.take(i as int));
            }
            i += 1;
        }
        proof {
            assert(final(self)@ == write_clipped(g0@, w, h, col as int, row as int, text@));
        }
    }

    /// Draws every entity in world order: the face glyph at the entity's
    /// position, the chair glyph one row below. When some entity does not
    /// fit on the surface, nothing is drawn and the index of the first
    /// offender comes back as the error.
    pub fn render_tables(&mut self, hackers: &Vec<Hacker>) -> (r: Result<(), SurfaceError>)
        requires
            old(self).wf(),
        ensures
            final(self).wf(),
            final(self).spec_width() == old(self).spec_width(),
            final(self).spec_height() == old(self).spec_height(),
            r is Ok <==> (forall|k: int|
                0 <= k < hackers@.len() ==> hacker_fits(
                    hackers@[k],
                    old(self).spec_width(),
                    old(self).spec_height(),
                )),
            r is Ok ==> final(self)@ == render_hackers_seq(
                old(self)@,
                old(self).spec_width() as int,
                hackers@,
            ),
            r matches Err(SurfaceError::OutOfBounds(j)) ==> j < hackers@.len() && !hacker_fits(
                hackers@[j as int],
                old(self).spec_width(),
                old(self).spec_height(),
            ) && (forall|k: int|
                0 <= k < j ==> hacker_fits(
                    hackers@[k],
                    old(self).spec_width(),
                    old(self).spec_height(),
                )) && final(self)@ == old(self)@,
    {
        let ghost g0 = *self;
        let w = self.width;
        let h = self.height;
        let mut i: usize = 0;
        while i < hackers.len()
            invariant
                i <= hackers@.len(),
                g0 == *old(self),
                g0.wf(),
                w == g0.spec_width(),
                h == g0.spec_height(),
                *self == g0,
                forall|k: int| 0 <= k < i ==> hacker_fits(hackers@[k], w, h),
            decreases hackers@.len() - i,
        {
            let hx = hackers[i];
            if !((hx.position.0 as usize) < (w as usize) && (hx.position.1 as usize) + 1 < (
            h as usize)) {
                return Err(SurfaceError::OutOfBounds(i));
            }
            i += 1;
        }
        let mut i: usize = 0;
        while i < hackers.len()
            invariant
                i <= hackers@.len(),
                g0 == *old(self),
                g0.wf(),
                w == g0.spec_width(),
                h == g0.spec_height(),
                self.wf(),
                self.spec_width() == w,
                self.spec_height() == h,
                forall|k: int| 0 <= k < hackers@.len() ==> hacker_fits(hackers@[k], w, h),
                self@ == render_hackers_seq(g0@, w as int, hackers@.take(i as int)),
            decreases hackers@.len() - i,
        {
            let hx = hackers[i];
            self.set_cell(hx.position.0, hx.position.1, hx.face());
            self.set_cell(hx.position.0, hx.position.1 + 1, hx.chair());
            proof {
                assert(hackers@.take(i as int + 1).drop_last() =~= hackers@.take(i as int));
            }
            i += 1;
        }
        proof {
            assert(hackers@.take(hackers@.len() as int) =~= hackers@);
        }
        Ok(())
    }

    /// Draws the splash banner, line by line, anchored at the top left;
    /// each line clips at the surface edge.
    pub fn render_splash(&mut self)
        requires
            old(self).wf(),
        ensures
            final(self).wf(),
            final(self).spec_width() == old(self).spec_width(),
            final(self).spec_height() == old(self).spec_height(),
            final(self)@ == splash_rendered(
                old(self)@,
                old(self).spec_width() as int,
                old(self).spec_height() as int,
            ),
    {
        let ghost g0 = *self;
        let ghost w = self.spec_width() as int;
        let ghost h = self.spec_height() as int;
        let mut row: u16 = 0;
        while row < SPLASH_LINE_COUNT
            invariant
                row <= SPLASH_LINE_COUNT,
                g0 == *old(self),
                g0.wf(),
                w == g0.spec_width() as int,
                h == g0.spec_height() as int,
                self.wf(),
                self.spec_width() == g0.spec_width(),
                self.spec_height() == g0.spec_height(),
                self@ == render_lines(g0@, w, h, row as int),
            decreases SPLASH_LINE_COUNT - row,
        {
            let line = splash_line(row);
            self.write_text(0, row, line);
            row += 1;
        }
    }

    /// Draws the planning screen: its single line of instructional text
    /// at the top left, clipped at the surface edge.
    pub fn render_planning(&mut self)
        requires
            old(self).wf(),
        ensures
            final(self).wf(),
            final(self).spec_width() == old(self).spec_width(),
            final(self).spec_height() == old(self).spec_height(),
            final(self)@ == planning_rendered(
                old(self)@,
                old(self).spec_width() as int,
                old(self).spec_height() as int,
            ),
    {
        self.write_text(0, 0, "Press [esc] when you're done");
    }
}

/// How many lines the splash banner has.
pub const SPLASH_LINE_COUNT: u16 = 15;

/// The splash banner, one line per index; every index past the banner is
/// blank.
pub open spec fn splash_line_view(i: int) -> Seq<char> {
    if i == 1 {
        " _   _            _         _   _"@
    } else if i == 2 {
        "| | | |          | |       | | | |"@
    } else if i == 3 {
        "| |_| | __ _  ___| | ____ _| |_| |__   ___  _ __"@
    } else if i == 4 {
        "|  _  |/ _` |/ __| |/ / _` | __| '_ \\ / _ \\| '_ \\"@
    } else if i == 5 {
        "| | | | (_| | (__|   < (_| | |_| | | | (_) | | | |"@
    } else if i == 6 {
        "\\_| |_/\\__,_|\\___|_|\\_\\__,_|\\__|_| |_|\\___/|_| |_|"@
    } else if i == 7 {
        "             _____         _ _"@
    } else if i == 8 {
        "            |_   _|       (_) |"@
    } else if i == 9 {
        "              | |_ __ __ _ _| |"@
    } else if i == 10 {
        "              | | '__/ _` | | |"@
    } else if i == 11 {
        "              | | | | (_| | | |"@
    } else if i == 12 {
        "              \\_/_|  \\__,_|_|_|"@
    } else if i == 14 {
        "          Press [spacebar] to start"@
    } else {
        ""@
    }
}

/// One line of the splash banner as displayable text.
pub fn splash_line(i: u16) -> (r: &'static str)
    requires
        i < SPLASH_LINE_COUNT,
    ensures
        r@ == splash_line_view(i as int),
{
    match i {
        1 => " _   _            _         _   _",
        2 => "| | | |          | |       | | | |",
        3 => "| |_| | __ _  ___| | ____ _| |_| |__   ___  _ __",
        4 => "|  _  |/ _` |/ __| |/ / _` | __| '_ \\ / _ \\| '_ \\",
        5 => "| | | | (_| | (__|   < (_| | |_| | | | (_) | | | |",
        6 => "\\_| |_/\\__,_|\\___|_|\\_\\__,_|\\__|_| |_|\\___/|_| |_|",
        7 => "             _____         _ _",
        8 => "            |_   _|       (_) |",
        9 => "              | |_ __ __ _ _| |",
        10 => "              | | '__/ _` | | |",
        11 => "              | | | | (_| | | |",
        12 => "              \\_/_|  \\__,_|_|_|",
        14 => "          Press [spacebar] to start",
        _ => "",
    }
}

/// The first `n` lines of the splash banner written onto the surface,
/// each at column 0 of its own row, clipped at the edges.
pub open spec fn render_lines(cells: Seq<char>, width: int, height: int, n: int) -> Seq<char>
    decreases n,
{
    if n <= 0 {
        cells
    } else {
        write_clipped(
            render_lines(cells, width, height, n - 1),
            width,
            height,
            0,
            n - 1,
            splash_line_view(n - 1),
        )
    }
}

/// The whole splash banner written onto the surface.
pub open spec fn splash_rendered(cells: Seq<char>, width: int, height: int) -> Seq<char> {
    render_lines(cells, width, height, SPLASH_LINE_COUNT as int)
}

/// The planning screen's one line of instructional text.
pub open spec fn planning_text() -> Seq<char> {
    "Press [esc] when you're done"@
}

/// The planning text written onto the surface.
pub open spec fn planning_rendered(cells: Seq<char>, width: int, height: int) -> Seq<char> {
    write_clipped(cells, width, height, 0, 0, planning_text())
}

} // verus!
