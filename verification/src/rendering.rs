//! Character-grid surfaces that the simulation draws onto.
//!
//! All three surfaces are plain rectangular `char` grids with bounds-checked
//! writes; pushing the finished grids to a terminal (or a log) is left to the
//! caller, which can read the rows directly.

use vstd::prelude::*;

verus! {

/// A `height` by `width` grid of characters holds exactly that shape.
pub open spec fn grid_wf(g: Seq<Vec<char>>, width: u16, height: u16) -> bool {
    &&& g.len() == height as int
    &&& forall|i: int| 0 <= i < g.len() ==> (#[trigger] g[i])@.len() == width as int
}

/// Every cell of the grid holds the blank character.
pub open spec fn grid_blank(g: Seq<Vec<char>>) -> bool {
    forall|i: int, j: int|
        0 <= i < g.len() && 0 <= j < g[i]@.len() ==> #[trigger] g[i]@[j] == ' '
}

fn blank_row(width: u16) -> (r: Vec<char>)
    ensures
        r@.len() == width as int,
        forall|j: int| 0 <= j < width as int ==> r@[j] == ' ',
{
    let mut row: Vec<char> = Vec::new();
    let mut j: u16 = 0;
    while j < width
        invariant
            j <= width,
            row@.len() == j as int,
            forall|k: int| 0 <= k < j as int ==> row@[k] == ' ',
        decreases width - j,
    {
        row.push(' ');
        j = j + 1;
    }
    row
}

fn blank_grid(width: u16, height: u16) -> (g: Vec<Vec<char>>)
    ensures
        grid_wf(g@, width, height),
        grid_blank(g@),
{
    let mut grid: Vec<Vec<char>> = Vec::new();
    let mut i: u16 = 0;
    while i < height
        invariant
            i <= height,
            grid@.len() == i as int,
            forall|k: int| 0 <= k < i as int ==> (#[trigger] grid@[k])@.len() == width as int,
            forall|k: int, j: int|
                0 <= k < i as int && 0 <= j < width as int ==> #[trigger] grid@[k]@[j] == ' ',
        decreases height - i,
    {
        grid.push(blank_row(width));
        i = i + 1;
    }
    grid
}

/// Set one cell of a grid, ignoring writes that fall outside it.
fn grid_set_char(grid: &mut Vec<Vec<char>>, width: u16, height: u16, x: u16, y: u16, c: char)
    requires
        grid_wf(old(grid)@, width, height),
    ensures
        grid_wf(final(grid)@, width, height),
        x < width && y < height ==> final(grid)@[y as int]@ == old(grid)@[y as int]@.update(
            x as int,
            c,
        ),
        x < width && y < height ==> forall|i: int|
            0 <= i < old(grid)@.len() && i != y as int ==> final(grid)@[i] == old(grid)@[i],
        !(x < width && y < height) ==> final(grid)@ == old(grid)@,
{
    if y < height && x < width {
        grid[y as usize][x as usize] = c;
    }
}

/// An off-screen render target: a grid plus a cursor, mirroring the writes a
/// terminal would receive so that deterministic runs can capture frames.
pub struct ScreenBuffer {
    pub buffer: Vec<Vec<char>>,
    pub width: u16,
    pub height: u16,
    pub cursor_x: u16,
    pub cursor_y: u16,
}

impl ScreenBuffer {
    pub open spec fn wf(&self) -> bool {
        grid_wf(self.buffer@, self.width, self.height)
    }

    pub fn new(width: u16, height: u16) -> (sb: ScreenBuffer)
        ensures
            sb.wf(),
            sb.width == width,
            sb.height == height,
            sb.cursor_x == 0,
            sb.cursor_y == 0,
            grid_blank(sb.buffer@),
    {
        ScreenBuffer { buffer: blank_grid(width, height), width, height, cursor_x: 0, cursor_y: 0 }
    }

    pub fn move_to(&mut self, x: u16, y: u16)
        ensures
            final(self).cursor_x == x,
            final(self).cursor_y == y,
            final(self).buffer == old(self).buffer,
            final(self).width == old(self).width,
            final(self).height == old(self).height,
    {
        self.cursor_x = x;
        self.cursor_y = y;
    }

    /// Write a character at the cursor if the cursor is on the buffer; the
    /// cursor does not advance.
    pub fn write_char(&mut self, c: char)
        requires
            old(self).wf(),
        ensures
            final(self).wf(),
            final(self).width == old(self).width,
            final(self).height == old(self).height,
            final(self).cursor_x == old(self).cursor_x,
            final(self).cursor_y == old(self).cursor_y,
            old(self).cursor_x < old(self).width && old(self).cursor_y < old(self).height
                ==> final(self).buffer@[old(self).cursor_y as int]@ == old(self).buffer@[old(
                self,
            ).cursor_y as int]@.update(old(self).cursor_x as int, c),
            old(self).cursor_x < old(self).width && old(self).cursor_y < old(self).height
                ==> forall|i: int|
                    0 <= i < old(self).buffer@.len() && i != old(self).cursor_y as int
                        ==> final(self).buffer@[i] == old(self).buffer@[i],
            !(old(self).cursor_x < old(self).width && old(self).cursor_y < old(self).height)
                ==> final(self).buffer@ == old(self).buffer@,
    {
        let x = self.cursor_x;
        let y = self.cursor_y;
        let w = self.width;
        let h = self.height;
        grid_set_char(&mut self.buffer, w, h, x, y, c);
    }

    /// Write a string left to right starting at the cursor, advancing the
    /// cursor one column per character; characters falling outside the
    /// buffer are dropped.
    pub fn write_str(&mut self, s: &str)
        requires
            old(self).wf(),
            old(self).cursor_x + s@.len() <= u16::MAX,
        ensures
            final(self).wf(),
            final(self).width == old(self).width,
            final(self).height == old(self).height,
            final(self).cursor_x == old(self).cursor_x + s@.len(),
            final(self).cursor_y == old(self).cursor_y,
            old(self).cursor_y < old(self).height ==> forall|j: int|
                0 <= j < old(self).width as int
                    ==> #[trigger] final(self).buffer@[old(self).cursor_y as int]@[j] == if old(
                    self,
                ).cursor_x as int <= j < old(self).cursor_x + s@.len() {
                    s@[j - old(self).cursor_x as int]
                } else {
                    old(self).buffer@[old(self).cursor_y as int]@[j]
                },
            forall|i: int|
                0 <= i < old(self).buffer@.len() && i != old(self).cursor_y as int
                    ==> final(self).buffer@[i] == old(self).buffer@[i],
    {
        let n: usize = s.unicode_len();
        let mut k: usize = 0;
        while k < n
            invariant
                self.wf(),
                old(self).wf(),
                n == s@.len(),
                k <= n,
                self.width == old(self).width,
                self.height == old(self).height,
                self.cursor_y == old(self).cursor_y,
                self.cursor_x == old(self).cursor_x + k,
                old(self).cursor_x + n <= u16::MAX,
                old(self).cursor_y < old(self).height ==> forall|j: int|
                    0 <= j < old(self).width as int
                        ==> #[trigger] self.buffer@[old(self).cursor_y as int]@[j] == if old(
                        self,
                    ).cursor_x as int <= j < old(self).cursor_x + k {
                        s@[j - old(self).cursor_x as int]
                    } else {
                        old(self).buffer@[old(self).cursor_y as int]@[j]
                    },
                forall|i: int|
                    0 <= i < old(self).buffer@.len() && i != old(self).cursor_y as int
                        ==> self.buffer@[i] == old(self).buffer@[i],
            decreases n - k,
        {
            let c = s.get_char(k);
            self.write_char(c);
            self.cursor_x = self.cursor_x + 1;
            k = k + 1;
        }
    }

    /// Write a character at the given cell if it lies on the buffer.
    pub fn set_char(&mut self, x: u16, y: u16, c: char)
        requires
            old(self).wf(),
        ensures
            final(self).wf(),
            final(self).width == old(self).width,
            final(self).height == old(self).height,
            final(self).cursor_x == old(self).cursor_x,
            final(self).cursor_y == old(self).cursor_y,
            x < old(self).width && y < old(self).height ==> final(self).buffer@[y as int]@ == old(
                self,
            ).buffer@[y as int]@.update(x as int, c),
            x < old(self).width && y < old(self).height ==> forall|i: int|
                0 <= i < old(self).buffer@.len() && i != y as int ==> final(self).buffer@[i] == old(
                    self,
                ).buffer@[i],
            !(x < old(self).width && y < old(self).height) ==> final(self).buffer@ == old(
                self,
            ).buffer@,
    {
        let w = self.width;
        let h = self.height;
        grid_set_char(&mut self.buffer, w, h, x, y, c);
    }

    /// Reset every cell to blank and the cursor to the origin.
    pub fn clear(&mut self)
        ensures
            final(self).wf(),
            final(self).width == old(self).width,
            final(self).height == old(self).height,
            final(self).cursor_x == 0,
            final(self).cursor_y == 0,
            grid_blank(final(self).buffer@),
    {
        self.buffer = blank_grid(self.width, self.height);
        self.cursor_x = 0;
        self.cursor_y = 0;
    }
}

/// The play-field grid the entities are drawn onto each frame.
pub struct GameGrid {
    pub grid: Vec<Vec<char>>,
    pub width: u16,
    pub height: u16,
}

impl GameGrid {
    pub open spec fn wf(&self) -> bool {
        grid_wf(self.grid@, self.width, self.height)
    }

    pub fn new(width: u16, height: u16) -> (g: GameGrid)
        ensures
            g.wf(),
            g.width == width,
            g.height == height,
            grid_blank(g.grid@),
    {
        GameGrid { grid: blank_grid(width, height), width, height }
    }

    /// Write a character at the given cell if it lies on the grid.
    pub fn set_char(&mut self, x: u16, y: u16, c: char)
        requires
            old(self).wf(),
        ensures
            final(self).wf(),
            final(self).width == old(self).width,
            final(self).height == old(self).height,
            x < old(self).width && y < old(self).height ==> final(self).grid@[y as int]@ == old(
                self,
            ).grid@[y as int]@.update(x as int, c),
            x < old(self).width && y < old(self).height ==> forall|i: int|
                0 <= i < old(self).grid@.len() && i != y as int ==> final(self).grid@[i] == old(
                    self,
                ).grid@[i],
            !(x < old(self).width && y < old(self).height) ==> final(self).grid@ == old(
                self,
            ).grid@,
    {
        let w = self.width;
        let h = self.height;
        grid_set_char(&mut self.grid, w, h, x, y, c);
    }

    /// Reset every cell to blank.
    pub fn clear(&mut self)
        ensures
            final(self).wf(),
            final(self).width == old(self).width,
            final(self).height == old(self).height,
            grid_blank(final(self).grid@),
    {
        self.grid = blank_grid(self.width, self.height);
    }
}

/// A small overview grid rendered into a corner of the screen.
pub struct Minimap {
    buffer: Vec<Vec<char>>,
    width: u16,
    height: u16,
    x_offset: u16,
    y_offset: u16,
}

impl Minimap {
    pub closed spec fn wf(&self) -> bool {
        grid_wf(self.buffer@, self.width, self.height)
    }

    pub closed spec fn spec_width(&self) -> u16 {
        self.width
    }

    pub closed spec fn spec_height(&self) -> u16 {
        self.height
    }

    pub fn new(width: u16, height: u16, screen_width: u16) -> (m: Minimap)
        requires
            width <= screen_width,
        ensures
            m.wf(),
            m.spec_width() == width,
            m.spec_height() == height,
            m.offsets() == (((screen_width - width) as u16, 0u16)),
            grid_blank(m.view_rows()),
    {
        Minimap {
            buffer: blank_grid(width, height),
            width,
            height,
            x_offset: screen_width - width,
            y_offset: 0,
        }
    }

    pub closed spec fn offsets(&self) -> (u16, u16) {
        (self.x_offset, self.y_offset)
    }

    pub closed spec fn view_rows(&self) -> Seq<Vec<char>> {
        self.buffer@
    }

    /// Top-left corner where the minimap is placed on the screen.
    pub fn placement(&self) -> (r: (u16, u16))
        ensures
            r == self.offsets(),
    {
        (self.x_offset, self.y_offset)
    }

    /// The minimap rows, for a caller pushing them to the screen.
    pub fn rows(&self) -> (r: &Vec<Vec<char>>)
        ensures
            r@ == self.view_rows(),
    {
        &self.buffer
    }

    /// Write a character at the given cell if it lies on the minimap.
    pub fn set_char(&mut self, x: u16, y: u16, c: char)
        requires
            old(self).wf(),
        ensures
            final(self).wf(),
            final(self).spec_width() == old(self).spec_width(),
            final(self).spec_height() == old(self).spec_height(),
            final(self).offsets() == old(self).offsets(),
            x < old(self).spec_width() && y < old(self).spec_height()
                ==> final(self).view_rows()[y as int]@
                == old(self).view_rows()[y as int]@.update(x as int, c),
            x < old(self).spec_width() && y < old(self).spec_height() ==> forall|i: int|
                0 <= i < old(self).view_rows().len() && i != y as int ==> final(self).view_rows()[i]
                    == old(self).view_rows()[i],
            !(x < old(self).spec_width() && y < old(self).spec_height()) ==> final(self).view_rows()
                == old(self).view_rows(),
    {
        let w = self.width;
        let h = self.height;
        grid_set_char(&mut self.buffer, w, h, x, y, c);
    }

    /// Reset every cell to blank.
    pub fn clear(&mut self)
        ensures
            final(self).wf(),
            final(self).spec_width() == old(self).spec_width(),
            final(self).spec_height() == old(self).spec_height(),
            final(self).offsets() == old(self).offsets(),
            grid_blank(final(self).view_rows()),
    {
        self.buffer = blank_grid(self.width, self.height);
    }
}

} // verus!
