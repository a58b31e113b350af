//! Geometry of a popup menu window: the width its items need, how its items
//! are laid out in columns, where it may stand on the screen and which item
//! a pointer position hits.
use vstd::prelude::*;
use crate::core_types::rectangle::{as_i16, imax, Rectangle};

verus! {

/// Height of the title bar.
pub const TITLE_HEIGHT: u16 = 22;
/// Height of an item.
pub const ITEM_HEIGHT: u16 = 20;
/// Narrowest item.
pub const MIN_WIDTH: u16 = 120;
/// Space between columns.
pub const COL_GAP: i16 = 2;

/// The widest of `32` and each text width plus 16 (bevel and padding).
pub open spec fn widest(ws: Seq<u16>) -> int
    decreases ws.len(),
{
    if ws.len() == 0 {
        32
    } else {
        imax(widest(ws.drop_last()), ws.last() + 16)
    }
}

/// The width of a menu's items: wide enough for every label and the title
/// (plus 16 pixels), 12 more when an item opens a submenu, at least 120.
pub open spec fn item_width_spec(texts: Seq<u16>, title: u16, has_submenu: bool) -> int {
    let w = imax(widest(texts), title + 16);
    imax(
        if has_submenu {
            w + 12
        } else {
            w
        },
        MIN_WIDTH as int,
    )
}

/// The item width of a menu with these label widths and title width.
pub fn item_width(texts: &[u16], title: u16, has_submenu: bool) -> (r: u16)
    requires
        forall|i: int| 0 <= i < texts@.len() ==> #[trigger] texts@[i] + 16 <= u16::MAX,
        title + 16 <= u16::MAX,
        has_submenu ==> imax(widest(texts@), title + 16) + 12 <= u16::MAX,
    ensures
        r == item_width_spec(texts@, title, has_submenu),
{
    let mut w: u16 = 32;
    let mut i: usize = 0;
    while i < texts.len()
        invariant
            i <= texts@.len(),
            forall|j: int| 0 <= j < texts@.len() ==> #[trigger] texts@[j] + 16 <= u16::MAX,
            w == widest(texts@.take(i as int)),
        decreases texts@.len() - i,
    {
        proof {
            assert(texts@.take(i + 1).drop_last() =~= texts@.take(i as int));
        }
        let t = texts[i] + 16;
        if t > w {
            w = t;
        }
        i = i + 1;
    }
    assert(texts@.take(i as int) =~= texts@);
    if title + 16 > w {
        w = title + 16;
    }
    if has_submenu {
        w = w + 12;
    }
    if w < MIN_WIDTH {
        MIN_WIDTH
    } else {
        w
    }
}

/// Whether `n` items are taller than the screen (less 20 pixels), so that
/// the menu needs several columns.
pub fn needs_columns(n: u16, screen_height: u16) -> (r: bool)
    requires
        n * 20 <= u16::MAX,
    ensures
        r == (n * 20 > imax(screen_height - 20, 0)),
{
    let max_h: u16 = if screen_height >= 20 {
        screen_height - 20
    } else {
        0
    };
    n * ITEM_HEIGHT > max_h
}

/// The geometry of a menu laid out in columns.
#[derive(Clone, Debug, PartialEq, Eq)]
pub struct MenuGeometry {
    pub width: u16,
    pub height: u16,
    pub item_w: u16,
    pub columns: u16,
    pub rows_per_col: u16,
    pub title_rect: Rectangle,
    pub frame_rect: Rectangle,
    pub item_rects: Vec<Rectangle>,
}

/// Rows per column for `n` items in `cols` columns.
pub open spec fn rows_of(n: int, cols: int) -> int {
    (n + cols - 1) / cols
}

/// Where item `i` stands: column by column, top to bottom, below the title.
pub open spec fn item_rect(i: int, rows: int, item_w: u16) -> Rectangle {
    Rectangle {
        x: ((i / rows) * (as_i16(item_w) + COL_GAP)) as i16,
        y: (TITLE_HEIGHT + (i % rows) * ITEM_HEIGHT) as i16,
        width: item_w,
        height: ITEM_HEIGHT,
    }
}

/// The layout's arithmetic stays in range.
pub open spec fn layout_ok(n: u16, item_w: u16, cols: u16) -> bool {
    let rows = rows_of(n as int, cols as int);
    let step = as_i16(item_w) + COL_GAP;
    &&& 1 <= cols
    &&& n + cols <= u16::MAX
    &&& cols * item_w + (cols - 1) * 2 <= u16::MAX
    &&& TITLE_HEIGHT + rows * ITEM_HEIGHT <= 32767
    &&& n > 0 ==> -32768 <= step <= 32767 && (n - 1) / rows <= 32767 && -32768 <= (n - 1) / rows
        * step <= 32767
}

/// Lay `n` items of width `item_w` out in `cols` columns (the number of
/// columns that fit the screen, 1 when the items fit in one).
pub fn layout(n: u16, item_w: u16, cols: u16) -> (r: MenuGeometry)
    requires
        layout_ok(n, item_w, cols),
    ensures
        r.columns == cols,
        r.rows_per_col == rows_of(n as int, cols as int),
        r.item_w == item_w,
        r.width == cols * item_w + (cols - 1) * 2,
        r.height == TITLE_HEIGHT + rows_of(n as int, cols as int) * ITEM_HEIGHT,
        r.title_rect == (Rectangle { x: 0, y: 0, width: r.width, height: TITLE_HEIGHT }),
        r.frame_rect == (Rectangle {
            x: 0,
            y: TITLE_HEIGHT as i16,
            width: r.width,
            height: (rows_of(n as int, cols as int) * ITEM_HEIGHT) as u16,
        }),
        r.item_rects@.len() == n,
        forall|i: int|
            0 <= i < n ==> #[trigger] r.item_rects@[i] == item_rect(
                i,
                rows_of(n as int, cols as int),
                item_w,
            ),
{
    let rows = (n + cols - 1) / cols;
    let width = cols * item_w + (cols - 1) * 2;
    let height = TITLE_HEIGHT + rows * ITEM_HEIGHT;
    let title_rect = Rectangle::new(0, 0, width, TITLE_HEIGHT);
    let frame_rect = Rectangle::new(0, TITLE_HEIGHT as i16, width, rows * ITEM_HEIGHT);
    let mut rects: Vec<Rectangle> = Vec::new();
    let mut i: u16 = 0;
    while i < n
        invariant
            layout_ok(n, item_w, cols),
            rows == rows_of(n as int, cols as int),
            i <= n,
            rects@.len() == i,
            forall|j: int| 0 <= j < i ==> #[trigger] rects@[j] == item_rect(j, rows as int, item_w),
        decreases n - i,
    {
        assert(rows >= 1) by (nonlinear_arith)
            requires
                rows == (n + cols - 1) / (cols as int),
                i < n,
                cols >= 1,
        ;
        let step = crate::core_types::rectangle::u16_as_i16(item_w) + COL_GAP;
        let col = i / rows;
        let row = i % rows;
        assert(i / rows <= (n - 1) / (rows as int)) by (nonlinear_arith)
            requires
                i <= n - 1,
                rows >= 1,
        ;
        assert(-32768 <= col * step <= 32767) by (nonlinear_arith)
            requires
                0 <= col <= (n - 1) / (rows as int),
                -32768 <= (n - 1) / (rows as int) * step <= 32767,
        ;
        assert(row < rows) by (nonlinear_arith)
            requires
                row == i % rows,
                rows >= 1,
        ;
        assert(TITLE_HEIGHT + row * ITEM_HEIGHT <= TITLE_HEIGHT + rows * ITEM_HEIGHT) by (nonlinear_arith)
            requires
                row < rows,
        ;
        let x = (col as i16) * step;
        let y = (TITLE_HEIGHT + row * ITEM_HEIGHT) as i16;
        rects.push(Rectangle::new(x, y, item_w, ITEM_HEIGHT));
        i = i + 1;
    }
    MenuGeometry {
        width,
        height,
        item_w,
        columns: cols,
        rows_per_col: rows,
        title_rect,
        frame_rect,
        item_rects: rects,
    }
}

/// Where a `w` x `h` menu asked to stand at (`x`, `y`) goes on a `sw` x
/// `sh` screen: moved left and up so that it fits, never past the origin.
pub open spec fn place_spec(x: int, y: int, w: u16, h: u16, sw: u16, sh: u16) -> (int, int) {
    let x1 = if x + as_i16(w) > as_i16(sw) {
        imax(as_i16(sw) - as_i16(w), 0)
    } else {
        x
    };
    let y1 = if y + as_i16(h) > as_i16(sh) {
        imax(as_i16(sh) - as_i16(h), 0)
    } else {
        y
    };
    (imax(x1, 0), imax(y1, 0))
}

/// The on-screen position of a menu shown at (`x`, `y`).
pub fn place(x: i16, y: i16, w: u16, h: u16, sw: u16, sh: u16) -> (r: (i16, i16))
    requires
        -32768 <= x + as_i16(w) <= 32767,
        -32768 <= y + as_i16(h) <= 32767,
        -32768 <= as_i16(sw) - as_i16(w) <= 32767,
        -32768 <= as_i16(sh) - as_i16(h) <= 32767,
    ensures
        (r.0 as int, r.1 as int) == place_spec(x as int, y as int, w, h, sw, sh),
{
    let mw = crate::core_types::rectangle::u16_as_i16(w);
    let mh = crate::core_types::rectangle::u16_as_i16(h);
    let s_w = crate::core_types::rectangle::u16_as_i16(sw);
    let s_h = crate::core_types::rectangle::u16_as_i16(sh);
    let mut nx = x;
    let mut ny = y;
    if nx + mw > s_w {
        let d = s_w - mw;
        nx = if d >= 0 {
            d
        } else {
            0
        };
    }
    if ny + mh > s_h {
        let d = s_h - mh;
        ny = if d >= 0 {
            d
        } else {
            0
        };
    }
    if nx < 0 {
        nx = 0;
    }
    if ny < 0 {
        ny = 0;
    }
    (nx, ny)
}

/// Index of the first rectangle holding (`x`, `y`), or -1.
pub open spec fn first_holding(rs: Seq<Rectangle>, x: int, y: int) -> int
    decreases rs.len(),
{
    if rs.len() == 0 {
        -1
    } else if rs.last().spec_contains(x, y) && first_holding(rs.drop_last(), x, y) < 0 {
        rs.len() - 1
    } else {
        first_holding(rs.drop_last(), x, y)
    }
}

proof fn lemma_first_holding(rs: Seq<Rectangle>, x: int, y: int, i: int)
    requires
        0 <= i < rs.len(),
        rs[i].spec_contains(x, y),
        first_holding(rs.take(i), x, y) < 0,
    ensures
        first_holding(rs, x, y) == i,
    decreases rs.len(),
{
    if rs.len() - 1 == i {
        assert(rs.drop_last() =~= rs.take(i));
    } else {
        assert(rs.drop_last().take(i) =~= rs.take(i));
        lemma_first_holding(rs.drop_last(), x, y, i);
    }
}

/// The item under the window-local position (`x`, `y`): none on the
/// title bar, else the first item rectangle holding it.
pub fn hit_test(rects: &[Rectangle], x: i16, y: i16) -> (r: Option<usize>)
    ensures
        y < TITLE_HEIGHT ==> r is None,
        y >= TITLE_HEIGHT ==> match r {
            Some(i) => first_holding(rects@, x as int, y as int) == i,
            None => first_holding(rects@, x as int, y as int) < 0,
        },
{
    if y < TITLE_HEIGHT as i16 {
        return None;
    }
    let mut i: usize = 0;
    while i < rects.len()
        invariant
            y >= TITLE_HEIGHT,
            i <= rects@.len(),
            first_holding(rects@.take(i as int), x as int, y as int) < 0,
        decreases rects@.len() - i,
    {
        proof {
            assert(rects@.take(i + 1).drop_last() =~= rects@.take(i as int));
        }
        if rects[i].contains(x, y) {
            proof {
                lemma_first_holding(rects@, x as int, y as int, i as int);
            }
            return Some(i);
        }
        i = i + 1;
    }
    assert(rects@.take(i as int) =~= rects@);
    None
}

} // verus!
