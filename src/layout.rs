//! Aspect-preserving fitting of a block grid into a viewport.
use vstd::prelude::*;

verus! {

/// The largest size of aspect `w : h` that fits into `nw x nh`, rounded down:
/// full target width when the scaled height fits, otherwise full target height.
pub open spec fn fit_spec(w: int, h: int, nw: int, nh: int) -> (int, int) {
    if h * nw / w > nh {
        (w * nh / h, nh)
    } else {
        (nw, h * nw / w)
    }
}

/// Scales the content size `w x h` to fit into the bound `nw x nh`.
pub fn resize(w: u32, h: u32, nw: u32, nh: u32) -> (r: (u32, u32))
    requires
        w > 0,
        h > 0,
    ensures
        (r.0 as int, r.1 as int) == fit_spec(w as int, h as int, nw as int, nh as int),
        r.0 <= nw,
        r.1 <= nh,
{
    proof {
        lemma_u32_product_fits(h as int, nw as int);
        lemma_u32_product_fits(w as int, nh as int);
    }
    let rh: u64 = (h as u64) * (nw as u64) / (w as u64);
    if rh > nh as u64 {
        let rw: u64 = (w as u64) * (nh as u64) / (h as u64);
        proof {
            lemma_fit_width_bounded(w as int, h as int, nw as int, nh as int);
        }
        (rw as u32, nh)
    } else {
        (nw, rh as u32)
    }
}

/// The product of two `u32` values fits in a `u64`.
pub proof fn lemma_u32_product_fits(a: int, b: int)
    requires
        0 <= a <= u32::MAX,
        0 <= b <= u32::MAX,
    ensures
        0 <= a * b <= u32::MAX * u32::MAX,
        u32::MAX * u32::MAX < u64::MAX,
{
    assert(0 <= a * b <= u32::MAX * u32::MAX) by (nonlinear_arith)
        requires
            0 <= a <= u32::MAX,
            0 <= b <= u32::MAX,
    ;
}

proof fn lemma_fit_width_bounded(w: int, h: int, nw: int, nh: int)
    requires
        w > 0,
        h > 0,
        nw >= 0,
        nh >= 0,
        h * nw / w > nh,
    ensures
        w * nh / h <= nw,
{
    assert(w * nh / h <= nw) by (nonlinear_arith)
        requires
            w > 0,
            h > 0,
            nw >= 0,
            nh >= 0,
            h * nw / w > nh,
    {
        let q = h * nw / w;
        assert(q * w <= h * nw);
        assert(w * nh < w * q);
    }
}


/// Fitting stays within the bound and keeps the content's aspect ratio up to
/// integer rounding: the cross products `out_w * h` and `out_h * w` differ by
/// less than the content side along which the result was rounded.
pub proof fn lemma_fit_keeps_aspect(w: int, h: int, nw: int, nh: int)
    requires
        w > 0,
        h > 0,
        nw >= 0,
        nh >= 0,
    ensures
        0 <= fit_spec(w, h, nw, nh).0 <= nw,
        0 <= fit_spec(w, h, nw, nh).1 <= nh,
        h * nw / w > nh ==> 0 <= fit_spec(w, h, nw, nh).1 * w - fit_spec(w, h, nw, nh).0 * h < h,
        h * nw / w <= nh ==> 0 <= fit_spec(w, h, nw, nh).0 * h - fit_spec(w, h, nw, nh).1 * w < w,
{
    let q = h * nw / w;
    if q > nh {
        lemma_fit_width_bounded(w, h, nw, nh);
        let p = w * nh / h;
        assert(0 <= p * h <= w * nh < p * h + h) by (nonlinear_arith)
            requires
                w > 0,
                h > 0,
                nh >= 0,
                p == w * nh / h,
        ;
        assert(0 <= p) by (nonlinear_arith)
            requires
                w > 0,
                h > 0,
                nh >= 0,
                p == w * nh / h,
        ;
        assert(nh * w == w * nh) by (nonlinear_arith);
    } else {
        assert(0 <= q * w <= h * nw < q * w + w) by (nonlinear_arith)
            requires
                w > 0,
                h > 0,
                nw >= 0,
                q == h * nw / w,
        ;
        assert(nw * h == h * nw) by (nonlinear_arith);
    }
}


/// Width of the title banner, in blocks.
pub const TITLE_COLUMNS: u32 = 29;

/// Height of the title banner, in blocks.
pub const TITLE_ROWS: u32 = 7;

/// Placement of a block grid on screen: the pixel origin of block (0, 0) and
/// the pixel size of one block.
#[derive(Clone, Copy, Debug, PartialEq, Eq, Structural)]
pub struct Region {
    pub x: u32,
    pub y: u32,
    pub cell_w: u32,
    pub cell_h: u32,
}

/// Geometry of one session: the board, and the title banner where one is shown.
#[derive(Clone, Copy, Debug, PartialEq, Eq, Structural)]
pub struct Layout {
    pub title: Option<Region>,
    pub board: Region,
}

/// Blocks across the board: the grid plus a wall column on each side.
pub open spec fn board_across(grid_w: int) -> int {
    grid_w + 2
}

/// Blocks down the board: the grid plus the bottom wall row.
pub open spec fn board_down(grid_h: int) -> int {
    grid_h + 1
}

/// Blocks across the composite of title and board: the wider of the two.
pub open spec fn titled_across(grid_w: int) -> int {
    if board_across(grid_w) > TITLE_COLUMNS {
        board_across(grid_w)
    } else {
        TITLE_COLUMNS as int
    }
}

/// Blocks down the composite: the title rows stacked on the board.
pub open spec fn titled_down(grid_h: int) -> int {
    TITLE_ROWS + board_down(grid_h)
}

/// The title-and-board layout: the composite is fitted into 80% of the
/// screen width and the full height, one block size is shared by both parts,
/// the title is centred at the top and the board is centred at the bottom.
pub open spec fn titled_layout_spec(sw: u32, sh: u32, grid_w: u32, grid_h: u32) -> Layout {
    let across = titled_across(grid_w as int);
    let down = titled_down(grid_h as int);
    let fit = fit_spec(across, down, sw * 80 / 100, sh as int);
    let cw = fit.0 / across;
    let ch = fit.1 / down;
    Layout {
        title: Some(
            Region {
                x: ((sw - TITLE_COLUMNS * cw) / 2) as u32,
                y: 0,
                cell_w: cw as u32,
                cell_h: ch as u32,
            },
        ),
        board: Region {
            x: ((sw - board_across(grid_w as int) * cw) / 2) as u32,
            y: (sh - board_down(grid_h as int) * ch) as u32,
            cell_w: cw as u32,
            cell_h: ch as u32,
        },
    }
}

/// The board-only layout: the board is fitted into a third of the screen
/// width and two thirds of its height, and centred on the screen.
pub open spec fn board_layout_spec(sw: u32, sh: u32, grid_w: u32, grid_h: u32) -> Layout {
    let across = board_across(grid_w as int);
    let down = board_down(grid_h as int);
    let fit = fit_spec(across, down, sw as int / 3, sh * 2 / 3);
    let cw = fit.0 / across;
    let ch = fit.1 / down;
    Layout {
        title: None,
        board: Region {
            x: ((sw - across * cw) / 2) as u32,
            y: ((sh - down * ch) / 2) as u32,
            cell_w: cw as u32,
            cell_h: ch as u32,
        },
    }
}

/// `k` whole parts of `total / n` take no more than `total`, for `k <= n`.
proof fn lemma_parts_fit(total: int, n: int, k: int)
    requires
        total >= 0,
        n > 0,
        0 <= k <= n,
    ensures
        0 <= total / n,
        k * (total / n) <= total,
{
    assert(0 <= total / n && k * (total / n) <= total) by (nonlinear_arith)
        requires
            total >= 0,
            n > 0,
            0 <= k <= n,
    {
        assert(n * (total / n) <= total);
        assert(k * (total / n) <= n * (total / n));
    }
}

/// Computes the title-and-board layout for a `screen_w x screen_h` viewport
/// and a `grid_w x grid_h` board.
pub fn titled_layout(screen_w: u32, screen_h: u32, grid_w: u32, grid_h: u32) -> (r: Layout)
    requires
        grid_w <= u32::MAX - 2,
        grid_h <= u32::MAX - TITLE_ROWS - 1,
    ensures
        r == titled_layout_spec(screen_w, screen_h, grid_w, grid_h),
        r.title matches Some(t) && {
            &&& t.y == 0
            &&& t.cell_w == r.board.cell_w
            &&& t.cell_h == r.board.cell_h
            &&& t.x + TITLE_COLUMNS * t.cell_w <= screen_w
            &&& TITLE_ROWS * t.cell_h <= r.board.y
        },
        r.board.x + board_across(grid_w as int) * r.board.cell_w <= screen_w,
        r.board.y + board_down(grid_h as int) * r.board.cell_h == screen_h,
{
    let board_w: u32 = grid_w + 2;
    let board_h: u32 = grid_h + 1;
    let across: u32 = if board_w > TITLE_COLUMNS {
        board_w
    } else {
        TITLE_COLUMNS
    };
    let down: u32 = TITLE_ROWS + board_h;
    let desired_w: u32 = ((screen_w as u64) * 80 / 100) as u32;
    let (fit_w, fit_h) = resize(across, down, desired_w, screen_h);
    let cell_w: u32 = fit_w / across;
    let cell_h: u32 = fit_h / down;
    proof {
        lemma_parts_fit(fit_w as int, across as int, TITLE_COLUMNS as int);
        lemma_parts_fit(fit_w as int, across as int, board_w as int);
        lemma_parts_fit(fit_h as int, down as int, down as int);
        assert(TITLE_ROWS * cell_h + board_h * cell_h == down * cell_h) by (nonlinear_arith)
            requires
                down == TITLE_ROWS + board_h,
        ;
    }
    let title = Region {
        x: (screen_w - TITLE_COLUMNS * cell_w) / 2,
        y: 0,
        cell_w,
        cell_h,
    };
    let board = Region {
        x: (screen_w - board_w * cell_w) / 2,
        y: screen_h - board_h * cell_h,
        cell_w,
        cell_h,
    };
    Layout { title: Some(title), board }
}

/// Computes the board-only layout for a `screen_w x screen_h` viewport and a
/// `grid_w x grid_h` board.
pub fn board_layout(screen_w: u32, screen_h: u32, grid_w: u32, grid_h: u32) -> (r: Layout)
    requires
        grid_w <= u32::MAX - 2,
        grid_h <= u32::MAX - 1,
    ensures
        r == board_layout_spec(screen_w, screen_h, grid_w, grid_h),
        r.title is None,
        2 * r.board.x + board_across(grid_w as int) * r.board.cell_w <= screen_w,
        2 * r.board.y + board_down(grid_h as int) * r.board.cell_h <= screen_h,
{
    let across: u32 = grid_w + 2;
    let down: u32 = grid_h + 1;
    let desired_h: u32 = ((screen_h as u64) * 2 / 3) as u32;
    let (fit_w, fit_h) = resize(across, down, screen_w / 3, desired_h);
    let cell_w: u32 = fit_w / across;
    let cell_h: u32 = fit_h / down;
    proof {
        lemma_parts_fit(fit_w as int, across as int, across as int);
        lemma_parts_fit(fit_h as int, down as int, down as int);
    }
    let board = Region {
        x: (screen_w - across * cell_w) / 2,
        y: (screen_h - down * cell_h) / 2,
        cell_w,
        cell_h,
    };
    Layout { title: None, board }
}

} // verus!
