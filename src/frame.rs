//! The blocks drawn in a frame and where they land on screen.
use vstd::prelude::*;
use vstd::arithmetic::div_mod::lemma_fundamental_div_mod_converse;
use crate::colour::Colour;
use crate::layout::{Layout, Region, board_across, board_down};

verus! {

/// One block of a grid: its column, its row and its colour.
#[derive(Clone, Copy, Debug, PartialEq, Eq, Structural)]
pub struct Block {
    pub x: u32,
    pub y: u32,
    pub colour: Colour,
}

/// A block placed on screen: the pixel rectangle it covers and its colour.
#[derive(Clone, Copy, Debug, PartialEq, Eq, Structural)]
pub struct Sprite {
    pub x: u64,
    pub y: u64,
    pub w: u32,
    pub h: u32,
    pub colour: Colour,
}

/// A block of the title banner, of palette colour `v`.
pub open spec fn banner_block(x: u32, y: u32, v: isize) -> Block {
    Block { x, y, colour: Colour::Value(v) }
}

/// The title banner: a fixed picture of the game's name, in title-region
/// block coordinates.
pub open spec fn title_banner() -> Seq<Block> {
    seq![
        banner_block(1, 1, 1),
        banner_block(2, 1, 1),
        banner_block(2, 2, 1),
        banner_block(2, 3, 1),
        banner_block(2, 4, 3),
        banner_block(2, 5, 3),
        banner_block(3, 1, 2),
        banner_block(3, 2, 2),
        banner_block(3, 3, 2),
        banner_block(3, 4, 3),
        banner_block(3, 5, 3),
        banner_block(4, 1, 2),
        banner_block(6, 1, 6),
        banner_block(6, 2, 0),
        banner_block(6, 3, 0),
        banner_block(6, 4, 0),
        banner_block(6, 5, 6),
        banner_block(7, 1, 6),
        banner_block(7, 3, 0),
        banner_block(7, 5, 6),
        banner_block(8, 1, 6),
        banner_block(8, 5, 6),
        banner_block(9, 1, 6),
        banner_block(9, 5, 6),
        banner_block(11, 1, 1),
        banner_block(12, 1, 1),
        banner_block(12, 2, 1),
        banner_block(12, 3, 1),
        banner_block(12, 4, 3),
        banner_block(12, 5, 3),
        banner_block(13, 1, 2),
        banner_block(13, 2, 2),
        banner_block(13, 3, 2),
        banner_block(13, 4, 3),
        banner_block(13, 5, 3),
        banner_block(14, 1, 2),
        banner_block(16, 1, 2),
        banner_block(16, 2, 6),
        banner_block(16, 3, 6),
        banner_block(16, 4, 6),
        banner_block(16, 5, 6),
        banner_block(17, 1, 2),
        banner_block(17, 3, 5),
        banner_block(17, 4, 5),
        banner_block(18, 1, 2),
        banner_block(18, 2, 2),
        banner_block(18, 4, 5),
        banner_block(18, 5, 5),
        banner_block(20, 5, 2),
        banner_block(21, 1, 3),
        banner_block(21, 2, 3),
        banner_block(21, 3, 2),
        banner_block(21, 4, 2),
        banner_block(21, 5, 2),
        banner_block(22, 1, 3),
        banner_block(22, 2, 3),
        banner_block(22, 3, 1),
        banner_block(22, 4, 1),
        banner_block(22, 5, 1),
        banner_block(23, 5, 1),
        banner_block(25, 1, 1),
        banner_block(25, 2, 1),
        banner_block(26, 1, 1),
        banner_block(26, 2, 5),
        banner_block(26, 3, 5),
        banner_block(26, 5, 2),
        banner_block(27, 1, 1),
        banner_block(27, 3, 5),
        banner_block(27, 4, 5),
        banner_block(27, 5, 2),
        banner_block(28, 4, 2),
        banner_block(28, 5, 2)
    ]
}

/// The blocks of the title banner.
pub fn title_blocks() -> (v: Vec<Block>)
    ensures
        v@ == title_banner(),
{
    let mut v: Vec<Block> = Vec::new();
    v.push(Block { x: 1, y: 1, colour: Colour::Value(1) });
    v.push(Block { x: 2, y: 1, colour: Colour::Value(1) });
    v.push(Block { x: 2, y: 2, colour: Colour::Value(1) });
    v.push(Block { x: 2, y: 3, colour: Colour::Value(1) });
    v.push(Block { x: 2, y: 4, colour: Colour::Value(3) });
    v.push(Block { x: 2, y: 5, colour: Colour::Value(3) });
    v.push(Block { x: 3, y: 1, colour: Colour::Value(2) });
    v.push(Block { x: 3, y: 2, colour: Colour::Value(2) });
    v.push(Block { x: 3, y: 3, colour: Colour::Value(2) });
    v.push(Block { x: 3, y: 4, colour: Colour::Value(3) });
    v.push(Block { x: 3, y: 5, colour: Colour::Value(3) });
    v.push(Block { x: 4, y: 1, colour: Colour::Value(2) });
    v.push(Block { x: 6, y: 1, colour: Colour::Value(6) });
    v.push(Block { x: 6, y: 2, colour: Colour::Value(0) });
    v.push(Block { x: 6, y: 3, colour: Colour::Value(0) });
    v.push(Block { x: 6, y: 4, colour: Colour::Value(0) });
    v.push(Block { x: 6, y: 5, colour: Colour::Value(6) });
    v.push(Block { x: 7, y: 1, colour: Colour::Value(6) });
    v.push(Block { x: 7, y: 3, colour: Colour::Value(0) });
    v.push(Block { x: 7, y: 5, colour: Colour::Value(6) });
    v.push(Block { x: 8, y: 1, colour: Colour::Value(6) });
    v.push(Block { x: 8, y: 5, colour: Colour::Value(6) });
    v.push(Block { x: 9, y: 1, colour: Colour::Value(6) });
    v.push(Block { x: 9, y: 5, colour: Colour::Value(6) });
    v.push(Block { x: 11, y: 1, colour: Colour::Value(1) });
    v.push(Block { x: 12, y: 1, colour: Colour::Value(1) });
    v.push(Block { x: 12, y: 2, colour: Colour::Value(1) });
    v.push(Block { x: 12, y: 3, colour: Colour::Value(1) });
    v.push(Block { x: 12, y: 4, colour: Colour::Value(3) });
    v.push(Block { x: 12, y: 5, colour: Colour::Value(3) });
    v.push(Block { x: 13, y: 1, colour: Colour::Value(2) });
    v.push(Block { x: 13, y: 2, colour: Colour::Value(2) });
    v.push(Block { x: 13, y: 3, colour: Colour::Value(2) });
    v.push(Block { x: 13, y: 4, colour: Colour::Value(3) });
    v.push(Block { x: 13, y: 5, colour: Colour::Value(3) });
    v.push(Block { x: 14, y: 1, colour: Colour::Value(2) });
    v.push(Block { x: 16, y: 1, colour: Colour::Value(2) });
    v.push(Block { x: 16, y: 2, colour: Colour::Value(6) });
    v.push(Block { x: 16, y: 3, colour: Colour::Value(6) });
    v.push(Block { x: 16, y: 4, colour: Colour::Value(6) });
    v.push(Block { x: 16, y: 5, colour: Colour::Value(6) });
    v.push(Block { x: 17, y: 1, colour: Colour::Value(2) });
    v.push(Block { x: 17, y: 3, colour: Colour::Value(5) });
    v.push(Block { x: 17, y: 4, colour: Colour::Value(5) });
    v.push(Block { x: 18, y: 1, colour: Colour::Value(2) });
    v.push(Block { x: 18, y: 2, colour: Colour::Value(2) });
    v.push(Block { x: 18, y: 4, colour: Colour::Value(5) });
    v.push(Block { x: 18, y: 5, colour: Colour::Value(5) });
    v.push(Block { x: 20, y: 5, colour: Colour::Value(2) });
    v.push(Block { x: 21, y: 1, colour: Colour::Value(3) });
    v.push(Block { x: 21, y: 2, colour: Colour::Value(3) });
    v.push(Block { x: 21, y: 3, colour: Colour::Value(2) });
    v.push(Block { x: 21, y: 4, colour: Colour::Value(2) });
    v.push(Block { x: 21, y: 5, colour: Colour::Value(2) });
    v.push(Block { x: 22, y: 1, colour: Colour::Value(3) });
    v.push(Block { x: 22, y: 2, colour: Colour::Value(3) });
    v.push(Block { x: 22, y: 3, colour: Colour::Value(1) });
    v.push(Block { x: 22, y: 4, colour: Colour::Value(1) });
    v.push(Block { x: 22, y: 5, colour: Colour::Value(1) });
    v.push(Block { x: 23, y: 5, colour: Colour::Value(1) });
    v.push(Block { x: 25, y: 1, colour: Colour::Value(1) });
    v.push(Block { x: 25, y: 2, colour: Colour::Value(1) });
    v.push(Block { x: 26, y: 1, colour: Colour::Value(1) });
    v.push(Block { x: 26, y: 2, colour: Colour::Value(5) });
    v.push(Block { x: 26, y: 3, colour: Colour::Value(5) });
    v.push(Block { x: 26, y: 5, colour: Colour::Value(2) });
    v.push(Block { x: 27, y: 1, colour: Colour::Value(1) });
    v.push(Block { x: 27, y: 3, colour: Colour::Value(5) });
    v.push(Block { x: 27, y: 4, colour: Colour::Value(5) });
    v.push(Block { x: 27, y: 5, colour: Colour::Value(2) });
    v.push(Block { x: 28, y: 4, colour: Colour::Value(2) });
    v.push(Block { x: 28, y: 5, colour: Colour::Value(2) });
    assert(v@ =~= title_banner());
    v
}

/// The colour at column `bx`, row `by` of the board: the wall on the left and
/// right columns and on the bottom row, the grid's own cell elsewhere. The
/// grid's cells are listed row by row, `grid_w` to a row.
pub open spec fn board_colour(grid_w: int, grid_h: int, cells: Seq<Colour>, bx: int, by: int) -> Colour {
    if by == grid_h || bx == 0 || bx == grid_w + 1 {
        Colour::Wall
    } else {
        cells[by * grid_w + bx - 1]
    }
}

/// The board's blocks, row by row from the top, each row from the left: the
/// grid framed by its walls, `board_across(grid_w)` blocks to a row and
/// `board_down(grid_h)` rows.
pub open spec fn board_picture(grid_w: int, grid_h: int, cells: Seq<Colour>) -> Seq<Block> {
    let across = board_across(grid_w);
    Seq::new(
        (across * board_down(grid_h)) as nat,
        |k: int|
            Block {
                x: (k % across) as u32,
                y: (k / across) as u32,
                colour: board_colour(grid_w, grid_h, cells, k % across, k / across),
            },
    )
}

proof fn lemma_cell_index(grid_w: int, grid_h: int, x: int, y: int)
    requires
        0 <= y < grid_h,
        1 <= x <= grid_w,
    ensures
        0 <= y * grid_w <= y * grid_w + x - 1 < grid_w * grid_h,
{
    assert(0 <= y * grid_w <= y * grid_w + x - 1 < grid_w * grid_h) by (nonlinear_arith)
        requires
            0 <= y < grid_h,
            1 <= x <= grid_w,
    ;
}

/// The blocks of a `grid_w x grid_h` board whose cells are `cells`, row by row.
pub fn board_blocks(grid_w: u32, grid_h: u32, cells: &Vec<Colour>) -> (v: Vec<Block>)
    requires
        cells@.len() == grid_w * grid_h,
        grid_w <= u32::MAX - 2,
        grid_h <= u32::MAX - 1,
        board_across(grid_w as int) * board_down(grid_h as int) <= usize::MAX,
    ensures
        v@ == board_picture(grid_w as int, grid_h as int, cells@),
{
    let across: u32 = grid_w + 2;
    let ghost picture = board_picture(grid_w as int, grid_h as int, cells@);
    let n_cells: usize = cells.len();
    assert(picture.len() == across * (grid_h + 1));
    let mut v: Vec<Block> = Vec::new();
    let mut y: u32 = 0;
    while y <= grid_h
        invariant
            across == grid_w + 2,
            grid_h <= u32::MAX - 1,
            y <= grid_h + 1,
            cells@.len() == grid_w * grid_h,
            picture == board_picture(grid_w as int, grid_h as int, cells@),
            picture.len() == across * (grid_h + 1),
            n_cells == cells@.len(),
            v@.len() == y * across,
            forall|k: int| 0 <= k < v@.len() ==> v@[k] == picture[k],
        decreases grid_h + 1 - y,
    {
        let mut x: u32 = 0;
        while x < across
            invariant
                across == grid_w + 2,
                y <= grid_h,
                cells@.len() == grid_w * grid_h,
                picture == board_picture(grid_w as int, grid_h as int, cells@),
                picture.len() == across * (grid_h + 1),
                n_cells == cells@.len(),
                x <= across,
                v@.len() == y * across + x,
                forall|k: int| 0 <= k < v@.len() ==> v@[k] == picture[k],
            decreases across - x,
        {
            let colour = if y == grid_h || x == 0 || x == grid_w + 1 {
                Colour::Wall
            } else {
                proof {
                    lemma_cell_index(grid_w as int, grid_h as int, x as int, y as int);
                }
                cells[(y as usize) * (grid_w as usize) + (x as usize) - 1]
            };
            let ghost k = y * across + x;
            proof {
                lemma_fundamental_div_mod_converse(k, across as int, y as int, x as int);
                assert(y * across + x < board_across(grid_w as int) * board_down(grid_h as int))
                    by (nonlinear_arith)
                    requires
                        y <= grid_h,
                        x < across,
                        across == grid_w + 2,
                ;
            }
            v.push(Block { x, y, colour });
            x = x + 1;
        }
        assert(y * across + across == (y + 1) * across) by (nonlinear_arith);
        y = y + 1;
    }
    assert(v@.len() == picture.len()) by (nonlinear_arith)
        requires
            v@.len() == y * across,
            y == grid_h + 1,
            picture.len() == across * (grid_h + 1),
    ;
    assert(v@ =~= picture);
    v
}

impl Region {
    /// The pixel rectangle of block `b` of a grid placed at this region.
    pub open spec fn place_spec(self, b: Block) -> Sprite {
        Sprite {
            x: (self.x + b.x * self.cell_w) as u64,
            y: (self.y + b.y * self.cell_h) as u64,
            w: self.cell_w,
            h: self.cell_h,
            colour: b.colour,
        }
    }

    /// Places block `b` on screen.
    pub fn place(&self, b: Block) -> (r: Sprite)
        ensures
            r == self.place_spec(b),
            r.x == self.x + b.x * self.cell_w,
            r.y == self.y + b.y * self.cell_h,
    {
        proof {
            crate::layout::lemma_u32_product_fits(b.x as int, self.cell_w as int);
            crate::layout::lemma_u32_product_fits(b.y as int, self.cell_h as int);
        }
        Sprite {
            x: self.x as u64 + (b.x as u64) * (self.cell_w as u64),
            y: self.y as u64 + (b.y as u64) * (self.cell_h as u64),
            w: self.cell_w,
            h: self.cell_h,
            colour: b.colour,
        }
    }

    /// Places each block of `blocks`, in order, onto `out`.
    pub fn place_all(&self, blocks: &Vec<Block>, out: &mut Vec<Sprite>)
        ensures
            final(out)@ == old(out)@ + blocks@.map_values(|b: Block| self.place_spec(b)),
    {
        let ghost start = old(out)@;
        let mut i: usize = 0;
        while i < blocks.len()
            invariant
                i <= blocks@.len(),
                out@ == start + blocks@.subrange(0, i as int).map_values(|b: Block| self.place_spec(b)),
            decreases blocks@.len() - i,
        {
            let s = self.place(blocks[i]);
            out.push(s);
            i = i + 1;
            assert(blocks@.subrange(0, i as int).map_values(|b: Block| self.place_spec(b))
                =~= blocks@.subrange(0, i - 1).map_values(|b: Block| self.place_spec(b)).push(s));
        }
        assert(blocks@.subrange(0, i as int) =~= blocks@);
    }
}

/// What a frame shows: the title banner at the title region where the layout
/// has one, then the board at the board region.
pub open spec fn frame_spec(layout: Layout, grid_w: int, grid_h: int, cells: Seq<Colour>) -> Seq<Sprite> {
    let title = match layout.title {
        Some(t) => title_banner().map_values(|b: Block| t.place_spec(b)),
        None => Seq::empty(),
    };
    title + board_picture(grid_w, grid_h, cells).map_values(|b: Block| layout.board.place_spec(b))
}

/// The sprites of one frame of a `grid_w x grid_h` board whose cells are
/// `cells`, row by row, drawn with `layout`.
pub fn frame(layout: &Layout, grid_w: u32, grid_h: u32, cells: &Vec<Colour>) -> (r: Vec<Sprite>)
    requires
        cells@.len() == grid_w * grid_h,
        grid_w <= u32::MAX - 2,
        grid_h <= u32::MAX - 1,
        board_across(grid_w as int) * board_down(grid_h as int) <= usize::MAX,
    ensures
        r@ == frame_spec(*layout, grid_w as int, grid_h as int, cells@),
{
    let mut out: Vec<Sprite> = Vec::new();
    match layout.title {
        Some(t) => {
            let banner = title_blocks();
            t.place_all(&banner, &mut out);
        },
        None => {},
    }
    let board = board_blocks(grid_w, grid_h, cells);
    layout.board.place_all(&board, &mut out);
    proof {
        let title_part = match layout.title {
            Some(t) => title_banner().map_values(|b: Block| t.place_spec(b)),
            None => Seq::<Sprite>::empty(),
        };
        assert(Seq::<Sprite>::empty() + title_part =~= title_part);
    }
    out
}

} // verus!
