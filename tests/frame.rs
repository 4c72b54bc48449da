use rustris_shell::colour::Colour;
use rustris_shell::frame::{board_blocks, frame, title_blocks, Block, Sprite};
use rustris_shell::layout::{Layout, Region};

fn block(x: u32, y: u32, colour: Colour) -> Block {
    Block { x, y, colour }
}

#[test]
fn title_banner_table() {
    let t = title_blocks();
    assert_eq!(t.len(), 72);
    assert_eq!(t[0], block(1, 1, Colour::Value(1)));
    assert_eq!(t[12], block(6, 1, Colour::Value(6)));
    assert_eq!(t[71], block(28, 5, Colour::Value(2)));
    assert!(t.iter().all(|b| b.x < 29 && b.y < 7));
}

#[test]
fn board_blocks_frame_the_grid() {
    let cells = vec![Colour::Value(0), Colour::Value(1)];
    let b = board_blocks(2, 1, &cells);
    let w = Colour::Wall;
    assert_eq!(
        b,
        vec![
            block(0, 0, w),
            block(1, 0, Colour::Value(0)),
            block(2, 0, Colour::Value(1)),
            block(3, 0, w),
            block(0, 1, w),
            block(1, 1, w),
            block(2, 1, w),
            block(3, 1, w),
        ]
    );
}

#[test]
fn board_blocks_row_major_cells() {
    let cells = vec![
        Colour::Value(0),
        Colour::Value(1),
        Colour::Value(2),
        Colour::Value(3),
        Colour::Value(4),
        Colour::Value(5),
    ];
    let b = board_blocks(3, 2, &cells);
    assert_eq!(b.len(), 5 * 3);
    assert_eq!(b[5 + 1], block(1, 1, Colour::Value(3)));
    assert_eq!(b[5 + 3], block(3, 1, Colour::Value(5)));
    assert_eq!(b[5 + 4], block(4, 1, Colour::Wall));
}

#[test]
fn board_blocks_empty_grid_is_walls() {
    let b = board_blocks(0, 0, &vec![]);
    assert_eq!(b, vec![block(0, 0, Colour::Wall), block(1, 0, Colour::Wall)]);
}

#[test]
fn region_places_blocks() {
    let r = Region { x: 10, y: 20, cell_w: 5, cell_h: 6 };
    assert_eq!(
        r.place(block(3, 2, Colour::Wall)),
        Sprite { x: 25, y: 32, w: 5, h: 6, colour: Colour::Wall }
    );
    let big = Region { x: u32::MAX, y: 0, cell_w: u32::MAX, cell_h: 1 };
    let s = big.place(block(u32::MAX, 1, Colour::Wall));
    assert_eq!(s.x, u32::MAX as u64 + (u32::MAX as u64) * (u32::MAX as u64));
    assert_eq!(s.y, 1);
}

#[test]
fn frame_with_title_then_board() {
    let board = Region { x: 100, y: 50, cell_w: 10, cell_h: 10 };
    let title = Region { x: 7, y: 0, cell_w: 10, cell_h: 10 };
    let cells = vec![Colour::Value(3)];
    let f = frame(&Layout { title: Some(title), board }, 1, 1, &cells);
    assert_eq!(f.len(), 72 + 6);
    assert_eq!(f[0], Sprite { x: 17, y: 10, w: 10, h: 10, colour: Colour::Value(1) });
    assert_eq!(f[72], Sprite { x: 100, y: 50, w: 10, h: 10, colour: Colour::Wall });
    assert_eq!(f[73], Sprite { x: 110, y: 50, w: 10, h: 10, colour: Colour::Value(3) });
    assert_eq!(f[77], Sprite { x: 120, y: 60, w: 10, h: 10, colour: Colour::Wall });
}

#[test]
fn frame_without_title() {
    let board = Region { x: 0, y: 0, cell_w: 2, cell_h: 3 };
    let cells = vec![Colour::Value(9); 10 * 20];
    let f = frame(&Layout { title: None, board }, 10, 20, &cells);
    assert_eq!(f.len(), 12 * 21);
    assert_eq!(f[1], Sprite { x: 2, y: 0, w: 2, h: 3, colour: Colour::Value(9) });
    assert_eq!(f[12 * 21 - 1], Sprite { x: 22, y: 60, w: 2, h: 3, colour: Colour::Wall });
}
