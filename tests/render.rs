use rustris_shell::colour::Colour;
use rustris_shell::layout::{titled_layout, Region};
use rustris_shell::render::Screen;

#[test]
fn screen_starts_without_layout() {
    let s = Screen::new(800, 600);
    assert_eq!((s.width, s.height), (800, 600));
    assert!(s.layout.is_none());
}

#[test]
fn init_game_keeps_titled_layout() {
    let mut s = Screen::new(1920, 1080);
    let l = s.init_game(10, 20);
    assert_eq!(l, titled_layout(1920, 1080, 10, 20));
    assert_eq!(s.layout, Some(l));
    assert_eq!(l.board, Region { x: 732, y: 282, cell_w: 38, cell_h: 38 });
}

#[test]
fn show_game_draws_title_and_board() {
    let mut s = Screen::new(1920, 1080);
    let l = s.init_game(10, 20);
    let mut cells = vec![Colour::Value(-1); 10 * 20];
    cells[0] = Colour::Value(4);
    let sprites = s.show_game(10, 20, &cells);
    assert_eq!(sprites.len(), 72 + 12 * 21);
    let first_cell = sprites[72 + 1];
    assert_eq!(first_cell.colour, Colour::Value(4));
    assert_eq!(first_cell.x, (l.board.x + l.board.cell_w) as u64);
    assert_eq!(first_cell.y, l.board.y as u64);
    let last = sprites[sprites.len() - 1];
    assert_eq!(last.colour, Colour::Wall);
    assert_eq!(last.y + last.h as u64, 1080);
}
