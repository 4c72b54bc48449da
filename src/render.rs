//! The drawing surface's session state: the screen size and the layout
//! computed once per game.
use vstd::prelude::*;
use crate::colour::Colour;
use crate::frame::{Sprite, frame, frame_spec};
use crate::layout::{Layout, TITLE_ROWS, board_across, board_down, titled_layout, titled_layout_spec};

verus! {

/// A screen of a fixed pixel size, with the layout of the current game once
/// one has started.
pub struct Screen {
    pub width: u32,
    pub height: u32,
    pub layout: Option<Layout>,
}

impl Screen {
    /// A screen of `width x height` pixels, before any game.
    pub fn new(width: u32, height: u32) -> (r: Screen)
        ensures
            r.width == width,
            r.height == height,
            r.layout is None,
    {
        Screen { width, height, layout: None }
    }

    /// Starts a game on a `grid_w x grid_h` board: computes and keeps the
    /// title-and-board layout for this screen.
    pub fn init_game(&mut self, grid_w: u32, grid_h: u32) -> (r: Layout)
        requires
            grid_w <= u32::MAX - 2,
            grid_h <= u32::MAX - TITLE_ROWS - 1,
        ensures
            r == titled_layout_spec(old(self).width, old(self).height, grid_w, grid_h),
            final(self).layout == Some(r),
            final(self).width == old(self).width,
            final(self).height == old(self).height,
    {
        let layout = titled_layout(self.width, self.height, grid_w, grid_h);
        self.layout = Some(layout);
        layout
    }

    /// The sprites of the current game's frame, for a `grid_w x grid_h`
    /// board whose cells are `cells`, row by row.
    pub fn show_game(&self, grid_w: u32, grid_h: u32, cells: &Vec<Colour>) -> (r: Vec<Sprite>)
        requires
            self.layout is Some,
            cells@.len() == grid_w * grid_h,
            grid_w <= u32::MAX - 2,
            grid_h <= u32::MAX - 1,
            board_across(grid_w as int) * board_down(grid_h as int) <= usize::MAX,
        ensures
            r@ == frame_spec(self.layout->0, grid_w as int, grid_h as int, cells@),
    {
        match &self.layout {
            Some(layout) => frame(layout, grid_w, grid_h, cells),
            None => Vec::new(),
        }
    }

}

} // verus!
