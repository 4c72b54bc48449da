//! Presentation and control around a falling-block puzzle engine: the
//! pixel layout of the board and title banner, the colour-to-texture
//! mapping, the list of blocks drawn in a frame, and the redraw/termination
//! state machine that drives the interactive loop.
pub mod colour;
pub mod control;
pub mod frame;
pub mod layout;
pub mod render;
