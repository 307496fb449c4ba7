//! Terminal core: a cell grid with scrollback, driven by parsed control
//! sequences, and the encoder that turns keys and mouse events into the bytes
//! a shell expects.

pub mod cell;
pub mod control;
pub mod coordinator;
pub mod dispatch;
pub mod effect;
pub mod event;
pub mod frame;
pub mod grid;
pub mod input;
pub mod laws;
pub mod palette;
pub mod parser;
pub mod state;
pub mod text;
pub mod typing;
