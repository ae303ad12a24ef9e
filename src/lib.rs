//! A render-state core: tickets for resources created later, the commands that
//! mutate render state, stable-handle resource tables, and the drawing instance
//! that applies commands and lists the draw calls of a frame.
pub mod command;
pub mod drawing;
pub mod frame;
pub mod heightmap;
pub mod laws;
pub mod matrix;
pub mod producer;
pub mod script;
pub mod table;
pub mod texture;
pub mod ticket;

