//! The console-management core of a terminal-style rendering context.
//!
//! Any number of consoles, each a grid of character cells with a size and a
//! style of its own, share one window. The registry ([`bterm::BTermInternal`])
//! holds the fonts, the shaders and the consoles; the context
//! ([`bterm::BTerm`]) draws on whichever console is active, maps the mouse
//! from pixels to the cells of each console, and feeds the input state
//! ([`input::Input`]). What a console is, is left to its implementation
//! ([`console::Console`]).

pub mod bterm;
pub mod color;
pub mod console;
pub mod geometry;
pub mod input;
pub mod keycodes;
pub mod proofs;
pub mod rex;
