//! The drawing capability that every console offers, and the record of what
//! a console has been asked to do.

use vstd::prelude::*;
use bracket_color::prelude::RGB;
use bracket_geometry::prelude::Rect;
use crate::rex::{XpLayer, XpLayerView};

verus! {

/// Where a line of text stands relative to the column it is printed at.
#[derive(Debug, Clone, Copy, PartialEq, Eq, Structural)]
pub enum TextAlign {
    Left,
    Center,
    Right,
}

/// One request that changes a console, with its arguments.
#[allow(inconsistent_fields)]
pub enum ConsoleOp {
    ResizePixels { width: u32, height: u32 },
    Cls,
    ClsBg { background: RGB },
    Print { x: i32, y: i32, text: Seq<char> },
    PrintColor { x: i32, y: i32, fg: RGB, bg: RGB, text: Seq<char> },
    SetCell { x: i32, y: i32, fg: RGB, bg: RGB, glyph: u8 },
    SetBg { x: i32, y: i32, bg: RGB },
    DrawBox { x: i32, y: i32, width: i32, height: i32, fg: RGB, bg: RGB },
    DrawBoxDouble { x: i32, y: i32, width: i32, height: i32, fg: RGB, bg: RGB },
    DrawHollowBox { x: i32, y: i32, width: i32, height: i32, fg: RGB, bg: RGB },
    DrawHollowBoxDouble { x: i32, y: i32, width: i32, height: i32, fg: RGB, bg: RGB },
    DrawBarHorizontal { x: i32, y: i32, width: i32, n: i32, max: i32, fg: RGB, bg: RGB },
    DrawBarVertical { x: i32, y: i32, height: i32, n: i32, max: i32, fg: RGB, bg: RGB },
    FillRegion { target: Rect, glyph: u8, fg: RGB, bg: RGB },
    PrintCentered { y: i32, text: Seq<char> },
    PrintColorCentered { y: i32, fg: RGB, bg: RGB, text: Seq<char> },
    PrintCenteredAt { x: i32, y: i32, text: Seq<char> },
    PrintColorCenteredAt { x: i32, y: i32, fg: RGB, bg: RGB, text: Seq<char> },
    PrintRight { x: i32, y: i32, text: Seq<char> },
    PrintColorRight { x: i32, y: i32, fg: RGB, bg: RGB, text: Seq<char> },
    Printer { x: i32, y: i32, text: Seq<char>, align: TextAlign, background: Option<RGB> },
}

/// What the contracts of this library know of a console: what it answers
/// when asked, and every request that has changed it, oldest first.
pub struct ConsoleModel {
    /// The grid's dimensions in cells, columns first.
    pub char_size: (u32, u32),
    /// The place of the cell at column `x`, row `y` in the console's storage.
    pub cell_index: spec_fn(i32, i32) -> usize,
    /// The console's cells as a layer of a sprite file.
    pub layer: XpLayerView,
    /// The requests that the console has received.
    pub history: Seq<ConsoleOp>,
}

/// A drawing surface made of character cells. Consoles of every kind
/// implement it; the terminal context draws on whichever is active.
///
/// The contracts below are not proved of any console here: they are what an
/// implementation owes. A question is answered from the console's model, and
/// a request that changes the console appends itself to the history of the
/// model. How a console carries a request out (clamping, ignoring what lies
/// outside its grid) is its own business, and nothing is promised of it.
pub trait Console {
    /// The console as the contracts see it. It exists in proofs only: an
    /// implementation that is not verified gives it a body that never runs.
    spec fn model(&self) -> ConsoleModel;

    /// Gets the dimensions of the console in characters.
    fn get_char_size(&self) -> (size: (u32, u32))
        ensures
            size == self.model().char_size,
    ;

    /// Tells the console that the window now has `width` by `height` pixels.
    fn resize_pixels(&mut self, width: u32, height: u32)
        ensures
            final(self).model().history == old(self).model().history.push(
                ConsoleOp::ResizePixels { width, height },
            ),
    ;

    /// Translates x/y coordinates into an index of the console's storage.
    fn at(&self, x: i32, y: i32) -> (index: usize)
        ensures
            index == (self.model().cell_index)(x, y),
    ;

    /// Clears the console.
    fn cls(&mut self)
        ensures
            final(self).model().history == old(self).model().history.push(ConsoleOp::Cls),
    ;

    /// Clears the console to a background colour, if the console supports it.
    fn cls_bg(&mut self, background: RGB)
        ensures
            final(self).model().history == old(self).model().history.push(
                ConsoleOp::ClsBg { background },
            ),
    ;

    /// Prints a string at the given position.
    fn print(&mut self, x: i32, y: i32, output: &str)
        ensures
            final(self).model().history == old(self).model().history.push(
                ConsoleOp::Print { x, y, text: output@ },
            ),
    ;

    /// Prints a string in colour at the given position.
    fn print_color(&mut self, x: i32, y: i32, fg: RGB, bg: RGB, output: &str)
        ensures
            final(self).model().history == old(self).model().history.push(
                ConsoleOp::PrintColor { x, y, fg, bg, text: output@ },
            ),
    ;

    /// Sets one cell to a glyph with a foreground and a background colour.
    fn set(&mut self, x: i32, y: i32, fg: RGB, bg: RGB, glyph: u8)
        ensures
            final(self).model().history == old(self).model().history.push(
                ConsoleOp::SetCell { x, y, fg, bg, glyph },
            ),
    ;

    /// Sets the background colour of one cell.
    fn set_bg(&mut self, x: i32, y: i32, bg: RGB)
        ensures
            final(self).model().history == old(self).model().history.push(
                ConsoleOp::SetBg { x, y, bg },
            ),
    ;

    /// Draws a filled box with a single-line border.
    fn draw_box(&mut self, x: i32, y: i32, width: i32, height: i32, fg: RGB, bg: RGB)
        ensures
            final(self).model().history == old(self).model().history.push(
                ConsoleOp::DrawBox { x, y, width, height, fg, bg },
            ),
    ;

    /// Draws a filled box with a double-line border.
    fn draw_box_double(&mut self, x: i32, y: i32, width: i32, height: i32, fg: RGB, bg: RGB)
        ensures
            final(self).model().history == old(self).model().history.push(
                ConsoleOp::DrawBoxDouble { x, y, width, height, fg, bg },
            ),
    ;

    /// Draws a single-line border and leaves what is inside it.
    fn draw_hollow_box(&mut self, x: i32, y: i32, width: i32, height: i32, fg: RGB, bg: RGB)
        ensures
            final(self).model().history == old(self).model().history.push(
                ConsoleOp::DrawHollowBox { x, y, width, height, fg, bg },
            ),
    ;

    /// Draws a double-line border and leaves what is inside it.
    fn draw_hollow_box_double(
        &mut self,
        x: i32,
        y: i32,
        width: i32,
        height: i32,
        fg: RGB,
        bg: RGB,
    )
        ensures
            final(self).model().history == old(self).model().history.push(
                ConsoleOp::DrawHollowBoxDouble { x, y, width, height, fg, bg },
            ),
    ;

    /// Draws a horizontal bar that shows `n` out of `max`.
    fn draw_bar_horizontal(
        &mut self,
        x: i32,
        y: i32,
        width: i32,
        n: i32,
        max: i32,
        fg: RGB,
        bg: RGB,
    )
        ensures
            final(self).model().history == old(self).model().history.push(
                ConsoleOp::DrawBarHorizontal { x, y, width, n, max, fg, bg },
            ),
    ;

    /// Draws a vertical bar that shows `n` out of `max`.
    fn draw_bar_vertical(
        &mut self,
        x: i32,
        y: i32,
        height: i32,
        n: i32,
        max: i32,
        fg: RGB,
        bg: RGB,
    )
        ensures
            final(self).model().history == old(self).model().history.push(
                ConsoleOp::DrawBarVertical { x, y, height, n, max, fg, bg },
            ),
    ;

    /// Fills a rectangle with one glyph and one pair of colours.
    fn fill_region(&mut self, target: Rect, glyph: u8, fg: RGB, bg: RGB)
        ensures
            final(self).model().history == old(self).model().history.push(
                ConsoleOp::FillRegion { target, glyph, fg, bg },
            ),
    ;

    /// Prints text centred on row `y`.
    fn print_centered(&mut self, y: i32, text: &str)
        ensures
            final(self).model().history == old(self).model().history.push(
                ConsoleOp::PrintCentered { y, text: text@ },
            ),
    ;

    /// Prints coloured text centred on row `y`.
    fn print_color_centered(&mut self, y: i32, fg: RGB, bg: RGB, text: &str)
        ensures
            final(self).model().history == old(self).model().history.push(
                ConsoleOp::PrintColorCentered { y, fg, bg, text: text@ },
            ),
    ;

    /// Prints text centred on the point (`x`, `y`).
    fn print_centered_at(&mut self, x: i32, y: i32, text: &str)
        ensures
            final(self).model().history == old(self).model().history.push(
                ConsoleOp::PrintCenteredAt { x, y, text: text@ },
            ),
    ;

    /// Prints coloured text centred on the point (`x`, `y`).
    fn print_color_centered_at(&mut self, x: i32, y: i32, fg: RGB, bg: RGB, text: &str)
        ensures
            final(self).model().history == old(self).model().history.push(
                ConsoleOp::PrintColorCenteredAt { x, y, fg, bg, text: text@ },
            ),
    ;

    /// Prints text that ends at column `x`.
    fn print_right(&mut self, x: i32, y: i32, text: &str)
        ensures
            final(self).model().history == old(self).model().history.push(
                ConsoleOp::PrintRight { x, y, text: text@ },
            ),
    ;

    /// Prints coloured text that ends at column `x`.
    fn print_color_right(&mut self, x: i32, y: i32, fg: RGB, bg: RGB, text: &str)
        ensures
            final(self).model().history == old(self).model().history.push(
                ConsoleOp::PrintColorRight { x, y, fg, bg, text: text@ },
            ),
    ;

    /// Prints a string whose colours are written inline, as in
    /// `#[blue]This blue text contains a #[pink]pink#[] word`.
    fn printer(&mut self, x: i32, y: i32, output: &str, align: TextAlign, background: Option<RGB>)
        ensures
            final(self).model().history == old(self).model().history.push(
                ConsoleOp::Printer { x, y, text: output@, align, background },
            ),
    ;

    /// The console's cells as a layer of a sprite file.
    fn to_xp_layer(&self) -> (layer: XpLayer)
        ensures
            layer@ == self.model().layer,
    ;
}

} // verus!
