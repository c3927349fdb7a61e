//! Layered cell grids in the shape of REX Paint sprite files, and drawing
//! one onto a console.

use vstd::prelude::*;
use bracket_color::prelude::RGB;
use crate::color::rgb_of_bytes;
use crate::console::{Console, ConsoleOp};

verus! {

/// The three byte channels of one colour of a sprite file.
#[derive(Debug, Clone, Copy, PartialEq, Eq, Structural)]
pub struct XpColor {
    /// Red component 0..255
    pub r: u8,
    /// Green component 0..255
    pub g: u8,
    /// Blue component 0..255
    pub b: u8,
}

impl XpColor {
    /// Deepest black.
    pub open spec fn spec_black() -> XpColor {
        XpColor { r: 0, g: 0, b: 0 }
    }

    /// Colour 0xff00ff (hot pink), which stands for "see through".
    pub open spec fn spec_transparent() -> XpColor {
        XpColor { r: 255, g: 0, b: 255 }
    }

    /// Constructs a colour from r, g, b values.
    pub fn new(r: u8, g: u8, b: u8) -> (color: XpColor)
        ensures
            color == (XpColor { r, g, b }),
    {
        XpColor { r, g, b }
    }

    /// Deepest black.
    #[verifier::when_used_as_spec(spec_black)]
    pub fn black() -> (color: XpColor)
        ensures
            color == XpColor::spec_black(),
    {
        XpColor { r: 0, g: 0, b: 0 }
    }

    /// Colour 0xff00ff (hot pink), which stands for "see through".
    #[verifier::when_used_as_spec(spec_transparent)]
    pub fn transparent() -> (color: XpColor)
        ensures
            color == XpColor::spec_transparent(),
    {
        XpColor { r: 255, g: 0, b: 255 }
    }

    /// Whether this colour is the transparent one: as the background of a
    /// cell it lets the layer below show through.
    pub fn is_transparent(self) -> (transparent: bool)
        ensures
            transparent == (self == XpColor::transparent()),
    {
        self.r == 255 && self.g == 0 && self.b == 255
    }

    /// The colour as the consoles take it.
    pub open spec fn rgb(self) -> RGB {
        rgb_of_bytes(self.r, self.g, self.b)
    }

    /// Converts the colour into the form that the consoles take.
    pub fn to_rgb(self) -> (color: RGB)
        ensures
            color == self.rgb(),
    {
        RGB::from_u8(self.r, self.g, self.b)
    }
}

/// One cell of a layer: a glyph, a foreground and a background colour.
#[derive(Debug, Clone, Copy, PartialEq, Eq, Structural)]
pub struct XpCell {
    /// Character index
    pub ch: u32,
    /// Foreground colour
    pub fg: XpColor,
    /// Background colour
    pub bg: XpColor,
}

impl XpCell {
    /// The cell of a new layer: glyph 0, black on black.
    pub open spec fn blank() -> XpCell {
        XpCell { ch: 0, fg: XpColor::black(), bg: XpColor::black() }
    }
}

/// A layer as the contracts see it.
pub struct XpLayerView {
    pub width: nat,
    pub height: nat,
    /// The cells, column after column: the cell at column `x`, row `y` is
    /// `cells[x * height + y]`.
    pub cells: Seq<XpCell>,
}

impl XpLayerView {
    /// The layer holds one cell for each place of its grid.
    pub open spec fn well_formed(self) -> bool {
        self.cells.len() == (self.width as int) * (self.height as int)
    }

    /// The cell at column `x`, row `y`.
    pub open spec fn cell(self, x: int, y: int) -> XpCell {
        self.cells[x * (self.height as int) + y]
    }
}

/// A layer of a sprite file: a grid of `width` by `height` cells.
#[derive(Debug, Clone, PartialEq)]
pub struct XpLayer {
    /// Width of layer (in cells)
    pub width: usize,
    /// Height of layer (in cells)
    pub height: usize,
    /// Content of layer, column after column.
    pub cells: Vec<XpCell>,
}

impl View for XpLayer {
    type V = XpLayerView;

    open spec fn view(&self) -> XpLayerView {
        XpLayerView {
            width: self.width as nat,
            height: self.height as nat,
            cells: self.cells@,
        }
    }
}

impl XpLayer {
    /// Constructs a layer of `width` by `height` blank cells.
    pub fn new(width: usize, height: usize) -> (layer: XpLayer)
        requires
            width * height <= usize::MAX,
        ensures
            layer@.width == width,
            layer@.height == height,
            layer@.well_formed(),
            forall|i: int| 0 <= i < width * height ==> layer@.cells[i] == XpCell::blank(),
    {
        let count: usize = width * height;
        let mut cells: Vec<XpCell> = Vec::new();
        let mut i: usize = 0;
        while i < count
            invariant
                i <= count,
                cells@.len() == i,
                forall|j: int| 0 <= j < i ==> cells@[j] == XpCell::blank(),
            decreases count - i,
        {
            cells.push(XpCell { ch: 0, fg: XpColor::black(), bg: XpColor::black() });
            i = i + 1;
        }
        XpLayer { width, height, cells }
    }

    /// The cell at column `x`, row `y`, or `None` outside the grid.
    pub fn get(&self, x: usize, y: usize) -> (cell: Option<&XpCell>)
        requires
            self@.well_formed(),
        ensures
            cell is Some <==> x < self.width && y < self.height,
            cell matches Some(c) ==> *c == self@.cell(x as int, y as int),
    {
        if x < self.width && y < self.height {
            proof {
                lemma_cell_index_in_layer(
                    x as int,
                    y as int,
                    self.width as int,
                    self.height as int,
                );
                assert(x * self.height + y < self.cells.len());
            }
            let index: usize = x * self.height + y;
            Some(&self.cells[index])
        } else {
            None
        }
    }
}

/// In a grid of `width` by `height` cells stored column after column, the
/// cell at column `x`, row `y` has a place below `width * height`.
pub proof fn lemma_cell_index_in_layer(x: int, y: int, width: int, height: int)
    requires
        0 <= x < width,
        0 <= y < height,
    ensures
        0 <= x * height + y < width * height,
        x * height <= x * height + y,
{
    assert(0 <= x * height && (x + 1) * height <= width * height) by (nonlinear_arith)
        requires
            0 <= x < width,
            0 <= height,
    ;
    assert((x + 1) * height == x * height + height) by (nonlinear_arith);
}

/// A sprite file as the contracts see it.
pub struct XpFileView {
    pub version: int,
    pub layers: Seq<XpLayerView>,
}

/// A sprite file: a version number and a stack of layers, bottom first.
#[derive(Debug, Clone, PartialEq)]
pub struct XpFile {
    /// Version number from the file header
    pub version: i32,
    /// Layers of the image
    pub layers: Vec<XpLayer>,
}

impl View for XpFile {
    type V = XpFileView;

    open spec fn view(&self) -> XpFileView {
        XpFileView {
            version: self.version as int,
            layers: Seq::new(self.layers@.len(), |i: int| self.layers@[i]@),
        }
    }
}

/// The glyph that a console is given for the character index `ch`: its
/// lowest eight bits.
pub open spec fn glyph_of(ch: u32) -> u8 {
    (ch % 256) as u8
}

/// What drawing the cell at column `x`, row `y` of a layer asks of a
/// console, when the layer's top left corner goes to (`offset_x`,
/// `offset_y`).
pub open spec fn cell_op(
    layer: XpLayerView,
    x: int,
    y: int,
    offset_x: int,
    offset_y: int,
) -> ConsoleOp {
    let cell = layer.cell(x, y);
    ConsoleOp::SetCell {
        x: (x + offset_x) as i32,
        y: (y + offset_y) as i32,
        fg: cell.fg.rgb(),
        bg: cell.bg.rgb(),
        glyph: glyph_of(cell.ch),
    }
}

/// The requests that draw the first `upto` cells of row `y`, left to right.
/// A cell with the transparent background asks for nothing.
pub open spec fn row_ops(
    layer: XpLayerView,
    y: int,
    upto: nat,
    offset_x: int,
    offset_y: int,
) -> Seq<ConsoleOp>
    decreases upto,
{
    if upto == 0 {
        Seq::empty()
    } else {
        let before = row_ops(layer, y, (upto - 1) as nat, offset_x, offset_y);
        if layer.cell(upto - 1, y).bg == XpColor::transparent() {
            before
        } else {
            before.push(cell_op(layer, upto - 1, y, offset_x, offset_y))
        }
    }
}

/// The requests that draw the first `upto` rows of a layer, top to bottom.
pub open spec fn rows_ops(
    layer: XpLayerView,
    upto: nat,
    offset_x: int,
    offset_y: int,
) -> Seq<ConsoleOp>
    decreases upto,
{
    if upto == 0 {
        Seq::empty()
    } else {
        rows_ops(layer, (upto - 1) as nat, offset_x, offset_y) + row_ops(
            layer,
            upto - 1,
            layer.width,
            offset_x,
            offset_y,
        )
    }
}

/// The requests that draw a whole layer.
pub open spec fn layer_ops(layer: XpLayerView, offset_x: int, offset_y: int) -> Seq<ConsoleOp> {
    rows_ops(layer, layer.height, offset_x, offset_y)
}

/// The requests that draw the first `upto` layers of a file, bottom layer
/// first.
pub open spec fn layers_ops(
    file: XpFileView,
    upto: nat,
    offset_x: int,
    offset_y: int,
) -> Seq<ConsoleOp>
    decreases upto,
{
    if upto == 0 {
        Seq::empty()
    } else {
        layers_ops(file, (upto - 1) as nat, offset_x, offset_y) + layer_ops(
            file.layers[upto - 1],
            offset_x,
            offset_y,
        )
    }
}

/// The requests that draw a whole sprite file.
pub open spec fn sprite_ops(file: XpFileView, offset_x: int, offset_y: int) -> Seq<ConsoleOp> {
    layers_ops(file, file.layers.len(), offset_x, offset_y)
}

/// A layer can be drawn at an offset: it holds a cell for each place of its
/// grid, and each cell's target coordinates are `i32` values.
pub open spec fn layer_fits(layer: XpLayerView, offset_x: int, offset_y: int) -> bool {
    &&& layer.well_formed()
    &&& layer.width > 0 && layer.height > 0 ==> {
        &&& offset_x + layer.width - 1 <= i32::MAX
        &&& offset_y + layer.height - 1 <= i32::MAX
    }
}

/// Every layer of the file can be drawn at the offset.
pub open spec fn sprite_fits(file: XpFileView, offset_x: int, offset_y: int) -> bool {
    forall|i: int|
        0 <= i < file.layers.len() ==> layer_fits(#[trigger] file.layers[i], offset_x, offset_y)
}

/// Whether [`xp_to_console`] may be called with this file and offset.
pub fn sprite_fits_at(xp: &XpFile, offset_x: i32, offset_y: i32) -> (fits: bool)
    ensures
        fits == sprite_fits(xp@, offset_x as int, offset_y as int),
{
    let mut i: usize = 0;
    while i < xp.layers.len()
        invariant
            i <= xp.layers.len(),
            forall|j: int|
                0 <= j < i ==> layer_fits(
                    #[trigger] xp@.layers[j],
                    offset_x as int,
                    offset_y as int,
                ),
        decreases xp.layers.len() - i,
    {
        let layer = &xp.layers[i];
        assert(xp@.layers[i as int] == layer@);
        let len: usize = layer.cells.len();
        let cells_ok = match layer.width.checked_mul(layer.height) {
            Some(count) => count == len,
            None => false,
        };
        let targets_ok = layer.width == 0 || layer.height == 0 || (offset_x as i128
            + layer.width as i128 - 1 <= 0x7fff_ffff && offset_y as i128 + layer.height as i128
            - 1 <= 0x7fff_ffff);
        if !(cells_ok && targets_ok) {
            assert(!layer_fits(xp@.layers[i as int], offset_x as int, offset_y as int));
            return false;
        }
        i = i + 1;
    }
    true
}

/// Applies a sprite file to a console. The sprite's top left corner goes to
/// (`offset_x`, `offset_y`); the layers are drawn bottom first, each row by
/// row; cells whose background is the transparent colour are left out.
pub fn xp_to_console(xp: &XpFile, console: &mut Box<dyn Console>, offset_x: i32, offset_y: i32)
    requires
        sprite_fits(xp@, offset_x as int, offset_y as int),
    ensures
        final(console).model().history == old(console).model().history + sprite_ops(
            xp@,
            offset_x as int,
            offset_y as int,
        ),
{
    let ghost before = console.model().history;
    let ghost ox = offset_x as int;
    let ghost oy = offset_y as int;
    let mut i: usize = 0;
    while i < xp.layers.len()
        invariant
            i <= xp.layers.len(),
            ox == offset_x,
            oy == offset_y,
            sprite_fits(xp@, ox, oy),
            console.model().history == before + layers_ops(xp@, i as nat, ox, oy),
        decreases xp.layers.len() - i,
    {
        let layer = &xp.layers[i];
        let ghost done_layers = layers_ops(xp@, i as nat, ox, oy);
        assert(xp@.layers[i as int] == layer@);
        assert(layer_fits(layer@, ox, oy));
        let mut y: usize = 0;
        while y < layer.height
            invariant
                y <= layer.height,
                ox == offset_x,
                oy == offset_y,
                layer_fits(layer@, ox, oy),
                console.model().history == before + done_layers + rows_ops(
                    layer@,
                    y as nat,
                    ox,
                    oy,
                ),
            decreases layer.height - y,
        {
            let ghost done_rows = rows_ops(layer@, y as nat, ox, oy);
            let mut x: usize = 0;
            while x < layer.width
                invariant
                    x <= layer.width,
                    y < layer.height,
                    ox == offset_x,
                    oy == offset_y,
                    layer_fits(layer@, ox, oy),
                    console.model().history == before + done_layers + done_rows + row_ops(
                        layer@,
                        y as int,
                        x as nat,
                        ox,
                        oy,
                    ),
                decreases layer.width - x,
            {
                let ghost done_cells = row_ops(layer@, y as int, x as nat, ox, oy);
                match layer.get(x, y) {
                    Some(cell) => {
                        if !cell.bg.is_transparent() {
                            let target_x: i32 = (x as i64 + offset_x as i64) as i32;
                            let target_y: i32 = (y as i64 + offset_y as i64) as i32;
                            console.set(
                                target_x,
                                target_y,
                                cell.fg.to_rgb(),
                                cell.bg.to_rgb(),
                                (cell.ch % 256) as u8,
                            );
                            assert(console.model().history == before + done_layers + done_rows
                                + done_cells.push(cell_op(layer@, x as int, y as int, ox, oy)));
                        }
                    },
                    None => {},
                }
                x = x + 1;
            }
            assert(before + done_layers + done_rows + row_ops(
                layer@,
                y as int,
                layer@.width,
                ox,
                oy,
            ) == before + done_layers + (done_rows + row_ops(
                layer@,
                y as int,
                layer@.width,
                ox,
                oy,
            )));
            y = y + 1;
        }
        assert(before + done_layers + layer_ops(layer@, ox, oy) == before + (done_layers
            + layer_ops(layer@, ox, oy)));
        i = i + 1;
    }
}

} // verus!
