//! The registry of fonts, shaders and consoles, and the terminal context
//! that draws on whichever console is active.

use vstd::prelude::*;
use bracket_color::prelude::RGB;
use bracket_geometry::prelude::{Point, Rect};
use std::convert::TryInto;
use vstd::std_specs::convert::TryIntoSpec;
use crate::console::{Console, ConsoleModel, ConsoleOp, TextAlign};
use crate::geometry::{new_point, point_of};
use crate::input::{BEvent, Input, InputView};
use crate::keycodes::VirtualKeyCode;
use crate::rex::{sprite_fits, sprite_ops, xp_to_console, XpFile, XpLayer, XpLayerView};

verus! {

/// The shader that renders a console with its background.
pub const SHADER_WITH_BACKGROUND: usize = 0;

/// The shader that renders a console without background, for consoles
/// layered on top of others.
pub const SHADER_NO_BACKGROUND: usize = 1;

/// A glyph atlas: the image it is read from and the size of one glyph in
/// pixels.
#[derive(Debug)]
pub struct Font {
    pub bitmap_file: String,
    pub tile_size: (u32, u32),
}

/// A rendering pipeline variant, by the number the backend knows it by.
#[derive(Debug, Clone, Copy)]
pub struct Shader {
    pub id: u32,
}

/// A display console: a console bound to the font and the shader it is
/// rendered with. Public in case you want to access it directly.
pub struct DisplayConsole {
    pub console: Box<dyn Console>,
    pub shader_index: usize,
    pub font_index: usize,
}

/// The registry: the fonts, shaders and consoles that have been registered,
/// each in the order of registration. Nothing is ever removed, so an index
/// into one of the tables stays valid and keeps its meaning.
pub struct BTermInternal {
    pub fonts: Vec<Font>,
    pub shaders: Vec<Shader>,
    pub consoles: Vec<DisplayConsole>,
}

impl BTermInternal {
    /// The model of console `i`.
    pub open spec fn console_model(&self, i: int) -> ConsoleModel {
        self.consoles@[i].console.model()
    }

    /// Creates an empty registry.
    pub fn new() -> (registry: Self)
        ensures
            registry.fonts@.len() == 0,
            registry.shaders@.len() == 0,
            registry.consoles@.len() == 0,
    {
        Self { fonts: Vec::new(), shaders: Vec::new(), consoles: Vec::new() }
    }
}

impl Default for BTermInternal {
    fn default() -> (registry: Self)
        ensures
            registry.fonts@.len() == 0,
            registry.shaders@.len() == 0,
            registry.consoles@.len() == 0,
    {
        Self { fonts: Vec::new(), shaders: Vec::new(), consoles: Vec::new() }
    }
}

/// Why a terminal context could not be made.
#[derive(Debug, Clone, Copy, PartialEq, Eq, Structural)]
pub enum BTermError {
    /// A window dimension is no `u32` value.
    DimensionConversion,
}

impl BTermError {
    /// The error in words.
    pub fn message(&self) -> (text: &'static str)
        ensures
            text@ == "Couldn't convert to u32"@,
    {
        "Couldn't convert to u32"
    }
}

/// A BTerm context: the window's size, the input seen last, and the index
/// of the console that drawing goes to.
#[derive(Debug)]
pub struct BTerm {
    pub width_pixels: u32,
    pub height_pixels: u32,
    pub active_console: usize,
    pub key: Option<VirtualKeyCode>,
    pub mouse_pos: (i32, i32),
    pub left_click: bool,
    pub shift: bool,
    pub control: bool,
    pub alt: bool,
    pub quitting: bool,
    pub post_scanlines: bool,
    pub post_screenburn: bool,
}

impl Clone for BTerm {
    fn clone(&self) -> (copy: Self)
        ensures
            copy == *self,
    {
        BTerm {
            width_pixels: self.width_pixels,
            height_pixels: self.height_pixels,
            active_console: self.active_console,
            key: self.key,
            mouse_pos: self.mouse_pos,
            left_click: self.left_click,
            shift: self.shift,
            control: self.control,
            alt: self.alt,
            quitting: self.quitting,
            post_scanlines: self.post_scanlines,
            post_screenburn: self.post_screenburn,
        }
    }
}

/// `val` clamped to the range from `min` to `max`; `min` where the range is
/// empty.
pub open spec fn clamped(val: int, min: int, max: int) -> int {
    if val < min || max < min {
        min
    } else if val > max {
        max
    } else {
        val
    }
}

/// A simple integer clamper: `min` if `val` is below it, `max` if `val` is
/// above it, else `val`.
pub fn iclamp(val: i32, min: i32, max: i32) -> (clamped_val: i32)
    ensures
        clamped_val == clamped(val as int, min as int, max as int),
        min <= max && val < min ==> clamped_val == min,
        min <= max && val > max ==> clamped_val == max,
        min <= max && min <= val <= max ==> clamped_val == val,
{
    let low: i32 = if val < max { val } else { max };
    if min > low { min } else { low }
}

/// The column (or row) of a grid that a pixel coordinate falls in:
/// `pixel * cells / extent`, clamped to the grid. `cells` is the number of
/// columns, `extent` the window's width in pixels; an extent of 0 counts as
/// 1. No coordinate is above `i32::MAX`, however many cells the grid has.
pub open spec fn tile_coordinate_of(pixel: int, cells: int, extent: int) -> int {
    let divisor = if extent < 1 { 1 } else { extent };
    let last = if cells - 1 > i32::MAX { i32::MAX as int } else { cells - 1 };
    clamped(pixel * cells / divisor, 0, last)
}

/// The tile that a pixel position falls in, for a grid of `char_size`
/// cells in a window of `window` pixels.
pub open spec fn tile_position_of(
    mouse: (i32, i32),
    char_size: (u32, u32),
    window: (u32, u32),
) -> (i32, i32) {
    (
        tile_coordinate_of(mouse.0 as int, char_size.0 as int, window.0 as int) as i32,
        tile_coordinate_of(mouse.1 as int, char_size.1 as int, window.1 as int) as i32,
    )
}

/// A tile coordinate is an `i32` value that is not negative, and lies in
/// the grid where the grid has a cell at all.
pub proof fn lemma_tile_coordinate_in_grid(pixel: int, cells: int, extent: int)
    ensures
        0 <= tile_coordinate_of(pixel, cells, extent) <= i32::MAX,
        cells >= 1 ==> tile_coordinate_of(pixel, cells, extent) <= cells - 1,
        cells <= 0 ==> tile_coordinate_of(pixel, cells, extent) == 0,
{
}

/// On a grid with at least one column and one row, the tile of any pixel
/// position, in a window of any size, lies in the grid.
pub proof fn lemma_tile_position_in_grid(
    mouse: (i32, i32),
    char_size: (u32, u32),
    window: (u32, u32),
)
    requires
        char_size.0 >= 1,
        char_size.1 >= 1,
    ensures
        0 <= tile_position_of(mouse, char_size, window).0 <= char_size.0 - 1,
        0 <= tile_position_of(mouse, char_size, window).1 <= char_size.1 - 1,
{
    lemma_tile_coordinate_in_grid(mouse.0 as int, char_size.0 as int, window.0 as int);
    lemma_tile_coordinate_in_grid(mouse.1 as int, char_size.1 as int, window.1 as int);
}

/// A pixel at or left of the origin falls in column 0.
pub proof fn lemma_tile_coordinate_of_low_pixel(pixel: int, cells: int, extent: int)
    requires
        pixel <= 0,
        cells >= 0,
    ensures
        tile_coordinate_of(pixel, cells, extent) == 0,
{
    let divisor = if extent < 1 { 1 } else { extent };
    assert(pixel * cells <= 0) by (nonlinear_arith)
        requires
            pixel <= 0,
            cells >= 0,
    ;
    assert(pixel * cells / divisor <= 0) by (nonlinear_arith)
        requires
            pixel * cells <= 0,
            divisor >= 1,
    ;
}

/// The column (or row) of a grid of `cells` columns that the pixel
/// coordinate `pixel` falls in, in a window `extent` pixels wide.
pub fn tile_coordinate(pixel: i32, cells: u32, extent: u32) -> (tile: i32)
    ensures
        tile == tile_coordinate_of(pixel as int, cells as int, extent as int),
        0 <= tile,
        cells >= 1 ==> tile <= cells - 1,
{
    let last: i32 = if cells > 0x7fff_ffff { 0x7fff_ffff } else { cells as i32 - 1 };
    let divisor: u64 = if extent < 1 { 1 } else { extent as u64 };
    let scaled: i32 = if pixel <= 0 {
        proof {
            lemma_tile_coordinate_of_low_pixel(pixel as int, cells as int, extent as int);
        }
        0
    } else {
        assert(0 <= (pixel as int) * (cells as int) <= 0x7fff_ffff * 0xffff_ffff)
            by (nonlinear_arith)
            requires
                0 < pixel <= 0x7fff_ffff,
                0 <= cells <= 0xffff_ffff,
        ;
        let quotient: u64 = (pixel as u64) * (cells as u64) / divisor;
        if quotient > 0x7fff_ffff { 0x7fff_ffff } else { quotient as i32 }
    };
    iclamp(scaled, 0, last)
}

/// The tile that the pixel position `mouse` falls in, for a grid of
/// `char_size` cells in a window of `window` pixels.
pub fn tile_position(mouse: (i32, i32), char_size: (u32, u32), window: (u32, u32)) -> (tile: (
    i32,
    i32,
))
    ensures
        tile == tile_position_of(mouse, char_size, window),
        0 <= tile.0 && 0 <= tile.1,
        char_size.0 >= 1 ==> tile.0 <= char_size.0 - 1,
        char_size.1 >= 1 ==> tile.1 <= char_size.1 - 1,
{
    (
        tile_coordinate(mouse.0, char_size.0, window.0),
        tile_coordinate(mouse.1, char_size.1, window.1),
    )
}

/// The registry `after` is `before` with one more font, `font`, at the end
/// of the font table.
pub open spec fn font_added(before: BTermInternal, after: BTermInternal, font: Font) -> bool {
    &&& after.fonts@ == before.fonts@.push(font)
    &&& after.shaders@ == before.shaders@
    &&& after.consoles@ == before.consoles@
}

/// The registry `after` is `before` with one more console, `slot`, at the
/// end of the console table.
pub open spec fn console_added(
    before: BTermInternal,
    after: BTermInternal,
    slot: DisplayConsole,
) -> bool {
    &&& after.fonts@ == before.fonts@
    &&& after.shaders@ == before.shaders@
    &&& after.consoles@ == before.consoles@.push(slot)
    &&& after.consoles@.len() == before.consoles@.len() + 1
    &&& after.consoles@[before.consoles@.len() as int] == slot
    &&& forall|i: int|
        0 <= i < before.consoles@.len() ==> after.consoles@[i] == before.consoles@[i]
}

/// The registry `after` is `before` once console `target` has received the
/// requests `ops`, in their order, and nothing else has happened: the
/// tables have the entries they had, every other console is as it was, and
/// console `target` has kept its font and its shader.
pub open spec fn sent_to(
    before: BTermInternal,
    after: BTermInternal,
    target: int,
    ops: Seq<ConsoleOp>,
) -> bool {
    &&& after.fonts@ == before.fonts@
    &&& after.shaders@ == before.shaders@
    &&& after.consoles@.len() == before.consoles@.len()
    &&& forall|i: int|
        0 <= i < before.consoles@.len() && i != target ==> after.consoles@[i]
            == before.consoles@[i]
    &&& after.consoles@[target].font_index == before.consoles@[target].font_index
    &&& after.consoles@[target].shader_index == before.consoles@[target].shader_index
    &&& after.console_model(target).history == before.console_model(target).history + ops
}

/// The registry `after` is `before` once every console has been told that
/// the window has `width` by `height` pixels, and nothing else has
/// happened.
pub open spec fn resized(
    before: BTermInternal,
    after: BTermInternal,
    width: u32,
    height: u32,
) -> bool {
    &&& after.fonts@ == before.fonts@
    &&& after.shaders@ == before.shaders@
    &&& after.consoles@.len() == before.consoles@.len()
    &&& forall|i: int|
        0 <= i < before.consoles@.len() ==> {
            &&& (#[trigger] after.consoles@[i]).font_index == before.consoles@[i].font_index
            &&& after.consoles@[i].shader_index == before.consoles@[i].shader_index
            &&& after.console_model(i).history == before.console_model(i).history.push(
                ConsoleOp::ResizePixels { width, height },
            )
        }
}

/// Every handle that is valid in `before` is valid in `after` and means
/// the same there: the font table has grown at its end only, and each
/// console is still bound to the font and the shader it had.
pub open spec fn keeps_handles(before: BTermInternal, after: BTermInternal) -> bool {
    &&& before.fonts@.len() <= after.fonts@.len()
    &&& forall|i: int| 0 <= i < before.fonts@.len() ==> after.fonts@[i] == before.fonts@[i]
    &&& before.shaders@.len() <= after.shaders@.len()
    &&& forall|i: int| 0 <= i < before.shaders@.len() ==> after.shaders@[i] == before.shaders@[i]
    &&& before.consoles@.len() <= after.consoles@.len()
    &&& forall|i: int|
        0 <= i < before.consoles@.len() ==> {
            &&& (#[trigger] after.consoles@[i]).font_index == before.consoles@[i].font_index
            &&& after.consoles@[i].shader_index == before.consoles@[i].shader_index
        }
}

/// The layers of a file that holds the whole console stack: the active
/// console's layer first, then those of the other consoles in the order of
/// their registration.
pub open spec fn stack_layers(registry: BTermInternal, active: int) -> Seq<XpLayerView> {
    Seq::new(
        registry.consoles@.len(),
        |j: int|
            if j == 0 {
                registry.console_model(active).layer
            } else if j <= active {
                registry.console_model(j - 1).layer
            } else {
                registry.console_model(j).layer
            },
    )
}

/// A console table with one more slot at its end is longer by one, and
/// holds the slots it held where it held them.
pub proof fn lemma_slot_appended(slots: Seq<DisplayConsole>, slot: DisplayConsole)
    ensures
        slots.push(slot).len() == slots.len() + 1,
        slots.push(slot)[slots.len() as int] == slot,
        forall|i: int| 0 <= i < slots.len() ==> slots.push(slot)[i] == slots[i],
{
}

/// To append one request to a history is to append the sequence that
/// holds it alone.
pub proof fn lemma_push_is_append(history: Seq<ConsoleOp>, op: ConsoleOp)
    ensures
        history.push(op) == history + seq![op],
{
}

/// The registry `after` is `before` with `font` registered, and with
/// `console` registered with that font and the shader that renders
/// backgrounds.
pub open spec fn simple_terminal_added(
    before: BTermInternal,
    after: BTermInternal,
    font: Font,
    console: Box<dyn Console>,
) -> bool {
    let slot = DisplayConsole {
        console,
        font_index: before.fonts@.len() as usize,
        shader_index: SHADER_WITH_BACKGROUND,
    };
    &&& after.fonts@ == before.fonts@.push(font)
    &&& after.shaders@ == before.shaders@
    &&& after.consoles@ == before.consoles@.push(slot)
    &&& after.consoles@.len() == before.consoles@.len() + 1
    &&& after.consoles@[before.consoles@.len() as int] == slot
    &&& forall|i: int|
        0 <= i < before.consoles@.len() ==> after.consoles@[i] == before.consoles@[i]
}

impl BTerm {
    /// The context of a new window of `width` by `height` pixels: console 0
    /// is active, no input has been seen, and no flag is set.
    pub open spec fn initial(width: u32, height: u32) -> BTerm {
        BTerm {
            width_pixels: width,
            height_pixels: height,
            active_console: 0,
            key: None,
            mouse_pos: (0i32, 0i32),
            left_click: false,
            shift: false,
            control: false,
            alt: false,
            quitting: false,
            post_scanlines: false,
            post_screenburn: false,
        }
    }

    /// The tile that the mouse is on, for a console of `char_size` cells.
    pub open spec fn mouse_tile_in(self, char_size: (u32, u32)) -> (i32, i32) {
        tile_position_of(self.mouse_pos, char_size, (self.width_pixels, self.height_pixels))
    }

    /// The tile positions that the input state holds after a mouse move:
    /// one for each registered console, and behind them those that were
    /// there before.
    pub open spec fn mouse_tiles(self, registry: BTermInternal, before: Seq<(i32, i32)>) -> Seq<
        (i32, i32),
    > {
        Seq::new(
            if before.len() < registry.consoles@.len() {
                registry.consoles@.len()
            } else {
                before.len()
            },
            |i: int|
                if i < registry.consoles@.len() {
                    self.mouse_tile_in(registry.console_model(i).char_size)
                } else {
                    before[i]
                },
        )
    }

    /// What making a context gives, for what the two window dimensions
    /// have become as `u32` values: the fresh context for dimensions that
    /// are both `u32` values, and else the error.
    pub open spec fn init_result<E>(width: Result<u32, E>, height: Result<u32, E>) -> Result<
        BTerm,
        BTermError,
    > {
        match (width, height) {
            (Ok(w), Ok(h)) => Ok(BTerm::initial(w, h)),
            _ => Err(BTermError::DimensionConversion),
        }
    }

    /// Makes the context for a window whose dimensions have been converted
    /// to `u32` values, or not.
    pub fn with_dimensions<E>(width: Result<u32, E>, height: Result<u32, E>) -> (context: Result<
        BTerm,
        BTermError,
    >)
        ensures
            context == BTerm::init_result(width, height),
    {
        match (width, height) {
            (Ok(w), Ok(h)) => Ok(
                BTerm {
                    width_pixels: w,
                    height_pixels: h,
                    active_console: 0,
                    key: None,
                    mouse_pos: (0, 0),
                    left_click: false,
                    shift: false,
                    control: false,
                    alt: false,
                    quitting: false,
                    post_scanlines: false,
                    post_screenburn: false,
                },
            ),
            _ => Err(BTermError::DimensionConversion),
        }
    }

    /// Makes the context for a window of `width_pixels` by `height_pixels`
    /// pixels. Fails if one of the two is no `u32` value. Whether it is one
    /// is for `T` to say; where `T` converts as its specification says, the
    /// result is that of the specified conversions.
    pub fn init_raw<T: TryInto<u32>>(width_pixels: T, height_pixels: T) -> (context: Result<
        BTerm,
        BTermError,
    >)
        ensures
            exists|
                w: Result<u32, <T as TryInto<u32>>::Error>,
                h: Result<u32, <T as TryInto<u32>>::Error>,
            |
                call_ensures(<T as TryInto<u32>>::try_into, (width_pixels,), w) && call_ensures(
                    <T as TryInto<u32>>::try_into,
                    (height_pixels,),
                    h,
                ) && context == BTerm::init_result(w, h),
            <T as TryIntoSpec<u32>>::obeys_try_into_spec() ==> context == BTerm::init_result(
                width_pixels.try_into_spec(),
                height_pixels.try_into_spec(),
            ),
    {
        let w = width_pixels.try_into();
        let h = height_pixels.try_into();
        BTerm::with_dimensions(w, h)
    }

    /// Quick initialization for when you just want an 8x8 font terminal:
    /// makes the context for a window of `width_chars` by `height_chars`
    /// glyphs of 8 by 8 pixels, and registers `font` and `console`.
    pub fn init_simple8x8<T: TryInto<u32>>(
        bi: &mut BTermInternal,
        width_chars: T,
        height_chars: T,
        font: Font,
        console: Box<dyn Console>,
    ) -> (context: BTerm)
        requires
            <T as TryIntoSpec<u32>>::obeys_try_into_spec(),
            width_chars.try_into_spec() matches Ok(w) && w * 8 <= u32::MAX,
            height_chars.try_into_spec() matches Ok(h) && h * 8 <= u32::MAX,
        ensures
            context == BTerm::initial(
                (width_chars.try_into_spec()->Ok_0 * 8) as u32,
                (height_chars.try_into_spec()->Ok_0 * 8) as u32,
            ),
            simple_terminal_added(*old(bi), *final(bi), font, console),
    {
        let w: u32 = match width_chars.try_into() {
            Ok(w) => w,
            Err(_) => unreached(),
        };
        let h: u32 = match height_chars.try_into() {
            Ok(h) => h,
            Err(_) => unreached(),
        };
        let mut context = BTerm {
            width_pixels: w * 8,
            height_pixels: h * 8,
            active_console: 0,
            key: None,
            mouse_pos: (0, 0),
            left_click: false,
            shift: false,
            control: false,
            alt: false,
            quitting: false,
            post_scanlines: false,
            post_screenburn: false,
        };
        let font_index = match context.register_font(bi, font) {
            Ok(index) => index,
            Err(_) => unreached(),
        };
        context.register_console(bi, console, font_index);
        context
    }

    /// Quick initialization for when you just want an 8x16 VGA font
    /// terminal: makes the context for a window of `width_chars` by
    /// `height_chars` glyphs of 8 by 16 pixels, and registers `font` and
    /// `console`.
    pub fn init_simple8x16<T: TryInto<u32>>(
        bi: &mut BTermInternal,
        width_chars: T,
        height_chars: T,
        font: Font,
        console: Box<dyn Console>,
    ) -> (context: BTerm)
        requires
            <T as TryIntoSpec<u32>>::obeys_try_into_spec(),
            width_chars.try_into_spec() matches Ok(w) && w * 8 <= u32::MAX,
            height_chars.try_into_spec() matches Ok(h) && h * 16 <= u32::MAX,
        ensures
            context == BTerm::initial(
                (width_chars.try_into_spec()->Ok_0 * 8) as u32,
                (height_chars.try_into_spec()->Ok_0 * 16) as u32,
            ),
            simple_terminal_added(*old(bi), *final(bi), font, console),
    {
        let w: u32 = match width_chars.try_into() {
            Ok(w) => w,
            Err(_) => unreached(),
        };
        let h: u32 = match height_chars.try_into() {
            Ok(h) => h,
            Err(_) => unreached(),
        };
        let mut context = BTerm {
            width_pixels: w * 8,
            height_pixels: h * 16,
            active_console: 0,
            key: None,
            mouse_pos: (0, 0),
            left_click: false,
            shift: false,
            control: false,
            alt: false,
            quitting: false,
            post_scanlines: false,
            post_screenburn: false,
        };
        let font_index = match context.register_font(bi, font) {
            Ok(index) => index,
            Err(_) => unreached(),
        };
        context.register_console(bi, console, font_index);
        context
    }

    /// Registers a font, and returns its handle number.
    pub fn register_font(&mut self, bi: &mut BTermInternal, font: Font) -> (handle: Result<
        usize,
        BTermError,
    >)
        ensures
            *final(self) == *old(self),
            handle == Ok::<usize, BTermError>(old(bi).fonts@.len() as usize),
            font_added(*old(bi), *final(bi), font),
    {
        bi.fonts.push(font);
        Ok(bi.fonts.len() - 1)
    }

    /// Registers a new console terminal for output, and returns its handle
    /// number.
    pub fn register_console(
        &mut self,
        bi: &mut BTermInternal,
        new_console: Box<dyn Console>,
        font_index: usize,
    ) -> (handle: usize)
        ensures
            *final(self) == *old(self),
            handle == old(bi).consoles@.len(),
            console_added(
                *old(bi),
                *final(bi),
                DisplayConsole {
                    console: new_console,
                    font_index,
                    shader_index: SHADER_WITH_BACKGROUND,
                },
            ),
    {
        let slot = DisplayConsole { console: new_console, font_index, shader_index: 0 };
        bi.consoles.push(slot);
        proof {
            lemma_slot_appended(old(bi).consoles@, slot);
        }
        bi.consoles.len() - 1
    }

    /// Registers a new console terminal for output, and returns its handle
    /// number. This variant requests that the new console not render
    /// background colours, so it can be layered on top of other consoles.
    pub fn register_console_no_bg(
        &mut self,
        bi: &mut BTermInternal,
        new_console: Box<dyn Console>,
        font_index: usize,
    ) -> (handle: usize)
        ensures
            *final(self) == *old(self),
            handle == old(bi).consoles@.len(),
            console_added(
                *old(bi),
                *final(bi),
                DisplayConsole {
                    console: new_console,
                    font_index,
                    shader_index: SHADER_NO_BACKGROUND,
                },
            ),
    {
        let slot = DisplayConsole { console: new_console, font_index, shader_index: 1 };
        bi.consoles.push(slot);
        proof {
            lemma_slot_appended(old(bi).consoles@, slot);
        }
        bi.consoles.len() - 1
    }

    /// Sets the currently active console number. The number is not checked:
    /// it has to be that of a registered console by the next call that
    /// draws.
    pub fn set_active_console(&mut self, id: usize)
        ensures
            *final(self) == (BTerm { active_console: id, ..*old(self) }),
    {
        self.active_console = id;
    }

    /// Applies the current physical mouse position to the active console,
    /// and translates the coordinates into that console's coordinate space.
    pub fn mouse_pos(&self, bi: &BTermInternal) -> (tile: (i32, i32))
        requires
            self.active_console < bi.consoles@.len(),
        ensures
            tile == self.mouse_tile_in(bi.console_model(self.active_console as int).char_size),
            0 <= tile.0 && 0 <= tile.1,
            bi.console_model(self.active_console as int).char_size.0 >= 1 ==> tile.0
                <= bi.console_model(self.active_console as int).char_size.0 - 1,
            bi.console_model(self.active_console as int).char_size.1 >= 1 ==> tile.1
                <= bi.console_model(self.active_console as int).char_size.1 - 1,
    {
        let max_sizes = bi.consoles[self.active_console].console.get_char_size();
        tile_position(self.mouse_pos, max_sizes, (self.width_pixels, self.height_pixels))
    }

    /// Applies the current physical mouse position to the active console,
    /// and translates the coordinates into that console's coordinate space.
    pub fn mouse_point(&self, bi: &BTermInternal) -> (tile: Point)
        requires
            self.active_console < bi.consoles@.len(),
        ensures
            tile == point_of(
                self.mouse_tile_in(bi.console_model(self.active_console as int).char_size).0,
                self.mouse_tile_in(bi.console_model(self.active_console as int).char_size).1,
            ),
    {
        let (x, y) = self.mouse_pos(bi);
        new_point(x, y)
    }

    /// Tells the game to quit.
    pub fn quit(&mut self)
        ensures
            *final(self) == (BTerm { quitting: true, ..*old(self) }),
    {
        self.quitting = true;
    }

    /// Renders a REX Paint file as a sprite on the active console. The
    /// sprite's top left corner goes to (`x`, `y`). Transparent cells are
    /// not rendered.
    pub fn render_xp_sprite(&mut self, bi: &mut BTermInternal, xp: &XpFile, x: i32, y: i32)
        requires
            old(self).active_console < old(bi).consoles@.len(),
            sprite_fits(xp@, x as int, y as int),
        ensures
            *final(self) == *old(self),
            sent_to(
                *old(bi),
                *final(bi),
                old(self).active_console as int,
                sprite_ops(xp@, x as int, y as int),
            ),
    {
        xp_to_console(xp, &mut bi.consoles[self.active_console].console, x, y);
    }

    /// Saves the entire console stack to a REX Paint file: one layer for
    /// each console, the active console's layer first, then the others in
    /// the order of their registration. Each layer has the size of its
    /// console, whatever `width` and `height` say.
    pub fn to_xp_file(&self, bi: &BTermInternal, width: usize, height: usize) -> (xp: XpFile)
        requires
            self.active_console < bi.consoles@.len(),
        ensures
            xp@.version == -1,
            xp@.layers == stack_layers(*bi, self.active_console as int),
    {
        let mut layers: Vec<XpLayer> = Vec::new();
        layers.push(bi.consoles[self.active_console].console.to_xp_layer());
        let mut i: usize = 0;
        while i < bi.consoles.len()
            invariant
                i <= bi.consoles@.len(),
                self.active_console < bi.consoles@.len(),
                layers@.len() == if i <= self.active_console { i + 1 } else { i as int },
                forall|j: int|
                    0 <= j < layers@.len() ==> (#[trigger] layers@[j])@ == stack_layers(
                        *bi,
                        self.active_console as int,
                    )[j],
            decreases bi.consoles@.len() - i,
        {
            if i != self.active_console {
                layers.push(bi.consoles[i].console.to_xp_layer());
            }
            i = i + 1;
        }
        let xp = XpFile { version: -1, layers };
        assert(xp@.layers =~= stack_layers(*bi, self.active_console as int));
        xp
    }

    /// Enables the scanlines post-processing effect, with screen burn if
    /// `with_burn` is set.
    pub fn with_post_scanlines(&mut self, with_burn: bool)
        ensures
            *final(self) == (BTerm {
                post_scanlines: true,
                post_screenburn: with_burn,
                ..*old(self)
            }),
    {
        self.post_scanlines = true;
        self.post_screenburn = with_burn;
    }

    /// Marks a key press or release: the key becomes the last key seen, the
    /// key's state is recorded, and the event is logged.
    pub fn on_key(&mut self, input: &mut Input, key: VirtualKeyCode, scan_code: u32, pressed: bool)
        ensures
            *final(self) == (BTerm { key: Some(key), ..*old(self) }),
            final(input)@ == (if pressed {
                old(input)@.key_down(key)
            } else {
                old(input)@.key_up(key)
            }).logged(BEvent::KeyboardInput { key, scan_code, pressed }),
    {
        self.key = Some(key);
        if pressed {
            input.on_key_down(key);
        } else {
            input.on_key_up(key);
        }
        input.push_event(BEvent::KeyboardInput { key, scan_code, pressed });
    }

    /// Marks a mouse button press or release: button 0 sets the left-click
    /// flag, the button's state is recorded, and the event is logged.
    pub fn on_mouse_button(&mut self, input: &mut Input, button_num: usize, pressed: bool)
        ensures
            *final(self) == (BTerm {
                left_click: button_num == 0 || old(self).left_click,
                ..*old(self)
            }),
            final(input)@ == (if pressed {
                old(input)@.button_down(button_num)
            } else {
                old(input)@.button_up(button_num)
            }).logged(BEvent::MouseClick { button: button_num, pressed }),
    {
        if button_num == 0 {
            self.left_click = true;
        }
        if pressed {
            input.on_mouse_button_down(button_num);
        } else {
            input.on_mouse_button_up(button_num);
        }
        input.push_event(BEvent::MouseClick { button: button_num, pressed });
    }

    /// Marks a mouse move to pixel (`x`, `y`): the position is kept in the
    /// context and in the input state, the move is logged, and the tile
    /// position of every registered console is recorded, whichever console
    /// is active.
    pub fn on_mouse_position(&mut self, bi: &BTermInternal, input: &mut Input, x: i32, y: i32)
        ensures
            *final(self) == (BTerm { mouse_pos: (x, y), ..*old(self) }),
            final(input)@ == (InputView {
                mouse_tile: final(self).mouse_tiles(*bi, old(input)@.mouse_tile),
                ..old(input)@.pixel_moved(x, y)
            }),
    {
        self.mouse_pos = (x, y);
        input.on_mouse_pixel_position(x, y);
        let ghost moved = input@;
        let mut i: usize = 0;
        while i < bi.consoles.len()
            invariant
                i <= bi.consoles@.len(),
                *self == (BTerm { mouse_pos: (x, y), ..*old(self) }),
                moved == old(input)@.pixel_moved(x, y),
                input@ == (InputView { mouse_tile: input@.mouse_tile, ..moved }),
                input@.mouse_tile.len() == if moved.mouse_tile.len() < i {
                    i as nat
                } else {
                    moved.mouse_tile.len()
                },
                forall|j: int|
                    0 <= j < input@.mouse_tile.len() ==> input@.mouse_tile[j] == if j < i {
                        self.mouse_tile_in(bi.console_model(j).char_size)
                    } else {
                        moved.mouse_tile[j]
                    },
            decreases bi.consoles@.len() - i,
        {
            let max_sizes = bi.consoles[i].console.get_char_size();
            let tile = tile_position(
                self.mouse_pos,
                max_sizes,
                (self.width_pixels, self.height_pixels),
            );
            input.on_mouse_tile_position(i, tile.0, tile.1);
            i = i + 1;
        }
        assert(input@.mouse_tile =~= self.mouse_tiles(*bi, old(input)@.mouse_tile));
    }

    /// Records an event from the backend in the log.
    pub fn on_event(&mut self, input: &mut Input, event: BEvent)
        ensures
            *final(self) == *old(self),
            final(input)@ == old(input)@.logged(event),
    {
        input.push_event(event);
    }

    /// Gets the dimensions of the active console in characters.
    pub fn get_char_size(&self, bi: &BTermInternal) -> (size: (u32, u32))
        requires
            self.active_console < bi.consoles@.len(),
        ensures
            size == bi.console_model(self.active_console as int).char_size,
    {
        bi.consoles[self.active_console].console.get_char_size()
    }

    /// Keeps the window's new size, and tells every registered console of
    /// it, whichever console is active.
    pub fn resize_pixels(&mut self, bi: &mut BTermInternal, width: u32, height: u32)
        ensures
            *final(self) == (BTerm { width_pixels: width, height_pixels: height, ..*old(self) }),
            resized(*old(bi), *final(bi), width, height),
    {
        self.width_pixels = width;
        self.height_pixels = height;
        let mut i: usize = 0;
        while i < bi.consoles.len()
            invariant
                i <= bi.consoles@.len(),
                bi.fonts@ == old(bi).fonts@,
                bi.shaders@ == old(bi).shaders@,
                bi.consoles@.len() == old(bi).consoles@.len(),
                forall|j: int|
                    0 <= j < i ==> {
                        &&& (#[trigger] bi.consoles@[j]).font_index == old(
                            bi,
                        ).consoles@[j].font_index
                        &&& bi.consoles@[j].shader_index == old(bi).consoles@[j].shader_index
                        &&& bi.console_model(j).history == old(bi).console_model(j).history.push(
                            ConsoleOp::ResizePixels { width, height },
                        )
                    },
                forall|j: int|
                    i <= j < bi.consoles@.len() ==> (#[trigger] bi.consoles@[j]) == old(
                        bi,
                    ).consoles@[j],
            decreases bi.consoles@.len() - i,
        {
            bi.consoles[i].console.resize_pixels(width, height);
            i = i + 1;
        }
    }

    /// Translates x/y coordinates into an index of the active console's
    /// storage.
    pub fn at(&self, bi: &BTermInternal, x: i32, y: i32) -> (index: usize)
        requires
            self.active_console < bi.consoles@.len(),
        ensures
            index == (bi.console_model(self.active_console as int).cell_index)(x, y),
    {
        bi.consoles[self.active_console].console.at(x, y)
    }

    /// Clears the active console.
    pub fn cls(&mut self, bi: &mut BTermInternal)
        requires
            old(self).active_console < old(bi).consoles@.len(),
        ensures
            *final(self) == *old(self),
            sent_to(
                *old(bi),
                *final(bi),
                old(self).active_console as int,
                seq![ConsoleOp::Cls],
            ),
    {
        let ghost history = bi.console_model(self.active_console as int).history;
        bi.consoles[self.active_console].console.cls();
        proof {
            lemma_push_is_append(history, ConsoleOp::Cls);
        }
    }

    /// Clears the active console to a background colour.
    pub fn cls_bg(&mut self, bi: &mut BTermInternal, background: RGB)
        requires
            old(self).active_console < old(bi).consoles@.len(),
        ensures
            *final(self) == *old(self),
            sent_to(
                *old(bi),
                *final(bi),
                old(self).active_console as int,
                seq![ConsoleOp::ClsBg { background }],
            ),
    {
        let ghost history = bi.console_model(self.active_console as int).history;
        bi.consoles[self.active_console].console.cls_bg(background);
        proof {
            lemma_push_is_append(history, ConsoleOp::ClsBg { background });
        }
    }

    /// Prints a string on the active console.
    pub fn print(&mut self, bi: &mut BTermInternal, x: i32, y: i32, output: &str)
        requires
            old(self).active_console < old(bi).consoles@.len(),
        ensures
            *final(self) == *old(self),
            sent_to(
                *old(bi),
                *final(bi),
                old(self).active_console as int,
                seq![ConsoleOp::Print { x, y, text: output@ }],
            ),
    {
        let ghost history = bi.console_model(self.active_console as int).history;
        bi.consoles[self.active_console].console.print(x, y, output);
        proof {
            lemma_push_is_append(history, ConsoleOp::Print { x, y, text: output@ });
        }
    }

    /// Prints a string in colour on the active console.
    pub fn print_color(
        &mut self,
        bi: &mut BTermInternal,
        x: i32,
        y: i32,
        fg: RGB,
        bg: RGB,
        output: &str,
    )
        requires
            old(self).active_console < old(bi).consoles@.len(),
        ensures
            *final(self) == *old(self),
            sent_to(
                *old(bi),
                *final(bi),
                old(self).active_console as int,
                seq![ConsoleOp::PrintColor { x, y, fg, bg, text: output@ }],
            ),
    {
        let ghost history = bi.console_model(self.active_console as int).history;
        bi.consoles[self.active_console].console.print_color(x, y, fg, bg, output);
        proof {
            lemma_push_is_append(history, ConsoleOp::PrintColor { x, y, fg, bg, text: output@ });
        }
    }

    /// Sets one cell of the active console.
    pub fn set(&mut self, bi: &mut BTermInternal, x: i32, y: i32, fg: RGB, bg: RGB, glyph: u8)
        requires
            old(self).active_console < old(bi).consoles@.len(),
        ensures
            *final(self) == *old(self),
            sent_to(
                *old(bi),
                *final(bi),
                old(self).active_console as int,
                seq![ConsoleOp::SetCell { x, y, fg, bg, glyph }],
            ),
    {
        let ghost history = bi.console_model(self.active_console as int).history;
        bi.consoles[self.active_console].console.set(x, y, fg, bg, glyph);
        proof {
            lemma_push_is_append(history, ConsoleOp::SetCell { x, y, fg, bg, glyph });
        }
    }

    /// Sets the background of one cell of the active console.
    pub fn set_bg(&mut self, bi: &mut BTermInternal, x: i32, y: i32, bg: RGB)
        requires
            old(self).active_console < old(bi).consoles@.len(),
        ensures
            *final(self) == *old(self),
            sent_to(
                *old(bi),
                *final(bi),
                old(self).active_console as int,
                seq![ConsoleOp::SetBg { x, y, bg }],
            ),
    {
        let ghost history = bi.console_model(self.active_console as int).history;
        bi.consoles[self.active_console].console.set_bg(x, y, bg);
        proof {
            lemma_push_is_append(history, ConsoleOp::SetBg { x, y, bg });
        }
    }

    /// Draws a filled box with a single-line border on the active console.
    pub fn draw_box(
        &mut self,
        bi: &mut BTermInternal,
        x: i32,
        y: i32,
        width: i32,
        height: i32,
        fg: RGB,
        bg: RGB,
    )
        requires
            old(self).active_console < old(bi).consoles@.len(),
        ensures
            *final(self) == *old(self),
            sent_to(
                *old(bi),
                *final(bi),
                old(self).active_console as int,
                seq![ConsoleOp::DrawBox { x, y, width, height, fg, bg }],
            ),
    {
        let ghost history = bi.console_model(self.active_console as int).history;
        bi.consoles[self.active_console].console.draw_box(x, y, width, height, fg, bg);
        proof {
            lemma_push_is_append(history, ConsoleOp::DrawBox { x, y, width, height, fg, bg });
        }
    }

    /// Draws a filled box with a double-line border on the active console.
    pub fn draw_box_double(
        &mut self,
        bi: &mut BTermInternal,
        x: i32,
        y: i32,
        width: i32,
        height: i32,
        fg: RGB,
        bg: RGB,
    )
        requires
            old(self).active_console < old(bi).consoles@.len(),
        ensures
            *final(self) == *old(self),
            sent_to(
                *old(bi),
                *final(bi),
                old(self).active_console as int,
                seq![ConsoleOp::DrawBoxDouble { x, y, width, height, fg, bg }],
            ),
    {
        let ghost history = bi.console_model(self.active_console as int).history;
        bi.consoles[self.active_console].console.draw_box_double(x, y, width, height, fg, bg);
        proof {
            lemma_push_is_append(history, ConsoleOp::DrawBoxDouble { x, y, width, height, fg, bg });
        }
    }

    /// Draws a single-line border on the active console.
    pub fn draw_hollow_box(
        &mut self,
        bi: &mut BTermInternal,
        x: i32,
        y: i32,
        width: i32,
        height: i32,
        fg: RGB,
        bg: RGB,
    )
        requires
            old(self).active_console < old(bi).consoles@.len(),
        ensures
            *final(self) == *old(self),
            sent_to(
                *old(bi),
                *final(bi),
                old(self).active_console as int,
                seq![ConsoleOp::DrawHollowBox { x, y, width, height, fg, bg }],
            ),
    {
        let ghost history = bi.console_model(self.active_console as int).history;
        bi.consoles[self.active_console].console.draw_hollow_box(x, y, width, height, fg, bg);
        proof {
            lemma_push_is_append(history, ConsoleOp::DrawHollowBox { x, y, width, height, fg, bg });
        }
    }

    /// Draws a double-line border on the active console.
    pub fn draw_hollow_box_double(
        &mut self,
        bi: &mut BTermInternal,
        x: i32,
        y: i32,
        width: i32,
        height: i32,
        fg: RGB,
        bg: RGB,
    )
        requires
            old(self).active_console < old(bi).consoles@.len(),
        ensures
            *final(self) == *old(self),
            sent_to(
                *old(bi),
                *final(bi),
                old(self).active_console as int,
                seq![ConsoleOp::DrawHollowBoxDouble { x, y, width, height, fg, bg }],
            ),
    {
        let ghost history = bi.console_model(self.active_console as int).history;
        bi.consoles[self.active_console].console.draw_hollow_box_double(
            x,
            y,
            width,
            height,
            fg,
            bg,
        );
        proof {
            lemma_push_is_append(
                history,
                ConsoleOp::DrawHollowBoxDouble { x, y, width, height, fg, bg },
            );
        }
    }

    /// Draws a horizontal bar that shows `n` out of `max` on the active
    /// console.
    pub fn draw_bar_horizontal(
        &mut self,
        bi: &mut BTermInternal,
        x: i32,
        y: i32,
        width: i32,
        n: i32,
        max: i32,
        fg: RGB,
        bg: RGB,
    )
        requires
            old(self).active_console < old(bi).consoles@.len(),
        ensures
            *final(self) == *old(self),
            sent_to(
                *old(bi),
                *final(bi),
                old(self).active_console as int,
                seq![ConsoleOp::DrawBarHorizontal { x, y, width, n, max, fg, bg }],
            ),
    {
        let ghost history = bi.console_model(self.active_console as int).history;
        bi.consoles[self.active_console].console.draw_bar_horizontal(x, y, width, n, max, fg, bg);
        proof {
            lemma_push_is_append(
                history,
                ConsoleOp::DrawBarHorizontal { x, y, width, n, max, fg, bg },
            );
        }
    }

    /// Draws a vertical bar that shows `n` out of `max` on the active
    /// console.
    pub fn draw_bar_vertical(
        &mut self,
        bi: &mut BTermInternal,
        x: i32,
        y: i32,
        height: i32,
        n: i32,
        max: i32,
        fg: RGB,
        bg: RGB,
    )
        requires
            old(self).active_console < old(bi).consoles@.len(),
        ensures
            *final(self) == *old(self),
            sent_to(
                *old(bi),
                *final(bi),
                old(self).active_console as int,
                seq![ConsoleOp::DrawBarVertical { x, y, height, n, max, fg, bg }],
            ),
    {
        let ghost history = bi.console_model(self.active_console as int).history;
        bi.consoles[self.active_console].console.draw_bar_vertical(x, y, height, n, max, fg, bg);
        proof {
            lemma_push_is_append(
                history,
                ConsoleOp::DrawBarVertical { x, y, height, n, max, fg, bg },
            );
        }
    }

    /// Fills a rectangle of the active console.
    pub fn fill_region(&mut self, bi: &mut BTermInternal, target: Rect, glyph: u8, fg: RGB, bg: RGB)
        requires
            old(self).active_console < old(bi).consoles@.len(),
        ensures
            *final(self) == *old(self),
            sent_to(
                *old(bi),
                *final(bi),
                old(self).active_console as int,
                seq![ConsoleOp::FillRegion { target, glyph, fg, bg }],
            ),
    {
        let ghost history = bi.console_model(self.active_console as int).history;
        bi.consoles[self.active_console].console.fill_region(target, glyph, fg, bg);
        proof {
            lemma_push_is_append(history, ConsoleOp::FillRegion { target, glyph, fg, bg });
        }
    }

    /// Prints text centred on a row of the active console.
    pub fn print_centered(&mut self, bi: &mut BTermInternal, y: i32, text: &str)
        requires
            old(self).active_console < old(bi).consoles@.len(),
        ensures
            *final(self) == *old(self),
            sent_to(
                *old(bi),
                *final(bi),
                old(self).active_console as int,
                seq![ConsoleOp::PrintCentered { y, text: text@ }],
            ),
    {
        let ghost history = bi.console_model(self.active_console as int).history;
        bi.consoles[self.active_console].console.print_centered(y, text);
        proof {
            lemma_push_is_append(history, ConsoleOp::PrintCentered { y, text: text@ });
        }
    }

    /// Prints coloured text centred on a row of the active console.
    pub fn print_color_centered(
        &mut self,
        bi: &mut BTermInternal,
        y: i32,
        fg: RGB,
        bg: RGB,
        text: &str,
    )
        requires
            old(self).active_console < old(bi).consoles@.len(),
        ensures
            *final(self) == *old(self),
            sent_to(
                *old(bi),
                *final(bi),
                old(self).active_console as int,
                seq![ConsoleOp::PrintColorCentered { y, fg, bg, text: text@ }],
            ),
    {
        let ghost history = bi.console_model(self.active_console as int).history;
        bi.consoles[self.active_console].console.print_color_centered(y, fg, bg, text);
        proof {
            lemma_push_is_append(history, ConsoleOp::PrintColorCentered { y, fg, bg, text: text@ });
        }
    }

    /// Prints text, centred on an arbitrary point of the active console.
    pub fn print_centered_at(&mut self, bi: &mut BTermInternal, x: i32, y: i32, text: &str)
        requires
            old(self).active_console < old(bi).consoles@.len(),
        ensures
            *final(self) == *old(self),
            sent_to(
                *old(bi),
                *final(bi),
                old(self).active_console as int,
                seq![ConsoleOp::PrintCenteredAt { x, y, text: text@ }],
            ),
    {
        let ghost history = bi.console_model(self.active_console as int).history;
        bi.consoles[self.active_console].console.print_centered_at(x, y, text);
        proof {
            lemma_push_is_append(history, ConsoleOp::PrintCenteredAt { x, y, text: text@ });
        }
    }

    /// Prints coloured text, centred on an arbitrary point of the active
    /// console.
    pub fn print_color_centered_at(
        &mut self,
        bi: &mut BTermInternal,
        x: i32,
        y: i32,
        fg: RGB,
        bg: RGB,
        text: &str,
    )
        requires
            old(self).active_console < old(bi).consoles@.len(),
        ensures
            *final(self) == *old(self),
            sent_to(
                *old(bi),
                *final(bi),
                old(self).active_console as int,
                seq![ConsoleOp::PrintColorCenteredAt { x, y, fg, bg, text: text@ }],
            ),
    {
        let ghost history = bi.console_model(self.active_console as int).history;
        bi.consoles[self.active_console].console.print_color_centered_at(x, y, fg, bg, text);
        proof {
            lemma_push_is_append(
                history,
                ConsoleOp::PrintColorCenteredAt { x, y, fg, bg, text: text@ },
            );
        }
    }

    /// Prints text that ends at a column of the active console.
    pub fn print_right(&mut self, bi: &mut BTermInternal, x: i32, y: i32, text: &str)
        requires
            old(self).active_console < old(bi).consoles@.len(),
        ensures
            *final(self) == *old(self),
            sent_to(
                *old(bi),
                *final(bi),
                old(self).active_console as int,
                seq![ConsoleOp::PrintRight { x, y, text: text@ }],
            ),
    {
        let ghost history = bi.console_model(self.active_console as int).history;
        bi.consoles[self.active_console].console.print_right(x, y, text);
        proof {
            lemma_push_is_append(history, ConsoleOp::PrintRight { x, y, text: text@ });
        }
    }

    /// Prints coloured text that ends at a column of the active console.
    pub fn print_color_right(
        &mut self,
        bi: &mut BTermInternal,
        x: i32,
        y: i32,
        fg: RGB,
        bg: RGB,
        text: &str,
    )
        requires
            old(self).active_console < old(bi).consoles@.len(),
        ensures
            *final(self) == *old(self),
            sent_to(
                *old(bi),
                *final(bi),
                old(self).active_console as int,
                seq![ConsoleOp::PrintColorRight { x, y, fg, bg, text: text@ }],
            ),
    {
        let ghost history = bi.console_model(self.active_console as int).history;
        bi.consoles[self.active_console].console.print_color_right(x, y, fg, bg, text);
        proof {
            lemma_push_is_append(history, ConsoleOp::PrintColorRight { x, y, fg, bg, text: text@ });
        }
    }

    /// Prints a string whose colours are written inline, as in
    /// `#[blue]This blue text contains a #[pink]pink#[] word`, on the active
    /// console.
    pub fn printer(
        &mut self,
        bi: &mut BTermInternal,
        x: i32,
        y: i32,
        output: &str,
        align: TextAlign,
        background: Option<RGB>,
    )
        requires
            old(self).active_console < old(bi).consoles@.len(),
        ensures
            *final(self) == *old(self),
            sent_to(
                *old(bi),
                *final(bi),
                old(self).active_console as int,
                seq![ConsoleOp::Printer { x, y, text: output@, align, background }],
            ),
    {
        let ghost history = bi.console_model(self.active_console as int).history;
        bi.consoles[self.active_console].console.printer(x, y, output, align, background);
        proof {
            lemma_push_is_append(
                history,
                ConsoleOp::Printer { x, y, text: output@, align, background },
            );
        }
    }

    /// The active console's cells as a layer of a sprite file.
    pub fn to_xp_layer(&self, bi: &BTermInternal) -> (layer: XpLayer)
        requires
            self.active_console < bi.consoles@.len(),
        ensures
            layer@ == bi.console_model(self.active_console as int).layer,
    {
        bi.consoles[self.active_console].console.to_xp_layer()
    }
}

} // verus!
