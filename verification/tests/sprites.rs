use bracket_color::prelude::RGB;
use bracket_geometry::prelude::Rect;
use bracket_terminal::bterm::{BTerm, BTermInternal};
use bracket_terminal::console::{Console, ConsoleModel, TextAlign};
use bracket_terminal::rex::{sprite_fits_at, xp_to_console, XpCell, XpColor, XpFile, XpLayer};

fn byte(channel: f32) -> u8 {
    (channel * 255.0).round() as u8
}

fn color(c: RGB) -> XpColor {
    XpColor::new(byte(c.r), byte(c.g), byte(c.b))
}

/// A dense grid of cells that ignores what lies outside it.
struct Grid {
    width: u32,
    height: u32,
    cells: Vec<XpCell>,
}

impl Grid {
    fn boxed(width: u32, height: u32) -> Box<dyn Console> {
        let blank = XpCell { ch: 32, fg: XpColor::new(255, 255, 255), bg: XpColor::black() };
        Box::new(Grid { width, height, cells: vec![blank; (width * height) as usize] })
    }
}

impl Console for Grid {
    fn model(&self) -> ConsoleModel {
        unreachable!()
    }
    fn get_char_size(&self) -> (u32, u32) {
        (self.width, self.height)
    }
    fn resize_pixels(&mut self, _width: u32, _height: u32) {}
    fn at(&self, x: i32, y: i32) -> usize {
        (y as usize) * (self.width as usize) + (x as usize)
    }
    fn cls(&mut self) {}
    fn cls_bg(&mut self, _background: RGB) {}
    fn print(&mut self, _x: i32, _y: i32, _output: &str) {}
    fn print_color(&mut self, _x: i32, _y: i32, _fg: RGB, _bg: RGB, _output: &str) {}
    fn set(&mut self, x: i32, y: i32, fg: RGB, bg: RGB, glyph: u8) {
        if x >= 0 && y >= 0 && (x as u32) < self.width && (y as u32) < self.height {
            let index = self.at(x, y);
            self.cells[index] = XpCell { ch: glyph as u32, fg: color(fg), bg: color(bg) };
        }
    }
    fn set_bg(&mut self, _x: i32, _y: i32, _bg: RGB) {}
    fn draw_box(&mut self, _x: i32, _y: i32, _w: i32, _h: i32, _fg: RGB, _bg: RGB) {}
    fn draw_box_double(&mut self, _x: i32, _y: i32, _w: i32, _h: i32, _fg: RGB, _bg: RGB) {}
    fn draw_hollow_box(&mut self, _x: i32, _y: i32, _w: i32, _h: i32, _fg: RGB, _bg: RGB) {}
    fn draw_hollow_box_double(&mut self, _x: i32, _y: i32, _w: i32, _h: i32, _fg: RGB, _bg: RGB) {}
    fn draw_bar_horizontal(
        &mut self,
        _x: i32,
        _y: i32,
        _width: i32,
        _n: i32,
        _max: i32,
        _fg: RGB,
        _bg: RGB,
    ) {
    }
    fn draw_bar_vertical(
        &mut self,
        _x: i32,
        _y: i32,
        _height: i32,
        _n: i32,
        _max: i32,
        _fg: RGB,
        _bg: RGB,
    ) {
    }
    fn fill_region(&mut self, _target: Rect, _glyph: u8, _fg: RGB, _bg: RGB) {}
    fn print_centered(&mut self, _y: i32, _text: &str) {}
    fn print_color_centered(&mut self, _y: i32, _fg: RGB, _bg: RGB, _text: &str) {}
    fn print_centered_at(&mut self, _x: i32, _y: i32, _text: &str) {}
    fn print_color_centered_at(&mut self, _x: i32, _y: i32, _fg: RGB, _bg: RGB, _text: &str) {}
    fn print_right(&mut self, _x: i32, _y: i32, _text: &str) {}
    fn print_color_right(&mut self, _x: i32, _y: i32, _fg: RGB, _bg: RGB, _text: &str) {}
    fn printer(
        &mut self,
        _x: i32,
        _y: i32,
        _output: &str,
        _align: TextAlign,
        _background: Option<RGB>,
    ) {
    }
    fn to_xp_layer(&self) -> XpLayer {
        let mut layer = XpLayer::new(self.width as usize, self.height as usize);
        for y in 0..self.height as usize {
            for x in 0..self.width as usize {
                layer.cells[x * self.height as usize + y] = self.cells[y * self.width as usize + x];
            }
        }
        layer
    }
}

fn cell(ch: u32, fg: (u8, u8, u8), bg: (u8, u8, u8)) -> XpCell {
    XpCell { ch, fg: XpColor::new(fg.0, fg.1, fg.2), bg: XpColor::new(bg.0, bg.1, bg.2) }
}

/// A layer of 3 by 2 cells: glyphs 65 to 70 row by row, the cell at (1, 0)
/// transparent.
fn sample_layer() -> XpLayer {
    let mut layer = XpLayer::new(3, 2);
    let mut ch = 65;
    for y in 0..2 {
        for x in 0..3 {
            let bg = if (x, y) == (1, 0) { (255, 0, 255) } else { (0, 0, 10 * ch as u8) };
            layer.cells[x * 2 + y] = cell(ch, (ch as u8, 2, 3), bg);
            ch += 1;
        }
    }
    layer
}

#[test]
fn xp_color_knows_the_transparent_colour() {
    assert!(XpColor::new(255, 0, 255).is_transparent());
    assert!(XpColor::transparent().is_transparent());
    assert!(!XpColor::black().is_transparent());
    assert!(!XpColor::new(255, 0, 254).is_transparent());
    assert!(!XpColor::new(254, 0, 255).is_transparent());
    assert!(!XpColor::new(255, 1, 255).is_transparent());
    assert_eq!(XpColor::black(), XpColor::new(0, 0, 0));
    assert_eq!(XpColor::transparent(), XpColor { r: 255, g: 0, b: 255 });
}

#[test]
fn xp_color_becomes_an_rgb_colour() {
    let c = XpColor::new(255, 0, 51).to_rgb();
    assert_eq!(c.r, 1.0);
    assert_eq!(c.g, 0.0);
    assert_eq!(c.b, 0.2);
    assert_eq!(XpColor::new(10, 20, 30).to_rgb(), RGB::from_u8(10, 20, 30));
}

#[test]
fn new_layer_is_blank() {
    let layer = XpLayer::new(3, 2);
    assert_eq!(layer.width, 3);
    assert_eq!(layer.height, 2);
    assert_eq!(layer.cells.len(), 6);
    for c in layer.cells.iter() {
        assert_eq!(*c, cell(0, (0, 0, 0), (0, 0, 0)));
    }
    let empty = XpLayer::new(0, 5);
    assert_eq!(empty.cells.len(), 0);
}

#[test]
fn layer_get_finds_cells_column_by_column() {
    let layer = sample_layer();
    assert_eq!(layer.get(0, 0).unwrap().ch, 65);
    assert_eq!(layer.get(1, 0).unwrap().ch, 66);
    assert_eq!(layer.get(2, 0).unwrap().ch, 67);
    assert_eq!(layer.get(0, 1).unwrap().ch, 68);
    assert_eq!(layer.get(2, 1).unwrap().ch, 70);
    assert_eq!(layer.get(2, 1), Some(&layer.cells[5]));
    assert_eq!(layer.get(1, 1), Some(&layer.cells[3]));
    assert_eq!(layer.get(3, 0), None);
    assert_eq!(layer.get(0, 2), None);
    assert_eq!(layer.get(usize::MAX, usize::MAX), None);
}

#[test]
fn sprite_fits_where_every_target_is_an_i32() {
    let file = XpFile { version: -1, layers: vec![sample_layer()] };
    assert!(sprite_fits_at(&file, 0, 0));
    assert!(sprite_fits_at(&file, -100, i32::MIN));
    assert!(sprite_fits_at(&file, i32::MAX - 2, i32::MAX - 1));
    assert!(!sprite_fits_at(&file, i32::MAX - 1, 0));
    assert!(!sprite_fits_at(&file, 0, i32::MAX));
    let nothing = XpFile { version: -1, layers: vec![] };
    assert!(sprite_fits_at(&nothing, i32::MAX, i32::MAX));
    let no_cells = XpFile { version: -1, layers: vec![XpLayer::new(0, 7)] };
    assert!(sprite_fits_at(&no_cells, i32::MAX, i32::MAX));
}

#[test]
fn sprite_does_not_fit_with_cells_missing() {
    let mut layer = sample_layer();
    layer.cells.pop();
    let file = XpFile { version: -1, layers: vec![sample_layer(), layer] };
    assert!(!sprite_fits_at(&file, 0, 0));
    let mut layer = sample_layer();
    layer.cells.push(cell(1, (1, 1, 1), (1, 1, 1)));
    let file = XpFile { version: -1, layers: vec![layer] };
    assert!(!sprite_fits_at(&file, 0, 0));
    let huge = XpLayer { width: usize::MAX, height: 2, cells: vec![] };
    let file = XpFile { version: -1, layers: vec![huge] };
    assert!(!sprite_fits_at(&file, 0, 0));
}

#[test]
fn sprite_is_drawn_at_its_offset_without_transparent_cells() {
    let file = XpFile { version: -1, layers: vec![sample_layer()] };
    let mut console = Grid::boxed(5, 4);
    xp_to_console(&file, &mut console, 1, 2);
    let layer = console.to_xp_layer();
    let blank = cell(32, (255, 255, 255), (0, 0, 0));
    for y in 0..4 {
        for x in 0..5 {
            let got = *layer.get(x, y).unwrap();
            let inside = x >= 1 && x < 4 && y >= 2;
            if inside && (x, y) != (2, 2) {
                let ch = 65 + (y - 2) * 3 + (x - 1);
                assert_eq!(got, cell(ch as u32, (ch as u8, 2, 3), (0, 0, 10 * ch as u8)));
            } else {
                assert_eq!(got, blank);
            }
        }
    }
}

#[test]
fn sprite_layers_are_drawn_bottom_first() {
    let mut below = XpLayer::new(2, 1);
    below.cells[0] = cell(1, (1, 1, 1), (1, 1, 1));
    below.cells[1] = cell(2, (2, 2, 2), (2, 2, 2));
    let mut above = XpLayer::new(2, 1);
    above.cells[0] = cell(3, (3, 3, 3), (255, 0, 255));
    above.cells[1] = cell(4, (4, 4, 4), (4, 4, 4));
    let file = XpFile { version: -1, layers: vec![below, above] };
    let mut console = Grid::boxed(2, 1);
    xp_to_console(&file, &mut console, 0, 0);
    let layer = console.to_xp_layer();
    assert_eq!(layer.cells[0], cell(1, (1, 1, 1), (1, 1, 1)));
    assert_eq!(layer.cells[1], cell(4, (4, 4, 4), (4, 4, 4)));
}

#[test]
fn sprite_glyph_is_the_low_byte_of_the_character() {
    let mut layer = XpLayer::new(1, 2);
    layer.cells[0] = cell(0x141, (1, 1, 1), (1, 1, 1));
    layer.cells[1] = cell(0xffff_ff00, (2, 2, 2), (2, 2, 2));
    let file = XpFile { version: -1, layers: vec![layer] };
    let mut console = Grid::boxed(1, 2);
    xp_to_console(&file, &mut console, 0, 0);
    let layer = console.to_xp_layer();
    assert_eq!(layer.cells[0].ch, 0x41);
    assert_eq!(layer.cells[1].ch, 0);
}

#[test]
fn sprite_at_a_negative_offset_is_cut_by_the_console() {
    let file = XpFile { version: -1, layers: vec![sample_layer()] };
    let mut console = Grid::boxed(2, 2);
    xp_to_console(&file, &mut console, -2, -1);
    let layer = console.to_xp_layer();
    assert_eq!(layer.get(0, 0).unwrap().ch, 70);
    assert_eq!(layer.get(1, 0).unwrap().ch, 32);
    assert_eq!(layer.get(0, 1).unwrap().ch, 32);
}

#[test]
fn empty_sprite_draws_nothing() {
    let file = XpFile { version: -1, layers: vec![] };
    let mut console = Grid::boxed(2, 2);
    xp_to_console(&file, &mut console, 0, 0);
    assert_eq!(console.to_xp_layer(), Grid::boxed(2, 2).to_xp_layer());
}

#[test]
fn console_stack_survives_export_and_import() {
    let mut ctx = BTerm::init_raw(640, 400).unwrap();
    let mut bi = BTermInternal::new();
    ctx.register_console(&mut bi, Grid::boxed(4, 3), 0);
    ctx.register_console_no_bg(&mut bi, Grid::boxed(2, 5), 0);
    ctx.set(&mut bi, 1, 1, RGB::from_u8(10, 20, 30), RGB::from_u8(40, 50, 60), 77);
    ctx.set(&mut bi, 3, 2, RGB::from_u8(1, 2, 3), RGB::from_u8(4, 5, 6), 78);
    ctx.set_active_console(1);
    ctx.set(&mut bi, 0, 4, RGB::from_u8(200, 100, 0), RGB::from_u8(0, 100, 200), 79);
    ctx.set(&mut bi, 1, 0, RGB::from_u8(9, 9, 9), RGB::from_u8(255, 0, 255), 80);
    let file = ctx.to_xp_file(&bi, 4, 3);
    assert_eq!(file.layers.len(), 2);
    assert_eq!((file.layers[0].width, file.layers[0].height), (2, 5));
    assert_eq!((file.layers[1].width, file.layers[1].height), (4, 3));

    let mut second = Grid::boxed(2, 5);
    let only_first = XpFile { version: file.version, layers: vec![file.layers[0].clone()] };
    assert!(sprite_fits_at(&only_first, 0, 0));
    xp_to_console(&only_first, &mut second, 0, 0);
    let again = second.to_xp_layer();
    for y in 0..5 {
        for x in 0..2 {
            let source = *file.layers[0].get(x, y).unwrap();
            let got = *again.get(x, y).unwrap();
            if (x, y) == (1, 0) {
                assert!(source.bg.is_transparent());
                assert_eq!(got, cell(32, (255, 255, 255), (0, 0, 0)));
            } else {
                assert_eq!(got, source);
            }
        }
    }
    assert_eq!(*again.get(0, 4).unwrap(), cell(79, (200, 100, 0), (0, 100, 200)));

    let mut first = Grid::boxed(4, 3);
    let only_second = XpFile { version: file.version, layers: vec![file.layers[1].clone()] };
    xp_to_console(&only_second, &mut first, 0, 0);
    assert_eq!(first.to_xp_layer(), file.layers[1]);
    assert_eq!(first.to_xp_layer(), bi.consoles[0].console.to_xp_layer());
}
