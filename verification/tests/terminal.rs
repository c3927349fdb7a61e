use bracket_color::prelude::RGB;
use bracket_geometry::prelude::Rect;
use bracket_terminal::bterm::{
    BTerm, BTermError, BTermInternal, Font, Shader, SHADER_NO_BACKGROUND, SHADER_WITH_BACKGROUND,
};
use bracket_terminal::console::{Console, ConsoleModel, TextAlign};
use bracket_terminal::rex::{XpCell, XpColor, XpFile, XpLayer};
use std::cell::RefCell;
use std::rc::Rc;

/// A console that writes down every request it receives.
struct Recorder {
    size: (u32, u32),
    tag: u32,
    log: Rc<RefCell<Vec<String>>>,
}

impl Recorder {
    fn boxed(size: (u32, u32), tag: u32) -> (Box<dyn Console>, Rc<RefCell<Vec<String>>>) {
        let log = Rc::new(RefCell::new(Vec::new()));
        (Box::new(Recorder { size, tag, log: log.clone() }), log)
    }

    fn note(&self, line: String) {
        self.log.borrow_mut().push(line);
    }
}

fn rgb(c: RGB) -> String {
    format!("({:.3},{:.3},{:.3})", c.r, c.g, c.b)
}

impl Console for Recorder {
    fn model(&self) -> ConsoleModel {
        unreachable!()
    }
    fn get_char_size(&self) -> (u32, u32) {
        self.size
    }
    fn resize_pixels(&mut self, width: u32, height: u32) {
        self.note(format!("resize_pixels {} {}", width, height));
    }
    fn at(&self, x: i32, y: i32) -> usize {
        (y as usize) * (self.size.0 as usize) + (x as usize)
    }
    fn cls(&mut self) {
        self.note(format!("cls"));
    }
    fn cls_bg(&mut self, background: RGB) {
        self.note(format!("cls_bg {}", rgb(background)));
    }
    fn print(&mut self, x: i32, y: i32, output: &str) {
        self.note(format!("print {} {} {}", x, y, output));
    }
    fn print_color(&mut self, x: i32, y: i32, fg: RGB, bg: RGB, output: &str) {
        self.note(format!("print_color {} {} {} {} {}", x, y, rgb(fg), rgb(bg), output));
    }
    fn set(&mut self, x: i32, y: i32, fg: RGB, bg: RGB, glyph: u8) {
        self.note(format!("set {} {} {} {} {}", x, y, rgb(fg), rgb(bg), glyph));
    }
    fn set_bg(&mut self, x: i32, y: i32, bg: RGB) {
        self.note(format!("set_bg {} {} {}", x, y, rgb(bg)));
    }
    fn draw_box(&mut self, x: i32, y: i32, width: i32, height: i32, fg: RGB, bg: RGB) {
        self.note(format!("draw_box {} {} {} {} {} {}", x, y, width, height, rgb(fg), rgb(bg)));
    }
    fn draw_box_double(&mut self, x: i32, y: i32, width: i32, height: i32, fg: RGB, bg: RGB) {
        self.note(format!(
            "draw_box_double {} {} {} {} {} {}",
            x,
            y,
            width,
            height,
            rgb(fg),
            rgb(bg)
        ));
    }
    fn draw_hollow_box(&mut self, x: i32, y: i32, width: i32, height: i32, fg: RGB, bg: RGB) {
        self.note(format!(
            "draw_hollow_box {} {} {} {} {} {}",
            x,
            y,
            width,
            height,
            rgb(fg),
            rgb(bg)
        ));
    }
    fn draw_hollow_box_double(
        &mut self,
        x: i32,
        y: i32,
        width: i32,
        height: i32,
        fg: RGB,
        bg: RGB,
    ) {
        self.note(format!(
            "draw_hollow_box_double {} {} {} {} {} {}",
            x,
            y,
            width,
            height,
            rgb(fg),
            rgb(bg)
        ));
    }
    fn draw_bar_horizontal(
        &mut self,
        x: i32,
        y: i32,
        width: i32,
        n: i32,
        max: i32,
        fg: RGB,
        bg: RGB,
    ) {
        self.note(format!(
            "draw_bar_horizontal {} {} {} {} {} {} {}",
            x,
            y,
            width,
            n,
            max,
            rgb(fg),
            rgb(bg)
        ));
    }
    fn draw_bar_vertical(
        &mut self,
        x: i32,
        y: i32,
        height: i32,
        n: i32,
        max: i32,
        fg: RGB,
        bg: RGB,
    ) {
        self.note(format!(
            "draw_bar_vertical {} {} {} {} {} {} {}",
            x,
            y,
            height,
            n,
            max,
            rgb(fg),
            rgb(bg)
        ));
    }
    fn fill_region(&mut self, target: Rect, glyph: u8, fg: RGB, bg: RGB) {
        self.note(format!(
            "fill_region {} {} {} {} {} {} {}",
            target.x1,
            target.y1,
            target.x2,
            target.y2,
            glyph,
            rgb(fg),
            rgb(bg)
        ));
    }
    fn print_centered(&mut self, y: i32, text: &str) {
        self.note(format!("print_centered {} {}", y, text));
    }
    fn print_color_centered(&mut self, y: i32, fg: RGB, bg: RGB, text: &str) {
        self.note(format!("print_color_centered {} {} {} {}", y, rgb(fg), rgb(bg), text));
    }
    fn print_centered_at(&mut self, x: i32, y: i32, text: &str) {
        self.note(format!("print_centered_at {} {} {}", x, y, text));
    }
    fn print_color_centered_at(&mut self, x: i32, y: i32, fg: RGB, bg: RGB, text: &str) {
        self.note(format!("print_color_centered_at {} {} {} {} {}", x, y, rgb(fg), rgb(bg), text));
    }
    fn print_right(&mut self, x: i32, y: i32, text: &str) {
        self.note(format!("print_right {} {} {}", x, y, text));
    }
    fn print_color_right(&mut self, x: i32, y: i32, fg: RGB, bg: RGB, text: &str) {
        self.note(format!("print_color_right {} {} {} {} {}", x, y, rgb(fg), rgb(bg), text));
    }
    fn printer(
        &mut self,
        x: i32,
        y: i32,
        output: &str,
        align: TextAlign,
        background: Option<RGB>,
    ) {
        let side = match align {
            TextAlign::Left => "left",
            TextAlign::Center => "center",
            TextAlign::Right => "right",
        };
        let back = match background {
            Some(c) => rgb(c),
            None => format!("none"),
        };
        self.note(format!("printer {} {} {} {} {}", x, y, output, side, back));
    }
    fn to_xp_layer(&self) -> XpLayer {
        let mut layer = XpLayer::new(1, 1);
        layer.cells[0] = XpCell { ch: self.tag, fg: XpColor::black(), bg: XpColor::black() };
        layer
    }
}

fn font(name: &str) -> Font {
    Font { bitmap_file: name.to_string(), tile_size: (8, 8) }
}

fn context(width: u32, height: u32) -> BTerm {
    BTerm::init_raw(width, height).unwrap()
}

fn taken(log: &Rc<RefCell<Vec<String>>>) -> Vec<String> {
    log.borrow().clone()
}

/// A context of 640 by 400 pixels with three recording consoles of 80x50,
/// 40x25 and 10x10 cells, tagged 100, 101 and 102.
fn three_consoles() -> (BTerm, BTermInternal, Vec<Rc<RefCell<Vec<String>>>>) {
    let mut ctx = context(640, 400);
    let mut bi = BTermInternal::new();
    let mut logs = Vec::new();
    let sizes = [(80, 50), (40, 25), (10, 10)];
    for (i, size) in sizes.iter().enumerate() {
        let (console, log) = Recorder::boxed(*size, 100 + i as u32);
        ctx.register_console(&mut bi, console, 0);
        logs.push(log);
    }
    (ctx, bi, logs)
}

#[test]
fn new_registry_is_empty() {
    let bi = BTermInternal::new();
    assert_eq!(bi.fonts.len(), 0);
    assert_eq!(bi.shaders.len(), 0);
    assert_eq!(bi.consoles.len(), 0);
    let other = BTermInternal::default();
    assert_eq!(other.fonts.len(), 0);
    assert_eq!(other.shaders.len(), 0);
    assert_eq!(other.consoles.len(), 0);
}

#[test]
fn init_raw_makes_a_fresh_context() {
    let ctx = BTerm::init_raw(640, 400).unwrap();
    assert_eq!(ctx.width_pixels, 640);
    assert_eq!(ctx.height_pixels, 400);
    assert_eq!(ctx.active_console, 0);
    assert_eq!(ctx.key, None);
    assert_eq!(ctx.mouse_pos, (0, 0));
    assert!(!ctx.left_click);
    assert!(!ctx.shift);
    assert!(!ctx.control);
    assert!(!ctx.alt);
    assert!(!ctx.quitting);
    assert!(!ctx.post_scanlines);
    assert!(!ctx.post_screenburn);
}

#[test]
fn init_raw_takes_the_largest_u32() {
    let ctx = BTerm::init_raw(4294967295u64, 0u64).unwrap();
    assert_eq!(ctx.width_pixels, u32::MAX);
    assert_eq!(ctx.height_pixels, 0);
}

#[test]
fn init_raw_refuses_a_negative_dimension() {
    assert_eq!(BTerm::init_raw(-1, 400).err(), Some(BTermError::DimensionConversion));
    assert_eq!(BTerm::init_raw(640, -1).err(), Some(BTermError::DimensionConversion));
}

#[test]
fn init_raw_refuses_a_dimension_above_u32() {
    assert_eq!(BTerm::init_raw(4294967296u64, 1u64).err(), Some(BTermError::DimensionConversion));
}

#[test]
fn with_dimensions_takes_what_the_conversions_gave() {
    let ctx = BTerm::with_dimensions(Ok::<u32, ()>(3), Ok::<u32, ()>(4)).unwrap();
    assert_eq!((ctx.width_pixels, ctx.height_pixels), (3, 4));
    assert_eq!(ctx.active_console, 0);
    assert_eq!(ctx.key, None);
    assert!(!ctx.quitting);
    assert_eq!(
        BTerm::with_dimensions(Err::<u32, ()>(()), Ok(4)).err(),
        Some(BTermError::DimensionConversion)
    );
    assert_eq!(
        BTerm::with_dimensions(Ok(3), Err::<u32, ()>(())).err(),
        Some(BTermError::DimensionConversion)
    );
    assert_eq!(
        BTerm::with_dimensions(Err::<u32, u8>(1), Err::<u32, u8>(2)).err(),
        Some(BTermError::DimensionConversion)
    );
}

#[test]
fn init_raw_takes_small_unsigned_types() {
    let ctx = BTerm::init_raw(200u8, 100u8).unwrap();
    assert_eq!((ctx.width_pixels, ctx.height_pixels), (200, 100));
    let ctx = BTerm::init_raw(640u32, 400u32).unwrap();
    assert_eq!((ctx.width_pixels, ctx.height_pixels), (640, 400));
}

#[test]
fn error_message_names_the_conversion() {
    assert_eq!(BTermError::DimensionConversion.message(), "Couldn't convert to u32");
}

#[test]
fn init_simple8x8_registers_font_and_console() {
    let mut bi = BTermInternal::new();
    let (console, _log) = Recorder::boxed((80, 50), 1);
    let ctx = BTerm::init_simple8x8(&mut bi, 80, 50, font("terminal8x8.png"), console);
    assert_eq!(ctx.width_pixels, 640);
    assert_eq!(ctx.height_pixels, 400);
    assert_eq!(ctx.active_console, 0);
    assert_eq!(bi.fonts.len(), 1);
    assert_eq!(bi.fonts[0].bitmap_file, "terminal8x8.png");
    assert_eq!(bi.consoles.len(), 1);
    assert_eq!(bi.consoles[0].font_index, 0);
    assert_eq!(bi.consoles[0].shader_index, SHADER_WITH_BACKGROUND);
    assert_eq!(bi.consoles[0].console.get_char_size(), (80, 50));
}

#[test]
fn init_simple8x16_registers_font_and_console() {
    let mut bi = BTermInternal::new();
    bi.fonts.push(font("other.png"));
    let (console, _log) = Recorder::boxed((80, 25), 1);
    let ctx = BTerm::init_simple8x16(&mut bi, 80, 25, font("vga8x16.png"), console);
    assert_eq!(ctx.width_pixels, 640);
    assert_eq!(ctx.height_pixels, 400);
    assert_eq!(bi.fonts.len(), 2);
    assert_eq!(bi.fonts[1].bitmap_file, "vga8x16.png");
    assert_eq!(bi.consoles.len(), 1);
    assert_eq!(bi.consoles[0].font_index, 1);
    assert_eq!(bi.consoles[0].shader_index, 0);
}

#[test]
fn register_font_returns_increasing_handles() {
    let mut ctx = context(640, 400);
    let mut bi = BTermInternal::new();
    assert_eq!(ctx.register_font(&mut bi, font("a.png")), Ok(0));
    assert_eq!(ctx.register_font(&mut bi, font("b.png")), Ok(1));
    assert_eq!(ctx.register_font(&mut bi, font("c.png")), Ok(2));
    assert_eq!(bi.fonts.len(), 3);
    assert_eq!(bi.fonts[0].bitmap_file, "a.png");
    assert_eq!(bi.fonts[1].bitmap_file, "b.png");
    assert_eq!(bi.fonts[2].bitmap_file, "c.png");
    assert_eq!(bi.consoles.len(), 0);
}

#[test]
fn register_console_returns_increasing_handles() {
    let mut ctx = context(640, 400);
    let mut bi = BTermInternal::new();
    bi.shaders.push(Shader { id: 7 });
    let (a, _) = Recorder::boxed((80, 50), 1);
    let (b, _) = Recorder::boxed((40, 25), 2);
    let (c, _) = Recorder::boxed((10, 10), 3);
    assert_eq!(ctx.register_console(&mut bi, a, 4), 0);
    assert_eq!(ctx.register_console_no_bg(&mut bi, b, 5), 1);
    assert_eq!(ctx.register_console(&mut bi, c, 6), 2);
    assert_eq!(bi.consoles.len(), 3);
    assert_eq!(bi.consoles[0].font_index, 4);
    assert_eq!(bi.consoles[1].font_index, 5);
    assert_eq!(bi.consoles[2].font_index, 6);
    assert_eq!(bi.consoles[0].shader_index, SHADER_WITH_BACKGROUND);
    assert_eq!(bi.consoles[1].shader_index, SHADER_NO_BACKGROUND);
    assert_eq!(bi.consoles[2].shader_index, 0);
    assert_eq!(bi.consoles[1].shader_index, 1);
    assert_eq!(bi.consoles[0].console.get_char_size(), (80, 50));
    assert_eq!(bi.consoles[1].console.get_char_size(), (40, 25));
    assert_eq!(bi.consoles[2].console.get_char_size(), (10, 10));
    assert_eq!(bi.shaders.len(), 1);
    assert_eq!(bi.fonts.len(), 0);
}

#[test]
fn registration_leaves_the_context_alone() {
    let mut ctx = context(640, 400);
    ctx.active_console = 3;
    ctx.mouse_pos = (5, 6);
    let mut bi = BTermInternal::new();
    let (a, _) = Recorder::boxed((80, 50), 1);
    ctx.register_console(&mut bi, a, 0);
    ctx.register_font(&mut bi, font("a.png")).unwrap();
    assert_eq!(ctx.active_console, 3);
    assert_eq!(ctx.mouse_pos, (5, 6));
    assert_eq!(ctx.width_pixels, 640);
}

#[test]
fn set_active_console_does_not_validate() {
    let mut ctx = context(640, 400);
    ctx.set_active_console(17);
    assert_eq!(ctx.active_console, 17);
    assert_eq!(ctx.width_pixels, 640);
    assert!(!ctx.quitting);
}

#[test]
fn quit_sets_the_flag_only() {
    let mut ctx = context(640, 400);
    ctx.mouse_pos = (3, 4);
    ctx.quit();
    assert!(ctx.quitting);
    assert_eq!(ctx.mouse_pos, (3, 4));
    assert!(!ctx.post_scanlines);
    ctx.quit();
    assert!(ctx.quitting);
}

#[test]
fn with_post_scanlines_sets_both_flags() {
    let mut ctx = context(640, 400);
    ctx.with_post_scanlines(true);
    assert!(ctx.post_scanlines);
    assert!(ctx.post_screenburn);
    ctx.with_post_scanlines(false);
    assert!(ctx.post_scanlines);
    assert!(!ctx.post_screenburn);
    assert!(!ctx.quitting);
}

#[test]
fn clone_keeps_every_field() {
    let mut ctx = context(640, 400);
    ctx.active_console = 2;
    ctx.mouse_pos = (9, 8);
    ctx.left_click = true;
    ctx.quitting = true;
    let copy = ctx.clone();
    assert_eq!(copy.width_pixels, 640);
    assert_eq!(copy.height_pixels, 400);
    assert_eq!(copy.active_console, 2);
    assert_eq!(copy.mouse_pos, (9, 8));
    assert!(copy.left_click);
    assert!(copy.quitting);
    assert!(!copy.post_scanlines);
}

#[test]
fn mouse_pos_maps_pixels_to_tiles_of_the_active_console() {
    let (mut ctx, bi, _logs) = three_consoles();
    ctx.mouse_pos = (320, 200);
    assert_eq!(ctx.mouse_pos(&bi), (40, 25));
    ctx.set_active_console(1);
    assert_eq!(ctx.mouse_pos(&bi), (20, 12));
    ctx.set_active_console(2);
    assert_eq!(ctx.mouse_pos(&bi), (5, 5));
}

#[test]
fn mouse_pos_is_the_same_when_asked_twice() {
    let (mut ctx, bi, _logs) = three_consoles();
    ctx.mouse_pos = (123, 77);
    let first = ctx.mouse_pos(&bi);
    let second = ctx.mouse_pos(&bi);
    assert_eq!(first, (15, 9));
    assert_eq!(first, second);
}

#[test]
fn mouse_pos_follows_the_window_size() {
    let (mut ctx, mut bi, _logs) = three_consoles();
    ctx.mouse_pos = (320, 200);
    assert_eq!(ctx.mouse_pos(&bi), (40, 25));
    ctx.resize_pixels(&mut bi, 1280, 800);
    assert_eq!(ctx.mouse_pos(&bi), (20, 12));
}

#[test]
fn mouse_pos_stays_in_the_grid() {
    let (mut ctx, bi, _logs) = three_consoles();
    ctx.mouse_pos = (-5, -1);
    assert_eq!(ctx.mouse_pos(&bi), (0, 0));
    ctx.mouse_pos = (639, 399);
    assert_eq!(ctx.mouse_pos(&bi), (79, 49));
    ctx.mouse_pos = (640, 400);
    assert_eq!(ctx.mouse_pos(&bi), (79, 49));
    ctx.mouse_pos = (i32::MAX, i32::MAX);
    assert_eq!(ctx.mouse_pos(&bi), (79, 49));
    ctx.mouse_pos = (i32::MIN, i32::MIN);
    assert_eq!(ctx.mouse_pos(&bi), (0, 0));
}

#[test]
fn mouse_pos_takes_a_window_of_no_pixels_as_one_pixel() {
    let (mut ctx, bi, _logs) = three_consoles();
    ctx.width_pixels = 0;
    ctx.height_pixels = 0;
    ctx.mouse_pos = (0, 0);
    assert_eq!(ctx.mouse_pos(&bi), (0, 0));
    ctx.mouse_pos = (1, 1);
    assert_eq!(ctx.mouse_pos(&bi), (79, 49));
    ctx.set_active_console(2);
    ctx.width_pixels = 1;
    ctx.mouse_pos = (1, 0);
    assert_eq!(ctx.mouse_pos(&bi), (9, 0));
}

#[test]
fn mouse_point_gives_the_tile_as_a_point() {
    let (mut ctx, bi, _logs) = three_consoles();
    ctx.mouse_pos = (320, 100);
    let point = ctx.mouse_point(&bi);
    assert_eq!(point.x, 40);
    assert_eq!(point.y, 12);
    ctx.set_active_console(2);
    let point = ctx.mouse_point(&bi);
    assert_eq!((point.x, point.y), (5, 2));
}

#[test]
fn get_char_size_asks_the_active_console() {
    let (mut ctx, bi, _logs) = three_consoles();
    assert_eq!(ctx.get_char_size(&bi), (80, 50));
    ctx.set_active_console(2);
    assert_eq!(ctx.get_char_size(&bi), (10, 10));
}

#[test]
fn at_asks_the_active_console() {
    let (mut ctx, bi, _logs) = three_consoles();
    assert_eq!(ctx.at(&bi, 3, 2), 163);
    ctx.set_active_console(1);
    assert_eq!(ctx.at(&bi, 3, 2), 83);
}

#[test]
fn drawing_goes_to_the_active_console_and_no_other() {
    let (mut ctx, mut bi, logs) = three_consoles();
    ctx.set_active_console(1);
    ctx.print(&mut bi, 2, 3, "hello");
    assert_eq!(taken(&logs[0]), Vec::<String>::new());
    assert_eq!(taken(&logs[1]), vec!["print 2 3 hello".to_string()]);
    assert_eq!(taken(&logs[2]), Vec::<String>::new());
    ctx.set_active_console(2);
    ctx.cls(&mut bi);
    ctx.set_active_console(0);
    ctx.print_centered(&mut bi, 4, "mid");
    assert_eq!(taken(&logs[0]), vec!["print_centered 4 mid".to_string()]);
    assert_eq!(taken(&logs[1]), vec!["print 2 3 hello".to_string()]);
    assert_eq!(taken(&logs[2]), vec!["cls".to_string()]);
    assert_eq!(ctx.active_console, 0);
    assert_eq!(bi.consoles.len(), 3);
}

#[test]
fn every_drawing_call_hands_its_arguments_on() {
    let (mut ctx, mut bi, logs) = three_consoles();
    let red = RGB::from_u8(255, 0, 0);
    let blue = RGB::from_u8(0, 0, 255);
    ctx.cls(&mut bi);
    ctx.cls_bg(&mut bi, blue);
    ctx.print(&mut bi, 1, 2, "a");
    ctx.print_color(&mut bi, 3, 4, red, blue, "b");
    ctx.set(&mut bi, 5, 6, red, blue, 65);
    ctx.set_bg(&mut bi, 7, 8, red);
    ctx.draw_box(&mut bi, 1, 2, 3, 4, red, blue);
    ctx.draw_box_double(&mut bi, 2, 3, 4, 5, red, blue);
    ctx.draw_hollow_box(&mut bi, 3, 4, 5, 6, blue, red);
    ctx.draw_hollow_box_double(&mut bi, 4, 5, 6, 7, blue, red);
    ctx.draw_bar_horizontal(&mut bi, 1, 2, 10, 3, 9, red, blue);
    ctx.draw_bar_vertical(&mut bi, 2, 1, 11, 4, 8, blue, red);
    ctx.fill_region(&mut bi, Rect::with_exact(1, 2, 3, 4), 35, red, blue);
    ctx.print_centered(&mut bi, 9, "c");
    ctx.print_color_centered(&mut bi, 10, red, blue, "d");
    ctx.print_centered_at(&mut bi, 11, 12, "e");
    ctx.print_color_centered_at(&mut bi, 13, 14, blue, red, "f");
    ctx.print_right(&mut bi, 15, 16, "g");
    ctx.print_color_right(&mut bi, 17, 18, red, blue, "h");
    ctx.printer(&mut bi, 19, 20, "#[blue]i", TextAlign::Center, Some(red));
    ctx.printer(&mut bi, 21, 22, "j", TextAlign::Right, None);
    let r = "(1.000,0.000,0.000)";
    let b = "(0.000,0.000,1.000)";
    let expected = vec![
        format!("cls"),
        format!("cls_bg {}", b),
        format!("print 1 2 a"),
        format!("print_color 3 4 {} {} b", r, b),
        format!("set 5 6 {} {} 65", r, b),
        format!("set_bg 7 8 {}", r),
        format!("draw_box 1 2 3 4 {} {}", r, b),
        format!("draw_box_double 2 3 4 5 {} {}", r, b),
        format!("draw_hollow_box 3 4 5 6 {} {}", b, r),
        format!("draw_hollow_box_double 4 5 6 7 {} {}", b, r),
        format!("draw_bar_horizontal 1 2 10 3 9 {} {}", r, b),
        format!("draw_bar_vertical 2 1 11 4 8 {} {}", b, r),
        format!("fill_region 1 2 3 4 35 {} {}", r, b),
        format!("print_centered 9 c"),
        format!("print_color_centered 10 {} {} d", r, b),
        format!("print_centered_at 11 12 e"),
        format!("print_color_centered_at 13 14 {} {} f", b, r),
        format!("print_right 15 16 g"),
        format!("print_color_right 17 18 {} {} h", r, b),
        format!("printer 19 20 #[blue]i center {}", r),
        format!("printer 21 22 j right none"),
    ];
    assert_eq!(taken(&logs[0]), expected);
    assert_eq!(taken(&logs[1]), Vec::<String>::new());
    assert_eq!(taken(&logs[2]), Vec::<String>::new());
}

#[test]
fn drawing_keeps_fonts_and_shaders_of_the_slots() {
    let mut ctx = context(640, 400);
    let mut bi = BTermInternal::new();
    let (a, _) = Recorder::boxed((80, 50), 1);
    let (b, _) = Recorder::boxed((40, 25), 2);
    ctx.register_console(&mut bi, a, 3);
    ctx.register_console_no_bg(&mut bi, b, 4);
    ctx.set_active_console(1);
    ctx.cls(&mut bi);
    ctx.resize_pixels(&mut bi, 10, 10);
    assert_eq!(bi.consoles[0].font_index, 3);
    assert_eq!(bi.consoles[1].font_index, 4);
    assert_eq!(bi.consoles[0].shader_index, 0);
    assert_eq!(bi.consoles[1].shader_index, 1);
}

#[test]
fn resize_reaches_every_console() {
    let (mut ctx, mut bi, logs) = three_consoles();
    ctx.set_active_console(1);
    ctx.resize_pixels(&mut bi, 800, 600);
    assert_eq!(ctx.width_pixels, 800);
    assert_eq!(ctx.height_pixels, 600);
    assert_eq!(ctx.active_console, 1);
    for log in logs.iter() {
        assert_eq!(taken(log), vec!["resize_pixels 800 600".to_string()]);
    }
}

#[test]
fn resize_with_no_console_keeps_the_size() {
    let mut ctx = context(640, 400);
    let mut bi = BTermInternal::new();
    ctx.resize_pixels(&mut bi, 1, 2);
    assert_eq!((ctx.width_pixels, ctx.height_pixels), (1, 2));
    assert_eq!(bi.consoles.len(), 0);
}

#[test]
fn to_xp_layer_asks_the_active_console() {
    let (mut ctx, bi, _logs) = three_consoles();
    ctx.set_active_console(2);
    let layer = ctx.to_xp_layer(&bi);
    assert_eq!(layer.width, 1);
    assert_eq!(layer.height, 1);
    assert_eq!(layer.cells[0].ch, 102);
}

#[test]
fn to_xp_file_puts_the_active_layer_first() {
    let (mut ctx, bi, logs) = three_consoles();
    let file = ctx.to_xp_file(&bi, 80, 50);
    assert_eq!(file.version, -1);
    let tags: Vec<u32> = file.layers.iter().map(|l| l.cells[0].ch).collect();
    assert_eq!(tags, vec![100, 101, 102]);
    ctx.set_active_console(1);
    let file = ctx.to_xp_file(&bi, 80, 50);
    let tags: Vec<u32> = file.layers.iter().map(|l| l.cells[0].ch).collect();
    assert_eq!(tags, vec![101, 100, 102]);
    ctx.set_active_console(2);
    let file = ctx.to_xp_file(&bi, 80, 50);
    let tags: Vec<u32> = file.layers.iter().map(|l| l.cells[0].ch).collect();
    assert_eq!(tags, vec![102, 100, 101]);
    for log in logs.iter() {
        assert_eq!(taken(log), Vec::<String>::new());
    }
}

#[test]
fn to_xp_file_of_one_console_has_one_layer() {
    let mut ctx = context(640, 400);
    let mut bi = BTermInternal::new();
    let (a, _) = Recorder::boxed((80, 50), 9);
    ctx.register_console(&mut bi, a, 0);
    let file = ctx.to_xp_file(&bi, 1, 1);
    assert_eq!(file.layers.len(), 1);
    assert_eq!(file.layers[0].cells[0].ch, 9);
}

#[test]
fn render_xp_sprite_draws_on_the_active_console() {
    let (mut ctx, mut bi, logs) = three_consoles();
    let mut layer = XpLayer::new(2, 1);
    layer.cells[0] = XpCell { ch: 65, fg: XpColor::new(255, 0, 0), bg: XpColor::black() };
    layer.cells[1] = XpCell { ch: 66, fg: XpColor::new(0, 255, 0), bg: XpColor::transparent() };
    let file = XpFile { version: -1, layers: vec![layer] };
    ctx.set_active_console(2);
    ctx.render_xp_sprite(&mut bi, &file, 3, 4);
    assert_eq!(taken(&logs[0]), Vec::<String>::new());
    assert_eq!(taken(&logs[1]), Vec::<String>::new());
    assert_eq!(
        taken(&logs[2]),
        vec!["set 3 4 (1.000,0.000,0.000) (0.000,0.000,0.000) 65".to_string()]
    );
}
