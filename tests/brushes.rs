use tock::brush;
use tock::brush::Brush;
use tock::brush::Color;
use tock::brush::Ground;
use tock::brush::Move;
use tock::brush::Paint;
use tock::brush::C24;
use tock::brush::C8;

#[test]
fn repeated_dip_and_set_render_once() {
    let mut b = Brush::new(Color::C8(C8(2)));
    b.dip(Color::C8(C8(3)));
    b.set(true);
    let first = b.render();
    b.dip(Color::C8(C8(3)));
    b.set(true);
    let second = b.render();
    assert_eq!(first, "\x1B[48;5;3m");
    assert_eq!(second, "");
}

#[test]
fn flipping_back_leaves_nothing_pending() {
    let mut b = Brush::new(Color::C8(C8(2)));
    b.set(true);
    b.set(false);
    assert_eq!(b.render(), "");
    b.set(true);
    assert_eq!(b.render(), "\x1B[48;5;2m");
    b.dip(Color::C8(C8(4)));
    b.dip(Color::C8(C8(2)));
    assert_eq!(b.render(), "");
    b.raise();
    b.dip(Color::C8(C8(4)));
    b.set(true);
    assert_eq!(b.render(), "\x1B[48;5;4m");
}

#[test]
fn new_brush_has_nothing_pending() {
    let mut b = Brush::new(Color::C8(C8(2)));
    assert_eq!(b.render(), "");
    b.raise();
    assert_eq!(b.render(), "");
}

#[test]
fn switching_emits_paint_then_reset() {
    let mut b = Brush::new(Color::C24(C24 { r: 1, g: 20, b: 255 }));
    b.set(true);
    assert_eq!(b.render(), "\x1B[48;2;1;20;255m");
    b.set(true);
    assert_eq!(b.render(), "");
    b.raise();
    assert_eq!(b.render(), "\x1B[49m");
}

#[test]
fn dip_while_off_keeps_state() {
    let mut b = Brush::new(Color::C8(C8(2)));
    b.dip(Color::C8(C8(9)));
    assert_eq!(b.render(), "");
    b.set(true);
    assert_eq!(b.render(), "\x1B[48;5;9m");
    b.dip(Color::C8(C8(9)));
    assert_eq!(b.render(), "");
    b.dip(Color::Reset);
    assert_eq!(b.render(), "\x1B[49m");
}

#[test]
fn paint_codes() {
    let fore = Paint { color: Color::C8(C8(200)), ground: Ground::Fore };
    assert_eq!(fore.to_string(), "\x1B[38;5;200m");
    let back = Paint { color: Color::C24(C24 { r: 0, g: 0, b: 7 }), ground: Ground::Back };
    assert_eq!(back.to_string(), "\x1B[48;2;0;0;7m");
    assert_eq!(Paint::reset().to_string(), "\x1B[49m");
    let fore_reset = Paint { color: Color::Reset, ground: Ground::Fore };
    assert_eq!(fore_reset.to_string(), "\x1B[39m");
}

#[test]
fn move_codes() {
    assert_eq!(Move(0, 0).to_string(), "\x1B[1;1H");
    assert_eq!(Move(24, 9).to_string(), "\x1B[10;25H");
    assert_eq!(Move(65535, 65535).to_string(), "\x1B[65536;65536H");
    assert_eq!(Move::default().to_string(), "\x1B[1;1H");
}

#[test]
fn screen_codes() {
    assert_eq!(brush::CLEAR, "\x1B[2J");
    assert_eq!(brush::HIDE, "\x1B[?25l");
    assert_eq!(brush::SHOW, "\x1B[?25h");
    assert_eq!(brush::ALTERNATE, "\x1B[?1049h");
    assert_eq!(brush::MAIN, "\x1B[?1049l");
}

#[test]
fn push_decimal_writes_digits() {
    let mut s = String::from("n=");
    brush::push_decimal(&mut s, 0);
    s.push(',');
    brush::push_decimal(&mut s, 4294967295);
    assert_eq!(s, "n=0,4294967295");
}

#[test]
fn parse_single_color() {
    assert_eq!(Color::parse("2"), Ok(Color::C8(C8(2))));
    assert_eq!(Color::parse("255"), Ok(Color::C8(C8(255))));
    assert_eq!(Color::parse("+7"), Ok(Color::C8(C8(7))));
    assert_eq!(Color::parse("007"), Ok(Color::C8(C8(7))));
    assert_eq!("2".parse::<Color>(), Ok(Color::C8(C8(2))));
}

#[test]
fn parse_rgb_color() {
    assert_eq!(Color::parse("1,2,3"), Ok(Color::C24(C24 { r: 1, g: 2, b: 3 })));
    assert_eq!(Color::parse("255,0,+9"), Ok(Color::C24(C24 { r: 255, g: 0, b: 9 })));
}

#[test]
fn parse_invalid_colors() {
    for bad in ["", "256", "-1", "1,2", "1,2,3,4", "1,,3", "a", "1, 2,3", "300,0,0", "+", " 1"] {
        assert_eq!(
            Color::parse(bad),
            Err(format!("[USER ERROR]: invalid color specifier {}", bad)),
            "{bad:?}"
        );
    }
}
