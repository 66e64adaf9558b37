use x1b::decimal::{extend_from_u16, extend_from_u32, extend_from_u8};
use x1b::{Cursor, RGB, RGB4, RGB8};

fn text(n: u32) -> Vec<u8> {
    format!("{}", n).into_bytes()
}

#[test]
fn curspos() {
    let mut rc: Cursor = Default::default();
    rc.setfg((0x33, 0x66, 0x99));
    rc.print("asdf\n");
    assert_eq!(rc.take(), b"\x1b[38;2;51;102;153masdf\n".to_vec());
}

#[test]
fn take_empties_the_buffer() {
    let mut c = Cursor::default();
    c.setbold();
    assert_eq!(c.take(), b"\x1b[1m".to_vec());
    assert!(c.0.is_empty());
    assert_eq!(c.take(), Vec::<u8>::new());
}

#[test]
fn numerals_u8() {
    for n in 0..=255u8 {
        let mut v = vec![b'x'];
        extend_from_u8(&mut v, n);
        let mut want = vec![b'x'];
        want.extend(text(n as u32));
        assert_eq!(v, want);
    }
}

#[test]
fn numerals_u16() {
    for n in [0u16, 9, 10, 99, 100, 999, 1000, 9999, 10000, 12345, 20000, 65535] {
        let mut v = Vec::new();
        extend_from_u16(&mut v, n);
        assert_eq!(v, text(n as u32));
    }
    let mut v = Vec::new();
    extend_from_u16(&mut v, 40302);
    assert_eq!(v, b"40302".to_vec());
}

#[test]
fn numerals_u32() {
    for n in [0u32, 7, 65536, 4294967295] {
        let mut v = Vec::new();
        extend_from_u32(&mut v, n);
        assert_eq!(v, text(n));
    }
}

#[test]
fn named_colours() {
    let mut c = Cursor::default();
    c.setfg(RGB4::Red);
    c.setbg(RGB4::LightCyan);
    c.setfg(RGB4::Default);
    c.setbg(RGB4::Default);
    assert_eq!(c.0, b"\x1b[31m\x1b[106m\x1b[39m\x1b[49m".to_vec());
}

#[test]
fn every_named_colour() {
    let all = [
        (RGB4::Default, 39u32),
        (RGB4::Black, 30),
        (RGB4::Red, 31),
        (RGB4::Green, 32),
        (RGB4::Yellow, 33),
        (RGB4::Blue, 34),
        (RGB4::Magenta, 35),
        (RGB4::Cyan, 36),
        (RGB4::LightGray, 37),
        (RGB4::DarkGray, 90),
        (RGB4::LightRed, 91),
        (RGB4::LightGreen, 92),
        (RGB4::LightYellow, 93),
        (RGB4::LightBlue, 94),
        (RGB4::LightMagenta, 95),
        (RGB4::LightCyan, 96),
        (RGB4::White, 97),
    ];
    for (colour, n) in all {
        let mut fg = Vec::new();
        colour.fg(&mut fg);
        assert_eq!(fg, format!("\x1b[{}m", n).into_bytes());
        let mut bg = Vec::new();
        colour.bg(&mut bg);
        assert_eq!(bg, format!("\x1b[{}m", n + 10).into_bytes());
    }
}

#[test]
fn default_colour_is_the_terminals() {
    assert!(RGB4::default() == RGB4::Default);
}

#[test]
fn palette_colours() {
    let mut c = Cursor::default();
    c.setfg(RGB8(7));
    c.setbg(RGB8::rgb(5, 5, 5));
    c.setfg(RGB8::gray(23));
    c.setbg(RGB8::from(RGB4::White));
    assert_eq!(c.0, b"\x1b[38;5;7m\x1b[48;5;231m\x1b[38;5;255m\x1b[48;5;15m".to_vec());
}

#[test]
fn palette_formulas() {
    assert_eq!(RGB8::rgb(0, 0, 0).0, 16);
    assert_eq!(RGB8::rgb(1, 2, 3).0, 16 + 36 + 12 + 3);
    assert_eq!(RGB8::rgb(5, 5, 5).0, 231);
    assert_eq!(RGB8::gray(0).0, 232);
    assert_eq!(RGB8::gray(23).0, 255);
}

#[test]
fn named_to_palette() {
    assert_eq!(RGB8::from(RGB4::Default).0, 0);
    assert_eq!(RGB8::from(RGB4::Black).0, 0);
    assert_eq!(RGB8::from(RGB4::Red).0, 1);
    assert_eq!(RGB8::from(RGB4::LightGray).0, 7);
    assert_eq!(RGB8::from(RGB4::DarkGray).0, 8);
    assert_eq!(RGB8::from(RGB4::LightCyan).0, 14);
    assert_eq!(RGB8::from(RGB4::White).0, 15);
}

#[test]
fn direct_colours() {
    let mut c = Cursor::default();
    c.setfg((0u8, 0u8, 0u8));
    c.setbg((255u8, 128u8, 9u8));
    assert_eq!(c.0, b"\x1b[38;2;0;0;0m\x1b[48;2;255;128;9m".to_vec());
}

#[test]
fn no_colour_sends_nothing() {
    let mut c = Cursor::default();
    c.setfg(());
    c.setbg(());
    assert!(c.0.is_empty());
}

#[test]
fn same_is_equality() {
    assert!(RGB4::Red.same(&RGB4::Red));
    assert!(!RGB4::Red.same(&RGB4::LightRed));
    assert!(RGB8(3).same(&RGB8(3)));
    assert!(!RGB8(3).same(&RGB8(4)));
    assert!((1u8, 2u8, 3u8).same(&(1, 2, 3)));
    assert!(!(1u8, 2u8, 3u8).same(&(1, 2, 4)));
    assert!(!(1u8, 2u8, 3u8).same(&(0, 2, 3)));
    assert!(().same(&()));
}

#[test]
fn attribute_codes() {
    let mut c = Cursor::default();
    c.clearattr();
    c.setbold();
    c.setdim();
    c.setunder();
    c.setblink();
    c.setrev();
    c.unsetbold();
    c.unsetrev();
    assert_eq!(c.0, b"\x1b[m\x1b[1m\x1b[2m\x1b[4m\x1b[5m\x1b[7m\x1b[21m\x1b[27m".to_vec());
}

#[test]
fn wrap_codes() {
    let mut c = Cursor::default();
    c.wrapon();
    c.wrapoff();
    assert_eq!(c.0, b"\x1b7h\x1b7l".to_vec());
}

#[test]
fn single_steps() {
    let mut c = Cursor::default();
    c.up1();
    c.down1();
    c.right1();
    c.left1();
    assert_eq!(c.0, b"\x1b[A\x1b[B\x1b[C\x1b[D".to_vec());
}

#[test]
fn counted_moves() {
    let mut c = Cursor::default();
    c.up(1);
    c.down(22);
    c.right(333);
    c.left(4444);
    c.x1down(55555);
    c.x1up(0);
    c.setx(80);
    c.sety(24);
    assert_eq!(
        c.0,
        b"\x1b[1A\x1b[22B\x1b[333C\x1b[4444D\x1b[55555E\x1b[0F\x1b[80G\x1b[24d".to_vec()
    );
}

#[test]
fn absolute_moves() {
    let mut c = Cursor::default();
    c.resetxy();
    c.mv(34, 12);
    c.mv(1, 1);
    c.mv(65535, 10000);
    assert_eq!(c.0, b"\x1b[H\x1b[12;34H\x1b[1;1H\x1b[10000;65535H".to_vec());
}

#[test]
fn erase_codes() {
    let mut c = Cursor::default();
    c.erasebelow();
    c.eraseabove();
    c.eraseall();
    c.eraseleft();
    c.eraseright();
    c.eraseline();
    assert_eq!(c.0, b"\x1b[J\x1b[1J\x1b[2J\x1b[K\x1b[1K\x1b[2K".to_vec());
}

#[test]
fn delete_codes() {
    let mut c = Cursor::default();
    c.delln();
    c.dellns(3);
    c.delch();
    c.delchs(12);
    assert_eq!(c.0, b"\x1b[M\x1b[3M\x1b[S\x1b[12S".to_vec());
}

#[test]
fn cursor_visibility() {
    let mut c = Cursor::default();
    c.showcur();
    c.hidecur();
    assert_eq!(c.0, b"\x1b[?25h\x1b[?25l".to_vec());
}

#[test]
fn alignment_pattern() {
    let mut c = Cursor::default();
    c.spame();
    assert_eq!(c.0, b"\x1b#8".to_vec());
}

#[test]
fn ext_appends() {
    let mut c = Cursor::default();
    c.ext(b"ab");
    c.ext(b"");
    c.ext(b"\x00\xff");
    assert_eq!(c.0, b"ab\x00\xff".to_vec());
}

#[test]
fn characters_in_utf8() {
    for ch in ['A', '\0', '\x7f', '\u{80}', 'é', '\u{7ff}', '\u{800}', '€', '\u{ffff}', '\u{10000}', '😀', '\u{10ffff}'] {
        let mut c = Cursor::default();
        c.prchr(ch);
        assert_eq!(c.0, ch.to_string().into_bytes());
    }
    let mut c = Cursor::default();
    c.prchr('é');
    c.prchr('€');
    c.prchr('😀');
    assert_eq!(c.0, vec![0xc3, 0xa9, 0xe2, 0x82, 0xac, 0xf0, 0x9f, 0x98, 0x80]);
}

#[test]
fn text_in_utf8() {
    let mut c = Cursor::default();
    c.print("a€\n");
    c.print("");
    assert_eq!(c.0, vec![b'a', 0xe2, 0x82, 0xac, b'\n']);
}

#[test]
fn clear_leaves_the_reset() {
    let mut c = Cursor::default();
    c.setbold();
    c.print("gone");
    c.clear();
    assert_eq!(c.0, b"\x1bc".to_vec());
}
