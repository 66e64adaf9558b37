use x1b::{Char, CursorState, TextAttr, RGB4, TA_BLINK, TA_BOLD, TA_DIM, TA_REV, TA_UNDER};

fn attrs(bits: u8) -> TextAttr {
    TextAttr::from_bits_truncate(bits)
}

fn sent<T: x1b::RGB>(s: &mut CursorState<T>) -> Vec<u8> {
    s.cursor.take()
}

#[test]
fn a_new_stream() {
    let s: CursorState<RGB4> = CursorState::default();
    assert!(s.cursor.0.is_empty());
    assert_eq!(s.pen.x, 0);
    assert_eq!(s.pen.y, 0);
    assert_eq!(s.pen.attr, TextAttr::empty());
    assert!(s.pen.fg == RGB4::Default);
    assert!(s.pen.bg == RGB4::Default);
}

#[test]
fn same_attributes_send_nothing() {
    let mut s: CursorState<()> = CursorState::default();
    s.setattr(attrs(TA_BOLD));
    assert_eq!(sent(&mut s), b"\x1b[1m".to_vec());
    s.setattr(attrs(TA_BOLD));
    assert_eq!(sent(&mut s), b"".to_vec());
    assert_eq!(s.pen.attr, attrs(TA_BOLD));
}

#[test]
fn more_attributes_send_the_new_ones() {
    let mut s: CursorState<()> = CursorState::default();
    s.setattr(attrs(TA_BOLD));
    sent(&mut s);
    s.setattr(attrs(TA_BOLD | TA_UNDER));
    assert_eq!(sent(&mut s), b"\x1b[4m".to_vec());
    s.setattr(attrs(TA_BOLD | TA_DIM | TA_UNDER | TA_REV));
    assert_eq!(sent(&mut s), b"\x1b[2;7m".to_vec());
    assert_eq!(s.pen.attr, attrs(TA_BOLD | TA_DIM | TA_UNDER | TA_REV));
}

#[test]
fn fewer_attributes_send_the_reset() {
    let mut s: CursorState<()> = CursorState::default();
    s.setattr(attrs(TA_BOLD | TA_UNDER));
    assert_eq!(sent(&mut s), b"\x1b[1;4m".to_vec());
    s.setattr(attrs(TA_UNDER));
    assert_eq!(sent(&mut s), b"\x1b[m\x1b[4m".to_vec());
    s.setattr(attrs(TA_BOLD));
    assert_eq!(sent(&mut s), b"\x1b[m\x1b[1m".to_vec());
    s.setattr(TextAttr::empty());
    assert_eq!(sent(&mut s), b"\x1b[m".to_vec());
    assert_eq!(s.pen.attr, TextAttr::empty());
}

#[test]
fn all_attributes_in_order() {
    let mut s: CursorState<()> = CursorState::default();
    s.setattr(TextAttr::all());
    assert_eq!(sent(&mut s), b"\x1b[1;2;4;5;7m".to_vec());
    s.setattr(attrs(TA_BLINK));
    assert_eq!(sent(&mut s), b"\x1b[m\x1b[5m".to_vec());
}

#[test]
fn each_attribute_alone() {
    for (flag, code) in [(TA_BOLD, '1'), (TA_DIM, '2'), (TA_UNDER, '4'), (TA_BLINK, '5'), (TA_REV, '7')] {
        let mut s: CursorState<()> = CursorState::default();
        s.setattr(attrs(flag));
        assert_eq!(sent(&mut s), format!("\x1b[{}m", code).into_bytes());
    }
}

#[test]
fn same_colour_sends_nothing() {
    let mut s: CursorState<RGB4> = CursorState::default();
    s.setfg(RGB4::Default);
    s.setbg(RGB4::Default);
    assert_eq!(sent(&mut s), b"".to_vec());
    s.setfg(RGB4::Red);
    s.setfg(RGB4::Red);
    s.setbg(RGB4::Blue);
    s.setbg(RGB4::Blue);
    assert_eq!(sent(&mut s), b"\x1b[31m\x1b[44m".to_vec());
    assert!(s.pen.fg == RGB4::Red);
    assert!(s.pen.bg == RGB4::Blue);
    s.setfg(RGB4::Default);
    assert_eq!(sent(&mut s), b"\x1b[39m".to_vec());
}

#[test]
fn direct_colour_stream() {
    let mut s: CursorState<(u8, u8, u8)> = CursorState::default();
    s.setfg((0, 0, 0));
    assert_eq!(sent(&mut s), b"".to_vec());
    s.setfg((1, 2, 3));
    s.setbg((1, 2, 3));
    s.setbg((1, 2, 3));
    assert_eq!(sent(&mut s), b"\x1b[38;2;1;2;3m\x1b[48;2;1;2;3m".to_vec());
}

#[test]
fn same_place_sends_no_move() {
    let mut s: CursorState<()> = CursorState::default();
    s.moveto(0, 0);
    assert_eq!(sent(&mut s), b"".to_vec());
    s.moveto(5, 5);
    assert_eq!(sent(&mut s), b"\x1b[6;6H".to_vec());
    s.moveto(5, 5);
    assert_eq!(sent(&mut s), b"".to_vec());
    s.moveto(33, 11);
    assert_eq!(sent(&mut s), b"\x1b[12;34H".to_vec());
    assert_eq!((s.pen.x, s.pen.y), (33, 11));
}

#[test]
fn the_far_corner_can_be_named() {
    let mut s: CursorState<()> = CursorState::default();
    s.moveto(65535, 65535);
    assert_eq!(sent(&mut s), b"\x1b[65536;65536H".to_vec());
    s.prchr('x');
    assert_eq!((s.pen.x, s.pen.y), (65536, 65535));
    s.moveto(65535, 65535);
    assert_eq!(sent(&mut s), b"x\x1b[65536;65536H".to_vec());
}

#[test]
fn a_character_moves_the_cursor_on() {
    let mut s: CursorState<()> = CursorState::default();
    s.moveto(5, 5);
    s.prchr('a');
    s.moveto(6, 5);
    s.prchr('€');
    s.moveto(7, 5);
    assert_eq!(sent(&mut s), b"\x1b[6;6Ha\xe2\x82\xac".to_vec());
    assert_eq!((s.pen.x, s.pen.y), (7, 5));
}

#[test]
fn the_column_stops_at_the_limit() {
    let mut s: CursorState<()> = CursorState::default();
    s.pen.x = u32::MAX - 1;
    s.prchr('a');
    assert_eq!(s.pen.x, u32::MAX);
    s.prchr('b');
    assert_eq!(s.pen.x, u32::MAX);
    s.pen.y = u32::MAX;
    s.print("\n");
    assert_eq!((s.pen.x, s.pen.y), (0, u32::MAX));
}

#[test]
fn text_moves_the_cursor() {
    let mut s: CursorState<()> = CursorState::default();
    s.moveto(3, 2);
    s.print("ab");
    assert_eq!((s.pen.x, s.pen.y), (5, 2));
    s.print("x\nyz€\n\nq");
    assert_eq!((s.pen.x, s.pen.y), (1, 5));
    s.print("");
    assert_eq!((s.pen.x, s.pen.y), (1, 5));
    assert_eq!(sent(&mut s), "\x1b[3;4Habx\nyz€\n\nq".as_bytes().to_vec());
}

#[test]
fn a_cell_in_full() {
    let mut s: CursorState<RGB4> = CursorState::default();
    let cell = Char::new('X', attrs(TA_BOLD), RGB4::Red, RGB4::Blue);
    s.put(2, 1, &cell);
    assert_eq!(sent(&mut s), b"\x1b[2;3H\x1b[1m\x1b[44m\x1b[31mX".to_vec());
    assert_eq!((s.pen.x, s.pen.y), (3, 1));
    assert_eq!(s.pen.attr, attrs(TA_BOLD));
    assert!(s.pen.fg == RGB4::Red);
    assert!(s.pen.bg == RGB4::Blue);
    s.put(3, 1, &Char::new('Y', attrs(TA_BOLD), RGB4::Red, RGB4::Blue));
    assert_eq!(sent(&mut s), b"Y".to_vec());
    s.put(3, 1, &Char::new('Z', attrs(TA_BOLD), RGB4::Red, RGB4::Green));
    assert_eq!(sent(&mut s), b"\x1b[2;4H\x1b[42mZ".to_vec());
}

#[test]
fn relative_moves_are_followed() {
    let mut s: CursorState<()> = CursorState::default();
    s.moveto(10, 10);
    s.up(3);
    assert_eq!((s.pen.x, s.pen.y), (10, 7));
    s.down(5);
    assert_eq!((s.pen.x, s.pen.y), (10, 12));
    s.right(7);
    assert_eq!((s.pen.x, s.pen.y), (17, 12));
    s.left(17);
    assert_eq!((s.pen.x, s.pen.y), (0, 12));
    assert_eq!(sent(&mut s), b"\x1b[11;11H\x1b[3A\x1b[5B\x1b[7C\x1b[17D".to_vec());
    s.moveto(0, 12);
    assert_eq!(sent(&mut s), b"".to_vec());
    s.moveto(10, 10);
    assert_eq!(sent(&mut s), b"\x1b[11;11H".to_vec());
}

#[test]
fn relative_moves_stop_at_the_edge() {
    let mut s: CursorState<()> = CursorState::default();
    s.moveto(2, 3);
    s.up(4);
    s.left(65535);
    assert_eq!((s.pen.x, s.pen.y), (0, 0));
    s.up(0);
    s.left(0);
    s.down(0);
    s.right(0);
    assert_eq!((s.pen.x, s.pen.y), (0, 0));
    s.pen.x = u32::MAX - 2;
    s.pen.y = u32::MAX - 2;
    s.right(2);
    s.down(3);
    assert_eq!((s.pen.x, s.pen.y), (u32::MAX, u32::MAX));
}

#[test]
fn line_moves_are_followed() {
    let mut s: CursorState<()> = CursorState::default();
    s.moveto(10, 10);
    s.x1down(2);
    assert_eq!((s.pen.x, s.pen.y), (0, 12));
    s.moveto(10, 10);
    s.x1up(20);
    assert_eq!((s.pen.x, s.pen.y), (0, 0));
    assert_eq!(sent(&mut s), b"\x1b[11;11H\x1b[2E\x1b[11;11H\x1b[20F".to_vec());
}

#[test]
fn absolute_moves_are_followed() {
    let mut s: CursorState<()> = CursorState::default();
    s.moveto(10, 10);
    s.setx(1);
    assert_eq!((s.pen.x, s.pen.y), (0, 10));
    s.sety(24);
    assert_eq!((s.pen.x, s.pen.y), (0, 23));
    s.setx(80);
    assert_eq!((s.pen.x, s.pen.y), (79, 23));
    s.setx(0);
    s.sety(0);
    assert_eq!((s.pen.x, s.pen.y), (0, 0));
    s.moveto(5, 5);
    s.resetxy();
    assert_eq!((s.pen.x, s.pen.y), (0, 0));
    assert_eq!(
        sent(&mut s),
        b"\x1b[11;11H\x1b[1G\x1b[24d\x1b[80G\x1b[0G\x1b[0d\x1b[6;6H\x1b[H".to_vec()
    );
    s.setx(65535);
    s.sety(65535);
    assert_eq!((s.pen.x, s.pen.y), (65534, 65534));
}

#[test]
fn a_move_keeps_attributes_and_colours() {
    let mut s: CursorState<RGB4> = CursorState::default();
    s.setattr(attrs(TA_REV));
    s.setfg(RGB4::Cyan);
    s.setbg(RGB4::Magenta);
    sent(&mut s);
    s.up(1);
    s.setx(3);
    s.resetxy();
    s.moveto(1, 1);
    s.prchr('x');
    s.print("y\n");
    assert_eq!(s.pen.attr, attrs(TA_REV));
    assert!(s.pen.fg == RGB4::Cyan);
    assert!(s.pen.bg == RGB4::Magenta);
    s.setattr(attrs(TA_REV));
    s.setfg(RGB4::Cyan);
    s.setbg(RGB4::Magenta);
    assert_eq!(sent(&mut s), b"\x1b[1A\x1b[3G\x1b[H\x1b[2;2Hxy\n".to_vec());
}
