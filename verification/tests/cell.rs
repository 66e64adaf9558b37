use x1b::{Char, TextAttr, RGB4, TA_ALL, TA_BLINK, TA_BOLD, TA_DIM, TA_REV, TA_UNDER};

#[test]
fn attribute_bits() {
    assert_eq!(TA_BOLD, 1);
    assert_eq!(TA_DIM, 2);
    assert_eq!(TA_UNDER, 4);
    assert_eq!(TA_BLINK, 8);
    assert_eq!(TA_REV, 16);
    assert_eq!(TA_ALL, 31);
    assert_eq!(TextAttr::empty().bits(), 0);
    assert_eq!(TextAttr::all().bits(), 31);
    assert_eq!(TextAttr::default().bits(), 0);
}

#[test]
fn attributes_from_bits() {
    assert_eq!(TextAttr::from_bits(TA_BOLD | TA_REV), Some(TextAttr { bits: 17 }));
    assert_eq!(TextAttr::from_bits(0), Some(TextAttr::empty()));
    assert_eq!(TextAttr::from_bits(32), None);
    assert_eq!(TextAttr::from_bits(0xff), None);
    assert_eq!(TextAttr::from_bits_truncate(0xff).bits(), 31);
    assert_eq!(TextAttr::from_bits_truncate(0xe4).bits(), 4);
}

#[test]
fn attribute_sets() {
    let bold = TextAttr::from_bits_truncate(TA_BOLD);
    let under = TextAttr::from_bits_truncate(TA_UNDER);
    let both = TextAttr::from_bits_truncate(TA_BOLD | TA_UNDER);
    assert!(both.contains(bold));
    assert!(both.contains(under));
    assert!(both.contains(both));
    assert!(!bold.contains(both));
    assert!(!bold.contains(under));
    assert!(bold.contains(TextAttr::empty()));
    assert!(TextAttr::empty().is_empty());
    assert!(!bold.is_empty());
    let mut a = bold;
    a.insert(under);
    assert_eq!(a, both);
    a.remove(bold);
    assert_eq!(a, under);
    a.remove(bold);
    assert_eq!(a, under);
}

#[test]
fn attributes_clear() {
    let mut a = TextAttr::from_bits_truncate(TA_DIM | TA_BLINK);
    assert!(a.clear());
    assert_eq!(a.bits(), 0);
    assert!(!a.clear());
    assert_eq!(a.bits(), 0);
}

#[test]
fn cells_are_built() {
    let bold = TextAttr::from_bits_truncate(TA_BOLD);
    let c = Char::new('x', bold, RGB4::Red, RGB4::Blue);
    assert_eq!(c.get_char(), 'x');
    assert_eq!(c.get_attr(), bold);
    assert!(c.fg == RGB4::Red);
    assert!(c.bg == RGB4::Blue);

    let c = Char::new_with_color('y', RGB4::Green, RGB4::Black);
    assert_eq!(c.get_char(), 'y');
    assert_eq!(c.get_attr(), TextAttr::empty());
    assert!(c.fg == RGB4::Green);
    assert!(c.bg == RGB4::Black);

    let c: Char<RGB4> = Char::new_with_attr('z', bold);
    assert_eq!(c.get_char(), 'z');
    assert_eq!(c.get_attr(), bold);
    assert!(c.fg == RGB4::Default);
    assert!(c.bg == RGB4::Default);

    let c: Char<RGB4> = Char::from('q');
    assert_eq!(c.get_char(), 'q');
    assert_eq!(c.get_attr(), TextAttr::empty());
    assert!(c.fg == RGB4::Default);
    assert!(c.bg == RGB4::Default);

    let c: Char<RGB4> = Char::default();
    assert_eq!(c.get_char(), '\0');
    assert_eq!(c.get_attr(), TextAttr::empty());
    assert!(c.fg == RGB4::Default);
}

#[test]
fn the_character_is_kept_whole() {
    let all = TextAttr::all();
    for ch in ['\0', 'a', '\u{ffff}', '\u{10ffff}', '😀'] {
        let c = Char::new(ch, all, (), ());
        assert_eq!(c.get_char(), ch);
        assert_eq!(c.get_attr(), all);
    }
}

#[test]
fn cells_are_changed() {
    let bold = TextAttr::from_bits_truncate(TA_BOLD);
    let rev = TextAttr::from_bits_truncate(TA_REV);
    let mut c = Char::new('x', bold, RGB4::Red, RGB4::Blue);
    c.set_char('€');
    assert!(c == Char::new('€', bold, RGB4::Red, RGB4::Blue));
    c.set_attr(rev);
    assert!(c == Char::new('€', rev, RGB4::Red, RGB4::Blue));
    assert_eq!(c.get_char(), '€');
    assert_eq!(c.get_attr(), rev);
}

#[test]
fn cells_compare_by_all_four() {
    let bold = TextAttr::from_bits_truncate(TA_BOLD);
    let c = Char::new('x', bold, RGB4::Red, RGB4::Blue);
    assert!(c == Char::new('x', bold, RGB4::Red, RGB4::Blue));
    assert!(c != Char::new('y', bold, RGB4::Red, RGB4::Blue));
    assert!(c != Char::new('x', TextAttr::empty(), RGB4::Red, RGB4::Blue));
    assert!(c != Char::new('x', bold, RGB4::LightRed, RGB4::Blue));
    assert!(c != Char::new('x', bold, RGB4::Red, RGB4::Red));
}

#[test]
fn attribute_sets_more() {
    let bold = TextAttr::from_bits_truncate(TA_BOLD);
    let under = TextAttr::from_bits_truncate(TA_UNDER);
    let both = TextAttr::from_bits_truncate(TA_BOLD | TA_UNDER);
    assert!(TextAttr::all().is_all());
    assert!(!both.is_all());
    assert!(!TextAttr::empty().is_all());
    assert!(both.intersects(bold));
    assert!(bold.intersects(both));
    assert!(!bold.intersects(under));
    assert!(!bold.intersects(TextAttr::empty()));
    let mut a = bold;
    a.toggle(both);
    assert_eq!(a, under);
    a.toggle(both);
    assert_eq!(a, bold);
    a.set(under, true);
    assert_eq!(a, both);
    a.set(bold, false);
    assert_eq!(a, under);
    a.set(bold, false);
    assert_eq!(a, under);
}
