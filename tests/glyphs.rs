use tock::font;
use tock::time::hour12;
use tock::time::Time;

fn glyphs(t: &Time) -> Vec<u16> {
    match t {
        Time::S24(a) => a.to_vec(),
        Time::S12(a) => a.to_vec(),
        Time::M24(a) => a.to_vec(),
        Time::M12(a) => a.to_vec(),
    }
}

#[test]
fn width_matches_blank_length() {
    for second in [false, true] {
        for military in [false, true] {
            let blank = Time::blank(second, military);
            assert_eq!(Time::width(second, military), glyphs(&blank).len());
            assert!(glyphs(&blank).iter().all(|g| *g == 0));
        }
    }
    assert_eq!(Time::width(true, true), 8);
    assert_eq!(Time::width(true, false), 11);
    assert_eq!(Time::width(false, true), 5);
    assert_eq!(Time::width(false, false), 8);
}

#[test]
fn twelve_hour_with_seconds_sample() {
    let t = Time::new(9, 5, 3, true, false);
    assert!(matches!(t, Time::S12(_)));
    let expected = vec![
        font::digit(0),
        font::digit(9),
        font::COLON,
        font::digit(0),
        font::digit(5),
        font::COLON,
        font::digit(0),
        font::digit(3),
        font::SPACE,
        font::A,
        font::M,
    ];
    assert_eq!(glyphs(&t), expected);
}

#[test]
fn twenty_four_hour_without_seconds_sample() {
    let t = Time::new(23, 59, 30, false, true);
    assert!(matches!(t, Time::M24(_)));
    assert_eq!(
        glyphs(&t),
        vec![font::digit(2), font::digit(3), font::COLON, font::digit(5), font::digit(9)]
    );
}

#[test]
fn midnight_and_noon_in_twelve_hour_mode() {
    let midnight = Time::new(0, 0, 0, false, false);
    assert_eq!(
        glyphs(&midnight),
        vec![
            font::digit(1),
            font::digit(2),
            font::COLON,
            font::digit(0),
            font::digit(0),
            font::SPACE,
            font::A,
            font::M
        ]
    );
    let afternoon = Time::new(13, 7, 0, false, false);
    assert_eq!(glyphs(&afternoon)[0], font::digit(0));
    assert_eq!(glyphs(&afternoon)[1], font::digit(1));
    assert_eq!(glyphs(&afternoon)[6], font::P);
    let s24 = Time::new(13, 7, 42, true, true);
    assert!(matches!(s24, Time::S24(_)));
    assert_eq!(glyphs(&s24)[6], font::digit(4));
    assert_eq!(glyphs(&s24)[7], font::digit(2));
}

#[test]
fn hour12_conversion() {
    assert_eq!(hour12(0), (false, 12));
    assert_eq!(hour12(1), (false, 1));
    assert_eq!(hour12(11), (false, 11));
    assert_eq!(hour12(12), (true, 12));
    assert_eq!(hour12(13), (true, 1));
    assert_eq!(hour12(23), (true, 11));
}

#[test]
fn digit_bitmaps() {
    assert_eq!(font::digit(0), 0b0111_1011_0110_1111);
    assert_eq!(font::digit(1), 0b0010_1100_1001_0111);
    assert_eq!(font::digit(7), 0b0111_0010_0100_1001);
    assert_eq!(font::digit(9), 0b0111_1011_1100_1111);
    for d in 0..10 {
        assert!(font::digit(d) < 0x8000);
    }
    assert_eq!(font::W, 3);
    assert_eq!(font::H, 5);
}

#[test]
fn diff_with_self_is_zero() {
    let a = Time::new(12, 34, 56, true, false);
    let d = a.diff(&a);
    assert!(matches!(d, Time::S12(_)));
    assert!(glyphs(&d).iter().all(|g| *g == 0));
}

#[test]
fn diff_is_symmetric_and_self_inverse() {
    let a = Time::new(10, 59, 59, true, true);
    let b = Time::new(11, 0, 0, true, true);
    let ab = a.diff(&b);
    let ba = b.diff(&a);
    assert_eq!(glyphs(&ab), glyphs(&ba));
    assert_eq!(glyphs(&ab.diff(&b)), glyphs(&a));
    assert_eq!(ab.get(0), 0);
    assert_eq!(ab.get(1), font::digit(0) ^ font::digit(1));
    assert_eq!(ab.get(2), 0);
    assert!(a.is_same_shape(&b));
    assert!(!a.is_same_shape(&Time::blank(false, true)));
}
