use tock::brush::Color;
use tock::brush::C8;
use tock::time;
use tock::time::Date;
use tock::time::LocalReading;
use tock::time::Time;
use tock::view::Clock;
use tock::view::Configuration;
use tock::zone::Tz;

fn configuration(second: bool, military: bool, center: bool) -> Configuration {
    Configuration {
        x: 0,
        y: 0,
        width: 1,
        height: 1,
        second,
        military,
        center,
        color: Color::C8(C8(2)),
        format: String::from("%F | %Z"),
    }
}

#[test]
fn centering_in_eighty_by_twenty_four() {
    let mut clock = Clock::new(configuration(false, false, true), "UTC");
    assert_eq!(clock.width(), 31);
    assert_eq!(clock.height(), 5);
    clock.resize((80, 24));
    assert_eq!(clock.origin(), (24, 9));
}

#[test]
fn centering_in_a_small_terminal_clamps_to_edge() {
    let mut clock = Clock::new(configuration(true, false, true), "UTC");
    assert_eq!(clock.width(), 43);
    clock.resize((20, 3));
    assert_eq!(clock.origin(), (0, 0));
}

#[test]
fn resize_without_centering_keeps_origin() {
    let mut c = configuration(false, true, false);
    c.x = 3;
    c.y = 4;
    let mut clock = Clock::new(c, "UTC");
    clock.resize((80, 24));
    assert_eq!(clock.origin(), (3, 4));
    assert_eq!(clock.width(), 19);
}

#[test]
fn clock_geometry_scales_with_tiles() {
    let mut c = configuration(true, true, false);
    c.width = 2;
    c.height = 3;
    let clock = Clock::new(c, "UTC");
    assert_eq!(clock.width(), 2 * 4 * 8 - 1);
    assert_eq!(clock.height(), 15);
}

#[test]
fn configuration_fits() {
    assert!(configuration(false, false, false).fits());
    let mut c = configuration(false, false, false);
    c.width = 0;
    assert!(!c.fits());
    let mut c = configuration(false, false, false);
    c.width = 1489;
    assert!(c.fits());
    c.width = 1490;
    assert!(!c.fits());
    let mut c = configuration(false, false, false);
    c.x = 65535 - 42;
    assert!(c.fits());
    c.x += 1;
    assert!(!c.fits());
    let mut c = configuration(false, false, false);
    c.height = 13106;
    assert!(c.fits());
    c.y = 4;
    assert!(c.fits());
    c.y = 5;
    assert!(!c.fits());
    let mut c = configuration(false, false, false);
    c.height = 0;
    assert!(!c.fits());
}

#[test]
fn centering_keeps_widest_clock_in_range() {
    let mut c = configuration(false, true, true);
    c.width = 1400;
    let mut clock = Clock::new(c, "UTC");
    // five glyphs: 27999 columns wide, centered at 18768, but the widest
    // clock's last tile must start by column 65535
    assert_eq!(clock.width(), 27999);
    clock.resize((65535, 24));
    assert_eq!(clock.origin(), (65535 - 42 * 1400, 9));
    clock.toggle_second();
    clock.toggle_military();
    assert_eq!(clock.width(), 44 * 1400 - 1);
}

#[test]
fn date_line_position() {
    let clock = Clock::new(configuration(false, true, false), "UTC");
    // 19 columns wide, 5 rows high
    assert_eq!(clock.date_origin("09"), (8, 6));
    assert_eq!(clock.date_origin("2024-03-09 | UTC"), (1, 6));
    assert_eq!(clock.date_origin("a date line wider than the clock"), (0, 6));
    assert_eq!(clock.date_origin(""), (9, 6));
}

#[test]
fn draft_leaves_clock_until_commit() {
    let mut clock = Clock::new(configuration(false, true, false), "UTC");
    let date = Date::new(2024, 3, 9, "UTC");
    let t = Time::new(10, 20, 0, false, true);
    let draft = clock.draft_reset(date.clone(), t).unwrap();
    assert!(draft.text.starts_with("\x1B[2J"));
    // not committed: the clock still holds the blank baseline
    let again = clock.draft_reset(date.clone(), t).unwrap();
    assert_eq!(again.text, draft.text);
    assert!(!clock.draft_update(date.clone(), t).unwrap().text.is_empty());
    clock.commit(draft);
    let after = clock.draft_update(date, t).unwrap();
    assert_eq!(after.text, "");
}

#[test]
fn update_after_reset_of_same_instant_is_empty() {
    let mut clock = Clock::new(configuration(true, false, false), "UTC");
    let t = Time::new(9, 5, 3, true, false);
    let full = clock.reset_at(Date::new(2024, 3, 9, "UTC"), t).unwrap();
    assert!(full.starts_with("\x1B[2J"));
    assert!(full.ends_with("2024-03-09 | UTC"));
    let again = clock.update_at(Date::new(2024, 3, 9, "UTC"), t).unwrap();
    assert_eq!(again, "");
}

#[test]
fn full_repaint_of_a_small_clock() {
    // one glyph row is written once per tile row, after a move
    let mut c = configuration(false, true, false);
    c.format = String::from("%d");
    let mut clock = Clock::new(c, "UTC");
    let out = clock.reset_at(Date::new(2024, 3, 9, "UTC"), Time::new(0, 0, 0, false, true)).unwrap();
    let moves = out.matches("H").count();
    assert_eq!(moves, 5 + 1);
    assert!(out.contains("\x1B[1;1H\x1B[48;5;2m   \x1B[49m "));
    // the date "09" is centered under the 19-column clock
    assert!(out.ends_with("\x1B[7;9H09"));
}

#[test]
fn update_draws_only_changed_bits() {
    let mut clock = Clock::new(configuration(false, true, false), "UTC");
    let date = Date::new(2024, 3, 9, "UTC");
    clock.reset_at(date.clone(), Time::new(10, 20, 0, false, true)).unwrap();
    // 10:20 -> 10:21: only the last digit changes, from 0 to 1
    let out = clock.update_at(date, Time::new(10, 21, 0, false, true)).unwrap();
    let changed = (tock::font::digit(0) ^ tock::font::digit(1)).count_ones() as usize;
    assert_eq!(out.matches("H").count(), changed);
    // every move lands in the last glyph, which starts at column 16 (1-based 17)
    for part in out.split("\x1B[").filter(|p| p.ends_with('H') || p.contains("H ")) {
        let col: u32 = part.split(';').nth(1).unwrap().trim_end_matches(|c: char| !c.is_ascii_digit()).parse().unwrap();
        assert!(col >= 17, "{part:?}");
    }
}

#[test]
fn update_redraws_date_only_when_it_changes() {
    let mut clock = Clock::new(configuration(false, true, false), "UTC");
    let t = Time::new(23, 59, 0, false, true);
    clock.reset_at(Date::new(2024, 3, 9, "UTC"), t).unwrap();
    let out = clock.update_at(Date::new(2024, 3, 10, "UTC"), t).unwrap();
    assert!(out.ends_with("2024-03-10 | UTC"));
    let out = clock.update_at(Date::new(2024, 3, 10, "UTC"), t).unwrap();
    assert_eq!(out, "");
}

#[test]
fn toggling_seconds_forces_full_repaint() {
    let mut clock = Clock::new(configuration(false, false, false), "UTC");
    let date = Date::new(2024, 3, 9, "UTC");
    clock.reset_at(date.clone(), Time::new(9, 5, 3, false, false)).unwrap();
    clock.toggle_second();
    let out = clock.update_at(date.clone(), Time::new(9, 5, 3, true, false)).unwrap();
    assert!(out.contains("\x1B[2J"));
    // after a full repaint the brush is off with nothing pending, as a new one is
    let mut fresh = Clock::new(configuration(true, false, false), "UTC");
    let full = fresh.reset_at(date, Time::new(9, 5, 3, true, false)).unwrap();
    assert_eq!(out, full);
}

#[test]
fn bad_date_format_leaves_clock_unchanged() {
    let mut c = configuration(false, true, false);
    c.format = String::from("%H:%M");
    let mut clock = Clock::new(c, "UTC");
    let t = Time::new(1, 2, 0, false, true);
    assert_eq!(clock.reset_at(Date::new(2024, 3, 9, "UTC"), t), None);
    assert_eq!(clock.update_at(Date::new(2024, 3, 9, "UTC"), t), None);
}

#[test]
fn set_color_changes_lit_paint() {
    let mut clock = Clock::new(configuration(false, true, false), "UTC");
    clock.set_color(Color::C8(C8(5)));
    let out = clock.reset_at(Date::new(2024, 3, 9, "UTC"), Time::new(0, 0, 0, false, true)).unwrap();
    assert!(out.contains("\x1B[48;5;5m"));
    assert!(!out.contains("\x1B[48;5;2m"));
}

#[test]
fn live_clock_renders() {
    let mut clock = Clock::new(configuration(true, true, false), "Local");
    let full = clock.reset().unwrap();
    assert!(full.text.contains("\x1B[2J"));
    assert!(full.text.ends_with(" | Local"));
    clock.commit(full);
    assert!(clock.update().is_some());
}

#[test]
fn date_format_substitutes_zone() {
    let d = Date::new(2024, 3, 9, "UTC");
    let mut buf = String::from(">");
    assert!(d.format("%Y/%m/%d %Z", &mut buf));
    assert_eq!(buf, ">2024/03/09 UTC");
    let mut buf = String::new();
    assert!(!d.format("%Q", &mut buf));
    assert_eq!(buf, "");
    let mut buf = String::new();
    assert!(!Date::blank().format("%H", &mut buf));
    let mut buf = String::new();
    assert!(Date::blank().format("%F", &mut buf));
    assert_eq!(buf, "0001-01-01");
}

#[test]
fn dates_compare_whole() {
    assert!(Date::new(2024, 3, 9, "UTC") == Date::new(2024, 3, 9, "UTC"));
    assert!(Date::new(2024, 3, 9, "UTC") != Date::new(2024, 3, 9, "Local"));
    assert!(Date::new(2024, 3, 9, "UTC") != Date::new(2023, 3, 9, "UTC"));
    assert!(Date::blank() != Date::new(1, 1, 1, "UTC"));
}

#[test]
fn replace_zone_everywhere() {
    assert_eq!(time::replace_zone("%F | %Z", "Europe/Paris"), "%F | Europe/Paris");
    assert_eq!(time::replace_zone("%Z%Z%", "A"), "AA%");
    assert_eq!(time::replace_zone("", "A"), "");
    assert_eq!(time::replace_zone("%%ZZ", "é"), "%éZ");
}

#[test]
fn reading_gives_date_and_time() {
    let r = LocalReading {
        year: 2024,
        month: 2,
        day: 29,
        hour: 21,
        minute: 30,
        second: 15,
        nanosecond: 0,
    };
    let (date, t) = time::at(&r, "UTC", false, false);
    assert!(date == Date::new(2024, 2, 29, "UTC"));
    assert_eq!(t.get(0), tock::font::digit(0));
    assert_eq!(t.get(1), tock::font::digit(9));
    assert_eq!(t.get(6), tock::font::P);
}

#[test]
fn delay_to_next_second() {
    assert_eq!(time::nanos_to_next_second(0), 1_000_000_000);
    assert_eq!(time::nanos_to_next_second(999_999_999), 1);
    assert_eq!(time::nanos_to_next_second(250_000_000), 750_000_000);
    assert_eq!(time::nanos_to_next_second(1_500_000_000), 500_000_000);
    let d = time::until_next_second();
    assert!((1..=1_000_000_000).contains(&d));
}

#[test]
fn utc_zone_by_name() {
    assert_eq!(Tz.name(), "UTC");
    assert!(Tz::parse("UTC").is_ok());
    assert!(Tz::parse("  utc\n").is_ok());
    assert!(" Utc".parse::<Tz>().is_ok());
    assert_eq!(Tz::parse(" EST ").unwrap_err(), "'EST' is not a valid timezone");
    assert_eq!(Tz::parse("UTC+1").unwrap_err(), "'UTC+1' is not a valid timezone");
    assert_eq!(tock::zone::trimmed("\u{3000} a b\t"), "a b");
}
