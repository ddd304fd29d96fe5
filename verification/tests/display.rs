use cursor_lock::display::{
    choice_from, custom_entries, extent, extent_or_fallback, or_fallback, pick_monitor,
    region_choice, region_for, right_half_in_range, select_monitor, select_region, CustomEntries,
    Monitor, RegionChoice,
};
use cursor_lock::region::Region;

fn full_hd() -> Monitor {
    Monitor { x: 0, y: 0, width: 1920, height: 1080 }
}

fn no_entries() -> CustomEntries {
    CustomEntries { left: None, top: None, width: None, height: None }
}

#[test]
fn monitor_is_picked_by_its_number() {
    assert_eq!(select_monitor("0", 2), Some(0));
    assert_eq!(select_monitor("1", 2), Some(1));
    assert_eq!(select_monitor("0\n", 1), Some(0));
}

#[test]
fn monitor_number_out_of_range_picks_nothing() {
    assert_eq!(select_monitor("2", 2), None);
    assert_eq!(select_monitor("0", 0), None);
    assert_eq!(select_monitor("99999999999999999999999999", 3), None);
}

#[test]
fn monitor_line_is_trimmed_before_it_is_read() {
    assert_eq!(select_monitor("  1 \r\n", 2), Some(1));
    assert_eq!(select_monitor("\t0\n", 2), Some(0));
    assert_eq!(select_monitor("\u{a0}1\u{2003}", 2), Some(1));
}

#[test]
fn monitor_line_that_is_no_number_picks_nothing() {
    assert_eq!(select_monitor("", 2), None);
    assert_eq!(select_monitor("\n", 2), None);
    assert_eq!(select_monitor("abc", 2), None);
    assert_eq!(select_monitor("1 0", 2), None);
    assert_eq!(select_monitor("-1", 2), None);
    assert_eq!(select_monitor("-0", 2), None);
    assert_eq!(select_monitor("+", 2), None);
    assert_eq!(select_monitor("1.0", 2), None);
    assert_eq!(select_monitor("0x1", 2), None);
    assert_eq!(select_monitor("\u{661}", 2), None);
}

#[test]
fn monitor_number_may_carry_a_plus_and_zeros() {
    assert_eq!(select_monitor("+1", 2), Some(1));
    assert_eq!(select_monitor("0001", 2), Some(1));
    assert_eq!(select_monitor("+000", 2), Some(0));
}

#[test]
fn pick_takes_numbers_below_the_count() {
    assert_eq!(pick_monitor(Some(0), 1), Some(0));
    assert_eq!(pick_monitor(Some(1), 1), None);
    assert_eq!(pick_monitor(Some(usize::MAX), usize::MAX), None);
    assert_eq!(pick_monitor(Some(usize::MAX - 1), usize::MAX), Some(usize::MAX - 1));
    assert_eq!(pick_monitor(None, 5), None);
}

#[test]
fn options_are_the_digits_one_to_four() {
    assert_eq!(region_choice("1"), RegionChoice::Full);
    assert_eq!(region_choice("2"), RegionChoice::LeftHalf);
    assert_eq!(region_choice("3"), RegionChoice::RightHalf);
    assert_eq!(region_choice("4"), RegionChoice::Custom);
    assert_eq!(region_choice(" 3 \r\n"), RegionChoice::RightHalf);
}

#[test]
fn anything_else_is_an_unknown_option() {
    assert_eq!(region_choice(""), RegionChoice::Unknown);
    assert_eq!(region_choice("0"), RegionChoice::Unknown);
    assert_eq!(region_choice("5"), RegionChoice::Unknown);
    assert_eq!(region_choice("12"), RegionChoice::Unknown);
    assert_eq!(region_choice("+1"), RegionChoice::Unknown);
    assert_eq!(region_choice("01"), RegionChoice::Unknown);
    assert_eq!(region_choice("one"), RegionChoice::Unknown);
    assert_eq!(region_choice("1 1"), RegionChoice::Unknown);
}

#[test]
fn extent_wraps_sizes_above_the_signed_range() {
    assert_eq!(extent(0), 0);
    assert_eq!(extent(1920), 1920);
    assert_eq!(extent(0x7fff_ffff), i32::MAX);
    assert_eq!(extent(0x8000_0000), i32::MIN);
    assert_eq!(extent(u32::MAX), -1);
}

#[test]
fn full_display() {
    let m = Monitor { x: -1920, y: 100, width: 1920, height: 1080 };
    assert_eq!(
        select_region(&m, "1\n", "", "", "", ""),
        Some(Region { x: -1920, y: 100, width: 1920, height: 1080 })
    );
}

#[test]
fn left_half() {
    let m = Monitor { x: 10, y: 20, width: 1921, height: 1080 };
    assert_eq!(
        select_region(&m, "2\n", "", "", "", ""),
        Some(Region { x: 10, y: 20, width: 960, height: 1080 })
    );
}

#[test]
fn right_half() {
    let m = Monitor { x: 10, y: 20, width: 1921, height: 1080 };
    assert_eq!(
        select_region(&m, "3\n", "", "", "", ""),
        Some(Region { x: 970, y: 20, width: 960, height: 1080 })
    );
}

#[test]
fn right_half_beyond_the_last_coordinate_is_refused() {
    let m = Monitor { x: i32::MAX - 10, y: 0, width: 1920, height: 1080 };
    assert!(!right_half_in_range(&m));
    assert_eq!(select_region(&m, "3", "", "", "", ""), None);
    assert_eq!(
        select_region(&m, "2", "", "", "", ""),
        Some(Region { x: i32::MAX - 10, y: 0, width: 960, height: 1080 })
    );
    let edge = Monitor { x: i32::MAX - 960, y: 0, width: 1920, height: 1080 };
    assert!(right_half_in_range(&edge));
    assert_eq!(
        select_region(&edge, "3", "", "", "", ""),
        Some(Region { x: i32::MAX, y: 0, width: 960, height: 1080 })
    );
}

#[test]
fn custom_rectangle() {
    assert_eq!(
        select_region(&full_hd(), "4\n", "100\n", "200\n", "300\n", "400\n"),
        Some(Region { x: 100, y: 200, width: 300, height: 400 })
    );
    assert_eq!(
        select_region(&full_hd(), "4", " -5 ", "+6", "007", "-0"),
        Some(Region { x: -5, y: 6, width: 7, height: 0 })
    );
}

#[test]
fn custom_entry_that_is_no_number_falls_back_to_the_display() {
    let m = Monitor { x: 11, y: 22, width: 1920, height: 1080 };
    assert_eq!(
        select_region(&m, "4", "x", "50", "", "1e3"),
        Some(Region { x: 11, y: 50, width: 1920, height: 1080 })
    );
    assert_eq!(
        select_region(&m, "4", "", "", "", ""),
        Some(Region { x: 11, y: 22, width: 1920, height: 1080 })
    );
}

#[test]
fn custom_entries_count_for_the_custom_option_only() {
    assert_eq!(
        select_region(&full_hd(), "1", "100", "200", "300", "400"),
        Some(Region { x: 0, y: 0, width: 1920, height: 1080 })
    );
}

#[test]
fn unknown_option_is_the_full_display() {
    assert_eq!(
        select_region(&full_hd(), "9", "1", "2", "3", "4"),
        Some(Region { x: 0, y: 0, width: 1920, height: 1080 })
    );
    assert_eq!(
        select_region(&full_hd(), "", "", "", "", ""),
        Some(Region { x: 0, y: 0, width: 1920, height: 1080 })
    );
}

#[test]
fn oversized_display_wraps() {
    let m = Monitor { x: 0, y: 0, width: u32::MAX, height: 0x8000_0000 };
    assert_eq!(
        region_for(&m, RegionChoice::Full, no_entries()),
        Region { x: 0, y: 0, width: -1, height: i32::MIN }
    );
    let odd = Monitor { x: 7, y: 0, width: u32::MAX - 2, height: 10 };
    assert_eq!(
        region_for(&odd, RegionChoice::RightHalf, no_entries()),
        Region { x: 6, y: 0, width: -1, height: 10 }
    );
}

#[test]
fn signed_numbers_at_the_ends_of_the_range() {
    let e = custom_entries("2147483647", "-2147483648", "2147483648", "-2147483649");
    assert_eq!(
        e,
        CustomEntries { left: Some(i32::MAX), top: Some(i32::MIN), width: None, height: None }
    );
}

#[test]
fn signed_numbers_take_one_sign_and_digits_only() {
    assert_eq!(
        custom_entries("+", "-", "", "+-1"),
        CustomEntries { left: None, top: None, width: None, height: None }
    );
    assert_eq!(
        custom_entries("1_000", "1,000", "--1", "12a"),
        CustomEntries { left: None, top: None, width: None, height: None }
    );
    assert_eq!(
        custom_entries("\u{ff11}", "\u{663}", "0x10", "1 2"),
        CustomEntries { left: None, top: None, width: None, height: None }
    );
    assert_eq!(
        custom_entries("+0", "-0", "000000000000000012", "-0099"),
        CustomEntries { left: Some(0), top: Some(0), width: Some(12), height: Some(-99) }
    );
}

#[test]
fn signed_numbers_are_trimmed_first() {
    assert_eq!(
        custom_entries(" 1", "2 ", "\t3\r\n", "\u{3000}4\u{2028}"),
        CustomEntries { left: Some(1), top: Some(2), width: Some(3), height: Some(4) }
    );
}

#[test]
fn fallback_applies_to_a_missing_entry_only() {
    assert_eq!(or_fallback(Some(3), 9), 3);
    assert_eq!(or_fallback(None, 9), 9);
}

#[test]
fn typed_negative_width_and_height_are_not_taken() {
    assert_eq!(
        select_region(&full_hd(), "4", "10", "20", "-5", "-1"),
        Some(Region { x: 10, y: 20, width: 1920, height: 1080 })
    );
    assert_eq!(
        select_region(&full_hd(), "4\n", "0\n", "0\n", "-5\n", "600\n"),
        Some(Region { x: 0, y: 0, width: 1920, height: 600 })
    );
    assert_eq!(
        select_region(&full_hd(), "4", "0", "0", "800", "-2147483648"),
        Some(Region { x: 0, y: 0, width: 800, height: 1080 })
    );
}

#[test]
fn typed_negative_corner_is_taken() {
    assert_eq!(
        select_region(&full_hd(), "4", "-1920", "-100", "1920", "1080"),
        Some(Region { x: -1920, y: -100, width: 1920, height: 1080 })
    );
}

#[test]
fn typed_zero_extent_is_taken() {
    assert_eq!(
        select_region(&full_hd(), "4", "5", "6", "0", "-0"),
        Some(Region { x: 5, y: 6, width: 0, height: 0 })
    );
}

#[test]
fn no_choice_gives_a_negative_extent_on_an_ordinary_display() {
    let m = Monitor { x: -100, y: 50, width: 2561, height: 1441 };
    let lines = ["-1", "-2147483648", "x", "", "7", "2147483647"];
    for choice in ["1", "2", "3", "4", "9", ""] {
        for w in lines {
            for h in lines {
                let r = select_region(&m, choice, "-3", "-4", w, h).unwrap();
                assert!(r.width >= 0 && r.height >= 0);
            }
        }
    }
}

#[test]
fn halves_meet_in_the_middle() {
    let m = Monitor { x: -100, y: 50, width: 2561, height: 1441 };
    let left = select_region(&m, "2", "", "", "", "").unwrap();
    let right = select_region(&m, "3", "", "", "", "").unwrap();
    assert_eq!(left.width, 1280);
    assert_eq!(right.width, 1280);
    assert_eq!(right.x, left.x + left.width);
    assert_eq!(right.x, 1180);
}

#[test]
fn extent_fallback_applies_below_zero_too() {
    assert_eq!(extent_or_fallback(Some(3), 9), 3);
    assert_eq!(extent_or_fallback(Some(0), 9), 0);
    assert_eq!(extent_or_fallback(Some(-1), 9), 9);
    assert_eq!(extent_or_fallback(Some(i32::MIN), 9), 9);
    assert_eq!(extent_or_fallback(None, 9), 9);
}

#[test]
fn choice_is_read_from_the_line_as_it_stands() {
    assert_eq!(choice_from("1"), RegionChoice::Full);
    assert_eq!(choice_from("2"), RegionChoice::LeftHalf);
    assert_eq!(choice_from("3"), RegionChoice::RightHalf);
    assert_eq!(choice_from("4"), RegionChoice::Custom);
    assert_eq!(choice_from("4\n"), RegionChoice::Unknown);
    assert_eq!(choice_from(" 4"), RegionChoice::Unknown);
    assert_eq!(choice_from(""), RegionChoice::Unknown);
    assert_eq!(choice_from("\u{ff11}"), RegionChoice::Unknown);
}

#[test]
fn trimming_drops_blanks_and_nothing_printable() {
    assert_eq!(region_choice(" \t\u{b}\u{c}\r\n3\n\r\u{c}\u{b}\t "), RegionChoice::RightHalf);
    assert_eq!(region_choice(" \t\r\n"), RegionChoice::Unknown);
    assert_eq!(region_choice("!3"), RegionChoice::Unknown);
    assert_eq!(region_choice("3~"), RegionChoice::Unknown);
    assert_eq!(select_monitor("\u{b}12\u{c}", 13), Some(12));
    assert_eq!(select_monitor("1 2", 13), None);
}
