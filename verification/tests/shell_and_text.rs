use kotauri::shell::{injection_delay_ms, is_open_settings_navigation, tray_menu_action, TrayAction};
use kotauri::text::{contains_text, control_char, parse_u32, push_decimal, starts_with_text, white_space};

#[test]
fn open_settings_route_is_caught() {
    assert!(is_open_settings_navigation("https://kotauri.internal/open-settings"));
    assert!(is_open_settings_navigation("https://kotauri.internal/open-settings?x=1"));
    assert!(!is_open_settings_navigation("https://web.telegram.org/k/"));
    assert!(!is_open_settings_navigation("https://kotauri.internal/clipboard-image"));
}

#[test]
fn tray_entries_map_to_actions() {
    assert_eq!(tray_menu_action("quit"), TrayAction::Quit);
    assert_eq!(tray_menu_action("show"), TrayAction::ShowMain);
    assert_eq!(tray_menu_action("settings_menu"), TrayAction::OpenSettings);
    assert_eq!(tray_menu_action("other"), TrayAction::Ignore);
}

#[test]
fn injection_schedule_waits_then_repeats() {
    assert_eq!(injection_delay_ms(0), None);
    assert_eq!(injection_delay_ms(1), Some(400));
    assert_eq!(injection_delay_ms(2), Some(750));
    assert_eq!(injection_delay_ms(22), Some(750));
    assert_eq!(injection_delay_ms(23), None);
    let total: u64 = (1..).map_while(injection_delay_ms).sum();
    assert_eq!(total, 16150);
}

#[test]
fn parse_matches_std() {
    for s in [
        "", "+", "-", "0", "007", "+12", "++1", "-1", "-0", "12a", " 1", "1 ", "4294967295", "4294967296",
        "99999999999999999999", "00000000000000000000042", "١٢",
    ] {
        assert_eq!(parse_u32(s), s.parse::<u32>().ok(), "input {s:?}");
    }
}

#[test]
fn decimal_matches_display() {
    for n in [0u32, 7, 10, 14, 170, 10001, 4294967295] {
        let mut s = String::from("x");
        push_decimal(&mut s, n);
        assert_eq!(s, format!("x{n}"));
    }
}

#[test]
fn char_classes_match_std() {
    for c in (0u32..0x11_0000).filter_map(char::from_u32) {
        assert_eq!(white_space(c), c.is_whitespace(), "{c:?}");
        assert_eq!(control_char(c), c.is_control(), "{c:?}");
    }
}

#[test]
fn substring_search() {
    assert!(contains_text("abcabd", "abd"));
    assert!(contains_text("abc", ""));
    assert!(!contains_text("ab", "abc"));
    assert!(starts_with_text("data:image", "data:"));
    assert!(!starts_with_text("dat", "data:"));
}
