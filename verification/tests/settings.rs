use kotauri::injected_text::{
    BASE_LAYOUT_CSS, CHAT_ID_CLEANUP_GUARD, CHAT_ID_CLEANUP_JS, CHAT_ID_OVERLAY_GUARD, NORD_THEME_CSS,
};
use kotauri::settings::{
    initial_settings_script, setting_value_text, AppSettings, SettingValue, SettingsData,
};
use kotauri::web_selectors::injected_compat_warning_js;

fn fresh() -> AppSettings {
    AppSettings { inner: SettingsData::default() }
}

#[test]
fn defaults_match_first_run() {
    let d = SettingsData::default();
    assert_eq!(d.custom_font, "");
    assert_eq!(d.font_size, 14);
    assert!(!d.compact_mode);
    assert!(!d.adaptive_bubbles);
    assert_eq!(d.sticker_height, 170);
    assert!(d.big_emoji_outline);
    assert_eq!(d.theme, "default");
    assert!(!d.show_chat_id);
    assert!(d.minimize_to_tray);
    assert!(!d.start_minimized);
    assert!(d.text_replaces.is_empty());
}

#[test]
fn default_css_is_only_the_layout() {
    assert_eq!(fresh().generate_css(), BASE_LAYOUT_CSS);
}

#[test]
fn default_js_removes_overlay_and_warns() {
    let expected =
        format!("{}{}{}", CHAT_ID_CLEANUP_GUARD, CHAT_ID_CLEANUP_JS, injected_compat_warning_js());
    assert_eq!(fresh().generate_js(), expected);
}

#[test]
fn update_sets_each_kind_of_value() {
    let mut s = fresh();
    s.update("custom_font", "Inter");
    s.update("font_size", "16");
    s.update("compact_mode", "true");
    s.update("sticker_height", "+200");
    s.update("theme", "nord");
    s.update("show_chat_id", "true");
    s.update("minimize_to_tray", "false");
    assert_eq!(s.inner.custom_font, "Inter");
    assert_eq!(s.inner.font_size, 16);
    assert!(s.inner.compact_mode);
    assert_eq!(s.inner.sticker_height, 200);
    assert_eq!(s.inner.theme, "nord");
    assert!(s.inner.show_chat_id);
    assert!(!s.inner.minimize_to_tray);
}

#[test]
fn update_falls_back_on_bad_numbers() {
    let mut s = fresh();
    s.update("font_size", "20");
    s.update("font_size", "big");
    assert_eq!(s.inner.font_size, 14);
    s.update("sticker_height", "4294967296");
    assert_eq!(s.inner.sticker_height, 170);
    s.update("sticker_height", "4294967295");
    assert_eq!(s.inner.sticker_height, 4294967295);
    s.update("font_size", "-3");
    assert_eq!(s.inner.font_size, 14);
    s.update("font_size", "");
    assert_eq!(s.inner.font_size, 14);
}

#[test]
fn flags_need_exactly_true() {
    let mut s = fresh();
    s.update("adaptive_bubbles", "True");
    assert!(!s.inner.adaptive_bubbles);
    s.update("adaptive_bubbles", "true");
    assert!(s.inner.adaptive_bubbles);
    s.update("adaptive_bubbles", "1");
    assert!(!s.inner.adaptive_bubbles);
}

#[test]
fn unknown_keys_change_nothing() {
    let mut s = fresh();
    s.update("text_replaces", "x");
    s.update("Theme", "nord");
    assert_eq!(s.generate_css(), BASE_LAYOUT_CSS);
    assert_eq!(s.inner.theme, "default");
}

#[test]
fn css_rules_follow_preferences() {
    let mut s = fresh();
    s.update("custom_font", "Inter");
    s.update("font_size", "16");
    s.update("sticker_height", "120");
    s.update("theme", "nord");
    let css = s.generate_css();
    assert!(css.contains("font-family: 'Inter', system-ui, -apple-system, sans-serif !important;"));
    assert!(css.contains("font-size: 16px !important;"));
    assert!(css.contains("max-height: 120px !important;\n                    max-width: 120px !important;"));
    assert!(css.contains(NORD_THEME_CSS));
    assert!(css.ends_with(BASE_LAYOUT_CSS));
    assert!(!css.contains("--surface-color: #1e1e2e"));
    let font_at = css.find("font-family: 'Inter'").unwrap();
    let size_at = css.find("font-size: 16px").unwrap();
    assert!(font_at < size_at);
}

#[test]
fn overlay_script_carries_selectors() {
    let mut s = fresh();
    s.update("show_chat_id", "true");
    let js = s.generate_js();
    assert!(js.contains("const ROOT_SEL = '#column-left';"));
    assert!(js.contains("const CENTER_SEL = '#column-center';"));
    assert!(js.contains("const ROW_SELECTOR_LIST = '.chatlist-chat, .chat-list-item"));
    assert!(js.contains("window._kotauri_chat_id_interval = window.setInterval(scheduleScan, 2500);"));
    assert!(js.ends_with(&injected_compat_warning_js()));
}

#[test]
fn injection_script_quotes_css_and_js() {
    let s = fresh();
    let script = s.injection_script();
    assert!(script.contains(&format!("style.textContent = {:?};", s.generate_css())));
    assert!(script.contains(&format!("script.textContent = {:?};", s.generate_js())));
    assert!(script.contains("\\n"));
    assert!(script.contains("document.getElementById('kotauri-css')"));
}

#[test]
fn sent_values_become_text() {
    assert_eq!(setting_value_text(SettingValue::Text("nord".to_string())), "nord");
    assert_eq!(setting_value_text(SettingValue::Flag(true)), "true");
    assert_eq!(setting_value_text(SettingValue::Flag(false)), "false");
    assert_eq!(setting_value_text(SettingValue::Number("18".to_string())), "18");
    assert_eq!(setting_value_text(SettingValue::Other), "");
    let mut s = fresh();
    s.update("start_minimized", &setting_value_text(SettingValue::Flag(true)));
    assert!(s.inner.start_minimized);
}

#[test]
fn initial_settings_script_assigns_json() {
    assert_eq!(initial_settings_script("{\"theme\":\"nord\"}"), "window.initialSettings = {\"theme\":\"nord\"};");
}

#[test]
fn overlay_switch_decides_the_script() {
    let mut on = fresh();
    on.update("show_chat_id", "true");
    let off = fresh();
    assert_ne!(on.generate_js(), off.generate_js());
    assert!(on.generate_js().starts_with(CHAT_ID_OVERLAY_GUARD));
    assert!(off.generate_js().starts_with(CHAT_ID_CLEANUP_GUARD));
    assert!(on.generate_js().contains("if (!window._kotauri_chat_id_observer) {"));
    let mut other = fresh();
    other.update("show_chat_id", "true");
    other.update("theme", "nord");
    assert_eq!(on.generate_js(), other.generate_js());
}
