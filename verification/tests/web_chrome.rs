use kotauri::clipboard_image::{clipboard_image_bridge_js, clipboard_png_payload, deliver_clipboard_image_js};
use kotauri::ui_chrome::settings_gear_js;
use kotauri::web_selectors::{injected_compat_warning_js, WebKSelectors};

#[test]
fn selectors_non_empty() {
    assert!(WebKSelectors::COLUMN_LEFT.starts_with('#'));
    assert!(WebKSelectors::CHAT_LIST_CHAT.starts_with('.'));
    assert!(WebKSelectors::CHAT_ROW_SELECTORS.contains("chatlist-chat"));
}

#[test]
fn gear_js_has_button_id() {
    assert!(settings_gear_js().contains("kotauri-gear-btn"));
    assert!(settings_gear_js().contains("openSettings"));
}

#[test]
fn bridge_js_mentions_internal_route() {
    assert!(clipboard_image_bridge_js().contains("kotauri.internal/clipboard-image"));
    assert!(clipboard_image_bridge_js().contains("__kotauriDeliverClipboardImage"));
}

#[test]
fn deliver_js_embeds_payload() {
    let js = deliver_clipboard_image_js("QUJD");
    assert!(js.contains("QUJD"));
    assert!(js.contains("__kotauriDeliverClipboardImage"));
}

#[test]
fn deliver_js_quotes_payload_as_json() {
    let js = deliver_clipboard_image_js("QUJD");
    assert!(js.contains("window.__kotauriDeliverClipboardImage(\"QUJD\", 'image/png');"));
    assert!(js.starts_with("(function(){"));
    assert!(js.ends_with("})();"));
}

#[test]
fn deliver_js_escapes_payload() {
    let js = deliver_clipboard_image_js("a\"b\\c\nd\u{1}e/é\u{7f}");
    assert!(js.contains(r#"("a\"b\\c\nd\u0001e/é"#));
    let payload = "x\u{8}\u{9}\u{c}\u{d}\u{1f}y";
    let js = deliver_clipboard_image_js(payload);
    assert!(js.contains(r#""x\b\t\f\r\u001fy""#));
    assert!(js.contains(&serde_json::to_string(payload).unwrap()));
    let tricky = "');alert(1);//\"\n";
    let js = deliver_clipboard_image_js(tricky);
    assert!(js.contains(&format!(
        "window.__kotauriDeliverClipboardImage({}, 'image/png');",
        serde_json::to_string(tricky).unwrap()
    )));
}

#[test]
fn compat_warning_names_both_markers() {
    let js = injected_compat_warning_js();
    assert!(js.contains(r##"const markers = ["#column-left", ".sidebar"];"##));
    assert!(js.contains("console.warn("));
}

#[test]
fn clipboard_payload_needs_bytes() {
    assert_eq!(clipboard_png_payload(None), None);
    assert_eq!(clipboard_png_payload(Some(vec![])), None);
    assert_eq!(clipboard_png_payload(Some(vec![137, 80, 78, 71])), Some(vec![137, 80, 78, 71]));
}
