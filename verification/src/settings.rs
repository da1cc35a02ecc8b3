//! User preferences and the CSS and JavaScript injected into the Telegram web view from them.
use vstd::prelude::*;
use crate::text::{
    decimal, law_decimal_parse_roundtrip, occurs_in, parsed_u32, parse_u32, push_decimal, push_text, str_equals,
};
use crate::injected_text::{
    ADAPTIVE_BUBBLES_CSS, BASE_LAYOUT_CSS, CATPPUCCIN_THEME_CSS, CHAT_ID_CLEANUP_JS, CHAT_ID_OVERLAY_BODY,
    COMPACT_CHAT_DETAIL_CSS, COMPACT_CHAT_ROW_CSS, INJECTION_JS_BETWEEN, INJECTION_JS_CLOSE, INJECTION_JS_OPEN, SCRIPT_TEXT_ASSIGNMENT,
    STATEMENT_END, STYLE_TEXT_ASSIGNMENT, CHAT_ID_CLEANUP_GUARD, CHAT_ID_OVERLAY_GUARD, FONT_FAMILY_CSS_HEAD, FONT_FAMILY_CSS_TAIL, FONT_SIZE_CSS_HEAD, FONT_SIZE_CSS_TAIL,
    MIDNIGHT_THEME_CSS, NORD_THEME_CSS, STICKER_CSS_HEAD, STICKER_CSS_MIDDLE, STICKER_CSS_TAIL,
    OVERLAY_CENTER_DECL, OVERLAY_DECL_END, OVERLAY_HEADER_DECL, OVERLAY_LINE_START, OVERLAY_ROOT_DECL,
    OVERLAY_ROW_DECL,
};
use crate::web_selectors::{compat_warning_text, injected_compat_warning_js, WebKSelectors};

verus! {

broadcast use vstd::string::group_string_axioms;

/// The preferences, as stored in `settings.json`.
#[derive(Clone, Debug)]
pub struct SettingsData {
    // Appearance
    pub custom_font: String,
    pub font_size: u32,
    pub compact_mode: bool,
    pub adaptive_bubbles: bool,
    pub sticker_height: u32,
    pub big_emoji_outline: bool,
    pub theme: String,
    // Chat
    pub show_chat_id: bool,
    pub disable_up_edit: bool,
    pub always_show_scheduled: bool,
    // Forward
    pub forward_without_author: bool,
    pub forward_retain_selection: bool,
    // System
    pub minimize_to_tray: bool,
    pub start_minimized: bool,
    // Custom text replaces
    pub text_replaces: Vec<(String, String)>,
}

/// The preferences as mathematical values.
#[verifier::ext_equal]
pub struct SettingsModel {
    pub custom_font: Seq<char>,
    pub font_size: u32,
    pub compact_mode: bool,
    pub adaptive_bubbles: bool,
    pub sticker_height: u32,
    pub big_emoji_outline: bool,
    pub theme: Seq<char>,
    pub show_chat_id: bool,
    pub disable_up_edit: bool,
    pub always_show_scheduled: bool,
    pub forward_without_author: bool,
    pub forward_retain_selection: bool,
    pub minimize_to_tray: bool,
    pub start_minimized: bool,
    pub text_replaces: Seq<(Seq<char>, Seq<char>)>,
}

/// The text replacement pairs as pairs of character sequences.
pub open spec fn replaces_view(pairs: Seq<(String, String)>) -> Seq<(Seq<char>, Seq<char>)> {
    pairs.map_values(|p: (String, String)| (p.0@, p.1@))
}

impl View for SettingsData {
    type V = SettingsModel;

    open spec fn view(&self) -> SettingsModel {
        SettingsModel {
            custom_font: self.custom_font@,
            font_size: self.font_size,
            compact_mode: self.compact_mode,
            adaptive_bubbles: self.adaptive_bubbles,
            sticker_height: self.sticker_height,
            big_emoji_outline: self.big_emoji_outline,
            theme: self.theme@,
            show_chat_id: self.show_chat_id,
            disable_up_edit: self.disable_up_edit,
            always_show_scheduled: self.always_show_scheduled,
            forward_without_author: self.forward_without_author,
            forward_retain_selection: self.forward_retain_selection,
            minimize_to_tray: self.minimize_to_tray,
            start_minimized: self.start_minimized,
            text_replaces: replaces_view(self.text_replaces@),
        }
    }
}

/// The font size that needs no rule.
pub const DEFAULT_FONT_SIZE: u32 = 14;

/// The sticker height that needs no rule.
pub const DEFAULT_STICKER_HEIGHT: u32 = 170;

/// The theme that first runs start with.
pub const DEFAULT_THEME: &'static str = "default";

/// The preferences of a first run.
pub open spec fn default_model() -> SettingsModel {
    SettingsModel {
        custom_font: Seq::empty(),
        font_size: DEFAULT_FONT_SIZE,
        compact_mode: false,
        adaptive_bubbles: false,
        sticker_height: DEFAULT_STICKER_HEIGHT,
        big_emoji_outline: true,
        theme: DEFAULT_THEME@,
        show_chat_id: false,
        disable_up_edit: false,
        always_show_scheduled: false,
        forward_without_author: false,
        forward_retain_selection: false,
        minimize_to_tray: true,
        start_minimized: false,
        text_replaces: Seq::empty(),
    }
}

impl Default for SettingsData {
    fn default() -> (r: Self)
        ensures
            r@ == default_model(),
    {
        let r = SettingsData {
            custom_font: String::new(),
            font_size: DEFAULT_FONT_SIZE,
            compact_mode: false,
            adaptive_bubbles: false,
            sticker_height: DEFAULT_STICKER_HEIGHT,
            big_emoji_outline: true,
            theme: DEFAULT_THEME.to_owned(),
            show_chat_id: false,
            disable_up_edit: false,
            always_show_scheduled: false,
            forward_without_author: false,
            forward_retain_selection: false,
            minimize_to_tray: true,
            start_minimized: false,
            text_replaces: Vec::new(),
        };
        assert(r@.text_replaces =~= Seq::<(Seq<char>, Seq<char>)>::empty());
        r
    }
}

/// A preference that `AppSettings::update` can change, by its key.
#[derive(PartialEq, Eq, Structural)]
pub enum SettingKey {
    CustomFont,
    FontSize,
    CompactMode,
    AdaptiveBubbles,
    StickerHeight,
    BigEmojiOutline,
    Theme,
    ShowChatId,
    DisableUpEdit,
    AlwaysShowScheduled,
    ForwardWithoutAuthor,
    ForwardRetainSelection,
    MinimizeToTray,
    StartMinimized,
}

/// The key under which each preference is updated.
pub open spec fn key_name(k: SettingKey) -> Seq<char> {
    match k {
        SettingKey::CustomFont => "custom_font"@,
        SettingKey::FontSize => "font_size"@,
        SettingKey::CompactMode => "compact_mode"@,
        SettingKey::AdaptiveBubbles => "adaptive_bubbles"@,
        SettingKey::StickerHeight => "sticker_height"@,
        SettingKey::BigEmojiOutline => "big_emoji_outline"@,
        SettingKey::Theme => "theme"@,
        SettingKey::ShowChatId => "show_chat_id"@,
        SettingKey::DisableUpEdit => "disable_up_edit"@,
        SettingKey::AlwaysShowScheduled => "always_show_scheduled"@,
        SettingKey::ForwardWithoutAuthor => "forward_without_author"@,
        SettingKey::ForwardRetainSelection => "forward_retain_selection"@,
        SettingKey::MinimizeToTray => "minimize_to_tray"@,
        SettingKey::StartMinimized => "start_minimized"@,
    }
}

/// The preference that `key` names, if any.
pub open spec fn setting_key(key: Seq<char>) -> Option<SettingKey> {
    if key == "custom_font"@ {
        Some(SettingKey::CustomFont)
    } else if key == "font_size"@ {
        Some(SettingKey::FontSize)
    } else if key == "compact_mode"@ {
        Some(SettingKey::CompactMode)
    } else if key == "adaptive_bubbles"@ {
        Some(SettingKey::AdaptiveBubbles)
    } else if key == "sticker_height"@ {
        Some(SettingKey::StickerHeight)
    } else if key == "big_emoji_outline"@ {
        Some(SettingKey::BigEmojiOutline)
    } else if key == "theme"@ {
        Some(SettingKey::Theme)
    } else if key == "show_chat_id"@ {
        Some(SettingKey::ShowChatId)
    } else if key == "disable_up_edit"@ {
        Some(SettingKey::DisableUpEdit)
    } else if key == "always_show_scheduled"@ {
        Some(SettingKey::AlwaysShowScheduled)
    } else if key == "forward_without_author"@ {
        Some(SettingKey::ForwardWithoutAuthor)
    } else if key == "forward_retain_selection"@ {
        Some(SettingKey::ForwardRetainSelection)
    } else if key == "minimize_to_tray"@ {
        Some(SettingKey::MinimizeToTray)
    } else if key == "start_minimized"@ {
        Some(SettingKey::StartMinimized)
    } else {
        None
    }
}

/// A switch is on exactly when its value reads `true`.
pub open spec fn flag_value(value: Seq<char>) -> bool {
    value == "true"@
}

/// A number is read as `u32::from_str` reads it; a value that does not read falls back to `or`.
pub open spec fn number_value(value: Seq<char>, or: u32) -> u32 {
    match parsed_u32(value) {
        Some(n) => n,
        None => or,
    }
}

/// `m` with the preference `k` set from `value`.
pub open spec fn applied(m: SettingsModel, k: SettingKey, value: Seq<char>) -> SettingsModel {
    match k {
        SettingKey::CustomFont => SettingsModel { custom_font: value, ..m },
        SettingKey::FontSize => SettingsModel {
            font_size: number_value(value, DEFAULT_FONT_SIZE),
            ..m
        },
        SettingKey::CompactMode => SettingsModel { compact_mode: flag_value(value), ..m },
        SettingKey::AdaptiveBubbles => SettingsModel { adaptive_bubbles: flag_value(value), ..m },
        SettingKey::StickerHeight => SettingsModel {
            sticker_height: number_value(value, DEFAULT_STICKER_HEIGHT),
            ..m
        },
        SettingKey::BigEmojiOutline => SettingsModel { big_emoji_outline: flag_value(value), ..m },
        SettingKey::Theme => SettingsModel { theme: value, ..m },
        SettingKey::ShowChatId => SettingsModel { show_chat_id: flag_value(value), ..m },
        SettingKey::DisableUpEdit => SettingsModel { disable_up_edit: flag_value(value), ..m },
        SettingKey::AlwaysShowScheduled => SettingsModel {
            always_show_scheduled: flag_value(value),
            ..m
        },
        SettingKey::ForwardWithoutAuthor => SettingsModel {
            forward_without_author: flag_value(value),
            ..m
        },
        SettingKey::ForwardRetainSelection => SettingsModel {
            forward_retain_selection: flag_value(value),
            ..m
        },
        SettingKey::MinimizeToTray => SettingsModel { minimize_to_tray: flag_value(value), ..m },
        SettingKey::StartMinimized => SettingsModel { start_minimized: flag_value(value), ..m },
    }
}

/// `m` after an update of `key` to `value`: the preference the key names is set, and an unknown
/// key changes nothing.
pub open spec fn updated(m: SettingsModel, key: Seq<char>, value: Seq<char>) -> SettingsModel {
    match setting_key(key) {
        Some(k) => applied(m, k, value),
        None => m,
    }
}

/// The preference that `key` names, if any.
pub fn setting_key_of(key: &str) -> (r: Option<SettingKey>)
    ensures
        r == setting_key(key@),
{
    if str_equals(key, "custom_font") {
        Some(SettingKey::CustomFont)
    } else if str_equals(key, "font_size") {
        Some(SettingKey::FontSize)
    } else if str_equals(key, "compact_mode") {
        Some(SettingKey::CompactMode)
    } else if str_equals(key, "adaptive_bubbles") {
        Some(SettingKey::AdaptiveBubbles)
    } else if str_equals(key, "sticker_height") {
        Some(SettingKey::StickerHeight)
    } else if str_equals(key, "big_emoji_outline") {
        Some(SettingKey::BigEmojiOutline)
    } else if str_equals(key, "theme") {
        Some(SettingKey::Theme)
    } else if str_equals(key, "show_chat_id") {
        Some(SettingKey::ShowChatId)
    } else if str_equals(key, "disable_up_edit") {
        Some(SettingKey::DisableUpEdit)
    } else if str_equals(key, "always_show_scheduled") {
        Some(SettingKey::AlwaysShowScheduled)
    } else if str_equals(key, "forward_without_author") {
        Some(SettingKey::ForwardWithoutAuthor)
    } else if str_equals(key, "forward_retain_selection") {
        Some(SettingKey::ForwardRetainSelection)
    } else if str_equals(key, "minimize_to_tray") {
        Some(SettingKey::MinimizeToTray)
    } else if str_equals(key, "start_minimized") {
        Some(SettingKey::StartMinimized)
    } else {
        None
    }
}

/// The number that `value` reads as, or `or` when it does not read as one.
fn number_or(value: &str, or: u32) -> (r: u32)
    ensures
        r == number_value(value@, or),
{
    match parse_u32(value) {
        Some(n) => n,
        None => or,
    }
}

/// Whether `value` switches a preference on.
fn flag_of(value: &str) -> (r: bool)
    ensures
        r == flag_value(value@),
{
    str_equals(value, "true")
}

impl SettingsData {
    /// Sets the preference `k` from the text `value`.
    #[verifier::rlimit(60)]
    pub fn apply(&mut self, k: SettingKey, value: &str)
        ensures
            final(self)@ == applied(old(self)@, k, value@),
    {
        match k {
            SettingKey::CustomFont => self.custom_font = value.to_owned(),
            SettingKey::FontSize => self.font_size = number_or(value, DEFAULT_FONT_SIZE),
            SettingKey::CompactMode => self.compact_mode = flag_of(value),
            SettingKey::AdaptiveBubbles => self.adaptive_bubbles = flag_of(value),
            SettingKey::StickerHeight => self.sticker_height = number_or(
                value,
                DEFAULT_STICKER_HEIGHT,
            ),
            SettingKey::BigEmojiOutline => self.big_emoji_outline = flag_of(value),
            SettingKey::Theme => self.theme = value.to_owned(),
            SettingKey::ShowChatId => self.show_chat_id = flag_of(value),
            SettingKey::DisableUpEdit => self.disable_up_edit = flag_of(value),
            SettingKey::AlwaysShowScheduled => self.always_show_scheduled = flag_of(value),
            SettingKey::ForwardWithoutAuthor => self.forward_without_author = flag_of(value),
            SettingKey::ForwardRetainSelection => self.forward_retain_selection = flag_of(value),
            SettingKey::MinimizeToTray => self.minimize_to_tray = flag_of(value),
            SettingKey::StartMinimized => self.start_minimized = flag_of(value),
        }
    }
}

/// The shared preferences of the application.
#[derive(Debug)]
pub struct AppSettings {
    pub inner: SettingsData,
}

impl AppSettings {
    /// Sets the preference named `key` from the text `value`; an unknown key changes nothing.
    pub fn update(&mut self, key: &str, value: &str)
        ensures
            final(self).inner@ == updated(old(self).inner@, key@, value@),
    {
        if let Some(k) = setting_key_of(key) {
            self.inner.apply(k, value);
        }
    }
}

/// The theme names that come with colours of their own.
pub const NORD_THEME: &'static str = "nord";

pub const CATPPUCCIN_THEME: &'static str = "catppuccin";

pub const MIDNIGHT_THEME: &'static str = "midnight";

/// The colours of the theme named `theme`; none for an unknown name.
pub open spec fn theme_css(theme: Seq<char>) -> Seq<char> {
    if theme == NORD_THEME@ {
        NORD_THEME_CSS@
    } else if theme == CATPPUCCIN_THEME@ {
        CATPPUCCIN_THEME_CSS@
    } else if theme == MIDNIGHT_THEME@ {
        MIDNIGHT_THEME_CSS@
    } else {
        Seq::empty()
    }
}

/// The font rule: present when a custom font is set.
pub open spec fn font_family_css(m: SettingsModel) -> Seq<char> {
    if m.custom_font.len() > 0 {
        FONT_FAMILY_CSS_HEAD@ + m.custom_font + FONT_FAMILY_CSS_TAIL@
    } else {
        Seq::empty()
    }
}

/// The font-size rule: present when the size is not the default one.
pub open spec fn font_size_css(m: SettingsModel) -> Seq<char> {
    if m.font_size != DEFAULT_FONT_SIZE {
        FONT_SIZE_CSS_HEAD@ + decimal(m.font_size as nat) + FONT_SIZE_CSS_TAIL@
    } else {
        Seq::empty()
    }
}

/// The compact chat list rules: present in compact mode.
pub open spec fn compact_mode_css(m: SettingsModel) -> Seq<char> {
    if m.compact_mode {
        COMPACT_CHAT_ROW_CSS@ + COMPACT_CHAT_DETAIL_CSS@
    } else {
        Seq::empty()
    }
}

/// The adaptive bubble rules: present when they are switched on.
pub open spec fn adaptive_bubbles_css(m: SettingsModel) -> Seq<char> {
    if m.adaptive_bubbles {
        ADAPTIVE_BUBBLES_CSS@
    } else {
        Seq::empty()
    }
}

/// The sticker size rule: present when the height is not the default one.
pub open spec fn sticker_css(m: SettingsModel) -> Seq<char> {
    if m.sticker_height != DEFAULT_STICKER_HEIGHT {
        STICKER_CSS_HEAD@ + decimal(m.sticker_height as nat) + STICKER_CSS_MIDDLE@ + decimal(
            m.sticker_height as nat,
        ) + STICKER_CSS_TAIL@
    } else {
        Seq::empty()
    }
}

/// The CSS for `m`: a rule for each preference that differs from its neutral value, in a fixed
/// order (font, font size, compact mode, adaptive bubbles, sticker height, theme), then the base
/// layout.
pub open spec fn css_text(m: SettingsModel) -> Seq<char> {
    font_family_css(m) + font_size_css(m) + compact_mode_css(m) + adaptive_bubbles_css(m)
        + sticker_css(m) + theme_css(m.theme) + BASE_LAYOUT_CSS@
}

/// One declaration of the overlay script: `decl` opens it, `selectors` is its quoted value.
pub open spec fn overlay_declaration(decl: Seq<char>, selectors: Seq<char>) -> Seq<char> {
    OVERLAY_LINE_START@ + decl + selectors + OVERLAY_DECL_END@
}

/// The chat id overlay script, with the selectors it searches.
pub open spec fn chat_id_overlay_text() -> Seq<char> {
    CHAT_ID_OVERLAY_GUARD@ + overlay_declaration(OVERLAY_ROOT_DECL@, WebKSelectors::COLUMN_LEFT@)
        + overlay_declaration(OVERLAY_CENTER_DECL@, WebKSelectors::COLUMN_CENTER@)
        + overlay_declaration(OVERLAY_ROW_DECL@, WebKSelectors::CHAT_ROW_SELECTORS@)
        + overlay_declaration(OVERLAY_HEADER_DECL@, WebKSelectors::ACTIVE_CHAT_HEADER_SELECTORS@)
        + CHAT_ID_OVERLAY_BODY@
}

/// The JavaScript for `m`: the chat id overlay when it is on, the script that removes it when it
/// is off, then the layout warning.
pub open spec fn js_text(m: SettingsModel) -> Seq<char> {
    (if m.show_chat_id {
        chat_id_overlay_text()
    } else {
        CHAT_ID_CLEANUP_GUARD@ + CHAT_ID_CLEANUP_JS@
    }) + compat_warning_text()
}

/// Appends one declaration of the overlay script to `js`.
fn push_overlay_declaration(js: &mut String, decl: &str, selectors: &str)
    ensures
        final(js)@ == old(js)@ + overlay_declaration(decl@, selectors@),
{
    push_text(js, OVERLAY_LINE_START);
    push_text(js, decl);
    push_text(js, selectors);
    push_text(js, OVERLAY_DECL_END);
    assert(js@ =~= old(js)@ + overlay_declaration(decl@, selectors@));
}

impl AppSettings {
    /// The CSS to inject into the Telegram web view.
    pub fn generate_css(&self) -> (r: String)
        ensures
            r@ == css_text(self.inner@),
    {
        let data = &self.inner;
        let mut css = String::new();
        if !data.custom_font.as_str().is_empty() {
            push_text(&mut css, FONT_FAMILY_CSS_HEAD);
            push_text(&mut css, data.custom_font.as_str());
            push_text(&mut css, FONT_FAMILY_CSS_TAIL);
        }
        assert(css@ =~= font_family_css(self.inner@));
        let ghost s1 = css@;
        if data.font_size != DEFAULT_FONT_SIZE {
            push_text(&mut css, FONT_SIZE_CSS_HEAD);
            push_decimal(&mut css, data.font_size);
            push_text(&mut css, FONT_SIZE_CSS_TAIL);
        }
        assert(css@ =~= s1 + font_size_css(self.inner@));
        let ghost s2 = css@;
        if data.compact_mode {
            push_text(&mut css, COMPACT_CHAT_ROW_CSS);
            push_text(&mut css, COMPACT_CHAT_DETAIL_CSS);
        }
        assert(css@ =~= s2 + compact_mode_css(self.inner@));
        let ghost s3 = css@;
        if data.adaptive_bubbles {
            push_text(&mut css, ADAPTIVE_BUBBLES_CSS);
        }
        assert(css@ =~= s3 + adaptive_bubbles_css(self.inner@));
        let ghost s4 = css@;
        if data.sticker_height != DEFAULT_STICKER_HEIGHT {
            push_text(&mut css, STICKER_CSS_HEAD);
            push_decimal(&mut css, data.sticker_height);
            push_text(&mut css, STICKER_CSS_MIDDLE);
            push_decimal(&mut css, data.sticker_height);
            push_text(&mut css, STICKER_CSS_TAIL);
        }
        assert(css@ =~= s4 + sticker_css(self.inner@));
        let ghost s5 = css@;
        let theme = data.theme.as_str();
        if str_equals(theme, NORD_THEME) {
            push_text(&mut css, NORD_THEME_CSS);
        } else if str_equals(theme, CATPPUCCIN_THEME) {
            push_text(&mut css, CATPPUCCIN_THEME_CSS);
        } else if str_equals(theme, MIDNIGHT_THEME) {
            push_text(&mut css, MIDNIGHT_THEME_CSS);
        }
        assert(css@ =~= s5 + theme_css(self.inner@.theme));
        push_text(&mut css, BASE_LAYOUT_CSS);

        css
    }

    /// The JavaScript to inject into the Telegram web view.
    pub fn generate_js(&self) -> (r: String)
        ensures
            r@ == js_text(self.inner@),
    {
        let mut js = String::new();
        if self.inner.show_chat_id {
            push_text(&mut js, CHAT_ID_OVERLAY_GUARD);
            push_overlay_declaration(&mut js, OVERLAY_ROOT_DECL, WebKSelectors::COLUMN_LEFT);
            push_overlay_declaration(&mut js, OVERLAY_CENTER_DECL, WebKSelectors::COLUMN_CENTER);
            push_overlay_declaration(&mut js, OVERLAY_ROW_DECL, WebKSelectors::CHAT_ROW_SELECTORS);
            push_overlay_declaration(
                &mut js,
                OVERLAY_HEADER_DECL,
                WebKSelectors::ACTIVE_CHAT_HEADER_SELECTORS,
            );
            push_text(&mut js, CHAT_ID_OVERLAY_BODY);
        } else {
            push_text(&mut js, CHAT_ID_CLEANUP_GUARD);
            push_text(&mut js, CHAT_ID_CLEANUP_JS);
        }
        let warning = injected_compat_warning_js();
        push_text(&mut js, warning.as_str());
        assert(js@ =~= js_text(self.inner@));
        js
    }
}

/// Rust's debug rendering of a string (`format!("{:?}", s)`): a double-quoted string literal.
pub uninterp spec fn debug_quoted(s: Seq<char>) -> Seq<char>;

/// `<str as Debug>::fmt` through `format!("{:?}", s)`. What it returns is only named here: it is
/// `s` in double quotes with characters escaped as `char::escape_debug` does.
#[verifier::external_body]
fn debug_quote(s: &str) -> (r: String)
    ensures
        r@ == debug_quoted(s@),
{
    format!("{:?}", s)
}

/// The script that installs the CSS and the JavaScript, given both as quoted literals: it creates
/// the `kotauri-css` style element once and sets its text each time, and adds the `kotauri-js`
/// script element only when there is none yet.
pub open spec fn injection_text(css_literal: Seq<char>, js_literal: Seq<char>) -> Seq<char> {
    INJECTION_JS_OPEN@ + STYLE_TEXT_ASSIGNMENT@ + css_literal + STATEMENT_END@
        + INJECTION_JS_BETWEEN@ + SCRIPT_TEXT_ASSIGNMENT@ + js_literal + STATEMENT_END@
        + INJECTION_JS_CLOSE@
}

/// The installing script around the two quoted literals.
pub fn assemble_injection_script(css_literal: &str, js_literal: &str) -> (r: String)
    ensures
        r@ == injection_text(css_literal@, js_literal@),
{
    let mut r = String::new();
    push_text(&mut r, INJECTION_JS_OPEN);
    push_text(&mut r, STYLE_TEXT_ASSIGNMENT);
    push_text(&mut r, css_literal);
    push_text(&mut r, STATEMENT_END);
    push_text(&mut r, INJECTION_JS_BETWEEN);
    push_text(&mut r, SCRIPT_TEXT_ASSIGNMENT);
    push_text(&mut r, js_literal);
    push_text(&mut r, STATEMENT_END);
    push_text(&mut r, INJECTION_JS_CLOSE);
    r
}

impl AppSettings {
    /// The script evaluated in the main window to apply the preferences.
    pub fn injection_script(&self) -> (r: String)
        ensures
            r@ == injection_text(
                debug_quoted(css_text(self.inner@)),
                debug_quoted(js_text(self.inner@)),
            ),
    {
        let css = self.generate_css();
        let js = self.generate_js();
        let css_literal = debug_quote(css.as_str());
        let js_literal = debug_quote(js.as_str());
        assemble_injection_script(css_literal.as_str(), js_literal.as_str())
    }
}

/// A value sent by the settings window, as JSON gives it.
pub enum SettingValue {
    /// A JSON string.
    Text(String),
    /// A JSON boolean.
    Flag(bool),
    /// A JSON number, as JSON writes it.
    Number(String),
    /// Anything else.
    Other,
}

/// The text that a sent value is stored from: a string as it is, a boolean as `true` or
/// `false`, a number as written, and nothing for anything else.
pub open spec fn setting_value_text_of(v: SettingValue) -> Seq<char> {
    match v {
        SettingValue::Text(s) => s@,
        SettingValue::Flag(b) => if b {
            "true"@
        } else {
            "false"@
        },
        SettingValue::Number(s) => s@,
        SettingValue::Other => Seq::empty(),
    }
}

/// The text that a sent value is stored from.
pub fn setting_value_text(v: SettingValue) -> (r: String)
    ensures
        r@ == setting_value_text_of(v),
{
    match v {
        SettingValue::Text(s) => s,
        SettingValue::Flag(b) => if b {
            "true".to_owned()
        } else {
            "false".to_owned()
        },
        SettingValue::Number(s) => s,
        SettingValue::Other => String::new(),
    }
}

/// The script that hands the settings window its initial preferences, given as JSON.
pub open spec fn initial_settings_text(json: Seq<char>) -> Seq<char> {
    "window.initialSettings = "@ + json + ";"@
}

/// The script that hands the settings window its initial preferences.
pub fn initial_settings_script(json: &str) -> (r: String)
    ensures
        r@ == initial_settings_text(json@),
{
    let mut r = String::new();
    push_text(&mut r, "window.initialSettings = ");
    push_text(&mut r, json);
    push_text(&mut r, ";");
    r
}

/// The value of the switch `k`; none for the preferences that are not switches.
pub open spec fn flag_setting(m: SettingsModel, k: SettingKey) -> Option<bool> {
    match k {
        SettingKey::CompactMode => Some(m.compact_mode),
        SettingKey::AdaptiveBubbles => Some(m.adaptive_bubbles),
        SettingKey::BigEmojiOutline => Some(m.big_emoji_outline),
        SettingKey::ShowChatId => Some(m.show_chat_id),
        SettingKey::DisableUpEdit => Some(m.disable_up_edit),
        SettingKey::AlwaysShowScheduled => Some(m.always_show_scheduled),
        SettingKey::ForwardWithoutAuthor => Some(m.forward_without_author),
        SettingKey::ForwardRetainSelection => Some(m.forward_retain_selection),
        SettingKey::MinimizeToTray => Some(m.minimize_to_tray),
        SettingKey::StartMinimized => Some(m.start_minimized),
        _ => None,
    }
}

/// Each preference's key names that preference, and no other.
pub proof fn law_setting_keys(k: SettingKey)
    ensures
        setting_key(key_name(k)) == Some(k),
{
    reveal_strlit("custom_font");
    reveal_strlit("font_size");
    reveal_strlit("compact_mode");
    reveal_strlit("adaptive_bubbles");
    reveal_strlit("sticker_height");
    reveal_strlit("big_emoji_outline");
    reveal_strlit("theme");
    reveal_strlit("show_chat_id");
    reveal_strlit("disable_up_edit");
    reveal_strlit("always_show_scheduled");
    reveal_strlit("forward_without_author");
    reveal_strlit("forward_retain_selection");
    reveal_strlit("minimize_to_tray");
    reveal_strlit("start_minimized");
    assert("custom_font"@.len() == 11);
    assert("font_size"@.len() == 9);
    assert("compact_mode"@.len() == 12);
    assert("adaptive_bubbles"@.len() == 16);
    assert("sticker_height"@.len() == 14);
    assert("big_emoji_outline"@.len() == 17);
    assert("theme"@.len() == 5);
    assert("show_chat_id"@.len() == 12);
    assert("disable_up_edit"@.len() == 15);
    assert("always_show_scheduled"@.len() == 21);
    assert("forward_without_author"@.len() == 22);
    assert("forward_retain_selection"@.len() == 24);
    assert("minimize_to_tray"@.len() == 16);
    assert("start_minimized"@.len() == 15);
    assert("compact_mode"@[0] != "show_chat_id"@[0]);
    assert("adaptive_bubbles"@[0] != "minimize_to_tray"@[0]);
    assert("disable_up_edit"@[0] != "start_minimized"@[0]);
}

/// Storing the decimal numeral of a number into the font size or the sticker height sets it to
/// that number.
pub proof fn law_update_number_roundtrip(m: SettingsModel, n: u32)
    ensures
        updated(m, key_name(SettingKey::FontSize), decimal(n as nat)).font_size == n,
        updated(m, key_name(SettingKey::StickerHeight), decimal(n as nat)).sticker_height == n,
{
    law_setting_keys(SettingKey::FontSize);
    law_setting_keys(SettingKey::StickerHeight);
    law_decimal_parse_roundtrip(n);
}

/// Storing a boolean sent by the settings window into a switch sets the switch to that boolean.
pub proof fn law_update_flag_roundtrip(m: SettingsModel, k: SettingKey, b: bool)
    requires
        flag_setting(m, k) is Some,
    ensures
        flag_setting(updated(m, key_name(k), setting_value_text_of(SettingValue::Flag(b))), k)
            == Some(b),
{
    law_setting_keys(k);
    reveal_strlit("true");
    reveal_strlit("false");
}

proof fn lemma_applied_idempotent(m: SettingsModel, k: SettingKey, value: Seq<char>)
    ensures
        applied(applied(m, k, value), k, value) == applied(m, k, value),
{
    let once = applied(m, k, value);
    let twice = applied(once, k, value);
    match k {
        SettingKey::CustomFont => assert(twice =~= once),
        SettingKey::FontSize => assert(twice =~= once),
        SettingKey::CompactMode => assert(twice =~= once),
        SettingKey::AdaptiveBubbles => assert(twice =~= once),
        SettingKey::StickerHeight => assert(twice =~= once),
        SettingKey::BigEmojiOutline => assert(twice =~= once),
        SettingKey::Theme => assert(twice =~= once),
        SettingKey::ShowChatId => assert(twice =~= once),
        SettingKey::DisableUpEdit => assert(twice =~= once),
        SettingKey::AlwaysShowScheduled => assert(twice =~= once),
        SettingKey::ForwardWithoutAuthor => assert(twice =~= once),
        SettingKey::ForwardRetainSelection => assert(twice =~= once),
        SettingKey::MinimizeToTray => assert(twice =~= once),
        SettingKey::StartMinimized => assert(twice =~= once),
    }
}

/// Repeating an update changes nothing more.
pub proof fn law_update_idempotent(m: SettingsModel, key: Seq<char>, value: Seq<char>)
    ensures
        updated(updated(m, key, value), key, value) == updated(m, key, value),
{
    if let Some(k) = setting_key(key) {
        lemma_applied_idempotent(m, k, value);
    }
}

/// An update with a key that names no preference changes nothing.
pub proof fn law_update_unknown_key(m: SettingsModel, key: Seq<char>, value: Seq<char>)
    requires
        setting_key(key) is None,
    ensures
        updated(m, key, value) == m,
{
}

/// An update changes only the preference that its key names.
pub proof fn law_update_touches_one_preference(m: SettingsModel, k: SettingKey, j: SettingKey, value: Seq<char>)
    requires
        k != j,
    ensures
        flag_setting(updated(m, key_name(k), value), j) == flag_setting(m, j),
        updated(m, key_name(k), value).text_replaces == m.text_replaces,
        j == SettingKey::CustomFont ==> updated(m, key_name(k), value).custom_font == m.custom_font,
        j == SettingKey::FontSize ==> updated(m, key_name(k), value).font_size == m.font_size,
        j == SettingKey::StickerHeight ==> updated(m, key_name(k), value).sticker_height
            == m.sticker_height,
        j == SettingKey::Theme ==> updated(m, key_name(k), value).theme == m.theme,
{
    law_setting_keys(k);
}

/// First-run preferences inject the base layout and nothing else as CSS, and the script that
/// removes the chat id overlay followed by the layout warning as JavaScript.
pub proof fn law_default_injection()
    ensures
        css_text(default_model()) == BASE_LAYOUT_CSS@,
        js_text(default_model()) == CHAT_ID_CLEANUP_GUARD@ + CHAT_ID_CLEANUP_JS@
            + compat_warning_text(),
{
    reveal_strlit("default");
    reveal_strlit("nord");
    reveal_strlit("catppuccin");
    reveal_strlit("midnight");
    let m = default_model();
    assert(DEFAULT_THEME@ == "default"@);
    assert(NORD_THEME@ == "nord"@);
    assert(m.theme.len() == 7);
    assert(NORD_THEME@.len() == 4);
    assert(theme_css(m.theme) == Seq::<char>::empty());
    assert(css_text(m) =~= BASE_LAYOUT_CSS@);
}

/// The CSS ends with the base layout, whatever the preferences, and depends only on the
/// appearance preferences (font, font size, compact mode, adaptive bubbles, sticker height,
/// theme).
pub proof fn law_css_shape(m1: SettingsModel, m2: SettingsModel)
    ensures
        css_text(m1).len() >= BASE_LAYOUT_CSS@.len(),
        css_text(m1).skip(css_text(m1).len() - BASE_LAYOUT_CSS@.len()) == BASE_LAYOUT_CSS@,
        (m1.custom_font == m2.custom_font && m1.font_size == m2.font_size && m1.compact_mode
            == m2.compact_mode && m1.adaptive_bubbles == m2.adaptive_bubbles && m1.sticker_height
            == m2.sticker_height && m1.theme == m2.theme) ==> css_text(m1) == css_text(m2),
{
    let c = css_text(m1);
    let prefix = font_family_css(m1) + font_size_css(m1) + compact_mode_css(m1)
        + adaptive_bubbles_css(m1) + sticker_css(m1) + theme_css(m1.theme);
    assert(c == prefix + BASE_LAYOUT_CSS@);
    assert(c.skip(c.len() - BASE_LAYOUT_CSS@.len()) =~= BASE_LAYOUT_CSS@);
}

/// The JavaScript ends with the layout warning, and depends only on whether the chat id overlay
/// is on.
pub proof fn law_js_shape(m1: SettingsModel, m2: SettingsModel)
    ensures
        js_text(m1).len() >= compat_warning_text().len(),
        js_text(m1).skip(js_text(m1).len() - compat_warning_text().len()) == compat_warning_text(),
        m1.show_chat_id == m2.show_chat_id ==> js_text(m1) == js_text(m2),
{
    let j = js_text(m1);
    assert(j.skip(j.len() - compat_warning_text().len()) =~= compat_warning_text());
}

proof fn lemma_applied_fields(m: SettingsModel, k: SettingKey, v: Seq<char>)
    ensures
        applied(m, k, v).custom_font == (if k == SettingKey::CustomFont {
            v
        } else {
            m.custom_font
        }),
        applied(m, k, v).font_size == (if k == SettingKey::FontSize {
            number_value(v, DEFAULT_FONT_SIZE)
        } else {
            m.font_size
        }),
        applied(m, k, v).compact_mode == (if k == SettingKey::CompactMode {
            flag_value(v)
        } else {
            m.compact_mode
        }),
        applied(m, k, v).adaptive_bubbles == (if k == SettingKey::AdaptiveBubbles {
            flag_value(v)
        } else {
            m.adaptive_bubbles
        }),
        applied(m, k, v).sticker_height == (if k == SettingKey::StickerHeight {
            number_value(v, DEFAULT_STICKER_HEIGHT)
        } else {
            m.sticker_height
        }),
        applied(m, k, v).big_emoji_outline == (if k == SettingKey::BigEmojiOutline {
            flag_value(v)
        } else {
            m.big_emoji_outline
        }),
        applied(m, k, v).theme == (if k == SettingKey::Theme {
            v
        } else {
            m.theme
        }),
        applied(m, k, v).show_chat_id == (if k == SettingKey::ShowChatId {
            flag_value(v)
        } else {
            m.show_chat_id
        }),
        applied(m, k, v).disable_up_edit == (if k == SettingKey::DisableUpEdit {
            flag_value(v)
        } else {
            m.disable_up_edit
        }),
        applied(m, k, v).always_show_scheduled == (if k == SettingKey::AlwaysShowScheduled {
            flag_value(v)
        } else {
            m.always_show_scheduled
        }),
        applied(m, k, v).forward_without_author == (if k == SettingKey::ForwardWithoutAuthor {
            flag_value(v)
        } else {
            m.forward_without_author
        }),
        applied(m, k, v).forward_retain_selection == (if k == SettingKey::ForwardRetainSelection {
            flag_value(v)
        } else {
            m.forward_retain_selection
        }),
        applied(m, k, v).minimize_to_tray == (if k == SettingKey::MinimizeToTray {
            flag_value(v)
        } else {
            m.minimize_to_tray
        }),
        applied(m, k, v).start_minimized == (if k == SettingKey::StartMinimized {
            flag_value(v)
        } else {
            m.start_minimized
        }),
        applied(m, k, v).text_replaces == m.text_replaces,
{
}

/// Updates of two different preferences give the same result in either order.
pub proof fn law_updates_of_different_keys_commute(
    m: SettingsModel,
    k1: SettingKey,
    v1: Seq<char>,
    k2: SettingKey,
    v2: Seq<char>,
)
    requires
        k1 != k2,
    ensures
        updated(updated(m, key_name(k1), v1), key_name(k2), v2) == updated(
            updated(m, key_name(k2), v2),
            key_name(k1),
            v1,
        ),
{
    law_setting_keys(k1);
    law_setting_keys(k2);
    lemma_applied_fields(m, k1, v1);
    lemma_applied_fields(m, k2, v2);
    lemma_applied_fields(applied(m, k1, v1), k2, v2);
    lemma_applied_fields(applied(m, k2, v2), k1, v1);
    assert(applied(applied(m, k1, v1), k2, v2) =~= applied(applied(m, k2, v2), k1, v1));
}

/// After the theme is set to one of the named themes, the CSS carries that theme's colours right
/// before the base layout.
pub proof fn law_theme_update_selects_colours(m: SettingsModel)
    ensures
        css_text(updated(m, key_name(SettingKey::Theme), NORD_THEME@)).skip(
            css_text(updated(m, key_name(SettingKey::Theme), NORD_THEME@)).len()
                - BASE_LAYOUT_CSS@.len() - NORD_THEME_CSS@.len(),
        ) == NORD_THEME_CSS@ + BASE_LAYOUT_CSS@,
        css_text(updated(m, key_name(SettingKey::Theme), CATPPUCCIN_THEME@)).skip(
            css_text(updated(m, key_name(SettingKey::Theme), CATPPUCCIN_THEME@)).len()
                - BASE_LAYOUT_CSS@.len() - CATPPUCCIN_THEME_CSS@.len(),
        ) == CATPPUCCIN_THEME_CSS@ + BASE_LAYOUT_CSS@,
        css_text(updated(m, key_name(SettingKey::Theme), MIDNIGHT_THEME@)).skip(
            css_text(updated(m, key_name(SettingKey::Theme), MIDNIGHT_THEME@)).len()
                - BASE_LAYOUT_CSS@.len() - MIDNIGHT_THEME_CSS@.len(),
        ) == MIDNIGHT_THEME_CSS@ + BASE_LAYOUT_CSS@,
{
    law_setting_keys(SettingKey::Theme);
    reveal_strlit("nord");
    reveal_strlit("catppuccin");
    reveal_strlit("midnight");
    let themes = seq![NORD_THEME@, CATPPUCCIN_THEME@, MIDNIGHT_THEME@];
    let colours = seq![NORD_THEME_CSS@, CATPPUCCIN_THEME_CSS@, MIDNIGHT_THEME_CSS@];
    assert forall|i: int| 0 <= i < 3 implies {
        let c = css_text(updated(m, key_name(SettingKey::Theme), #[trigger] themes[i]));
        c.skip(c.len() - BASE_LAYOUT_CSS@.len() - colours[i].len()) == colours[i]
            + BASE_LAYOUT_CSS@
    } by {
        let n = updated(m, key_name(SettingKey::Theme), themes[i]);
        assert(theme_css(n.theme) == colours[i]);
        let c = css_text(n);
        let prefix = font_family_css(n) + font_size_css(n) + compact_mode_css(n)
            + adaptive_bubbles_css(n) + sticker_css(n);
        assert(c == prefix + colours[i] + BASE_LAYOUT_CSS@);
        assert(c.skip(c.len() - BASE_LAYOUT_CSS@.len() - colours[i].len()) =~= colours[i]
            + BASE_LAYOUT_CSS@);
    }
    assert(themes[0] == NORD_THEME@);
    assert(themes[1] == CATPPUCCIN_THEME@);
    assert(themes[2] == MIDNIGHT_THEME@);
}

/// After a font size other than the default one is stored, the CSS sets every element to it.
pub proof fn law_font_size_update_shows_in_css(m: SettingsModel, n: u32)
    requires
        n != DEFAULT_FONT_SIZE,
    ensures
        occurs_in(
            css_text(updated(m, key_name(SettingKey::FontSize), decimal(n as nat))),
            FONT_SIZE_CSS_HEAD@ + decimal(n as nat) + FONT_SIZE_CSS_TAIL@,
        ),
{
    law_update_number_roundtrip(m, n);
    let u = updated(m, key_name(SettingKey::FontSize), decimal(n as nat));
    let rule = FONT_SIZE_CSS_HEAD@ + decimal(n as nat) + FONT_SIZE_CSS_TAIL@;
    assert(font_size_css(u) == rule);
    let c = css_text(u);
    let i = font_family_css(u).len() as int;
    let rest = compact_mode_css(u) + adaptive_bubbles_css(u) + sticker_css(u) + theme_css(u.theme)
        + BASE_LAYOUT_CSS@;
    assert(c =~= font_family_css(u) + rule + rest);
    assert(c.subrange(i, i + rule.len()) =~= rule);
}

/// The theme colours come from the theme name alone: `nord`, `catppuccin` and `midnight` select
/// their palettes, compared case-sensitively (`Nord` selects none), and any other name selects no
/// palette, so at most one palette is ever injected.
pub proof fn law_theme_palette_selection(m: SettingsModel)
    ensures
        m.theme == NORD_THEME@ ==> theme_css(m.theme) == NORD_THEME_CSS@,
        m.theme == CATPPUCCIN_THEME@ ==> theme_css(m.theme) == CATPPUCCIN_THEME_CSS@,
        m.theme == MIDNIGHT_THEME@ ==> theme_css(m.theme) == MIDNIGHT_THEME_CSS@,
        (m.theme != NORD_THEME@ && m.theme != CATPPUCCIN_THEME@ && m.theme != MIDNIGHT_THEME@)
            ==> theme_css(m.theme).len() == 0,
        m.theme == "Nord"@ ==> theme_css(m.theme).len() == 0,
{
    reveal_strlit("nord");
    reveal_strlit("catppuccin");
    reveal_strlit("midnight");
    reveal_strlit("Nord");
    assert(NORD_THEME@.len() == 4);
    assert(CATPPUCCIN_THEME@.len() == 10);
    assert(MIDNIGHT_THEME@.len() == 8);
    assert("Nord"@[0] != "nord"@[0]);
}

/// The overlay switch decides the JavaScript: two preference sets give the same script exactly
/// when they agree on it.
pub proof fn law_js_follows_overlay_switch(m1: SettingsModel, m2: SettingsModel)
    ensures
        js_text(m1) == js_text(m2) <==> m1.show_chat_id == m2.show_chat_id,
{
    reveal_strlit("\n            (function() {\n                if (!window._kotauri_chat_id_observer) {");
    reveal_strlit("\n            (function() {\n                if (window._kotauri_chat_id_interval) {");
    let on = chat_id_overlay_text() + compat_warning_text();
    let off = CHAT_ID_CLEANUP_GUARD@ + CHAT_ID_CLEANUP_JS@ + compat_warning_text();
    assert(CHAT_ID_OVERLAY_GUARD@.len() > 47);
    assert(CHAT_ID_CLEANUP_GUARD@.len() > 47);
    assert(on[47] == CHAT_ID_OVERLAY_GUARD@[47]);
    assert(off[47] == CHAT_ID_CLEANUP_GUARD@[47]);
    assert(CHAT_ID_OVERLAY_GUARD@[47] != CHAT_ID_CLEANUP_GUARD@[47]);
    assert(on != off);
}

/// The injection script sets the style element's text to the quoted CSS and the script element's
/// text to the quoted JavaScript, each as one statement.
pub proof fn law_injection_carries_css_and_js(s: SettingsModel)
    ensures
        occurs_in(
            injection_text(debug_quoted(css_text(s)), debug_quoted(js_text(s))),
            STYLE_TEXT_ASSIGNMENT@ + debug_quoted(css_text(s)) + STATEMENT_END@,
        ),
        occurs_in(
            injection_text(debug_quoted(css_text(s)), debug_quoted(js_text(s))),
            SCRIPT_TEXT_ASSIGNMENT@ + debug_quoted(js_text(s)) + STATEMENT_END@,
        ),
{
    let c = debug_quoted(css_text(s));
    let j = debug_quoted(js_text(s));
    let t = injection_text(c, j);
    let style = STYLE_TEXT_ASSIGNMENT@ + c + STATEMENT_END@;
    let script = SCRIPT_TEXT_ASSIGNMENT@ + j + STATEMENT_END@;
    let a = INJECTION_JS_OPEN@.len() as int;
    let b = a + style.len() + INJECTION_JS_BETWEEN@.len();
    assert(t =~= INJECTION_JS_OPEN@ + style + INJECTION_JS_BETWEEN@ + script + INJECTION_JS_CLOSE@);
    assert(t.subrange(a, a + style.len()) =~= style);
    assert(t.subrange(b, b + script.len()) =~= script);
}

/// In compact mode the CSS lowers the chat rows to 56 pixels, ahead of the base layout.
pub proof fn law_compact_mode_shows_in_css(m: SettingsModel)
    requires
        m.compact_mode,
    ensures
        css_text(m).len() >= BASE_LAYOUT_CSS@.len(),
        occurs_in(
            css_text(m).take(css_text(m).len() - BASE_LAYOUT_CSS@.len()),
            "\n                .chatlist-chat, .chat-list-item {\n                    height: 56px !important;\n                    min-height: 56px !important;\n                }"@,
        ),
{
    let c = css_text(m);
    let head = font_family_css(m) + font_size_css(m);
    let rest = COMPACT_CHAT_DETAIL_CSS@ + adaptive_bubbles_css(m) + sticker_css(m) + theme_css(
        m.theme,
    );
    let rows = COMPACT_CHAT_ROW_CSS@;
    assert(c =~= head + rows + rest + BASE_LAYOUT_CSS@);
    assert(c.take(c.len() - BASE_LAYOUT_CSS@.len()) =~= head + rows + rest);
    let i = head.len() as int;
    assert((head + rows + rest).subrange(i, i + rows.len()) =~= rows);
}

/// Compact mode always shows in the CSS: two preference sets that agree on every other
/// appearance preference give the same CSS exactly when they agree on compact mode.
pub proof fn law_compact_mode_switch_changes_css(m1: SettingsModel, m2: SettingsModel)
    requires
        m1.custom_font == m2.custom_font,
        m1.font_size == m2.font_size,
        m1.adaptive_bubbles == m2.adaptive_bubbles,
        m1.sticker_height == m2.sticker_height,
        m1.theme == m2.theme,
    ensures
        css_text(m1) == css_text(m2) <==> m1.compact_mode == m2.compact_mode,
{
    law_css_shape(m1, m2);
    reveal_strlit(
        "\n                .chatlist-chat, .chat-list-item {\n                    height: 56px !important;\n                    min-height: 56px !important;\n                }",
    );
    assert(COMPACT_CHAT_ROW_CSS@.len() > 0);
    if m1.compact_mode != m2.compact_mode {
        let n1 = compact_mode_css(m1).len();
        let n2 = compact_mode_css(m2).len();
        assert(n1 != n2);
        assert(css_text(m1).len() - n1 == css_text(m2).len() - n2);
    }
}

/// With the chat id overlay on, the script declares in full each selector list that it searches:
/// the chat list, the centre column, the chat rows and the open chat's header.
pub proof fn law_overlay_declares_selectors(m: SettingsModel)
    requires
        m.show_chat_id,
    ensures
        occurs_in(js_text(m), "const ROOT_SEL = '"@ + "#column-left"@ + "';"@),
        occurs_in(js_text(m), "const CENTER_SEL = '"@ + "#column-center"@ + "';"@),
        occurs_in(
            js_text(m),
            "const ROW_SELECTOR_LIST = '"@
                + ".chatlist-chat, .chat-list-item, li.chatlist-chat, .chatlist-chat.row-clickable-hover"@
                + "';"@,
        ),
        occurs_in(
            js_text(m),
            "const HEADER_SELECTOR_LIST = '"@ + ".chat .sidebar-header, .chat-info-container, .topbar"@
                + "';"@,
        ),
{
    let j = js_text(m);
    let d1 = overlay_declaration(OVERLAY_ROOT_DECL@, WebKSelectors::COLUMN_LEFT@);
    let d2 = overlay_declaration(OVERLAY_CENTER_DECL@, WebKSelectors::COLUMN_CENTER@);
    let d3 = overlay_declaration(OVERLAY_ROW_DECL@, WebKSelectors::CHAT_ROW_SELECTORS@);
    let d4 = overlay_declaration(OVERLAY_HEADER_DECL@, WebKSelectors::ACTIVE_CHAT_HEADER_SELECTORS@);
    let g = CHAT_ID_OVERLAY_GUARD@;
    let tail = CHAT_ID_OVERLAY_BODY@ + compat_warning_text();
    assert(j =~= g + d1 + d2 + d3 + d4 + tail);
    let ls = OVERLAY_LINE_START@.len();
    let e1 = OVERLAY_ROOT_DECL@ + WebKSelectors::COLUMN_LEFT@ + OVERLAY_DECL_END@;
    let e2 = OVERLAY_CENTER_DECL@ + WebKSelectors::COLUMN_CENTER@ + OVERLAY_DECL_END@;
    let e3 = OVERLAY_ROW_DECL@ + WebKSelectors::CHAT_ROW_SELECTORS@ + OVERLAY_DECL_END@;
    let e4 = OVERLAY_HEADER_DECL@ + WebKSelectors::ACTIVE_CHAT_HEADER_SELECTORS@ + OVERLAY_DECL_END@;
    let i1: int = (g.len() + ls) as int;
    let i2: int = (g.len() + d1.len() + ls) as int;
    let i3: int = (g.len() + d1.len() + d2.len() + ls) as int;
    let i4: int = (g.len() + d1.len() + d2.len() + d3.len() + ls) as int;
    assert(j.subrange(i1, i1 + e1.len()) =~= e1);
    assert(j.subrange(i2, i2 + e2.len()) =~= e2);
    assert(j.subrange(i3, i3 + e3.len()) =~= e3);
    assert(j.subrange(i4, i4 + e4.len()) =~= e4);
}

/// Between setting the style element's text and setting the script element's text, the injection
/// script looks up the `kotauri-js` script element and, when there is none, creates it with that
/// id.
pub proof fn law_injection_installs_script_element(c: Seq<char>, j: Seq<char>)
    ensures
        occurs_in(
            injection_text(c, j),
            "style.textContent = "@ + c + ";"@
                + "\n\n                let script = document.getElementById('kotauri-js');\n                if (!script) {\n                    script = document.createElement('script');\n                    script.id = 'kotauri-js';\n                    "@
                + "script.textContent = "@ + j + ";"@,
        ),
{
    let t = injection_text(c, j);
    let body = STYLE_TEXT_ASSIGNMENT@ + c + STATEMENT_END@ + INJECTION_JS_BETWEEN@
        + SCRIPT_TEXT_ASSIGNMENT@ + j + STATEMENT_END@;
    let a = INJECTION_JS_OPEN@.len() as int;
    assert(t =~= INJECTION_JS_OPEN@ + body + INJECTION_JS_CLOSE@);
    assert(t.subrange(a, a + body.len()) =~= body);
}

/// Each appearance preference that differs from its neutral value shows in the CSS: the custom
/// font as the font of every element, a font size other than 14 as every element's size, adaptive
/// bubbles as bubbles fitted to their content, and a sticker height other than 170 as the size of
/// stickers.
pub proof fn law_css_carries_appearance(m: SettingsModel)
    ensures
        m.custom_font.len() > 0 ==> occurs_in(
            css_text(m),
            FONT_FAMILY_CSS_HEAD@ + m.custom_font + FONT_FAMILY_CSS_TAIL@,
        ),
        m.font_size != 14 ==> occurs_in(
            css_text(m),
            FONT_SIZE_CSS_HEAD@ + decimal(m.font_size as nat) + FONT_SIZE_CSS_TAIL@,
        ),
        m.adaptive_bubbles ==> occurs_in(
            css_text(m),
            "\n                .bubble, .message {\n                    max-width: 90% !important;\n                    width: fit-content !important;\n                }\n            "@,
        ),
        m.sticker_height != 170 ==> occurs_in(
            css_text(m),
            STICKER_CSS_HEAD@ + decimal(m.sticker_height as nat) + STICKER_CSS_MIDDLE@ + decimal(
                m.sticker_height as nat,
            ) + STICKER_CSS_TAIL@,
        ),
{
    let c = css_text(m);
    let p1 = font_family_css(m);
    let p2 = font_size_css(m);
    let p3 = compact_mode_css(m);
    let p4 = adaptive_bubbles_css(m);
    let p5 = sticker_css(m);
    let rest = theme_css(m.theme) + BASE_LAYOUT_CSS@;
    assert(c =~= p1 + p2 + p3 + p4 + p5 + rest);
    let i2 = p1.len() as int;
    let i4 = (p1.len() + p2.len() + p3.len()) as int;
    let i5 = (p1.len() + p2.len() + p3.len() + p4.len()) as int;
    let i1: int = 0;
    assert(c.subrange(i1, i1 + p1.len()) =~= p1);
    assert(c.subrange(i2, i2 + p2.len()) =~= p2);
    assert(c.subrange(i4, i4 + p4.len()) =~= p4);
    assert(c.subrange(i5, i5 + p5.len()) =~= p5);
}

/// An update by key name sets the preference of that name: `custom_font` and `theme` store the
/// text, `font_size` and `sticker_height` store the number it reads as (14 and 170 when it does
/// not read as one), and each switch is on exactly when the text is `true`.
pub proof fn law_update_by_key_name(m: SettingsModel, v: Seq<char>)
    ensures
        updated(m, "custom_font"@, v).custom_font == v,
        updated(m, "theme"@, v).theme == v,
        updated(m, "font_size"@, v).font_size == (match parsed_u32(v) {
            Some(n) => n,
            None => 14u32,
        }),
        updated(m, "sticker_height"@, v).sticker_height == (match parsed_u32(v) {
            Some(n) => n,
            None => 170u32,
        }),
        updated(m, "compact_mode"@, v).compact_mode == (v == "true"@),
        updated(m, "adaptive_bubbles"@, v).adaptive_bubbles == (v == "true"@),
        updated(m, "big_emoji_outline"@, v).big_emoji_outline == (v == "true"@),
        updated(m, "show_chat_id"@, v).show_chat_id == (v == "true"@),
        updated(m, "disable_up_edit"@, v).disable_up_edit == (v == "true"@),
        updated(m, "always_show_scheduled"@, v).always_show_scheduled == (v == "true"@),
        updated(m, "forward_without_author"@, v).forward_without_author == (v == "true"@),
        updated(m, "forward_retain_selection"@, v).forward_retain_selection == (v == "true"@),
        updated(m, "minimize_to_tray"@, v).minimize_to_tray == (v == "true"@),
        updated(m, "start_minimized"@, v).start_minimized == (v == "true"@),
{
    law_setting_keys(SettingKey::CustomFont);
    law_setting_keys(SettingKey::FontSize);
    law_setting_keys(SettingKey::CompactMode);
    law_setting_keys(SettingKey::AdaptiveBubbles);
    law_setting_keys(SettingKey::StickerHeight);
    law_setting_keys(SettingKey::BigEmojiOutline);
    law_setting_keys(SettingKey::Theme);
    law_setting_keys(SettingKey::ShowChatId);
    law_setting_keys(SettingKey::DisableUpEdit);
    law_setting_keys(SettingKey::AlwaysShowScheduled);
    law_setting_keys(SettingKey::ForwardWithoutAuthor);
    law_setting_keys(SettingKey::ForwardRetainSelection);
    law_setting_keys(SettingKey::MinimizeToTray);
    law_setting_keys(SettingKey::StartMinimized);
}

} // verus!
