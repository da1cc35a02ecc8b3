//! Telegram Web K selectors in one place, and the console warning shown when the layout no longer
//! matches them.
use vstd::prelude::*;
use crate::text::push_text;

verus! {

/// DOM markers used by the injected CSS and JavaScript.
pub struct WebKSelectors;

impl WebKSelectors {
    pub const COLUMN_LEFT: &'static str = "#column-left";

    /// The centre column, where the open chat is shown. This library's choice: the column id
    /// that Web K gives its centre column.
    pub const COLUMN_CENTER: &'static str = "#column-center";

    pub const CHAT_LIST_CHAT: &'static str = ".chatlist-chat";

    /// Row selectors of the chat list; several patterns, as the DOM changes between builds.
    pub const CHAT_ROW_SELECTORS: &'static str =
        ".chatlist-chat, .chat-list-item, li.chatlist-chat, .chatlist-chat.row-clickable-hover";

    /// Header of the open chat, where its id badge goes. This library's choice of the header
    /// classes that Web K uses, tried in order.
    pub const ACTIVE_CHAT_HEADER_SELECTORS: &'static str =
        ".chat .sidebar-header, .chat-info-container, .topbar";

    pub const SIDEBAR_FALLBACK: &'static str = ".sidebar";
}

/// Warning script up to the first marker selector.
pub const COMPAT_WARNING_JS_HEAD: &'static str = r#"
            (function() {
                const markers = [""#;

/// Warning script between the two marker selectors.
pub const COMPAT_WARNING_JS_MIDDLE: &'static str = r#"", ""#;

/// Warning script after the second marker selector.
pub const COMPAT_WARNING_JS_TAIL: &'static str = r#""];
                const ok = markers.some((s) => document.querySelector(s));
                if (!ok) {
                    console.warn(
                        "[KoTauri] Compatibilidade: não foi encontrada a coluna lateral esperada. " +
                        "O Telegram Web K pode ter atualizado — temas e outros ajustes injetados podem falhar."
                    );
                }
            })();
        "#;

/// The warning script: it checks for the left column or the sidebar and warns on the console when
/// neither is present.
pub open spec fn compat_warning_text() -> Seq<char> {
    COMPAT_WARNING_JS_HEAD@ + WebKSelectors::COLUMN_LEFT@ + COMPAT_WARNING_JS_MIDDLE@
        + WebKSelectors::SIDEBAR_FALLBACK@ + COMPAT_WARNING_JS_TAIL@
}

/// Script injected after the rest: warns on the console when the layout looks incompatible.
pub fn injected_compat_warning_js() -> (r: String)
    ensures
        r@ == compat_warning_text(),
{
    let mut r = String::new();
    push_text(&mut r, COMPAT_WARNING_JS_HEAD);
    push_text(&mut r, WebKSelectors::COLUMN_LEFT);
    push_text(&mut r, COMPAT_WARNING_JS_MIDDLE);
    push_text(&mut r, WebKSelectors::SIDEBAR_FALLBACK);
    push_text(&mut r, COMPAT_WARNING_JS_TAIL);
    r
}

} // verus!
