//! The fixed text of the CSS and JavaScript that the preferences select, cut where a preference
//! value is inserted.
use vstd::prelude::*;

verus! {

/// Text before the custom font name in the font rule.
pub const FONT_FAMILY_CSS_HEAD: &'static str = r#"
                * {
                    font-family: '"#;

/// Text after the custom font name in the font rule.
pub const FONT_FAMILY_CSS_TAIL: &'static str = r#"', system-ui, -apple-system, sans-serif !important;
                }
                [class^="icon-"], [class*=" icon-"], i, .icon, .tgico {
                    font-family: 'tgico', 'icomoon' !important;
                }
                "#;

/// Text before the font size in the font-size rule.
pub const FONT_SIZE_CSS_HEAD: &'static str = r#"
                * {
                    font-size: "#;

/// Text after the font size in the font-size rule.
pub const FONT_SIZE_CSS_TAIL: &'static str = r#"px !important;
                }
                "#;

/// Compact chat list: the lower chat rows.
pub const COMPACT_CHAT_ROW_CSS: &'static str = r#"
                .chatlist-chat, .chat-list-item {
                    height: 56px !important;
                    min-height: 56px !important;
                }"#;

/// Compact chat list: smaller titles, avatars and bubbles.
pub const COMPACT_CHAT_DETAIL_CSS: &'static str = r#"
                .chatlist-chat .user-title, .chatlist-chat .dialog-subtitle {
                    font-size: 0.9em !important;
                }
                /* Reduz o avatar no modo compacto */
                .chatlist-chat .avatar-54, .chatlist-chat .row-media-bigger {
                    width: 42px !important;
                    height: 42px !important;
                    min-width: 42px !important;
                    min-height: 42px !important;
                }
                .bubble, .message {
                    padding: 4px 10px !important;
                    margin-bottom: 2px !important;
                }
            "#;

/// Rules that fit message bubbles to their content.
pub const ADAPTIVE_BUBBLES_CSS: &'static str = r#"
                .bubble, .message {
                    max-width: 90% !important;
                    width: fit-content !important;
                }
            "#;

/// Text before the first sticker height.
pub const STICKER_CSS_HEAD: &'static str = r#"
                .sticker-media, .media-sticker, img.sticker, video.media-video {
                    max-height: "#;

/// Text between the two sticker heights.
pub const STICKER_CSS_MIDDLE: &'static str = r#"px !important;
                    max-width: "#;

/// Text after the second sticker height.
pub const STICKER_CSS_TAIL: &'static str = r#"px !important;
                }
            "#;

/// Colours of the `nord` theme.
pub const NORD_THEME_CSS: &'static str = r#"
                :root {
                    --surface-color: #2E3440 !important;
                    --background-color: #2E3440 !important;
                    --primary-color: #88C0D0 !important;
                    --text-color: #ECEFF4 !important;
                    --secondary-text-color: #D8DEE9 !important;
                    --border-color: #4C566A !important;
                    --chat-background-color: #2E3440 !important;
                    --message-out-background-color: #4C566A !important;
                    --message-in-background-color: #3B4252 !important;
                }
            "#;

/// Colours of the `catppuccin` theme.
pub const CATPPUCCIN_THEME_CSS: &'static str = r#"
                :root {
                    --surface-color: #1e1e2e !important;
                    --background-color: #1e1e2e !important;
                    --primary-color: #cba6f7 !important;
                    --text-color: #cdd6f4 !important;
                    --secondary-text-color: #a6adc8 !important;
                    --border-color: #313244 !important;
                    --chat-background-color: #1e1e2e !important;
                    --message-out-background-color: #89b4fa !important;
                    --message-in-background-color: #313244 !important;
                }
            "#;

/// Colours of the `midnight` theme.
pub const MIDNIGHT_THEME_CSS: &'static str = r#"
                :root {
                    --surface-color: #000000 !important;
                    --background-color: #000000 !important;
                    --primary-color: #3390ec !important;
                    --text-color: #ffffff !important;
                    --secondary-text-color: #aaaaaa !important;
                    --border-color: #222222 !important;
                    --chat-background-color: #000000 !important;
                    --message-out-background-color: #1a4f8b !important;
                    --message-in-background-color: #181818 !important;
                }
            "#;

/// The full-width column layout, always injected last.
pub const BASE_LAYOUT_CSS: &'static str = r#"
            /* --- REMOVER MARGENS LATERAIS (FULL WIDTH DEFINITIVE) --- */
            :root, html, body, #root, .root, .Layout, .layout, .app, #app-container,
            .page-container, .main-layout, .columns-container, .Layout-main,
            .middle-column, .view-container, .Main, .main {
                width: 100% !important;
                max-width: none !important;
                margin: 0 !important;
                padding: 0 !important;
                left: 0 !important;
                right: 0 !important;
            }

            /* --- LAYOUT DE COLUNAS --- */
            #column-left {
                width: 380px !important;
                max-width: 500px !important;
                flex: 0 0 380px !important;
                transition: width 0.1s ease-in-out !important;
                border-right: 1px solid rgba(255, 255, 255, 0.1) !important;
                display: flex !important;
                flex-direction: column !important;
                /* Removido z-index fixo que cobria menus */
            }
            
            @media (min-width: 1200px) {
                #column-left {
                    width: 420px !important;
                    flex: 0 0 420px !important;
                }
            }

            #column-center {
                flex: 1 !important;
                max-width: none !important;
                width: 100% !important;
                display: flex !important;
                flex-direction: column !important;
            }
            
            /* Ajuste da sidebar lateral esquerda */
            .sidebar {
                width: 68px !important;
                min-width: 68px !important;
                flex: 0 0 68px !important;
                background-color: var(--surface-color, #17212b) !important;
            }

            /* --- FIX MENUS E POPUPS --- */
            .Menu, .Dropdown, .popup, .modal, .Menu-item {
                z-index: 9999 !important;
            }

            /* --- LISTA DE CHATS --- */
            .chatlist-chat {
                height: 72px !important;
                padding: 8px 12px !important;
                border-bottom: 1px solid rgba(255, 255, 255, 0.03) !important;
            }
            
            .chatlist-chat .info {
                margin-left: 14px !important;
                flex: 1 !important;
                min-width: 0 !important;
                display: flex !important;
                flex-direction: column !important;
                justify-content: center !important;
            }
            
            .chatlist-chat .title-row, .chatlist-chat .dialog-title {
                display: flex !important;
                justify-content: space-between !important;
                align-items: center !important;
                width: 100% !important;
                gap: 8px !important;
            }
            
            .chatlist-chat .subtitle-row, .chatlist-chat .dialog-subtitle-row {
                display: flex !important;
                justify-content: space-between !important;
                align-items: center !important;
                width: 100% !important;
                gap: 8px !important;
            }

            .chatlist-chat .user-title {
                font-weight: 600 !important;
                font-size: 1rem !important;
                overflow: hidden !important;
                text-overflow: ellipsis !important;
                white-space: nowrap !important;
                flex: 1 !important;
            }
            
            .chatlist-chat .last-message, .chatlist-chat .dialog-subtitle {
                font-size: 0.9rem !important;
                overflow: hidden !important;
                text-overflow: ellipsis !important;
                white-space: nowrap !important;
                flex: 1 !important;
                opacity: 0.7 !important;
            }

            .chatlist-chat .chat-time, .chatlist-chat .dialog-title-details {
                flex-shrink: 0 !important;
                font-size: 0.8rem !important;
                color: var(--secondary-text-color, #aab2bd) !important;
            }

            /* Barra de busca */
            .search-input {
                width: 100% !important;
                height: 36px !important;
                border-radius: 8px !important;
            }

            /* ID do Chat Injetado */
            .kotauri-chat-id {
                font-size: 8px !important;
                opacity: 0.4 !important;
                right: 4px !important;
                bottom: 2px !important;
                color: #ffffff !important;
            }
        "#;

/// Opening of the overlay script: it runs only while no overlay observer is installed.
pub const CHAT_ID_OVERLAY_GUARD: &'static str = r#"
            (function() {
                if (!window._kotauri_chat_id_observer) {"#;

/// Line break and indentation before each statement of the overlay script.
pub const OVERLAY_LINE_START: &'static str = r#"
                    "#;

/// Opening of the declaration of the chat-list root selector.
pub const OVERLAY_ROOT_DECL: &'static str = r#"const ROOT_SEL = '"#;

/// Opening of the declaration of the centre column selector.
pub const OVERLAY_CENTER_DECL: &'static str = r#"const CENTER_SEL = '"#;

/// Opening of the declaration of the chat row selectors.
pub const OVERLAY_ROW_DECL: &'static str = r#"const ROW_SELECTOR_LIST = '"#;

/// Opening of the declaration of the chat header selectors.
pub const OVERLAY_HEADER_DECL: &'static str = r#"const HEADER_SELECTOR_LIST = '"#;

/// End of each selector declaration: the closing quote and the semicolon.
pub const OVERLAY_DECL_END: &'static str = r#"';"#;

/// Overlay script after the selector declarations.
pub const CHAT_ID_OVERLAY_BODY: &'static str = r##"
                    const DEBUG_ONCE_KEY = '_kotauri_chat_id_overlay_logged';

                    function normalizePeerId(v) {
                        if (v === null || v === undefined) return null;
                        const s = String(v).trim();
                        return /^-?\d+$/.test(s) ? s : null;
                    }

                    function peerIdFromHref(href) {
                        if (!href) return null;
                        const m = String(href).match(/#(-?\d+)/);
                        return m ? m[1] : null;
                    }

                    function peerIdFromLocation() {
                        try {
                            const href = String(window.location.href || '');
                            const hash = String(window.location.hash || '');
                            let id = peerIdFromHref(hash);
                            if (id) return id;
                            id = peerIdFromHref(href);
                            if (id) return id;
                            const tgOpen = href.match(/tg:\/\/open\/?\?[^#]*peer(?:=|_id=)(-?\d+)/i);
                            if (tgOpen) return tgOpen[1];
                            const peerInQuery = href.match(/[?&](?:peer|peer_id|chat|dialog)=(-?\d+)/i);
                            return peerInQuery ? peerInQuery[1] : null;
                        } catch (e) {
                            return null;
                        }
                    }

                    function tryReactPeerId(el) {
                        if (!el) return null;
                        const keys = Object.keys(el);
                        for (let i = 0; i < keys.length; i++) {
                            const k = keys[i];
                            if (!k.startsWith('__reactFiber$') && !k.startsWith('__reactInternalInstance$')) continue;
                            let fiber = el[k];
                            let depth = 0;
                            while (fiber && depth++ < 48) {
                                const props = fiber.memoizedProps || fiber.pendingProps;
                                if (props && typeof props === 'object') {
                                    let pid = normalizePeerId(props.peerId);
                                    if (pid) return pid;
                                    if (props.dialog) {
                                        pid = normalizePeerId(props.dialog.peerId);
                                        if (pid) return pid;
                                    }
                                }
                                fiber = fiber.return;
                            }
                        }
                        return null;
                    }

                    function extractPeerId(row) {
                        let id = normalizePeerId(row.getAttribute('data-peer-id'));
                        if (id) return id;
                        id = normalizePeerId(row.getAttribute('data-dialog-id'));
                        if (id) return id;
                        const attrEl = row.querySelector('[data-peer-id], [data-dialog-id]');
                        if (attrEl) {
                            id = normalizePeerId(attrEl.getAttribute('data-peer-id'))
                                || normalizePeerId(attrEl.getAttribute('data-dialog-id'));
                            if (id) return id;
                        }
                        const links = row.querySelectorAll('a[href^="#"]');
                        for (let i = 0; i < links.length; i++) {
                            id = peerIdFromHref(links[i].getAttribute('href'));
                            if (id) return id;
                        }
                        return tryReactPeerId(row);
                    }

                    function extractActivePeerId(headerRoot) {
                        if (!headerRoot) return null;
                        let id = normalizePeerId(headerRoot.getAttribute('data-peer-id'));
                        if (id) return id;
                        id = normalizePeerId(headerRoot.getAttribute('data-dialog-id'));
                        if (id) return id;

                        const attrEl = headerRoot.querySelector('[data-peer-id], [data-dialog-id]');
                        if (attrEl) {
                            id = normalizePeerId(attrEl.getAttribute('data-peer-id'))
                                || normalizePeerId(attrEl.getAttribute('data-dialog-id'));
                            if (id) return id;
                        }

                        const links = headerRoot.querySelectorAll('a[href*="#"], a[href*="peer"], a[href*="tg://open"]');
                        for (let i = 0; i < links.length; i++) {
                            const href = links[i].getAttribute('href') || '';
                            id = peerIdFromHref(href);
                            if (id) return id;
                        }

                        id = tryReactPeerId(headerRoot);
                        if (id) return id;

                        return peerIdFromLocation();
                    }

                    function collectChatRows() {
                        const root = document.querySelector(ROOT_SEL) || document.body;
                        const rows = new Set();
                        ROW_SELECTOR_LIST.split(',').map(function(s) { return s.trim(); }).forEach(function(sel) {
                            if (!sel) return;
                            try {
                                root.querySelectorAll(sel).forEach(function(el) { rows.add(el); });
                            } catch (e) {}
                        });
                        root.querySelectorAll('a[href^="#"]').forEach(function(a) {
                            const href = a.getAttribute('href') || '';
                            if (!/^#[-]?\d/.test(href)) return;
                            const row = a.closest('.chatlist-chat')
                                || a.closest('.chat-list-item')
                                || a.closest('li.chatlist-chat')
                                || a.closest(ROOT_SEL + ' li');
                            if (row && root.contains(row)) rows.add(row);
                        });
                        return rows;
                    }

                    function findActiveHeaderRoot() {
                        const center = document.querySelector(CENTER_SEL) || document.body;
                        const selectors = HEADER_SELECTOR_LIST.split(',').map(function(s) { return s.trim(); }).filter(Boolean);
                        for (let i = 0; i < selectors.length; i++) {
                            const sel = selectors[i];
                            try {
                                const hit = center.querySelector(sel) || document.querySelector(sel);
                                if (hit) return hit;
                            } catch (e) {}
                        }
                        return null;
                    }

                    function ensurePositioned(row) {
                        const cs = window.getComputedStyle(row);
                        if (cs.position === 'static' || cs.position === '') {
                            row.style.position = 'relative';
                        }
                    }

                    function scanChatIds() {
                        collectChatRows().forEach(function(chat) {
                            if (chat.querySelector('.kotauri-chat-id')) return;
                            const id = extractPeerId(chat);
                            if (!id) return;
                            ensurePositioned(chat);
                            const span = document.createElement('span');
                            span.className = 'kotauri-chat-id';
                            span.textContent = id;
                            span.style.cssText = 'position:absolute;right:10px;bottom:6px;font-size:9px;z-index:5;pointer-events:none;opacity:0.7;';
                            chat.appendChild(span);
                        });
                    }

                    function renderActiveChatId() {
                        const center = document.querySelector(CENTER_SEL) || document.body;
                        center.querySelectorAll('.kotauri-active-chat-id').forEach(function(el) {
                            el.remove();
                        });

                        const header = findActiveHeaderRoot();
                        if (!header) return;

                        const id = extractActivePeerId(header);
                        if (!id) return;

                        const host = header.querySelector('.chat-info') || header;
                        const cs = window.getComputedStyle(host);
                        if (cs.position === 'static' || cs.position === '') {
                            host.style.position = 'relative';
                        }

                        const badge = document.createElement('span');
                        badge.className = 'kotauri-active-chat-id';
                        badge.textContent = 'ID ' + id;
                        badge.style.cssText = 'display:inline-flex;align-items:center;margin-left:8px;padding:1px 6px;border-radius:999px;border:1px solid rgba(255,255,255,0.2);font-size:10px;line-height:1.3;color:rgba(255,255,255,0.78);background:rgba(0,0,0,0.25);pointer-events:none;font-family:ui-monospace,SFMono-Regular,Menlo,Consolas,monospace;letter-spacing:0.02em;vertical-align:middle;';

                        const title = host.querySelector('.title, .peer-title, .person-title, .chat-info-wrapper');
                        if (title) {
                            title.appendChild(badge);
                        } else {
                            host.appendChild(badge);
                        }
                    }

                    function scanAll() {
                        scanChatIds();
                        renderActiveChatId();
                    }

                    let scheduled = null;
                    function scheduleScan() {
                        if (scheduled !== null) return;
                        scheduled = window.requestAnimationFrame(function() {
                            scheduled = null;
                            scanAll();
                        });
                    }

                    const obsRoot = document.querySelector(ROOT_SEL) || document.body;
                    window._kotauri_chat_id_observer = new MutationObserver(scheduleScan);
                    window._kotauri_chat_id_observer.observe(obsRoot, { childList: true, subtree: true });

                    const centerRoot = document.querySelector(CENTER_SEL) || document.body;
                    window._kotauri_active_chat_id_observer = new MutationObserver(scheduleScan);
                    window._kotauri_active_chat_id_observer.observe(centerRoot, { childList: true, subtree: true, attributes: true });

                    window._kotauri_chat_id_hash_listener = function() {
                        scheduleScan();
                    };
                    window.addEventListener('hashchange', window._kotauri_chat_id_hash_listener, true);

                    if (!window[DEBUG_ONCE_KEY]) {
                        window[DEBUG_ONCE_KEY] = true;
                        console.info('[KoTauri] chat id overlay active');
                    }

                    scheduleScan();
                    window._kotauri_chat_id_interval = window.setInterval(scheduleScan, 2500);
                }
            })();
            "##;

/// Opening of the removal script: it first stops the periodic scan.
pub const CHAT_ID_CLEANUP_GUARD: &'static str = r#"
            (function() {
                if (window._kotauri_chat_id_interval) {"#;

/// Script that removes the chat id overlay and its observers, after its opening.
pub const CHAT_ID_CLEANUP_JS: &'static str = r#"
                    clearInterval(window._kotauri_chat_id_interval);
                    window._kotauri_chat_id_interval = null;
                }
                if (window._kotauri_chat_id_observer) {
                    window._kotauri_chat_id_observer.disconnect();
                    window._kotauri_chat_id_observer = null;
                }
                if (window._kotauri_active_chat_id_observer) {
                    window._kotauri_active_chat_id_observer.disconnect();
                    window._kotauri_active_chat_id_observer = null;
                }
                if (window._kotauri_chat_id_hash_listener) {
                    window.removeEventListener('hashchange', window._kotauri_chat_id_hash_listener, true);
                    window._kotauri_chat_id_hash_listener = null;
                }
                document.querySelectorAll('.kotauri-chat-id').forEach(el => el.remove());
                document.querySelectorAll('.kotauri-active-chat-id').forEach(el => el.remove());
            })();
            "#;

/// Injection script up to the assignment of the CSS.
pub const INJECTION_JS_OPEN: &'static str = r#"
            (function() {
                let style = document.getElementById('kotauri-css');
                if (!style) {
                    style = document.createElement('style');
                    style.id = 'kotauri-css';
                    document.head.appendChild(style);
                }
                "#;

/// The assignment that sets the style element's text.
pub const STYLE_TEXT_ASSIGNMENT: &'static str = r#"style.textContent = "#;

/// The end of a statement.
pub const STATEMENT_END: &'static str = r#";"#;

/// Injection script between the CSS statement and the assignment of the JavaScript.
pub const INJECTION_JS_BETWEEN: &'static str = r#"

                let script = document.getElementById('kotauri-js');
                if (!script) {
                    script = document.createElement('script');
                    script.id = 'kotauri-js';
                    "#;

/// The assignment that sets the script element's text.
pub const SCRIPT_TEXT_ASSIGNMENT: &'static str = r#"script.textContent = "#;

/// Injection script after the JavaScript statement.
pub const INJECTION_JS_CLOSE: &'static str = r#"
                    document.head.appendChild(script);
                }
            })();
            "#;

} // verus!
