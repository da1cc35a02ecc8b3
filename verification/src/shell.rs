//! Decisions of the application shell: which navigations open the settings window, what the tray
//! menu entries do, and when the preferences are injected after start-up.
use vstd::prelude::*;
use crate::text::{contains_text, occurs_in, str_equals};

verus! {

/// Initialization script that exposes `window.kotauri.openSettings`.
pub const OPEN_SETTINGS_INIT_JS: &'static str = r#"
                window.kotauri = {
                    openSettings: () => {
                        let f = document.createElement('iframe');
                        f.style.display = 'none';
                        f.src = 'https://kotauri.internal/open-settings';
                        document.body.appendChild(f);
                        setTimeout(() => f.remove(), 500);
                    }
                };
            "#;

/// The internal address that the page navigates to when it asks for the settings window.
pub const OPEN_SETTINGS_ROUTE: &'static str = "kotauri.internal/open-settings";

/// Whether a navigation of the main window is the request for the settings window (and is then
/// stopped rather than followed).
pub fn is_open_settings_navigation(url: &str) -> (r: bool)
    ensures
        r == occurs_in(url@, OPEN_SETTINGS_ROUTE@),
{
    contains_text(url, OPEN_SETTINGS_ROUTE)
}

/// What a tray menu entry does.
#[derive(PartialEq, Eq, Debug, Clone, Copy)]
pub enum TrayAction {
    /// Quit the application.
    Quit,
    /// Show and focus the Telegram window.
    ShowMain,
    /// Show the settings window.
    OpenSettings,
    /// Nothing.
    Ignore,
}

/// The ids of the tray menu entries.
pub const QUIT_MENU_ID: &'static str = "quit";

pub const SHOW_MENU_ID: &'static str = "show";

pub const SETTINGS_MENU_ID: &'static str = "settings_menu";

/// The action of the tray menu entry `id`.
pub open spec fn tray_action_of(id: Seq<char>) -> TrayAction {
    if id == QUIT_MENU_ID@ {
        TrayAction::Quit
    } else if id == SHOW_MENU_ID@ {
        TrayAction::ShowMain
    } else if id == SETTINGS_MENU_ID@ {
        TrayAction::OpenSettings
    } else {
        TrayAction::Ignore
    }
}

/// The action of the tray menu entry `id`.
pub fn tray_menu_action(id: &str) -> (r: TrayAction)
    ensures
        r == tray_action_of(id@),
{
    if str_equals(id, QUIT_MENU_ID) {
        TrayAction::Quit
    } else if str_equals(id, SHOW_MENU_ID) {
        TrayAction::ShowMain
    } else if str_equals(id, SETTINGS_MENU_ID) {
        TrayAction::OpenSettings
    } else {
        TrayAction::Ignore
    }
}

/// The wait before the first injection, while Telegram Web K builds its page.
pub const INITIAL_INJECTION_DELAY_MS: u64 = 400;

/// The wait between two injections.
pub const INJECTION_INTERVAL_MS: u64 = 750;

/// How many times the preferences are injected after start-up.
pub const INJECTION_ATTEMPTS: u32 = 22;

/// The wait before injection number `attempt` (counted from 1) after start-up; none once all
/// attempts are made.
pub open spec fn injection_delay(attempt: u32) -> Option<u64> {
    if attempt == 1 {
        Some(INITIAL_INJECTION_DELAY_MS)
    } else if 2 <= attempt <= INJECTION_ATTEMPTS {
        Some(INJECTION_INTERVAL_MS)
    } else {
        None
    }
}

/// The wait before injection number `attempt` after start-up, or `None` when the schedule is over.
pub fn injection_delay_ms(attempt: u32) -> (r: Option<u64>)
    ensures
        r == injection_delay(attempt),
{
    if attempt == 1 {
        Some(INITIAL_INJECTION_DELAY_MS)
    } else if 2 <= attempt && attempt <= INJECTION_ATTEMPTS {
        Some(INJECTION_INTERVAL_MS)
    } else {
        None
    }
}

/// The total wait before injection number `n` after start-up.
pub open spec fn wait_before(n: nat) -> nat
    decreases n,
{
    if n == 0 {
        0
    } else {
        wait_before((n - 1) as nat) + match injection_delay(n as u32) {
            Some(d) => d as nat,
            None => 0,
        }
    }
}

/// The preferences are injected 22 times: the first time 400 ms after start-up, then every
/// 750 ms, the last time 16150 ms after start-up, and never again.
pub proof fn law_injection_schedule()
    ensures
        wait_before(1) == 400,
        wait_before(INJECTION_ATTEMPTS as nat) == 400 + 21 * 750,
        forall|a: u32| a > INJECTION_ATTEMPTS ==> #[trigger] injection_delay(a) is None,
{
    reveal_with_fuel(wait_before, 23);
}

/// The tray entry `quit` quits, `show` shows the Telegram window, `settings_menu` opens the
/// settings window, and every other entry does nothing.
pub proof fn law_tray_actions(id: Seq<char>)
    ensures
        tray_action_of(id) == TrayAction::Quit <==> id == "quit"@,
        tray_action_of(id) == TrayAction::ShowMain <==> id == "show"@,
        tray_action_of(id) == TrayAction::OpenSettings <==> id == "settings_menu"@,
        tray_action_of(id) == TrayAction::Ignore <==> (id != "quit"@ && id != "show"@ && id
            != "settings_menu"@),
{
    reveal_strlit("quit");
    reveal_strlit("show");
    reveal_strlit("settings_menu");
    assert("quit"@[0] != "show"@[0]);
    assert("quit"@.len() != "settings_menu"@.len());
    assert("show"@.len() != "settings_menu"@.len());
}

} // verus!
