# kotauri

The verified core of KoTauri, a desktop shell for Telegram Web K: the preferences and the CSS and
JavaScript injected from them, the download file names, the clipboard bridge scripts and the
shell's decisions (tray menu, navigation filter, injection schedule).

- `src/` — the library, verified with Verus: `settings` (preferences, `update`, `generate_css`,
  `generate_js`, the injection script), `downloads` (file names of downloads and the search for a
  free one), `paths` (file names and folders under Unix or Windows path rules), `clipboard_image`, `ui_chrome`, `web_selectors`, `shell`, `text` (character-level
  helpers: decimal numerals, `u32` parsing, substring search, Unicode classes) and
  `injected_text` (the fixed CSS and JavaScript text).
- `tests/` — tests of the library.
- `app/` — the Tauri application around it: windows, tray, commands, the settings file, the
  Downloads folder and the GTK clipboard.
