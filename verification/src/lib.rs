use vstd::prelude::*;

pub mod clipboard_image;
pub mod downloads;
pub mod injected_text;
pub mod paths;
pub mod settings;
pub mod shell;
pub mod text;
pub mod ui_chrome;
pub mod web_selectors;

verus! {

} // verus!
