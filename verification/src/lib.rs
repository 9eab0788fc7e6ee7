//! Verified presentation-layer logic of the gashuu manga / comic viewer:
//! screen navigation, key mapping, page-counter and page-jump text, the viewer's
//! page-decode dispatch bookkeeping, the library search / selection projection,
//! the carousel cover bookkeeping and its byte-budgeted cover cache, the
//! bulk-add, single-open and drag-and-drop controllers, the bulk-remove
//! confirmation, the settings-dialog session, the status-line texts, and the
//! update-check and self-update plumbing.
#![allow(unused_imports)]

pub mod text;
pub mod view_modes;
pub mod navigation;
pub mod enum_adapters;
pub mod keymap;
pub mod page_counter;
pub mod page_jump;
pub mod page_loader;
pub mod thumbnail_strip;
pub mod library_model;
pub mod selection_projection;
pub mod carousel;
pub mod carousel_refresh;
pub mod cover_loader;
pub mod page_count_prefetch;
pub mod add_loader;
pub mod add_books;
pub mod drag_drop;
pub mod open_controller;
pub mod open_book;
pub mod remove_books;
pub mod dialog_session;
pub mod messages;
pub mod status_text;
pub mod size_text;
pub mod update;
pub mod install;
