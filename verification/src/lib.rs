//! Verified core of a tree-structured markdown navigator: text filtering,
//! layout arithmetic, interactive-element indexing and outline state.

pub mod text;
pub mod blocks;
pub mod interactive;
pub mod width;
pub mod util;
pub mod kitty;
pub mod image_cache;
pub mod table;
pub mod palette;
pub mod help;
pub mod terminal;
pub mod app;
pub mod outline;
pub mod folding;
pub mod view;
pub mod edits;
pub mod history;
pub mod search;
pub mod pickers;
pub mod commands;
pub mod modes;
pub mod dispatch;
pub mod laws;
pub mod watch;
pub mod links;
pub mod status;
pub mod content;
pub mod checkbox;
pub mod activate;
pub mod files;
pub mod tables;
pub mod todos;
pub mod listing;
pub mod headings;
pub mod modal;
pub mod matchlinks;
pub mod highlight;
pub mod behaviour;
