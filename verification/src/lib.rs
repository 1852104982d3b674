//! Editing core of a modal, grapheme-aware text editor: rows of grapheme
//! clusters, a per-row syntax/search highlighting pipeline with cross-row
//! multiline-comment carry, a document of rows, and a modal command layer
//! that interprets keystrokes into buffer mutations and cursor motions.

pub mod command;
pub mod document;
pub mod editor;
pub mod filetype;
pub mod graphemes;
pub mod highlighting;
pub mod key;
pub mod mode;
pub mod org;
pub mod position;
pub mod row;
pub mod search;
pub mod status_message;
pub mod syntax;
pub mod theme;

pub use command::CommandState;
pub use command::Motion;
pub use command::Operator;
pub use command::TextObject;
pub use document::Document;
pub use editor::Editor;
pub use editor::EditorAction;
pub use filetype::FileType;
pub use filetype::HighlightingOptions;
pub use key::Key;
pub use mode::Mode;
pub use org::OrgHighlighter;
pub use position::Position;
pub use row::Row;
pub use search::SearchDirection;
pub use status_message::StatusMessage;
pub use theme::Color;
pub use theme::Size;
pub use theme::Theme;
