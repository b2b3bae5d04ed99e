//! The core of a small terminal text editor: rows of grapheme clusters, the
//! document built from them, floating tooltips, the editor's decisions, and
//! the session layer that talks to a language server over length-framed
//! JSON messages.

pub mod color;
pub mod document;
pub mod editor;
pub mod filetype;
pub mod floating_item;
pub mod grapheme;
pub mod highlighting;
pub mod json;
pub mod lsp;
pub mod protocol;
pub mod row;
pub mod text;
pub mod wire;

pub use document::Document;
pub use editor::Editor;
pub use editor::Position;
pub use editor::SearchDirection;
pub use filetype::FileType;
pub use filetype::HighlightingOptions;
pub use floating_item::FloatingItem;
pub use highlighting::Highlight;
pub use highlighting::Type;
pub use lsp::LspConnector;
pub use protocol::Request;
pub use protocol::Response;
pub use row::Row;
