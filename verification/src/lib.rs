//! MarkHola: the verified core of a local Markdown reader and editor.
pub mod text;
pub mod paths;
pub mod file_io;
pub mod document;
pub mod workspace;
pub mod actions;
pub mod theme;
pub mod events;
pub mod assets;
pub mod render_assets;
pub mod html_export;
pub mod pdf_export;
pub mod platform;
pub mod logging;
pub mod shell;
pub mod printing;
pub mod resources;
pub mod navigation;
pub mod footer;
