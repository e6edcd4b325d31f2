//! A minimal PDF viewer with vim-like key bindings: the key-sequence parser,
//! the page navigation rules, the frame composition and the rendering
//! back ends, each with its contract.
pub mod decimal;
pub mod parser;
pub mod key_laws;
pub mod navigation;
pub mod frame;
pub mod fonts;
pub mod hayro_renderer;
pub mod pdfium_renderer;
pub mod render;
