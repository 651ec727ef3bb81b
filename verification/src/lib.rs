pub mod laws;
pub mod layout;
pub mod nesting;
pub mod printed;
pub mod rustlight_ast;
pub mod rustlight_print;
pub mod text;
