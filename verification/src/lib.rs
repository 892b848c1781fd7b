//! A canonical, serializable abstract syntax tree for shell commands.
//!
//! The crate models the command trees emitted by an external shell grammar
//! engine, normalizes those foreign trees into a canonical [`ast::Command`]
//! value, and regenerates semantically equivalent source text from the
//! canonical tree.

pub mod args;
pub mod ast;
pub mod foreign;
pub mod model;
pub mod normalize;
pub mod server;
mod text;

pub mod unparse;

pub use args::parse_args;
pub use args::Config;
pub use ast::CaseClause;
pub use ast::CaseClauseFlags;
pub use ast::Command;
pub use ast::ConditionalExpr;
pub use ast::ListOp;
pub use ast::Redirect;
pub use ast::RedirectTarget;
pub use ast::RedirectType;
pub use ast::Word;
pub use normalize::convert_command;
pub use unparse::to_bash;
