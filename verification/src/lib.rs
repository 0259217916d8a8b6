//! Key expressions: the slash-separated, wildcard-capable addresses of a
//! publish/subscribe network, together with the per-session numeric
//! shorthand that lets a prefix known to the peer travel as a small integer.
//!
//! [`KeyExpr`] is the value type. It borrows or owns its text and may carry
//! a [`WireAnnotation`]. Every contract is stated over [`KeyExprModel`],
//! the mathematical view of a key expression; the module `laws` proves what
//! holds across operations.

pub mod error;
pub mod expr;
pub mod grammar;
pub mod laws;
pub mod model;
pub mod wire;

pub use error::{ErrorKind, KeyExprError};
pub use expr::KeyExpr;
pub use model::KeyExprModel;
pub use wire::{Session, WireAnnotation, WireExpr};
