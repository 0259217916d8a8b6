//! The session-scoped numeric shorthand for a key expression's prefix, and
//! the pair that goes on the wire.

use vstd::prelude::*;

verus! {

/// One connection to a peer, as far as key expressions are concerned: the
/// identifier under which the peer's numeric references were registered.
#[derive(Clone, Copy, Debug, PartialEq, Eq, Structural)]
pub struct Session {
    pub id: u16,
}

/// A peer's numeric reference for a prefix of a key expression.
///
/// The reference belongs to the namespace of one session and means nothing
/// in any other.
#[derive(Clone, Copy, Debug, PartialEq, Eq, Structural)]
pub struct WireAnnotation {
    /// The number the peer knows the prefix by; 0 stands for "none".
    pub expr_id: u64,
    /// How many leading characters of the text the number stands for.
    pub prefix_len: u32,
    /// The session that registered the number.
    pub session_id: u16,
}

/// What is sent in place of a key expression: a numeric scope and the text
/// that the scope does not cover. Scope 0 means that the suffix is the
/// whole key expression.
#[derive(Clone, Copy, Debug, PartialEq, Eq)]
pub struct WireExpr<'a> {
    pub scope: u64,
    pub suffix: &'a str,
}

impl<'a> View for WireExpr<'a> {
    type V = (u64, Seq<char>);

    open spec fn view(&self) -> (u64, Seq<char>) {
        (self.scope, self.suffix@)
    }
}

} // verus!
