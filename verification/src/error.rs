//! What can go wrong when a key expression is built or composed.

use vstd::prelude::*;

verus! {

/// The two ways in which building a key expression fails.
#[derive(Clone, Copy, Debug, PartialEq, Eq, Structural)]
pub enum ErrorKind {
    /// The text is not a key expression in canon form.
    InvalidKeyExpression,
    /// A concatenation would have put two `**` side by side.
    AmbiguousConcatenation,
}

/// A failure to build a key expression.
#[derive(Debug, PartialEq, Eq)]
pub enum KeyExprError {
    /// The text is not a key expression in canon form. The payload is the
    /// grammar's own account of why, meant for people.
    InvalidKeyExpression(String),
    /// The left side of a concatenation ends with `**` and the right side
    /// starts with `**`: glued without a separator the two wildcards would
    /// run into one another.
    AmbiguousConcatenation,
}

impl View for KeyExprError {
    type V = ErrorKind;

    open spec fn view(&self) -> ErrorKind {
        match self {
            KeyExprError::InvalidKeyExpression(_) => ErrorKind::InvalidKeyExpression,
            KeyExprError::AmbiguousConcatenation => ErrorKind::AmbiguousConcatenation,
        }
    }
}

impl Clone for KeyExprError {
    fn clone(&self) -> (r: Self)
        ensures
            r == *self,
    {
        match self {
            KeyExprError::InvalidKeyExpression(reason) => KeyExprError::InvalidKeyExpression(
                reason.clone(),
            ),
            KeyExprError::AmbiguousConcatenation => KeyExprError::AmbiguousConcatenation,
        }
    }
}

impl KeyExprError {
    /// Which of the two failures this is.
    pub fn kind(&self) -> (r: ErrorKind)
        ensures
            r == self@,
    {
        match self {
            KeyExprError::InvalidKeyExpression(_) => ErrorKind::InvalidKeyExpression,
            KeyExprError::AmbiguousConcatenation => ErrorKind::AmbiguousConcatenation,
        }
    }
}

} // verus!
