//! The mathematical view of a key expression, and what each operation of
//! the crate does to it.

use crate::error::ErrorKind;
use crate::grammar::{ends_with_wildcard, is_keyexpr, starts_with_wildcard};
use crate::wire::{Session, WireAnnotation};
use vstd::prelude::*;

verus! {

/// A key expression as a value of mathematics: its text, the annotation it
/// may carry, and whether it owns the text or borrows it.
#[verifier::ext_equal]
pub struct KeyExprModel {
    pub text: Seq<char>,
    pub wire: Option<WireAnnotation>,
    pub owned: bool,
}

/// `left/right`.
pub open spec fn joined(left: Seq<char>, right: Seq<char>) -> Seq<char> {
    left + seq!['/'] + right
}

/// Whether gluing `right` to `left` would put two `**` side by side: the
/// left text ends with `**` and the right text starts with `**`.
pub open spec fn ambiguous(left: Seq<char>, right: Seq<char>) -> bool {
    ends_with_wildcard(left) && starts_with_wildcard(right)
}

impl KeyExprModel {
    /// An annotation never covers more than the text holds.
    pub open spec fn wf(self) -> bool {
        self.wire matches Some(w) ==> w.prefix_len <= self.text.len()
    }

    /// Whether the text is a key expression in canon form.
    pub open spec fn is_canon(self) -> bool {
        is_keyexpr(self.text)
    }

    /// The key expression over `text` without an annotation.
    pub open spec fn plain(text: Seq<char>, owned: bool) -> Self {
        KeyExprModel { text, wire: None, owned }
    }

    /// `plain`, for the texts that the grammar accepts.
    pub open spec fn parse(text: Seq<char>, owned: bool) -> Result<Self, ErrorKind> {
        Self::plain(text, owned).confirm()
    }

    /// The same key expression if its text is in canon form.
    pub open spec fn confirm(self) -> Result<Self, ErrorKind> {
        if self.is_canon() {
            Ok(self)
        } else {
            Err(ErrorKind::InvalidKeyExpression)
        }
    }

    /// The same text and annotation, borrowed.
    pub open spec fn borrowing_clone(self) -> Self {
        KeyExprModel { owned: false, ..self }
    }

    /// The same text and annotation, owned.
    pub open spec fn into_owned(self) -> Self {
        KeyExprModel { owned: true, ..self }
    }

    /// The same text under `wire`, where `wire` fits the text.
    pub open spec fn with_wire(self, wire: WireAnnotation) -> Option<Self> {
        if wire.prefix_len <= self.text.len() {
            Some(KeyExprModel { wire: Some(wire), ..self })
        } else {
            None
        }
    }

    /// An owned key expression over `text` that keeps the annotation.
    pub open spec fn extended(self, text: Seq<char>) -> Self {
        KeyExprModel { text, wire: self.wire, owned: true }
    }

    /// `self/s`, whatever the grammar makes of it.
    pub open spec fn join_unchecked(self, s: Seq<char>) -> Self {
        self.extended(joined(self.text, s))
    }

    /// `self` directly followed by `s`, whatever the grammar makes of it.
    pub open spec fn concat_unchecked(self, s: Seq<char>) -> Self {
        self.extended(self.text + s)
    }

    /// `self/s` if that is a key expression.
    pub open spec fn join(self, s: Seq<char>) -> Result<Self, ErrorKind> {
        self.join_unchecked(s).confirm()
    }

    /// `self` directly followed by `s`, unless `**` would meet `**` at the
    /// seam or the glued text is no key expression.
    pub open spec fn concat(self, s: Seq<char>) -> Result<Self, ErrorKind> {
        if ambiguous(self.text, s) {
            Err(ErrorKind::AmbiguousConcatenation)
        } else {
            self.concat_unchecked(s).confirm()
        }
    }

    /// Whether the annotation can stand for the prefix towards `session`.
    pub open spec fn is_optimized(self, session: Session) -> bool {
        self.wire matches Some(w) && w.expr_id != 0 && w.session_id == session.id
    }

    /// The pair of scope and suffix that is sent to `session`.
    pub open spec fn to_wire(self, session: Session) -> (u64, Seq<char>) {
        match self.wire {
            Some(w) if w.session_id == session.id => (
                w.expr_id,
                self.text.skip(w.prefix_len as int),
            ),
            _ => (0, self.text),
        }
    }

    /// Equality of key expressions: that of their texts.
    pub open spec fn same_key(self, other: Self) -> bool {
        self.text == other.text
    }
}

} // verus!
