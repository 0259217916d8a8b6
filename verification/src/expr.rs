//! The key expression itself.

use crate::error::{ErrorKind, KeyExprError};
use crate::grammar::{
    boxed_copy, ends_with_wild, hash_text, into_boxed, same_text, skip_chars, starts_with_wild,
    validate,
};
use crate::model::KeyExprModel;
use crate::wire::{Session, WireAnnotation, WireExpr};
use vstd::prelude::*;
use vstd::std_specs::cmp::PartialEqSpecImpl;
use vstd::std_specs::convert::{FromSpecImpl, TryFromSpecImpl};
use vstd::string::{StrSliceExecFns, StringExecFns};

verus! {

/// The four shapes of a key expression: the text borrowed or owned, with or
/// without an annotation. The annotation lies flat in the variant, so that a
/// key expression takes four words.
#[derive(Debug)]
#[allow(inconsistent_fields)]
pub(crate) enum KeyExprInner<'a> {
    Borrowed(&'a str),
    BorrowedWire { key_expr: &'a str, expr_id: u64, prefix_len: u32, session_id: u16 },
    Owned(Box<str>),
    Wire { key_expr: Box<str>, expr_id: u64, prefix_len: u32, session_id: u16 },
}

/// A key expression that borrows or owns its text and may carry a peer's
/// numeric reference for a prefix of it.
///
/// Neither ownership nor the annotation shows in the text, in equality or
/// in the hash.
#[derive(Debug)]
pub struct KeyExpr<'a>(pub(crate) KeyExprInner<'a>);

impl<'a> View for KeyExpr<'a> {
    type V = KeyExprModel;

    closed spec fn view(&self) -> KeyExprModel {
        match self.0 {
            KeyExprInner::Borrowed(key_expr) => KeyExprModel {
                text: key_expr@,
                wire: None,
                owned: false,
            },
            KeyExprInner::BorrowedWire { key_expr, expr_id, prefix_len, session_id } => KeyExprModel {
                text: key_expr@,
                wire: Some(WireAnnotation { expr_id, prefix_len, session_id }),
                owned: false,
            },
            KeyExprInner::Owned(key_expr) => KeyExprModel {
                text: key_expr@,
                wire: None,
                owned: true,
            },
            KeyExprInner::Wire { key_expr, expr_id, prefix_len, session_id } => KeyExprModel {
                text: key_expr@,
                wire: Some(WireAnnotation { expr_id, prefix_len, session_id }),
                owned: true,
            },
        }
    }
}

/// The view of what a fallible operation returned.
pub open spec fn outcome(r: Result<KeyExpr<'_>, KeyExprError>) -> Result<KeyExprModel, ErrorKind> {
    match r {
        Ok(k) => Ok(k@),
        Err(e) => Err(e@),
    }
}

impl KeyExpr<'static> {
    /// An owned key expression over `s`, without asking the grammar.
    ///
    /// The caller answers for `s` being a key expression in canon form. A
    /// network drops the messages addressed with one that is not; nothing
    /// fails here.
    pub fn from_string_unchecked(s: String) -> (r: Self)
        ensures
            r@ == KeyExprModel::plain(s@, true),
    {
        KeyExpr(KeyExprInner::Owned(into_boxed(s)))
    }

    /// An owned key expression over `s`, without asking the grammar.
    ///
    /// The caller answers for `s` being a key expression in canon form. A
    /// network drops the messages addressed with one that is not; nothing
    /// fails here.
    pub fn from_boxed_string_unchecked(s: Box<str>) -> (r: Self)
        ensures
            r@ == KeyExprModel::plain(s@, true),
    {
        KeyExpr(KeyExprInner::Owned(s))
    }
}

impl<'a> KeyExpr<'a> {
    /// What holds of every key expression there is: its annotation, if it
    /// has one, covers no more than the text holds.
    #[verifier::type_invariant]
    pub open spec fn well_formed(self) -> bool {
        self@.wf()
    }

    /// A key expression that borrows `s`, without asking the grammar.
    ///
    /// The caller answers for `s` being a key expression in canon form. A
    /// network drops the messages addressed with one that is not; nothing
    /// fails here.
    pub fn from_str_uncheckend(s: &'a str) -> (r: Self)
        ensures
            r@ == KeyExprModel::plain(s@, false),
    {
        KeyExpr(KeyExprInner::Borrowed(s))
    }

    /// The text, which is the same whatever the shape.
    pub fn as_keyexpr(&self) -> (r: &str)
        ensures
            r@ == self@.text,
    {
        std::ops::Deref::deref(self)
    }

    /// The annotation, if there is one.
    pub fn wire(&self) -> (r: Option<WireAnnotation>)
        ensures
            r == self@.wire,
    {
        match &self.0 {
            KeyExprInner::Wire { expr_id, prefix_len, session_id, .. }
            | KeyExprInner::BorrowedWire { expr_id, prefix_len, session_id, .. } => Some(
                WireAnnotation {
                    expr_id: *expr_id,
                    prefix_len: *prefix_len,
                    session_id: *session_id,
                },
            ),
            KeyExprInner::Owned(_) | KeyExprInner::Borrowed(_) => None,
        }
    }

    /// Whether this key expression owns its text.
    pub fn is_owned(&self) -> (r: bool)
        ensures
            r == self@.owned,
    {
        match &self.0 {
            KeyExprInner::Owned(_) | KeyExprInner::Wire { .. } => true,
            KeyExprInner::Borrowed(_) | KeyExprInner::BorrowedWire { .. } => false,
        }
    }

    /// The text as a `String` of its own.
    pub fn to_string(&self) -> (r: String)
        ensures
            r@ == self@.text,
    {
        String::from_str(self.as_keyexpr())
    }

    /// This key expression under `wire`, which replaces the annotation it
    /// had, or `None` where `wire` claims a longer prefix than the text has
    /// characters.
    ///
    /// The number in `wire` is taken on trust: registering it with the peer
    /// is the session's business.
    pub fn with_wire(self, wire: WireAnnotation) -> (r: Option<KeyExpr<'a>>)
        ensures
            (match r {
                Some(k) => Some(k@),
                None => None,
            }) == self@.with_wire(wire),
    {
        let len = self.as_keyexpr().unicode_len();
        if wire.prefix_len as usize <= len {
            let WireAnnotation { expr_id, prefix_len, session_id } = wire;
            Some(
                match self.0 {
                    KeyExprInner::Borrowed(key_expr)
                    | KeyExprInner::BorrowedWire { key_expr, .. } => KeyExpr(
                        KeyExprInner::BorrowedWire { key_expr, expr_id, prefix_len, session_id },
                    ),
                    KeyExprInner::Owned(key_expr) | KeyExprInner::Wire { key_expr, .. } => KeyExpr(
                        KeyExprInner::Wire { key_expr, expr_id, prefix_len, session_id },
                    ),
                },
            )
        } else {
            None
        }
    }

    /// A key expression that borrows the text of `self` and carries the
    /// same annotation, for where one has to be passed by value.
    pub fn borrowing_clone<'b>(&'b self) -> (r: KeyExpr<'b>)
        ensures
            r@ == self@.borrowing_clone(),
    {
        proof {
            use_type_invariant(self);
        }
        KeyExpr(
            match &self.0 {
                KeyExprInner::Borrowed(key_expr) => KeyExprInner::Borrowed(key_expr),
                KeyExprInner::BorrowedWire { key_expr, expr_id, prefix_len, session_id } => {
                    KeyExprInner::BorrowedWire {
                        key_expr,
                        expr_id: *expr_id,
                        prefix_len: *prefix_len,
                        session_id: *session_id,
                    }
                },
                KeyExprInner::Owned(key_expr) => KeyExprInner::Borrowed(&**key_expr),
                KeyExprInner::Wire { key_expr, expr_id, prefix_len, session_id } => {
                    KeyExprInner::BorrowedWire {
                        key_expr: &**key_expr,
                        expr_id: *expr_id,
                        prefix_len: *prefix_len,
                        session_id: *session_id,
                    }
                },
            },
        )
    }

    /// The same key expression with a text of its own, free of any borrow.
    pub fn into_owned(self) -> (r: KeyExpr<'static>)
        ensures
            r@ == self@.into_owned(),
    {
        proof {
            use_type_invariant(&self);
        }
        match self.0 {
            KeyExprInner::Borrowed(s) => KeyExpr(KeyExprInner::Owned(boxed_copy(s))),
            KeyExprInner::Owned(s) => KeyExpr(KeyExprInner::Owned(s)),
            KeyExprInner::BorrowedWire { key_expr, expr_id, prefix_len, session_id } => KeyExpr(
                KeyExprInner::Wire {
                    key_expr: boxed_copy(key_expr),
                    expr_id,
                    prefix_len,
                    session_id,
                },
            ),
            KeyExprInner::Wire { key_expr, expr_id, prefix_len, session_id } => KeyExpr(
                KeyExprInner::Wire { key_expr, expr_id, prefix_len, session_id },
            ),
        }
    }

    /// An owned key expression over `text` with the annotation of `self`.
    fn extended(&self, text: String) -> (r: KeyExpr<'static>)
        requires
            self@.text.len() <= text@.len(),
        ensures
            r@ == self@.extended(text@),
    {
        proof {
            use_type_invariant(self);
        }
        let key_expr = into_boxed(text);
        match self.wire() {
            Some(w) => KeyExpr(
                KeyExprInner::Wire {
                    key_expr,
                    expr_id: w.expr_id,
                    prefix_len: w.prefix_len,
                    session_id: w.session_id,
                },
            ),
            None => KeyExpr(KeyExprInner::Owned(key_expr)),
        }
    }

    /// Keeps this key expression where `judgement`, the grammar's word on
    /// its text, is favourable, and otherwise reports the reason that came
    /// with it.
    ///
    /// This is the second half of every validating operation: the first
    /// half builds the value and asks the grammar.
    pub fn confirm(self, judgement: Result<(), String>) -> (r: Result<KeyExpr<'a>, KeyExprError>)
        ensures
            r == (match judgement {
                Ok(_) => Ok(self),
                Err(reason) => Err(KeyExprError::InvalidKeyExpression(reason)),
            }),
    {
        match judgement {
            Ok(_) => Ok(self),
            Err(reason) => Err(KeyExprError::InvalidKeyExpression(reason)),
        }
    }

    /// Joins both sides with a `/` in between, without asking the grammar.
    ///
    /// The result owns its text and carries the annotation of `self`: the
    /// prefix that the peer knows is still the beginning of the text.
    pub fn join_unchecked(&self, s: &str) -> (r: KeyExpr<'static>)
        ensures
            r@ == self@.join_unchecked(s@),
    {
        let mut text = String::from_str(self.as_keyexpr());
        text.append("/");
        text.append(s);
        proof {
            reveal_strlit("/");
        }
        self.extended(text)
    }

    /// Glues `s` to the end of the text, without a separator and without
    /// asking the grammar or looking for wildcards that meet.
    ///
    /// The result owns its text and carries the annotation of `self`.
    pub fn concat_unchecked(&self, s: &str) -> (r: KeyExpr<'static>)
        ensures
            r@ == self@.concat_unchecked(s@),
    {
        let mut text = String::from_str(self.as_keyexpr());
        text.append(s);
        self.extended(text)
    }

    /// Joins both sides, inserting a `/` in between them.
    ///
    /// Prefer this to [`KeyExpr::concat`] for path segments. Fails with
    /// `InvalidKeyExpression` exactly when the joined text is no key
    /// expression; otherwise the result owns the joined text and carries the
    /// annotation of `self` unchanged.
    pub fn join(&self, s: &str) -> (r: Result<KeyExpr<'static>, KeyExprError>)
        ensures
            outcome(r) == self@.join(s@),
    {
        let joined = self.join_unchecked(s);
        let judgement = validate(joined.as_keyexpr());
        joined.confirm(judgement)
    }

    /// Glues `s` to the end of the text without a separator.
    ///
    /// Fails with `AmbiguousConcatenation` exactly when the text ends with
    /// `**` and `s` starts with `**`; otherwise with `InvalidKeyExpression`
    /// exactly when the glued text is no key expression. On success the
    /// result owns the glued text and carries the annotation of `self`
    /// unchanged.
    pub fn concat(&self, s: &str) -> (r: Result<KeyExpr<'static>, KeyExprError>)
        ensures
            outcome(r) == self@.concat(s@),
    {
        if ends_with_wild(self.as_keyexpr()) && starts_with_wild(s) {
            return Err(KeyExprError::AmbiguousConcatenation);
        }
        let glued = self.concat_unchecked(s);
        let judgement = validate(glued.as_keyexpr());
        glued.confirm(judgement)
    }

    /// Whether the peer of `session` can be sent the annotation's number in
    /// place of the prefix: there is an annotation, its number is not 0, and
    /// `session` is the one that registered it.
    pub fn is_optimized(&self, session: &Session) -> (r: bool)
        ensures
            r == self@.is_optimized(*session),
    {
        match self.wire() {
            Some(w) => w.expr_id != 0 && session.id == w.session_id,
            None => false,
        }
    }

    /// The same question as [`KeyExpr::is_optimized`], with the same answer:
    /// a key expression is optimized fully or not at all.
    pub fn is_fully_optimized(&self, session: &Session) -> (r: bool)
        ensures
            r == self@.is_optimized(*session),
    {
        self.is_optimized(session)
    }

    /// What is sent to `session` in place of this key expression.
    ///
    /// The annotation is used if and only if it was registered with
    /// `session`: then the scope is its number and the suffix is the text
    /// after the first `prefix_len` characters, the prefix that the number
    /// stands for. In every other case the scope is 0 and the suffix is the
    /// whole text, which any peer can read.
    pub fn to_wire<'b>(&'b self, session: &Session) -> (r: WireExpr<'b>)
        ensures
            r@ == self@.to_wire(*session),
    {
        proof {
            use_type_invariant(self);
        }
        match &self.0 {
            KeyExprInner::Wire { key_expr, expr_id, prefix_len, session_id } if session.id
                == *session_id => WireExpr {
                scope: *expr_id,
                suffix: skip_chars(&**key_expr, *prefix_len),
            },
            KeyExprInner::BorrowedWire { key_expr, expr_id, prefix_len, session_id } if session.id
                == *session_id => WireExpr {
                scope: *expr_id,
                suffix: skip_chars(key_expr, *prefix_len),
            },
            KeyExprInner::Owned(key_expr) | KeyExprInner::Wire { key_expr, .. } => WireExpr {
                scope: 0,
                suffix: &**key_expr,
            },
            KeyExprInner::Borrowed(key_expr) | KeyExprInner::BorrowedWire { key_expr, .. } => {
                WireExpr { scope: 0, suffix: key_expr }
            },
        }
    }
}

impl<'a> std::ops::Deref for KeyExpr<'a> {
    type Target = str;

    /// The text, which is the same whatever the shape.
    fn deref(&self) -> (r: &str)
        ensures
            r@ == self@.text,
    {
        match &self.0 {
            KeyExprInner::Borrowed(s) => s,
            KeyExprInner::Owned(s) => &**s,
            KeyExprInner::Wire { key_expr, .. } => &**key_expr,
            KeyExprInner::BorrowedWire { key_expr, .. } => key_expr,
        }
    }
}

impl<'a> AsRef<str> for KeyExpr<'a> {
    fn as_ref(&self) -> (r: &str)
        ensures
            r@ == self@.text,
    {
        self.as_keyexpr()
    }
}

impl<'a> Clone for KeyExpr<'a> {
    /// A copy of the same shape: a borrowed one shares the text, an owned
    /// one gets a text of its own.
    fn clone(&self) -> (r: Self)
        ensures
            r@ == self@,
    {
        proof {
            use_type_invariant(self);
        }
        KeyExpr(
            match &self.0 {
                KeyExprInner::Borrowed(key_expr) => KeyExprInner::Borrowed(key_expr),
                KeyExprInner::BorrowedWire { key_expr, expr_id, prefix_len, session_id } => {
                    KeyExprInner::BorrowedWire {
                        key_expr,
                        expr_id: *expr_id,
                        prefix_len: *prefix_len,
                        session_id: *session_id,
                    }
                },
                KeyExprInner::Owned(key_expr) => KeyExprInner::Owned(boxed_copy(&**key_expr)),
                KeyExprInner::Wire { key_expr, expr_id, prefix_len, session_id } => {
                    KeyExprInner::Wire {
                        key_expr: boxed_copy(&**key_expr),
                        expr_id: *expr_id,
                        prefix_len: *prefix_len,
                        session_id: *session_id,
                    }
                },
            },
        )
    }
}

impl<'a> PartialEq for KeyExpr<'a> {
    /// Whether both hold the same text; what `==` means in contracts is
    /// `eq_spec` below.
    fn eq(&self, other: &Self) -> (r: bool) {
        same_text(self.as_keyexpr(), other.as_keyexpr())
    }
}

impl<'a> PartialEqSpecImpl for KeyExpr<'a> {
    open spec fn obeys_eq_spec() -> bool {
        true
    }

    open spec fn eq_spec(&self, other: &Self) -> bool {
        self@.same_key(other@)
    }
}

impl<'a> Eq for KeyExpr<'a> {}

impl<'a> std::hash::Hash for KeyExpr<'a> {
    /// Hashes the text as `str` does, and nothing else.
    fn hash<H: std::hash::Hasher>(&self, state: &mut H) {
        hash_text(self.as_keyexpr(), state)
    }
}

impl std::str::FromStr for KeyExpr<'static> {
    type Err = KeyExprError;

    /// An owned key expression over a copy of `s`, if `s` is one.
    fn from_str(s: &str) -> (r: Result<Self, KeyExprError>)
        ensures
            outcome(r) == KeyExprModel::parse(s@, true),
    {
        let judgement = validate(s);
        KeyExpr(KeyExprInner::Owned(boxed_copy(s))).confirm(judgement)
    }
}

impl TryFrom<String> for KeyExpr<'static> {
    type Error = KeyExprError;

    /// An owned key expression over `value`, if `value` is one.
    fn try_from(value: String) -> (r: Result<Self, KeyExprError>)
        ensures
            outcome(r) == KeyExprModel::parse(value@, true),
    {
        let judgement = validate(value.as_str());
        KeyExpr::from_string_unchecked(value).confirm(judgement)
    }
}

/// The conversions from text are described by the `ensures` of each
/// `try_from`. None of them obeys a `try_from_spec`: the reason that comes
/// with a refusal is the grammar's own and no function of the text.
impl TryFromSpecImpl<String> for KeyExpr<'static> {
    open spec fn obeys_try_from_spec() -> bool {
        false
    }

    open spec fn try_from_spec(value: String) -> Result<Self, KeyExprError> {
        arbitrary()
    }
}

impl<'a> TryFrom<&'a str> for KeyExpr<'a> {
    type Error = KeyExprError;

    /// A key expression that borrows `value`, if `value` is one.
    fn try_from(value: &'a str) -> (r: Result<Self, KeyExprError>)
        ensures
            outcome(r) == KeyExprModel::parse(value@, false),
    {
        let judgement = validate(value);
        KeyExpr::from_str_uncheckend(value).confirm(judgement)
    }
}

impl<'a> TryFromSpecImpl<&'a str> for KeyExpr<'a> {
    open spec fn obeys_try_from_spec() -> bool {
        false
    }

    open spec fn try_from_spec(value: &'a str) -> Result<Self, KeyExprError> {
        arbitrary()
    }
}

impl<'a> TryFrom<&'a String> for KeyExpr<'a> {
    type Error = KeyExprError;

    /// A key expression that borrows `value`, if `value` is one.
    fn try_from(value: &'a String) -> (r: Result<Self, KeyExprError>)
        ensures
            outcome(r) == KeyExprModel::parse(value@, false),
    {
        Self::try_from(value.as_str())
    }
}

impl<'a> TryFromSpecImpl<&'a String> for KeyExpr<'a> {
    open spec fn obeys_try_from_spec() -> bool {
        false
    }

    open spec fn try_from_spec(value: &'a String) -> Result<Self, KeyExprError> {
        arbitrary()
    }
}

impl<'a> TryFrom<&'a mut String> for KeyExpr<'a> {
    type Error = KeyExprError;

    /// A key expression that borrows `value`, which it leaves as it is, if
    /// `value` is one.
    fn try_from(value: &'a mut String) -> (r: Result<Self, KeyExprError>)
        ensures
            outcome(r) == KeyExprModel::parse(old(value)@, false),
            final(value)@ == old(value)@,
    {
        let shared: &'a String = value;
        Self::try_from(shared.as_str())
    }
}

impl<'a> TryFromSpecImpl<&'a mut String> for KeyExpr<'a> {
    open spec fn obeys_try_from_spec() -> bool {
        false
    }

    open spec fn try_from_spec(value: &'a mut String) -> Result<Self, KeyExprError> {
        arbitrary()
    }
}

impl<'a> TryFrom<&'a mut str> for KeyExpr<'a> {
    type Error = KeyExprError;

    /// A key expression that borrows `value`, which it leaves as it is, if
    /// `value` is one.
    fn try_from(value: &'a mut str) -> (r: Result<Self, KeyExprError>)
        ensures
            outcome(r) == KeyExprModel::parse(old(value)@, false),
            final(value)@ == old(value)@,
    {
        let shared: &'a str = value;
        Self::try_from(shared)
    }
}

impl<'a> TryFromSpecImpl<&'a mut str> for KeyExpr<'a> {
    open spec fn obeys_try_from_spec() -> bool {
        false
    }

    open spec fn try_from_spec(value: &'a mut str) -> Result<Self, KeyExprError> {
        arbitrary()
    }
}

impl<'a> From<&'a KeyExpr<'a>> for KeyExpr<'a> {
    /// A key expression that borrows the text of `val` and carries no
    /// annotation.
    fn from(val: &'a KeyExpr<'a>) -> (r: Self)
        ensures
            r@ == KeyExprModel::plain(val@.text, false),
    {
        KeyExpr::from_str_uncheckend(val.as_keyexpr())
    }
}

/// Described by the `ensures` of `from`, over the view: a borrow has no
/// value of its own in a specification.
impl<'a> FromSpecImpl<&'a KeyExpr<'a>> for KeyExpr<'a> {
    open spec fn obeys_from_spec() -> bool {
        false
    }

    open spec fn from_spec(val: &'a KeyExpr<'a>) -> Self {
        arbitrary()
    }
}

impl<'a> From<KeyExpr<'a>> for Box<str> {
    /// The text alone, on the heap: moved out of an owned key expression,
    /// copied out of a borrowed one.
    fn from(val: KeyExpr<'a>) -> (r: Self)
        ensures
            r@ == val@.text,
    {
        match val.0 {
            KeyExprInner::Borrowed(key_expr) | KeyExprInner::BorrowedWire { key_expr, .. } => {
                boxed_copy(key_expr)
            },
            KeyExprInner::Owned(key_expr) | KeyExprInner::Wire { key_expr, .. } => key_expr,
        }
    }
}

/// Described by the `ensures` of `from`, over the view.
impl<'a> FromSpecImpl<KeyExpr<'a>> for Box<str> {
    open spec fn obeys_from_spec() -> bool {
        false
    }

    open spec fn from_spec(val: KeyExpr<'a>) -> Self {
        arbitrary()
    }
}

} // verus!
