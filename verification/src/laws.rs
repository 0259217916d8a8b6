//! What holds across the operations on key expressions, proved over
//! [`KeyExprModel`], the view in which every contract of the crate is
//! stated.

use crate::error::ErrorKind;
use crate::grammar::{ends_with_wildcard, is_keyexpr, starts_with_wildcard};
use crate::model::KeyExprModel;
use crate::wire::{Session, WireAnnotation};
use vstd::prelude::*;

verus! {

/// A text that the grammar accepts makes a key expression, borrowed or
/// owned, and the text read back from it is that very text.
pub proof fn accepted_text_round_trips(text: Seq<char>, owned: bool)
    requires
        is_keyexpr(text),
    ensures
        KeyExprModel::parse(text, owned) matches Ok(k) && k.text == text && k.wire is None
            && k.owned == owned,
{
}

/// A text that the grammar rejects makes no key expression.
pub proof fn rejected_text_is_refused(text: Seq<char>, owned: bool)
    requires
        !is_keyexpr(text),
    ensures
        KeyExprModel::parse(text, owned) == Err::<KeyExprModel, ErrorKind>(
            ErrorKind::InvalidKeyExpression,
        ),
{
}

/// Every key expression that a validating operation returns is in canon
/// form.
pub proof fn confirmed_is_canon(k: KeyExprModel)
    ensures
        k.confirm() matches Ok(c) ==> c == k && c.is_canon(),
        k.confirm() is Ok <==> k.is_canon(),
{
}

/// Where `join` succeeds, the text is the left text, a `/`, and the right
/// text; it succeeds exactly when that is a key expression, and fails in no
/// other way than `InvalidKeyExpression`.
pub proof fn join_puts_a_slash_between(a: KeyExprModel, b: Seq<char>)
    ensures
        a.join_unchecked(b).text == a.text + seq!['/'] + b,
        a.join(b) matches Ok(k) ==> k.text == a.text + seq!['/'] + b,
        a.join(b) is Ok <==> is_keyexpr(a.text + seq!['/'] + b),
        a.join(b) matches Err(e) ==> e == ErrorKind::InvalidKeyExpression,
{
}

/// Where `concat` succeeds, the text is the left text directly followed by
/// the right text.
pub proof fn concat_puts_nothing_between(a: KeyExprModel, b: Seq<char>)
    ensures
        a.concat_unchecked(b).text == a.text + b,
        a.concat(b) matches Ok(k) ==> k.text == a.text + b,
        a.concat(b) is Ok <==> !(ends_with_wildcard(a.text) && starts_with_wildcard(b))
            && is_keyexpr(a.text + b),
{
}

/// `concat` fails with `AmbiguousConcatenation` if and only if the left
/// text ends with `**` and the right text starts with `**`.
pub proof fn concat_is_ambiguous_iff_wildcards_meet(a: KeyExprModel, b: Seq<char>)
    ensures
        a.concat(b) == Err::<KeyExprModel, ErrorKind>(ErrorKind::AmbiguousConcatenation) <==> (
        ends_with_wildcard(a.text) && starts_with_wildcard(b)),
        ends_with_wildcard(a.text) <==> a.text.len() >= 2 && a.text.skip(a.text.len() - 2)
            == seq!['*', '*'],
        starts_with_wildcard(b) <==> b.len() >= 2 && b.take(2) == seq!['*', '*'],
{
    let stars = seq!['*', '*'];
    assert(stars.len() == 2 && stars[0] == '*' && stars[1] == '*');
    if a.text.len() >= 2 {
        let tail = a.text.skip(a.text.len() - 2);
        assert(tail.len() == 2 && tail[0] == a.text[a.text.len() - 2] && tail[1]
            == a.text[a.text.len() - 1]);
        if ends_with_wildcard(a.text) {
            assert(tail =~= stars);
        }
    }
    if b.len() >= 2 {
        let head = b.take(2);
        assert(head.len() == 2 && head[0] == b[0] && head[1] == b[1]);
        if starts_with_wildcard(b) {
            assert(head =~= stars);
        }
    }
}

/// Where `**` does not meet `**` at the seam, `concat` is left to the
/// grammar: it succeeds exactly when the glued text is a key expression,
/// and fails in no other way than `InvalidKeyExpression`. One `*` on either
/// side is no obstacle.
pub proof fn concat_is_otherwise_left_to_the_grammar(a: KeyExprModel, b: Seq<char>)
    requires
        !(ends_with_wildcard(a.text) && starts_with_wildcard(b)),
    ensures
        a.concat(b) is Ok <==> is_keyexpr(a.text + b),
        a.concat(b) matches Err(e) ==> e == ErrorKind::InvalidKeyExpression,
{
}

/// `join` and `concat` hand the annotation on unchanged, and what they
/// return owns its text.
pub proof fn composition_keeps_the_annotation(a: KeyExprModel, b: Seq<char>)
    ensures
        a.join(b) matches Ok(k) ==> k.wire == a.wire && k.owned,
        a.concat(b) matches Ok(k) ==> k.wire == a.wire && k.owned,
{
}

/// The annotation of a well-formed key expression still fits after `join`
/// and `concat`: the prefix it stands for is still the beginning of the
/// text.
pub proof fn composition_keeps_the_prefix(a: KeyExprModel, b: Seq<char>)
    requires
        a.wf(),
    ensures
        a.join(b) matches Ok(k) ==> k.wf() && (a.wire matches Some(w) ==> k.text.take(
            w.prefix_len as int,
        ) == a.text.take(w.prefix_len as int)),
        a.concat(b) matches Ok(k) ==> k.wf() && (a.wire matches Some(w) ==> k.text.take(
            w.prefix_len as int,
        ) == a.text.take(w.prefix_len as int)),
{
}

/// A key expression is optimized for a session if and only if it carries
/// an annotation whose number is not 0 and which that session registered.
pub proof fn optimized_iff_numbered_by_this_session(k: KeyExprModel, session: Session)
    ensures
        k.is_optimized(session) <==> (k.wire is Some && k.wire->0.expr_id != 0
            && k.wire->0.session_id == session.id),
        k.wire is None ==> !k.is_optimized(session),
        k.wire matches Some(w) && w.expr_id == 0 ==> !k.is_optimized(session),
        k.wire matches Some(w) && w.session_id != session.id ==> !k.is_optimized(session),
{
}

/// Without an annotation the wire form is scope 0 and the whole text,
/// whatever the session.
pub proof fn plain_goes_in_full(k: KeyExprModel, session: Session)
    requires
        k.wire is None,
    ensures
        k.to_wire(session) == (0u64, k.text),
{
}

/// An annotation is never used towards a session other than the one that
/// registered it: the wire form is then scope 0 and the whole text.
pub proof fn foreign_annotation_is_not_used(k: KeyExprModel, session: Session)
    requires
        k.wire matches Some(w) && w.session_id != session.id,
    ensures
        k.to_wire(session) == (0u64, k.text),
{
}

/// Towards the session that registered the annotation, the scope is the
/// annotation's number, and the prefix that the number stands for, followed
/// by the suffix, is the text.
pub proof fn prefix_and_suffix_make_the_text(k: KeyExprModel, session: Session)
    requires
        k.wf(),
        k.wire matches Some(w) && w.session_id == session.id,
    ensures
        k.to_wire(session).0 == k.wire->0.expr_id,
        k.text.take(k.wire->0.prefix_len as int) + k.to_wire(session).1 == k.text,
{
}

/// Where the annotation, if there is one, has a number other than 0, a
/// wire form with scope 0 holds the whole text: any peer can read it.
pub proof fn scope_zero_means_full_text(k: KeyExprModel, session: Session)
    requires
        k.wire matches Some(w) ==> w.expr_id != 0,
    ensures
        k.to_wire(session).0 == 0 ==> k.to_wire(session).1 == k.text,
{
}

/// Making a key expression owned and then borrowing from the result keeps
/// the text and the annotation; the outcome equals the value it came from.
pub proof fn owned_then_borrowed_is_the_same_key(k: KeyExprModel)
    ensures
        k.into_owned().borrowing_clone().text == k.text,
        k.into_owned().borrowing_clone().wire == k.wire,
        k.into_owned().borrowing_clone().same_key(k),
        k.into_owned().owned,
        !k.into_owned().borrowing_clone().owned,
        k.wf() ==> k.into_owned().wf() && k.borrowing_clone().wf(),
{
}

/// Borrowing, taking ownership and annotating change the shape and nothing
/// else: the text stays, and with it whether it is in canon form.
pub proof fn shape_does_not_show_in_the_text(k: KeyExprModel, wire: WireAnnotation)
    ensures
        k.borrowing_clone().text == k.text,
        k.into_owned().text == k.text,
        k.with_wire(wire) matches Some(a) ==> a.text == k.text && a.owned == k.owned && a.wire
            == Some(wire) && a.wf(),
        k.with_wire(wire) is Some <==> wire.prefix_len <= k.text.len(),
        k.borrowing_clone().is_canon() == k.is_canon(),
        k.into_owned().is_canon() == k.is_canon(),
{
}

/// Key expressions over one text are equal however they were built:
/// validated and owned, validated and borrowed, or without validation.
pub proof fn constructors_agree(text: Seq<char>)
    requires
        is_keyexpr(text),
    ensures
        KeyExprModel::parse(text, true) matches Ok(a) && KeyExprModel::parse(text, false) matches Ok(
            b,
        ) && a.same_key(b) && a.same_key(KeyExprModel::plain(text, true)) && b.same_key(
            KeyExprModel::plain(text, false),
        ),
{
}

/// Equality looks at the text alone: it is reflexive, symmetric and
/// transitive, and blind to ownership and annotation.
pub proof fn equality_is_that_of_texts(a: KeyExprModel, b: KeyExprModel, c: KeyExprModel)
    ensures
        a.same_key(a),
        a.same_key(b) ==> b.same_key(a),
        a.same_key(b) && b.same_key(c) ==> a.same_key(c),
        a.same_key(b) <==> a.text == b.text,
{
}

} // verus!
