//! Tokens and the classification that each token kind provides.

use vstd::pervasive::strictly_cloned;
use vstd::prelude::*;
use vstd::std_specs::cmp::PartialEqSpec;

use crate::span::{SrcLoc, SrcSpan};

verus! {

/// The questions that every token kind answers.
///
/// A vocabulary of token kinds implements this trait once. Each question is
/// answered for every kind, without side effects, and the answer depends on
/// the kind alone. The questions are independent: a kind may, for instance,
/// be both a literal and a keyword.
pub trait TokKind {
    /// Whether the kind is a keyword of the language.
    spec fn spec_is_keyword(&self) -> bool;

    /// Whether the kind is a reserved word.
    spec fn spec_is_reserved(&self) -> bool;

    /// Whether the kind is a comment.
    spec fn spec_is_comment(&self) -> bool;

    /// Whether the kind is a literal.
    spec fn spec_is_literal(&self) -> bool;

    /// Whether the kind is an identifier.
    spec fn spec_is_identifier(&self) -> bool;

    /// Whether a token of this kind is kept when a token stream is filtered.
    spec fn spec_keep(&self) -> bool;

    /// The text that the kind renders as.
    spec fn spec_text(&self) -> Seq<char>;

    /// Whether the kind is a keyword of the language.
    fn is_keyword(&self) -> (r: bool)
        ensures
            r == self.spec_is_keyword(),
    ;

    /// Whether the kind is a reserved word. A vocabulary may reserve words
    /// that are not keywords.
    fn is_reserved(&self) -> (r: bool)
        ensures
            r == self.spec_is_reserved(),
    ;

    /// Whether the kind is a comment.
    fn is_comment(&self) -> (r: bool)
        ensures
            r == self.spec_is_comment(),
    ;

    /// Whether the kind is a literal: a number, a string, a character, a boolean.
    fn is_literal(&self) -> (r: bool)
        ensures
            r == self.spec_is_literal(),
    ;

    /// Whether the kind is an identifier.
    fn is_identifier(&self) -> (r: bool)
        ensures
            r == self.spec_is_identifier(),
    ;

    /// Whether a token of this kind is kept when a token stream is filtered.
    fn keep(&self) -> (r: bool)
        ensures
            r == self.spec_keep(),
    ;

    /// The text that the kind renders as, as shown to a human reader.
    fn text(&self) -> (r: String)
        ensures
            r@ == self.spec_text(),
    ;
}

/// A lexical token: a kind of the user's vocabulary and the span of source
/// text that it was lexed from.
///
/// A token never changes once built. Of the kind's classification, the token
/// itself answers `is_keyword`, `is_reserved` and `keep`; the other questions
/// are asked of [`Tok::kind`].
#[derive(Eq, Debug)]
pub struct Tok<T> where T: TokKind + PartialEq + Clone {
    kind: T,
    span: SrcSpan,
}

impl<T> Tok<T> where T: TokKind + PartialEq + Clone {
    /// The token of the given kind and span.
    pub closed spec fn spec_new(kind: T, span: SrcSpan) -> Tok<T> {
        Tok { kind, span }
    }

    /// The kind of this token.
    pub closed spec fn spec_kind(&self) -> T {
        self.kind
    }

    /// The span of this token.
    pub closed spec fn spec_span(&self) -> SrcSpan {
        self.span
    }

    /// Creates a token of the given kind covering the given span.
    pub fn new(kind: T, span: SrcSpan) -> (r: Self)
        ensures
            r == Self::spec_new(kind, span),
            r.spec_kind() == kind,
            r.spec_span() == span,
    {
        Tok { kind, span }
    }

    /// The span of source text that this token covers.
    pub fn span(&self) -> (r: &SrcSpan)
        ensures
            *r == self.spec_span(),
    {
        &self.span
    }

    /// The kind of this token.
    pub fn kind(&self) -> (r: &T)
        ensures
            *r == self.spec_kind(),
    {
        &self.kind
    }

    /// The location at which this token begins: the start of its span.
    pub fn loc(&self) -> (r: &SrcLoc)
        ensures
            *r == self.spec_span().loc,
    {
        self.span.loc()
    }

    /// Whether the token's kind is a keyword.
    pub fn is_keyword(&self) -> (r: bool)
        ensures
            r == self.spec_kind().spec_is_keyword(),
    {
        self.kind.is_keyword()
    }

    /// Whether the token's kind is a reserved word.
    pub fn is_reserved(&self) -> (r: bool)
        ensures
            r == self.spec_kind().spec_is_reserved(),
    {
        self.kind.is_reserved()
    }

    /// Whether the token is kept when a token stream is filtered.
    pub fn keep(&self) -> (r: bool)
        ensures
            r == self.spec_kind().spec_keep(),
    {
        self.kind.keep()
    }

    /// The text of the token: the text of its kind, whatever its span.
    pub fn to_string(&self) -> (r: String)
        ensures
            r@ == self.spec_kind().spec_text(),
    {
        self.kind.text()
    }

    /// A token keeps exactly the kind and the span it was built from.
    pub proof fn lemma_new_kind_span(kind: T, span: SrcSpan)
        ensures
            Self::spec_new(kind, span).spec_kind() == kind,
            Self::spec_new(kind, span).spec_span() == span,
    {
    }

    /// Two tokens compare equal exactly when their kinds compare equal and
    /// their spans are equal.
    pub proof fn lemma_eq_structural(k1: T, s1: SrcSpan, k2: T, s2: SrcSpan)
        ensures
            Self::spec_new(k1, s1).eq_spec(&Self::spec_new(k2, s2)) <==> (k1.eq_spec(&k2) && s1
                == s2),
    {
    }

    /// Token equality is reflexive, symmetric and transitive wherever the
    /// equality of the kinds involved is.
    pub proof fn lemma_eq_equivalence(a: Self, b: Self, c: Self)
        requires
            a.spec_kind().eq_spec(&a.spec_kind()),
            a.spec_kind().eq_spec(&b.spec_kind()) ==> b.spec_kind().eq_spec(&a.spec_kind()),
            a.spec_kind().eq_spec(&b.spec_kind()) && b.spec_kind().eq_spec(&c.spec_kind())
                ==> a.spec_kind().eq_spec(&c.spec_kind()),
        ensures
            a.eq_spec(&a),
            a.eq_spec(&b) ==> b.eq_spec(&a),
            a.eq_spec(&b) && b.eq_spec(&c) ==> a.eq_spec(&c),
    {
    }

    /// A clone of a token is the token itself, where cloning its kind gives
    /// back that same kind.
    pub proof fn lemma_clone_equal(t: Self, c: Self)
        requires
            call_ensures(<Self as Clone>::clone, (&t,), c),
            forall|k: T| strictly_cloned(t.spec_kind(), k) ==> k == t.spec_kind(),
        ensures
            c == t,
    {
    }

    /// Two tokens of one kind classify and render alike, whatever their
    /// spans.
    pub proof fn lemma_kind_answers_ignore_span(kind: T, s1: SrcSpan, s2: SrcSpan)
        ensures
            Self::spec_new(kind, s1).spec_kind().spec_is_keyword() == Self::spec_new(
                kind,
                s2,
            ).spec_kind().spec_is_keyword(),
            Self::spec_new(kind, s1).spec_kind().spec_is_reserved() == Self::spec_new(
                kind,
                s2,
            ).spec_kind().spec_is_reserved(),
            Self::spec_new(kind, s1).spec_kind().spec_keep() == Self::spec_new(
                kind,
                s2,
            ).spec_kind().spec_keep(),
            Self::spec_new(kind, s1).spec_kind().spec_text() == Self::spec_new(
                kind,
                s2,
            ).spec_kind().spec_text(),
    {
    }
}

impl<T> PartialEq for Tok<T> where T: TokKind + PartialEq + Clone {
    fn eq(&self, other: &Self) -> (r: bool) {
        self.kind == other.kind && self.span == other.span
    }
}

impl<T> vstd::std_specs::cmp::PartialEqSpecImpl for Tok<T> where T: TokKind + PartialEq + Clone {
    open spec fn obeys_eq_spec() -> bool {
        T::obeys_eq_spec()
    }

    open spec fn eq_spec(&self, other: &Self) -> bool {
        self.spec_kind().eq_spec(&other.spec_kind()) && self.spec_span() == other.spec_span()
    }
}

impl<T> Clone for Tok<T> where T: TokKind + PartialEq + Clone {
    fn clone(&self) -> (r: Self)
        ensures
            strictly_cloned(self.spec_kind(), r.spec_kind()),
            r.spec_span() == self.spec_span(),
    {
        Tok { kind: self.kind.clone(), span: self.span }
    }
}

} // verus!
