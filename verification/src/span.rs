//! Positions in the text of a specification, kept beside the values read
//! from it so that diagnostics can point at them.

use vstd::prelude::*;

verus! {

/// A half-open range of offsets into the text of a specification.
#[derive(Clone, Copy, Debug, PartialEq, Eq, Structural)]
pub struct Span {
    pub start: usize,
    pub end: usize,
}

impl DeepView for Span {
    type V = Span;

    open spec fn deep_view(&self) -> Span {
        *self
    }
}

/// A value together with the place it was read from.
#[derive(Debug)]
pub struct Spanned<T> {
    pub value: T,
    pub span: Span,
}

/// What a [`Spanned`] value stands for in contracts.
pub struct SpannedView<V> {
    pub value: V,
    pub span: Span,
}

impl<T: DeepView> DeepView for Spanned<T> {
    type V = SpannedView<T::V>;

    open spec fn deep_view(&self) -> SpannedView<T::V> {
        SpannedView { value: self.value.deep_view(), span: self.span }
    }
}

impl<T> Spanned<T> {
    /// Attaches the range `start..end` to `value`.
    pub fn new(value: T, start: usize, end: usize) -> (spanned: Spanned<T>)
        ensures
            spanned.value == value,
            spanned.span == (Span { start, end }),
    {
        Spanned { value, span: Span { start, end } }
    }

    /// The value, without its place.
    pub fn into_inner(self) -> (value: T)
        ensures
            value == self.value,
    {
        self.value
    }

    /// A reference to the value.
    pub fn get_ref(&self) -> (value: &T)
        ensures
            *value == self.value,
    {
        &self.value
    }

    /// Offset of the first character.
    pub fn start(&self) -> (start: usize)
        ensures
            start == self.span.start,
    {
        self.span.start
    }

    /// Offset just behind the last character.
    pub fn end(&self) -> (end: usize)
        ensures
            end == self.span.end,
    {
        self.span.end
    }
}

/// Access to the two halves of a value that carries its place.
pub trait IntoParts: Sized {
    type Value;

    /// The place.
    spec fn span_of(&self) -> Span;

    /// The value.
    spec fn value_of(&self) -> Self::Value;

    fn to_span(&self) -> (span: Span)
        ensures
            span == self.span_of(),
    ;

    fn get(&self) -> (value: Self::Value) where Self::Value: Copy
        ensures
            value == self.value_of(),
    ;

    fn to_parts(&self) -> (parts: (Self::Value, Span)) where Self::Value: Copy
        ensures
            parts == (self.value_of(), self.span_of()),
    ;
}

impl<T> IntoParts for Spanned<T> {
    type Value = T;

    open spec fn span_of(&self) -> Span {
        self.span
    }

    open spec fn value_of(&self) -> T {
        self.value
    }

    fn to_span(&self) -> (span: Span) {
        self.span
    }

    fn get(&self) -> (value: T) where T: Copy {
        self.value
    }

    fn to_parts(&self) -> (parts: (T, Span)) where T: Copy {
        (self.get(), self.to_span())
    }
}

} // verus!
