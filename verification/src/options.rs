//! Caller-requested formatting parameters.
//!
//! A [`FormatterOptions`] value is an immutable snapshot of what the caller
//! of a formatting operation asked for: a fill character, an optional
//! alignment, an optional minimum width, an optional precision, and two
//! boolean flags. It is created once per formatting invocation and only ever
//! read afterwards; every accessor is a pure projection.

use vstd::prelude::*;

verus! {

/// How a value narrower than the requested minimum width is positioned
/// within the padded field.
#[derive(Clone, Copy, Debug, PartialEq, Eq, Structural)]
pub enum Alignment {
    /// Content first, padding after it.
    Left,
    /// Padding split around the content; an odd leftover goes to the
    /// trailing side.
    Center,
    /// Padding first, content after it.
    Right,
}

/// An immutable snapshot of the formatting parameters requested by the
/// caller of a formatting operation.
#[derive(Clone, Copy, Debug)]
pub struct FormatterOptions {
    fill: char,
    align: Option<Alignment>,
    width: Option<usize>,
    precision: Option<usize>,
    sign_plus: bool,
    alternate: bool,
}

impl FormatterOptions {
    /// The character used to pad a value narrower than the minimum width.
    pub closed spec fn spec_fill(self) -> char {
        self.fill
    }

    /// The requested alignment, if any; `None` leaves the choice to the
    /// type being formatted.
    pub closed spec fn spec_align(self) -> Option<Alignment> {
        self.align
    }

    /// The requested minimum rendered width, if any.
    pub closed spec fn spec_width(self) -> Option<usize> {
        self.width
    }

    /// The requested precision, if any; its meaning is type-defined (for
    /// text, the maximum number of characters to display).
    pub closed spec fn spec_precision(self) -> Option<usize> {
        self.precision
    }

    /// Whether an explicit sign was requested.
    pub closed spec fn spec_sign_plus(self) -> bool {
        self.sign_plus
    }

    /// Whether the alternate form was requested.
    pub closed spec fn spec_alternate(self) -> bool {
        self.alternate
    }

    /// The default options: space fill, and no alignment, width, precision
    /// or flags.
    pub fn new() -> (r: Self)
        ensures
            r.spec_fill() == ' ',
            r.spec_align() is None,
            r.spec_width() is None,
            r.spec_precision() is None,
            !r.spec_sign_plus(),
            !r.spec_alternate(),
    {
        FormatterOptions {
            fill: ' ',
            align: None,
            width: None,
            precision: None,
            sign_plus: false,
            alternate: false,
        }
    }

    /// A copy of the options with the fill character replaced.
    pub fn with_fill(self, fill: char) -> (r: Self)
        ensures
            r.spec_fill() == fill,
            r.spec_align() == self.spec_align(),
            r.spec_width() == self.spec_width(),
            r.spec_precision() == self.spec_precision(),
            r.spec_sign_plus() == self.spec_sign_plus(),
            r.spec_alternate() == self.spec_alternate(),
    {
        FormatterOptions { fill, ..self }
    }

    /// A copy of the options with the alignment replaced.
    pub fn with_align(self, align: Option<Alignment>) -> (r: Self)
        ensures
            r.spec_align() == align,
            r.spec_fill() == self.spec_fill(),
            r.spec_width() == self.spec_width(),
            r.spec_precision() == self.spec_precision(),
            r.spec_sign_plus() == self.spec_sign_plus(),
            r.spec_alternate() == self.spec_alternate(),
    {
        FormatterOptions { align, ..self }
    }

    /// A copy of the options with the minimum width replaced.
    pub fn with_width(self, width: Option<usize>) -> (r: Self)
        ensures
            r.spec_width() == width,
            r.spec_fill() == self.spec_fill(),
            r.spec_align() == self.spec_align(),
            r.spec_precision() == self.spec_precision(),
            r.spec_sign_plus() == self.spec_sign_plus(),
            r.spec_alternate() == self.spec_alternate(),
    {
        FormatterOptions { width, ..self }
    }

    /// A copy of the options with the precision replaced.
    pub fn with_precision(self, precision: Option<usize>) -> (r: Self)
        ensures
            r.spec_precision() == precision,
            r.spec_fill() == self.spec_fill(),
            r.spec_align() == self.spec_align(),
            r.spec_width() == self.spec_width(),
            r.spec_sign_plus() == self.spec_sign_plus(),
            r.spec_alternate() == self.spec_alternate(),
    {
        FormatterOptions { precision, ..self }
    }

    /// A copy of the options with the sign flag replaced.
    pub fn with_sign_plus(self, sign_plus: bool) -> (r: Self)
        ensures
            r.spec_sign_plus() == sign_plus,
            r.spec_fill() == self.spec_fill(),
            r.spec_align() == self.spec_align(),
            r.spec_width() == self.spec_width(),
            r.spec_precision() == self.spec_precision(),
            r.spec_alternate() == self.spec_alternate(),
    {
        FormatterOptions { sign_plus, ..self }
    }

    /// A copy of the options with the alternate flag replaced.
    pub fn with_alternate(self, alternate: bool) -> (r: Self)
        ensures
            r.spec_alternate() == alternate,
            r.spec_fill() == self.spec_fill(),
            r.spec_align() == self.spec_align(),
            r.spec_width() == self.spec_width(),
            r.spec_precision() == self.spec_precision(),
            r.spec_sign_plus() == self.spec_sign_plus(),
    {
        FormatterOptions { alternate, ..self }
    }

    /// The fill character.
    pub fn fill(&self) -> (r: char)
        ensures
            r == self.spec_fill(),
    {
        self.fill
    }

    /// The requested alignment, if any.
    pub fn align(&self) -> (r: Option<Alignment>)
        ensures
            r == self.spec_align(),
    {
        self.align
    }

    /// The requested minimum width, if any.
    pub fn width(&self) -> (r: Option<usize>)
        ensures
            r == self.spec_width(),
    {
        self.width
    }

    /// The requested precision, if any.
    pub fn precision(&self) -> (r: Option<usize>)
        ensures
            r == self.spec_precision(),
    {
        self.precision
    }

    /// Whether an explicit sign was requested.
    pub fn sign_plus(&self) -> (r: bool)
        ensures
            r == self.spec_sign_plus(),
    {
        self.sign_plus
    }

    /// Whether the alternate form was requested.
    pub fn alternate(&self) -> (r: bool)
        ensures
            r == self.spec_alternate(),
    {
        self.alternate
    }
}

} // verus!
