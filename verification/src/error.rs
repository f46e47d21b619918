//! The error and warning surface of the converter.
//!
//! Conversion either succeeds completely or aborts at the first unsupported
//! construct with a [`ConvertError`]. Attributes that the destination format
//! cannot express are dropped instead, and each such drop is recorded as a
//! [`Warning`].

use vstd::prelude::*;

verus! {

/// A source construct that the converter deliberately does not translate.
/// Meeting one of these aborts the whole conversion.
#[derive(Clone, Copy, Debug, PartialEq, Eq, Structural)]
pub enum UnsupportedKind {
    /// An accent composition.
    Accent,
    /// A primes marker.
    Primes,
    /// A class wrapper.
    ClassWrapper,
    /// An over-bracket.
    Overbracket,
    /// An under-bracket.
    Underbracket,
    /// A horizontal skip measured in stretchy fractional units.
    FractionalSpacing,
    /// A styled-variant tag with no destination font.
    MathVariant,
}

/// A fatal conversion failure.
#[derive(Clone, Copy, Debug, PartialEq, Eq, Structural)]
pub enum ConvertError {
    /// The source tree contains a construct with no translation.
    Unsupported(UnsupportedKind),
    /// The symbol table classified this character as a descriptor category
    /// (accent token, spacing token) that cannot become a node.
    UnsupportedSymbol(char),
    /// A delimited group did not start and end with atomic symbol nodes.
    NotAnAtom,
    /// A construct needed a single node where a longer or empty sequence
    /// was produced.
    ExpectedSingleNode,
}

/// A non-fatal degradation: an attribute was recognized but dropped because
/// the destination format cannot express it.
#[derive(Clone, Copy, Debug, PartialEq, Eq, Structural)]
pub enum Warning {
    /// A top-left corner script was dropped.
    TopLeftScript,
    /// A top-right corner script was dropped.
    TopRightScript,
    /// A bottom-left corner script was dropped.
    BottomLeftScript,
    /// A bottom-right corner script was dropped.
    BottomRightScript,
}

impl Warning {
    /// The diagnostic text of this warning.
    pub fn message(&self) -> &'static str {
        match self {
            Warning::TopLeftScript => "Top left element is unsupported.",
            Warning::TopRightScript => "Top right element is unsupported.",
            Warning::BottomLeftScript => "Bottom left element is unsupported.",
            Warning::BottomRightScript => "Bottom right element is unsupported.",
        }
    }
}

} // verus!
