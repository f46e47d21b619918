//! Scalar types shared by the destination node model: modes, alignment
//! specifications, measurements and style names.
//!
//! Lengths and stretch factors are held in thousandths of their unit so that
//! the model stays in exact integer arithmetic; a value of `1000` stands for
//! `1.0` in the serialized form.

use vstd::prelude::*;

verus! {

/// Rendering mode of a node: mathematical or textual material.
#[derive(Clone, Copy, Debug, PartialEq, Eq, Structural)]
pub enum Mode {
    Math,
    Text,
}

/// Column separation flavour of an array node.
#[derive(Clone, Copy, Debug, PartialEq, Eq, Structural)]
pub enum ColSeparationType {
    Align,
    AlignAt,
    Gather,
    Small,
    CD,
}

/// A source position placeholder. The converter never reconstructs source
/// locations, so nodes always carry `None` here.
#[derive(Clone, Copy, Debug, PartialEq, Eq, Structural)]
pub struct SourceLocation {
    pub start: usize,
    pub end: usize,
}

/// One column of an array: either a literal separator or an alignment.
#[derive(Clone, Debug, PartialEq)]
pub enum AlignSpec {
    Separator(Separator),
    Align(Align),
}

/// A literal column separator.
#[derive(Clone, Debug, PartialEq)]
pub struct Separator {
    pub separator: String,
}

/// Alignment of one column, with optional gaps (in thousandths of an em)
/// before and after the column.
#[derive(Clone, Debug, PartialEq)]
pub struct Align {
    pub align: String,
    pub pregap_milli: Option<i64>,
    pub postgap_milli: Option<i64>,
}

/// A length with a unit, the number held in thousandths.
#[derive(Clone, Debug, PartialEq)]
pub struct Measurement {
    pub number_milli: i64,
    pub unit: String,
}

/// Display style forced by a styling node.
#[derive(Clone, Copy, Debug, PartialEq, Eq, Structural)]
pub enum StyleStr {
    Text,
    Display,
    Script,
    ScriptScript,
}

/// Delimiter size class.
#[derive(Clone, Copy, Debug, PartialEq, Eq, Structural)]
pub enum SizeType {
    One,
    Two,
    Three,
    Four,
}

/// Math class of a delimiter-sizing node.
#[derive(Clone, Copy, Debug, PartialEq, Eq, Structural)]
pub enum MClassType {
    MOpen,
    MClose,
    MRel,
    MOrd,
}

/// Size selection of a generalized fraction: a forced style or automatic.
#[derive(Clone, Copy, Debug, PartialEq, Eq, Structural)]
pub enum GenFracSizeType {
    StyleStr(StyleStr),
    Auto,
}

/// A lexer token reference carried by infix nodes.
#[derive(Clone, Debug, PartialEq)]
pub struct Token {
    pub text: String,
    pub loc: Option<SourceLocation>,
    pub noexpand: Option<bool>,
    pub treat_as_relax: Option<bool>,
}

impl DeepView for Mode {
    type V = Mode;

    open spec fn deep_view(&self) -> Mode {
        *self
    }
}

impl DeepView for ColSeparationType {
    type V = ColSeparationType;

    open spec fn deep_view(&self) -> ColSeparationType {
        *self
    }
}

impl DeepView for SourceLocation {
    type V = SourceLocation;

    open spec fn deep_view(&self) -> SourceLocation {
        *self
    }
}

impl DeepView for StyleStr {
    type V = StyleStr;

    open spec fn deep_view(&self) -> StyleStr {
        *self
    }
}

impl DeepView for SizeType {
    type V = SizeType;

    open spec fn deep_view(&self) -> SizeType {
        *self
    }
}

impl DeepView for MClassType {
    type V = MClassType;

    open spec fn deep_view(&self) -> MClassType {
        *self
    }
}

impl DeepView for GenFracSizeType {
    type V = GenFracSizeType;

    open spec fn deep_view(&self) -> GenFracSizeType {
        *self
    }
}

/// View of an [`AlignSpec`].
pub enum AlignSpecV {
    Separator { separator: Seq<char> },
    Align { align: Seq<char>, pregap_milli: Option<i64>, postgap_milli: Option<i64> },
}

/// View of a [`Measurement`].
pub struct MeasurementV {
    pub number_milli: i64,
    pub unit: Seq<char>,
}

/// View of a [`Token`].
pub struct TokenV {
    pub text: Seq<char>,
    pub loc: Option<SourceLocation>,
    pub noexpand: Option<bool>,
    pub treat_as_relax: Option<bool>,
}

impl DeepView for AlignSpec {
    type V = AlignSpecV;

    open spec fn deep_view(&self) -> AlignSpecV {
        match self {
            AlignSpec::Separator(s) => AlignSpecV::Separator { separator: s.separator@ },
            AlignSpec::Align(a) => AlignSpecV::Align {
                align: a.align@,
                pregap_milli: a.pregap_milli,
                postgap_milli: a.postgap_milli,
            },
        }
    }
}

impl DeepView for Measurement {
    type V = MeasurementV;

    open spec fn deep_view(&self) -> MeasurementV {
        MeasurementV { number_milli: self.number_milli, unit: self.unit@ }
    }
}

impl DeepView for Token {
    type V = TokenV;

    open spec fn deep_view(&self) -> TokenV {
        TokenV {
            text: self.text@,
            loc: self.loc,
            noexpand: self.noexpand,
            treat_as_relax: self.treat_as_relax,
        }
    }
}

} // verus!
