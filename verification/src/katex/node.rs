//! The destination node model: one struct per node kind, the closed sum type
//! over all of them, and the ghost view of each used by every contract in the
//! crate.
//!
//! Composite kinds own their children by value; the `loc` placeholder is never
//! filled in by this crate. The ghost views replace owned collections and
//! strings by their mathematical counterparts (`Seq`), so that the
//! specification functions of the converter can build destination trees at the
//! specification level.

use vstd::prelude::*;
use crate::katex::types::{
    Mode, ColSeparationType, SourceLocation, AlignSpec, AlignSpecV, Measurement, MeasurementV,
    StyleStr, SizeType, MClassType, GenFracSizeType, Token, TokenV,
};
use crate::katex::symbol::AtomGroup;

verus! {

broadcast use
    vstd::seq::axiom_seq_index_decreases,
    vstd::std_specs::vec::axiom_vec_index_decreases,
    vstd::std_specs::vec::axiom_vec_decreases_to_view,
;

/// A flat run of destination nodes.
pub type NodeArray = Vec<Node>;

/// A row-major grid of destination nodes.
pub type NodeArray2D = Vec<Vec<Node>>;

/// Tag metadata of an array row: either a flag or rendered tag content.
#[derive(Debug, PartialEq)]
pub enum TagType {
    Bool(bool),
    NodeArray(NodeArray),
}

/// View of a [`TagType`].
pub enum TagTypeV {
    Bool(bool),
    NodeArray(Seq<NodeV>),
}

/// Every destination node kind that the target format defines.
#[derive(Debug, PartialEq)]
pub enum Node {
    Array(Array),
    CdLabel(CdLabel),
    CdLabelParent(CdLabelParent),
    Color(Color),
    ColorToken(ColorToken),
    Op(Op),
    OrdGroup(OrdGroup),
    Raw(Raw),
    Size(Size),
    Styling(Styling),
    SupSub(SupSub),
    Tag(Tag),
    Text(Text),
    Url(Url),
    Verb(Verb),
    Atom(Atom),
    MathOrd(MathOrd),
    Spacing(Spacing),
    TextOrd(TextOrd),
    AccentToken(AccentToken),
    OpToken(OpToken),
    Accent(Accent),
    AccentUnder(AccentUnder),
    Cr(Cr),
    DelimSizing(DelimSizing),
    Enclose(Enclose),
    Environment(Environment),
    Font(Font),
    GenFrac(GenFrac),
    HBox(HBox),
    HorizBrace(HorizBrace),
    HRef(HRef),
    Html(Html),
    HtmlMathML(HtmlMathML),
    IncludeGraphics(IncludeGraphics),
    Infix(Infix),
    Internal(Internal),
    Kern(Kern),
    Lap(Lap),
    LeftRight(LeftRight),
    LeftRightRight(LeftRightRight),
    MathChoice(MathChoice),
    Middle(Middle),
    MClass(MClass),
    OperatorName(OperatorName),
    Overline(Overline),
    Phantom(Phantom),
    HPhantom(HPhantom),
    VPhantom(VPhantom),
    Pmb(Pmb),
    RaiseBox(RaiseBox),
    Rule(Rule),
    Sizing(Sizing),
    Smash(Smash),
    Sqrt(Sqrt),
    Underline(Underline),
    VCenter(VCenter),
    XArrow(XArrow),
}

/// Ghost view of a [`Node`], with sequences in place of vectors and
/// character sequences in place of strings.
pub enum NodeV {
    Array { mode: Mode, loc: Option<SourceLocation>, col_separation_type: Option<ColSeparationType>, hskip_before_and_after: Option<bool>, add_jot: Option<bool>, cols: Option<Seq<AlignSpecV>>, arraystretch_milli: i64, body: Seq<Seq<NodeV>>, row_gaps: Seq<Option<MeasurementV>>, h_lines_before_row: Seq<Seq<bool>>, tags: Option<Seq<TagTypeV>>, leqno: Option<bool>, is_cd: Option<bool> },
    CdLabel { mode: Mode, loc: Option<SourceLocation>, side: Seq<char>, label: Box<NodeV> },
    CdLabelParent { mode: Mode, loc: Option<SourceLocation>, side: Seq<char>, label: Box<NodeV> },
    Color { mode: Mode, loc: Option<SourceLocation>, color: Seq<char>, body: Seq<NodeV> },
    ColorToken { mode: Mode, loc: Option<SourceLocation>, color: Seq<char> },
    Op { mode: Mode, loc: Option<SourceLocation>, limits: bool, always_handle_sup_sub: Option<bool>, suppress_base_shift: Option<bool>, parent_is_sup_sub: bool, symbol: bool, name: Option<Seq<char>>, body: Option<Seq<NodeV>> },
    OrdGroup { mode: Mode, loc: Option<SourceLocation>, body: Seq<NodeV>, semisimple: Option<bool> },
    Raw { mode: Mode, loc: Option<SourceLocation>, string: Seq<char> },
    Size { mode: Mode, loc: Option<SourceLocation>, value: MeasurementV, is_blank: bool },
    Styling { mode: Mode, loc: Option<SourceLocation>, style: StyleStr, body: Seq<NodeV> },
    SupSub { mode: Mode, loc: Option<SourceLocation>, base: Option<Box<NodeV>>, sup: Option<Box<NodeV>>, sub: Option<Box<NodeV>> },
    Tag { mode: Mode, loc: Option<SourceLocation>, body: Seq<NodeV>, tag: Seq<NodeV> },
    Text { mode: Mode, loc: Option<SourceLocation>, body: Seq<NodeV>, font: Option<Seq<char>> },
    Url { mode: Mode, loc: Option<SourceLocation>, url: Seq<char> },
    Verb { mode: Mode, loc: Option<SourceLocation>, body: Seq<char>, star: bool },
    Atom { family: AtomGroup, mode: Mode, loc: Option<SourceLocation>, text: Seq<char> },
    MathOrd { mode: Mode, loc: Option<SourceLocation>, text: Seq<char> },
    Spacing { mode: Mode, loc: Option<SourceLocation>, text: Seq<char> },
    TextOrd { mode: Mode, loc: Option<SourceLocation>, text: Seq<char> },
    AccentToken { mode: Mode, loc: Option<SourceLocation>, text: Seq<char> },
    OpToken { mode: Mode, loc: Option<SourceLocation>, text: Seq<char> },
    Accent { mode: Mode, loc: Option<SourceLocation>, label: Seq<char>, is_stretchy: Option<bool>, is_shifty: Option<bool>, base: Box<NodeV> },
    AccentUnder { mode: Mode, loc: Option<SourceLocation>, label: Seq<char>, is_stretchy: Option<bool>, is_shifty: Option<bool>, base: Box<NodeV> },
    Cr { mode: Mode, loc: Option<SourceLocation>, new_line: bool, size: Option<MeasurementV> },
    DelimSizing { mode: Mode, loc: Option<SourceLocation>, size: SizeType, mclass: MClassType, delim: Seq<char> },
    Enclose { mode: Mode, loc: Option<SourceLocation>, label: Seq<char>, background_color: Option<Seq<char>>, border_color: Option<Seq<char>>, body: Box<NodeV> },
    Environment { mode: Mode, loc: Option<SourceLocation>, name: Seq<char>, name_group: Box<NodeV> },
    Font { mode: Mode, loc: Option<SourceLocation>, font: Seq<char>, body: Box<NodeV> },
    GenFrac { mode: Mode, loc: Option<SourceLocation>, continued: bool, numer: Box<NodeV>, denom: Box<NodeV>, has_bar_line: bool, left_delim: Option<Seq<char>>, right_delim: Option<Seq<char>>, size: GenFracSizeType, bar_size: Option<MeasurementV> },
    HBox { mode: Mode, loc: Option<SourceLocation>, body: Seq<NodeV> },
    HorizBrace { mode: Mode, loc: Option<SourceLocation>, label: Seq<char>, is_over: bool, base: Box<NodeV> },
    HRef { mode: Mode, loc: Option<SourceLocation>, href: Seq<char>, body: Seq<NodeV> },
    Html { mode: Mode, loc: Option<SourceLocation>, attributes: Seq<(Seq<char>, Seq<char>)>, body: Seq<NodeV> },
    HtmlMathML { mode: Mode, loc: Option<SourceLocation>, html: Seq<NodeV>, mathml: Seq<NodeV> },
    IncludeGraphics { mode: Mode, loc: Option<SourceLocation>, alt: Seq<char>, width: MeasurementV, height: MeasurementV, total_height: MeasurementV, src: Seq<char> },
    Infix { mode: Mode, loc: Option<SourceLocation>, replace_with: Seq<char>, size: Option<MeasurementV>, token: Option<TokenV> },
    Internal { mode: Mode, loc: Option<SourceLocation> },
    Kern { mode: Mode, loc: Option<SourceLocation>, dimension: MeasurementV },
    Lap { mode: Mode, loc: Option<SourceLocation>, alignment: Seq<char>, body: Box<NodeV> },
    LeftRight { mode: Mode, loc: Option<SourceLocation>, body: Seq<NodeV>, left: Seq<char>, right: Seq<char>, right_color: Option<Seq<char>> },
    LeftRightRight { mode: Mode, loc: Option<SourceLocation>, delim: Seq<char>, color: Option<Seq<char>> },
    MathChoice { mode: Mode, loc: Option<SourceLocation>, display: Seq<NodeV>, text: Seq<NodeV>, script: Seq<NodeV>, scriptscript: Seq<NodeV> },
    Middle { mode: Mode, loc: Option<SourceLocation>, delim: Seq<char> },
    MClass { mode: Mode, loc: Option<SourceLocation>, mclass: Seq<char>, body: Seq<NodeV>, is_character_box: bool },
    OperatorName { mode: Mode, loc: Option<SourceLocation>, body: Seq<NodeV>, always_handle_sup_sub: bool, limits: bool, parent_is_sup_sub: bool },
    Overline { mode: Mode, loc: Option<SourceLocation>, body: Box<NodeV> },
    Phantom { mode: Mode, loc: Option<SourceLocation>, body: Seq<NodeV> },
    HPhantom { mode: Mode, loc: Option<SourceLocation>, body: Box<NodeV> },
    VPhantom { mode: Mode, loc: Option<SourceLocation>, body: Box<NodeV> },
    Pmb { mode: Mode, loc: Option<SourceLocation>, mclass: Seq<char>, body: Seq<NodeV> },
    RaiseBox { mode: Mode, loc: Option<SourceLocation>, dy: MeasurementV, body: Box<NodeV> },
    Rule { mode: Mode, loc: Option<SourceLocation>, shift: Option<MeasurementV>, width: MeasurementV, height: MeasurementV },
    Sizing { mode: Mode, loc: Option<SourceLocation>, size_milli: i64, body: Seq<NodeV> },
    Smash { mode: Mode, loc: Option<SourceLocation>, body: Seq<NodeV>, smash_height: bool, smash_depth: bool },
    Sqrt { mode: Mode, loc: Option<SourceLocation>, body: Box<NodeV>, index: Option<Box<NodeV>> },
    Underline { mode: Mode, loc: Option<SourceLocation>, body: Box<NodeV> },
    VCenter { mode: Mode, loc: Option<SourceLocation>, body: Box<NodeV> },
    XArrow { mode: Mode, loc: Option<SourceLocation>, label: Seq<char>, body: Box<NodeV>, below: Option<Box<NodeV>> },
}

#[derive(Debug, PartialEq)]
pub struct Array {
    pub mode: Mode,
    pub loc: Option<SourceLocation>,
    pub col_separation_type: Option<ColSeparationType>,
    pub hskip_before_and_after: Option<bool>,
    pub add_jot: Option<bool>,
    pub cols: Option<Vec<AlignSpec>>,
    pub arraystretch_milli: i64,
    pub body: NodeArray2D,
    pub row_gaps: Vec<Option<Measurement>>,
    pub h_lines_before_row: Vec<Vec<bool>>,
    pub tags: Option<Vec<TagType>>,
    pub leqno: Option<bool>,
    pub is_cd: Option<bool>,
}

#[derive(Debug, PartialEq)]
pub struct CdLabel {
    pub mode: Mode,
    pub loc: Option<SourceLocation>,
    pub side: String,
    pub label: Box<Node>,
}

#[derive(Debug, PartialEq)]
pub struct CdLabelParent {
    pub mode: Mode,
    pub loc: Option<SourceLocation>,
    pub side: String,
    pub label: Box<Node>,
}

#[derive(Debug, PartialEq)]
pub struct Color {
    pub mode: Mode,
    pub loc: Option<SourceLocation>,
    pub color: String,
    pub body: NodeArray,
}

#[derive(Debug, PartialEq)]
pub struct ColorToken {
    pub mode: Mode,
    pub loc: Option<SourceLocation>,
    pub color: String,
}

#[derive(Debug, PartialEq)]
pub struct Op {
    pub mode: Mode,
    pub loc: Option<SourceLocation>,
    pub limits: bool,
    pub always_handle_sup_sub: Option<bool>,
    pub suppress_base_shift: Option<bool>,
    pub parent_is_sup_sub: bool,
    pub symbol: bool,
    pub name: Option<String>,
    pub body: Option<NodeArray>,
}

#[derive(Debug, PartialEq)]
pub struct OrdGroup {
    pub mode: Mode,
    pub loc: Option<SourceLocation>,
    pub body: NodeArray,
    pub semisimple: Option<bool>,
}

#[derive(Debug, PartialEq)]
pub struct Raw {
    pub mode: Mode,
    pub loc: Option<SourceLocation>,
    pub string: String,
}

#[derive(Debug, PartialEq)]
pub struct Size {
    pub mode: Mode,
    pub loc: Option<SourceLocation>,
    pub value: Measurement,
    pub is_blank: bool,
}

#[derive(Debug, PartialEq)]
pub struct Styling {
    pub mode: Mode,
    pub loc: Option<SourceLocation>,
    pub style: StyleStr,
    pub body: NodeArray,
}

#[derive(Debug, PartialEq)]
pub struct SupSub {
    pub mode: Mode,
    pub loc: Option<SourceLocation>,
    pub base: Option<Box<Node>>,
    pub sup: Option<Box<Node>>,
    pub sub: Option<Box<Node>>,
}

#[derive(Debug, PartialEq)]
pub struct Tag {
    pub mode: Mode,
    pub loc: Option<SourceLocation>,
    pub body: NodeArray,
    pub tag: NodeArray,
}

#[derive(Debug, PartialEq)]
pub struct Text {
    pub mode: Mode,
    pub loc: Option<SourceLocation>,
    pub body: NodeArray,
    pub font: Option<String>,
}

#[derive(Debug, PartialEq)]
pub struct Url {
    pub mode: Mode,
    pub loc: Option<SourceLocation>,
    pub url: String,
}

#[derive(Debug, PartialEq)]
pub struct Verb {
    pub mode: Mode,
    pub loc: Option<SourceLocation>,
    pub body: String,
    pub star: bool,
}

#[derive(Debug, PartialEq)]
pub struct Atom {
    pub family: AtomGroup,
    pub mode: Mode,
    pub loc: Option<SourceLocation>,
    pub text: String,
}

#[derive(Debug, PartialEq)]
pub struct MathOrd {
    pub mode: Mode,
    pub loc: Option<SourceLocation>,
    pub text: String,
}

#[derive(Debug, PartialEq)]
pub struct Spacing {
    pub mode: Mode,
    pub loc: Option<SourceLocation>,
    pub text: String,
}

#[derive(Debug, PartialEq)]
pub struct TextOrd {
    pub mode: Mode,
    pub loc: Option<SourceLocation>,
    pub text: String,
}

#[derive(Debug, PartialEq)]
pub struct AccentToken {
    pub mode: Mode,
    pub loc: Option<SourceLocation>,
    pub text: String,
}

#[derive(Debug, PartialEq)]
pub struct OpToken {
    pub mode: Mode,
    pub loc: Option<SourceLocation>,
    pub text: String,
}

#[derive(Debug, PartialEq)]
pub struct Accent {
    pub mode: Mode,
    pub loc: Option<SourceLocation>,
    pub label: String,
    pub is_stretchy: Option<bool>,
    pub is_shifty: Option<bool>,
    pub base: Box<Node>,
}

#[derive(Debug, PartialEq)]
pub struct AccentUnder {
    pub mode: Mode,
    pub loc: Option<SourceLocation>,
    pub label: String,
    pub is_stretchy: Option<bool>,
    pub is_shifty: Option<bool>,
    pub base: Box<Node>,
}

#[derive(Debug, PartialEq)]
pub struct Cr {
    pub mode: Mode,
    pub loc: Option<SourceLocation>,
    pub new_line: bool,
    pub size: Option<Measurement>,
}

#[derive(Debug, PartialEq)]
pub struct DelimSizing {
    pub mode: Mode,
    pub loc: Option<SourceLocation>,
    pub size: SizeType,
    pub mclass: MClassType,
    pub delim: String,
}

#[derive(Debug, PartialEq)]
pub struct Enclose {
    pub mode: Mode,
    pub loc: Option<SourceLocation>,
    pub label: String,
    pub background_color: Option<String>,
    pub border_color: Option<String>,
    pub body: Box<Node>,
}

#[derive(Debug, PartialEq)]
pub struct Environment {
    pub mode: Mode,
    pub loc: Option<SourceLocation>,
    pub name: String,
    pub name_group: Box<Node>,
}

#[derive(Debug, PartialEq)]
pub struct Font {
    pub mode: Mode,
    pub loc: Option<SourceLocation>,
    pub font: String,
    pub body: Box<Node>,
}

#[derive(Debug, PartialEq)]
pub struct GenFrac {
    pub mode: Mode,
    pub loc: Option<SourceLocation>,
    pub continued: bool,
    pub numer: Box<Node>,
    pub denom: Box<Node>,
    pub has_bar_line: bool,
    pub left_delim: Option<String>,
    pub right_delim: Option<String>,
    pub size: GenFracSizeType,
    pub bar_size: Option<Measurement>,
}

#[derive(Debug, PartialEq)]
pub struct HBox {
    pub mode: Mode,
    pub loc: Option<SourceLocation>,
    pub body: NodeArray,
}

#[derive(Debug, PartialEq)]
pub struct HorizBrace {
    pub mode: Mode,
    pub loc: Option<SourceLocation>,
    pub label: String,
    pub is_over: bool,
    pub base: Box<Node>,
}

#[derive(Debug, PartialEq)]
pub struct HRef {
    pub mode: Mode,
    pub loc: Option<SourceLocation>,
    pub href: String,
    pub body: NodeArray,
}

#[derive(Debug, PartialEq)]
pub struct Html {
    pub mode: Mode,
    pub loc: Option<SourceLocation>,
    pub attributes: Vec<(String, String)>,
    pub body: NodeArray,
}

#[derive(Debug, PartialEq)]
pub struct HtmlMathML {
    pub mode: Mode,
    pub loc: Option<SourceLocation>,
    pub html: NodeArray,
    pub mathml: NodeArray,
}

#[derive(Debug, PartialEq)]
pub struct IncludeGraphics {
    pub mode: Mode,
    pub loc: Option<SourceLocation>,
    pub alt: String,
    pub width: Measurement,
    pub height: Measurement,
    pub total_height: Measurement,
    pub src: String,
}

#[derive(Debug, PartialEq)]
pub struct Infix {
    pub mode: Mode,
    pub loc: Option<SourceLocation>,
    pub replace_with: String,
    pub size: Option<Measurement>,
    pub token: Option<Token>,
}

#[derive(Debug, PartialEq)]
pub struct Internal {
    pub mode: Mode,
    pub loc: Option<SourceLocation>,
}

#[derive(Debug, PartialEq)]
pub struct Kern {
    pub mode: Mode,
    pub loc: Option<SourceLocation>,
    pub dimension: Measurement,
}

#[derive(Debug, PartialEq)]
pub struct Lap {
    pub mode: Mode,
    pub loc: Option<SourceLocation>,
    pub alignment: String,
    pub body: Box<Node>,
}

#[derive(Debug, PartialEq)]
pub struct LeftRight {
    pub mode: Mode,
    pub loc: Option<SourceLocation>,
    pub body: NodeArray,
    pub left: String,
    pub right: String,
    pub right_color: Option<String>,
}

#[derive(Debug, PartialEq)]
pub struct LeftRightRight {
    pub mode: Mode,
    pub loc: Option<SourceLocation>,
    pub delim: String,
    pub color: Option<String>,
}

#[derive(Debug, PartialEq)]
pub struct MathChoice {
    pub mode: Mode,
    pub loc: Option<SourceLocation>,
    pub display: NodeArray,
    pub text: NodeArray,
    pub script: NodeArray,
    pub scriptscript: NodeArray,
}

#[derive(Debug, PartialEq)]
pub struct Middle {
    pub mode: Mode,
    pub loc: Option<SourceLocation>,
    pub delim: String,
}

#[derive(Debug, PartialEq)]
pub struct MClass {
    pub mode: Mode,
    pub loc: Option<SourceLocation>,
    pub mclass: String,
    pub body: NodeArray,
    pub is_character_box: bool,
}

#[derive(Debug, PartialEq)]
pub struct OperatorName {
    pub mode: Mode,
    pub loc: Option<SourceLocation>,
    pub body: NodeArray,
    pub always_handle_sup_sub: bool,
    pub limits: bool,
    pub parent_is_sup_sub: bool,
}

#[derive(Debug, PartialEq)]
pub struct Overline {
    pub mode: Mode,
    pub loc: Option<SourceLocation>,
    pub body: Box<Node>,
}

#[derive(Debug, PartialEq)]
pub struct Phantom {
    pub mode: Mode,
    pub loc: Option<SourceLocation>,
    pub body: NodeArray,
}

#[derive(Debug, PartialEq)]
pub struct HPhantom {
    pub mode: Mode,
    pub loc: Option<SourceLocation>,
    pub body: Box<Node>,
}

#[derive(Debug, PartialEq)]
pub struct VPhantom {
    pub mode: Mode,
    pub loc: Option<SourceLocation>,
    pub body: Box<Node>,
}

#[derive(Debug, PartialEq)]
pub struct Pmb {
    pub mode: Mode,
    pub loc: Option<SourceLocation>,
    pub mclass: String,
    pub body: NodeArray,
}

#[derive(Debug, PartialEq)]
pub struct RaiseBox {
    pub mode: Mode,
    pub loc: Option<SourceLocation>,
    pub dy: Measurement,
    pub body: Box<Node>,
}

#[derive(Debug, PartialEq)]
pub struct Rule {
    pub mode: Mode,
    pub loc: Option<SourceLocation>,
    pub shift: Option<Measurement>,
    pub width: Measurement,
    pub height: Measurement,
}

#[derive(Debug, PartialEq)]
pub struct Sizing {
    pub mode: Mode,
    pub loc: Option<SourceLocation>,
    pub size_milli: i64,
    pub body: NodeArray,
}

#[derive(Debug, PartialEq)]
pub struct Smash {
    pub mode: Mode,
    pub loc: Option<SourceLocation>,
    pub body: NodeArray,
    pub smash_height: bool,
    pub smash_depth: bool,
}

#[derive(Debug, PartialEq)]
pub struct Sqrt {
    pub mode: Mode,
    pub loc: Option<SourceLocation>,
    pub body: Box<Node>,
    pub index: Option<Box<Node>>,
}

#[derive(Debug, PartialEq)]
pub struct Underline {
    pub mode: Mode,
    pub loc: Option<SourceLocation>,
    pub body: Box<Node>,
}

#[derive(Debug, PartialEq)]
pub struct VCenter {
    pub mode: Mode,
    pub loc: Option<SourceLocation>,
    pub body: Box<Node>,
}

#[derive(Debug, PartialEq)]
pub struct XArrow {
    pub mode: Mode,
    pub loc: Option<SourceLocation>,
    pub label: String,
    pub body: Box<Node>,
    pub below: Option<Box<Node>>,
}

impl Array {
    /// Wraps this node into the closed sum type.
    pub fn into_node(self) -> (r: Node)
        ensures
            r == Node::Array(self),
    {
        Node::Array(self)
    }
}

impl CdLabel {
    /// Wraps this node into the closed sum type.
    pub fn into_node(self) -> (r: Node)
        ensures
            r == Node::CdLabel(self),
    {
        Node::CdLabel(self)
    }
}

impl CdLabelParent {
    /// Wraps this node into the closed sum type.
    pub fn into_node(self) -> (r: Node)
        ensures
            r == Node::CdLabelParent(self),
    {
        Node::CdLabelParent(self)
    }
}

impl Color {
    /// Wraps this node into the closed sum type.
    pub fn into_node(self) -> (r: Node)
        ensures
            r == Node::Color(self),
    {
        Node::Color(self)
    }
}

impl ColorToken {
    /// Wraps this node into the closed sum type.
    pub fn into_node(self) -> (r: Node)
        ensures
            r == Node::ColorToken(self),
    {
        Node::ColorToken(self)
    }
}

impl Op {
    /// Wraps this node into the closed sum type.
    pub fn into_node(self) -> (r: Node)
        ensures
            r == Node::Op(self),
    {
        Node::Op(self)
    }
}

impl OrdGroup {
    /// Wraps this node into the closed sum type.
    pub fn into_node(self) -> (r: Node)
        ensures
            r == Node::OrdGroup(self),
    {
        Node::OrdGroup(self)
    }
}

impl Raw {
    /// Wraps this node into the closed sum type.
    pub fn into_node(self) -> (r: Node)
        ensures
            r == Node::Raw(self),
    {
        Node::Raw(self)
    }
}

impl Size {
    /// Wraps this node into the closed sum type.
    pub fn into_node(self) -> (r: Node)
        ensures
            r == Node::Size(self),
    {
        Node::Size(self)
    }
}

impl Styling {
    /// Wraps this node into the closed sum type.
    pub fn into_node(self) -> (r: Node)
        ensures
            r == Node::Styling(self),
    {
        Node::Styling(self)
    }
}

impl SupSub {
    /// Wraps this node into the closed sum type.
    pub fn into_node(self) -> (r: Node)
        ensures
            r == Node::SupSub(self),
    {
        Node::SupSub(self)
    }
}

impl Tag {
    /// Wraps this node into the closed sum type.
    pub fn into_node(self) -> (r: Node)
        ensures
            r == Node::Tag(self),
    {
        Node::Tag(self)
    }
}

impl Text {
    /// Wraps this node into the closed sum type.
    pub fn into_node(self) -> (r: Node)
        ensures
            r == Node::Text(self),
    {
        Node::Text(self)
    }
}

impl Url {
    /// Wraps this node into the closed sum type.
    pub fn into_node(self) -> (r: Node)
        ensures
            r == Node::Url(self),
    {
        Node::Url(self)
    }
}

impl Verb {
    /// Wraps this node into the closed sum type.
    pub fn into_node(self) -> (r: Node)
        ensures
            r == Node::Verb(self),
    {
        Node::Verb(self)
    }
}

impl Atom {
    /// Wraps this node into the closed sum type.
    pub fn into_node(self) -> (r: Node)
        ensures
            r == Node::Atom(self),
    {
        Node::Atom(self)
    }
}

impl MathOrd {
    /// Wraps this node into the closed sum type.
    pub fn into_node(self) -> (r: Node)
        ensures
            r == Node::MathOrd(self),
    {
        Node::MathOrd(self)
    }
}

impl Spacing {
    /// Wraps this node into the closed sum type.
    pub fn into_node(self) -> (r: Node)
        ensures
            r == Node::Spacing(self),
    {
        Node::Spacing(self)
    }
}

impl TextOrd {
    /// Wraps this node into the closed sum type.
    pub fn into_node(self) -> (r: Node)
        ensures
            r == Node::TextOrd(self),
    {
        Node::TextOrd(self)
    }
}

impl AccentToken {
    /// Wraps this node into the closed sum type.
    pub fn into_node(self) -> (r: Node)
        ensures
            r == Node::AccentToken(self),
    {
        Node::AccentToken(self)
    }
}

impl OpToken {
    /// Wraps this node into the closed sum type.
    pub fn into_node(self) -> (r: Node)
        ensures
            r == Node::OpToken(self),
    {
        Node::OpToken(self)
    }
}

impl Accent {
    /// Wraps this node into the closed sum type.
    pub fn into_node(self) -> (r: Node)
        ensures
            r == Node::Accent(self),
    {
        Node::Accent(self)
    }
}

impl AccentUnder {
    /// Wraps this node into the closed sum type.
    pub fn into_node(self) -> (r: Node)
        ensures
            r == Node::AccentUnder(self),
    {
        Node::AccentUnder(self)
    }
}

impl Cr {
    /// Wraps this node into the closed sum type.
    pub fn into_node(self) -> (r: Node)
        ensures
            r == Node::Cr(self),
    {
        Node::Cr(self)
    }
}

impl DelimSizing {
    /// Wraps this node into the closed sum type.
    pub fn into_node(self) -> (r: Node)
        ensures
            r == Node::DelimSizing(self),
    {
        Node::DelimSizing(self)
    }
}

impl Enclose {
    /// Wraps this node into the closed sum type.
    pub fn into_node(self) -> (r: Node)
        ensures
            r == Node::Enclose(self),
    {
        Node::Enclose(self)
    }
}

impl Environment {
    /// Wraps this node into the closed sum type.
    pub fn into_node(self) -> (r: Node)
        ensures
            r == Node::Environment(self),
    {
        Node::Environment(self)
    }
}

impl Font {
    /// Wraps this node into the closed sum type.
    pub fn into_node(self) -> (r: Node)
        ensures
            r == Node::Font(self),
    {
        Node::Font(self)
    }
}

impl GenFrac {
    /// Wraps this node into the closed sum type.
    pub fn into_node(self) -> (r: Node)
        ensures
            r == Node::GenFrac(self),
    {
        Node::GenFrac(self)
    }
}

impl HBox {
    /// Wraps this node into the closed sum type.
    pub fn into_node(self) -> (r: Node)
        ensures
            r == Node::HBox(self),
    {
        Node::HBox(self)
    }
}

impl HorizBrace {
    /// Wraps this node into the closed sum type.
    pub fn into_node(self) -> (r: Node)
        ensures
            r == Node::HorizBrace(self),
    {
        Node::HorizBrace(self)
    }
}

impl HRef {
    /// Wraps this node into the closed sum type.
    pub fn into_node(self) -> (r: Node)
        ensures
            r == Node::HRef(self),
    {
        Node::HRef(self)
    }
}

impl Html {
    /// Wraps this node into the closed sum type.
    pub fn into_node(self) -> (r: Node)
        ensures
            r == Node::Html(self),
    {
        Node::Html(self)
    }
}

impl HtmlMathML {
    /// Wraps this node into the closed sum type.
    pub fn into_node(self) -> (r: Node)
        ensures
            r == Node::HtmlMathML(self),
    {
        Node::HtmlMathML(self)
    }
}

impl IncludeGraphics {
    /// Wraps this node into the closed sum type.
    pub fn into_node(self) -> (r: Node)
        ensures
            r == Node::IncludeGraphics(self),
    {
        Node::IncludeGraphics(self)
    }
}

impl Infix {
    /// Wraps this node into the closed sum type.
    pub fn into_node(self) -> (r: Node)
        ensures
            r == Node::Infix(self),
    {
        Node::Infix(self)
    }
}

impl Internal {
    /// Wraps this node into the closed sum type.
    pub fn into_node(self) -> (r: Node)
        ensures
            r == Node::Internal(self),
    {
        Node::Internal(self)
    }
}

impl Kern {
    /// Wraps this node into the closed sum type.
    pub fn into_node(self) -> (r: Node)
        ensures
            r == Node::Kern(self),
    {
        Node::Kern(self)
    }
}

impl Lap {
    /// Wraps this node into the closed sum type.
    pub fn into_node(self) -> (r: Node)
        ensures
            r == Node::Lap(self),
    {
        Node::Lap(self)
    }
}

impl LeftRight {
    /// Wraps this node into the closed sum type.
    pub fn into_node(self) -> (r: Node)
        ensures
            r == Node::LeftRight(self),
    {
        Node::LeftRight(self)
    }
}

impl LeftRightRight {
    /// Wraps this node into the closed sum type.
    pub fn into_node(self) -> (r: Node)
        ensures
            r == Node::LeftRightRight(self),
    {
        Node::LeftRightRight(self)
    }
}

impl MathChoice {
    /// Wraps this node into the closed sum type.
    pub fn into_node(self) -> (r: Node)
        ensures
            r == Node::MathChoice(self),
    {
        Node::MathChoice(self)
    }
}

impl Middle {
    /// Wraps this node into the closed sum type.
    pub fn into_node(self) -> (r: Node)
        ensures
            r == Node::Middle(self),
    {
        Node::Middle(self)
    }
}

impl MClass {
    /// Wraps this node into the closed sum type.
    pub fn into_node(self) -> (r: Node)
        ensures
            r == Node::MClass(self),
    {
        Node::MClass(self)
    }
}

impl OperatorName {
    /// Wraps this node into the closed sum type.
    pub fn into_node(self) -> (r: Node)
        ensures
            r == Node::OperatorName(self),
    {
        Node::OperatorName(self)
    }
}

impl Overline {
    /// Wraps this node into the closed sum type.
    pub fn into_node(self) -> (r: Node)
        ensures
            r == Node::Overline(self),
    {
        Node::Overline(self)
    }
}

impl Phantom {
    /// Wraps this node into the closed sum type.
    pub fn into_node(self) -> (r: Node)
        ensures
            r == Node::Phantom(self),
    {
        Node::Phantom(self)
    }
}

impl HPhantom {
    /// Wraps this node into the closed sum type.
    pub fn into_node(self) -> (r: Node)
        ensures
            r == Node::HPhantom(self),
    {
        Node::HPhantom(self)
    }
}

impl VPhantom {
    /// Wraps this node into the closed sum type.
    pub fn into_node(self) -> (r: Node)
        ensures
            r == Node::VPhantom(self),
    {
        Node::VPhantom(self)
    }
}

impl Pmb {
    /// Wraps this node into the closed sum type.
    pub fn into_node(self) -> (r: Node)
        ensures
            r == Node::Pmb(self),
    {
        Node::Pmb(self)
    }
}

impl RaiseBox {
    /// Wraps this node into the closed sum type.
    pub fn into_node(self) -> (r: Node)
        ensures
            r == Node::RaiseBox(self),
    {
        Node::RaiseBox(self)
    }
}

impl Rule {
    /// Wraps this node into the closed sum type.
    pub fn into_node(self) -> (r: Node)
        ensures
            r == Node::Rule(self),
    {
        Node::Rule(self)
    }
}

impl Sizing {
    /// Wraps this node into the closed sum type.
    pub fn into_node(self) -> (r: Node)
        ensures
            r == Node::Sizing(self),
    {
        Node::Sizing(self)
    }
}

impl Smash {
    /// Wraps this node into the closed sum type.
    pub fn into_node(self) -> (r: Node)
        ensures
            r == Node::Smash(self),
    {
        Node::Smash(self)
    }
}

impl Sqrt {
    /// Wraps this node into the closed sum type.
    pub fn into_node(self) -> (r: Node)
        ensures
            r == Node::Sqrt(self),
    {
        Node::Sqrt(self)
    }
}

impl Underline {
    /// Wraps this node into the closed sum type.
    pub fn into_node(self) -> (r: Node)
        ensures
            r == Node::Underline(self),
    {
        Node::Underline(self)
    }
}

impl VCenter {
    /// Wraps this node into the closed sum type.
    pub fn into_node(self) -> (r: Node)
        ensures
            r == Node::VCenter(self),
    {
        Node::VCenter(self)
    }
}

impl XArrow {
    /// Wraps this node into the closed sum type.
    pub fn into_node(self) -> (r: Node)
        ensures
            r == Node::XArrow(self),
    {
        Node::XArrow(self)
    }
}

/// View of an optional string.
pub open spec fn opt_string_view(o: Option<String>) -> Option<Seq<char>> {
    match o {
        Some(s) => Some(s@),
        None => None,
    }
}

/// View of an optional column-specification list.
pub open spec fn opt_align_specs_view(o: Option<Vec<AlignSpec>>) -> Option<Seq<AlignSpecV>> {
    match o {
        Some(v) => Some(v.deep_view()),
        None => None,
    }
}

/// View of one destination node.
pub open spec fn node_view(n: Node) -> NodeV
    decreases n,
{
    match n {
        Node::Array(s) => NodeV::Array { mode: s.mode, loc: s.loc, col_separation_type: s.col_separation_type, hskip_before_and_after: s.hskip_before_and_after, add_jot: s.add_jot, cols: opt_align_specs_view(s.cols), arraystretch_milli: s.arraystretch_milli, body: node_grid_view(s.body@), row_gaps: s.row_gaps.deep_view(), h_lines_before_row: s.h_lines_before_row.deep_view(), tags: opt_tags_view(s.tags), leqno: s.leqno, is_cd: s.is_cd },
        Node::CdLabel(s) => NodeV::CdLabel { mode: s.mode, loc: s.loc, side: s.side@, label: Box::new(node_view(*s.label)) },
        Node::CdLabelParent(s) => NodeV::CdLabelParent { mode: s.mode, loc: s.loc, side: s.side@, label: Box::new(node_view(*s.label)) },
        Node::Color(s) => NodeV::Color { mode: s.mode, loc: s.loc, color: s.color@, body: node_list_view(s.body@) },
        Node::ColorToken(s) => NodeV::ColorToken { mode: s.mode, loc: s.loc, color: s.color@ },
        Node::Op(s) => NodeV::Op { mode: s.mode, loc: s.loc, limits: s.limits, always_handle_sup_sub: s.always_handle_sup_sub, suppress_base_shift: s.suppress_base_shift, parent_is_sup_sub: s.parent_is_sup_sub, symbol: s.symbol, name: opt_string_view(s.name), body: opt_node_list_view(s.body) },
        Node::OrdGroup(s) => NodeV::OrdGroup { mode: s.mode, loc: s.loc, body: node_list_view(s.body@), semisimple: s.semisimple },
        Node::Raw(s) => NodeV::Raw { mode: s.mode, loc: s.loc, string: s.string@ },
        Node::Size(s) => NodeV::Size { mode: s.mode, loc: s.loc, value: s.value.deep_view(), is_blank: s.is_blank },
        Node::Styling(s) => NodeV::Styling { mode: s.mode, loc: s.loc, style: s.style, body: node_list_view(s.body@) },
        Node::SupSub(s) => NodeV::SupSub { mode: s.mode, loc: s.loc, base: opt_box_node_view(s.base), sup: opt_box_node_view(s.sup), sub: opt_box_node_view(s.sub) },
        Node::Tag(s) => NodeV::Tag { mode: s.mode, loc: s.loc, body: node_list_view(s.body@), tag: node_list_view(s.tag@) },
        Node::Text(s) => NodeV::Text { mode: s.mode, loc: s.loc, body: node_list_view(s.body@), font: opt_string_view(s.font) },
        Node::Url(s) => NodeV::Url { mode: s.mode, loc: s.loc, url: s.url@ },
        Node::Verb(s) => NodeV::Verb { mode: s.mode, loc: s.loc, body: s.body@, star: s.star },
        Node::Atom(s) => NodeV::Atom { family: s.family, mode: s.mode, loc: s.loc, text: s.text@ },
        Node::MathOrd(s) => NodeV::MathOrd { mode: s.mode, loc: s.loc, text: s.text@ },
        Node::Spacing(s) => NodeV::Spacing { mode: s.mode, loc: s.loc, text: s.text@ },
        Node::TextOrd(s) => NodeV::TextOrd { mode: s.mode, loc: s.loc, text: s.text@ },
        Node::AccentToken(s) => NodeV::AccentToken { mode: s.mode, loc: s.loc, text: s.text@ },
        Node::OpToken(s) => NodeV::OpToken { mode: s.mode, loc: s.loc, text: s.text@ },
        Node::Accent(s) => NodeV::Accent { mode: s.mode, loc: s.loc, label: s.label@, is_stretchy: s.is_stretchy, is_shifty: s.is_shifty, base: Box::new(node_view(*s.base)) },
        Node::AccentUnder(s) => NodeV::AccentUnder { mode: s.mode, loc: s.loc, label: s.label@, is_stretchy: s.is_stretchy, is_shifty: s.is_shifty, base: Box::new(node_view(*s.base)) },
        Node::Cr(s) => NodeV::Cr { mode: s.mode, loc: s.loc, new_line: s.new_line, size: s.size.deep_view() },
        Node::DelimSizing(s) => NodeV::DelimSizing { mode: s.mode, loc: s.loc, size: s.size, mclass: s.mclass, delim: s.delim@ },
        Node::Enclose(s) => NodeV::Enclose { mode: s.mode, loc: s.loc, label: s.label@, background_color: opt_string_view(s.background_color), border_color: opt_string_view(s.border_color), body: Box::new(node_view(*s.body)) },
        Node::Environment(s) => NodeV::Environment { mode: s.mode, loc: s.loc, name: s.name@, name_group: Box::new(node_view(*s.name_group)) },
        Node::Font(s) => NodeV::Font { mode: s.mode, loc: s.loc, font: s.font@, body: Box::new(node_view(*s.body)) },
        Node::GenFrac(s) => NodeV::GenFrac { mode: s.mode, loc: s.loc, continued: s.continued, numer: Box::new(node_view(*s.numer)), denom: Box::new(node_view(*s.denom)), has_bar_line: s.has_bar_line, left_delim: opt_string_view(s.left_delim), right_delim: opt_string_view(s.right_delim), size: s.size, bar_size: s.bar_size.deep_view() },
        Node::HBox(s) => NodeV::HBox { mode: s.mode, loc: s.loc, body: node_list_view(s.body@) },
        Node::HorizBrace(s) => NodeV::HorizBrace { mode: s.mode, loc: s.loc, label: s.label@, is_over: s.is_over, base: Box::new(node_view(*s.base)) },
        Node::HRef(s) => NodeV::HRef { mode: s.mode, loc: s.loc, href: s.href@, body: node_list_view(s.body@) },
        Node::Html(s) => NodeV::Html { mode: s.mode, loc: s.loc, attributes: s.attributes.deep_view(), body: node_list_view(s.body@) },
        Node::HtmlMathML(s) => NodeV::HtmlMathML { mode: s.mode, loc: s.loc, html: node_list_view(s.html@), mathml: node_list_view(s.mathml@) },
        Node::IncludeGraphics(s) => NodeV::IncludeGraphics { mode: s.mode, loc: s.loc, alt: s.alt@, width: s.width.deep_view(), height: s.height.deep_view(), total_height: s.total_height.deep_view(), src: s.src@ },
        Node::Infix(s) => NodeV::Infix { mode: s.mode, loc: s.loc, replace_with: s.replace_with@, size: s.size.deep_view(), token: s.token.deep_view() },
        Node::Internal(s) => NodeV::Internal { mode: s.mode, loc: s.loc },
        Node::Kern(s) => NodeV::Kern { mode: s.mode, loc: s.loc, dimension: s.dimension.deep_view() },
        Node::Lap(s) => NodeV::Lap { mode: s.mode, loc: s.loc, alignment: s.alignment@, body: Box::new(node_view(*s.body)) },
        Node::LeftRight(s) => NodeV::LeftRight { mode: s.mode, loc: s.loc, body: node_list_view(s.body@), left: s.left@, right: s.right@, right_color: opt_string_view(s.right_color) },
        Node::LeftRightRight(s) => NodeV::LeftRightRight { mode: s.mode, loc: s.loc, delim: s.delim@, color: opt_string_view(s.color) },
        Node::MathChoice(s) => NodeV::MathChoice { mode: s.mode, loc: s.loc, display: node_list_view(s.display@), text: node_list_view(s.text@), script: node_list_view(s.script@), scriptscript: node_list_view(s.scriptscript@) },
        Node::Middle(s) => NodeV::Middle { mode: s.mode, loc: s.loc, delim: s.delim@ },
        Node::MClass(s) => NodeV::MClass { mode: s.mode, loc: s.loc, mclass: s.mclass@, body: node_list_view(s.body@), is_character_box: s.is_character_box },
        Node::OperatorName(s) => NodeV::OperatorName { mode: s.mode, loc: s.loc, body: node_list_view(s.body@), always_handle_sup_sub: s.always_handle_sup_sub, limits: s.limits, parent_is_sup_sub: s.parent_is_sup_sub },
        Node::Overline(s) => NodeV::Overline { mode: s.mode, loc: s.loc, body: Box::new(node_view(*s.body)) },
        Node::Phantom(s) => NodeV::Phantom { mode: s.mode, loc: s.loc, body: node_list_view(s.body@) },
        Node::HPhantom(s) => NodeV::HPhantom { mode: s.mode, loc: s.loc, body: Box::new(node_view(*s.body)) },
        Node::VPhantom(s) => NodeV::VPhantom { mode: s.mode, loc: s.loc, body: Box::new(node_view(*s.body)) },
        Node::Pmb(s) => NodeV::Pmb { mode: s.mode, loc: s.loc, mclass: s.mclass@, body: node_list_view(s.body@) },
        Node::RaiseBox(s) => NodeV::RaiseBox { mode: s.mode, loc: s.loc, dy: s.dy.deep_view(), body: Box::new(node_view(*s.body)) },
        Node::Rule(s) => NodeV::Rule { mode: s.mode, loc: s.loc, shift: s.shift.deep_view(), width: s.width.deep_view(), height: s.height.deep_view() },
        Node::Sizing(s) => NodeV::Sizing { mode: s.mode, loc: s.loc, size_milli: s.size_milli, body: node_list_view(s.body@) },
        Node::Smash(s) => NodeV::Smash { mode: s.mode, loc: s.loc, body: node_list_view(s.body@), smash_height: s.smash_height, smash_depth: s.smash_depth },
        Node::Sqrt(s) => NodeV::Sqrt { mode: s.mode, loc: s.loc, body: Box::new(node_view(*s.body)), index: opt_box_node_view(s.index) },
        Node::Underline(s) => NodeV::Underline { mode: s.mode, loc: s.loc, body: Box::new(node_view(*s.body)) },
        Node::VCenter(s) => NodeV::VCenter { mode: s.mode, loc: s.loc, body: Box::new(node_view(*s.body)) },
        Node::XArrow(s) => NodeV::XArrow { mode: s.mode, loc: s.loc, label: s.label@, body: Box::new(node_view(*s.body)), below: opt_box_node_view(s.below) },
    }
}

/// View of a run of destination nodes, element by element and in order.
pub open spec fn node_list_view(ns: Seq<Node>) -> Seq<NodeV>
    decreases ns,
{
    if ns.len() == 0 {
        Seq::empty()
    } else {
        node_list_view(ns.drop_last()).push(node_view(ns.last()))
    }
}

/// View of a grid of destination nodes, row by row.
pub open spec fn node_grid_view(g: Seq<Vec<Node>>) -> Seq<Seq<NodeV>>
    decreases g,
{
    if g.len() == 0 {
        Seq::empty()
    } else {
        node_grid_view(g.drop_last()).push(node_list_view(g.last()@))
    }
}

/// View of an optional boxed node.
pub open spec fn opt_box_node_view(o: Option<Box<Node>>) -> Option<Box<NodeV>>
    decreases o,
{
    match o {
        Some(b) => Some(Box::new(node_view(*b))),
        None => None,
    }
}

/// View of an optional run of destination nodes.
pub open spec fn opt_node_list_view(o: Option<Vec<Node>>) -> Option<Seq<NodeV>>
    decreases o,
{
    match o {
        Some(v) => Some(node_list_view(v@)),
        None => None,
    }
}

/// View of one tag entry.
pub open spec fn tag_view(t: TagType) -> TagTypeV
    decreases t,
{
    match t {
        TagType::Bool(b) => TagTypeV::Bool(b),
        TagType::NodeArray(ns) => TagTypeV::NodeArray(node_list_view(ns@)),
    }
}

/// View of a list of tag entries.
pub open spec fn tag_list_view(ts: Seq<TagType>) -> Seq<TagTypeV>
    decreases ts,
{
    if ts.len() == 0 {
        Seq::empty()
    } else {
        tag_list_view(ts.drop_last()).push(tag_view(ts.last()))
    }
}

/// View of an optional list of tag entries.
pub open spec fn opt_tags_view(o: Option<Vec<TagType>>) -> Option<Seq<TagTypeV>>
    decreases o,
{
    match o {
        Some(v) => Some(tag_list_view(v@)),
        None => None,
    }
}

impl DeepView for Node {
    type V = NodeV;

    open spec fn deep_view(&self) -> NodeV {
        node_view(*self)
    }
}

/// The view of a list commutes with appending one node.
pub broadcast proof fn lemma_node_list_view_push(ns: Seq<Node>, n: Node)
    ensures
        #[trigger] node_list_view(ns.push(n)) == node_list_view(ns).push(node_view(n)),
{
    assert(ns.push(n).drop_last() =~= ns);
    assert(ns.push(n).last() == n);
}

/// The view of a list determines its length and its elements.
pub proof fn lemma_node_list_view_index(ns: Seq<Node>)
    ensures
        node_list_view(ns).len() == ns.len(),
        forall|i: int| 0 <= i < ns.len() ==> node_list_view(ns)[i] == node_view(#[trigger] ns[i]),
    decreases ns,
{
    if ns.len() > 0 {
        lemma_node_list_view_index(ns.drop_last());
        assert forall|i: int| 0 <= i < ns.len() implies node_list_view(ns)[i] == node_view(
            #[trigger] ns[i],
        ) by {
            if i < ns.len() - 1 {
                assert(ns.drop_last()[i] == ns[i]);
            } else {
                assert(ns.last() == ns[i]);
            }
        }
    }
}

/// The view of a list commutes with concatenation.
pub proof fn lemma_node_list_view_concat(a: Seq<Node>, b: Seq<Node>)
    ensures
        node_list_view(a + b) == node_list_view(a) + node_list_view(b),
    decreases b,
{
    if b.len() == 0 {
        assert(a + b =~= a);
        assert(node_list_view(a) + node_list_view(b) =~= node_list_view(a));
    } else {
        lemma_node_list_view_concat(a, b.drop_last());
        assert((a + b).drop_last() =~= a + b.drop_last());
        assert((a + b).last() == b.last());
        assert(node_list_view(a) + node_list_view(b)
            =~= (node_list_view(a) + node_list_view(b.drop_last())).push(node_view(b.last())));
    }
}

/// The view of a grid commutes with appending one row.
pub broadcast proof fn lemma_node_grid_view_push(g: Seq<Vec<Node>>, row: Vec<Node>)
    ensures
        #[trigger] node_grid_view(g.push(row)) == node_grid_view(g).push(node_list_view(row@)),
{
    assert(g.push(row).drop_last() =~= g);
    assert(g.push(row).last() == row);
}

/// The view of a grid determines its length and its rows.
pub proof fn lemma_node_grid_view_index(g: Seq<Vec<Node>>)
    ensures
        node_grid_view(g).len() == g.len(),
        forall|i: int| 0 <= i < g.len() ==> node_grid_view(g)[i] == node_list_view(#[trigger] g[i]@),
    decreases g,
{
    if g.len() > 0 {
        lemma_node_grid_view_index(g.drop_last());
        assert forall|i: int| 0 <= i < g.len() implies node_grid_view(g)[i] == node_list_view(
            #[trigger] g[i]@,
        ) by {
            if i < g.len() - 1 {
                assert(g.drop_last()[i] == g[i]);
            } else {
                assert(g.last() == g[i]);
            }
        }
    }
}

/// Copies an optional string.
fn dup_opt_string(o: &Option<String>) -> (r: Option<String>)
    ensures
        opt_string_view(r) == opt_string_view(*o),
{
    match o {
        Some(s) => Some(s.clone()),
        None => None,
    }
}

/// Copies a measurement.
fn dup_measurement(m: &Measurement) -> (r: Measurement)
    ensures
        r.deep_view() == m.deep_view(),
{
    Measurement { number_milli: m.number_milli, unit: m.unit.clone() }
}

/// Copies an optional measurement.
fn dup_opt_measurement(m: &Option<Measurement>) -> (r: Option<Measurement>)
    ensures
        r.deep_view() == m.deep_view(),
{
    match m {
        Some(x) => Some(dup_measurement(x)),
        None => None,
    }
}

/// Copies one column specification.
fn dup_align_spec(a: &AlignSpec) -> (r: AlignSpec)
    ensures
        r.deep_view() == a.deep_view(),
{
    match a {
        AlignSpec::Separator(s) => AlignSpec::Separator(
            crate::katex::types::Separator { separator: s.separator.clone() },
        ),
        AlignSpec::Align(al) => AlignSpec::Align(
            crate::katex::types::Align {
                align: al.align.clone(),
                pregap_milli: al.pregap_milli,
                postgap_milli: al.postgap_milli,
            },
        ),
    }
}

/// Copies an optional column-specification list.
#[verifier::loop_isolation(false)]
fn dup_opt_align_specs(o: &Option<Vec<AlignSpec>>) -> (r: Option<Vec<AlignSpec>>)
    ensures
        opt_align_specs_view(r) == opt_align_specs_view(*o),
{
    match o {
        Some(v) => {
            let mut out: Vec<AlignSpec> = Vec::new();
            let mut i: usize = 0;
            while i < v.len()
                invariant
                    i <= v.len(),
                    out@.len() == i,
                    forall|j: int| 0 <= j < i ==> #[trigger] out@[j].deep_view() == v@[j].deep_view(),
                decreases v.len() - i,
            {
                out.push(dup_align_spec(&v[i]));
                i += 1;
            }
            assert(out.deep_view() =~= v.deep_view());
            Some(out)
        },
        None => None,
    }
}

/// Copies the per-row gap list of an array node.
#[verifier::loop_isolation(false)]
fn dup_row_gaps(o: &Vec<Option<Measurement>>) -> (r: Vec<Option<Measurement>>)
    ensures
        r.deep_view() == o.deep_view(),
{
    let mut out: Vec<Option<Measurement>> = Vec::new();
    let mut i: usize = 0;
    while i < o.len()
        invariant
            i <= o.len(),
            out@.len() == i,
            forall|j: int| 0 <= j < i ==> #[trigger] out@[j].deep_view() == o@[j].deep_view(),
        decreases o.len() - i,
    {
        out.push(dup_opt_measurement(&o[i]));
        i += 1;
    }
    assert(out.deep_view() =~= o.deep_view());
    out
}

/// Copies one row of horizontal-rule markers.
#[verifier::loop_isolation(false)]
fn dup_bool_row(o: &Vec<bool>) -> (r: Vec<bool>)
    ensures
        r@ == o@,
{
    let mut out: Vec<bool> = Vec::new();
    let mut i: usize = 0;
    while i < o.len()
        invariant
            i <= o.len(),
            out@ =~= o@.subrange(0, i as int),
        decreases o.len() - i,
    {
        out.push(o[i]);
        i += 1;
    }
    assert(out@ =~= o@);
    out
}

/// Copies the horizontal-rule marker grid of an array node.
#[verifier::loop_isolation(false)]
fn dup_bool_grid(o: &Vec<Vec<bool>>) -> (r: Vec<Vec<bool>>)
    ensures
        r.deep_view() == o.deep_view(),
{
    let mut out: Vec<Vec<bool>> = Vec::new();
    let mut i: usize = 0;
    while i < o.len()
        invariant
            i <= o.len(),
            out@.len() == i,
            forall|j: int| 0 <= j < i ==> #[trigger] out@[j].deep_view() == o@[j].deep_view(),
        decreases o.len() - i,
    {
        let row = dup_bool_row(&o[i]);
        proof {
            assert(row.deep_view() =~= o@[i as int].deep_view());
        }
        out.push(row);
        i += 1;
    }
    assert(out.deep_view() =~= o.deep_view());
    out
}

/// Copies an optional token.
fn dup_opt_token(o: &Option<Token>) -> (r: Option<Token>)
    ensures
        r.deep_view() == o.deep_view(),
{
    match o {
        Some(t) => Some(Token {
            text: t.text.clone(),
            loc: t.loc,
            noexpand: t.noexpand,
            treat_as_relax: t.treat_as_relax,
        }),
        None => None,
    }
}

/// Copies an attribute list.
#[verifier::loop_isolation(false)]
fn dup_attrs(o: &Vec<(String, String)>) -> (r: Vec<(String, String)>)
    ensures
        r.deep_view() == o.deep_view(),
{
    let mut out: Vec<(String, String)> = Vec::new();
    let mut i: usize = 0;
    while i < o.len()
        invariant
            i <= o.len(),
            out@.len() == i,
            forall|j: int| 0 <= j < i ==> #[trigger] out@[j].deep_view() == o@[j].deep_view(),
        decreases o.len() - i,
    {
        let pair = (o[i].0.clone(), o[i].1.clone());
        proof {
            assert(pair.deep_view() == o@[i as int].deep_view());
        }
        out.push(pair);
        i += 1;
    }
    assert(out.deep_view() =~= o.deep_view());
    out
}

// What the view of each node kind unfolds to. Stating these once keeps the
// large definition of `node_view` out of every later proof.
/// The view of a node of this kind, field by field.
pub broadcast proof fn lemma_node_view_array(s: Array)
    ensures
        #[trigger] node_view(Node::Array(s)) == (NodeV::Array { mode: s.mode, loc: s.loc, col_separation_type: s.col_separation_type, hskip_before_and_after: s.hskip_before_and_after, add_jot: s.add_jot, cols: opt_align_specs_view(s.cols), arraystretch_milli: s.arraystretch_milli, body: node_grid_view(s.body@), row_gaps: s.row_gaps.deep_view(), h_lines_before_row: s.h_lines_before_row.deep_view(), tags: opt_tags_view(s.tags), leqno: s.leqno, is_cd: s.is_cd }),
{
}

/// The view of a node of this kind, field by field.
pub broadcast proof fn lemma_node_view_cd_label(s: CdLabel)
    ensures
        #[trigger] node_view(Node::CdLabel(s)) == (NodeV::CdLabel { mode: s.mode, loc: s.loc, side: s.side@, label: Box::new(node_view(*s.label)) }),
{
}

/// The view of a node of this kind, field by field.
pub broadcast proof fn lemma_node_view_cd_label_parent(s: CdLabelParent)
    ensures
        #[trigger] node_view(Node::CdLabelParent(s)) == (NodeV::CdLabelParent { mode: s.mode, loc: s.loc, side: s.side@, label: Box::new(node_view(*s.label)) }),
{
}

/// The view of a node of this kind, field by field.
pub broadcast proof fn lemma_node_view_color(s: Color)
    ensures
        #[trigger] node_view(Node::Color(s)) == (NodeV::Color { mode: s.mode, loc: s.loc, color: s.color@, body: node_list_view(s.body@) }),
{
}

/// The view of a node of this kind, field by field.
pub broadcast proof fn lemma_node_view_color_token(s: ColorToken)
    ensures
        #[trigger] node_view(Node::ColorToken(s)) == (NodeV::ColorToken { mode: s.mode, loc: s.loc, color: s.color@ }),
{
}

/// The view of a node of this kind, field by field.
pub broadcast proof fn lemma_node_view_op(s: Op)
    ensures
        #[trigger] node_view(Node::Op(s)) == (NodeV::Op { mode: s.mode, loc: s.loc, limits: s.limits, always_handle_sup_sub: s.always_handle_sup_sub, suppress_base_shift: s.suppress_base_shift, parent_is_sup_sub: s.parent_is_sup_sub, symbol: s.symbol, name: opt_string_view(s.name), body: opt_node_list_view(s.body) }),
{
}

/// The view of a node of this kind, field by field.
pub broadcast proof fn lemma_node_view_ord_group(s: OrdGroup)
    ensures
        #[trigger] node_view(Node::OrdGroup(s)) == (NodeV::OrdGroup { mode: s.mode, loc: s.loc, body: node_list_view(s.body@), semisimple: s.semisimple }),
{
}

/// The view of a node of this kind, field by field.
pub broadcast proof fn lemma_node_view_raw(s: Raw)
    ensures
        #[trigger] node_view(Node::Raw(s)) == (NodeV::Raw { mode: s.mode, loc: s.loc, string: s.string@ }),
{
}

/// The view of a node of this kind, field by field.
pub broadcast proof fn lemma_node_view_size(s: Size)
    ensures
        #[trigger] node_view(Node::Size(s)) == (NodeV::Size { mode: s.mode, loc: s.loc, value: s.value.deep_view(), is_blank: s.is_blank }),
{
}

/// The view of a node of this kind, field by field.
pub broadcast proof fn lemma_node_view_styling(s: Styling)
    ensures
        #[trigger] node_view(Node::Styling(s)) == (NodeV::Styling { mode: s.mode, loc: s.loc, style: s.style, body: node_list_view(s.body@) }),
{
}

/// The view of a node of this kind, field by field.
pub broadcast proof fn lemma_node_view_sup_sub(s: SupSub)
    ensures
        #[trigger] node_view(Node::SupSub(s)) == (NodeV::SupSub { mode: s.mode, loc: s.loc, base: opt_box_node_view(s.base), sup: opt_box_node_view(s.sup), sub: opt_box_node_view(s.sub) }),
{
}

/// The view of a node of this kind, field by field.
pub broadcast proof fn lemma_node_view_tag(s: Tag)
    ensures
        #[trigger] node_view(Node::Tag(s)) == (NodeV::Tag { mode: s.mode, loc: s.loc, body: node_list_view(s.body@), tag: node_list_view(s.tag@) }),
{
}

/// The view of a node of this kind, field by field.
pub broadcast proof fn lemma_node_view_text(s: Text)
    ensures
        #[trigger] node_view(Node::Text(s)) == (NodeV::Text { mode: s.mode, loc: s.loc, body: node_list_view(s.body@), font: opt_string_view(s.font) }),
{
}

/// The view of a node of this kind, field by field.
pub broadcast proof fn lemma_node_view_url(s: Url)
    ensures
        #[trigger] node_view(Node::Url(s)) == (NodeV::Url { mode: s.mode, loc: s.loc, url: s.url@ }),
{
}

/// The view of a node of this kind, field by field.
pub broadcast proof fn lemma_node_view_verb(s: Verb)
    ensures
        #[trigger] node_view(Node::Verb(s)) == (NodeV::Verb { mode: s.mode, loc: s.loc, body: s.body@, star: s.star }),
{
}

/// The view of a node of this kind, field by field.
pub broadcast proof fn lemma_node_view_atom(s: Atom)
    ensures
        #[trigger] node_view(Node::Atom(s)) == (NodeV::Atom { family: s.family, mode: s.mode, loc: s.loc, text: s.text@ }),
{
}

/// The view of a node of this kind, field by field.
pub broadcast proof fn lemma_node_view_math_ord(s: MathOrd)
    ensures
        #[trigger] node_view(Node::MathOrd(s)) == (NodeV::MathOrd { mode: s.mode, loc: s.loc, text: s.text@ }),
{
}

/// The view of a node of this kind, field by field.
pub broadcast proof fn lemma_node_view_spacing(s: Spacing)
    ensures
        #[trigger] node_view(Node::Spacing(s)) == (NodeV::Spacing { mode: s.mode, loc: s.loc, text: s.text@ }),
{
}

/// The view of a node of this kind, field by field.
pub broadcast proof fn lemma_node_view_text_ord(s: TextOrd)
    ensures
        #[trigger] node_view(Node::TextOrd(s)) == (NodeV::TextOrd { mode: s.mode, loc: s.loc, text: s.text@ }),
{
}

/// The view of a node of this kind, field by field.
pub broadcast proof fn lemma_node_view_accent_token(s: AccentToken)
    ensures
        #[trigger] node_view(Node::AccentToken(s)) == (NodeV::AccentToken { mode: s.mode, loc: s.loc, text: s.text@ }),
{
}

/// The view of a node of this kind, field by field.
pub broadcast proof fn lemma_node_view_op_token(s: OpToken)
    ensures
        #[trigger] node_view(Node::OpToken(s)) == (NodeV::OpToken { mode: s.mode, loc: s.loc, text: s.text@ }),
{
}

/// The view of a node of this kind, field by field.
pub broadcast proof fn lemma_node_view_accent(s: Accent)
    ensures
        #[trigger] node_view(Node::Accent(s)) == (NodeV::Accent { mode: s.mode, loc: s.loc, label: s.label@, is_stretchy: s.is_stretchy, is_shifty: s.is_shifty, base: Box::new(node_view(*s.base)) }),
{
}

/// The view of a node of this kind, field by field.
pub broadcast proof fn lemma_node_view_accent_under(s: AccentUnder)
    ensures
        #[trigger] node_view(Node::AccentUnder(s)) == (NodeV::AccentUnder { mode: s.mode, loc: s.loc, label: s.label@, is_stretchy: s.is_stretchy, is_shifty: s.is_shifty, base: Box::new(node_view(*s.base)) }),
{
}

/// The view of a node of this kind, field by field.
pub broadcast proof fn lemma_node_view_cr(s: Cr)
    ensures
        #[trigger] node_view(Node::Cr(s)) == (NodeV::Cr { mode: s.mode, loc: s.loc, new_line: s.new_line, size: s.size.deep_view() }),
{
}

/// The view of a node of this kind, field by field.
pub broadcast proof fn lemma_node_view_delim_sizing(s: DelimSizing)
    ensures
        #[trigger] node_view(Node::DelimSizing(s)) == (NodeV::DelimSizing { mode: s.mode, loc: s.loc, size: s.size, mclass: s.mclass, delim: s.delim@ }),
{
}

/// The view of a node of this kind, field by field.
pub broadcast proof fn lemma_node_view_enclose(s: Enclose)
    ensures
        #[trigger] node_view(Node::Enclose(s)) == (NodeV::Enclose { mode: s.mode, loc: s.loc, label: s.label@, background_color: opt_string_view(s.background_color), border_color: opt_string_view(s.border_color), body: Box::new(node_view(*s.body)) }),
{
}

/// The view of a node of this kind, field by field.
pub broadcast proof fn lemma_node_view_environment(s: Environment)
    ensures
        #[trigger] node_view(Node::Environment(s)) == (NodeV::Environment { mode: s.mode, loc: s.loc, name: s.name@, name_group: Box::new(node_view(*s.name_group)) }),
{
}

/// The view of a node of this kind, field by field.
pub broadcast proof fn lemma_node_view_font(s: Font)
    ensures
        #[trigger] node_view(Node::Font(s)) == (NodeV::Font { mode: s.mode, loc: s.loc, font: s.font@, body: Box::new(node_view(*s.body)) }),
{
}

/// The view of a node of this kind, field by field.
pub broadcast proof fn lemma_node_view_gen_frac(s: GenFrac)
    ensures
        #[trigger] node_view(Node::GenFrac(s)) == (NodeV::GenFrac { mode: s.mode, loc: s.loc, continued: s.continued, numer: Box::new(node_view(*s.numer)), denom: Box::new(node_view(*s.denom)), has_bar_line: s.has_bar_line, left_delim: opt_string_view(s.left_delim), right_delim: opt_string_view(s.right_delim), size: s.size, bar_size: s.bar_size.deep_view() }),
{
}

/// The view of a node of this kind, field by field.
pub broadcast proof fn lemma_node_view_h_box(s: HBox)
    ensures
        #[trigger] node_view(Node::HBox(s)) == (NodeV::HBox { mode: s.mode, loc: s.loc, body: node_list_view(s.body@) }),
{
}

/// The view of a node of this kind, field by field.
pub broadcast proof fn lemma_node_view_horiz_brace(s: HorizBrace)
    ensures
        #[trigger] node_view(Node::HorizBrace(s)) == (NodeV::HorizBrace { mode: s.mode, loc: s.loc, label: s.label@, is_over: s.is_over, base: Box::new(node_view(*s.base)) }),
{
}

/// The view of a node of this kind, field by field.
pub broadcast proof fn lemma_node_view_h_ref(s: HRef)
    ensures
        #[trigger] node_view(Node::HRef(s)) == (NodeV::HRef { mode: s.mode, loc: s.loc, href: s.href@, body: node_list_view(s.body@) }),
{
}

/// The view of a node of this kind, field by field.
pub broadcast proof fn lemma_node_view_html(s: Html)
    ensures
        #[trigger] node_view(Node::Html(s)) == (NodeV::Html { mode: s.mode, loc: s.loc, attributes: s.attributes.deep_view(), body: node_list_view(s.body@) }),
{
}

/// The view of a node of this kind, field by field.
pub broadcast proof fn lemma_node_view_html_math_ml(s: HtmlMathML)
    ensures
        #[trigger] node_view(Node::HtmlMathML(s)) == (NodeV::HtmlMathML { mode: s.mode, loc: s.loc, html: node_list_view(s.html@), mathml: node_list_view(s.mathml@) }),
{
}

/// The view of a node of this kind, field by field.
pub broadcast proof fn lemma_node_view_include_graphics(s: IncludeGraphics)
    ensures
        #[trigger] node_view(Node::IncludeGraphics(s)) == (NodeV::IncludeGraphics { mode: s.mode, loc: s.loc, alt: s.alt@, width: s.width.deep_view(), height: s.height.deep_view(), total_height: s.total_height.deep_view(), src: s.src@ }),
{
}

/// The view of a node of this kind, field by field.
pub broadcast proof fn lemma_node_view_infix(s: Infix)
    ensures
        #[trigger] node_view(Node::Infix(s)) == (NodeV::Infix { mode: s.mode, loc: s.loc, replace_with: s.replace_with@, size: s.size.deep_view(), token: s.token.deep_view() }),
{
}

/// The view of a node of this kind, field by field.
pub broadcast proof fn lemma_node_view_internal(s: Internal)
    ensures
        #[trigger] node_view(Node::Internal(s)) == (NodeV::Internal { mode: s.mode, loc: s.loc }),
{
}

/// The view of a node of this kind, field by field.
pub broadcast proof fn lemma_node_view_kern(s: Kern)
    ensures
        #[trigger] node_view(Node::Kern(s)) == (NodeV::Kern { mode: s.mode, loc: s.loc, dimension: s.dimension.deep_view() }),
{
}

/// The view of a node of this kind, field by field.
pub broadcast proof fn lemma_node_view_lap(s: Lap)
    ensures
        #[trigger] node_view(Node::Lap(s)) == (NodeV::Lap { mode: s.mode, loc: s.loc, alignment: s.alignment@, body: Box::new(node_view(*s.body)) }),
{
}

/// The view of a node of this kind, field by field.
pub broadcast proof fn lemma_node_view_left_right(s: LeftRight)
    ensures
        #[trigger] node_view(Node::LeftRight(s)) == (NodeV::LeftRight { mode: s.mode, loc: s.loc, body: node_list_view(s.body@), left: s.left@, right: s.right@, right_color: opt_string_view(s.right_color) }),
{
}

/// The view of a node of this kind, field by field.
pub broadcast proof fn lemma_node_view_left_right_right(s: LeftRightRight)
    ensures
        #[trigger] node_view(Node::LeftRightRight(s)) == (NodeV::LeftRightRight { mode: s.mode, loc: s.loc, delim: s.delim@, color: opt_string_view(s.color) }),
{
}

/// The view of a node of this kind, field by field.
pub broadcast proof fn lemma_node_view_math_choice(s: MathChoice)
    ensures
        #[trigger] node_view(Node::MathChoice(s)) == (NodeV::MathChoice { mode: s.mode, loc: s.loc, display: node_list_view(s.display@), text: node_list_view(s.text@), script: node_list_view(s.script@), scriptscript: node_list_view(s.scriptscript@) }),
{
}

/// The view of a node of this kind, field by field.
pub broadcast proof fn lemma_node_view_middle(s: Middle)
    ensures
        #[trigger] node_view(Node::Middle(s)) == (NodeV::Middle { mode: s.mode, loc: s.loc, delim: s.delim@ }),
{
}

/// The view of a node of this kind, field by field.
pub broadcast proof fn lemma_node_view_m_class(s: MClass)
    ensures
        #[trigger] node_view(Node::MClass(s)) == (NodeV::MClass { mode: s.mode, loc: s.loc, mclass: s.mclass@, body: node_list_view(s.body@), is_character_box: s.is_character_box }),
{
}

/// The view of a node of this kind, field by field.
pub broadcast proof fn lemma_node_view_operator_name(s: OperatorName)
    ensures
        #[trigger] node_view(Node::OperatorName(s)) == (NodeV::OperatorName { mode: s.mode, loc: s.loc, body: node_list_view(s.body@), always_handle_sup_sub: s.always_handle_sup_sub, limits: s.limits, parent_is_sup_sub: s.parent_is_sup_sub }),
{
}

/// The view of a node of this kind, field by field.
pub broadcast proof fn lemma_node_view_overline(s: Overline)
    ensures
        #[trigger] node_view(Node::Overline(s)) == (NodeV::Overline { mode: s.mode, loc: s.loc, body: Box::new(node_view(*s.body)) }),
{
}

/// The view of a node of this kind, field by field.
pub broadcast proof fn lemma_node_view_phantom(s: Phantom)
    ensures
        #[trigger] node_view(Node::Phantom(s)) == (NodeV::Phantom { mode: s.mode, loc: s.loc, body: node_list_view(s.body@) }),
{
}

/// The view of a node of this kind, field by field.
pub broadcast proof fn lemma_node_view_h_phantom(s: HPhantom)
    ensures
        #[trigger] node_view(Node::HPhantom(s)) == (NodeV::HPhantom { mode: s.mode, loc: s.loc, body: Box::new(node_view(*s.body)) }),
{
}

/// The view of a node of this kind, field by field.
pub broadcast proof fn lemma_node_view_v_phantom(s: VPhantom)
    ensures
        #[trigger] node_view(Node::VPhantom(s)) == (NodeV::VPhantom { mode: s.mode, loc: s.loc, body: Box::new(node_view(*s.body)) }),
{
}

/// The view of a node of this kind, field by field.
pub broadcast proof fn lemma_node_view_pmb(s: Pmb)
    ensures
        #[trigger] node_view(Node::Pmb(s)) == (NodeV::Pmb { mode: s.mode, loc: s.loc, mclass: s.mclass@, body: node_list_view(s.body@) }),
{
}

/// The view of a node of this kind, field by field.
pub broadcast proof fn lemma_node_view_raise_box(s: RaiseBox)
    ensures
        #[trigger] node_view(Node::RaiseBox(s)) == (NodeV::RaiseBox { mode: s.mode, loc: s.loc, dy: s.dy.deep_view(), body: Box::new(node_view(*s.body)) }),
{
}

/// The view of a node of this kind, field by field.
pub broadcast proof fn lemma_node_view_rule(s: Rule)
    ensures
        #[trigger] node_view(Node::Rule(s)) == (NodeV::Rule { mode: s.mode, loc: s.loc, shift: s.shift.deep_view(), width: s.width.deep_view(), height: s.height.deep_view() }),
{
}

/// The view of a node of this kind, field by field.
pub broadcast proof fn lemma_node_view_sizing(s: Sizing)
    ensures
        #[trigger] node_view(Node::Sizing(s)) == (NodeV::Sizing { mode: s.mode, loc: s.loc, size_milli: s.size_milli, body: node_list_view(s.body@) }),
{
}

/// The view of a node of this kind, field by field.
pub broadcast proof fn lemma_node_view_smash(s: Smash)
    ensures
        #[trigger] node_view(Node::Smash(s)) == (NodeV::Smash { mode: s.mode, loc: s.loc, body: node_list_view(s.body@), smash_height: s.smash_height, smash_depth: s.smash_depth }),
{
}

/// The view of a node of this kind, field by field.
pub broadcast proof fn lemma_node_view_sqrt(s: Sqrt)
    ensures
        #[trigger] node_view(Node::Sqrt(s)) == (NodeV::Sqrt { mode: s.mode, loc: s.loc, body: Box::new(node_view(*s.body)), index: opt_box_node_view(s.index) }),
{
}

/// The view of a node of this kind, field by field.
pub broadcast proof fn lemma_node_view_underline(s: Underline)
    ensures
        #[trigger] node_view(Node::Underline(s)) == (NodeV::Underline { mode: s.mode, loc: s.loc, body: Box::new(node_view(*s.body)) }),
{
}

/// The view of a node of this kind, field by field.
pub broadcast proof fn lemma_node_view_v_center(s: VCenter)
    ensures
        #[trigger] node_view(Node::VCenter(s)) == (NodeV::VCenter { mode: s.mode, loc: s.loc, body: Box::new(node_view(*s.body)) }),
{
}

/// The view of a node of this kind, field by field.
pub broadcast proof fn lemma_node_view_x_arrow(s: XArrow)
    ensures
        #[trigger] node_view(Node::XArrow(s)) == (NodeV::XArrow { mode: s.mode, loc: s.loc, label: s.label@, body: Box::new(node_view(*s.body)), below: opt_box_node_view(s.below) }),
{
}

/// All the per-kind view lemmas.
pub broadcast group group_node_view {
    lemma_node_view_array,
    lemma_node_view_cd_label,
    lemma_node_view_cd_label_parent,
    lemma_node_view_color,
    lemma_node_view_color_token,
    lemma_node_view_op,
    lemma_node_view_ord_group,
    lemma_node_view_raw,
    lemma_node_view_size,
    lemma_node_view_styling,
    lemma_node_view_sup_sub,
    lemma_node_view_tag,
    lemma_node_view_text,
    lemma_node_view_url,
    lemma_node_view_verb,
    lemma_node_view_atom,
    lemma_node_view_math_ord,
    lemma_node_view_spacing,
    lemma_node_view_text_ord,
    lemma_node_view_accent_token,
    lemma_node_view_op_token,
    lemma_node_view_accent,
    lemma_node_view_accent_under,
    lemma_node_view_cr,
    lemma_node_view_delim_sizing,
    lemma_node_view_enclose,
    lemma_node_view_environment,
    lemma_node_view_font,
    lemma_node_view_gen_frac,
    lemma_node_view_h_box,
    lemma_node_view_horiz_brace,
    lemma_node_view_h_ref,
    lemma_node_view_html,
    lemma_node_view_html_math_ml,
    lemma_node_view_include_graphics,
    lemma_node_view_infix,
    lemma_node_view_internal,
    lemma_node_view_kern,
    lemma_node_view_lap,
    lemma_node_view_left_right,
    lemma_node_view_left_right_right,
    lemma_node_view_math_choice,
    lemma_node_view_middle,
    lemma_node_view_m_class,
    lemma_node_view_operator_name,
    lemma_node_view_overline,
    lemma_node_view_phantom,
    lemma_node_view_h_phantom,
    lemma_node_view_v_phantom,
    lemma_node_view_pmb,
    lemma_node_view_raise_box,
    lemma_node_view_rule,
    lemma_node_view_sizing,
    lemma_node_view_smash,
    lemma_node_view_sqrt,
    lemma_node_view_underline,
    lemma_node_view_v_center,
    lemma_node_view_x_arrow,
}

/// Copies a node of this kind; the copy has the same view.
fn dup_array(s: &Array) -> (r: Array)
    ensures
        node_view(Node::Array(r)) == node_view(Node::Array(*s)),
    decreases s,
{
        let r = Array {
            mode: s.mode,
            loc: s.loc,
            col_separation_type: s.col_separation_type,
            hskip_before_and_after: s.hskip_before_and_after,
            add_jot: s.add_jot,
            cols: dup_opt_align_specs(&s.cols),
            arraystretch_milli: s.arraystretch_milli,
            body: dup_node_grid(&s.body),
            row_gaps: dup_row_gaps(&s.row_gaps),
            h_lines_before_row: dup_bool_grid(&s.h_lines_before_row),
            tags: dup_opt_tags(&s.tags),
            leqno: s.leqno,
            is_cd: s.is_cd,
        };
        proof {
            lemma_node_view_array(r);
            lemma_node_view_array(*s);
        }
        r
}

/// Copies a node of this kind; the copy has the same view.
fn dup_cd_label(s: &CdLabel) -> (r: CdLabel)
    ensures
        node_view(Node::CdLabel(r)) == node_view(Node::CdLabel(*s)),
    decreases s,
{
        let r = CdLabel {
            mode: s.mode,
            loc: s.loc,
            side: s.side.clone(),
            label: Box::new(dup_node(&*s.label)),
        };
        proof {
            lemma_node_view_cd_label(r);
            lemma_node_view_cd_label(*s);
        }
        r
}

/// Copies a node of this kind; the copy has the same view.
fn dup_cd_label_parent(s: &CdLabelParent) -> (r: CdLabelParent)
    ensures
        node_view(Node::CdLabelParent(r)) == node_view(Node::CdLabelParent(*s)),
    decreases s,
{
        let r = CdLabelParent {
            mode: s.mode,
            loc: s.loc,
            side: s.side.clone(),
            label: Box::new(dup_node(&*s.label)),
        };
        proof {
            lemma_node_view_cd_label_parent(r);
            lemma_node_view_cd_label_parent(*s);
        }
        r
}

/// Copies a node of this kind; the copy has the same view.
fn dup_color(s: &Color) -> (r: Color)
    ensures
        node_view(Node::Color(r)) == node_view(Node::Color(*s)),
    decreases s,
{
        let r = Color {
            mode: s.mode,
            loc: s.loc,
            color: s.color.clone(),
            body: dup_node_list(&s.body),
        };
        proof {
            lemma_node_view_color(r);
            lemma_node_view_color(*s);
        }
        r
}

/// Copies a node of this kind; the copy has the same view.
fn dup_color_token(s: &ColorToken) -> (r: ColorToken)
    ensures
        node_view(Node::ColorToken(r)) == node_view(Node::ColorToken(*s)),
    decreases s,
{
        let r = ColorToken {
            mode: s.mode,
            loc: s.loc,
            color: s.color.clone(),
        };
        proof {
            lemma_node_view_color_token(r);
            lemma_node_view_color_token(*s);
        }
        r
}

/// Copies a node of this kind; the copy has the same view.
fn dup_op(s: &Op) -> (r: Op)
    ensures
        node_view(Node::Op(r)) == node_view(Node::Op(*s)),
    decreases s,
{
        let r = Op {
            mode: s.mode,
            loc: s.loc,
            limits: s.limits,
            always_handle_sup_sub: s.always_handle_sup_sub,
            suppress_base_shift: s.suppress_base_shift,
            parent_is_sup_sub: s.parent_is_sup_sub,
            symbol: s.symbol,
            name: dup_opt_string(&s.name),
            body: dup_opt_node_list(&s.body),
        };
        proof {
            lemma_node_view_op(r);
            lemma_node_view_op(*s);
        }
        r
}

/// Copies a node of this kind; the copy has the same view.
fn dup_ord_group(s: &OrdGroup) -> (r: OrdGroup)
    ensures
        node_view(Node::OrdGroup(r)) == node_view(Node::OrdGroup(*s)),
    decreases s,
{
        let r = OrdGroup {
            mode: s.mode,
            loc: s.loc,
            body: dup_node_list(&s.body),
            semisimple: s.semisimple,
        };
        proof {
            lemma_node_view_ord_group(r);
            lemma_node_view_ord_group(*s);
        }
        r
}

/// Copies a node of this kind; the copy has the same view.
fn dup_raw(s: &Raw) -> (r: Raw)
    ensures
        node_view(Node::Raw(r)) == node_view(Node::Raw(*s)),
    decreases s,
{
        let r = Raw {
            mode: s.mode,
            loc: s.loc,
            string: s.string.clone(),
        };
        proof {
            lemma_node_view_raw(r);
            lemma_node_view_raw(*s);
        }
        r
}

/// Copies a node of this kind; the copy has the same view.
fn dup_size(s: &Size) -> (r: Size)
    ensures
        node_view(Node::Size(r)) == node_view(Node::Size(*s)),
    decreases s,
{
        let r = Size {
            mode: s.mode,
            loc: s.loc,
            value: dup_measurement(&s.value),
            is_blank: s.is_blank,
        };
        proof {
            lemma_node_view_size(r);
            lemma_node_view_size(*s);
        }
        r
}

/// Copies a node of this kind; the copy has the same view.
fn dup_styling(s: &Styling) -> (r: Styling)
    ensures
        node_view(Node::Styling(r)) == node_view(Node::Styling(*s)),
    decreases s,
{
        let r = Styling {
            mode: s.mode,
            loc: s.loc,
            style: s.style,
            body: dup_node_list(&s.body),
        };
        proof {
            lemma_node_view_styling(r);
            lemma_node_view_styling(*s);
        }
        r
}

/// Copies a node of this kind; the copy has the same view.
fn dup_sup_sub(s: &SupSub) -> (r: SupSub)
    ensures
        node_view(Node::SupSub(r)) == node_view(Node::SupSub(*s)),
    decreases s,
{
        let r = SupSub {
            mode: s.mode,
            loc: s.loc,
            base: dup_opt_box_node(&s.base),
            sup: dup_opt_box_node(&s.sup),
            sub: dup_opt_box_node(&s.sub),
        };
        proof {
            lemma_node_view_sup_sub(r);
            lemma_node_view_sup_sub(*s);
        }
        r
}

/// Copies a node of this kind; the copy has the same view.
fn dup_tag(s: &Tag) -> (r: Tag)
    ensures
        node_view(Node::Tag(r)) == node_view(Node::Tag(*s)),
    decreases s,
{
        let r = Tag {
            mode: s.mode,
            loc: s.loc,
            body: dup_node_list(&s.body),
            tag: dup_node_list(&s.tag),
        };
        proof {
            lemma_node_view_tag(r);
            lemma_node_view_tag(*s);
        }
        r
}

/// Copies a node of this kind; the copy has the same view.
fn dup_text(s: &Text) -> (r: Text)
    ensures
        node_view(Node::Text(r)) == node_view(Node::Text(*s)),
    decreases s,
{
        let r = Text {
            mode: s.mode,
            loc: s.loc,
            body: dup_node_list(&s.body),
            font: dup_opt_string(&s.font),
        };
        proof {
            lemma_node_view_text(r);
            lemma_node_view_text(*s);
        }
        r
}

/// Copies a node of this kind; the copy has the same view.
fn dup_url(s: &Url) -> (r: Url)
    ensures
        node_view(Node::Url(r)) == node_view(Node::Url(*s)),
    decreases s,
{
        let r = Url {
            mode: s.mode,
            loc: s.loc,
            url: s.url.clone(),
        };
        proof {
            lemma_node_view_url(r);
            lemma_node_view_url(*s);
        }
        r
}

/// Copies a node of this kind; the copy has the same view.
fn dup_verb(s: &Verb) -> (r: Verb)
    ensures
        node_view(Node::Verb(r)) == node_view(Node::Verb(*s)),
    decreases s,
{
        let r = Verb {
            mode: s.mode,
            loc: s.loc,
            body: s.body.clone(),
            star: s.star,
        };
        proof {
            lemma_node_view_verb(r);
            lemma_node_view_verb(*s);
        }
        r
}

/// Copies a node of this kind; the copy has the same view.
fn dup_atom(s: &Atom) -> (r: Atom)
    ensures
        node_view(Node::Atom(r)) == node_view(Node::Atom(*s)),
    decreases s,
{
        let r = Atom {
            family: s.family,
            mode: s.mode,
            loc: s.loc,
            text: s.text.clone(),
        };
        proof {
            lemma_node_view_atom(r);
            lemma_node_view_atom(*s);
        }
        r
}

/// Copies a node of this kind; the copy has the same view.
fn dup_math_ord(s: &MathOrd) -> (r: MathOrd)
    ensures
        node_view(Node::MathOrd(r)) == node_view(Node::MathOrd(*s)),
    decreases s,
{
        let r = MathOrd {
            mode: s.mode,
            loc: s.loc,
            text: s.text.clone(),
        };
        proof {
            lemma_node_view_math_ord(r);
            lemma_node_view_math_ord(*s);
        }
        r
}

/// Copies a node of this kind; the copy has the same view.
fn dup_spacing(s: &Spacing) -> (r: Spacing)
    ensures
        node_view(Node::Spacing(r)) == node_view(Node::Spacing(*s)),
    decreases s,
{
        let r = Spacing {
            mode: s.mode,
            loc: s.loc,
            text: s.text.clone(),
        };
        proof {
            lemma_node_view_spacing(r);
            lemma_node_view_spacing(*s);
        }
        r
}

/// Copies a node of this kind; the copy has the same view.
fn dup_text_ord(s: &TextOrd) -> (r: TextOrd)
    ensures
        node_view(Node::TextOrd(r)) == node_view(Node::TextOrd(*s)),
    decreases s,
{
        let r = TextOrd {
            mode: s.mode,
            loc: s.loc,
            text: s.text.clone(),
        };
        proof {
            lemma_node_view_text_ord(r);
            lemma_node_view_text_ord(*s);
        }
        r
}

/// Copies a node of this kind; the copy has the same view.
fn dup_accent_token(s: &AccentToken) -> (r: AccentToken)
    ensures
        node_view(Node::AccentToken(r)) == node_view(Node::AccentToken(*s)),
    decreases s,
{
        let r = AccentToken {
            mode: s.mode,
            loc: s.loc,
            text: s.text.clone(),
        };
        proof {
            lemma_node_view_accent_token(r);
            lemma_node_view_accent_token(*s);
        }
        r
}

/// Copies a node of this kind; the copy has the same view.
fn dup_op_token(s: &OpToken) -> (r: OpToken)
    ensures
        node_view(Node::OpToken(r)) == node_view(Node::OpToken(*s)),
    decreases s,
{
        let r = OpToken {
            mode: s.mode,
            loc: s.loc,
            text: s.text.clone(),
        };
        proof {
            lemma_node_view_op_token(r);
            lemma_node_view_op_token(*s);
        }
        r
}

/// Copies a node of this kind; the copy has the same view.
fn dup_accent(s: &Accent) -> (r: Accent)
    ensures
        node_view(Node::Accent(r)) == node_view(Node::Accent(*s)),
    decreases s,
{
        let r = Accent {
            mode: s.mode,
            loc: s.loc,
            label: s.label.clone(),
            is_stretchy: s.is_stretchy,
            is_shifty: s.is_shifty,
            base: Box::new(dup_node(&*s.base)),
        };
        proof {
            lemma_node_view_accent(r);
            lemma_node_view_accent(*s);
        }
        r
}

/// Copies a node of this kind; the copy has the same view.
fn dup_accent_under(s: &AccentUnder) -> (r: AccentUnder)
    ensures
        node_view(Node::AccentUnder(r)) == node_view(Node::AccentUnder(*s)),
    decreases s,
{
        let r = AccentUnder {
            mode: s.mode,
            loc: s.loc,
            label: s.label.clone(),
            is_stretchy: s.is_stretchy,
            is_shifty: s.is_shifty,
            base: Box::new(dup_node(&*s.base)),
        };
        proof {
            lemma_node_view_accent_under(r);
            lemma_node_view_accent_under(*s);
        }
        r
}

/// Copies a node of this kind; the copy has the same view.
fn dup_cr(s: &Cr) -> (r: Cr)
    ensures
        node_view(Node::Cr(r)) == node_view(Node::Cr(*s)),
    decreases s,
{
        let r = Cr {
            mode: s.mode,
            loc: s.loc,
            new_line: s.new_line,
            size: dup_opt_measurement(&s.size),
        };
        proof {
            lemma_node_view_cr(r);
            lemma_node_view_cr(*s);
        }
        r
}

/// Copies a node of this kind; the copy has the same view.
fn dup_delim_sizing(s: &DelimSizing) -> (r: DelimSizing)
    ensures
        node_view(Node::DelimSizing(r)) == node_view(Node::DelimSizing(*s)),
    decreases s,
{
        let r = DelimSizing {
            mode: s.mode,
            loc: s.loc,
            size: s.size,
            mclass: s.mclass,
            delim: s.delim.clone(),
        };
        proof {
            lemma_node_view_delim_sizing(r);
            lemma_node_view_delim_sizing(*s);
        }
        r
}

/// Copies a node of this kind; the copy has the same view.
fn dup_enclose(s: &Enclose) -> (r: Enclose)
    ensures
        node_view(Node::Enclose(r)) == node_view(Node::Enclose(*s)),
    decreases s,
{
        let r = Enclose {
            mode: s.mode,
            loc: s.loc,
            label: s.label.clone(),
            background_color: dup_opt_string(&s.background_color),
            border_color: dup_opt_string(&s.border_color),
            body: Box::new(dup_node(&*s.body)),
        };
        proof {
            lemma_node_view_enclose(r);
            lemma_node_view_enclose(*s);
        }
        r
}

/// Copies a node of this kind; the copy has the same view.
fn dup_environment(s: &Environment) -> (r: Environment)
    ensures
        node_view(Node::Environment(r)) == node_view(Node::Environment(*s)),
    decreases s,
{
        let r = Environment {
            mode: s.mode,
            loc: s.loc,
            name: s.name.clone(),
            name_group: Box::new(dup_node(&*s.name_group)),
        };
        proof {
            lemma_node_view_environment(r);
            lemma_node_view_environment(*s);
        }
        r
}

/// Copies a node of this kind; the copy has the same view.
fn dup_font(s: &Font) -> (r: Font)
    ensures
        node_view(Node::Font(r)) == node_view(Node::Font(*s)),
    decreases s,
{
        let r = Font {
            mode: s.mode,
            loc: s.loc,
            font: s.font.clone(),
            body: Box::new(dup_node(&*s.body)),
        };
        proof {
            lemma_node_view_font(r);
            lemma_node_view_font(*s);
        }
        r
}

/// Copies a node of this kind; the copy has the same view.
fn dup_gen_frac(s: &GenFrac) -> (r: GenFrac)
    ensures
        node_view(Node::GenFrac(r)) == node_view(Node::GenFrac(*s)),
    decreases s,
{
        let r = GenFrac {
            mode: s.mode,
            loc: s.loc,
            continued: s.continued,
            numer: Box::new(dup_node(&*s.numer)),
            denom: Box::new(dup_node(&*s.denom)),
            has_bar_line: s.has_bar_line,
            left_delim: dup_opt_string(&s.left_delim),
            right_delim: dup_opt_string(&s.right_delim),
            size: s.size,
            bar_size: dup_opt_measurement(&s.bar_size),
        };
        proof {
            lemma_node_view_gen_frac(r);
            lemma_node_view_gen_frac(*s);
        }
        r
}

/// Copies a node of this kind; the copy has the same view.
fn dup_h_box(s: &HBox) -> (r: HBox)
    ensures
        node_view(Node::HBox(r)) == node_view(Node::HBox(*s)),
    decreases s,
{
        let r = HBox {
            mode: s.mode,
            loc: s.loc,
            body: dup_node_list(&s.body),
        };
        proof {
            lemma_node_view_h_box(r);
            lemma_node_view_h_box(*s);
        }
        r
}

/// Copies a node of this kind; the copy has the same view.
fn dup_horiz_brace(s: &HorizBrace) -> (r: HorizBrace)
    ensures
        node_view(Node::HorizBrace(r)) == node_view(Node::HorizBrace(*s)),
    decreases s,
{
        let r = HorizBrace {
            mode: s.mode,
            loc: s.loc,
            label: s.label.clone(),
            is_over: s.is_over,
            base: Box::new(dup_node(&*s.base)),
        };
        proof {
            lemma_node_view_horiz_brace(r);
            lemma_node_view_horiz_brace(*s);
        }
        r
}

/// Copies a node of this kind; the copy has the same view.
fn dup_h_ref(s: &HRef) -> (r: HRef)
    ensures
        node_view(Node::HRef(r)) == node_view(Node::HRef(*s)),
    decreases s,
{
        let r = HRef {
            mode: s.mode,
            loc: s.loc,
            href: s.href.clone(),
            body: dup_node_list(&s.body),
        };
        proof {
            lemma_node_view_h_ref(r);
            lemma_node_view_h_ref(*s);
        }
        r
}

/// Copies a node of this kind; the copy has the same view.
fn dup_html(s: &Html) -> (r: Html)
    ensures
        node_view(Node::Html(r)) == node_view(Node::Html(*s)),
    decreases s,
{
        let r = Html {
            mode: s.mode,
            loc: s.loc,
            attributes: dup_attrs(&s.attributes),
            body: dup_node_list(&s.body),
        };
        proof {
            lemma_node_view_html(r);
            lemma_node_view_html(*s);
        }
        r
}

/// Copies a node of this kind; the copy has the same view.
fn dup_html_math_ml(s: &HtmlMathML) -> (r: HtmlMathML)
    ensures
        node_view(Node::HtmlMathML(r)) == node_view(Node::HtmlMathML(*s)),
    decreases s,
{
        let r = HtmlMathML {
            mode: s.mode,
            loc: s.loc,
            html: dup_node_list(&s.html),
            mathml: dup_node_list(&s.mathml),
        };
        proof {
            lemma_node_view_html_math_ml(r);
            lemma_node_view_html_math_ml(*s);
        }
        r
}

/// Copies a node of this kind; the copy has the same view.
fn dup_include_graphics(s: &IncludeGraphics) -> (r: IncludeGraphics)
    ensures
        node_view(Node::IncludeGraphics(r)) == node_view(Node::IncludeGraphics(*s)),
    decreases s,
{
        let r = IncludeGraphics {
            mode: s.mode,
            loc: s.loc,
            alt: s.alt.clone(),
            width: dup_measurement(&s.width),
            height: dup_measurement(&s.height),
            total_height: dup_measurement(&s.total_height),
            src: s.src.clone(),
        };
        proof {
            lemma_node_view_include_graphics(r);
            lemma_node_view_include_graphics(*s);
        }
        r
}

/// Copies a node of this kind; the copy has the same view.
fn dup_infix(s: &Infix) -> (r: Infix)
    ensures
        node_view(Node::Infix(r)) == node_view(Node::Infix(*s)),
    decreases s,
{
        let r = Infix {
            mode: s.mode,
            loc: s.loc,
            replace_with: s.replace_with.clone(),
            size: dup_opt_measurement(&s.size),
            token: dup_opt_token(&s.token),
        };
        proof {
            lemma_node_view_infix(r);
            lemma_node_view_infix(*s);
        }
        r
}

/// Copies a node of this kind; the copy has the same view.
fn dup_internal(s: &Internal) -> (r: Internal)
    ensures
        node_view(Node::Internal(r)) == node_view(Node::Internal(*s)),
    decreases s,
{
        let r = Internal {
            mode: s.mode,
            loc: s.loc,
        };
        proof {
            lemma_node_view_internal(r);
            lemma_node_view_internal(*s);
        }
        r
}

/// Copies a node of this kind; the copy has the same view.
fn dup_kern(s: &Kern) -> (r: Kern)
    ensures
        node_view(Node::Kern(r)) == node_view(Node::Kern(*s)),
    decreases s,
{
        let r = Kern {
            mode: s.mode,
            loc: s.loc,
            dimension: dup_measurement(&s.dimension),
        };
        proof {
            lemma_node_view_kern(r);
            lemma_node_view_kern(*s);
        }
        r
}

/// Copies a node of this kind; the copy has the same view.
fn dup_lap(s: &Lap) -> (r: Lap)
    ensures
        node_view(Node::Lap(r)) == node_view(Node::Lap(*s)),
    decreases s,
{
        let r = Lap {
            mode: s.mode,
            loc: s.loc,
            alignment: s.alignment.clone(),
            body: Box::new(dup_node(&*s.body)),
        };
        proof {
            lemma_node_view_lap(r);
            lemma_node_view_lap(*s);
        }
        r
}

/// Copies a node of this kind; the copy has the same view.
fn dup_left_right(s: &LeftRight) -> (r: LeftRight)
    ensures
        node_view(Node::LeftRight(r)) == node_view(Node::LeftRight(*s)),
    decreases s,
{
        let r = LeftRight {
            mode: s.mode,
            loc: s.loc,
            body: dup_node_list(&s.body),
            left: s.left.clone(),
            right: s.right.clone(),
            right_color: dup_opt_string(&s.right_color),
        };
        proof {
            lemma_node_view_left_right(r);
            lemma_node_view_left_right(*s);
        }
        r
}

/// Copies a node of this kind; the copy has the same view.
fn dup_left_right_right(s: &LeftRightRight) -> (r: LeftRightRight)
    ensures
        node_view(Node::LeftRightRight(r)) == node_view(Node::LeftRightRight(*s)),
    decreases s,
{
        let r = LeftRightRight {
            mode: s.mode,
            loc: s.loc,
            delim: s.delim.clone(),
            color: dup_opt_string(&s.color),
        };
        proof {
            lemma_node_view_left_right_right(r);
            lemma_node_view_left_right_right(*s);
        }
        r
}

/// Copies a node of this kind; the copy has the same view.
fn dup_math_choice(s: &MathChoice) -> (r: MathChoice)
    ensures
        node_view(Node::MathChoice(r)) == node_view(Node::MathChoice(*s)),
    decreases s,
{
        let r = MathChoice {
            mode: s.mode,
            loc: s.loc,
            display: dup_node_list(&s.display),
            text: dup_node_list(&s.text),
            script: dup_node_list(&s.script),
            scriptscript: dup_node_list(&s.scriptscript),
        };
        proof {
            lemma_node_view_math_choice(r);
            lemma_node_view_math_choice(*s);
        }
        r
}

/// Copies a node of this kind; the copy has the same view.
fn dup_middle(s: &Middle) -> (r: Middle)
    ensures
        node_view(Node::Middle(r)) == node_view(Node::Middle(*s)),
    decreases s,
{
        let r = Middle {
            mode: s.mode,
            loc: s.loc,
            delim: s.delim.clone(),
        };
        proof {
            lemma_node_view_middle(r);
            lemma_node_view_middle(*s);
        }
        r
}

/// Copies a node of this kind; the copy has the same view.
fn dup_m_class(s: &MClass) -> (r: MClass)
    ensures
        node_view(Node::MClass(r)) == node_view(Node::MClass(*s)),
    decreases s,
{
        let r = MClass {
            mode: s.mode,
            loc: s.loc,
            mclass: s.mclass.clone(),
            body: dup_node_list(&s.body),
            is_character_box: s.is_character_box,
        };
        proof {
            lemma_node_view_m_class(r);
            lemma_node_view_m_class(*s);
        }
        r
}

/// Copies a node of this kind; the copy has the same view.
fn dup_operator_name(s: &OperatorName) -> (r: OperatorName)
    ensures
        node_view(Node::OperatorName(r)) == node_view(Node::OperatorName(*s)),
    decreases s,
{
        let r = OperatorName {
            mode: s.mode,
            loc: s.loc,
            body: dup_node_list(&s.body),
            always_handle_sup_sub: s.always_handle_sup_sub,
            limits: s.limits,
            parent_is_sup_sub: s.parent_is_sup_sub,
        };
        proof {
            lemma_node_view_operator_name(r);
            lemma_node_view_operator_name(*s);
        }
        r
}

/// Copies a node of this kind; the copy has the same view.
fn dup_overline(s: &Overline) -> (r: Overline)
    ensures
        node_view(Node::Overline(r)) == node_view(Node::Overline(*s)),
    decreases s,
{
        let r = Overline {
            mode: s.mode,
            loc: s.loc,
            body: Box::new(dup_node(&*s.body)),
        };
        proof {
            lemma_node_view_overline(r);
            lemma_node_view_overline(*s);
        }
        r
}

/// Copies a node of this kind; the copy has the same view.
fn dup_phantom(s: &Phantom) -> (r: Phantom)
    ensures
        node_view(Node::Phantom(r)) == node_view(Node::Phantom(*s)),
    decreases s,
{
        let r = Phantom {
            mode: s.mode,
            loc: s.loc,
            body: dup_node_list(&s.body),
        };
        proof {
            lemma_node_view_phantom(r);
            lemma_node_view_phantom(*s);
        }
        r
}

/// Copies a node of this kind; the copy has the same view.
fn dup_h_phantom(s: &HPhantom) -> (r: HPhantom)
    ensures
        node_view(Node::HPhantom(r)) == node_view(Node::HPhantom(*s)),
    decreases s,
{
        let r = HPhantom {
            mode: s.mode,
            loc: s.loc,
            body: Box::new(dup_node(&*s.body)),
        };
        proof {
            lemma_node_view_h_phantom(r);
            lemma_node_view_h_phantom(*s);
        }
        r
}

/// Copies a node of this kind; the copy has the same view.
fn dup_v_phantom(s: &VPhantom) -> (r: VPhantom)
    ensures
        node_view(Node::VPhantom(r)) == node_view(Node::VPhantom(*s)),
    decreases s,
{
        let r = VPhantom {
            mode: s.mode,
            loc: s.loc,
            body: Box::new(dup_node(&*s.body)),
        };
        proof {
            lemma_node_view_v_phantom(r);
            lemma_node_view_v_phantom(*s);
        }
        r
}

/// Copies a node of this kind; the copy has the same view.
fn dup_pmb(s: &Pmb) -> (r: Pmb)
    ensures
        node_view(Node::Pmb(r)) == node_view(Node::Pmb(*s)),
    decreases s,
{
        let r = Pmb {
            mode: s.mode,
            loc: s.loc,
            mclass: s.mclass.clone(),
            body: dup_node_list(&s.body),
        };
        proof {
            lemma_node_view_pmb(r);
            lemma_node_view_pmb(*s);
        }
        r
}

/// Copies a node of this kind; the copy has the same view.
fn dup_raise_box(s: &RaiseBox) -> (r: RaiseBox)
    ensures
        node_view(Node::RaiseBox(r)) == node_view(Node::RaiseBox(*s)),
    decreases s,
{
        let r = RaiseBox {
            mode: s.mode,
            loc: s.loc,
            dy: dup_measurement(&s.dy),
            body: Box::new(dup_node(&*s.body)),
        };
        proof {
            lemma_node_view_raise_box(r);
            lemma_node_view_raise_box(*s);
        }
        r
}

/// Copies a node of this kind; the copy has the same view.
fn dup_rule(s: &Rule) -> (r: Rule)
    ensures
        node_view(Node::Rule(r)) == node_view(Node::Rule(*s)),
    decreases s,
{
        let r = Rule {
            mode: s.mode,
            loc: s.loc,
            shift: dup_opt_measurement(&s.shift),
            width: dup_measurement(&s.width),
            height: dup_measurement(&s.height),
        };
        proof {
            lemma_node_view_rule(r);
            lemma_node_view_rule(*s);
        }
        r
}

/// Copies a node of this kind; the copy has the same view.
fn dup_sizing(s: &Sizing) -> (r: Sizing)
    ensures
        node_view(Node::Sizing(r)) == node_view(Node::Sizing(*s)),
    decreases s,
{
        let r = Sizing {
            mode: s.mode,
            loc: s.loc,
            size_milli: s.size_milli,
            body: dup_node_list(&s.body),
        };
        proof {
            lemma_node_view_sizing(r);
            lemma_node_view_sizing(*s);
        }
        r
}

/// Copies a node of this kind; the copy has the same view.
fn dup_smash(s: &Smash) -> (r: Smash)
    ensures
        node_view(Node::Smash(r)) == node_view(Node::Smash(*s)),
    decreases s,
{
        let r = Smash {
            mode: s.mode,
            loc: s.loc,
            body: dup_node_list(&s.body),
            smash_height: s.smash_height,
            smash_depth: s.smash_depth,
        };
        proof {
            lemma_node_view_smash(r);
            lemma_node_view_smash(*s);
        }
        r
}

/// Copies a node of this kind; the copy has the same view.
fn dup_sqrt(s: &Sqrt) -> (r: Sqrt)
    ensures
        node_view(Node::Sqrt(r)) == node_view(Node::Sqrt(*s)),
    decreases s,
{
        let r = Sqrt {
            mode: s.mode,
            loc: s.loc,
            body: Box::new(dup_node(&*s.body)),
            index: dup_opt_box_node(&s.index),
        };
        proof {
            lemma_node_view_sqrt(r);
            lemma_node_view_sqrt(*s);
        }
        r
}

/// Copies a node of this kind; the copy has the same view.
fn dup_underline(s: &Underline) -> (r: Underline)
    ensures
        node_view(Node::Underline(r)) == node_view(Node::Underline(*s)),
    decreases s,
{
        let r = Underline {
            mode: s.mode,
            loc: s.loc,
            body: Box::new(dup_node(&*s.body)),
        };
        proof {
            lemma_node_view_underline(r);
            lemma_node_view_underline(*s);
        }
        r
}

/// Copies a node of this kind; the copy has the same view.
fn dup_v_center(s: &VCenter) -> (r: VCenter)
    ensures
        node_view(Node::VCenter(r)) == node_view(Node::VCenter(*s)),
    decreases s,
{
        let r = VCenter {
            mode: s.mode,
            loc: s.loc,
            body: Box::new(dup_node(&*s.body)),
        };
        proof {
            lemma_node_view_v_center(r);
            lemma_node_view_v_center(*s);
        }
        r
}

/// Copies a node of this kind; the copy has the same view.
fn dup_x_arrow(s: &XArrow) -> (r: XArrow)
    ensures
        node_view(Node::XArrow(r)) == node_view(Node::XArrow(*s)),
    decreases s,
{
        let r = XArrow {
            mode: s.mode,
            loc: s.loc,
            label: s.label.clone(),
            body: Box::new(dup_node(&*s.body)),
            below: dup_opt_box_node(&s.below),
        };
        proof {
            lemma_node_view_x_arrow(r);
            lemma_node_view_x_arrow(*s);
        }
        r
}

/// A node's view is an atom exactly when the node is one.
pub proof fn lemma_node_view_atom_cases(n: Node)
    ensures
        (node_view(n) is Atom) == (n is Atom),
{
    match n {
        Node::Array(s) => lemma_node_view_array(s),
        Node::CdLabel(s) => lemma_node_view_cd_label(s),
        Node::CdLabelParent(s) => lemma_node_view_cd_label_parent(s),
        Node::Color(s) => lemma_node_view_color(s),
        Node::ColorToken(s) => lemma_node_view_color_token(s),
        Node::Op(s) => lemma_node_view_op(s),
        Node::OrdGroup(s) => lemma_node_view_ord_group(s),
        Node::Raw(s) => lemma_node_view_raw(s),
        Node::Size(s) => lemma_node_view_size(s),
        Node::Styling(s) => lemma_node_view_styling(s),
        Node::SupSub(s) => lemma_node_view_sup_sub(s),
        Node::Tag(s) => lemma_node_view_tag(s),
        Node::Text(s) => lemma_node_view_text(s),
        Node::Url(s) => lemma_node_view_url(s),
        Node::Verb(s) => lemma_node_view_verb(s),
        Node::Atom(s) => lemma_node_view_atom(s),
        Node::MathOrd(s) => lemma_node_view_math_ord(s),
        Node::Spacing(s) => lemma_node_view_spacing(s),
        Node::TextOrd(s) => lemma_node_view_text_ord(s),
        Node::AccentToken(s) => lemma_node_view_accent_token(s),
        Node::OpToken(s) => lemma_node_view_op_token(s),
        Node::Accent(s) => lemma_node_view_accent(s),
        Node::AccentUnder(s) => lemma_node_view_accent_under(s),
        Node::Cr(s) => lemma_node_view_cr(s),
        Node::DelimSizing(s) => lemma_node_view_delim_sizing(s),
        Node::Enclose(s) => lemma_node_view_enclose(s),
        Node::Environment(s) => lemma_node_view_environment(s),
        Node::Font(s) => lemma_node_view_font(s),
        Node::GenFrac(s) => lemma_node_view_gen_frac(s),
        Node::HBox(s) => lemma_node_view_h_box(s),
        Node::HorizBrace(s) => lemma_node_view_horiz_brace(s),
        Node::HRef(s) => lemma_node_view_h_ref(s),
        Node::Html(s) => lemma_node_view_html(s),
        Node::HtmlMathML(s) => lemma_node_view_html_math_ml(s),
        Node::IncludeGraphics(s) => lemma_node_view_include_graphics(s),
        Node::Infix(s) => lemma_node_view_infix(s),
        Node::Internal(s) => lemma_node_view_internal(s),
        Node::Kern(s) => lemma_node_view_kern(s),
        Node::Lap(s) => lemma_node_view_lap(s),
        Node::LeftRight(s) => lemma_node_view_left_right(s),
        Node::LeftRightRight(s) => lemma_node_view_left_right_right(s),
        Node::MathChoice(s) => lemma_node_view_math_choice(s),
        Node::Middle(s) => lemma_node_view_middle(s),
        Node::MClass(s) => lemma_node_view_m_class(s),
        Node::OperatorName(s) => lemma_node_view_operator_name(s),
        Node::Overline(s) => lemma_node_view_overline(s),
        Node::Phantom(s) => lemma_node_view_phantom(s),
        Node::HPhantom(s) => lemma_node_view_h_phantom(s),
        Node::VPhantom(s) => lemma_node_view_v_phantom(s),
        Node::Pmb(s) => lemma_node_view_pmb(s),
        Node::RaiseBox(s) => lemma_node_view_raise_box(s),
        Node::Rule(s) => lemma_node_view_rule(s),
        Node::Sizing(s) => lemma_node_view_sizing(s),
        Node::Smash(s) => lemma_node_view_smash(s),
        Node::Sqrt(s) => lemma_node_view_sqrt(s),
        Node::Underline(s) => lemma_node_view_underline(s),
        Node::VCenter(s) => lemma_node_view_v_center(s),
        Node::XArrow(s) => lemma_node_view_x_arrow(s),
    }
}

/// Copies one destination node; the copy has the same view.
pub fn dup_node(n: &Node) -> (r: Node)
    ensures
        node_view(r) == node_view(*n),
    decreases n,
{
    match n {
        Node::Array(s) => {
            proof { assert(*n == Node::Array(*s)); }
            Node::Array(dup_array(s))
        },
        Node::CdLabel(s) => {
            proof { assert(*n == Node::CdLabel(*s)); }
            Node::CdLabel(dup_cd_label(s))
        },
        Node::CdLabelParent(s) => {
            proof { assert(*n == Node::CdLabelParent(*s)); }
            Node::CdLabelParent(dup_cd_label_parent(s))
        },
        Node::Color(s) => {
            proof { assert(*n == Node::Color(*s)); }
            Node::Color(dup_color(s))
        },
        Node::ColorToken(s) => {
            proof { assert(*n == Node::ColorToken(*s)); }
            Node::ColorToken(dup_color_token(s))
        },
        Node::Op(s) => {
            proof { assert(*n == Node::Op(*s)); }
            Node::Op(dup_op(s))
        },
        Node::OrdGroup(s) => {
            proof { assert(*n == Node::OrdGroup(*s)); }
            Node::OrdGroup(dup_ord_group(s))
        },
        Node::Raw(s) => {
            proof { assert(*n == Node::Raw(*s)); }
            Node::Raw(dup_raw(s))
        },
        Node::Size(s) => {
            proof { assert(*n == Node::Size(*s)); }
            Node::Size(dup_size(s))
        },
        Node::Styling(s) => {
            proof { assert(*n == Node::Styling(*s)); }
            Node::Styling(dup_styling(s))
        },
        Node::SupSub(s) => {
            proof { assert(*n == Node::SupSub(*s)); }
            Node::SupSub(dup_sup_sub(s))
        },
        Node::Tag(s) => {
            proof { assert(*n == Node::Tag(*s)); }
            Node::Tag(dup_tag(s))
        },
        Node::Text(s) => {
            proof { assert(*n == Node::Text(*s)); }
            Node::Text(dup_text(s))
        },
        Node::Url(s) => {
            proof { assert(*n == Node::Url(*s)); }
            Node::Url(dup_url(s))
        },
        Node::Verb(s) => {
            proof { assert(*n == Node::Verb(*s)); }
            Node::Verb(dup_verb(s))
        },
        Node::Atom(s) => {
            proof { assert(*n == Node::Atom(*s)); }
            Node::Atom(dup_atom(s))
        },
        Node::MathOrd(s) => {
            proof { assert(*n == Node::MathOrd(*s)); }
            Node::MathOrd(dup_math_ord(s))
        },
        Node::Spacing(s) => {
            proof { assert(*n == Node::Spacing(*s)); }
            Node::Spacing(dup_spacing(s))
        },
        Node::TextOrd(s) => {
            proof { assert(*n == Node::TextOrd(*s)); }
            Node::TextOrd(dup_text_ord(s))
        },
        Node::AccentToken(s) => {
            proof { assert(*n == Node::AccentToken(*s)); }
            Node::AccentToken(dup_accent_token(s))
        },
        Node::OpToken(s) => {
            proof { assert(*n == Node::OpToken(*s)); }
            Node::OpToken(dup_op_token(s))
        },
        Node::Accent(s) => {
            proof { assert(*n == Node::Accent(*s)); }
            Node::Accent(dup_accent(s))
        },
        Node::AccentUnder(s) => {
            proof { assert(*n == Node::AccentUnder(*s)); }
            Node::AccentUnder(dup_accent_under(s))
        },
        Node::Cr(s) => {
            proof { assert(*n == Node::Cr(*s)); }
            Node::Cr(dup_cr(s))
        },
        Node::DelimSizing(s) => {
            proof { assert(*n == Node::DelimSizing(*s)); }
            Node::DelimSizing(dup_delim_sizing(s))
        },
        Node::Enclose(s) => {
            proof { assert(*n == Node::Enclose(*s)); }
            Node::Enclose(dup_enclose(s))
        },
        Node::Environment(s) => {
            proof { assert(*n == Node::Environment(*s)); }
            Node::Environment(dup_environment(s))
        },
        Node::Font(s) => {
            proof { assert(*n == Node::Font(*s)); }
            Node::Font(dup_font(s))
        },
        Node::GenFrac(s) => {
            proof { assert(*n == Node::GenFrac(*s)); }
            Node::GenFrac(dup_gen_frac(s))
        },
        Node::HBox(s) => {
            proof { assert(*n == Node::HBox(*s)); }
            Node::HBox(dup_h_box(s))
        },
        Node::HorizBrace(s) => {
            proof { assert(*n == Node::HorizBrace(*s)); }
            Node::HorizBrace(dup_horiz_brace(s))
        },
        Node::HRef(s) => {
            proof { assert(*n == Node::HRef(*s)); }
            Node::HRef(dup_h_ref(s))
        },
        Node::Html(s) => {
            proof { assert(*n == Node::Html(*s)); }
            Node::Html(dup_html(s))
        },
        Node::HtmlMathML(s) => {
            proof { assert(*n == Node::HtmlMathML(*s)); }
            Node::HtmlMathML(dup_html_math_ml(s))
        },
        Node::IncludeGraphics(s) => {
            proof { assert(*n == Node::IncludeGraphics(*s)); }
            Node::IncludeGraphics(dup_include_graphics(s))
        },
        Node::Infix(s) => {
            proof { assert(*n == Node::Infix(*s)); }
            Node::Infix(dup_infix(s))
        },
        Node::Internal(s) => {
            proof { assert(*n == Node::Internal(*s)); }
            Node::Internal(dup_internal(s))
        },
        Node::Kern(s) => {
            proof { assert(*n == Node::Kern(*s)); }
            Node::Kern(dup_kern(s))
        },
        Node::Lap(s) => {
            proof { assert(*n == Node::Lap(*s)); }
            Node::Lap(dup_lap(s))
        },
        Node::LeftRight(s) => {
            proof { assert(*n == Node::LeftRight(*s)); }
            Node::LeftRight(dup_left_right(s))
        },
        Node::LeftRightRight(s) => {
            proof { assert(*n == Node::LeftRightRight(*s)); }
            Node::LeftRightRight(dup_left_right_right(s))
        },
        Node::MathChoice(s) => {
            proof { assert(*n == Node::MathChoice(*s)); }
            Node::MathChoice(dup_math_choice(s))
        },
        Node::Middle(s) => {
            proof { assert(*n == Node::Middle(*s)); }
            Node::Middle(dup_middle(s))
        },
        Node::MClass(s) => {
            proof { assert(*n == Node::MClass(*s)); }
            Node::MClass(dup_m_class(s))
        },
        Node::OperatorName(s) => {
            proof { assert(*n == Node::OperatorName(*s)); }
            Node::OperatorName(dup_operator_name(s))
        },
        Node::Overline(s) => {
            proof { assert(*n == Node::Overline(*s)); }
            Node::Overline(dup_overline(s))
        },
        Node::Phantom(s) => {
            proof { assert(*n == Node::Phantom(*s)); }
            Node::Phantom(dup_phantom(s))
        },
        Node::HPhantom(s) => {
            proof { assert(*n == Node::HPhantom(*s)); }
            Node::HPhantom(dup_h_phantom(s))
        },
        Node::VPhantom(s) => {
            proof { assert(*n == Node::VPhantom(*s)); }
            Node::VPhantom(dup_v_phantom(s))
        },
        Node::Pmb(s) => {
            proof { assert(*n == Node::Pmb(*s)); }
            Node::Pmb(dup_pmb(s))
        },
        Node::RaiseBox(s) => {
            proof { assert(*n == Node::RaiseBox(*s)); }
            Node::RaiseBox(dup_raise_box(s))
        },
        Node::Rule(s) => {
            proof { assert(*n == Node::Rule(*s)); }
            Node::Rule(dup_rule(s))
        },
        Node::Sizing(s) => {
            proof { assert(*n == Node::Sizing(*s)); }
            Node::Sizing(dup_sizing(s))
        },
        Node::Smash(s) => {
            proof { assert(*n == Node::Smash(*s)); }
            Node::Smash(dup_smash(s))
        },
        Node::Sqrt(s) => {
            proof { assert(*n == Node::Sqrt(*s)); }
            Node::Sqrt(dup_sqrt(s))
        },
        Node::Underline(s) => {
            proof { assert(*n == Node::Underline(*s)); }
            Node::Underline(dup_underline(s))
        },
        Node::VCenter(s) => {
            proof { assert(*n == Node::VCenter(*s)); }
            Node::VCenter(dup_v_center(s))
        },
        Node::XArrow(s) => {
            proof { assert(*n == Node::XArrow(*s)); }
            Node::XArrow(dup_x_arrow(s))
        },
    }
}

/// Copies a run of destination nodes; the copy has the same view.
#[verifier::loop_isolation(false)]
pub fn dup_node_list(ns: &Vec<Node>) -> (r: Vec<Node>)
    ensures
        node_list_view(r@) == node_list_view(ns@),
    decreases ns,
{
    let mut out: Vec<Node> = Vec::new();
    let mut i: usize = 0;
    while i < ns.len()
        invariant
            i <= ns.len(),
            node_list_view(out@) =~= node_list_view(ns@.subrange(0, i as int)),
        decreases ns.len() - i,
    {
        let d = dup_node(&ns[i]);
        proof {
            lemma_node_list_view_push(out@, d);
            lemma_node_list_view_push(ns@.subrange(0, i as int), ns@[i as int]);
            assert(ns@.subrange(0, i as int).push(ns@[i as int]) =~= ns@.subrange(0, i + 1 as int));
        }
        out.push(d);
        i += 1;
    }
    assert(ns@.subrange(0, ns@.len() as int) =~= ns@);
    out
}

/// Copies a grid of destination nodes; the copy has the same view.
#[verifier::loop_isolation(false)]
fn dup_node_grid(g: &Vec<Vec<Node>>) -> (r: Vec<Vec<Node>>)
    ensures
        node_grid_view(r@) == node_grid_view(g@),
    decreases g,
{
    let mut out: Vec<Vec<Node>> = Vec::new();
    let mut i: usize = 0;
    while i < g.len()
        invariant
            i <= g.len(),
            node_grid_view(out@) =~= node_grid_view(g@.subrange(0, i as int)),
        decreases g.len() - i,
    {
        let d = dup_node_list(&g[i]);
        proof {
            lemma_node_grid_view_push(out@, d);
            lemma_node_grid_view_push(g@.subrange(0, i as int), g@[i as int]);
            assert(g@.subrange(0, i as int).push(g@[i as int]) =~= g@.subrange(0, i + 1 as int));
        }
        out.push(d);
        i += 1;
    }
    assert(g@.subrange(0, g@.len() as int) =~= g@);
    out
}

/// Copies an optional boxed node; the copy has the same view.
fn dup_opt_box_node(o: &Option<Box<Node>>) -> (r: Option<Box<Node>>)
    ensures
        opt_box_node_view(r) == opt_box_node_view(*o),
    decreases o,
{
    match o {
        Some(b) => Some(Box::new(dup_node(&**b))),
        None => None,
    }
}

/// Copies an optional run of destination nodes; the copy has the same view.
fn dup_opt_node_list(o: &Option<Vec<Node>>) -> (r: Option<Vec<Node>>)
    ensures
        opt_node_list_view(r) == opt_node_list_view(*o),
    decreases o,
{
    match o {
        Some(v) => Some(dup_node_list(v)),
        None => None,
    }
}

/// Copies one tag entry; the copy has the same view.
fn dup_tag_entry(t: &TagType) -> (r: TagType)
    ensures
        tag_view(r) == tag_view(*t),
    decreases t,
{
    match t {
        TagType::Bool(b) => TagType::Bool(*b),
        TagType::NodeArray(ns) => TagType::NodeArray(dup_node_list(ns)),
    }
}

/// The view of a tag list commutes with appending one entry.
pub broadcast proof fn lemma_tag_list_view_push(ts: Seq<TagType>, t: TagType)
    ensures
        #[trigger] tag_list_view(ts.push(t)) == tag_list_view(ts).push(tag_view(t)),
{
    assert(ts.push(t).drop_last() =~= ts);
    assert(ts.push(t).last() == t);
}

/// Copies an optional tag list; the copy has the same view.
#[verifier::loop_isolation(false)]
#[verifier::rlimit(100)]
#[verifier::spinoff_prover]
fn dup_opt_tags(o: &Option<Vec<TagType>>) -> (r: Option<Vec<TagType>>)
    ensures
        opt_tags_view(r) == opt_tags_view(*o),
    decreases o,
{
    match o {
        Some(v) => {
            let mut out: Vec<TagType> = Vec::new();
            let mut i: usize = 0;
            while i < v.len()
                invariant
                    i <= v.len(),
                    tag_list_view(out@) =~= tag_list_view(v@.subrange(0, i as int)),
                decreases v.len() - i,
            {
                let d = dup_tag_entry(&v[i]);
                proof {
                    lemma_tag_list_view_push(out@, d);
                    lemma_tag_list_view_push(v@.subrange(0, i as int), v@[i as int]);
                    assert(v@.subrange(0, i as int).push(v@[i as int]) =~= v@.subrange(
                        0,
                        i + 1 as int,
                    ));
                }
                out.push(d);
                i += 1;
            }
            assert(v@.subrange(0, v@.len() as int) =~= v@);
            Some(out)
        },
        None => None,
    }
}

} // verus!
