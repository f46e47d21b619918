//! The source expression tree that the converter consumes.
//!
//! The external typesetting engine produces an opaque content tree; callers
//! resolve every style-dependent attribute (math variant, delimiter choice,
//! resolved spacing) while translating it into this model, so the converter
//! works on plain values only. One variant exists per source construct the
//! converter distinguishes, including the kinds it deliberately refuses.

use vstd::prelude::*;

verus! {

broadcast use
    vstd::seq::axiom_seq_index_decreases,
    vstd::std_specs::vec::axiom_vec_index_decreases,
    vstd::std_specs::vec::axiom_vec_decreases_to_view,
;

/// A resolved styled-variant tag.
#[derive(Clone, Copy, Debug, PartialEq, Eq, Structural)]
pub enum MathVariant {
    Bb,
    Cal,
    Serif,
    Sans,
    Frak,
    Mono,
}

/// A delimiter kind of a matrix, vector or case split.
#[derive(Clone, Copy, Debug, PartialEq, Eq, Structural)]
pub enum Delimiter {
    Paren,
    Bracket,
    Brace,
    Bar,
    DoubleBar,
}

/// The opening character of a delimiter kind.
pub open spec fn delim_open_spec(d: Delimiter) -> char {
    match d {
        Delimiter::Paren => '(',
        Delimiter::Bracket => '[',
        Delimiter::Brace => '{',
        Delimiter::Bar => '|',
        Delimiter::DoubleBar => '‖',
    }
}

/// The closing character of a delimiter kind.
pub open spec fn delim_close_spec(d: Delimiter) -> char {
    match d {
        Delimiter::Paren => ')',
        Delimiter::Bracket => ']',
        Delimiter::Brace => '}',
        Delimiter::Bar => '|',
        Delimiter::DoubleBar => '‖',
    }
}

/// The opening and closing characters of a delimiter kind.
pub trait DelimiterOpenClose {
    /// The delimiter's opening character.
    fn open(self) -> char;

    /// The delimiter's closing character.
    fn close(self) -> char;
}

impl DelimiterOpenClose for Delimiter {
    /// The delimiter's opening character.
    fn open(self) -> (r: char)
        ensures
            r == delim_open_spec(self),
    {
        match self {
            Delimiter::Paren => '(',
            Delimiter::Bracket => '[',
            Delimiter::Brace => '{',
            Delimiter::Bar => '|',
            Delimiter::DoubleBar => '‖',
        }
    }

    /// The delimiter's closing character.
    fn close(self) -> (r: char)
        ensures
            r == delim_close_spec(self),
    {
        match self {
            Delimiter::Paren => ')',
            Delimiter::Bracket => ']',
            Delimiter::Brace => '}',
            Delimiter::Bar => '|',
            Delimiter::DoubleBar => '‖',
        }
    }
}

/// A resolved horizontal-skip amount: a length in thousandths of an em, or a
/// stretchy fraction of free space in thousandths of a fraction unit.
#[derive(Clone, Copy, Debug, PartialEq, Eq, Structural)]
pub enum SpacingAmount {
    Rel { em_milli: i64 },
    Fr { milli: i64 },
}

/// One node of the source expression tree, with every style-dependent
/// attribute already resolved to a plain value.
#[derive(Debug, PartialEq)]
pub enum Content {
    /// A top-level equation around its body.
    Equation { body: Box<Content> },
    /// A flat run of sibling nodes, possibly holding line-break and
    /// align-point markers.
    Sequence { children: Vec<Content> },
    /// A text run, one entry per character.
    Text { characters: Vec<char> },
    /// A word space.
    Space,
    /// A line-break marker.
    Linebreak,
    /// An align-point marker.
    AlignPoint,
    /// A delimited group; its body starts and ends with the delimiter
    /// symbols.
    Lr { body: Box<Content> },
    /// A base with optional attachments. The four corner scripts are
    /// recognized but dropped with a warning.
    Attach {
        base: Box<Content>,
        t: Option<Box<Content>>,
        b: Option<Box<Content>>,
        tl: Option<Box<Content>>,
        tr: Option<Box<Content>>,
        bl: Option<Box<Content>>,
        br: Option<Box<Content>>,
    },
    /// A styled-variant wrapper with its resolved variant tag, if any.
    MathStyle { body: Box<Content>, variant: Option<MathVariant> },
    /// A horizontal skip.
    H { amount: SpacingAmount },
    /// A fraction.
    Frac { num: Box<Content>, denom: Box<Content> },
    /// A column vector with its resolved delimiter kind.
    Vector { children: Vec<Content>, delim: Delimiter },
    /// A matrix, row-major, with its resolved delimiter kind.
    Mat { rows: Vec<Vec<Content>>, delim: Delimiter },
    /// A named operator.
    Op { text: String },
    /// A case split; each child is expected to be a sequence and becomes
    /// rows.
    Cases { children: Vec<Content> },
    /// A binomial-style construct: one upper part over a comma-joined list
    /// of lower parts.
    Binom { upper: Box<Content>, lower: Vec<Content> },
    /// A cancellation mark over its body.
    Cancel { body: Box<Content> },
    /// An over-brace with an optional annotation.
    Overbrace { body: Box<Content>, annotation: Option<Box<Content>> },
    /// An under-brace with an optional annotation.
    Underbrace { body: Box<Content>, annotation: Option<Box<Content>> },
    /// An overline.
    Overline { body: Box<Content> },
    /// An underline.
    Underline { body: Box<Content> },
    /// A radical with an optional index.
    Root { index: Option<Box<Content>>, radicand: Box<Content> },
    /// A middle delimiter, reduced to its plain-text rendering.
    Mid { text: String },
    /// A marker forcing limit placement on an enclosing attachment.
    Limits { body: Box<Content> },
    /// A marker suppressing limit placement on an enclosing attachment.
    Scripts { body: Box<Content> },
    /// An over-bracket; deliberately untranslated.
    Overbracket { body: Box<Content>, annotation: Option<Box<Content>> },
    /// An under-bracket; deliberately untranslated.
    Underbracket { body: Box<Content>, annotation: Option<Box<Content>> },
    /// A class wrapper; deliberately untranslated.
    Class { body: Box<Content> },
    /// A primes marker; deliberately untranslated.
    Primes { count: usize },
    /// An accent composition; deliberately untranslated.
    Accent { base: Box<Content>, accent: char },
}

/// Ghost mirror of [`Content`].
pub enum ContentV {
    Equation { body: Box<ContentV> },
    Sequence { children: Seq<ContentV> },
    Text { characters: Seq<char> },
    Space,
    Linebreak,
    AlignPoint,
    Lr { body: Box<ContentV> },
    Attach {
        base: Box<ContentV>,
        t: Option<Box<ContentV>>,
        b: Option<Box<ContentV>>,
        tl: Option<Box<ContentV>>,
        tr: Option<Box<ContentV>>,
        bl: Option<Box<ContentV>>,
        br: Option<Box<ContentV>>,
    },
    MathStyle { body: Box<ContentV>, variant: Option<MathVariant> },
    H { amount: SpacingAmount },
    Frac { num: Box<ContentV>, denom: Box<ContentV> },
    Vector { children: Seq<ContentV>, delim: Delimiter },
    Mat { rows: Seq<Seq<ContentV>>, delim: Delimiter },
    Op { text: Seq<char> },
    Cases { children: Seq<ContentV> },
    Binom { upper: Box<ContentV>, lower: Seq<ContentV> },
    Cancel { body: Box<ContentV> },
    Overbrace { body: Box<ContentV>, annotation: Option<Box<ContentV>> },
    Underbrace { body: Box<ContentV>, annotation: Option<Box<ContentV>> },
    Overline { body: Box<ContentV> },
    Underline { body: Box<ContentV> },
    Root { index: Option<Box<ContentV>>, radicand: Box<ContentV> },
    Mid { text: Seq<char> },
    Limits { body: Box<ContentV> },
    Scripts { body: Box<ContentV> },
    Overbracket { body: Box<ContentV>, annotation: Option<Box<ContentV>> },
    Underbracket { body: Box<ContentV>, annotation: Option<Box<ContentV>> },
    Class { body: Box<ContentV> },
    Primes { count: usize },
    Accent { base: Box<ContentV>, accent: char },
}

/// View of one source node.
pub open spec fn content_view(c: Content) -> ContentV
    decreases c,
{
    match c {
        Content::Equation { body } => ContentV::Equation { body: Box::new(content_view(*body)) },
        Content::Sequence { children } => ContentV::Sequence {
            children: content_list_view(children@),
        },
        Content::Text { characters } => ContentV::Text { characters: characters@ },
        Content::Space => ContentV::Space,
        Content::Linebreak => ContentV::Linebreak,
        Content::AlignPoint => ContentV::AlignPoint,
        Content::Lr { body } => ContentV::Lr { body: Box::new(content_view(*body)) },
        Content::Attach { base, t, b, tl, tr, bl, br } => ContentV::Attach {
            base: Box::new(content_view(*base)),
            t: opt_box_content_view(t),
            b: opt_box_content_view(b),
            tl: opt_box_content_view(tl),
            tr: opt_box_content_view(tr),
            bl: opt_box_content_view(bl),
            br: opt_box_content_view(br),
        },
        Content::MathStyle { body, variant } => ContentV::MathStyle {
            body: Box::new(content_view(*body)),
            variant,
        },
        Content::H { amount } => ContentV::H { amount },
        Content::Frac { num, denom } => ContentV::Frac {
            num: Box::new(content_view(*num)),
            denom: Box::new(content_view(*denom)),
        },
        Content::Vector { children, delim } => ContentV::Vector {
            children: content_list_view(children@),
            delim,
        },
        Content::Mat { rows, delim } => ContentV::Mat {
            rows: content_grid_view(rows@),
            delim,
        },
        Content::Op { text } => ContentV::Op { text: text@ },
        Content::Cases { children } => ContentV::Cases {
            children: content_list_view(children@),
        },
        Content::Binom { upper, lower } => ContentV::Binom {
            upper: Box::new(content_view(*upper)),
            lower: content_list_view(lower@),
        },
        Content::Cancel { body } => ContentV::Cancel { body: Box::new(content_view(*body)) },
        Content::Overbrace { body, annotation } => ContentV::Overbrace {
            body: Box::new(content_view(*body)),
            annotation: opt_box_content_view(annotation),
        },
        Content::Underbrace { body, annotation } => ContentV::Underbrace {
            body: Box::new(content_view(*body)),
            annotation: opt_box_content_view(annotation),
        },
        Content::Overline { body } => ContentV::Overline { body: Box::new(content_view(*body)) },
        Content::Underline { body } => ContentV::Underline { body: Box::new(content_view(*body)) },
        Content::Root { index, radicand } => ContentV::Root {
            index: opt_box_content_view(index),
            radicand: Box::new(content_view(*radicand)),
        },
        Content::Mid { text } => ContentV::Mid { text: text@ },
        Content::Limits { body } => ContentV::Limits { body: Box::new(content_view(*body)) },
        Content::Scripts { body } => ContentV::Scripts { body: Box::new(content_view(*body)) },
        Content::Overbracket { body, annotation } => ContentV::Overbracket {
            body: Box::new(content_view(*body)),
            annotation: opt_box_content_view(annotation),
        },
        Content::Underbracket { body, annotation } => ContentV::Underbracket {
            body: Box::new(content_view(*body)),
            annotation: opt_box_content_view(annotation),
        },
        Content::Class { body } => ContentV::Class { body: Box::new(content_view(*body)) },
        Content::Primes { count } => ContentV::Primes { count },
        Content::Accent { base, accent } => ContentV::Accent {
            base: Box::new(content_view(*base)),
            accent,
        },
    }
}

/// View of a list of source nodes, element by element and in order.
pub open spec fn content_list_view(cs: Seq<Content>) -> Seq<ContentV>
    decreases cs,
{
    if cs.len() == 0 {
        Seq::empty()
    } else {
        content_list_view(cs.drop_last()).push(content_view(cs.last()))
    }
}

/// View of a grid of source nodes, row by row.
pub open spec fn content_grid_view(rows: Seq<Vec<Content>>) -> Seq<Seq<ContentV>>
    decreases rows,
{
    if rows.len() == 0 {
        Seq::empty()
    } else {
        content_grid_view(rows.drop_last()).push(content_list_view(rows.last()@))
    }
}

/// View of an optional boxed source node.
pub open spec fn opt_box_content_view(o: Option<Box<Content>>) -> Option<Box<ContentV>>
    decreases o,
{
    match o {
        Some(b) => Some(Box::new(content_view(*b))),
        None => None,
    }
}

impl Content {
    /// Whether this node is a flat sequence.
    pub fn is_sequence(&self) -> (r: bool)
        ensures
            r == (self is Sequence),
    {
        match self {
            Content::Sequence { .. } => true,
            _ => false,
        }
    }

    /// Whether this node is a line-break marker.
    pub fn is_linebreak(&self) -> (r: bool)
        ensures
            r == (self is Linebreak),
    {
        match self {
            Content::Linebreak => true,
            _ => false,
        }
    }

    /// Whether this node is an align-point marker.
    pub fn is_align_point(&self) -> (r: bool)
        ensures
            r == (self is AlignPoint),
    {
        match self {
            Content::AlignPoint => true,
            _ => false,
        }
    }
}

/// The view preserves the marker and sequence variants.
pub proof fn lemma_content_view_variants(c: Content)
    ensures
        (content_view(c) is Linebreak) == (c is Linebreak),
        (content_view(c) is AlignPoint) == (c is AlignPoint),
        (content_view(c) is Sequence) == (c is Sequence),
        c is Sequence ==> content_view(c)->Sequence_children == content_list_view(
            c->Sequence_children@,
        ),
{
}

impl DeepView for Content {
    type V = ContentV;

    open spec fn deep_view(&self) -> ContentV {
        content_view(*self)
    }
}

/// The view of a list commutes with appending one node.
pub broadcast proof fn lemma_content_list_view_push(cs: Seq<Content>, c: Content)
    ensures
        #[trigger] content_list_view(cs.push(c)) == content_list_view(cs).push(content_view(c)),
{
    assert(cs.push(c).drop_last() =~= cs);
    assert(cs.push(c).last() == c);
}

/// The view of a list determines its length and its elements.
pub proof fn lemma_content_list_view_index(cs: Seq<Content>)
    ensures
        content_list_view(cs).len() == cs.len(),
        forall|i: int| 0 <= i < cs.len() ==> content_list_view(cs)[i] == content_view(
            #[trigger] cs[i],
        ),
    decreases cs,
{
    if cs.len() > 0 {
        lemma_content_list_view_index(cs.drop_last());
        assert forall|i: int| 0 <= i < cs.len() implies content_list_view(cs)[i] == content_view(
            #[trigger] cs[i],
        ) by {
            if i < cs.len() - 1 {
                assert(cs.drop_last()[i] == cs[i]);
            } else {
                assert(cs.last() == cs[i]);
            }
        }
    }
}

/// The view of a grid determines its length and its rows.
pub proof fn lemma_content_grid_view_index(rows: Seq<Vec<Content>>)
    ensures
        content_grid_view(rows).len() == rows.len(),
        forall|i: int| 0 <= i < rows.len() ==> content_grid_view(rows)[i] == content_list_view(
            #[trigger] rows[i]@,
        ),
    decreases rows,
{
    if rows.len() > 0 {
        lemma_content_grid_view_index(rows.drop_last());
        assert forall|i: int| 0 <= i < rows.len() implies content_grid_view(rows)[i]
            == content_list_view(#[trigger] rows[i]@) by {
            if i < rows.len() - 1 {
                assert(rows.drop_last()[i] == rows[i]);
            } else {
                assert(rows.last() == rows[i]);
            }
        }
    }
}

} // verus!
