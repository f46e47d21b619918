//! The executable converter: a dispatcher over the source constructs with one
//! routine per construct, each proved to produce exactly the tree that
//! [`crate::semantics::cv`] states and to emit exactly the warnings it lists.

use vstd::prelude::*;
use vstd::pervasive::unreached;
use crate::content::{
    Content, ContentV, Delimiter, DelimiterOpenClose, MathVariant, SpacingAmount, content_view,
    content_list_view, content_grid_view, opt_box_content_view, lemma_content_list_view_index,
    lemma_content_grid_view_index,
};
use crate::katex::types::{Mode, ColSeparationType, StyleStr, GenFracSizeType, Measurement};
use crate::katex::node::{
    Node as KatexNode, NodeV, NodeArray, OrdGroup, Styling, SupSub, Text, Op, Kern, GenFrac,
    Middle, Enclose, Font, Overline, Underline, Sqrt, HorizBrace, LeftRight, node_view,
    node_list_view, node_grid_view, lemma_node_list_view_index, lemma_node_list_view_concat,
    lemma_node_grid_view_index, lemma_node_grid_view_push, lemma_node_view_atom_cases,
    lemma_node_view_ord_group, lemma_node_view_sup_sub, lemma_node_view_op, lemma_node_view_kern,
    lemma_node_view_gen_frac, lemma_node_view_middle, lemma_node_view_enclose,
    lemma_node_view_font, lemma_node_view_overline, lemma_node_view_underline,
    lemma_node_view_sqrt, lemma_node_view_horiz_brace, lemma_node_view_left_right,
    lemma_node_view_styling,
    lemma_node_view_array, lemma_node_view_atom, lemma_node_view_text, dup_node_list,
};
use crate::katex::symbol::Symbol;
use crate::katex::constructor::{ArrayConstructor, make_empty_h_lines};
use crate::node::{
    Node, IrV, ir_view, ir_as_array, ir_as_node, ordgroup_v, ir_fallback_ordgroup,
    lemma_node_list_view_singleton,
};
use crate::error::{ConvertError, UnsupportedKind, Warning};
use crate::semantics::{
    CvOut, SeqState, SeqOut, RowsOut, RunOut, CaseRowsOut, cv, cv_sequence, cv_elems,
    cv_elems_step, init_seq_state, dump_spec, flatten_irs, flatten_body, flatten_runs,
    max_row_len, max_runs_len, cols_leftright_spec, cols_center_spec, empty_h_lines,
    align_cell_v, align_row_v, align_body_v, align_array_v, table_cell_v, corner_warns,
    variant_font, text_nodes_v, supsub_v, brace_out, sqrt_out, limit_marker_out, vector_rows_v,
    vector_leftright_v, delim_leftright_v, mat_rows_v, mat_cells_v, mat_leftright_v,
    cases_rows_v, cases_leftright_v, cases_body_v, cases_row_v, binom_parts_v, binom_genfrac_v,
    attach_out,
    lemma_cv_elems_empty, lemma_cv_elems_one, lemma_cv_elems_snoc, lemma_flatten_irs_push,
    lemma_flatten_body_push, lemma_flatten_runs_push, lemma_max_runs_len_push,
    lemma_max_row_len_push,
};
use crate::strings::{char_string, backslash_prefixed};
use crate::utils::{insert_separator, insert_separator_spec};

verus! {

broadcast use
    vstd::seq::axiom_seq_index_decreases,
    vstd::std_specs::vec::axiom_vec_index_decreases,
    vstd::std_specs::vec::axiom_vec_decreases_to_view,
;

/// An executable result agrees with a specified one when they fail the same
/// way or succeed with the same view.
pub open spec fn agrees(r: Result<Node, ConvertError>, res: Result<IrV, ConvertError>) -> bool {
    match r {
        Ok(w) => res == Ok::<IrV, ConvertError>(ir_view(w)),
        Err(er) => res == Err::<IrV, ConvertError>(er),
    }
}

/// View of a list of intermediate results.
pub open spec fn irs_view(ss: Seq<Node>) -> Seq<IrV>
    decreases ss,
{
    if ss.len() == 0 {
        Seq::empty()
    } else {
        irs_view(ss.drop_last()).push(ir_view(ss.last()))
    }
}

/// View of a grid of intermediate results, row by row.
pub open spec fn rows_view(rs: Seq<Vec<Node>>) -> Seq<Seq<IrV>>
    decreases rs,
{
    if rs.len() == 0 {
        Seq::empty()
    } else {
        rows_view(rs.drop_last()).push(irs_view(rs.last()@))
    }
}

/// The view of a result list commutes with appending.
pub broadcast proof fn lemma_irs_view_push(ss: Seq<Node>, w: Node)
    ensures
        #[trigger] irs_view(ss.push(w)) == irs_view(ss).push(ir_view(w)),
{
    assert(ss.push(w).drop_last() =~= ss);
    assert(ss.push(w).last() == w);
}

/// The view of a result list determines its length and elements.
pub proof fn lemma_irs_view_index(ss: Seq<Node>)
    ensures
        irs_view(ss).len() == ss.len(),
        forall|i: int| 0 <= i < ss.len() ==> irs_view(ss)[i] == ir_view(#[trigger] ss[i]),
    decreases ss,
{
    if ss.len() > 0 {
        lemma_irs_view_index(ss.drop_last());
        assert forall|i: int| 0 <= i < ss.len() implies irs_view(ss)[i] == ir_view(
            #[trigger] ss[i],
        ) by {
            if i < ss.len() - 1 {
                assert(ss.drop_last()[i] == ss[i]);
            } else {
                assert(ss.last() == ss[i]);
            }
        }
    }
}

/// The view of a result grid commutes with appending a row.
pub broadcast proof fn lemma_rows_view_push(rs: Seq<Vec<Node>>, row: Vec<Node>)
    ensures
        #[trigger] rows_view(rs.push(row)) == rows_view(rs).push(irs_view(row@)),
{
    assert(rs.push(row).drop_last() =~= rs);
    assert(rs.push(row).last() == row);
}

/// The view of a result grid commutes with concatenation.
pub proof fn lemma_rows_view_concat(a: Seq<Vec<Node>>, b: Seq<Vec<Node>>)
    ensures
        rows_view(a + b) == rows_view(a) + rows_view(b),
    decreases b,
{
    if b.len() == 0 {
        assert(a + b =~= a);
        assert(rows_view(a) + rows_view(b) =~= rows_view(a));
    } else {
        lemma_rows_view_concat(a, b.drop_last());
        assert((a + b).drop_last() =~= a + b.drop_last());
        assert((a + b).last() == b.last());
        assert(rows_view(a) + rows_view(b) =~= (rows_view(a) + rows_view(b.drop_last())).push(
            irs_view(b.last()@),
        ));
    }
}

/// The view of a result grid determines its length and rows.
pub proof fn lemma_rows_view_index(rs: Seq<Vec<Node>>)
    ensures
        rows_view(rs).len() == rs.len(),
        forall|i: int| 0 <= i < rs.len() ==> rows_view(rs)[i] == irs_view(#[trigger] rs[i]@),
    decreases rs,
{
    if rs.len() > 0 {
        lemma_rows_view_index(rs.drop_last());
        assert forall|i: int| 0 <= i < rs.len() implies rows_view(rs)[i] == irs_view(
            #[trigger] rs[i]@,
        ) by {
            if i < rs.len() - 1 {
                assert(rs.drop_last()[i] == rs[i]);
            } else {
                assert(rs.last() == rs[i]);
            }
        }
    }
}

/// An empty run result.
#[verifier::rlimit(100)]
#[verifier::spinoff_prover]
fn empty_ir() -> (r: Node)
    ensures
        ir_view(r) == IrV::Array(Seq::<NodeV>::empty()),
{
    let v: NodeArray = Vec::new();
    proof {
        assert(node_list_view(v@) =~= Seq::<NodeV>::empty());
    }
    Node::Array(v)
}

/// A plain math-mode group node around a run.
#[verifier::rlimit(100)]
#[verifier::spinoff_prover]
fn make_ordgroup(body: NodeArray) -> (r: KatexNode)
    ensures
        node_view(r) == ordgroup_v(Mode::Math, node_list_view(body@)),
{
    let og = OrdGroup { mode: Mode::Math, loc: None, body, semisimple: None };
    proof {
        lemma_node_view_ord_group(og);
    }
    KatexNode::OrdGroup(og)
}

/// A styling wrapper of the given style whose body is one group around the
/// run.
#[verifier::rlimit(100)]
#[verifier::spinoff_prover]
fn make_cell(style: StyleStr, run: NodeArray) -> (r: KatexNode)
    ensures
        node_view(r) == (NodeV::Styling {
            mode: Mode::Math,
            loc: None,
            style,
            body: seq![ordgroup_v(Mode::Math, node_list_view(run@))],
        }),
{
    let ghost runv = node_list_view(run@);
    let og = make_ordgroup(run);
    let mut body: NodeArray = Vec::new();
    body.push(og);
    proof {
        assert(body@ =~= seq![og]);
        lemma_node_list_view_singleton(og);
    }
    let st = Styling { mode: Mode::Math, loc: None, style, body };
    proof {
        lemma_node_view_styling(st);
    }
    KatexNode::Styling(st)
}


/// An operator node standing for a limit-placement marker.
#[verifier::rlimit(100)]
#[verifier::spinoff_prover]
fn make_marker_op(body: NodeArray, limits: bool) -> (r: KatexNode)
    ensures
        node_view(r) == (NodeV::Op {
            mode: Mode::Math,
            loc: None,
            limits,
            always_handle_sup_sub: None,
            suppress_base_shift: None,
            parent_is_sup_sub: false,
            symbol: false,
            name: None,
            body: Some(node_list_view(body@)),
        }),
{
    let op = Op {
        mode: Mode::Math,
        loc: None,
        limits,
        always_handle_sup_sub: None,
        suppress_base_shift: None,
        parent_is_sup_sub: false,
        symbol: false,
        name: None,
        body: Some(body),
    };
    proof {
        lemma_node_view_op(op);
    }
    KatexNode::Op(op)
}

/// Wraps an array node in the open/close characters of a delimiter kind.
#[verifier::rlimit(100)]
#[verifier::spinoff_prover]
fn wrap_delims(array_node: KatexNode, delim: Delimiter) -> (r: KatexNode)
    ensures
        node_view(r) == delim_leftright_v(node_view(array_node), delim),
{
    let mut body: NodeArray = Vec::new();
    body.push(array_node);
    proof {
        assert(body@ =~= seq![body@[0]]);
        lemma_node_list_view_singleton(body@[0]);
    }
    let lr = LeftRight {
        mode: Mode::Math,
        loc: None,
        body,
        left: char_string(delim.open()),
        right: char_string(delim.close()),
        right_color: None,
    };
    proof {
        lemma_node_view_left_right(lr);
    }
    KatexNode::LeftRight(lr)
}

/// Feeds one finished row into the constructor: opens a row and pushes its
/// cells in order.
#[verifier::rlimit(100)]
#[verifier::spinoff_prover]
fn feed_row(constructor: &mut ArrayConstructor, row: Vec<KatexNode>)
    ensures
        node_grid_view(final(constructor).body@) == node_grid_view(
            old(constructor).body@,
        ).push(node_list_view(row@)),
        final(constructor).h_lines_before_row.deep_view() == old(
            constructor,
        ).h_lines_before_row.deep_view().push(Seq::<bool>::empty()),
        final(constructor).cols == old(constructor).cols,
{
    proof {
        lemma_node_list_view_index(row@);
    }
    constructor.next_row();
    proof {
        lemma_node_grid_view_push(old(constructor).body@, constructor.body@.last());
        assert(old(constructor).body@.push(constructor.body@.last()) =~= constructor.body@);
        assert(node_list_view(constructor.body@.last()@) =~= Seq::<NodeV>::empty());
        assert(node_list_view(row@.subrange(0, 0)) =~= Seq::<NodeV>::empty());
    }
    let ghost mid = constructor.body@;
    let ghost h1 = constructor.h_lines_before_row;
    let mut i: usize = 0;
    while i < row.len()
        invariant
            i <= row@.len(),
            constructor.body@.len() == mid.len(),
            constructor.body@.len() >= 1,
            constructor.body@.drop_last() == mid.drop_last(),
            node_list_view(constructor.body@.last()@) =~= node_list_view(
                row@.subrange(0, i as int),
            ),
            constructor.h_lines_before_row == h1,
            constructor.cols == old(constructor).cols,
        decreases row@.len() - i,
    {
        let n = crate::katex::node::dup_node(&row[i]);
        let ghost prev = constructor.body@.last()@;
        constructor.push_node(n);
        proof {
            crate::katex::node::lemma_node_list_view_push(prev, n);
            crate::katex::node::lemma_node_list_view_push(
                row@.subrange(0, i as int),
                row@[i as int],
            );
            assert(row@.subrange(0, i as int).push(row@[i as int]) =~= row@.subrange(
                0,
                i + 1,
            ));
        }
        i += 1;
    }
    proof {
        assert(row@.subrange(0, row@.len() as int) =~= row@);
        lemma_grid_last_row(mid, constructor.body@, node_list_view(row@));
        lemma_node_grid_view_push(old(constructor).body@, row);
        assert(node_grid_view(mid).update(mid.len() - 1, node_list_view(row@))
            =~= node_grid_view(old(constructor).body@).push(node_list_view(row@)));
    }
}

/// Two grids that differ only in their last row have views that differ only
/// there.
proof fn lemma_grid_last_row(a: Seq<Vec<KatexNode>>, b: Seq<Vec<KatexNode>>, rowv: Seq<NodeV>)
    requires
        a.len() == b.len(),
        a.len() >= 1,
        a.drop_last() == b.drop_last(),
        node_list_view(b.last()@) == rowv,
    ensures
        node_grid_view(b) == node_grid_view(a).update(a.len() - 1, rowv),
{
    lemma_node_grid_view_index(a);
    lemma_node_grid_view_index(b);
    assert forall|i: int| 0 <= i < b.len() implies node_grid_view(b)[i] == node_grid_view(
        a,
    ).update(a.len() - 1, rowv)[i] by {
        if i < a.len() - 1 {
            assert(a.drop_last()[i] == a[i]);
            assert(b.drop_last()[i] == b[i]);
        } else {
            assert(b[i] == b.last());
        }
    }
    assert(node_grid_view(b) =~= node_grid_view(a).update(a.len() - 1, rowv));
}

/// The converter over source trees. It carries the warnings emitted so far,
/// in emission order.
pub struct ContentConverter {
    pub warnings: Vec<Warning>,
}

/// Converts a source tree. On success the result is exactly the tree the
/// conversion semantics state; in either case the returned warnings are
/// exactly those the semantics list, in order.
#[verifier::rlimit(100)]
#[verifier::spinoff_prover]
pub fn convert(root: &Content) -> (r: (Result<Node, ConvertError>, Vec<Warning>))
    ensures
        agrees(r.0, cv(content_view(*root)).res),
        r.1@ == cv(content_view(*root)).warns,
{
    let mut converter = ContentConverter::new();
    let res = converter.convert(root);
    proof {
        assert(Seq::<Warning>::empty() + cv(content_view(*root)).warns =~= cv(
            content_view(*root),
        ).warns);
    }
    (res, converter.warnings)
}

impl ContentConverter {
    /// A fresh converter with no warnings.
    #[verifier::rlimit(100)]
    #[verifier::spinoff_prover]
    pub fn new() -> (r: ContentConverter)
        ensures
            r.warnings@ == Seq::<Warning>::empty(),
    {
        let v: Vec<Warning> = Vec::new();
        proof {
            assert(v@ =~= Seq::<Warning>::empty());
        }
        ContentConverter { warnings: v }
    }

    /// Records one warning.
    #[verifier::rlimit(100)]
    #[verifier::spinoff_prover]
    fn warn(&mut self, w: Warning)
        ensures
            final(self).warnings@ == old(self).warnings@.push(w),
    {
        self.warnings.push(w);
    }

    /// Converts one source node, appending exactly the warnings the
    /// semantics list for it.
    #[verifier::rlimit(100)]
    #[verifier::spinoff_prover]
    pub fn convert(&mut self, e: &Content) -> (r: Result<Node, ConvertError>)
        ensures
            final(self).warnings@ == old(self).warnings@ + cv(content_view(*e)).warns,
            agrees(r, cv(content_view(*e)).res),
        decreases e, 4int,
    {
        match e {
            Content::Equation { .. } => self.visit_equation(e),
            Content::Sequence { .. } => self.visit_sequence(e),
            Content::Text { .. } => self.visit_text(e),
            Content::Space => self.visit_space(e),
            Content::Linebreak => self.visit_linebreak(e),
            Content::AlignPoint => self.visit_align_point(e),
            Content::Lr { .. } => self.visit_lr(e),
            Content::Attach { .. } => self.visit_attach(e),
            Content::MathStyle { .. } => self.visit_math_style(e),
            Content::H { .. } => self.visit_h(e),
            Content::Frac { .. } => self.visit_frac(e),
            Content::Vector { .. } => self.visit_vec(e),
            Content::Mat { .. } => self.visit_mat(e),
            Content::Op { .. } => self.visit_op(e),
            Content::Cases { .. } => self.visit_cases(e),
            Content::Binom { .. } => self.visit_binom(e),
            Content::Cancel { .. } => self.visit_cancel(e),
            Content::Overbrace { .. } => self.visit_overbrace(e),
            Content::Underbrace { .. } => self.visit_underbrace(e),
            Content::Overline { .. } => self.visit_overline(e),
            Content::Underline { .. } => self.visit_underline(e),
            Content::Root { .. } => self.visit_root(e),
            Content::Mid { .. } => self.visit_mid(e),
            Content::Limits { .. } => self.visit_limits(e),
            Content::Scripts { .. } => self.visit_scripts(e),
            Content::Overbracket { .. } => self.visit_overbracket(e),
            Content::Underbracket { .. } => self.visit_underbracket(e),
            Content::Class { .. } => self.visit_class(e),
            Content::Primes { .. } => self.visit_primes(e),
            Content::Accent { .. } => self.visit_accent(e),
        }
    }

    /// An equation unwraps to its body, flattened into a run.
    #[verifier::rlimit(100)]
    #[verifier::spinoff_prover]
    fn visit_equation(&mut self, e: &Content) -> (r: Result<Node, ConvertError>)
        requires
            e is Equation,
        ensures
            final(self).warnings@ == old(self).warnings@ + cv(content_view(*e)).warns,
            agrees(r, cv(content_view(*e)).res),
        decreases e, 3int,
    {
        match e {
            Content::Equation { body } => {
                match self.convert(body) {
                    Ok(w) => Ok(Node::Array(w.into_array())),
                    Err(er) => Err(er),
                }
            },
            _ => unreached(),
        }
    }

    /// A word space contributes nothing.
    #[verifier::rlimit(100)]
    #[verifier::spinoff_prover]
    fn visit_space(&mut self, e: &Content) -> (r: Result<Node, ConvertError>)
        requires
            e is Space,
        ensures
            final(self).warnings@ == old(self).warnings@ + cv(content_view(*e)).warns,
            agrees(r, cv(content_view(*e)).res),
    {
        proof {
            assert(old(self).warnings@ + cv(content_view(*e)).warns =~= old(self).warnings@);
        }
        Ok(empty_ir())
    }

    /// A line-break marker contributes nothing by itself.
    #[verifier::rlimit(100)]
    #[verifier::spinoff_prover]
    fn visit_linebreak(&mut self, e: &Content) -> (r: Result<Node, ConvertError>)
        requires
            e is Linebreak,
        ensures
            final(self).warnings@ == old(self).warnings@ + cv(content_view(*e)).warns,
            agrees(r, cv(content_view(*e)).res),
    {
        proof {
            assert(old(self).warnings@ + cv(content_view(*e)).warns =~= old(self).warnings@);
        }
        Ok(empty_ir())
    }

    /// An align-point marker contributes an empty group.
    #[verifier::rlimit(100)]
    #[verifier::spinoff_prover]
    fn visit_align_point(&mut self, e: &Content) -> (r: Result<Node, ConvertError>)
        requires
            e is AlignPoint,
        ensures
            final(self).warnings@ == old(self).warnings@ + cv(content_view(*e)).warns,
            agrees(r, cv(content_view(*e)).res),
    {
        let empty: NodeArray = Vec::new();
        proof {
            assert(node_list_view(empty@) =~= Seq::<NodeV>::empty());
            assert(old(self).warnings@ + cv(content_view(*e)).warns =~= old(self).warnings@);
        }
        let og = make_ordgroup(empty);
        Ok(Node::Node(og))
    }

    /// A horizontal skip becomes a kern of the resolved length; stretchy
    /// fractional units are refused.
    #[verifier::rlimit(100)]
    #[verifier::spinoff_prover]
    fn visit_h(&mut self, e: &Content) -> (r: Result<Node, ConvertError>)
        requires
            e is H,
        ensures
            final(self).warnings@ == old(self).warnings@ + cv(content_view(*e)).warns,
            agrees(r, cv(content_view(*e)).res),
    {
        proof {
            assert(old(self).warnings@ + cv(content_view(*e)).warns =~= old(self).warnings@);
        }
        match e {
            Content::H { amount } => match amount {
                SpacingAmount::Rel { em_milli } => {
                    let kern = Kern {
                        mode: Mode::Math,
                        loc: None,
                        dimension: Measurement {
                            number_milli: *em_milli,
                            unit: "em".to_owned(),
                        },
                    };
                    proof {
                        lemma_node_view_kern(kern);
                    }
                    Ok(Node::Node(KatexNode::Kern(kern)))
                },
                SpacingAmount::Fr { .. } => Err(
                    ConvertError::Unsupported(UnsupportedKind::FractionalSpacing),
                ),
            },
            _ => unreached(),
        }
    }

    /// A named operator becomes an operator node with a backslash-prefixed
    /// name and limits enabled.
    #[verifier::rlimit(100)]
    #[verifier::spinoff_prover]
    fn visit_op(&mut self, e: &Content) -> (r: Result<Node, ConvertError>)
        requires
            e is Op,
        ensures
            final(self).warnings@ == old(self).warnings@ + cv(content_view(*e)).warns,
            agrees(r, cv(content_view(*e)).res),
    {
        proof {
            assert(old(self).warnings@ + cv(content_view(*e)).warns =~= old(self).warnings@);
        }
        match e {
            Content::Op { text } => {
                let op = Op {
                    mode: Mode::Math,
                    loc: None,
                    limits: true,
                    always_handle_sup_sub: None,
                    suppress_base_shift: None,
                    parent_is_sup_sub: false,
                    symbol: false,
                    name: Some(backslash_prefixed(text.as_str())),
                    body: None,
                };
                proof {
                    lemma_node_view_op(op);
                }
                Ok(Node::Node(KatexNode::Op(op)))
            },
            _ => unreached(),
        }
    }

    /// A middle delimiter carries its plain-text rendering.
    #[verifier::rlimit(100)]
    #[verifier::spinoff_prover]
    fn visit_mid(&mut self, e: &Content) -> (r: Result<Node, ConvertError>)
        requires
            e is Mid,
        ensures
            final(self).warnings@ == old(self).warnings@ + cv(content_view(*e)).warns,
            agrees(r, cv(content_view(*e)).res),
    {
        proof {
            assert(old(self).warnings@ + cv(content_view(*e)).warns =~= old(self).warnings@);
        }
        match e {
            Content::Mid { text } => {
                let mid = Middle { mode: Mode::Math, loc: None, delim: text.clone() };
                proof {
                    lemma_node_view_middle(mid);
                }
                Ok(Node::Node(KatexNode::Middle(mid)))
            },
            _ => unreached(),
        }
    }

    /// An over-bracket is deliberately untranslated.
    #[verifier::rlimit(100)]
    #[verifier::spinoff_prover]
    fn visit_overbracket(&mut self, e: &Content) -> (r: Result<Node, ConvertError>)
        requires
            e is Overbracket,
        ensures
            final(self).warnings@ == old(self).warnings@ + cv(content_view(*e)).warns,
            agrees(r, cv(content_view(*e)).res),
    {
        proof {
            assert(old(self).warnings@ + cv(content_view(*e)).warns =~= old(self).warnings@);
        }
        Err(ConvertError::Unsupported(UnsupportedKind::Overbracket))
    }

    /// An under-bracket is deliberately untranslated.
    #[verifier::rlimit(100)]
    #[verifier::spinoff_prover]
    fn visit_underbracket(&mut self, e: &Content) -> (r: Result<Node, ConvertError>)
        requires
            e is Underbracket,
        ensures
            final(self).warnings@ == old(self).warnings@ + cv(content_view(*e)).warns,
            agrees(r, cv(content_view(*e)).res),
    {
        proof {
            assert(old(self).warnings@ + cv(content_view(*e)).warns =~= old(self).warnings@);
        }
        Err(ConvertError::Unsupported(UnsupportedKind::Underbracket))
    }

    /// A class wrapper is deliberately untranslated.
    #[verifier::rlimit(100)]
    #[verifier::spinoff_prover]
    fn visit_class(&mut self, e: &Content) -> (r: Result<Node, ConvertError>)
        requires
            e is Class,
        ensures
            final(self).warnings@ == old(self).warnings@ + cv(content_view(*e)).warns,
            agrees(r, cv(content_view(*e)).res),
    {
        proof {
            assert(old(self).warnings@ + cv(content_view(*e)).warns =~= old(self).warnings@);
        }
        Err(ConvertError::Unsupported(UnsupportedKind::ClassWrapper))
    }

    /// A primes marker is deliberately untranslated.
    #[verifier::rlimit(100)]
    #[verifier::spinoff_prover]
    fn visit_primes(&mut self, e: &Content) -> (r: Result<Node, ConvertError>)
        requires
            e is Primes,
        ensures
            final(self).warnings@ == old(self).warnings@ + cv(content_view(*e)).warns,
            agrees(r, cv(content_view(*e)).res),
    {
        proof {
            assert(old(self).warnings@ + cv(content_view(*e)).warns =~= old(self).warnings@);
        }
        Err(ConvertError::Unsupported(UnsupportedKind::Primes))
    }

    /// An accent composition is deliberately untranslated.
    #[verifier::rlimit(100)]
    #[verifier::spinoff_prover]
    fn visit_accent(&mut self, e: &Content) -> (r: Result<Node, ConvertError>)
        requires
            e is Accent,
        ensures
            final(self).warnings@ == old(self).warnings@ + cv(content_view(*e)).warns,
            agrees(r, cv(content_view(*e)).res),
    {
        proof {
            assert(old(self).warnings@ + cv(content_view(*e)).warns =~= old(self).warnings@);
        }
        Err(ConvertError::Unsupported(UnsupportedKind::Accent))
    }

    /// A text run converts through the text converter.
    #[verifier::rlimit(100)]
    #[verifier::spinoff_prover]
    fn visit_text(&mut self, e: &Content) -> (r: Result<Node, ConvertError>)
        requires
            e is Text,
        ensures
            final(self).warnings@ == old(self).warnings@ + cv(content_view(*e)).warns,
            agrees(r, cv(content_view(*e)).res),
    {
        proof {
            assert(old(self).warnings@ + cv(content_view(*e)).warns =~= old(self).warnings@);
        }
        match e {
            Content::Text { characters } => {
                let mut tc = TextConverter::new(characters);
                tc.convert()
            },
            _ => unreached(),
        }
    }

    /// A fraction: numerator and denominator each convert and are grouped,
    /// combined with a bar line and automatic size.
    #[verifier::rlimit(100)]
    #[verifier::spinoff_prover]
    fn visit_frac(&mut self, e: &Content) -> (r: Result<Node, ConvertError>)
        requires
            e is Frac,
        ensures
            final(self).warnings@ == old(self).warnings@ + cv(content_view(*e)).warns,
            agrees(r, cv(content_view(*e)).res),
        decreases e, 3int,
    {
        match e {
            Content::Frac { num, denom } => {
                let ghost on = cv(content_view(**num));
                let wn = match self.convert(num) {
                    Ok(w) => w,
                    Err(er) => {
                        return Err(er);
                    },
                };
                let ghost od = cv(content_view(**denom));
                let wd = match self.convert(denom) {
                    Ok(w) => w,
                    Err(er) => {
                        proof {
                            assert((old(self).warnings@ + on.warns) + od.warns =~= old(
                                self,
                            ).warnings@ + (on.warns + od.warns));
                        }
                        return Err(er);
                    },
                };
                proof {
                    assert((old(self).warnings@ + on.warns) + od.warns =~= old(self).warnings@
                        + (on.warns + od.warns));
                }
                let numer = make_ordgroup(wn.into_array());
                let denom_node = make_ordgroup(wd.into_array());
                let gf = GenFrac {
                    mode: Mode::Math,
                    loc: None,
                    continued: false,
                    numer: Box::new(numer),
                    denom: Box::new(denom_node),
                    has_bar_line: true,
                    left_delim: None,
                    right_delim: None,
                    size: GenFracSizeType::Auto,
                    bar_size: None,
                };
                proof {
                    lemma_node_view_gen_frac(gf);
                }
                Ok(Node::Node(KatexNode::GenFrac(gf)))
            },
            _ => unreached(),
        }
    }

    /// A cancellation mark: the body is grouped and enclosed with a strike
    /// label; stroke styling attributes have no translation.
    #[verifier::rlimit(100)]
    #[verifier::spinoff_prover]
    fn visit_cancel(&mut self, e: &Content) -> (r: Result<Node, ConvertError>)
        requires
            e is Cancel,
        ensures
            final(self).warnings@ == old(self).warnings@ + cv(content_view(*e)).warns,
            agrees(r, cv(content_view(*e)).res),
        decreases e, 3int,
    {
        match e {
            Content::Cancel { body } => {
                let w = match self.convert(body) {
                    Ok(w) => w,
                    Err(er) => {
                        return Err(er);
                    },
                };
                let og = make_ordgroup(w.into_array());
                let en = Enclose {
                    mode: Mode::Math,
                    loc: None,
                    label: "\\cancel".to_owned(),
                    background_color: None,
                    border_color: None,
                    body: Box::new(og),
                };
                proof {
                    lemma_node_view_enclose(en);
                }
                Ok(Node::Node(KatexNode::Enclose(en)))
            },
            _ => unreached(),
        }
    }

    /// An overline around the grouped body.
    #[verifier::rlimit(100)]
    #[verifier::spinoff_prover]
    fn visit_overline(&mut self, e: &Content) -> (r: Result<Node, ConvertError>)
        requires
            e is Overline,
        ensures
            final(self).warnings@ == old(self).warnings@ + cv(content_view(*e)).warns,
            agrees(r, cv(content_view(*e)).res),
        decreases e, 3int,
    {
        match e {
            Content::Overline { body } => {
                let w = match self.convert(body) {
                    Ok(w) => w,
                    Err(er) => {
                        return Err(er);
                    },
                };
                let og = make_ordgroup(w.into_array());
                let ov = Overline { mode: Mode::Math, loc: None, body: Box::new(og) };
                proof {
                    lemma_node_view_overline(ov);
                }
                Ok(Node::Node(KatexNode::Overline(ov)))
            },
            _ => unreached(),
        }
    }

    /// An underline around the grouped body.
    #[verifier::rlimit(100)]
    #[verifier::spinoff_prover]
    fn visit_underline(&mut self, e: &Content) -> (r: Result<Node, ConvertError>)
        requires
            e is Underline,
        ensures
            final(self).warnings@ == old(self).warnings@ + cv(content_view(*e)).warns,
            agrees(r, cv(content_view(*e)).res),
        decreases e, 3int,
    {
        match e {
            Content::Underline { body } => {
                let w = match self.convert(body) {
                    Ok(w) => w,
                    Err(er) => {
                        return Err(er);
                    },
                };
                let og_struct = w.into_ordgroup(Mode::Math);
                proof {
                    lemma_node_view_ord_group(og_struct);
                }
                let og = og_struct.into_node();
                let un = Underline { mode: Mode::Math, loc: None, body: Box::new(og) };
                proof {
                    lemma_node_view_underline(un);
                }
                Ok(Node::Node(KatexNode::Underline(un)))
            },
            _ => unreached(),
        }
    }

    /// A styled variant: the body must reduce to one node and is wrapped in
    /// the destination font; variants with no destination font are refused.
    #[verifier::rlimit(100)]
    #[verifier::spinoff_prover]
    fn visit_math_style(&mut self, e: &Content) -> (r: Result<Node, ConvertError>)
        requires
            e is MathStyle,
        ensures
            final(self).warnings@ == old(self).warnings@ + cv(content_view(*e)).warns,
            agrees(r, cv(content_view(*e)).res),
        decreases e, 3int,
    {
        match e {
            Content::MathStyle { body, variant } => {
                let w = match self.convert(body) {
                    Ok(w) => w,
                    Err(er) => {
                        return Err(er);
                    },
                };
                let n = match w.into_node() {
                    Ok(n) => n,
                    Err(er) => {
                        return Err(er);
                    },
                };
                let font: &str = match variant {
                    Some(MathVariant::Bb) => "mathbb",
                    Some(MathVariant::Cal) => "mathcal",
                    None => "mathrm",
                    Some(_) => {
                        return Err(ConvertError::Unsupported(UnsupportedKind::MathVariant));
                    },
                };
                let fnode = Font {
                    mode: Mode::Math,
                    loc: None,
                    font: font.to_owned(),
                    body: Box::new(n),
                };
                proof {
                    lemma_node_view_font(fnode);
                }
                Ok(Node::Node(KatexNode::Font(fnode)))
            },
            _ => unreached(),
        }
    }

    /// A delimited group: the converted body must start and end with atomic
    /// symbols, which become the left and right delimiters.
    #[verifier::rlimit(100)]
    #[verifier::spinoff_prover]
    fn visit_lr(&mut self, e: &Content) -> (r: Result<Node, ConvertError>)
        requires
            e is Lr,
        ensures
            final(self).warnings@ == old(self).warnings@ + cv(content_view(*e)).warns,
            agrees(r, cv(content_view(*e)).res),
        decreases e, 3int,
    {
        match e {
            Content::Lr { body } => {
                let w = match self.convert(body) {
                    Ok(w) => w,
                    Err(er) => {
                        return Err(er);
                    },
                };
                let ghost arr = ir_as_array(ir_view(w));
                let mut nodes = w.into_array();
                proof {
                    lemma_node_list_view_index(nodes@);
                }
                if nodes.len() < 2 {
                    return Err(ConvertError::NotAnAtom);
                }
                let ghost orig = nodes@;
                let first = nodes.remove(0);
                proof {
                    lemma_node_view_atom_cases(first);
                    assert(node_view(first) == arr.first());
                }
                let left = match first {
                    KatexNode::Atom(a) => {
                        proof {
                            lemma_node_view_atom(a);
                        }
                        a.text
                    },
                    _ => {
                        return Err(ConvertError::NotAnAtom);
                    },
                };
                let last = match nodes.pop() {
                    Some(n) => n,
                    None => unreached(),
                };
                proof {
                    lemma_node_view_atom_cases(last);
                    assert(last == orig[orig.len() - 1]);
                    assert(node_view(last) == arr.last());
                }
                let right = match last {
                    KatexNode::Atom(a) => {
                        proof {
                            lemma_node_view_atom(a);
                        }
                        a.text
                    },
                    _ => {
                        return Err(ConvertError::NotAnAtom);
                    },
                };
                proof {
                    lemma_node_list_view_index(nodes@);
                    assert(nodes@ =~= orig.subrange(1, orig.len() - 1));
                    assert forall|i: int| 0 <= i < nodes@.len() implies node_list_view(
                        nodes@,
                    )[i] == arr.subrange(1, arr.len() - 1)[i] by {
                        assert(nodes@[i] == orig[i + 1]);
                    }
                    assert(node_list_view(nodes@) =~= arr.subrange(1, arr.len() - 1));
                }
                let lr = LeftRight {
                    mode: Mode::Math,
                    loc: None,
                    body: nodes,
                    left,
                    right,
                    right_color: None,
                };
                proof {
                    lemma_node_view_left_right(lr);
                }
                Ok(Node::Node(KatexNode::LeftRight(lr)))
            },
            _ => unreached(),
        }
    }

    /// A limit-forcing marker re-expressed as an operator node.
    #[verifier::rlimit(100)]
    #[verifier::spinoff_prover]
    fn visit_limits(&mut self, e: &Content) -> (r: Result<Node, ConvertError>)
        requires
            e is Limits,
        ensures
            final(self).warnings@ == old(self).warnings@ + cv(content_view(*e)).warns,
            agrees(r, cv(content_view(*e)).res),
        decreases e, 3int,
    {
        match e {
            Content::Limits { body } => {
                let w = match self.convert(body) {
                    Ok(w) => w,
                    Err(er) => {
                        return Err(er);
                    },
                };
                Ok(Node::Node(make_marker_op(w.into_array(), true)))
            },
            _ => unreached(),
        }
    }

    /// A limit-suppressing marker re-expressed as an operator node.
    #[verifier::rlimit(100)]
    #[verifier::spinoff_prover]
    fn visit_scripts(&mut self, e: &Content) -> (r: Result<Node, ConvertError>)
        requires
            e is Scripts,
        ensures
            final(self).warnings@ == old(self).warnings@ + cv(content_view(*e)).warns,
            agrees(r, cv(content_view(*e)).res),
        decreases e, 3int,
    {
        match e {
            Content::Scripts { body } => {
                let w = match self.convert(body) {
                    Ok(w) => w,
                    Err(er) => {
                        return Err(er);
                    },
                };
                Ok(Node::Node(make_marker_op(w.into_array(), false)))
            },
            _ => unreached(),
        }
    }

    /// A radical: the optional index and the radicand each convert and are
    /// grouped.
    #[verifier::rlimit(100)]
    #[verifier::spinoff_prover]
        fn visit_root(&mut self, e: &Content) -> (r: Result<Node, ConvertError>)
        requires
            e is Root,
        ensures
            final(self).warnings@ == old(self).warnings@ + cv(content_view(*e)).warns,
            agrees(r, cv(content_view(*e)).res),
        decreases e, 3int,
    {
        match e {
            Content::Root { index, radicand } => {
                let ghost oi = match opt_box_content_view(*index) {
                    Some(ix) => Some(cv(*ix)),
                    None => None,
                };
                let ghost iw: Seq<Warning> = match oi {
                    Some(o) => o.warns,
                    None => Seq::empty(),
                };
                let index_node = match index {
                    Some(ix) => {
                        let wi = match self.convert(ix) {
                            Ok(w) => w,
                            Err(er) => {
                                return Err(er);
                            },
                        };
                        Some(make_ordgroup(wi.into_array()))
                    },
                    None => None,
                };
                proof {
                    assert(self.warnings@ =~= old(self).warnings@ + iw);
                }
                let ghost orr = cv(content_view(**radicand));
                let wr = match self.convert(radicand) {
                    Ok(w) => w,
                    Err(er) => {
                        proof {
                            assert((old(self).warnings@ + iw) + orr.warns =~= old(
                                self,
                            ).warnings@ + (iw + orr.warns));
                        }
                        return Err(er);
                    },
                };
                proof {
                    assert((old(self).warnings@ + iw) + orr.warns =~= old(self).warnings@ + (iw
                        + orr.warns));
                }
                let og = make_ordgroup(wr.into_array());
                let sq = Sqrt {
                    mode: Mode::Math,
                    loc: None,
                    body: Box::new(og),
                    index: match index_node {
                        Some(n) => Some(Box::new(n)),
                        None => None,
                    },
                };
                proof {
                    lemma_node_view_sqrt(sq);
                }
                Ok(Node::Node(KatexNode::Sqrt(sq)))
            },
            _ => unreached(),
        }
    }

    /// A brace construct over its grouped body.
    #[verifier::rlimit(100)]
    #[verifier::spinoff_prover]
    fn visit_overbrace(&mut self, e: &Content) -> (r: Result<Node, ConvertError>)
        requires
            e is Overbrace,
        ensures
            final(self).warnings@ == old(self).warnings@ + cv(content_view(*e)).warns,
            agrees(r, cv(content_view(*e)).res),
        decreases e, 3int,
    {
        self.convert_brace(e, true)
    }

    /// A brace construct under its grouped body.
    #[verifier::rlimit(100)]
    #[verifier::spinoff_prover]
    fn visit_underbrace(&mut self, e: &Content) -> (r: Result<Node, ConvertError>)
        requires
            e is Underbrace,
        ensures
            final(self).warnings@ == old(self).warnings@ + cv(content_view(*e)).warns,
            agrees(r, cv(content_view(*e)).res),
        decreases e, 3int,
    {
        self.convert_brace(e, false)
    }

    /// The shared brace assembly: a horizontal brace over or under the
    /// grouped body, the optional annotation attached as the matching
    /// script.
    #[verifier::rlimit(100)]
    #[verifier::spinoff_prover]
        fn convert_brace(&mut self, e: &Content, over: bool) -> (r: Result<Node, ConvertError>)
        requires
            over ==> e is Overbrace,
            !over ==> e is Underbrace,
        ensures
            final(self).warnings@ == old(self).warnings@ + cv(content_view(*e)).warns,
            agrees(r, cv(content_view(*e)).res),
        decreases e, 2int,
    {
        let (body, annotation): (&Box<Content>, &Option<Box<Content>>) = match e {
            Content::Overbrace { body, annotation } => (body, annotation),
            Content::Underbrace { body, annotation } => (body, annotation),
            _ => unreached(),
        };
        let ghost o = cv(content_view(**body));
        let ghost oa = match opt_box_content_view(*annotation) {
            Some(ac) => Some(cv(*ac)),
            None => None,
        };
        proof {
            assert(cv(content_view(*e)) == brace_out(o, oa, over));
        }
        let w = match self.convert(body) {
            Ok(w) => w,
            Err(er) => {
                return Err(er);
            },
        };
        let og = make_ordgroup(w.into_array());
        let label: &str = if over {
            "\\overbrace"
        } else {
            "\\underbrace"
        };
        let hb = HorizBrace {
            mode: Mode::Math,
            loc: None,
            label: label.to_owned(),
            is_over: over,
            base: Box::new(og),
        };
        proof {
            lemma_node_view_horiz_brace(hb);
        }
        let base = KatexNode::HorizBrace(hb);
        let script = match annotation {
            Some(ac) => {
                let ghost oa = cv(content_view(**ac));
                let wa = match self.convert(ac) {
                    Ok(w) => w,
                    Err(er) => {
                        proof {
                            assert((old(self).warnings@ + o.warns) + oa.warns =~= old(
                                self,
                            ).warnings@ + (o.warns + oa.warns));
                        }
                        return Err(er);
                    },
                };
                proof {
                    assert((old(self).warnings@ + o.warns) + oa.warns =~= old(self).warnings@
                        + (o.warns + oa.warns));
                }
                Some(make_ordgroup(wa.into_array()))
            },
            None => None,
        };
        let ss = if over {
            SupSub {
                mode: Mode::Math,
                loc: None,
                base: Some(Box::new(base)),
                sup: match script {
                    Some(n) => Some(Box::new(n)),
                    None => None,
                },
                sub: None,
            }
        } else {
            SupSub {
                mode: Mode::Math,
                loc: None,
                base: Some(Box::new(base)),
                sup: None,
                sub: match script {
                    Some(n) => Some(Box::new(n)),
                    None => None,
                },
            }
        };
        proof {
            lemma_node_view_sup_sub(ss);
        }
        Ok(Node::Node(KatexNode::SupSub(ss)))
    }

    /// An attachment: corner scripts are warned about and dropped; the base
    /// and the two supported scripts convert, each falling back to a group
    /// when it does not reduce to one node.
    #[verifier::rlimit(100)]
    #[verifier::spinoff_prover]
        fn visit_attach(&mut self, e: &Content) -> (r: Result<Node, ConvertError>)
        requires
            e is Attach,
        ensures
            final(self).warnings@ == old(self).warnings@ + cv(content_view(*e)).warns,
            agrees(r, cv(content_view(*e)).res),
        decreases e, 3int,
    {
        proof {
            let ev = content_view(*e);
            assert(cv(ev) == attach_out(
                corner_warns(
                    ev->Attach_tl,
                    ev->Attach_tr,
                    ev->Attach_bl,
                    ev->Attach_br,
                ),
                cv(*ev->Attach_base),
                match ev->Attach_t {
                    Some(tc) => Some(cv(*tc)),
                    None => None,
                },
                match ev->Attach_b {
                    Some(bc) => Some(cv(*bc)),
                    None => None,
                },
            ));
        }
        self.convert_attach(e)
    }

    /// Records the warnings for the corner scripts present on an
    /// attachment, in the order they are checked.
    #[verifier::rlimit(100)]
    #[verifier::spinoff_prover]
    fn emit_corner_warns(
        &mut self,
        tl: bool,
        tr: bool,
        bl: bool,
        br: bool,
        Ghost(vs): Ghost<
            (
                Option<Box<ContentV>>,
                Option<Box<ContentV>>,
                Option<Box<ContentV>>,
                Option<Box<ContentV>>,
            ),
        >,
    )
        requires
            tl == (vs.0 is Some),
            tr == (vs.1 is Some),
            bl == (vs.2 is Some),
            br == (vs.3 is Some),
        ensures
            final(self).warnings@ == old(self).warnings@ + corner_warns(
                vs.0,
                vs.1,
                vs.2,
                vs.3,
            ),
    {
        if tl {
            self.warn(Warning::TopLeftScript);
        }
        if tr {
            self.warn(Warning::TopRightScript);
        }
        if bl {
            self.warn(Warning::BottomLeftScript);
        }
        if br {
            self.warn(Warning::BottomRightScript);
        }
        proof {
            assert(self.warnings@ =~= old(self).warnings@ + corner_warns(
                vs.0,
                vs.1,
                vs.2,
                vs.3,
            ));
        }
    }

    /// The attachment assembly: corner scripts are warned about and
    /// dropped; the base and the two supported scripts convert, each
    /// falling back to a group when it does not reduce to one node.
    #[verifier::rlimit(100)]
    #[verifier::spinoff_prover]
    fn convert_attach(&mut self, e: &Content) -> (r: Result<Node, ConvertError>)
        requires
            e is Attach,
        ensures
            ({
                let ev = content_view(*e);
                let out = attach_out(
                    corner_warns(
                        ev->Attach_tl,
                        ev->Attach_tr,
                        ev->Attach_bl,
                        ev->Attach_br,
                    ),
                    cv(*ev->Attach_base),
                    match ev->Attach_t {
                        Some(tc) => Some(cv(*tc)),
                        None => None,
                    },
                    match ev->Attach_b {
                        Some(bc) => Some(cv(*bc)),
                        None => None,
                    },
                );
                &&& final(self).warnings@ == old(self).warnings@ + out.warns
                &&& agrees(r, out.res)
            }),
        decreases e, 2int,
    {
        match e {
            Content::Attach { base, t, b, tl, tr, bl, br } => {
                let ghost cw = corner_warns(
                    opt_box_content_view(*tl),
                    opt_box_content_view(*tr),
                    opt_box_content_view(*bl),
                    opt_box_content_view(*br),
                );
                self.emit_corner_warns(
                    tl.is_some(),
                    tr.is_some(),
                    bl.is_some(),
                    br.is_some(),
                    Ghost(
                        (
                            opt_box_content_view(*tl),
                            opt_box_content_view(*tr),
                            opt_box_content_view(*bl),
                            opt_box_content_view(*br),
                        ),
                    ),
                );
                let ghost ob = cv(content_view(**base));
                let wb = match self.convert(base) {
                    Ok(w) => w,
                    Err(er) => {
                        proof {
                            assert((old(self).warnings@ + cw) + ob.warns =~= old(
                                self,
                            ).warnings@ + (cw + ob.warns));
                        }
                        return Err(er);
                    },
                };
                let base_node = wb.into_node_fallback_ordgroup(Mode::Math);
                let ghost tw: Seq<Warning> = match opt_box_content_view(*t) {
                    Some(tc) => cv(*tc).warns,
                    None => Seq::empty(),
                };
                let sup = match t {
                    Some(tc) => {
                        let wt = match self.convert(tc) {
                            Ok(w) => w,
                            Err(er) => {
                                proof {
                                    assert(((old(self).warnings@ + cw) + ob.warns) + tw =~= old(
                                        self,
                                    ).warnings@ + (cw + ob.warns + tw));
                                }
                                return Err(er);
                            },
                        };
                        Some(wt.into_node_fallback_ordgroup(Mode::Math))
                    },
                    None => None,
                };
                proof {
                    assert(self.warnings@ =~= old(self).warnings@ + (cw + ob.warns + tw));
                }
                let ghost bw: Seq<Warning> = match opt_box_content_view(*b) {
                    Some(bc) => cv(*bc).warns,
                    None => Seq::empty(),
                };
                let sub = match b {
                    Some(bc) => {
                        let wbb = match self.convert(bc) {
                            Ok(w) => w,
                            Err(er) => {
                                proof {
                                    assert((old(self).warnings@ + (cw + ob.warns + tw)) + bw
                                        =~= old(self).warnings@ + (cw + ob.warns + tw + bw));
                                }
                                return Err(er);
                            },
                        };
                        Some(wbb.into_node_fallback_ordgroup(Mode::Math))
                    },
                    None => None,
                };
                proof {
                    assert(self.warnings@ =~= old(self).warnings@ + (cw + ob.warns + tw + bw));
                }
                let ss = SupSub {
                    mode: Mode::Math,
                    loc: None,
                    base: Some(Box::new(base_node)),
                    sup: match sup {
                        Some(n) => Some(Box::new(n)),
                        None => None,
                    },
                    sub: match sub {
                        Some(n) => Some(Box::new(n)),
                        None => None,
                    },
                };
                proof {
                    lemma_node_view_sup_sub(ss);
                }
                Ok(Node::Node(KatexNode::SupSub(ss)))
            },
            _ => unreached(),
        }
    }

    /// The lower parts of a binomial, each converted to its run of nodes.
    #[verifier::rlimit(100)]
    #[verifier::spinoff_prover]
    fn convert_binom_parts(&mut self, lower: &Vec<Content>, n: usize) -> (r: Result<
        Vec<NodeArray>,
        ConvertError,
    >)
        requires
            n <= lower@.len(),
        ensures
            ({
                let out = binom_parts_v(content_list_view(lower@).subrange(0, n as int));
                &&& final(self).warnings@ == old(self).warnings@ + out.warns
                &&& match r {
                    Ok(v) => out.res == Ok::<Seq<Seq<NodeV>>, ConvertError>(
                        node_grid_view(v@),
                    ),
                    Err(er) => out.res == Err::<Seq<Seq<NodeV>>, ConvertError>(er),
                }
            }),
        decreases lower, n,
    {
        let ghost lv = content_list_view(lower@);
        proof {
            lemma_content_list_view_index(lower@);
            if n > 0 {
                assert(lv.subrange(0, n as int).drop_last() =~= lv.subrange(0, n as int - 1));
            }
        }
        if n == 0 {
            let v: Vec<NodeArray> = Vec::new();
            proof {
                assert(lv.subrange(0, 0) =~= Seq::<ContentV>::empty());
                assert(node_grid_view(v@) =~= Seq::<Seq<NodeV>>::empty());
                assert(old(self).warnings@ + binom_parts_v(lv.subrange(0, 0)).warns =~= old(
                    self,
                ).warnings@);
            }
            Ok(v)
        } else {
            let ghost rest = binom_parts_v(lv.subrange(0, n as int - 1));
            let mut parts = match self.convert_binom_parts(lower, n - 1) {
                Ok(v) => v,
                Err(er) => {
                    return Err(er);
                },
            };
            let ghost o = cv(lv[n as int - 1]);
            proof {
                assert(lv.subrange(0, n as int).last() == lv[n as int - 1]);
            }
            let w = match self.convert(&lower[n - 1]) {
                Ok(w) => w,
                Err(er) => {
                    proof {
                        assert((old(self).warnings@ + rest.warns) + o.warns =~= old(
                            self,
                        ).warnings@ + (rest.warns + o.warns));
                    }
                    return Err(er);
                },
            };
            proof {
                assert((old(self).warnings@ + rest.warns) + o.warns =~= old(self).warnings@ + (
                rest.warns + o.warns));
            }
            let arr = w.into_array();
            proof {
                lemma_node_grid_view_push(parts@, arr);
            }
            parts.push(arr);
            Ok(parts)
        }
    }

    /// A binomial: the upper part over the comma-joined lower parts, no bar
    /// line, parenthesis delimiters.
    #[verifier::rlimit(100)]
    #[verifier::spinoff_prover]
        fn visit_binom(&mut self, e: &Content) -> (r: Result<Node, ConvertError>)
        requires
            e is Binom,
        ensures
            final(self).warnings@ == old(self).warnings@ + cv(content_view(*e)).warns,
            agrees(r, cv(content_view(*e)).res),
        decreases e, 3int,
    {
        match e {
            Content::Binom { upper, lower } => {
                proof {
                    lemma_content_list_view_index(lower@);
                }
                let ghost ou = cv(content_view(**upper));
                let wu = match self.convert(upper) {
                    Ok(w) => w,
                    Err(er) => {
                        return Err(er);
                    },
                };
                let numer = make_ordgroup(wu.into_array());
                let sep = match Symbol::get(Mode::Math, ',').create_node() {
                    Ok(n) => n,
                    Err(er) => {
                        return Err(er);
                    },
                };
                let ghost pv = binom_parts_v(content_list_view(lower@));
                let parts = match self.convert_binom_parts(lower, lower.len()) {
                    Ok(v) => v,
                    Err(er) => {
                        proof {
                            assert(content_list_view(lower@).subrange(
                                0,
                                lower@.len() as int,
                            ) =~= content_list_view(lower@));
                            assert((old(self).warnings@ + ou.warns) + pv.warns =~= old(
                                self,
                            ).warnings@ + (ou.warns + pv.warns));
                        }
                        return Err(er);
                    },
                };
                proof {
                    assert(content_list_view(lower@).subrange(0, lower@.len() as int)
                        =~= content_list_view(lower@));
                    assert((old(self).warnings@ + ou.warns) + pv.warns =~= old(self).warnings@
                        + (ou.warns + pv.warns));
                }
                let denom_body: NodeArray = if parts.len() == 0 {
                    proof {
                        assert(insert_separator_spec(
                            node_grid_view(parts@),
                            seq![node_view(sep)],
                        ) =~= Seq::<Seq<NodeV>>::empty());
                        assert(flatten_runs(Seq::<Seq<NodeV>>::empty())
                            =~= Seq::<NodeV>::empty());
                    }
                    Vec::new()
                } else {
                    let mut sep_run: NodeArray = Vec::new();
                    sep_run.push(sep);
                    proof {
                        assert(sep_run@ =~= seq![sep]);
                        lemma_node_list_view_singleton(sep);
                    }
                    let joined = insert_separator(&parts, &sep_run);
                    flatten_node_runs(joined)
                };
                let ghost denom_v = flatten_runs(
                    insert_separator_spec(node_grid_view(parts@), seq![node_view(sep)]),
                );
                proof {
                    if parts.len() != 0 {
                    }
                    assert(node_list_view(denom_body@) == denom_v);
                }
                let denom_node = make_ordgroup(denom_body);
                let gf = GenFrac {
                    mode: Mode::Math,
                    loc: None,
                    continued: false,
                    numer: Box::new(numer),
                    denom: Box::new(denom_node),
                    has_bar_line: false,
                    left_delim: Some("(".to_owned()),
                    right_delim: Some(")".to_owned()),
                    size: GenFracSizeType::Auto,
                    bar_size: None,
                };
                proof {
                    lemma_node_view_gen_frac(gf);
                }
                Ok(Node::Node(KatexNode::GenFrac(gf)))
            },
            _ => unreached(),
        }
    }

    /// A sequence runs through the reconstructor.
    #[verifier::rlimit(100)]
    #[verifier::spinoff_prover]
    fn visit_sequence(&mut self, e: &Content) -> (r: Result<Node, ConvertError>)
        requires
            e is Sequence,
        ensures
            final(self).warnings@ == old(self).warnings@ + cv(content_view(*e)).warns,
            agrees(r, cv(content_view(*e)).res),
        decreases e, 3int,
    {
        let mut converter = SequenceConverter::new(e);
        converter.convert(self)
    }

    /// The cells of one matrix row, each converted and wrapped as a table
    /// cell.
    #[verifier::rlimit(100)]
    #[verifier::spinoff_prover]
    fn convert_mat_cells(&mut self, row: &Vec<Content>, n: usize) -> (r: Result<
        Vec<KatexNode>,
        ConvertError,
    >)
        requires
            n <= row@.len(),
        ensures
            ({
                let out = mat_cells_v(content_list_view(row@).subrange(0, n as int));
                &&& final(self).warnings@ == old(self).warnings@ + out.warns
                &&& match r {
                    Ok(v) => out.res == Ok::<Seq<NodeV>, ConvertError>(node_list_view(v@)),
                    Err(er) => out.res == Err::<Seq<NodeV>, ConvertError>(er),
                }
            }),
        decreases row, n,
    {
        let ghost rv = content_list_view(row@);
        proof {
            lemma_content_list_view_index(row@);
            if n > 0 {
                assert(rv.subrange(0, n as int).drop_last() =~= rv.subrange(0, n as int - 1));
            }
        }
        if n == 0 {
            let v: Vec<KatexNode> = Vec::new();
            proof {
                assert(rv.subrange(0, 0) =~= Seq::<ContentV>::empty());
                assert(node_list_view(v@) =~= Seq::<NodeV>::empty());
                assert(old(self).warnings@ + mat_cells_v(rv.subrange(0, 0)).warns =~= old(
                    self,
                ).warnings@);
            }
            Ok(v)
        } else {
            let ghost rest = mat_cells_v(rv.subrange(0, n as int - 1));
            let mut cells = match self.convert_mat_cells(row, n - 1) {
                Ok(v) => v,
                Err(er) => {
                    return Err(er);
                },
            };
            let ghost o = cv(rv[n as int - 1]);
            proof {
                assert(rv.subrange(0, n as int).last() == rv[n as int - 1]);
            }
            let w = match self.convert(&row[n - 1]) {
                Ok(w) => w,
                Err(er) => {
                    proof {
                        assert((old(self).warnings@ + rest.warns) + o.warns =~= old(
                            self,
                        ).warnings@ + (rest.warns + o.warns));
                    }
                    return Err(er);
                },
            };
            proof {
                assert((old(self).warnings@ + rest.warns) + o.warns =~= old(self).warnings@ + (
                rest.warns + o.warns));
            }
            let cell = make_cell(StyleStr::Text, w.into_array());
            proof {
                crate::katex::node::lemma_node_list_view_push(cells@, cell);
            }
            cells.push(cell);
            Ok(cells)
        }
    }

    /// The rows of a matrix, each a row of converted table cells.
    #[verifier::rlimit(100)]
    #[verifier::spinoff_prover]
    fn convert_mat_rows(&mut self, rows: &Vec<Vec<Content>>, n: usize) -> (r: Result<
        Vec<Vec<KatexNode>>,
        ConvertError,
    >)
        requires
            n <= rows@.len(),
        ensures
            ({
                let out = mat_rows_v(content_grid_view(rows@).subrange(0, n as int));
                &&& final(self).warnings@ == old(self).warnings@ + out.warns
                &&& match r {
                    Ok(v) => out.res == Ok::<Seq<Seq<NodeV>>, ConvertError>(
                        node_grid_view(v@),
                    ),
                    Err(er) => out.res == Err::<Seq<Seq<NodeV>>, ConvertError>(er),
                }
            }),
        decreases rows, n,
    {
        let ghost gv = content_grid_view(rows@);
        proof {
            lemma_content_grid_view_index(rows@);
            if n > 0 {
                assert(gv.subrange(0, n as int).drop_last() =~= gv.subrange(0, n as int - 1));
            }
        }
        if n == 0 {
            let v: Vec<Vec<KatexNode>> = Vec::new();
            proof {
                assert(gv.subrange(0, 0) =~= Seq::<Seq<ContentV>>::empty());
                assert(node_grid_view(v@) =~= Seq::<Seq<NodeV>>::empty());
                assert(old(self).warnings@ + mat_rows_v(gv.subrange(0, 0)).warns =~= old(
                    self,
                ).warnings@);
            }
            Ok(v)
        } else {
            let ghost rest = mat_rows_v(gv.subrange(0, n as int - 1));
            let mut grid = match self.convert_mat_rows(rows, n - 1) {
                Ok(v) => v,
                Err(er) => {
                    return Err(er);
                },
            };
            let ghost rowout = mat_cells_v(gv[n as int - 1]);
            proof {
                assert(gv.subrange(0, n as int).last() == gv[n as int - 1]);
            }
            let cells = match self.convert_mat_cells(&rows[n - 1], rows[n - 1].len()) {
                Ok(v) => v,
                Err(er) => {
                    proof {
                        lemma_content_list_view_index(rows@[n as int - 1]@);
                        assert(content_list_view(rows@[n as int - 1]@).subrange(
                            0,
                            rows@[n as int - 1]@.len() as int,
                        ) =~= content_list_view(rows@[n as int - 1]@));
                        assert((old(self).warnings@ + rest.warns) + rowout.warns =~= old(
                            self,
                        ).warnings@ + (rest.warns + rowout.warns));
                    }
                    return Err(er);
                },
            };
            proof {
                lemma_content_list_view_index(rows@[n as int - 1]@);
                assert(content_list_view(rows@[n as int - 1]@).subrange(
                    0,
                    rows@[n as int - 1]@.len() as int,
                ) =~= content_list_view(rows@[n as int - 1]@));
                assert((old(self).warnings@ + rest.warns) + rowout.warns =~= old(
                    self,
                ).warnings@ + (rest.warns + rowout.warns));
                lemma_node_grid_view_push(grid@, cells);
            }
            grid.push(cells);
            Ok(grid)
        }
    }

    /// A matrix: every cell converts independently into a table cell; the
    /// grid is wrapped in the resolved delimiter pair.
    #[verifier::rlimit(100)]
    #[verifier::spinoff_prover]
    fn visit_mat(&mut self, e: &Content) -> (r: Result<Node, ConvertError>)
        requires
            e is Mat,
        ensures
            final(self).warnings@ == old(self).warnings@ + cv(content_view(*e)).warns,
            agrees(r, cv(content_view(*e)).res),
        decreases e, 3int,
    {
        match e {
            Content::Mat { rows, delim } => {
                let ghost gv = content_grid_view(rows@);
                proof {
                    lemma_content_grid_view_index(rows@);
                    assert(content_view(*e) == (ContentV::Mat { rows: gv, delim: *delim }));
                }
                let grid = match self.convert_mat_rows(rows, rows.len()) {
                    Ok(v) => v,
                    Err(er) => {
                        proof {
                            assert(gv.subrange(0, gv.len() as int) =~= gv);
                        }
                        return Err(er);
                    },
                };
                proof {
                    assert(gv.subrange(0, gv.len() as int) =~= gv);
                }
                let array_node = build_plain_array(grid);
                let lr = wrap_delims(array_node, *delim);
                Ok(Node::Node(lr))
            },
            _ => unreached(),
        }
    }

    /// The single-cell rows of a vector: each child must reduce to one node.
    #[verifier::rlimit(100)]
    #[verifier::spinoff_prover]
    fn convert_vector_rows(&mut self, children: &Vec<Content>, n: usize) -> (r: Result<
        Vec<Vec<KatexNode>>,
        ConvertError,
    >)
        requires
            n <= children@.len(),
        ensures
            ({
                let out = vector_rows_v(content_list_view(children@).subrange(0, n as int));
                &&& final(self).warnings@ == old(self).warnings@ + out.warns
                &&& match r {
                    Ok(v) => out.res == Ok::<Seq<Seq<NodeV>>, ConvertError>(
                        node_grid_view(v@),
                    ) && v@.len() == n,
                    Err(er) => out.res == Err::<Seq<Seq<NodeV>>, ConvertError>(er),
                }
            }),
        decreases children, n,
    {
        let ghost lv = content_list_view(children@);
        proof {
            lemma_content_list_view_index(children@);
            if n > 0 {
                assert(lv.subrange(0, n as int).drop_last() =~= lv.subrange(0, n as int - 1));
            }
        }
        if n == 0 {
            let v: Vec<Vec<KatexNode>> = Vec::new();
            proof {
                assert(lv.subrange(0, 0) =~= Seq::<ContentV>::empty());
                assert(node_grid_view(v@) =~= Seq::<Seq<NodeV>>::empty());
                assert(old(self).warnings@ + vector_rows_v(lv.subrange(0, 0)).warns =~= old(
                    self,
                ).warnings@);
            }
            Ok(v)
        } else {
            let ghost rest = vector_rows_v(lv.subrange(0, n as int - 1));
            let mut grid = match self.convert_vector_rows(children, n - 1) {
                Ok(v) => v,
                Err(er) => {
                    return Err(er);
                },
            };
            let ghost o = cv(lv[n as int - 1]);
            proof {
                assert(lv.subrange(0, n as int).last() == lv[n as int - 1]);
            }
            let w = match self.convert(&children[n - 1]) {
                Ok(w) => w,
                Err(er) => {
                    proof {
                        assert((old(self).warnings@ + rest.warns) + o.warns =~= old(
                            self,
                        ).warnings@ + (rest.warns + o.warns));
                    }
                    return Err(er);
                },
            };
            proof {
                assert((old(self).warnings@ + rest.warns) + o.warns =~= old(self).warnings@ + (
                rest.warns + o.warns));
            }
            let single = match w.into_node() {
                Ok(nd) => nd,
                Err(er) => {
                    return Err(er);
                },
            };
            let mut run: NodeArray = Vec::new();
            run.push(single);
            proof {
                assert(run@ =~= seq![single]);
                lemma_node_list_view_singleton(single);
            }
            let cell = make_cell(StyleStr::Text, run);
            let mut row: Vec<KatexNode> = Vec::new();
            row.push(cell);
            proof {
                assert(row@ =~= seq![cell]);
                lemma_node_list_view_singleton(cell);
                lemma_node_grid_view_push(grid@, row);
            }
            grid.push(row);
            Ok(grid)
        }
    }

    /// A vector: one centered column, one child per row, wrapped in the
    /// resolved delimiter pair.
    #[verifier::rlimit(100)]
    #[verifier::spinoff_prover]
    fn visit_vec(&mut self, e: &Content) -> (r: Result<Node, ConvertError>)
        requires
            e is Vector,
        ensures
            final(self).warnings@ == old(self).warnings@ + cv(content_view(*e)).warns,
            agrees(r, cv(content_view(*e)).res),
        decreases e, 3int,
    {
        let mut converter = VecConverter::new(e);
        converter.convert(self)
    }

    /// A case split: sequence children contribute rows; the two-column
    /// left-aligned grid is wrapped in a brace and an empty right delimiter.
    #[verifier::rlimit(100)]
    #[verifier::spinoff_prover]
    fn visit_cases(&mut self, e: &Content) -> (r: Result<Node, ConvertError>)
        requires
            e is Cases,
        ensures
            final(self).warnings@ == old(self).warnings@ + cv(content_view(*e)).warns,
            agrees(r, cv(content_view(*e)).res),
        decreases e, 3int,
    {
        let mut converter = CasesConverter::new(e);
        converter.convert(self)
    }
}

/// Flattens a list of node runs into one run.
#[verifier::loop_isolation(false)]
#[verifier::rlimit(100)]
#[verifier::spinoff_prover]
fn flatten_node_runs(runs: Vec<NodeArray>) -> (r: NodeArray)
    ensures
        node_list_view(r@) == flatten_runs(node_grid_view(runs@)),
{
    proof {
        lemma_node_grid_view_index(runs@);
    }
    let ghost gv = node_grid_view(runs@);
    let mut out: NodeArray = Vec::new();
    let mut i: usize = 0;
    while i < runs.len()
        invariant
            i <= runs@.len(),
            node_list_view(out@) =~= flatten_runs(gv.subrange(0, i as int)),
        decreases runs@.len() - i,
    {
        let mut part = dup_node_list(&runs[i]);
        proof {
            lemma_node_list_view_concat(out@, part@);
            lemma_flatten_runs_push(gv.subrange(0, i as int), gv[i as int]);
            assert(gv.subrange(0, i as int).push(gv[i as int]) =~= gv.subrange(0, i + 1));
        }
        out.append(&mut part);
        i += 1;
    }
    proof {
        assert(gv.subrange(0, gv.len() as int) =~= gv);
    }
    out
}

/// Builds the plain matrix array node around a finished cell grid: every
/// attribute at its constructor default.
#[verifier::rlimit(100)]
#[verifier::spinoff_prover]
fn build_plain_array(grid: Vec<Vec<KatexNode>>) -> (r: KatexNode)
    ensures
        node_view(r) == mat_leftright_v_inner(node_grid_view(grid@)),
{
    let ghost gview = node_grid_view(grid@);
    let mut constructor = ArrayConstructor::default();
    let n = grid.len();
    let ghost gseq = grid@;
    let mut grid_mut = grid;
    let mut i: usize = 0;
    proof {
        assert(node_grid_view(constructor.body@) =~= Seq::<Seq<NodeV>>::empty());
        assert(gview.subrange(0, 0) =~= Seq::<Seq<NodeV>>::empty());
        assert(constructor.h_lines_before_row.deep_view() =~= empty_h_lines(0));
        lemma_node_grid_view_index(gseq);
    }
    while i < n
        invariant
            i <= n,
            n == gseq.len(),
            grid_mut@ == gseq,
            gview == node_grid_view(gseq),
            gview.len() == gseq.len(),
            forall|j: int| 0 <= j < gseq.len() ==> gview[j] == node_list_view(
                (#[trigger] gseq[j])@,
            ),
            node_grid_view(constructor.body@) =~= gview.subrange(0, i as int),
            constructor.h_lines_before_row.deep_view() =~= empty_h_lines(i as nat),
            constructor.cols is None,
        decreases n - i,
    {
        let row = dup_node_list(&grid_mut[i]);
        feed_row(&mut constructor, row);
        proof {
            assert(node_grid_view(constructor.body@) =~= gview.subrange(0, i + 1));
            assert(constructor.h_lines_before_row.deep_view() =~= empty_h_lines(i as nat + 1));
        }
        i += 1;
    }
    proof {
        assert(gview.subrange(0, gview.len() as int) =~= gview);
    }
    let array = constructor.builder();
    proof {
        lemma_node_view_array(array);
        assert(crate::katex::node::opt_align_specs_view(array.cols) is None);
        assert(array.row_gaps.deep_view() =~= Seq::<Option<crate::katex::types::MeasurementV>>::empty());
    }
    array.into_node()
}

/// The inner array of a delimited matrix.
pub open spec fn mat_leftright_v_inner(rows: Seq<Seq<NodeV>>) -> NodeV {
    NodeV::Array {
        mode: Mode::Math,
        loc: None,
        col_separation_type: None,
        hskip_before_and_after: None,
        add_jot: None,
        cols: None,
        arraystretch_milli: 1000,
        body: rows,
        row_gaps: Seq::empty(),
        h_lines_before_row: empty_h_lines(rows.len()),
        tags: None,
        leqno: None,
        is_cd: None,
    }
}

/// The text converter: a single character is looked up in math mode; a
/// longer run wraps per-character text-mode lookups in a text node.
pub struct TextConverter<'a> {
    pub characters: &'a Vec<char>,
}

impl<'a> TextConverter<'a> {
    /// A converter over the given characters.
    #[verifier::rlimit(100)]
    #[verifier::spinoff_prover]
    pub fn new(characters: &'a Vec<char>) -> (r: TextConverter<'a>)
        ensures
            r.characters == characters,
    {
        TextConverter { characters }
    }

    /// Converts the text run.
    #[verifier::rlimit(100)]
    #[verifier::spinoff_prover]
    pub fn convert(&mut self) -> (r: Result<Node, ConvertError>)
        ensures
            agrees(r, cv(ContentV::Text { characters: old(self).characters@ }).res),
    {
        if self.characters.len() == 1 {
            let c = self.characters[0];
            self.convert_char(c, Mode::Math)
        } else {
            self.convert_text()
        }
    }

    /// Converts a multi-character run: each character is looked up in text
    /// mode and the nodes are wrapped in a text node.
    #[verifier::rlimit(100)]
    #[verifier::spinoff_prover]
    #[verifier::loop_isolation(false)]
    pub fn convert_text(&mut self) -> (r: Result<Node, ConvertError>)
        ensures
            ({
                let res = match text_nodes_v(old(self).characters@) {
                    Ok(ns) => Ok::<IrV, ConvertError>(
                        IrV::Node(
                            NodeV::Text { mode: Mode::Math, loc: None, body: ns, font: None },
                        ),
                    ),
                    Err(er) => Err::<IrV, ConvertError>(er),
                };
                agrees(r, res)
            }),
    {
        let cs = self.characters;
        let mut body: NodeArray = Vec::new();
        proof {
            assert(cs@.subrange(0, 0) =~= Seq::<char>::empty());
            assert(node_list_view(body@) =~= Seq::<NodeV>::empty());
        }
        let mut i: usize = 0;
        while i < cs.len()
            invariant
                i <= cs@.len(),
                text_nodes_v(cs@.subrange(0, i as int)) == Ok::<Seq<NodeV>, ConvertError>(
                    node_list_view(body@),
                ),
            decreases cs@.len() - i,
        {
            proof {
                assert(cs@.subrange(0, i + 1).drop_last() =~= cs@.subrange(0, i as int));
                assert(cs@.subrange(0, i + 1).last() == cs@[i as int]);
            }
            let sym = Symbol::get(Mode::Text, cs[i]);
            let n = match sym.create_node() {
                Ok(n) => n,
                Err(er) => {
                    proof {
                        assert(text_nodes_v(cs@.subrange(0, i + 1)) == Err::<
                            Seq<NodeV>,
                            ConvertError,
                        >(er));
                        lemma_text_nodes_err_suffix(cs@, i as int + 1);
                    }
                    return Err(er);
                },
            };
            proof {
                crate::katex::node::lemma_node_list_view_push(body@, n);
            }
            body.push(n);
            i += 1;
        }
        proof {
            assert(cs@.subrange(0, cs@.len() as int) =~= cs@);
        }
        let text = Text { mode: Mode::Math, loc: None, body, font: None };
        proof {
            lemma_node_view_text(text);
            assert(crate::katex::node::opt_string_view(None::<String>) is None);
        }
        Ok(Node::Node(KatexNode::Text(text)))
    }

    /// Converts a single character through the symbol table in the given
    /// mode.
    #[verifier::rlimit(100)]
    #[verifier::spinoff_prover]
    pub fn convert_char(&mut self, name: char, mode: Mode) -> (r: Result<Node, ConvertError>)
        ensures
            ({
                let res = match crate::katex::symbol::create_node_spec(
                    crate::katex::symbol::symbol_spec(mode, name),
                ) {
                    Ok(n) => Ok::<IrV, ConvertError>(IrV::Node(n)),
                    Err(er) => Err::<IrV, ConvertError>(er),
                };
                agrees(r, res)
            }),
    {
        let sym = Symbol::get(mode, name);
        match sym.create_node() {
            Ok(n) => Ok(Node::Node(n)),
            Err(er) => Err(er),
        }
    }
}

/// Once a character lookup has failed, the whole run fails the same way.
proof fn lemma_text_nodes_err_suffix(cs: Seq<char>, i: int)
    requires
        0 < i <= cs.len(),
        text_nodes_v(cs.subrange(0, i)) is Err,
    ensures
        text_nodes_v(cs) == text_nodes_v(cs.subrange(0, i)),
    decreases cs.len() - i,
{
    if i == cs.len() {
        assert(cs.subrange(0, cs.len() as int) =~= cs);
    } else {
        assert(cs.subrange(0, i + 1).drop_last() =~= cs.subrange(0, i));
        lemma_text_nodes_err_suffix(cs, i + 1);
    }
}

/// The sequence reconstructor: accumulates cells between break markers into
/// rows, then flattens or aligns.
pub struct SequenceConverter<'a> {
    pub content: &'a Content,
    pub body: Vec<Vec<Node>>,
    pub stack: Vec<Node>,
    pub is_aligned: bool,
}

impl<'a> SequenceConverter<'a> {
    /// The reconstructor state this converter currently holds.
    pub open spec fn state_of(self) -> SeqState {
        SeqState {
            body: rows_view(self.body@),
            stack: irs_view(self.stack@),
            aligned: self.is_aligned,
        }
    }

    /// A fresh reconstructor over the given sequence node.
    #[verifier::rlimit(100)]
    #[verifier::spinoff_prover]
    pub fn new(content: &'a Content) -> (r: SequenceConverter<'a>)
        ensures
            r.content == content,
            r.body@.len() == 0,
            r.stack@.len() == 0,
            !r.is_aligned,
    {
        SequenceConverter { content, body: Vec::new(), stack: Vec::new(), is_aligned: false }
    }

    /// Closes the current cell: the accumulated nodes become one array cell
    /// appended to the last row, opening a first row if none exists.
    #[verifier::rlimit(100)]
    #[verifier::spinoff_prover]
    pub fn dump_stack_onto_body(&mut self)
        ensures
            final(self).content == old(self).content,
            final(self).is_aligned == old(self).is_aligned,
            final(self).stack@.len() == 0,
            rows_view(final(self).body@) == dump_spec(old(self).state_of()).body,
    {
        let ghost st0 = old(self).state_of();
        if self.body.len() == 0 {
            self.body.push(Vec::new());
            proof {
                assert(rows_view(self.body@) =~= rows_view(old(self).body@).push(
                    irs_view(Seq::<Node>::empty()),
                )) by {
                    lemma_rows_view_push(old(self).body@, self.body@.last());
                    assert(old(self).body@.push(self.body@.last()) =~= self.body@);
                }
                assert(irs_view(Seq::<Node>::empty()) =~= Seq::<IrV>::empty());
                assert(rows_view(old(self).body@) =~= Seq::<Seq<IrV>>::empty());
                assert(rows_view(self.body@) =~= seq![Seq::<IrV>::empty()]);
            }
        }
        let ghost base_rows = rows_view(self.body@);
        proof {
            if st0.body.len() == 0 {
                assert(base_rows =~= seq![Seq::<IrV>::empty()]);
            } else {
                assert(base_rows == st0.body);
            }
        }
        let mut cell: NodeArray = Vec::new();
        proof {
            assert(node_list_view(cell@) =~= Seq::<NodeV>::empty());
            assert(irs_view(self.stack@.subrange(0, 0)) =~= Seq::<IrV>::empty());
            assert(flatten_irs(Seq::<IrV>::empty()) =~= Seq::<NodeV>::empty());
        }
        let mut i: usize = 0;
        while i < self.stack.len()
            invariant
                i <= self.stack@.len(),
                self.stack == old(self).stack,
                self.content == old(self).content,
                self.is_aligned == old(self).is_aligned,
                rows_view(self.body@) == base_rows,
                self.body@.len() >= 1,
                node_list_view(cell@) =~= flatten_irs(
                    irs_view(self.stack@.subrange(0, i as int)),
                ),
            decreases self.stack@.len() - i,
        {
            let mut part = self.stack[i].dup().into_array();
            proof {
                lemma_node_list_view_concat(cell@, part@);
                lemma_irs_view_push(self.stack@.subrange(0, i as int), self.stack@[i as int]);
                assert(self.stack@.subrange(0, i as int).push(self.stack@[i as int])
                    =~= self.stack@.subrange(0, i + 1));
                lemma_flatten_irs_push(
                    irs_view(self.stack@.subrange(0, i as int)),
                    ir_view(self.stack@[i as int]),
                );
            }
            cell.append(&mut part);
            i += 1;
        }
        proof {
            assert(self.stack@.subrange(0, self.stack@.len() as int) =~= self.stack@);
            assert(node_list_view(cell@) =~= flatten_irs(st0.stack));
        }
        let cell_node = Node::Array(cell);
        proof {
            assert(ir_view(cell_node) == IrV::Array(flatten_irs(st0.stack)));
        }
        let ghost before = self.body@;
        let idx = self.body.len() - 1;
        self.body[idx].push(cell_node);
        self.stack.clear();
        proof {
            lemma_rows_view_index(before);
            lemma_rows_view_index(self.body@);
            lemma_irs_view_push(before.last()@, cell_node);
            assert(self.body@.last()@ == before.last()@.push(cell_node));
            assert(base_rows.len() == before.len());
            assert forall|k: int| 0 <= k < self.body@.len() implies rows_view(self.body@)[k]
                == base_rows.update(
                base_rows.len() - 1,
                base_rows.last().push(IrV::Array(flatten_irs(st0.stack))),
            )[k] by {
                if k < self.body@.len() - 1 {
                    assert(self.body@[k] == before[k]);
                    assert(rows_view(self.body@)[k] == irs_view(self.body@[k]@));
                    assert(base_rows[k] == irs_view(before[k]@));
                } else {
                    assert(self.body@[k] == self.body@.last());
                    assert(before[k] == before.last());
                    assert(base_rows[k] == irs_view(before[k]@));
                    assert(base_rows.last() == base_rows[k]);
                    assert(rows_view(self.body@)[k] == irs_view(self.body@.last()@));
                }
            }
            assert(rows_view(self.body@) =~= base_rows.update(
                base_rows.len() - 1,
                base_rows.last().push(IrV::Array(flatten_irs(st0.stack))),
            ));
        }
    }

    /// Processes the first elements of the sequence through the
    /// reconstructor state machine.
    #[verifier::rlimit(100)]
    #[verifier::spinoff_prover]
    fn process_prefix(
        &mut self,
        visitor: &mut ContentConverter,
        children: &Vec<Content>,
        n: usize,
    ) -> (r: Result<(), ConvertError>)
        requires
            n <= children@.len(),
            old(self).body@.len() == 0,
            old(self).stack@.len() == 0,
            !old(self).is_aligned,
        ensures
            final(self).content == old(self).content,
            ({
                let so = cv_elems(
                    content_list_view(children@).subrange(0, n as int),
                    init_seq_state(),
                );
                &&& final(visitor).warnings@ == old(visitor).warnings@ + so.warns
                &&& match r {
                    Ok(u) => so.res == Ok::<SeqState, ConvertError>(final(self).state_of()),
                    Err(er) => so.res == Err::<SeqState, ConvertError>(er),
                }
            }),
        decreases children, n,
    {
        let ghost clv = content_list_view(children@);
        proof {
            lemma_content_list_view_index(children@);
        }
        if n == 0 {
            proof {
                lemma_cv_elems_empty(init_seq_state());
                assert(clv.subrange(0, 0) =~= Seq::<ContentV>::empty());
                assert(rows_view(self.body@) =~= Seq::<Seq<IrV>>::empty());
                assert(irs_view(self.stack@) =~= Seq::<IrV>::empty());
                assert(old(visitor).warnings@ + Seq::<Warning>::empty() =~= old(
                    visitor,
                ).warnings@);
            }
            Ok(())
        } else {
            let ghost pre = clv.subrange(0, n as int - 1);
            let ghost x = clv[n as int - 1];
            proof {
                lemma_cv_elems_snoc(pre, x, init_seq_state());
                assert(pre.push(x) =~= clv.subrange(0, n as int));
            }
            let ghost a = cv_elems(pre, init_seq_state());
            match self.process_prefix(visitor, children, n - 1) {
                Ok(u) => u,
                Err(er) => {
                    return Err(er);
                },
            };
            let elem = &children[n - 1];
            proof {
                crate::content::lemma_content_view_variants(*elem);
            }
            let ghost st_a = self.state_of();
            let is_lb = elem.is_linebreak();
            let is_ap = elem.is_align_point();
            if is_lb || is_ap {
                self.dump_stack_onto_body();
                if is_lb {
                    let ghost before = self.body@;
                    self.body.push(Vec::new());
                    proof {
                        lemma_rows_view_push(before, self.body@.last());
                        assert(before.push(self.body@.last()) =~= self.body@);
                        assert(irs_view(self.body@.last()@) =~= Seq::<IrV>::empty());
                    }
                }
                if is_ap {
                    self.is_aligned = true;
                }
            }
            let ghost st1 = self.state_of();
            let ghost o = cv(x);
            let w = match visitor.convert(elem) {
                Ok(w) => w,
                Err(er) => {
                    proof {
                        assert((old(visitor).warnings@ + a.warns) + o.warns =~= old(
                            visitor,
                        ).warnings@ + (a.warns + o.warns));
                    }
                    return Err(er);
                },
            };
            proof {
                assert((old(visitor).warnings@ + a.warns) + o.warns =~= old(visitor).warnings@
                    + (a.warns + o.warns));
            }
            let ghost stack_before = self.stack@;
            self.stack.push(w);
            proof {
                lemma_irs_view_push(stack_before, w);
                assert(cv_elems_step(x, st_a).res == Ok::<SeqState, ConvertError>(
                    self.state_of(),
                ));
            }
            Ok(())
        }
    }

    /// Processes every element of the sequence, closing the final cell.
    #[verifier::rlimit(100)]
    #[verifier::spinoff_prover]
    pub fn process_sequence_elements(&mut self, visitor: &mut ContentConverter) -> (r: Result<
        (),
        ConvertError,
    >)
        requires
            old(self).content is Sequence,
            old(self).body@.len() == 0,
            old(self).stack@.len() == 0,
            !old(self).is_aligned,
        ensures
            final(self).content == old(self).content,
            ({
                let so = cv_elems(
                    content_view(*old(self).content)->Sequence_children,
                    init_seq_state(),
                );
                &&& final(visitor).warnings@ == old(visitor).warnings@ + so.warns
                &&& match r {
                    Ok(u) => so.res is Ok && rows_view(final(self).body@) == dump_spec(
                        so.res->Ok_0,
                    ).body && final(self).stack@.len() == 0 && final(self).is_aligned
                        == so.res->Ok_0.aligned,
                    Err(er) => so.res == Err::<SeqState, ConvertError>(er),
                }
            }),
        decreases self.content, 1int,
    {
        let content = self.content;
        proof {
            crate::content::lemma_content_view_variants(*content);
        }
        match content {
            Content::Sequence { children } => {
                let ghost clv = content_list_view(children@);
                proof {
                    lemma_content_list_view_index(children@);
                }
                let res = self.process_prefix(visitor, children, children.len());
                proof {
                    lemma_content_list_view_index(children@);
                    assert(clv.subrange(0, children@.len() as int) =~= clv);
                }
                match res {
                    Err(er) => Err(er),
                    Ok(u) => {
                        self.dump_stack_onto_body();
                        Ok(())
                    },
                }
            },
            _ => unreached(),
        }
    }

    /// Flattens every cell of every row into one linear run.
    #[verifier::rlimit(100)]
    #[verifier::spinoff_prover]
    pub fn convert_flatten(&self) -> (r: Node)
        ensures
            ir_view(r) == IrV::Array(flatten_body(rows_view(self.body@))),
    {
        proof {
            lemma_rows_view_index(self.body@);
        }
        let ghost bv = rows_view(self.body@);
        let mut out: NodeArray = Vec::new();
        proof {
            assert(node_list_view(out@) =~= Seq::<NodeV>::empty());
            assert(bv.subrange(0, 0) =~= Seq::<Seq<IrV>>::empty());
            assert(flatten_body(Seq::<Seq<IrV>>::empty()) =~= Seq::<NodeV>::empty());
        }
        let mut i: usize = 0;
        while i < self.body.len()
            invariant
                i <= self.body@.len(),
                bv == rows_view(self.body@),
                bv.len() == self.body@.len(),
                forall|k: int| 0 <= k < bv.len() ==> bv[k] == irs_view(
                    (#[trigger] self.body@[k])@,
                ),
                node_list_view(out@) =~= flatten_body(bv.subrange(0, i as int)),
            decreases self.body@.len() - i,
        {
            let mut part = flatten_row(&self.body[i]);
            proof {
                lemma_node_list_view_concat(out@, part@);
                lemma_flatten_body_push(bv.subrange(0, i as int), bv[i as int]);
                assert(bv.subrange(0, i as int).push(bv[i as int]) =~= bv.subrange(0, i + 1));
            }
            out.append(&mut part);
            i += 1;
        }
        proof {
            assert(bv.subrange(0, bv.len() as int) =~= bv);
        }
        Node::Array(out)
    }

    /// Builds the aligned array: each cell becomes a display-style wrapper
    /// around its grouped run, columns alternate right/left, vertical jot
    /// spacing is on, and numbering is off.
    #[verifier::rlimit(100)]
    #[verifier::spinoff_prover]
    pub fn convert_align(&self) -> (r: Node)
        ensures
            ir_view(r) == IrV::Node(align_array_v(rows_view(self.body@))),
    {
        proof {
            lemma_rows_view_index(self.body@);
        }
        let ghost bv = rows_view(self.body@);
        let mut constructor = ArrayConstructor::default();
        proof {
            assert(node_grid_view(constructor.body@) =~= Seq::<Seq<NodeV>>::empty());
            assert(align_body_v(bv).subrange(0, 0) =~= Seq::<Seq<NodeV>>::empty());
            assert(constructor.h_lines_before_row.deep_view() =~= empty_h_lines(0));
        }
        let mut i: usize = 0;
        while i < self.body.len()
            invariant
                i <= self.body@.len(),
                bv == rows_view(self.body@),
                bv.len() == self.body@.len(),
                forall|k: int| 0 <= k < bv.len() ==> bv[k] == irs_view(
                    (#[trigger] self.body@[k])@,
                ),
                node_grid_view(constructor.body@) =~= align_body_v(bv).subrange(0, i as int),
                constructor.h_lines_before_row.deep_view() =~= empty_h_lines(i as nat),
                constructor.cols is None,
            decreases self.body@.len() - i,
        {
            let row = align_row(&self.body[i]);
            proof {
                assert(node_list_view(row@) == align_row_v(bv[i as int]));
            }
            feed_row(&mut constructor, row);
            proof {
                assert(align_body_v(bv).subrange(0, i as int).push(align_body_v(bv)[i as int])
                    =~= align_body_v(bv).subrange(0, i + 1));
                assert(node_grid_view(constructor.body@) =~= align_body_v(bv).subrange(
                    0,
                    i + 1,
                ));
                assert(constructor.h_lines_before_row.deep_view() =~= empty_h_lines(
                    i as nat + 1,
                ));
            }
            i += 1;
        }
        proof {
            assert(align_body_v(bv).subrange(0, align_body_v(bv).len() as int) =~= align_body_v(
                bv,
            ));
            lemma_max_align(bv);
        }
        constructor.cols_leftright_align();
        let mut array = constructor.builder();
        array.add_jot = Some(true);
        array.leqno = Some(false);
        array.col_separation_type = Some(ColSeparationType::Align);
        proof {
            lemma_node_view_array(array);
            assert(array.row_gaps.deep_view()
                =~= Seq::<Option<crate::katex::types::MeasurementV>>::empty());
        }
        Node::Node(array.into_node())
    }

    /// Runs the whole sequence conversion: processes the elements, then
    /// flattens or aligns.
    #[verifier::rlimit(100)]
    #[verifier::spinoff_prover]
    pub fn convert(&mut self, visitor: &mut ContentConverter) -> (r: Result<Node, ConvertError>)
        requires
            old(self).content is Sequence,
            old(self).body@.len() == 0,
            old(self).stack@.len() == 0,
            !old(self).is_aligned,
        ensures
            final(visitor).warnings@ == old(visitor).warnings@ + cv(
                content_view(*old(self).content),
            ).warns,
            agrees(r, cv(content_view(*old(self).content)).res),
        decreases self.content, 2int,
    {
        proof {
            crate::content::lemma_content_view_variants(*self.content);
        }
        let ghost ev = content_view(*self.content);
        let ghost children = ev->Sequence_children;
        let ghost so = cv_elems(children, init_seq_state());
        proof {
            assert(cv(ev) == cv_sequence(children));
        }
        match self.process_sequence_elements(visitor) {
            Err(er) => Err(er),
            Ok(u) => {
                let ghost st = so.res->Ok_0;
                let ghost fin = dump_spec(st);
                proof {
                    assert(rows_view(self.body@) == fin.body);
                    assert(self.is_aligned == fin.aligned);
                }
                if self.is_aligned {
                    let r = self.convert_align();
                    proof {
                        assert(ir_view(r) == IrV::Node(align_array_v(fin.body)));
                    }
                    Ok(r)
                } else {
                    let r = self.convert_flatten();
                    proof {
                        assert(ir_view(r) == IrV::Array(flatten_body(fin.body)));
                    }
                    Ok(r)
                }
            },
        }
    }
}

/// Flattens the cell runs of one row.
#[verifier::rlimit(100)]
#[verifier::spinoff_prover]
fn flatten_row(row: &Vec<Node>) -> (r: NodeArray)
    ensures
        node_list_view(r@) == flatten_irs(irs_view(row@)),
{
    let mut out: NodeArray = Vec::new();
    proof {
        assert(node_list_view(out@) =~= Seq::<NodeV>::empty());
        assert(irs_view(row@.subrange(0, 0)) =~= Seq::<IrV>::empty());
        assert(flatten_irs(Seq::<IrV>::empty()) =~= Seq::<NodeV>::empty());
    }
    let mut i: usize = 0;
    while i < row.len()
        invariant
            i <= row@.len(),
            node_list_view(out@) =~= flatten_irs(irs_view(row@.subrange(0, i as int))),
        decreases row@.len() - i,
    {
        let mut part = row[i].dup().into_array();
        proof {
            lemma_node_list_view_concat(out@, part@);
            lemma_irs_view_push(row@.subrange(0, i as int), row@[i as int]);
            assert(row@.subrange(0, i as int).push(row@[i as int]) =~= row@.subrange(0, i + 1));
            lemma_flatten_irs_push(
                irs_view(row@.subrange(0, i as int)),
                ir_view(row@[i as int]),
            );
        }
        out.append(&mut part);
        i += 1;
    }
    proof {
        assert(row@.subrange(0, row@.len() as int) =~= row@);
    }
    out
}

/// Builds the display-style cells of one aligned row.
#[verifier::rlimit(100)]
#[verifier::spinoff_prover]
fn align_row(row: &Vec<Node>) -> (r: Vec<KatexNode>)
    ensures
        node_list_view(r@) == align_row_v(irs_view(row@)),
{
    proof {
        lemma_irs_view_index(row@);
    }
    let ghost rv = irs_view(row@);
    let mut out: Vec<KatexNode> = Vec::new();
    proof {
        assert(node_list_view(out@) =~= Seq::<NodeV>::empty());
    }
    let mut i: usize = 0;
    while i < row.len()
        invariant
            i <= row@.len(),
            rv == irs_view(row@),
            rv.len() == row@.len(),
            forall|k: int| 0 <= k < rv.len() ==> rv[k] == ir_view(#[trigger] row@[k]),
            node_list_view(out@).len() == i,
            forall|k: int| 0 <= k < i ==> node_list_view(out@)[k] == align_cell_v(rv[k]),
        decreases row@.len() - i,
    {
        let cell = make_cell(StyleStr::Display, row[i].dup().into_array());
        proof {
            crate::katex::node::lemma_node_list_view_push(out@, cell);
            lemma_node_list_view_index(out@);
        }
        out.push(cell);
        i += 1;
        proof {
            lemma_node_list_view_index(out@);
        }
    }
    proof {
        assert(node_list_view(out@) =~= align_row_v(rv));
    }
    out
}

/// The aligned cell grid has the same row lengths as the reconstructed
/// rows.
proof fn lemma_max_align(bv: Seq<Seq<IrV>>)
    ensures
        max_runs_len(align_body_v(bv)) == max_row_len(bv),
    decreases bv,
{
    if bv.len() == 0 {
        assert(align_body_v(bv) =~= Seq::<Seq<NodeV>>::empty());
    } else {
        lemma_max_align(bv.drop_last());
        assert(align_body_v(bv).drop_last() =~= align_body_v(bv.drop_last()));
        assert(align_body_v(bv).last() == align_row_v(bv.last()));
    }
}

/// The cases converter: collects the rows contributed by sequence children,
/// then builds the braced two-column array.
pub struct CasesConverter<'a> {
    pub content: &'a Content,
    pub body: Vec<Vec<Node>>,
    pub stack: Vec<Node>,
}

impl<'a> CasesConverter<'a> {
    /// A fresh converter over the given case-split node.
    #[verifier::rlimit(100)]
    #[verifier::spinoff_prover]
    pub fn new(content: &'a Content) -> (r: CasesConverter<'a>)
        ensures
            r.content == content,
            r.body@.len() == 0,
            r.stack@.len() == 0,
    {
        CasesConverter { content, body: Vec::new(), stack: Vec::new() }
    }

    /// Collects the rows of the first children.
    #[verifier::rlimit(100)]
    #[verifier::spinoff_prover]
    fn process_children_prefix(
        &mut self,
        visitor: &mut ContentConverter,
        children: &Vec<Content>,
        n: usize,
    ) -> (r: Result<(), ConvertError>)
        requires
            n <= children@.len(),
            old(self).body@.len() == 0,
        ensures
            final(self).content == old(self).content,
            ({
                let out = cases_rows_v(content_list_view(children@).subrange(0, n as int));
                &&& final(visitor).warnings@ == old(visitor).warnings@ + out.warns
                &&& match r {
                    Ok(u) => out.res == Ok::<Seq<Seq<IrV>>, ConvertError>(
                        rows_view(final(self).body@),
                    ),
                    Err(er) => out.res == Err::<Seq<Seq<IrV>>, ConvertError>(er),
                }
            }),
        decreases children, n,
    {
        let ghost clv = content_list_view(children@);
        proof {
            lemma_content_list_view_index(children@);
            if n > 0 {
                assert(clv.subrange(0, n as int).drop_last() =~= clv.subrange(0, n as int - 1));
            }
        }
        if n == 0 {
            proof {
                assert(clv.subrange(0, 0) =~= Seq::<ContentV>::empty());
                assert(rows_view(self.body@) =~= Seq::<Seq<IrV>>::empty());
                assert(old(visitor).warnings@ + cases_rows_v(clv.subrange(0, 0)).warns =~= old(
                    visitor,
                ).warnings@);
            }
            Ok(())
        } else {
            let ghost rest = cases_rows_v(clv.subrange(0, n as int - 1));
            match self.process_children_prefix(visitor, children, n - 1) {
                Ok(u) => u,
                Err(er) => {
                    return Err(er);
                },
            };
            let child = &children[n - 1];
            proof {
                crate::content::lemma_content_view_variants(*child);
                assert(clv.subrange(0, n as int).last() == clv[n as int - 1]);
            }
            if child.is_sequence() {
                let mut sc = SequenceConverter::new(child);
                let ghost so = cv_elems(
                    content_view(*child)->Sequence_children,
                    init_seq_state(),
                );
                match sc.process_sequence_elements(visitor) {
                    Err(er) => {
                        proof {
                            assert((old(visitor).warnings@ + rest.warns) + so.warns =~= old(
                                visitor,
                            ).warnings@ + (rest.warns + so.warns));
                        }
                        return Err(er);
                    },
                    Ok(u) => u,
                };
                proof {
                    assert((old(visitor).warnings@ + rest.warns) + so.warns =~= old(
                        visitor,
                    ).warnings@ + (rest.warns + so.warns));
                    lemma_rows_view_concat(self.body@, sc.body@);
                }
                let mut rows = sc.body;
                self.body.append(&mut rows);
            } else {
                proof {
                    assert(old(visitor).warnings@ + rest.warns + Seq::<Warning>::empty()
                        =~= old(visitor).warnings@ + rest.warns);
                }
            }
            Ok(())
        }
    }

    /// Collects every row.
    #[verifier::rlimit(100)]
    #[verifier::spinoff_prover]
    pub fn process_children(&mut self, visitor: &mut ContentConverter) -> (r: Result<
        (),
        ConvertError,
    >)
        requires
            old(self).content is Cases,
            old(self).body@.len() == 0,
        ensures
            final(self).content == old(self).content,
            ({
                let out = cases_rows_v(content_view(*old(self).content)->Cases_children);
                &&& final(visitor).warnings@ == old(visitor).warnings@ + out.warns
                &&& match r {
                    Ok(u) => out.res == Ok::<Seq<Seq<IrV>>, ConvertError>(
                        rows_view(final(self).body@),
                    ),
                    Err(er) => out.res == Err::<Seq<Seq<IrV>>, ConvertError>(er),
                }
            }),
        decreases self.content, 1int,
    {
        let content = self.content;
        match content {
            Content::Cases { children } => {
                proof {
                    lemma_content_list_view_index(children@);
                }
                let res = self.process_children_prefix(visitor, children, children.len());
                proof {
                    lemma_content_list_view_index(children@);
                    assert(content_list_view(children@).subrange(0, children@.len() as int)
                        =~= content_list_view(children@));
                }
                res
            },
            _ => unreached(),
        }
    }

    /// Runs the whole case-split conversion.
    #[verifier::rlimit(100)]
    #[verifier::spinoff_prover]
    pub fn convert(&mut self, visitor: &mut ContentConverter) -> (r: Result<Node, ConvertError>)
        requires
            old(self).content is Cases,
            old(self).body@.len() == 0,
        ensures
            final(visitor).warnings@ == old(visitor).warnings@ + cv(
                content_view(*old(self).content),
            ).warns,
            agrees(r, cv(content_view(*old(self).content)).res),
        decreases self.content, 2int,
    {
        match self.process_children(visitor) {
            Err(er) => Err(er),
            Ok(u) => {
                proof {
                    lemma_rows_view_index(self.body@);
                }
                let ghost bv = rows_view(self.body@);
                let mut constructor = ArrayConstructor::default();
                proof {
                    assert(node_grid_view(constructor.body@) =~= Seq::<Seq<NodeV>>::empty());
                    assert(cases_body_v(bv).subrange(0, 0) =~= Seq::<Seq<NodeV>>::empty());
                    assert(constructor.h_lines_before_row.deep_view() =~= empty_h_lines(0));
                }
                let mut i: usize = 0;
                while i < self.body.len()
                    invariant
                        i <= self.body@.len(),
                        bv == rows_view(self.body@),
                        bv.len() == self.body@.len(),
                        forall|k: int| 0 <= k < bv.len() ==> bv[k] == irs_view(
                            (#[trigger] self.body@[k])@,
                        ),
                        node_grid_view(constructor.body@) =~= cases_body_v(bv).subrange(
                            0,
                            i as int,
                        ),
                        constructor.h_lines_before_row.deep_view() =~= empty_h_lines(i as nat),
                        constructor.cols is None,
                    decreases self.body@.len() - i,
                {
                    let row = cases_row(&self.body[i]);
                    proof {
                        assert(node_list_view(row@) == cases_row_v(bv[i as int]));
                    }
                    feed_row(&mut constructor, row);
                    proof {
                        assert(cases_body_v(bv).subrange(0, i as int).push(
                            cases_body_v(bv)[i as int],
                        ) =~= cases_body_v(bv).subrange(0, i + 1));
                        assert(node_grid_view(constructor.body@) =~= cases_body_v(
                            bv,
                        ).subrange(0, i + 1));
                        assert(constructor.h_lines_before_row.deep_view() =~= empty_h_lines(
                            i as nat + 1,
                        ));
                    }
                    i += 1;
                }
                proof {
                    assert(cases_body_v(bv).subrange(0, cases_body_v(bv).len() as int)
                        =~= cases_body_v(bv));
                }
                let mut cols: Vec<crate::katex::types::AlignSpec> = Vec::new();
                cols.push(
                    crate::katex::types::AlignSpec::Align(
                        crate::katex::types::Align {
                            align: "l".to_owned(),
                            pregap_milli: Some(0),
                            postgap_milli: Some(1000),
                        },
                    ),
                );
                cols.push(
                    crate::katex::types::AlignSpec::Align(
                        crate::katex::types::Align {
                            align: "l".to_owned(),
                            pregap_milli: Some(0),
                            postgap_milli: Some(0),
                        },
                    ),
                );
                proof {
                    assert(cols.deep_view() =~~= seq![
                        crate::katex::types::AlignSpecV::Align {
                            align: "l"@,
                            pregap_milli: Some(0int as i64),
                            postgap_milli: Some(1000int as i64),
                        },
                        crate::katex::types::AlignSpecV::Align {
                            align: "l"@,
                            pregap_milli: Some(0int as i64),
                            postgap_milli: Some(0int as i64),
                        },
                    ]);
                }
                constructor.cols = Some(cols);
                let mut array = constructor.builder();
                array.arraystretch_milli = 1200;
                proof {
                    lemma_node_view_array(array);
                    assert(array.row_gaps.deep_view()
                        =~= Seq::<Option<crate::katex::types::MeasurementV>>::empty());
                }
                let array_node = array.into_node();
                let mut lr_body: NodeArray = Vec::new();
                lr_body.push(array_node);
                proof {
                    assert(lr_body@ =~= seq![lr_body@[0]]);
                    lemma_node_list_view_singleton(lr_body@[0]);
                }
                let lr = LeftRight {
                    mode: Mode::Math,
                    loc: None,
                    body: lr_body,
                    left: "\\{".to_owned(),
                    right: ".".to_owned(),
                    right_color: None,
                };
                proof {
                    lemma_node_view_left_right(lr);
                }
                Ok(Node::Node(KatexNode::LeftRight(lr)))
            },
        }
    }
}

/// Builds the text-style cells of one case row.
#[verifier::rlimit(100)]
#[verifier::spinoff_prover]
fn cases_row(row: &Vec<Node>) -> (r: Vec<KatexNode>)
    ensures
        node_list_view(r@) == cases_row_v(irs_view(row@)),
{
    proof {
        lemma_irs_view_index(row@);
    }
    let ghost rv = irs_view(row@);
    let mut out: Vec<KatexNode> = Vec::new();
    proof {
        assert(node_list_view(out@) =~= Seq::<NodeV>::empty());
    }
    let mut i: usize = 0;
    while i < row.len()
        invariant
            i <= row@.len(),
            rv == irs_view(row@),
            rv.len() == row@.len(),
            forall|k: int| 0 <= k < rv.len() ==> rv[k] == ir_view(#[trigger] row@[k]),
            node_list_view(out@).len() == i,
            forall|k: int| 0 <= k < i ==> node_list_view(out@)[k] == table_cell_v(
                ir_as_array(rv[k]),
            ),
        decreases row@.len() - i,
    {
        let cell = make_cell(StyleStr::Text, row[i].dup().into_array());
        proof {
            crate::katex::node::lemma_node_list_view_push(out@, cell);
            lemma_node_list_view_index(out@);
        }
        out.push(cell);
        i += 1;
        proof {
            lemma_node_list_view_index(out@);
        }
    }
    proof {
        assert(node_list_view(out@) =~= cases_row_v(rv));
    }
    out
}

/// The vector converter: one centered column, one child per row.
pub struct VecConverter<'a> {
    pub content: &'a Content,
}

impl<'a> VecConverter<'a> {
    /// A fresh converter over the given vector node.
    #[verifier::rlimit(100)]
    #[verifier::spinoff_prover]
    pub fn new(content: &'a Content) -> (r: VecConverter<'a>)
        ensures
            r.content == content,
    {
        VecConverter { content }
    }

    /// Runs the whole vector conversion.
    #[verifier::rlimit(100)]
    #[verifier::spinoff_prover]
    pub fn convert(&mut self, visitor: &mut ContentConverter) -> (r: Result<Node, ConvertError>)
        requires
            old(self).content is Vector,
        ensures
            final(visitor).warnings@ == old(visitor).warnings@ + cv(
                content_view(*old(self).content),
            ).warns,
            agrees(r, cv(content_view(*old(self).content)).res),
        decreases self.content, 2int,
    {
        let content = self.content;
        let ghost ev = content_view(*content);
        match content {
            Content::Vector { children, delim } => {
                let ghost lv = content_list_view(children@);
                proof {
                    lemma_content_list_view_index(children@);
                    assert(ev == (ContentV::Vector { children: lv, delim: *delim }));
                }
                let grid = match visitor.convert_vector_rows(children, children.len()) {
                    Ok(v) => v,
                    Err(er) => {
                        proof {
                            assert(lv.subrange(0, lv.len() as int) =~= lv);
                        }
                        return Err(er);
                    },
                };
                proof {
                    assert(lv.subrange(0, lv.len() as int) =~= lv);
                }
                let ghost gview = node_grid_view(grid@);
                let mut constructor = ArrayConstructor::default();
                proof {
                    lemma_node_grid_view_index(grid@);
                    assert(node_grid_view(constructor.body@) =~= Seq::<Seq<NodeV>>::empty());
                    assert(gview.subrange(0, 0) =~= Seq::<Seq<NodeV>>::empty());
                    assert(constructor.h_lines_before_row.deep_view() =~= empty_h_lines(0));
                }
                let mut i: usize = 0;
                while i < grid.len()
                    invariant
                        i <= grid@.len(),
                        gview == node_grid_view(grid@),
                        gview.len() == grid@.len(),
                        forall|j: int| 0 <= j < grid@.len() ==> gview[j] == node_list_view(
                            (#[trigger] grid@[j])@,
                        ),
                        node_grid_view(constructor.body@) =~= gview.subrange(0, i as int),
                        constructor.h_lines_before_row.deep_view() =~= empty_h_lines(i as nat),
                        constructor.cols is None,
                    decreases grid@.len() - i,
                {
                    let row = dup_node_list(&grid[i]);
                    feed_row(&mut constructor, row);
                    proof {
                        assert(node_grid_view(constructor.body@) =~= gview.subrange(0, i + 1));
                        assert(constructor.h_lines_before_row.deep_view() =~= empty_h_lines(
                            i as nat + 1,
                        ));
                    }
                    i += 1;
                }
                proof {
                    assert(gview.subrange(0, gview.len() as int) =~= gview);
                }
                constructor.cols_center_align();
                let mut array = constructor.builder();
                array.hskip_before_and_after = Some(false);
                let mut rg: Vec<Option<Measurement>> = Vec::new();
                rg.push(None);
                proof {
                    assert(rg.deep_view() =~~= seq![
                        None::<crate::katex::types::MeasurementV>,
                    ]);
                }
                array.row_gaps = rg;
                proof {
                    lemma_node_view_array(array);
                }
                let lr = wrap_delims(array.into_node(), *delim);
                Ok(Node::Node(lr))
            },
            _ => unreached(),
        }
    }
}

} // verus!
