//! The laws the library promises, stated and proved once and for all over
//! the same specification functions that every executable routine is held
//! to.

use vstd::prelude::*;
use crate::content::{ContentV, Delimiter, delim_open_spec, delim_close_spec};
use crate::katex::types::{Mode, AlignSpecV};
use crate::katex::node::NodeV;
use crate::katex::symbol::{Symbol, symbol_spec};
use crate::node::{IrV, ir_as_array, ir_as_node};
use crate::error::ConvertError;
use crate::semantics::{
    cols_leftright_spec, delim_leftright_v, cv, cv_sequence, cv_elems, cv_elems_step,
    init_seq_state, dump_spec, flatten_body, flatten_irs, SeqState, lemma_cv_elems_empty,
    lemma_cv_elems_one, lemma_cv_elems_snoc,
};
use crate::utils::insert_separator_spec;

verus! {

/// Looking a character up twice in the same mode yields identical
/// descriptors: the lookup is a pure function of the mode and the character.
pub proof fn lemma_symbol_lookup_deterministic(a: Symbol, b: Symbol, mode: Mode, c: char)
    requires
        a == symbol_spec(mode, c),
        b == symbol_spec(mode, c),
    ensures
        a == b,
{
}

/// A single node coerces to a run of length one, and that run coerces back
/// to the same node unchanged.
pub proof fn lemma_ir_coercion_round_trip(n: NodeV)
    ensures
        ir_as_array(IrV::Node(n)).len() == 1,
        ir_as_node(IrV::Array(ir_as_array(IrV::Node(n)))) == Ok::<NodeV, ConvertError>(n),
{
}

/// A run whose length is not one does not coerce to a single node.
pub proof fn lemma_ir_as_node_rejects(s: Seq<NodeV>)
    requires
        s.len() != 1,
    ensures
        ir_as_node(IrV::Array(s)) is Err,
{
}

/// In an aligned array the first column is right-aligned and the second
/// left-aligned, alternating from there on; every even column past the
/// first pair carries the small separating pregap, all others none.
pub proof fn lemma_column_alignment_parity(n: nat, i: int)
    requires
        0 <= i < n,
    ensures
        cols_leftright_spec(n)[i] == (AlignSpecV::Align {
            align: if i % 2 == 0 {
                "r"@
            } else {
                "l"@
            },
            pregap_milli: Some(
                if i > 1 && i % 2 == 0 {
                    1000int as i64
                } else {
                    0
                },
            ),
            postgap_milli: Some(0int as i64),
        }),
{
}

/// The delimited wrapper of a matrix or vector carries exactly the open and
/// close characters of its delimiter kind.
pub proof fn lemma_delimiter_round_trip(inner: NodeV, k: Delimiter)
    ensures
        delim_leftright_v(inner, k)->LeftRight_left == seq![delim_open_spec(k)],
        delim_leftright_v(inner, k)->LeftRight_right == seq![delim_close_spec(k)],
        k is Paren ==> delim_open_spec(k) == '(' && delim_close_spec(k) == ')',
        k is Bracket ==> delim_open_spec(k) == '[' && delim_close_spec(k) == ']',
        k is Brace ==> delim_open_spec(k) == '{' && delim_close_spec(k) == '}',
        k is Bar ==> delim_open_spec(k) == '|' && delim_close_spec(k) == '|',
        k is DoubleBar ==> delim_open_spec(k) == '‖' && delim_close_spec(k) == '‖',
{
}

/// Joining a non-empty list of parts with a separator yields exactly one
/// separator between each adjacent pair: the parts stand at even positions,
/// the separator at the odd ones, never leading or trailing, so a list of
/// `n` parts gains exactly `n - 1` separators.
pub proof fn lemma_separator_interleaving<T>(parts: Seq<T>, sep: T)
    requires
        parts.len() >= 1,
    ensures
        insert_separator_spec(parts, sep).len() == 2 * parts.len() - 1,
        forall|i: int|
            0 <= i < 2 * parts.len() - 1 && i % 2 == 0 ==> insert_separator_spec(parts, sep)[i]
                == parts[i / 2],
        forall|i: int|
            0 <= i < 2 * parts.len() - 1 && i % 2 == 1 ==> insert_separator_spec(parts, sep)[i]
                == sep,
{
}

/// Whether a run of sequence elements holds an align-point marker.
pub open spec fn has_align_marker(elems: Seq<ContentV>) -> bool {
    exists|i: int| 0 <= i < elems.len() && elems[i] is AlignPoint
}

/// Whether a run of sequence elements holds any break marker.
pub open spec fn has_break_marker(elems: Seq<ContentV>) -> bool {
    exists|i: int| 0 <= i < elems.len() && (elems[i] is AlignPoint || elems[i] is Linebreak)
}

/// The number of line-break markers in a run of sequence elements.
pub open spec fn linebreak_count(elems: Seq<ContentV>) -> int
    decreases elems,
{
    if elems.len() == 0 {
        0
    } else {
        (if elems.first() is Linebreak {
            1int
        } else {
            0
        }) + linebreak_count(elems.drop_first())
    }
}

/// The total number of nodes in the cells of one reconstructed row.
pub open spec fn row_nodes_len(row: Seq<IrV>) -> int
    decreases row,
{
    if row.len() == 0 {
        0
    } else {
        row_nodes_len(row.drop_last()) + ir_as_array(row.last()).len()
    }
}

/// The total number of nodes over all cells of all reconstructed rows.
pub open spec fn cells_nodes_len(body: Seq<Seq<IrV>>) -> int
    decreases body,
{
    if body.len() == 0 {
        0
    } else {
        cells_nodes_len(body.drop_last()) + row_nodes_len(body.last())
    }
}

/// A count of markers is never negative.
proof fn lemma_linebreak_count_nonneg(elems: Seq<ContentV>)
    ensures
        linebreak_count(elems) >= 0,
    decreases elems.len(),
{
    if elems.len() > 0 {
        lemma_linebreak_count_nonneg(elems.drop_first());
    }
}

/// A run without break markers holds no line breaks.
proof fn lemma_no_marker_no_linebreaks(elems: Seq<ContentV>)
    ensures
        !has_break_marker(elems) ==> linebreak_count(elems) == 0,
    decreases elems.len(),
{
    if elems.len() > 0 && !has_break_marker(elems) {
        assert(!(elems[0] is Linebreak));
        assert(!has_break_marker(elems.drop_first())) by {
            if has_break_marker(elems.drop_first()) {
                let i = choose|i: int|
                    0 <= i < elems.drop_first().len() && (elems.drop_first()[i] is AlignPoint
                        || elems.drop_first()[i] is Linebreak);
                assert(elems[i + 1] is AlignPoint || elems[i + 1] is Linebreak);
            }
        }
        lemma_no_marker_no_linebreaks(elems.drop_first());
    }
}

/// Flattening one row yields exactly as many nodes as its cells hold.
proof fn lemma_flatten_irs_len(row: Seq<IrV>)
    ensures
        flatten_irs(row).len() == row_nodes_len(row),
    decreases row,
{
    if row.len() > 0 {
        lemma_flatten_irs_len(row.drop_last());
    }
}

/// Flattening the whole grid yields exactly as many nodes as its cells
/// hold.
proof fn lemma_flatten_body_len(body: Seq<Seq<IrV>>)
    ensures
        flatten_body(body).len() == cells_nodes_len(body),
    decreases body,
{
    if body.len() > 0 {
        lemma_flatten_body_len(body.drop_last());
        lemma_flatten_irs_len(body.last());
    }
}

/// How the reconstructor state evolves over a run of elements: the aligned
/// flag is set exactly when an align point occurs, and the row count grows
/// by one per line break once the first marker has opened the first row.
proof fn lemma_cv_elems_shape(elems: Seq<ContentV>, st: SeqState)
    ensures
        cv_elems(elems, st).res is Ok ==> ({
            let st2 = cv_elems(elems, st).res->Ok_0;
            &&& st2.aligned == (st.aligned || has_align_marker(elems))
            &&& st2.body.len() == if has_break_marker(elems) {
                linebreak_count(elems) + (
                if st.body.len() == 0 {
                    1int
                } else {
                    st.body.len() as int
                })
            } else {
                st.body.len() as int
            }
        }),
    decreases elems.len(),
{
    if elems.len() == 0 {
        lemma_cv_elems_empty(st);
        assert(!has_align_marker(elems));
        assert(!has_break_marker(elems));
    } else {
        let e = elems.first();
        let rest = elems.drop_first();
        let o = cv(e);
        if o.res is Ok {
            let st1 = if e is Linebreak || e is AlignPoint {
                let d = dump_spec(st);
                let d2 = if e is Linebreak {
                    SeqState {
                        body: d.body.push(Seq::empty()),
                        stack: d.stack,
                        aligned: d.aligned,
                    }
                } else {
                    d
                };
                if e is AlignPoint {
                    SeqState { body: d2.body, stack: d2.stack, aligned: true }
                } else {
                    d2
                }
            } else {
                st
            };
            let st2 = SeqState {
                body: st1.body,
                stack: st1.stack.push(o.res->Ok_0),
                aligned: st1.aligned,
            };
            lemma_cv_elems_shape(rest, st2);
            assert(has_align_marker(elems) == (e is AlignPoint || has_align_marker(rest)))
                by {
                if e is AlignPoint {
                    assert(elems[0] is AlignPoint);
                } else if has_align_marker(rest) {
                    let i = choose|i: int|
                        0 <= i < rest.len() && rest[i] is AlignPoint;
                    assert(elems[i + 1] is AlignPoint);
                } else if has_align_marker(elems) {
                    let i = choose|i: int|
                        0 <= i < elems.len() && elems[i] is AlignPoint;
                    if i > 0 {
                        assert(rest[i - 1] is AlignPoint);
                    }
                }
            }
            assert(has_break_marker(elems) == (e is AlignPoint || e is Linebreak
                || has_break_marker(rest))) by {
                if e is AlignPoint || e is Linebreak {
                    assert(elems[0] is AlignPoint || elems[0] is Linebreak);
                } else if has_break_marker(rest) {
                    let i = choose|i: int|
                        0 <= i < rest.len() && (rest[i] is AlignPoint || rest[i] is Linebreak);
                    assert(elems[i + 1] is AlignPoint || elems[i + 1] is Linebreak);
                } else if has_break_marker(elems) {
                    let i = choose|i: int|
                        0 <= i < elems.len() && (elems[i] is AlignPoint
                            || elems[i] is Linebreak);
                    if i > 0 {
                        assert(rest[i - 1] is AlignPoint || rest[i - 1] is Linebreak);
                    }
                }
            }
            if e is Linebreak || e is AlignPoint {
                assert(dump_spec(st).body.len() == if st.body.len() == 0 {
                    1int
                } else {
                    st.body.len() as int
                });
                if e is Linebreak {
                    assert(st2.body.len() == dump_spec(st).body.len() + 1);
                } else {
                    assert(st2.body.len() == dump_spec(st).body.len());
                }
                assert(st2.body.len() >= 1);
            } else {
                assert(st2.body == st.body);
            }
            assert(linebreak_count(elems) == (
            if e is Linebreak {
                1int
            } else {
                0
            }) + linebreak_count(rest));
            lemma_linebreak_count_nonneg(rest);
            lemma_no_marker_no_linebreaks(rest);
        }
    }
}

/// The flatten-versus-align dichotomy. Processing a sequence that holds no
/// align-point marker yields a flat spliced run: exactly the cells' nodes in
/// order, as many as the cells hold, with no array node around them.
/// Processing a sequence with at least one align point yields a single
/// aligned-array node whose row count is the number of line breaks plus
/// one.
pub proof fn lemma_flatten_vs_align(children: Seq<ContentV>)
    ensures
        cv_sequence(children).res is Ok ==> ({
            let w = cv_sequence(children).res->Ok_0;
            let st = cv_elems(children, init_seq_state()).res->Ok_0;
            let fin = dump_spec(st);
            &&& !has_align_marker(children) ==> w == IrV::Array(flatten_body(fin.body))
                && ir_as_array(w).len() == cells_nodes_len(fin.body)
            &&& has_align_marker(children) ==> w is Node && w->Node_0 is Array
                && w->Node_0->Array_body.len() == linebreak_count(children) + 1
        }),
{
    let so = cv_elems(children, init_seq_state());
    if so.res is Ok {
        let st = so.res->Ok_0;
        let fin = dump_spec(st);
        lemma_cv_elems_shape(children, init_seq_state());
        lemma_flatten_body_len(fin.body);
        if has_align_marker(children) {
            assert(has_break_marker(children)) by {
                let i = choose|i: int|
                    0 <= i < children.len() && children[i] is AlignPoint;
                assert(children[i] is AlignPoint || children[i] is Linebreak);
            }
            lemma_linebreak_count_nonneg(children);
            assert(st.body.len() == linebreak_count(children) + 1);
            assert(st.body.len() >= 1);
            assert(fin.body.len() == st.body.len());
        }
    }
}


/// Whether the conversion traversal of this node meets a deliberately
/// untranslated construct. Corner scripts of an attachment and case-split
/// children that are not sequences are never visited, so what stands inside
/// them is not counted.
pub open spec fn meets_unsupported(e: ContentV) -> bool
    decreases e, 1int,
{
    match e {
        ContentV::Overbracket { .. } => true,
        ContentV::Underbracket { .. } => true,
        ContentV::Class { .. } => true,
        ContentV::Primes { .. } => true,
        ContentV::Accent { .. } => true,
        ContentV::Equation { body } => meets_unsupported(*body),
        ContentV::Sequence { children } => any_meets(children),
        ContentV::Lr { body } => meets_unsupported(*body),
        ContentV::Attach { base, t, b, .. } => meets_unsupported(*base) || (match t {
            Some(tc) => meets_unsupported(*tc),
            None => false,
        }) || (match b {
            Some(bc) => meets_unsupported(*bc),
            None => false,
        }),
        ContentV::MathStyle { body, .. } => meets_unsupported(*body),
        ContentV::Frac { num, denom } => meets_unsupported(*num) || meets_unsupported(*denom),
        ContentV::Vector { children, .. } => any_meets(children),
        ContentV::Mat { rows, .. } => any_meets_grid(rows),
        ContentV::Cases { children } => cases_meets(children),
        ContentV::Binom { upper, lower } => meets_unsupported(*upper) || any_meets(lower),
        ContentV::Cancel { body } => meets_unsupported(*body),
        ContentV::Overbrace { body, annotation } => meets_unsupported(*body) || (
        match annotation {
            Some(ac) => meets_unsupported(*ac),
            None => false,
        }),
        ContentV::Underbrace { body, annotation } => meets_unsupported(*body) || (
        match annotation {
            Some(ac) => meets_unsupported(*ac),
            None => false,
        }),
        ContentV::Overline { body } => meets_unsupported(*body),
        ContentV::Underline { body } => meets_unsupported(*body),
        ContentV::Root { index, radicand } => (match index {
            Some(ix) => meets_unsupported(*ix),
            None => false,
        }) || meets_unsupported(*radicand),
        ContentV::Limits { body } => meets_unsupported(*body),
        ContentV::Scripts { body } => meets_unsupported(*body),
        _ => false,
    }
}

/// Whether any node of a list meets an untranslated construct.
pub open spec fn any_meets(list: Seq<ContentV>) -> bool
    decreases list, 0int,
{
    if list.len() == 0 {
        false
    } else {
        meets_unsupported(list.first()) || any_meets(list.drop_first())
    }
}

/// Whether any cell of a grid meets an untranslated construct.
pub open spec fn any_meets_grid(rows: Seq<Seq<ContentV>>) -> bool
    decreases rows, 1int,
{
    if rows.len() == 0 {
        false
    } else {
        any_meets(rows.first()) || any_meets_grid(rows.drop_first())
    }
}

/// Whether any sequence child of a case split holds a node that meets an
/// untranslated construct.
pub open spec fn cases_meets(children: Seq<ContentV>) -> bool
    decreases children, 0int,
{
    if children.len() == 0 {
        false
    } else {
        (match children.first() {
            ContentV::Sequence { children: cs } => any_meets(cs),
            _ => false,
        }) || cases_meets(children.drop_first())
    }
}

/// A list meets an untranslated construct exactly when its front does or
/// its last element does.
proof fn lemma_any_meets_split(list: Seq<ContentV>)
    requires
        list.len() > 0,
    ensures
        any_meets(list) == (any_meets(list.drop_last()) || meets_unsupported(list.last())),
    decreases list.len(),
{
    if list.len() == 1 {
        assert(list.first() == list.last());
        assert(list.drop_last() =~= Seq::<ContentV>::empty());
        assert(list.drop_first() =~= Seq::<ContentV>::empty());
    } else {
        lemma_any_meets_split(list.drop_first());
        assert(list.drop_first().drop_last() =~= list.drop_last().drop_first());
        assert(list.drop_first().last() == list.last());
        assert(list.drop_last().first() == list.first());
    }
}

/// Processing a run of elements fails once any element meets an
/// untranslated construct.
proof fn lemma_elems_meet_abort(elems: Seq<ContentV>, st: SeqState)
    requires
        any_meets(elems),
    ensures
        cv_elems(elems, st).res is Err,
    decreases elems, 0int,
{
    let e = elems.first();
    let o = cv(e);
    if meets_unsupported(e) {
        lemma_meets_aborts(e);
    } else {
        if o.res is Ok {
            let st1 = if e is Linebreak || e is AlignPoint {
                let d = dump_spec(st);
                let d2 = if e is Linebreak {
                    SeqState {
                        body: d.body.push(Seq::empty()),
                        stack: d.stack,
                        aligned: d.aligned,
                    }
                } else {
                    d
                };
                if e is AlignPoint {
                    SeqState { body: d2.body, stack: d2.stack, aligned: true }
                } else {
                    d2
                }
            } else {
                st
            };
            let st2 = SeqState {
                body: st1.body,
                stack: st1.stack.push(o.res->Ok_0),
                aligned: st1.aligned,
            };
            lemma_elems_meet_abort(elems.drop_first(), st2);
        }
    }
}

/// Collecting vector rows fails once any child meets an untranslated
/// construct.
proof fn lemma_vector_meet_abort(children: Seq<ContentV>)
    requires
        any_meets(children),
    ensures
        crate::semantics::vector_rows_v(children).res is Err,
    decreases children, 0int,
{
    lemma_any_meets_split(children);
    if meets_unsupported(children.last()) {
        lemma_meets_aborts(children.last());
    } else {
        lemma_vector_meet_abort(children.drop_last());
    }
}

/// Collecting binomial parts fails once any part meets an untranslated
/// construct.
proof fn lemma_binom_meet_abort(lower: Seq<ContentV>)
    requires
        any_meets(lower),
    ensures
        crate::semantics::binom_parts_v(lower).res is Err,
    decreases lower, 0int,
{
    lemma_any_meets_split(lower);
    if meets_unsupported(lower.last()) {
        lemma_meets_aborts(lower.last());
    } else {
        lemma_binom_meet_abort(lower.drop_last());
    }
}

/// Converting one matrix row fails once any cell meets an untranslated
/// construct.
proof fn lemma_mat_row_meet_abort(row: Seq<ContentV>)
    requires
        any_meets(row),
    ensures
        crate::semantics::mat_cells_v(row).res is Err,
    decreases row, 0int,
{
    lemma_any_meets_split(row);
    if meets_unsupported(row.last()) {
        lemma_meets_aborts(row.last());
    } else {
        lemma_mat_row_meet_abort(row.drop_last());
    }
}

/// Collecting matrix rows fails once any cell meets an untranslated
/// construct.
proof fn lemma_mat_meet_abort(rows: Seq<Seq<ContentV>>)
    requires
        any_meets_grid(rows),
    ensures
        crate::semantics::mat_rows_v(rows).res is Err,
    decreases rows, 1int,
{
    assert(any_meets_grid(rows) == (any_meets_grid(rows.drop_last()) || any_meets(
        rows.last(),
    ))) by {
        lemma_grid_meets_split(rows);
    }
    if any_meets(rows.last()) {
        lemma_mat_row_meet_abort(rows.last());
    } else {
        lemma_mat_meet_abort(rows.drop_last());
    }
}

/// A grid meets an untranslated construct exactly when its front does or
/// its last row does.
proof fn lemma_grid_meets_split(rows: Seq<Seq<ContentV>>)
    requires
        rows.len() > 0,
    ensures
        any_meets_grid(rows) == (any_meets_grid(rows.drop_last()) || any_meets(rows.last())),
    decreases rows.len(),
{
    if rows.len() == 1 {
        assert(rows.first() == rows.last());
        assert(rows.drop_last() =~= Seq::<Seq<ContentV>>::empty());
        assert(rows.drop_first() =~= Seq::<Seq<ContentV>>::empty());
    } else {
        lemma_grid_meets_split(rows.drop_first());
        assert(rows.drop_first().drop_last() =~= rows.drop_last().drop_first());
        assert(rows.drop_first().last() == rows.last());
        assert(rows.drop_last().first() == rows.first());
    }
}

/// A case split meets an untranslated construct exactly when its front does
/// or its last child does.
proof fn lemma_cases_meets_split(children: Seq<ContentV>)
    requires
        children.len() > 0,
    ensures
        cases_meets(children) == (cases_meets(children.drop_last()) || (
        match children.last() {
            ContentV::Sequence { children: cs } => any_meets(cs),
            _ => false,
        })),
    decreases children.len(),
{
    if children.len() == 1 {
        assert(children.first() == children.last());
        assert(children.drop_last() =~= Seq::<ContentV>::empty());
        assert(children.drop_first() =~= Seq::<ContentV>::empty());
    } else {
        lemma_cases_meets_split(children.drop_first());
        assert(children.drop_first().drop_last() =~= children.drop_last().drop_first());
        assert(children.drop_first().last() == children.last());
        assert(children.drop_last().first() == children.first());
    }
}

/// Collecting case rows fails once a visited branch meets an untranslated
/// construct.
proof fn lemma_cases_meet_abort(children: Seq<ContentV>)
    requires
        cases_meets(children),
    ensures
        crate::semantics::cases_rows_v(children).res is Err,
    decreases children, 1int,
{
    lemma_cases_meets_split(children);
    match children.last() {
        ContentV::Sequence { children: cs } => {
            if any_meets(cs) {
                lemma_elems_meet_abort(cs, init_seq_state());
            } else {
                lemma_cases_meet_abort(children.drop_last());
            }
        },
        _ => {
            lemma_cases_meet_abort(children.drop_last());
        },
    }
}

/// Conversion aborts before producing any output whenever the traversal
/// meets a deliberately untranslated construct: an accent, a primes marker,
/// a class wrapper, or an over- or under-bracket, at the root or anywhere
/// the conversion visits.
pub proof fn lemma_fatal_on_unsupported(e: ContentV)
    requires
        meets_unsupported(e),
    ensures
        cv(e).res is Err,
{
    lemma_meets_aborts(e);
}

/// The recursion of the fatal-on-unsupported law.
proof fn lemma_meets_aborts(e: ContentV)
    ensures
        meets_unsupported(e) ==> cv(e).res is Err,
    decreases e, 2int,
{
    if meets_unsupported(e) {
        lemma_meets_aborts_cases(e);
    }
}

/// The case analysis of the fatal-on-unsupported law.
proof fn lemma_meets_aborts_cases(e: ContentV)
    requires
        meets_unsupported(e),
    ensures
        cv(e).res is Err,
    decreases e, 1int,
{
    match e {
        ContentV::Equation { body } => {
            lemma_meets_aborts(*body);
        },
        ContentV::Sequence { children } => {
            lemma_elems_meet_abort(children, init_seq_state());
            assert(cv_elems(children, init_seq_state()).res is Err);
            assert(cv_sequence(children).res is Err);
        },
        ContentV::Lr { body } => {
            lemma_meets_aborts(*body);
        },
        ContentV::Attach { base, t, b, .. } => {
            if meets_unsupported(*base) {
                lemma_meets_aborts(*base);
            } else if (match t {
                Some(tc) => meets_unsupported(*tc),
                None => false,
            }) {
                lemma_meets_aborts(*t->0);
            } else {
                lemma_meets_aborts(*b->0);
            }
        },
        ContentV::MathStyle { body, .. } => {
            lemma_meets_aborts(*body);
        },
        ContentV::Frac { num, denom } => {
            if meets_unsupported(*num) {
                lemma_meets_aborts(*num);
            } else {
                lemma_meets_aborts(*denom);
            }
        },
        ContentV::Vector { children, .. } => {
            lemma_vector_meet_abort(children);
        },
        ContentV::Mat { rows, .. } => {
            lemma_mat_meet_abort(rows);
        },
        ContentV::Cases { children } => {
            lemma_cases_meet_abort(children);
        },
        ContentV::Binom { upper, lower } => {
            if meets_unsupported(*upper) {
                lemma_meets_aborts(*upper);
            } else {
                lemma_binom_meet_abort(lower);
            }
        },
        ContentV::Cancel { body } => {
            lemma_meets_aborts(*body);
        },
        ContentV::Overbrace { body, annotation } => {
            if meets_unsupported(*body) {
                lemma_meets_aborts(*body);
            } else {
                lemma_meets_aborts(*annotation->0);
            }
        },
        ContentV::Underbrace { body, annotation } => {
            if meets_unsupported(*body) {
                lemma_meets_aborts(*body);
            } else {
                lemma_meets_aborts(*annotation->0);
            }
        },
        ContentV::Overline { body } => {
            lemma_meets_aborts(*body);
        },
        ContentV::Underline { body } => {
            lemma_meets_aborts(*body);
        },
        ContentV::Root { index, radicand } => {
            if (match index {
                Some(ix) => meets_unsupported(*ix),
                None => false,
            }) {
                lemma_meets_aborts(*index->0);
            } else {
                lemma_meets_aborts(*radicand);
            }
        },
        ContentV::Limits { body } => {
            lemma_meets_aborts(*body);
        },
        ContentV::Scripts { body } => {
            lemma_meets_aborts(*body);
        },
        _ => {
        },
    }
}


} // verus!
