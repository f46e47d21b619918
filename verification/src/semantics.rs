//! What conversion produces: a specification-level mirror of the whole
//! converter.
//!
//! [`cv`] maps a source tree view to the converted result together with the
//! warnings the conversion emits, in emission order. Every executable
//! converter routine is proved to agree with these functions.

use vstd::prelude::*;
use crate::content::{ContentV, Delimiter, MathVariant, SpacingAmount, delim_open_spec, delim_close_spec};
use crate::katex::types::{Mode, ColSeparationType, StyleStr, GenFracSizeType, AlignSpecV, MeasurementV};
use crate::katex::node::NodeV;
use crate::katex::symbol::{symbol_spec, create_node_spec};
use crate::node::{IrV, ir_as_array, ir_as_node, ordgroup_v, ir_fallback_ordgroup};
use crate::error::{ConvertError, UnsupportedKind, Warning};
use crate::utils::insert_separator_spec;

verus! {

/// The outcome of converting one source node: the result and the warnings
/// emitted while producing it, in order.
pub struct CvOut {
    pub res: Result<IrV, ConvertError>,
    pub warns: Seq<Warning>,
}

/// The state of the sequence reconstructor: closed rows of cells, the nodes
/// accumulated since the last break marker, and whether an align point was
/// seen.
pub struct SeqState {
    pub body: Seq<Seq<IrV>>,
    pub stack: Seq<IrV>,
    pub aligned: bool,
}

/// The outcome of processing a run of sequence elements.
pub struct SeqOut {
    pub res: Result<SeqState, ConvertError>,
    pub warns: Seq<Warning>,
}

/// The outcome of collecting rows or cell runs from a list of children.
pub struct RowsOut {
    pub res: Result<Seq<Seq<NodeV>>, ConvertError>,
    pub warns: Seq<Warning>,
}

/// The outcome of converting one row of cells.
pub struct RunOut {
    pub res: Result<Seq<NodeV>, ConvertError>,
    pub warns: Seq<Warning>,
}

/// The outcome of collecting case rows.
pub struct CaseRowsOut {
    pub res: Result<Seq<Seq<IrV>>, ConvertError>,
    pub warns: Seq<Warning>,
}

/// The concatenation of the runs that a list of intermediate results stands
/// for.
pub open spec fn flatten_irs(ss: Seq<IrV>) -> Seq<NodeV>
    decreases ss,
{
    if ss.len() == 0 {
        Seq::empty()
    } else {
        flatten_irs(ss.drop_last()) + ir_as_array(ss.last())
    }
}

/// The concatenation of every cell run of every row.
pub open spec fn flatten_body(body: Seq<Seq<IrV>>) -> Seq<NodeV>
    decreases body,
{
    if body.len() == 0 {
        Seq::empty()
    } else {
        flatten_body(body.drop_last()) + flatten_irs(body.last())
    }
}

/// The concatenation of a list of node runs.
pub open spec fn flatten_runs(runs: Seq<Seq<NodeV>>) -> Seq<NodeV>
    decreases runs,
{
    if runs.len() == 0 {
        Seq::empty()
    } else {
        flatten_runs(runs.drop_last()) + runs.last()
    }
}

/// Closes the current cell: the accumulated nodes become one array-valued
/// cell appended to the last row, opening a first row if none exists.
pub open spec fn dump_spec(st: SeqState) -> SeqState {
    let cell = IrV::Array(flatten_irs(st.stack));
    let base = if st.body.len() == 0 {
        seq![Seq::<IrV>::empty()]
    } else {
        st.body
    };
    SeqState {
        body: base.update(base.len() - 1, base.last().push(cell)),
        stack: Seq::empty(),
        aligned: st.aligned,
    }
}

/// The longest row length.
pub open spec fn max_row_len(body: Seq<Seq<IrV>>) -> nat
    decreases body,
{
    if body.len() == 0 {
        0
    } else {
        let rest = max_row_len(body.drop_last());
        if body.last().len() > rest {
            body.last().len()
        } else {
            rest
        }
    }
}

/// Alternating right/left column alignments: even columns right, odd columns
/// left, and a small pregap on even columns past the first pair.
pub open spec fn cols_leftright_spec(n: nat) -> Seq<AlignSpecV> {
    Seq::new(
        n,
        |i: int| AlignSpecV::Align {
            align: if i % 2 == 0 {
                "r"@
            } else {
                "l"@
            },
            pregap_milli: Some(
                if i > 1 && i % 2 == 0 {
                    1000int as i64
                } else {
                    0
                },
            ),
            postgap_milli: Some(0),
        },
    )
}

/// Centered column alignments without gaps.
pub open spec fn cols_center_spec(n: nat) -> Seq<AlignSpecV> {
    Seq::new(
        n,
        |i: int| AlignSpecV::Align { align: "c"@, pregap_milli: None, postgap_milli: None },
    )
}

/// The empty horizontal-rule markers of an array with this many rows: one
/// empty entry more than there are rows.
pub open spec fn empty_h_lines(rows: nat) -> Seq<Seq<bool>> {
    Seq::new(rows + 1, |i: int| Seq::<bool>::empty())
}

/// One cell of an aligned block: a display-style wrapper around a group of
/// the cell's nodes.
pub open spec fn align_cell_v(c: IrV) -> NodeV {
    NodeV::Styling {
        mode: Mode::Math,
        loc: None,
        style: StyleStr::Display,
        body: seq![ordgroup_v(Mode::Math, ir_as_array(c))],
    }
}

/// One row of an aligned block.
pub open spec fn align_row_v(row: Seq<IrV>) -> Seq<NodeV> {
    Seq::new(row.len(), |i: int| align_cell_v(row[i]))
}

/// The cell grid of an aligned block.
pub open spec fn align_body_v(body: Seq<Seq<IrV>>) -> Seq<Seq<NodeV>> {
    Seq::new(body.len(), |i: int| align_row_v(body[i]))
}

/// The aligned-array node built from the reconstructed rows: columns
/// alternate right/left, vertical jot spacing is on, and numbering is off.
pub open spec fn align_array_v(body: Seq<Seq<IrV>>) -> NodeV {
    NodeV::Array {
        mode: Mode::Math,
        loc: None,
        col_separation_type: Some(ColSeparationType::Align),
        hskip_before_and_after: None,
        add_jot: Some(true),
        cols: Some(cols_leftright_spec(max_row_len(body))),
        arraystretch_milli: 1000,
        body: align_body_v(body),
        row_gaps: Seq::empty(),
        h_lines_before_row: empty_h_lines(body.len()),
        tags: None,
        leqno: Some(false),
        is_cd: None,
    }
}

/// One cell of a tabular construct: a text-style wrapper around a group of
/// the cell's nodes.
pub open spec fn table_cell_v(run: Seq<NodeV>) -> NodeV {
    NodeV::Styling {
        mode: Mode::Math,
        loc: None,
        style: StyleStr::Text,
        body: seq![ordgroup_v(Mode::Math, run)],
    }
}

/// The warnings for the corner scripts present on an attachment, in the
/// order they are checked.
pub open spec fn corner_warns(
    tl: Option<Box<ContentV>>,
    tr: Option<Box<ContentV>>,
    bl: Option<Box<ContentV>>,
    br: Option<Box<ContentV>>,
) -> Seq<Warning> {
    (if tl is Some {
        seq![Warning::TopLeftScript]
    } else {
        Seq::empty()
    }) + (if tr is Some {
        seq![Warning::TopRightScript]
    } else {
        Seq::empty()
    }) + (if bl is Some {
        seq![Warning::BottomLeftScript]
    } else {
        Seq::empty()
    }) + (if br is Some {
        seq![Warning::BottomRightScript]
    } else {
        Seq::empty()
    })
}

/// The destination font name of a resolved variant tag, if it has one.
pub open spec fn variant_font(variant: Option<MathVariant>) -> Result<Seq<char>, ConvertError> {
    match variant {
        Some(MathVariant::Bb) => Ok("mathbb"@),
        Some(MathVariant::Cal) => Ok("mathcal"@),
        None => Ok("mathrm"@),
        Some(_) => Err(ConvertError::Unsupported(UnsupportedKind::MathVariant)),
    }
}

/// The symbol nodes of a text run looked up character by character in text
/// mode, or the first fatal symbol failure.
pub open spec fn text_nodes_v(cs: Seq<char>) -> Result<Seq<NodeV>, ConvertError>
    decreases cs,
{
    if cs.len() == 0 {
        Ok(Seq::empty())
    } else {
        match text_nodes_v(cs.drop_last()) {
            Err(e) => Err(e),
            Ok(ns) => match create_node_spec(symbol_spec(Mode::Text, cs.last())) {
                Err(e) => Err(e),
                Ok(n) => Ok(ns.push(n)),
            },
        }
    }
}

/// Converts one source node.
pub open spec fn cv(e: ContentV) -> CvOut
    decreases e, 2int,
{
    match e {
        ContentV::Equation { body } => {
            let o = cv(*body);
            match o.res {
                Ok(w) => CvOut { res: Ok(IrV::Array(ir_as_array(w))), warns: o.warns },
                Err(er) => CvOut { res: Err(er), warns: o.warns },
            }
        },
        ContentV::Sequence { children } => cv_sequence(children),
        ContentV::Text { characters } => CvOut {
            res: if characters.len() == 1 {
                match create_node_spec(symbol_spec(Mode::Math, characters[0])) {
                    Ok(n) => Ok(IrV::Node(n)),
                    Err(er) => Err(er),
                }
            } else {
                match text_nodes_v(characters) {
                    Ok(ns) => Ok(
                        IrV::Node(
                            NodeV::Text { mode: Mode::Math, loc: None, body: ns, font: None },
                        ),
                    ),
                    Err(er) => Err(er),
                }
            },
            warns: Seq::empty(),
        },
        ContentV::Space => CvOut { res: Ok(IrV::Array(Seq::empty())), warns: Seq::empty() },
        ContentV::Linebreak => CvOut { res: Ok(IrV::Array(Seq::empty())), warns: Seq::empty() },
        ContentV::AlignPoint => CvOut {
            res: Ok(IrV::Node(ordgroup_v(Mode::Math, Seq::empty()))),
            warns: Seq::empty(),
        },
        ContentV::Lr { body } => {
            let o = cv(*body);
            match o.res {
                Ok(w) => {
                    let arr = ir_as_array(w);
                    if arr.len() < 2 {
                        CvOut { res: Err(ConvertError::NotAnAtom), warns: o.warns }
                    } else if !(arr.first() is Atom) || !(arr.last() is Atom) {
                        CvOut { res: Err(ConvertError::NotAnAtom), warns: o.warns }
                    } else {
                        CvOut {
                            res: Ok(
                                IrV::Node(
                                    NodeV::LeftRight {
                                        mode: Mode::Math,
                                        loc: None,
                                        body: arr.subrange(1, arr.len() - 1),
                                        left: arr.first()->Atom_text,
                                        right: arr.last()->Atom_text,
                                        right_color: None,
                                    },
                                ),
                            ),
                            warns: o.warns,
                        }
                    }
                },
                Err(er) => CvOut { res: Err(er), warns: o.warns },
            }
        },
        ContentV::Attach { base, t, b, tl, tr, bl, br } => {
            let ob = cv(*base);
            let ot = match t {
                Some(tc) => Some(cv(*tc)),
                None => None,
            };
            let obb = match b {
                Some(bc) => Some(cv(*bc)),
                None => None,
            };
            attach_out(corner_warns(tl, tr, bl, br), ob, ot, obb)
        },
        ContentV::MathStyle { body, variant } => {
            let o = cv(*body);
            match o.res {
                Err(er) => CvOut { res: Err(er), warns: o.warns },
                Ok(w) => match ir_as_node(w) {
                    Err(er) => CvOut { res: Err(er), warns: o.warns },
                    Ok(n) => match variant_font(variant) {
                        Err(er) => CvOut { res: Err(er), warns: o.warns },
                        Ok(f) => CvOut {
                            res: Ok(
                                IrV::Node(
                                    NodeV::Font {
                                        mode: Mode::Math,
                                        loc: None,
                                        font: f,
                                        body: Box::new(n),
                                    },
                                ),
                            ),
                            warns: o.warns,
                        },
                    },
                },
            }
        },
        ContentV::H { amount } => match amount {
            SpacingAmount::Rel { em_milli } => CvOut {
                res: Ok(
                    IrV::Node(
                        NodeV::Kern {
                            mode: Mode::Math,
                            loc: None,
                            dimension: MeasurementV { number_milli: em_milli, unit: "em"@ },
                        },
                    ),
                ),
                warns: Seq::empty(),
            },
            SpacingAmount::Fr { .. } => CvOut {
                res: Err(ConvertError::Unsupported(UnsupportedKind::FractionalSpacing)),
                warns: Seq::empty(),
            },
        },
        ContentV::Frac { num, denom } => {
            let on = cv(*num);
            match on.res {
                Err(er) => CvOut { res: Err(er), warns: on.warns },
                Ok(wn) => {
                    let od = cv(*denom);
                    match od.res {
                        Err(er) => CvOut { res: Err(er), warns: on.warns + od.warns },
                        Ok(wd) => CvOut {
                            res: Ok(
                                IrV::Node(
                                    NodeV::GenFrac {
                                        mode: Mode::Math,
                                        loc: None,
                                        continued: false,
                                        numer: Box::new(
                                            ordgroup_v(Mode::Math, ir_as_array(wn)),
                                        ),
                                        denom: Box::new(
                                            ordgroup_v(Mode::Math, ir_as_array(wd)),
                                        ),
                                        has_bar_line: true,
                                        left_delim: None,
                                        right_delim: None,
                                        size: GenFracSizeType::Auto,
                                        bar_size: None,
                                    },
                                ),
                            ),
                            warns: on.warns + od.warns,
                        },
                    }
                },
            }
        },
        ContentV::Vector { children, delim } => {
            let rows = vector_rows_v(children);
            match rows.res {
                Err(er) => CvOut { res: Err(er), warns: rows.warns },
                Ok(rs) => CvOut {
                    res: Ok(IrV::Node(vector_leftright_v(rs, children.len(), delim))),
                    warns: rows.warns,
                },
            }
        },
        ContentV::Mat { rows, delim } => {
            let cells = mat_rows_v(rows);
            match cells.res {
                Err(er) => CvOut { res: Err(er), warns: cells.warns },
                Ok(rs) => CvOut {
                    res: Ok(IrV::Node(mat_leftright_v(rs, delim))),
                    warns: cells.warns,
                },
            }
        },
        ContentV::Op { text } => CvOut {
            res: Ok(
                IrV::Node(
                    NodeV::Op {
                        mode: Mode::Math,
                        loc: None,
                        limits: true,
                        always_handle_sup_sub: None,
                        suppress_base_shift: None,
                        parent_is_sup_sub: false,
                        symbol: false,
                        name: Some(seq!['\\'] + text),
                        body: None,
                    },
                ),
            ),
            warns: Seq::empty(),
        },
        ContentV::Cases { children } => {
            let rows = cases_rows_v(children);
            match rows.res {
                Err(er) => CvOut { res: Err(er), warns: rows.warns },
                Ok(rs) => CvOut {
                    res: Ok(IrV::Node(cases_leftright_v(rs))),
                    warns: rows.warns,
                },
            }
        },
        ContentV::Binom { upper, lower } => {
            let ou = cv(*upper);
            match ou.res {
                Err(er) => CvOut { res: Err(er), warns: ou.warns },
                Ok(wu) => match create_node_spec(symbol_spec(Mode::Math, ',')) {
                    Err(er) => CvOut { res: Err(er), warns: ou.warns },
                    Ok(sep) => {
                        let parts = binom_parts_v(lower);
                        match parts.res {
                            Err(er) => CvOut { res: Err(er), warns: ou.warns + parts.warns },
                            Ok(ps) => CvOut {
                                res: Ok(
                                    IrV::Node(
                                        binom_genfrac_v(ir_as_array(wu), ps, sep),
                                    ),
                                ),
                                warns: ou.warns + parts.warns,
                            },
                        }
                    },
                },
            }
        },
        ContentV::Cancel { body } => {
            let o = cv(*body);
            match o.res {
                Err(er) => CvOut { res: Err(er), warns: o.warns },
                Ok(w) => CvOut {
                    res: Ok(
                        IrV::Node(
                            NodeV::Enclose {
                                mode: Mode::Math,
                                loc: None,
                                label: "\\cancel"@,
                                background_color: None,
                                border_color: None,
                                body: Box::new(ordgroup_v(Mode::Math, ir_as_array(w))),
                            },
                        ),
                    ),
                    warns: o.warns,
                },
            }
        },
        ContentV::Overbrace { body, annotation } => {
            let o = cv(*body);
            let oa = match annotation {
                Some(ac) => Some(cv(*ac)),
                None => None,
            };
            brace_out(o, oa, true)
        },
        ContentV::Underbrace { body, annotation } => {
            let o = cv(*body);
            let oa = match annotation {
                Some(ac) => Some(cv(*ac)),
                None => None,
            };
            brace_out(o, oa, false)
        },
        ContentV::Overline { body } => {
            let o = cv(*body);
            match o.res {
                Err(er) => CvOut { res: Err(er), warns: o.warns },
                Ok(w) => CvOut {
                    res: Ok(
                        IrV::Node(
                            NodeV::Overline {
                                mode: Mode::Math,
                                loc: None,
                                body: Box::new(ordgroup_v(Mode::Math, ir_as_array(w))),
                            },
                        ),
                    ),
                    warns: o.warns,
                },
            }
        },
        ContentV::Underline { body } => {
            let o = cv(*body);
            match o.res {
                Err(er) => CvOut { res: Err(er), warns: o.warns },
                Ok(w) => CvOut {
                    res: Ok(
                        IrV::Node(
                            NodeV::Underline {
                                mode: Mode::Math,
                                loc: None,
                                body: Box::new(ordgroup_v(Mode::Math, ir_as_array(w))),
                            },
                        ),
                    ),
                    warns: o.warns,
                },
            }
        },
        ContentV::Root { index, radicand } => {
            let oi = match index {
                Some(ix) => Some(cv(*ix)),
                None => None,
            };
            sqrt_out(oi, cv(*radicand))
        },
        ContentV::Mid { text } => CvOut {
            res: Ok(IrV::Node(NodeV::Middle { mode: Mode::Math, loc: None, delim: text })),
            warns: Seq::empty(),
        },
        ContentV::Limits { body } => limit_marker_out(cv(*body), true),
        ContentV::Scripts { body } => limit_marker_out(cv(*body), false),
        ContentV::Overbracket { .. } => CvOut {
            res: Err(ConvertError::Unsupported(UnsupportedKind::Overbracket)),
            warns: Seq::empty(),
        },
        ContentV::Underbracket { .. } => CvOut {
            res: Err(ConvertError::Unsupported(UnsupportedKind::Underbracket)),
            warns: Seq::empty(),
        },
        ContentV::Class { .. } => CvOut {
            res: Err(ConvertError::Unsupported(UnsupportedKind::ClassWrapper)),
            warns: Seq::empty(),
        },
        ContentV::Primes { .. } => CvOut {
            res: Err(ConvertError::Unsupported(UnsupportedKind::Primes)),
            warns: Seq::empty(),
        },
        ContentV::Accent { .. } => CvOut {
            res: Err(ConvertError::Unsupported(UnsupportedKind::Accent)),
            warns: Seq::empty(),
        },
    }
}

/// Assembles an attachment from its corner warnings and the outcomes of the
/// base and the optional scripts: the first failure aborts, later outcomes
/// contribute nothing after it.
pub open spec fn attach_out(
    cw: Seq<Warning>,
    ob: CvOut,
    ot: Option<CvOut>,
    obb: Option<CvOut>,
) -> CvOut {
    match ob.res {
        Err(er) => CvOut { res: Err(er), warns: cw + ob.warns },
        Ok(wb) => {
            let base_node = ir_fallback_ordgroup(wb, Mode::Math);
            let tw = match ot {
                Some(o) => o.warns,
                None => Seq::empty(),
            };
            match opt_failed(ot) {
                Some(er) => CvOut { res: Err(er), warns: cw + ob.warns + tw },
                None => {
                    let sup = opt_script(ot);
                    let bw = match obb {
                        Some(o) => o.warns,
                        None => Seq::empty(),
                    };
                    match opt_failed(obb) {
                        Some(er) => CvOut { res: Err(er), warns: cw + ob.warns + tw + bw },
                        None => CvOut {
                            res: Ok(IrV::Node(supsub_v(base_node, sup, opt_script(obb)))),
                            warns: cw + ob.warns + tw + bw,
                        },
                    }
                },
            }
        },
    }
}

/// The failure of an optional script outcome, if it has one.
pub open spec fn opt_failed(o: Option<CvOut>) -> Option<ConvertError> {
    match o {
        Some(out) => match out.res {
            Err(er) => Some(er),
            Ok(_) => None,
        },
        None => None,
    }
}

/// The script node of a successful optional outcome: its single node, or a
/// group around its run.
pub open spec fn opt_script(o: Option<CvOut>) -> Option<NodeV> {
    match o {
        Some(out) => match out.res {
            Ok(w) => Some(ir_fallback_ordgroup(w, Mode::Math)),
            Err(_) => None,
        },
        None => None,
    }
}

/// An attachment node from its parts.
pub open spec fn supsub_v(base: NodeV, sup: Option<NodeV>, sub: Option<NodeV>) -> NodeV {
    NodeV::SupSub {
        mode: Mode::Math,
        loc: None,
        base: Some(Box::new(base)),
        sup: match sup {
            Some(n) => Some(Box::new(n)),
            None => None,
        },
        sub: match sub {
            Some(n) => Some(Box::new(n)),
            None => None,
        },
    }
}

/// Assembles a brace construct from the outcomes of its body and its
/// optional annotation: a horizontal brace over or under the grouped body,
/// the annotation attached as the matching script.
pub open spec fn brace_out(o: CvOut, oa: Option<CvOut>, over: bool) -> CvOut {
    match o.res {
        Err(er) => CvOut { res: Err(er), warns: o.warns },
        Ok(w) => {
            let base = NodeV::HorizBrace {
                mode: Mode::Math,
                loc: None,
                label: if over {
                    "\\overbrace"@
                } else {
                    "\\underbrace"@
                },
                is_over: over,
                base: Box::new(ordgroup_v(Mode::Math, ir_as_array(w))),
            };
            match oa {
                Some(out) => match out.res {
                    Err(er) => CvOut { res: Err(er), warns: o.warns + out.warns },
                    Ok(wa) => {
                        let ann = ordgroup_v(Mode::Math, ir_as_array(wa));
                        CvOut {
                            res: Ok(
                                IrV::Node(
                                    if over {
                                        supsub_v(base, Some(ann), None)
                                    } else {
                                        supsub_v(base, None, Some(ann))
                                    },
                                ),
                            ),
                            warns: o.warns + out.warns,
                        }
                    },
                },
                None => CvOut { res: Ok(IrV::Node(supsub_v(base, None, None))), warns: o.warns },
            }
        },
    }
}

/// Assembles a radical from the outcomes of its optional index and its
/// radicand: a failing index aborts before the radicand contributes.
pub open spec fn sqrt_out(oi: Option<CvOut>, or: CvOut) -> CvOut {
    let iw = match oi {
        Some(o) => o.warns,
        None => Seq::empty(),
    };
    match opt_failed(oi) {
        Some(er) => CvOut { res: Err(er), warns: iw },
        None => {
            let index = match oi {
                Some(o) => match o.res {
                    Ok(w) => Some(ordgroup_v(Mode::Math, ir_as_array(w))),
                    Err(_) => None,
                },
                None => None,
            };
            match or.res {
                Err(er) => CvOut { res: Err(er), warns: iw + or.warns },
                Ok(w) => CvOut {
                    res: Ok(
                        IrV::Node(
                            NodeV::Sqrt {
                                mode: Mode::Math,
                                loc: None,
                                body: Box::new(ordgroup_v(Mode::Math, ir_as_array(w))),
                                index: match index {
                                    Some(n) => Some(Box::new(n)),
                                    None => None,
                                },
                            },
                        ),
                    ),
                    warns: iw + or.warns,
                },
            }
        },
    }
}

/// A limit-placement marker re-expressed as an operator node with the given
/// limits flag around the outcome of its body.
pub open spec fn limit_marker_out(o: CvOut, limits: bool) -> CvOut {
    match o.res {
        Err(er) => CvOut { res: Err(er), warns: o.warns },
        Ok(w) => CvOut {
            res: Ok(
                IrV::Node(
                    NodeV::Op {
                        mode: Mode::Math,
                        loc: None,
                        limits,
                        always_handle_sup_sub: None,
                        suppress_base_shift: None,
                        parent_is_sup_sub: false,
                        symbol: false,
                        name: None,
                        body: Some(ir_as_array(w)),
                    },
                ),
            ),
            warns: o.warns,
        },
    }
}

/// Processes the elements of a sequence, front to back, through the
/// reconstructor state machine. Break markers close the current cell before
/// the marker itself is converted and accumulated like any element.
pub open spec fn cv_elems(elems: Seq<ContentV>, st: SeqState) -> SeqOut
    decreases elems, 0int,
{
    if elems.len() == 0 {
        SeqOut { res: Ok(st), warns: Seq::empty() }
    } else {
        let e = elems.first();
        let st1 = if e is Linebreak || e is AlignPoint {
            let d = dump_spec(st);
            let d2 = if e is Linebreak {
                SeqState { body: d.body.push(Seq::empty()), stack: d.stack, aligned: d.aligned }
            } else {
                d
            };
            if e is AlignPoint {
                SeqState { body: d2.body, stack: d2.stack, aligned: true }
            } else {
                d2
            }
        } else {
            st
        };
        let o = cv(e);
        match o.res {
            Err(er) => SeqOut { res: Err(er), warns: o.warns },
            Ok(w) => {
                let st2 = SeqState {
                    body: st1.body,
                    stack: st1.stack.push(w),
                    aligned: st1.aligned,
                };
                let rest = cv_elems(elems.drop_first(), st2);
                SeqOut { res: rest.res, warns: o.warns + rest.warns }
            },
        }
    }
}

/// The empty reconstructor state.
pub open spec fn init_seq_state() -> SeqState {
    SeqState { body: Seq::empty(), stack: Seq::empty(), aligned: false }
}

/// Converts a sequence: processes its elements, then either flattens every
/// cell into one linear run (no align point was seen) or builds the aligned
/// array (at least one was).
pub open spec fn cv_sequence(children: Seq<ContentV>) -> CvOut
    decreases children, 1int,
{
    let so = cv_elems(children, init_seq_state());
    match so.res {
        Err(er) => CvOut { res: Err(er), warns: so.warns },
        Ok(st) => {
            let fin = dump_spec(st);
            CvOut {
                res: Ok(
                    if fin.aligned {
                        IrV::Node(align_array_v(fin.body))
                    } else {
                        IrV::Array(flatten_body(fin.body))
                    },
                ),
                warns: so.warns,
            }
        },
    }
}

/// Collects the single-cell rows of a vector: each child must reduce to a
/// single node, which is grouped and wrapped in a text-style cell.
pub open spec fn vector_rows_v(children: Seq<ContentV>) -> RowsOut
    decreases children, 1int,
{
    if children.len() == 0 {
        RowsOut { res: Ok(Seq::empty()), warns: Seq::empty() }
    } else {
        let rest = vector_rows_v(children.drop_last());
        match rest.res {
            Err(er) => RowsOut { res: Err(er), warns: rest.warns },
            Ok(rows) => {
                let o = cv(children.last());
                match o.res {
                    Err(er) => RowsOut { res: Err(er), warns: rest.warns + o.warns },
                    Ok(w) => match ir_as_node(w) {
                        Err(er) => RowsOut { res: Err(er), warns: rest.warns + o.warns },
                        Ok(n) => RowsOut {
                            res: Ok(rows.push(seq![table_cell_v(seq![n])])),
                            warns: rest.warns + o.warns,
                        },
                    },
                }
            },
        }
    }
}

/// The delimited vector node: a one-column centered array wrapped in the
/// resolved delimiter pair.
pub open spec fn vector_leftright_v(rows: Seq<Seq<NodeV>>, n: nat, delim: Delimiter) -> NodeV {
    let array = NodeV::Array {
        mode: Mode::Math,
        loc: None,
        col_separation_type: None,
        hskip_before_and_after: Some(false),
        add_jot: None,
        cols: Some(cols_center_spec(max_runs_len(rows))),
        arraystretch_milli: 1000,
        body: rows,
        row_gaps: seq![None],
        h_lines_before_row: empty_h_lines(n),
        tags: None,
        leqno: None,
        is_cd: None,
    };
    delim_leftright_v(array, delim)
}

/// The longest row length of a cell-run grid.
pub open spec fn max_runs_len(rows: Seq<Seq<NodeV>>) -> nat
    decreases rows,
{
    if rows.len() == 0 {
        0
    } else {
        let rest = max_runs_len(rows.drop_last());
        if rows.last().len() > rest {
            rows.last().len()
        } else {
            rest
        }
    }
}

/// An array wrapped in the open/close characters of a delimiter kind.
pub open spec fn delim_leftright_v(array: NodeV, delim: Delimiter) -> NodeV {
    NodeV::LeftRight {
        mode: Mode::Math,
        loc: None,
        body: seq![array],
        left: seq![delim_open_spec(delim)],
        right: seq![delim_close_spec(delim)],
        right_color: None,
    }
}

/// Collects the cell rows of a matrix: every cell converts independently
/// and is grouped and wrapped in a text-style cell.
pub open spec fn mat_rows_v(rows: Seq<Seq<ContentV>>) -> RowsOut
    decreases rows, 1int,
{
    if rows.len() == 0 {
        RowsOut { res: Ok(Seq::empty()), warns: Seq::empty() }
    } else {
        let rest = mat_rows_v(rows.drop_last());
        match rest.res {
            Err(er) => RowsOut { res: Err(er), warns: rest.warns },
            Ok(done) => {
                let row = mat_cells_v(rows.last());
                match row.res {
                    Err(er) => RowsOut { res: Err(er), warns: rest.warns + row.warns },
                    Ok(cells) => RowsOut {
                        res: Ok(done.push(cells)),
                        warns: rest.warns + row.warns,
                    },
                }
            },
        }
    }
}

/// Converts the cells of one matrix row.
pub open spec fn mat_cells_v(row: Seq<ContentV>) -> RunOut
    decreases row, 0int,
{
    if row.len() == 0 {
        RunOut { res: Ok(Seq::empty()), warns: Seq::empty() }
    } else {
        let rest = mat_cells_v(row.drop_last());
        match rest.res {
            Err(er) => RunOut { res: Err(er), warns: rest.warns },
            Ok(cells) => {
                let o = cv(row.last());
                match o.res {
                    Err(er) => RunOut { res: Err(er), warns: rest.warns + o.warns },
                    Ok(w) => RunOut {
                        res: Ok(cells.push(table_cell_v(ir_as_array(w)))),
                        warns: rest.warns + o.warns,
                    },
                }
            },
        }
    }
}

/// The delimited matrix node: the cell grid with the constructor's default
/// attributes, wrapped in the resolved delimiter pair.
pub open spec fn mat_leftright_v(rows: Seq<Seq<NodeV>>, delim: Delimiter) -> NodeV {
    let array = NodeV::Array {
        mode: Mode::Math,
        loc: None,
        col_separation_type: None,
        hskip_before_and_after: None,
        add_jot: None,
        cols: None,
        arraystretch_milli: 1000,
        body: rows,
        row_gaps: Seq::empty(),
        h_lines_before_row: empty_h_lines(rows.len()),
        tags: None,
        leqno: None,
        is_cd: None,
    };
    delim_leftright_v(array, delim)
}

/// Collects the rows of a case split: each child that is a sequence runs
/// through the reconstructor and contributes its rows; other children are
/// passed over.
pub open spec fn cases_rows_v(children: Seq<ContentV>) -> CaseRowsOut
    decreases children, 1int,
{
    if children.len() == 0 {
        CaseRowsOut { res: Ok(Seq::empty()), warns: Seq::empty() }
    } else {
        let rest = cases_rows_v(children.drop_last());
        match rest.res {
            Err(er) => CaseRowsOut { res: Err(er), warns: rest.warns },
            Ok(done) => match children.last() {
                ContentV::Sequence { children: cs } => {
                    let so = cv_elems(cs, init_seq_state());
                    match so.res {
                        Err(er) => CaseRowsOut { res: Err(er), warns: rest.warns + so.warns },
                        Ok(st) => CaseRowsOut {
                            res: Ok(done + dump_spec(st).body),
                            warns: rest.warns + so.warns,
                        },
                    }
                },
                _ => CaseRowsOut { res: Ok(done), warns: rest.warns },
            },
        }
    }
}

/// The case-split node: a left-aligned two-column array, the first column
/// with a trailing gap, wrapped in a brace and an empty right delimiter.
pub open spec fn cases_leftright_v(rows: Seq<Seq<IrV>>) -> NodeV {
    let array = NodeV::Array {
        mode: Mode::Math,
        loc: None,
        col_separation_type: None,
        hskip_before_and_after: None,
        add_jot: None,
        cols: Some(
            seq![
                AlignSpecV::Align {
                    align: "l"@,
                    pregap_milli: Some(0),
                    postgap_milli: Some(1000),
                },
                AlignSpecV::Align { align: "l"@, pregap_milli: Some(0), postgap_milli: Some(0) },
            ],
        ),
        arraystretch_milli: 1200,
        body: cases_body_v(rows),
        row_gaps: Seq::empty(),
        h_lines_before_row: empty_h_lines(rows.len()),
        tags: None,
        leqno: None,
        is_cd: None,
    };
    NodeV::LeftRight {
        mode: Mode::Math,
        loc: None,
        body: seq![array],
        left: "\\{"@,
        right: "."@,
        right_color: None,
    }
}

/// The cell grid of a case split: every cell grouped and wrapped in a
/// text-style cell.
pub open spec fn cases_body_v(rows: Seq<Seq<IrV>>) -> Seq<Seq<NodeV>> {
    Seq::new(rows.len(), |i: int| cases_row_v(rows[i]))
}

/// One row of a case split.
pub open spec fn cases_row_v(row: Seq<IrV>) -> Seq<NodeV> {
    Seq::new(row.len(), |i: int| table_cell_v(ir_as_array(row[i])))
}

/// Converts the lower parts of a binomial, each to its run of nodes.
pub open spec fn binom_parts_v(lower: Seq<ContentV>) -> RowsOut
    decreases lower, 1int,
{
    if lower.len() == 0 {
        RowsOut { res: Ok(Seq::empty()), warns: Seq::empty() }
    } else {
        let rest = binom_parts_v(lower.drop_last());
        match rest.res {
            Err(er) => RowsOut { res: Err(er), warns: rest.warns },
            Ok(parts) => {
                let o = cv(lower.last());
                match o.res {
                    Err(er) => RowsOut { res: Err(er), warns: rest.warns + o.warns },
                    Ok(w) => RowsOut {
                        res: Ok(parts.push(ir_as_array(w))),
                        warns: rest.warns + o.warns,
                    },
                }
            },
        }
    }
}

/// The binomial node: the upper part over the comma-joined lower parts, no
/// bar line, parenthesis delimiters, automatic size.
pub open spec fn binom_genfrac_v(upper: Seq<NodeV>, parts: Seq<Seq<NodeV>>, sep: NodeV) -> NodeV {
    NodeV::GenFrac {
        mode: Mode::Math,
        loc: None,
        continued: false,
        numer: Box::new(ordgroup_v(Mode::Math, upper)),
        denom: Box::new(
            ordgroup_v(
                Mode::Math,
                flatten_runs(insert_separator_spec(parts, seq![sep])),
            ),
        ),
        has_bar_line: false,
        left_delim: Some("("@),
        right_delim: Some(")"@),
        size: GenFracSizeType::Auto,
        bar_size: None,
    }
}

/// One step of the reconstructor: the marker handling followed by the
/// conversion of the element itself.
pub open spec fn cv_elems_step(x: ContentV, st: SeqState) -> SeqOut {
    let st1 = if x is Linebreak || x is AlignPoint {
        let d = dump_spec(st);
        let d2 = if x is Linebreak {
            SeqState { body: d.body.push(Seq::empty()), stack: d.stack, aligned: d.aligned }
        } else {
            d
        };
        if x is AlignPoint {
            SeqState { body: d2.body, stack: d2.stack, aligned: true }
        } else {
            d2
        }
    } else {
        st
    };
    let o = cv(x);
    match o.res {
        Err(er) => SeqOut { res: Err(er), warns: o.warns },
        Ok(w) => SeqOut {
            res: Ok(
                SeqState { body: st1.body, stack: st1.stack.push(w), aligned: st1.aligned },
            ),
            warns: o.warns,
        },
    }
}

/// Processing no elements leaves the state unchanged.
pub proof fn lemma_cv_elems_empty(st: SeqState)
    ensures
        cv_elems(Seq::empty(), st) == (SeqOut { res: Ok(st), warns: Seq::<Warning>::empty() }),
{
}

/// Processing a single element is one reconstructor step.
pub proof fn lemma_cv_elems_one(x: ContentV, st: SeqState)
    ensures
        cv_elems(seq![x], st) == cv_elems_step(x, st),
{
    let elems = seq![x];
    assert(elems.first() == x);
    assert(elems.drop_first() =~= Seq::<ContentV>::empty());
    let o = cv(x);
    if o.res is Ok {
        let st1 = if x is Linebreak || x is AlignPoint {
            let d = dump_spec(st);
            let d2 = if x is Linebreak {
                SeqState { body: d.body.push(Seq::empty()), stack: d.stack, aligned: d.aligned }
            } else {
                d
            };
            if x is AlignPoint {
                SeqState { body: d2.body, stack: d2.stack, aligned: true }
            } else {
                d2
            }
        } else {
            st
        };
        let st2 = SeqState {
            body: st1.body,
            stack: st1.stack.push(o.res->Ok_0),
            aligned: st1.aligned,
        };
        lemma_cv_elems_empty(st2);
        assert(o.warns + Seq::<Warning>::empty() =~= o.warns);
    }
}

/// Processing one more element at the end composes with processing the
/// earlier ones.
pub proof fn lemma_cv_elems_snoc(elems: Seq<ContentV>, x: ContentV, st: SeqState)
    ensures
        cv_elems(elems.push(x), st) == ({
            let a = cv_elems(elems, st);
            match a.res {
                Err(_) => a,
                Ok(stA) => {
                    let b = cv_elems_step(x, stA);
                    SeqOut { res: b.res, warns: a.warns + b.warns }
                },
            }
        }),
    decreases elems.len(),
{
    let a = cv_elems(elems, st);
    if elems.len() == 0 {
        assert(elems.push(x) =~= seq![x]);
        lemma_cv_elems_one(x, st);
        lemma_cv_elems_empty(st);
        if cv_elems_step(x, st).res is Ok {
            assert(Seq::<Warning>::empty() + cv_elems_step(x, st).warns =~= cv_elems_step(
                x,
                st,
            ).warns);
        } else {
            assert(Seq::<Warning>::empty() + cv_elems_step(x, st).warns =~= cv_elems_step(
                x,
                st,
            ).warns);
        }
    } else {
        let e = elems.first();
        assert(elems.push(x).first() == e);
        assert(elems.push(x).drop_first() =~= elems.drop_first().push(x));
        let st1 = if e is Linebreak || e is AlignPoint {
            let d = dump_spec(st);
            let d2 = if e is Linebreak {
                SeqState { body: d.body.push(Seq::empty()), stack: d.stack, aligned: d.aligned }
            } else {
                d
            };
            if e is AlignPoint {
                SeqState { body: d2.body, stack: d2.stack, aligned: true }
            } else {
                d2
            }
        } else {
            st
        };
        let o = cv(e);
        match o.res {
            Err(_) => {
            },
            Ok(w) => {
                let st2 = SeqState {
                    body: st1.body,
                    stack: st1.stack.push(w),
                    aligned: st1.aligned,
                };
                lemma_cv_elems_snoc(elems.drop_first(), x, st2);
                let ar = cv_elems(elems.drop_first(), st2);
                match ar.res {
                    Err(_) => {
                        assert(cv_elems(elems.push(x), st).warns =~= a.warns);
                    },
                    Ok(stA) => {
                        let b = cv_elems_step(x, stA);
                        assert(o.warns + (ar.warns + b.warns) =~= (o.warns + ar.warns)
                            + b.warns);
                    },
                }
            },
        }
    }
}

/// Once processing has failed, later elements change nothing.
pub proof fn lemma_cv_elems_err_prefix(pre: Seq<ContentV>, rest: Seq<ContentV>, st: SeqState)
    requires
        cv_elems(pre, st).res is Err,
    ensures
        cv_elems(pre + rest, st) == cv_elems(pre, st),
    decreases pre.len() + rest.len(),
{
    if rest.len() == 0 {
        assert(pre + rest =~= pre);
    } else {
        if pre.len() == 0 {
            lemma_cv_elems_empty(st);
            assert(false);
        } else {
            let e = pre.first();
            assert((pre + rest).first() == e);
            assert((pre + rest).drop_first() =~= pre.drop_first() + rest);
            let st1 = if e is Linebreak || e is AlignPoint {
                let d = dump_spec(st);
                let d2 = if e is Linebreak {
                    SeqState {
                        body: d.body.push(Seq::empty()),
                        stack: d.stack,
                        aligned: d.aligned,
                    }
                } else {
                    d
                };
                if e is AlignPoint {
                    SeqState { body: d2.body, stack: d2.stack, aligned: true }
                } else {
                    d2
                }
            } else {
                st
            };
            let o = cv(e);
            match o.res {
                Err(_) => {
                },
                Ok(w) => {
                    let st2 = SeqState {
                        body: st1.body,
                        stack: st1.stack.push(w),
                        aligned: st1.aligned,
                    };
                    lemma_cv_elems_err_prefix(pre.drop_first(), rest, st2);
                },
            }
        }
    }
}

/// Flattening one more intermediate result appends its run.
pub broadcast proof fn lemma_flatten_irs_push(ss: Seq<IrV>, w: IrV)
    ensures
        #[trigger] flatten_irs(ss.push(w)) == flatten_irs(ss) + ir_as_array(w),
{
    assert(ss.push(w).drop_last() =~= ss);
    assert(ss.push(w).last() == w);
}

/// Flattening one more row appends its cells' runs.
pub broadcast proof fn lemma_flatten_body_push(body: Seq<Seq<IrV>>, row: Seq<IrV>)
    ensures
        #[trigger] flatten_body(body.push(row)) == flatten_body(body) + flatten_irs(row),
{
    assert(body.push(row).drop_last() =~= body);
    assert(body.push(row).last() == row);
}

/// Flattening one more run appends it.
pub broadcast proof fn lemma_flatten_runs_push(runs: Seq<Seq<NodeV>>, run: Seq<NodeV>)
    ensures
        #[trigger] flatten_runs(runs.push(run)) == flatten_runs(runs) + run,
{
    assert(runs.push(run).drop_last() =~= runs);
    assert(runs.push(run).last() == run);
}

/// The longest row length after appending a row.
pub broadcast proof fn lemma_max_runs_len_push(rows: Seq<Seq<NodeV>>, row: Seq<NodeV>)
    ensures
        #[trigger] max_runs_len(rows.push(row)) == if row.len() > max_runs_len(rows) {
            row.len()
        } else {
            max_runs_len(rows)
        },
{
    assert(rows.push(row).drop_last() =~= rows);
    assert(rows.push(row).last() == row);
}

/// The longest row length after appending a row of cells.
pub broadcast proof fn lemma_max_row_len_push(body: Seq<Seq<IrV>>, row: Seq<IrV>)
    ensures
        #[trigger] max_row_len(body.push(row)) == if row.len() > max_row_len(body) {
            row.len()
        } else {
            max_row_len(body)
        },
{
    assert(body.push(row).drop_last() =~= body);
    assert(body.push(row).last() == row);
}

} // verus!
