//! End-to-end scenarios over the public converter.

use typst2katex::content::{Content, Delimiter};
use typst2katex::converter::convert;
use typst2katex::katex::node::Node as KatexNode;
use typst2katex::katex::types::{Mode, GenFracSizeType};
use typst2katex::katex::symbol::{Symbol, Group, NonAtomGroup, AtomGroup};
use typst2katex::node::Node;
use typst2katex::error::{ConvertError, UnsupportedKind, Warning};
use typst2katex::content::DelimiterOpenClose;
use typst2katex::content::{MathVariant, SpacingAmount};
use typst2katex::utils::insert_separator;
use typst2katex::symbol::{not, equals, neq, define};
use typst2katex::katex::constructor::ArrayConstructor;

fn text(s: &str) -> Content {
    Content::Text { characters: s.chars().collect() }
}

#[test]
fn symbol_lookup_is_deterministic() {
    let a = Symbol::get(Mode::Math, 'π');
    let b = Symbol::get(Mode::Math, 'π');
    assert_eq!(a, b);
    assert!(matches!(a.group, Group::NonAtom(NonAtomGroup::MathOrd)));
}

#[test]
fn digit_is_special_cased_in_math_mode() {
    let s = Symbol::get(Mode::Math, '2');
    assert!(matches!(s.group, Group::NonAtom(NonAtomGroup::TextOrd)));
}

#[test]
fn relation_symbol_is_an_atom() {
    let s = Symbol::get(Mode::Math, '=');
    assert!(matches!(s.group, Group::Atom(AtomGroup::Rel)));
}

#[test]
fn simple_equation_flattens() {
    // A = pi r^2
    let root = Content::Equation {
        body: Box::new(Content::Sequence {
            children: vec![
                text("A"),
                Content::Space,
                text("="),
                Content::Space,
                text("π"),
                Content::Space,
                Content::Attach {
                    base: Box::new(text("r")),
                    t: Some(Box::new(text("2"))),
                    b: None,
                    tl: None,
                    tr: None,
                    bl: None,
                    br: None,
                },
            ],
        }),
    };
    let (res, warnings) = convert(&root);
    assert!(warnings.is_empty());
    let node = res.expect("conversion should succeed");
    match node {
        Node::Array(nodes) => {
            assert_eq!(nodes.len(), 4);
            assert!(matches!(&nodes[0], KatexNode::MathOrd(m) if m.text == "A"));
            assert!(matches!(&nodes[1], KatexNode::Atom(a) if a.text == "="));
            assert!(matches!(&nodes[2], KatexNode::MathOrd(m) if m.text == "π"));
            match &nodes[3] {
                KatexNode::SupSub(ss) => {
                    assert!(matches!(ss.base.as_deref(), Some(KatexNode::MathOrd(m)) if m.text == "r"));
                    assert!(matches!(ss.sup.as_deref(), Some(KatexNode::TextOrd(t)) if t.text == "2"));
                    assert!(ss.sub.is_none());
                },
                other => panic!("expected an attachment, got {:?}", other),
            }
        },
        other => panic!("expected a flat run, got {:?}", other),
    }
}

#[test]
fn fraction_has_bar_and_auto_size() {
    let root = Content::Frac { num: Box::new(text("1")), denom: Box::new(text("2")) };
    let (res, warnings) = convert(&root);
    assert!(warnings.is_empty());
    match res.expect("conversion should succeed") {
        Node::Node(KatexNode::GenFrac(gf)) => {
            assert!(gf.has_bar_line);
            assert!(!gf.continued);
            assert!(matches!(gf.size, GenFracSizeType::Auto));
            assert!(gf.left_delim.is_none() && gf.right_delim.is_none());
            match (&*gf.numer, &*gf.denom) {
                (KatexNode::OrdGroup(n), KatexNode::OrdGroup(d)) => {
                    assert!(matches!(&n.body[0], KatexNode::TextOrd(t) if t.text == "1"));
                    assert!(matches!(&d.body[0], KatexNode::TextOrd(t) if t.text == "2"));
                },
                other => panic!("expected groups, got {:?}", other),
            }
        },
        other => panic!("expected a fraction, got {:?}", other),
    }
}

#[test]
fn aligned_block_builds_array() {
    // a &= b \ &= c
    let root = Content::Sequence {
        children: vec![
            text("a"),
            Content::AlignPoint,
            text("="),
            text("b"),
            Content::Linebreak,
            Content::AlignPoint,
            text("="),
            text("c"),
        ],
    };
    let (res, _warnings) = convert(&root);
    match res.expect("conversion should succeed") {
        Node::Node(KatexNode::Array(a)) => {
            assert_eq!(a.body.len(), 2);
            assert_eq!(a.add_jot, Some(true));
            assert_eq!(a.leqno, Some(false));
            assert!(matches!(
                a.col_separation_type,
                Some(typst2katex::katex::types::ColSeparationType::Align)
            ));
            let cols = a.cols.as_ref().expect("columns chosen");
            let mut idx = 0;
            for c in cols {
                match c {
                    typst2katex::katex::types::AlignSpec::Align(al) => {
                        if idx % 2 == 0 {
                            assert_eq!(al.align, "r");
                        } else {
                            assert_eq!(al.align, "l");
                        }
                        let want = if idx > 1 && idx % 2 == 0 { 1000 } else { 0 };
                        assert_eq!(al.pregap_milli, Some(want));
                    },
                    other => panic!("expected an alignment, got {:?}", other),
                }
                idx += 1;
            }
        },
        other => panic!("expected an aligned array, got {:?}", other),
    }
}

#[test]
fn unaligned_sequence_stays_flat() {
    let root = Content::Sequence { children: vec![text("a"), text("b"), text("c")] };
    let (res, _warnings) = convert(&root);
    match res.expect("conversion should succeed") {
        Node::Array(nodes) => assert_eq!(nodes.len(), 3),
        other => panic!("expected a flat run, got {:?}", other),
    }
}

#[test]
fn vector_with_bracket_delimiters() {
    let root = Content::Vector {
        children: vec![text("1"), text("2"), text("3")],
        delim: Delimiter::Bracket,
    };
    let (res, _warnings) = convert(&root);
    match res.expect("conversion should succeed") {
        Node::Node(KatexNode::LeftRight(lr)) => {
            assert_eq!(lr.left, "[");
            assert_eq!(lr.right, "]");
            match &lr.body[0] {
                KatexNode::Array(a) => {
                    assert_eq!(a.body.len(), 3);
                    let cols = a.cols.as_ref().expect("columns chosen");
                    assert_eq!(cols.len(), 1);
                    assert!(matches!(
                        &cols[0],
                        typst2katex::katex::types::AlignSpec::Align(al) if al.align == "c"
                    ));
                    assert_eq!(a.hskip_before_and_after, Some(false));
                },
                other => panic!("expected an array, got {:?}", other),
            }
        },
        other => panic!("expected a delimited group, got {:?}", other),
    }
}

#[test]
fn delimiter_characters_round_trip() {
    assert_eq!(Delimiter::Paren.open(), '(');
    assert_eq!(Delimiter::Paren.close(), ')');
    assert_eq!(Delimiter::Bracket.open(), '[');
    assert_eq!(Delimiter::Bracket.close(), ']');
    assert_eq!(Delimiter::Brace.open(), '{');
    assert_eq!(Delimiter::Brace.close(), '}');
    assert_eq!(Delimiter::Bar.open(), '|');
    assert_eq!(Delimiter::Bar.close(), '|');
    assert_eq!(Delimiter::DoubleBar.open(), '‖');
    assert_eq!(Delimiter::DoubleBar.close(), '‖');
}

#[test]
fn corner_script_warns_and_is_dropped() {
    let root = Content::Attach {
        base: Box::new(text("x")),
        t: None,
        b: None,
        tl: Some(Box::new(text("1"))),
        tr: None,
        bl: None,
        br: None,
    };
    let (res, warnings) = convert(&root);
    assert_eq!(warnings, vec![Warning::TopLeftScript]);
    match res.expect("conversion should succeed") {
        Node::Node(KatexNode::SupSub(ss)) => {
            assert!(ss.sup.is_none());
            assert!(ss.sub.is_none());
            assert!(ss.base.is_some());
        },
        other => panic!("expected an attachment, got {:?}", other),
    }
}

#[test]
fn accent_aborts_conversion() {
    let root = Content::Accent { base: Box::new(text("a")), accent: '~' };
    let (res, _warnings) = convert(&root);
    assert_eq!(res, Err(ConvertError::Unsupported(UnsupportedKind::Accent)));
}

#[test]
fn nested_unsupported_kind_aborts() {
    let root = Content::Sequence {
        children: vec![text("a"), Content::Primes { count: 2 }],
    };
    let (res, _warnings) = convert(&root);
    assert_eq!(res, Err(ConvertError::Unsupported(UnsupportedKind::Primes)));
}

#[test]
fn binomial_separators_between_parts() {
    let root = Content::Binom {
        upper: Box::new(text("n")),
        lower: vec![text("a"), text("b"), text("c")],
    };
    let (res, _warnings) = convert(&root);
    match res.expect("conversion should succeed") {
        Node::Node(KatexNode::GenFrac(gf)) => {
            assert!(!gf.has_bar_line);
            assert_eq!(gf.left_delim.as_deref(), Some("("));
            assert_eq!(gf.right_delim.as_deref(), Some(")"));
            match &*gf.denom {
                KatexNode::OrdGroup(og) => {
                    // three parts joined by two comma separators
                    assert_eq!(og.body.len(), 5);
                    assert!(matches!(&og.body[1], KatexNode::Atom(a) if a.text == ","));
                    assert!(matches!(&og.body[3], KatexNode::Atom(a) if a.text == ","));
                },
                other => panic!("expected a group, got {:?}", other),
            }
        },
        other => panic!("expected a binomial, got {:?}", other),
    }
}

#[test]
fn intermediate_result_coercions() {
    let single = Node::Node(KatexNode::MathOrd(typst2katex::katex::node::MathOrd {
        mode: Mode::Math,
        loc: None,
        text: "x".to_owned(),
    }));
    let arr = single.into_array();
    assert_eq!(arr.len(), 1);
    let back = Node::Array(arr).into_node();
    assert!(matches!(back, Ok(KatexNode::MathOrd(m)) if m.text == "x"));
    let empty = Node::Array(Vec::new());
    assert!(empty.into_node().is_err());
}

#[test]
fn insert_separator_interleaves() {
    let part = |t: &str| {
        vec![KatexNode::TextOrd(typst2katex::katex::node::TextOrd {
            mode: Mode::Math,
            loc: None,
            text: t.to_owned(),
        })]
    };
    let parts = vec![part("a"), part("b"), part("c")];
    let sep = part(",");
    let joined = insert_separator(&parts, &sep);
    assert_eq!(joined.len(), 5);
    assert_eq!(joined[0], part("a"));
    assert_eq!(joined[1], sep);
    assert_eq!(joined[2], part("b"));
    assert_eq!(joined[3], sep);
    assert_eq!(joined[4], part("c"));
}

#[test]
fn matrix_wraps_grid_in_delimiters() {
    let root = Content::Mat {
        rows: vec![vec![text("1"), text("2")], vec![text("3"), text("4")]],
        delim: Delimiter::Paren,
    };
    let (res, _warnings) = convert(&root);
    match res.expect("conversion should succeed") {
        Node::Node(KatexNode::LeftRight(lr)) => {
            assert_eq!(lr.left, "(");
            assert_eq!(lr.right, ")");
            match &lr.body[0] {
                KatexNode::Array(a) => {
                    assert_eq!(a.body.len(), 2);
                    assert_eq!(a.body[0].len(), 2);
                    assert!(a.cols.is_none());
                    assert_eq!(a.arraystretch_milli, 1000);
                    assert_eq!(a.h_lines_before_row.len(), 3);
                },
                other => panic!("expected an array, got {:?}", other),
            }
        },
        other => panic!("expected a delimited group, got {:?}", other),
    }
}

#[test]
fn cases_build_braced_two_column_array() {
    let root = Content::Cases {
        children: vec![
            Content::Sequence { children: vec![text("1"), text("a")] },
            Content::Sequence { children: vec![text("2"), text("b")] },
        ],
    };
    let (res, _warnings) = convert(&root);
    match res.expect("conversion should succeed") {
        Node::Node(KatexNode::LeftRight(lr)) => {
            assert_eq!(lr.left, "\\{");
            assert_eq!(lr.right, ".");
            match &lr.body[0] {
                KatexNode::Array(a) => {
                    assert_eq!(a.body.len(), 2);
                    assert_eq!(a.arraystretch_milli, 1200);
                    let cols = a.cols.as_ref().expect("columns chosen");
                    assert_eq!(cols.len(), 2);
                    match &cols[0] {
                        typst2katex::katex::types::AlignSpec::Align(al) => {
                            assert_eq!(al.align, "l");
                            assert_eq!(al.postgap_milli, Some(1000));
                        },
                        other => panic!("expected an alignment, got {:?}", other),
                    }
                },
                other => panic!("expected an array, got {:?}", other),
            }
        },
        other => panic!("expected a delimited group, got {:?}", other),
    }
}

#[test]
fn middle_delimiter_keeps_text() {
    let root = Content::Mid { text: "|".to_owned() };
    let (res, _warnings) = convert(&root);
    match res.expect("conversion should succeed") {
        Node::Node(KatexNode::Middle(m)) => assert_eq!(m.delim, "|"),
        other => panic!("expected a middle delimiter, got {:?}", other),
    }
}

#[test]
fn styled_variant_maps_to_font() {
    let root = Content::MathStyle {
        body: Box::new(text("N")),
        variant: Some(MathVariant::Bb),
    };
    let (res, _warnings) = convert(&root);
    match res.expect("conversion should succeed") {
        Node::Node(KatexNode::Font(f)) => {
            assert_eq!(f.font, "mathbb");
            assert!(matches!(&*f.body, KatexNode::MathOrd(m) if m.text == "N"));
        },
        other => panic!("expected a font wrapper, got {:?}", other),
    }
}

#[test]
fn serif_variant_is_refused() {
    let root = Content::MathStyle {
        body: Box::new(text("N")),
        variant: Some(MathVariant::Serif),
    };
    let (res, _warnings) = convert(&root);
    assert_eq!(res, Err(ConvertError::Unsupported(UnsupportedKind::MathVariant)));
}

#[test]
fn horizontal_skip_becomes_kern() {
    let root = Content::H { amount: SpacingAmount::Rel { em_milli: 500 } };
    let (res, _warnings) = convert(&root);
    match res.expect("conversion should succeed") {
        Node::Node(KatexNode::Kern(k)) => {
            assert_eq!(k.dimension.number_milli, 500);
            assert_eq!(k.dimension.unit, "em");
        },
        other => panic!("expected a kern, got {:?}", other),
    }
}

#[test]
fn stretchy_skip_is_refused() {
    let root = Content::H { amount: SpacingAmount::Fr { milli: 1000 } };
    let (res, _warnings) = convert(&root);
    assert_eq!(res, Err(ConvertError::Unsupported(UnsupportedKind::FractionalSpacing)));
}

#[test]
fn delimited_group_strips_its_symbols() {
    let root = Content::Lr {
        body: Box::new(Content::Sequence {
            children: vec![text("("), text("x"), text(")")],
        }),
    };
    let (res, _warnings) = convert(&root);
    match res.expect("conversion should succeed") {
        Node::Node(KatexNode::LeftRight(lr)) => {
            assert_eq!(lr.left, "(");
            assert_eq!(lr.right, ")");
            assert_eq!(lr.body.len(), 1);
            assert!(matches!(&lr.body[0], KatexNode::MathOrd(m) if m.text == "x"));
        },
        other => panic!("expected a delimited group, got {:?}", other),
    }
}

#[test]
fn delimited_group_rejects_non_atoms() {
    let root = Content::Lr {
        body: Box::new(Content::Sequence { children: vec![text("x"), text("y")] }),
    };
    let (res, _warnings) = convert(&root);
    assert_eq!(res, Err(ConvertError::NotAnAtom));
}

#[test]
fn overbrace_attaches_annotation_above() {
    let root = Content::Overbrace {
        body: Box::new(text("x")),
        annotation: Some(Box::new(text("n"))),
    };
    let (res, _warnings) = convert(&root);
    match res.expect("conversion should succeed") {
        Node::Node(KatexNode::SupSub(ss)) => {
            match ss.base.as_deref() {
                Some(KatexNode::HorizBrace(hb)) => {
                    assert_eq!(hb.label, "\\overbrace");
                    assert!(hb.is_over);
                },
                other => panic!("expected a horizontal brace, got {:?}", other),
            }
            assert!(ss.sup.is_some());
            assert!(ss.sub.is_none());
        },
        other => panic!("expected an attachment, got {:?}", other),
    }
}

#[test]
fn operator_name_is_backslash_prefixed() {
    let root = Content::Op { text: "lim".to_owned() };
    let (res, _warnings) = convert(&root);
    match res.expect("conversion should succeed") {
        Node::Node(KatexNode::Op(op)) => {
            assert_eq!(op.name.as_deref(), Some("\\lim"));
            assert!(op.limits);
            assert!(!op.symbol);
            assert!(op.body.is_none());
        },
        other => panic!("expected an operator, got {:?}", other),
    }
}

#[test]
fn hand_built_symbols() {
    match not() {
        Node::Node(KatexNode::Atom(a)) => assert_eq!(a.text, "\\@not"),
        other => panic!("expected an atom, got {:?}", other),
    }
    match equals() {
        Node::Node(KatexNode::Atom(a)) => assert_eq!(a.text, "="),
        other => panic!("expected an atom, got {:?}", other),
    }
    match neq() {
        Node::Node(KatexNode::MClass(m)) => {
            assert_eq!(m.mclass, "mrel");
            assert_eq!(m.body.len(), 2);
        },
        other => panic!("expected a class node, got {:?}", other),
    }
    match define() {
        Node::Array(ns) => {
            assert_eq!(ns.len(), 2);
            assert!(matches!(&ns[0], KatexNode::Atom(a) if a.text == ":"));
            assert!(matches!(&ns[1], KatexNode::Atom(a) if a.text == "="));
        },
        other => panic!("expected a run, got {:?}", other),
    }
}

#[test]
fn array_constructor_accumulates() {
    let mut c = ArrayConstructor::default();
    assert_eq!(c.count_rows(), 0);
    c.next_row();
    c.push_node(KatexNode::TextOrd(typst2katex::katex::node::TextOrd {
        mode: Mode::Math,
        loc: None,
        text: "1".to_owned(),
    }));
    c.next_row();
    assert_eq!(c.count_rows(), 2);
    assert_eq!(c.count_columns(), 1);
    c.cols_center_align();
    let a = c.builder();
    assert_eq!(a.arraystretch_milli, 1000);
    assert_eq!(a.body.len(), 2);
    assert_eq!(a.cols.as_ref().map(|v| v.len()), Some(1));
}
