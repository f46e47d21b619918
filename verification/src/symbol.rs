//! Hand-built symbol nodes for constructs the table cannot express: the
//! negation overlay, the equals atom, their combination into a non-equality
//! glyph, and the definition sign.

use vstd::prelude::*;
use crate::katex::types::Mode;
use crate::katex::node::{
    Node as KatexNode, NodeV, NodeArray, Atom, MClass, Lap, OrdGroup, node_view, node_list_view,
    lemma_node_view_atom, lemma_node_view_m_class, lemma_node_view_lap, lemma_node_view_ord_group,
};
use crate::katex::symbol::{Symbol, AtomGroup, Group, Font, symbol_spec, create_node_spec};
use crate::node::{Node, IrV, ir_view, ordgroup_v, lemma_node_list_view_singleton};
use vstd::pervasive::unreached;

verus! {

/// The negation overlay atom.
pub open spec fn not_v() -> NodeV {
    NodeV::Atom { family: AtomGroup::Rel, mode: Mode::Math, loc: None, text: "\\@not"@ }
}

/// The equals atom.
pub open spec fn equals_v() -> NodeV {
    NodeV::Atom { family: AtomGroup::Rel, mode: Mode::Math, loc: None, text: "="@ }
}

/// The non-equality glyph: the negation overlay laid over the equals atom,
/// grouped as one relation.
pub open spec fn neq_v() -> NodeV {
    NodeV::MClass {
        mode: Mode::Math,
        loc: None,
        mclass: "mrel"@,
        body: seq![
            NodeV::MClass {
                mode: Mode::Math,
                loc: None,
                mclass: "rel"@,
                body: seq![
                    NodeV::Lap {
                        mode: Mode::Math,
                        loc: None,
                        alignment: "rlap"@,
                        body: Box::new(ordgroup_v(Mode::Math, seq![not_v()])),
                    },
                ],
                is_character_box: false,
            },
            equals_v(),
        ],
        is_character_box: false,
    }
}

/// The negation overlay as a relation atom.
pub fn not() -> (r: Node)
    ensures
        ir_view(r) == IrV::Node(not_v()),
{
    let a = Atom {
        family: AtomGroup::Rel,
        mode: Mode::Math,
        loc: None,
        text: "\\@not".to_owned(),
    };
    proof {
        lemma_node_view_atom(a);
    }
    Node::Node(KatexNode::Atom(a))
}

/// The equals sign as a relation atom.
pub fn equals() -> (r: Node)
    ensures
        ir_view(r) == IrV::Node(equals_v()),
{
    let a = Atom { family: AtomGroup::Rel, mode: Mode::Math, loc: None, text: "=".to_owned() };
    proof {
        lemma_node_view_atom(a);
    }
    Node::Node(KatexNode::Atom(a))
}

/// The non-equality glyph: the negation overlay wrapped to overlap the
/// equals atom that follows it.
pub fn neq() -> (r: Node)
    ensures
        ir_view(r) == IrV::Node(neq_v()),
{
    let not_group = not().into_ordgroup(Mode::Math);
    proof {
        lemma_node_view_ord_group(not_group);
        assert(node_list_view(not_group.body@) =~= seq![not_v()]);
    }
    let lap = Lap {
        mode: Mode::Math,
        loc: None,
        alignment: "rlap".to_owned(),
        body: Box::new(not_group.into_node()),
    };
    proof {
        lemma_node_view_lap(lap);
    }
    let mut inner_body: NodeArray = Vec::new();
    inner_body.push(KatexNode::Lap(lap));
    proof {
        assert(inner_body@ =~= seq![inner_body@[0]]);
        lemma_node_list_view_singleton(inner_body@[0]);
    }
    let inner = MClass {
        mode: Mode::Math,
        loc: None,
        mclass: "rel".to_owned(),
        body: inner_body,
        is_character_box: false,
    };
    proof {
        lemma_node_view_m_class(inner);
    }
    let eq_node = match equals().into_node() {
        Ok(n) => n,
        Err(_) => unreached(),
    };
    let ghost lap_v = NodeV::Lap {
        mode: Mode::Math,
        loc: None,
        alignment: "rlap"@,
        body: Box::new(ordgroup_v(Mode::Math, seq![not_v()])),
    };
    let ghost inner_v = NodeV::MClass {
        mode: Mode::Math,
        loc: None,
        mclass: "rel"@,
        body: seq![lap_v],
        is_character_box: false,
    };
    proof {
        assert(node_view(inner_body@[0]) == lap_v);
        assert(node_list_view(inner_body@) =~= seq![lap_v]);
        assert(node_view(KatexNode::MClass(inner)) == inner_v);
        assert(node_view(eq_node) == equals_v());
    }
    let mut outer_body: NodeArray = Vec::new();
    outer_body.push(KatexNode::MClass(inner));
    outer_body.push(eq_node);
    proof {
        assert(outer_body@.drop_last() =~= seq![outer_body@[0]]);
        assert(outer_body@.last() == outer_body@[1]);
        lemma_node_list_view_singleton(outer_body@[0]);
        assert(node_list_view(outer_body@) =~= seq![node_view(outer_body@[0])].push(
            node_view(outer_body@[1]),
        ));
        assert(node_list_view(outer_body@) =~= seq![inner_v, equals_v()]);
    }
    let outer = MClass {
        mode: Mode::Math,
        loc: None,
        mclass: "mrel".to_owned(),
        body: outer_body,
        is_character_box: false,
    };
    proof {
        lemma_node_view_m_class(outer);
        assert(neq_v()->MClass_body =~= seq![inner_v, equals_v()]);
        assert(node_view(KatexNode::MClass(outer)) == neq_v());
    }
    Node::Node(KatexNode::MClass(outer))
}

/// The definition sign: the colon and equals atoms of the symbol table,
/// spliced as a run.
pub fn define() -> (r: Node)
    ensures
        ir_view(r) == IrV::Array(
            seq![
                NodeV::Atom { family: AtomGroup::Rel, mode: Mode::Math, loc: None, text: seq![':'] },
                NodeV::Atom { family: AtomGroup::Rel, mode: Mode::Math, loc: None, text: seq!['='] },
            ],
        ),
{
    proof {
        reveal(symbol_spec);
        assert(symbol_spec(Mode::Math, ':') == (Symbol {
            mode: Mode::Math,
            font: Font::Main,
            group: Group::Atom(AtomGroup::Rel),
            name: ':',
        }));
        assert(symbol_spec(Mode::Math, '=') == (Symbol {
            mode: Mode::Math,
            font: Font::Main,
            group: Group::Atom(AtomGroup::Rel),
            name: '=',
        }));
    }
    let colon = match Symbol::get(Mode::Math, ':').create_node() {
        Ok(n) => n,
        Err(_) => unreached(),
    };
    let eq = match Symbol::get(Mode::Math, '=').create_node() {
        Ok(n) => n,
        Err(_) => unreached(),
    };
    proof {
        assert(node_view(colon) == (NodeV::Atom {
            family: AtomGroup::Rel,
            mode: Mode::Math,
            loc: None,
            text: seq![':'],
        }));
        assert(node_view(eq) == (NodeV::Atom {
            family: AtomGroup::Rel,
            mode: Mode::Math,
            loc: None,
            text: seq!['='],
        }));
    }
    let mut body: NodeArray = Vec::new();
    body.push(colon);
    body.push(eq);
    proof {
        assert(body@.drop_last() =~= seq![body@[0]]);
        assert(body@.last() == body@[1]);
        lemma_node_list_view_singleton(body@[0]);
        assert(node_list_view(body@) =~= seq![node_view(body@[0])].push(node_view(body@[1])));
        assert(node_list_view(body@) =~= seq![node_view(colon), node_view(eq)]);
    }
    Node::Array(body)
}

} // verus!
