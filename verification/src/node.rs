//! The intermediate result of one converter call: either a single destination
//! node or a flat spliced run of destination nodes.
//!
//! A run of length one and a single node are interchangeable: converting a run
//! to a node succeeds exactly on runs of length one, and a node converts to
//! the run holding just it.

use vstd::prelude::*;
use crate::katex::node::{
    Node as KatexNode, NodeV, NodeArray, OrdGroup, node_view, node_list_view, dup_node,
    dup_node_list, lemma_node_list_view_push, lemma_node_list_view_index,
    lemma_node_list_view_concat,
};
use crate::katex::types::Mode;
use crate::error::ConvertError;

verus! {

/// A single destination node or a flat run of destination nodes.
#[derive(Debug, PartialEq)]
pub enum Node {
    Node(KatexNode),
    Array(NodeArray),
}

/// View of an intermediate result.
pub enum IrV {
    Node(NodeV),
    Array(Seq<NodeV>),
}

/// View of an intermediate result.
pub open spec fn ir_view(w: Node) -> IrV {
    match w {
        Node::Node(n) => IrV::Node(node_view(n)),
        Node::Array(a) => IrV::Array(node_list_view(a@)),
    }
}

/// The run of nodes that an intermediate result stands for.
pub open spec fn ir_as_array(v: IrV) -> Seq<NodeV> {
    match v {
        IrV::Node(n) => seq![n],
        IrV::Array(a) => a,
    }
}

/// The single node that an intermediate result stands for, if it stands for
/// exactly one.
pub open spec fn ir_as_node(v: IrV) -> Result<NodeV, ConvertError> {
    match v {
        IrV::Node(n) => Ok(n),
        IrV::Array(a) => if a.len() == 1 {
            Ok(a[0])
        } else {
            Err(ConvertError::ExpectedSingleNode)
        },
    }
}

/// A plain group node around a run of nodes.
pub open spec fn ordgroup_v(mode: Mode, body: Seq<NodeV>) -> NodeV {
    NodeV::OrdGroup { mode, loc: None, body, semisimple: None }
}

/// The single node of an intermediate result, or a group node around its run
/// when it does not reduce to one.
pub open spec fn ir_fallback_ordgroup(v: IrV, mode: Mode) -> NodeV {
    match ir_as_node(v) {
        Ok(n) => n,
        Err(_) => ordgroup_v(mode, ir_as_array(v)),
    }
}

/// The view of a run holding a single node.
pub broadcast proof fn lemma_node_list_view_singleton(n: KatexNode)
    ensures
        #[trigger] node_list_view(seq![n]) == seq![node_view(n)],
{
    assert(seq![n].drop_last() =~= Seq::<KatexNode>::empty());
    assert(seq![n].last() == n);
    assert(node_list_view(Seq::<KatexNode>::empty()) =~= Seq::<NodeV>::empty());
}

impl Node {
    /// The single node this result stands for; fails exactly when the run
    /// does not have length one.
    pub fn into_node(self) -> (r: Result<KatexNode, ConvertError>)
        ensures
            match r {
                Ok(n) => ir_as_node(ir_view(self)) == Ok::<NodeV, ConvertError>(node_view(n)),
                Err(e) => ir_as_node(ir_view(self)) == Err::<NodeV, ConvertError>(e),
            },
    {
        match self {
            Node::Node(n) => Ok(n),
            Node::Array(mut a) => {
                proof {
                    lemma_node_list_view_index(a@);
                }
                if a.len() == 1 {
                    let n = a.remove(0);
                    Ok(n)
                } else {
                    Err(ConvertError::ExpectedSingleNode)
                }
            },
        }
    }

    /// The run of nodes this result stands for.
    pub fn into_array(self) -> (r: NodeArray)
        ensures
            node_list_view(r@) == ir_as_array(ir_view(self)),
    {
        match self {
            Node::Node(n) => {
                proof {
                    lemma_node_list_view_singleton(n);
                }
                let mut out: NodeArray = Vec::new();
                out.push(n);
                proof {
                    assert(out@ =~= seq![n]);
                }
                out
            },
            Node::Array(a) => a,
        }
    }

    /// A plain group node in the given mode around the run this result
    /// stands for.
    pub fn into_ordgroup(&self, mode: Mode) -> (r: OrdGroup)
        ensures
            r.mode == mode,
            r.loc is None,
            node_list_view(r.body@) == ir_as_array(ir_view(*self)),
            r.semisimple is None,
    {
        let body = self.dup().into_array();
        OrdGroup { mode, loc: None, body, semisimple: None }
    }

    /// The single node this result stands for, or a group node around its
    /// run when it does not reduce to one.
    pub fn into_node_fallback_ordgroup(&self, mode: Mode) -> (r: KatexNode)
        ensures
            node_view(r) == ir_fallback_ordgroup(ir_view(*self), mode),
    {
        let single = self.dup().into_node();
        match single {
            Ok(n) => n,
            Err(_) => {
                let og = self.into_ordgroup(mode);
                proof {
                    crate::katex::node::lemma_node_view_ord_group(og);
                }
                og.into_node()
            },
        }
    }

    /// Replaces this result by the run of both results, in order.
    pub fn join(&mut self, node: Node)
        ensures
            ir_view(*final(self)) == IrV::Array(
                ir_as_array(ir_view(*old(self))) + ir_as_array(ir_view(node)),
            ),
    {
        let mut prev = Node::Array(Vec::new());
        core::mem::swap(self, &mut prev);
        let mut arr = prev.into_array();
        let mut other = node.into_array();
        proof {
            lemma_node_list_view_concat(arr@, other@);
        }
        arr.append(&mut other);
        *self = Node::Array(arr);
    }

    /// A copy of this result with the same view.
    pub fn dup(&self) -> (r: Node)
        ensures
            ir_view(r) == ir_view(*self),
    {
        match self {
            Node::Node(n) => Node::Node(dup_node(n)),
            Node::Array(a) => Node::Array(dup_node_list(a)),
        }
    }
}

} // verus!
