//! Joining a list of node runs with a separator run.

use vstd::prelude::*;
use crate::katex::node::{
    Node as KatexNode, NodeV, NodeArray, node_list_view, node_grid_view, dup_node_list,
    lemma_node_grid_view_index, lemma_node_grid_view_push,
};

verus! {

/// The interleaving of a list of parts with a separator: parts at even
/// positions, the separator at odd positions, never leading or trailing.
/// A list of `n` parts yields `2 * n - 1` entries.
pub open spec fn insert_separator_spec<T>(parts: Seq<T>, sep: T) -> Seq<T> {
    if parts.len() == 0 {
        Seq::empty()
    } else {
        Seq::new(
            (2 * parts.len() - 1) as nat,
            |i: int| if i % 2 == 0 {
                parts[i / 2]
            } else {
                sep
            },
        )
    }
}

/// Joins the node runs in `list` with the separator run between each
/// adjacent pair: for `n` runs the result holds `2 * n - 1` runs, the
/// originals at even positions and the separator at odd positions.
#[verifier::loop_isolation(false)]
pub fn insert_separator(list: &Vec<NodeArray>, separator: &NodeArray) -> (r: Vec<NodeArray>)
    requires
        list@.len() >= 1,
    ensures
        node_grid_view(r@) == insert_separator_spec(
            node_grid_view(list@),
            node_list_view(separator@),
        ),
{
    proof {
        lemma_node_grid_view_index(list@);
    }
    let ghost target = insert_separator_spec(node_grid_view(list@), node_list_view(separator@));
    let mut out: Vec<NodeArray> = Vec::new();
    let mut i: usize = 0;
    while i < list.len()
        invariant
            i <= list.len(),
            out@.len() == if i == 0 {
                0int
            } else {
                2 * i - 1
            },
            node_grid_view(out@) =~= target.subrange(0, out@.len() as int),
        decreases list.len() - i,
    {
        if i > 0 {
            let sep = dup_node_list(separator);
            proof {
                lemma_node_grid_view_push(out@, sep);
                assert(target[out@.len() as int] == node_list_view(separator@)) by {
                    assert((2 * i - 1) % 2 == 1) by (nonlinear_arith)
                        requires
                            i >= 1,
                    ;
                }
                assert(node_grid_view(out@.push(sep)) =~= target.subrange(0, out@.len() as int + 1));
            }
            out.push(sep);
        }
        let part = dup_node_list(&list[i]);
        proof {
            lemma_node_grid_view_push(out@, part);
            assert(target[out@.len() as int] == node_list_view(list@[i as int]@)) by {
                assert((2 * i) % 2 == 0 && (2 * i) / 2 == i) by (nonlinear_arith);
            }
            assert(node_grid_view(out@.push(part)) =~= target.subrange(0, out@.len() as int + 1));
        }
        out.push(part);
        i += 1;
    }
    proof {
        lemma_node_grid_view_index(out@);
        assert(node_grid_view(out@) =~= target);
    }
    out
}

} // verus!
