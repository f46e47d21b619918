//! The array constructor: accumulates a grid of destination nodes row by
//! row, with helpers for the column-alignment patterns the converter needs,
//! and freezes into an array node with the default attributes.

use vstd::prelude::*;
use crate::katex::node::{Node, NodeArray, NodeArray2D, node_grid_view, node_list_view, NodeV};
use crate::katex::types::{AlignSpec, Align, AlignSpecV};
use crate::katex::node::{lemma_node_grid_view_index, lemma_node_grid_view_push};
use crate::katex::types::Mode;
use crate::semantics::{max_runs_len, cols_leftright_spec, cols_center_spec};

verus! {

/// The growing grid: rows of nodes, horizontal-rule markers (one slot more
/// than there are rows), and the column specifications once chosen.
pub struct ArrayConstructor {
    pub body: NodeArray2D,
    pub h_lines_before_row: Vec<Vec<bool>>,
    pub cols: Option<Vec<AlignSpec>>,
}

/// A fresh list of empty horizontal-rule marker rows.
pub fn make_empty_h_lines(n: usize) -> (r: Vec<Vec<bool>>)
    requires
        n < usize::MAX,
    ensures
        r.deep_view() == Seq::new(n as nat + 1, |i: int| Seq::<bool>::empty()),
{
    let mut out: Vec<Vec<bool>> = Vec::new();
    let mut i: usize = 0;
    while i < n + 1
        invariant
            i <= n + 1,
            n + 1 <= usize::MAX,
            out@.len() == i,
            forall|j: int| 0 <= j < i ==> (#[trigger] out@[j])@.len() == 0,
        decreases n + 1 - i,
    {
        out.push(Vec::new());
        i += 1;
    }
    proof {
        assert(out.deep_view() =~~= Seq::new(n as nat + 1, |i: int| Seq::<bool>::empty()));
    }
    out
}

impl ArrayConstructor {
    /// A fresh constructor: no rows, one empty rule slot, no column choice.
    pub fn default() -> (r: ArrayConstructor)
        ensures
            r.body@.len() == 0,
            r.h_lines_before_row.deep_view() == Seq::new(1, |i: int| Seq::<bool>::empty()),
            r.cols is None,
    {
        let mut h: Vec<Vec<bool>> = Vec::new();
        h.push(Vec::new());
        proof {
            assert(h.deep_view() =~~= Seq::new(1, |i: int| Seq::<bool>::empty()));
        }
        ArrayConstructor { body: Vec::new(), h_lines_before_row: h, cols: None }
    }

    /// Opens a new, empty row.
    pub fn next_row(&mut self)
        ensures
            final(self).body@.len() == old(self).body@.len() + 1,
            final(self).body@.drop_last() == old(self).body@,
            final(self).body@.last()@ == Seq::<Node>::empty(),
            final(self).h_lines_before_row.deep_view() == old(
                self,
            ).h_lines_before_row.deep_view().push(Seq::<bool>::empty()),
            final(self).cols == old(self).cols,
    {
        self.body.push(Vec::new());
        proof {
            assert(self.body@.drop_last() =~= old(self).body@);
        }
        let ghost before = self.h_lines_before_row.deep_view();
        self.h_lines_before_row.push(Vec::new());
        proof {
            assert(self.h_lines_before_row.deep_view() =~~= before.push(Seq::<bool>::empty()));
        }
    }

    /// Appends a node to the current row.
    pub fn push_node(&mut self, node: Node)
        requires
            old(self).body@.len() >= 1,
        ensures
            final(self).body@.len() == old(self).body@.len(),
            final(self).body@ == old(self).body@.update(
                old(self).body@.len() - 1,
                final(self).body@.last(),
            ),
            final(self).body@.last()@ == old(self).body@.last()@.push(node),
            final(self).h_lines_before_row == old(self).h_lines_before_row,
            final(self).cols == old(self).cols,
    {
        let idx = self.body.len() - 1;
        self.body[idx].push(node);
        proof {
            assert(self.body@ =~= old(self).body@.update(
                old(self).body@.len() - 1,
                self.body@.last(),
            ));
        }
    }

    /// The number of rows.
    pub fn count_rows(&self) -> (r: usize)
        ensures
            r == self.body@.len(),
    {
        self.body.len()
    }

    /// The number of columns: the longest row length.
    pub fn count_columns(&self) -> (r: usize)
        ensures
            r as nat == max_runs_len(node_grid_view(self.body@)),
    {
        let ghost gv = node_grid_view(self.body@);
        proof {
            lemma_node_grid_view_index(self.body@);
            assert forall|j: int| 0 <= j < gv.len() implies gv[j].len() == (
            #[trigger] self.body@[j])@.len() by {
                lemma_node_list_view_len(self.body@[j]@);
            }
        }
        let mut best: usize = 0;
        let mut i: usize = 0;
        while i < self.body.len()
            invariant
                i <= self.body@.len(),
                gv == node_grid_view(self.body@),
                gv.len() == self.body@.len(),
                forall|j: int| 0 <= j < gv.len() ==> gv[j].len() == (
                #[trigger] self.body@[j])@.len(),
                best as nat == max_runs_len(gv.subrange(0, i as int)),
            decreases self.body@.len() - i,
        {
            let len = self.body[i].len();
            proof {
                assert(gv.subrange(0, i + 1 as int).drop_last() =~= gv.subrange(0, i as int));
                assert(gv.subrange(0, i + 1 as int).last() == gv[i as int]);
            }
            if len > best {
                best = len;
            }
            i += 1;
        }
        proof {
            assert(gv.subrange(0, gv.len() as int) =~= gv);
        }
        best
    }

    /// Chooses alternating right/left column alignments for the current
    /// column count.
    pub fn cols_leftright_align(&mut self)
        ensures
            final(self).body == old(self).body,
            final(self).h_lines_before_row == old(self).h_lines_before_row,
            ({
                let n = max_runs_len(node_grid_view(old(self).body@));
                match final(self).cols {
                    Some(cols) => cols.deep_view() == cols_leftright_spec(n),
                    None => false,
                }
            }),
    {
        let n = self.count_columns();
        let mut cols: Vec<AlignSpec> = Vec::new();
        let mut i: usize = 0;
        while i < n
            invariant
                i <= n,
                cols@.len() == i,
                forall|j: int| 0 <= j < i ==> (#[trigger] cols@[j]).deep_view()
                    == cols_leftright_spec(n as nat)[j],
            decreases n - i,
        {
            let align = Align {
                align: if i % 2 == 0 {
                    "r".to_owned()
                } else {
                    "l".to_owned()
                },
                pregap_milli: Some(
                    if i > 1 && i % 2 == 0 {
                        1000
                    } else {
                        0
                    },
                ),
                postgap_milli: Some(0),
            };
            cols.push(AlignSpec::Align(align));
            i += 1;
        }
        proof {
            assert(cols.deep_view() =~~= cols_leftright_spec(n as nat));
        }
        self.cols = Some(cols);
    }

    /// Chooses centered column alignments for the current column count.
    pub fn cols_center_align(&mut self)
        ensures
            final(self).body == old(self).body,
            final(self).h_lines_before_row == old(self).h_lines_before_row,
            ({
                let n = max_runs_len(node_grid_view(old(self).body@));
                match final(self).cols {
                    Some(cols) => cols.deep_view() == cols_center_spec(n),
                    None => false,
                }
            }),
    {
        let n = self.count_columns();
        let mut cols: Vec<AlignSpec> = Vec::new();
        let mut i: usize = 0;
        while i < n
            invariant
                i <= n,
                cols@.len() == i,
                forall|j: int| 0 <= j < i ==> (#[trigger] cols@[j]).deep_view() == cols_center_spec(
                    n as nat,
                )[j],
            decreases n - i,
        {
            let align = Align { align: "c".to_owned(), pregap_milli: None, postgap_milli: None };
            cols.push(AlignSpec::Align(align));
            i += 1;
        }
        proof {
            assert(cols.deep_view() =~~= cols_center_spec(n as nat));
        }
        self.cols = Some(cols);
    }

    /// Freezes the grid into an array node carrying the accumulated rows,
    /// rule markers and column choice, every other attribute at its default.
    pub fn builder(self) -> (a: crate::katex::node::Array)
        ensures
            a.mode == Mode::Math,
            a.loc is None,
            a.col_separation_type is None,
            a.hskip_before_and_after is None,
            a.add_jot is None,
            a.cols == self.cols,
            a.arraystretch_milli == 1000,
            a.body == self.body,
            a.row_gaps@.len() == 0,
            a.h_lines_before_row == self.h_lines_before_row,
            a.tags is None,
            a.leqno is None,
            a.is_cd is None,
    {
        crate::katex::node::Array {
            mode: Mode::Math,
            loc: None,
            col_separation_type: None,
            hskip_before_and_after: None,
            add_jot: None,
            cols: self.cols,
            arraystretch_milli: 1000,
            body: self.body,
            row_gaps: Vec::new(),
            h_lines_before_row: self.h_lines_before_row,
            tags: None,
            leqno: None,
            is_cd: None,
        }
    }
}

/// The length of a run's view equals the run's length.
pub proof fn lemma_node_list_view_len(ns: Seq<Node>)
    ensures
        node_list_view(ns).len() == ns.len(),
    decreases ns,
{
    if ns.len() > 0 {
        lemma_node_list_view_len(ns.drop_last());
    }
}

} // verus!
