//! Which trees are read: every tree whose nodes name only what comes
//! after them, and why the limit on the depth of a tree rejects no tree
//! that ends.
//!
//! A tree is read with as many levels of nodes as the nodes lump has
//! records. It is shown here that a tree that can be read with any number
//! of levels can be read with that many, and is then the same tree: on a
//! longest path down a tree that was read, each node is higher than the
//! next, so no node is passed twice and the path is no longer than the
//! lump.

use crate::lumps::helpers::{i32_at, record, record_count, u32_at};
use crate::lumps::tree::{BSPNode, BSPTree, TreeLumps, LEAF_SIZE, NODE_SIZE};
use vstd::prelude::*;
use vstd::set_lib::{lemma_int_range, lemma_len_subset, set_int_range};

verus! {

impl TreeLumps {
    /// The child of node `i` on the given side, 0 or 1.
    pub open spec fn child(self, i: int, side: int) -> int {
        i32_at(record(self.nodes, NODE_SIZE, i), 4 + 4 * side)
    }

    /// The number of levels of nodes in the subtree that the reference `i`
    /// names, counted down to `fuel` levels: none for a leaf.
    pub open spec fn height(self, i: int, fuel: nat) -> nat
        decreases fuel,
    {
        if i < 0 || fuel == 0 {
            0
        } else {
            let left = self.height(self.child(i, 0), (fuel - 1) as nat);
            let right = self.height(self.child(i, 1), (fuel - 1) as nat);
            if left >= right {
                left + 1
            } else {
                right + 1
            }
        }
    }

    /// Node `j` is `k` levels high.
    pub open spec fn is_of_height(self, j: int, k: nat) -> bool {
        &&& 0 <= j < record_count(self.nodes, NODE_SIZE)
        &&& self.error_at(j, k) is None
        &&& self.height(j, k) == k
    }

    /// Some node that is `k` levels high, if there is one.
    pub open spec fn node_of_height(self, k: nat) -> int {
        choose|j: int| self.is_of_height(j, k)
    }

    /// What can be read with some fuel can be read with more.
    pub proof fn lemma_more_fuel_reads(self, i: int, fuel: nat, more: nat)
        requires
            self.error_at(i, fuel) is None,
            fuel <= more,
        ensures
            self.error_at(i, more) is None,
        decreases fuel,
    {
        if i >= 0 {
            self.lemma_more_fuel_reads(self.child(i, 0), (fuel - 1) as nat, (more - 1) as nat);
            self.lemma_more_fuel_reads(self.child(i, 1), (fuel - 1) as nat, (more - 1) as nat);
        }
    }

    /// What is read does not depend on the fuel that it is read with, as
    /// long as that is enough.
    pub proof fn lemma_fuel_changes_nothing(self, i: int, fuel: nat, more: nat, node: BSPNode)
        requires
            self.error_at(i, fuel) is None,
            fuel <= more,
        ensures
            self.decodes(i, fuel, node) <==> self.decodes(i, more, node),
        decreases fuel,
    {
        if i >= 0 {
            if node.children is Some {
                let pair = node.children->0;
                self.lemma_fuel_changes_nothing(
                    self.child(i, 0),
                    (fuel - 1) as nat,
                    (more - 1) as nat,
                    pair.0,
                );
                self.lemma_fuel_changes_nothing(
                    self.child(i, 1),
                    (fuel - 1) as nat,
                    (more - 1) as nat,
                    pair.1,
                );
            }
        }
    }

    /// The height of what can be read does not depend on the fuel.
    pub proof fn lemma_height_is_fixed(self, i: int, fuel: nat, other: nat)
        requires
            self.error_at(i, fuel) is None,
            self.error_at(i, other) is None,
        ensures
            self.height(i, fuel) == self.height(i, other),
        decreases fuel,
    {
        if i >= 0 {
            self.lemma_height_is_fixed(self.child(i, 0), (fuel - 1) as nat, (other - 1) as nat);
            self.lemma_height_is_fixed(self.child(i, 1), (fuel - 1) as nat, (other - 1) as nat);
        }
    }

    /// What can be read can be read with as much fuel as it is high.
    pub proof fn lemma_height_reads(self, i: int, fuel: nat)
        requires
            self.error_at(i, fuel) is None,
        ensures
            self.height(i, fuel) <= fuel,
            self.error_at(i, self.height(i, fuel)) is None,
        decreases fuel,
    {
        if i >= 0 {
            let left = self.child(i, 0);
            let right = self.child(i, 1);
            let rest = (fuel - 1) as nat;
            self.lemma_height_reads(left, rest);
            self.lemma_height_reads(right, rest);
            let below = (self.height(i, fuel) - 1) as nat;
            self.lemma_more_fuel_reads(left, self.height(left, rest), below);
            self.lemma_more_fuel_reads(right, self.height(right, rest), below);
        }
    }

    /// In what can be read there is a node of every height from 1 up to
    /// the height of the whole.
    pub proof fn lemma_nodes_of_every_height(self, i: int, fuel: nat, k: nat)
        requires
            self.error_at(i, fuel) is None,
            1 <= k <= self.height(i, fuel),
        ensures
            exists|j: int| self.is_of_height(j, k),
        decreases fuel,
    {
        let left = self.child(i, 0);
        let right = self.child(i, 1);
        let rest = (fuel - 1) as nat;
        if k == self.height(i, fuel) {
            self.lemma_height_reads(i, fuel);
            self.lemma_height_is_fixed(i, fuel, k);
            assert(self.is_of_height(i, k));
        } else if k <= self.height(left, rest) {
            self.lemma_nodes_of_every_height(left, rest, k);
        } else {
            self.lemma_nodes_of_every_height(right, rest, k);
        }
    }

    /// What can be read is no higher than the nodes lump has records.
    pub proof fn lemma_height_is_bounded(self, i: int, fuel: nat)
        requires
            self.error_at(i, fuel) is None,
        ensures
            self.height(i, fuel) <= record_count(self.nodes, NODE_SIZE),
    {
        let h = self.height(i, fuel);
        let n = record_count(self.nodes, NODE_SIZE);
        // one node of each height from 1 to h
        let nodes = Seq::new(h, |t: int| self.node_of_height((t + 1) as nat));
        assert forall|t: int| 0 <= t < h implies self.is_of_height(
            #[trigger] nodes[t],
            (t + 1) as nat,
        ) by {
            self.lemma_nodes_of_every_height(i, fuel, (t + 1) as nat);
        }
        // a node has one height, so these are all different
        assert forall|a: int, b: int| 0 <= a < h && 0 <= b < h && a != b implies nodes[a]
            != nodes[b] by {
            if nodes[a] == nodes[b] {
                self.lemma_height_is_fixed(nodes[a], (a + 1) as nat, (b + 1) as nat);
            }
        }
        assert(nodes.no_duplicates());
        nodes.unique_seq_to_set();
        // and all are records of the lump
        if h > 0 {
            assert(self.is_of_height(nodes[0], 1));
            lemma_int_range(0, n);
            assert(nodes.to_set().subset_of(set_int_range(0, n))) by {
                assert forall|j: int| nodes.to_set().contains(j) implies set_int_range(
                    0,
                    n,
                ).contains(j) by {
                    let t = choose|t: int| 0 <= t < nodes.len() && nodes[t] == j;
                    assert(self.is_of_height(nodes[t], (t + 1) as nat));
                }
            }
            lemma_len_subset(nodes.to_set(), set_int_range(0, n));
        }
    }

    /// The reference `c` of node `k` names a node after `k`, or a leaf
    /// that can be read.
    pub open spec fn child_is_later(self, k: int, c: int) -> bool {
        ||| k < c < record_count(self.nodes, NODE_SIZE)
        ||| (c < 0 && -(c + 1) < record_count(self.leaves, LEAF_SIZE) && self.leaf_error(-(c + 1))
            is None)
    }

    /// The plane of node `k` exists, and both its children are later
    /// nodes or leaves that can be read.
    pub open spec fn node_is_ordered(self, k: int) -> bool {
        &&& u32_at(record(self.nodes, NODE_SIZE, k), 0) / 2 < self.n_planes
        &&& self.child_is_later(k, self.child(k, 0))
        &&& self.child_is_later(k, self.child(k, 1))
    }

    /// Every node names only what comes after it: nodes in the order of
    /// the lump, and leaves that can be read.
    pub open spec fn is_ordered(self) -> bool {
        forall|k: int| 0 <= k < record_count(self.nodes, NODE_SIZE) ==> self.node_is_ordered(k)
    }

    /// Where every node names only what comes after it, each node can be
    /// read with as much fuel as nodes come after it, itself counted.
    pub proof fn lemma_ordered_reads(self, i: int, fuel: nat)
        requires
            self.is_ordered(),
            0 <= i < record_count(self.nodes, NODE_SIZE),
            fuel >= record_count(self.nodes, NODE_SIZE) - i,
        ensures
            self.error_at(i, fuel) is None,
        decreases fuel,
    {
        assert(self.node_is_ordered(i));
        let left = self.child(i, 0);
        let right = self.child(i, 1);
        if left >= 0 {
            self.lemma_ordered_reads(left, (fuel - 1) as nat);
        }
        if right >= 0 {
            self.lemma_ordered_reads(right, (fuel - 1) as nat);
        }
    }

    /// Decoding is total on ordered trees: where the lumps hold whole
    /// records and at least one node, and every node names only what
    /// comes after it, the tree from node 0 is read without error.
    pub proof fn lemma_ordered_tree_is_read(self)
        requires
            self.size_error() is None,
            record_count(self.nodes, NODE_SIZE) >= 1,
            self.is_ordered(),
        ensures
            BSPTree::error(self) is None,
    {
        self.lemma_ordered_reads(0, record_count(self.nodes, NODE_SIZE) as nat);
    }

    /// The limit on the depth of a tree rejects no tree that ends: what
    /// can be read from `i` with any fuel can be read with as much fuel as
    /// the nodes lump has records, and is the same then.
    pub proof fn lemma_depth_limit_is_enough(self, i: int, fuel: nat, node: BSPNode)
        requires
            self.error_at(i, fuel) is None,
        ensures
            self.error_at(i, record_count(self.nodes, NODE_SIZE) as nat) is None,
            self.decodes(i, fuel, node) <==> self.decodes(
                i,
                record_count(self.nodes, NODE_SIZE) as nat,
                node,
            ),
    {
        let n = record_count(self.nodes, NODE_SIZE) as nat;
        let h = self.height(i, fuel);
        self.lemma_height_reads(i, fuel);
        self.lemma_height_is_bounded(i, fuel);
        self.lemma_more_fuel_reads(i, h, n);
        self.lemma_fuel_changes_nothing(i, h, n, node);
        self.lemma_fuel_changes_nothing(i, h, fuel, node);
    }
}

} // verus!
