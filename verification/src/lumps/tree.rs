//! Parses the BSP tree into a usable format

use crate::lumps::brushes::BrushesLump;
use crate::lumps::faces::FaceLump;
use crate::lumps::helpers::{
    clip_u64, first_error, i32_at, index_error, lemma_first_error_none, range_error, read_i32,
    read_index, read_ivec3, read_u32, record, record_count, u32_at, unsigned_word, whole_records,
};
use crate::lumps::planes::PlanesLump;
use crate::types::{Error, IVector3, Result};
use vstd::prelude::*;

verus! {

/// The size of one node record.
pub const NODE_SIZE: usize = 36;

/// The size of one leaf record.
pub const LEAF_SIZE: usize = 48;

/// The size of one entry of the tables of leaf faces and leaf brushes.
pub const INDEX_SIZE: usize = 4;

/// Names a reference to a node in a `BadRef`: the node does not exist, or
/// the reference closes a cycle.
pub const NODE_CHILD: &'static str = "BSPNode.children";

/// Names a reference to a leaf in a `BadRef`.
pub const NODE_LEAF: &'static str = "BSPNode.leaf";

/// Names the plane index of a node in a `BadRef`.
pub const NODE_PLANE: &'static str = "BSPNode.plane_idx";

/// Names a leaf's run of leaf faces in a `BadRef`.
pub const LEAF_FACES: &'static str = "BSPLeaf.faces_idx";

/// Names a leaf's run of leaf brushes in a `BadRef`.
pub const LEAF_BRUSHES: &'static str = "BSPLeaf.brushes_idx";

/// Names the face index of a leaf face in a `BadRef`.
pub const LEAF_FACE: &'static str = "LeafFace.face_idx";

/// Names the brush index of a leaf brush in a `BadRef`.
pub const LEAF_BRUSH: &'static str = "LeafBrush.brush_idx";

/// Represents a BSP / binary tree.
#[derive(Debug, Clone)]
pub struct BSPTree {
    /// The root of this tree, first in the nodes lump for q3 files.
    pub root: BSPNode,
}

/// A node in a BSP tree.
/// Either has two children *or* a leaf entry.
#[derive(Debug)]
pub struct BSPNode {
    pub plane_idx: u32,
    pub children: Option<Box<(BSPNode, BSPNode)>>,
    pub min: IVector3,
    pub max: IVector3,
    pub leaf: Option<BSPLeaf>,
}

/// A leaf in a BSP tree.
/// Will be under a `BSPNode`, min and max values are stored there.
#[derive(Debug)]
pub struct BSPLeaf {
    pub cluster_id: i32,
    pub area: i32,
    pub faces_idx: Vec<usize>,
    pub brushes_idx: Vec<usize>,
}

/// The four lumps that hold a tree, and the sizes of the lumps that the
/// tree points into.
pub struct TreeLumps {
    pub nodes: Seq<u8>,
    pub leaves: Seq<u8>,
    pub leaf_faces: Seq<u8>,
    pub leaf_brushes: Seq<u8>,
    pub n_faces: int,
    pub n_brushes: int,
    /// The number of planes, each made of two records.
    pub n_planes: int,
}

/// The error of each entry of the run that starts at entry `first` of
/// `table`, by its place in the run: an entry is a signed word and must
/// be an index below `limit`.
pub open spec fn entry_errors(table: Seq<u8>, first: int, limit: int, loc: &'static str)
    -> spec_fn(int) -> Option<Error> {
    |j: int| index_error(i32_at(table, 4 * (first + j)), limit, loc)
}

/// Why the run of `count` entries from entry `first` of `table` cannot be
/// read: it does not lie in the table, or one of its entries is no index
/// below `limit`. An empty run is never in error, wherever it starts.
pub open spec fn run_error(
    table: Seq<u8>,
    first: int,
    count: int,
    limit: int,
    loc_run: &'static str,
    loc_entry: &'static str,
) -> Option<Error> {
    if count == 0 {
        None
    } else if range_error(first, count, record_count(table, INDEX_SIZE), loc_run) is Some {
        range_error(first, count, record_count(table, INDEX_SIZE), loc_run)
    } else {
        first_error(0, count, entry_errors(table, first, limit, loc_entry))
    }
}

/// The run of `count` entries from entry `first` of `table`.
pub open spec fn run_of(table: Seq<u8>, first: int, count: int) -> Seq<usize> {
    Seq::new(count as nat, |j: int| i32_at(table, 4 * (first + j)) as usize)
}

/// Every entry of a run without error is below the limit.
pub proof fn lemma_run_below_limit(
    table: Seq<u8>,
    first: int,
    count: int,
    limit: int,
    loc_run: &'static str,
    loc_entry: &'static str,
)
    requires
        run_error(table, first, count, limit, loc_run, loc_entry) is None,
    ensures
        forall|j: int|
            0 <= j < run_of(table, first, count).len() ==> #[trigger] run_of(table, first, count)[j]
                < limit,
{
    if count > 0 {
        lemma_first_error_none(0, count, entry_errors(table, first, limit, loc_entry));
        assert forall|j: int| 0 <= j < count implies #[trigger] run_of(table, first, count)[j]
            < limit by {
            assert(entry_errors(table, first, limit, loc_entry)(j) is None);
        }
    }
}

impl TreeLumps {
    /// Each lump holds a whole number of its records.
    pub open spec fn size_error(self) -> Option<Error> {
        if !whole_records(self.nodes, NODE_SIZE) {
            Some(Error::BadSize { req: NODE_SIZE as u32 })
        } else if !whole_records(self.leaves, LEAF_SIZE) {
            Some(Error::BadSize { req: LEAF_SIZE as u32 })
        } else if !whole_records(self.leaf_faces, INDEX_SIZE) || !whole_records(
            self.leaf_brushes,
            INDEX_SIZE,
        ) {
            Some(Error::BadSize { req: INDEX_SIZE as u32 })
        } else {
            None
        }
    }

    /// Why leaf `k` cannot be read: its faces first, then its brushes.
    pub open spec fn leaf_error(self, k: int) -> Option<Error> {
        let rec = record(self.leaves, LEAF_SIZE, k);
        let faces = run_error(
            self.leaf_faces,
            i32_at(rec, 32),
            i32_at(rec, 36),
            self.n_faces,
            LEAF_FACES,
            LEAF_FACE,
        );
        if faces is Some {
            faces
        } else {
            run_error(
                self.leaf_brushes,
                i32_at(rec, 40),
                i32_at(rec, 44),
                self.n_brushes,
                LEAF_BRUSHES,
                LEAF_BRUSH,
            )
        }
    }

    /// Why the subtree that the reference `i` names cannot be read with
    /// `fuel` levels of nodes left, if it cannot.
    ///
    /// A negative `i` names leaf `-(i + 1)`, another `i` names node `i`.
    /// A node is read before its children, the first child before the
    /// second. A node that is met with no fuel left is an error: a path of
    /// more nodes than the lump holds passes some node twice, and so never
    /// ends.
    pub open spec fn error_at(self, i: int, fuel: nat) -> Option<Error>
        decreases fuel,
    {
        if i < 0 {
            if -(i + 1) >= record_count(self.leaves, LEAF_SIZE) {
                Some(Error::BadRef { loc: NODE_LEAF, val: (-(i + 1)) as usize })
            } else {
                self.leaf_error(-(i + 1))
            }
        } else if fuel == 0 || i >= record_count(self.nodes, NODE_SIZE) {
            Some(Error::BadRef { loc: NODE_CHILD, val: i as usize })
        } else {
            let rec = record(self.nodes, NODE_SIZE, i);
            if u32_at(rec, 0) / 2 >= self.n_planes {
                Some(Error::BadRef { loc: NODE_PLANE, val: u32_at(rec, 0) as usize })
            } else {
                let first = self.error_at(i32_at(rec, 4), (fuel - 1) as nat);
                if first is Some {
                    first
                } else {
                    self.error_at(i32_at(rec, 8), (fuel - 1) as nat)
                }
            }
        }
    }

    /// The lumps hold one tree: two subtrees that were read from the same
    /// reference have the same shape and hold the same values.
    pub proof fn lemma_decodes_one_tree(self, i: int, fuel: nat, a: BSPNode, b: BSPNode)
        requires
            self.decodes(i, fuel, a),
            self.decodes(i, fuel, b),
        ensures
            a.same(&b),
        decreases fuel,
    {
        if i >= 0 {
            let rec = record(self.nodes, NODE_SIZE, i);
            let rest = (fuel - 1) as nat;
            let below_a = a.children->0;
            let below_b = b.children->0;
            self.lemma_decodes_one_tree(i32_at(rec, 4), rest, below_a.0, below_b.0);
            self.lemma_decodes_one_tree(i32_at(rec, 8), rest, below_a.1, below_b.1);
        }
    }

    /// A copy of a subtree that was read is what was read as well.
    pub proof fn lemma_copy_decodes(self, i: int, fuel: nat, a: BSPNode, b: BSPNode)
        requires
            self.decodes(i, fuel, a),
            b.same(&a),
        ensures
            self.decodes(i, fuel, b),
        decreases fuel,
    {
        if i >= 0 {
            let rec = record(self.nodes, NODE_SIZE, i);
            let rest = (fuel - 1) as nat;
            let below_a = a.children->0;
            let below_b = b.children->0;
            self.lemma_copy_decodes(i32_at(rec, 4), rest, below_a.0, below_b.0);
            self.lemma_copy_decodes(i32_at(rec, 8), rest, below_a.1, below_b.1);
        }
    }

    /// A subtree that was read is a tree: each of its nodes has two
    /// children and no leaf, or a leaf and no children.
    pub proof fn lemma_decoded_is_well_formed(self, i: int, fuel: nat, node: BSPNode)
        requires
            self.decodes(i, fuel, node),
        ensures
            node.is_well_formed(),
        decreases fuel,
    {
        if i >= 0 {
            let rec = record(self.nodes, NODE_SIZE, i);
            let pair = node.children->0;
            self.lemma_decoded_is_well_formed(i32_at(rec, 4), (fuel - 1) as nat, pair.0);
            self.lemma_decoded_is_well_formed(i32_at(rec, 8), (fuel - 1) as nat, pair.1);
        }
    }

    /// A subtree that was read without error points into its lumps: the
    /// plane of each node exists, and so does each face and brush of each
    /// leaf.
    pub proof fn lemma_decoded_refs_valid(self, i: int, fuel: nat, node: BSPNode)
        requires
            self.error_at(i, fuel) is None,
            self.decodes(i, fuel, node),
        ensures
            node.refs_valid(self.n_faces, self.n_brushes, self.n_planes),
        decreases fuel,
    {
        if i >= 0 {
            let rec = record(self.nodes, NODE_SIZE, i);
            let pair = node.children->0;
            self.lemma_decoded_refs_valid(i32_at(rec, 4), (fuel - 1) as nat, pair.0);
            self.lemma_decoded_refs_valid(i32_at(rec, 8), (fuel - 1) as nat, pair.1);
        } else {
            let rec = record(self.leaves, LEAF_SIZE, -(i + 1));
            let leaf = node.leaf->0;
            lemma_run_below_limit(
                self.leaf_faces,
                i32_at(rec, 32),
                i32_at(rec, 36),
                self.n_faces,
                LEAF_FACES,
                LEAF_FACE,
            );
            lemma_run_below_limit(
                self.leaf_brushes,
                i32_at(rec, 40),
                i32_at(rec, 44),
                self.n_brushes,
                LEAF_BRUSHES,
                LEAF_BRUSH,
            );
        }
    }

    /// `node` is the leaf that record `k` of the leaves lump holds.
    pub open spec fn decodes_leaf(self, k: int, node: BSPNode) -> bool {
        let rec = record(self.leaves, LEAF_SIZE, k);
        &&& node.plane_idx == 0
        &&& node.children is None
        &&& node.min == IVector3::at(rec, 8)
        &&& node.max == IVector3::at(rec, 20)
        &&& node.leaf matches Some(leaf)
        &&& leaf.cluster_id == i32_at(rec, 0)
        &&& leaf.area == i32_at(rec, 4)
        &&& leaf.faces_idx@ =~= run_of(self.leaf_faces, i32_at(rec, 32), i32_at(rec, 36))
        &&& leaf.brushes_idx@ =~= run_of(self.leaf_brushes, i32_at(rec, 40), i32_at(rec, 44))
    }

    /// `node` is the subtree that the reference `i` names, read with
    /// `fuel` levels of nodes left.
    pub open spec fn decodes(self, i: int, fuel: nat, node: BSPNode) -> bool
        decreases fuel,
    {
        if i < 0 {
            self.decodes_leaf(-(i + 1), node)
        } else if fuel == 0 {
            false
        } else {
            let rec = record(self.nodes, NODE_SIZE, i);
            &&& node.plane_idx == u32_at(rec, 0)
            &&& node.leaf is None
            &&& node.min == IVector3::at(rec, 12)
            &&& node.max == IVector3::at(rec, 24)
            &&& node.children matches Some(pair)
            &&& self.decodes(i32_at(rec, 4), (fuel - 1) as nat, pair.0)
            &&& self.decodes(i32_at(rec, 8), (fuel - 1) as nat, pair.1)
        }
    }
}

impl BSPLeaf {
    /// Both leaves hold the same values.
    pub open spec fn same(&self, other: &BSPLeaf) -> bool {
        &&& self.cluster_id == other.cluster_id
        &&& self.area == other.area
        &&& self.faces_idx@ == other.faces_idx@
        &&& self.brushes_idx@ == other.brushes_idx@
    }

    /// Every face and brush of the leaf exists.
    pub open spec fn refs_valid(&self, n_faces: int, n_brushes: int) -> bool {
        &&& forall|j: int|
            0 <= j < self.faces_idx@.len() ==> #[trigger] self.faces_idx@[j] < n_faces
        &&& forall|j: int|
            0 <= j < self.brushes_idx@.len() ==> #[trigger] self.brushes_idx@[j] < n_brushes
    }
}

impl Clone for BSPLeaf {
    fn clone(&self) -> (r: Self)
        ensures
            r.same(self),
    {
        BSPLeaf {
            cluster_id: self.cluster_id,
            area: self.area,
            faces_idx: self.faces_idx.clone(),
            brushes_idx: self.brushes_idx.clone(),
        }
    }
}

impl Clone for BSPNode {
    fn clone(&self) -> (r: Self)
        ensures
            r.same(self),
        decreases self,
    {
        BSPNode {
            plane_idx: self.plane_idx,
            children: match &self.children {
                Some(pair) => Some(Box::new((pair.0.clone(), pair.1.clone()))),
                None => None,
            },
            min: self.min,
            max: self.max,
            leaf: match &self.leaf {
                Some(leaf) => Some(leaf.clone()),
                None => None,
            },
        }
    }
}

impl BSPNode {
    /// Both trees have the same shape and hold the same values.
    pub open spec fn same(&self, other: &BSPNode) -> bool
        decreases self,
    {
        &&& self.plane_idx == other.plane_idx
        &&& self.min == other.min
        &&& self.max == other.max
        &&& match (self.children, other.children) {
            (Some(a), Some(b)) => a.0.same(&b.0) && a.1.same(&b.1),
            (None, None) => true,
            _ => false,
        }
        &&& match (self.leaf, other.leaf) {
            (Some(a), Some(b)) => a.same(&b),
            (None, None) => true,
            _ => false,
        }
    }

    /// In this node and in all below it: a node has two children and no
    /// leaf, or a leaf and no children.
    pub open spec fn is_well_formed(&self) -> bool
        decreases self,
    {
        match self.children {
            Some(pair) => self.leaf is None && pair.0.is_well_formed() && pair.1.is_well_formed(),
            None => self.leaf is Some,
        }
    }

    /// In this node and in all below it: the plane of a node with
    /// children exists, and so does every face and brush of a leaf.
    pub open spec fn refs_valid(&self, n_faces: int, n_brushes: int, n_planes: int) -> bool
        decreases self,
    {
        &&& match self.children {
            Some(pair) => {
                &&& self.plane_idx / 2 < n_planes
                &&& pair.0.refs_valid(n_faces, n_brushes, n_planes)
                &&& pair.1.refs_valid(n_faces, n_brushes, n_planes)
            },
            None => true,
        }
        &&& match self.leaf {
            Some(leaf) => leaf.refs_valid(n_faces, n_brushes),
            None => true,
        }
    }
}

impl BSPTree {
    /// Why the lumps are rejected, if they are: for a length, else for
    /// the first reference that fails as the tree is read from node 0.
    pub open spec fn error(lumps: TreeLumps) -> Option<Error> {
        if lumps.size_error() is Some {
            lumps.size_error()
        } else {
            lumps.error_at(0, record_count(lumps.nodes, NODE_SIZE) as nat)
        }
    }

    /// This tree is what the lumps hold, read from node 0.
    pub open spec fn decodes(&self, lumps: TreeLumps) -> bool {
        lumps.decodes(0, record_count(lumps.nodes, NODE_SIZE) as nat, self.root)
    }

    /// The lumps and sizes that `from_lumps` is given, as one value.
    pub open spec fn lumps_of(
        nodes: &[u8],
        leaves: &[u8],
        leaf_faces: &[u8],
        leaf_brushes: &[u8],
        faces: &FaceLump,
        brushes: &BrushesLump,
        planes: &PlanesLump,
    ) -> TreeLumps {
        TreeLumps {
            nodes: nodes@,
            leaves: leaves@,
            leaf_faces: leaf_faces@,
            leaf_brushes: leaf_brushes@,
            n_faces: faces.faces@.len() as int,
            n_brushes: brushes.brushes@.len() as int,
            n_planes: planes.planes@.len() as int,
        }
    }

    /// Parses the nodes & leaves lumps into a usable BSP tree.
    ///
    /// The tree starts at node 0. Every node, leaf, plane, face and brush
    /// that it names must exist, and no node may be its own descendant:
    /// a path down the tree may pass as many nodes as the lump holds, which
    /// every tree that ends can be read with (see
    /// `TreeLumps::lemma_depth_limit_is_enough`).
    pub fn from_lumps(
        nodes: &[u8],
        leaves: &[u8],
        leaf_faces: &[u8],
        leaf_brushes: &[u8],
        faces: &FaceLump,
        brushes: &BrushesLump,
        planes: &PlanesLump,
    ) -> (r: Result<BSPTree>)
        ensures
            match r {
                Ok(tree) => {
                    &&& Self::error(
                        Self::lumps_of(
                            nodes,
                            leaves,
                            leaf_faces,
                            leaf_brushes,
                            faces,
                            brushes,
                            planes,
                        ),
                    ) is None
                    &&& tree.decodes(
                        Self::lumps_of(
                            nodes,
                            leaves,
                            leaf_faces,
                            leaf_brushes,
                            faces,
                            brushes,
                            planes,
                        ),
                    )
                    &&& tree.root.is_well_formed()
                    &&& tree.root.refs_valid(
                        faces.faces@.len() as int,
                        brushes.brushes@.len() as int,
                        planes.planes@.len() as int,
                    )
                },
                Err(e) => Self::error(
                    Self::lumps_of(nodes, leaves, leaf_faces, leaf_brushes, faces, brushes, planes),
                ) == Some(e),
            },
    {
        if nodes.len() % NODE_SIZE != 0 {
            return Err(Error::BadSize { req: NODE_SIZE as u32 });
        }
        if leaves.len() % LEAF_SIZE != 0 {
            return Err(Error::BadSize { req: LEAF_SIZE as u32 });
        }
        if leaf_faces.len() % INDEX_SIZE != 0 || leaf_brushes.len() % INDEX_SIZE != 0 {
            return Err(Error::BadSize { req: INDEX_SIZE as u32 });
        }
        let root = match BSPTree::compile_node(
            0,
            nodes,
            leaves,
            leaf_faces,
            leaf_brushes,
            faces,
            brushes,
            planes,
            nodes.len() / NODE_SIZE,
        ) {
            Ok(root) => root,
            Err(e) => {
                return Err(e);
            },
        };
        proof {
            let lumps = Self::lumps_of(
                nodes,
                leaves,
                leaf_faces,
                leaf_brushes,
                faces,
                brushes,
                planes,
            );
            let fuel = (nodes.len() / NODE_SIZE) as nat;
            lumps.lemma_decoded_is_well_formed(0, fuel, root);
            lumps.lemma_decoded_refs_valid(0, fuel, root);
        }
        Ok(BSPTree { root })
    }

    /// Internal function. Reads a run of a leaf's faces or brushes through
    /// the table of indices between the leaf and their lump.
    fn resolve_run(
        table: &[u8],
        first: i32,
        count: i32,
        limit: usize,
        loc_run: &'static str,
        loc_entry: &'static str,
    ) -> (r: Result<Vec<usize>>)
        requires
            table.len() % INDEX_SIZE == 0,
        ensures
            match r {
                Ok(run) => {
                    &&& run_error(
                        table@,
                        first as int,
                        count as int,
                        limit as int,
                        loc_run,
                        loc_entry,
                    ) is None
                    &&& run@ =~= run_of(table@, first as int, count as int)
                },
                Err(e) => run_error(
                    table@,
                    first as int,
                    count as int,
                    limit as int,
                    loc_run,
                    loc_entry,
                ) == Some(e),
            },
    {
        let mut run: Vec<usize> = Vec::new();
        if count == 0 {
            return Ok(run);
        }
        let entries: usize = table.len() / INDEX_SIZE;
        if first < 0 || count < 0 || first as u64 + count as u64 > entries as u64 {
            let sum: u64 = unsigned_word(first) as u64 + unsigned_word(count) as u64;
            return Err(Error::BadRef { loc: loc_run, val: clip_u64(sum) });
        }
        let start: usize = first as usize;
        let n: usize = count as usize;
        let ghost errs = entry_errors(table@, first as int, limit as int, loc_entry);

        let mut j: usize = 0;
        while j < n
            invariant
                j <= n,
                n == count,
                start == first,
                start + n <= table.len() / INDEX_SIZE,
                table.len() % INDEX_SIZE == 0,
                errs == entry_errors(table@, first as int, limit as int, loc_entry),
                first_error(0, n as int, errs) == first_error(j as int, n as int, errs),
                run@.len() == j,
                forall|k: int|
                    0 <= k < j ==> #[trigger] run@[k] == i32_at(table@, 4 * (start + k)) as usize,
            decreases n - j,
        {
            let idx = read_index(table, 4 * (start + j), limit, loc_entry)?;
            run.push(idx);
            j += 1;
        }
        Ok(run)
    }

    /// Internal function. Visits given node and all its children. Used to recursively build tree.
    fn compile_node(
        i: i32,
        nodes: &[u8],
        leaves: &[u8],
        leaf_faces: &[u8],
        leaf_brushes: &[u8],
        faces_lump: &FaceLump,
        brushes_lump: &BrushesLump,
        planes_lump: &PlanesLump,
        fuel: usize,
    ) -> (r: Result<BSPNode>)
        requires
            nodes.len() % NODE_SIZE == 0,
            leaves.len() % LEAF_SIZE == 0,
            leaf_faces.len() % INDEX_SIZE == 0,
            leaf_brushes.len() % INDEX_SIZE == 0,
        ensures
            match r {
                Ok(node) => {
                    &&& Self::lumps_of(
                        nodes,
                        leaves,
                        leaf_faces,
                        leaf_brushes,
                        faces_lump,
                        brushes_lump,
                        planes_lump,
                    ).error_at(i as int, fuel as nat) is None
                    &&& Self::lumps_of(
                        nodes,
                        leaves,
                        leaf_faces,
                        leaf_brushes,
                        faces_lump,
                        brushes_lump,
                        planes_lump,
                    ).decodes(i as int, fuel as nat, node)
                },
                Err(e) => Self::lumps_of(
                    nodes,
                    leaves,
                    leaf_faces,
                    leaf_brushes,
                    faces_lump,
                    brushes_lump,
                    planes_lump,
                ).error_at(i as int, fuel as nat) == Some(e),
            },
        decreases fuel,
    {
        if i < 0 {
            // Leaf.
            let k: usize = (-(i + 1)) as usize;
            if k >= leaves.len() / LEAF_SIZE {
                return Err(Error::BadRef { loc: NODE_LEAF, val: k });
            }
            let offset: usize = k * LEAF_SIZE;
            let raw = &leaves[offset..offset + LEAF_SIZE];

            let faces_idx = match BSPTree::resolve_run(
                leaf_faces,
                read_i32(raw, 32),
                read_i32(raw, 36),
                faces_lump.faces.len(),
                LEAF_FACES,
                LEAF_FACE,
            ) {
                Ok(run) => run,
                Err(e) => {
                    return Err(e);
                },
            };
            let brushes_idx = match BSPTree::resolve_run(
                leaf_brushes,
                read_i32(raw, 40),
                read_i32(raw, 44),
                brushes_lump.brushes.len(),
                LEAF_BRUSHES,
                LEAF_BRUSH,
            ) {
                Ok(run) => run,
                Err(e) => {
                    return Err(e);
                },
            };

            let leaf = BSPLeaf {
                cluster_id: read_i32(raw, 0),
                area: read_i32(raw, 4),
                faces_idx,
                brushes_idx,
            };

            Ok(
                BSPNode {
                    plane_idx: 0,
                    children: None,
                    min: read_ivec3(raw, 8),
                    max: read_ivec3(raw, 20),
                    leaf: Some(leaf),
                },
            )
        } else {
            // Node.
            if fuel == 0 || i as usize >= nodes.len() / NODE_SIZE {
                return Err(Error::BadRef { loc: NODE_CHILD, val: i as usize });
            }
            let offset: usize = i as usize * NODE_SIZE;
            let raw = &nodes[offset..offset + NODE_SIZE];

            let plane_idx: u32 = read_u32(raw, 0);
            if (plane_idx / 2) as usize >= planes_lump.planes.len() {
                return Err(Error::BadRef { loc: NODE_PLANE, val: plane_idx as usize });
            }
            let child_one = match BSPTree::compile_node(
                read_i32(raw, 4),
                nodes,
                leaves,
                leaf_faces,
                leaf_brushes,
                faces_lump,
                brushes_lump,
                planes_lump,
                fuel - 1,
            ) {
                Ok(node) => node,
                Err(e) => {
                    return Err(e);
                },
            };
            let child_two = match BSPTree::compile_node(
                read_i32(raw, 8),
                nodes,
                leaves,
                leaf_faces,
                leaf_brushes,
                faces_lump,
                brushes_lump,
                planes_lump,
                fuel - 1,
            ) {
                Ok(node) => node,
                Err(e) => {
                    return Err(e);
                },
            };
            let min = read_ivec3(raw, 12);
            let max = read_ivec3(raw, 24);

            Ok(
                BSPNode {
                    plane_idx,
                    children: Some(Box::new((child_one, child_two))),
                    min,
                    max,
                    leaf: None,
                },
            )
        }
    }
}

} // verus!
