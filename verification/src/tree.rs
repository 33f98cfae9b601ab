//! A point-in-time observation of the host application's accessibility tree.
//!
//! The host application exposes no stable identifiers, so the engine reasons
//! about the tree purely structurally: a snapshot holds the elements in
//! depth-first order (the "tree order" in which matches are reported), and
//! each node records where its subtree ends in that order.  A subtree is
//! therefore a contiguous run of entries, and narrowing a search to an
//! element's subtree is narrowing it to that run.

use vstd::prelude::*;

verus! {

/// The properties of one element that the engine reads: its display name,
/// its control class name, and its current displayed value.
#[derive(Debug, Clone)]
pub struct ElementProps {
    pub name: String,
    pub class_name: String,
    pub value: String,
}

/// One element of a snapshot.  `subtree_end` is the exclusive end, in the
/// flattened depth-first order, of the run of entries that form this
/// element's subtree (itself included).
#[derive(Debug, Clone)]
pub struct ElementNode {
    pub props: ElementProps,
    pub subtree_end: usize,
}

/// A borrowed reference to one element of a snapshot: its position in the
/// depth-first order.  Handles are never cached across screen transitions;
/// they are only meaningful against the snapshot they came from.
#[derive(Debug, Clone, Copy, PartialEq, Eq, Structural)]
pub struct ElementRef {
    pub index: usize,
}

/// The root of a snapshot that observes the whole accessibility tree: the
/// element at position zero of the depth-first order.
pub open spec fn root_ref() -> ElementRef {
    ElementRef { index: 0 }
}

/// The flattened entries form a forest: every subtree ends within the
/// snapshot and begins strictly after its root, and a subtree that starts
/// inside another one also ends inside it.
pub open spec fn nodes_wf(s: Seq<ElementNode>) -> bool {
    &&& forall|i: int| 0 <= i < s.len() ==> i < #[trigger] s[i].subtree_end <= s.len()
    &&& forall|i: int, j: int|
        0 <= i < s.len() && i < j < s[i].subtree_end ==> #[trigger] s[j].subtree_end
            <= #[trigger] s[i].subtree_end
}

/// A point-in-time observation of (part of) the accessibility tree, in
/// depth-first order.
#[derive(Debug, Clone)]
pub struct UiSnapshot {
    nodes: Vec<ElementNode>,
}

impl View for UiSnapshot {
    type V = Seq<ElementNode>;

    closed spec fn view(&self) -> Seq<ElementNode> {
        self.nodes@
    }
}

impl UiSnapshot {
    /// The snapshot is a well-formed forest.
    pub open spec fn wf(&self) -> bool {
        nodes_wf(self@)
    }

    /// Builds a snapshot from entries in depth-first order, checking that
    /// they form a forest; returns `None` exactly when they do not.
    pub fn from_nodes(nodes: Vec<ElementNode>) -> (r: Option<UiSnapshot>)
        ensures
            r matches Some(s) ==> s@ == nodes@ && s.wf(),
            r is None ==> !nodes_wf(nodes@),
    {
        let n = nodes.len();
        let mut i: usize = 0;
        while i < n
            invariant
                n == nodes@.len(),
                i <= n,
                forall|ii: int| 0 <= ii < i ==> ii < #[trigger] nodes@[ii].subtree_end <= n,
                forall|ii: int, jj: int|
                    0 <= ii < i && ii < jj < nodes@[ii].subtree_end ==> #[trigger] nodes@[jj].subtree_end
                        <= #[trigger] nodes@[ii].subtree_end,
            decreases n - i,
        {
            let end_i = nodes[i].subtree_end;
            if end_i <= i || end_i > n {
                return None;
            }
            let mut j: usize = i + 1;
            while j < end_i
                invariant
                    n == nodes@.len(),
                    i < j,
                    i < end_i <= n,
                    end_i == nodes@[i as int].subtree_end,
                    forall|jj: int|
                        i < jj < j ==> #[trigger] nodes@[jj].subtree_end <= nodes@[i as int].subtree_end,
                decreases end_i - j,
            {
                if nodes[j].subtree_end > end_i {
                    return None;
                }
                j += 1;
            }
            i += 1;
        }
        Some(UiSnapshot { nodes })
    }

    /// How many elements the snapshot holds.
    pub fn len(&self) -> (n: usize)
        ensures
            n == self@.len(),
    {
        self.nodes.len()
    }

    /// The properties of the element at position `i` of the tree order.
    pub fn props(&self, i: usize) -> (p: &ElementProps)
        requires
            i < self@.len(),
        ensures
            *p == self@[i as int].props,
    {
        &self.nodes[i].props
    }

    /// The exclusive end of the subtree rooted at position `i`.
    pub fn subtree_end(&self, i: usize) -> (e: usize)
        requires
            i < self@.len(),
        ensures
            e == self@[i as int].subtree_end,
    {
        self.nodes[i].subtree_end
    }
}

} // verus!
