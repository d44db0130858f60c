//! The tree itself: nodes, path lookup, and path-addressed updates.
//!
//! A path is a sequence of child indices. At the level of a single node the
//! empty path names the node itself; at the level of a forest the first path
//! element picks a root and the empty path names nothing.
//!
//! Updates are specified relationally: [`updated_at`] says that a tree after
//! an update differs from the tree before it only along `path`, and that the
//! node the path reaches satisfies a given relation between its old and new
//! value.

use vstd::prelude::*;

verus! {

use vstd::pervasive::VecAdditionalExecFns;

/// A tree element: a label, an open/closed flag controlling whether its
/// children are rendered, and an ordered list of child nodes.
#[derive(Debug)]
pub struct Node {
    pub label: String,
    pub open: bool,
    pub children: Vec<Node>,
}

/// The node reached from `n` by descending through the child indices of
/// `path`; `None` as soon as an index is out of bounds.
pub open spec fn node_at(n: Node, path: Seq<usize>) -> Option<Node>
    decreases path.len(),
{
    if path.len() == 0 {
        Some(n)
    } else if (path[0] as int) < n.children@.len() {
        node_at(n.children@[path[0] as int], path.drop_first())
    } else {
        None
    }
}

/// Relates a tree before (`pre`) and after (`post`) an update of the node at
/// `path`: that node's old and new values satisfy `rel`, and everything off
/// the path is unchanged. Holds only when `path` names a node of `pre`.
pub open spec fn updated_at(
    pre: Node,
    post: Node,
    path: Seq<usize>,
    rel: spec_fn(Node, Node) -> bool,
) -> bool
    decreases path.len(),
{
    if path.len() == 0 {
        rel(pre, post)
    } else {
        let i = path[0] as int;
        &&& 0 <= i < pre.children@.len()
        &&& post.label == pre.label
        &&& post.open == pre.open
        &&& post.children@.len() == pre.children@.len()
        &&& (forall|j: int|
            0 <= j < pre.children@.len() && j != i ==> post.children@[j] == pre.children@[j])
        &&& updated_at(pre.children@[i], post.children@[i], path.drop_first(), rel)
    }
}

/// The node reached from the forest `roots`: the first path element picks the
/// root, the rest descend through children. The empty path names no node.
pub open spec fn forest_at(roots: Seq<Node>, path: Seq<usize>) -> Option<Node> {
    if path.len() == 0 {
        None
    } else if (path[0] as int) < roots.len() {
        node_at(roots[path[0] as int], path.drop_first())
    } else {
        None
    }
}

/// [`updated_at`], lifted to a forest: the root picked by `path` is updated,
/// all other roots are unchanged.
pub open spec fn forest_updated_at(
    pre: Seq<Node>,
    post: Seq<Node>,
    path: Seq<usize>,
    rel: spec_fn(Node, Node) -> bool,
) -> bool {
    &&& path.len() >= 1
    &&& (path[0] as int) < pre.len()
    &&& post.len() == pre.len()
    &&& (forall|j: int| 0 <= j < pre.len() && j != path[0] as int ==> post[j] == pre[j])
    &&& updated_at(pre[path[0] as int], post[path[0] as int], path.drop_first(), rel)
}

/// The target's open flag is flipped; label and children stay.
pub open spec fn toggle_rel() -> spec_fn(Node, Node) -> bool {
    |pre: Node, post: Node|
        {
            &&& post.label == pre.label
            &&& post.open == !pre.open
            &&& post.children == pre.children
        }
}

/// The target's label becomes `label`; open flag and children stay.
pub open spec fn relabel_rel(label: Seq<char>) -> spec_fn(Node, Node) -> bool {
    |pre: Node, post: Node|
        {
            &&& post.label@ == label
            &&& post.open == pre.open
            &&& post.children == pre.children
        }
}

/// The label every freshly inserted child starts with.
pub open spec fn fresh_label() -> Seq<char> {
    "New Node"@
}

/// A node as [`add_child_rel`] appends it: freshly labelled, closed, childless.
pub open spec fn is_fresh_node(n: Node) -> bool {
    &&& n.label@ == fresh_label()
    &&& !n.open
    &&& n.children@.len() == 0
}

/// The target gains a fresh node after its existing children and is opened,
/// so that the new child is rendered.
pub open spec fn add_child_rel() -> spec_fn(Node, Node) -> bool {
    |pre: Node, post: Node|
        {
            &&& post.label == pre.label
            &&& post.open
            &&& post.children@.len() == pre.children@.len() + 1
            &&& (forall|j: int|
                0 <= j < pre.children@.len() ==> post.children@[j] == pre.children@[j])
            &&& is_fresh_node(post.children@[pre.children@.len() as int])
        }
}

/// The target loses its child at `index`; label and open flag stay.
pub open spec fn remove_child_rel(index: int) -> spec_fn(Node, Node) -> bool {
    |pre: Node, post: Node|
        {
            &&& 0 <= index < pre.children@.len()
            &&& post.label == pre.label
            &&& post.open == pre.open
            &&& post.children@ == pre.children@.remove(index)
        }
}

/// Whether `path` names a node of `n` whose children include `index`.
pub open spec fn node_child_index_ok(n: Node, path: Seq<usize>, index: int) -> bool {
    match node_at(n, path) {
        Some(t) => 0 <= index < t.children@.len(),
        None => false,
    }
}

/// Whether `path` names a node of the forest whose children include `index`.
pub open spec fn forest_child_index_ok(roots: Seq<Node>, path: Seq<usize>, index: int) -> bool {
    match forest_at(roots, path) {
        Some(t) => 0 <= index < t.children@.len(),
        None => false,
    }
}

impl Node {
    /// A node with the given label, open flag and children.
    pub fn new(label: &str, open: bool, children: Vec<Node>) -> (n: Node)
        ensures
            n.label@ == label@,
            n.open == open,
            n.children == children,
    {
        Node { label: label.to_owned(), open, children }
    }

    /// Appends `child` after the existing children.
    pub fn add_child(&mut self, child: Node)
        ensures
            final(self).label == old(self).label,
            final(self).open == old(self).open,
            final(self).children@ == old(self).children@.push(child),
    {
        self.children.push(child);
    }

    /// Removes the child at `index`; an index past the end leaves the node as
    /// it is.
    pub fn remove_child(&mut self, index: usize)
        ensures
            final(self).label == old(self).label,
            final(self).open == old(self).open,
            (index as int) < old(self).children@.len() ==> final(self).children@ == old(
                self,
            ).children@.remove(index as int),
            (index as int) >= old(self).children@.len() ==> final(self).children == old(
                self,
            ).children,
    {
        if index < self.children.len() {
            self.children.remove(index);
        }
    }
}

/// Follows `path` from position `from` on, descending from `n`.
pub(crate) fn node_get<'a>(n: &'a Node, path: &[usize], from: usize) -> (r: Option<&'a Node>)
    requires
        from <= path@.len(),
    ensures
        match r {
            Some(m) => node_at(*n, path@.skip(from as int)) == Some(*m),
            None => node_at(*n, path@.skip(from as int)) is None,
        },
    decreases path@.len() - from,
{
    if from == path.len() {
        Some(n)
    } else {
        let i: usize = *vstd::slice::slice_index_get(path, from);
        proof {
            assert(path@.skip(from as int).drop_first() =~= path@.skip(from as int + 1));
        }
        if i < n.children.len() {
            node_get(&n.children[i], path, from + 1)
        } else {
            None
        }
    }
}

/// Swaps the child at `i` of `n` with `child`. Used to take ownership of a
/// child before a recursive update and to put the updated child back.
fn swap_child(n: &mut Node, i: usize, child: &mut Node)
    requires
        i < old(n).children@.len(),
    ensures
        final(n).label == old(n).label,
        final(n).open == old(n).open,
        final(n).children@ == old(n).children@.update(i as int, *old(child)),
        *final(child) == old(n).children@[i as int],
{
    n.children.set_and_swap(i, child);
}

/// Flips the open flag of the node that `path` (from position `from` on)
/// reaches from `n`.
pub(crate) fn node_toggle_at(n: &mut Node, path: &[usize], from: usize)
    requires
        from <= path@.len(),
        node_at(*old(n), path@.skip(from as int)) is Some,
    ensures
        updated_at(*old(n), *final(n), path@.skip(from as int), toggle_rel()),
    decreases path@.len() - from,
{
    if from == path.len() {
        n.open = !n.open;
    } else {
        let i: usize = *vstd::slice::slice_index_get(path, from);
        proof {
            assert(path@.skip(from as int).drop_first() =~= path@.skip(from as int + 1));
        }
        let mut child = Node::new("", false, Vec::new());
        swap_child(n, i, &mut child);
        node_toggle_at(&mut child, path, from + 1);
        swap_child(n, i, &mut child);
    }
}

/// Replaces the label of the node that `path` (from position `from` on)
/// reaches from `n`.
pub(crate) fn node_relabel_at(n: &mut Node, path: &[usize], from: usize, label: String)
    requires
        from <= path@.len(),
        node_at(*old(n), path@.skip(from as int)) is Some,
    ensures
        updated_at(*old(n), *final(n), path@.skip(from as int), relabel_rel(label@)),
    decreases path@.len() - from,
{
    if from == path.len() {
        n.label = label;
    } else {
        let i: usize = *vstd::slice::slice_index_get(path, from);
        proof {
            assert(path@.skip(from as int).drop_first() =~= path@.skip(from as int + 1));
        }
        let mut child = Node::new("", false, Vec::new());
        swap_child(n, i, &mut child);
        node_relabel_at(&mut child, path, from + 1, label);
        swap_child(n, i, &mut child);
    }
}

/// Appends a fresh node to the node that `path` (from position `from` on)
/// reaches from `n`, and opens it.
pub(crate) fn node_add_child_at(n: &mut Node, path: &[usize], from: usize)
    requires
        from <= path@.len(),
        node_at(*old(n), path@.skip(from as int)) is Some,
    ensures
        updated_at(*old(n), *final(n), path@.skip(from as int), add_child_rel()),
    decreases path@.len() - from,
{
    if from == path.len() {
        let fresh = Node::new("New Node", false, Vec::new());
        n.add_child(fresh);
        n.open = true;
    } else {
        let i: usize = *vstd::slice::slice_index_get(path, from);
        proof {
            assert(path@.skip(from as int).drop_first() =~= path@.skip(from as int + 1));
        }
        let mut child = Node::new("", false, Vec::new());
        swap_child(n, i, &mut child);
        node_add_child_at(&mut child, path, from + 1);
        swap_child(n, i, &mut child);
    }
}

/// Removes the child at `index` of the node that `path` (from position `from`
/// on) reaches from `n`.
pub(crate) fn node_remove_child_at(n: &mut Node, path: &[usize], from: usize, index: usize)
    requires
        from <= path@.len(),
        node_child_index_ok(*old(n), path@.skip(from as int), index as int),
    ensures
        updated_at(*old(n), *final(n), path@.skip(from as int), remove_child_rel(index as int)),
    decreases path@.len() - from,
{
    if from == path.len() {
        n.remove_child(index);
    } else {
        let i: usize = *vstd::slice::slice_index_get(path, from);
        proof {
            assert(path@.skip(from as int).drop_first() =~= path@.skip(from as int + 1));
        }
        let mut child = Node::new("", false, Vec::new());
        swap_child(n, i, &mut child);
        node_remove_child_at(&mut child, path, from + 1, index);
        swap_child(n, i, &mut child);
    }
}

/// Whether two paths part ways: at some position covered by both, they pick
/// different children.
pub open spec fn paths_diverge(a: Seq<usize>, b: Seq<usize>) -> bool {
    exists|k: int| 0 <= k < a.len() && k < b.len() && a[k] != b[k]
}

/// After an update along `path`, the node that `path` reaches satisfies the
/// relation with its old value; in particular both trees have a node there.
pub proof fn lemma_updated_at_target(
    pre: Node,
    post: Node,
    path: Seq<usize>,
    rel: spec_fn(Node, Node) -> bool,
)
    requires
        updated_at(pre, post, path, rel),
    ensures
        node_at(pre, path) is Some,
        node_at(post, path) is Some,
        rel(node_at(pre, path)->Some_0, node_at(post, path)->Some_0),
    decreases path.len(),
{
    if path.len() > 0 {
        lemma_updated_at_target(
            pre.children@[path[0] as int],
            post.children@[path[0] as int],
            path.drop_first(),
            rel,
        );
    }
}

/// An update along `path` leaves every node on a path that parts ways with it
/// exactly as it was.
pub proof fn lemma_updated_at_diverged(
    pre: Node,
    post: Node,
    path: Seq<usize>,
    rel: spec_fn(Node, Node) -> bool,
    other: Seq<usize>,
)
    requires
        updated_at(pre, post, path, rel),
        paths_diverge(path, other),
    ensures
        node_at(post, other) == node_at(pre, other),
    decreases path.len(),
{
    let k = choose|k: int| 0 <= k < path.len() && k < other.len() && path[k] != other[k];
    if other[0] == path[0] {
        let i = path[0] as int;
        assert(path.drop_first()[k - 1] != other.drop_first()[k - 1]);
        lemma_updated_at_diverged(
            pre.children@[i],
            post.children@[i],
            path.drop_first(),
            rel,
            other.drop_first(),
        );
    }
}

/// [`lemma_updated_at_target`], lifted to a forest.
pub proof fn lemma_forest_updated_at_target(
    pre: Seq<Node>,
    post: Seq<Node>,
    path: Seq<usize>,
    rel: spec_fn(Node, Node) -> bool,
)
    requires
        forest_updated_at(pre, post, path, rel),
    ensures
        forest_at(pre, path) is Some,
        forest_at(post, path) is Some,
        rel(forest_at(pre, path)->Some_0, forest_at(post, path)->Some_0),
{
    lemma_updated_at_target(pre[path[0] as int], post[path[0] as int], path.drop_first(), rel);
}

/// [`lemma_updated_at_diverged`], lifted to a forest.
pub proof fn lemma_forest_updated_at_diverged(
    pre: Seq<Node>,
    post: Seq<Node>,
    path: Seq<usize>,
    rel: spec_fn(Node, Node) -> bool,
    other: Seq<usize>,
)
    requires
        forest_updated_at(pre, post, path, rel),
        paths_diverge(path, other),
    ensures
        forest_at(post, other) == forest_at(pre, other),
{
    if other.len() > 0 && other[0] == path[0] {
        let k = choose|k: int| 0 <= k < path.len() && k < other.len() && path[k] != other[k];
        assert(path.drop_first()[k - 1] != other.drop_first()[k - 1]);
        lemma_updated_at_diverged(
            pre[path[0] as int],
            post[path[0] as int],
            path.drop_first(),
            rel,
            other.drop_first(),
        );
    }
}

/// Swaps the root at `i` with `root`, as [`swap_child`] does for a child.
fn swap_root(roots: &mut Vec<Node>, i: usize, root: &mut Node)
    requires
        i < old(roots)@.len(),
    ensures
        final(roots)@ == old(roots)@.update(i as int, *old(root)),
        *final(root) == old(roots)@[i as int],
{
    roots.set_and_swap(i, root);
}

/// Flips the open flag of the node at `path` in the forest.
pub(crate) fn forest_toggle_at(roots: &mut Vec<Node>, path: &[usize])
    requires
        forest_at(old(roots)@, path@) is Some,
    ensures
        forest_updated_at(old(roots)@, final(roots)@, path@, toggle_rel()),
{
    proof {
        assert(path@.skip(1) =~= path@.drop_first());
    }
    let i: usize = *vstd::slice::slice_index_get(path, 0);
    let mut root = Node::new("", false, Vec::new());
    swap_root(roots, i, &mut root);
    node_toggle_at(&mut root, path, 1);
    swap_root(roots, i, &mut root);
}

/// Replaces the label of the node at `path` in the forest.
pub(crate) fn forest_relabel_at(roots: &mut Vec<Node>, path: &[usize], label: String)
    requires
        forest_at(old(roots)@, path@) is Some,
    ensures
        forest_updated_at(old(roots)@, final(roots)@, path@, relabel_rel(label@)),
{
    proof {
        assert(path@.skip(1) =~= path@.drop_first());
    }
    let i: usize = *vstd::slice::slice_index_get(path, 0);
    let mut root = Node::new("", false, Vec::new());
    swap_root(roots, i, &mut root);
    node_relabel_at(&mut root, path, 1, label);
    swap_root(roots, i, &mut root);
}

/// Appends a fresh node to the node at `path` in the forest, and opens it.
pub(crate) fn forest_add_child_at(roots: &mut Vec<Node>, path: &[usize])
    requires
        forest_at(old(roots)@, path@) is Some,
    ensures
        forest_updated_at(old(roots)@, final(roots)@, path@, add_child_rel()),
{
    proof {
        assert(path@.skip(1) =~= path@.drop_first());
    }
    let i: usize = *vstd::slice::slice_index_get(path, 0);
    let mut root = Node::new("", false, Vec::new());
    swap_root(roots, i, &mut root);
    node_add_child_at(&mut root, path, 1);
    swap_root(roots, i, &mut root);
}

/// Removes the child at `index` of the node at `path` in the forest.
pub(crate) fn forest_remove_child_at(roots: &mut Vec<Node>, path: &[usize], index: usize)
    requires
        forest_child_index_ok(old(roots)@, path@, index as int),
    ensures
        forest_updated_at(old(roots)@, final(roots)@, path@, remove_child_rel(index as int)),
{
    proof {
        assert(path@.skip(1) =~= path@.drop_first());
    }
    let i: usize = *vstd::slice::slice_index_get(path, 0);
    let mut root = Node::new("", false, Vec::new());
    swap_root(roots, i, &mut root);
    node_remove_child_at(&mut root, path, 1, index);
    swap_root(roots, i, &mut root);
}

} // verus!
