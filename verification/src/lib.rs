//! A collapsible, editable tree of labelled nodes, addressed by index paths.
//!
//! A [`tree::Node`] carries a label, an open/closed flag, and an ordered list
//! of child nodes. A [`TreeDemo`] holds a forest of such nodes together with
//! the state of an in-progress label edit, and [`TreeDemo::update`] applies a
//! [`Message`] to it. Every operation is addressed by a path: a sequence of
//! child indices descending from a root.

use vstd::prelude::*;

pub mod tree;

verus! {

use crate::tree::Node;
use crate::tree::add_child_rel;
use crate::tree::forest_add_child_at;
use crate::tree::forest_at;
use crate::tree::forest_child_index_ok;
use crate::tree::forest_relabel_at;
use crate::tree::forest_remove_child_at;
use crate::tree::forest_toggle_at;
use crate::tree::forest_updated_at;
use crate::tree::relabel_rel;
use crate::tree::remove_child_rel;
use crate::tree::toggle_rel;

/// An event the tree demo reacts to, each addressed by a path of child
/// indices descending from a root.
#[derive(Debug, Clone)]
pub enum Message {
    Toggle(Vec<usize>),
    StartEdit(Vec<usize>),
    EditLabel(String),
    FinishEdit,
    AddChild(Vec<usize>),
    RemoveChild(Vec<usize>),
}

/// The state of the tree demo: the roots of the forest and the state of an
/// in-progress label edit, if any.
pub struct TreeDemo {
    pub roots: Vec<Node>,
    pub editing_path: Option<Vec<usize>>,
    pub edit_value: String,
}

/// The forest every [`TreeDemo`] starts from: two roots, open, each with two
/// closed branches; the first branch of the first root carries two leaves,
/// the second one.
pub open spec fn is_initial_forest(roots: Seq<Node>) -> bool {
    &&& roots.len() == 2
    &&& roots[0].label@ == "Root 1"@
    &&& roots[0].open
    &&& roots[0].children@.len() == 2
    &&& roots[0].children@[0].label@ == "Branch 1.1"@
    &&& !roots[0].children@[0].open
    &&& roots[0].children@[0].children@.len() == 2
    &&& roots[0].children@[0].children@[0].label@ == "Leaf 1.1.1"@
    &&& !roots[0].children@[0].children@[0].open
    &&& roots[0].children@[0].children@[0].children@.len() == 0
    &&& roots[0].children@[0].children@[1].label@ == "Leaf 1.1.2"@
    &&& !roots[0].children@[0].children@[1].open
    &&& roots[0].children@[0].children@[1].children@.len() == 0
    &&& roots[0].children@[1].label@ == "Branch 1.2"@
    &&& !roots[0].children@[1].open
    &&& roots[0].children@[1].children@.len() == 1
    &&& roots[0].children@[1].children@[0].label@ == "Leaf 1.2.1"@
    &&& !roots[0].children@[1].children@[0].open
    &&& roots[0].children@[1].children@[0].children@.len() == 0
    &&& roots[1].label@ == "Root 2"@
    &&& roots[1].open
    &&& roots[1].children@.len() == 2
    &&& roots[1].children@[0].label@ == "Branch 2.1"@
    &&& !roots[1].children@[0].open
    &&& roots[1].children@[0].children@.len() == 0
    &&& roots[1].children@[1].label@ == "Branch 2.2"@
    &&& !roots[1].children@[1].open
    &&& roots[1].children@[1].children@.len() == 0
}

/// Whether the `RemoveChild` message with this `path` removes anything: the
/// path must name at least a parent and a child index, the parent must exist,
/// and the index must be one of its children.
pub open spec fn can_remove(roots: Seq<Node>, path: Seq<usize>) -> bool {
    &&& path.len() >= 2
    &&& forest_child_index_ok(roots, path.drop_last(), path.last() as int)
}

impl TreeDemo {
    /// The demo in its starting state: the initial forest and no edit in
    /// progress.
    pub fn new() -> (demo: TreeDemo)
        ensures
            is_initial_forest(demo.roots@),
            demo.editing_path is None,
            demo.edit_value@ == Seq::<char>::empty(),
    {
        let leaf111 = Node::new("Leaf 1.1.1", false, Vec::new());
        let leaf112 = Node::new("Leaf 1.1.2", false, Vec::new());
        let mut branch11_children: Vec<Node> = Vec::new();
        branch11_children.push(leaf111);
        branch11_children.push(leaf112);
        let branch11 = Node::new("Branch 1.1", false, branch11_children);

        let leaf121 = Node::new("Leaf 1.2.1", false, Vec::new());
        let mut branch12_children: Vec<Node> = Vec::new();
        branch12_children.push(leaf121);
        let branch12 = Node::new("Branch 1.2", false, branch12_children);

        let mut root1_children: Vec<Node> = Vec::new();
        root1_children.push(branch11);
        root1_children.push(branch12);
        let root1 = Node::new("Root 1", true, root1_children);

        let branch21 = Node::new("Branch 2.1", false, Vec::new());
        let branch22 = Node::new("Branch 2.2", false, Vec::new());
        let mut root2_children: Vec<Node> = Vec::new();
        root2_children.push(branch21);
        root2_children.push(branch22);
        let root2 = Node::new("Root 2", true, root2_children);

        let mut roots: Vec<Node> = Vec::new();
        roots.push(root1);
        roots.push(root2);

        TreeDemo { roots, editing_path: None, edit_value: String::new() }
    }

    /// Looks up the node at `path`: the first element picks a root, later
    /// elements descend through children. The empty path, or any index out of
    /// bounds, names no node.
    pub fn get_node(&self, path: &[usize]) -> (r: Option<&Node>)
        ensures
            match r {
                Some(n) => forest_at(self.roots@, path@) == Some(*n),
                None => forest_at(self.roots@, path@) is None,
            },
    {
        if path.is_empty() {
            None
        } else {
            let i: usize = *vstd::slice::slice_index_get(path, 0);
            if i < self.roots.len() {
                proof {
                    assert(path@.skip(1) =~= path@.drop_first());
                }
                crate::tree::node_get(&self.roots[i], path, 1)
            } else {
                None
            }
        }
    }

    /// Flips the open flag of the node at `path`; a path that names no node
    /// leaves the demo as it is.
    pub fn toggle_at(&mut self, path: &[usize]) -> (ok: bool)
        ensures
            ok == (forest_at(old(self).roots@, path@) is Some),
            ok ==> forest_updated_at(old(self).roots@, final(self).roots@, path@, toggle_rel()),
            !ok ==> final(self).roots == old(self).roots,
            final(self).editing_path == old(self).editing_path,
            final(self).edit_value == old(self).edit_value,
    {
        let ok = self.get_node(path).is_some();
        if ok {
            forest_toggle_at(&mut self.roots, path);
        }
        ok
    }

    /// Replaces the label of the node at `path` by `label`; a path that names
    /// no node leaves the demo as it is.
    pub fn set_label_at(&mut self, path: &[usize], label: String) -> (ok: bool)
        ensures
            ok == (forest_at(old(self).roots@, path@) is Some),
            ok ==> forest_updated_at(
                old(self).roots@,
                final(self).roots@,
                path@,
                relabel_rel(label@),
            ),
            !ok ==> final(self).roots == old(self).roots,
            final(self).editing_path == old(self).editing_path,
            final(self).edit_value == old(self).edit_value,
    {
        let ok = self.get_node(path).is_some();
        if ok {
            forest_relabel_at(&mut self.roots, path, label);
        }
        ok
    }

    /// Appends a fresh node to the children of the node at `path` and opens
    /// it, so that the new child is rendered; a path that names no node
    /// leaves the demo as it is.
    pub fn add_child_at(&mut self, path: &[usize]) -> (ok: bool)
        ensures
            ok == (forest_at(old(self).roots@, path@) is Some),
            ok ==> forest_updated_at(old(self).roots@, final(self).roots@, path@, add_child_rel()),
            !ok ==> final(self).roots == old(self).roots,
            final(self).editing_path == old(self).editing_path,
            final(self).edit_value == old(self).edit_value,
    {
        let ok = self.get_node(path).is_some();
        if ok {
            forest_add_child_at(&mut self.roots, path);
        }
        ok
    }

    /// Removes the node at `path` from its parent's children. The last path
    /// element is the child index, the rest name the parent; roots cannot be
    /// removed. A path that names no child leaves the demo as it is.
    pub fn remove_child_at(&mut self, path: &[usize]) -> (ok: bool)
        ensures
            ok == can_remove(old(self).roots@, path@),
            ok ==> forest_updated_at(
                old(self).roots@,
                final(self).roots@,
                path@.drop_last(),
                remove_child_rel(path@.last() as int),
            ),
            !ok ==> final(self).roots == old(self).roots,
            final(self).editing_path == old(self).editing_path,
            final(self).edit_value == old(self).edit_value,
    {
        if path.len() < 2 {
            return false;
        }
        let last: usize = path.len() - 1;
        let index: usize = *vstd::slice::slice_index_get(path, last);
        let parent: &[usize] = vstd::slice::slice_subrange(path, 0, last);
        proof {
            assert(parent@ =~= path@.drop_last());
        }
        let ok = match self.get_node(parent) {
            Some(p) => index < p.children.len(),
            None => false,
        };
        if ok {
            forest_remove_child_at(&mut self.roots, parent, index);
        }
        ok
    }

    /// Applies one message to the demo.
    ///
    /// `Toggle`, `AddChild` and `RemoveChild` act on the forest through the
    /// corresponding path-addressed operation. `StartEdit` copies the target
    /// node's label into the edit buffer and remembers the path; `EditLabel`
    /// replaces the buffer; `FinishEdit` writes the buffer back to the
    /// remembered node, if any, and clears the edit state. Messages whose
    /// path names no node leave the forest unchanged.
    pub fn update(&mut self, message: Message)
        ensures
            match message {
                Message::Toggle(path) => {
                    &&& final(self).editing_path == old(self).editing_path
                    &&& final(self).edit_value == old(self).edit_value
                    &&& (if forest_at(old(self).roots@, path@) is Some {
                        forest_updated_at(old(self).roots@, final(self).roots@, path@, toggle_rel())
                    } else {
                        final(self).roots == old(self).roots
                    })
                },
                Message::StartEdit(path) => {
                    &&& final(self).roots == old(self).roots
                    &&& (match forest_at(old(self).roots@, path@) {
                        Some(n) => {
                            &&& final(self).edit_value == n.label
                            &&& final(self).editing_path == Some(path)
                        },
                        None => {
                            &&& final(self).edit_value == old(self).edit_value
                            &&& final(self).editing_path == old(self).editing_path
                        },
                    })
                },
                Message::EditLabel(value) => {
                    &&& final(self).roots == old(self).roots
                    &&& final(self).editing_path == old(self).editing_path
                    &&& final(self).edit_value == value
                },
                Message::FinishEdit => {
                    &&& final(self).editing_path is None
                    &&& final(self).edit_value@ == Seq::<char>::empty()
                    &&& (match old(self).editing_path {
                        Some(p) => (if forest_at(old(self).roots@, p@) is Some {
                            forest_updated_at(
                                old(self).roots@,
                                final(self).roots@,
                                p@,
                                relabel_rel(old(self).edit_value@),
                            )
                        } else {
                            final(self).roots == old(self).roots
                        }),
                        None => final(self).roots == old(self).roots,
                    })
                },
                Message::AddChild(path) => {
                    &&& final(self).editing_path == old(self).editing_path
                    &&& final(self).edit_value == old(self).edit_value
                    &&& (if forest_at(old(self).roots@, path@) is Some {
                        forest_updated_at(
                            old(self).roots@,
                            final(self).roots@,
                            path@,
                            add_child_rel(),
                        )
                    } else {
                        final(self).roots == old(self).roots
                    })
                },
                Message::RemoveChild(path) => {
                    &&& final(self).editing_path == old(self).editing_path
                    &&& final(self).edit_value == old(self).edit_value
                    &&& (if can_remove(old(self).roots@, path@) {
                        forest_updated_at(
                            old(self).roots@,
                            final(self).roots@,
                            path@.drop_last(),
                            remove_child_rel(path@.last() as int),
                        )
                    } else {
                        final(self).roots == old(self).roots
                    })
                },
            },
    {
        match message {
            Message::Toggle(path) => {
                self.toggle_at(path.as_slice());
            },
            Message::StartEdit(path) => {
                let mut found = false;
                let mut label = String::new();
                match self.get_node(path.as_slice()) {
                    Some(node) => {
                        label = node.label.clone();
                        found = true;
                    },
                    None => {},
                }
                if found {
                    self.edit_value = label;
                    self.editing_path = Some(path);
                }
            },
            Message::EditLabel(value) => {
                self.edit_value = value;
            },
            Message::FinishEdit => {
                let target = self.editing_path.take();
                let mut label = String::new();
                core::mem::swap(&mut label, &mut self.edit_value);
                match target {
                    Some(path) => {
                        self.set_label_at(path.as_slice(), label);
                    },
                    None => {},
                }
            },
            Message::AddChild(path) => {
                self.add_child_at(path.as_slice());
            },
            Message::RemoveChild(path) => {
                self.remove_child_at(path.as_slice());
            },
        }
    }
}

impl Default for TreeDemo {
    /// The same state as [`TreeDemo::new`].
    fn default() -> (demo: Self)
        ensures
            is_initial_forest(demo.roots@),
            demo.editing_path is None,
            demo.edit_value@ == Seq::<char>::empty(),
    {
        TreeDemo::new()
    }
}

} // verus!
