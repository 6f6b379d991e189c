//! The editor's tree commands: add a child or a sibling to the selected
//! node, delete it, and move the selection to the parent or a neighbour.
//! Every command keeps a valid selection valid, and each one touches only
//! the part of the tree it is about.

use vstd::prelude::*;
use crate::config::{
    is_leaf_default, is_valid_path, leaves, node_at, same_but_children, same_settings, sanitized,
    FlexConfig, NodeConfig,
};
use crate::fmt::{nat_text, push_usize};

verus! {

/// The path of the parent of the node at a non-empty `path`.
pub open spec fn parent_path(path: Seq<usize>) -> Seq<usize> {
    path.subrange(0, path.len() - 1)
}

/// The label of a new node: `node` followed by one more than the number of
/// leaves of the tree.
pub open spec fn new_node_label(root: NodeConfig) -> Seq<char> {
    "node"@ + nat_text(leaves(root) + 1)
}

/// Whether `after` is `before` with one more child, an 80 by 80 px leaf
/// labelled `label`, after the children of the node at `path`; nothing else
/// differs.
pub open spec fn child_added_at(before: NodeConfig, after: NodeConfig, path: Seq<usize>, label: Seq<char>) -> bool
    decreases path.len(),
{
    if path.len() == 0 {
        let n = before.children@.len();
        &&& same_but_children(before, after)
        &&& after.children@.len() == n + 1
        &&& after.children@.subrange(0, n as int) == before.children@
        &&& after.children@[n as int].label@ == label
        &&& is_leaf_default(after.children@[n as int], 800, 800)
    } else if path[0] < before.children@.len() {
        let k = path[0] as int;
        &&& same_but_children(before, after)
        &&& after.children@ == before.children@.update(k, after.children@[k])
        &&& child_added_at(
            before.children@[k],
            after.children@[k],
            path.subrange(1, path.len() as int),
            label,
        )
    } else {
        false
    }
}

/// Whether `after` is `before` without the `i`-th child of the node at
/// `path`; nothing else differs.
pub open spec fn child_removed_at(before: NodeConfig, after: NodeConfig, path: Seq<usize>, i: int) -> bool
    decreases path.len(),
{
    if path.len() == 0 {
        same_but_children(before, after) && after.children@ == before.children@.remove(i)
    } else if path[0] < before.children@.len() {
        let k = path[0] as int;
        &&& same_but_children(before, after)
        &&& after.children@ == before.children@.update(k, after.children@[k])
        &&& child_removed_at(
            before.children@[k],
            after.children@[k],
            path.subrange(1, path.len() as int),
            i,
        )
    } else {
        false
    }
}

/// Whether deleting the selected node would index past the end of its
/// parent's children: the parent exists but the selected node does not.
pub open spec fn deletion_overruns(cfg: FlexConfig) -> bool {
    let sel = cfg.selection();
    sel.len() > 0 && is_valid_path(cfg.root, parent_path(sel)) && !is_valid_path(cfg.root, sel)
}

/// After a child is added at `path`, the path still leads to a node, and so
/// does the path of the new child.
pub proof fn lemma_added_paths(before: NodeConfig, after: NodeConfig, path: Seq<usize>, label: Seq<char>)
    requires
        child_added_at(before, after, path, label),
    ensures
        is_valid_path(after, path),
        is_valid_path(before, path),
    decreases path.len(),
{
    if path.len() > 0 {
        let k = path[0] as int;
        lemma_added_paths(
            before.children@[k],
            after.children@[k],
            path.subrange(1, path.len() as int),
            label,
        );
    }
}

/// After a child is added at `path`, the node there has one more child
/// than before.
pub proof fn lemma_added_count(before: NodeConfig, after: NodeConfig, path: Seq<usize>, label: Seq<char>)
    requires
        child_added_at(before, after, path, label),
    ensures
        node_at(before, path) is Some,
        node_at(after, path) is Some,
        node_at(after, path)->0.children@.len() == node_at(before, path)->0.children@.len() + 1,
    decreases path.len(),
{
    if path.len() > 0 {
        let k = path[0] as int;
        lemma_added_count(
            before.children@[k],
            after.children@[k],
            path.subrange(1, path.len() as int),
            label,
        );
    }
}

/// After a child of the node at `path` is removed, the path still leads to
/// a node.
pub proof fn lemma_removed_paths(before: NodeConfig, after: NodeConfig, path: Seq<usize>, i: int)
    requires
        child_removed_at(before, after, path, i),
    ensures
        is_valid_path(after, path),
    decreases path.len(),
{
    if path.len() > 0 {
        let k = path[0] as int;
        lemma_removed_paths(
            before.children@[k],
            after.children@[k],
            path.subrange(1, path.len() as int),
            i,
        );
    }
}

/// Appends `leaf` to the children of the node at a valid `path`.
fn push_child(node: &mut NodeConfig, path: &[usize], leaf: NodeConfig)
    requires
        is_valid_path(*old(node), path@),
        is_leaf_default(leaf, 800, 800),
    ensures
        child_added_at(*old(node), *final(node), path@, leaf.label@),
    decreases path@.len(),
{
    if path.len() == 0 {
        let ghost n = node.children@.len();
        node.children.push(leaf);
        assert(node.children@.subrange(0, n as int) =~= old(node).children@);
    } else {
        let k = path[0];
        let rest = vstd::slice::slice_subrange(path, 1, path.len());
        push_child(&mut node.children[k], rest, leaf);
    }
}

/// Removes the `i`-th child of the node at a valid `path`.
fn remove_child(node: &mut NodeConfig, path: &[usize], i: usize)
    requires
        node_at(*old(node), path@) matches Some(p) && i < p.children@.len(),
    ensures
        child_removed_at(*old(node), *final(node), path@, i as int),
    decreases path@.len(),
{
    if path.len() == 0 {
        node.children.remove(i);
    } else {
        let k = path[0];
        let rest = vstd::slice::slice_subrange(path, 1, path.len());
        remove_child(&mut node.children[k], rest, i);
    }
}

impl FlexConfig {
    /// Adds an 80 by 80 px leaf after the children of the selected node,
    /// labelled `node` and one more than the number of leaves. Returns
    /// whether the tree changed (it does not when the selection names no
    /// node).
    pub fn add_child(&mut self) -> (r: bool)
        requires
            leaves(old(self).root) < usize::MAX,
        ensures
            r == is_valid_path(old(self).root, old(self).selection()),
            r ==> child_added_at(
                old(self).root,
                final(self).root,
                old(self).selection(),
                new_node_label(old(self).root),
            ),
            !r ==> final(self).root == old(self).root,
            final(self).selection() == old(self).selection(),
            final(self).rebuild_pending() == old(self).rebuild_pending(),
            same_settings(*old(self), *final(self)),
            is_valid_path(old(self).root, old(self).selection()) ==> is_valid_path(
                final(self).root,
                final(self).selection(),
            ),
    {
        let n = self.root.count_leaves();
        let mut label = String::from_str("node");
        push_usize(&mut label, n + 1);
        let leaf = NodeConfig::new_leaf(label, 800, 800);
        if self.root.get(self.selected.as_slice()).is_none() {
            return false;
        }
        push_child(&mut self.root, self.selected.as_slice(), leaf);
        proof {
            lemma_added_paths(old(self).root, self.root, self.selected@, new_node_label(old(self).root));
        }
        true
    }

    /// Adds an 80 by 80 px leaf after the siblings of the selected node
    /// (labelled as [`FlexConfig::add_child`] labels). Returns whether the
    /// tree changed (it does not for the root or when the parent is
    /// missing).
    pub fn add_sibling(&mut self) -> (r: bool)
        requires
            leaves(old(self).root) < usize::MAX,
        ensures
            r == (old(self).selection().len() > 0 && is_valid_path(
                old(self).root,
                parent_path(old(self).selection()),
            )),
            r ==> child_added_at(
                old(self).root,
                final(self).root,
                parent_path(old(self).selection()),
                new_node_label(old(self).root),
            ),
            !r ==> final(self).root == old(self).root,
            final(self).selection() == old(self).selection(),
            final(self).rebuild_pending() == old(self).rebuild_pending(),
            same_settings(*old(self), *final(self)),
            is_valid_path(old(self).root, old(self).selection()) ==> is_valid_path(
                final(self).root,
                final(self).selection(),
            ),
    {
        if self.selected.len() == 0 {
            return false;
        }
        let n = self.root.count_leaves();
        let mut label = String::from_str("node");
        push_usize(&mut label, n + 1);
        let leaf = NodeConfig::new_leaf(label, 800, 800);
        let parent = vstd::slice::slice_subrange(self.selected.as_slice(), 0, self.selected.len() - 1);
        if self.root.get(parent).is_none() {
            return false;
        }
        let ghost sel = self.selected@;
        proof {
            assert(parent@ =~= parent_path(sel));
        }
        push_child(&mut self.root, parent, leaf);
        proof {
            if is_valid_path(old(self).root, sel) {
                lemma_parent_step(old(self).root, sel);
                lemma_added_count(old(self).root, self.root, parent_path(sel), new_node_label(old(self).root));
                lemma_child_path(self.root, parent_path(sel), sel.last());
                assert(parent_path(sel).push(sel.last()) =~= sel);
            }
        }
        true
    }

    /// Deletes the selected node and selects its parent; the root cannot be
    /// deleted. Returns whether anything was done (for any node but the
    /// root, even when its parent is missing).
    pub fn delete_selected(&mut self) -> (r: bool)
        requires
            !deletion_overruns(*old(self)),
        ensures
            r == (old(self).selection().len() > 0),
            r ==> final(self).selection() == parent_path(old(self).selection()),
            r ==> final(self).rebuild_pending(),
            r && is_valid_path(old(self).root, old(self).selection()) ==> child_removed_at(
                old(self).root,
                final(self).root,
                parent_path(old(self).selection()),
                old(self).selection().last() as int,
            ),
            r && !is_valid_path(old(self).root, old(self).selection()) ==> final(self).root
                == old(self).root,
            !r ==> *final(self) == *old(self),
            same_settings(*old(self), *final(self)),
            is_valid_path(old(self).root, old(self).selection()) ==> is_valid_path(
                final(self).root,
                final(self).selection(),
            ),
    {
        if self.selected.len() == 0 {
            return false;
        }
        let last = self.selected.len() - 1;
        let i = self.selected[last];
        let ghost sel = self.selected@;
        let parent = vstd::slice::slice_subrange(self.selected.as_slice(), 0, last);
        proof {
            assert(parent@ =~= parent_path(sel));
            if is_valid_path(self.root, sel) {
                lemma_prefix_valid(self.root, sel, sel.len() - 1);
            }
        }
        if self.root.get(parent).is_some() {
            proof {
                lemma_parent_step(self.root, sel);
            }
            remove_child(&mut self.root, parent, i);
            proof {
                lemma_removed_paths(old(self).root, self.root, parent_path(sel), i as int);
            }
        }
        self.selected.truncate(last);
        assert(self.selected@ =~= parent_path(sel));
        self.needs_rebuild = true;
        true
    }

    /// Selects the parent of the selected node (nothing happens at the
    /// root). Returns whether the selection moved.
    pub fn select_parent(&mut self) -> (r: bool)
        ensures
            r == (old(self).selection().len() > 0),
            r ==> final(self).selection() == parent_path(old(self).selection()),
            r ==> final(self).rebuild_pending(),
            !r ==> *final(self) == *old(self),
            final(self).root == old(self).root,
            same_settings(*old(self), *final(self)),
            is_valid_path(old(self).root, old(self).selection()) ==> is_valid_path(
                final(self).root,
                final(self).selection(),
            ),
    {
        if self.selected.len() == 0 {
            return false;
        }
        let ghost sel = self.selected@;
        self.selected.pop();
        assert(self.selected@ =~= parent_path(sel));
        proof {
            if is_valid_path(self.root, sel) {
                lemma_prefix_valid(self.root, sel, sel.len() - 1);
            }
        }
        self.needs_rebuild = true;
        true
    }

    /// Selects the next sibling of the selected node, when there is one.
    /// Returns whether the selection moved.
    pub fn select_next_sibling(&mut self) -> (r: bool)
        ensures
            r == (old(self).selection().len() > 0 && (node_at(
                old(self).root,
                parent_path(old(self).selection()),
            ) matches Some(p) && old(self).selection().last() + 1 < p.children@.len())),
            r ==> final(self).selection() == old(self).selection().update(
                old(self).selection().len() - 1,
                (old(self).selection().last() + 1) as usize,
            ),
            r ==> final(self).rebuild_pending(),
            !r ==> *final(self) == *old(self),
            final(self).root == old(self).root,
            same_settings(*old(self), *final(self)),
            r ==> is_valid_path(final(self).root, final(self).selection()),
    {
        if self.selected.len() == 0 {
            return false;
        }
        let last = self.selected.len() - 1;
        let i = self.selected[last];
        let ghost sel = self.selected@;
        let parent = vstd::slice::slice_subrange(self.selected.as_slice(), 0, last);
        proof {
            assert(parent@ =~= parent_path(sel));
        }
        let count = match self.root.get(parent) {
            Some(p) => p.children.len(),
            None => 0,
        };
        if count > 0 && i < count - 1 {
            self.selected.set(last, i + 1);
            proof {
                lemma_child_path(self.root, parent_path(sel), (i + 1) as usize);
                assert(parent_path(sel).push((i + 1) as usize) =~= self.selected@);
            }
            self.needs_rebuild = true;
            true
        } else {
            false
        }
    }

    /// Selects the previous sibling of the selected node, when there is
    /// one. Returns whether the selection moved.
    pub fn select_prev_sibling(&mut self) -> (r: bool)
        ensures
            r == (old(self).selection().len() > 0 && old(self).selection().last() > 0),
            r ==> final(self).selection() == old(self).selection().update(
                old(self).selection().len() - 1,
                (old(self).selection().last() - 1) as usize,
            ),
            r ==> final(self).rebuild_pending(),
            !r ==> *final(self) == *old(self),
            final(self).root == old(self).root,
            same_settings(*old(self), *final(self)),
            is_valid_path(old(self).root, old(self).selection()) ==> is_valid_path(
                final(self).root,
                final(self).selection(),
            ),
    {
        if self.selected.len() == 0 {
            return false;
        }
        let last = self.selected.len() - 1;
        let i = self.selected[last];
        if i == 0 {
            return false;
        }
        let ghost sel = self.selected@;
        self.selected.set(last, i - 1);
        proof {
            if is_valid_path(self.root, sel) {
                lemma_prefix_valid(self.root, sel, sel.len() - 1);
                lemma_parent_step(self.root, sel);
                lemma_child_path(self.root, parent_path(sel), (i - 1) as usize);
                assert(parent_path(sel).push((i - 1) as usize) =~= self.selected@);
            }
        }
        self.needs_rebuild = true;
        true
    }
}

/// A prefix of a valid path is valid.
proof fn lemma_prefix_valid(root: NodeConfig, path: Seq<usize>, n: int)
    requires
        is_valid_path(root, path),
        0 <= n <= path.len(),
    ensures
        is_valid_path(root, path.subrange(0, n)),
    decreases path.len(),
{
    if n > 0 {
        let k = path[0] as int;
        let rest = path.subrange(1, path.len() as int);
        lemma_prefix_valid(root.children@[k], rest, n - 1);
        assert(path.subrange(0, n).subrange(1, n) =~= rest.subrange(0, n - 1));
    } else {
        assert(path.subrange(0, 0) =~= Seq::<usize>::empty());
    }
}

/// What the editor does once a frame of its panel has run.
pub enum FrameAction {
    /// The frame changed the layout: the hover preview was dropped, a
    /// rebuild requested, and the caller records a copy of the state in
    /// its undo history.
    Record,
    /// A hover preview ended without a change: the state saved before it
    /// was put back, its selection sanitized and a rebuild requested.
    Restored,
    /// Nothing to do; the hover preview, if any, is handed back to be kept
    /// for the next frame.
    Keep(Option<FlexConfig>),
}

/// The end of an editor frame. `preview` is the state saved when a hover
/// preview began, `changed` whether the frame changed the layout and
/// `any_hovered` whether a control is still hovered.
pub fn end_frame(
    cfg: &mut FlexConfig,
    preview: Option<FlexConfig>,
    changed: bool,
    any_hovered: bool,
) -> (r: FrameAction)
    ensures
        changed ==> {
            &&& r is Record
            &&& final(cfg).root == old(cfg).root
            &&& final(cfg).selection() == old(cfg).selection()
            &&& final(cfg).rebuild_pending()
            &&& same_settings(*old(cfg), *final(cfg))
        },
        !changed && !any_hovered && preview is Some ==> {
            let saved = preview->0;
            &&& r is Restored
            &&& final(cfg).root == saved.root
            &&& sanitized(saved.root, saved.selection(), final(cfg).selection())
            &&& final(cfg).rebuild_pending()
            &&& same_settings(saved, *final(cfg))
        },
        !changed && (any_hovered || preview is None) ==> r == FrameAction::Keep(preview),
        !changed && (any_hovered || preview is None) ==> *final(cfg) == *old(cfg),
{
    if changed {
        cfg.request_rebuild();
        FrameAction::Record
    } else if !any_hovered && preview.is_some() {
        match preview {
            Some(saved) => {
                *cfg = saved;
                cfg.sanitize_selection();
                cfg.request_rebuild();
                FrameAction::Restored
            },
            None => FrameAction::Keep(None),
        }
    } else {
        FrameAction::Keep(preview)
    }
}

/// The node at a path is the parent's child named by the path's last
/// index.
proof fn lemma_parent_step(root: NodeConfig, path: Seq<usize>)
    requires
        path.len() > 0,
        is_valid_path(root, parent_path(path)),
    ensures
        node_at(root, path) == (match node_at(root, parent_path(path)) {
            Some(p) => if path.last() < p.children@.len() {
                Some(p.children@[path.last() as int])
            } else {
                None
            },
            None => None,
        }),
    decreases path.len(),
{
    reveal_with_fuel(node_at, 2);
    let pp = parent_path(path);
    if path.len() > 1 {
        let k = path[0] as int;
        let rest = path.subrange(1, path.len() as int);
        assert(pp[0] == path[0]);
        assert(pp.subrange(1, pp.len() as int) =~= parent_path(rest));
        assert(rest.last() == path.last());
        lemma_parent_step(root.children@[k], rest);
    } else {
        assert(pp =~= Seq::<usize>::empty());
        assert(path.subrange(1, path.len() as int) =~= Seq::<usize>::empty());
        assert(path.last() == path[0]);
    }
}

/// A valid path followed by the index of one of that node's children is
/// valid.
proof fn lemma_child_path(root: NodeConfig, path: Seq<usize>, i: usize)
    requires
        node_at(root, path) matches Some(p) && i < p.children@.len(),
    ensures
        node_at(root, path.push(i)) == Some(node_at(root, path)->0.children@[i as int]),
    decreases path.len(),
{
    reveal_with_fuel(node_at, 2);
    let q = path.push(i);
    if path.len() > 0 {
        let k = path[0] as int;
        let rest = path.subrange(1, path.len() as int);
        assert(q[0] == path[0]);
        assert(q.subrange(1, q.len() as int) =~= rest.push(i));
        lemma_child_path(root.children@[k], rest, i);
    } else {
        assert(q[0] == i);
        assert(q.subrange(1, q.len() as int) =~= Seq::<usize>::empty());
    }
}

} // verus!
