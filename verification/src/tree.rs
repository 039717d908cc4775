//! Node identity and link data for the widget tree.
//!
//! The tree is an arena: nodes live in one vector and refer to each other by
//! index. A node's `parent` and `children` fields are index links into that
//! arena; the arena type itself maintains their consistency (see the layout
//! module).

use vstd::prelude::*;
use vstd::string::StrSliceExecFns;
use vstd::string::StringExecFns;

verus! {

/// Per-node tree data: a name, an optional parent link, and an ordered list
/// of child links, all links being arena indices.
#[derive(Debug)]
pub struct NodeBase {
    /// The name of this node.
    pub name: String,
    /// The arena index of the parent node, if the node has been attached.
    pub parent: Option<usize>,
    /// Arena indices of the children, in insertion order.
    pub children: Vec<usize>,
}

impl NodeBase {
    /// Creates a new detached node with the given name.
    pub fn new(name: &str) -> (n: NodeBase)
        ensures
            n.name@ == name@,
            n.parent is None,
            n.children@ == Seq::<usize>::empty(),
    {
        NodeBase { name: String::from_str(name), parent: None, children: Vec::new() }
    }

    /// Returns the name of this node.
    pub fn name(&self) -> (name: &str)
        ensures
            name@ == self.name@,
    {
        self.name.as_str()
    }

    /// Sets the name of this node.
    pub fn set_name(&mut self, name: &str)
        ensures
            final(self).name@ == name@,
            final(self).parent == old(self).parent,
            final(self).children == old(self).children,
    {
        self.name = String::from_str(name);
    }

    /// Returns the arena index of the parent node, or `None` when the node
    /// was never attached.
    pub fn parent(&self) -> (p: Option<usize>)
        ensures
            p == self.parent,
    {
        self.parent
    }

    /// Returns the number of children.
    pub fn num_children(&self) -> (n: usize)
        ensures
            n == self.children@.len(),
    {
        self.children.len()
    }

    /// Returns the arena index of the child at `index`, or `None` when
    /// `index` is out of range.
    pub fn child(&self, index: usize) -> (c: Option<usize>)
        ensures
            match c {
                Some(i) => index < self.children@.len() && i == self.children@[index as int],
                None => index >= self.children@.len(),
            },
    {
        if index < self.children.len() {
            Some(self.children[index])
        } else {
            None
        }
    }

    /// Returns the arena indices of the children, in insertion order.
    pub fn children(&self) -> (c: &Vec<usize>)
        ensures
            c@ == self.children@,
    {
        &self.children
    }
}

} // verus!
