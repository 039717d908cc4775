//! The widget arena and the six-phase layout pipeline.
//!
//! Widgets live in one vector and refer to each other by index; a child's
//! index is always greater than its parent's, so bottom-up phases walk the
//! arena backwards, top-down phases forwards, and every traversal plainly
//! terminates. The pipeline's result is pinned down exactly: each phase's
//! contract gives the new value of every node as a function of the old ones.

use vstd::prelude::*;
use crate::button::{
    base_of, same_but_links, sat_i32, spec_widget_finalized, spec_widget_measured,
    spec_widget_styled, with_base, Widget,
};
use crate::events::{Rect, Size};
use crate::widget::{clamp_u32, WidgetBase};

verus! {

/// The parent link of node `i` of the arena.
pub open spec fn parent_of(nodes: Seq<Widget>, i: int) -> Option<usize> {
    base_of(nodes[i]).node_base.parent
}

/// The child links of node `i` of the arena, in insertion order.
pub open spec fn children_of(nodes: Seq<Widget>, i: int) -> Seq<usize> {
    base_of(nodes[i]).node_base.children@
}

/// Node `i`'s parent link is sound: it points at an earlier node whose child
/// list contains `i`.
pub open spec fn parent_link_ok(nodes: Seq<Widget>, i: int) -> bool {
    &&& parent_of(nodes, i) matches Some(p)
    &&& parent_of(nodes, i)->Some_0 < i
    &&& children_of(nodes, parent_of(nodes, i)->Some_0 as int).contains(i as usize)
}

/// The `k`-th child link of node `i` is sound: it points at a later node
/// whose parent link points back at `i`.
pub open spec fn child_link_ok(nodes: Seq<Widget>, i: int, k: int) -> bool {
    &&& i < children_of(nodes, i)[k] < nodes.len()
    &&& parent_of(nodes, children_of(nodes, i)[k] as int) == Some(i as usize)
}

/// Arena well-formedness: node 0 is the root and has no parent; every other
/// node has a sound parent link; every child link is sound. In particular a
/// child's index always exceeds its parent's, and a node's parent link
/// resolves to the one node whose child list holds it — never to a different
/// node.
pub open spec fn tree_wf(nodes: Seq<Widget>) -> bool {
    &&& 1 <= nodes.len()
    &&& parent_of(nodes, 0) is None
    &&& forall|i: int| 1 <= i < nodes.len() ==> #[trigger] parent_link_ok(nodes, i)
    &&& forall|i: int, k: int|
        0 <= i < nodes.len() && 0 <= k < children_of(nodes, i).len()
            ==> #[trigger] child_link_ok(nodes, i, k)
}

/// A tree of widgets: an arena addressed by stable indices, with node 0 the
/// root. The arena owns every widget in it and is the only writer of the
/// parent and child links, which keeps them consistent.
#[derive(Debug)]
pub struct Tree {
    nodes: Vec<Widget>,
}

impl View for Tree {
    type V = Seq<Widget>;

    closed spec fn view(&self) -> Seq<Widget> {
        self.nodes@
    }
}

impl Tree {
    /// Creates a tree holding only the given widget as its root. The arena
    /// owns the links: whatever links the widget carried are reset.
    pub fn new(root: Widget) -> (t: Tree)
        ensures
            t@.len() == 1,
            same_but_links(root, t@[0]),
            parent_of(t@, 0) is None,
            children_of(t@, 0) == Seq::<usize>::empty(),
            tree_wf(t@),
    {
        let mut root = root;
        root.attach_links(None);
        let mut nodes: Vec<Widget> = Vec::new();
        nodes.push(root);
        let t = Tree { nodes };
        proof {
            assert forall|i: int| 1 <= i < t@.len() implies #[trigger] parent_link_ok(t@, i) by {}
            assert forall|i: int, k: int|
                0 <= i < t@.len() && 0 <= k < children_of(t@, i).len()
                    implies #[trigger] child_link_ok(t@, i, k) by {}
        }
        t
    }

    /// Attaches a widget as the last child of the node at `parent` and
    /// returns its index, which is the old node count. The arena resets the
    /// new widget's links: its parent link points at `parent`, its child
    /// list starts out empty, and the parent's child list gains the new
    /// index at its end. No other node changes.
    pub fn add_child(&mut self, parent: usize, widget: Widget) -> (idx: usize)
        requires
            tree_wf(old(self)@),
            parent < old(self)@.len(),
        ensures
            tree_wf(final(self)@),
            idx == old(self)@.len(),
            final(self)@.len() == old(self)@.len() + 1,
            same_but_links(widget, final(self)@[idx as int]),
            parent_of(final(self)@, idx as int) == Some(parent),
            children_of(final(self)@, idx as int) == Seq::<usize>::empty(),
            same_but_links(old(self)@[parent as int], final(self)@[parent as int]),
            parent_of(final(self)@, parent as int) == parent_of(old(self)@, parent as int),
            children_of(final(self)@, parent as int)
                == children_of(old(self)@, parent as int).push(idx),
            forall|j: int| 0 <= j < old(self)@.len() && j != parent
                ==> final(self)@[j] == old(self)@[j],
    {
        let idx = self.nodes.len();
        let mut widget = widget;
        widget.attach_links(Some(parent));
        self.nodes.push(widget);
        self.nodes[parent].push_child_link(idx);
        proof {
            let old_ns = old(self)@;
            let ns = self@;
            assert forall|i: int| 1 <= i < ns.len() implies #[trigger] parent_link_ok(ns, i) by {
                if i == idx {
                    assert(children_of(ns, parent as int).last() == idx as usize);
                    assert(children_of(ns, parent as int).contains(idx as usize));
                } else if i == parent {
                    let p = parent_of(old_ns, i)->Some_0;
                    assert(parent_link_ok(old_ns, i));
                    assert(children_of(old_ns, p as int).contains(i as usize));
                    assert(children_of(ns, p as int) == children_of(old_ns, p as int));
                } else {
                    assert(parent_link_ok(old_ns, i));
                    let p = parent_of(old_ns, i)->Some_0;
                    if p == parent {
                        let cs = children_of(old_ns, p as int);
                        let j = choose|j: int| 0 <= j < cs.len() && cs[j] == i as usize;
                        assert(children_of(ns, p as int)[j] == i as usize);
                        assert(children_of(ns, p as int).contains(i as usize));
                    } else {
                        assert(children_of(ns, p as int) == children_of(old_ns, p as int));
                    }
                }
            }
            assert forall|i: int, k: int|
                0 <= i < ns.len() && 0 <= k < children_of(ns, i).len()
                    implies #[trigger] child_link_ok(ns, i, k) by {
                if i == parent {
                    if k < children_of(old_ns, i).len() {
                        assert(child_link_ok(old_ns, i, k));
                        assert(children_of(ns, i)[k] == children_of(old_ns, i)[k]);
                        let c = children_of(old_ns, i)[k] as int;
                        assert(parent_of(ns, c) == parent_of(old_ns, c));
                    } else {
                        assert(children_of(ns, i)[k] == idx as usize);
                    }
                } else if i == idx {
                    assert(children_of(ns, i).len() == 0);
                } else {
                    assert(child_link_ok(old_ns, i, k));
                    let c = children_of(old_ns, i)[k] as int;
                    assert(parent_of(ns, c) == parent_of(old_ns, c));
                }
            }
        }
        idx
    }

    /// Returns the number of widgets in the tree.
    pub fn len(&self) -> (n: usize)
        ensures
            n == self@.len(),
    {
        self.nodes.len()
    }

    /// Returns the widget at the given arena index.
    pub fn widget(&self, i: usize) -> (w: &Widget)
        requires
            i < self@.len(),
        ensures
            *w == self@[i as int],
    {
        &self.nodes[i]
    }

    /// Returns the root widget.
    pub fn root(&self) -> (w: &Widget)
        requires
            self@.len() > 0,
        ensures
            *w == self@[0],
    {
        &self.nodes[0]
    }
}

/// The arena after the styling phase: every widget styled, nothing else
/// changed.
pub open spec fn spec_styled_seq(nodes: Seq<Widget>) -> Seq<Widget> {
    Seq::new(nodes.len(), |i: int| spec_widget_styled(nodes[i]))
}

/// The arena after the measurement phase: every widget measured bottom-up,
/// nothing else changed.
pub open spec fn spec_measured_seq(nodes: Seq<Widget>) -> Seq<Widget> {
    Seq::new(nodes.len(), |i: int| spec_widget_measured(nodes[i]))
}

/// The arena after the finalize phase: every widget's actual size clamped
/// into its style bounds, nothing else changed.
pub open spec fn spec_finalized_seq(nodes: Seq<Widget>) -> Seq<Widget> {
    Seq::new(nodes.len(), |i: int| spec_widget_finalized(nodes[i]))
}

impl Tree {
    /// Styling phase: every widget recomputes its style from its own
    /// configuration, in arena order. Tree-wide, applied before any later
    /// phase runs.
    pub fn phase_style(&mut self)
        requires
            tree_wf(old(self)@),
        ensures
            final(self)@ == spec_styled_seq(old(self)@),
            tree_wf(final(self)@),
    {
        let n = self.nodes.len();
        let mut i: usize = 0;
        while i < n
            invariant
                n == self.nodes@.len(),
                self.nodes@.len() == old(self).nodes@.len(),
                forall|j: int| 0 <= j < i
                    ==> self.nodes@[j] == spec_widget_styled(old(self).nodes@[j]),
                forall|j: int| i <= j < n ==> self.nodes@[j] == old(self).nodes@[j],
            decreases n - i,
        {
            self.nodes[i].style();
            i = i + 1;
        }
        proof {
            assert(final(self)@ =~= spec_styled_seq(old(self)@));
            lemma_same_links_wf(old(self)@, final(self)@);
        }
    }

    /// Measurement phase: every widget computes its natural size bottom-up.
    /// The walk runs from the last index down, so every child (its index
    /// exceeds its parent's) is measured before its parent.
    pub fn phase_size_up(&mut self)
        requires
            tree_wf(old(self)@),
        ensures
            final(self)@ == spec_measured_seq(old(self)@),
            tree_wf(final(self)@),
    {
        let n = self.nodes.len();
        let mut i: usize = n;
        while i > 0
            invariant
                n == self.nodes@.len(),
                i <= n,
                self.nodes@.len() == old(self).nodes@.len(),
                forall|j: int| i <= j < n
                    ==> self.nodes@[j] == spec_widget_measured(old(self).nodes@[j]),
                forall|j: int| 0 <= j < i ==> self.nodes@[j] == old(self).nodes@[j],
            decreases i,
        {
            i = i - 1;
            self.nodes[i].size_up();
        }
        proof {
            assert(final(self)@ =~= spec_measured_seq(old(self)@));
            lemma_same_links_wf(old(self)@, final(self)@);
        }
    }

    /// Finalize phase: every widget clamps its measured size into its style
    /// bounds, bottom-up, once allocation has stabilized.
    pub fn phase_size_final(&mut self)
        requires
            tree_wf(old(self)@),
        ensures
            final(self)@ == spec_finalized_seq(old(self)@),
            tree_wf(final(self)@),
    {
        let n = self.nodes.len();
        let mut i: usize = n;
        while i > 0
            invariant
                n == self.nodes@.len(),
                i <= n,
                self.nodes@.len() == old(self).nodes@.len(),
                forall|j: int| i <= j < n
                    ==> self.nodes@[j] == spec_widget_finalized(old(self).nodes@[j]),
                forall|j: int| 0 <= j < i ==> self.nodes@[j] == old(self).nodes@[j],
            decreases i,
        {
            i = i - 1;
            self.nodes[i].size_final();
        }
        proof {
            assert(final(self)@ =~= spec_finalized_seq(old(self)@));
            lemma_same_links_wf(old(self)@, final(self)@);
        }
    }

    /// Positioning phase: every widget computes its offset from its own
    /// alignment rules. Both widget kinds keep the offset they were given,
    /// so the arena is unchanged; the phase still runs tree-wide to keep the
    /// pipeline's staging visible.
    pub fn phase_position(&mut self)
        requires
            tree_wf(old(self)@),
        ensures
            final(self)@ == old(self)@,
            tree_wf(final(self)@),
    {
        let n = self.nodes.len();
        let mut i: usize = 0;
        while i < n
            invariant
                n == self.nodes@.len(),
                self.nodes@ == old(self).nodes@,
            decreases n - i,
        {
            self.nodes[i].position();
            i = i + 1;
        }
    }
}

/// The ceiling on allocation passes: the driver stops after this many even if
/// a widget still reports changes, so a full layout always terminates.
pub const MAX_SIZE_DOWN_ITERS: usize = 8;

/// The space node `i` ends up allocated: the scene's size at the root, the
/// parent's allocation passed through under a frame (the one container
/// heuristic this toolkit has), and the node's stored allocation where the
/// parent is not a container.
pub open spec fn spec_alloc(nodes: Seq<Widget>, scene: Size, i: int) -> Size
    decreases i,
{
    if i <= 0 {
        scene
    } else {
        match parent_of(nodes, i) {
            Some(p) => if p < i && nodes[p as int] is Frame {
                spec_alloc(nodes, scene, p as int)
            } else {
                base_of(nodes[i]).alloc_size
            },
            None => base_of(nodes[i]).alloc_size,
        }
    }
}

/// The arena after the allocation phase: every node's allocation at its
/// settled value, nothing else changed.
pub open spec fn spec_allocated_seq(nodes: Seq<Widget>, scene: Size) -> Seq<Widget> {
    Seq::new(
        nodes.len(),
        |i: int| with_base(
            nodes[i],
            WidgetBase { alloc_size: spec_alloc(nodes, scene, i), ..base_of(nodes[i]) },
        ),
    )
}

/// Settled allocations do not move: allocating an already-allocated arena
/// assigns every node the allocation it already has.
proof fn lemma_alloc_fixpoint(nodes: Seq<Widget>, scene: Size, i: int)
    requires
        0 <= i < nodes.len(),
    ensures
        spec_alloc(spec_allocated_seq(nodes, scene), scene, i) == spec_alloc(nodes, scene, i),
    decreases i,
{
    let t = spec_allocated_seq(nodes, scene);
    if i > 0 {
        match parent_of(nodes, i) {
            Some(p) => {
                if p < i && nodes[p as int] is Frame {
                    lemma_alloc_fixpoint(nodes, scene, p as int);
                }
            },
            None => {},
        }
    }
}

/// Allocation is idempotent over whole arenas.
proof fn lemma_allocated_seq_idempotent(nodes: Seq<Widget>, scene: Size)
    ensures
        spec_allocated_seq(spec_allocated_seq(nodes, scene), scene)
            == spec_allocated_seq(nodes, scene),
{
    let t = spec_allocated_seq(nodes, scene);
    assert forall|i: int| 0 <= i < t.len()
        implies #[trigger] spec_allocated_seq(t, scene)[i] == t[i] by {
        lemma_alloc_fixpoint(nodes, scene, i);
        assert(base_of(t[i]).alloc_size == spec_alloc(nodes, scene, i));
        assert(with_base(t[i], base_of(t[i])) == t[i]);
    }
    assert(spec_allocated_seq(t, scene) =~= t);
}

impl Tree {
    /// One allocation pass: grants the root the scene's size, then walks the
    /// arena top-down letting every container pass its allocation on to its
    /// children. Returns whether any node's allocation changed; a pass that
    /// changes nothing leaves the arena exactly as it was.
    fn size_down_pass(&mut self, scene: Size) -> (changed: bool)
        requires
            tree_wf(old(self)@),
        ensures
            final(self)@ == spec_allocated_seq(old(self)@, scene),
            tree_wf(final(self)@),
            !changed ==> final(self)@ == old(self)@,
    {
        let ghost ns = old(self)@;
        let mut changed = false;
        let n = self.nodes.len();
        let root_alloc = self.nodes[0].widget_base().alloc_size;
        if !(root_alloc == scene) {
            changed = true;
            self.nodes[0].set_alloc_size(scene);
        }
        let mut i: usize = 0;
        while i < n
            invariant
                tree_wf(ns),
                n == ns.len(),
                self@.len() == n,
                i <= n,
                forall|j: int| 0 <= j < n ==> #[trigger] self@[j] == with_base(
                    ns[j],
                    (WidgetBase { alloc_size: base_of(self@[j]).alloc_size, ..base_of(ns[j]) }),
                ),
                forall|j: int| 0 <= j < n && (j == 0 || parent_of(ns, j)->Some_0 < i)
                    ==> base_of(#[trigger] self@[j]).alloc_size == spec_alloc(ns, scene, j),
                forall|j: int| 1 <= j < n && parent_of(ns, j)->Some_0 >= i
                    ==> base_of(#[trigger] self@[j]).alloc_size == base_of(ns[j]).alloc_size,
                !changed ==> self@ == ns,
            decreases n - i,
        {
            if self.nodes[i].is_container() {
                let my_alloc = self.nodes[i].widget_base().alloc_size;
                let ghost kids = children_of(ns, i as int);
                let kids_n = self.nodes[i].widget_base().node_base.children.len();
                let mut k: usize = 0;
                while k < kids_n
                    invariant
                        tree_wf(ns),
                        n == ns.len(),
                        self@.len() == n,
                        i < n,
                        k <= kids_n,
                        kids == children_of(ns, i as int),
                        kids_n == kids.len(),
                        children_of(self@, i as int) == kids,
                        ns[i as int] is Frame,
                        my_alloc == spec_alloc(ns, scene, i as int),
                        forall|j: int| 0 <= j < n ==> #[trigger] self@[j] == with_base(
                            ns[j],
                            (WidgetBase {
                                alloc_size: base_of(self@[j]).alloc_size,
                                ..base_of(ns[j])
                            }),
                        ),
                        forall|j: int| 0 <= j < n && (j == 0 || parent_of(ns, j)->Some_0 < i)
                            ==> base_of(#[trigger] self@[j]).alloc_size
                                == spec_alloc(ns, scene, j),
                        forall|j: int| 1 <= j < n && parent_of(ns, j)->Some_0 > i
                            ==> base_of(#[trigger] self@[j]).alloc_size
                                == base_of(ns[j]).alloc_size,
                        forall|j: int| 1 <= j < n && parent_of(ns, j)->Some_0 == i
                            ==> base_of(#[trigger] self@[j]).alloc_size
                                    == base_of(ns[j]).alloc_size
                                || base_of(self@[j]).alloc_size == spec_alloc(ns, scene, j),
                        forall|m: int| 0 <= m < k
                            ==> base_of(self@[#[trigger] kids[m] as int]).alloc_size
                                == spec_alloc(ns, scene, kids[m] as int),
                        !changed ==> self@ == ns,
                    decreases kids_n - k,
                {
                    proof {
                        assert(child_link_ok(ns, i as int, k as int));
                    }
                    let c = self.nodes[i].widget_base().node_base.children[k];
                    let ghost prev = self@;
                    let child_alloc = self.nodes[c].widget_base().alloc_size;
                    if !(child_alloc == my_alloc) {
                        changed = true;
                        self.nodes[c].set_alloc_size(my_alloc);
                    }
                    proof {
                        assert(parent_of(ns, c as int) == Some(i as usize));
                        assert(spec_alloc(ns, scene, c as int) == spec_alloc(ns, scene, i as int));
                        assert(base_of(self@[c as int]).alloc_size == spec_alloc(ns, scene, c as int));
                        assert forall|m: int| 0 <= m < k + 1
                            implies base_of(self@[#[trigger] kids[m] as int]).alloc_size
                                == spec_alloc(ns, scene, kids[m] as int) by {
                            assert(child_link_ok(ns, i as int, m));
                            if kids[m] as int != c as int {
                                assert(self@[kids[m] as int] == prev[kids[m] as int]);
                            }
                        }
                    }
                    k = k + 1;
                }
                proof {
                    assert forall|j: int|
                        0 <= j < n && (j == 0 || parent_of(ns, j)->Some_0 < i + 1)
                            implies base_of(#[trigger] self@[j]).alloc_size
                                == spec_alloc(ns, scene, j) by {
                        if j > 0 && parent_of(ns, j)->Some_0 == i {
                            assert(parent_link_ok(ns, j));
                            let cs = children_of(ns, i as int);
                            let m = choose|m: int| 0 <= m < cs.len() && cs[m] == j as usize;
                            assert(base_of(self@[kids[m] as int]).alloc_size
                                == spec_alloc(ns, scene, kids[m] as int));
                        }
                    }
                }
            } else {
                proof {
                    assert forall|j: int|
                        0 <= j < n && (j == 0 || parent_of(ns, j)->Some_0 < i + 1)
                            implies base_of(#[trigger] self@[j]).alloc_size
                                == spec_alloc(ns, scene, j) by {
                        if j > 0 && parent_of(ns, j)->Some_0 == i {
                            assert(!(ns[i as int] is Frame));
                        }
                    }
                }
            }
            i = i + 1;
        }
        proof {
            assert(final(self)@ =~= spec_allocated_seq(ns, scene));
            lemma_same_links_wf(ns, final(self)@);
            if !changed {
                assert(final(self)@ =~= ns);
            }
        }
        changed
    }

    /// Allocation phase: grants the root the scene's size and runs top-down
    /// allocation passes until no widget reports a change, stopping after
    /// `MAX_SIZE_DOWN_ITERS` passes even if changes are still reported, so
    /// the phase always terminates within that fixed bound. Returns the
    /// number of passes run.
    pub fn phase_size_down(&mut self, scene_size: Size) -> (iters: usize)
        requires
            tree_wf(old(self)@),
        ensures
            final(self)@ == spec_allocated_seq(old(self)@, scene_size),
            tree_wf(final(self)@),
            1 <= iters <= MAX_SIZE_DOWN_ITERS,
    {
        let ghost orig = self@;
        let ghost target = spec_allocated_seq(orig, scene_size);
        let mut iters: usize = 0;
        let mut changed = true;
        while changed && iters < MAX_SIZE_DOWN_ITERS
            invariant
                tree_wf(self@),
                target == spec_allocated_seq(orig, scene_size),
                iters == 0 ==> changed && self@ == orig,
                1 <= iters ==> self@ == target,
                iters <= MAX_SIZE_DOWN_ITERS,
            decreases MAX_SIZE_DOWN_ITERS - iters,
        {
            let ghost before = self@;
            changed = self.size_down_pass(scene_size);
            proof {
                assert(self@ == spec_allocated_seq(before, scene_size));
                if iters >= 1 {
                    assert(before == target);
                    lemma_allocated_seq_idempotent(orig, scene_size);
                    assert(spec_allocated_seq(target, scene_size) == target);
                }
            }
            iters = iters + 1;
        }
        iters
    }
}

/// The absolute horizontal coordinate of node `i`: the node's own offset at
/// the root, the parent's absolute coordinate plus the node's offset below
/// it, saturating at the `i32` range at each step.
pub open spec fn spec_origin_x(nodes: Seq<Widget>, i: int) -> int
    decreases i,
{
    if i <= 0 {
        base_of(nodes[0]).position.x as int
    } else {
        match parent_of(nodes, i) {
            Some(p) => if p < i {
                sat_i32(spec_origin_x(nodes, p as int) + base_of(nodes[i]).position.x)
            } else {
                base_of(nodes[i]).position.x as int
            },
            None => base_of(nodes[i]).position.x as int,
        }
    }
}

/// The absolute vertical coordinate of node `i`; see `spec_origin_x`.
pub open spec fn spec_origin_y(nodes: Seq<Widget>, i: int) -> int
    decreases i,
{
    if i <= 0 {
        base_of(nodes[0]).position.y as int
    } else {
        match parent_of(nodes, i) {
            Some(p) => if p < i {
                sat_i32(spec_origin_y(nodes, p as int) + base_of(nodes[i]).position.y)
            } else {
                base_of(nodes[i]).position.y as int
            },
            None => base_of(nodes[i]).position.y as int,
        }
    }
}

/// The scene-coordinate bounding box node `i` ends the pipeline with: its
/// absolute origin, and its allocation clamped component-wise into its
/// style's size bounds.
pub open spec fn spec_bbox(nodes: Seq<Widget>, i: int) -> Rect {
    Rect {
        x: spec_origin_x(nodes, i) as i32,
        y: spec_origin_y(nodes, i) as i32,
        width: clamp_u32(
            base_of(nodes[i]).alloc_size.width,
            base_of(nodes[i]).style.min_size.width,
            base_of(nodes[i]).style.max_size.width,
        ),
        height: clamp_u32(
            base_of(nodes[i]).alloc_size.height,
            base_of(nodes[i]).style.min_size.height,
            base_of(nodes[i]).style.max_size.height,
        ),
    }
}

/// The arena after the scene-position phase: every node's bounding box at
/// its absolute value, nothing else changed.
pub open spec fn spec_scene_seq(nodes: Seq<Widget>) -> Seq<Widget> {
    Seq::new(
        nodes.len(),
        |i: int| with_base(
            nodes[i],
            WidgetBase { bbox: spec_bbox(nodes, i), ..base_of(nodes[i]) },
        ),
    )
}

impl Tree {
    /// Scene-position phase: walks the arena top-down combining each
    /// widget's parent-relative offset with the parent's absolute position
    /// (zero at the root), and writes the absolute bounding box, whose size
    /// is the allocation clamped into the style's bounds. Coordinates
    /// saturate at the `i32` range.
    pub fn phase_apply_scene_pos(&mut self)
        requires
            tree_wf(old(self)@),
        ensures
            final(self)@ == spec_scene_seq(old(self)@),
            tree_wf(final(self)@),
    {
        let ghost ns = old(self)@;
        let n = self.nodes.len();
        let mut i: usize = 0;
        while i < n
            invariant
                tree_wf(ns),
                n == ns.len(),
                self@.len() == n,
                i <= n,
                forall|j: int| 0 <= j < i ==> #[trigger] self@[j] == spec_scene_seq(ns)[j],
                forall|j: int| i <= j < n ==> #[trigger] self@[j] == ns[j],
            decreases n - i,
        {
            let wb = self.nodes[i].widget_base();
            let pos = wb.position;
            let alloc = wb.alloc_size;
            let min_size = wb.style.min_size;
            let max_size = wb.style.max_size;
            let parent = wb.node_base.parent;
            let (x, y) = if i == 0 {
                (pos.x, pos.y)
            } else {
                match parent {
                    Some(p) => {
                        proof {
                            assert(parent_link_ok(ns, i as int));
                        }
                        let pb = self.nodes[p].widget_base().bbox;
                        proof {
                            assert(self@[p as int] == spec_scene_seq(ns)[p as int]);
                            assert(pb.x as int == spec_origin_x(ns, p as int));
                            assert(pb.y as int == spec_origin_y(ns, p as int));
                        }
                        (
                            crate::button::sat_i32_exec(pb.x as i64 + pos.x as i64),
                            crate::button::sat_i32_exec(pb.y as i64 + pos.y as i64),
                        )
                    },
                    None => (pos.x, pos.y),
                }
            };
            let bbox = Rect {
                x,
                y,
                width: crate::widget::clamp_u32_exec(alloc.width, min_size.width, max_size.width),
                height: crate::widget::clamp_u32_exec(
                    alloc.height,
                    min_size.height,
                    max_size.height,
                ),
            };
            self.nodes[i].set_bbox(bbox);
            proof {
                assert(bbox == spec_bbox(ns, i as int));
                assert(self@[i as int] == spec_scene_seq(ns)[i as int]);
            }
            i = i + 1;
        }
        proof {
            assert(final(self)@ =~= spec_scene_seq(ns));
            lemma_same_links_wf(ns, final(self)@);
        }
    }
}

/// The arena after a full layout pass at the given scene size: styled,
/// measured, allocated, finalized, positioned (a no-op for these widget
/// kinds), and placed in scene coordinates, in that mandatory order.
pub open spec fn spec_pipeline(nodes: Seq<Widget>, scene: Size) -> Seq<Widget> {
    spec_scene_seq(
        spec_finalized_seq(spec_allocated_seq(spec_measured_seq(spec_styled_seq(nodes)), scene)),
    )
}

impl Tree {
    /// Runs the full six-phase layout pipeline over the whole tree at the
    /// given scene size, each phase applied tree-wide before the next
    /// begins: style, then bottom-up measurement, then iterated top-down
    /// allocation, then finalization, then positioning, then absolute
    /// placement. Returns the number of allocation passes, which never
    /// exceeds `MAX_SIZE_DOWN_ITERS`.
    pub fn layout_pass(&mut self, scene_size: Size) -> (iters: usize)
        requires
            tree_wf(old(self)@),
        ensures
            final(self)@ == spec_pipeline(old(self)@, scene_size),
            tree_wf(final(self)@),
            1 <= iters <= MAX_SIZE_DOWN_ITERS,
    {
        self.phase_style();
        self.phase_size_up();
        let iters = self.phase_size_down(scene_size);
        self.phase_size_final();
        self.phase_position();
        self.phase_apply_scene_pos();
        iters
    }
}

/// After a full layout pass, every widget's bounding box lies within its
/// style's size bounds, component-wise, whenever those bounds are
/// consistent.
pub proof fn lemma_pipeline_bbox_in_bounds(nodes: Seq<Widget>, scene: Size, i: int)
    requires
        0 <= i < nodes.len(),
    ensures
        ({
            let w = base_of(spec_pipeline(nodes, scene)[i]);
            &&& w.style.min_size.width <= w.style.max_size.width
                ==> w.style.min_size.width <= w.bbox.width <= w.style.max_size.width
            &&& w.style.min_size.height <= w.style.max_size.height
                ==> w.style.min_size.height <= w.bbox.height <= w.style.max_size.height
        }),
{
}

/// A node's settled allocation depends only on the parent links, the
/// container kinds and the stored allocations: two arenas agreeing on those
/// allocate alike.
proof fn lemma_alloc_congruence(a: Seq<Widget>, b: Seq<Widget>, scene: Size, i: int)
    requires
        a.len() == b.len(),
        0 <= i < a.len(),
        forall|j: int| 0 <= j < a.len() ==> parent_of(a, j) == parent_of(b, j)
            && ((#[trigger] a[j]) is Frame <==> b[j] is Frame)
            && base_of(a[j]).alloc_size == base_of(b[j]).alloc_size,
    ensures
        spec_alloc(a, scene, i) == spec_alloc(b, scene, i),
    decreases i,
{
    if i > 0 {
        match parent_of(a, i) {
            Some(p) => {
                if p < i && a[p as int] is Frame {
                    lemma_alloc_congruence(a, b, scene, p as int);
                }
            },
            None => {},
        }
    }
}

/// A node's absolute origin depends only on the parent links and the
/// parent-relative offsets: two arenas agreeing on those place alike.
proof fn lemma_origin_congruence(a: Seq<Widget>, b: Seq<Widget>, i: int)
    requires
        a.len() == b.len(),
        a.len() > 0,
        0 <= i < a.len(),
        forall|j: int| 0 <= j < a.len() ==> parent_of(a, j) == parent_of(b, j)
            && base_of(#[trigger] a[j]).position == base_of(b[j]).position,
    ensures
        spec_origin_x(a, i) == spec_origin_x(b, i),
        spec_origin_y(a, i) == spec_origin_y(b, i),
    decreases i,
{
    if i > 0 {
        match parent_of(a, i) {
            Some(p) => {
                if p < i {
                    lemma_origin_congruence(a, b, p as int);
                }
            },
            None => {},
        }
    }
}

/// Running the full six-phase pipeline a second time, with no intervening
/// change to any widget's configuration, reproduces the first run's result
/// exactly — in particular every bounding box is identical the second time.
pub proof fn lemma_pipeline_idempotent(nodes: Seq<Widget>, scene: Size)
    ensures
        spec_pipeline(spec_pipeline(nodes, scene), scene) == spec_pipeline(nodes, scene),
{
    let s1 = spec_styled_seq(nodes);
    let m1 = spec_measured_seq(s1);
    let a1 = spec_allocated_seq(m1, scene);
    let f1 = spec_finalized_seq(a1);
    let p = spec_scene_seq(f1);
    assert(p == spec_pipeline(nodes, scene));
    if p.len() == 0 {
        assert(spec_pipeline(p, scene) =~= p);
    } else {
        // Styling again changes nothing: every style is already its preset.
        assert forall|i: int| 0 <= i < p.len()
            implies #[trigger] spec_styled_seq(p)[i] == p[i] by {
            assert(spec_widget_styled(p[i]) == p[i]);
        }
        assert(spec_styled_seq(p) =~= p);
        let m2 = spec_measured_seq(p);
        // Allocating again changes nothing: allocations are already settled.
        assert forall|i: int| 0 <= i < p.len()
            implies #[trigger] spec_allocated_seq(m2, scene)[i] == m2[i] by {
            lemma_alloc_congruence(m2, a1, scene, i);
            lemma_alloc_fixpoint(m1, scene, i);
            assert(base_of(m2[i]).alloc_size == spec_alloc(m1, scene, i));
            assert(with_base(m2[i], base_of(m2[i])) == m2[i]);
        }
        assert(spec_allocated_seq(m2, scene) =~= m2);
        // Finalizing the re-measured sizes lands on the first run's sizes.
        assert forall|i: int| 0 <= i < p.len()
            implies #[trigger] spec_finalized_seq(m2)[i] == p[i] by {
            assert(spec_widget_finalized(m2[i]) == p[i]);
        }
        assert(spec_finalized_seq(m2) =~= p);
        // Placing again changes nothing: every box is already absolute.
        assert forall|i: int| 0 <= i < p.len()
            implies #[trigger] spec_scene_seq(p)[i] == p[i] by {
            lemma_origin_congruence(p, f1, i);
            assert(spec_bbox(p, i) == base_of(p[i]).bbox);
            assert(with_base(p[i], base_of(p[i])) == p[i]);
        }
        assert(spec_scene_seq(p) =~= p);
        assert(spec_pipeline(p, scene) == p);
    }
}

/// Two arenas of the same length whose nodes agree on kind and tree links
/// are equally well-formed. Every phase of the pipeline changes only style
/// and geometry, so this carries well-formedness across each phase.
proof fn lemma_same_links_wf(a: Seq<Widget>, b: Seq<Widget>)
    requires
        tree_wf(a),
        b.len() == a.len(),
        forall|i: int| 0 <= i < a.len()
            ==> base_of(#[trigger] b[i]).node_base.parent == base_of(a[i]).node_base.parent
                && base_of(b[i]).node_base.children@ == base_of(a[i]).node_base.children@,
    ensures
        tree_wf(b),
{
    assert forall|i: int| 1 <= i < b.len() implies #[trigger] parent_link_ok(b, i) by {
        assert(parent_link_ok(a, i));
        let p = parent_of(a, i)->Some_0;
        assert(children_of(b, p as int) == children_of(a, p as int));
    }
    assert forall|i: int, k: int|
        0 <= i < b.len() && 0 <= k < children_of(b, i).len()
            implies #[trigger] child_link_ok(b, i, k) by {
        assert(children_of(b, i) == children_of(a, i));
        assert(child_link_ok(a, i, k));
        let c = children_of(a, i)[k] as int;
        assert(parent_of(b, c) == parent_of(a, c));
    }
}

} // verus!
