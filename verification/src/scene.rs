//! The composition root: one widget tree bound to one renderer.
//!
//! A scene owns its tree and renderer exclusively; every pass — layout,
//! dispatch, render — runs to completion on the calling thread before the
//! scene can be used again, so a render pass and a layout pass can never
//! interleave on the same widget. Callers needing to share a scene across
//! call paths put it behind one scene-level lock of their own.

use vstd::prelude::*;
use crate::button::{replay_draw_commands, spec_widget_draw, Widget};
use crate::dispatch::{dispatch, spec_dispatch_consumed, spec_fired};
use crate::errors::Error;
use crate::events::{Event, Size};
use crate::layout::{spec_pipeline, tree_wf, Tree, MAX_SIZE_DOWN_ITERS};
use crate::stack::Stack;
use crate::widget::{DrawCmd, Renderer};

verus! {

/// The drawing operations issued by the first `n` widgets of the arena, in
/// arena order — parents before their children, so ancestors paint first.
pub open spec fn spec_scene_draw_upto(nodes: Seq<Widget>, n: int) -> Seq<DrawCmd>
    decreases n,
{
    if n <= 0 {
        Seq::empty()
    } else {
        spec_scene_draw_upto(nodes, n - 1) + spec_widget_draw(nodes[n - 1])
    }
}

/// The drawing operations a render pass over the whole tree issues.
pub open spec fn spec_scene_draw(nodes: Seq<Widget>) -> Seq<DrawCmd> {
    spec_scene_draw_upto(nodes, nodes.len() as int)
}

/// A scene: one widget tree, one renderer, and the queue of commands fired
/// by click handlers, drained by the owning application.
#[derive(Debug)]
pub struct Scene<R: Renderer> {
    /// The widget tree.
    pub tree: Tree,
    /// The renderer the render pass draws through.
    pub renderer: R,
    /// Commands fired by consumed events, oldest first.
    pub commands: Stack<u64>,
}

impl<R: Renderer> Scene<R> {
    /// Creates a scene binding the given tree to the given renderer, with an
    /// empty command queue.
    pub fn new(tree: Tree, renderer: R) -> (s: Scene<R>)
        ensures
            s.tree == tree,
            s.renderer == renderer,
            s.commands@ == Seq::<u64>::empty(),
    {
        Scene { tree, renderer, commands: Stack::new() }
    }

    /// Returns the root widget.
    pub fn root(&self) -> (w: &Widget)
        requires
            self.tree@.len() > 0,
        ensures
            *w == self.tree@[0],
    {
        self.tree.root()
    }

    /// Runs the full six-phase layout pipeline over the tree at the given
    /// scene size; the scene only forwards to the tree. Returns the number
    /// of allocation passes, which never exceeds `MAX_SIZE_DOWN_ITERS`.
    pub fn layout(&mut self, scene_size: Size) -> (iters: usize)
        requires
            tree_wf(old(self).tree@),
        ensures
            final(self).tree@ == spec_pipeline(old(self).tree@, scene_size),
            tree_wf(final(self).tree@),
            final(self).renderer == old(self).renderer,
            final(self).commands == old(self).commands,
            1 <= iters <= MAX_SIZE_DOWN_ITERS,
    {
        self.tree.layout_pass(scene_size)
    }

    /// Dispatches an event through the widget tree, appending any fired
    /// commands to the queue, and returns whether the event was consumed.
    /// Event handling is infallible and never mutates the tree.
    pub fn handle_event(&mut self, event: &Event) -> (r: Result<bool, Error>)
        requires
            tree_wf(old(self).tree@),
        ensures
            r matches Ok(consumed)
                && consumed == spec_dispatch_consumed(old(self).tree@, *event),
            final(self).tree == old(self).tree,
            final(self).renderer == old(self).renderer,
            final(self).commands@ == old(self).commands@ + spec_fired(old(self).tree@, *event),
    {
        let consumed = dispatch(&self.tree, event, &mut self.commands);
        Ok(consumed)
    }

    /// The drawing operations a render pass would issue right now, in paint
    /// order.
    pub fn draw_commands(&self) -> (cmds: Vec<DrawCmd>)
        ensures
            cmds@ == spec_scene_draw(self.tree@),
    {
        let n = self.tree.len();
        let mut cmds: Vec<DrawCmd> = Vec::new();
        let mut i: usize = 0;
        while i < n
            invariant
                n == self.tree@.len(),
                i <= n,
                cmds@ == spec_scene_draw_upto(self.tree@, i as int),
            decreases n - i,
        {
            let mut sub = self.tree.widget(i).draw_commands();
            cmds.append(&mut sub);
            i = i + 1;
        }
        cmds
    }

    /// Renders the scene: issues every widget's drawing operations against
    /// the renderer in paint order, aborting at the first failure and
    /// propagating it. Rendering never mutates layout state: the tree and
    /// the command queue are untouched whether or not the pass succeeds.
    /// Success is the renderer's to decide, so it is promised only where no
    /// drawing call is made: a scene that draws nothing always succeeds.
    pub fn render(&mut self) -> (r: Result<(), Error>)
        ensures
            final(self).tree == old(self).tree,
            final(self).commands == old(self).commands,
            spec_scene_draw(old(self).tree@).len() == 0 ==> r is Ok,
    {
        let cmds = self.draw_commands();
        replay_draw_commands(&cmds, &mut self.renderer)
    }

    /// Removes and returns the most recently fired command, or `None` when
    /// the queue is empty. The owning application drains this queue and maps
    /// each command back to the action it stands for.
    pub fn pop_command(&mut self) -> (c: Option<u64>)
        ensures
            match c {
                Some(cmd) => old(self).commands@.len() > 0
                    && cmd == old(self).commands@.last()
                    && final(self).commands@ == old(self).commands@.drop_last(),
                None => old(self).commands@.len() == 0
                    && final(self).commands@ == old(self).commands@,
            },
            final(self).tree == old(self).tree,
            final(self).renderer == old(self).renderer,
    {
        self.commands.pop()
    }
}

} // verus!
