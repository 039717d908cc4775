//! Event dispatch over the widget tree.
//!
//! An event starts at the root and is offered to each widget. A widget that
//! consumes an event stops further propagation to its own children; widgets
//! elsewhere in the tree are still offered the event. Dispatch reports
//! whether any widget consumed the event and collects the commands fired by
//! consuming widgets, in arena order. Events never mutate the tree.

use vstd::prelude::*;
use crate::button::{base_of, spec_widget_command, spec_widget_consumes, Widget};
use crate::events::Event;
use crate::layout::{children_of, parent_of, parent_link_ok, tree_wf, Tree};
use crate::stack::Stack;

verus! {

/// Whether the event reaches node `i`: the root is always offered; any other
/// node is offered exactly when its parent was offered and did not consume
/// the event.
pub open spec fn spec_offered(nodes: Seq<Widget>, e: Event, i: int) -> bool
    decreases i,
{
    if i <= 0 {
        true
    } else {
        match parent_of(nodes, i) {
            Some(p) => if p < i {
                spec_offered(nodes, e, p as int) && !spec_widget_consumes(nodes[p as int], e)
            } else {
                false
            },
            None => false,
        }
    }
}

/// Whether dispatching the event over the tree consumes it: some offered
/// widget consumes it.
pub open spec fn spec_dispatch_consumed(nodes: Seq<Widget>, e: Event) -> bool {
    exists|i: int| 0 <= i < nodes.len() && spec_offered(nodes, e, i)
        && spec_widget_consumes(nodes[i], e)
}

/// The commands fired by the offered, consuming widgets among the first `n`
/// nodes, in arena order.
pub open spec fn spec_fired_upto(nodes: Seq<Widget>, e: Event, n: int) -> Seq<u64>
    decreases n,
{
    if n <= 0 {
        Seq::empty()
    } else {
        let rest = spec_fired_upto(nodes, e, n - 1);
        if spec_offered(nodes, e, n - 1) && spec_widget_command(nodes[n - 1], e) is Some {
            rest.push(spec_widget_command(nodes[n - 1], e)->Some_0)
        } else {
            rest
        }
    }
}

/// The commands the tree fires on the event, in arena order.
pub open spec fn spec_fired(nodes: Seq<Widget>, e: Event) -> Seq<u64> {
    spec_fired_upto(nodes, e, nodes.len() as int)
}

/// Dispatches an event over the tree: offers it to the root and onwards to
/// the children of every non-consuming widget, pushes each fired command
/// onto `commands` in arena order, and returns whether any widget consumed
/// the event.
pub fn dispatch(tree: &Tree, event: &Event, commands: &mut Stack<u64>) -> (consumed: bool)
    requires
        tree_wf(tree@),
    ensures
        consumed == spec_dispatch_consumed(tree@, *event),
        final(commands)@ == old(commands)@ + spec_fired(tree@, *event),
{
    let ghost ns = tree@;
    let n = tree.len();
    let mut offered: Vec<bool> = Vec::new();
    offered.push(true);
    let mut j: usize = 1;
    while j < n
        invariant
            ns == tree@,
            tree_wf(ns),
            n == ns.len(),
            1 <= j <= n,
            offered@.len() == j,
            offered@[0] == true,
            forall|m: int| 1 <= m < j ==> !(#[trigger] offered@[m]),
        decreases n - j,
    {
        offered.push(false);
        j = j + 1;
    }
    let mut consumed = false;
    let mut i: usize = 0;
    while i < n
        invariant
            ns == tree@,
            tree_wf(ns),
            n == ns.len(),
            offered@.len() == n,
            i <= n,
            forall|m: int| 0 <= m < n && (m == 0 || parent_of(ns, m)->Some_0 < i)
                ==> #[trigger] offered@[m] == spec_offered(ns, *event, m),
            forall|m: int| 1 <= m < n && parent_of(ns, m)->Some_0 >= i
                ==> !(#[trigger] offered@[m]),
            consumed == exists|m: int| 0 <= m < i && spec_offered(ns, *event, m)
                && spec_widget_consumes(ns[m], *event),
            commands@ == old(commands)@ + spec_fired_upto(ns, *event, i as int),
        decreases n - i,
    {
        let off = offered[i];
        proof {
            if i > 0 {
                assert(parent_link_ok(ns, i as int));
            }
            assert(off == spec_offered(ns, *event, i as int));
        }
        let mut propagate = false;
        if off {
            let r = tree.widget(i).handle_event(event);
            if r.consumed {
                consumed = true;
                if let Some(c) = r.command {
                    commands.push(c);
                }
            }
            propagate = !r.consumed;
        }
        let kids_n = tree.widget(i).widget_base().node_base.children.len();
        let ghost mid_offered = offered@;
        let mut k: usize = 0;
        while k < kids_n
            invariant
                ns == tree@,
                tree_wf(ns),
                n == ns.len(),
                i < n,
                k <= kids_n,
                offered@.len() == n,
                kids_n == children_of(ns, i as int).len(),
                propagate == (spec_offered(ns, *event, i as int)
                    && !spec_widget_consumes(ns[i as int], *event)),
                forall|m: int| 0 <= m < n && parent_of(ns, m) != Some(i as usize)
                    ==> #[trigger] offered@[m] == mid_offered[m],
                forall|m: int| 1 <= m < n && parent_of(ns, m) == Some(i as usize)
                    ==> #[trigger] offered@[m] == mid_offered[m]
                        || offered@[m] == spec_offered(ns, *event, m),
                forall|q: int| 0 <= q < k
                    ==> offered@[#[trigger] children_of(ns, i as int)[q] as int]
                        == spec_offered(ns, *event, children_of(ns, i as int)[q] as int),
            decreases kids_n - k,
        {
            proof {
                assert(crate::layout::child_link_ok(ns, i as int, k as int));
            }
            let c = tree.widget(i).widget_base().node_base.children[k];
            let ghost prev = offered@;
            offered[c] = propagate;
            proof {
                assert(parent_of(ns, c as int) == Some(i as usize));
                assert(spec_offered(ns, *event, c as int) == propagate);
                assert forall|q: int| 0 <= q < k + 1
                    implies offered@[#[trigger] children_of(ns, i as int)[q] as int]
                        == spec_offered(ns, *event, children_of(ns, i as int)[q] as int) by {
                    assert(crate::layout::child_link_ok(ns, i as int, q));
                    let cq = children_of(ns, i as int)[q];
                    if cq != c {
                        assert(offered@[cq as int] == prev[cq as int]);
                    }
                }
            }
            k = k + 1;
        }
        proof {
            assert forall|m: int| 0 <= m < n && (m == 0 || parent_of(ns, m)->Some_0 < i + 1)
                implies #[trigger] offered@[m] == spec_offered(ns, *event, m) by {
                if m > 0 && parent_of(ns, m)->Some_0 == i {
                    assert(parent_link_ok(ns, m));
                    let cs = children_of(ns, i as int);
                    let q = choose|q: int| 0 <= q < cs.len() && cs[q] == m as usize;
                    assert(offered@[cs[q] as int] == spec_offered(ns, *event, cs[q] as int));
                } else {
                    assert(offered@[m] == mid_offered[m]);
                }
            }
            assert forall|m: int| 1 <= m < n && parent_of(ns, m)->Some_0 >= i + 1
                implies !(#[trigger] offered@[m]) by {
                assert(offered@[m] == mid_offered[m]);
            }
        }
        i = i + 1;
    }
    proof {
        if consumed {
            assert(spec_dispatch_consumed(ns, *event));
        }
        assert(spec_fired_upto(ns, *event, n as int) == spec_fired(ns, *event));
    }
    consumed
}

/// An event that is not a left-button click is consumed by no widget: the
/// dispatcher reports it unconsumed and fires no command, whatever the tree.
pub proof fn lemma_non_left_click_unconsumed(nodes: Seq<Widget>, e: Event)
    requires
        !crate::button::spec_button_consumes(e),
    ensures
        !spec_dispatch_consumed(nodes, e),
        spec_fired(nodes, e) == Seq::<u64>::empty(),
{
    assert forall|i: int| 0 <= i < nodes.len()
        implies !spec_widget_consumes(nodes[i], e) by {}
    lemma_no_consumer_fires_nothing(nodes, e, nodes.len() as int);
}

/// Helper: when no widget consumes the event, no prefix fires any command.
proof fn lemma_no_consumer_fires_nothing(nodes: Seq<Widget>, e: Event, n: int)
    requires
        forall|i: int| 0 <= i < nodes.len() ==> !spec_widget_consumes(#[trigger] nodes[i], e),
        n <= nodes.len(),
    ensures
        spec_fired_upto(nodes, e, n) == Seq::<u64>::empty(),
    decreases n,
{
    if n > 0 {
        lemma_no_consumer_fires_nothing(nodes, e, n - 1);
    }
}

/// Helper: once an offered node fires a command, every longer prefix still
/// carries it.
proof fn lemma_fired_upto_contains(nodes: Seq<Widget>, e: Event, i: int, n: int)
    requires
        0 <= i < n <= nodes.len(),
        spec_offered(nodes, e, i),
        spec_widget_command(nodes[i], e) is Some,
    ensures
        spec_fired_upto(nodes, e, n).contains(spec_widget_command(nodes[i], e)->Some_0),
    decreases n,
{
    let cmd = spec_widget_command(nodes[i], e)->Some_0;
    if n == i + 1 {
        let prior = spec_fired_upto(nodes, e, i);
        assert(spec_fired_upto(nodes, e, n) == prior.push(cmd));
        assert(spec_fired_upto(nodes, e, n).last() == cmd);
    } else {
        lemma_fired_upto_contains(nodes, e, i, n - 1);
        let rest = spec_fired_upto(nodes, e, n - 1);
        let k = choose|k: int| 0 <= k < rest.len() && rest[k] == cmd;
        assert(spec_fired_upto(nodes, e, n)[k] == cmd);
    }
}

/// A left-button click that reaches a button with a registered click command
/// is consumed, and that button's command is among the fired commands. The
/// button itself fires it exactly once: its own response carries one
/// command, and dispatch offers each widget the event at most once.
pub proof fn lemma_left_click_on_offered_button(nodes: Seq<Widget>, e: Event, i: int)
    requires
        0 <= i < nodes.len(),
        spec_offered(nodes, e, i),
        nodes[i] is Button,
        base_of(nodes[i]).on_click is Some,
        crate::button::spec_button_consumes(e),
    ensures
        spec_dispatch_consumed(nodes, e),
        spec_fired(nodes, e).contains(base_of(nodes[i]).on_click->Some_0),
{
    assert(spec_widget_consumes(nodes[i], e));
    lemma_fired_upto_contains(nodes, e, i, nodes.len() as int);
}

/// A left-button click dispatched to a tree whose root is a button with a
/// registered click command is consumed, and fires that command exactly
/// once.
pub proof fn lemma_left_click_on_button_root(nodes: Seq<Widget>, e: Event, cmd: u64)
    requires
        nodes.len() == 1,
        nodes[0] is Button,
        base_of(nodes[0]).on_click == Some(cmd),
        crate::button::spec_button_consumes(e),
    ensures
        spec_dispatch_consumed(nodes, e),
        spec_fired(nodes, e) == seq![cmd],
{
    assert(spec_offered(nodes, e, 0));
    assert(spec_widget_consumes(nodes[0], e));
    assert(spec_fired_upto(nodes, e, 0) == Seq::<u64>::empty());
    assert(spec_fired(nodes, e) =~= seq![cmd]);
}

} // verus!
