//! The views visited so far.

use vstd::prelude::*;
use nonempty::NonEmpty;
use crate::view::View;

verus! {

/// `nonempty::NonEmpty`: a vector that keeps a head apart from its tail and
/// so cannot be empty. The proofs see none of its fields.
#[verifier::external_type_specification]
#[verifier::external_body]
#[verifier::reject_recursive_types(T)]
pub struct ExNonEmpty<T>(NonEmpty<T>);

/// The views that a `NonEmpty` holds, oldest first: its head, then its tail.
pub uninterp spec fn stacked_views(stack: NonEmpty<View>) -> Seq<View>;

/// `NonEmpty::new`: a list of the one element given.
#[verifier::external_body]
fn stack_new(first: View) -> (stack: NonEmpty<View>)
    ensures
        stacked_views(stack) == seq![first],
{
    NonEmpty::new(first)
}

/// `NonEmpty::push`: the element is appended behind all others.
#[verifier::external_body]
fn stack_push(stack: &mut NonEmpty<View>, view: View)
    ensures
        stacked_views(*final(stack)) == stacked_views(*old(stack)).push(view),
{
    stack.push(view)
}

/// `NonEmpty::pop`: the last element of the tail is removed and handed out;
/// the head cannot be removed, so a list of one element stays as it is and
/// nothing is handed out. Either way at least the head is left.
#[verifier::external_body]
fn stack_pop(stack: &mut NonEmpty<View>) -> (popped: Option<View>)
    ensures
        stacked_views(*final(stack)).len() >= 1,
        stacked_views(*old(stack)).len() <= 1 ==> popped is None && stacked_views(*final(stack))
            == stacked_views(*old(stack)),
        stacked_views(*old(stack)).len() > 1 ==> popped == Some(stacked_views(*old(stack)).last())
            && stacked_views(*final(stack)) == stacked_views(*old(stack)).drop_last(),
{
    stack.pop()
}

/// `NonEmpty::last`: the last element of the tail, or the head where the
/// tail is empty. There always is one.
#[verifier::external_body]
fn stack_last(stack: &NonEmpty<View>) -> (newest: View)
    ensures
        newest == stacked_views(*stack).last(),
        stacked_views(*stack).contains(newest),
{
    *stack.last()
}

/// `NonEmpty::len`: the length of the tail plus one for the head.
#[verifier::external_body]
fn stack_len(stack: &NonEmpty<View>) -> (len: usize)
    ensures
        len == stacked_views(*stack).len(),
        len >= 1,
{
    stack.len()
}

/// A history after one more view was visited.
pub open spec fn pushed(entries: Seq<View>, view: View) -> Seq<View> {
    entries.push(view)
}

/// A history after one step back: the newest view is gone, unless it was the
/// only one.
pub open spec fn undone(entries: Seq<View>) -> Seq<View> {
    if entries.len() > 1 {
        entries.drop_last()
    } else {
        entries
    }
}

/// A history after the current view was exchanged for another. The first
/// view is never given up: a history of one view grows instead.
pub open spec fn amended(entries: Seq<View>, view: View) -> Seq<View> {
    pushed(undone(entries), view)
}

/// The views visited so far, oldest first. There is always at least one,
/// and the newest is the current view.
pub struct NavigationHistory {
    views: NonEmpty<View>,
}

impl NavigationHistory {
    /// The views of the history, oldest first.
    pub closed spec fn entries(&self) -> Seq<View> {
        stacked_views(self.views)
    }

    /// Starts a history at `initial`.
    pub fn new(initial: View) -> (history: NavigationHistory)
        ensures
            history.entries() == seq![initial],
    {
        NavigationHistory { views: stack_new(initial) }
    }

    /// Makes `view` the current view; all earlier views stay below it.
    pub fn push(&mut self, view: View)
        ensures
            final(self).entries() == pushed(old(self).entries(), view),
            final(self).entries().len() >= 1,
    {
        stack_push(&mut self.views, view);
    }

    /// Goes back one view and hands out the view that was left. At the very
    /// first view there is nothing to go back to: the history stays as it is
    /// and nothing is handed out.
    pub fn undo(&mut self) -> (left: Option<View>)
        ensures
            final(self).entries() == undone(old(self).entries()),
            final(self).entries().len() >= 1,
            left == if old(self).entries().len() > 1 {
                Some(old(self).entries().last())
            } else {
                None
            },
    {
        stack_pop(&mut self.views)
    }

    /// Puts `view` in place of the current view, so that going back skips
    /// the view it replaces. The first view of a history is kept: there
    /// `view` is added on top of it.
    pub fn amend(&mut self, view: View)
        ensures
            final(self).entries() == amended(old(self).entries(), view),
            final(self).entries().len() >= 1,
    {
        stack_pop(&mut self.views);
        stack_push(&mut self.views, view);
    }

    /// The current view: the newest of the history.
    pub fn current(&self) -> (view: View)
        ensures
            self.entries().len() >= 1,
            view == self.entries().last(),
    {
        stack_last(&self.views)
    }

    /// How many views the history holds; never zero.
    pub fn len(&self) -> (len: usize)
        ensures
            len == self.entries().len(),
            len >= 1,
    {
        stack_len(&self.views)
    }
}

/// At its first view a history cannot go back: it keeps its one view.
pub proof fn lemma_undo_at_floor(entries: Seq<View>)
    requires
        entries.len() == 1,
    ensures
        undone(entries) == entries,
        undone(entries).len() == 1,
        undone(entries)[0] == entries[0],
{
}

/// Visiting a view and going back restores the history exactly, and with it
/// the view that was current before.
pub proof fn lemma_push_then_undo(entries: Seq<View>, view: View)
    requires
        entries.len() >= 1,
    ensures
        undone(pushed(entries, view)) == entries,
        undone(pushed(entries, view)).last() == entries.last(),
{
    assert(entries.push(view).drop_last() =~= entries);
}

/// Exchanging the current view keeps the length of a history of two or more
/// views, makes the new view current and leaves all older views in place.
pub proof fn lemma_amend(entries: Seq<View>, view: View)
    requires
        entries.len() >= 1,
    ensures
        amended(entries, view).last() == view,
        amended(entries, view).len() == if entries.len() > 1 {
            entries.len()
        } else {
            2
        },
        forall|k: int| 0 <= k < amended(entries, view).len() - 1 ==> amended(entries, view)[k]
            == entries[k],
        amended(amended(entries, view), view) == amended(entries, view),
{
    assert(amended(amended(entries, view), view) =~= amended(entries, view));
}

/// Going back never empties a history, never lengthens it, and keeps the
/// views below the current one in place.
pub proof fn lemma_undo_keeps_older(entries: Seq<View>)
    requires
        entries.len() >= 1,
    ensures
        1 <= undone(entries).len() <= entries.len(),
        entries.len() > 1 ==> undone(entries).len() == entries.len() - 1,
        forall|k: int| 0 <= k < undone(entries).len() ==> undone(entries)[k] == entries[k],
{
}

} // verus!
