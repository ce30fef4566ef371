use vstd::prelude::*;

use crate::call::{focus_after, Call};
use crate::handle::ViewId;

verus! {

/// The calls that arm a guard: a focus change, unless the target already
/// has focus.
pub open spec fn entry_calls(prev: ViewId, target: ViewId) -> Seq<Call> {
    if prev == target {
        seq![]
    } else {
        seq![Call::Focus(target)]
    }
}

/// `body` run under a guard that moves focus from `prev` to `target`: arm,
/// the body, then restore `prev` unconditionally.
pub open spec fn guarded(prev: ViewId, target: ViewId, body: Seq<Call>) -> Seq<Call> {
    entry_calls(prev, target) + body + seq![Call::Focus(prev)]
}

/// Scope-bound focus: holds the view that had focus when the guard was made
/// and the view it moves focus to.
///
/// Releasing consumes the guard and yields the call that restores the
/// earlier focus, so a guard is released at most once.
#[derive(Debug)]
pub struct Focus {
    prev: ViewId,
    target: ViewId,
}

impl Focus {
    /// The view that had focus before the guard.
    pub closed spec fn spec_prev(&self) -> ViewId {
        self.prev
    }

    /// The view the guard focuses.
    pub closed spec fn spec_target(&self) -> ViewId {
        self.target
    }

    /// A guard moving focus to `view`, with `current` the view the host
    /// reports as focused now.
    pub fn new(current: ViewId, view: ViewId) -> (r: Focus)
        ensures
            r.spec_prev() == current,
            r.spec_target() == view,
    {
        Focus { prev: current, target: view }
    }

    /// The view that had focus before the guard.
    pub fn previous(&self) -> (r: ViewId)
        ensures
            r == self.spec_prev(),
    {
        self.prev
    }

    /// The view the guard focuses.
    pub fn target(&self) -> (r: ViewId)
        ensures
            r == self.spec_target(),
    {
        self.target
    }

    /// The calls that arm the guard.
    pub fn enter(&self) -> (r: Vec<Call>)
        ensures
            r@ == entry_calls(self.spec_prev(), self.spec_target()),
    {
        if self.prev == self.target {
            Vec::new()
        } else {
            vec![Call::Focus(self.target)]
        }
    }

    /// Re-focus the target, for use after a call that may have moved focus.
    pub fn focus(&self) -> (r: Call)
        ensures
            r == Call::Focus(self.spec_target()),
    {
        Call::Focus(self.target)
    }

    /// Disarm the guard: the call that restores the earlier focus, issued
    /// whether or not the guarded work succeeded.
    pub fn release(self) -> (r: Call)
        ensures
            r == Call::Focus(self.spec_prev()),
    {
        Call::Focus(self.prev)
    }

    /// `body` wrapped in the guard: arm, the body, restore.
    pub fn guard(self, body: Vec<Call>) -> (r: Vec<Call>)
        ensures
            r@ == guarded(self.spec_prev(), self.spec_target(), body@),
            focus_after(Some(self.spec_prev()), r@) == Some(self.spec_prev()),
    {
        let prev = self.prev;
        let mut calls = self.enter();
        let mut body = body;
        calls.append(&mut body);
        calls.push(self.release());
        proof {
            lemma_guard_restores(Some(prev), prev, self.spec_target(), body@);
        }
        calls
    }
}

/// Whatever was focused at the start and whatever the guarded calls do to
/// focus, the view focused before the guard has focus again after it.
pub proof fn lemma_guard_restores(start: Option<ViewId>, prev: ViewId, target: ViewId, body: Seq<Call>)
    ensures
        focus_after(start, guarded(prev, target, body)) == Some(prev),
{
    let calls = guarded(prev, target, body);
    assert(calls.last() == Call::Focus(prev));
}

/// Guarded work that stops early, after any prefix of its calls (a failed
/// decode, say), still ends with the earlier focus restored.
pub proof fn lemma_guard_restores_on_failure(prev: ViewId, target: ViewId, body: Seq<Call>, done: int)
    requires
        0 <= done <= body.len(),
    ensures
        focus_after(Some(prev), guarded(prev, target, body.take(done))) == Some(prev),
{
    lemma_guard_restores(Some(prev), prev, target, body.take(done));
}

/// Guards nest: an inner guard restores the outer target, and the outer one
/// then restores the view focused before both.
pub proof fn lemma_nested_guards_restore(
    prev: ViewId,
    outer: ViewId,
    inner: ViewId,
    body: Seq<Call>,
)
    ensures
        focus_after(Some(outer), guarded(outer, inner, body)) == Some(outer),
        focus_after(Some(prev), guarded(prev, outer, guarded(outer, inner, body))) == Some(prev),
{
    lemma_guard_restores(Some(outer), outer, inner, body);
    lemma_guard_restores(Some(prev), prev, outer, guarded(outer, inner, body));
}

} // verus!
