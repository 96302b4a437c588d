//! The ownership laws of the bridge, stated and proved over the abstract
//! native state.
//!
//! The bridge's operations are exact transitions on [`NativeView`]
//! ([`NativeView::retained`], [`NativeView::released`]): `wrap_owned` makes
//! no transition, `wrap_retained` and `clone` make one `retained` each, and
//! `release` — reachable exactly once per wrapper, because it consumes its
//! move-only wrapper — makes one `released`.  The lemmas here state the
//! balance guarantees of that protocol.

use vstd::prelude::*;

use crate::native::{Handle, NativeView};

verus! {

/// The state after `n` release calls against `h`: one per owned wrapper of
/// `h` that has gone out of scope.
pub open spec fn released_n(s: NativeView, h: Handle, n: nat) -> NativeView
    decreases n,
{
    if n == 0 {
        s
    } else {
        released_n(s, h, (n - 1) as nat).released(h)
    }
}

/// Law: exactly one release call is recorded per owned wrapper, no more
/// and no less.  A family of `n` wrappers of one handle — an original and
/// its clones — holds `n` reference-count units; by the time all `n` have
/// gone out of scope, exactly `n` release calls stand recorded against
/// their handle, the count has dropped by exactly `n`, no retain call was
/// recorded, and no other resource was touched.
pub proof fn lemma_each_wrapper_releases_exactly_once(s: NativeView, h: Handle, n: nat)
    requires
        s.in_range(h),
        n <= s.ref_count(h),
    ensures
        released_n(s, h, n).release_calls(h) == s.release_calls(h) + n,
        released_n(s, h, n).ref_count(h) == s.ref_count(h) - n,
        released_n(s, h, n).retain_calls(h) == s.retain_calls(h),
        released_n(s, h, n).slots.len() == s.slots.len(),
        forall|g: Handle|
            s.in_range(g) && g != h ==> released_n(s, h, n).slot(g) == s.slot(g),
    decreases n,
{
    if n > 0 {
        lemma_each_wrapper_releases_exactly_once(s, h, (n - 1) as nat);
    }
}

/// Law: a clone adds exactly one reference-count unit, and its release
/// independently takes exactly one away.  Original and clone are released
/// in some order; both orders are the same two `released` transitions
/// against the one shared handle, so they end in the same state, whose
/// count is the pre-clone value minus both releases.
pub proof fn lemma_clone_release_balance(s: NativeView, h: Handle)
    requires
        s.live(h),
    ensures
        s.retained(h).ref_count(h) == s.ref_count(h) + 1,
        s.retained(h).released(h).ref_count(h) == s.ref_count(h),
        s.retained(h).released(h).released(h).ref_count(h) == s.ref_count(h) - 1,
        s.retained(h).released(h).released(h).release_calls(h) == s.release_calls(h) + 2,
        s.retained(h).released(h).released(h).retain_calls(h) == s.retain_calls(h) + 1,
{
}

/// Law: wrapping under the get rule and releasing immediately leaves the
/// reference count exactly where it stood — one retain call and one
/// release call, in balance.
pub proof fn lemma_wrap_retained_release_balance(s: NativeView, h: Handle)
    requires
        s.live(h),
    ensures
        s.retained(h).released(h).ref_count(h) == s.ref_count(h),
        s.retained(h).released(h).retain_calls(h) == s.retain_calls(h) + 1,
        s.retained(h).released(h).release_calls(h) == s.release_calls(h) + 1,
{
}

/// Law: wrapping under the create rule adds no reference — the wrapper
/// adopts the one the factory produced — so its release decreases the
/// count by exactly one and records no retain call.
pub proof fn lemma_wrap_owned_release_balance(s: NativeView, h: Handle)
    requires
        s.live(h),
    ensures
        s.released(h).ref_count(h) == s.ref_count(h) - 1,
        s.released(h).retain_calls(h) == s.retain_calls(h),
        s.released(h).release_calls(h) == s.release_calls(h) + 1,
{
}

} // verus!
