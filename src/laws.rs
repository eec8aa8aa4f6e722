use vstd::prelude::*;

use crate::element::next_toggle;
use crate::window::{PendingNotification, WindowState};

verus! {

/// `c` advanced by `k` steps, wrapping modulo 2^32.
pub open spec fn advanced(c: u32, k: nat) -> u32 {
    ((c + k) % 0x1_0000_0000) as u32
}

/// The notifications that `k` mutations of `t` schedule, starting from
/// counter value `c`.
pub open spec fn burst(t: usize, c: u32, k: nat) -> Seq<PendingNotification> {
    Seq::new(k, |i: int| PendingNotification { target: t, captured_sequence: advanced(c, (i + 1) as nat) })
}

/// What `n` mutations of the watched attribute of a live element do: its
/// counter advances by `n`, the other elements stay as they are, and (with
/// an open task source) one notification per mutation is queued, in order.
pub proof fn lemma_toggled_times(w: WindowState, t: usize, n: nat)
    requires
        w.is_live(t),
    ensures
        ({
            let r = w.toggled_times(t, n);
            &&& r.is_live(t)
            &&& r.elements.len() == w.elements.len()
            &&& forall|u: int| 0 <= u < w.elements.len() && u != t ==> r.elements[u] == w.elements[u]
            &&& r.elements[t as int].unwrap().open == w.elements[t as int].unwrap().open
            &&& r.counter(t) == advanced(w.counter(t), n)
            &&& r.fired == w.fired
            &&& r.task_source_closed == w.task_source_closed
            &&& r.tasks == if w.task_source_closed {
                w.tasks
            } else {
                w.tasks + burst(t, w.counter(t), n)
            }
        }),
    decreases n,
{
    let c = w.counter(t);
    if n == 0 {
        assert(w.tasks + burst(t, c, 0) =~= w.tasks);
    } else {
        lemma_toggled_times(w, t, (n - 1) as nat);
        let p = w.toggled_times(t, (n - 1) as nat);
        assert(next_toggle(advanced(c, (n - 1) as nat)) == advanced(c, n));
        if !w.task_source_closed {
            assert(w.tasks + burst(t, c, n) =~= (w.tasks + burst(t, c, (n - 1) as nat)).push(
                PendingNotification { target: t, captured_sequence: advanced(c, n) },
            ));
        }
    }
}

/// None of `s` fires in `w`, so running them fires nothing.
proof fn lemma_nothing_current(w: WindowState, s: Seq<PendingNotification>)
    requires
        forall|i: int| 0 <= i < s.len() ==> !w.is_current(#[trigger] s[i]),
    ensures
        w.delivered(s) == Seq::<PendingNotification>::empty(),
    decreases s.len(),
{
    if s.len() == 0 {
        assert(s.filter(|n: PendingNotification| w.is_current(n)) =~= Seq::<PendingNotification>::empty()) by {
            reveal(Seq::filter);
        }
    } else {
        let p = s.drop_last();
        assert(forall|i: int| 0 <= i < p.len() ==> p[i] == s[i]);
        lemma_nothing_current(w, p);
        assert(s =~= p.push(s.last()));
        p.lemma_filter_push(s.last(), |n: PendingNotification| w.is_current(n));
    }
}

/// A burst of `n` mutations of the watched attribute of a live element,
/// made while nothing is queued and the task source is open, fires exactly
/// one `toggle` event when the queue runs: the notification that captured the
/// counter's final value, `n` steps past where it started (modulo 2^32).
/// Holds for bursts shorter than 2^32 mutations.
pub proof fn lemma_burst_fires_once(w: WindowState, t: usize, n: nat)
    requires
        w.is_live(t),
        w.tasks.len() == 0,
        !w.task_source_closed,
        1 <= n < 0x1_0000_0000,
    ensures
        w.toggled_times(t, n).ran().fired == w.fired.push(
            PendingNotification { target: t, captured_sequence: advanced(w.counter(t), n) },
        ),
{
    let c = w.counter(t);
    lemma_toggled_times(w, t, n);
    let r = w.toggled_times(t, n);
    let s = burst(t, c, n);
    assert(r.tasks =~= s);
    let p = burst(t, c, (n - 1) as nat);
    let last = PendingNotification { target: t, captured_sequence: advanced(c, n) };
    assert(s =~= p.push(last));
    assert forall|i: int| 0 <= i < p.len() implies !r.is_current(#[trigger] p[i]) by {
        assert(advanced(c, (i + 1) as nat) != advanced(c, n));
    }
    lemma_nothing_current(r, p);
    p.lemma_filter_push(last, |m: PendingNotification| r.is_current(m));
    assert(r.delivered(s) =~= seq![last]);
    assert(r.ran().fired =~= w.fired.push(last));
}

/// Once the element behind `t` is destroyed, running the queue fires no
/// event on it, whatever was queued for it; the events fired before stay.
pub proof fn lemma_destroyed_target_never_fires(w: WindowState, t: usize)
    ensures
        ({
            let d = w.destroyed(t);
            let r = d.ran();
            &&& r.fired.len() >= w.fired.len()
            &&& r.fired.subrange(0, w.fired.len() as int) == w.fired
            &&& forall|k: int| w.fired.len() <= k < r.fired.len() ==> (#[trigger] r.fired[k]).target != t
        }),
{
    let d = w.destroyed(t);
    let r = d.ran();
    assert(!d.is_live(t));
    assert(r.fired.subrange(0, w.fired.len() as int) =~= w.fired);
    assert forall|k: int| w.fired.len() <= k < r.fired.len() implies (#[trigger] r.fired[k]).target != t by {
        let j = k - w.fired.len();
        d.tasks.lemma_filter_pred(|m: PendingNotification| d.is_current(m), j);
        assert(r.fired[k] == d.delivered(d.tasks)[j]);
    }
}

/// After `k` mutations of the watched attribute of a newly created element,
/// its counter equals `n` exactly when `n` is `k` modulo 2^32, which is what
/// `check_toggle_count(n)` reports.
pub proof fn lemma_counter_counts_mutations(w: WindowState, k: nat, n: u32)
    requires
        w.elements.len() < usize::MAX,
    ensures
        ({
            let t = w.elements.len() as usize;
            let r = w.created().toggled_times(t, k);
            &&& r.is_live(t)
            &&& (r.counter(t) == n <==> n == k % 0x1_0000_0000)
        }),
{
    let t = w.elements.len() as usize;
    let c = w.created();
    assert(c.is_live(t));
    assert(c.counter(t) == 0);
    lemma_toggled_times(c, t, k);
}

/// Setting the `open` attribute of a live element to the value it already
/// has still advances its counter and (with an open task source) still
/// queues a notification that captures the new value.
pub proof fn lemma_unchanged_value_still_counts(w: WindowState, t: usize, value: bool)
    requires
        w.is_live(t),
        w.elements[t as int].unwrap().open == value,
    ensures
        w.opened(t, value).counter(t) == next_toggle(w.counter(t)),
        w.opened(t, value).elements[t as int].unwrap().open == value,
        !w.task_source_closed ==> w.opened(t, value).tasks == w.tasks.push(
            PendingNotification { target: t, captured_sequence: next_toggle(w.counter(t)) },
        ),
{
}

} // verus!
