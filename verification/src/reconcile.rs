//! The bounded-window correlator that merges the two keyboard observers.
//!
//! The device-state observer reports press/release transitions with accurate
//! key identity but is focus-blind: it sees keys held in any application.
//! The focused-input observer yields an instant for each item the terminal
//! delivered, which the host only does while this process holds focus. The
//! [`Reconciler`] holds every device transition pending, stamped with its
//! arrival instant, and accepts a pending signal as soon as its instant lies
//! within the correlation window of the last focus instant — in either
//! temporal direction, since the confirming focus signal may arrive before
//! or after the device signal. A pending signal older than the window with
//! no corroboration is dropped silently, as belonging to an unfocused
//! application.
//!
//! [`lemma_focus_isolation`] and [`lemma_corroborated_accepted_once`] state
//! the two guarantees: an uncorroborated signal never reaches the consumer,
//! and a corroborated one is delivered exactly once.
//!
//! All instants are milliseconds on one monotone clock; the window is a
//! tunable parameter, [`DEFAULT_WINDOW_MS`] by default.

use vstd::prelude::*;

use crate::keyboard::KeyEvent;

verus! {

/// The default correlation window, in milliseconds.
pub const DEFAULT_WINDOW_MS: u64 = 20;

/// Whether a device instant is confirmed by the last focus instant: the
/// absolute difference is at most the window, in either direction.
pub open spec fn corroborated(instant: u64, last_focus: Option<u64>, window: u64) -> bool {
    match last_focus {
        Some(focus) => (instant <= focus && focus - instant <= window) || (focus <= instant
            && instant - focus <= window),
        None => false,
    }
}

/// Whether a pending signal is older than the window at `now`.
pub open spec fn expired(instant: u64, now: u64, window: u64) -> bool {
    now > instant + window
}

/// The signals a sweep at `now` accepts, in pending order: those not yet
/// expired whose instant the last focus instant corroborates.
pub open spec fn accepted_events(
    pending: Seq<(KeyEvent, u64)>,
    last_focus: Option<u64>,
    now: u64,
    window: u64,
) -> Seq<KeyEvent>
    decreases pending.len(),
{
    if pending.len() == 0 {
        Seq::<KeyEvent>::empty()
    } else {
        (if !expired(pending[0].1, now, window) && corroborated(pending[0].1, last_focus, window) {
            seq![pending[0].0]
        } else {
            Seq::<KeyEvent>::empty()
        }) + accepted_events(pending.skip(1), last_focus, now, window)
    }
}

/// The signals a sweep at `now` keeps pending: those neither expired nor
/// corroborated. Expired uncorroborated signals are dropped silently.
pub open spec fn kept_pending(
    pending: Seq<(KeyEvent, u64)>,
    last_focus: Option<u64>,
    now: u64,
    window: u64,
) -> Seq<(KeyEvent, u64)>
    decreases pending.len(),
{
    if pending.len() == 0 {
        Seq::<(KeyEvent, u64)>::empty()
    } else {
        (if !expired(pending[0].1, now, window) && !corroborated(
            pending[0].1,
            last_focus,
            window,
        ) {
            seq![pending[0]]
        } else {
            Seq::<(KeyEvent, u64)>::empty()
        }) + kept_pending(pending.skip(1), last_focus, now, window)
    }
}

/// The correlation stage: device transitions pending acceptance or expiry,
/// the most recent focus-confirmation instant, and the window.
pub struct Reconciler {
    pending: Vec<(KeyEvent, u64)>,
    last_focus: Option<u64>,
    window: u64,
}

impl Reconciler {
    /// The pending signals, in arrival order.
    pub closed spec fn spec_pending(self) -> Seq<(KeyEvent, u64)> {
        self.pending@
    }

    /// The most recent focus-confirmation instant, if any arrived yet.
    pub closed spec fn spec_last_focus(self) -> Option<u64> {
        self.last_focus
    }

    /// The correlation window, in milliseconds.
    pub closed spec fn spec_window(self) -> u64 {
        self.window
    }

    /// A correlation stage with the given window: nothing pending, no focus
    /// confirmation seen yet, so nothing can be accepted until one arrives.
    pub fn new(window_ms: u64) -> (r: Reconciler)
        ensures
            r.spec_pending() == Seq::<(KeyEvent, u64)>::empty(),
            r.spec_last_focus() is None,
            r.spec_window() == window_ms,
    {
        Reconciler { pending: Vec::new(), last_focus: None, window: window_ms }
    }

    /// Records that the focused-input observer saw terminal input at
    /// `instant`: it becomes the confirmation instant for the sweeps that
    /// follow.
    pub fn note_focus(&mut self, instant: u64)
        ensures
            final(self).spec_pending() == old(self).spec_pending(),
            final(self).spec_last_focus() == Some(instant),
            final(self).spec_window() == old(self).spec_window(),
    {
        self.last_focus = Some(instant);
    }

    /// Appends a device-observed transition to the pending list, tagged with
    /// its arrival instant.
    pub fn observe_device_event(&mut self, event: KeyEvent, instant: u64)
        ensures
            final(self).spec_pending() == old(self).spec_pending().push((event, instant)),
            final(self).spec_last_focus() == old(self).spec_last_focus(),
            final(self).spec_window() == old(self).spec_window(),
    {
        self.pending.push((event, instant));
    }

    /// One correlation sweep at `now`: forwards, in order, exactly the
    /// pending signals the last focus instant corroborates and that have
    /// not expired; keeps exactly those neither corroborated nor expired;
    /// drops the rest silently.
    pub fn sweep(&mut self, now: u64) -> (accepted: Vec<KeyEvent>)
        ensures
            accepted@ == accepted_events(
                old(self).spec_pending(),
                old(self).spec_last_focus(),
                now,
                old(self).spec_window(),
            ),
            final(self).spec_pending() == kept_pending(
                old(self).spec_pending(),
                old(self).spec_last_focus(),
                now,
                old(self).spec_window(),
            ),
            final(self).spec_last_focus() == old(self).spec_last_focus(),
            final(self).spec_window() == old(self).spec_window(),
    {
        let ghost all = self.pending@;
        let ghost lf = self.last_focus;
        let ghost w = self.window;
        let n: usize = self.pending.len();
        let mut accepted: Vec<KeyEvent> = Vec::new();
        let mut kept: Vec<(KeyEvent, u64)> = Vec::new();
        let mut i: usize = 0;
        proof {
            assert(all.skip(0) =~= all);
        }
        while i < n
            invariant
                n == all.len(),
                i <= n,
                self.pending@ == all,
                self.last_focus == lf,
                self.window == w,
                accepted_events(all, lf, now, w) == accepted@ + accepted_events(
                    all.skip(i as int),
                    lf,
                    now,
                    w,
                ),
                kept_pending(all, lf, now, w) == kept@ + kept_pending(all.skip(i as int), lf, now, w),
            decreases n - i,
        {
            let ghost acc_pre = accepted@;
            let ghost kept_pre = kept@;
            let ghost rest = all.skip(i as int);
            let (event, instant) = self.pending[i];
            let fresh = !(now > instant && now - instant > self.window);
            let confirmed = match self.last_focus {
                Some(focus) => {
                    if instant <= focus {
                        focus - instant <= self.window
                    } else {
                        instant - focus <= self.window
                    }
                },
                None => false,
            };
            if fresh && confirmed {
                accepted.push(event);
            } else if fresh {
                kept.push((event, instant));
            }
            proof {
                assert(rest[0] == all[i as int]);
                assert(rest.skip(1) =~= all.skip(i as int + 1));
                assert(fresh == !expired(instant, now, w));
                assert(confirmed == corroborated(instant, lf, w));
                if fresh && confirmed {
                    assert(accepted@ =~= acc_pre + seq![event]);
                    assert(kept@ =~= kept_pre + Seq::<(KeyEvent, u64)>::empty());
                } else if fresh {
                    assert(accepted@ =~= acc_pre + Seq::<KeyEvent>::empty());
                    assert(kept@ =~= kept_pre + seq![(event, instant)]);
                } else {
                    assert(accepted@ =~= acc_pre + Seq::<KeyEvent>::empty());
                    assert(kept@ =~= kept_pre + Seq::<(KeyEvent, u64)>::empty());
                }
            }
            i = i + 1;
        }
        proof {
            assert(all.skip(n as int) =~= Seq::<(KeyEvent, u64)>::empty());
            assert(accepted@ =~= accepted@ + Seq::<KeyEvent>::empty());
            assert(kept@ =~= kept@ + Seq::<(KeyEvent, u64)>::empty());
        }
        self.pending = kept;
        accepted
    }
}

/// Focus isolation: over one sweep, an event whose pending entries all lack
/// a focus confirmation within the window (on either side) never reaches
/// the output — it is kept for a later sweep or dropped, never forwarded.
pub proof fn lemma_focus_isolation(
    pending: Seq<(KeyEvent, u64)>,
    last_focus: Option<u64>,
    now: u64,
    window: u64,
    event: KeyEvent,
)
    requires
        forall|i: int|
            0 <= i < pending.len() && pending[i].0 == event ==> !corroborated(
                pending[i].1,
                last_focus,
                window,
            ),
    ensures
        !accepted_events(pending, last_focus, now, window).contains(event),
    decreases pending.len(),
{
    if pending.len() > 0 {
        let head: Seq<KeyEvent> = if !expired(pending[0].1, now, window) && corroborated(
            pending[0].1,
            last_focus,
            window,
        ) {
            seq![pending[0].0]
        } else {
            Seq::<KeyEvent>::empty()
        };
        let rest = accepted_events(pending.skip(1), last_focus, now, window);
        assert forall|i: int|
            0 <= i < pending.skip(1).len() && pending.skip(1)[i].0 == event implies !corroborated(
            pending.skip(1)[i].1,
            last_focus,
            window,
        ) by {
            assert(pending.skip(1)[i] == pending[i + 1]);
        }
        lemma_focus_isolation(pending.skip(1), last_focus, now, window, event);
        let acc = accepted_events(pending, last_focus, now, window);
        assert(acc == head + rest);
        assert(!head.contains(event)) by {
            if head.len() > 0 {
                assert(corroborated(pending[0].1, last_focus, window));
                assert(pending[0].0 != event);
                assert(head[0] != event);
            }
        }
        assert(!acc.contains(event)) by {
            if acc.contains(event) {
                let j = choose|j: int| 0 <= j < acc.len() && acc[j] == event;
                if j < head.len() {
                    assert(head[j] == event);
                } else {
                    assert(rest[j - head.len()] == event);
                    assert(rest.contains(event));
                }
            }
        }
    }
}

/// How often an event occurs in a forwarded stream.
pub open spec fn event_count(events: Seq<KeyEvent>, event: KeyEvent) -> nat
    decreases events.len(),
{
    if events.len() == 0 {
        0
    } else {
        (if events[0] == event {
            1nat
        } else {
            0nat
        }) + event_count(events.skip(1), event)
    }
}

/// How often an event occurs in a pending list.
pub open spec fn pending_count(pending: Seq<(KeyEvent, u64)>, event: KeyEvent) -> nat
    decreases pending.len(),
{
    if pending.len() == 0 {
        0
    } else {
        (if pending[0].0 == event {
            1nat
        } else {
            0nat
        }) + pending_count(pending.skip(1), event)
    }
}

/// An event with no pending entry is neither accepted nor kept by a sweep.
proof fn lemma_not_pending_not_swept(
    pending: Seq<(KeyEvent, u64)>,
    last_focus: Option<u64>,
    now: u64,
    window: u64,
    event: KeyEvent,
)
    requires
        pending_count(pending, event) == 0,
    ensures
        event_count(accepted_events(pending, last_focus, now, window), event) == 0,
        pending_count(kept_pending(pending, last_focus, now, window), event) == 0,
    decreases pending.len(),
{
    if pending.len() > 0 {
        lemma_not_pending_not_swept(pending.skip(1), last_focus, now, window, event);
        let acc = accepted_events(pending, last_focus, now, window);
        let rest_acc = accepted_events(pending.skip(1), last_focus, now, window);
        let kept = kept_pending(pending, last_focus, now, window);
        let rest_kept = kept_pending(pending.skip(1), last_focus, now, window);
        assert(pending[0].0 != event);
        if !expired(pending[0].1, now, window) && corroborated(pending[0].1, last_focus, window) {
            assert(acc[0] == pending[0].0);
            assert(acc.skip(1) =~= rest_acc);
            assert(kept =~= rest_kept);
        } else if !expired(pending[0].1, now, window) {
            assert(acc =~= rest_acc);
            assert(kept[0] == pending[0]);
            assert(kept.skip(1) =~= rest_kept);
        } else {
            assert(acc =~= rest_acc);
            assert(kept =~= rest_kept);
        }
    }
}

/// Exactly-once delivery: an event pending exactly once, whose entry the
/// last focus instant corroborates within the window and which has not
/// expired, is forwarded by one sweep exactly once and removed from the
/// pending list, so no later sweep can forward it again.
pub proof fn lemma_corroborated_accepted_once(
    pending: Seq<(KeyEvent, u64)>,
    last_focus: Option<u64>,
    now: u64,
    window: u64,
    event: KeyEvent,
)
    requires
        pending_count(pending, event) == 1,
        forall|i: int|
            0 <= i < pending.len() && pending[i].0 == event ==> corroborated(
                pending[i].1,
                last_focus,
                window,
            ) && !expired(pending[i].1, now, window),
    ensures
        event_count(accepted_events(pending, last_focus, now, window), event) == 1,
        pending_count(kept_pending(pending, last_focus, now, window), event) == 0,
    decreases pending.len(),
{
    if pending.len() > 0 {
        let acc = accepted_events(pending, last_focus, now, window);
        let rest_acc = accepted_events(pending.skip(1), last_focus, now, window);
        let kept = kept_pending(pending, last_focus, now, window);
        let rest_kept = kept_pending(pending.skip(1), last_focus, now, window);
        assert forall|i: int|
            0 <= i < pending.skip(1).len() && pending.skip(1)[i].0 == event implies corroborated(
            pending.skip(1)[i].1,
            last_focus,
            window,
        ) && !expired(pending.skip(1)[i].1, now, window) by {
            assert(pending.skip(1)[i] == pending[i + 1]);
        }
        if pending[0].0 == event {
            assert(corroborated(pending[0].1, last_focus, window));
            assert(!expired(pending[0].1, now, window));
            assert(pending_count(pending.skip(1), event) == 0);
            lemma_not_pending_not_swept(pending.skip(1), last_focus, now, window, event);
            assert(acc[0] == event);
            assert(acc.skip(1) =~= rest_acc);
            assert(kept =~= rest_kept);
        } else {
            assert(pending_count(pending.skip(1), event) == 1);
            lemma_corroborated_accepted_once(pending.skip(1), last_focus, now, window, event);
            if !expired(pending[0].1, now, window) && corroborated(
                pending[0].1,
                last_focus,
                window,
            ) {
                assert(acc[0] == pending[0].0);
                assert(acc.skip(1) =~= rest_acc);
                assert(kept =~= rest_kept);
            } else if !expired(pending[0].1, now, window) {
                assert(acc =~= rest_acc);
                assert(kept[0] == pending[0]);
                assert(kept.skip(1) =~= rest_kept);
            } else {
                assert(acc =~= rest_acc);
                assert(kept =~= rest_kept);
            }
        }
    }
}

} // verus!
