//! Key identities, press/release events, and the per-frame event queue.
//!
//! [`Keyboard`] is the consumer end of the reconciliation engine: once per
//! frame, [`Keyboard::consume_key_events`] drains the accepted signals and
//! applies them to the down-key map — all `Pressed` signals first, then all
//! `Released` signals. A press of a key already down is suppressed
//! (edge-triggered, no repeat) and a release of a key not down is ignored.
//! [`Keyboard::get_keys_down`] lists the held keys oldest-first.
//!
//! The whole step is specified by [`consume_spec`] over the ghost
//! [`KeyboardModel`]; [`pressed_transitions`] and [`released_transitions`]
//! compute the press/release transitions between two device samples.

use vstd::prelude::*;

use crate::backend;

verus! {

/// The keys the runtime can identify, plus an `Unknown` catch-all for
/// detected keys whose identity cannot be ascertained.
///
/// The values from `Grave` on name positions on a U.S. ASCII keyboard
/// layout rather than key types; other layouts may fire them differently.
#[derive(Clone, Copy, PartialEq, Eq, Hash, Debug, Structural)]
pub enum Key {
    Esc,
    Space,
    Enter,
    Backspace,
    CapsLock,
    Tab,
    Up,
    Down,
    Left,
    Right,
    Home,
    End,
    PageUp,
    PageDown,
    Insert,
    Delete,
    A,
    B,
    C,
    D,
    E,
    F,
    G,
    H,
    I,
    J,
    K,
    L,
    M,
    N,
    O,
    P,
    Q,
    R,
    S,
    T,
    U,
    V,
    W,
    X,
    Y,
    Z,
    Num0,
    Num1,
    Num2,
    Num3,
    Num4,
    Num5,
    Num6,
    Num7,
    Num8,
    Num9,
    F1,
    F2,
    F3,
    F4,
    F5,
    F6,
    F7,
    F8,
    F9,
    F10,
    F11,
    F12,
    Grave,
    Minus,
    Equal,
    LeftBracket,
    RightBracket,
    BackSlash,
    Semicolon,
    Apostrophe,
    Comma,
    Dot,
    Slash,
    Unknown,
}

/// The two events detected for each key.
#[derive(Clone, Copy, PartialEq, Eq, Debug, Structural)]
pub enum KeyEvent {
    Pressed(Key),
    Released(Key),
}

impl KeyEvent {
    /// The wrapped key when the event is `Pressed`, `None` otherwise.
    pub fn pressed(self) -> (r: Option<Key>)
        ensures
            r == (match self {
                KeyEvent::Pressed(key) => Some(key),
                KeyEvent::Released(_) => None::<Key>,
            }),
    {
        if let KeyEvent::Pressed(key) = self {
            Some(key)
        } else {
            None
        }
    }

    /// The wrapped key when the event is `Released`, `None` otherwise.
    pub fn released(self) -> (r: Option<Key>)
        ensures
            r == (match self {
                KeyEvent::Released(key) => Some(key),
                KeyEvent::Pressed(_) => None::<Key>,
            }),
    {
        if let KeyEvent::Released(key) = self {
            Some(key)
        } else {
            None
        }
    }
}

/// The press transitions between two device samples: one `Pressed` event,
/// in sample order, for each key held now but not before. An unmapped key
/// surfaces as `Unknown` rather than being dropped, leaving policy to the
/// caller.
pub open spec fn press_events(new_state: Seq<Key>, last_state: Seq<Key>) -> Seq<KeyEvent>
    decreases new_state.len(),
{
    if new_state.len() == 0 {
        Seq::<KeyEvent>::empty()
    } else {
        (if !last_state.contains(new_state[0]) {
            seq![KeyEvent::Pressed(new_state[0])]
        } else {
            Seq::<KeyEvent>::empty()
        }) + press_events(new_state.skip(1), last_state)
    }
}

/// The release transitions between two device samples: one `Released`
/// event, in sample order, for each key held before but not now. An
/// unmapped key surfaces as `Unknown` rather than being dropped, leaving
/// policy to the caller.
pub open spec fn release_events(last_state: Seq<Key>, new_state: Seq<Key>) -> Seq<KeyEvent>
    decreases last_state.len(),
{
    if last_state.len() == 0 {
        Seq::<KeyEvent>::empty()
    } else {
        (if !new_state.contains(last_state[0]) {
            seq![KeyEvent::Released(last_state[0])]
        } else {
            Seq::<KeyEvent>::empty()
        }) + release_events(last_state.skip(1), new_state)
    }
}

/// Whether the sample holds the given key.
pub fn keys_contain(keys: &Vec<Key>, key: Key) -> (r: bool)
    ensures
        r == keys@.contains(key),
{
    let n: usize = keys.len();
    let mut i: usize = 0;
    while i < n
        invariant
            n == keys@.len(),
            i <= n,
            forall|j: int| 0 <= j < i ==> keys@[j] != key,
        decreases n - i,
    {
        if keys[i] == key {
            proof {
                assert(keys@[i as int] == key);
            }
            return true;
        }
        i = i + 1;
    }
    proof {
        assert(!keys@.contains(key));
    }
    false
}

/// Diffs two successive device samples into `Pressed` events: exactly
/// [`press_events`] of the samples.
pub fn pressed_transitions(new_state: &Vec<Key>, last_state: &Vec<Key>) -> (r: Vec<KeyEvent>)
    ensures
        r@ == press_events(new_state@, last_state@),
{
    let n: usize = new_state.len();
    let mut r: Vec<KeyEvent> = Vec::new();
    let mut i: usize = 0;
    proof {
        assert(new_state@.skip(0) =~= new_state@);
    }
    while i < n
        invariant
            n == new_state@.len(),
            i <= n,
            press_events(new_state@, last_state@) == r@ + press_events(
                new_state@.skip(i as int),
                last_state@,
            ),
        decreases n - i,
    {
        let ghost r_pre = r@;
        let ghost rest = new_state@.skip(i as int);
        let key = new_state[i];
        if !keys_contain(last_state, key) {
            r.push(KeyEvent::Pressed(key));
        }
        proof {
            assert(rest[0] == new_state@[i as int]);
            assert(rest.skip(1) =~= new_state@.skip(i as int + 1));
            if !last_state@.contains(key) {
                assert(r@ =~= r_pre + seq![KeyEvent::Pressed(key)]);
            } else {
                assert(r@ =~= r_pre + Seq::<KeyEvent>::empty());
            }
        }
        i = i + 1;
    }
    proof {
        assert(new_state@.skip(n as int) =~= Seq::<Key>::empty());
        assert(r@ =~= r@ + Seq::<KeyEvent>::empty());
    }
    r
}

/// Diffs two successive device samples into `Released` events: exactly
/// [`release_events`] of the samples.
pub fn released_transitions(new_state: &Vec<Key>, last_state: &Vec<Key>) -> (r: Vec<KeyEvent>)
    ensures
        r@ == release_events(last_state@, new_state@),
{
    let n: usize = last_state.len();
    let mut r: Vec<KeyEvent> = Vec::new();
    let mut i: usize = 0;
    proof {
        assert(last_state@.skip(0) =~= last_state@);
    }
    while i < n
        invariant
            n == last_state@.len(),
            i <= n,
            release_events(last_state@, new_state@) == r@ + release_events(
                last_state@.skip(i as int),
                new_state@,
            ),
        decreases n - i,
    {
        let ghost r_pre = r@;
        let ghost rest = last_state@.skip(i as int);
        let key = last_state[i];
        if !keys_contain(new_state, key) {
            r.push(KeyEvent::Released(key));
        }
        proof {
            assert(rest[0] == last_state@[i as int]);
            assert(rest.skip(1) =~= last_state@.skip(i as int + 1));
            if !new_state@.contains(key) {
                assert(r@ =~= r_pre + seq![KeyEvent::Released(key)]);
            } else {
                assert(r@ =~= r_pre + Seq::<KeyEvent>::empty());
            }
        }
        i = i + 1;
    }
    proof {
        assert(last_state@.skip(n as int) =~= Seq::<Key>::empty());
        assert(r@ =~= r@ + Seq::<KeyEvent>::empty());
    }
    r
}

/// The ghost state of the per-frame queue: the down-key map as
/// (key, insertion stamp) pairs in insertion order, the batch of events
/// accepted this frame, and the next stamp to hand out.
pub struct KeyboardModel {
    pub downs: Seq<(Key, usize)>,
    pub batch: Seq<KeyEvent>,
    pub next_stamp: usize,
}

/// The held keys of a down-key map, in map order.
pub open spec fn down_keys(downs: Seq<(Key, usize)>) -> Seq<Key> {
    downs.map_values(|p: (Key, usize)| p.0)
}

/// Whether the down-key map holds the given key.
pub open spec fn has_key(downs: Seq<(Key, usize)>, key: Key) -> bool {
    exists|i: int| 0 <= i < downs.len() && downs[i].0 == key
}

/// The down-key map without its first entry for the given key.
pub open spec fn remove_key(downs: Seq<(Key, usize)>, key: Key) -> Seq<(Key, usize)>
    decreases downs.len(),
{
    if downs.len() == 0 {
        downs
    } else if downs[0].0 == key {
        downs.skip(1)
    } else {
        seq![downs[0]] + remove_key(downs.skip(1), key)
    }
}

/// The down-key map invariant: stamps strictly increase along the map (so
/// map order is hold order), every stamp is below the next one to hand out,
/// and no key appears twice.
pub open spec fn downs_wf(downs: Seq<(Key, usize)>, next_stamp: usize) -> bool {
    &&& forall|i: int, j: int| 0 <= i < j < downs.len() ==> downs[i].1 < downs[j].1
    &&& forall|i: int| 0 <= i < downs.len() ==> downs[i].1 < next_stamp
    &&& forall|i: int, j: int| 0 <= i < j < downs.len() ==> downs[i].0 != downs[j].0
}

/// One `Pressed` signal: a key not already down is inserted with the next
/// stamp and appended to the batch; a key already down is suppressed. (A
/// press arriving once the stamp space is exhausted is suppressed rather
/// than wrapping; stamps never reach that point in practice.)
pub open spec fn press_step(m: KeyboardModel, key: Key) -> KeyboardModel {
    if has_key(m.downs, key) || m.next_stamp == usize::MAX {
        m
    } else {
        KeyboardModel {
            downs: m.downs.push((key, m.next_stamp)),
            batch: m.batch.push(KeyEvent::Pressed(key)),
            next_stamp: (m.next_stamp + 1) as usize,
        }
    }
}

/// One `Released` signal: a key currently down is removed and the release
/// appended to the batch; a key not down is ignored.
pub open spec fn release_step(m: KeyboardModel, key: Key) -> KeyboardModel {
    if has_key(m.downs, key) {
        KeyboardModel {
            downs: remove_key(m.downs, key),
            batch: m.batch.push(KeyEvent::Released(key)),
            next_stamp: m.next_stamp,
        }
    } else {
        m
    }
}

/// Applies the `Pressed` signals of a drained batch, in order, skipping
/// releases.
pub open spec fn apply_presses(m: KeyboardModel, events: Seq<KeyEvent>) -> KeyboardModel
    decreases events.len(),
{
    if events.len() == 0 {
        m
    } else {
        let m1 = match events[0] {
            KeyEvent::Pressed(key) => press_step(m, key),
            KeyEvent::Released(_) => m,
        };
        apply_presses(m1, events.skip(1))
    }
}

/// Applies the `Released` signals of a drained batch, in order, skipping
/// presses.
pub open spec fn apply_releases(m: KeyboardModel, events: Seq<KeyEvent>) -> KeyboardModel
    decreases events.len(),
{
    if events.len() == 0 {
        m
    } else {
        let m1 = match events[0] {
            KeyEvent::Released(key) => release_step(m, key),
            KeyEvent::Pressed(_) => m,
        };
        apply_releases(m1, events.skip(1))
    }
}

/// One per-frame consumption step: the previous batch is cleared, then all
/// accepted `Pressed` signals are applied, then all accepted `Released`
/// signals — so a key pressed and released within one frame yields a
/// discrete press followed by a release, never coalesced away.
pub open spec fn consume_spec(m: KeyboardModel, events: Seq<KeyEvent>) -> KeyboardModel {
    let cleared = KeyboardModel { downs: m.downs, batch: Seq::<KeyEvent>::empty(), next_stamp: m.next_stamp };
    apply_releases(apply_presses(cleared, events), events)
}

/// Removing the first entry of `key`, found at index `i`, is removing index
/// `i`.
proof fn lemma_remove_key_at(downs: Seq<(Key, usize)>, key: Key, i: int)
    requires
        0 <= i < downs.len(),
        downs[i].0 == key,
        forall|j: int| 0 <= j < i ==> downs[j].0 != key,
    ensures
        remove_key(downs, key) == downs.remove(i),
    decreases i,
{
    if i == 0 {
        assert(remove_key(downs, key) =~= downs.remove(0));
    } else {
        lemma_remove_key_at(downs.skip(1), key, i - 1);
        assert(downs[0].0 != key);
        assert(remove_key(downs, key) == seq![downs[0]] + remove_key(downs.skip(1), key));
        assert(seq![downs[0]] + downs.skip(1).remove(i - 1) =~= downs.remove(i));
    }
}

/// Removing an entry preserves the down-key map invariant.
proof fn lemma_downs_wf_remove(downs: Seq<(Key, usize)>, next_stamp: usize, i: int)
    requires
        downs_wf(downs, next_stamp),
        0 <= i < downs.len(),
    ensures
        downs_wf(downs.remove(i), next_stamp),
{
    downs.remove_ensures(i);
    let r = downs.remove(i);
    assert forall|a: int, b: int| 0 <= a < b < r.len() implies r[a].1 < r[b].1 && r[a].0 != r[b].0 by {
        if a < i && b < i {
            assert(r[a] == downs[a] && r[b] == downs[b]);
        } else if a < i {
            assert(r[a] == downs[a] && r[b] == downs[b + 1]);
        } else {
            assert(r[a] == downs[a + 1] && r[b] == downs[b + 1]);
        }
    }
    assert forall|a: int| 0 <= a < r.len() implies r[a].1 < next_stamp by {
        if a < i {
            assert(r[a] == downs[a]);
        } else {
            assert(r[a] == downs[a + 1]);
        }
    }
}

/// Consuming with no accepted signals returns an empty batch and changes
/// nothing: in particular, draining twice with no new accepted signals
/// between the calls leaves the second batch empty.
pub proof fn lemma_empty_drain_empty_batch(m: KeyboardModel)
    ensures
        consume_spec(m, Seq::<KeyEvent>::empty()).batch == Seq::<KeyEvent>::empty(),
        consume_spec(m, Seq::<KeyEvent>::empty()).downs == m.downs,
        consume_spec(m, Seq::<KeyEvent>::empty()).next_stamp == m.next_stamp,
{
}

/// The press pass only appends presses: the batch it leaves extends the one
/// it got, and every appended event is a `Pressed`.
proof fn lemma_apply_presses_batch(m: KeyboardModel, events: Seq<KeyEvent>)
    ensures
        apply_presses(m, events).batch.len() >= m.batch.len(),
        forall|i: int|
            0 <= i < m.batch.len() ==> apply_presses(m, events).batch[i] == m.batch[i],
        forall|i: int|
            m.batch.len() <= i < apply_presses(m, events).batch.len() ==> apply_presses(
                m,
                events,
            ).batch[i] is Pressed,
    decreases events.len(),
{
    if events.len() > 0 {
        let m1 = match events[0] {
            KeyEvent::Pressed(key) => press_step(m, key),
            KeyEvent::Released(_) => m,
        };
        assert(apply_presses(m, events) == apply_presses(m1, events.skip(1)));
        assert(m1.batch.len() >= m.batch.len());
        assert(forall|i: int| 0 <= i < m.batch.len() ==> m1.batch[i] == m.batch[i]);
        assert(forall|i: int| m.batch.len() <= i < m1.batch.len() ==> m1.batch[i] is Pressed);
        lemma_apply_presses_batch(m1, events.skip(1));
        assert forall|i: int|
            m.batch.len() <= i < apply_presses(m, events).batch.len() implies apply_presses(
            m,
            events,
        ).batch[i] is Pressed by {
            let r = apply_presses(m1, events.skip(1));
            if i < m1.batch.len() {
                assert(r.batch[i] == m1.batch[i]);
            } else {
                assert(r.batch[i] is Pressed);
            }
        }
    }
}

/// The release pass only appends releases: the batch it leaves extends the
/// one it got, and every appended event is a `Released`.
proof fn lemma_apply_releases_batch(m: KeyboardModel, events: Seq<KeyEvent>)
    ensures
        apply_releases(m, events).batch.len() >= m.batch.len(),
        forall|i: int|
            0 <= i < m.batch.len() ==> apply_releases(m, events).batch[i] == m.batch[i],
        forall|i: int|
            m.batch.len() <= i < apply_releases(m, events).batch.len() ==> apply_releases(
                m,
                events,
            ).batch[i] is Released,
    decreases events.len(),
{
    if events.len() > 0 {
        let m1 = match events[0] {
            KeyEvent::Released(key) => release_step(m, key),
            KeyEvent::Pressed(_) => m,
        };
        assert(apply_releases(m, events) == apply_releases(m1, events.skip(1)));
        assert(m1.batch.len() >= m.batch.len());
        assert(forall|i: int| 0 <= i < m.batch.len() ==> m1.batch[i] == m.batch[i]);
        assert(forall|i: int| m.batch.len() <= i < m1.batch.len() ==> m1.batch[i] is Released);
        lemma_apply_releases_batch(m1, events.skip(1));
        assert forall|i: int|
            m.batch.len() <= i < apply_releases(m, events).batch.len() implies apply_releases(
            m,
            events,
        ).batch[i] is Released by {
            let r = apply_releases(m1, events.skip(1));
            if i < m1.batch.len() {
                assert(r.batch[i] == m1.batch[i]);
            } else {
                assert(r.batch[i] is Released);
            }
        }
    }
}

/// Within one consumed batch, every accepted press precedes every accepted
/// release, regardless of arrival interleaving: a key pressed and released
/// within the same frame yields a discrete press followed by a release.
pub proof fn lemma_batch_presses_before_releases(m: KeyboardModel, events: Seq<KeyEvent>)
    ensures
        forall|i: int, j: int|
            0 <= i < j < consume_spec(m, events).batch.len() && consume_spec(
                m,
                events,
            ).batch[j] is Pressed ==> consume_spec(m, events).batch[i] is Pressed,
{
    let cleared = KeyboardModel {
        downs: m.downs,
        batch: Seq::<KeyEvent>::empty(),
        next_stamp: m.next_stamp,
    };
    let pressed = apply_presses(cleared, events);
    lemma_apply_presses_batch(cleared, events);
    lemma_apply_releases_batch(pressed, events);
    assert forall|i: int, j: int|
        0 <= i < j < consume_spec(m, events).batch.len() && consume_spec(
            m,
            events,
        ).batch[j] is Pressed implies consume_spec(m, events).batch[i] is Pressed by {
        let b = consume_spec(m, events).batch;
        assert(b == apply_releases(pressed, events).batch);
        assert(cleared.batch.len() == 0);
        if j < pressed.batch.len() {
            assert(b[i] == pressed.batch[i]);
            assert(pressed.batch[i] is Pressed);
        } else {
            assert(b[j] is Released);
        }
    }
}

/// Pressing three distinct corroborated keys in order holds them in that
/// order, oldest first; releasing the middle one leaves the other two with
/// their order kept.
pub proof fn lemma_press_three_release_middle(a: Key, b: Key, c: Key)
    requires
        a != b,
        b != c,
        a != c,
    ensures
        ({
            let m0 = KeyboardModel {
                downs: Seq::<(Key, usize)>::empty(),
                batch: Seq::<KeyEvent>::empty(),
                next_stamp: 0,
            };
            let m1 = consume_spec(
                m0,
                seq![KeyEvent::Pressed(a), KeyEvent::Pressed(b), KeyEvent::Pressed(c)],
            );
            let m2 = consume_spec(m1, seq![KeyEvent::Released(b)]);
            down_keys(m1.downs) == seq![a, b, c] && down_keys(m2.downs) == seq![a, c]
        }),
{
    let m0 = KeyboardModel {
        downs: Seq::<(Key, usize)>::empty(),
        batch: Seq::<KeyEvent>::empty(),
        next_stamp: 0,
    };
    let presses = seq![KeyEvent::Pressed(a), KeyEvent::Pressed(b), KeyEvent::Pressed(c)];
    let da = seq![(a, 0usize)];
    let dab = seq![(a, 0usize), (b, 1usize)];
    let dabc = seq![(a, 0usize), (b, 1usize), (c, 2usize)];

    assert(!has_key(m0.downs, a));
    let pa = press_step(m0, a);
    assert(pa.downs =~= da);
    assert(!has_key(da, b)) by {
        assert(forall|i: int| 0 <= i < da.len() ==> da[i].0 == a);
    }
    let pb = press_step(pa, b);
    assert(pb.downs =~= dab);
    assert(!has_key(pb.downs, c)) by {
        assert(pb.downs[0].0 == a && pb.downs[1].0 == b);
        assert(forall|i: int| 0 <= i < pb.downs.len() ==> pb.downs[i].0 != c);
    }
    let pc = press_step(pb, c);
    assert(pc.downs =~= dabc);

    let s1 = presses.skip(1);
    let s2 = s1.skip(1);
    let s3 = s2.skip(1);
    assert(s3 =~= Seq::<KeyEvent>::empty());
    assert(presses[0] == KeyEvent::Pressed(a) && s1[0] == KeyEvent::Pressed(b) && s2[0]
        == KeyEvent::Pressed(c));
    assert(apply_presses(m0, presses) == apply_presses(pa, s1));
    assert(apply_presses(pa, s1) == apply_presses(pb, s2));
    assert(apply_presses(pb, s2) == apply_presses(pc, s3));
    assert(apply_presses(pc, s3) == pc);
    let after_presses = apply_presses(m0, presses);
    assert(after_presses == pc);

    assert(forall|i: int| 0 <= i < presses.len() ==> presses[i] is Pressed);
    lemma_apply_releases_keeps_downs(after_presses, presses);
    let m1 = consume_spec(m0, presses);
    assert(m1.downs == pc.downs);
    assert(down_keys(m1.downs) =~= seq![a, b, c]);

    let release = seq![KeyEvent::Released(b)];
    let r1 = release.skip(1);
    assert(r1 =~= Seq::<KeyEvent>::empty());
    assert(release[0] == KeyEvent::Released(b));
    let m1c = KeyboardModel {
        downs: m1.downs,
        batch: Seq::<KeyEvent>::empty(),
        next_stamp: m1.next_stamp,
    };
    assert(apply_presses(m1c, release) == apply_presses(m1c, r1));
    assert(apply_presses(m1c, r1) == m1c);
    assert(has_key(m1.downs, b)) by {
        assert(m1.downs[1].0 == b);
    }
    assert(remove_key(dabc, b) =~= seq![(a, 0usize), (c, 2usize)]) by {
        assert(dabc[0].0 == a && a != b);
        assert(dabc.skip(1) =~= seq![(b, 1usize), (c, 2usize)]);
        assert(remove_key(dabc.skip(1), b) =~= seq![(c, 2usize)]) by {
            assert(dabc.skip(1)[0].0 == b);
            assert(dabc.skip(1).skip(1) =~= seq![(c, 2usize)]);
        }
    }
    let rel_step = release_step(m1c, b);
    assert(rel_step.downs =~= seq![(a, 0usize), (c, 2usize)]);
    assert(apply_releases(m1c, release) == apply_releases(rel_step, r1));
    assert(apply_releases(rel_step, r1) == rel_step);
    let m2 = consume_spec(m1, release);
    assert(m2.downs =~= seq![(a, 0usize), (c, 2usize)]);
    assert(down_keys(m2.downs) =~= seq![a, c]);
}

/// A pass that applies only releases leaves the down-key map unchanged when
/// the batch holds no `Released` events.
proof fn lemma_apply_releases_keeps_downs(m: KeyboardModel, events: Seq<KeyEvent>)
    requires
        forall|i: int| 0 <= i < events.len() ==> events[i] is Pressed,
    ensures
        apply_releases(m, events).downs == m.downs,
        apply_releases(m, events).next_stamp == m.next_stamp,
    decreases events.len(),
{
    if events.len() > 0 {
        assert(events[0] is Pressed);
        lemma_apply_releases_keeps_downs(m, events.skip(1));
    }
}

/// Removing an entry for one key adds no entry for another: a key absent
/// from the map stays absent.
proof fn lemma_remove_key_no_new(downs: Seq<(Key, usize)>, removed: Key, key: Key)
    requires
        forall|i: int| 0 <= i < downs.len() ==> downs[i].0 != key,
    ensures
        forall|j: int|
            0 <= j < remove_key(downs, removed).len() ==> remove_key(downs, removed)[j].0 != key,
    decreases downs.len(),
{
    if downs.len() > 0 {
        assert forall|i: int| 0 <= i < downs.skip(1).len() implies downs.skip(1)[i].0 != key by {
            assert(downs.skip(1)[i] == downs[i + 1]);
        }
        lemma_remove_key_no_new(downs.skip(1), removed, key);
        if downs[0].0 != removed {
            let r = seq![downs[0]] + remove_key(downs.skip(1), removed);
            assert forall|j: int| 0 <= j < r.len() implies r[j].0 != key by {
                if j > 0 {
                    assert(r[j] == remove_key(downs.skip(1), removed)[j - 1]);
                }
            }
        }
    }
}

/// The press pass inserts only keys whose press it was handed.
proof fn lemma_presses_no_new_key(m: KeyboardModel, events: Seq<KeyEvent>, key: Key)
    requires
        !has_key(m.downs, key),
        forall|i: int| 0 <= i < events.len() ==> events[i] != KeyEvent::Pressed(key),
    ensures
        !has_key(apply_presses(m, events).downs, key),
    decreases events.len(),
{
    if events.len() > 0 {
        let m1 = match events[0] {
            KeyEvent::Pressed(k) => press_step(m, k),
            KeyEvent::Released(_) => m,
        };
        assert(!has_key(m1.downs, key)) by {
            if m1.downs != m.downs {
                let pushed = m1.downs;
                assert forall|i: int| 0 <= i < pushed.len() implies pushed[i].0 != key by {
                    if i < pushed.len() - 1 {
                        assert(pushed[i] == m.downs[i]);
                        assert(m.downs[i].0 != key);
                    } else {
                        assert(events[0] != KeyEvent::Pressed(key));
                    }
                }
            }
        }
        lemma_presses_no_new_key(m1, events.skip(1), key);
    }
}

/// The release pass inserts nothing: a key absent from the map stays
/// absent.
proof fn lemma_releases_no_new_key(m: KeyboardModel, events: Seq<KeyEvent>, key: Key)
    requires
        !has_key(m.downs, key),
    ensures
        !has_key(apply_releases(m, events).downs, key),
    decreases events.len(),
{
    if events.len() > 0 {
        let m1 = match events[0] {
            KeyEvent::Released(k) => release_step(m, k),
            KeyEvent::Pressed(_) => m,
        };
        assert(!has_key(m1.downs, key)) by {
            if m1.downs != m.downs {
                let removed = match events[0] {
                    KeyEvent::Released(k) => k,
                    KeyEvent::Pressed(k) => k,
                };
                assert(forall|i: int| 0 <= i < m.downs.len() ==> m.downs[i].0 != key);
                lemma_remove_key_no_new(m.downs, removed, key);
            }
        }
        lemma_releases_no_new_key(m1, events.skip(1), key);
    }
}

/// Focus isolation at the consumer: a key not currently down whose press
/// was never accepted (because it was never corroborated) does not enter
/// the down-key map, whatever else the drained batch holds.
pub proof fn lemma_unseen_key_stays_out(m: KeyboardModel, events: Seq<KeyEvent>, key: Key)
    requires
        !has_key(m.downs, key),
        forall|i: int| 0 <= i < events.len() ==> events[i] != KeyEvent::Pressed(key),
    ensures
        !has_key(consume_spec(m, events).downs, key),
{
    let cleared = KeyboardModel {
        downs: m.downs,
        batch: Seq::<KeyEvent>::empty(),
        next_stamp: m.next_stamp,
    };
    lemma_presses_no_new_key(cleared, events, key);
    lemma_releases_no_new_key(apply_presses(cleared, events), events, key);
}

/// The state of the keyboard-facing side of the reconciliation engine: the
/// receiving end of the accepted-signal channel, the down-key map, and the
/// last frame's batch.
pub struct Keyboard {
    event_receiver: std::sync::mpsc::Receiver<KeyEvent>,
    state: Vec<(Key, usize)>,
    last_key_events: Vec<KeyEvent>,
    last_key_stamp: usize,
}

impl Keyboard {
    /// The ghost model: down-key map, batch, next stamp.
    pub closed spec fn model(self) -> KeyboardModel {
        KeyboardModel {
            downs: self.state@,
            batch: self.last_key_events@,
            next_stamp: self.last_key_stamp,
        }
    }

    /// The keyboard invariant: the down-key map is well-formed.
    pub open spec fn wf(self) -> bool {
        downs_wf(self.model().downs, self.model().next_stamp)
    }

    /// Builds a keyboard reading accepted signals from the given channel;
    /// no key is down and the batch is empty.
    pub fn new(event_receiver: std::sync::mpsc::Receiver<KeyEvent>) -> (r: Keyboard)
        ensures
            r.wf(),
            r.model().downs == Seq::<(Key, usize)>::empty(),
            r.model().batch == Seq::<KeyEvent>::empty(),
            r.model().next_stamp == 0,
    {
        Keyboard {
            event_receiver,
            state: Vec::new(),
            last_key_events: Vec::new(),
            last_key_stamp: 0,
        }
    }

    /// The key events accepted during the previous frame.
    pub fn last_key_events(&self) -> (r: &Vec<KeyEvent>)
        ensures
            r@ == self.model().batch,
    {
        &self.last_key_events
    }

    /// The currently held keys, oldest-held first.
    pub fn get_keys_down(&self) -> (r: Vec<Key>)
        ensures
            r@ == down_keys(self.model().downs),
    {
        let n: usize = self.state.len();
        let mut r: Vec<Key> = Vec::new();
        let mut i: usize = 0;
        while i < n
            invariant
                n == self.state@.len(),
                i <= n,
                r@.len() == i,
                forall|j: int| 0 <= j < i ==> r@[j] == self.state@[j].0,
            decreases n - i,
        {
            let entry = self.state[i];
            r.push(entry.0);
            i = i + 1;
        }
        proof {
            assert(r@ =~= down_keys(self.model().downs));
        }
        r
    }

    /// Whether the given key is currently down.
    fn is_key_down(&self, key: Key) -> (r: bool)
        ensures
            r == has_key(self.model().downs, key),
    {
        let n: usize = self.state.len();
        let mut i: usize = 0;
        while i < n
            invariant
                n == self.state@.len(),
                i <= n,
                forall|j: int| 0 <= j < i ==> self.state@[j].0 != key,
            decreases n - i,
        {
            if self.state[i].0 == key {
                proof {
                    assert(self.model().downs[i as int].0 == key);
                }
                return true;
            }
            i = i + 1;
        }
        false
    }

    /// Removes the (unique) down-map entry for a key known to be down.
    fn remove_down(&mut self, key: Key)
        requires
            old(self).wf(),
            has_key(old(self).model().downs, key),
        ensures
            final(self).wf(),
            final(self).model().downs == remove_key(old(self).model().downs, key),
            final(self).model().batch == old(self).model().batch,
            final(self).model().next_stamp == old(self).model().next_stamp,
    {
        let n: usize = self.state.len();
        let mut i: usize = 0;
        while i < n
            invariant
                n == self.state@.len(),
                i <= n,
                *self == *old(self),
                self.wf(),
                forall|j: int| 0 <= j < i ==> self.state@[j].0 != key,
            decreases n - i,
        {
            if self.state[i].0 == key {
                proof {
                    lemma_remove_key_at(self.state@, key, i as int);
                    lemma_downs_wf_remove(self.state@, self.last_key_stamp, i as int);
                }
                self.state.remove(i);
                return;
            }
            i = i + 1;
        }
        proof {
            let w = choose|j: int| 0 <= j < old(self).model().downs.len() && old(
                self,
            ).model().downs[j].0 == key;
            assert(self.state@[w].0 != key);
            assert(false);
        }
    }

    /// Applies one drained batch of accepted signals: exactly
    /// [`consume_spec`] of the model — presses first (edge-triggered),
    /// then releases.
    pub fn process_events(&mut self, events: &Vec<KeyEvent>)
        requires
            old(self).wf(),
        ensures
            final(self).wf(),
            final(self).model() == consume_spec(old(self).model(), events@),
    {
        self.last_key_events.clear();
        let ghost m0 = KeyboardModel {
            downs: old(self).model().downs,
            batch: Seq::<KeyEvent>::empty(),
            next_stamp: old(self).model().next_stamp,
        };
        proof {
            assert(self.model() == m0);
            assert(events@.skip(0) =~= events@);
        }
        let n: usize = events.len();
        let mut i: usize = 0;
        while i < n
            invariant
                n == events@.len(),
                i <= n,
                self.wf(),
                apply_presses(m0, events@) == apply_presses(self.model(), events@.skip(i as int)),
            decreases n - i,
        {
            let ghost pre = self.model();
            let ghost rest = events@.skip(i as int);
            let ev = events[i];
            match ev {
                KeyEvent::Pressed(key) => {
                    if !self.is_key_down(key) && self.last_key_stamp < usize::MAX {
                        let stamp = self.last_key_stamp;
                        self.state.push((key, stamp));
                        self.last_key_events.push(ev);
                        self.last_key_stamp = stamp + 1;
                        proof {
                            assert(self.model().downs =~= pre.downs.push((key, pre.next_stamp)));
                            assert(self.model().batch =~= pre.batch.push(KeyEvent::Pressed(key)));
                            assert(self.model() == press_step(pre, key));
                            assert forall|a: int, b: int|
                                0 <= a < b < self.model().downs.len() implies self.model().downs[a].1
                                < self.model().downs[b].1 && self.model().downs[a].0
                                != self.model().downs[b].0 by {
                                if b < self.model().downs.len() - 1 {
                                    assert(self.model().downs[a] == pre.downs[a]);
                                    assert(self.model().downs[b] == pre.downs[b]);
                                } else {
                                    assert(self.model().downs[a] == pre.downs[a]);
                                    assert(self.model().downs[b] == (key, pre.next_stamp));
                                    assert(!has_key(pre.downs, key));
                                    assert(pre.downs[a].0 != key);
                                }
                            }
                        }
                    } else {
                        proof {
                            assert(self.model() == press_step(pre, key));
                        }
                    }
                }
                KeyEvent::Released(_) => {},
            }
            proof {
                assert(rest[0] == events@[i as int]);
                assert(rest.skip(1) =~= events@.skip(i as int + 1));
            }
            i = i + 1;
        }
        let ghost m1 = apply_presses(m0, events@);
        proof {
            assert(events@.skip(n as int) =~= Seq::<KeyEvent>::empty());
            assert(self.model() == m1);
            assert(events@.skip(0) =~= events@);
        }
        let mut k: usize = 0;
        while k < n
            invariant
                n == events@.len(),
                k <= n,
                self.wf(),
                apply_releases(m1, events@) == apply_releases(self.model(), events@.skip(k as int)),
            decreases n - k,
        {
            let ghost pre = self.model();
            let ghost rest = events@.skip(k as int);
            let ev = events[k];
            match ev {
                KeyEvent::Released(key) => {
                    if self.is_key_down(key) {
                        self.remove_down(key);
                        self.last_key_events.push(ev);
                        proof {
                            assert(self.model() == release_step(pre, key));
                        }
                    } else {
                        proof {
                            assert(self.model() == release_step(pre, key));
                        }
                    }
                }
                KeyEvent::Pressed(_) => {},
            }
            proof {
                assert(rest[0] == events@[k as int]);
                assert(rest.skip(1) =~= events@.skip(k as int + 1));
            }
            k = k + 1;
        }
        proof {
            assert(events@.skip(n as int) =~= Seq::<KeyEvent>::empty());
            assert(self.model() == consume_spec(old(self).model(), events@));
        }
    }

    /// Clears the previous frame's batch, drains every signal the engine
    /// has accepted since the last call (never blocking), and applies them:
    /// the result is [`consume_spec`] of the old state for the drained
    /// signals, whatever they were.
    pub fn consume_key_events(&mut self) -> (r: &Vec<KeyEvent>)
        requires
            old(self).wf(),
        ensures
            final(self).wf(),
            r@ == final(self).model().batch,
            exists|events: Seq<KeyEvent>|
                final(self).model() == consume_spec(old(self).model(), events),
    {
        let events = backend::drain_channel(&self.event_receiver);
        self.process_events(&events);
        proof {
            assert(final(self).model() == consume_spec(old(self).model(), events@));
        }
        &self.last_key_events
    }
}

} // verus!
