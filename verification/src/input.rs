//! Snapshot-style key input: a sampled set of held keys grouped with the
//! modifier keys held alongside them.
//!
//! Unlike the event stream in [`crate::keyboard`], this interface reports
//! the keys held at one sampling instant. The sampler reports modifier keys
//! (control, alt, shift) separately; [`classify_keys_down`] attaches the
//! sampled modifier state to every plain key.

use vstd::prelude::*;

verus! {

/// The plain (non-modifier) keys this interface identifies, plus an
/// `Unknown` catch-all.
#[derive(Clone, Copy, Debug, PartialEq, Eq, Structural)]
pub enum Key {
    Esc,
    Space,
    Enter,
    A,
    B,
    C,
    D,
    E,
    F,
    G,
    H,
    I,
    J,
    K,
    L,
    M,
    N,
    O,
    P,
    Q,
    R,
    S,
    T,
    U,
    V,
    W,
    X,
    Y,
    Z,
    Num0,
    Num1,
    Num2,
    Num3,
    Num4,
    Num5,
    Num6,
    Num7,
    Num8,
    Num9,
    F1,
    F2,
    F3,
    F4,
    F5,
    F6,
    F7,
    F8,
    F9,
    F10,
    F11,
    F12,
    Unknown,
}

/// A held key together with the modifier combination held alongside it.
#[derive(Clone, Copy, Debug, PartialEq, Eq, Structural)]
pub enum KeyDown {
    Key(Key),
    Ctrl(Key),
    Alt(Key),
    Shift(Key),
    CtrlAlt(Key),
    CtrlShift(Key),
    AltShift(Key),
    CtrlAltShift(Key),
}

/// The grouping of one held key with the sampled modifier state.
pub open spec fn spec_classify(key: Key, ctrl: bool, alt: bool, shift: bool) -> KeyDown {
    if ctrl && alt && shift {
        KeyDown::CtrlAltShift(key)
    } else if ctrl && alt {
        KeyDown::CtrlAlt(key)
    } else if ctrl && shift {
        KeyDown::CtrlShift(key)
    } else if alt && shift {
        KeyDown::AltShift(key)
    } else if ctrl {
        KeyDown::Ctrl(key)
    } else if alt {
        KeyDown::Alt(key)
    } else if shift {
        KeyDown::Shift(key)
    } else {
        KeyDown::Key(key)
    }
}

/// Groups one held key with the sampled modifier state: exactly
/// [`spec_classify`].
pub fn classify_key_down(key: Key, ctrl: bool, alt: bool, shift: bool) -> (r: KeyDown)
    ensures
        r == spec_classify(key, ctrl, alt, shift),
{
    if ctrl && alt && shift {
        KeyDown::CtrlAltShift(key)
    } else if ctrl && alt {
        KeyDown::CtrlAlt(key)
    } else if ctrl && shift {
        KeyDown::CtrlShift(key)
    } else if alt && shift {
        KeyDown::AltShift(key)
    } else if ctrl {
        KeyDown::Ctrl(key)
    } else if alt {
        KeyDown::Alt(key)
    } else if shift {
        KeyDown::Shift(key)
    } else {
        KeyDown::Key(key)
    }
}

/// Attaches the sampled modifier state to every held plain key, keeping
/// sample order.
pub fn classify_keys_down(keys: &Vec<Key>, ctrl: bool, alt: bool, shift: bool) -> (r: Vec<
    KeyDown,
>)
    ensures
        r@ == keys@.map_values(|key: Key| spec_classify(key, ctrl, alt, shift)),
{
    let n: usize = keys.len();
    let mut r: Vec<KeyDown> = Vec::new();
    let mut i: usize = 0;
    while i < n
        invariant
            n == keys@.len(),
            i <= n,
            r@.len() == i,
            forall|j: int| 0 <= j < i ==> r@[j] == spec_classify(keys@[j], ctrl, alt, shift),
        decreases n - i,
    {
        let grouped = classify_key_down(keys[i], ctrl, alt, shift);
        r.push(grouped);
        i = i + 1;
    }
    proof {
        assert(r@ =~= keys@.map_values(|key: Key| spec_classify(key, ctrl, alt, shift)));
    }
    r
}

} // verus!
