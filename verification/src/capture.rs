//! Hotkey capture: tracking the currently pressed keys and turning
//! press and release notifications into overlay events.
//!
//! The tracker runs on the capture thread; nothing else reads the
//! pressed set. In momentary mode it emits `Show` the instant every
//! required key is down and `Hide` the instant a required key is
//! released. In persist mode it emits `Toggle` exactly once per full
//! press, latched until some required key goes up again.

use vstd::prelude::*;

use crate::keys::KeyName;
use crate::overlay::OverlayEvent;

verus! {

/// The tracker's state, mathematically: which keys the combination
/// requires, which keys are down, the mode, and the persist-mode
/// latch.
pub struct TrackerModel {
    pub required: Set<KeyName>,
    pub down: Set<KeyName>,
    pub persist: bool,
    pub latched: bool,
}

/// Whether every required key is down.
pub open spec fn all_down(m: TrackerModel) -> bool {
    m.required.subset_of(m.down)
}

/// The reaction to one key going down: the key joins the pressed set;
/// in momentary mode a complete combination emits `Show`, in persist
/// mode it emits `Toggle` only on the unlatched edge and latches.
pub open spec fn press_step(m: TrackerModel, k: KeyName) -> (TrackerModel, Option<OverlayEvent>) {
    let after = TrackerModel {
        required: m.required,
        down: m.down.insert(k),
        persist: m.persist,
        latched: m.latched,
    };
    if all_down(after) {
        if m.persist {
            if !m.latched {
                (
                    TrackerModel {
                        required: after.required,
                        down: after.down,
                        persist: after.persist,
                        latched: true,
                    },
                    Some(OverlayEvent::Toggle),
                )
            } else {
                (after, None)
            }
        } else {
            (after, Some(OverlayEvent::Show))
        }
    } else {
        (after, None)
    }
}

/// The reaction to one key going up: the key leaves the pressed set;
/// in momentary mode a required key's release emits `Hide`, in
/// persist mode a broken combination only resets the latch.
pub open spec fn release_step(m: TrackerModel, k: KeyName) -> (TrackerModel, Option<OverlayEvent>) {
    let after = TrackerModel {
        required: m.required,
        down: m.down.remove(k),
        persist: m.persist,
        latched: m.latched,
    };
    if m.persist {
        if !all_down(after) {
            (
                TrackerModel {
                    required: after.required,
                    down: after.down,
                    persist: after.persist,
                    latched: false,
                },
                None,
            )
        } else {
            (after, None)
        }
    } else {
        if m.required.contains(k) {
            (after, Some(OverlayEvent::Hide))
        } else {
            (after, None)
        }
    }
}

/// Tracks the pressed keys on the capture thread and distills them
/// into overlay events.
pub struct HotkeyTracker {
    required: Vec<KeyName>,
    pressed: Vec<KeyName>,
    persist: bool,
    latched: bool,
}

impl HotkeyTracker {
    /// The pressed list holds no duplicates.
    pub closed spec fn wf(self) -> bool {
        self.pressed@.no_duplicates()
    }

    /// The state this tracker is in.
    pub closed spec fn model(self) -> TrackerModel {
        TrackerModel {
            required: self.required@.to_set(),
            down: self.pressed@.to_set(),
            persist: self.persist,
            latched: self.latched,
        }
    }

    /// A fresh tracker: nothing pressed, nothing latched.
    pub fn new(required: Vec<KeyName>, persist: bool) -> (t: HotkeyTracker)
        ensures
            t.wf(),
            t.model() == (TrackerModel {
                required: required@.to_set(),
                down: Set::<KeyName>::empty(),
                persist,
                latched: false,
            }),
    {
        let t = HotkeyTracker { required, pressed: Vec::new(), persist, latched: false };
        proof {
            assert(t.pressed@.to_set() =~= Set::<KeyName>::empty());
        }
        t
    }

    fn pressed_contains(&self, k: KeyName) -> (r: bool)
        ensures
            r == self.model().down.contains(k),
    {
        let mut i: usize = 0;
        while i < self.pressed.len()
            invariant
                i <= self.pressed@.len(),
                forall|j: int| 0 <= j < i ==> self.pressed@[j] != k,
            decreases self.pressed@.len() - i,
        {
            if self.pressed[i] == k {
                return true;
            }
            i = i + 1;
        }
        false
    }

    fn all_required_down(&self) -> (r: bool)
        ensures
            r == all_down(self.model()),
    {
        let mut i: usize = 0;
        while i < self.required.len()
            invariant
                i <= self.required@.len(),
                forall|j: int| 0 <= j < i ==> self.pressed@.to_set().contains(#[trigger] self.required@[j]),
            decreases self.required@.len() - i,
        {
            if !self.pressed_contains(self.required[i]) {
                assert(!self.model().down.contains(self.required@[i as int]));
                return false;
            }
            i = i + 1;
        }
        proof {
            assert forall|x: KeyName| self.model().required.contains(x) implies self.model().down.contains(
                x,
            ) by {
                let j = choose|j: int| 0 <= j < self.required@.len() && self.required@[j] == x;
            }
        }
        true
    }

    /// Record one key going down and say what to emit.
    pub fn on_key_press(&mut self, k: KeyName) -> (r: Option<OverlayEvent>)
        requires
            old(self).wf(),
        ensures
            final(self).wf(),
            final(self).model() == press_step(old(self).model(), k).0,
            r == press_step(old(self).model(), k).1,
    {
        if !self.pressed_contains(k) {
            self.pressed.push(k);
            proof {
                let p = self.pressed@;
                let prev = old(self).pressed@;
                assert(p.drop_last() =~= prev);
                assert forall|x: KeyName| p.to_set().contains(x) implies old(
                    self,
                ).model().down.insert(k).contains(x) by {
                    let j = choose|j: int| 0 <= j < p.len() && p[j] == x;
                    if j < p.len() - 1 {
                        assert(prev[j] == x);
                    }
                }
                assert forall|x: KeyName| old(self).model().down.insert(k).contains(x) implies p.to_set().contains(
                    x,
                ) by {
                    if x == k {
                        assert(p[p.len() - 1] == x);
                    } else {
                        let j = choose|j: int| 0 <= j < prev.len() && prev[j] == x;
                        assert(p[j] == x);
                    }
                }
                assert(p.to_set() =~= old(self).model().down.insert(k));
            }
        } else {
            proof {
                assert(self.pressed@.to_set() =~= old(self).model().down.insert(k));
            }
        }
        let complete = self.all_required_down();
        if complete {
            if self.persist {
                if !self.latched {
                    self.latched = true;
                    Some(OverlayEvent::Toggle)
                } else {
                    None
                }
            } else {
                Some(OverlayEvent::Show)
            }
        } else {
            None
        }
    }

    /// Record one key going up and say what to emit.
    pub fn on_key_release(&mut self, k: KeyName) -> (r: Option<OverlayEvent>)
        requires
            old(self).wf(),
        ensures
            final(self).wf(),
            final(self).model() == release_step(old(self).model(), k).0,
            r == release_step(old(self).model(), k).1,
    {
        let ghost before = self.pressed@;
        match find_key(&self.pressed, k) {
            Some(i) => {
                self.pressed.remove(i);
                proof {
                    lemma_remove_to_set(before, i as int, k);
                }
            },
            None => {
                proof {
                    assert(self.pressed@.to_set() =~= old(self).model().down.remove(k));
                }
            },
        }
        let required_key = self.required_contains(k);
        if self.persist {
            if !self.all_required_down() {
                self.latched = false;
                None
            } else {
                None
            }
        } else {
            if required_key {
                Some(OverlayEvent::Hide)
            } else {
                None
            }
        }
    }

    fn required_contains(&self, k: KeyName) -> (r: bool)
        ensures
            r == self.model().required.contains(k),
    {
        let mut i: usize = 0;
        while i < self.required.len()
            invariant
                i <= self.required@.len(),
                forall|j: int| 0 <= j < i ==> self.required@[j] != k,
            decreases self.required@.len() - i,
        {
            if self.required[i] == k {
                return true;
            }
            i = i + 1;
        }
        false
    }
}

fn find_key(v: &Vec<KeyName>, k: KeyName) -> (r: Option<usize>)
    ensures
        match r {
            Some(i) => i < v@.len() && v@[i as int] == k,
            None => !v@.contains(k),
        },
{
    let mut i: usize = 0;
    while i < v.len()
        invariant
            i <= v@.len(),
            forall|j: int| 0 <= j < i ==> v@[j] != k,
        decreases v@.len() - i,
    {
        if v[i] == k {
            return Some(i);
        }
        i = i + 1;
    }
    None
}

/// The events a tracker emits over a whole sequence of presses.
pub open spec fn run_presses(m: TrackerModel, ks: Seq<KeyName>) -> (TrackerModel, Seq<OverlayEvent>)
    decreases ks.len(),
{
    if ks.len() == 0 {
        (m, Seq::<OverlayEvent>::empty())
    } else {
        let first = press_step(m, ks[0]);
        let rest = run_presses(first.0, ks.drop_first());
        (rest.0, emitted(first.1) + rest.1)
    }
}

/// What one step's output contributes to the event stream.
pub open spec fn emitted(e: Option<OverlayEvent>) -> Seq<OverlayEvent> {
    match e {
        Some(x) => seq![x],
        None => Seq::<OverlayEvent>::empty(),
    }
}

/// Momentary mode: pressing the required keys one by one, in any
/// order, emits exactly one `Show`, on the keystroke that completes
/// the combination.
pub proof fn lemma_momentary_single_show(m: TrackerModel, ks: Seq<KeyName>)
    requires
        !m.persist,
        ks.len() >= 1,
        ks.no_duplicates(),
        forall|i: int| 0 <= i < ks.len() ==> m.required.contains(#[trigger] ks[i]),
        forall|i: int| 0 <= i < ks.len() ==> !m.down.contains(#[trigger] ks[i]),
        m.required.subset_of(m.down + ks.to_set()),
    ensures
        run_presses(m, ks).1 == seq![OverlayEvent::Show],
        all_down(run_presses(m, ks).0),
    decreases ks.len(),
{
    let k = ks[0];
    let first = press_step(m, k);
    let last = ks[ks.len() - 1];
    if ks.len() == 1 {
        assert(ks.to_set().contains(k));
        assert forall|x: KeyName| m.required.contains(x) implies first.0.down.contains(x) by {
            assert((m.down + ks.to_set()).contains(x));
            if ks.to_set().contains(x) {
                let j = choose|j: int| 0 <= j < ks.len() && ks[j] == x;
                assert(x == k);
            }
        }
        assert(all_down(first.0));
        assert(ks.drop_first().len() == 0);
        assert(run_presses(first.0, ks.drop_first()).0 == first.0);
        assert(run_presses(first.0, ks.drop_first()).1 == Seq::<OverlayEvent>::empty());
        assert(run_presses(m, ks).1 =~= seq![OverlayEvent::Show]);
    } else {
        assert(m.required.contains(last));
        assert(!first.0.down.contains(last));
        assert(!all_down(first.0));
        assert(first.1 is None);
        let rest = ks.drop_first();
        assert forall|i: int| 0 <= i < rest.len() implies !first.0.down.contains(
            #[trigger] rest[i],
        ) by {
            assert(rest[i] == ks[i + 1]);
        }
        assert forall|x: KeyName| m.required.contains(x) implies (first.0.down
            + rest.to_set()).contains(x) by {
            assert((m.down + ks.to_set()).contains(x));
            if ks.to_set().contains(x) {
                let j = choose|j: int| 0 <= j < ks.len() && ks[j] == x;
                if j == 0 {
                    assert(first.0.down.contains(x));
                } else {
                    assert(rest[j - 1] == x);
                    assert(rest.to_set().contains(x));
                }
            }
        }
        lemma_momentary_single_show(first.0, rest);
        assert(run_presses(m, ks).1 =~= seq![OverlayEvent::Show]);
    }
}

/// Momentary mode: the release of any required key emits `Hide`, no
/// matter which key of the combination it is.
pub proof fn lemma_momentary_release_hides(m: TrackerModel, k: KeyName)
    requires
        !m.persist,
        m.required.contains(k),
    ensures
        release_step(m, k).1 == Some(OverlayEvent::Hide),
{
}

/// Persist mode: pressing the required keys one by one from an
/// unlatched state emits exactly one `Toggle`, on the keystroke that
/// completes the combination, and latches.
pub proof fn lemma_persist_single_toggle(m: TrackerModel, ks: Seq<KeyName>)
    requires
        m.persist,
        !m.latched,
        ks.len() >= 1,
        ks.no_duplicates(),
        forall|i: int| 0 <= i < ks.len() ==> m.required.contains(#[trigger] ks[i]),
        forall|i: int| 0 <= i < ks.len() ==> !m.down.contains(#[trigger] ks[i]),
        m.required.subset_of(m.down + ks.to_set()),
    ensures
        run_presses(m, ks).1 == seq![OverlayEvent::Toggle],
        run_presses(m, ks).0.latched,
        all_down(run_presses(m, ks).0),
    decreases ks.len(),
{
    let k = ks[0];
    let first = press_step(m, k);
    let last = ks[ks.len() - 1];
    if ks.len() == 1 {
        assert(ks.to_set().contains(k));
        assert forall|x: KeyName| m.required.contains(x) implies first.0.down.contains(x) by {
            assert((m.down + ks.to_set()).contains(x));
            if ks.to_set().contains(x) {
                let j = choose|j: int| 0 <= j < ks.len() && ks[j] == x;
                assert(x == k);
            }
        }
        assert(all_down(first.0));
        assert(ks.drop_first().len() == 0);
        assert(run_presses(first.0, ks.drop_first()).0 == first.0);
        assert(run_presses(first.0, ks.drop_first()).1 == Seq::<OverlayEvent>::empty());
        assert(run_presses(m, ks).1 =~= seq![OverlayEvent::Toggle]);
    } else {
        assert(m.required.contains(last));
        assert(!first.0.down.contains(last));
        assert(!all_down(first.0));
        assert(first.1 is None);
        assert(!first.0.latched);
        let rest = ks.drop_first();
        assert forall|i: int| 0 <= i < rest.len() implies !first.0.down.contains(
            #[trigger] rest[i],
        ) by {
            assert(rest[i] == ks[i + 1]);
        }
        assert forall|x: KeyName| m.required.contains(x) implies (first.0.down
            + rest.to_set()).contains(x) by {
            assert((m.down + ks.to_set()).contains(x));
            if ks.to_set().contains(x) {
                let j = choose|j: int| 0 <= j < ks.len() && ks[j] == x;
                if j == 0 {
                    assert(first.0.down.contains(x));
                } else {
                    assert(rest[j - 1] == x);
                    assert(rest.to_set().contains(x));
                }
            }
        }
        lemma_persist_single_toggle(first.0, rest);
        assert(run_presses(m, ks).1 =~= seq![OverlayEvent::Toggle]);
    }
}

/// Persist mode: while the latch is set, further keystrokes emit
/// nothing at all, however long the combination is held.
pub proof fn lemma_persist_held_emits_nothing(m: TrackerModel, ks: Seq<KeyName>)
    requires
        m.persist,
        m.latched,
    ensures
        run_presses(m, ks).1 == Seq::<OverlayEvent>::empty(),
        run_presses(m, ks).0.latched,
    decreases ks.len(),
{
    if ks.len() > 0 {
        let first = press_step(m, ks[0]);
        assert(first.1 is None);
        lemma_persist_held_emits_nothing(first.0, ks.drop_first());
        assert(run_presses(m, ks).1 =~= Seq::<OverlayEvent>::empty());
    }
}

/// Persist mode: from a latched, fully pressed combination, releasing
/// one required key emits nothing but resets the latch, and pressing
/// that key again emits exactly one more `Toggle`.
pub proof fn lemma_persist_release_and_repress(m: TrackerModel, k: KeyName)
    requires
        m.persist,
        m.latched,
        all_down(m),
        m.required.contains(k),
    ensures
        release_step(m, k).1 is None,
        !release_step(m, k).0.latched,
        press_step(release_step(m, k).0, k).1 == Some(OverlayEvent::Toggle),
        press_step(release_step(m, k).0, k).0.latched,
        press_step(release_step(m, k).0, k).0.down =~= m.down,
{
    let m1 = release_step(m, k).0;
    assert(!m1.down.contains(k));
    assert(!all_down(m1));
    let m2 = press_step(m1, k).0;
    assert(m2.down =~= m.down);
    assert(all_down(m2));
}

proof fn lemma_remove_to_set(s: Seq<KeyName>, i: int, k: KeyName)
    requires
        s.no_duplicates(),
        0 <= i < s.len(),
        s[i] == k,
    ensures
        s.remove(i).no_duplicates(),
        s.remove(i).to_set() =~= s.to_set().remove(k),
{
    let t = s.remove(i);
    assert forall|x: KeyName| t.to_set().contains(x) implies s.to_set().remove(k).contains(x) by {
        let j = choose|j: int| 0 <= j < t.len() && t[j] == x;
        if j < i {
            assert(s[j] == x);
        } else {
            assert(s[j + 1] == x);
        }
    }
    assert forall|x: KeyName| s.to_set().remove(k).contains(x) implies t.to_set().contains(x) by {
        let j = choose|j: int| 0 <= j < s.len() && s[j] == x;
        if j < i {
            assert(t[j] == x);
        } else {
            assert(t[j - 1] == x);
        }
    }
}

} // verus!
