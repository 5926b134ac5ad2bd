use vstd::prelude::*;

use crate::seqset::lemma_remove_value;
use crate::seqset::remove_value;

verus! {

/// The seat's input bookkeeping: the set of currently pressed pointer
/// buttons, the set of currently pressed keys, and the window holding
/// keyboard focus. Button and key codes are raw device-level codes.
pub struct Seat {
    pressed: Vec<u32>,
    keys: Vec<u32>,
    keyboard_focus: Option<u64>,
}

impl Seat {
    /// The set of pointer buttons currently held down.
    pub closed spec fn buttons(&self) -> Set<u32> {
        self.pressed@.to_set()
    }

    /// The set of keys currently held down.
    pub closed spec fn held_keys(&self) -> Set<u32> {
        self.keys@.to_set()
    }

    /// The window holding keyboard focus, if any.
    pub closed spec fn focus(&self) -> Option<u64> {
        self.keyboard_focus
    }

    pub closed spec fn wf(&self) -> bool {
        self.pressed@.no_duplicates() && self.keys@.no_duplicates()
    }

    pub fn new() -> (r: Seat)
        ensures
            r.wf(),
            r.buttons() == Set::<u32>::empty(),
            r.held_keys() == Set::<u32>::empty(),
            r.focus() is None,
    {
        let r = Seat { pressed: Vec::new(), keys: Vec::new(), keyboard_focus: None };
        proof {
            assert(r.buttons() =~= Set::<u32>::empty());
            assert(r.held_keys() =~= Set::<u32>::empty());
        }
        r
    }

    pub fn button_is_pressed(&self, b: u32) -> (r: bool)
        ensures
            r == self.buttons().contains(b),
    {
        let n = self.pressed.len();
        let mut i: usize = 0;
        while i < n
            invariant
                n == self.pressed@.len(),
                i <= n,
                forall|k: int| 0 <= k < i ==> self.pressed@[k] != b,
            decreases n - i,
        {
            if self.pressed[i] == b {
                proof {
                    assert(self.pressed@[i as int] == b);
                    assert(self.pressed@.contains(b));
                }
                return true;
            }
            i += 1;
        }
        proof {
            if self.pressed@.contains(b) {
                let k = choose|k: int| 0 <= k < self.pressed@.len() && self.pressed@[k] == b;
            }
        }
        false
    }

    /// Record a button going down. Pressing an already-pressed button
    /// changes nothing.
    pub fn press_button(&mut self, b: u32)
        requires
            old(self).wf(),
        ensures
            final(self).wf(),
            final(self).buttons() == old(self).buttons().insert(b),
            final(self).held_keys() == old(self).held_keys(),
            final(self).focus() == old(self).focus(),
    {
        if !self.button_is_pressed(b) {
            proof {
                self.pressed@.lemma_push_to_set_commute(b);
                if self.pressed@.contains(b) {
                    assert(self.pressed@.to_set().contains(b));
                }
            }
            let ghost s = self.pressed@;
            self.pressed.push(b);
            proof {
                assert forall|i: int, j: int|
                    0 <= i < self.pressed@.len() && 0 <= j < self.pressed@.len() && i != j
                    implies self.pressed@[i] != self.pressed@[j] by {
                    if i < s.len() && j < s.len() {
                        assert(s[i] == self.pressed@[i]);
                        assert(s[j] == self.pressed@[j]);
                    } else {
                        let m = if i < s.len() { i } else { j };
                        if 0 <= m < s.len() {
                            assert(s[m] == self.pressed@[m]);
                            assert(s.contains(s[m]));
                        }
                    }
                }
            }
        } else {
            proof {
                assert(self.buttons().contains(b));
                assert(self.buttons() =~= self.buttons().insert(b));
            }
        }
    }

    /// Record a button going up. Releasing a pressed button strictly
    /// shrinks the pressed set; releasing an unpressed one changes nothing.
    pub fn release_button(&mut self, b: u32)
        requires
            old(self).wf(),
        ensures
            final(self).wf(),
            final(self).buttons() == old(self).buttons().remove(b),
            old(self).buttons().contains(b) ==> final(self).buttons().len()
                < old(self).buttons().len(),
            final(self).held_keys() == old(self).held_keys(),
            final(self).focus() == old(self).focus(),
    {
        let ghost s = self.pressed@;
        let mut out: Vec<u32> = Vec::new();
        let n = self.pressed.len();
        let mut i: usize = 0;
        while i < n
            invariant
                self.pressed@ == s,
                n == s.len(),
                i <= n,
                out@ == remove_value(s.take(i as int), b),
            decreases n - i,
        {
            proof {
                assert(s.take(i as int + 1).drop_last() =~= s.take(i as int));
                assert(s.take(i as int + 1).last() == s[i as int]);
            }
            if self.pressed[i] != b {
                out.push(self.pressed[i]);
            }
            i += 1;
        }
        proof {
            assert(s.take(n as int) =~= s);
        }
        self.pressed = out;
        proof {
            lemma_remove_value(s, b);
            if s.to_set().contains(b) {
                s.unique_seq_to_set();
                self.pressed@.unique_seq_to_set();
            }
        }
    }

    /// True exactly when no pointer button is held down: the condition on
    /// which an active grab is released.
    pub fn no_buttons_pressed(&self) -> (r: bool)
        ensures
            r == self.buttons().is_empty(),
    {
        proof {
            if self.pressed@.len() == 0 {
                assert(self.buttons() =~= Set::<u32>::empty());
            } else {
                assert(self.pressed@.contains(self.pressed@[0]));
                assert(self.buttons().contains(self.pressed@[0]));
            }
        }
        self.pressed.len() == 0
    }

    /// How many distinct buttons are held down.
    pub fn pressed_count(&self) -> (r: usize)
        requires
            self.wf(),
        ensures
            r == self.buttons().len(),
    {
        proof {
            self.pressed@.unique_seq_to_set();
        }
        self.pressed.len()
    }

    pub fn key_is_pressed(&self, k: u32) -> (r: bool)
        ensures
            r == self.held_keys().contains(k),
    {
        let n = self.keys.len();
        let mut i: usize = 0;
        while i < n
            invariant
                n == self.keys@.len(),
                i <= n,
                forall|m: int| 0 <= m < i ==> self.keys@[m] != k,
            decreases n - i,
        {
            if self.keys[i] == k {
                proof {
                    assert(self.keys@[i as int] == k);
                    assert(self.keys@.contains(k));
                }
                return true;
            }
            i += 1;
        }
        proof {
            if self.keys@.contains(k) {
                let m = choose|m: int| 0 <= m < self.keys@.len() && self.keys@[m] == k;
            }
        }
        false
    }

    /// Record a key going down.
    pub fn press_key(&mut self, k: u32)
        requires
            old(self).wf(),
        ensures
            final(self).wf(),
            final(self).held_keys() == old(self).held_keys().insert(k),
            final(self).buttons() == old(self).buttons(),
            final(self).focus() == old(self).focus(),
    {
        if !self.key_is_pressed(k) {
            proof {
                self.keys@.lemma_push_to_set_commute(k);
                if self.keys@.contains(k) {
                    assert(self.keys@.to_set().contains(k));
                }
            }
            let ghost s = self.keys@;
            self.keys.push(k);
            proof {
                assert forall|i: int, j: int|
                    0 <= i < self.keys@.len() && 0 <= j < self.keys@.len() && i != j
                    implies self.keys@[i] != self.keys@[j] by {
                    if i < s.len() && j < s.len() {
                        assert(s[i] == self.keys@[i]);
                        assert(s[j] == self.keys@[j]);
                    } else {
                        let m = if i < s.len() { i } else { j };
                        if 0 <= m < s.len() {
                            assert(s[m] == self.keys@[m]);
                            assert(s.contains(s[m]));
                        }
                    }
                }
            }
        } else {
            proof {
                assert(self.held_keys().contains(k));
                assert(self.held_keys() =~= self.held_keys().insert(k));
            }
        }
    }

    /// Record a key going up.
    pub fn release_key(&mut self, k: u32)
        requires
            old(self).wf(),
        ensures
            final(self).wf(),
            final(self).held_keys() == old(self).held_keys().remove(k),
            final(self).buttons() == old(self).buttons(),
            final(self).focus() == old(self).focus(),
    {
        let ghost s = self.keys@;
        let mut out: Vec<u32> = Vec::new();
        let n = self.keys.len();
        let mut i: usize = 0;
        while i < n
            invariant
                self.keys@ == s,
                n == s.len(),
                i <= n,
                out@ == remove_value(s.take(i as int), k),
            decreases n - i,
        {
            proof {
                assert(s.take(i as int + 1).drop_last() =~= s.take(i as int));
                assert(s.take(i as int + 1).last() == s[i as int]);
            }
            if self.keys[i] != k {
                out.push(self.keys[i]);
            }
            i += 1;
        }
        proof {
            assert(s.take(n as int) =~= s);
        }
        self.keys = out;
        proof {
            lemma_remove_value(s, k);
        }
    }

    /// Point keyboard focus at a window, or clear it.
    pub fn set_focus(&mut self, w: Option<u64>)
        requires
            old(self).wf(),
        ensures
            final(self).wf(),
            final(self).focus() == w,
            final(self).buttons() == old(self).buttons(),
            final(self).held_keys() == old(self).held_keys(),
    {
        self.keyboard_focus = w;
    }
}

} // verus!
