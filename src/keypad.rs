//! The sixteen-key input latch.
use vstd::prelude::*;

verus! {

/// Number of keys.
pub const KEY_COUNT: usize = 16;

/// The index of the first key that is down, if any.
pub open spec fn first_down(keys: Seq<bool>) -> Option<u8> {
    if exists|k: int| 0 <= k < keys.len() && keys[k] {
        let k = choose|k: int|
            0 <= k < keys.len() && keys[k] && forall|j: int| 0 <= j < k ==> !keys[j];
        Some(k as u8)
    } else {
        None
    }
}

/// The down or up state of each of the sixteen keys.
pub struct Keypad {
    keys: [bool; KEY_COUNT],
}

impl View for Keypad {
    type V = Seq<bool>;

    closed spec fn view(&self) -> Seq<bool> {
        self.keys@
    }
}

impl Default for Keypad {
    /// A keypad with every key up.
    fn default() -> (r: Self)
        ensures
            r@ == Seq::new(KEY_COUNT as nat, |i: int| false),
    {
        let r = Keypad { keys: [false; KEY_COUNT] };
        assert(r@ =~= Seq::new(KEY_COUNT as nat, |i: int| false));
        r
    }
}

impl Keypad {
    /// Whether key `idx` is down.
    pub fn is_down(&self, idx: u8) -> (r: bool)
        requires
            idx < KEY_COUNT,
        ensures
            r == self@[idx as int],
    {
        self.keys[idx as usize]
    }

    /// Records whether key `idx` is down.
    pub fn set_down(&mut self, idx: u8, down: bool)
        requires
            idx < KEY_COUNT,
        ensures
            final(self)@ == old(self)@.update(idx as int, down),
    {
        self.keys[idx as usize] = down;
    }

    /// The lowest-numbered key that is down, if any.
    pub fn get_down_key(&self) -> (r: Option<u8>)
        ensures
            r == first_down(self@),
            match r {
                Some(k) => k < KEY_COUNT && self@[k as int] && forall|j: int|
                    0 <= j < k ==> !self@[j],
                None => forall|j: int| 0 <= j < KEY_COUNT ==> !self@[j],
            },
    {
        let mut i: usize = 0;
        while i < KEY_COUNT
            invariant
                i <= KEY_COUNT,
                self@.len() == KEY_COUNT,
                forall|j: int| 0 <= j < i ==> !self@[j],
            decreases KEY_COUNT - i,
        {
            if self.keys[i] {
                proof {
                    let k = choose|k: int|
                        0 <= k < self@.len() && self@[k] && forall|j: int| 0 <= j < k ==> !self@[j];
                    assert(0 <= i < self@.len() && self@[i as int] && forall|j: int|
                        0 <= j < i ==> !self@[j]);
                    if k < i {
                    } else if k > i {
                        assert(!self@[i as int]);
                    }
                }
                return Some(i as u8);
            }
            i += 1;
        }
        None
    }
}

} // verus!
