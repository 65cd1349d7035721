//! Key bindings that override the editor: a bound key ends the read at once.

use crate::event::KeyEvent;
use vstd::prelude::*;

verus! {

/// The table of overriding key bindings.
pub trait Keybinding {
    /// Whether the table claims a key.
    spec fn claims(&self, key: KeyEvent) -> bool;

    /// Handles a key if it is bound, and tells whether it was.
    fn handle_key_event(&self, key: KeyEvent) -> (claimed: bool)
        ensures
            claimed == self.claims(key),
    ;
}

/// A table of keys that end the read.
pub struct DefaultKeybinding {
    bindings: Vec<KeyEvent>,
}

impl DefaultKeybinding {
    /// A table that binds no key.
    pub fn new() -> (k: DefaultKeybinding)
        ensures
            k.bindings() == Seq::<KeyEvent>::empty(),
    {
        DefaultKeybinding { bindings: Vec::new() }
    }

    /// The bound keys, in the order they were bound.
    pub closed spec fn bindings(&self) -> Seq<KeyEvent> {
        self.bindings@
    }

    /// Binds a key.
    pub fn bind(&mut self, key: KeyEvent)
        ensures
            final(self).bindings() == old(self).bindings().push(key),
    {
        self.bindings.push(key);
    }
}

impl Keybinding for DefaultKeybinding {
    /// The table claims the keys that were bound.
    open spec fn claims(&self, key: KeyEvent) -> bool {
        self.bindings().contains(key)
    }

    fn handle_key_event(&self, key: KeyEvent) -> (claimed: bool) {
        let mut i: usize = 0;
        while i < self.bindings.len()
            invariant
                i <= self.bindings.len(),
                forall|j: int| 0 <= j < i ==> self.bindings@[j] != key,
            decreases self.bindings.len() - i,
        {
            if self.bindings[i] == key {
                return true;
            }
            i = i + 1;
        }
        false
    }
}

} // verus!
