//! The completion menu: the candidates on display and the one highlighted.

use crate::completion::{Completion, CompletionView};
use vstd::prelude::*;

verus! {

/// What a menu holds.
pub struct MenuView {
    /// The entries: a label and the candidate behind it.
    pub items: Seq<(Seq<char>, CompletionView)>,
    /// The index of the highlighted entry.
    pub cursor: nat,
    /// Whether the menu is on display.
    pub active: bool,
}

impl MenuView {
    /// The highlighted candidate, if the cursor stands on an entry.
    pub open spec fn selection(self) -> Option<CompletionView> {
        if self.cursor < self.items.len() {
            Some(self.items[self.cursor as int].1)
        } else {
            None
        }
    }

    /// The same menu, shown or hidden.
    pub open spec fn with_active(self, active: bool) -> MenuView {
        MenuView { active, ..self }
    }

    /// The same menu with the highlight on another entry.
    pub open spec fn with_cursor(self, cursor: nat) -> MenuView {
        MenuView { cursor, ..self }
    }

    /// The menu after its entries were replaced: the highlight returns to the
    /// first entry.
    pub open spec fn with_items(self, items: Seq<(Seq<char>, CompletionView)>) -> MenuView {
        MenuView { items, cursor: 0, active: self.active }
    }
}

/// The views of a list of menu entries.
pub open spec fn item_views(v: Seq<(String, Completion)>) -> Seq<(Seq<char>, CompletionView)> {
    Seq::new(v.len(), |i: int| (v[i].0@, v[i].1@))
}

/// The menu that shows completion candidates.
pub trait Menu {
    /// What the menu holds.
    spec fn model(&self) -> MenuView;

    /// The index that `next` moves the highlight to in a menu that holds
    /// `m`.
    spec fn spec_next(m: MenuView) -> nat;

    /// The index that `previous` moves the highlight to in a menu that holds
    /// `m`.
    spec fn spec_previous(m: MenuView) -> nat;

    /// Highlights the next entry.
    fn next(&mut self)
        ensures
            final(self).model() == old(self).model().with_cursor(
                Self::spec_next(old(self).model()),
            ),
    ;

    /// Highlights the previous entry.
    fn previous(&mut self)
        ensures
            final(self).model() == old(self).model().with_cursor(
                Self::spec_previous(old(self).model()),
            ),
    ;

    /// Hides the menu and hands out the highlighted candidate.
    fn accept(&mut self) -> (r: Option<Completion>)
        ensures
            final(self).model() == old(self).model().with_active(false),
            match r {
                Some(c) => old(self).model().selection() == Some(c@),
                None => old(self).model().selection() is None,
            },
    ;

    /// The highlighted candidate.
    fn current_selection(&self) -> (r: Option<&Completion>)
        ensures
            match r {
                Some(c) => self.model().selection() == Some(c@),
                None => self.model().selection() is None,
            },
    ;

    /// The index of the highlighted entry.
    fn cursor(&self) -> (n: usize)
        ensures
            n == self.model().cursor,
    ;

    /// Whether the menu is on display.
    fn is_active(&self) -> (b: bool)
        ensures
            b == self.model().active,
    ;

    /// Puts the menu on display.
    fn activate(&mut self)
        ensures
            final(self).model() == old(self).model().with_active(true),
    ;

    /// Takes the menu off display.
    fn disactivate(&mut self)
        ensures
            final(self).model() == old(self).model().with_active(false),
    ;

    /// The entries.
    fn items(&self) -> (v: &Vec<(String, Completion)>)
        ensures
            item_views(v@) == self.model().items,
    ;

    /// Replaces the entries and highlights the first one.
    fn set_items(&mut self, items: Vec<(String, Completion)>)
        ensures
            final(self).model() == old(self).model().with_items(item_views(items@)),
    ;
}

/// A menu whose highlight wraps around at both ends.
pub struct DefaultMenu {
    selections: Vec<(String, Completion)>,
    cursor: usize,
    active: bool,
}

impl DefaultMenu {
    /// An empty, hidden menu.
    pub fn new() -> (m: DefaultMenu)
        ensures
            m.model() == (MenuView { items: Seq::empty(), cursor: 0, active: false }),
    {
        let m = DefaultMenu { selections: Vec::new(), cursor: 0, active: false };
        assert(m.model().items =~= Seq::empty());
        m
    }
}

impl Menu for DefaultMenu {
    closed spec fn model(&self) -> MenuView {
        MenuView {
            items: item_views(self.selections@),
            cursor: self.cursor as nat,
            active: self.active,
        }
    }

    /// The entry after the highlighted one, or the first entry from the last.
    open spec fn spec_next(m: MenuView) -> nat {
        if m.cursor + 1 >= m.items.len() {
            0
        } else {
            m.cursor + 1
        }
    }

    /// The entry before the highlighted one, or the last entry from the
    /// first.
    open spec fn spec_previous(m: MenuView) -> nat {
        if m.cursor == 0 {
            if m.items.len() == 0 {
                0
            } else {
                (m.items.len() - 1) as nat
            }
        } else {
            (m.cursor - 1) as nat
        }
    }

    fn next(&mut self) {
        if self.cursor >= self.selections.len() || self.cursor + 1 >= self.selections.len() {
            self.cursor = 0;
        } else {
            self.cursor = self.cursor + 1;
        }
    }

    fn previous(&mut self) {
        if self.cursor == 0 {
            if self.selections.len() == 0 {
                self.cursor = 0;
            } else {
                self.cursor = self.selections.len() - 1;
            }
        } else {
            self.cursor = self.cursor - 1;
        }
    }

    fn accept(&mut self) -> (r: Option<Completion>) {
        self.active = false;
        if self.cursor < self.selections.len() {
            Some(self.selections[self.cursor].1.clone())
        } else {
            None
        }
    }

    fn current_selection(&self) -> (r: Option<&Completion>) {
        if self.cursor < self.selections.len() {
            Some(&self.selections[self.cursor].1)
        } else {
            None
        }
    }

    fn cursor(&self) -> (n: usize) {
        self.cursor
    }

    fn is_active(&self) -> (b: bool) {
        self.active
    }

    fn activate(&mut self) {
        self.active = true;
    }

    fn disactivate(&mut self) {
        self.active = false;
    }

    fn items(&self) -> (v: &Vec<(String, Completion)>) {
        &self.selections
    }

    fn set_items(&mut self, items: Vec<(String, Completion)>) {
        self.selections = items;
        self.cursor = 0;
    }
}

} // verus!
