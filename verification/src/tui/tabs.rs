//! The tab bar: which tab is selected, and what a key does to it.

use vstd::prelude::*;
use crate::tui::Key;

verus! {

/// What the tab bar makes of a key.
#[derive(Clone, Copy, Debug, PartialEq, Eq, Structural)]
pub enum TabsAction {
    /// The key changed the selection, or nothing.
    Handled,
    /// The key asks to leave the program.
    Quit,
    /// The key is for the selected tab.
    Forward,
}

/// The selection of one among a number of tabs.
#[derive(Clone, Copy, Debug)]
pub struct Tabs {
    selected: usize,
    count: usize,
}

/// The tab that follows `selected` among `count`, the first after the last.
pub open spec fn next_tab(selected: int, count: int) -> int {
    (selected + 1) % count
}

/// The tab that `BackTab` selects: the one before `selected`; from the first
/// tab, the remainder of the largest index a machine word holds.
pub open spec fn previous_tab(selected: int, count: int) -> int {
    if selected == 0 {
        (usize::MAX as int) % count
    } else {
        (selected - 1) % count
    }
}

impl Tabs {
    #[verifier::type_invariant]
    spec fn inv(self) -> bool {
        self.selected < self.count
    }

    /// The index of the selected tab.
    pub closed spec fn spec_selected(self) -> int {
        self.selected as int
    }

    /// The number of tabs.
    pub closed spec fn spec_count(self) -> int {
        self.count as int
    }

    /// A bar of `count` tabs with the first selected; there is none of no
    /// tabs.
    pub fn new(count: usize) -> (tabs: Option<Tabs>)
        ensures
            tabs is Some <==> count > 0,
            tabs matches Some(t) ==> t.spec_selected() == 0 && t.spec_count() == count,
    {
        if count == 0 {
            None
        } else {
            Some(Tabs { selected: 0, count })
        }
    }

    /// The index of the selected tab.
    pub fn selected(&self) -> (index: usize)
        ensures
            index == self.spec_selected(),
            index < self.spec_count(),
    {
        proof {
            use_type_invariant(self);
        }
        self.selected
    }

    /// The number of tabs.
    pub fn count(&self) -> (count: usize)
        ensures
            count == self.spec_count(),
            count > 0,
    {
        proof {
            use_type_invariant(self);
        }
        self.count
    }

    /// Takes a key: `Tab` selects the next tab, `BackTab` the previous one,
    /// `q` asks to quit, and any other key is for the selected tab.
    pub fn input(&mut self, key: Key) -> (action: TabsAction)
        ensures
            final(self).spec_count() == old(self).spec_count(),
            match key {
                Key::Tab => action == TabsAction::Handled && final(self).spec_selected()
                    == next_tab(old(self).spec_selected(), old(self).spec_count()),
                Key::BackTab => action == TabsAction::Handled && final(self).spec_selected()
                    == previous_tab(old(self).spec_selected(), old(self).spec_count()),
                Key::Char('q') => action == TabsAction::Quit
                    && final(self).spec_selected() == old(self).spec_selected(),
                _ => action == TabsAction::Forward
                    && final(self).spec_selected() == old(self).spec_selected(),
            },
    {
        proof {
            use_type_invariant(&*self);
        }
        match key {
            Key::Tab => {
                let next: usize = if self.selected + 1 == self.count {
                    0
                } else {
                    self.selected + 1
                };
                proof {
                    let s = self.selected as int;
                    let c = self.count as int;
                    if s + 1 == c {
                        assert((s + 1) % c == 0) by (nonlinear_arith)
                            requires
                                s + 1 == c,
                                c > 0,
                        ;
                    } else {
                        assert((s + 1) % c == s + 1) by (nonlinear_arith)
                            requires
                                0 <= s + 1 < c,
                        ;
                    }
                }
                self.selected = next;
                TabsAction::Handled
            },
            Key::BackTab => {
                let previous: usize = if self.selected == 0 {
                    usize::MAX % self.count
                } else {
                    self.selected - 1
                };
                proof {
                    let s = self.selected as int;
                    let c = self.count as int;
                    if s > 0 {
                        assert((s - 1) % c == s - 1) by (nonlinear_arith)
                            requires
                                0 <= s - 1 < c,
                        ;
                    }
                }
                self.selected = previous;
                TabsAction::Handled
            },
            Key::Char(c) => {
                if c == 'q' {
                    TabsAction::Quit
                } else {
                    TabsAction::Forward
                }
            },
            _ => TabsAction::Forward,
        }
    }
}

} // verus!
