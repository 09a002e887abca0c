//! The list screen of the terminal interface: a list of items to move through and a log
//! of events that rotates as time passes. Drawing and reading keys are not part of the
//! library.
use vstd::prelude::*;

use crate::term_ui::list::StatefulList;

verus! {

/// A key of the list screen.
#[derive(Clone, Copy, Debug, PartialEq, Eq, Structural)]
pub enum ListKey {
    Quit,
    Left,
    Down,
    Up,
    Other,
}

/// The items the list screen starts with: names and counts.
pub open spec fn list_items() -> Seq<(&'static str, usize)> {
    seq![
        ("Item0", 1usize),
        ("Item1", 2usize),
        ("Item2", 1usize),
        ("Item3", 3usize),
        ("Item4", 1usize),
        ("Item5", 4usize),
        ("Item6", 1usize),
        ("Item7", 3usize),
        ("Item8", 1usize),
        ("Item9", 6usize),
        ("Item10", 1usize),
        ("Item11", 3usize),
        ("Item12", 1usize),
        ("Item13", 2usize),
        ("Item14", 1usize),
        ("Item15", 1usize),
        ("Item16", 4usize),
        ("Item17", 1usize),
        ("Item18", 5usize),
        ("Item19", 4usize),
        ("Item20", 1usize),
        ("Item21", 2usize),
        ("Item22", 1usize),
        ("Item23", 3usize),
        ("Item24", 1usize),
    ]
}

/// The events the list screen starts with: names and levels.
pub open spec fn list_events() -> Seq<(&'static str, &'static str)> {
    seq![
        ("Event1", "INFO"),
        ("Event2", "INFO"),
        ("Event3", "CRITICAL"),
        ("Event4", "ERROR"),
        ("Event5", "INFO"),
        ("Event6", "INFO"),
        ("Event7", "WARNING"),
        ("Event8", "INFO"),
        ("Event9", "INFO"),
        ("Event10", "INFO"),
        ("Event11", "CRITICAL"),
        ("Event12", "INFO"),
        ("Event13", "INFO"),
        ("Event14", "INFO"),
        ("Event15", "INFO"),
        ("Event16", "INFO"),
        ("Event17", "ERROR"),
        ("Event18", "ERROR"),
        ("Event19", "INFO"),
        ("Event20", "INFO"),
        ("Event21", "WARNING"),
        ("Event22", "INFO"),
        ("Event23", "INFO"),
        ("Event24", "WARNING"),
        ("Event25", "INFO"),
        ("Event26", "INFO"),
    ]
}

/// The state of the list screen.
pub struct ListApp {
    items: StatefulList<(&'static str, usize)>,
    events: Vec<(&'static str, &'static str)>,
}

/// The events after one tick: the first goes to the end.
pub open spec fn rotated<T>(s: Seq<T>) -> Seq<T> {
    s.skip(1).push(s[0])
}

impl ListApp {
    /// The items of the screen.
    pub closed spec fn item_seq(&self) -> Seq<(&'static str, usize)> {
        self.items.item_seq()
    }

    /// The selected item, if any.
    pub closed spec fn selection(&self) -> Option<usize> {
        self.items.selection()
    }

    /// The events of the screen, in the order shown.
    pub closed spec fn event_seq(&self) -> Seq<(&'static str, &'static str)> {
        self.events@
    }

    /// The screen with its items, none selected, and its events.
    pub fn new() -> (app: ListApp)
        ensures
            app.item_seq() == list_items(),
            app.event_seq() == list_events(),
            app.selection() is None,
    {
        let items = vec![
            ("Item0", 1),
            ("Item1", 2),
            ("Item2", 1),
            ("Item3", 3),
            ("Item4", 1),
            ("Item5", 4),
            ("Item6", 1),
            ("Item7", 3),
            ("Item8", 1),
            ("Item9", 6),
            ("Item10", 1),
            ("Item11", 3),
            ("Item12", 1),
            ("Item13", 2),
            ("Item14", 1),
            ("Item15", 1),
            ("Item16", 4),
            ("Item17", 1),
            ("Item18", 5),
            ("Item19", 4),
            ("Item20", 1),
            ("Item21", 2),
            ("Item22", 1),
            ("Item23", 3),
            ("Item24", 1),
        ];
        let events = vec![
            ("Event1", "INFO"),
            ("Event2", "INFO"),
            ("Event3", "CRITICAL"),
            ("Event4", "ERROR"),
            ("Event5", "INFO"),
            ("Event6", "INFO"),
            ("Event7", "WARNING"),
            ("Event8", "INFO"),
            ("Event9", "INFO"),
            ("Event10", "INFO"),
            ("Event11", "CRITICAL"),
            ("Event12", "INFO"),
            ("Event13", "INFO"),
            ("Event14", "INFO"),
            ("Event15", "INFO"),
            ("Event16", "INFO"),
            ("Event17", "ERROR"),
            ("Event18", "ERROR"),
            ("Event19", "INFO"),
            ("Event20", "INFO"),
            ("Event21", "WARNING"),
            ("Event22", "INFO"),
            ("Event23", "INFO"),
            ("Event24", "WARNING"),
            ("Event25", "INFO"),
            ("Event26", "INFO"),
        ];
        assert(items@ =~= list_items());
        assert(events@ =~= list_events());
        ListApp { items: StatefulList::with_items(items), events }
    }

    /// The items.
    pub fn items(&self) -> (s: &[(&'static str, usize)])
        ensures
            s@ == self.item_seq(),
    {
        self.items.items()
    }

    /// The selected item, if any.
    pub fn selected(&self) -> (r: Option<usize>)
        ensures
            r == self.selection(),
    {
        self.items.selected()
    }

    /// The events, in the order shown.
    pub fn events(&self) -> (s: &[(&'static str, &'static str)])
        ensures
            s@ == self.event_seq(),
    {
        self.events.as_slice()
    }

    /// One tick of time: the first event moves to the end.
    pub fn on_tick(&mut self)
        requires
            old(self).event_seq().len() > 0,
        ensures
            final(self).event_seq() == rotated(old(self).event_seq()),
            final(self).item_seq() == old(self).item_seq(),
            final(self).selection() == old(self).selection(),
    {
        let event = self.events.remove(0);
        self.events.push(event);
        assert(self.events@ =~= rotated(old(self).event_seq()));
    }

    /// Takes one key: `Left` clears the selection, `Down` and `Up` move it (wrapping
    /// around); returns whether the screen is to be left (`Quit`).
    pub fn handle_key(&mut self, key: ListKey) -> (quit: bool)
        requires
            old(self).item_seq().len() > 0,
        ensures
            quit == (key == ListKey::Quit),
            final(self).item_seq() == old(self).item_seq(),
            final(self).event_seq() == old(self).event_seq(),
            key == ListKey::Left ==> final(self).selection() is None,
            key == ListKey::Down ==> final(self).selection() == Some(
                match old(self).selection() {
                    Some(i) => if i + 1 >= old(self).item_seq().len() {
                        0usize
                    } else {
                        (i + 1) as usize
                    },
                    None => 0usize,
                },
            ),
            key == ListKey::Up ==> final(self).selection() == Some(
                match old(self).selection() {
                    Some(i) => if i == 0 {
                        (old(self).item_seq().len() - 1) as usize
                    } else {
                        (i - 1) as usize
                    },
                    None => 0usize,
                },
            ),
            key == ListKey::Quit || key == ListKey::Other ==> final(self).selection() == old(
                self,
            ).selection(),
    {
        match key {
            ListKey::Quit => true,
            ListKey::Left => {
                self.items.unselect();
                false
            },
            ListKey::Down => {
                self.items.next();
                false
            },
            ListKey::Up => {
                self.items.previous();
                false
            },
            ListKey::Other => false,
        }
    }
}

} // verus!
