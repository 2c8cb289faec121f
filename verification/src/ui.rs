//! The dashboard state machine.
//!
//! The state owns the full quote list — created once at startup and never
//! resized — together with the selected index, which is absent exactly when
//! the list is empty. Input events are applied one at a time, in arrival
//! order, by the render loop alone; the input thread only ever writes
//! events to a channel. Each applied event yields a directive telling the
//! render loop what to do next: redraw after a committed selection change,
//! quit, or nothing.

use vstd::prelude::*;

use crate::quote::StockQuote;

verus! {

/// A keyboard event, as the input thread reports it.
#[derive(Debug, Clone, Copy, PartialEq, Eq, Structural)]
pub enum Key {
    Char(char),
    Down,
    Up,
    Other,
}

/// What the input pump forwards through the channel: a key event, or a
/// periodic tick with no key pressed.
#[derive(Debug, Clone, Copy, PartialEq, Eq, Structural)]
pub enum Event<I> {
    Input(I),
    Tick,
}

/// What the render loop does after an event is applied: redraw the frame,
/// leave the loop, or wait for the next event.
#[derive(Debug, Clone, Copy, PartialEq, Eq, Structural)]
pub enum Directive {
    Redraw,
    Quit,
    Idle,
}

/// The index after stepping forward, wrapping from the last to the first.
pub open spec fn next_index(i: int, len: int) -> int {
    if i + 1 < len {
        i + 1
    } else {
        0
    }
}

/// The index after stepping backward, wrapping from the first to the last.
pub open spec fn prev_index(i: int, len: int) -> int {
    if i > 0 {
        i - 1
    } else {
        len - 1
    }
}

/// The selected index as a mathematical value.
pub open spec fn view_sel(sel: Option<usize>) -> Option<int> {
    match sel {
        Some(i) => Some(i as int),
        None => None,
    }
}

/// The selection after one event: stepping on a down or up key, unchanged
/// on anything else; an absent selection stays absent.
pub open spec fn nav_sel(sel: Option<int>, len: int, ev: Event<Key>) -> Option<int> {
    match ev {
        Event::Input(k) => match k {
            Key::Down => match sel {
                Some(i) => Some(next_index(i, len)),
                None => None,
            },
            Key::Up => match sel {
                Some(i) => Some(prev_index(i, len)),
                None => None,
            },
            _ => sel,
        },
        Event::Tick => sel,
    }
}

/// The selection after a whole sequence of events, applied in order.
pub open spec fn nav_sel_seq(sel: Option<int>, len: int, evs: Seq<Event<Key>>) -> Option<int>
    decreases evs.len(),
{
    if evs.len() == 0 {
        sel
    } else {
        nav_sel_seq(nav_sel(sel, len, evs.first()), len, evs.drop_first())
    }
}

/// The directive one event calls for: redraw after a selection step, quit
/// on the quit key, otherwise nothing — a tick never triggers a redraw.
pub open spec fn directive_for(ev: Event<Key>) -> Directive {
    match ev {
        Event::Input(k) => match k {
            Key::Down => Directive::Redraw,
            Key::Up => Directive::Redraw,
            Key::Char(c) => if c == 'q' {
                Directive::Quit
            } else {
                Directive::Idle
            },
            Key::Other => Directive::Idle,
        },
        Event::Tick => Directive::Idle,
    }
}

/// The dashboard state: the quote list — created once at startup, never
/// resized — the selected index, and the running flag.
#[derive(Debug)]
pub struct AppState {
    pub quotes: Vec<StockQuote>,
    pub selected: Option<usize>,
    pub running: bool,
}

impl AppState {
    /// A selection is well-formed exactly when it is absent on an empty
    /// list and a valid index otherwise. Constructors establish this and
    /// every transition preserves it.
    pub open spec fn wf(self) -> bool {
        if self.quotes@.len() == 0 {
            self.selected is None
        } else {
            self.selected matches Some(i) && i < self.quotes@.len()
        }
    }

    /// Start running on the first quote, or with no selection when the
    /// list is empty.
    pub fn new(quotes: Vec<StockQuote>) -> (st: AppState)
        ensures
            st.quotes == quotes,
            quotes@.len() > 0 ==> st.selected == Some(0usize),
            quotes@.len() == 0 ==> st.selected is None,
            st.running,
            st.wf(),
    {
        let selected: Option<usize> = if quotes.len() > 0 {
            Some(0)
        } else {
            None
        };
        AppState { quotes, selected, running: true }
    }

    /// Step the selection forward, wrapping past the last quote.
    pub fn next(&mut self)
        requires
            old(self).wf(),
        ensures
            final(self).quotes == old(self).quotes,
            final(self).running == old(self).running,
            final(self).wf(),
            view_sel(final(self).selected) == nav_sel(
                view_sel(old(self).selected),
                old(self).quotes@.len() as int,
                Event::Input(Key::Down),
            ),
    {
        match self.selected {
            Some(i) => {
                let len = self.quotes.len();
                assert(i < len);
                if i + 1 < len {
                    self.selected = Some(i + 1);
                } else {
                    self.selected = Some(0);
                }
            },
            None => {
                self.selected = None;
            },
        }
    }

    /// Step the selection backward, wrapping before the first quote.
    pub fn previous(&mut self)
        requires
            old(self).wf(),
        ensures
            final(self).quotes == old(self).quotes,
            final(self).running == old(self).running,
            final(self).wf(),
            view_sel(final(self).selected) == nav_sel(
                view_sel(old(self).selected),
                old(self).quotes@.len() as int,
                Event::Input(Key::Up),
            ),
    {
        match self.selected {
            Some(i) => {
                if i > 0 {
                    self.selected = Some(i - 1);
                } else {
                    self.selected = Some(self.quotes.len() - 1);
                }
            },
            None => {
                self.selected = None;
            },
        }
    }

    /// The selected quote, when there is one.
    pub fn selected(&self) -> (r: Option<&StockQuote>)
        requires
            self.wf(),
        ensures
            match self.selected {
                Some(i) => r matches Some(q) && *q == self.quotes@[i as int],
                None => r is None,
            },
    {
        if let Some(i) = self.selected {
            Some(&self.quotes[i])
        } else {
            None
        }
    }

    /// Apply one event: commit the selection step it calls for and hand
    /// back the directive for the render loop.
    pub fn handle(&mut self, ev: &Event<Key>) -> (d: Directive)
        requires
            old(self).wf(),
            old(self).running,
        ensures
            final(self).quotes == old(self).quotes,
            final(self).wf(),
            final(self).running == (directive_for(*ev) != Directive::Quit),
            view_sel(final(self).selected) == nav_sel(
                view_sel(old(self).selected),
                old(self).quotes@.len() as int,
                *ev,
            ),
            d == directive_for(*ev),
    {
        match ev {
            Event::Input(k) => match k {
                Key::Down => {
                    self.next();
                    Directive::Redraw
                },
                Key::Up => {
                    self.previous();
                    Directive::Redraw
                },
                Key::Char(c) => {
                    if *c == 'q' {
                        self.running = false;
                        Directive::Quit
                    } else {
                        Directive::Idle
                    }
                },
                Key::Other => Directive::Idle,
            },
            Event::Tick => Directive::Idle,
        }
    }
}

/// Stepping forward and then backward from any valid index returns to that
/// index, and so does backward then forward; forward from the last index
/// wraps to the first, backward from the first wraps to the last.
pub proof fn lemma_step_round_trip(i: int, len: int)
    requires
        0 <= i < len,
    ensures
        prev_index(next_index(i, len), len) == i,
        next_index(prev_index(i, len), len) == i,
        i == len - 1 ==> next_index(i, len) == 0,
        i == 0 ==> prev_index(i, len) == len - 1,
{
}

/// An absent selection stays absent across any sequence of events — in
/// particular, on an empty dashboard no event ever selects anything.
pub proof fn lemma_empty_dashboard_selection(len: int, evs: Seq<Event<Key>>)
    ensures
        nav_sel_seq(None, len, evs) is None,
    decreases evs.len(),
{
    if evs.len() > 0 {
        lemma_empty_dashboard_selection(len, evs.drop_first());
    }
}

} // verus!
