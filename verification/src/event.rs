//! Terminal events, and grids made from streams of them.

use vstd::prelude::*;
use crate::grid::{groups, Grid};
use crate::laws::lemma_run_wf;
use crate::model::GridState;
use crate::theme::{lowercase_of, Theme};

verus! {

/// One token of a terminal's input, as a tokenizer hands it on.
#[derive(Clone, Debug, PartialEq, Eq)]
pub enum Event {
    /// A character to show.
    Print(char),
    /// A control byte outside any escape sequence.
    Execute(u8),
    /// A complete control sequence.
    Csi {
        /// The parameter groups: each is a parameter followed by its
        /// subparameters.
        params: Vec<Vec<u16>>,
        /// The intermediate bytes.
        intermediates: Vec<u8>,
        /// Whether the tokenizer had to drop a part of the sequence.
        ignore: bool,
        /// The final character, which selects the action.
        action: char,
    },
}

/// The events of a text without control bytes: one print for each
/// character.
pub open spec fn prints(text: Seq<char>) -> Seq<Event>
    decreases text.len(),
{
    if text.len() == 0 {
        Seq::empty()
    } else {
        prints(text.drop_last()).push(Event::Print(text.last()))
    }
}

impl GridState {
    /// The grid after the event `event`.
    pub open spec fn apply(self, event: Event) -> GridState {
        match event {
            Event::Print(c) => self.print(c),
            Event::Execute(byte) => self.execute(byte),
            Event::Csi { params, intermediates, ignore, action } => self.csi(
                groups(&params),
                intermediates@,
                ignore,
                action,
            ),
        }
    }

    /// The grid after the events `events`, taken in order.
    pub open spec fn run(self, events: Seq<Event>) -> GridState
        decreases events.len(),
    {
        if events.len() == 0 {
            self
        } else {
            self.run(events.drop_last()).apply(events.last())
        }
    }

    /// The finished grid for a stream of events: a grid of `width` columns in
    /// the colours of `theme` that has taken the events in order and then lost
    /// the blank rows at its end.
    pub open spec fn rendered(events: Seq<Event>, width: nat, theme: Theme) -> GridState {
        GridState::initial(width, theme).run(events).trimmed()
    }
}

impl Grid {
    /// Handles one event.
    pub fn apply(&mut self, event: &Event)
        requires
            old(self).wf(),
        ensures
            final(self).wf(),
            final(self)@ == old(self)@.apply(*event),
    {
        match event {
            Event::Print(c) => self.print(*c),
            Event::Execute(byte) => self.execute(*byte),
            Event::Csi { params, intermediates, ignore, action } => self.csi_dispatch(
                params,
                intermediates.as_slice(),
                *ignore,
                *action,
            ),
        }
    }

    /// Handles the events of a stream in order.
    pub fn feed(&mut self, events: &Vec<Event>)
        requires
            old(self).wf(),
        ensures
            final(self).wf(),
            final(self)@ == old(self)@.run(events@),
            final(self)@.width == old(self)@.width,
            final(self)@.theme == old(self)@.theme,
            final(self)@.height() >= old(self)@.height(),
    {
        let ghost before = self@;
        let mut i: usize = 0;
        while i < events.len()
            invariant
                i <= events.len(),
                self.wf(),
                self@ == before.run(events@.take(i as int)),
            decreases events.len() - i,
        {
            proof {
                assert(events@.take(i + 1).drop_last() =~= events@.take(i as int));
            }
            self.apply(&events[i]);
            i += 1;
        }
        proof {
            assert(events@.take(events.len() as int) =~= events@);
            lemma_run_wf(before, events@);
        }
    }
}

/// The finished grid for a stream of events: a grid of `width` columns in the
/// colours of the theme named `theme_name` takes the events in order and then
/// loses the blank rows at its end.
pub fn render(events: &Vec<Event>, width: usize, theme_name: &str) -> (grid: Grid)
    requires
        width >= 1,
    ensures
        grid.wf(),
        grid@ == GridState::rendered(events@, width as nat, Theme::named(lowercase_of(theme_name@))),
        grid@.width == width,
        grid@.theme == Theme::named(lowercase_of(theme_name@)),
{
    let theme = Theme::from_str(theme_name);
    let mut grid = Grid::new(width, theme);
    grid.feed(events);
    grid.trim_trailing_rows();
    grid
}

} // verus!
