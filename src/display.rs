//! Merges the updates of both producers into the two lines on the display.
use vstd::prelude::*;
use crate::lcd::TwoStringPrint;

verus! {

/// A new text for one line of the display.
#[derive(Clone, Debug)]
pub enum DisplayUpdate {
    /// Text for the first line (the sensor's).
    First(String),
    /// Text for the second line (the thermostat's).
    Second(String),
}

/// The first line after `updates` are applied in order to `prev`: the text of the last
/// `First` among them, or `prev` if there is none.
pub open spec fn latest_first(prev: Seq<char>, updates: Seq<DisplayUpdate>) -> Seq<char>
    decreases updates.len(),
{
    if updates.len() == 0 {
        prev
    } else {
        match updates.last() {
            DisplayUpdate::First(s) => s@,
            DisplayUpdate::Second(_) => latest_first(prev, updates.drop_last()),
        }
    }
}

/// The second line after `updates` are applied in order to `prev`.
pub open spec fn latest_second(prev: Seq<char>, updates: Seq<DisplayUpdate>) -> Seq<char>
    decreases updates.len(),
{
    if updates.len() == 0 {
        prev
    } else {
        match updates.last() {
            DisplayUpdate::Second(s) => s@,
            DisplayUpdate::First(_) => latest_second(prev, updates.drop_last()),
        }
    }
}

/// Draining the updates in two passes leaves the lines as one pass over all of them would:
/// each line depends only on the order in which its updates were sent.
pub proof fn lemma_drains_compose(
    l1: Seq<char>,
    l2: Seq<char>,
    a: Seq<DisplayUpdate>,
    b: Seq<DisplayUpdate>,
)
    ensures
        latest_first(latest_first(l1, a), b) == latest_first(l1, a + b),
        latest_second(latest_second(l2, a), b) == latest_second(l2, a + b),
    decreases b.len(),
{
    if b.len() == 0 {
        assert(a + b =~= a);
    } else {
        assert((a + b).drop_last() =~= a + b.drop_last());
        assert((a + b).last() == b.last());
        lemma_drains_compose(l1, l2, a, b.drop_last());
    }
}

/// After a drain, the first line is the text of the last `First` update sent before it,
/// whatever `Second` updates came after that one.
pub proof fn lemma_first_line_is_last_sent(prev: Seq<char>, updates: Seq<DisplayUpdate>, i: int)
    requires
        0 <= i < updates.len(),
        updates[i] is First,
        forall|j: int| i < j < updates.len() ==> !(#[trigger] updates[j] is First),
    ensures
        latest_first(prev, updates) == updates[i]->First_0@,
    decreases updates.len(),
{
    if i < updates.len() - 1 {
        assert(!(updates[updates.len() - 1] is First));
        lemma_first_line_is_last_sent(prev, updates.drop_last(), i);
    }
}

/// After a drain, the second line is the text of the last `Second` update sent before it,
/// whatever `First` updates came after that one.
pub proof fn lemma_second_line_is_last_sent(prev: Seq<char>, updates: Seq<DisplayUpdate>, i: int)
    requires
        0 <= i < updates.len(),
        updates[i] is Second,
        forall|j: int| i < j < updates.len() ==> !(#[trigger] updates[j] is Second),
    ensures
        latest_second(prev, updates) == updates[i]->Second_0@,
    decreases updates.len(),
{
    if i < updates.len() - 1 {
        assert(!(updates[updates.len() - 1] is Second));
        lemma_second_line_is_last_sent(prev, updates.drop_last(), i);
    }
}

/// Where the aggregator stands.
#[derive(Clone, Copy, Debug, PartialEq, Eq)]
pub enum AggregatorState {
    /// Applies updates and renders when there were any.
    Running,
    /// Shutdown was asked for: the next tick drains, renders and stops.
    Draining,
    /// The final render is done.
    Stopped,
}

/// Owns the display while it runs, and the two lines shown on it.
pub struct DisplayAggregator<D: TwoStringPrint> {
    display: D,
    line1: String,
    line2: String,
    state: AggregatorState,
    renders: Ghost<Seq<(Seq<char>, Seq<char>)>>,
}

impl<D: TwoStringPrint> DisplayAggregator<D> {
    /// The display as the aggregator holds it.
    pub closed spec fn held_display(&self) -> D {
        self.display
    }

    pub closed spec fn line1_view(&self) -> Seq<char> {
        self.line1@
    }

    pub closed spec fn line2_view(&self) -> Seq<char> {
        self.line2@
    }

    pub closed spec fn state(&self) -> AggregatorState {
        self.state
    }

    /// Every pair of lines written to the display, oldest first.
    pub closed spec fn renders(&self) -> Seq<(Seq<char>, Seq<char>)> {
        self.renders@
    }

    /// Takes the display over, with both lines empty.
    pub fn new(display: D) -> (r: Self)
        ensures
            r.held_display() == display,
            r.line1_view() == Seq::<char>::empty(),
            r.line2_view() == Seq::<char>::empty(),
            r.state() == AggregatorState::Running,
            r.renders() == Seq::<(Seq<char>, Seq<char>)>::empty(),
    {
        DisplayAggregator {
            display,
            line1: String::new(),
            line2: String::new(),
            state: AggregatorState::Running,
            renders: Ghost(Seq::empty()),
        }
    }

    /// The first line as it stands.
    pub fn line1(&self) -> (r: &str)
        ensures
            r@ == self.line1_view(),
    {
        self.line1.as_str()
    }

    /// The second line as it stands.
    pub fn line2(&self) -> (r: &str)
        ensures
            r@ == self.line2_view(),
    {
        self.line2.as_str()
    }

    /// Whether the final render is done.
    pub fn is_stopped(&self) -> (r: bool)
        ensures
            r == (self.state() == AggregatorState::Stopped),
    {
        matches!(self.state, AggregatorState::Stopped)
    }

    /// Asks the aggregator to stop after one more drain and render. Asking again changes
    /// nothing.
    pub fn request_shutdown(&mut self)
        ensures
            final(self).line1_view() == old(self).line1_view(),
            final(self).line2_view() == old(self).line2_view(),
            final(self).renders() == old(self).renders(),
            final(self).state() == (if old(self).state() == AggregatorState::Running {
                AggregatorState::Draining
            } else {
                old(self).state()
            }),
    {
        if matches!(self.state, AggregatorState::Running) {
            self.state = AggregatorState::Draining;
        }
    }

    /// Applies each update in order to the lines, without rendering.
    fn apply(&mut self, updates: &Vec<DisplayUpdate>)
        ensures
            final(self).line1_view() == latest_first(old(self).line1_view(), updates@),
            final(self).line2_view() == latest_second(old(self).line2_view(), updates@),
            final(self).state == old(self).state,
            final(self).renders == old(self).renders,
    {
        let ghost l1 = self.line1@;
        let ghost l2 = self.line2@;
        let mut i: usize = 0;
        while i < updates.len()
            invariant
                i <= updates@.len(),
                self.line1@ == latest_first(l1, updates@.subrange(0, i as int)),
                self.line2@ == latest_second(l2, updates@.subrange(0, i as int)),
                self.state == old(self).state,
                self.renders == old(self).renders,
            decreases updates@.len() - i,
        {
            assert(updates@.subrange(0, i + 1).drop_last() =~= updates@.subrange(0, i as int));
            match &updates[i] {
                DisplayUpdate::First(s) => {
                    self.line1 = s.clone();
                },
                DisplayUpdate::Second(s) => {
                    self.line2 = s.clone();
                },
            }
            i = i + 1;
        }
        assert(updates@.subrange(0, updates@.len() as int) =~= updates@);
    }

    fn render(&mut self)
        ensures
            final(self).line1 == old(self).line1,
            final(self).line2 == old(self).line2,
            final(self).state == old(self).state,
            final(self).renders@ == old(self).renders@.push((old(self).line1@, old(self).line2@)),
    {
        self.display.print_two(self.line1.as_str(), self.line2.as_str());
        self.renders = Ghost(self.renders@.push((self.line1@, self.line2@)));
    }

    /// One scheduling tick: applies the drained `updates` in order, then renders both
    /// lines once if there were any updates or shutdown was asked for. After a tick in
    /// the draining state the aggregator is stopped. Returns whether it is stopped.
    pub fn tick(&mut self, updates: Vec<DisplayUpdate>) -> (stopped: bool)
        requires
            old(self).state() != AggregatorState::Stopped,
        ensures
            final(self).line1_view() == latest_first(old(self).line1_view(), updates@),
            final(self).line2_view() == latest_second(old(self).line2_view(), updates@),
            final(self).renders() == (if updates@.len() > 0 || old(self).state()
                == AggregatorState::Draining {
                old(self).renders().push((final(self).line1_view(), final(self).line2_view()))
            } else {
                old(self).renders()
            }),
            final(self).state() == (if old(self).state() == AggregatorState::Draining {
                AggregatorState::Stopped
            } else {
                AggregatorState::Running
            }),
            stopped == (final(self).state() == AggregatorState::Stopped),
    {
        self.apply(&updates);
        let draining = matches!(self.state, AggregatorState::Draining);
        if updates.len() > 0 || draining {
            self.render();
        }
        if draining {
            self.state = AggregatorState::Stopped;
        }
        draining
    }

    /// Gives the display back, for its teardown.
    pub fn into_display(self) -> (r: D)
        ensures
            r == self.held_display(),
    {
        self.display
    }
}

} // verus!
