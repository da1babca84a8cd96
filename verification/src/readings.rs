//! The readings the display keeps, and how one frame's polls of the
//! channels refresh them: a poll that found a new value replaces the shown
//! one, a poll that found nothing keeps it.
use vstd::prelude::*;

verus! {

/// The value kept for one quantity after a poll of its channel.
pub open spec fn latest<V>(kept: V, polled: Option<V>) -> V {
    match polled {
        Some(v) => v,
        None => kept,
    }
}

/// The readings the display keeps.
#[derive(Clone, Debug, PartialEq)]
pub struct Readings<V> {
    /// The voltage of each cell, in millivolts.
    pub cells: Vec<V>,
    pub min_volt: V,
    pub max_volt: V,
    pub avg_volt: V,
    pub tot_volt: V,
    pub current: V,
    pub min_temp: V,
    pub max_temp: V,
}

/// The outcome of every channel poll of one drawn frame, in the order the
/// frame polls them; `None` where the channel held no new value.
#[derive(Clone, Debug, PartialEq)]
pub struct Polls<V> {
    /// The minimum voltage, polled before the top row is drawn.
    pub min_volt_top: Option<V>,
    pub min_temp: Option<V>,
    pub max_temp: Option<V>,
    /// Each cell, polled as the cell is drawn.
    pub cells: Vec<Option<V>>,
    /// The minimum voltage, polled again before the bottom row is drawn.
    pub min_volt_bottom: Option<V>,
    pub max_volt: Option<V>,
    pub avg_volt: Option<V>,
    pub tot_volt: Option<V>,
}

impl<V> Readings<V> {
    /// Every cell of `cells` polled by the matching entry of `polls`.
    pub open spec fn refreshed_cells(cells: Seq<V>, polls: Seq<Option<V>>) -> Seq<V> {
        Seq::new(cells.len(), |i: int| latest(cells[i], polls[i]))
    }
}

impl<V: Copy> Readings<V> {
    /// The readings before any value arrived: `n` cells and every quantity
    /// at `initial`.
    pub fn new(n: usize, initial: V) -> (r: Readings<V>)
        ensures
            r.cells@ == Seq::new(n as nat, |i: int| initial),
            r.min_volt == initial,
            r.max_volt == initial,
            r.avg_volt == initial,
            r.tot_volt == initial,
            r.current == initial,
            r.min_temp == initial,
            r.max_temp == initial,
    {
        let mut cells: Vec<V> = Vec::new();
        let mut i: usize = 0;
        while i < n
            invariant
                i <= n,
                cells@ == Seq::new(i as nat, |k: int| initial),
            decreases n - i,
        {
            cells.push(initial);
            i = i + 1;
        }
        Readings {
            cells,
            min_volt: initial,
            max_volt: initial,
            avg_volt: initial,
            tot_volt: initial,
            current: initial,
            min_temp: initial,
            max_temp: initial,
        }
    }

    /// Refreshes the readings with one frame's polls. The pack current has
    /// no poll in a frame and keeps its value; the minimum voltage is polled
    /// twice and ends with the later value found.
    pub fn refresh(&mut self, polls: &Polls<V>)
        requires
            polls.cells.len() == old(self).cells.len(),
        ensures
            final(self).cells@ == Self::refreshed_cells(old(self).cells@, polls.cells@),
            final(self).min_volt == latest(latest(old(self).min_volt, polls.min_volt_top), polls.min_volt_bottom),
            final(self).max_volt == latest(old(self).max_volt, polls.max_volt),
            final(self).avg_volt == latest(old(self).avg_volt, polls.avg_volt),
            final(self).tot_volt == latest(old(self).tot_volt, polls.tot_volt),
            final(self).current == old(self).current,
            final(self).min_temp == latest(old(self).min_temp, polls.min_temp),
            final(self).max_temp == latest(old(self).max_temp, polls.max_temp),
    {
        refresh_cells(&mut self.cells, &polls.cells);
        self.min_volt = keep_latest(keep_latest(self.min_volt, polls.min_volt_top), polls.min_volt_bottom);
        self.max_volt = keep_latest(self.max_volt, polls.max_volt);
        self.avg_volt = keep_latest(self.avg_volt, polls.avg_volt);
        self.tot_volt = keep_latest(self.tot_volt, polls.tot_volt);
        self.min_temp = keep_latest(self.min_temp, polls.min_temp);
        self.max_temp = keep_latest(self.max_temp, polls.max_temp);
    }
}

/// The value kept for a quantity after a poll of its channel.
pub fn keep_latest<V: Copy>(kept: V, polled: Option<V>) -> (v: V)
    ensures
        v == latest(kept, polled),
{
    match polled {
        Some(v) => v,
        None => kept,
    }
}

/// Polls every cell in place: each cell whose poll found a value takes it,
/// the others keep theirs.
pub fn refresh_cells<V: Copy>(cells: &mut Vec<V>, polls: &Vec<Option<V>>)
    requires
        polls.len() == old(cells).len(),
    ensures
        final(cells)@ == Readings::<V>::refreshed_cells(old(cells)@, polls@),
{
    let ghost start = cells@;
    let mut i: usize = 0;
    while i < cells.len()
        invariant
            i <= cells.len(),
            cells.len() == start.len(),
            polls.len() == start.len(),
            forall|k: int| 0 <= k < i ==> cells@[k] == latest(start[k], polls@[k]),
            forall|k: int| i <= k < cells.len() ==> cells@[k] == start[k],
        decreases cells.len() - i,
    {
        let v = keep_latest(cells[i], polls[i]);
        cells.set(i, v);
        i = i + 1;
    }
    assert(cells@ =~= Readings::<V>::refreshed_cells(start, polls@));
}

/// A poll that found a value replaces the kept one with it; a poll that
/// found nothing keeps it. Refreshing cells keeps their number and does
/// this for each cell with its own poll.
pub proof fn polls_keep_the_newest_value<V>(kept: V, polled: Option<V>, cells: Seq<V>, polls: Seq<Option<V>>)
    requires
        polls.len() == cells.len(),
    ensures
        polled matches Some(v) ==> latest(kept, polled) == v,
        polled is None ==> latest(kept, polled) == kept,
        Readings::<V>::refreshed_cells(cells, polls).len() == cells.len(),
        forall|i: int|
            0 <= i < cells.len() ==> #[trigger] Readings::<V>::refreshed_cells(cells, polls)[i] == match polls[i] {
                Some(v) => v,
                None => cells[i],
            },
{
}

} // verus!
