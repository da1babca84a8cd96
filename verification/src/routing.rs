//! Routing of decoded BMS messages to the quantities the display shows.
use vstd::prelude::*;

verus! {

/// A decoded message of the BMS low-voltage CAN database, carrying the
/// readings the monitor uses; `V` is the type of a reading.
#[derive(Clone, Copy, Debug, PartialEq)]
pub enum Message<V> {
    /// Cells 0 to 3, in tenths of a millivolt.
    BmsLvCell1 { cell_0: V, cell_1: V, cell_2: V, cell_3: V },
    /// Cells 4 to 7, in tenths of a millivolt.
    BmsLvCell2 { cell_4: V, cell_5: V, cell_6: V, cell_7: V },
    /// Cells 8, 9, 10 and the reading the database names cell 12, in tenths
    /// of a millivolt.
    BmsLvCell3 { cell_8: V, cell_9: V, cell_10: V, cell_12: V },
    /// Pack voltages: minimum, maximum, average and total cell voltage.
    BmsLv1 { min_volt: V, max_volt: V, avg_volt: V, tot_volt: V },
    /// Pack current and temperatures.
    BmsLv2 { current: V, max_temp: V, min_temp: V },
    /// Any other message of the database.
    Other,
}

/// A quantity the display shows.
#[derive(PartialEq, Eq, Structural, Clone, Copy, Debug)]
pub enum Target {
    /// The voltage of the cell with this index.
    Cell(usize),
    MinVolt,
    MaxVolt,
    AvgVolt,
    TotVolt,
    Current,
    MinTemp,
    MaxTemp,
}

/// How a routed reading is turned into the displayed value.
#[derive(PartialEq, Eq, Structural, Clone, Copy, Debug)]
pub enum Scale {
    /// The reading is in tenths of a millivolt and is divided by ten.
    TenthsToMilli,
    /// The reading is shown as it is.
    Unchanged,
}

/// One reading to hand to the display.
#[derive(Clone, Copy, Debug, PartialEq)]
pub struct Update<V> {
    pub target: Target,
    pub value: V,
    pub scale: Scale,
}

/// What the monitor does with one decoded message.
#[derive(Clone, Debug, PartialEq)]
pub enum Routed<V> {
    /// Hand these readings to the display, in this order.
    Publish(Vec<Update<V>>),
    /// The message is not one the monitor shows: report it as ignored.
    Ignored,
}

pub open spec fn cell_update<V>(index: usize, value: V) -> Update<V> {
    Update { target: Target::Cell(index), value, scale: Scale::TenthsToMilli }
}

pub open spec fn plain_update<V>(target: Target, value: V) -> Update<V> {
    Update { target, value, scale: Scale::Unchanged }
}

/// The routing of a decoded message: the three cell messages fill the
/// twelve displayed cells four at a time, the first pack message fills the
/// four pack voltages, the second one the pack current (its temperatures are
/// read and dropped), and every other message is reported as ignored.
pub open spec fn routing<V>(msg: Message<V>) -> Option<Seq<Update<V>>> {
    match msg {
        Message::BmsLvCell1 { cell_0, cell_1, cell_2, cell_3 } => Some(
            seq![cell_update(0, cell_0), cell_update(1, cell_1), cell_update(2, cell_2), cell_update(3, cell_3)],
        ),
        Message::BmsLvCell2 { cell_4, cell_5, cell_6, cell_7 } => Some(
            seq![cell_update(4, cell_4), cell_update(5, cell_5), cell_update(6, cell_6), cell_update(7, cell_7)],
        ),
        Message::BmsLvCell3 { cell_8, cell_9, cell_10, cell_12 } => Some(
            seq![cell_update(8, cell_8), cell_update(9, cell_9), cell_update(10, cell_10), cell_update(11, cell_12)],
        ),
        Message::BmsLv1 { min_volt, max_volt, avg_volt, tot_volt } => Some(
            seq![
                plain_update(Target::MinVolt, min_volt),
                plain_update(Target::MaxVolt, max_volt),
                plain_update(Target::AvgVolt, avg_volt),
                plain_update(Target::TotVolt, tot_volt),
            ],
        ),
        Message::BmsLv2 { current, max_temp, min_temp } => Some(
            seq![plain_update(Target::Current, current)],
        ),
        Message::Other => None,
    }
}

/// The exec routing of a decoded message.
pub fn route<V: Copy>(msg: Message<V>) -> (res: Routed<V>)
    ensures
        match res {
            Routed::Publish(updates) => routing(msg) == Some(updates@),
            Routed::Ignored => routing(msg) is None,
        },
{
    match msg {
        Message::BmsLvCell1 { cell_0, cell_1, cell_2, cell_3 } => {
            Routed::Publish(vec![cell(0, cell_0), cell(1, cell_1), cell(2, cell_2), cell(3, cell_3)])
        },
        Message::BmsLvCell2 { cell_4, cell_5, cell_6, cell_7 } => {
            Routed::Publish(vec![cell(4, cell_4), cell(5, cell_5), cell(6, cell_6), cell(7, cell_7)])
        },
        Message::BmsLvCell3 { cell_8, cell_9, cell_10, cell_12 } => {
            Routed::Publish(vec![cell(8, cell_8), cell(9, cell_9), cell(10, cell_10), cell(11, cell_12)])
        },
        Message::BmsLv1 { min_volt, max_volt, avg_volt, tot_volt } => {
            Routed::Publish(
                vec![
                    plain(Target::MinVolt, min_volt),
                    plain(Target::MaxVolt, max_volt),
                    plain(Target::AvgVolt, avg_volt),
                    plain(Target::TotVolt, tot_volt),
                ],
            )
        },
        Message::BmsLv2 { current, max_temp, min_temp } => {
            Routed::Publish(vec![plain(Target::Current, current)])
        },
        Message::Other => Routed::Ignored,
    }
}

fn cell<V>(index: usize, value: V) -> (res: Update<V>)
    ensures
        res == cell_update(index, value),
{
    Update { target: Target::Cell(index), value, scale: Scale::TenthsToMilli }
}

fn plain<V>(target: Target, value: V) -> (res: Update<V>)
    ensures
        res == plain_update(target, value),
{
    Update { target, value, scale: Scale::Unchanged }
}

/// Every cell index the routing produces names one of the twelve displayed
/// cells, and every cell reading is scaled from tenths of a millivolt.
pub proof fn routed_cells_in_range<V>(msg: Message<V>)
    ensures
        routing(msg) matches Some(updates) ==> forall|i: int|
            0 <= i < updates.len() ==> match #[trigger] updates[i].target {
                Target::Cell(k) => k < 12 && updates[i].scale == Scale::TenthsToMilli,
                _ => updates[i].scale == Scale::Unchanged,
            },
{
}

/// `u` sets the cell `index` to `value`, read in tenths of a millivolt.
pub open spec fn sets_cell<V>(u: Update<V>, index: usize, value: V) -> bool {
    u.target == Target::Cell(index) && u.value == value && u.scale == Scale::TenthsToMilli
}

/// `u` sets `target` to `value` as it is.
pub open spec fn sets_plain<V>(u: Update<V>, target: Target, value: V) -> bool {
    u.target == target && u.value == value && u.scale == Scale::Unchanged
}

/// Each reading of a message reaches the quantity it measures, once: the
/// k-th reading of the first, second and third cell message sets cell k,
/// 4 + k and 8 + k; the first pack message sets the minimum, maximum,
/// average and total voltage from its like-named readings; the second sets
/// the pack current only; every other message is ignored. No routing sets
/// one quantity twice.
pub proof fn routing_delivers_each_reading<V>(msg: Message<V>)
    ensures
        match msg {
            Message::BmsLvCell1 { cell_0, cell_1, cell_2, cell_3 } => routing(msg) matches Some(u)
                && u.len() == 4 && sets_cell(u[0], 0, cell_0) && sets_cell(u[1], 1, cell_1)
                && sets_cell(u[2], 2, cell_2) && sets_cell(u[3], 3, cell_3),
            Message::BmsLvCell2 { cell_4, cell_5, cell_6, cell_7 } => routing(msg) matches Some(u)
                && u.len() == 4 && sets_cell(u[0], 4, cell_4) && sets_cell(u[1], 5, cell_5)
                && sets_cell(u[2], 6, cell_6) && sets_cell(u[3], 7, cell_7),
            Message::BmsLvCell3 { cell_8, cell_9, cell_10, cell_12 } => routing(msg) matches Some(u)
                && u.len() == 4 && sets_cell(u[0], 8, cell_8) && sets_cell(u[1], 9, cell_9)
                && sets_cell(u[2], 10, cell_10) && sets_cell(u[3], 11, cell_12),
            Message::BmsLv1 { min_volt, max_volt, avg_volt, tot_volt } => routing(msg) matches Some(u)
                && u.len() == 4 && sets_plain(u[0], Target::MinVolt, min_volt) && sets_plain(
                u[1],
                Target::MaxVolt,
                max_volt,
            ) && sets_plain(u[2], Target::AvgVolt, avg_volt) && sets_plain(u[3], Target::TotVolt, tot_volt),
            Message::BmsLv2 { current, .. } => routing(msg) matches Some(u) && u.len() == 1
                && sets_plain(u[0], Target::Current, current),
            Message::Other => routing(msg) is None,
        },
        routing(msg) matches Some(u) ==> forall|i: int, j: int|
            0 <= i < j < u.len() ==> #[trigger] u[i].target != #[trigger] u[j].target,
{
}

} // verus!
