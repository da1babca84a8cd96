//! The layout of one drawn frame of the monitor window: a top row with the
//! pack current and temperatures, a grid of cells four to a row, and a
//! bottom row with the pack voltages.
use vstd::prelude::*;
use crate::readings::{Readings, Polls, latest};

verus! {

pub const CELL_WIDTH: i32 = 200;
pub const CELL_HEIGHT: i32 = 100;
/// How many cells stand in one row of the grid.
pub const CELLS_PER_ROW: i32 = 4;
pub const TEXT_SIZE: i32 = 32;
/// Texts start this far left of the middle of their box.
pub const TEXT_INSET: i32 = 64;
pub const TITLE_X: i32 = 300;
pub const TITLE_Y: i32 = 50;

/// The colours the window uses.
#[derive(PartialEq, Eq, Structural, Clone, Copy, Debug)]
pub enum Color {
    Coral,
    White,
    Black,
    Red,
    Green,
    LightGray,
}

/// The fixed texts of the window.
#[derive(PartialEq, Eq, Structural, Clone, Copy, Debug)]
pub enum Caption {
    Current,
    MinTemp,
    MaxTemp,
    Title,
    MinVolts,
    MaxVolts,
    AvgVolts,
    TotVolts,
}

/// What follows a formatted reading.
#[derive(PartialEq, Eq, Structural, Clone, Copy, Debug)]
pub enum Suffix {
    /// Nothing.
    Bare,
    /// `" mV"`.
    MilliVolts,
    /// `" A C C"`: the current's unit, then the temperature unit twice.
    AmpsCelsiusCelsius,
}

/// A text to draw.
#[derive(Clone, Copy, Debug, PartialEq)]
pub enum Text<V> {
    Caption(Caption),
    /// A reading, formatted, followed by the suffix.
    Reading { value: V, suffix: Suffix },
}

/// One drawing call, in window coordinates.
#[derive(Clone, Copy, Debug, PartialEq)]
pub enum DrawOp<V> {
    ClearBackground(Color),
    Rectangle { x: i32, y: i32, width: i32, height: i32, color: Color },
    RectangleLines { x: i32, y: i32, width: i32, height: i32, color: Color },
    Text { text: Text<V>, x: i32, y: i32, size: i32, color: Color },
}

/// The characters of a caption.
pub open spec fn caption_text(c: Caption) -> Seq<char> {
    match c {
        Caption::Current => "current:"@,
        Caption::MinTemp => "Min temp:"@,
        Caption::MaxTemp => "Max temp:"@,
        Caption::Title => "Bms Lv Volts"@,
        Caption::MinVolts => "Min volts:"@,
        Caption::MaxVolts => "Max volts:"@,
        Caption::AvgVolts => "Avg volts:"@,
        Caption::TotVolts => "Tot volts:"@,
    }
}

/// The characters of a suffix.
pub open spec fn suffix_text(s: Suffix) -> Seq<char> {
    match s {
        Suffix::Bare => ""@,
        Suffix::MilliVolts => " mV"@,
        Suffix::AmpsCelsiusCelsius => " A C C"@,
    }
}

impl Caption {
    /// The text of the caption.
    pub fn text(&self) -> (s: &'static str)
        ensures
            s@ == caption_text(*self),
    {
        match self {
            Caption::Current => "current:",
            Caption::MinTemp => "Min temp:",
            Caption::MaxTemp => "Max temp:",
            Caption::Title => "Bms Lv Volts",
            Caption::MinVolts => "Min volts:",
            Caption::MaxVolts => "Max volts:",
            Caption::AvgVolts => "Avg volts:",
            Caption::TotVolts => "Tot volts:",
        }
    }
}

impl Suffix {
    /// The text that follows the formatted reading.
    pub fn text(&self) -> (s: &'static str)
        ensures
            s@ == suffix_text(*self),
    {
        match self {
            Suffix::Bare => "",
            Suffix::MilliVolts => " mV",
            Suffix::AmpsCelsiusCelsius => " A C C",
        }
    }
}

/// The x of the left edge of grid cell `k`.
pub open spec fn cell_x(k: int) -> int {
    (k % 4) * 200
}

/// The y of the top edge of grid cell `k`.
pub open spec fn cell_y(k: int) -> int {
    200 + (k / 4) * 100
}

/// The window coordinates of a frame with `n` cells fit in an `i32`.
pub open spec fn layout_fits(n: nat) -> bool {
    cell_y(n as int) + 50 <= i32::MAX
}

/// The x of the texts of the box whose left edge is at `x`.
pub open spec fn text_x(x: int) -> int {
    x + 100 - 64
}

pub open spec fn text_op<V>(text: Text<V>, x: int, y: int) -> DrawOp<V> {
    DrawOp::Text { text, x: x as i32, y: y as i32, size: 32, color: Color::Black }
}

/// A captioned box: coral with a white outline, its caption at the top and
/// its reading halfway down.
pub open spec fn box_ops<V>(x: int, y: int, caption: Caption, value: V, suffix: Suffix) -> Seq<DrawOp<V>> {
    seq![
        DrawOp::Rectangle { x: x as i32, y: y as i32, width: 200, height: 100, color: Color::Coral },
        DrawOp::RectangleLines { x: x as i32, y: y as i32, width: 200, height: 100, color: Color::White },
        text_op(Text::Caption(caption), text_x(x), y),
        text_op(Text::Reading { value, suffix }, text_x(x), y + 50),
    ]
}

/// The box of grid cell `k`: at column `k % 4` and row `k / 4` of the
/// grid, green when the cell is healthy and red otherwise.
pub open spec fn cell_box<V>(k: int, healthy: bool) -> DrawOp<V> {
    DrawOp::Rectangle {
        x: cell_x(k) as i32,
        y: cell_y(k) as i32,
        width: 200,
        height: 100,
        color: if healthy { Color::Green } else { Color::Red },
    }
}

/// Grid cell `k`: the window is cleared and the title drawn again, then the
/// cell box, green when its reading is healthy and red otherwise, with a
/// white outline and the reading halfway down.
pub open spec fn cell_ops<V>(k: int, value: V, healthy: bool) -> Seq<DrawOp<V>> {
    let x = cell_x(k);
    let y = cell_y(k);
    seq![
        DrawOp::ClearBackground(Color::LightGray),
        text_op(Text::Caption(Caption::Title), 300, 50),
        cell_box(k, healthy),
        DrawOp::RectangleLines { x: x as i32, y: y as i32, width: 200, height: 100, color: Color::White },
        text_op(Text::Reading { value, suffix: Suffix::MilliVolts }, text_x(x), y + 50),
    ]
}

/// The operations of the first `k` grid cells.
pub open spec fn grid_ops<V>(values: Seq<V>, healthy: Seq<bool>, k: nat) -> Seq<DrawOp<V>>
    decreases k,
{
    if k == 0 {
        Seq::empty()
    } else {
        grid_ops(values, healthy, (k - 1) as nat) + cell_ops(k - 1, values[k - 1], healthy[k - 1])
    }
}

/// The top row. Its three readings all show the pack current kept at the
/// start of the frame: the first with the suffix `" A C C"`, the two
/// temperature boxes bare.
pub open spec fn top_ops<V>(shown: Readings<V>) -> Seq<DrawOp<V>> {
    box_ops(0, 100, Caption::Current, shown.current, Suffix::AmpsCelsiusCelsius)
        + box_ops(200, 100, Caption::MinTemp, shown.current, Suffix::Bare)
        + box_ops(400, 100, Caption::MaxTemp, shown.current, Suffix::Bare)
}

/// The bottom row, starting where the grid left off. The minimum voltage
/// shows the value after its first poll of the frame; the others show their
/// value before the frame's polls.
pub open spec fn bottom_ops<V>(shown: Readings<V>, polls: Polls<V>) -> Seq<DrawOp<V>> {
    let n = shown.cells.len() as int;
    let x = cell_x(n);
    let y = cell_y(n);
    box_ops(x, y, Caption::MinVolts, latest(shown.min_volt, polls.min_volt_top), Suffix::MilliVolts)
        + box_ops(x + 200, y, Caption::MaxVolts, shown.max_volt, Suffix::MilliVolts)
        + box_ops(x + 400, y, Caption::AvgVolts, shown.avg_volt, Suffix::MilliVolts)
        + box_ops(x + 600, y, Caption::TotVolts, shown.tot_volt, Suffix::MilliVolts)
}

/// Every drawing call of one frame, in order: `shown` holds the readings
/// at the start of the frame, `polls` what the frame's polls found, and
/// `healthy[k]` whether cell `k`, once polled, lies in the healthy band.
/// Each cell's text shows its reading from before its poll.
pub open spec fn frame_ops<V>(shown: Readings<V>, polls: Polls<V>, healthy: Seq<bool>) -> Seq<DrawOp<V>> {
    top_ops(shown) + grid_ops(shown.cells@, healthy, shown.cells.len() as nat) + bottom_ops(shown, polls)
}

fn push_text<V>(ops: &mut Vec<DrawOp<V>>, text: Text<V>, x: i32, y: i32)
    ensures
        final(ops)@ == old(ops)@.push(text_op(text, x as int, y as int)),
{
    ops.push(DrawOp::Text { text, x, y, size: TEXT_SIZE, color: Color::Black });
}

fn push_box<V>(ops: &mut Vec<DrawOp<V>>, x: i32, y: i32, caption: Caption, value: V, suffix: Suffix)
    requires
        0 <= x <= 1400,
        0 <= y,
        y + 50 <= i32::MAX,
    ensures
        final(ops)@ == old(ops)@ + box_ops(x as int, y as int, caption, value, suffix),
{
    ops.push(DrawOp::Rectangle { x, y, width: CELL_WIDTH, height: CELL_HEIGHT, color: Color::Coral });
    ops.push(DrawOp::RectangleLines { x, y, width: CELL_WIDTH, height: CELL_HEIGHT, color: Color::White });
    push_text(ops, Text::Caption(caption), x + CELL_WIDTH / 2 - TEXT_INSET, y);
    push_text(ops, Text::Reading { value, suffix }, x + CELL_WIDTH / 2 - TEXT_INSET, y + CELL_HEIGHT / 2);
    assert(final(ops)@ =~= old(ops)@ + box_ops(x as int, y as int, caption, value, suffix));
}

/// The colour of a grid cell.
pub fn cell_color(healthy: bool) -> (c: Color)
    ensures
        c == (if healthy { Color::Green } else { Color::Red }),
{
    if healthy {
        Color::Green
    } else {
        Color::Red
    }
}

/// Plans one frame: the drawing calls, in order, for the readings `shown`
/// at the start of the frame, the frame's polls, and whether each cell,
/// once polled, is healthy.
pub fn plan_frame<V: Copy>(shown: &Readings<V>, polls: &Polls<V>, healthy: &Vec<bool>) -> (ops: Vec<
    DrawOp<V>,
>)
    requires
        healthy.len() == shown.cells.len(),
        layout_fits(shown.cells.len() as nat),
    ensures
        ops@ == frame_ops(*shown, *polls, healthy@),
{
    let n = shown.cells.len();
    let mut ops: Vec<DrawOp<V>> = Vec::new();
    let mut row: i32 = 0;
    let mut column: i32 = CELL_HEIGHT;
    push_box(&mut ops, row, column, Caption::Current, shown.current, Suffix::AmpsCelsiusCelsius);
    row = row + CELL_WIDTH;
    push_box(&mut ops, row, column, Caption::MinTemp, shown.current, Suffix::Bare);
    row = row + CELL_WIDTH;
    push_box(&mut ops, row, column, Caption::MaxTemp, shown.current, Suffix::Bare);
    assert(ops@ =~= top_ops(*shown));
    column = column + CELL_HEIGHT;
    row = 0;
    let mut k: usize = 0;
    while k < n
        invariant
            n == shown.cells.len(),
            healthy.len() == n,
            k <= n,
            layout_fits(n as nat),
            row == cell_x(k as int),
            column == cell_y(k as int),
            ops@ == top_ops(*shown) + grid_ops(shown.cells@, healthy@, k as nat),
        decreases n - k,
    {
        proof {
            lemma_cell_y_monotone(k as int + 1, n as int);
        }
        let ghost before = ops@;
        ops.push(DrawOp::ClearBackground(Color::LightGray));
        push_text(&mut ops, Text::Caption(Caption::Title), TITLE_X, TITLE_Y);
        let color = cell_color(healthy[k]);
        ops.push(DrawOp::Rectangle { x: row, y: column, width: CELL_WIDTH, height: CELL_HEIGHT, color });
        ops.push(DrawOp::RectangleLines { x: row, y: column, width: CELL_WIDTH, height: CELL_HEIGHT, color: Color::White });
        push_text(
            &mut ops,
            Text::Reading { value: shown.cells[k], suffix: Suffix::MilliVolts },
            row + CELL_WIDTH / 2 - TEXT_INSET,
            column + CELL_HEIGHT / 2,
        );
        assert(ops@ =~= before + cell_ops(k as int, shown.cells@[k as int], healthy@[k as int]));
        proof {
            lemma_next_cell(k as int);
        }
        row = row + CELL_WIDTH;
        if row >= CELLS_PER_ROW * CELL_WIDTH {
            row = 0;
            column = column + CELL_HEIGHT;
        }
        k = k + 1;
        assert(ops@ =~= top_ops(*shown) + grid_ops(shown.cells@, healthy@, k as nat));
    }
    let ghost grid = ops@;
    let min_volt = if let Some(v) = polls.min_volt_top {
        v
    } else {
        shown.min_volt
    };
    push_box(&mut ops, row, column, Caption::MinVolts, min_volt, Suffix::MilliVolts);
    row = row + CELL_WIDTH;
    push_box(&mut ops, row, column, Caption::MaxVolts, shown.max_volt, Suffix::MilliVolts);
    row = row + CELL_WIDTH;
    push_box(&mut ops, row, column, Caption::AvgVolts, shown.avg_volt, Suffix::MilliVolts);
    row = row + CELL_WIDTH;
    push_box(&mut ops, row, column, Caption::TotVolts, shown.tot_volt, Suffix::MilliVolts);
    assert(ops@ =~= grid + bottom_ops(*shown, *polls));
    ops
}

proof fn lemma_cell_y_monotone(j: int, n: int)
    requires
        0 <= j <= n,
    ensures
        cell_y(j) <= cell_y(n),
{
    vstd::arithmetic::div_mod::lemma_div_is_ordered(j, n, 4);
}

/// Stepping from one grid cell to the next moves one box to the right, or,
/// past the fourth box of a row, back to the left edge one row down.
proof fn lemma_next_cell(k: int)
    requires
        0 <= k,
    ensures
        0 <= cell_x(k) <= 600,
        cell_y(k) >= 200,
        cell_x(k) + 200 >= 800 ==> cell_x(k + 1) == 0 && cell_y(k + 1) == cell_y(k) + 100,
        cell_x(k) + 200 < 800 ==> cell_x(k + 1) == cell_x(k) + 200 && cell_y(k + 1) == cell_y(k),
{
    assert(k % 4 == 3 ==> (k + 1) % 4 == 0 && (k + 1) / 4 == k / 4 + 1) by (nonlinear_arith)
        requires 0 <= k;
    assert(k % 4 < 3 ==> (k + 1) % 4 == k % 4 + 1 && (k + 1) / 4 == k / 4) by (nonlinear_arith)
        requires 0 <= k;
}

proof fn lemma_grid_ops_shape<V>(values: Seq<V>, healthy: Seq<bool>, m: nat)
    ensures
        grid_ops(values, healthy, m).len() == 5 * m,
        forall|k: int, i: int|
            0 <= k < m && 0 <= i < 5 ==> #[trigger] grid_ops(values, healthy, m)[5 * k + i]
                == cell_ops(k, values[k], healthy[k])[i],
    decreases m,
{
    if m > 0 {
        let prev = grid_ops(values, healthy, (m - 1) as nat);
        let last = cell_ops(m - 1, values[m - 1], healthy[m - 1]);
        lemma_grid_ops_shape(values, healthy, (m - 1) as nat);
        assert forall|k: int, i: int|
            0 <= k < m && 0 <= i < 5 implies #[trigger] grid_ops(values, healthy, m)[5 * k + i]
                == cell_ops(k, values[k], healthy[k])[i] by {
            if k < m - 1 {
                assert(grid_ops(values, healthy, m)[5 * k + i] == prev[5 * k + i]);
            } else {
                assert(grid_ops(values, healthy, m)[5 * k + i] == last[i]);
            }
        }
    }
}

/// A frame with `n` cells makes `28 + 5 * n` drawing calls, and the box of
/// cell `k` is its call `14 + 5 * k`, green exactly when the cell is
/// healthy; its call `16 + 5 * k` writes the
/// cell's reading from the start of the frame, in millivolts.
pub proof fn frame_places_each_cell<V>(shown: Readings<V>, polls: Polls<V>, healthy: Seq<bool>)
    requires
        healthy.len() == shown.cells.len(),
    ensures
        frame_ops(shown, polls, healthy).len() == 28 + 5 * shown.cells.len(),
        forall|k: int|
            0 <= k < shown.cells.len() ==> #[trigger] frame_ops(shown, polls, healthy)[14 + 5 * k]
                == cell_box::<V>(k, healthy[k]),
        forall|k: int|
            0 <= k < shown.cells.len() ==> #[trigger] frame_ops(shown, polls, healthy)[16 + 5 * k]
                == text_op(
                Text::Reading { value: shown.cells@[k], suffix: Suffix::MilliVolts },
                (k % 4) * 200 + 36,
                200 + (k / 4) * 100 + 50,
            ),
{
    let n = shown.cells.len() as nat;
    let top = top_ops(shown);
    let grid = grid_ops(shown.cells@, healthy, n);
    let bottom = bottom_ops(shown, polls);
    lemma_grid_ops_shape(shown.cells@, healthy, n);
    assert(top.len() == 12);
    assert(bottom.len() == 16);
    assert forall|k: int| 0 <= k < shown.cells.len() implies #[trigger] frame_ops(shown, polls, healthy)[14
        + 5 * k] == cell_box::<V>(k, healthy[k]) by {
        assert(frame_ops(shown, polls, healthy)[14 + 5 * k] == grid[5 * k + 2]);
    }
    assert forall|k: int| 0 <= k < shown.cells.len() implies #[trigger] frame_ops(shown, polls, healthy)[16
        + 5 * k] == text_op(
        Text::Reading { value: shown.cells@[k], suffix: Suffix::MilliVolts },
        (k % 4) * 200 + 36,
        200 + (k / 4) * 100 + 50,
    ) by {
        assert(frame_ops(shown, polls, healthy)[16 + 5 * k] == grid[5 * k + 4]);
    }
}

/// The grid is four boxes wide and fits the 800 pixels of its rows, lies
/// below the top row, and no two cells' boxes overlap.
pub proof fn cells_tile_the_grid(j: int, k: int)
    requires
        0 <= j,
        0 <= k,
        j != k,
    ensures
        0 <= cell_x(k) && cell_x(k) + 200 <= 800,
        cell_y(k) >= 100 + 100,
        cell_x(j) + 200 <= cell_x(k) || cell_x(k) + 200 <= cell_x(j) || cell_y(j) + 100 <= cell_y(k)
            || cell_y(k) + 100 <= cell_y(j),
{
    assert(j / 4 == k / 4 ==> j % 4 != k % 4) by (nonlinear_arith)
        requires
            0 <= j,
            0 <= k,
            j != k,
    ;
    assert(j / 4 != k / 4 ==> j / 4 + 1 <= k / 4 || k / 4 + 1 <= j / 4);
}

/// The reading that a frame's poll finds for a cell is the one that cell
/// shows in the next frame.
pub proof fn polled_cell_shows_next_frame<V>(
    shown: Readings<V>,
    polls: Polls<V>,
    next: Readings<V>,
    next_polls: Polls<V>,
    healthy: Seq<bool>,
    k: int,
)
    requires
        polls.cells.len() == shown.cells.len(),
        next.cells@ == Readings::<V>::refreshed_cells(shown.cells@, polls.cells@),
        healthy.len() == next.cells.len(),
        0 <= k < shown.cells.len(),
    ensures
        frame_ops(next, next_polls, healthy)[16 + 5 * k] == text_op(
            Text::Reading { value: latest(shown.cells@[k], polls.cells@[k]), suffix: Suffix::MilliVolts },
            cell_x(k) + 36,
            cell_y(k) + 50,
        ),
{
    frame_places_each_cell(next, next_polls, healthy);
}

/// `op` writes `value` followed by `suffix`, in black at size 32.
pub open spec fn writes_reading<V>(op: DrawOp<V>, value: V, suffix: Suffix) -> bool {
    op matches DrawOp::Text { text: Text::Reading { value: v, suffix: s }, size, color, .. }
        && v == value && s == suffix && size == 32 && color == Color::Black
}

/// `op` writes the caption `caption`, in black at size 32.
pub open spec fn writes_caption<V>(op: DrawOp<V>, caption: Caption) -> bool {
    op matches DrawOp::Text { text: Text::Caption(c), size, color, .. } && c == caption && size == 32
        && color == Color::Black
}

/// `op` fills the 200 by 100 box at (`x`, `y`) with `color`.
pub open spec fn fills_box<V>(op: DrawOp<V>, x: int, y: int, color: Color) -> bool {
    op matches DrawOp::Rectangle { x: ox, y: oy, width, height, color: c } && ox == x && oy == y
        && width == 200 && height == 100 && c == color
}

/// Every captioned box of a frame writes the quantity its caption names:
/// the top row's three boxes (calls 0 to 11) are captioned current, minimum
/// and maximum temperature and all write the kept pack current; the bottom
/// row, starting at call `12 + 5 * n` where the grid left off, writes under
/// "Min volts:" the minimum voltage found by the frame's first poll of it,
/// or else the kept one, and under "Max volts:", "Avg volts:" and
/// "Tot volts:" the kept maximum, average and total voltage, all in
/// millivolts. The boxes are coral, side by side, 200 pixels apart.
pub proof fn frame_boxes_show_their_quantities<V>(shown: Readings<V>, polls: Polls<V>, healthy: Seq<bool>)
    requires
        healthy.len() == shown.cells.len(),
        layout_fits(shown.cells.len() as nat),
    ensures
        ({
            let ops = frame_ops(shown, polls, healthy);
            let n = shown.cells.len() as int;
            let b = 12 + 5 * n;
            let x = (n % 4) * 200;
            let y = 200 + (n / 4) * 100;
            let min_volt = match polls.min_volt_top {
                Some(v) => v,
                None => shown.min_volt,
            };
            &&& ops.len() == b + 16
            &&& fills_box(ops[0], 0, 100, Color::Coral)
            &&& writes_caption(ops[2], Caption::Current)
            &&& writes_reading(ops[3], shown.current, Suffix::AmpsCelsiusCelsius)
            &&& fills_box(ops[4], 200, 100, Color::Coral)
            &&& writes_caption(ops[6], Caption::MinTemp)
            &&& writes_reading(ops[7], shown.current, Suffix::Bare)
            &&& fills_box(ops[8], 400, 100, Color::Coral)
            &&& writes_caption(ops[10], Caption::MaxTemp)
            &&& writes_reading(ops[11], shown.current, Suffix::Bare)
            &&& fills_box(ops[b], x, y, Color::Coral)
            &&& writes_caption(ops[b + 2], Caption::MinVolts)
            &&& writes_reading(ops[b + 3], min_volt, Suffix::MilliVolts)
            &&& fills_box(ops[b + 4], x + 200, y, Color::Coral)
            &&& writes_caption(ops[b + 6], Caption::MaxVolts)
            &&& writes_reading(ops[b + 7], shown.max_volt, Suffix::MilliVolts)
            &&& fills_box(ops[b + 8], x + 400, y, Color::Coral)
            &&& writes_caption(ops[b + 10], Caption::AvgVolts)
            &&& writes_reading(ops[b + 11], shown.avg_volt, Suffix::MilliVolts)
            &&& fills_box(ops[b + 12], x + 600, y, Color::Coral)
            &&& writes_caption(ops[b + 14], Caption::TotVolts)
            &&& writes_reading(ops[b + 15], shown.tot_volt, Suffix::MilliVolts)
        }),
{
    let n = shown.cells.len() as nat;
    let top = top_ops(shown);
    let grid = grid_ops(shown.cells@, healthy, n);
    let bottom = bottom_ops(shown, polls);
    lemma_grid_ops_shape(shown.cells@, healthy, n);
    let ops = frame_ops(shown, polls, healthy);
    let b = 12 + 5 * n;
    assert(top.len() == 12);
    assert(bottom.len() == 16);
    assert forall|i: int| 0 <= i < 12 implies ops[i] == top[i] by {}
    assert forall|i: int| 0 <= i < 16 implies ops[b + i] == bottom[i] by {}
    assert(0 <= cell_x(n as int) <= 600) by (nonlinear_arith)
        requires cell_x(n as int) == (n % 4) * 200;
    assert(cell_y(n as int) >= 200) by (nonlinear_arith)
        requires cell_y(n as int) == 200 + (n / 4) * 100;
}

/// Each grid cell `k` is the box at column `k % 4` and row `k / 4` of a
/// grid of 200 by 100 boxes whose first row starts at y = 200, green
/// exactly when the cell is healthy and red otherwise, and it writes the
/// cell's kept reading in millivolts.
pub proof fn frame_cells_show_their_readings<V>(shown: Readings<V>, polls: Polls<V>, healthy: Seq<bool>, k: int)
    requires
        healthy.len() == shown.cells.len(),
        layout_fits(shown.cells.len() as nat),
        0 <= k < shown.cells.len(),
    ensures
        fills_box(
            frame_ops(shown, polls, healthy)[14 + 5 * k],
            (k % 4) * 200,
            200 + (k / 4) * 100,
            if healthy[k] { Color::Green } else { Color::Red },
        ),
        writes_reading(frame_ops(shown, polls, healthy)[16 + 5 * k], shown.cells@[k], Suffix::MilliVolts),
{
    frame_places_each_cell(shown, polls, healthy);
    lemma_cell_y_monotone(k, shown.cells.len() as int);
    assert(0 <= cell_x(k) <= 600) by (nonlinear_arith)
        requires 0 <= k, cell_x(k) == (k % 4) * 200;
    assert(frame_ops(shown, polls, healthy)[14 + 5 * k] == cell_box::<V>(k, healthy[k]));
}

} // verus!
