use bms_lv_gui::layout::{cell_color, plan_frame, Caption, Color, DrawOp, Suffix, Text};
use bms_lv_gui::readings::{Polls, Readings};

fn polls(n: usize) -> Polls<f32> {
    Polls {
        min_volt_top: None,
        min_temp: None,
        max_temp: None,
        cells: vec![None; n],
        min_volt_bottom: None,
        max_volt: None,
        avg_volt: None,
        tot_volt: None,
    }
}

fn text(text: Text<f32>, x: i32, y: i32) -> DrawOp<f32> {
    DrawOp::Text { text, x, y, size: 32, color: Color::Black }
}

fn reading(value: f32, suffix: Suffix) -> Text<f32> {
    Text::Reading { value, suffix }
}

#[test]
fn captions_and_suffixes() {
    assert_eq!(Caption::Current.text(), "current:");
    assert_eq!(Caption::MinTemp.text(), "Min temp:");
    assert_eq!(Caption::MaxTemp.text(), "Max temp:");
    assert_eq!(Caption::Title.text(), "Bms Lv Volts");
    assert_eq!(Caption::MinVolts.text(), "Min volts:");
    assert_eq!(Caption::MaxVolts.text(), "Max volts:");
    assert_eq!(Caption::AvgVolts.text(), "Avg volts:");
    assert_eq!(Caption::TotVolts.text(), "Tot volts:");
    assert_eq!(Suffix::Bare.text(), "");
    assert_eq!(Suffix::MilliVolts.text(), " mV");
    assert_eq!(Suffix::AmpsCelsiusCelsius.text(), " A C C");
}

#[test]
fn cell_colors() {
    assert_eq!(cell_color(true), Color::Green);
    assert_eq!(cell_color(false), Color::Red);
}

#[test]
fn twelve_cell_frame_layout() {
    let mut shown = Readings::new(12, 0.0f32);
    shown.current = 1.5;
    for k in 0..12 {
        shown.cells[k] = 3000.0 + k as f32;
    }
    shown.max_volt = 4100.0;
    let mut p = polls(12);
    p.min_volt_top = Some(3300.0);
    let healthy: Vec<bool> = (0..12).map(|k| k % 2 == 0).collect();
    let ops = plan_frame(&shown, &p, &healthy);
    assert_eq!(ops.len(), 28 + 5 * 12);
    // top row
    assert_eq!(ops[0], DrawOp::Rectangle { x: 0, y: 100, width: 200, height: 100, color: Color::Coral });
    assert_eq!(ops[1], DrawOp::RectangleLines { x: 0, y: 100, width: 200, height: 100, color: Color::White });
    assert_eq!(ops[2], text(Text::Caption(Caption::Current), 36, 100));
    assert_eq!(ops[3], text(reading(1.5, Suffix::AmpsCelsiusCelsius), 36, 150));
    assert_eq!(ops[6], text(Text::Caption(Caption::MinTemp), 236, 100));
    assert_eq!(ops[7], text(reading(1.5, Suffix::Bare), 236, 150));
    assert_eq!(ops[11], text(reading(1.5, Suffix::Bare), 436, 150));
    // first cell
    assert_eq!(ops[12], DrawOp::ClearBackground(Color::LightGray));
    assert_eq!(ops[13], text(Text::Caption(Caption::Title), 300, 50));
    assert_eq!(ops[14], DrawOp::Rectangle { x: 0, y: 200, width: 200, height: 100, color: Color::Green });
    assert_eq!(ops[16], text(reading(3000.0, Suffix::MilliVolts), 36, 250));
    // cell 5: second row, second column, odd so red
    assert_eq!(ops[14 + 25], DrawOp::Rectangle { x: 200, y: 300, width: 200, height: 100, color: Color::Red });
    assert_eq!(ops[16 + 25], text(reading(3005.0, Suffix::MilliVolts), 236, 350));
    // cell 11: third row, last column
    assert_eq!(ops[14 + 55], DrawOp::Rectangle { x: 600, y: 400, width: 200, height: 100, color: Color::Red });
    // bottom row starts at the left edge below the grid
    assert_eq!(ops[72], DrawOp::Rectangle { x: 0, y: 500, width: 200, height: 100, color: Color::Coral });
    assert_eq!(ops[74], text(Text::Caption(Caption::MinVolts), 36, 500));
    assert_eq!(ops[75], text(reading(3300.0, Suffix::MilliVolts), 36, 550));
    assert_eq!(ops[79], text(reading(4100.0, Suffix::MilliVolts), 236, 550));
    assert_eq!(ops[86], text(Text::Caption(Caption::TotVolts), 636, 500));
}

#[test]
fn bottom_row_follows_a_partial_grid_row() {
    let shown = Readings::new(5, 0.0f32);
    let ops = plan_frame(&shown, &polls(5), &vec![true; 5]);
    assert_eq!(ops.len(), 28 + 25);
    assert_eq!(ops[37 + 0], DrawOp::Rectangle { x: 200, y: 300, width: 200, height: 100, color: Color::Coral });
    assert_eq!(ops[37 + 12], DrawOp::Rectangle { x: 800, y: 300, width: 200, height: 100, color: Color::Coral });
}

#[test]
fn empty_grid_frame() {
    let shown = Readings::new(0, 0.0f32);
    let ops = plan_frame(&shown, &polls(0), &vec![]);
    assert_eq!(ops.len(), 28);
    assert_eq!(ops[12], DrawOp::Rectangle { x: 0, y: 200, width: 200, height: 100, color: Color::Coral });
}

#[test]
fn cell_text_shows_the_value_before_its_poll() {
    let shown = Readings::new(1, 0.0f32);
    let mut p = polls(1);
    p.cells[0] = Some(3700.0);
    let ops = plan_frame(&shown, &p, &vec![true]);
    assert_eq!(ops[16], text(reading(0.0, Suffix::MilliVolts), 36, 250));
}

#[test]
fn polled_cell_value_shows_in_the_next_frame() {
    let mut shown = Readings::new(6, 0.0f32);
    let mut p = polls(6);
    p.cells[5] = Some(3650.0);
    let _ = plan_frame(&shown, &p, &vec![false; 6]);
    shown.refresh(&p);
    let ops = plan_frame(&shown, &polls(6), &vec![true; 6]);
    assert_eq!(ops[16 + 25], text(reading(3650.0, Suffix::MilliVolts), 236, 350));
}
