use bms_lv_gui::routing::{route, Message, Routed, Scale, Target, Update};

fn cell(index: usize, value: f32) -> Update<f32> {
    Update { target: Target::Cell(index), value, scale: Scale::TenthsToMilli }
}

fn plain(target: Target, value: f32) -> Update<f32> {
    Update { target, value, scale: Scale::Unchanged }
}

#[test]
fn first_cell_message_fills_cells_zero_to_three() {
    let msg = Message::BmsLvCell1 { cell_0: 36000.0, cell_1: 36010.0, cell_2: 36020.0, cell_3: 36030.0 };
    assert_eq!(
        route(msg),
        Routed::Publish(vec![cell(0, 36000.0), cell(1, 36010.0), cell(2, 36020.0), cell(3, 36030.0)])
    );
}

#[test]
fn second_cell_message_fills_cells_four_to_seven() {
    let msg = Message::BmsLvCell2 { cell_4: 1.0, cell_5: 2.0, cell_6: 3.0, cell_7: 4.0 };
    assert_eq!(route(msg), Routed::Publish(vec![cell(4, 1.0), cell(5, 2.0), cell(6, 3.0), cell(7, 4.0)]));
}

#[test]
fn third_cell_message_puts_cell_twelve_reading_in_slot_eleven() {
    let msg = Message::BmsLvCell3 { cell_8: 8.0, cell_9: 9.0, cell_10: 10.0, cell_12: 12.0 };
    assert_eq!(route(msg), Routed::Publish(vec![cell(8, 8.0), cell(9, 9.0), cell(10, 10.0), cell(11, 12.0)]));
}

#[test]
fn pack_voltages_are_not_scaled() {
    let msg = Message::BmsLv1 { min_volt: 3300.0, max_volt: 4100.0, avg_volt: 3700.0, tot_volt: 44400.0 };
    assert_eq!(
        route(msg),
        Routed::Publish(vec![
            plain(Target::MinVolt, 3300.0),
            plain(Target::MaxVolt, 4100.0),
            plain(Target::AvgVolt, 3700.0),
            plain(Target::TotVolt, 44400.0),
        ])
    );
}

#[test]
fn pack_temperatures_are_dropped() {
    let msg = Message::BmsLv2 { current: 12.5, max_temp: 40.0, min_temp: 20.0 };
    assert_eq!(route(msg), Routed::Publish(vec![plain(Target::Current, 12.5)]));
}

#[test]
fn other_messages_are_ignored() {
    assert_eq!(route(Message::<f32>::Other), Routed::Ignored);
}
