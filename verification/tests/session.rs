use bms_lv_gui::routing::{Message, Scale, Target, Update};
use bms_lv_gui::session::{Action, Event, Phase, Reception, Session, RECEIVE_TIMEOUT_MS};

#[test]
fn start_enables_cell_readings() {
    let mut s = Session::new();
    assert_eq!(s.phase, Phase::Idle);
    let a = s.step::<f32>(Event::Start);
    assert_eq!(a, vec![Action::SendCellControl(true)]);
    assert_eq!(s.phase, Phase::Polling);
}

#[test]
fn running_display_asks_for_a_receive() {
    let mut s = Session::new();
    s.step::<f32>(Event::Start);
    let a = s.step::<f32>(Event::Running(true));
    assert_eq!(a, vec![Action::Receive { timeout_ms: 500 }]);
    assert_eq!(RECEIVE_TIMEOUT_MS, 500);
    assert_eq!(s.phase, Phase::Receiving);
}

#[test]
fn closed_display_disables_cell_readings_and_finishes() {
    let mut s = Session::new();
    s.step::<f32>(Event::Start);
    let a = s.step::<f32>(Event::Running(false));
    assert_eq!(a, vec![Action::SendCellControl(false)]);
    assert_eq!(s.phase, Phase::Finished);
    assert_eq!(s.step::<f32>(Event::Running(true)), vec![]);
    assert_eq!(s.step::<f32>(Event::Start), vec![]);
    assert_eq!(s.phase, Phase::Finished);
}

#[test]
fn decoded_message_is_published() {
    let mut s = Session::new();
    s.step::<f32>(Event::Start);
    s.step::<f32>(Event::Running(true));
    let msg = Message::BmsLv2 { current: 3.0, max_temp: 1.0, min_temp: 2.0 };
    let a = s.step(Event::Received(Reception::Decoded(msg)));
    assert_eq!(
        a,
        vec![Action::Publish(Update { target: Target::Current, value: 3.0f32, scale: Scale::Unchanged })]
    );
    assert_eq!(s.phase, Phase::Polling);
}

#[test]
fn unknown_message_is_reported() {
    let mut s = Session::new();
    s.step::<f32>(Event::Start);
    s.step::<f32>(Event::Running(true));
    let a = s.step(Event::Received(Reception::Decoded(Message::<f32>::Other)));
    assert_eq!(a, vec![Action::ReportIgnored]);
}

#[test]
fn timeouts_extended_ids_and_bad_frames_are_silent() {
    for r in [Reception::<f32>::Nothing, Reception::ExtendedId, Reception::Undecodable] {
        let mut s = Session::new();
        s.step::<f32>(Event::Start);
        s.step::<f32>(Event::Running(true));
        assert_eq!(s.step(Event::Received(r)), vec![]);
        assert_eq!(s.phase, Phase::Polling);
    }
}

#[test]
fn events_out_of_turn_change_nothing() {
    let mut s = Session::new();
    assert_eq!(s.step::<f32>(Event::Running(true)), vec![]);
    assert_eq!(s.phase, Phase::Idle);
    s.step::<f32>(Event::Start);
    assert_eq!(s.step(Event::Received(Reception::<f32>::Nothing)), vec![]);
    assert_eq!(s.phase, Phase::Polling);
}

#[test]
fn whole_session_brackets_traffic_with_enable_and_disable() {
    let mut s = Session::new();
    let mut all: Vec<Action<f32>> = Vec::new();
    all.extend(s.step(Event::Start));
    all.extend(s.step(Event::Running(true)));
    all.extend(s.step(Event::Received(Reception::Decoded(Message::BmsLvCell1 {
        cell_0: 1.0,
        cell_1: 2.0,
        cell_2: 3.0,
        cell_3: 4.0,
    }))));
    all.extend(s.step(Event::Running(true)));
    all.extend(s.step(Event::Received(Reception::Nothing)));
    all.extend(s.step(Event::Running(false)));
    all.extend(s.step(Event::Running(true)));
    assert_eq!(all.len(), 8);
    assert_eq!(all[0], Action::SendCellControl(true));
    assert_eq!(all[7], Action::SendCellControl(false));
    assert_eq!(all.iter().filter(|a| matches!(a, Action::SendCellControl(_))).count(), 2);
    assert_eq!(all.iter().filter(|a| matches!(a, Action::Publish(_))).count(), 4);
}
