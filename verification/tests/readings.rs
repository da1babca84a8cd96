use bms_lv_gui::readings::{keep_latest, refresh_cells, Polls, Readings};

fn no_polls(n: usize) -> Polls<f32> {
    Polls {
        min_volt_top: None,
        min_temp: None,
        max_temp: None,
        cells: vec![None; n],
        min_volt_bottom: None,
        max_volt: None,
        avg_volt: None,
        tot_volt: None,
    }
}

#[test]
fn new_readings_start_at_initial_value() {
    let r = Readings::new(12, 0.0f32);
    assert_eq!(r.cells, vec![0.0; 12]);
    assert_eq!(r.min_volt, 0.0);
    assert_eq!(r.current, 0.0);
    assert_eq!(r.max_temp, 0.0);
}

#[test]
fn refresh_without_news_keeps_everything() {
    let mut r = Readings::new(3, 7.0f32);
    let before = r.clone();
    r.refresh(&no_polls(3));
    assert_eq!(r, before);
}

#[test]
fn refresh_takes_polled_values() {
    let mut r = Readings::new(3, 0.0f32);
    let mut p = no_polls(3);
    p.cells[1] = Some(3600.0);
    p.max_volt = Some(4100.0);
    p.min_temp = Some(21.0);
    r.refresh(&p);
    assert_eq!(r.cells, vec![0.0, 3600.0, 0.0]);
    assert_eq!(r.max_volt, 4100.0);
    assert_eq!(r.min_temp, 21.0);
    assert_eq!(r.avg_volt, 0.0);
}

#[test]
fn min_volt_keeps_the_later_of_its_two_polls() {
    let mut r = Readings::new(1, 0.0f32);
    let mut p = no_polls(1);
    p.min_volt_top = Some(1.0);
    p.min_volt_bottom = Some(2.0);
    r.refresh(&p);
    assert_eq!(r.min_volt, 2.0);
    let mut p = no_polls(1);
    p.min_volt_top = Some(5.0);
    r.refresh(&p);
    assert_eq!(r.min_volt, 5.0);
}

#[test]
fn current_is_never_polled() {
    let mut r = Readings::new(1, 0.0f32);
    let mut p = no_polls(1);
    p.min_volt_top = Some(1.0);
    r.refresh(&p);
    assert_eq!(r.current, 0.0);
}

#[test]
fn refresh_cells_in_place() {
    let mut cells = vec![1u32, 2, 3, 4];
    refresh_cells(&mut cells, &vec![None, Some(20), None, Some(40)]);
    assert_eq!(cells, vec![1, 20, 3, 40]);
}

#[test]
fn keep_latest_prefers_the_polled_value() {
    assert_eq!(keep_latest(1u32, Some(2)), 2);
    assert_eq!(keep_latest(1u32, None), 1);
}
