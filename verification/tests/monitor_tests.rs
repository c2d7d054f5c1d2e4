use robo_monitor::monitor::{
    sample_value, tick_due, timeout, App, Info, Key, Step, SIZE_RINGBUFF_DIST, TICK_RATE_MS,
};
use robo_monitor::ring::Sample;
use robo_monitor::robo::real_pi::MyPiReal;
use robo_monitor::robo::sim_pi::MyPiSim;
use robo_monitor::robo::{DriverFault, MyPi, Pose};
use robo_monitor::world::{Point, Rect, ScreenPoint};

fn p(x: i64, y: i64) -> Point {
    Point { x, y }
}

fn sim_app(max_range: i64) -> App<'static> {
    App::new(MyPi::Sim(MyPiSim::new(max_range, vec![])), vec![p(0, 0), p(10, 20)])
}

fn real_app(max_range: i64) -> App<'static> {
    App::new(MyPi::Real(MyPiReal::new(24, 17, 27, max_range)), vec![p(0, 0), p(10, 20)])
}

#[test]
fn new_monitor_shows_the_map_and_records_nothing() {
    let app = sim_app(1000);
    assert_eq!(app.tabs().index, 0);
    assert_eq!(app.tabs().titles, vec!["Map", "Sensor"]);
    assert!(!app.is_recording());
    assert!(!app.should_exit());
    assert!(app.can_record());
    assert_eq!(app.world_name(), "big");
    let chart = app.chart();
    assert_eq!(chart.points.len(), SIZE_RINGBUFF_DIST);
    assert_eq!(chart.oldest, 0);
    assert_eq!(chart.newest, 59);
    assert_eq!(chart.points[0], Sample { index: 59, value: 0 });
    assert_eq!(chart.points[59], Sample { index: 0, value: 0 });
    assert_eq!(app.mean(), (0, 0));
    assert_eq!(
        app.info(),
        Info { position: Pose { x: 0, y: 0, heading: 0 }, velo_left: 0, velo_right: 0 }
    );
}

#[test]
fn keys_switch_tabs_recording_and_exit() {
    let mut app = sim_app(1000);
    app.on_key(Key::Right);
    assert_eq!(app.tabs().index, 1);
    app.on_key(Key::Right);
    assert_eq!(app.tabs().index, 0);
    app.on_key(Key::Left);
    assert_eq!(app.tabs().index, 1);
    app.on_key(Key::Left);
    assert_eq!(app.tabs().index, 0);
    app.on_key(Key::ActivateSensor);
    assert!(app.is_recording());
    app.on_key(Key::Other);
    assert!(app.is_recording());
    assert!(!app.should_exit());
    app.on_key(Key::DeactivateSensor);
    assert!(!app.is_recording());
    app.on_key(Key::Quit);
    assert!(app.should_exit());
    assert_eq!(app.tabs().index, 0);
}

#[test]
fn tick_is_skipped_while_recording_is_off() {
    let mut app = real_app(4000);
    assert_eq!(app.begin_tick(), Step::Skip);
    assert!(!app.activity_output());
    assert_eq!(app.chart().newest, 59);
}

#[test]
fn simulated_ticks_fill_the_ring() {
    let mut app = sim_app(1000);
    app.on_key(Key::ActivateSensor);
    for _ in 0..7 {
        assert_eq!(app.begin_tick(), Step::Measure { drive: false });
        assert_eq!(app.finish_tick(Ok(None)), Ok(()));
    }
    let chart = app.chart();
    assert_eq!(chart.newest, 66);
    assert_eq!(chart.oldest, 7);
    let values: Vec<i64> = chart.points.iter().take(8).map(|s| s.value).collect();
    assert_eq!(values, vec![200, 0, 1000, 800, 600, 400, 200, 0]);
    assert_eq!(app.mean(), (53, 20));
}

#[test]
fn no_echo_enters_the_statistics_as_the_greatest_range() {
    let mut app = real_app(4000);
    app.on_key(Key::ActivateSensor);
    assert_eq!(app.begin_tick(), Step::Measure { drive: true });
    assert!(app.activity_output());
    assert_eq!(app.finish_tick(Ok(None)), Ok(()));
    assert!(!app.activity_output());
    assert_eq!(app.chart().points[0], Sample { index: 60, value: 4000 });
    assert_eq!(app.begin_tick(), Step::Measure { drive: true });
    assert_eq!(app.finish_tick(Ok(Some(1500))), Ok(()));
    assert_eq!(app.chart().points[0], Sample { index: 61, value: 1500 });
    assert_eq!(app.chart().points[1], Sample { index: 60, value: 4000 });
    assert_eq!(app.mean(), (91, 40));
}

#[test]
fn driver_fault_is_handed_on_with_the_output_low() {
    let mut app = real_app(4000);
    app.on_key(Key::ActivateSensor);
    assert_eq!(app.begin_tick(), Step::Measure { drive: true });
    assert!(app.activity_output());
    assert_eq!(app.finish_tick(Err(DriverFault::Gpio)), Err(DriverFault::Gpio));
    assert!(!app.activity_output());
    assert_eq!(app.chart().newest, 59);
    assert_eq!(app.mean(), (0, 0));
}

#[test]
fn sample_value_substitutes_the_range_for_no_echo() {
    assert_eq!(sample_value(Some(17), 4000), 17);
    assert_eq!(sample_value(Some(0), 4000), 0);
    assert_eq!(sample_value(None, 4000), 4000);
    assert_eq!(sample_value(Some(5000), 4000), 5000);
}

#[test]
fn timeout_is_what_is_left_of_the_tick() {
    assert_eq!(TICK_RATE_MS, 125);
    assert_eq!(timeout(0), 125);
    assert_eq!(timeout(100), 25);
    assert_eq!(timeout(125), 0);
    assert_eq!(timeout(126), 0);
    assert_eq!(timeout(u64::MAX), 0);
    assert!(!tick_due(0));
    assert!(!tick_due(124));
    assert!(tick_due(125));
    assert!(tick_due(u64::MAX));
}

#[test]
fn map_of_the_monitor_scales_the_walls() {
    let app = sim_app(1000);
    let view = app.map(Rect { x: 5, y: 5, width: 30, height: 10 }).unwrap();
    assert_eq!(view.location, None);
    assert_eq!(view.walls, vec![ScreenPoint { x: 5, y: 5 }, ScreenPoint { x: 35, y: 15 }]);
    let bare = App::new(MyPi::Sim(MyPiSim::new(1000, vec![])), vec![]);
    assert!(bare.map(Rect { x: 5, y: 5, width: 30, height: 10 }).is_none());
}
