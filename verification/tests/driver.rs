use rhai::{Array, Engine};
use script_host::draw::{clear_background, draw_circle, Color, DrawCommand, Rejection, Scalar};
use script_host::driver::FrameDriver;
use script_host::script::{CallOutcome, Callback, Phase};
use std::cell::RefCell;
use std::rc::Rc;

const COUNTERS: &str = "
    fn init() { let updates = 0; let draws = 0; }
    fn update(dt) { updates += 1; }
    fn draw() { draws += 1; }
";

fn started(source: &str) -> FrameDriver {
    let (driver, _) = FrameDriver::start(Engine::new(), source).expect("the script parses");
    driver
}

fn channels(color: &Array) -> Vec<Option<i64>> {
    color.iter().map(|value| value.as_int().ok()).collect()
}

fn scalar(value: f64) -> Scalar {
    Scalar { bits: value.to_bits() }
}

#[test]
fn startup_loads_and_initializes() {
    let (driver, init) = FrameDriver::start(Engine::new(), COUNTERS).expect("the script parses");
    assert_eq!(init, CallOutcome::Completed);
    assert_eq!(driver.runtime().current_phase(), Phase::Initialized);
    assert_eq!(driver.runtime().int_variable("updates"), Some(0));
    assert!(!driver.debug());
    assert_eq!(driver.frame_times().len(), 0);
    assert_eq!(driver.update_times().len(), 0);
    assert_eq!(driver.draw_times().len(), 0);
}

#[test]
fn startup_aborts_on_a_syntax_error() {
    let result = FrameDriver::start(Engine::new(), "fn update(dt) { n += ; }");
    match result {
        Err(error) => assert!(!error.message.is_empty()),
        Ok(_) => panic!("a script that does not parse must not start"),
    }
}

#[test]
fn launch_starts_from_a_program() {
    let engine = Engine::new();
    let compiled = engine.compile(COUNTERS);
    let (driver, init) = FrameDriver::launch(engine, compiled, 1_234).expect("a program starts");
    assert_eq!(init, CallOutcome::Completed);
    assert_eq!(driver.runtime().current_phase(), Phase::Initialized);
    assert!(driver.runtime().has_callback(Callback::Update));
    assert_eq!(driver.runtime().int_variable("draws"), Some(0));
    assert!(!driver.debug());
    assert_eq!(driver.frame_times().len(), 0);
    assert_eq!(driver.overlay().load_micros, 1_234);
}

#[test]
fn launch_hands_on_a_parse_error() {
    let engine = Engine::new();
    let compiled = engine.compile("fn draw() {");
    let told = compiled.as_ref().unwrap_err().to_string();
    match FrameDriver::launch(engine, compiled, 5) {
        Err(error) => assert_eq!(error.message, told),
        Ok(_) => panic!("a parse error must not start"),
    }
}

#[test]
fn startup_survives_a_faulting_init() {
    let (mut driver, init) =
        FrameDriver::start(Engine::new(), "fn init() { throw \"no\"; } fn draw() {}")
            .expect("the script parses");
    match init {
        CallOutcome::Faulted(fault) => assert_eq!(fault.callback, Callback::Init),
        other => panic!("expected a fault, got {:?}", other),
    }
    assert_eq!(driver.runtime().current_phase(), Phase::Initialized);
    assert_eq!(driver.tick(1, false).draw, CallOutcome::Completed);
}

#[test]
fn startup_without_init_skips_it() {
    let (_, init) = FrameDriver::start(Engine::new(), "fn draw() {}").expect("the script parses");
    assert_eq!(init, CallOutcome::Skipped);
}

#[test]
fn ten_ticks_count_to_ten() {
    let mut driver = started(COUNTERS);
    for delta in [16_667u64, 1, 999_999, 33_333, 7, 8, 9, 10, 11, 12] {
        let report = driver.tick(delta, false);
        assert_eq!(report.update, CallOutcome::Completed);
        assert_eq!(report.draw, CallOutcome::Completed);
    }
    assert_eq!(driver.runtime().int_variable("updates"), Some(10));
    assert_eq!(driver.runtime().int_variable("draws"), Some(10));
}

#[test]
fn a_tick_records_its_three_samples() {
    let mut driver = started(COUNTERS);
    let first = driver.tick(16_667, false);
    let second = driver.tick(20_000, false);
    assert_eq!(driver.frame_times().to_vec(), vec![16_667, 20_000]);
    assert_eq!(
        driver.update_times().to_vec(),
        vec![first.update_micros, second.update_micros]
    );
    assert_eq!(driver.draw_times().to_vec(), vec![first.draw_micros, second.draw_micros]);
}

#[test]
fn the_series_stop_at_one_hundred() {
    let mut driver = started("");
    for delta in 0..130u64 {
        driver.tick(delta, false);
    }
    let expected: Vec<u64> = (30..130).collect();
    assert_eq!(driver.frame_times().to_vec(), expected);
    assert_eq!(driver.update_times().len(), 100);
    assert_eq!(driver.draw_times().len(), 100);
}

#[test]
fn toggling_twice_restores_the_debug_flag() {
    let mut driver = started(COUNTERS);
    let before = driver.debug();
    let report = driver.tick(1, true);
    assert_eq!(driver.debug(), !before);
    assert_eq!(report.overlay, !before);
    let report = driver.tick(1, true);
    assert_eq!(driver.debug(), before);
    assert_eq!(report.overlay, before);
}

#[test]
fn the_debug_flag_stays_without_a_press() {
    let mut driver = started(COUNTERS);
    assert!(!driver.tick(1, false).overlay);
    assert!(driver.tick(1, true).overlay);
    assert!(driver.tick(1, false).overlay);
    assert!(driver.debug());
    assert!(!driver.tick(1, true).overlay);
}

#[test]
fn a_fault_in_update_stops_neither_draw_nor_the_next_tick() {
    let mut driver = started(
        "
        fn init() { let updates = 0; let draws = 0; }
        fn update(dt) { updates += 1; if updates == 2 { throw \"second\"; } }
        fn draw() { draws += 1; }
    ",
    );
    assert_eq!(driver.tick(1, false).update, CallOutcome::Completed);
    let faulted = driver.tick(1, false);
    match faulted.update {
        CallOutcome::Faulted(fault) => {
            assert_eq!(fault.callback, Callback::Update);
            assert!(fault.message.contains("second"));
        },
        other => panic!("expected a fault, got {:?}", other),
    }
    assert_eq!(faulted.draw, CallOutcome::Completed);
    assert_eq!(driver.runtime().int_variable("draws"), Some(2));
    let next = driver.tick(1, false);
    assert_eq!(next.update, CallOutcome::Completed);
    assert_eq!(next.draw, CallOutcome::Completed);
    assert_eq!(driver.runtime().int_variable("updates"), Some(3));
    assert_eq!(driver.runtime().int_variable("draws"), Some(3));
    assert_eq!(driver.frame_times().len(), 3);
    assert_eq!(driver.update_times().len(), 3);
    assert_eq!(driver.draw_times().len(), 3);
}

#[test]
fn a_fault_in_draw_does_not_stop_the_next_tick() {
    let mut driver = started(
        "
        fn init() { let updates = 0; }
        fn update(dt) { updates += 1; }
        fn draw() { throw \"always\"; }
    ",
    );
    for _ in 0..3 {
        let report = driver.tick(1, false);
        assert_eq!(report.update, CallOutcome::Completed);
        assert!(matches!(report.draw, CallOutcome::Faulted(_)));
    }
    assert_eq!(driver.runtime().int_variable("updates"), Some(3));
}

#[test]
fn a_script_without_callbacks_is_ticked_all_the_same() {
    let mut driver = started("");
    let report = driver.tick(5, false);
    assert_eq!(report.update, CallOutcome::Skipped);
    assert_eq!(report.draw, CallOutcome::Skipped);
    assert_eq!(driver.frame_times().to_vec(), vec![5]);
    assert_eq!(driver.update_times().len(), 1);
    assert_eq!(driver.draw_times().len(), 1);
}

#[test]
fn the_overlay_reads_the_drivers_series() {
    let mut driver = started(COUNTERS);
    driver.tick(16_667, true);
    driver.tick(40_000, false);
    let overlay = driver.overlay();
    assert_eq!(overlay.rate, Some(25));
    assert_eq!(overlay.frames.bars.len(), 2);
    assert_eq!(overlay.frames.bars[0].height, 50);
    assert_eq!(overlay.frames.bars[1].height, 120);
    assert_eq!(overlay.frames.rules.len(), 2);
    assert_eq!(overlay.updates.bars.len(), 2);
    assert_eq!(overlay.draws.bars.len(), 2);
    assert_eq!(overlay.update_mean, driver.update_times().average());
    assert_eq!(overlay.draw_mean, driver.draw_times().average());
    assert_eq!(driver.frame_times().to_vec(), vec![16_667, 40_000]);
}

#[test]
fn clear_then_circle_issue_two_commands_in_order() {
    let issued: Rc<RefCell<Vec<Result<DrawCommand, Rejection>>>> = Rc::new(RefCell::new(Vec::new()));
    let mut engine = Engine::new();
    let sink = issued.clone();
    engine.register_fn("clear_background", move |color: Array| {
        sink.borrow_mut().push(clear_background(&channels(&color)));
    });
    let sink = issued.clone();
    engine.register_fn("draw_circle", move |x: f64, y: f64, radius: f64, color: Array| {
        sink.borrow_mut().push(draw_circle(scalar(x), scalar(y), scalar(radius), &channels(&color)));
    });
    let (mut driver, _) = FrameDriver::start(
        engine,
        "fn draw() {
            clear_background([0, 0, 0, 255]);
            draw_circle(10.0, 10.0, 5.0, [255, 0, 0, 255]);
        }",
    )
    .expect("the script parses");
    assert_eq!(driver.tick(16_667, false).draw, CallOutcome::Completed);
    assert_eq!(
        *issued.borrow(),
        vec![
            Ok(DrawCommand::Clear { color: Color { r: 0, g: 0, b: 0, a: 255 } }),
            Ok(DrawCommand::Circle {
                x: scalar(10.0),
                y: scalar(10.0),
                radius: scalar(5.0),
                color: Color { r: 255, g: 0, b: 0, a: 255 },
            }),
        ]
    );
}

#[test]
fn a_malformed_color_does_not_fault_the_script() {
    let issued: Rc<RefCell<Vec<Result<DrawCommand, Rejection>>>> = Rc::new(RefCell::new(Vec::new()));
    let mut engine = Engine::new();
    let sink = issued.clone();
    engine.register_fn("clear_background", move |color: Array| {
        sink.borrow_mut().push(clear_background(&channels(&color)));
    });
    let (mut driver, _) = FrameDriver::start(
        engine,
        "fn init() { let after = 0; }
         fn draw() {
            clear_background([0, 0, 0]);
            clear_background([0, 0, 0, 0.5]);
            clear_background([0, 0, 0, 256]);
            after += 1;
        }",
    )
    .expect("the script parses");
    assert_eq!(driver.tick(1, false).draw, CallOutcome::Completed);
    assert_eq!(driver.runtime().int_variable("after"), Some(1));
    assert_eq!(
        *issued.borrow(),
        vec![
            Err(Rejection::ColorLength { length: 3 }),
            Err(Rejection::ColorChannel { index: 3 }),
            Err(Rejection::ColorChannel { index: 3 }),
        ]
    );
}
