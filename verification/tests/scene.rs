use telemetry_overlay::element::{Block, Element};
use telemetry_overlay::geometry::Color;
use telemetry_overlay::input::DataPoint;
use telemetry_overlay::scene::{
    compose, frame_height, render_frame, run_config, RenderConfig, Scene,
};
use telemetry_overlay::speedo::ConfigError;

fn sample() -> DataPoint {
    DataPoint {
        duration: 0,
        speed: 25_000,
        duty_cycle: 57_500,
        motor_current: 12_345,
        field_weakening: None,
        temp_motor: 40_100,
        temp_mosfet: 35_000,
        temp_battery: None,
        batt_voltage: 63_000,
        batt_current: 10_500,
    }
}

fn config() -> RenderConfig {
    RenderConfig { cell_count: None, battery_temps: false, title_height: 24, transparent: false }
}

fn texts(block: &Block) -> Vec<String> {
    block
        .elements
        .iter()
        .filter_map(|e| match e {
            Element::Text(label) => Some(label.text.clone()),
            _ => None,
        })
        .collect()
}

fn all_texts(scene: &Scene) -> Vec<String> {
    scene.blocks.iter().flat_map(|b| texts(b)).collect()
}

fn has_row(scene: &Scene, label: &str) -> bool {
    all_texts(scene).iter().any(|t| t == label)
}

#[test]
fn scene_has_two_dials_and_three_sections() {
    let scene = compose(&sample(), &config()).unwrap();
    assert_eq!(scene.blocks.len(), 5);
    assert_eq!(texts(&scene.blocks[0]), vec!["Speed", "25.00 km/h"]);
    assert_eq!(texts(&scene.blocks[1]), vec!["Duty Cycle", "58%"]);
    assert_eq!(texts(&scene.blocks[2]), vec!["Motor", "Current", "12.35 A"]);
    assert_eq!(
        texts(&scene.blocks[3]),
        vec!["Temperatures", "Motor", "40.10 °C", "Controller", "35.00 °C"]
    );
    assert_eq!(
        texts(&scene.blocks[4]),
        vec!["Battery", "Voltage", "63.00 V", "Current", "10.50 A", "Watts", "662 W"]
    );
}

#[test]
fn blocks_stack_without_overlap() {
    let mut point = sample();
    point.field_weakening = Some(1_000);
    let cfg = RenderConfig { cell_count: Some(15), battery_temps: true, ..config() };
    let scene = compose(&point, &cfg).unwrap();
    let tops: Vec<i32> = scene.blocks.iter().map(|b| b.top).collect();
    let heights: Vec<u32> = scene.blocks.iter().map(|b| b.height).collect();
    assert_eq!(tops, vec![20, 270, 520, 640, 800]);
    assert_eq!(heights, vec![250, 250, 120, 160, 200]);
    for pair in scene.blocks.windows(2) {
        assert_eq!(pair[1].top as i64, pair[0].top as i64 + pair[0].height as i64);
    }
    assert_eq!(scene.height, heights.iter().sum::<u32>());
    assert_eq!(scene.height, 980);
}

#[test]
fn scene_height_without_optional_rows() {
    let scene = compose(&sample(), &config()).unwrap();
    assert_eq!(scene.height, 250 + 250 + 80 + 120 + 160);
}

#[test]
fn field_weakening_row_follows_the_sample() {
    assert!(!has_row(&compose(&sample(), &config()).unwrap(), "Field Weakening"));
    let mut point = sample();
    point.field_weakening = Some(-2_500);
    let scene = compose(&point, &config()).unwrap();
    assert_eq!(
        texts(&scene.blocks[2]),
        vec!["Motor", "Current", "12.35 A", "Field Weakening", "-2.50 A"]
    );
}

#[test]
fn battery_row_suppressed_when_all_readings_are_zero() {
    let mut a = sample();
    a.temp_battery = Some(0);
    let mut b = sample();
    b.temp_battery = Some(0);
    let points = vec![a, b, sample()];
    let cfg = run_config(&points, None, 24, false);
    assert!(!cfg.battery_temps);
    for point in &points {
        let scene = compose(point, &cfg).unwrap();
        assert_eq!(scene.blocks[3].height, 120);
        assert!(!texts(&scene.blocks[3]).contains(&"Battery".to_string()));
    }
}

#[test]
fn battery_row_shown_in_every_frame_once_one_reading_is_nonzero() {
    let mut a = sample();
    a.temp_battery = Some(0);
    let mut b = sample();
    b.temp_battery = Some(31_250);
    let points = vec![a, b, sample()];
    let cfg = run_config(&points, None, 24, false);
    assert!(cfg.battery_temps);
    let shown: Vec<Vec<String>> =
        points.iter().map(|p| texts(&compose(p, &cfg).unwrap().blocks[3])).collect();
    assert_eq!(&shown[0][5..], ["Battery", "0.00 °C"]);
    assert_eq!(&shown[1][5..], ["Battery", "31.25 °C"]);
    assert_eq!(&shown[2][5..], ["Battery", "0.00 °C"]);
}

#[test]
fn run_config_keeps_what_it_is_given() {
    let cfg = run_config(&Vec::new(), Some(20), 31, true);
    assert_eq!(
        cfg,
        RenderConfig { cell_count: Some(20), battery_temps: false, title_height: 31, transparent: true }
    );
}

#[test]
fn cell_voltage_row_needs_a_cell_count() {
    assert!(!has_row(&compose(&sample(), &config()).unwrap(), "Voltage (per cell)"));
    let cfg = RenderConfig { cell_count: Some(15), ..config() };
    let scene = compose(&sample(), &cfg).unwrap();
    assert_eq!(
        texts(&scene.blocks[4])[..3],
        ["Battery", "Voltage (per cell)", "4.20 V"]
    );
    let cfg = RenderConfig { cell_count: Some(16), ..config() };
    // 63 / 16 = 3.9375
    assert_eq!(texts(&compose(&sample(), &cfg).unwrap().blocks[4])[2], "3.94 V");
}

#[test]
fn zero_cells_are_refused() {
    let cfg = RenderConfig { cell_count: Some(0), ..config() };
    assert_eq!(compose(&sample(), &cfg), Err(ConfigError::NoCells));
    assert_eq!(render_frame(&cfg, &sample()), Err(ConfigError::NoCells));
}

#[test]
fn watts_round_and_do_not_go_negative() {
    let mut point = sample();
    point.batt_voltage = 50_000;
    point.batt_current = 1_010;
    assert_eq!(texts(&compose(&point, &config()).unwrap().blocks[4])[6], "51 W");
    point.batt_current = 1_009;
    assert_eq!(texts(&compose(&point, &config()).unwrap().blocks[4])[6], "50 W");
    point.batt_current = -20_000;
    assert_eq!(texts(&compose(&point, &config()).unwrap().blocks[4])[6], "0 W");
    point.batt_voltage = i32::MAX;
    point.batt_current = i32::MAX;
    assert_eq!(texts(&compose(&point, &config()).unwrap().blocks[4])[6], "4611686014132 W");
}

#[test]
fn row_colours() {
    let scene = compose(&sample(), &config()).unwrap();
    let colour = |block: usize, element: usize| match &scene.blocks[block].elements[element] {
        Element::Text(label) => label.color,
        other => panic!("{:?}", other),
    };
    assert_eq!(colour(2, 2), Color { r: 0x67, g: 0xe8, b: 0xf9, a: 255 });
    assert_eq!(colour(3, 2), Color { r: 0xfb, g: 0xbf, b: 0x24, a: 255 });
    assert_eq!(colour(4, 2), Color { r: 0x34, g: 0xd3, b: 0x99, a: 255 });
    assert_eq!(colour(4, 6), Color { r: 255, g: 255, b: 255, a: 255 });
    assert_eq!(colour(2, 0), Color { r: 128, g: 128, b: 128, a: 255 });
    assert_eq!(colour(0, scene.blocks[0].elements.len() - 2), Color { r: 0xfd, g: 0xe6, b: 0x8a, a: 255 });
    assert_eq!(colour(1, scene.blocks[1].elements.len() - 2), Color { r: 0xf4, g: 0x72, b: 0xb6, a: 255 });
}

#[test]
fn frame_background() {
    let opaque = render_frame(&config(), &sample()).unwrap();
    assert_eq!(opaque.background, Color { r: 0, g: 0, b: 0, a: 255 });
    assert_eq!(opaque.scene, compose(&sample(), &config()).unwrap());
    let cfg = RenderConfig { transparent: true, ..config() };
    assert_eq!(render_frame(&cfg, &sample()).unwrap().background, Color { r: 0, g: 0, b: 0, a: 0 });
}

#[test]
fn frames_do_not_depend_on_each_other() {
    let first = compose(&sample(), &config()).unwrap();
    let mut other = sample();
    other.speed = 1;
    let _ = compose(&other, &config()).unwrap();
    assert_eq!(compose(&sample(), &config()).unwrap(), first);
}

#[test]
fn frames_of_a_run_are_all_of_one_height() {
    assert_eq!(frame_height(&config()), 920);
    let all = RenderConfig { cell_count: Some(15), battery_temps: true, ..config() };
    assert_eq!(frame_height(&all), 1000);
    let mut with = sample();
    with.field_weakening = Some(1_000);
    for cfg in [config(), all] {
        let short = render_frame(&cfg, &sample()).unwrap();
        let tall = render_frame(&cfg, &with).unwrap();
        assert_eq!(short.height, frame_height(&cfg));
        assert_eq!(tall.height, frame_height(&cfg));
        assert_eq!(20 + tall.scene.height, tall.height);
        assert_eq!(20 + short.scene.height + 40, short.height);
    }
}
