use telemetry_overlay::element::{Block, Element};
use telemetry_overlay::geometry::{Angle, Color, Point};
use telemetry_overlay::render::{Font, Label, TextAlignment};
use telemetry_overlay::speedo::{ConfigError, Speedo};

const WHITE: Color = Color { r: 255, g: 255, b: 255, a: 255 };

fn dial(value: i32, min: i32, max: i32, step: i32) -> Speedo {
    Speedo { title: "Speed".to_string(), value, min, max, step, ..Speedo::default() }
}

fn ticks(block: &Block) -> Vec<Angle> {
    block
        .elements
        .iter()
        .filter_map(|e| match e {
            Element::Tick { angle, .. } => Some(*angle),
            _ => None,
        })
        .collect()
}

fn tick_labels(block: &Block) -> Vec<u64> {
    block
        .elements
        .iter()
        .filter_map(|e| match e {
            Element::TickLabel { value, .. } => Some(*value),
            _ => None,
        })
        .collect()
}

fn needle(block: &Block) -> Angle {
    block
        .elements
        .iter()
        .find_map(|e| match e {
            Element::Needle { angle, .. } => Some(*angle),
            _ => None,
        })
        .unwrap()
}

fn radians(a: Angle) -> f64 {
    std::f64::consts::PI * a.num as f64 / a.den as f64
}

#[test]
fn fifty_by_ten_has_five_intervals() {
    let block = dial(25_000, 0, 50_000, 10_000).render(20).unwrap();
    assert_eq!(ticks(&block).len(), 6);
    assert_eq!(tick_labels(&block), vec![0, 10, 20, 30, 40, 50]);
}

#[test]
fn needle_at_half_range_points_up() {
    let block = dial(25_000, 0, 50_000, 10_000).render(20).unwrap();
    let angle = needle(&block);
    assert!(angle.same_as(&Angle { num: 1, den: 2 }));
    assert!(!angle.same_as(&Angle { num: 1, den: 3 }));
    assert_eq!(radians(angle), std::f64::consts::FRAC_PI_2);
}

#[test]
fn needle_at_the_ends_of_the_range() {
    let low = needle(&dial(-5_000, -5_000, 45_000, 10_000).render(0).unwrap());
    let high = needle(&dial(45_000, -5_000, 45_000, 10_000).render(0).unwrap());
    assert!(low.same_as(&Angle { num: 1, den: 1 }));
    assert!(high.same_as(&Angle { num: 0, den: 1 }));
    assert_eq!(radians(low), std::f64::consts::PI);
    assert_eq!(radians(high), 0.0);
}

#[test]
fn needle_angle_falls_as_the_reading_rises() {
    let mut last = f64::INFINITY;
    for value in (0..=50_000).step_by(1_250) {
        let angle = radians(needle(&dial(value, 0, 50_000, 10_000).render(0).unwrap()));
        assert!(angle <= last);
        assert!((0.0..=std::f64::consts::PI).contains(&angle));
        last = angle;
    }
}

#[test]
fn needle_runs_on_beyond_the_range() {
    let above = needle(&dial(75_000, 0, 50_000, 10_000).render(0).unwrap());
    assert_eq!(above, Angle { num: -25_000, den: 50_000 });
    let below = needle(&dial(-10_000, 0, 50_000, 10_000).render(0).unwrap());
    assert_eq!(below, Angle { num: 60_000, den: 50_000 });
}

#[test]
fn ticks_divide_the_half_turn_evenly() {
    let block = dial(0, 0, 100_000, 20_000).render(0).unwrap();
    let angles = ticks(&block);
    assert_eq!(
        angles,
        vec![
            Angle { num: 5, den: 5 },
            Angle { num: 4, den: 5 },
            Angle { num: 3, den: 5 },
            Angle { num: 2, den: 5 },
            Angle { num: 1, den: 5 },
            Angle { num: 0, den: 5 },
        ]
    );
}

#[test]
fn tick_count_is_the_whole_steps_in_the_range() {
    assert_eq!(ticks(&dial(0, 0, 50_000, 20_000).render(0).unwrap()).len(), 3);
    assert_eq!(ticks(&dial(0, 0, 59_999, 10_000).render(0).unwrap()).len(), 6);
    assert_eq!(ticks(&dial(0, 0, 60_000, 10_000).render(0).unwrap()).len(), 7);
}

#[test]
fn step_wider_than_range_leaves_one_tick_on_the_left() {
    let block = dial(0, 0, 5_000, 10_000).render(0).unwrap();
    assert_eq!(ticks(&block), vec![Angle { num: 1, den: 1 }]);
    assert_eq!(tick_labels(&block), vec![0]);
}

#[test]
fn labels_count_in_tens_whatever_the_step() {
    let block = dial(0, 0, 100_000, 20_000).render(0).unwrap();
    assert_eq!(tick_labels(&block), vec![0, 10, 20, 30, 40, 50]);
}

#[test]
fn empty_range_is_refused() {
    assert_eq!(dial(0, 10_000, 10_000, 1_000).render(0), Err(ConfigError::EmptySpan));
    assert_eq!(dial(0, 10_000, 5_000, 1_000).render(0), Err(ConfigError::EmptySpan));
    assert_eq!(dial(0, 10_000, 5_000, 0).render(0), Err(ConfigError::EmptySpan));
}

#[test]
fn step_must_be_positive() {
    assert_eq!(dial(0, 0, 10_000, 0).render(0), Err(ConfigError::NonPositiveStep));
    assert_eq!(dial(0, 0, 10_000, -1).render(0), Err(ConfigError::NonPositiveStep));
}

#[test]
fn dial_layout_in_full() {
    let speedo = Speedo {
        title: "Duty".to_string(),
        value: 12_345,
        min: 0,
        max: 20_000,
        step: 10_000,
        units: " %".to_string(),
        as_int: false,
        needle_color: Color { r: 1, g: 2, b: 3, a: 255 },
        title_color: Color { r: 4, g: 5, b: 6, a: 255 },
        tick_color: Color { r: 7, g: 8, b: 9, a: 255 },
        arc_color: Color { r: 10, g: 11, b: 12, a: 255 },
        label_color: Color { r: 13, g: 14, b: 15, a: 255 },
        redline: None,
    };
    let block = speedo.render(100).unwrap();
    let center = Point { x: 200, y: 250 };
    let arc = |radius| Element::Arc { center, radius, color: speedo.arc_color };
    let tick = |num| Element::Tick {
        center,
        angle: Angle { num, den: 2 },
        inner: 130,
        outer: 150,
        thickness: 2,
        color: speedo.tick_color,
    };
    let label = |num, value| Element::TickLabel {
        center,
        angle: Angle { num, den: 2 },
        radius: 110,
        value,
        color: speedo.label_color,
    };
    assert_eq!(
        block,
        Block {
            top: 100,
            height: 250,
            elements: vec![
                arc(150),
                arc(151),
                arc(152),
                arc(153),
                arc(154),
                tick(2),
                tick(1),
                tick(0),
                label(2, 0),
                label(1, 10),
                label(0, 20),
                Element::Needle {
                    center,
                    angle: Angle { num: 7_655, den: 20_000 },
                    length: 140,
                    half_width: 5,
                    color: speedo.needle_color,
                },
                Element::Text(Label {
                    text: "Duty".to_string(),
                    x: 200,
                    y: 200,
                    alignment: TextAlignment::Center,
                    color: speedo.title_color,
                    font: Font::Regular,
                }),
                Element::Text(Label {
                    text: "12.35 %".to_string(),
                    x: 200,
                    y: 300,
                    alignment: TextAlignment::Center,
                    color: WHITE,
                    font: Font::Regular,
                }),
            ],
        }
    );
}

#[test]
fn same_dial_same_layout() {
    let a = dial(31_400, 0, 50_000, 10_000);
    let b = dial(31_400, 0, 50_000, 10_000);
    assert_eq!(a.render(77), b.render(77));
    assert_eq!(a.render(77), a.render(77));
}

#[test]
fn default_dial() {
    let d = Speedo::default();
    assert_eq!(d.title, "Speedo");
    assert_eq!((d.min, d.max, d.step, d.value), (0, 100_000, 10_000, 0));
    assert_eq!(d.units, "");
    assert_eq!(d.needle_color, WHITE);
    assert_eq!(ticks(&d.render(0).unwrap()).len(), 11);
}

#[test]
fn whole_number_caption() {
    let mut d = dial(57_500, 0, 100_000, 20_000);
    d.as_int = true;
    d.units = "%".to_string();
    let block = d.render(0).unwrap();
    match block.elements.last().unwrap() {
        Element::Text(label) => assert_eq!(label.text, "58%"),
        other => panic!("{:?}", other),
    }
}

#[test]
fn turn_in_thousandths_of_a_degree() {
    assert_eq!(Angle { num: 1, den: 1 }.turn_of(), 0);
    assert_eq!(Angle { num: 1, den: 2 }.turn_of(), 90_000);
    assert_eq!(Angle { num: 0, den: 7 }.turn_of(), 180_000);
    assert_eq!(Angle { num: 2, den: 3 }.turn_of(), 60_000);
    assert_eq!(Angle { num: 1, den: 7 }.turn_of(), 154_286);
    assert_eq!(Angle { num: 3, den: 2 }.turn_of(), -90_000);
}
