use vstd::prelude::*;
use vstd::string::*;
use crate::element::{Block, BlockView};
use crate::geometry::Color;
use crate::input::{any_battery_temps, has_battery_temps, DataPoint};
use crate::render::{row_views, LabelValue, LabelValueView, List, ListView, LINE_HEIGHT};
use crate::speedo::{ConfigError, Speedo, SpeedoView, DIAL_HEIGHT};
use crate::text::{decimal, push_decimal};
use crate::units::{
    div_round, format_reading, push_two_decimals, reading_text, rounded_div, two_decimals,
};

verus! {

/// Where the first block of a frame starts.
pub const TOP_MARGIN: i32 = 20;

/// What holds for every frame of a run.
#[derive(Clone, Copy, Debug, PartialEq, Eq)]
pub struct RenderConfig {
    /// The number of cells of the battery pack, where it is known.
    pub cell_count: Option<u8>,
    /// Whether any sample of the run has a battery temperature other than
    /// zero. It is found once, before the first frame.
    pub battery_temps: bool,
    /// The height that a title measures in the title typeface.
    pub title_height: u32,
    /// Whether frames have a transparent background rather than a black one.
    pub transparent: bool,
}

/// The colour of voltages.
pub open spec fn voltage_color() -> Color {
    Color::opaque(0x34, 0xd3, 0x99)
}

/// The colour of currents.
pub open spec fn current_color() -> Color {
    Color::opaque(0x67, 0xe8, 0xf9)
}

/// The colour of the speed dial's title and needle.
pub open spec fn speed_color() -> Color {
    Color::opaque(0xfd, 0xe6, 0x8a)
}

/// The colour of the duty cycle dial's title and needle.
pub open spec fn duty_color() -> Color {
    Color::opaque(0xf4, 0x72, 0xb6)
}

/// The colour of temperatures.
pub open spec fn temp_color() -> Color {
    Color::opaque(0xfb, 0xbf, 0x24)
}

/// The dial for the speed: zero to fifty km/h with a tick every ten, the
/// reading with two decimals.
pub open spec fn speed_dial(point: DataPoint) -> SpeedoView {
    SpeedoView {
        title: "Speed"@,
        value: point.speed,
        min: 0,
        max: 50_000,
        step: 10_000,
        units: " km/h"@,
        as_int: false,
        title_color: speed_color(),
        tick_color: Color::white(),
        arc_color: Color::white(),
        needle_color: speed_color(),
        label_color: Color::white(),
        redline: None,
    }
}

/// The dial for the duty cycle: zero to a hundred percent with a tick every
/// twenty, the reading as a whole number.
pub open spec fn duty_dial(point: DataPoint) -> SpeedoView {
    SpeedoView {
        title: "Duty Cycle"@,
        value: point.duty_cycle,
        min: 0,
        max: 100_000,
        step: 20_000,
        units: "%"@,
        as_int: true,
        title_color: duty_color(),
        tick_color: Color::white(),
        arc_color: Color::white(),
        needle_color: duty_color(),
        label_color: Color::white(),
        redline: None,
    }
}

/// A row that shows a reading with two decimals and its unit.
pub open spec fn reading_row(label: Seq<char>, value: i32, unit: Seq<char>, color: Color)
    -> LabelValueView {
    LabelValueView { label, value: reading_text(value as int, false) + unit, color: Some(color) }
}

/// The power drawn from the battery in whole watt, voltage times current
/// rounded to the nearest; power fed back counts as zero.
pub open spec fn watts(point: DataPoint) -> int {
    let w = rounded_div(point.batt_voltage * point.batt_current, 1_000_000);
    if w < 0 {
        0
    } else {
        w
    }
}

/// The voltage of one cell in hundredths of a volt, rounded to the nearest.
pub open spec fn cell_voltage(point: DataPoint, cells: u8) -> int {
    rounded_div(point.batt_voltage as int, 10 * cells)
}

/// The rows about the motor: its current, and the field-weakening current
/// if the sample carries one.
pub open spec fn motor_rows(point: DataPoint) -> Seq<LabelValueView> {
    seq![reading_row("Current"@, point.motor_current, " A"@, current_color())] + (match point.field_weakening {
        Some(fw) => seq![reading_row("Field Weakening"@, fw, " A"@, current_color())],
        None => Seq::empty(),
    })
}

/// The rows about temperatures: motor and controller, and the battery if
/// the run has battery temperatures. In such a run a sample without one
/// shows zero.
pub open spec fn temperature_rows(point: DataPoint, battery_temps: bool) -> Seq<LabelValueView> {
    seq![
        reading_row("Motor"@, point.temp_motor, " °C"@, temp_color()),
        reading_row("Controller"@, point.temp_mosfet, " °C"@, temp_color()),
    ] + (if battery_temps {
        seq![
            reading_row(
                "Battery"@,
                match point.temp_battery {
                    Some(t) => t,
                    None => 0,
                },
                " °C"@,
                temp_color(),
            ),
        ]
    } else {
        Seq::empty()
    })
}

/// The rows about the battery: the voltage of one cell if the number of
/// cells is known, then voltage, current and power.
pub open spec fn battery_rows(point: DataPoint, cell_count: Option<u8>) -> Seq<LabelValueView> {
    (match cell_count {
        Some(cells) => seq![
            LabelValueView {
                label: "Voltage (per cell)"@,
                value: two_decimals(cell_voltage(point, cells)) + " V"@,
                color: Some(voltage_color()),
            },
        ],
        None => Seq::empty(),
    }) + seq![
        reading_row("Voltage"@, point.batt_voltage, " V"@, voltage_color()),
        reading_row("Current"@, point.batt_current, " A"@, current_color()),
        LabelValueView { label: "Watts"@, value: decimal(watts(point) as nat) + " W"@, color: None },
    ]
}

/// The block of a section laid out from `top`.
pub open spec fn section_block(
    title: Seq<char>,
    rows: Seq<LabelValueView>,
    top: int,
    title_height: u32,
) -> BlockView {
    let list = ListView { title, items: rows, color: None };
    BlockView {
        top: top as i32,
        height: list.height() as u32,
        elements: list.elements(top, title_height),
    }
}

/// The block of a dial laid out from `top`.
pub open spec fn dial_block(dial: SpeedoView, top: int) -> BlockView {
    BlockView { top: top as i32, height: DIAL_HEIGHT, elements: dial.elements(top as i32) }
}

/// The block of the speed dial, under the top margin.
pub open spec fn speed_block(point: DataPoint) -> BlockView {
    dial_block(speed_dial(point), TOP_MARGIN as int)
}

/// The block of the duty cycle dial, under the speed dial.
pub open spec fn duty_block(point: DataPoint) -> BlockView {
    dial_block(duty_dial(point), TOP_MARGIN + DIAL_HEIGHT)
}

/// The block of the section about the motor, under the two dials.
pub open spec fn motor_block(point: DataPoint, config: RenderConfig) -> BlockView {
    section_block(
        "Motor"@,
        motor_rows(point),
        TOP_MARGIN + 2 * DIAL_HEIGHT,
        config.title_height,
    )
}

/// The block of the section about temperatures, under the one about the
/// motor.
pub open spec fn temperatures_block(point: DataPoint, config: RenderConfig) -> BlockView {
    section_block(
        "Temperatures"@,
        temperature_rows(point, config.battery_temps),
        motor_block(point, config).bottom(),
        config.title_height,
    )
}

/// The block of the section about the battery, under the one about
/// temperatures.
pub open spec fn battery_block(point: DataPoint, config: RenderConfig) -> BlockView {
    section_block(
        "Battery"@,
        battery_rows(point, config.cell_count),
        temperatures_block(point, config).bottom(),
        config.title_height,
    )
}

/// The blocks of the frame for one sample, from the top: the dials for
/// speed and duty cycle, then the sections Motor, Temperatures and Battery,
/// each starting where the one before ends.
pub open spec fn scene_blocks(point: DataPoint, config: RenderConfig) -> Seq<BlockView> {
    seq![
        speed_block(point),
        duty_block(point),
        motor_block(point, config),
        temperatures_block(point, config),
        battery_block(point, config),
    ]
}

/// The views of a sequence of blocks, in order.
pub open spec fn block_views(blocks: Seq<Block>) -> Seq<BlockView> {
    blocks.map_values(|b: Block| b@)
}

/// The sum of the heights of the blocks.
pub open spec fn total_height(blocks: Seq<BlockView>) -> int
    decreases blocks.len(),
{
    if blocks.len() == 0 {
        0
    } else {
        total_height(blocks.drop_last()) + blocks.last().height
    }
}

/// Each block but the first starts where the one before it ends.
pub open spec fn stacked(blocks: Seq<BlockView>) -> bool {
    forall|n: int| 0 <= n < blocks.len() - 1 ==> blocks[n + 1].top == (#[trigger] blocks[n]).bottom()
}

/// The layout of one frame: its blocks from top to bottom, and the height
/// they take together.
#[derive(Clone, Debug, PartialEq, Eq)]
pub struct Scene {
    pub blocks: Vec<Block>,
    pub height: u32,
}

pub struct SceneView {
    pub blocks: Seq<BlockView>,
    pub height: u32,
}

impl View for Scene {
    type V = SceneView;

    open spec fn view(&self) -> SceneView {
        SceneView { blocks: block_views(self.blocks@), height: self.height }
    }
}

/// The number of rows that a frame may or may not have: the field-weakening
/// current, the battery temperature and the voltage of one cell.
pub open spec fn optional_rows(point: DataPoint, config: RenderConfig) -> int {
    (if point.field_weakening is Some { 1int } else { 0int }) + (if config.battery_temps {
        1int
    } else {
        0int
    }) + (if config.cell_count is Some { 1int } else { 0int })
}

/// The height of the scene for one sample: two dials, and a line for each
/// of the three titles, the six rows that every frame has, and the rows
/// that this one has besides.
pub open spec fn scene_height(point: DataPoint, config: RenderConfig) -> int {
    2 * DIAL_HEIGHT + LINE_HEIGHT * (9 + optional_rows(point, config))
}

/// The scene of the frame for one sample: its blocks, and the height they
/// take together.
pub open spec fn scene_of(point: DataPoint, config: RenderConfig) -> SceneView {
    SceneView { blocks: scene_blocks(point, config), height: scene_height(point, config) as u32 }
}

impl SceneView {
    /// All blocks of the scene can be drawn.
    pub open spec fn drawable(self) -> bool {
        forall|i: int| 0 <= i < self.blocks.len() ==> (#[trigger] self.blocks[i]).drawable()
    }
}

impl Scene {
    /// Tells whether all blocks of the scene can be drawn.
    pub fn is_drawable(&self) -> (res: bool)
        ensures
            res == self@.drawable(),
    {
        let mut i: usize = 0;
        while i < self.blocks.len()
            invariant
                i <= self.blocks.len(),
                forall|k: int| 0 <= k < i ==> (#[trigger] self@.blocks[k]).drawable(),
            decreases self.blocks.len() - i,
        {
            assert(self@.blocks[i as int] == self.blocks@[i as int]@);
            if !self.blocks[i].is_drawable() {
                return false;
            }
            i = i + 1;
        }
        true
    }
}

fn reading(label: &str, value: i32, unit: &str, color: Color) -> (row: LabelValue)
    ensures
        row@ == reading_row(label@, value, unit@, color),
{
    let mut text = format_reading(value, false);
    text.append(unit);
    LabelValue { label: String::from_str(label), value: text, color: Some(color) }
}

fn push_row(rows: &mut Vec<LabelValue>, row: LabelValue)
    ensures
        row_views(final(rows)@) == row_views(old(rows)@).push(row@),
{
    rows.push(row);
}

fn push_block(blocks: &mut Vec<Block>, block: Block)
    ensures
        block_views(final(blocks)@) == block_views(old(blocks)@).push(block@),
{
    blocks.push(block);
}

fn speed_gauge(point: &DataPoint) -> (dial: Speedo)
    ensures
        dial@ == speed_dial(*point),
{
    let ink = Color::rgb(0xfd, 0xe6, 0x8a);
    let white = Color::rgb(255, 255, 255);
    Speedo {
        title: String::from_str("Speed"),
        value: point.speed,
        min: 0,
        max: 50_000,
        step: 10_000,
        units: String::from_str(" km/h"),
        as_int: false,
        title_color: ink,
        tick_color: white,
        arc_color: white,
        needle_color: ink,
        label_color: white,
        redline: None,
    }
}

fn duty_gauge(point: &DataPoint) -> (dial: Speedo)
    ensures
        dial@ == duty_dial(*point),
{
    let ink = Color::rgb(0xf4, 0x72, 0xb6);
    let white = Color::rgb(255, 255, 255);
    Speedo {
        title: String::from_str("Duty Cycle"),
        value: point.duty_cycle,
        min: 0,
        max: 100_000,
        step: 20_000,
        units: String::from_str("%"),
        as_int: true,
        title_color: ink,
        tick_color: white,
        arc_color: white,
        needle_color: ink,
        label_color: white,
        redline: None,
    }
}

fn dial_part(dial: &Speedo, top: i32) -> (block: Block)
    requires
        dial@.valid(),
    ensures
        block@ == dial_block(dial@, top as int),
        block@.drawable(),
{
    dial.render(top).unwrap()
}

fn section_part(list: &List, top: i32, title_height: u32) -> (block: Block)
    requires
        list@.color is None,
        list@.items.len() <= 4,
    ensures
        block@ == section_block(list@.title, list@.items, top as int, title_height),
        block@.drawable(),
{
    list.render(top, title_height)
}

/// How many rows each section has.
proof fn lemma_row_counts(point: DataPoint, config: RenderConfig)
    ensures
        motor_rows(point).len() == 1 + (if point.field_weakening is Some { 1int } else { 0int }),
        temperature_rows(point, config.battery_temps).len() == 2 + (if config.battery_temps {
            1int
        } else {
            0int
        }),
        battery_rows(point, config.cell_count).len() == 3 + (if config.cell_count is Some {
            1int
        } else {
            0int
        }),
{
}

/// The blocks of a scene start one where the other ends.
proof fn lemma_scene_is_stacked(point: DataPoint, config: RenderConfig)
    ensures
        stacked(scene_blocks(point, config)),
        scene_blocks(point, config).last().bottom() - scene_blocks(point, config)[0].top
            == scene_height(point, config),
{
    lemma_row_counts(point, config);
    let blocks = scene_blocks(point, config);
    assert(blocks[0] == speed_block(point));
    assert(blocks[1] == duty_block(point));
    assert(blocks[2] == motor_block(point, config));
    assert(blocks[3] == temperatures_block(point, config));
    assert(blocks[4] == battery_block(point, config));
    assert(blocks[1].top == blocks[0].bottom());
    assert(blocks[2].top == blocks[1].bottom());
    assert(blocks[3].top == blocks[2].bottom());
    assert(blocks[4].top == blocks[3].bottom());
}

fn motor_section(point: &DataPoint) -> (list: List)
    ensures
        list@ == (ListView { title: "Motor"@, items: motor_rows(*point), color: None }),
{
    let current = Color::rgb(0x67, 0xe8, 0xf9);
    let mut rows: Vec<LabelValue> = Vec::new();
    push_row(&mut rows, reading("Current", point.motor_current, " A", current));
    match point.field_weakening {
        Some(fw) => {
            push_row(&mut rows, reading("Field Weakening", fw, " A", current));
        },
        None => {},
    }
    assert(row_views(rows@) =~= motor_rows(*point));
    List::new("Motor", rows)
}

fn temperature_section(point: &DataPoint, battery_temps: bool) -> (list: List)
    ensures
        list@ == (ListView {
            title: "Temperatures"@,
            items: temperature_rows(*point, battery_temps),
            color: None,
        }),
{
    let temp = Color::rgb(0xfb, 0xbf, 0x24);
    let mut rows: Vec<LabelValue> = Vec::new();
    push_row(&mut rows, reading("Motor", point.temp_motor, " °C", temp));
    push_row(&mut rows, reading("Controller", point.temp_mosfet, " °C", temp));
    if battery_temps {
        let t: i32 = match point.temp_battery {
            Some(t) => t,
            None => 0,
        };
        push_row(&mut rows, reading("Battery", t, " °C", temp));
    }
    assert(row_views(rows@) =~= temperature_rows(*point, battery_temps));
    List::new("Temperatures", rows)
}

fn battery_section(point: &DataPoint, cell_count: Option<u8>) -> (list: List)
    requires
        cell_count != Some(0u8),
    ensures
        list@ == (ListView {
            title: "Battery"@,
            items: battery_rows(*point, cell_count),
            color: None,
        }),
{
    let voltage = Color::rgb(0x34, 0xd3, 0x99);
    let current = Color::rgb(0x67, 0xe8, 0xf9);
    let mut rows: Vec<LabelValue> = Vec::new();
    match cell_count {
        Some(cells) => {
            let mut text = String::new();
            push_two_decimals(&mut text, div_round(point.batt_voltage as i64, 10 * (cells as i64)));
            text.append(" V");
            push_row(
                &mut rows,
                LabelValue {
                    label: String::from_str("Voltage (per cell)"),
                    value: text,
                    color: Some(voltage),
                },
            );
        },
        None => {},
    }
    push_row(&mut rows, reading("Voltage", point.batt_voltage, " V", voltage));
    push_row(&mut rows, reading("Current", point.batt_current, " A", current));
    let volt: i64 = point.batt_voltage as i64;
    let ampere: i64 = point.batt_current as i64;
    assert(-0x4000_0000_0000_0000 <= volt * ampere <= 0x4000_0000_0000_0000) by (nonlinear_arith)
        requires
            -0x8000_0000 <= volt <= 0x8000_0000,
            -0x8000_0000 <= ampere <= 0x8000_0000,
    ;
    let product: i64 = volt * ampere;
    let rounded = div_round(product, 1_000_000);
    let w: u64 = if rounded < 0 {
        0
    } else {
        rounded as u64
    };
    let mut text = String::new();
    push_decimal(&mut text, w);
    text.append(" W");
    push_row(&mut rows, LabelValue { label: String::from_str("Watts"), value: text, color: None });
    assert(row_views(rows@) =~= battery_rows(*point, cell_count));
    List::new("Battery", rows)
}

/// Lays out the frame for one sample: the two dials, then the three
/// sections, stacked from the top margin down. A pack of zero cells is
/// refused, as no voltage per cell can be shown for it.
#[verifier::rlimit(50)]
pub fn compose(point: &DataPoint, config: &RenderConfig) -> (res: Result<Scene, ConfigError>)
    ensures
        match res {
            Ok(scene) => {
                &&& config.cell_count != Some(0u8)
                &&& scene@ == scene_of(*point, *config)
                &&& scene@.height == total_height(scene@.blocks)
                &&& stacked(scene@.blocks)
                &&& scene@.drawable()
            },
            Err(e) => e == ConfigError::NoCells && config.cell_count == Some(0u8),
        },
{
    if let Some(cells) = config.cell_count {
        if cells == 0 {
            return Err(ConfigError::NoCells);
        }
    }
    proof {
        lemma_row_counts(*point, *config);
    }
    let speed = dial_part(&speed_gauge(point), TOP_MARGIN);
    let duty = dial_part(&duty_gauge(point), TOP_MARGIN + DIAL_HEIGHT as i32);
    let motor = section_part(
        &motor_section(point),
        TOP_MARGIN + 2 * DIAL_HEIGHT as i32,
        config.title_height,
    );
    let temperatures = section_part(
        &temperature_section(point, config.battery_temps),
        motor.top + motor.height as i32,
        config.title_height,
    );
    let battery = section_part(
        &battery_section(point, config.cell_count),
        temperatures.top + temperatures.height as i32,
        config.title_height,
    );
    let height: u32 = 2 * DIAL_HEIGHT + motor.height + temperatures.height + battery.height;
    let ghost parts = seq![speed@, duty@, motor@, temperatures@, battery@];
    proof {
        assert(speed@ == speed_block(*point));
        assert(duty@ == duty_block(*point));
        assert(motor@ == motor_block(*point, *config));
        assert(temperatures@ == temperatures_block(*point, *config));
        assert(battery@ == battery_block(*point, *config));
        assert(parts =~= scene_blocks(*point, *config));
        lemma_scene_is_stacked(*point, *config);
        stacked_blocks_fill_their_span(parts);
        assert forall|i: int| 0 <= i < parts.len() implies (#[trigger] parts[i]).drawable() by {
            if i == 0 {
                assert(parts[i] == speed@);
            } else if i == 1 {
                assert(parts[i] == duty@);
            } else if i == 2 {
                assert(parts[i] == motor@);
            } else if i == 3 {
                assert(parts[i] == temperatures@);
            } else {
                assert(parts[i] == battery@);
            }
        }
    }
    let mut blocks: Vec<Block> = Vec::new();
    push_block(&mut blocks, speed);
    push_block(&mut blocks, duty);
    push_block(&mut blocks, motor);
    push_block(&mut blocks, temperatures);
    push_block(&mut blocks, battery);
    assert(block_views(blocks@) =~= parts);
    Ok(Scene { blocks, height })
}

/// Blocks that are stacked fill the span from the top of the first to the
/// bottom of the last: their heights add up to it.
pub proof fn stacked_blocks_fill_their_span(blocks: Seq<BlockView>)
    requires
        stacked(blocks),
        blocks.len() > 0,
    ensures
        total_height(blocks) == blocks.last().bottom() - blocks[0].top,
    decreases blocks.len(),
{
    let front = blocks.drop_last();
    if front.len() == 0 {
        assert(total_height(front) == 0);
    } else {
        assert forall|n: int| 0 <= n < front.len() - 1 implies front[n + 1].top == (
        #[trigger] front[n]).bottom() by {
            assert(blocks[n + 1].top == blocks[n].bottom());
        }
        stacked_blocks_fill_their_span(front);
        assert(blocks.last().top == front.last().bottom());
    }
}

/// Blocks that are stacked do not overlap: a block ends before any later
/// one starts.
pub proof fn stacked_blocks_do_not_overlap(blocks: Seq<BlockView>, i: int, j: int)
    requires
        stacked(blocks),
        0 <= i < j < blocks.len(),
    ensures
        blocks[i].bottom() <= blocks[j].top,
    decreases j - i,
{
    assert(blocks[j].top == blocks[j - 1].bottom());
    if i < j - 1 {
        stacked_blocks_do_not_overlap(blocks, i, j - 1);
    }
}

/// Finds what holds for every frame of a run: whether the run has battery
/// temperatures is looked up once, over all its samples.
pub fn run_config(
    points: &Vec<DataPoint>,
    cell_count: Option<u8>,
    title_height: u32,
    transparent: bool,
) -> (config: RenderConfig)
    ensures
        config == (RenderConfig {
            cell_count,
            battery_temps: any_battery_temps(points@),
            title_height,
            transparent,
        }),
{
    RenderConfig { cell_count, battery_temps: has_battery_temps(points), title_height, transparent }
}

/// What a drawing surface is cleared to before a frame is drawn on it:
/// black, with no opacity where the background is transparent.
pub open spec fn background(transparent: bool) -> Color {
    Color { r: 0, g: 0, b: 0, a: if transparent { 0u8 } else { 255u8 } }
}

/// The height of the frames of a run: the top margin, and under it room
/// for the tallest scene that a sample of the run can have, which is one
/// that carries a field-weakening current.
pub open spec fn run_height(config: RenderConfig) -> int {
    TOP_MARGIN + 2 * DIAL_HEIGHT + LINE_HEIGHT * (10 + (if config.battery_temps {
        1int
    } else {
        0int
    }) + (if config.cell_count is Some { 1int } else { 0int }))
}

/// Tells the height of the frames of a run.
pub fn frame_height(config: &RenderConfig) -> (height: u32)
    ensures
        height == run_height(*config),
{
    let mut lines: u32 = 10;
    if config.battery_temps {
        lines = lines + 1;
    }
    if config.cell_count.is_some() {
        lines = lines + 1;
    }
    TOP_MARGIN as u32 + 2 * DIAL_HEIGHT + LINE_HEIGHT * lines
}

/// The frames of a run are high enough for the scene of every sample, and
/// no higher than the scene of a sample with a field-weakening current
/// needs.
pub proof fn every_scene_fits_its_frame(point: DataPoint, config: RenderConfig)
    ensures
        TOP_MARGIN + scene_height(point, config) <= run_height(config),
        point.field_weakening is Some ==> TOP_MARGIN + scene_height(point, config) == run_height(
            config,
        ),
{
}

/// One frame: its height, what to clear the surface to, and what to draw
/// on it.
#[derive(Clone, Debug, PartialEq, Eq)]
pub struct Frame {
    pub height: u32,
    pub background: Color,
    pub scene: Scene,
}

/// Makes the frame for one sample. Nothing of a frame depends on another
/// frame.
pub fn render_frame(config: &RenderConfig, point: &DataPoint) -> (res: Result<Frame, ConfigError>)
    ensures
        match res {
            Ok(frame) => {
                &&& config.cell_count != Some(0u8)
                &&& frame.height == run_height(*config)
                &&& frame.background == background(config.transparent)
                &&& frame.scene@ == scene_of(*point, *config)
                &&& frame.scene@.height == total_height(frame.scene@.blocks)
                &&& stacked(frame.scene@.blocks)
                &&& frame.scene@.drawable()
            },
            Err(e) => e == ConfigError::NoCells && config.cell_count == Some(0u8),
        },
{
    match compose(point, config) {
        Ok(scene) => Ok(
            Frame {
                height: frame_height(config),
                background: Color::rgba(0, 0, 0, if config.transparent { 0 } else { 255 }),
                scene,
            },
        ),
        Err(e) => Err(e),
    }
}

/// Whether a frame shows the battery temperature is a matter of the run,
/// not of the sample: in a run where some sample has a battery temperature
/// other than zero, the frame of every sample has the row, as the third of
/// its temperatures; in a run where none has, as where all read zero, no
/// frame has it.
#[verifier::rlimit(50)]
pub proof fn battery_row_follows_the_run(points: Seq<DataPoint>, config: RenderConfig, i: int)
    requires
        0 <= i < points.len(),
        config.battery_temps == any_battery_temps(points),
    ensures
        scene_blocks(points[i], config)[3] == temperatures_block(points[i], config),
        any_battery_temps(points) ==> temperature_rows(points[i], config.battery_temps).len() == 3
            && temperature_rows(points[i], config.battery_temps)[2].label == "Battery"@,
        !any_battery_temps(points) ==> temperature_rows(points[i], config.battery_temps).len()
            == 2,
        (forall|k: int|
            0 <= k < points.len() ==> (#[trigger] points[k]).temp_battery == Some(0i32))
            ==> !any_battery_temps(points),
{
}

} // verus!
