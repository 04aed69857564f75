use vstd::prelude::*;
use crate::text::{ends_with, has_suffix};
use crate::units::{div_round, rounded_div, saturate, saturated};

verus! {

/// One telemetry sample. Readings are in thousandths of their unit; the
/// duration is the time since the sample before, in milliseconds.
#[derive(Clone, Copy, Debug, PartialEq, Eq)]
pub struct DataPoint {
    pub duration: u32,
    /// Speed in km/h.
    pub speed: i32,
    /// Duty cycle in percent.
    pub duty_cycle: i32,
    /// Motor current in ampere.
    pub motor_current: i32,
    /// Field-weakening current in ampere, where the log carries it.
    pub field_weakening: Option<i32>,
    /// Motor temperature in degrees Celsius.
    pub temp_motor: i32,
    /// Controller temperature in degrees Celsius.
    pub temp_mosfet: i32,
    /// Battery temperature in degrees Celsius, where the log carries it.
    pub temp_battery: Option<i32>,
    /// Battery voltage in volt.
    pub batt_voltage: i32,
    /// Battery current in ampere.
    pub batt_current: i32,
}

/// The sample carries a battery temperature other than zero.
pub open spec fn reads_battery_temp(point: DataPoint) -> bool {
    point.temp_battery matches Some(t) && t != 0
}

/// Some sample of the run carries a battery temperature other than zero.
pub open spec fn any_battery_temps(points: Seq<DataPoint>) -> bool {
    exists|i: int| 0 <= i < points.len() && reads_battery_temp(#[trigger] points[i])
}

/// Tells whether any sample of the run carries a battery temperature other
/// than zero.
pub fn has_battery_temps(points: &Vec<DataPoint>) -> (res: bool)
    ensures
        res == any_battery_temps(points@),
{
    let mut i: usize = 0;
    while i < points.len()
        invariant
            i <= points.len(),
            forall|k: int| 0 <= k < i ==> !reads_battery_temp(#[trigger] points@[k]),
        decreases points.len() - i,
    {
        match points[i].temp_battery {
            Some(t) => {
                if t != 0 {
                    return true;
                }
            },
            None => {},
        }
        i = i + 1;
    }
    false
}

/// The time from `earlier` to `later`, zero if `later` is not later, and
/// at most what thirty-two bits hold. All times are in milliseconds.
pub open spec fn elapsed(earlier: int, later: int) -> u32 {
    if later <= earlier {
        0
    } else if later - earlier > u32::MAX {
        u32::MAX
    } else {
        (later - earlier) as u32
    }
}

/// A mile per hour in km/h, times a hundred thousand.
pub const KMH_PER_MPH: i64 = 160934;

/// One row of a Float Control log, as far as a sample is made from it. The
/// time counts milliseconds from the start of the log; readings are in
/// thousandths of their unit.
#[derive(Clone, Copy, Debug, PartialEq, Eq)]
pub struct FloatControlCsv {
    pub time: u32,
    pub speed_kmh: Option<i32>,
    pub speed_mph: Option<i32>,
    /// The duty cycle in percent, where the row's text could be read.
    pub duty_cycle: Option<i32>,
    pub voltage: i32,
    pub current_battery: i32,
    pub current_motor: i32,
    pub current_field_weakening: Option<i32>,
    pub temp_mosfet: i32,
    pub temp_motor: i32,
    pub temp_battery: i32,
}

impl FloatControlCsv {
    /// The speed in km/h: as logged, else converted from miles per hour
    /// and rounded to the nearest thousandth, else zero.
    pub open spec fn kmh(self) -> i32 {
        match self.speed_kmh {
            Some(v) => v,
            None => match self.speed_mph {
                Some(mph) => saturated(rounded_div(mph * KMH_PER_MPH, 100_000)),
                None => 0,
            },
        }
    }

    /// The sample of this row, if the row before it was logged at
    /// `prev_time`.
    pub open spec fn data_point(self, prev_time: u32) -> DataPoint {
        DataPoint {
            duration: elapsed(prev_time as int, self.time as int),
            speed: self.kmh(),
            duty_cycle: match self.duty_cycle {
                Some(v) => v,
                None => 0,
            },
            motor_current: self.current_motor,
            field_weakening: self.current_field_weakening,
            temp_motor: self.temp_motor,
            temp_mosfet: self.temp_mosfet,
            temp_battery: Some(self.temp_battery),
            batt_voltage: self.voltage,
            batt_current: self.current_battery,
        }
    }

    /// The speed in km/h.
    pub fn speed_kmh(&self) -> (res: i32)
        ensures
            res == self.kmh(),
    {
        match self.speed_kmh {
            Some(v) => v,
            None => match self.speed_mph {
                Some(mph) => saturate(div_round((mph as i64) * KMH_PER_MPH, 100_000) as i128),
                None => 0,
            },
        }
    }

    /// Makes the sample of this row, given the time of the row before it.
    pub fn to_data_point(&self, prev_time: u32) -> (res: DataPoint)
        ensures
            res == self.data_point(prev_time),
    {
        DataPoint {
            duration: if self.time > prev_time {
                self.time - prev_time
            } else {
                0
            },
            speed: self.speed_kmh(),
            duty_cycle: match self.duty_cycle {
                Some(v) => v,
                None => 0,
            },
            motor_current: self.current_motor,
            field_weakening: self.current_field_weakening,
            temp_motor: self.temp_motor,
            temp_mosfet: self.temp_mosfet,
            temp_battery: Some(self.temp_battery),
            batt_voltage: self.voltage,
            batt_current: self.current_battery,
        }
    }
}

/// The time of the row before row `i`; the first row counts from itself.
pub open spec fn time_before(rows: Seq<FloatControlCsv>, i: int) -> u32 {
    if i == 0 {
        rows[0].time
    } else {
        rows[i - 1].time
    }
}

/// The samples of the first `count` rows, before the battery temperatures
/// are looked at.
pub open spec fn float_control_samples(rows: Seq<FloatControlCsv>, count: nat) -> Seq<DataPoint> {
    Seq::new(count, |i: int| rows[i].data_point(time_before(rows, i)))
}

/// The sample without its battery temperature.
pub open spec fn without_battery_temp(point: DataPoint) -> DataPoint {
    DataPoint { temp_battery: None, ..point }
}

/// The run of a Float Control log: a sample for each row, in order, each
/// lasting from the row before it. Where no row has a battery temperature
/// other than zero, no sample carries one.
pub open spec fn float_control_run(rows: Seq<FloatControlCsv>) -> Seq<DataPoint> {
    let samples = float_control_samples(rows, rows.len());
    if any_battery_temps(samples) {
        samples
    } else {
        Seq::new(rows.len(), |i: int| without_battery_temp(samples[i]))
    }
}

/// Makes the run of a Float Control log from its rows.
pub fn parse_float_control(rows: &Vec<FloatControlCsv>) -> (data: Vec<DataPoint>)
    ensures
        data@ == float_control_run(rows@),
{
    let mut data: Vec<DataPoint> = Vec::new();
    let mut i: usize = 0;
    while i < rows.len()
        invariant
            i <= rows.len(),
            data@ == float_control_samples(rows@, i as nat),
        decreases rows.len() - i,
    {
        let prev_time = if i == 0 {
            rows[0].time
        } else {
            rows[i - 1].time
        };
        data.push(rows[i].to_data_point(prev_time));
        i = i + 1;
    }
    if !has_battery_temps(&data) {
        let ghost samples = data@;
        let mut k: usize = 0;
        while k < data.len()
            invariant
                k <= data.len(),
                data.len() == samples.len(),
                forall|j: int| 0 <= j < k ==> data@[j] == without_battery_temp(samples[j]),
                forall|j: int| k <= j < data.len() ==> data@[j] == samples[j],
            decreases data.len() - k,
        {
            let point = data[k];
            data.set(k, DataPoint { temp_battery: None, ..point });
            k = k + 1;
        }
    }
    data
}

/// One entry of a Floaty log, as far as a sample is made from it. The
/// timestamp counts milliseconds; readings are in thousandths of their
/// unit.
#[derive(Clone, Copy, Debug, PartialEq, Eq)]
pub struct FloatyLog {
    pub timestamp: u64,
    pub speed: Option<i32>,
    pub duty_cycle: Option<i32>,
    pub battery_volts: Option<i32>,
    pub battery_current: Option<i32>,
    pub motor_current: Option<i32>,
    pub motor_temp: i32,
    pub controller_temp: i32,
}

/// The reading, or zero where there is none.
pub open spec fn or_zero(reading: Option<i32>) -> i32 {
    match reading {
        Some(v) => v,
        None => 0,
    }
}

fn reading_or_zero(reading: Option<i32>) -> (res: i32)
    ensures
        res == or_zero(reading),
{
    match reading {
        Some(v) => v,
        None => 0,
    }
}

impl FloatyLog {
    /// The sample of this entry, if the entry before it was logged at
    /// `prev_time`. A Floaty log carries neither a field-weakening current
    /// nor a battery temperature.
    pub open spec fn data_point(self, prev_time: u64) -> DataPoint {
        DataPoint {
            duration: elapsed(prev_time as int, self.timestamp as int),
            speed: or_zero(self.speed),
            duty_cycle: or_zero(self.duty_cycle),
            motor_current: or_zero(self.motor_current),
            field_weakening: None,
            temp_motor: self.motor_temp,
            temp_mosfet: self.controller_temp,
            temp_battery: None,
            batt_voltage: or_zero(self.battery_volts),
            batt_current: or_zero(self.battery_current),
        }
    }

    /// Makes the sample of this entry, given the time of the entry before
    /// it.
    pub fn to_data_point(&self, prev_time: u64) -> (res: DataPoint)
        ensures
            res == self.data_point(prev_time),
    {
        let duration: u32 = if self.timestamp <= prev_time {
            0
        } else if self.timestamp - prev_time > u32::MAX as u64 {
            u32::MAX
        } else {
            (self.timestamp - prev_time) as u32
        };
        DataPoint {
            duration,
            speed: reading_or_zero(self.speed),
            duty_cycle: reading_or_zero(self.duty_cycle),
            motor_current: reading_or_zero(self.motor_current),
            field_weakening: None,
            temp_motor: self.motor_temp,
            temp_mosfet: self.controller_temp,
            temp_battery: None,
            batt_voltage: reading_or_zero(self.battery_volts),
            batt_current: reading_or_zero(self.battery_current),
        }
    }
}

/// The run of a Floaty log: a sample for each entry, in order, each lasting
/// from the entry before it; the first counts from itself.
pub open spec fn floaty_run(logs: Seq<FloatyLog>, count: nat) -> Seq<DataPoint> {
    Seq::new(
        count,
        |i: int|
            logs[i].data_point(
                if i == 0 {
                    logs[0].timestamp
                } else {
                    logs[i - 1].timestamp
                },
            ),
    )
}

/// Makes the run of a Floaty log from its entries.
pub fn parse_floaty(logs: &Vec<FloatyLog>) -> (data: Vec<DataPoint>)
    ensures
        data@ == floaty_run(logs@, logs@.len()),
{
    let mut data: Vec<DataPoint> = Vec::new();
    let mut i: usize = 0;
    while i < logs.len()
        invariant
            i <= logs.len(),
            data@ == floaty_run(logs@, i as nat),
        decreases logs.len() - i,
    {
        let prev_time = if i == 0 {
            logs[0].timestamp
        } else {
            logs[i - 1].timestamp
        };
        data.push(logs[i].to_data_point(prev_time));
        i = i + 1;
    }
    data
}

/// The kinds of log that can be read.
#[derive(Clone, Copy, Debug, PartialEq, Eq, Structural)]
pub enum InputKind {
    /// A Float Control log inside an archive.
    FloatControlZip,
    /// A Float Control log.
    FloatControlCsv,
    /// A Floaty log.
    FloatyJson,
}

/// Why a log cannot be read.
#[derive(Clone, Copy, Debug, PartialEq, Eq, Structural)]
pub enum ParseError {
    /// The first entry of the archive is missing or is no Float Control log.
    NoInnerCsv,
    /// The file's name ends in none of the known extensions.
    UnsupportedFormat,
}

impl ParseError {
    /// What to tell the user.
    pub fn message(&self) -> (res: &'static str)
        ensures
            res@ == match *self {
                ParseError::NoInnerCsv => "failed to find inner CSV file"@,
                ParseError::UnsupportedFormat => "Unsupported file format"@,
            },
    {
        match self {
            ParseError::NoInnerCsv => "failed to find inner CSV file",
            ParseError::UnsupportedFormat => "Unsupported file format",
        }
    }
}

/// What kind of log a file of this name holds: the name's ending decides,
/// `.zip` before `.csv` before `.json`.
pub open spec fn kind_of(name: Seq<char>) -> Result<InputKind, ParseError> {
    if has_suffix(name, ".zip"@) {
        Ok(InputKind::FloatControlZip)
    } else if has_suffix(name, ".csv"@) {
        Ok(InputKind::FloatControlCsv)
    } else if has_suffix(name, ".json"@) {
        Ok(InputKind::FloatyJson)
    } else {
        Err(ParseError::UnsupportedFormat)
    }
}

/// Tells from a file's name what kind of log it holds.
pub fn input_kind(input_file: &str) -> (res: Result<InputKind, ParseError>)
    ensures
        res == kind_of(input_file@),
{
    if ends_with(input_file, ".zip") {
        Ok(InputKind::FloatControlZip)
    } else if ends_with(input_file, ".csv") {
        Ok(InputKind::FloatControlCsv)
    } else if ends_with(input_file, ".json") {
        Ok(InputKind::FloatyJson)
    } else {
        Err(ParseError::UnsupportedFormat)
    }
}

/// Checks the first entry of an archive, given its name if there is one:
/// it must be a Float Control log.
pub fn check_inner_entry(name: Option<&str>) -> (res: Result<(), ParseError>)
    ensures
        res is Ok <==> (name matches Some(n) && has_suffix(n@, ".csv"@)),
        res is Err ==> res == Err::<(), ParseError>(ParseError::NoInnerCsv),
{
    match name {
        Some(n) => {
            if ends_with(n, ".csv") {
                Ok(())
            } else {
                Err(ParseError::NoInnerCsv)
            }
        },
        None => Err(ParseError::NoInnerCsv),
    }
}

} // verus!
