//! Hardware sensors: which sensor chips are known and how their readings
//! are judged, and the cache that spares the provider a costly query.

use vstd::prelude::*;
use crate::text::same_text;
use crate::text::starts_with;

verus! {

/// The kind of a sensor, which decides from which temperature a reading
/// counts as warm, hot or critical.
#[derive(Clone, Copy, Debug, PartialEq, Eq, Structural)]
pub enum SensorKind {
    CpuGpu,
    Nvme,
    Ram,
    Motherboard,
}

/// How a reading is judged.
#[derive(Clone, Copy, Debug, PartialEq, Eq, Structural)]
pub enum Heat {
    Cool,
    Warm,
    Hot,
    Critical,
}

/// The temperatures, in degrees Celsius, from which a reading is warm, hot
/// and critical.
#[derive(Clone, Copy, Debug, PartialEq, Eq, Structural)]
pub struct Thresholds {
    pub warm: u32,
    pub hot: u32,
    pub critical: u32,
}

/// The thresholds of each kind of sensor.
pub open spec fn thresholds_of(kind: SensorKind) -> Thresholds {
    match kind {
        SensorKind::CpuGpu => Thresholds { warm: 50, hot: 70, critical: 85 },
        SensorKind::Nvme => Thresholds { warm: 40, hot: 55, critical: 70 },
        SensorKind::Ram => Thresholds { warm: 40, hot: 50, critical: 60 },
        SensorKind::Motherboard => Thresholds { warm: 50, hot: 70, critical: 85 },
    }
}

/// The thresholds of `kind`.
pub fn thresholds(kind: SensorKind) -> (limits: Thresholds)
    ensures
        limits == thresholds_of(kind),
        limits.warm <= limits.hot <= limits.critical,
{
    match kind {
        SensorKind::CpuGpu => Thresholds { warm: 50, hot: 70, critical: 85 },
        SensorKind::Nvme => Thresholds { warm: 40, hot: 55, critical: 70 },
        SensorKind::Ram => Thresholds { warm: 40, hot: 50, critical: 60 },
        SensorKind::Motherboard => Thresholds { warm: 50, hot: 70, critical: 85 },
    }
}

/// The colour in which a reading of each heat is shown.
pub open spec fn heat_color_of(heat: Heat) -> Seq<char> {
    match heat {
        Heat::Cool => "#a6d189"@,
        Heat::Warm => "#e5c890"@,
        Heat::Hot => "#ef9f76"@,
        Heat::Critical => "#e78284"@,
    }
}

/// The colour in which a reading of `heat` is shown.
pub fn heat_color(heat: Heat) -> (color: &'static str)
    ensures
        color@ == heat_color_of(heat),
{
    match heat {
        Heat::Cool => "#a6d189",
        Heat::Warm => "#e5c890",
        Heat::Hot => "#ef9f76",
        Heat::Critical => "#e78284",
    }
}

/// A sensor chip that the provider knows: the title of its section, the
/// pattern that its name is held against, its kind, and whether the pattern
/// need only be the start of the name.
#[derive(Clone, Copy, Debug)]
pub struct KnownSensor {
    pub title: &'static str,
    pub pattern: &'static str,
    pub kind: SensorKind,
    pub prefix: bool,
}

/// Whether `name` fits `pattern`: it begins with it where `prefix` is set,
/// and is equal to it where not.
pub open spec fn fits(name: Seq<char>, pattern: Seq<char>, prefix: bool) -> bool {
    if prefix {
        pattern.is_prefix_of(name)
    } else {
        name == pattern
    }
}

/// Whether the sensor chip `hwmon_name` fits `pattern`.
pub fn sensor_matches(hwmon_name: &str, pattern: &str, prefix: bool) -> (hit: bool)
    ensures
        hit == fits(hwmon_name@, pattern@, prefix),
{
    if prefix {
        starts_with(hwmon_name, pattern)
    } else {
        same_text(hwmon_name, pattern)
    }
}

/// The known sensor chips, in the order in which their sections are shown.
pub open spec fn known_sensors_spec() -> Seq<KnownSensor> {
    seq![
        KnownSensor {
            title: "\u{F0EE0} CPU",
            pattern: "k10temp",
            kind: SensorKind::CpuGpu,
            prefix: false,
        },
        KnownSensor {
            title: "\u{F0EE0} CPU",
            pattern: "coretemp",
            kind: SensorKind::CpuGpu,
            prefix: false,
        },
        KnownSensor {
            title: "\u{F08AE} GPU AMD",
            pattern: "amdgpu",
            kind: SensorKind::CpuGpu,
            prefix: false,
        },
        KnownSensor {
            title: "\u{F02CA} NVMe",
            pattern: "nvme",
            kind: SensorKind::Nvme,
            prefix: true,
        },
        KnownSensor {
            title: "\u{F061A} Motherboard",
            pattern: "nct6799",
            kind: SensorKind::Motherboard,
            prefix: false,
        },
        KnownSensor {
            title: "\u{F035B} RAM",
            pattern: "spd5118",
            kind: SensorKind::Ram,
            prefix: false,
        },
    ]
}

/// The known sensor chips, in the order in which their sections are shown.
pub fn known_sensors() -> (table: Vec<KnownSensor>)
    ensures
        table@ == known_sensors_spec(),
{
    let table = vec![
        KnownSensor {
            title: "\u{F0EE0} CPU",
            pattern: "k10temp",
            kind: SensorKind::CpuGpu,
            prefix: false,
        },
        KnownSensor {
            title: "\u{F0EE0} CPU",
            pattern: "coretemp",
            kind: SensorKind::CpuGpu,
            prefix: false,
        },
        KnownSensor {
            title: "\u{F08AE} GPU AMD",
            pattern: "amdgpu",
            kind: SensorKind::CpuGpu,
            prefix: false,
        },
        KnownSensor {
            title: "\u{F02CA} NVMe",
            pattern: "nvme",
            kind: SensorKind::Nvme,
            prefix: true,
        },
        KnownSensor {
            title: "\u{F061A} Motherboard",
            pattern: "nct6799",
            kind: SensorKind::Motherboard,
            prefix: false,
        },
        KnownSensor {
            title: "\u{F035B} RAM",
            pattern: "spd5118",
            kind: SensorKind::Ram,
            prefix: false,
        },
    ];
    assert(table@ =~= known_sensors_spec());
    table
}

/// Whether `name` fits one of the known sensor chips.
pub open spec fn is_known(name: Seq<char>) -> bool {
    exists|i: int|
        0 <= i < known_sensors_spec().len() && fits(
            name,
            (#[trigger] known_sensors_spec()[i]).pattern@,
            known_sensors_spec()[i].prefix,
        )
}

/// Whether the sensor chip `hwmon_name` is one of the known ones.
pub fn is_known_sensor(hwmon_name: &str) -> (known: bool)
    ensures
        known == is_known(hwmon_name@),
{
    let table = known_sensors();
    let mut i: usize = 0;
    while i < table.len()
        invariant
            i <= table.len(),
            table@ == known_sensors_spec(),
            forall|k: int|
                0 <= k < i ==> !fits(
                    hwmon_name@,
                    (#[trigger] known_sensors_spec()[k]).pattern@,
                    known_sensors_spec()[k].prefix,
                ),
        decreases table.len() - i,
    {
        if sensor_matches(hwmon_name, table[i].pattern, table[i].prefix) {
            assert(fits(
                hwmon_name@,
                known_sensors_spec()[i as int].pattern@,
                known_sensors_spec()[i as int].prefix,
            ));
            return true;
        }
        i += 1;
    }
    false
}

/// Seconds for which the temperatures of the NVIDIA cards are kept before
/// they are queried again.
pub const NVIDIA_INTERVAL: u64 = 10;

/// A value that is costly to get, kept together with the time at which it
/// was got, in seconds on a clock that never runs backwards.
#[derive(Debug)]
pub struct ReadThrough<T> {
    pub value: T,
    pub refreshed: Option<u64>,
}

/// Whether a value got at `refreshed` is too old at `now`, where it may be
/// kept for `ttl` seconds: a value that was never got is.
pub open spec fn stale(refreshed: Option<u64>, now: u64, ttl: u64) -> bool {
    match refreshed {
        None => true,
        Some(then) => if now >= then {
            now - then >= ttl
        } else {
            ttl == 0
        },
    }
}

impl<T> ReadThrough<T> {
    /// A cache that holds `value` until the first refresh, and counts as
    /// stale until then.
    pub fn new(value: T) -> (cache: Self)
        ensures
            cache.value == value,
            cache.refreshed is None,
    {
        ReadThrough { value, refreshed: None }
    }

    /// Whether the value is too old at `now`, where it may be kept for
    /// `ttl` seconds.
    pub fn is_stale(&self, now: u64, ttl: u64) -> (old: bool)
        ensures
            old == stale(self.refreshed, now, ttl),
    {
        match self.refreshed {
            None => true,
            Some(then) => if now >= then {
                now - then >= ttl
            } else {
                ttl == 0
            },
        }
    }

    /// The value, where it is fresh enough at `now`; `None` where it has to
    /// be got again.
    pub fn get(&self, now: u64, ttl: u64) -> (held: Option<&T>)
        ensures
            held == if stale(self.refreshed, now, ttl) {
                None
            } else {
                Some(&self.value)
            },
    {
        if self.is_stale(now, ttl) {
            None
        } else {
            Some(&self.value)
        }
    }

    /// Keeps `value`, got at `now`.
    pub fn refresh(&mut self, value: T, now: u64)
        ensures
            final(self).value == value,
            final(self).refreshed == Some(now),
    {
        self.value = value;
        self.refreshed = Some(now);
    }
}

} // verus!
