//! Sensor samples, the latest-value cache, and what one sampling cycle
//! publishes.

use vstd::prelude::*;

verus! {

/// The four kinds of sample, in the order in which the display steps through
/// them.
#[derive(Clone, Copy, Debug, PartialEq, Eq, Structural)]
pub enum SensorKind {
    Temperature,
    Moisture,
    Light,
    Pressure,
}

/// One reading.
#[derive(Clone, Copy, Debug, PartialEq, Eq, Structural)]
pub enum SensorData {
    /// Tenths of a degree Celsius.
    Temperature(i16),
    /// Tenths of a percent of relative humidity.
    Moisture(u16),
    /// Whether it is bright.
    Light(bool),
    /// Pascals (hundredths of a hectopascal).
    Pressure(u32),
}

impl SensorKind {
    /// The kind's place in the display order, from 0.
    pub open spec fn index(self) -> int {
        match self {
            SensorKind::Temperature => 0,
            SensorKind::Moisture => 1,
            SensorKind::Light => 2,
            SensorKind::Pressure => 3,
        }
    }

    /// The kind at a place in the display order.
    pub open spec fn at(index: int) -> SensorKind {
        if index == 0 {
            SensorKind::Temperature
        } else if index == 1 {
            SensorKind::Moisture
        } else if index == 2 {
            SensorKind::Light
        } else {
            SensorKind::Pressure
        }
    }

    /// The kind shown after this one: the next in order, the first after the
    /// last.
    pub open spec fn successor(self) -> SensorKind {
        SensorKind::at((self.index() + 1) % 4)
    }

    /// The kind shown after this one.
    pub fn next(self) -> (kind: SensorKind)
        ensures
            kind == self.successor(),
    {
        match self {
            SensorKind::Temperature => SensorKind::Moisture,
            SensorKind::Moisture => SensorKind::Light,
            SensorKind::Light => SensorKind::Pressure,
            SensorKind::Pressure => SensorKind::Temperature,
        }
    }
}

impl SensorData {
    /// The kind of the reading.
    pub open spec fn spec_kind(self) -> SensorKind {
        match self {
            SensorData::Temperature(_) => SensorKind::Temperature,
            SensorData::Moisture(_) => SensorKind::Moisture,
            SensorData::Light(_) => SensorKind::Light,
            SensorData::Pressure(_) => SensorKind::Pressure,
        }
    }

    /// The kind of the reading.
    pub fn kind(&self) -> (kind: SensorKind)
        ensures
            kind == self.spec_kind(),
    {
        match self {
            SensorData::Temperature(_) => SensorKind::Temperature,
            SensorData::Moisture(_) => SensorKind::Moisture,
            SensorData::Light(_) => SensorKind::Light,
            SensorData::Pressure(_) => SensorKind::Pressure,
        }
    }
}

/// The latest reading of each kind, if one has arrived.
#[derive(Clone, Copy, Debug, PartialEq, Eq, Structural)]
pub struct LatestData {
    pub temperature: Option<i16>,
    pub moisture: Option<u16>,
    pub light: Option<bool>,
    pub pressure: Option<u32>,
}

impl LatestData {
    /// The cache with nothing in it.
    pub open spec fn spec_empty() -> LatestData {
        LatestData { temperature: None, moisture: None, light: None, pressure: None }
    }

    /// The cached reading of a kind.
    pub open spec fn spec_get(self, kind: SensorKind) -> Option<SensorData> {
        match kind {
            SensorKind::Temperature => match self.temperature {
                Some(t) => Some(SensorData::Temperature(t)),
                None => None,
            },
            SensorKind::Moisture => match self.moisture {
                Some(m) => Some(SensorData::Moisture(m)),
                None => None,
            },
            SensorKind::Light => match self.light {
                Some(l) => Some(SensorData::Light(l)),
                None => None,
            },
            SensorKind::Pressure => match self.pressure {
                Some(p) => Some(SensorData::Pressure(p)),
                None => None,
            },
        }
    }

    /// The cache after a reading has arrived: the slot of its kind holds it,
    /// the others are as before.
    pub open spec fn spec_insert(self, sample: SensorData) -> LatestData {
        match sample {
            SensorData::Temperature(t) => LatestData { temperature: Some(t), ..self },
            SensorData::Moisture(m) => LatestData { moisture: Some(m), ..self },
            SensorData::Light(l) => LatestData { light: Some(l), ..self },
            SensorData::Pressure(p) => LatestData { pressure: Some(p), ..self },
        }
    }

    /// A cache with nothing in it.
    pub fn new() -> (cache: LatestData)
        ensures
            cache == LatestData::spec_empty(),
    {
        LatestData { temperature: None, moisture: None, light: None, pressure: None }
    }

    /// The cached reading of a kind, if one has arrived.
    pub fn get(&self, kind: SensorKind) -> (sample: Option<SensorData>)
        ensures
            sample == self.spec_get(kind),
    {
        match kind {
            SensorKind::Temperature => match self.temperature {
                Some(t) => Some(SensorData::Temperature(t)),
                None => None,
            },
            SensorKind::Moisture => match self.moisture {
                Some(m) => Some(SensorData::Moisture(m)),
                None => None,
            },
            SensorKind::Light => match self.light {
                Some(l) => Some(SensorData::Light(l)),
                None => None,
            },
            SensorKind::Pressure => match self.pressure {
                Some(p) => Some(SensorData::Pressure(p)),
                None => None,
            },
        }
    }

    /// Stores a reading in the slot of its kind, over what was there.
    pub fn insert(&mut self, sample: SensorData)
        ensures
            *final(self) == old(self).spec_insert(sample),
    {
        match sample {
            SensorData::Temperature(t) => {
                self.temperature = Some(t);
            },
            SensorData::Moisture(m) => {
                self.moisture = Some(m);
            },
            SensorData::Light(l) => {
                self.light = Some(l);
            },
            SensorData::Pressure(p) => {
                self.pressure = Some(p);
            },
        }
    }
}

/// What the climate sensor gave in one cycle, with the pressure derived from
/// it.
#[derive(Clone, Copy, Debug, PartialEq, Eq, Structural)]
pub struct Climate {
    /// Tenths of a degree Celsius.
    pub temperature: i16,
    /// Tenths of a percent of relative humidity.
    pub humidity: u16,
    /// Pascals.
    pub pressure: u32,
}

/// The samples of one cycle: temperature, moisture and pressure where the
/// climate sensor answered, then the light level in any case. The light pin
/// is low when it is bright.
pub open spec fn cycle_samples(climate: Option<Climate>, light_pin_low: bool) -> Seq<SensorData> {
    match climate {
        Some(c) => seq![
            SensorData::Temperature(c.temperature),
            SensorData::Moisture(c.humidity),
            SensorData::Pressure(c.pressure),
            SensorData::Light(light_pin_low),
        ],
        None => seq![SensorData::Light(light_pin_low)],
    }
}

/// Lists what one sampling cycle publishes, in order. A climate reading that
/// failed is left out and the light level is still published.
pub fn sensor_cycle(climate: Option<Climate>, light_pin_low: bool) -> (samples: Vec<SensorData>)
    ensures
        samples@ == cycle_samples(climate, light_pin_low),
{
    let mut samples: Vec<SensorData> = Vec::new();
    if let Some(c) = climate {
        samples.push(SensorData::Temperature(c.temperature));
        samples.push(SensorData::Moisture(c.humidity));
        samples.push(SensorData::Pressure(c.pressure));
    }
    samples.push(SensorData::Light(light_pin_low));
    assert(samples@ =~= cycle_samples(climate, light_pin_low));
    samples
}

/// A reading is found again under its kind, and under no other kind anything
/// changes.
pub proof fn lemma_insert_then_get(cache: LatestData, sample: SensorData, kind: SensorKind)
    ensures
        cache.spec_insert(sample).spec_get(sample.spec_kind()) == Some(sample),
        kind != sample.spec_kind() ==> cache.spec_insert(sample).spec_get(kind) == cache.spec_get(
            kind,
        ),
{
}

/// Stepping four times through the kinds comes back to where it began, and
/// from temperature the order is moisture, light, pressure.
pub proof fn lemma_kind_cycle(kind: SensorKind)
    ensures
        kind.successor().successor().successor().successor() == kind,
        SensorKind::Temperature.successor() == SensorKind::Moisture,
        SensorKind::Moisture.successor() == SensorKind::Light,
        SensorKind::Light.successor() == SensorKind::Pressure,
        SensorKind::Pressure.successor() == SensorKind::Temperature,
{
}

} // verus!
