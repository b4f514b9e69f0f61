//! Sensors that measure a single value.

use crate::client::PhyphoxClient;
use crate::sample::Sample;
use crate::variables::Variables;
use vstd::prelude::*;

verus! {

/// The sensors that report one value and the time at which it was taken.
#[derive(Copy, Clone, Debug, Eq, Hash, PartialEq, Structural)]
pub enum SVSensorName {
    Light,
}

impl SVSensorName {
    /// The channel that carries the value of this sensor.
    pub open spec fn spec_value(&self) -> Variables {
        match self {
            SVSensorName::Light => Variables::Light,
        }
    }

    /// The channel that carries the time of this sensor's measurements.
    pub open spec fn spec_time(&self) -> Variables {
        match self {
            SVSensorName::Light => Variables::LightTime,
        }
    }

    /// Returns the `value` channel of this sensor.
    #[verifier::when_used_as_spec(spec_value)]
    pub fn value(&self) -> (channel: Variables)
        ensures
            channel == self.spec_value(),
    {
        match self {
            SVSensorName::Light => Variables::Light,
        }
    }

    /// Returns the `time` channel of this sensor.
    #[verifier::when_used_as_spec(spec_time)]
    pub fn time(&self) -> (channel: Variables)
        ensures
            channel == self.spec_time(),
    {
        match self {
            SVSensorName::Light => Variables::LightTime,
        }
    }
}

/// The two channels of a sensor differ from each other.
pub proof fn lemma_channels_distinct(a: SVSensorName)
    ensures
        a.value() != a.time(),
{
}

/// A single-value sensor, as a view of the channels of a client.
///
/// The sensor holds no data of its own: it registers and reads its channels
/// in the client it is given, so every sensor and the client itself see the
/// same values.
#[derive(Copy, Clone, Debug)]
pub struct SVSensor(pub SVSensorName);

impl SVSensor {
    /// Registers the `value` channel to be read.
    pub fn register(&self, client: &mut PhyphoxClient)
        ensures
            final(client)@ == old(client)@.register(self.0.value()),
            final(client).url() == old(client).url(),
            final(client)@.wf(),
    {
        client.register(self.0.value())
    }

    /// Registers the `time` channel to be read.
    pub fn register_time(&self, client: &mut PhyphoxClient)
        ensures
            final(client)@ == old(client)@.register(self.0.time()),
            final(client).url() == old(client).url(),
            final(client)@.wf(),
    {
        client.register(self.0.time())
    }

    /// Reads the `value` channel of this sensor.
    pub fn value(&self, client: &PhyphoxClient) -> (value: Option<Sample>)
        ensures
            value == client@.get(self.0.value()),
    {
        client.get(self.0.value())
    }

    /// Reads the `time` channel of this sensor.
    pub fn time(&self, client: &PhyphoxClient) -> (value: Option<Sample>)
        ensures
            value == client@.get(self.0.time()),
    {
        client.get(self.0.time())
    }
}

} // verus!
