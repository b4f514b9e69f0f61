//! Sensors that measure along three axes.

use crate::client::PhyphoxClient;
use crate::sample::Sample;
use crate::variables::Variables;
use vstd::prelude::*;

verus! {

/// The sensors that report a value on each of three axes, the magnitude of
/// the three together, and the time at which they were taken.
#[derive(Copy, Clone, Debug, Eq, Hash, PartialEq, Structural)]
pub enum XYZSensorName {
    Magnetometer,
    Acceleration,
    Gyroscope,
}

impl XYZSensorName {
    /// The channel that carries this sensor's value on the X axis.
    pub open spec fn spec_x(&self) -> Variables {
        match self {
            XYZSensorName::Magnetometer => Variables::MagnetometerX,
            XYZSensorName::Acceleration => Variables::AccelerationX,
            XYZSensorName::Gyroscope => Variables::GyroscopeX,
        }
    }

    /// The channel that carries this sensor's value on the Y axis.
    pub open spec fn spec_y(&self) -> Variables {
        match self {
            XYZSensorName::Magnetometer => Variables::MagnetometerY,
            XYZSensorName::Acceleration => Variables::AccelerationY,
            XYZSensorName::Gyroscope => Variables::GyroscopeY,
        }
    }

    /// The channel that carries this sensor's value on the Z axis.
    pub open spec fn spec_z(&self) -> Variables {
        match self {
            XYZSensorName::Magnetometer => Variables::MagnetometerZ,
            XYZSensorName::Acceleration => Variables::AccelerationZ,
            XYZSensorName::Gyroscope => Variables::GyroscopeZ,
        }
    }

    /// The channel that carries the magnitude of this sensor's three values.
    pub open spec fn spec_abs(&self) -> Variables {
        match self {
            XYZSensorName::Magnetometer => Variables::MagnetometerAbs,
            XYZSensorName::Acceleration => Variables::AccelerationAbs,
            XYZSensorName::Gyroscope => Variables::GyroscopeAbs,
        }
    }

    /// The channel that carries the time of this sensor's measurements.
    pub open spec fn spec_time(&self) -> Variables {
        match self {
            XYZSensorName::Magnetometer => Variables::MagnetometerTime,
            XYZSensorName::Acceleration => Variables::AccelerationTime,
            XYZSensorName::Gyroscope => Variables::GyroscopeTime,
        }
    }

    /// Returns the channel of the X value of this sensor.
    #[verifier::when_used_as_spec(spec_x)]
    pub fn x(&self) -> (channel: Variables)
        ensures
            channel == self.spec_x(),
    {
        match self {
            XYZSensorName::Magnetometer => Variables::MagnetometerX,
            XYZSensorName::Acceleration => Variables::AccelerationX,
            XYZSensorName::Gyroscope => Variables::GyroscopeX,
        }
    }

    /// Returns the channel of the Y value of this sensor.
    #[verifier::when_used_as_spec(spec_y)]
    pub fn y(&self) -> (channel: Variables)
        ensures
            channel == self.spec_y(),
    {
        match self {
            XYZSensorName::Magnetometer => Variables::MagnetometerY,
            XYZSensorName::Acceleration => Variables::AccelerationY,
            XYZSensorName::Gyroscope => Variables::GyroscopeY,
        }
    }

    /// Returns the channel of the Z value of this sensor.
    #[verifier::when_used_as_spec(spec_z)]
    pub fn z(&self) -> (channel: Variables)
        ensures
            channel == self.spec_z(),
    {
        match self {
            XYZSensorName::Magnetometer => Variables::MagnetometerZ,
            XYZSensorName::Acceleration => Variables::AccelerationZ,
            XYZSensorName::Gyroscope => Variables::GyroscopeZ,
        }
    }

    /// Returns the channel of the magnitude of this sensor.
    #[verifier::when_used_as_spec(spec_abs)]
    pub fn abs(&self) -> (channel: Variables)
        ensures
            channel == self.spec_abs(),
    {
        match self {
            XYZSensorName::Magnetometer => Variables::MagnetometerAbs,
            XYZSensorName::Acceleration => Variables::AccelerationAbs,
            XYZSensorName::Gyroscope => Variables::GyroscopeAbs,
        }
    }

    /// Returns the channel of the time of this sensor.
    #[verifier::when_used_as_spec(spec_time)]
    pub fn time(&self) -> (channel: Variables)
        ensures
            channel == self.spec_time(),
    {
        match self {
            XYZSensorName::Magnetometer => Variables::MagnetometerTime,
            XYZSensorName::Acceleration => Variables::AccelerationTime,
            XYZSensorName::Gyroscope => Variables::GyroscopeTime,
        }
    }
}

/// The five channels of a sensor differ from each other, and no channel
/// belongs to two sensors: registering or reading through one sensor never
/// touches a channel of another role or of another sensor.
pub proof fn lemma_channels_distinct(a: XYZSensorName, b: XYZSensorName)
    ensures
        a.x() != a.y() && a.x() != a.z() && a.x() != a.abs() && a.x() != a.time(),
        a.y() != a.z() && a.y() != a.abs() && a.y() != a.time(),
        a.z() != a.abs() && a.z() != a.time(),
        a.abs() != a.time(),
        a != b ==> a.x() != b.x() && a.x() != b.y() && a.x() != b.z() && a.x() != b.abs() && a.x()
            != b.time(),
        a != b ==> a.y() != b.y() && a.y() != b.z() && a.y() != b.abs() && a.y() != b.time(),
        a != b ==> a.z() != b.z() && a.z() != b.abs() && a.z() != b.time(),
        a != b ==> a.abs() != b.abs() && a.abs() != b.time(),
        a != b ==> a.time() != b.time(),
{
}

/// A three-axis sensor, as a view of the channels of a client.
///
/// The sensor holds no data of its own: it registers and reads its channels
/// in the client it is given, so every sensor and the client itself see the
/// same values.
#[derive(Copy, Clone, Debug)]
pub struct XYZSensor(pub XYZSensorName);

impl XYZSensor {
    /// Registers the X channel to be read.
    pub fn register_x(&self, client: &mut PhyphoxClient)
        ensures
            final(client)@ == old(client)@.register(self.0.x()),
            final(client).url() == old(client).url(),
            final(client)@.wf(),
    {
        client.register(self.0.x())
    }

    /// Registers the Y channel to be read.
    pub fn register_y(&self, client: &mut PhyphoxClient)
        ensures
            final(client)@ == old(client)@.register(self.0.y()),
            final(client).url() == old(client).url(),
            final(client)@.wf(),
    {
        client.register(self.0.y())
    }

    /// Registers the Z channel to be read.
    pub fn register_z(&self, client: &mut PhyphoxClient)
        ensures
            final(client)@ == old(client)@.register(self.0.z()),
            final(client).url() == old(client).url(),
            final(client)@.wf(),
    {
        client.register(self.0.z())
    }

    /// Registers the magnitude channel to be read.
    pub fn register_abs(&self, client: &mut PhyphoxClient)
        ensures
            final(client)@ == old(client)@.register(self.0.abs()),
            final(client).url() == old(client).url(),
            final(client)@.wf(),
    {
        client.register(self.0.abs())
    }

    /// Registers the time channel to be read.
    pub fn register_time(&self, client: &mut PhyphoxClient)
        ensures
            final(client)@ == old(client)@.register(self.0.time()),
            final(client).url() == old(client).url(),
            final(client)@.wf(),
    {
        client.register(self.0.time())
    }

    /// Reads the X channel of this sensor.
    pub fn x(&self, client: &PhyphoxClient) -> (value: Option<Sample>)
        ensures
            value == client@.get(self.0.x()),
    {
        client.get(self.0.x())
    }

    /// Reads the Y channel of this sensor.
    pub fn y(&self, client: &PhyphoxClient) -> (value: Option<Sample>)
        ensures
            value == client@.get(self.0.y()),
    {
        client.get(self.0.y())
    }

    /// Reads the Z channel of this sensor.
    pub fn z(&self, client: &PhyphoxClient) -> (value: Option<Sample>)
        ensures
            value == client@.get(self.0.z()),
    {
        client.get(self.0.z())
    }

    /// Reads the magnitude channel of this sensor.
    pub fn abs(&self, client: &PhyphoxClient) -> (value: Option<Sample>)
        ensures
            value == client@.get(self.0.abs()),
    {
        client.get(self.0.abs())
    }

    /// Reads the time channel of this sensor.
    pub fn time(&self, client: &PhyphoxClient) -> (value: Option<Sample>)
        ensures
            value == client@.get(self.0.time()),
    {
        client.get(self.0.time())
    }
}

} // verus!
