//! Sensors: groups of channels that belong to one physical instrument.

pub mod sv;
pub mod xyz;

pub use self::sv::SVSensor;
pub use self::sv::SVSensorName;
pub use self::xyz::XYZSensor;
pub use self::xyz::XYZSensorName;

use crate::variables::lemma_wire_names_distinct;
use crate::variables::Variables;
use vstd::prelude::*;

verus! {

/// The channels that measure along one axis or tell a time: those of
/// [`Variables`] but for the magnitude channels.
///
/// Every value stands for the channel of the same name in [`Variables`].
#[derive(Copy, Clone, Debug, Eq, Hash, PartialEq, Structural)]
pub enum Sensors {
    MagnetometerX,
    MagnetometerY,
    MagnetometerZ,
    MagnetometerTime,
    GyroscopeX,
    GyroscopeY,
    GyroscopeZ,
    GyroscopeTime,
    AccelerationX,
    AccelerationY,
    AccelerationZ,
    AccelerationTime,
    Light,
    LightTime,
}

impl Sensors {
    /// The channel that this value stands for.
    pub open spec fn variable(self) -> Variables {
        match self {
            Sensors::MagnetometerX => Variables::MagnetometerX,
            Sensors::MagnetometerY => Variables::MagnetometerY,
            Sensors::MagnetometerZ => Variables::MagnetometerZ,
            Sensors::MagnetometerTime => Variables::MagnetometerTime,
            Sensors::GyroscopeX => Variables::GyroscopeX,
            Sensors::GyroscopeY => Variables::GyroscopeY,
            Sensors::GyroscopeZ => Variables::GyroscopeZ,
            Sensors::GyroscopeTime => Variables::GyroscopeTime,
            Sensors::AccelerationX => Variables::AccelerationX,
            Sensors::AccelerationY => Variables::AccelerationY,
            Sensors::AccelerationZ => Variables::AccelerationZ,
            Sensors::AccelerationTime => Variables::AccelerationTime,
            Sensors::Light => Variables::Light,
            Sensors::LightTime => Variables::LightTime,
        }
    }

    /// The name under which the server knows this channel.
    pub open spec fn wire_name(self) -> Seq<char> {
        self.variable().wire_name()
    }
}

impl AsRef<str> for Sensors {
    /// Returns the wire name of this channel.
    fn as_ref(&self) -> (name: &str)
        ensures
            name@ == self.wire_name(),
    {
        match self {
            Sensors::MagnetometerX => "magX",
            Sensors::MagnetometerY => "magY",
            Sensors::MagnetometerZ => "magZ",
            Sensors::MagnetometerTime => "mag_time",
            Sensors::GyroscopeX => "gyrX",
            Sensors::GyroscopeY => "gyrY",
            Sensors::GyroscopeZ => "gyrZ",
            Sensors::GyroscopeTime => "gyr_time",
            Sensors::AccelerationX => "accX",
            Sensors::AccelerationY => "accY",
            Sensors::AccelerationZ => "accZ",
            Sensors::AccelerationTime => "acc_time",
            Sensors::Light => "light",
            Sensors::LightTime => "light_time",
        }
    }
}

/// No two of these channels share a wire name.
pub proof fn lemma_sensor_names_distinct(a: Sensors, b: Sensors)
    requires
        a != b,
    ensures
        a.wire_name() != b.wire_name(),
{
    lemma_wire_names_distinct(a.variable(), b.variable());
}

} // verus!
