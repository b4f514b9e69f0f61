//! The catalog of measurement channels and their names on the wire.

use vstd::prelude::*;

verus! {

/// A measurement channel whose data can be retrieved from the experiment.
///
/// The catalog is closed: every channel the server offers is a variant here.
#[derive(Copy, Clone, Debug, Eq, Hash, PartialEq, Structural)]
pub enum Variables {
    MagnetometerX,
    MagnetometerY,
    MagnetometerZ,
    MagnetometerAbs,
    MagnetometerTime,
    GyroscopeX,
    GyroscopeY,
    GyroscopeZ,
    GyroscopeAbs,
    GyroscopeTime,
    AccelerationX,
    AccelerationY,
    AccelerationZ,
    AccelerationAbs,
    AccelerationTime,
    Light,
    LightTime,
}

impl Variables {
    /// The name under which the server knows this channel: the token that
    /// stands for it in a retrieval query and the key of its entry in a reply.
    pub open spec fn wire_name(self) -> Seq<char> {
        match self {
            Variables::MagnetometerX => "magX"@,
            Variables::MagnetometerY => "magY"@,
            Variables::MagnetometerZ => "magZ"@,
            Variables::MagnetometerAbs => "mag_abs"@,
            Variables::MagnetometerTime => "mag_time"@,
            Variables::GyroscopeX => "gyrX"@,
            Variables::GyroscopeY => "gyrY"@,
            Variables::GyroscopeZ => "gyrZ"@,
            Variables::GyroscopeAbs => "gyr_abs"@,
            Variables::GyroscopeTime => "gyr_time"@,
            Variables::AccelerationX => "accX"@,
            Variables::AccelerationY => "accY"@,
            Variables::AccelerationZ => "accZ"@,
            Variables::AccelerationAbs => "acc_abs"@,
            Variables::AccelerationTime => "acc_time"@,
            Variables::Light => "light"@,
            Variables::LightTime => "light_time"@,
        }
    }
}

impl AsRef<str> for Variables {
    /// Returns the wire name of this channel.
    fn as_ref(&self) -> (name: &str)
        ensures
            name@ == self.wire_name(),
    {
        match self {
            Variables::MagnetometerX => "magX",
            Variables::MagnetometerY => "magY",
            Variables::MagnetometerZ => "magZ",
            Variables::MagnetometerAbs => "mag_abs",
            Variables::MagnetometerTime => "mag_time",
            Variables::GyroscopeX => "gyrX",
            Variables::GyroscopeY => "gyrY",
            Variables::GyroscopeZ => "gyrZ",
            Variables::GyroscopeAbs => "gyr_abs",
            Variables::GyroscopeTime => "gyr_time",
            Variables::AccelerationX => "accX",
            Variables::AccelerationY => "accY",
            Variables::AccelerationZ => "accZ",
            Variables::AccelerationAbs => "acc_abs",
            Variables::AccelerationTime => "acc_time",
            Variables::Light => "light",
            Variables::LightTime => "light_time",
        }
    }
}

/// Makes the characters of every wire name known to the prover.
pub proof fn lemma_wire_names_revealed()
    ensures
        "magX"@ == seq!['m', 'a', 'g', 'X'],
        "magY"@ == seq!['m', 'a', 'g', 'Y'],
        "magZ"@ == seq!['m', 'a', 'g', 'Z'],
        "mag_abs"@ == seq!['m', 'a', 'g', '_', 'a', 'b', 's'],
        "mag_time"@ == seq!['m', 'a', 'g', '_', 't', 'i', 'm', 'e'],
        "gyrX"@ == seq!['g', 'y', 'r', 'X'],
        "gyrY"@ == seq!['g', 'y', 'r', 'Y'],
        "gyrZ"@ == seq!['g', 'y', 'r', 'Z'],
        "gyr_abs"@ == seq!['g', 'y', 'r', '_', 'a', 'b', 's'],
        "gyr_time"@ == seq!['g', 'y', 'r', '_', 't', 'i', 'm', 'e'],
        "accX"@ == seq!['a', 'c', 'c', 'X'],
        "accY"@ == seq!['a', 'c', 'c', 'Y'],
        "accZ"@ == seq!['a', 'c', 'c', 'Z'],
        "acc_abs"@ == seq!['a', 'c', 'c', '_', 'a', 'b', 's'],
        "acc_time"@ == seq!['a', 'c', 'c', '_', 't', 'i', 'm', 'e'],
        "light"@ == seq!['l', 'i', 'g', 'h', 't'],
        "light_time"@ == seq!['l', 'i', 'g', 'h', 't', '_', 't', 'i', 'm', 'e'],
{
    reveal_strlit("magX");
    reveal_strlit("magY");
    reveal_strlit("magZ");
    reveal_strlit("mag_abs");
    reveal_strlit("mag_time");
    reveal_strlit("gyrX");
    reveal_strlit("gyrY");
    reveal_strlit("gyrZ");
    reveal_strlit("gyr_abs");
    reveal_strlit("gyr_time");
    reveal_strlit("accX");
    reveal_strlit("accY");
    reveal_strlit("accZ");
    reveal_strlit("acc_abs");
    reveal_strlit("acc_time");
    reveal_strlit("light");
    reveal_strlit("light_time");
}

/// Whether `name` can stand in a query as a bare token: it is not empty and
/// is made of ASCII letters and underscores only.
pub open spec fn is_token(name: Seq<char>) -> bool {
    &&& name.len() > 0
    &&& forall|i: int|
        0 <= i < name.len() ==> ('a' <= #[trigger] name[i] <= 'z' || 'A' <= name[i] <= 'Z'
            || name[i] == '_')
}

/// Every wire name is a token, so the names of a query can be told apart
/// at the `&` between them.
pub proof fn lemma_wire_name_is_token(channel: Variables)
    ensures
        is_token(channel.wire_name()),
{
    lemma_wire_names_revealed();
}

/// No two channels share a wire name: a name in a reply identifies the
/// channel it belongs to.
pub proof fn lemma_wire_names_distinct(a: Variables, b: Variables)
    requires
        a != b,
    ensures
        a.wire_name() != b.wire_name(),
{
    lemma_wire_names_revealed();
    let x = a.wire_name();
    let y = b.wire_name();
    if x == y {
        // The length and the characters at these places tell any two names apart.
        assert(x.len() == y.len());
        assert(x[0] == y[0]);
        assert(x[3] == y[3]);
        assert(x[4] == y[4]);
    }
}

} // verus!
