use phyphox_api::sensors::SVSensorName;
use phyphox_api::sensors::Sensors;
use phyphox_api::sensors::XYZSensorName;
use phyphox_api::Variables;

fn all_variables() -> Vec<Variables> {
    vec![
        Variables::MagnetometerX,
        Variables::MagnetometerY,
        Variables::MagnetometerZ,
        Variables::MagnetometerAbs,
        Variables::MagnetometerTime,
        Variables::GyroscopeX,
        Variables::GyroscopeY,
        Variables::GyroscopeZ,
        Variables::GyroscopeAbs,
        Variables::GyroscopeTime,
        Variables::AccelerationX,
        Variables::AccelerationY,
        Variables::AccelerationZ,
        Variables::AccelerationAbs,
        Variables::AccelerationTime,
        Variables::Light,
        Variables::LightTime,
    ]
}

fn all_sensors() -> Vec<Sensors> {
    vec![
        Sensors::MagnetometerX,
        Sensors::MagnetometerY,
        Sensors::MagnetometerZ,
        Sensors::MagnetometerTime,
        Sensors::GyroscopeX,
        Sensors::GyroscopeY,
        Sensors::GyroscopeZ,
        Sensors::GyroscopeTime,
        Sensors::AccelerationX,
        Sensors::AccelerationY,
        Sensors::AccelerationZ,
        Sensors::AccelerationTime,
        Sensors::Light,
        Sensors::LightTime,
    ]
}

#[test]
fn variables_have_their_wire_names() {
    let all = all_variables();
    let names: Vec<&str> = all.iter().map(|v| v.as_ref()).collect();
    assert_eq!(
        names,
        vec![
            "magX", "magY", "magZ", "mag_abs", "mag_time", "gyrX", "gyrY", "gyrZ", "gyr_abs",
            "gyr_time", "accX", "accY", "accZ", "acc_abs", "acc_time", "light", "light_time",
        ]
    );
}

#[test]
fn no_two_variables_share_a_wire_name() {
    let all = all_variables();
    assert_eq!(all.len(), 17);
    for (i, a) in all.iter().enumerate() {
        for (j, b) in all.iter().enumerate() {
            if i != j {
                let (left, right): (&str, &str) = (a.as_ref(), b.as_ref());
                assert_ne!(a, b);
                assert_ne!(left, right);
            }
        }
    }
}

#[test]
fn wire_names_are_tokens() {
    for v in all_variables() {
        let name: &str = v.as_ref();
        assert!(!name.is_empty());
        assert!(name.chars().all(|c| c.is_ascii_alphabetic() || c == '_'));
    }
}

#[test]
fn sensors_have_their_wire_names() {
    let all = all_sensors();
    let names: Vec<&str> = all.iter().map(|s| s.as_ref()).collect();
    assert_eq!(
        names,
        vec![
            "magX", "magY", "magZ", "mag_time", "gyrX", "gyrY", "gyrZ", "gyr_time", "accX",
            "accY", "accZ", "acc_time", "light", "light_time",
        ]
    );
}

#[test]
fn no_two_sensors_share_a_wire_name() {
    let all = all_sensors();
    for (i, a) in all.iter().enumerate() {
        for (j, b) in all.iter().enumerate() {
            if i != j {
                let (left, right): (&str, &str) = (a.as_ref(), b.as_ref());
                assert_ne!(left, right);
            }
        }
    }
}

#[test]
fn every_sensor_name_is_the_name_of_a_variable() {
    let all = all_variables();
    let names: Vec<&str> = all.iter().map(|v| v.as_ref()).collect();
    for s in all_sensors() {
        let name: &str = s.as_ref();
        assert!(names.contains(&name));
    }
}

#[test]
fn light_maps_to_its_channels() {
    assert_eq!(SVSensorName::Light.value(), Variables::Light);
    assert_eq!(SVSensorName::Light.time(), Variables::LightTime);
}

#[test]
fn magnetometer_maps_to_its_channels() {
    let m = XYZSensorName::Magnetometer;
    assert_eq!(m.x(), Variables::MagnetometerX);
    assert_eq!(m.y(), Variables::MagnetometerY);
    assert_eq!(m.z(), Variables::MagnetometerZ);
    assert_eq!(m.abs(), Variables::MagnetometerAbs);
    assert_eq!(m.time(), Variables::MagnetometerTime);
}

#[test]
fn acceleration_maps_to_its_channels() {
    let a = XYZSensorName::Acceleration;
    assert_eq!(a.x(), Variables::AccelerationX);
    assert_eq!(a.y(), Variables::AccelerationY);
    assert_eq!(a.z(), Variables::AccelerationZ);
    assert_eq!(a.abs(), Variables::AccelerationAbs);
    assert_eq!(a.time(), Variables::AccelerationTime);
}

#[test]
fn gyroscope_maps_to_its_channels() {
    let g = XYZSensorName::Gyroscope;
    assert_eq!(g.x(), Variables::GyroscopeX);
    assert_eq!(g.y(), Variables::GyroscopeY);
    assert_eq!(g.z(), Variables::GyroscopeZ);
    assert_eq!(g.abs(), Variables::GyroscopeAbs);
    assert_eq!(g.time(), Variables::GyroscopeTime);
}

#[test]
fn sensor_roles_name_seventeen_distinct_channels() {
    let mut seen: Vec<Variables> = Vec::new();
    for kind in [
        XYZSensorName::Magnetometer,
        XYZSensorName::Acceleration,
        XYZSensorName::Gyroscope,
    ] {
        for channel in [kind.x(), kind.y(), kind.z(), kind.abs(), kind.time()] {
            assert!(!seen.contains(&channel));
            seen.push(channel);
        }
    }
    for channel in [SVSensorName::Light.value(), SVSensorName::Light.time()] {
        assert!(!seen.contains(&channel));
        seen.push(channel);
    }
    assert_eq!(seen.len(), 17);
}
