use phyphox_api::PhyphoxClient;
use phyphox_api::Variables;

#[test]
fn retrieval_of_nothing_has_an_empty_query() {
    let client = PhyphoxClient::new("192.168.0.1:8080");
    assert_eq!(client.retrieve_request(), "http://192.168.0.1:8080/get?");
}

#[test]
fn retrieval_of_one_channel_has_no_separator() {
    let mut client = PhyphoxClient::new("192.168.0.1:8080");
    client.register(Variables::AccelerationAbs);
    assert_eq!(client.retrieve_request(), "http://192.168.0.1:8080/get?acc_abs");
}

#[test]
fn retrieval_names_every_channel_in_registration_order() {
    let mut client = PhyphoxClient::new("192.168.0.1:8080");
    client.register(Variables::Light);
    client.register(Variables::MagnetometerX);
    client.register(Variables::MagnetometerY);
    client.register(Variables::MagnetometerZ);
    assert_eq!(
        client.retrieve_request(),
        "http://192.168.0.1:8080/get?light&magX&magY&magZ"
    );
    client.register(Variables::LightTime);
    client.register(Variables::MagnetometerX);
    assert_eq!(
        client.retrieve_request(),
        "http://192.168.0.1:8080/get?light&magX&magY&magZ&light_time"
    );
}

#[test]
fn address_is_taken_as_given() {
    let client = PhyphoxClient::new("phone.local");
    assert_eq!(client.retrieve_request(), "http://phone.local/get?");
    let client = PhyphoxClient::new("");
    assert_eq!(client.retrieve_request(), "http:///get?");
    assert_eq!(client.stop(), "http:///control?cmd=stop");
}

#[test]
fn control_start_asks_for_the_start_command() {
    let client = PhyphoxClient::new("127.0.0.1:8080");
    assert_eq!(client.control("start"), "http://127.0.0.1:8080/control?cmd=start");
}

#[test]
fn control_passes_any_command_on() {
    let client = PhyphoxClient::new("127.0.0.1:8080");
    assert_eq!(client.control("pause"), "http://127.0.0.1:8080/control?cmd=pause");
    assert_eq!(client.control(""), "http://127.0.0.1:8080/control?cmd=");
}

#[test]
fn named_commands_are_control_requests() {
    let client = PhyphoxClient::new("127.0.0.1:8080");
    assert_eq!(client.start(), client.control("start"));
    assert_eq!(client.stop(), client.control("stop"));
    assert_eq!(client.clear(), client.control("clear"));
    assert_eq!(client.start(), "http://127.0.0.1:8080/control?cmd=start");
    assert_eq!(client.stop(), "http://127.0.0.1:8080/control?cmd=stop");
    assert_eq!(client.clear(), "http://127.0.0.1:8080/control?cmd=clear");
}

#[test]
fn clear_leaves_the_registry_alone() {
    let mut client = PhyphoxClient::new("127.0.0.1:8080");
    client.register(Variables::Light);
    let _ = client.clear();
    assert_eq!(client.len(), 1);
    assert_eq!(client.retrieve_request(), "http://127.0.0.1:8080/get?light");
}
