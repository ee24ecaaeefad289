use charger_setup::config::Config;

#[test]
fn default_settings() {
    let c = Config::default();
    assert_eq!(c.serial_number, "60AE73B03BUQ059");
    assert_eq!(c.charger_host, "192.168.2.200");
    assert_eq!(c.charger_port, 80);
    assert_eq!(c.scan_secs, 5);
    assert_eq!(c.request_timeout_secs, 10);
}

#[test]
fn default_status_url() {
    let c = Config::default();
    assert_eq!(
        c.status_url(),
        "http://192.168.2.200:80/i/auth/pub/v1/chargers/getChargerInfo"
    );
}

#[test]
fn status_url_with_other_port() {
    let mut c = Config::default();
    c.charger_host = String::from("10.0.0.7");
    c.charger_port = 8080;
    assert_eq!(
        c.status_url(),
        "http://10.0.0.7:8080/i/auth/pub/v1/chargers/getChargerInfo"
    );
}

#[test]
fn default_request_body() {
    let c = Config::default();
    assert_eq!(c.status_request_body(), "{\"SN\":\"60AE73B03BUQ059\"}");
}

#[test]
fn request_body_escapes_serial() {
    let mut c = Config::default();
    c.serial_number = String::from("a\"b\\c");
    assert_eq!(c.status_request_body(), "{\"SN\":\"a\\\"b\\\\c\"}");
}

#[test]
fn request_body_escapes_controls() {
    let mut c = Config::default();
    c.serial_number = String::from("a\n\t\u{1}\u{1f}\u{7f}é/");
    assert_eq!(
        c.status_request_body(),
        "{\"SN\":\"a\\n\\t\\u0001\\u001f\u{7f}é/\"}"
    );
}
