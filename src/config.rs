//! What a provisioning run is pointed at, and the status request built from it.

use vstd::prelude::*;

use crate::decimal::{decimal, decimal_string, digit_char};

verus! {

/// The settings of one provisioning run.
pub struct Config {
    /// Serial number of the charger; looked for in advertised names and
    /// characteristic values, and sent in the status request.
    pub serial_number: String,
    /// Host of the charger's local HTTP API.
    pub charger_host: String,
    /// Port of the charger's local HTTP API.
    pub charger_port: u16,
    /// How long the Bluetooth scan runs before peripherals are listed.
    pub scan_secs: u64,
    /// How long the status request may take before it fails.
    pub request_timeout_secs: u64,
}

impl Default for Config {
    fn default() -> (r: Self)
        ensures
            r.serial_number@ == "60AE73B03BUQ059"@,
            r.charger_host@ == "192.168.2.200"@,
            r.charger_port == 80,
            r.scan_secs == 5,
            r.request_timeout_secs == 10,
    {
        Config {
            serial_number: String::from_str("60AE73B03BUQ059"),
            charger_host: String::from_str("192.168.2.200"),
            charger_port: 80,
            scan_secs: 5,
            request_timeout_secs: 10,
        }
    }
}

/// The address of the status endpoint on `host` and `port`.
pub open spec fn status_url_of(host: Seq<char>, port: u16) -> Seq<char> {
    "http://"@ + host + ":"@ + decimal(port as nat) + "/i/auth/pub/v1/chargers/getChargerInfo"@
}

/// The request body that carries a serial number already written as a JSON
/// string literal.
pub open spec fn status_body_of(serial_literal: Seq<char>) -> Seq<char> {
    "{\"SN\":"@ + serial_literal + "}"@
}

/// The lowercase hexadecimal digit for `d`, which is below sixteen.
pub open spec fn lower_hex_digit(d: u32) -> char {
    if d < 10 {
        digit_char(d as nat)
    } else if d == 10 {
        'a'
    } else if d == 11 {
        'b'
    } else if d == 12 {
        'c'
    } else if d == 13 {
        'd'
    } else if d == 14 {
        'e'
    } else {
        'f'
    }
}

/// How one character is written inside a JSON string literal: the quote,
/// the backslash and the control characters below U+0020 are escaped, the
/// common controls by their short forms, the others as `\u00XX`.
pub open spec fn json_escape_char(c: char) -> Seq<char> {
    let v = c as u32;
    if c == '"' {
        seq!['\\', '"']
    } else if c == '\\' {
        seq!['\\', '\\']
    } else if v == 0x08 {
        seq!['\\', 'b']
    } else if v == 0x09 {
        seq!['\\', 't']
    } else if v == 0x0a {
        seq!['\\', 'n']
    } else if v == 0x0c {
        seq!['\\', 'f']
    } else if v == 0x0d {
        seq!['\\', 'r']
    } else if v < 0x20 {
        seq!['\\', 'u', '0', '0', lower_hex_digit(v / 16), lower_hex_digit(v % 16)]
    } else {
        seq![c]
    }
}

/// The characters of a text, each written as inside a JSON string literal.
pub open spec fn json_escaped(s: Seq<char>) -> Seq<char>
    decreases s.len(),
{
    if s.len() == 0 {
        Seq::empty()
    } else {
        json_escape_char(s[0]) + json_escaped(s.drop_first())
    }
}

/// The compact JSON string literal for a text.
pub open spec fn json_string_literal(s: Seq<char>) -> Seq<char> {
    seq!['"'] + json_escaped(s) + seq!['"']
}

/// Relies on serde_json's `Value::String` and its `Display` impl, which
/// writes the value as a compact JSON string literal with the escapes above.
#[verifier::external_body]
fn json_quote(s: &str) -> (r: String)
    ensures
        r@ == json_string_literal(s@),
{
    serde_json::Value::String(s.to_owned()).to_string()
}

impl Config {
    /// The address of the charger's status endpoint.
    pub fn status_url(&self) -> (r: String)
        ensures
            r@ == status_url_of(self.charger_host@, self.charger_port),
    {
        let s = String::from_str("http://");
        let s = s.concat(self.charger_host.as_str());
        let s = s.concat(":");
        let port = decimal_string(self.charger_port as u64);
        let s = s.concat(port.as_str());
        let r = s.concat("/i/auth/pub/v1/chargers/getChargerInfo");
        assert(r@ =~= status_url_of(self.charger_host@, self.charger_port));
        r
    }

    /// The JSON body of the status request: the serial number under `SN`.
    pub fn status_request_body(&self) -> (r: String)
        ensures
            r@ == status_body_of(json_string_literal(self.serial_number@)),
    {
        let literal = json_quote(self.serial_number.as_str());
        let s = String::from_str("{\"SN\":");
        let s = s.concat(literal.as_str());
        s.concat("}")
    }
}

} // verus!
