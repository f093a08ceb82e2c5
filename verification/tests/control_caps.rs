use asi_camera::abi::RawControlCaps;
use asi_camera::control_caps::ASIControlCaps;
use asi_camera::enums::ASIControlType;
use asi_camera::text::TextError;

fn buffer<const N: usize>(text: &[u8]) -> [u8; N] {
    let mut out = [0u8; N];
    out[..text.len()].copy_from_slice(text);
    out
}

fn gain_raw() -> RawControlCaps {
    RawControlCaps {
        name: buffer(b"Gain"),
        description: buffer(b"Gain"),
        max_value: 100,
        min_value: 0,
        default_value: 50,
        is_auto_supported: 1,
        is_writable: 1,
        control_type: 0,
        unused: [0u8; 32],
    }
}

fn gain() -> ASIControlCaps {
    ASIControlCaps {
        name: String::from("Gain"),
        description: String::from("Gain"),
        max_value: 100,
        min_value: 0,
        default_value: 50,
        is_auto_supported: true,
        is_writable: true,
        control_type: ASIControlType::Gain,
    }
}

#[test]
fn capability_record_decodes() {
    let raw = gain_raw();
    assert!(ASIControlCaps::accepts(&raw));
    assert_eq!(ASIControlCaps::from_raw(raw), Ok(gain()));
}

#[test]
fn capability_encodes_to_the_same_record() {
    assert!(gain().fits_raw());
    assert_eq!(gain().to_raw(), gain_raw());
}

#[test]
fn temperature_capability_round_trips() {
    let caps = ASIControlCaps {
        name: String::from("Temperature"),
        description: String::from("Sensor temperature(degrees Celsius)"),
        max_value: 1000,
        min_value: -500,
        default_value: 20,
        is_auto_supported: false,
        is_writable: false,
        control_type: ASIControlType::Temperature,
    };
    let raw = caps.to_raw();
    assert_eq!(raw.control_type, 8);
    assert_eq!(raw.min_value, -500);
    assert_eq!(raw.is_writable, 0);
    assert_eq!(&raw.description[..6], b"Sensor");
    assert_eq!(ASIControlCaps::from_raw(raw), Ok(caps));
}

#[test]
fn empty_capability_round_trips() {
    let empty = ASIControlCaps::default();
    assert_eq!(empty.name, "");
    assert_eq!(empty.description, "");
    assert_eq!(empty.control_type, ASIControlType::Gain);
    assert_eq!((empty.min_value, empty.default_value, empty.max_value), (0, 0, 0));
    let raw = empty.to_raw();
    assert_eq!(raw.name, [0u8; 64]);
    assert_eq!(raw.description, [0u8; 128]);
    assert_eq!(raw.unused, [0u8; 32]);
    assert_eq!(ASIControlCaps::from_raw(raw), Ok(empty));
}

#[test]
fn longest_texts_round_trip() {
    let mut caps = gain();
    caps.name = "n".repeat(63);
    caps.description = "d".repeat(127);
    assert!(caps.fits_raw());
    let raw = caps.to_raw();
    assert_eq!(raw.name[63], 0);
    assert_eq!(raw.description[126], b'd');
    assert_eq!(raw.description[127], 0);
    assert_eq!(ASIControlCaps::from_raw(raw), Ok(caps));
}

#[test]
fn texts_that_are_too_long_do_not_fit() {
    let mut caps = gain();
    caps.name = "n".repeat(64);
    assert!(!caps.fits_raw());
    let mut caps = gain();
    caps.description = "d".repeat(128);
    assert!(!caps.fits_raw());
}

#[test]
fn capability_record_with_unknown_values_is_not_accepted() {
    let mut raw = gain_raw();
    raw.control_type = 22;
    assert!(!ASIControlCaps::accepts(&raw));
    let mut raw = gain_raw();
    raw.is_writable = 3;
    assert!(!ASIControlCaps::accepts(&raw));
    let mut raw = gain_raw();
    raw.max_value = 1 << 40;
    assert!(!ASIControlCaps::accepts(&raw));
}

#[test]
fn name_is_read_before_description() {
    let mut raw = gain_raw();
    raw.name = [b'n'; 64];
    raw.description[0] = 0xff;
    assert_eq!(ASIControlCaps::from_raw(raw), Err(TextError::Unterminated));
    let mut raw = gain_raw();
    raw.description[0] = 0xff;
    assert_eq!(ASIControlCaps::from_raw(raw), Err(TextError::InvalidUtf8));
}

#[test]
fn range_is_taken_as_it_stands() {
    let mut raw = gain_raw();
    raw.default_value = 500;
    let caps = ASIControlCaps::from_raw(raw).unwrap();
    assert_eq!((caps.min_value, caps.default_value, caps.max_value), (0, 500, 100));
}

#[test]
fn capability_invariant_is_checked() {
    assert!(gain().is_well_formed());
    assert!(gain().is_representable());
    assert!(ASIControlCaps::default().is_well_formed());
    let mut caps = gain();
    caps.default_value = 101;
    assert!(!caps.is_well_formed());
    caps.default_value = 100;
    assert!(caps.is_well_formed());
    caps.min_value = 101;
    assert!(!caps.is_well_formed());
    let mut caps = gain();
    caps.description = String::from("Gain\0(dB)");
    assert!(caps.fits_raw());
    assert!(!caps.is_representable());
}
