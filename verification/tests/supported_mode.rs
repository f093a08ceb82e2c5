use asi_camera::abi::{RawId, RawSupportedMode};
use asi_camera::enums::ASICameraMode;
use asi_camera::identity::ASIID;
use asi_camera::supported_mode::ASISupportedMode;

fn raw_modes(front: &[i32]) -> RawSupportedMode {
    let mut slots = [-1i32; 16];
    slots[..front.len()].copy_from_slice(front);
    RawSupportedMode { supported_camera_mode: slots }
}

#[test]
fn end_tag_in_front_gives_no_modes() {
    let raw = raw_modes(&[]);
    assert!(ASISupportedMode::accepts(&raw));
    assert_eq!(ASISupportedMode::from_raw(raw).supported_camera_mode, vec![]);
}

#[test]
fn modes_before_the_end_tag_are_decoded() {
    let raw = raw_modes(&[0, 1, 4]);
    assert_eq!(
        ASISupportedMode::from_raw(raw).supported_camera_mode,
        vec![ASICameraMode::Normal, ASICameraMode::TrigSoftEdge, ASICameraMode::TrigSoftLevel]
    );
}

#[test]
fn list_without_end_tag_is_decoded_to_its_capacity() {
    let raw = RawSupportedMode { supported_camera_mode: [2; 16] };
    let modes = ASISupportedMode::from_raw(raw);
    assert_eq!(modes.supported_camera_mode, vec![ASICameraMode::TrigRiseEdge; 16]);
    assert_eq!(modes.to_raw(), raw);
}

#[test]
fn modes_round_trip() {
    let lists = [
        vec![],
        vec![ASICameraMode::Normal],
        vec![
            ASICameraMode::Normal,
            ASICameraMode::TrigSoftEdge,
            ASICameraMode::TrigRiseEdge,
            ASICameraMode::TrigFallEdge,
            ASICameraMode::TrigSoftLevel,
            ASICameraMode::TrigHighLevel,
            ASICameraMode::TrigLowLevel,
        ],
    ];
    for list in lists {
        let modes = ASISupportedMode { supported_camera_mode: list };
        assert!(modes.fits_raw());
        let raw = modes.to_raw();
        assert!(ASISupportedMode::accepts(&raw));
        assert_eq!(ASISupportedMode::from_raw(raw), modes);
    }
}

#[test]
fn encoding_fills_with_the_end_tag() {
    let modes = ASISupportedMode {
        supported_camera_mode: vec![ASICameraMode::Normal, ASICameraMode::TrigLowLevel],
    };
    assert_eq!(modes.to_raw(), raw_modes(&[0, 6]));
}

#[test]
fn list_longer_than_the_array_does_not_fit() {
    let modes = ASISupportedMode { supported_camera_mode: vec![ASICameraMode::Normal; 17] };
    assert!(!modes.fits_raw());
    let modes = ASISupportedMode { supported_camera_mode: vec![ASICameraMode::Normal; 16] };
    assert!(modes.fits_raw());
}

#[test]
fn unknown_mode_before_the_end_tag_is_not_accepted() {
    assert!(!ASISupportedMode::accepts(&raw_modes(&[0, 7])));
    assert!(!ASISupportedMode::accepts(&raw_modes(&[-2])));
    let mut raw = raw_modes(&[0]);
    raw.supported_camera_mode[9] = 99;
    assert!(ASISupportedMode::accepts(&raw));
}

#[test]
fn identifier_passes_byte_for_byte() {
    let raw = RawId { id: [0x41, 0x53, 0x49, 0x00, 0xff, 0x01, 0x80, 0x7f] };
    let id = ASIID::from_raw(raw);
    assert_eq!(id.id, [0x41, 0x53, 0x49, 0x00, 0xff, 0x01, 0x80, 0x7f]);
    assert_eq!(id.to_raw(), raw);
    let zero = ASIID { id: [0; 8] };
    assert_eq!(ASIID::from_raw(zero.to_raw()), zero);
}

#[test]
fn mode_list_invariant_is_checked() {
    let modes = ASISupportedMode {
        supported_camera_mode: vec![ASICameraMode::Normal, ASICameraMode::TrigSoftEdge],
    };
    assert!(modes.is_well_formed());
    let modes = ASISupportedMode {
        supported_camera_mode: vec![ASICameraMode::Normal, ASICameraMode::End],
    };
    assert!(!modes.is_well_formed());
    assert_eq!(
        ASISupportedMode::from_raw(modes.to_raw()).supported_camera_mode,
        vec![ASICameraMode::Normal]
    );
    let modes = ASISupportedMode { supported_camera_mode: vec![ASICameraMode::Normal; 17] };
    assert!(!modes.is_well_formed());
}
