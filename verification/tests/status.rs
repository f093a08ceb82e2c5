use asi_camera::error::{decimal_string, ASIError, ASI_ERROR_LAST, ASI_SUCCESS};

const ALL: [ASIError; 18] = [
    ASIError::InvalidIndex,
    ASIError::InvalidID,
    ASIError::InvalidControlType,
    ASIError::CameraClosed,
    ASIError::CameraRemoved,
    ASIError::InvalidPath,
    ASIError::InvalidFileformat,
    ASIError::InvalidSize,
    ASIError::InvalidImgtype,
    ASIError::OutofBoundary,
    ASIError::Timeout,
    ASIError::InvalidSequence,
    ASIError::BufferTooSmall,
    ASIError::VideoModeActive,
    ASIError::ExposureInProgress,
    ASIError::GeneralError,
    ASIError::InvalidMode,
    ASIError::End,
];

#[test]
fn success_code_maps_to_ok() {
    assert_eq!(ASI_SUCCESS, 0);
    assert!(ASIError::is_known(0));
    assert_eq!(ASIError::from_raw(0), Ok(()));
}

#[test]
fn every_failure_code_maps_to_its_variant() {
    assert_eq!(ASIError::from_raw(1), Err(ASIError::InvalidIndex));
    assert_eq!(ASIError::from_raw(2), Err(ASIError::InvalidID));
    assert_eq!(ASIError::from_raw(3), Err(ASIError::InvalidControlType));
    assert_eq!(ASIError::from_raw(4), Err(ASIError::CameraClosed));
    assert_eq!(ASIError::from_raw(5), Err(ASIError::CameraRemoved));
    assert_eq!(ASIError::from_raw(6), Err(ASIError::InvalidPath));
    assert_eq!(ASIError::from_raw(7), Err(ASIError::InvalidFileformat));
    assert_eq!(ASIError::from_raw(8), Err(ASIError::InvalidSize));
    assert_eq!(ASIError::from_raw(9), Err(ASIError::InvalidImgtype));
    assert_eq!(ASIError::from_raw(10), Err(ASIError::OutofBoundary));
    assert_eq!(ASIError::from_raw(11), Err(ASIError::Timeout));
    assert_eq!(ASIError::from_raw(12), Err(ASIError::InvalidSequence));
    assert_eq!(ASIError::from_raw(13), Err(ASIError::BufferTooSmall));
    assert_eq!(ASIError::from_raw(14), Err(ASIError::VideoModeActive));
    assert_eq!(ASIError::from_raw(15), Err(ASIError::ExposureInProgress));
    assert_eq!(ASIError::from_raw(16), Err(ASIError::GeneralError));
    assert_eq!(ASIError::from_raw(17), Err(ASIError::InvalidMode));
    assert_eq!(ASIError::from_raw(18), Err(ASIError::End));
}

#[test]
fn failure_codes_are_distinct_and_come_back() {
    for (i, e) in ALL.iter().enumerate() {
        assert_eq!(e.code(), i as i32 + 1);
        assert_eq!(ASIError::from_raw(e.code()), Err(*e));
        for other in ALL.iter().skip(i + 1) {
            assert_ne!(e.code(), other.code());
        }
    }
}

#[test]
fn codes_outside_the_documented_set_are_unknown() {
    assert_eq!(ASI_ERROR_LAST, 18);
    assert!(!ASIError::is_known(-1));
    assert!(!ASIError::is_known(19));
    assert!(!ASIError::is_known(i32::MAX));
    assert!(!ASIError::is_known(i32::MIN));
    for code in 0..=18 {
        assert!(ASIError::is_known(code));
    }
}

#[test]
fn descriptions_are_the_documented_words() {
    assert_eq!(ASIError::InvalidID.description(), "Invalid id");
    assert_eq!(ASIError::OutofBoundary.description(), "Out of boundary");
    assert_eq!(ASIError::ExposureInProgress.description(), "Exposure in progress");
}

#[test]
fn messages_carry_description_and_code() {
    let expected = [
        "Invalid index. asi error code 1",
        "Invalid id. asi error code 2",
        "Invalid control type. asi error code 3",
        "Camera closed. asi error code 4",
        "Camera removed. asi error code 5",
        "Invalid path. asi error code 6",
        "Invalid file format. asi error code 7",
        "Invalid size. asi error code 8",
        "Invalid image type. asi error code 9",
        "Out of boundary. asi error code 10",
        "Timeout. asi error code 11",
        "Invalid sequence. asi error code 12",
        "Buffer too small. asi error code 13",
        "Video mode active. asi error code 14",
        "Exposure in progress. asi error code 15",
        "General error. asi error code 16",
        "Invalid mode. asi error code 17",
        "End. asi error code 18",
    ];
    for (e, text) in ALL.iter().zip(expected.iter()) {
        assert_eq!(e.message(), *text);
    }
}

#[test]
fn decimal_string_writes_numerals() {
    assert_eq!(decimal_string(0), "0");
    assert_eq!(decimal_string(7), "7");
    assert_eq!(decimal_string(10), "10");
    assert_eq!(decimal_string(18), "18");
    assert_eq!(decimal_string(1905), "1905");
    assert_eq!(decimal_string(u32::MAX), "4294967295");
}
