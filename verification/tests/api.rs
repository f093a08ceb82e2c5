use asi_camera::abi::{RawCameraInfo, RawControlCaps, RawSupportedMode};
use asi_camera::api::{
    get_camera_mode, get_camera_property, get_camera_support_mode, get_control_caps,
    get_control_value, get_exp_status, get_roi_format, get_trigger_output_io_conf, reply,
    set_roi_format, set_trigger_output_io_conf, CallError,
};
use asi_camera::camera_info::ASICameraInfo;
use asi_camera::control_caps::ASIControlCaps;
use asi_camera::enums::{ASICameraMode, ASIExposureStatus, ASIImageType, ASITrigOutput};
use asi_camera::error::ASIError;
use asi_camera::text::TextError;

fn garbage_camera() -> RawCameraInfo {
    RawCameraInfo {
        name: [0xff; 64],
        camera_id: -7,
        max_height: i64::MAX,
        max_width: i64::MIN,
        is_color_cam: 77,
        bayer_pattern: 77,
        supported_bins: [77; 16],
        supported_video_format: [77; 8],
        pixel_size: u64::MAX,
        mechanical_shutter: 77,
        st4_port: 77,
        is_cooler_cam: 77,
        is_usb3_host: 77,
        is_usb3_camera: 77,
        elec_per_adu: u32::MAX,
        bit_depth: 77,
        is_trigger_cam: 77,
        unused: [0xff; 16],
    }
}

#[test]
fn reply_gates_the_value_by_the_status() {
    assert_eq!(reply(0, 42), Ok(42));
    assert_eq!(reply(0, (640, 480)), Ok((640, 480)));
    assert_eq!(reply(4, 42), Err(ASIError::CameraClosed));
    assert_eq!(reply(11, vec![1u8, 2, 3]), Err(ASIError::Timeout));
    assert_eq!(reply(0, vec![1u8, 2, 3]), Ok(vec![1u8, 2, 3]));
    assert_eq!(reply(0, (30, 120, 300, 21)), Ok((30, 120, 300, 21)));
}

#[test]
fn camera_property_after_success() {
    let raw = ASICameraInfo::default().to_raw();
    assert_eq!(get_camera_property(0, raw), Ok(ASICameraInfo::default()));
}

#[test]
fn camera_property_after_failure_does_not_read_the_record() {
    assert_eq!(
        get_camera_property(1, garbage_camera()),
        Err(CallError::Sdk(ASIError::InvalidIndex))
    );
    assert_eq!(get_camera_property(2, garbage_camera()), Err(CallError::Sdk(ASIError::InvalidID)));
}

#[test]
fn camera_property_with_unreadable_name() {
    let mut raw = ASICameraInfo::default().to_raw();
    raw.name = [b'z'; 64];
    assert_eq!(get_camera_property(0, raw), Err(CallError::Text(TextError::Unterminated)));
    raw.name[10] = 0;
    raw.name[3] = 0x80;
    assert_eq!(get_camera_property(0, raw), Err(CallError::Text(TextError::InvalidUtf8)));
}

#[test]
fn control_caps_after_success_and_failure() {
    let raw = ASIControlCaps::default().to_raw();
    assert_eq!(get_control_caps(0, raw), Ok(ASIControlCaps::default()));
    let garbage = RawControlCaps {
        name: [0xff; 64],
        description: [0xff; 128],
        max_value: i64::MAX,
        min_value: i64::MIN,
        default_value: 1 << 33,
        is_auto_supported: 9,
        is_writable: 9,
        control_type: 99,
        unused: [1; 32],
    };
    assert_eq!(get_control_caps(3, garbage), Err(CallError::Sdk(ASIError::InvalidControlType)));
    let mut raw = ASIControlCaps::default().to_raw();
    raw.description = [b'd'; 128];
    assert_eq!(get_control_caps(0, raw), Err(CallError::Text(TextError::Unterminated)));
}

#[test]
fn control_value_is_narrowed_and_its_flag_decoded() {
    assert_eq!(get_control_value(0, 120, 1), Ok((120, true)));
    assert_eq!(get_control_value(0, -155, 0), Ok((-155, false)));
    assert_eq!(get_control_value(0, 2147483647, 0), Ok((i32::MAX, false)));
    assert_eq!(get_control_value(3, i64::MAX, 55), Err(ASIError::InvalidControlType));
}

#[test]
fn roi_format_arguments_and_reply() {
    assert_eq!(set_roi_format(640, 480, 2, ASIImageType::Raw16), (640, 480, 2, 2));
    assert_eq!(set_roi_format(1280, 960, 1, ASIImageType::Raw8), (1280, 960, 1, 0));
    assert_eq!(get_roi_format(0, 640, 480, 2, 2), Ok((640, 480, 2, ASIImageType::Raw16)));
    assert_eq!(get_roi_format(0, 1280, 960, 1, 1), Ok((1280, 960, 1, ASIImageType::Rgb24)));
    assert_eq!(get_roi_format(4, 0, 0, 0, 99), Err(ASIError::CameraClosed));
}

#[test]
fn roi_format_that_was_set_is_read_back() {
    for ty in [ASIImageType::Raw8, ASIImageType::Rgb24, ASIImageType::Raw16, ASIImageType::Y8] {
        let (w, h, bin, raw_ty) = set_roi_format(800, 600, 1, ty);
        assert_eq!(get_roi_format(0, w, h, bin, raw_ty), Ok((800, 600, 1, ty)));
    }
}

#[test]
fn exposure_status_reply() {
    assert_eq!(get_exp_status(0, 0), Ok(ASIExposureStatus::Idle));
    assert_eq!(get_exp_status(0, 1), Ok(ASIExposureStatus::Working));
    assert_eq!(get_exp_status(0, 2), Ok(ASIExposureStatus::Success));
    assert_eq!(get_exp_status(0, 3), Ok(ASIExposureStatus::Failed));
    assert_eq!(get_exp_status(5, 44), Err(ASIError::CameraRemoved));
}

#[test]
fn camera_mode_replies() {
    assert_eq!(get_camera_mode(0, 0), Ok(ASICameraMode::Normal));
    assert_eq!(get_camera_mode(0, 5), Ok(ASICameraMode::TrigHighLevel));
    assert_eq!(get_camera_mode(17, 88), Err(ASIError::InvalidMode));
    let mut slots = [-1; 16];
    slots[0] = 0;
    slots[1] = 3;
    let raw = RawSupportedMode { supported_camera_mode: slots };
    assert_eq!(
        get_camera_support_mode(0, raw).map(|m| m.supported_camera_mode),
        Ok(vec![ASICameraMode::Normal, ASICameraMode::TrigFallEdge])
    );
    let garbage = RawSupportedMode { supported_camera_mode: [1234; 16] };
    assert_eq!(get_camera_support_mode(16, garbage), Err(ASIError::GeneralError));
}

#[test]
fn trigger_output_arguments_and_reply() {
    assert_eq!(
        set_trigger_output_io_conf(ASITrigOutput::PinB, true, 100, -1),
        (1, 1, 100i64, -1i64)
    );
    assert_eq!(set_trigger_output_io_conf(ASITrigOutput::NoPin, false, 0, 0), (-1, 0, 0i64, 0i64));
    assert_eq!(get_trigger_output_io_conf(0, 1, 100, 2000), Ok((true, 100, 2000)));
    assert_eq!(get_trigger_output_io_conf(0, 0, -1, 0), Ok((false, -1, 0)));
    assert_eq!(
        get_trigger_output_io_conf(12, 9, i64::MAX, i64::MIN),
        Err(ASIError::InvalidSequence)
    );
}

#[test]
fn trigger_output_that_was_set_is_read_back() {
    let (_pin, high, delay, duration) =
        set_trigger_output_io_conf(ASITrigOutput::PinA, true, i32::MAX, i32::MIN);
    assert_eq!(
        get_trigger_output_io_conf(0, high, delay, duration),
        Ok((true, i32::MAX, i32::MIN))
    );
}
