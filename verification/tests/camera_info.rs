use asi_camera::abi::RawCameraInfo;
use asi_camera::camera_info::{formats_from_raw, formats_known, formats_to_raw, ASICameraInfo};
use asi_camera::enums::{ASIBayerPattern, ASIImageType};
use asi_camera::text::TextError;

fn name_buffer(text: &[u8]) -> [u8; 64] {
    let mut out = [0u8; 64];
    out[..text.len()].copy_from_slice(text);
    out
}

fn asi120_raw() -> RawCameraInfo {
    let mut supported_bins = [0i32; 16];
    supported_bins[0] = 1;
    supported_bins[1] = 2;
    let mut supported_video_format = [-1i32; 8];
    supported_video_format[0] = 0;
    supported_video_format[1] = 1;
    RawCameraInfo {
        name: name_buffer(b"ZWO ASI120\0"),
        camera_id: 0,
        max_height: 960,
        max_width: 1280,
        is_color_cam: 1,
        bayer_pattern: 0,
        supported_bins,
        supported_video_format,
        pixel_size: 3.75f64.to_bits(),
        mechanical_shutter: 0,
        st4_port: 1,
        is_cooler_cam: 0,
        is_usb3_host: 0,
        is_usb3_camera: 0,
        elec_per_adu: 0.25f32.to_bits(),
        bit_depth: 12,
        is_trigger_cam: 0,
        unused: [0u8; 16],
    }
}

fn asi120() -> ASICameraInfo {
    ASICameraInfo {
        name: String::from("ZWO ASI120"),
        camera_id: 0,
        max_height: 960,
        max_width: 1280,
        is_color_cam: true,
        bayer_pattern: ASIBayerPattern::RG,
        supported_bins: vec![1, 2],
        supported_video_format: vec![ASIImageType::Raw8, ASIImageType::Rgb24],
        pixel_size: 3.75f64.to_bits(),
        mechanical_shutter: false,
        st4_port: true,
        is_cooler_cam: false,
        is_usb3_host: false,
        is_usb3_camera: false,
        elec_per_adu: 0.25f32.to_bits(),
        bit_depth: 12,
        is_trigger_cam: false,
    }
}

#[test]
fn property_record_decodes_to_the_snapshot() {
    let raw = asi120_raw();
    assert!(ASICameraInfo::accepts(&raw));
    let info = ASICameraInfo::from_raw(raw).unwrap();
    assert_eq!(info.name, "ZWO ASI120");
    assert!(info.is_color_cam);
    assert_eq!(info.bayer_pattern, ASIBayerPattern::RG);
    assert_eq!(info.supported_bins, vec![1, 2]);
    assert_eq!(info.supported_video_format, vec![ASIImageType::Raw8, ASIImageType::Rgb24]);
    assert_eq!(f64::from_bits(info.pixel_size), 3.75);
    assert_eq!(f32::from_bits(info.elec_per_adu), 0.25);
    assert_eq!(info, asi120());
}

#[test]
fn snapshot_encodes_to_the_same_record_byte_for_byte() {
    let raw = asi120_raw();
    let info = ASICameraInfo::from_raw(raw).unwrap();
    assert!(info.fits_raw());
    assert_eq!(info.to_raw(), raw);
    assert_eq!(asi120().to_raw(), raw);
}

#[test]
fn padding_is_zeroed_and_never_read() {
    let mut raw = asi120_raw();
    raw.unused = [0xaa; 16];
    let info = ASICameraInfo::from_raw(raw).unwrap();
    assert_eq!(info, asi120());
    assert_eq!(info.to_raw().unused, [0u8; 16]);
}

#[test]
fn empty_snapshot_round_trips() {
    let empty = ASICameraInfo::default();
    assert_eq!(empty.name, "");
    assert_eq!(empty.bayer_pattern, ASIBayerPattern::RG);
    assert!(empty.supported_bins.is_empty());
    assert!(empty.supported_video_format.is_empty());
    assert!(empty.fits_raw());
    let raw = empty.to_raw();
    assert_eq!(raw.name, [0u8; 64]);
    assert_eq!(raw.supported_bins, [0; 16]);
    assert_eq!(raw.supported_video_format, [-1; 8]);
    assert!(ASICameraInfo::accepts(&raw));
    assert_eq!(ASICameraInfo::from_raw(raw), Ok(empty));
}

#[test]
fn fullest_snapshot_round_trips() {
    let mut info = asi120();
    info.name = "x".repeat(63);
    info.supported_bins = (1..=16).collect();
    info.supported_video_format = vec![
        ASIImageType::Raw8,
        ASIImageType::Rgb24,
        ASIImageType::Raw16,
        ASIImageType::Y8,
        ASIImageType::Raw8,
        ASIImageType::Rgb24,
        ASIImageType::Raw16,
        ASIImageType::Y8,
    ];
    info.max_height = i32::MAX;
    info.max_width = i32::MIN;
    info.is_trigger_cam = true;
    info.bayer_pattern = ASIBayerPattern::GB;
    assert!(info.fits_raw());
    let raw = info.to_raw();
    assert_eq!(raw.name[62], b'x');
    assert_eq!(raw.name[63], 0);
    assert_eq!(raw.supported_bins[15], 16);
    assert_eq!(raw.supported_video_format, [0, 1, 2, 3, 0, 1, 2, 3]);
    assert_eq!(raw.max_height, 2147483647);
    assert_eq!(raw.max_width, -2147483648);
    assert!(ASICameraInfo::accepts(&raw));
    assert_eq!(ASICameraInfo::from_raw(raw), Ok(info));
}

#[test]
fn what_does_not_fit_is_told() {
    let mut info = asi120();
    info.name = "x".repeat(64);
    assert!(!info.fits_raw());
    let mut info = asi120();
    info.supported_bins = vec![1; 17];
    assert!(!info.fits_raw());
    let mut info = asi120();
    info.supported_video_format = vec![ASIImageType::Raw8; 9];
    assert!(!info.fits_raw());
}

#[test]
fn record_with_unknown_values_is_not_accepted() {
    let mut raw = asi120_raw();
    raw.is_color_cam = 2;
    assert!(!ASICameraInfo::accepts(&raw));
    let mut raw = asi120_raw();
    raw.bayer_pattern = 4;
    assert!(!ASICameraInfo::accepts(&raw));
    let mut raw = asi120_raw();
    raw.supported_video_format[1] = 9;
    assert!(!ASICameraInfo::accepts(&raw));
    let mut raw = asi120_raw();
    raw.is_trigger_cam = -1;
    assert!(!ASICameraInfo::accepts(&raw));
    let mut raw = asi120_raw();
    raw.max_width = i32::MAX as i64 + 1;
    assert!(!ASICameraInfo::accepts(&raw));
}

#[test]
fn unknown_value_behind_the_end_tag_is_not_read() {
    let mut raw = asi120_raw();
    raw.supported_video_format[5] = 9;
    assert!(ASICameraInfo::accepts(&raw));
    assert_eq!(ASICameraInfo::from_raw(raw), Ok(asi120()));
}

#[test]
fn unreadable_name_is_a_text_error() {
    let mut raw = asi120_raw();
    raw.name = [b'n'; 64];
    assert_eq!(ASICameraInfo::from_raw(raw), Err(TextError::Unterminated));
    let mut raw = asi120_raw();
    raw.name[0] = 0xff;
    assert_eq!(ASICameraInfo::from_raw(raw), Err(TextError::InvalidUtf8));
}

#[test]
fn format_lists_decode_and_encode() {
    assert_eq!(formats_from_raw(&[-1, 0, 1, 2]), Vec::<ASIImageType>::new());
    assert_eq!(
        formats_from_raw(&[3, 2, 1, 0]),
        vec![ASIImageType::Y8, ASIImageType::Raw16, ASIImageType::Rgb24, ASIImageType::Raw8]
    );
    assert_eq!(formats_from_raw(&[2, -1, 7, 7]), vec![ASIImageType::Raw16]);
    assert!(formats_known(&[2, -1, 7, 7]));
    assert!(!formats_known(&[2, 7, -1, -1]));
    let raw: [i32; 8] = formats_to_raw(&[ASIImageType::Raw16, ASIImageType::Y8]);
    assert_eq!(raw, [2, 3, -1, -1, -1, -1, -1, -1]);
    let none: [i32; 8] = formats_to_raw(&[]);
    assert_eq!(none, [-1; 8]);
}

#[test]
fn invariant_is_checked() {
    assert!(asi120().is_well_formed());
    assert!(asi120().is_representable());
    assert!(ASICameraInfo::default().is_representable());
    let mut info = asi120();
    info.supported_bins = vec![1, 0, 2];
    assert!(!info.is_well_formed());
    assert!(!info.is_representable());
    let mut info = asi120();
    info.supported_video_format = vec![ASIImageType::Raw8, ASIImageType::End];
    assert!(!info.is_well_formed());
    let mut info = asi120();
    info.supported_bins = vec![1; 17];
    assert!(!info.is_well_formed());
    let mut info = asi120();
    info.name = String::from("ZWO\0ASI120");
    assert!(info.is_well_formed());
    assert!(info.fits_raw());
    assert!(!info.is_representable());
}

#[test]
fn snapshot_that_is_not_representable_comes_back_changed() {
    let mut info = asi120();
    info.supported_bins = vec![1, 0, 2];
    info.name = String::from("ZWO\0ASI120");
    let back = ASICameraInfo::from_raw(info.to_raw()).unwrap();
    assert_eq!(back.supported_bins, vec![1]);
    assert_eq!(back.name, "ZWO");
    assert!(back.is_representable());
    assert_eq!(ASICameraInfo::from_raw(back.to_raw()), Ok(back));
}
