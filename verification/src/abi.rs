//! The vendor ABI as plain values: the numeric value of every enumerator,
//! the capacity of every fixed buffer, and one record per SDK struct.
//!
//! Nothing here decides anything.  The typed layer reads and fills these
//! records; the caller copies them to and from the SDK's own structs field
//! by field.

use vstd::prelude::*;

verus! {

// Bayer patterns.
pub const ASI_BAYER_RG: i32 = 0;
pub const ASI_BAYER_BG: i32 = 1;
pub const ASI_BAYER_GR: i32 = 2;
pub const ASI_BAYER_GB: i32 = 3;

// Image types, and the tag that ends a list of them.
pub const ASI_IMG_RAW8: i32 = 0;
pub const ASI_IMG_RGB24: i32 = 1;
pub const ASI_IMG_RAW16: i32 = 2;
pub const ASI_IMG_Y8: i32 = 3;
pub const ASI_IMG_END: i32 = -1;

// Guide directions.
pub const ASI_GUIDE_NORTH: i32 = 0;
pub const ASI_GUIDE_SOUTH: i32 = 1;
pub const ASI_GUIDE_EAST: i32 = 2;
pub const ASI_GUIDE_WEST: i32 = 3;

// Flip states.
pub const ASI_FLIP_NONE: i32 = 0;
pub const ASI_FLIP_HORIZ: i32 = 1;
pub const ASI_FLIP_VERT: i32 = 2;
pub const ASI_FLIP_BOTH: i32 = 3;

// Camera modes, and the tag that ends a list of them.
pub const ASI_MODE_NORMAL: i32 = 0;
pub const ASI_MODE_TRIG_SOFT_EDGE: i32 = 1;
pub const ASI_MODE_TRIG_RISE_EDGE: i32 = 2;
pub const ASI_MODE_TRIG_FALL_EDGE: i32 = 3;
pub const ASI_MODE_TRIG_SOFT_LEVEL: i32 = 4;
pub const ASI_MODE_TRIG_HIGH_LEVEL: i32 = 5;
pub const ASI_MODE_TRIG_LOW_LEVEL: i32 = 6;
pub const ASI_MODE_END: i32 = -1;

// Trigger output pins.
pub const ASI_TRIG_OUTPUT_PINA: i32 = 0;
pub const ASI_TRIG_OUTPUT_PINB: i32 = 1;
pub const ASI_TRIG_OUTPUT_NONE: i32 = -1;

// Booleans.
pub const ASI_FALSE: i32 = 0;
pub const ASI_TRUE: i32 = 1;

// Control types.
pub const ASI_GAIN: i32 = 0;
pub const ASI_EXPOSURE: i32 = 1;
pub const ASI_GAMMA: i32 = 2;
pub const ASI_WB_R: i32 = 3;
pub const ASI_WB_B: i32 = 4;
pub const ASI_OFFSET: i32 = 5;
pub const ASI_BANDWIDTHOVERLOAD: i32 = 6;
pub const ASI_OVERCLOCK: i32 = 7;
pub const ASI_TEMPERATURE: i32 = 8;
pub const ASI_FLIP: i32 = 9;
pub const ASI_AUTO_MAX_GAIN: i32 = 10;
pub const ASI_AUTO_MAX_EXP: i32 = 11;
pub const ASI_AUTO_TARGET_BRIGHTNESS: i32 = 12;
pub const ASI_HARDWARE_BIN: i32 = 13;
pub const ASI_HIGH_SPEED_MODE: i32 = 14;
pub const ASI_COOLER_POWER_PERC: i32 = 15;
pub const ASI_TARGET_TEMP: i32 = 16;
pub const ASI_COOLER_ON: i32 = 17;
pub const ASI_MONO_BIN: i32 = 18;
pub const ASI_FAN_ON: i32 = 19;
pub const ASI_PATTERN_ADJUST: i32 = 20;
pub const ASI_ANTI_DEW_HEATER: i32 = 21;

// Exposure states.
pub const ASI_EXP_IDLE: i32 = 0;
pub const ASI_EXP_WORKING: i32 = 1;
pub const ASI_EXP_SUCCESS: i32 = 2;
pub const ASI_EXP_FAILED: i32 = 3;

/// The value that ends the list of binning factors.
pub const BIN_END: i32 = 0;

// Capacities of the fixed buffers.
pub const NAME_CAPACITY: usize = 64;
pub const DESCRIPTION_CAPACITY: usize = 128;
pub const BIN_CAPACITY: usize = 16;
pub const FORMAT_CAPACITY: usize = 8;
pub const MODE_CAPACITY: usize = 16;

/// A camera's property record.
///
/// `max_height` and `max_width` have the SDK's wide integer type.
/// `pixel_size` and `elec_per_adu` are floating-point numbers in the SDK;
/// here they are carried as their IEEE 754 bit patterns and never
/// interpreted.
#[derive(Debug, Clone, Copy, PartialEq, Eq)]
pub struct RawCameraInfo {
    pub name: [u8; 64],
    pub camera_id: i32,
    pub max_height: i64,
    pub max_width: i64,
    pub is_color_cam: i32,
    pub bayer_pattern: i32,
    pub supported_bins: [i32; 16],
    pub supported_video_format: [i32; 8],
    pub pixel_size: u64,
    pub mechanical_shutter: i32,
    pub st4_port: i32,
    pub is_cooler_cam: i32,
    pub is_usb3_host: i32,
    pub is_usb3_camera: i32,
    pub elec_per_adu: u32,
    pub bit_depth: i32,
    pub is_trigger_cam: i32,
    pub unused: [u8; 16],
}

/// What a `RawCameraInfo` holds, its arrays as sequences.
pub struct RawCameraInfoView {
    pub name: Seq<u8>,
    pub camera_id: i32,
    pub max_height: i64,
    pub max_width: i64,
    pub is_color_cam: i32,
    pub bayer_pattern: i32,
    pub supported_bins: Seq<i32>,
    pub supported_video_format: Seq<i32>,
    pub pixel_size: u64,
    pub mechanical_shutter: i32,
    pub st4_port: i32,
    pub is_cooler_cam: i32,
    pub is_usb3_host: i32,
    pub is_usb3_camera: i32,
    pub elec_per_adu: u32,
    pub bit_depth: i32,
    pub is_trigger_cam: i32,
    pub unused: Seq<u8>,
}

impl View for RawCameraInfo {
    type V = RawCameraInfoView;

    open spec fn view(&self) -> RawCameraInfoView {
        RawCameraInfoView {
            name: self.name@,
            camera_id: self.camera_id,
            max_height: self.max_height,
            max_width: self.max_width,
            is_color_cam: self.is_color_cam,
            bayer_pattern: self.bayer_pattern,
            supported_bins: self.supported_bins@,
            supported_video_format: self.supported_video_format@,
            pixel_size: self.pixel_size,
            mechanical_shutter: self.mechanical_shutter,
            st4_port: self.st4_port,
            is_cooler_cam: self.is_cooler_cam,
            is_usb3_host: self.is_usb3_host,
            is_usb3_camera: self.is_usb3_camera,
            elec_per_adu: self.elec_per_adu,
            bit_depth: self.bit_depth,
            is_trigger_cam: self.is_trigger_cam,
            unused: self.unused@,
        }
    }
}

/// A control's capability record.  The three values have the SDK's wide
/// integer type.
#[derive(Debug, Clone, Copy, PartialEq, Eq)]
pub struct RawControlCaps {
    pub name: [u8; 64],
    pub description: [u8; 128],
    pub max_value: i64,
    pub min_value: i64,
    pub default_value: i64,
    pub is_auto_supported: i32,
    pub is_writable: i32,
    pub control_type: i32,
    pub unused: [u8; 32],
}

/// What a `RawControlCaps` holds, its arrays as sequences.
pub struct RawControlCapsView {
    pub name: Seq<u8>,
    pub description: Seq<u8>,
    pub max_value: i64,
    pub min_value: i64,
    pub default_value: i64,
    pub is_auto_supported: i32,
    pub is_writable: i32,
    pub control_type: i32,
    pub unused: Seq<u8>,
}

impl View for RawControlCaps {
    type V = RawControlCapsView;

    open spec fn view(&self) -> RawControlCapsView {
        RawControlCapsView {
            name: self.name@,
            description: self.description@,
            max_value: self.max_value,
            min_value: self.min_value,
            default_value: self.default_value,
            is_auto_supported: self.is_auto_supported,
            is_writable: self.is_writable,
            control_type: self.control_type,
            unused: self.unused@,
        }
    }
}

/// An identifier record: eight bytes, no text.
#[derive(Debug, Clone, Copy, PartialEq, Eq)]
pub struct RawId {
    pub id: [u8; 8],
}

/// The record that lists the modes a camera supports.
#[derive(Debug, Clone, Copy, PartialEq, Eq)]
pub struct RawSupportedMode {
    pub supported_camera_mode: [i32; 16],
}

} // verus!
